use recovery_wallet::Error;
use recovery_wallet::Identity;
use recovery_wallet::RecoveryWalletContract;

const WINDOW: u64 = 86400;
const THRESHOLD: u32 = 2;

fn owner() -> Identity {
    Identity(1)
}

fn recovery_addresses() -> Vec<Identity> {
    vec![Identity(3), Identity(4), Identity(5)]
}

fn setup(init: bool) -> RecoveryWalletContract {
    let mut wallet = RecoveryWalletContract::new();
    if init {
        assert_eq!(
            wallet.init(owner(), recovery_addresses(), THRESHOLD, WINDOW),
            Ok(())
        );
    }
    wallet
}

#[test]
fn test_deposit_and_withdraw_owner() {
    let mut wallet = setup(true);

    let deposit_amount: i128 = 200;

    // Anyone can deposit.
    assert_eq!(wallet.deposit(deposit_amount), Ok(()));

    let balance_after_deposit = wallet.get_balance();
    assert_eq!(balance_after_deposit, deposit_amount);

    let withdraw_amount: i128 = 100;

    // The owner can withdraw.
    assert_eq!(wallet.withdraw(withdraw_amount), Ok(()));

    let balance_after_withdrawal = wallet.get_balance();
    assert_eq!(balance_after_withdrawal, deposit_amount - withdraw_amount);
}

#[test]
fn test_withdraw_more_than_balance() {
    let mut wallet = setup(true);

    assert_eq!(wallet.deposit(200), Ok(()));
    assert_eq!(wallet.withdraw(300), Err(Error::InsufficientFunds));
    assert_eq!(wallet.get_balance(), 200);
}

#[test]
fn test_custody_requires_initialisation() {
    let mut wallet = setup(false);

    assert_eq!(wallet.deposit(200), Err(Error::NotInitialised));
    assert_eq!(wallet.withdraw(100), Err(Error::NotInitialised));
    assert_eq!(wallet.get_balance(), 0);
    assert_eq!(
        wallet.recovery_state(0).unwrap_err(),
        Error::NotInitialised
    );
    assert_eq!(wallet.get_recovery().unwrap_err(), Error::NotInitialised);
    assert_eq!(wallet.sign(Identity(3), 0), Err(Error::NotInitialised));
}

#[test]
fn test_balance_is_sum_of_deposits_minus_withdrawals() {
    let mut wallet = setup(true);

    assert_eq!(wallet.deposit(500), Ok(()));
    assert_eq!(wallet.deposit(250), Ok(()));
    assert_eq!(wallet.withdraw(300), Ok(()));
    assert_eq!(wallet.deposit(50), Ok(()));
    assert_eq!(wallet.withdraw(400), Ok(()));
    assert_eq!(wallet.get_balance(), 500 + 250 - 300 + 50 - 400);

    // A withdrawal that would drive the balance negative is refused and
    // changes nothing.
    assert_eq!(wallet.withdraw(101), Err(Error::InsufficientFunds));
    assert_eq!(wallet.get_balance(), 100);
    assert_eq!(wallet.withdraw(100), Ok(()));
    assert_eq!(wallet.get_balance(), 0);
}
