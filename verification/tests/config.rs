use recovery_wallet::Error;
use recovery_wallet::Identity;
use recovery_wallet::RecoveryWalletContract;
use recovery_wallet::State;

const WINDOW: u64 = 86400;

fn owner() -> Identity {
    Identity(1)
}

#[test]
fn test_init_rejects_duplicate_candidate() {
    let mut wallet = RecoveryWalletContract::new();

    assert_eq!(
        wallet.init(owner(), vec![Identity(3), Identity(4), Identity(3)], 2, WINDOW),
        Err(Error::InvalidRecoveryAddress)
    );

    // The failed call leaves the wallet uninitialised.
    assert_eq!(wallet.recover(Identity(2), 0), Err(Error::NotInitialised));
}

#[test]
fn test_init_rejects_candidate_equal_to_owner() {
    let mut wallet = RecoveryWalletContract::new();

    assert_eq!(
        wallet.init(owner(), vec![Identity(3), Identity(1), Identity(4)], 2, WINDOW),
        Err(Error::InvalidRecoveryAddress)
    );
}

#[test]
fn test_init_rejects_zero_threshold() {
    let mut wallet = RecoveryWalletContract::new();

    assert_eq!(
        wallet.init(owner(), vec![Identity(3), Identity(4), Identity(5)], 0, WINDOW),
        Err(Error::InvalidRecoveryThreshold)
    );
}

#[test]
fn test_init_rejects_threshold_above_set_size() {
    let mut wallet = RecoveryWalletContract::new();

    assert_eq!(
        wallet.init(owner(), vec![Identity(3), Identity(4), Identity(5)], 4, WINDOW),
        Err(Error::InvalidRecoveryThreshold)
    );
}

#[test]
fn test_init_rejects_reinitialisation() {
    let mut wallet = RecoveryWalletContract::new();

    assert_eq!(
        wallet.init(owner(), vec![Identity(3), Identity(4), Identity(5)], 2, WINDOW),
        Ok(())
    );
    assert_eq!(
        wallet.init(Identity(9), vec![Identity(7), Identity(8)], 1, WINDOW),
        Err(Error::AlreadyInitialised)
    );

    // The configuration is untouched by the refused call.
    assert_eq!(wallet.get_owner(), owner());
}

#[test]
fn test_init_leaves_no_recovery_in_flight() {
    let mut wallet = RecoveryWalletContract::new();

    assert_eq!(
        wallet.init(owner(), vec![Identity(3), Identity(4), Identity(5)], 2, WINDOW),
        Ok(())
    );

    assert_eq!(wallet.recovery_state(0), Ok(State::NotInProgress));
    let recovery = wallet.get_recovery().unwrap();
    assert_eq!(recovery.recovery_end_time, 0);
    assert_eq!(recovery.signature_count, 0);
    assert_eq!(recovery.new_owner_address, None);
    assert_eq!(wallet.get_balance(), 0);
}
