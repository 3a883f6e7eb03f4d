use crate::model::distinct;
use crate::model::WalletView;
use crate::types::Identity;
use crate::types::State;
use vstd::prelude::*;

verus! {

/// One recorded custody operation, for stating properties of whole call
/// sequences.
pub ghost enum CustodyOp {
    Deposit { amount: int },
    Withdraw { amount: int },
}

impl CustodyOp {
    /// What one operation does to the wallet: a deposit adds its amount, a
    /// withdrawal subtracts its amount when covered by the balance and is
    /// refused (leaving the wallet unchanged) otherwise.
    pub open spec fn applied(self, wallet: WalletView) -> WalletView {
        match self {
            CustodyOp::Deposit { amount } => wallet.deposited(amount),
            CustodyOp::Withdraw { amount } => {
                if amount <= wallet.balance {
                    wallet.withdrawn(amount)
                } else {
                    wallet
                }
            },
        }
    }
}

/// The wallet after the attestations in `signers`, applied in order.
pub open spec fn after_signings(wallet: WalletView, signers: Seq<Identity>) -> WalletView
    decreases signers.len(),
{
    if signers.len() == 0 {
        wallet
    } else {
        after_signings(wallet, signers.drop_last()).signed(signers.last())
    }
}

/// Quorum monotonicity: starting from a freshly opened recovery window, `k`
/// attestations by distinct recovery identities leave the signature count at
/// exactly `k`, and an evaluation within the window reports
/// `CompletedAndReset` exactly when `k` has reached the threshold.
pub proof fn lemma_quorum_monotonicity(wallet: WalletView, signers: Seq<Identity>, now: int)
    requires
        wallet.wf(),
        wallet.initialised,
        wallet.window_end != 0,
        wallet.signature_count == 0,
        distinct(signers),
        forall|i: int| 0 <= i < signers.len() ==> wallet.recovery_set.contains(signers[i]),
        now < wallet.window_end,
    ensures
        after_signings(wallet, signers).signature_count == signers.len(),
        after_signings(wallet, signers).window_end == wallet.window_end,
        after_signings(wallet, signers).threshold == wallet.threshold,
        (after_signings(wallet, signers).phase(now) == State::CompletedAndReset) <==> (
        signers.len() >= wallet.threshold),
    decreases signers.len(),
{
    if signers.len() > 0 {
        lemma_quorum_monotonicity(wallet, signers.drop_last(), now);
    }
}

/// No double-commit: an evaluation that reports `CompletedAndReset` leaves a
/// wallet on which the next evaluation, at any later time, reports
/// `NotInProgress` and changes nothing; in particular the owner changes at
/// most once per recovery cycle.
pub proof fn lemma_no_double_commit(wallet: WalletView, now: int, later: int)
    requires
        wallet.wf(),
        wallet.phase(now) == State::CompletedAndReset,
    ensures
        wallet.evaluated(now).phase(later) == State::NotInProgress,
        wallet.evaluated(now).evaluated(later) == wallet.evaluated(now),
        wallet.evaluated(now).evaluated(later).owner == wallet.evaluated(now).owner,
{
}

/// Window correctness: for a proposal opened at `open_time` (its window ends
/// at `open_time` plus the configured window length), any query strictly
/// before the window's end with the threshold unmet reports `InProgress`,
/// and any query from the window's end on reports `CompletedAndReset`
/// regardless of the threshold.
pub proof fn lemma_window_correctness(opened: WalletView, open_time: int, query_time: int)
    requires
        opened.wf(),
        opened.initialised,
        opened.window_end == open_time + opened.window_seconds,
        opened.window_end != 0,
    ensures
        opened.signature_count < opened.threshold && open_time <= query_time < open_time
            + opened.window_seconds ==> opened.phase(query_time) == State::InProgress,
        query_time >= open_time + opened.window_seconds ==> opened.phase(query_time)
            == State::CompletedAndReset,
{
}

/// Idempotent rejection of duplicates: an attestation records its signer, so
/// as long as the proposal is not reset, a second `sign` by the same
/// identity finds it among the signatures and — by `sign`'s contract —
/// returns `AlreadySigned` with the wallet, and so the signature count,
/// unchanged.
pub proof fn lemma_duplicate_signer_recorded(wallet: WalletView, signer: Identity)
    ensures
        wallet.signed(signer).signatures.contains(signer),
{
    assert(wallet.signed(signer).signatures.last() == signer);
}

/// Every deposit amount in `ops` is positive.
pub open spec fn deposits_positive(ops: Seq<CustodyOp>) -> bool {
    forall|i: int|
        0 <= i < ops.len() ==> ((#[trigger] ops[i]) matches CustodyOp::Deposit { amount }
            ==> amount > 0)
}

/// The wallet after the custody operations in `ops`, applied in order.
pub open spec fn after_custody(wallet: WalletView, ops: Seq<CustodyOp>) -> WalletView
    decreases ops.len(),
{
    if ops.len() == 0 {
        wallet
    } else {
        ops.last().applied(after_custody(wallet, ops.drop_last()))
    }
}

/// Every withdrawal in `ops` is covered by the balance at its turn.
pub open spec fn withdrawals_covered(wallet: WalletView, ops: Seq<CustodyOp>) -> bool
    decreases ops.len(),
{
    if ops.len() == 0 {
        true
    } else {
        withdrawals_covered(wallet, ops.drop_last()) && (ops.last() matches CustodyOp::Withdraw {
            amount,
        } ==> amount <= after_custody(wallet, ops.drop_last()).balance)
    }
}

/// The sum of the deposit amounts minus the sum of the withdrawal amounts.
pub open spec fn net_amount(ops: Seq<CustodyOp>) -> int
    decreases ops.len(),
{
    if ops.len() == 0 {
        0
    } else {
        net_amount(ops.drop_last()) + (match ops.last() {
            CustodyOp::Deposit { amount } => amount,
            CustodyOp::Withdraw { amount } => -amount,
        })
    }
}

/// Balance conservation: under any sequence of custody operations the
/// balance never goes negative — an uncovered withdrawal is refused — and
/// when every withdrawal is covered, the final balance is the initial
/// balance plus the deposits minus the withdrawals.
pub proof fn lemma_balance_conservation(wallet: WalletView, ops: Seq<CustodyOp>)
    requires
        wallet.balance >= 0,
        deposits_positive(ops),
    ensures
        after_custody(wallet, ops).balance >= 0,
        withdrawals_covered(wallet, ops) ==> after_custody(wallet, ops).balance == wallet.balance
            + net_amount(ops),
    decreases ops.len(),
{
    if ops.len() > 0 {
        lemma_balance_conservation(wallet, ops.drop_last());
    }
}

} // verus!
