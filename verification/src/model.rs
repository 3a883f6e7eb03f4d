use crate::types::Identity;
use crate::types::State;
use vstd::prelude::*;

verus! {

/// The mathematical model of the whole wallet: configuration, in-flight
/// recovery proposal and custody balance, as one value.
#[verifier::ext_equal]
pub ghost struct WalletView {
    pub initialised: bool,
    pub owner: Identity,
    pub recovery_set: Seq<Identity>,
    pub threshold: int,
    pub window_seconds: int,
    pub proposed_owner: Option<Identity>,
    pub signatures: Seq<Identity>,
    pub signature_count: int,
    pub window_end: int,
    pub balance: int,
}

/// No identity occurs twice in `s`.
pub open spec fn distinct(s: Seq<Identity>) -> bool {
    forall|i: int, j: int| 0 <= i < j < s.len() ==> s[i] != s[j]
}

/// A sequence of candidate recovery identities is acceptable to `init`:
/// none of them is the owner and none occurs twice.
pub open spec fn valid_recovery_set(candidates: Seq<Identity>, owner: Identity) -> bool {
    &&& forall|i: int| 0 <= i < candidates.len() ==> candidates[i] != owner
    &&& distinct(candidates)
}

impl WalletView {
    /// The invariant every operation preserves.
    pub open spec fn wf(self) -> bool {
        &&& self.signature_count == self.signatures.len()
        &&& distinct(self.signatures)
        &&& forall|i: int|
            0 <= i < self.signatures.len() ==> self.recovery_set.contains(self.signatures[i])
        &&& self.window_end == 0 ==> self.signatures.len() == 0
        &&& self.window_end != 0 ==> (match self.proposed_owner {
            Some(p) => !self.recovery_set.contains(p),
            None => false,
        })
        &&& self.initialised ==> {
            &&& distinct(self.recovery_set)
            &&& !self.recovery_set.contains(self.owner)
            &&& 1 <= self.threshold <= self.recovery_set.len()
        }
        &&& !self.initialised ==> {
            &&& self.window_end == 0
            &&& self.signatures.len() == 0
            &&& self.proposed_owner is None
            &&& self.balance == 0
        }
        &&& self.balance >= 0
    }

    /// The wallet as `init` leaves it on success.
    pub open spec fn initial(
        owner: Identity,
        recovery_set: Seq<Identity>,
        threshold: int,
        window_seconds: int,
    ) -> WalletView {
        WalletView {
            initialised: true,
            owner,
            recovery_set,
            threshold,
            window_seconds,
            proposed_owner: None,
            signatures: Seq::empty(),
            signature_count: 0,
            window_end: 0,
            balance: 0,
        }
    }

    /// The recovery phase an evaluation at time `now` reports.
    pub open spec fn phase(self, now: int) -> State {
        if self.window_end == 0 {
            State::NotInProgress
        } else if self.signature_count < self.threshold && now < self.window_end {
            State::InProgress
        } else {
            State::CompletedAndReset
        }
    }

    /// The owner after the terminal transition: the proposed owner if the
    /// threshold was met, otherwise unchanged (the proposal is discarded).
    pub open spec fn committed_owner(self) -> Identity {
        if self.signature_count >= self.threshold {
            self.proposed_owner.unwrap()
        } else {
            self.owner
        }
    }

    /// The wallet after an evaluation at time `now`.  Only the terminal
    /// transition mutates: it commits the ownership change when the threshold
    /// is met and resets the proposal either way.
    pub open spec fn evaluated(self, now: int) -> WalletView {
        if self.phase(now) == State::CompletedAndReset {
            WalletView {
                owner: self.committed_owner(),
                proposed_owner: None,
                signatures: Seq::empty(),
                signature_count: 0,
                window_end: 0,
                ..self
            }
        } else {
            self
        }
    }

    /// The wallet after one more attestation by `signer`.
    pub open spec fn signed(self, signer: Identity) -> WalletView {
        WalletView {
            signatures: self.signatures.push(signer),
            signature_count: self.signature_count + 1,
            ..self
        }
    }

    /// The wallet after a new recovery proposal for `new_owner` opened at
    /// time `now`.
    pub open spec fn opened(self, new_owner: Identity, now: int) -> WalletView {
        WalletView {
            proposed_owner: Some(new_owner),
            signatures: Seq::empty(),
            signature_count: 0,
            window_end: now + self.window_seconds,
            ..self
        }
    }

    /// The wallet after a deposit of `amount` has been recorded.
    pub open spec fn deposited(self, amount: int) -> WalletView {
        WalletView { balance: self.balance + amount, ..self }
    }

    /// The wallet after a withdrawal of `amount` has been recorded.
    pub open spec fn withdrawn(self, amount: int) -> WalletView {
        WalletView { balance: self.balance - amount, ..self }
    }
}

} // verus!
