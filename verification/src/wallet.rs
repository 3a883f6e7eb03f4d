use crate::model::WalletView;
use crate::types::Error;
use crate::types::Identity;
use crate::types::Recovery;
use crate::types::State;
use vstd::prelude::*;

verus! {

/// The model of a wallet assembled from parts a host environment persisted.
pub open spec fn assembled_view(
    initialised: bool,
    owner: Identity,
    recovery_addresses: Seq<Identity>,
    recovery_threshold: int,
    recovery_window_seconds: int,
    recovery: Recovery,
    balance: int,
) -> WalletView {
    WalletView {
        initialised,
        owner,
        recovery_set: recovery_addresses,
        threshold: recovery_threshold,
        window_seconds: recovery_window_seconds,
        proposed_owner: recovery.new_owner_address,
        signatures: recovery.signatures_list@,
        signature_count: recovery.signature_count as int,
        window_end: recovery.recovery_end_time as int,
        balance,
    }
}

/// The wallet aggregate: one-time configuration, the single in-flight
/// recovery proposal and the custody balance.
///
/// The hosting environment owns the durable copy of this value, the clock
/// (every time-dependent operation takes `now` as an argument), the
/// authorization checks and the actual asset transfers; this type owns every
/// decision: which calls succeed, which error they fail with, and how the
/// state changes.
pub struct RecoveryWalletContract {
    initialised: bool,
    owner: Identity,
    recovery_addresses: Vec<Identity>,
    recovery_threshold: u32,
    recovery_window_seconds: u64,
    recovery: Recovery,
    balance: i128,
}

impl View for RecoveryWalletContract {
    type V = WalletView;

    closed spec fn view(&self) -> WalletView {
        WalletView {
            initialised: self.initialised,
            owner: self.owner,
            recovery_set: self.recovery_addresses@,
            threshold: self.recovery_threshold as int,
            window_seconds: self.recovery_window_seconds as int,
            proposed_owner: self.recovery.new_owner_address,
            signatures: self.recovery.signatures_list@,
            signature_count: self.recovery.signature_count as int,
            window_end: self.recovery.recovery_end_time as int,
            balance: self.balance as int,
        }
    }
}

impl RecoveryWalletContract {
    /// A wallet that has not been initialised yet: no configuration, no
    /// recovery in flight, zero balance.
    pub fn new() -> (wallet: RecoveryWalletContract)
        ensures
            wallet@.wf(),
            !wallet@.initialised,
            wallet@.balance == 0,
            wallet@.window_end == 0,
    {
        RecoveryWalletContract {
            initialised: false,
            owner: Identity(0),
            recovery_addresses: Vec::new(),
            recovery_threshold: 0,
            recovery_window_seconds: 0,
            recovery: Recovery {
                new_owner_address: None,
                signature_count: 0,
                signatures_list: Vec::new(),
                recovery_end_time: 0,
            },
            balance: 0,
        }
    }

    /// Whether `candidates` is acceptable as a recovery set for `owner`:
    /// no candidate equals the owner and no candidate occurs twice.
    fn valid_candidates(candidates: &Vec<Identity>, owner: Identity) -> (valid: bool)
        ensures
            valid == crate::model::valid_recovery_set(candidates@, owner),
    {
        let n = candidates.len();
        let mut i: usize = 0;
        while i < n
            invariant
                i <= n,
                n == candidates@.len(),
                forall|k: int| 0 <= k < i ==> candidates@[k] != owner,
                forall|k: int, l: int| 0 <= k < l < i ==> candidates@[k] != candidates@[l],
            decreases n - i,
        {
            if candidates[i] == owner {
                return false;
            }
            let mut j: usize = 0;
            while j < i
                invariant
                    j <= i,
                    i < n,
                    n == candidates@.len(),
                    forall|k: int| 0 <= k < j ==> candidates@[k] != candidates@[i as int],
                decreases i - j,
            {
                if candidates[j] == candidates[i] {
                    return false;
                }
                j += 1;
            }
            i += 1;
        }
        true
    }

    /// One-time setup: records the owner, the recovery set, the signature
    /// threshold and the recovery window, with no recovery in flight and a
    /// zero balance.
    ///
    /// Each candidate is rejected (in order) if it equals the owner or
    /// repeats an earlier candidate; the threshold must be at least one and
    /// at most the size of the recovery set.  A wallet that is already
    /// initialised refuses a second call: the configuration is immutable.
    /// Whoever may reach an uninitialised wallet may configure it; the
    /// deployment mechanism is assumed to gate that.
    pub fn init(
        &mut self,
        owner: Identity,
        recovery_addresses: Vec<Identity>,
        recovery_threshold: u32,
        recovery_window_seconds: u64,
    ) -> (result: Result<(), Error>)
        requires
            old(self)@.wf(),
        ensures
            final(self)@.wf(),
            old(self)@.initialised ==> result == Err::<(), Error>(Error::AlreadyInitialised)
                && final(self)@ == old(self)@,
            !old(self)@.initialised && !crate::model::valid_recovery_set(
                recovery_addresses@,
                owner,
            ) ==> result == Err::<(), Error>(Error::InvalidRecoveryAddress) && final(self)@ == old(
                self,
            )@,
            !old(self)@.initialised && crate::model::valid_recovery_set(recovery_addresses@, owner)
                && (recovery_threshold == 0 || recovery_threshold > recovery_addresses@.len())
                ==> result == Err::<(), Error>(Error::InvalidRecoveryThreshold) && final(self)@
                == old(self)@,
            !old(self)@.initialised && crate::model::valid_recovery_set(recovery_addresses@, owner)
                && 0 < recovery_threshold <= recovery_addresses@.len() ==> result == Ok::<
                (),
                Error,
            >(()) && final(self)@ == WalletView::initial(
                owner,
                recovery_addresses@,
                recovery_threshold as int,
                recovery_window_seconds as int,
            ),
    {
        if self.initialised {
            return Err(Error::AlreadyInitialised);
        }
        if !Self::valid_candidates(&recovery_addresses, owner) {
            return Err(Error::InvalidRecoveryAddress);
        }
        if recovery_threshold == 0 || recovery_threshold as usize > recovery_addresses.len() {
            return Err(Error::InvalidRecoveryThreshold);
        }
        self.initialised = true;
        self.owner = owner;
        self.recovery_addresses = recovery_addresses;
        self.recovery_threshold = recovery_threshold;
        self.recovery_window_seconds = recovery_window_seconds;
        self.recovery = Recovery {
            new_owner_address: None,
            signature_count: 0,
            signatures_list: Vec::new(),
            recovery_end_time: 0,
        };
        self.balance = 0;
        proof {
            assert(self@ =~= WalletView::initial(
                owner,
                self.recovery_addresses@,
                recovery_threshold as int,
                recovery_window_seconds as int,
            ));
        }
        Ok(())
    }

    /// Whether `identity` occurs in `haystack`.
    fn contains_identity(haystack: &Vec<Identity>, identity: Identity) -> (found: bool)
        ensures
            found == haystack@.contains(identity),
    {
        let mut i: usize = 0;
        while i < haystack.len()
            invariant
                i <= haystack.len(),
                forall|k: int| 0 <= k < i ==> haystack@[k] != identity,
            decreases haystack.len() - i,
        {
            if haystack[i] == identity {
                return true;
            }
            i += 1;
        }
        false
    }

    /// The recovery phase an evaluation at time `now` would report, without
    /// performing the terminal transition.
    fn current_phase(&self, now: u64) -> (phase: State)
        ensures
            phase == self@.phase(now as int),
    {
        let end = self.recovery.recovery_end_time;
        if end == 0 {
            State::NotInProgress
        } else if self.recovery.signature_count < self.recovery_threshold && now < end {
            State::InProgress
        } else {
            State::CompletedAndReset
        }
    }

    /// Evaluates the recovery lifecycle at time `now` and performs the
    /// terminal transition when the threshold is met or the window has
    /// elapsed: the ownership change is committed if and only if the
    /// threshold is met, and the proposal is reset either way.
    fn evaluate(&mut self, now: u64) -> (phase: State)
        requires
            old(self)@.wf(),
            old(self)@.initialised,
        ensures
            final(self)@.wf(),
            phase == old(self)@.phase(now as int),
            final(self)@ == old(self)@.evaluated(now as int),
    {
        let end = self.recovery.recovery_end_time;
        if end == 0 {
            State::NotInProgress
        } else if self.recovery.signature_count < self.recovery_threshold && now < end {
            State::InProgress
        } else {
            if self.recovery.signature_count >= self.recovery_threshold {
                if let Some(proposed) = self.recovery.new_owner_address {
                    self.owner = proposed;
                }
            }
            self.recovery = Recovery {
                new_owner_address: None,
                signature_count: 0,
                signatures_list: Vec::new(),
                recovery_end_time: 0,
            };
            proof {
                assert(self@ =~= old(self)@.evaluated(now as int));
            }
            State::CompletedAndReset
        }
    }

    /// The current recovery phase.  This read advances the state machine:
    /// when it observes the terminal condition it commits (or discards) the
    /// proposal and resets it, and only this observation reports
    /// `CompletedAndReset`.
    pub fn recovery_state(&mut self, now: u64) -> (result: Result<State, Error>)
        requires
            old(self)@.wf(),
        ensures
            final(self)@.wf(),
            !old(self)@.initialised ==> result == Err::<State, Error>(Error::NotInitialised)
                && final(self)@ == old(self)@,
            old(self)@.initialised ==> result == Ok::<State, Error>(old(self)@.phase(now as int))
                && final(self)@ == old(self)@.evaluated(now as int),
    {
        if !self.initialised {
            return Err(Error::NotInitialised);
        }
        Ok(self.evaluate(now))
    }

    /// Opens a new recovery proposal for `new_owner` at time `now`: the
    /// window closes at `now` plus the configured window length, with no
    /// attestations yet.
    ///
    /// The proposed owner may be neither the current owner nor a recovery
    /// identity (both checked against the state before the embedded phase
    /// evaluation), and no recovery may be in progress.  An expired or
    /// satisfied proposal is committed or discarded by the embedded
    /// evaluation and then superseded.  No authorization is needed: any
    /// party may propose, and security comes from the signature threshold.
    pub fn recover(&mut self, new_owner: Identity, now: u64) -> (result: Result<(), Error>)
        requires
            old(self)@.wf(),
            now + old(self)@.window_seconds <= u64::MAX,
        ensures
            final(self)@.wf(),
            !old(self)@.initialised ==> result == Err::<(), Error>(Error::NotInitialised)
                && final(self)@ == old(self)@,
            old(self)@.initialised && (new_owner == old(self)@.owner
                || old(self)@.recovery_set.contains(new_owner)) ==> result == Err::<(), Error>(
                Error::InvalidNewOwnerAddress,
            ) && final(self)@ == old(self)@,
            old(self)@.initialised && new_owner != old(self)@.owner
                && !old(self)@.recovery_set.contains(new_owner) && old(self)@.phase(now as int)
                == State::InProgress ==> result == Err::<(), Error>(Error::RecoveryInProgress)
                && final(self)@ == old(self)@,
            old(self)@.initialised && new_owner != old(self)@.owner
                && !old(self)@.recovery_set.contains(new_owner) && old(self)@.phase(now as int)
                != State::InProgress ==> result == Ok::<(), Error>(()) && final(self)@ == old(
                self,
            )@.evaluated(now as int).opened(new_owner, now as int),
    {
        if !self.initialised {
            return Err(Error::NotInitialised);
        }
        if new_owner == self.owner {
            return Err(Error::InvalidNewOwnerAddress);
        }
        if Self::contains_identity(&self.recovery_addresses, new_owner) {
            return Err(Error::InvalidNewOwnerAddress);
        }
        match self.evaluate(now) {
            State::InProgress => {
                return Err(Error::RecoveryInProgress);
            },
            _ => {},
        }
        let window_end = now + self.recovery_window_seconds;
        self.recovery = Recovery {
            new_owner_address: Some(new_owner),
            signature_count: 0,
            signatures_list: Vec::new(),
            recovery_end_time: window_end,
        };
        proof {
            assert(self@ =~= old(self)@.evaluated(now as int).opened(new_owner, now as int));
        }
        Ok(())
    }

    /// Records one attestation by the recovery identity `signer` at time
    /// `now`.
    ///
    /// The environment must have verified, before this call, that the caller
    /// controls `signer`; this function decides everything else.  The signer
    /// must belong to the recovery set, a recovery must be in progress, and
    /// each identity may sign at most once per window.  Reaching the
    /// threshold here does not commit the ownership change: the next phase
    /// evaluation does.
    pub fn sign(&mut self, signer: Identity, now: u64) -> (result: Result<(), Error>)
        requires
            old(self)@.wf(),
        ensures
            final(self)@.wf(),
            !old(self)@.initialised ==> result == Err::<(), Error>(Error::NotInitialised)
                && final(self)@ == old(self)@,
            old(self)@.initialised && !old(self)@.recovery_set.contains(signer) ==> result
                == Err::<(), Error>(Error::InvalidRecoveryAddress) && final(self)@ == old(self)@,
            old(self)@.initialised && old(self)@.recovery_set.contains(signer) && old(self)@.phase(
                now as int,
            ) == State::NotInProgress ==> result == Err::<(), Error>(Error::RecoveryNotInProgress)
                && final(self)@ == old(self)@,
            old(self)@.initialised && old(self)@.recovery_set.contains(signer) && old(self)@.phase(
                now as int,
            ) == State::CompletedAndReset ==> result == Err::<(), Error>(
                Error::SignatureThresholdAlreadyReached,
            ) && final(self)@ == old(self)@,
            old(self)@.initialised && old(self)@.recovery_set.contains(signer) && old(self)@.phase(
                now as int,
            ) == State::InProgress && old(self)@.signatures.contains(signer) ==> result == Err::<
                (),
                Error,
            >(Error::AlreadySigned) && final(self)@ == old(self)@,
            old(self)@.initialised && old(self)@.recovery_set.contains(signer) && old(self)@.phase(
                now as int,
            ) == State::InProgress && !old(self)@.signatures.contains(signer) ==> result == Ok::<
                (),
                Error,
            >(()) && final(self)@ == old(self)@.signed(signer),
    {
        if !self.initialised {
            return Err(Error::NotInitialised);
        }
        if !Self::contains_identity(&self.recovery_addresses, signer) {
            return Err(Error::InvalidRecoveryAddress);
        }
        match self.current_phase(now) {
            State::NotInProgress => Err(Error::RecoveryNotInProgress),
            State::CompletedAndReset => Err(Error::SignatureThresholdAlreadyReached),
            State::InProgress => {
                if Self::contains_identity(&self.recovery.signatures_list, signer) {
                    return Err(Error::AlreadySigned);
                }
                self.recovery.signatures_list.push(signer);
                self.recovery.signature_count = self.recovery.signature_count + 1;
                proof {
                    assert(self@ =~= old(self)@.signed(signer));
                }
                Ok(())
            },
        }
    }

    /// Records a deposit of `amount` into custody.
    ///
    /// The environment authorizes the depositor and performs the actual
    /// asset transfer into the wallet before recording it here; that
    /// transfer capability is the authority on the depositor's funds.
    pub fn deposit(&mut self, amount: i128) -> (result: Result<(), Error>)
        requires
            old(self)@.wf(),
            amount > 0,
            old(self)@.balance + amount <= i128::MAX,
        ensures
            final(self)@.wf(),
            !old(self)@.initialised ==> result == Err::<(), Error>(Error::NotInitialised)
                && final(self)@ == old(self)@,
            old(self)@.initialised ==> result == Ok::<(), Error>(()) && final(self)@ == old(
                self,
            )@.deposited(amount as int),
    {
        if !self.initialised {
            return Err(Error::NotInitialised);
        }
        self.balance = self.balance + amount;
        Ok(())
    }

    /// Records a withdrawal of `amount` to the current owner.
    ///
    /// The environment re-reads the owner at call time ([`Self::get_owner`]),
    /// verifies that the caller controls it, performs the asset transfer out
    /// of the wallet, and then records it here.  A withdrawal that is not
    /// covered by the balance is refused, so the balance never goes
    /// negative.
    pub fn withdraw(&mut self, amount: i128) -> (result: Result<(), Error>)
        requires
            old(self)@.wf(),
            old(self)@.balance - amount <= i128::MAX,
        ensures
            final(self)@.wf(),
            !old(self)@.initialised ==> result == Err::<(), Error>(Error::NotInitialised)
                && final(self)@ == old(self)@,
            old(self)@.initialised && amount > old(self)@.balance ==> result == Err::<(), Error>(
                Error::InsufficientFunds,
            ) && final(self)@ == old(self)@,
            old(self)@.initialised && amount <= old(self)@.balance ==> result == Ok::<(), Error>(())
                && final(self)@ == old(self)@.withdrawn(amount as int),
    {
        if !self.initialised {
            return Err(Error::NotInitialised);
        }
        if self.balance < amount {
            return Err(Error::InsufficientFunds);
        }
        self.balance = self.balance - amount;
        Ok(())
    }

    /// The identity currently authorized to withdraw: the wallet's owner.
    pub fn get_owner(&self) -> (owner: Identity)
        requires
            self@.initialised,
        ensures
            owner == self@.owner,
    {
        self.owner
    }

    /// A copy of `source`.
    fn copy_identities(source: &Vec<Identity>) -> (copy: Vec<Identity>)
        ensures
            copy@ == source@,
    {
        let mut copy: Vec<Identity> = Vec::new();
        let mut i: usize = 0;
        while i < source.len()
            invariant
                i <= source.len(),
                copy@ == source@.subrange(0, i as int),
            decreases source.len() - i,
        {
            copy.push(source[i]);
            proof {
                assert(copy@ =~= source@.subrange(0, i + 1));
            }
            i += 1;
        }
        proof {
            assert(copy@ =~= source@);
        }
        copy
    }

    /// The in-flight recovery proposal, empty (`recovery_end_time == 0`)
    /// when none is in flight.  This is a pure read: it does not advance the
    /// state machine.
    pub fn get_recovery(&self) -> (result: Result<Recovery, Error>)
        ensures
            !self@.initialised ==> result == Err::<Recovery, Error>(Error::NotInitialised),
            self@.initialised ==> (result matches Ok(record) && record.new_owner_address
                == self@.proposed_owner && record.signature_count as int == self@.signature_count
                && record.signatures_list@ == self@.signatures && record.recovery_end_time as int
                == self@.window_end),
    {
        if !self.initialised {
            return Err(Error::NotInitialised);
        }
        Ok(
            Recovery {
                new_owner_address: self.recovery.new_owner_address,
                signature_count: self.recovery.signature_count,
                signatures_list: Self::copy_identities(&self.recovery.signatures_list),
                recovery_end_time: self.recovery.recovery_end_time,
            },
        )
    }

    /// The custody balance, zero while nothing has been deposited.
    pub fn get_balance(&self) -> (balance: i128)
        ensures
            balance == self@.balance,
    {
        self.balance
    }

    /// Whether `init` has completed on this wallet.
    pub fn initialised(&self) -> (initialised: bool)
        ensures
            initialised == self@.initialised,
    {
        self.initialised
    }

    /// The configured recovery identities, in the order `init` received
    /// them.
    pub fn get_recovery_addresses(&self) -> (addresses: Vec<Identity>)
        ensures
            addresses@ == self@.recovery_set,
    {
        Self::copy_identities(&self.recovery_addresses)
    }

    /// The number of distinct attestations that commits an ownership change.
    pub fn get_recovery_threshold(&self) -> (threshold: u32)
        ensures
            threshold as int == self@.threshold,
    {
        self.recovery_threshold
    }

    /// The length of the recovery window, in seconds.
    pub fn get_recovery_window_seconds(&self) -> (seconds: u64)
        ensures
            seconds as int == self@.window_seconds,
    {
        self.recovery_window_seconds
    }

    /// Whether no identity occurs twice in `identities`.
    fn distinct_identities(identities: &Vec<Identity>) -> (no_repeats: bool)
        ensures
            no_repeats == crate::model::distinct(identities@),
    {
        let n = identities.len();
        let mut i: usize = 0;
        while i < n
            invariant
                i <= n,
                n == identities@.len(),
                forall|k: int, l: int| 0 <= k < l < i ==> identities@[k] != identities@[l],
            decreases n - i,
        {
            let mut j: usize = 0;
            while j < i
                invariant
                    j <= i,
                    i < n,
                    n == identities@.len(),
                    forall|k: int| 0 <= k < j ==> identities@[k] != identities@[i as int],
                decreases i - j,
            {
                if identities[j] == identities[i] {
                    return false;
                }
                j += 1;
            }
            i += 1;
        }
        true
    }

    /// Whether every identity in `part` occurs in `whole`.
    fn all_in(part: &Vec<Identity>, whole: &Vec<Identity>) -> (all_found: bool)
        ensures
            all_found == forall|i: int| 0 <= i < part@.len() ==> whole@.contains(#[trigger] part@[i]),
    {
        let mut i: usize = 0;
        while i < part.len()
            invariant
                i <= part@.len(),
                forall|k: int| 0 <= k < i ==> whole@.contains(#[trigger] part@[k]),
            decreases part@.len() - i,
        {
            if !Self::contains_identity(whole, part[i]) {
                return false;
            }
            i += 1;
        }
        true
    }

    /// Reassembles a wallet from parts a host environment persisted, after
    /// re-validating the invariant; `None` when the parts do not satisfy it.
    /// This is the only way to obtain a wallet other than [`Self::new`], so
    /// no caller can smuggle in a state the operations' guarantees do not
    /// cover.
    pub fn from_parts(
        initialised: bool,
        owner: Identity,
        recovery_addresses: Vec<Identity>,
        recovery_threshold: u32,
        recovery_window_seconds: u64,
        recovery: Recovery,
        balance: i128,
    ) -> (result: Option<RecoveryWalletContract>)
        ensures
            (result is Some) <==> assembled_view(
                initialised,
                owner,
                recovery_addresses@,
                recovery_threshold as int,
                recovery_window_seconds as int,
                recovery,
                balance as int,
            ).wf(),
            result matches Some(wallet) ==> wallet@ == assembled_view(
                initialised,
                owner,
                recovery_addresses@,
                recovery_threshold as int,
                recovery_window_seconds as int,
                recovery,
                balance as int,
            ),
    {
        let count_matches = recovery.signature_count as usize == recovery.signatures_list.len();
        let signatures_distinct = Self::distinct_identities(&recovery.signatures_list);
        let signatures_members = Self::all_in(&recovery.signatures_list, &recovery_addresses);
        let reset_together = recovery.recovery_end_time != 0
            || recovery.signatures_list.len() == 0;
        let proposed_consistent = if recovery.recovery_end_time == 0 {
            true
        } else {
            match recovery.new_owner_address {
                Some(proposed) => !Self::contains_identity(&recovery_addresses, proposed),
                None => false,
            }
        };
        let config_consistent = if initialised {
            Self::valid_candidates(&recovery_addresses, owner) && recovery_threshold >= 1
                && recovery_threshold as usize <= recovery_addresses.len()
        } else {
            recovery.recovery_end_time == 0 && recovery.signatures_list.len() == 0
                && recovery.new_owner_address.is_none() && balance == 0
        };
        if count_matches && signatures_distinct && signatures_members && reset_together
            && proposed_consistent && config_consistent && balance >= 0 {
            let wallet = RecoveryWalletContract {
                initialised,
                owner,
                recovery_addresses,
                recovery_threshold,
                recovery_window_seconds,
                recovery,
                balance,
            };
            proof {
                assert(wallet@ =~= assembled_view(
                    initialised,
                    owner,
                    wallet.recovery_addresses@,
                    recovery_threshold as int,
                    recovery_window_seconds as int,
                    wallet.recovery,
                    balance as int,
                ));
            }
            Some(wallet)
        } else {
            None
        }
    }
}

} // verus!
