use vstd::prelude::*;

verus! {

/// An opaque, globally unique principal (an account or address) that can be
/// the subject of an authorization check.  The hosting environment maps its
/// own address representation to and from this plain value.
#[derive(Clone, Copy, Debug, PartialEq, Eq, Hash, Structural)]
pub struct Identity(pub u64);

/// The recovery lifecycle's current status.
///
/// `CompletedAndReset` is transient: it is observed exactly by the evaluation
/// that found the threshold met or the window elapsed and therefore performed
/// the terminal commit/reset itself.  The very next evaluation sees an empty
/// proposal and reports `NotInProgress`.
#[derive(Clone, Copy, Debug, PartialEq, Eq, Structural)]
pub enum State {
    NotInProgress,
    InProgress,
    CompletedAndReset,
}

/// Everything an operation can fail with.  Every operation is all-or-nothing:
/// an error return leaves the wallet exactly as it was.
#[derive(Clone, Copy, Debug, PartialEq, Eq, Structural)]
pub enum Error {
    NotInitialised,
    InvalidRecoveryAddress,
    InvalidRecoveryThreshold,
    RecoveryNotInProgress,
    InvalidNewOwnerAddress,
    AlreadySigned,
    RecoveryInProgress,
    InsufficientFunds,
    SignatureThresholdAlreadyReached,
    AlreadyInitialised,
}

/// The single in-flight recovery proposal.
///
/// `recovery_end_time == 0` means no recovery is in flight; the signature list
/// is empty then.  While a recovery is in flight, `new_owner_address` holds
/// the proposed owner, `signatures_list` the distinct recovery identities that
/// have attested so far, and `signature_count` its length.
#[derive(Debug)]
pub struct Recovery {
    pub new_owner_address: Option<Identity>,
    pub signature_count: u32,
    pub signatures_list: Vec<Identity>,
    pub recovery_end_time: u64,
}

} // verus!
