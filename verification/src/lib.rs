//! A self-custody wallet whose lost owner key can be replaced by a quorum of
//! pre-designated recovery identities after a mandatory waiting period.
//!
//! The wallet is one explicit aggregate ([`RecoveryWalletContract`]) holding
//! the immutable configuration, the single in-flight recovery proposal and the
//! custody balance.  Every operation that depends on time takes the current
//! timestamp as an argument; the hosting environment supplies the clock, the
//! durable storage, the authorization checks and the actual value transfers.
//!
//! The recovery lifecycle is evaluated lazily: there is no background timer,
//! so each operation that touches the proposal re-evaluates the window and the
//! signature threshold, and a successful `recovery_state` or `recover` call
//! that finds either has fired commits (or discards) the proposal and resets
//! it.  Operations are all-or-nothing: a call that fails changes nothing.

pub mod laws;
pub mod model;
pub mod types;
pub mod wallet;

pub use laws::CustodyOp;
pub use model::WalletView;
pub use types::Error;
pub use types::Identity;
pub use types::Recovery;
pub use types::State;
pub use wallet::RecoveryWalletContract;
