//! Authorization and delegation core of a staking-rewards protocol on an
//! account-based ledger.
//!
//! The crate models the records of the protocol (rewarder, quarry, miner,
//! operator), the per-instruction validation chains that gate every
//! privileged mutation, and the operator delegation layer that forwards
//! privileged calls under a derived program identity.
//!
//! The embedding runtime supplies what only it can know: each account's
//! address, whether the transaction carries a signature for it, and the
//! current timestamp. Everything decided from those plain values — which
//! check fails first, what every record looks like afterwards — is stated
//! in the contracts here and proved.

pub mod error;
pub mod instructions;
pub mod key;
pub mod laws;
pub mod operator;
pub mod pda;
pub mod records;
pub mod validators;

pub use key::Key;
