//! The tagged failures that an instruction can abort with.

use vstd::prelude::*;

verus! {

/// Every instruction either succeeds or aborts with exactly one of these
/// tags; no instruction ever has a partial effect.
#[derive(Clone, Copy, Debug, PartialEq, Eq, Structural)]
pub enum ErrorCode {
    /// The signer does not equal the required authority, role holder or
    /// owner for the operation.
    Unauthorized,
    /// The operation was attempted while the governing rewarder's
    /// `is_paused` flag is set.
    Paused,
    /// An accept-transfer was attempted with no outstanding proposal.
    PendingAuthorityNotSet,
    /// A cross-record address-equality check failed: a wrong rewarder,
    /// quarry, miner, mint, vault or metadata binding.
    KeyMismatch,
    /// A supplied token account is not the canonical derived account for
    /// its claimed (owner, mint) pair.
    AssociatedAccountMismatch,
    /// The operator's generation counter would overflow its range.
    ArithmeticOverflow,
}

impl ErrorCode {
    /// The human-readable label of this failure.
    pub open spec fn spec_label(self) -> Seq<char> {
        match self {
            ErrorCode::Unauthorized => "Unauthorized."@,
            ErrorCode::Paused => "Rewarder is paused."@,
            ErrorCode::PendingAuthorityNotSet => "Pending authority not set."@,
            ErrorCode::KeyMismatch => "Key mismatch."@,
            ErrorCode::AssociatedAccountMismatch => "Associated token account mismatch."@,
            ErrorCode::ArithmeticOverflow => "Arithmetic overflow."@,
        }
    }

    /// Names the failed check, for surfacing the abort to a caller.
    pub fn label(&self) -> (s: &'static str)
        ensures
            s@ == self.spec_label(),
    {
        match self {
            ErrorCode::Unauthorized => "Unauthorized.",
            ErrorCode::Paused => "Rewarder is paused.",
            ErrorCode::PendingAuthorityNotSet => "Pending authority not set.",
            ErrorCode::KeyMismatch => "Key mismatch.",
            ErrorCode::AssociatedAccountMismatch => "Associated token account mismatch.",
            ErrorCode::ArithmeticOverflow => "Arithmetic overflow.",
        }
    }
}

} // verus!
