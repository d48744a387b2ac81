//! The error kinds an escrow operation can surface.

use vstd::prelude::*;

verus! {

/// Why a deposit, withdrawal or gate toggle was rejected.
///
/// Every rejection aborts the whole call: no state is mutated and the
/// reason is surfaced directly to the caller.
#[derive(Clone, Copy, PartialEq, Eq, Debug, Structural)]
pub enum Error {
    /// The supplied amount was zero or negative.
    InvalidAmount,
    /// A deposit named a commitment that already keys an entry.
    DuplicateCommitment,
    /// A withdrawal's recomputed commitment matched no stored entry.
    EntryNotFound,
    /// The entry exists but is no longer `Pending`.
    AlreadySpent,
    /// The stored entry's owner or amount did not match the reveal.
    RevealMismatch,
    /// The corresponding feature gate is currently switched off.
    GateDisabled,
    /// A privileged toggle came from a caller other than the administrator.
    Unauthorized,
    /// The embedding's token transfer failed; surfaced by the host, never
    /// produced by the engine itself.
    TransferFailed,
}

} // verus!
