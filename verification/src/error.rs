//! The ways in which an operation on the swap ledger fails.

use vstd::prelude::*;

verus! {

/// Why an operation was refused. Every refusal ends the operation: nothing is
/// written, no funds move and no event is published.
#[derive(Clone, Copy, Debug, PartialEq, Eq, Structural)]
pub enum SwapError {
    /// The amount to escrow is not positive.
    InvalidAmount,
    /// The deadline leaves the counterparty too little time to react.
    TimelockTooShort,
    /// The deadline would lock the funds for a day or more.
    TimelockTooLong,
    /// No swap is recorded under the identifier.
    NotFound,
    /// The caller is not the party that may take this step.
    Unauthorized,
    /// The swap was already withdrawn or refunded.
    AlreadySettled,
    /// The deadline has been reached, so the funds can no longer be withdrawn.
    Expired,
    /// The deadline has not been reached, so the funds cannot be refunded yet.
    NotYetExpired,
    /// The preimage does not hash to the swap's hashlock.
    InvalidPreimage,
    /// The host could not move the asset.
    TransferFailed,
    /// The store could not take or give an entry.
    StorageFailure,
}

} // verus!
