//! The reasons for which an entry point refuses a call.

use vstd::prelude::*;

verus! {

/// Why an entry point refused a call. A refusal leaves the persisted state as
/// it was.
#[derive(Clone, Copy, Debug, PartialEq, Eq, Structural)]
pub enum BridgeError {
    /// The caller is not the account the operation is reserved for.
    Unauthorized,
    /// The transaction id has been committed before.
    AlreadyProcessed,
    /// The amount is zero, or an attached bond is below the minimum.
    InvalidAmount,
    /// A debit asks for more than the account holds.
    InsufficientBalance,
    /// A dependent call into another contract reported failure.
    DependentCallFailed,
    /// The message attached to an incoming transfer does not follow the grammar.
    MalformedInstruction,
    /// The underlying asset has been bound before.
    AlreadyBound,
    /// The operation needs an underlying asset and none is bound.
    NotYetBound,
}

} // verus!
