use vstd::prelude::*;

verus! {

/// Why an operation on the fundraise was refused. A refused operation
/// changes nothing.
#[derive(Clone, Copy, Debug, PartialEq, Eq, Structural)]
pub enum ContractError {
    /// The ledger was read before it was created.
    NotInitialized,
    /// The fundraise no longer accepts this operation.
    FundraiseClosed,
    /// No positive amount of the accepted asset came with the contribution.
    EmptyBalance,
    /// The caller may not perform this operation.
    Unauthorized,
    /// An amount would not fit in 128 bits.
    Overflow,
    /// A conversion ratio has a zero part, or does not fit at eighteen digits.
    InvalidRatio,
}

} // verus!
