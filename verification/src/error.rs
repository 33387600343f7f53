use vstd::prelude::*;

verus! {

/// Why an escrow operation was refused. A refused operation changes nothing.
#[derive(Clone, Copy, Debug, PartialEq, Eq, Structural)]
pub enum EscrowError {
    /// The amount to escrow was zero.
    InvalidAmount,
    /// The holding to be debited has less than the amount to move.
    InsufficientFunds,
    /// The record has already been released or refunded.
    AlreadyCompleted,
    /// The caller is not the party the operation is reserved for.
    Unauthorized,
    /// A record is already bound to the custody reference.
    DuplicateEscrow,
}

} // verus!
