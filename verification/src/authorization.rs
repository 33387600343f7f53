use crate::address::Address;
use crate::error::EscrowError;
use vstd::prelude::*;

verus! {

/// The answer of the authorization check: the caller passes exactly when it
/// is the identity the operation is reserved for.
pub open spec fn authorization(caller: Address, expected: Address) -> Result<(), EscrowError> {
    if caller == expected {
        Ok(())
    } else {
        Err(EscrowError::Unauthorized)
    }
}

/// Checks that `caller` is the identity `expected`. Both terminal operations
/// go through this one check, each with the party it is reserved for.
pub fn authorize(caller: &Address, expected: &Address) -> (res: Result<(), EscrowError>)
    ensures
        res == authorization(*caller, *expected),
        res is Ok <==> *caller == *expected,
        res is Err ==> res == Err::<(), EscrowError>(EscrowError::Unauthorized),
{
    if *caller == *expected {
        Ok(())
    } else {
        Err(EscrowError::Unauthorized)
    }
}

} // verus!
