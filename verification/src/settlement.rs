use crate::address::Address;
use crate::authorization::authorize;
use crate::error::EscrowError;
use crate::holding::{transfer, Holding};
use crate::record::CustodyBinding;
use vstd::prelude::*;

verus! {

impl CustodyBinding {
    /// The answer to a request by `caller` to move the escrowed funds out of
    /// custody, where `expected` is the party that may ask for it.
    ///
    /// The caller is checked first, then the record's state, then custody.
    pub open spec fn settlement(self, caller: Address, expected: Address) -> Result<
        (),
        EscrowError,
    > {
        if caller != expected {
            Err(EscrowError::Unauthorized)
        } else if self.record.is_completed {
            Err(EscrowError::AlreadyCompleted)
        } else if !self.custody.covers(self.record.amount) {
            Err(EscrowError::InsufficientFunds)
        } else {
            Ok(())
        }
    }

    /// This binding after its funds have left custody: the committed amount
    /// is gone from custody and the record is completed.
    pub open spec fn settled(self) -> CustodyBinding {
        CustodyBinding {
            record: self.record.completed(),
            custody: self.custody.debited(self.record.amount),
        }
    }
}

/// Moves the committed amount from custody to `destination` and completes
/// the record, if `caller` is `expected` and the record is still active.
/// On any refusal nothing changes.
pub(crate) fn settle(
    binding: &mut CustodyBinding,
    destination: &mut Holding,
    caller: &Address,
    expected: &Address,
) -> (res: Result<(), EscrowError>)
    requires
        old(binding).settlement(*caller, *expected) is Ok ==> old(destination).has_room_for(
            old(binding).record.amount,
        ),
    ensures
        res == old(binding).settlement(*caller, *expected),
        res is Ok ==> *final(binding) == old(binding).settled(),
        res is Ok ==> *final(destination) == old(destination).credited(old(binding).record.amount),
        res is Err ==> *final(binding) == *old(binding) && *final(destination) == *old(destination),
{
    authorize(caller, expected)?;
    if binding.record.is_completed {
        return Err(EscrowError::AlreadyCompleted);
    }
    let amount: u64 = binding.record.amount;
    transfer(&mut binding.custody, destination, amount)?;
    binding.record.is_completed = true;
    Ok(())
}

} // verus!
