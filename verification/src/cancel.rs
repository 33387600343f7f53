use crate::address::Address;
use crate::error::EscrowError;
use crate::holding::Holding;
use crate::record::CustodyBinding;
use crate::settlement::settle;
use vstd::prelude::*;

verus! {

/// The accounts a cancellation works on.
#[derive(Clone, Copy, Debug, PartialEq, Eq)]
pub struct CancelEscrow {
    /// The party asking for the refund.
    pub caller: Address,
    /// The escrow record and its custody.
    pub binding: CustodyBinding,
    /// The depositor's holding, which takes the funds back.
    pub destination: Holding,
}

impl CancelEscrow {
    /// What `cancel_escrow` answers on these accounts: only the record's
    /// depositor may cancel.
    pub open spec fn outcome(self) -> Result<(), EscrowError> {
        self.binding.settlement(self.caller, self.binding.record.depositor)
    }

    /// These accounts after `cancel_escrow`: on success the committed amount
    /// has gone from custody back to the destination and the record is
    /// completed; on refusal they are unchanged.
    pub open spec fn after(self) -> CancelEscrow {
        if self.outcome() is Ok {
            CancelEscrow {
                caller: self.caller,
                binding: self.binding.settled(),
                destination: self.destination.credited(self.binding.record.amount),
            }
        } else {
            self
        }
    }
}

/// Refunds the escrowed funds to the depositor.
///
/// Succeeds exactly when the caller is the record's depositor, the record is
/// still active and custody holds the committed amount. Then the whole amount
/// moves from custody back to the destination and the record is completed, as
/// one step. Otherwise the first failing check names the error, in this
/// order: `Unauthorized`, `AlreadyCompleted`, `InsufficientFunds`; and
/// nothing changes.
///
/// The destination must have room for the amount if the refund goes ahead.
pub fn cancel_escrow(ctx: &mut CancelEscrow) -> (res: Result<(), EscrowError>)
    requires
        old(ctx).outcome() is Ok ==> old(ctx).destination.has_room_for(
            old(ctx).binding.record.amount,
        ),
    ensures
        res == old(ctx).outcome(),
        *final(ctx) == old(ctx).after(),
        res is Err ==> *final(ctx) == *old(ctx),
        old(ctx).caller != old(ctx).binding.record.depositor ==> res == Err::<(), EscrowError>(
            EscrowError::Unauthorized,
        ),
        res is Ok ==> final(ctx).binding.record == old(ctx).binding.record.completed(),
        res is Ok ==> final(ctx).binding.custody.balance
            == old(ctx).binding.custody.balance - old(ctx).binding.record.amount,
        res is Ok ==> final(ctx).destination.balance
            == old(ctx).destination.balance + old(ctx).binding.record.amount,
        final(ctx).binding.custody.balance + final(ctx).destination.balance
            == old(ctx).binding.custody.balance + old(ctx).destination.balance,
        old(ctx).binding.record.is_completed ==> final(ctx).binding.record.is_completed,
        old(ctx).binding.consistent() ==> final(ctx).binding.consistent(),
{
    let caller: Address = ctx.caller;
    let depositor: Address = ctx.binding.record.depositor;
    settle(&mut ctx.binding, &mut ctx.destination, &caller, &depositor)
}

} // verus!
