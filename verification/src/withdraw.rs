use crate::address::Address;
use crate::error::EscrowError;
use crate::holding::Holding;
use crate::record::CustodyBinding;
use crate::settlement::settle;
use vstd::prelude::*;

verus! {

/// The accounts a withdrawal works on.
#[derive(Clone, Copy, Debug, PartialEq, Eq)]
pub struct Withdraw {
    /// The party asking for the funds.
    pub caller: Address,
    /// The escrow record and its custody.
    pub binding: CustodyBinding,
    /// The recipient's holding, which receives the funds.
    pub destination: Holding,
}

impl Withdraw {
    /// What `withdraw` answers on these accounts: only the record's
    /// recipient may withdraw.
    pub open spec fn outcome(self) -> Result<(), EscrowError> {
        self.binding.settlement(self.caller, self.binding.record.recipient)
    }

    /// These accounts after `withdraw`: on success the committed amount has
    /// gone from custody to the destination and the record is completed; on
    /// refusal they are unchanged.
    pub open spec fn after(self) -> Withdraw {
        if self.outcome() is Ok {
            Withdraw {
                caller: self.caller,
                binding: self.binding.settled(),
                destination: self.destination.credited(self.binding.record.amount),
            }
        } else {
            self
        }
    }
}

/// Releases the escrowed funds to the recipient.
///
/// Succeeds exactly when the caller is the record's recipient, the record is
/// still active and custody holds the committed amount. Then the whole amount
/// moves from custody to the destination and the record is completed, as one
/// step. Otherwise the first failing check names the error, in this order:
/// `Unauthorized`, `AlreadyCompleted`, `InsufficientFunds`; and nothing
/// changes.
///
/// The destination must have room for the amount if the release goes ahead.
pub fn withdraw(ctx: &mut Withdraw) -> (res: Result<(), EscrowError>)
    requires
        old(ctx).outcome() is Ok ==> old(ctx).destination.has_room_for(
            old(ctx).binding.record.amount,
        ),
    ensures
        res == old(ctx).outcome(),
        *final(ctx) == old(ctx).after(),
        res is Err ==> *final(ctx) == *old(ctx),
        old(ctx).caller != old(ctx).binding.record.recipient ==> res == Err::<(), EscrowError>(
            EscrowError::Unauthorized,
        ),
        res is Ok ==> final(ctx).binding.record == old(ctx).binding.record.completed(),
        res is Ok ==> final(ctx).binding.custody.balance
            == old(ctx).binding.custody.balance - old(ctx).binding.record.amount,
        res is Ok ==> final(ctx).destination.balance
            == old(ctx).destination.balance + old(ctx).binding.record.amount,
        final(ctx).binding.custody.balance + final(ctx).destination.balance
            == old(ctx).binding.custody.balance + old(ctx).destination.balance,
        old(ctx).binding.record.is_completed ==> final(ctx).binding.record.is_completed,
        old(ctx).binding.consistent() ==> final(ctx).binding.consistent(),
{
    let caller: Address = ctx.caller;
    let recipient: Address = ctx.binding.record.recipient;
    settle(&mut ctx.binding, &mut ctx.destination, &caller, &recipient)
}

} // verus!
