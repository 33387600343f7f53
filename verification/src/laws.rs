//! What holds across operations: an escrow is settled exactly once, and a
//! cancelled escrow gives the depositor back what was taken.

use crate::address::Address;
use crate::cancel::CancelEscrow;
use crate::error::EscrowError;
use crate::holding::Holding;
use crate::initialize::InitializeEscrow;
use crate::record::CustodyBinding;
use crate::withdraw::Withdraw;
use vstd::prelude::*;

verus! {

/// On an active escrow whose custody holds the committed amount, a withdrawal
/// by the recipient succeeds and so does a cancellation by the depositor, but
/// only the one that comes first: it empties custody and completes the
/// record, and after it a withdrawal by the recipient and a cancellation by
/// the depositor both fail with `AlreadyCompleted`, whatever holdings they
/// name.
pub proof fn lemma_settled_only_once(
    binding: CustodyBinding,
    recipient_holding: Holding,
    depositor_holding: Holding,
    later_recipient_holding: Holding,
    later_depositor_holding: Holding,
)
    requires
        binding.consistent(),
        !binding.record.is_completed,
    ensures
        ({
            let withdrawal = Withdraw {
                caller: binding.record.recipient,
                binding,
                destination: recipient_holding,
            };
            let cancellation = CancelEscrow {
                caller: binding.record.depositor,
                binding,
                destination: depositor_holding,
            };
            &&& withdrawal.outcome() is Ok
            &&& cancellation.outcome() is Ok
            &&& withdrawal.after().binding.custody.balance == 0
            &&& cancellation.after().binding.custody.balance == 0
            &&& withdrawal.after().binding.record.is_completed
            &&& cancellation.after().binding.record.is_completed
            &&& (Withdraw {
                caller: binding.record.recipient,
                binding: withdrawal.after().binding,
                destination: later_recipient_holding,
            }).outcome() == Err::<(), EscrowError>(EscrowError::AlreadyCompleted)
            &&& (CancelEscrow {
                caller: binding.record.depositor,
                binding: withdrawal.after().binding,
                destination: later_depositor_holding,
            }).outcome() == Err::<(), EscrowError>(EscrowError::AlreadyCompleted)
            &&& (Withdraw {
                caller: binding.record.recipient,
                binding: cancellation.after().binding,
                destination: later_recipient_holding,
            }).outcome() == Err::<(), EscrowError>(EscrowError::AlreadyCompleted)
            &&& (CancelEscrow {
                caller: binding.record.depositor,
                binding: cancellation.after().binding,
                destination: later_depositor_holding,
            }).outcome() == Err::<(), EscrowError>(EscrowError::AlreadyCompleted)
        }),
{
}

/// No double spend. Take an active escrow whose custody holds the committed
/// amount, a withdrawal and a cancellation against it, and let at least one
/// of the two callers be the party its operation is reserved for. Run the
/// two one after the other, in either order: exactly one of them succeeds,
/// and in the end the committed amount has left custody once, which is empty,
/// and the record is completed.
pub proof fn lemma_no_double_spend(
    binding: CustodyBinding,
    withdrawer: Address,
    canceller: Address,
    recipient_holding: Holding,
    depositor_holding: Holding,
)
    requires
        binding.consistent(),
        !binding.record.is_completed,
        withdrawer == binding.record.recipient || canceller == binding.record.depositor,
    ensures
        ({
            let withdraw_first = Withdraw {
                caller: withdrawer,
                binding,
                destination: recipient_holding,
            };
            let cancel_second = CancelEscrow {
                caller: canceller,
                binding: withdraw_first.after().binding,
                destination: depositor_holding,
            };
            &&& (withdraw_first.outcome() is Ok) != (cancel_second.outcome() is Ok)
            &&& cancel_second.after().binding == binding.settled()
        }),
        ({
            let cancel_first = CancelEscrow {
                caller: canceller,
                binding,
                destination: depositor_holding,
            };
            let withdraw_second = Withdraw {
                caller: withdrawer,
                binding: cancel_first.after().binding,
                destination: recipient_holding,
            };
            &&& (cancel_first.outcome() is Ok) != (withdraw_second.outcome() is Ok)
            &&& withdraw_second.after().binding == binding.settled()
        }),
        binding.settled().custody.balance == 0,
        binding.settled().record.is_completed,
        binding.settled().consistent(),
{
}

/// Conservation of value. After a successful initialization, a cancellation
/// by the depositor that names the depositor's source holding as destination
/// succeeds, has the room it needs, and leaves that holding with exactly the
/// balance it had before the initialization; custody is empty again.
pub proof fn lemma_cancel_restores_depositor(
    accounts: InitializeEscrow,
    amount: u64,
    recipient: Address,
)
    requires
        accounts.outcome(amount) is Ok,
    ensures
        ({
            let funded = accounts.after(amount, recipient);
            let cancellation = CancelEscrow {
                caller: accounts.depositor,
                binding: funded.binding.unwrap(),
                destination: funded.source,
            };
            &&& funded.source.balance == accounts.source.balance - amount
            &&& funded.binding.unwrap().custody.balance == amount
            &&& cancellation.destination.has_room_for(amount)
            &&& cancellation.outcome() is Ok
            &&& cancellation.after().destination == accounts.source
            &&& cancellation.after().binding.custody.balance == 0
        }),
{
}

} // verus!
