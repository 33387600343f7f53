use crate::address::Address;
use crate::error::EscrowError;
use crate::holding::{transfer, Holding};
use crate::record::{CustodyBinding, Escrow};
use vstd::prelude::*;

verus! {

/// The accounts an initialization works on.
#[derive(Clone, Copy, Debug, PartialEq, Eq)]
pub struct InitializeEscrow {
    /// The party funding the escrow.
    pub depositor: Address,
    /// The asset class to escrow.
    pub asset_type: Address,
    /// The depositor's holding, from which the funds are taken.
    pub source: Holding,
    /// Handle of the custody holding to bind.
    pub custody_reference: Address,
    /// What is bound to that custody reference: nothing before a successful
    /// initialization, the new record and its custody after.
    pub binding: Option<CustodyBinding>,
    /// The current time.
    pub now: i64,
    /// Salt from which the record's own address is derived.
    pub access_bump: u8,
}

impl InitializeEscrow {
    /// What `initialize_escrow` answers on these accounts for `amount`.
    ///
    /// The amount is checked first, then the source, then the custody
    /// reference.
    pub open spec fn outcome(self, amount: u64) -> Result<(), EscrowError> {
        if amount == 0 {
            Err(EscrowError::InvalidAmount)
        } else if !self.source.covers(amount) {
            Err(EscrowError::InsufficientFunds)
        } else if self.binding is Some {
            Err(EscrowError::DuplicateEscrow)
        } else {
            Ok(())
        }
    }

    /// The record that a successful initialization makes.
    pub open spec fn new_record(self, amount: u64, recipient: Address) -> Escrow {
        Escrow {
            depositor: self.depositor,
            recipient,
            asset_type: self.asset_type,
            amount,
            created_at: self.now,
            is_completed: false,
            custody_reference: self.custody_reference,
            access_bump: self.access_bump,
        }
    }

    /// These accounts after `initialize_escrow`: on success the amount has
    /// gone from the source into a custody holding bound to the new record;
    /// on refusal they are unchanged.
    pub open spec fn after(self, amount: u64, recipient: Address) -> InitializeEscrow {
        if self.outcome(amount) is Ok {
            InitializeEscrow {
                source: self.source.debited(amount),
                binding: Some(
                    CustodyBinding {
                        record: self.new_record(amount, recipient),
                        custody: Holding { balance: amount },
                    },
                ),
                ..self
            }
        } else {
            self
        }
    }
}

/// Creates an escrow of `amount` units for `recipient`.
///
/// Succeeds exactly when `amount` is positive, the source holds at least
/// `amount` and nothing is bound to the custody reference yet. Then, as one
/// step, `amount` leaves the source, the custody holding is made with exactly
/// `amount` in it, and an active record is bound to it. Otherwise the first
/// failing check names the error, in this order: `InvalidAmount`,
/// `InsufficientFunds`, `DuplicateEscrow`; no record is made and nothing
/// changes.
pub fn initialize_escrow(ctx: &mut InitializeEscrow, amount: u64, recipient: Address) -> (res:
    Result<(), EscrowError>)
    ensures
        res == old(ctx).outcome(amount),
        *final(ctx) == old(ctx).after(amount, recipient),
        res is Err ==> *final(ctx) == *old(ctx),
        amount == 0 ==> res == Err::<(), EscrowError>(EscrowError::InvalidAmount),
        amount == 0 ==> final(ctx).binding == old(ctx).binding,
        res is Ok ==> final(ctx).binding is Some,
        res is Ok ==> final(ctx).binding.unwrap().custody.balance == amount,
        res is Ok ==> !final(ctx).binding.unwrap().record.is_completed,
        res is Ok ==> final(ctx).binding.unwrap().consistent(),
        res is Ok ==> final(ctx).binding.unwrap().record == old(ctx).new_record(amount, recipient),
        res is Ok ==> final(ctx).source.balance == old(ctx).source.balance - amount,
{
    if amount == 0 {
        return Err(EscrowError::InvalidAmount);
    }
    if !ctx.source.can_pay(amount) {
        return Err(EscrowError::InsufficientFunds);
    }
    if ctx.binding.is_some() {
        return Err(EscrowError::DuplicateEscrow);
    }
    let mut custody = Holding { balance: 0 };
    transfer(&mut ctx.source, &mut custody, amount)?;
    let record = Escrow {
        depositor: ctx.depositor,
        recipient,
        asset_type: ctx.asset_type,
        amount,
        created_at: ctx.now,
        is_completed: false,
        custody_reference: ctx.custody_reference,
        access_bump: ctx.access_bump,
    };
    ctx.binding = Some(CustodyBinding { record, custody });
    Ok(())
}

} // verus!
