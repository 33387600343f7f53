use crate::address::Address;
use crate::holding::Holding;
use vstd::prelude::*;

verus! {

/// One escrow, from its creation to its completion.
///
/// Everything but `is_completed` is fixed when the record is made.
/// `is_completed` goes from `false` to `true` once and never back.
#[derive(Clone, Copy, Debug, PartialEq, Eq)]
pub struct Escrow {
    /// The party that funded the escrow and may cancel it.
    pub depositor: Address,
    /// The party that may withdraw the funds.
    pub recipient: Address,
    /// The asset class held in escrow.
    pub asset_type: Address,
    /// Units committed when the record was made.
    pub amount: u64,
    /// When the record was made. Informational.
    pub created_at: i64,
    /// Whether the funds have been released or refunded.
    pub is_completed: bool,
    /// Handle of the holding that keeps the funds.
    pub custody_reference: Address,
    /// Salt from which the record's own address is derived. Kept, never read.
    pub access_bump: u8,
}

impl Escrow {
    /// A record is well formed when it commits a positive amount.
    pub open spec fn wf(self) -> bool {
        self.amount > 0
    }

    /// This record once completed: the same in every other field.
    pub open spec fn completed(self) -> Escrow {
        Escrow { is_completed: true, ..self }
    }

    /// Whether this record can still be released or refunded.
    pub fn is_active(&self) -> (active: bool)
        ensures
            active == !self.is_completed,
    {
        !self.is_completed
    }
}

/// An escrow record together with the custody holding that belongs to it.
#[derive(Clone, Copy, Debug, PartialEq, Eq)]
pub struct CustodyBinding {
    /// The escrow record.
    pub record: Escrow,
    /// The holding named by `record.custody_reference`.
    pub custody: Holding,
}

impl CustodyBinding {
    /// Custody agrees with the record: it holds exactly the committed amount
    /// while the record is active, and nothing once it is completed.
    pub open spec fn consistent(self) -> bool {
        &&& self.record.wf()
        &&& !self.record.is_completed ==> self.custody.balance == self.record.amount
        &&& self.record.is_completed ==> self.custody.balance == 0
    }
}

} // verus!
