use crate::error::EscrowError;
use vstd::prelude::*;

verus! {

/// An account that holds units of one asset.
#[derive(Clone, Copy, Debug, PartialEq, Eq, Structural)]
pub struct Holding {
    /// Units held.
    pub balance: u64,
}

impl Holding {
    /// A holding with `balance` units.
    pub fn new(balance: u64) -> (holding: Holding)
        ensures
            holding.balance == balance,
    {
        Holding { balance }
    }

    /// Whether this holding can pay `amount` units.
    pub open spec fn covers(self, amount: u64) -> bool {
        self.balance >= amount
    }

    /// Whether this holding can take `amount` more units without its balance
    /// passing the largest value a balance can have.
    pub open spec fn has_room_for(self, amount: u64) -> bool {
        self.balance + amount <= u64::MAX
    }

    /// Tells whether this holding can pay `amount` units.
    pub fn can_pay(&self, amount: u64) -> (yes: bool)
        ensures
            yes == self.covers(amount),
    {
        self.balance >= amount
    }

    /// Tells whether this holding can take `amount` more units.
    pub fn can_take(&self, amount: u64) -> (yes: bool)
        ensures
            yes == self.has_room_for(amount),
    {
        amount <= u64::MAX - self.balance
    }

    /// This holding after `amount` units have left it.
    pub open spec fn debited(self, amount: u64) -> Holding
        recommends
            self.covers(amount),
    {
        Holding { balance: (self.balance - amount) as u64 }
    }

    /// This holding after `amount` units have arrived.
    pub open spec fn credited(self, amount: u64) -> Holding
        recommends
            self.has_room_for(amount),
    {
        Holding { balance: (self.balance + amount) as u64 }
    }
}

/// Moves `amount` units from `from` to `to`, all of them or none.
///
/// Fails with `InsufficientFunds`, and moves nothing, when `from` holds less
/// than `amount`. Otherwise the units leave `from` and arrive at `to`, so the
/// two balances together are what they were.
pub fn transfer(from: &mut Holding, to: &mut Holding, amount: u64) -> (res: Result<
    (),
    EscrowError,
>)
    requires
        old(from).covers(amount) ==> old(to).has_room_for(amount),
    ensures
        res is Ok <==> old(from).covers(amount),
        res is Err ==> res == Err::<(), EscrowError>(EscrowError::InsufficientFunds),
        res is Err ==> *final(from) == *old(from) && *final(to) == *old(to),
        res is Ok ==> *final(from) == old(from).debited(amount),
        res is Ok ==> *final(to) == old(to).credited(amount),
        final(from).balance + final(to).balance == old(from).balance + old(to).balance,
{
    if !from.can_pay(amount) {
        return Err(EscrowError::InsufficientFunds);
    }
    from.balance = from.balance - amount;
    to.balance = to.balance + amount;
    Ok(())
}

} // verus!
