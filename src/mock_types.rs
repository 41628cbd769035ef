use vstd::prelude::*;

use crate::side_effects::AccountId;

verus! {

/// An amount of currency.
pub type Balance = u128;

/// The balance every account is taken to hold: half of what a balance can
/// hold, so that sums of two such balances do not overflow.
pub const ENOUGH: Balance = 170141183460469231731687303715884105727;

/// An imbalance that is always zero: nothing is ever minted or burned.
#[derive(Debug, Clone, Copy, PartialEq, Eq, Structural, Default)]
pub struct NoImbalance;

impl NoImbalance {
    pub fn zero() -> (r: Self)
        ensures
            r == NoImbalance,
    {
        NoImbalance
    }

    pub fn try_drop(self) -> (r: Result<(), Self>)
        ensures
            r is Ok,
    {
        Ok(())
    }

    pub fn drop_zero(self) -> (r: Result<(), Self>)
        ensures
            r is Ok,
    {
        Ok(())
    }

    pub fn split(self, amount: Balance) -> (r: (Self, Self))
        ensures
            r == (NoImbalance, NoImbalance),
    {
        (NoImbalance, NoImbalance)
    }

    pub fn merge(self, other: Self) -> (r: Self)
        ensures
            r == self,
    {
        self
    }

    pub fn subsume(&mut self, other: Self)
        ensures
            *final(self) == *old(self),
    {
    }

    pub fn peek(&self) -> (r: Balance)
        ensures
            r == 0,
    {
        0
    }
}

/// A currency in which every account holds plenty, nothing can be slashed,
/// and every movement of funds succeeds without effect.
pub struct NoCurrency;

impl NoCurrency {
    pub fn total_balance(who: &AccountId) -> (r: Balance)
        ensures
            r == ENOUGH,
    {
        ENOUGH
    }

    pub fn can_slash(who: &AccountId, value: Balance) -> (r: bool)
        ensures
            !r,
    {
        false
    }

    pub fn total_issuance() -> (r: Balance)
        ensures
            r == ENOUGH,
    {
        ENOUGH
    }

    pub fn minimum_balance() -> (r: Balance)
        ensures
            r == 0,
    {
        0
    }

    pub fn burn(amount: Balance) -> (r: NoImbalance)
        ensures
            r == NoImbalance,
    {
        NoImbalance::zero()
    }

    pub fn issue(amount: Balance) -> (r: NoImbalance)
        ensures
            r == NoImbalance,
    {
        NoImbalance::zero()
    }

    pub fn free_balance(who: &AccountId) -> (r: Balance)
        ensures
            r == ENOUGH,
    {
        ENOUGH
    }

    pub fn ensure_can_withdraw(
        who: &AccountId,
        amount: Balance,
        new_balance: Balance,
    ) -> (r: Result<(), ()>)
        ensures
            r is Ok,
    {
        Ok(())
    }

    pub fn transfer(source: &AccountId, dest: &AccountId, value: Balance) -> (r: Result<(), ()>)
        ensures
            r is Ok,
    {
        Ok(())
    }

    pub fn slash(who: &AccountId, value: Balance) -> (r: (NoImbalance, Balance))
        ensures
            r == (NoImbalance, 0u128),
    {
        (NoImbalance::zero(), 0)
    }

    pub fn deposit_into_existing(who: &AccountId, value: Balance) -> (r: Result<NoImbalance, ()>)
        ensures
            r == Ok::<NoImbalance, ()>(NoImbalance),
    {
        Ok(NoImbalance::zero())
    }

    pub fn deposit_creating(who: &AccountId, value: Balance) -> (r: NoImbalance)
        ensures
            r == NoImbalance,
    {
        NoImbalance::zero()
    }

    pub fn withdraw(who: &AccountId, value: Balance) -> (r: Result<NoImbalance, ()>)
        ensures
            r == Ok::<NoImbalance, ()>(NoImbalance),
    {
        Ok(NoImbalance::zero())
    }

    pub fn can_reserve(who: &AccountId, value: Balance) -> (r: bool)
        ensures
            r,
    {
        true
    }

    pub fn slash_reserved(who: &AccountId, value: Balance) -> (r: (NoImbalance, Balance))
        ensures
            r == (NoImbalance, 0u128),
    {
        (NoImbalance, 0)
    }

    pub fn reserved_balance(who: &AccountId) -> (r: Balance)
        ensures
            r == 0,
    {
        0
    }

    pub fn reserve(who: &AccountId, value: Balance) -> (r: Result<(), ()>)
        ensures
            r is Ok,
    {
        Ok(())
    }

    pub fn unreserve(who: &AccountId, value: Balance) -> (r: Balance)
        ensures
            r == 0,
    {
        0
    }

    pub fn repatriate_reserved(
        slashed: &AccountId,
        beneficiary: &AccountId,
        value: Balance,
    ) -> (r: Result<Balance, ()>)
        ensures
            r == Ok::<Balance, ()>(0),
    {
        Ok(0)
    }
}

/// The balances stored for an account.
#[derive(Debug, Clone, Copy, PartialEq, Eq, Structural)]
pub struct AccountData {
    pub free: Balance,
    pub reserved: Balance,
    pub misc_frozen: Balance,
    pub fee_frozen: Balance,
}

/// An account store that holds nothing and reads every account as holding
/// plenty.
pub struct NoAccountStore;

impl NoAccountStore {
    pub fn get(who: &AccountId) -> (r: AccountData)
        ensures
            r == (AccountData {
                free: ENOUGH,
                reserved: ENOUGH,
                misc_frozen: ENOUGH,
                fee_frozen: ENOUGH,
            }),
    {
        AccountData { free: ENOUGH, reserved: ENOUGH, misc_frozen: ENOUGH, fee_frozen: ENOUGH }
    }
}

} // verus!
