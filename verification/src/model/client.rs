//! Client accounts.

use crate::amount::{decimal_difference, decimal_sum, Amount};
use crate::error::ProcessError;
use crate::model::transaction::TransactionKind;
use vstd::prelude::*;

verus! {

/// The state of a client account.
///
/// `total` is what the client owns, `held` the part of it that open disputes
/// keep frozen; the difference is available for withdrawal, and may be
/// negative. A locked account takes no deposits and no withdrawals.
#[derive(Clone, Copy, Debug, PartialEq, Eq)]
pub struct Client {
    pub held: Amount,
    pub total: Amount,
    pub locked: bool,
}

impl Client {
    /// A fresh account: nothing held, nothing owned, not locked.
    pub open spec fn spec_new() -> Client {
        Client { held: Amount::zero(), total: Amount::zero(), locked: false }
    }

    /// The available balance `total - held`, where decimal arithmetic can
    /// express it.
    pub open spec fn spec_available(&self) -> Option<Amount> {
        decimal_difference(self.total, self.held)
    }

    /// Whether the balance that [`Client::deposit`] computes is in range.
    pub open spec fn deposit_in_range(&self, amount: Amount) -> bool {
        self.locked || decimal_sum(self.total, amount) is Some
    }

    /// Whether every balance that [`Client::withdraw`] computes is in range.
    pub open spec fn withdrawal_in_range(&self, amount: Amount) -> bool {
        self.locked || (self.spec_available() matches Some(available) && (available.units()
            < amount.units() || decimal_difference(self.total, amount) is Some))
    }

    /// Whether the balance that [`Client::hold`] computes is in range.
    pub open spec fn hold_in_range(&self, amount: Amount) -> bool {
        decimal_sum(self.held, amount) is Some
    }

    /// Whether the balances that [`Client::chargeback`] computes are in range.
    pub open spec fn chargeback_in_range(&self, amount: Amount) -> bool {
        decimal_difference(self.held, amount) is Some && decimal_difference(self.total, amount)
            is Some
    }

    /// Whether a withdrawal of `amount` is covered by the available balance.
    pub open spec fn covers(&self, amount: Amount) -> bool
        recommends
            self.spec_available() is Some,
    {
        self.spec_available().unwrap().units() >= amount.units()
    }

    /// The account after a deposit of `amount`.
    pub open spec fn deposited(self, amount: Amount) -> Client
        recommends
            decimal_sum(self.total, amount) is Some,
    {
        Client { total: decimal_sum(self.total, amount).unwrap(), ..self }
    }

    /// The account after a withdrawal of `amount`.
    pub open spec fn withdrawn(self, amount: Amount) -> Client
        recommends
            decimal_difference(self.total, amount) is Some,
    {
        Client { total: decimal_difference(self.total, amount).unwrap(), ..self }
    }

    /// The account with `amount` more on hold.
    pub open spec fn holding(self, amount: Amount) -> Client
        recommends
            decimal_sum(self.held, amount) is Some,
    {
        Client { held: decimal_sum(self.held, amount).unwrap(), ..self }
    }

    /// The account after `amount` was charged back: taken off what is held
    /// and off the total, and the account locked.
    pub open spec fn charged_back(self, amount: Amount) -> Client
        recommends
            self.chargeback_in_range(amount),
    {
        Client {
            held: decimal_difference(self.held, amount).unwrap(),
            total: decimal_difference(self.total, amount).unwrap(),
            locked: true,
        }
    }

    #[verifier::when_used_as_spec(spec_new)]
    pub fn new() -> (client: Client)
        ensures
            client == Client::new(),
    {
        Client { held: Amount::zero(), total: Amount::zero(), locked: false }
    }

    /// An account in a given state.
    pub fn from(held: Amount, total: Amount, locked: bool) -> (client: Client)
        ensures
            client == (Client { held, total, locked }),
    {
        Client { held, total, locked }
    }

    pub fn held(&self) -> (held: Amount)
        ensures
            held == self.held,
    {
        self.held
    }

    pub fn total(&self) -> (total: Amount)
        ensures
            total == self.total,
    {
        self.total
    }

    pub fn locked(&self) -> (locked: bool)
        ensures
            locked == self.locked,
    {
        self.locked
    }

    /// The available balance: `total - held`.
    pub fn available(&self) -> (available: Amount)
        requires
            self.spec_available() is Some,
        ensures
            Some(available) == self.spec_available(),
    {
        match self.total.checked_sub(self.held) {
            Some(available) => available,
            None => unreached(),
        }
    }

    /// Adds `amount` to the total, unless the account is locked.
    pub fn deposit(&mut self, amount: Amount) -> (res: Result<(), ProcessError>)
        requires
            old(self).deposit_in_range(amount),
        ensures
            old(self).locked ==> *final(self) == *old(self) && res == Err::<(), ProcessError>(
                ProcessError::AccountLocked { kind: TransactionKind::Deposit },
            ),
            !old(self).locked ==> *final(self) == old(self).deposited(amount) && res is Ok,
    {
        if self.locked {
            return Err(ProcessError::AccountLocked { kind: TransactionKind::Deposit });
        }
        match self.total.checked_add(amount) {
            Some(total) => {
                self.total = total;
                Ok(())
            },
            None => unreached(),
        }
    }

    /// Takes `amount` off the total, unless the account is locked or has
    /// less than `amount` available.
    pub fn withdraw(&mut self, amount: Amount) -> (res: Result<(), ProcessError>)
        requires
            old(self).withdrawal_in_range(amount),
        ensures
            old(self).locked ==> *final(self) == *old(self) && res == Err::<(), ProcessError>(
                ProcessError::AccountLocked { kind: TransactionKind::Withdrawal },
            ),
            !old(self).locked && !old(self).covers(amount) ==> *final(self) == *old(self) && res
                == Err::<(), ProcessError>(ProcessError::InsufficientFunds),
            !old(self).locked && old(self).covers(amount) ==> *final(self) == old(self).withdrawn(
                amount,
            ) && res is Ok,
    {
        if self.locked {
            return Err(ProcessError::AccountLocked { kind: TransactionKind::Withdrawal });
        }
        let available = self.available();
        if available.less_than(&amount) {
            Err(ProcessError::InsufficientFunds)
        } else {
            match self.total.checked_sub(amount) {
                Some(total) => {
                    self.total = total;
                    Ok(())
                },
                None => unreached(),
            }
        }
    }

    /// Puts `amount` more on hold. A negative amount releases a hold.
    pub fn hold(&mut self, amount: Amount)
        requires
            old(self).hold_in_range(amount),
        ensures
            *final(self) == old(self).holding(amount),
    {
        match self.held.checked_add(amount) {
            Some(held) => {
                self.held = held;
            },
            None => unreached(),
        }
    }

    /// Charges `amount` back: takes it off what is held and off the total,
    /// and locks the account for good.
    pub fn chargeback(&mut self, amount: Amount)
        requires
            old(self).chargeback_in_range(amount),
        ensures
            *final(self) == old(self).charged_back(amount),
    {
        match (self.held.checked_sub(amount), self.total.checked_sub(amount)) {
            (Some(held), Some(total)) => {
                self.held = held;
                self.total = total;
                self.locked = true;
            },
            _ => unreached(),
        }
    }
}

} // verus!
