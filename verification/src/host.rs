//! A plain-value model of the blockchain host environment.
//!
//! The host supplies the contract account's balance and remembers whether
//! contract state has already been persisted; it also executes transfers that
//! the contract schedules. All of that is modeled here with plain values, so
//! the contract's decisions can be verified against them.

use vstd::prelude::*;

verus! {

/// The host-side facts a contract call can observe: the contract account's
/// current balance, and whether contract state already exists.
pub struct HostEnv {
    pub account_balance: u128,
    pub state_exists: bool,
}

/// A deferred value transfer: a command handed to the host, which moves
/// `amount` from the contract account to `receiver_id` after the call that
/// scheduled it has completed.
#[derive(Clone, Debug)]
pub struct Transfer {
    pub receiver_id: String,
    pub amount: u128,
}

impl HostEnv {
    /// The host executes a scheduled transfer: the amount leaves the contract
    /// account's balance.
    pub fn apply_transfer(&mut self, t: &Transfer)
        requires
            t.amount <= old(self).account_balance,
        ensures
            final(self).account_balance == old(self).account_balance - t.amount,
            final(self).state_exists == old(self).state_exists,
    {
        self.account_balance = self.account_balance - t.amount;
    }

    /// The host persists freshly initialized contract state: from here on,
    /// state exists and re-initialization is refused.
    pub fn mark_initialized(&mut self)
        ensures
            final(self).state_exists,
            final(self).account_balance == old(self).account_balance,
    {
        self.state_exists = true;
    }
}

} // verus!
