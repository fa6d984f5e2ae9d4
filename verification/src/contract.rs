//! The tipping contract: one designated receiver, one fixed tip amount, and an
//! append-only list of registered receivers.

use vstd::prelude::*;
use crate::account::{is_valid_account_id, valid_account_id};
use crate::host::{HostEnv, Transfer};

verus! {

/// Why a contract call was refused. Every refusal aborts the call and leaves
/// all state unchanged.
#[derive(Clone, Copy, Debug, PartialEq, Eq, Structural)]
pub enum TipError {
    /// The candidate receiver is not a syntactically valid account identifier.
    InvalidReceiverId,
    /// Contract state already exists; a contract is initialized at most once.
    AlreadyInitialized,
    /// The contract account's balance is below the tip amount.
    InsufficientFunds,
    /// The receiver has not been registered yet.
    NotRegistered,
}

/// The persisted contract state: the designated receiver, the fixed tip
/// amount, and the list of registered receivers.
#[derive(Debug)]
pub struct Contract {
    pub receiver_id: String,
    pub tip_amount: u128,
    pub registered_receivers: Vec<String>,
}

/// How often `x` occurs in `ids`.
pub open spec fn occurrences(ids: Seq<Seq<char>>, x: Seq<char>) -> nat
    decreases ids.len(),
{
    if ids.len() == 0 {
        0
    } else {
        occurrences(ids.drop_last(), x) + (if ids.last() == x {
            1nat
        } else {
            0nat
        })
    }
}

/// A sequence contains an element exactly when the element occurs in it at
/// least once.
pub proof fn lemma_occurrences_contains(ids: Seq<Seq<char>>, x: Seq<char>)
    ensures
        ids.contains(x) <==> occurrences(ids, x) >= 1,
    decreases ids.len(),
{
    if ids.len() > 0 {
        lemma_occurrences_contains(ids.drop_last(), x);
        if ids.contains(x) {
            let i = choose|i: int| 0 <= i < ids.len() && ids[i] == x;
            if i < ids.len() - 1 {
                assert(ids.drop_last()[i] == x);
                assert(ids.drop_last().contains(x));
            }
        }
        if ids.drop_last().contains(x) {
            let i = choose|i: int| 0 <= i < ids.drop_last().len() && ids.drop_last()[i] == x;
            assert(ids[i] == x);
        }
    }
}

/// Appending an element raises its own occurrence count by one and leaves
/// every other count unchanged.
pub proof fn lemma_occurrences_push(ids: Seq<Seq<char>>, x: Seq<char>, y: Seq<char>)
    ensures
        occurrences(ids.push(y), x) == occurrences(ids, x) + (if y == x {
            1nat
        } else {
            0nat
        }),
{
    assert(ids.push(y).drop_last() =~= ids);
    assert(ids.push(y).last() == y);
}

/// What one registration call does to the list of registered receivers:
/// nothing if the receiver is already present, otherwise it is appended.
pub open spec fn register_step(ids: Seq<Seq<char>>, receiver: Seq<char>) -> Seq<Seq<char>> {
    if ids.contains(receiver) {
        ids
    } else {
        ids.push(receiver)
    }
}

/// The list of registered receivers after `n` registration calls.
pub open spec fn register_n(ids: Seq<Seq<char>>, receiver: Seq<char>, n: nat) -> Seq<Seq<char>>
    decreases n,
{
    if n == 0 {
        ids
    } else {
        register_step(register_n(ids, receiver, (n - 1) as nat), receiver)
    }
}

/// Whether construction succeeds, given the candidate receiver and whether
/// contract state already exists.
pub open spec fn new_accepts(receiver_id: Seq<char>, state_exists: bool) -> bool {
    valid_account_id(receiver_id) && !state_exists
}

/// The error construction is refused with when it does not succeed. The
/// receiver identifier is checked before the state-exists guard.
pub open spec fn new_error(receiver_id: Seq<char>, state_exists: bool) -> TipError {
    if !valid_account_id(receiver_id) {
        TipError::InvalidReceiverId
    } else {
        TipError::AlreadyInitialized
    }
}

/// Whether a tip may be sent, given the contract state and the account
/// balance.
pub open spec fn send_tip_accepts(c: Contract, balance: u128) -> bool {
    balance >= c.tip_amount && c.spec_is_registered()
}

/// The error a tip is refused with when it may not be sent. The balance is
/// checked before the registration.
pub open spec fn send_tip_error(c: Contract, balance: u128) -> TipError {
    if balance < c.tip_amount {
        TipError::InsufficientFunds
    } else {
        TipError::NotRegistered
    }
}

impl Contract {
    /// The registered receivers as a sequence of character sequences.
    pub open spec fn registered_ids(&self) -> Seq<Seq<char>> {
        self.registered_receivers@.map_values(|s: String| s@)
    }

    /// Whether the designated receiver is present among the registered
    /// receivers.
    pub open spec fn spec_is_registered(&self) -> bool {
        self.registered_ids().contains(self.receiver_id@)
    }

    /// Well-formedness: the designated receiver is registered at most once.
    pub open spec fn wf(&self) -> bool {
        occurrences(self.registered_ids(), self.receiver_id@) <= 1
    }

    /// Initializes the contract. Refused when `receiver_id` is not a valid
    /// account identifier, or when contract state already exists; on success
    /// the list of registered receivers starts out empty.
    pub fn new(receiver_id: String, tip_amount: u128, env: &HostEnv) -> (r: Result<
        Contract,
        TipError,
    >)
        ensures
            r is Ok <==> new_accepts(receiver_id@, env.state_exists),
            r matches Err(e) ==> e == new_error(receiver_id@, env.state_exists),
            env.state_exists ==> r is Err,
            r matches Ok(c) ==> {
                &&& c.receiver_id@ == receiver_id@
                &&& c.tip_amount == tip_amount
                &&& c.registered_ids() == Seq::<Seq<char>>::empty()
                &&& !c.spec_is_registered()
                &&& c.wf()
            },
    {
        if !is_valid_account_id(receiver_id.as_str()) {
            return Err(TipError::InvalidReceiverId);
        }
        if env.state_exists {
            return Err(TipError::AlreadyInitialized);
        }
        let c = Contract { receiver_id, tip_amount, registered_receivers: Vec::new() };
        proof {
            assert(c.registered_ids() =~= Seq::<Seq<char>>::empty());
        }
        Ok(c)
    }

    /// Whether the designated receiver has been registered.
    pub fn is_registered(&self) -> (b: bool)
        ensures
            b == self.spec_is_registered(),
    {
        let n = self.registered_receivers.len();
        let mut i: usize = 0;
        while i < n
            invariant
                0 <= i <= n,
                n == self.registered_receivers.len(),
                forall|j: int| 0 <= j < i ==> #[trigger] self.registered_ids()[j]
                    != self.receiver_id@,
            decreases n - i,
        {
            if self.registered_receivers[i] == self.receiver_id {
                proof {
                    assert(self.registered_ids()[i as int] == self.receiver_id@);
                }
                return true;
            }
            i = i + 1;
        }
        false
    }

    /// Registers the designated receiver: appends it to the list of registered
    /// receivers unless it is already present. Never fails, and repeated calls
    /// change nothing after the first.
    pub fn register_receiver(&mut self)
        ensures
            final(self).receiver_id@ == old(self).receiver_id@,
            final(self).tip_amount == old(self).tip_amount,
            final(self).registered_ids() == register_step(
                old(self).registered_ids(),
                old(self).receiver_id@,
            ),
            final(self).spec_is_registered(),
            old(self).wf() ==> final(self).wf(),
    {
        if !self.is_registered() {
            let id = self.receiver_id.clone();
            self.registered_receivers.push(id);
            proof {
                let prev = old(self).registered_ids();
                let r = old(self).receiver_id@;
                assert(self.registered_ids() =~= prev.push(r));
                assert(self.registered_ids()[prev.len() as int] == r);
                lemma_occurrences_contains(prev, r);
                lemma_occurrences_push(prev, r, r);
            }
        }
    }

    /// The contract account's current balance, as reported by the host.
    pub fn get_balance(&self, env: &HostEnv) -> (b: u128)
        ensures
            b == env.account_balance,
    {
        env.account_balance
    }

    /// Decides a tip. Refused when the balance is below the tip amount, or
    /// when the receiver is not registered; otherwise it returns the transfer
    /// of the tip amount to the receiver that the host is to execute. The
    /// contract state itself never changes.
    pub fn send_tip(&mut self, env: &HostEnv) -> (r: Result<Transfer, TipError>)
        ensures
            *final(self) == *old(self),
            r is Ok <==> send_tip_accepts(*old(self), env.account_balance),
            r matches Err(e) ==> e == send_tip_error(*old(self), env.account_balance),
            r matches Ok(t) ==> {
                &&& t.receiver_id@ == old(self).receiver_id@
                &&& t.amount == old(self).tip_amount
            },
    {
        let balance = self.get_balance(env);
        if balance < self.tip_amount {
            return Err(TipError::InsufficientFunds);
        }
        if !self.is_registered() {
            return Err(TipError::NotRegistered);
        }
        let receiver_id = self.receiver_id.clone();
        Ok(Transfer { receiver_id, amount: self.tip_amount })
    }
}

/// Once contract state exists, construction is refused, whatever the
/// arguments.
pub proof fn lemma_new_refused_when_initialized(receiver_id: Seq<char>, tip_amount: u128)
    ensures
        !new_accepts(receiver_id, true),
{
}

/// A syntactically invalid receiver identifier is always refused at
/// construction, and with the invalid-identifier error, whatever the state.
pub proof fn lemma_new_refused_invalid_id(receiver_id: Seq<char>, state_exists: bool)
    requires
        !valid_account_id(receiver_id),
    ensures
        !new_accepts(receiver_id, state_exists),
        new_error(receiver_id, state_exists) == TipError::InvalidReceiverId,
{
}

/// Registering twice leaves the same list of registered receivers as
/// registering once.
pub proof fn lemma_register_idempotent(ids: Seq<Seq<char>>, receiver: Seq<char>)
    ensures
        register_step(register_step(ids, receiver), receiver) == register_step(ids, receiver),
{
    if !ids.contains(receiver) {
        assert(ids.push(receiver)[ids.len() as int] == receiver);
        assert(ids.push(receiver).contains(receiver));
    }
}

/// Any positive number of registration calls, starting from a list that does
/// not contain the receiver, leaves the receiver present exactly once.
pub proof fn lemma_register_exactly_once(ids: Seq<Seq<char>>, receiver: Seq<char>, n: nat)
    requires
        n >= 1,
        !ids.contains(receiver),
    ensures
        occurrences(register_n(ids, receiver, n), receiver) == 1,
    decreases n,
{
    if n == 1 {
        lemma_occurrences_contains(ids, receiver);
        lemma_occurrences_push(ids, receiver, receiver);
    } else {
        lemma_register_exactly_once(ids, receiver, (n - 1) as nat);
        lemma_occurrences_contains(register_n(ids, receiver, (n - 1) as nat), receiver);
    }
}

/// With the receiver unregistered a tip is always refused; when the balance
/// covers the tip amount, the refusal is the not-registered error.
pub proof fn lemma_send_tip_unregistered(c: Contract, balance: u128)
    requires
        !c.spec_is_registered(),
    ensures
        !send_tip_accepts(c, balance),
        balance >= c.tip_amount ==> send_tip_error(c, balance) == TipError::NotRegistered,
{
}

/// A balance below the tip amount always refuses a tip with the
/// insufficient-funds error, whatever the registration state.
pub proof fn lemma_send_tip_insufficient(c: Contract, balance: u128)
    requires
        balance < c.tip_amount,
    ensures
        !send_tip_accepts(c, balance),
        send_tip_error(c, balance) == TipError::InsufficientFunds,
{
}

} // verus!
