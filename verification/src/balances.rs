//! The balances module: a per-account balance and checked transfers.
//!
//! An account no one has funded reads as balance zero. A transfer validates
//! both checked computations before it writes anything, so a failing transfer
//! mutates nothing, and a successful one moves exactly the requested amount.

use vstd::prelude::*;

use crate::primitives::{BalanceOps, StateKey};
use crate::store::{journal_find, journal_get, lemma_journal_get_push};
use crate::support::{Dispatch, DispatchError, DispatchResult};

verus! {

/// The types the balances module works over, on top of the system module's.
pub trait Config: crate::system::Config {
    /// Represents the balance of an account; usually a large unsigned integer.
    type Balance: BalanceOps;
}

/// The balances module's state: the balance journal.
pub struct Pallet<T: Config> {
    balances: Vec<(T::AccountId, T::Balance)>,
}

/// The operations the balances module offers for dispatch.
pub enum Call<T: Config> {
    Transfer { to: T::AccountId, amount: T::Balance },
}

impl<T: Config> Pallet<T> {
    /// The balance of the account whose model is `who`; an account never
    /// written reads as zero.
    pub closed spec fn spec_balance(&self, who: <T::AccountId as StateKey>::Model) -> int {
        match journal_get(self.balances@, who) {
            Some(b) => b.value(),
            None => 0,
        }
    }

    /// What [`Self::transfer`] does: moving `amount` from `sender` to
    /// `receiver` succeeds exactly when the sender's balance can give the
    /// amount up and the receiver's can take it (both judged on the state
    /// before the call); on success exactly those two balances change, by
    /// exactly `amount` (a self-transfer changes nothing); on failure the
    /// error names the check that failed and no balance changes.
    pub open spec fn transfer_spec(
        pre: Self,
        post: Self,
        sender: <T::AccountId as StateKey>::Model,
        receiver: <T::AccountId as StateKey>::Model,
        amount: int,
        r: DispatchResult,
    ) -> bool {
        let sb = pre.spec_balance(sender);
        let rb = pre.spec_balance(receiver);
        &&& (r is Ok <==> <T::Balance as BalanceOps>::representable(sb - amount)
            && <T::Balance as BalanceOps>::representable(rb + amount))
        &&& (!<T::Balance as BalanceOps>::representable(sb - amount) ==> r == Result::<
            (),
            DispatchError,
        >::Err(DispatchError::InsufficientFunds))
        &&& (<T::Balance as BalanceOps>::representable(sb - amount)
            && !<T::Balance as BalanceOps>::representable(rb + amount) ==> r == Result::<
            (),
            DispatchError,
        >::Err(DispatchError::Overflow))
        &&& (r is Ok && sender != receiver ==> post.spec_balance(sender) == sb - amount
            && post.spec_balance(receiver) == rb + amount && (forall|
            a: <T::AccountId as StateKey>::Model,
        |
            a != sender && a != receiver ==> post.spec_balance(a) == pre.spec_balance(a)))
        &&& (r is Ok && sender == receiver ==> forall|a: <T::AccountId as StateKey>::Model|
            post.spec_balance(a) == pre.spec_balance(a))
        &&& (r is Err ==> forall|a: <T::AccountId as StateKey>::Model|
            post.spec_balance(a) == pre.spec_balance(a))
    }

    /// A fresh balances state: every account reads as zero.
    pub fn new() -> (r: Self)
        ensures
            forall|a: <T::AccountId as StateKey>::Model| r.spec_balance(a) == 0,
    {
        Pallet { balances: Vec::new() }
    }

    /// Overwrites the balance of `who` with `amount`, unconditionally. Used
    /// for genesis funding only; no dispatchable operation reaches it.
    pub fn set_balance(&mut self, who: &T::AccountId, amount: T::Balance)
        ensures
            final(self).spec_balance(who.model()) == amount.value(),
            forall|a: <T::AccountId as StateKey>::Model|
                a != who.model() ==> final(self).spec_balance(a) == old(self).spec_balance(a),
    {
        let entry = (who.key_clone(), amount);
        proof {
            let ghost entries = self.balances@;
            assert forall|a: <T::AccountId as StateKey>::Model| true implies #[trigger]
                journal_get(entries.push(entry), a) == (if entry.0.model() == a {
                Some(entry.1)
            } else {
                journal_get(entries, a)
            }) by {
                lemma_journal_get_push(entries, entry, a);
            }
        }
        self.balances.push(entry);
    }

    /// The balance of `who`: zero when no one has written it.
    pub fn balance(&self, who: &T::AccountId) -> (r: T::Balance)
        ensures
            r.value() == self.spec_balance(who.model()),
    {
        match journal_find(&self.balances, who) {
            Some(i) => self.balances[i].1,
            None => T::Balance::zero(),
        }
    }

    /// Moves `amount` from `sender` to `receiver` with checked arithmetic.
    /// Both checks pass before either balance is written, so a failing
    /// transfer leaves every balance as it was.
    pub fn transfer(
        &mut self,
        sender: T::AccountId,
        receiver: T::AccountId,
        amount: T::Balance,
    ) -> (r: DispatchResult)
        ensures
            Self::transfer_spec(
                *old(self),
                *final(self),
                sender.model(),
                receiver.model(),
                amount.value(),
                r,
            ),
    {
        let sender_balance = self.balance(&sender);
        let receiver_balance = self.balance(&receiver);

        let new_sender_balance = match sender_balance.checked_sub(&amount) {
            Some(b) => b,
            None => {
                return Err(DispatchError::InsufficientFunds);
            },
        };
        let new_receiver_balance = match receiver_balance.checked_add(&amount) {
            Some(b) => b,
            None => {
                return Err(DispatchError::Overflow);
            },
        };
        if sender.key_eq(&receiver) {
            // Both checked computations passed; what a self-transfer gives up
            // it receives back, so the balance stays as it was.
            return Ok(());
        }
        self.set_balance(&sender, new_sender_balance);
        self.set_balance(&receiver, new_receiver_balance);
        Ok(())
    }
}

impl<T: Config> Pallet<T> {
    /// What dispatching a balances call does: `Transfer { to, amount }`
    /// routes to [`Self::transfer`] with the dispatch caller as the sender.
    pub open spec fn dispatch_spec(
        pre: Self,
        post: Self,
        caller: T::AccountId,
        call: Call<T>,
        r: DispatchResult,
    ) -> bool {
        match call {
            Call::Transfer { to, amount } => Self::transfer_spec(
                pre,
                post,
                caller.model(),
                to.model(),
                amount.value(),
                r,
            ),
        }
    }
}

impl<T: Config> Dispatch for Pallet<T> {
    type Caller = T::AccountId;

    type Call = Call<T>;

    fn dispatch(&mut self, caller: Self::Caller, call: Self::Call) -> (r: DispatchResult)
        ensures
            Pallet::<T>::dispatch_spec(*old(self), *final(self), caller, call, r),
    {
        match call {
            Call::Transfer { to, amount } => self.transfer(caller, to, amount),
        }
    }
}

/// Law: a successful transfer conserves value. It changes the sender's
/// balance by exactly `-amount` and the receiver's by exactly `+amount`, so
/// their total is unchanged, and it touches no other account. A transfer of
/// an account to itself changes nothing.
pub proof fn lemma_transfer_conservation<T: Config>(
    pre: Pallet<T>,
    post: Pallet<T>,
    sender: <T::AccountId as StateKey>::Model,
    receiver: <T::AccountId as StateKey>::Model,
    amount: int,
    r: DispatchResult,
)
    requires
        Pallet::<T>::transfer_spec(pre, post, sender, receiver, amount, r),
        r is Ok,
    ensures
        sender != receiver ==> post.spec_balance(sender) == pre.spec_balance(sender) - amount,
        sender != receiver ==> post.spec_balance(receiver) == pre.spec_balance(receiver) + amount,
        post.spec_balance(sender) + post.spec_balance(receiver) == pre.spec_balance(sender)
            + pre.spec_balance(receiver),
        sender == receiver ==> post.spec_balance(sender) == pre.spec_balance(sender),
        forall|a: <T::AccountId as StateKey>::Model|
            a != sender && a != receiver ==> post.spec_balance(a) == pre.spec_balance(a),
{
}

/// Law: a failing transfer is atomic. Whether it failed for insufficient
/// funds or for overflow, every balance reads exactly as it did before the
/// call.
pub proof fn lemma_transfer_atomicity<T: Config>(
    pre: Pallet<T>,
    post: Pallet<T>,
    sender: <T::AccountId as StateKey>::Model,
    receiver: <T::AccountId as StateKey>::Model,
    amount: int,
    r: DispatchResult,
)
    requires
        Pallet::<T>::transfer_spec(pre, post, sender, receiver, amount, r),
        r is Err,
    ensures
        forall|a: <T::AccountId as StateKey>::Model|
            post.spec_balance(a) == pre.spec_balance(a),
{
}

/// Law: transfer is not idempotent. Two successful transfers with identical
/// arguments move the amount twice, so the second call starts from the
/// updated state — and may fail where the first succeeded.
pub proof fn lemma_transfer_not_idempotent<T: Config>(
    s0: Pallet<T>,
    s1: Pallet<T>,
    s2: Pallet<T>,
    sender: <T::AccountId as StateKey>::Model,
    receiver: <T::AccountId as StateKey>::Model,
    amount: int,
    r1: DispatchResult,
    r2: DispatchResult,
)
    requires
        Pallet::<T>::transfer_spec(s0, s1, sender, receiver, amount, r1),
        r1 is Ok,
        Pallet::<T>::transfer_spec(s1, s2, sender, receiver, amount, r2),
        sender != receiver,
    ensures
        r2 is Ok ==> s2.spec_balance(sender) == s0.spec_balance(sender) - 2 * amount,
        r2 is Ok ==> s2.spec_balance(receiver) == s0.spec_balance(receiver) + 2 * amount,
        r2 is Ok <==> <T::Balance as BalanceOps>::representable(
            s0.spec_balance(sender) - 2 * amount,
        ) && <T::Balance as BalanceOps>::representable(s0.spec_balance(receiver) + 2 * amount),
{
}

} // verus!
