//! The system module: the current block height and a per-account
//! monotonically increasing operation counter (nonce).
//!
//! The height is mutated only by the block executor, once per submitted
//! block; the nonce of an account is bumped by the executor once per
//! operation that account submits, whether or not the operation succeeds.

use vstd::prelude::*;

use crate::primitives::{Counter, StateKey};
use crate::store::{journal_find, journal_get, lemma_journal_get_push};

verus! {

/// The types the system module works over.
pub trait Config {
    /// Identifies a caller or recipient.
    type AccountId: StateKey;

    /// The block height counter.
    type BlockNumber: Counter;

    /// The per-account replay-ordering counter.
    type Nonce: Counter;
}

/// The system module's state: the current height and the nonce journal.
pub struct Pallet<T: Config> {
    block_number: T::BlockNumber,
    nonce: Vec<(T::AccountId, T::Nonce)>,
}

impl<T: Config> Pallet<T> {
    /// The current height, as a mathematical value.
    pub closed spec fn spec_block_number(&self) -> int {
        self.block_number.value()
    }

    /// The nonce of the account whose model is `who`; an account no operation
    /// has ever bumped reads as zero.
    pub closed spec fn spec_nonce(&self, who: <T::AccountId as StateKey>::Model) -> int {
        match journal_get(self.nonce@, who) {
            Some(n) => n.value(),
            None => 0,
        }
    }

    /// Whether any operation has ever bumped the nonce of `who`.
    pub closed spec fn nonce_recorded(&self, who: <T::AccountId as StateKey>::Model) -> bool {
        journal_get(self.nonce@, who) is Some
    }

    /// A fresh system state: height zero and every account's nonce absent.
    pub fn new() -> (r: Self)
        ensures
            r.spec_block_number() == 0,
            forall|a: <T::AccountId as StateKey>::Model| !r.nonce_recorded(a),
            forall|a: <T::AccountId as StateKey>::Model| r.spec_nonce(a) == 0,
    {
        Pallet { block_number: T::BlockNumber::zero(), nonce: Vec::new() }
    }

    /// The current block height. No side effect.
    pub fn block_number(&self) -> (r: T::BlockNumber)
        ensures
            r.value() == self.spec_block_number(),
    {
        self.block_number
    }

    /// Advances the height by one. Called by the executor only, once per
    /// submitted block, before any of the block's operations is processed.
    pub fn inc_block_number(&mut self)
        requires
            old(self).spec_block_number() < <T::BlockNumber as Counter>::limit(),
        ensures
            final(self).spec_block_number() == old(self).spec_block_number() + 1,
            forall|a: <T::AccountId as StateKey>::Model|
                final(self).spec_nonce(a) == old(self).spec_nonce(a),
            forall|a: <T::AccountId as StateKey>::Model|
                final(self).nonce_recorded(a) <==> old(self).nonce_recorded(a),
    {
        match self.block_number.checked_succ() {
            Some(next) => {
                self.block_number = next;
            },
            None => {
                proof {
                    assert(false);
                }
            },
        }
    }

    /// The recorded nonce of `who`: `None` when no operation has bumped it.
    /// A caller cannot tell `None` from a recorded zero by the value alone.
    pub fn get_nonce(&self, who: &T::AccountId) -> (r: Option<T::Nonce>)
        ensures
            r is Some <==> self.nonce_recorded(who.model()),
            r matches Some(n) ==> n.value() == self.spec_nonce(who.model()),
    {
        match journal_find(&self.nonce, who) {
            Some(i) => Some(self.nonce[i].1),
            None => None,
        }
    }

    /// Whether the nonce of `who` is still below its type's limit, so that
    /// [`Self::inc_nonce`] may be called for it.
    pub fn can_inc_nonce(&self, who: &T::AccountId) -> (r: bool)
        ensures
            r <==> self.spec_nonce(who.model()) < <T::Nonce as Counter>::limit(),
    {
        let cur: T::Nonce = match journal_find(&self.nonce, who) {
            Some(i) => self.nonce[i].1,
            None => T::Nonce::zero(),
        };
        proof {
            cur.lemma_value_in_range();
        }
        cur.checked_succ().is_some()
    }

    /// Reads the current nonce of `who` (zero when absent), increments it by
    /// one and stores it back. Called by the executor once per operation that
    /// `who` submits, before the operation is dispatched and independent of
    /// whether the operation succeeds.
    pub fn inc_nonce(&mut self, who: &T::AccountId)
        requires
            old(self).spec_nonce(who.model()) < <T::Nonce as Counter>::limit(),
        ensures
            final(self).spec_nonce(who.model()) == old(self).spec_nonce(who.model()) + 1,
            final(self).nonce_recorded(who.model()),
            forall|a: <T::AccountId as StateKey>::Model|
                a != who.model() ==> final(self).spec_nonce(a) == old(self).spec_nonce(a),
            forall|a: <T::AccountId as StateKey>::Model|
                a != who.model() ==> (final(self).nonce_recorded(a) <==> old(self).nonce_recorded(a)),
            final(self).spec_block_number() == old(self).spec_block_number(),
    {
        let cur: T::Nonce = match journal_find(&self.nonce, who) {
            Some(i) => self.nonce[i].1,
            None => T::Nonce::zero(),
        };
        match cur.checked_succ() {
            Some(next) => {
                let entry = (who.key_clone(), next);
                proof {
                    let ghost entries = self.nonce@;
                    assert forall|a: <T::AccountId as StateKey>::Model| true implies #[trigger]
                        journal_get(entries.push(entry), a) == (if entry.0.model() == a {
                        Some(entry.1)
                    } else {
                        journal_get(entries, a)
                    }) by {
                        lemma_journal_get_push(entries, entry, a);
                    }
                }
                self.nonce.push(entry);
            },
            None => {
                proof {
                    assert(false);
                }
            },
        }
    }
}

} // verus!
