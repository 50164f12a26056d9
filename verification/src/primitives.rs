//! Capability traits for the configuration types a deployment plugs into the
//! runtime: state keys (account and content identifiers), bounded counters
//! (block heights and nonces), and balances with checked arithmetic.
//!
//! Each module's `Config` trait bounds its associated types by these
//! capabilities; the impls for the std integer types and `String` below let a
//! deployment choose those as its concrete configuration.

use vstd::prelude::*;

verus! {

/// A value usable as a key of a state map: it can be cloned and compared,
/// and `model` gives the mathematical value those operations go by.
pub trait StateKey: Sized {
    /// The mathematical value of a key; keys with equal models are the same
    /// key as far as the state maps are concerned.
    type Model;

    spec fn model(&self) -> Self::Model;

    fn key_eq(&self, other: &Self) -> (r: bool)
        ensures
            r <==> self.model() == other.model(),
    ;

    fn key_clone(&self) -> (r: Self)
        ensures
            r.model() == self.model(),
    ;
}

/// A counter with a zero, an upper bound, and a checked increment.
/// Block heights and nonces are counters.
pub trait Counter: Sized + Copy {
    /// The counter's mathematical value.
    spec fn value(&self) -> int;

    /// The largest value the type can represent.
    spec fn limit() -> int;

    proof fn lemma_value_in_range(&self)
        ensures
            0 <= self.value() <= Self::limit(),
    ;

    fn zero() -> (r: Self)
        ensures
            r.value() == 0,
    ;

    /// The successor, or `None` when the counter is at its limit.
    fn checked_succ(&self) -> (r: Option<Self>)
        ensures
            r is Some <==> self.value() < Self::limit(),
            r matches Some(n) ==> n.value() == self.value() + 1,
    ;
}

/// An account balance: a zero value and checked, overflow-detecting
/// addition and subtraction.
pub trait BalanceOps: Sized + Copy {
    /// The balance's mathematical value.
    spec fn value(&self) -> int;

    /// Whether the type can represent the mathematical value `v`.
    spec fn representable(v: int) -> bool;

    proof fn lemma_value_representable(&self)
        ensures
            Self::representable(self.value()),
    ;

    fn zero() -> (r: Self)
        ensures
            r.value() == 0,
    ;

    fn checked_add(&self, other: &Self) -> (r: Option<Self>)
        ensures
            r is Some <==> Self::representable(self.value() + other.value()),
            r matches Some(v) ==> v.value() == self.value() + other.value(),
    ;

    fn checked_sub(&self, other: &Self) -> (r: Option<Self>)
        ensures
            r is Some <==> Self::representable(self.value() - other.value()),
            r matches Some(v) ==> v.value() == self.value() - other.value(),
    ;
}

impl StateKey for String {
    type Model = Seq<char>;

    open spec fn model(&self) -> Seq<char> {
        self@
    }

    fn key_eq(&self, other: &Self) -> (r: bool) {
        self.eq(other)
    }

    fn key_clone(&self) -> (r: Self) {
        self.clone()
    }
}

impl Counter for u32 {
    open spec fn value(&self) -> int {
        *self as int
    }

    open spec fn limit() -> int {
        u32::MAX as int
    }

    proof fn lemma_value_in_range(&self) {
    }

    fn zero() -> (r: Self) {
        0
    }

    fn checked_succ(&self) -> (r: Option<Self>) {
        if *self < u32::MAX {
            Some(*self + 1)
        } else {
            None
        }
    }
}

impl Counter for u64 {
    open spec fn value(&self) -> int {
        *self as int
    }

    open spec fn limit() -> int {
        u64::MAX as int
    }

    proof fn lemma_value_in_range(&self) {
    }

    fn zero() -> (r: Self) {
        0
    }

    fn checked_succ(&self) -> (r: Option<Self>) {
        if *self < u64::MAX {
            Some(*self + 1)
        } else {
            None
        }
    }
}

impl BalanceOps for u32 {
    open spec fn value(&self) -> int {
        *self as int
    }

    open spec fn representable(v: int) -> bool {
        0 <= v <= u32::MAX as int
    }

    proof fn lemma_value_representable(&self) {
    }

    fn zero() -> (r: Self) {
        0
    }

    fn checked_add(&self, other: &Self) -> (r: Option<Self>) {
        if *self <= u32::MAX - *other {
            Some(*self + *other)
        } else {
            None
        }
    }

    fn checked_sub(&self, other: &Self) -> (r: Option<Self>) {
        if *self >= *other {
            Some(*self - *other)
        } else {
            None
        }
    }
}

impl BalanceOps for u64 {
    open spec fn value(&self) -> int {
        *self as int
    }

    open spec fn representable(v: int) -> bool {
        0 <= v <= u64::MAX as int
    }

    proof fn lemma_value_representable(&self) {
    }

    fn zero() -> (r: Self) {
        0
    }

    fn checked_add(&self, other: &Self) -> (r: Option<Self>) {
        if *self <= u64::MAX - *other {
            Some(*self + *other)
        } else {
            None
        }
    }

    fn checked_sub(&self, other: &Self) -> (r: Option<Self>) {
        if *self >= *other {
            Some(*self - *other)
        } else {
            None
        }
    }
}

impl BalanceOps for u128 {
    open spec fn value(&self) -> int {
        *self as int
    }

    open spec fn representable(v: int) -> bool {
        0 <= v <= u128::MAX as int
    }

    proof fn lemma_value_representable(&self) {
    }

    fn zero() -> (r: Self) {
        0
    }

    fn checked_add(&self, other: &Self) -> (r: Option<Self>) {
        if *self <= u128::MAX - *other {
            Some(*self + *other)
        } else {
            None
        }
    }

    fn checked_sub(&self, other: &Self) -> (r: Option<Self>) {
        if *self >= *other {
            Some(*self - *other)
        } else {
            None
        }
    }
}

} // verus!
