//! The content-claim module: first-claimer ownership over opaque content
//! identifiers.
//!
//! A content key maps to at most one owner at a time. Creating a claim fails
//! once the content has an owner; only the owner can revoke a claim, and a
//! revoked content key is claimable again by anyone.

use vstd::prelude::*;

use crate::primitives::StateKey;
use crate::store::{journal_find, journal_get, lemma_journal_get_push};
use crate::support::{Dispatch, DispatchError, DispatchResult};

verus! {

/// The types the content-claim module works over, on top of the system
/// module's.
pub trait Config: crate::system::Config {
    /// The opaque key a claim is made over.
    type Content: StateKey;
}

/// The content-claim module's state: the ownership journal. An entry holding
/// `None` records a revocation: the content is unclaimed again.
pub struct Pallet<T: Config> {
    claims: Vec<(T::Content, Option<T::AccountId>)>,
}

/// The operations the content-claim module offers for dispatch. The caller
/// of the dispatch supplies the claimer or revoker.
pub enum Call<T: Config> {
    CreateClaim { claim: T::Content },
    RevokeClaim { claim: T::Content },
}

impl<T: Config> Pallet<T> {
    /// The owner of the content whose model is `content`, or `None` when it
    /// is unclaimed.
    pub closed spec fn spec_owner(&self, content: <T::Content as StateKey>::Model) -> Option<
        <T::AccountId as StateKey>::Model,
    > {
        match journal_get(self.claims@, content) {
            Some(Some(a)) => Some(a.model()),
            _ => None,
        }
    }

    /// What [`Self::create_claim`] does: it succeeds exactly when the content
    /// is unclaimed, and then records the caller as owner; claimed content
    /// is refused and nothing changes.
    pub open spec fn create_claim_spec(
        pre: Self,
        post: Self,
        caller: <T::AccountId as StateKey>::Model,
        content: <T::Content as StateKey>::Model,
        r: DispatchResult,
    ) -> bool {
        &&& (r is Ok <==> pre.spec_owner(content) is None)
        &&& (pre.spec_owner(content) is Some ==> r == Result::<(), DispatchError>::Err(
            DispatchError::AlreadyClaimed,
        ) && forall|c: <T::Content as StateKey>::Model|
            post.spec_owner(c) == pre.spec_owner(c))
        &&& (r is Ok ==> post.spec_owner(content) == Some(caller) && (forall|
            c: <T::Content as StateKey>::Model,
        |
            c != content ==> post.spec_owner(c) == pre.spec_owner(c)))
    }

    /// What [`Self::revoke_claim`] does: it succeeds exactly when the caller
    /// owns the content, and then removes the claim; unclaimed content gives
    /// `ClaimNotFound`, content owned by someone else gives `NotOwner`, and
    /// in either failure nothing changes.
    pub open spec fn revoke_claim_spec(
        pre: Self,
        post: Self,
        caller: <T::AccountId as StateKey>::Model,
        content: <T::Content as StateKey>::Model,
        r: DispatchResult,
    ) -> bool {
        &&& (r is Ok <==> pre.spec_owner(content) == Some(caller))
        &&& (pre.spec_owner(content) is None ==> r == Result::<(), DispatchError>::Err(
            DispatchError::ClaimNotFound,
        ) && forall|c: <T::Content as StateKey>::Model|
            post.spec_owner(c) == pre.spec_owner(c))
        &&& (match pre.spec_owner(content) {
            Some(o) => o != caller ==> r == Result::<(), DispatchError>::Err(
                DispatchError::NotOwner,
            ) && forall|c: <T::Content as StateKey>::Model|
                post.spec_owner(c) == pre.spec_owner(c),
            None => true,
        })
        &&& (r is Ok ==> post.spec_owner(content) is None && (forall|
            c: <T::Content as StateKey>::Model,
        |
            c != content ==> post.spec_owner(c) == pre.spec_owner(c)))
    }

    /// A fresh claims state: every content key is unclaimed.
    pub fn new() -> (r: Self)
        ensures
            forall|c: <T::Content as StateKey>::Model| r.spec_owner(c) is None,
    {
        Pallet { claims: Vec::new() }
    }

    /// The owner of `claim`, or `None` when it is unclaimed. No side effect.
    pub fn get_claim(&self, claim: &T::Content) -> (r: Option<&T::AccountId>)
        ensures
            match r {
                Some(a) => self.spec_owner(claim.model()) == Some(a.model()),
                None => self.spec_owner(claim.model()) is None,
            },
    {
        match journal_find(&self.claims, claim) {
            Some(i) => {
                let pair = &self.claims[i];
                match &pair.1 {
                    Some(a) => Some(a),
                    None => None,
                }
            },
            None => None,
        }
    }

    /// Records `caller` as the owner of `claim`; fails with `AlreadyClaimed`
    /// when the content already has an owner.
    pub fn create_claim(&mut self, caller: T::AccountId, claim: T::Content) -> (r: DispatchResult)
        ensures
            Self::create_claim_spec(*old(self), *final(self), caller.model(), claim.model(), r),
    {
        if self.get_claim(&claim).is_some() {
            return Err(DispatchError::AlreadyClaimed);
        }
        let entry = (claim, Some(caller));
        proof {
            let ghost entries = self.claims@;
            assert forall|c: <T::Content as StateKey>::Model| true implies #[trigger]
                journal_get(entries.push(entry), c) == (if entry.0.model() == c {
                Some(entry.1)
            } else {
                journal_get(entries, c)
            }) by {
                lemma_journal_get_push(entries, entry, c);
            }
        }
        self.claims.push(entry);
        Ok(())
    }

    /// Removes the claim of `caller` over `claim`, making the content
    /// claimable again; fails with `ClaimNotFound` on unclaimed content and
    /// with `NotOwner` when someone else owns it.
    pub fn revoke_claim(&mut self, caller: T::AccountId, claim: T::Content) -> (r: DispatchResult)
        ensures
            Self::revoke_claim_spec(*old(self), *final(self), caller.model(), claim.model(), r),
    {
        let is_owner: bool = match self.get_claim(&claim) {
            None => {
                return Err(DispatchError::ClaimNotFound);
            },
            Some(owner) => caller.key_eq(owner),
        };
        if !is_owner {
            return Err(DispatchError::NotOwner);
        }
        let entry: (T::Content, Option<T::AccountId>) = (claim, None);
        proof {
            let ghost entries = self.claims@;
            assert forall|c: <T::Content as StateKey>::Model| true implies #[trigger]
                journal_get(entries.push(entry), c) == (if entry.0.model() == c {
                Some(entry.1)
            } else {
                journal_get(entries, c)
            }) by {
                lemma_journal_get_push(entries, entry, c);
            }
        }
        self.claims.push(entry);
        Ok(())
    }
}

impl<T: Config> Pallet<T> {
    /// What dispatching a content-claim call does: each variant routes to the
    /// method of the same name with the dispatch caller supplied.
    pub open spec fn dispatch_spec(
        pre: Self,
        post: Self,
        caller: T::AccountId,
        call: Call<T>,
        r: DispatchResult,
    ) -> bool {
        match call {
            Call::CreateClaim { claim } => Self::create_claim_spec(
                pre,
                post,
                caller.model(),
                claim.model(),
                r,
            ),
            Call::RevokeClaim { claim } => Self::revoke_claim_spec(
                pre,
                post,
                caller.model(),
                claim.model(),
                r,
            ),
        }
    }
}

impl<T: Config> Dispatch for Pallet<T> {
    type Caller = T::AccountId;

    type Call = Call<T>;

    fn dispatch(&mut self, caller: Self::Caller, call: Self::Call) -> (r: DispatchResult)
        ensures
            Pallet::<T>::dispatch_spec(*old(self), *final(self), caller, call, r),
    {
        match call {
            Call::CreateClaim { claim } => self.create_claim(caller, claim),
            Call::RevokeClaim { claim } => self.revoke_claim(caller, claim),
        }
    }
}

/// Law: claims are exclusive. After one account claims a content key, any
/// further claim on that key — by anyone, the first claimer included — fails
/// with `AlreadyClaimed` and changes nothing, as long as the claim stands.
pub proof fn lemma_claim_exclusivity<T: Config>(
    s0: Pallet<T>,
    s1: Pallet<T>,
    s2: Pallet<T>,
    first: <T::AccountId as StateKey>::Model,
    second: <T::AccountId as StateKey>::Model,
    content: <T::Content as StateKey>::Model,
    r1: DispatchResult,
    r2: DispatchResult,
)
    requires
        Pallet::<T>::create_claim_spec(s0, s1, first, content, r1),
        r1 is Ok,
        Pallet::<T>::create_claim_spec(s1, s2, second, content, r2),
    ensures
        r2 == Result::<(), DispatchError>::Err(DispatchError::AlreadyClaimed),
        forall|c: <T::Content as StateKey>::Model| s2.spec_owner(c) == s1.spec_owner(c),
{
}

/// Law: only the owner can revoke. A revocation by anyone else fails with
/// `NotOwner` and changes nothing; the owner's own revocation then succeeds
/// and frees the content, and anyone can claim it anew.
pub proof fn lemma_ownership_enforcement<T: Config>(
    s0: Pallet<T>,
    s1: Pallet<T>,
    s2: Pallet<T>,
    s3: Pallet<T>,
    owner: <T::AccountId as StateKey>::Model,
    other: <T::AccountId as StateKey>::Model,
    anyone: <T::AccountId as StateKey>::Model,
    content: <T::Content as StateKey>::Model,
    r1: DispatchResult,
    r2: DispatchResult,
    r3: DispatchResult,
)
    requires
        s0.spec_owner(content) == Some(owner),
        other != owner,
        Pallet::<T>::revoke_claim_spec(s0, s1, other, content, r1),
        Pallet::<T>::revoke_claim_spec(s1, s2, owner, content, r2),
        Pallet::<T>::create_claim_spec(s2, s3, anyone, content, r3),
    ensures
        r1 == Result::<(), DispatchError>::Err(DispatchError::NotOwner),
        forall|c: <T::Content as StateKey>::Model| s1.spec_owner(c) == s0.spec_owner(c),
        r2 is Ok,
        s2.spec_owner(content) is None,
        r3 is Ok,
        s3.spec_owner(content) == Some(anyone),
{
}

} // verus!
