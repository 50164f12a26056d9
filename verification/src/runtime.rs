//! The runtime: one instance of every module, unified dispatch, and the
//! block executor.
//!
//! [`ChainState`] is the runtime's mathematical model — the height, and the
//! total maps every account's nonce and balance and every content key's owner
//! are read from. [`apply_extrinsics`] is the specification of block
//! execution: what executing an ordered batch of operations does to that
//! model, operation by operation.

use vstd::prelude::*;

use crate::balances;
use crate::primitives::{BalanceOps, Counter};
use crate::proof_of_existence;
use crate::support;
use crate::support::{Dispatch, DispatchError, DispatchResult};
use crate::system;
use crate::types;

verus! {

/// The deployment's configuration: it fills every module's capability slot
/// with the concrete types of [`types`].
pub struct RuntimeConfig;

impl system::Config for RuntimeConfig {
    type AccountId = types::AccountId;

    type BlockNumber = types::BlockNumber;

    type Nonce = types::Nonce;
}

impl balances::Config for RuntimeConfig {
    type Balance = types::Balance;
}

impl proof_of_existence::Config for RuntimeConfig {
    type Content = types::Content;
}

/// The union of every module's calls, tagged by the owning module.
pub enum RuntimeCall {
    Balances(balances::Call<RuntimeConfig>),
    ProofOfExistence(proof_of_existence::Call<RuntimeConfig>),
}

/// The runtime: the aggregate of all module states.
pub struct Runtime {
    pub system: system::Pallet<RuntimeConfig>,
    pub balances: balances::Pallet<RuntimeConfig>,
    pub proof_of_existence: proof_of_existence::Pallet<RuntimeConfig>,
}

/// The mathematical state of the whole runtime. The maps are total: an
/// account or content key nothing has written reads as nonce zero, balance
/// zero, no owner.
#[verifier::ext_equal]
pub ghost struct ChainState {
    pub height: int,
    pub nonces: Map<Seq<char>, int>,
    pub balances: Map<Seq<char>, int>,
    pub owners: Map<Seq<char>, Option<Seq<char>>>,
}

impl Runtime {
    /// The model this runtime state denotes.
    pub open spec fn model(&self) -> ChainState {
        ChainState {
            height: self.system.spec_block_number(),
            nonces: Map::new(|a: Seq<char>| true, |a: Seq<char>| self.system.spec_nonce(a)),
            balances: Map::new(
                |a: Seq<char>| true,
                |a: Seq<char>| self.balances.spec_balance(a),
            ),
            owners: Map::new(
                |c: Seq<char>| true,
                |c: Seq<char>| self.proof_of_existence.spec_owner(c),
            ),
        }
    }

    /// A fresh runtime: every module state empty, height zero.
    pub fn new() -> (r: Self)
        ensures
            r.model().height == 0,
            forall|a: Seq<char>| r.model().nonces[a] == 0,
            forall|a: Seq<char>| r.model().balances[a] == 0,
            forall|c: Seq<char>| r.model().owners[c] is None,
    {
        Runtime {
            system: system::Pallet::new(),
            balances: balances::Pallet::new(),
            proof_of_existence: proof_of_existence::Pallet::new(),
        }
    }

    /// What dispatching one runtime call does: the module tag picks the
    /// module, which handles its own call; the other modules' states do not
    /// change.
    pub open spec fn dispatch_spec(
        pre: Self,
        post: Self,
        caller: types::AccountId,
        call: RuntimeCall,
        r: DispatchResult,
    ) -> bool {
        match call {
            RuntimeCall::Balances(c) => balances::Pallet::<RuntimeConfig>::dispatch_spec(
                pre.balances,
                post.balances,
                caller,
                c,
                r,
            ) && post.system == pre.system && post.proof_of_existence == pre.proof_of_existence,
            RuntimeCall::ProofOfExistence(c) => proof_of_existence::Pallet::<
                RuntimeConfig,
            >::dispatch_spec(pre.proof_of_existence, post.proof_of_existence, caller, c, r)
                && post.system == pre.system && post.balances == pre.balances,
        }
    }
}

/// Bumping the nonce of `a` by one, as the executor does before dispatching
/// each operation. A nonce at its type's limit stays there.
pub open spec fn bump_nonce(s: ChainState, a: Seq<char>) -> ChainState {
    if s.nonces[a] < <types::Nonce as Counter>::limit() {
        ChainState { nonces: s.nonces.insert(a, s.nonces[a] + 1), ..s }
    } else {
        s
    }
}

/// What dispatching `call` on behalf of `caller` does to the model. A failing
/// call changes nothing; the model of a successful call is that of the
/// module's own contract.
pub open spec fn apply_call(s: ChainState, caller: Seq<char>, call: RuntimeCall) -> ChainState {
    match call {
        RuntimeCall::Balances(balances::Call::Transfer { to, amount }) => {
            let sb = s.balances[caller];
            let rb = s.balances[to@];
            if <types::Balance as BalanceOps>::representable(sb - amount as int)
                && <types::Balance as BalanceOps>::representable(rb + amount as int) {
                if caller == to@ {
                    s
                } else {
                    ChainState {
                        balances: s.balances.insert(caller, sb - amount as int).insert(
                            to@,
                            rb + amount as int,
                        ),
                        ..s
                    }
                }
            } else {
                s
            }
        },
        RuntimeCall::ProofOfExistence(proof_of_existence::Call::CreateClaim { claim }) => {
            if s.owners[claim@] is None {
                ChainState { owners: s.owners.insert(claim@, Some(caller)), ..s }
            } else {
                s
            }
        },
        RuntimeCall::ProofOfExistence(proof_of_existence::Call::RevokeClaim { claim }) => {
            if s.owners[claim@] == Some(caller) {
                ChainState { owners: s.owners.insert(claim@, None), ..s }
            } else {
                s
            }
        },
    }
}

/// What processing one operation does: the caller's nonce is bumped first,
/// then the call is dispatched — whether or not it succeeds.
pub open spec fn apply_extrinsic(s: ChainState, ex: types::Extrinsic) -> ChainState {
    apply_call(bump_nonce(s, ex.caller@), ex.caller@, ex.call)
}

/// What executing an ordered batch of operations does: each is processed in
/// its declared order, and a failing operation does not stop the ones after
/// it.
pub open spec fn apply_extrinsics(s: ChainState, ops: Seq<types::Extrinsic>) -> ChainState
    decreases ops.len(),
{
    if ops.len() == 0 {
        s
    } else {
        apply_extrinsics(apply_extrinsic(s, ops[0]), ops.drop_first())
    }
}

/// Processing a batch and then one more operation is processing the extended
/// batch.
pub proof fn lemma_apply_extrinsics_push(
    s: ChainState,
    ops: Seq<types::Extrinsic>,
    ex: types::Extrinsic,
)
    ensures
        apply_extrinsics(s, ops.push(ex)) == apply_extrinsic(apply_extrinsics(s, ops), ex),
    decreases ops.len(),
{
    reveal_with_fuel(apply_extrinsics, 3);
    if ops.len() == 0 {
        assert(ops.push(ex)[0] == ex);
        assert(ops.push(ex).drop_first() =~= Seq::<types::Extrinsic>::empty());
    } else {
        assert(ops.push(ex)[0] == ops[0]);
        assert(ops.push(ex).drop_first() =~= ops.drop_first().push(ex));
        lemma_apply_extrinsics_push(apply_extrinsic(s, ops[0]), ops.drop_first(), ex);
    }
}

/// No operation moves the height: only the executor itself does, once per
/// block.
pub proof fn lemma_apply_extrinsics_height(s: ChainState, ops: Seq<types::Extrinsic>)
    ensures
        apply_extrinsics(s, ops).height == s.height,
    decreases ops.len(),
{
    if ops.len() > 0 {
        lemma_apply_extrinsics_height(apply_extrinsic(s, ops[0]), ops.drop_first());
    }
}

/// Law: every submitted operation bumps its caller's nonce by exactly one
/// and no one else's, whether the operation itself succeeds or fails.
pub proof fn lemma_nonce_monotonic(s: ChainState, ex: types::Extrinsic)
    requires
        s.nonces[ex.caller@] < <types::Nonce as Counter>::limit(),
    ensures
        apply_extrinsic(s, ex).nonces[ex.caller@] == s.nonces[ex.caller@] + 1,
        forall|a: Seq<char>| a != ex.caller@ ==> apply_extrinsic(s, ex).nonces[a] == s.nonces[a],
{
}

/// How many operations of `ops` the account whose model is `a` submitted.
pub open spec fn ops_submitted_by(ops: Seq<types::Extrinsic>, a: Seq<char>) -> int
    decreases ops.len(),
{
    if ops.len() == 0 {
        0
    } else {
        (if ops[0].caller@ == a {
            1int
        } else {
            0int
        }) + ops_submitted_by(ops.drop_first(), a)
    }
}

/// An account submits a non-negative number of operations.
pub proof fn lemma_ops_submitted_by_nonneg(ops: Seq<types::Extrinsic>, a: Seq<char>)
    ensures
        0 <= ops_submitted_by(ops, a),
    decreases ops.len(),
{
    if ops.len() > 0 {
        lemma_ops_submitted_by_nonneg(ops.drop_first(), a);
    }
}

/// Law: across a whole batch, an account's nonce grows by exactly the number
/// of operations that account submitted — succeeding and failing ones alike —
/// as long as its counter has room for them.
pub proof fn lemma_block_nonce_count(s: ChainState, ops: Seq<types::Extrinsic>, a: Seq<char>)
    requires
        s.nonces[a] + ops_submitted_by(ops, a) <= <types::Nonce as Counter>::limit(),
    ensures
        apply_extrinsics(s, ops).nonces[a] == s.nonces[a] + ops_submitted_by(ops, a),
    decreases ops.len(),
{
    if ops.len() > 0 {
        lemma_ops_submitted_by_nonneg(ops.drop_first(), a);
        let mid = apply_extrinsic(s, ops[0]);
        assert(mid.nonces[a] == s.nonces[a] + (if ops[0].caller@ == a {
            1int
        } else {
            0int
        }));
        lemma_block_nonce_count(mid, ops.drop_first(), a);
    }
}

/// Dispatching tracks the model: the state a dispatch leaves behind denotes
/// exactly `apply_call` of the model it started from, whatever the call's
/// outcome.
pub proof fn lemma_dispatch_models_apply(
    pre: Runtime,
    post: Runtime,
    caller: types::AccountId,
    call: RuntimeCall,
    r: DispatchResult,
)
    requires
        Runtime::dispatch_spec(pre, post, caller, call, r),
    ensures
        post.model() == apply_call(pre.model(), caller@, call),
{
    match call {
        RuntimeCall::Balances(balances::Call::Transfer { to, amount }) => {
            let sb = pre.balances.spec_balance(caller@);
            let rb = pre.balances.spec_balance(to@);
            if <types::Balance as BalanceOps>::representable(sb - amount as int)
                && <types::Balance as BalanceOps>::representable(rb + amount as int) {
                if caller@ == to@ {
                    assert(post.model().balances =~= pre.model().balances);
                } else {
                    assert(post.model().balances =~= pre.model().balances.insert(
                        caller@,
                        sb - amount as int,
                    ).insert(to@, rb + amount as int));
                }
            } else {
                assert(post.model().balances =~= pre.model().balances);
            }
            assert(post.model().nonces =~= pre.model().nonces);
            assert(post.model().owners =~= pre.model().owners);
            assert(post.model() =~= apply_call(pre.model(), caller@, call));
        },
        RuntimeCall::ProofOfExistence(proof_of_existence::Call::CreateClaim { claim }) => {
            if pre.proof_of_existence.spec_owner(claim@) is None {
                assert(post.model().owners =~= pre.model().owners.insert(claim@, Some(caller@)));
            } else {
                assert(post.model().owners =~= pre.model().owners);
            }
            assert(post.model().nonces =~= pre.model().nonces);
            assert(post.model().balances =~= pre.model().balances);
            assert(post.model() =~= apply_call(pre.model(), caller@, call));
        },
        RuntimeCall::ProofOfExistence(proof_of_existence::Call::RevokeClaim { claim }) => {
            if pre.proof_of_existence.spec_owner(claim@) == Some(caller@) {
                assert(post.model().owners =~= pre.model().owners.insert(claim@, None));
            } else {
                assert(post.model().owners =~= pre.model().owners);
            }
            assert(post.model().nonces =~= pre.model().nonces);
            assert(post.model().balances =~= pre.model().balances);
            assert(post.model() =~= apply_call(pre.model(), caller@, call));
        },
    }
}

impl Dispatch for Runtime {
    type Caller = types::AccountId;

    type Call = RuntimeCall;

    fn dispatch(&mut self, caller: Self::Caller, call: Self::Call) -> (r: DispatchResult)
        ensures
            Runtime::dispatch_spec(*old(self), *final(self), caller, call, r),
    {
        match call {
            RuntimeCall::Balances(c) => self.balances.dispatch(caller, c),
            RuntimeCall::ProofOfExistence(c) => self.proof_of_existence.dispatch(caller, c),
        }
    }
}

impl Runtime {
    /// Executes one block: advances the height, validates the block's
    /// declared height against it, then processes the operations in their
    /// declared order — bumping each caller's nonce before its operation is
    /// dispatched and letting no operation's failure stop the ones after it.
    /// A mismatched declared height is fatal to the block call, and no
    /// operation of the block is processed; the height slot is consumed all
    /// the same.
    pub fn execute_block(&mut self, block: types::Block) -> (r: DispatchResult)
        requires
            old(self).model().height < <types::BlockNumber as Counter>::limit(),
        ensures
            final(self).model().height == old(self).model().height + 1,
            block.header.block_number as int != old(self).model().height + 1 ==> r == Result::<
                (),
                DispatchError,
            >::Err(DispatchError::BlockNumberMismatch) && final(self).model() == (ChainState {
                height: old(self).model().height + 1,
                ..old(self).model()
            }),
            block.header.block_number as int == old(self).model().height + 1 ==> r is Ok
                && final(self).model() == apply_extrinsics(
                ChainState { height: old(self).model().height + 1, ..old(self).model() },
                block.extrinsics@,
            ),
    {
        self.system.inc_block_number();
        let ghost start = self.model();
        proof {
            assert(start.nonces =~= old(self).model().nonces);
            assert(start.balances =~= old(self).model().balances);
            assert(start.owners =~= old(self).model().owners);
            assert(start =~= (ChainState {
                height: old(self).model().height + 1,
                ..old(self).model()
            }));
        }
        let current = self.system.block_number();
        if block.header.block_number != current {
            return Err(DispatchError::BlockNumberMismatch);
        }
        let mut ops = block.extrinsics;
        let ghost all_ops = ops@;
        let ghost mut k: int = 0;
        proof {
            assert(all_ops.take(0) =~= Seq::<types::Extrinsic>::empty());
        }
        while ops.len() > 0
            invariant
                0 <= k <= all_ops.len(),
                ops@ == all_ops.skip(k),
                self.model() == apply_extrinsics(start, all_ops.take(k)),
            decreases ops@.len(),
        {
            proof {
                assert(all_ops.skip(k)[0] == all_ops[k]);
            }
            let ex = ops.remove(0);
            let ghost gex = ex;
            proof {
                assert(ops@ =~= all_ops.skip(k + 1));
            }
            let support::Extrinsic { caller, call } = ex;
            let ghost before = self.model();
            let ghost gcaller = caller;
            let ghost gcall = call;
            if self.system.can_inc_nonce(&caller) {
                self.system.inc_nonce(&caller);
                proof {
                    assert(self.model().nonces =~= bump_nonce(before, gcaller@).nonces);
                    assert(self.model().balances =~= bump_nonce(before, gcaller@).balances);
                    assert(self.model().owners =~= bump_nonce(before, gcaller@).owners);
                    assert(self.model() =~= bump_nonce(before, gcaller@));
                }
            } else {
                proof {
                    assert(bump_nonce(before, gcaller@) == before);
                }
            }
            let ghost pre_dispatch = *self;
            let _res = self.dispatch(caller, call);
            proof {
                lemma_dispatch_models_apply(pre_dispatch, *self, gcaller, gcall, _res);
                assert(self.model() == apply_extrinsic(before, gex));
                lemma_apply_extrinsics_push(start, all_ops.take(k), gex);
                assert(all_ops.take(k).push(gex) =~= all_ops.take(k + 1));
                k = k + 1;
            }
        }
        proof {
            assert(all_ops.take(k) =~= all_ops);
            lemma_apply_extrinsics_height(start, all_ops);
        }
        Ok(())
    }
}

} // verus!
