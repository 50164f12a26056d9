//! Shared support types: the block, header and operation envelopes, the
//! closed set of error kinds, and the dispatch contract every module and the
//! runtime implement.

use vstd::prelude::*;

verus! {

/// An ordered batch of operations together with the height it claims.
pub struct Block<Header, Extrinsic> {
    pub header: Header,
    pub extrinsics: Vec<Extrinsic>,
}

/// Metadata of a block: the height its submitter declares for it.
pub struct Header<BlockNumber> {
    pub block_number: BlockNumber,
}

/// A caller-tagged request to invoke one named call on some module.
pub struct Extrinsic<Caller, Call> {
    pub caller: Caller,
    pub call: Call,
}

/// The closed set of ways an operation or a block can fail.
#[derive(Debug, Clone, Copy, PartialEq, Eq, Structural)]
pub enum DispatchError {
    /// A transfer's sender holds less than the requested amount.
    InsufficientFunds,
    /// A transfer would push the receiver's balance past the representable range.
    Overflow,
    /// A claim was created on content that already has an owner.
    AlreadyClaimed,
    /// A claim was revoked on content that has no owner.
    ClaimNotFound,
    /// A claim was revoked by a caller who is not its owner.
    NotOwner,
    /// A block's declared height is not the expected next height.
    BlockNumberMismatch,
}

/// The outcome of dispatching one operation or executing one block.
pub type DispatchResult = Result<(), DispatchError>;

/// The routing contract: a module (or the runtime) accepts a caller and one
/// of its tagged calls and invokes the method that implements it. Each
/// implementation states in its own `ensures` what dispatching does to its
/// state; callers of a statically resolved `dispatch` see that contract.
pub trait Dispatch: Sized {
    /// Who is invoking the call.
    type Caller;

    /// The closed union of the implementor's named operations.
    type Call;

    fn dispatch(&mut self, caller: Self::Caller, call: Self::Call) -> DispatchResult;
}

} // verus!
