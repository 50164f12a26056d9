//! The concrete configuration of this deployment: the type each capability
//! slot is filled with, and the envelope types built from them.

use vstd::prelude::*;

verus! {

/// Accounts are named by strings.
pub type AccountId = String;

/// Balances are large unsigned integers.
pub type Balance = u128;

/// Block heights count in an unsigned 32-bit integer.
pub type BlockNumber = u32;

/// Nonces count in an unsigned 32-bit integer.
pub type Nonce = u32;

/// Content keys are strings.
pub type Content = String;

/// One caller-tagged operation of this runtime.
pub type Extrinsic = crate::support::Extrinsic<AccountId, crate::runtime::RuntimeCall>;

/// The header of a block of this runtime.
pub type Header = crate::support::Header<BlockNumber>;

/// A block of this runtime.
pub type Block = crate::support::Block<Header, Extrinsic>;

} // verus!
