//! A minimal modular state-transition runtime.
//!
//! Independent modules ("pallets") each own a slice of global state and a set
//! of state-changing operations. A [`Runtime`] composes one instance of each
//! module, routes tagged operations to the owning module through the
//! [`support::Dispatch`] trait, and executes ordered blocks of operations.

pub mod balances;
pub mod primitives;
pub mod proof_of_existence;
pub mod runtime;
pub mod store;
pub mod support;
pub mod system;
pub mod types;

pub use crate::runtime::{Runtime, RuntimeCall, RuntimeConfig};
