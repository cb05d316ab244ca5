//! A verified provisioning engine for a small multi-namespace virtual
//! network fabric.
//!
//! The library models namespaces, point-to-point links, interfaces and
//! routes, enforces name uniqueness through a registry, derives endpoint
//! addresses from a link's subnet, and builds the exact OS configuration
//! commands that realise the topology. Commands are emitted as plain
//! values (an optional namespace scope plus an argument vector); running
//! them is left to the caller.

pub mod addr;
pub mod cmd;
pub mod errors;
pub mod interface;
pub mod link;
pub mod namespace;
pub mod registry;
pub mod text;

use vstd::prelude::*;

verus! {

} // verus!
