//! Networking and attribute-validation core of an OP Stack rollup node.
//!
//! The library holds the decisions of the node's network stack and of its
//! attribute validators; the transports themselves are driven by the caller.

use vstd::prelude::*;

pub mod address;
pub mod attributes;
pub mod builder;
pub mod bytes;
pub mod driver;
pub mod engine;
pub mod handler;
pub mod topic;
pub mod validator;

verus! {

} // verus!
