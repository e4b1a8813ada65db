//! A self-scaling load balancer's core: the instance model, the backend
//! registry with round-robin selection, the discovery cycle's decisions and
//! the per-request peer choice.
use vstd::prelude::*;

pub mod backend;
pub mod discovery;
pub mod machine;
pub mod provision;
pub mod proxy;
pub mod registry;

verus! {

} // verus!
