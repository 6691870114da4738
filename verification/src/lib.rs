//! Coordination contracts and deterministic decision logic for a local network of one
//! Supervisor Harness and autonomous Worker Harnesses.
use vstd::prelude::*;

pub mod adapter;
pub mod broker;
pub mod contract;
pub mod coordinator;
pub mod host;
pub mod keyed;
pub mod mcp;
pub mod ordering;
pub mod popup;
pub mod profile;
pub mod render;
pub mod session_reuse;
pub mod text;
pub mod validation;
pub mod views;
pub mod worker_host;

verus! {

} // verus!
