//! Software half of a hardware/software cosimulation harness.
//!
//! A foreign cycle-accurate circuit model fires per-stage event callbacks
//! every simulated clock cycle.  This library reconstructs and cross-checks
//! those events against an authoritative software-maintained processor
//! state: it tracks in-flight instructions as they move through the
//! pipeline stages, validates ordering and program-counter identity at each
//! handoff, and routes masked sub-word memory accesses to the correct
//! backing device with correct byte-lane semantics.

pub mod bounded_channel;
pub mod bus;
pub mod dispatch;
pub mod memio;
pub mod pipeline;
pub mod regfile;
pub mod stage;
pub mod times;
