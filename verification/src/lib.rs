//! Network path probing: reachability pings and hop-by-hop route tracing.
//!
//! The probing core is a pure state machine: per-platform socket work feeds it
//! one observation per iteration (a decoded reply, a TCP connect outcome, or a
//! silent miss, together with the elapsed time at the iteration's start), and
//! the engine decides what each observation means: whether it matches the
//! protocol's expectation, what node it yields, and when the run ends.

pub mod node;
pub mod classify;
pub mod packet;
pub mod probe;
pub mod ping;
pub mod trace;
