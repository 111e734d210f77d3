//! Readiness multiplexing for a sandboxed guest: a set of wait conditions
//! (clock deadlines, stream readability and writability), the queries a
//! scheduler backend needs to wait on them, and the drain of settled
//! conditions into correlated results.
pub mod clocks;
pub mod error;
pub mod sched;
pub mod subscription;
