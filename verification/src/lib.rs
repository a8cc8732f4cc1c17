//! Structural core of two smooth dynamic-programming relaxations:
//! Soft-DTW sequence alignment and the soft shortest path over a DAG.
//!
//! The numeric recursions themselves run over binary64 values and live in the
//! unverified shell around this crate.  What this crate owns and proves is
//! everything the engines decide before any arithmetic runs: whether the
//! smoothing parameter and the inputs are acceptable (and exactly which error
//! is reported when they are not), which edges enter and leave each node, and
//! which nodes the source can reach at all.  Costs and the smoothing
//! parameter cross the boundary as IEEE 754 binary64 bit patterns, so the
//! validity predicates are exact statements about bits.

pub mod ieee754;
pub mod soft_dtw;
pub mod soft_shortest_path;
