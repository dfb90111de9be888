//! Compilation core for streaming SQL aggregation: given the logical
//! description of a grouped, windowed aggregate query, it derives the
//! concrete incremental computation a dataflow runtime executes per key and
//! per window: associative partial aggregation over bins, removable
//! accumulation for sliding windows, and window-boundary materialization.

pub mod bins;
pub mod counts;
pub mod expressions;
pub mod laws;
pub mod memory;
pub mod operators;
pub mod promotion;
pub mod schema;
pub mod two_phase;
