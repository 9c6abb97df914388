//! Batch clock: maps wall-clock time to a discrete, monotonically increasing
//! batch ordinal, and derives the time boundaries of each batch's
//! order-collection and solving phases.

pub mod batch;
pub mod instant;
