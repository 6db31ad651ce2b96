//! Execution plans as task graphs and the round-by-round scheduler that runs them.
pub mod graph;
pub mod executor;
