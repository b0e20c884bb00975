//! Data kept about running nodes and their game statistics.

pub mod node;
