//! Database rows and the values built from them.

pub mod common;
pub mod device;
pub mod graph;
