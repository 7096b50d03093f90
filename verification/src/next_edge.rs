//! Compilation for the edge runtime.

pub mod context;
