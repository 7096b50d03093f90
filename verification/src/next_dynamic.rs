//! Modules reached through a lazy-load boundary.

pub mod dynamic_asset;
pub mod dynamic_transition;
