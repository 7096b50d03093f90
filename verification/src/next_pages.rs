//! Aggregation for the filesystem-routed pages.

pub mod page_entries;
