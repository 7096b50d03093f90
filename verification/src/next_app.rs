//! Aggregation for the routes of the app directory.

pub mod app_client_reference;
