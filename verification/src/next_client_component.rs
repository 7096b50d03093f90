//! Client components as seen from server compilation.

pub mod server_to_client_transition;
