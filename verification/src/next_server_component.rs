//! Server components: the route entries under which client references are found.

pub mod server_component_asset;
pub mod server_component_reference;
pub mod server_component_transition;
