//! Client references: the boundaries at which server code refers to a module
//! that must also exist in a browser form.

pub mod css_client_reference_asset;
pub mod ecmascript_client_reference_asset;
pub mod ecmascript_client_reference_proxy_module_asset;
pub mod ecmascript_client_reference_transition;
pub mod visit_client_reference;
