//! Module-graph transitions and reference manifests for a bundler that compiles
//! one source module into browser, server-rendering and server artifacts.

pub mod chunk;
pub mod context;
pub mod error;
pub mod ident;
pub mod index_map;
pub mod js;
pub mod manifests;
pub mod module;
pub mod next_app;
pub mod next_client_component;
pub mod next_client_reference;
pub mod next_dynamic;
pub mod next_edge;
pub mod next_pages;
pub mod next_server_component;
pub mod ordered_map;
pub mod path;
pub mod reference;
pub mod text;
