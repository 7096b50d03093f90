//! The transition that marks the entry module of a route.

use vstd::prelude::*;
use crate::error::Error;
use crate::module::Module;
use crate::next_server_component::server_component_asset::NextServerComponentAsset;

verus! {

/// Wraps a module into a marker. A later walk of the graph uses the marker to
/// tell under which route a stylesheet reference was found.
#[derive(Clone, Copy, Debug, PartialEq, Eq, Structural)]
pub struct NextServerComponentTransition {}

/// The transition under the name by which a context hands it around.
pub type NextServerComponentTransitionVc = NextServerComponentTransition;

impl NextServerComponentTransition {
    pub fn new() -> (transition: NextServerComponentTransition) {
        NextServerComponentTransition {  }
    }

    /// The marker around `asset`, which has to be an ECMAScript module.
    pub fn process_module(&self, asset: Module) -> (marker: Result<NextServerComponentAsset, Error>)
        ensures
            match asset.as_ecmascript() {
                Some(module) => marker == Ok::<NextServerComponentAsset, Error>(
                    NextServerComponentAsset { asset: module },
                ),
                None => marker == Err::<NextServerComponentAsset, Error>(
                    Error::CapabilityMismatch,
                ),
            },
    {
        match asset.resolve_ecmascript() {
            Ok(module) => Ok(NextServerComponentAsset::new(module)),
            Err(error) => Err(error),
        }
    }
}

} // verus!
