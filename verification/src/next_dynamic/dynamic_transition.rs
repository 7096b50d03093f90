//! The transition of a module across a lazy-load boundary.

use vstd::prelude::*;
use crate::context::{ModuleAssetContext, ProcessRequest, ProcessRequestView, ReferenceType};
use crate::ident::AssetIdent;
use crate::module::Module;
use crate::next_dynamic::dynamic_asset::NextDynamicEntryAsset;

verus! {

/// Compiles a module once for the client and wraps the result in a marker.
#[derive(Debug, PartialEq, Eq)]
pub struct NextDynamicTransition {
    /// The context of client compilation.
    pub client_transition: ModuleAssetContext,
}

/// The transition under the name by which a context hands it around.
pub type NextDynamicTransitionVc = NextDynamicTransition;

impl NextDynamicTransition {
    pub fn new(client_transition: ModuleAssetContext) -> (transition: NextDynamicTransition)
        ensures
            transition.client_transition == client_transition,
    {
        NextDynamicTransition { client_transition }
    }

    /// The one compilation that the transition asks for: `asset` under the
    /// client context.
    pub fn request(&self, asset: &AssetIdent) -> (request: ProcessRequest)
        ensures
            request@ == (ProcessRequestView {
                source: asset@,
                context: self.client_transition@,
                reference_type: ReferenceType::Undefined,
            }),
    {
        ProcessRequest {
            source: asset.duplicate(),
            context: self.client_transition.duplicate(),
            reference_type: ReferenceType::Undefined,
        }
    }

    /// The marker around the compiled client module.
    pub fn process(&self, client_asset: Module) -> (marker: NextDynamicEntryAsset)
        ensures
            marker.client_entry_asset == client_asset,
    {
        NextDynamicEntryAsset::new(client_asset)
    }
}

} // verus!
