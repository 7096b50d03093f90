//! The transition of a script module across a server-to-client boundary.

use vstd::prelude::*;
use crate::context::{ModuleAssetContext, ModuleAssetContextView, ProcessRequest, ProcessRequestView, ReferenceType};
use crate::error::Error;
use crate::ident::AssetIdent;
use crate::module::Module;
use crate::next_client_reference::ecmascript_client_reference_proxy_module_asset::EcmascriptClientReferenceProxyModuleAsset;

verus! {

/// Compiles a module for the client and for server rendering, and puts a proxy
/// in its place in the server graph.
#[derive(Debug, PartialEq, Eq)]
pub struct NextEcmascriptClientReferenceTransition {
    /// The context of client compilation.
    pub client_transition: ModuleAssetContext,
    /// The context of compilation for server rendering.
    pub ssr_transition: ModuleAssetContext,
}

/// The transition under the name by which a context hands it around.
pub type NextEcmascriptClientReferenceTransitionVc = NextEcmascriptClientReferenceTransition;

impl NextEcmascriptClientReferenceTransition {
    pub fn new(client_transition: ModuleAssetContext, ssr_transition: ModuleAssetContext) -> (transition:
        NextEcmascriptClientReferenceTransition)
        ensures
            transition.client_transition == client_transition,
            transition.ssr_transition == ssr_transition,
    {
        NextEcmascriptClientReferenceTransition { client_transition, ssr_transition }
    }

    /// The two compilations that the transition asks for, which do not depend
    /// on each other: `asset` as a client component under the client context,
    /// and the same under the context of server rendering.
    pub fn requests(&self, asset: &AssetIdent) -> (requests: (ProcessRequest, ProcessRequest))
        ensures
            requests.0@ == (ProcessRequestView {
                source: asset@,
                context: self.client_transition@,
                reference_type: ReferenceType::EntryAppClientComponent,
            }),
            requests.1@ == (ProcessRequestView {
                source: asset@,
                context: self.ssr_transition@,
                reference_type: ReferenceType::EntryAppClientComponent,
            }),
    {
        (
            ProcessRequest {
                source: asset.duplicate(),
                context: self.client_transition.duplicate(),
                reference_type: ReferenceType::EntryAppClientComponent,
            },
            ProcessRequest {
                source: asset.duplicate(),
                context: self.ssr_transition.duplicate(),
                reference_type: ReferenceType::EntryAppClientComponent,
            },
        )
    }

    /// The proxy for `asset`, given its two compiled forms. Both have to be
    /// ECMAScript modules. The proxy is compiled under `context` with no
    /// transition set on it.
    pub fn process(
        &self,
        asset: AssetIdent,
        context: &ModuleAssetContext,
        client_asset: Module,
        ssr_asset: Module,
    ) -> (proxy: Result<EcmascriptClientReferenceProxyModuleAsset, Error>)
        ensures
            match (client_asset.as_ecmascript(), ssr_asset.as_ecmascript()) {
                (Some(client_module), Some(ssr_module)) => {
                    &&& proxy is Ok
                    &&& proxy->Ok_0.server_module_ident == asset
                    &&& proxy->Ok_0.server_asset_context@ == (ModuleAssetContextView {
                        transition: None,
                        ..context@
                    })
                    &&& proxy->Ok_0.client_module == client_module
                    &&& proxy->Ok_0.ssr_module == ssr_module
                },
                _ => proxy is Err && proxy->Err_0 == Error::CapabilityMismatch,
            },
    {
        let client_module = match client_asset.resolve_ecmascript() {
            Ok(module) => module,
            Err(error) => {
                return Err(error);
            },
        };
        let ssr_module = match ssr_asset.resolve_ecmascript() {
            Ok(module) => module,
            Err(error) => {
                return Err(error);
            },
        };
        let server_context = context.without_transition();
        Ok(EcmascriptClientReferenceProxyModuleAsset::new(asset, server_context, client_module, ssr_module))
    }
}

} // verus!
