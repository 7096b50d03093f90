//! The transition of a client component that is reached from server code.

use vstd::prelude::*;
use vstd::string::*;
use crate::context::{ModuleAssetContext, ModuleAssetContextView, ProcessRequest, ProcessRequestView, ReferenceType};
use crate::ident::{texts, AssetIdent, AssetIdentView};
use crate::path::FileSystemPath;

verus! {

/// The runtime entry that imports the server-rendering form and the chunk list.
pub const SERVER_TO_CLIENT_SSR_ENTRY: &'static str = "entry/app/server-to-client-ssr.tsx";

/// The runtime entry that imports the chunk list only.
pub const SERVER_TO_CLIENT_ENTRY: &'static str = "entry/app/server-to-client.tsx";

/// What the transition asks of the module pipeline.
#[derive(Debug, PartialEq, Eq)]
pub struct ServerToClientPlan {
    /// The compilation that yields the handle to the list of client chunks.
    pub client_chunks: ProcessRequest,
    /// The compilation for server rendering, where the component is rendered
    /// on the server.
    pub client_module: Option<ProcessRequest>,
    /// The compilation of the runtime entry.
    pub entry: ProcessRequest,
    /// The names that the runtime entry imports its inner assets by, in order.
    pub inner_assets: Vec<String>,
}

/// Replaces a client component by a runtime entry that knows its client
/// chunks, and its server-rendering form where `ssr` is set.
#[derive(Clone, Copy, Debug, PartialEq, Eq, Structural)]
pub struct NextServerToClientTransition {
    pub ssr: bool,
}

impl NextServerToClientTransition {
    /// The compilations for the client component `asset`, reached under
    /// `context`. The component is always compiled for its client chunks, under
    /// the transition `next-client-chunks`. With `ssr` it is compiled under
    /// `next-ssr-client-module` as well, and the runtime entry imports both as
    /// `CLIENT_MODULE` and `CLIENT_CHUNKS`; without, the entry imports
    /// `CLIENT_CHUNKS` only.
    pub fn process(&self, asset: &AssetIdent, context: &ModuleAssetContext) -> (plan:
        ServerToClientPlan)
        ensures
            plan.client_chunks@ == (ProcessRequestView {
                source: asset@,
                context: ModuleAssetContextView {
                    transition: Some("next-client-chunks"@),
                    ..context@
                },
                reference_type: ReferenceType::EntryAppClientComponent,
            }),
            self.ssr ==> plan.client_module is Some && plan.client_module->0@ == (
            ProcessRequestView {
                source: asset@,
                context: ModuleAssetContextView {
                    transition: Some("next-ssr-client-module"@),
                    ..context@
                },
                reference_type: ReferenceType::EntryAppClientComponent,
            }),
            !self.ssr ==> plan.client_module is None,
            plan.entry@ == (ProcessRequestView {
                source: AssetIdentView {
                    path: if self.ssr {
                        SERVER_TO_CLIENT_SSR_ENTRY@
                    } else {
                        SERVER_TO_CLIENT_ENTRY@
                    },
                    modifiers: Seq::empty(),
                },
                context: context@,
                reference_type: ReferenceType::Internal,
            }),
            texts(plan.inner_assets@) == if self.ssr {
                seq!["CLIENT_MODULE"@, "CLIENT_CHUNKS"@]
            } else {
                seq!["CLIENT_CHUNKS"@]
            },
    {
        let client_chunks = ProcessRequest {
            source: asset.duplicate(),
            context: context.with_transition("next-client-chunks"),
            reference_type: ReferenceType::EntryAppClientComponent,
        };
        if self.ssr {
            let client_module = ProcessRequest {
                source: asset.duplicate(),
                context: context.with_transition("next-ssr-client-module"),
                reference_type: ReferenceType::EntryAppClientComponent,
            };
            let entry = ProcessRequest {
                source: AssetIdent::from_path(
                    FileSystemPath::new(String::from_str(SERVER_TO_CLIENT_SSR_ENTRY)),
                ),
                context: context.duplicate(),
                reference_type: ReferenceType::Internal,
            };
            let mut inner_assets: Vec<String> = Vec::new();
            inner_assets.push(String::from_str("CLIENT_MODULE"));
            inner_assets.push(String::from_str("CLIENT_CHUNKS"));
            assert(texts(inner_assets@) =~= seq!["CLIENT_MODULE"@, "CLIENT_CHUNKS"@]);
            ServerToClientPlan { client_chunks, client_module: Some(client_module), entry, inner_assets }
        } else {
            let entry = ProcessRequest {
                source: AssetIdent::from_path(
                    FileSystemPath::new(String::from_str(SERVER_TO_CLIENT_ENTRY)),
                ),
                context: context.duplicate(),
                reference_type: ReferenceType::Internal,
            };
            let mut inner_assets: Vec<String> = Vec::new();
            inner_assets.push(String::from_str("CLIENT_CHUNKS"));
            assert(texts(inner_assets@) =~= seq!["CLIENT_CHUNKS"@]);
            ServerToClientPlan { client_chunks, client_module: None, entry, inner_assets }
        }
    }
}

} // verus!
