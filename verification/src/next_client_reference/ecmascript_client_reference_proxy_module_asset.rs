//! The module that stands in for a client component inside the server graph.

use vstd::prelude::*;
use vstd::string::*;
use crate::context::{ModuleAssetContext, ProcessRequest, ProcessRequestView, ReferenceType};
use crate::error::Error;
use crate::ident::{texts, AssetIdent, AssetIdentView};
use crate::js::{decimal, decimal_string, js_string_literal, to_json_string};
use crate::module::{EcmascriptChunkPlaceable, EcmascriptExports, EcmascriptExportsView, Module};
use crate::next_client_reference::ecmascript_client_reference_asset::{
    ecmascript_client_reference_modifier, EcmascriptClientReferenceAsset,
};
use crate::path::{joined, FileSystemPath};
use crate::reference::{reference_views, AssetReference, AssetReferenceView};

verus! {

/// The text before the server module's path.
pub const PROXY_OPENING: &'static str =
    "import { createProxy } from 'next/dist/build/webpack/loaders/next-flight-loader/module-proxy'\n\nconst proxy = createProxy(";

/// The text after the server module's path.
pub const PROXY_SENTINELS: &'static str =
    ")\n\n// Accessing the __esModule property and exporting $$typeof are required here.\n// The __esModule getter forces the proxy target to create the default export\n// and the $$typeof value is for rendering logic to determine if the module\n// is a client boundary.\nconst { __esModule, $$typeof } = proxy;\nconst __default__ = proxy.default;\n";

/// The statements that export the sentinels and the default binding.
pub const DEFAULT_EXPORT: &'static str =
    "export { __esModule, $$typeof };\nexport default __default__;\n";

/// The statements that every proxy module begins with: the proxy object for
/// the server module's path, its two sentinel fields and its default export.
pub open spec fn proxy_opening(quoted_path: Seq<char>) -> Seq<char> {
    PROXY_OPENING@ + quoted_path + PROXY_SENTINELS@
}

/// The two statements that export `name` from the proxy under the alias of
/// number `alias`.
pub open spec fn named_export(alias: nat, name: Seq<char>) -> Seq<char> {
    "const e"@ + decimal(alias) + " = proxy[\""@ + name + "\"];\nexport { e"@ + decimal(alias)
        + " as "@ + name + " };\n"@
}

pub open spec fn is_default(name: Seq<char>) -> bool {
    name == "default"@
}

/// How many of `names` are named exports, that is, not `default`.
pub open spec fn named_count(names: Seq<Seq<char>>) -> nat
    decreases names.len(),
{
    if names.len() == 0 {
        0
    } else {
        named_count(names.drop_last()) + if is_default(names.last()) {
            0nat
        } else {
            1nat
        }
    }
}

/// The export statements for `names`, in their order: for `default` the
/// sentinels and the default binding, for any other name a binding under a
/// fresh alias, numbered from 0.
pub open spec fn esm_exports_code(names: Seq<Seq<char>>) -> Seq<char>
    decreases names.len(),
{
    if names.len() == 0 {
        Seq::empty()
    } else {
        esm_exports_code(names.drop_last()) + if is_default(names.last()) {
            DEFAULT_EXPORT@
        } else {
            named_export(named_count(names.drop_last()), names.last())
        }
    }
}

/// The source text of the proxy module for a server module whose path, as a
/// string literal, is `quoted_path`, and whose client form has the export
/// surface `exports`.
pub open spec fn proxy_source(quoted_path: Seq<char>, exports: EcmascriptExportsView) -> Result<
    Seq<char>,
    Error,
> {
    match exports {
        EcmascriptExportsView::EsmExports { names, has_star_export } => {
            if has_star_export {
                Err(Error::UnsupportedExportPattern)
            } else {
                Ok(proxy_opening(quoted_path) + esm_exports_code(names))
            }
        },
        EcmascriptExportsView::CommonJs => Ok(proxy_opening(quoted_path) + DEFAULT_EXPORT@),
        EcmascriptExportsView::Other => Err(Error::UnsupportedExportKind),
    }
}

/// Writes the source text of a proxy module. `quoted_path` is the server
/// module's path as a string literal.
pub fn proxy_module_source(quoted_path: &str, exports: &EcmascriptExports) -> (source: Result<
    String,
    Error,
>)
    ensures
        match source {
            Ok(text) => proxy_source(quoted_path@, exports@) == Ok::<Seq<char>, Error>(text@),
            Err(error) => proxy_source(quoted_path@, exports@) == Err::<Seq<char>, Error>(error),
        },
{
    let mut code = String::from_str(PROXY_OPENING).concat(quoted_path).concat(PROXY_SENTINELS);
    match exports {
        EcmascriptExports::EsmExports { names, has_star_export } => {
            let mut cnt: usize = 0;
            let mut i: usize = 0;
            assert(texts(names@).take(0).len() == 0);
            assert(code@ =~= proxy_opening(quoted_path@) + esm_exports_code(texts(names@).take(0)));
            while i < names.len()
                invariant
                    i <= names@.len(),
                    cnt <= i,
                    cnt == named_count(texts(names@).take(i as int)),
                    code@ == proxy_opening(quoted_path@) + esm_exports_code(
                        texts(names@).take(i as int),
                    ),
                decreases names@.len() - i,
            {
                proof {
                    let next = texts(names@).take(i + 1);
                    assert(next.drop_last() =~= texts(names@).take(i as int));
                    assert(next.last() == names@[i as int]@);
                }
                let name = names[i].as_str();
                let ghost before = code@;
                if names[i] == String::from_str("default") {
                    code.append(DEFAULT_EXPORT);
                    assert(code@ =~= proxy_opening(quoted_path@) + esm_exports_code(
                        texts(names@).take(i + 1),
                    ));
                } else {
                    let alias = decimal_string(cnt);
                    code.append("const e");
                    code.append(alias.as_str());
                    code.append(" = proxy[\"");
                    code.append(name);
                    code.append("\"];\nexport { e");
                    code.append(alias.as_str());
                    code.append(" as ");
                    code.append(name);
                    code.append(" };\n");
                    assert(code@ =~= before + named_export(cnt as nat, name@));
                    assert(code@ =~= proxy_opening(quoted_path@) + esm_exports_code(
                        texts(names@).take(i + 1),
                    ));
                    cnt = cnt + 1;
                }
                i = i + 1;
            }
            assert(texts(names@).take(names@.len() as int) =~= texts(names@));
            if *has_star_export {
                return Err(Error::UnsupportedExportPattern);
            }
            Ok(code)
        },
        EcmascriptExports::CommonJs => {
            code.append(DEFAULT_EXPORT);
            Ok(code)
        },
        EcmascriptExports::Other => Err(Error::UnsupportedExportKind),
    }
}

/// The modifier that tells the proxy's identity from the server module's own.
pub open spec fn client_proxy_modifier() -> Seq<char> {
    "client proxy"@
}

/// The description of the reference from a proxy to its marker.
pub open spec fn client_reference_description() -> Seq<char> {
    "client references"@
}

/// A source unit that exists in memory only.
#[derive(Debug, PartialEq, Eq)]
pub struct VirtualAsset {
    pub path: FileSystemPath,
    pub content: String,
}

/// The node that represents a client component in the server graph. The server
/// graph sees the proxy, never the client code.
#[derive(Debug, PartialEq, Eq)]
pub struct EcmascriptClientReferenceProxyModuleAsset {
    pub server_module_ident: AssetIdent,
    pub server_asset_context: ModuleAssetContext,
    pub client_module: EcmascriptChunkPlaceable,
    pub ssr_module: EcmascriptChunkPlaceable,
}

/// The chunk item of a proxy: that of its compiled module, under the proxy's
/// own identity.
#[derive(Debug, PartialEq, Eq)]
pub struct ProxyModuleChunkItem {
    pub client_proxy_ident: AssetIdent,
    pub inner_proxy_module_chunk_item: EcmascriptChunkPlaceable,
}

impl ProxyModuleChunkItem {
    /// The identity of the proxy, not that of the module compiled for it.
    pub fn asset_ident(&self) -> (ident: AssetIdent)
        ensures
            ident@ == self.client_proxy_ident@,
    {
        self.client_proxy_ident.duplicate()
    }
}

/// The proxy under the name by which the graph hands it around.
pub type EcmascriptClientReferenceProxyModuleAssetVc = EcmascriptClientReferenceProxyModuleAsset;

impl EcmascriptClientReferenceProxyModuleAsset {
    /// The proxy of the server module `server_module_ident`, compiled under
    /// `server_asset_context`, for the two compiled forms of the module.
    pub fn new(
        server_module_ident: AssetIdent,
        server_asset_context: ModuleAssetContext,
        client_module: EcmascriptChunkPlaceable,
        ssr_module: EcmascriptChunkPlaceable,
    ) -> (proxy: EcmascriptClientReferenceProxyModuleAsset)
        ensures
            proxy.server_module_ident == server_module_ident,
            proxy.server_asset_context == server_asset_context,
            proxy.client_module == client_module,
            proxy.ssr_module == ssr_module,
    {
        EcmascriptClientReferenceProxyModuleAsset {
            server_module_ident,
            server_asset_context,
            client_module,
            ssr_module,
        }
    }

    /// The source unit of the proxy module: `proxy.ts` below the server
    /// module's path, with the generated text. Fails where the client module
    /// re-exports by wildcard or has an export surface of no known shape.
    pub fn proxy_virtual_asset(&self) -> (asset: Result<VirtualAsset, Error>)
        ensures
            match asset {
                Ok(unit) => {
                    &&& unit.path@ == joined(self.server_module_ident@.path, "proxy.ts"@)
                    &&& proxy_source(
                        js_string_literal(self.server_module_ident@.path),
                        self.client_module.exports@,
                    ) == Ok::<Seq<char>, Error>(unit.content@)
                },
                Err(error) => proxy_source(
                    js_string_literal(self.server_module_ident@.path),
                    self.client_module.exports@,
                ) == Err::<Seq<char>, Error>(error),
            },
    {
        let quoted = match to_json_string(self.server_module_ident.path.path.as_str()) {
            Some(quoted) => quoted,
            None => String::new(),
        };
        match proxy_module_source(quoted.as_str(), &self.client_module.exports) {
            Ok(content) => Ok(
                VirtualAsset { path: self.server_module_ident.path.join("proxy.ts"), content },
            ),
            Err(error) => Err(error),
        }
    }

    /// The request that has the proxy's source unit compiled: under the server
    /// context, for no particular reason of reference.
    pub fn proxy_module_request(&self, unit: &VirtualAsset) -> (request: ProcessRequest)
        ensures
            request@ == (ProcessRequestView {
                source: AssetIdentView { path: unit.path@, modifiers: Seq::empty() },
                context: self.server_asset_context@,
                reference_type: ReferenceType::Undefined,
            }),
    {
        ProcessRequest {
            source: AssetIdent::from_path(unit.path.duplicate()),
            context: self.server_asset_context.duplicate(),
            reference_type: ReferenceType::Undefined,
        }
    }

    /// The compiled form of the proxy's source unit, which has to be an
    /// ECMAScript module.
    pub fn proxy_module_asset(&self, processed: Module) -> (module: Result<
        EcmascriptChunkPlaceable,
        Error,
    >)
        ensures
            match processed.as_ecmascript() {
                Some(compiled) => module == Ok::<EcmascriptChunkPlaceable, Error>(compiled),
                None => module == Err::<EcmascriptChunkPlaceable, Error>(
                    Error::CapabilityMismatch,
                ),
            },
    {
        processed.resolve_ecmascript()
    }

    /// The identity of the server module with the proxy's modifier: consumers
    /// address the proxy as the server-side stand-in of that module.
    pub fn ident(&self) -> (ident: AssetIdent)
        ensures
            ident@ == self.server_module_ident@.with_modifier(client_proxy_modifier()),
    {
        self.server_module_ident.with_modifier("client proxy")
    }

    /// A proxy has no content of its own: asking for it is an error of the caller.
    pub fn content(&self) -> (content: Result<String, Error>)
        ensures
            content == Err::<String, Error>(Error::MarkerHasNoContent),
    {
        Err(Error::MarkerHasNoContent)
    }

    /// The marker that this proxy keeps reachable in the server graph.
    pub fn client_reference_asset(self) -> (marker: EcmascriptClientReferenceAsset)
        ensures
            marker.server_ident == self.server_module_ident,
            marker.client_asset == self.client_module,
            marker.ssr_asset == self.ssr_module,
    {
        EcmascriptClientReferenceAsset::new(
            self.server_module_ident,
            self.client_module,
            self.ssr_module,
        )
    }

    /// The references of the proxy: those of its compiled module, and after
    /// them one to its marker, so that a walk of the graph finds the marker.
    pub fn references(&self, compiled: Vec<AssetReference>) -> (references: Vec<AssetReference>)
        ensures
            reference_views(references@) == reference_views(compiled@).push(
                AssetReferenceView {
                    asset: self.server_module_ident@.with_modifier(
                        ecmascript_client_reference_modifier(),
                    ),
                    description: client_reference_description(),
                },
            ),
    {
        let mut references = compiled;
        let marker = self.server_module_ident.with_modifier("ecmascript client reference");
        references.push(
            AssetReference { asset: marker, description: String::from_str("client references") },
        );
        assert(reference_views(references@) =~= reference_views(compiled@).push(
            AssetReferenceView {
                asset: self.server_module_ident@.with_modifier(
                    ecmascript_client_reference_modifier(),
                ),
                description: client_reference_description(),
            },
        ));
        references
    }

    /// The exports of the proxy: those of the compiled form of its source unit.
    pub fn get_exports<'a>(&self, proxy_module: &'a EcmascriptChunkPlaceable) -> (exports: &'a
        EcmascriptExports)
        ensures
            *exports == proxy_module.exports,
    {
        &proxy_module.exports
    }

    /// The chunk item of the proxy, from the compiled form of its source unit.
    pub fn as_chunk_item(&self, proxy_module: EcmascriptChunkPlaceable) -> (item:
        ProxyModuleChunkItem)
        ensures
            item.client_proxy_ident@ == self.server_module_ident@.with_modifier(
                client_proxy_modifier(),
            ),
            item.inner_proxy_module_chunk_item == proxy_module,
    {
        ProxyModuleChunkItem {
            client_proxy_ident: self.ident(),
            inner_proxy_module_chunk_item: proxy_module,
        }
    }
}

} // verus!
