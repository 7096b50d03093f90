//! The marker that wraps a route's entry module.

use vstd::prelude::*;
use vstd::string::*;
use crate::chunk::{ModuleId, ModuleIdView};
use crate::error::Error;
use crate::ident::AssetIdent;
use crate::js::{decimal, decimal_string, js_string_literal, to_json_string};
use crate::module::{EcmascriptChunkPlaceable, EcmascriptExports};
use crate::path::FileSystemPath;
use crate::reference::AssetReference;

verus! {

/// The modifier that tells the marker's identity from the wrapped module's own.
pub open spec fn server_component_modifier() -> Seq<char> {
    "Next.js server component"@
}

/// A marker node around the entry module of a route. Client references found
/// below it belong to that route.
#[derive(Debug, PartialEq, Eq)]
pub struct NextServerComponentAsset {
    pub asset: EcmascriptChunkPlaceable,
}

/// The marker under the name by which the graph hands it around.
pub type NextServerComponentAssetVc = NextServerComponentAsset;

impl NextServerComponentAsset {
    pub fn new(asset: EcmascriptChunkPlaceable) -> (marker: NextServerComponentAsset)
        ensures
            marker.asset == asset,
    {
        NextServerComponentAsset { asset }
    }

    /// The path of the wrapped module, by which routes and client references
    /// are joined.
    pub fn server_path(&self) -> (path: FileSystemPath)
        ensures
            path@ == self.asset.ident@.path,
    {
        self.asset.ident.path.duplicate()
    }

    /// The wrapped module's identity with the marker's modifier.
    pub fn ident(&self) -> (ident: AssetIdent)
        ensures
            ident@ == self.asset.ident@.with_modifier(server_component_modifier()),
    {
        self.asset.ident.with_modifier("Next.js server component")
    }

    /// A marker has no content: asking for it is an error of the caller.
    pub fn content(&self) -> (content: Result<String, Error>)
        ensures
            content == Err::<String, Error>(Error::MarkerHasNoContent),
    {
        Err(Error::MarkerHasNoContent)
    }

    /// The marker takes no part in walks along dependencies.
    pub fn references(&self) -> (references: Vec<AssetReference>)
        ensures
            references@.len() == 0,
    {
        Vec::new()
    }

    /// The chunk item of the marker.
    pub fn as_chunk_item(self) -> (item: BuildServerComponentChunkItem)
        ensures
            item.inner == self,
    {
        BuildServerComponentChunkItem { inner: self }
    }

    /// The marker's own export surface is of no known shape.
    pub fn get_exports(&self) -> (exports: EcmascriptExports)
        ensures
            exports == EcmascriptExports::Other,
    {
        EcmascriptExports::Other
    }
}

/// A chunk item id as JavaScript source: a number in decimal, a string as a
/// string literal.
pub open spec fn module_id_literal(id: ModuleIdView) -> Seq<char> {
    match id {
        ModuleIdView::Number(number) => decimal(number as nat),
        ModuleIdView::String(string) => js_string_literal(string),
    }
}

/// A chunk item id as JavaScript source.
pub fn stringify_module_id(id: &ModuleId) -> (literal: String)
    ensures
        literal@ == module_id_literal(id@),
{
    match id {
        ModuleId::Number(number) => decimal_string(*number as usize),
        ModuleId::String(string) => match to_json_string(string.as_str()) {
            Some(literal) => literal,
            None => String::new(),
        },
    }
}

/// The code of the chunk item of a server component whose wrapped module has
/// the id `id_literal`: a module whose default export imports that module.
pub open spec fn chunk_item_code(id_literal: Seq<char>) -> Seq<char> {
    "__turbopack_esm__({\n    default: () => __turbopack_import__("@ + id_literal
        + "),\n});\n"@
}

/// Writes the code of a server component's chunk item. `id_literal` is the id
/// of the wrapped module as JavaScript source.
pub fn server_component_chunk_item_code(id_literal: &str) -> (code: String)
    ensures
        code@ == chunk_item_code(id_literal@),
{
    String::from_str("__turbopack_esm__({\n    default: () => __turbopack_import__(").concat(
        id_literal,
    ).concat("),\n});\n")
}

/// The chunk item of a server component marker.
#[derive(Debug, PartialEq, Eq)]
pub struct BuildServerComponentChunkItem {
    pub inner: NextServerComponentAsset,
}

impl BuildServerComponentChunkItem {
    /// The code of the chunk item: it imports the wrapped module by its id.
    pub fn content(&self) -> (code: String)
        ensures
            code@ == chunk_item_code(module_id_literal(self.inner.asset.id@)),
    {
        let literal = stringify_module_id(&self.inner.asset.id);
        server_component_chunk_item_code(literal.as_str())
    }

    /// The identity of the marker.
    pub fn asset_ident(&self) -> (ident: AssetIdent)
        ensures
            ident@ == self.inner.asset.ident@.with_modifier(server_component_modifier()),
    {
        self.inner.ident()
    }

    /// The references of the marker: none.
    pub fn references(&self) -> (references: Vec<AssetReference>)
        ensures
            references@.len() == 0,
    {
        self.inner.references()
    }
}

} // verus!
