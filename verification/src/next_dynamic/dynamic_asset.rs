//! The marker of a module that is loaded on demand.

use vstd::prelude::*;
use crate::chunk::Chunk;
use crate::error::Error;
use crate::ident::AssetIdent;
use crate::module::{Capability, Module};
use crate::reference::AssetReference;

verus! {

/// The modifier that tells the marker's identity from the client module's own.
pub open spec fn dynamic_modifier() -> Seq<char> {
    "dynamic"@
}

/// A marker node: it tells which modules should appear in the manifest of
/// dynamic imports.
#[derive(Debug, PartialEq, Eq)]
pub struct NextDynamicEntryAsset {
    pub client_entry_asset: Module,
}

/// The marker under the name by which the graph hands it around.
pub type NextDynamicEntryAssetVc = NextDynamicEntryAsset;

impl NextDynamicEntryAsset {
    /// The marker of the client module `client_entry_asset`.
    pub fn new(client_entry_asset: Module) -> (marker: NextDynamicEntryAsset)
        ensures
            marker.client_entry_asset == client_entry_asset,
    {
        NextDynamicEntryAsset { client_entry_asset }
    }

    /// The chunks that load the client module: `chunk_group`, the chunk group
    /// of the module's root chunk, where the module can be the root of a chunk.
    pub fn client_chunks(&self, chunk_group: Vec<Chunk>) -> (chunks: Result<Vec<Chunk>, Error>)
        ensures
            match self.client_entry_asset.capability {
                Capability::Plain => chunks == Err::<Vec<Chunk>, Error>(Error::CapabilityMismatch),
                _ => chunks == Ok::<Vec<Chunk>, Error>(chunk_group),
            },
    {
        match &self.client_entry_asset.capability {
            Capability::Plain => Err(Error::CapabilityMismatch),
            _ => Ok(chunk_group),
        }
    }

    /// The client module's identity with the marker's modifier.
    pub fn ident(&self) -> (ident: AssetIdent)
        ensures
            ident@ == self.client_entry_asset.ident@.with_modifier(dynamic_modifier()),
    {
        self.client_entry_asset.ident.with_modifier("dynamic")
    }

    /// A marker has no content: asking for it is an error of the caller.
    pub fn content(&self) -> (content: Result<String, Error>)
        ensures
            content == Err::<String, Error>(Error::MarkerHasNoContent),
    {
        Err(Error::MarkerHasNoContent)
    }

    /// A marker refers to nothing.
    pub fn references(&self) -> (references: Vec<AssetReference>)
        ensures
            references@.len() == 0,
    {
        Vec::new()
    }
}

} // verus!
