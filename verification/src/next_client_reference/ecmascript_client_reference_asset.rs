//! The marker of a script module that server code refers to.

use vstd::prelude::*;
use crate::error::Error;
use crate::ident::AssetIdent;
use crate::module::EcmascriptChunkPlaceable;
use crate::reference::AssetReference;

verus! {

/// The modifier that tells the marker's identity from the server module's own.
pub open spec fn ecmascript_client_reference_modifier() -> Seq<char> {
    "ecmascript client reference"@
}

/// A marker node: it tells which client reference should appear in the client
/// reference manifest, and carries both compiled forms of the module.
#[derive(Debug, PartialEq, Eq)]
pub struct EcmascriptClientReferenceAsset {
    /// The identity of the server module, by which the reference is known.
    pub server_ident: AssetIdent,
    pub client_asset: EcmascriptChunkPlaceable,
    pub ssr_asset: EcmascriptChunkPlaceable,
}

/// The marker under the name by which the graph hands it around.
pub type EcmascriptClientReferenceAssetVc = EcmascriptClientReferenceAsset;

impl EcmascriptClientReferenceAsset {
    pub fn new(
        server_ident: AssetIdent,
        client_asset: EcmascriptChunkPlaceable,
        ssr_asset: EcmascriptChunkPlaceable,
    ) -> (marker: EcmascriptClientReferenceAsset)
        ensures
            marker.server_ident == server_ident,
            marker.client_asset == client_asset,
            marker.ssr_asset == ssr_asset,
    {
        EcmascriptClientReferenceAsset { server_ident, client_asset, ssr_asset }
    }

    /// The server module's identity with the marker's modifier.
    pub fn ident(&self) -> (ident: AssetIdent)
        ensures
            ident@ == self.server_ident@.with_modifier(ecmascript_client_reference_modifier()),
    {
        self.server_ident.with_modifier("ecmascript client reference")
    }

    /// A marker has no content: asking for it is an error of the caller.
    pub fn content(&self) -> (content: Result<String, Error>)
        ensures
            content == Err::<String, Error>(Error::MarkerHasNoContent),
    {
        Err(Error::MarkerHasNoContent)
    }

    /// A marker refers to nothing.
    pub fn references(&self) -> (references: Vec<AssetReference>)
        ensures
            references@.len() == 0,
    {
        Vec::new()
    }
}

} // verus!
