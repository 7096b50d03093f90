//! The marker of a stylesheet that server code refers to.

use vstd::prelude::*;
use crate::error::Error;
use crate::ident::AssetIdent;
use crate::module::CssChunkPlaceable;
use crate::reference::AssetReference;

verus! {

/// The modifier that tells the marker's identity from the stylesheet's own.
pub open spec fn css_client_reference_modifier() -> Seq<char> {
    "css client reference"@
}

/// A marker node: it tells which stylesheet should appear in the client
/// reference manifest, and has no content of its own.
#[derive(Debug, PartialEq, Eq)]
pub struct CssClientReferenceAsset {
    pub client_asset: CssChunkPlaceable,
}

/// The marker under the name by which the graph hands it around.
pub type CssClientReferenceAssetVc = CssClientReferenceAsset;

impl CssClientReferenceAsset {
    /// The marker of the stylesheet `client_asset`.
    pub fn new(client_asset: CssChunkPlaceable) -> (marker: CssClientReferenceAsset)
        ensures
            marker.client_asset == client_asset,
    {
        CssClientReferenceAsset { client_asset }
    }

    /// The stylesheet's identity with the marker's modifier.
    pub fn ident(&self) -> (ident: AssetIdent)
        ensures
            ident@ == self.client_asset.ident@.with_modifier(css_client_reference_modifier()),
    {
        self.client_asset.ident.with_modifier("css client reference")
    }

    /// A marker has no content: asking for it is an error of the caller.
    pub fn content(&self) -> (content: Result<String, Error>)
        ensures
            content == Err::<String, Error>(Error::MarkerHasNoContent),
    {
        Err(Error::MarkerHasNoContent)
    }

    /// The stylesheet that is parsed in the marker's place: the client asset.
    pub fn parse_css(&self) -> (stylesheet: &CssChunkPlaceable)
        ensures
            *stylesheet == self.client_asset,
    {
        &self.client_asset
    }

    /// A marker refers to nothing.
    pub fn references(&self) -> (references: Vec<AssetReference>)
        ensures
            references@.len() == 0,
    {
        Vec::new()
    }
}

} // verus!
