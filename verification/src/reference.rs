//! Edges of the module graph.

use vstd::prelude::*;
use crate::ident::{AssetIdent, AssetIdentView};

verus! {

/// A reference from one node to another, with a description for messages.
#[derive(Debug, PartialEq, Eq)]
pub struct AssetReference {
    /// The identity of the node referred to.
    pub asset: AssetIdent,
    pub description: String,
}

pub struct AssetReferenceView {
    pub asset: AssetIdentView,
    pub description: Seq<char>,
}

impl View for AssetReference {
    type V = AssetReferenceView;

    open spec fn view(&self) -> AssetReferenceView {
        AssetReferenceView { asset: self.asset@, description: self.description@ }
    }
}

/// The views of `references`, in order.
pub open spec fn reference_views(references: Seq<AssetReference>) -> Seq<AssetReferenceView> {
    Seq::new(references.len(), |i: int| references[i]@)
}

} // verus!
