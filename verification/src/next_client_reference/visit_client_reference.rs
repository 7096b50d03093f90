//! The client references that a walk of the server graph discovers.

use vstd::prelude::*;
use crate::ident::AssetIdent;
use crate::index_map::{key_view, ReferenceKeyView};
use crate::next_client_reference::css_client_reference_asset::CssClientReferenceAsset;
use crate::next_client_reference::ecmascript_client_reference_asset::EcmascriptClientReferenceAsset;
use crate::next_server_component::server_component_asset::NextServerComponentAsset;

verus! {

/// One server-to-client boundary.
#[derive(Debug, PartialEq, Eq)]
pub enum ClientReferenceType {
    /// A script module: it exists in a client and in a server-rendering form.
    EcmascriptClientReference(EcmascriptClientReferenceAsset),
    /// A stylesheet: it exists in a client form only.
    CssClientReference(CssClientReferenceAsset),
}

impl ClientReferenceType {
    /// The identity by which the boundary is known: that of the server module
    /// of a script, that of the stylesheet itself.
    pub open spec fn known_by(&self) -> AssetIdent {
        match self {
            ClientReferenceType::EcmascriptClientReference(reference) => reference.server_ident,
            ClientReferenceType::CssClientReference(reference) => reference.client_asset.ident,
        }
    }

    /// What two boundaries must share to be the same one: the variant, and the
    /// identity they are known by.
    pub open spec fn key_spec(&self) -> ReferenceKeyView {
        (
            self is CssClientReference,
            self.known_by()@.path,
            self.known_by()@.modifiers,
        )
    }

    /// The key of this boundary in a map from boundaries to their chunks.
    pub fn key(&self) -> (key: (bool, String, Vec<String>))
        ensures
            key_view(key) == self.key_spec(),
    {
        match self {
            ClientReferenceType::EcmascriptClientReference(reference) => {
                let modifiers = reference.server_ident.modifiers.clone();
                assert(modifiers@ =~= reference.server_ident.modifiers@);
                (false, reference.server_ident.path.path.clone(), modifiers)
            },
            ClientReferenceType::CssClientReference(reference) => {
                let modifiers = reference.client_asset.ident.modifiers.clone();
                assert(modifiers@ =~= reference.client_asset.ident.modifiers@);
                (true, reference.client_asset.ident.path.path.clone(), modifiers)
            },
        }
    }
}

/// A boundary together with the route it was found under, if any.
#[derive(Debug, PartialEq, Eq)]
pub struct ClientReference {
    pub server_component: Option<NextServerComponentAsset>,
    pub ty: ClientReferenceType,
}

impl ClientReference {
    pub fn server_component(&self) -> (component: Option<&NextServerComponentAsset>)
        ensures
            match component {
                Some(c) => self.server_component == Some(*c),
                None => self.server_component is None,
            },
    {
        self.server_component.as_ref()
    }

    pub fn ty(&self) -> (ty: &ClientReferenceType)
        ensures
            *ty == self.ty,
    {
        &self.ty
    }
}

} // verus!
