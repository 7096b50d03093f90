//! Compiled modules and the capabilities they expose.

use vstd::prelude::*;
use crate::chunk::ModuleId;
use crate::error::Error;
use crate::ident::{texts, AssetIdent};

verus! {

/// The export surface of an ECMAScript module.
#[derive(Debug, PartialEq, Eq)]
pub enum EcmascriptExports {
    /// A statically analyzable export list.
    EsmExports { names: Vec<String>, has_star_export: bool },
    /// Exports that are only known at run time.
    CommonJs,
    /// Any other shape.
    Other,
}

pub enum EcmascriptExportsView {
    EsmExports { names: Seq<Seq<char>>, has_star_export: bool },
    CommonJs,
    Other,
}

impl View for EcmascriptExports {
    type V = EcmascriptExportsView;

    open spec fn view(&self) -> EcmascriptExportsView {
        match self {
            EcmascriptExports::EsmExports { names, has_star_export } => {
                EcmascriptExportsView::EsmExports {
                    names: texts(names@),
                    has_star_export: *has_star_export,
                }
            },
            EcmascriptExports::CommonJs => EcmascriptExportsView::CommonJs,
            EcmascriptExports::Other => EcmascriptExportsView::Other,
        }
    }
}

/// A module that can be placed in an ECMAScript chunk.
#[derive(Debug, PartialEq, Eq)]
pub struct EcmascriptChunkPlaceable {
    pub ident: AssetIdent,
    pub exports: EcmascriptExports,
    /// The id of the module's chunk item under the chunking configuration it
    /// was compiled for.
    pub id: ModuleId,
}

/// A module that can be placed in a stylesheet chunk.
#[derive(Debug, PartialEq, Eq)]
pub struct CssChunkPlaceable {
    pub ident: AssetIdent,
}

/// A module that can be the root of a chunk.
#[derive(Debug, PartialEq, Eq)]
pub struct ChunkableAsset {
    pub ident: AssetIdent,
}

/// What a compiled module can do.
#[derive(Debug, PartialEq, Eq)]
pub enum Capability {
    /// Nothing beyond having an identity.
    Plain,
    Chunkable,
    EcmascriptExporting { exports: EcmascriptExports, id: ModuleId },
    CssExporting,
}

/// A compiled unit, as the module pipeline hands it over.
#[derive(Debug, PartialEq, Eq)]
pub struct Module {
    pub ident: AssetIdent,
    pub capability: Capability,
}

impl Module {
    /// The module as an ECMAScript module, where it is one.
    pub open spec fn as_ecmascript(self) -> Option<EcmascriptChunkPlaceable> {
        match self.capability {
            Capability::EcmascriptExporting { exports, id } => Some(
                EcmascriptChunkPlaceable { ident: self.ident, exports, id },
            ),
            _ => None,
        }
    }

    /// The module as an ECMAScript module, where it is one.
    pub fn resolve_ecmascript(self) -> (r: Result<EcmascriptChunkPlaceable, Error>)
        ensures
            match self.as_ecmascript() {
                Some(module) => r == Ok::<EcmascriptChunkPlaceable, Error>(module),
                None => r == Err::<EcmascriptChunkPlaceable, Error>(Error::CapabilityMismatch),
            },
    {
        match self.capability {
            Capability::EcmascriptExporting { exports, id } => Ok(
                EcmascriptChunkPlaceable { ident: self.ident, exports, id },
            ),
            _ => Err(Error::CapabilityMismatch),
        }
    }

    /// The module as a stylesheet, where it is one.
    pub fn resolve_css(self) -> (r: Result<CssChunkPlaceable, Error>)
        ensures
            match self.capability {
                Capability::CssExporting => r == Ok::<CssChunkPlaceable, Error>(
                    CssChunkPlaceable { ident: self.ident },
                ),
                _ => r == Err::<CssChunkPlaceable, Error>(Error::CapabilityMismatch),
            },
    {
        match self.capability {
            Capability::CssExporting => Ok(CssChunkPlaceable { ident: self.ident }),
            _ => Err(Error::CapabilityMismatch),
        }
    }

    /// The module as the root of a chunk. Only a plain module cannot be one.
    pub fn resolve_chunkable(self) -> (r: Result<ChunkableAsset, Error>)
        ensures
            match self.capability {
                Capability::Plain => r == Err::<ChunkableAsset, Error>(Error::CapabilityMismatch),
                _ => r == Ok::<ChunkableAsset, Error>(ChunkableAsset { ident: self.ident }),
            },
    {
        match self.capability {
            Capability::Plain => Err(Error::CapabilityMismatch),
            _ => Ok(ChunkableAsset { ident: self.ident }),
        }
    }
}

} // verus!
