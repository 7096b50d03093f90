//! Identities: a path and an ordered list of modifiers.

use vstd::prelude::*;
use vstd::string::*;
use crate::path::FileSystemPath;

verus! {

/// The views of `strings`, in order.
pub open spec fn texts(strings: Seq<String>) -> Seq<Seq<char>> {
    Seq::new(strings.len(), |i: int| strings[i]@)
}

/// What an identity is: two nodes with equal views are the same logical entity.
pub struct AssetIdentView {
    pub path: Seq<char>,
    pub modifiers: Seq<Seq<char>>,
}

impl AssetIdentView {
    /// The identity with `modifier` added after the modifiers it has.
    pub open spec fn with_modifier(self, modifier: Seq<char>) -> AssetIdentView {
        AssetIdentView { path: self.path, modifiers: self.modifiers.push(modifier) }
    }
}

/// The identity of a node of the module graph.
#[derive(Debug, PartialEq, Eq)]
pub struct AssetIdent {
    pub path: FileSystemPath,
    pub modifiers: Vec<String>,
}

impl View for AssetIdent {
    type V = AssetIdentView;

    open spec fn view(&self) -> AssetIdentView {
        AssetIdentView { path: self.path@, modifiers: texts(self.modifiers@) }
    }
}

impl AssetIdent {
    /// The identity of the file at `path`, with no modifier.
    pub fn from_path(path: FileSystemPath) -> (ident: AssetIdent)
        ensures
            ident@ == (AssetIdentView { path: path@, modifiers: Seq::empty() }),
    {
        let ident = AssetIdent { path, modifiers: Vec::new() };
        assert(texts(ident.modifiers@) =~= Seq::empty());
        ident
    }

    pub fn path(&self) -> (path: &FileSystemPath)
        ensures
            path@ == self@.path,
    {
        &self.path
    }

    pub fn duplicate(&self) -> (ident: AssetIdent)
        ensures
            ident@ == self@,
    {
        let modifiers = self.modifiers.clone();
        assert(modifiers@ =~= self.modifiers@);
        AssetIdent { path: self.path.duplicate(), modifiers }
    }

    /// This identity with `modifier` added. The result depends on nothing but
    /// the identity and the modifier.
    pub fn with_modifier(&self, modifier: &str) -> (ident: AssetIdent)
        ensures
            ident@ == self@.with_modifier(modifier@),
    {
        let mut modifiers = self.modifiers.clone();
        assert(modifiers@ =~= self.modifiers@);
        modifiers.push(String::from_str(modifier));
        assert(texts(modifiers@) =~= texts(self.modifiers@).push(modifier@));
        AssetIdent { path: self.path.duplicate(), modifiers }
    }
}

} // verus!
