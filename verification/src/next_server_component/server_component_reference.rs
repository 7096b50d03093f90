//! The reference from a server component marker to the module it wraps.

use vstd::prelude::*;
use vstd::string::*;
use crate::ident::{AssetIdent, AssetIdentView};

verus! {

/// How the target of a reference is placed among the chunks.
#[derive(Clone, Copy, Debug, PartialEq, Eq, Structural)]
pub enum ChunkingType {
    Placed,
    Parallel,
    IsolatedParallel,
    Separate,
}

/// `items` with `separator` between each two.
pub open spec fn separated(items: Seq<Seq<char>>, separator: Seq<char>) -> Seq<char>
    decreases items.len(),
{
    if items.len() == 0 {
        Seq::empty()
    } else if items.len() == 1 {
        items[0]
    } else {
        separated(items.drop_last(), separator) + separator + items.last()
    }
}

/// An identity as text: its path, and its modifiers, if it has any, in
/// parentheses after one space, with a comma and a space between each two.
pub open spec fn ident_text(ident: AssetIdentView) -> Seq<char> {
    if ident.modifiers.len() == 0 {
        ident.path
    } else {
        ident.path + " ("@ + separated(ident.modifiers, ", "@) + ")"@
    }
}

/// An identity as text.
pub fn ident_to_string(ident: &AssetIdent) -> (text: String)
    ensures
        text@ == ident_text(ident@),
{
    let mut text = ident.path.path.clone();
    if ident.modifiers.len() == 0 {
        return text;
    }
    text.append(" (");
    text.append(ident.modifiers[0].as_str());
    let ghost modifiers = ident@.modifiers;
    assert(modifiers.take(1) =~= seq![modifiers[0]]);
    let mut i: usize = 1;
    while i < ident.modifiers.len()
        invariant
            1 <= i <= ident.modifiers@.len(),
            modifiers == ident@.modifiers,
            text@ == ident@.path + " ("@ + separated(modifiers.take(i as int), ", "@),
        decreases ident.modifiers@.len() - i,
    {
        proof {
            let next = modifiers.take(i + 1);
            assert(next.drop_last() =~= modifiers.take(i as int));
            assert(next.last() == ident.modifiers@[i as int]@);
        }
        let ghost before = text@;
        text.append(", ");
        text.append(ident.modifiers[i].as_str());
        assert(text@ =~= ident@.path + " ("@ + separated(modifiers.take(i + 1), ", "@));
        i = i + 1;
    }
    assert(modifiers.take(modifiers.len() as int) =~= modifiers);
    text.append(")");
    text
}

/// A reference to the module that a server component marker wraps.
#[derive(Debug, PartialEq, Eq)]
pub struct NextServerComponentAssetReference {
    pub asset: AssetIdent,
}

/// The reference under the name by which the graph hands it around.
pub type NextServerComponentAssetReferenceVc = NextServerComponentAssetReference;

impl NextServerComponentAssetReference {
    pub fn new(asset: AssetIdent) -> (reference: NextServerComponentAssetReference)
        ensures
            reference.asset == asset,
    {
        NextServerComponentAssetReference { asset }
    }

    /// The text that names the reference in messages.
    pub fn to_string(&self) -> (text: String)
        ensures
            text@ == "Next.js server component "@ + ident_text(self.asset@),
    {
        let target = ident_to_string(&self.asset);
        String::from_str("Next.js server component ").concat(target.as_str())
    }

    /// The node that the reference leads to.
    pub fn resolve_reference(&self) -> (asset: AssetIdent)
        ensures
            asset@ == self.asset@,
    {
        self.asset.duplicate()
    }

    /// The wrapped module is placed in chunks of its own, beside the chunk of
    /// the referring module.
    pub fn chunking_type(&self) -> (chunking_type: Option<ChunkingType>)
        ensures
            chunking_type == Some(ChunkingType::IsolatedParallel),
    {
        Some(ChunkingType::IsolatedParallel)
    }
}

} // verus!
