//! The insertion-ordered hash map that holds the chunks of each client reference.

use vstd::prelude::*;
use indexmap::IndexMap;
use crate::chunk::{ClientReferenceChunks, ClientReferenceChunksView};
use crate::ident::texts;

verus! {

/// `indexmap::IndexMap`: a hash map that iterates in the order in which its
/// keys were inserted. Nothing inside a value of it is visible here.
#[verifier::external_type_specification]
#[verifier::external_body]
#[verifier::reject_recursive_types(K)]
#[verifier::reject_recursive_types(V)]
#[verifier::reject_recursive_types(S)]
pub struct ExIndexMap<K, V, S>(IndexMap<K, V, S>);

/// What identifies a client reference: whether it is a stylesheet, and the
/// path and modifiers of the identity it is known by.
pub type ReferenceKey = (bool, String, Vec<String>);

/// A key as plain values.
pub type ReferenceKeyView = (bool, Seq<char>, Seq<Seq<char>>);

/// The plain values of `key`.
pub open spec fn key_view(key: ReferenceKey) -> ReferenceKeyView {
    (key.0, key.1@, texts(key.2@))
}

/// The entries of `map` in its iteration order: each key by its view, with the
/// paths of the chunks stored under it.
pub uninterp spec fn chunks_map_entries(
    map: IndexMap<(bool, String, Vec<String>), ClientReferenceChunks>,
) -> Seq<(ReferenceKeyView, ClientReferenceChunksView)>;

/// `key` stands at position `i` of `entries`.
pub open spec fn key_at(
    entries: Seq<(ReferenceKeyView, ClientReferenceChunksView)>,
    key: ReferenceKeyView,
    i: int,
) -> bool {
    0 <= i < entries.len() && entries[i].0 == key
}

/// `key` stands somewhere in `entries`.
pub open spec fn has_key(
    entries: Seq<(ReferenceKeyView, ClientReferenceChunksView)>,
    key: ReferenceKeyView,
) -> bool {
    exists|i: int| key_at(entries, key, i)
}

/// `entries` after `value` was stored under `key`: in the key's place where it
/// was present, at the end where it was not.
pub open spec fn with_entry(
    entries: Seq<(ReferenceKeyView, ClientReferenceChunksView)>,
    key: ReferenceKeyView,
    value: ClientReferenceChunksView,
) -> Seq<(ReferenceKeyView, ClientReferenceChunksView)> {
    if has_key(entries, key) {
        entries.update(choose|i: int| key_at(entries, key, i), (key, value))
    } else {
        entries.push((key, value))
    }
}

/// `IndexMap::new`: a map without entries.
#[verifier::external_body]
pub(crate) fn chunks_map_new() -> (map: IndexMap<(bool, String, Vec<String>), ClientReferenceChunks>)
    ensures
        chunks_map_entries(map) == Seq::<(ReferenceKeyView, ClientReferenceChunksView)>::empty(),
{
    IndexMap::new()
}

/// `IndexMap::insert`: a key equal to one in the map keeps that key's place and
/// gets the new value; any other key is added with its value after the last entry.
#[verifier::external_body]
pub(crate) fn chunks_map_insert(
    map: &mut IndexMap<(bool, String, Vec<String>), ClientReferenceChunks>,
    key: (bool, String, Vec<String>),
    value: ClientReferenceChunks,
)
    ensures
        chunks_map_entries(*final(map)) == with_entry(
            chunks_map_entries(*old(map)),
            key_view(key),
            value@,
        ),
{
    map.insert(key, value);
}

/// `IndexMap::get`: the value stored under a key equal to `key`, or `None`
/// where the map holds no such key.
#[verifier::external_body]
pub(crate) fn chunks_map_get<'a>(
    map: &'a IndexMap<(bool, String, Vec<String>), ClientReferenceChunks>,
    key: &(bool, String, Vec<String>),
) -> (value: Option<&'a ClientReferenceChunks>)
    ensures
        match value {
            Some(chunks) => exists|i: int|
                key_at(chunks_map_entries(*map), key_view(*key), i) && chunks_map_entries(
                    *map,
                )[i].1 == chunks@,
            None => !has_key(chunks_map_entries(*map), key_view(*key)),
        },
{
    map.get(key)
}

} // verus!
