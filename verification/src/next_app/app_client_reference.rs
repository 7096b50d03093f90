//! From the client references of a build to the records of the client
//! reference manifest.

use vstd::prelude::*;
use indexmap::IndexMap;
use crate::chunk::{chunk_paths, duplicate_chunks, Chunk, ClientReferenceChunks, ClientReferenceChunksView};
use crate::error::Error;
use crate::ident::texts;
use crate::index_map::{
    chunks_map_entries, chunks_map_get, chunks_map_insert, chunks_map_new, has_key, key_at,
    with_entry, ReferenceKeyView,
};
use crate::manifests::{
    entry_for, export_of_key, lemma_export_of_key, manifest_id, manifest_key, names_have_key,
    recorded_exports, ClientReferenceManifest, ClientReferenceManifestView, ModuleId, ModuleIdView,
};
use crate::module::EcmascriptExportsView;
use crate::next_client_reference::visit_client_reference::{ClientReference, ClientReferenceType};
use crate::path::{extension_of, relative_path, strip_extension, FileSystemPath};

verus! {

pub type ChunkEntries = Seq<(ReferenceKeyView, ClientReferenceChunksView)>;

/// Those of `paths` that lie below `root`, each relative to it, in order.
pub open spec fn relative_paths(root: Seq<char>, paths: Seq<Seq<char>>) -> Seq<Seq<char>>
    decreases paths.len(),
{
    if paths.len() == 0 {
        Seq::empty()
    } else {
        let before = relative_paths(root, paths.drop_last());
        match relative_path(root, paths.last()) {
            Some(relative) => before.push(relative),
            None => before,
        }
    }
}

/// Whether `path` names a stylesheet chunk.
pub open spec fn is_stylesheet(path: Seq<char>) -> bool {
    extension_of(path) == Some("css"@)
}

/// Those of `paths` that name a stylesheet and lie below `root`, each relative
/// to it, in order.
pub open spec fn relative_stylesheet_paths(
    root: Seq<char>,
    paths: Seq<Seq<char>>,
) -> Seq<Seq<char>>
    decreases paths.len(),
{
    if paths.len() == 0 {
        Seq::empty()
    } else {
        let before = relative_stylesheet_paths(root, paths.drop_last());
        if is_stylesheet(paths.last()) {
            match relative_path(root, paths.last()) {
                Some(relative) => before.push(relative),
                None => before,
            }
        } else {
            before
        }
    }
}

/// The paths of `chunks` relative to `root`. A chunk outside `root` is left out.
pub fn relative_chunk_paths(root: &FileSystemPath, chunks: &Vec<Chunk>) -> (paths: Vec<String>)
    ensures
        texts(paths@) == relative_paths(root@, chunk_paths(chunks@)),
{
    let mut paths: Vec<String> = Vec::new();
    let mut i: usize = 0;
    assert(chunk_paths(chunks@).take(0).len() == 0);
    assert(texts(paths@) =~= Seq::empty());
    while i < chunks.len()
        invariant
            i <= chunks@.len(),
            texts(paths@) == relative_paths(root@, chunk_paths(chunks@).take(i as int)),
        decreases chunks@.len() - i,
    {
        proof {
            let next = chunk_paths(chunks@).take(i + 1);
            assert(next.drop_last() =~= chunk_paths(chunks@).take(i as int));
            assert(next.last() == chunks@[i as int]@);
        }
        match root.get_path_to(&chunks[i].path) {
            Some(relative) => {
                let ghost before = texts(paths@);
                paths.push(relative);
                assert(texts(paths@) =~= before.push(relative@));
            },
            None => {},
        }
        i = i + 1;
    }
    assert(chunk_paths(chunks@).take(chunks@.len() as int) =~= chunk_paths(chunks@));
    paths
}

/// The paths, relative to `root`, of the stylesheets among `chunks`.
pub fn relative_stylesheet_chunk_paths(root: &FileSystemPath, chunks: &Vec<Chunk>) -> (paths: Vec<
    String,
>)
    ensures
        texts(paths@) == relative_stylesheet_paths(root@, chunk_paths(chunks@)),
{
    let mut paths: Vec<String> = Vec::new();
    let mut i: usize = 0;
    assert(chunk_paths(chunks@).take(0).len() == 0);
    assert(texts(paths@) =~= Seq::empty());
    while i < chunks.len()
        invariant
            i <= chunks@.len(),
            texts(paths@) == relative_stylesheet_paths(
                root@,
                chunk_paths(chunks@).take(i as int),
            ),
        decreases chunks@.len() - i,
    {
        proof {
            let next = chunk_paths(chunks@).take(i + 1);
            assert(next.drop_last() =~= chunk_paths(chunks@).take(i as int));
            assert(next.last() == chunks@[i as int]@);
        }
        if chunks[i].path.has_extension("css") {
            match root.get_path_to(&chunks[i].path) {
                Some(relative) => {
                    let ghost before = texts(paths@);
                    paths.push(relative);
                    assert(texts(paths@) =~= before.push(relative@));
                },
                None => {},
            }
        }
        i = i + 1;
    }
    assert(chunk_paths(chunks@).take(chunks@.len() as int) =~= chunk_paths(chunks@));
    paths
}

/// Adds copies of `more` to `all`, after what it holds.
pub fn extend_chunks(all: &mut Vec<Chunk>, more: &Vec<Chunk>)
    ensures
        chunk_paths(final(all)@) == chunk_paths(old(all)@) + chunk_paths(more@),
{
    let mut i: usize = 0;
    assert(chunk_paths(all@) =~= chunk_paths(old(all)@) + chunk_paths(more@).take(0));
    while i < more.len()
        invariant
            i <= more@.len(),
            chunk_paths(all@) == chunk_paths(old(all)@) + chunk_paths(more@).take(i as int),
        decreases more@.len() - i,
    {
        let ghost before = chunk_paths(all@);
        all.push(more[i].duplicate());
        assert(chunk_paths(all@) =~= before.push(more@[i as int]@));
        assert(chunk_paths(more@).take(i + 1) =~= chunk_paths(more@).take(i as int).push(
            more@[i as int]@,
        ));
        assert(chunk_paths(all@) =~= chunk_paths(old(all)@) + chunk_paths(more@).take(i + 1));
        i = i + 1;
    }
    assert(chunk_paths(more@).take(more@.len() as int) =~= chunk_paths(more@));
}

/// The chunks of one boundary, as the chunking algorithm's chunk groups give
/// them. A stylesheet has no server-rendering form, so it has no such chunks.
pub open spec fn resolved_chunks(
    ty: ClientReferenceType,
    client_group: Seq<Seq<char>>,
    ssr_group: Seq<Seq<char>>,
) -> ClientReferenceChunksView {
    match ty {
        ClientReferenceType::EcmascriptClientReference(_) => ClientReferenceChunksView {
            client_chunks: client_group,
            ssr_chunks: ssr_group,
        },
        ClientReferenceType::CssClientReference(_) => ClientReferenceChunksView {
            client_chunks: client_group,
            ssr_chunks: Seq::empty(),
        },
    }
}

/// Records the chunk groups of one boundary: the group of the client module,
/// and for a script the group of the server-rendering module.
pub fn resolve_client_reference_chunks(
    ty: &ClientReferenceType,
    client_group: Vec<Chunk>,
    ssr_group: Vec<Chunk>,
) -> (chunks: ClientReferenceChunks)
    ensures
        chunks@ == resolved_chunks(*ty, chunk_paths(client_group@), chunk_paths(ssr_group@)),
        ty is CssClientReference ==> chunks.ssr_chunks@.len() == 0,
{
    match ty {
        ClientReferenceType::EcmascriptClientReference(_) => ClientReferenceChunks {
            client_chunks: client_group,
            ssr_chunks: ssr_group,
        },
        ClientReferenceType::CssClientReference(_) => {
            let chunks = ClientReferenceChunks { client_chunks: client_group, ssr_chunks: Vec::new() };
            assert(chunk_paths(chunks.ssr_chunks@) =~= Seq::empty());
            chunks
        },
    }
}

/// The first failure among `branches`, or all their values in order.
pub open spec fn joined<T, E>(branches: Seq<Result<T, E>>) -> Result<Seq<T>, E>
    decreases branches.len(),
{
    if branches.len() == 0 {
        Ok(Seq::empty())
    } else {
        match branches.first() {
            Err(e) => Err(e),
            Ok(value) => match joined(branches.drop_first()) {
                Err(e) => Err(e),
                Ok(rest) => Ok(seq![value] + rest),
            },
        }
    }
}

/// Joins the branches of a fan-out: all of their values, or the failure of the
/// first branch that failed and nothing else.
pub fn try_join<T, E>(branches: Vec<Result<T, E>>) -> (all: Result<Vec<T>, E>)
    ensures
        match all {
            Ok(values) => joined(branches@) == Ok::<Seq<T>, E>(values@),
            Err(e) => joined(branches@) == Err::<Seq<T>, E>(e),
        },
{
    let mut branches = branches;
    let ghost whole = branches@;
    let mut values: Vec<T> = Vec::new();
    let mut failure: Option<E> = None;
    while branches.len() > 0 && failure.is_none()
        invariant
            match failure {
                None => match joined(branches@) {
                    Ok(rest) => joined(whole) == Ok::<Seq<T>, E>(values@ + rest),
                    Err(e) => joined(whole) == Err::<Seq<T>, E>(e),
                },
                Some(e) => joined(whole) == Err::<Seq<T>, E>(e),
            },
        decreases branches@.len() + if failure is None { 1nat } else { 0nat },
    {
        let ghost before = branches@;
        let branch = branches.remove(0);
        assert(branches@ =~= before.drop_first());
        assert(branch == before.first());
        match branch {
            Ok(value) => {
                proof {
                    match joined(branches@) {
                        Ok(rest) => {
                            assert(values@.push(value) + rest =~= values@ + (seq![value] + rest));
                        },
                        Err(e) => {},
                    }
                }
                values.push(value);
            },
            Err(e) => {
                failure = Some(e);
            },
        }
    }
    match failure {
        Some(e) => Err(e),
        None => {
            assert(values@ + Seq::<T>::empty() =~= values@);
            Ok(values)
        },
    }
}

/// What is kept for a boundary in the map from boundaries to chunks.
pub open spec fn stored_chunks(
    ty: ClientReferenceType,
    chunks: ClientReferenceChunksView,
) -> ClientReferenceChunksView {
    resolved_chunks(ty, chunks.client_chunks, chunks.ssr_chunks)
}

/// The map from the first `n` boundaries to their chunks, in the order in
/// which the boundaries come.
pub open spec fn entries_of(
    types: Seq<ClientReferenceType>,
    resolved: Seq<ClientReferenceChunks>,
    n: nat,
) -> ChunkEntries
    decreases n,
{
    if n == 0 {
        Seq::empty()
    } else {
        with_entry(
            entries_of(types, resolved, (n - 1) as nat),
            types[n - 1].key_spec(),
            stored_chunks(types[n - 1], resolved[n - 1]@),
        )
    }
}

/// No key stands at two places of `entries`.
pub open spec fn distinct_keys(entries: ChunkEntries) -> bool {
    forall|i: int, j: int| 0 <= i < j < entries.len() ==> entries[i].0 != entries[j].0
}

/// The chunks stored under `key`.
pub open spec fn chunks_under(entries: ChunkEntries, key: ReferenceKeyView) -> ClientReferenceChunksView {
    entries[choose|i: int| key_at(entries, key, i)].1
}

/// Storing a value keeps the keys distinct.
pub proof fn lemma_with_entry_distinct(
    entries: ChunkEntries,
    key: ReferenceKeyView,
    value: ClientReferenceChunksView,
)
    requires
        distinct_keys(entries),
    ensures
        distinct_keys(with_entry(entries, key, value)),
{
    let after = with_entry(entries, key, value);
    if has_key(entries, key) {
        let at = choose|i: int| key_at(entries, key, i);
        assert forall|i: int, j: int| 0 <= i < j < after.len() implies after[i].0 != after[j].0 by {
            assert(after[i].0 == entries[i].0);
            assert(after[j].0 == entries[j].0);
        }
    } else {
        assert forall|i: int, j: int| 0 <= i < j < after.len() implies after[i].0 != after[j].0 by {
            if j == entries.len() {
                assert(!key_at(entries, key, i));
            }
        }
    }
}

/// The keys of the map from boundaries to chunks are distinct.
pub proof fn lemma_entries_distinct(
    types: Seq<ClientReferenceType>,
    resolved: Seq<ClientReferenceChunks>,
    n: nat,
)
    ensures
        distinct_keys(entries_of(types, resolved, n)),
    decreases n,
{
    if n > 0 {
        lemma_entries_distinct(types, resolved, (n - 1) as nat);
        lemma_with_entry_distinct(
            entries_of(types, resolved, (n - 1) as nat),
            types[n - 1].key_spec(),
            stored_chunks(types[n - 1], resolved[n - 1]@),
        );
    }
}

/// The manifest after the modules of one boundary were recorded. A stylesheet
/// adds no record of a module.
pub open spec fn manifest_with_type(
    manifest: ClientReferenceManifestView,
    ty: ClientReferenceType,
    chunks: ClientReferenceChunksView,
    client_root: Seq<char>,
    node_root: Seq<char>,
) -> ClientReferenceManifestView {
    match ty {
        ClientReferenceType::EcmascriptClientReference(reference) => {
            manifest.with_ecmascript_reference(
                reference.server_ident@.path,
                reference.client_asset.exports@,
                manifest_id(reference.client_asset.id@),
                manifest_id(reference.ssr_asset.id@),
                relative_paths(client_root, chunks.client_chunks),
                relative_paths(node_root, chunks.ssr_chunks),
            )
        },
        ClientReferenceType::CssClientReference(_) => manifest,
    }
}

/// The manifest after the modules of the first `n` boundaries were recorded,
/// one boundary after the other.
pub open spec fn manifest_with_types(
    manifest: ClientReferenceManifestView,
    types: Seq<ClientReferenceType>,
    resolved: Seq<ClientReferenceChunks>,
    client_root: Seq<char>,
    node_root: Seq<char>,
    n: nat,
) -> ClientReferenceManifestView
    decreases n,
{
    if n == 0 {
        manifest
    } else {
        manifest_with_type(
            manifest_with_types(manifest, types, resolved, client_root, node_root, (n - 1) as nat),
            types[n - 1],
            resolved[n - 1]@,
            client_root,
            node_root,
        )
    }
}

/// The chunks that one boundary adds to the build's output: those of the
/// client, and for a script those of server rendering after them.
pub open spec fn chunks_of_type(
    ty: ClientReferenceType,
    chunks: ClientReferenceChunksView,
) -> Seq<Seq<char>> {
    match ty {
        ClientReferenceType::EcmascriptClientReference(_) => chunks.client_chunks
            + chunks.ssr_chunks,
        ClientReferenceType::CssClientReference(_) => chunks.client_chunks,
    }
}

/// The build's output after the chunks of the first `n` boundaries were added.
pub open spec fn chunks_with_types(
    all: Seq<Seq<char>>,
    types: Seq<ClientReferenceType>,
    resolved: Seq<ClientReferenceChunks>,
    n: nat,
) -> Seq<Seq<char>>
    decreases n,
{
    if n == 0 {
        all
    } else {
        chunks_with_types(all, types, resolved, (n - 1) as nat) + chunks_of_type(
            types[n - 1],
            resolved[n - 1]@,
        )
    }
}

/// The stylesheets that a boundary with the client chunks `client_chunks`
/// brings to its route: all chunks of a stylesheet boundary, and of a script
/// boundary those that are stylesheets.
pub open spec fn route_stylesheets(
    ty: ClientReferenceType,
    client_chunks: Seq<Seq<char>>,
    client_root: Seq<char>,
) -> Seq<Seq<char>> {
    match ty {
        ClientReferenceType::CssClientReference(_) => relative_paths(client_root, client_chunks),
        ClientReferenceType::EcmascriptClientReference(_) => relative_stylesheet_paths(
            client_root,
            client_chunks,
        ),
    }
}

/// The manifest after the stylesheets of one discovered reference were
/// recorded for its route. A reference that was found under no route adds none.
pub open spec fn manifest_with_reference(
    manifest: ClientReferenceManifestView,
    reference: ClientReference,
    entries: ChunkEntries,
    client_root: Seq<char>,
) -> ClientReferenceManifestView {
    match reference.server_component {
        None => manifest,
        Some(component) => manifest.with_entry_css_files(
            strip_extension(component.asset.ident@.path),
            route_stylesheets(
                reference.ty,
                chunks_under(entries, reference.ty.key_spec()).client_chunks,
                client_root,
            ),
        ),
    }
}

/// The manifest after the stylesheets of the first `n` references were recorded.
pub open spec fn manifest_with_references(
    manifest: ClientReferenceManifestView,
    references: Seq<ClientReference>,
    entries: ChunkEntries,
    client_root: Seq<char>,
    n: nat,
) -> ClientReferenceManifestView
    decreases n,
{
    if n == 0 {
        manifest
    } else {
        manifest_with_reference(
            manifest_with_references(manifest, references, entries, client_root, (n - 1) as nat),
            references[n - 1],
            entries,
            client_root,
        )
    }
}

/// Some reference that was found under a route has a boundary without chunks.
pub open spec fn lookup_fails(references: Seq<ClientReference>, entries: ChunkEntries) -> bool {
    exists|i: int|
        0 <= i < references.len() && (#[trigger] references[i]).server_component is Some
            && !has_key(entries, references[i].ty.key_spec())
}

/// Computes the chunks of all client references and adds them to the manifest
/// and to the build's output.
///
/// `resolved` holds, for each boundary of `app_client_reference_types` at the
/// same position, the chunk groups that the chunking algorithm gave. The
/// result maps each boundary to the chunks it needs to load. On a failure
/// neither the manifest nor the output is changed.
pub fn compute_app_client_references_chunks(
    app_client_references: &Vec<ClientReference>,
    app_client_reference_types: &Vec<ClientReferenceType>,
    resolved: &Vec<ClientReferenceChunks>,
    client_root: &FileSystemPath,
    node_root: &FileSystemPath,
    client_reference_manifest: &mut ClientReferenceManifest,
    all_chunks: &mut Vec<Chunk>,
) -> (result: Result<IndexMap<(bool, String, Vec<String>), ClientReferenceChunks>, Error>)
    requires
        old(client_reference_manifest).wf(),
    ensures
        final(client_reference_manifest).wf(),
        result is Err <==> (app_client_reference_types@.len() != resolved@.len() || lookup_fails(
            app_client_references@,
            entries_of(app_client_reference_types@, resolved@, resolved@.len()),
        )),
        match result {
            Ok(map) => {
                let types = app_client_reference_types@;
                let entries = entries_of(types, resolved@, types.len());
                &&& chunks_map_entries(map) == entries
                &&& final(client_reference_manifest)@ == manifest_with_references(
                    manifest_with_types(
                        old(client_reference_manifest)@,
                        types,
                        resolved@,
                        client_root@,
                        node_root@,
                        types.len(),
                    ),
                    app_client_references@,
                    entries,
                    client_root@,
                    app_client_references@.len(),
                )
                &&& chunk_paths(final(all_chunks)@) == chunks_with_types(
                    chunk_paths(old(all_chunks)@),
                    types,
                    resolved@,
                    types.len(),
                )
            },
            Err(error) => {
                &&& error == Error::LookupInvariantViolation
                &&& final(client_reference_manifest)@ == old(client_reference_manifest)@
                &&& chunk_paths(final(all_chunks)@) == chunk_paths(old(all_chunks)@)
            },
        },
{
    let n = app_client_reference_types.len();
    if n != resolved.len() {
        return Err(Error::LookupInvariantViolation);
    }
    let ghost types = app_client_reference_types@;
    let ghost entries = entries_of(types, resolved@, n as nat);
    let mut map = chunks_map_new();
    let mut i: usize = 0;
    while i < n
        invariant
            i <= n,
            n == app_client_reference_types@.len(),
            n == resolved@.len(),
            types == app_client_reference_types@,
            chunks_map_entries(map) == entries_of(types, resolved@, i as nat),
        decreases n - i,
    {
        let ty = &app_client_reference_types[i];
        let stored = match ty {
            ClientReferenceType::EcmascriptClientReference(_) => resolved[i].duplicate(),
            ClientReferenceType::CssClientReference(_) => {
                let stored = ClientReferenceChunks {
                    client_chunks: duplicate_chunks(&resolved[i].client_chunks),
                    ssr_chunks: Vec::new(),
                };
                assert(chunk_paths(stored.ssr_chunks@) =~= Seq::empty());
                stored
            },
        };
        chunks_map_insert(&mut map, ty.key(), stored);
        i = i + 1;
    }
    proof {
        lemma_entries_distinct(types, resolved@, n as nat);
    }
    let mut r: usize = 0;
    while r < app_client_references.len()
        invariant
            r <= app_client_references@.len(),
            chunks_map_entries(map) == entries,
            entries == entries_of(app_client_reference_types@, resolved@, resolved@.len()),
            n == app_client_reference_types@.len(),
            n == resolved@.len(),
            *client_reference_manifest == *old(client_reference_manifest),
            client_reference_manifest.wf(),
            *all_chunks == *old(all_chunks),
            forall|j: int|
                0 <= j < r && (#[trigger] app_client_references@[j]).server_component is Some
                    ==> has_key(entries, app_client_references@[j].ty.key_spec()),
        decreases app_client_references@.len() - r,
    {
        let reference = &app_client_references[r];
        if reference.server_component.is_some() {
            let key = reference.ty.key();
            if chunks_map_get(&map, &key).is_none() {
                return Err(Error::LookupInvariantViolation);
            }
        }
        r = r + 1;
    }
    assert(!lookup_fails(app_client_references@, entries));
    let mut i: usize = 0;
    while i < n
        invariant
            i <= n,
            n == app_client_reference_types@.len(),
            n == resolved@.len(),
            types == app_client_reference_types@,
            client_reference_manifest.wf(),
            client_reference_manifest@ == manifest_with_types(
                old(client_reference_manifest)@,
                types,
                resolved@,
                client_root@,
                node_root@,
                i as nat,
            ),
            chunk_paths(all_chunks@) == chunks_with_types(
                chunk_paths(old(all_chunks)@),
                types,
                resolved@,
                i as nat,
            ),
        decreases n - i,
    {
        let chunks = &resolved[i];
        let ghost before = chunk_paths(all_chunks@);
        match &app_client_reference_types[i] {
            ClientReferenceType::EcmascriptClientReference(reference) => {
                extend_chunks(all_chunks, &chunks.client_chunks);
                extend_chunks(all_chunks, &chunks.ssr_chunks);
                assert(chunk_paths(all_chunks@) =~= before + (chunk_paths(chunks.client_chunks@)
                    + chunk_paths(chunks.ssr_chunks@)));
                let client_module_id = ModuleId::from(&reference.client_asset.id);
                let ssr_module_id = ModuleId::from(&reference.ssr_asset.id);
                let client_chunks_paths = relative_chunk_paths(client_root, &chunks.client_chunks);
                let ssr_chunks_paths = relative_chunk_paths(node_root, &chunks.ssr_chunks);
                client_reference_manifest.add_ecmascript_reference(
                    reference.server_ident.path.path.as_str(),
                    &reference.client_asset.exports,
                    &client_module_id,
                    &ssr_module_id,
                    &client_chunks_paths,
                    &ssr_chunks_paths,
                );
            },
            ClientReferenceType::CssClientReference(_) => {
                extend_chunks(all_chunks, &chunks.client_chunks);
            },
        }
        i = i + 1;
    }
    let ghost with_modules = client_reference_manifest@;
    let mut r: usize = 0;
    while r < app_client_references.len()
        invariant
            r <= app_client_references@.len(),
            chunks_map_entries(map) == entries,
            distinct_keys(entries),
            !lookup_fails(app_client_references@, entries),
            client_reference_manifest.wf(),
            client_reference_manifest@ == manifest_with_references(
                with_modules,
                app_client_references@,
                entries,
                client_root@,
                r as nat,
            ),
        decreases app_client_references@.len() - r,
    {
        let reference = &app_client_references[r];
        match &reference.server_component {
            Some(server_component) => {
                let key = reference.ty.key();
                match chunks_map_get(&map, &key) {
                    Some(chunks) => {
                        proof {
                            let found = choose|i: int|
                                key_at(entries, reference.ty.key_spec(), i) && entries[i].1
                                    == chunks@;
                            let chosen = choose|i: int|
                                key_at(entries, reference.ty.key_spec(), i);
                            assert(key_at(entries, reference.ty.key_spec(), found));
                            assert(found == chosen);
                        }
                        let entry_name = server_component.server_path().without_extension();
                        let paths = match &reference.ty {
                            ClientReferenceType::CssClientReference(_) => relative_chunk_paths(
                                client_root,
                                &chunks.client_chunks,
                            ),
                            ClientReferenceType::EcmascriptClientReference(_) => {
                                relative_stylesheet_chunk_paths(client_root, &chunks.client_chunks)
                            },
                        };
                        client_reference_manifest.add_entry_css_files(
                            entry_name.path.as_str(),
                            &paths,
                        );
                    },
                    None => {
                        assert(app_client_references@[r as int].server_component is Some);
                        assert(false);
                    },
                }
            },
            None => {},
        }
        r = r + 1;
    }
    Ok(map)
}

/// In the map from boundaries to chunks, a stylesheet boundary has no chunks
/// for server rendering.
pub proof fn lemma_stylesheets_have_no_ssr_chunks(
    types: Seq<ClientReferenceType>,
    resolved: Seq<ClientReferenceChunks>,
    n: nat,
    i: int,
)
    requires
        0 <= i < entries_of(types, resolved, n).len(),
        entries_of(types, resolved, n)[i].0.0,
    ensures
        entries_of(types, resolved, n)[i].1.ssr_chunks == Seq::<Seq<char>>::empty(),
    decreases n,
{
    if n > 0 {
        let before = entries_of(types, resolved, (n - 1) as nat);
        let key = types[n - 1].key_spec();
        let value = stored_chunks(types[n - 1], resolved[n - 1]@);
        let after = with_entry(before, key, value);
        if has_key(before, key) {
            let at = choose|j: int| key_at(before, key, j);
            if i != at {
                assert(after[i] == before[i]);
                lemma_stylesheets_have_no_ssr_chunks(types, resolved, (n - 1) as nat, i);
            }
        } else {
            if i < before.len() {
                assert(after[i] == before[i]);
                lemma_stylesheets_have_no_ssr_chunks(types, resolved, (n - 1) as nat, i);
            }
        }
    }
}

/// After a script boundary was recorded, the mapping of its client module
/// holds exactly the recorded exports, each of them has its record in the
/// client modules under its manifest key, and both hold the record of `*`.
pub proof fn lemma_mapping_mirrors_client_modules(
    manifest: ClientReferenceManifestView,
    server_path: Seq<char>,
    exports: EcmascriptExportsView,
    client_id: ModuleIdView,
    ssr_id: ModuleIdView,
    client_chunks: Seq<Seq<char>>,
    ssr_chunks: Seq<Seq<char>>,
)
    ensures
        ({
            let after = manifest.with_ecmascript_reference(
                server_path,
                exports,
                client_id,
                ssr_id,
                client_chunks,
                ssr_chunks,
            );
            let star = seq!['*'];
            &&& after.ssr_module_mapping.contains_key(client_id)
            &&& after.client_modules.contains_key(server_path)
            &&& after.client_modules[server_path] == entry_for(star, client_id, client_chunks)
            &&& after.ssr_module_mapping[client_id].contains_key(star)
            &&& after.ssr_module_mapping[client_id][star] == entry_for(star, ssr_id, ssr_chunks)
            &&& forall|name: Seq<char>|
                recorded_exports(exports).contains(name) <==> #[trigger] after.ssr_module_mapping[client_id].contains_key(
                    name,
                )
            &&& forall|name: Seq<char>| #[trigger]
                recorded_exports(exports).contains(name) ==> {
                    &&& after.client_modules.contains_key(manifest_key(server_path, name))
                    &&& after.client_modules[manifest_key(server_path, name)] == entry_for(
                        name,
                        client_id,
                        client_chunks,
                    )
                    &&& after.ssr_module_mapping[client_id][name] == entry_for(
                        name,
                        ssr_id,
                        ssr_chunks,
                    )
                }
        }),
{
    let names = recorded_exports(exports);
    let star = seq!['*'];
    assert(names[names.len() - 1] == star);
    assert(names.contains(star));
    assert(manifest_key(server_path, star) == server_path);
    assert forall|name: Seq<char>| names.contains(name) implies names_have_key(
        server_path,
        names,
        manifest_key(server_path, name),
    ) && export_of_key(server_path, manifest_key(server_path, name)) == name by {
        let i = choose|i: int| 0 <= i < names.len() && names[i] == name;
        assert(manifest_key(server_path, names[i]) == manifest_key(server_path, name));
        lemma_export_of_key(server_path, name);
    }
}

/// Recording the same script boundary a second time changes nothing: every
/// record it wrote is written again with the same id and the same chunks in
/// the same order.
pub proof fn lemma_recording_is_idempotent(
    manifest: ClientReferenceManifestView,
    server_path: Seq<char>,
    exports: EcmascriptExportsView,
    client_id: ModuleIdView,
    ssr_id: ModuleIdView,
    client_chunks: Seq<Seq<char>>,
    ssr_chunks: Seq<Seq<char>>,
)
    ensures
        manifest.with_ecmascript_reference(
            server_path,
            exports,
            client_id,
            ssr_id,
            client_chunks,
            ssr_chunks,
        ).with_ecmascript_reference(
            server_path,
            exports,
            client_id,
            ssr_id,
            client_chunks,
            ssr_chunks,
        ) == manifest.with_ecmascript_reference(
            server_path,
            exports,
            client_id,
            ssr_id,
            client_chunks,
            ssr_chunks,
        ),
{
    let once = manifest.with_ecmascript_reference(
        server_path,
        exports,
        client_id,
        ssr_id,
        client_chunks,
        ssr_chunks,
    );
    let twice = once.with_ecmascript_reference(
        server_path,
        exports,
        client_id,
        ssr_id,
        client_chunks,
        ssr_chunks,
    );
    assert(twice.client_modules =~= once.client_modules);
    assert(twice.ssr_module_mapping =~= once.ssr_module_mapping);
}

/// The id under which the manifest knows the client module of a boundary.
pub open spec fn client_id_of(ty: ClientReferenceType) -> ModuleIdView
    recommends
        ty is EcmascriptClientReference,
{
    manifest_id(ty->EcmascriptClientReference_0.client_asset.id@)
}

/// No boundary after the `i`-th among the first `n` has the client module of
/// the `i`-th.
pub open spec fn client_module_not_recorded_again(
    types: Seq<ClientReferenceType>,
    i: int,
    n: nat,
) -> bool {
    forall|j: int|
        i < j < n && (#[trigger] types[j]) is EcmascriptClientReference ==> client_id_of(types[j])
            != client_id_of(types[i])
}

/// After the first `n` boundaries were recorded, each script boundary among
/// them has in the client modules a record for each of its recorded exports,
/// and a mapping for its client module that holds the record of `*`. Where no
/// later boundary has the same client module, that mapping holds a record for
/// each of the exports too.
pub proof fn lemma_recorded_boundaries_are_mirrored(
    manifest: ClientReferenceManifestView,
    types: Seq<ClientReferenceType>,
    resolved: Seq<ClientReferenceChunks>,
    client_root: Seq<char>,
    node_root: Seq<char>,
    n: nat,
    i: int,
    name: Seq<char>,
)
    requires
        0 <= i < n <= types.len(),
        types[i] is EcmascriptClientReference,
        recorded_exports(types[i]->EcmascriptClientReference_0.client_asset.exports@).contains(
            name,
        ),
    ensures
        ({
            let after = manifest_with_types(manifest, types, resolved, client_root, node_root, n);
            let reference = types[i]->EcmascriptClientReference_0;
            let id = client_id_of(types[i]);
            &&& after.client_modules.contains_key(manifest_key(reference.server_ident@.path, name))
            &&& after.client_modules.contains_key(reference.server_ident@.path)
            &&& after.ssr_module_mapping.contains_key(id)
            &&& after.ssr_module_mapping[id].contains_key(seq!['*'])
            &&& client_module_not_recorded_again(types, i, n)
                ==> after.ssr_module_mapping[id].contains_key(name)
        }),
    decreases n,
{
    let before = manifest_with_types(
        manifest,
        types,
        resolved,
        client_root,
        node_root,
        (n - 1) as nat,
    );
    let last = types[n - 1];
    match last {
        ClientReferenceType::EcmascriptClientReference(reference) => {
            lemma_mapping_mirrors_client_modules(
                before,
                reference.server_ident@.path,
                reference.client_asset.exports@,
                manifest_id(reference.client_asset.id@),
                manifest_id(reference.ssr_asset.id@),
                relative_paths(client_root, resolved[n - 1]@.client_chunks),
                relative_paths(node_root, resolved[n - 1]@.ssr_chunks),
            );
            if i < n - 1 {
                lemma_recorded_boundaries_are_mirrored(
                    manifest,
                    types,
                    resolved,
                    client_root,
                    node_root,
                    (n - 1) as nat,
                    i,
                    name,
                );
                if client_module_not_recorded_again(types, i, n) {
                    assert(client_id_of(types[n - 1]) != client_id_of(types[i]));
                    assert(client_module_not_recorded_again(types, i, (n - 1) as nat));
                }
            }
        },
        ClientReferenceType::CssClientReference(_) => {
            lemma_recorded_boundaries_are_mirrored(
                manifest,
                types,
                resolved,
                client_root,
                node_root,
                (n - 1) as nat,
                i,
                name,
            );
            if client_module_not_recorded_again(types, i, n) {
                assert(client_module_not_recorded_again(types, i, (n - 1) as nat));
            }
        },
    }
}

/// Recording the stylesheets of routes changes no record of a module.
pub proof fn lemma_stylesheets_keep_modules(
    manifest: ClientReferenceManifestView,
    references: Seq<ClientReference>,
    entries: ChunkEntries,
    client_root: Seq<char>,
    n: nat,
)
    ensures
        manifest_with_references(manifest, references, entries, client_root, n).client_modules
            == manifest.client_modules,
        manifest_with_references(manifest, references, entries, client_root, n).ssr_module_mapping
            == manifest.ssr_module_mapping,
    decreases n,
{
    if n > 0 {
        lemma_stylesheets_keep_modules(manifest, references, entries, client_root, (n - 1) as nat);
    }
}

/// In the manifest that the aggregation leaves, each script boundary has in
/// the client modules a record for each of its recorded exports and for `*`,
/// and a mapping for its client module that holds the record of `*`. Where no
/// later boundary has the same client module, that mapping holds a record for
/// each of the exports too.
pub proof fn lemma_computed_manifest_is_mirrored(
    manifest: ClientReferenceManifestView,
    references: Seq<ClientReference>,
    types: Seq<ClientReferenceType>,
    resolved: Seq<ClientReferenceChunks>,
    client_root: Seq<char>,
    node_root: Seq<char>,
    i: int,
    name: Seq<char>,
)
    requires
        0 <= i < types.len(),
        types[i] is EcmascriptClientReference,
        recorded_exports(types[i]->EcmascriptClientReference_0.client_asset.exports@).contains(
            name,
        ),
    ensures
        ({
            let after = manifest_with_references(
                manifest_with_types(
                    manifest,
                    types,
                    resolved,
                    client_root,
                    node_root,
                    types.len(),
                ),
                references,
                entries_of(types, resolved, types.len()),
                client_root,
                references.len(),
            );
            let reference = types[i]->EcmascriptClientReference_0;
            let id = client_id_of(types[i]);
            &&& after.client_modules.contains_key(manifest_key(reference.server_ident@.path, name))
            &&& after.client_modules.contains_key(reference.server_ident@.path)
            &&& after.ssr_module_mapping.contains_key(id)
            &&& after.ssr_module_mapping[id].contains_key(seq!['*'])
            &&& client_module_not_recorded_again(types, i, types.len())
                ==> after.ssr_module_mapping[id].contains_key(name)
        }),
{
    lemma_recorded_boundaries_are_mirrored(
        manifest,
        types,
        resolved,
        client_root,
        node_root,
        types.len(),
        i,
        name,
    );
    lemma_stylesheets_keep_modules(
        manifest_with_types(manifest, types, resolved, client_root, node_root, types.len()),
        references,
        entries_of(types, resolved, types.len()),
        client_root,
        references.len(),
    );
}

} // verus!
