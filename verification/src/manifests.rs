//! The manifests that the runtime loader reads, and how entries enter them.

use vstd::prelude::*;
use vstd::string::*;
use vstd::std_specs::convert::FromSpecImpl;
use crate::ident::texts;
use crate::module::{EcmascriptExports, EcmascriptExportsView};
use crate::ordered_map::{MapKey, OrderedMap};

verus! {

/// The id of a module as the manifests record it.
#[derive(Debug, PartialEq, Eq)]
pub enum ModuleId {
    String(String),
    Number(u64),
}

pub enum ModuleIdView {
    String(Seq<char>),
    Number(u64),
}

impl View for ModuleId {
    type V = ModuleIdView;

    open spec fn view(&self) -> ModuleIdView {
        match self {
            ModuleId::String(string) => ModuleIdView::String(string@),
            ModuleId::Number(number) => ModuleIdView::Number(*number),
        }
    }
}

/// The manifest's id for a chunk item id: the same string, or the same number.
pub open spec fn manifest_id(id: crate::chunk::ModuleIdView) -> ModuleIdView {
    match id {
        crate::chunk::ModuleIdView::String(string) => ModuleIdView::String(string),
        crate::chunk::ModuleIdView::Number(number) => ModuleIdView::Number(number as u64),
    }
}

impl<'a> From<&'a crate::chunk::ModuleId> for ModuleId {
    fn from(module_id: &'a crate::chunk::ModuleId) -> (id: ModuleId) {
        match module_id {
            crate::chunk::ModuleId::String(string) => ModuleId::String(string.clone()),
            crate::chunk::ModuleId::Number(number) => ModuleId::Number(*number as u64),
        }
    }
}

impl<'a> FromSpecImpl<&'a crate::chunk::ModuleId> for ModuleId {
    open spec fn obeys_from_spec() -> bool {
        true
    }

    open spec fn from_spec(module_id: &'a crate::chunk::ModuleId) -> ModuleId {
        match module_id {
            crate::chunk::ModuleId::String(string) => ModuleId::String(*string),
            crate::chunk::ModuleId::Number(number) => ModuleId::Number(*number as u64),
        }
    }
}

impl ModuleId {
    pub fn duplicate(&self) -> (id: ModuleId)
        ensures
            id@ == self@,
    {
        match self {
            ModuleId::String(string) => ModuleId::String(string.clone()),
            ModuleId::Number(number) => ModuleId::Number(*number),
        }
    }
}

impl MapKey for ModuleId {
    fn same_key(&self, other: &ModuleId) -> (same: bool) {
        match (self, other) {
            (ModuleId::String(a), ModuleId::String(b)) => *a == *b,
            (ModuleId::Number(a), ModuleId::Number(b)) => *a == *b,
            _ => false,
        }
    }
}

/// One record of a manifest: an export of a module and the chunks that load it.
#[derive(Debug, PartialEq, Eq)]
pub struct ManifestNodeEntry {
    pub name: String,
    pub id: ModuleId,
    pub chunks: Vec<String>,
    pub is_async: bool,
}

pub struct ManifestNodeEntryView {
    pub name: Seq<char>,
    pub id: ModuleIdView,
    pub chunks: Seq<Seq<char>>,
    pub is_async: bool,
}

impl View for ManifestNodeEntry {
    type V = ManifestNodeEntryView;

    open spec fn view(&self) -> ManifestNodeEntryView {
        ManifestNodeEntryView {
            name: self.name@,
            id: self.id@,
            chunks: texts(self.chunks@),
            is_async: self.is_async,
        }
    }
}

/// The record of the export `name` of the module `id`, loaded by `chunks`.
pub open spec fn entry_for(
    name: Seq<char>,
    id: ModuleIdView,
    chunks: Seq<Seq<char>>,
) -> ManifestNodeEntryView {
    ManifestNodeEntryView { name, id, chunks, is_async: false }
}

/// The key of an export in the client modules: the server path for the whole
/// module, else the server path, `#` and the export's name.
pub open spec fn manifest_key(server_path: Seq<char>, export_name: Seq<char>) -> Seq<char> {
    if export_name == seq!['*'] {
        server_path
    } else {
        server_path + seq!['#'] + export_name
    }
}

/// The export that `key` stands for among the keys of `server_path`.
pub open spec fn export_of_key(server_path: Seq<char>, key: Seq<char>) -> Seq<char> {
    if key == server_path {
        seq!['*']
    } else {
        key.skip(server_path.len() as int + 1)
    }
}

/// `at` is the place of the first `#` of `key`.
pub open spec fn first_hash(key: Seq<char>, at: int) -> bool {
    &&& 0 <= at < key.len()
    &&& key[at] == '#'
    &&& forall|j: int| 0 <= j < at ==> key[j] != '#'
}

/// The export name that a key holds: what follows its first `#`, or `*` for a
/// key without one.
pub open spec fn split_key(key: Seq<char>) -> Seq<char> {
    if exists|at: int| first_hash(key, at) {
        key.skip((choose|at: int| first_hash(key, at)) + 1)
    } else {
        seq!['*']
    }
}

/// A key gives its export back to one who knows the server path.
pub proof fn lemma_export_of_key(server_path: Seq<char>, export_name: Seq<char>)
    ensures
        export_of_key(server_path, manifest_key(server_path, export_name)) == export_name,
{
    let key = manifest_key(server_path, export_name);
    if export_name != seq!['*'] {
        assert(key.len() == server_path.len() + 1 + export_name.len());
        assert(key.skip(server_path.len() as int + 1) =~= export_name);
    }
}

/// The key of the whole module is its server path, the key of a named export
/// is the path, `#` and the name; and where the server path holds no `#`, the
/// export's name is what follows the first `#` of its key.
pub proof fn lemma_manifest_key_round_trip(server_path: Seq<char>, export_name: Seq<char>)
    requires
        !server_path.contains('#'),
    ensures
        manifest_key(server_path, seq!['*']) == server_path,
        export_name != seq!['*'] ==> manifest_key(server_path, export_name) == server_path
            + seq!['#'] + export_name,
        split_key(manifest_key(server_path, export_name)) == export_name,
{
    let key = manifest_key(server_path, export_name);
    if export_name != seq!['*'] {
        let at = server_path.len() as int;
        assert(key[at] == '#');
        assert forall|j: int| 0 <= j < at implies key[j] != '#' by {
            assert(key[j] == server_path[j]);
        }
        assert(first_hash(key, at));
        let first = choose|first: int| first_hash(key, first);
        assert(first == at);
        assert(key.skip(at + 1) =~= export_name);
    } else {
        assert forall|at: int| !first_hash(key, at) by {
            if first_hash(key, at) {
                assert(server_path[at] == '#');
            }
        }
    }
}

/// The records of one module, keyed by export.
pub type NodeView = Map<Seq<char>, ManifestNodeEntryView>;

/// The records of one module, keyed by export: by manifest key in the client
/// modules, by export name in the mapping of a module.
#[derive(Debug, PartialEq, Eq)]
pub struct ManifestNode {
    pub module_exports: OrderedMap<String, ManifestNodeEntry>,
}

impl View for ManifestNode {
    type V = NodeView;

    open spec fn view(&self) -> NodeView {
        Map::new(
            |k: Seq<char>| self.module_exports.model().contains_key(k),
            |k: Seq<char>| self.module_exports.model()[k]@,
        )
    }
}

impl ManifestNode {
    pub open spec fn wf(&self) -> bool {
        self.module_exports.wf()
    }

    pub fn is_wf(&self) -> (ok: bool)
        ensures
            ok == self.wf(),
    {
        self.module_exports.is_wf()
    }

    pub fn new() -> (node: ManifestNode)
        ensures
            node.wf(),
            node@ == Map::<Seq<char>, ManifestNodeEntryView>::empty(),
    {
        let node = ManifestNode { module_exports: OrderedMap::new() };
        assert(node@ =~= Map::<Seq<char>, ManifestNodeEntryView>::empty());
        node
    }

    /// Records `entry` under `key`, in place of what stood there.
    pub fn insert(&mut self, key: String, entry: ManifestNodeEntry)
        requires
            old(self).wf(),
        ensures
            final(self).wf(),
            final(self)@ == old(self)@.insert(key@, entry@),
    {
        self.module_exports.insert(key, entry);
        assert(self@ =~= old(self)@.insert(key@, entry@));
    }

    /// The record under `key`.
    pub fn get(&self, key: &str) -> (entry: Option<&ManifestNodeEntry>)
        requires
            self.wf(),
        ensures
            match entry {
                Some(e) => self@.contains_key(key@) && self@[key@] == e@,
                None => !self@.contains_key(key@),
            },
    {
        let key = String::from_str(key);
        self.module_exports.get(&key)
    }

    pub fn len(&self) -> (n: usize)
        requires
            self.wf(),
        ensures
            n == self.module_exports.key_order().len(),
    {
        self.module_exports.len()
    }
}

/// Some name of `names` has the key `key` under `server_path`.
pub open spec fn names_have_key(
    server_path: Seq<char>,
    names: Seq<Seq<char>>,
    key: Seq<char>,
) -> bool {
    exists|i: int| 0 <= i < names.len() && manifest_key(server_path, #[trigger] names[i]) == key
}

/// `node` with a record for each export in `names` of the client module `id`,
/// each under its manifest key.
pub open spec fn with_client_entries(
    node: NodeView,
    server_path: Seq<char>,
    names: Seq<Seq<char>>,
    id: ModuleIdView,
    chunks: Seq<Seq<char>>,
) -> NodeView {
    Map::new(
        |k: Seq<char>| node.contains_key(k) || names_have_key(server_path, names, k),
        |k: Seq<char>|
            if names_have_key(server_path, names, k) {
                entry_for(export_of_key(server_path, k), id, chunks)
            } else {
                node[k]
            },
    )
}

/// `node` with a record for each export in `names` of the module `id`, each
/// under the export's name.
pub open spec fn with_export_entries(
    node: NodeView,
    names: Seq<Seq<char>>,
    id: ModuleIdView,
    chunks: Seq<Seq<char>>,
) -> NodeView {
    Map::new(
        |k: Seq<char>| node.contains_key(k) || names.contains(k),
        |k: Seq<char>|
            if names.contains(k) {
                entry_for(k, id, chunks)
            } else {
                node[k]
            },
    )
}

/// Recording one more export is one insertion under its manifest key.
pub proof fn lemma_client_entries_push(
    node: NodeView,
    server_path: Seq<char>,
    names: Seq<Seq<char>>,
    name: Seq<char>,
    id: ModuleIdView,
    chunks: Seq<Seq<char>>,
)
    ensures
        with_client_entries(node, server_path, names.push(name), id, chunks)
            == with_client_entries(node, server_path, names, id, chunks).insert(
            manifest_key(server_path, name),
            entry_for(name, id, chunks),
        ),
{
    let more = names.push(name);
    let left = with_client_entries(node, server_path, more, id, chunks);
    let right = with_client_entries(node, server_path, names, id, chunks).insert(
        manifest_key(server_path, name),
        entry_for(name, id, chunks),
    );
    lemma_export_of_key(server_path, name);
    assert(more[names.len() as int] == name);
    assert forall|k: Seq<char>|
        names_have_key(server_path, more, k) <==> (names_have_key(server_path, names, k) || k
            == manifest_key(server_path, name)) by {
        if names_have_key(server_path, names, k) {
            let i = choose|i: int|
                0 <= i < names.len() && manifest_key(server_path, #[trigger] names[i]) == k;
            assert(more[i] == names[i]);
        }
        if names_have_key(server_path, more, k) {
            let i = choose|i: int|
                0 <= i < more.len() && manifest_key(server_path, #[trigger] more[i]) == k;
            if i < names.len() {
                assert(more[i] == names[i]);
            }
        }
    }
    assert(left =~= right);
}

/// Recording one more export is one insertion under its name.
pub proof fn lemma_export_entries_push(
    node: NodeView,
    names: Seq<Seq<char>>,
    name: Seq<char>,
    id: ModuleIdView,
    chunks: Seq<Seq<char>>,
)
    ensures
        with_export_entries(node, names.push(name), id, chunks) == with_export_entries(
            node,
            names,
            id,
            chunks,
        ).insert(name, entry_for(name, id, chunks)),
{
    let more = names.push(name);
    assert(more[names.len() as int] == name);
    assert forall|k: Seq<char>| more.contains(k) <==> (names.contains(k) || k == name) by {
        if names.contains(k) {
            let i = choose|i: int| 0 <= i < names.len() && names[i] == k;
            assert(more[i] == k);
        }
        if more.contains(k) {
            let i = choose|i: int| 0 <= i < more.len() && more[i] == k;
            if i < names.len() {
                assert(names[i] == k);
            }
        }
    }
    assert(with_export_entries(node, more, id, chunks) =~= with_export_entries(
        node,
        names,
        id,
        chunks,
    ).insert(name, entry_for(name, id, chunks)));
}

/// The exports that get a record: the named ones of a statically analyzable
/// module, and after them `*` for the module as a whole.
pub open spec fn recorded_exports(exports: EcmascriptExportsView) -> Seq<Seq<char>> {
    match exports {
        EcmascriptExportsView::EsmExports { names, has_star_export } => names.push(seq!['*']),
        _ => seq![seq!['*']],
    }
}

/// `list` followed by the members of `paths` that it lacks, each once, in
/// their order.
pub open spec fn union_in_order(list: Seq<Seq<char>>, paths: Seq<Seq<char>>) -> Seq<Seq<char>>
    decreases paths.len(),
{
    if paths.len() == 0 {
        list
    } else {
        let before = union_in_order(list, paths.drop_last());
        if before.contains(paths.last()) {
            before
        } else {
            before.push(paths.last())
        }
    }
}

pub struct ClientReferenceManifestView {
    pub client_modules: NodeView,
    pub ssr_module_mapping: Map<ModuleIdView, NodeView>,
    pub entry_css_files: Map<Seq<char>, Seq<Seq<char>>>,
}

impl ClientReferenceManifestView {
    /// The manifest after one script boundary was recorded: a record in the
    /// client modules for each recorded export, and a fresh mapping for the
    /// client module with a record of the server-rendering module for each of
    /// the same exports.
    pub open spec fn with_ecmascript_reference(
        self,
        server_path: Seq<char>,
        exports: EcmascriptExportsView,
        client_id: ModuleIdView,
        ssr_id: ModuleIdView,
        client_chunks: Seq<Seq<char>>,
        ssr_chunks: Seq<Seq<char>>,
    ) -> ClientReferenceManifestView {
        ClientReferenceManifestView {
            client_modules: with_client_entries(
                self.client_modules,
                server_path,
                recorded_exports(exports),
                client_id,
                client_chunks,
            ),
            ssr_module_mapping: self.ssr_module_mapping.insert(
                client_id,
                with_export_entries(Map::empty(), recorded_exports(exports), ssr_id, ssr_chunks),
            ),
            entry_css_files: self.entry_css_files,
        }
    }

    /// The stylesheets of the route `entry_name`, before any was recorded: none.
    pub open spec fn css_files_of(self, entry_name: Seq<char>) -> Seq<Seq<char>> {
        if self.entry_css_files.contains_key(entry_name) {
            self.entry_css_files[entry_name]
        } else {
            Seq::empty()
        }
    }

    /// The manifest after `paths` were recorded as stylesheets of the route
    /// `entry_name`.
    pub open spec fn with_entry_css_files(
        self,
        entry_name: Seq<char>,
        paths: Seq<Seq<char>>,
    ) -> ClientReferenceManifestView {
        ClientReferenceManifestView {
            client_modules: self.client_modules,
            ssr_module_mapping: self.ssr_module_mapping,
            entry_css_files: self.entry_css_files.insert(
                entry_name,
                union_in_order(self.css_files_of(entry_name), paths),
            ),
        }
    }
}

/// Whether `list` holds a string equal to `wanted`.
pub fn contains_text(list: &Vec<String>, wanted: &String) -> (found: bool)
    ensures
        found == texts(list@).contains(wanted@),
{
    let mut i: usize = 0;
    while i < list.len()
        invariant
            i <= list@.len(),
            forall|j: int| 0 <= j < i ==> list@[j]@ != wanted@,
        decreases list@.len() - i,
    {
        if list[i] == *wanted {
            assert(texts(list@)[i as int] == wanted@);
            return true;
        }
        i = i + 1;
    }
    assert forall|j: int| 0 <= j < texts(list@).len() implies texts(list@)[j] != wanted@ by {
        assert(texts(list@)[j] == list@[j]@);
    }
    false
}

/// The record of the export `name` of the module `id`, loaded by `chunks`.
pub fn new_entry(name: &str, id: &ModuleId, chunks: &Vec<String>) -> (entry: ManifestNodeEntry)
    ensures
        entry@ == entry_for(name@, id@, texts(chunks@)),
{
    let copy = chunks.clone();
    assert(copy@ =~= chunks@);
    ManifestNodeEntry {
        name: String::from_str(name),
        id: id.duplicate(),
        chunks: copy,
        is_async: false,
    }
}

/// The key of an export in the client modules.
pub fn get_client_reference_module_key(server_path: &str, export_name: &str) -> (key: String)
    ensures
        key@ == manifest_key(server_path@, export_name@),
{
    let whole = export_name.unicode_len() == 1 && export_name.get_char(0) == '*';
    assert(whole == (export_name@ =~= seq!['*']));
    if whole {
        String::from_str(server_path)
    } else {
        proof {
            reveal_strlit("#");
            assert("#"@ =~= seq!['#']);
        }
        String::from_str(server_path).concat("#").concat(export_name)
    }
}

/// Which compiled modules and chunks load each server-to-client boundary.
#[derive(Debug, PartialEq, Eq)]
pub struct ClientReferenceManifest {
    pub client_modules: ManifestNode,
    pub ssr_module_mapping: OrderedMap<ModuleId, ManifestNode>,
    pub entry_css_files: OrderedMap<String, Vec<String>>,
}

impl View for ClientReferenceManifest {
    type V = ClientReferenceManifestView;

    open spec fn view(&self) -> ClientReferenceManifestView {
        ClientReferenceManifestView {
            client_modules: self.client_modules@,
            ssr_module_mapping: Map::new(
                |k: ModuleIdView| self.ssr_module_mapping.model().contains_key(k),
                |k: ModuleIdView| self.ssr_module_mapping.model()[k]@,
            ),
            entry_css_files: Map::new(
                |k: Seq<char>| self.entry_css_files.model().contains_key(k),
                |k: Seq<char>| texts(self.entry_css_files.model()[k]@),
            ),
        }
    }
}

impl ClientReferenceManifest {
    pub open spec fn wf(&self) -> bool {
        &&& self.client_modules.wf()
        &&& self.ssr_module_mapping.wf()
        &&& self.entry_css_files.wf()
        &&& forall|k: ModuleIdView| #[trigger]
            self.ssr_module_mapping.model().contains_key(k)
                ==> self.ssr_module_mapping.model()[k].wf()
    }

    /// Whether the manifest is well formed: in each of its maps every key has
    /// its value and occurs once.
    pub fn is_wf(&self) -> (ok: bool)
        ensures
            ok == self.wf(),
    {
        if !self.client_modules.is_wf() || !self.ssr_module_mapping.is_wf()
            || !self.entry_css_files.is_wf() {
            return false;
        }
        let mut i: usize = 0;
        while i < self.ssr_module_mapping.values.len()
            invariant
                self.ssr_module_mapping.wf(),
                i <= self.ssr_module_mapping.values@.len(),
                forall|j: int| 0 <= j < i ==> (#[trigger] self.ssr_module_mapping.values@[j]).wf(),
            decreases self.ssr_module_mapping.values@.len() - i,
        {
            if !self.ssr_module_mapping.values[i].is_wf() {
                proof {
                    self.ssr_module_mapping.lemma_value_at(i as int);
                }
                return false;
            }
            i = i + 1;
        }
        assert forall|k: ModuleIdView| #[trigger]
            self.ssr_module_mapping.model().contains_key(k) implies self.ssr_module_mapping.model()[k].wf() by {
            let at = self.ssr_module_mapping.key_order().index_of(k);
            assert(self.ssr_module_mapping.key_order()[at] == k);
            assert(self.ssr_module_mapping.values@[at].wf());
        }
        true
    }

    /// A manifest without records.
    pub fn new() -> (manifest: ClientReferenceManifest)
        ensures
            manifest.wf(),
            manifest@ == (ClientReferenceManifestView {
                client_modules: Map::empty(),
                ssr_module_mapping: Map::empty(),
                entry_css_files: Map::empty(),
            }),
    {
        let manifest = ClientReferenceManifest {
            client_modules: ManifestNode::new(),
            ssr_module_mapping: OrderedMap::new(),
            entry_css_files: OrderedMap::new(),
        };
        assert(manifest@.ssr_module_mapping =~= Map::empty());
        assert(manifest@.entry_css_files =~= Map::empty());
        manifest
    }

    /// Records one script boundary: each recorded export of the client module
    /// under its manifest key, and a fresh mapping for the client module that
    /// holds the server-rendering module under the same exports.
    pub fn add_ecmascript_reference(
        &mut self,
        server_path: &str,
        exports: &EcmascriptExports,
        client_id: &ModuleId,
        ssr_id: &ModuleId,
        client_chunks: &Vec<String>,
        ssr_chunks: &Vec<String>,
    )
        requires
            old(self).wf(),
        ensures
            final(self).wf(),
            final(self)@ == old(self)@.with_ecmascript_reference(
                server_path@,
                exports@,
                client_id@,
                ssr_id@,
                texts(client_chunks@),
                texts(ssr_chunks@),
            ),
    {
        let mut ssr_node = ManifestNode::new();
        let ghost mut done: Seq<Seq<char>> = Seq::empty();
        assert(self.client_modules@ =~= with_client_entries(
            old(self).client_modules@,
            server_path@,
            done,
            client_id@,
            texts(client_chunks@),
        ));
        assert(ssr_node@ =~= with_export_entries(Map::empty(), done, ssr_id@, texts(ssr_chunks@)));
        match exports {
            EcmascriptExports::EsmExports { names, has_star_export } => {
                let mut i: usize = 0;
                while i < names.len()
                    invariant
                        i <= names@.len(),
                        self.client_modules.wf(),
                        ssr_node.wf(),
                        self.ssr_module_mapping == old(self).ssr_module_mapping,
                        self.entry_css_files == old(self).entry_css_files,
                        done == texts(names@).take(i as int),
                        self.client_modules@ == with_client_entries(
                            old(self).client_modules@,
                            server_path@,
                            done,
                            client_id@,
                            texts(client_chunks@),
                        ),
                        ssr_node@ == with_export_entries(
                            Map::empty(),
                            done,
                            ssr_id@,
                            texts(ssr_chunks@),
                        ),
                    decreases names@.len() - i,
                {
                    let name = names[i].as_str();
                    proof {
                        lemma_client_entries_push(
                            old(self).client_modules@,
                            server_path@,
                            done,
                            name@,
                            client_id@,
                            texts(client_chunks@),
                        );
                        lemma_export_entries_push(
                            Map::empty(),
                            done,
                            name@,
                            ssr_id@,
                            texts(ssr_chunks@),
                        );
                        assert(texts(names@).take(i + 1) =~= done.push(name@));
                        done = done.push(name@);
                    }
                    self.client_modules.insert(
                        get_client_reference_module_key(server_path, name),
                        new_entry(name, client_id, client_chunks),
                    );
                    ssr_node.insert(String::from_str(name), new_entry(name, ssr_id, ssr_chunks));
                    i = i + 1;
                }
                assert(done =~= texts(names@));
            },
            _ => {},
        }
        proof {
            reveal_strlit("*");
            assert("*"@ =~= seq!['*']);
            lemma_client_entries_push(
                old(self).client_modules@,
                server_path@,
                done,
                "*"@,
                client_id@,
                texts(client_chunks@),
            );
            lemma_export_entries_push(Map::empty(), done, "*"@, ssr_id@, texts(ssr_chunks@));
            assert(recorded_exports(exports@) =~= done.push("*"@));
        }
        self.client_modules.insert(
            get_client_reference_module_key(server_path, "*"),
            new_entry("*", client_id, client_chunks),
        );
        ssr_node.insert(String::from_str("*"), new_entry("*", ssr_id, ssr_chunks));
        self.ssr_module_mapping.insert(client_id.duplicate(), ssr_node);
        assert(self@.ssr_module_mapping =~= old(self)@.ssr_module_mapping.insert(
            client_id@,
            ssr_node@,
        ));
        assert(self@.entry_css_files =~= old(self)@.entry_css_files);
    }

    /// Records `paths` as stylesheets of the route `entry_name`, after those it
    /// has; a path that the route already has is not recorded again.
    pub fn add_entry_css_files(&mut self, entry_name: &str, paths: &Vec<String>)
        requires
            old(self).wf(),
        ensures
            final(self).wf(),
            final(self)@ == old(self)@.with_entry_css_files(entry_name@, texts(paths@)),
    {
        let key = String::from_str(entry_name);
        let mut list: Vec<String> = match self.entry_css_files.get(&key) {
            Some(existing) => {
                let copy = existing.clone();
                assert(copy@ =~= existing@);
                copy
            },
            None => Vec::new(),
        };
        assert(texts(list@) =~= old(self)@.css_files_of(entry_name@));
        let mut i: usize = 0;
        assert(texts(paths@).take(0).len() == 0);
        while i < paths.len()
            invariant
                i <= paths@.len(),
                texts(list@) == union_in_order(
                    old(self)@.css_files_of(entry_name@),
                    texts(paths@).take(i as int),
                ),
            decreases paths@.len() - i,
        {
            proof {
                let next = texts(paths@).take(i + 1);
                assert(next.drop_last() =~= texts(paths@).take(i as int));
                assert(next.last() == paths@[i as int]@);
            }
            if !contains_text(&list, &paths[i]) {
                let ghost before = texts(list@);
                list.push(paths[i].clone());
                assert(texts(list@) =~= before.push(paths@[i as int]@));
            }
            i = i + 1;
        }
        assert(texts(paths@).take(paths@.len() as int) =~= texts(paths@));
        self.entry_css_files.insert(key, list);
        assert(self@.entry_css_files =~= old(self)@.entry_css_files.insert(
            entry_name@,
            texts(list@),
        ));
        assert(self@.ssr_module_mapping =~= old(self)@.ssr_module_mapping);
    }
}

/// For each route, the server chunk that renders it.
#[derive(Debug, PartialEq, Eq)]
pub struct PagesManifest {
    pub pages: OrderedMap<String, String>,
}

impl View for PagesManifest {
    type V = Map<Seq<char>, Seq<char>>;

    open spec fn view(&self) -> Map<Seq<char>, Seq<char>> {
        Map::new(
            |k: Seq<char>| self.pages.model().contains_key(k),
            |k: Seq<char>| self.pages.model()[k]@,
        )
    }
}

impl PagesManifest {
    pub open spec fn wf(&self) -> bool {
        self.pages.wf()
    }

    pub fn is_wf(&self) -> (ok: bool)
        ensures
            ok == self.wf(),
    {
        self.pages.is_wf()
    }

    /// A manifest without routes.
    pub fn new() -> (manifest: PagesManifest)
        ensures
            manifest.wf(),
            manifest@ == Map::<Seq<char>, Seq<char>>::empty(),
    {
        let manifest = PagesManifest { pages: OrderedMap::new() };
        assert(manifest@ =~= Map::<Seq<char>, Seq<char>>::empty());
        manifest
    }

    /// Records `asset_path` as the server chunk of the route `pathname`.
    pub fn insert(&mut self, pathname: String, asset_path: String)
        requires
            old(self).wf(),
        ensures
            final(self).wf(),
            final(self)@ == old(self)@.insert(pathname@, asset_path@),
    {
        self.pages.insert(pathname, asset_path);
        assert(self@ =~= old(self)@.insert(pathname@, asset_path@));
    }
}

/// For each route, the client chunks that load it, in order.
#[derive(Debug, PartialEq, Eq)]
pub struct BuildManifest {
    pub pages: OrderedMap<String, Vec<String>>,
}

impl View for BuildManifest {
    type V = Map<Seq<char>, Seq<Seq<char>>>;

    open spec fn view(&self) -> Map<Seq<char>, Seq<Seq<char>>> {
        Map::new(
            |k: Seq<char>| self.pages.model().contains_key(k),
            |k: Seq<char>| texts(self.pages.model()[k]@),
        )
    }
}

/// The chunks that `build` has for the route `pathname`: none before any was
/// recorded.
pub open spec fn chunks_of_route(
    build: Map<Seq<char>, Seq<Seq<char>>>,
    pathname: Seq<char>,
) -> Seq<Seq<char>> {
    if build.contains_key(pathname) {
        build[pathname]
    } else {
        Seq::empty()
    }
}

impl BuildManifest {
    pub open spec fn wf(&self) -> bool {
        self.pages.wf()
    }

    pub fn is_wf(&self) -> (ok: bool)
        ensures
            ok == self.wf(),
    {
        self.pages.is_wf()
    }

    /// A manifest without routes.
    pub fn new() -> (manifest: BuildManifest)
        ensures
            manifest.wf(),
            manifest@ == Map::<Seq<char>, Seq<Seq<char>>>::empty(),
    {
        let manifest = BuildManifest { pages: OrderedMap::new() };
        assert(manifest@ =~= Map::<Seq<char>, Seq<Seq<char>>>::empty());
        manifest
    }

    /// Records `paths` as client chunks of the route `pathname`, after those
    /// it has.
    pub fn extend(&mut self, pathname: String, paths: &Vec<String>)
        requires
            old(self).wf(),
        ensures
            final(self).wf(),
            final(self)@ == old(self)@.insert(
                pathname@,
                chunks_of_route(old(self)@, pathname@) + texts(paths@),
            ),
    {
        let mut list: Vec<String> = match self.pages.get(&pathname) {
            Some(existing) => {
                let copy = existing.clone();
                assert(copy@ =~= existing@);
                copy
            },
            None => Vec::new(),
        };
        assert(texts(list@) =~= chunks_of_route(old(self)@, pathname@));
        let mut i: usize = 0;
        assert(texts(list@) =~= chunks_of_route(old(self)@, pathname@) + texts(paths@).take(0));
        while i < paths.len()
            invariant
                i <= paths@.len(),
                texts(list@) == chunks_of_route(old(self)@, pathname@) + texts(paths@).take(
                    i as int,
                ),
            decreases paths@.len() - i,
        {
            let ghost before = texts(list@);
            list.push(paths[i].clone());
            assert(texts(list@) =~= before.push(paths@[i as int]@));
            assert(texts(list@) =~= chunks_of_route(old(self)@, pathname@) + texts(paths@).take(
                i + 1,
            ));
            i = i + 1;
        }
        assert(texts(paths@).take(paths@.len() as int) =~= texts(paths@));
        self.pages.insert(pathname, list);
        assert(self@ =~= old(self)@.insert(pathname@, texts(list@)));
    }
}

} // verus!
