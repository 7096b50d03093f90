//! The entries of the filesystem-routed pages, and their chunks in the pages
//! and build manifests.

use vstd::prelude::*;
use vstd::string::*;
use crate::chunk::{chunk_paths, Chunk};
use crate::context::{
    ModuleAssetContext, ModuleAssetContextView, ProcessRequest, ProcessRequestView, ReferenceType,
    Target,
};
use crate::error::Error;
use crate::ident::{texts, AssetIdent};
use crate::module::{EcmascriptChunkPlaceable, Module};
use crate::manifests::{chunks_of_route, BuildManifest, PagesManifest};
use crate::next_app::app_client_reference::{extend_chunks, relative_chunk_paths, relative_paths};
use crate::path::{joined, relative_path, FileSystemPath};

verus! {

/// A file of the pages directory: where it lies, and the path that the router
/// knows it by.
#[derive(Debug, PartialEq, Eq)]
pub struct PagesStructureItem {
    pub project_path: FileSystemPath,
    pub next_router_path: FileSystemPath,
}

/// What a file of the pages directory is, as plain values: its project path
/// and its router path.
pub type ItemView = (Seq<char>, Seq<char>);

impl View for PagesStructureItem {
    type V = ItemView;

    open spec fn view(&self) -> ItemView {
        (self.project_path@, self.next_router_path@)
    }
}

impl PagesStructureItem {
    pub fn duplicate(&self) -> (item: PagesStructureItem)
        ensures
            item@ == self@,
    {
        PagesStructureItem {
            project_path: self.project_path.duplicate(),
            next_router_path: self.next_router_path.duplicate(),
        }
    }
}

/// A directory of pages: its files, and its subdirectories.
#[derive(Debug, PartialEq, Eq)]
pub struct PagesDirectoryStructure {
    pub items: Vec<PagesStructureItem>,
    pub children: Vec<PagesDirectoryStructure>,
}

/// The pages of a project: the three special files, the directory of API
/// routes and the directory of pages.
#[derive(Debug, PartialEq, Eq)]
pub struct PagesStructure {
    pub app: PagesStructureItem,
    pub document: PagesStructureItem,
    pub error: PagesStructureItem,
    pub api: Option<PagesDirectoryStructure>,
    pub pages: Option<PagesDirectoryStructure>,
}

/// The views of `items`, in order.
pub open spec fn item_views(items: Seq<PagesStructureItem>) -> Seq<ItemView> {
    Seq::new(items.len(), |i: int| items[i]@)
}

/// The files of the first `n` of `children`, each child with all that lies
/// below it, in order.
pub open spec fn children_items(children: Seq<PagesDirectoryStructure>, n: nat) -> Seq<ItemView>
    decreases children, n,
{
    if n == 0 || n > children.len() {
        Seq::empty()
    } else {
        children_items(children, (n - 1) as nat) + directory_items(children[n - 1])
    }
}

/// The files of `directory` and after them those of its subdirectories, depth
/// first.
pub open spec fn directory_items(directory: PagesDirectoryStructure) -> Seq<ItemView>
    decreases directory,
{
    item_views(directory.items@) + children_items(
        directory.children@,
        directory.children@.len(),
    )
}

/// Adds copies of `more` to `entries`, after what it holds.
fn push_items(entries: &mut Vec<PagesStructureItem>, more: &Vec<PagesStructureItem>)
    ensures
        item_views(final(entries)@) == item_views(old(entries)@) + item_views(more@),
{
    let mut i: usize = 0;
    assert(item_views(entries@) =~= item_views(old(entries)@) + item_views(more@).take(0));
    while i < more.len()
        invariant
            i <= more@.len(),
            item_views(entries@) == item_views(old(entries)@) + item_views(more@).take(i as int),
        decreases more@.len() - i,
    {
        let ghost before = item_views(entries@);
        entries.push(more[i].duplicate());
        assert(item_views(entries@) =~= before.push(more@[i as int]@));
        assert(item_views(entries@) =~= item_views(old(entries)@) + item_views(more@).take(
            i + 1,
        ));
        i = i + 1;
    }
    assert(item_views(more@).take(more@.len() as int) =~= item_views(more@));
}

/// Adds the files of `pages_structure` to `entries`: its own files first, then
/// those of each subdirectory in turn.
pub fn get_page_entries_for_directory(
    pages_structure: &PagesDirectoryStructure,
    entries: &mut Vec<PagesStructureItem>,
)
    ensures
        item_views(final(entries)@) == item_views(old(entries)@) + directory_items(
            *pages_structure,
        ),
    decreases pages_structure,
{
    push_items(entries, &pages_structure.items);
    let ghost own = item_views(entries@);
    let mut i: usize = 0;
    assert(own + children_items(pages_structure.children@, 0) =~= own);
    while i < pages_structure.children.len()
        invariant
            i <= pages_structure.children@.len(),
            item_views(entries@) == own + children_items(pages_structure.children@, i as nat),
        decreases pages_structure.children@.len() - i,
    {
        let ghost before = item_views(entries@);
        get_page_entries_for_directory(&pages_structure.children[i], entries);
        assert(item_views(entries@) =~= own + children_items(
            pages_structure.children@,
            (i + 1) as nat,
        ));
        i = i + 1;
    }
    assert(item_views(entries@) =~= item_views(old(entries)@) + directory_items(*pages_structure));
}

/// The files of a whole pages structure, in the order in which their entries
/// are made.
pub open spec fn root_directory_items(structure: PagesStructure) -> Seq<ItemView> {
    seq![structure.app@, structure.document@, structure.error@] + match structure.api {
        Some(api) => directory_items(api),
        None => Seq::empty(),
    } + match structure.pages {
        Some(pages) => directory_items(pages),
        None => Seq::empty(),
    }
}

/// The files that get a page entry: the app, document and error files, then
/// the API routes, then the pages.
pub fn get_page_entries_for_root_directory(pages_structure: &PagesStructure) -> (entries: Vec<
    PagesStructureItem,
>)
    ensures
        item_views(entries@) == root_directory_items(*pages_structure),
{
    let mut entries: Vec<PagesStructureItem> = Vec::new();
    entries.push(pages_structure.app.duplicate());
    entries.push(pages_structure.document.duplicate());
    entries.push(pages_structure.error.duplicate());
    assert(item_views(entries@) =~= seq![
        pages_structure.app@,
        pages_structure.document@,
        pages_structure.error@,
    ]);
    match &pages_structure.api {
        Some(api) => {
            get_page_entries_for_directory(api, &mut entries);
        },
        None => {
            assert(item_views(entries@) + Seq::<ItemView>::empty() =~= item_views(entries@));
        },
    }
    let ghost with_api = item_views(entries@);
    match &pages_structure.pages {
        Some(pages) => {
            get_page_entries_for_directory(pages, &mut entries);
        },
        None => {
            assert(with_api + Seq::<ItemView>::empty() =~= with_api);
        },
    }
    entries
}

/// The directory of pages: that of the structure where it has one, else
/// `pages` below the project root.
pub fn pages_dir(project_root: &FileSystemPath, pages: Option<&FileSystemPath>) -> (dir:
    FileSystemPath)
    ensures
        dir@ == match pages {
            Some(path) => path@,
            None => joined(project_root@, "pages"@),
        },
{
    match pages {
        Some(path) => path.duplicate(),
        None => project_root.join("pages"),
    }
}

/// The name of the transition that pages reach lazily loaded modules by.
pub const NEXT_DYNAMIC: &'static str = "next-dynamic";

/// The contexts that pages are compiled under: the server's and the client's.
/// Both know the transition for lazily loaded modules, and neither has a
/// transition set.
pub fn page_asset_contexts() -> (contexts: (ModuleAssetContext, ModuleAssetContext))
    ensures
        contexts.0@ == (ModuleAssetContextView {
            target: Target::PureServer,
            transitions: seq![NEXT_DYNAMIC@],
            transition: None,
        }),
        contexts.1@ == (ModuleAssetContextView {
            target: Target::Browser,
            transitions: seq![NEXT_DYNAMIC@],
            transition: None,
        }),
{
    let mut ssr_transitions: Vec<String> = Vec::new();
    ssr_transitions.push(String::from_str(NEXT_DYNAMIC));
    let mut client_transitions: Vec<String> = Vec::new();
    client_transitions.push(String::from_str(NEXT_DYNAMIC));
    assert(texts(ssr_transitions@) =~= seq![NEXT_DYNAMIC@]);
    assert(texts(client_transitions@) =~= seq![NEXT_DYNAMIC@]);
    (
        ModuleAssetContext::new(Target::PureServer, ssr_transitions),
        ModuleAssetContext::new(Target::Browser, client_transitions),
    )
}

/// The two compilations of a page's source: for the server, and for the client.
pub fn page_entry_requests(
    ssr_asset_context: &ModuleAssetContext,
    client_asset_context: &ModuleAssetContext,
    source_asset: &AssetIdent,
) -> (requests: (ProcessRequest, ProcessRequest))
    ensures
        requests.0@ == (ProcessRequestView {
            source: source_asset@,
            context: ssr_asset_context@,
            reference_type: ReferenceType::EntryPage,
        }),
        requests.1@ == (ProcessRequestView {
            source: source_asset@,
            context: client_asset_context@,
            reference_type: ReferenceType::EntryPage,
        }),
{
    (
        ProcessRequest {
            source: source_asset.duplicate(),
            context: ssr_asset_context.duplicate(),
            reference_type: ReferenceType::EntryPage,
        },
        ProcessRequest {
            source: source_asset.duplicate(),
            context: client_asset_context.duplicate(),
            reference_type: ReferenceType::EntryPage,
        },
    )
}

/// A page entry corresponding to some route.
#[derive(Debug, PartialEq, Eq)]
pub struct PageEntry {
    /// The pathname of the page.
    pub pathname: String,
    /// The server-side entry module.
    pub ssr_asset: EcmascriptChunkPlaceable,
    /// The client entry module.
    pub client_asset: EcmascriptChunkPlaceable,
}

/// The entry of the page `pathname`, given the two compiled forms of its
/// source. Both have to be ECMAScript modules.
pub fn get_page_entry_for_file(pathname: String, ssr_asset: Module, client_asset: Module) -> (entry:
    Result<PageEntry, Error>)
    ensures
        match (ssr_asset.as_ecmascript(), client_asset.as_ecmascript()) {
            (Some(ssr), Some(client)) => entry == Ok::<PageEntry, Error>(
                PageEntry { pathname, ssr_asset: ssr, client_asset: client },
            ),
            _ => entry == Err::<PageEntry, Error>(Error::CapabilityMismatch),
        },
{
    let ssr_asset = match ssr_asset.resolve_ecmascript() {
        Ok(module) => module,
        Err(error) => {
            return Err(error);
        },
    };
    let client_asset = match client_asset.resolve_ecmascript() {
        Ok(module) => module,
        Err(error) => {
            return Err(error);
        },
    };
    Ok(PageEntry { pathname, ssr_asset, client_asset })
}

/// The pathname that a router path stands for: the path itself.
pub fn pathname_from_path(next_router_path: &FileSystemPath) -> (pathname: String)
    ensures
        pathname@ == next_router_path@,
{
    next_router_path.path.clone()
}

/// All page entries of a project, with the runtime entries of both sides.
#[derive(Debug, PartialEq, Eq)]
pub struct PageEntries {
    pub entries: Vec<PageEntry>,
    pub ssr_runtime_entries: Vec<AssetIdent>,
    pub client_runtime_entries: Vec<AssetIdent>,
}

/// One page before its entry is made: its pathname and the two compiled forms
/// of its source.
#[derive(Debug, PartialEq, Eq)]
pub struct CompiledPage {
    pub pathname: String,
    pub ssr_asset: Module,
    pub client_asset: Module,
}

/// `page` has both compiled forms as ECMAScript modules.
pub open spec fn is_page(page: CompiledPage) -> bool {
    page.ssr_asset.as_ecmascript() is Some && page.client_asset.as_ecmascript() is Some
}

/// The entry that is made of `page`.
pub open spec fn entry_of(page: CompiledPage) -> PageEntry {
    PageEntry {
        pathname: page.pathname,
        ssr_asset: page.ssr_asset.as_ecmascript()->0,
        client_asset: page.client_asset.as_ecmascript()->0,
    }
}

/// Computes all the page entries of a project from its compiled pages, in
/// their order. One page that is no ECMAScript module on both sides fails
/// the whole.
pub fn get_page_entries(
    pages: Vec<CompiledPage>,
    ssr_runtime_entries: Vec<AssetIdent>,
    client_runtime_entries: Vec<AssetIdent>,
) -> (page_entries: Result<PageEntries, Error>)
    ensures
        match page_entries {
            Ok(all) => {
                &&& forall|i: int| 0 <= i < pages@.len() ==> is_page(#[trigger] pages@[i])
                &&& all.entries@ == Seq::new(pages@.len(), |i: int| entry_of(pages@[i]))
                &&& all.ssr_runtime_entries == ssr_runtime_entries
                &&& all.client_runtime_entries == client_runtime_entries
            },
            Err(error) => {
                &&& error == Error::CapabilityMismatch
                &&& exists|i: int| 0 <= i < pages@.len() && !is_page(#[trigger] pages@[i])
            },
        },
{
    let mut rest = pages;
    let ghost whole = pages@;
    let mut entries: Vec<PageEntry> = Vec::new();
    while rest.len() > 0
        invariant
            whole == pages@,
            entries@.len() + rest@.len() == whole.len(),
            forall|i: int| 0 <= i < entries@.len() ==> is_page(#[trigger] whole[i]),
            forall|i: int| 0 <= i < entries@.len() ==> entries@[i] == entry_of(whole[i]),
            forall|i: int| 0 <= i < rest@.len() ==> rest@[i] == whole[entries@.len() + i],
        decreases rest@.len(),
    {
        let ghost at = entries@.len() as int;
        let page = rest.remove(0);
        assert(page == whole[at]);
        match get_page_entry_for_file(page.pathname, page.ssr_asset, page.client_asset) {
            Ok(entry) => {
                entries.push(entry);
            },
            Err(error) => {
                assert(!is_page(whole[at]));
                return Err(error);
            },
        }
    }
    assert(entries@ =~= Seq::new(whole.len(), |i: int| entry_of(whole[i])));
    Ok(PageEntries { entries, ssr_runtime_entries, client_runtime_entries })
}

/// The chunks of one page as the chunking algorithm gave them: the entry chunk
/// for the server, and the chunk group of the client entry.
#[derive(Debug, PartialEq, Eq)]
pub struct PageChunks {
    pub ssr_entry_chunk: Chunk,
    pub client_chunks: Vec<Chunk>,
}

/// Where the server entry chunk of the route `pathname` is written: below
/// `server/pages` of the output root, under the route's pathname.
pub open spec fn ssr_entry_chunk_location(node_root: Seq<char>, pathname: Seq<char>) -> Seq<char> {
    joined(node_root, "server/pages/"@ + pathname + ".js"@)
}

/// The path that the server entry chunk of a page is asked to be written to.
pub fn ssr_entry_chunk_path(node_root: &FileSystemPath, pathname: &str) -> (path: FileSystemPath)
    ensures
        path@ == ssr_entry_chunk_location(node_root@, pathname@),
{
    let name = String::from_str("server/pages/").concat(pathname).concat(".js");
    node_root.join(name.as_str())
}

/// The pages manifest after one page: its route leads to the server entry
/// chunk, relative to `dir`, where the chunk lies below `dir`.
pub open spec fn pages_with_entry(
    pages: Map<Seq<char>, Seq<char>>,
    pathname: Seq<char>,
    ssr_chunk: Seq<char>,
    dir: Seq<char>,
) -> Map<Seq<char>, Seq<char>> {
    match relative_path(dir, ssr_chunk) {
        Some(asset_path) => pages.insert(pathname, asset_path),
        None => pages,
    }
}

/// The build manifest after one page: its route has, after the chunks it had,
/// the client chunks that lie below `dir`, relative to it, in the order of the
/// chunk group.
pub open spec fn build_with_entry(
    build: Map<Seq<char>, Seq<Seq<char>>>,
    pathname: Seq<char>,
    client_chunks: Seq<Seq<char>>,
    dir: Seq<char>,
) -> Map<Seq<char>, Seq<Seq<char>>> {
    build.insert(pathname, chunks_of_route(build, pathname) + relative_paths(dir, client_chunks))
}

/// The pages manifest after the first `n` pages.
pub open spec fn pages_with_entries(
    pages: Map<Seq<char>, Seq<char>>,
    entries: Seq<PageEntry>,
    chunks: Seq<PageChunks>,
    dir: Seq<char>,
    n: nat,
) -> Map<Seq<char>, Seq<char>>
    decreases n,
{
    if n == 0 {
        pages
    } else {
        pages_with_entry(
            pages_with_entries(pages, entries, chunks, dir, (n - 1) as nat),
            entries[n - 1].pathname@,
            chunks[n - 1].ssr_entry_chunk@,
            dir,
        )
    }
}

/// The build manifest after the first `n` pages.
pub open spec fn build_with_entries(
    build: Map<Seq<char>, Seq<Seq<char>>>,
    entries: Seq<PageEntry>,
    chunks: Seq<PageChunks>,
    dir: Seq<char>,
    n: nat,
) -> Map<Seq<char>, Seq<Seq<char>>>
    decreases n,
{
    if n == 0 {
        build
    } else {
        build_with_entry(
            build_with_entries(build, entries, chunks, dir, (n - 1) as nat),
            entries[n - 1].pathname@,
            chunk_paths(chunks[n - 1].client_chunks@),
            dir,
        )
    }
}

/// The build's output after the first `n` pages: for each page its server
/// entry chunk, then its client chunks.
pub open spec fn output_with_entries(all: Seq<Seq<char>>, chunks: Seq<PageChunks>, n: nat) -> Seq<
    Seq<char>,
>
    decreases n,
{
    if n == 0 {
        all
    } else {
        output_with_entries(all, chunks, (n - 1) as nat).push(chunks[n - 1].ssr_entry_chunk@)
            + chunk_paths(chunks[n - 1].client_chunks@)
    }
}

/// Adds the chunks of the page entries to the pages manifest, to the build
/// manifest and to the build's output.
///
/// `chunks` holds, for each page entry at the same position, the chunks that
/// the chunking algorithm gave. Where the two differ in length nothing is
/// changed.
pub fn compute_page_entries_chunks(
    page_entries: &PageEntries,
    chunks: &Vec<PageChunks>,
    pages_manifest_dir_path: &FileSystemPath,
    build_manifest_dir_path: &FileSystemPath,
    pages_manifest: &mut PagesManifest,
    build_manifest: &mut BuildManifest,
    all_chunks: &mut Vec<Chunk>,
) -> (result: Result<(), Error>)
    requires
        old(pages_manifest).wf(),
        old(build_manifest).wf(),
    ensures
        final(pages_manifest).wf(),
        final(build_manifest).wf(),
        result is Ok <==> page_entries.entries@.len() == chunks@.len(),
        match result {
            Ok(_) => {
                let n = chunks@.len();
                &&& final(pages_manifest)@ == pages_with_entries(
                    old(pages_manifest)@,
                    page_entries.entries@,
                    chunks@,
                    pages_manifest_dir_path@,
                    n,
                )
                &&& final(build_manifest)@ == build_with_entries(
                    old(build_manifest)@,
                    page_entries.entries@,
                    chunks@,
                    build_manifest_dir_path@,
                    n,
                )
                &&& chunk_paths(final(all_chunks)@) == output_with_entries(
                    chunk_paths(old(all_chunks)@),
                    chunks@,
                    n,
                )
            },
            Err(error) => {
                &&& error == Error::LookupInvariantViolation
                &&& final(pages_manifest)@ == old(pages_manifest)@
                &&& final(build_manifest)@ == old(build_manifest)@
                &&& chunk_paths(final(all_chunks)@) == chunk_paths(old(all_chunks)@)
            },
        },
{
    let n = chunks.len();
    if page_entries.entries.len() != n {
        return Err(Error::LookupInvariantViolation);
    }
    let mut i: usize = 0;
    while i < n
        invariant
            i <= n,
            n == chunks@.len(),
            n == page_entries.entries@.len(),
            pages_manifest.wf(),
            build_manifest.wf(),
            pages_manifest@ == pages_with_entries(
                old(pages_manifest)@,
                page_entries.entries@,
                chunks@,
                pages_manifest_dir_path@,
                i as nat,
            ),
            build_manifest@ == build_with_entries(
                old(build_manifest)@,
                page_entries.entries@,
                chunks@,
                build_manifest_dir_path@,
                i as nat,
            ),
            chunk_paths(all_chunks@) == output_with_entries(
                chunk_paths(old(all_chunks)@),
                chunks@,
                i as nat,
            ),
        decreases n - i,
    {
        let page_entry = &page_entries.entries[i];
        let page_chunks = &chunks[i];
        let ghost before = chunk_paths(all_chunks@);
        all_chunks.push(page_chunks.ssr_entry_chunk.duplicate());
        assert(chunk_paths(all_chunks@) =~= before.push(page_chunks.ssr_entry_chunk@));
        match pages_manifest_dir_path.get_path_to(&page_chunks.ssr_entry_chunk.path) {
            Some(asset_path) => {
                pages_manifest.insert(page_entry.pathname.clone(), asset_path);
            },
            None => {},
        }
        extend_chunks(all_chunks, &page_chunks.client_chunks);
        let paths = relative_chunk_paths(build_manifest_dir_path, &page_chunks.client_chunks);
        build_manifest.extend(page_entry.pathname.clone(), &paths);
        i = i + 1;
    }
    Ok(())
}

} // verus!
