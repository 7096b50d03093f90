use next_core::chunk::{Chunk, ModuleId};
use next_core::context::{ModuleAssetContext, ReferenceType, Target};
use next_core::error::Error;
use next_core::ident::AssetIdent;
use next_core::manifests::{BuildManifest, PagesManifest};
use next_core::module::{Capability, EcmascriptChunkPlaceable, EcmascriptExports, Module};
use next_core::next_pages::page_entries::{
    compute_page_entries_chunks, get_page_entries, get_page_entries_for_directory,
    get_page_entries_for_root_directory, get_page_entry_for_file, page_asset_contexts,
    page_entry_requests, pages_dir,
    pathname_from_path, ssr_entry_chunk_path, CompiledPage, PageChunks, PageEntries, PageEntry,
    PagesDirectoryStructure, PagesStructure, PagesStructureItem,
};
use next_core::path::FileSystemPath;

fn path(text: &str) -> FileSystemPath {
    FileSystemPath::new(text.to_string())
}

fn ident(text: &str) -> AssetIdent {
    AssetIdent::from_path(path(text))
}

fn chunk(text: &str) -> Chunk {
    Chunk::new(path(text))
}

fn script(at: &str) -> Module {
    Module {
        ident: ident(at),
        capability: Capability::EcmascriptExporting {
            exports: EcmascriptExports::CommonJs,
            id: ModuleId::Number(1),
        },
    }
}

fn placeable(at: &str) -> EcmascriptChunkPlaceable {
    EcmascriptChunkPlaceable {
        ident: ident(at),
        exports: EcmascriptExports::CommonJs,
        id: ModuleId::Number(1),
    }
}

fn item(name: &str) -> PagesStructureItem {
    PagesStructureItem {
        project_path: path(&format!("pages/{}.tsx", name)),
        next_router_path: path(name),
    }
}

fn page(pathname: &str) -> PageEntry {
    PageEntry {
        pathname: pathname.to_string(),
        ssr_asset: placeable("ssr"),
        client_asset: placeable("client"),
    }
}

fn entries(pathnames: &[&str]) -> PageEntries {
    PageEntries {
        entries: pathnames.iter().map(|pathname| page(pathname)).collect(),
        ssr_runtime_entries: Vec::new(),
        client_runtime_entries: Vec::new(),
    }
}

#[test]
fn about_page_gets_one_entry_in_each_manifest() {
    let page_entries = entries(&["/about"]);
    let chunks = vec![PageChunks {
        ssr_entry_chunk: chunk("node/server/pages/about.js"),
        client_chunks: vec![
            chunk("client/static/chunks/about.js"),
            chunk("client/static/chunks/shared.js"),
            chunk("elsewhere/x.js"),
        ],
    }];
    let mut pages_manifest = PagesManifest::new();
    let mut build_manifest = BuildManifest::new();
    let mut all_chunks = Vec::new();
    let result = compute_page_entries_chunks(
        &page_entries,
        &chunks,
        &path("node/server"),
        &path("client"),
        &mut pages_manifest,
        &mut build_manifest,
        &mut all_chunks,
    );
    assert_eq!(result, Ok(()));
    assert_eq!(pages_manifest.pages.len(), 1);
    assert_eq!(pages_manifest.pages.get(&"/about".to_string()), Some(&"pages/about.js".to_string()));
    assert_eq!(build_manifest.pages.len(), 1);
    assert_eq!(
        build_manifest.pages.get(&"/about".to_string()),
        Some(&vec!["static/chunks/about.js".to_string(), "static/chunks/shared.js".to_string()])
    );
    assert_eq!(
        all_chunks,
        vec![
            chunk("node/server/pages/about.js"),
            chunk("client/static/chunks/about.js"),
            chunk("client/static/chunks/shared.js"),
            chunk("elsewhere/x.js"),
        ]
    );
}

#[test]
fn several_pages_are_recorded_in_order() {
    let page_entries = entries(&["/", "/about", "/"]);
    let chunks = vec![
        PageChunks { ssr_entry_chunk: chunk("node/index.js"), client_chunks: vec![chunk("client/i.js")] },
        PageChunks { ssr_entry_chunk: chunk("outside/about.js"), client_chunks: vec![] },
        PageChunks { ssr_entry_chunk: chunk("node/index2.js"), client_chunks: vec![chunk("client/j.js")] },
    ];
    let mut pages_manifest = PagesManifest::new();
    let mut build_manifest = BuildManifest::new();
    let mut all_chunks = vec![chunk("kept.js")];
    compute_page_entries_chunks(
        &page_entries,
        &chunks,
        &path("node"),
        &path("client"),
        &mut pages_manifest,
        &mut build_manifest,
        &mut all_chunks,
    )
    .unwrap();
    assert_eq!(pages_manifest.pages.keys, vec!["/".to_string()]);
    assert_eq!(pages_manifest.pages.get(&"/".to_string()), Some(&"index2.js".to_string()));
    assert_eq!(pages_manifest.pages.get(&"/about".to_string()), None);
    assert_eq!(build_manifest.pages.keys, vec!["/".to_string(), "/about".to_string()]);
    assert_eq!(
        build_manifest.pages.get(&"/".to_string()),
        Some(&vec!["i.js".to_string(), "j.js".to_string()])
    );
    assert_eq!(build_manifest.pages.get(&"/about".to_string()), Some(&Vec::new()));
    assert_eq!(all_chunks.len(), 6);
    assert_eq!(all_chunks[0], chunk("kept.js"));
    assert_eq!(all_chunks[1], chunk("node/index.js"));
    assert_eq!(all_chunks[2], chunk("client/i.js"));
    assert_eq!(all_chunks[3], chunk("outside/about.js"));
}

#[test]
fn pages_without_their_chunks_fail_and_change_nothing() {
    let page_entries = entries(&["/about"]);
    let mut pages_manifest = PagesManifest::new();
    let mut build_manifest = BuildManifest::new();
    let mut all_chunks = Vec::new();
    let result = compute_page_entries_chunks(
        &page_entries,
        &Vec::new(),
        &path("node"),
        &path("client"),
        &mut pages_manifest,
        &mut build_manifest,
        &mut all_chunks,
    );
    assert_eq!(result, Err(Error::LookupInvariantViolation));
    assert_eq!(pages_manifest, PagesManifest::new());
    assert_eq!(build_manifest, BuildManifest::new());
    assert!(all_chunks.is_empty());
}

#[test]
fn server_entry_chunk_is_named_after_the_route() {
    assert_eq!(ssr_entry_chunk_path(&path("node"), "about"), path("node/server/pages/about.js"));
    assert_eq!(ssr_entry_chunk_path(&path(""), "blog/[id]"), path("server/pages/blog/[id].js"));
}

#[test]
fn page_entry_needs_scripts_on_both_sides() {
    assert_eq!(
        get_page_entry_for_file("/about".to_string(), script("ssr"), script("client")),
        Ok(page("/about"))
    );
    let sheet = || Module { ident: ident("a.css"), capability: Capability::CssExporting };
    assert_eq!(
        get_page_entry_for_file("/about".to_string(), sheet(), script("client")),
        Err(Error::CapabilityMismatch)
    );
    assert_eq!(
        get_page_entry_for_file("/about".to_string(), script("ssr"), sheet()),
        Err(Error::CapabilityMismatch)
    );
}

#[test]
fn page_entries_of_compiled_pages() {
    let compiled = |pathname: &str| CompiledPage {
        pathname: pathname.to_string(),
        ssr_asset: script("ssr"),
        client_asset: script("client"),
    };
    let all = get_page_entries(
        vec![compiled("/_app"), compiled("/"), compiled("/about")],
        vec![ident("ssr-runtime")],
        vec![ident("client-runtime")],
    )
    .unwrap();
    assert_eq!(all.entries, vec![page("/_app"), page("/"), page("/about")]);
    assert_eq!(all.ssr_runtime_entries, vec![ident("ssr-runtime")]);
    assert_eq!(all.client_runtime_entries, vec![ident("client-runtime")]);

    let broken = CompiledPage {
        pathname: "/broken".to_string(),
        ssr_asset: Module { ident: ident("x"), capability: Capability::Plain },
        client_asset: script("client"),
    };
    assert_eq!(
        get_page_entries(vec![compiled("/"), broken, compiled("/about")], Vec::new(), Vec::new()),
        Err(Error::CapabilityMismatch)
    );
    assert_eq!(get_page_entries(Vec::new(), Vec::new(), Vec::new()), Ok(entries(&[])));
}

#[test]
fn page_sources_come_in_their_order() {
    let structure = PagesStructure {
        app: item("_app"),
        document: item("_document"),
        error: item("_error"),
        api: Some(PagesDirectoryStructure {
            items: vec![item("api/hello")],
            children: vec![PagesDirectoryStructure {
                items: vec![item("api/v1/a"), item("api/v1/b")],
                children: vec![],
            }],
        }),
        pages: Some(PagesDirectoryStructure {
            items: vec![item("index"), item("about")],
            children: vec![
                PagesDirectoryStructure {
                    items: vec![item("blog/index")],
                    children: vec![PagesDirectoryStructure {
                        items: vec![item("blog/2023/x")],
                        children: vec![],
                    }],
                },
                PagesDirectoryStructure { items: vec![item("docs/index")], children: vec![] },
            ],
        }),
    };
    let names: Vec<String> = get_page_entries_for_root_directory(&structure)
        .into_iter()
        .map(|item| item.next_router_path.path)
        .collect();
    assert_eq!(
        names,
        vec![
            "_app", "_document", "_error", "api/hello", "api/v1/a", "api/v1/b", "index", "about",
            "blog/index", "blog/2023/x", "docs/index"
        ]
    );

    let bare = PagesStructure {
        app: item("_app"),
        document: item("_document"),
        error: item("_error"),
        api: None,
        pages: None,
    };
    assert_eq!(
        get_page_entries_for_root_directory(&bare),
        vec![item("_app"), item("_document"), item("_error")]
    );

    let mut collected = vec![item("first")];
    get_page_entries_for_directory(structure.pages.as_ref().unwrap(), &mut collected);
    assert_eq!(collected.len(), 6);
    assert_eq!(collected[0], item("first"));
    assert_eq!(collected[5], item("docs/index"));
}

#[test]
fn pages_directory_and_requests() {
    assert_eq!(pages_dir(&path("project"), Some(&path("project/src/pages"))), path("project/src/pages"));
    assert_eq!(pages_dir(&path("project"), None), path("project/pages"));
    assert_eq!(pathname_from_path(&path("blog/post")), "blog/post");
    let ssr_context = ModuleAssetContext::new(Target::PureServer, vec!["next-dynamic".to_string()]);
    let client_context = ModuleAssetContext::new(Target::Browser, vec!["next-dynamic".to_string()]);
    let (ssr, client) = page_entry_requests(&ssr_context, &client_context, &ident("pages/about.tsx"));
    assert_eq!(ssr.source, ident("pages/about.tsx"));
    assert_eq!(ssr.context, ssr_context);
    assert_eq!(ssr.reference_type, ReferenceType::EntryPage);
    assert_eq!(client.source, ident("pages/about.tsx"));
    assert_eq!(client.context, client_context);
    assert_eq!(client.reference_type, ReferenceType::EntryPage);
}

#[test]
fn pages_are_compiled_for_server_and_client() {
    let (ssr, client) = page_asset_contexts();
    assert_eq!(ssr, ModuleAssetContext::new(Target::PureServer, vec!["next-dynamic".to_string()]));
    assert_eq!(client, ModuleAssetContext::new(Target::Browser, vec!["next-dynamic".to_string()]));
}

#[test]
fn manifests_of_pages_are_well_formed() {
    let mut pages_manifest = PagesManifest::new();
    let mut build_manifest = BuildManifest::new();
    assert!(pages_manifest.is_wf());
    assert!(build_manifest.is_wf());
    pages_manifest.insert("/".to_string(), "index.js".to_string());
    pages_manifest.insert("/".to_string(), "other.js".to_string());
    build_manifest.extend("/".to_string(), &vec!["a.js".to_string()]);
    build_manifest.extend("/".to_string(), &vec!["a.js".to_string(), "b.js".to_string()]);
    assert!(pages_manifest.is_wf());
    assert!(build_manifest.is_wf());
    assert_eq!(pages_manifest.pages.get(&"/".to_string()), Some(&"other.js".to_string()));
    assert_eq!(
        build_manifest.pages.get(&"/".to_string()),
        Some(&vec!["a.js".to_string(), "a.js".to_string(), "b.js".to_string()])
    );
    pages_manifest.pages.keys.push("/".to_string());
    pages_manifest.pages.values.push("twice.js".to_string());
    assert!(!pages_manifest.is_wf());
}
