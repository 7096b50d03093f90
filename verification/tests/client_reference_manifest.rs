use next_core::chunk::{Chunk, ClientReferenceChunks, ModuleId as ChunkItemId};
use next_core::error::Error;
use next_core::ident::AssetIdent;
use next_core::manifests::{
    get_client_reference_module_key, ClientReferenceManifest, ManifestNodeEntry, ModuleId,
};
use next_core::module::{CssChunkPlaceable, EcmascriptChunkPlaceable, EcmascriptExports};
use next_core::next_app::app_client_reference::{
    compute_app_client_references_chunks, relative_chunk_paths, relative_stylesheet_chunk_paths,
    resolve_client_reference_chunks, try_join,
};
use next_core::next_client_reference::css_client_reference_asset::CssClientReferenceAsset;
use next_core::next_client_reference::ecmascript_client_reference_asset::EcmascriptClientReferenceAsset;
use next_core::next_client_reference::visit_client_reference::{ClientReference, ClientReferenceType};
use next_core::next_server_component::server_component_asset::NextServerComponentAsset;
use next_core::path::FileSystemPath;

fn path(text: &str) -> FileSystemPath {
    FileSystemPath::new(text.to_string())
}

fn ident(text: &str) -> AssetIdent {
    AssetIdent::from_path(path(text))
}

fn chunk(text: &str) -> Chunk {
    Chunk::new(path(text))
}

fn esm(names: &[&str], id: u32, at: &str) -> EcmascriptChunkPlaceable {
    EcmascriptChunkPlaceable {
        ident: ident(at),
        exports: EcmascriptExports::EsmExports {
            names: names.iter().map(|name| name.to_string()).collect(),
            has_star_export: false,
        },
        id: ChunkItemId::Number(id),
    }
}

fn script_reference(server_path: &str, names: &[&str]) -> ClientReferenceType {
    ClientReferenceType::EcmascriptClientReference(EcmascriptClientReferenceAsset::new(
        ident(server_path),
        esm(names, 3, "client/button.tsx"),
        esm(names, 7, "ssr/button.tsx"),
    ))
}

fn css_reference(at: &str) -> ClientReferenceType {
    ClientReferenceType::CssClientReference(CssClientReferenceAsset::new(CssChunkPlaceable {
        ident: ident(at),
    }))
}

fn entry(name: &str, id: u64, chunks: &[&str]) -> ManifestNodeEntry {
    ManifestNodeEntry {
        name: name.to_string(),
        id: ModuleId::Number(id),
        chunks: chunks.iter().map(|chunk| chunk.to_string()).collect(),
        is_async: false,
    }
}

fn route(at: &str) -> NextServerComponentAsset {
    NextServerComponentAsset::new(esm(&["default"], 1, at))
}

#[test]
fn manifest_key_of_whole_module_is_the_path() {
    assert_eq!(get_client_reference_module_key("app/button.tsx", "*"), "app/button.tsx");
}

#[test]
fn manifest_key_of_named_export_has_hash_and_name() {
    assert_eq!(get_client_reference_module_key("app/button.tsx", "foo"), "app/button.tsx#foo");
    assert_eq!(
        get_client_reference_module_key("app/button.tsx", "default"),
        "app/button.tsx#default"
    );
    assert_eq!(get_client_reference_module_key("app/button.tsx", "**"), "app/button.tsx#**");
    assert_eq!(get_client_reference_module_key("app/button.tsx", ""), "app/button.tsx#");
}

#[test]
fn manifest_key_gives_the_export_name_back() {
    for name in ["*", "foo", "default", "a#b"] {
        let key = get_client_reference_module_key("app/button.tsx", name);
        let found = match key.split_once('#') {
            Some((_, export)) => export.to_string(),
            None => "*".to_string(),
        };
        assert_eq!(found, name);
    }
}

#[test]
fn script_boundary_is_recorded_on_both_sides() {
    let types = vec![script_reference("serverPath", &["default", "foo"])];
    let resolved = vec![ClientReferenceChunks {
        client_chunks: vec![chunk("client/static/b.js")],
        ssr_chunks: vec![chunk("node/chunks/a.js")],
    }];
    let mut manifest = ClientReferenceManifest::new();
    let mut all_chunks = Vec::new();
    let map = compute_app_client_references_chunks(
        &Vec::new(),
        &types,
        &resolved,
        &path("client"),
        &path("node"),
        &mut manifest,
        &mut all_chunks,
    )
    .unwrap();

    assert_eq!(manifest.client_modules.get("serverPath"), Some(&entry("*", 3, &["static/b.js"])));
    assert_eq!(
        manifest.client_modules.get("serverPath#foo"),
        Some(&entry("foo", 3, &["static/b.js"]))
    );
    assert_eq!(
        manifest.client_modules.get("serverPath#default"),
        Some(&entry("default", 3, &["static/b.js"]))
    );
    assert_eq!(manifest.client_modules.len(), 3);

    assert_eq!(manifest.ssr_module_mapping.len(), 1);
    let node = manifest.ssr_module_mapping.get(&ModuleId::Number(3)).unwrap();
    assert_eq!(node.get("*"), Some(&entry("*", 7, &["chunks/a.js"])));
    assert_eq!(node.get("foo"), Some(&entry("foo", 7, &["chunks/a.js"])));
    assert_eq!(node.get("default"), Some(&entry("default", 7, &["chunks/a.js"])));
    assert_eq!(node.len(), 3);
    assert!(manifest.ssr_module_mapping.get(&ModuleId::Number(7)).is_none());

    assert_eq!(manifest.entry_css_files.len(), 0);
    assert_eq!(all_chunks, vec![chunk("client/static/b.js"), chunk("node/chunks/a.js")]);
    assert_eq!(map.len(), 1);
    assert_eq!(map.get(&types[0].key()), Some(&resolved[0]));
}

#[test]
fn mapping_mirrors_client_modules() {
    let names = ["a", "b", "default", "c"];
    let types = vec![script_reference("app/x.tsx", &names)];
    let resolved = vec![ClientReferenceChunks { client_chunks: vec![], ssr_chunks: vec![] }];
    let mut manifest = ClientReferenceManifest::new();
    let mut all_chunks = Vec::new();
    compute_app_client_references_chunks(
        &Vec::new(),
        &types,
        &resolved,
        &path("client"),
        &path("node"),
        &mut manifest,
        &mut all_chunks,
    )
    .unwrap();
    let node = manifest.ssr_module_mapping.get(&ModuleId::Number(3)).unwrap();
    for name in names {
        let key = get_client_reference_module_key("app/x.tsx", name);
        assert!(manifest.client_modules.get(&key).is_some());
        assert!(node.get(name).is_some());
    }
    assert!(manifest.client_modules.get("app/x.tsx").is_some());
    assert!(node.get("*").is_some());
    assert_eq!(manifest.client_modules.len(), 5);
    assert_eq!(node.len(), 5);
}

#[test]
fn commonjs_boundary_records_only_the_whole_module() {
    let types = vec![ClientReferenceType::EcmascriptClientReference(
        EcmascriptClientReferenceAsset::new(
            ident("app/cjs.js"),
            EcmascriptChunkPlaceable {
                ident: ident("client/cjs.js"),
                exports: EcmascriptExports::CommonJs,
                id: ChunkItemId::String("client-cjs".to_string()),
            },
            EcmascriptChunkPlaceable {
                ident: ident("ssr/cjs.js"),
                exports: EcmascriptExports::CommonJs,
                id: ChunkItemId::String("ssr-cjs".to_string()),
            },
        ),
    )];
    let resolved = vec![ClientReferenceChunks {
        client_chunks: vec![chunk("client/c.js"), chunk("elsewhere/d.js")],
        ssr_chunks: vec![chunk("node/s.js")],
    }];
    let mut manifest = ClientReferenceManifest::new();
    let mut all_chunks = vec![chunk("kept.js")];
    compute_app_client_references_chunks(
        &Vec::new(),
        &types,
        &resolved,
        &path("client"),
        &path("node"),
        &mut manifest,
        &mut all_chunks,
    )
    .unwrap();
    assert_eq!(manifest.client_modules.len(), 1);
    let recorded = manifest.client_modules.get("app/cjs.js").unwrap();
    assert_eq!(recorded.name, "*");
    assert_eq!(recorded.id, ModuleId::String("client-cjs".to_string()));
    assert_eq!(recorded.chunks, vec!["c.js".to_string()]);
    assert!(!recorded.is_async);
    let node = manifest
        .ssr_module_mapping
        .get(&ModuleId::String("client-cjs".to_string()))
        .unwrap();
    assert_eq!(node.len(), 1);
    assert_eq!(node.get("*").unwrap().id, ModuleId::String("ssr-cjs".to_string()));
    assert_eq!(
        all_chunks,
        vec![chunk("kept.js"), chunk("client/c.js"), chunk("elsewhere/d.js"), chunk("node/s.js")]
    );
}

#[test]
fn stylesheet_boundary_has_no_ssr_chunks() {
    let ty = css_reference("app/global.css");
    let chunks =
        resolve_client_reference_chunks(&ty, vec![chunk("client/g.css")], vec![chunk("node/x.js")]);
    assert_eq!(chunks.client_chunks, vec![chunk("client/g.css")]);
    assert!(chunks.ssr_chunks.is_empty());

    let script = script_reference("app/a.tsx", &["default"]);
    let chunks = resolve_client_reference_chunks(
        &script,
        vec![chunk("client/a.js")],
        vec![chunk("node/a.js")],
    );
    assert_eq!(chunks.client_chunks, vec![chunk("client/a.js")]);
    assert_eq!(chunks.ssr_chunks, vec![chunk("node/a.js")]);
}

#[test]
fn stylesheet_boundary_adds_chunks_but_no_modules() {
    let types = vec![css_reference("app/global.css")];
    let resolved = vec![ClientReferenceChunks {
        client_chunks: vec![chunk("client/g.css")],
        ssr_chunks: vec![chunk("node/never.js")],
    }];
    let mut manifest = ClientReferenceManifest::new();
    let mut all_chunks = Vec::new();
    let map = compute_app_client_references_chunks(
        &Vec::new(),
        &types,
        &resolved,
        &path("client"),
        &path("node"),
        &mut manifest,
        &mut all_chunks,
    )
    .unwrap();
    assert_eq!(manifest, ClientReferenceManifest::new());
    assert_eq!(all_chunks, vec![chunk("client/g.css")]);
    let stored = map.get(&types[0].key()).unwrap();
    assert_eq!(stored.client_chunks, vec![chunk("client/g.css")]);
    assert!(stored.ssr_chunks.is_empty());
}

#[test]
fn script_boundary_brings_only_its_stylesheets_to_the_route() {
    let types = vec![script_reference("app/button.tsx", &["default"])];
    let resolved = vec![ClientReferenceChunks {
        client_chunks: vec![chunk("client/static/button.css"), chunk("client/static/button.js")],
        ssr_chunks: vec![chunk("node/chunks/button.js")],
    }];
    let references = vec![ClientReference {
        server_component: Some(route("app/dashboard/page.tsx")),
        ty: script_reference("app/button.tsx", &["default"]),
    }];
    let mut manifest = ClientReferenceManifest::new();
    let mut all_chunks = Vec::new();
    compute_app_client_references_chunks(
        &references,
        &types,
        &resolved,
        &path("client"),
        &path("node"),
        &mut manifest,
        &mut all_chunks,
    )
    .unwrap();
    assert_eq!(manifest.entry_css_files.len(), 1);
    assert_eq!(
        manifest.entry_css_files.get(&"app/dashboard/page".to_string()),
        Some(&vec!["static/button.css".to_string()])
    );
}

#[test]
fn stylesheet_boundary_brings_all_its_chunks_to_the_route() {
    let types = vec![css_reference("app/global.css"), css_reference("app/other.css")];
    let resolved = vec![
        ClientReferenceChunks {
            client_chunks: vec![chunk("client/a.css"), chunk("client/b.js"), chunk("out/c.css")],
            ssr_chunks: vec![],
        },
        ClientReferenceChunks {
            client_chunks: vec![chunk("client/a.css"), chunk("client/d.css")],
            ssr_chunks: vec![],
        },
    ];
    let references = vec![
        ClientReference {
            server_component: Some(route("app/page.tsx")),
            ty: css_reference("app/global.css"),
        },
        ClientReference { server_component: None, ty: css_reference("app/other.css") },
        ClientReference {
            server_component: Some(route("app/page.tsx")),
            ty: css_reference("app/other.css"),
        },
    ];
    let mut manifest = ClientReferenceManifest::new();
    let mut all_chunks = Vec::new();
    compute_app_client_references_chunks(
        &references,
        &types,
        &resolved,
        &path("client"),
        &path("node"),
        &mut manifest,
        &mut all_chunks,
    )
    .unwrap();
    assert_eq!(
        manifest.entry_css_files.get(&"app/page".to_string()),
        Some(&vec!["a.css".to_string(), "b.js".to_string(), "d.css".to_string()])
    );
    assert_eq!(manifest.entry_css_files.len(), 1);
    assert_eq!(all_chunks.len(), 5);
}

#[test]
fn recording_twice_gives_the_same_records() {
    let types = vec![script_reference("serverPath", &["default", "foo"])];
    let resolved = vec![ClientReferenceChunks {
        client_chunks: vec![chunk("client/static/b.js"), chunk("client/static/c.js")],
        ssr_chunks: vec![chunk("node/chunks/a.js")],
    }];
    let mut once = ClientReferenceManifest::new();
    let mut twice = ClientReferenceManifest::new();
    let mut all_chunks = Vec::new();
    for _ in 0..2 {
        compute_app_client_references_chunks(
            &Vec::new(),
            &types,
            &resolved,
            &path("client"),
            &path("node"),
            &mut twice,
            &mut all_chunks,
        )
        .unwrap();
    }
    compute_app_client_references_chunks(
        &Vec::new(),
        &types,
        &resolved,
        &path("client"),
        &path("node"),
        &mut once,
        &mut Vec::new(),
    )
    .unwrap();
    assert_eq!(once, twice);
    assert_eq!(
        twice.client_modules.get("serverPath#foo").unwrap().chunks,
        vec!["static/b.js".to_string(), "static/c.js".to_string()]
    );
}

#[test]
fn missing_chunks_of_a_reference_fail_and_change_nothing() {
    let types = vec![script_reference("app/a.tsx", &["default"])];
    let resolved = vec![ClientReferenceChunks {
        client_chunks: vec![chunk("client/a.js")],
        ssr_chunks: vec![],
    }];
    let references = vec![ClientReference {
        server_component: Some(route("app/page.tsx")),
        ty: css_reference("app/a.tsx"),
    }];
    let mut manifest = ClientReferenceManifest::new();
    let mut all_chunks = vec![chunk("kept.js")];
    let result = compute_app_client_references_chunks(
        &references,
        &types,
        &resolved,
        &path("client"),
        &path("node"),
        &mut manifest,
        &mut all_chunks,
    );
    assert_eq!(result.err(), Some(Error::LookupInvariantViolation));
    assert_eq!(manifest, ClientReferenceManifest::new());
    assert_eq!(all_chunks, vec![chunk("kept.js")]);
}

#[test]
fn reference_without_route_needs_no_chunks() {
    let references =
        vec![ClientReference { server_component: None, ty: css_reference("app/a.css") }];
    let mut manifest = ClientReferenceManifest::new();
    let mut all_chunks = Vec::new();
    let map = compute_app_client_references_chunks(
        &references,
        &Vec::new(),
        &Vec::new(),
        &path("client"),
        &path("node"),
        &mut manifest,
        &mut all_chunks,
    )
    .unwrap();
    assert!(map.is_empty());
    assert_eq!(manifest, ClientReferenceManifest::new());
}

#[test]
fn unequal_numbers_of_boundaries_and_chunks_fail() {
    let types = vec![css_reference("app/a.css")];
    let mut manifest = ClientReferenceManifest::new();
    let mut all_chunks = Vec::new();
    let result = compute_app_client_references_chunks(
        &Vec::new(),
        &types,
        &Vec::new(),
        &path("client"),
        &path("node"),
        &mut manifest,
        &mut all_chunks,
    );
    assert_eq!(result.err(), Some(Error::LookupInvariantViolation));
}

#[test]
fn same_boundary_twice_keeps_its_place_and_the_later_chunks() {
    let types = vec![
        css_reference("app/a.css"),
        css_reference("app/b.css"),
        css_reference("app/a.css"),
    ];
    let resolved = vec![
        ClientReferenceChunks { client_chunks: vec![chunk("client/1.css")], ssr_chunks: vec![] },
        ClientReferenceChunks { client_chunks: vec![chunk("client/2.css")], ssr_chunks: vec![] },
        ClientReferenceChunks { client_chunks: vec![chunk("client/3.css")], ssr_chunks: vec![] },
    ];
    let mut manifest = ClientReferenceManifest::new();
    let mut all_chunks = Vec::new();
    let map = compute_app_client_references_chunks(
        &Vec::new(),
        &types,
        &resolved,
        &path("client"),
        &path("node"),
        &mut manifest,
        &mut all_chunks,
    )
    .unwrap();
    assert_eq!(map.len(), 2);
    let (first_key, first) = map.get_index(0).unwrap();
    assert_eq!(first_key, &types[0].key());
    assert_eq!(first.client_chunks, vec![chunk("client/3.css")]);
    let (second_key, second) = map.get_index(1).unwrap();
    assert_eq!(second_key, &types[1].key());
    assert_eq!(second.client_chunks, vec![chunk("client/2.css")]);
}

#[test]
fn boundaries_differ_by_variant_and_identity() {
    let script = script_reference("app/a.tsx", &[]);
    let sheet = css_reference("app/a.tsx");
    assert_ne!(script.key(), sheet.key());
    assert_eq!(script.key(), script_reference("app/a.tsx", &["default"]).key());
    assert_ne!(script.key(), script_reference("app/b.tsx", &[]).key());
    let modified = ClientReferenceType::CssClientReference(CssClientReferenceAsset::new(
        CssChunkPlaceable { ident: ident("app/a.tsx").with_modifier("x") },
    ));
    assert_ne!(sheet.key(), modified.key());
    assert_eq!(sheet.key(), (true, "app/a.tsx".to_string(), Vec::<String>::new()));
}

#[test]
fn relative_chunk_paths_leave_out_chunks_outside_the_root() {
    let chunks = vec![chunk("client/a.js"), chunk("clientele/b.js"), chunk("client"), chunk("client/c/d.css")];
    assert_eq!(
        relative_chunk_paths(&path("client"), &chunks),
        vec!["a.js".to_string(), "c/d.css".to_string()]
    );
    assert_eq!(
        relative_stylesheet_chunk_paths(&path("client"), &chunks),
        vec!["c/d.css".to_string()]
    );
    assert_eq!(relative_chunk_paths(&path(""), &chunks).len(), 4);
}

#[test]
fn join_gives_all_values_or_the_first_failure() {
    let all: Result<Vec<u8>, &str> = try_join(vec![Ok(1), Ok(2), Ok(3)]);
    assert_eq!(all, Ok(vec![1, 2, 3]));
    let failed: Result<Vec<u8>, &str> = try_join(vec![Ok(1), Err("first"), Ok(3), Err("second")]);
    assert_eq!(failed, Err("first"));
    let none: Result<Vec<u8>, &str> = try_join(Vec::new());
    assert_eq!(none, Ok(Vec::new()));
}

#[test]
fn manifest_ids_follow_chunk_item_ids() {
    assert_eq!(ModuleId::from(&ChunkItemId::Number(7)), ModuleId::Number(7));
    assert_eq!(ModuleId::from(&ChunkItemId::Number(u32::MAX)), ModuleId::Number(4294967295));
    assert_eq!(
        ModuleId::from(&ChunkItemId::String("x".to_string())),
        ModuleId::String("x".to_string())
    );
}

#[test]
fn client_reference_manifest_well_formedness() {
    let mut manifest = ClientReferenceManifest::new();
    assert!(manifest.is_wf());
    manifest.add_ecmascript_reference(
        "app/a.tsx",
        &EcmascriptExports::CommonJs,
        &ModuleId::Number(1),
        &ModuleId::Number(2),
        &vec!["a.js".to_string()],
        &Vec::new(),
    );
    manifest.add_entry_css_files("app/page", &vec!["a.css".to_string(), "a.css".to_string()]);
    manifest.add_entry_css_files("app/page", &vec!["b.css".to_string(), "a.css".to_string()]);
    assert!(manifest.is_wf());
    assert_eq!(
        manifest.entry_css_files.get(&"app/page".to_string()),
        Some(&vec!["a.css".to_string(), "b.css".to_string()])
    );
    assert_eq!(manifest.client_modules.get("app/a.tsx"), Some(&entry("*", 1, &["a.js"])));
    let node = manifest.ssr_module_mapping.values.first_mut().unwrap();
    node.module_exports.keys.push("*".to_string());
    node.module_exports.values.push(entry("*", 9, &[]));
    assert!(!manifest.is_wf());
}
