use next_core::chunk::{Chunk, ModuleId};
use next_core::context::{ModuleAssetContext, ReferenceType, Target};
use next_core::error::Error;
use next_core::ident::AssetIdent;
use next_core::module::{
    Capability, ChunkableAsset, CssChunkPlaceable, EcmascriptChunkPlaceable, EcmascriptExports,
    Module,
};
use next_core::next_client_component::server_to_client_transition::NextServerToClientTransition;
use next_core::next_client_reference::css_client_reference_asset::CssClientReferenceAsset;
use next_core::next_dynamic::dynamic_asset::NextDynamicEntryAsset;
use next_core::next_dynamic::dynamic_transition::NextDynamicTransition;
use next_core::next_edge::context::{
    defines, get_edge_compile_time_info, get_edge_resolve_options_context, next_edge_free_vars,
    CompileTimeDefineValue, EnvironmentIntention, FreeVarReference,
};
use next_core::next_server_component::server_component_asset::{
    server_component_chunk_item_code, stringify_module_id, NextServerComponentAsset,
};
use next_core::next_server_component::server_component_reference::{
    ident_to_string, ChunkingType, NextServerComponentAssetReference,
};
use next_core::next_server_component::server_component_transition::NextServerComponentTransition;
use next_core::next_client_reference::css_client_reference_asset::CssClientReferenceAssetVc;
use next_core::next_dynamic::dynamic_asset::NextDynamicEntryAssetVc;
use next_core::next_server_component::server_component_reference::NextServerComponentAssetReferenceVc;
use next_core::next_server_component::server_component_transition::NextServerComponentTransitionVc;
use next_core::ordered_map::OrderedMap;
use next_core::path::FileSystemPath;
use next_core::text::chars_of;

fn path(text: &str) -> FileSystemPath {
    FileSystemPath::new(text.to_string())
}

fn ident(text: &str) -> AssetIdent {
    AssetIdent::from_path(path(text))
}

fn script(at: &str) -> Module {
    Module {
        ident: ident(at),
        capability: Capability::EcmascriptExporting {
            exports: EcmascriptExports::CommonJs,
            id: ModuleId::Number(5),
        },
    }
}

#[test]
fn relative_path_below_a_root() {
    assert_eq!(path("client").get_path_to(&path("client/static/a.js")), Some("static/a.js".to_string()));
    assert_eq!(path("client").get_path_to(&path("client/")), Some(String::new()));
    assert_eq!(path("").get_path_to(&path("static/a.js")), Some("static/a.js".to_string()));
    assert_eq!(path("").get_path_to(&path("")), Some(String::new()));
    assert_eq!(path("a/b").get_path_to(&path("a/b/c/d")), Some("c/d".to_string()));
    assert_eq!(path("день").get_path_to(&path("день/ночь.js")), Some("ночь.js".to_string()));
}

#[test]
fn relative_path_outside_a_root() {
    assert_eq!(path("client").get_path_to(&path("client")), None);
    assert_eq!(path("client").get_path_to(&path("clientele/a.js")), None);
    assert_eq!(path("client").get_path_to(&path("server/a.js")), None);
    assert_eq!(path("client/static").get_path_to(&path("client")), None);
    assert_eq!(path("client").get_path_to(&path("")), None);
}

#[test]
fn extension_of_a_path() {
    assert_eq!(path("a/b.css").extension(), Some("css".to_string()));
    assert_eq!(path("a/b.module.css").extension(), Some("css".to_string()));
    assert_eq!(path("b.").extension(), Some(String::new()));
    assert_eq!(path("a/b").extension(), None);
    assert_eq!(path("a.d/b").extension(), None);
    assert_eq!(path("a/.css").extension(), None);
    assert_eq!(path(".css").extension(), None);
    assert_eq!(path("").extension(), None);
    assert!(path("x/y.css").has_extension("css"));
    assert!(!path("x/y.js").has_extension("css"));
    assert!(!path("x/css").has_extension("css"));
    assert!(!path("x/y.scss").has_extension("css"));
}

#[test]
fn path_without_its_extension() {
    assert_eq!(path("app/page.tsx").without_extension(), path("app/page"));
    assert_eq!(path("app/page.d.ts").without_extension(), path("app/page.d"));
    assert_eq!(path("app/page").without_extension(), path("app/page"));
    assert_eq!(path("app.dir/page").without_extension(), path("app.dir/page"));
    assert_eq!(path("app/.hidden").without_extension(), path("app/.hidden"));
    assert_eq!(path("").without_extension(), path(""));
}

#[test]
fn path_below_a_directory() {
    assert_eq!(path("a").join("b.js"), path("a/b.js"));
    assert_eq!(path("").join("b.js"), path("b.js"));
    assert_eq!(path("a/b").join("c/d"), path("a/b/c/d"));
    assert_eq!(path("a").duplicate(), path("a"));
}

#[test]
fn characters_of_a_string() {
    assert_eq!(chars_of("a/ü.js"), vec!['a', '/', 'ü', '.', 'j', 's']);
    assert_eq!(chars_of(""), Vec::<char>::new());
}

#[test]
fn identity_with_modifiers() {
    let plain = ident("app/a.tsx");
    assert!(plain.modifiers.is_empty());
    assert_eq!(plain.path(), &path("app/a.tsx"));
    let once = plain.with_modifier("first");
    let twice = once.with_modifier("second");
    assert_eq!(once.modifiers, vec!["first".to_string()]);
    assert_eq!(twice.modifiers, vec!["first".to_string(), "second".to_string()]);
    assert_eq!(twice.path, path("app/a.tsx"));
    assert_eq!(plain.with_modifier("first"), once);
    assert_eq!(twice.duplicate(), twice);
    assert_ne!(once, plain);
}

#[test]
fn identity_as_text() {
    assert_eq!(ident_to_string(&ident("app/a.tsx")), "app/a.tsx");
    assert_eq!(ident_to_string(&ident("app/a.tsx").with_modifier("x")), "app/a.tsx (x)");
    assert_eq!(
        ident_to_string(&ident("app/a.tsx").with_modifier("x").with_modifier("y z").with_modifier("w")),
        "app/a.tsx (x, y z, w)"
    );
}

#[test]
fn modules_resolve_by_capability() {
    assert_eq!(
        script("a.js").resolve_ecmascript(),
        Ok(EcmascriptChunkPlaceable {
            ident: ident("a.js"),
            exports: EcmascriptExports::CommonJs,
            id: ModuleId::Number(5),
        })
    );
    for capability in [Capability::Plain, Capability::Chunkable, Capability::CssExporting] {
        let module = Module { ident: ident("a"), capability };
        assert_eq!(module.resolve_ecmascript(), Err(Error::CapabilityMismatch));
    }
    let sheet = Module { ident: ident("a.css"), capability: Capability::CssExporting };
    assert_eq!(sheet.resolve_css(), Ok(CssChunkPlaceable { ident: ident("a.css") }));
    assert_eq!(script("a.js").resolve_css(), Err(Error::CapabilityMismatch));
    assert_eq!(
        Module { ident: ident("a"), capability: Capability::Chunkable }.resolve_css(),
        Err(Error::CapabilityMismatch)
    );
    assert_eq!(script("a.js").resolve_chunkable(), Ok(ChunkableAsset { ident: ident("a.js") }));
    assert_eq!(
        Module { ident: ident("a.css"), capability: Capability::CssExporting }.resolve_chunkable(),
        Ok(ChunkableAsset { ident: ident("a.css") })
    );
    assert_eq!(
        Module { ident: ident("a"), capability: Capability::Plain }.resolve_chunkable(),
        Err(Error::CapabilityMismatch)
    );
}

#[test]
fn stylesheet_marker() {
    let marker = CssClientReferenceAsset::new(CssChunkPlaceable { ident: ident("app/g.css") });
    assert_eq!(marker.ident(), ident("app/g.css").with_modifier("css client reference"));
    assert_eq!(marker.content(), Err(Error::MarkerHasNoContent));
    assert!(marker.references().is_empty());
    assert_eq!(marker.parse_css(), &CssChunkPlaceable { ident: ident("app/g.css") });
}

#[test]
fn server_component_marker() {
    let transition = NextServerComponentTransition::new();
    let marker = transition.process_module(script("app/page.tsx")).unwrap();
    assert_eq!(marker.server_path(), path("app/page.tsx"));
    assert_eq!(marker.ident(), ident("app/page.tsx").with_modifier("Next.js server component"));
    assert_eq!(marker.content(), Err(Error::MarkerHasNoContent));
    assert!(marker.references().is_empty());
    assert_eq!(marker.get_exports(), EcmascriptExports::Other);
    let item = marker.as_chunk_item();
    assert_eq!(
        item.content(),
        "__turbopack_esm__({\n    default: () => __turbopack_import__(5),\n});\n"
    );
    assert_eq!(item.asset_ident(), ident("app/page.tsx").with_modifier("Next.js server component"));
    assert!(item.references().is_empty());
}

#[test]
fn server_component_transition_needs_a_script() {
    let transition = NextServerComponentTransition::new();
    for capability in [Capability::Plain, Capability::Chunkable, Capability::CssExporting] {
        let module = Module { ident: ident("a"), capability };
        assert_eq!(transition.process_module(module), Err(Error::CapabilityMismatch));
    }
}

#[test]
fn chunk_item_code_imports_by_id() {
    assert_eq!(stringify_module_id(&ModuleId::Number(0)), "0");
    assert_eq!(stringify_module_id(&ModuleId::Number(4294967295)), "4294967295");
    assert_eq!(stringify_module_id(&ModuleId::String("a\"b".to_string())), "\"a\\\"b\"");
    assert_eq!(
        server_component_chunk_item_code("\"[project]/a.js\""),
        "__turbopack_esm__({\n    default: () => __turbopack_import__(\"[project]/a.js\"),\n});\n"
    );
    let marker = NextServerComponentAsset::new(EcmascriptChunkPlaceable {
        ident: ident("a.js"),
        exports: EcmascriptExports::CommonJs,
        id: ModuleId::String("a.js".to_string()),
    });
    assert_eq!(
        marker.as_chunk_item().content(),
        "__turbopack_esm__({\n    default: () => __turbopack_import__(\"a.js\"),\n});\n"
    );
}

#[test]
fn server_component_reference() {
    let reference = NextServerComponentAssetReference::new(ident("app/page.tsx").with_modifier("m"));
    assert_eq!(reference.to_string(), "Next.js server component app/page.tsx (m)");
    assert_eq!(reference.resolve_reference(), ident("app/page.tsx").with_modifier("m"));
    assert_eq!(reference.chunking_type(), Some(ChunkingType::IsolatedParallel));
}

#[test]
fn dynamic_marker() {
    let transition = NextDynamicTransition::new(ModuleAssetContext::new(Target::Browser, Vec::new()));
    let request = transition.request(&ident("app/lazy.tsx"));
    assert_eq!(request.source, ident("app/lazy.tsx"));
    assert_eq!(request.context, ModuleAssetContext::new(Target::Browser, Vec::new()));
    assert_eq!(request.reference_type, ReferenceType::Undefined);
    let marker = transition.process(script("client/lazy.tsx"));
    assert_eq!(marker.ident(), ident("client/lazy.tsx").with_modifier("dynamic"));
    assert_eq!(marker.content(), Err(Error::MarkerHasNoContent));
    assert!(marker.references().is_empty());
    let group = vec![Chunk::new(path("client/lazy.js"))];
    assert_eq!(marker.client_chunks(vec![Chunk::new(path("client/lazy.js"))]), Ok(group));
    let plain = NextDynamicEntryAsset::new(Module { ident: ident("x"), capability: Capability::Plain });
    assert_eq!(plain.client_chunks(Vec::new()), Err(Error::CapabilityMismatch));
}

#[test]
fn server_to_client_with_server_rendering() {
    let context = ModuleAssetContext::new(Target::PureServer, vec!["next-client-chunks".to_string()]);
    let plan = NextServerToClientTransition { ssr: true }.process(&ident("app/button.tsx"), &context);
    assert_eq!(plan.client_chunks.source, ident("app/button.tsx"));
    assert_eq!(plan.client_chunks.context, context.with_transition("next-client-chunks"));
    assert_eq!(plan.client_chunks.reference_type, ReferenceType::EntryAppClientComponent);
    let client_module = plan.client_module.unwrap();
    assert_eq!(client_module.source, ident("app/button.tsx"));
    assert_eq!(client_module.context, context.with_transition("next-ssr-client-module"));
    assert_eq!(client_module.reference_type, ReferenceType::EntryAppClientComponent);
    assert_eq!(plan.entry.source, ident("entry/app/server-to-client-ssr.tsx"));
    assert_eq!(plan.entry.context, context);
    assert_eq!(plan.entry.reference_type, ReferenceType::Internal);
    assert_eq!(plan.inner_assets, vec!["CLIENT_MODULE".to_string(), "CLIENT_CHUNKS".to_string()]);
}

#[test]
fn server_to_client_without_server_rendering() {
    let context = ModuleAssetContext::new(Target::PureServer, Vec::new());
    let plan = NextServerToClientTransition { ssr: false }.process(&ident("app/button.tsx"), &context);
    assert_eq!(plan.client_chunks.context.transition, Some("next-client-chunks".to_string()));
    assert_eq!(plan.client_module, None);
    assert_eq!(plan.entry.source, ident("entry/app/server-to-client.tsx"));
    assert_eq!(plan.inner_assets, vec!["CLIENT_CHUNKS".to_string()]);
}

#[test]
fn context_with_and_without_transition() {
    let context = ModuleAssetContext::new(Target::EdgeWorker, vec!["a".to_string(), "b".to_string()]);
    assert_eq!(context.transition, None);
    let set = context.with_transition("a");
    assert_eq!(set.transition, Some("a".to_string()));
    assert_eq!(set.target, Target::EdgeWorker);
    assert_eq!(set.transitions, vec!["a".to_string(), "b".to_string()]);
    assert_eq!(set.without_transition(), context);
    assert_eq!(set.duplicate(), set);
    assert_eq!(context.without_transition(), context);
}

#[test]
fn edge_defines_and_free_vars() {
    let defined = defines();
    let names: Vec<&str> = defined.iter().map(|define| define.name.as_str()).collect();
    assert_eq!(
        names,
        vec![
            "process.turbopack",
            "process.env.NODE_ENV",
            "process.env.__NEXT_CLIENT_ROUTER_FILTER_ENABLED",
            "process.env.NEXT_RUNTIME"
        ]
    );
    assert_eq!(defined[0].value, CompileTimeDefineValue::Bool(true));
    assert_eq!(defined[1].value, CompileTimeDefineValue::String("development".to_string()));
    assert_eq!(defined[2].value, CompileTimeDefineValue::Bool(false));
    assert_eq!(defined[3].value, CompileTimeDefineValue::String("edge".to_string()));

    let vars = next_edge_free_vars(&path("project"));
    assert_eq!(vars.len(), 6);
    for i in 0..4 {
        assert_eq!(vars[i].name, defined[i].name);
    }
    assert_eq!(vars[1].reference, FreeVarReference::Value(CompileTimeDefineValue::String("development".to_string())));
    assert_eq!(vars[4].name, "Buffer");
    assert_eq!(
        vars[4].reference,
        FreeVarReference::EcmaScriptModule {
            request: "next/dist/compiled/buffer".to_string(),
            context: Some(path("project")),
            export: Some("Buffer".to_string()),
        }
    );
    assert_eq!(vars[5].name, "process");
    assert_eq!(
        vars[5].reference,
        FreeVarReference::EcmaScriptModule {
            request: "next/dist/build/polyfills/process".to_string(),
            context: Some(path("project")),
            export: Some("default".to_string()),
        }
    );

    let info = get_edge_compile_time_info(
        &path("project"),
        "127.0.0.1:3000".to_string(),
        EnvironmentIntention::Middleware,
    );
    assert_eq!(info.server_addr, "127.0.0.1:3000");
    assert_eq!(info.intention, EnvironmentIntention::Middleware);
    assert_eq!(info.defines, defined);
    assert_eq!(info.free_var_references, vars);
}

#[test]
fn edge_resolve_options() {
    let context = get_edge_resolve_options_context(&path("project"), &path(""), "edge map", "foreign");
    assert!(context.options.enable_typescript);
    assert!(context.options.enable_react);
    assert!(context.options.module);
    assert!(context.options.browser);
    assert_eq!(context.options.enable_node_modules, Some(path("")));
    assert_eq!(
        context.options.custom_conditions,
        vec!["edge-light".to_string(), "worker".to_string(), "development".to_string()]
    );
    assert_eq!(context.options.import_map, Some("edge map".to_string()));
    assert_eq!(context.options.unsupported_modules_plugins, vec![path("project")]);
    assert_eq!(context.rules.len(), 1);
    let (condition, foreign) = &context.rules[0];
    assert_eq!(condition, "foreign");
    assert!(!foreign.enable_typescript);
    assert!(!foreign.enable_react);
    assert!(foreign.module);
    assert!(foreign.browser);
    assert_eq!(foreign.custom_conditions, context.options.custom_conditions);
    assert_eq!(foreign.import_map, context.options.import_map);
    assert_eq!(foreign.enable_node_modules, context.options.enable_node_modules);
    assert_eq!(foreign.unsupported_modules_plugins, context.options.unsupported_modules_plugins);
}

#[test]
fn ordered_map_keeps_first_places() {
    let mut map: OrderedMap<String, u8> = OrderedMap::new();
    assert_eq!(map.len(), 0);
    map.insert("b".to_string(), 1);
    map.insert("a".to_string(), 2);
    map.insert("b".to_string(), 3);
    assert_eq!(map.len(), 2);
    assert_eq!(map.keys, vec!["b".to_string(), "a".to_string()]);
    assert_eq!(map.values, vec![3, 2]);
    assert_eq!(map.get(&"a".to_string()), Some(&2));
    assert_eq!(map.get(&"c".to_string()), None);
    assert_eq!(map.position(&"a".to_string()), Some(1));
    assert_eq!(map.position(&"c".to_string()), None);
}

#[test]
fn ordered_map_well_formedness() {
    let good: OrderedMap<String, u8> =
        OrderedMap { keys: vec!["a".to_string(), "b".to_string()], values: vec![1, 2] };
    assert!(good.is_wf());
    let twice: OrderedMap<String, u8> =
        OrderedMap { keys: vec!["a".to_string(), "b".to_string(), "a".to_string()], values: vec![1, 2, 3] };
    assert!(!twice.is_wf());
    let short: OrderedMap<String, u8> = OrderedMap { keys: vec!["a".to_string()], values: vec![] };
    assert!(!short.is_wf());
    let empty: OrderedMap<String, u8> = OrderedMap::new();
    assert!(empty.is_wf());
}

#[test]
fn markers_are_made_under_their_handle_names() {
    let marker = CssClientReferenceAssetVc::new(CssChunkPlaceable { ident: ident("a.css") });
    assert_eq!(marker.client_asset.ident, ident("a.css"));
    let dynamic = NextDynamicEntryAssetVc::new(script("a.js"));
    assert_eq!(dynamic.client_entry_asset, script("a.js"));
    let reference = NextServerComponentAssetReferenceVc::new(ident("a.js"));
    assert_eq!(reference.asset, ident("a.js"));
    assert_eq!(NextServerComponentTransitionVc::new(), NextServerComponentTransition::new());
}
