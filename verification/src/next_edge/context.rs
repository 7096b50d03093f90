//! The compile-time information and the resolve options of the edge runtime.

use vstd::prelude::*;
use vstd::string::*;
use crate::ident::texts;
use crate::path::FileSystemPath;

verus! {

/// The value that a name has at compile time.
#[derive(Debug, PartialEq, Eq)]
pub enum CompileTimeDefineValue {
    Bool(bool),
    String(String),
}

pub enum CompileTimeDefineValueView {
    Bool(bool),
    String(Seq<char>),
}

impl View for CompileTimeDefineValue {
    type V = CompileTimeDefineValueView;

    open spec fn view(&self) -> CompileTimeDefineValueView {
        match self {
            CompileTimeDefineValue::Bool(value) => CompileTimeDefineValueView::Bool(*value),
            CompileTimeDefineValue::String(value) => CompileTimeDefineValueView::String(value@),
        }
    }
}

/// A dotted name with the value it has at compile time.
#[derive(Debug, PartialEq, Eq)]
pub struct CompileTimeDefine {
    pub name: String,
    pub value: CompileTimeDefineValue,
}

impl View for CompileTimeDefine {
    type V = (Seq<char>, CompileTimeDefineValueView);

    open spec fn view(&self) -> (Seq<char>, CompileTimeDefineValueView) {
        (self.name@, self.value@)
    }
}

/// What a free variable of a module refers to.
#[derive(Debug, PartialEq, Eq)]
pub enum FreeVarReference {
    /// An export of a module that is resolved from `context`.
    EcmaScriptModule { request: String, context: Option<FileSystemPath>, export: Option<String> },
    /// A value known at compile time.
    Value(CompileTimeDefineValue),
}

pub enum FreeVarReferenceView {
    EcmaScriptModule { request: Seq<char>, context: Option<Seq<char>>, export: Option<Seq<char>> },
    Value(CompileTimeDefineValueView),
}

impl View for FreeVarReference {
    type V = FreeVarReferenceView;

    open spec fn view(&self) -> FreeVarReferenceView {
        match self {
            FreeVarReference::EcmaScriptModule { request, context, export } => {
                FreeVarReferenceView::EcmaScriptModule {
                    request: request@,
                    context: match context {
                        Some(path) => Some(path@),
                        None => None,
                    },
                    export: match export {
                        Some(name) => Some(name@),
                        None => None,
                    },
                }
            },
            FreeVarReference::Value(value) => FreeVarReferenceView::Value(value@),
        }
    }
}

/// A free variable, by its dotted name, with what it refers to.
#[derive(Debug, PartialEq, Eq)]
pub struct FreeVar {
    pub name: String,
    pub reference: FreeVarReference,
}

impl View for FreeVar {
    type V = (Seq<char>, FreeVarReferenceView);

    open spec fn view(&self) -> (Seq<char>, FreeVarReferenceView) {
        (self.name@, self.reference@)
    }
}

/// What a build is meant for.
#[derive(Clone, Copy, Debug, PartialEq, Eq, Structural)]
pub enum EnvironmentIntention {
    Api,
    Page,
    Middleware,
    ServerRendering,
}

/// What is known of the edge runtime while compiling for it.
#[derive(Debug, PartialEq, Eq)]
pub struct CompileTimeInfo {
    /// The address of the server that the edge worker runs for.
    pub server_addr: String,
    pub intention: EnvironmentIntention,
    pub defines: Vec<CompileTimeDefine>,
    pub free_var_references: Vec<FreeVar>,
}

/// The names that are defined for the edge runtime, with their values.
pub open spec fn edge_defines() -> Seq<(Seq<char>, CompileTimeDefineValueView)> {
    seq![
        ("process.turbopack"@, CompileTimeDefineValueView::Bool(true)),
        ("process.env.NODE_ENV"@, CompileTimeDefineValueView::String("development"@)),
        (
            "process.env.__NEXT_CLIENT_ROUTER_FILTER_ENABLED"@,
            CompileTimeDefineValueView::Bool(false),
        ),
        ("process.env.NEXT_RUNTIME"@, CompileTimeDefineValueView::String("edge"@)),
    ]
}

/// The free variables of the edge runtime: each defined name with its value,
/// then `Buffer` and `process`, which come from modules resolved from the
/// project.
pub open spec fn edge_free_vars(project_path: Seq<char>) -> Seq<(Seq<char>, FreeVarReferenceView)> {
    Seq::new(
        edge_defines().len(),
        |i: int| (edge_defines()[i].0, FreeVarReferenceView::Value(edge_defines()[i].1)),
    ) + seq![
        (
            "Buffer"@,
            FreeVarReferenceView::EcmaScriptModule {
                request: "next/dist/compiled/buffer"@,
                context: Some(project_path),
                export: Some("Buffer"@),
            },
        ),
        (
            "process"@,
            FreeVarReferenceView::EcmaScriptModule {
                request: "next/dist/build/polyfills/process"@,
                context: Some(project_path),
                export: Some("default"@),
            },
        ),
    ]
}

/// The views of `defines`, in order.
pub open spec fn define_views(defines: Seq<CompileTimeDefine>) -> Seq<
    (Seq<char>, CompileTimeDefineValueView),
> {
    Seq::new(defines.len(), |i: int| defines[i]@)
}

/// The views of `vars`, in order.
pub open spec fn free_var_views(vars: Seq<FreeVar>) -> Seq<(Seq<char>, FreeVarReferenceView)> {
    Seq::new(vars.len(), |i: int| vars[i]@)
}

/// The names that are defined for the edge runtime.
pub fn defines() -> (defines: Vec<CompileTimeDefine>)
    ensures
        define_views(defines@) == edge_defines(),
{
    let mut defines: Vec<CompileTimeDefine> = Vec::new();
    defines.push(
        CompileTimeDefine {
            name: String::from_str("process.turbopack"),
            value: CompileTimeDefineValue::Bool(true),
        },
    );
    defines.push(
        CompileTimeDefine {
            name: String::from_str("process.env.NODE_ENV"),
            value: CompileTimeDefineValue::String(String::from_str("development")),
        },
    );
    defines.push(
        CompileTimeDefine {
            name: String::from_str("process.env.__NEXT_CLIENT_ROUTER_FILTER_ENABLED"),
            value: CompileTimeDefineValue::Bool(false),
        },
    );
    defines.push(
        CompileTimeDefine {
            name: String::from_str("process.env.NEXT_RUNTIME"),
            value: CompileTimeDefineValue::String(String::from_str("edge")),
        },
    );
    assert(define_views(defines@) =~= edge_defines());
    defines
}

/// The free variables of the edge runtime for the project at `project_path`.
pub fn next_edge_free_vars(project_path: &FileSystemPath) -> (vars: Vec<FreeVar>)
    ensures
        free_var_views(vars@) == edge_free_vars(project_path@),
{
    let mut defined = defines();
    let ghost all = defined@;
    let mut vars: Vec<FreeVar> = Vec::new();
    while defined.len() > 0
        invariant
            vars@.len() + defined@.len() == all.len(),
            forall|i: int| 0 <= i < vars@.len() ==> (#[trigger] vars@[i])@ == (
                all[i]@.0,
                FreeVarReferenceView::Value(all[i]@.1),
            ),
            forall|i: int| 0 <= i < defined@.len() ==> defined@[i] == all[vars@.len() + i],
        decreases defined@.len(),
    {
        let define = defined.remove(0);
        vars.push(FreeVar { name: define.name, reference: FreeVarReference::Value(define.value) });
    }
    vars.push(
        FreeVar {
            name: String::from_str("Buffer"),
            reference: FreeVarReference::EcmaScriptModule {
                request: String::from_str("next/dist/compiled/buffer"),
                context: Some(project_path.duplicate()),
                export: Some(String::from_str("Buffer")),
            },
        },
    );
    vars.push(
        FreeVar {
            name: String::from_str("process"),
            reference: FreeVarReference::EcmaScriptModule {
                request: String::from_str("next/dist/build/polyfills/process"),
                context: Some(project_path.duplicate()),
                export: Some(String::from_str("default")),
            },
        },
    );
    assert(free_var_views(vars@) =~= edge_free_vars(project_path@)) by {
        assert(define_views(all) == edge_defines());
        assert forall|i: int| 0 <= i < all.len() implies all[i]@ == edge_defines()[i] by {
            assert(define_views(all)[i] == all[i]@);
        }
    }
    vars
}

/// The compile-time information of an edge worker that runs for the server at
/// `server_addr`.
pub fn get_edge_compile_time_info(
    project_path: &FileSystemPath,
    server_addr: String,
    intention: EnvironmentIntention,
) -> (info: CompileTimeInfo)
    ensures
        info.server_addr == server_addr,
        info.intention == intention,
        define_views(info.defines@) == edge_defines(),
        free_var_views(info.free_var_references@) == edge_free_vars(project_path@),
{
    CompileTimeInfo {
        server_addr,
        intention,
        defines: defines(),
        free_var_references: next_edge_free_vars(project_path),
    }
}

/// How modules are resolved: the kinds of source that are understood, where
/// packages are looked for, the conditions of package exports that apply, and
/// the import map.
#[derive(Debug, PartialEq, Eq)]
pub struct ResolveOptions {
    pub enable_typescript: bool,
    pub enable_react: bool,
    /// The directory below which `node_modules` directories are searched.
    pub enable_node_modules: Option<FileSystemPath>,
    pub custom_conditions: Vec<String>,
    /// The name of the import map.
    pub import_map: Option<String>,
    pub module: bool,
    pub browser: bool,
    /// The projects for which modules that the runtime lacks are reported.
    pub unsupported_modules_plugins: Vec<FileSystemPath>,
}

pub struct ResolveOptionsView {
    pub enable_typescript: bool,
    pub enable_react: bool,
    pub enable_node_modules: Option<Seq<char>>,
    pub custom_conditions: Seq<Seq<char>>,
    pub import_map: Option<Seq<char>>,
    pub module: bool,
    pub browser: bool,
    pub unsupported_modules_plugins: Seq<Seq<char>>,
}

impl View for ResolveOptions {
    type V = ResolveOptionsView;

    open spec fn view(&self) -> ResolveOptionsView {
        ResolveOptionsView {
            enable_typescript: self.enable_typescript,
            enable_react: self.enable_react,
            enable_node_modules: match self.enable_node_modules {
                Some(path) => Some(path@),
                None => None,
            },
            custom_conditions: texts(self.custom_conditions@),
            import_map: match self.import_map {
                Some(name) => Some(name@),
                None => None,
            },
            module: self.module,
            browser: self.browser,
            unsupported_modules_plugins: Seq::new(
                self.unsupported_modules_plugins@.len(),
                |i: int| self.unsupported_modules_plugins@[i]@,
            ),
        }
    }
}

/// Resolve options, with other options for the code that a condition selects.
#[derive(Debug, PartialEq, Eq)]
pub struct ResolveOptionsContext {
    pub options: ResolveOptions,
    /// For each condition, by its name, the options for the code it selects.
    pub rules: Vec<(String, ResolveOptions)>,
}

/// The resolve options of foreign code at the edge: packages below `root`, the
/// conditions of the edge runtime, ES modules and browser fields.
pub open spec fn edge_foreign_options(
    project_path: Seq<char>,
    root: Seq<char>,
    import_map: Seq<char>,
) -> ResolveOptionsView {
    ResolveOptionsView {
        enable_typescript: false,
        enable_react: false,
        enable_node_modules: Some(root),
        custom_conditions: seq!["edge-light"@, "worker"@, "development"@],
        import_map: Some(import_map),
        module: true,
        browser: true,
        unsupported_modules_plugins: seq![project_path],
    }
}

fn edge_options(
    project_path: &FileSystemPath,
    root: &FileSystemPath,
    import_map: &str,
    own_code: bool,
) -> (options: ResolveOptions)
    ensures
        options@ == (ResolveOptionsView {
            enable_typescript: own_code,
            enable_react: own_code,
            ..edge_foreign_options(project_path@, root@, import_map@)
        }),
{
    let mut custom_conditions: Vec<String> = Vec::new();
    custom_conditions.push(String::from_str("edge-light"));
    custom_conditions.push(String::from_str("worker"));
    custom_conditions.push(String::from_str("development"));
    assert(texts(custom_conditions@) =~= seq!["edge-light"@, "worker"@, "development"@]);
    let mut plugins: Vec<FileSystemPath> = Vec::new();
    plugins.push(project_path.duplicate());
    let options = ResolveOptions {
        enable_typescript: own_code,
        enable_react: own_code,
        enable_node_modules: Some(root.duplicate()),
        custom_conditions,
        import_map: Some(String::from_str(import_map)),
        module: true,
        browser: true,
        unsupported_modules_plugins: plugins,
    };
    assert(options@.unsupported_modules_plugins =~= seq![project_path@]);
    options
}

/// The resolve options of the edge runtime for the project at `project_path`
/// on the file system with the root `root`: for the project's own code
/// TypeScript and React besides the options of foreign code, and for the code
/// that `foreign_code_condition` selects those options alone.
pub fn get_edge_resolve_options_context(
    project_path: &FileSystemPath,
    root: &FileSystemPath,
    import_map: &str,
    foreign_code_condition: &str,
) -> (context: ResolveOptionsContext)
    ensures
        context.options@ == (ResolveOptionsView {
            enable_typescript: true,
            enable_react: true,
            ..edge_foreign_options(project_path@, root@, import_map@)
        }),
        context.rules@.len() == 1,
        context.rules@[0].0@ == foreign_code_condition@,
        context.rules@[0].1@ == edge_foreign_options(project_path@, root@, import_map@),
{
    let foreign = edge_options(project_path, root, import_map, false);
    let mut rules: Vec<(String, ResolveOptions)> = Vec::new();
    rules.push((String::from_str(foreign_code_condition), foreign));
    ResolveOptionsContext { options: edge_options(project_path, root, import_map, true), rules }
}

} // verus!
