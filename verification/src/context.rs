//! Compilation contexts and the requests that transitions make of the module pipeline.

use vstd::prelude::*;
use vstd::string::*;
use crate::ident::{texts, AssetIdent, AssetIdentView};

verus! {

/// Where compiled code is to run.
#[derive(Clone, Copy, Debug, PartialEq, Eq, Structural)]
pub enum Target {
    Browser,
    ServerRender,
    EdgeWorker,
    PureServer,
}

pub struct ModuleAssetContextView {
    pub target: Target,
    pub transitions: Seq<Seq<char>>,
    pub transition: Option<Seq<char>>,
}

/// The configuration under which a module is compiled: its target, the names
/// of the transitions it knows, and the transition that is set on it, if any.
#[derive(Debug, PartialEq, Eq)]
pub struct ModuleAssetContext {
    pub target: Target,
    pub transitions: Vec<String>,
    pub transition: Option<String>,
}

impl View for ModuleAssetContext {
    type V = ModuleAssetContextView;

    open spec fn view(&self) -> ModuleAssetContextView {
        ModuleAssetContextView {
            target: self.target,
            transitions: texts(self.transitions@),
            transition: match self.transition {
                Some(name) => Some(name@),
                None => None,
            },
        }
    }
}

impl ModuleAssetContext {
    /// A context with no transition set.
    pub fn new(target: Target, transitions: Vec<String>) -> (context: ModuleAssetContext)
        ensures
            context@ == (ModuleAssetContextView {
                target,
                transitions: texts(transitions@),
                transition: None,
            }),
    {
        ModuleAssetContext { target, transitions, transition: None }
    }

    /// This context with the transition `name` set on it.
    pub fn with_transition(&self, name: &str) -> (context: ModuleAssetContext)
        ensures
            context@ == (ModuleAssetContextView { transition: Some(name@), ..self@ }),
    {
        let transitions = self.transitions.clone();
        assert(transitions@ =~= self.transitions@);
        ModuleAssetContext {
            target: self.target,
            transitions,
            transition: Some(String::from_str(name)),
        }
    }

    /// This context with no transition set on it.
    pub fn without_transition(&self) -> (context: ModuleAssetContext)
        ensures
            context@ == (ModuleAssetContextView { transition: None, ..self@ }),
    {
        let transitions = self.transitions.clone();
        assert(transitions@ =~= self.transitions@);
        ModuleAssetContext { target: self.target, transitions, transition: None }
    }

    pub fn duplicate(&self) -> (context: ModuleAssetContext)
        ensures
            context@ == self@,
    {
        let transitions = self.transitions.clone();
        assert(transitions@ =~= self.transitions@);
        ModuleAssetContext {
            target: self.target,
            transitions,
            transition: match &self.transition {
                Some(name) => Some(name.clone()),
                None => None,
            },
        }
    }
}

/// Why a module is asked for.
#[derive(Clone, Copy, Debug, PartialEq, Eq, Structural)]
pub enum ReferenceType {
    /// The entry of a page.
    EntryPage,
    /// The entry of a client component of the app directory.
    EntryAppClientComponent,
    /// A module of the runtime, with inner assets bound to names.
    Internal,
    Undefined,
}

pub struct ProcessRequestView {
    pub source: AssetIdentView,
    pub context: ModuleAssetContextView,
    pub reference_type: ReferenceType,
}

/// One request to the module pipeline: compile `source` under `context`.
#[derive(Debug, PartialEq, Eq)]
pub struct ProcessRequest {
    pub source: AssetIdent,
    pub context: ModuleAssetContext,
    pub reference_type: ReferenceType,
}

impl View for ProcessRequest {
    type V = ProcessRequestView;

    open spec fn view(&self) -> ProcessRequestView {
        ProcessRequestView {
            source: self.source@,
            context: self.context@,
            reference_type: self.reference_type,
        }
    }
}

} // verus!
