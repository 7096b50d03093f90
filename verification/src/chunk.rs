//! Output chunks, the ids of their items, and the chunks of one client reference.

use vstd::prelude::*;
use crate::path::FileSystemPath;

verus! {

/// A physical output unit, known by the path it is written to.
#[derive(Debug, PartialEq, Eq)]
pub struct Chunk {
    pub path: FileSystemPath,
}

impl View for Chunk {
    type V = Seq<char>;

    open spec fn view(&self) -> Seq<char> {
        self.path@
    }
}

impl Chunk {
    pub fn new(path: FileSystemPath) -> (chunk: Chunk)
        ensures
            chunk.path == path,
    {
        Chunk { path }
    }

    pub fn duplicate(&self) -> (chunk: Chunk)
        ensures
            chunk@ == self@,
    {
        Chunk { path: self.path.duplicate() }
    }
}

/// The paths of `chunks`, in order.
pub open spec fn chunk_paths(chunks: Seq<Chunk>) -> Seq<Seq<char>> {
    Seq::new(chunks.len(), |i: int| chunks[i]@)
}

/// A copy of `chunks`.
pub fn duplicate_chunks(chunks: &Vec<Chunk>) -> (copy: Vec<Chunk>)
    ensures
        chunk_paths(copy@) == chunk_paths(chunks@),
{
    let mut copy: Vec<Chunk> = Vec::new();
    let mut i: usize = 0;
    while i < chunks.len()
        invariant
            i <= chunks@.len(),
            copy@.len() == i,
            forall|j: int| 0 <= j < i ==> copy@[j]@ == chunks@[j]@,
        decreases chunks@.len() - i,
    {
        copy.push(chunks[i].duplicate());
        i = i + 1;
    }
    assert(chunk_paths(copy@) =~= chunk_paths(chunks@));
    copy
}

/// The id that the chunking algorithm gives to a module's chunk item.
#[derive(Debug, PartialEq, Eq)]
pub enum ModuleId {
    Number(u32),
    String(String),
}

pub enum ModuleIdView {
    Number(u32),
    String(Seq<char>),
}

impl View for ModuleId {
    type V = ModuleIdView;

    open spec fn view(&self) -> ModuleIdView {
        match self {
            ModuleId::Number(number) => ModuleIdView::Number(*number),
            ModuleId::String(string) => ModuleIdView::String(string@),
        }
    }
}

/// What `ClientReferenceChunks` holds: the paths of its chunks.
pub struct ClientReferenceChunksView {
    pub client_chunks: Seq<Seq<char>>,
    pub ssr_chunks: Seq<Seq<char>>,
}

/// The chunks corresponding to a client reference.
#[derive(Debug, PartialEq, Eq)]
pub struct ClientReferenceChunks {
    /// Chunks to be loaded on the client.
    pub client_chunks: Vec<Chunk>,
    /// Chunks to be loaded on the server for SSR.
    pub ssr_chunks: Vec<Chunk>,
}

impl View for ClientReferenceChunks {
    type V = ClientReferenceChunksView;

    open spec fn view(&self) -> ClientReferenceChunksView {
        ClientReferenceChunksView {
            client_chunks: chunk_paths(self.client_chunks@),
            ssr_chunks: chunk_paths(self.ssr_chunks@),
        }
    }
}

impl ClientReferenceChunks {
    pub fn duplicate(&self) -> (copy: ClientReferenceChunks)
        ensures
            copy@ == self@,
    {
        ClientReferenceChunks {
            client_chunks: duplicate_chunks(&self.client_chunks),
            ssr_chunks: duplicate_chunks(&self.ssr_chunks),
        }
    }
}

} // verus!
