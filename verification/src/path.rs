//! Forward-slash paths below a root, and the few questions the manifests ask of them.

use vstd::prelude::*;
use vstd::string::*;
use crate::text::chars_of;

verus! {

/// `prefix` is the beginning of `s`.
pub open spec fn is_prefix(prefix: Seq<char>, s: Seq<char>) -> bool {
    prefix.len() <= s.len() && s.take(prefix.len() as int) == prefix
}

/// The path of `inner` as seen from `root`: what follows `root` and one `/`,
/// or all of `inner` where `root` is empty. `None` where `inner` is not below `root`.
pub open spec fn relative_path(root: Seq<char>, inner: Seq<char>) -> Option<Seq<char>> {
    if !is_prefix(root, inner) {
        None
    } else if root.len() == 0 {
        Some(inner)
    } else if inner.len() > root.len() && inner[root.len() as int] == '/' {
        Some(inner.skip(root.len() as int + 1))
    } else {
        None
    }
}

/// `dot` is where the extension of `path` begins: the last `.`, with something
/// other than `/` before it and no `/` after it.
pub open spec fn extension_at(path: Seq<char>, dot: int) -> bool {
    &&& 0 < dot < path.len()
    &&& path[dot] == '.'
    &&& path[dot - 1] != '/'
    &&& forall|j: int| dot < j < path.len() ==> path[j] != '.' && path[j] != '/'
}

pub open spec fn has_extension(path: Seq<char>) -> bool {
    exists|dot: int| extension_at(path, dot)
}

/// The extension of `path`, without its dot.
pub open spec fn extension_of(path: Seq<char>) -> Option<Seq<char>> {
    if has_extension(path) {
        Some(path.skip(choose|dot: int| extension_at(path, dot)) .skip(1))
    } else {
        None
    }
}

/// `path` without its extension and the dot before it.
pub open spec fn strip_extension(path: Seq<char>) -> Seq<char> {
    if has_extension(path) {
        path.take(choose|dot: int| extension_at(path, dot))
    } else {
        path
    }
}

/// `name` below `dir`.
pub open spec fn joined(dir: Seq<char>, name: Seq<char>) -> Seq<char> {
    if dir.len() == 0 {
        name
    } else {
        dir + seq!['/'] + name
    }
}

/// A path has at most one place where its extension begins.
pub proof fn lemma_extension_unique(path: Seq<char>, a: int, b: int)
    requires
        extension_at(path, a),
        extension_at(path, b),
    ensures
        a == b,
{
}

/// A root-relative, forward-slash path.
#[derive(Debug, PartialEq, Eq)]
pub struct FileSystemPath {
    pub path: String,
}

impl View for FileSystemPath {
    type V = Seq<char>;

    open spec fn view(&self) -> Seq<char> {
        self.path@
    }
}

/// Where the extension of `chars` begins, if it has one.
fn find_extension(chars: &Vec<char>) -> (r: Option<usize>)
    ensures
        match r {
            Some(dot) => extension_at(chars@, dot as int),
            None => !has_extension(chars@),
        },
{
    let mut i: usize = chars.len();
    while i > 0
        invariant
            i <= chars.len(),
            forall|j: int| i <= j < chars.len() ==> chars@[j] != '.' && chars@[j] != '/',
        decreases i,
    {
        i = i - 1;
        let c = chars[i];
        if c == '/' {
            assert forall|dot: int| !extension_at(chars@, dot) by {
                if extension_at(chars@, dot) {
                    if dot < i {
                        assert(chars@[i as int] != '/');
                    }
                }
            }
            return None;
        }
        if c == '.' {
            if i > 0 && chars[i - 1] != '/' {
                return Some(i);
            }
            assert forall|dot: int| !extension_at(chars@, dot) by {
                if extension_at(chars@, dot) {
                    if dot < i {
                        assert(chars@[i as int] != '.');
                    }
                }
            }
            return None;
        }
    }
    None
}

impl FileSystemPath {
    pub fn new(path: String) -> (r: FileSystemPath)
        ensures
            r.path == path,
    {
        FileSystemPath { path }
    }

    pub fn duplicate(&self) -> (r: FileSystemPath)
        ensures
            r@ == self@,
    {
        FileSystemPath { path: self.path.clone() }
    }

    /// The path of `inner` relative to this one, where `inner` lies below it.
    pub fn get_path_to(&self, inner: &FileSystemPath) -> (r: Option<String>)
        ensures
            match r {
                Some(rel) => relative_path(self@, inner@) == Some(rel@),
                None => relative_path(self@, inner@) is None,
            },
    {
        let root = chars_of(self.path.as_str());
        let whole = chars_of(inner.path.as_str());
        if root.len() > whole.len() {
            return None;
        }
        let mut i: usize = 0;
        while i < root.len()
            invariant
                i <= root.len() <= whole.len(),
                root@ == self@,
                whole@ == inner@,
                forall|j: int| 0 <= j < i ==> root@[j] == whole@[j],
            decreases root.len() - i,
        {
            if root[i] != whole[i] {
                proof {
                    let head = whole@.take(root@.len() as int);
                    assert(head[i as int] == whole@[i as int]);
                    assert(head != root@);
                }
                return None;
            }
            i = i + 1;
        }
        assert(whole@.take(root@.len() as int) =~= root@);
        if root.len() == 0 {
            Some(inner.path.clone())
        } else if whole.len() > root.len() && whole[root.len()] == '/' {
            let rel = inner.path.as_str().substring_char(root.len() + 1, whole.len());
            assert(whole@.subrange(root@.len() as int + 1, whole@.len() as int) =~= whole@.skip(
                root@.len() as int + 1,
            ));
            Some(String::from_str(rel))
        } else {
            None
        }
    }

    /// The extension of the path, without its dot.
    pub fn extension(&self) -> (r: Option<String>)
        ensures
            match r {
                Some(ext) => extension_of(self@) == Some(ext@),
                None => extension_of(self@) is None,
            },
    {
        let chars = chars_of(self.path.as_str());
        match find_extension(&chars) {
            Some(dot) => {
                proof {
                    let d = choose|d: int| extension_at(self@, d);
                    lemma_extension_unique(self@, d, dot as int);
                    assert(self@.subrange(dot as int + 1, self@.len() as int) =~= self@.skip(
                        dot as int,
                    ).skip(1));
                }
                assert(dot < chars.len());
                let ext = self.path.as_str().substring_char(dot + 1, chars.len());
                Some(String::from_str(ext))
            },
            None => None,
        }
    }

    /// Whether the path's extension is `ext`.
    pub fn has_extension(&self, ext: &str) -> (r: bool)
        ensures
            r == (extension_of(self@) == Some(ext@)),
    {
        match self.extension() {
            Some(found) => {
                let wanted = String::from_str(ext);
                found == wanted
            },
            None => false,
        }
    }

    /// The path without its extension.
    pub fn without_extension(&self) -> (r: FileSystemPath)
        ensures
            r@ == strip_extension(self@),
    {
        let chars = chars_of(self.path.as_str());
        match find_extension(&chars) {
            Some(dot) => {
                proof {
                    let d = choose|d: int| extension_at(self@, d);
                    lemma_extension_unique(self@, d, dot as int);
                    assert(self@.subrange(0, dot as int) =~= self@.take(dot as int));
                }
                let stem = self.path.as_str().substring_char(0, dot);
                FileSystemPath { path: String::from_str(stem) }
            },
            None => FileSystemPath { path: self.path.clone() },
        }
    }

    /// The path of `name` below this one.
    pub fn join(&self, name: &str) -> (r: FileSystemPath)
        ensures
            r@ == joined(self@, name@),
    {
        if self.path.as_str().unicode_len() == 0 {
            FileSystemPath { path: String::from_str(name) }
        } else {
            proof {
                reveal_strlit("/");
                assert("/"@ =~= seq!['/']);
            }
            let path = self.path.clone().concat("/").concat(name);
            FileSystemPath { path }
        }
    }
}

} // verus!
