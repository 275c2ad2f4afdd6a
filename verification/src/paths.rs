//! Paths as sequences of components.
//!
//! A path is held as the list of its components, in order, each a piece of
//! text without separators. An absolute path starts with the component `/`.
//! Nesting, parents and children are then plain facts about sequences.

use vstd::prelude::*;

verus! {

/// The name of the file that marks a directory as a project root.
pub open spec fn marker_name() -> Seq<char> {
    "pyproject.toml"@
}

/// The name of the directory in which a project conventionally keeps its
/// virtual environment.
pub open spec fn conventional_name() -> Seq<char> {
    ".venv"@
}

/// The component that an absolute path starts with.
pub open spec fn root_name() -> Seq<char> {
    "/"@
}

/// Whether `base` is a leading run of the components of `path`.
pub open spec fn is_nested(path: Seq<Seq<char>>, base: Seq<Seq<char>>) -> bool {
    base.len() <= path.len() && path.subrange(0, base.len() as int) == base
}

/// Whether the last component of `path` is the marker file's name.
pub open spec fn is_marker(path: Seq<Seq<char>>) -> bool {
    path.len() > 0 && path.last() == marker_name()
}

/// Whether a path has a parent: it is neither empty nor the root alone.
pub open spec fn has_parent(path: Seq<Seq<char>>) -> bool {
    path.len() > 0 && !(path.len() == 1 && path[0] == root_name())
}

/// The text of a path: its components in order, a `/` between two of them
/// unless the text so far already ends in one.
pub open spec fn rendered(path: Seq<Seq<char>>) -> Seq<char>
    decreases path.len(),
{
    if path.len() == 0 {
        Seq::empty()
    } else {
        let head = rendered(path.drop_last());
        if head.len() > 0 && head.last() != '/' {
            head + "/"@ + path.last()
        } else {
            head + path.last()
        }
    }
}

/// A filesystem path, one `String` per component.
#[derive(Debug, PartialEq, Eq)]
pub struct ScanPath {
    pub parts: Vec<String>,
}

impl View for ScanPath {
    type V = Seq<Seq<char>>;

    open spec fn view(&self) -> Seq<Seq<char>> {
        Seq::new(self.parts@.len(), |i: int| self.parts@[i]@)
    }
}

impl Clone for ScanPath {
    fn clone(&self) -> (copy: Self)
        ensures
            copy@ == self@,
    {
        let mut parts: Vec<String> = Vec::new();
        let mut i: usize = 0;
        while i < self.parts.len()
            invariant
                i <= self.parts.len(),
                parts@.len() == i,
                forall|k: int| 0 <= k < i ==> parts@[k]@ == self.parts@[k]@,
            decreases self.parts.len() - i,
        {
            parts.push(self.parts[i].clone());
            i += 1;
        }
        let copy = ScanPath { parts };
        copy
    }
}

impl ScanPath {
    /// The path with the given components.
    pub fn from_parts(parts: Vec<String>) -> (path: ScanPath)
        ensures
            path@ == Seq::new(parts@.len(), |i: int| parts@[i]@),
    {
        ScanPath { parts }
    }

    /// The number of components.
    pub fn len(&self) -> (n: usize)
        ensures
            n == self@.len(),
    {
        self.parts.len()
    }

    /// Whether `base` is this path or one of its ancestors, component by
    /// component.
    pub fn starts_with(&self, base: &ScanPath) -> (nested: bool)
        ensures
            nested == is_nested(self@, base@),
    {
        if base.parts.len() > self.parts.len() {
            return false;
        }
        let mut i: usize = 0;
        while i < base.parts.len()
            invariant
                i <= base.parts.len() <= self.parts.len(),
                forall|k: int| 0 <= k < i ==> self@[k] == base@[k],
            decreases base.parts.len() - i,
        {
            if self.parts[i] != base.parts[i] {
                assert(base@[i as int] == base.parts@[i as int]@);
                return false;
            }
            i += 1;
        }
        assert(self@.subrange(0, base@.len() as int) =~= base@);
        true
    }

    /// Whether the path names a marker file.
    pub fn is_marker(&self) -> (found: bool)
        ensures
            found == is_marker(self@),
    {
        let n = self.parts.len();
        if n == 0 {
            return false;
        }
        let marker = String::from_str("pyproject.toml");
        self.parts[n - 1] == marker
    }

    /// The path without its last component; `None` for the empty path and
    /// for the root `/`, which have no parent.
    pub fn parent(&self) -> (up: Option<ScanPath>)
        ensures
            match up {
                Some(p) => has_parent(self@) && p@ == self@.drop_last(),
                None => !has_parent(self@),
            },
    {
        let n = self.parts.len();
        if n == 0 {
            return None;
        }
        if n == 1 {
            let root = String::from_str("/");
            if self.parts[0] == root {
                return None;
            }
        }
        let mut parts: Vec<String> = Vec::new();
        let mut i: usize = 0;
        while i < n - 1
            invariant
                n == self.parts.len(),
                n >= 1,
                i <= n - 1,
                parts@.len() == i,
                forall|k: int| 0 <= k < i ==> parts@[k]@ == self.parts@[k]@,
            decreases n - 1 - i,
        {
            parts.push(self.parts[i].clone());
            i += 1;
        }
        let p = ScanPath { parts };
        Some(p)
    }

    /// The path as text, as it is shown to the operator and handed to
    /// whoever opens it.
    pub fn render(&self) -> (text: String)
        ensures
            text@ == rendered(self@),
    {
        let mut text = String::new();
        let mut open_end = false;
        let mut i: usize = 0;
        while i < self.parts.len()
            invariant
                i <= self.parts.len(),
                text@ == rendered(self@.take(i as int)),
                open_end == (text@.len() > 0 && text@.last() != '/'),
            decreases self.parts.len() - i,
        {
            let part = self.parts[i].as_str();
            proof {
                reveal_strlit("/");
                assert(self@.take(i + 1).drop_last() =~= self@.take(i as int));
            }
            if open_end {
                text.append("/");
            }
            text.append(part);
            let n = part.unicode_len();
            open_end = n > 0 && part.get_char(n - 1) != '/';
            i += 1;
        }
        assert(self@.take(i as int) =~= self@);
        text
    }

    /// The path one component below this one.
    pub fn join(&self, name: &str) -> (child: ScanPath)
        ensures
            child@ == self@.push(name@),
    {
        let mut child = self.clone();
        child.parts.push(String::from_str(name));
        child
    }
}

/// Every path is nested in itself, and in the empty path.
pub proof fn lemma_nesting_is_reflexive(path: Seq<Seq<char>>)
    ensures
        is_nested(path, path),
        is_nested(path, Seq::empty()),
{
    assert(path.subrange(0, path.len() as int) =~= path);
    assert(path.subrange(0, 0) =~= Seq::<Seq<char>>::empty());
}

/// What is nested in a path that is nested in a third one is nested in the
/// third one: a claimed root covers the whole tree below it.
pub proof fn lemma_nesting_is_transitive(
    path: Seq<Seq<char>>,
    middle: Seq<Seq<char>>,
    base: Seq<Seq<char>>,
)
    requires
        is_nested(path, middle),
        is_nested(middle, base),
    ensures
        is_nested(path, base),
{
    let n = base.len() as int;
    assert forall|i: int| 0 <= i < n implies path.subrange(0, n)[i] == base[i] by {
        assert(path.subrange(0, middle.len() as int)[i] == path[i]);
        assert(middle.subrange(0, n)[i] == middle[i]);
    }
    assert(path.subrange(0, n) =~= base);
}

/// A path is nested in its parent.
pub proof fn lemma_child_is_nested(parent: Seq<Seq<char>>, name: Seq<char>)
    ensures
        is_nested(parent.push(name), parent),
{
    assert(parent.push(name).subrange(0, parent.len() as int) =~= parent);
}

} // verus!
