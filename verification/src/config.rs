//! What the operator asked for, and what the walk hands over.

use vstd::prelude::*;
use crate::paths::ScanPath;

verus! {

/// The settings of one run, fixed when it starts.
#[derive(Debug, PartialEq, Eq)]
pub struct ScanConfiguration {
    /// Where the walk starts.
    pub root: ScanPath,
    /// Remove what is found, instead of reporting it.
    pub delete: bool,
    /// How many levels below the root the walk may go, if it is limited.
    pub max_depth: Option<usize>,
    /// Look for projects inside projects as well.
    pub deep: bool,
    /// Explain every decision on the error stream.
    pub debug: bool,
    /// Remove without asking.
    pub non_interactive: bool,
}

/// The settings of a run as plain values.
pub ghost struct ConfigurationView {
    pub root: Seq<Seq<char>>,
    pub delete: bool,
    pub max_depth: Option<usize>,
    pub deep: bool,
    pub debug: bool,
    pub non_interactive: bool,
}

impl View for ScanConfiguration {
    type V = ConfigurationView;

    open spec fn view(&self) -> ConfigurationView {
        ConfigurationView {
            root: self.root@,
            delete: self.delete,
            max_depth: self.max_depth,
            deep: self.deep,
            debug: self.debug,
            non_interactive: self.non_interactive,
        }
    }
}

/// The root of a run that names none: the current directory.
pub open spec fn default_root() -> Seq<Seq<char>> {
    seq!["."@]
}

/// Whether a node `depth` levels below the root is within `limit`.
pub open spec fn within_depth(limit: Option<usize>, depth: usize) -> bool {
    match limit {
        Some(deepest) => depth <= deepest,
        None => true,
    }
}

impl Clone for ScanConfiguration {
    fn clone(&self) -> (copy: Self)
        ensures
            copy@ == self@,
    {
        ScanConfiguration {
            root: self.root.clone(),
            delete: self.delete,
            max_depth: self.max_depth,
            deep: self.deep,
            debug: self.debug,
            non_interactive: self.non_interactive,
        }
    }
}

impl ScanConfiguration {
    /// The settings for a run. Without a root the run starts in the current
    /// directory.
    pub fn new(
        root: Option<ScanPath>,
        delete: bool,
        max_depth: Option<usize>,
        deep: bool,
        debug: bool,
        non_interactive: bool,
    ) -> (config: ScanConfiguration)
        ensures
            config@ == (ConfigurationView {
                root: match root {
                    Some(path) => path@,
                    None => default_root(),
                },
                delete,
                max_depth,
                deep,
                debug,
                non_interactive,
            }),
    {
        let root = match root {
            Some(path) => path,
            None => {
                let mut parts: Vec<String> = Vec::new();
                parts.push(String::from_str("."));
                let here = ScanPath::from_parts(parts);
                assert(here@ =~= default_root());
                here
            },
        };
        ScanConfiguration { root, delete, max_depth, deep, debug, non_interactive }
    }

    /// Whether the walk visits a node `depth` levels below the root: always
    /// without a limit, and down to the limit itself with one.
    pub fn admits_depth(&self, depth: usize) -> (visited: bool)
        ensures
            visited == within_depth(self@.max_depth, depth),
    {
        match self.max_depth {
            Some(deepest) => depth <= deepest,
            None => true,
        }
    }
}

/// With a limit, a node at the limit is visited, and no node below the
/// limit is: not the one a single level deeper, nor any other.
pub proof fn lemma_depth_boundary(limit: usize, deeper: usize)
    requires
        deeper > limit,
    ensures
        within_depth(Some(limit), limit),
        !within_depth(Some(limit), deeper),
{
}

/// One node that the walk yielded.
#[derive(Debug, PartialEq, Eq)]
pub struct TraversalEntry {
    /// Where the node lies.
    pub path: ScanPath,
    /// How many levels below the root it lies.
    pub depth: usize,
    /// Whether it was still there when it was looked at.
    pub exists: bool,
}

/// A node of the walk as plain values.
pub ghost struct EntryView {
    pub path: Seq<Seq<char>>,
    pub depth: usize,
    pub exists: bool,
}

impl View for TraversalEntry {
    type V = EntryView;

    open spec fn view(&self) -> EntryView {
        EntryView { path: self.path@, depth: self.depth, exists: self.exists }
    }
}

} // verus!
