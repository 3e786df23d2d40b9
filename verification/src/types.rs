//! Data model of the pipeline: traversal parameters, one filesystem entry as
//! the walker reports it, and one candidate offered to the user.

use vstd::prelude::*;

verus! {

/// Immutable parameters of one traversal run. `target_name` and
/// `subpath_filter` are optional; an empty string means "not set".
pub struct TraversalConfig {
    /// Roots to walk, in order.
    pub root_paths: Vec<String>,
    /// Bound on the number of path segments below each walk root; depth 0 is
    /// the root itself.
    pub max_depth: usize,
    /// When set, an entry with this base name marks its containing directory
    /// as a point of interest.
    pub target_name: String,
    /// Whether plain filtering accepts directories (true) or files (false).
    pub want_directories: bool,
    /// When set, plainly filtered entries must contain this as a substring
    /// of their absolute path.
    pub subpath_filter: String,
}

/// Mathematical view of a `TraversalConfig`.
#[verifier::ext_equal]
pub struct ConfigV {
    pub root_paths: Seq<Seq<char>>,
    pub max_depth: nat,
    pub target_name: Seq<char>,
    pub want_directories: bool,
    pub subpath_filter: Seq<char>,
}

impl View for TraversalConfig {
    type V = ConfigV;

    open spec fn view(&self) -> ConfigV {
        ConfigV {
            root_paths: self.root_paths.deep_view(),
            max_depth: self.max_depth as nat,
            target_name: self.target_name@,
            want_directories: self.want_directories,
            subpath_filter: self.subpath_filter@,
        }
    }
}

/// One filesystem entry as the walking collaborator reports it: plain data,
/// no handle to the filesystem.
pub struct Entry {
    /// Absolute path of the entry.
    pub absolute_path: String,
    /// Base name (the last path segment).
    pub base_name: String,
    /// Absolute path of the containing directory, if the entry has one.
    pub parent_path: Option<String>,
    /// Whether the entry is a directory.
    pub is_directory: bool,
    /// Number of path segments below the root of the walk that produced it.
    pub depth: usize,
}

/// Mathematical view of an `Entry`.
#[verifier::ext_equal]
pub struct EntryV {
    pub absolute_path: Seq<char>,
    pub base_name: Seq<char>,
    pub parent_path: Option<Seq<char>>,
    pub is_directory: bool,
    pub depth: nat,
}

impl View for Entry {
    type V = EntryV;

    open spec fn view(&self) -> EntryV {
        EntryV {
            absolute_path: self.absolute_path@,
            base_name: self.base_name@,
            parent_path: self.parent_path.deep_view(),
            is_directory: self.is_directory,
            depth: self.depth as nat,
        }
    }
}

impl DeepView for Entry {
    type V = EntryV;

    open spec fn deep_view(&self) -> EntryV {
        self.view()
    }
}

/// One path accepted by the filter, as offered to the user.
pub struct Candidate {
    /// Home-relative, tilde-substituted form shown to the user.
    pub display_path: String,
    /// Absolute form of the same path.
    pub absolute_path: String,
    /// Whether the candidate is a directory.
    pub is_directory: bool,
}

/// Mathematical view of a `Candidate`.
#[verifier::ext_equal]
pub struct CandidateV {
    pub display_path: Seq<char>,
    pub absolute_path: Seq<char>,
    pub is_directory: bool,
}

impl View for Candidate {
    type V = CandidateV;

    open spec fn view(&self) -> CandidateV {
        CandidateV {
            display_path: self.display_path@,
            absolute_path: self.absolute_path@,
            is_directory: self.is_directory,
        }
    }
}

impl DeepView for Candidate {
    type V = CandidateV;

    open spec fn deep_view(&self) -> CandidateV {
        self.view()
    }
}

impl Clone for Candidate {
    fn clone(&self) -> (c: Self)
        ensures
            c@ == self@,
    {
        Candidate {
            display_path: self.display_path.clone(),
            absolute_path: self.absolute_path.clone(),
            is_directory: self.is_directory,
        }
    }
}

} // verus!
