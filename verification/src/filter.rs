//! The path filter: a pure decision, for one visited entry, whether it is a
//! candidate, and whether it triggers a bounded sub-walk of its directory.

use vstd::prelude::*;
use crate::text::{contains_seq, contains_str, str_eq};
use crate::types::{ConfigV, Entry, EntryV, TraversalConfig};

verus! {

/// What the filter decides for one entry.
pub enum FilterDecision {
    /// The entry itself is a candidate.
    Accept { path: String, is_directory: bool },
    /// Target match: `dir` is a candidate (always a directory), and a
    /// bounded sub-walk of `dir` follows.
    AcceptAndDescend { dir: String },
    /// Not a candidate. Traversal still descends into rejected directories.
    Reject,
}

/// Mathematical view of a `FilterDecision`.
pub enum DecisionV {
    Accept { path: Seq<char>, is_directory: bool },
    AcceptAndDescend { dir: Seq<char> },
    Reject,
}

impl View for FilterDecision {
    type V = DecisionV;

    open spec fn view(&self) -> DecisionV {
        match self {
            FilterDecision::Accept { path, is_directory } => DecisionV::Accept {
                path: path@,
                is_directory: *is_directory,
            },
            FilterDecision::AcceptAndDescend { dir } => DecisionV::AcceptAndDescend { dir: dir@ },
            FilterDecision::Reject => DecisionV::Reject,
        }
    }
}

/// Plain filtering, used when no target name applies: the entry's kind must
/// agree with `want_directories`, and when a subpath filter is set the
/// absolute path must contain it as a substring.
pub open spec fn plain_accepts(cfg: ConfigV, e: EntryV) -> bool {
    e.is_directory == cfg.want_directories && (cfg.subpath_filter.len() == 0 || contains_seq(
        e.absolute_path,
        cfg.subpath_filter,
    ))
}

/// Whether the entry's base name equals the configured target name.
pub open spec fn target_matches(cfg: ConfigV, e: EntryV) -> bool {
    cfg.target_name.len() > 0 && e.base_name == cfg.target_name
}

/// The filter's full decision. In the main walk with a target name set, only
/// target matches are accepted: the matching directory itself, or the
/// containing directory of a matching file, becomes a candidate and is also
/// sub-walked. Within a sub-walk, or without a target name, plain filtering
/// applies.
pub open spec fn decide_spec(cfg: ConfigV, e: EntryV, in_sub_walk: bool) -> DecisionV {
    if !in_sub_walk && cfg.target_name.len() > 0 {
        if target_matches(cfg, e) {
            if e.is_directory {
                DecisionV::AcceptAndDescend { dir: e.absolute_path }
            } else {
                match e.parent_path {
                    Some(p) => DecisionV::AcceptAndDescend { dir: p },
                    None => DecisionV::Reject,
                }
            }
        } else {
            DecisionV::Reject
        }
    } else {
        if plain_accepts(cfg, e) {
            DecisionV::Accept { path: e.absolute_path, is_directory: e.is_directory }
        } else {
            DecisionV::Reject
        }
    }
}

/// Applies the filter to one entry.
pub fn decide(cfg: &TraversalConfig, e: &Entry, in_sub_walk: bool) -> (d: FilterDecision)
    ensures
        d@ == decide_spec(cfg@, e@, in_sub_walk),
{
    if !in_sub_walk && !cfg.target_name.as_str().is_empty() {
        if str_eq(e.base_name.as_str(), cfg.target_name.as_str()) {
            if e.is_directory {
                FilterDecision::AcceptAndDescend { dir: e.absolute_path.clone() }
            } else {
                match &e.parent_path {
                    Some(p) => FilterDecision::AcceptAndDescend { dir: p.clone() },
                    None => FilterDecision::Reject,
                }
            }
        } else {
            FilterDecision::Reject
        }
    } else {
        let kind_ok = e.is_directory == cfg.want_directories;
        let sub_ok = cfg.subpath_filter.as_str().is_empty() || contains_str(
            e.absolute_path.as_str(),
            cfg.subpath_filter.as_str(),
        );
        if kind_ok && sub_ok {
            FilterDecision::Accept {
                path: e.absolute_path.clone(),
                is_directory: e.is_directory,
            }
        } else {
            FilterDecision::Reject
        }
    }
}

} // verus!
