//! The validated command-line parameters, assembled from plain values.
//! Parsing the command line itself belongs to the outside; this module
//! holds what comes out of it and derives the traversal parameters.

use vstd::prelude::*;
use crate::text::{bool_str, dec_rep, join_spaced, join_spaced_spec, usize_string};
use crate::types::TraversalConfig;

verus! {

/// All recognized options of one run.
pub struct Args {
    /// Initial query text for the selector.
    pub query: String,
    /// Root to search in.
    pub source: String,
    /// Target file or directory name used to filter choices; empty if none.
    pub target: String,
    /// Specific files or directories to open, joined with single spaces;
    /// empty if none.
    pub paths: String,
    /// Editor command used to open the choice; empty if none.
    pub editor: String,
    /// Chosen color scheme name; empty for the default.
    pub color: String,
    /// Maximum depth of the directory search.
    pub depth: usize,
    /// Whether the selector runs fullscreen.
    pub fullscreen: bool,
    /// Whether the preview pane is suppressed.
    pub nopreview: bool,
    /// Whether to print informational output.
    pub verbose: bool,
}

/// Spec of a boolean's text.
pub open spec fn bool_rep(b: bool) -> Seq<char> {
    if b {
        "true"@
    } else {
        "false"@
    }
}

/// The one-line description `describe` renders.
pub open spec fn describe_spec(a: Args) -> Seq<char> {
    "ARGS: query=\""@ + a.query@ + "\" source=\""@ + a.source@ + "\" target=\""@ + a.target@
        + "\" paths=\""@ + a.paths@ + "\" editor=\""@ + a.editor@ + "\" color=\""@ + a.color@
        + "\" depth="@ + dec_rep(a.depth as nat) + " fullscreen="@ + bool_rep(a.fullscreen)
        + " nopreview="@ + bool_rep(a.nopreview) + " verbose="@ + bool_rep(a.verbose)
}

impl Args {
    /// Builds the argument record from already-parsed values; the explicit
    /// paths are joined into one space-separated field.
    pub fn new(
        query: String,
        source: String,
        target: String,
        paths: Vec<String>,
        editor: String,
        color: String,
        depth: usize,
        fullscreen: bool,
        nopreview: bool,
        verbose: bool,
    ) -> (a: Args)
        ensures
            a.query == query,
            a.source == source,
            a.target == target,
            a.paths@ == join_spaced_spec(paths.deep_view()),
            a.editor == editor,
            a.color == color,
            a.depth == depth,
            a.fullscreen == fullscreen,
            a.nopreview == nopreview,
            a.verbose == verbose,
    {
        let joined = join_spaced(&paths);
        Args {
            query,
            source,
            target,
            paths: joined,
            editor,
            color,
            depth,
            fullscreen,
            nopreview,
            verbose,
        }
    }

    /// One line describing every option, for verbose output.
    pub fn describe(&self) -> (r: String)
        ensures
            r@ == describe_spec(*self),
    {
        let mut r = String::from_str("ARGS: query=\"");
        r.append(self.query.as_str());
        r.append("\" source=\"");
        r.append(self.source.as_str());
        r.append("\" target=\"");
        r.append(self.target.as_str());
        r.append("\" paths=\"");
        r.append(self.paths.as_str());
        r.append("\" editor=\"");
        r.append(self.editor.as_str());
        r.append("\" color=\"");
        r.append(self.color.as_str());
        r.append("\" depth=");
        let depth_text = usize_string(self.depth);
        r.append(depth_text.as_str());
        r.append(" fullscreen=");
        r.append(bool_str(self.fullscreen));
        r.append(" nopreview=");
        r.append(bool_str(self.nopreview));
        r.append(" verbose=");
        r.append(bool_str(self.verbose));
        proof {
            assert(r@ =~= describe_spec(*self));
        }
        r
    }

    /// The traversal parameters this argument record calls for: the source
    /// is the sole root, the target name and depth carry over, and
    /// directories are wanted exactly when explicit paths were given.
    pub fn to_traversal_config(&self) -> (c: TraversalConfig)
        ensures
            c.root_paths.deep_view() == seq![self.source@],
            c.max_depth == self.depth,
            c.target_name == self.target,
            c.want_directories == (self.paths@.len() > 0),
            c.subpath_filter@.len() == 0,
    {
        let mut roots: Vec<String> = Vec::new();
        roots.push(self.source.clone());
        proof {
            assert(roots.deep_view() =~= seq![self.source@]);
        }
        TraversalConfig {
            root_paths: roots,
            max_depth: self.depth,
            target_name: self.target.clone(),
            want_directories: !self.paths.as_str().is_empty(),
            subpath_filter: String::new(),
        }
    }
}

} // verus!
