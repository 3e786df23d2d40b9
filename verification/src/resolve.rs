//! Post-selection resolution: turns the selector's outcome and the
//! configured parameters into a working directory, a target list, and a
//! structured command descriptor. Pure and deterministic; checking that the
//! working directory exists on disk is the caller's affair.

use vstd::prelude::*;
use crate::select::{SelectionResult, SelectionResultV};
use crate::text::str_eq;

verus! {

/// Parameters that shape resolution, fixed before the pipeline starts.
pub struct ResolverConfig {
    /// Explicitly configured files or directories to act on; empty when the
    /// chosen path itself is the target.
    pub explicit_paths: Vec<String>,
    /// Optional sub-directory appended to the working directory; empty when
    /// not set.
    pub subdir: String,
}

/// Where to act and on what: the final product of one run.
pub struct ResolvedAction {
    /// Directory to change into first, if any.
    pub working_directory: Option<String>,
    /// What to act on, in order.
    pub targets: Vec<String>,
}

/// The text the selection stands for: the display path of the last chosen
/// candidate when any were chosen, else whatever the user typed.
pub open spec fn chosen_text(r: SelectionResultV) -> Seq<char> {
    if r.chosen.len() > 0 {
        r.chosen.last().display_path
    } else {
        r.typed_query
    }
}

/// A base directory with the optional sub-directory suffix appended.
pub open spec fn with_subdir(base: Seq<char>, sub: Seq<char>) -> Seq<char> {
    if sub.len() == 0 {
        base
    } else {
        base + seq!['/'] + sub
    }
}

/// Resolves a selection. A non-empty chosen list always wins over the typed
/// query. With explicit paths configured, the chosen directory (plus the
/// optional sub-directory) becomes the working directory and the explicit
/// paths are the targets; otherwise the chosen path itself is the sole
/// target and no directory change occurs. An aborted selection resolves to
/// nothing at all.
pub fn resolve(result: &SelectionResult, cfg: &ResolverConfig) -> (action: ResolvedAction)
    ensures
        result@.aborted ==> {
            &&& action.working_directory is None
            &&& action.targets.deep_view() == Seq::<Seq<char>>::empty()
        },
        !result@.aborted && cfg.explicit_paths@.len() > 0 ==> {
            &&& action.working_directory matches Some(wd) && wd@ == with_subdir(
                chosen_text(result@),
                cfg.subdir@,
            )
            &&& action.targets.deep_view() == cfg.explicit_paths.deep_view()
        },
        !result@.aborted && cfg.explicit_paths@.len() == 0 ==> {
            &&& action.working_directory is None
            &&& action.targets.deep_view() == seq![chosen_text(result@)]
        },
{
    if result.aborted {
        let action = ResolvedAction { working_directory: None, targets: Vec::new() };
        proof {
            assert(action.targets.deep_view() =~= Seq::<Seq<char>>::empty());
        }
        return action;
    }
    let n = result.chosen.len();
    let choice: String = if n > 0 {
        result.chosen[n - 1].display_path.clone()
    } else {
        result.typed_query.clone()
    };
    proof {
        if n > 0 {
            assert(result@.chosen[n - 1] == result.chosen@[n - 1]@);
            assert(result@.chosen.last() == result@.chosen[n - 1]);
        }
        assert(choice@ == chosen_text(result@));
    }
    if cfg.explicit_paths.len() > 0 {
        let mut wd = choice;
        if !cfg.subdir.as_str().is_empty() {
            wd.append("/");
            wd.append(cfg.subdir.as_str());
            proof {
                reveal_strlit("/");
                assert(wd@ =~= with_subdir(chosen_text(result@), cfg.subdir@));
            }
        }
        let mut targets: Vec<String> = Vec::new();
        let mut i: usize = 0;
        while i < cfg.explicit_paths.len()
            invariant
                i <= cfg.explicit_paths@.len(),
                targets.deep_view() == cfg.explicit_paths.deep_view().take(i as int),
            decreases cfg.explicit_paths@.len() - i,
        {
            let ghost t0 = targets.deep_view();
            targets.push(cfg.explicit_paths[i].clone());
            proof {
                assert(targets.deep_view() =~= t0.push(cfg.explicit_paths.deep_view()[i as int]));
                assert(cfg.explicit_paths.deep_view().take(i + 1) =~= t0.push(
                    cfg.explicit_paths.deep_view()[i as int],
                ));
            }
            i += 1;
        }
        proof {
            assert(cfg.explicit_paths.deep_view().take(cfg.explicit_paths@.len() as int)
                =~= cfg.explicit_paths.deep_view());
        }
        ResolvedAction { working_directory: Some(wd), targets }
    } else {
        let mut targets: Vec<String> = Vec::new();
        targets.push(choice);
        proof {
            assert(targets.deep_view() =~= seq![chosen_text(result@)]);
        }
        ResolvedAction { working_directory: None, targets }
    }
}

/// A command as handed to the execution collaborator: a program, its
/// arguments, and whether the controlling terminal is attached to the
/// child's standard streams.
pub struct CommandSpec {
    pub program: String,
    pub args: Vec<String>,
    pub attach_terminal: bool,
}

/// The words of the configured editor command. The plain name `vim` expands
/// to an invocation suited to programmatic use (no terminal warning, panes
/// split vertically, no redraw prompt); any other non-empty editor is taken
/// as the program itself; an empty editor means none is configured.
pub fn editor_words(editor: &str) -> (r: Vec<String>)
    ensures
        editor@ == "vim"@ ==> r.deep_view() == seq![
            "vim"@,
            "--not-a-term"@,
            "-c"@,
            "redraw!"@,
            "-O"@,
        ],
        editor@ != "vim"@ && editor@.len() > 0 ==> r.deep_view() == seq![editor@],
        editor@.len() == 0 ==> r.deep_view() == Seq::<Seq<char>>::empty(),
{
    let mut r: Vec<String> = Vec::new();
    if str_eq(editor, "vim") {
        r.push(String::from_str("vim"));
        r.push(String::from_str("--not-a-term"));
        r.push(String::from_str("-c"));
        r.push(String::from_str("redraw!"));
        r.push(String::from_str("-O"));
        proof {
            reveal_strlit("vim");
            assert("vim"@.len() == 3);
            assert(r.deep_view() =~= seq!["vim"@, "--not-a-term"@, "-c"@, "redraw!"@, "-O"@]);
        }
    } else if !editor.is_empty() {
        r.push(editor.to_owned());
        proof {
            assert(r.deep_view() =~= seq![editor@]);
        }
    } else {
        proof {
            assert(r.deep_view() =~= Seq::<Seq<char>>::empty());
        }
    }
    r
}

/// Builds the command for a resolved action: the first editor word is the
/// program, the remaining words and then the targets are its arguments, and
/// the terminal is attached. With no editor configured there is no command:
/// the caller prints the targets instead.
pub fn build_command(editor_words: &Vec<String>, action: &ResolvedAction) -> (r: Option<
    CommandSpec,
>)
    ensures
        (r is Some) == (editor_words@.len() > 0),
        r matches Some(c) ==> {
            &&& c.program@ == editor_words.deep_view()[0]
            &&& c.args.deep_view() == editor_words.deep_view().skip(1) + action.targets.deep_view()
            &&& c.attach_terminal
        },
{
    if editor_words.len() == 0 {
        return None;
    }
    let program = editor_words[0].clone();
    let mut args: Vec<String> = Vec::new();
    proof {
        assert(args.deep_view() =~= editor_words.deep_view().subrange(1, 1));
    }
    let mut i: usize = 1;
    while i < editor_words.len()
        invariant
            1 <= i <= editor_words@.len(),
            args.deep_view() == editor_words.deep_view().subrange(1, i as int),
        decreases editor_words@.len() - i,
    {
        let ghost a0 = args.deep_view();
        args.push(editor_words[i].clone());
        proof {
            assert(args.deep_view() =~= a0.push(editor_words.deep_view()[i as int]));
            assert(editor_words.deep_view().subrange(1, i + 1) =~= a0.push(
                editor_words.deep_view()[i as int],
            ));
        }
        i += 1;
    }
    proof {
        assert(args.deep_view() =~= editor_words.deep_view().skip(1));
        assert(args.deep_view() =~= editor_words.deep_view().skip(1)
            + action.targets.deep_view().take(0));
    }
    let mut j: usize = 0;
    while j < action.targets.len()
        invariant
            j <= action.targets@.len(),
            args.deep_view() == editor_words.deep_view().skip(1)
                + action.targets.deep_view().take(j as int),
        decreases action.targets@.len() - j,
    {
        let ghost a0 = args.deep_view();
        args.push(action.targets[j].clone());
        proof {
            assert(args.deep_view() =~= a0.push(action.targets.deep_view()[j as int]));
            assert(editor_words.deep_view().skip(1) + action.targets.deep_view().take(j + 1)
                =~= a0.push(action.targets.deep_view()[j as int]));
        }
        j += 1;
    }
    proof {
        assert(editor_words.deep_view().subrange(1, editor_words@.len() as int)
            =~= editor_words.deep_view().skip(1));
        assert(action.targets.deep_view().take(action.targets@.len() as int)
            =~= action.targets.deep_view());
    }
    Some(CommandSpec { program, args, attach_terminal: true })
}

} // verus!
