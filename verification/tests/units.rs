use eddy::args::Args;
use eddy::color::colorscheme;
use eddy::filter::{decide, FilterDecision};
use eddy::resolve::{build_command, editor_words, resolve, ResolverConfig};
use eddy::select::SelectionResult;
use eddy::text::{bool_str, contains_str, join_spaced, starts_with_str, str_eq, tilde_display, usize_string};
use eddy::types::{Candidate, Entry, TraversalConfig};

const CMYK: &str = "bg+:-1,border:#0000ff,pointer:#0bc7e3,prompt:#feaf3c,info:#0000ff,fg:#0000ff,fg+:#0bc7e3,hl:#ff00ff,hl+:#ff00ff";
const OUTRUN: &str = "bg+:-1,border:#541388,pointer:#ef2b63,prompt:#0bc7e3,info:#541388,fg:#541388,fg+:#ef2b63,hl:#0bc7e3,hl+:#0bc7e3";
const SUBMARINER: &str = "bg+:-1,border:#1d485f,pointer:#0bc7e3,prompt:#db662d,info:#1d485f,fg:#1d485f,fg+:#0bc7e3,hl:#db662d,hl+:#db662d";

fn args_with_color(color: &str) -> Args {
    Args::new(
        String::new(),
        "/home/u".to_string(),
        String::new(),
        Vec::new(),
        String::new(),
        color.to_string(),
        4,
        false,
        false,
        false,
    )
}

#[test]
fn string_helpers() {
    assert!(str_eq("abc", "abc"));
    assert!(!str_eq("abc", "abd"));
    assert!(!str_eq("abc", "ab"));
    assert!(contains_str("hello world", "lo wo"));
    assert!(contains_str("hello", ""));
    assert!(!contains_str("hello", "world"));
    assert!(!contains_str("ab", "abc"));
    assert!(starts_with_str("hello", "he"));
    assert!(!starts_with_str("hello", "el"));
    assert!(starts_with_str("hello", ""));
}

#[test]
fn tilde_substitution() {
    assert_eq!(tilde_display("/home/u/code", "/home/u"), "~/code");
    assert_eq!(tilde_display("/etc/hosts", "/home/u"), "/etc/hosts");
    assert_eq!(tilde_display("/home/u", "/home/u"), "~");
    assert_eq!(tilde_display("/home/u/code", ""), "/home/u/code");
}

#[test]
fn decimal_rendering() {
    assert_eq!(usize_string(0), "0");
    assert_eq!(usize_string(7), "7");
    assert_eq!(usize_string(42), "42");
    assert_eq!(usize_string(1234), "1234");
    assert_eq!(bool_str(true), "true");
    assert_eq!(bool_str(false), "false");
}

#[test]
fn joining_paths() {
    assert_eq!(join_spaced(&Vec::new()), "");
    assert_eq!(join_spaced(&vec!["a".to_string()]), "a");
    assert_eq!(
        join_spaced(&vec!["a".to_string(), "b".to_string(), "c".to_string()]),
        "a b c",
    );
    assert_eq!(join_spaced(&vec![String::new()]), "");
}

#[test]
fn args_describe_line() {
    let a = Args::new(
        "q".to_string(),
        "/s".to_string(),
        "t".to_string(),
        vec!["a".to_string(), "b".to_string()],
        "vim".to_string(),
        "c".to_string(),
        4,
        true,
        false,
        true,
    );
    assert_eq!(a.paths, "a b");
    assert_eq!(
        a.describe(),
        "ARGS: query=\"q\" source=\"/s\" target=\"t\" paths=\"a b\" editor=\"vim\" color=\"c\" depth=4 fullscreen=true nopreview=false verbose=true",
    );
}

#[test]
fn args_to_traversal_config() {
    let a = Args::new(
        String::new(),
        "/home/u".to_string(),
        "Cargo.toml".to_string(),
        vec!["x".to_string()],
        String::new(),
        String::new(),
        3,
        false,
        false,
        false,
    );
    let c = a.to_traversal_config();
    assert_eq!(c.root_paths, vec!["/home/u"]);
    assert_eq!(c.max_depth, 3);
    assert_eq!(c.target_name, "Cargo.toml");
    assert!(c.want_directories);
    assert_eq!(c.subpath_filter, "");

    let b = Args::new(
        String::new(),
        "/home/u".to_string(),
        String::new(),
        Vec::new(),
        String::new(),
        String::new(),
        4,
        false,
        false,
        false,
    );
    assert!(!b.to_traversal_config().want_directories);
}

#[test]
fn colorscheme_by_name() {
    assert_eq!(colorscheme(&args_with_color("cmyk")), CMYK);
    assert_eq!(colorscheme(&args_with_color("c")), CMYK);
    assert_eq!(colorscheme(&args_with_color("outrun")), OUTRUN);
    assert_eq!(colorscheme(&args_with_color("o")), OUTRUN);
    assert_eq!(colorscheme(&args_with_color("submariner")), SUBMARINER);
    assert_eq!(colorscheme(&args_with_color("s")), SUBMARINER);
    assert_eq!(colorscheme(&args_with_color("")), SUBMARINER);
    assert_eq!(colorscheme(&args_with_color("unknown")), SUBMARINER);
    let random = colorscheme(&args_with_color("random"));
    assert!(random == CMYK || random == OUTRUN || random == SUBMARINER);
    let random_short = colorscheme(&args_with_color("r"));
    assert!(random_short == CMYK || random_short == OUTRUN || random_short == SUBMARINER);
}

#[test]
fn filter_decisions() {
    let cfg = TraversalConfig {
        root_paths: vec!["/r".to_string()],
        max_depth: 4,
        target_name: String::new(),
        want_directories: false,
        subpath_filter: "note".to_string(),
    };
    let file_match = Entry {
        absolute_path: "/r/notes.txt".to_string(),
        base_name: "notes.txt".to_string(),
        parent_path: Some("/r".to_string()),
        is_directory: false,
        depth: 1,
    };
    match decide(&cfg, &file_match, false) {
        FilterDecision::Accept { path, is_directory } => {
            assert_eq!(path, "/r/notes.txt");
            assert!(!is_directory);
        }
        _ => panic!("expected a plain accept"),
    }
    let dir_entry = Entry {
        absolute_path: "/r/notes".to_string(),
        base_name: "notes".to_string(),
        parent_path: Some("/r".to_string()),
        is_directory: true,
        depth: 1,
    };
    assert!(matches!(decide(&cfg, &dir_entry, false), FilterDecision::Reject));

    let tcfg = TraversalConfig {
        root_paths: vec!["/r".to_string()],
        max_depth: 4,
        target_name: "Cargo.toml".to_string(),
        want_directories: false,
        subpath_filter: String::new(),
    };
    let manifest = Entry {
        absolute_path: "/r/p/Cargo.toml".to_string(),
        base_name: "Cargo.toml".to_string(),
        parent_path: Some("/r/p".to_string()),
        is_directory: false,
        depth: 2,
    };
    match decide(&tcfg, &manifest, false) {
        FilterDecision::AcceptAndDescend { dir } => assert_eq!(dir, "/r/p"),
        _ => panic!("expected a target match"),
    }
    let other = Entry {
        absolute_path: "/r/p/main.rs".to_string(),
        base_name: "main.rs".to_string(),
        parent_path: Some("/r/p".to_string()),
        is_directory: false,
        depth: 2,
    };
    assert!(matches!(decide(&tcfg, &other, false), FilterDecision::Reject));
}

fn confirmed(chosen: Vec<Candidate>, typed: &str) -> SelectionResult {
    SelectionResult { aborted: false, typed_query: typed.to_string(), chosen }
}

fn cand(display: &str) -> Candidate {
    Candidate {
        display_path: display.to_string(),
        absolute_path: display.to_string(),
        is_directory: true,
    }
}

#[test]
fn resolver_precedence() {
    let with_files = ResolverConfig {
        explicit_paths: vec!["f1".to_string(), "f2".to_string()],
        subdir: String::new(),
    };
    let no_files = ResolverConfig { explicit_paths: Vec::new(), subdir: String::new() };

    let action = resolve(&confirmed(vec![cand("~/proj")], "typed"), &with_files);
    assert_eq!(action.working_directory.as_deref(), Some("~/proj"));
    assert_eq!(action.targets, vec!["f1", "f2"]);

    let action = resolve(&confirmed(vec![cand("~/proj")], "typed"), &no_files);
    assert!(action.working_directory.is_none());
    assert_eq!(action.targets, vec!["~/proj"]);

    let action = resolve(&confirmed(vec![cand("~/a"), cand("~/b")], ""), &no_files);
    assert_eq!(action.targets, vec!["~/b"]);

    let action = resolve(&confirmed(Vec::new(), "typed"), &with_files);
    assert_eq!(action.working_directory.as_deref(), Some("typed"));
    assert_eq!(action.targets, vec!["f1", "f2"]);

    let sub = ResolverConfig {
        explicit_paths: vec!["f".to_string()],
        subdir: "src".to_string(),
    };
    let action = resolve(&confirmed(vec![cand("~/proj")], ""), &sub);
    assert_eq!(action.working_directory.as_deref(), Some("~/proj/src"));

    let aborted = SelectionResult {
        aborted: true,
        typed_query: "typed".to_string(),
        chosen: vec![cand("~/proj")],
    };
    let action = resolve(&aborted, &with_files);
    assert!(action.working_directory.is_none());
    assert!(action.targets.is_empty());
}

#[test]
fn editor_command_words() {
    assert_eq!(
        editor_words("vim"),
        vec!["vim", "--not-a-term", "-c", "redraw!", "-O"],
    );
    assert_eq!(editor_words("nano"), vec!["nano"]);
    assert!(editor_words("").is_empty());
}

#[test]
fn command_construction() {
    let words = editor_words("vim");
    let action = resolve(
        &confirmed(vec![cand("~/proj")], ""),
        &ResolverConfig { explicit_paths: Vec::new(), subdir: String::new() },
    );
    let cmd = build_command(&words, &action).expect("an editor is configured");
    assert_eq!(cmd.program, "vim");
    assert_eq!(cmd.args, vec!["--not-a-term", "-c", "redraw!", "-O", "~/proj"]);
    assert!(cmd.attach_terminal);

    let none = build_command(&Vec::new(), &action);
    assert!(none.is_none());
}
