use eddy::channel::{CandidateChannel, RecvOutcome};
use eddy::resolve::{resolve, ResolverConfig};
use eddy::select::{Selector, SelectorEvent};
use eddy::traverse::Traverser;
use eddy::types::{Candidate, Entry, TraversalConfig};

fn entry(path: &str, name: &str, parent: Option<&str>, is_directory: bool, depth: usize) -> Entry {
    Entry {
        absolute_path: path.to_string(),
        base_name: name.to_string(),
        parent_path: parent.map(|p| p.to_string()),
        is_directory,
        depth,
    }
}

fn config(
    root: &str,
    max_depth: usize,
    target: &str,
    want_directories: bool,
    subpath: &str,
) -> TraversalConfig {
    TraversalConfig {
        root_paths: vec![root.to_string()],
        max_depth,
        target_name: target.to_string(),
        want_directories,
        subpath_filter: subpath.to_string(),
    }
}

fn displays(selector: &Selector) -> Vec<String> {
    selector.candidates.iter().map(|c| c.display_path.clone()).collect()
}

#[test]
fn scenario_target_walk_emits_parents_in_order() {
    let home = "/home/u";
    let cfg = config("/home/u/code", 4, "Cargo.toml", true, "");
    let mut tr = Traverser::new(cfg, home.to_string());
    let mut chan = CandidateChannel::new();

    let main_entries = vec![
        entry("/home/u/code", "code", Some("/home/u"), true, 0),
        entry("/home/u/code/proj1", "proj1", Some("/home/u/code"), true, 1),
        entry(
            "/home/u/code/proj1/Cargo.toml",
            "Cargo.toml",
            Some("/home/u/code/proj1"),
            false,
            2,
        ),
        entry("/home/u/code/proj2", "proj2", Some("/home/u/code"), true, 1),
        entry("/home/u/code/proj2/sub", "sub", Some("/home/u/code/proj2"), true, 2),
        entry(
            "/home/u/code/proj2/sub/Cargo.toml",
            "Cargo.toml",
            Some("/home/u/code/proj2/sub"),
            false,
            3,
        ),
    ];
    let r = tr.run(&main_entries, false, &mut chan);
    assert!(!r.stopped);
    assert_eq!(r.examined, 6);
    assert_eq!(r.descents, vec!["/home/u/code/proj1", "/home/u/code/proj2/sub"]);

    let sub1 = vec![
        entry("/home/u/code/proj1", "proj1", Some("/home/u/code"), true, 0),
        entry(
            "/home/u/code/proj1/Cargo.toml",
            "Cargo.toml",
            Some("/home/u/code/proj1"),
            false,
            1,
        ),
    ];
    let r1 = tr.run(&sub1, true, &mut chan);
    assert!(!r1.stopped);
    assert!(r1.descents.is_empty());

    let sub2 = vec![
        entry("/home/u/code/proj2/sub", "sub", Some("/home/u/code/proj2"), true, 0),
        entry(
            "/home/u/code/proj2/sub/Cargo.toml",
            "Cargo.toml",
            Some("/home/u/code/proj2/sub"),
            false,
            1,
        ),
    ];
    let r2 = tr.run(&sub2, true, &mut chan);
    assert!(!r2.stopped);
    chan.finish();

    let mut sel = Selector::new(String::new());
    let auto = sel.pump(&mut chan);
    assert!(auto.is_none());
    assert_eq!(displays(&sel), vec!["~/code/proj1", "~/code/proj2/sub"]);

    let res = sel.on_event(SelectorEvent::Accept(vec![0])).expect("accept ends the session");
    assert!(!res.aborted);
    assert_eq!(res.chosen.len(), 1);
    assert_eq!(res.chosen[0].display_path, "~/code/proj1");
}

#[test]
fn scenario_no_match_falls_back_to_typed_query() {
    let cfg = config("/home/u", 4, "", false, "notes");
    let mut tr = Traverser::new(cfg, "/home/u".to_string());
    let mut chan = CandidateChannel::new();

    let entries = vec![
        entry("/home/u", "u", Some("/home"), true, 0),
        entry("/home/u/a.txt", "a.txt", Some("/home/u"), false, 1),
        entry("/home/u/b", "b", Some("/home/u"), true, 1),
    ];
    let r = tr.run(&entries, false, &mut chan);
    assert!(!r.stopped);
    chan.finish();

    let mut sel = Selector::new(String::new());
    let auto = sel.pump(&mut chan);
    assert!(auto.is_none());
    assert!(sel.candidates.is_empty());
    assert!(sel.stream_closed);

    sel.on_event(SelectorEvent::QueryChanged("notes.txt".to_string()));
    let res = sel.on_event(SelectorEvent::Accept(Vec::new())).expect("accept ends the session");
    assert!(!res.aborted);
    assert!(res.chosen.is_empty());
    assert_eq!(res.typed_query, "notes.txt");

    let action = resolve(
        &res,
        &ResolverConfig { explicit_paths: Vec::new(), subdir: String::new() },
    );
    assert!(action.working_directory.is_none());
    assert_eq!(action.targets, vec!["notes.txt"]);
}

#[test]
fn scenario_abort_mid_walk_stops_traversal() {
    let cfg = config("/home/u", 4, "", false, "");
    let mut tr = Traverser::new(cfg, "/home/u".to_string());
    let mut chan = CandidateChannel::new();

    let mut first_batch: Vec<Entry> = Vec::new();
    let mut rest: Vec<Entry> = Vec::new();
    first_batch.push(entry("/home/u", "u", Some("/home"), true, 0));
    for i in 0..10000usize {
        let path = format!("/home/u/f{}", i);
        let name = format!("f{}", i);
        let e = entry(&path, &name, Some("/home/u"), false, 1);
        if i < 100 {
            first_batch.push(e);
        } else {
            rest.push(e);
        }
    }
    let r = tr.run(&first_batch, false, &mut chan);
    assert!(!r.stopped);

    let mut sel = Selector::new(String::new());
    let auto = sel.pump(&mut chan);
    assert!(auto.is_none());
    assert_eq!(sel.candidates.len(), 100);

    let res = sel.on_event(SelectorEvent::Abort).expect("abort ends the session");
    assert!(res.aborted);
    assert!(res.chosen.is_empty());
    chan.abandon();

    let r2 = tr.run(&rest, false, &mut chan);
    assert!(r2.stopped);
    assert_eq!(r2.examined, 0);
    assert!(r2.descents.is_empty());

    let refused = chan.send(Candidate {
        display_path: "~/x".to_string(),
        absolute_path: "/home/u/x".to_string(),
        is_directory: false,
    });
    assert!(!refused);

    let action = resolve(
        &res,
        &ResolverConfig { explicit_paths: Vec::new(), subdir: String::new() },
    );
    assert!(action.working_directory.is_none());
    assert!(action.targets.is_empty());
}

#[test]
fn single_candidate_auto_confirms() {
    let cfg = config("/home/u", 4, "", false, "");
    let mut tr = Traverser::new(cfg, "/home/u".to_string());
    let mut chan = CandidateChannel::new();
    let entries = vec![
        entry("/home/u", "u", Some("/home"), true, 0),
        entry("/home/u/only.txt", "only.txt", Some("/home/u"), false, 1),
    ];
    tr.run(&entries, false, &mut chan);
    chan.finish();

    let mut sel = Selector::new(String::new());
    let res = sel.pump(&mut chan).expect("a single candidate confirms itself");
    assert!(!res.aborted);
    assert_eq!(res.chosen.len(), 1);
    assert_eq!(res.chosen[0].display_path, "~/only.txt");
}

#[test]
fn overlapping_sub_walks_deduplicate() {
    let cfg = config("/r", 4, "notes.md", false, "");
    let mut tr = Traverser::new(cfg, "/home/u".to_string());
    let mut chan = CandidateChannel::new();

    let main_entries = vec![
        entry("/r", "r", None, true, 0),
        entry("/r/x", "x", Some("/r"), true, 1),
        entry("/r/x/notes.md", "notes.md", Some("/r/x"), false, 2),
        entry("/r/x/sub", "sub", Some("/r/x"), true, 2),
        entry("/r/x/sub/notes.md", "notes.md", Some("/r/x/sub"), false, 3),
    ];
    let r = tr.run(&main_entries, false, &mut chan);
    assert_eq!(r.descents, vec!["/r/x", "/r/x/sub"]);

    let sub_x = vec![
        entry("/r/x", "x", Some("/r"), true, 0),
        entry("/r/x/notes.md", "notes.md", Some("/r/x"), false, 1),
        entry("/r/x/sub", "sub", Some("/r/x"), true, 1),
        entry("/r/x/sub/notes.md", "notes.md", Some("/r/x/sub"), false, 2),
    ];
    tr.run(&sub_x, true, &mut chan);

    let sub_sub = vec![
        entry("/r/x/sub", "sub", Some("/r/x"), true, 0),
        entry("/r/x/sub/notes.md", "notes.md", Some("/r/x/sub"), false, 1),
    ];
    tr.run(&sub_sub, true, &mut chan);
    chan.finish();

    let mut sel = Selector::new(String::new());
    sel.pump(&mut chan);
    assert_eq!(
        displays(&sel),
        vec!["/r/x", "/r/x/sub", "/r/x/notes.md", "/r/x/sub/notes.md"],
    );
}

#[test]
fn entries_beyond_depth_bound_are_ignored() {
    let cfg = config("/r", 1, "", false, "");
    let mut tr = Traverser::new(cfg, "/home/u".to_string());
    let mut chan = CandidateChannel::new();
    let entries = vec![
        entry("/r", "r", None, true, 0),
        entry("/r/a.txt", "a.txt", Some("/r"), false, 1),
        entry("/r/d/b.txt", "b.txt", Some("/r/d"), false, 2),
    ];
    tr.run(&entries, false, &mut chan);
    chan.finish();

    let mut sel = Selector::new(String::new());
    let res = sel.pump(&mut chan).expect("exactly one candidate survives the bound");
    assert_eq!(res.chosen[0].display_path, "/r/a.txt");
}

#[test]
fn channel_delivers_in_emission_order() {
    let mut chan = CandidateChannel::new();
    for name in ["one", "two", "three"] {
        let ok = chan.send(Candidate {
            display_path: name.to_string(),
            absolute_path: name.to_string(),
            is_directory: false,
        });
        assert!(ok);
    }
    match chan.try_recv() {
        RecvOutcome::Item(c) => assert_eq!(c.display_path, "one"),
        _ => panic!("expected an item"),
    }
    match chan.try_recv() {
        RecvOutcome::Item(c) => assert_eq!(c.display_path, "two"),
        _ => panic!("expected an item"),
    }
    match chan.try_recv() {
        RecvOutcome::Item(c) => assert_eq!(c.display_path, "three"),
        _ => panic!("expected an item"),
    }
    assert!(matches!(chan.try_recv(), RecvOutcome::Pending));
    chan.finish();
    assert!(matches!(chan.try_recv(), RecvOutcome::Done));
}

#[test]
fn closed_stream_keeps_selector_interactive() {
    let mut chan = CandidateChannel::new();
    for name in ["a", "b"] {
        chan.send(Candidate {
            display_path: name.to_string(),
            absolute_path: name.to_string(),
            is_directory: false,
        });
    }
    chan.finish();
    let mut sel = Selector::new("seed".to_string());
    let auto = sel.pump(&mut chan);
    assert!(auto.is_none());
    assert!(sel.stream_closed);
    assert!(!sel.done);
    assert_eq!(sel.query, "seed");

    let res = sel.on_event(SelectorEvent::Accept(vec![1])).expect("accept ends the session");
    assert_eq!(res.chosen[0].display_path, "b");
    assert_eq!(res.typed_query, "seed");
}
