use std::collections::BTreeMap;

use filename_replace_whitespace::plan::{
    plan_entry, Effect, Entry, EntryKind, EntryName, Metadata, Request, TraversalError,
};
use filename_replace_whitespace::walker::{Action, Event, Step, Walker};

#[derive(Clone)]
struct Node {
    name: String,
    kind: EntryKind,
    size: u64,
}

fn node(name: &str, kind: EntryKind, size: u64) -> Node {
    Node { name: name.to_string(), kind, size }
}

/// Directories by path, each with its entries in listing order.
struct FakeFs {
    dirs: BTreeMap<String, Vec<Node>>,
}

impl FakeFs {
    fn list(&self, dir: &str) -> Option<Vec<Entry>> {
        let nodes = self.dirs.get(dir)?;
        Some(
            nodes
                .iter()
                .map(|n| Entry {
                    name: EntryName::Text(n.name.clone()),
                    metadata: Some(Metadata { kind: n.kind, size: n.size }),
                })
                .collect(),
        )
    }

    fn rename(&mut self, from: &str, to: &str) -> bool {
        let (dir, old) = from.rsplit_once('/').unwrap();
        let (to_dir, new) = to.rsplit_once('/').unwrap();
        assert_eq!(dir, to_dir);
        match self.dirs.get_mut(dir).and_then(|v| v.iter_mut().find(|n| n.name == old)) {
            Some(n) => {
                n.name = new.to_string();
                true
            }
            None => false,
        }
    }

    fn names(&self, dir: &str) -> Vec<String> {
        let mut v: Vec<String> = self.dirs[dir].iter().map(|n| n.name.clone()).collect();
        v.sort();
        v
    }
}

struct Outcome {
    result: Result<(), TraversalError>,
    reports: Vec<String>,
    renames: Vec<(String, String)>,
    listed: Vec<String>,
}

fn request(ext: &str, dry_run: bool, verbose: bool) -> Request {
    Request { extension: ext.to_string(), dry_run, verbose }
}

fn run(fs: &mut FakeFs, root: &str, req: Request) -> Outcome {
    let mut reports = Vec::new();
    let mut renames = Vec::new();
    let mut listed = Vec::new();
    let (mut walker, mut step) = Walker::start(req, root.to_string());
    loop {
        if let Some(line) = step.report.take() {
            reports.push(line);
        }
        let event = match step.action {
            Action::List { dir } => {
                listed.push(dir.clone());
                Event::Listed(fs.list(&dir))
            }
            Action::Rename { from, to } => {
                let ok = fs.rename(&from, &to);
                renames.push((from, to));
                Event::Renamed(ok)
            }
            Action::Proceed => Event::Proceed,
            Action::Finish(result) => {
                assert!(walker.is_finished());
                return Outcome { result, reports, renames, listed };
            }
        };
        assert!(walker.accepts(&event));
        step = walker.step(event);
    }
}

fn mixed_tree() -> FakeFs {
    let mut dirs = BTreeMap::new();
    dirs.insert(
        "root".to_string(),
        vec![
            node("a b.mkv", EntryKind::File, 10),
            node("c.mkv", EntryKind::File, 20),
            node("sub", EntryKind::Directory, 4096),
            node("link", EntryKind::Symlink, 3),
        ],
    );
    dirs.insert("root/sub".to_string(), vec![node("d e.mkv", EntryKind::File, 30)]);
    dirs.insert("root/link".to_string(), vec![node("f g.mkv", EntryKind::File, 40)]);
    FakeFs { dirs }
}

fn pair(a: &str, b: &str) -> (String, String) {
    (a.to_string(), b.to_string())
}

#[test]
fn mixed_tree_is_renamed_and_link_not_followed() {
    let mut fs = mixed_tree();
    let out = run(&mut fs, "root", request("mkv", false, false));
    assert!(out.result.is_ok());
    assert_eq!(
        out.renames,
        vec![pair("root/a b.mkv", "root/a_b.mkv"), pair("root/sub/d e.mkv", "root/sub/d_e.mkv")]
    );
    assert_eq!(out.listed, vec!["root".to_string(), "root/sub".to_string()]);
    assert_eq!(fs.names("root"), vec!["a_b.mkv", "c.mkv", "link", "sub"]);
    assert_eq!(fs.names("root/sub"), vec!["d_e.mkv"]);
    assert_eq!(fs.names("root/link"), vec!["f g.mkv"]);
    assert_eq!(
        out.reports,
        vec![
            "File: matches mkv rename from 'root/a b.mkv' to 'root/a_b.mkv'",
            "File: matches mkv rename from 'root/sub/d e.mkv' to 'root/sub/d_e.mkv'",
        ]
    );
}

#[test]
fn verbose_reports_every_entry() {
    let mut fs = mixed_tree();
    fs.dirs.get_mut("root").unwrap().push(node("notes.txt", EntryKind::File, 5));
    let out = run(&mut fs, "root", request("mkv", false, true));
    assert!(out.result.is_ok());
    assert_eq!(
        out.reports,
        vec![
            "File: matches mkv rename from 'root/a b.mkv' to 'root/a_b.mkv'",
            "mkv file: root/c.mkv length 20",
            "Directory: root/sub",
            "File: matches mkv rename from 'root/sub/d e.mkv' to 'root/sub/d_e.mkv'",
            "Symlink: root/link - not following",
            "File: root/notes.txt length 5",
        ]
    );
}

#[test]
fn file_without_extension_is_reported_in_verbose_mode() {
    let mut dirs = BTreeMap::new();
    dirs.insert("d".to_string(), vec![node("READ ME", EntryKind::File, 1)]);
    let mut fs = FakeFs { dirs };
    let out = run(&mut fs, "d", request("mkv", false, true));
    assert!(out.result.is_ok());
    assert!(out.renames.is_empty());
    assert_eq!(out.reports, vec!["File: d/READ ME length 1"]);
}

#[test]
fn dry_run_changes_nothing() {
    let mut fs = mixed_tree();
    let out = run(&mut fs, "root", request("mkv", true, false));
    assert!(out.result.is_ok());
    assert!(out.renames.is_empty());
    assert_eq!(fs.names("root"), vec!["a b.mkv", "c.mkv", "link", "sub"]);
    assert_eq!(fs.names("root/sub"), vec!["d e.mkv"]);
    assert_eq!(
        out.reports,
        vec![
            "File: matches mkv would rename from 'root/a b.mkv' to 'root/a_b.mkv'",
            "File: matches mkv would rename from 'root/sub/d e.mkv' to 'root/sub/d_e.mkv'",
        ]
    );
}

#[test]
fn second_pass_renames_nothing() {
    let mut fs = mixed_tree();
    let first = run(&mut fs, "root", request("mkv", false, false));
    assert_eq!(first.renames.len(), 2);
    let second = run(&mut fs, "root", request("mkv", false, false));
    assert!(second.result.is_ok());
    assert!(second.renames.is_empty());
    assert!(second.reports.is_empty());
}

#[test]
fn extension_match_is_case_sensitive() {
    let mut dirs = BTreeMap::new();
    dirs.insert(
        "v".to_string(),
        vec![
            node("my video.MKV", EntryKind::File, 1),
            node("my video.mkv", EntryKind::File, 2),
            node("my video.mkv.bak", EntryKind::File, 3),
        ],
    );
    let mut fs = FakeFs { dirs };
    let out = run(&mut fs, "v", request("mkv", false, false));
    assert!(out.result.is_ok());
    assert_eq!(out.renames, vec![pair("v/my video.mkv", "v/my_video.mkv")]);
}

#[test]
fn symlink_to_matching_file_is_left_alone() {
    let mut dirs = BTreeMap::new();
    dirs.insert(
        "s".to_string(),
        vec![node("to a b.mkv", EntryKind::Symlink, 8), node("a b.mkv", EntryKind::File, 8)],
    );
    let mut fs = FakeFs { dirs };
    let out = run(&mut fs, "s", request("mkv", false, true));
    assert!(out.result.is_ok());
    assert_eq!(out.renames, vec![pair("s/a b.mkv", "s/a_b.mkv")]);
    assert_eq!(out.listed, vec!["s".to_string()]);
    assert_eq!(out.reports[0], "Symlink: s/to a b.mkv - not following");
}

#[test]
fn sibling_order_does_not_change_renames() {
    let mut fs = mixed_tree();
    let forward = run(&mut fs, "root", request("mkv", false, false));
    let mut fs = mixed_tree();
    fs.dirs.get_mut("root").unwrap().reverse();
    let backward = run(&mut fs, "root", request("mkv", false, false));
    let mut a = forward.renames.clone();
    let mut b = backward.renames.clone();
    a.sort();
    b.sort();
    assert_eq!(a, b);
    assert_ne!(forward.renames, backward.renames);
}

#[test]
fn whitespace_other_than_space_is_replaced() {
    let mut dirs = BTreeMap::new();
    dirs.insert("t".to_string(), vec![node("a\tb\u{a0}c.mkv", EntryKind::File, 1)]);
    let mut fs = FakeFs { dirs };
    let out = run(&mut fs, "t", request("mkv", false, false));
    assert_eq!(out.renames, vec![pair("t/a\tb\u{a0}c.mkv", "t/a_b_c.mkv")]);
}

#[test]
fn missing_root_fails_with_read_dir_error() {
    let mut fs = mixed_tree();
    let out = run(&mut fs, "nowhere", request("mkv", false, false));
    match out.result {
        Err(TraversalError::ReadDir { path }) => assert_eq!(path, "nowhere"),
        _ => panic!("expected a read-dir error"),
    }
    assert!(out.renames.is_empty());
    assert_eq!(fs.names("root"), vec!["a b.mkv", "c.mkv", "link", "sub"]);
}

#[test]
fn unreadable_subdirectory_stops_the_walk() {
    let mut fs = mixed_tree();
    fs.dirs.remove("root/sub");
    let out = run(&mut fs, "root", request("mkv", false, false));
    match out.result {
        Err(TraversalError::ReadDir { path }) => assert_eq!(path, "root/sub"),
        _ => panic!("expected a read-dir error"),
    }
    assert_eq!(out.renames, vec![pair("root/a b.mkv", "root/a_b.mkv")]);
}

#[test]
fn failed_rename_stops_the_walk() {
    let (mut walker, _) = Walker::start(request("mkv", false, false), "r".to_string());
    let entries = vec![
        Entry {
            name: EntryName::Text("x y.mkv".to_string()),
            metadata: Some(Metadata { kind: EntryKind::File, size: 1 }),
        },
        Entry {
            name: EntryName::Text("p q.mkv".to_string()),
            metadata: Some(Metadata { kind: EntryKind::File, size: 1 }),
        },
    ];
    let step = walker.step(Event::Listed(Some(entries)));
    assert!(matches!(step.action, Action::Proceed));
    let step = walker.step(Event::Proceed);
    match step.action {
        Action::Rename { from, to } => {
            assert_eq!(from, "r/x y.mkv");
            assert_eq!(to, "r/x_y.mkv");
        }
        _ => panic!("expected a rename"),
    }
    assert!(!walker.accepts(&Event::Proceed));
    let step = walker.step(Event::Renamed(false));
    match step.action {
        Action::Finish(Err(e)) => {
            assert_eq!(e.message(), "Cannot rename file from r/x y.mkv to r/x_y.mkv");
            match e {
                TraversalError::Rename { from, to } => {
                    assert_eq!(from, "r/x y.mkv");
                    assert_eq!(to, "r/x_y.mkv");
                }
                _ => panic!("expected a rename error"),
            }
        }
        _ => panic!("expected the walk to stop"),
    }
    assert!(walker.is_finished());
}

fn single(entry: Entry, verbose: bool) -> Step {
    let (mut walker, _) = Walker::start(request("mkv", false, verbose), "r".to_string());
    walker.step(Event::Listed(Some(vec![entry])));
    walker.step(Event::Proceed)
}

fn failure(step: Step) -> TraversalError {
    match step.action {
        Action::Finish(Err(e)) => e,
        _ => panic!("expected the walk to stop with an error"),
    }
}

#[test]
fn unreadable_metadata_stops_the_walk() {
    let e = failure(single(Entry { name: EntryName::Text("a b.mkv".to_string()), metadata: None }, false));
    assert_eq!(e.message(), "Cannot get metadata for r/a b.mkv");
    assert!(matches!(e, TraversalError::Metadata { path } if path == "r/a b.mkv"));
}

#[test]
fn unknown_entry_type_stops_the_walk() {
    let entry = Entry {
        name: EntryName::Text("sock".to_string()),
        metadata: Some(Metadata { kind: EntryKind::Other, size: 0 }),
    };
    let e = failure(single(entry, true));
    assert_eq!(e.message(), "Unknown entry type for r/sock");
    assert!(matches!(e, TraversalError::UnknownEntryType { path } if path == "r/sock"));
}

#[test]
fn undecodable_extension_stops_the_walk() {
    let entry = Entry {
        name: EntryName::Undecodable { shown: "a\u{fffd}.\u{fffd}".to_string(), extension: Some(None) },
        metadata: Some(Metadata { kind: EntryKind::File, size: 0 }),
    };
    let e = failure(single(entry, false));
    assert!(matches!(e, TraversalError::ExtensionDecode { path } if path == "r/a\u{fffd}.\u{fffd}"));
}

#[test]
fn undecodable_name_of_matching_file_stops_the_walk() {
    let entry = Entry {
        name: EntryName::Undecodable {
            shown: "a\u{fffd}.mkv".to_string(),
            extension: Some(Some("mkv".to_string())),
        },
        metadata: Some(Metadata { kind: EntryKind::File, size: 0 }),
    };
    let e = failure(single(entry, false));
    assert_eq!(e.message(), "Cannot get file name for r/a\u{fffd}.mkv");
    assert!(matches!(e, TraversalError::NameDecode { .. }));
}

#[test]
fn undecodable_name_of_other_file_is_skipped() {
    let entry = Entry {
        name: EntryName::Undecodable {
            shown: "a\u{fffd}.txt".to_string(),
            extension: Some(Some("txt".to_string())),
        },
        metadata: Some(Metadata { kind: EntryKind::File, size: 9 }),
    };
    let step = single(entry, true);
    assert_eq!(step.report.as_deref(), Some("File: r/a\u{fffd}.txt length 9"));
    assert!(matches!(step.action, Action::Proceed));
}

#[test]
fn undecodable_directory_name_stops_the_walk() {
    let entry = Entry {
        name: EntryName::Undecodable { shown: "d\u{fffd}".to_string(), extension: None },
        metadata: Some(Metadata { kind: EntryKind::Directory, size: 0 }),
    };
    let step = single(entry, true);
    assert_eq!(step.report.as_deref(), Some("Directory: r/d\u{fffd}"));
    assert!(matches!(failure(step), TraversalError::NameDecode { path } if path == "r/d\u{fffd}"));
}

#[test]
fn plan_of_a_spaced_matching_file() {
    let entry = Entry {
        name: EntryName::Text("a b.mkv".to_string()),
        metadata: Some(Metadata { kind: EntryKind::File, size: 1 }),
    };
    let plan = plan_entry(&request("mkv", false, false), "dir/", &entry);
    assert_eq!(plan.report.as_deref(), Some("File: matches mkv rename from 'dir/a b.mkv' to 'dir/a_b.mkv'"));
    assert!(matches!(plan.effect, Effect::Rename { ref from, ref to } if from == "dir/a b.mkv" && to == "dir/a_b.mkv"));
    let plan = plan_entry(&request("mkv", true, false), "dir/", &entry);
    assert!(matches!(plan.effect, Effect::Skip));
}

#[test]
fn read_dir_message_names_the_path() {
    let e = TraversalError::ReadDir { path: "gone".to_string() };
    assert_eq!(e.message(), "Cannot read directory gone");
}

#[test]
fn walker_keeps_its_request() {
    let (walker, step) = Walker::start(request("avi", true, false), "x".to_string());
    assert_eq!(walker.request().extension, "avi");
    assert!(walker.request().dry_run);
    assert!(matches!(step.action, Action::List { ref dir } if dir == "x"));
    assert!(walker.accepts(&Event::Listed(None)));
    assert!(!walker.accepts(&Event::Renamed(true)));
    assert!(!walker.is_finished());
}
