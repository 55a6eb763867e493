use std::collections::BTreeMap;

use json2dir::errs::{Error, ErrorKind, OsError};
use json2dir::machine::{Action, Event, Materializer, Step};
use json2dir::tree::{Entry, Item, Node};

fn entry(name: &str, node: Node) -> Entry {
    Entry { name: String::from(name), node }
}

fn text(content: &str) -> Node {
    Node::Text(String::from(content))
}

fn tagged(kind: &str, payload: &str) -> Node {
    Node::List(vec![
        Item::Text(String::from(kind)),
        Item::Text(String::from(payload)),
    ])
}

fn ok() -> Event {
    Event::Unit(Ok(()))
}

fn os_failure() -> OsError {
    OsError {
        already_exists: false,
        message: String::from("permission denied"),
    }
}

fn os_already_exists() -> OsError {
    OsError {
        already_exists: true,
        message: String::from("already exists"),
    }
}

/// One entry of the mock filesystem.
#[derive(Debug, Clone, PartialEq, Eq)]
enum FsNode {
    Dir,
    File { content: String, mode: u32 },
    Symlink { target: String },
}

/// A mock filesystem: absolute paths to nodes, plus a working directory.
/// It performs each requested action the way the host filesystem would.
#[derive(Debug, Default)]
struct MockFs {
    nodes: BTreeMap<Vec<String>, FsNode>,
    cwd: Vec<String>,
}

impl MockFs {
    fn at(&self, name: &str) -> Vec<String> {
        let mut p = self.cwd.clone();
        p.push(String::from(name));
        p
    }

    fn perform(&mut self, action: &Action) -> Event {
        match action {
            Action::RemoveIfSymlink { name } => {
                let p = self.at(name);
                if let Some(FsNode::Symlink { .. }) = self.nodes.get(&p) {
                    self.nodes.remove(&p);
                }
                ok()
            }
            Action::WriteFile { name, content } => {
                let p = self.at(name);
                match self.nodes.get(&p) {
                    Some(FsNode::Dir) => Event::Unit(Err(os_failure())),
                    Some(FsNode::File { mode, .. }) => {
                        let mode = *mode;
                        self.nodes
                            .insert(p, FsNode::File { content: content.clone(), mode });
                        ok()
                    }
                    _ => {
                        self.nodes
                            .insert(p, FsNode::File { content: content.clone(), mode: 0o644 });
                        ok()
                    }
                }
            }
            Action::CreateDir { name } => {
                let p = self.at(name);
                if self.nodes.contains_key(&p) {
                    Event::Unit(Err(os_already_exists()))
                } else {
                    self.nodes.insert(p, FsNode::Dir);
                    ok()
                }
            }
            Action::EnterDir { name } => {
                let p = self.at(name);
                if let Some(FsNode::Dir) = self.nodes.get(&p) {
                    self.cwd = p;
                    ok()
                } else {
                    Event::Unit(Err(os_failure()))
                }
            }
            Action::LeaveDir => {
                if self.cwd.pop().is_some() {
                    ok()
                } else {
                    Event::Unit(Err(os_failure()))
                }
            }
            Action::CreateSymlink { name, target } => {
                let p = self.at(name);
                if self.nodes.contains_key(&p) {
                    Event::Unit(Err(os_already_exists()))
                } else {
                    self.nodes
                        .insert(p, FsNode::Symlink { target: target.clone() });
                    ok()
                }
            }
            Action::GetMode { name } => {
                let p = self.at(name);
                match self.nodes.get(&p) {
                    Some(FsNode::File { mode, .. }) => Event::Mode(Ok(*mode)),
                    _ => Event::Mode(Err(os_failure())),
                }
            }
            Action::SetMode { name, mode } => {
                let p = self.at(name);
                match self.nodes.get(&p) {
                    Some(FsNode::File { content, .. }) => {
                        let content = content.clone();
                        self.nodes
                            .insert(p, FsNode::File { content, mode: *mode });
                        ok()
                    }
                    _ => Event::Unit(Err(os_failure())),
                }
            }
        }
    }
}

fn describe(action: &Action) -> String {
    match action {
        Action::RemoveIfSymlink { name } => format!("remove-if-symlink {name}"),
        Action::WriteFile { name, content } => format!("write {name}={content}"),
        Action::CreateDir { name } => format!("create-dir {name}"),
        Action::EnterDir { name } => format!("enter {name}"),
        Action::LeaveDir => String::from("leave"),
        Action::CreateSymlink { name, target } => format!("symlink {name}->{target}"),
        Action::GetMode { name } => format!("get-mode {name}"),
        Action::SetMode { name, mode } => format!("set-mode {name}={mode:o}"),
    }
}

/// Runs a whole materialization against the mock filesystem, returning the
/// log of requested actions and the run's result.
fn drive(root: Vec<Entry>, fs: &mut MockFs) -> (Vec<String>, Result<(), Error>) {
    let (mut m, mut step) = Materializer::new(root);
    let mut log: Vec<String> = Vec::new();
    loop {
        match step {
            Step::Done(r) => {
                assert!(m.is_finished());
                return (log, r);
            }
            Step::Do(action) => {
                log.push(describe(&action));
                let event = fs.perform(&action);
                step = m.step(event);
            }
        }
    }
}

fn err_kind(r: Result<(), Error>) -> ErrorKind {
    match r {
        Err(e) => e.kind(),
        Ok(()) => panic!("expected an error, got success"),
    }
}

#[test]
fn empty_mapping_requests_nothing_and_succeeds() {
    let mut fs = MockFs::default();
    let (log, result) = drive(vec![], &mut fs);
    assert!(result.is_ok());
    assert!(log.is_empty());
    assert!(fs.nodes.is_empty());
    assert!(fs.cwd.is_empty());
}

#[test]
fn single_file_is_created_with_exact_content() {
    let mut fs = MockFs::default();
    let (log, result) = drive(vec![entry("file", text("Hello!"))], &mut fs);
    assert!(result.is_ok());
    assert_eq!(log, vec!["remove-if-symlink file", "write file=Hello!"]);
    assert_eq!(fs.nodes.len(), 1);
    assert_eq!(
        fs.nodes.get(&vec![String::from("file")]),
        Some(&FsNode::File { content: String::from("Hello!"), mode: 0o644 })
    );
}

#[test]
fn nested_directories_are_materialized_depth_first() {
    let mut fs = MockFs::default();
    let root = vec![
        entry("a", Node::Dir(vec![entry("b", text("x"))])),
        entry("c", text("y")),
    ];
    let (log, result) = drive(root, &mut fs);
    assert!(result.is_ok());
    assert_eq!(
        log,
        vec![
            "remove-if-symlink a",
            "create-dir a",
            "enter a",
            "remove-if-symlink b",
            "write b=x",
            "leave",
            "remove-if-symlink c",
            "write c=y",
        ]
    );
    assert!(fs.cwd.is_empty());
    assert_eq!(fs.nodes.get(&vec![String::from("a")]), Some(&FsNode::Dir));
    assert_eq!(
        fs.nodes.get(&vec![String::from("a"), String::from("b")]),
        Some(&FsNode::File { content: String::from("x"), mode: 0o644 })
    );
}

#[test]
fn unwritable_directory_fails_while_creating_the_child() {
    // The driver cannot create anything in its working directory: the run
    // fails on the creation of `foo` and nothing below is ever requested.
    let root = vec![entry("foo", Node::Dir(vec![entry("bar", text("baz"))]))];
    let (mut m, mut step) = Materializer::new(root);
    let mut log: Vec<String> = Vec::new();
    let result = loop {
        match step {
            Step::Done(r) => break r,
            Step::Do(action) => {
                log.push(describe(&action));
                let event = match &action {
                    Action::RemoveIfSymlink { .. } => Event::Unit(Ok(())),
                    Action::CreateDir { .. } => Event::Unit(Err(os_failure())),
                    other => panic!("unexpected request: {other:?}"),
                };
                step = m.step(event);
            }
        }
    };
    assert_eq!(log, vec!["remove-if-symlink foo", "create-dir foo"]);
    assert!(!log.iter().any(|l| l.contains("bar")));
    match result {
        Err(Error::Create { kind, context, .. }) => {
            assert_eq!(kind, json2dir::errs::CreateKind::Directory);
            assert_eq!(context.to_path_string(), "./foo");
        }
        other => panic!("expected a directory creation failure, got {other:?}"),
    }
}

#[test]
fn tagged_link_creates_a_symlink_and_nothing_else() {
    let mut fs = MockFs::default();
    let (log, result) = drive(vec![entry("foo", tagged("link", "bar"))], &mut fs);
    assert!(result.is_ok());
    assert_eq!(log, vec!["remove-if-symlink foo", "symlink foo->bar"]);
    assert_eq!(
        fs.nodes.get(&vec![String::from("foo")]),
        Some(&FsNode::Symlink { target: String::from("bar") })
    );
    assert!(!log.iter().any(|l| l.starts_with("write") || l.starts_with("create-dir")));
}

#[test]
fn script_is_written_and_made_executable() {
    let mut fs = MockFs::default();
    let (log, result) = drive(vec![entry("foo", tagged("script", "Hello"))], &mut fs);
    assert!(result.is_ok());
    assert_eq!(
        log,
        vec![
            "remove-if-symlink foo",
            "write foo=Hello",
            "get-mode foo",
            "set-mode foo=755",
        ]
    );
    assert_eq!(
        fs.nodes.get(&vec![String::from("foo")]),
        Some(&FsNode::File { content: String::from("Hello"), mode: 0o755 })
    );
}

#[test]
fn executable_bits_are_added_on_top_of_existing_mode() {
    let root = vec![entry("foo", tagged("script", ""))];
    let (mut m, mut step) = Materializer::new(root);
    let mode_seen = loop {
        match step {
            Step::Done(r) => panic!("run ended early: {r:?}"),
            Step::Do(Action::SetMode { name, mode }) => {
                assert_eq!(name, "foo");
                break mode;
            }
            Step::Do(Action::GetMode { .. }) => {
                step = m.step(Event::Mode(Ok(0o600)));
            }
            Step::Do(_) => {
                step = m.step(ok());
            }
        }
    };
    assert_eq!(mode_seen, 0o711);
}

#[test]
fn script_removed_before_mode_read_fails_as_not_executable() {
    let root = vec![entry("foo", tagged("script", ""))];
    let (mut m, mut step) = Materializer::new(root);
    let result = loop {
        match step {
            Step::Done(r) => break r,
            Step::Do(Action::GetMode { .. }) => {
                step = m.step(Event::Mode(Err(os_failure())));
            }
            Step::Do(_) => {
                step = m.step(ok());
            }
        }
    };
    assert_eq!(err_kind(result), ErrorKind::CouldNotMakeFileExecutable);
}

#[test]
fn script_mode_change_failure_is_reported_as_not_executable() {
    let root = vec![entry("foo", tagged("script", ""))];
    let (mut m, mut step) = Materializer::new(root);
    let result = loop {
        match step {
            Step::Done(r) => break r,
            Step::Do(Action::GetMode { .. }) => {
                step = m.step(Event::Mode(Ok(0o644)));
            }
            Step::Do(Action::SetMode { .. }) => {
                step = m.step(Event::Unit(Err(os_failure())));
            }
            Step::Do(_) => {
                step = m.step(ok());
            }
        }
    };
    assert_eq!(err_kind(result), ErrorKind::CouldNotMakeFileExecutable);
}

#[test]
fn unknown_tag_is_an_invalid_array_kind() {
    let mut fs = MockFs::default();
    let (_, result) = drive(vec![entry("foo", tagged("linksym", ""))], &mut fs);
    assert_eq!(err_kind(result), ErrorKind::InvalidArrayKind);
}

#[test]
fn numeric_list_is_an_invalid_array() {
    let mut fs = MockFs::default();
    let root = vec![entry(
        "foo",
        Node::List(vec![Item::Other, Item::Other, Item::Other]),
    )];
    let (_, result) = drive(root, &mut fs);
    assert_eq!(err_kind(result), ErrorKind::InvalidJsonArray);
}

#[test]
fn two_element_list_needs_both_elements_text() {
    let mut fs = MockFs::default();
    let root = vec![entry(
        "foo",
        Node::List(vec![Item::Text(String::from("link")), Item::Other]),
    )];
    let (_, result) = drive(root, &mut fs);
    assert_eq!(err_kind(result), ErrorKind::InvalidJsonArray);
}

#[test]
fn numeric_value_is_an_invalid_part() {
    let mut fs = MockFs::default();
    let (_, result) = drive(vec![entry("file", Node::Other)], &mut fs);
    assert_eq!(err_kind(result), ErrorKind::InvalidJsonPart);
}

#[test]
fn separator_in_key_is_multiple_components() {
    let mut fs = MockFs::default();
    let (log, result) = drive(vec![entry("foo/bar", text(""))], &mut fs);
    assert!(log.is_empty());
    match result {
        Err(Error::MultiplePathComponents { name, context }) => {
            assert_eq!(name, "foo/bar");
            assert_eq!(context.to_path_string(), ".");
        }
        other => panic!("expected a multi-component error, got {other:?}"),
    }
}

#[test]
fn marker_keys_are_not_regular_components() {
    for key in ["/", ".", ".."] {
        let mut fs = MockFs::default();
        let (_, result) = drive(vec![entry(key, text(""))], &mut fs);
        assert_eq!(err_kind(result), ErrorKind::NotRegularComponent);
    }
}

#[test]
fn nested_empty_key_reports_the_inner_context() {
    let mut fs = MockFs::default();
    let inner = Node::Dir(vec![entry("", text("error"))]);
    let root = vec![entry("foo", Node::Dir(vec![entry("bar", inner)]))];
    let (log, result) = drive(root, &mut fs);
    match result {
        Err(Error::MultiplePathComponents { name, context }) => {
            assert_eq!(name, "");
            assert_eq!(context.to_path_string(), "./foo/bar");
        }
        other => panic!("expected a multi-component error, got {other:?}"),
    }
    // after the failure deep inside, the machine asked to leave both
    // directories again: the mock driver is back where it started
    assert!(fs.cwd.is_empty());
    assert_eq!(log.iter().filter(|l| *l == "leave").count(), 2);
}

#[test]
fn unreadable_directory_cannot_be_entered() {
    let root = vec![entry("foo", Node::Dir(vec![]))];
    let (mut m, mut step) = Materializer::new(root);
    let result = loop {
        match step {
            Step::Done(r) => break r,
            Step::Do(Action::EnterDir { .. }) => {
                step = m.step(Event::Unit(Err(os_failure())));
            }
            Step::Do(_) => {
                step = m.step(ok());
            }
        }
    };
    match result {
        Err(Error::ChangeDir { context, .. }) => {
            assert_eq!(context.to_path_string(), "./foo");
        }
        other => panic!("expected an enter failure, got {other:?}"),
    }
}

#[test]
fn failed_upward_change_is_reported_with_the_inner_context() {
    let root = vec![entry("foo", Node::Dir(vec![]))];
    let (mut m, mut step) = Materializer::new(root);
    let result = loop {
        match step {
            Step::Done(r) => break r,
            Step::Do(Action::LeaveDir) => {
                step = m.step(Event::Unit(Err(os_failure())));
            }
            Step::Do(_) => {
                step = m.step(ok());
            }
        }
    };
    match result {
        Err(Error::ChangeDirUp { context, .. }) => {
            assert_eq!(context.to_path_string(), "./foo");
        }
        other => panic!("expected an upward change failure, got {other:?}"),
    }
}

#[test]
fn existing_directory_is_reentered_without_error() {
    let mut fs = MockFs::default();
    fs.nodes.insert(vec![String::from("foo")], FsNode::Dir);
    let (log, result) = drive(vec![entry("foo", Node::Dir(vec![]))], &mut fs);
    assert!(result.is_ok());
    assert_eq!(
        log,
        vec!["remove-if-symlink foo", "create-dir foo", "enter foo", "leave"]
    );
}

#[test]
fn stale_symlink_is_removed_before_the_file_is_written() {
    let mut fs = MockFs::default();
    fs.nodes.insert(
        vec![String::from("foo")],
        FsNode::Symlink { target: String::from("bar") },
    );
    let (_, result) = drive(vec![entry("foo", text("kek"))], &mut fs);
    assert!(result.is_ok());
    assert_eq!(
        fs.nodes.get(&vec![String::from("foo")]),
        Some(&FsNode::File { content: String::from("kek"), mode: 0o644 })
    );
}

#[test]
fn errors_compare_by_kind_alone() {
    let mut fs1 = MockFs::default();
    let root1 = vec![entry("foo", Node::Dir(vec![entry("bad/1", text(""))]))];
    let (_, r1) = drive(root1, &mut fs1);
    let mut fs2 = MockFs::default();
    let root2 = vec![entry("bad/2", text(""))];
    let (_, r2) = drive(root2, &mut fs2);
    let e1 = r1.unwrap_err();
    let e2 = r2.unwrap_err();
    // same kind, different names and contexts
    assert!(e1 == e2);
    let mut fs3 = MockFs::default();
    let (_, r3) = drive(vec![entry(".", text(""))], &mut fs3);
    let e3 = r3.unwrap_err();
    assert!(e1 != e3);
}

#[test]
fn materializing_twice_is_idempotent_for_mappings_and_text() {
    let tree = || {
        vec![
            entry("a", Node::Dir(vec![entry("b", text("x")), entry("d", Node::Dir(vec![]))])),
            entry("c", text("y")),
        ]
    };
    let mut fs = MockFs::default();
    let (log1, r1) = drive(tree(), &mut fs);
    assert!(r1.is_ok());
    let snapshot = fs.nodes.clone();
    let (log2, r2) = drive(tree(), &mut fs);
    assert!(r2.is_ok());
    // the second run requests the same actions and leaves the same tree
    assert_eq!(log1, log2);
    assert_eq!(fs.nodes, snapshot);
    assert!(fs.cwd.is_empty());
}

#[test]
fn file_contents_are_overwritten_to_the_latest_value() {
    let mut fs = MockFs::default();
    let (_, r1) = drive(vec![entry("file", text("old"))], &mut fs);
    assert!(r1.is_ok());
    let (_, r2) = drive(vec![entry("file", text("new"))], &mut fs);
    assert!(r2.is_ok());
    assert_eq!(
        fs.nodes.get(&vec![String::from("file")]),
        Some(&FsNode::File { content: String::from("new"), mode: 0o644 })
    );
}

#[test]
fn inner_error_outranks_a_failing_restoration() {
    // a bad value deep inside, and on top of that the upward change fails:
    // the first error is the one reported
    let root = vec![entry("a", Node::Dir(vec![entry("b", Node::Other)]))];
    let (mut m, mut step) = Materializer::new(root);
    let result = loop {
        match step {
            Step::Done(r) => break r,
            Step::Do(Action::LeaveDir) => {
                step = m.step(Event::Unit(Err(os_failure())));
            }
            Step::Do(_) => {
                step = m.step(ok());
            }
        }
    };
    assert_eq!(err_kind(result), ErrorKind::InvalidJsonPart);
}

#[test]
fn writing_a_file_over_an_existing_directory_fails() {
    let mut fs = MockFs::default();
    fs.nodes.insert(vec![String::from("foo")], FsNode::Dir);
    let (_, result) = drive(vec![entry("foo", text("Hello"))], &mut fs);
    match result {
        Err(Error::Create { kind, context, .. }) => {
            assert_eq!(kind, json2dir::errs::CreateKind::RegularFile);
            assert_eq!(context.to_path_string(), "./foo");
        }
        other => panic!("expected a file creation failure, got {other:?}"),
    }
}

#[test]
fn writing_a_script_over_an_existing_directory_fails() {
    let mut fs = MockFs::default();
    fs.nodes.insert(vec![String::from("foo")], FsNode::Dir);
    let (_, result) = drive(vec![entry("foo", tagged("script", "Hello"))], &mut fs);
    match result {
        Err(Error::Create { kind, .. }) => {
            assert_eq!(kind, json2dir::errs::CreateKind::Script);
        }
        other => panic!("expected a script creation failure, got {other:?}"),
    }
}

#[test]
fn failed_symlink_creation_is_a_create_error() {
    let root = vec![entry("foo", tagged("link", ""))];
    let (mut m, mut step) = Materializer::new(root);
    let result = loop {
        match step {
            Step::Done(r) => break r,
            Step::Do(Action::CreateSymlink { .. }) => {
                step = m.step(Event::Unit(Err(os_failure())));
            }
            Step::Do(_) => {
                step = m.step(ok());
            }
        }
    };
    match result {
        Err(Error::Create { kind, .. }) => {
            assert_eq!(kind, json2dir::errs::CreateKind::Symlink);
        }
        other => panic!("expected a symlink creation failure, got {other:?}"),
    }
}
