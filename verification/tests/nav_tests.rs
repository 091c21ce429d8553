use trav::entry::{keep_readable, DirPath, Entry, EntryKind, EntryMeta};
use trav::nav::{
    DirSnapshot, NavAction, NavEngine, NavEvent, Preview, PreviewOutcome, PreviewQuery,
};
use trav::text::snippet_from_lines;

fn file(name: &str, size: u64) -> Entry {
    Entry { name: name.as_bytes().to_vec(), meta: Ok(EntryMeta { kind: EntryKind::File, size }) }
}

fn dir(name: &str) -> Entry {
    Entry {
        name: name.as_bytes().to_vec(),
        meta: Ok(EntryMeta { kind: EntryKind::Directory, size: 0 }),
    }
}

fn broken(name: &str, message: &str) -> Entry {
    Entry { name: name.as_bytes().to_vec(), meta: Err(message.to_string()) }
}

fn path(parts: &[&str]) -> DirPath {
    DirPath::from_parts(parts.iter().map(|p| p.as_bytes().to_vec()).collect())
}

/// The components as text, lossily, for readable assertions.
fn parts_of(p: &DirPath) -> Vec<String> {
    p.parts().iter().map(|b| String::from_utf8_lossy(b).into_owned()).collect()
}

fn demo_listing() -> Vec<Entry> {
    vec![file("a.txt", 100), dir("sub")]
}

fn demo_engine() -> NavEngine {
    let parent = DirSnapshot { path: path(&["tmp"]), entries: vec![dir("demo")] };
    NavEngine::with_start(path(&["tmp", "demo"]), demo_listing(), Some(parent))
}

#[test]
fn start_selects_first_entry() {
    let engine = demo_engine();
    assert_eq!(parts_of(engine.current_path()), vec!["tmp", "demo"]);
    assert_eq!(engine.entries().current_idx(), Some(0));
    assert_eq!(engine.entries().len(), 2);
    assert!(engine.last_error().is_none());
    assert!(!engine.should_exit());
}

#[test]
fn quit_marks_exit_and_changes_nothing_else() {
    let mut engine = demo_engine();
    let a = engine.handle(NavEvent::Quit);
    assert!(matches!(a, NavAction::Idle));
    assert!(engine.should_exit());
    assert_eq!(engine.entries().current_idx(), Some(0));
}

#[test]
fn tick_is_a_no_op() {
    let mut engine = demo_engine();
    let a = engine.handle(NavEvent::Tick);
    assert!(matches!(a, NavAction::Idle));
    assert!(!engine.should_exit());
    assert_eq!(engine.entries().current_idx(), Some(0));
}

#[test]
fn down_and_up_move_with_wrap() {
    let mut engine = demo_engine();
    assert!(matches!(engine.handle(NavEvent::Down), NavAction::RefreshPreview));
    assert_eq!(engine.entries().current_idx(), Some(1));
    assert!(matches!(engine.handle(NavEvent::Down), NavAction::RefreshPreview));
    assert_eq!(engine.entries().current_idx(), Some(0));
    assert!(matches!(engine.handle(NavEvent::Up), NavAction::RefreshPreview));
    assert_eq!(engine.entries().current_idx(), Some(1));
}

#[test]
fn navigation_input_clears_error() {
    let mut engine = demo_engine();
    engine.set_error("launch failed".to_string());
    assert_eq!(engine.last_error().as_deref(), Some("launch failed"));
    engine.handle(NavEvent::Down);
    assert!(engine.last_error().is_none());
}

#[test]
fn descend_on_directory_requests_load_and_remembers_index() {
    let mut engine = demo_engine();
    engine.handle(NavEvent::Down);
    let a = engine.handle(NavEvent::Descend);
    match a {
        NavAction::LoadDir { path, select, remember } => {
            assert_eq!(parts_of(&path), vec!["tmp", "demo", "sub"]);
            assert_eq!(select, Some(0));
            assert_eq!(remember, Some(1));
        },
        _ => panic!("expected a directory load"),
    }
}

#[test]
fn descend_on_file_requests_open() {
    let mut engine = demo_engine();
    let a = engine.handle(NavEvent::Descend);
    match a {
        NavAction::OpenFile { path } => {
            assert_eq!(parts_of(&path), vec!["tmp", "demo", "a.txt"]);
        },
        _ => panic!("expected an open request"),
    }
}

#[test]
fn raw_bytes_of_a_name_survive_into_the_target_path() {
    // A name that is not valid UTF-8 (legal on Linux) must be handed back
    // byte for byte, never through a lossy text conversion.
    let raw_name: Vec<u8> = vec![0x66, 0xff, 0x6f];
    let odd = Entry {
        name: raw_name.clone(),
        meta: Ok(EntryMeta { kind: EntryKind::Directory, size: 0 }),
    };
    let mut engine = NavEngine::with_start(path(&["tmp"]), vec![odd], None);
    match engine.handle(NavEvent::Descend) {
        NavAction::LoadDir { path, .. } => {
            assert_eq!(path.parts().len(), 2);
            assert_eq!(path.parts()[0], b"tmp".to_vec());
            assert_eq!(path.parts()[1], raw_name);
        },
        _ => panic!("expected a directory load"),
    }
}

#[test]
fn ascend_at_root_is_idle() {
    let mut engine = NavEngine::with_start(DirPath::root(), demo_listing(), None);
    let a = engine.handle(NavEvent::Ascend);
    assert!(matches!(a, NavAction::Idle));
    assert!(parts_of(engine.current_path()).is_empty());
}

#[test]
fn load_failure_keeps_state_and_reports_error() {
    let mut engine = demo_engine();
    engine.handle(NavEvent::Down);
    let a = engine.handle(NavEvent::Descend);
    let (p, select, remember) = match a {
        NavAction::LoadDir { path, select, remember } => (path, select, remember),
        _ => panic!("expected a directory load"),
    };
    engine.apply_load(p, select, Err("permission denied".to_string()), None, remember);
    assert_eq!(parts_of(engine.current_path()), vec!["tmp", "demo"]);
    assert_eq!(engine.entries().len(), 2);
    assert_eq!(engine.entries().current_idx(), Some(1));
    assert_eq!(engine.last_error().as_deref(), Some("permission denied"));
}

#[test]
fn listing_retains_entries_with_failed_metadata() {
    let listing = vec![file("ok1", 1), broken("odd", "io error"), file("ok2", 2)];
    let mut engine = NavEngine::with_start(path(&["tmp"]), listing, None);
    assert_eq!(engine.entries().len(), 3);
    engine.handle(NavEvent::Down);
    assert_eq!(engine.entries().current_idx(), Some(1));
    let q = engine.preview_query();
    match q {
        PreviewQuery::MetaFailed { message } => assert_eq!(message, "io error"),
        _ => panic!("expected the stored metadata error"),
    }
    engine.apply_preview(PreviewOutcome::MetaError("io error".to_string()));
    assert!(matches!(engine.preview(), Preview::Empty));
    assert_eq!(engine.last_error().as_deref(), Some("io error"));
}

#[test]
fn skip_policy_drops_only_unreadable_stream_records() {
    // One child's directory-stream record failed outright, one child's
    // metadata query failed, two are fine: the stream failure is dropped,
    // the other three all stay.
    let children = vec![
        Some(file("ok1", 1)),
        None,
        Some(broken("odd", "io error")),
        Some(file("ok2", 2)),
    ];
    let kept = keep_readable(&children);
    assert_eq!(kept.len(), 3);
    assert_eq!(kept[0].name, b"ok1".to_vec());
    assert_eq!(kept[1].name, b"odd".to_vec());
    assert!(kept[1].meta.is_err());
    assert_eq!(kept[2].name, b"ok2".to_vec());
}

#[test]
fn preview_query_matches_selected_kind() {
    let listing = vec![file("a.txt", 1), dir("sub")];
    let mut engine = NavEngine::with_start(path(&["tmp", "demo"]), listing, None);
    match engine.preview_query() {
        PreviewQuery::ReadHead { path } => {
            assert_eq!(parts_of(&path), vec!["tmp", "demo", "a.txt"])
        },
        _ => panic!("expected a file-head request"),
    }
    engine.handle(NavEvent::Down);
    match engine.preview_query() {
        PreviewQuery::ListChildren { path } => {
            assert_eq!(parts_of(&path), vec!["tmp", "demo", "sub"])
        },
        _ => panic!("expected a children request"),
    }
}

#[test]
fn unreadable_file_degrades_preview_to_empty() {
    let mut engine = demo_engine();
    engine.apply_preview(PreviewOutcome::Text(None));
    assert!(matches!(engine.preview(), Preview::Empty));
    assert!(engine.last_error().is_none());
}

#[test]
fn failed_child_listing_shows_error_preview() {
    let mut engine = demo_engine();
    engine.handle(NavEvent::Down);
    engine.apply_preview(PreviewOutcome::Children(Err("denied".to_string())));
    match engine.preview() {
        Preview::Error(m) => assert_eq!(m, "denied"),
        _ => panic!("expected an error preview"),
    }
}

#[test]
fn end_to_end_demo_walk() {
    // Start at /tmp/demo holding a.txt (10 lines) and the empty sub/.
    let mut engine = demo_engine();
    assert_eq!(engine.entries().current_idx(), Some(0));

    // The initial preview shows a.txt's ten lines.
    let lines: Vec<String> = (0..10).map(|i| format!("line {}", i)).collect();
    match engine.preview_query() {
        PreviewQuery::ReadHead { path } => {
            assert_eq!(parts_of(&path), vec!["tmp", "demo", "a.txt"])
        },
        _ => panic!("expected a file-head request"),
    }
    engine.apply_preview(PreviewOutcome::Text(Some(snippet_from_lines(&lines))));
    match engine.preview() {
        Preview::TextSnippet(s) => {
            assert_eq!(s.lines().count(), 10);
            assert!(s.starts_with("line 0\n"));
        },
        _ => panic!("expected a text snippet"),
    }

    // Down selects sub; its preview is an empty child listing.
    engine.handle(NavEvent::Down);
    assert_eq!(engine.entries().current_idx(), Some(1));
    engine.apply_preview(PreviewOutcome::Children(Ok(Vec::new())));
    match engine.preview() {
        Preview::ChildListing(v) => assert!(v.is_empty()),
        _ => panic!("expected a child listing"),
    }

    // Descend into sub: empty listing, no selection; the engine snapshots
    // the old current directory (/tmp/demo) as the new parent itself.
    let (p, select, remember) = match engine.handle(NavEvent::Descend) {
        NavAction::LoadDir { path, select, remember } => (path, select, remember),
        _ => panic!("expected a directory load"),
    };
    engine.apply_load(p, select, Ok(Vec::new()), None, remember);
    assert_eq!(parts_of(engine.current_path()), vec!["tmp", "demo", "sub"]);
    assert_eq!(engine.entries().current_idx(), None);
    let snap = engine.parent_snapshot().as_ref().expect("parent snapshot");
    assert_eq!(parts_of(&snap.path), vec!["tmp", "demo"]);
    assert_eq!(snap.entries.len(), 2);
    assert_eq!(snap.entries[0].name, b"a.txt".to_vec());
    assert_eq!(snap.entries[1].name, b"sub".to_vec());

    // Ascend back: selection is restored to index 1 (sub).
    let (p, select, remember) = match engine.handle(NavEvent::Ascend) {
        NavAction::LoadDir { path, select, remember } => (path, select, remember),
        _ => panic!("expected a directory load"),
    };
    assert_eq!(parts_of(&p), vec!["tmp", "demo"]);
    assert_eq!(select, Some(1));
    let parent = DirSnapshot { path: path(&["tmp"]), entries: vec![dir("demo")] };
    engine.apply_load(p, select, Ok(demo_listing()), Some(parent), remember);
    assert_eq!(parts_of(engine.current_path()), vec!["tmp", "demo"]);
    assert_eq!(engine.entries().current_idx(), Some(1));
}

#[test]
fn descend_then_ascend_restores_the_state() {
    let mut engine = demo_engine();
    engine.handle(NavEvent::Down);
    assert_eq!(engine.entries().current_idx(), Some(1));

    let parent_again = DirSnapshot { path: path(&["tmp"]), entries: vec![dir("demo")] };
    trav::nav::descend_then_ascend(&mut engine, Vec::new(), demo_listing(), Some(parent_again));

    assert_eq!(parts_of(engine.current_path()), vec!["tmp", "demo"]);
    assert_eq!(engine.entries().len(), 2);
    assert_eq!(engine.entries().current_idx(), Some(1));
    assert!(engine.last_error().is_none());
}
