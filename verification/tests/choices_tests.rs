use ccb_cli::choices::{StatusEntry, build_choices, entry_path, select_paths};
use ccb_cli::status::{Status, INDEX_MODIFIED, WT_MODIFIED, WT_NEW, IGNORED};

fn entry(path: &str, bits: u32) -> StatusEntry {
    StatusEntry { path: path.to_string(), status: Status::new(bits) }
}

#[test]
fn checklist_skips_ignored_entries() {
    let entries = vec![
        entry("a.rs", INDEX_MODIFIED),
        entry("target/x", IGNORED),
        entry("b.rs", WT_MODIFIED),
    ];
    let (items, defaults) = build_choices(&entries);
    assert_eq!(items, vec!["a.rs".to_string(), "b.rs".to_string()]);
    assert_eq!(defaults, vec![true, false]);
}

#[test]
fn checklist_prechecks_untracked_files() {
    let entries = vec![entry("new.rs", WT_NEW)];
    let (items, defaults) = build_choices(&entries);
    assert_eq!(items, vec!["new.rs".to_string()]);
    assert_eq!(defaults, vec![true]);
}

#[test]
fn checklist_of_no_entries_is_empty() {
    let entries: Vec<StatusEntry> = vec![];
    let (items, defaults) = build_choices(&entries);
    assert!(items.is_empty());
    assert!(defaults.is_empty());
}

#[test]
fn entry_path_prefers_head_to_index() {
    let p = entry_path(
        Some("head.rs".to_string()),
        Some("wd-new.rs".to_string()),
        Some("wd-old.rs".to_string()),
    );
    assert_eq!(p, "head.rs");
}

#[test]
fn entry_path_falls_back_to_workdir_new() {
    let p = entry_path(None, Some("wd-new.rs".to_string()), Some("wd-old.rs".to_string()));
    assert_eq!(p, "wd-new.rs");
}

#[test]
fn entry_path_falls_back_to_workdir_old() {
    let p = entry_path(None, None, Some("wd-old.rs".to_string()));
    assert_eq!(p, "wd-old.rs");
}

#[test]
fn entry_path_placeholder_when_nothing_is_known() {
    let p = entry_path(None, None, None);
    assert_eq!(p, "<unknown>");
}

#[test]
fn selection_maps_indices_back_to_paths() {
    let items = vec!["a.rs".to_string(), "b.rs".to_string(), "c.rs".to_string()];
    let selection = vec![2usize, 0usize];
    let picked = select_paths(&items, &selection);
    assert_eq!(picked, vec!["c.rs".to_string(), "a.rs".to_string()]);
}

#[test]
fn empty_selection_picks_nothing() {
    let items = vec!["a.rs".to_string()];
    let selection: Vec<usize> = vec![];
    let picked = select_paths(&items, &selection);
    assert!(picked.is_empty());
}
