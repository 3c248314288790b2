use bulk_fetch::relocate::{has_partial_marker, partition_partial, relocate, FsState};

fn names(items: &[&str]) -> Vec<String> {
    items.iter().map(|s| s.to_string()).collect()
}

#[test]
fn partial_marker_on_suffix_only() {
    assert!(has_partial_marker("a.part"));
    assert!(has_partial_marker("part"));
    assert!(has_partial_marker("clip.mp4.part"));
    assert!(!has_partial_marker("a.txt"));
    assert!(!has_partial_marker("par"));
    assert!(!has_partial_marker(""));
    assert!(!has_partial_marker("a.Part"));
    assert!(!has_partial_marker("partial"));
}

#[test]
fn get_part_files_and_delete_them() {
    let plan = partition_partial(&names(&["text_fs_extra.txt", "text_fs_extra.part"]));
    assert_eq!(plan.remove, names(&["text_fs_extra.part"]));
    assert_eq!(plan.keep, names(&["text_fs_extra.txt"]));
}

#[test]
fn prune_keeps_everything_else_in_order() {
    let plan = partition_partial(&names(&["a.txt", "a.part", "b.mkv", "c.part", "d"]));
    assert_eq!(plan.keep, names(&["a.txt", "b.mkv", "d"]));
    assert_eq!(plan.remove, names(&["a.part", "c.part"]));
}

#[test]
fn prune_of_empty_folder_is_empty() {
    let plan = partition_partial(&Vec::new());
    assert!(plan.keep.is_empty());
    assert!(plan.remove.is_empty());
}

#[test]
fn relocate_success_moves_pruned_folder() {
    let fs = FsState {
        run_folder_present: true,
        run_folder_files: names(&["a.txt", "a.part"]),
        dest_present: false,
        relocated_files: None,
    };
    let (after, ok) = relocate(fs, true, true, true);
    assert!(ok);
    assert!(!after.run_folder_present);
    assert!(after.dest_present);
    assert_eq!(after.relocated_files, Some(names(&["a.txt"])));
}

#[test]
fn relocate_failed_move_keeps_source() {
    let fs = FsState {
        run_folder_present: true,
        run_folder_files: names(&["a.txt", "a.part"]),
        dest_present: true,
        relocated_files: None,
    };
    let (after, ok) = relocate(fs, false, true, false);
    assert!(!ok);
    assert!(after.run_folder_present);
    assert_eq!(after.run_folder_files, names(&["a.txt"]));
    assert_eq!(after.relocated_files, None);
}

#[test]
fn relocate_missing_source_touches_nothing() {
    let fs = FsState {
        run_folder_present: false,
        run_folder_files: Vec::new(),
        dest_present: false,
        relocated_files: None,
    };
    let (after, ok) = relocate(fs, true, true, true);
    assert!(!ok);
    assert!(!after.run_folder_present);
    assert!(!after.dest_present);
    assert_eq!(after.relocated_files, None);
}

#[test]
fn relocate_listing_failure_leaves_folder_untouched() {
    let fs = FsState {
        run_folder_present: true,
        run_folder_files: names(&["a.txt", "a.part"]),
        dest_present: false,
        relocated_files: None,
    };
    let (after, ok) = relocate(fs, true, false, true);
    assert!(!ok);
    assert!(after.run_folder_present);
    assert_eq!(after.run_folder_files, names(&["a.txt", "a.part"]));
    assert!(after.dest_present);
}
