use db_mg::copy::{scan_total, CopyAction, CopyRun, FsEntry};
use db_mg::progress::ProgressTracker;

fn entry(rel: &str, is_dir: bool) -> FsEntry {
    FsEntry {
        rel_path: rel.to_string(),
        is_dir,
    }
}

fn run_to_completion(run: &mut CopyRun, tracker: &mut ProgressTracker) -> Vec<CopyAction> {
    let mut performed = Vec::new();
    while let Some(action) = run.next_action() {
        performed.push(action.clone());
        run.advance(tracker);
    }
    assert!(run.is_complete());
    performed
}

#[test]
fn counters_start_at_zero_and_grow() {
    let mut t = ProgressTracker::new();
    assert_eq!(t.get_progress(), (0, 0));
    t.increment_total_files();
    t.increment_total_files();
    t.increment_processed_files();
    assert_eq!(t.get_progress(), (1, 2));
}

#[test]
fn empty_directory_copy_processes_nothing() {
    // Copying an empty source directory creates only the empty destination
    // directory and leaves the processed counter at zero.
    let entries: Vec<FsEntry> = Vec::new();
    let mut tracker = ProgressTracker::new();
    scan_total(&entries, &mut tracker);
    assert_eq!(tracker.get_progress(), (0, 0));

    let mut run = CopyRun::for_directory("/src/data", "/dest", &entries).unwrap();
    let performed = run_to_completion(&mut run, &mut tracker);
    assert_eq!(
        performed,
        vec![CopyAction::MakeDir {
            path: "/dest/data".to_string()
        }]
    );
    assert_eq!(tracker.get_progress(), (0, 0));
}

#[test]
fn nested_copy_reproduces_structure_and_balances_counters() {
    // N files across nesting: the pre-scan counts N, the run copies N, and
    // every relative path reappears under the destination.
    let entries = vec![
        entry("sub", true),
        entry("sub/a.txt", false),
        entry("b.txt", false),
    ];
    let mut tracker = ProgressTracker::new();
    scan_total(&entries, &mut tracker);
    assert_eq!(tracker.get_progress(), (0, 2));

    let mut run = CopyRun::for_directory("/src/data", "/dest", &entries).unwrap();
    let performed = run_to_completion(&mut run, &mut tracker);
    assert_eq!(
        performed,
        vec![
            CopyAction::MakeDir {
                path: "/dest/data".to_string()
            },
            CopyAction::MakeDir {
                path: "/dest/data/sub".to_string()
            },
            CopyAction::CopyFile {
                source: "/src/data/sub/a.txt".to_string(),
                dest: "/dest/data/sub/a.txt".to_string()
            },
            CopyAction::CopyFile {
                source: "/src/data/b.txt".to_string(),
                dest: "/dest/data/b.txt".to_string()
            },
        ]
    );
    assert_eq!(tracker.get_progress(), (2, 2));
}

#[test]
fn traversal_root_entry_maps_to_destination_root() {
    // A traversal that reports the source root itself (relative path empty)
    // recreates the destination root.
    let entries = vec![entry("", true), entry("f.txt", false)];
    let run = CopyRun::for_directory("/src/data", "/dest", &entries).unwrap();
    assert_eq!(run.plan.len(), 3);
    assert_eq!(
        run.plan[1],
        CopyAction::MakeDir {
            path: "/dest/data/".to_string()
        }
    );
}

#[test]
fn single_file_copy_goes_under_its_name() {
    let run = CopyRun::for_file("/x/a.txt", "/dest").unwrap();
    assert_eq!(
        run.plan,
        vec![CopyAction::CopyFile {
            source: "/x/a.txt".to_string(),
            dest: "/dest/a.txt".to_string()
        }]
    );
}

#[test]
fn source_without_name_is_refused() {
    assert!(CopyRun::for_file("/", "/dest").is_err());
    assert!(CopyRun::for_directory("/src/", "/dest", &Vec::new()).is_err());
}

#[test]
fn contents_copy_targets_destination_directly() {
    let entries = vec![entry("f", false)];
    let run = CopyRun::for_contents("/s", "/d", &entries);
    assert_eq!(
        run.plan,
        vec![
            CopyAction::MakeDir {
                path: "/d".to_string()
            },
            CopyAction::CopyFile {
                source: "/s/f".to_string(),
                dest: "/d/f".to_string()
            },
        ]
    );
}

#[test]
fn tree_copy_of_a_file_creates_parent_first() {
    let run = CopyRun::for_tree("/s/f.txt", "/em/Videos/f.txt", false, &Vec::new());
    assert_eq!(
        run.plan,
        vec![
            CopyAction::MakeDir {
                path: "/em/Videos".to_string()
            },
            CopyAction::CopyFile {
                source: "/s/f.txt".to_string(),
                dest: "/em/Videos/f.txt".to_string()
            },
        ]
    );
}

#[test]
fn tree_copy_of_a_directory_replicates_contents() {
    let entries = vec![entry("inner", true), entry("inner/x", false)];
    let run = CopyRun::for_tree("/s", "/d", true, &entries);
    assert_eq!(
        run.plan,
        vec![
            CopyAction::MakeDir {
                path: "/d".to_string()
            },
            CopyAction::MakeDir {
                path: "/d/inner".to_string()
            },
            CopyAction::CopyFile {
                source: "/s/inner/x".to_string(),
                dest: "/d/inner/x".to_string()
            },
        ]
    );
}

#[test]
fn scan_total_accumulates_over_batches() {
    // The drop pre-scan runs once per dropped path, against one tracker.
    let first = vec![entry("a", false)];
    let second = vec![entry("b", true), entry("b/c", false), entry("b/d", false)];
    let mut tracker = ProgressTracker::new();
    scan_total(&first, &mut tracker);
    scan_total(&second, &mut tracker);
    assert_eq!(tracker.get_progress(), (0, 3));
}
