use db_mg::error::DirError;
use db_mg::navigator::{DirectoryNavigator, ExistsProbe};
use db_mg::state::{
    initialize_directory_state, DirectoryProbe, DirectoryState, FileProbe, SyncProbe,
};

fn state_at(base: &str) -> DirectoryState {
    DirectoryState::new(base.to_string()).unwrap()
}

#[test]
fn construction_fixes_base_and_current() {
    let s = state_at("/base");
    assert_eq!(s.get_base_path().unwrap(), "/base");
    assert_eq!(s.get_current_path(), "/base");
    assert_eq!(s.get_base_directory(), "/base");
    assert_eq!(s.get_current_directory(), "/base");
    assert!(s.get_target_directory().is_none());
}

#[test]
fn construction_rejects_non_canonical() {
    assert!(matches!(
        DirectoryState::new("rel/path".to_string()),
        Err(DirError::InvalidDirectory { .. })
    ));
    assert!(matches!(
        DirectoryState::new("/trailing/".to_string()),
        Err(DirError::InvalidDirectory { .. })
    ));
    assert!(initialize_directory_state("/ok".to_string()).is_ok());
}

#[test]
fn set_current_path_commits_on_success() {
    // An existing directory reachable from the current path moves the state
    // to its canonical form.
    let mut s = state_at("/base");
    let probe = DirectoryProbe::Directory {
        canonical: "/base/sub".to_string(),
        os_error: None,
    };
    assert!(s.set_current_path("sub", probe).is_ok());
    assert_eq!(s.get_current_path(), "/base/sub");
    assert_eq!(s.get_base_directory(), "/base");
}

#[test]
fn set_current_path_missing_leaves_state_unchanged() {
    // A nonexistent target fails and the current path does not move.
    let mut s = state_at("/base");
    let r = s.set_current_path("nope", DirectoryProbe::Missing);
    match r {
        Err(DirError::InvalidDirectory { path }) => assert_eq!(path, "nope"),
        other => panic!("unexpected result: {other:?}"),
    }
    assert_eq!(s.get_current_path(), "/base");
}

#[test]
fn set_current_path_non_directory_leaves_state_unchanged() {
    let mut s = state_at("/base");
    let r = s.set_current_path("file.txt", DirectoryProbe::NotDirectory);
    assert!(matches!(r, Err(DirError::InvalidDirectory { .. })));
    assert_eq!(s.get_current_path(), "/base");
}

#[test]
fn set_current_path_os_failure_does_not_commit() {
    let mut s = state_at("/base");
    let probe = DirectoryProbe::Directory {
        canonical: "/base/sub".to_string(),
        os_error: Some("permission denied".to_string()),
    };
    let r = s.set_current_path("sub", probe);
    match r {
        Err(DirError::IoFailure { message }) => assert_eq!(message, "permission denied"),
        other => panic!("unexpected result: {other:?}"),
    }
    assert_eq!(s.get_current_path(), "/base");
}

#[test]
fn resolve_path_joins_or_passes_through() {
    let s = state_at("/base");
    assert_eq!(s.resolve_path("sub"), "/base/sub");
    assert_eq!(s.resolve_path("/abs"), "/abs");
}

#[test]
fn verify_file_accepts_regular_files() {
    let s = state_at("/base");
    let probe = FileProbe::Found {
        canonical: "/base/notes.txt".to_string(),
        is_file: true,
    };
    assert_eq!(s.verify_file_exists("notes.txt", probe).unwrap(), "/base/notes.txt");
}

#[test]
fn verify_file_rejects_directories() {
    // A directory never passes file verification.
    let s = state_at("/base");
    let probe = FileProbe::Found {
        canonical: "/base/subdir".to_string(),
        is_file: false,
    };
    match s.verify_file_exists("subdir", probe) {
        Err(DirError::NotAFile { path }) => assert_eq!(path, "/base/subdir"),
        other => panic!("unexpected result: {other:?}"),
    }
}

#[test]
fn verify_file_missing_names_file_and_directory() {
    let s = state_at("/base");
    match s.verify_file_exists("notes.txt", FileProbe::Missing) {
        Err(DirError::FileNotFound { file, current }) => {
            assert_eq!(file, "notes.txt");
            assert_eq!(current, "/base");
        },
        other => panic!("unexpected result: {other:?}"),
    }
}

#[test]
fn sync_with_navigator_follows_canonical_form() {
    let mut s = state_at("/base");
    let probe = SyncProbe::Canonical {
        canonical: "/base/deep".to_string(),
        os_error: None,
    };
    assert!(s.sync_with_navigator("/base/deep", probe).is_ok());
    assert_eq!(s.get_current_path(), "/base/deep");

    let failed = SyncProbe::CanonicalizeFailed {
        report: "gone".to_string(),
    };
    let r = s.sync_with_navigator("/base/gone", failed);
    assert!(matches!(r, Err(DirError::IoFailure { .. })));
    assert_eq!(s.get_current_path(), "/base/deep");
}

#[test]
fn target_directory_is_remembered() {
    let mut s = state_at("/base");
    s.set_target_directory("/elsewhere".to_string());
    assert_eq!(s.get_target_directory().unwrap(), "/elsewhere");
}

fn navigator_at(base: &str) -> DirectoryNavigator {
    DirectoryNavigator::new(base.to_string()).unwrap()
}

fn enter(nav: &mut DirectoryNavigator, dir: &str, canonical: &str) {
    let probe = DirectoryProbe::Directory {
        canonical: canonical.to_string(),
        os_error: None,
    };
    assert_eq!(nav.change_directory(dir, probe).unwrap(), canonical);
}

#[test]
fn parent_from_base_is_refused() {
    // `..` at the base root itself fails rather than escaping.
    let mut nav = navigator_at("/base");
    let r = nav.change_directory("..", DirectoryProbe::Missing);
    assert!(matches!(r, Err(DirError::AlreadyAtBase)));
    assert_eq!(nav.get_current_dir(), "/base");
}

#[test]
fn parent_from_descendant_returns_immediate_parent() {
    let mut nav = navigator_at("/base");
    enter(&mut nav, "a", "/base/a");
    enter(&mut nav, "b", "/base/a/b");
    let probe = DirectoryProbe::Directory {
        canonical: "/base/a".to_string(),
        os_error: None,
    };
    assert_eq!(nav.change_directory("..", probe).unwrap(), "/base/a");
    assert_eq!(nav.get_current_dir(), "/base/a");
}

#[test]
fn escape_of_base_is_refused() {
    // A target whose canonical form lies outside the base — however it was
    // written — is refused.
    let mut nav = navigator_at("/base");
    let probe = DirectoryProbe::Directory {
        canonical: "/etc".to_string(),
        os_error: None,
    };
    match nav.change_directory("../../etc", probe) {
        Err(DirError::OutsideBase { path }) => assert_eq!(path, "/etc"),
        other => panic!("unexpected result: {other:?}"),
    }
    assert_eq!(nav.get_current_dir(), "/base");
}

#[test]
fn change_to_missing_directory_is_refused() {
    let mut nav = navigator_at("/base");
    let r = nav.change_directory("nope", DirectoryProbe::Missing);
    match r {
        Err(DirError::InvalidDirectory { path }) => assert_eq!(path, "nope"),
        other => panic!("unexpected result: {other:?}"),
    }
    assert_eq!(nav.get_current_dir(), "/base");
}

#[test]
fn change_with_os_failure_does_not_commit() {
    let mut nav = navigator_at("/base");
    let probe = DirectoryProbe::Directory {
        canonical: "/base/sub".to_string(),
        os_error: Some("denied".to_string()),
    };
    assert!(matches!(
        nav.change_directory("sub", probe),
        Err(DirError::IoFailure { .. })
    ));
    assert_eq!(nav.get_current_dir(), "/base");
}

#[test]
fn path_existence_is_probed() {
    let nav = navigator_at("/base");
    let found = ExistsProbe::Canonical {
        canonical: "/base/x".to_string(),
    };
    assert_eq!(nav.verify_path_exists("x", found).unwrap(), "/base/x");
    match nav.verify_path_exists("gone", ExistsProbe::Missing) {
        Err(DirError::PathNotFound { path }) => assert_eq!(path, "/base/gone"),
        other => panic!("unexpected result: {other:?}"),
    }
}

#[test]
fn subdirectory_containment() {
    let nav = navigator_at("/base");
    assert!(nav.is_subdirectory(Some(&"/base/sub".to_string())));
    assert!(nav.is_subdirectory(Some(&"/base".to_string())));
    assert!(!nav.is_subdirectory(Some(&"/other".to_string())));
    assert!(!nav.is_subdirectory(None));
}

#[test]
fn relative_paths_from_current() {
    let mut nav = navigator_at("/base");
    enter(&mut nav, "a", "/base/a");
    assert_eq!(
        nav.get_relative_path(Some(&"/base/a/x/y".to_string())),
        Some("x/y".to_string())
    );
    assert_eq!(nav.get_relative_path(Some(&"/base/a".to_string())), Some("".to_string()));
    assert_eq!(nav.get_relative_path(Some(&"/other".to_string())), None);
    assert_eq!(nav.get_relative_path(None), None);
}
