use db_mg::config::{
    base_path_from_config, init_directories_plan, initial_config, Config, DirectoryTracker,
};
use db_mg::copy::{CopyAction, FsEntry};
use db_mg::error::DirError;
use db_mg::state::DirectoryState;
use db_mg::stores::{
    handle_post_store_actions, CriticalAction, EmergencyStore, EmergencyType, SecretStore,
    SecretType, UrlStore,
};

#[test]
fn url_store_roots_and_paths() {
    let store = UrlStore::new("/base".to_string());
    assert_eq!(store.urls_dir, "/base/Internet Urls");

    let plain = store.url_file_path(None, "link");
    assert_eq!(plain.create_dir, None);
    assert_eq!(plain.file_path, "/base/Internet Urls/link");

    let foldered = store.url_file_path(Some(&"work".to_string()), "link");
    assert_eq!(foldered.create_dir, Some("/base/Internet Urls/work".to_string()));
    assert_eq!(foldered.file_path, "/base/Internet Urls/work/link");
}

#[test]
fn secret_store_categories() {
    let store = SecretStore::new("/base".to_string());
    assert_eq!(store.get_secrets_dir(), "/base/Secrets");
    assert_eq!(store.get_category_path(&SecretType::Email), "/base/Secrets/Emails");
    assert_eq!(
        store.get_category_path(&SecretType::SocialMedia),
        "/base/Secrets/Social Media IDs"
    );
    assert_eq!(store.get_category_path(&SecretType::Phone), "/base/Secrets/Phone Numbers");
    assert_eq!(store.get_category_path(&SecretType::Other), "/base/Secrets");
    assert_eq!(
        store.ensure_secret_directories(),
        vec![
            "/base/Secrets/Emails".to_string(),
            "/base/Secrets/Social Media IDs".to_string(),
            "/base/Secrets/Phone Numbers".to_string(),
        ]
    );
}

#[test]
fn secret_type_menu_positions() {
    assert_eq!(SecretStore::secret_type_from_selection(0), Ok(SecretType::Email));
    assert_eq!(SecretStore::secret_type_from_selection(1), Ok(SecretType::SocialMedia));
    assert_eq!(SecretStore::secret_type_from_selection(2), Ok(SecretType::Phone));
    assert_eq!(SecretStore::secret_type_from_selection(3), Ok(SecretType::Other));
    assert!(SecretStore::secret_type_from_selection(4).is_err());
}

#[test]
fn secret_file_placement() {
    let store = SecretStore::new("/base".to_string());
    let direct = store.secret_file_path(&SecretType::Email, None, "mail.txt");
    assert_eq!(direct.create_dir, None);
    assert_eq!(direct.file_path, "/base/Secrets/Emails/mail.txt");

    let nested = store.secret_file_path(&SecretType::Other, Some(&"misc".to_string()), "s.txt");
    assert_eq!(nested.create_dir, Some("/base/Secrets/misc".to_string()));
    assert_eq!(nested.file_path, "/base/Secrets/misc/s.txt");
}

#[test]
fn secret_copy_needs_a_target() {
    let store = SecretStore::new("/base".to_string());
    assert!(store.copy_to_target_plan("/base/Secrets/Emails", true, &Vec::new()).is_none());
}

#[test]
fn secret_copy_replicates_category_under_target() {
    let mut store = SecretStore::new("/base".to_string());
    store.set_target_directory("/drop".to_string());
    let entries = vec![FsEntry {
        rel_path: "mail.txt".to_string(),
        is_dir: false,
    }];
    let run = store
        .copy_to_target_plan("/base/Secrets/Emails", true, &entries)
        .unwrap()
        .unwrap();
    assert_eq!(
        run.plan,
        vec![
            CopyAction::MakeDir {
                path: "/drop/Emails".to_string()
            },
            CopyAction::CopyFile {
                source: "/base/Secrets/Emails/mail.txt".to_string(),
                dest: "/drop/Emails/mail.txt".to_string()
            },
        ]
    );

    let file_run = store
        .copy_to_target_plan("/base/Secrets/s.txt", false, &Vec::new())
        .unwrap()
        .unwrap();
    assert_eq!(
        file_run.plan,
        vec![CopyAction::CopyFile {
            source: "/base/Secrets/s.txt".to_string(),
            dest: "/drop/s.txt".to_string()
        }]
    );
}

#[test]
fn emergency_store_categories() {
    let store = EmergencyStore::new("/base".to_string());
    assert_eq!(store.emergency_dir, "/base/Emergency");
    assert_eq!(store.get_category_path(&EmergencyType::Videos), "/base/Emergency/Videos");
    assert_eq!(store.get_category_path(&EmergencyType::Others), "/base/Emergency");
    let dirs = store.ensure_emergency_directories();
    assert_eq!(dirs.len(), 8);
    assert_eq!(dirs[0], "/base/Emergency/Videos");
    assert_eq!(dirs[7], "/base/Emergency/Others");
}

#[test]
fn emergency_type_menu_positions() {
    assert_eq!(
        EmergencyStore::emergency_type_from_selection(0),
        Ok(EmergencyType::Videos)
    );
    assert_eq!(
        EmergencyStore::emergency_type_from_selection(7),
        Ok(EmergencyType::Others)
    );
    assert!(EmergencyStore::emergency_type_from_selection(8).is_err());
}

#[test]
fn critical_store_creates_empty_without_source() {
    let store = EmergencyStore::new("/base".to_string());
    let plan = store.critical_file_path(&EmergencyType::Videos, None, "v.mp4");
    assert_eq!(plan.file_path, "/base/Emergency/Videos/v.mp4");
    match store.critical_store_plan(&plan.file_path, false, &Vec::new()) {
        CriticalAction::CreateEmpty { path } => assert_eq!(path, "/base/Emergency/Videos/v.mp4"),
        other => panic!("unexpected action: {other:?}"),
    }
}

#[test]
fn critical_store_replicates_remembered_source() {
    let mut store = EmergencyStore::new("/base".to_string());
    store.set_source_file("/home/u/backup.tar".to_string());
    let plan = store.critical_file_path(&EmergencyType::Compressed, Some(&"weekly".to_string()), "b.tar");
    assert_eq!(plan.create_dir, Some("/base/Emergency/Compressed/weekly".to_string()));
    assert_eq!(plan.file_path, "/base/Emergency/Compressed/weekly/b.tar");
    match store.critical_store_plan(&plan.file_path, false, &Vec::new()) {
        CriticalAction::Replicate { run } => {
            assert_eq!(
                run.plan,
                vec![
                    CopyAction::MakeDir {
                        path: "/base/Emergency/Compressed/weekly".to_string()
                    },
                    CopyAction::CopyFile {
                        source: "/home/u/backup.tar".to_string(),
                        dest: "/base/Emergency/Compressed/weekly/b.tar".to_string()
                    },
                ]
            );
        },
        other => panic!("unexpected action: {other:?}"),
    }
}

#[test]
fn post_store_mirrors_urls_when_target_set() {
    let mut state = DirectoryState::new("/base".to_string()).unwrap();
    assert_eq!(handle_post_store_actions(&state, true), None);

    state.set_target_directory("/drop".to_string());
    assert_eq!(
        handle_post_store_actions(&state, true),
        Some(("/base/Internet Urls".to_string(), "/drop/Internet Urls".to_string()))
    );
    assert_eq!(handle_post_store_actions(&state, false), None);
}

#[test]
fn base_path_requires_presence_and_content() {
    assert_eq!(base_path_from_config(Some("/base".to_string())), Ok("/base".to_string()));
    assert!(matches!(
        base_path_from_config(Some("".to_string())),
        Err(DirError::ConfigMissing)
    ));
    assert!(matches!(base_path_from_config(None), Err(DirError::ConfigMissing)));
}

#[test]
fn initialization_record_and_plan() {
    let config = initial_config("/base".to_string(), "stamp".to_string());
    assert_eq!(config.base_path, "/base");
    assert_eq!(config.created_at, "stamp");
    assert_eq!(
        config.directories,
        vec![
            "Internet Urls".to_string(),
            "Secrets".to_string(),
            "Emergency".to_string()
        ]
    );
    assert!(config.subdirectories.is_empty());

    assert_eq!(
        init_directories_plan("/base"),
        vec![
            "/base".to_string(),
            "/base/Internet Urls".to_string(),
            "/base/Secrets".to_string(),
            "/base/Emergency".to_string(),
        ]
    );
}

#[test]
fn tracker_records_each_subfolder_once() {
    let config = Config {
        base_path: "/base".to_string(),
        directories: Vec::new(),
        created_at: "stamp".to_string(),
        subdirectories: Vec::new(),
    };
    let mut tracker = DirectoryTracker::new(config);
    assert_eq!(tracker.get_base_path(), Ok("/base".to_string()));
    assert_eq!(tracker.get_subdirectories("Secrets"), Vec::<String>::new());

    assert!(tracker.add_subdirectory("Secrets", "work"));
    assert!(!tracker.add_subdirectory("Secrets", "work"));
    assert!(tracker.add_subdirectory("Secrets", "home"));
    assert!(tracker.add_subdirectory("Emergency", "vault"));

    assert_eq!(
        tracker.get_subdirectories("Secrets"),
        vec!["work".to_string(), "home".to_string()]
    );
    assert_eq!(tracker.get_subdirectories("Emergency"), vec!["vault".to_string()]);
    assert_eq!(tracker.get_subdirectories("Internet Urls"), Vec::<String>::new());
}
