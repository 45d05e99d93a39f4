use lsenext::state::{
    collect_sources, menu_subcommands, settle_state_removal, state_file, sync_explorer_menu,
    validate_target_dir, FileRemoval, MenuSyncStep, PathProbe, PickedSource, SelectionState,
    StateError,
};

fn state_of(sources: Vec<(&str, bool)>) -> SelectionState {
    SelectionState {
        picked_at_unix: 42,
        sources: sources
            .into_iter()
            .map(|(path, is_dir)| PickedSource { path: path.to_string(), is_dir })
            .collect(),
    }
}

#[test]
fn file_source_menu_subcommands_do_not_include_junction() {
    let state = state_of(vec![(r"C:\src\file.txt", false)]);
    let (directory, background) = menu_subcommands(Some(&state));
    assert_eq!(
        directory,
        "LSENext.PickSource;LSENext.DropSymbolic;LSENext.DropHardLink;LSENext.ClearSource"
    );
    assert_eq!(
        background,
        "LSENext.BackgroundDropSymbolic;LSENext.BackgroundDropHardLink;LSENext.ClearSource"
    );
}

#[test]
fn directory_source_menu_subcommands_include_junction() {
    let state = state_of(vec![(r"C:\src\folder", true)]);
    let (directory, background) = menu_subcommands(Some(&state));
    assert_eq!(
        directory,
        "LSENext.PickSource;LSENext.DropSymbolic;LSENext.DropJunction;LSENext.ClearSource"
    );
    assert_eq!(
        background,
        "LSENext.BackgroundDropSymbolic;LSENext.BackgroundDropJunction;LSENext.ClearSource"
    );
}

#[test]
fn menu_subcommands_without_state_or_with_mixed_sources() {
    let (directory, background) = menu_subcommands(None);
    assert_eq!(directory, "LSENext.PickSource");
    assert_eq!(background, "LSENext.ClearSource");
    let mixed = state_of(vec![(r"C:\src\file.txt", false), (r"C:\src\folder", true)]);
    let (directory, background) = menu_subcommands(Some(&mixed));
    assert_eq!(directory, "LSENext.PickSource;LSENext.DropSymbolic;LSENext.ClearSource");
    assert_eq!(background, "LSENext.BackgroundDropSymbolic;LSENext.ClearSource");
}

#[test]
fn state_lives_below_local_app_data() {
    assert_eq!(
        state_file(Some(r"C:\Users\me\AppData\Local")).unwrap(),
        r"C:\Users\me\AppData\Local\LSENext\state.json"
    );
    assert!(matches!(state_file(None), Err(StateError::MissingLocalAppData)));
}

#[test]
fn collect_sources_keeps_paths_and_kinds() {
    let paths = vec![r"C:\a.txt".to_string(), r"C:\dir".to_string()];
    let probes = vec![
        PathProbe::Readable { is_file: true, is_dir: false },
        PathProbe::Readable { is_file: false, is_dir: true },
    ];
    let sources = collect_sources(&paths, &probes).unwrap();
    assert_eq!(
        sources,
        vec![
            PickedSource { path: r"C:\a.txt".to_string(), is_dir: false },
            PickedSource { path: r"C:\dir".to_string(), is_dir: true },
        ]
    );
}

#[test]
fn collect_sources_stops_at_first_bad_path() {
    let paths = vec!["a".to_string(), "b".to_string(), "c".to_string()];
    let probes = vec![
        PathProbe::Readable { is_file: true, is_dir: false },
        PathProbe::Readable { is_file: false, is_dir: false },
        PathProbe::Unreadable("gone".to_string()),
    ];
    match collect_sources(&paths, &probes) {
        Err(StateError::MissingSource(p)) => assert_eq!(p, "b"),
        other => panic!("unexpected {:?}", other),
    }
    let probes = vec![
        PathProbe::Readable { is_file: true, is_dir: false },
        PathProbe::Unreadable("gone".to_string()),
        PathProbe::Readable { is_file: false, is_dir: false },
    ];
    match collect_sources(&paths, &probes) {
        Err(StateError::Io { path, detail }) => {
            assert_eq!(path, "b");
            assert_eq!(detail, "gone");
        }
        other => panic!("unexpected {:?}", other),
    }
}

#[test]
fn target_dir_must_be_a_directory() {
    assert!(validate_target_dir("t", &PathProbe::Readable { is_file: false, is_dir: true }).is_ok());
    assert!(matches!(
        validate_target_dir("t", &PathProbe::Readable { is_file: true, is_dir: false }),
        Err(StateError::MissingSource(_))
    ));
    assert!(matches!(
        validate_target_dir("t", &PathProbe::Unreadable("x".to_string())),
        Err(StateError::Io { .. })
    ));
}

#[test]
fn clearing_a_missing_state_file_is_fine() {
    assert!(settle_state_removal("s", &FileRemoval::Removed).is_ok());
    assert!(settle_state_removal("s", &FileRemoval::NotFound).is_ok());
    match settle_state_removal("s", &FileRemoval::Failed("locked".to_string())) {
        Err(StateError::Io { path, detail }) => {
            assert_eq!(path, "s");
            assert_eq!(detail, "locked");
        }
        other => panic!("unexpected {:?}", other),
    }
}

fn key_of(step: MenuSyncStep) -> String {
    match step {
        MenuSyncStep::DeleteTree(k) => k,
        _ => panic!("expected a deletion"),
    }
}

#[test]
fn sync_deletes_the_three_classic_keys_in_order() {
    assert_eq!(key_of(sync_explorer_menu(None, &vec![])), r"Software\Classes\*\shell\LSENext");
    assert_eq!(
        key_of(sync_explorer_menu(None, &vec![0])),
        r"Software\Classes\Directory\shell\LSENext"
    );
    assert_eq!(
        key_of(sync_explorer_menu(None, &vec![0, 2])),
        r"Software\Classes\Directory\Background\shell\LSENext"
    );
    assert!(matches!(sync_explorer_menu(None, &vec![0, 2, 0]), MenuSyncStep::Done));
}

#[test]
fn sync_stops_at_first_failed_deletion() {
    let state = state_of(vec![(r"C:\src\folder", true)]);
    match sync_explorer_menu(Some(&state), &vec![0, 5]) {
        MenuSyncStep::Failed(err) => {
            assert_eq!(
                err.message(),
                "failed to update Explorer menu registration while deleting HKCU classic menu key, Win32 error 5"
            );
        }
        _ => panic!("expected a failure"),
    }
}

#[test]
fn state_error_messages() {
    assert_eq!(StateError::MissingLocalAppData.message(), "LOCALAPPDATA is not available");
    assert_eq!(StateError::MissingSource("p".to_string()).message(), "source does not exist: p");
    assert_eq!(
        StateError::Io { path: "p".to_string(), detail: "d".to_string() }.message(),
        "failed to access path p: d"
    );
    assert_eq!(StateError::Json("bad".to_string()).message(), "failed to serialize state: bad");
    assert_eq!(
        StateError::Registry { operation: "x", code: 1234567 }.message(),
        "failed to update Explorer menu registration while x, Win32 error 1234567"
    );
}

#[test]
fn clearing_twice_succeeds() {
    // A first clear removes the file; the second finds it gone.
    assert!(settle_state_removal(r"C:\s.json", &FileRemoval::Removed).is_ok());
    assert!(settle_state_removal(r"C:\s.json", &FileRemoval::NotFound).is_ok());
}
