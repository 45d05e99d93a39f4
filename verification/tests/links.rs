use lsenext::junction::{mount_point_layout, native_target, native_target_text, JunctionTargetTooLong};
use lsenext::links::{
    destination_for, elevated_retry_failure, link_batch_step, plan_link, should_retry_elevated, LinkBatchStep,
    LinkError, LinkKind,
};
use lsenext::state::PickedSource;

fn wide(text: &str) -> Vec<u16> {
    text.encode_utf16().chain(Some(0)).collect()
}

#[test]
fn destination_uses_source_file_name() {
    let dest = destination_for(r"C:\out", r"C:\in\file.txt").unwrap();
    assert_eq!(dest, r"C:\out\file.txt".to_string());
}

#[test]
fn junction_rejects_files() {
    let source = PickedSource {
        path: r"C:\file.txt".to_string(),
        is_dir: false,
    };
    let err = plan_link(LinkKind::Junction, &source, r"C:\missing", false, false).unwrap_err();
    assert!(matches!(err, LinkError::JunctionNeedsDirectory(_)));
}

#[test]
fn native_target_uses_nt_prefix() {
    let wide_target = native_target(r"C:\Target");
    let text = String::from_utf16_lossy(&wide_target);
    assert!(text.starts_with(r"\??\"));
    assert_eq!(wide_target, wide(r"\??\C:\Target"));
    assert_eq!(native_target(r"\\?\C:\Target"), wide(r"\??\C:\Target"));
}

#[test]
fn destination_without_file_name_is_refused() {
    match destination_for(r"C:\out", r"C:\") {
        Err(LinkError::MissingFileName(p)) => assert_eq!(p, r"C:\"),
        other => panic!("unexpected {:?}", other),
    }
    assert!(matches!(destination_for(r"C:\out", r"C:\in\.."), Err(LinkError::MissingFileName(_))));
    assert!(matches!(destination_for(r"C:\out", "C:"), Err(LinkError::MissingFileName(_))));
}

#[test]
fn destination_ignores_trailing_separators_and_dots() {
    assert_eq!(destination_for(r"D:\links", r"C:\data\folder\").unwrap(), r"D:\links\folder");
    assert_eq!(destination_for(r"D:\links\", "C:/data/folder/.").unwrap(), r"D:\links\folder");
    assert_eq!(destination_for("D:", r"C:\a\b.txt").unwrap(), "D:b.txt");
    assert_eq!(destination_for("", r"C:\a\b.txt").unwrap(), "b.txt");
}

#[test]
fn plan_link_checks_in_order() {
    let dir = PickedSource { path: r"C:\src\folder".to_string(), is_dir: true };
    let file = PickedSource { path: r"C:\src\file.txt".to_string(), is_dir: false };
    match plan_link(LinkKind::Symbolic, &file, r"C:\out", false, true) {
        Err(LinkError::MissingTargetDirectory(p)) => assert_eq!(p, r"C:\out"),
        other => panic!("unexpected {:?}", other),
    }
    match plan_link(LinkKind::Junction, &dir, r"C:\out", true, true) {
        Err(LinkError::DestinationExists(p)) => assert_eq!(p, r"C:\out\folder"),
        other => panic!("unexpected {:?}", other),
    }
    assert_eq!(plan_link(LinkKind::Junction, &dir, r"C:\out", true, false).unwrap(), r"C:\out\folder");
    assert_eq!(plan_link(LinkKind::HardLink, &file, r"C:\out", true, false).unwrap(), r"C:\out\file.txt");
    let nameless = PickedSource { path: r"C:\".to_string(), is_dir: true };
    assert!(matches!(
        plan_link(LinkKind::Symbolic, &nameless, r"C:\out", true, false),
        Err(LinkError::MissingFileName(_))
    ));
}

#[test]
fn retry_elevated_only_for_access_errors() {
    let failed = |code: Option<i32>| LinkError::CreateFailed {
        source: "a".to_string(),
        destination: "b".to_string(),
        os_error: code,
        detail: "denied".to_string(),
    };
    assert!(should_retry_elevated(&failed(Some(5))));
    assert!(should_retry_elevated(&failed(Some(1314))));
    assert!(!should_retry_elevated(&failed(Some(2))));
    assert!(!should_retry_elevated(&failed(None)));
    assert!(!should_retry_elevated(&LinkError::DestinationExists("x".to_string())));
}

#[test]
fn link_error_messages() {
    assert_eq!(
        LinkError::JunctionNeedsDirectory(r"C:\f".to_string()).message(),
        r"junctions can only target directories: C:\f"
    );
    assert_eq!(
        LinkError::MissingTargetDirectory(r"C:\t".to_string()).message(),
        r"target directory does not exist: C:\t"
    );
    assert_eq!(LinkError::DestinationExists("d".to_string()).message(), "destination already exists: d");
    assert_eq!(LinkError::MissingFileName("s".to_string()).message(), "source path has no file name: s");
    let failed = LinkError::CreateFailed {
        source: "a".to_string(),
        destination: "b".to_string(),
        os_error: Some(5),
        detail: "Access is denied.".to_string(),
    };
    assert_eq!(failed.message(), "failed to create link from a to b: Access is denied.");
}

#[test]
fn native_target_forms() {
    assert_eq!(native_target_text(r"\\?\C:\x"), r"\??\C:\x");
    assert_eq!(native_target_text(r"\\?\UNC\srv\share\x"), r"\??\UNC\srv\share\x");
    assert_eq!(native_target_text(r"\\?\"), r"\??\");
    assert_eq!(native_target_text(r"\\server\share\x"), r"\??\UNC\server\share\x");
    assert_eq!(native_target_text(r"\\\\server\share"), r"\??\UNC\server\share");
    assert_eq!(native_target_text(r"C:\x"), r"\??\C:\x");
}

#[test]
fn mount_point_layout_fields() {
    let substitute = wide(r"\??\C:\Target");
    let print = wide(r"C:\Target");
    let layout = mount_point_layout(&substitute, &print).unwrap();
    assert_eq!(layout.reparse_tag, 0xA0000003);
    assert_eq!(layout.substitute_name_offset, 0);
    assert_eq!(layout.substitute_name_length, 26);
    assert_eq!(layout.print_name_offset, 28);
    assert_eq!(layout.print_name_length, 18);
    assert_eq!(layout.reparse_data_length, 8 + 26 + 2 + 18 + 2);
    assert_eq!(layout.total_size, 8 + 56);
    let mut both = substitute.clone();
    both.extend_from_slice(&print);
    assert_eq!(layout.path_buffer, both);
}

#[test]
fn mount_point_layout_refuses_oversized_targets() {
    // 8 + 8 + 2*(s-1) + 2 + 2*(p-1) + 2 <= 16384  <=>  s + p <= 8184
    let fits = mount_point_layout(&vec![65u16; 4092], &vec![65u16; 4092]);
    assert_eq!(fits.unwrap().total_size, 16384);
    let too_long = mount_point_layout(&vec![65u16; 4093], &vec![65u16; 4092]);
    assert_eq!(too_long.err(), Some(JunctionTargetTooLong));
}

#[test]
fn share_and_verbatim_roots_have_no_file_name() {
    for root in [r"\\server\share", r"\\?\C:\", r"\\.\COM1", r"\\?\UNC\srv\share\"] {
        match destination_for(r"C:\out", root) {
            Err(LinkError::MissingFileName(p)) => assert_eq!(p, root),
            other => panic!("unexpected {:?} for {}", other, root),
        }
    }
    assert_eq!(
        destination_for(r"\\server\share\links", r"\\?\UNC\srv\data\file.txt").unwrap(),
        r"\\server\share\links\file.txt"
    );
}

fn create_failed(code: Option<i32>) -> LinkError {
    LinkError::CreateFailed {
        source: r"C:\a".to_string(),
        destination: r"C:\b\a".to_string(),
        os_error: code,
        detail: "refused".to_string(),
    }
}

#[test]
fn link_batch_creates_each_source_in_turn() {
    assert_eq!(link_batch_step(3, &vec![]), LinkBatchStep::Create(0));
    assert_eq!(link_batch_step(3, &vec![Ok(()), Ok(())]), LinkBatchStep::Create(2));
    assert_eq!(link_batch_step(3, &vec![Ok(()), Ok(()), Ok(())]), LinkBatchStep::Finished);
    assert_eq!(link_batch_step(0, &vec![]), LinkBatchStep::Finished);
}

#[test]
fn link_batch_stops_at_the_first_failure() {
    let attempts = vec![Ok(()), Err(create_failed(Some(5))), Err(create_failed(None))];
    assert_eq!(link_batch_step(4, &attempts), LinkBatchStep::RetryElevated(1));
    let attempts = vec![Ok(()), Err(create_failed(Some(1314)))];
    assert_eq!(link_batch_step(2, &attempts), LinkBatchStep::RetryElevated(1));
    let attempts = vec![Err(create_failed(Some(2))), Err(create_failed(Some(5)))];
    assert_eq!(link_batch_step(2, &attempts), LinkBatchStep::GiveUp(0));
    let attempts = vec![Ok(()), Err(LinkError::DestinationExists(r"C:\b\a".to_string()))];
    assert_eq!(link_batch_step(5, &attempts), LinkBatchStep::GiveUp(1));
}

#[test]
fn elevated_retry_failure_keeps_both_errors() {
    assert_eq!(
        elevated_retry_failure("destination already exists: C:\\x", "ShellExecuteW failed with code 5"),
        "destination already exists: C:\\x\n\nElevated retry failed: ShellExecuteW failed with code 5"
    );
}
