use lsenext::helper::{
    about_text, add_package_script, alias_action, certificate_file, check_drop_sources,
    elevated_create_params, elevated_drop_params, machine_certificate_trust_script, package_file,
    parse_command, parse_debug_command, user_certificate_trust_script, AliasAction, DebugCommand,
    HelperCommand,
};
use lsenext::links::LinkKind;
use lsenext::state::{PickedSource, SelectionState};

fn args(items: &[&str]) -> Vec<String> {
    items.iter().map(|s| s.to_string()).collect()
}

#[test]
fn parses_known_commands() {
    match parse_command(&args(&["pick-source", r"C:\a", r"C:\b"]), None) {
        Ok(HelperCommand::PickSource(paths)) => assert_eq!(paths, args(&[r"C:\a", r"C:\b"])),
        other => panic!("unexpected {:?}", other),
    }
    match parse_command(&args(&["drop-junction", r"C:\t"]), None) {
        Ok(HelperCommand::Drop { kind, target }) => {
            assert_eq!(kind, LinkKind::Junction);
            assert_eq!(target, Some(r"C:\t".to_string()));
        }
        other => panic!("unexpected {:?}", other),
    }
    match parse_command(&args(&["drop-symlink"]), None) {
        Ok(HelperCommand::Drop { kind, target }) => {
            assert_eq!(kind, LinkKind::Symbolic);
            assert_eq!(target, None);
        }
        other => panic!("unexpected {:?}", other),
    }
    assert!(matches!(parse_command(&args(&["clear"]), None), Ok(HelperCommand::Clear)));
    assert!(matches!(parse_command(&args(&["about"]), None), Ok(HelperCommand::About)));
    assert!(matches!(
        parse_command(&args(&["trust-package-certificate-machine"]), None),
        Ok(HelperCommand::TrustPackageCertificateMachine)
    ));
}

#[test]
fn refuses_bad_command_lines() {
    assert_eq!(
        parse_command(&args(&["pick-source"]), None).unwrap_err(),
        "at least one source path is required"
    );
    assert!(parse_command(&args(&["bogus"]), None).unwrap_err().starts_with("usage: lsenext-helper"));
    assert!(parse_command(&args(&[]), None).unwrap_err().starts_with("usage: lsenext-helper"));
    assert_eq!(
        parse_command(&args(&["diagnostics"]), None).unwrap_err(),
        "LSENext diagnostics are only available in debug builds"
    );
    assert_eq!(
        parse_command(&args(&["repair-native-menu-run"]), None).unwrap_err(),
        "LSENext repair is only available in debug builds"
    );
}

#[test]
fn alias_decides_without_command_word() {
    assert!(matches!(
        parse_command(&args(&[]), Some(AliasAction::Register)),
        Ok(HelperCommand::RegisterPackage)
    ));
    assert!(matches!(
        parse_command(&args(&[]), Some(AliasAction::Unregister)),
        Ok(HelperCommand::UnregisterPackage)
    ));
    assert!(matches!(
        parse_command(&args(&["clear"]), Some(AliasAction::Register)),
        Ok(HelperCommand::Clear)
    ));
    assert_eq!(alias_action(Some(r"C:\x\LSENext-Register.exe")), Some(AliasAction::Register));
    assert_eq!(alias_action(Some(r"C:\x\lsenext-unregister.exe")), Some(AliasAction::Unregister));
    assert_eq!(alias_action(Some(r"C:\x\lsenext-helper.exe")), None);
    assert_eq!(alias_action(None), None);
}

#[test]
fn drops_need_matching_sources() {
    let state = SelectionState {
        picked_at_unix: 42,
        sources: vec![
            PickedSource { path: "f".to_string(), is_dir: false },
            PickedSource { path: "d".to_string(), is_dir: true },
        ],
    };
    assert_eq!(
        check_drop_sources(LinkKind::Junction, Some(&state)).unwrap_err(),
        "Directory junctions can only be created from picked directory sources."
    );
    assert_eq!(
        check_drop_sources(LinkKind::HardLink, Some(&state)).unwrap_err(),
        "Hard links can only be created from picked file sources."
    );
    assert!(check_drop_sources(LinkKind::Symbolic, Some(&state)).is_ok());
    assert_eq!(
        check_drop_sources(LinkKind::Symbolic, None).unwrap_err(),
        "no picked LSENext source is stored"
    );
}

#[test]
fn elevated_parameters() {
    assert_eq!(elevated_drop_params(LinkKind::Junction, r"C:\t"), r#"drop-junction "C:\t""#);
    assert_eq!(
        elevated_drop_params(LinkKind::RelativeSymbolic, "x"),
        r#"drop-relative-symlink "x""#
    );
    assert_eq!(
        elevated_create_params(LinkKind::HardLink, r"C:\t", &args(&[r"C:\a", r"C:\b c"])),
        r#"create-links hardlink "C:\t" "C:\a" "C:\b c""#
    );
}

#[test]
fn registration_scripts_quote_paths() {
    assert_eq!(package_file(r"C:\root"), r"C:\root\LSENext.identity.msix");
    assert_eq!(certificate_file(r"C:\root"), r"C:\root\LSENext.cer");
    assert_eq!(
        add_package_script(r"C:\r\p.msix", r"C:\it's"),
        r"Add-AppxPackage -Path 'C:\r\p.msix' -ExternalLocation 'C:\it''s' -ForceApplicationShutdown -ForceUpdateFromAnyVersion"
    );
    assert_eq!(
        user_certificate_trust_script(r"C:\c.cer"),
        r"Import-Certificate -FilePath 'C:\c.cer' -CertStoreLocation Cert:\CurrentUser\Root | Out-Null; Import-Certificate -FilePath 'C:\c.cer' -CertStoreLocation Cert:\CurrentUser\TrustedPeople | Out-Null"
    );
    assert_eq!(
        machine_certificate_trust_script(r"C:\c.cer"),
        r"Import-Certificate -FilePath 'C:\c.cer' -CertStoreLocation Cert:\LocalMachine\Root | Out-Null; Import-Certificate -FilePath 'C:\c.cer' -CertStoreLocation Cert:\LocalMachine\TrustedPeople | Out-Null"
    );
    assert!(about_text().starts_with("LSENext 0.1.0\n"));
}

#[test]
fn debug_commands_are_read_apart() {
    assert_eq!(parse_debug_command(&args(&["diagnostics"])), Some(DebugCommand::Diagnostics));
    assert_eq!(parse_debug_command(&args(&["repair-native-menu"])), Some(DebugCommand::RepairNativeMenu));
    assert_eq!(
        parse_debug_command(&args(&["repair-native-menu-run", "x"])),
        Some(DebugCommand::RepairNativeMenuRun)
    );
    assert_eq!(parse_debug_command(&args(&["clear"])), None);
    assert_eq!(parse_debug_command(&args(&[])), None);
    assert_eq!(parse_debug_command(&args(&["Diagnostics"])), None);
}
