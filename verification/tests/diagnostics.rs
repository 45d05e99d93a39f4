use lsenext::diagnostics::{
    diagnostics_document, diagnostics_report, installed_file_names, progress_line, repair_step,
    repair_step_log, repair_window_script, report_scripts, trim, InstalledFile, RepairAction,
    ScriptSection, APPX_PACKAGE_SCRIPT, REPAIR_WINDOW_SCRIPT_HEAD, REPAIR_WINDOW_SCRIPT_TAIL,
};
use lsenext::helper::{CLEANUP_CLASSIC_CONTEXT_MENU_SCRIPT, UNREGISTER_PACKAGE_IDENTITY_SCRIPT};

fn describe(action: RepairAction) -> String {
    match action {
        RepairAction::Line(line) => format!("line {}", line),
        RepairAction::WriteProgress => "write".to_string(),
        RepairAction::RunStep { percent, name, script } => format!("run {} {} {}", percent, name, script),
        RepairAction::OpenDiagnostics => "open".to_string(),
        RepairAction::Done => "done".to_string(),
    }
}

#[test]
fn report_without_installation() {
    let report = diagnostics_report(
        "0.1.0",
        "x86_64",
        "Ok(\"C:\\\\x\\\\h.exe\")",
        "None",
        "None",
        None,
        None,
        None,
        &vec![],
    );
    assert_eq!(
        report,
        "LSENext diagnostics\r\n===================\r\nversion: 0.1.0\r\nprocess_arch: x86_64\r\ncurrent_exe: Ok(\"C:\\\\x\\\\h.exe\")\r\ninstall_root: None\r\nstate_path: None\r\n"
    );
}

#[test]
fn report_with_files_manifest_and_sections() {
    let files = vec![
        InstalledFile { name: "lsenext-helper.exe".to_string(), exists: true, size: Some(1024) },
        InstalledFile { name: "LSENext.cer".to_string(), exists: false, size: None },
    ];
    let sections = vec![
        ScriptSection { title: "appx-package".to_string(), output: Ok("found".to_string()) },
        ScriptSection { title: "packaged-com-registry".to_string(), output: Err("boom".to_string()) },
    ];
    let report = diagnostics_report(
        "0.1.0",
        "aarch64",
        "exe",
        "Some(\"C:\\\\L\")",
        "Some(\"C:\\\\s.json\")",
        Some(false),
        Some(&files),
        Some("<Package/>"),
        &sections,
    );
    let expected = [
        "LSENext diagnostics",
        "===================",
        "version: 0.1.0",
        "process_arch: aarch64",
        "current_exe: exe",
        "install_root: Some(\"C:\\\\L\")",
        "state_path: Some(\"C:\\\\s.json\")",
        "state_exists: false",
        "",
        "[files]",
        "lsenext-helper.exe exists=true size=Some(1024)",
        "LSENext.cer exists=false size=None",
        "",
        "[installed AppxManifest.xml]",
        "<Package/>",
        "",
        "[powershell:appx-package]",
        "found",
        "",
        "[powershell:packaged-com-registry]",
        "ERROR: boom",
    ];
    let mut text = String::new();
    for line in expected {
        text.push_str(line);
        text.push_str("\r\n");
    }
    assert_eq!(report, text);
}

#[test]
fn report_lists_files_without_manifest() {
    let files = vec![InstalledFile { name: "a".to_string(), exists: true, size: Some(0) }];
    let report = diagnostics_report("v", "x86", "e", "r", "s", Some(true), Some(&files), None, &vec![]);
    assert!(report.ends_with("state_exists: true\r\n\r\n[files]\r\na exists=true size=Some(0)\r\n"));
}

#[test]
fn document_puts_the_log_before_the_report() {
    assert_eq!(diagnostics_document(Some("log"), "report"), "log\r\n\r\nreport");
    assert_eq!(diagnostics_document(None, "report"), "report");
}

#[test]
fn installed_files_and_scripts_are_listed_in_order() {
    let names = installed_file_names();
    assert_eq!(names.len(), 9);
    assert_eq!(names[0], "lsenext-helper.exe");
    assert_eq!(names[8], "Assets\\LSENext.ico");
    let scripts = report_scripts();
    assert_eq!(scripts[0], ("appx-package", APPX_PACKAGE_SCRIPT));
    assert_eq!(scripts[1].0, "classic-context-menu-registry");
    assert_eq!(scripts[2].0, "packaged-com-registry");
}

#[test]
fn trim_removes_unicode_white_space() {
    assert_eq!(trim("  \t ok \r\n"), "ok");
    assert_eq!(trim("\u{3000}a b\u{a0}"), "a b");
    assert_eq!(trim(" \r\n "), "");
    assert_eq!(trim("x"), "x");
}

#[test]
fn step_log_records_output_and_errors() {
    assert_eq!(
        repair_step_log("cleanup", Ok("  done \r\n")),
        "\r\nSTEP cleanup: started\r\nSTEP cleanup: ok\r\ndone\r\n"
    );
    assert_eq!(repair_step_log("cleanup", Ok(" \r\n")), "\r\nSTEP cleanup: started\r\nSTEP cleanup: ok\r\n");
    assert_eq!(
        repair_step_log("register", Err("PowerShell exited with 1")),
        "\r\nSTEP register: started\r\nSTEP register: ERROR: PowerShell exited with 1\r\n"
    );
}

#[test]
fn progress_lines_right_align_the_percentage() {
    assert_eq!(progress_line(10, "cleanup", None), "[ 10%] cleanup");
    assert_eq!(progress_line(5, "x", Some(true)), "[  5%] x: ok");
    assert_eq!(progress_line(100, "y", Some(false)), "[100%] y: ERROR");
    assert_eq!(progress_line(1000, "z", None), "[1000%] z");
}

#[test]
fn repair_without_installation() {
    let steps: Vec<String> = (0..11).map(|done| describe(repair_step(None, false, done))).collect();
    assert_eq!(steps[0], "line LSENext repair log");
    assert_eq!(steps[1], "line ==================");
    assert_eq!(steps[2], "write");
    assert_eq!(steps[3], format!("run 10 cleanup classic context menu {}", CLEANUP_CLASSIC_CONTEXT_MENU_SCRIPT));
    assert_eq!(steps[4], "write");
    assert_eq!(
        steps[5],
        format!("run 35 unregister existing package identity {}", UNREGISTER_PACKAGE_IDENTITY_SCRIPT)
    );
    assert_eq!(steps[6], "write");
    assert_eq!(steps[7], "line STEP locate install root: failed");
    assert_eq!(steps[8], "write");
    assert_eq!(steps[9], "open");
    assert_eq!(steps[10], "done");
}

#[test]
fn repair_with_installation() {
    let root = Some(r"C:\L");
    assert_eq!(
        describe(repair_step(root, true, 7)),
        "run 60 trust package certificate Import-Certificate -FilePath 'C:\\L\\LSENext.cer' -CertStoreLocation Cert:\\CurrentUser\\Root | Out-Null; Import-Certificate -FilePath 'C:\\L\\LSENext.cer' -CertStoreLocation Cert:\\CurrentUser\\TrustedPeople | Out-Null; Import-Certificate -FilePath 'C:\\L\\LSENext.cer' -CertStoreLocation Cert:\\LocalMachine\\Root | Out-Null; Import-Certificate -FilePath 'C:\\L\\LSENext.cer' -CertStoreLocation Cert:\\LocalMachine\\TrustedPeople | Out-Null"
    );
    assert_eq!(
        describe(repair_step(root, false, 7)),
        "line STEP trust package certificate: skipped, certificate missing"
    );
    assert_eq!(describe(repair_step(root, false, 8)), "write");
    assert_eq!(
        describe(repair_step(root, false, 9)),
        "run 85 register package identity Add-AppxPackage -Path 'C:\\L\\LSENext.identity.msix' -ExternalLocation 'C:\\L' -ForceApplicationShutdown -ForceUpdateFromAnyVersion"
    );
    assert_eq!(describe(repair_step(root, false, 10)), "write");
    assert_eq!(describe(repair_step(root, false, 11)), "open");
    assert_eq!(describe(repair_step(root, false, 12)), "done");
}

#[test]
fn repair_window_script_quotes_the_installation() {
    let script = repair_window_script(r"C:\it's");
    assert_eq!(script, format!("{}'C:\\it''s'{}", REPAIR_WINDOW_SCRIPT_HEAD, REPAIR_WINDOW_SCRIPT_TAIL));
    assert!(REPAIR_WINDOW_SCRIPT_HEAD.ends_with("$installRoot = "));
    assert!(script.contains("$installRoot = 'C:\\it''s'\n$diag = Join-Path"));
}

#[test]
fn repair_writes_after_each_step() {
    for (root, certificate) in [(None, false), (Some(r"C:\L"), true), (Some(r"C:\L"), false)] {
        let mut steps = Vec::new();
        let mut done = 0;
        loop {
            let step = describe(repair_step(root, certificate, done));
            if step == "done" {
                break;
            }
            steps.push(step);
            done += 1;
        }
        assert_eq!(steps.last().map(String::as_str), Some("open"));
        for (i, step) in steps.iter().enumerate() {
            if step.starts_with("run ") {
                assert_eq!(steps[i + 1], "write");
            }
        }
    }
}
