use lsenext::setup::{
    bootstrapper_diagnostics_text, default_install_root, diagnostics_file, error_box_script,
    expand_archive_command,
    locate_payload, parse_architecture_from_filename, setup_temp_root, PayloadError,
    PayloadLocation,
};

fn footer(len: u64) -> Vec<u8> {
    let mut f = b"LSENEXTPAYLOAD1!".to_vec();
    f.extend_from_slice(&len.to_le_bytes());
    f
}

#[test]
fn architecture_comes_from_the_file_name() {
    assert_eq!(parse_architecture_from_filename(r"C:\dl\LSENext-Setup-ARM64.exe"), Ok("arm64"));
    assert_eq!(parse_architecture_from_filename(r"C:\dl\lsenext-setup-x64.exe"), Ok("x64"));
    assert_eq!(
        parse_architecture_from_filename(r"C:\dl\Setup.EXE"),
        Err("cannot infer target architecture from setup executable name: setup.exe".to_string())
    );
    assert_eq!(
        parse_architecture_from_filename(r"C:\"),
        Err("failed to read setup executable file name".to_string())
    );
}

#[test]
fn payload_is_found_before_the_footer() {
    assert_eq!(
        locate_payload(1000, &footer(100)),
        Ok(PayloadLocation { start: 876, len: 100 })
    );
    assert_eq!(locate_payload(124, &footer(100)), Ok(PayloadLocation { start: 0, len: 100 }));
    assert_eq!(locate_payload(123, &footer(100)), Err(PayloadError::InvalidLength));
    assert_eq!(locate_payload(1000, &footer(0)), Err(PayloadError::InvalidLength));
    assert_eq!(locate_payload(10, &[]), Err(PayloadError::MissingFooter));
    let mut bad = footer(100);
    bad[3] = b'X';
    assert_eq!(locate_payload(1000, &bad), Err(PayloadError::MissingMarker));
    let big = 0x0102_0304_0506_0708u64;
    assert_eq!(locate_payload(u64::MAX, &footer(big)), Ok(PayloadLocation { start: u64::MAX - 24 - big, len: big }));
    assert_eq!(PayloadError::InvalidLength.message(), "setup executable payload length is invalid");
}

#[test]
fn install_locations() {
    assert_eq!(
        default_install_root(Some(r"C:\Users\me\AppData\Local"), "x64"),
        Ok(r"C:\Users\me\AppData\Local\LSENext\x64".to_string())
    );
    assert_eq!(default_install_root(None, "x64"), Err("LOCALAPPDATA is not set"));
    assert_eq!(
        diagnostics_file(Some(r"C:\L")),
        Ok(r"C:\L\LSENext\diagnostics.txt".to_string())
    );
    assert_eq!(setup_temp_root(r"C:\Temp", 4711), r"C:\Temp\LSENextSetup-4711");
}

#[test]
fn expand_archive_command_quotes_paths() {
    assert_eq!(
        expand_archive_command(r"C:\T\payload.zip", r"C:\T\o'k"),
        r"Expand-Archive -LiteralPath 'C:\T\payload.zip' -DestinationPath 'C:\T\o''k' -Force"
    );
}

#[test]
fn diagnostics_text_layout() {
    assert_eq!(
        bootstrapper_diagnostics_text("0.1.0", "x86_64", "Ok(\"C:\\\\s.exe\")", "boom"),
        "LSENext bootstrapper diagnostics\r\n================================\r\nversion: 0.1.0\r\nprocess_arch: x86_64\r\ncurrent_exe: Ok(\"C:\\\\s.exe\")\r\n\r\n[last_error]\r\nboom\r\n"
    );
}

#[test]
fn error_box_script_splices_the_message() {
    assert_eq!(
        error_box_script("it failed"),
        "[System.Reflection.Assembly]::LoadWithPartialName('System.Windows.Forms') | Out-Null; [System.Windows.Forms.MessageBox]::Show(it failed, 'LSENext Setup', 'OK', 'Error') | Out-Null"
    );
    assert_eq!(
        error_box_script("a {message} b"),
        "[System.Reflection.Assembly]::LoadWithPartialName('System.Windows.Forms') | Out-Null; [System.Windows.Forms.MessageBox]::Show(a 'a {message} b' b, 'LSENext Setup', 'OK', 'Error') | Out-Null"
    );
}
