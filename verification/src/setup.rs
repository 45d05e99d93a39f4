//! The self-extracting setup program: which architecture it installs,
//! where, and how the payload archive is found at the end of its own
//! executable.
//!
//! The executable ends in a footer of 24 bytes: the 16-byte marker
//! `LSENEXTPAYLOAD1!` followed by the payload length as a little-endian
//! 64-bit number. The payload archive sits right before the footer.

use vstd::prelude::*;
use crate::path::{file_name, join, spec_file_name, spec_join};
use crate::text::{
    ascii_lowercase, contains, contains_text, decimal, ps_quote, push_str, replace, replace_all,
    spec_ascii_lowercase, spec_decimal, spec_ps_quote,
};

verus! {

/// Length of the footer that ends the setup executable.
pub const FOOTER_LEN: usize = 24usize;

/// The marker that opens the footer: `LSENEXTPAYLOAD1!`.
pub open spec fn payload_magic() -> Seq<u8> {
    seq![
        0x4cu8, 0x53u8, 0x45u8, 0x4eu8, 0x45u8, 0x58u8, 0x54u8, 0x50u8,
        0x41u8, 0x59u8, 0x4cu8, 0x4fu8, 0x41u8, 0x44u8, 0x31u8, 0x21u8,
    ]
}

/// The number that eight bytes stand for, least significant byte first
/// (`u64::from_le_bytes`).
pub open spec fn le_u64(b: Seq<u8>) -> u64 {
    (b[0] as u64) | ((b[1] as u64) << 8u64) | ((b[2] as u64) << 16u64) | ((b[3] as u64) << 24u64)
        | ((b[4] as u64) << 32u64) | ((b[5] as u64) << 40u64) | ((b[6] as u64) << 48u64) | ((
    b[7] as u64) << 56u64)
}

/// The eight bytes of `n`, least significant first (`u64::to_le_bytes`).
pub open spec fn le_bytes(n: u64) -> Seq<u8> {
    seq![
        (n & 0xff) as u8,
        ((n >> 8u64) & 0xff) as u8,
        ((n >> 16u64) & 0xff) as u8,
        ((n >> 24u64) & 0xff) as u8,
        ((n >> 32u64) & 0xff) as u8,
        ((n >> 40u64) & 0xff) as u8,
        ((n >> 48u64) & 0xff) as u8,
        ((n >> 56u64) & 0xff) as u8,
    ]
}

/// The footer a setup executable carrying a payload of `len` bytes ends in.
pub open spec fn footer_for(len: u64) -> Seq<u8> {
    payload_magic() + le_bytes(len)
}

/// Where the payload archive lies in the setup executable.
#[derive(Debug, Clone, Copy, PartialEq, Eq, Structural)]
pub struct PayloadLocation {
    /// Offset of its first byte from the start of the file.
    pub start: u64,
    /// Its length in bytes.
    pub len: u64,
}

/// Why the payload could not be located.
#[derive(Debug, Clone, Copy, PartialEq, Eq, Structural)]
pub enum PayloadError {
    MissingFooter,
    MissingMarker,
    InvalidLength,
}

/// The payload location a file of `file_len` bytes ending in `footer` declares.
pub open spec fn spec_locate_payload(file_len: u64, footer: Seq<u8>) -> Result<
    PayloadLocation,
    PayloadError,
> {
    if file_len < 24 {
        Err(PayloadError::MissingFooter)
    } else if footer.take(16) != payload_magic() {
        Err(PayloadError::MissingMarker)
    } else {
        let n = le_u64(footer.subrange(16, 24));
        if n == 0 || n > file_len - 24 {
            Err(PayloadError::InvalidLength)
        } else {
            Ok(PayloadLocation { start: (file_len - 24 - n) as u64, len: n })
        }
    }
}

/// Locates the payload of a setup executable of `file_len` bytes from its
/// last 24 bytes `footer` (not read, and not looked at, when the file is
/// shorter than a footer). The footer must open with the marker, and the
/// declared length must be positive and fit before the footer.
pub fn locate_payload(file_len: u64, footer: &[u8]) -> (r: Result<PayloadLocation, PayloadError>)
    requires
        file_len < 24 || footer@.len() == 24,
    ensures
        r == spec_locate_payload(file_len, footer@),
{
    if file_len < 24 {
        return Err(PayloadError::MissingFooter);
    }
    let magic: [u8; 16] = [
        0x4c, 0x53, 0x45, 0x4e, 0x45, 0x58, 0x54, 0x50, 0x41, 0x59, 0x4c, 0x4f, 0x41, 0x44, 0x31,
        0x21,
    ];
    assert(magic@ =~= payload_magic());
    let mut i: usize = 0;
    while i < 16
        invariant
            i <= 16,
            file_len >= 24,
            footer@.len() == 24,
            magic@ == payload_magic(),
            forall|k: int| 0 <= k < i ==> footer@[k] == magic@[k],
        decreases 16 - i,
    {
        if footer[i] != magic[i] {
            assert(footer@[i as int] != magic@[i as int]);
            assert(footer@.take(16) != payload_magic()) by {
                if footer@.take(16) == payload_magic() {
                    assert(footer@.take(16)[i as int] == payload_magic()[i as int]);
                }
            }
            return Err(PayloadError::MissingMarker);
        }
        i = i + 1;
    }
    assert(footer@.take(16) =~= payload_magic());
    let n: u64 = (footer[16] as u64) | ((footer[17] as u64) << 8u64) | ((footer[18] as u64)
        << 16u64) | ((footer[19] as u64) << 24u64) | ((footer[20] as u64) << 32u64) | ((
    footer[21] as u64) << 40u64) | ((footer[22] as u64) << 48u64) | ((footer[23] as u64)
        << 56u64);
    assert(n == le_u64(footer@.subrange(16, 24)));
    if n == 0 || n > file_len - 24 {
        return Err(PayloadError::InvalidLength);
    }
    Ok(PayloadLocation { start: file_len - 24 - n, len: n })
}

/// A payload packed as the footer says is found again: an executable of
/// `file_len` bytes ending in the footer for a payload of `len` bytes,
/// with `0 < len <= file_len - 24`, has its payload right before the footer.
pub proof fn lemma_footer_round_trip(file_len: u64, len: u64)
    requires
        file_len >= 24,
        0 < len <= file_len - 24,
    ensures
        spec_locate_payload(file_len, footer_for(len)) == Ok::<PayloadLocation, PayloadError>(
            PayloadLocation { start: (file_len - 24 - len) as u64, len },
        ),
{
    let f = footer_for(len);
    assert(f.take(16) =~= payload_magic());
    let b = f.subrange(16, 24);
    assert(b =~= le_bytes(len));
    let b0 = (len & 0xff) as u8;
    let b1 = ((len >> 8u64) & 0xff) as u8;
    let b2 = ((len >> 16u64) & 0xff) as u8;
    let b3 = ((len >> 24u64) & 0xff) as u8;
    let b4 = ((len >> 32u64) & 0xff) as u8;
    let b5 = ((len >> 40u64) & 0xff) as u8;
    let b6 = ((len >> 48u64) & 0xff) as u8;
    let b7 = ((len >> 56u64) & 0xff) as u8;
    assert((b0 as u64) | ((b1 as u64) << 8u64) | ((b2 as u64) << 16u64) | ((b3 as u64) << 24u64)
        | ((b4 as u64) << 32u64) | ((b5 as u64) << 40u64) | ((b6 as u64) << 48u64) | ((b7 as u64)
        << 56u64) == len) by (bit_vector)
        requires
            b0 == (len & 0xff) as u8,
            b1 == ((len >> 8u64) & 0xff) as u8,
            b2 == ((len >> 16u64) & 0xff) as u8,
            b3 == ((len >> 24u64) & 0xff) as u8,
            b4 == ((len >> 32u64) & 0xff) as u8,
            b5 == ((len >> 40u64) & 0xff) as u8,
            b6 == ((len >> 48u64) & 0xff) as u8,
            b7 == ((len >> 56u64) & 0xff) as u8,
    ;
    assert(le_u64(b) == len);
}

/// The architecture a setup executable installs, read from its file name:
/// `arm64` when the lower-cased name mentions it, else `x64` when it
/// mentions that.
pub fn parse_architecture_from_filename(path: &str) -> (r: Result<&'static str, String>)
    ensures
        match spec_file_name(path@) {
            None => r matches Err(m) && m@ == "failed to read setup executable file name"@,
            Some(name) => {
                let lower = spec_ascii_lowercase(name);
                if contains_text(lower, "arm64"@) {
                    r matches Ok(a) && a@ == "arm64"@
                } else if contains_text(lower, "x64"@) {
                    r matches Ok(a) && a@ == "x64"@
                } else {
                    r matches Err(m) && m@
                        == "cannot infer target architecture from setup executable name: "@ + lower
                }
            },
        },
{
    let name = match file_name(path) {
        Some(n) => n,
        None => {
            return Err("failed to read setup executable file name".to_string());
        },
    };
    let lower = ascii_lowercase(name.as_str());
    if contains(lower.as_str(), "arm64") {
        Ok("arm64")
    } else if contains(lower.as_str(), "x64") {
        Ok("x64")
    } else {
        let mut m = String::new();
        push_str(&mut m, "cannot infer target architecture from setup executable name: ");
        push_str(&mut m, lower.as_str());
        Err(m)
    }
}

/// Where an architecture is installed, given the `LOCALAPPDATA` variable:
/// `LSENext\<architecture>` below it.
pub fn default_install_root(local_app_data: Option<&str>, architecture: &str) -> (r: Result<
    String,
    &'static str,
>)
    ensures
        match local_app_data {
            None => r matches Err(m) && m@ == "LOCALAPPDATA is not set"@,
            Some(base) => r matches Ok(p) && p@ == spec_join(
                spec_join(base@, "LSENext"@),
                architecture@,
            ),
        },
{
    match local_app_data {
        None => Err("LOCALAPPDATA is not set"),
        Some(base) => {
            let dir = join(base, "LSENext");
            Ok(join(dir.as_str(), architecture))
        },
    }
}

/// Where the setup program writes its diagnostics, given the `LOCALAPPDATA` variable.
pub fn diagnostics_file(local_app_data: Option<&str>) -> (r: Result<String, &'static str>)
    ensures
        match local_app_data {
            None => r matches Err(m) && m@ == "LOCALAPPDATA is not set"@,
            Some(base) => r matches Ok(p) && p@ == spec_join(
                spec_join(base@, "LSENext"@),
                "diagnostics.txt"@,
            ),
        },
{
    match local_app_data {
        None => Err("LOCALAPPDATA is not set"),
        Some(base) => {
            let dir = join(base, "LSENext");
            Ok(join(dir.as_str(), "diagnostics.txt"))
        },
    }
}

/// The scratch directory of a setup run, below the temporary directory:
/// `LSENextSetup-<process id>`.
pub fn setup_temp_root(temp_dir: &str, process_id: u32) -> (r: String)
    ensures
        r@ == spec_join(temp_dir@, "LSENextSetup-"@ + spec_decimal(process_id as nat)),
{
    let mut name = String::new();
    push_str(&mut name, "LSENextSetup-");
    let digits = decimal(process_id as u64);
    push_str(&mut name, digits.as_str());
    join(temp_dir, name.as_str())
}

/// The PowerShell command that expands the payload archive `zip` into `destination`.
pub fn expand_archive_command(zip: &str, destination: &str) -> (r: String)
    ensures
        r@ == "Expand-Archive -LiteralPath "@ + spec_ps_quote(zip@) + " -DestinationPath "@
            + spec_ps_quote(destination@) + " -Force"@,
{
    let mut out = String::new();
    push_str(&mut out, "Expand-Archive -LiteralPath ");
    let z = ps_quote(zip);
    push_str(&mut out, z.as_str());
    push_str(&mut out, " -DestinationPath ");
    let d = ps_quote(destination);
    push_str(&mut out, d.as_str());
    push_str(&mut out, " -Force");
    out
}

/// The diagnostics the setup program leaves behind when it fails: a
/// heading, the version, the process architecture, the executable path
/// (as reported) and the last error, in CRLF-terminated lines.
pub fn bootstrapper_diagnostics_text(
    version: &str,
    process_arch: &str,
    current_exe: &str,
    message: &str,
) -> (r: String)
    ensures
        r@ == "LSENext bootstrapper diagnostics\r\n"@ + "================================\r\n"@
            + "version: "@ + version@ + "\r\n"@ + "process_arch: "@ + process_arch@ + "\r\n"@
            + "current_exe: "@ + current_exe@ + "\r\n"@ + "\r\n[last_error]\r\n"@ + message@
            + "\r\n"@,
{
    let mut text = String::new();
    push_str(&mut text, "LSENext bootstrapper diagnostics\r\n");
    push_str(&mut text, "================================\r\n");
    push_str(&mut text, "version: ");
    push_str(&mut text, version);
    push_str(&mut text, "\r\n");
    push_str(&mut text, "process_arch: ");
    push_str(&mut text, process_arch);
    push_str(&mut text, "\r\n");
    push_str(&mut text, "current_exe: ");
    push_str(&mut text, current_exe);
    push_str(&mut text, "\r\n");
    push_str(&mut text, "\r\n[last_error]\r\n");
    push_str(&mut text, message);
    push_str(&mut text, "\r\n");
    text
}

impl PayloadError {
    /// The text of the error, as it is shown to the user.
    pub fn message(&self) -> (r: &'static str)
        ensures
            r@ == match self {
                PayloadError::MissingFooter => "setup executable is missing its payload footer"@,
                PayloadError::MissingMarker => "setup executable payload marker is missing"@,
                PayloadError::InvalidLength => "setup executable payload length is invalid"@,
            },
    {
        match self {
            PayloadError::MissingFooter => "setup executable is missing its payload footer",
            PayloadError::MissingMarker => "setup executable payload marker is missing",
            PayloadError::InvalidLength => "setup executable payload length is invalid",
        }
    }
}

/// The PowerShell of the setup program's error box, before the message.
pub const ERROR_BOX_SCRIPT_HEAD: &'static str = "[System.Reflection.Assembly]::LoadWithPartialName('System.Windows.Forms') | Out-Null; [System.Windows.Forms.MessageBox]::Show(";

/// The PowerShell of the setup program's error box, after the message.
pub const ERROR_BOX_SCRIPT_TAIL: &'static str = ", 'LSENext Setup', 'OK', 'Error') | Out-Null";

/// The marker in the error box script that is replaced by the quoted message.
pub const MESSAGE_MARKER: &'static str = "{message}";

/// The PowerShell that shows `message` in the setup program's error box.
/// The message is set into the script as it is, unquoted; afterwards every
/// `{message}` in the script is replaced by the message quoted for
/// PowerShell, which changes only messages that hold that marker.
pub fn error_box_script(message: &str) -> (r: String)
    ensures
        r@ == replace_all(
            ERROR_BOX_SCRIPT_HEAD@ + message@ + ERROR_BOX_SCRIPT_TAIL@,
            MESSAGE_MARKER@,
            spec_ps_quote(message@),
        ),
{
    let mut spliced = String::new();
    push_str(&mut spliced, ERROR_BOX_SCRIPT_HEAD);
    push_str(&mut spliced, message);
    push_str(&mut spliced, ERROR_BOX_SCRIPT_TAIL);
    let quoted = ps_quote(message);
    proof {
        reveal_strlit("{message}");
    }
    replace(spliced.as_str(), MESSAGE_MARKER, quoted.as_str())
}

} // verus!
