//! The diagnostics report and the repair sequence of the helper's debug
//! commands: the text of the report, assembled from what was found on the
//! machine, and the steps of a repair, one decision at a time.

use vstd::prelude::*;
use crate::helper::{
    add_package_script, certificate_file, cleanup_classic_context_menu_script,
    machine_certificate_trust_script, package_file, spec_add_package_script, spec_trust_script,
    unregister_package_identity_script, user_certificate_trust_script,
    CLEANUP_CLASSIC_CONTEXT_MENU_SCRIPT, UNREGISTER_PACKAGE_IDENTITY_SCRIPT,
};
use crate::path::spec_join;
use crate::text::{chars_of, decimal, ps_quote, push_str, spec_decimal, spec_ps_quote, string_of_range};

verus! {

/// `lines`, each followed by CRLF.
pub open spec fn crlf_lines(lines: Seq<Seq<char>>) -> Seq<char>
    decreases lines.len(),
{
    if lines.len() == 0 {
        seq![]
    } else {
        crlf_lines(lines.drop_last()) + lines.last() + "\r\n"@
    }
}

/// Appends `value` and a CRLF to `output`.
pub fn push_line(output: &mut String, value: &str)
    ensures
        final(output)@ == old(output)@ + value@ + "\r\n"@,
{
    push_str(output, value);
    push_str(output, "\r\n");
}

/// `true` or `false`, as `{}` writes a `bool`.
pub open spec fn bool_text(b: bool) -> Seq<char> {
    if b {
        "true"@
    } else {
        "false"@
    }
}

fn bool_str(b: bool) -> (r: &'static str)
    ensures
        r@ == bool_text(b),
{
    if b {
        "true"
    } else {
        "false"
    }
}

/// An optional size, written as `Some(n)` or `None`.
pub open spec fn size_text(size: Option<u64>) -> Seq<char> {
    match size {
        Some(n) => "Some("@ + spec_decimal(n as nat) + ")"@,
        None => "None"@,
    }
}

/// A file of an installation, as found on disk.
pub struct InstalledFile {
    pub name: String,
    pub exists: bool,
    pub size: Option<u64>,
}

/// The output of one PowerShell query of the report, or the error it ended in.
pub struct ScriptSection {
    pub title: String,
    pub output: Result<String, String>,
}

/// The files of an installation that the report looks for.
pub open spec fn spec_installed_file_names() -> Seq<Seq<char>> {
    seq![
        "lsenext-helper.exe"@,
        "lsenext-shell.dll"@,
        "AppxManifest.xml"@,
        "LSENext.identity.msix"@,
        "LSENext.cer"@,
        "Assets\\StoreLogo.png"@,
        "Assets\\Square150x150Logo.png"@,
        "Assets\\Square44x44Logo.png"@,
        "Assets\\LSENext.ico"@,
    ]
}

/// The files of an installation that the report looks for, in order.
pub fn installed_file_names() -> (r: Vec<&'static str>)
    ensures
        r@.map_values(|s: &str| s@) == spec_installed_file_names(),
{
    let r = vec![
        "lsenext-helper.exe",
        "lsenext-shell.dll",
        "AppxManifest.xml",
        "LSENext.identity.msix",
        "LSENext.cer",
        "Assets\\StoreLogo.png",
        "Assets\\Square150x150Logo.png",
        "Assets\\Square44x44Logo.png",
        "Assets\\LSENext.ico",
    ];
    assert(r@.map_values(|s: &str| s@) =~= spec_installed_file_names());
    r
}

/// PowerShell that describes the registered package.
pub const APPX_PACKAGE_SCRIPT: &'static str = "\n$pkg = Get-AppxPackage -Name Sunnylin.LSENext\nif ($pkg) {\n  $pkg | Format-List Name, PackageFullName, InstallLocation, SignatureKind, Status, IsFramework, PackageUserInformation\n  \"\"\n  \"Manifest extension XML:\"\n  ([xml](Get-AppxPackageManifest -Package $pkg.PackageFullName)).Package.Applications.Application.Extensions.InnerXml\n} else {\n  \"Sunnylin.LSENext package not found\"\n}\n";

/// PowerShell that lists the classic context-menu registry keys.
pub const CLASSIC_MENU_REGISTRY_SCRIPT: &'static str = "\n$keys = @(\n  \"HKLM:\\Software\\Classes\\*\\shell\\LSENext\",\n  \"HKLM:\\Software\\Classes\\Directory\\shell\\LSENext\",\n  \"HKLM:\\Software\\Classes\\Directory\\Background\\shell\\LSENext\",\n  \"HKCU:\\Software\\Classes\\*\\shell\\LSENext\",\n  \"HKCU:\\Software\\Classes\\Directory\\shell\\LSENext\",\n  \"HKCU:\\Software\\Classes\\Directory\\Background\\shell\\LSENext\",\n  \"HKLM:\\Software\\Microsoft\\Windows\\CurrentVersion\\Explorer\\CommandStore\\shell\\LSENext.PickSource\",\n  \"HKCU:\\Software\\Microsoft\\Windows\\CurrentVersion\\Explorer\\CommandStore\\shell\\LSENext.PickSource\"\n)\nforeach ($key in $keys) {\n  \"KEY $key exists=$(Test-Path -LiteralPath $key)\"\n  if (Test-Path -LiteralPath $key) { Get-ItemProperty -LiteralPath $key | Format-List * }\n}\n";

/// PowerShell that lists the packaged COM registration.
pub const PACKAGED_COM_REGISTRY_SCRIPT: &'static str = "\nGet-ChildItem \"HKCU:\\Software\\Classes\\ActivatableClasses\\Package\" -ErrorAction SilentlyContinue |\n  Where-Object { $_.PSChildName -like \"Sunnylin.LSENext*\" } |\n  ForEach-Object {\n    \"PACKAGE KEY $($_.Name)\"\n    Get-ChildItem $_.PSPath -Recurse -ErrorAction SilentlyContinue |\n      Where-Object { $_.PSChildName -match \"32ad61d5|LSENext|Explorer|Context\" } |\n      Select-Object -First 80 Name\n  }\n";

/// The titles and scripts of the report's PowerShell sections, in order.
pub fn report_scripts() -> (r: Vec<(&'static str, &'static str)>)
    ensures
        r@.len() == 3,
        r@[0].0@ == "appx-package"@ && r@[0].1@ == APPX_PACKAGE_SCRIPT@,
        r@[1].0@ == "classic-context-menu-registry"@ && r@[1].1@ == CLASSIC_MENU_REGISTRY_SCRIPT@,
        r@[2].0@ == "packaged-com-registry"@ && r@[2].1@ == PACKAGED_COM_REGISTRY_SCRIPT@,
{
    vec![
        ("appx-package", APPX_PACKAGE_SCRIPT),
        ("classic-context-menu-registry", CLASSIC_MENU_REGISTRY_SCRIPT),
        ("packaged-com-registry", PACKAGED_COM_REGISTRY_SCRIPT),
    ]
}

/// The report line of a probed file.
pub open spec fn file_line(f: InstalledFile) -> Seq<char> {
    f.name@ + " exists="@ + bool_text(f.exists) + " size="@ + size_text(f.size)
}

/// The report lines of the probed files, in order.
pub open spec fn file_lines(files: Seq<InstalledFile>) -> Seq<Seq<char>> {
    files.map_values(|f: InstalledFile| file_line(f))
}

/// The report lines of a PowerShell query: a blank line, its title, and
/// its output or its error.
pub open spec fn section_lines(s: ScriptSection) -> Seq<Seq<char>> {
    seq![
        seq![],
        "[powershell:"@ + s.title@ + "]"@,
        match s.output {
            Ok(t) => t@,
            Err(e) => "ERROR: "@ + e@,
        },
    ]
}

/// The report lines of the PowerShell queries, in order.
pub open spec fn sections_lines(sections: Seq<ScriptSection>) -> Seq<Seq<char>>
    decreases sections.len(),
{
    if sections.len() == 0 {
        seq![]
    } else {
        sections_lines(sections.drop_last()) + section_lines(sections.last())
    }
}

/// The lines of the diagnostics report. The state line is there when the
/// state file's location is known; the file list, and the installed
/// manifest when it could be read, when the installation is known.
pub open spec fn report_lines(
    version: Seq<char>,
    process_arch: Seq<char>,
    current_exe: Seq<char>,
    install_root: Seq<char>,
    state_path: Seq<char>,
    state_exists: Option<bool>,
    files: Option<Seq<InstalledFile>>,
    manifest: Option<Seq<char>>,
    sections: Seq<ScriptSection>,
) -> Seq<Seq<char>> {
    seq![
        "LSENext diagnostics"@,
        "==================="@,
        "version: "@ + version,
        "process_arch: "@ + process_arch,
        "current_exe: "@ + current_exe,
        "install_root: "@ + install_root,
        "state_path: "@ + state_path,
    ] + match state_exists {
        Some(b) => seq!["state_exists: "@ + bool_text(b)],
        None => seq![],
    } + match files {
        Some(fs) => seq![seq![], "[files]"@] + file_lines(fs) + match manifest {
            Some(m) => seq![seq![], "[installed AppxManifest.xml]"@, m],
            None => seq![],
        },
        None => seq![],
    } + sections_lines(sections)
}

proof fn lemma_crlf_push(lines: Seq<Seq<char>>, l: Seq<char>)
    ensures
        crlf_lines(lines.push(l)) == crlf_lines(lines) + l + "\r\n"@,
{
    assert(lines.push(l).drop_last() =~= lines);
}

proof fn lemma_crlf_append(a: Seq<Seq<char>>, b: Seq<Seq<char>>)
    ensures
        crlf_lines(a + b) == crlf_lines(a) + crlf_lines(b),
    decreases b.len(),
{
    if b.len() == 0 {
        assert(a + b =~= a);
        assert(crlf_lines(a) + crlf_lines(b) =~= crlf_lines(a));
    } else {
        lemma_crlf_append(a, b.drop_last());
        assert((a + b).drop_last() =~= a + b.drop_last());
        assert((a + b).last() == b.last());
        assert(crlf_lines(a + b) =~= crlf_lines(a) + crlf_lines(b));
    }
}

fn push_file_line(out: &mut String, f: &InstalledFile)
    ensures
        final(out)@ == old(out)@ + file_line(*f) + "\r\n"@,
{
    push_str(out, f.name.as_str());
    push_str(out, " exists=");
    push_str(out, bool_str(f.exists));
    push_str(out, " size=");
    match f.size {
        Some(n) => {
            push_str(out, "Some(");
            let d = decimal(n);
            push_str(out, d.as_str());
            push_str(out, ")");
        },
        None => {
            push_str(out, "None");
        },
    }
    push_str(out, "\r\n");
    assert(final(out)@ =~= old(out)@ + file_line(*f) + "\r\n"@);
}

fn push_section(out: &mut String, s: &ScriptSection)
    ensures
        final(out)@ == old(out)@ + crlf_lines(section_lines(*s)),
{
    let ghost before = out@;
    push_line(out, "");
    push_str(out, "[powershell:");
    push_str(out, s.title.as_str());
    push_line(out, "]");
    match &s.output {
        Ok(t) => push_line(out, t.as_str()),
        Err(e) => {
            push_str(out, "ERROR: ");
            push_line(out, e.as_str());
        },
    }
    proof {
        reveal_strlit("");
        let ls = section_lines(*s);
        lemma_crlf_push(seq![], ls[0]);
        lemma_crlf_push(seq![ls[0]], ls[1]);
        lemma_crlf_push(seq![ls[0], ls[1]], ls[2]);
        assert(seq![ls[0], ls[1], ls[2]] =~= ls);
        assert(seq![ls[0]] =~= seq![].push(ls[0]));
        assert(seq![ls[0], ls[1]] =~= seq![ls[0]].push(ls[1]));
        assert(seq![ls[0], ls[1], ls[2]] =~= seq![ls[0], ls[1]].push(ls[2]));
        assert(crlf_lines(Seq::<Seq<char>>::empty()) =~= seq![]);
    }
    assert(out@ =~= before + crlf_lines(section_lines(*s)));
}

/// Appends `label`, `value` and a CRLF, keeping the log's lines.
fn push_labeled(out: &mut String, label: &str, value: &str, Ghost(lines): Ghost<Seq<Seq<char>>>)
    requires
        old(out)@ == crlf_lines(lines),
    ensures
        final(out)@ == crlf_lines(lines.push(label@ + value@)),
{
    push_str(out, label);
    push_line(out, value);
    proof {
        lemma_crlf_push(lines, label@ + value@);
    }
    assert(out@ =~= crlf_lines(lines.push(label@ + value@)));
}

/// The probed files, when there are any, as a sequence.
pub open spec fn files_view(files: Option<&Vec<InstalledFile>>) -> Option<Seq<InstalledFile>> {
    match files {
        Some(v) => Some(v@),
        None => None,
    }
}

/// The characters of an optional text.
pub open spec fn str_view(s: Option<&str>) -> Option<Seq<char>> {
    match s {
        Some(t) => Some(t@),
        None => None,
    }
}

/// The diagnostics report, one CRLF-terminated line after another.
/// `current_exe`, `install_root` and `state_path` are the debug renderings
/// of what was found; `state_exists` is known when the state file's
/// location is; `files` are the probed files of the installation when it
/// was found, and `manifest` its manifest when that could be read;
/// `sections` are the PowerShell queries and what they answered.
pub fn diagnostics_report(
    version: &str,
    process_arch: &str,
    current_exe: &str,
    install_root: &str,
    state_path: &str,
    state_exists: Option<bool>,
    files: Option<&Vec<InstalledFile>>,
    manifest: Option<&str>,
    sections: &Vec<ScriptSection>,
) -> (r: String)
    ensures
        r@ == crlf_lines(
            report_lines(
                version@,
                process_arch@,
                current_exe@,
                install_root@,
                state_path@,
                state_exists,
                files_view(files),
                str_view(manifest),
                sections@,
            ),
        ),
{
    let mut out = String::new();
    let ghost mut lines: Seq<Seq<char>> = seq![];
    assert(out@ =~= crlf_lines(lines));
    push_labeled(&mut out, "", "LSENext diagnostics", Ghost(lines));
    proof { lines = lines.push(""@ + "LSENext diagnostics"@); }
    push_labeled(&mut out, "", "===================", Ghost(lines));
    proof { lines = lines.push(""@ + "==================="@); }
    push_labeled(&mut out, "version: ", version, Ghost(lines));
    proof { lines = lines.push("version: "@ + version@); }
    push_labeled(&mut out, "process_arch: ", process_arch, Ghost(lines));
    proof { lines = lines.push("process_arch: "@ + process_arch@); }
    push_labeled(&mut out, "current_exe: ", current_exe, Ghost(lines));
    proof { lines = lines.push("current_exe: "@ + current_exe@); }
    push_labeled(&mut out, "install_root: ", install_root, Ghost(lines));
    proof { lines = lines.push("install_root: "@ + install_root@); }
    push_labeled(&mut out, "state_path: ", state_path, Ghost(lines));
    proof { lines = lines.push("state_path: "@ + state_path@); }
    proof {
        reveal_strlit("");
        assert(lines =~= seq![
            "LSENext diagnostics"@,
            "==================="@,
            "version: "@ + version@,
            "process_arch: "@ + process_arch@,
            "current_exe: "@ + current_exe@,
            "install_root: "@ + install_root@,
            "state_path: "@ + state_path@,
        ]);
    }
    let ghost head = lines;
    if let Some(b) = state_exists {
        push_labeled(&mut out, "state_exists: ", bool_str(b), Ghost(lines));
        proof { lines = lines.push("state_exists: "@ + bool_text(b)); }
    }
    let ghost with_state = lines;
    assert(with_state =~= head + match state_exists {
        Some(b) => seq!["state_exists: "@ + bool_text(b)],
        None => seq![],
    });
    if let Some(fs) = files {
        push_labeled(&mut out, "", "", Ghost(lines));
        proof { lines = lines.push(""@ + ""@); }
        push_labeled(&mut out, "", "[files]", Ghost(lines));
        proof { lines = lines.push(""@ + "[files]"@); }
        let ghost before_files = lines;
        proof {
            reveal_strlit("");
            assert(""@ + ""@ =~= Seq::<char>::empty());
            assert(""@ + "[files]"@ =~= "[files]"@);
            assert(before_files =~= with_state + seq![seq![], "[files]"@]);
        }
        let mut i: usize = 0;
        while i < fs.len()
            invariant
                i <= fs@.len(),
                out@ == crlf_lines(before_files + file_lines(fs@.take(i as int))),
            decreases fs@.len() - i,
        {
            push_file_line(&mut out, &fs[i]);
            proof {
                lemma_crlf_push(before_files + file_lines(fs@.take(i as int)), file_line(fs@[i as int]));
                assert(file_lines(fs@.take(i + 1)) =~= file_lines(fs@.take(i as int)).push(
                    file_line(fs@[i as int]),
                ));
                assert(before_files + file_lines(fs@.take(i + 1)) =~= (before_files + file_lines(
                    fs@.take(i as int),
                )).push(file_line(fs@[i as int])));
            }
            i = i + 1;
        }
        proof {
            assert(fs@.take(fs@.len() as int) =~= fs@);
            lines = before_files + file_lines(fs@);
        }
        let ghost listed = lines;
        if let Some(m) = manifest {
            push_labeled(&mut out, "", "", Ghost(lines));
            proof { lines = lines.push(""@ + ""@); }
            push_labeled(&mut out, "", "[installed AppxManifest.xml]", Ghost(lines));
            proof { lines = lines.push(""@ + "[installed AppxManifest.xml]"@); }
            push_labeled(&mut out, "", m, Ghost(lines));
            proof {
                lines = lines.push(""@ + m@);
                reveal_strlit("");
                assert(""@ + ""@ =~= Seq::<char>::empty());
                assert(""@ + "[installed AppxManifest.xml]"@ =~= "[installed AppxManifest.xml]"@);
                assert(""@ + m@ =~= m@);
                assert(lines =~= listed + seq![seq![], "[installed AppxManifest.xml]"@, m@]);
            }
        }
        proof {
            reveal_strlit("");
            let part = seq![seq![], "[files]"@] + file_lines(fs@) + match manifest {
                Some(m) => seq![seq![], "[installed AppxManifest.xml]"@, m@],
                None => seq![],
            };
            assert(lines =~= with_state + part);
        }
    }
    let ghost before_sections = lines;
    proof {
        reveal_strlit("");
        if let Some(fs) = files {
            let part = seq![seq![], "[files]"@] + file_lines(fs@) + match manifest {
                Some(m) => seq![seq![], "[installed AppxManifest.xml]"@, m@],
                None => seq![],
            };
            assert(before_sections == with_state + part);
        } else {
            assert(before_sections =~= with_state);
        }
    }
    let mut j: usize = 0;
    while j < sections.len()
        invariant
            j <= sections@.len(),
            out@ == crlf_lines(before_sections + sections_lines(sections@.take(j as int))),
        decreases sections@.len() - j,
    {
        push_section(&mut out, &sections[j]);
        proof {
            let acc = before_sections + sections_lines(sections@.take(j as int));
            lemma_crlf_append(acc, section_lines(sections@[j as int]));
            assert(sections@.take(j + 1).drop_last() =~= sections@.take(j as int));
            assert(sections_lines(sections@.take(j + 1)) == sections_lines(sections@.take(j as int))
                + section_lines(sections@[j as int]));
            assert(before_sections + sections_lines(sections@.take(j + 1)) =~= acc + section_lines(
                sections@[j as int],
            ));
        }
        j = j + 1;
    }
    proof {
        reveal_strlit("");
        assert(sections@.take(sections@.len() as int) =~= sections@);
        let full = report_lines(
            version@,
            process_arch@,
            current_exe@,
            install_root@,
            state_path@,
            state_exists,
            files_view(files),
            str_view(manifest),
            sections@,
        );
        assert(before_sections + sections_lines(sections@) =~= full);
    }
    out
}

/// The text written to the diagnostics file: the repair log and a blank
/// line before the report, when there is a log.
pub fn diagnostics_document(prefix: Option<&str>, report: &str) -> (r: String)
    ensures
        r@ == match prefix {
            Some(p) => p@ + "\r\n\r\n"@ + report@,
            None => report@,
        },
{
    let mut out = String::new();
    if let Some(p) = prefix {
        push_str(&mut out, p);
        push_str(&mut out, "\r\n\r\n");
    }
    push_str(&mut out, report);
    out
}

/// Unicode `White_Space`, the characters that `str::trim` removes.
pub open spec fn is_white_space(c: char) -> bool {
    ||| '\u{9}' <= c <= '\u{d}'
    ||| c == ' '
    ||| c == '\u{85}'
    ||| c == '\u{a0}'
    ||| c == '\u{1680}'
    ||| '\u{2000}' <= c <= '\u{200a}'
    ||| c == '\u{2028}'
    ||| c == '\u{2029}'
    ||| c == '\u{202f}'
    ||| c == '\u{205f}'
    ||| c == '\u{3000}'
}

fn white_space(c: char) -> (r: bool)
    ensures
        r == is_white_space(c),
{
    ('\u{9}' <= c && c <= '\u{d}') || c == ' ' || c == '\u{85}' || c == '\u{a0}' || c == '\u{1680}'
        || ('\u{2000}' <= c && c <= '\u{200a}') || c == '\u{2028}' || c == '\u{2029}'
        || c == '\u{202f}' || c == '\u{205f}' || c == '\u{3000}'
}

/// `s` without leading white space.
pub open spec fn trim_start(s: Seq<char>) -> Seq<char>
    decreases s.len(),
{
    if s.len() > 0 && is_white_space(s[0]) {
        trim_start(s.drop_first())
    } else {
        s
    }
}

/// `s` without trailing white space.
pub open spec fn trim_end(s: Seq<char>) -> Seq<char>
    decreases s.len(),
{
    if s.len() > 0 && is_white_space(s.last()) {
        trim_end(s.drop_last())
    } else {
        s
    }
}

/// `s` without leading and trailing white space.
pub open spec fn trimmed(s: Seq<char>) -> Seq<char> {
    trim_end(trim_start(s))
}

/// `s` without leading and trailing white space.
pub fn trim(s: &str) -> (r: String)
    ensures
        r@ == trimmed(s@),
{
    let v = chars_of(s);
    let n = v.len();
    let mut lo: usize = 0;
    assert(v@.subrange(0, n as int) =~= v@);
    while lo < n && white_space(v[lo])
        invariant
            lo <= n == v@.len(),
            v@ == s@,
            trim_start(s@) == trim_start(v@.subrange(lo as int, n as int)),
        decreases n - lo,
    {
        assert(v@.subrange(lo as int, n as int).drop_first() =~= v@.subrange(lo + 1, n as int));
        lo = lo + 1;
    }
    assert(trim_start(s@) == v@.subrange(lo as int, n as int));
    let mut hi: usize = n;
    while hi > lo && white_space(v[hi - 1])
        invariant
            lo <= hi <= n == v@.len(),
            trimmed(s@) == trim_end(v@.subrange(lo as int, hi as int)),
        decreases hi,
    {
        assert(v@.subrange(lo as int, hi as int).drop_last() =~= v@.subrange(lo as int, hi - 1));
        hi = hi - 1;
    }
    string_of_range(&v, lo, hi)
}

/// The lines that a repair step adds to the log: a blank line, the start,
/// then the outcome, with what the step printed when that is not blank.
pub open spec fn repair_step_lines(name: Seq<char>, outcome: Result<Seq<char>, Seq<char>>) -> Seq<
    Seq<char>,
> {
    seq![seq![], "STEP "@ + name + ": started"@] + match outcome {
        Ok(text) => seq!["STEP "@ + name + ": ok"@] + if trimmed(text).len() == 0 {
            Seq::<Seq<char>>::empty()
        } else {
            seq![trimmed(text)]
        },
        Err(e) => seq!["STEP "@ + name + ": ERROR: "@ + e],
    }
}

/// The characters of a step's output or error.
pub open spec fn outcome_view(outcome: Result<&str, &str>) -> Result<Seq<char>, Seq<char>> {
    match outcome {
        Ok(t) => Ok(t@),
        Err(e) => Err(e@),
    }
}

fn concat3(a: &str, b: &str, c: &str) -> (r: String)
    ensures
        r@ == a@ + b@ + c@,
{
    let mut out = String::new();
    push_str(&mut out, a);
    push_str(&mut out, b);
    push_str(&mut out, c);
    assert(out@ =~= a@ + b@ + c@);
    out
}

/// Appends `value` and a CRLF, keeping the log's lines.
fn push_plain(out: &mut String, value: &str, Ghost(lines): Ghost<Seq<Seq<char>>>)
    requires
        old(out)@ == crlf_lines(lines),
    ensures
        final(out)@ == crlf_lines(lines.push(value@)),
{
    push_line(out, value);
    proof {
        lemma_crlf_push(lines, value@);
    }
}

/// The log text of a repair step named `name` that ended in `outcome`:
/// what the script printed, or the error it failed with.
pub fn repair_step_log(name: &str, outcome: Result<&str, &str>) -> (r: String)
    ensures
        r@ == crlf_lines(repair_step_lines(name@, outcome_view(outcome))),
{
    let mut out = String::new();
    let ghost mut lines: Seq<Seq<char>> = seq![];
    assert(out@ =~= crlf_lines(lines));
    push_plain(&mut out, "", Ghost(lines));
    proof { lines = lines.push(""@); }
    let started = concat3("STEP ", name, ": started");
    push_plain(&mut out, started.as_str(), Ghost(lines));
    proof { lines = lines.push(started@); }
    let ghost head = lines;
    proof {
        reveal_strlit("");
        assert(""@ =~= Seq::<char>::empty());
        assert(head =~= seq![seq![], "STEP "@ + name@ + ": started"@]);
    }
    match outcome {
        Ok(text) => {
            let ok = concat3("STEP ", name, ": ok");
            push_plain(&mut out, ok.as_str(), Ghost(lines));
            proof { lines = lines.push(ok@); }
            let t = trim(text);
            if t.as_str().unicode_len() > 0 {
                push_plain(&mut out, t.as_str(), Ghost(lines));
                proof { lines = lines.push(t@); }
            }
        },
        Err(e) => {
            let failed = concat3("STEP ", name, ": ERROR: ");
            let mut line = failed;
            push_str(&mut line, e);
            push_plain(&mut out, line.as_str(), Ghost(lines));
            proof { lines = lines.push(line@); }
        },
    }
    assert(lines =~= repair_step_lines(name@, outcome_view(outcome)));
    out
}

/// `d` right-aligned in a field of three characters.
pub open spec fn pad3(d: Seq<char>) -> Seq<char> {
    if d.len() < 3 {
        Seq::new((3 - d.len()) as nat, |i: int| ' ') + d
    } else {
        d
    }
}

/// The console line of a repair step: `[ 35%] name`, then `: ok` or
/// `: ERROR` once the step has ended (`Some(true)` or `Some(false)`).
pub open spec fn spec_progress_line(percent: u32, name: Seq<char>, outcome: Option<bool>) -> Seq<
    char,
> {
    "["@ + pad3(spec_decimal(percent as nat)) + "%] "@ + name + match outcome {
        None => Seq::<char>::empty(),
        Some(true) => ": ok"@,
        Some(false) => ": ERROR"@,
    }
}

/// The console line of a repair step; see `spec_progress_line`.
pub fn progress_line(percent: u32, name: &str, outcome: Option<bool>) -> (r: String)
    ensures
        r@ == spec_progress_line(percent, name@, outcome),
{
    let d = decimal(percent as u64);
    let digits = chars_of(d.as_str());
    let mut out = String::new();
    push_str(&mut out, "[");
    let mut k: usize = digits.len();
    let ghost start = out@;
    while k < 3
        invariant
            digits@.len() <= k <= 3 || (k == digits@.len() && k >= 3),
            out@ == start + Seq::new((k - digits@.len()) as nat, |i: int| ' '),
        decreases 3 - k,
    {
        push_str(&mut out, " ");
        proof {
            reveal_strlit(" ");
            assert(Seq::new((k + 1 - digits@.len()) as nat, |i: int| ' ') =~= Seq::new(
                (k - digits@.len()) as nat,
                |i: int| ' ',
            ) + " "@);
        }
        k = k + 1;
    }
    push_str(&mut out, d.as_str());
    push_str(&mut out, "%] ");
    push_str(&mut out, name);
    match outcome {
        None => {},
        Some(true) => push_str(&mut out, ": ok"),
        Some(false) => push_str(&mut out, ": ERROR"),
    }
    proof {
        let pad = Seq::new((k - digits@.len()) as nat, |i: int| ' ');
        if digits@.len() >= 3 {
            assert(pad =~= Seq::<char>::empty());
        }
        assert(pad + d@ =~= pad3(spec_decimal(percent as nat)));
    }
    assert(out@ =~= spec_progress_line(percent, name@, outcome));
    out
}

/// One step of the repair, as planned.
pub enum PlannedRepair {
    /// A line added to the log, with a CRLF.
    Line(Seq<char>),
    /// The log so far, written to the diagnostics file.
    WriteProgress,
    /// A PowerShell step: its percentage, its name and its script.
    RunStep(u32, Seq<char>, Seq<char>),
    /// The log written with the report after it, and opened.
    OpenDiagnostics,
}

/// What the repair does next.
pub enum RepairAction {
    /// Add this line, and a CRLF, to the log.
    Line(String),
    /// Write the log so far to the diagnostics file.
    WriteProgress,
    /// Run `script`, print its progress lines and add its log lines.
    RunStep { percent: u32, name: String, script: String },
    /// Write the log and the report to the diagnostics file and open it.
    OpenDiagnostics,
    /// Nothing is left to do.
    Done,
}

/// The planned step that an action carries out; `None` for `Done`.
pub open spec fn planned(a: RepairAction) -> Option<PlannedRepair> {
    match a {
        RepairAction::Line(l) => Some(PlannedRepair::Line(l@)),
        RepairAction::WriteProgress => Some(PlannedRepair::WriteProgress),
        RepairAction::RunStep { percent, name, script } => Some(
            PlannedRepair::RunStep(percent, name@, script@),
        ),
        RepairAction::OpenDiagnostics => Some(PlannedRepair::OpenDiagnostics),
        RepairAction::Done => None,
    }
}

/// PowerShell that trusts the certificate at `certificate` for the current
/// user and for the machine.
pub open spec fn spec_full_trust_script(certificate: Seq<char>) -> Seq<char> {
    spec_trust_script(certificate, "CurrentUser"@) + "; "@ + spec_trust_script(
        certificate,
        "LocalMachine"@,
    )
}

/// The repair, in order: the log's title, the classic menu cleanup and the
/// removal of the package identity; then, where the installation was
/// found, the certificate trust (or a note that the certificate is
/// missing) and the package registration, or else a note that the
/// installation was not found; the log is written after each step, and
/// the diagnostics are opened at the end.
pub open spec fn repair_plan(install_root: Option<Seq<char>>, certificate_present: bool) -> Seq<
    PlannedRepair,
> {
    seq![
        PlannedRepair::Line("LSENext repair log"@),
        PlannedRepair::Line("=================="@),
        PlannedRepair::WriteProgress,
        PlannedRepair::RunStep(
            10,
            "cleanup classic context menu"@,
            CLEANUP_CLASSIC_CONTEXT_MENU_SCRIPT@,
        ),
        PlannedRepair::WriteProgress,
        PlannedRepair::RunStep(
            35,
            "unregister existing package identity"@,
            UNREGISTER_PACKAGE_IDENTITY_SCRIPT@,
        ),
        PlannedRepair::WriteProgress,
    ] + match install_root {
        Some(root) => seq![
            if certificate_present {
                PlannedRepair::RunStep(
                    60,
                    "trust package certificate"@,
                    spec_full_trust_script(spec_join(root, "LSENext.cer"@)),
                )
            } else {
                PlannedRepair::Line("STEP trust package certificate: skipped, certificate missing"@)
            },
            PlannedRepair::WriteProgress,
            PlannedRepair::RunStep(
                85,
                "register package identity"@,
                spec_add_package_script(spec_join(root, "LSENext.identity.msix"@), root),
            ),
            PlannedRepair::WriteProgress,
            PlannedRepair::OpenDiagnostics,
        ],
        None => seq![
            PlannedRepair::Line("STEP locate install root: failed"@),
            PlannedRepair::WriteProgress,
            PlannedRepair::OpenDiagnostics,
        ],
    }
}

/// Whatever was found, the repair writes its log after every PowerShell
/// step, and ends by opening the diagnostics.
pub proof fn lemma_repair_writes_after_each_step(install_root: Option<Seq<char>>, certificate_present: bool)
    ensures
        ({
            let plan = repair_plan(install_root, certificate_present);
            &&& plan.last() == PlannedRepair::OpenDiagnostics
            &&& forall|i: int|
                0 <= i < plan.len() && (#[trigger] plan[i]) is RunStep ==> i + 1 < plan.len()
                    && plan[i + 1] == PlannedRepair::WriteProgress
        }),
{
}

fn owned(s: &str) -> (r: String)
    ensures
        r@ == s@,
{
    let mut out = String::new();
    push_str(&mut out, s);
    out
}

fn run_step(percent: u32, name: &str, script: String) -> (r: RepairAction)
    ensures
        r == (RepairAction::RunStep { percent, name: r->name, script }),
        r->name@ == name@,
{
    RepairAction::RunStep { percent, name: owned(name), script }
}

/// The repair's next action once `done` actions have been taken, for an
/// installation at `install_root` (when it was found) whose certificate is
/// there or not.
pub fn repair_step(install_root: Option<&str>, certificate_present: bool, done: usize) -> (r:
    RepairAction)
    ensures
        ({
            let plan = repair_plan(str_view(install_root), certificate_present);
            &&& done < plan.len() ==> planned(r) == Some(plan[done as int])
            &&& done >= plan.len() ==> r is Done
        }),
{
    let ghost plan = repair_plan(str_view(install_root), certificate_present);
    if done == 0 {
        RepairAction::Line(owned("LSENext repair log"))
    } else if done == 1 {
        RepairAction::Line(owned("=================="))
    } else if done == 2 || done == 4 || done == 6 {
        RepairAction::WriteProgress
    } else if done == 3 {
        run_step(10, "cleanup classic context menu", owned(cleanup_classic_context_menu_script()))
    } else if done == 5 {
        run_step(
            35,
            "unregister existing package identity",
            owned(unregister_package_identity_script()),
        )
    } else {
        match install_root {
            Some(root) => {
                if done == 7 {
                    if certificate_present {
                        let certificate = certificate_file(root);
                        let mut script = user_certificate_trust_script(certificate.as_str());
                        push_str(&mut script, "; ");
                        let machine = machine_certificate_trust_script(certificate.as_str());
                        push_str(&mut script, machine.as_str());
                        run_step(60, "trust package certificate", script)
                    } else {
                        RepairAction::Line(
                            owned("STEP trust package certificate: skipped, certificate missing"),
                        )
                    }
                } else if done == 8 || done == 10 {
                    RepairAction::WriteProgress
                } else if done == 9 {
                    let package = package_file(root);
                    run_step(
                        85,
                        "register package identity",
                        add_package_script(package.as_str(), root),
                    )
                } else if done == 11 {
                    RepairAction::OpenDiagnostics
                } else {
                    RepairAction::Done
                }
            },
            None => {
                if done == 7 {
                    RepairAction::Line(owned("STEP locate install root: failed"))
                } else if done == 8 {
                    RepairAction::WriteProgress
                } else if done == 9 {
                    RepairAction::OpenDiagnostics
                } else {
                    RepairAction::Done
                }
            },
        }
    }
}

/// The visible repair window's PowerShell, up to where the quoted
/// installation directory goes.
pub const REPAIR_WINDOW_SCRIPT_HEAD: &'static str = "\n$Host.UI.RawUI.WindowTitle = \"LSENext Repair Native Menu\"\n\"LSENext Repair Native Menu\"\n\"This window shows repair progress and writes diagnostics.\"\n\"\"\n\n$installRoot = ";

/// The visible repair window's PowerShell, after the quoted installation
/// directory.
pub const REPAIR_WINDOW_SCRIPT_TAIL: &'static str = "\n$diag = Join-Path $env:LOCALAPPDATA \"LSENext\\diagnostics.txt\"\n$package = Join-Path $installRoot \"LSENext.identity.msix\"\n$certificate = Join-Path $installRoot \"LSENext.cer\"\nNew-Item -ItemType Directory -Force -Path (Split-Path $diag) | Out-Null\n\"LSENext repair log\" | Set-Content -Path $diag\n\"==================\" | Add-Content -Path $diag\n\"script: $PSCommandPath\" | Add-Content -Path $diag\n\"installRoot: $installRoot\" | Add-Content -Path $diag\n\nfunction Step($Percent, $Name, [scriptblock]$Action) {\n  Write-Progress -Activity \"LSENext Repair Native Menu\" -Status $Name -PercentComplete $Percent\n  Write-Host (\"[{0,3}%] {1}\" -f $Percent, $Name)\n  \"\" | Add-Content -Path $diag\n  \"STEP ${Name}: started\" | Add-Content -Path $diag\n  try {\n    $output = & $Action 2>&1 | Out-String\n    if ($output.Trim().Length -gt 0) { $output.Trim() | Add-Content -Path $diag }\n    \"STEP ${Name}: ok\" | Add-Content -Path $diag\n    Write-Host (\"[{0,3}%] {1}: ok\" -f $Percent, $Name)\n  } catch {\n    \"STEP ${Name}: ERROR: $($_.Exception.Message)\" | Add-Content -Path $diag\n    Write-Host (\"[{0,3}%] {1}: ERROR\" -f $Percent, $Name)\n    Write-Host $_.Exception.Message\n  }\n}\n\nStep 5 \"check installed files\" {\n  foreach ($path in @($package, $certificate, (Join-Path $installRoot \"lsenext-shell.dll\"), (Join-Path $installRoot \"AppxManifest.xml\"), (Join-Path $installRoot \"Assets\\LSENext.ico\"))) {\n    if (Test-Path $path) {\n      $item = Get-Item -LiteralPath $path\n      \"$path exists size=$($item.Length)\"\n    } else {\n      \"$path missing\"\n    }\n  }\n}\n\nStep 10 \"cleanup classic context menu\" {\n  $paths = @(\n    \"HKCU:\\Software\\Classes\\*\\shell\\LSENext\",\n    \"HKCU:\\Software\\Classes\\Directory\\shell\\LSENext\",\n    \"HKCU:\\Software\\Classes\\Directory\\Background\\shell\\LSENext\",\n    \"HKCU:\\Software\\Microsoft\\Windows\\CurrentVersion\\Explorer\\CommandStore\\shell\\LSENext.PickSource\",\n    \"HKCU:\\Software\\Microsoft\\Windows\\CurrentVersion\\Explorer\\CommandStore\\shell\\LSENext.DropSymbolic\",\n    \"HKCU:\\Software\\Microsoft\\Windows\\CurrentVersion\\Explorer\\CommandStore\\shell\\LSENext.DropJunction\",\n    \"HKCU:\\Software\\Microsoft\\Windows\\CurrentVersion\\Explorer\\CommandStore\\shell\\LSENext.DropHardLink\",\n    \"HKCU:\\Software\\Microsoft\\Windows\\CurrentVersion\\Explorer\\CommandStore\\shell\\LSENext.BackgroundDropSymbolic\",\n    \"HKCU:\\Software\\Microsoft\\Windows\\CurrentVersion\\Explorer\\CommandStore\\shell\\LSENext.BackgroundDropJunction\",\n    \"HKCU:\\Software\\Microsoft\\Windows\\CurrentVersion\\Explorer\\CommandStore\\shell\\LSENext.BackgroundDropHardLink\",\n    \"HKCU:\\Software\\Microsoft\\Windows\\CurrentVersion\\Explorer\\CommandStore\\shell\\LSENext.ClearSource\",\n    \"HKLM:\\Software\\Classes\\*\\shell\\LSENext\",\n    \"HKLM:\\Software\\Classes\\Directory\\shell\\LSENext\",\n    \"HKLM:\\Software\\Classes\\Directory\\Background\\shell\\LSENext\",\n    \"HKLM:\\Software\\Microsoft\\Windows\\CurrentVersion\\Explorer\\CommandStore\\shell\\LSENext.PickSource\",\n    \"HKLM:\\Software\\Microsoft\\Windows\\CurrentVersion\\Explorer\\CommandStore\\shell\\LSENext.DropSymbolic\",\n    \"HKLM:\\Software\\Microsoft\\Windows\\CurrentVersion\\Explorer\\CommandStore\\shell\\LSENext.DropJunction\",\n    \"HKLM:\\Software\\Microsoft\\Windows\\CurrentVersion\\Explorer\\CommandStore\\shell\\LSENext.DropHardLink\",\n    \"HKLM:\\Software\\Microsoft\\Windows\\CurrentVersion\\Explorer\\CommandStore\\shell\\LSENext.BackgroundDropSymbolic\",\n    \"HKLM:\\Software\\Microsoft\\Windows\\CurrentVersion\\Explorer\\CommandStore\\shell\\LSENext.BackgroundDropJunction\",\n    \"HKLM:\\Software\\Microsoft\\Windows\\CurrentVersion\\Explorer\\CommandStore\\shell\\LSENext.BackgroundDropHardLink\",\n    \"HKLM:\\Software\\Microsoft\\Windows\\CurrentVersion\\Explorer\\CommandStore\\shell\\LSENext.ClearSource\"\n  )\n  foreach ($path in $paths) {\n    \"cleanup $path\"\n    if (Test-Path -LiteralPath $path) { Remove-Item -LiteralPath $path -Recurse -Force -ErrorAction SilentlyContinue }\n  }\n}\n\nStep 35 \"unregister existing package identity\" {\n  $pkg = Get-AppxPackage -Name Sunnylin.LSENext -ErrorAction SilentlyContinue\n  if ($pkg) {\n    Remove-AppxPackage -Package $pkg.PackageFullName -ErrorAction Stop\n  } else {\n    \"Sunnylin.LSENext was not registered\"\n  }\n}\n\nStep 60 \"trust package certificate\" {\n  if (Test-Path $certificate) {\n    $cert = New-Object System.Security.Cryptography.X509Certificates.X509Certificate2($certificate)\n    \"certificate subject=$($cert.Subject) thumbprint=$($cert.Thumbprint)\"\n    Import-Certificate -FilePath $certificate -CertStoreLocation Cert:\\CurrentUser\\Root -ErrorAction Stop | Out-Null\n    Import-Certificate -FilePath $certificate -CertStoreLocation Cert:\\CurrentUser\\TrustedPeople -ErrorAction Stop | Out-Null\n    Import-Certificate -FilePath $certificate -CertStoreLocation Cert:\\LocalMachine\\Root -ErrorAction Stop | Out-Null\n    Import-Certificate -FilePath $certificate -CertStoreLocation Cert:\\LocalMachine\\TrustedPeople -ErrorAction Stop | Out-Null\n    foreach ($store in @(\"Cert:\\CurrentUser\\Root\", \"Cert:\\CurrentUser\\TrustedPeople\", \"Cert:\\LocalMachine\\Root\", \"Cert:\\LocalMachine\\TrustedPeople\")) {\n      \"$store\\$($cert.Thumbprint) exists=$(Test-Path -LiteralPath (Join-Path $store $cert.Thumbprint))\"\n    }\n  } else {\n    \"certificate missing: $certificate\"\n  }\n}\n\nStep 85 \"register package identity\" {\n  if (-not (Test-Path $package)) { throw \"package missing: $package\" }\n  Add-AppxPackage -Path $package -ExternalLocation $installRoot -ForceApplicationShutdown -ForceUpdateFromAnyVersion -ErrorAction Stop\n}\n\nStep 95 \"collect registration diagnostics\" {\n  \"[appx-package]\"\n  $pkg = Get-AppxPackage -Name Sunnylin.LSENext -ErrorAction SilentlyContinue\n  if ($pkg) {\n    $pkg | Format-List Name, PackageFullName, InstallLocation, SignatureKind, Status | Out-String\n  } else {\n    \"Sunnylin.LSENext package not found\"\n  }\n  \"\"\n  \"[classic-context-menu-registry]\"\n  foreach ($path in @(\n    \"HKCU:\\Software\\Classes\\*\\shell\\LSENext\",\n    \"HKCU:\\Software\\Classes\\Directory\\shell\\LSENext\",\n    \"HKCU:\\Software\\Classes\\Directory\\Background\\shell\\LSENext\",\n    \"HKLM:\\Software\\Classes\\*\\shell\\LSENext\",\n    \"HKLM:\\Software\\Classes\\Directory\\shell\\LSENext\",\n    \"HKLM:\\Software\\Classes\\Directory\\Background\\shell\\LSENext\"\n  )) {\n    \"KEY $path exists=$(Test-Path -LiteralPath $path)\"\n  }\n}\n\nWrite-Progress -Activity \"LSENext Repair Native Menu\" -Status \"Opening diagnostics\" -PercentComplete 100\nWrite-Host \"[100%] opening diagnostics in Notepad\"\n\"\" | Add-Content -Path $diag\nStart-Process notepad.exe -ArgumentList $diag\nWrite-Progress -Activity \"LSENext Repair Native Menu\" -Completed\nWrite-Host \"\"\nWrite-Host \"Done. This window will stay open. If Notepad did not open, copy the lines above and the file path below:\"\nWrite-Host $diag\n";

/// The PowerShell that the visible repair window runs for the installation
/// at `install_root`.
pub fn repair_window_script(install_root: &str) -> (r: String)
    ensures
        r@ == REPAIR_WINDOW_SCRIPT_HEAD@ + spec_ps_quote(install_root@) + REPAIR_WINDOW_SCRIPT_TAIL@,
{
    let mut out = String::new();
    push_str(&mut out, REPAIR_WINDOW_SCRIPT_HEAD);
    let quoted = ps_quote(install_root);
    push_str(&mut out, quoted.as_str());
    push_str(&mut out, REPAIR_WINDOW_SCRIPT_TAIL);
    out
}

} // verus!
