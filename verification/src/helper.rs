//! The helper program's logic: its command line, the checks before links
//! are dropped, the arguments of an elevated retry, and the PowerShell
//! scripts that register the package identity.

use vstd::prelude::*;
use crate::links::LinkKind;
use crate::path::{file_stem, join, spec_file_stem, spec_join};
use crate::menu::{spec_command_action, spec_menu_command_kinds, CommandAction, RootKind};
use crate::state::{all_dirs, all_files, sources_all_dirs, sources_all_files, PickedSource, SelectionState};
use crate::text::{ascii_lowercase, ps_quote, push, push_str, same_text, spec_ascii_lowercase, spec_ps_quote};

verus! {

/// The helper verb that drops links of a kind.
pub open spec fn spec_drop_verb(kind: LinkKind) -> Seq<char> {
    match kind {
        LinkKind::Symbolic => "drop-symlink"@,
        LinkKind::RelativeSymbolic => "drop-relative-symlink"@,
        LinkKind::Junction => "drop-junction"@,
        LinkKind::HardLink => "drop-hardlink"@,
    }
}

/// The helper verb that drops links of `kind`.
pub fn drop_verb(kind: LinkKind) -> (r: &'static str)
    ensures
        r@ == spec_drop_verb(kind),
{
    match kind {
        LinkKind::Symbolic => "drop-symlink",
        LinkKind::RelativeSymbolic => "drop-relative-symlink",
        LinkKind::Junction => "drop-junction",
        LinkKind::HardLink => "drop-hardlink",
    }
}

/// The name of a link kind on the `create-links` command line.
pub open spec fn spec_link_kind_name(kind: LinkKind) -> Seq<char> {
    match kind {
        LinkKind::Symbolic => "symbolic"@,
        LinkKind::RelativeSymbolic => "relative-symbolic"@,
        LinkKind::Junction => "junction"@,
        LinkKind::HardLink => "hardlink"@,
    }
}

/// Distinct kinds have distinct names on the `create-links` command line,
/// so the kind read back from an elevated request is the kind asked for;
/// the relative symbolic kind is named as the symbolic one with
/// `relative-` in front, and the junction and hard-link kinds as their
/// drop verbs without `drop-`.
pub proof fn lemma_link_kind_names_are_distinct(a: LinkKind, b: LinkKind)
    ensures
        spec_link_kind_name(a) == spec_link_kind_name(b) ==> a == b,
        spec_link_kind_name(LinkKind::RelativeSymbolic) == "relative-"@ + spec_link_kind_name(
            LinkKind::Symbolic,
        ),
        spec_drop_verb(LinkKind::Junction) == "drop-"@ + spec_link_kind_name(LinkKind::Junction),
        spec_drop_verb(LinkKind::HardLink) == "drop-"@ + spec_link_kind_name(LinkKind::HardLink),
{
    reveal_strlit("symbolic");
    reveal_strlit("relative-symbolic");
    reveal_strlit("junction");
    reveal_strlit("hardlink");
    reveal_strlit("relative-");
    reveal_strlit("drop-");
    reveal_strlit("drop-junction");
    reveal_strlit("drop-hardlink");
    assert("drop-"@ + "junction"@ =~= "drop-junction"@);
    assert("drop-"@ + "hardlink"@ =~= "drop-hardlink"@);
    assert("relative-"@ + "symbolic"@ =~= "relative-symbolic"@);
    if a != b && spec_link_kind_name(a) == spec_link_kind_name(b) {
        let na = spec_link_kind_name(a);
        let nb = spec_link_kind_name(b);
        assert(na.len() == nb.len());
        assert(na[0] == nb[0]);
        assert(false);
    }
}

/// The name of `kind` on the `create-links` command line.
pub fn link_kind_name(kind: LinkKind) -> (r: &'static str)
    ensures
        r@ == spec_link_kind_name(kind),
{
    match kind {
        LinkKind::Symbolic => "symbolic",
        LinkKind::RelativeSymbolic => "relative-symbolic",
        LinkKind::Junction => "junction",
        LinkKind::HardLink => "hardlink",
    }
}

/// `s` in double quotes.
pub open spec fn double_quoted(s: Seq<char>) -> Seq<char> {
    seq!['"'] + s + seq!['"']
}

/// Parameters of the elevated helper that repeats a drop into `target`:
/// the drop verb, a space, and the target in double quotes.
pub fn elevated_drop_params(kind: LinkKind, target: &str) -> (r: String)
    ensures
        r@ == spec_drop_verb(kind) + seq![' '] + double_quoted(target@),
{
    let mut out = String::new();
    push_str(&mut out, drop_verb(kind));
    push(&mut out, ' ');
    push(&mut out, '"');
    push_str(&mut out, target);
    push(&mut out, '"');
    assert(out@ =~= spec_drop_verb(kind) + seq![' '] + double_quoted(target@));
    out
}

/// The ` "source"` items after the target of a `create-links` command line.
pub open spec fn quoted_items(items: Seq<Seq<char>>) -> Seq<char>
    decreases items.len(),
{
    if items.len() == 0 {
        seq![]
    } else {
        quoted_items(items.drop_last()) + seq![' '] + double_quoted(items.last())
    }
}

pub open spec fn string_views(items: Seq<String>) -> Seq<Seq<char>> {
    items.map_values(|s: String| s@)
}

/// Parameters of the elevated helper that repeats a "create links"
/// command: `create-links`, the kind, the quoted target, then each quoted
/// source, separated by spaces.
pub fn elevated_create_params(kind: LinkKind, target: &str, sources: &Vec<String>) -> (r: String)
    ensures
        r@ == "create-links "@ + spec_link_kind_name(kind) + seq![' '] + double_quoted(target@)
            + quoted_items(string_views(sources@)),
{
    let mut out = String::new();
    push_str(&mut out, "create-links ");
    push_str(&mut out, link_kind_name(kind));
    push(&mut out, ' ');
    push(&mut out, '"');
    push_str(&mut out, target);
    push(&mut out, '"');
    let ghost head = out@;
    let ghost all = string_views(sources@);
    assert(all.take(0) =~= seq![]);
    let mut i: usize = 0;
    while i < sources.len()
        invariant
            i <= sources@.len(),
            all == string_views(sources@),
            out@ == head + quoted_items(all.take(i as int)),
        decreases sources@.len() - i,
    {
        push(&mut out, ' ');
        push(&mut out, '"');
        push_str(&mut out, sources[i].as_str());
        push(&mut out, '"');
        assert(all.take(i + 1).drop_last() =~= all.take(i as int));
        assert(out@ =~= head + quoted_items(all.take(i + 1)));
        i = i + 1;
    }
    assert(all.take(sources@.len() as int) =~= all);
    assert(head =~= "create-links "@ + spec_link_kind_name(kind) + seq![' '] + double_quoted(
        target@,
    ));
    out
}

/// Whether picked sources can take a drop of `kind`: a junction needs
/// every source to be a directory, a hard link every source to be a file.
pub open spec fn drop_allowed(kind: LinkKind, sources: Seq<PickedSource>) -> bool {
    &&& !(kind == LinkKind::Junction && !all_dirs(sources))
    &&& !(kind == LinkKind::HardLink && !all_files(sources))
}

/// Refuses drops the picked sources cannot make: a junction drop needs
/// every source to be a directory, a hard-link drop every source to be a
/// file. Without a picked state nothing can be dropped.
pub fn check_drop_sources(kind: LinkKind, state: Option<&SelectionState>) -> (r: Result<
    (),
    &'static str,
>)
    ensures
        match state {
            None => r matches Err(m) && m@ == "no picked LSENext source is stored"@,
            Some(st) => if kind == LinkKind::Junction && !all_dirs(st.sources@) {
                r matches Err(m) && m@
                    == "Directory junctions can only be created from picked directory sources."@
            } else if kind == LinkKind::HardLink && !all_files(st.sources@) {
                r matches Err(m) && m@
                    == "Hard links can only be created from picked file sources."@
            } else {
                r is Ok
            },
        },
        state matches Some(st) ==> (r is Ok) == drop_allowed(kind, st.sources@),
{
    match state {
        None => Err("no picked LSENext source is stored"),
        Some(st) => {
            if kind == LinkKind::Junction && !sources_all_dirs(&st.sources) {
                return Err("Directory junctions can only be created from picked directory sources.");
            }
            if kind == LinkKind::HardLink && !sources_all_files(&st.sources) {
                return Err("Hard links can only be created from picked file sources.");
            }
            Ok(())
        },
    }
}

/// What the helper was started to do.
#[derive(Debug)]
pub enum HelperCommand {
    /// Store these paths as the picked sources.
    PickSource(Vec<String>),
    /// Drop links of `kind` to the picked sources into `target`.
    Drop { kind: LinkKind, target: Option<String> },
    Clear,
    About,
    RegisterPackage,
    PrepareMachineRegistration,
    TrustPackageCertificateMachine,
    UnregisterPackage,
}

/// What the helper does when started under one of its alias names.
#[derive(Debug, Clone, Copy, PartialEq, Eq, Structural)]
pub enum AliasAction {
    Register,
    Unregister,
}

pub open spec fn spec_alias_action(exe: Option<Seq<char>>) -> Option<AliasAction> {
    match exe {
        Some(p) => match spec_file_stem(p) {
            Some(stem) => if spec_ascii_lowercase(stem) == "lsenext-register"@ {
                Some(AliasAction::Register)
            } else if spec_ascii_lowercase(stem) == "lsenext-unregister"@ {
                Some(AliasAction::Unregister)
            } else {
                None
            },
            None => None,
        },
        None => None,
    }
}

/// The alias the helper was started under, from the path of its
/// executable: a stem of `lsenext-register` or `lsenext-unregister`, in
/// any ASCII case.
pub fn alias_action(exe: Option<&str>) -> (r: Option<AliasAction>)
    ensures
        r == spec_alias_action(
            match exe {
                Some(e) => Some(e@),
                None => None,
            },
        ),
{
    match exe {
        Some(p) => match file_stem(p) {
            Some(stem) => {
                let lower = ascii_lowercase(stem.as_str());
                if same_text(lower.as_str(), "lsenext-register") {
                    Some(AliasAction::Register)
                } else if same_text(lower.as_str(), "lsenext-unregister") {
                    Some(AliasAction::Unregister)
                } else {
                    None
                }
            },
            None => None,
        },
        None => None,
    }
}

/// The helper's usage line.
pub open spec fn usage_text() -> Seq<char> {
    "usage: lsenext-helper <pick-source|drop-symlink|drop-junction|drop-hardlink|clear|about|register-package|prepare-machine-registration|trust-package-certificate-machine|unregister-package> [paths]"@
}

/// The command word: the first argument, or nothing.
pub open spec fn command_word(args: Seq<String>) -> Seq<char> {
    if args.len() > 0 {
        args[0]@
    } else {
        seq![]
    }
}

/// A command that only a debug build of the helper carries out.
#[derive(Debug, Clone, Copy, PartialEq, Eq, Structural)]
pub enum DebugCommand {
    /// Write the diagnostics report and open it.
    Diagnostics,
    /// Start the visible repair window.
    RepairNativeMenu,
    /// Run the repair in this process.
    RepairNativeMenuRun,
}

pub open spec fn spec_debug_command(word: Seq<char>) -> Option<DebugCommand> {
    if word == "diagnostics"@ {
        Some(DebugCommand::Diagnostics)
    } else if word == "repair-native-menu"@ {
        Some(DebugCommand::RepairNativeMenu)
    } else if word == "repair-native-menu-run"@ {
        Some(DebugCommand::RepairNativeMenuRun)
    } else {
        None
    }
}

/// The debug command that the helper's arguments name, if any: a debug
/// build reads them this way before `parse_command`, which refuses these
/// words in the build that is shipped.
pub fn parse_debug_command(args: &Vec<String>) -> (r: Option<DebugCommand>)
    ensures
        r == spec_debug_command(command_word(args@)),
{
    let word: &str = if args.len() > 0 {
        args[0].as_str()
    } else {
        ""
    };
    proof {
        reveal_strlit("");
    }
    assert(word@ == command_word(args@));
    if same_text(word, "diagnostics") {
        Some(DebugCommand::Diagnostics)
    } else if same_text(word, "repair-native-menu") {
        Some(DebugCommand::RepairNativeMenu)
    } else if same_text(word, "repair-native-menu-run") {
        Some(DebugCommand::RepairNativeMenuRun)
    } else {
        None
    }
}

/// Reads the helper's arguments (without the program name). Without a
/// command word the alias decides; otherwise the word names the command.
/// `pick-source` needs at least one path; the drops take an optional
/// target; debug-only and unknown words are refused.
pub fn parse_command(args: &Vec<String>, alias: Option<AliasAction>) -> (r: Result<
    HelperCommand,
    &'static str,
>)
    ensures
        (command_word(args@).len() == 0 && alias == Some(AliasAction::Register)) ==> (r matches Ok( HelperCommand::RegisterPackage, )),
        (command_word(args@).len() == 0 && alias == Some(AliasAction::Unregister)) ==> (r matches Ok( HelperCommand::UnregisterPackage, )),
        (command_word(args@).len() == 0 && alias is None) ==> (r matches Err(m) && m@ == usage_text()),
        command_word(args@) == "pick-source"@ ==> picked_parsed(r, args@),
        drop_word_kind(command_word(args@)) matches Some(kind) ==> drop_parsed(r, kind, args@),
        command_word(args@) == "clear"@ ==> (r matches Ok(HelperCommand::Clear)),
        command_word(args@) == "about"@ ==> (r matches Ok(HelperCommand::About)),
        command_word(args@) == "diagnostics"@ ==> (r matches Err(m) && m@ == "LSENext diagnostics are only available in debug builds"@),
        (command_word(args@) == "repair-native-menu"@ || command_word(args@) == "repair-native-menu-run"@) ==> (r matches Err(m) && m@ == "LSENext repair is only available in debug builds"@),
        command_word(args@) == "register-package"@ ==> (r matches Ok(HelperCommand::RegisterPackage)),
        command_word(args@) == "prepare-machine-registration"@ ==> (r matches Ok( HelperCommand::PrepareMachineRegistration, )),
        command_word(args@) == "trust-package-certificate-machine"@ ==> (r matches Ok( HelperCommand::TrustPackageCertificateMachine, )),
        command_word(args@) == "unregister-package"@ ==> (r matches Ok(HelperCommand::UnregisterPackage)),
        (command_word(args@).len() > 0 && !known_word(command_word(args@))) ==> (r matches Err(m) && m@ == usage_text()),
{
    let word: &str = if args.len() > 0 {
        args[0].as_str()
    } else {
        ""
    };
    proof {
        reveal_strlit("");
        reveal_strlit("pick-source");
        reveal_strlit("drop-symlink");
        reveal_strlit("drop-junction");
        reveal_strlit("drop-hardlink");
        reveal_strlit("clear");
        reveal_strlit("about");
        reveal_strlit("diagnostics");
        reveal_strlit("repair-native-menu");
        reveal_strlit("repair-native-menu-run");
        reveal_strlit("register-package");
        reveal_strlit("prepare-machine-registration");
        reveal_strlit("trust-package-certificate-machine");
        reveal_strlit("unregister-package");
        if command_word(args@).len() == 0 {
            assert(command_word(args@) =~= ""@);
        }
        assert("pick-source"@[0] != "diagnostics"@[0]);
        assert("drop-junction"@[5] != "drop-hardlink"@[5]);
        assert("clear"@[0] != "about"@[0]);
        assert("repair-native-menu"@[0] != "unregister-package"@[0]);
    }
    assert(word@ == command_word(args@));
    if same_text(word, "") {
        match alias {
            Some(AliasAction::Register) => {
                return Ok(HelperCommand::RegisterPackage);
            },
            Some(AliasAction::Unregister) => {
                return Ok(HelperCommand::UnregisterPackage);
            },
            None => {},
        }
    }
    if same_text(word, "pick-source") {
        if args.len() <= 1 {
            return Err("at least one source path is required");
        }
        let mut paths: Vec<String> = Vec::new();
        let mut i: usize = 1;
        while i < args.len()
            invariant
                1 <= i <= args@.len(),
                string_views(paths@) == string_views(args@.subrange(1, i as int)),
            decreases args@.len() - i,
        {
            paths.push(args[i].clone());
            assert(string_views(args@.subrange(1, i + 1)) =~= string_views(
                args@.subrange(1, i as int),
            ).push(args@[i as int]@));
            i = i + 1;
        }
        assert(args@.subrange(1, args@.len() as int) =~= args@.skip(1));
        Ok(HelperCommand::PickSource(paths))
    } else if same_text(word, "drop-symlink") {
        Ok(HelperCommand::Drop { kind: LinkKind::Symbolic, target: second_arg(args) })
    } else if same_text(word, "drop-junction") {
        Ok(HelperCommand::Drop { kind: LinkKind::Junction, target: second_arg(args) })
    } else if same_text(word, "drop-hardlink") {
        Ok(HelperCommand::Drop { kind: LinkKind::HardLink, target: second_arg(args) })
    } else if same_text(word, "clear") {
        Ok(HelperCommand::Clear)
    } else if same_text(word, "about") {
        Ok(HelperCommand::About)
    } else if same_text(word, "diagnostics") {
        Err("LSENext diagnostics are only available in debug builds")
    } else if same_text(word, "repair-native-menu") || same_text(word, "repair-native-menu-run") {
        Err("LSENext repair is only available in debug builds")
    } else if same_text(word, "register-package") {
        Ok(HelperCommand::RegisterPackage)
    } else if same_text(word, "prepare-machine-registration") {
        Ok(HelperCommand::PrepareMachineRegistration)
    } else if same_text(word, "trust-package-certificate-machine") {
        Ok(HelperCommand::TrustPackageCertificateMachine)
    } else if same_text(word, "unregister-package") {
        Ok(HelperCommand::UnregisterPackage)
    } else {
        Err("usage: lsenext-helper <pick-source|drop-symlink|drop-junction|drop-hardlink|clear|about|register-package|prepare-machine-registration|trust-package-certificate-machine|unregister-package> [paths]")
    }
}

/// `r` picks the arguments after the command word, or refuses when there are none.
pub open spec fn picked_parsed(r: Result<HelperCommand, &'static str>, args: Seq<String>) -> bool {
    if args.len() > 1 {
        r matches Ok(HelperCommand::PickSource(paths)) && string_views(paths@) == string_views(
            args.skip(1),
        )
    } else {
        r matches Err(m) && m@ == "at least one source path is required"@
    }
}

/// What the menu offers, the helper carries out: every drop command a
/// menu root lists for a picked state passes the helper's source checks.
pub proof fn lemma_offered_drops_pass_checks(root: RootKind, st: SelectionState, i: int)
    requires
        0 <= i < spec_menu_command_kinds(root, Some(st)).len(),
    ensures
        spec_command_action(spec_menu_command_kinds(root, Some(st))[i]) matches CommandAction::DropLinks(
            kind,
        ) ==> drop_allowed(kind, st.sources@),
{
}

/// The kind of link a drop word asks for: `drop-symlink`, `drop-junction`
/// and `drop-hardlink` are the drops the helper carries out.
pub open spec fn drop_word_kind(w: Seq<char>) -> Option<LinkKind> {
    if w == "drop-symlink"@ {
        Some(LinkKind::Symbolic)
    } else if w == "drop-junction"@ {
        Some(LinkKind::Junction)
    } else if w == "drop-hardlink"@ {
        Some(LinkKind::HardLink)
    } else {
        None
    }
}

/// An elevated retry of a drop is understood by the helper: the verb that
/// `elevated_drop_params` puts first is a drop word of the same kind, for
/// every kind but relative symbolic links, whose verb the helper does not know.
pub proof fn lemma_elevated_drop_verb_is_understood(kind: LinkKind)
    ensures
        kind != LinkKind::RelativeSymbolic ==> drop_word_kind(spec_drop_verb(kind)) == Some(kind),
        kind == LinkKind::RelativeSymbolic ==> drop_word_kind(spec_drop_verb(kind)) is None
            && !known_word(spec_drop_verb(kind)),
{
    reveal_strlit("drop-symlink");
    reveal_strlit("drop-junction");
    reveal_strlit("drop-hardlink");
    reveal_strlit("drop-relative-symlink");
    reveal_strlit("pick-source");
    reveal_strlit("clear");
    reveal_strlit("about");
    reveal_strlit("diagnostics");
    reveal_strlit("repair-native-menu");
    reveal_strlit("repair-native-menu-run");
    reveal_strlit("register-package");
    reveal_strlit("prepare-machine-registration");
    reveal_strlit("trust-package-certificate-machine");
    reveal_strlit("unregister-package");
    assert("drop-junction"@[5] != "drop-hardlink"@[5]);
    assert("drop-relative-symlink"@[5] != "drop-symlink"@[5] || "drop-relative-symlink"@.len()
        != "drop-symlink"@.len());
}

/// The words the helper knows.
pub open spec fn known_word(w: Seq<char>) -> bool {
    ||| w == "pick-source"@
    ||| w == "drop-symlink"@
    ||| w == "drop-junction"@
    ||| w == "drop-hardlink"@
    ||| w == "clear"@
    ||| w == "about"@
    ||| w == "diagnostics"@
    ||| w == "repair-native-menu"@
    ||| w == "repair-native-menu-run"@
    ||| w == "register-package"@
    ||| w == "prepare-machine-registration"@
    ||| w == "trust-package-certificate-machine"@
    ||| w == "unregister-package"@
}

/// `r` is a drop of `kind` into the second argument, if there is one.
pub open spec fn drop_parsed(r: Result<HelperCommand, &'static str>, kind: LinkKind, args: Seq<String>) -> bool {
    r matches Ok(HelperCommand::Drop { kind: k, target }) && k == kind && if args.len() > 1 {
        target matches Some(t) && t@ == args[1]@
    } else {
        target is None
    }
}

fn second_arg(args: &Vec<String>) -> (r: Option<String>)
    ensures
        if args@.len() > 1 {
            r matches Some(t) && t@ == args@[1]@
        } else {
            r is None
        },
{
    if args.len() > 1 {
        Some(args[1].clone())
    } else {
        None
    }
}

/// PowerShell that removes the package identity, if it is registered.
pub const UNREGISTER_PACKAGE_IDENTITY_SCRIPT: &'static str = "$package = Get-AppxPackage -Name Sunnylin.LSENext; if ($package) { Remove-AppxPackage -Package $package.PackageFullName }";

/// PowerShell that removes every classic Explorer menu registration, for
/// the current user and for the machine.
pub const CLEANUP_CLASSIC_CONTEXT_MENU_SCRIPT: &'static str = "\n$paths = @(\n  \"HKCU:\\Software\\Classes\\*\\shell\\LSENext\",\n  \"HKCU:\\Software\\Classes\\Directory\\shell\\LSENext\",\n  \"HKCU:\\Software\\Classes\\Directory\\Background\\shell\\LSENext\",\n  \"HKCU:\\Software\\Microsoft\\Windows\\CurrentVersion\\Explorer\\CommandStore\\shell\\LSENext.PickSource\",\n  \"HKCU:\\Software\\Microsoft\\Windows\\CurrentVersion\\Explorer\\CommandStore\\shell\\LSENext.DropSymbolic\",\n  \"HKCU:\\Software\\Microsoft\\Windows\\CurrentVersion\\Explorer\\CommandStore\\shell\\LSENext.DropJunction\",\n  \"HKCU:\\Software\\Microsoft\\Windows\\CurrentVersion\\Explorer\\CommandStore\\shell\\LSENext.DropHardLink\",\n  \"HKCU:\\Software\\Microsoft\\Windows\\CurrentVersion\\Explorer\\CommandStore\\shell\\LSENext.BackgroundDropSymbolic\",\n  \"HKCU:\\Software\\Microsoft\\Windows\\CurrentVersion\\Explorer\\CommandStore\\shell\\LSENext.BackgroundDropJunction\",\n  \"HKCU:\\Software\\Microsoft\\Windows\\CurrentVersion\\Explorer\\CommandStore\\shell\\LSENext.BackgroundDropHardLink\",\n  \"HKCU:\\Software\\Microsoft\\Windows\\CurrentVersion\\Explorer\\CommandStore\\shell\\LSENext.ClearSource\",\n  \"HKLM:\\Software\\Classes\\*\\shell\\LSENext\",\n  \"HKLM:\\Software\\Classes\\Directory\\shell\\LSENext\",\n  \"HKLM:\\Software\\Classes\\Directory\\Background\\shell\\LSENext\",\n  \"HKLM:\\Software\\Microsoft\\Windows\\CurrentVersion\\Explorer\\CommandStore\\shell\\LSENext.PickSource\",\n  \"HKLM:\\Software\\Microsoft\\Windows\\CurrentVersion\\Explorer\\CommandStore\\shell\\LSENext.DropSymbolic\",\n  \"HKLM:\\Software\\Microsoft\\Windows\\CurrentVersion\\Explorer\\CommandStore\\shell\\LSENext.DropJunction\",\n  \"HKLM:\\Software\\Microsoft\\Windows\\CurrentVersion\\Explorer\\CommandStore\\shell\\LSENext.DropHardLink\",\n  \"HKLM:\\Software\\Microsoft\\Windows\\CurrentVersion\\Explorer\\CommandStore\\shell\\LSENext.BackgroundDropSymbolic\",\n  \"HKLM:\\Software\\Microsoft\\Windows\\CurrentVersion\\Explorer\\CommandStore\\shell\\LSENext.BackgroundDropJunction\",\n  \"HKLM:\\Software\\Microsoft\\Windows\\CurrentVersion\\Explorer\\CommandStore\\shell\\LSENext.BackgroundDropHardLink\",\n  \"HKLM:\\Software\\Microsoft\\Windows\\CurrentVersion\\Explorer\\CommandStore\\shell\\LSENext.ClearSource\"\n)\nforeach ($path in $paths) {\n  if (Test-Path -LiteralPath $path) {\n    Remove-Item -LiteralPath $path -Recurse -Force -ErrorAction SilentlyContinue\n  }\n}\n";

/// The script that unregisters the package identity.
pub fn unregister_package_identity_script() -> (r: &'static str)
    ensures
        r@ == UNREGISTER_PACKAGE_IDENTITY_SCRIPT@,
{
    UNREGISTER_PACKAGE_IDENTITY_SCRIPT
}

/// The script that removes the classic Explorer menu registration.
pub fn cleanup_classic_context_menu_script() -> (r: &'static str)
    ensures
        r@ == CLEANUP_CLASSIC_CONTEXT_MENU_SCRIPT@,
{
    CLEANUP_CLASSIC_CONTEXT_MENU_SCRIPT
}

/// The package identity file of an installation.
pub fn package_file(install_root: &str) -> (r: String)
    ensures
        r@ == spec_join(install_root@, "LSENext.identity.msix"@),
{
    join(install_root, "LSENext.identity.msix")
}

/// The package certificate of an installation.
pub fn certificate_file(install_root: &str) -> (r: String)
    ensures
        r@ == spec_join(install_root@, "LSENext.cer"@),
{
    join(install_root, "LSENext.cer")
}

/// PowerShell that trusts the certificate at `certificate` in two stores
/// of `scope` (`CurrentUser` or `LocalMachine`): `Root` and `TrustedPeople`.
pub open spec fn spec_trust_script(certificate: Seq<char>, scope: Seq<char>) -> Seq<char> {
    "Import-Certificate -FilePath "@ + spec_ps_quote(certificate) + " -CertStoreLocation Cert:\\"@
        + scope + "\\Root | Out-Null; Import-Certificate -FilePath "@ + spec_ps_quote(certificate)
        + " -CertStoreLocation Cert:\\"@ + scope + "\\TrustedPeople | Out-Null"@
}

fn trust_script(certificate: &str, scope: &str) -> (r: String)
    ensures
        r@ == spec_trust_script(certificate@, scope@),
{
    let quoted = ps_quote(certificate);
    let mut out = String::new();
    push_str(&mut out, "Import-Certificate -FilePath ");
    push_str(&mut out, quoted.as_str());
    push_str(&mut out, " -CertStoreLocation Cert:\\");
    push_str(&mut out, scope);
    push_str(&mut out, "\\Root | Out-Null; Import-Certificate -FilePath ");
    push_str(&mut out, quoted.as_str());
    push_str(&mut out, " -CertStoreLocation Cert:\\");
    push_str(&mut out, scope);
    push_str(&mut out, "\\TrustedPeople | Out-Null");
    assert(out@ =~= spec_trust_script(certificate@, scope@));
    out
}

/// PowerShell that trusts the package certificate for the current user.
pub fn user_certificate_trust_script(certificate: &str) -> (r: String)
    ensures
        r@ == spec_trust_script(certificate@, "CurrentUser"@),
{
    trust_script(certificate, "CurrentUser")
}

/// PowerShell that trusts the package certificate machine-wide.
pub fn machine_certificate_trust_script(certificate: &str) -> (r: String)
    ensures
        r@ == spec_trust_script(certificate@, "LocalMachine"@),
{
    trust_script(certificate, "LocalMachine")
}

/// PowerShell that registers the package identity at `package`, with the
/// installation at `install_root` as its external location.
pub open spec fn spec_add_package_script(package: Seq<char>, install_root: Seq<char>) -> Seq<char> {
    "Add-AppxPackage -Path "@ + spec_ps_quote(package) + " -ExternalLocation "@
        + spec_ps_quote(install_root) + " -ForceApplicationShutdown -ForceUpdateFromAnyVersion"@
}

/// PowerShell that registers the package identity at `package`, with the
/// installation at `install_root` as its external location.
pub fn add_package_script(package: &str, install_root: &str) -> (r: String)
    ensures
        r@ == spec_add_package_script(package@, install_root@),
{
    let mut out = String::new();
    push_str(&mut out, "Add-AppxPackage -Path ");
    let p = ps_quote(package);
    push_str(&mut out, p.as_str());
    push_str(&mut out, " -ExternalLocation ");
    let q = ps_quote(install_root);
    push_str(&mut out, q.as_str());
    push_str(&mut out, " -ForceApplicationShutdown -ForceUpdateFromAnyVersion");
    assert(out@ =~= spec_add_package_script(package@, install_root@));
    out
}

/// The text of the "about" box.
pub fn about_text() -> (r: &'static str)
    ensures
        r@ == "LSENext 0.1.0\nQuick symbolic, hard link, and directory junction creation."@,
{
    "LSENext 0.1.0\nQuick symbolic, hard link, and directory junction creation."
}

} // verus!
