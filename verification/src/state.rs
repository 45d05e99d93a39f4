//! The picked-source state that survives between Explorer invocations, the
//! file it lives in, and the classic Explorer menu registration it drives.

use vstd::prelude::*;
use crate::path::{join, spec_join};
use crate::text::{decimal, join_strs, join_with, push_str, spec_decimal, views_of};

verus! {

/// One picked link source: where it is and whether it is a directory.
#[derive(Debug, Clone, PartialEq, Eq)]
pub struct PickedSource {
    pub path: String,
    pub is_dir: bool,
}

/// The sources picked last, and when they were picked (seconds since the Unix epoch).
#[derive(Debug, Clone, PartialEq, Eq)]
pub struct SelectionState {
    pub picked_at_unix: u64,
    pub sources: Vec<PickedSource>,
}

/// Why the state could not be read, written or acted on.
#[derive(Debug)]
pub enum StateError {
    MissingLocalAppData,
    MissingSource(String),
    Io { path: String, detail: String },
    Json(String),
    Registry { operation: &'static str, code: u32 },
}

/// What the file system said about a path.
#[derive(Debug, Clone)]
pub enum PathProbe {
    /// Its metadata could not be read; the error text.
    Unreadable(String),
    Readable { is_file: bool, is_dir: bool },
}

/// What removing the state file came to.
#[derive(Debug, Clone)]
pub enum FileRemoval {
    Removed,
    NotFound,
    Failed(String),
}

/// The per-user directory of the application, below the local application data directory.
pub open spec fn app_dir(local_app_data: Seq<char>) -> Seq<char> {
    spec_join(local_app_data, "LSENext"@)
}

/// Where the picked state is kept, given the `LOCALAPPDATA` variable:
/// `LSENext\state.json` below it.
pub fn state_file(local_app_data: Option<&str>) -> (r: Result<String, StateError>)
    ensures
        match local_app_data {
            None => r matches Err(StateError::MissingLocalAppData),
            Some(base) => r matches Ok(p) && p@ == spec_join(app_dir(base@), "state.json"@),
        },
{
    match local_app_data {
        None => Err(StateError::MissingLocalAppData),
        Some(base) => {
            let dir = join(base, "LSENext");
            Ok(join(dir.as_str(), "state.json"))
        },
    }
}

/// A probe that shows a file or a directory.
pub open spec fn probe_found(p: PathProbe) -> bool {
    p matches PathProbe::Readable { is_file, is_dir } && (is_file || is_dir)
}

pub open spec fn probe_is_dir(p: PathProbe) -> bool {
    p matches PathProbe::Readable { is_dir, .. } && is_dir
}

/// The error that a bad probe of `path` stands for.
pub open spec fn probe_error_matches(p: PathProbe, path: Seq<char>, e: StateError) -> bool {
    match p {
        PathProbe::Unreadable(d) => e matches StateError::Io { path: ep, detail } && ep@ == path
            && detail@ == d@,
        PathProbe::Readable { .. } => e matches StateError::MissingSource(ep) && ep@ == path,
    }
}

/// Turns picked paths and what the file system said of each into picked
/// sources. The first path that cannot be read, or that is neither a file
/// nor a directory, fails the whole pick.
pub fn collect_sources(paths: &Vec<String>, probes: &Vec<PathProbe>) -> (r: Result<
    Vec<PickedSource>,
    StateError,
>)
    requires
        paths@.len() == probes@.len(),
    ensures
        (r is Ok) == (forall|i: int| 0 <= i < probes@.len() ==> probe_found(#[trigger] probes@[i])),
        r matches Ok(v) ==> {
            &&& v@.len() == paths@.len()
            &&& forall|i: int|
                0 <= i < v@.len() ==> (#[trigger] v@[i]).path@ == paths@[i]@ && v@[i].is_dir
                    == probe_is_dir(probes@[i])
        },
        forall|i: int|
            0 <= i < probes@.len() && !probe_found(#[trigger] probes@[i]) && (forall|j: int|
                0 <= j < i ==> probe_found(probes@[j])) ==> (r matches Err(e)
                && probe_error_matches(probes@[i], paths@[i]@, e)),
{
    let mut sources: Vec<PickedSource> = Vec::new();
    let mut i: usize = 0;
    while i < paths.len()
        invariant
            i <= paths@.len() == probes@.len(),
            forall|j: int| 0 <= j < i ==> probe_found(#[trigger] probes@[j]),
            sources@.len() == i,
            forall|j: int|
                0 <= j < i ==> (#[trigger] sources@[j]).path@ == paths@[j]@ && sources@[j].is_dir
                    == probe_is_dir(probes@[j]),
        decreases paths@.len() - i,
    {
        match &probes[i] {
            PathProbe::Unreadable(detail) => {
                return Err(StateError::Io { path: paths[i].clone(), detail: detail.clone() });
            },
            PathProbe::Readable { is_file, is_dir } => {
                if !*is_file && !*is_dir {
                    return Err(StateError::MissingSource(paths[i].clone()));
                }
                sources.push(PickedSource { path: paths[i].clone(), is_dir: *is_dir });
            },
        }
        i = i + 1;
    }
    Ok(sources)
}

/// Checks that a drop target is a directory, from what the file system said of it.
pub fn validate_target_dir(path: &str, probe: &PathProbe) -> (r: Result<(), StateError>)
    ensures
        probe_is_dir(*probe) ==> r is Ok,
        !probe_is_dir(*probe) ==> (r matches Err(e) && probe_error_matches(*probe, path@, e)),
{
    match probe {
        PathProbe::Unreadable(detail) => Err(
            StateError::Io { path: path.to_string(), detail: detail.clone() },
        ),
        PathProbe::Readable { is_dir, .. } => {
            if *is_dir {
                Ok(())
            } else {
                Err(StateError::MissingSource(path.to_string()))
            }
        },
    }
}

/// Whether a removal of the state file leaves the state cleared: it was
/// removed, or it was not there.
pub open spec fn removal_settles(removal: FileRemoval) -> bool {
    !(removal is Failed)
}

/// Whether `removal` is an outcome that removing the state file can have
/// when the file is `present` or not: only a present file can be removed,
/// only an absent one can be not found, and any removal can fail.
pub open spec fn removal_possible(present: bool, removal: FileRemoval) -> bool {
    match removal {
        FileRemoval::Removed => present,
        FileRemoval::NotFound => !present,
        FileRemoval::Failed(_) => true,
    }
}

/// Whether the state file is there after a removal that came to `removal`.
pub open spec fn present_after(present: bool, removal: FileRemoval) -> bool {
    match removal {
        FileRemoval::Failed(_) => present,
        _ => false,
    }
}

/// Clearing the state succeeds whether the file was removed or was already
/// gone; after a clear that succeeded the file is gone, so the next clear
/// finds it gone and succeeds too, unless that removal fails outright.
pub proof fn lemma_clear_twice(present: bool, first: FileRemoval, second: FileRemoval)
    requires
        removal_possible(present, first),
        removal_settles(first),
        removal_possible(present_after(present, first), second),
        !(second is Failed),
    ensures
        removal_settles(FileRemoval::Removed),
        removal_settles(FileRemoval::NotFound),
        !present_after(present, first),
        second is NotFound,
        removal_settles(second),
        !present_after(present_after(present, first), second),
{
}

/// What removing the state file at `path` means for clearing the state: a
/// file that was already gone is as good as a removed one.
pub fn settle_state_removal(path: &str, removal: &FileRemoval) -> (r: Result<(), StateError>)
    ensures
        r is Ok <==> removal_settles(*removal),
        match removal {
            FileRemoval::Failed(d) => r matches Err(StateError::Io { path: p, detail }) && p@
                == path@ && detail@ == d@,
            _ => r is Ok,
        },
{
    match removal {
        FileRemoval::Failed(detail) => Err(
            StateError::Io { path: path.to_string(), detail: detail.clone() },
        ),
        _ => Ok(()),
    }
}

/// Every picked source is a directory (vacuously so for none).
pub open spec fn all_dirs(sources: Seq<PickedSource>) -> bool {
    forall|i: int| 0 <= i < sources.len() ==> (#[trigger] sources[i]).is_dir
}

/// Every picked source is a file (vacuously so for none).
pub open spec fn all_files(sources: Seq<PickedSource>) -> bool {
    forall|i: int| 0 <= i < sources.len() ==> !(#[trigger] sources[i]).is_dir
}

/// Whether every source is a directory.
pub fn sources_all_dirs(sources: &Vec<PickedSource>) -> (r: bool)
    ensures
        r == all_dirs(sources@),
{
    let mut i: usize = 0;
    while i < sources.len()
        invariant
            i <= sources@.len(),
            forall|j: int| 0 <= j < i ==> (#[trigger] sources@[j]).is_dir,
        decreases sources@.len() - i,
    {
        if !sources[i].is_dir {
            return false;
        }
        i = i + 1;
    }
    true
}

/// Whether every source is a file.
pub fn sources_all_files(sources: &Vec<PickedSource>) -> (r: bool)
    ensures
        r == all_files(sources@),
{
    let mut i: usize = 0;
    while i < sources.len()
        invariant
            i <= sources@.len(),
            forall|j: int| 0 <= j < i ==> !(#[trigger] sources@[j]).is_dir,
        decreases sources@.len() - i,
    {
        if sources[i].is_dir {
            return false;
        }
        i = i + 1;
    }
    true
}

pub open spec fn pick_source_verb() -> Seq<char> {
    "LSENext.PickSource"@
}

pub open spec fn drop_symbolic_verb() -> Seq<char> {
    "LSENext.DropSymbolic"@
}

pub open spec fn drop_junction_verb() -> Seq<char> {
    "LSENext.DropJunction"@
}

pub open spec fn drop_hardlink_verb() -> Seq<char> {
    "LSENext.DropHardLink"@
}

pub open spec fn background_drop_symbolic_verb() -> Seq<char> {
    "LSENext.BackgroundDropSymbolic"@
}

pub open spec fn background_drop_junction_verb() -> Seq<char> {
    "LSENext.BackgroundDropJunction"@
}

pub open spec fn background_drop_hardlink_verb() -> Seq<char> {
    "LSENext.BackgroundDropHardLink"@
}

pub open spec fn clear_source_verb() -> Seq<char> {
    "LSENext.ClearSource"@
}

pub open spec fn owned(state: Option<&SelectionState>) -> Option<SelectionState> {
    match state {
        Some(s) => Some(*s),
        None => None,
    }
}

/// The classic menu verbs for a file or directory: picking always; with a
/// picked state, dropping a symbolic link, a junction when every source is
/// a directory or else a hard link when every source is a file, and clearing.
pub open spec fn directory_verbs(state: Option<SelectionState>) -> Seq<Seq<char>> {
    match state {
        None => seq![pick_source_verb()],
        Some(st) => if all_dirs(st.sources@) {
            seq![pick_source_verb(), drop_symbolic_verb(), drop_junction_verb(), clear_source_verb()]
        } else if all_files(st.sources@) {
            seq![pick_source_verb(), drop_symbolic_verb(), drop_hardlink_verb(), clear_source_verb()]
        } else {
            seq![pick_source_verb(), drop_symbolic_verb(), clear_source_verb()]
        },
    }
}

/// The classic menu verbs for a folder background: the same drops as
/// `directory_verbs`, and clearing; only clearing without a picked state.
pub open spec fn background_verbs(state: Option<SelectionState>) -> Seq<Seq<char>> {
    match state {
        None => seq![clear_source_verb()],
        Some(st) => if all_dirs(st.sources@) {
            seq![
                background_drop_symbolic_verb(),
                background_drop_junction_verb(),
                clear_source_verb(),
            ]
        } else if all_files(st.sources@) {
            seq![
                background_drop_symbolic_verb(),
                background_drop_hardlink_verb(),
                clear_source_verb(),
            ]
        } else {
            seq![background_drop_symbolic_verb(), clear_source_verb()]
        },
    }
}

/// The `;`-separated subcommand lists of the classic menu, for files and
/// directories and for folder backgrounds.
pub fn menu_subcommands(state: Option<&SelectionState>) -> (r: (String, String))
    ensures
        r.0@ == join_with(directory_verbs(owned(state)), ';'),
        r.1@ == join_with(background_verbs(owned(state)), ';'),
{
    let (can_junction, can_hardlink, has_state) = match state {
        Some(st) => (sources_all_dirs(&st.sources), sources_all_files(&st.sources), true),
        None => (false, false, false),
    };
    let directory: Vec<&str> = if has_state && can_junction {
        vec!["LSENext.PickSource", "LSENext.DropSymbolic", "LSENext.DropJunction", "LSENext.ClearSource"]
    } else if has_state && can_hardlink {
        vec!["LSENext.PickSource", "LSENext.DropSymbolic", "LSENext.DropHardLink", "LSENext.ClearSource"]
    } else if has_state {
        vec!["LSENext.PickSource", "LSENext.DropSymbolic", "LSENext.ClearSource"]
    } else {
        vec!["LSENext.PickSource"]
    };
    let background: Vec<&str> = if has_state && can_junction {
        vec!["LSENext.BackgroundDropSymbolic", "LSENext.BackgroundDropJunction", "LSENext.ClearSource"]
    } else if has_state && can_hardlink {
        vec!["LSENext.BackgroundDropSymbolic", "LSENext.BackgroundDropHardLink", "LSENext.ClearSource"]
    } else if has_state {
        vec!["LSENext.BackgroundDropSymbolic", "LSENext.ClearSource"]
    } else {
        vec!["LSENext.ClearSource"]
    };
    assert(views_of(directory@) =~= directory_verbs(owned(state)));
    assert(views_of(background@) =~= background_verbs(owned(state)));
    (join_strs(&directory, ';'), join_strs(&background, ';'))
}

/// The next thing to do while removing the classic Explorer menu
/// registration (the current-user keys of `classic_menu_keys`, deleted in
/// order), given the result codes of the deletions done so far.
pub enum MenuSyncStep {
    /// Delete this registry tree below `HKEY_CURRENT_USER`.
    DeleteTree(String),
    Done,
    Failed(StateError),
}

pub open spec fn classic_menu_keys() -> Seq<Seq<char>> {
    seq![
        "Software\\Classes\\*\\shell\\LSENext"@,
        "Software\\Classes\\Directory\\shell\\LSENext"@,
        "Software\\Classes\\Directory\\Background\\shell\\LSENext"@,
    ]
}

/// A registry tree deletion that succeeded, or found nothing to delete.
pub open spec fn deletion_ok(code: u32) -> bool {
    code == 0 || code == 2
}

/// Brings the classic Explorer menu in line with the picked state: the
/// classic registration is removed whatever the state, one key after the
/// other, stopping at the first deletion that fails.
pub fn sync_explorer_menu(state: Option<&SelectionState>, results: &Vec<u32>) -> (r: MenuSyncStep)
    ensures
        forall|i: int|
            0 <= i < results@.len() && !deletion_ok(#[trigger] results@[i]) && (forall|j: int|
                0 <= j < i ==> deletion_ok(results@[j])) ==> (r matches MenuSyncStep::Failed(
                StateError::Registry { operation, code },
            ) && code == results@[i] && operation@ == "deleting HKCU classic menu key"@),
        (forall|i: int| 0 <= i < results@.len() ==> deletion_ok(#[trigger] results@[i]))
            ==> if results@.len() < 3 {
            r matches MenuSyncStep::DeleteTree(k) && k@ == classic_menu_keys()[results@.len() as int]
        } else {
            r is Done
        },
{
    let mut i: usize = 0;
    while i < results.len()
        invariant
            i <= results@.len(),
            forall|j: int| 0 <= j < i ==> deletion_ok(#[trigger] results@[j]),
        decreases results@.len() - i,
    {
        let code = results[i];
        if code != 0 && code != 2 {
            return MenuSyncStep::Failed(
                StateError::Registry { operation: "deleting HKCU classic menu key", code },
            );
        }
        i = i + 1;
    }
    if results.len() == 0 {
        MenuSyncStep::DeleteTree("Software\\Classes\\*\\shell\\LSENext".to_string())
    } else if results.len() == 1 {
        MenuSyncStep::DeleteTree("Software\\Classes\\Directory\\shell\\LSENext".to_string())
    } else if results.len() == 2 {
        MenuSyncStep::DeleteTree(
            "Software\\Classes\\Directory\\Background\\shell\\LSENext".to_string(),
        )
    } else {
        MenuSyncStep::Done
    }
}

impl StateError {
    /// The text of the error, as it is shown to the user.
    pub fn message(&self) -> (r: String)
        ensures
            r@ == match self {
                StateError::MissingLocalAppData => "LOCALAPPDATA is not available"@,
                StateError::MissingSource(p) => "source does not exist: "@ + p@,
                StateError::Io { path, detail } => "failed to access path "@ + path@ + ": "@
                    + detail@,
                StateError::Json(d) => "failed to serialize state: "@ + d@,
                StateError::Registry { operation, code } =>
                    "failed to update Explorer menu registration while "@ + operation@
                    + ", Win32 error "@ + spec_decimal(*code as nat),
            },
    {
        let mut out = String::new();
        match self {
            StateError::MissingLocalAppData => {
                push_str(&mut out, "LOCALAPPDATA is not available");
            },
            StateError::MissingSource(p) => {
                push_str(&mut out, "source does not exist: ");
                push_str(&mut out, p.as_str());
            },
            StateError::Io { path, detail } => {
                push_str(&mut out, "failed to access path ");
                push_str(&mut out, path.as_str());
                push_str(&mut out, ": ");
                push_str(&mut out, detail.as_str());
            },
            StateError::Json(d) => {
                push_str(&mut out, "failed to serialize state: ");
                push_str(&mut out, d.as_str());
            },
            StateError::Registry { operation, code } => {
                push_str(&mut out, "failed to update Explorer menu registration while ");
                push_str(&mut out, operation);
                push_str(&mut out, ", Win32 error ");
                let digits = decimal(*code as u64);
                push_str(&mut out, digits.as_str());
            },
        }
        out
    }
}

} // verus!
