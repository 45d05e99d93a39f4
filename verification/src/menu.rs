//! The Explorer command tree: which commands each menu root offers, their
//! titles, class identifiers and states, what invoking each one does, and
//! the cursor of the command enumerator Explorer walks.

use vstd::prelude::*;
use crate::links::LinkKind;
use crate::path::{join, opt_view, parent, spec_join, spec_parent};
use crate::state::{
    all_dirs, all_files, directory_verbs, drop_hardlink_verb, drop_junction_verb, sources_all_dirs,
    sources_all_files, SelectionState,
};

verus! {

/// The three places Explorer shows the menu root.
#[derive(Debug, Clone, Copy, PartialEq, Eq, Structural)]
pub enum RootKind {
    File,
    Directory,
    Background,
}

/// The commands below a menu root.
#[derive(Debug, Clone, Copy, PartialEq, Eq, Structural)]
pub enum CommandKind {
    PickSource,
    DropSymbolic,
    DropRelativeSymbolic,
    DropJunction,
    DropHardLink,
    CreateSymbolic,
    CreateRelativeSymbolic,
    CreateJunction,
    CreateHardLink,
    ClearSource,
}

/// The commands a root offers. A file root offers picking and the four
/// "create links" commands. A directory root offers picking and, with a
/// picked state, the drops and clearing; a background root the same
/// without picking. A junction drop needs every source to be a directory,
/// a hard-link drop every source to be a file.
pub open spec fn spec_menu_command_kinds(root: RootKind, state: Option<SelectionState>) -> Seq<
    CommandKind,
> {
    let base: Seq<CommandKind> = if root == RootKind::Background {
        seq![]
    } else {
        seq![CommandKind::PickSource]
    };
    if root == RootKind::File {
        base + seq![
            CommandKind::CreateSymbolic,
            CommandKind::CreateRelativeSymbolic,
            CommandKind::CreateJunction,
            CommandKind::CreateHardLink,
        ]
    } else {
        match state {
            None => base,
            Some(st) => base + seq![CommandKind::DropSymbolic, CommandKind::DropRelativeSymbolic]
                + (if all_dirs(st.sources@) {
                seq![CommandKind::DropJunction]
            } else {
                seq![]
            }) + (if all_files(st.sources@) {
                seq![CommandKind::DropHardLink]
            } else {
                seq![]
            }) + seq![CommandKind::ClearSource],
        }
    }
}

/// The commands shown below `root_kind`, given the picked state.
pub fn menu_command_kinds(root_kind: RootKind, state: Option<SelectionState>) -> (r: Vec<
    CommandKind,
>)
    ensures
        r@ == spec_menu_command_kinds(root_kind, state),
{
    let mut commands: Vec<CommandKind> = match root_kind {
        RootKind::File | RootKind::Directory => vec![CommandKind::PickSource],
        RootKind::Background => Vec::new(),
    };
    if root_kind == RootKind::File {
        commands.push(CommandKind::CreateSymbolic);
        commands.push(CommandKind::CreateRelativeSymbolic);
        commands.push(CommandKind::CreateJunction);
        commands.push(CommandKind::CreateHardLink);
        assert(commands@ =~= spec_menu_command_kinds(root_kind, state));
        return commands;
    }
    let ghost base = commands@;
    if let Some(st) = state {
        commands.push(CommandKind::DropSymbolic);
        commands.push(CommandKind::DropRelativeSymbolic);
        let dirs = sources_all_dirs(&st.sources);
        let files = sources_all_files(&st.sources);
        if dirs {
            commands.push(CommandKind::DropJunction);
        }
        if files {
            commands.push(CommandKind::DropHardLink);
        }
        commands.push(CommandKind::ClearSource);
    }
    assert(commands@ =~= spec_menu_command_kinds(root_kind, state));
    commands
}

/// Whether a command drops links onto the picked sources or clears them.
pub open spec fn is_drop_or_clear(k: CommandKind) -> bool {
    k == CommandKind::DropSymbolic || k == CommandKind::DropRelativeSymbolic || k
        == CommandKind::DropJunction || k == CommandKind::DropHardLink || k == CommandKind::ClearSource
}

/// Whether a command creates links to the selected items.
pub open spec fn is_create(k: CommandKind) -> bool {
    k == CommandKind::CreateSymbolic || k == CommandKind::CreateRelativeSymbolic || k
        == CommandKind::CreateJunction || k == CommandKind::CreateHardLink
}

/// A file root does not look at the picked state: whatever was picked,
/// and whether anything was, it offers picking and the four "create
/// links" commands, in that order, and never a drop or clearing.
pub proof fn lemma_file_menu_ignores_state(s1: Option<SelectionState>, s2: Option<SelectionState>)
    ensures
        spec_menu_command_kinds(RootKind::File, s1) == spec_menu_command_kinds(RootKind::File, s2),
        spec_menu_command_kinds(RootKind::File, s1) == seq![
            CommandKind::PickSource,
            CommandKind::CreateSymbolic,
            CommandKind::CreateRelativeSymbolic,
            CommandKind::CreateJunction,
            CommandKind::CreateHardLink,
        ],
        forall|i: int|
            0 <= i < spec_menu_command_kinds(RootKind::File, s1).len() ==> !is_drop_or_clear(
                #[trigger] spec_menu_command_kinds(RootKind::File, s1)[i],
            ),
{
    assert(spec_menu_command_kinds(RootKind::File, s1) =~= seq![
        CommandKind::PickSource,
        CommandKind::CreateSymbolic,
        CommandKind::CreateRelativeSymbolic,
        CommandKind::CreateJunction,
        CommandKind::CreateHardLink,
    ]);
    assert(spec_menu_command_kinds(RootKind::File, s2) =~= seq![
        CommandKind::PickSource,
        CommandKind::CreateSymbolic,
        CommandKind::CreateRelativeSymbolic,
        CommandKind::CreateJunction,
        CommandKind::CreateHardLink,
    ]);
}

/// A directory or background root never offers a "create links" command,
/// and without a picked state offers nothing to drop or clear.
pub proof fn lemma_folder_menus_have_no_create(root: RootKind, state: Option<SelectionState>)
    requires
        root != RootKind::File,
    ensures
        forall|i: int|
            0 <= i < spec_menu_command_kinds(root, state).len() ==> !is_create(
                #[trigger] spec_menu_command_kinds(root, state)[i],
            ),
        state is None ==> forall|i: int|
            0 <= i < spec_menu_command_kinds(root, state).len() ==> !is_drop_or_clear(
                #[trigger] spec_menu_command_kinds(root, state)[i],
            ),
{
}

/// The "create links" commands follow the selection alone, whatever was
/// picked: a junction only when every selected item is a directory, a hard
/// link only when every one is a file (each hidden otherwise), and symbolic
/// links, relative or not, always. Picking is always enabled too.
pub proof fn lemma_create_commands_follow_selection(
    state: Option<SelectionState>,
    items_all_dirs: bool,
    items_all_files: bool,
)
    ensures
        spec_command_state(CommandKind::CreateJunction, state, items_all_dirs, items_all_files) == (
        if items_all_dirs {
            CommandState::Enabled
        } else {
            CommandState::Hidden
        }),
        spec_command_state(CommandKind::CreateHardLink, state, items_all_dirs, items_all_files) == (
        if items_all_files {
            CommandState::Enabled
        } else {
            CommandState::Hidden
        }),
        spec_command_state(CommandKind::CreateSymbolic, state, items_all_dirs, items_all_files)
            == CommandState::Enabled,
        spec_command_state(
            CommandKind::CreateRelativeSymbolic,
            state,
            items_all_dirs,
            items_all_files,
        ) == CommandState::Enabled,
        spec_command_state(CommandKind::PickSource, state, items_all_dirs, items_all_files)
            == CommandState::Enabled,
        forall|k: CommandKind, s2: Option<SelectionState>|
            is_create(k) ==> #[trigger] spec_command_state(k, state, items_all_dirs, items_all_files)
                == #[trigger] spec_command_state(k, s2, items_all_dirs, items_all_files),
{
}

/// Without a picked state nothing can be dropped or cleared: the symbolic
/// drops and clearing are disabled, the junction and hard-link drops
/// hidden, whatever is selected.
pub proof fn lemma_nothing_to_drop_without_state(items_all_dirs: bool, items_all_files: bool)
    ensures
        forall|k: CommandKind|
            is_drop_or_clear(k) ==> #[trigger] spec_command_state(
                k,
                None,
                items_all_dirs,
                items_all_files,
            ) != CommandState::Enabled,
{
}

/// A drop or clear command is listed under a directory or background root
/// exactly when its state shows it enabled.
pub proof fn lemma_listed_drops_are_enabled(
    root: RootKind,
    state: Option<SelectionState>,
    items_all_dirs: bool,
    items_all_files: bool,
)
    requires
        root != RootKind::File,
    ensures
        forall|k: CommandKind|
            (k == CommandKind::DropSymbolic || k == CommandKind::DropRelativeSymbolic || k
                == CommandKind::DropJunction || k == CommandKind::DropHardLink || k
                == CommandKind::ClearSource) ==> (spec_menu_command_kinds(root, state).contains(k)
                <==> spec_command_state(k, state, items_all_dirs, items_all_files)
                == CommandState::Enabled),
{
    let m = spec_menu_command_kinds(root, state);
    let off: int = if root == RootKind::Background { 0 } else { 1 };
    if let Some(st) = state {
        assert(m[off] == CommandKind::DropSymbolic);
        assert(m[off + 1] == CommandKind::DropRelativeSymbolic);
        assert(m.last() == CommandKind::ClearSource);
        if all_dirs(st.sources@) {
            assert(m[off + 2] == CommandKind::DropJunction);
        }
        if all_files(st.sources@) {
            if all_dirs(st.sources@) {
                assert(m[off + 3] == CommandKind::DropHardLink);
            } else {
                assert(m[off + 2] == CommandKind::DropHardLink);
            }
        }
    } else {
        assert(forall|i: int| 0 <= i < m.len() ==> m[i] == CommandKind::PickSource);
    }
}

/// The classic menu and the command tree agree: for a picked state with at
/// least one source, a directory root offers a junction drop, and a hard
/// link drop, exactly when the classic directory menu does.
pub proof fn lemma_menus_agree_on_drops(st: SelectionState)
    requires
        st.sources@.len() > 0,
    ensures
        spec_menu_command_kinds(RootKind::Directory, Some(st)).contains(CommandKind::DropJunction)
            <==> directory_verbs(Some(st)).contains(drop_junction_verb()),
        spec_menu_command_kinds(RootKind::Directory, Some(st)).contains(CommandKind::DropHardLink)
            <==> directory_verbs(Some(st)).contains(drop_hardlink_verb()),
{
    reveal_strlit("LSENext.PickSource");
    reveal_strlit("LSENext.DropSymbolic");
    reveal_strlit("LSENext.DropJunction");
    reveal_strlit("LSENext.DropHardLink");
    reveal_strlit("LSENext.ClearSource");
    let m = spec_menu_command_kinds(RootKind::Directory, Some(st));
    let v = directory_verbs(Some(st));
    let s0 = st.sources@[0];
    if all_dirs(st.sources@) {
        assert(s0.is_dir);
        assert(!all_files(st.sources@));
        assert(m[3] == CommandKind::DropJunction);
        assert(v[2] == drop_junction_verb());
        assert(forall|i: int| 0 <= i < m.len() ==> m[i] != CommandKind::DropHardLink);
        assert(forall|i: int| 0 <= i < v.len() ==> v[i] != drop_hardlink_verb()) by {
            assert(drop_hardlink_verb()[13] != drop_junction_verb()[13]);
            assert(drop_hardlink_verb().len() != "LSENext.PickSource"@.len());
            assert(drop_hardlink_verb()[12] != "LSENext.DropSymbolic"@[12]);
            assert(drop_hardlink_verb().len() != "LSENext.ClearSource"@.len());
        }
    } else if all_files(st.sources@) {
        assert(m[3] == CommandKind::DropHardLink);
        assert(v[2] == drop_hardlink_verb());
        assert(forall|i: int| 0 <= i < m.len() ==> m[i] != CommandKind::DropJunction);
        assert(forall|i: int| 0 <= i < v.len() ==> v[i] != drop_junction_verb()) by {
            assert(drop_hardlink_verb()[13] != drop_junction_verb()[13]);
            assert(drop_junction_verb().len() != "LSENext.PickSource"@.len());
            assert(drop_junction_verb()[12] != "LSENext.DropSymbolic"@[12]);
            assert(drop_junction_verb().len() != "LSENext.ClearSource"@.len());
        }
    } else {
        assert(forall|i: int| 0 <= i < m.len() ==> m[i] != CommandKind::DropJunction && m[i]
            != CommandKind::DropHardLink);
        assert(forall|i: int|
            0 <= i < v.len() ==> v[i] != drop_junction_verb() && v[i] != drop_hardlink_verb()) by {
            assert(drop_junction_verb().len() != "LSENext.PickSource"@.len());
            assert(drop_junction_verb()[12] != "LSENext.DropSymbolic"@[12]);
            assert(drop_junction_verb().len() != "LSENext.ClearSource"@.len());
            assert(drop_hardlink_verb().len() != "LSENext.PickSource"@.len());
            assert(drop_hardlink_verb()[12] != "LSENext.DropSymbolic"@[12]);
            assert(drop_hardlink_verb().len() != "LSENext.ClearSource"@.len());
        }
    }
}

/// Title shown for a command.
pub open spec fn spec_command_title(kind: CommandKind) -> Seq<char> {
    match kind {
        CommandKind::PickSource => "Pick Link Source"@,
        CommandKind::DropSymbolic => "Drop Symbolic Link"@,
        CommandKind::DropRelativeSymbolic => "Drop Relative Symbolic Link"@,
        CommandKind::DropJunction => "Drop Directory Junction"@,
        CommandKind::DropHardLink => "Drop Hard Link"@,
        CommandKind::CreateSymbolic => "Create Symbolic Links..."@,
        CommandKind::CreateRelativeSymbolic => "Create Relative Symbolic Links..."@,
        CommandKind::CreateJunction => "Create Directory Junctions..."@,
        CommandKind::CreateHardLink => "Create Hard Links..."@,
        CommandKind::ClearSource => "Clear Link Source"@,
    }
}

/// The title (and tool tip) of a command.
pub fn command_title(kind: CommandKind) -> (r: &'static str)
    ensures
        r@ == spec_command_title(kind),
{
    match kind {
        CommandKind::PickSource => "Pick Link Source",
        CommandKind::DropSymbolic => "Drop Symbolic Link",
        CommandKind::DropRelativeSymbolic => "Drop Relative Symbolic Link",
        CommandKind::DropJunction => "Drop Directory Junction",
        CommandKind::DropHardLink => "Drop Hard Link",
        CommandKind::CreateSymbolic => "Create Symbolic Links...",
        CommandKind::CreateRelativeSymbolic => "Create Relative Symbolic Links...",
        CommandKind::CreateJunction => "Create Directory Junctions...",
        CommandKind::CreateHardLink => "Create Hard Links...",
        CommandKind::ClearSource => "Clear Link Source",
    }
}

/// Title (and tool tip) of every menu root.
pub fn root_title() -> (r: &'static str)
    ensures
        r@ == "LSENext"@,
{
    "LSENext"
}

pub open spec fn spec_root_clsid(root: RootKind) -> u128 {
    match root {
        RootKind::File => 0x32ad61d5_1919_4582_95dc_d9eb0bb6e000u128,
        RootKind::Directory => 0x32ad61d5_1919_4582_95dc_d9eb0bb6e005u128,
        RootKind::Background => 0x32ad61d5_1919_4582_95dc_d9eb0bb6e006u128,
    }
}

pub open spec fn spec_command_clsid(kind: CommandKind) -> u128 {
    match kind {
        CommandKind::PickSource => 0x32ad61d5_1919_4582_95dc_d9eb0bb6e001u128,
        CommandKind::DropSymbolic => 0x32ad61d5_1919_4582_95dc_d9eb0bb6e002u128,
        CommandKind::DropRelativeSymbolic => 0x32ad61d5_1919_4582_95dc_d9eb0bb6e009u128,
        CommandKind::DropJunction => 0x32ad61d5_1919_4582_95dc_d9eb0bb6e003u128,
        CommandKind::DropHardLink => 0x32ad61d5_1919_4582_95dc_d9eb0bb6e008u128,
        CommandKind::CreateSymbolic => 0x32ad61d5_1919_4582_95dc_d9eb0bb6e00au128,
        CommandKind::CreateRelativeSymbolic => 0x32ad61d5_1919_4582_95dc_d9eb0bb6e00bu128,
        CommandKind::CreateJunction => 0x32ad61d5_1919_4582_95dc_d9eb0bb6e00cu128,
        CommandKind::CreateHardLink => 0x32ad61d5_1919_4582_95dc_d9eb0bb6e00du128,
        CommandKind::ClearSource => 0x32ad61d5_1919_4582_95dc_d9eb0bb6e004u128,
    }
}

/// The canonical name (class identifier) of a menu root.
pub fn root_clsid(root: RootKind) -> (r: u128)
    ensures
        r == spec_root_clsid(root),
{
    match root {
        RootKind::File => 0x32ad61d5_1919_4582_95dc_d9eb0bb6e000u128,
        RootKind::Directory => 0x32ad61d5_1919_4582_95dc_d9eb0bb6e005u128,
        RootKind::Background => 0x32ad61d5_1919_4582_95dc_d9eb0bb6e006u128,
    }
}

/// The canonical name (class identifier) of a command.
pub fn command_clsid(kind: CommandKind) -> (r: u128)
    ensures
        r == spec_command_clsid(kind),
{
    match kind {
        CommandKind::PickSource => 0x32ad61d5_1919_4582_95dc_d9eb0bb6e001u128,
        CommandKind::DropSymbolic => 0x32ad61d5_1919_4582_95dc_d9eb0bb6e002u128,
        CommandKind::DropRelativeSymbolic => 0x32ad61d5_1919_4582_95dc_d9eb0bb6e009u128,
        CommandKind::DropJunction => 0x32ad61d5_1919_4582_95dc_d9eb0bb6e003u128,
        CommandKind::DropHardLink => 0x32ad61d5_1919_4582_95dc_d9eb0bb6e008u128,
        CommandKind::CreateSymbolic => 0x32ad61d5_1919_4582_95dc_d9eb0bb6e00au128,
        CommandKind::CreateRelativeSymbolic => 0x32ad61d5_1919_4582_95dc_d9eb0bb6e00bu128,
        CommandKind::CreateJunction => 0x32ad61d5_1919_4582_95dc_d9eb0bb6e00cu128,
        CommandKind::CreateHardLink => 0x32ad61d5_1919_4582_95dc_d9eb0bb6e00du128,
        CommandKind::ClearSource => 0x32ad61d5_1919_4582_95dc_d9eb0bb6e004u128,
    }
}

/// What a class factory builds: a menu root or a command.
#[derive(Debug, Clone, Copy, PartialEq, Eq, Structural)]
pub enum FactoryKind {
    Root(RootKind),
    Menu(CommandKind),
}

/// The object registered under a class identifier, if any.
pub open spec fn spec_factory_for_clsid(clsid: u128) -> Option<FactoryKind> {
    if clsid == spec_root_clsid(RootKind::File) {
        Some(FactoryKind::Root(RootKind::File))
    } else if clsid == spec_root_clsid(RootKind::Directory) {
        Some(FactoryKind::Root(RootKind::Directory))
    } else if clsid == spec_root_clsid(RootKind::Background) {
        Some(FactoryKind::Root(RootKind::Background))
    } else if clsid == spec_command_clsid(CommandKind::PickSource) {
        Some(FactoryKind::Menu(CommandKind::PickSource))
    } else if clsid == spec_command_clsid(CommandKind::DropSymbolic) {
        Some(FactoryKind::Menu(CommandKind::DropSymbolic))
    } else if clsid == spec_command_clsid(CommandKind::DropRelativeSymbolic) {
        Some(FactoryKind::Menu(CommandKind::DropRelativeSymbolic))
    } else if clsid == spec_command_clsid(CommandKind::DropJunction) {
        Some(FactoryKind::Menu(CommandKind::DropJunction))
    } else if clsid == spec_command_clsid(CommandKind::DropHardLink) {
        Some(FactoryKind::Menu(CommandKind::DropHardLink))
    } else if clsid == spec_command_clsid(CommandKind::ClearSource) {
        Some(FactoryKind::Menu(CommandKind::ClearSource))
    } else if clsid == spec_command_clsid(CommandKind::CreateSymbolic) {
        Some(FactoryKind::Menu(CommandKind::CreateSymbolic))
    } else if clsid == spec_command_clsid(CommandKind::CreateRelativeSymbolic) {
        Some(FactoryKind::Menu(CommandKind::CreateRelativeSymbolic))
    } else if clsid == spec_command_clsid(CommandKind::CreateJunction) {
        Some(FactoryKind::Menu(CommandKind::CreateJunction))
    } else if clsid == spec_command_clsid(CommandKind::CreateHardLink) {
        Some(FactoryKind::Menu(CommandKind::CreateHardLink))
    } else {
        None
    }
}

/// Which object to build for a requested class identifier; `None` when
/// the class is not provided here.
pub fn factory_for_clsid(clsid: u128) -> (r: Option<FactoryKind>)
    ensures
        r == spec_factory_for_clsid(clsid),
{
    if clsid == root_clsid(RootKind::File) {
        Some(FactoryKind::Root(RootKind::File))
    } else if clsid == root_clsid(RootKind::Directory) {
        Some(FactoryKind::Root(RootKind::Directory))
    } else if clsid == root_clsid(RootKind::Background) {
        Some(FactoryKind::Root(RootKind::Background))
    } else if clsid == command_clsid(CommandKind::PickSource) {
        Some(FactoryKind::Menu(CommandKind::PickSource))
    } else if clsid == command_clsid(CommandKind::DropSymbolic) {
        Some(FactoryKind::Menu(CommandKind::DropSymbolic))
    } else if clsid == command_clsid(CommandKind::DropRelativeSymbolic) {
        Some(FactoryKind::Menu(CommandKind::DropRelativeSymbolic))
    } else if clsid == command_clsid(CommandKind::DropJunction) {
        Some(FactoryKind::Menu(CommandKind::DropJunction))
    } else if clsid == command_clsid(CommandKind::DropHardLink) {
        Some(FactoryKind::Menu(CommandKind::DropHardLink))
    } else if clsid == command_clsid(CommandKind::ClearSource) {
        Some(FactoryKind::Menu(CommandKind::ClearSource))
    } else if clsid == command_clsid(CommandKind::CreateSymbolic) {
        Some(FactoryKind::Menu(CommandKind::CreateSymbolic))
    } else if clsid == command_clsid(CommandKind::CreateRelativeSymbolic) {
        Some(FactoryKind::Menu(CommandKind::CreateRelativeSymbolic))
    } else if clsid == command_clsid(CommandKind::CreateJunction) {
        Some(FactoryKind::Menu(CommandKind::CreateJunction))
    } else if clsid == command_clsid(CommandKind::CreateHardLink) {
        Some(FactoryKind::Menu(CommandKind::CreateHardLink))
    } else {
        None
    }
}

/// Every class identifier handed out leads back to the object it names:
/// looking up the identifier of a root or a command builds that root or
/// command.
pub proof fn lemma_clsid_round_trip(root: RootKind, kind: CommandKind)
    ensures
        spec_factory_for_clsid(spec_root_clsid(root)) == Some(FactoryKind::Root(root)),
        spec_factory_for_clsid(spec_command_clsid(kind)) == Some(FactoryKind::Menu(kind)),
{
}

/// How Explorer shows a command.
#[derive(Debug, Clone, Copy, PartialEq, Eq, Structural)]
pub enum CommandState {
    Enabled,
    Disabled,
    Hidden,
}

pub open spec fn spec_command_state(
    kind: CommandKind,
    state: Option<SelectionState>,
    items_all_dirs: bool,
    items_all_files: bool,
) -> CommandState {
    match kind {
        CommandKind::PickSource | CommandKind::CreateSymbolic
        | CommandKind::CreateRelativeSymbolic => CommandState::Enabled,
        CommandKind::DropSymbolic | CommandKind::DropRelativeSymbolic | CommandKind::ClearSource =>
            if state is Some {
            CommandState::Enabled
        } else {
            CommandState::Disabled
        },
        CommandKind::DropJunction => if state matches Some(st) && all_dirs(st.sources@) {
            CommandState::Enabled
        } else {
            CommandState::Hidden
        },
        CommandKind::DropHardLink => if state matches Some(st) && all_files(st.sources@) {
            CommandState::Enabled
        } else {
            CommandState::Hidden
        },
        CommandKind::CreateJunction => if items_all_dirs {
            CommandState::Enabled
        } else {
            CommandState::Hidden
        },
        CommandKind::CreateHardLink => if items_all_files {
            CommandState::Enabled
        } else {
            CommandState::Hidden
        },
    }
}

/// The state of a command, given the picked state (`None` when there is
/// none or it cannot be read) and whether the selected items are all
/// directories, or all files.
pub fn command_state(
    kind: CommandKind,
    state: Option<&SelectionState>,
    items_all_dirs: bool,
    items_all_files: bool,
) -> (r: CommandState)
    ensures
        r == spec_command_state(
            kind,
            match state {
                Some(s) => Some(*s),
                None => None,
            },
            items_all_dirs,
            items_all_files,
        ),
{
    match kind {
        CommandKind::PickSource | CommandKind::CreateSymbolic
        | CommandKind::CreateRelativeSymbolic => CommandState::Enabled,
        CommandKind::DropSymbolic | CommandKind::DropRelativeSymbolic | CommandKind::ClearSource => {
            if state.is_some() {
                CommandState::Enabled
            } else {
                CommandState::Disabled
            }
        },
        CommandKind::DropJunction => {
            let ok = match state {
                Some(st) => sources_all_dirs(&st.sources),
                None => false,
            };
            if ok {
                CommandState::Enabled
            } else {
                CommandState::Hidden
            }
        },
        CommandKind::DropHardLink => {
            let ok = match state {
                Some(st) => sources_all_files(&st.sources),
                None => false,
            };
            if ok {
                CommandState::Enabled
            } else {
                CommandState::Hidden
            }
        },
        CommandKind::CreateJunction => {
            if items_all_dirs {
                CommandState::Enabled
            } else {
                CommandState::Hidden
            }
        },
        CommandKind::CreateHardLink => {
            if items_all_files {
                CommandState::Enabled
            } else {
                CommandState::Hidden
            }
        },
    }
}

/// Whether a selection is not empty and every item has the property.
pub fn selection_all(flags: &Vec<bool>) -> (r: bool)
    ensures
        r == (flags@.len() > 0 && forall|i: int| 0 <= i < flags@.len() ==> #[trigger] flags@[i]),
{
    if flags.len() == 0 {
        return false;
    }
    let mut i: usize = 0;
    while i < flags.len()
        invariant
            i <= flags@.len(),
            forall|j: int| 0 <= j < i ==> #[trigger] flags@[j],
        decreases flags@.len() - i,
    {
        if !flags[i] {
            return false;
        }
        i = i + 1;
    }
    true
}

/// What invoking a command does.
#[derive(Debug, Clone, Copy, PartialEq, Eq, Structural)]
pub enum CommandAction {
    /// Store the selected items as the picked sources.
    PickSources,
    /// Create links of this kind to the picked sources, inside the selected directory.
    DropLinks(LinkKind),
    /// Create links of this kind to the selected items, inside a directory the user picks.
    CreateLinks(LinkKind),
    /// Forget the picked sources.
    ClearSource,
}

pub open spec fn spec_command_action(kind: CommandKind) -> CommandAction {
    match kind {
        CommandKind::PickSource => CommandAction::PickSources,
        CommandKind::DropSymbolic => CommandAction::DropLinks(LinkKind::Symbolic),
        CommandKind::DropRelativeSymbolic => CommandAction::DropLinks(LinkKind::RelativeSymbolic),
        CommandKind::DropJunction => CommandAction::DropLinks(LinkKind::Junction),
        CommandKind::DropHardLink => CommandAction::DropLinks(LinkKind::HardLink),
        CommandKind::CreateSymbolic => CommandAction::CreateLinks(LinkKind::Symbolic),
        CommandKind::CreateRelativeSymbolic => CommandAction::CreateLinks(
            LinkKind::RelativeSymbolic,
        ),
        CommandKind::CreateJunction => CommandAction::CreateLinks(LinkKind::Junction),
        CommandKind::CreateHardLink => CommandAction::CreateLinks(LinkKind::HardLink),
        CommandKind::ClearSource => CommandAction::ClearSource,
    }
}

/// What invoking `kind` does.
pub fn command_action(kind: CommandKind) -> (r: CommandAction)
    ensures
        r == spec_command_action(kind),
{
    match kind {
        CommandKind::PickSource => CommandAction::PickSources,
        CommandKind::DropSymbolic => CommandAction::DropLinks(LinkKind::Symbolic),
        CommandKind::DropRelativeSymbolic => CommandAction::DropLinks(LinkKind::RelativeSymbolic),
        CommandKind::DropJunction => CommandAction::DropLinks(LinkKind::Junction),
        CommandKind::DropHardLink => CommandAction::DropLinks(LinkKind::HardLink),
        CommandKind::CreateSymbolic => CommandAction::CreateLinks(LinkKind::Symbolic),
        CommandKind::CreateRelativeSymbolic => CommandAction::CreateLinks(
            LinkKind::RelativeSymbolic,
        ),
        CommandKind::CreateJunction => CommandAction::CreateLinks(LinkKind::Junction),
        CommandKind::CreateHardLink => CommandAction::CreateLinks(LinkKind::HardLink),
        CommandKind::ClearSource => CommandAction::ClearSource,
    }
}

/// The position of an enumeration over `len` commands; it never passes the end.
#[derive(Debug, Clone, Copy)]
pub struct CommandCursor {
    len: usize,
    index: usize,
}

/// What one `Next` call hands out: `count` commands starting at `start`,
/// and whether that is as many as were asked for.
#[derive(Debug, Clone, Copy, PartialEq, Eq, Structural)]
pub struct Fetch {
    pub start: usize,
    pub count: u32,
    pub complete: bool,
}

impl CommandCursor {
    #[verifier::type_invariant]
    spec fn within_bounds(self) -> bool {
        self.index <= self.len
    }

    pub closed spec fn spec_len(self) -> nat {
        self.len as nat
    }

    pub closed spec fn spec_index(self) -> nat {
        self.index as nat
    }

    /// A cursor at the start of `len` commands.
    pub fn new(len: usize) -> (r: Self)
        ensures
            r.spec_len() == len,
            r.spec_index() == 0,
    {
        CommandCursor { len, index: 0 }
    }

    pub fn len(&self) -> (r: usize)
        ensures
            r == self.spec_len(),
    {
        self.len
    }

    pub fn index(&self) -> (r: usize)
        ensures
            r == self.spec_index(),
            r <= self.spec_len(),
    {
        proof {
            use_type_invariant(self);
        }
        self.index
    }

    /// Hands out up to `requested` commands from the current position and
    /// moves past them.
    pub fn next(&mut self, requested: u32) -> (r: Fetch)
        ensures
            r.start == old(self).spec_index(),
            r.count as int == if old(self).spec_len() - old(self).spec_index() < requested {
                old(self).spec_len() - old(self).spec_index()
            } else {
                requested as int
            },
            r.complete == (r.count == requested),
            final(self).spec_len() == old(self).spec_len(),
            final(self).spec_index() == old(self).spec_index() + r.count,
            final(self).spec_index() <= final(self).spec_len(),
    {
        proof {
            use_type_invariant(&*self);
        }
        let start = self.index;
        let remaining = self.len - start;
        let wanted = requested as usize;
        let take = if remaining < wanted {
            remaining
        } else {
            wanted
        };
        self.index = start + take;
        let count = take as u32;
        Fetch { start, count, complete: count == requested }
    }

    /// Moves `count` commands ahead; refuses, and stays put, when that
    /// would pass the end.
    pub fn skip(&mut self, count: u32) -> (r: bool)
        ensures
            r == (old(self).spec_index() + count <= old(self).spec_len()),
            final(self).spec_len() == old(self).spec_len(),
            final(self).spec_index() == if r {
                old(self).spec_index() + count
            } else {
                old(self).spec_index() as int
            },
    {
        proof {
            use_type_invariant(&*self);
        }
        let room = self.len - self.index;
        if (count as usize) <= room {
            self.index = self.index + count as usize;
            true
        } else {
            false
        }
    }

    /// Back to the first command.
    pub fn reset(&mut self)
        ensures
            final(self).spec_len() == old(self).spec_len(),
            final(self).spec_index() == 0,
    {
        self.index = 0;
    }
}

/// The helper program installed next to the shell extension module.
pub fn helper_path(module_file: Option<&str>) -> (r: Option<String>)
    ensures
        opt_view(r) == match module_file {
            Some(m) => match spec_parent(m@) {
                Some(d) => Some(spec_join(d, "lsenext-helper.exe"@)),
                None => None,
            },
            None => None,
        },
{
    match module_file {
        Some(m) => match parent(m) {
            Some(d) => Some(join(d.as_str(), "lsenext-helper.exe")),
            None => None,
        },
        None => None,
    }
}

/// The menu icon installed next to the shell extension module.
pub fn icon_path(module_file: Option<&str>) -> (r: Option<String>)
    ensures
        opt_view(r) == match module_file {
            Some(m) => match spec_parent(m@) {
                Some(d) => Some(spec_join(d, "Assets\\LSENext.ico"@)),
                None => None,
            },
            None => None,
        },
{
    match module_file {
        Some(m) => match parent(m) {
            Some(d) => Some(join(d.as_str(), "Assets\\LSENext.ico")),
            None => None,
        },
        None => None,
    }
}

} // verus!
