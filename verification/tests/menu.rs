use lsenext::links::LinkKind;
use lsenext::menu::{
    command_action, command_clsid, command_state, command_title, factory_for_clsid, helper_path,
    icon_path, menu_command_kinds, root_clsid, selection_all, CommandAction, CommandCursor,
    CommandKind, CommandState, FactoryKind, RootKind,
};
use lsenext::state::{PickedSource, SelectionState};

fn state_of(sources: Vec<(&str, bool)>) -> SelectionState {
    SelectionState {
        picked_at_unix: 42,
        sources: sources
            .into_iter()
            .map(|(path, is_dir)| PickedSource { path: path.to_string(), is_dir })
            .collect(),
    }
}

#[test]
fn file_sources_do_not_offer_directory_junctions() {
    let state = state_of(vec![(r"C:\src\file.txt", false)]);
    assert_eq!(
        menu_command_kinds(RootKind::Directory, Some(state)),
        vec![
            CommandKind::PickSource,
            CommandKind::DropSymbolic,
            CommandKind::DropRelativeSymbolic,
            CommandKind::DropHardLink,
            CommandKind::ClearSource,
        ]
    );
}

#[test]
fn directory_sources_offer_directory_junctions() {
    let state = state_of(vec![(r"C:\src\folder", true)]);
    assert_eq!(
        menu_command_kinds(RootKind::Directory, Some(state)),
        vec![
            CommandKind::PickSource,
            CommandKind::DropSymbolic,
            CommandKind::DropRelativeSymbolic,
            CommandKind::DropJunction,
            CommandKind::ClearSource,
        ]
    );
}

#[test]
fn no_state_only_shows_pick_source() {
    assert_eq!(menu_command_kinds(RootKind::Directory, None), vec![CommandKind::PickSource]);
}

#[test]
fn file_root_shows_pick_source_and_create_links() {
    assert_eq!(
        menu_command_kinds(RootKind::File, None),
        vec![
            CommandKind::PickSource,
            CommandKind::CreateSymbolic,
            CommandKind::CreateRelativeSymbolic,
            CommandKind::CreateJunction,
            CommandKind::CreateHardLink,
        ]
    );
}

#[test]
fn background_root_only_shows_drop_commands() {
    let state = state_of(vec![(r"C:\src\folder", true)]);
    assert_eq!(
        menu_command_kinds(RootKind::Background, Some(state)),
        vec![
            CommandKind::DropSymbolic,
            CommandKind::DropRelativeSymbolic,
            CommandKind::DropJunction,
            CommandKind::ClearSource,
        ]
    );
}

#[test]
fn file_background_sources_offer_hard_links() {
    let state = state_of(vec![(r"C:\src\file.txt", false)]);
    assert_eq!(
        menu_command_kinds(RootKind::Background, Some(state)),
        vec![
            CommandKind::DropSymbolic,
            CommandKind::DropRelativeSymbolic,
            CommandKind::DropHardLink,
            CommandKind::ClearSource,
        ]
    );
}

#[test]
fn mixed_sources_only_offer_symbolic_links() {
    let state = state_of(vec![(r"C:\src\file.txt", false), (r"C:\src\folder", true)]);
    assert_eq!(
        menu_command_kinds(RootKind::Directory, Some(state)),
        vec![
            CommandKind::PickSource,
            CommandKind::DropSymbolic,
            CommandKind::DropRelativeSymbolic,
            CommandKind::ClearSource,
        ]
    );
}

#[test]
fn empty_state_offers_both_junctions_and_hard_links() {
    let state = state_of(vec![]);
    assert_eq!(
        menu_command_kinds(RootKind::Background, Some(state)),
        vec![
            CommandKind::DropSymbolic,
            CommandKind::DropRelativeSymbolic,
            CommandKind::DropJunction,
            CommandKind::DropHardLink,
            CommandKind::ClearSource,
        ]
    );
    assert_eq!(menu_command_kinds(RootKind::Background, None), vec![]);
}

const ALL: [CommandKind; 10] = [
    CommandKind::PickSource,
    CommandKind::DropSymbolic,
    CommandKind::DropRelativeSymbolic,
    CommandKind::DropJunction,
    CommandKind::DropHardLink,
    CommandKind::CreateSymbolic,
    CommandKind::CreateRelativeSymbolic,
    CommandKind::CreateJunction,
    CommandKind::CreateHardLink,
    CommandKind::ClearSource,
];

#[test]
fn class_identifiers_lead_back_to_their_objects() {
    for kind in ALL {
        assert_eq!(factory_for_clsid(command_clsid(kind)), Some(FactoryKind::Menu(kind)));
    }
    for root in [RootKind::File, RootKind::Directory, RootKind::Background] {
        assert_eq!(factory_for_clsid(root_clsid(root)), Some(FactoryKind::Root(root)));
    }
    assert_eq!(root_clsid(RootKind::File), 0x32ad61d5_1919_4582_95dc_d9eb0bb6e000);
    assert_eq!(command_clsid(CommandKind::CreateHardLink), 0x32ad61d5_1919_4582_95dc_d9eb0bb6e00d);
    assert_eq!(factory_for_clsid(0x32ad61d5_1919_4582_95dc_d9eb0bb6e007), None);
    assert_eq!(factory_for_clsid(0), None);
}

#[test]
fn command_titles() {
    assert_eq!(command_title(CommandKind::PickSource), "Pick Link Source");
    assert_eq!(command_title(CommandKind::DropJunction), "Drop Directory Junction");
    assert_eq!(command_title(CommandKind::CreateRelativeSymbolic), "Create Relative Symbolic Links...");
    assert_eq!(command_title(CommandKind::ClearSource), "Clear Link Source");
}

#[test]
fn command_states_follow_the_picked_sources() {
    let dirs = state_of(vec![("d", true)]);
    let files = state_of(vec![("f", false)]);
    assert_eq!(command_state(CommandKind::DropSymbolic, None, false, false), CommandState::Disabled);
    assert_eq!(command_state(CommandKind::ClearSource, Some(&files), false, false), CommandState::Enabled);
    assert_eq!(command_state(CommandKind::DropJunction, Some(&dirs), false, false), CommandState::Enabled);
    assert_eq!(command_state(CommandKind::DropJunction, Some(&files), false, false), CommandState::Hidden);
    assert_eq!(command_state(CommandKind::DropJunction, None, true, true), CommandState::Hidden);
    assert_eq!(command_state(CommandKind::DropHardLink, Some(&files), false, false), CommandState::Enabled);
    assert_eq!(command_state(CommandKind::CreateJunction, None, true, false), CommandState::Enabled);
    assert_eq!(command_state(CommandKind::CreateHardLink, None, true, false), CommandState::Hidden);
    assert_eq!(command_state(CommandKind::PickSource, None, false, false), CommandState::Enabled);
}

#[test]
fn selection_must_be_non_empty() {
    assert!(!selection_all(&vec![]));
    assert!(selection_all(&vec![true, true]));
    assert!(!selection_all(&vec![true, false]));
}

#[test]
fn command_actions() {
    assert_eq!(command_action(CommandKind::PickSource), CommandAction::PickSources);
    assert_eq!(command_action(CommandKind::DropHardLink), CommandAction::DropLinks(LinkKind::HardLink));
    assert_eq!(
        command_action(CommandKind::CreateRelativeSymbolic),
        CommandAction::CreateLinks(LinkKind::RelativeSymbolic)
    );
    assert_eq!(command_action(CommandKind::ClearSource), CommandAction::ClearSource);
}

#[test]
fn cursor_hands_out_commands_in_batches() {
    let mut cursor = CommandCursor::new(5);
    let first = cursor.next(2);
    assert_eq!((first.start, first.count, first.complete), (0, 2, true));
    let second = cursor.next(10);
    assert_eq!((second.start, second.count, second.complete), (2, 3, false));
    assert_eq!(cursor.index(), 5);
    let third = cursor.next(1);
    assert_eq!((third.start, third.count, third.complete), (5, 0, false));
    cursor.reset();
    assert_eq!(cursor.index(), 0);
    assert!(cursor.skip(5));
    assert_eq!(cursor.index(), 5);
    cursor.reset();
    assert!(cursor.skip(3));
    assert!(!cursor.skip(3));
    assert_eq!(cursor.index(), 3);
    let copy = cursor;
    assert_eq!(copy.index(), 3);
    assert_eq!(copy.len(), 5);
}

#[test]
fn helper_and_icon_sit_next_to_the_module() {
    let module = r"C:\Users\me\AppData\Local\LSENext\x64\lsenext-shell.dll";
    assert_eq!(
        helper_path(Some(module)).unwrap(),
        r"C:\Users\me\AppData\Local\LSENext\x64\lsenext-helper.exe"
    );
    assert_eq!(
        icon_path(Some(module)).unwrap(),
        r"C:\Users\me\AppData\Local\LSENext\x64\Assets\LSENext.ico"
    );
    assert_eq!(helper_path(None), None);
    assert_eq!(helper_path(Some(r"C:\")), None);
    assert_eq!(helper_path(Some(r"C:\shell.dll")).unwrap(), r"C:\lsenext-helper.exe");
}
