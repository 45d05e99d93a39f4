use lsenext::helper::{check_drop_sources, drop_verb, parse_command, HelperCommand};
use lsenext::links::LinkKind;
use lsenext::menu::{command_action, command_state, menu_command_kinds, CommandAction, CommandKind, CommandState, RootKind};
use lsenext::state::{PickedSource, SelectionState};

fn state_of(sources: Vec<(&str, bool)>) -> SelectionState {
    SelectionState {
        picked_at_unix: 7,
        sources: sources
            .into_iter()
            .map(|(path, is_dir)| PickedSource { path: path.to_string(), is_dir })
            .collect(),
    }
}

fn states() -> Vec<Option<SelectionState>> {
    vec![
        None,
        Some(state_of(vec![])),
        Some(state_of(vec![("d", true)])),
        Some(state_of(vec![("f", false)])),
        Some(state_of(vec![("f", false), ("d", true)])),
    ]
}

#[test]
fn listed_drops_are_enabled() {
    let drops = [
        CommandKind::DropSymbolic,
        CommandKind::DropRelativeSymbolic,
        CommandKind::DropJunction,
        CommandKind::DropHardLink,
        CommandKind::ClearSource,
    ];
    for root in [RootKind::Directory, RootKind::Background] {
        for state in states() {
            let listed = menu_command_kinds(root, state.clone());
            for kind in drops {
                let enabled = command_state(kind, state.as_ref(), false, false) == CommandState::Enabled;
                assert_eq!(listed.contains(&kind), enabled);
            }
        }
    }
}

#[test]
fn offered_drops_pass_the_helper_checks() {
    for root in [RootKind::File, RootKind::Directory, RootKind::Background] {
        for state in states().into_iter().flatten() {
            for kind in menu_command_kinds(root, Some(state.clone())) {
                if let CommandAction::DropLinks(link) = command_action(kind) {
                    assert!(check_drop_sources(link, Some(&state)).is_ok());
                }
            }
        }
    }
}

#[test]
fn elevated_drop_verbs_are_understood() {
    for kind in [LinkKind::Symbolic, LinkKind::Junction, LinkKind::HardLink] {
        let args = vec![drop_verb(kind).to_string(), r"C:\t".to_string()];
        match parse_command(&args, None) {
            Ok(HelperCommand::Drop { kind: parsed, target }) => {
                assert_eq!(parsed, kind);
                assert_eq!(target, Some(r"C:\t".to_string()));
            }
            other => panic!("unexpected {:?}", other),
        }
    }
    let args = vec![drop_verb(LinkKind::RelativeSymbolic).to_string(), "t".to_string()];
    assert!(parse_command(&args, None).unwrap_err().starts_with("usage:"));
}
