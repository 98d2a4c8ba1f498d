use bootty_app::command::Command;
use std::collections::HashSet;

#[test]
fn every_command_has_title_description_and_unique_action() {
    let mut seen = HashSet::new();
    for command in Command::all() {
        assert!(!command.title().is_empty(), "{command:?} has no title");
        assert!(
            !command.description().is_empty(),
            "{command:?} has no description"
        );
        assert!(
            seen.insert(command.action()),
            "duplicate action name {:?}",
            command.action()
        );
    }
}

// The key-binding name parser and the icon registry are not part of this crate, so this checks
// what the catalog itself promises: every palette action names a catalog command (with or
// without its argument) and every palette command names an icon.
#[test]
fn palette_commands_dispatch_and_have_resolvable_icons() {
    for command in Command::all() {
        let Some(action) = command.palette_action() else {
            continue;
        };
        let name = action.split(':').next().unwrap_or(action);
        assert!(
            Command::from_action(action).is_some() || Command::from_action(name).is_some(),
            "palette command {command:?} action {action:?} does not dispatch"
        );
        assert!(
            !command.icon().is_empty(),
            "palette command {command:?} has unknown icon {:?}",
            command.icon()
        );
    }
}

#[test]
fn move_tab_left_and_right_are_palette_commands() {
    assert_eq!(Command::MoveTab.palette_action(), None);
    assert_eq!(Command::MoveTabLeft.palette_action(), Some("move_tab:-1"));
    assert_eq!(Command::MoveTabRight.palette_action(), Some("move_tab:1"));
}

#[test]
fn every_action_name_finds_its_command() {
    for command in Command::all() {
        assert_eq!(Command::from_action(command.action()), Some(command));
    }
    assert_eq!(Command::from_action("no_such_action"), None);
}

#[test]
fn catalog_lists_each_command_once() {
    let all = Command::all();
    let distinct: HashSet<_> = all.iter().map(|c| c.action()).collect();
    assert_eq!(distinct.len(), all.len());
    assert!(all.contains(&Command::Quit));
}

#[test]
fn palette_commands_come_before_editor_only_ones() {
    let all: Vec<Command> = Command::all();
    assert_eq!(all.len(), 57);
    for (i, command) in all.iter().enumerate() {
        assert_eq!(command.palette_action().is_some(), i < 40, "{command:?} at {i}");
    }
}
