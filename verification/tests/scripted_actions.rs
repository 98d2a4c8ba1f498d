use bootty_app::diagnostic::{
    parse_diagnostic_script, parse_entries, DiagnosticAction, DiagnosticSchedule, DiagnosticStep,
};
use bootty_app::layout::{MuxDirection, SplitDirection};
use bootty_app::mux_keys::MuxKeyAction;

const ALL: [DiagnosticAction; 10] = [
    DiagnosticAction::NewTab,
    DiagnosticAction::NextTab,
    DiagnosticAction::PreviousTab,
    DiagnosticAction::SplitRight,
    DiagnosticAction::SplitDown,
    DiagnosticAction::SelectPaneLeft,
    DiagnosticAction::SelectPaneRight,
    DiagnosticAction::SelectPaneUp,
    DiagnosticAction::SelectPaneDown,
    DiagnosticAction::NextPane,
];

#[test]
fn every_action_reads_back_from_its_label() {
    for action in ALL {
        assert_eq!(DiagnosticAction::parse(action.label()), Some(action));
    }
    assert_eq!(
        DiagnosticAction::parse("  split_down\t"),
        Some(DiagnosticAction::SplitDown)
    );
    assert_eq!(DiagnosticAction::parse("split-down"), None);
    assert_eq!(DiagnosticAction::parse(""), None);
}

#[test]
fn actions_map_to_multiplexer_keys() {
    assert_eq!(
        DiagnosticAction::SplitRight.mux_action(),
        MuxKeyAction::SplitPane(SplitDirection::Right)
    );
    assert_eq!(
        DiagnosticAction::SelectPaneUp.mux_action(),
        MuxKeyAction::SelectPane(MuxDirection::Up)
    );
    assert_eq!(DiagnosticAction::NewTab.mux_action(), MuxKeyAction::NewTab);
    assert_eq!(DiagnosticAction::NextPane.mux_action(), MuxKeyAction::NextPane);
}

#[test]
fn scripts_parse_into_steps_ordered_by_time() {
    let steps = parse_diagnostic_script("500:new_tab, 100 : split_right,500:next_pane").unwrap();
    assert_eq!(
        steps,
        vec![
            DiagnosticStep { at_ms: 100, action: DiagnosticAction::SplitRight },
            DiagnosticStep { at_ms: 500, action: DiagnosticAction::NewTab },
            DiagnosticStep { at_ms: 500, action: DiagnosticAction::NextPane },
        ]
    );
    assert_eq!(
        parse_entries("+7:next_tab").unwrap(),
        vec![DiagnosticStep { at_ms: 7, action: DiagnosticAction::NextTab }]
    );
}

#[test]
fn a_script_with_any_bad_entry_is_rejected() {
    assert!(parse_diagnostic_script("").is_none());
    assert!(parse_diagnostic_script("100").is_none());
    assert!(parse_diagnostic_script("x:new_tab").is_none());
    assert!(parse_diagnostic_script("-1:new_tab").is_none());
    assert!(parse_diagnostic_script("100:new_tab,").is_none());
    assert!(parse_diagnostic_script("100:warp").is_none());
    assert!(parse_diagnostic_script("18446744073709551616:new_tab").is_none());
    assert_eq!(
        parse_diagnostic_script("18446744073709551615:new_tab").unwrap()[0].at_ms,
        u64::MAX
    );
}

#[test]
fn due_actions_hand_out_each_step_once_in_order() {
    let mut schedule = DiagnosticSchedule {
        steps: parse_diagnostic_script("100:new_tab,200:split_right,300:next_pane").unwrap(),
        next_step: 0,
    };
    assert!(schedule.due_actions(50).is_empty());
    assert_eq!(
        schedule.due_actions(250),
        vec![DiagnosticAction::NewTab, DiagnosticAction::SplitRight]
    );
    assert!(schedule.due_actions(250).is_empty());
    assert_eq!(schedule.due_actions(1000), vec![DiagnosticAction::NextPane]);
    assert!(schedule.due_actions(5000).is_empty());
}

#[test]
fn a_schedule_past_its_end_hands_out_nothing() {
    let mut schedule = DiagnosticSchedule {
        steps: parse_diagnostic_script("1:new_tab").unwrap(),
        next_step: 5,
    };
    assert!(schedule.due_actions(100).is_empty());
    assert_eq!(schedule.next_step, 5);
}

#[test]
fn padded_labels_parse_and_other_names_do_not() {
    for action in ALL {
        let padded = format!("\u{3000} \t{}\n ", action.label());
        assert_eq!(DiagnosticAction::parse(&padded), Some(action));
    }
    for name in ["NEW_TAB", "new tab", "new_tab_", "x new_tab", "next"] {
        assert_eq!(DiagnosticAction::parse(name), None);
    }
}
