use bootty_app::selection::{
    press_facts, release_facts, PointerFacts, PointerMods, SelectionAction, SelectionRouter,
};

type Facts = PointerFacts<&'static str, (i32, i32), u32>;

fn press(event: &'static str, extend: bool, start: Option<u32>) -> Facts {
    PointerFacts::PrimaryPress {
        event,
        on_terminal: true,
        extend,
        start,
    }
}

fn moved(event: &'static str, y: i32, clamped: Option<u32>) -> Facts {
    PointerFacts::Move {
        event,
        pos: (0, y),
        in_scroll_zone: false,
        clamped,
    }
}

fn release(event: &'static str, clamped: Option<u32>) -> Facts {
    PointerFacts::PrimaryRelease { event, clamped }
}

fn kinds(actions: &[SelectionAction<u32>]) -> Vec<String> {
    actions
        .iter()
        .map(|a| match a {
            SelectionAction::Begin(p) => format!("begin {p}"),
            SelectionAction::Update(p) => format!("update {p}"),
            SelectionAction::Scroll(d) => format!("scroll {d}"),
            SelectionAction::End(p) => format!("end {p:?}"),
        })
        .collect()
}

#[test]
fn a_plain_drag_becomes_a_selection_the_terminal_also_sees() {
    let mut router: SelectionRouter<(i32, i32), u32> = SelectionRouter::new();
    let out = router.route_events(
        vec![
            press("down", false, Some(1)),
            moved("move", 5, Some(2)),
            release("up", Some(3)),
        ],
        true,
        false,
    );
    assert_eq!(out.terminal_events, vec!["down", "move", "up"]);
    assert_eq!(kinds(&out.actions), vec!["begin 1", "update 2", "end Some(3)"]);
    assert!(!router.active);
    assert!(router.pending_start.is_none());
}

#[test]
fn a_click_without_moving_selects_nothing() {
    let mut router: SelectionRouter<(i32, i32), u32> = SelectionRouter::new();
    let out = router.route_events(vec![press("down", false, Some(1)), release("up", None)], true, false);
    assert_eq!(out.terminal_events, vec!["down", "up"]);
    assert!(out.actions.is_empty());
}

#[test]
fn shift_press_selects_without_the_terminal() {
    let mut router: SelectionRouter<(i32, i32), u32> = SelectionRouter::new();
    let out = router.route_events(
        vec![
            press("down", true, Some(4)),
            moved("move", 1, Some(5)),
            PointerFacts::Other { event: "key" },
            release("up", Some(6)),
        ],
        true,
        true,
    );
    assert_eq!(out.terminal_events, vec!["key"]);
    assert_eq!(kinds(&out.actions), vec!["begin 4", "update 5", "end Some(6)"]);
}

#[test]
fn mouse_tracking_applications_keep_plain_drags() {
    let mut router: SelectionRouter<(i32, i32), u32> = SelectionRouter::new();
    let out = router.route_events(
        vec![press("down", false, Some(1)), moved("move", 2, Some(2)), release("up", None)],
        true,
        true,
    );
    assert_eq!(out.terminal_events, vec!["down", "move", "up"]);
    assert!(out.actions.is_empty());
}

#[test]
fn without_a_surface_everything_goes_to_the_terminal_and_the_router_resets() {
    let mut router: SelectionRouter<(i32, i32), u32> = SelectionRouter::new();
    router.route_events(vec![press("down", true, Some(1))], true, false);
    assert!(router.active);
    let out = router.route_events(vec![moved("move", 1, Some(2)), release("up", None)], false, false);
    assert_eq!(out.terminal_events, vec!["move", "up"]);
    assert!(out.actions.is_empty());
    assert!(!router.active);
}

#[test]
fn a_drag_in_the_scroll_zone_scrolls_each_frame() {
    let mut router: SelectionRouter<(i32, i32), u32> = SelectionRouter::new();
    router.route_events(vec![press("down", true, Some(1)), moved("move", 99, Some(7))], true, false);
    assert_eq!(router.drag_pos, Some((0, 99)));
    assert_eq!(kinds(&router.autoscroll_actions(true, 2, Some(8))), vec!["scroll 2", "update 8"]);
    assert!(router.autoscroll_actions(true, 0, Some(8)).is_empty());
    assert!(router.autoscroll_actions(false, 2, Some(8)).is_empty());
    let idle: SelectionRouter<(i32, i32), u32> = SelectionRouter::new();
    assert!(idle.autoscroll_actions(true, 2, None).is_empty());
}

#[test]
fn frame_shift_overrides_mouse_reporting_when_pointer_event_lacks_modifiers() {
    let mut router = SelectionRouter::new();
    let press = press_facts::<&str, (i32, i32), u32>(
        "down",
        true,
        PointerMods { shift: false, alt: false },
        PointerMods { shift: true, alt: false },
        Some(11),
    );
    let out = router.route_events(vec![press], true, true);
    assert!(out.terminal_events.is_empty());
    assert_eq!(out.actions.len(), 1);
    assert!(matches!(&out.actions[0], SelectionAction::Begin(p) if p.at == 11 && !p.rectangle));
    assert!(router.active);

    let release = release_facts::<&str, (i32, i32), u32>(
        "up",
        PointerMods { shift: false, alt: true },
        PointerMods { shift: false, alt: false },
        Some(12),
    );
    let out = router.route_events(vec![release], true, true);
    assert!(matches!(&out.actions[0], SelectionAction::End(Some(p)) if p.at == 12 && p.rectangle));
}
