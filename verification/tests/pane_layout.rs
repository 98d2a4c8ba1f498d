use bootty_app::layout::{
    focus_after_native_layout_reconcile, layout_direction, mux_split_direction,
    native_layout_plan, pane_sets_match, panes_not_in, Direction, LayoutBase, LayoutUpdate,
    MuxDirection, MuxSplitDirection, SplitDirection,
};

fn ids(names: &[&str]) -> Vec<String> {
    names.iter().map(|s| s.to_string()).collect()
}

#[test]
fn native_layout_reconcile_keeps_local_focus_when_server_anchor_is_stale() {
    assert_eq!(
        focus_after_native_layout_reconcile(false, &[], Some("%1")),
        None,
        "refreshes must not let a stale rmux active-pane anchor overwrite Bootty focus"
    );
}

#[test]
fn native_layout_reconcile_focuses_new_or_restored_server_pane() {
    assert_eq!(
        focus_after_native_layout_reconcile(true, &[], Some("%2")),
        Some("%2".to_owned())
    );
    assert_eq!(
        focus_after_native_layout_reconcile(false, &["%2".to_owned()], Some("%2")),
        Some("%2".to_owned())
    );
    assert_eq!(
        focus_after_native_layout_reconcile(false, &["%2".to_owned()], Some("%1")),
        Some("%2".to_owned())
    );
}

#[test]
fn reconcile_focus_without_selection_takes_the_first_new_pane() {
    let panes = vec!["%3".to_owned(), "%4".to_owned()];
    assert_eq!(
        focus_after_native_layout_reconcile(false, &panes, None),
        Some("%3".to_owned())
    );
    assert_eq!(focus_after_native_layout_reconcile(true, &panes, None), None);
}

#[test]
fn pane_sets_match_ignores_order_but_not_membership() {
    let a = vec!["%1".to_owned(), "%2".to_owned()];
    let b = vec!["%2".to_owned(), "%1".to_owned()];
    let c = vec!["%1".to_owned(), "%3".to_owned()];
    assert!(pane_sets_match(&a, &b));
    assert!(!pane_sets_match(&a, &c));
    assert!(!pane_sets_match(&a, &a[..1]));
    assert!(pane_sets_match(&[], &[]));
}

#[test]
fn directions_translate_between_mux_and_layout() {
    assert_eq!(layout_direction(MuxDirection::Left), Direction::Left);
    assert_eq!(layout_direction(MuxDirection::Down), Direction::Down);
    assert_eq!(mux_split_direction(SplitDirection::Right), MuxSplitDirection::Right);
    assert_eq!(mux_split_direction(SplitDirection::Down), MuxSplitDirection::Down);
}

#[test]
fn first_sync_of_a_window_starts_a_fresh_layout() {
    let plan = native_layout_plan(&ids(&["%1"]), None, None, None).unwrap();
    assert_eq!(plan.base, LayoutBase::Fresh);
    assert_eq!(plan.new_panes, ids(&["%1"]));
    assert!(plan.removed_panes.is_empty());
    assert_eq!(plan.update, LayoutUpdate::Reconcile);
    assert!(!plan.restored_from_server);
    assert_eq!(plan.focus, Some("%1".to_owned()));
}

#[test]
fn a_new_split_pane_is_reconciled_in_and_focused() {
    let plan = native_layout_plan(&ids(&["%1", "%2"]), Some(ids(&["%1"])), None, Some("%1")).unwrap();
    assert_eq!(plan.base, LayoutBase::Cached);
    assert_eq!(plan.new_panes, ids(&["%2"]));
    assert_eq!(plan.update, LayoutUpdate::Reconcile);
    assert_eq!(plan.focus, Some("%2".to_owned()));

    let same = native_layout_plan(&ids(&["%1"]), Some(ids(&["%1"])), None, Some("%1")).unwrap();
    assert_eq!(same.update, LayoutUpdate::Keep);
    assert_eq!(same.focus, None);
}

#[test]
fn the_server_layout_is_restored_when_the_cache_has_none_or_a_stale_one() {
    let plan = native_layout_plan(
        &ids(&["%1", "%2"]),
        None,
        Some(ids(&["%2", "%1"])),
        Some("%2"),
    ).unwrap();
    assert_eq!(plan.base, LayoutBase::Server);
    assert_eq!(plan.update, LayoutUpdate::Keep);
    assert!(plan.restored_from_server);
    assert_eq!(plan.focus, Some("%2".to_owned()));

    let stale = native_layout_plan(&ids(&["%1"]), Some(ids(&["%9"])), None, None).unwrap();
    assert_eq!(stale.base, LayoutBase::Fresh);
    assert_eq!(stale.removed_panes, ids(&["%9"]));
    assert_eq!(stale.update, LayoutUpdate::Reconcile);

    let changed = native_layout_plan(
        &ids(&["%1", "%2"]),
        Some(ids(&["%1"])),
        Some(ids(&["%1", "%2"])),
        Some("%1"),
    ).unwrap();
    assert_eq!(changed.update, LayoutUpdate::UseServer);
    assert!(changed.restored_from_server);
    assert_eq!(changed.focus, Some("%1".to_owned()));

    let mismatched = native_layout_plan(&ids(&["%1"]), None, Some(ids(&["%7"])), None).unwrap();
    assert_eq!(mismatched.base, LayoutBase::Fresh);
}

#[test]
fn panes_not_in_keeps_order() {
    assert_eq!(panes_not_in(&ids(&["%3", "%1", "%2"]), &ids(&["%1"])), ids(&["%3", "%2"]));
}

#[test]
fn a_window_without_panes_has_nothing_to_lay_out() {
    assert!(native_layout_plan(&[], Some(ids(&["%1"])), None, Some("%1")).is_none());
}
