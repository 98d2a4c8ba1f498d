use bootty_app::space_set::{SpaceEntry, SpaceSet};
use bootty_app::spaces::SpaceId;

fn entry(id: i64, position: i64) -> SpaceEntry<&'static str> {
    SpaceEntry {
        id: SpaceId(id),
        position,
        runtime: "runtime",
    }
}

fn ids(set: &SpaceSet<&'static str>) -> Vec<i64> {
    set.inactive.iter().map(|e| e.id.0).collect()
}

#[test]
fn switching_spaces_swaps_the_active_one_into_position_order() {
    let mut set = SpaceSet {
        active: entry(1, 1),
        inactive: vec![entry(0, 0), entry(2, 2), entry(3, 3)],
    };
    assert!(set.activate(SpaceId(3)));
    assert_eq!(set.active.id, SpaceId(3));
    assert_eq!(ids(&set), vec![0, 1, 2]);
    assert!(set.activate(SpaceId(1)));
    assert_eq!(set.active.id, SpaceId(1));
    assert_eq!(ids(&set), vec![0, 2, 3]);
    assert!(!set.activate(SpaceId(1)));
    assert!(!set.activate(SpaceId(9)));
    assert_eq!(ids(&set), vec![0, 2, 3]);
}

#[test]
fn new_spaces_go_after_those_at_their_position_and_closed_ones_leave() {
    let mut set = SpaceSet {
        active: entry(1, 5),
        inactive: vec![entry(0, 0), entry(2, 2)],
    };
    set.add_inactive(entry(7, 2));
    set.add_inactive(entry(8, 1));
    assert_eq!(ids(&set), vec![0, 8, 2, 7]);
    set.drop_inactive(SpaceId(2));
    assert_eq!(ids(&set), vec![0, 8, 7]);
    set.drop_inactive(SpaceId(42));
    assert_eq!(ids(&set), vec![0, 8, 7]);
    assert_eq!(set.active.id, SpaceId(1));
}

#[test]
fn a_window_opens_on_its_selected_space_or_the_first_one() {
    let spaces = || vec![entry(4, 0), entry(5, 1), entry(6, 2)];
    let set = SpaceSet::open_at(spaces(), Some(SpaceId(5)), entry(0, 0));
    assert_eq!(set.active.id, SpaceId(5));
    assert_eq!(ids(&set), vec![4, 6]);

    let set = SpaceSet::open_at(spaces(), Some(SpaceId(9)), entry(0, 0));
    assert_eq!(set.active.id, SpaceId(4));
    assert_eq!(ids(&set), vec![5, 6]);

    let set = SpaceSet::open_at(spaces(), None, entry(0, 0));
    assert_eq!(set.active.id, SpaceId(4));

    let set = SpaceSet::open_at(Vec::new(), Some(SpaceId(5)), entry(0, 0));
    assert_eq!(set.active.id, SpaceId(0));
    assert!(set.inactive.is_empty());
}
