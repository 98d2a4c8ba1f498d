use bootty_app::finder::{
    binding_group_labels, finder_group_label, sessions_across_spaces, unclaimed_sessions,
    BindingLabel,
};
use bootty_app::mux_keys::SessionRef;

fn session(id: &str, name: &str) -> SessionRef {
    SessionRef {
        id: id.to_owned(),
        name: name.to_owned(),
    }
}

#[test]
fn sessions_across_spaces_keep_the_first_of_each_name() {
    let all = sessions_across_spaces(&[
        session("$1", "a"),
        session("$2", "b"),
        session("$9", "a"),
        session("$3", "c"),
    ]);
    let ids: Vec<&str> = all.iter().map(|s| s.id.as_str()).collect();
    assert_eq!(ids, vec!["$1", "$2", "$3"]);
}

#[test]
fn unclaimed_sessions_are_those_no_space_lists() {
    let all = vec![session("$1", "a"), session("$2", "b"), session("$3", "c")];
    let claimed = vec!["b".to_owned(), "zz".to_owned()];
    let free = unclaimed_sessions(&all, &claimed);
    let names: Vec<&str> = free.iter().map(|s| s.name.as_str()).collect();
    assert_eq!(names, vec!["a", "c"]);
    assert!(unclaimed_sessions(&all, &["a".to_owned(), "b".to_owned(), "c".to_owned()]).is_empty());
}

#[test]
fn duplicate_binding_labels_carry_their_binding_id() {
    let groups = binding_group_labels(&[
        BindingLabel { binding_id: 2, label: "Tmux".to_owned() },
        BindingLabel { binding_id: 1, label: "Tmux".to_owned() },
        BindingLabel { binding_id: 0, label: "Native".to_owned() },
    ]);
    assert_eq!(
        groups,
        vec![
            (0, "Native".to_owned()),
            (1, "Tmux / Binding 1".to_owned()),
            (2, "Tmux / Binding 2".to_owned()),
        ]
    );
}

#[test]
fn finder_labels_name_the_binding_only_when_a_space_has_several() {
    assert_eq!(finder_group_label("Work", "Tmux", 1), "Work");
    assert_eq!(finder_group_label("Work", "Tmux", 2), "Work / Tmux");
}
