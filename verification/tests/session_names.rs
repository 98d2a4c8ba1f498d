use bootty_app::ditch::{ditch_cleanup_steps, CleanupStep, DitchAction};
use bootty_app::names::{
    forget_pending_name, generated_names_need_sync, keep_pending_name, prune_pending_names, record_pending_name, reconcile_session_name, session_display_names,
    taken_session_names,
    NamePass, NameRecord, SessionKey, NameStep, NamedSession, PendingName, SessionNameFacts, ShownName,
};

fn named(id: &str, name: &str, root: Option<&str>) -> NamedSession {
    NamedSession {
        id: id.to_owned(),
        name: name.to_owned(),
        root: root.map(str::to_owned),
    }
}

fn pending(id: &str, cwd: &str, name: &str) -> PendingName {
    PendingName {
        session_id: id.to_owned(),
        cwd: cwd.to_owned(),
        name: name.to_owned(),
        display_name: name.to_owned(),
    }
}

#[test]
fn pending_names_wait_until_reported_or_moved() {
    let sessions = vec![named("$1", "proj", Some("/p")), named("$2", "other", Some("/o"))];
    assert!(!keep_pending_name(&pending("$9", "/x", "proj"), &sessions));
    assert!(keep_pending_name(&pending("$9", "/x", "new"), &sessions));
    assert!(keep_pending_name(&pending("$1", "/p", "proj-2"), &sessions));
    assert!(!keep_pending_name(&pending("$1", "/elsewhere", "proj-2"), &sessions));
    let kept = prune_pending_names(
        vec![pending("$9", "/x", "proj"), pending("$1", "/p", "proj-2")],
        &sessions,
    );
    assert_eq!(kept.len(), 1);
    assert_eq!(kept[0].name, "proj-2");
}

fn facts(name: &str, record: NameRecord) -> SessionNameFacts {
    SessionNameFacts {
        name: name.to_owned(),
        root: "/p".to_owned(),
        record,
        pending: None,
        suggested: "proj".to_owned(),
        extends_generated: false,
        extends_suggested: false,
        desired: "proj".to_owned(),
        rename_supported: true,
    }
}

fn record(generated: &str, display: &str, explicit: bool) -> NameRecord {
    NameRecord {
        generated_name: generated.to_owned(),
        display_name: display.to_owned(),
        explicit,
    }
}

#[test]
fn generated_names_are_renamed_and_chosen_names_kept() {
    let d = reconcile_session_name(&facts("shell", record("shell", "shell", false)));
    assert!(matches!(d.step, NameStep::Rename(ref n) if n == "proj"));

    let d = reconcile_session_name(&facts("proj", record("proj", "proj", false)));
    assert!(matches!(d.step, NameStep::Unchanged));

    let d = reconcile_session_name(&facts("mine", record("proj", "mine", true)));
    assert!(matches!(d.step, NameStep::KeepExplicit));

    let d = reconcile_session_name(&facts("renamed", record("proj", "proj", false)));
    assert!(matches!(d.step, NameStep::MarkExplicit));

    let mut f = facts("shell", record("shell", "shell", false));
    f.rename_supported = false;
    assert!(matches!(reconcile_session_name(&f).step, NameStep::Unchanged));
}

#[test]
fn old_records_get_a_shown_name_and_suffixed_names_come_back() {
    let mut f = facts("proj-2", record("proj", "", true));
    f.extends_generated = true;
    f.extends_suggested = true;
    let d = reconcile_session_name(&f);
    assert_eq!(d.record.generated_name, "proj-2");
    assert_eq!(d.record.display_name, "proj");
    assert!(!d.record.explicit);

    let f = facts("mine", record("proj", "", true));
    let d = reconcile_session_name(&f);
    assert_eq!(d.record.display_name, "mine");
    assert!(d.record.explicit);
}

#[test]
fn pending_renames_are_adopted_or_dropped() {
    let mut f = facts("proj", record("shell", "shell", false));
    f.pending = Some(pending("$1", "/p", "proj"));
    assert!(matches!(reconcile_session_name(&f).step, NameStep::AdoptPending));

    f.name = "handmade".to_owned();
    assert!(matches!(
        reconcile_session_name(&f).step,
        NameStep::DropPendingMarkExplicit
    ));

    f.name = "shell".to_owned();
    assert!(matches!(reconcile_session_name(&f).step, NameStep::AwaitPending));

    f.pending = Some(pending("$1", "/moved", "proj"));
    let d = reconcile_session_name(&f);
    assert!(d.stale_pending_dropped);
    assert!(matches!(d.step, NameStep::Rename(_)));
}

fn shown(name: &str, display: Option<&str>) -> ShownName {
    ShownName {
        name: name.to_owned(),
        display_name: display.map(str::to_owned),
    }
}

#[test]
fn duplicate_display_names_fall_back_to_backend_names() {
    let names = session_display_names(&[
        shown("proj-2", Some("proj")),
        shown("proj", Some("proj")),
        shown("notes", None),
        shown("web-1", Some("web")),
    ]);
    assert_eq!(names, vec!["proj-2", "proj", "notes", "web"]);
    assert!(session_display_names(&[]).is_empty());
}

#[test]
fn taken_names_leave_out_only_the_renamed_session() {
    let reported = vec!["a".to_owned(), "b".to_owned()];
    let pending = vec!["c".to_owned(), "b".to_owned()];
    assert_eq!(
        taken_session_names(&reported, &pending, None),
        vec!["a", "b", "c", "b"]
    );
    assert_eq!(
        taken_session_names(&reported, &pending, Some("b")),
        vec!["a", "c"]
    );
}

#[test]
fn ditch_cleanup_runs_the_git_steps_the_action_asks_for() {
    assert!(ditch_cleanup_steps(None, &DitchAction::DetachWorktree, true).is_empty());
    assert!(ditch_cleanup_steps(Some("/w"), &DitchAction::KillOnly, true).is_empty());
    assert!(matches!(
        ditch_cleanup_steps(Some("/w"), &DitchAction::DetachWorktree, true).as_slice(),
        [CleanupStep::DetachHead { cwd }] if cwd == "/w"
    ));
    assert!(matches!(
        ditch_cleanup_steps(Some("/w"), &DitchAction::RemoveWorktree { force: true }, false).as_slice(),
        [CleanupStep::RemoveWorktree { cwd, force: true }] if cwd == "/w"
    ));
    let both = DitchAction::RemoveWorktreeAndBranch {
        force: false,
        branch: "feature".to_owned(),
        repo: "/repo".to_owned(),
    };
    assert!(matches!(
        ditch_cleanup_steps(Some("/w"), &both, true).as_slice(),
        [CleanupStep::RemoveWorktree { force: false, .. }, CleanupStep::DeleteBranch { branch, repo, force: false }]
            if branch == "feature" && repo == "/repo"
    ));
    assert!(matches!(
        ditch_cleanup_steps(Some("/w"), &both, false).as_slice(),
        [CleanupStep::DeleteBranch { .. }]
    ));
}

#[test]
fn recording_a_pending_name_replaces_the_sessions_earlier_one() {
    let table = vec![pending("$1", "/p", "proj"), pending("$2", "/o", "other")];
    let table = record_pending_name(table, pending("$1", "/q", "q"));
    let ids: Vec<(&str, &str)> =
        table.iter().map(|p| (p.session_id.as_str(), p.name.as_str())).collect();
    assert_eq!(ids, vec![("$2", "other"), ("$1", "q")]);

    let table = forget_pending_name(table, "$2");
    let ids: Vec<&str> = table.iter().map(|p| p.session_id.as_str()).collect();
    assert_eq!(ids, vec!["$1"]);
    assert_eq!(forget_pending_name(table, "$7").len(), 1);
}

fn sorted(mut names: Vec<String>) -> Vec<String> {
    names.sort();
    names
}

#[test]
fn names_planned_in_a_pass_count_against_later_sessions() {
    let taken = vec!["proj".to_owned(), "notes".to_owned()];
    let mut pass = NamePass::start(taken, &[pending("$9", "/x", "waiting")]);
    assert_eq!(sorted(pass.existing_names("proj")), vec!["notes", "waiting"]);

    pass.plan("$1".to_owned(), "proj-2".to_owned());
    assert_eq!(sorted(pass.existing_names("notes")), vec!["proj", "proj-2", "waiting"]);
    assert_eq!(pass.renames, vec![("$1".to_owned(), "proj-2".to_owned())]);

    pass.unplan("waiting");
    assert_eq!(sorted(pass.existing_names("other")), vec!["notes", "proj", "proj-2"]);
}

fn key(id: &str, name: &str, cwd: &str) -> SessionKey {
    SessionKey { id: id.to_owned(), name: name.to_owned(), cwd: cwd.to_owned() }
}

#[test]
fn name_pass_runs_only_when_the_session_list_changed_and_never_on_rmux() {
    let mut last = None;
    assert!(!generated_names_need_sync(true, &mut last, vec![key("$1", "proj", "/p")]));
    assert!(last.is_none());
    assert!(generated_names_need_sync(false, &mut last, vec![key("$1", "proj", "/p")]));
    assert!(!generated_names_need_sync(false, &mut last, vec![key("$1", "proj", "/p")]));
    assert!(generated_names_need_sync(false, &mut last, vec![key("$1", "proj-2", "/p")]));
    assert!(generated_names_need_sync(false, &mut last, vec![key("$1", "proj-2", "/q")]));
    assert!(generated_names_need_sync(false, &mut last, Vec::new()));
    assert!(!generated_names_need_sync(false, &mut last, Vec::new()));
}
