//! Cleaning up after a session is ditched: which git operations run on the session's worktree.
use vstd::prelude::*;

verus! {

/// What ditching a session does to its git worktree besides killing the session.
#[derive(Clone, Debug)]
pub enum DitchAction {
    KillOnly,
    DetachWorktree,
    RemoveWorktree { force: bool },
    RemoveWorktreeAndBranch { force: bool, branch: String, repo: String },
}

/// One git operation of the cleanup.
#[derive(Clone, Debug)]
pub enum CleanupStep {
    /// Detach the worktree's HEAD.
    DetachHead { cwd: String },
    /// Remove the worktree directory.
    RemoveWorktree { cwd: String, force: bool },
    /// Delete the branch from the repository.
    DeleteBranch { repo: String, branch: String, force: bool },
}

/// The cleanup's steps, run in order until one fails. Without a directory there is nothing to
/// clean. Removing worktree and branch skips the worktree when its directory is already gone (an
/// earlier attempt removed it but could not delete the branch), and still deletes the branch.
pub open spec fn cleanup_steps_for(
    cwd: Option<Seq<char>>,
    action: DitchAction,
    worktree_present: bool,
    steps: Seq<CleanupStep>,
) -> bool {
    match cwd {
        None => steps.len() == 0,
        Some(dir) => match action {
            DitchAction::KillOnly => steps.len() == 0,
            DitchAction::DetachWorktree => steps.len() == 1 && (steps[0] matches CleanupStep::DetachHead {
                cwd,
            } && cwd@ == dir),
            DitchAction::RemoveWorktree { force } => steps.len() == 1 && (
            steps[0] matches CleanupStep::RemoveWorktree { cwd, force: f } && cwd@ == dir && f
                == force),
            DitchAction::RemoveWorktreeAndBranch { force, branch, repo } => {
                let delete_ok = steps.last() matches CleanupStep::DeleteBranch {
                    repo: r,
                    branch: b,
                    force: f,
                } && r@ == repo@ && b@ == branch@ && f == force;
                if worktree_present {
                    steps.len() == 2 && (steps[0] matches CleanupStep::RemoveWorktree { cwd, force: f }
                        && cwd@ == dir && f == force) && delete_ok
                } else {
                    steps.len() == 1 && delete_ok
                }
            },
        },
    }
}

/// The steps of the cleanup (see `cleanup_steps_for`); `worktree_present` says whether the
/// session's directory still exists.
pub fn ditch_cleanup_steps(cwd: Option<&str>, action: &DitchAction, worktree_present: bool) -> (r: Vec<
    CleanupStep,
>)
    ensures
        cleanup_steps_for(crate::layout::opt_str(cwd), *action, worktree_present, r@),
{
    let mut steps: Vec<CleanupStep> = Vec::new();
    let dir = match cwd {
        Some(d) => d,
        None => return steps,
    };
    match action {
        DitchAction::KillOnly => {},
        DitchAction::DetachWorktree => {
            steps.push(CleanupStep::DetachHead { cwd: dir.to_owned() });
        },
        DitchAction::RemoveWorktree { force } => {
            steps.push(CleanupStep::RemoveWorktree { cwd: dir.to_owned(), force: *force });
        },
        DitchAction::RemoveWorktreeAndBranch { force, branch, repo } => {
            if worktree_present {
                steps.push(CleanupStep::RemoveWorktree { cwd: dir.to_owned(), force: *force });
            }
            steps.push(
                CleanupStep::DeleteBranch { repo: repo.clone(), branch: branch.clone(), force: *force },
            );
        },
    }
    steps
}

} // verus!
