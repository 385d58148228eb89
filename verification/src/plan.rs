//! Argument lists for the external version-control tool. Each action
//! handler composes here, as plain values, exactly the invocation (or the
//! strict sequence of invocations) that the action performs; the
//! surrounding application spawns them in order and stops at the first
//! failure.

use vstd::prelude::*;
use crate::commit_type::CommitType;
use crate::message::{format_commit_message, spec_formatted};

verus! {

/// One invocation of the external tool: its argument list (without the
/// tool's own name) and whether its output is suppressed.
#[derive(Debug)]
pub struct GitCmd {
    pub args: Vec<String>,
    pub quiet: bool,
}

/// `add -A * .*`: stage all changes, including new and deleted files,
/// across the entire working tree.
pub open spec fn spec_stage_argv() -> Seq<Seq<char>> {
    seq!["add"@, "-A"@, "*"@, ".*"@]
}

/// `commit [--no-verify] -am <message>`.
pub open spec fn spec_commit_argv(msg: Seq<char>, skip_hooks: bool) -> Seq<Seq<char>> {
    if skip_hooks {
        seq!["commit"@, "--no-verify"@, "-am"@, msg]
    } else {
        seq!["commit"@, "-am"@, msg]
    }
}

/// `push [--force]`.
pub open spec fn spec_push_argv(force: bool) -> Seq<Seq<char>> {
    if force {
        seq!["push"@, "--force"@]
    } else {
        seq!["push"@]
    }
}

/// `reset --soft HEAD~1`: undo the last commit, keeping its changes.
pub open spec fn spec_undo_argv() -> Seq<Seq<char>> {
    seq!["reset"@, "--soft"@, "HEAD~1"@]
}

/// `log [--oneline]`.
pub open spec fn spec_log_argv(short: bool) -> Seq<Seq<char>> {
    if short {
        seq!["log"@, "--oneline"@]
    } else {
        seq!["log"@]
    }
}

/// The commit action: first stage everything, then commit with the
/// formatted message. The two invocations run in this order, and the
/// second must not run if the first fails.
pub fn plan_commit_action(
    t: CommitType,
    area: Option<&str>,
    message: &str,
    skip_hooks: bool,
    emojis_enabled: bool,
) -> (r: Vec<GitCmd>)
    ensures
        r@.len() == 2,
        r@[0].args.deep_view() == spec_stage_argv(),
        !r@[0].quiet,
        r@[1].args.deep_view() == spec_commit_argv(
            spec_formatted(t, area.deep_view(), message@, emojis_enabled),
            skip_hooks,
        ),
        !r@[1].quiet,
{
    let mut stage_args: Vec<String> = Vec::new();
    stage_args.push("add".to_owned());
    stage_args.push("-A".to_owned());
    stage_args.push("*".to_owned());
    stage_args.push(".*".to_owned());
    proof {
        assert(stage_args.deep_view() =~= spec_stage_argv());
    }
    let formatted = format_commit_message(t, area, message, emojis_enabled);
    let mut commit_args: Vec<String> = Vec::new();
    commit_args.push("commit".to_owned());
    if skip_hooks {
        commit_args.push("--no-verify".to_owned());
    }
    commit_args.push("-am".to_owned());
    commit_args.push(formatted);
    proof {
        assert(commit_args.deep_view() =~= spec_commit_argv(
            spec_formatted(t, area.deep_view(), message@, emojis_enabled),
            skip_hooks,
        ));
    }
    let mut steps: Vec<GitCmd> = Vec::new();
    steps.push(GitCmd { args: stage_args, quiet: false });
    steps.push(GitCmd { args: commit_args, quiet: false });
    steps
}

/// The distinct, locally detected condition that blocks a non-forced push.
#[derive(Clone, Copy, Debug, PartialEq, Eq, Structural)]
pub enum PushError {
    UncommittedChanges,
}

impl PushError {
    /// A short human-readable description of the condition.
    pub fn describe(&self) -> (r: String)
        ensures
            r@ == "There are uncommitted changes"@,
    {
        "There are uncommitted changes".to_owned()
    }
}

/// The push action's guard and invocation. `pending` is the pending-change
/// count, or `None` when the status query itself failed, which is
/// deliberately treated as "no pending changes". The push is refused, and
/// the external tool not invoked, exactly when a positive count was
/// determined and force was not requested; otherwise the push argument
/// list is returned, with the force flag exactly when force was requested.
pub fn plan_push(pending: Option<usize>, force: bool) -> (r: Result<GitCmd, PushError>)
    ensures
        r is Err <==> !force && (match pending {
            Some(n) => n > 0,
            None => false,
        }),
        r is Err ==> r == Result::<GitCmd, PushError>::Err(PushError::UncommittedChanges),
        r is Ok ==> r->Ok_0.args.deep_view() == spec_push_argv(force) && !r->Ok_0.quiet,
{
    let pending_changes = match pending {
        Some(n) => n > 0,
        None => false,
    };
    if pending_changes && !force {
        return Err(PushError::UncommittedChanges);
    }
    let mut args: Vec<String> = Vec::new();
    args.push("push".to_owned());
    if force {
        args.push("--force".to_owned());
    }
    proof {
        assert(args.deep_view() =~= spec_push_argv(force));
    }
    Ok(GitCmd { args, quiet: false })
}

/// The undo action: a soft reset to the parent of the current tip.
pub fn plan_undo() -> (r: GitCmd)
    ensures
        r.args.deep_view() == spec_undo_argv(),
        !r.quiet,
{
    let mut args: Vec<String> = Vec::new();
    args.push("reset".to_owned());
    args.push("--soft".to_owned());
    args.push("HEAD~1".to_owned());
    proof {
        assert(args.deep_view() =~= spec_undo_argv());
    }
    GitCmd { args, quiet: false }
}

/// The log action: stream the history, condensed to one line per commit
/// when `short` is requested.
pub fn plan_log(short: bool) -> (r: GitCmd)
    ensures
        r.args.deep_view() == spec_log_argv(short),
        !r.quiet,
{
    let mut args: Vec<String> = Vec::new();
    args.push("log".to_owned());
    if short {
        args.push("--oneline".to_owned());
    }
    proof {
        assert(args.deep_view() =~= spec_log_argv(short));
    }
    GitCmd { args, quiet: false }
}

} // verus!
