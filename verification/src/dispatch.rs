//! The command dispatcher's routing side: a parsed command becomes the
//! action protocol the application is to run — a strict sequence of
//! invocations that stops at the first failure, the guarded push, the
//! branch-switch machine, or the status report.

use vstd::prelude::*;
use crate::cli::{Command, CommandV};
use crate::message::spec_formatted;
use crate::plan::{
    GitCmd, plan_commit_action, plan_log, plan_undo, spec_commit_argv, spec_log_argv,
    spec_stage_argv, spec_undo_argv,
};

verus! {

/// What the application does for one parsed command.
#[derive(Debug)]
pub enum Action {
    /// Spawn each invocation in order, waiting for each; stop and
    /// propagate on the first failure.
    RunSteps { steps: Vec<GitCmd> },
    /// Query the pending-change count, then let the push guard decide.
    GuardedPush { force: bool },
    /// Run the branch-switch machine on this branch name.
    RunSwitch { branch: String },
    /// Query and print the pending-change count.
    ReportStatus,
}

/// Routes a parsed command to its action.
pub fn dispatch(cmd: &Command, emojis_enabled: bool) -> (a: Action)
    ensures
        (match cmd@ {
            CommandV::Commit { ctype, area, message, skip_hooks } => {
                &&& a matches Action::RunSteps { steps }
                &&& steps@.len() == 2
                &&& steps@[0].args.deep_view() == spec_stage_argv()
                &&& !steps@[0].quiet
                &&& steps@[1].args.deep_view() == spec_commit_argv(
                    spec_formatted(ctype, area, message, emojis_enabled),
                    skip_hooks,
                )
                &&& !steps@[1].quiet
            },
            CommandV::Push { force } => a == (Action::GuardedPush { force }),
            CommandV::Undo => {
                &&& a matches Action::RunSteps { steps }
                &&& steps@.len() == 1
                &&& steps@[0].args.deep_view() == spec_undo_argv()
                &&& !steps@[0].quiet
            },
            CommandV::Log { short } => {
                &&& a matches Action::RunSteps { steps }
                &&& steps@.len() == 1
                &&& steps@[0].args.deep_view() == spec_log_argv(short)
                &&& !steps@[0].quiet
            },
            CommandV::Switch { branch } => {
                &&& a matches Action::RunSwitch { branch: b }
                &&& b@ == branch
            },
            CommandV::Status => a == Action::ReportStatus,
        }),
{
    match cmd {
        Command::Commit { ctype, area, message, skip_hooks } => {
            let area_ref: Option<&str> = match area {
                Some(a) => Some(a.as_str()),
                None => None,
            };
            let steps = plan_commit_action(
                *ctype,
                area_ref,
                message.as_str(),
                *skip_hooks,
                emojis_enabled,
            );
            Action::RunSteps { steps }
        },
        Command::Push { force } => Action::GuardedPush { force: *force },
        Command::Undo => {
            let mut steps: Vec<GitCmd> = Vec::new();
            steps.push(plan_undo());
            Action::RunSteps { steps }
        },
        Command::Log { short } => {
            let mut steps: Vec<GitCmd> = Vec::new();
            steps.push(plan_log(*short));
            Action::RunSteps { steps }
        },
        Command::Switch { branch } => Action::RunSwitch { branch: branch.clone() },
        Command::Status => Action::ReportStatus,
    }
}

} // verus!
