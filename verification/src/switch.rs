//! The branch-switch action: try to check out an existing branch with the
//! external tool's output suppressed; if that attempt fails, fall back to
//! creating and checking out a new branch with that name, with normal
//! output. This is the one multi-state behavior in the system.

use vstd::prelude::*;
use crate::plan::GitCmd;

verus! {

/// The states of the branch-switch machine.
#[derive(Clone, Copy, Debug, PartialEq, Eq, Structural)]
pub enum SwitchState {
    AttemptingCheckout,
    CreatingBranch,
    Done,
    Failed,
}

/// `checkout <branch>`, output suppressed.
pub open spec fn spec_checkout_argv(branch: Seq<char>) -> Seq<Seq<char>> {
    seq!["checkout"@, branch]
}

/// `checkout -b <branch>`: create the branch and check it out.
pub open spec fn spec_create_branch_argv(branch: Seq<char>) -> Seq<Seq<char>> {
    seq!["checkout"@, "-b"@, branch]
}

/// The state the machine moves to when the invocation issued in `state`
/// reports `success`.
pub open spec fn spec_switch_next(state: SwitchState, success: bool) -> SwitchState {
    match state {
        SwitchState::AttemptingCheckout => if success {
            SwitchState::Done
        } else {
            SwitchState::CreatingBranch
        },
        SwitchState::CreatingBranch => if success {
            SwitchState::Done
        } else {
            SwitchState::Failed
        },
        _ => state,
    }
}

/// Whether that transition issues the create-and-checkout invocation: only
/// on a failed first checkout attempt.
pub open spec fn spec_switch_emits_create(state: SwitchState, success: bool) -> bool {
    state == SwitchState::AttemptingCheckout && !success
}

/// Starts the branch-switch machine: the initial state and the quiet
/// checkout attempt to run first.
pub fn switch_start(branch: &str) -> (r: (SwitchState, GitCmd))
    ensures
        r.0 == SwitchState::AttemptingCheckout,
        r.1.args.deep_view() == spec_checkout_argv(branch@),
        r.1.quiet,
{
    let mut args: Vec<String> = Vec::new();
    args.push("checkout".to_owned());
    args.push(branch.to_owned());
    proof {
        assert(args.deep_view() =~= spec_checkout_argv(branch@));
    }
    (SwitchState::AttemptingCheckout, GitCmd { args, quiet: true })
}

/// Advances the machine after an invocation exits: the next state, and the
/// fallback invocation to run next, if any. Exactly the failed first
/// checkout attempt leads to one create-and-checkout invocation; every
/// other transition issues nothing.
pub fn switch_next(state: SwitchState, branch: &str, success: bool) -> (r: (
    SwitchState,
    Option<GitCmd>,
))
    requires
        state == SwitchState::AttemptingCheckout || state == SwitchState::CreatingBranch,
    ensures
        r.0 == spec_switch_next(state, success),
        r.1 is Some <==> spec_switch_emits_create(state, success),
        r.1 is Some ==> r.1->0.args.deep_view() == spec_create_branch_argv(branch@)
            && !r.1->0.quiet,
{
    match state {
        SwitchState::AttemptingCheckout => {
            if success {
                (SwitchState::Done, None)
            } else {
                let mut args: Vec<String> = Vec::new();
                args.push("checkout".to_owned());
                args.push("-b".to_owned());
                args.push(branch.to_owned());
                proof {
                    assert(args.deep_view() =~= spec_create_branch_argv(branch@));
                }
                (SwitchState::CreatingBranch, Some(GitCmd { args, quiet: false }))
            }
        },
        _ => {
            if success {
                (SwitchState::Done, None)
            } else {
                (SwitchState::Failed, None)
            }
        },
    }
}

/// A full run of the branch-switch machine. When the first checkout
/// attempt succeeds, the machine is done and no create invocation is ever
/// issued. When it fails, exactly one create-and-checkout invocation is
/// issued, after which the machine is done on success and failed (the
/// error propagates) on failure; the machine never issues a second
/// invocation after the fallback.
pub proof fn lemma_switch_machine(first_success: bool, second_success: bool)
    ensures
        first_success ==> spec_switch_next(SwitchState::AttemptingCheckout, true)
            == SwitchState::Done && !spec_switch_emits_create(
            SwitchState::AttemptingCheckout,
            true,
        ),
        !first_success ==> spec_switch_emits_create(SwitchState::AttemptingCheckout, false)
            && spec_switch_next(SwitchState::AttemptingCheckout, false)
            == SwitchState::CreatingBranch,
        !first_success && second_success ==> spec_switch_next(SwitchState::CreatingBranch, true)
            == SwitchState::Done && !spec_switch_emits_create(SwitchState::CreatingBranch, true),
        !first_success && !second_success ==> spec_switch_next(SwitchState::CreatingBranch, false)
            == SwitchState::Failed && !spec_switch_emits_create(SwitchState::CreatingBranch, false),
{
}

} // verus!
