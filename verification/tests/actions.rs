use qit::cli::Command;
use qit::commit_type::CommitType;
use qit::dispatch::{dispatch, Action};
use qit::plan::{plan_commit_action, plan_log, plan_push, plan_undo, PushError};
use qit::status::{count_pending, StatusEntry};
use qit::switch::{switch_next, switch_start, SwitchState};

fn strs(parts: &[&str]) -> Vec<String> {
    parts.iter().map(|s| s.to_string()).collect()
}

#[test]
fn commit_action_stages_then_commits() {
    let steps = plan_commit_action(CommitType::Feature, None, "Add thing", false, true);
    assert_eq!(steps.len(), 2);
    assert_eq!(steps[0].args, strs(&["add", "-A", "*", ".*"]));
    assert!(!steps[0].quiet);
    assert_eq!(
        steps[1].args,
        strs(&["commit", "-am", "\u{2728} feature: Add thing"])
    );
    assert!(!steps[1].quiet);
}

#[test]
fn commit_action_can_skip_hooks() {
    let steps = plan_commit_action(CommitType::Chore, Some("ci"), "Tidy", true, false);
    assert_eq!(
        steps[1].args,
        strs(&["commit", "--no-verify", "-am", "chore(ci): Tidy"])
    );
}

#[test]
fn push_with_no_pending_changes_runs_plain() {
    let cmd = plan_push(Some(0), false).unwrap();
    assert_eq!(cmd.args, strs(&["push"]));
    assert!(!cmd.quiet);
}

#[test]
fn push_with_pending_changes_is_refused() {
    let r = plan_push(Some(3), false);
    assert!(matches!(r, Err(PushError::UncommittedChanges)));
}

#[test]
fn forced_push_ignores_pending_changes() {
    let cmd = plan_push(Some(3), true).unwrap();
    assert_eq!(cmd.args, strs(&["push", "--force"]));
}

#[test]
fn failed_status_query_does_not_block_push() {
    let cmd = plan_push(None, false).unwrap();
    assert_eq!(cmd.args, strs(&["push"]));
}

#[test]
fn uncommitted_changes_error_describes_itself() {
    let e = plan_push(Some(1), false).unwrap_err();
    assert_eq!(e.describe(), "There are uncommitted changes");
}

#[test]
fn undo_is_a_soft_reset() {
    let cmd = plan_undo();
    assert_eq!(cmd.args, strs(&["reset", "--soft", "HEAD~1"]));
    assert!(!cmd.quiet);
}

#[test]
fn log_is_plain_or_oneline() {
    assert_eq!(plan_log(false).args, strs(&["log"]));
    assert_eq!(plan_log(true).args, strs(&["log", "--oneline"]));
}

#[test]
fn switch_to_existing_branch_checks_out_once() {
    let (state, first) = switch_start("main");
    assert_eq!(state, SwitchState::AttemptingCheckout);
    assert_eq!(first.args, strs(&["checkout", "main"]));
    assert!(first.quiet);
    let (state, extra) = switch_next(state, "main", true);
    assert_eq!(state, SwitchState::Done);
    assert!(extra.is_none());
}

#[test]
fn switch_to_missing_branch_falls_back_to_create() {
    let (state, first) = switch_start("feature/x");
    assert_eq!(first.args, strs(&["checkout", "feature/x"]));
    let (state, fallback) = switch_next(state, "feature/x", false);
    assert_eq!(state, SwitchState::CreatingBranch);
    let create = fallback.expect("a create invocation follows a failed checkout");
    assert_eq!(create.args, strs(&["checkout", "-b", "feature/x"]));
    assert!(!create.quiet);
    let (state, extra) = switch_next(state, "feature/x", true);
    assert_eq!(state, SwitchState::Done);
    assert!(extra.is_none());
}

#[test]
fn switch_fails_when_create_fails() {
    let (state, _) = switch_start("x");
    let (state, _) = switch_next(state, "x", false);
    let (state, extra) = switch_next(state, "x", false);
    assert_eq!(state, SwitchState::Failed);
    assert!(extra.is_none());
}

fn entry(modified: bool, untracked: bool, ignored: bool) -> StatusEntry {
    StatusEntry { modified, added: false, deleted: false, untracked, ignored }
}

#[test]
fn empty_status_has_no_pending_changes() {
    assert_eq!(count_pending(&Vec::new()), 0);
}

#[test]
fn pending_count_excludes_ignored_and_clean() {
    let entries = vec![
        entry(true, false, false),
        entry(false, true, false),
        entry(true, false, true),
        entry(false, false, false),
        StatusEntry { modified: false, added: true, deleted: false, untracked: false, ignored: false },
        StatusEntry { modified: false, added: false, deleted: true, untracked: false, ignored: false },
    ];
    assert_eq!(count_pending(&entries), 4);
}

#[test]
fn dispatch_routes_each_command() {
    let commit = Command::Commit {
        ctype: CommitType::Fix,
        area: Some("cli".to_string()),
        message: "Fix bug".to_string(),
        skip_hooks: false,
    };
    match dispatch(&commit, false) {
        Action::RunSteps { steps } => {
            assert_eq!(steps.len(), 2);
            assert_eq!(steps[1].args, strs(&["commit", "-am", "fix(cli): Fix bug"]));
        }
        other => panic!("unexpected action: {:?}", other),
    }
    match dispatch(&Command::Push { force: true }, true) {
        Action::GuardedPush { force } => assert!(force),
        other => panic!("unexpected action: {:?}", other),
    }
    match dispatch(&Command::Undo, true) {
        Action::RunSteps { steps } => {
            assert_eq!(steps.len(), 1);
            assert_eq!(steps[0].args, strs(&["reset", "--soft", "HEAD~1"]));
        }
        other => panic!("unexpected action: {:?}", other),
    }
    match dispatch(&Command::Log { short: true }, true) {
        Action::RunSteps { steps } => {
            assert_eq!(steps[0].args, strs(&["log", "--oneline"]));
        }
        other => panic!("unexpected action: {:?}", other),
    }
    match dispatch(&Command::Switch { branch: "dev".to_string() }, true) {
        Action::RunSwitch { branch } => assert_eq!(branch, "dev"),
        other => panic!("unexpected action: {:?}", other),
    }
    assert!(matches!(
        dispatch(&Command::Status, true),
        Action::ReportStatus
    ));
}
