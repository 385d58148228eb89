use qit::cli::{parse_args, Command, UsageError};
use qit::commit_type::CommitType;

fn args_of(parts: &[&str]) -> Vec<String> {
    parts.iter().map(|s| s.to_string()).collect()
}

#[test]
fn commit_with_type_and_message() {
    let r = parse_args(&args_of(&["commit", "feature", "Add thing"]));
    match r {
        Ok(Command::Commit { ctype, area, message, skip_hooks }) => {
            assert_eq!(ctype, CommitType::Feature);
            assert_eq!(area, None);
            assert_eq!(message, "Add thing");
            assert!(!skip_hooks);
        }
        other => panic!("unexpected parse: {:?}", other),
    }
}

#[test]
fn commit_alias_with_all_options() {
    let r = parse_args(&args_of(&["c", "fix", "-a", "cli", "Fix bug", "-n"]));
    match r {
        Ok(Command::Commit { ctype, area, message, skip_hooks }) => {
            assert_eq!(ctype, CommitType::Fix);
            assert_eq!(area.as_deref(), Some("cli"));
            assert_eq!(message, "Fix bug");
            assert!(skip_hooks);
        }
        other => panic!("unexpected parse: {:?}", other),
    }
}

#[test]
fn commit_long_options_interleaved() {
    let r = parse_args(&args_of(&["commit", "--no-verify", "doc", "--area", "api", "Write docs"]));
    match r {
        Ok(Command::Commit { ctype, area, message, skip_hooks }) => {
            assert_eq!(ctype, CommitType::Doc);
            assert_eq!(area.as_deref(), Some("api"));
            assert_eq!(message, "Write docs");
            assert!(skip_hooks);
        }
        other => panic!("unexpected parse: {:?}", other),
    }
}

#[test]
fn commit_repeated_area_takes_last() {
    let r = parse_args(&args_of(&["commit", "-a", "one", "-a", "two", "chore", "Tidy"]));
    match r {
        Ok(Command::Commit { area, .. }) => assert_eq!(area.as_deref(), Some("two")),
        other => panic!("unexpected parse: {:?}", other),
    }
}

#[test]
fn commit_missing_message_is_usage_error() {
    let r = parse_args(&args_of(&["commit", "feature"]));
    assert!(matches!(r, Err(UsageError::MissingArgument)));
}

#[test]
fn commit_missing_area_value_is_usage_error() {
    let r = parse_args(&args_of(&["commit", "feature", "msg", "--area"]));
    assert!(matches!(r, Err(UsageError::MissingOptionValue)));
}

#[test]
fn commit_invalid_type_is_usage_error() {
    let r = parse_args(&args_of(&["commit", "bogus", "msg"]));
    assert!(matches!(r, Err(UsageError::InvalidCommitType)));
}

#[test]
fn commit_third_positional_is_usage_error() {
    let r = parse_args(&args_of(&["commit", "feature", "msg", "extra"]));
    assert!(matches!(r, Err(UsageError::UnexpectedArgument)));
}

#[test]
fn push_plain_and_forced() {
    assert!(matches!(
        parse_args(&args_of(&["push"])),
        Ok(Command::Push { force: false })
    ));
    assert!(matches!(
        parse_args(&args_of(&["p", "--force"])),
        Ok(Command::Push { force: true })
    ));
    assert!(matches!(
        parse_args(&args_of(&["push", "-f"])),
        Ok(Command::Push { force: true })
    ));
}

#[test]
fn push_unknown_option_is_usage_error() {
    let r = parse_args(&args_of(&["push", "--loud"]));
    assert!(matches!(r, Err(UsageError::UnknownOption)));
}

#[test]
fn push_positional_is_usage_error() {
    let r = parse_args(&args_of(&["push", "origin"]));
    assert!(matches!(r, Err(UsageError::UnexpectedArgument)));
}

#[test]
fn undo_and_alias() {
    assert!(matches!(parse_args(&args_of(&["undo"])), Ok(Command::Undo)));
    assert!(matches!(parse_args(&args_of(&["u"])), Ok(Command::Undo)));
}

#[test]
fn undo_extra_argument_is_usage_error() {
    let r = parse_args(&args_of(&["undo", "now"]));
    assert!(matches!(r, Err(UsageError::UnexpectedArgument)));
}

#[test]
fn log_plain_and_short() {
    assert!(matches!(
        parse_args(&args_of(&["log"])),
        Ok(Command::Log { short: false })
    ));
    assert!(matches!(
        parse_args(&args_of(&["l", "-s"])),
        Ok(Command::Log { short: true })
    ));
    assert!(matches!(
        parse_args(&args_of(&["log", "--short"])),
        Ok(Command::Log { short: true })
    ));
}

#[test]
fn switch_takes_one_branch() {
    let r = parse_args(&args_of(&["switch", "feature/x"]));
    match r {
        Ok(Command::Switch { branch }) => assert_eq!(branch, "feature/x"),
        other => panic!("unexpected parse: {:?}", other),
    }
    assert!(matches!(
        parse_args(&args_of(&["s", "main"])),
        Ok(Command::Switch { .. })
    ));
}

#[test]
fn switch_without_branch_is_usage_error() {
    let r = parse_args(&args_of(&["switch"]));
    assert!(matches!(r, Err(UsageError::MissingArgument)));
}

#[test]
fn switch_with_two_branches_is_usage_error() {
    let r = parse_args(&args_of(&["switch", "a", "b"]));
    assert!(matches!(r, Err(UsageError::UnexpectedArgument)));
}

#[test]
fn empty_arguments_report_status() {
    assert!(matches!(parse_args(&args_of(&[])), Ok(Command::Status)));
}

#[test]
fn status_subcommand() {
    assert!(matches!(parse_args(&args_of(&["status"])), Ok(Command::Status)));
}

#[test]
fn unrecognized_subcommand_is_usage_error() {
    let r = parse_args(&args_of(&["frobnicate"]));
    assert!(matches!(r, Err(UsageError::UnknownCommand)));
    let r2 = parse_args(&args_of(&["Push"]));
    assert!(matches!(r2, Err(UsageError::UnknownCommand)));
}

#[test]
fn usage_errors_describe_themselves() {
    let errors = vec![
        UsageError::UnknownCommand,
        UsageError::UnknownOption,
        UsageError::UnexpectedArgument,
        UsageError::MissingArgument,
        UsageError::MissingOptionValue,
        UsageError::InvalidCommitType,
    ];
    let texts: Vec<String> = errors.iter().map(|e| e.describe()).collect();
    for t in &texts {
        assert!(!t.is_empty());
    }
    for i in 0..texts.len() {
        for j in 0..texts.len() {
            if i != j {
                assert_ne!(texts[i], texts[j]);
            }
        }
    }
}
