//! The command dispatcher's parsing side: recognizing a fixed set of
//! subcommands and their options from the process's argument list, all or
//! nothing per subcommand. An unrecognized subcommand or a missing
//! required argument is a usage error, reported before any external
//! process runs.

use vstd::prelude::*;
use vstd::string::StrSliceExecFns;
use crate::commit_type::{CommitType, spec_commit_type_of};
use crate::text::str_eq;

verus! {

/// A fully parsed invocation: one of the recognized subcommands with its
/// arguments.
#[derive(Debug)]
pub enum Command {
    Commit { ctype: CommitType, area: Option<String>, message: String, skip_hooks: bool },
    Push { force: bool },
    Undo,
    Log { short: bool },
    Switch { branch: String },
    Status,
}

/// The mathematical value of a parsed invocation: strings as character
/// sequences.
pub enum CommandV {
    Commit { ctype: CommitType, area: Option<Seq<char>>, message: Seq<char>, skip_hooks: bool },
    Push { force: bool },
    Undo,
    Log { short: bool },
    Switch { branch: Seq<char> },
    Status,
}

impl View for Command {
    type V = CommandV;

    open spec fn view(&self) -> CommandV {
        match self {
            Command::Commit { ctype, area, message, skip_hooks } => CommandV::Commit {
                ctype: *ctype,
                area: area.deep_view(),
                message: message@,
                skip_hooks: *skip_hooks,
            },
            Command::Push { force } => CommandV::Push { force: *force },
            Command::Undo => CommandV::Undo,
            Command::Log { short } => CommandV::Log { short: *short },
            Command::Switch { branch } => CommandV::Switch { branch: branch@ },
            Command::Status => CommandV::Status,
        }
    }
}

/// A usage error: the argument list does not parse as any recognized
/// subcommand invocation.
#[derive(Clone, Copy, Debug, PartialEq, Eq, Structural)]
pub enum UsageError {
    UnknownCommand,
    UnknownOption,
    UnexpectedArgument,
    MissingArgument,
    MissingOptionValue,
    InvalidCommitType,
}

impl UsageError {
    /// A short human-readable description of the usage error.
    pub fn describe(&self) -> (r: String)
        ensures
            r@.len() > 0,
    {
        let msg = match self {
            UsageError::UnknownCommand => "unknown command",
            UsageError::UnknownOption => "unknown option",
            UsageError::UnexpectedArgument => "unexpected argument",
            UsageError::MissingArgument => "missing required argument",
            UsageError::MissingOptionValue => "missing value for option",
            UsageError::InvalidCommitType => "invalid commit type",
        };
        proof {
            reveal_strlit("unknown command");
            reveal_strlit("unknown option");
            reveal_strlit("unexpected argument");
            reveal_strlit("missing required argument");
            reveal_strlit("missing value for option");
            reveal_strlit("invalid commit type");
        }
        msg.to_owned()
    }
}

/// Whether a token has the shape of an option: it begins with `-`.
pub open spec fn spec_is_option_like(tok: Seq<char>) -> bool {
    tok.len() > 0 && tok[0] == '-'
}

/// Parses the tokens after `commit`: two positionals (the commit type,
/// then the message), `--area`/`-a` with a value, and `--no-verify`/`-n`;
/// a repeated option overrides the earlier occurrence.
pub open spec fn spec_parse_commit(
    rest: Seq<Seq<char>>,
    ctype: Option<CommitType>,
    area: Option<Seq<char>>,
    message: Option<Seq<char>>,
    skip_hooks: bool,
) -> Result<CommandV, UsageError>
    decreases rest.len(),
{
    if rest.len() == 0 {
        match (ctype, message) {
            (Some(t), Some(m)) => Ok(
                CommandV::Commit { ctype: t, area, message: m, skip_hooks },
            ),
            _ => Err(UsageError::MissingArgument),
        }
    } else {
        let tok = rest[0];
        if tok == "--area"@ || tok == "-a"@ {
            if rest.len() == 1 {
                Err(UsageError::MissingOptionValue)
            } else {
                spec_parse_commit(rest.skip(2), ctype, Some(rest[1]), message, skip_hooks)
            }
        } else if tok == "--no-verify"@ || tok == "-n"@ {
            spec_parse_commit(rest.skip(1), ctype, area, message, true)
        } else if spec_is_option_like(tok) {
            Err(UsageError::UnknownOption)
        } else if ctype is None {
            match spec_commit_type_of(tok) {
                Some(t) => spec_parse_commit(rest.skip(1), Some(t), area, message, skip_hooks),
                None => Err(UsageError::InvalidCommitType),
            }
        } else if message is None {
            spec_parse_commit(rest.skip(1), ctype, area, Some(tok), skip_hooks)
        } else {
            Err(UsageError::UnexpectedArgument)
        }
    }
}

/// Parses the tokens after `push`: only `--force`/`-f`.
pub open spec fn spec_parse_push(rest: Seq<Seq<char>>, force: bool) -> Result<
    CommandV,
    UsageError,
>
    decreases rest.len(),
{
    if rest.len() == 0 {
        Ok(CommandV::Push { force })
    } else if rest[0] == "--force"@ || rest[0] == "-f"@ {
        spec_parse_push(rest.skip(1), true)
    } else if spec_is_option_like(rest[0]) {
        Err(UsageError::UnknownOption)
    } else {
        Err(UsageError::UnexpectedArgument)
    }
}

/// Parses the tokens after `log`: only `--short`/`-s`.
pub open spec fn spec_parse_log(rest: Seq<Seq<char>>, short: bool) -> Result<CommandV, UsageError>
    decreases rest.len(),
{
    if rest.len() == 0 {
        Ok(CommandV::Log { short })
    } else if rest[0] == "--short"@ || rest[0] == "-s"@ {
        spec_parse_log(rest.skip(1), true)
    } else if spec_is_option_like(rest[0]) {
        Err(UsageError::UnknownOption)
    } else {
        Err(UsageError::UnexpectedArgument)
    }
}

/// Parses the tokens after `switch`: exactly one branch name.
pub open spec fn spec_parse_switch(rest: Seq<Seq<char>>) -> Result<CommandV, UsageError> {
    if rest.len() == 0 {
        Err(UsageError::MissingArgument)
    } else if spec_is_option_like(rest[0]) {
        Err(UsageError::UnknownOption)
    } else if rest.len() > 1 {
        Err(UsageError::UnexpectedArgument)
    } else {
        Ok(CommandV::Switch { branch: rest[0] })
    }
}

/// Parses the tokens after a subcommand that takes nothing.
pub open spec fn spec_parse_no_args(rest: Seq<Seq<char>>, cmd: CommandV) -> Result<
    CommandV,
    UsageError,
> {
    if rest.len() == 0 {
        Ok(cmd)
    } else if spec_is_option_like(rest[0]) {
        Err(UsageError::UnknownOption)
    } else {
        Err(UsageError::UnexpectedArgument)
    }
}

/// The command an argument list (without the program's own name) denotes,
/// or the usage error it fails with. An empty argument list reports
/// status.
pub open spec fn spec_parse(args: Seq<Seq<char>>) -> Result<CommandV, UsageError> {
    if args.len() == 0 {
        Ok(CommandV::Status)
    } else {
        let cmd = args[0];
        let rest = args.skip(1);
        if cmd == "commit"@ || cmd == "c"@ {
            spec_parse_commit(rest, None, None, None, false)
        } else if cmd == "push"@ || cmd == "p"@ {
            spec_parse_push(rest, false)
        } else if cmd == "undo"@ || cmd == "u"@ {
            spec_parse_no_args(rest, CommandV::Undo)
        } else if cmd == "log"@ || cmd == "l"@ {
            spec_parse_log(rest, false)
        } else if cmd == "switch"@ || cmd == "s"@ {
            spec_parse_switch(rest)
        } else if cmd == "status"@ {
            spec_parse_no_args(rest, CommandV::Status)
        } else {
            Err(UsageError::UnknownCommand)
        }
    }
}

/// A first token that names no subcommand or alias fails as a usage error;
/// no recognized command, and so no external invocation, can come of such
/// an argument list.
pub proof fn lemma_unknown_command(args: Seq<Seq<char>>)
    requires
        args.len() > 0,
        args[0] != "commit"@,
        args[0] != "c"@,
        args[0] != "push"@,
        args[0] != "p"@,
        args[0] != "undo"@,
        args[0] != "u"@,
        args[0] != "log"@,
        args[0] != "l"@,
        args[0] != "switch"@,
        args[0] != "s"@,
        args[0] != "status"@,
    ensures
        spec_parse(args) == Result::<CommandV, UsageError>::Err(UsageError::UnknownCommand),
{
}

/// Decides whether a token has the shape of an option.
fn is_option_like(tok: &str) -> (r: bool)
    ensures
        r == spec_is_option_like(tok@),
{
    let n = tok.unicode_len();
    n > 0 && tok.get_char(0) == '-'
}

/// Parses the tokens after `commit`.
fn parse_commit(args: &Vec<String>) -> (r: Result<Command, UsageError>)
    requires
        args@.len() >= 1,
    ensures
        (match spec_parse_commit(args.deep_view().skip(1), None, None, None, false) {
            Ok(cv) => r is Ok && r->Ok_0@ == cv,
            Err(e) => r == Result::<Command, UsageError>::Err(e),
        }),
{
    let ghost toks = args.deep_view();
    let ghost target = spec_parse_commit(toks.skip(1), None, None, None, false);
    let mut i: usize = 1;
    let mut ctype: Option<CommitType> = None;
    let mut area: Option<String> = None;
    let mut message: Option<String> = None;
    let mut skip_hooks: bool = false;
    while i < args.len()
        invariant
            1 <= i <= args@.len(),
            toks == args.deep_view(),
            target == spec_parse_commit(toks.skip(1), None, None, None, false),
            target == spec_parse_commit(
                toks.skip(i as int),
                ctype,
                area.deep_view(),
                message.deep_view(),
                skip_hooks,
            ),
        decreases args@.len() - i,
    {
        proof {
            assert(toks.skip(i as int)[0] == toks[i as int]);
            assert(toks[i as int] == args@[i as int]@);
        }
        let tok = &args[i];
        if str_eq(tok.as_str(), "--area") || str_eq(tok.as_str(), "-a") {
            if i + 1 == args.len() {
                proof {
                    assert(toks.skip(i as int).len() == 1);
                }
                return Err(UsageError::MissingOptionValue);
            }
            proof {
                assert(toks.skip(i as int)[1] == toks[i + 1]);
                assert(toks[i + 1] == args@[i + 1]@);
                assert(toks.skip(i as int).skip(2) =~= toks.skip(i + 2));
            }
            area = Some(args[i + 1].clone());
            i += 2;
        } else if str_eq(tok.as_str(), "--no-verify") || str_eq(tok.as_str(), "-n") {
            proof {
                assert(toks.skip(i as int).skip(1) =~= toks.skip(i + 1));
            }
            skip_hooks = true;
            i += 1;
        } else if is_option_like(tok.as_str()) {
            return Err(UsageError::UnknownOption);
        } else if ctype.is_none() {
            match CommitType::parse(tok.as_str()) {
                Some(t) => {
                    proof {
                        assert(toks.skip(i as int).skip(1) =~= toks.skip(i + 1));
                    }
                    ctype = Some(t);
                    i += 1;
                },
                None => {
                    return Err(UsageError::InvalidCommitType);
                },
            }
        } else if message.is_none() {
            proof {
                assert(toks.skip(i as int).skip(1) =~= toks.skip(i + 1));
            }
            message = Some(tok.clone());
            i += 1;
        } else {
            return Err(UsageError::UnexpectedArgument);
        }
    }
    proof {
        assert(toks.skip(i as int).len() == 0);
    }
    match (ctype, message) {
        (Some(t), Some(m)) => Ok(
            Command::Commit { ctype: t, area, message: m, skip_hooks },
        ),
        _ => Err(UsageError::MissingArgument),
    }
}

/// Parses the tokens after `push`.
fn parse_push(args: &Vec<String>) -> (r: Result<Command, UsageError>)
    requires
        args@.len() >= 1,
    ensures
        (match spec_parse_push(args.deep_view().skip(1), false) {
            Ok(cv) => r is Ok && r->Ok_0@ == cv,
            Err(e) => r == Result::<Command, UsageError>::Err(e),
        }),
{
    let ghost toks = args.deep_view();
    let ghost target = spec_parse_push(toks.skip(1), false);
    let mut i: usize = 1;
    let mut force: bool = false;
    while i < args.len()
        invariant
            1 <= i <= args@.len(),
            toks == args.deep_view(),
            target == spec_parse_push(toks.skip(1), false),
            target == spec_parse_push(toks.skip(i as int), force),
        decreases args@.len() - i,
    {
        proof {
            assert(toks.skip(i as int)[0] == toks[i as int]);
            assert(toks[i as int] == args@[i as int]@);
            assert(toks.skip(i as int).skip(1) =~= toks.skip(i + 1));
        }
        let tok = &args[i];
        if str_eq(tok.as_str(), "--force") || str_eq(tok.as_str(), "-f") {
            force = true;
            i += 1;
        } else if is_option_like(tok.as_str()) {
            return Err(UsageError::UnknownOption);
        } else {
            return Err(UsageError::UnexpectedArgument);
        }
    }
    proof {
        assert(toks.skip(i as int).len() == 0);
    }
    Ok(Command::Push { force })
}

/// Parses the tokens after `log`.
fn parse_log(args: &Vec<String>) -> (r: Result<Command, UsageError>)
    requires
        args@.len() >= 1,
    ensures
        (match spec_parse_log(args.deep_view().skip(1), false) {
            Ok(cv) => r is Ok && r->Ok_0@ == cv,
            Err(e) => r == Result::<Command, UsageError>::Err(e),
        }),
{
    let ghost toks = args.deep_view();
    let ghost target = spec_parse_log(toks.skip(1), false);
    let mut i: usize = 1;
    let mut short: bool = false;
    while i < args.len()
        invariant
            1 <= i <= args@.len(),
            toks == args.deep_view(),
            target == spec_parse_log(toks.skip(1), false),
            target == spec_parse_log(toks.skip(i as int), short),
        decreases args@.len() - i,
    {
        proof {
            assert(toks.skip(i as int)[0] == toks[i as int]);
            assert(toks[i as int] == args@[i as int]@);
            assert(toks.skip(i as int).skip(1) =~= toks.skip(i + 1));
        }
        let tok = &args[i];
        if str_eq(tok.as_str(), "--short") || str_eq(tok.as_str(), "-s") {
            short = true;
            i += 1;
        } else if is_option_like(tok.as_str()) {
            return Err(UsageError::UnknownOption);
        } else {
            return Err(UsageError::UnexpectedArgument);
        }
    }
    proof {
        assert(toks.skip(i as int).len() == 0);
    }
    Ok(Command::Log { short })
}

/// Parses the tokens after `switch`.
fn parse_switch(args: &Vec<String>) -> (r: Result<Command, UsageError>)
    requires
        args@.len() >= 1,
    ensures
        (match spec_parse_switch(args.deep_view().skip(1)) {
            Ok(cv) => r is Ok && r->Ok_0@ == cv,
            Err(e) => r == Result::<Command, UsageError>::Err(e),
        }),
{
    let ghost toks = args.deep_view();
    proof {
        assert(toks.skip(1).len() == toks.len() - 1);
        if toks.len() > 1 {
            assert(toks.skip(1)[0] == toks[1]);
            assert(toks[1] == args@[1]@);
        }
    }
    if args.len() == 1 {
        return Err(UsageError::MissingArgument);
    }
    if is_option_like(args[1].as_str()) {
        return Err(UsageError::UnknownOption);
    }
    if args.len() > 2 {
        return Err(UsageError::UnexpectedArgument);
    }
    Ok(Command::Switch { branch: args[1].clone() })
}

/// Parses the tokens after a subcommand that takes nothing.
fn parse_no_args(args: &Vec<String>, cmd: Command) -> (r: Result<Command, UsageError>)
    requires
        args@.len() >= 1,
    ensures
        (match spec_parse_no_args(args.deep_view().skip(1), cmd@) {
            Ok(cv) => r is Ok && r->Ok_0@ == cv,
            Err(e) => r == Result::<Command, UsageError>::Err(e),
        }),
{
    let ghost toks = args.deep_view();
    proof {
        assert(toks.skip(1).len() == toks.len() - 1);
        if toks.len() > 1 {
            assert(toks.skip(1)[0] == toks[1]);
            assert(toks[1] == args@[1]@);
        }
    }
    if args.len() == 1 {
        return Ok(cmd);
    }
    if is_option_like(args[1].as_str()) {
        return Err(UsageError::UnknownOption);
    }
    Err(UsageError::UnexpectedArgument)
}

/// Parses the process's argument list (without the program's own name)
/// into a command, or the usage error the list fails with: exactly the
/// result of `spec_parse` on the list's character sequences.
pub fn parse_args(args: &Vec<String>) -> (r: Result<Command, UsageError>)
    ensures
        (match spec_parse(args.deep_view()) {
            Ok(cv) => r is Ok && r->Ok_0@ == cv,
            Err(e) => r == Result::<Command, UsageError>::Err(e),
        }),
{
    let ghost toks = args.deep_view();
    if args.len() == 0 {
        return Ok(Command::Status);
    }
    proof {
        assert(toks[0] == args@[0]@);
    }
    let cmd = &args[0];
    let s = cmd.as_str();
    if str_eq(s, "commit") || str_eq(s, "c") {
        parse_commit(args)
    } else if str_eq(s, "push") || str_eq(s, "p") {
        parse_push(args)
    } else if str_eq(s, "undo") || str_eq(s, "u") {
        parse_no_args(args, Command::Undo)
    } else if str_eq(s, "log") || str_eq(s, "l") {
        parse_log(args)
    } else if str_eq(s, "switch") || str_eq(s, "s") {
        parse_switch(args)
    } else if str_eq(s, "status") {
        parse_no_args(args, Command::Status)
    } else {
        Err(UsageError::UnknownCommand)
    }
}

} // verus!
