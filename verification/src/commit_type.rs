//! The closed enumeration of commit types, the glyph each one maps to, and
//! parsing of a type name supplied on the command line.

use vstd::prelude::*;
use crate::text::str_eq;

verus! {

/// One of the recognized commit types. The set is fixed at build time; a
/// string outside it is rejected at the parsing boundary.
#[derive(Clone, Copy, Debug, PartialEq, Eq, Structural)]
pub enum CommitType {
    Chore,
    Feature,
    Refactor,
    Fix,
    Test,
    Style,
    Doc,
    Deps,
    Deploy,
    Wip,
}

/// The name of a commit type, as it appears on the command line and in the
/// formatted message.
pub open spec fn spec_type_name(t: CommitType) -> Seq<char> {
    match t {
        CommitType::Chore => "chore"@,
        CommitType::Feature => "feature"@,
        CommitType::Refactor => "refactor"@,
        CommitType::Fix => "fix"@,
        CommitType::Test => "test"@,
        CommitType::Style => "style"@,
        CommitType::Doc => "doc"@,
        CommitType::Deps => "deps"@,
        CommitType::Deploy => "deploy"@,
        CommitType::Wip => "wip"@,
    }
}

/// The decorative glyph mapped to a commit type.
pub open spec fn spec_emoji(t: CommitType) -> Seq<char> {
    match t {
        CommitType::Chore => "\u{1F528}"@,
        CommitType::Feature => "\u{2728}"@,
        CommitType::Refactor => "\u{267B}\u{FE0F}"@,
        CommitType::Fix => "\u{1F41B}"@,
        CommitType::Test => "\u{2705}"@,
        CommitType::Style => "\u{1F3A8}"@,
        CommitType::Doc => "\u{1F4DD}"@,
        CommitType::Deps => "\u{1F4E6}"@,
        CommitType::Deploy => "\u{1F680}"@,
        CommitType::Wip => "\u{1F6A7}"@,
    }
}

/// The commit type named by a string, if any.
pub open spec fn spec_commit_type_of(s: Seq<char>) -> Option<CommitType> {
    if s == "chore"@ {
        Some(CommitType::Chore)
    } else if s == "feature"@ {
        Some(CommitType::Feature)
    } else if s == "refactor"@ {
        Some(CommitType::Refactor)
    } else if s == "fix"@ {
        Some(CommitType::Fix)
    } else if s == "test"@ {
        Some(CommitType::Test)
    } else if s == "style"@ {
        Some(CommitType::Style)
    } else if s == "doc"@ {
        Some(CommitType::Doc)
    } else if s == "deps"@ {
        Some(CommitType::Deps)
    } else if s == "deploy"@ {
        Some(CommitType::Deploy)
    } else if s == "wip"@ {
        Some(CommitType::Wip)
    } else {
        None
    }
}

impl CommitType {
    /// Parses a commit-type name; returns `None` exactly on strings outside
    /// the enumeration.
    pub fn parse(s: &str) -> (r: Option<CommitType>)
        ensures
            r == spec_commit_type_of(s@),
    {
        if str_eq(s, "chore") {
            Some(CommitType::Chore)
        } else if str_eq(s, "feature") {
            Some(CommitType::Feature)
        } else if str_eq(s, "refactor") {
            Some(CommitType::Refactor)
        } else if str_eq(s, "fix") {
            Some(CommitType::Fix)
        } else if str_eq(s, "test") {
            Some(CommitType::Test)
        } else if str_eq(s, "style") {
            Some(CommitType::Style)
        } else if str_eq(s, "doc") {
            Some(CommitType::Doc)
        } else if str_eq(s, "deps") {
            Some(CommitType::Deps)
        } else if str_eq(s, "deploy") {
            Some(CommitType::Deploy)
        } else if str_eq(s, "wip") {
            Some(CommitType::Wip)
        } else {
            None
        }
    }

    /// The name of this commit type.
    pub fn name_str(self) -> (r: &'static str)
        ensures
            r@ == spec_type_name(self),
    {
        match self {
            CommitType::Chore => "chore",
            CommitType::Feature => "feature",
            CommitType::Refactor => "refactor",
            CommitType::Fix => "fix",
            CommitType::Test => "test",
            CommitType::Style => "style",
            CommitType::Doc => "doc",
            CommitType::Deps => "deps",
            CommitType::Deploy => "deploy",
            CommitType::Wip => "wip",
        }
    }

    /// The glyph this commit type decorates a message with.
    pub fn emoji_str(self) -> (r: &'static str)
        ensures
            r@ == spec_emoji(self),
    {
        match self {
            CommitType::Chore => "\u{1F528}",
            CommitType::Feature => "\u{2728}",
            CommitType::Refactor => "\u{267B}\u{FE0F}",
            CommitType::Fix => "\u{1F41B}",
            CommitType::Test => "\u{2705}",
            CommitType::Style => "\u{1F3A8}",
            CommitType::Doc => "\u{1F4DD}",
            CommitType::Deps => "\u{1F4E6}",
            CommitType::Deploy => "\u{1F680}",
            CommitType::Wip => "\u{1F6A7}",
        }
    }
}

} // verus!
