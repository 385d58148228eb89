//! Composing the one-line commit message: `<glyph> <type>[(<area>)]: <message>`,
//! with the glyph omitted (and no leading space) when emoji decoration is
//! disabled, and the whole line trimmed of leading and trailing whitespace.

use vstd::prelude::*;
use vstd::string::StringExecFns;
use crate::commit_type::{CommitType, spec_type_name, spec_emoji};
use crate::text::{spec_trim, spec_is_whitespace, lemma_trim_noop, trim_str};

verus! {

/// The undecorated part of a commit message:
/// `<type>: <message>` or `<type>(<area>): <message>`.
pub open spec fn spec_message_body(t: CommitType, area: Option<Seq<char>>, msg: Seq<char>) -> Seq<
    char,
> {
    spec_type_name(t) + (match area {
        Some(a) => "("@ + a + ")"@,
        None => Seq::<char>::empty(),
    }) + ": "@ + msg
}

/// The full formatted commit message: the body, prefixed with the mapped
/// glyph and a space when emoji decoration is enabled, trimmed at both ends.
pub open spec fn spec_formatted(
    t: CommitType,
    area: Option<Seq<char>>,
    msg: Seq<char>,
    emojis_enabled: bool,
) -> Seq<char> {
    if emojis_enabled {
        spec_trim(spec_emoji(t) + " "@ + spec_message_body(t, area, msg))
    } else {
        spec_trim(spec_message_body(t, area, msg))
    }
}

/// Composes the formatted commit message for a commit type, an optional
/// area, and a free-text message.
pub fn format_commit_message(
    t: CommitType,
    area: Option<&str>,
    message: &str,
    emojis_enabled: bool,
) -> (r: String)
    ensures
        r@ == spec_formatted(t, area.deep_view(), message@, emojis_enabled),
{
    let mut out = String::new();
    if emojis_enabled {
        out.append(t.emoji_str());
        out.append(" ");
    }
    out.append(t.name_str());
    match area {
        Some(a) => {
            out.append("(");
            out.append(a);
            out.append(")");
        },
        None => {},
    }
    out.append(": ");
    out.append(message);
    proof {
        if emojis_enabled {
            assert(out@ =~= spec_emoji(t) + " "@ + spec_message_body(
                t,
                area.deep_view(),
                message@,
            ));
        } else {
            assert(out@ =~= spec_message_body(t, area.deep_view(), message@));
        }
    }
    trim_str(out.as_str())
}

/// Every commit type's name is non-empty and begins with a non-whitespace
/// character, and the same holds of its glyph.
proof fn lemma_type_literals(t: CommitType)
    ensures
        spec_type_name(t).len() > 0,
        !spec_is_whitespace(spec_type_name(t)[0]),
        spec_emoji(t).len() > 0,
        !spec_is_whitespace(spec_emoji(t)[0]),
{
    reveal_strlit("chore");
    reveal_strlit("feature");
    reveal_strlit("refactor");
    reveal_strlit("fix");
    reveal_strlit("test");
    reveal_strlit("style");
    reveal_strlit("doc");
    reveal_strlit("deps");
    reveal_strlit("deploy");
    reveal_strlit("wip");
    reveal_strlit("\u{1F528}");
    reveal_strlit("\u{2728}");
    reveal_strlit("\u{267B}\u{FE0F}");
    reveal_strlit("\u{1F41B}");
    reveal_strlit("\u{2705}");
    reveal_strlit("\u{1F3A8}");
    reveal_strlit("\u{1F4DD}");
    reveal_strlit("\u{1F4E6}");
    reveal_strlit("\u{1F680}");
    reveal_strlit("\u{1F6A7}");
}

/// For every commit type, area, and message that does not end in
/// whitespace, the formatted message is exactly the mapped glyph, a space,
/// and `<type>: <message>` or `<type>(<area>): <message>`; with decoration
/// disabled it is exactly the undecorated body, with no leading glyph or
/// space. Trimming removes nothing from such a message.
pub proof fn lemma_formatted_shape(
    t: CommitType,
    area: Option<Seq<char>>,
    msg: Seq<char>,
    emojis_enabled: bool,
)
    requires
        msg.len() > 0,
        !spec_is_whitespace(msg[msg.len() - 1]),
    ensures
        emojis_enabled ==> spec_formatted(t, area, msg, emojis_enabled) == spec_emoji(t) + " "@
            + spec_message_body(t, area, msg),
        !emojis_enabled ==> spec_formatted(t, area, msg, emojis_enabled) == spec_message_body(
            t,
            area,
            msg,
        ),
{
    lemma_type_literals(t);
    let body = spec_message_body(t, area, msg);
    assert(body[0] == spec_type_name(t)[0]);
    assert(body[body.len() - 1] == msg[msg.len() - 1]);
    lemma_trim_noop(body);
    let decorated = spec_emoji(t) + " "@ + body;
    assert(decorated[0] == spec_emoji(t)[0]);
    assert(decorated[decorated.len() - 1] == msg[msg.len() - 1]);
    lemma_trim_noop(decorated);
}

} // verus!
