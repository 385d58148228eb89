use qit::commit_type::CommitType;
use qit::message::format_commit_message;

fn all_types() -> Vec<CommitType> {
    vec![
        CommitType::Chore,
        CommitType::Feature,
        CommitType::Refactor,
        CommitType::Fix,
        CommitType::Test,
        CommitType::Style,
        CommitType::Doc,
        CommitType::Deps,
        CommitType::Deploy,
        CommitType::Wip,
    ]
}

#[test]
fn every_type_formats_with_its_glyph() {
    for t in all_types() {
        let glyph = t.emoji_str();
        let name = t.name_str();
        let with = format_commit_message(t, None, "Do thing", true);
        assert_eq!(with, format!("{} {}: {}", glyph, name, "Do thing"));
        let with_area = format_commit_message(t, Some("core"), "Do thing", true);
        assert_eq!(with_area, format!("{} {}({}): {}", glyph, name, "core", "Do thing"));
    }
}

#[test]
fn every_type_formats_bare_when_suppressed() {
    for t in all_types() {
        let name = t.name_str();
        let bare = format_commit_message(t, None, "Do thing", false);
        assert_eq!(bare, format!("{}: {}", name, "Do thing"));
        assert!(!bare.starts_with(' '));
        let bare_area = format_commit_message(t, Some("core"), "Do thing", false);
        assert_eq!(bare_area, format!("{}({}): {}", name, "core", "Do thing"));
    }
}

#[test]
fn feature_message_with_default_decoration() {
    let m = format_commit_message(CommitType::Feature, None, "Add thing", true);
    assert_eq!(m, "\u{2728} feature: Add thing");
}

#[test]
fn fix_message_with_suppressed_decoration() {
    let m = format_commit_message(CommitType::Fix, Some("cli"), "Fix bug", false);
    assert_eq!(m, "fix(cli): Fix bug");
}

#[test]
fn formatted_message_is_trimmed() {
    let m = format_commit_message(CommitType::Chore, None, "Tidy  ", true);
    assert_eq!(m, "\u{1F528} chore: Tidy");
    let bare = format_commit_message(CommitType::Chore, None, "  ", false);
    assert_eq!(bare, "chore:");
}

#[test]
fn every_type_name_parses_back() {
    for t in all_types() {
        assert_eq!(CommitType::parse(t.name_str()), Some(t));
    }
}

#[test]
fn unknown_type_name_is_rejected() {
    assert_eq!(CommitType::parse("release"), None);
    assert_eq!(CommitType::parse(""), None);
    assert_eq!(CommitType::parse("Feature"), None);
}

#[test]
fn glyphs_are_distinct_per_type() {
    let glyphs: Vec<&str> = all_types().iter().map(|t| t.emoji_str()).collect();
    for i in 0..glyphs.len() {
        for j in 0..glyphs.len() {
            if i != j {
                assert_ne!(glyphs[i], glyphs[j]);
            }
        }
    }
}
