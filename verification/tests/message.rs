use gcz::error::GczError;
use gcz::message::{
    editor_template, extract_message, inline_seed, join_lines, keeps_line, starts_with_hash,
};

#[test]
fn seed_is_type_colon_space() {
    assert_eq!(inline_seed("fix", false), "fix: ");
    assert_eq!(inline_seed("fix", true), "🐛 fix: ");
    assert_eq!(inline_seed("unknown", true), "unknown: ");
}

#[test]
fn template_is_seed_and_instructions() {
    assert_eq!(
        editor_template("feat", false),
        "feat: \n\n# Please enter the commit message for your changes.\n# Lines starting with '#' will be ignored, and an empty message aborts the commit."
    );
    assert_eq!(
        editor_template("feat", true),
        "✨ feat: \n\n# Please enter the commit message for your changes.\n# Lines starting with '#' will be ignored, and an empty message aborts the commit."
    );
}

#[test]
fn untouched_template_yields_its_first_line() {
    let template = editor_template("fix", false);
    assert_eq!(extract_message(&template), Ok("fix:".to_string()));
}

#[test]
fn message_keeps_lines_that_are_neither_blank_nor_comments() {
    let content = "feat: add\n  body line  \n# comment\n\n   # indented comment\n \t \nlast\n";
    assert_eq!(extract_message(content), Ok("feat: add\n  body line  \nlast".to_string()));
}

#[test]
fn message_is_trimmed_at_both_ends() {
    assert_eq!(extract_message("  lead  \n"), Ok("lead".to_string()));
    assert_eq!(extract_message("\n\n  a  \n  b  \n\n"), Ok("a  \n  b".to_string()));
}

#[test]
fn message_lines_lose_carriage_returns() {
    assert_eq!(extract_message("a\r\nb\r\n"), Ok("a\nb".to_string()));
}

#[test]
fn empty_message_is_an_interrupt() {
    assert_eq!(extract_message(""), Err(GczError::UserInterrupt));
    assert_eq!(extract_message("\n  \n\t\n"), Err(GczError::UserInterrupt));
    assert_eq!(extract_message("# only\n  # comments\n"), Err(GczError::UserInterrupt));
}

#[test]
fn hash_inside_a_line_is_no_comment() {
    assert_eq!(extract_message("fix #12: typo\n"), Ok("fix #12: typo".to_string()));
    assert!(keeps_line("fix #12"));
    assert!(!keeps_line("#fix"));
    assert!(!keeps_line("   #fix"));
    assert!(!keeps_line("\u{a0}# after a no-break space"));
    assert!(!keeps_line(""));
    assert!(!keeps_line("   "));
    assert!(keeps_line(" x "));
}

#[test]
fn starts_with_hash_looks_at_first_character() {
    assert!(starts_with_hash("#"));
    assert!(starts_with_hash("# a"));
    assert!(!starts_with_hash(""));
    assert!(!starts_with_hash(" #"));
    assert!(!starts_with_hash("a#"));
}

#[test]
fn join_lines_puts_newlines_between() {
    assert_eq!(join_lines(&vec![]), "");
    assert_eq!(join_lines(&vec!["a".to_string()]), "a");
    assert_eq!(join_lines(&vec!["a".to_string(), "".to_string(), "b".to_string()]), "a\n\nb");
    assert_eq!(join_lines(&vec!["".to_string(), "b".to_string()]), "\nb");
}
