//! The commit message: what the two ways of composing it start from, and
//! what is kept of a message written in an external editor.

use vstd::prelude::*;
use crate::error::GczError;
use crate::text::chars_of;
use crate::vocabulary::{decorated, format_commit_type_with_emoji};

verus! {

/// The lines of `text`, without their line endings, as the standard library
/// splits them.
pub uninterp spec fn lines_of(text: Seq<char>) -> Seq<Seq<char>>;

/// `text` without the white space at its start and at its end, as the
/// standard library trims it.
pub uninterp spec fn trimmed(text: Seq<char>) -> Seq<char>;

/// `text` without the white space at its start, as the standard library
/// trims it.
pub uninterp spec fn trimmed_start(text: Seq<char>) -> Seq<char>;

/// Wraps `str::lines` of the standard library: the result holds the lines of
/// `s` in order, each as a string of its own.
#[verifier::external_body]
pub(crate) fn split_lines(s: &str) -> (lines: Vec<String>)
    ensures
        lines.deep_view() == lines_of(s@),
{
    s.lines().map(|line| line.to_string()).collect()
}

/// Wraps `str::trim` of the standard library.
#[verifier::external_body]
pub(crate) fn trim(s: &str) -> (kept: &str)
    ensures
        kept@ == trimmed(s@),
{
    s.trim()
}

/// Wraps `str::trim_start` of the standard library.
#[verifier::external_body]
pub(crate) fn trim_start(s: &str) -> (kept: &str)
    ensures
        kept@ == trimmed_start(s@),
{
    s.trim_start()
}

/// What follows a commit type at the start of a message.
pub open spec fn separator() -> Seq<char> {
    ": "@
}

/// The instructions that the external editor shows below the first line.
pub open spec fn instructions() -> Seq<char> {
    "\n\n# Please enter the commit message for your changes.\n# Lines starting with '#' will be ignored, and an empty message aborts the commit."@
}

/// A commit type as a message starts with it: with its glyph where
/// decoration is on, as it is where decoration is off.
pub open spec fn type_label(commit_type: Seq<char>, use_emoji: bool) -> Seq<char> {
    if use_emoji {
        decorated(commit_type)
    } else {
        commit_type
    }
}

/// The start of a message of type `commit_type`.
pub open spec fn message_seed(commit_type: Seq<char>, use_emoji: bool) -> Seq<char> {
    type_label(commit_type, use_emoji) + separator()
}

/// The text that the line editor starts from: the commit type, a colon and
/// a space.
pub fn inline_seed(commit_type: &str, use_emoji: bool) -> (seed: String)
    ensures
        seed@ == message_seed(commit_type@, use_emoji),
{
    let mut seed = if use_emoji {
        format_commit_type_with_emoji(commit_type)
    } else {
        String::from_str(commit_type)
    };
    seed.append(": ");
    seed
}

/// The text that the external editor starts from: the seed of the message
/// and, below it, the instructions as comment lines.
pub fn editor_template(commit_type: &str, use_emoji: bool) -> (template: String)
    ensures
        template@ == message_seed(commit_type@, use_emoji) + instructions(),
{
    let mut template = inline_seed(commit_type, use_emoji);
    template.append(
        "\n\n# Please enter the commit message for your changes.\n# Lines starting with '#' will be ignored, and an empty message aborts the commit.",
    );
    template
}

/// A line is a comment when the first character after its leading white
/// space is `#`.
pub open spec fn is_comment(line: Seq<char>) -> bool {
    trimmed_start(line).len() > 0 && trimmed_start(line)[0] == '#'
}

/// A line is blank when nothing but white space is in it.
pub open spec fn is_blank(line: Seq<char>) -> bool {
    trimmed(line).len() == 0
}

/// A line belongs to the message when it is neither blank nor a comment.
pub open spec fn is_kept(line: Seq<char>) -> bool {
    !is_blank(line) && !is_comment(line)
}

/// `lines` put together with one newline between each two.
pub open spec fn joined(lines: Seq<Seq<char>>) -> Seq<char>
    decreases lines.len(),
{
    if lines.len() == 0 {
        Seq::empty()
    } else if lines.len() == 1 {
        lines[0]
    } else {
        joined(lines.drop_last()) + seq!['\n'] + lines.last()
    }
}

/// The message in `content`: its lines that are neither blank nor comments,
/// joined by newlines, without white space at either end.
pub open spec fn message_in(content: Seq<char>) -> Seq<char> {
    trimmed(joined(lines_of(content).filter(|line: Seq<char>| is_kept(line))))
}

/// Whether `text` starts with the character `#`.
pub fn starts_with_hash(text: &str) -> (starts: bool)
    ensures
        starts == (text@.len() > 0 && text@[0] == '#'),
{
    let chars = chars_of(text);
    chars.len() > 0 && chars[0] == '#'
}

/// Whether `line` belongs to the message.
pub fn keeps_line(line: &str) -> (kept: bool)
    ensures
        kept == is_kept(line@),
{
    let blank = trim(line).unicode_len() == 0;
    !blank && !starts_with_hash(trim_start(line))
}

/// The strings of `lines` with one newline between each two.
pub fn join_lines(lines: &Vec<String>) -> (text: String)
    ensures
        text@ == joined(lines.deep_view()),
{
    let ghost all = lines.deep_view();
    let mut text = String::new();
    let mut k: usize = 0;
    proof {
        assert(all.take(0) =~= Seq::<Seq<char>>::empty());
    }
    while k < lines.len()
        invariant
            all == lines.deep_view(),
            k <= lines.len(),
            text@ == joined(all.take(k as int)),
        decreases lines.len() - k,
    {
        proof {
            let longer = all.take(k + 1);
            assert(longer.drop_last() =~= all.take(k as int));
            assert(longer.last() == all[k as int]);
            assert("\n"@ =~= seq!['\n']) by {
                reveal_strlit("\n");
            }
        }
        if k > 0 {
            text.append("\n");
        }
        text.append(lines[k].as_str());
        k += 1;
    }
    proof {
        assert(all.take(lines.len() as int) =~= all);
    }
    text
}

/// The message that the user left in `content`, the text of the file that
/// the external editor wrote. A content that holds no message counts as
/// the user giving up.
pub fn extract_message(content: &str) -> (message: Result<String, GczError>)
    ensures
        message_in(content@).len() > 0 ==> (message matches Ok(text) && text@ == message_in(
            content@,
        )),
        message_in(content@).len() == 0 ==> message == Err::<String, GczError>(
            GczError::UserInterrupt,
        ),
{
    let lines = split_lines(content);
    let ghost all = lines.deep_view();
    let ghost kept_line = |line: Seq<char>| is_kept(line);
    let mut kept: Vec<String> = Vec::new();
    let mut k: usize = 0;
    proof {
        reveal(Seq::filter);
        assert(all.take(0) =~= Seq::<Seq<char>>::empty());
        assert(kept.deep_view() =~= all.take(0).filter(kept_line));
    }
    while k < lines.len()
        invariant
            all == lines.deep_view(),
            kept_line == (|line: Seq<char>| is_kept(line)),
            k <= lines.len(),
            kept.deep_view() == all.take(k as int).filter(kept_line),
        decreases lines.len() - k,
    {
        let keep = keeps_line(lines[k].as_str());
        proof {
            assert(all.take(k + 1) =~= all.take(k as int).push(all[k as int]));
            all.take(k as int).lemma_filter_push(all[k as int], kept_line);
        }
        if keep {
            let ghost before = kept.deep_view();
            kept.push(lines[k].clone());
            assert(kept.deep_view() =~= before.push(all[k as int]));
        }
        k += 1;
    }
    proof {
        assert(all.take(lines.len() as int) =~= all);
    }
    let text = join_lines(&kept);
    let message = String::from_str(trim(text.as_str()));
    if message.as_str().unicode_len() == 0 {
        Err(GczError::UserInterrupt)
    } else {
        Ok(message)
    }
}

} // verus!
