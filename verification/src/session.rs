//! The course of one run: which step follows which result, and how a run
//! ends. The caller carries out each step and reports what came of it.

use vstd::prelude::*;
use crate::error::{description, GczError};
use crate::message::{editor_template, extract_message, inline_seed, instructions, message_in, message_seed};

verus! {

/// What the user asked for on the command line.
#[derive(Clone, Copy, Debug, PartialEq, Eq)]
pub struct Options {
    /// Compose the message in the line editor, not in an external editor.
    pub inline: bool,
    /// Put the glyph of the commit type in front of it.
    pub emoji: bool,
}

/// How a run ended.
#[derive(Debug, PartialEq, Eq)]
pub enum Outcome {
    /// The directory is in no work tree: nothing to do.
    NotARepository,
    /// Nothing is staged: nothing to do.
    NothingStaged,
    Committed,
    /// The commit was attempted and did not succeed.
    CommitFailed,
    /// The run was given up: by the user, or on a failure.
    Aborted(GczError),
}

/// What the caller reports after carrying out a step.
#[derive(Debug, PartialEq, Eq)]
pub enum Event {
    /// Nothing was done yet.
    Started,
    /// The work-tree probe printed `stdout`.
    RepositoryProbed { stdout: Vec<u8> },
    /// The comparison of the index with the last commit found them equal
    /// (`unchanged`) or not.
    StagedProbed { unchanged: bool },
    /// The selector returned the type `name`.
    TypeSelected { name: String },
    /// The line editor returned `line`.
    LineComposed { line: String },
    /// The external editor was closed.
    EditorClosed { succeeded: bool },
    /// The file that the external editor wrote holds `content`.
    MessageRead { content: String },
    /// The commit was attempted.
    CommitDone { succeeded: bool },
    /// The step ended in `error`.
    Failed { error: GczError },
}

/// What the caller is to do next.
#[derive(Debug, PartialEq, Eq)]
pub enum Action {
    /// Ask whether the directory is inside a work tree.
    ProbeRepository,
    /// Ask whether anything is staged.
    ProbeStaged,
    /// Let the user pick a commit type.
    SelectType,
    /// Let the user complete `seed` in the line editor.
    ComposeInline { seed: String },
    /// Let the user edit `template` in the external editor.
    ComposeInEditor { template: String },
    /// Read back what the external editor wrote.
    ReadMessage,
    /// Commit with `message`.
    Commit { message: String },
    /// Stop.
    Finish(Outcome),
}

/// The probe's output says that the directory is inside a work tree: it
/// starts with the four letters of `true`.
pub open spec fn says_inside_work_tree(stdout: Seq<u8>) -> bool {
    stdout.len() >= 4 && stdout.subrange(0, 4) == seq![0x74u8, 0x72u8, 0x75u8, 0x65u8]
}

/// Whether the output of the work-tree probe says that the directory is
/// inside a work tree.
pub fn is_inside_work_tree(stdout: &Vec<u8>) -> (inside: bool)
    ensures
        inside == says_inside_work_tree(stdout@),
{
    if stdout.len() < 4 {
        return false;
    }
    let inside = stdout[0] == 0x74u8 && stdout[1] == 0x72u8 && stdout[2] == 0x75u8 && stdout[3]
        == 0x65u8;
    proof {
        let head = stdout@.subrange(0, 4);
        assert(head[0] == stdout@[0] && head[1] == stdout@[1] && head[2] == stdout@[2] && head[3]
            == stdout@[3]);
        if inside {
            assert(head =~= seq![0x74u8, 0x72u8, 0x75u8, 0x65u8]);
        }
    }
    inside
}

/// The exit code of a run that ended in `outcome`: 0 where the commit was
/// made or there was nothing to do, 1 otherwise.
pub open spec fn exit_code_of(outcome: Outcome) -> i32 {
    match outcome {
        Outcome::NotARepository | Outcome::NothingStaged | Outcome::Committed => 0,
        Outcome::CommitFailed | Outcome::Aborted(_) => 1,
    }
}

/// What the user is told at the end of a run that ended in `outcome`, if
/// anything.
pub open spec fn notice_of(outcome: Outcome) -> Option<Seq<char>> {
    match outcome {
        Outcome::NotARepository => Some("Not a git repository"@),
        Outcome::NothingStaged => Some("No staged changes"@),
        Outcome::Committed => None,
        Outcome::CommitFailed => Some("Commit failed"@),
        Outcome::Aborted(GczError::UserInterrupt) => None,
        Outcome::Aborted(error) => Some("Error: "@ + description(error)),
    }
}

impl Outcome {
    /// The exit code of the process.
    pub fn exit_code(&self) -> (code: i32)
        ensures
            code == exit_code_of(*self),
    {
        match self {
            Outcome::NotARepository | Outcome::NothingStaged | Outcome::Committed => 0,
            Outcome::CommitFailed | Outcome::Aborted(_) => 1,
        }
    }

    /// The line to show the user, if there is one.
    pub fn notice(&self) -> (notice: Option<String>)
        ensures
            match notice_of(*self) {
                Some(text) => notice matches Some(line) && line@ == text,
                None => notice is None,
            },
    {
        match self {
            Outcome::NotARepository => Some(String::from_str("Not a git repository")),
            Outcome::NothingStaged => Some(String::from_str("No staged changes")),
            Outcome::Committed => None,
            Outcome::CommitFailed => Some(String::from_str("Commit failed")),
            Outcome::Aborted(GczError::UserInterrupt) => None,
            Outcome::Aborted(error) => {
                let mut line = String::from_str("Error: ");
                line.append(error.describe().as_str());
                Some(line)
            },
        }
    }
}

/// The step that follows `event`. The run starts with the work-tree probe
/// and goes on to the staging probe, the selector, one of the two editors
/// and the commit; it stops early where there is nothing to do, where the
/// user gives up, and on a failure.
pub fn next_action(options: &Options, event: Event) -> (action: Action)
    ensures
        match event {
            Event::Started => action is ProbeRepository,
            Event::RepositoryProbed { stdout } => if says_inside_work_tree(stdout@) {
                action is ProbeStaged
            } else {
                action matches Action::Finish(outcome) && outcome is NotARepository
            },
            Event::StagedProbed { unchanged } => if unchanged {
                action matches Action::Finish(outcome) && outcome is NothingStaged
            } else {
                action is SelectType
            },
            Event::TypeSelected { name } => if options.inline {
                action matches Action::ComposeInline { seed } && seed@ == message_seed(
                    name@,
                    options.emoji,
                )
            } else {
                action matches Action::ComposeInEditor { template } && template@ == message_seed(
                    name@,
                    options.emoji,
                ) + instructions()
            },
            Event::LineComposed { line } => action matches Action::Commit { message } && message@
                == line@,
            Event::EditorClosed { succeeded } => if succeeded {
                action is ReadMessage
            } else {
                action matches Action::Finish(Outcome::Aborted(error)) && error is UserInterrupt
            },
            Event::MessageRead { content } => if message_in(content@).len() > 0 {
                action matches Action::Commit { message } && message@ == message_in(content@)
            } else {
                action matches Action::Finish(Outcome::Aborted(error)) && error is UserInterrupt
            },
            Event::CommitDone { succeeded } => if succeeded {
                action matches Action::Finish(outcome) && outcome is Committed
            } else {
                action matches Action::Finish(outcome) && outcome is CommitFailed
            },
            Event::Failed { error } => action matches Action::Finish(Outcome::Aborted(cause))
                && cause == error,
        },
{
    match event {
        Event::Started => Action::ProbeRepository,
        Event::RepositoryProbed { stdout } => {
            if is_inside_work_tree(&stdout) {
                Action::ProbeStaged
            } else {
                Action::Finish(Outcome::NotARepository)
            }
        },
        Event::StagedProbed { unchanged } => {
            if unchanged {
                Action::Finish(Outcome::NothingStaged)
            } else {
                Action::SelectType
            }
        },
        Event::TypeSelected { name } => {
            if options.inline {
                Action::ComposeInline { seed: inline_seed(name.as_str(), options.emoji) }
            } else {
                Action::ComposeInEditor { template: editor_template(name.as_str(), options.emoji) }
            }
        },
        Event::LineComposed { line } => Action::Commit { message: line },
        Event::EditorClosed { succeeded } => {
            if succeeded {
                Action::ReadMessage
            } else {
                Action::Finish(Outcome::Aborted(GczError::UserInterrupt))
            }
        },
        Event::MessageRead { content } => {
            match extract_message(content.as_str()) {
                Ok(message) => Action::Commit { message },
                Err(error) => Action::Finish(Outcome::Aborted(error)),
            }
        },
        Event::CommitDone { succeeded } => {
            if succeeded {
                Action::Finish(Outcome::Committed)
            } else {
                Action::Finish(Outcome::CommitFailed)
            }
        },
        Event::Failed { error } => Action::Finish(Outcome::Aborted(error)),
    }
}

} // verus!
