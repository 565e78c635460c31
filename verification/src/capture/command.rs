//! What a helper program answered.

use crate::error::{ErrorView, MediaError};
use crate::text::{chars_of, contains_text, occurs, string_of, stripped, trimmed, CharClass};
use vstd::prelude::*;

verus! {

/// The outcome of running a program.
#[derive(Debug, Clone)]
pub enum CommandReply {
    /// It could not be run, with the system's description.
    NotRun(String),
    /// It ran to its end. `status` describes how it ended.
    Ended { success: bool, status: String, stdout: String, stderr: String },
}

/// A [`CommandReply`] with its texts as character sequences.
pub enum ReplyView {
    NotRun(Seq<char>),
    Ended { success: bool, status: Seq<char>, stdout: Seq<char>, stderr: Seq<char> },
}

impl View for CommandReply {
    type V = ReplyView;

    open spec fn view(&self) -> ReplyView {
        match *self {
            CommandReply::NotRun(s) => ReplyView::NotRun(s@),
            CommandReply::Ended { success, status, stdout, stderr } => ReplyView::Ended {
                success,
                status: status@,
                stdout: stdout@,
                stderr: stderr@,
            },
        }
    }
}

/// The views of several replies.
pub open spec fn replies_of(v: Seq<CommandReply>) -> Seq<ReplyView> {
    v.map_values(|r: CommandReply| r@)
}

/// The characters of several strings.
pub open spec fn args_of(v: Seq<String>) -> Seq<Seq<char>> {
    v.map_values(|s: String| s@)
}

/// The error of a reply, where it is one: `program` names what was run,
/// `command` what is named when it ended badly.
pub open spec fn reply_error(
    program: Seq<char>,
    command: Seq<char>,
    r: ReplyView,
) -> Option<ErrorView> {
    match r {
        ReplyView::NotRun(e) => Some(ErrorView::CaptureError(program + " failed: "@ + e)),
        ReplyView::Ended { success, status, stderr, .. } => if success {
            None
        } else {
            Some(
                ErrorView::CaptureError(
                    command + " failed with status "@ + status + ": "@ + stripped(
                        stderr,
                        CharClass::White,
                    ),
                ),
            )
        },
    }
}

/// The error of a reply, where an answer that the thing is there already is
/// none.
pub open spec fn reply_error_unless_there(r: ReplyView) -> Option<ErrorView> {
    match r {
        ReplyView::Ended { stderr, .. } => if occurs("already exists"@, stderr) {
            None
        } else {
            reply_error("xrandr"@, "xrandr"@, r)
        },
        _ => reply_error("xrandr"@, "xrandr"@, r),
    }
}

/// The text that describes a program which ended badly.
pub fn command_error(command: &str, status: &str, stderr: &str) -> (e: MediaError)
    ensures
        e@ == ErrorView::CaptureError(
            command@ + " failed with status "@ + status@ + ": "@ + stripped(
                stderr@,
                CharClass::White,
            ),
        ),
{
    let all: Vec<char> = chars_of(stderr);
    let core: Vec<char> = trimmed(all.as_slice(), CharClass::White);
    let core: String = string_of(core.as_slice());
    MediaError::CaptureError(
        command.to_owned().concat(" failed with status ").concat(status).concat(": ").concat(
            core.as_str(),
        ),
    )
}

/// The error of a reply, where it is one.
pub fn failure(program: &str, command: &str, r: &CommandReply) -> (e: Option<MediaError>)
    ensures
        match e {
            Some(e) => reply_error(program@, command@, r@) == Some(e@),
            None => reply_error(program@, command@, r@) is None,
        },
{
    match r {
        CommandReply::NotRun(e) => Some(
            MediaError::CaptureError(program.to_owned().concat(" failed: ").concat(e.as_str())),
        ),
        CommandReply::Ended { success, status, stdout: _, stderr } => if *success {
            None
        } else {
            Some(command_error(command, status.as_str(), stderr.as_str()))
        },
    }
}

/// The error of a reply of xrandr, where it is one, other than that the thing is
/// there already.
pub fn failure_unless_there(r: &CommandReply) -> (e: Option<MediaError>)
    ensures
        match e {
            Some(e) => reply_error_unless_there(r@) == Some(e@),
            None => reply_error_unless_there(r@) is None,
        },
{
    if let CommandReply::Ended { success: _, status: _, stdout: _, stderr } = r {
        let text: Vec<char> = chars_of(stderr.as_str());
        if contains_text(text.as_slice(), "already exists") {
            return None;
        }
    }
    failure("xrandr", "xrandr", r)
}

/// What a program wrote to its standard output.
pub open spec fn written(r: ReplyView) -> Seq<char> {
    match r {
        ReplyView::NotRun(_) => Seq::empty(),
        ReplyView::Ended { stdout, .. } => stdout,
    }
}

/// A program that ended well brings no error, whatever it wrote; one that ended badly or
/// could not be run brings one. Where what was to be made is there already, only a program
/// that could not be run brings one.
pub proof fn law_when_a_program_brings_an_error(
    program: Seq<char>,
    command: Seq<char>,
    success: bool,
    status: Seq<char>,
    stdout: Seq<char>,
    stderr: Seq<char>,
)
    ensures
        ({
            let r = ReplyView::Ended { success, status, stdout, stderr };
            &&& reply_error(program, command, r) is None <==> success
            &&& reply_error(program, command, ReplyView::NotRun(stderr)) is Some
            &&& reply_error_unless_there(ReplyView::NotRun(stderr)) is Some
            &&& reply_error_unless_there(r) is None <==> success || occurs(
                "already exists"@,
                stderr,
            )
        }),
{
}

} // verus!
