//! Virtual displays on outputs of the X server that xrandr manages.
//!
//! The server must show a disconnected VIRTUAL output already, for example by
//! its `VirtualHeads` option.

use crate::capture::command::{
    args_of, failure, failure_unless_there, replies_of, reply_error, reply_error_unless_there,
    written, CommandReply, ReplyView,
};
use crate::error::{ErrorView, MediaError};
use crate::text::{
    begins_with, chars_of, contains_text, dec, dec_text, lines, lines_of, occurs, string_of,
    strip_front, stripped, trim_front, trimmed, upper_all, uppered, views, words, words_of,
    CharClass,
};
use vstd::prelude::*;

verus! {

/// A program with its arguments.
#[derive(Debug)]
pub struct Invocation {
    pub program: String,
    pub args: Vec<String>,
}

/// How the making of a virtual display goes on.
#[derive(Debug)]
pub enum CreateStep {
    /// Run this program and ask again with its reply.
    Run(Invocation),
    Created(VirtualDisplay),
    Failed(MediaError),
}

/// A [`CreateStep`] with its texts as character sequences.
pub enum StepView {
    Run(Seq<char>, Seq<Seq<char>>),
    /// The output, the mode and whether the display is there.
    Created(Seq<char>, Seq<char>, bool),
    Failed(ErrorView),
}

impl View for CreateStep {
    type V = StepView;

    open spec fn view(&self) -> StepView {
        match *self {
            CreateStep::Run(i) => StepView::Run(i.program@, args_of(i.args@)),
            CreateStep::Created(d) => StepView::Created(d.output_name@, d.mode_name@, d.active),
            CreateStep::Failed(e) => StepView::Failed(e@),
        }
    }
}

/// A virtual display on an output of the X server.
#[derive(Debug)]
pub struct VirtualDisplay {
    pub output_name: String,
    pub mode_name: String,
    pub active: bool,
}

/// The name of the mode of a virtual display.
pub open spec fn mode_text(width: u32, height: u32, fps: u32) -> Seq<char> {
    "lunaris_"@ + dec(width as nat) + "x"@ + dec(height as nat) + "_"@ + dec(fps as nat)
}

/// Whether a line of cvt's output describes a mode.
pub open spec fn modeline(line: Seq<char>) -> bool {
    "Modeline"@.is_prefix_of(strip_front(line, CharClass::White))
}

/// The first line that describes a mode.
pub open spec fn first_modeline(rows: Seq<Seq<char>>) -> Option<Seq<char>>
    decreases rows.len(),
{
    if rows.len() == 0 {
        None
    } else if modeline(rows[0]) {
        Some(rows[0])
    } else {
        first_modeline(rows.skip(1))
    }
}

/// The timings of a mode: what stands behind its name, without quotes.
pub open spec fn timings(line: Seq<char>) -> Seq<Seq<char>> {
    let parts = words_of(line);
    if parts.len() < 2 {
        Seq::empty()
    } else {
        parts.skip(2).map_values(|p: Seq<char>| stripped(p, CharClass::Quote))
    }
}

/// The timings that cvt's output gives, or what is wrong with it.
pub open spec fn timings_in(output: Seq<char>) -> Result<Seq<Seq<char>>, ErrorView> {
    match first_modeline(lines_of(output)) {
        None => Err(ErrorView::CaptureError("cvt did not return a Modeline"@)),
        Some(line) => if timings(line).len() == 0 {
            Err(ErrorView::CaptureError("cvt returned an empty Modeline"@))
        } else {
            Ok(timings(line))
        },
    }
}

/// Whether a line of xrandr's output heads a free virtual output.
pub open spec fn virtual_line(line: Seq<char>) -> bool {
    &&& !" "@.is_prefix_of(line)
    &&& words_of(line).len() > 0
    &&& occurs(" disconnected"@, line)
    &&& "VIRTUAL"@.is_prefix_of(upper_all(words_of(line)[0]))
}

/// The name of the first free virtual output.
pub open spec fn first_virtual(rows: Seq<Seq<char>>) -> Option<Seq<char>>
    decreases rows.len(),
{
    if rows.len() == 0 {
        None
    } else if virtual_line(rows[0]) {
        Some(words_of(rows[0])[0])
    } else {
        first_virtual(rows.skip(1))
    }
}

/// How making a display of the given size goes on after the programs run so far
/// replied.
pub open spec fn create_plan(width: u32, height: u32, fps: u32, replies: Seq<ReplyView>) -> StepView {
    let mode = mode_text(width, height, fps);
    if replies.len() == 0 {
        StepView::Run(
            "cvt"@,
            seq![dec(width as nat), dec(height as nat), dec(fps as nat)],
        )
    } else if reply_error("cvt"@, "cvt"@, replies[0]) is Some {
        StepView::Failed(reply_error("cvt"@, "cvt"@, replies[0])->0)
    } else if timings_in(written(replies[0])) is Err {
        StepView::Failed(timings_in(written(replies[0]))->Err_0)
    } else if replies.len() == 1 {
        StepView::Run("xrandr"@, seq!["--query"@])
    } else if reply_error("xrandr"@, "xrandr --query"@, replies[1]) is Some {
        StepView::Failed(reply_error("xrandr"@, "xrandr --query"@, replies[1])->0)
    } else {
        match first_virtual(lines_of(written(replies[1]))) {
            None => StepView::Failed(
                ErrorView::CaptureError(
                    "No disconnected VIRTUAL output found. Configure Xorg VirtualHeads first."@,
                ),
            ),
            Some(output) => if replies.len() == 2 {
                StepView::Run(
                    "xrandr"@,
                    seq!["--newmode"@, mode] + timings_in(written(replies[0]))->Ok_0,
                )
            } else if reply_error_unless_there(replies[2]) is Some {
                StepView::Failed(reply_error_unless_there(replies[2])->0)
            } else if replies.len() == 3 {
                StepView::Run("xrandr"@, seq!["--addmode"@, output, mode])
            } else if reply_error_unless_there(replies[3]) is Some {
                StepView::Failed(reply_error_unless_there(replies[3])->0)
            } else if replies.len() == 4 {
                StepView::Run("xrandr"@, seq!["--output"@, output, "--mode"@, mode])
            } else if reply_error("xrandr"@, "xrandr"@, replies[4]) is Some {
                StepView::Failed(reply_error("xrandr"@, "xrandr"@, replies[4])->0)
            } else {
                StepView::Created(output, mode, true)
            },
        }
    }
}

/// The first error among replies of xrandr.
pub open spec fn first_failure(replies: Seq<ReplyView>) -> Option<ErrorView>
    decreases replies.len(),
{
    if replies.len() == 0 {
        None
    } else {
        match reply_error("xrandr"@, "xrandr"@, replies[0]) {
            Some(e) => Some(e),
            None => first_failure(replies.skip(1)),
        }
    }
}

fn mode_name(width: u32, height: u32, fps: u32) -> (s: String)
    ensures
        s@ == mode_text(width, height, fps),
{
    "lunaris_".to_owned().concat(dec_text(width as u64).as_str()).concat("x").concat(
        dec_text(height as u64).as_str(),
    ).concat("_").concat(dec_text(fps as u64).as_str())
}

fn run(program: &str, args: Vec<String>) -> (s: CreateStep)
    ensures
        s@ == StepView::Run(program@, args_of(args@)),
{
    CreateStep::Run(Invocation { program: program.to_owned(), args })
}

/// The timings that cvt's output gives.
pub fn generate_modeline(output: &str) -> (r: Result<Vec<String>, MediaError>)
    ensures
        match r {
            Ok(v) => timings_in(output@) == Ok::<Seq<Seq<char>>, ErrorView>(args_of(v@)),
            Err(e) => timings_in(output@) == Err::<Seq<Seq<char>>, ErrorView>(e@),
        },
{
    let text: Vec<char> = chars_of(output);
    let rows: Vec<Vec<char>> = lines(text.as_slice());
    let ghost all = lines_of(output@);
    assert(all.skip(0) =~= all);
    for i in 0..rows.len()
        invariant
            all == lines_of(output@),
            views(rows@) == all,
            first_modeline(all.skip(i as int)) == first_modeline(all),
    {
        proof {
            assert(all[i as int] == rows@[i as int]@);
            assert(all.skip(i as int)[0] == rows@[i as int]@);
            assert(all.skip(i as int).skip(1) =~= all.skip(i as int + 1));
        }
        let core: Vec<char> = trim_front(rows[i].as_slice(), CharClass::White);
        if begins_with(core.as_slice(), "Modeline") {
            return timings_of(rows[i].as_slice());
        }
    }
    Err(MediaError::capture("cvt did not return a Modeline"))
}

fn timings_of(line: &[char]) -> (r: Result<Vec<String>, MediaError>)
    ensures
        match r {
            Ok(v) => timings(line@).len() > 0 && args_of(v@) == timings(line@),
            Err(e) => timings(line@).len() == 0 && e@ == ErrorView::CaptureError(
                "cvt returned an empty Modeline"@,
            ),
        },
{
    let parts: Vec<Vec<char>> = words(line);
    let ghost all = words_of(line@);
    assert(all.len() == parts@.len());
    let mut args: Vec<String> = Vec::new();
    if parts.len() >= 2 {
        assert(args_of(args@) =~= timings(line@).take(0));
        for i in 2..parts.len()
            invariant
                all == words_of(line@),
                views(parts@) == all,
                all.len() >= 2,
                args_of(args@) == timings(line@).take(i as int - 2),
        {
            assert(all[i as int] == parts@[i as int]@);
            let core: Vec<char> = trimmed(parts[i].as_slice(), CharClass::Quote);
            let ghost before = args_of(args@);
            args.push(string_of(core.as_slice()));
            proof {
                assert(all.skip(2)[i as int - 2] == all[i as int]);
                assert(timings(line@)[i as int - 2] == core@);
                assert(args_of(args@) =~= before.push(core@));
                assert(args_of(args@) =~= timings(line@).take(i as int - 1));
            }
        }
        assert(timings(line@).take(timings(line@).len() as int) =~= timings(line@));
    } else {
        assert(args_of(args@) =~= timings(line@));
    }
    assert(args_of(args@).len() == args@.len());
    if args.len() == 0 {
        return Err(MediaError::capture("cvt returned an empty Modeline"));
    }
    Ok(args)
}

/// The first free virtual output that xrandr's output lists.
pub fn find_virtual_output(output: &str) -> (r: Result<String, MediaError>)
    ensures
        match r {
            Ok(s) => first_virtual(lines_of(output@)) == Some(s@),
            Err(e) => first_virtual(lines_of(output@)) is None && e@ == ErrorView::CaptureError(
                "No disconnected VIRTUAL output found. Configure Xorg VirtualHeads first."@,
            ),
        },
{
    let text: Vec<char> = chars_of(output);
    let rows: Vec<Vec<char>> = lines(text.as_slice());
    let ghost all = lines_of(output@);
    assert(all.skip(0) =~= all);
    for i in 0..rows.len()
        invariant
            all == lines_of(output@),
            views(rows@) == all,
            first_virtual(all.skip(i as int)) == first_virtual(all),
    {
        proof {
            assert(all[i as int] == rows@[i as int]@);
            assert(all.skip(i as int)[0] == rows@[i as int]@);
            assert(all.skip(i as int).skip(1) =~= all.skip(i as int + 1));
        }
        let line: &Vec<char> = &rows[i];
        if !begins_with(line.as_slice(), " ") {
            let parts: Vec<Vec<char>> = words(line.as_slice());
            assert(words_of(line@).len() == parts@.len());
            if parts.len() > 0 {
                assert(words_of(line@)[0] == parts@[0]@);
                let capitals: Vec<char> = uppered(parts[0].as_slice());
                if contains_text(line.as_slice(), " disconnected") && begins_with(
                    capitals.as_slice(),
                    "VIRTUAL",
                ) {
                    return Ok(string_of(parts[0].as_slice()));
                }
            }
        }
    }
    Err(
        MediaError::capture(
            "No disconnected VIRTUAL output found. Configure Xorg VirtualHeads first.",
        ),
    )
}

fn stdout_of(r: &CommandReply) -> (s: String)
    ensures
        s@ == written(r@),
{
    match r {
        CommandReply::NotRun(_) => String::new(),
        CommandReply::Ended { success: _, status: _, stdout, stderr: _ } => stdout.clone(),
    }
}

impl VirtualDisplay {
    /// How making a display of the given size goes on after the programs run so
    /// far replied: the next one to run, the display or the error.
    pub fn create(width: u32, height: u32, fps: u32, replies: &Vec<CommandReply>) -> (r: CreateStep)
        ensures
            r@ == create_plan(width, height, fps, replies_of(replies@)),
    {
        let ghost all = replies_of(replies@);
        let mode: String = mode_name(width, height, fps);
        if replies.len() == 0 {
            let args: Vec<String> =
                vec![dec_text(width as u64), dec_text(height as u64), dec_text(fps as u64)];
            assert(args_of(args@) =~= seq![
                dec(width as nat),
                dec(height as nat),
                dec(fps as nat),
            ]);
            return run("cvt", args);
        }
        assert(all[0] == replies@[0]@);
        if let Some(e) = failure("cvt", "cvt", &replies[0]) {
            return CreateStep::Failed(e);
        }
        let modes: String = stdout_of(&replies[0]);
        let mut times: Vec<String> = match generate_modeline(modes.as_str()) {
            Ok(v) => v,
            Err(e) => {
                return CreateStep::Failed(e);
            },
        };
        if replies.len() == 1 {
            let args: Vec<String> = vec!["--query".to_owned()];
            assert(args_of(args@) =~= seq!["--query"@]);
            return run("xrandr", args);
        }
        assert(all[1] == replies@[1]@);
        if let Some(e) = failure("xrandr", "xrandr --query", &replies[1]) {
            return CreateStep::Failed(e);
        }
        let outputs: String = stdout_of(&replies[1]);
        let output: String = match find_virtual_output(outputs.as_str()) {
            Ok(s) => s,
            Err(e) => {
                return CreateStep::Failed(e);
            },
        };
        if replies.len() == 2 {
            let ghost t = args_of(times@);
            let mut args: Vec<String> = vec!["--newmode".to_owned(), mode];
            args.append(&mut times);
            assert(args_of(args@) =~= seq!["--newmode"@, mode_text(width, height, fps)] + t);
            return run("xrandr", args);
        }
        assert(all[2] == replies@[2]@);
        if let Some(e) = failure_unless_there(&replies[2]) {
            return CreateStep::Failed(e);
        }
        if replies.len() == 3 {
            let args: Vec<String> = vec!["--addmode".to_owned(), output, mode];
            assert(args_of(args@) =~= seq![
                "--addmode"@,
                output@,
                mode_text(width, height, fps),
            ]);
            return run("xrandr", args);
        }
        assert(all[3] == replies@[3]@);
        if let Some(e) = failure_unless_there(&replies[3]) {
            return CreateStep::Failed(e);
        }
        if replies.len() == 4 {
            let args: Vec<String> =
                vec!["--output".to_owned(), output, "--mode".to_owned(), mode];
            assert(args_of(args@) =~= seq![
                "--output"@,
                output@,
                "--mode"@,
                mode_text(width, height, fps),
            ]);
            return run("xrandr", args);
        }
        assert(all[4] == replies@[4]@);
        if let Some(e) = failure("xrandr", "xrandr", &replies[4]) {
            return CreateStep::Failed(e);
        }
        CreateStep::Created(VirtualDisplay { output_name: output, mode_name: mode, active: true })
    }

    /// The name of the output that the display stands on.
    pub fn output_name(&self) -> (s: &str)
        ensures
            s@ == self.output_name@,
    {
        self.output_name.as_str()
    }

    /// The xrandr runs that take the display down; none where it is down.
    pub fn destroy_commands(&self) -> (r: Vec<Vec<String>>)
        ensures
            r@.map_values(|v: Vec<String>| args_of(v@)) == (if self.active {
                take_down(self.output_name@, self.mode_name@)
            } else {
                Seq::empty()
            }),
    {
        if !self.active {
            let r: Vec<Vec<String>> = Vec::new();
            assert(r@.map_values(|v: Vec<String>| args_of(v@)) =~= Seq::empty());
            return r;
        }
        let off: Vec<String> =
            vec!["--output".to_owned(), self.output_name.clone(), "--off".to_owned()];
        let delmode: Vec<String> =
            vec!["--delmode".to_owned(), self.output_name.clone(), self.mode_name.clone()];
        let rmmode: Vec<String> = vec!["--rmmode".to_owned(), self.mode_name.clone()];
        proof {
            assert(args_of(off@) =~= seq!["--output"@, self.output_name@, "--off"@]);
            assert(args_of(delmode@) =~= seq!["--delmode"@, self.output_name@, self.mode_name@]);
            assert(args_of(rmmode@) =~= seq!["--rmmode"@, self.mode_name@]);
        }
        let r: Vec<Vec<String>> = vec![off, delmode, rmmode];
        assert(r@.map_values(|v: Vec<String>| args_of(v@)) =~= seq![
            seq!["--output"@, self.output_name@, "--off"@],
            seq!["--delmode"@, self.output_name@, self.mode_name@],
            seq!["--rmmode"@, self.mode_name@],
        ]);
        r
    }

    /// Notes that the display was taken down, after the runs of
    /// `destroy_commands` replied: the first error among the replies is
    /// returned. Does nothing where the display is down.
    pub fn destroy(&mut self, replies: &Vec<CommandReply>) -> (r: Result<(), MediaError>)
        ensures
            *final(self) == (VirtualDisplay { active: false, ..*old(self) }),
            match r {
                Err(e) => old(self).active && first_failure(replies_of(replies@)) == Some(e@),
                Ok(()) => old(self).active ==> first_failure(replies_of(replies@)) is None,
            },
    {
        if !self.active {
            return Ok(());
        }
        self.active = false;
        let ghost all = replies_of(replies@);
        assert(all.skip(0) =~= all);
        for i in 0..replies.len()
            invariant
                all == replies_of(replies@),
                old(self).active,
                *self == (VirtualDisplay { active: false, ..*old(self) }),
                first_failure(all.skip(i as int)) == first_failure(all),
        {
            proof {
                assert(all.skip(i as int)[0] == replies@[i as int]@);
                assert(all.skip(i as int).skip(1) =~= all.skip(i as int + 1));
            }
            if let Some(e) = failure("xrandr", "xrandr", &replies[i]) {
                return Err(e);
            }
        }
        Ok(())
    }
}

/// What is run to take a display down: the output goes dark, lets go of the
/// mode, and the mode is forgotten.
pub open spec fn take_down(output: Seq<char>, mode: Seq<char>) -> Seq<Seq<Seq<char>>> {
    seq![
        seq!["--output"@, output, "--off"@],
        seq!["--delmode"@, output, mode],
        seq!["--rmmode"@, mode],
    ]
}

/// A display is taken down step by step as it was made: the output that was
/// switched on is switched off, the mode that it was given is taken from it, and
/// the mode that was made is removed.
pub proof fn law_what_was_made_is_taken_down(
    width: u32,
    height: u32,
    fps: u32,
    replies: Seq<ReplyView>,
    output: Seq<char>,
    mode: Seq<char>,
)
    requires
        create_plan(width, height, fps, replies) == StepView::Created(output, mode, true),
    ensures
        create_plan(width, height, fps, replies.take(2)) matches StepView::Run(_, args)
            && args.len() >= 2 && args[0] == "--newmode"@ && args[1] == take_down(
            output,
            mode,
        )[2][1],
        create_plan(width, height, fps, replies.take(3)) matches StepView::Run(_, args) && args
            == seq!["--addmode"@, take_down(output, mode)[1][1], take_down(output, mode)[1][2]],
        create_plan(width, height, fps, replies.take(4)) matches StepView::Run(_, args) && args
            == seq!["--output"@, take_down(output, mode)[0][1], "--mode"@, mode],
{
    let n = mode_text(width, height, fps);
    assert(forall|k: int, i: int|
        0 <= i < k <= replies.len() ==> #[trigger] replies.take(k)[i] == replies[i]);
    assert((seq!["--newmode"@, n] + timings_in(written(replies[0]))->Ok_0)[0] == "--newmode"@);
    assert((seq!["--newmode"@, n] + timings_in(written(replies[0]))->Ok_0)[1] == n);
}

/// Making a display never runs more than five programs, and a display comes out
/// only where each of the five ended well or found its thing there already.
pub proof fn law_a_display_takes_five_good_replies(
    width: u32,
    height: u32,
    fps: u32,
    replies: Seq<ReplyView>,
)
    ensures
        create_plan(width, height, fps, replies) is Run ==> replies.len() < 5,
        create_plan(width, height, fps, replies) is Created ==> {
            &&& replies.len() >= 5
            &&& reply_error("cvt"@, "cvt"@, replies[0]) is None
            &&& reply_error("xrandr"@, "xrandr --query"@, replies[1]) is None
            &&& reply_error_unless_there(replies[2]) is None
            &&& reply_error_unless_there(replies[3]) is None
            &&& reply_error("xrandr"@, "xrandr"@, replies[4]) is None
        },
{
}

/// Once a program's reply has ended the making of a display, later replies
/// change nothing.
pub proof fn law_an_end_is_final(
    width: u32,
    height: u32,
    fps: u32,
    replies: Seq<ReplyView>,
    more: Seq<ReplyView>,
)
    requires
        create_plan(width, height, fps, replies) !is Run,
    ensures
        create_plan(width, height, fps, replies + more) == create_plan(width, height, fps, replies),
{
    let all = replies + more;
    assert(forall|i: int| 0 <= i < replies.len() ==> all[i] == replies[i]);
}

proof fn lemma_first_virtual(rows: Seq<Seq<char>>)
    ensures
        match first_virtual(rows) {
            Some(name) => exists|i: int|
                0 <= i < rows.len() && #[trigger] virtual_line(rows[i]) && words_of(rows[i])[0]
                    == name && forall|j: int| 0 <= j < i ==> !#[trigger] virtual_line(rows[j]),
            None => forall|j: int| 0 <= j < rows.len() ==> !#[trigger] virtual_line(rows[j]),
        },
    decreases rows.len(),
{
    if rows.len() > 0 {
        let t = rows.skip(1);
        if virtual_line(rows[0]) {
        } else {
            lemma_first_virtual(t);
            match first_virtual(t) {
                Some(name) => {
                    let i = choose|i: int|
                        0 <= i < t.len() && #[trigger] virtual_line(t[i]) && words_of(t[i])[0]
                            == name && forall|j: int| 0 <= j < i ==> !#[trigger] virtual_line(t[j]);
                    assert(rows[i + 1] == t[i]);
                    assert(virtual_line(rows[i + 1]));
                    assert forall|j: int| 0 <= j < i + 1 implies !#[trigger] virtual_line(
                        rows[j],
                    ) by {
                        if j > 0 {
                            assert(rows[j] == t[j - 1]);
                            assert(!virtual_line(t[j - 1]));
                        }
                    }
                },
                None => {
                    assert forall|j: int| 0 <= j < rows.len() implies !#[trigger] virtual_line(
                        rows[j],
                    ) by {
                        if j > 0 {
                            assert(rows[j] == t[j - 1]);
                            assert(!virtual_line(t[j - 1]));
                        }
                    }
                },
            }
        }
    }
}

/// A display stands on an output that was free: the first that xrandr lists as disconnected
/// under a name that begins with VIRTUAL, in letters of either size. Its mode is named after
/// its size and rate, in this order, and is made with the timings that were computed for
/// that size and rate, in this order.
pub proof fn law_a_display_stands_on_a_free_output(
    width: u32,
    height: u32,
    fps: u32,
    replies: Seq<ReplyView>,
    output: Seq<char>,
    mode: Seq<char>,
    active: bool,
)
    requires
        create_plan(width, height, fps, replies) == StepView::Created(output, mode, active),
    ensures
        active,
        ({
            let rows = lines_of(written(replies[1]));
            exists|i: int|
                0 <= i < rows.len() && #[trigger] virtual_line(rows[i]) && words_of(rows[i])[0]
                    == output && occurs(" disconnected"@, rows[i]) && "VIRTUAL"@.is_prefix_of(
                    upper_all(output),
                ) && forall|j: int| 0 <= j < i ==> !#[trigger] virtual_line(rows[j])
        }),
        mode == "lunaris_"@ + dec(width as nat) + "x"@ + dec(height as nat) + "_"@ + dec(
            fps as nat,
        ),
        create_plan(width, height, fps, Seq::empty()) == StepView::Run(
            "cvt"@,
            seq![dec(width as nat), dec(height as nat), dec(fps as nat)],
        ),
        create_plan(width, height, fps, replies.take(2)) == StepView::Run(
            "xrandr"@,
            seq!["--newmode"@, mode] + timings_in(written(replies[0]))->Ok_0,
        ),
{
    lemma_first_virtual(lines_of(written(replies[1])));
    assert(replies.take(2)[0] == replies[0] && replies.take(2)[1] == replies[1]);
}

/// The timings of a mode are the words behind its name, in their order, each without the
/// quotes around it.
pub proof fn law_timings_stand_behind_the_name(line: Seq<char>, i: int)
    requires
        0 <= i < words_of(line).len() - 2,
    ensures
        timings(line).len() == words_of(line).len() - 2,
        timings(line)[i] == stripped(words_of(line)[i + 2], CharClass::Quote),
{
}

/// The error that is reported is that of the first command that failed; there is none where
/// every command went well.
#[verifier::spinoff_prover]
pub proof fn law_the_first_failure_is_reported(replies: Seq<ReplyView>)
    ensures
        first_failure(replies) is None <==> forall|i: int|
            0 <= i < replies.len() ==> reply_error("xrandr"@, "xrandr"@, #[trigger] replies[i]) is None,
        first_failure(replies) matches Some(e) ==> exists|i: int|
            0 <= i < replies.len() && reply_error("xrandr"@, "xrandr"@, #[trigger] replies[i]) == Some(e)
                && forall|j: int|
                0 <= j < i ==> reply_error("xrandr"@, "xrandr"@, #[trigger] replies[j]) is None,
    decreases replies.len(),
{
    if replies.len() > 0 {
        let rest = replies.skip(1);
        law_the_first_failure_is_reported(rest);
        if reply_error("xrandr"@, "xrandr"@, replies[0]) is None {
            assert forall|i: int|
                0 <= i < replies.len() && first_failure(rest) is None implies reply_error(
                "xrandr"@,
                "xrandr"@,
                #[trigger] replies[i],
            ) is None by {
                if i > 0 {
                    assert(rest[i - 1] == replies[i]);
                }
            }
            if first_failure(rest) is Some {
                let e = first_failure(rest)->0;
                let k = choose|i: int|
                    0 <= i < rest.len() && reply_error("xrandr"@, "xrandr"@, #[trigger] rest[i])
                        == Some(e) && forall|j: int|
                        0 <= j < i ==> reply_error("xrandr"@, "xrandr"@, #[trigger] rest[j]) is None;
                assert(rest[k] == replies[k + 1]);
                assert(reply_error("xrandr"@, "xrandr"@, replies[k + 1]) == Some(e));
                assert forall|j: int| 0 <= j < k + 1 implies reply_error(
                    "xrandr"@,
                    "xrandr"@,
                    #[trigger] replies[j],
                ) is None by {
                    if j > 0 {
                        assert(rest[j - 1] == replies[j]);
                    }
                }
            }
        } else {
            assert(reply_error("xrandr"@, "xrandr"@, replies[0]) is Some);
        }
    }
}

} // verus!
