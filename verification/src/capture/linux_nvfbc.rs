//! Capture by NVIDIA's framebuffer capture, on the GPU.
//!
//! Its calls are all made on one thread, because its context stays bound to the
//! thread that made it. The thread takes commands and hands out frames.

use crate::capture::gpu_buffer::GpuBuffer;
use crate::capture::{cpu_frame, is_cpu_frame, CapturedFrame};
use crate::error::{ErrorView, MediaError};
use crate::text::{
    chars_of, dec, dec_text, is_text, law_written_numbers_are_read_back, parse_u32, signed_dec,
    signed_text, unsigned_of,
};
use crate::types::{DisplayInfo, PixelFormat, StreamConfig};
use vstd::prelude::*;

verus! {

// ---- The CUDA context ----

/// How far setting up a CUDA context came.
#[derive(Debug)]
pub enum CudaSetup {
    NoLibrary,
    /// A function is missing from the library.
    NoSymbol(String),
    /// A call failed with a code.
    Failed(String, i32),
    Ready,
}

/// The libraries that hold CUDA, in the order they are tried.
pub open spec fn cuda_libraries() -> Seq<Seq<char>> {
    seq!["libcuda.so.1"@, "libcuda.so"@]
}

/// The library to load after `failed` of them could not be loaded.
pub fn cuda_library(failed: usize) -> (r: Option<&'static str>)
    ensures
        match r {
            Some(s) => failed < cuda_libraries().len() && s@ == cuda_libraries()[failed as int],
            None => failed >= cuda_libraries().len(),
        },
{
    if failed == 0 {
        Some("libcuda.so.1")
    } else if failed == 1 {
        Some("libcuda.so")
    } else {
        None
    }
}

/// What is wrong with a CUDA context, where anything is, and whether the library
/// is to be closed.
pub fn try_init_cuda(setup: &CudaSetup) -> (r: Result<(), (String, bool)>)
    ensures
        match *setup {
            CudaSetup::Ready => r is Ok,
            CudaSetup::NoLibrary => r matches Err(e) && e.0@
                == "Failed to load libcuda.so.1 or libcuda.so"@ && !e.1,
            CudaSetup::NoSymbol(name) => r matches Err(e) && e.0@ == name@ + " symbol not found"@
                && e.1,
            CudaSetup::Failed(name, code) => r matches Err(e) && e.0@ == name@
                + " failed with code: "@ + signed_dec(code as int) && e.1,
        },
{
    match setup {
        CudaSetup::Ready => Ok(()),
        CudaSetup::NoLibrary => Err(
            ("Failed to load libcuda.so.1 or libcuda.so".to_owned(), false),
        ),
        CudaSetup::NoSymbol(name) => Err(
            (name.as_str().to_owned().concat(" symbol not found"), true),
        ),
        CudaSetup::Failed(name, code) => {
            let number: String = signed_text(*code as i64);
            Err(
                (
                    name.as_str().to_owned().concat(" failed with code: ").concat(number.as_str()),
                    true,
                ),
            )
        },
    }
}

// ---- Choosing a capturer ----

/// Where frames are captured to.
#[derive(Debug, Clone, Copy, PartialEq, Eq, Structural)]
pub enum CapturerKind {
    System,
    Cuda,
}

/// What came of the last step of setting up. The flag says whether the X server
/// reported an error since the step before.
#[derive(Debug)]
pub enum CapturerProgress {
    /// Whether a CUDA context was made.
    Context(bool, bool),
    /// Whether a capturer into CUDA memory was made.
    Cuda(bool, bool),
    /// Whether a capturer into system memory was made, or what is wrong.
    System(Result<(), String>, bool),
}

/// How setting up goes on. An error of the X server ends it, whatever else
/// worked.
#[derive(Debug)]
pub enum CapturerStep {
    TryCuda,
    TrySystem,
    Use(CapturerKind),
    Failed(String),
}

/// A [`CapturerStep`] with its text as a character sequence.
pub enum CapturerStepView {
    TryCuda,
    TrySystem,
    Use(CapturerKind),
    Failed(Seq<char>),
}

impl View for CapturerStep {
    type V = CapturerStepView;

    open spec fn view(&self) -> CapturerStepView {
        match *self {
            CapturerStep::TryCuda => CapturerStepView::TryCuda,
            CapturerStep::TrySystem => CapturerStepView::TrySystem,
            CapturerStep::Use(k) => CapturerStepView::Use(k),
            CapturerStep::Failed(s) => CapturerStepView::Failed(s@),
        }
    }
}

/// How setting up goes on after a step.
pub open spec fn capturer_plan(p: CapturerProgress) -> CapturerStepView {
    match p {
        CapturerProgress::Context(made, error) => if !made {
            CapturerStepView::TrySystem
        } else if error {
            CapturerStepView::Failed("X11 error during CUDA initialization"@)
        } else {
            CapturerStepView::TryCuda
        },
        CapturerProgress::Cuda(made, error) => if made && error {
            CapturerStepView::Failed(
                "X11/GLX error during NvFBC CUDA capturer init (e.g., GLX context creation failed)"@,
            )
        } else if made {
            CapturerStepView::Use(CapturerKind::Cuda)
        } else if error {
            CapturerStepView::Failed("X11 error during NvFBC initialization"@)
        } else {
            CapturerStepView::TrySystem
        },
        CapturerProgress::System(Ok(()), error) => if error {
            CapturerStepView::Failed("X11 error during NvFBC System capturer init"@)
        } else {
            CapturerStepView::Use(CapturerKind::System)
        },
        CapturerProgress::System(Err(t), _) => CapturerStepView::Failed(
            "Failed to initialize NvFBC System Capturer: "@ + t@,
        ),
    }
}

/// How setting up goes on after a step.
pub fn init_capturer(p: &CapturerProgress) -> (r: CapturerStep)
    ensures
        r@ == capturer_plan(*p),
{
    match p {
        CapturerProgress::Context(made, error) => if !*made {
            CapturerStep::TrySystem
        } else if *error {
            CapturerStep::Failed("X11 error during CUDA initialization".to_owned())
        } else {
            CapturerStep::TryCuda
        },
        CapturerProgress::Cuda(made, error) => if *made && *error {
            CapturerStep::Failed(
                "X11/GLX error during NvFBC CUDA capturer init (e.g., GLX context creation failed)".to_owned(),
            )
        } else if *made {
            CapturerStep::Use(CapturerKind::Cuda)
        } else if *error {
            CapturerStep::Failed("X11 error during NvFBC initialization".to_owned())
        } else {
            CapturerStep::TrySystem
        },
        CapturerProgress::System(Ok(()), error) => if *error {
            CapturerStep::Failed("X11 error during NvFBC System capturer init".to_owned())
        } else {
            CapturerStep::Use(CapturerKind::System)
        },
        CapturerProgress::System(Err(t), _) => CapturerStep::Failed(
            "Failed to initialize NvFBC System Capturer: ".to_owned().concat(t.as_str()),
        ),
    }
}

// ---- A session ----

/// What a session tracks.
#[derive(Debug, Clone, Copy, PartialEq, Eq, Structural)]
pub enum Tracking {
    Default,
    Output(u32),
}

/// What a session is made with. Frames have the tracked region's own size, are
/// pushed when the picture changes, and may come directly from a program.
#[derive(Debug, Clone, Copy, PartialEq, Eq, Structural)]
pub struct SessionParams {
    pub with_cursor: bool,
    pub tracking: Tracking,
    pub sampling_rate_ms: u32,
    pub push_model: bool,
    pub allow_direct_capture: bool,
}

/// How long a frame lasts, in milliseconds; a rate of zero counts as one.
pub open spec fn sampling_ms(fps: u32) -> u32 {
    if fps == 0 {
        1000
    } else {
        1000u32 / fps
    }
}

/// Whether this is what a session of a display is made with.
pub open spec fn session_wanted(
    display_id: Seq<char>,
    fps: u32,
    with_cursor: bool,
    p: SessionParams,
) -> bool {
    &&& p.with_cursor == with_cursor
    &&& p.sampling_rate_ms == sampling_ms(fps)
    &&& p.push_model && p.allow_direct_capture
    &&& if display_id == "default"@ {
        p.tracking == Tracking::Default
    } else {
        unsigned_of(display_id, 0xffff_ffff) matches Some(n) && p.tracking == Tracking::Output(
            n as u32,
        )
    }
}

/// What a session of a display is made with. A display other than the default
/// one is named by its number.
pub fn session_params(display_id: &str, fps: u32, with_cursor: bool) -> (r: Result<
    SessionParams,
    String,
>)
    ensures
        match r {
            Ok(p) => session_wanted(display_id@, fps, with_cursor, p),
            Err(t) => display_id@ != "default"@ && unsigned_of(display_id@, 0xffff_ffff) is None
                && t@ == "Invalid NvFBC output id '"@ + display_id@ + "'"@,
        },
{
    let text: Vec<char> = chars_of(display_id);
    let tracking: Tracking = if is_text(text.as_slice(), "default") {
        Tracking::Default
    } else {
        match parse_u32(text.as_slice()) {
            Some(n) => Tracking::Output(n),
            None => {
                return Err(
                    "Invalid NvFBC output id '".to_owned().concat(display_id).concat("'"),
                );
            },
        }
    };
    let rate: u32 = if fps == 0 {
        1
    } else {
        fps
    };
    Ok(
        SessionParams {
            with_cursor,
            tracking,
            sampling_rate_ms: 1000 / rate,
            push_model: true,
            allow_direct_capture: true,
        },
    )
}

/// A call that makes a session.
#[derive(Debug, Clone, Copy, PartialEq, Eq, Structural)]
pub enum SessionCall {
    Create,
    SetUpSystem,
    SetUpCuda,
}

/// The call that sets a session up for a capturer.
pub fn set_up_call(kind: CapturerKind) -> (r: SessionCall)
    ensures
        r == (match kind {
            CapturerKind::System => SessionCall::SetUpSystem,
            CapturerKind::Cuda => SessionCall::SetUpCuda,
        }),
{
    match kind {
        CapturerKind::System => SessionCall::SetUpSystem,
        CapturerKind::Cuda => SessionCall::SetUpCuda,
    }
}

/// The text that describes a call that ended with a status other than success.
pub fn session_failure(call: SessionCall, status: u32) -> (s: String)
    ensures
        s@ == (match call {
            SessionCall::Create => "NvFBCCreateCaptureSession failed: "@,
            SessionCall::SetUpSystem => "NvFBCToSysSetUp failed: "@,
            SessionCall::SetUpCuda => "NvFBCToCudaSetUp failed: "@,
        }) + dec(status as nat),
{
    let front: &str = match call {
        SessionCall::Create => "NvFBCCreateCaptureSession failed: ",
        SessionCall::SetUpSystem => "NvFBCToSysSetUp failed: ",
        SessionCall::SetUpCuda => "NvFBCToCudaSetUp failed: ",
    };
    front.to_owned().concat(dec_text(status as u64).as_str())
}

// ---- The thread ----

/// A command to the thread.
#[derive(Debug, Clone, Copy, PartialEq, Eq, Structural)]
pub enum NvfbcCommand {
    GetStatus,
    Start,
    Stop,
}

/// What the thread does for a command.
#[derive(Debug, Clone, Copy, PartialEq, Eq, Structural)]
pub enum CommandAction {
    /// Answer with the capturer's status.
    ReplyStatus,
    /// Make a session and answer whether that worked.
    StartSession,
    /// Stop the capturer and answer whether that worked.
    StopSession,
    /// Answer that all is well.
    ReplyDone,
}

/// What the thread does when no command waits.
#[derive(Debug, Clone, Copy, PartialEq, Eq, Structural)]
pub enum ThreadStep {
    /// Grab a frame and hand it out.
    Grab,
    /// Wait for a command; end where none can come any more.
    WaitForCommand,
}

/// The thread's state: whether frames are wanted.
#[derive(Debug, Clone, Copy, PartialEq, Eq, Structural)]
pub struct NvfbcThread {
    pub active: bool,
}

/// What the thread does for a command, and whether frames are wanted then.
pub open spec fn thread_after(active: bool, command: NvfbcCommand, waited: bool) -> (
    CommandAction,
    bool,
) {
    (
        match command {
            NvfbcCommand::GetStatus => CommandAction::ReplyStatus,
            NvfbcCommand::Start => CommandAction::StartSession,
            NvfbcCommand::Stop => if waited {
                CommandAction::ReplyDone
            } else {
                CommandAction::StopSession
            },
        },
        active && command != NvfbcCommand::Stop,
    )
}

impl NvfbcThread {
    /// A thread that grabs nothing.
    pub fn new() -> (r: Self)
        ensures
            !r.active,
    {
        NvfbcThread { active: false }
    }

    /// What is to be done when no command waits.
    pub fn step(&self) -> (r: ThreadStep)
        ensures
            r == (if self.active {
                ThreadStep::Grab
            } else {
                ThreadStep::WaitForCommand
            }),
    {
        if self.active {
            ThreadStep::Grab
        } else {
            ThreadStep::WaitForCommand
        }
    }

    /// What is to be done for a command. A stop that the thread waited for finds
    /// nothing to stop.
    pub fn on_command(&mut self, command: NvfbcCommand, waited: bool) -> (r: CommandAction)
        requires
            waited ==> !old(self).active,
        ensures
            (r, final(self).active) == thread_after(old(self).active, command, waited),
    {
        match command {
            NvfbcCommand::GetStatus => CommandAction::ReplyStatus,
            NvfbcCommand::Start => CommandAction::StartSession,
            NvfbcCommand::Stop => {
                self.active = false;
                if waited {
                    CommandAction::ReplyDone
                } else {
                    CommandAction::StopSession
                }
            },
        }
    }

    /// Takes up whether a session was made. One that could not be made leaves
    /// the frames of the last one wanted.
    pub fn session_started(&mut self, ok: bool)
        ensures
            final(self).active == (old(self).active || ok),
    {
        if ok {
            self.active = true;
        }
    }

    /// Takes up how handing out a frame went. Frames that nobody can take any
    /// more are not wanted; one that found no room is dropped.
    pub fn frame_sent(&mut self, closed: bool)
        ensures
            final(self).active == (old(self).active && !closed),
    {
        if closed {
            self.active = false;
        }
    }
}

/// The frame of bytes that were captured to system memory.
pub fn system_frame(data: Vec<u8>, width: u32, height: u32, is_new_frame: bool, timestamp_us: u64)
    -> (r: CapturedFrame)
    requires
        width * 4 <= u32::MAX,
    ensures
        is_cpu_frame(r, data@, (width * 4) as u32, width, height, timestamp_us, is_new_frame),
{
    cpu_frame(data, width * 4, width, height, timestamp_us, is_new_frame)
}

/// The frame of bytes that were captured to CUDA memory.
pub open spec fn frame_in_cuda(
    ptr: usize,
    size: usize,
    width: u32,
    height: u32,
    is_new_frame: bool,
    timestamp_us: u64,
) -> CapturedFrame {
    CapturedFrame {
        buffer: GpuBuffer::CudaPointer {
            ptr,
            size,
            width,
            height,
            stride: (width * 4) as u32,
            format: PixelFormat::BGRA,
        },
        timestamp_us,
        width,
        height,
        format: PixelFormat::BGRA,
        is_new_frame,
        cursor: None,
    }
}

/// The frame of bytes that were captured to CUDA memory.
pub fn cuda_frame(
    ptr: usize,
    size: usize,
    width: u32,
    height: u32,
    is_new_frame: bool,
    timestamp_us: u64,
) -> (r: CapturedFrame)
    requires
        width * 4 <= u32::MAX,
    ensures
        r == frame_in_cuda(ptr, size, width, height, is_new_frame, timestamp_us),
{
    CapturedFrame {
        buffer: GpuBuffer::CudaPointer {
            ptr,
            size,
            width,
            height,
            stride: width * 4,
            format: PixelFormat::BGRA,
        },
        timestamp_us,
        width,
        height,
        format: PixelFormat::BGRA,
        is_new_frame,
        cursor: None,
    }
}

// ---- The capture ----

/// An output of the graphics card.
#[derive(Debug)]
pub struct NvfbcOutput {
    pub id: u32,
    pub name: String,
    pub width: u32,
    pub height: u32,
}

/// What the capturer says of itself.
#[derive(Debug)]
pub struct NvfbcStatus {
    pub is_capture_possible: bool,
    pub screen_width: u32,
    pub screen_height: u32,
    pub outputs: Vec<NvfbcOutput>,
}

/// An answer of the thread.
#[derive(Debug)]
pub enum ThreadReply<T> {
    /// The thread takes no commands.
    NotSent,
    /// The thread gave no answer.
    NoReply,
    /// The capturer failed, with its description.
    Failed(String),
    Done(T),
}

/// The capture's state. The thread is held by the caller.
#[derive(Debug, Clone, Copy, PartialEq, Eq, Structural)]
pub struct NvfbcCapture {
    pub width: u32,
    pub height: u32,
    pub fps: u32,
    pub capturing: bool,
}

/// Whether the display at `i` of a list is the output at that place.
pub open spec fn lists_output(o: NvfbcOutput, i: int, d: DisplayInfo) -> bool {
    &&& d.id@ == dec(o.id as nat)
    &&& d.name@ == o.name@
    &&& d.width == o.width
    &&& d.height == o.height
    &&& d.refresh_rate@ == "60.0"@
    &&& d.is_primary == (i == 0)
}

/// Whether `r` is the displays that the thread's answer tells of.
pub open spec fn displays_listed(
    c: NvfbcCapture,
    status: ThreadReply<NvfbcStatus>,
    r: Result<Vec<DisplayInfo>, MediaError>,
) -> bool {
    match status {
        ThreadReply::NotSent => r matches Err(e) && e@ == ErrorView::CaptureError(
            "Failed to communicate with NvFBC thread"@,
        ),
        ThreadReply::NoReply => r matches Err(e) && e@ == ErrorView::CaptureError(
            "NvFBC thread query failed"@,
        ),
        ThreadReply::Failed(t) => r matches Err(e) && e@ == ErrorView::CaptureError(
            "Failed to query NvFBC status: "@ + t@,
        ),
        ThreadReply::Done(s) => r matches Ok(v) && if s.outputs@.len() > 0 {
            v@.len() == s.outputs@.len() && forall|i: int|
                #![trigger v@[i]]
                0 <= i < v@.len() ==> lists_output(s.outputs@[i], i, v@[i])
        } else {
            v@.len() == 1 && v@[0].id@ == "default"@ && v@[0].name@
                == "NVIDIA NvFBC Display"@ && v@[0].width == c.width && v@[0].height
                == c.height && v@[0].refresh_rate@ == "60.0"@ && v@[0].is_primary
        },
    }
}

impl NvfbcCapture {
    /// Whether the thread is to be started: not in a Wayland session.
    pub fn check_session(session_type: Option<&str>) -> (r: Result<(), MediaError>)
        ensures
            match r {
                Ok(()) => !(session_type matches Some(t) && t@ == "wayland"@),
                Err(e) => (session_type matches Some(t) && t@ == "wayland"@) && e@
                    == ErrorView::PlatformNotSupported(
                    "NvFBC capture is only supported on X11 sessions."@,
                ),
            },
    {
        if let Some(t) = session_type {
            let v: Vec<char> = chars_of(t);
            if is_text(v.as_slice(), "wayland") {
                return Err(
                    MediaError::PlatformNotSupported(
                        "NvFBC capture is only supported on X11 sessions.".to_owned(),
                    ),
                );
            }
        }
        Ok(())
    }

    /// The error of a thread that could not be started.
    pub fn spawn_failed(text: &str) -> (e: MediaError)
        ensures
            e@ == ErrorView::CaptureError("Failed to spawn NvFBC thread: "@ + text@),
    {
        MediaError::CaptureError("Failed to spawn NvFBC thread: ".to_owned().concat(text))
    }

    /// A capture whose thread was started: by whether setting up worked, and by
    /// the capturer's status.
    pub fn new(setup: ThreadReply<()>, status: ThreadReply<NvfbcStatus>) -> (r: Result<
        Self,
        MediaError,
    >)
        ensures
            match (setup, status) {
                (ThreadReply::Failed(t), _) => r matches Err(e) && e@ == ErrorView::CaptureError(
                    t@,
                ),
                (ThreadReply::NotSent, _) | (ThreadReply::NoReply, _) => r matches Err(e) && e@
                    == ErrorView::CaptureError("NvFBC thread panicked during setup"@),
                (ThreadReply::Done(_), ThreadReply::NotSent) => r matches Err(e) && e@
                    == ErrorView::CaptureError("Failed to communicate with NvFBC thread"@),
                (ThreadReply::Done(_), ThreadReply::NoReply) => r matches Err(e) && e@
                    == ErrorView::CaptureError("NvFBC thread query failed"@),
                (ThreadReply::Done(_), ThreadReply::Failed(t)) => r matches Err(e) && e@
                    == ErrorView::CaptureError("Failed to query status: "@ + t@),
                (ThreadReply::Done(_), ThreadReply::Done(s)) => if s.is_capture_possible {
                    r matches Ok(c) && c == (NvfbcCapture {
                        width: s.screen_width,
                        height: s.screen_height,
                        fps: 60,
                        capturing: false,
                    })
                } else {
                    r matches Err(e) && e@ == ErrorView::CaptureError(
                        "NvFBC capture is not supported by the graphics driver or hardware."@,
                    )
                },
            },
    {
        match setup {
            ThreadReply::Failed(t) => {
                return Err(MediaError::CaptureError(t));
            },
            ThreadReply::NotSent | ThreadReply::NoReply => {
                return Err(MediaError::capture("NvFBC thread panicked during setup"));
            },
            ThreadReply::Done(_) => {},
        }
        match status {
            ThreadReply::NotSent => Err(
                MediaError::capture("Failed to communicate with NvFBC thread"),
            ),
            ThreadReply::NoReply => Err(MediaError::capture("NvFBC thread query failed")),
            ThreadReply::Failed(t) => Err(
                MediaError::CaptureError("Failed to query status: ".to_owned().concat(t.as_str())),
            ),
            ThreadReply::Done(s) => if s.is_capture_possible {
                Ok(
                    NvfbcCapture {
                        width: s.screen_width,
                        height: s.screen_height,
                        fps: 60,
                        capturing: false,
                    },
                )
            } else {
                Err(
                    MediaError::capture(
                        "NvFBC capture is not supported by the graphics driver or hardware.",
                    ),
                )
            },
        }
    }

    /// The displays: the card's outputs, the first of them the primary one; or
    /// the whole screen where it lists none.
    pub fn list_displays(&self, status: ThreadReply<NvfbcStatus>) -> (r: Result<
        Vec<DisplayInfo>,
        MediaError,
    >)
        ensures
            displays_listed(*self, status, r),
    {
        match status {
            ThreadReply::NotSent => Err(
                MediaError::capture("Failed to communicate with NvFBC thread"),
            ),
            ThreadReply::NoReply => Err(MediaError::capture("NvFBC thread query failed")),
            ThreadReply::Failed(t) => Err(
                MediaError::CaptureError(
                    "Failed to query NvFBC status: ".to_owned().concat(t.as_str()),
                ),
            ),
            ThreadReply::Done(s) => {
                let mut v: Vec<DisplayInfo> = Vec::new();
                if s.outputs.len() > 0 {
                    for i in 0..s.outputs.len()
                        invariant
                            v@.len() == i,
                            forall|j: int|
                                #![trigger v@[j]]
                                0 <= j < i ==> lists_output(s.outputs@[j], j, v@[j]),
                    {
                        let o: &NvfbcOutput = &s.outputs[i];
                        v.push(
                            DisplayInfo {
                                id: dec_text(o.id as u64),
                                name: o.name.clone(),
                                width: o.width,
                                height: o.height,
                                refresh_rate: "60.0".to_owned(),
                                is_primary: i == 0,
                            },
                        );
                    }
                } else {
                    v.push(
                        DisplayInfo {
                            id: "default".to_owned(),
                            name: "NVIDIA NvFBC Display".to_owned(),
                            width: self.width,
                            height: self.height,
                            refresh_rate: "60.0".to_owned(),
                            is_primary: true,
                        },
                    );
                }
                Ok(v)
            },
        }
    }

    /// Begins to start: takes up the configuration.
    pub fn start(&mut self, config: &StreamConfig) -> (r: Result<(), MediaError>)
        ensures
            match r {
                Err(e) => old(self).capturing && e@ == ErrorView::CaptureAlreadyStarted
                    && *final(self) == *old(self),
                Ok(()) => !old(self).capturing && *final(self) == (NvfbcCapture {
                    width: config.width,
                    height: config.height,
                    fps: config.fps,
                    capturing: false,
                }),
            },
    {
        if self.capturing {
            return Err(MediaError::CaptureAlreadyStarted);
        }
        self.width = config.width;
        self.height = config.height;
        self.fps = config.fps;
        Ok(())
    }

    /// Takes up whether the thread made a session.
    pub fn started(&mut self, reply: ThreadReply<()>) -> (r: Result<(), MediaError>)
        ensures
            *final(self) == (NvfbcCapture {
                capturing: old(self).capturing || reply is Done,
                ..*old(self)
            }),
            match reply {
                ThreadReply::Done(_) => r is Ok,
                ThreadReply::NotSent => r matches Err(e) && e@ == ErrorView::CaptureError(
                    "Failed to communicate with NvFBC thread"@,
                ),
                ThreadReply::NoReply => r matches Err(e) && e@ == ErrorView::CaptureError(
                    "NvFBC thread communication failed"@,
                ),
                ThreadReply::Failed(t) => r matches Err(e) && e@ == ErrorView::CaptureError(
                    "Failed to start NvFBC session: "@ + t@,
                ),
            },
    {
        match reply {
            ThreadReply::Done(_) => {
                self.capturing = true;
                Ok(())
            },
            ThreadReply::NotSent => Err(
                MediaError::capture("Failed to communicate with NvFBC thread"),
            ),
            ThreadReply::NoReply => Err(MediaError::capture("NvFBC thread communication failed")),
            ThreadReply::Failed(t) => Err(
                MediaError::CaptureError(
                    "Failed to start NvFBC session: ".to_owned().concat(t.as_str()),
                ),
            ),
        }
    }

    /// The next frame, by what the thread handed over; `None` where it ended.
    pub fn next_frame(&self, received: Option<Result<CapturedFrame, String>>) -> (r: Result<
        CapturedFrame,
        MediaError,
    >)
        ensures
            match r {
                Ok(f) => self.capturing && received == Some(Ok::<CapturedFrame, String>(f)),
                Err(e) => if !self.capturing {
                    e@ == ErrorView::CaptureNotStarted
                } else {
                    match received {
                        Some(Err(t)) => e@ == ErrorView::CaptureError(t@),
                        Some(Ok(_)) => false,
                        None => e@ == ErrorView::CaptureError("Frame channel closed"@),
                    }
                },
            },
    {
        if !self.capturing {
            return Err(MediaError::CaptureNotStarted);
        }
        match received {
            Some(Ok(f)) => Ok(f),
            Some(Err(t)) => Err(MediaError::CaptureError(t)),
            None => Err(MediaError::capture("Frame channel closed")),
        }
    }

    /// Takes up a new frame rate. A session samples at the rate that it was made
    /// with, so a running one is to be made anew where this returns `true`.
    pub fn set_fps(&mut self, fps: u32) -> (restart: bool)
        ensures
            *final(self) == (NvfbcCapture { fps, ..*old(self) }),
            restart == (old(self).capturing && sampling_ms(fps) != sampling_ms(old(self).fps)),
    {
        let before: u32 = if self.fps == 0 {
            1000
        } else {
            1000 / self.fps
        };
        let after: u32 = if fps == 0 {
            1000
        } else {
            1000 / fps
        };
        self.fps = fps;
        self.capturing && before != after
    }

    /// Stops capturing. The session is to be ended where this returns `true`.
    pub fn stop(&mut self) -> (end: bool)
        ensures
            end == old(self).capturing,
            *final(self) == (NvfbcCapture { capturing: false, ..*old(self) }),
    {
        let end: bool = self.capturing;
        self.capturing = false;
        end
    }

    /// Whether a capture is running.
    pub fn is_capturing(&self) -> (b: bool)
        ensures
            b == self.capturing,
    {
        self.capturing
    }
}

/// A capturer is used only when the X server reported no error with it.
pub proof fn law_no_capturer_after_an_x_error(p: CapturerProgress)
    ensures
        capturer_plan(p) is Use ==> match p {
            CapturerProgress::Context(_, _) => false,
            CapturerProgress::Cuda(_, error) => !error,
            CapturerProgress::System(_, error) => !error,
        },
{
}

/// An output that was listed can be captured: its id names the output to track,
/// and is never taken for the default screen.
pub proof fn law_listed_outputs_are_tracked(o: NvfbcOutput, i: int, d: DisplayInfo)
    requires
        lists_output(o, i, d),
    ensures
        d.id@ != "default"@,
        unsigned_of(d.id@, 0xffff_ffff) == Some(o.id as nat),
{
    law_written_numbers_are_read_back(o.id as nat, 0xffff_ffff);
    reveal_strlit("default");
    assert("default"@[0] == 'd');
}

/// A session samples no slower than the frames are wanted: as many samples as the rate says
/// take no longer than a second, and a millisecond more each would. A rate of zero counts as
/// one.
pub proof fn law_sessions_sample_in_time(fps: u32)
    ensures
        fps > 0 ==> sampling_ms(fps) * fps <= 1000 < (sampling_ms(fps) + 1) * fps,
        sampling_ms(0) == sampling_ms(1),
        sampling_ms(1) == 1000,
{
    if fps > 0 {
        let n = fps as int;
        let q = 1000int / n;
        vstd::arithmetic::div_mod::lemma_fundamental_div_mod(1000, n);
        vstd::arithmetic::div_mod::lemma_mod_bound(1000, n);
        assert(q * n <= 1000 && 1000 < (q + 1) * n) by (nonlinear_arith)
            requires
                1000 == n * q + 1000int % n,
                0 <= 1000int % n < n,
        ;
    }
}

/// A session of a listed output tracks that output, with or without the cursor as asked
/// for; frames are pushed.
pub proof fn law_a_session_tracks_its_output(
    o: NvfbcOutput,
    i: int,
    d: DisplayInfo,
    fps: u32,
    with_cursor: bool,
    p: SessionParams,
)
    requires
        lists_output(o, i, d),
        session_wanted(d.id@, fps, with_cursor, p),
    ensures
        p.tracking == Tracking::Output(o.id),
        p.with_cursor == with_cursor,
        p.push_model,
        p.allow_direct_capture,
        fps > 0 ==> p.sampling_rate_ms * fps <= 1000,
        d.width == o.width && d.height == o.height && d.name@ == o.name@,
        d.is_primary <==> i == 0,
{
    law_listed_outputs_are_tracked(o, i, d);
    law_sessions_sample_in_time(fps);
}

/// Which capturer comes of setting up, where each of the three steps works or not and the X
/// server reports no error.
pub open spec fn capturer_of(context: bool, cuda: bool, system: Result<(), String>) -> Option<
    CapturerKind,
> {
    let first = capturer_plan(CapturerProgress::Context(context, false));
    let second = if first is TryCuda {
        capturer_plan(CapturerProgress::Cuda(cuda, false))
    } else {
        first
    };
    let third = if second is TrySystem {
        capturer_plan(CapturerProgress::System(system, false))
    } else {
        second
    };
    match third {
        CapturerStepView::Use(kind) => Some(kind),
        _ => None,
    }
}

/// Frames stay in CUDA memory where a context and a capturer into it could be made, else
/// they come to system memory where that works, and else there is no capturer.
pub proof fn law_cuda_memory_is_preferred(context: bool, cuda: bool, system: Result<(), String>)
    ensures
        capturer_of(context, cuda, system) == Some(CapturerKind::Cuda) <==> context && cuda,
        capturer_of(context, cuda, system) == Some(CapturerKind::System) <==> !(context && cuda)
            && system is Ok,
        capturer_of(context, cuda, system) is None <==> !(context && cuda) && system is Err,
{
}

/// A command to stop ends the frames, and no other command does; none begins them by itself.
/// A session is stopped where frames may still come, and is only answered where none do.
pub proof fn law_frames_are_wanted_until_a_stop(active: bool, command: NvfbcCommand, waited: bool)
    requires
        waited ==> !active,
    ensures
        ({
            let (action, after) = thread_after(active, command, waited);
            &&& command == NvfbcCommand::Stop ==> !after
            &&& command != NvfbcCommand::Stop ==> after == active
            &&& action == CommandAction::StartSession <==> command == NvfbcCommand::Start
            &&& action == CommandAction::ReplyStatus <==> command == NvfbcCommand::GetStatus
            &&& action == CommandAction::StopSession <==> command == NvfbcCommand::Stop && !waited
            &&& active && command == NvfbcCommand::Stop ==> action == CommandAction::StopSession
        }),
{
}

/// A frame in CUDA memory says where its bytes are and how many, has rows without gaps, and
/// is as new as the capturer says.
pub proof fn law_cuda_frames_are_what_was_captured(
    ptr: usize,
    size: usize,
    width: u32,
    height: u32,
    is_new_frame: bool,
    timestamp_us: u64,
)
    requires
        width * 4 <= u32::MAX,
    ensures
        ({
            let f = frame_in_cuda(ptr, size, width, height, is_new_frame, timestamp_us);
            &&& f.buffer is CudaPointer
            &&& f.buffer->ptr == ptr && f.buffer->CudaPointer_size == size
            &&& f.buffer->CudaPointer_width == width && f.buffer->CudaPointer_height == height
            &&& f.buffer->CudaPointer_stride == 4 * width
            &&& f.buffer->CudaPointer_format == PixelFormat::BGRA && f.format == PixelFormat::BGRA
            &&& f.width == width && f.height == height
            &&& f.is_new_frame == is_new_frame && f.timestamp_us == timestamp_us
            &&& f.cursor is None
        }),
{
}

/// Every output of the card is listed, in its order and with its size, the first as the
/// primary one; where the card tells of none, the whole screen is. Nothing is listed without
/// an answer.
pub proof fn law_every_output_is_listed(
    c: NvfbcCapture,
    s: NvfbcStatus,
    r: Result<Vec<DisplayInfo>, MediaError>,
    i: int,
)
    requires
        displays_listed(c, ThreadReply::Done(s), r),
    ensures
        r is Ok,
        s.outputs@.len() > 0 ==> r->Ok_0@.len() == s.outputs@.len(),
        0 <= i < s.outputs@.len() ==> {
            let d = r->Ok_0@[i];
            &&& d.width == s.outputs@[i].width && d.height == s.outputs@[i].height
            &&& d.name@ == s.outputs@[i].name@
            &&& unsigned_of(d.id@, 0xffff_ffff) == Some(s.outputs@[i].id as nat)
            &&& d.is_primary <==> i == 0
        },
        s.outputs@.len() == 0 ==> r->Ok_0@.len() == 1 && r->Ok_0@[0].width == c.width
            && r->Ok_0@[0].height == c.height && r->Ok_0@[0].is_primary,
{
    if 0 <= i < s.outputs@.len() {
        law_listed_outputs_are_tracked(s.outputs@[i], i, r->Ok_0@[i]);
    }
}

} // verus!
