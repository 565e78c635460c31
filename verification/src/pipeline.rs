//! The pipeline's rules: what is encoded when, what commands change, what is
//! dropped when the consumer is slow. The tasks and channels that it runs on are
//! the caller's.

use crate::capture::command::args_of;
use crate::capture::gpu_buffer::GpuBuffer;
use crate::capture::linux_x11::{all_displays, display_index, first_index};
use crate::capture::windows::{asks_for_gdi, uses_gdi};
use crate::capture::CapturedFrame;
use crate::encode::EncoderConfig;
use crate::error::{message, ErrorView, MediaError};
use crate::text::{
    chars_of, contains_char, dec, dec_text, is_rate, is_switched_on, is_text, is_white,
    law_written_numbers_are_read_back, lines, lines_of, rate_text, string_of, strip_back,
    switched_on, trim_back, unsigned_of, views, white, words, words_of, CharClass,
};
use crate::types::{
    hw_of_name, normal, picture, wants_ffmpeg, AudioCaptureConfig, CursorState, DisplayInfo,
    EncodedAudioFrame, EncodedVideoFrame, EncoderInfo, HwAccelType, PictureView, StreamConfig,
};
use crate::Platform;
use vstd::prelude::*;

verus! {

/// What a running pipeline reports.
#[derive(Debug, Clone, PartialEq, Eq)]
pub enum MediaEvent {
    /// The encoder was set up.
    EncoderStarted {
        encoder: EncoderInfo,
        gpu_name: Option<String>,
        requested_encoder: Option<String>,
    },
    VideoFrame(EncodedVideoFrame),
    AudioFrame(EncodedAudioFrame),
    /// The cursor changed.
    CursorUpdate(CursorState),
    Started,
    Stopped,
    /// Something went wrong; the pipeline goes on.
    Error(String),
}

/// What a running pipeline can be told.
#[derive(Debug, Clone, Copy, PartialEq, Eq, Structural)]
pub enum PipelineCommand {
    RequestKeyframe,
    /// Bits a second, in thousands.
    SetBitrate(u32),
    /// Frames a second.
    SetFps(u32),
    Stop,
}

/// How many events wait for the consumer.
pub const EVENT_CAPACITY: usize = 64;

/// How many commands wait for the pipeline.
pub const COMMAND_CAPACITY: usize = 16;

/// How many waiting events make the pipeline skip frames.
pub const BACKPRESSURE_LIMIT: usize = 56;

/// How long a still picture goes without a frame, in microseconds.
pub const RESEND_US: u64 = 500_000;

/// How long the metrics gather, in microseconds.
pub const METRICS_US: u64 = 1_000_000;

/// How long the pipeline waits for the sound to stop, in milliseconds.
pub const AUDIO_STOP_MS: u64 = 500;

/// How long the cursor goes unasked, in milliseconds.
pub const CURSOR_INTERVAL_MS: u64 = 16;

/// Frames between key frames.
pub const KEYFRAME_INTERVAL: u32 = 240;

// ---- Setting up ----

/// The name of the encoder that a stream asks for.
pub open spec fn wanted_encoder(config: StreamConfig) -> Seq<char> {
    match config.preferred_encoder {
        Some(p) => p@,
        None => "auto"@,
    }
}

/// Whether frames stay on the GPU.
pub open spec fn keeps_frames(
    platform: Platform,
    gdi: bool,
    preferred_hw: Option<HwAccelType>,
) -> bool {
    platform == Platform::Windows && !gdi
        && preferred_hw != Some(HwAccelType::Software)
}

/// Whether frames stay on the GPU: on Windows, where neither GDI alone nor a
/// software encoder is asked for.
pub fn wants_zero_copy(platform: Platform, use_gdi: Option<&str>, preferred_hw: Option<HwAccelType>)
    -> (b: bool)
    ensures
        b == keeps_frames(
            platform,
            use_gdi matches Some(v) && asks_for_gdi(v@),
            preferred_hw,
        ),
{
    if platform != Platform::Windows {
        return false;
    }
    if uses_gdi(use_gdi) {
        return false;
    }
    match preferred_hw {
        Some(hw) => hw != HwAccelType::Software,
        None => true,
    }
}

/// The pipeline of a stream.
pub struct MediaPipeline {
    pub config: StreamConfig,
}

/// Something that is done when the pipeline starts.
#[derive(Debug, Clone, Copy, PartialEq, Eq, Structural)]
pub enum StartupStep {
    CreateCapture,
    CreateEncoder,
    CreateAudio,
    CreateCursor,
    /// Keep frames on the GPU.
    SetZeroCopy,
    CreateVirtualDisplay,
    /// Raise the display's refresh rate where it is below the frame rate.
    RaiseRate,
    StartCapture,
    InitializeEncoder,
    SendEncoderStarted,
    SpawnAudio,
    SpawnCursor,
    SendStarted,
}

/// Whether the pipeline ends where a step fails. The others are done without.
pub open spec fn fatal(step: StartupStep) -> bool {
    match step {
        StartupStep::CreateCapture
        | StartupStep::CreateEncoder
        | StartupStep::CreateAudio
        | StartupStep::CreateCursor
        | StartupStep::StartCapture
        | StartupStep::InitializeEncoder => true,
        _ => false,
    }
}

/// Whether the pipeline ends where a step fails.
pub fn is_fatal(step: StartupStep) -> (b: bool)
    ensures
        b == fatal(step),
{
    match step {
        StartupStep::CreateCapture
        | StartupStep::CreateEncoder
        | StartupStep::CreateAudio
        | StartupStep::CreateCursor
        | StartupStep::StartCapture
        | StartupStep::InitializeEncoder => true,
        _ => false,
    }
}

/// `step`, or nothing.
pub open spec fn step_if(condition: bool, step: StartupStep) -> Seq<StartupStep> {
    if condition {
        seq![step]
    } else {
        Seq::empty()
    }
}

/// What is done when the pipeline starts, in this order.
pub open spec fn startup_plan(config: StreamConfig, platform: Platform, zero_copy: bool) -> Seq<
    StartupStep,
> {
    seq![
        StartupStep::CreateCapture,
        StartupStep::CreateEncoder,
        StartupStep::CreateAudio,
        StartupStep::CreateCursor,
    ] + step_if(zero_copy, StartupStep::SetZeroCopy) + step_if(
        config.virtual_display && (platform == Platform::Linux || platform == Platform::Windows),
        StartupStep::CreateVirtualDisplay,
    ) + step_if(
        platform == Platform::Linux && config.fps > 60,
        StartupStep::RaiseRate,
    ) + seq![
        StartupStep::StartCapture,
        StartupStep::InitializeEncoder,
        StartupStep::SendEncoderStarted,
        StartupStep::SpawnAudio,
        StartupStep::SpawnCursor,
        StartupStep::SendStarted,
    ]
}

/// What the encoder of a stream is set up with.
pub open spec fn encoder_setup(
    config: StreamConfig,
    platform: Platform,
    d3d11: Option<(usize, usize)>,
) -> EncoderConfig {
    EncoderConfig {
        codec: config.codec,
        width: config.width,
        height: config.height,
        fps: config.fps,
        bitrate_kbps: config.bitrate_kbps,
        low_latency: true,
        keyframe_interval: KEYFRAME_INTERVAL,
        preferred_hw: hw_of_name(normal(wanted_encoder(config))),
        force_ffmpeg: wants_ffmpeg(normal(wanted_encoder(config))),
        d3d11_device: match d3d11 {
            Some((d, _)) if platform == Platform::Windows => Some(d),
            _ => None,
        },
        d3d11_context: match d3d11 {
            Some((_, c)) if platform == Platform::Windows => Some(c),
            _ => None,
        },
    }
}

/// Something that is done when the pipeline ends.
#[derive(Debug, Clone, Copy, PartialEq, Eq, Structural)]
pub enum ShutdownStep {
    /// Hand out what the encoder holds back.
    FlushEncoder,
    ShutdownEncoder,
    StopCapture,
    /// Tell the sound to stop and wait for it.
    StopAudio,
    AbortCursor,
    SendStopped,
}

/// What is done when the pipeline ends, in this order.
pub open spec fn shutdown_plan() -> Seq<ShutdownStep> {
    seq![
        ShutdownStep::FlushEncoder,
        ShutdownStep::ShutdownEncoder,
        ShutdownStep::StopCapture,
        ShutdownStep::StopAudio,
        ShutdownStep::AbortCursor,
        ShutdownStep::SendStopped,
    ]
}

/// The display that is captured.
pub open spec fn shown_display(
    display_id: Seq<char>,
    virtual_display: Option<Seq<char>>,
) -> Seq<char> {
    match virtual_display {
        Some(v) => v,
        None => display_id,
    }
}

impl MediaPipeline {
    /// The pipeline of a stream.
    pub fn new(config: StreamConfig) -> (r: Self)
        ensures
            r.config == config,
    {
        MediaPipeline { config }
    }

    /// The hardware that the stream asks for, and whether it asks for FFmpeg.
    pub fn encoder_preference(&self) -> (r: (Option<HwAccelType>, bool))
        ensures
            r.0 == hw_of_name(normal(wanted_encoder(self.config))),
            r.1 == wants_ffmpeg(normal(wanted_encoder(self.config))),
    {
        match &self.config.preferred_encoder {
            Some(p) => (
                StreamConfig::parse_encoder_preference(p.as_str()),
                StreamConfig::encoder_prefers_ffmpeg(p.as_str()),
            ),
            None => (
                StreamConfig::parse_encoder_preference("auto"),
                StreamConfig::encoder_prefers_ffmpeg("auto"),
            ),
        }
    }

    /// What the encoder is set up with. On Windows it may share the capture's
    /// device.
    pub fn encoder_config(&self, platform: Platform, d3d11: Option<(usize, usize)>) -> (r:
        EncoderConfig)
        ensures
            r == encoder_setup(self.config, platform, d3d11),
    {
        let (preferred_hw, force_ffmpeg): (Option<HwAccelType>, bool) = self.encoder_preference();
        let (d3d11_device, d3d11_context): (Option<usize>, Option<usize>) = match d3d11 {
            Some((d, c)) => if platform == Platform::Windows {
                (Some(d), Some(c))
            } else {
                (None, None)
            },
            None => (None, None),
        };
        EncoderConfig {
            codec: self.config.codec,
            width: self.config.width,
            height: self.config.height,
            fps: self.config.fps,
            bitrate_kbps: self.config.bitrate_kbps,
            low_latency: true,
            keyframe_interval: KEYFRAME_INTERVAL,
            preferred_hw,
            force_ffmpeg,
            d3d11_device,
            d3d11_context,
        }
    }

    /// Whether a virtual display is to be made for the stream.
    pub fn wants_virtual_display(&self, platform: Platform) -> (b: bool)
        ensures
            b == (self.config.virtual_display && (platform == Platform::Linux || platform
                == Platform::Windows)),
    {
        self.config.virtual_display && (platform == Platform::Linux || platform
            == Platform::Windows)
    }

    /// The display that is captured: the virtual one where it could be made,
    /// else the one that was asked for.
    pub fn capture_display(display_id: &str, virtual_display: Option<&str>) -> (s: String)
        ensures
            s@ == shown_display(
                display_id@,
                match virtual_display {
                    Some(v) => Some(v@),
                    None => None,
                },
            ),
    {
        match virtual_display {
            Some(v) => v.to_owned(),
            None => display_id.to_owned(),
        }
    }

    /// What the sound is captured with: short frames, otherwise the usual.
    pub fn audio_config() -> (r: AudioCaptureConfig)
        ensures
            r == (AudioCaptureConfig { sample_rate: 48_000, channels: 2, frame_size_ms: 10 }),
    {
        let mut r: AudioCaptureConfig = AudioCaptureConfig::default();
        r.frame_size_ms = 10;
        r
    }

    /// What is done when the pipeline starts, in this order.
    pub fn startup_steps(&self, platform: Platform, use_gdi: Option<&str>) -> (r: Vec<StartupStep>)
        ensures
            r@ == startup_plan(
                self.config,
                platform,
                keeps_frames(
                    platform,
                    use_gdi matches Some(v) && asks_for_gdi(v@),
                    hw_of_name(normal(wanted_encoder(self.config))),
                ),
            ),
    {
        let (preferred_hw, _): (Option<HwAccelType>, bool) = self.encoder_preference();
        let zero_copy: bool = wants_zero_copy(platform, use_gdi, preferred_hw);
        let mut r: Vec<StartupStep> = vec![
            StartupStep::CreateCapture,
            StartupStep::CreateEncoder,
            StartupStep::CreateAudio,
            StartupStep::CreateCursor,
        ];
        if zero_copy {
            r.push(StartupStep::SetZeroCopy);
        }
        if self.wants_virtual_display(platform) {
            r.push(StartupStep::CreateVirtualDisplay);
        }
        if may_raise_rate(platform, self.config.fps) {
            r.push(StartupStep::RaiseRate);
        }
        r.push(StartupStep::StartCapture);
        r.push(StartupStep::InitializeEncoder);
        r.push(StartupStep::SendEncoderStarted);
        r.push(StartupStep::SpawnAudio);
        r.push(StartupStep::SpawnCursor);
        r.push(StartupStep::SendStarted);
        assert(r@ =~= startup_plan(self.config, platform, zero_copy));
        r
    }

    /// What is done when the pipeline ends, in this order.
    pub fn shutdown_steps() -> (r: Vec<ShutdownStep>)
        ensures
            r@ == shutdown_plan(),
    {
        vec![
            ShutdownStep::FlushEncoder,
            ShutdownStep::ShutdownEncoder,
            ShutdownStep::StopCapture,
            ShutdownStep::StopAudio,
            ShutdownStep::AbortCursor,
            ShutdownStep::SendStopped,
        ]
    }
}

/// The event that tells the consumer of an error.
pub fn error_event(e: &MediaError) -> (r: MediaEvent)
    ensures
        r matches MediaEvent::Error(text) && text@ == message(e@),
{
    MediaEvent::Error(e.to_string())
}

// ---- The sound ----

/// How handing an event to the consumer went.
#[derive(Debug, Clone, Copy, PartialEq, Eq, Structural)]
pub enum SendOutcome {
    Sent,
    /// There was no room.
    Full,
    /// The consumer is gone.
    Closed,
}

/// The task that hands sound on: how many frames in a row found no room.
#[derive(Debug, Clone, Copy, PartialEq, Eq, Structural)]
pub struct AudioTask {
    pub drop_count: u64,
}

/// How the task goes on after a frame.
#[derive(Debug, Clone, Copy, PartialEq, Eq, Structural)]
pub enum AudioStep {
    /// Take the next frame; `report` says whether the drops are to be logged.
    Next { report: bool },
    /// Take the next frame; the drops are over, and there were this many.
    Recovered(u64),
    End,
}

/// How the task goes on after it dropped `dropped` frames in a row and handing on the next
/// one went so, and how many it dropped then.
pub open spec fn audio_after(dropped: u64, outcome: SendOutcome) -> (AudioStep, u64) {
    match outcome {
        SendOutcome::Closed => (AudioStep::End, dropped),
        SendOutcome::Full => {
            let n = (dropped + 1) as u64;
            (AudioStep::Next { report: n == 1 || n % 100 == 0 }, n)
        },
        SendOutcome::Sent => (
            if dropped > 0 {
                AudioStep::Recovered(dropped)
            } else {
                AudioStep::Next { report: false }
            },
            0,
        ),
    }
}

impl AudioTask {
    /// A task that dropped nothing.
    pub fn new() -> (r: Self)
        ensures
            r.drop_count == 0,
    {
        AudioTask { drop_count: 0 }
    }

    /// Takes up that no frame could be captured: the task ends.
    pub fn on_capture_failed(&self) -> (r: AudioStep)
        ensures
            r == AudioStep::End,
    {
        AudioStep::End
    }

    /// Takes up how handing on a frame went. Drops are logged at the first and at
    /// every hundredth.
    pub fn on_send(&mut self, outcome: SendOutcome) -> (r: AudioStep)
        requires
            old(self).drop_count < u64::MAX,
        ensures
            (r, final(self).drop_count) == audio_after(old(self).drop_count, outcome),
    {
        match outcome {
            SendOutcome::Closed => AudioStep::End,
            SendOutcome::Full => {
                self.drop_count = self.drop_count + 1;
                AudioStep::Next { report: self.drop_count == 1 || self.drop_count % 100 == 0 }
            },
            SendOutcome::Sent => {
                let dropped: u64 = self.drop_count;
                self.drop_count = 0;
                if dropped > 0 {
                    AudioStep::Recovered(dropped)
                } else {
                    AudioStep::Next { report: false }
                }
            },
        }
    }
}

// ---- The cursor ----

/// A cursor state with its picture's bytes as a sequence.
pub struct CursorView {
    pub x: i32,
    pub y: i32,
    pub visible: bool,
    pub kind: crate::types::CursorKind,
    pub image: Option<PictureView>,
}

pub open spec fn cursor_view(s: CursorState) -> CursorView {
    CursorView { x: s.x, y: s.y, visible: s.visible, kind: s.kind, image: picture(s.image) }
}

fn same_cursor(a: &CursorState, b: &CursorState) -> (r: bool)
    ensures
        r == (cursor_view(*a) == cursor_view(*b)),
{
    let images: bool = match (&a.image, &b.image) {
        (Some(i), Some(j)) => i.same(j),
        (None, None) => true,
        _ => false,
    };
    images && a.x == b.x && a.y == b.y && a.visible == b.visible && a.kind == b.kind
}

fn copy_cursor(s: &CursorState) -> (r: CursorState)
    ensures
        cursor_view(r) == cursor_view(*s),
{
    let image = match &s.image {
        Some(i) => Some(i.copy()),
        None => None,
    };
    CursorState { x: s.x, y: s.y, visible: s.visible, kind: s.kind, image }
}

/// The task that hands the cursor on: the last state that it saw.
pub struct CursorTask {
    pub last_state: Option<CursorState>,
}

pub open spec fn last_cursor(s: Option<CursorState>) -> Option<CursorView> {
    match s {
        Some(s) => Some(cursor_view(s)),
        None => None,
    }
}

/// Whether `r` is the event that a state is sent as, where it is a new one, and `after` what
/// the task saw last then.
pub open spec fn cursor_taken(
    before: Option<CursorState>,
    after: Option<CursorState>,
    state: CursorState,
    r: Option<MediaEvent>,
) -> bool {
    &&& last_cursor(after) == Some(cursor_view(state))
    &&& match r {
        Some(e) => last_cursor(before) != Some(cursor_view(state)) && e
            == MediaEvent::CursorUpdate(state),
        None => last_cursor(before) == Some(cursor_view(state)),
    }
}

impl CursorTask {
    /// A task that saw nothing.
    pub fn new() -> (r: Self)
        ensures
            r.last_state is None,
    {
        CursorTask { last_state: None }
    }

    /// Takes a state up, and returns the event to send where it is a new one.
    pub fn on_state(&mut self, state: CursorState) -> (r: Option<MediaEvent>)
        ensures
            cursor_taken(old(self).last_state, final(self).last_state, state, r),
    {
        let known: bool = match &self.last_state {
            Some(last) => same_cursor(last, &state),
            None => false,
        };
        if known {
            None
        } else {
            self.last_state = Some(copy_cursor(&state));
            Some(MediaEvent::CursorUpdate(state))
        }
    }
}

// ---- The frames ----

/// How long a frame lasts, in nanoseconds.
pub fn frame_interval_ns(fps: u32) -> (n: u64)
    requires
        fps > 0,
    ensures
        n == 1_000_000_000int / (fps as int),
{
    1_000_000_000u64 / fps as u64
}

/// Whether every tick is encoded: unless a setting says otherwise.
pub fn encodes_every_tick(setting: Option<&str>) -> (b: bool)
    ensures
        b == (setting matches Some(v) ==> switched_on(v@)),
{
    match setting {
        Some(v) => is_switched_on(v),
        None => true,
    }
}

/// What the pipeline counted since it last reported.
#[derive(Debug, Clone, Copy, PartialEq, Eq, Structural)]
pub struct Metrics {
    /// When the count began, in microseconds.
    pub started_us: u64,
    pub ticks: u64,
    pub new_captures: u64,
    pub encode_attempts: u64,
    pub encoded_frames: u64,
    pub sent_frames: u64,
    pub dropped_frames: u64,
    pub bytes: u64,
    pub encode_us: u64,
}

/// Nothing counted since a time.
pub open spec fn no_metrics(started_us: u64) -> Metrics {
    Metrics {
        started_us,
        ticks: 0,
        new_captures: 0,
        encode_attempts: 0,
        encoded_frames: 0,
        sent_frames: 0,
        dropped_frames: 0,
        bytes: 0,
        encode_us: 0,
    }
}

/// The state of the loop that captures and encodes.
pub struct FrameLoop {
    pub fps: u32,
    pub constant_fps: bool,
    pub keyframe_requested: bool,
    /// When a frame was last handed to the encoder, in microseconds; `None`
    /// where none was.
    pub last_sent_us: Option<u64>,
    /// The last frame that held a picture.
    pub last_frame: Option<CapturedFrame>,
    pub total_frames: u64,
    pub total_bytes: u64,
    pub skipped_frames: u64,
    pub dropped_frames: u64,
    pub metrics: Metrics,
}

/// A loop that encoded nothing.
pub open spec fn new_loop(fps: u32, constant_fps: bool) -> FrameLoop {
    FrameLoop {
        fps,
        constant_fps,
        keyframe_requested: true,
        last_sent_us: None,
        last_frame: None,
        total_frames: 0,
        total_bytes: 0,
        skipped_frames: 0,
        dropped_frames: 0,
        metrics: no_metrics(0),
    }
}

/// The metrics that a loop reports at a time, and the loop after it.
pub open spec fn metrics_taken(o: FrameLoop, now_us: u64) -> (Option<Metrics>, FrameLoop) {
    if now_us - o.metrics.started_us >= METRICS_US {
        (Some(o.metrics), FrameLoop { metrics: no_metrics(now_us), ..o })
    } else {
        (None, o)
    }
}

/// Whether a captured frame holds no bytes.
pub open spec fn empty_frame(f: CapturedFrame) -> bool {
    f.buffer matches GpuBuffer::CpuBuffer { data, .. } && data@.len() == 0
}

/// What is to be done at a tick.
#[derive(Debug)]
pub enum TickAction {
    /// The consumer is slow: do nothing; `report` says whether to log it.
    Skip { report: bool },
    /// Nothing to encode.
    Idle,
    /// Report an error.
    ReportError(MediaError),
    /// Encode the last frame, at this time.
    Encode { pts_us: u64 },
}

/// Whether a still picture is due again.
pub open spec fn resend_due(last: Option<u64>, now_us: u64) -> bool {
    match last {
        None => true,
        Some(t) => now_us - t >= RESEND_US,
    }
}

/// What a command makes the pipeline do.
#[derive(Debug, Clone, Copy, PartialEq, Eq, Structural)]
pub enum CommandAction {
    /// Make the encoder's next frame a key frame.
    RequestKeyframe,
    SetBitrate(u32),
    /// Set the frame rate of encoder and capture, and tick at this interval.
    SetFps { fps: u32, interval_ns: u64 },
    Stop,
}

/// A frame rate within the limits.
pub open spec fn within_limits(fps: u32) -> u32 {
    if fps < 1 {
        1
    } else if fps > 240 {
        240
    } else {
        fps
    }
}

/// What is done at a tick, and the loop after it. Nothing is encoded while the
/// consumer is slow, before a first picture came, or while a still picture needs no
/// frame. A capture that failed is reported and changes nothing else.
pub open spec fn after_tick(
    o: FrameLoop,
    captured: Result<CapturedFrame, MediaError>,
    waiting: usize,
    now_us: u64,
) -> (TickAction, FrameLoop) {
    let ticked = Metrics { ticks: (o.metrics.ticks + 1) as u64, ..o.metrics };
    if waiting >= BACKPRESSURE_LIMIT {
        let skipped = (o.skipped_frames + 1) as u64;
        (
            TickAction::Skip { report: skipped % 60 == 1 },
            FrameLoop { skipped_frames: skipped, metrics: ticked, ..o },
        )
    } else {
        match captured {
            Err(e) => (TickAction::ReportError(e), FrameLoop { metrics: ticked, ..o }),
            Ok(f) => {
                let fresh = !empty_frame(f) && f.is_new_frame;
                let counted = Metrics {
                    new_captures: (o.metrics.new_captures + if fresh {
                        1int
                    } else {
                        0
                    }) as u64,
                    ..ticked
                };
                let kept = if empty_frame(f) {
                    o.last_frame
                } else {
                    Some(f)
                };
                let due = o.constant_fps || fresh || o.keyframe_requested || resend_due(
                    o.last_sent_us,
                    now_us,
                );
                if kept is Some && due {
                    (
                        TickAction::Encode { pts_us: now_us },
                        FrameLoop {
                            last_frame: kept,
                            keyframe_requested: false,
                            last_sent_us: Some(now_us),
                            metrics: Metrics {
                                encode_attempts: (o.metrics.encode_attempts + 1) as u64,
                                ..counted
                            },
                            ..o
                        },
                    )
                } else {
                    (TickAction::Idle, FrameLoop { last_frame: kept, metrics: counted, ..o })
                }
            },
        }
    }
}

/// The loop after the encoder handed out a frame of `size` bytes.
pub open spec fn after_encoded(o: FrameLoop, size: usize, sent: bool) -> FrameLoop {
    let lost: int = if sent {
        0
    } else {
        1
    };
    FrameLoop {
        total_frames: (o.total_frames + 1) as u64,
        total_bytes: (o.total_bytes + size) as u64,
        dropped_frames: (o.dropped_frames + lost) as u64,
        metrics: Metrics {
            encoded_frames: (o.metrics.encoded_frames + 1) as u64,
            bytes: (o.metrics.bytes + size) as u64,
            sent_frames: (o.metrics.sent_frames + 1 - lost) as u64,
            dropped_frames: (o.metrics.dropped_frames + lost) as u64,
            ..o.metrics
        },
        ..o
    }
}

/// What is done about a frame that could not be encoded: the error is reported, and
/// nothing else.
pub open spec fn after_encode_failed(e: MediaError) -> TickAction {
    TickAction::ReportError(e)
}

/// What is done about a command, and the loop after it.
pub open spec fn after_command(o: FrameLoop, command: PipelineCommand) -> (
    CommandAction,
    FrameLoop,
) {
    match command {
        PipelineCommand::RequestKeyframe => (
            CommandAction::RequestKeyframe,
            FrameLoop { keyframe_requested: true, ..o },
        ),
        PipelineCommand::SetBitrate(kbps) => (
            CommandAction::SetBitrate(kbps),
            FrameLoop { keyframe_requested: true, ..o },
        ),
        PipelineCommand::SetFps(fps) => (
            CommandAction::SetFps {
                fps: within_limits(fps),
                interval_ns: (1_000_000_000int / (within_limits(fps) as int)) as u64,
            },
            FrameLoop { fps: within_limits(fps), keyframe_requested: true, ..o },
        ),
        PipelineCommand::Stop => (CommandAction::Stop, o),
    }
}

impl FrameLoop {
    /// There is room in every counter.
    pub open spec fn has_room(&self) -> bool {
        &&& self.skipped_frames < u64::MAX
        &&& self.metrics.ticks < u64::MAX
        &&& self.metrics.new_captures < u64::MAX
        &&& self.metrics.encode_attempts < u64::MAX
    }

    /// The counts agree: every encoded frame was either sent or dropped, a tick
    /// brings at most one new capture and at most one attempt to encode, and no
    /// more frames were dropped than were encoded.
    pub open spec fn balanced(&self) -> bool {
        &&& self.metrics.encoded_frames == self.metrics.sent_frames + self.metrics.dropped_frames
        &&& self.metrics.new_captures <= self.metrics.ticks
        &&& self.metrics.encode_attempts <= self.metrics.ticks
        &&& self.dropped_frames <= self.total_frames
    }

    /// A loop that encoded nothing. The first frame is encoded at once.
    pub fn new(fps: u32, constant_fps: bool) -> (r: Self)
        ensures
            r.balanced(),
            r == new_loop(fps, constant_fps),
    {
        FrameLoop {
            fps,
            constant_fps,
            keyframe_requested: true,
            last_sent_us: None,
            last_frame: None,
            total_frames: 0,
            total_bytes: 0,
            skipped_frames: 0,
            dropped_frames: 0,
            metrics: Metrics {
                started_us: 0,
                ticks: 0,
                new_captures: 0,
                encode_attempts: 0,
                encoded_frames: 0,
                sent_frames: 0,
                dropped_frames: 0,
                bytes: 0,
                encode_us: 0,
            },
        }
    }

    /// Takes up a tick: what was captured, how many events wait, and the time
    /// since the start. Nothing is encoded while the consumer is slow, before a
    /// first picture came, or while a still picture needs no frame.
    pub fn on_tick(
        &mut self,
        captured: Result<CapturedFrame, MediaError>,
        waiting: usize,
        now_us: u64,
    ) -> (r: TickAction)
        requires
            old(self).has_room(),
            old(self).last_sent_us matches Some(t) ==> t <= now_us,
        ensures
            old(self).balanced() ==> final(self).balanced(),
            (r, *final(self)) == after_tick(*old(self), captured, waiting, now_us),
    {
        self.metrics.ticks = self.metrics.ticks + 1;
        if waiting >= BACKPRESSURE_LIMIT {
            self.skipped_frames = self.skipped_frames + 1;
            return TickAction::Skip { report: self.skipped_frames % 60 == 1 };
        }
        match captured {
            Err(e) => TickAction::ReportError(e),
            Ok(f) => {
                let is_empty: bool = match &f.buffer {
                    GpuBuffer::CpuBuffer { data, stride: _, format: _, width: _, height: _ } =>
                        data.len() == 0,
                    _ => false,
                };
                let is_new: bool = !is_empty && f.is_new_frame;
                if is_new {
                    self.metrics.new_captures = self.metrics.new_captures + 1;
                }
                if !is_empty {
                    self.last_frame = Some(f);
                }
                if self.last_frame.is_none() {
                    return TickAction::Idle;
                }
                let resend: bool = match self.last_sent_us {
                    None => true,
                    Some(t) => now_us - t >= RESEND_US,
                };
                if !(self.constant_fps || is_new || self.keyframe_requested || resend) {
                    return TickAction::Idle;
                }
                self.keyframe_requested = false;
                self.last_sent_us = Some(now_us);
                self.metrics.encode_attempts = self.metrics.encode_attempts + 1;
                TickAction::Encode { pts_us: now_us }
            },
        }
    }

    /// Takes up a frame that the encoder handed out: its size and whether the
    /// consumer had room for it.
    pub fn on_encoded(&mut self, size: usize, sent: bool)
        requires
            old(self).total_frames < u64::MAX,
            old(self).total_bytes + size <= u64::MAX,
            old(self).dropped_frames < u64::MAX,
            old(self).metrics.encoded_frames < u64::MAX,
            old(self).metrics.bytes + size <= u64::MAX,
            old(self).metrics.sent_frames < u64::MAX,
            old(self).metrics.dropped_frames < u64::MAX,
        ensures
            old(self).balanced() ==> final(self).balanced(),
            *final(self) == after_encoded(*old(self), size, sent),
    {
        self.total_frames = self.total_frames + 1;
        self.total_bytes = self.total_bytes + size as u64;
        self.metrics.encoded_frames = self.metrics.encoded_frames + 1;
        self.metrics.bytes = self.metrics.bytes + size as u64;
        if sent {
            self.metrics.sent_frames = self.metrics.sent_frames + 1;
        } else {
            self.dropped_frames = self.dropped_frames + 1;
            self.metrics.dropped_frames = self.metrics.dropped_frames + 1;
        }
    }

    /// Takes up that a frame could not be encoded: the error is reported, and the loop
    /// goes on as it is.
    pub fn on_encode_failed(&self, e: MediaError) -> (r: TickAction)
        ensures
            r == after_encode_failed(e),
            r == TickAction::ReportError(e),
    {
        TickAction::ReportError(e)
    }

    /// Takes up how long an encoding took.
    pub fn on_encode_time(&mut self, us: u64)
        requires
            old(self).metrics.encode_us + us <= u64::MAX,
        ensures
            old(self).balanced() ==> final(self).balanced(),
            *final(self) == (FrameLoop {
                metrics: Metrics {
                    encode_us: (old(self).metrics.encode_us + us) as u64,
                    ..old(self).metrics
                },
                ..*old(self)
            }),
    {
        self.metrics.encode_us = self.metrics.encode_us + us;
    }

    /// The metrics to report, where a second went by; they then begin anew.
    pub fn take_metrics(&mut self, now_us: u64) -> (r: Option<Metrics>)
        requires
            old(self).metrics.started_us <= now_us,
        ensures
            old(self).balanced() ==> final(self).balanced(),
            (r, *final(self)) == metrics_taken(*old(self), now_us),
    {
        if now_us - self.metrics.started_us < METRICS_US {
            return None;
        }
        let r: Metrics = self.metrics;
        self.metrics = Metrics {
            started_us: now_us,
            ticks: 0,
            new_captures: 0,
            encode_attempts: 0,
            encoded_frames: 0,
            sent_frames: 0,
            dropped_frames: 0,
            bytes: 0,
            encode_us: 0,
        };
        Some(r)
    }

    /// Takes up a command. Every command but the one to stop has the next frame
    /// encoded.
    pub fn on_command(&mut self, command: PipelineCommand) -> (r: CommandAction)
        ensures
            old(self).balanced() ==> final(self).balanced(),
            (r, *final(self)) == after_command(*old(self), command),
    {
        match command {
            PipelineCommand::RequestKeyframe => {
                self.keyframe_requested = true;
                CommandAction::RequestKeyframe
            },
            PipelineCommand::SetBitrate(kbps) => {
                self.keyframe_requested = true;
                CommandAction::SetBitrate(kbps)
            },
            PipelineCommand::SetFps(fps) => {
                let fps: u32 = if fps < 1 {
                    1
                } else if fps > 240 {
                    240
                } else {
                    fps
                };
                self.fps = fps;
                self.keyframe_requested = true;
                CommandAction::SetFps { fps, interval_ns: frame_interval_ns(fps) }
            },
            PipelineCommand::Stop => CommandAction::Stop,
        }
    }
}

// ---- Refresh rates ----

/// Whether the display's refresh rate may have to be raised: on Linux, above 60
/// frames a second.
pub fn may_raise_rate(platform: Platform, fps: u32) -> (b: bool)
    ensures
        b == (platform == Platform::Linux && fps > 60),
{
    platform == Platform::Linux && fps > 60
}

/// The display whose rate counts when the stream starts: the captured one, else
/// the first primary one.
pub fn display_to_start(displays: &Vec<DisplayInfo>, id: &str) -> (r: Option<usize>)
    ensures
        match r {
            Some(i) => i < displays@.len() && display_index(all_displays(displays@), id@) == Some(
                i as int,
            ),
            None => display_index(all_displays(displays@), id@) is None,
        },
{
    let ghost ds = all_displays(displays@);
    let wanted: String = id.to_owned();
    for i in 0..displays.len()
        invariant
            ds == all_displays(displays@),
            wanted@ == id@,
            first_index(ds, id@, true, i as int) == first_index(ds, id@, true, 0),
    {
        assert(ds[i as int].id == displays@[i as int].id@);
        if displays[i].id == wanted {
            return Some(i);
        }
    }
    for i in 0..displays.len()
        invariant
            ds == all_displays(displays@),
            first_index(ds, id@, true, 0) is None,
            first_index(ds, id@, false, i as int) == first_index(ds, id@, false, 0),
    {
        assert(ds[i as int].is_primary == displays@[i as int].is_primary);
        if displays[i].is_primary {
            return Some(i);
        }
    }
    None
}

/// Whether this is the display whose rate counts when the frame rate changes.
pub open spec fn changed_display(displays: Seq<DisplayInfo>, r: Option<usize>) -> bool {
    match r {
        Some(i) => i < displays.len() && if displays[i as int].is_primary {
            forall|j: int| 0 <= j < i ==> !(#[trigger] displays[j]).is_primary
        } else {
            i == 0 && forall|j: int|
                0 <= j < displays.len() ==> !(#[trigger] displays[j]).is_primary
        },
        None => displays.len() == 0,
    }
}

/// The display whose rate counts when the frame rate changes: the first primary
/// one, else the first.
pub fn display_to_change(displays: &Vec<DisplayInfo>) -> (r: Option<usize>)
    ensures
        changed_display(displays@, r),
{
    for i in 0..displays.len()
        invariant
            forall|j: int| 0 <= j < i ==> !(#[trigger] displays@[j]).is_primary,
    {
        if displays[i].is_primary {
            return Some(i);
        }
    }
    if displays.len() > 0 {
        Some(0)
    } else {
        None
    }
}

/// The arguments with which xrandr sets an output's rate.
pub open spec fn rate_args(display_id: Seq<char>, fps: u32) -> Seq<Seq<char>> {
    seq!["--output"@, display_id, "--rate"@, dec(fps as nat)]
}

/// The arguments with which xrandr sets an output's rate.
pub fn set_rate_args(display_id: &str, fps: u32) -> (r: Vec<String>)
    ensures
        args_of(r@) == rate_args(display_id@, fps),
{
    let r: Vec<String> = vec![
        "--output".to_owned(),
        display_id.to_owned(),
        "--rate".to_owned(),
        dec_text(fps as u64),
    ];
    assert(args_of(r@) =~= seq!["--output"@, display_id@, "--rate"@, dec(fps as nat)]);
    r
}

/// Whether a line heads a block: it begins with something other than white
/// space.
pub open spec fn heads_block(row: Seq<char>) -> bool {
    row.len() > 0 && !white(row[0])
}

/// Whether a line heads the block of an output.
pub open spec fn heads_output(row: Seq<char>, id: Seq<char>) -> bool {
    words_of(row).len() > 0 && words_of(row)[0] == id
}

/// The rates after a word: a number, with marks behind it; the one in use has a
/// star.
pub open spec fn with_rate(rates: Seq<Seq<char>>, word: Seq<char>, active_only: bool) -> Seq<
    Seq<char>,
> {
    let bare = strip_back(word, CharClass::RateMark);
    if (active_only ==> word.contains('*')) && rate_text(bare) {
        rates.push(bare)
    } else {
        rates
    }
}

pub open spec fn with_rates(rates: Seq<Seq<char>>, parts: Seq<Seq<char>>, active_only: bool) -> Seq<
    Seq<char>,
>
    decreases parts.len(),
{
    if parts.len() == 0 {
        rates
    } else {
        with_rate(with_rates(rates, parts.drop_last(), active_only), parts.last(), active_only)
    }
}

/// Whether the block of an output is open behind some lines.
pub open spec fn in_block(rows: Seq<Seq<char>>, id: Seq<char>) -> bool
    decreases rows.len(),
{
    if rows.len() == 0 {
        false
    } else if heads_block(rows.last()) {
        heads_output(rows.last(), id)
    } else {
        in_block(rows.drop_last(), id)
    }
}

/// The rates that lines list for an output.
pub open spec fn rates_in(rows: Seq<Seq<char>>, id: Seq<char>, active_only: bool) -> Seq<Seq<char>>
    decreases rows.len(),
{
    if rows.len() == 0 {
        Seq::empty()
    } else {
        let before = rates_in(rows.drop_last(), id, active_only);
        if !heads_block(rows.last()) && in_block(rows, id) {
            with_rates(before, words_of(rows.last()), active_only)
        } else {
            before
        }
    }
}

fn add_rates(rates: &mut Vec<Vec<char>>, row: &Vec<char>, active_only: bool)
    ensures
        views(final(rates)@) == with_rates(views(old(rates)@), words_of(row@), active_only),
{
    let ghost start = views(rates@);
    let parts: Vec<Vec<char>> = words(row.as_slice());
    let ghost all = words_of(row@);
    assert(all.take(0) =~= Seq::<Seq<char>>::empty());
    for i in 0..parts.len()
        invariant
            views(parts@) == all,
            views(rates@) == with_rates(start, all.take(i as int), active_only),
    {
        let word: &Vec<char> = &parts[i];
        proof {
            assert(all[i as int] == word@);
            assert(all.take(i as int + 1).drop_last() =~= all.take(i as int));
        }
        let ghost before = views(rates@);
        if !active_only || contains_char(word.as_slice(), '*') {
            let bare: Vec<char> = trim_back(word.as_slice(), CharClass::RateMark);
            if is_rate(bare.as_slice()) {
                let ghost b = bare@;
                rates.push(bare);
                assert(views(rates@) =~= before.push(b));
            }
        }
    }
    assert(all.take(all.len() as int) =~= all);
}

/// The refresh rates, as decimal numbers, that xrandr's output lists for an
/// output; with `active_only` those in use. None where it could not be run.
pub fn xrandr_rates(output: Option<&str>, display_id: &str, active_only: bool) -> (r: Vec<String>)
    ensures
        args_of(r@) == (match output {
            Some(o) => rates_in(lines_of(o@), display_id@, active_only),
            None => Seq::empty(),
        }),
{
    let mut r: Vec<Vec<char>> = Vec::new();
    match output {
        None => {
            assert(views(r@) =~= Seq::<Seq<char>>::empty());
        },
        Some(o) => {
            let text: Vec<char> = chars_of(o);
            let rows: Vec<Vec<char>> = lines(text.as_slice());
            let ghost all = lines_of(o@);
            let mut open: bool = false;
            assert(all.take(0) =~= Seq::<Seq<char>>::empty());
            assert(views(r@) =~= rates_in(all.take(0), display_id@, active_only));
            for i in 0..rows.len()
                invariant
                    views(rows@) == all,
                    open == in_block(all.take(i as int), display_id@),
                    views(r@) == rates_in(all.take(i as int), display_id@, active_only),
            {
                let row: &Vec<char> = &rows[i];
                proof {
                    assert(all[i as int] == row@);
                    assert(all.take(i as int + 1).drop_last() =~= all.take(i as int));
                    assert(all.take(i as int + 1).last() == row@);
                }
                if row.len() > 0 && !is_white(row[0]) {
                    let parts: Vec<Vec<char>> = words(row.as_slice());
                    assert(words_of(row@).len() == parts@.len());
                    open = false;
                    if parts.len() > 0 {
                        assert(words_of(row@)[0] == parts@[0]@);
                        open = is_text(parts[0].as_slice(), display_id);
                    }
                } else if open {
                    add_rates(&mut r, row, active_only);
                }
            }
            assert(all.take(all.len() as int) =~= all);
        },
    }
    strings_of(&r)
}

fn strings_of(v: &Vec<Vec<char>>) -> (r: Vec<String>)
    ensures
        args_of(r@) == views(v@),
{
    let mut r: Vec<String> = Vec::new();
    for i in 0..v.len()
        invariant
            r@.len() == i,
            forall|j: int| 0 <= j < i ==> (#[trigger] r@[j])@ == v@[j]@,
    {
        r.push(string_of(v[i].as_slice()));
    }
    assert(args_of(r@) =~= views(v@));
    r
}

/// The rate that an output is at, by xrandr's output.
pub fn active_refresh_rate(output: Option<&str>, display_id: &str) -> (r: Option<String>)
    ensures
        ({
            let rates = match output {
                Some(o) => rates_in(lines_of(o@), display_id@, true),
                None => Seq::empty(),
            };
            match r {
                Some(s) => rates.len() > 0 && s@ == rates[0],
                None => rates.len() == 0,
            }
        }),
{
    let rates: Vec<String> = xrandr_rates(output, display_id, true);
    assert(args_of(rates@).len() == rates@.len());
    if rates.len() > 0 {
        assert(args_of(rates@)[0] == rates@[0]@);
        Some(rates[0].clone())
    } else {
        None
    }
}

// ---- Laws ----

/// The consumer is told that the pipeline started only behind every step whose
/// failure would have ended it.
pub proof fn law_started_means_nothing_fatal_is_left(
    config: StreamConfig,
    platform: Platform,
    zero_copy: bool,
    i: int,
    j: int,
)
    requires
        0 <= i < startup_plan(config, platform, zero_copy).len(),
        0 <= j < startup_plan(config, platform, zero_copy).len(),
        fatal(startup_plan(config, platform, zero_copy)[i]),
        startup_plan(config, platform, zero_copy)[j] == StartupStep::SendStarted,
    ensures
        i < j,
        j == startup_plan(config, platform, zero_copy).len() - 1,
{
}

/// Something that the frame loop takes up.
pub enum LoopInput {
    Tick { captured: Result<CapturedFrame, MediaError>, waiting: usize, now_us: u64 },
    /// A frame came out of the encoder.
    Encoded { size: usize, sent: bool },
    /// A frame could not be encoded.
    EncodeFailed(MediaError),
    Command(PipelineCommand),
}

/// A run of the frame loop: its state, the errors that it reported, and whether it
/// stopped.
pub struct LoopRun {
    pub state: FrameLoop,
    pub errors: Seq<ErrorView>,
    pub stopped: bool,
}

/// The errors after an action at a tick.
pub open spec fn reported(errors: Seq<ErrorView>, action: TickAction) -> Seq<ErrorView> {
    match action {
        TickAction::ReportError(e) => errors.push(e@),
        _ => errors,
    }
}

/// The run of a loop over its inputs. Once it stopped it takes up nothing.
pub open spec fn loop_run(o: FrameLoop, inputs: Seq<LoopInput>) -> LoopRun
    decreases inputs.len(),
{
    if inputs.len() == 0 {
        LoopRun { state: o, errors: Seq::empty(), stopped: false }
    } else {
        let run = loop_run(o, inputs.drop_last());
        if run.stopped {
            run
        } else {
            match inputs.last() {
                LoopInput::Tick { captured, waiting, now_us } => {
                    let (action, state) = after_tick(run.state, captured, waiting, now_us);
                    LoopRun { state, errors: reported(run.errors, action), ..run }
                },
                LoopInput::Encoded { size, sent } => LoopRun {
                    state: after_encoded(run.state, size, sent),
                    ..run
                },
                LoopInput::EncodeFailed(e) => LoopRun {
                    errors: reported(run.errors, after_encode_failed(e)),
                    ..run
                },
                LoopInput::Command(c) => {
                    let (action, state) = after_command(run.state, c);
                    LoopRun { state, stopped: action == CommandAction::Stop, ..run }
                },
            }
        }
    }
}

/// The failures among inputs: of a capture that the consumer had room for, and of an
/// encoding.
pub open spec fn failures(inputs: Seq<LoopInput>) -> Seq<ErrorView>
    decreases inputs.len(),
{
    if inputs.len() == 0 {
        Seq::empty()
    } else {
        let earlier = failures(inputs.drop_last());
        match inputs.last() {
            LoopInput::Tick { captured: Err(e), waiting, .. } if waiting < BACKPRESSURE_LIMIT =>
                earlier.push(e@),
            LoopInput::EncodeFailed(e) => earlier.push(e@),
            _ => earlier,
        }
    }
}

/// A failure ends no run: it is reported, once and in its turn, and only the command
/// to stop stops the loop.
pub proof fn law_failures_are_reported_and_the_run_goes_on(o: FrameLoop, inputs: Seq<LoopInput>)
    ensures
        loop_run(o, inputs).stopped <==> exists|i: int|
            0 <= i < inputs.len() && #[trigger] inputs[i] == LoopInput::Command(
                PipelineCommand::Stop,
            ),
        !loop_run(o, inputs).stopped ==> loop_run(o, inputs).errors == failures(inputs),
    decreases inputs.len(),
{
    if inputs.len() > 0 {
        let front = inputs.drop_last();
        law_failures_are_reported_and_the_run_goes_on(o, front);
        let stop = LoopInput::Command(PipelineCommand::Stop);
        if exists|i: int| 0 <= i < front.len() && #[trigger] front[i] == stop {
            let i = choose|i: int| 0 <= i < front.len() && #[trigger] front[i] == stop;
            assert(inputs[i] == stop);
        }
        if exists|i: int| 0 <= i < inputs.len() && #[trigger] inputs[i] == stop {
            let i = choose|i: int| 0 <= i < inputs.len() && #[trigger] inputs[i] == stop;
            if i < front.len() {
                assert(front[i] == stop);
            }
        }
        assert(inputs[inputs.len() - 1] == inputs.last());
    }
}

/// A failed encoding leaves the loop as it is: it reports its error and nothing else.
pub proof fn law_a_failed_encoding_only_reports(o: FrameLoop, inputs: Seq<LoopInput>, e: MediaError)
    requires
        !loop_run(o, inputs).stopped,
    ensures
        loop_run(o, inputs.push(LoopInput::EncodeFailed(e))) == (LoopRun {
            errors: loop_run(o, inputs).errors.push(e@),
            ..loop_run(o, inputs)
        }),
{
    assert(inputs.push(LoopInput::EncodeFailed(e)).drop_last() =~= inputs);
}

/// Whether a captured frame shows something: only a buffer in memory can be without
/// bytes.
pub open spec fn shows_picture(f: CapturedFrame) -> bool {
    match f.buffer {
        GpuBuffer::CpuBuffer { data, .. } => data@.len() > 0,
        _ => true,
    }
}

/// The picture that was captured last: at the last tick that found fewer than 56 events
/// waiting and brought a frame that shows something, and before any such tick the one
/// that was there.
pub open spec fn newest_picture(
    there: Option<CapturedFrame>,
    inputs: Seq<LoopInput>,
) -> Option<CapturedFrame>
    decreases inputs.len(),
{
    if inputs.len() == 0 {
        there
    } else {
        match inputs.last() {
            LoopInput::Tick { captured: Ok(f), waiting, .. } if waiting < 56 && shows_picture(f) =>
                Some(f),
            _ => newest_picture(there, inputs.drop_last()),
        }
    }
}

/// What a run encodes is the newest picture: whatever was taken up before, the loop
/// holds the frame that was captured last, and a tick that has a picture encoded leaves
/// that very frame to be encoded.
pub proof fn law_the_newest_picture_is_encoded(
    o: FrameLoop,
    inputs: Seq<LoopInput>,
    captured: Result<CapturedFrame, MediaError>,
    waiting: usize,
    now_us: u64,
)
    requires
        !loop_run(o, inputs).stopped,
    ensures
        loop_run(o, inputs).state.last_frame == newest_picture(o.last_frame, inputs),
        ({
            let (action, after) = after_tick(
                loop_run(o, inputs).state,
                captured,
                waiting,
                now_us,
            );
            let seen = inputs.push(LoopInput::Tick { captured, waiting, now_us });
            &&& after.last_frame == newest_picture(o.last_frame, seen)
            &&& action is Encode ==> after.last_frame is Some && after.last_frame
                == newest_picture(o.last_frame, seen)
            &&& captured is Ok && waiting < 56 && shows_picture(captured->Ok_0)
                ==> after.last_frame == Some(captured->Ok_0)
        }),
    decreases inputs.len(),
{
    if inputs.len() > 0 {
        let front = inputs.drop_last();
        match inputs.last() {
            LoopInput::Tick { captured: c, waiting: w, now_us: n } => {
                law_the_newest_picture_is_encoded(o, front, c, w, n);
            },
            _ => {
                law_the_newest_picture_is_encoded(o, front, captured, waiting, now_us);
            },
        }
    }
    let seen = inputs.push(LoopInput::Tick { captured, waiting, now_us });
    assert(seen.drop_last() =~= inputs);
}

/// When a picture is encoded. Of two ticks that find a picture and a consumer that keeps
/// up, the second is encoded at its own time wherever every tick is to be, a new picture
/// came, a command asked for a frame since the first, or half a second went by since the
/// last frame; and a first picture always is. A tick that finds neither encodes nothing.
pub proof fn law_when_a_picture_is_encoded(
    o: FrameLoop,
    f: CapturedFrame,
    waiting: usize,
    now_us: u64,
)
    requires
        o.last_sent_us matches Some(t) ==> t <= now_us,
    ensures
        ({
            let (action, after) = after_tick(o, Ok(f), waiting, now_us);
            let there = shows_picture(f) || o.last_frame is Some;
            let due = o.constant_fps || (shows_picture(f) && f.is_new_frame)
                || o.keyframe_requested || o.last_sent_us is None || now_us - o.last_sent_us->0
                >= 500_000;
            &&& action is Encode <==> waiting < 56 && there && due
            &&& action matches TickAction::Encode { pts_us } ==> pts_us == now_us
                && after.last_sent_us == Some(now_us) && !after.keyframe_requested
            &&& !(action is Encode) ==> after.last_sent_us == o.last_sent_us
                && after.keyframe_requested == o.keyframe_requested
            &&& action is Skip <==> waiting >= 56
            &&& !(action is ReportError)
        }),
{
}

/// A command that asks for a frame is answered by the next tick that finds a picture and
/// a consumer that keeps up, and the tick after that owes it nothing.
pub proof fn law_a_command_has_the_next_frame_encoded(
    o: FrameLoop,
    command: PipelineCommand,
    f: CapturedFrame,
    g: CapturedFrame,
    waiting: usize,
    t: u64,
    u: u64,
)
    requires
        command != PipelineCommand::Stop,
        shows_picture(f) || o.last_frame is Some,
        waiting < 56,
        t <= u < t + 500_000,
        o.last_sent_us matches Some(s) ==> s <= t,
        !g.is_new_frame,
        !o.constant_fps,
    ensures
        ({
            let asked = after_command(o, command).1;
            let (first, then) = after_tick(asked, Ok(f), waiting, t);
            let second = after_tick(then, Ok(g), waiting, u).0;
            &&& first == (TickAction::Encode { pts_us: t })
            &&& second == TickAction::Idle
            &&& asked.last_frame == o.last_frame
        }),
{
}

/// What the loop counts. Over a run that did not stop, the ticks are counted, and so are
/// those that were skipped because the consumer was slow, the frames and bytes that came
/// out of the encoder, and the frames that were lost. Nothing that fails is counted as
/// a frame.
pub proof fn law_a_run_counts_what_happened(o: FrameLoop, inputs: Seq<LoopInput>)
    requires
        !loop_run(o, inputs).stopped,
        o.total_frames + inputs.len() <= u64::MAX,
        o.skipped_frames + inputs.len() <= u64::MAX,
        o.dropped_frames + inputs.len() <= u64::MAX,
        o.metrics.ticks + inputs.len() <= u64::MAX,
        o.metrics.encoded_frames + inputs.len() <= u64::MAX,
        o.metrics.sent_frames + inputs.len() <= u64::MAX,
        o.metrics.dropped_frames + inputs.len() <= u64::MAX,
    ensures
        ({
            let after = loop_run(o, inputs).state;
            let ticks = counted(inputs, |i: LoopInput| i is Tick);
            let slow = counted(inputs, |i: LoopInput| i is Tick && i->waiting >= 56);
            let frames = counted(inputs, |i: LoopInput| i is Encoded);
            let lost = counted(inputs, |i: LoopInput| i is Encoded && !i->sent);
            &&& after.metrics.ticks == o.metrics.ticks + ticks
            &&& after.skipped_frames == o.skipped_frames + slow
            &&& after.total_frames == o.total_frames + frames
            &&& after.dropped_frames == o.dropped_frames + lost
            &&& after.metrics.encoded_frames == o.metrics.encoded_frames + frames
            &&& after.metrics.sent_frames == o.metrics.sent_frames + frames - lost
            &&& after.metrics.dropped_frames == o.metrics.dropped_frames + lost
            &&& after.constant_fps == o.constant_fps
            &&& 0 <= slow <= ticks <= inputs.len()
            &&& 0 <= lost <= frames <= inputs.len()
        }),
    decreases inputs.len(),
{
    if inputs.len() > 0 {
        law_a_run_counts_what_happened(o, inputs.drop_last());
    }
}

/// How many inputs are of a kind.
pub open spec fn counted(inputs: Seq<LoopInput>, kind: spec_fn(LoopInput) -> bool) -> int
    decreases inputs.len(),
{
    if inputs.len() == 0 {
        0
    } else {
        counted(inputs.drop_last(), kind) + if kind(inputs.last()) {
            1int
        } else {
            0
        }
    }
}

/// The rate of a running loop is the last one that it was told, brought within 1 and 240,
/// and the ticks that it then asks for fit into a second that often and no more often.
pub proof fn law_a_rate_command_sets_the_tick(o: FrameLoop, fps: u32)
    ensures
        ({
            let (action, after) = after_command(o, PipelineCommand::SetFps(fps));
            &&& 1 <= after.fps <= 240
            &&& 1 <= fps <= 240 ==> after.fps == fps
            &&& fps > 240 ==> after.fps == 240
            &&& fps == 0 ==> after.fps == 1
            &&& action matches CommandAction::SetFps { fps: told, interval_ns } && told == after.fps
                && interval_ns * told <= 1_000_000_000 < (interval_ns + 1) * told
            &&& after.keyframe_requested
        }),
{
    let w = within_limits(fps) as int;
    let q = 1_000_000_000int / w;
    assert(q * w <= 1_000_000_000 < (q + 1) * w && 0 <= q <= 1_000_000_000) by (nonlinear_arith)
        requires
            q == 1_000_000_000int / w,
            1 <= w,
    ;
}

/// A frame rate that is set lies within the limits, and one within them is taken
/// as it is.
pub proof fn law_frame_rates_stay_within_limits(fps: u32)
    ensures
        1 <= within_limits(fps) <= 240,
        1 <= fps <= 240 ==> within_limits(fps) == fps,
        within_limits(within_limits(fps)) == within_limits(fps),
{
}

/// However still the picture is, and whatever the settings, a tick at least half
/// a second after the last frame finds one due.
pub proof fn law_a_still_picture_is_sent_again(last: Option<u64>, now_us: u64)
    requires
        last matches Some(t) ==> t + RESEND_US <= now_us,
    ensures
        resend_due(last, now_us),
{
}

proof fn lemma_words_keep_rates(
    a: Seq<Seq<char>>,
    b: Seq<Seq<char>>,
    parts: Seq<Seq<char>>,
    rate: Seq<char>,
)
    requires
        a.contains(rate) ==> b.contains(rate),
    ensures
        with_rates(a, parts, true).contains(rate) ==> with_rates(b, parts, false).contains(rate),
    decreases parts.len(),
{
    if parts.len() > 0 {
        lemma_words_keep_rates(a, b, parts.drop_last(), rate);
        let x = with_rates(a, parts.drop_last(), true);
        let y = with_rates(b, parts.drop_last(), false);
        let bare = strip_back(parts.last(), CharClass::RateMark);
        let x2 = with_rate(x, parts.last(), true);
        let y2 = with_rate(y, parts.last(), false);
        if x2.contains(rate) {
            let k = choose|k: int| 0 <= k < x2.len() && x2[k] == rate;
            if k < x.len() {
                assert(x[k] == rate);
                let m = choose|m: int| 0 <= m < y.len() && y[m] == rate;
                assert(y2[m] == rate);
            } else {
                assert(y2[y.len() as int] == rate);
            }
        }
    }
}

/// A rate that is in use is one that the output lists.
pub proof fn law_active_rates_are_listed(rows: Seq<Seq<char>>, id: Seq<char>, rate: Seq<char>)
    ensures
        rates_in(rows, id, true).contains(rate) ==> rates_in(rows, id, false).contains(rate),
    decreases rows.len(),
{
    if rows.len() > 0 {
        law_active_rates_are_listed(rows.drop_last(), id, rate);
        lemma_words_keep_rates(
            rates_in(rows.drop_last(), id, true),
            rates_in(rows.drop_last(), id, false),
            words_of(rows.last()),
            rate,
        );
    }
}

/// The encoder is set up for the stream that was asked for: its codec, size, rate and
/// bitrate. It always encodes with low delay, and a key frame comes every 240 frames at the
/// latest. On Windows it gets the capture's device with its own context, elsewhere none.
pub proof fn law_the_encoder_is_set_up_for_the_stream(
    config: StreamConfig,
    platform: Platform,
    d3d11: Option<(usize, usize)>,
)
    ensures
        ({
            let e = encoder_setup(config, platform, d3d11);
            &&& e.codec == config.codec
            &&& e.width == config.width && e.height == config.height
            &&& e.fps == config.fps
            &&& e.bitrate_kbps == config.bitrate_kbps
            &&& e.low_latency
            &&& e.keyframe_interval == 240
            &&& platform == Platform::Windows ==> (d3d11 is Some <==> e.d3d11_device is Some) && (
            d3d11 is Some <==> e.d3d11_context is Some)
            &&& platform == Platform::Windows && d3d11 is Some ==> (
                e.d3d11_device->0,
                e.d3d11_context->0,
            ) == d3d11->0
            &&& platform != Platform::Windows ==> e.d3d11_device is None && e.d3d11_context is None
            &&& config.preferred_encoder matches Some(name) ==> e.preferred_hw == hw_of_name(
                normal(name@),
            ) && e.force_ffmpeg == wants_ffmpeg(normal(name@))
        }),
{
}

/// Whether `a` is done before `b` in a plan that has both.
pub open spec fn done_before(p: Seq<StartupStep>, a: StartupStep, b: StartupStep) -> bool {
    exists|i: int, j: int| 0 <= i < j < p.len() && #[trigger] p[i] == a && #[trigger] p[j] == b
}

/// Starting up makes everything before it uses it. The display is there, and at its rate,
/// before it is captured; the capture runs before the encoder is set up, which may need the
/// capture's device; the consumer hears of the encoder once it is set up, and of the start
/// last. A virtual display is made where the stream asks for one on a platform that has
/// them; the rate is raised on Linux, above 60 frames a second. Nothing is done twice.
pub proof fn law_starting_up_makes_before_it_uses(
    config: StreamConfig,
    platform: Platform,
    zero_copy: bool,
)
    ensures
        ({
            let p = startup_plan(config, platform, zero_copy);
            let display = config.virtual_display && (platform == Platform::Linux || platform
                == Platform::Windows);
            let raise = platform == Platform::Linux && config.fps > 60;
            &&& done_before(p, StartupStep::CreateCapture, StartupStep::StartCapture)
            &&& done_before(p, StartupStep::CreateEncoder, StartupStep::InitializeEncoder)
            &&& done_before(p, StartupStep::StartCapture, StartupStep::InitializeEncoder)
            &&& done_before(p, StartupStep::InitializeEncoder, StartupStep::SendEncoderStarted)
            &&& done_before(p, StartupStep::CreateAudio, StartupStep::SpawnAudio)
            &&& done_before(p, StartupStep::CreateCursor, StartupStep::SpawnCursor)
            &&& p.last() == StartupStep::SendStarted
            &&& p.contains(StartupStep::CreateVirtualDisplay) == display
            &&& display ==> done_before(
                p,
                StartupStep::CreateVirtualDisplay,
                StartupStep::StartCapture,
            )
            &&& p.contains(StartupStep::RaiseRate) == raise
            &&& raise ==> done_before(p, StartupStep::RaiseRate, StartupStep::StartCapture)
            &&& display && raise ==> done_before(
                p,
                StartupStep::CreateVirtualDisplay,
                StartupStep::RaiseRate,
            )
            &&& p.contains(StartupStep::SetZeroCopy) == zero_copy
            &&& zero_copy ==> done_before(p, StartupStep::CreateCapture, StartupStep::SetZeroCopy)
                && done_before(p, StartupStep::SetZeroCopy, StartupStep::StartCapture)
            &&& p.no_duplicates()
        }),
{
    let p = startup_plan(config, platform, zero_copy);
    let n = p.len() as int;
    assert(p[0] == StartupStep::CreateCapture);
    assert(p[1] == StartupStep::CreateEncoder);
    assert(p[2] == StartupStep::CreateAudio);
    assert(p[3] == StartupStep::CreateCursor);
    assert(p[n - 6] == StartupStep::StartCapture);
    assert(p[n - 5] == StartupStep::InitializeEncoder);
    assert(p[n - 4] == StartupStep::SendEncoderStarted);
    assert(p[n - 3] == StartupStep::SpawnAudio);
    assert(p[n - 2] == StartupStep::SpawnCursor);
    let a: int = if zero_copy {
        1
    } else {
        0
    };
    let display = config.virtual_display && (platform == Platform::Linux || platform
        == Platform::Windows);
    let b: int = if display {
        1
    } else {
        0
    };
    if zero_copy {
        assert(p[4] == StartupStep::SetZeroCopy);
    }
    if display {
        assert(p[4 + a] == StartupStep::CreateVirtualDisplay);
    }
    if platform == Platform::Linux && config.fps > 60 {
        assert(p[4 + a + b] == StartupStep::RaiseRate);
    }
}

/// Shutting down hands out what the encoder holds back before the encoder goes, and tells
/// the consumer last. The encoder goes before the capture, whose device it may share.
pub proof fn law_shutting_down_loses_no_frame(i: int, j: int)
    requires
        0 <= i < shutdown_plan().len(),
        0 <= j < shutdown_plan().len(),
    ensures
        shutdown_plan()[i] == ShutdownStep::FlushEncoder && shutdown_plan()[j]
            == ShutdownStep::ShutdownEncoder ==> i < j,
        shutdown_plan()[i] == ShutdownStep::ShutdownEncoder && shutdown_plan()[j]
            == ShutdownStep::StopCapture ==> i < j,
        shutdown_plan()[j] == ShutdownStep::SendStopped <==> j == shutdown_plan().len() - 1,
        i != j ==> shutdown_plan()[i] != shutdown_plan()[j],
        shutdown_plan().contains(ShutdownStep::FlushEncoder),
        shutdown_plan().contains(ShutdownStep::ShutdownEncoder),
        shutdown_plan().contains(ShutdownStep::StopCapture),
        shutdown_plan().contains(ShutdownStep::StopAudio),
        shutdown_plan().contains(ShutdownStep::AbortCursor),
{
    assert(shutdown_plan()[0] == ShutdownStep::FlushEncoder);
    assert(shutdown_plan()[1] == ShutdownStep::ShutdownEncoder);
    assert(shutdown_plan()[2] == ShutdownStep::StopCapture);
    assert(shutdown_plan()[3] == ShutdownStep::StopAudio);
    assert(shutdown_plan()[4] == ShutdownStep::AbortCursor);
}

/// How many frames in a row are dropped after `n` of them found no room.
pub open spec fn dropped_after(n: nat) -> u64
    decreases n,
{
    if n == 0 {
        0
    } else {
        audio_after(dropped_after((n - 1) as nat), SendOutcome::Full).1
    }
}

/// Frames of sound that found no room are counted until one is sent, which tells how many
/// they were. The first of them is reported, and every hundredth; one that is sent is not.
/// The task ends where the consumer is gone, and only there.
pub proof fn law_dropped_sound_is_counted(n: nat)
    requires
        n < u64::MAX,
    ensures
        dropped_after(n) == n,
        n > 0 ==> audio_after(dropped_after(n), SendOutcome::Sent).0 == AudioStep::Recovered(
            n as u64,
        ),
        n == 0 ==> audio_after(dropped_after(n), SendOutcome::Sent).0 == (AudioStep::Next {
            report: false,
        }),
        audio_after(dropped_after(n), SendOutcome::Sent).1 == 0,
        audio_after(dropped_after(n), SendOutcome::Full).0 == (AudioStep::Next {
            report: n == 0 || (n + 1) % 100 == 0,
        }),
        audio_after(dropped_after(n), SendOutcome::Closed).0 == AudioStep::End,
    decreases n,
{
    if n > 0 {
        law_dropped_sound_is_counted((n - 1) as nat);
    }
}

/// A cursor state is sent where anything of it differs from the state before: its place,
/// whether it shows, its kind, or its picture in size, hotspot or any byte. It is sent
/// whole. A state that differs in nothing is not sent again, and the first always is.
pub proof fn law_a_changed_cursor_is_sent(
    last: CursorState,
    before: Option<CursorState>,
    after: Option<CursorState>,
    sent: Option<MediaEvent>,
    state: CursorState,
    end: Option<CursorState>,
    r: Option<MediaEvent>,
)
    requires
        cursor_taken(before, after, last, sent),
        cursor_taken(after, end, state, r),
    ensures
        before is None ==> sent is Some,
        r is Some ==> r->0 == MediaEvent::CursorUpdate(state),
        r is None ==> {
            &&& state.x == last.x && state.y == last.y
            &&& state.visible == last.visible
            &&& state.kind == last.kind
            &&& state.image is Some <==> last.image is Some
            &&& state.image is Some ==> {
                let a = state.image->0;
                let b = last.image->0;
                &&& a.width == b.width && a.height == b.height
                &&& a.hotspot_x == b.hotspot_x && a.hotspot_y == b.hotspot_y
                &&& a.rgba_data@ == b.rgba_data@
            }
        },
        state == last ==> r is None,
{
    if r is None {
        assert(cursor_view(state) == cursor_view(last));
        assert(picture(state.image) == picture(last.image));
    }
}

/// A new loop counts from zero and encodes the first picture that it sees, whatever the
/// settings: unless the consumer is slow, at once.
pub proof fn law_the_first_picture_is_encoded_at_once(
    fps: u32,
    constant_fps: bool,
    f: CapturedFrame,
    waiting: usize,
    now_us: u64,
)
    requires
        waiting < 56,
        f.buffer matches GpuBuffer::CpuBuffer { data, .. } ==> data@.len() > 0,
    ensures
        ({
            let o = new_loop(fps, constant_fps);
            let (action, after) = after_tick(o, Ok(f), waiting, now_us);
            &&& o.fps == fps && o.constant_fps == constant_fps
            &&& o.total_frames == 0 && o.total_bytes == 0 && o.skipped_frames == 0
                && o.dropped_frames == 0
            &&& o.metrics.ticks == 0 && o.metrics.bytes == 0 && o.metrics.encoded_frames == 0
            &&& action == (TickAction::Encode { pts_us: now_us })
            &&& after.last_frame == Some(f)
        }),
{
}

/// Metrics are reported once a second has gone by and not before. What is reported is what
/// was counted, and what is left begins at nothing. The frames themselves go on as before.
pub proof fn law_metrics_are_reported_each_second(o: FrameLoop, now_us: u64)
    requires
        o.metrics.started_us <= now_us,
    ensures
        ({
            let (r, after) = metrics_taken(o, now_us);
            let left = after.metrics;
            let told = r->0;
            &&& r is Some <==> now_us >= o.metrics.started_us + 1_000_000
            &&& r is None ==> after == o
            &&& r is Some ==> {
                &&& left.started_us == now_us
                &&& told.ticks + left.ticks == o.metrics.ticks && left.ticks == 0
                &&& told.new_captures + left.new_captures == o.metrics.new_captures
                    && left.new_captures == 0
                &&& told.encode_attempts == o.metrics.encode_attempts && left.encode_attempts == 0
                &&& told.encoded_frames == o.metrics.encoded_frames && left.encoded_frames == 0
                &&& told.sent_frames == o.metrics.sent_frames && left.sent_frames == 0
                &&& told.dropped_frames == o.metrics.dropped_frames && left.dropped_frames == 0
                &&& told.bytes == o.metrics.bytes && left.bytes == 0
                &&& told.encode_us == o.metrics.encode_us && left.encode_us == 0
            }
            &&& after.last_frame == o.last_frame && after.keyframe_requested
                == o.keyframe_requested && after.last_sent_us == o.last_sent_us
            &&& after.total_frames == o.total_frames && after.total_bytes == o.total_bytes
                && after.fps == o.fps
        }),
{
}

proof fn lemma_other_block(
    rows: Seq<Seq<char>>,
    head: Seq<char>,
    modes: Seq<Seq<char>>,
    id: Seq<char>,
    active_only: bool,
)
    requires
        heads_block(head),
        !heads_output(head, id),
        forall|i: int| 0 <= i < modes.len() ==> !heads_block(#[trigger] modes[i]),
    ensures
        rates_in(rows.push(head) + modes, id, active_only) == rates_in(rows, id, active_only),
        !in_block(rows.push(head) + modes, id),
    decreases modes.len(),
{
    let all = rows.push(head) + modes;
    if modes.len() == 0 {
        assert(all =~= rows.push(head));
        assert(all.drop_last() =~= rows);
    } else {
        let m = modes.drop_last();
        lemma_other_block(rows, head, m, id, active_only);
        assert(all.drop_last() =~= rows.push(head) + m);
        assert(all.last() == modes.last());
    }
}

/// The rates of another output do not count: lines that stand in from a line about it,
/// whose first word is not the name that is looked for, add none.
pub proof fn law_rates_of_other_outputs_do_not_count(
    rows: Seq<Seq<char>>,
    head: Seq<char>,
    modes: Seq<Seq<char>>,
    id: Seq<char>,
    active_only: bool,
)
    requires
        head.len() > 0 && !white(head[0]),
        words_of(head).len() == 0 || words_of(head)[0] != id,
        forall|i: int|
            0 <= i < modes.len() ==> (#[trigger] modes[i]).len() == 0 || white(modes[i][0]),
    ensures
        rates_in(rows.push(head) + modes, id, active_only) == rates_in(rows, id, active_only),
{
    lemma_other_block(rows, head, modes, id, active_only);
}

/// The rates of the output count: a line that stands in right behind a line about it adds
/// its words that are rates, without their marks; where only the rate in use counts, those
/// of them that have a star.
pub proof fn law_rates_of_the_output_count(
    rows: Seq<Seq<char>>,
    head: Seq<char>,
    mode: Seq<char>,
    id: Seq<char>,
    active_only: bool,
    word: Seq<char>,
)
    requires
        head.len() > 0 && !white(head[0]),
        words_of(head).len() > 0 && words_of(head)[0] == id,
        mode.len() == 0 || white(mode[0]),
        words_of(mode) == seq![word],
    ensures
        ({
            let before = rates_in(rows, id, active_only);
            let all = rates_in(rows.push(head).push(mode), id, active_only);
            let bare = strip_back(word, CharClass::RateMark);
            if rate_text(bare) && (!active_only || word.contains('*')) {
                all == before.push(bare)
            } else {
                all == before
            }
        }),
{
    let two = rows.push(head).push(mode);
    assert(two.drop_last() =~= rows.push(head));
    assert(rows.push(head).drop_last() =~= rows);
    assert(in_block(rows.push(head), id));
    assert(in_block(two, id));
    let before = rates_in(rows, id, active_only);
    assert(seq![word].drop_last() =~= Seq::<Seq<char>>::empty());
    assert(with_rates(before, seq![word].drop_last(), active_only) == before);
    assert(rates_in(rows.push(head), id, active_only) == before);
    assert(two.last() == mode);
    assert(rates_in(two, id, active_only) == with_rates(before, seq![word], active_only));
    assert(seq![word].last() == word);
}

/// A virtual display is captured where there is one, and the display that was asked for
/// where there is none.
pub proof fn law_the_virtual_display_is_captured(id: Seq<char>, made: Seq<char>)
    ensures
        shown_display(id, Some(made)) == made,
        shown_display(id, None) == id,
{
}

/// Frames stay on the GPU on Windows alone, and there unless GDI or a software encoder, which
/// both need them in memory, is asked for.
pub proof fn law_frames_stay_where_nothing_needs_them(
    platform: Platform,
    gdi: bool,
    hw: Option<HwAccelType>,
)
    ensures
        keeps_frames(platform, gdi, hw) ==> platform == Platform::Windows && !gdi && hw != Some(
            HwAccelType::Software,
        ),
        keeps_frames(Platform::Windows, false, None),
        hw != Some(HwAccelType::Software) ==> keeps_frames(Platform::Windows, false, hw),
{
}

/// The rate of the primary display counts where there is one, else that of the first; none
/// only where there is no display.
pub proof fn law_the_primary_rate_counts(displays: Seq<DisplayInfo>, r: Option<usize>, k: int)
    requires
        changed_display(displays, r),
        0 <= k < displays.len(),
    ensures
        r is Some && r->0 < displays.len(),
        displays[k].is_primary ==> displays[r->0 as int].is_primary && r->0 <= k,
        (forall|j: int| 0 <= j < displays.len() ==> !(#[trigger] displays[j]).is_primary) ==> r->0
            == 0,
{
}

/// The rate of the output that is named is set, to the rate that is asked for: each value
/// stands behind its option.
pub proof fn law_a_rate_is_set_on_its_output(id: Seq<char>, fps: u32)
    ensures
        rate_args(id, fps).len() == 4,
        rate_args(id, fps)[0] == "--output"@ && rate_args(id, fps)[1] == id,
        rate_args(id, fps)[2] == "--rate"@ && unsigned_of(rate_args(id, fps)[3], 0xffff_ffff)
            == Some(fps as nat),
{
    law_written_numbers_are_read_back(fps as nat, 0xffff_ffff);
}

/// Every encoded frame is counted with its bytes, in the totals and since the last report
/// alike: after two frames both have grown by both sizes. A frame is either sent or dropped.
pub proof fn law_encoded_frames_are_counted(o: FrameLoop, a: usize, b: usize, s: bool, t: bool)
    requires
        o.total_frames < u32::MAX,
        o.total_bytes < u32::MAX,
        o.dropped_frames < u32::MAX,
        o.metrics.encoded_frames < u32::MAX,
        o.metrics.bytes < u32::MAX,
        o.metrics.sent_frames < u32::MAX,
        o.metrics.dropped_frames < u32::MAX,
        a < u32::MAX,
        b < u32::MAX,
    ensures
        ({
            let n = after_encoded(after_encoded(o, a, s), b, t);
            let sent: int = if s && t {
                2
            } else if s || t {
                1
            } else {
                0
            };
            &&& n.total_frames - o.total_frames == 2
            &&& n.metrics.encoded_frames - o.metrics.encoded_frames == 2
            &&& n.total_bytes - o.total_bytes == a + b
            &&& n.metrics.bytes - o.metrics.bytes == a + b
            &&& n.metrics.sent_frames - o.metrics.sent_frames == sent
            &&& n.metrics.dropped_frames - o.metrics.dropped_frames == 2 - sent
            &&& n.dropped_frames - o.dropped_frames == 2 - sent
            &&& n.last_frame == o.last_frame && n.fps == o.fps && n.keyframe_requested
                == o.keyframe_requested && n.metrics.ticks == o.metrics.ticks
        }),
{
}

/// A tick that is skipped for want of room is counted, and reported for the first one and
/// then once in sixty; the picture to encode stays owed.
pub proof fn law_skipped_ticks_are_reported_now_and_then(
    o: FrameLoop,
    captured: Result<CapturedFrame, MediaError>,
    waiting: usize,
    now_us: u64,
)
    requires
        waiting >= 56,
        o.skipped_frames < u64::MAX,
        o.metrics.ticks < u64::MAX,
    ensures
        ({
            let (action, n) = after_tick(o, captured, waiting, now_us);
            &&& action is Skip
            &&& o.skipped_frames == 0 ==> action->report
            &&& action->report <==> o.skipped_frames % 60 == 0
            &&& n.skipped_frames == o.skipped_frames + 1
            &&& n.metrics.ticks == o.metrics.ticks + 1
            &&& n.last_frame == o.last_frame && n.keyframe_requested == o.keyframe_requested
            &&& n.last_sent_us == o.last_sent_us && n.metrics.encode_attempts
                == o.metrics.encode_attempts && n.metrics.new_captures == o.metrics.new_captures
        }),
{
}

} // verus!
