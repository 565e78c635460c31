//! Capture of the system's sound, in Opus frames.

pub mod linux;
pub mod windows;

use crate::error::{ErrorView, MediaError};
use crate::types::{AudioCaptureConfig, EncodedAudioFrame};
use crate::Platform;
use vstd::prelude::*;

verus! {

/// A source of encoded sound.
pub trait AudioCapture: Send {
    /// Starts capturing.
    fn start(&mut self, config: &AudioCaptureConfig) -> Result<(), MediaError>;

    /// Waits for the next frame.
    fn next_frame(&mut self) -> Result<EncodedAudioFrame, MediaError>;

    /// Stops capturing.
    fn stop(&mut self) -> Result<(), MediaError>;

    /// Whether a capture is running.
    fn is_capturing(&self) -> bool;
}

/// A platform's way to capture sound.
#[derive(Debug, Clone, Copy, PartialEq, Eq, Structural)]
pub enum AudioBackend {
    Linux,
    Windows,
    MacOs,
}

/// The way to capture sound on a platform.
pub fn create_audio_capture(platform: Platform) -> (r: Result<AudioBackend, MediaError>)
    ensures
        match platform {
            Platform::Linux => r matches Ok(b) && b == AudioBackend::Linux,
            Platform::Windows => r matches Ok(b) && b == AudioBackend::Windows,
            Platform::MacOs => r matches Ok(b) && b == AudioBackend::MacOs,
            Platform::Other => r matches Err(e) && e@ == ErrorView::PlatformNotSupported(
                "Unsupported OS"@,
            ),
        },
{
    match platform {
        Platform::Linux => Ok(AudioBackend::Linux),
        Platform::Windows => Ok(AudioBackend::Windows),
        Platform::MacOs => Ok(AudioBackend::MacOs),
        Platform::Other => Err(MediaError::PlatformNotSupported("Unsupported OS".to_owned())),
    }
}

// ---- Frames ----

/// How many frames wait for the pipeline.
pub const AUDIO_FRAME_CAPACITY: usize = 64;

/// Bits a second that sound is encoded to.
pub const OPUS_BITRATE: i32 = 128_000;

/// The most bytes that an encoded frame takes.
pub const OPUS_MAX_FRAME: usize = 4000;

/// How many channels the encoder takes: one, or two for any other number.
pub fn opus_channels(channels: u16) -> (n: u16)
    ensures
        n == (if channels == 1 {
            1u16
        } else {
            2u16
        }),
{
    if channels == 1 {
        1
    } else {
        2
    }
}

/// How many samples of one channel a frame holds.
pub open spec fn frame_samples(config: AudioCaptureConfig) -> int {
    config.sample_rate * config.frame_size_ms / 1000
}

/// How many samples of one channel a frame holds.
pub fn frame_size_samples(config: &AudioCaptureConfig) -> (n: u32)
    requires
        config.sample_rate * config.frame_size_ms <= u32::MAX,
    ensures
        n == frame_samples(*config),
{
    config.sample_rate * config.frame_size_ms / 1000
}

/// How many samples of all channels a frame holds.
pub fn samples_per_frame(config: &AudioCaptureConfig) -> (n: u64)
    requires
        config.sample_rate * config.frame_size_ms <= u32::MAX,
    ensures
        n == frame_samples(*config) * config.channels,
{
    let samples: u64 = frame_size_samples(config) as u64;
    assert(samples * config.channels <= u32::MAX * u16::MAX) by (nonlinear_arith)
        requires
            samples <= u32::MAX,
            config.channels <= u16::MAX,
    ;
    samples * config.channels as u64
}

/// The frame of bytes that the encoder made.
pub open spec fn frame_made(data: Vec<u8>, pts: u64, config: AudioCaptureConfig) -> EncodedAudioFrame {
    EncodedAudioFrame {
        data,
        pts,
        duration: (frame_samples(config) * 1_000_000 / (config.sample_rate as int)) as u64,
        sample_rate: config.sample_rate,
        channels: config.channels,
    }
}

/// The frame of bytes that the encoder made, `pts` microseconds after the start.
pub fn audio_frame(data: Vec<u8>, pts: u64, config: &AudioCaptureConfig) -> (r: EncodedAudioFrame)
    requires
        config.sample_rate > 0,
        config.sample_rate * config.frame_size_ms <= u32::MAX,
    ensures
        r == frame_made(data, pts, *config),
{
    let samples: u64 = frame_size_samples(config) as u64;
    EncodedAudioFrame {
        data,
        pts,
        duration: samples * 1_000_000 / config.sample_rate as u64,
        sample_rate: config.sample_rate,
        channels: config.channels,
    }
}

/// Sound that is gathered into frames.
pub struct FrameChunker<T> {
    /// Samples that do not fill a frame yet.
    pub pending: Vec<T>,
    /// Samples of all channels in a frame.
    pub size: usize,
}

/// Frames one behind the other.
pub open spec fn joined<T>(frames: Seq<Vec<T>>) -> Seq<T>
    decreases frames.len(),
{
    if frames.len() == 0 {
        Seq::empty()
    } else {
        joined(frames.drop_last()) + frames.last()@
    }
}

/// Whether these are the frames that samples fill behind those that waited, and `after` what
/// waits then.
pub open spec fn chunked<T>(
    before: FrameChunker<T>,
    after: FrameChunker<T>,
    data: Seq<T>,
    frames: Seq<Vec<T>>,
) -> bool {
    &&& after.size == before.size
    &&& joined(frames) + after.pending@ == before.pending@ + data
    &&& forall|i: int| 0 <= i < frames.len() ==> (#[trigger] frames[i])@.len() == before.size
    &&& frames.len() == (before.pending@.len() + data.len()) / (before.size as nat)
}

impl<T> FrameChunker<T> {
    /// A frame holds something, and what waits does not fill one.
    pub open spec fn wf(&self) -> bool {
        0 < self.size && self.pending@.len() < self.size
    }

    /// Gathers frames of `size` samples.
    pub fn new(size: usize) -> (r: Self)
        requires
            size > 0,
        ensures
            r.wf(),
            r.size == size,
            r.pending@ == Seq::<T>::empty(),
    {
        FrameChunker { pending: Vec::new(), size }
    }

    /// Takes samples up and returns the frames that they fill.
    pub fn feed(&mut self, mut data: Vec<T>) -> (r: Vec<Vec<T>>)
        requires
            old(self).wf(),
            old(self).pending@.len() + data@.len() <= usize::MAX,
        ensures
            final(self).wf(),
            chunked(*old(self), *final(self), data@, r@),
    {
        let ghost all = self.pending@ + data@;
        let ghost total = all.len();
        let size: usize = self.size;
        let mut rest: Vec<T> = Vec::new();
        std::mem::swap(&mut rest, &mut self.pending);
        rest.append(&mut data);
        let mut r: Vec<Vec<T>> = Vec::new();
        assert(joined(r@) + rest@ =~= all);
        while rest.len() >= size
            invariant
                size > 0,
                joined(r@) + rest@ == all,
                forall|i: int| 0 <= i < r@.len() ==> (#[trigger] r@[i])@.len() == size,
                total == all.len(),
                total == r@.len() * size + rest@.len(),
            decreases rest@.len(),
        {
            let ghost before = r@;
            let ghost whole = rest@;
            let tail: Vec<T> = rest.split_off(size);
            let frame: Vec<T> = rest;
            rest = tail;
            r.push(frame);
            proof {
                assert(r@.drop_last() =~= before);
                assert(frame@ + rest@ =~= whole);
                assert(joined(r@) + rest@ =~= joined(before) + (frame@ + rest@));
                assert((before.len() + 1) * size == before.len() * size + size)
                    by (nonlinear_arith);
            }
        }
        proof {
            let n = r@.len() as int;
            assert(total as int / size as int == n) by (nonlinear_arith)
                requires
                    total == n * size + rest@.len(),
                    0 <= rest@.len() < size,
                    size > 0,
            ;
        }
        self.pending = rest;
        r
    }
}

// ---- A session ----

/// A stage of capturing sound.
#[derive(Debug, Clone, Copy, PartialEq, Eq, Structural)]
pub enum AudioStage {
    SpawnThread,
    CreateEncoder,
    SetBitrate,
    BuildStream,
    StartStream,
}

pub open spec fn stage_text(stage: AudioStage) -> Seq<char> {
    match stage {
        AudioStage::SpawnThread => "Failed to spawn audio thread: "@,
        AudioStage::CreateEncoder => "Opus encoder init failed: "@,
        AudioStage::SetBitrate => "Opus set_bitrate failed: "@,
        AudioStage::BuildStream => "Failed to build cpal input stream: "@,
        AudioStage::StartStream => "Failed to start cpal stream: "@,
    }
}

/// The error of a stage that failed.
pub fn audio_failure(stage: AudioStage, text: &str) -> (e: MediaError)
    ensures
        e@ == ErrorView::AudioError(stage_text(stage) + text@),
{
    let front: &str = match stage {
        AudioStage::SpawnThread => "Failed to spawn audio thread: ",
        AudioStage::CreateEncoder => "Opus encoder init failed: ",
        AudioStage::SetBitrate => "Opus set_bitrate failed: ",
        AudioStage::BuildStream => "Failed to build cpal input stream: ",
        AudioStage::StartStream => "Failed to start cpal stream: ",
    };
    MediaError::AudioError(front.to_owned().concat(text))
}

/// A capture of sound on a thread of its own. The thread is held by the caller.
#[derive(Debug, Clone, Copy, PartialEq, Eq, Structural)]
pub struct AudioSession {
    pub capturing: bool,
    /// The thread was told to end.
    pub shutdown: bool,
}

impl AudioSession {
    /// A session that has not started.
    pub fn new() -> (r: Self)
        ensures
            r == (AudioSession { capturing: false, shutdown: false }),
    {
        AudioSession { capturing: false, shutdown: false }
    }

    /// Whether a thread is to be started.
    pub fn start(&mut self) -> (r: Result<(), MediaError>)
        ensures
            session_asked(*old(self), *final(self), r),
    {
        if self.capturing {
            return Err(MediaError::audio("Audio capture already started"));
        }
        self.shutdown = false;
        Ok(())
    }

    /// Takes up whether the thread was started, or what is wrong.
    pub fn started(&mut self, spawned: Result<(), String>) -> (r: Result<(), MediaError>)
        ensures
            session_spawned(*old(self), *final(self), spawned, r),
    {
        match spawned {
            Ok(()) => {
                self.capturing = true;
                Ok(())
            },
            Err(t) => Err(audio_failure(AudioStage::SpawnThread, t.as_str())),
        }
    }

    /// The next frame, by what the thread handed over; `None` where it ended.
    pub fn next_frame(&self, received: Option<EncodedAudioFrame>) -> (r: Result<
        EncodedAudioFrame,
        MediaError,
    >)
        ensures
            match r {
                Ok(f) => self.capturing && received == Some(f),
                Err(e) => if !self.capturing {
                    e@ == ErrorView::AudioError("Audio capture not started"@)
                } else {
                    received is None && e@ == ErrorView::AudioError("Audio frame channel closed"@)
                },
            },
    {
        if !self.capturing {
            return Err(MediaError::audio("Audio capture not started"));
        }
        match received {
            Some(f) => Ok(f),
            None => Err(MediaError::audio("Audio frame channel closed")),
        }
    }

    /// Stops capturing. The thread is told to end, and is to be waited for where
    /// this returns `true`.
    pub fn stop(&mut self) -> (wait: bool)
        ensures
            session_ended(*old(self), *final(self), wait),
    {
        let wait: bool = self.capturing;
        self.shutdown = true;
        self.capturing = false;
        wait
    }

    /// Whether a capture is running.
    pub fn is_capturing(&self) -> (b: bool)
        ensures
            b == self.capturing,
    {
        self.capturing
    }
}

/// A frame of whole milliseconds at a rate that divides into them lasts exactly
/// that long.
pub proof fn law_frames_last_their_milliseconds(config: AudioCaptureConfig)
    requires
        config.sample_rate > 0,
        config.sample_rate % 1000 == 0,
    ensures
        frame_samples(config) * 1_000_000 / (config.sample_rate as int) == config.frame_size_ms
            * 1000,
{
    let k = config.sample_rate as int / 1000;
    let ms = config.frame_size_ms as int;
    assert(config.sample_rate == 1000 * k);
    assert(config.sample_rate * ms == 1000 * (k * ms)) by (nonlinear_arith)
        requires
            config.sample_rate == 1000 * k,
    ;
    assert(frame_samples(config) == k * ms);
    assert((k * ms) * 1_000_000 == (1000 * k) * (ms * 1000)) by (nonlinear_arith);
    assert(((1000 * k) * (ms * 1000)) / (1000 * k) == ms * 1000) by (nonlinear_arith)
        requires
            k > 0,
            ms >= 0,
    ;
}

/// A frame holds the whole samples of its milliseconds.
pub proof fn law_frames_hold_their_samples(config: AudioCaptureConfig)
    ensures
        1000 * frame_samples(config) <= config.sample_rate * config.frame_size_ms,
        config.sample_rate * config.frame_size_ms < 1000 * (frame_samples(config) + 1),
{
}

/// A frame carries the encoder's bytes and its own time, and says the rate and the channels
/// that it was captured with. It lasts as many microseconds as its samples do, rounded down.
pub proof fn law_sound_carries_its_time(data: Vec<u8>, pts: u64, config: AudioCaptureConfig)
    requires
        config.sample_rate > 0,
        config.sample_rate * config.frame_size_ms <= u32::MAX,
    ensures
        ({
            let f = frame_made(data, pts, config);
            &&& f.data == data && f.pts == pts
            &&& f.sample_rate == config.sample_rate && f.channels == config.channels
            &&& f.duration * config.sample_rate <= 1_000_000 * frame_samples(config)
            &&& 1_000_000 * frame_samples(config) < (f.duration + 1) * config.sample_rate
        }),
{
    let n = frame_samples(config) * 1_000_000;
    let r = config.sample_rate as int;
    let q = n / r;
    vstd::arithmetic::div_mod::lemma_fundamental_div_mod(n, r);
    vstd::arithmetic::div_mod::lemma_mod_bound(n, r);
    assert(0 <= config.sample_rate * config.frame_size_ms) by (nonlinear_arith);
    assert(0 <= q <= n && q * r <= n && n < (q + 1) * r) by (nonlinear_arith)
        requires
            n == r * q + n % r,
            0 <= n % r < r,
            0 <= n,
            r > 0,
    ;
}

proof fn lemma_joined_sample<T>(frames: Seq<Vec<T>>, size: int, i: int, j: int)
    requires
        0 < size,
        forall|k: int| 0 <= k < frames.len() ==> (#[trigger] frames[k])@.len() == size,
        0 <= i < frames.len(),
        0 <= j < size,
    ensures
        joined(frames).len() == size * frames.len(),
        joined(frames)[size * i + j] == frames[i]@[j],
        0 <= size * i + j < joined(frames).len(),
    decreases frames.len(),
{
    let f = frames.drop_last();
    assert forall|k: int| 0 <= k < f.len() implies (#[trigger] f[k])@.len() == size by {
        assert(f[k] == frames[k]);
    }
    if f.len() == 0 {
        assert(joined(f) =~= Seq::<T>::empty());
        assert(size * i == 0) by (nonlinear_arith)
            requires
                i == 0,
        ;
        assert(size * frames.len() == size) by (nonlinear_arith)
            requires
                frames.len() == 1,
        ;
    } else {
        let m = f.len() as int;
        lemma_joined_sample(f, size, if i < m {
            i
        } else {
            m - 1
        }, j);
        assert(size * (m + 1) == size * m + size) by (nonlinear_arith);
        if i < m {
            assert(f[i] == frames[i]);
        } else {
            assert(i == m);
        }
        assert(size * i + j < size * (m + 1) && 0 <= size * i) by (nonlinear_arith)
            requires
                0 <= i <= m,
                0 <= j < size,
        ;
    }
}

/// Gathering keeps the order of the sound and loses none of it: the sample that comes
/// `size * i + j` places behind the first that waited is the sample `j` of frame `i`, and
/// what fills no frame waits behind them, in its order.
pub proof fn law_every_sample_keeps_its_place<T>(
    before: FrameChunker<T>,
    after: FrameChunker<T>,
    data: Seq<T>,
    frames: Seq<Vec<T>>,
    i: int,
    j: int,
)
    requires
        before.wf(),
        after.wf(),
        chunked(before, after, data, frames),
        0 <= i <= frames.len(),
        0 <= j < before.size,
        before.size * i + j < before.pending@.len() + data.len(),
    ensures
        ({
            let all = before.pending@ + data;
            let at = before.size * i + j;
            &&& i < frames.len() ==> j < frames[i]@.len() && frames[i]@[j] == all[at]
            &&& i == frames.len() ==> j < after.pending@.len() && after.pending@[j] == all[at]
        }),
        after.pending@.len() < after.size,
        after.size == before.size,
{
    let size = before.size as int;
    let all = before.pending@ + data;
    let both = joined(frames) + after.pending@;
    assert(both == all);
    if frames.len() > 0 {
        if i < frames.len() {
            lemma_joined_sample(frames, size, i, j);
            assert(both[size * i + j] == joined(frames)[size * i + j]);
        } else {
            lemma_joined_sample(frames, size, 0, 0);
            assert(joined(frames).len() == size * i);
            assert(size * i + j - joined(frames).len() == j);
            assert(both[size * i + j] == after.pending@[j]);
        }
    } else {
        assert(joined(frames) =~= Seq::<T>::empty());
        assert(size * i == 0) by (nonlinear_arith)
            requires
                i == 0,
        ;
    }
}

/// What asking a session to start comes to.
pub open spec fn session_asked(
    before: AudioSession,
    after: AudioSession,
    r: Result<(), MediaError>,
) -> bool {
    match r {
        Err(e) => before.capturing && e@ == ErrorView::AudioError("Audio capture already started"@)
            && after == before,
        Ok(()) => !before.capturing && after == (AudioSession { capturing: false, shutdown: false }),
    }
}

/// What it comes to that a session's thread was spawned or could not be.
pub open spec fn session_spawned(
    before: AudioSession,
    after: AudioSession,
    spawned: Result<(), String>,
    r: Result<(), MediaError>,
) -> bool {
    &&& after == (AudioSession { capturing: before.capturing || spawned is Ok, ..before })
    &&& match spawned {
        Ok(()) => r is Ok,
        Err(t) => r matches Err(e) && e@ == ErrorView::AudioError(
            stage_text(AudioStage::SpawnThread) + t@,
        ),
    }
}

/// What stopping a session comes to.
pub open spec fn session_ended(before: AudioSession, after: AudioSession, wait: bool) -> bool {
    &&& wait == before.capturing
    &&& after == (AudioSession { capturing: false, shutdown: true })
}

/// A session that is started captures until it is stopped: it cannot be started again
/// meanwhile, stopping it waits for its thread, and afterwards it can be started again. While
/// it captures it is not asked to shut down; once it was stopped it is.
pub proof fn law_sessions_capture_until_they_are_stopped(
    a: AudioSession,
    b: AudioSession,
    c: AudioSession,
    d: AudioSession,
    e: AudioSession,
    again: Result<(), MediaError>,
    later: Result<(), MediaError>,
    f: AudioSession,
    spawned: Result<(), MediaError>,
    wait: bool,
)
    requires
        session_asked(a, b, Ok(())),
        session_spawned(b, c, Ok(()), spawned),
        session_asked(c, d, again),
        session_ended(d, e, wait),
        session_asked(e, f, later),
    ensures
        spawned is Ok,
        c.capturing && !c.shutdown,
        again is Err && d == c,
        wait,
        !e.capturing && e.shutdown,
        later is Ok && !f.shutdown,
{
}

/// A session whose thread could not be spawned can be started again, and there is no thread
/// to wait for.
pub proof fn law_a_session_without_a_thread_does_not_capture(
    a: AudioSession,
    b: AudioSession,
    c: AudioSession,
    t: String,
    r: Result<(), MediaError>,
    d: AudioSession,
    wait: bool,
    again: Result<(), MediaError>,
)
    requires
        session_asked(a, b, Ok(())),
        session_spawned(b, c, Err(t), r),
    ensures
        r is Err && !c.capturing,
        session_ended(c, d, wait) ==> !wait,
        session_asked(c, d, again) ==> again is Ok,
{
}

} // verus!
