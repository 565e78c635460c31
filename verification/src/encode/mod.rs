//! Video encoding: bitstream headers, encoder choice and the encoders' state.

pub mod annexb;
pub mod ffmpeg;
pub mod ffmpeg_d3d11;
pub mod ffmpeg_session;
pub mod gpu;
pub mod native_setup;
pub mod planes;
pub mod video_processor;
pub mod windows_amf;
pub mod windows_auto;
pub mod windows_nvenc;
pub mod windows_qsv;

use crate::capture::gpu_buffer::GpuBuffer;
use crate::error::MediaError;
use crate::types::{EncodedVideoFrame, EncoderInfo, HwAccelType, VideoCodec};
use vstd::prelude::*;

verus! {

/// What an encoder is set up with.
#[derive(Debug, Clone, Copy)]
pub struct EncoderConfig {
    pub codec: VideoCodec,
    pub width: u32,
    pub height: u32,
    pub fps: u32,
    pub bitrate_kbps: u32,
    /// Tune for low latency.
    pub low_latency: bool,
    /// Frames between key frames; 0 stands for two seconds' worth.
    pub keyframe_interval: u32,
    /// Wanted hardware, `None` for an automatic choice.
    pub preferred_hw: Option<HwAccelType>,
    /// Use FFmpeg even where a native encoder exists.
    pub force_ffmpeg: bool,
    /// Address of the Direct3D 11 device that captures.
    pub d3d11_device: Option<usize>,
    /// Address of that device's context.
    pub d3d11_context: Option<usize>,
}

impl Default for EncoderConfig {
    fn default() -> (r: Self)
        ensures
            r == (EncoderConfig {
                codec: VideoCodec::H264,
                width: 1920,
                height: 1080,
                fps: 60,
                bitrate_kbps: 10_000,
                low_latency: true,
                keyframe_interval: 0,
                preferred_hw: None,
                force_ffmpeg: false,
                d3d11_device: None,
                d3d11_context: None,
            }),
    {
        EncoderConfig {
            codec: VideoCodec::H264,
            width: 1920,
            height: 1080,
            fps: 60,
            bitrate_kbps: 10_000,
            low_latency: true,
            keyframe_interval: 0,
            preferred_hw: None,
            force_ffmpeg: false,
            d3d11_device: None,
            d3d11_context: None,
        }
    }
}

/// A video encoder that turns raw frames into encoded ones.
pub trait VideoEncoder: Send {
    /// Sets the encoder up. Comes before any call of `encode`.
    fn initialize(&mut self, config: &EncoderConfig) -> Result<(), MediaError>;

    /// Encodes one frame; encoders may hold frames back.
    fn encode(&mut self, buffer: &GpuBuffer, pts_us: u64) -> Result<
        Vec<EncodedVideoFrame>,
        MediaError,
    >;

    /// Makes the next encoded frame a key frame.
    fn request_keyframe(&mut self);

    /// Changes the target bitrate.
    fn set_bitrate(&mut self, bitrate_kbps: u32) -> Result<(), MediaError>;

    /// Changes the target frame rate. As it stands here it succeeds and does nothing;
    /// only the success is stated, since the encoder may be of any size.
    fn set_fps(&mut self, fps: u32) -> (r: Result<(), MediaError>)
        default_ensures
            r is Ok,
    {
        let _ = fps;
        Ok(())
    }

    /// Describes the encoder.
    fn encoder_info(&self) -> EncoderInfo;

    /// Hands out frames that were held back.
    fn flush(&mut self) -> Result<Vec<EncodedVideoFrame>, MediaError>;

    /// Releases everything.
    fn shutdown(&mut self);
}

/// A frame rate of at least one.
pub open spec fn rate_of(fps: u32) -> u32 {
    if fps > 1 {
        fps
    } else {
        1
    }
}

pub(crate) fn at_least_one(fps: u32) -> (r: u32)
    ensures
        r == rate_of(fps),
{
    if fps > 1 {
        fps
    } else {
        1
    }
}

/// Length of a frame in microseconds at `fps` frames a second, 0 without a
/// rate.
pub open spec fn frame_duration(fps: u32) -> int {
    if fps > 0 {
        1_000_000int / (fps as int)
    } else {
        0
    }
}

/// Length of a frame in microseconds.
pub fn frame_duration_us(fps: u32) -> (d: u64)
    ensures
        d == frame_duration(fps),
{
    if fps > 0 {
        1_000_000u64 / fps as u64
    } else {
        0
    }
}

/// Frames between key frames: the configured number, or two seconds' worth.
pub open spec fn keyframe_gap(config: EncoderConfig) -> int {
    if config.keyframe_interval > 0 {
        config.keyframe_interval as int
    } else {
        2 * (if config.fps > 1 {
            config.fps as int
        } else {
            1
        })
    }
}

/// Frames between key frames.
pub fn keyframe_gap_of(config: &EncoderConfig) -> (n: u64)
    ensures
        n == keyframe_gap(*config),
{
    if config.keyframe_interval > 0 {
        config.keyframe_interval as u64
    } else if config.fps > 1 {
        config.fps as u64 * 2
    } else {
        2
    }
}

/// Frames of a rate fill a second: as many as the rate says are no longer than a second,
/// and would be longer if each lasted a microsecond more.
pub proof fn law_frames_fill_a_second(fps: u32)
    requires
        fps > 0,
    ensures
        frame_duration(fps) * fps <= 1_000_000,
        1_000_000 < (frame_duration(fps) + 1) * fps,
{
    vstd::arithmetic::div_mod::lemma_fundamental_div_mod(1_000_000, fps as int);
    vstd::arithmetic::div_mod::lemma_mod_bound(1_000_000, fps as int);
    let q = frame_duration(fps);
    let n = fps as int;
    assert(q * n <= 1_000_000 && 1_000_000 < (q + 1) * n) by (nonlinear_arith)
        requires
            1_000_000 == n * q + 1_000_000int % n,
            0 <= 1_000_000int % n < n,
    ;
}

/// A key frame comes as often as is asked for, and every two seconds where nothing is.
pub proof fn law_key_frames_come_in_time(config: EncoderConfig)
    ensures
        keyframe_gap(config) > 0,
        config.keyframe_interval > 0 ==> keyframe_gap(config) == config.keyframe_interval,
        config.keyframe_interval == 0 && config.fps > 0 ==> keyframe_gap(config) - config.fps
            == config.fps,
        config.keyframe_interval == 0 && config.fps == 0 ==> keyframe_gap(config) == 2,
{
}

/// A rate of one or more is kept, none is raised to one.
pub proof fn law_rates_are_only_raised_from_zero(fps: u32)
    ensures
        fps >= 1 ==> rate_of(fps) == fps,
        rate_of(fps) >= 1,
        rate_of(fps) <= fps + 1,
{
}

} // verus!
