//! A session of the FFmpeg encoder: the steps that set it up, the operations
//! that encode a frame, and what is made of the packets that come out.

use crate::capture::gpu_buffer::GpuBuffer;
use crate::encode::annexb::{
    annexb_of, avcc_extradata_to_annexb, bytes_of, cache_after, law_headers_are_only_inserted,
    prepare_key_frame, with_cached_headers,
};
use crate::encode::ffmpeg::{
    candidates, copy_info, entries, hw_encoder, is_hw_encoder, names, Entry, FfmpegEncoder,
};
use crate::encode::ffmpeg_d3d11::{no_textures, textures_kept, TextureState};
use crate::encode::{
    at_least_one, frame_duration, frame_duration_us, keyframe_gap, keyframe_gap_of,
    law_frames_fill_a_second, rate_of, EncoderConfig,
};
use crate::error::{with_number, ErrorView, MediaError};
use crate::text::{chars_of, signed_dec, string_of, strip_back, trim_back, CharClass};
use crate::types::{
    EncodedVideoFrame, EncoderInfo, FrameType, HwAccelType, PixelFormat, VideoCodec,
};
use crate::Platform;
use vstd::prelude::*;

verus! {

/// Surface formats that FFmpeg frames have.
#[derive(Debug, Clone, Copy, PartialEq, Eq, Structural)]
pub enum SurfaceFormat {
    Nv12,
    Bgra,
    Yuv420p,
    Vaapi,
    Cuda,
    D3d11,
    Qsv,
}

/// The format of frames on a hardware device.
pub open spec fn hw_surface(hw: HwAccelType) -> SurfaceFormat {
    match hw {
        HwAccelType::Vaapi => SurfaceFormat::Vaapi,
        HwAccelType::Nvenc => SurfaceFormat::Cuda,
        HwAccelType::Amf => SurfaceFormat::D3d11,
        HwAccelType::Qsv => SurfaceFormat::Qsv,
        _ => SurfaceFormat::Yuv420p,
    }
}

/// The format of frames on a hardware device.
pub fn hw_pix_fmt(hw_type: HwAccelType) -> (f: SurfaceFormat)
    ensures
        f == hw_surface(hw_type),
{
    match hw_type {
        HwAccelType::Vaapi => SurfaceFormat::Vaapi,
        HwAccelType::Nvenc => SurfaceFormat::Cuda,
        HwAccelType::Amf => SurfaceFormat::D3d11,
        HwAccelType::Qsv => SurfaceFormat::Qsv,
        _ => SurfaceFormat::Yuv420p,
    }
}

/// What an encoder's frames live on: its hardware, and on Windows the Direct3D
/// device and context that AMF and NVENC share with the capture.
#[derive(Debug, Clone, Copy)]
pub struct Backing {
    pub hw: HwAccelType,
    /// The addresses of the device and its context, where they are shared.
    pub d3d11: Option<(usize, usize)>,
}

/// The backing of an encoder for a configuration.
pub open spec fn backing(platform: Platform, config: EncoderConfig, hw: HwAccelType) -> Backing {
    Backing {
        hw,
        d3d11: if platform == Platform::Windows && (hw == HwAccelType::Amf || hw
            == HwAccelType::Nvenc) {
            match (config.d3d11_device, config.d3d11_context) {
                (Some(device), Some(context)) => Some((device, context)),
                _ => None,
            }
        } else {
            None
        },
    }
}

impl Backing {
    /// The backing of an encoder for a configuration.
    pub fn of(platform: Platform, config: &EncoderConfig, hw: HwAccelType) -> (b: Backing)
        ensures
            b == backing(platform, *config, hw),
    {
        let shares: bool = platform == Platform::Windows && (hw == HwAccelType::Amf || hw
            == HwAccelType::Nvenc);
        let d3d11: Option<(usize, usize)> = match (config.d3d11_device, config.d3d11_context) {
            (Some(device), Some(context)) => if shares {
                Some((device, context))
            } else {
                None
            },
            _ => None,
        };
        Backing { hw, d3d11 }
    }
}

/// Whether an encoder takes its frames from a pool on its device.
pub open spec fn pooled(b: Backing) -> bool {
    b.hw == HwAccelType::Vaapi || b.hw == HwAccelType::Nvenc || b.d3d11 is Some
}

fn is_pooled(b: Backing) -> (r: bool)
    ensures
        r == pooled(b),
{
    b.hw == HwAccelType::Vaapi || b.hw == HwAccelType::Nvenc || b.d3d11.is_some()
}

/// The format of the frames in an encoder's pool.
pub open spec fn pool_surface(b: Backing) -> SurfaceFormat {
    if b.d3d11 is Some {
        SurfaceFormat::D3d11
    } else {
        hw_surface(b.hw)
    }
}

fn pool_surface_of(b: Backing) -> (f: SurfaceFormat)
    ensures
        f == pool_surface(b),
{
    if b.d3d11.is_some() {
        SurfaceFormat::D3d11
    } else {
        hw_pix_fmt(b.hw)
    }
}

/// The format that an encoder is opened with.
pub open spec fn coded_surface(b: Backing) -> SurfaceFormat {
    if hw_encoder(b.hw) && pooled(b) {
        pool_surface(b)
    } else if hw_encoder(b.hw) {
        SurfaceFormat::Nv12
    } else {
        SurfaceFormat::Yuv420p
    }
}

/// The format of an encoder's frames in memory.
pub open spec fn memory_surface(hw: HwAccelType) -> SurfaceFormat {
    match hw {
        HwAccelType::Nvenc => SurfaceFormat::Bgra,
        HwAccelType::Software => SurfaceFormat::Yuv420p,
        _ => SurfaceFormat::Nv12,
    }
}

pub(crate) fn memory_surface_of(hw: HwAccelType) -> (f: SurfaceFormat)
    ensures
        f == memory_surface(hw),
{
    match hw {
        HwAccelType::Nvenc => SurfaceFormat::Bgra,
        HwAccelType::Software => SurfaceFormat::Yuv420p,
        _ => SurfaceFormat::Nv12,
    }
}

// ---- Setting up ----

/// What a codec context is set to before its encoder is opened.
#[derive(Debug, Clone, Copy, PartialEq, Eq, Structural)]
pub struct CodecSettings {
    pub bit_rate: i64,
    pub rc_max_rate: i64,
    pub rc_buffer_size: i32,
    pub width: i32,
    pub height: i32,
    /// Frames a second; the time base is its inverse.
    pub rate: i32,
    pub gop_size: i32,
    pub max_b_frames: i32,
    pub thread_count: i32,
    /// Level of the profile, where it is fixed.
    pub level: Option<i32>,
    pub surface: SurfaceFormat,
    pub low_delay: bool,
}

/// Settings for a configuration. Sizes that do not fit FFmpeg's 32 bits are cut
/// to their low bits.
pub open spec fn settings(config: EncoderConfig, b: Backing) -> CodecSettings {
    CodecSettings {
        bit_rate: (config.bitrate_kbps * 1000) as i64,
        rc_max_rate: (config.bitrate_kbps * 1000) as i64,
        rc_buffer_size: ((config.bitrate_kbps * 2000) / (config.fps as int)) as i32,
        width: config.width as i32,
        height: config.height as i32,
        rate: config.fps as i32,
        gop_size: keyframe_gap(config) as i32,
        max_b_frames: 0,
        thread_count: 1,
        level: if config.codec == VideoCodec::H264 {
            Some(31i32)
        } else {
            None
        },
        surface: coded_surface(b),
        low_delay: config.low_latency,
    }
}

/// The kind of device that a pool of frames lives on.
#[derive(Debug, Clone, Copy, PartialEq, Eq, Structural)]
pub enum DeviceKind {
    Vaapi,
    Cuda,
    /// A Direct3D device that is there already, by its address and that of its
    /// context.
    D3d11 { device: usize, context: usize },
}

/// A device and the pool of frames on it.
#[derive(Debug, Clone, Copy)]
pub struct PoolPlan {
    pub device: DeviceKind,
    /// The device's file, where it has to be named.
    pub path: Option<&'static str>,
    /// Format of the frames on the device.
    pub surface: SurfaceFormat,
    /// Format of the frames when they are moved to memory.
    pub memory: SurfaceFormat,
    /// How Direct3D textures in the pool can be bound.
    pub bind_flags: Option<u32>,
    pub pool_size: i32,
}

/// Textures that shaders read.
pub const BIND_SHADER_RESOURCE: u32 = 8;

/// Textures that shaders read and that can be drawn to.
pub const BIND_RENDER_TARGET: u32 = 40;

/// Something that setting up acquires and has to release when it fails.
#[derive(Debug, Clone, Copy, PartialEq, Eq, Structural)]
pub enum Resource {
    Context,
    Device,
    Pool,
    HwFrame,
    MemoryFrame,
    Packet,
}

/// A step of setting up.
#[derive(Debug, Clone, Copy, PartialEq, Eq, Structural)]
pub enum InitStep {
    FindEncoder,
    AllocContext,
    CreateDevice,
    AllocPool,
    InitPool,
    SharePool,
    Open,
    AllocFrames,
    Finish,
}

/// What came of a step. Codes below zero are FFmpeg's errors, with its text.
#[derive(Debug, Clone)]
pub enum InitReply {
    Found(bool),
    ContextAllocated(bool),
    DeviceCreated { code: i32, present: bool, message: String },
    PoolAllocated(bool),
    PoolInitialized { code: i32, message: String },
    PoolShared(bool),
    Opened { code: i32, message: String },
    FramesAllocated { hw_frame: bool, memory_frame: bool, packet: bool },
}

/// The step that a reply answers.
pub open spec fn answered(reply: InitReply) -> InitStep {
    match reply {
        InitReply::Found(_) => InitStep::FindEncoder,
        InitReply::ContextAllocated(_) => InitStep::AllocContext,
        InitReply::DeviceCreated { .. } => InitStep::CreateDevice,
        InitReply::PoolAllocated(_) => InitStep::AllocPool,
        InitReply::PoolInitialized { .. } => InitStep::InitPool,
        InitReply::PoolShared(_) => InitStep::SharePool,
        InitReply::Opened { .. } => InitStep::Open,
        InitReply::FramesAllocated { .. } => InitStep::AllocFrames,
    }
}

/// What is held when a step is taken, in the order of release.
pub open spec fn held(step: InitStep, b: Backing) -> Seq<Resource> {
    match step {
        InitStep::FindEncoder | InitStep::AllocContext => Seq::empty(),
        InitStep::CreateDevice => seq![Resource::Context],
        InitStep::AllocPool => seq![Resource::Device, Resource::Context],
        InitStep::InitPool | InitStep::SharePool => seq![
            Resource::Pool,
            Resource::Device,
            Resource::Context,
        ],
        InitStep::Open | InitStep::AllocFrames => if pooled(b) {
            seq![Resource::Pool, Resource::Device, Resource::Context]
        } else {
            seq![Resource::Context]
        },
        InitStep::Finish => if pooled(b) {
            seq![
                Resource::HwFrame,
                Resource::MemoryFrame,
                Resource::Packet,
                Resource::Pool,
                Resource::Device,
                Resource::Context,
            ]
        } else {
            seq![Resource::HwFrame, Resource::MemoryFrame, Resource::Packet, Resource::Context]
        },
    }
}

pub open spec fn one_if(b: bool, r: Resource) -> Seq<Resource> {
    if b {
        seq![r]
    } else {
        Seq::empty()
    }
}

/// What a step acquired.
pub open spec fn gained(reply: InitReply) -> Seq<Resource> {
    match reply {
        InitReply::ContextAllocated(ok) => one_if(ok, Resource::Context),
        InitReply::DeviceCreated { present, .. } => one_if(present, Resource::Device),
        InitReply::PoolAllocated(ok) => one_if(ok, Resource::Pool),
        InitReply::FramesAllocated { hw_frame, memory_frame, packet } => one_if(
            hw_frame,
            Resource::HwFrame,
        ) + one_if(memory_frame, Resource::MemoryFrame) + one_if(packet, Resource::Packet),
        _ => Seq::empty(),
    }
}

/// An FFmpeg error: its code, and its text without the padding.
pub open spec fn ff_error(code: int, message: Seq<char>) -> ErrorView {
    ErrorView::FfmpegError(code, strip_back(message, CharClass::Null))
}

/// The error that a reply amounts to.
pub open spec fn init_error(name: Seq<char>, reply: InitReply) -> Option<ErrorView> {
    match reply {
        InitReply::Found(ok) => if ok {
            None
        } else {
            Some(ErrorView::EncoderInitFailed("Encoder '"@ + name + "' not found"@))
        },
        InitReply::ContextAllocated(ok) => if ok {
            None
        } else {
            Some(ErrorView::EncoderInitFailed("Failed to allocate AVCodecContext"@))
        },
        InitReply::DeviceCreated { code, present, message } => if code < 0 || !present {
            Some(ff_error(code as int, message@))
        } else {
            None
        },
        InitReply::PoolAllocated(ok) => if ok {
            None
        } else {
            Some(ErrorView::EncoderInitFailed("Failed to allocate HW frames context"@))
        },
        InitReply::PoolInitialized { code, message } => if code < 0 {
            Some(ff_error(code as int, message@))
        } else {
            None
        },
        InitReply::PoolShared(ok) => if ok {
            None
        } else {
            Some(ErrorView::EncoderInitFailed("av_buffer_ref for hw_frames_ctx failed"@))
        },
        InitReply::Opened { code, message } => if code < 0 {
            Some(ff_error(code as int, message@))
        } else {
            None
        },
        InitReply::FramesAllocated { hw_frame, memory_frame, packet } => if hw_frame && memory_frame
            && packet {
            None
        } else {
            Some(ErrorView::EncoderInitFailed("Failed to allocate AVFrame/AVPacket"@))
        },
    }
}

/// The step behind `step`. Encoders without a pool skip the steps that make
/// one.
pub open spec fn step_after(step: InitStep, b: Backing) -> InitStep {
    match step {
        InitStep::FindEncoder => InitStep::AllocContext,
        InitStep::AllocContext => if pooled(b) {
            InitStep::CreateDevice
        } else {
            InitStep::Open
        },
        InitStep::CreateDevice => InitStep::AllocPool,
        InitStep::AllocPool => InitStep::InitPool,
        InitStep::InitPool => InitStep::SharePool,
        InitStep::SharePool => InitStep::Open,
        InitStep::Open => InitStep::AllocFrames,
        InitStep::AllocFrames | InitStep::Finish => InitStep::Finish,
    }
}

/// How setting up goes on after a reply.
#[derive(Debug)]
pub enum InitNext {
    /// Take the next step.
    Step(InitStep),
    /// Release what is held, in order, and give up.
    Fail { error: MediaError, release: Vec<Resource> },
}

/// The error for an FFmpeg code, with FFmpeg's text for it.
pub fn ff_err(code: i32, message: &str) -> (e: MediaError)
    ensures
        e@ == ff_error(code as int, message@),
{
    let v: Vec<char> = chars_of(message);
    let t: Vec<char> = trim_back(v.as_slice(), CharClass::Null);
    MediaError::FfmpegError { code, message: string_of(t.as_slice()) }
}

fn error_of(name: &str, reply: &InitReply) -> (r: Option<MediaError>)
    ensures
        match r {
            Some(e) => init_error(name@, *reply) == Some(e@),
            None => init_error(name@, *reply) is None,
        },
{
    match reply {
        InitReply::Found(ok) => if *ok {
            None
        } else {
            Some(
                MediaError::EncoderInitFailed(
                    "Encoder '".to_owned().concat(name).concat("' not found"),
                ),
            )
        },
        InitReply::ContextAllocated(ok) => if *ok {
            None
        } else {
            Some(MediaError::init_failed("Failed to allocate AVCodecContext"))
        },
        InitReply::DeviceCreated { code, present, message } => if *code < 0 || !*present {
            Some(ff_err(*code, message.as_str()))
        } else {
            None
        },
        InitReply::PoolAllocated(ok) => if *ok {
            None
        } else {
            Some(MediaError::init_failed("Failed to allocate HW frames context"))
        },
        InitReply::PoolInitialized { code, message } => if *code < 0 {
            Some(ff_err(*code, message.as_str()))
        } else {
            None
        },
        InitReply::PoolShared(ok) => if *ok {
            None
        } else {
            Some(MediaError::init_failed("av_buffer_ref for hw_frames_ctx failed"))
        },
        InitReply::Opened { code, message } => if *code < 0 {
            Some(ff_err(*code, message.as_str()))
        } else {
            None
        },
        InitReply::FramesAllocated { hw_frame, memory_frame, packet } => if *hw_frame
            && *memory_frame && *packet {
            None
        } else {
            Some(MediaError::init_failed("Failed to allocate AVFrame/AVPacket"))
        },
    }
}

fn release_of(b: Backing, reply: &InitReply) -> (r: Vec<Resource>)
    ensures
        r@ == gained(*reply) + held(answered(*reply), b),
{
    let mut r: Vec<Resource> = Vec::new();
    let with_pool: bool = match reply {
        InitReply::Found(_) => {
            return r;
        },
        InitReply::ContextAllocated(ok) => {
            if *ok {
                r.push(Resource::Context);
            }
            assert(r@ =~= gained(*reply) + held(answered(*reply), b));
            return r;
        },
        InitReply::DeviceCreated { present, .. } => {
            if *present {
                r.push(Resource::Device);
            }
            r.push(Resource::Context);
            assert(r@ =~= gained(*reply) + held(answered(*reply), b));
            return r;
        },
        InitReply::PoolAllocated(ok) => {
            if *ok {
                r.push(Resource::Pool);
            }
            r.push(Resource::Device);
            r.push(Resource::Context);
            assert(r@ =~= gained(*reply) + held(answered(*reply), b));
            return r;
        },
        InitReply::PoolInitialized { .. } => true,
        InitReply::PoolShared(_) => true,
        InitReply::Opened { .. } => is_pooled(b),
        InitReply::FramesAllocated { hw_frame, memory_frame, packet } => {
            if *hw_frame {
                r.push(Resource::HwFrame);
            }
            if *memory_frame {
                r.push(Resource::MemoryFrame);
            }
            if *packet {
                r.push(Resource::Packet);
            }
            is_pooled(b)
        },
    };
    assert(r@ =~= gained(*reply));
    if with_pool {
        r.push(Resource::Pool);
        r.push(Resource::Device);
    }
    r.push(Resource::Context);
    assert(r@ =~= gained(*reply) + held(answered(*reply), b));
    r
}

/// How setting up the encoder `name` goes on after a reply: with the next step,
/// or by releasing what is held and giving up.
pub fn init_step(name: &str, b: Backing, reply: &InitReply) -> (r: InitNext)
    ensures
        match r {
            InitNext::Step(s) => init_error(name@, *reply) is None && s == step_after(
                answered(*reply),
                b,
            ),
            InitNext::Fail { error, release } => init_error(name@, *reply) == Some(error@)
                && release@ == gained(*reply) + held(answered(*reply), b),
        },
{
    match error_of(name, reply) {
        Some(error) => InitNext::Fail { error, release: release_of(b, reply) },
        None => InitNext::Step(
            match reply {
                InitReply::Found(_) => InitStep::AllocContext,
                InitReply::ContextAllocated(_) => if is_pooled(b) {
                    InitStep::CreateDevice
                } else {
                    InitStep::Open
                },
                InitReply::DeviceCreated { .. } => InitStep::AllocPool,
                InitReply::PoolAllocated(_) => InitStep::InitPool,
                InitReply::PoolInitialized { .. } => InitStep::SharePool,
                InitReply::PoolShared(_) => InitStep::Open,
                InitReply::Opened { .. } => InitStep::AllocFrames,
                InitReply::FramesAllocated { .. } => InitStep::Finish,
            },
        ),
    }
}

/// Whether this is the device and pool that an encoder needs, `None` where it needs none.
pub open spec fn pool_planned(b: Backing, r: Option<PoolPlan>) -> bool {
    match r {
        None => !pooled(b),
        Some(p) => {
            &&& pooled(b)
            &&& p.surface == pool_surface(b)
            &&& p.memory == (if b.hw == HwAccelType::Nvenc {
                SurfaceFormat::Bgra
            } else {
                SurfaceFormat::Nv12
            })
            &&& p.pool_size == 4
            &&& match b.d3d11 {
                Some((device, context)) => p.device == (DeviceKind::D3d11 { device, context })
                    && p.path is None && p.bind_flags == Some(
                    if b.hw == HwAccelType::Nvenc {
                        BIND_RENDER_TARGET
                    } else {
                        BIND_SHADER_RESOURCE
                    },
                ),
                None => p.bind_flags is None && if b.hw == HwAccelType::Vaapi {
                    p.device == DeviceKind::Vaapi && (p.path matches Some(f) && f@
                        == "/dev/dri/renderD128"@)
                } else {
                    p.device == DeviceKind::Cuda && p.path is None
                },
            }
        },
    }
}

/// The device and pool that an encoder needs, `None` where it needs none.
pub fn plan_pool(b: Backing) -> (r: Option<PoolPlan>)
    ensures
        pool_planned(b, r),
{
    if !is_pooled(b) {
        return None;
    }
    let nvenc: bool = b.hw == HwAccelType::Nvenc;
    let vaapi: bool = b.hw == HwAccelType::Vaapi;
    Some(
        PoolPlan {
            device: match b.d3d11 {
                Some((device, context)) => DeviceKind::D3d11 { device, context },
                None => if vaapi {
                    DeviceKind::Vaapi
                } else {
                    DeviceKind::Cuda
                },
            },
            path: if vaapi && b.d3d11.is_none() {
                Some("/dev/dri/renderD128")
            } else {
                None
            },
            surface: pool_surface_of(b),
            memory: if nvenc {
                SurfaceFormat::Bgra
            } else {
                SurfaceFormat::Nv12
            },
            bind_flags: match b.d3d11 {
                Some(_) => Some(
                    if nvenc {
                        BIND_RENDER_TARGET
                    } else {
                        BIND_SHADER_RESOURCE
                    },
                ),
                None => None,
            },
            pool_size: 4,
        },
    )
}

/// The settings of a codec context for a configuration.
pub fn plan_settings(config: &EncoderConfig, b: Backing) -> (s: CodecSettings)
    requires
        config.fps > 0,
    ensures
        s == settings(*config, b),
{
    let bitrate: i64 = config.bitrate_kbps as i64 * 1000;
    let gap: u64 = keyframe_gap_of(config);
    let surface: SurfaceFormat = if is_hw_encoder(b.hw) && is_pooled(b) {
        pool_surface_of(b)
    } else if is_hw_encoder(b.hw) {
        SurfaceFormat::Nv12
    } else {
        SurfaceFormat::Yuv420p
    };
    CodecSettings {
        bit_rate: bitrate,
        rc_max_rate: bitrate,
        rc_buffer_size: ((bitrate * 2) / config.fps as i64) as i32,
        width: config.width as i32,
        height: config.height as i32,
        rate: config.fps as i32,
        gop_size: gap as i32,
        max_b_frames: 0,
        thread_count: 1,
        level: if config.codec == VideoCodec::H264 {
            Some(31)
        } else {
            None
        },
        surface,
        low_delay: config.low_latency,
    }
}

// ---- Encoding ----

/// One operation of encoding a frame.
#[derive(Debug, Clone, Copy, PartialEq, Eq, Structural)]
pub enum EncodeOp {
    /// Make the encoder's CUDA context current.
    BindCuda,
    /// Take an empty frame from the device's pool.
    TakeHwFrame,
    /// Copy the picture on the device.
    CopyDevice,
    /// Make the memory frame writable, with these properties if it is new.
    EnsureWritable { width: u32, height: u32, surface: SurfaceFormat },
    CopyNv12,
    CopyBgra,
    /// Convert the colours, with a new converter where there is none.
    Scale { create: bool, target: SurfaceFormat },
    /// Refuse the pixel format.
    RefuseP010,
    /// Read a slice of a texture into the memory frame.
    StageTexture { texture: usize, array_index: u32 },
    /// Bring a slice of a texture into the frame on the device, which then has
    /// this size.
    ConvertTexture { texture: usize, array_index: u32, width: u32, height: u32 },
    /// Move the memory frame to the device.
    Upload { width: u32, height: u32 },
    /// Hand a frame to the encoder under this number: a key frame as an I picture
    /// that is flagged as key, any other with neither mark.
    Send { hw_frame: bool, pts: u64, key: bool },
}

pub open spec fn send_op(e: FfmpegEncoder, hw_frame: bool) -> Seq<EncodeOp> {
    seq![EncodeOp::Send { hw_frame, pts: e.frame_count, key: e.force_keyframe }]
}

/// The operations that put a picture in memory into the memory frame.
pub open spec fn fill_ops(e: FfmpegEncoder, format: PixelFormat, hw: HwAccelType) -> Seq<EncodeOp> {
    match format {
        PixelFormat::NV12 => seq![EncodeOp::CopyNv12],
        PixelFormat::BGRA => if memory_surface(hw) == SurfaceFormat::Bgra {
            seq![EncodeOp::CopyBgra]
        } else {
            seq![EncodeOp::Scale { create: !e.has_scaler, target: memory_surface(hw) }]
        },
        PixelFormat::P010 => seq![EncodeOp::RefuseP010],
    }
}

/// The operations that encode a picture in memory.
pub open spec fn memory_ops(
    e: FfmpegEncoder,
    format: PixelFormat,
    width: u32,
    height: u32,
    hw: HwAccelType,
) -> Seq<EncodeOp> {
    let on_device = hw_encoder(hw) && e.has_hw_frames;
    seq![EncodeOp::EnsureWritable { width, height, surface: memory_surface(hw) }] + fill_ops(
        e,
        format,
        hw,
    ) + (if format == PixelFormat::P010 {
        Seq::empty()
    } else if on_device {
        seq![EncodeOp::TakeHwFrame, EncodeOp::Upload { width, height }] + send_op(e, true)
    } else {
        send_op(e, false)
    })
}

/// What encoding a buffer takes: the operations in order, or the error that
/// refuses it at once.
pub open spec fn encode_plan(
    e: FfmpegEncoder,
    platform: Platform,
    buffer: GpuBuffer,
    cuda_loaded: bool,
) -> Result<Seq<EncodeOp>, ErrorView> {
    if !e.initialized {
        Err(ErrorView::EncoderNotInitialized)
    } else {
        match buffer {
            GpuBuffer::CpuBuffer { format, width, height, .. } => Ok(
                memory_ops(e, format, width, height, e.info->0.hw_type),
            ),
            GpuBuffer::DmaBuf { .. } if platform == Platform::Linux => Err(
                ErrorView::EncodeError("DMA-BUF zero-copy import not yet implemented"@),
            ),
            GpuBuffer::CudaPointer { .. } if platform == Platform::Linux => if !cuda_loaded {
                Err(ErrorView::EncodeError("CUDA driver library not loaded"@))
            } else if !e.has_hw_device {
                Err(ErrorView::EncodeError("hw_device_ctx is null"@))
            } else {
                Ok(
                    seq![EncodeOp::BindCuda, EncodeOp::TakeHwFrame, EncodeOp::CopyDevice] + send_op(
                        e,
                        true,
                    ),
                )
            },
            GpuBuffer::D3D11Texture { texture, array_index } if platform == Platform::Windows => {
                let c = e.config->0;
                if e.has_hw_frames {
                    Ok(
                        seq![
                            EncodeOp::TakeHwFrame,
                            EncodeOp::ConvertTexture {
                                texture,
                                array_index,
                                width: c.width,
                                height: c.height,
                            },
                        ] + send_op(e, true),
                    )
                } else if c.d3d11_device is None {
                    Err(ErrorView::EncodeError("D3D11 device not available in config"@))
                } else if c.d3d11_context is None {
                    Err(ErrorView::EncodeError("D3D11 context not available in config"@))
                } else {
                    Ok(seq![EncodeOp::StageTexture { texture, array_index }] + send_op(e, false))
                }
            },
            _ => Err(ErrorView::EncodeError("Unsupported buffer type for this platform"@)),
        }
    }
}

/// The times that frames were sent with, by number.
pub open spec fn sent_times(sent: Seq<(u64, u64)>) -> Map<u64, u64>
    decreases sent.len(),
{
    if sent.len() == 0 {
        Map::empty()
    } else {
        sent_times(sent.drop_last()).insert(sent.last().0, sent.last().1)
    }
}

/// The time of the frame of a number: the one that it was sent with, 0 where none
/// is known.
pub open spec fn time_of(times: Map<u64, u64>, number: int) -> u64 {
    if 0 <= number <= u64::MAX && times.contains_key(number as u64) {
        times[number as u64]
    } else {
        0
    }
}

/// The times of the frames from a number on.
pub open spec fn times_from(times: Map<u64, u64>, number: int) -> Map<u64, u64> {
    times.restrict(Set::new(|k: u64| number <= k))
}

fn find_time(sent: &Vec<(u64, u64)>, number: i64) -> (t: u64)
    ensures
        t == time_of(sent_times(sent@), number as int),
{
    let mut t: u64 = 0;
    for k in 0..sent.len()
        invariant
            t == time_of(sent_times(sent@.take(k as int)), number as int),
    {
        if number >= 0 && sent[k].0 == number as u64 {
            t = sent[k].1;
        }
        assert(sent@.take(k as int + 1).drop_last() =~= sent@.take(k as int));
    }
    assert(sent@.take(sent@.len() as int) =~= sent@);
    t
}

fn keep_times_from(sent: &Vec<(u64, u64)>, number: i64) -> (r: Vec<(u64, u64)>)
    ensures
        sent_times(r@) == times_from(sent_times(sent@), number as int),
{
    let mut r: Vec<(u64, u64)> = Vec::new();
    assert(sent_times(r@) =~= times_from(sent_times(sent@.take(0)), number as int));
    for k in 0..sent.len()
        invariant
            sent_times(r@) == times_from(sent_times(sent@.take(k as int)), number as int),
    {
        let ghost before = r@;
        let ghost times = sent_times(sent@.take(k as int));
        assert(sent@.take(k as int + 1).drop_last() =~= sent@.take(k as int));
        if number < 0 || sent[k].0 >= number as u64 {
            r.push(sent[k]);
            assert(r@.drop_last() =~= before);
        }
        assert(sent_times(r@) =~= times_from(
            times.insert(sent@[k as int].0, sent@[k as int].1),
            number as int,
        ));
    }
    assert(sent@.take(sent@.len() as int) =~= sent@);
    r
}

/// What asking the encoder for a packet gave.
#[derive(Debug)]
pub enum PacketStatus {
    /// A packet is there.
    Packet,
    /// No more for now.
    Done,
    Failed(MediaError),
}

/// Whether `r` is what asking for a packet gave.
pub open spec fn packet_asked(
    code: i32,
    again: i32,
    end: i32,
    message: Seq<char>,
    r: PacketStatus,
) -> bool {
    match r {
        PacketStatus::Done => code == again || code == end,
        PacketStatus::Failed(e) => code != again && code != end && code < 0 && e@ == ff_error(
            code as int,
            message,
        ),
        PacketStatus::Packet => code != again && code != end && code >= 0,
    }
}

/// Reads the code of a request for a packet. `again` and `end` are the codes
/// for needing more input and for the end of the stream.
pub fn packet_status(code: i32, again: i32, end: i32, message: &str) -> (r: PacketStatus)
    ensures
        packet_asked(code, again, end, message@, r),
{
    if code == again || code == end {
        PacketStatus::Done
    } else if code < 0 {
        PacketStatus::Failed(ff_err(code, message))
    } else {
        PacketStatus::Packet
    }
}

/// What looking for the encoder's CUDA context found.
#[derive(Debug, Clone, Copy, PartialEq, Eq, Structural)]
pub enum CudaProbe {
    NoDeviceData,
    NoHardwareContext,
    NoCudaContext,
    /// The status of making the context current.
    Bound(i32),
}

/// The error behind a probe, if it is one.
pub open spec fn probe_error(probe: CudaProbe) -> Option<ErrorView> {
    match probe {
        CudaProbe::NoDeviceData => Some(ErrorView::EncodeError("hw_device_ctx data is null"@)),
        CudaProbe::NoHardwareContext => Some(ErrorView::EncodeError("hwctx is null"@)),
        CudaProbe::NoCudaContext => Some(ErrorView::EncodeError("ffmpeg_ctx is null"@)),
        CudaProbe::Bound(status) => if status == 0 {
            None
        } else {
            Some(ErrorView::EncodeError("cuCtxSetCurrent failed: "@ + signed_dec(status as int)))
        },
    }
}

/// Whether the encoder's CUDA context can be used.
pub fn cuda_bind_result(probe: CudaProbe) -> (r: Result<(), MediaError>)
    ensures
        match r {
            Ok(_) => probe_error(probe) is None,
            Err(e) => probe_error(probe) == Some(e@),
        },
{
    match probe {
        CudaProbe::NoDeviceData => Err(MediaError::encode("hw_device_ctx data is null")),
        CudaProbe::NoHardwareContext => Err(MediaError::encode("hwctx is null")),
        CudaProbe::NoCudaContext => Err(MediaError::encode("ffmpeg_ctx is null")),
        CudaProbe::Bound(status) => if status == 0 {
            Ok(())
        } else {
            Err(MediaError::EncodeError(with_number("cuCtxSetCurrent failed: ", status as i64)))
        },
    }
}

/// The error of an operation that failed. Those of FFmpeg bring a code and its
/// text; the converter and the refusal have their own.
pub open spec fn op_error(op: EncodeOp, code: int, message: Seq<char>) -> ErrorView {
    match op {
        EncodeOp::Scale { .. } => ErrorView::EncodeError(
            "Failed to create SwsContext for BGRA\u{2192}NV12"@,
        ),
        EncodeOp::RefuseP010 => ErrorView::EncodeError("P010 pixel format not supported"@),
        _ => ff_error(code, message),
    }
}

/// The error of an operation that failed.
pub fn op_failure(op: EncodeOp, code: i32, message: &str) -> (e: MediaError)
    ensures
        e@ == op_error(op, code as int, message@),
{
    match op {
        EncodeOp::Scale { .. } => MediaError::encode(
            "Failed to create SwsContext for BGRA\u{2192}NV12",
        ),
        EncodeOp::RefuseP010 => MediaError::encode("P010 pixel format not supported"),
        _ => ff_err(code, message),
    }
}

/// What a change of bitrate sets in the codec context.
#[derive(Debug, Clone, Copy, PartialEq, Eq, Structural)]
pub struct RateUpdate {
    pub bit_rate: i64,
    pub rc_max_rate: i64,
    pub rc_buffer_size: i32,
}

/// How setting up an encoder starts: with the encoders to try, or with the error
/// that it is set up.
pub open spec fn start_of(
    e: FfmpegEncoder,
    platform: Platform,
    config: EncoderConfig,
    installed: Seq<Seq<char>>,
) -> Result<Seq<(Seq<char>, HwAccelType)>, ErrorView> {
    if e.initialized {
        Err(ErrorView::EncoderInitFailed("Encoder already initialized"@))
    } else {
        Ok(candidates(platform, config.codec, config.preferred_hw, installed))
    }
}

/// The errors behind a list.
pub open spec fn error_views(v: Seq<MediaError>) -> Seq<ErrorView> {
    v.map_values(|e: MediaError| e@)
}

/// What to do after `errors` of `n` candidates failed: try the next one, or fail
/// with the last error.
pub open spec fn attempt(n: nat, errors: Seq<ErrorView>) -> Result<int, ErrorView> {
    if errors.len() < n {
        Ok(errors.len() as int)
    } else if errors.len() > 0 {
        Err(errors.last())
    } else {
        Err(ErrorView::EncoderInitFailed("No encoders available"@))
    }
}

/// The name, hardware and codecs that an encoder is described with.
pub open spec fn description(e: FfmpegEncoder) -> (Seq<char>, HwAccelType, Seq<VideoCodec>) {
    match e.info {
        Some(own) => (own.name@, own.hw_type, own.supported_codecs@),
        None => ("uninitialized"@, HwAccelType::Software, Seq::empty()),
    }
}

/// The codec and frame rate that an encoder is drained with, `None` where nothing
/// can be held back.
pub open spec fn drained_as(e: FfmpegEncoder) -> Option<(VideoCodec, u32)> {
    if e.initialized {
        Some((e.config->0.codec, e.config->0.fps))
    } else {
        None
    }
}

/// An encoder after a key frame was asked for.
pub open spec fn key_asked(e: FfmpegEncoder) -> FfmpegEncoder {
    FfmpegEncoder { force_keyframe: true, ..e }
}

/// An encoder after it took a frame.
pub open spec fn frame_taken(e: FfmpegEncoder) -> FfmpegEncoder {
    FfmpegEncoder { frame_count: (e.frame_count + 1) as u64, force_keyframe: false, ..e }
}

/// Whether `after` is what shutting down leaves of `before`: nothing of the
/// session but the header cache.
pub open spec fn shut_down(before: FfmpegEncoder, after: FfmpegEncoder) -> bool {
    if before.initialized {
        &&& after == (FfmpegEncoder {
            initialized: false,
            force_keyframe: false,
            frame_count: 0,
            config: None,
            info: None,
            has_hw_device: false,
            has_hw_frames: false,
            has_scaler: false,
            textures: textures_kept(before.textures),
            sent: after.sent,
            ..before
        })
        &&& after.sent@.len() == 0
    } else {
        after == before
    }
}

/// Whether `after` is `before` once the encoder `name` is open, with this extradata.
pub open spec fn set_up(
    before: FfmpegEncoder,
    after: FfmpegEncoder,
    config: EncoderConfig,
    name: Seq<char>,
    b: Backing,
    extradata: Seq<u8>,
) -> bool {
    &&& after.wf()
    &&& after.initialized
    &&& !after.force_keyframe
    &&& after.frame_count == 0
    &&& after.config == Some(config)
    &&& description(after) == (name, b.hw, seq![config.codec])
    &&& bytes_of(after.sps_pps_cache) == (if annexb_of(extradata).len() > 0 {
        Some(annexb_of(extradata))
    } else {
        None
    })
    &&& after.has_hw_device == pooled(b)
    &&& after.has_hw_frames == pooled(b)
    &&& after.has_scaler == before.has_scaler
    &&& after.textures == before.textures
    &&& after.sent@.len() == 0
}

/// Whether `after` is `before` once a frame was planned: the time of one that is sent is kept
/// under its number.
pub open spec fn time_noted(
    before: FfmpegEncoder,
    after: FfmpegEncoder,
    ops: Seq<EncodeOp>,
    pts_us: u64,
) -> bool {
    &&& sent_times(after.sent@) == (if ops.last() is Send {
        sent_times(before.sent@).insert(before.frame_count, pts_us)
    } else {
        sent_times(before.sent@)
    })
    &&& after == (FfmpegEncoder { sent: after.sent, ..before })
}

/// Whether `f` is the frame that a packet becomes, and `after` what the encoder is then.
pub open spec fn packet_turned(
    before: FfmpegEncoder,
    after: FfmpegEncoder,
    data: Seq<u8>,
    is_key: bool,
    packet_pts: i64,
    codec: VideoCodec,
    fps: u32,
    prepend_headers: bool,
    f: EncodedVideoFrame,
) -> bool {
    &&& f.data@ == (if is_key && prepend_headers {
        with_cached_headers(data, codec, bytes_of(before.sps_pps_cache))
    } else {
        data
    })
    &&& f.frame_type == (if is_key {
        FrameType::Key
    } else {
        FrameType::Inter
    })
    &&& f.pts == time_of(sent_times(before.sent@), packet_pts as int)
    &&& f.duration == frame_duration(fps)
    &&& f.codec == codec
    &&& bytes_of(after.sps_pps_cache) == (if is_key && prepend_headers {
        cache_after(data, codec, bytes_of(before.sps_pps_cache))
    } else {
        bytes_of(before.sps_pps_cache)
    })
    &&& sent_times(after.sent@) == times_from(sent_times(before.sent@), packet_pts as int)
    &&& after == (FfmpegEncoder {
        sps_pps_cache: after.sps_pps_cache,
        sent: after.sent,
        ..before
    })
}

/// Whether `after` is `before` with this bitrate, and `u` what the codec context is set to.
pub open spec fn bitrate_set(
    before: FfmpegEncoder,
    after: FfmpegEncoder,
    bitrate_kbps: u32,
    u: RateUpdate,
) -> bool {
    &&& before.initialized
    &&& u.bit_rate == bitrate_kbps * 1000
    &&& u.rc_max_rate == bitrate_kbps * 1000
    &&& u.rc_buffer_size == (bitrate_kbps * 1000) as i32
    &&& after == (FfmpegEncoder {
        force_keyframe: true,
        config: Some(EncoderConfig { bitrate_kbps, ..before.config->0 }),
        ..before
    })
}

/// An encoder with this frame rate.
pub open spec fn fps_set(e: FfmpegEncoder, fps: u32) -> FfmpegEncoder {
    if e.initialized {
        FfmpegEncoder {
            config: Some(EncoderConfig { fps: rate_of(fps), ..e.config->0 }),
            ..e
        }
    } else {
        e
    }
}

impl FfmpegEncoder {
    /// A set-up encoder knows its configuration and its description.
    pub open spec fn wf(&self) -> bool {
        &&& self.initialized ==> self.config is Some && self.info is Some
        &&& !self.initialized ==> self.info is None
    }

    /// An encoder that was never set up.
    pub open spec fn fresh(&self) -> bool {
        &&& !self.initialized
        &&& !self.force_keyframe
        &&& self.frame_count == 0
        &&& self.config is None
        &&& self.info is None
        &&& self.sps_pps_cache is None
        &&& !self.has_hw_device
        &&& !self.has_hw_frames
        &&& !self.has_scaler
        &&& self.textures == no_textures()
        &&& self.sent@.len() == 0
    }

    /// An encoder that is not set up.
    pub fn new() -> (r: Result<Self, MediaError>)
        ensures
            r matches Ok(e) && e.wf() && e.fresh(),
    {
        Ok(
            FfmpegEncoder {
                initialized: false,
                force_keyframe: false,
                frame_count: 0,
                config: None,
                info: None,
                sps_pps_cache: None,
                has_hw_device: false,
                has_hw_frames: false,
                has_scaler: false,
                textures: TextureState::none(),
                sent: Vec::new(),
            },
        )
    }

    /// Starts setting up: the encoders to try, in order. Refused where the
    /// encoder is set up already.
    pub fn initialize(
        &self,
        platform: Platform,
        config: &EncoderConfig,
        installed: &Vec<String>,
    ) -> (r: Result<Vec<Entry>, MediaError>)
        ensures
            match r {
                Ok(c) => start_of(*self, platform, *config, names(installed@)) == Ok::<
                    Seq<(Seq<char>, HwAccelType)>,
                    ErrorView,
                >(entries(c@)),
                Err(e) => start_of(*self, platform, *config, names(installed@)) == Err::<
                    Seq<(Seq<char>, HwAccelType)>,
                    ErrorView,
                >(e@),
            },
    {
        if self.initialized {
            return Err(MediaError::init_failed("Encoder already initialized"));
        }
        Ok(
            FfmpegEncoder::select_encoder_candidates(
                platform,
                config.codec,
                config.preferred_hw,
                installed,
            ),
        )
    }

    /// The encoder to open after those that failed with `errors`, as its place
    /// among the candidates. Once all of them failed, the error of the last one,
    /// or that there was none to try.
    pub fn next_attempt(&self, candidates: &Vec<Entry>, errors: &mut Vec<MediaError>) -> (r: Result<
        usize,
        MediaError,
    >)
        ensures
            match r {
                Ok(i) => attempt(candidates@.len(), error_views(old(errors)@)) == Ok::<
                    int,
                    ErrorView,
                >(i as int) && final(errors)@ == old(errors)@,
                Err(e) => attempt(candidates@.len(), error_views(old(errors)@)) == Err::<
                    int,
                    ErrorView,
                >(e@),
            },
    {
        if errors.len() < candidates.len() {
            return Ok(errors.len());
        }
        match errors.pop() {
            Some(e) => Err(e),
            None => Err(MediaError::init_failed("No encoders available")),
        }
    }

    /// Ends setting up: the encoder `name` is open, with this extradata.
    pub fn finish_initialize(
        &mut self,
        config: &EncoderConfig,
        name: &str,
        b: Backing,
        extradata: &[u8],
    )
        ensures
            set_up(*old(self), *final(self), *config, name@, b, extradata@),
    {
        let mut codecs: Vec<VideoCodec> = Vec::new();
        codecs.push(config.codec);
        assert(codecs@ =~= seq![config.codec]);
        self.initialized = true;
        self.force_keyframe = false;
        self.frame_count = 0;
        self.sent = Vec::new();
        self.config = Some(*config);
        self.info =
        Some(EncoderInfo { name: name.to_owned(), hw_type: b.hw, supported_codecs: codecs });
        self.has_hw_device = is_pooled(b);
        self.has_hw_frames = is_pooled(b);
        let headers: Vec<u8> = avcc_extradata_to_annexb(extradata);
        self.sps_pps_cache = if headers.len() > 0 {
            Some(headers)
        } else {
            None
        };
    }

    /// The operations that encode a buffer, in order. The time of a frame that
    /// they send is kept under its number.
    pub fn encode(
        &mut self,
        platform: Platform,
        buffer: &GpuBuffer,
        pts_us: u64,
        cuda_loaded: bool,
    ) -> (r: Result<Vec<EncodeOp>, MediaError>)
        requires
            old(self).wf(),
        ensures
            final(self).wf(),
            match r {
                Ok(ops) => {
                    &&& encode_plan(*old(self), platform, *buffer, cuda_loaded) == Ok::<
                        Seq<EncodeOp>,
                        ErrorView,
                    >(ops@)
                    &&& time_noted(*old(self), *final(self), ops@, pts_us)
                },
                Err(e) => {
                    &&& encode_plan(*old(self), platform, *buffer, cuda_loaded) == Err::<
                        Seq<EncodeOp>,
                        ErrorView,
                    >(e@)
                    &&& *final(self) == *old(self)
                },
            },
    {
        let ops: Vec<EncodeOp> = match self.plan(platform, buffer, cuda_loaded) {
            Ok(ops) => ops,
            Err(e) => {
                return Err(e);
            },
        };
        let sends: bool = ops.len() > 0 && match ops[ops.len() - 1] {
            EncodeOp::Send { .. } => true,
            _ => false,
        };
        proof {
            law_plan_ends_with_one_send(*old(self), platform, *buffer, cuda_loaded);
        }
        if sends {
            let ghost before = self.sent@;
            if self.sent.len() > 0 && self.sent[self.sent.len() - 1].0 == self.frame_count {
                self.sent.pop();
            }
            let ghost kept = self.sent@;
            self.sent.push((self.frame_count, pts_us));
            proof {
                assert(self.sent@.drop_last() =~= kept);
                assert(sent_times(self.sent@) =~= sent_times(before).insert(
                    self.frame_count,
                    pts_us,
                ));
            }
        }
        Ok(ops)
    }

    fn plan(&self, platform: Platform, buffer: &GpuBuffer, cuda_loaded: bool) -> (r: Result<
        Vec<EncodeOp>,
        MediaError,
    >)
        requires
            self.wf(),
        ensures
            match r {
                Ok(ops) => encode_plan(*self, platform, *buffer, cuda_loaded) == Ok::<
                    Seq<EncodeOp>,
                    ErrorView,
                >(ops@),
                Err(e) => encode_plan(*self, platform, *buffer, cuda_loaded) == Err::<
                    Seq<EncodeOp>,
                    ErrorView,
                >(e@),
            },
    {
        if !self.initialized {
            return Err(MediaError::EncoderNotInitialized);
        }
        let hw: HwAccelType = match &self.info {
            Some(i) => i.hw_type,
            None => HwAccelType::Software,
        };
        let send = |hw_frame: bool| -> (op: EncodeOp)
            ensures
                op == (EncodeOp::Send {
                    hw_frame,
                    pts: self.frame_count,
                    key: self.force_keyframe,
                }),
            { EncodeOp::Send { hw_frame, pts: self.frame_count, key: self.force_keyframe } };
        match buffer {
            GpuBuffer::CpuBuffer { format, width, height, .. } => {
                let target: SurfaceFormat = memory_surface_of(hw);
                let mut ops: Vec<EncodeOp> = Vec::new();
                ops.push(
                    EncodeOp::EnsureWritable { width: *width, height: *height, surface: target },
                );
                match format {
                    PixelFormat::NV12 => {
                        ops.push(EncodeOp::CopyNv12);
                    },
                    PixelFormat::BGRA => {
                        if target == SurfaceFormat::Bgra {
                            ops.push(EncodeOp::CopyBgra);
                        } else {
                            ops.push(EncodeOp::Scale { create: !self.has_scaler, target });
                        }
                    },
                    PixelFormat::P010 => {
                        ops.push(EncodeOp::RefuseP010);
                    },
                }
                let refused: bool = match format {
                    PixelFormat::P010 => true,
                    _ => false,
                };
                if !refused {
                    let on_device: bool = is_hw_encoder(hw) && self.has_hw_frames;
                    if on_device {
                        ops.push(EncodeOp::TakeHwFrame);
                        ops.push(EncodeOp::Upload { width: *width, height: *height });
                    }
                    ops.push(send(on_device));
                }
                assert(ops@ =~= memory_ops(*self, *format, *width, *height, hw));
                Ok(ops)
            },
            GpuBuffer::DmaBuf { .. } => if platform == Platform::Linux {
                Err(MediaError::encode("DMA-BUF zero-copy import not yet implemented"))
            } else {
                Err(MediaError::encode("Unsupported buffer type for this platform"))
            },
            GpuBuffer::CudaPointer { .. } => if platform == Platform::Linux {
                if !cuda_loaded {
                    Err(MediaError::encode("CUDA driver library not loaded"))
                } else if !self.has_hw_device {
                    Err(MediaError::encode("hw_device_ctx is null"))
                } else {
                    let mut ops: Vec<EncodeOp> = Vec::new();
                    ops.push(EncodeOp::BindCuda);
                    ops.push(EncodeOp::TakeHwFrame);
                    ops.push(EncodeOp::CopyDevice);
                    ops.push(send(true));
                    assert(ops@ =~= seq![
                        EncodeOp::BindCuda,
                        EncodeOp::TakeHwFrame,
                        EncodeOp::CopyDevice,
                    ] + send_op(*self, true));
                    Ok(ops)
                }
            } else {
                Err(MediaError::encode("Unsupported buffer type for this platform"))
            },
            GpuBuffer::D3D11Texture { texture, array_index } => if platform == Platform::Windows {
                let mut ops: Vec<EncodeOp> = Vec::new();
                let c: EncoderConfig = match self.config {
                    Some(c) => c,
                    None => {
                        return Err(MediaError::EncoderNotInitialized);
                    },
                };
                if self.has_hw_frames {
                    ops.push(EncodeOp::TakeHwFrame);
                    ops.push(
                        EncodeOp::ConvertTexture {
                            texture: *texture,
                            array_index: *array_index,
                            width: c.width,
                            height: c.height,
                        },
                    );
                    ops.push(send(true));
                } else if c.d3d11_device.is_none() {
                    return Err(MediaError::encode("D3D11 device not available in config"));
                } else if c.d3d11_context.is_none() {
                    return Err(MediaError::encode("D3D11 context not available in config"));
                } else {
                    ops.push(
                        EncodeOp::StageTexture { texture: *texture, array_index: *array_index },
                    );
                    ops.push(send(false));
                }
                assert(ops@ =~= encode_plan(*self, platform, *buffer, cuda_loaded)->Ok_0);
                Ok(ops)
            } else {
                Err(MediaError::encode("Unsupported buffer type for this platform"))
            },
            GpuBuffer::CVPixelBuffer { .. } => Err(
                MediaError::encode("Unsupported buffer type for this platform"),
            ),
        }
    }

    /// Notes that a colour converter was made.
    pub fn scaler_created(&mut self)
        ensures
            *final(self) == (FfmpegEncoder { has_scaler: true, ..*old(self) }),
    {
        self.has_scaler = true;
    }

    /// Turns a packet into an encoded frame, with the time that the frame of
    /// its number was sent with. The times of earlier frames are forgotten. Key
    /// frames get the cached headers where `prepend_headers` asks for it and
    /// they have none.
    pub fn on_packet(
        &mut self,
        data: Vec<u8>,
        is_key: bool,
        packet_pts: i64,
        codec: VideoCodec,
        fps: u32,
        prepend_headers: bool,
    ) -> (f: EncodedVideoFrame)
        ensures
            packet_turned(
                *old(self),
                *final(self),
                data@,
                is_key,
                packet_pts,
                codec,
                fps,
                prepend_headers,
                f,
            ),
    {
        let pts: u64 = find_time(&self.sent, packet_pts);
        self.sent = keep_times_from(&self.sent, packet_pts);
        let bytes: Vec<u8> = if is_key && prepend_headers {
            prepare_key_frame(data, codec, &mut self.sps_pps_cache)
        } else {
            data
        };
        EncodedVideoFrame {
            data: bytes,
            frame_type: if is_key {
                FrameType::Key
            } else {
                FrameType::Inter
            },
            pts,
            duration: frame_duration_us(fps),
            codec,
        }
    }

    /// Ends encoding a frame that the encoder took.
    pub fn finish_encode(&mut self)
        requires
            old(self).frame_count < u64::MAX,
        ensures
            *final(self) == frame_taken(*old(self)),
    {
        self.frame_count = self.frame_count + 1;
        self.force_keyframe = false;
    }

    /// Makes the next frame a key frame.
    pub fn request_keyframe(&mut self)
        ensures
            *final(self) == key_asked(*old(self)),
    {
        self.force_keyframe = true;
    }

    /// Changes the bitrate and makes the next frame a key frame; what the codec
    /// context has to be set to.
    pub fn set_bitrate(&mut self, bitrate_kbps: u32) -> (r: Result<RateUpdate, MediaError>)
        requires
            old(self).wf(),
        ensures
            final(self).wf(),
            match r {
                Ok(u) => bitrate_set(*old(self), *final(self), bitrate_kbps, u),
                Err(e) => !old(self).initialized && e@ == ErrorView::EncoderNotInitialized
                    && *final(self) == *old(self),
            },
    {
        if !self.initialized {
            return Err(MediaError::EncoderNotInitialized);
        }
        let bitrate: i64 = bitrate_kbps as i64 * 1000;
        if let Some(c) = self.config {
            self.config = Some(EncoderConfig { bitrate_kbps, ..c });
        }
        self.force_keyframe = true;
        Ok(RateUpdate { bit_rate: bitrate, rc_max_rate: bitrate, rc_buffer_size: bitrate as i32 })
    }

    /// Changes the frame rate, at least one frame a second, from the next frame
    /// on. An encoder that is not set up takes no note of it.
    pub fn set_fps(&mut self, fps: u32) -> (r: Result<(), MediaError>)
        requires
            old(self).wf(),
        ensures
            final(self).wf(),
            r is Ok,
            *final(self) == fps_set(*old(self), fps),
    {
        if !self.initialized {
            return Ok(());
        }
        if let Some(c) = self.config {
            self.config = Some(EncoderConfig { fps: at_least_one(fps), ..c });
        }
        Ok(())
    }

    /// Describes the encoder that is set up.
    pub fn encoder_info(&self) -> (i: EncoderInfo)
        ensures
            (i.name@, i.hw_type, i.supported_codecs@) == description(*self),
    {
        match &self.info {
            Some(own) => copy_info(own),
            None => EncoderInfo {
                name: "uninitialized".to_owned(),
                hw_type: HwAccelType::Software,
                supported_codecs: Vec::new(),
            },
        }
    }

    /// Whether flushing drains the encoder: with its codec and frame rate, and
    /// without putting headers in; `None` where nothing can be held back.
    pub fn flush(&self) -> (r: Option<(VideoCodec, u32)>)
        requires
            self.wf(),
        ensures
            r == drained_as(*self),
    {
        if !self.initialized {
            return None;
        }
        match self.config {
            Some(c) => Some((c.codec, c.fps)),
            None => None,
        }
    }

    /// Forgets the session. Every FFmpeg object has to be freed where this
    /// returns `true`; the header cache is kept until the next one starts.
    pub fn shutdown(&mut self) -> (release: bool)
        requires
            old(self).wf(),
        ensures
            final(self).wf(),
            release == old(self).initialized,
            shut_down(*old(self), *final(self)),
    {
        if !self.initialized {
            return false;
        }
        self.initialized = false;
        self.force_keyframe = false;
        self.frame_count = 0;
        self.config = None;
        self.info = None;
        self.has_hw_device = false;
        self.has_hw_frames = false;
        self.has_scaler = false;
        self.textures = self.textures.after_session();
        self.sent = Vec::new();
        true
    }
}

// ---- Laws ----

/// Setting up loses track of nothing: what is held when the next step is taken
/// is what was held before with what the step acquired. So a failure, which
/// releases both, leaves nothing behind.
pub proof fn law_setup_tracks_every_resource(name: Seq<char>, b: Backing, reply: InitReply)
    requires
        init_error(name, reply) is None,
        answered(reply) == InitStep::CreateDevice || answered(reply) == InitStep::AllocPool
            || answered(reply) == InitStep::InitPool || answered(reply) == InitStep::SharePool
            ==> pooled(b),
    ensures
        held(step_after(answered(reply), b), b) == gained(reply) + held(answered(reply), b),
{
    assert(held(step_after(answered(reply), b), b) =~= gained(reply) + held(answered(reply), b));
}

/// Whatever is encoded ends with handing one frame to the encoder, and nothing
/// is handed over before. A picture in a format that is refused is never handed
/// over.
pub proof fn law_plan_ends_with_one_send(
    e: FfmpegEncoder,
    platform: Platform,
    buffer: GpuBuffer,
    cuda_loaded: bool,
)
    requires
        encode_plan(e, platform, buffer, cuda_loaded) is Ok,
    ensures
        ({
            let ops = encode_plan(e, platform, buffer, cuda_loaded)->Ok_0;
            let refused = buffer matches GpuBuffer::CpuBuffer { format, .. } && format
                == PixelFormat::P010;
            &&& ops.len() > 0
            &&& ops.last() is Send <==> !refused
            &&& refused ==> ops.last() == EncodeOp::RefuseP010
            &&& forall|i: int| 0 <= i < ops.len() - 1 ==> !(#[trigger] ops[i] is Send)
        }),
{
}

/// What becomes of opening `outcomes.len()` candidates one after another after the
/// first ones failed with `errors`: the place of the one that is open in the end,
/// or the error. `outcomes` holds the error of each candidate, `None` for one that
/// opens.
pub open spec fn opening(outcomes: Seq<Option<ErrorView>>, errors: Seq<ErrorView>) -> Result<
    int,
    ErrorView,
>
    decreases outcomes.len() - errors.len(),
{
    match attempt(outcomes.len(), errors) {
        Err(e) => Err(e),
        Ok(i) => match outcomes[i] {
            None => Ok(i),
            Some(e) => opening(outcomes, errors.push(e)),
        },
    }
}

proof fn lemma_opening_after(outcomes: Seq<Option<ErrorView>>, errors: Seq<ErrorView>)
    requires
        errors.len() <= outcomes.len(),
        forall|j: int| 0 <= j < errors.len() ==> #[trigger] outcomes[j] == Some(errors[j]),
    ensures
        match opening(outcomes, errors) {
            Ok(i) => errors.len() <= i < outcomes.len() && outcomes[i] is None && forall|j: int|
                0 <= j < i ==> #[trigger] outcomes[j] is Some,
            Err(e) => (forall|j: int| 0 <= j < outcomes.len() ==> #[trigger] outcomes[j] is Some)
                && e == (if outcomes.len() > 0 {
                outcomes.last()->0
            } else {
                ErrorView::EncoderInitFailed("No encoders available"@)
            }),
        },
    decreases outcomes.len() - errors.len(),
{
    if errors.len() < outcomes.len() && outcomes[errors.len() as int] is Some {
        lemma_opening_after(outcomes, errors.push(outcomes[errors.len() as int]->0));
    }
}

/// Setting up takes the first candidate that opens. It fails only where every
/// candidate failed, with the error of the last one, or because there was none.
pub proof fn law_first_encoder_that_opens_is_taken(outcomes: Seq<Option<ErrorView>>)
    ensures
        match opening(outcomes, Seq::empty()) {
            Ok(i) => 0 <= i < outcomes.len() && outcomes[i] is None && forall|j: int|
                0 <= j < i ==> #[trigger] outcomes[j] is Some,
            Err(e) => (forall|j: int| 0 <= j < outcomes.len() ==> #[trigger] outcomes[j] is Some)
                && e == (if outcomes.len() > 0 {
                outcomes.last()->0
            } else {
                ErrorView::EncoderInitFailed("No encoders available"@)
            }),
        },
{
    lemma_opening_after(outcomes, Seq::empty());
}

/// Whether `b` is what calls that finish no frame leave of `a`: those that plan a
/// frame, note what was made for it, and take packets.
pub open spec fn unfinished(a: FfmpegEncoder, b: FfmpegEncoder) -> bool {
    b == (FfmpegEncoder {
        sps_pps_cache: b.sps_pps_cache,
        has_scaler: b.has_scaler,
        textures: b.textures,
        sent: b.sent,
        ..a
    })
}

/// Whether every frame that a plan sends has this number, and is a key frame
/// exactly where `key` says so.
pub open spec fn all_sends(ops: Seq<EncodeOp>, number: u64, key: bool) -> bool {
    forall|i: int|
        0 <= i < ops.len() ==> (#[trigger] ops[i] matches EncodeOp::Send { pts, key: k, .. } ==> pts
            == number && k == key)
}

/// The same of every plan that an encoder can make.
pub open spec fn sends_only(e: FfmpegEncoder, number: u64, key: bool) -> bool {
    forall|platform: Platform, buffer: GpuBuffer, cuda_loaded: bool|
        encode_plan(e, platform, buffer, cuda_loaded) is Ok ==> all_sends(
            #[trigger] encode_plan(e, platform, buffer, cuda_loaded)->Ok_0,
            number,
            key,
        )
}

/// A request for a key frame marks one frame. `tries` are the states from the
/// request on until a frame is taken, `next` those from there until the next one
/// is taken. However often encoding fails in between, the frame that is taken was
/// sent as a key frame, and the one after it was not.
pub proof fn law_keyframe_request_marks_one_frame(
    e: FfmpegEncoder,
    tries: Seq<FfmpegEncoder>,
    next: Seq<FfmpegEncoder>,
)
    requires
        e.frame_count < u64::MAX,
        tries.len() > 0,
        tries[0] == key_asked(e),
        forall|i: int| 0 < i < tries.len() ==> unfinished(tries[i - 1], #[trigger] tries[i]),
        next.len() > 0,
        next[0] == frame_taken(tries.last()),
        forall|i: int| 0 < i < next.len() ==> unfinished(next[i - 1], #[trigger] next[i]),
    ensures
        forall|i: int| 0 <= i < tries.len() ==> sends_only(#[trigger] tries[i], e.frame_count, true),
        forall|i: int|
            0 <= i < next.len() ==> sends_only(
                #[trigger] next[i],
                (e.frame_count + 1) as u64,
                false,
            ),
{
    assert forall|i: int| 0 <= i < tries.len() implies sends_only(
        #[trigger] tries[i],
        e.frame_count,
        true,
    ) by {
        lemma_unfinished_keeps(tries, i);
        lemma_state_sends(tries[i]);
    }
    lemma_unfinished_keeps(tries, tries.len() - 1);
    assert forall|i: int| 0 <= i < next.len() implies sends_only(
        #[trigger] next[i],
        (e.frame_count + 1) as u64,
        false,
    ) by {
        lemma_unfinished_keeps(next, i);
        lemma_state_sends(next[i]);
    }
}

proof fn lemma_plan_sends(
    e: FfmpegEncoder,
    platform: Platform,
    buffer: GpuBuffer,
    cuda_loaded: bool,
)
    requires
        encode_plan(e, platform, buffer, cuda_loaded) is Ok,
    ensures
        all_sends(
            encode_plan(e, platform, buffer, cuda_loaded)->Ok_0,
            e.frame_count,
            e.force_keyframe,
        ),
{
}

proof fn lemma_state_sends(e: FfmpegEncoder)
    ensures
        sends_only(e, e.frame_count, e.force_keyframe),
{
    assert forall|platform: Platform, buffer: GpuBuffer, cuda_loaded: bool|
        encode_plan(e, platform, buffer, cuda_loaded) is Ok implies all_sends(
        #[trigger] encode_plan(e, platform, buffer, cuda_loaded)->Ok_0,
        e.frame_count,
        e.force_keyframe,
    ) by {
        lemma_plan_sends(e, platform, buffer, cuda_loaded);
    }
}

proof fn lemma_unfinished_keeps(states: Seq<FfmpegEncoder>, i: int)
    requires
        0 <= i < states.len(),
        forall|j: int| 0 < j < states.len() ==> unfinished(states[j - 1], #[trigger] states[j]),
    ensures
        states[i].frame_count == states[0].frame_count,
        states[i].force_keyframe == states[0].force_keyframe,
    decreases i,
{
    if i > 0 {
        lemma_unfinished_keeps(states, i - 1);
        assert(unfinished(states[i - 1], states[i]));
    }
}

/// Shutting down ends the session: the encoder is described as uninitialized,
/// nothing can be encoded or drained, and shutting down again changes nothing. It can be set up again, and no key frame is asked for then. While it
/// is set up, setting it up is refused.
pub proof fn law_shutdown_ends_the_session(
    before: FfmpegEncoder,
    after: FfmpegEncoder,
    again: FfmpegEncoder,
    platform: Platform,
    buffer: GpuBuffer,
    cuda_loaded: bool,
    config: EncoderConfig,
    installed: Seq<Seq<char>>,
)
    requires
        before.wf(),
        shut_down(before, after),
        shut_down(after, again),
    ensures
        after.wf(),
        !after.initialized,
        description(after) == ("uninitialized"@, HwAccelType::Software, Seq::<VideoCodec>::empty()),
        encode_plan(after, platform, buffer, cuda_loaded) == Err::<Seq<EncodeOp>, ErrorView>(
            ErrorView::EncoderNotInitialized,
        ),
        drained_as(after) is None,
        again == after,
        start_of(after, platform, config, installed) == Ok::<
            Seq<(Seq<char>, HwAccelType)>,
            ErrorView,
        >(candidates(platform, config.codec, config.preferred_hw, installed)),
        before.initialized ==> {
            &&& !after.force_keyframe
            &&& start_of(before, platform, config, installed) == Err::<
                Seq<(Seq<char>, HwAccelType)>,
                ErrorView,
            >(ErrorView::EncoderInitFailed("Encoder already initialized"@))
        },
{
}

/// What happens to the times of frames.
pub enum TimeEvent {
    /// The frame of this number is sent with this time.
    Sent(u64, u64),
    /// A packet with this number comes out.
    Packet(i64),
}

/// The times that are known after `events`.
pub open spec fn times_after(times: Map<u64, u64>, events: Seq<TimeEvent>) -> Map<u64, u64>
    decreases events.len(),
{
    if events.len() == 0 {
        times
    } else {
        let earlier = times_after(times, events.drop_last());
        match events.last() {
            TimeEvent::Sent(number, time) => earlier.insert(number, time),
            TimeEvent::Packet(number) => times_from(earlier, number as int),
        }
    }
}

/// A frame comes out with the time that it was sent with: whatever frames of other
/// numbers are sent after it, and whatever packets come out that are not of later
/// frames.
pub proof fn law_a_frame_keeps_its_time(
    times: Map<u64, u64>,
    number: u64,
    time: u64,
    events: Seq<TimeEvent>,
)
    requires
        forall|i: int|
            0 <= i < events.len() ==> match #[trigger] events[i] {
                TimeEvent::Sent(n, _) => n != number,
                TimeEvent::Packet(n) => n <= number,
            },
    ensures
        times_after(times.insert(number, time), events).contains_key(number),
        time_of(times_after(times.insert(number, time), events), number as int) == time,
    decreases events.len(),
{
    if events.len() > 0 {
        assert forall|i: int| 0 <= i < events.drop_last().len() implies match #[trigger] events.drop_last()[i] {
            TimeEvent::Sent(n, _) => n != number,
            TimeEvent::Packet(n) => n <= number,
        } by {
            assert(events.drop_last()[i] == events[i]);
        }
        law_a_frame_keeps_its_time(times, number, time, events.drop_last());
        assert(events.last() == events[events.len() - 1]);
    }
}

/// A frame in memory.
pub struct MemoryFrame {
    pub width: u32,
    pub height: u32,
    pub surface: SurfaceFormat,
}

/// How far a picture is on its way into the encoder.
pub struct Way {
    /// The memory frame, as it was made: its size and surface.
    pub made: Option<MemoryFrame>,
    /// The memory frame holds the picture.
    pub in_memory: bool,
    /// CUDA is current.
    pub bound: bool,
    /// A frame of the device's pool is at hand.
    pub taken: bool,
    /// That frame holds the picture.
    pub on_device: bool,
    /// The picture was handed to the encoder, or refused.
    pub sent: bool,
    pub refused: bool,
}

/// A picture that nothing was done with.
pub open spec fn way_start() -> Way {
    Way {
        made: None,
        in_memory: false,
        bound: false,
        taken: false,
        on_device: false,
        sent: false,
        refused: false,
    }
}

/// Whether a buffer is a picture in memory, of this format and size.
pub open spec fn in_memory_as(b: GpuBuffer, format: PixelFormat, width: u32, height: u32) -> bool {
    b matches GpuBuffer::CpuBuffer { format: f, width: w, height: h, .. } && f == format && w
        == width && h == height
}

/// Where an operation brings the picture of a buffer, `None` where it does not take what
/// it finds: it reads the picture in the picture's own format, from where the picture is,
/// and writes it in the format of the frame that it writes to. `converter` says whether a
/// colour converter is there before.
pub open spec fn carried(b: GpuBuffer, converter: bool, w: Way, op: EncodeOp) -> Option<Way> {
    if w.sent || w.refused {
        None
    } else {
        match op {
            EncodeOp::EnsureWritable { width, height, surface } => if w.made is None {
                Some(Way { made: Some(MemoryFrame { width, height, surface }), ..w })
            } else {
                None
            },
            EncodeOp::CopyNv12 => if w.made is Some && in_memory_as(
                b,
                PixelFormat::NV12,
                w.made->0.width,
                w.made->0.height,
            ) {
                Some(Way { in_memory: true, ..w })
            } else {
                None
            },
            EncodeOp::CopyBgra => if w.made is Some && w.made->0.surface == SurfaceFormat::Bgra
                && in_memory_as(b, PixelFormat::BGRA, w.made->0.width, w.made->0.height) {
                Some(Way { in_memory: true, ..w })
            } else {
                None
            },
            EncodeOp::Scale { create, target } => if w.made is Some && w.made->0.surface == target
                && target != SurfaceFormat::Bgra && in_memory_as(
                b,
                PixelFormat::BGRA,
                w.made->0.width,
                w.made->0.height,
            ) && create != converter {
                Some(Way { in_memory: true, ..w })
            } else {
                None
            },
            EncodeOp::RefuseP010 => if b matches GpuBuffer::CpuBuffer { format, .. } && format
                == PixelFormat::P010 {
                Some(Way { refused: true, ..w })
            } else {
                None
            },
            EncodeOp::BindCuda => if b is CudaPointer {
                Some(Way { bound: true, ..w })
            } else {
                None
            },
            EncodeOp::TakeHwFrame => if !w.taken {
                Some(Way { taken: true, ..w })
            } else {
                None
            },
            EncodeOp::CopyDevice => if b is CudaPointer && w.bound && w.taken {
                Some(Way { on_device: true, ..w })
            } else {
                None
            },
            EncodeOp::Upload { width, height } => if w.in_memory && w.taken && (b matches
                GpuBuffer::CpuBuffer { width: bw, height: bh, .. } && bw == width && bh == height) {
                Some(Way { on_device: true, ..w })
            } else {
                None
            },
            EncodeOp::StageTexture { texture, array_index } => if b == (GpuBuffer::D3D11Texture {
                texture,
                array_index,
            }) {
                Some(Way { in_memory: true, ..w })
            } else {
                None
            },
            EncodeOp::ConvertTexture { texture, array_index, .. } => if w.taken && b == (
            GpuBuffer::D3D11Texture { texture, array_index }) {
                Some(Way { on_device: true, ..w })
            } else {
                None
            },
            EncodeOp::Send { hw_frame, .. } => if hw_frame {
                if w.on_device {
                    Some(Way { sent: true, ..w })
                } else {
                    None
                }
            } else if w.in_memory && !w.taken {
                Some(Way { sent: true, ..w })
            } else {
                None
            },
        }
    }
}

/// Where the first `n` operations of a plan bring the picture of a buffer.
pub open spec fn way_after(b: GpuBuffer, converter: bool, ops: Seq<EncodeOp>, n: nat) -> Option<Way>
    decreases n,
{
    if n == 0 {
        Some(way_start())
    } else {
        match way_after(b, converter, ops, (n - 1) as nat) {
            None => None,
            Some(w) => carried(b, converter, w, ops[n - 1]),
        }
    }
}

/// The surface that an encoder takes pictures from memory in: NVENC takes BGRA, software
/// planar YUV, and every other hardware NV12.
pub open spec fn takes_surface(hw: HwAccelType, surface: SurfaceFormat) -> bool {
    match surface {
        SurfaceFormat::Bgra => hw == HwAccelType::Nvenc,
        SurfaceFormat::Yuv420p => hw == HwAccelType::Software,
        SurfaceFormat::Nv12 => hw != HwAccelType::Nvenc && hw != HwAccelType::Software,
        _ => false,
    }
}

/// A plan carries its picture into the encoder: every operation finds the picture in the
/// format and the frame that it reads, the frame in memory has the picture's size and the
/// surface that the encoder takes, and what is sent holds the picture. A picture in P010
/// is refused in place of that, and no other is. A converter is made where there is none
/// and only there. Hardware with a pool is sent a frame of the device.
pub proof fn law_a_plan_carries_its_picture(
    e: FfmpegEncoder,
    platform: Platform,
    buffer: GpuBuffer,
    cuda_loaded: bool,
)
    requires
        e.wf(),
        encode_plan(e, platform, buffer, cuda_loaded) is Ok,
    ensures
        ({
            let ops = encode_plan(e, platform, buffer, cuda_loaded)->Ok_0;
            let end = way_after(buffer, e.has_scaler, ops, ops.len());
            let in_p010 = buffer matches GpuBuffer::CpuBuffer { format, .. } && format
                == PixelFormat::P010;
            &&& end matches Some(w) && w.refused == in_p010 && w.sent == !in_p010
            &&& buffer matches GpuBuffer::CpuBuffer { width, height, .. } ==> (end->0.made matches
                Some(m) && m.width == width && m.height == height && takes_surface(
                e.info->0.hw_type,
                m.surface,
            ))
            &&& buffer is CpuBuffer && end->0.sent ==> end->0.on_device == (e.has_hw_frames
                && e.info->0.hw_type != HwAccelType::Software)
            &&& buffer is D3D11Texture ==> end->0.on_device == e.has_hw_frames
            &&& buffer is CudaPointer ==> end->0.on_device && e.has_hw_device && cuda_loaded
                && ops[0] == EncodeOp::BindCuda
        }),
{
    let ops = encode_plan(e, platform, buffer, cuda_loaded)->Ok_0;
    reveal_with_fuel(way_after, 6);
    match buffer {
        GpuBuffer::CpuBuffer { format, width, height, .. } => {
            let hw = e.info->0.hw_type;
            let surface = memory_surface(hw);
            let fill = fill_ops(e, format, hw)[0];
            assert(ops[0] == (EncodeOp::EnsureWritable { width, height, surface }));
            assert(ops[1] == fill);
            if format == PixelFormat::P010 {
                assert(ops.len() == 2);
            } else if hw_encoder(hw) && e.has_hw_frames {
                assert(ops.len() == 5);
                assert(ops[2] == EncodeOp::TakeHwFrame);
                assert(ops[3] == (EncodeOp::Upload { width, height }));
                assert(ops[4] is Send && ops[4]->hw_frame);
            } else {
                assert(ops.len() == 3);
                assert(ops[2] is Send && !ops[2]->hw_frame);
            }
        },
        GpuBuffer::CudaPointer { .. } => {
            assert(ops.len() == 4);
            assert(ops[3] is Send && ops[3]->hw_frame);
        },
        GpuBuffer::D3D11Texture { .. } => {
            if e.has_hw_frames {
                assert(ops.len() == 3);
                assert(ops[2] is Send && ops[2]->hw_frame);
            } else {
                assert(ops.len() == 2);
                assert(ops[1] is Send && !ops[1]->hw_frame);
            }
        },
        _ => {},
    }
}

/// When a picture can be encoded at all: one in memory always, one in CUDA's memory on
/// Linux with the driver and a device, and a Direct3D texture on Windows with a pool or a
/// shared device. Nothing else can.
pub proof fn law_which_pictures_can_be_encoded(
    e: FfmpegEncoder,
    platform: Platform,
    buffer: GpuBuffer,
    cuda_loaded: bool,
)
    requires
        e.wf(),
    ensures
        encode_plan(e, platform, buffer, cuda_loaded) is Ok <==> e.initialized && match buffer {
            GpuBuffer::CpuBuffer { .. } => true,
            GpuBuffer::CudaPointer { .. } => platform == Platform::Linux && cuda_loaded
                && e.has_hw_device,
            GpuBuffer::D3D11Texture { .. } => platform == Platform::Windows && (e.has_hw_frames || (
            e.config->0.d3d11_device is Some && e.config->0.d3d11_context is Some)),
            _ => false,
        },
{
}

/// The codec context is set to what the configuration asks for: its size and rate, a
/// thousand bits a second for each of its kilobits, of which the buffer holds two frames'
/// worth, its key frames, and no frame that waits for a later one.
pub proof fn law_settings_follow_the_configuration(config: EncoderConfig, b: Backing)
    requires
        0 < config.fps <= i32::MAX,
        config.width <= i32::MAX,
        config.height <= i32::MAX,
        config.keyframe_interval <= i32::MAX,
        config.keyframe_interval == 0 ==> config.fps + config.fps <= i32::MAX,
        2000 * config.bitrate_kbps <= i32::MAX,
    ensures
        ({
            let s = settings(config, b);
            &&& s.width == config.width && s.height == config.height
            &&& s.rate == config.fps
            &&& s.bit_rate == 1000 * config.bitrate_kbps && s.rc_max_rate == s.bit_rate
            &&& s.rc_buffer_size * config.fps <= s.bit_rate + s.bit_rate
            &&& s.bit_rate + s.bit_rate < (s.rc_buffer_size + 1) * config.fps
            &&& config.keyframe_interval > 0 ==> s.gop_size == config.keyframe_interval
            &&& config.keyframe_interval == 0 ==> s.gop_size == config.fps + config.fps
            &&& s.max_b_frames == 0
            &&& s.thread_count == 1
            &&& s.level is Some <==> config.codec == VideoCodec::H264
            &&& s.level is Some ==> s.level->0 == 31
            &&& s.low_delay == config.low_latency
        }),
{
    let total = config.bitrate_kbps * 2000;
    let n = config.fps as int;
    let q = total / n;
    vstd::arithmetic::div_mod::lemma_fundamental_div_mod(total, n);
    vstd::arithmetic::div_mod::lemma_mod_bound(total, n);
    assert(0 <= q <= total && q * n <= total && total < (q + 1) * n) by (nonlinear_arith)
        requires
            total == n * q + total % n,
            0 <= total % n < n,
            0 <= total,
            n > 0,
    ;
}

/// Where an encoder has a pool of frames, the encoder is opened for the pool's frames, the
/// frames live on the pool's device, and a frame in memory can be moved to them. Software
/// has none. On Windows, AMF and NVENC share the capture's device where it is known, and
/// nothing else does.
pub proof fn law_pools_serve_their_encoders(
    platform: Platform,
    config: EncoderConfig,
    hw: HwAccelType,
    r: Option<PoolPlan>,
)
    requires
        config.fps > 0,
        pool_planned(backing(platform, config, hw), r),
    ensures
        ({
            let surface = settings(config, backing(platform, config, hw)).surface;
            let shares = platform == Platform::Windows && (hw == HwAccelType::Amf || hw
                == HwAccelType::Nvenc) && config.d3d11_device is Some
                && config.d3d11_context is Some;
            &&& r is Some <==> shares || hw == HwAccelType::Vaapi || hw == HwAccelType::Nvenc
            &&& hw == HwAccelType::Software <==> surface == SurfaceFormat::Yuv420p
            &&& r is None && hw != HwAccelType::Software ==> surface == SurfaceFormat::Nv12
            &&& r is Some ==> {
                let p = r->0;
                &&& p.surface == surface
                &&& p.memory == memory_surface(hw)
                &&& p.pool_size == 4
                &&& match p.device {
                    DeviceKind::Vaapi => surface == SurfaceFormat::Vaapi && hw
                        == HwAccelType::Vaapi && p.path is Some && p.path->0@
                        == "/dev/dri/renderD128"@,
                    DeviceKind::Cuda => surface == SurfaceFormat::Cuda && hw == HwAccelType::Nvenc
                        && p.path is None,
                    DeviceKind::D3d11 { device, context } => surface == SurfaceFormat::D3d11
                        && shares && config.d3d11_device == Some(device) && config.d3d11_context
                        == Some(context) && p.path is None,
                }
                &&& shares <==> p.device is D3d11
                &&& shares <==> p.bind_flags is Some
                &&& p.bind_flags is Some ==> (hw == HwAccelType::Nvenc <==> p.bind_flags->0 == 40)
                    && (hw == HwAccelType::Amf <==> p.bind_flags->0 == 8)
            }
        }),
{
}

/// The formats of frames in memory: what NVENC takes is what is captured, software takes
/// planes of their own, and the others take two planes.
pub proof fn law_memory_frames_suit_their_encoders(hw: HwAccelType)
    ensures
        memory_surface(hw) == SurfaceFormat::Bgra <==> hw == HwAccelType::Nvenc,
        memory_surface(hw) == SurfaceFormat::Yuv420p <==> hw == HwAccelType::Software,
        memory_surface(hw) == SurfaceFormat::Nv12 <==> hw != HwAccelType::Nvenc && hw
            != HwAccelType::Software,
        hw == HwAccelType::Vaapi <==> hw_surface(hw) == SurfaceFormat::Vaapi,
        hw == HwAccelType::Nvenc <==> hw_surface(hw) == SurfaceFormat::Cuda,
        hw == HwAccelType::Amf <==> hw_surface(hw) == SurfaceFormat::D3d11,
        hw == HwAccelType::Qsv <==> hw_surface(hw) == SurfaceFormat::Qsv,
{
}

/// An encoder that was set up begins anew: with the frame of number 0, which is no key
/// frame on request, with no time of an earlier session, and with the headers that came as
/// extradata. It is described as what was opened, drained with its own codec and rate, and
/// not set up twice.
pub proof fn law_a_session_begins_anew(
    before: FfmpegEncoder,
    after: FfmpegEncoder,
    config: EncoderConfig,
    name: Seq<char>,
    b: Backing,
    extradata: Seq<u8>,
    platform: Platform,
    installed: Seq<Seq<char>>,
)
    requires
        set_up(before, after, config, name, b, extradata),
    ensures
        sends_only(after, 0, false),
        sent_times(after.sent@) == Map::<u64, u64>::empty(),
        description(after).0 == name && description(after).1 == b.hw,
        description(after).2 == seq![config.codec],
        drained_as(after) == Some((config.codec, config.fps)),
        start_of(after, platform, config, installed) is Err,
        after.config == Some(config),
        annexb_of(extradata).len() > 0 <==> after.sps_pps_cache is Some,
        after.sps_pps_cache is Some ==> after.sps_pps_cache->0@ == annexb_of(extradata),
        after.has_hw_frames <==> b.hw == HwAccelType::Vaapi || b.hw == HwAccelType::Nvenc
            || b.d3d11 is Some,
        after.has_hw_device == after.has_hw_frames,
{
    lemma_state_sends(after);
    assert(after.sent@ =~= Seq::<(u64, u64)>::empty());
}

/// Whether `out` is `data`, or has bytes more than it has between two parts of it.
pub open spec fn holds_all_of(out: Seq<u8>, data: Seq<u8>) -> bool {
    exists|k: int|
        0 <= k <= data.len() && out.len() >= data.len() && #[trigger] out.take(k) == data.take(k)
            && out.skip(k + out.len() - data.len()) == data.skip(k)
}

#[verifier::spinoff_prover]
#[verifier::rlimit(40)]
proof fn lemma_frame_holds_packet(data: Seq<u8>, codec: VideoCodec, cache: Option<Seq<u8>>)
    ensures
        holds_all_of(data, data),
        holds_all_of(with_cached_headers(data, codec, cache), data),
{
    assert(data.take(0) == data.take(0));
    assert(data.skip(0) =~= data);
    assert(holds_all_of(data, data));
    match cache {
        Some(h) => {
            law_headers_are_only_inserted(data, codec, h);
            let out = with_cached_headers(data, codec, cache);
            if out != data {
                let k = choose|k: int|
                    #![trigger data.take(k)]
                    0 <= k <= data.len() && out == data.take(k) + h + data.skip(k) && data.take(k)
                        + data.skip(k) == data;
                assert(out.take(k) =~= data.take(k));
                assert(out.skip(k + out.len() - data.len()) =~= data.skip(k));
            }
        },
        None => {},
    }
}

/// A packet becomes a frame that says what the packet was: a key frame exactly where it is
/// one, of the codec, that lasts as long as the rate says, with the bytes of the packet.
/// Only a key frame can have more, between two parts of its own, and only where that is
/// asked for; nothing else fills the header cache.
pub proof fn law_packets_become_frames(
    before: FfmpegEncoder,
    after: FfmpegEncoder,
    data: Seq<u8>,
    is_key: bool,
    packet_pts: i64,
    codec: VideoCodec,
    fps: u32,
    prepend_headers: bool,
    f: EncodedVideoFrame,
)
    requires
        packet_turned(before, after, data, is_key, packet_pts, codec, fps, prepend_headers, f),
    ensures
        f.frame_type == FrameType::Key <==> is_key,
        f.frame_type == FrameType::Inter <==> !is_key,
        f.codec == codec,
        fps > 0 ==> f.duration * fps <= 1_000_000 < (f.duration + 1) * fps,
        fps == 0 ==> f.duration == 0,
        !is_key || !prepend_headers || before.sps_pps_cache is None ==> f.data@ == data,
        holds_all_of(f.data@, data),
        !is_key || !prepend_headers ==> bytes_of(after.sps_pps_cache) == bytes_of(
            before.sps_pps_cache,
        ),
        before.sps_pps_cache is Some ==> bytes_of(after.sps_pps_cache) == bytes_of(
            before.sps_pps_cache,
        ),
        after.frame_count == before.frame_count,
        after.force_keyframe == before.force_keyframe,
        after.config == before.config,
        after.initialized == before.initialized,
{
    if fps > 0 {
        law_frames_fill_a_second(fps);
    }
    lemma_frame_holds_packet(data, codec, bytes_of(before.sps_pps_cache));
}

/// A frame that was sent with a time comes out with it, under the number that it was sent
/// as, and no frame comes out with the time of another.
pub proof fn law_a_packet_brings_the_time_of_its_frame(
    before: FfmpegEncoder,
    after: FfmpegEncoder,
    data: Seq<u8>,
    is_key: bool,
    number: u64,
    time: u64,
    codec: VideoCodec,
    fps: u32,
    prepend_headers: bool,
    f: EncodedVideoFrame,
)
    requires
        number <= i64::MAX,
        sent_times(before.sent@).contains_pair(number, time),
        packet_turned(
            before,
            after,
            data,
            is_key,
            number as i64,
            codec,
            fps,
            prepend_headers,
            f,
        ),
    ensures
        f.pts == time,
        forall|n: u64| #[trigger]
            sent_times(after.sent@).contains_key(n) ==> sent_times(before.sent@).contains_pair(
                n,
                sent_times(after.sent@)[n],
            ),
        forall|n: u64|
            n > number && #[trigger] sent_times(before.sent@).contains_key(n) ==> sent_times(
                after.sent@,
            ).contains_key(n),
        forall|n: u64| n < number ==> !#[trigger] sent_times(after.sent@).contains_key(n),
{
}

/// A new bitrate is what the codec context is set to, what the encoder would be opened with
/// again, and it comes with a key frame. Nothing else changes.
pub proof fn law_a_new_bitrate_comes_with_a_key_frame(
    before: FfmpegEncoder,
    after: FfmpegEncoder,
    kbps: u32,
    u: RateUpdate,
    b: Backing,
)
    requires
        before.wf(),
        bitrate_set(before, after, kbps, u),
        kbps * 1000 <= i32::MAX,
    ensures
        u.bit_rate == 1000 * kbps && u.rc_max_rate == u.bit_rate && u.rc_buffer_size
            == u.bit_rate,
        settings(after.config->0, b).bit_rate == u.bit_rate,
        settings(after.config->0, b).width == settings(before.config->0, b).width,
        settings(after.config->0, b).height == settings(before.config->0, b).height,
        settings(after.config->0, b).rate == settings(before.config->0, b).rate,
        settings(after.config->0, b).gop_size == settings(before.config->0, b).gop_size,
        after.config->0.codec == before.config->0.codec,
        sends_only(after, before.frame_count, true),
        after.sps_pps_cache == before.sps_pps_cache,
        after.sent == before.sent,
        after.initialized,
{
    lemma_state_sends(after);
}

/// A new frame rate is the one that frames last by and packets are drained by. It asks for
/// no key frame and forgets none that was asked for.
pub proof fn law_a_new_rate_changes_the_rate_only(e: FfmpegEncoder, fps: u32)
    requires
        e.wf(),
    ensures
        ({
            let after = fps_set(e, fps);
            &&& e.initialized && fps > 0 ==> drained_as(after) == Some((e.config->0.codec, fps))
            &&& e.initialized && fps == 0 ==> drained_as(after) == Some(
                (e.config->0.codec, 1u32),
            )
            &&& !e.initialized ==> after == e
            &&& sends_only(after, e.frame_count, e.force_keyframe)
            &&& e.initialized ==> after.config->0.bitrate_kbps == e.config->0.bitrate_kbps
                && after.config->0.width == e.config->0.width && after.config->0.height
                == e.config->0.height
            &&& after.sent == e.sent && after.sps_pps_cache == e.sps_pps_cache
        }),
{
    lemma_state_sends(fps_set(e, fps));
}

/// A frame comes out of the encoder with the time that it went in with. It is sent under a
/// number; the packet that comes back under that number becomes a frame of that time,
/// whatever time any other frame was sent with, and whatever packets of it or of earlier
/// frames come between.
pub proof fn law_a_frame_comes_out_with_its_time(
    before: FfmpegEncoder,
    after: FfmpegEncoder,
    platform: Platform,
    buffer: GpuBuffer,
    cuda_loaded: bool,
    pts_us: u64,
    ops: Seq<EncodeOp>,
    end: FfmpegEncoder,
    data: Seq<u8>,
    is_key: bool,
    number: i64,
    fps: u32,
    prepend_headers: bool,
    f: EncodedVideoFrame,
)
    requires
        encode_plan(before, platform, buffer, cuda_loaded) == Ok::<Seq<EncodeOp>, ErrorView>(ops),
        ops.last() is Send,
        number == ops.last()->pts,
        time_noted(before, after, ops, pts_us),
        packet_turned(
            after,
            end,
            data,
            is_key,
            number,
            before.config->0.codec,
            fps,
            prepend_headers,
            f,
        ),
    ensures
        f.pts == pts_us,
        after.frame_count == before.frame_count && after.force_keyframe == before.force_keyframe,
        after.sps_pps_cache == before.sps_pps_cache && after.config == before.config,
{
    lemma_plan_sends(before, platform, buffer, cuda_loaded);
    assert(ops[ops.len() - 1] == ops.last());
}

/// A step of setting up went well where its call gave what it was to give, and its code, where
/// it has one, is not below zero.
pub proof fn law_when_a_step_of_setting_up_went_well(name: Seq<char>, reply: InitReply)
    ensures
        init_error(name, reply) is None <==> match reply {
            InitReply::Found(there) => there,
            InitReply::ContextAllocated(there) => there,
            InitReply::DeviceCreated { code, present, .. } => code >= 0 && present,
            InitReply::PoolAllocated(there) => there,
            InitReply::PoolInitialized { code, .. } => code >= 0,
            InitReply::PoolShared(there) => there,
            InitReply::Opened { code, .. } => code >= 0,
            InitReply::FramesAllocated { hw_frame, memory_frame, packet } => hw_frame
                && memory_frame && packet,
        },
{
}

/// Where setting up stands after `n` steps went well.
pub open spec fn init_number(b: Backing, n: nat) -> InitStep
    decreases n,
{
    if n == 0 {
        InitStep::FindEncoder
    } else {
        step_after(init_number(b, (n - 1) as nat), b)
    }
}

/// Setting up finds the encoder, makes its context, makes a device and a pool on it where the
/// encoder takes its frames from one, opens the encoder, makes the frames, and is done.
pub proof fn law_the_steps_of_setting_up(b: Backing)
    ensures
        ({
            let pool = b.hw == HwAccelType::Vaapi || b.hw == HwAccelType::Nvenc || b.d3d11 is Some;
            &&& init_number(b, 0) == InitStep::FindEncoder
            &&& init_number(b, 1) == InitStep::AllocContext
            &&& pool ==> init_number(b, 2) == InitStep::CreateDevice && init_number(b, 3)
                == InitStep::AllocPool && init_number(b, 4) == InitStep::InitPool && init_number(
                b,
                5,
            ) == InitStep::SharePool && init_number(b, 6) == InitStep::Open && init_number(b, 7)
                == InitStep::AllocFrames && init_number(b, 8) == InitStep::Finish
            &&& !pool ==> init_number(b, 2) == InitStep::Open && init_number(b, 3)
                == InitStep::AllocFrames && init_number(b, 4) == InitStep::Finish
        }),
{
    reveal_with_fuel(init_number, 9);
}

/// The encoder's CUDA context can be used exactly where it was found and made current.
pub proof fn law_cuda_is_used_where_it_is_current(probe: CudaProbe)
    ensures
        probe_error(probe) is None <==> probe == CudaProbe::Bound(0),
{
}

/// A packet is there where the code is no error, and there is none for now where the encoder
/// wants more or has ended; every other error is one.
pub proof fn law_when_a_packet_is_there(
    code: i32,
    again: i32,
    end: i32,
    message: Seq<char>,
    r: PacketStatus,
)
    requires
        packet_asked(code, again, end, message, r),
        again < 0,
        end < 0,
    ensures
        r is Packet <==> code >= 0,
        r is Done <==> code == again || code == end,
        r is Failed <==> code < 0 && code != again && code != end,
{
}

/// A packet under a number that no frame was sent as has no time.
pub proof fn law_an_unknown_packet_has_no_time(times: Map<u64, u64>, number: i64)
    requires
        number < 0 || !times.contains_key(number as u64),
    ensures
        time_of(times, number as int) == 0,
{
}

} // verus!
