//! The native Quick Sync encoder of Windows: its state, the parameters it asks
//! for and what it makes of the library's replies.

use crate::capture::gpu_buffer::GpuBuffer;
use crate::encode::annexb::append_bytes;
use crate::encode::native_setup::{
    first_step, next_step, resource_if, slots_before, step_behind, NativeResource, SetupNext,
    SetupStep,
};
use crate::encode::video_processor::NativeEncoder;
use crate::encode::windows_nvenc::{next_in_ring, INPUT_RING_SIZE};
use crate::encode::{
    at_least_one, frame_duration, frame_duration_us, keyframe_gap, keyframe_gap_of,
    law_frames_fill_a_second, rate_of, EncoderConfig,
};
use crate::error::{with_number, ErrorView, MediaError};
use crate::text::signed_dec;
use crate::types::{EncodedVideoFrame, EncoderInfo, FrameType, HwAccelType, VideoCodec};
use vstd::prelude::*;

verus! {

pub const MFX_ERR_NONE: i32 = 0;

pub const MFX_ERR_MORE_DATA: i32 = 10;

pub const MFX_ERR_MORE_SURFACE: i32 = 12;

pub const MFX_WRN_VIDEO_PARAM_CHANGED: i32 = 14;

/// Frame type flags that ask for a key frame.
pub const MFX_FRAMETYPE_KEY: u16 = 0x008a;

/// `v` raised to a multiple of 16.
pub fn align16(v: u32) -> (r: u32)
    requires
        v + 15 <= u32::MAX,
    ensures
        r == ((v + 15) / 16) * 16,
        v <= r < v + 16,
{
    let w: u32 = v + 15;
    assert((w & !15u32) == (w / 16) * 16) by (bit_vector);
    w & !15u32
}

pub open spec fn aligned(v: u32) -> int {
    ((v + 15) / 16) * 16
}

/// The number of a codec.
pub open spec fn codec_id(codec: VideoCodec) -> i32 {
    match codec {
        VideoCodec::H264 => 4097,
        VideoCodec::H265 => 20976,
        VideoCodec::AV1 => 25601,
    }
}

/// What the library's encoder is asked for.
#[derive(Debug, Clone, Copy, PartialEq, Eq, Structural)]
pub struct QsvParams {
    pub codec_id: i16,
    pub target_usage: i16,
    pub frame_rate: u16,
    pub width: u16,
    pub height: u16,
    pub crop_w: u16,
    pub crop_h: u16,
    pub target_kbps: i16,
    pub rate_control_method: i16,
    pub gop_pic_size: i16,
    pub num_ref_frame: i16,
    pub iopattern: i32,
}

/// Half the bitrate, at least 100.
pub open spec fn target_kbps(bitrate_kbps: u32) -> int {
    if bitrate_kbps / 2 > 100 {
        (bitrate_kbps / 2) as int
    } else {
        100
    }
}

/// What the library's encoder is asked for by a configuration. Numbers that do
/// not fit its 16 bits are cut to their low bits.
pub open spec fn params(codec: VideoCodec, c: EncoderConfig) -> QsvParams {
    QsvParams {
        codec_id: codec_id(codec) as i16,
        target_usage: 4,
        frame_rate: rate_of(c.fps) as u16,
        width: aligned(c.width) as u16,
        height: aligned(c.height) as u16,
        crop_w: c.width as u16,
        crop_h: c.height as u16,
        target_kbps: target_kbps(c.bitrate_kbps) as i16,
        rate_control_method: 2,
        gop_pic_size: keyframe_gap(c) as i16,
        num_ref_frame: 1,
        iopattern: 1,
    }
}

/// The functions of the library that an encoder calls and that may be missing.
#[derive(Debug, Clone, Copy, PartialEq, Eq, Structural)]
pub struct QsvFunctions {
    pub init: bool,
    pub close: bool,
    pub set_handle: bool,
    pub encode_query: bool,
    pub encode_init: bool,
    pub encode_frame: bool,
    pub encode_close: bool,
    pub sync: bool,
}

/// What loading the library gave: its functions, or the system's description of
/// why it is not there.
#[derive(Debug, Clone)]
pub enum QsvLoad {
    NoLibrary(String),
    Loaded(QsvFunctions),
}

/// The error behind a load, if it is one.
pub open spec fn qsv_load_error(load: QsvLoad) -> Option<ErrorView> {
    match load {
        QsvLoad::NoLibrary(e) => Some(
            ErrorView::EncoderInitFailed("LoadLibraryA(libvpl.dll) failed: "@ + e@),
        ),
        QsvLoad::Loaded(f) => if !f.init || !f.close {
            Some(
                ErrorView::EncoderInitFailed(
                    "libvpl.dll missing required MFXInit/MFXClose functions"@,
                ),
            )
        } else if !f.encode_init || !f.encode_frame {
            Some(
                ErrorView::EncoderInitFailed("libvpl.dll missing required encode functions"@),
            )
        } else {
            None
        },
    }
}

/// Whether the library can be used.
pub fn qsv_load_result(load: &QsvLoad) -> (r: Result<QsvFunctions, MediaError>)
    ensures
        match r {
            Ok(f) => qsv_load_error(*load) is None && *load == QsvLoad::Loaded(f),
            Err(e) => qsv_load_error(*load) == Some(e@),
        },
{
    match load {
        QsvLoad::NoLibrary(e) => Err(
            MediaError::EncoderInitFailed(
                "LoadLibraryA(libvpl.dll) failed: ".to_owned().concat(e.as_str()),
            ),
        ),
        QsvLoad::Loaded(f) => if !f.init || !f.close {
            Err(MediaError::init_failed("libvpl.dll missing required MFXInit/MFXClose functions"))
        } else if !f.encode_init || !f.encode_frame {
            Err(MediaError::init_failed("libvpl.dll missing required encode functions"))
        } else {
            Ok(*f)
        },
    }
}

/// What the library's loader gave.
#[derive(Debug, Clone, Copy, PartialEq, Eq, Structural)]
pub struct LoaderReply {
    /// There is a loader.
    pub loaded: bool,
    /// The library can make a session with it.
    pub can_create: bool,
    /// The status of making one.
    pub status: i32,
    pub has_session: bool,
    /// The library can unload it.
    pub can_unload: bool,
}

/// Where a session comes from.
#[derive(Debug, Clone, Copy, PartialEq, Eq, Structural)]
pub enum SessionSource {
    /// The loader made one.
    Loader,
    /// It is made without a loader, which is unloaded first where there is one.
    Implementations { unload: bool },
}

/// Where a session comes from, by what the loader gave.
pub open spec fn source_of(r: LoaderReply) -> SessionSource {
    if r.loaded && r.can_create && r.status == MFX_ERR_NONE && r.has_session {
        SessionSource::Loader
    } else {
        SessionSource::Implementations { unload: r.loaded && r.can_unload }
    }
}

/// Where a session comes from: the loader, where it made one, else the hardware
/// implementations in turn.
pub fn session_source(r: LoaderReply) -> (s: SessionSource)
    ensures
        s == source_of(r),
{
    if r.loaded && r.can_create && r.status == MFX_ERR_NONE && r.has_session {
        SessionSource::Loader
    } else {
        SessionSource::Implementations { unload: r.loaded && r.can_unload }
    }
}

/// The hardware implementation to try next.
pub open spec fn implementation_after(tried: u32, status: i32) -> Option<i32> {
    if tried == 0 {
        Some(1i32)
    } else if tried < 4 && status != MFX_ERR_NONE {
        Some((tried + 1) as i32)
    } else {
        None
    }
}

/// The hardware implementation to try next after `tried` attempts of which the
/// last gave `status`: the four in turn, until one succeeds.
pub fn next_implementation(tried: u32, status: i32) -> (r: Option<i32>)
    ensures
        r == implementation_after(tried, status),
{
    if tried == 0 {
        Some(1)
    } else if tried < 4 && status != MFX_ERR_NONE {
        Some(tried as i32 + 1)
    } else {
        None
    }
}

/// Whether the attempts gave a session: they fail where the first did not
/// succeed and none left a session.
pub fn session_result(first_status: i32, has_session: bool) -> (r: Result<(), MediaError>)
    ensures
        match r {
            Ok(_) => first_status == MFX_ERR_NONE || has_session,
            Err(e) => first_status != MFX_ERR_NONE && !has_session && e@
                == ErrorView::EncoderInitFailed(
                "MFXInit failed with all implementations, last status: "@ + signed_dec(
                    first_status as int,
                ),
            ),
        },
{
    if first_status != MFX_ERR_NONE && !has_session {
        Err(
            MediaError::EncoderInitFailed(
                with_number(
                    "MFXInit failed with all implementations, last status: ",
                    first_status as i64,
                ),
            ),
        )
    } else {
        Ok(())
    }
}

/// A call of the library while an encoder is set up.
#[derive(Debug, Clone, Copy, PartialEq, Eq, Structural)]
pub enum QsvSetupCall {
    SetHandle,
    Query,
    Init,
}

/// The error of a set-up call: a function that is missing, or a status that is
/// neither success nor, for a query, the notice of adjusted parameters.
pub open spec fn setup_error(call: QsvSetupCall, f: QsvFunctions, status: i32) -> Option<
    ErrorView,
> {
    match call {
        QsvSetupCall::SetHandle => if !f.set_handle {
            Some(ErrorView::EncoderInitFailed("MFXVideoCORE_SetHandle not found"@))
        } else if status != MFX_ERR_NONE {
            Some(
                ErrorView::EncoderInitFailed(
                    "MFXVideoCORE_SetHandle(D3D11) failed: "@ + signed_dec(status as int),
                ),
            )
        } else {
            None
        },
        QsvSetupCall::Query => if !f.encode_query {
            Some(ErrorView::EncoderInitFailed("MFXVideoENCODE_Query not found"@))
        } else if status != MFX_ERR_NONE && status != MFX_WRN_VIDEO_PARAM_CHANGED {
            Some(
                ErrorView::EncoderInitFailed(
                    "MFXVideoENCODE_Query failed: "@ + signed_dec(status as int),
                ),
            )
        } else {
            None
        },
        QsvSetupCall::Init => if status != MFX_ERR_NONE {
            Some(
                ErrorView::EncoderInitFailed(
                    "MFXVideoENCODE_Init failed: "@ + signed_dec(status as int),
                ),
            )
        } else {
            None
        },
    }
}

/// Whether a set-up call lets the encoder go on.
pub fn setup_result(call: QsvSetupCall, f: QsvFunctions, status: i32) -> (r: Result<
    (),
    MediaError,
>)
    ensures
        match r {
            Ok(_) => setup_error(call, f, status) is None,
            Err(e) => setup_error(call, f, status) == Some(e@),
        },
{
    match call {
        QsvSetupCall::SetHandle => if !f.set_handle {
            Err(MediaError::init_failed("MFXVideoCORE_SetHandle not found"))
        } else if status != MFX_ERR_NONE {
            Err(
                MediaError::EncoderInitFailed(
                    with_number("MFXVideoCORE_SetHandle(D3D11) failed: ", status as i64),
                ),
            )
        } else {
            Ok(())
        },
        QsvSetupCall::Query => if !f.encode_query {
            Err(MediaError::init_failed("MFXVideoENCODE_Query not found"))
        } else if status != MFX_ERR_NONE && status != MFX_WRN_VIDEO_PARAM_CHANGED {
            Err(
                MediaError::EncoderInitFailed(
                    with_number("MFXVideoENCODE_Query failed: ", status as i64),
                ),
            )
        } else {
            Ok(())
        },
        QsvSetupCall::Init => if status != MFX_ERR_NONE {
            Err(
                MediaError::EncoderInitFailed(
                    with_number("MFXVideoENCODE_Init failed: ", status as i64),
                ),
            )
        } else {
            Ok(())
        },
    }
}

/// A texture to convert and the input texture that takes it.
#[derive(Debug, Clone, Copy, PartialEq, Eq, Structural)]
pub struct QsvPicture {
    pub texture: usize,
    pub array_index: u32,
    pub slot: usize,
    /// The frame type to force, 0 for none.
    pub forced_type: u16,
}

/// What the library wrote for a frame.
#[derive(Debug, Clone, Copy, PartialEq, Eq, Structural)]
pub struct QsvOutput {
    pub encode_status: i32,
    pub sync_status: i32,
    pub data_offset: u32,
    pub data_length: u32,
    pub frame_type: u16,
}

/// The error behind an output, if it is one. Wanting more input is none.
pub open spec fn output_error(o: QsvOutput) -> Option<ErrorView> {
    if o.encode_status == MFX_ERR_MORE_DATA || o.encode_status == MFX_ERR_MORE_SURFACE {
        None
    } else if o.encode_status < 0 {
        Some(
            ErrorView::EncodeError(
                "MFXVideoENCODE_EncodeFrameAsync failed: "@ + signed_dec(o.encode_status as int),
            ),
        )
    } else if o.sync_status != MFX_ERR_NONE {
        Some(
            ErrorView::EncodeError(
                "MFXVideoCORE_SyncOperation failed: "@ + signed_dec(o.sync_status as int),
            ),
        )
    } else {
        None
    }
}

/// Whether an output holds a frame.
pub open spec fn has_frame(o: QsvOutput) -> bool {
    &&& output_error(o) is None
    &&& o.encode_status != MFX_ERR_MORE_DATA
    &&& o.encode_status != MFX_ERR_MORE_SURFACE
    &&& o.data_length > 0
}

/// The flags of a picture that can be decoded on its own.
pub open spec fn key_flags(frame_type: u16) -> bool {
    (frame_type & 0x0008) != 0 || (frame_type & 0x0002) != 0
}

/// The Quick Sync encoder's state. The library's objects are held by the
/// caller.
pub struct WindowsQsvEncoder {
    pub functions: QsvFunctions,
    pub config: Option<EncoderConfig>,
    pub codec: VideoCodec,
    pub initialized: bool,
    pub force_keyframe: bool,
    pub frame_count: u64,
    pub next_slot: usize,
    /// Number of input textures.
    pub slots: usize,
    /// A session is open.
    pub session: bool,
}

/// An encoder once its session is set up.
pub open spec fn qsv_begun(e: WindowsQsvEncoder, config: EncoderConfig) -> WindowsQsvEncoder {
    WindowsQsvEncoder {
        config: Some(config),
        initialized: true,
        force_keyframe: true,
        frame_count: 0,
        ..e
    }
}

/// Whether `p` is what a buffer is taken as, and `after` the encoder then.
pub open spec fn qsv_taken(
    before: WindowsQsvEncoder,
    after: WindowsQsvEncoder,
    buffer: GpuBuffer,
    p: QsvPicture,
) -> bool {
    &&& before.initialized
    &&& buffer matches GpuBuffer::D3D11Texture { texture, array_index }
    &&& p == (QsvPicture {
        texture,
        array_index,
        slot: before.next_slot,
        forced_type: before.forced_type(),
    })
    &&& after == (WindowsQsvEncoder {
        next_slot: next_in_ring(before.next_slot, before.slots),
        ..before
    })
}

/// Whether these are the frames that the library's output becomes.
pub open spec fn qsv_drained(
    e: WindowsQsvEncoder,
    o: QsvOutput,
    bitstream: Seq<u8>,
    pts_us: u64,
    frames: Seq<EncodedVideoFrame>,
) -> bool {
    &&& !has_frame(o) ==> frames.len() == 0
    &&& has_frame(o) ==> {
        let f = frames[0];
        &&& frames.len() == 1
        &&& f.data@ == bitstream.subrange(o.data_offset as int, o.data_offset + o.data_length)
        &&& f.frame_type == (if key_flags(o.frame_type) {
            FrameType::Key
        } else {
            FrameType::Inter
        })
        &&& f.pts == pts_us
        &&& f.duration == (match e.config {
            Some(c) => frame_duration(c.fps),
            None => 0,
        })
        &&& f.codec == e.codec
    }
}

impl WindowsQsvEncoder {
    /// The frame type that the next picture is forced to, 0 for none.
    pub open spec fn forced_type(&self) -> u16 {
        if self.force_keyframe {
            MFX_FRAMETYPE_KEY
        } else {
            0
        }
    }

    /// The encoder once a picture is done: it counts, and a key frame that was
    /// asked for is no longer owed.
    pub open spec fn after_picture(&self) -> WindowsQsvEncoder {
        WindowsQsvEncoder {
            frame_count: (self.frame_count + 1) as u64,
            force_keyframe: false,
            ..*self
        }
    }

    /// A set-up encoder knows its configuration.
    pub open spec fn wf(&self) -> bool {
        self.initialized ==> self.config is Some && self.next_slot < self.slots
    }

    /// What the encoder has to release: with its session, the session's encoder
    /// first, as far as the library has the functions.
    pub open spec fn held(&self) -> Seq<NativeResource> {
        resource_if(
            self.session && self.functions.encode_close,
            NativeResource::QsvEncoder,
        ) + resource_if(self.session && self.functions.close, NativeResource::QsvSession)
    }

    /// The encoder after a step of setting up succeeded.
    pub open spec fn acquired(&self, step: SetupStep) -> WindowsQsvEncoder {
        match step {
            SetupStep::OpenSession => WindowsQsvEncoder { session: true, ..*self },
            SetupStep::CreateTexture(_) => WindowsQsvEncoder {
                slots: (self.slots + 1) as usize,
                ..*self
            },
            _ => *self,
        }
    }

    /// The encoder after it was shut down.
    pub open spec fn closed(&self) -> WindowsQsvEncoder {
        WindowsQsvEncoder { initialized: false, session: false, ..*self }
    }

    /// An encoder on a loaded library.
    pub fn new(load: &QsvLoad) -> (r: Result<Self, MediaError>)
        ensures
            match r {
                Ok(e) => {
                    &&& qsv_load_error(*load) is None
                    &&& *load == QsvLoad::Loaded(e.functions)
                    &&& e.wf()
                    &&& !e.initialized
                    &&& !e.force_keyframe
                    &&& e.frame_count == 0
                    &&& e.next_slot == 0
                    &&& e.slots == 0
                    &&& !e.session
                    &&& e.config is None
                    &&& e.codec == VideoCodec::H264
                },
                Err(e) => qsv_load_error(*load) == Some(e@),
            },
    {
        match qsv_load_result(load) {
            Err(e) => Err(e),
            Ok(functions) => Ok(
                WindowsQsvEncoder {
                    functions,
                    config: None,
                    codec: VideoCodec::H264,
                    initialized: false,
                    force_keyframe: false,
                    frame_count: 0,
                    next_slot: 0,
                    slots: 0,
                    session: false,
                },
            ),
        }
    }

    /// Whether an encoder can be made.
    pub fn is_available(load: &QsvLoad) -> (b: bool)
        ensures
            b == (qsv_load_error(*load) is None),
    {
        qsv_load_result(load).is_ok()
    }

    /// The library's number for the codec.
    pub fn mfx_codec_id(&self) -> (n: i32)
        ensures
            n == codec_id(self.codec),
    {
        match self.codec {
            VideoCodec::H264 => 4097,
            VideoCodec::H265 => 20976,
            VideoCodec::AV1 => 25601,
        }
    }

    /// Starts setting up: the device and context to work on. Every codec is
    /// taken; the encoder remembers which once a device is there.
    pub fn initialize(&mut self, config: &EncoderConfig) -> (r: Result<
        (usize, usize),
        MediaError,
    >)
        ensures
            match r {
                Ok(p) => config.d3d11_device == Some(p.0) && config.d3d11_context == Some(p.1)
                    && *final(self) == (WindowsQsvEncoder { codec: config.codec, ..*old(self) }),
                Err(e) => {
                    &&& *final(self) == *old(self)
                    &&& if config.d3d11_device is None {
                        e@ == ErrorView::EncoderInitFailed("D3D11 device not available"@)
                    } else {
                        config.d3d11_context is None && e@ == ErrorView::EncoderInitFailed(
                            "D3D11 context not available"@,
                        )
                    }
                },
            },
    {
        match config.d3d11_device {
            None => Err(MediaError::init_failed("D3D11 device not available")),
            Some(d) => match config.d3d11_context {
                None => Err(MediaError::init_failed("D3D11 context not available")),
                Some(c) => {
                    self.codec = config.codec;
                    Ok((d, c))
                },
            },
        }
    }

    /// What the library's encoder is asked for.
    pub fn init_encoder(&self, config: &EncoderConfig) -> (p: QsvParams)
        requires
            config.width + 15 <= u32::MAX,
            config.height + 15 <= u32::MAX,
        ensures
            p == params(self.codec, *config),
    {
        let fps: u32 = if config.fps > 1 {
            config.fps
        } else {
            1
        };
        let half: u32 = config.bitrate_kbps / 2;
        let kbps: u32 = if half > 100 {
            half
        } else {
            100
        };
        QsvParams {
            codec_id: self.mfx_codec_id() as i16,
            target_usage: 4,
            frame_rate: fps as u16,
            width: align16(config.width) as u16,
            height: align16(config.height) as u16,
            crop_w: config.width as u16,
            crop_h: config.height as u16,
            target_kbps: kbps as i16,
            rate_control_method: 2,
            gop_pic_size: keyframe_gap_of(config) as i16,
            num_ref_frame: 1,
            iopattern: 1,
        }
    }

    /// How setting up goes on after a step: with the next one, or by giving up. What
    /// the step acquired is noted, and where it failed, what was acquired before
    /// stays to be released.
    pub fn setup_step(&mut self, step: SetupStep, outcome: Result<(), MediaError>) -> (r: SetupNext)
        requires
            old(self).wf(),
            step is CreateTexture ==> old(self).slots < usize::MAX,
        ensures
            final(self).wf(),
            match outcome {
                Ok(_) => *final(self) == old(self).acquired(step) && r == SetupNext::Step(
                    step_behind(NativeEncoder::Qsv, step),
                ),
                Err(e) => *final(self) == *old(self) && (r matches SetupNext::Fail {
                    error,
                    release,
                } && error == e && release@ == old(self).held()),
            },
    {
        match outcome {
            Err(error) => SetupNext::Fail { error, release: self.to_release() },
            Ok(_) => {
                match step {
                    SetupStep::OpenSession => {
                        self.session = true;
                    },
                    SetupStep::CreateTexture(_) => {
                        self.slots = self.slots + 1;
                    },
                    _ => {},
                }
                SetupNext::Step(next_step(NativeEncoder::Qsv, step))
            },
        }
    }

    fn to_release(&self) -> (r: Vec<NativeResource>)
        ensures
            r@ == self.held(),
    {
        let mut r: Vec<NativeResource> = Vec::new();
        if self.session && self.functions.encode_close {
            r.push(NativeResource::QsvEncoder);
        }
        if self.session && self.functions.close {
            r.push(NativeResource::QsvSession);
        }
        assert(r@ =~= self.held());
        r
    }

    /// Ends setting up: the session is open and its input textures are made.
    pub fn finish_initialize(&mut self, config: &EncoderConfig)
        requires
            old(self).session,
            old(self).next_slot < old(self).slots,
        ensures
            final(self).wf(),
            *final(self) == qsv_begun(*old(self), *config),
    {
        self.config = Some(*config);
        self.initialized = true;
        self.force_keyframe = true;
        self.frame_count = 0;
    }

    /// Starts encoding a texture: takes the next input texture.
    pub fn encode(&mut self, buffer: &GpuBuffer) -> (r: Result<QsvPicture, MediaError>)
        requires
            old(self).wf(),
        ensures
            final(self).wf(),
            match r {
                Ok(p) => qsv_taken(*old(self), *final(self), *buffer, p),
                Err(e) => {
                    &&& *final(self) == *old(self)
                    &&& if !old(self).initialized {
                        e@ == ErrorView::EncoderNotInitialized
                    } else {
                        !(buffer is D3D11Texture) && e@ == ErrorView::EncodeError(
                            "native Windows QSV requires GpuBuffer::D3D11Texture"@,
                        )
                    }
                },
            },
    {
        if !self.initialized {
            return Err(MediaError::EncoderNotInitialized);
        }
        match buffer {
            GpuBuffer::D3D11Texture { texture, array_index } => {
                let slot: usize = self.next_slot;
                self.next_slot = (self.next_slot + 1) % self.slots;
                Ok(
                    QsvPicture {
                        texture: *texture,
                        array_index: *array_index,
                        slot,
                        forced_type: if self.force_keyframe {
                            MFX_FRAMETYPE_KEY
                        } else {
                            0
                        },
                    },
                )
            },
            _ => Err(MediaError::encode("native Windows QSV requires GpuBuffer::D3D11Texture")),
        }
    }

    /// Reads what the library wrote for a frame into `bitstream`, and ends the
    /// frame where that is no error.
    pub fn encode_surface(&mut self, o: QsvOutput, bitstream: &[u8], pts_us: u64) -> (r: Result<
        Vec<EncodedVideoFrame>,
        MediaError,
    >)
        requires
            old(self).frame_count < u64::MAX,
            has_frame(o) ==> o.data_offset + o.data_length <= bitstream@.len(),
        ensures
            match r {
                Ok(frames) => {
                    &&& old(self).functions.encode_frame && old(self).functions.sync
                    &&& output_error(o) is None
                    &&& *final(self) == old(self).after_picture()
                    &&& qsv_drained(*old(self), o, bitstream@, pts_us, frames@)
                },
                Err(e) => {
                    &&& *final(self) == *old(self)
                    &&& if !old(self).functions.encode_frame || !old(self).functions.sync {
                        e@ == ErrorView::EncoderNotInitialized
                    } else {
                        output_error(o) == Some(e@)
                    }
                },
            },
    {
        if !self.functions.encode_frame || !self.functions.sync {
            return Err(MediaError::EncoderNotInitialized);
        }
        let mut frames: Vec<EncodedVideoFrame> = Vec::new();
        if o.encode_status == MFX_ERR_MORE_DATA || o.encode_status == MFX_ERR_MORE_SURFACE {
            self.frame_count = self.frame_count + 1;
            self.force_keyframe = false;
            return Ok(frames);
        }
        if o.encode_status < 0 {
            return Err(
                MediaError::EncodeError(
                    with_number(
                        "MFXVideoENCODE_EncodeFrameAsync failed: ",
                        o.encode_status as i64,
                    ),
                ),
            );
        }
        if o.sync_status != MFX_ERR_NONE {
            return Err(
                MediaError::EncodeError(
                    with_number("MFXVideoCORE_SyncOperation failed: ", o.sync_status as i64),
                ),
            );
        }
        if o.data_length > 0 {
            let mut data: Vec<u8> = Vec::new();
            let room: usize = bitstream.len();
            assert(o.data_offset + o.data_length <= room);
            let from: usize = o.data_offset as usize;
            let to: usize = from + o.data_length as usize;
            append_bytes(&mut data, bitstream, from, to);
            assert(data@ =~= bitstream@.subrange(from as int, to as int));
            let key: bool = (o.frame_type & 0x0008) != 0 || (o.frame_type & 0x0002) != 0;
            frames.push(
                EncodedVideoFrame {
                    data,
                    frame_type: if key {
                        FrameType::Key
                    } else {
                        FrameType::Inter
                    },
                    pts: pts_us,
                    duration: match self.config {
                        Some(c) => frame_duration_us(c.fps),
                        None => 0,
                    },
                    codec: self.codec,
                },
            );
        }
        self.frame_count = self.frame_count + 1;
        self.force_keyframe = false;
        Ok(frames)
    }

    /// Makes the next picture a key frame.
    pub fn request_keyframe(&mut self)
        ensures
            *final(self) == (WindowsQsvEncoder { force_keyframe: true, ..*old(self) }),
    {
        self.force_keyframe = true;
    }

    /// Notes a new bitrate and makes the next picture a key frame.
    pub fn set_bitrate(&mut self, bitrate_kbps: u32) -> (r: Result<(), MediaError>)
        requires
            old(self).wf(),
        ensures
            final(self).wf(),
            match r {
                Ok(_) => old(self).initialized && *final(self) == (WindowsQsvEncoder {
                    force_keyframe: true,
                    config: Some(EncoderConfig { bitrate_kbps, ..old(self).config->0 }),
                    ..*old(self)
                }),
                Err(e) => !old(self).initialized && e@ == ErrorView::EncoderNotInitialized
                    && *final(self) == *old(self),
            },
    {
        if !self.initialized {
            return Err(MediaError::EncoderNotInitialized);
        }
        if let Some(c) = self.config {
            self.config = Some(EncoderConfig { bitrate_kbps, ..c });
        }
        self.force_keyframe = true;
        Ok(())
    }

    /// Notes a new frame rate, at least one, and makes the next picture a key
    /// frame.
    pub fn set_fps(&mut self, fps: u32) -> (r: Result<(), MediaError>)
        requires
            old(self).wf(),
        ensures
            final(self).wf(),
            match r {
                Ok(_) => old(self).initialized && *final(self) == (WindowsQsvEncoder {
                    force_keyframe: true,
                    config: Some(EncoderConfig { fps: rate_of(fps), ..old(self).config->0 }),
                    ..*old(self)
                }),
                Err(e) => !old(self).initialized && e@ == ErrorView::EncoderNotInitialized
                    && *final(self) == *old(self),
            },
    {
        if !self.initialized {
            return Err(MediaError::EncoderNotInitialized);
        }
        if let Some(c) = self.config {
            self.config = Some(EncoderConfig { fps: at_least_one(fps), ..c });
        }
        self.force_keyframe = true;
        Ok(())
    }

    /// Describes the encoder.
    pub fn encoder_info(&self) -> (i: EncoderInfo)
        ensures
            i.name@ == "native_qsv_d3d11"@,
            i.hw_type == HwAccelType::Qsv,
            i.supported_codecs@ == seq![VideoCodec::H264, VideoCodec::H265, VideoCodec::AV1],
    {
        let mut codecs: Vec<VideoCodec> = Vec::new();
        codecs.push(VideoCodec::H264);
        codecs.push(VideoCodec::H265);
        codecs.push(VideoCodec::AV1);
        assert(codecs@ =~= seq![VideoCodec::H264, VideoCodec::H265, VideoCodec::AV1]);
        EncoderInfo {
            name: "native_qsv_d3d11".to_owned(),
            hw_type: HwAccelType::Qsv,
            supported_codecs: codecs,
        }
    }

    /// Nothing is held back.
    pub fn flush(&self) -> (r: Vec<EncodedVideoFrame>)
        ensures
            r@.len() == 0,
    {
        Vec::new()
    }

    /// Ends the session: what has to be released, in order. The input textures
    /// are kept.
    pub fn shutdown(&mut self) -> (release: Vec<NativeResource>)
        ensures
            release@ == old(self).held(),
            *final(self) == old(self).closed(),
            final(self).held().len() == 0,
    {
        let release: Vec<NativeResource> = self.to_release();
        self.session = false;
        self.initialized = false;
        release
    }
}

/// Where setting up stands after `n` steps succeeded: the next step and the encoder.
pub open spec fn qsv_after_steps(e: WindowsQsvEncoder, n: nat) -> (SetupStep, WindowsQsvEncoder)
    decreases n,
{
    if n == 0 {
        (first_step(NativeEncoder::Qsv), e)
    } else {
        let before = qsv_after_steps(e, (n - 1) as nat);
        (step_behind(NativeEncoder::Qsv, before.0), before.1.acquired(before.0))
    }
}

/// Setting up loses track of nothing: whichever step comes next, what shutting down
/// releases is the session with its encoder, once it is open. When all is made, the
/// encoder has a session and a full ring.
pub proof fn law_qsv_setup_tracks_every_resource(e: WindowsQsvEncoder, n: nat)
    requires
        !e.session,
        e.slots == 0,
    ensures
        ({
            let (step, f) = qsv_after_steps(e, n);
            &&& f.session == (n > 0)
            &&& f.functions == e.functions
            &&& f.slots == slots_before(step)
            &&& f.held() == resource_if(
                n > 0 && e.functions.encode_close,
                NativeResource::QsvEncoder,
            ) + resource_if(n > 0 && e.functions.close, NativeResource::QsvSession)
            &&& step matches SetupStep::CreateTexture(i) ==> i < INPUT_RING_SIZE
            &&& (step == SetupStep::OpenSession) == (n == 0)
            &&& step is OpenSession || step is BindDevice || step is QueryParameters || step
                is InitEncoder || step is CreateTexture || step is Finish
        }),
    decreases n,
{
    if n > 0 {
        law_qsv_setup_tracks_every_resource(e, (n - 1) as nat);
    }
}

/// Raising to a multiple of 16 gives the least multiple that is not smaller.
pub proof fn law_raised_sizes_are_the_least_multiples(v: u32, m: int)
    ensures
        v <= aligned(v) < v + 16,
        aligned(v) % 16 == 0,
        m % 16 == 0 && m >= v ==> aligned(v) <= m,
{
}

/// The library's encoder is asked for whole blocks that hold the picture, of which the
/// picture is cut out, at the configuration's rate, with half its bitrate and no less than
/// 100, and key frames as far apart as configured. It is asked for its own number of the
/// codec.
pub proof fn law_qsv_is_asked_as_configured(codec: VideoCodec, c: EncoderConfig)
    requires
        c.width + 15 <= u16::MAX,
        c.height + 15 <= u16::MAX,
        c.fps <= 16_000,
        c.bitrate_kbps <= 65_000,
        c.keyframe_interval <= i16::MAX,
    ensures
        ({
            let p = params(codec, c);
            &&& p.crop_w == c.width && p.crop_h == c.height
            &&& c.width <= p.width < c.width + 16 && p.width as int % 16 == 0
            &&& c.height <= p.height < c.height + 16 && p.height as int % 16 == 0
            &&& c.fps > 0 ==> p.frame_rate == c.fps
            &&& c.fps == 0 ==> p.frame_rate == 1
            &&& p.target_kbps >= 100
            &&& c.bitrate_kbps >= 200 ==> c.bitrate_kbps - 1 <= p.target_kbps + p.target_kbps
                <= c.bitrate_kbps
            &&& c.bitrate_kbps < 200 ==> p.target_kbps == 100
            &&& c.keyframe_interval > 0 ==> p.gop_pic_size == c.keyframe_interval
            &&& c.keyframe_interval == 0 && c.fps > 0 ==> p.gop_pic_size == c.fps + c.fps
            &&& codec == VideoCodec::H264 <==> p.codec_id == 4097
            &&& codec == VideoCodec::H265 <==> p.codec_id == 20976
            &&& codec == VideoCodec::AV1 <==> p.codec_id == 25601
            &&& p.target_usage == 4 && p.rate_control_method == 2 && p.num_ref_frame == 1
                && p.iopattern == 1
        }),
{
}

/// A texture is taken as it is, into the slot whose turn it is; the turn goes to the next.
/// A key frame is forced where one is owed, and only then.
pub proof fn law_qsv_takes_the_texture(
    before: WindowsQsvEncoder,
    after: WindowsQsvEncoder,
    buffer: GpuBuffer,
    p: QsvPicture,
)
    requires
        before.wf(),
        qsv_taken(before, after, buffer, p),
    ensures
        buffer == (GpuBuffer::D3D11Texture { texture: p.texture, array_index: p.array_index }),
        before.force_keyframe ==> p.forced_type == 0x80 + 0x8 + 0x2,
        !before.force_keyframe ==> p.forced_type == 0,
        p.slot == before.next_slot,
        p.slot < before.slots,
        after.next_slot == p.slot + 1 || (after.next_slot == 0 && p.slot + 1 == before.slots),
        after.next_slot < after.slots,
        after.force_keyframe == before.force_keyframe,
        after.frame_count == before.frame_count,
        after.config == before.config,
{
    let n = before.slots as int;
    let s = before.next_slot as int;
    if s + 1 < n {
        vstd::arithmetic::div_mod::lemma_small_mod((s + 1) as nat, n as nat);
    } else {
        vstd::arithmetic::div_mod::lemma_mod_self_0(n);
    }
}

/// What the library wrote becomes one frame with the picture's time: exactly the bytes that
/// the library says, a key frame where either flag of a picture that stands alone is set.
/// Where it wants more input, or wrote nothing, there is no frame and no error.
pub proof fn law_qsv_output_becomes_frames(
    e: WindowsQsvEncoder,
    o: QsvOutput,
    bitstream: Seq<u8>,
    pts_us: u64,
    frames: Seq<EncodedVideoFrame>,
)
    requires
        qsv_drained(e, o, bitstream, pts_us, frames),
        has_frame(o) ==> o.data_offset + o.data_length <= bitstream.len(),
    ensures
        output_error(o) is None <==> o.encode_status == 10 || o.encode_status == 12 || (
        o.encode_status >= 0 && o.sync_status == 0),
        frames.len() == 1 <==> (o.encode_status >= 0 && o.encode_status != 10 && o.encode_status
            != 12 && o.sync_status == 0 && o.data_length > 0),
        frames.len() <= 1,
        frames.len() == 1 ==> {
            let f = frames[0];
            &&& f.data@.len() == o.data_length
            &&& forall|i: int|
                0 <= i < o.data_length ==> #[trigger] f.data@[i] == bitstream[o.data_offset + i]
            &&& f.frame_type == FrameType::Key <==> (o.frame_type as int / 8 % 2 == 1
                || o.frame_type as int / 2 % 2 == 1)
            &&& f.pts == pts_us
            &&& f.codec == e.codec
            &&& e.config is Some && e.config->0.fps > 0 ==> f.duration * e.config->0.fps
                <= 1_000_000 < (f.duration + 1) * e.config->0.fps
        },
{
    let t: u16 = o.frame_type;
    assert(((t & 0x0008) != 0) == ((t / 8) % 2 == 1)) by (bit_vector);
    assert(((t & 0x0002) != 0) == ((t / 2) % 2 == 1)) by (bit_vector);
    if e.config is Some && e.config->0.fps > 0 {
        law_frames_fill_a_second(e.config->0.fps);
    }
}

/// A session begins with a key frame, as frame 0, whatever came before; the next one is
/// none.
pub proof fn law_qsv_begins_with_a_key_frame(e: WindowsQsvEncoder, config: EncoderConfig)
    ensures
        ({
            let b = qsv_begun(e, config);
            &&& b.forced_type() != 0
            &&& b.after_picture().forced_type() == 0
            &&& b.frame_count == 0
            &&& b.initialized
            &&& b.config == Some(config)
            &&& b.slots == e.slots && b.next_slot == e.next_slot && b.codec == e.codec
        }),
{
}

/// The library can be used where the functions to open and close a session, to set an
/// encoder up and to encode are there.
pub proof fn law_qsv_needs_four_functions(load: QsvLoad)
    ensures
        qsv_load_error(load) is None <==> (load is Loaded && load->Loaded_0.init
            && load->Loaded_0.close && load->Loaded_0.encode_init && load->Loaded_0.encode_frame),
{
}

/// A set-up call lets the encoder go on with status 0, and a query also where parameters
/// were adjusted; the functions that may be missing have to be there.
pub proof fn law_qsv_goes_on_with_zero(call: QsvSetupCall, f: QsvFunctions, status: i32)
    ensures
        setup_error(call, f, status) is None <==> match call {
            QsvSetupCall::SetHandle => f.set_handle && status == 0,
            QsvSetupCall::Query => f.encode_query && (status == 0 || status == 14),
            QsvSetupCall::Init => status == 0,
        },
{
}

/// A session comes from the loader exactly where the loader is there, can make one, and did.
/// Else a loader that is there is unloaded where that can be done.
pub proof fn law_the_loader_comes_first(r: LoaderReply)
    ensures
        source_of(r) == SessionSource::Loader <==> r.loaded && r.can_create && r.status == 0
            && r.has_session,
        source_of(r) matches SessionSource::Implementations { unload } ==> (unload <==> r.loaded
            && r.can_unload),
{
}

/// The implementations are tried one after the other from the first to the fourth, each one
/// only where the one before it failed; one that succeeds ends it.
pub proof fn law_implementations_are_tried_in_turn(tried: u32, status: i32)
    ensures
        implementation_after(tried, status) is Some <==> tried == 0 || (tried < 4 && status != 0),
        implementation_after(tried, status) is Some ==> implementation_after(tried, status)->0
            == tried + 1,
{
}

} // verus!
