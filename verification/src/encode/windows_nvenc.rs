//! The native NVENC encoder of Windows: its state, the requests it makes of the
//! driver and what it makes of the replies.

use crate::capture::gpu_buffer::GpuBuffer;
use crate::encode::annexb::{append_bytes, idr_at, is_idr_annexb};
use crate::encode::native_setup::{
    first_step, next_step, push_slot_resources, slot_resources, slots_before, step_behind, NativeResource, SetupNext,
    SetupStep,
};
use crate::encode::video_processor::NativeEncoder;
use crate::encode::{
    at_least_one, frame_duration, frame_duration_us, law_frames_fill_a_second, rate_of,
    EncoderConfig,
};
use crate::error::{around_number, ErrorView, MediaError};
use crate::text::{dec, dec_text};
use crate::types::{EncodedVideoFrame, EncoderInfo, FrameType, HwAccelType, VideoCodec};
use vstd::prelude::*;

verus! {

/// Input textures that an encoder cycles through.
pub const INPUT_RING_SIZE: usize = 4;

/// Major version of the driver interface.
pub const NVENCAPI_MAJOR_VERSION: u32 = 12;

/// Status of an encode call that produced nothing yet.
pub const NV_ENC_ERR_NEED_MORE_INPUT: u32 = 10;

/// Type of a picture that can be decoded on its own.
pub const NV_ENC_PIC_TYPE_IDR: u32 = 3;

/// Flags that force such a picture and its headers.
pub const NV_ENC_PIC_FLAGS_IDR: u32 = 6;

/// The number of the NV12 format.
pub const NV_ENC_BUFFER_FORMAT_NV12: u32 = 1;

/// The version word of a driver structure.
pub fn nvenc_struct_version(version: u32) -> (r: u32)
    ensures
        r == (12u32 | (version << 16) | 0x7000_0000u32),
        version < 0x1000 ==> r == 0x7000_000c + version * 0x1_0000,
{
    assert(version < 0x1000 ==> (12u32 | (version << 16) | 0x7000_0000u32) == 0x7000_000c + version
        * 0x1_0000) by (bit_vector);
    12u32 | (version << 16) | 0x7000_0000u32
}

/// The version word of an extended driver structure.
pub fn nvenc_extended_struct_version(version: u32) -> (r: u32)
    ensures
        r == (12u32 | (version << 16) | 0x7000_0000u32 | 0x8000_0000u32),
        version < 0x1000 ==> r == 0xf000_000c + version * 0x1_0000,
{
    assert(version < 0x1000 ==> (12u32 | (version << 16) | 0x7000_0000u32 | 0x8000_0000u32)
        == 0xf000_000c + version * 0x1_0000) by (bit_vector);
    nvenc_struct_version(version) | 0x8000_0000u32
}

/// The error of a driver call with a status other than 0.
pub open spec fn status_error(status: u32, op: Seq<char>) -> ErrorView {
    ErrorView::EncodeError(op + " failed with NVENC status "@ + dec(status as nat))
}

/// Whether a driver call succeeded.
pub fn nvenc_status(status: u32, op: &str) -> (r: Result<(), MediaError>)
    ensures
        match r {
            Ok(_) => status == 0,
            Err(e) => status != 0 && e@ == status_error(status, op@),
        },
{
    if status == 0 {
        Ok(())
    } else {
        let n: String = dec_text(status as u64);
        Err(
            MediaError::EncodeError(
                op.to_owned().concat(" failed with NVENC status ").concat(n.as_str()),
            ),
        )
    }
}

/// The error of a driver call that the function table lacks.
pub fn nvenc_missing(op: &str) -> (e: MediaError)
    ensures
        e@ == ErrorView::EncodeError(op@ + " unavailable in NVENC function table"@),
{
    MediaError::EncodeError(op.to_owned().concat(" unavailable in NVENC function table"))
}

/// A call of the driver, in the order in which an encoder makes them: those of
/// setting up, then those of a picture.
#[derive(Debug, Clone, Copy, PartialEq, Eq, Structural)]
pub enum NvencCall {
    OpenSession,
    CountCodecs,
    ListCodecs,
    CountFormats,
    ListFormats,
    CountPresets,
    ListPresets,
    Initialize,
    RegisterTexture,
    CreateBitstream,
    GetHeaders,
    MapTexture,
    EncodePicture,
    LockBitstream,
}

pub open spec fn call_name(call: NvencCall) -> Seq<char> {
    match call {
        NvencCall::OpenSession => "NvEncOpenEncodeSessionEx"@,
        NvencCall::CountCodecs => "NvEncGetEncodeGUIDCount"@,
        NvencCall::ListCodecs => "NvEncGetEncodeGUIDs"@,
        NvencCall::CountFormats => "NvEncGetInputFormatCount"@,
        NvencCall::ListFormats => "NvEncGetInputFormats"@,
        NvencCall::CountPresets => "NvEncGetEncodePresetCount"@,
        NvencCall::ListPresets => "NvEncGetEncodePresetGUIDs"@,
        NvencCall::Initialize => "NvEncInitializeEncoder"@,
        NvencCall::RegisterTexture => "NvEncRegisterResource"@,
        NvencCall::CreateBitstream => "NvEncCreateBitstreamBuffer"@,
        NvencCall::GetHeaders => "NvEncGetSequenceParams"@,
        NvencCall::MapTexture => "NvEncMapInputResource"@,
        NvencCall::EncodePicture => "NvEncEncodePicture"@,
        NvencCall::LockBitstream => "NvEncLockBitstream"@,
    }
}

/// The error of a call, if it is one: the function table lacks it, or it ended
/// with a status other than 0.
pub open spec fn call_error(call: NvencCall, present: bool, status: u32) -> Option<ErrorView> {
    if !present {
        Some(ErrorView::EncodeError(call_name(call) + " unavailable in NVENC function table"@))
    } else if status != 0 {
        Some(status_error(status, call_name(call)))
    } else {
        None
    }
}

/// Whether a call of the driver succeeded.
pub fn call_result(call: NvencCall, present: bool, status: u32) -> (r: Result<(), MediaError>)
    ensures
        match r {
            Ok(_) => call_error(call, present, status) is None,
            Err(e) => call_error(call, present, status) == Some(e@),
        },
{
    let op: &str = match call {
        NvencCall::OpenSession => "NvEncOpenEncodeSessionEx",
        NvencCall::CountCodecs => "NvEncGetEncodeGUIDCount",
        NvencCall::ListCodecs => "NvEncGetEncodeGUIDs",
        NvencCall::CountFormats => "NvEncGetInputFormatCount",
        NvencCall::ListFormats => "NvEncGetInputFormats",
        NvencCall::CountPresets => "NvEncGetEncodePresetCount",
        NvencCall::ListPresets => "NvEncGetEncodePresetGUIDs",
        NvencCall::Initialize => "NvEncInitializeEncoder",
        NvencCall::RegisterTexture => "NvEncRegisterResource",
        NvencCall::CreateBitstream => "NvEncCreateBitstreamBuffer",
        NvencCall::GetHeaders => "NvEncGetSequenceParams",
        NvencCall::MapTexture => "NvEncMapInputResource",
        NvencCall::EncodePicture => "NvEncEncodePicture",
        NvencCall::LockBitstream => "NvEncLockBitstream",
    };
    if !present {
        return Err(nvenc_missing(op));
    }
    nvenc_status(status, op)
}

/// What loading the driver's library gave.
#[derive(Debug, Clone)]
pub enum NvencLoad {
    /// The library is not there, with the system's description.
    NoLibrary(String),
    NoVersionFunction,
    NoCreateFunction,
    /// Both functions were called: the status and the result of asking for the
    /// version, and the status of creating the function table.
    Loaded { version_status: u32, max_supported: u32, create_status: u32 },
}

/// The error behind a load, if it is one.
pub open spec fn load_error(load: NvencLoad) -> Option<ErrorView> {
    match load {
        NvencLoad::NoLibrary(e) => Some(
            ErrorView::EncoderInitFailed("LoadLibraryA(nvEncodeAPI64.dll) failed: "@ + e@),
        ),
        NvencLoad::NoVersionFunction => Some(
            ErrorView::EncoderInitFailed("NvEncodeAPIGetMaxSupportedVersion not found"@),
        ),
        NvencLoad::NoCreateFunction => Some(
            ErrorView::EncoderInitFailed("NvEncodeAPICreateInstance not found"@),
        ),
        NvencLoad::Loaded { version_status, max_supported, create_status } => if version_status
            != 0 {
            Some(status_error(version_status, "NvEncodeAPIGetMaxSupportedVersion"@))
        } else if max_supported / 16 < NVENCAPI_MAJOR_VERSION {
            Some(
                ErrorView::EncoderInitFailed(
                    "NVIDIA driver NVENC API "@ + dec((max_supported / 16) as nat)
                        + " is older than required 12"@,
                ),
            )
        } else if create_status != 0 {
            Some(status_error(create_status, "NvEncodeAPICreateInstance"@))
        } else {
            None
        },
    }
}

/// Whether the driver can be used.
pub fn load_result(load: &NvencLoad) -> (r: Result<(), MediaError>)
    ensures
        match r {
            Ok(_) => load_error(*load) is None,
            Err(e) => load_error(*load) == Some(e@),
        },
{
    match load {
        NvencLoad::NoLibrary(e) => Err(
            MediaError::EncoderInitFailed(
                "LoadLibraryA(nvEncodeAPI64.dll) failed: ".to_owned().concat(e.as_str()),
            ),
        ),
        NvencLoad::NoVersionFunction => Err(
            MediaError::init_failed("NvEncodeAPIGetMaxSupportedVersion not found"),
        ),
        NvencLoad::NoCreateFunction => Err(
            MediaError::init_failed("NvEncodeAPICreateInstance not found"),
        ),
        NvencLoad::Loaded { version_status, max_supported, create_status } => {
            match nvenc_status(*version_status, "NvEncodeAPIGetMaxSupportedVersion") {
                Ok(_) => {},
                Err(e) => {
                    return Err(e);
                },
            }
            let major: u32 = *max_supported / 16;
            if major < NVENCAPI_MAJOR_VERSION {
                return Err(
                    MediaError::EncoderInitFailed(
                        around_number(
                            "NVIDIA driver NVENC API ",
                            major as u64,
                            " is older than required 12",
                        ),
                    ),
                );
            }
            nvenc_status(*create_status, "NvEncodeAPICreateInstance")
        },
    }
}

/// A globally unique identifier.
#[derive(Debug, Clone, Copy, PartialEq, Eq, Structural)]
pub struct Guid {
    pub data1: u32,
    pub data2: u16,
    pub data3: u16,
    /// The last eight bytes, first byte highest.
    pub data4: u64,
}

/// The identifier of H.264.
pub open spec fn h264_guid() -> Guid {
    Guid { data1: 0x6bc82762, data2: 0x4e63, data3: 0x4ca4, data4: 0xaa851e50f321f6bf }
}

/// Whether `r` says if the driver offers H.264 from NV12.
pub open spec fn support_checked(
    guids: Seq<Guid>,
    guids_written: u32,
    formats: Seq<u32>,
    formats_written: u32,
    r: Result<(), MediaError>,
) -> bool {

    let codec = exists|i: int|
        0 <= i < guids.len() && i < guids_written && #[trigger] guids[i] == h264_guid();
    let format = exists|i: int|
        0 <= i < formats.len() && i < formats_written && #[trigger] formats[i]
            == NV_ENC_BUFFER_FORMAT_NV12;
    match r {
        Ok(_) => codec && format,
        Err(e) => if !codec {
            e@ == ErrorView::EncoderInitFailed("NVENC H.264 GUID not supported"@)
        } else {
            !format && e@ == ErrorView::EncoderInitFailed("NVENC NV12 input not supported"@)
        },
    }

}

/// Whether the driver offers H.264 from NV12, by the identifiers and formats it
/// wrote into the lists that it was given.
pub fn check_h264_nv12_support(
    guids: &Vec<Guid>,
    guids_written: u32,
    formats: &Vec<u32>,
    formats_written: u32,
) -> (r: Result<(), MediaError>)
    ensures
        support_checked(guids@, guids_written, formats@, formats_written, r),
{
    let wanted = Guid {
        data1: 0x6bc82762,
        data2: 0x4e63,
        data3: 0x4ca4,
        data4: 0xaa851e50f321f6bf,
    };
    let mut codec: bool = false;
    let mut i: usize = 0;
    while i < guids.len() && (i as u64) < guids_written as u64 && !codec
        invariant
            i <= guids@.len(),
            wanted == h264_guid(),
            codec ==> exists|j: int|
                0 <= j < guids@.len() && j < guids_written && #[trigger] guids@[j] == h264_guid(),
            !codec ==> forall|j: int|
                0 <= j < i && j < guids_written ==> #[trigger] guids@[j] != h264_guid(),
        decreases guids@.len() - i,
    {
        if guids[i] == wanted {
            codec = true;
            assert(guids@[i as int] == h264_guid());
        }
        i = i + 1;
    }
    if !codec {
        return Err(MediaError::init_failed("NVENC H.264 GUID not supported"));
    }
    let mut format: bool = false;
    let mut k: usize = 0;
    while k < formats.len() && (k as u64) < formats_written as u64 && !format
        invariant
            k <= formats@.len(),
            format ==> exists|j: int|
                0 <= j < formats@.len() && j < formats_written && #[trigger] formats@[j]
                    == NV_ENC_BUFFER_FORMAT_NV12,
            !format ==> forall|j: int|
                0 <= j < k && j < formats_written ==> #[trigger] formats@[j]
                    != NV_ENC_BUFFER_FORMAT_NV12,
        decreases formats@.len() - k,
    {
        if formats[k] == NV_ENC_BUFFER_FORMAT_NV12 {
            format = true;
            assert(formats@[k as int] == NV_ENC_BUFFER_FORMAT_NV12);
        }
        k = k + 1;
    }
    if !format {
        return Err(MediaError::init_failed("NVENC NV12 input not supported"));
    }
    Ok(())
}

/// The preset to use: the first of those that the driver listed.
pub fn choose_preset(count: u32, presets: &Vec<Guid>) -> (r: Result<Guid, MediaError>)
    ensures
        match r {
            Ok(g) => count > 0 && presets@.len() > 0 && g == presets@[0],
            Err(e) => if count == 0 {
                e@ == ErrorView::EncoderInitFailed("NVENC returned no H.264 presets"@)
            } else {
                presets@.len() == 0 && e@ == ErrorView::EncoderInitFailed(
                    "NVENC preset list was empty"@,
                )
            },
        },
{
    if count == 0 {
        return Err(MediaError::init_failed("NVENC returned no H.264 presets"));
    }
    if presets.len() == 0 {
        return Err(MediaError::init_failed("NVENC preset list was empty"));
    }
    Ok(presets[0])
}

/// What the driver's encoder is set up with.
#[derive(Debug, Clone, Copy, PartialEq, Eq, Structural)]
pub struct NvencSetup {
    pub preset: Guid,
    pub width: u32,
    pub height: u32,
    pub frame_rate_num: u32,
    pub frame_rate_den: u32,
    /// Bit 1 lets the driver choose picture types.
    pub flags: u32,
}

/// What the driver's encoder is set up with for a configuration.
pub open spec fn nvenc_setup(config: EncoderConfig, preset: Guid) -> NvencSetup {
    NvencSetup {
        preset,
        width: config.width,
        height: config.height,
        frame_rate_num: rate_of(config.fps),
        frame_rate_den: 1,
        flags: 2,
    }
}

/// What the driver's encoder is set up with for a configuration.
pub fn setup_of(config: &EncoderConfig, preset: Guid) -> (s: NvencSetup)
    ensures
        s == nvenc_setup(*config, preset),
{
    NvencSetup {
        preset,
        width: config.width,
        height: config.height,
        frame_rate_num: if config.fps > 1 {
            config.fps
        } else {
            1
        },
        frame_rate_den: 1,
        flags: 2,
    }
}

/// A picture to encode: where it comes from and what the driver is told.
#[derive(Debug, Clone, Copy, PartialEq, Eq, Structural)]
pub struct NvencPicture {
    pub texture: usize,
    pub array_index: u32,
    /// The input texture to convert into.
    pub slot: usize,
    pub width: u32,
    pub height: u32,
    pub frame_idx: u32,
    pub timestamp: u64,
    pub duration: u64,
    pub flags: u32,
}

/// The NVENC encoder's state. The driver's objects are held by the caller.
pub struct WindowsNvencEncoder {
    pub config: Option<EncoderConfig>,
    pub initialized: bool,
    pub force_keyframe: bool,
    pub frame_count: u64,
    pub next_slot: usize,
    /// Number of input textures.
    pub slots: usize,
    /// A driver session is open.
    pub session: bool,
    /// SPS and PPS as the driver wrote them.
    pub sps_pps: Vec<u8>,
}

/// The Direct3D device and context of a configuration for H.264, as native
/// encoders need them.
pub open spec fn d3d11_of(config: EncoderConfig, unsupported: Seq<char>) -> Result<
    (usize, usize),
    ErrorView,
> {
    if config.codec != VideoCodec::H264 {
        Err(ErrorView::EncoderInitFailed(unsupported))
    } else if config.d3d11_device is None {
        Err(ErrorView::EncoderInitFailed("D3D11 device not available"@))
    } else if config.d3d11_context is None {
        Err(ErrorView::EncoderInitFailed("D3D11 context not available"@))
    } else {
        Ok((config.d3d11_device->0, config.d3d11_context->0))
    }
}

pub(crate) fn find_d3d11(config: &EncoderConfig, unsupported: &str) -> (r: Result<
    (usize, usize),
    MediaError,
>)
    ensures
        match r {
            Ok(p) => d3d11_of(*config, unsupported@) == Ok::<(usize, usize), ErrorView>(p),
            Err(e) => d3d11_of(*config, unsupported@) == Err::<(usize, usize), ErrorView>(e@),
        },
{
    if config.codec != VideoCodec::H264 {
        return Err(MediaError::init_failed(unsupported));
    }
    match config.d3d11_device {
        None => Err(MediaError::init_failed("D3D11 device not available")),
        Some(d) => match config.d3d11_context {
            None => Err(MediaError::init_failed("D3D11 context not available")),
            Some(c) => Ok((d, c)),
        },
    }
}

/// The headers that the driver's reply brings: `size` bytes, where the call
/// succeeded and they fit.
pub open spec fn reply_headers(status: u32, payload: Seq<u8>, size: u32) -> Option<Seq<u8>> {
    if status == 0 && 0 < size <= payload.len() {
        Some(payload.take(size as int))
    } else {
        None
    }
}

/// What is sent of an encoded picture: behind the headers, where it is a key
/// frame that does not begin with them.
pub open spec fn with_prefix(headers: Seq<u8>, data: Seq<u8>, key: bool) -> Seq<u8> {
    if key && headers.len() > 0 && !headers.is_prefix_of(data) {
        headers + data
    } else {
        data
    }
}

pub open spec fn nvenc_key(data: Seq<u8>, picture_type: u32) -> bool {
    picture_type == NV_ENC_PIC_TYPE_IDR || exists|i: int| #[trigger] idr_at(data, i)
}

fn begins_with_bytes(data: &[u8], front: &[u8]) -> (b: bool)
    ensures
        b == front@.is_prefix_of(data@),
{
    if front.len() > data.len() {
        return false;
    }
    for i in 0..front.len()
        invariant
            front@.len() <= data@.len(),
            forall|j: int| 0 <= j < i ==> front@[j] == data@[j],
    {
        if front[i] != data[i] {
            assert(data@.subrange(0, front@.len() as int)[i as int] != front@[i as int]);
            return false;
        }
    }
    assert(data@.subrange(0, front@.len() as int) =~= front@);
    true
}

/// The slot behind `slot` in a ring of `slots`.
pub open spec fn next_in_ring(slot: usize, slots: usize) -> usize {
    ((slot + 1) % (slots as int)) as usize
}

/// The slot that is used `n` pictures after `slot`.
pub open spec fn turned(slot: usize, slots: usize, n: nat) -> usize
    decreases n,
{
    if n == 0 {
        slot
    } else {
        next_in_ring(turned(slot, slots, (n - 1) as nat), slots)
    }
}

/// Whether `after` is `before` once its session is set up, with this reply to the question
/// for the headers.
pub open spec fn nvenc_begun(
    before: WindowsNvencEncoder,
    after: WindowsNvencEncoder,
    config: EncoderConfig,
    status: u32,
    payload: Seq<u8>,
    size: u32,
) -> bool {
    &&& after.wf()
    &&& after.initialized
    &&& after.session
    &&& after.force_keyframe
    &&& after.frame_count == 0
    &&& after.next_slot == before.next_slot
    &&& after.slots == before.slots
    &&& after.config == Some(config)
    &&& after.sps_pps@ == (match reply_headers(status, payload, size) {
        Some(h) => h,
        None => before.sps_pps@,
    })
}

/// Whether `p` is what the driver is told of a buffer, and `after` the encoder then.
pub open spec fn nvenc_taken(
    before: WindowsNvencEncoder,
    after: WindowsNvencEncoder,
    buffer: GpuBuffer,
    pts_us: u64,
    p: NvencPicture,
) -> bool {
    let c = before.config->0;
    &&& before.initialized
    &&& buffer matches GpuBuffer::D3D11Texture { texture, array_index }
    &&& p == (NvencPicture {
        texture,
        array_index,
        slot: before.next_slot,
        width: c.width,
        height: c.height,
        frame_idx: before.frame_count as u32,
        timestamp: pts_us,
        duration: frame_duration(c.fps) as u64,
        flags: before.picture_flags(),
    })
    &&& after == (WindowsNvencEncoder {
        next_slot: next_in_ring(before.next_slot, before.slots),
        ..before
    })
}

/// Whether these are the frames that a fetched bitstream becomes.
pub open spec fn nvenc_drained(
    e: WindowsNvencEncoder,
    data: Seq<u8>,
    picture_type: u32,
    pts_us: u64,
    frames: Seq<EncodedVideoFrame>,
) -> bool {
    &&& data.len() == 0 ==> frames.len() == 0
    &&& data.len() > 0 ==> {
        let f = frames[0];
        &&& frames.len() == 1
        &&& f.data@ == with_prefix(e.sps_pps@, data, nvenc_key(data, picture_type))
        &&& f.frame_type == (if nvenc_key(data, picture_type) {
            FrameType::Key
        } else {
            FrameType::Inter
        })
        &&& f.pts == pts_us
        &&& f.duration == frame_duration(e.config->0.fps)
        &&& f.codec == VideoCodec::H264
    }
}

impl WindowsNvencEncoder {
    /// The flags of the next picture.
    pub open spec fn picture_flags(&self) -> u32 {
        if self.force_keyframe {
            NV_ENC_PIC_FLAGS_IDR
        } else {
            0
        }
    }

    /// The encoder once a picture is done: it counts, and a key frame that was
    /// asked for is no longer owed.
    pub open spec fn after_picture(&self) -> WindowsNvencEncoder {
        WindowsNvencEncoder {
            frame_count: (self.frame_count + 1) as u64,
            force_keyframe: false,
            ..*self
        }
    }

    /// A set-up encoder knows its configuration.
    pub open spec fn wf(&self) -> bool {
        &&& self.initialized ==> self.config is Some && self.session && self.next_slot
            < self.slots
        &&& !self.session ==> self.slots == 0
    }

    /// What the encoder has to release: its slots, then its session.
    pub open spec fn held(&self) -> Seq<NativeResource> {
        if self.session {
            slot_resources(self.slots as nat) + seq![NativeResource::NvencSession]
        } else {
            Seq::empty()
        }
    }

    /// The encoder after a step of setting up succeeded.
    pub open spec fn acquired(&self, step: SetupStep) -> WindowsNvencEncoder {
        match step {
            SetupStep::OpenSession => WindowsNvencEncoder { session: true, ..*self },
            SetupStep::CreateBitstream(_) => WindowsNvencEncoder {
                slots: (self.slots + 1) as usize,
                ..*self
            },
            _ => *self,
        }
    }

    /// The encoder after it was shut down.
    pub open spec fn closed(&self) -> WindowsNvencEncoder {
        WindowsNvencEncoder {
            initialized: false,
            session: false,
            slots: if self.session {
                0
            } else {
                self.slots
            },
            ..*self
        }
    }

    /// An encoder on a loaded driver.
    pub fn new(load: &NvencLoad) -> (r: Result<Self, MediaError>)
        ensures
            match r {
                Ok(e) => load_error(*load) is None && e.wf() && !e.initialized && !e.force_keyframe
                    && e.frame_count == 0 && e.next_slot == 0 && e.slots == 0 && !e.session
                    && e.config is None && e.sps_pps@.len() == 0,
                Err(e) => load_error(*load) == Some(e@),
            },
    {
        match load_result(load) {
            Err(e) => Err(e),
            Ok(_) => Ok(
                WindowsNvencEncoder {
                    config: None,
                    initialized: false,
                    force_keyframe: false,
                    frame_count: 0,
                    next_slot: 0,
                    slots: 0,
                    session: false,
                    sps_pps: Vec::new(),
                },
            ),
        }
    }

    /// Whether an encoder can be made.
    pub fn is_available(load: &NvencLoad) -> (b: bool)
        ensures
            b == (load_error(*load) is None),
    {
        load_result(load).is_ok()
    }

    /// Starts setting up: the device and context to open the session on.
    pub fn initialize(&self, config: &EncoderConfig) -> (r: Result<(usize, usize), MediaError>)
        ensures
            match r {
                Ok(p) => d3d11_of(*config, "native Windows NVENC v1 supports H.264 only"@) == Ok::<
                    (usize, usize),
                    ErrorView,
                >(p),
                Err(e) => d3d11_of(*config, "native Windows NVENC v1 supports H.264 only"@)
                    == Err::<(usize, usize), ErrorView>(e@),
            },
    {
        find_d3d11(config, "native Windows NVENC v1 supports H.264 only")
    }

    /// How setting up goes on after a step: with the next one, or by giving up. What
    /// the step acquired is noted, and where it failed, what was acquired before
    /// stays to be released.
    pub fn setup_step(&mut self, step: SetupStep, outcome: Result<(), MediaError>) -> (r: SetupNext)
        requires
            old(self).wf(),
            step is CreateBitstream ==> old(self).session && old(self).slots < usize::MAX,
        ensures
            final(self).wf(),
            match outcome {
                Ok(_) => *final(self) == old(self).acquired(step) && r == SetupNext::Step(
                    step_behind(NativeEncoder::Nvenc, step),
                ),
                Err(e) => *final(self) == *old(self) && (r matches SetupNext::Fail {
                    error,
                    release,
                } && error == e && release@ == old(self).held()),
            },
    {
        match outcome {
            Err(error) => SetupNext::Fail { error, release: self.to_release() },
            Ok(_) => {
                match step {
                    SetupStep::OpenSession => {
                        self.session = true;
                    },
                    SetupStep::CreateBitstream(_) => {
                        self.slots = self.slots + 1;
                    },
                    _ => {},
                }
                SetupNext::Step(next_step(NativeEncoder::Nvenc, step))
            },
        }
    }

    fn to_release(&self) -> (r: Vec<NativeResource>)
        ensures
            r@ == self.held(),
    {
        let mut r: Vec<NativeResource> = Vec::new();
        if self.session {
            push_slot_resources(&mut r, self.slots);
            r.push(NativeResource::NvencSession);
            assert(r@ =~= self.held());
        }
        r
    }

    /// Ends setting up: the session is open and its input textures are made.
    /// The driver's reply to the question for the headers fills the cache.
    pub fn finish_initialize(
        &mut self,
        config: &EncoderConfig,
        status: u32,
        payload: &[u8],
        size: u32,
    )
        requires
            old(self).session,
            old(self).next_slot < old(self).slots,
        ensures
            nvenc_begun(*old(self), *final(self), *config, status, payload@, size),
    {
        self.config = Some(*config);
        if status == 0 && size > 0 && size as u64 <= payload.len() as u64 {
            let mut h: Vec<u8> = Vec::new();
            append_bytes(&mut h, payload, 0, size as usize);
            assert(h@ =~= payload@.take(size as int));
            self.sps_pps = h;
        }
        self.initialized = true;
        self.force_keyframe = true;
        self.frame_count = 0;
    }

    /// Starts encoding a texture: takes the next input texture and says what
    /// the driver is told. A forced key frame comes with its headers.
    pub fn encode(&mut self, buffer: &GpuBuffer, pts_us: u64) -> (r: Result<
        NvencPicture,
        MediaError,
    >)
        requires
            old(self).wf(),
        ensures
            final(self).wf(),
            match r {
                Ok(p) => nvenc_taken(*old(self), *final(self), *buffer, pts_us, p),
                Err(e) => {
                    &&& *final(self) == *old(self)
                    &&& if !old(self).initialized {
                        e@ == ErrorView::EncoderNotInitialized
                    } else {
                        !(buffer is D3D11Texture) && e@ == ErrorView::EncodeError(
                            "native Windows NVENC requires GpuBuffer::D3D11Texture"@,
                        )
                    }
                },
            },
    {
        if !self.initialized {
            return Err(MediaError::EncoderNotInitialized);
        }
        match buffer {
            GpuBuffer::D3D11Texture { texture, array_index } => {
                let c: EncoderConfig = match self.config {
                    Some(c) => c,
                    None => {
                        return Err(MediaError::EncoderNotInitialized);
                    },
                };
                let slot: usize = self.next_slot;
                self.next_slot = (self.next_slot + 1) % self.slots;
                Ok(
                    NvencPicture {
                        texture: *texture,
                        array_index: *array_index,
                        slot,
                        width: c.width,
                        height: c.height,
                        frame_idx: self.frame_count as u32,
                        timestamp: pts_us,
                        duration: frame_duration_us(c.fps),
                        flags: if self.force_keyframe {
                            NV_ENC_PIC_FLAGS_IDR
                        } else {
                            0
                        },
                    },
                )
            },
            _ => Err(MediaError::encode("native Windows NVENC requires GpuBuffer::D3D11Texture")),
        }
    }

    /// Reads the status of the encode call: whether a bitstream has to be
    /// fetched. Where the driver wants more input first, the frame is done.
    pub fn on_encoded(&mut self, status: u32) -> (r: Result<bool, MediaError>)
        requires
            old(self).frame_count < u64::MAX,
        ensures
            picture_encoded(*old(self), *final(self), status, r),
    {
        if status == NV_ENC_ERR_NEED_MORE_INPUT {
            self.frame_count = self.frame_count + 1;
            self.force_keyframe = false;
            return Ok(false);
        }
        match nvenc_status(status, "NvEncEncodePicture") {
            Ok(_) => Ok(true),
            Err(e) => Err(e),
        }
    }

    /// Turns a fetched bitstream into encoded frames, none where it is empty,
    /// and ends the frame. Key frames begin with the headers.
    pub fn drain_slot(
        &mut self,
        lock_status: u32,
        data: Vec<u8>,
        picture_type: u32,
        pts_us: u64,
    ) -> (r: Result<Vec<EncodedVideoFrame>, MediaError>)
        requires
            old(self).frame_count < u64::MAX,
        ensures
            match r {
                Ok(frames) => {
                    &&& old(self).config is Some
                    &&& lock_status == 0
                    &&& *final(self) == old(self).after_picture()
                    &&& nvenc_drained(*old(self), data@, picture_type, pts_us, frames@)
                },
                Err(e) => {
                    &&& *final(self) == *old(self)
                    &&& if old(self).config is None {
                        e@ == ErrorView::EncoderNotInitialized
                    } else {
                        lock_status != 0 && e@ == status_error(lock_status, "NvEncLockBitstream"@)
                    }
                },
            },
    {
        let c: EncoderConfig = match self.config {
            Some(c) => c,
            None => {
                return Err(MediaError::EncoderNotInitialized);
            },
        };
        match nvenc_status(lock_status, "NvEncLockBitstream") {
            Ok(_) => {},
            Err(e) => {
                return Err(e);
            },
        }
        self.frame_count = self.frame_count + 1;
        self.force_keyframe = false;
        let mut frames: Vec<EncodedVideoFrame> = Vec::new();
        if data.len() == 0 {
            return Ok(frames);
        }
        let key: bool = picture_type == NV_ENC_PIC_TYPE_IDR || is_idr_annexb(data.as_slice());
        let ghost raw = data@;
        let bytes: Vec<u8> = if key && self.sps_pps.len() > 0 && !begins_with_bytes(
            data.as_slice(),
            self.sps_pps.as_slice(),
        ) {
            let mut b: Vec<u8> = Vec::new();
            append_bytes(&mut b, self.sps_pps.as_slice(), 0, self.sps_pps.len());
            append_bytes(&mut b, data.as_slice(), 0, data.len());
            assert(b@ =~= self.sps_pps@ + raw);
            b
        } else {
            data
        };
        frames.push(
            EncodedVideoFrame {
                data: bytes,
                frame_type: if key {
                    FrameType::Key
                } else {
                    FrameType::Inter
                },
                pts: pts_us,
                duration: frame_duration_us(c.fps),
                codec: VideoCodec::H264,
            },
        );
        Ok(frames)
    }

    /// Makes the next picture a key frame.
    pub fn request_keyframe(&mut self)
        ensures
            *final(self) == (WindowsNvencEncoder { force_keyframe: true, ..*old(self) }),
    {
        self.force_keyframe = true;
    }

    /// Notes a new bitrate and makes the next picture a key frame.
    pub fn set_bitrate(&mut self, bitrate_kbps: u32) -> (r: Result<(), MediaError>)
        requires
            old(self).wf(),
        ensures
            final(self).wf(),
            match r {
                Ok(_) => old(self).initialized && *final(self) == (WindowsNvencEncoder {
                    force_keyframe: true,
                    config: Some(EncoderConfig { bitrate_kbps, ..old(self).config->0 }),
                    ..*old(self)
                }),
                Err(e) => !old(self).initialized && e@ == ErrorView::EncoderNotInitialized
                    && *final(self) == *old(self),
            },
    {
        if !self.initialized {
            return Err(MediaError::EncoderNotInitialized);
        }
        if let Some(c) = self.config {
            self.config = Some(EncoderConfig { bitrate_kbps, ..c });
        }
        self.force_keyframe = true;
        Ok(())
    }

    /// Changes the frame rate, at least one frame a second, from the next frame
    /// on. An encoder that is not set up takes no note of it.
    pub fn set_fps(&mut self, fps: u32) -> (r: Result<(), MediaError>)
        requires
            old(self).wf(),
        ensures
            final(self).wf(),
            r is Ok,
            *final(self) == (if old(self).initialized {
                WindowsNvencEncoder {
                    config: Some(EncoderConfig { fps: rate_of(fps), ..old(self).config->0 }),
                    ..*old(self)
                }
            } else {
                *old(self)
            }),
    {
        if !self.initialized {
            return Ok(());
        }
        if let Some(c) = self.config {
            self.config = Some(EncoderConfig { fps: at_least_one(fps), ..c });
        }
        Ok(())
    }

    /// Describes the encoder.
    pub fn encoder_info(&self) -> (i: EncoderInfo)
        ensures
            i.name@ == "native_nvenc_d3d11"@,
            i.hw_type == HwAccelType::Nvenc,
            i.supported_codecs@ == seq![VideoCodec::H264],
    {
        let mut codecs: Vec<VideoCodec> = Vec::new();
        codecs.push(VideoCodec::H264);
        assert(codecs@ =~= seq![VideoCodec::H264]);
        EncoderInfo {
            name: "native_nvenc_d3d11".to_owned(),
            hw_type: HwAccelType::Nvenc,
            supported_codecs: codecs,
        }
    }

    /// Nothing is held back.
    pub fn flush(&self) -> (r: Vec<EncodedVideoFrame>)
        ensures
            r@.len() == 0,
    {
        Vec::new()
    }

    /// Ends the session: what has to be released, in order.
    pub fn shutdown(&mut self) -> (release: Vec<NativeResource>)
        ensures
            release@ == old(self).held(),
            *final(self) == old(self).closed(),
            final(self).held().len() == 0,
    {
        let release: Vec<NativeResource> = self.to_release();
        if self.session {
            self.slots = 0;
        }
        self.session = false;
        self.initialized = false;
        release
    }
}

// ---- Laws ----

/// Where headers are known, every key frame is sent with them in front.
pub proof fn law_nvenc_key_frames_begin_with_headers(
    headers: Seq<u8>,
    data: Seq<u8>,
    picture_type: u32,
)
    requires
        nvenc_key(data, picture_type),
    ensures
        headers.is_prefix_of(with_prefix(headers, data, nvenc_key(data, picture_type))),
{
    assert((headers + data).subrange(0, headers.len() as int) =~= headers);
    if headers.len() == 0 {
        assert(data.subrange(0, 0) =~= headers);
    }
}

/// The slots take turns: a slot is used again after as many pictures as there
/// are slots, and not before.
pub proof fn law_slots_take_turns(slot: usize, slots: usize, n: nat)
    requires
        slot < slots,
        n <= slots,
    ensures
        0 < n < slots ==> turned(slot, slots, n) != slot,
        n == slots ==> turned(slot, slots, n) == slot,
        turned(slot, slots, n) == (if slot + n < slots {
            slot + n
        } else {
            slot + n - slots
        }),
    decreases n,
{
    if n > 0 {
        law_slots_take_turns(slot, slots, (n - 1) as nat);
        let t = turned(slot, slots, (n - 1) as nat);
        if t + 1 < slots {
            assert((t + 1) % (slots as int) == t + 1) by (nonlinear_arith)
                requires
                    0 <= t + 1 < slots,
            ;
        } else {
            assert((slots as int) % (slots as int) == 0) by (nonlinear_arith)
                requires
                    slots > 0,
            ;
        }
    }
}

/// Where setting up stands after `n` steps succeeded: the next step and the encoder.
pub open spec fn nvenc_after_steps(e: WindowsNvencEncoder, n: nat) -> (SetupStep, WindowsNvencEncoder)
    decreases n,
{
    if n == 0 {
        (first_step(NativeEncoder::Nvenc), e)
    } else {
        let before = nvenc_after_steps(e, (n - 1) as nat);
        (step_behind(NativeEncoder::Nvenc, before.0), before.1.acquired(before.0))
    }
}

/// Setting up loses track of nothing: whichever step comes next, what shutting down
/// releases is the session, once it is open, and what every finished slot holds. So
/// a step that fails leaves nothing behind that shutting down would miss. When all
/// is made, the encoder has a session and a full ring.
pub proof fn law_nvenc_setup_tracks_every_resource(e: WindowsNvencEncoder, n: nat)
    requires
        !e.session,
        e.slots == 0,
    ensures
        ({
            let (step, f) = nvenc_after_steps(e, n);
            &&& f.session == (n > 0)
            &&& f.slots == slots_before(step)
            &&& f.held() == (if n > 0 {
                slot_resources(slots_before(step) as nat).push(NativeResource::NvencSession)
            } else {
                Seq::empty()
            })
            &&& step matches SetupStep::CreateBitstream(i) ==> i < INPUT_RING_SIZE
            &&& step matches SetupStep::RegisterTexture(i) ==> i < INPUT_RING_SIZE
            &&& step matches SetupStep::CreateTexture(i) ==> i < INPUT_RING_SIZE
            &&& (step == SetupStep::OpenSession) == (n == 0)
            &&& !(step is BindDevice || step is QueryParameters || step is CreateContext || step is BindContext
                || step is CreateComponent || step is Configure)
        }),
    decreases n,
{
    if n > 0 {
        law_nvenc_setup_tracks_every_resource(e, (n - 1) as nat);
    }
    let (step, f) = nvenc_after_steps(e, n);
    assert(f.held() =~= if n > 0 {
        slot_resources(slots_before(step) as nat).push(NativeResource::NvencSession)
    } else {
        Seq::empty()
    });
}

/// The driver is told of a texture as it is: which one, which slice of it, its size and
/// its time. A key frame comes with its headers where one is owed, and only then. The
/// picture goes into the slot whose turn it is, and the turn goes to the next.
pub proof fn law_nvenc_is_told_of_the_texture(
    before: WindowsNvencEncoder,
    after: WindowsNvencEncoder,
    buffer: GpuBuffer,
    pts_us: u64,
    p: NvencPicture,
)
    requires
        before.wf(),
        nvenc_taken(before, after, buffer, pts_us, p),
    ensures
        buffer == (GpuBuffer::D3D11Texture { texture: p.texture, array_index: p.array_index }),
        p.timestamp == pts_us,
        before.config is Some && before.config->0.width == p.width && before.config->0.height
            == p.height,
        before.config->0.fps > 0 ==> p.duration * before.config->0.fps <= 1_000_000 < (p.duration
            + 1) * before.config->0.fps,
        before.frame_count <= u32::MAX ==> p.frame_idx == before.frame_count,
        before.force_keyframe ==> p.flags == 2 + 4,
        !before.force_keyframe ==> p.flags == 0,
        p.slot == before.next_slot,
        p.slot < before.slots,
        after.next_slot == p.slot + 1 || (after.next_slot == 0 && p.slot + 1 == before.slots),
        after.next_slot < after.slots,
        after.force_keyframe == before.force_keyframe,
        after.frame_count == before.frame_count,
{
    if before.config->0.fps > 0 {
        law_frames_fill_a_second(before.config->0.fps);
        assert(frame_duration(before.config->0.fps) <= 1_000_000) by (nonlinear_arith)
            requires
                frame_duration(before.config->0.fps) * before.config->0.fps <= 1_000_000,
                before.config->0.fps > 0,
        ;
    }
    let n = before.slots as int;
    let s = before.next_slot as int;
    if s + 1 < n {
        vstd::arithmetic::div_mod::lemma_small_mod((s + 1) as nat, n as nat);
    } else {
        vstd::arithmetic::div_mod::lemma_mod_self_0(n);
    }
}

/// A fetched bitstream becomes one frame, or none where it is empty: with the time of the
/// picture, a key frame where the driver says so or an IDR unit is in it. The driver's
/// bytes end the frame, and what stands in front of them are headers of a key frame.
pub proof fn law_nvenc_bitstreams_become_frames(
    e: WindowsNvencEncoder,
    data: Seq<u8>,
    picture_type: u32,
    pts_us: u64,
    frames: Seq<EncodedVideoFrame>,
)
    requires
        nvenc_drained(e, data, picture_type, pts_us, frames),
    ensures
        frames.len() == 0 <==> data.len() == 0,
        frames.len() <= 1,
        data.len() > 0 ==> {
            let f = frames[0];
            let n = f.data@.len() - data.len();
            let idr = exists|i: int| #[trigger] idr_at(data, i);
            &&& f.pts == pts_us
            &&& f.codec == VideoCodec::H264
            &&& picture_type == 3 || idr <==> f.frame_type == FrameType::Key
            &&& f.frame_type == FrameType::Inter ==> f.data@ == data
            &&& n >= 0 && f.data@.skip(n) == data
            &&& f.data@.take(n) == e.sps_pps@ || n == 0
            &&& f.frame_type == FrameType::Key ==> e.sps_pps@.is_prefix_of(f.data@)
            &&& e.config->0.fps > 0 ==> f.duration * e.config->0.fps <= 1_000_000 < (f.duration + 1)
                * e.config->0.fps
        },
{
    if data.len() > 0 {
        let f = frames[0];
        let n = f.data@.len() - data.len();
        if e.config->0.fps > 0 {
            law_frames_fill_a_second(e.config->0.fps);
        }
        if nvenc_key(data, picture_type) {
            law_nvenc_key_frames_begin_with_headers(e.sps_pps@, data, picture_type);
        }
        if f.data@ == data {
            assert(f.data@.skip(n) =~= data);
        } else {
            assert(f.data@.skip(n) =~= data);
            assert(f.data@.take(n) =~= e.sps_pps@);
        }
    }
}

/// A session begins with a key frame, as frame 0, whatever came before. The headers are
/// those that the driver wrote, where it did.
pub proof fn law_nvenc_begins_with_a_key_frame(
    before: WindowsNvencEncoder,
    after: WindowsNvencEncoder,
    config: EncoderConfig,
    status: u32,
    payload: Seq<u8>,
    size: u32,
)
    requires
        nvenc_begun(before, after, config, status, payload, size),
    ensures
        after.picture_flags() == 6,
        after.after_picture().picture_flags() == 0,
        after.frame_count == 0,
        after.config == Some(config),
        status == 0 && 0 < size <= payload.len() ==> after.sps_pps@.len() == size
            && after.sps_pps@.is_prefix_of(payload),
        status != 0 || size == 0 ==> after.sps_pps@ == before.sps_pps@,
        after.next_slot < after.slots,
{
}

/// The driver's encoder has the size and the whole rate of the configuration, at least one
/// frame a second, and chooses picture types itself.
pub proof fn law_nvenc_is_set_up_as_configured(config: EncoderConfig, preset: Guid)
    ensures
        ({
            let s = nvenc_setup(config, preset);
            &&& s.preset == preset
            &&& s.width == config.width && s.height == config.height
            &&& config.fps > 0 ==> s.frame_rate_num == config.fps * s.frame_rate_den
            &&& config.fps == 0 ==> s.frame_rate_num == s.frame_rate_den
            &&& s.frame_rate_den == 1
            &&& s.flags == 2
        }),
{
}

/// A configuration names its device to an encoder for H.264 exactly where it has both the
/// device and its context.
pub proof fn law_native_encoders_need_a_device(config: EncoderConfig, unsupported: Seq<char>)
    ensures
        d3d11_of(config, unsupported) is Ok <==> config.codec == VideoCodec::H264
            && config.d3d11_device is Some && config.d3d11_context is Some,
        d3d11_of(config, unsupported) is Ok ==> config.d3d11_device == Some(
            (d3d11_of(config, unsupported)->Ok_0).0,
        ) && config.d3d11_context == Some((d3d11_of(config, unsupported)->Ok_0).1),
        config.codec != VideoCodec::H264 ==> d3d11_of(config, unsupported) == Err::<
            (usize, usize),
            ErrorView,
        >(ErrorView::EncoderInitFailed(unsupported)),
{
}

/// A driver can be used where both of its functions are there and worked, and its version
/// is 12 or later. The version stands above the low four bits.
pub proof fn law_drivers_from_version_twelve_on_are_used(load: NvencLoad)
    ensures
        load_error(load) is None <==> (load is Loaded && load->version_status == 0
            && load->create_status == 0 && load->max_supported >= 12 * 16),
{
}

/// A driver call succeeds where the function is there and the status is 0.
pub proof fn law_driver_calls_succeed_with_zero(call: NvencCall, present: bool, status: u32)
    ensures
        call_error(call, present, status) is None <==> present && status == 0,
{
}

/// The driver is used where it lists H.264, by its identifier, and NV12, by its number, among
/// what it wrote; what stands behind that in the lists does not count.
pub proof fn law_h264_and_nv12_have_to_be_listed(
    guids: Seq<Guid>,
    guids_written: u32,
    formats: Seq<u32>,
    formats_written: u32,
    r: Result<(), MediaError>,
)
    requires
        support_checked(guids, guids_written, formats, formats_written, r),
    ensures
        r is Ok <==> (exists|i: int|
            0 <= i < guids.len() && i < guids_written && (#[trigger] guids[i]).data1 == 0x6bc82762
                && guids[i].data2 == 0x4e63 && guids[i].data3 == 0x4ca4 && guids[i].data4
                == 0xaa851e50f321f6bf) && (exists|i: int|
            0 <= i < formats.len() && i < formats_written && #[trigger] formats[i] == 1),
{
}

/// What the status of an encode call comes to.
pub open spec fn picture_encoded(
    before: WindowsNvencEncoder,
    after: WindowsNvencEncoder,
    status: u32,
    r: Result<bool, MediaError>,
) -> bool {
    match r {
        Ok(fetch) => {
            &&& fetch == (status == 0)
            &&& !fetch ==> status == NV_ENC_ERR_NEED_MORE_INPUT && after == before.after_picture()
            &&& fetch ==> after == before
        },
        Err(e) => status != 0 && status != NV_ENC_ERR_NEED_MORE_INPUT && e@ == status_error(
            status,
            "NvEncEncodePicture"@,
        ) && after == before,
    }
}

/// An encode call with status 0 has a bitstream to fetch, and one with status 10 has none
/// yet: the picture is counted, and no key frame is owed any more. Every other status is an
/// error that leaves the encoder as it is.
pub proof fn law_encode_calls_have_something_to_fetch(
    before: WindowsNvencEncoder,
    after: WindowsNvencEncoder,
    status: u32,
    r: Result<bool, MediaError>,
)
    requires
        before.frame_count < u64::MAX,
        picture_encoded(before, after, status, r),
    ensures
        r == Ok::<bool, MediaError>(true) <==> status == 0,
        r == Ok::<bool, MediaError>(false) <==> status == 10,
        r is Err <==> status != 0 && status != 10,
        status == 10 ==> after.frame_count == before.frame_count + 1 && !after.force_keyframe,
        status != 10 ==> after == before,
{
}

} // verus!
