//! The native AMF encoder of Windows: its state, the properties it sets and
//! what it makes of the runtime's replies.

use crate::capture::gpu_buffer::GpuBuffer;
use crate::encode::annexb::{idr_at, is_idr_annexb};
use crate::encode::native_setup::{
    first_step, next_step, resource_if, slots_before, step_behind, NativeResource, SetupNext,
    SetupStep,
};
use crate::encode::video_processor::NativeEncoder;
use crate::encode::windows_nvenc::{d3d11_of, find_d3d11, next_in_ring, INPUT_RING_SIZE};
use crate::encode::{
    at_least_one, frame_duration, frame_duration_us, keyframe_gap, keyframe_gap_of,
    law_frames_fill_a_second, rate_of, EncoderConfig,
};
use crate::error::{with_number, ErrorView, MediaError};
use crate::text::{is_switched_on, signed_dec, signed_text, switched_on, utf16, wide_text};
use crate::types::{EncodedVideoFrame, EncoderInfo, FrameType, HwAccelType, VideoCodec};
use vstd::prelude::*;

verus! {

pub const AMF_OK: i32 = 0;

pub const AMF_ALREADY_INITIALIZED: i32 = 12;

/// The stream has ended.
pub const AMF_EOF: i32 = 23;

/// Nothing is ready.
pub const AMF_REPEAT: i32 = 24;

/// The queue of inputs is full.
pub const AMF_INPUT_FULL: i32 = 25;

/// The picture type of a key frame.
pub const PICTURE_TYPE_IDR: i64 = 2;

/// `value` raised to a multiple of `alignment`.
pub fn align_to(value: u32, alignment: u32) -> (r: u32)
    requires
        alignment > 0,
        value + alignment - 1 <= u32::MAX,
    ensures
        r == ((value + alignment - 1) / (alignment as int)) * alignment,
        value <= r < value + alignment,
{
    let n: u32 = (value + (alignment - 1)) / alignment;
    assert(n * alignment <= value + alignment - 1 < n * alignment + alignment) by (nonlinear_arith)
        requires
            alignment > 0,
            n == (value + (alignment - 1)) / (alignment as int),
    ;
    n * alignment
}

/// The error of a runtime call that failed.
pub open spec fn amf_error(status: i32, op: Seq<char>) -> ErrorView {
    ErrorView::EncodeError(op + " failed with AMF status "@ + signed_dec(status as int))
}

pub open spec fn amf_success(status: i32) -> bool {
    status == AMF_OK || status == AMF_ALREADY_INITIALIZED
}

/// Whether a runtime call succeeded.
pub fn amf_ok(status: i32, op: &str) -> (r: Result<(), MediaError>)
    ensures
        match r {
            Ok(_) => amf_success(status),
            Err(e) => !amf_success(status) && e@ == amf_error(status, op@),
        },
{
    if status == AMF_OK || status == AMF_ALREADY_INITIALIZED {
        Ok(())
    } else {
        let n: String = signed_text(status as i64);
        Err(
            MediaError::EncodeError(
                op.to_owned().concat(" failed with AMF status ").concat(n.as_str()),
            ),
        )
    }
}

/// A name as the runtime takes it: UTF-16 with a zero at the end.
pub fn amf_wide(name: &str) -> (r: Vec<u16>)
    ensures
        r@ == utf16(name@).push(0u16),
{
    wide_text(name)
}

/// A property's value.
#[derive(Debug, Clone, Copy, PartialEq, Eq, Structural)]
pub enum AmfVariant {
    Bool(bool),
    Int64(i64),
    Size { width: i32, height: i32 },
    Rate { num: u32, den: u32 },
}

/// The number by which the runtime tells a value's type.
pub open spec fn variant_type(v: AmfVariant) -> i32 {
    match v {
        AmfVariant::Bool(_) => 1,
        AmfVariant::Int64(_) => 2,
        AmfVariant::Size { .. } => 5,
        AmfVariant::Rate { .. } => 7,
    }
}

impl AmfVariant {
    /// The number by which the runtime tells the value's type.
    pub fn type_number(&self) -> (n: i32)
        ensures
            n == variant_type(*self),
    {
        match self {
            AmfVariant::Bool(_) => 1,
            AmfVariant::Int64(_) => 2,
            AmfVariant::Size { .. } => 5,
            AmfVariant::Rate { .. } => 7,
        }
    }
}

/// A truth value.
pub fn amf_variant_bool(value: bool) -> (v: AmfVariant)
    ensures
        v == AmfVariant::Bool(value),
{
    AmfVariant::Bool(value)
}

/// A whole number.
pub fn amf_variant_int64(value: i64) -> (v: AmfVariant)
    ensures
        v == AmfVariant::Int64(value),
{
    AmfVariant::Int64(value)
}

/// A size; its numbers are cut to their low 32 bits with sign.
pub fn amf_variant_size(width: u32, height: u32) -> (v: AmfVariant)
    ensures
        v == (AmfVariant::Size { width: width as i32, height: height as i32 }),
{
    AmfVariant::Size { width: width as i32, height: height as i32 }
}

/// A rate, with a denominator of at least one.
pub fn amf_variant_rate(num: u32, den: u32) -> (v: AmfVariant)
    ensures
        v == (AmfVariant::Rate {
            num,
            den: if den > 1 {
                den
            } else {
                1
            },
        }),
{
    AmfVariant::Rate {
        num,
        den: if den > 1 {
            den
        } else {
            1
        },
    }
}

/// A property to set. The runtime may refuse those that are not required.
#[derive(Debug, Clone, Copy)]
pub struct AmfProperty {
    pub name: &'static str,
    pub value: AmfVariant,
    pub required: bool,
}

/// The name, value and necessity behind a list of properties.
pub open spec fn properties(v: Seq<AmfProperty>) -> Seq<(Seq<char>, AmfVariant, bool)> {
    v.map_values(|p: AmfProperty| (p.name@, p.value, p.required))
}

/// The properties of an encoder for a configuration, in order.
pub open spec fn encoder_properties(c: EncoderConfig) -> Seq<(Seq<char>, AmfVariant, bool)> {
    let bitrate = AmfVariant::Int64((c.bitrate_kbps * 1000) as i64);
    let gap = AmfVariant::Int64(keyframe_gap(c) as i64);
    let fast: i64 = if c.low_latency {
        1
    } else {
        0
    };
    seq![
        ("Usage"@, AmfVariant::Int64(fast), true),
        (
            "FrameSize"@,
            AmfVariant::Size { width: c.width as i32, height: c.height as i32 },
            true,
        ),
        ("FrameRate"@, AmfVariant::Rate { num: rate_of(c.fps), den: 1 }, true),
        ("TargetBitrate"@, bitrate, false),
        ("PeakBitrate"@, bitrate, false),
        ("RateControlMethod"@, AmfVariant::Int64(1), false),
        ("QualityPreset"@, AmfVariant::Int64(fast), false),
        ("BPicturesPattern"@, AmfVariant::Int64(0), false),
        ("LowLatencyInternal"@, AmfVariant::Bool(c.low_latency), false),
        ("IDRPeriod"@, gap, false),
        ("HeaderInsertionSpacing"@, gap, false),
        ("OutputMode"@, AmfVariant::Int64(0), false),
        ("QueryTimeout"@, AmfVariant::Int64(0), false),
    ]
}

fn add_property(v: &mut Vec<AmfProperty>, name: &'static str, value: AmfVariant, required: bool)
    ensures
        properties(final(v)@) == properties(old(v)@).push((name@, value, required)),
{
    let ghost v0 = properties(v@);
    v.push(AmfProperty { name, value, required });
    assert(properties(v@) =~= v0.push((name@, value, required)));
}

/// The properties of an encoder for a configuration, in order.
pub fn configure_component(config: &EncoderConfig) -> (r: Vec<AmfProperty>)
    ensures
        properties(r@) == encoder_properties(*config),
{
    let bitrate: AmfVariant = amf_variant_int64(config.bitrate_kbps as i64 * 1000);
    let gap: AmfVariant = amf_variant_int64(keyframe_gap_of(config) as i64);
    let fast: i64 = if config.low_latency {
        1
    } else {
        0
    };
    let fps: u32 = if config.fps > 1 {
        config.fps
    } else {
        1
    };
    let mut v: Vec<AmfProperty> = Vec::new();
    add_property(&mut v, "Usage", amf_variant_int64(fast), true);
    add_property(&mut v, "FrameSize", amf_variant_size(config.width, config.height), true);
    add_property(&mut v, "FrameRate", amf_variant_rate(fps, 1), true);
    add_property(&mut v, "TargetBitrate", bitrate, false);
    add_property(&mut v, "PeakBitrate", bitrate, false);
    add_property(&mut v, "RateControlMethod", amf_variant_int64(1), false);
    add_property(&mut v, "QualityPreset", amf_variant_int64(fast), false);
    add_property(&mut v, "BPicturesPattern", amf_variant_int64(0), false);
    add_property(&mut v, "LowLatencyInternal", amf_variant_bool(config.low_latency), false);
    add_property(&mut v, "IDRPeriod", gap, false);
    add_property(&mut v, "HeaderInsertionSpacing", gap, false);
    add_property(&mut v, "OutputMode", amf_variant_int64(0), false);
    add_property(&mut v, "QueryTimeout", amf_variant_int64(0), false);
    assert(properties(v@) =~= encoder_properties(*config));
    v
}

/// Whether setting a property lets the encoder go on: a refusal counts only for
/// a required property.
pub fn property_result(p: &AmfProperty, status: i32) -> (r: Result<(), MediaError>)
    ensures
        match r {
            Ok(_) => amf_success(status) || !p.required,
            Err(e) => p.required && !amf_success(status) && e@ == amf_error(
                status,
                "AMFComponent::SetProperty("@ + p.name@ + ")"@,
            ),
        },
{
    let op: String = "AMFComponent::SetProperty(".to_owned().concat(p.name).concat(")");
    match amf_ok(status, op.as_str()) {
        Ok(_) => Ok(()),
        Err(e) => if p.required {
            Err(e)
        } else {
            Ok(())
        },
    }
}

/// The properties that change the bitrate of an encoder whose component exists.
pub open spec fn rate_properties(component: bool, bitrate_kbps: u32) -> Seq<
    (Seq<char>, AmfVariant, bool),
> {
    let bitrate = AmfVariant::Int64((bitrate_kbps * 1000) as i64);
    if component {
        seq![("TargetBitrate"@, bitrate, true), ("PeakBitrate"@, bitrate, false)]
    } else {
        Seq::empty()
    }
}

/// Something that the runtime makes.
#[derive(Debug, Clone, Copy, PartialEq, Eq, Structural)]
pub enum AmfObject {
    Context,
    Component,
    Surface,
}

/// The error of making an object, if it is one: by the status of the call, and
/// by whether it gave anything.
pub open spec fn creation_error(object: AmfObject, status: i32, present: bool) -> Option<
    ErrorView,
> {
    if !amf_success(status) {
        Some(
            amf_error(
                status,
                match object {
                    AmfObject::Context => "AMFFactory::CreateContext"@,
                    AmfObject::Component =>
                        "AMFFactory::CreateComponent(AMFVideoEncoderVCE_AVC)"@,
                    AmfObject::Surface => "AMFContext::CreateSurfaceFromDX11Native"@,
                },
            ),
        )
    } else if !present {
        Some(
            match object {
                AmfObject::Context => ErrorView::EncoderInitFailed(
                    "AMF CreateContext returned null"@,
                ),
                AmfObject::Component => ErrorView::EncoderInitFailed(
                    "AMF CreateComponent returned null"@,
                ),
                AmfObject::Surface => ErrorView::EncodeError("AMF returned null surface"@),
            },
        )
    } else {
        None
    }
}

/// Whether the runtime made an object.
pub fn creation_result(object: AmfObject, status: i32, present: bool) -> (r: Result<(), MediaError>)
    ensures
        match r {
            Ok(_) => creation_error(object, status, present) is None,
            Err(e) => creation_error(object, status, present) == Some(e@),
        },
{
    let op: &str = match object {
        AmfObject::Context => "AMFFactory::CreateContext",
        AmfObject::Component => "AMFFactory::CreateComponent(AMFVideoEncoderVCE_AVC)",
        AmfObject::Surface => "AMFContext::CreateSurfaceFromDX11Native",
    };
    match amf_ok(status, op) {
        Err(e) => Err(e),
        Ok(_) => if present {
            Ok(())
        } else {
            match object {
                AmfObject::Context => Err(
                    MediaError::init_failed("AMF CreateContext returned null"),
                ),
                AmfObject::Component => Err(
                    MediaError::init_failed("AMF CreateComponent returned null"),
                ),
                AmfObject::Surface => Err(MediaError::encode("AMF returned null surface")),
            }
        },
    }
}

/// A call that prepares something that the runtime made.
#[derive(Debug, Clone, Copy, PartialEq, Eq, Structural)]
pub enum AmfCall {
    /// Bind the context to the Direct3D device.
    InitContext,
    InitComponent,
    SetCrop,
}

pub open spec fn amf_call_name(call: AmfCall) -> Seq<char> {
    match call {
        AmfCall::InitContext => "AMFContext::InitDX11"@,
        AmfCall::InitComponent => "AMFComponent::Init"@,
        AmfCall::SetCrop => "AMFSurface::SetCrop"@,
    }
}

/// Whether such a call succeeded.
pub fn amf_call_result(call: AmfCall, status: i32) -> (r: Result<(), MediaError>)
    ensures
        match r {
            Ok(_) => amf_success(status),
            Err(e) => !amf_success(status) && e@ == amf_error(status, amf_call_name(call)),
        },
{
    match call {
        AmfCall::InitContext => amf_ok(status, "AMFContext::InitDX11"),
        AmfCall::InitComponent => amf_ok(status, "AMFComponent::Init"),
        AmfCall::SetCrop => amf_ok(status, "AMFSurface::SetCrop"),
    }
}

/// The properties of a surface that becomes a key frame with its headers, in
/// order.
pub open spec fn key_properties() -> Seq<(Seq<char>, AmfVariant, bool)> {
    seq![
        ("ForcePictureType"@, AmfVariant::Int64(PICTURE_TYPE_IDR), true),
        ("InsertSPS"@, AmfVariant::Bool(true), true),
        ("InsertPPS"@, AmfVariant::Bool(true), true),
    ]
}

/// The properties to set on a surface: those of a key frame where one is forced.
pub fn surface_properties(plan: &AmfSurfacePlan) -> (r: Vec<AmfProperty>)
    ensures
        properties(r@) == (if plan.force_idr {
            key_properties()
        } else {
            Seq::empty()
        }),
{
    let mut v: Vec<AmfProperty> = Vec::new();
    assert(properties(v@) =~= Seq::empty());
    if plan.force_idr {
        add_property(&mut v, "ForcePictureType", AmfVariant::Int64(PICTURE_TYPE_IDR), true);
        add_property(&mut v, "InsertSPS", AmfVariant::Bool(true), true);
        add_property(&mut v, "InsertPPS", AmfVariant::Bool(true), true);
        assert(properties(v@) =~= key_properties());
    }
    v
}

/// Whether setting a surface's property succeeded.
pub fn surface_property_result(p: &AmfProperty, status: i32) -> (r: Result<(), MediaError>)
    ensures
        match r {
            Ok(_) => amf_success(status),
            Err(e) => !amf_success(status) && e@ == amf_error(
                status,
                "AMFSurface::SetProperty("@ + p.name@ + ")"@,
            ),
        },
{
    let op: String = "AMFSurface::SetProperty(".to_owned().concat(p.name).concat(")");
    amf_ok(status, op.as_str())
}

/// What an input surface is told before it is submitted.
#[derive(Debug, Clone, Copy, PartialEq, Eq, Structural)]
pub struct AmfSurfacePlan {
    pub crop_width: i32,
    pub crop_height: i32,
    /// Force a key frame with its SPS and PPS.
    pub force_idr: bool,
    /// Time in units of 100 nanoseconds.
    pub pts: i64,
    /// Duration in units of 100 nanoseconds.
    pub duration: i64,
}

/// What comes after a submission.
#[derive(Debug)]
pub enum AmfNext {
    /// Fetch the output, which ends the frame.
    Drain,
    /// Fetch the output, then submit the picture once more.
    DrainAndRetry,
    Failed(MediaError),
}

/// Whether `r` is what comes after a submission that ended with a status.
pub open spec fn submitted(status: i32, retry: bool, r: AmfNext) -> bool {
    match r {
        AmfNext::DrainAndRetry => status == AMF_INPUT_FULL && !retry,
        AmfNext::Drain => amf_success(status),
        AmfNext::Failed(e) => !amf_success(status) && (status == AMF_INPUT_FULL ==> retry)
            && e@ == amf_error(
            status,
            if retry {
                "AMFComponent::SubmitInput retry"@
            } else {
                "AMFComponent::SubmitInput"@
            },
        ),
    }
}

/// What asking for output gave.
#[derive(Debug)]
pub enum AmfOutput {
    /// No more for now.
    Done,
    /// A buffer to read.
    Take,
    Failed(MediaError),
}

/// Whether `r` is what asking for output gave.
pub open spec fn output_asked(status: i32, has_data: bool, r: AmfOutput) -> bool {
    match r {
        AmfOutput::Done => status == AMF_REPEAT || !has_data || status == AMF_EOF,
        AmfOutput::Take => status != AMF_REPEAT && has_data && status != AMF_EOF && amf_success(
            status,
        ),
        AmfOutput::Failed(e) => status != AMF_REPEAT && has_data && status != AMF_EOF
            && !amf_success(status) && e@ == amf_error(status, "AMFComponent::QueryOutput"@),
    }
}

/// Reads the reply to a request for output.
pub fn query_output_result(status: i32, has_data: bool) -> (r: AmfOutput)
    ensures
        output_asked(status, has_data, r),
{
    if status == AMF_REPEAT || !has_data || status == AMF_EOF {
        return AmfOutput::Done;
    }
    match amf_ok(status, "AMFComponent::QueryOutput") {
        Ok(_) => AmfOutput::Take,
        Err(e) => AmfOutput::Failed(e),
    }
}

/// Whether the output is a buffer.
pub fn buffer_result(status: i32, has_buffer: bool) -> (r: Result<(), MediaError>)
    ensures
        match r {
            Ok(_) => status == AMF_OK && has_buffer,
            Err(e) => (status != AMF_OK || !has_buffer) && e@ == ErrorView::EncodeError(
                "AMF QueryInterface(AMFBuffer) failed: "@ + signed_dec(status as int),
            ),
        },
{
    if status != AMF_OK || !has_buffer {
        Err(
            MediaError::EncodeError(
                with_number("AMF QueryInterface(AMFBuffer) failed: ", status as i64),
            ),
        )
    } else {
        Ok(())
    }
}

/// What comes after a request to drain the encoder when it is flushed.
#[derive(Debug)]
pub enum AmfFlush {
    /// Fetch the output and ask again.
    Again,
    /// Fetch the last output.
    Last,
    Failed(MediaError),
}

/// Whether `r` is what comes after a request to drain.
pub open spec fn drain_asked(status: i32, r: AmfFlush) -> bool {
    match r {
        AmfFlush::Again => status == AMF_INPUT_FULL,
        AmfFlush::Last => status == AMF_EOF || amf_success(status),
        AmfFlush::Failed(e) => status != AMF_INPUT_FULL && status != AMF_EOF && !amf_success(
            status,
        ) && e@ == amf_error(status, "AMFComponent::Drain"@),
    }
}

/// Reads the reply to a request to drain.
pub fn drain_result(status: i32) -> (r: AmfFlush)
    ensures
        drain_asked(status, r),
{
    if status == AMF_INPUT_FULL {
        return AmfFlush::Again;
    }
    if status == AMF_EOF {
        return AmfFlush::Last;
    }
    match amf_ok(status, "AMFComponent::Drain") {
        Ok(_) => AmfFlush::Last,
        Err(e) => AmfFlush::Failed(e),
    }
}

/// What loading the runtime's library gave.
#[derive(Debug, Clone)]
pub enum AmfLoad {
    /// The library is not there, with the system's description.
    NoLibrary(String),
    NoInit,
    NoQuery,
    /// Both functions were called: the statuses, and whether a factory came.
    Loaded { query_status: i32, init_status: i32, has_factory: bool },
}

/// The error behind a load, if it is one.
pub open spec fn amf_load_error(load: AmfLoad) -> Option<ErrorView> {
    match load {
        AmfLoad::NoLibrary(e) => Some(
            ErrorView::EncoderInitFailed("LoadLibraryA(amfrt64.dll) failed: "@ + e@),
        ),
        AmfLoad::NoInit => Some(ErrorView::EncoderInitFailed("AMFInit not found"@)),
        AmfLoad::NoQuery => Some(ErrorView::EncoderInitFailed("AMFQueryVersion not found"@)),
        AmfLoad::Loaded { query_status, init_status, has_factory } => if !amf_success(
            query_status,
        ) {
            Some(amf_error(query_status, "AMFQueryVersion"@))
        } else if !amf_success(init_status) {
            Some(amf_error(init_status, "AMFInit"@))
        } else if !has_factory {
            Some(ErrorView::EncoderInitFailed("AMFInit returned null factory"@))
        } else {
            None
        },
    }
}

/// Whether the runtime can be used.
pub fn amf_load_result(load: &AmfLoad) -> (r: Result<(), MediaError>)
    ensures
        match r {
            Ok(_) => amf_load_error(*load) is None,
            Err(e) => amf_load_error(*load) == Some(e@),
        },
{
    match load {
        AmfLoad::NoLibrary(e) => Err(
            MediaError::EncoderInitFailed(
                "LoadLibraryA(amfrt64.dll) failed: ".to_owned().concat(e.as_str()),
            ),
        ),
        AmfLoad::NoInit => Err(MediaError::init_failed("AMFInit not found")),
        AmfLoad::NoQuery => Err(MediaError::init_failed("AMFQueryVersion not found")),
        AmfLoad::Loaded { query_status, init_status, has_factory } => {
            match amf_ok(*query_status, "AMFQueryVersion") {
                Ok(_) => {},
                Err(e) => {
                    return Err(e);
                },
            }
            match amf_ok(*init_status, "AMFInit") {
                Ok(_) => {},
                Err(e) => {
                    return Err(e);
                },
            }
            if *has_factory {
                Ok(())
            } else {
                Err(MediaError::init_failed("AMFInit returned null factory"))
            }
        },
    }
}

/// A texture to convert and the input texture that takes it.
#[derive(Debug, Clone, Copy, PartialEq, Eq, Structural)]
pub struct AmfPicture {
    pub texture: usize,
    pub array_index: u32,
    pub slot: usize,
    /// The view on the source has to be made anew.
    pub new_input_view: bool,
}

/// The AMF encoder's state. The runtime's objects are held by the caller.
pub struct WindowsAmfEncoder {
    pub config: Option<EncoderConfig>,
    pub initialized: bool,
    pub force_keyframe: bool,
    pub frame_count: u64,
    pub next_slot: usize,
    /// Number of input textures.
    pub slots: usize,
    /// The context exists.
    pub context: bool,
    /// The encoder component exists.
    pub component: bool,
    /// The source that the input view was made for.
    pub viewed: Option<(usize, u32)>,
    /// Flush the device after every conversion.
    pub flush_each_frame: bool,
}

/// An encoder once its component is set up.
pub open spec fn amf_begun(e: WindowsAmfEncoder, config: EncoderConfig) -> WindowsAmfEncoder {
    WindowsAmfEncoder {
        config: Some(config),
        initialized: true,
        force_keyframe: true,
        frame_count: 0,
        viewed: None,
        ..e
    }
}

/// Whether `p` is what a buffer is taken as, and `after` the encoder then.
pub open spec fn amf_taken(
    before: WindowsAmfEncoder,
    after: WindowsAmfEncoder,
    buffer: GpuBuffer,
    p: AmfPicture,
) -> bool {
    &&& before.initialized
    &&& buffer matches GpuBuffer::D3D11Texture { texture, array_index }
    &&& p == (AmfPicture {
        texture,
        array_index,
        slot: before.next_slot,
        new_input_view: before.viewed != Some((texture, array_index)),
    })
    &&& after == (WindowsAmfEncoder {
        next_slot: next_in_ring(before.next_slot, before.slots),
        ..before
    })
}

/// What an input surface is told before it is submitted.
pub open spec fn surface_plan(e: WindowsAmfEncoder, pts_us: u64) -> Option<AmfSurfacePlan> {
    match e.config {
        Some(c) => Some(
            AmfSurfacePlan {
                crop_width: c.width as i32,
                crop_height: c.height as i32,
                force_idr: e.forces_key(),
                pts: (pts_us * 10) as i64,
                duration: (if c.fps > 0 {
                    10_000_000int / (c.fps as int)
                } else {
                    0
                }) as i64,
            },
        ),
        None => None,
    }
}

/// Whether this is the frame that an output buffer becomes.
pub open spec fn amf_drained(
    e: WindowsAmfEncoder,
    data: Seq<u8>,
    pts_us: u64,
    f: EncodedVideoFrame,
) -> bool {
    &&& e.config is Some
    &&& data.len() > 0
    &&& f.data@ == data
    &&& f.frame_type == (if (exists|i: int| #[trigger] idr_at(data, i)) || e.forces_key() {
        FrameType::Key
    } else {
        FrameType::Inter
    })
    &&& f.pts == pts_us
    &&& f.duration == frame_duration(e.config->0.fps)
    &&& f.codec == VideoCodec::H264
}

impl WindowsAmfEncoder {
    /// Whether the next picture is made a key frame: it was asked for, or the
    /// picture is the first.
    pub open spec fn forces_key(&self) -> bool {
        self.force_keyframe || self.frame_count == 0
    }

    /// The encoder once a picture is done: it counts, and a key frame that was
    /// asked for is no longer owed.
    pub open spec fn after_picture(&self) -> WindowsAmfEncoder {
        WindowsAmfEncoder {
            frame_count: (self.frame_count + 1) as u64,
            force_keyframe: false,
            ..*self
        }
    }

    /// A set-up encoder knows its configuration.
    pub open spec fn wf(&self) -> bool {
        self.initialized ==> self.config is Some && self.next_slot < self.slots
    }

    /// What the encoder has to release: its component, then its context.
    pub open spec fn held(&self) -> Seq<NativeResource> {
        resource_if(self.component, NativeResource::AmfComponent) + resource_if(
            self.context,
            NativeResource::AmfContext,
        )
    }

    /// The encoder after a step of setting up succeeded. It holds the context once
    /// that is bound, and the component once that is initialized.
    pub open spec fn acquired(&self, step: SetupStep) -> WindowsAmfEncoder {
        match step {
            SetupStep::BindContext => WindowsAmfEncoder { context: true, ..*self },
            SetupStep::InitEncoder => WindowsAmfEncoder { component: true, ..*self },
            SetupStep::CreateTexture(_) => WindowsAmfEncoder {
                slots: (self.slots + 1) as usize,
                ..*self
            },
            _ => *self,
        }
    }

    /// The encoder after it was shut down.
    pub open spec fn closed(&self) -> WindowsAmfEncoder {
        WindowsAmfEncoder {
            initialized: false,
            component: false,
            context: false,
            viewed: None,
            slots: 0,
            ..*self
        }
    }

    /// An encoder on a loaded runtime. `flush_switch` is the value of the
    /// switch that makes it flush the device after every frame.
    pub fn new(load: &AmfLoad, flush_switch: Option<&str>) -> (r: Result<Self, MediaError>)
        ensures
            match r {
                Ok(e) => {
                    &&& amf_load_error(*load) is None
                    &&& e.wf()
                    &&& !e.initialized
                    &&& !e.force_keyframe
                    &&& e.frame_count == 0
                    &&& e.next_slot == 0
                    &&& e.slots == 0
                    &&& !e.context
                    &&& !e.component
                    &&& e.viewed is None
                    &&& e.config is None
                    &&& e.flush_each_frame == (flush_switch matches Some(v) && switched_on(v@))
                },
                Err(e) => amf_load_error(*load) == Some(e@),
            },
    {
        match amf_load_result(load) {
            Err(e) => Err(e),
            Ok(_) => Ok(
                WindowsAmfEncoder {
                    config: None,
                    initialized: false,
                    force_keyframe: false,
                    frame_count: 0,
                    next_slot: 0,
                    slots: 0,
                    context: false,
                    component: false,
                    viewed: None,
                    flush_each_frame: match flush_switch {
                        Some(v) => is_switched_on(v),
                        None => false,
                    },
                },
            ),
        }
    }

    /// Whether an encoder can be made.
    pub fn is_available(load: &AmfLoad) -> (b: bool)
        ensures
            b == (amf_load_error(*load) is None),
    {
        amf_load_result(load).is_ok()
    }

    /// Starts setting up: the device and context to work on.
    pub fn initialize(&self, config: &EncoderConfig) -> (r: Result<(usize, usize), MediaError>)
        ensures
            match r {
                Ok(p) => d3d11_of(*config, "native Windows AMF v1 supports H.264 only"@) == Ok::<
                    (usize, usize),
                    ErrorView,
                >(p),
                Err(e) => d3d11_of(*config, "native Windows AMF v1 supports H.264 only"@) == Err::<
                    (usize, usize),
                    ErrorView,
                >(e@),
            },
    {
        find_d3d11(config, "native Windows AMF v1 supports H.264 only")
    }

    /// How setting up goes on after a step: with the next one, or by giving up. What
    /// the step acquired is noted, and where it failed, what was acquired before
    /// stays to be released.
    pub fn setup_step(&mut self, step: SetupStep, outcome: Result<(), MediaError>) -> (r: SetupNext)
        requires
            old(self).wf(),
            step is CreateTexture ==> old(self).slots < usize::MAX,
        ensures
            final(self).wf(),
            match outcome {
                Ok(_) => *final(self) == old(self).acquired(step) && r == SetupNext::Step(
                    step_behind(NativeEncoder::Amf, step),
                ),
                Err(e) => *final(self) == *old(self) && (r matches SetupNext::Fail {
                    error,
                    release,
                } && error == e && release@ == old(self).held()),
            },
    {
        match outcome {
            Err(error) => SetupNext::Fail { error, release: self.to_release() },
            Ok(_) => {
                match step {
                    SetupStep::BindContext => {
                        self.context = true;
                    },
                    SetupStep::InitEncoder => {
                        self.component = true;
                    },
                    SetupStep::CreateTexture(_) => {
                        self.slots = self.slots + 1;
                    },
                    _ => {},
                }
                SetupNext::Step(next_step(NativeEncoder::Amf, step))
            },
        }
    }

    fn to_release(&self) -> (r: Vec<NativeResource>)
        ensures
            r@ == self.held(),
    {
        let mut r: Vec<NativeResource> = Vec::new();
        if self.component {
            r.push(NativeResource::AmfComponent);
        }
        if self.context {
            r.push(NativeResource::AmfContext);
        }
        assert(r@ =~= self.held());
        r
    }

    /// Ends setting up: the component and its input textures are made.
    pub fn finish_initialize(&mut self, config: &EncoderConfig)
        requires
            old(self).context,
            old(self).component,
            old(self).next_slot < old(self).slots,
        ensures
            final(self).wf(),
            *final(self) == amf_begun(*old(self), *config),
    {
        self.config = Some(*config);
        self.initialized = true;
        self.force_keyframe = true;
        self.frame_count = 0;
        self.viewed = None;
    }

    /// Starts encoding a texture: takes the next input texture. The view on the
    /// source is made anew when the source differs from the last one.
    pub fn encode(&mut self, buffer: &GpuBuffer) -> (r: Result<AmfPicture, MediaError>)
        requires
            old(self).wf(),
        ensures
            final(self).wf(),
            match r {
                Ok(p) => amf_taken(*old(self), *final(self), *buffer, p),
                Err(e) => {
                    &&& *final(self) == *old(self)
                    &&& if !old(self).initialized {
                        e@ == ErrorView::EncoderNotInitialized
                    } else {
                        !(buffer is D3D11Texture) && e@ == ErrorView::EncodeError(
                            "native Windows AMF requires GpuBuffer::D3D11Texture"@,
                        )
                    }
                },
            },
    {
        if !self.initialized {
            return Err(MediaError::EncoderNotInitialized);
        }
        match buffer {
            GpuBuffer::D3D11Texture { texture, array_index } => {
                let slot: usize = self.next_slot;
                self.next_slot = (self.next_slot + 1) % self.slots;
                let same: bool = match self.viewed {
                    Some(v) => v.0 == *texture && v.1 == *array_index,
                    None => false,
                };
                Ok(
                    AmfPicture {
                        texture: *texture,
                        array_index: *array_index,
                        slot,
                        new_input_view: !same,
                    },
                )
            },
            _ => Err(MediaError::encode("native Windows AMF requires GpuBuffer::D3D11Texture")),
        }
    }

    /// Notes the source that the input view was made for.
    pub fn view_created(&mut self, texture: usize, array_index: u32)
        ensures
            *final(self) == (WindowsAmfEncoder {
                viewed: Some((texture, array_index)),
                ..*old(self)
            }),
    {
        self.viewed = Some((texture, array_index));
    }

    /// What an input surface is told before it is submitted. The first picture
    /// is a key frame in any case.
    pub fn wrap_surface(&self, pts_us: u64) -> (r: Option<AmfSurfacePlan>)
        requires
            pts_us * 10 <= i64::MAX,
        ensures
            r == surface_plan(*self, pts_us),
    {
        match self.config {
            Some(c) => Some(
                AmfSurfacePlan {
                    crop_width: c.width as i32,
                    crop_height: c.height as i32,
                    force_idr: self.force_keyframe || self.frame_count == 0,
                    pts: (pts_us * 10) as i64,
                    duration: if c.fps > 0 {
                        (10_000_000u64 / c.fps as u64) as i64
                    } else {
                        0
                    },
                },
            ),
            None => None,
        }
    }

    /// Reads the status of a submission. A full queue is drained before a
    /// second attempt; a second attempt is not repeated.
    pub fn on_submitted(&self, status: i32, retry: bool) -> (r: AmfNext)
        ensures
            submitted(status, retry, r),
    {
        if status == AMF_INPUT_FULL && !retry {
            return AmfNext::DrainAndRetry;
        }
        let op: &str = if retry {
            "AMFComponent::SubmitInput retry"
        } else {
            "AMFComponent::SubmitInput"
        };
        match amf_ok(status, op) {
            Ok(_) => AmfNext::Drain,
            Err(e) => AmfNext::Failed(e),
        }
    }

    /// Turns an output buffer into an encoded frame, `None` where it is empty.
    /// Output of a forced or first picture counts as a key frame.
    pub fn drain_output(&self, data: Vec<u8>, pts_us: u64) -> (r: Result<
        Option<EncodedVideoFrame>,
        MediaError,
    >)
        ensures
            match r {
                Err(e) => self.config is None && e@ == ErrorView::EncoderNotInitialized,
                Ok(None) => self.config is Some && data@.len() == 0,
                Ok(Some(f)) => amf_drained(*self, data@, pts_us, f),
            },
    {
        let c: EncoderConfig = match self.config {
            Some(c) => c,
            None => {
                return Err(MediaError::EncoderNotInitialized);
            },
        };
        if data.len() == 0 {
            return Ok(None);
        }
        let key: bool = is_idr_annexb(data.as_slice()) || self.force_keyframe || self.frame_count
            == 0;
        Ok(
            Some(
                EncodedVideoFrame {
                    data,
                    frame_type: if key {
                        FrameType::Key
                    } else {
                        FrameType::Inter
                    },
                    pts: pts_us,
                    duration: frame_duration_us(c.fps),
                    codec: VideoCodec::H264,
                },
            ),
        )
    }

    /// Ends a frame whose output was fetched.
    pub fn finish_encode(&mut self)
        requires
            old(self).frame_count < u64::MAX,
        ensures
            *final(self) == old(self).after_picture(),
    {
        self.frame_count = self.frame_count + 1;
        self.force_keyframe = false;
    }

    /// Makes the next picture a key frame.
    pub fn request_keyframe(&mut self)
        ensures
            *final(self) == (WindowsAmfEncoder { force_keyframe: true, ..*old(self) }),
    {
        self.force_keyframe = true;
    }

    /// Notes a new bitrate. The properties to set, where the component exists;
    /// the caller ends with [`Self::bitrate_applied`] once the required one was
    /// taken.
    pub fn set_bitrate(&mut self, bitrate_kbps: u32) -> (r: Result<Vec<AmfProperty>, MediaError>)
        requires
            old(self).wf(),
        ensures
            final(self).wf(),
            match r {
                Ok(p) => {
                    &&& old(self).initialized
                    &&& *final(self) == (WindowsAmfEncoder {
                        config: Some(EncoderConfig { bitrate_kbps, ..old(self).config->0 }),
                        ..*old(self)
                    })
                    &&& properties(p@) == rate_properties(old(self).component, bitrate_kbps)
                },
                Err(e) => !old(self).initialized && e@ == ErrorView::EncoderNotInitialized
                    && *final(self) == *old(self),
            },
    {
        if !self.initialized {
            return Err(MediaError::EncoderNotInitialized);
        }
        if let Some(c) = self.config {
            self.config = Some(EncoderConfig { bitrate_kbps, ..c });
        }
        let mut v: Vec<AmfProperty> = Vec::new();
        assert(properties(v@) =~= Seq::empty());
        if self.component {
            let bitrate: AmfVariant = amf_variant_int64(bitrate_kbps as i64 * 1000);
            add_property(&mut v, "TargetBitrate", bitrate, true);
            add_property(&mut v, "PeakBitrate", bitrate, false);
            assert(properties(v@) =~= rate_properties(true, bitrate_kbps));
        }
        Ok(v)
    }

    /// Ends a change of bitrate: the next picture is a key frame.
    pub fn bitrate_applied(&mut self)
        ensures
            *final(self) == (WindowsAmfEncoder { force_keyframe: true, ..*old(self) }),
    {
        self.force_keyframe = true;
    }

    /// Changes the frame rate, at least one frame a second, from the next frame
    /// on. An encoder that is not set up takes no note of it.
    pub fn set_fps(&mut self, fps: u32) -> (r: Result<(), MediaError>)
        requires
            old(self).wf(),
        ensures
            final(self).wf(),
            r is Ok,
            *final(self) == (if old(self).initialized {
                WindowsAmfEncoder {
                    config: Some(EncoderConfig { fps: rate_of(fps), ..old(self).config->0 }),
                    ..*old(self)
                }
            } else {
                *old(self)
            }),
    {
        if !self.initialized {
            return Ok(());
        }
        if let Some(c) = self.config {
            self.config = Some(EncoderConfig { fps: at_least_one(fps), ..c });
        }
        Ok(())
    }

    /// Describes the encoder.
    pub fn encoder_info(&self) -> (i: EncoderInfo)
        ensures
            i.name@ == "native_amf_d3d11"@,
            i.hw_type == HwAccelType::Amf,
            i.supported_codecs@ == seq![VideoCodec::H264],
    {
        let mut codecs: Vec<VideoCodec> = Vec::new();
        codecs.push(VideoCodec::H264);
        assert(codecs@ =~= seq![VideoCodec::H264]);
        EncoderInfo {
            name: "native_amf_d3d11".to_owned(),
            hw_type: HwAccelType::Amf,
            supported_codecs: codecs,
        }
    }

    /// Whether flushing has a component to drain.
    pub fn flush(&self) -> (drain: bool)
        ensures
            drain == self.component,
    {
        self.component
    }

    /// Forgets the session: what has to be released, in order.
    pub fn shutdown(&mut self) -> (release: Vec<NativeResource>)
        ensures
            release@ == old(self).held(),
            *final(self) == old(self).closed(),
            final(self).held().len() == 0,
    {
        let release: Vec<NativeResource> = self.to_release();
        self.component = false;
        self.context = false;
        self.viewed = None;
        self.slots = 0;
        self.initialized = false;
        release
    }
}

/// Where setting up stands after `n` steps succeeded: the next step and the encoder.
pub open spec fn amf_after_steps(e: WindowsAmfEncoder, n: nat) -> (SetupStep, WindowsAmfEncoder)
    decreases n,
{
    if n == 0 {
        (first_step(NativeEncoder::Amf), e)
    } else {
        let before = amf_after_steps(e, (n - 1) as nat);
        (step_behind(NativeEncoder::Amf, before.0), before.1.acquired(before.0))
    }
}

/// Setting up keeps track of what is ready: whichever step comes next, what shutting
/// down releases is the context, once it is bound, and the component, once it is
/// initialized. One that failed to get so far is not among it. When all is made, the
/// encoder has both and a full ring.
pub proof fn law_amf_setup_tracks_every_resource(e: WindowsAmfEncoder, n: nat)
    requires
        !e.context,
        !e.component,
        e.slots == 0,
    ensures
        ({
            let (step, f) = amf_after_steps(e, n);
            &&& f.context == !(step is CreateContext || step is BindContext)
            &&& f.component == !(step is CreateContext || step is BindContext || step
                is CreateComponent || step is Configure || step is InitEncoder)
            &&& f.slots == slots_before(step)
            &&& f.held() == resource_if(f.component, NativeResource::AmfComponent) + resource_if(
                f.context,
                NativeResource::AmfContext,
            )
            &&& step matches SetupStep::CreateTexture(i) ==> i < INPUT_RING_SIZE
            &&& step is CreateContext || step is BindContext || step is CreateComponent || step
                is Configure || step is InitEncoder || step is CreateTexture || step is Finish
        }),
    decreases n,
{
    if n > 0 {
        law_amf_setup_tracks_every_resource(e, (n - 1) as nat);
    }
}

/// The component is told the configuration's size and rate, and that without them it cannot
/// go on; it is asked for a thousand bits a second for each kilobit, for key frames with
/// headers as far apart as configured, and for no picture that waits for a later one. Low
/// latency is asked for where the configuration has it.
pub proof fn law_amf_is_told_the_configuration(c: EncoderConfig)
    requires
        c.width <= i32::MAX,
        c.height <= i32::MAX,
    ensures
        ({
            let p = encoder_properties(c);
            let rate = AmfVariant::Int64((1000 * c.bitrate_kbps) as i64);
            let gap = AmfVariant::Int64(
                (if c.keyframe_interval > 0 {
                    c.keyframe_interval as int
                } else if c.fps > 0 {
                    c.fps + c.fps
                } else {
                    2
                }) as i64,
            );
            let fast = if c.low_latency {
                AmfVariant::Int64(1)
            } else {
                AmfVariant::Int64(0)
            };
            let fps = if c.fps > 0 {
                c.fps
            } else {
                1
            };
            &&& p.contains(
                (
                    "FrameSize"@,
                    AmfVariant::Size { width: c.width as i32, height: c.height as i32 },
                    true,
                ),
            )
            &&& p.contains(("FrameRate"@, AmfVariant::Rate { num: fps, den: 1 }, true))
            &&& p.contains(("Usage"@, fast, true))
            &&& p.contains(("TargetBitrate"@, rate, false))
            &&& p.contains(("PeakBitrate"@, rate, false))
            &&& p.contains(("IDRPeriod"@, gap, false))
            &&& p.contains(("HeaderInsertionSpacing"@, gap, false))
            &&& p.contains(("BPicturesPattern"@, AmfVariant::Int64(0), false))
            &&& p.contains(("LowLatencyInternal"@, AmfVariant::Bool(c.low_latency), false))
            &&& p.contains(("QualityPreset"@, fast, false))
            &&& p.contains(("RateControlMethod"@, AmfVariant::Int64(1), false))
            &&& p.contains(("OutputMode"@, AmfVariant::Int64(0), false))
            &&& p.contains(("QueryTimeout"@, AmfVariant::Int64(0), false))
            &&& p.len() == 13
            &&& p[0].0 == "Usage"@
        }),
{
    let p = encoder_properties(c);
    assert(p[0].0 == "Usage"@);
    assert(p[1].0 == "FrameSize"@);
    assert(p[2].0 == "FrameRate"@);
    assert(p[3].0 == "TargetBitrate"@);
    assert(p[4].0 == "PeakBitrate"@);
    assert(p[5].0 == "RateControlMethod"@);
    assert(p[6].0 == "QualityPreset"@);
    assert(p[7].0 == "BPicturesPattern"@);
    assert(p[8].0 == "LowLatencyInternal"@);
    assert(p[9].0 == "IDRPeriod"@);
    assert(p[10].0 == "HeaderInsertionSpacing"@);
    assert(p[11].0 == "OutputMode"@);
    assert(p[12].0 == "QueryTimeout"@);
}

/// A new bitrate is told the way that the first one was: whatever is set anew has the value
/// that the component would be set up with.
pub proof fn law_amf_rates_are_told_the_same_way(c: EncoderConfig, kbps: u32, i: int)
    requires
        0 <= i < rate_properties(true, kbps).len(),
    ensures
        ({
            let new = rate_properties(true, kbps)[i];
            let all = encoder_properties(EncoderConfig { bitrate_kbps: kbps, ..c });
            &&& exists|j: int| 0 <= j < all.len() && (#[trigger] all[j]).0 == new.0 && all[j].1
                == new.1
            &&& new.1 == AmfVariant::Int64((1000 * kbps) as i64)
        }),
        rate_properties(true, kbps).len() == 2,
        rate_properties(false, kbps).len() == 0,
{
    let all = encoder_properties(EncoderConfig { bitrate_kbps: kbps, ..c });
    assert(all[3].0 == "TargetBitrate"@);
    assert(all[4].0 == "PeakBitrate"@);
}

/// A texture is taken as it is, into the slot whose turn it is; the turn goes to the next.
/// The view on a source is made anew exactly where it was not made for that texture and
/// slice.
pub proof fn law_amf_takes_the_texture(
    before: WindowsAmfEncoder,
    after: WindowsAmfEncoder,
    buffer: GpuBuffer,
    p: AmfPicture,
)
    requires
        before.wf(),
        amf_taken(before, after, buffer, p),
    ensures
        buffer == (GpuBuffer::D3D11Texture { texture: p.texture, array_index: p.array_index }),
        !p.new_input_view <==> (before.viewed matches Some(v) && v.0 == p.texture && v.1
            == p.array_index),
        p.slot == before.next_slot,
        p.slot < before.slots,
        after.next_slot == p.slot + 1 || (after.next_slot == 0 && p.slot + 1 == before.slots),
        after.next_slot < after.slots,
        after.force_keyframe == before.force_keyframe,
        after.frame_count == before.frame_count,
        after.config == before.config,
{
    let n = before.slots as int;
    let s = before.next_slot as int;
    if s + 1 < n {
        vstd::arithmetic::div_mod::lemma_small_mod((s + 1) as nat, n as nat);
    } else {
        vstd::arithmetic::div_mod::lemma_mod_self_0(n);
    }
}

/// A surface is cut to the configured size and told the time in tenths of a microsecond,
/// and becomes a key frame where one is owed or nothing was encoded before. What comes out
/// is the bytes that the runtime wrote, as a key frame where it was made one.
pub proof fn law_amf_surfaces_and_frames(
    e: WindowsAmfEncoder,
    pts_us: u64,
    data: Seq<u8>,
    f: EncodedVideoFrame,
)
    requires
        amf_drained(e, data, pts_us, f),
        pts_us * 10 <= i64::MAX,
        e.config->0.width <= i32::MAX,
        e.config->0.height <= i32::MAX,
    ensures
        ({
            let s = surface_plan(e, pts_us)->0;
            let fps = e.config->0.fps as int;
            &&& surface_plan(e, pts_us) is Some
            &&& s.crop_width == e.config->0.width && s.crop_height == e.config->0.height
            &&& s.pts == 10 * pts_us
            &&& fps > 0 ==> s.duration * fps <= 10_000_000 < (s.duration + 1) * fps
            &&& s.force_idr <==> e.force_keyframe || e.frame_count == 0
            &&& s.force_idr ==> f.frame_type == FrameType::Key
            &&& f.frame_type == FrameType::Key <==> s.force_idr || exists|i: int| #[trigger]
                idr_at(data, i)
            &&& f.data@ == data
            &&& f.pts == pts_us
            &&& f.codec == VideoCodec::H264
            &&& fps > 0 ==> f.duration * fps <= 1_000_000 < (f.duration + 1) * fps
        }),
{
    let n = e.config->0.fps as int;
    if n > 0 {
        law_frames_fill_a_second(e.config->0.fps);
        let q = 10_000_000int / n;
        vstd::arithmetic::div_mod::lemma_fundamental_div_mod(10_000_000, n);
        vstd::arithmetic::div_mod::lemma_mod_bound(10_000_000, n);
        assert(0 <= q <= 10_000_000 && q * n <= 10_000_000 && 10_000_000 < (q + 1) * n)
            by (nonlinear_arith)
            requires
                10_000_000 == n * q + 10_000_000int % n,
                0 <= 10_000_000int % n < n,
                n > 0,
        ;
    }
}

/// A session begins with a key frame, as frame 0, and with no view, whatever came before;
/// the next one is none.
pub proof fn law_amf_begins_with_a_key_frame(e: WindowsAmfEncoder, config: EncoderConfig)
    ensures
        ({
            let b = amf_begun(e, config);
            &&& b.forces_key()
            &&& !b.after_picture().forces_key()
            &&& b.initialized
            &&& b.config == Some(config)
            &&& b.viewed is None
            &&& b.slots == e.slots && b.next_slot == e.next_slot
            &&& b.component == e.component && b.context == e.context
        }),
{
}

/// The runtime can be used where both of its functions were found and worked, and gave a
/// factory.
pub proof fn law_amf_needs_a_factory(load: AmfLoad)
    ensures
        amf_load_error(load) is None <==> (load is Loaded && load->has_factory && (
        load->query_status == 0 || load->query_status == 12) && (load->init_status == 0
            || load->init_status == 12)),
{
}

/// An object was made where the call succeeded and gave something.
pub proof fn law_amf_objects_are_there(object: AmfObject, status: i32, present: bool)
    ensures
        creation_error(object, status, present) is None <==> present && (status == 0 || status
            == 12),
{
}

/// A forced key frame is forced by its picture type and brings both parameter sets.
pub proof fn law_amf_key_frames_bring_headers()
    ensures
        key_properties().contains(("ForcePictureType"@, AmfVariant::Int64(2), true)),
        key_properties().contains(("InsertSPS"@, AmfVariant::Bool(true), true)),
        key_properties().contains(("InsertPPS"@, AmfVariant::Bool(true), true)),
{
    assert(key_properties()[0].0 == "ForcePictureType"@);
    assert(key_properties()[1].0 == "InsertSPS"@);
    assert(key_properties()[2].0 == "InsertPPS"@);
}

/// What the runtime's statuses mean. A submission that succeeded is fetched; one that found
/// the queue full is tried once more behind a fetch, and not a third time; any other failed.
/// Output is taken where the runtime has some and succeeded, and is over where it has none,
/// is to be asked again, or has ended. A drain that found the queue full is asked for again
/// and one that succeeded or found the end is the last.
pub proof fn law_what_the_runtime_means(
    status: i32,
    retry: bool,
    has_data: bool,
    a: AmfNext,
    b: AmfOutput,
    c: AmfFlush,
)
    requires
        submitted(status, retry, a),
        output_asked(status, has_data, b),
        drain_asked(status, c),
    ensures
        ({
            let done = status == 0 || status == 12;
            &&& a is Drain <==> done
            &&& a is DrainAndRetry <==> status == 25 && !retry
            &&& a is Failed <==> !done && (status != 25 || retry)
            &&& b is Take <==> done && has_data
            &&& b is Done <==> !has_data || status == 24 || status == 23
            &&& c is Again <==> status == 25
            &&& c is Last <==> done || status == 23
        }),
{
}

} // verus!
