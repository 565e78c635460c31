//! Conversion of captured textures to NV12 on the GPU, as the native Windows
//! encoders need it.

use crate::encode::windows_amf::align_to;
use crate::encode::windows_nvenc::INPUT_RING_SIZE;
use crate::encode::windows_qsv::{align16, aligned};
use crate::encode::EncoderConfig;
use crate::error::{ErrorView, MediaError};
use vstd::prelude::*;

verus! {

/// A native Windows encoder.
#[derive(Debug, Clone, Copy, PartialEq, Eq, Structural)]
pub enum NativeEncoder {
    Nvenc,
    Amf,
    Qsv,
}

/// What a video processor is made for: progressive frames at a rate, from one
/// size to another.
#[derive(Debug, Clone, Copy, PartialEq, Eq, Structural)]
pub struct ContentDesc {
    pub fps: u32,
    pub input_width: u32,
    pub input_height: u32,
    pub output_width: u32,
    pub output_height: u32,
}

/// Whether the sizes that QSV raises to a multiple of 16 can be raised.
pub open spec fn content_fits(kind: NativeEncoder, width: u32, height: u32) -> bool {
    kind == NativeEncoder::Qsv ==> width + 15 <= u32::MAX && height + 15 <= u32::MAX
}

/// The content that an encoder's video processor is made for. QSV takes sizes in
/// multiples of 16.
pub open spec fn content_of(kind: NativeEncoder, c: EncoderConfig) -> ContentDesc {
    ContentDesc {
        fps: if c.fps > 1 {
            c.fps
        } else {
            1
        },
        input_width: c.width,
        input_height: c.height,
        output_width: if kind == NativeEncoder::Qsv {
            aligned(c.width) as u32
        } else {
            c.width
        },
        output_height: if kind == NativeEncoder::Qsv {
            aligned(c.height) as u32
        } else {
            c.height
        },
    }
}

/// The video processor to make; `None` where there is one. It needs the device
/// and its context.
pub fn ensure_video_processor(
    kind: NativeEncoder,
    config: &EncoderConfig,
    made: bool,
    has_device: bool,
) -> (r: Result<Option<ContentDesc>, MediaError>)
    requires
        !made && has_device ==> content_fits(kind, config.width, config.height),
    ensures
        match r {
            Ok(None) => made,
            Ok(Some(d)) => !made && has_device && d == content_of(kind, *config),
            Err(e) => !made && !has_device && e@ == ErrorView::EncoderNotInitialized,
        },
{
    if made {
        return Ok(None);
    }
    if !has_device {
        return Err(MediaError::EncoderNotInitialized);
    }
    let fps: u32 = if config.fps > 1 {
        config.fps
    } else {
        1
    };
    let (output_width, output_height): (u32, u32) = match kind {
        NativeEncoder::Qsv => (align16(config.width), align16(config.height)),
        _ => (config.width, config.height),
    };
    Ok(
        Some(
            ContentDesc {
                fps,
                input_width: config.width,
                input_height: config.height,
                output_width,
                output_height,
            },
        ),
    )
}

/// Whether the sizes that an encoder raises for its textures can be raised.
pub open spec fn textures_fit(kind: NativeEncoder, width: u32, height: u32) -> bool {
    match kind {
        NativeEncoder::Nvenc => true,
        NativeEncoder::Amf => height + 15 <= u32::MAX,
        NativeEncoder::Qsv => width + 15 <= u32::MAX && height + 15 <= u32::MAX,
    }
}

/// The size of an encoder's input textures.
pub open spec fn texture_size(kind: NativeEncoder, width: u32, height: u32) -> (u32, u32) {
    match kind {
        NativeEncoder::Nvenc => (width, height),
        NativeEncoder::Amf => (width, aligned(height) as u32),
        NativeEncoder::Qsv => (aligned(width) as u32, aligned(height) as u32),
    }
}

/// The sizes of the input textures to make, one for each slot of the ring.
pub fn create_slots(kind: NativeEncoder, width: u32, height: u32, has_device: bool) -> (r: Result<
    Vec<(u32, u32)>,
    MediaError,
>)
    requires
        has_device ==> textures_fit(kind, width, height),
    ensures
        match r {
            Ok(v) => has_device && v@ == Seq::new(
                INPUT_RING_SIZE as nat,
                |i: int| texture_size(kind, width, height),
            ),
            Err(e) => !has_device && e@ == ErrorView::EncoderNotInitialized,
        },
{
    if !has_device {
        return Err(MediaError::EncoderNotInitialized);
    }
    let size: (u32, u32) = match kind {
        NativeEncoder::Nvenc => (width, height),
        NativeEncoder::Amf => (width, align_to(height, 16)),
        NativeEncoder::Qsv => (align16(width), align16(height)),
    };
    let mut v: Vec<(u32, u32)> = Vec::new();
    for i in 0..INPUT_RING_SIZE
        invariant
            size == texture_size(kind, width, height),
            v@ == Seq::new(i as nat, |j: int| texture_size(kind, width, height)),
    {
        v.push(size);
        assert(v@ =~= Seq::new((i + 1) as nat, |j: int| texture_size(kind, width, height)));
    }
    Ok(v)
}

/// A step of a conversion.
#[derive(Debug, Clone, Copy, PartialEq, Eq, Structural)]
pub enum ConvertStep {
    MakeProcessor(ContentDesc),
    /// Make a view on this slice of the source.
    MakeInputView(u32),
    /// Make a view on the input texture.
    MakeOutputView,
    /// Convert, as the frame of this number.
    Convert(u32),
    Flush,
}

/// A source to convert, and what is there already.
#[derive(Debug, Clone, Copy)]
pub struct ConvertSource {
    pub array_index: u32,
    pub slot: usize,
    /// Number of input textures.
    pub slots: usize,
    /// A video processor was made.
    pub has_processor: bool,
    pub has_device: bool,
    /// There is a view on this source.
    pub has_input_view: bool,
    /// There is a view on the slot's texture.
    pub has_output_view: bool,
    pub frame_count: u64,
    /// Flush after every frame; only AMF leaves that out.
    pub flush_each_frame: bool,
}

/// The steps of a conversion. AMF keeps its views and flushes only where that is
/// asked for; the others make views for every frame and always flush.
pub open spec fn convert_plan(kind: NativeEncoder, c: EncoderConfig, s: ConvertSource) -> Seq<
    ConvertStep,
> {
    let amf = kind == NativeEncoder::Amf;
    (if s.has_processor {
        Seq::empty()
    } else {
        seq![ConvertStep::MakeProcessor(content_of(kind, c))]
    }) + (if amf && s.has_input_view {
        Seq::empty()
    } else {
        seq![ConvertStep::MakeInputView(s.array_index)]
    }) + (if amf && s.has_output_view {
        Seq::empty()
    } else {
        seq![ConvertStep::MakeOutputView]
    }) + seq![ConvertStep::Convert(s.frame_count as u32)] + (if amf && !s.flush_each_frame {
        Seq::empty()
    } else {
        seq![ConvertStep::Flush]
    })
}

/// The steps that convert a captured texture to NV12.
pub fn convert_bgra_to_nv12(
    kind: NativeEncoder,
    config: &Option<EncoderConfig>,
    s: ConvertSource,
) -> (r: Result<Vec<ConvertStep>, MediaError>)
    requires
        !s.has_processor && s.has_device && config is Some ==> content_fits(
            kind,
            config->0.width,
            config->0.height,
        ),
    ensures
        match r {
            Ok(v) => *config matches Some(c) && (s.has_processor || s.has_device) && (kind
                == NativeEncoder::Amf ==> s.slot < s.slots) && v@ == convert_plan(kind, c, s),
            Err(e) => e@ == ErrorView::EncoderNotInitialized && (config is None || (
            !s.has_processor && !s.has_device) || (kind == NativeEncoder::Amf && s.slot
                >= s.slots)),
        },
{
    let c: EncoderConfig = match config {
        Some(c) => *c,
        None => {
            return Err(MediaError::EncoderNotInitialized);
        },
    };
    let mut v: Vec<ConvertStep> = Vec::new();
    match ensure_video_processor(kind, &c, s.has_processor, s.has_device) {
        Err(e) => {
            return Err(e);
        },
        Ok(Some(d)) => {
            v.push(ConvertStep::MakeProcessor(d));
        },
        Ok(None) => {},
    }
    let amf: bool = match kind {
        NativeEncoder::Amf => true,
        _ => false,
    };
    if amf && s.slot >= s.slots {
        return Err(MediaError::EncoderNotInitialized);
    }
    if !(amf && s.has_input_view) {
        v.push(ConvertStep::MakeInputView(s.array_index));
    }
    if !(amf && s.has_output_view) {
        v.push(ConvertStep::MakeOutputView);
    }
    v.push(ConvertStep::Convert(s.frame_count as u32));
    if !amf || s.flush_each_frame {
        v.push(ConvertStep::Flush);
    }
    assert(v@ =~= convert_plan(kind, c, s));
    Ok(v)
}

/// A call of a conversion or of its preparation.
#[derive(Debug, Clone, Copy, PartialEq, Eq, Structural)]
pub enum VideoCall {
    CastDevice,
    CastContext,
    CreateEnumerator,
    CreateProcessor,
    CastSource,
    CastDestination,
    CreateInputView,
    CreateOutputView,
    Blt,
}

pub open spec fn call_text(call: VideoCall) -> Seq<char> {
    match call {
        VideoCall::CastDevice => "Cast ID3D11Device to ID3D11VideoDevice failed: "@,
        VideoCall::CastContext => "Cast ID3D11DeviceContext to ID3D11VideoContext failed: "@,
        VideoCall::CreateEnumerator => "CreateVideoProcessorEnumerator failed: "@,
        VideoCall::CreateProcessor => "CreateVideoProcessor failed: "@,
        VideoCall::CastSource => "Cast source texture to ID3D11Resource failed: "@,
        VideoCall::CastDestination => "Cast destination texture to ID3D11Resource failed: "@,
        VideoCall::CreateInputView => "CreateVideoProcessorInputView failed: "@,
        VideoCall::CreateOutputView => "CreateVideoProcessorOutputView failed: "@,
        VideoCall::Blt => "VideoProcessorBlt failed: "@,
    }
}

/// The error of a call that failed.
pub fn video_failure(call: VideoCall, text: &str) -> (e: MediaError)
    ensures
        e@ == ErrorView::EncodeError(call_text(call) + text@),
{
    let front: &str = match call {
        VideoCall::CastDevice => "Cast ID3D11Device to ID3D11VideoDevice failed: ",
        VideoCall::CastContext => "Cast ID3D11DeviceContext to ID3D11VideoContext failed: ",
        VideoCall::CreateEnumerator => "CreateVideoProcessorEnumerator failed: ",
        VideoCall::CreateProcessor => "CreateVideoProcessor failed: ",
        VideoCall::CastSource => "Cast source texture to ID3D11Resource failed: ",
        VideoCall::CastDestination => "Cast destination texture to ID3D11Resource failed: ",
        VideoCall::CreateInputView => "CreateVideoProcessorInputView failed: ",
        VideoCall::CreateOutputView => "CreateVideoProcessorOutputView failed: ",
        VideoCall::Blt => "VideoProcessorBlt failed: ",
    };
    MediaError::EncodeError(front.to_owned().concat(text))
}

/// The error of a view that the system did not give: the input's or the
/// output's.
pub fn view_missing(input: bool) -> (e: MediaError)
    ensures
        e@ == ErrorView::EncodeError(
            if input {
                "VideoProcessor input view was None"@
            } else {
                "VideoProcessor output view was None"@
            },
        ),
{
    if input {
        MediaError::encode("VideoProcessor input view was None")
    } else {
        MediaError::encode("VideoProcessor output view was None")
    }
}

/// The error of an input texture that could not be made; `None` where the system
/// gave no reason and no texture.
pub fn texture_failure(kind: NativeEncoder, text: Option<&str>) -> (e: MediaError)
    ensures
        e@ == ErrorView::EncoderInitFailed(
            match text {
                None => "CreateTexture2D returned None"@,
                Some(t) => (if kind == NativeEncoder::Amf {
                    "CreateTexture2D(NV12 AMF input) failed: "@
                } else {
                    "CreateTexture2D(NV12 input) failed: "@
                }) + t@,
            },
        ),
{
    match text {
        None => MediaError::init_failed("CreateTexture2D returned None"),
        Some(t) => {
            let front: &str = match kind {
                NativeEncoder::Amf => "CreateTexture2D(NV12 AMF input) failed: ",
                _ => "CreateTexture2D(NV12 input) failed: ",
            };
            MediaError::EncoderInitFailed(front.to_owned().concat(t))
        },
    }
}

/// A conversion converts exactly once, and behind it comes at most a flush.
pub proof fn law_one_conversion(kind: NativeEncoder, c: EncoderConfig, s: ConvertSource, i: int)
    requires
        0 <= i < convert_plan(kind, c, s).len(),
    ensures
        convert_plan(kind, c, s)[i] is Convert ==> i + 2 >= convert_plan(kind, c, s).len(),
        convert_plan(kind, c, s).contains(ConvertStep::Convert(s.frame_count as u32)),
{
    let p = convert_plan(kind, c, s);
    let n = p.len() as int;
    if kind == NativeEncoder::Amf && !s.flush_each_frame {
        assert(p[n - 1] == ConvertStep::Convert(s.frame_count as u32));
    } else {
        assert(p[n - 2] == ConvertStep::Convert(s.frame_count as u32));
    }
}

/// A video processor takes pictures of the configured size and gives pictures of the same
/// size; for QSV they are the least whole blocks that hold it. It runs at the configured
/// rate, or at one.
pub proof fn law_conversions_keep_the_size(kind: NativeEncoder, c: EncoderConfig)
    requires
        content_fits(kind, c.width, c.height),
    ensures
        ({
            let d = content_of(kind, c);
            &&& d.input_width == c.width && d.input_height == c.height
            &&& c.fps > 0 ==> d.fps == c.fps
            &&& c.fps == 0 ==> d.fps == 1
            &&& kind != NativeEncoder::Qsv ==> d.output_width == d.input_width
                && d.output_height == d.input_height
            &&& d.input_width <= d.output_width < d.input_width + 16
            &&& d.input_height <= d.output_height < d.input_height + 16
            &&& kind == NativeEncoder::Qsv ==> d.output_width as int % 16 == 0
                && d.output_height as int % 16 == 0
        }),
{
}

/// An input texture holds what the video processor writes, and has no more than it needs:
/// the sizes that an encoder wants in whole blocks are the least such sizes.
pub proof fn law_textures_hold_the_picture(kind: NativeEncoder, c: EncoderConfig)
    requires
        textures_fit(kind, c.width, c.height),
    ensures
        ({
            let t = texture_size(kind, c.width, c.height);
            let d = content_of(kind, c);
            &&& d.output_width <= t.0 && d.output_height <= t.1
            &&& c.width <= t.0 < c.width + 16 && c.height <= t.1 < c.height + 16
            &&& kind == NativeEncoder::Nvenc ==> t == (c.width, c.height)
            &&& kind == NativeEncoder::Amf ==> t.0 == c.width
            &&& kind != NativeEncoder::Nvenc ==> t.1 as int % 16 == 0
            &&& kind == NativeEncoder::Qsv ==> t.0 as int % 16 == 0
        }),
{
}

/// How far a conversion is.
pub struct Conversion {
    pub processor: bool,
    pub input: bool,
    pub output: bool,
    pub converted: bool,
    pub flushed: bool,
}

/// Where a step brings a conversion of this source, `None` where something is missing for
/// it or it is taken twice.
pub open spec fn converted_by(s: ConvertSource, w: Conversion, step: ConvertStep) -> Option<
    Conversion,
> {
    if w.flushed {
        None
    } else {
        match step {
            ConvertStep::MakeProcessor(_) => if !w.processor {
                Some(Conversion { processor: true, ..w })
            } else {
                None
            },
            ConvertStep::MakeInputView(slice) => if w.processor && !w.converted && slice
                == s.array_index {
                Some(Conversion { input: true, ..w })
            } else {
                None
            },
            ConvertStep::MakeOutputView => if w.processor && !w.converted {
                Some(Conversion { output: true, ..w })
            } else {
                None
            },
            ConvertStep::Convert(_) => if w.processor && w.input && w.output && !w.converted {
                Some(Conversion { converted: true, ..w })
            } else {
                None
            },
            ConvertStep::Flush => if w.converted {
                Some(Conversion { flushed: true, ..w })
            } else {
                None
            },
        }
    }
}

/// Where the first `n` steps bring a conversion. Only AMF finds the views of earlier
/// pictures.
pub open spec fn conversion_after(
    kind: NativeEncoder,
    s: ConvertSource,
    steps: Seq<ConvertStep>,
    n: nat,
) -> Option<Conversion>
    decreases n,
{
    if n == 0 {
        Some(
            Conversion {
                processor: s.has_processor,
                input: kind == NativeEncoder::Amf && s.has_input_view,
                output: kind == NativeEncoder::Amf && s.has_output_view,
                converted: false,
                flushed: false,
            },
        )
    } else {
        match conversion_after(kind, s, steps, (n - 1) as nat) {
            Some(w) => converted_by(s, w, steps[n - 1]),
            None => None,
        }
    }
}

/// Every step of a conversion finds what it needs, made before or by an earlier step, and
/// in the end the picture of this number is converted from the right slice. What was
/// written is flushed, unless AMF is not to flush.
pub proof fn law_conversions_find_what_they_need(
    kind: NativeEncoder,
    c: EncoderConfig,
    s: ConvertSource,
)
    ensures
        ({
            let p = convert_plan(kind, c, s);
            let w = conversion_after(kind, s, p, p.len());
            &&& w is Some
            &&& w->0.converted
            &&& w->0.flushed <==> kind != NativeEncoder::Amf || s.flush_each_frame
            &&& s.frame_count <= u32::MAX ==> exists|i: int|
                0 <= i < p.len() && (#[trigger] p[i] matches ConvertStep::Convert(n) && n
                    == s.frame_count)
        }),
{
    let p = convert_plan(kind, c, s);
    reveal_with_fuel(conversion_after, 6);
    let n = p.len() as int;
    if kind == NativeEncoder::Amf && !s.flush_each_frame {
        assert(p[n - 1] == ConvertStep::Convert(s.frame_count as u32));
    } else {
        assert(p[n - 2] == ConvertStep::Convert(s.frame_count as u32));
    }
    let made = if s.has_processor {
        0int
    } else {
        1
    };
    if made == 1 {
        assert(p[0] == ConvertStep::MakeProcessor(content_of(kind, c)));
    }
    if !(kind == NativeEncoder::Amf && s.has_input_view) {
        assert(p[made] == ConvertStep::MakeInputView(s.array_index));
    }
}

} // verus!
