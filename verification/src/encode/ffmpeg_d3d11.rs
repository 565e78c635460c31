//! How the FFmpeg encoder takes Direct3D textures on Windows: by way of memory
//! where it has no pool of its own, else by a copy or a conversion on the device.

use crate::encode::ffmpeg::FfmpegEncoder;
use crate::encode::ffmpeg_session::{
    ff_err, ff_error, memory_surface, memory_surface_of, SurfaceFormat,
};
use crate::encode::video_processor::{ContentDesc, VideoCall};
use crate::encode::EncoderConfig;
use crate::error::{ErrorView, MediaError};
use crate::types::HwAccelType;
use vstd::prelude::*;

verus! {

/// What was made so far to bring textures to the encoder.
#[derive(Debug, Clone, Copy, PartialEq, Eq)]
pub struct TextureState {
    /// Size of the texture that memory can be read from.
    pub staging: Option<(u32, u32)>,
    pub has_video_device: bool,
    pub has_video_context: bool,
    pub has_processor: bool,
    /// The texture that the input view looks at.
    pub input_view: Option<usize>,
    /// The texture and slice that the output view looks at.
    pub output_view: Option<(usize, u32)>,
}

/// Nothing made yet.
pub open spec fn no_textures() -> TextureState {
    TextureState {
        staging: None,
        has_video_device: false,
        has_video_context: false,
        has_processor: false,
        input_view: None,
        output_view: None,
    }
}

/// What is left when a session ends: the readable texture alone.
pub open spec fn textures_kept(t: TextureState) -> TextureState {
    TextureState { staging: t.staging, ..no_textures() }
}

impl TextureState {
    pub fn none() -> (t: TextureState)
        ensures
            t == no_textures(),
    {
        TextureState {
            staging: None,
            has_video_device: false,
            has_video_context: false,
            has_processor: false,
            input_view: None,
            output_view: None,
        }
    }

    /// Forgets all but the readable texture.
    pub fn after_session(&self) -> (t: TextureState)
        ensures
            t == textures_kept(*self),
    {
        TextureState { staging: self.staging, ..TextureState::none() }
    }
}

// ---- By way of memory ----

/// One operation of reading a texture into the encoder's memory frame.
#[derive(Debug, Clone, Copy, PartialEq, Eq, Structural)]
pub enum StageOp {
    /// Make the readable texture, of this size.
    Create { width: u32, height: u32 },
    /// Copy this slice of the texture to it.
    Copy { slice: u32 },
    MapStaging,
    EnsureWritable { width: u32, height: u32, surface: SurfaceFormat },
    /// Copy the rows.
    CopyBgra,
    /// Convert the colours, with a new converter where there is none.
    Scale { create: bool, target: SurfaceFormat },
    UnmapStaging,
}

/// The operations that read a texture of a size into the memory frame.
pub open spec fn stage_plan(e: FfmpegEncoder, hw: HwAccelType, size: (u32, u32), slice: u32) -> Seq<
    StageOp,
> {
    (if e.textures.staging == Some(size) {
        Seq::empty()
    } else {
        seq![StageOp::Create { width: size.0, height: size.1 }]
    }) + seq![
        StageOp::Copy { slice },
        StageOp::MapStaging,
        StageOp::EnsureWritable { width: size.0, height: size.1, surface: memory_surface(hw) },
        if memory_surface(hw) == SurfaceFormat::Bgra {
            StageOp::CopyBgra
        } else {
            StageOp::Scale { create: !e.has_scaler, target: memory_surface(hw) }
        },
        StageOp::UnmapStaging,
    ]
}

/// What went wrong with a texture on its way to memory.
#[derive(Debug, Clone, Copy)]
pub enum StageFault<'a> {
    Create(&'a str),
    CastSource(&'a str),
    CastStaging(&'a str),
    Mapping(&'a str),
    /// The memory frame got no buffer.
    Frame { code: i32, message: &'a str },
    /// There is no converter.
    Scaler,
}

pub open spec fn stage_error(fault: StageFault) -> ErrorView {
    match fault {
        StageFault::Create(text) => ErrorView::EncodeError(
            "CreateTexture2D staging failed: "@ + text@,
        ),
        StageFault::CastSource(text) => ErrorView::EncodeError(
            "Cast src_tex to ID3D11Resource failed: "@ + text@,
        ),
        StageFault::CastStaging(text) => ErrorView::EncodeError(
            "Cast staging to ID3D11Resource failed: "@ + text@,
        ),
        StageFault::Mapping(text) => ErrorView::EncodeError("Map staging failed: "@ + text@),
        StageFault::Frame { code, message } => ff_error(code as int, message@),
        StageFault::Scaler => ErrorView::EncodeError(
            "Failed to create SwsContext for BGRA\u{2192}YUV/NV12"@,
        ),
    }
}

/// The operation that a fault belongs to.
pub open spec fn faulty(fault: StageFault, op: StageOp) -> bool {
    match fault {
        StageFault::Create(_) => op is Create,
        StageFault::CastSource(_) | StageFault::CastStaging(_) => op is Copy,
        StageFault::Mapping(_) => op is MapStaging,
        StageFault::Frame { .. } => op is EnsureWritable,
        StageFault::Scaler => op is Scale,
    }
}

/// Whether the texture is mapped when a fault comes up.
pub open spec fn mapped(fault: StageFault) -> bool {
    fault is Frame || fault is Scaler
}

/// The error of a fault, and whether the texture has to be unmapped first.
pub fn stage_failure(fault: StageFault) -> (r: (MediaError, bool))
    ensures
        r.0@ == stage_error(fault),
        r.1 == mapped(fault),
{
    match fault {
        StageFault::Create(text) => (
            MediaError::EncodeError("CreateTexture2D staging failed: ".to_owned().concat(text)),
            false,
        ),
        StageFault::CastSource(text) => (
            MediaError::EncodeError(
                "Cast src_tex to ID3D11Resource failed: ".to_owned().concat(text),
            ),
            false,
        ),
        StageFault::CastStaging(text) => (
            MediaError::EncodeError(
                "Cast staging to ID3D11Resource failed: ".to_owned().concat(text),
            ),
            false,
        ),
        StageFault::Mapping(text) => (
            MediaError::EncodeError("Map staging failed: ".to_owned().concat(text)),
            false,
        ),
        StageFault::Frame { code, message } => (ff_err(code, message), true),
        StageFault::Scaler => (
            MediaError::encode("Failed to create SwsContext for BGRA\u{2192}YUV/NV12"),
            true,
        ),
    }
}

// ---- On the device ----

/// What Direct3D says of a texture.
#[derive(Debug, Clone, Copy, PartialEq, Eq, Structural)]
pub struct TextureDesc {
    pub format: u32,
    pub array_size: u32,
}

/// A texture to encode and the one that takes it.
#[derive(Debug, Clone, Copy, PartialEq, Eq, Structural)]
pub struct TexturePair {
    pub source: usize,
    pub slice: u32,
    pub source_desc: TextureDesc,
    pub target: usize,
    pub target_slice: u32,
    pub target_desc: TextureDesc,
}

/// A step that brings a texture into the encoder's frame on the device.
#[derive(Debug, Clone, Copy, PartialEq, Eq, Structural)]
pub enum TextureStep {
    /// Copy a slice to a slice.
    CopyRegion { from: u32, to: u32 },
    MakeVideoDevice,
    MakeVideoContext,
    MakeProcessor(ContentDesc),
    /// Make a view on this slice of the source.
    MakeInputView { slice: u32 },
    /// Make a view on the target, on one slice of it where it is an array.
    MakeOutputView { slice: Option<u32> },
    Convert,
    Flush,
}

pub open spec fn step_if(b: bool, step: TextureStep) -> Seq<TextureStep> {
    if b {
        seq![step]
    } else {
        Seq::empty()
    }
}

/// Whether the views look at other textures than these.
pub open spec fn views_stale(t: TextureState, p: TexturePair) -> bool {
    t.input_view != Some(p.source) || t.output_view != Some((p.target, p.target_slice))
}

/// What the conversion of textures is made for.
pub open spec fn session_content(c: EncoderConfig) -> ContentDesc {
    ContentDesc {
        fps: c.fps,
        input_width: c.width,
        input_height: c.height,
        output_width: c.width,
        output_height: c.height,
    }
}

/// The steps that bring a texture into the frame: a copy where both have one
/// format, else a conversion with what is still missing for it.
pub open spec fn texture_plan(t: TextureState, c: EncoderConfig, p: TexturePair) -> Result<
    Seq<TextureStep>,
    ErrorView,
> {
    if c.d3d11_context is None {
        Err(ErrorView::EncodeError("D3D11 context not available in config"@))
    } else if p.source_desc.format == p.target_desc.format {
        Ok(
            seq![
                TextureStep::CopyRegion { from: p.slice, to: p.target_slice },
                TextureStep::Flush,
            ],
        )
    } else if c.d3d11_device is None {
        Err(ErrorView::EncodeError("D3D11 device not available in config"@))
    } else {
        let stale = views_stale(t, p);
        Ok(
            step_if(!t.has_video_device, TextureStep::MakeVideoDevice) + step_if(
                !t.has_video_context,
                TextureStep::MakeVideoContext,
            ) + step_if(!t.has_processor, TextureStep::MakeProcessor(session_content(c))) + step_if(
                stale,
                TextureStep::MakeInputView { slice: p.slice },
            ) + step_if(
                stale,
                TextureStep::MakeOutputView {
                    slice: if p.target_desc.array_size > 1 {
                        Some(p.target_slice)
                    } else {
                        None
                    },
                },
            ) + seq![TextureStep::Convert, TextureStep::Flush],
        )
    }
}

/// What is there once a step is done.
pub open spec fn step_done(t: TextureState, p: TexturePair, step: TextureStep) -> TextureState {
    match step {
        TextureStep::MakeVideoDevice => TextureState { has_video_device: true, ..t },
        TextureStep::MakeVideoContext => TextureState { has_video_context: true, ..t },
        TextureStep::MakeProcessor(_) => TextureState { has_processor: true, ..t },
        TextureStep::MakeInputView { .. } => TextureState { input_view: Some(p.source), ..t },
        TextureStep::MakeOutputView { .. } => TextureState {
            output_view: Some((p.target, p.target_slice)),
            ..t
        },
        _ => t,
    }
}

/// What is there once steps are done one after another.
pub open spec fn steps_done(t: TextureState, p: TexturePair, steps: Seq<TextureStep>) -> TextureState
    decreases steps.len(),
{
    if steps.len() == 0 {
        t
    } else {
        step_done(steps_done(t, p, steps.drop_last()), p, steps.last())
    }
}

/// What went wrong with a texture on the device.
#[derive(Debug, Clone, Copy)]
pub enum TextureFault<'a> {
    /// The textures could not be copied.
    CopyCast,
    /// A call of the conversion failed, with this text.
    Call(VideoCall, &'a str),
}

pub open spec fn texture_call_text(call: VideoCall) -> Seq<char> {
    match call {
        VideoCall::CastDevice => "Cast ID3D11Device to ID3D11VideoDevice failed: "@,
        VideoCall::CastContext => "Cast ID3D11DeviceContext to ID3D11VideoContext failed: "@,
        VideoCall::CreateEnumerator => "CreateVideoProcessorEnumerator failed: "@,
        VideoCall::CreateProcessor => "CreateVideoProcessor failed: "@,
        VideoCall::CastSource => "Cast src_tex to ID3D11Resource failed: "@,
        VideoCall::CastDestination => "Cast dst_tex to ID3D11Resource failed: "@,
        VideoCall::CreateInputView => "CreateVideoProcessorInputView failed: "@,
        VideoCall::CreateOutputView => "CreateVideoProcessorOutputView failed: "@,
        VideoCall::Blt => "VideoProcessorBlt failed: "@,
    }
}

pub open spec fn texture_error(fault: TextureFault) -> ErrorView {
    match fault {
        TextureFault::CopyCast => ErrorView::EncodeError(
            "Failed to cast textures to ID3D11Resource"@,
        ),
        TextureFault::Call(call, text) => ErrorView::EncodeError(texture_call_text(call) + text@),
    }
}

/// The error of a fault.
pub fn texture_failure(fault: TextureFault) -> (e: MediaError)
    ensures
        e@ == texture_error(fault),
{
    match fault {
        TextureFault::CopyCast => MediaError::encode("Failed to cast textures to ID3D11Resource"),
        TextureFault::Call(call, text) => {
            let front: &str = match call {
                VideoCall::CastDevice => "Cast ID3D11Device to ID3D11VideoDevice failed: ",
                VideoCall::CastContext =>
                    "Cast ID3D11DeviceContext to ID3D11VideoContext failed: ",
                VideoCall::CreateEnumerator => "CreateVideoProcessorEnumerator failed: ",
                VideoCall::CreateProcessor => "CreateVideoProcessor failed: ",
                VideoCall::CastSource => "Cast src_tex to ID3D11Resource failed: ",
                VideoCall::CastDestination => "Cast dst_tex to ID3D11Resource failed: ",
                VideoCall::CreateInputView => "CreateVideoProcessorInputView failed: ",
                VideoCall::CreateOutputView => "CreateVideoProcessorOutputView failed: ",
                VideoCall::Blt => "VideoProcessorBlt failed: ",
            };
            MediaError::EncodeError(front.to_owned().concat(text))
        },
    }
}

impl FfmpegEncoder {
    /// The operations that read a texture into the memory frame: `width` by
    /// `height` pixels, from a slice of it. The readable texture is made anew
    /// where its size is another one.
    pub fn stage_texture(&self, width: u32, height: u32, slice: u32) -> (r: Vec<StageOp>)
        requires
            self.info is Some,
        ensures
            r@ == stage_plan(*self, self.info->0.hw_type, (width, height), slice),
    {
        let hw: HwAccelType = match &self.info {
            Some(i) => i.hw_type,
            None => HwAccelType::Software,
        };
        let surface: SurfaceFormat = memory_surface_of(hw);
        let ready: bool = match self.textures.staging {
            Some((w, h)) => w == width && h == height,
            None => false,
        };
        let mut r: Vec<StageOp> = Vec::new();
        if !ready {
            r.push(StageOp::Create { width, height });
        }
        r.push(StageOp::Copy { slice });
        r.push(StageOp::MapStaging);
        r.push(StageOp::EnsureWritable { width, height, surface });
        if surface == SurfaceFormat::Bgra {
            r.push(StageOp::CopyBgra);
        } else {
            r.push(StageOp::Scale { create: !self.has_scaler, target: surface });
        }
        r.push(StageOp::UnmapStaging);
        assert(r@ =~= stage_plan(*self, hw, (width, height), slice));
        r
    }

    /// Notes that the readable texture was made.
    pub fn staging_created(&mut self, width: u32, height: u32)
        ensures
            *final(self) == (FfmpegEncoder {
                textures: TextureState { staging: Some((width, height)), ..old(self).textures },
                ..*old(self)
            }),
    {
        self.textures.staging = Some((width, height));
    }

    /// The steps that bring a texture into the frame on the device.
    pub fn convert_texture(&self, p: TexturePair) -> (r: Result<Vec<TextureStep>, MediaError>)
        requires
            self.config is Some,
        ensures
            match r {
                Ok(v) => texture_plan(self.textures, self.config->0, p) == Ok::<
                    Seq<TextureStep>,
                    ErrorView,
                >(v@),
                Err(e) => texture_plan(self.textures, self.config->0, p) == Err::<
                    Seq<TextureStep>,
                    ErrorView,
                >(e@),
            },
    {
        let c: EncoderConfig = match self.config {
            Some(c) => c,
            None => {
                return Err(MediaError::EncoderNotInitialized);
            },
        };
        if c.d3d11_context.is_none() {
            return Err(MediaError::encode("D3D11 context not available in config"));
        }
        let mut v: Vec<TextureStep> = Vec::new();
        if p.source_desc.format == p.target_desc.format {
            v.push(TextureStep::CopyRegion { from: p.slice, to: p.target_slice });
            v.push(TextureStep::Flush);
            assert(v@ =~= seq![
                TextureStep::CopyRegion { from: p.slice, to: p.target_slice },
                TextureStep::Flush,
            ]);
            return Ok(v);
        }
        if c.d3d11_device.is_none() {
            return Err(MediaError::encode("D3D11 device not available in config"));
        }
        let t: TextureState = self.textures;
        let input_fits: bool = match t.input_view {
            Some(texture) => texture == p.source,
            None => false,
        };
        let output_fits: bool = match t.output_view {
            Some((texture, slice)) => texture == p.target && slice == p.target_slice,
            None => false,
        };
        if !t.has_video_device {
            v.push(TextureStep::MakeVideoDevice);
        }
        if !t.has_video_context {
            v.push(TextureStep::MakeVideoContext);
        }
        if !t.has_processor {
            v.push(
                TextureStep::MakeProcessor(
                    ContentDesc {
                        fps: c.fps,
                        input_width: c.width,
                        input_height: c.height,
                        output_width: c.width,
                        output_height: c.height,
                    },
                ),
            );
        }
        if !input_fits || !output_fits {
            v.push(TextureStep::MakeInputView { slice: p.slice });
            v.push(
                TextureStep::MakeOutputView {
                    slice: if p.target_desc.array_size > 1 {
                        Some(p.target_slice)
                    } else {
                        None
                    },
                },
            );
        }
        v.push(TextureStep::Convert);
        v.push(TextureStep::Flush);
        assert((!input_fits || !output_fits) == views_stale(t, p));
        assert(v@ =~= texture_plan(t, c, p)->Ok_0);
        Ok(v)
    }

    /// Notes that a step was done.
    pub fn texture_step_done(&mut self, p: TexturePair, step: TextureStep)
        ensures
            *final(self) == (FfmpegEncoder {
                textures: step_done(old(self).textures, p, step),
                ..*old(self)
            }),
    {
        match step {
            TextureStep::MakeVideoDevice => {
                self.textures.has_video_device = true;
            },
            TextureStep::MakeVideoContext => {
                self.textures.has_video_context = true;
            },
            TextureStep::MakeProcessor(_) => {
                self.textures.has_processor = true;
            },
            TextureStep::MakeInputView { .. } => {
                self.textures.input_view = Some(p.source);
            },
            TextureStep::MakeOutputView { .. } => {
                self.textures.output_view = Some((p.target, p.target_slice));
            },
            _ => {},
        }
    }
}

// ---- Laws ----

/// A texture that is mapped is unmapped: by the last operation where all goes
/// well, and otherwise because every fault behind the mapping asks for it and
/// none before it does.
pub proof fn law_what_is_mapped_is_unmapped(
    e: FfmpegEncoder,
    hw: HwAccelType,
    size: (u32, u32),
    slice: u32,
    i: int,
    m: int,
    fault: StageFault,
)
    requires
        0 <= i < stage_plan(e, hw, size, slice).len(),
        0 <= m < stage_plan(e, hw, size, slice).len(),
        stage_plan(e, hw, size, slice)[m] == StageOp::MapStaging,
        faulty(fault, stage_plan(e, hw, size, slice)[i]),
    ensures
        stage_plan(e, hw, size, slice).last() == StageOp::UnmapStaging,
        mapped(fault) == (m < i),
{
}

proof fn lemma_steps_done_in_turn(
    t: TextureState,
    p: TexturePair,
    a: Seq<TextureStep>,
    b: Seq<TextureStep>,
)
    ensures
        steps_done(t, p, a + b) == steps_done(steps_done(t, p, a), p, b),
    decreases b.len(),
{
    if b.len() == 0 {
        assert(a + b =~= a);
    } else {
        assert((a + b).drop_last() =~= a + b.drop_last());
        lemma_steps_done_in_turn(t, p, a, b.drop_last());
    }
}

proof fn lemma_step_if_done(t: TextureState, p: TexturePair, b: bool, step: TextureStep)
    ensures
        steps_done(t, p, step_if(b, step)) == (if b {
            step_done(t, p, step)
        } else {
            t
        }),
{
    if b {
        assert(seq![step].drop_last() =~= Seq::empty());
        assert(steps_done(t, p, seq![step].drop_last()) == t);
    }
}

/// Once a texture was converted, both views look at the textures in use, and
/// converting between the same two again makes nothing new.
pub proof fn law_a_conversion_is_prepared_once(t: TextureState, c: EncoderConfig, p: TexturePair)
    requires
        texture_plan(t, c, p) is Ok,
        p.source_desc.format != p.target_desc.format,
    ensures
        ({
            let done = steps_done(t, p, texture_plan(t, c, p)->Ok_0);
            &&& !views_stale(done, p)
            &&& texture_plan(done, c, p) == Ok::<Seq<TextureStep>, ErrorView>(
                seq![TextureStep::Convert, TextureStep::Flush],
            )
        }),
{
    let stale = views_stale(t, p);
    let s1 = step_if(!t.has_video_device, TextureStep::MakeVideoDevice);
    let s2 = step_if(!t.has_video_context, TextureStep::MakeVideoContext);
    let s3 = step_if(!t.has_processor, TextureStep::MakeProcessor(session_content(c)));
    let input = TextureStep::MakeInputView { slice: p.slice };
    let s4 = step_if(stale, input);
    let output = TextureStep::MakeOutputView {
        slice: if p.target_desc.array_size > 1 {
            Some(p.target_slice)
        } else {
            None
        },
    };
    let s5 = step_if(stale, output);
    let end = seq![TextureStep::Convert, TextureStep::Flush];
    let t1 = steps_done(t, p, s1);
    let t2 = steps_done(t1, p, s2);
    let t3 = steps_done(t2, p, s3);
    let t4 = steps_done(t3, p, s4);
    let t5 = steps_done(t4, p, s5);
    lemma_steps_done_in_turn(t, p, s1, s2);
    lemma_steps_done_in_turn(t, p, s1 + s2, s3);
    lemma_steps_done_in_turn(t, p, s1 + s2 + s3, s4);
    lemma_steps_done_in_turn(t, p, s1 + s2 + s3 + s4, s5);
    lemma_steps_done_in_turn(t, p, s1 + s2 + s3 + s4 + s5, end);
    lemma_step_if_done(t, p, !t.has_video_device, TextureStep::MakeVideoDevice);
    lemma_step_if_done(t1, p, !t.has_video_context, TextureStep::MakeVideoContext);
    lemma_step_if_done(
        t2,
        p,
        !t.has_processor,
        TextureStep::MakeProcessor(session_content(c)),
    );
    lemma_step_if_done(t3, p, stale, input);
    lemma_step_if_done(t4, p, stale, output);
    assert(end.drop_last() =~= step_if(true, TextureStep::Convert));
    lemma_step_if_done(t5, p, true, TextureStep::Convert);
    let done = steps_done(t, p, texture_plan(t, c, p)->Ok_0);
    assert(done == t5);
    let none = Seq::<TextureStep>::empty();
    assert(none + none + none + none + none + end =~= end);
}

/// How far a texture is on its way to memory.
pub struct StageWay {
    /// Size of the readable texture.
    pub readable: Option<(u32, u32)>,
    /// The readable texture holds the picture.
    pub copied: bool,
    pub mapped: bool,
    /// The memory frame's surface, once it is writable at the picture's size.
    pub frame: Option<SurfaceFormat>,
    /// The memory frame holds the picture.
    pub filled: bool,
}

/// Where an operation brings a texture of a size, `None` where it does not find what it
/// needs. `converter` says whether a colour converter is there before.
pub open spec fn staged_by(
    size: (u32, u32),
    slice: u32,
    converter: bool,
    w: StageWay,
    op: StageOp,
) -> Option<StageWay> {
    match op {
        StageOp::Create { width, height } => if w.readable != Some(size) && (width, height) == size
            && !w.copied {
            Some(StageWay { readable: Some((width, height)), ..w })
        } else {
            None
        },
        StageOp::Copy { slice: s } => if w.readable == Some(size) && s == slice && !w.mapped {
            Some(StageWay { copied: true, ..w })
        } else {
            None
        },
        StageOp::MapStaging => if w.copied && !w.mapped {
            Some(StageWay { mapped: true, ..w })
        } else {
            None
        },
        StageOp::EnsureWritable { width, height, surface } => if (width, height) == size {
            Some(StageWay { frame: Some(surface), ..w })
        } else {
            None
        },
        StageOp::CopyBgra => if w.mapped && w.frame == Some(SurfaceFormat::Bgra) {
            Some(StageWay { filled: true, ..w })
        } else {
            None
        },
        StageOp::Scale { create, target } => if w.mapped && w.frame == Some(target) && target
            != SurfaceFormat::Bgra && create != converter {
            Some(StageWay { filled: true, ..w })
        } else {
            None
        },
        StageOp::UnmapStaging => if w.mapped && w.filled {
            Some(StageWay { mapped: false, ..w })
        } else {
            None
        },
    }
}

/// Where the first `n` operations bring a texture.
pub open spec fn stage_after(
    e: FfmpegEncoder,
    size: (u32, u32),
    slice: u32,
    ops: Seq<StageOp>,
    n: nat,
) -> Option<StageWay>
    decreases n,
{
    if n == 0 {
        Some(
            StageWay {
                readable: e.textures.staging,
                copied: false,
                mapped: false,
                frame: None,
                filled: false,
            },
        )
    } else {
        match stage_after(e, size, slice, ops, (n - 1) as nat) {
            Some(w) => staged_by(size, slice, e.has_scaler, w, ops[n - 1]),
            None => None,
        }
    }
}

/// A texture reaches the memory frame: the right slice of it, through a readable texture of
/// its own size, copied as it is where the frame takes what is captured and converted where
/// it does not. NVENC takes what is captured, software planes of their own, the others two
/// planes. In the end nothing is mapped.
pub proof fn law_a_texture_reaches_memory(
    e: FfmpegEncoder,
    hw: HwAccelType,
    size: (u32, u32),
    slice: u32,
)
    ensures
        ({
            let ops = stage_plan(e, hw, size, slice);
            let w = stage_after(e, size, slice, ops, ops.len());
            &&& w is Some
            &&& w->0.filled && !w->0.mapped
            &&& w->0.readable == Some(size)
            &&& w->0.frame == Some(
                if hw == HwAccelType::Nvenc {
                    SurfaceFormat::Bgra
                } else if hw == HwAccelType::Software {
                    SurfaceFormat::Yuv420p
                } else {
                    SurfaceFormat::Nv12
                },
            )
        }),
{
    reveal_with_fuel(stage_after, 8);
    let ops = stage_plan(e, hw, size, slice);
    let k: int = if e.textures.staging == Some(size) {
        0
    } else {
        1
    };
    if k == 1 {
        assert(ops[0] == (StageOp::Create { width: size.0, height: size.1 }));
    }
    assert(ops[k] == (StageOp::Copy { slice }));
    assert(ops[k + 1] == StageOp::MapStaging);
    assert(ops[k + 2] == (StageOp::EnsureWritable {
        width: size.0,
        height: size.1,
        surface: memory_surface(hw),
    }));
    assert(ops[k + 4] == StageOp::UnmapStaging);
}

/// How far a texture is on its way into the encoder's frame.
pub struct TextureWay {
    pub device: bool,
    pub context: bool,
    pub processor: bool,
    pub input: bool,
    pub output: bool,
    /// The frame holds the picture.
    pub there: bool,
    pub flushed: bool,
}

/// Where a step brings a texture, `None` where it does not find what it needs: textures of
/// one format are copied, slice to slice, those of two are converted through views on the
/// right slices.
pub open spec fn textured_by(
    p: TexturePair,
    c: EncoderConfig,
    w: TextureWay,
    step: TextureStep,
) -> Option<TextureWay> {
    if w.flushed {
        None
    } else {
        match step {
            TextureStep::CopyRegion { from, to } => if p.source_desc.format == p.target_desc.format
                && from == p.slice && to == p.target_slice && !w.there {
                Some(TextureWay { there: true, ..w })
            } else {
                None
            },
            TextureStep::MakeVideoDevice => if !w.device {
                Some(TextureWay { device: true, ..w })
            } else {
                None
            },
            TextureStep::MakeVideoContext => if !w.context {
                Some(TextureWay { context: true, ..w })
            } else {
                None
            },
            TextureStep::MakeProcessor(d) => if w.device && w.context && !w.processor
                && d.input_width == c.width && d.input_height == c.height && d.output_width
                == c.width && d.output_height == c.height && d.fps == c.fps {
                Some(TextureWay { processor: true, ..w })
            } else {
                None
            },
            TextureStep::MakeInputView { slice } => if w.device && slice == p.slice && !w.there {
                Some(TextureWay { input: true, ..w })
            } else {
                None
            },
            TextureStep::MakeOutputView { slice } => if w.device && !w.there && (slice
                == Some(p.target_slice) <==> p.target_desc.array_size > 1) && (slice is None
                <==> p.target_desc.array_size <= 1) {
                Some(TextureWay { output: true, ..w })
            } else {
                None
            },
            TextureStep::Convert => if p.source_desc.format != p.target_desc.format && w.context
                && w.processor && w.input && w.output && !w.there {
                Some(TextureWay { there: true, ..w })
            } else {
                None
            },
            TextureStep::Flush => if w.there {
                Some(TextureWay { flushed: true, ..w })
            } else {
                None
            },
        }
    }
}

/// Where the first `n` steps bring a texture. Views count only where both look at the
/// textures in use.
pub open spec fn texture_after(
    t: TextureState,
    c: EncoderConfig,
    p: TexturePair,
    steps: Seq<TextureStep>,
    n: nat,
) -> Option<TextureWay>
    decreases n,
{
    if n == 0 {
        let fresh = t.input_view == Some(p.source) && t.output_view == Some(
            (p.target, p.target_slice),
        );
        Some(
            TextureWay {
                device: t.has_video_device,
                context: t.has_video_context,
                processor: t.has_processor,
                input: fresh,
                output: fresh,
                there: false,
                flushed: false,
            },
        )
    } else {
        match texture_after(t, c, p, steps, (n - 1) as nat) {
            Some(w) => textured_by(p, c, w, steps[n - 1]),
            None => None,
        }
    }
}

/// A texture reaches the encoder's frame and is flushed there, whatever was made before:
/// every step finds what it needs, made before or by an earlier one. A context is needed for
/// it, and for a conversion the device.
pub proof fn law_a_texture_reaches_the_frame(t: TextureState, c: EncoderConfig, p: TexturePair)
    ensures
        texture_plan(t, c, p) is Ok <==> c.d3d11_context is Some && (p.source_desc.format
            == p.target_desc.format || c.d3d11_device is Some),
        texture_plan(t, c, p) is Ok ==> {
            let steps = texture_plan(t, c, p)->Ok_0;
            let w = texture_after(t, c, p, steps, steps.len());
            w is Some && w->0.there && w->0.flushed
        },
{
    if texture_plan(t, c, p) is Ok {
        let steps = texture_plan(t, c, p)->Ok_0;
        reveal_with_fuel(texture_after, 9);
        if p.source_desc.format == p.target_desc.format {
            assert(steps.len() == 2);
        } else {
            let d: int = if t.has_video_device {
                0
            } else {
                1
            };
            let x: int = if t.has_video_context {
                0
            } else {
                1
            };
            let m: int = if t.has_processor {
                0
            } else {
                1
            };
            let n = steps.len() as int;
            assert(steps[n - 1] == TextureStep::Flush);
            assert(steps[n - 2] == TextureStep::Convert);
            if d == 1 {
                assert(steps[0] == TextureStep::MakeVideoDevice);
            }
            if x == 1 {
                assert(steps[d] == TextureStep::MakeVideoContext);
            }
            if m == 1 {
                assert(steps[d + x] == TextureStep::MakeProcessor(session_content(c)));
            }
            if views_stale(t, p) {
                assert(steps[d + x + m] == (TextureStep::MakeInputView { slice: p.slice }));
                assert(steps[d + x + m + 1] is MakeOutputView);
            }
        }
    }
}

} // verus!
