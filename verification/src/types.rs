//! Types shared by every part of the media host.

use crate::text::{
    begins_with, chars_of, is_text, lower, lower_all, lowered, replaced, string_of, strip_front,
    stripped, trimmed, with_replaced, CharClass,
};
use vstd::prelude::*;

verus! {

/// Video codec.
#[derive(Debug, Clone, Copy, PartialEq, Eq, Structural, Hash)]
pub enum VideoCodec {
    H264,
    H265,
    AV1,
}

/// The name under which a codec is shown.
pub open spec fn codec_label(c: VideoCodec) -> Seq<char> {
    match c {
        VideoCodec::H264 => "H.264"@,
        VideoCodec::H265 => "H.265"@,
        VideoCodec::AV1 => "AV1"@,
    }
}

impl VideoCodec {
    /// The name under which the codec is shown.
    pub fn to_string(&self) -> (s: String)
        ensures
            s@ == codec_label(*self),
    {
        match self {
            VideoCodec::H264 => "H.264".to_owned(),
            VideoCodec::H265 => "H.265".to_owned(),
            VideoCodec::AV1 => "AV1".to_owned(),
        }
    }
}

/// Layout of raw frames.
#[derive(Debug, Clone, Copy, PartialEq, Eq, Structural, Hash)]
pub enum PixelFormat {
    /// Planar luma, interleaved chroma, 8 bits.
    NV12,
    /// Four bytes a pixel: blue, green, red, alpha.
    BGRA,
    /// As `NV12`, with 10 bits.
    P010,
}

/// What a stream asks for.
#[derive(Debug, Clone, PartialEq, Eq)]
pub struct StreamConfig {
    pub width: u32,
    pub height: u32,
    pub fps: u32,
    pub codec: VideoCodec,
    pub bitrate_kbps: u32,
    pub pixel_format: PixelFormat,
    /// Name of the wanted encoder, `None` for an automatic choice.
    pub preferred_encoder: Option<String>,
    /// Whether the stream wants a display of its own.
    pub virtual_display: bool,
}

impl Default for StreamConfig {
    fn default() -> (r: Self)
        ensures
            r.width == 1920,
            r.height == 1080,
            r.fps == 60,
            r.codec == VideoCodec::H264,
            r.bitrate_kbps == 10_000,
            r.pixel_format == PixelFormat::NV12,
            r.preferred_encoder is None,
            !r.virtual_display,
    {
        StreamConfig {
            width: 1920,
            height: 1080,
            fps: 60,
            codec: VideoCodec::H264,
            bitrate_kbps: 10_000,
            pixel_format: PixelFormat::NV12,
            preferred_encoder: None,
            virtual_display: false,
        }
    }
}

/// An encoder name as it is looked up: no white space around it, ASCII small
/// letters, `_` in place of `-`.
pub open spec fn normal(s: Seq<char>) -> Seq<char> {
    replaced(lower_all(stripped(s, CharClass::White)), '-', '_')
}

pub open spec fn names_nvenc(n: Seq<char>) -> bool {
    n == "nvenc"@ || n == "native_nvenc"@ || n == "native_nvenc_d3d11"@ || n == "ffmpeg_nvenc"@ || n
        == "h264_nvenc"@ || n == "hevc_nvenc"@ || n == "av1_nvenc"@
}

pub open spec fn names_vaapi(n: Seq<char>) -> bool {
    n == "vaapi"@ || n == "ffmpeg_vaapi"@ || n == "h264_vaapi"@ || n == "hevc_vaapi"@ || n
        == "av1_vaapi"@
}

pub open spec fn names_qsv(n: Seq<char>) -> bool {
    n == "qsv"@ || n == "ffmpeg_qsv"@ || n == "h264_qsv"@ || n == "hevc_qsv"@ || n == "av1_qsv"@
}

pub open spec fn names_amf(n: Seq<char>) -> bool {
    n == "amf"@ || n == "native_amf"@ || n == "native_amf_d3d11"@ || n == "ffmpeg_amf"@ || n
        == "h264_amf"@ || n == "hevc_amf"@ || n == "av1_amf"@
}

pub open spec fn names_videotoolbox(n: Seq<char>) -> bool {
    n == "videotoolbox"@ || n == "ffmpeg_videotoolbox"@ || n == "h264_videotoolbox"@ || n
        == "hevc_videotoolbox"@
}

pub open spec fn names_software(n: Seq<char>) -> bool {
    n == "software"@ || n == "ffmpeg_software"@ || n == "libx264"@ || n == "libx265"@ || n
        == "libsvtav1"@ || n == "libaom_av1"@
}

/// The accelerator that a looked-up encoder name asks for.
pub open spec fn hw_of_name(n: Seq<char>) -> Option<HwAccelType> {
    if names_nvenc(n) {
        Some(HwAccelType::Nvenc)
    } else if names_vaapi(n) {
        Some(HwAccelType::Vaapi)
    } else if names_qsv(n) {
        Some(HwAccelType::Qsv)
    } else if names_amf(n) {
        Some(HwAccelType::Amf)
    } else if names_videotoolbox(n) {
        Some(HwAccelType::VideoToolbox)
    } else if names_software(n) {
        Some(HwAccelType::Software)
    } else {
        None
    }
}

/// FFmpeg's own encoder names.
pub open spec fn ffmpeg_encoder_name(n: Seq<char>) -> bool {
    ||| n == "h264_nvenc"@ || n == "hevc_nvenc"@ || n == "av1_nvenc"@
    ||| n == "h264_amf"@ || n == "hevc_amf"@ || n == "av1_amf"@
    ||| n == "h264_qsv"@ || n == "hevc_qsv"@ || n == "av1_qsv"@
    ||| n == "h264_vaapi"@ || n == "hevc_vaapi"@ || n == "av1_vaapi"@
    ||| n == "h264_videotoolbox"@ || n == "hevc_videotoolbox"@
    ||| n == "libx264"@ || n == "libx265"@ || n == "libsvtav1"@ || n == "libaom_av1"@
}

/// Whether a looked-up name asks for FFmpeg.
pub open spec fn wants_ffmpeg(n: Seq<char>) -> bool {
    n == "ffmpeg"@ || n == "ffmpeg_gpu"@ || "ffmpeg_"@.is_prefix_of(n) || ffmpeg_encoder_name(n)
}

/// Whether a looked-up name asks for a native encoder.
pub open spec fn wants_native(n: Seq<char>) -> bool {
    n == "gpu"@ || n == "native"@ || n == "native_gpu"@ || "native_"@.is_prefix_of(n)
}

fn is_ffmpeg_encoder_name(n: &[char]) -> (b: bool)
    ensures
        b == ffmpeg_encoder_name(n@),
{
    is_text(n, "h264_nvenc") || is_text(n, "hevc_nvenc") || is_text(n, "av1_nvenc") || is_text(
        n,
        "h264_amf",
    ) || is_text(n, "hevc_amf") || is_text(n, "av1_amf") || is_text(n, "h264_qsv") || is_text(
        n,
        "hevc_qsv",
    ) || is_text(n, "av1_qsv") || is_text(n, "h264_vaapi") || is_text(n, "hevc_vaapi") || is_text(
        n,
        "av1_vaapi",
    ) || is_text(n, "h264_videotoolbox") || is_text(n, "hevc_videotoolbox") || is_text(n, "libx264")
        || is_text(n, "libx265") || is_text(n, "libsvtav1") || is_text(n, "libaom_av1")
}

impl StreamConfig {
    /// `s` as an encoder name is looked up.
    pub fn normalize_encoder_preference(s: &str) -> (r: String)
        ensures
            r@ == normal(s@),
    {
        let v: Vec<char> = Self::normalized(s);
        string_of(v.as_slice())
    }

    fn normalized(s: &str) -> (r: Vec<char>)
        ensures
            r@ == normal(s@),
    {
        let v: Vec<char> = chars_of(s);
        let core: Vec<char> = trimmed(v.as_slice(), CharClass::White);
        let low: Vec<char> = lowered(core.as_slice());
        with_replaced(low.as_slice(), '-', '_')
    }

    /// The accelerator that an encoder name asks for, `None` where it names
    /// none.
    pub fn parse_encoder_preference(s: &str) -> (r: Option<HwAccelType>)
        ensures
            r == hw_of_name(normal(s@)),
    {
        let v: Vec<char> = Self::normalized(s);
        let n: &[char] = v.as_slice();
        if is_text(n, "nvenc") || is_text(n, "native_nvenc") || is_text(n, "native_nvenc_d3d11")
            || is_text(n, "ffmpeg_nvenc") || is_text(n, "h264_nvenc") || is_text(n, "hevc_nvenc")
            || is_text(n, "av1_nvenc") {
            Some(HwAccelType::Nvenc)
        } else if is_text(n, "vaapi") || is_text(n, "ffmpeg_vaapi") || is_text(n, "h264_vaapi")
            || is_text(n, "hevc_vaapi") || is_text(n, "av1_vaapi") {
            Some(HwAccelType::Vaapi)
        } else if is_text(n, "qsv") || is_text(n, "ffmpeg_qsv") || is_text(n, "h264_qsv")
            || is_text(n, "hevc_qsv") || is_text(n, "av1_qsv") {
            Some(HwAccelType::Qsv)
        } else if is_text(n, "amf") || is_text(n, "native_amf") || is_text(n, "native_amf_d3d11")
            || is_text(n, "ffmpeg_amf") || is_text(n, "h264_amf") || is_text(n, "hevc_amf")
            || is_text(n, "av1_amf") {
            Some(HwAccelType::Amf)
        } else if is_text(n, "videotoolbox") || is_text(n, "ffmpeg_videotoolbox") || is_text(
            n,
            "h264_videotoolbox",
        ) || is_text(n, "hevc_videotoolbox") {
            Some(HwAccelType::VideoToolbox)
        } else if is_text(n, "software") || is_text(n, "ffmpeg_software") || is_text(n, "libx264")
            || is_text(n, "libx265") || is_text(n, "libsvtav1") || is_text(n, "libaom_av1") {
            Some(HwAccelType::Software)
        } else {
            None
        }
    }

    /// Whether an encoder name asks for FFmpeg.
    pub fn encoder_prefers_ffmpeg(s: &str) -> (b: bool)
        ensures
            b == wants_ffmpeg(normal(s@)),
    {
        let v: Vec<char> = Self::normalized(s);
        let n: &[char] = v.as_slice();
        is_text(n, "ffmpeg") || is_text(n, "ffmpeg_gpu") || begins_with(n, "ffmpeg_")
            || is_ffmpeg_encoder_name(n)
    }

    /// Whether an encoder name asks for a native encoder.
    pub fn encoder_prefers_native(s: &str) -> (b: bool)
        ensures
            b == wants_native(normal(s@)),
    {
        let v: Vec<char> = Self::normalized(s);
        let n: &[char] = v.as_slice();
        is_text(n, "gpu") || is_text(n, "native") || is_text(n, "native_gpu") || begins_with(
            n,
            "native_",
        )
    }
}

/// Kind of an encoded frame.
#[derive(Debug, Clone, Copy, PartialEq, Eq, Structural)]
pub enum FrameType {
    /// Decodable on its own.
    Key,
    /// Depends on earlier frames.
    Inter,
}

/// One encoded frame of video.
#[derive(Debug, Clone, PartialEq, Eq)]
pub struct EncodedVideoFrame {
    pub data: Vec<u8>,
    pub frame_type: FrameType,
    /// Presentation time in microseconds.
    pub pts: u64,
    /// Duration in microseconds.
    pub duration: u64,
    pub codec: VideoCodec,
}

/// One encoded frame of audio.
#[derive(Debug, Clone, PartialEq, Eq)]
pub struct EncodedAudioFrame {
    pub data: Vec<u8>,
    /// Presentation time in microseconds.
    pub pts: u64,
    /// Duration in microseconds.
    pub duration: u64,
    pub sample_rate: u32,
    pub channels: u16,
}

/// What a cursor stands for.
#[derive(Debug, Clone, Copy, PartialEq, Eq, Structural, Hash)]
pub enum CursorKind {
    Arrow,
    IBeam,
    Hand,
    Cross,
    Move,
    ResizeNs,
    ResizeEw,
    ResizeNesw,
    ResizeNwse,
    Unavailable,
    Unknown,
}

/// Where the cursor is and what it looks like.
#[derive(Debug, Clone, PartialEq, Eq)]
pub struct CursorState {
    pub x: i32,
    pub y: i32,
    pub visible: bool,
    pub kind: CursorKind,
    /// The picture, present when it changed.
    pub image: Option<CursorImage>,
}

/// A cursor picture.
#[derive(Debug, Clone, PartialEq, Eq)]
pub struct CursorImage {
    pub width: u32,
    pub height: u32,
    pub hotspot_x: u32,
    pub hotspot_y: u32,
    /// Four bytes a pixel: red, green, blue, alpha.
    pub rgba_data: Vec<u8>,
}

/// A [`CursorImage`] with its bytes as a sequence.
pub struct PictureView {
    pub width: u32,
    pub height: u32,
    pub hotspot_x: u32,
    pub hotspot_y: u32,
    pub rgba_data: Seq<u8>,
}

impl View for CursorImage {
    type V = PictureView;

    open spec fn view(&self) -> PictureView {
        PictureView {
            width: self.width,
            height: self.height,
            hotspot_x: self.hotspot_x,
            hotspot_y: self.hotspot_y,
            rgba_data: self.rgba_data@,
        }
    }
}

/// The view of a picture, where there is one.
pub open spec fn picture(image: Option<CursorImage>) -> Option<PictureView> {
    match image {
        Some(i) => Some(i@),
        None => None,
    }
}

impl CursorImage {
    /// A copy of the picture.
    pub fn copy(&self) -> (r: CursorImage)
        ensures
            r@ == self@,
    {
        let data: Vec<u8> = self.rgba_data.clone();
        assert(data@ =~= self.rgba_data@);
        CursorImage {
            width: self.width,
            height: self.height,
            hotspot_x: self.hotspot_x,
            hotspot_y: self.hotspot_y,
            rgba_data: data,
        }
    }

    /// Whether two pictures are the same in every byte.
    pub fn same(&self, other: &CursorImage) -> (b: bool)
        ensures
            b == (self@ == other@),
    {
        if self.width != other.width || self.height != other.height || self.hotspot_x
            != other.hotspot_x || self.hotspot_y != other.hotspot_y || self.rgba_data.len()
            != other.rgba_data.len() {
            return false;
        }
        for i in 0..self.rgba_data.len()
            invariant
                self.rgba_data@.len() == other.rgba_data@.len(),
                self.rgba_data@.take(i as int) == other.rgba_data@.take(i as int),
        {
            if self.rgba_data[i] != other.rgba_data[i] {
                return false;
            }
            assert(self.rgba_data@.take(i as int + 1) =~= self.rgba_data@.take(i as int).push(
                self.rgba_data@[i as int],
            ));
            assert(other.rgba_data@.take(i as int + 1) =~= other.rgba_data@.take(i as int).push(
                other.rgba_data@[i as int],
            ));
        }
        assert(self.rgba_data@.take(self.rgba_data@.len() as int) =~= self.rgba_data@);
        assert(other.rgba_data@.take(other.rgba_data@.len() as int) =~= other.rgba_data@);
        true
    }
}

/// A connected display.
#[derive(Debug, Clone, PartialEq, Eq)]
pub struct DisplayInfo {
    pub id: String,
    pub name: String,
    pub width: u32,
    pub height: u32,
    /// Refresh rate in hertz, as a decimal number.
    pub refresh_rate: String,
    pub is_primary: bool,
}

/// Hardware behind an encoder.
#[derive(Debug, Clone, Copy, PartialEq, Eq, Structural, Hash)]
pub enum HwAccelType {
    Nvenc,
    Vaapi,
    Qsv,
    Amf,
    VideoToolbox,
    Software,
}

/// The name under which an accelerator is shown.
pub open spec fn hw_label(hw: HwAccelType) -> Seq<char> {
    match hw {
        HwAccelType::Nvenc => "NVENC"@,
        HwAccelType::Vaapi => "VAAPI"@,
        HwAccelType::Qsv => "QSV"@,
        HwAccelType::Amf => "AMF"@,
        HwAccelType::VideoToolbox => "VideoToolbox"@,
        HwAccelType::Software => "Software"@,
    }
}

impl HwAccelType {
    /// The name under which the accelerator is shown.
    pub fn to_string(&self) -> (s: String)
        ensures
            s@ == hw_label(*self),
    {
        match self {
            HwAccelType::Nvenc => "NVENC".to_owned(),
            HwAccelType::Vaapi => "VAAPI".to_owned(),
            HwAccelType::Qsv => "QSV".to_owned(),
            HwAccelType::Amf => "AMF".to_owned(),
            HwAccelType::VideoToolbox => "VideoToolbox".to_owned(),
            HwAccelType::Software => "Software".to_owned(),
        }
    }
}

/// An encoder that can be used.
#[derive(Debug, Clone, PartialEq, Eq)]
pub struct EncoderInfo {
    pub name: String,
    pub hw_type: HwAccelType,
    pub supported_codecs: Vec<VideoCodec>,
}

/// What an audio capture asks for.
#[derive(Debug, Clone, Copy, PartialEq, Eq, Structural)]
pub struct AudioCaptureConfig {
    pub sample_rate: u32,
    pub channels: u16,
    pub frame_size_ms: u32,
}

impl Default for AudioCaptureConfig {
    fn default() -> (r: Self)
        ensures
            r == (AudioCaptureConfig { sample_rate: 48_000, channels: 2, frame_size_ms: 20 }),
    {
        AudioCaptureConfig { sample_rate: 48_000, channels: 2, frame_size_ms: 20 }
    }
}

// ---- Laws ----

proof fn lemma_strip_front_first(s: Seq<char>, class: CharClass)
    ensures
        strip_front(s, class).len() > 0 ==> !crate::text::in_class(
            class,
            strip_front(s, class)[0],
        ),
    decreases s.len(),
{
    if s.len() > 0 && crate::text::in_class(class, s[0]) {
        lemma_strip_front_first(s.skip(1), class);
    }
}

proof fn lemma_strip_back_ends(s: Seq<char>, class: CharClass)
    ensures
        crate::text::strip_back(s, class).len() > 0 ==> !crate::text::in_class(
            class,
            crate::text::strip_back(s, class).last(),
        ) && crate::text::strip_back(s, class)[0] == s[0],
    decreases s.len(),
{
    if s.len() > 0 && crate::text::in_class(class, s.last()) {
        lemma_strip_back_ends(s.drop_last(), class);
    }
}

/// Whether looking an encoder name up leaves this character as it is, or, for a
/// hyphen, only turns it into an underscore.
pub open spec fn plain(c: char) -> bool {
    'a' as int <= c as int <= 'z' as int || '0' as int <= c as int <= '9' as int || c == '_' || c
        == '-'
}

/// A name of small letters, digits and underscores is looked up as it stands, and
/// its hyphens as underscores.
pub proof fn lemma_normal_of_plain(s: Seq<char>)
    requires
        s.len() > 0,
        forall|i: int| 0 <= i < s.len() ==> plain(#[trigger] s[i]),
    ensures
        normal(s) == replaced(s, '-', '_'),
{
    assert(plain(s[0]));
    assert(plain(s[s.len() - 1]));
    assert(strip_front(s, CharClass::White) == s);
    assert(stripped(s, CharClass::White) == s);
    assert(lower_all(s) =~= s) by {
        assert forall|i: int| 0 <= i < s.len() implies lower(#[trigger] s[i]) == s[i] by {
            assert(plain(s[i]));
        }
    }
}

/// How the names of each accelerator begin and end.
pub proof fn lemma_ends_of_names(n: Seq<char>)
    ensures
        names_nvenc(n) ==> n.len() > 0 && (n.last() == 'c' || (n[0] == 'n' && n.last() == '1')),
        names_vaapi(n) ==> n.len() > 0 && (n.last() == 'i'),
        names_qsv(n) ==> n.len() > 0 && (n.last() == 'v'),
        names_amf(n) ==> n.len() > 0 && (n.last() == 'f' || (n[0] == 'n' && n.last() == '1')),
        names_videotoolbox(n) ==> n.len() > 0 && (n.last() == 'x'),
{
    if names_nvenc(n) {
        reveal_strlit("nvenc");
        reveal_strlit("native_nvenc");
        reveal_strlit("native_nvenc_d3d11");
        reveal_strlit("ffmpeg_nvenc");
        reveal_strlit("h264_nvenc");
        reveal_strlit("hevc_nvenc");
        reveal_strlit("av1_nvenc");
    }
    if names_vaapi(n) {
        reveal_strlit("vaapi");
        reveal_strlit("ffmpeg_vaapi");
        reveal_strlit("h264_vaapi");
        reveal_strlit("hevc_vaapi");
        reveal_strlit("av1_vaapi");
    }
    if names_qsv(n) {
        reveal_strlit("qsv");
        reveal_strlit("ffmpeg_qsv");
        reveal_strlit("h264_qsv");
        reveal_strlit("hevc_qsv");
        reveal_strlit("av1_qsv");
    }
    if names_amf(n) {
        reveal_strlit("amf");
        reveal_strlit("native_amf");
        reveal_strlit("native_amf_d3d11");
        reveal_strlit("ffmpeg_amf");
        reveal_strlit("h264_amf");
        reveal_strlit("hevc_amf");
        reveal_strlit("av1_amf");
    }
    if names_videotoolbox(n) {
        reveal_strlit("videotoolbox");
        reveal_strlit("ffmpeg_videotoolbox");
        reveal_strlit("h264_videotoolbox");
        reveal_strlit("hevc_videotoolbox");
    }
}

/// Looking a name up again changes nothing: a normalized encoder name is its
/// own normal form.
pub proof fn law_normal_is_idempotent(s: Seq<char>)
    ensures
        normal(normal(s)) == normal(s),
{
    let w = CharClass::White;
    let front = strip_front(s, w);
    let core = stripped(s, w);
    let n = normal(s);
    lemma_strip_front_first(s, w);
    lemma_strip_back_ends(front, w);
    assert(n.len() == core.len());
    if n.len() > 0 {
        assert(!crate::text::white(n[0]));
        assert(!crate::text::white(n.last()));
    }
    assert(stripped(n, w) == n);
    assert(normal(n) =~= n);
}

proof fn lemma_prefixes_exclude(n: Seq<char>)
    ensures
        !(wants_ffmpeg(n) && wants_native(n)),
{
    reveal_strlit("gpu");
    reveal_strlit("native");
    reveal_strlit("native_gpu");
    reveal_strlit("native_");
    reveal_strlit("ffmpeg");
    reveal_strlit("ffmpeg_gpu");
    reveal_strlit("ffmpeg_");
    reveal_strlit("h264_nvenc");
    reveal_strlit("hevc_nvenc");
    reveal_strlit("av1_nvenc");
    reveal_strlit("h264_amf");
    reveal_strlit("hevc_amf");
    reveal_strlit("av1_amf");
    reveal_strlit("h264_qsv");
    reveal_strlit("hevc_qsv");
    reveal_strlit("av1_qsv");
    reveal_strlit("h264_vaapi");
    reveal_strlit("hevc_vaapi");
    reveal_strlit("av1_vaapi");
    reveal_strlit("h264_videotoolbox");
    reveal_strlit("hevc_videotoolbox");
    reveal_strlit("libx264");
    reveal_strlit("libx265");
    reveal_strlit("libsvtav1");
    reveal_strlit("libaom_av1");
    assert("gpu"@[0] == 'g');
    assert("native"@[0] == 'n');
    assert("native_gpu"@[0] == 'n');
    assert("native_"@[0] == 'n');
    assert("ffmpeg"@[0] == 'f');
    assert("ffmpeg_gpu"@[0] == 'f');
    assert("ffmpeg_"@[0] == 'f');
    assert("h264_nvenc"@[0] == 'h');
    assert("hevc_nvenc"@[0] == 'h');
    assert("av1_nvenc"@[0] == 'a');
    assert("h264_amf"@[0] == 'h');
    assert("hevc_amf"@[0] == 'h');
    assert("av1_amf"@[0] == 'a');
    assert("h264_qsv"@[0] == 'h');
    assert("hevc_qsv"@[0] == 'h');
    assert("av1_qsv"@[0] == 'a');
    assert("h264_vaapi"@[0] == 'h');
    assert("hevc_vaapi"@[0] == 'h');
    assert("av1_vaapi"@[0] == 'a');
    assert("h264_videotoolbox"@[0] == 'h');
    assert("hevc_videotoolbox"@[0] == 'h');
    assert("libx264"@[0] == 'l');
    assert("libx265"@[0] == 'l');
    assert("libsvtav1"@[0] == 'l');
    assert("libaom_av1"@[0] == 'l');
    if "native_"@.is_prefix_of(n) {
        assert(n.subrange(0, 7)[0] == 'n');
    }
    if "ffmpeg_"@.is_prefix_of(n) {
        assert(n.subrange(0, 7)[0] == 'f');
    }
}

/// No encoder name asks for FFmpeg and for a native encoder at once.
pub proof fn law_ffmpeg_and_native_exclude_each_other(s: Seq<char>)
    ensures
        !(wants_ffmpeg(normal(s)) && wants_native(normal(s))),
{
    lemma_prefixes_exclude(normal(s));
}

/// The word for an accelerator in encoder names.
pub open spec fn accelerator_word(hw: HwAccelType) -> Seq<char> {
    match hw {
        HwAccelType::Nvenc => "nvenc"@,
        HwAccelType::Vaapi => "vaapi"@,
        HwAccelType::Qsv => "qsv"@,
        HwAccelType::Amf => "amf"@,
        HwAccelType::VideoToolbox => "videotoolbox"@,
        HwAccelType::Software => "software"@,
    }
}

/// The word for an accelerator asks for it, and so do FFmpeg's encoders of H.264 and H.265 on
/// it; written behind `ffmpeg_` it asks for FFmpeg on it.
#[verifier::rlimit(40)]
pub proof fn law_names_ask_for_their_accelerator(hw: HwAccelType)
    ensures
        hw_of_name(accelerator_word(hw)) == Some(hw),
        hw_of_name("ffmpeg_"@ + accelerator_word(hw)) == Some(hw),
        hw !is Software ==> hw_of_name("h264_"@ + accelerator_word(hw)) == Some(hw),
        hw !is Software ==> hw_of_name("hevc_"@ + accelerator_word(hw)) == Some(hw),
        hw is Nvenc || hw is Amf ==> hw_of_name("native_"@ + accelerator_word(hw)) == Some(hw),
        wants_ffmpeg("ffmpeg_"@ + accelerator_word(hw)),
        wants_native("native_"@ + accelerator_word(hw)),
        !wants_ffmpeg("native_"@ + accelerator_word(hw)),
        !wants_native("ffmpeg_"@ + accelerator_word(hw)),
{
    let w = accelerator_word(hw);
    let f = "ffmpeg_"@ + w;
    let a = "h264_"@ + w;
    let h = "hevc_"@ + w;
    let n = "native_"@ + w;
    reveal_strlit("ffmpeg_");
    reveal_strlit("h264_");
    reveal_strlit("hevc_");
    reveal_strlit("native_");
    assert("ffmpeg_"@.is_prefix_of(f));
    assert("native_"@.is_prefix_of(n));
    match hw {
        HwAccelType::Nvenc => {
            reveal_strlit("nvenc");
            reveal_strlit("native_nvenc");
            reveal_strlit("ffmpeg_nvenc");
            reveal_strlit("h264_nvenc");
            reveal_strlit("hevc_nvenc");
            assert(n =~= "native_nvenc"@);
            assert(f =~= "ffmpeg_nvenc"@ && a =~= "h264_nvenc"@ && h =~= "hevc_nvenc"@);
        },
        HwAccelType::Vaapi => {
            reveal_strlit("vaapi");
            reveal_strlit("ffmpeg_vaapi");
            reveal_strlit("h264_vaapi");
            reveal_strlit("hevc_vaapi");
            assert(f =~= "ffmpeg_vaapi"@ && a =~= "h264_vaapi"@ && h =~= "hevc_vaapi"@);
            assert(w.last() == 'i');
        },
        HwAccelType::Qsv => {
            reveal_strlit("qsv");
            reveal_strlit("ffmpeg_qsv");
            reveal_strlit("h264_qsv");
            reveal_strlit("hevc_qsv");
            assert(f =~= "ffmpeg_qsv"@ && a =~= "h264_qsv"@ && h =~= "hevc_qsv"@);
            assert(w.last() == 'v');
        },
        HwAccelType::Amf => {
            reveal_strlit("amf");
            reveal_strlit("native_amf");
            reveal_strlit("ffmpeg_amf");
            reveal_strlit("h264_amf");
            reveal_strlit("hevc_amf");
            assert(n =~= "native_amf"@);
            assert(f =~= "ffmpeg_amf"@ && a =~= "h264_amf"@ && h =~= "hevc_amf"@);
            assert(w.last() == 'f');
        },
        HwAccelType::VideoToolbox => {
            reveal_strlit("videotoolbox");
            reveal_strlit("ffmpeg_videotoolbox");
            reveal_strlit("h264_videotoolbox");
            reveal_strlit("hevc_videotoolbox");
            assert(f =~= "ffmpeg_videotoolbox"@ && a =~= "h264_videotoolbox"@ && h
                =~= "hevc_videotoolbox"@);
            assert(w.last() == 'x');
        },
        HwAccelType::Software => {
            reveal_strlit("software");
            reveal_strlit("ffmpeg_software");
            assert(f =~= "ffmpeg_software"@);
            assert(w.last() == 'e');
        },
    }
    assert(f.last() == w.last() && a.last() == w.last() && h.last() == w.last() && n.last()
        == w.last());
    lemma_ends_of_names(w);
    lemma_ends_of_names(f);
    lemma_ends_of_names(a);
    lemma_ends_of_names(h);
    lemma_ends_of_names(n);
    lemma_prefixes_exclude(f);
    lemma_prefixes_exclude(n);
}

} // verus!
