//! The FFmpeg encoder: which encoders it offers, in which order they are tried,
//! and the options that each gets.

use crate::encode::ffmpeg_d3d11::TextureState;
use crate::error::{ErrorView, MediaError};
use crate::types::{
    accelerator_word, hw_of_name, lemma_ends_of_names, lemma_normal_of_plain, normal, plain,
    EncoderInfo, HwAccelType, VideoCodec,
};
use crate::Platform;
use vstd::prelude::*;

verus! {

/// An encoder by FFmpeg's name for it, and the hardware behind it.
pub type Entry = (String, HwAccelType);

/// Whether an encoder runs on hardware.
pub open spec fn hw_encoder(hw: HwAccelType) -> bool {
    hw != HwAccelType::Software
}

/// Whether an encoder runs on hardware.
pub fn is_hw_encoder(hw_type: HwAccelType) -> (b: bool)
    ensures
        b == hw_encoder(hw_type),
{
    hw_type != HwAccelType::Software
}

/// FFmpeg's name for a codec on a hardware encoder.
pub open spec fn hw_name(codec: VideoCodec, hw: HwAccelType) -> Seq<char> {
    match (codec, hw) {
        (VideoCodec::H264, HwAccelType::Nvenc) => "h264_nvenc"@,
        (VideoCodec::H264, HwAccelType::Vaapi) => "h264_vaapi"@,
        (VideoCodec::H264, HwAccelType::Qsv) => "h264_qsv"@,
        (VideoCodec::H264, HwAccelType::Amf) => "h264_amf"@,
        (VideoCodec::H264, HwAccelType::VideoToolbox) => "h264_videotoolbox"@,
        (VideoCodec::H264, HwAccelType::Software) => "libx264"@,
        (VideoCodec::H265, HwAccelType::Nvenc) => "hevc_nvenc"@,
        (VideoCodec::H265, HwAccelType::Vaapi) => "hevc_vaapi"@,
        (VideoCodec::H265, HwAccelType::Qsv) => "hevc_qsv"@,
        (VideoCodec::H265, HwAccelType::Amf) => "hevc_amf"@,
        (VideoCodec::H265, HwAccelType::VideoToolbox) => "hevc_videotoolbox"@,
        (VideoCodec::H265, HwAccelType::Software) => "libx265"@,
        (VideoCodec::AV1, HwAccelType::Nvenc) => "av1_nvenc"@,
        (VideoCodec::AV1, HwAccelType::Vaapi) => "av1_vaapi"@,
        (VideoCodec::AV1, HwAccelType::Qsv) => "av1_qsv"@,
        (VideoCodec::AV1, HwAccelType::Amf) => "av1_amf"@,
        (VideoCodec::AV1, HwAccelType::VideoToolbox) => "av1_videotoolbox"@,
        (VideoCodec::AV1, HwAccelType::Software) => "libsvtav1"@,
    }
}

/// The hardware that a platform's encoders may use, best first.
pub open spec fn hardware(platform: Platform) -> Seq<HwAccelType> {
    match platform {
        Platform::Linux => seq![HwAccelType::Nvenc, HwAccelType::Vaapi, HwAccelType::Qsv],
        Platform::Windows => seq![HwAccelType::Nvenc, HwAccelType::Amf, HwAccelType::Qsv],
        Platform::MacOs => seq![HwAccelType::VideoToolbox],
        Platform::Other => Seq::empty(),
    }
}

/// Every encoder for a codec, best first: the hardware ones, then software,
/// with a second software encoder for AV1.
pub open spec fn table(platform: Platform, codec: VideoCodec) -> Seq<(Seq<char>, HwAccelType)> {
    let hw = hardware(platform).push(HwAccelType::Software).map_values(
        |h: HwAccelType| (hw_name(codec, h), h),
    );
    if codec == VideoCodec::AV1 {
        hw.push(("libaom-av1"@, HwAccelType::Software))
    } else {
        hw
    }
}

/// The names and hardware behind a list of entries.
pub open spec fn entries(v: Seq<Entry>) -> Seq<(Seq<char>, HwAccelType)> {
    v.map_values(|e: Entry| (e.0@, e.1))
}

/// The texts behind a list of strings.
pub open spec fn names(v: Seq<String>) -> Seq<Seq<char>> {
    v.map_values(|s: String| s@)
}

/// The entries whose encoder is installed.
pub open spec fn installed_of(
    t: Seq<(Seq<char>, HwAccelType)>,
    installed: Seq<Seq<char>>,
) -> Seq<(Seq<char>, HwAccelType)>
    decreases t.len(),
{
    if t.len() == 0 {
        Seq::empty()
    } else {
        let front = installed_of(t.drop_last(), installed);
        if installed.contains(t.last().0) {
            front.push(t.last())
        } else {
            front
        }
    }
}

/// The entries with (`wanted`) or without the hardware `hw`.
pub open spec fn by_hw(
    t: Seq<(Seq<char>, HwAccelType)>,
    hw: HwAccelType,
    wanted: bool,
) -> Seq<(Seq<char>, HwAccelType)>
    decreases t.len(),
{
    if t.len() == 0 {
        Seq::empty()
    } else {
        let front = by_hw(t.drop_last(), hw, wanted);
        if (t.last().1 == hw) == wanted {
            front.push(t.last())
        } else {
            front
        }
    }
}

/// The encoders to try, in order: the installed ones on the preferred hardware,
/// then the other installed ones.
pub open spec fn candidates(
    platform: Platform,
    codec: VideoCodec,
    preferred: Option<HwAccelType>,
    installed: Seq<Seq<char>>,
) -> Seq<(Seq<char>, HwAccelType)> {
    let usable = installed_of(table(platform, codec), installed);
    match preferred {
        Some(hw) => by_hw(usable, hw, true) + by_hw(usable, hw, false),
        None => usable,
    }
}

/// The names, hardware and codecs behind a list of encoders.
pub open spec fn infos(v: Seq<EncoderInfo>) -> Seq<(Seq<char>, HwAccelType, Seq<VideoCodec>)> {
    v.map_values(|i: EncoderInfo| (i.name@, i.hw_type, i.supported_codecs@))
}

/// The same description again.
pub(crate) fn copy_info(i: &EncoderInfo) -> (r: EncoderInfo)
    ensures
        r.name@ == i.name@,
        r.hw_type == i.hw_type,
        r.supported_codecs@ == i.supported_codecs@,
{
    let mut codecs: Vec<VideoCodec> = Vec::new();
    for k in 0..i.supported_codecs.len()
        invariant
            codecs@ == i.supported_codecs@.take(k as int),
    {
        codecs.push(i.supported_codecs[k]);
        assert(codecs@ =~= i.supported_codecs@.take(k as int + 1));
    }
    assert(codecs@ =~= i.supported_codecs@);
    EncoderInfo { name: i.name.clone(), hw_type: i.hw_type, supported_codecs: codecs }
}

/// Entries as descriptions of encoders for one codec.
pub open spec fn described(t: Seq<(Seq<char>, HwAccelType)>, codec: VideoCodec) -> Seq<
    (Seq<char>, HwAccelType, Seq<VideoCodec>),
> {
    t.map_values(|e: (Seq<char>, HwAccelType)| (e.0, e.1, seq![codec]))
}

/// Every installed encoder: H.264, then H.265, then AV1.
pub open spec fn available(platform: Platform, installed: Seq<Seq<char>>) -> Seq<
    (Seq<char>, HwAccelType, Seq<VideoCodec>),
> {
    described(installed_of(table(platform, VideoCodec::H264), installed), VideoCodec::H264)
        + described(installed_of(table(platform, VideoCodec::H265), installed), VideoCodec::H265)
        + described(installed_of(table(platform, VideoCodec::AV1), installed), VideoCodec::AV1)
}

fn name_of(codec: VideoCodec, hw: HwAccelType) -> (s: String)
    ensures
        s@ == hw_name(codec, hw),
{
    match codec {
        VideoCodec::H264 => match hw {
            HwAccelType::Nvenc => "h264_nvenc".to_owned(),
            HwAccelType::Vaapi => "h264_vaapi".to_owned(),
            HwAccelType::Qsv => "h264_qsv".to_owned(),
            HwAccelType::Amf => "h264_amf".to_owned(),
            HwAccelType::VideoToolbox => "h264_videotoolbox".to_owned(),
            HwAccelType::Software => "libx264".to_owned(),
        },
        VideoCodec::H265 => match hw {
            HwAccelType::Nvenc => "hevc_nvenc".to_owned(),
            HwAccelType::Vaapi => "hevc_vaapi".to_owned(),
            HwAccelType::Qsv => "hevc_qsv".to_owned(),
            HwAccelType::Amf => "hevc_amf".to_owned(),
            HwAccelType::VideoToolbox => "hevc_videotoolbox".to_owned(),
            HwAccelType::Software => "libx265".to_owned(),
        },
        VideoCodec::AV1 => match hw {
            HwAccelType::Nvenc => "av1_nvenc".to_owned(),
            HwAccelType::Vaapi => "av1_vaapi".to_owned(),
            HwAccelType::Qsv => "av1_qsv".to_owned(),
            HwAccelType::Amf => "av1_amf".to_owned(),
            HwAccelType::VideoToolbox => "av1_videotoolbox".to_owned(),
            HwAccelType::Software => "libsvtav1".to_owned(),
        },
    }
}

fn entry(codec: VideoCodec, hw: HwAccelType) -> (e: Entry)
    ensures
        e.0@ == hw_name(codec, hw),
        e.1 == hw,
{
    (name_of(codec, hw), hw)
}

fn table_of(platform: Platform, codec: VideoCodec) -> (t: Vec<Entry>)
    ensures
        entries(t@) == table(platform, codec),
{
    let mut t: Vec<Entry> = Vec::new();
    match platform {
        Platform::Linux => {
            t.push(entry(codec, HwAccelType::Nvenc));
            t.push(entry(codec, HwAccelType::Vaapi));
            t.push(entry(codec, HwAccelType::Qsv));
        },
        Platform::Windows => {
            t.push(entry(codec, HwAccelType::Nvenc));
            t.push(entry(codec, HwAccelType::Amf));
            t.push(entry(codec, HwAccelType::Qsv));
        },
        Platform::MacOs => {
            t.push(entry(codec, HwAccelType::VideoToolbox));
        },
        Platform::Other => {},
    }
    t.push(entry(codec, HwAccelType::Software));
    if codec == VideoCodec::AV1 {
        t.push(("libaom-av1".to_owned(), HwAccelType::Software));
    }
    assert(entries(t@) =~= table(platform, codec));
    t
}

fn is_installed(name: &String, installed: &Vec<String>) -> (b: bool)
    ensures
        b == names(installed@).contains(name@),
{
    for i in 0..installed.len()
        invariant
            forall|j: int| 0 <= j < i ==> (#[trigger] names(installed@)[j]) != name@,
    {
        if installed[i] == *name {
            assert(names(installed@)[i as int] == name@);
            return true;
        }
    }
    false
}

fn usable_of(platform: Platform, codec: VideoCodec, installed: &Vec<String>) -> (r: Vec<Entry>)
    ensures
        entries(r@) == installed_of(table(platform, codec), names(installed@)),
{
    let t: Vec<Entry> = table_of(platform, codec);
    let ghost all = table(platform, codec);
    let ghost inst = names(installed@);
    let mut r: Vec<Entry> = Vec::new();
    assert(all.take(0) =~= Seq::<(Seq<char>, HwAccelType)>::empty());
    assert(entries(r@) =~= installed_of(all.take(0), inst));
    for i in 0..t.len()
        invariant
            entries(t@) == all,
            inst == names(installed@),
            entries(r@) == installed_of(all.take(i as int), inst),
    {
        let ghost r0 = entries(r@);
        proof {
            assert(all.take(i as int + 1).drop_last() =~= all.take(i as int));
            assert(all.take(i as int + 1).last() == all[i as int]);
            assert(all[i as int] == (t@[i as int].0@, t@[i as int].1));
        }
        if is_installed(&t[i].0, installed) {
            r.push((t[i].0.clone(), t[i].1));
            assert(entries(r@) =~= r0.push(all[i as int]));
        }
    }
    assert(all.take(all.len() as int) =~= all);
    r
}

/// The FFmpeg encoder's state. The FFmpeg objects themselves are held by the
/// caller; this says which of them exist.
pub struct FfmpegEncoder {
    pub initialized: bool,
    pub force_keyframe: bool,
    pub frame_count: u64,
    pub config: Option<crate::encode::EncoderConfig>,
    pub info: Option<EncoderInfo>,
    /// SPS and PPS as an Annex-B stream, for key frames that come without.
    pub sps_pps_cache: Option<Vec<u8>>,
    /// A hardware device context exists.
    pub has_hw_device: bool,
    /// A pool of hardware frames exists.
    pub has_hw_frames: bool,
    /// A colour converter exists.
    pub has_scaler: bool,
    /// What was made for Direct3D textures.
    pub textures: TextureState,
    /// The numbers and times of the frames that were sent, in order.
    pub sent: Vec<(u64, u64)>,
}

impl FfmpegEncoder {
    /// Every installed encoder, by the names that FFmpeg knows.
    pub fn list_available(platform: Platform, installed: &Vec<String>) -> (r: Vec<EncoderInfo>)
        ensures
            infos(r@) == available(platform, names(installed@)),
    {
        let mut r: Vec<EncoderInfo> = Vec::new();
        Self::append_available(&mut r, platform, VideoCodec::H264, installed);
        Self::append_available(&mut r, platform, VideoCodec::H265, installed);
        Self::append_available(&mut r, platform, VideoCodec::AV1, installed);
        assert(infos(r@) =~= available(platform, names(installed@)));
        r
    }

    fn append_available(
        r: &mut Vec<EncoderInfo>,
        platform: Platform,
        codec: VideoCodec,
        installed: &Vec<String>,
    )
        ensures
            infos(final(r)@) == infos(old(r)@) + described(
                installed_of(table(platform, codec), names(installed@)),
                codec,
            ),
    {
        let usable: Vec<Entry> = usable_of(platform, codec, installed);
        let ghost u = installed_of(table(platform, codec), names(installed@));
        let ghost r0 = infos(r@);
        assert(r0 + described(u.take(0), codec) =~= r0);
        for i in 0..usable.len()
            invariant
                entries(usable@) == u,
                infos(r@) == r0 + described(u.take(i as int), codec),
        {
            let ghost before = infos(r@);
            let mut codecs: Vec<VideoCodec> = Vec::new();
            codecs.push(codec);
            assert(codecs@ =~= seq![codec]);
            let info = EncoderInfo {
                name: usable[i].0.clone(),
                hw_type: usable[i].1,
                supported_codecs: codecs,
            };
            r.push(info);
            proof {
                assert(u[i as int] == (usable@[i as int].0@, usable@[i as int].1));
                assert(infos(r@) =~= before.push((u[i as int].0, u[i as int].1, seq![codec])));
                assert(described(u.take(i as int + 1), codec) =~= described(
                    u.take(i as int),
                    codec,
                ).push((u[i as int].0, u[i as int].1, seq![codec])));
                assert(infos(r@) =~= r0 + described(u.take(i as int + 1), codec));
            }
        }
        assert(u.take(u.len() as int) =~= u);
    }

    /// The encoder to use: the first installed one on the preferred hardware,
    /// else the first installed one.
    pub fn select_encoder(
        platform: Platform,
        codec: VideoCodec,
        preferred_hw: Option<HwAccelType>,
        installed: &Vec<String>,
    ) -> (r: Result<Entry, MediaError>)
        ensures
            match r {
                Ok(e) => candidates(platform, codec, preferred_hw, names(installed@)).len() > 0 && (
                e.0@, e.1) == candidates(platform, codec, preferred_hw, names(installed@))[0],
                Err(e) => candidates(platform, codec, preferred_hw, names(installed@)).len() == 0
                    && e@ == ErrorView::NoEncoderAvailable,
            },
    {
        let c: Vec<Entry> = Self::select_encoder_candidates(
            platform,
            codec,
            preferred_hw,
            installed,
        );
        let ghost all = candidates(platform, codec, preferred_hw, names(installed@));
        assert(entries(c@).len() == c@.len());
        if c.len() == 0 {
            Err(MediaError::NoEncoderAvailable)
        } else {
            assert(entries(c@)[0] == all[0]);
            Ok((c[0].0.clone(), c[0].1))
        }
    }

    /// The encoders to try, in order.
    pub fn select_encoder_candidates(
        platform: Platform,
        codec: VideoCodec,
        preferred_hw: Option<HwAccelType>,
        installed: &Vec<String>,
    ) -> (r: Vec<Entry>)
        ensures
            entries(r@) == candidates(platform, codec, preferred_hw, names(installed@)),
    {
        let usable: Vec<Entry> = usable_of(platform, codec, installed);
        match preferred_hw {
            None => usable,
            Some(hw) => {
                let mut r: Vec<Entry> = Vec::new();
                append_by_hw(&mut r, &usable, hw, true);
                append_by_hw(&mut r, &usable, hw, false);
                assert(entries(r@) =~= candidates(
                    platform,
                    codec,
                    preferred_hw,
                    names(installed@),
                ));
                r
            },
        }
    }
}

fn append_by_hw(r: &mut Vec<Entry>, t: &Vec<Entry>, hw: HwAccelType, wanted: bool)
    ensures
        entries(final(r)@) == entries(old(r)@) + by_hw(entries(t@), hw, wanted),
{
    let ghost all = entries(t@);
    let ghost r0 = entries(r@);
    assert(all.take(0) =~= Seq::<(Seq<char>, HwAccelType)>::empty());
    assert(r0 + by_hw(all.take(0), hw, wanted) =~= r0);
    for i in 0..t.len()
        invariant
            all == entries(t@),
            entries(r@) == r0 + by_hw(all.take(i as int), hw, wanted),
    {
        let ghost before = entries(r@);
        proof {
            assert(all.take(i as int + 1).drop_last() =~= all.take(i as int));
            assert(all.take(i as int + 1).last() == all[i as int]);
            assert(all[i as int] == (t@[i as int].0@, t@[i as int].1));
        }
        if (t[i].1 == hw) == wanted {
            r.push((t[i].0.clone(), t[i].1));
            proof {
                assert(entries(r@) =~= before.push(all[i as int]));
                assert(entries(r@) =~= r0 + by_hw(all.take(i as int + 1), hw, wanted));
            }
        }
    }
    assert(all.take(all.len() as int) =~= all);
}

// ---- Options ----

/// An option's name and value.
pub type OptionPair = (&'static str, &'static str);

/// The texts behind a list of options.
pub open spec fn option_texts(v: Seq<OptionPair>) -> Seq<(Seq<char>, Seq<char>)> {
    v.map_values(|p: OptionPair| (p.0@, p.1@))
}

pub open spec fn header_options(codec: VideoCodec) -> Seq<(Seq<char>, Seq<char>)> {
    match codec {
        VideoCodec::H264 => seq![("repeat-headers"@, "1"@)],
        VideoCodec::H265 => seq![("repeat-headers"@, "1"@), ("annexb"@, "1"@)],
        VideoCodec::AV1 => Seq::empty(),
    }
}

/// The profile that a codec is encoded in.
pub open spec fn profile_options(codec: VideoCodec) -> Seq<(Seq<char>, Seq<char>)> {
    match codec {
        VideoCodec::H264 => seq![("profile"@, "baseline"@)],
        VideoCodec::H265 => seq![("profile"@, "main"@)],
        VideoCodec::AV1 => Seq::empty(),
    }
}

pub open spec fn when(b: bool, key: Seq<char>, value: Seq<char>) -> Seq<(Seq<char>, Seq<char>)> {
    if b {
        seq![(key, value)]
    } else {
        Seq::empty()
    }
}

/// The options that an encoder gets before it is opened, in order.
pub open spec fn encoder_options(hw: HwAccelType, codec: VideoCodec, low_latency: bool) -> Seq<
    (Seq<char>, Seq<char>),
> {
    header_options(codec) + match hw {
        HwAccelType::Nvenc => seq![
            ("preset"@, "p3"@),
            ("tune"@, "ull"@),
            ("rc"@, "cbr"@),
            ("zerolatency"@, "1"@),
            ("forced-idr"@, "1"@),
        ] + profile_options(codec) + when(codec == VideoCodec::H265, "repeat_vps_sps_pps"@, "1"@),
        HwAccelType::Vaapi => seq![("rc_mode"@, "CBR"@)] + profile_options(codec) + when(
            low_latency,
            "async_depth"@,
            "1"@,
        ),
        HwAccelType::Qsv => seq![
            ("preset"@, "veryfast"@),
            ("forced_idr"@, "1"@),
            ("repeat_pps"@, "1"@),
        ] + profile_options(codec) + when(low_latency, "async_depth"@, "1"@),
        HwAccelType::Amf => seq![
            ("usage"@, "ultralowlatency"@),
            ("rc"@, "cbr"@),
            ("forced_idr"@, "1"@),
            ("header_insertion_mode"@, "idr"@),
        ] + match codec {
            VideoCodec::H264 => seq![("profile"@, "constrained_baseline"@), ("level"@, "3.1"@)],
            _ => profile_options(codec),
        },
        HwAccelType::VideoToolbox => seq![("realtime"@, "1"@)] + profile_options(codec),
        HwAccelType::Software => seq![("preset"@, "ultrafast"@)] + when(
            low_latency,
            "tune"@,
            "zerolatency"@,
        ) + profile_options(codec),
    }
}

fn add_option(o: &mut Vec<OptionPair>, key: &'static str, value: &'static str)
    ensures
        option_texts(final(o)@) == option_texts(old(o)@).push((key@, value@)),
{
    let ghost o0 = option_texts(o@);
    o.push((key, value));
    assert(option_texts(o@) =~= o0.push((key@, value@)));
}

fn add_profile(o: &mut Vec<OptionPair>, codec: VideoCodec)
    ensures
        option_texts(final(o)@) == option_texts(old(o)@) + profile_options(codec),
{
    let ghost o0 = option_texts(o@);
    match codec {
        VideoCodec::H264 => {
            o.push(("profile", "baseline"));
        },
        VideoCodec::H265 => {
            o.push(("profile", "main"));
        },
        VideoCodec::AV1 => {},
    }
    assert(option_texts(o@) =~= o0 + profile_options(codec));
}

impl FfmpegEncoder {
    /// The options that an encoder gets before it is opened, in order.
    pub fn set_encoder_options(hw_type: HwAccelType, codec: VideoCodec, low_latency: bool) -> (r:
        Vec<OptionPair>)
        ensures
            option_texts(r@) == encoder_options(hw_type, codec, low_latency),
    {
        let mut o: Vec<OptionPair> = Vec::new();
        if codec == VideoCodec::H264 || codec == VideoCodec::H265 {
            o.push(("repeat-headers", "1"));
        }
        if codec == VideoCodec::H265 {
            o.push(("annexb", "1"));
        }
        let ghost h = header_options(codec);
        assert(option_texts(o@) =~= h);
        match hw_type {
            HwAccelType::Nvenc => {
                add_option(&mut o, "preset", "p3");
                add_option(&mut o, "tune", "ull");
                add_option(&mut o, "rc", "cbr");
                add_option(&mut o, "zerolatency", "1");
                add_option(&mut o, "forced-idr", "1");
                add_profile(&mut o, codec);
                if codec == VideoCodec::H265 {
                    add_option(&mut o, "repeat_vps_sps_pps", "1");
                }
                assert(option_texts(o@) =~= h + (seq![("preset"@, "p3"@), ("tune"@, "ull"@), ("rc"@, "cbr"@), ("zerolatency"@, "1"@), ("forced-idr"@, "1"@)] + profile_options(codec) + when(codec == VideoCodec::H265, "repeat_vps_sps_pps"@, "1"@)));
            },
            HwAccelType::Vaapi => {
                add_option(&mut o, "rc_mode", "CBR");
                add_profile(&mut o, codec);
                if low_latency {
                    add_option(&mut o, "async_depth", "1");
                }
                assert(option_texts(o@) =~= h + (seq![("rc_mode"@, "CBR"@)] + profile_options(codec) + when(low_latency, "async_depth"@, "1"@)));
            },
            HwAccelType::Qsv => {
                add_option(&mut o, "preset", "veryfast");
                add_option(&mut o, "forced_idr", "1");
                add_option(&mut o, "repeat_pps", "1");
                add_profile(&mut o, codec);
                if low_latency {
                    add_option(&mut o, "async_depth", "1");
                }
                assert(option_texts(o@) =~= h + (seq![("preset"@, "veryfast"@), ("forced_idr"@, "1"@), ("repeat_pps"@, "1"@)] + profile_options(codec) + when(low_latency, "async_depth"@, "1"@)));
            },
            HwAccelType::Amf => {
                add_option(&mut o, "usage", "ultralowlatency");
                add_option(&mut o, "rc", "cbr");
                add_option(&mut o, "forced_idr", "1");
                add_option(&mut o, "header_insertion_mode", "idr");
                if codec == VideoCodec::H264 {
                    add_option(&mut o, "profile", "constrained_baseline");
                    add_option(&mut o, "level", "3.1");
                } else {
                    add_profile(&mut o, codec);
                }
                assert(option_texts(o@) =~= h + (seq![
                    ("usage"@, "ultralowlatency"@),
                    ("rc"@, "cbr"@),
                    ("forced_idr"@, "1"@),
                    ("header_insertion_mode"@, "idr"@),
                ] + match codec {
                    VideoCodec::H264 => seq![
                        ("profile"@, "constrained_baseline"@),
                        ("level"@, "3.1"@),
                    ],
                    _ => profile_options(codec),
                }));
            },
            HwAccelType::VideoToolbox => {
                add_option(&mut o, "realtime", "1");
                add_profile(&mut o, codec);
                assert(option_texts(o@) =~= h + (seq![("realtime"@, "1"@)] + profile_options(codec)));
            },
            HwAccelType::Software => {
                add_option(&mut o, "preset", "ultrafast");
                if low_latency {
                    add_option(&mut o, "tune", "zerolatency");
                }
                add_profile(&mut o, codec);
                assert(option_texts(o@) =~= h + (seq![("preset"@, "ultrafast"@)] + when(low_latency, "tune"@, "zerolatency"@) + profile_options(codec)));
            },
        }
        o
    }
}

// ---- Laws ----

proof fn lemma_by_hw_members(
    t: Seq<(Seq<char>, HwAccelType)>,
    hw: HwAccelType,
    wanted: bool,
    e: (Seq<char>, HwAccelType),
)
    ensures
        by_hw(t, hw, wanted).contains(e) <==> (t.contains(e) && (e.1 == hw) == wanted),
    decreases t.len(),
{
    if t.len() > 0 {
        lemma_by_hw_members(t.drop_last(), hw, wanted, e);
        let front = by_hw(t.drop_last(), hw, wanted);
        assert(t =~= t.drop_last().push(t.last()));
        assert(t.contains(e) <==> (t.drop_last().contains(e) || e == t.last())) by {
            if t.contains(e) {
                let i = t.index_of(e);
                if i < t.len() - 1 {
                    assert(t.drop_last()[i] == e);
                }
            }
            if t.drop_last().contains(e) {
                let i = t.drop_last().index_of(e);
                assert(t[i] == e);
            }
            assert(t[t.len() - 1] == t.last());
        }
        assert(front.push(t.last()).contains(e) <==> (front.contains(e) || e == t.last())) by {
            let p = front.push(t.last());
            if p.contains(e) {
                let i = p.index_of(e);
                if i < front.len() {
                    assert(front[i] == e);
                }
            }
            if front.contains(e) {
                let i = front.index_of(e);
                assert(p[i] == e);
            }
            assert(p[front.len() as int] == t.last());
        }
    }
}

proof fn lemma_by_hw_lengths(t: Seq<(Seq<char>, HwAccelType)>, hw: HwAccelType)
    ensures
        by_hw(t, hw, true).len() + by_hw(t, hw, false).len() == t.len(),
    decreases t.len(),
{
    if t.len() > 0 {
        lemma_by_hw_lengths(t.drop_last(), hw);
    }
}

/// A preference reorders the encoders to try and neither adds nor drops one;
/// those on the preferred hardware come before all others.
pub proof fn law_preference_only_reorders(
    platform: Platform,
    codec: VideoCodec,
    hw: HwAccelType,
    installed: Seq<Seq<char>>,
)
    ensures
        candidates(platform, codec, Some(hw), installed).len() == candidates(
            platform,
            codec,
            None,
            installed,
        ).len(),
        forall|e: (Seq<char>, HwAccelType)| #[trigger]
            candidates(platform, codec, Some(hw), installed).contains(e) <==> candidates(
                platform,
                codec,
                None,
                installed,
            ).contains(e),
        forall|i: int, j: int|
            0 <= i < j < candidates(platform, codec, Some(hw), installed).len() && (#[trigger]
            candidates(platform, codec, Some(hw), installed)[j]).1 == hw ==> (#[trigger] candidates(
                platform,
                codec,
                Some(hw),
                installed,
            )[i]).1 == hw,
{
    let usable = candidates(platform, codec, None, installed);
    let front = by_hw(usable, hw, true);
    let back = by_hw(usable, hw, false);
    let all = candidates(platform, codec, Some(hw), installed);
    lemma_by_hw_lengths(usable, hw);
    assert forall|e: (Seq<char>, HwAccelType)| #[trigger] all.contains(e) <==> usable.contains(
        e,
    ) by {
        lemma_by_hw_members(usable, hw, true, e);
        lemma_by_hw_members(usable, hw, false, e);
        if front.contains(e) {
            let i = front.index_of(e);
            assert(all[i] == e);
        }
        if back.contains(e) {
            let i = back.index_of(e);
            assert(all[front.len() + i] == e);
        }
        if all.contains(e) {
            let i = all.index_of(e);
            if i < front.len() {
                assert(front[i] == e);
            } else {
                assert(back[i - front.len()] == e);
            }
        }
    }
    assert forall|i: int, j: int|
        0 <= i < j < all.len() && (#[trigger] all[j]).1 == hw implies (#[trigger] all[i]).1 == hw by {
        if j >= front.len() {
            lemma_by_hw_members(usable, hw, false, all[j]);
            assert(back[j - front.len()] == all[j]);
            assert(back.contains(all[j]));
        }
        lemma_by_hw_members(usable, hw, true, all[i]);
        assert(front[i] == all[i]);
        assert(front.contains(all[i]));
    }
}

proof fn lemma_installed_members(
    t: Seq<(Seq<char>, HwAccelType)>,
    installed: Seq<Seq<char>>,
    i: int,
)
    requires
        0 <= i < installed_of(t, installed).len(),
    ensures
        installed.contains(installed_of(t, installed)[i].0),
        t.contains(installed_of(t, installed)[i]),
    decreases t.len(),
{
    let front = installed_of(t.drop_last(), installed);
    if i < front.len() {
        lemma_installed_members(t.drop_last(), installed, i);
        let k = t.drop_last().index_of(front[i]);
        assert(t[k] == front[i]);
    } else {
        assert(t[t.len() - 1] == t.last());
    }
}

/// Every encoder that is tried is installed and made for the platform and the
/// codec.
pub proof fn law_candidates_are_installed(
    platform: Platform,
    codec: VideoCodec,
    installed: Seq<Seq<char>>,
    i: int,
)
    requires
        0 <= i < candidates(platform, codec, None, installed).len(),
    ensures
        installed.contains(candidates(platform, codec, None, installed)[i].0),
        table(platform, codec).contains(candidates(platform, codec, None, installed)[i]),
{
    lemma_installed_members(table(platform, codec), installed, i);
}

/// Whether a name has this length, these first, second and fourth characters, and
/// this last one. No two encoders agree in all of them.
spec fn looks_like(n: Seq<char>, len: int, c0: char, c1: char, c3: char, end: char) -> bool {
    n.len() == len && n[0] == c0 && n[1] == c1 && n[3] == c3 && n.last() == end
}

/// How FFmpeg's name for a codec on an encoder looks.
spec fn look_of(n: Seq<char>, codec: VideoCodec, hw: HwAccelType) -> bool {
    match (codec, hw) {
        (VideoCodec::H264, HwAccelType::Nvenc) => looks_like(n, 10, 'h', '2', '4', 'c'),
        (VideoCodec::H264, HwAccelType::Vaapi) => looks_like(n, 10, 'h', '2', '4', 'i'),
        (VideoCodec::H264, HwAccelType::Qsv) => looks_like(n, 8, 'h', '2', '4', 'v'),
        (VideoCodec::H264, HwAccelType::Amf) => looks_like(n, 8, 'h', '2', '4', 'f'),
        (VideoCodec::H264, HwAccelType::VideoToolbox) => looks_like(n, 17, 'h', '2', '4', 'x'),
        (VideoCodec::H264, HwAccelType::Software) => looks_like(n, 7, 'l', 'i', 'x', '4'),
        (VideoCodec::H265, HwAccelType::Nvenc) => looks_like(n, 10, 'h', 'e', 'c', 'c'),
        (VideoCodec::H265, HwAccelType::Vaapi) => looks_like(n, 10, 'h', 'e', 'c', 'i'),
        (VideoCodec::H265, HwAccelType::Qsv) => looks_like(n, 8, 'h', 'e', 'c', 'v'),
        (VideoCodec::H265, HwAccelType::Amf) => looks_like(n, 8, 'h', 'e', 'c', 'f'),
        (VideoCodec::H265, HwAccelType::VideoToolbox) => looks_like(n, 17, 'h', 'e', 'c', 'x'),
        (VideoCodec::H265, HwAccelType::Software) => looks_like(n, 7, 'l', 'i', 'x', '5'),
        (VideoCodec::AV1, HwAccelType::Nvenc) => looks_like(n, 9, 'a', 'v', '_', 'c'),
        (VideoCodec::AV1, HwAccelType::Vaapi) => looks_like(n, 9, 'a', 'v', '_', 'i'),
        (VideoCodec::AV1, HwAccelType::Qsv) => looks_like(n, 7, 'a', 'v', '_', 'v'),
        (VideoCodec::AV1, HwAccelType::Amf) => looks_like(n, 7, 'a', 'v', '_', 'f'),
        (VideoCodec::AV1, HwAccelType::VideoToolbox) => looks_like(n, 16, 'a', 'v', '_', 'x'),
        (VideoCodec::AV1, HwAccelType::Software) => looks_like(n, 9, 'l', 'i', 's', '1'),
    }
}

proof fn lemma_look_of_name(codec: VideoCodec, hw: HwAccelType)
    ensures
        look_of(hw_name(codec, hw), codec, hw),
        forall|i: int| 0 <= i < hw_name(codec, hw).len() ==> plain(#[trigger] hw_name(codec, hw)[i]),
        forall|i: int| 0 <= i < hw_name(codec, hw).len() ==> #[trigger] hw_name(codec, hw)[i] != '-',
{
    match (codec, hw) {
        (VideoCodec::H264, HwAccelType::Nvenc) => {
            reveal_strlit("h264_nvenc");
        },
        (VideoCodec::H264, HwAccelType::Vaapi) => {
            reveal_strlit("h264_vaapi");
        },
        (VideoCodec::H264, HwAccelType::Qsv) => {
            reveal_strlit("h264_qsv");
        },
        (VideoCodec::H264, HwAccelType::Amf) => {
            reveal_strlit("h264_amf");
        },
        (VideoCodec::H264, HwAccelType::VideoToolbox) => {
            reveal_strlit("h264_videotoolbox");
        },
        (VideoCodec::H264, HwAccelType::Software) => {
            reveal_strlit("libx264");
        },
        (VideoCodec::H265, HwAccelType::Nvenc) => {
            reveal_strlit("hevc_nvenc");
        },
        (VideoCodec::H265, HwAccelType::Vaapi) => {
            reveal_strlit("hevc_vaapi");
        },
        (VideoCodec::H265, HwAccelType::Qsv) => {
            reveal_strlit("hevc_qsv");
        },
        (VideoCodec::H265, HwAccelType::Amf) => {
            reveal_strlit("hevc_amf");
        },
        (VideoCodec::H265, HwAccelType::VideoToolbox) => {
            reveal_strlit("hevc_videotoolbox");
        },
        (VideoCodec::H265, HwAccelType::Software) => {
            reveal_strlit("libx265");
        },
        (VideoCodec::AV1, HwAccelType::Nvenc) => {
            reveal_strlit("av1_nvenc");
        },
        (VideoCodec::AV1, HwAccelType::Vaapi) => {
            reveal_strlit("av1_vaapi");
        },
        (VideoCodec::AV1, HwAccelType::Qsv) => {
            reveal_strlit("av1_qsv");
        },
        (VideoCodec::AV1, HwAccelType::Amf) => {
            reveal_strlit("av1_amf");
        },
        (VideoCodec::AV1, HwAccelType::VideoToolbox) => {
            reveal_strlit("av1_videotoolbox");
        },
        (VideoCodec::AV1, HwAccelType::Software) => {
            reveal_strlit("libsvtav1");
        },
    }
}

/// The second software encoder for AV1 has a name of its own, which is looked up
/// as one of software.
proof fn lemma_second_av1_name()
    ensures
        looks_like("libaom-av1"@, 10, 'l', 'i', 'a', '1'),
        hw_of_name(normal("libaom-av1"@)) == Some(HwAccelType::Software),
{
    reveal_strlit("libaom-av1");
    reveal_strlit("libaom_av1");
    let n = "libaom-av1"@;
    lemma_normal_of_plain(n);
    assert(normal(n) =~= "libaom_av1"@);
    lemma_ends_of_names(normal(n));
}

/// FFmpeg's name for a codec on an encoder is looked up as a name of that
/// encoder's hardware. There is none for AV1 on VideoToolbox.
proof fn lemma_name_is_looked_up(codec: VideoCodec, hw: HwAccelType)
    requires
        !(codec == VideoCodec::AV1 && hw == HwAccelType::VideoToolbox),
    ensures
        hw_of_name(normal(hw_name(codec, hw))) == Some(hw),
{
    let n = hw_name(codec, hw);
    lemma_look_of_name(codec, hw);
    lemma_normal_of_plain(n);
    assert(normal(n) =~= n);
    lemma_ends_of_names(n);
}

/// Whether an entry stands for a codec: it is one of the table's.
spec fn entry_of(e: (Seq<char>, HwAccelType), codec: VideoCodec) -> bool {
    e.0 == hw_name(codec, e.1) || (codec == VideoCodec::AV1 && e == (
        "libaom-av1"@,
        HwAccelType::Software,
    ))
}

/// Entries of one name are the same, and are for the same codec.
proof fn lemma_names_tell_entries_apart(
    a: (Seq<char>, HwAccelType),
    c: VideoCodec,
    b: (Seq<char>, HwAccelType),
    d: VideoCodec,
)
    requires
        entry_of(a, c),
        entry_of(b, d),
        a.0 == b.0,
    ensures
        a == b,
        c == d,
{
    lemma_look_of_name(c, a.1);
    lemma_look_of_name(d, b.1);
    lemma_second_av1_name();
}

proof fn lemma_table_entries(platform: Platform, codec: VideoCodec)
    ensures
        forall|i: int|
            0 <= i < table(platform, codec).len() ==> entry_of(
                #[trigger] table(platform, codec)[i],
                codec,
            ),
        forall|i: int, j: int|
            0 <= i < j < table(platform, codec).len() ==> (#[trigger] table(platform, codec)[i])
                != (#[trigger] table(platform, codec)[j]),
{
    lemma_look_of_name(codec, HwAccelType::Software);
    lemma_second_av1_name();
}

/// Installed entries are as distinct as those of the table.
proof fn lemma_installed_distinct(
    t: Seq<(Seq<char>, HwAccelType)>,
    installed: Seq<Seq<char>>,
    i: int,
    j: int,
)
    requires
        forall|k: int, m: int| 0 <= k < m < t.len() ==> (#[trigger] t[k]) != (#[trigger] t[m]),
        0 <= i < j < installed_of(t, installed).len(),
    ensures
        installed_of(t, installed)[i] != installed_of(t, installed)[j],
    decreases t.len(),
{
    let front = installed_of(t.drop_last(), installed);
    if j < front.len() {
        assert forall|k: int, m: int| 0 <= k < m < t.drop_last().len() implies (
        #[trigger] t.drop_last()[k]) != (#[trigger] t.drop_last()[m]) by {
            assert(t[k] != t[m]);
        }
        lemma_installed_distinct(t.drop_last(), installed, i, j);
    } else {
        lemma_installed_members(t.drop_last(), installed, i);
        let k = t.drop_last().index_of(front[i]);
        assert(t[k] != t[t.len() - 1]);
    }
}

/// The list of available encoders is made up of the encoders that would be tried
/// for H.264, then of those for H.265 and for AV1, in their order. Every one is
/// listed for one codec and no name is listed twice.
pub proof fn law_list_is_the_candidates_by_codec(platform: Platform, installed: Seq<Seq<char>>)
    ensures
        available(platform, installed) == described(
            candidates(platform, VideoCodec::H264, None, installed),
            VideoCodec::H264,
        ) + described(candidates(platform, VideoCodec::H265, None, installed), VideoCodec::H265)
            + described(candidates(platform, VideoCodec::AV1, None, installed), VideoCodec::AV1),
        forall|i: int|
            0 <= i < available(platform, installed).len() ==> (#[trigger] available(
                platform,
                installed,
            )[i]).2.len() == 1,
        forall|i: int, j: int|
            0 <= i < j < available(platform, installed).len() ==> (#[trigger] available(
                platform,
                installed,
            )[i]).0 != (#[trigger] available(platform, installed)[j]).0,
{
    let all = available(platform, installed);
    assert forall|i: int, j: int| 0 <= i < j < all.len() implies (#[trigger] all[i]).0 != (
    #[trigger] all[j]).0 by {
        lemma_listed(platform, installed, i);
        lemma_listed(platform, installed, j);
        if all[i].0 == all[j].0 {
            let a = (all[i].0, all[i].1);
            let b = (all[j].0, all[j].1);
            lemma_names_tell_entries_apart(a, all[i].2[0], b, all[j].2[0]);
            let c = all[i].2[0];
            lemma_table_entries(platform, c);
            lemma_installed_distinct(
                table(platform, c),
                installed,
                i - listed_before(platform, installed, c),
                j - listed_before(platform, installed, c),
            );
        }
    }
    assert forall|i: int| 0 <= i < all.len() implies (#[trigger] all[i]).2.len() == 1 by {
        lemma_listed(platform, installed, i);
    }
}

/// How many encoders are listed before those for a codec.
spec fn listed_before(platform: Platform, installed: Seq<Seq<char>>, codec: VideoCodec) -> int {
    let h264 = candidates(platform, VideoCodec::H264, None, installed).len();
    let h265 = candidates(platform, VideoCodec::H265, None, installed).len();
    match codec {
        VideoCodec::H264 => 0,
        VideoCodec::H265 => h264 as int,
        VideoCodec::AV1 => (h264 + h265) as int,
    }
}

/// What is listed at a place: a candidate for the one codec that it is listed for.
proof fn lemma_listed(platform: Platform, installed: Seq<Seq<char>>, i: int)
    requires
        0 <= i < available(platform, installed).len(),
    ensures
        ({
            let l = available(platform, installed)[i];
            let c = l.2[0];
            let k = i - listed_before(platform, installed, c);
            let usable = installed_of(table(platform, c), installed);
            &&& l.2 == seq![c]
            &&& 0 <= k < usable.len()
            &&& usable[k] == (l.0, l.1)
            &&& entry_of((l.0, l.1), c)
            &&& table(platform, c).contains((l.0, l.1))
        }),
{
    let l = available(platform, installed)[i];
    let h264 = listed_before(platform, installed, VideoCodec::H265);
    let h265 = listed_before(platform, installed, VideoCodec::AV1);
    let c = if i < h264 {
        VideoCodec::H264
    } else if i < h265 {
        VideoCodec::H265
    } else {
        VideoCodec::AV1
    };
    let k = i - listed_before(platform, installed, c);
    assert(l.2 == seq![c]);
    assert(l.2[0] == c);
    lemma_installed_members(table(platform, c), installed, k);
    lemma_table_entries(platform, c);
    let m = table(platform, c).index_of((l.0, l.1));
    assert(entry_of(table(platform, c)[m], c));
}

/// The name of a listed encoder, taken as a preference, asks for the hardware that
/// it is listed with. AV1 on VideoToolbox, which a preference cannot name, is left
/// out.
pub proof fn law_listed_names_ask_for_their_hardware(
    platform: Platform,
    installed: Seq<Seq<char>>,
    i: int,
)
    requires
        0 <= i < available(platform, installed).len(),
        !(available(platform, installed)[i].1 == HwAccelType::VideoToolbox && available(
            platform,
            installed,
        )[i].2 == seq![VideoCodec::AV1]),
    ensures
        hw_of_name(normal(available(platform, installed)[i].0)) == Some(
            available(platform, installed)[i].1,
        ),
{
    let l = available(platform, installed)[i];
    lemma_listed(platform, installed, i);
    lemma_second_av1_name();
    if l.0 != "libaom-av1"@ || l.2[0] != VideoCodec::AV1 {
        lemma_name_is_looked_up(l.2[0], l.1);
    } else {
        lemma_look_of_name(l.2[0], l.1);
    }
}

/// Whether a platform has encoders on this hardware.
pub open spec fn works_on(platform: Platform, hw: HwAccelType) -> bool {
    match hw {
        HwAccelType::Nvenc | HwAccelType::Qsv => platform == Platform::Linux || platform
            == Platform::Windows,
        HwAccelType::Vaapi => platform == Platform::Linux,
        HwAccelType::Amf => platform == Platform::Windows,
        HwAccelType::VideoToolbox => platform == Platform::MacOs,
        HwAccelType::Software => true,
    }
}

/// How late hardware is tried: NVIDIA's first, software last.
pub open spec fn lateness(hw: HwAccelType) -> int {
    match hw {
        HwAccelType::Nvenc => 0,
        HwAccelType::Vaapi | HwAccelType::Amf | HwAccelType::VideoToolbox => 1,
        HwAccelType::Qsv => 2,
        HwAccelType::Software => 3,
    }
}

/// Whether no entry stands behind one that is tried later, leaving those of `hw` out where
/// it is given.
pub open spec fn best_first(t: Seq<(Seq<char>, HwAccelType)>, but: Option<HwAccelType>) -> bool {
    forall|i: int, j: int|
        0 <= i < j < t.len() && Some((#[trigger] t[i]).1) != but && Some((#[trigger] t[j]).1) != but
            ==> lateness(t[i].1) <= lateness(t[j].1)
}

proof fn lemma_installed_in_order(t: Seq<(Seq<char>, HwAccelType)>, installed: Seq<Seq<char>>)
    requires
        best_first(t, None),
    ensures
        best_first(installed_of(t, installed), None),
        forall|e: (Seq<char>, HwAccelType)| #[trigger]
            installed_of(t, installed).contains(e) <==> t.contains(e) && installed.contains(e.0),
    decreases t.len(),
{
    if t.len() > 0 {
        let f = t.drop_last();
        lemma_installed_in_order(f, installed);
        let front = installed_of(f, installed);
        let all = installed_of(t, installed);
        assert(t =~= f.push(t.last()));
        assert forall|e: (Seq<char>, HwAccelType)| #[trigger] all.contains(e) <==> t.contains(e)
            && installed.contains(e.0) by {
            assert(t.contains(e) <==> f.contains(e) || e == t.last()) by {
                if t.contains(e) {
                    let i = t.index_of(e);
                    if i < f.len() {
                        assert(f[i] == e);
                    }
                }
                if f.contains(e) {
                    let i = f.index_of(e);
                    assert(t[i] == e);
                }
                assert(t[t.len() - 1] == t.last());
            }
            assert(front.push(t.last()).contains(e) <==> front.contains(e) || e == t.last()) by {
                let q = front.push(t.last());
                if q.contains(e) {
                    let i = q.index_of(e);
                    if i < front.len() {
                        assert(front[i] == e);
                    }
                }
                if front.contains(e) {
                    let i = front.index_of(e);
                    assert(q[i] == e);
                }
                assert(q[front.len() as int] == t.last());
            }
            assert(front.contains(e) <==> f.contains(e) && installed.contains(e.0));
        }
        assert forall|i: int, j: int|
            0 <= i < j < all.len() && Some((#[trigger] all[i]).1) != None::<HwAccelType> && Some(
                (#[trigger] all[j]).1,
            ) != None::<HwAccelType> implies lateness(all[i].1) <= lateness(all[j].1) by {
            assert(all[i] == front[i]);
            if j < front.len() {
                assert(all[j] == front[j]);
            } else {
                assert(front.contains(front[i]));
                let k = f.index_of(front[i]);
                assert(t[k] == front[i]);
                assert(t[t.len() - 1] == t.last());
            }
        }
    }
}

proof fn lemma_by_hw_in_order(t: Seq<(Seq<char>, HwAccelType)>, hw: HwAccelType, wanted: bool)
    requires
        best_first(t, None),
    ensures
        best_first(by_hw(t, hw, wanted), None),
    decreases t.len(),
{
    if t.len() > 0 {
        let f = t.drop_last();
        lemma_by_hw_in_order(f, hw, wanted);
        let front = by_hw(f, hw, wanted);
        let all = by_hw(t, hw, wanted);
        assert forall|i: int, j: int|
            0 <= i < j < all.len() && Some((#[trigger] all[i]).1) != None::<HwAccelType> && Some(
                (#[trigger] all[j]).1,
            ) != None::<HwAccelType> implies lateness(all[i].1) <= lateness(all[j].1) by {
            assert(all[i] == front[i]);
            if j < front.len() {
                assert(all[j] == front[j]);
            } else {
                assert(front.contains(front[i]));
                lemma_by_hw_members(f, hw, wanted, front[i]);
                let k = f.index_of(front[i]);
                assert(t[k] == front[i]);
                assert(t[t.len() - 1] == t.last());
            }
        }
    }
}

/// The encoders to try are all that are installed and that the platform has, on NVIDIA's
/// hardware before others and on hardware before software. A preference changes the place
/// of the preferred ones only.
pub proof fn law_best_encoders_are_tried_first(
    platform: Platform,
    codec: VideoCodec,
    preferred: Option<HwAccelType>,
    installed: Seq<Seq<char>>,
)
    ensures
        best_first(candidates(platform, codec, preferred, installed), preferred),
        forall|hw: HwAccelType| #[trigger]
            candidates(platform, codec, preferred, installed).contains((hw_name(codec, hw), hw))
                <==> works_on(platform, hw) && installed.contains(hw_name(codec, hw)),
        candidates(platform, codec, preferred, installed).contains(
            ("libaom-av1"@, HwAccelType::Software),
        ) <== codec == VideoCodec::AV1 && installed.contains("libaom-av1"@),
{
    let t = table(platform, codec);
    let n = hardware(platform).len() as int;
    assert forall|hw: HwAccelType| #[trigger] t.contains((hw_name(codec, hw), hw)) <==> works_on(
        platform,
        hw,
    ) by {
        if works_on(platform, hw) {
            if hw == HwAccelType::Software {
                assert(t[n] == (hw_name(codec, hw), hw));
            } else {
                assert(hardware(platform)[0] == hw || hardware(platform)[1] == hw || hardware(
                    platform,
                )[2] == hw);
                let k = if hardware(platform)[0] == hw {
                    0int
                } else if hardware(platform)[1] == hw {
                    1int
                } else {
                    2int
                };
                assert(t[k] == (hw_name(codec, hw), hw));
            }
        }
    }
    if codec == VideoCodec::AV1 {
        assert(t[n + 1] == ("libaom-av1"@, HwAccelType::Software));
    }
    lemma_installed_in_order(t, installed);
    let usable = installed_of(t, installed);
    match preferred {
        None => {},
        Some(hw) => {
            law_preference_only_reorders(platform, codec, hw, installed);
            let a = by_hw(usable, hw, true);
            let b = by_hw(usable, hw, false);
            lemma_by_hw_in_order(usable, hw, false);
            let c = a + b;
            assert forall|i: int, j: int|
                0 <= i < j < c.len() && Some((#[trigger] c[i]).1) != Some(hw) && Some(
                    (#[trigger] c[j]).1,
                ) != Some(hw) implies lateness(c[i].1) <= lateness(c[j].1) by {
                if i < a.len() {
                    assert(a.contains(a[i]));
                    lemma_by_hw_members(usable, hw, true, a[i]);
                }
                assert(c[i] == b[i - a.len()]);
                assert(c[j] == b[j - a.len()]);
            }
        },
    }
}

/// Key frames come with their headers, and streams with start codes, whatever encodes them:
/// the options ask for it. Low delay and a steady rate are asked for in each encoder's own
/// words, and the profile is one that every receiver knows.
pub proof fn law_options_ask_for_what_receivers_need(
    hw: HwAccelType,
    codec: VideoCodec,
    low_latency: bool,
)
    ensures
        ({
            let o = encoder_options(hw, codec, low_latency);
            let coded = codec == VideoCodec::H264 || codec == VideoCodec::H265;
            &&& coded ==> o.contains(("repeat-headers"@, "1"@))
            &&& codec == VideoCodec::H265 ==> o.contains(("annexb"@, "1"@)) && o.contains(
                ("profile"@, "main"@),
            )
            &&& codec == VideoCodec::H264 ==> if hw == HwAccelType::Amf {
                o.contains(("profile"@, "constrained_baseline"@)) && o.contains(("level"@, "3.1"@))
            } else {
                o.contains(("profile"@, "baseline"@))
            }
            &&& hw == HwAccelType::Nvenc ==> o.contains(("tune"@, "ull"@)) && o.contains(
                ("zerolatency"@, "1"@),
            ) && o.contains(("rc"@, "cbr"@)) && o.contains(("preset"@, "p3"@)) && o.contains(
                ("forced-idr"@, "1"@),
            ) && (codec == VideoCodec::H265 ==> o.contains(("repeat_vps_sps_pps"@, "1"@)))
            &&& hw == HwAccelType::Vaapi ==> o.contains(("rc_mode"@, "CBR"@))
            &&& hw == HwAccelType::Qsv ==> o.contains(("preset"@, "veryfast"@)) && o.contains(
                ("forced_idr"@, "1"@),
            ) && o.contains(("repeat_pps"@, "1"@))
            &&& hw == HwAccelType::Amf ==> o.contains(("usage"@, "ultralowlatency"@))
                && o.contains(("rc"@, "cbr"@)) && o.contains(("forced_idr"@, "1"@)) && o.contains(
                ("header_insertion_mode"@, "idr"@),
            )
            &&& hw == HwAccelType::VideoToolbox ==> o.contains(("realtime"@, "1"@))
            &&& hw == HwAccelType::Software ==> o.contains(("preset"@, "ultrafast"@))
            &&& low_latency && (hw == HwAccelType::Vaapi || hw == HwAccelType::Qsv) ==> o.contains(
                ("async_depth"@, "1"@),
            )
            &&& low_latency && hw == HwAccelType::Software ==> o.contains(
                ("tune"@, "zerolatency"@),
            )
        }),
{
    let o = encoder_options(hw, codec, low_latency);
    let n = header_options(codec).len() as int;
    assert(o.len() > 0);
    if codec == VideoCodec::H264 {
        assert(o[0] == ("repeat-headers"@, "1"@));
    }
    if codec == VideoCodec::H265 {
        assert(o[0] == ("repeat-headers"@, "1"@));
        assert(o[1] == ("annexb"@, "1"@));
    }
    let h264 = ("profile"@, "baseline"@);
    let h265 = ("profile"@, "main"@);
    let own = if codec == VideoCodec::H264 {
        h264
    } else {
        h265
    };
    let coded = codec == VideoCodec::H264 || codec == VideoCodec::H265;
    match hw {
        HwAccelType::Nvenc => {
            assert(o[n] == ("preset"@, "p3"@));
            assert(o[n + 1] == ("tune"@, "ull"@));
            assert(o[n + 2] == ("rc"@, "cbr"@));
            assert(o[n + 3] == ("zerolatency"@, "1"@));
            assert(o[n + 4] == ("forced-idr"@, "1"@));
            if coded {
                assert(o[n + 5] == own);
            }
            if codec == VideoCodec::H265 {
                assert(o[n + 6] == ("repeat_vps_sps_pps"@, "1"@));
            }
        },
        HwAccelType::Vaapi => {
            assert(o[n] == ("rc_mode"@, "CBR"@));
            if coded {
                assert(o[n + 1] == own);
            }
            if low_latency {
                assert(o[o.len() - 1] == ("async_depth"@, "1"@));
            }
        },
        HwAccelType::Qsv => {
            assert(o[n] == ("preset"@, "veryfast"@));
            assert(o[n + 1] == ("forced_idr"@, "1"@));
            assert(o[n + 2] == ("repeat_pps"@, "1"@));
            if coded {
                assert(o[n + 3] == own);
            }
            if low_latency {
                assert(o[o.len() - 1] == ("async_depth"@, "1"@));
            }
        },
        HwAccelType::Amf => {
            assert(o[n] == ("usage"@, "ultralowlatency"@));
            assert(o[n + 1] == ("rc"@, "cbr"@));
            assert(o[n + 2] == ("forced_idr"@, "1"@));
            assert(o[n + 3] == ("header_insertion_mode"@, "idr"@));
            if codec == VideoCodec::H264 {
                assert(o[n + 4] == ("profile"@, "constrained_baseline"@));
                assert(o[n + 5] == ("level"@, "3.1"@));
            } else if coded {
                assert(o[n + 4] == own);
            }
        },
        HwAccelType::VideoToolbox => {
            assert(o[n] == ("realtime"@, "1"@));
            if coded {
                assert(o[n + 1] == own);
            }
        },
        HwAccelType::Software => {
            assert(o[n] == ("preset"@, "ultrafast"@));
            if low_latency {
                assert(o[n + 1] == ("tune"@, "zerolatency"@));
            }
            if coded {
                assert(o[o.len() - 1] == own);
            }
        },
    }
}

/// Low latency takes no option away, and adds one to those encoders that can wait.
pub proof fn law_low_latency_adds_one_option(hw: HwAccelType, codec: VideoCodec)
    ensures
        encoder_options(hw, codec, true).len() == encoder_options(hw, codec, false).len() + (if hw
            == HwAccelType::Vaapi || hw == HwAccelType::Qsv || hw == HwAccelType::Software {
            1int
        } else {
            0
        }),
        forall|i: int|
            0 <= i < encoder_options(hw, codec, false).len() ==> encoder_options(
                hw,
                codec,
                true,
            ).contains(#[trigger] encoder_options(hw, codec, false)[i]),
{
    let a = encoder_options(hw, codec, true);
    let b = encoder_options(hw, codec, false);
    let n = header_options(codec).len() as int;
    assert forall|i: int| 0 <= i < b.len() implies a.contains(#[trigger] b[i]) by {
        if hw == HwAccelType::Software && i > n {
            assert(a[i + 1] == b[i]);
        } else {
            assert(a[i] == b[i]);
        }
    }
}

/// FFmpeg's name for an encoder says which codec it encodes and on which hardware it runs;
/// the encoders in software are libraries.
#[verifier::rlimit(40)]
pub proof fn law_encoder_names_say_what_they_are(codec: VideoCodec, hw: HwAccelType)
    ensures
        hw !is Software ==> hw_name(codec, hw) == (match codec {
            VideoCodec::H264 => "h264_"@,
            VideoCodec::H265 => "hevc_"@,
            VideoCodec::AV1 => "av1_"@,
        }) + accelerator_word(hw),
        hw is Software ==> "lib"@.is_prefix_of(hw_name(codec, hw)),
{
    let n = hw_name(codec, hw);
    reveal_strlit("h264_");
    reveal_strlit("hevc_");
    reveal_strlit("av1_");
    reveal_strlit("lib");
    reveal_strlit("nvenc");
    reveal_strlit("vaapi");
    reveal_strlit("qsv");
    reveal_strlit("amf");
    reveal_strlit("videotoolbox");
    match (codec, hw) {
        (VideoCodec::H264, HwAccelType::Nvenc) => {
            reveal_strlit("h264_nvenc");
            assert(n =~= "h264_"@ + accelerator_word(hw));
        },
        (VideoCodec::H264, HwAccelType::Vaapi) => {
            reveal_strlit("h264_vaapi");
            assert(n =~= "h264_"@ + accelerator_word(hw));
        },
        (VideoCodec::H264, HwAccelType::Qsv) => {
            reveal_strlit("h264_qsv");
            assert(n =~= "h264_"@ + accelerator_word(hw));
        },
        (VideoCodec::H264, HwAccelType::Amf) => {
            reveal_strlit("h264_amf");
            assert(n =~= "h264_"@ + accelerator_word(hw));
        },
        (VideoCodec::H264, HwAccelType::VideoToolbox) => {
            reveal_strlit("h264_videotoolbox");
            assert(n =~= "h264_"@ + accelerator_word(hw));
        },
        (VideoCodec::H264, HwAccelType::Software) => {
            reveal_strlit("libx264");
            assert(n.subrange(0, 3) =~= "lib"@);
        },
        (VideoCodec::H265, HwAccelType::Nvenc) => {
            reveal_strlit("hevc_nvenc");
            assert(n =~= "hevc_"@ + accelerator_word(hw));
        },
        (VideoCodec::H265, HwAccelType::Vaapi) => {
            reveal_strlit("hevc_vaapi");
            assert(n =~= "hevc_"@ + accelerator_word(hw));
        },
        (VideoCodec::H265, HwAccelType::Qsv) => {
            reveal_strlit("hevc_qsv");
            assert(n =~= "hevc_"@ + accelerator_word(hw));
        },
        (VideoCodec::H265, HwAccelType::Amf) => {
            reveal_strlit("hevc_amf");
            assert(n =~= "hevc_"@ + accelerator_word(hw));
        },
        (VideoCodec::H265, HwAccelType::VideoToolbox) => {
            reveal_strlit("hevc_videotoolbox");
            assert(n =~= "hevc_"@ + accelerator_word(hw));
        },
        (VideoCodec::H265, HwAccelType::Software) => {
            reveal_strlit("libx265");
            assert(n.subrange(0, 3) =~= "lib"@);
        },
        (VideoCodec::AV1, HwAccelType::Nvenc) => {
            reveal_strlit("av1_nvenc");
            assert(n =~= "av1_"@ + accelerator_word(hw));
        },
        (VideoCodec::AV1, HwAccelType::Vaapi) => {
            reveal_strlit("av1_vaapi");
            assert(n =~= "av1_"@ + accelerator_word(hw));
        },
        (VideoCodec::AV1, HwAccelType::Qsv) => {
            reveal_strlit("av1_qsv");
            assert(n =~= "av1_"@ + accelerator_word(hw));
        },
        (VideoCodec::AV1, HwAccelType::Amf) => {
            reveal_strlit("av1_amf");
            assert(n =~= "av1_"@ + accelerator_word(hw));
        },
        (VideoCodec::AV1, HwAccelType::VideoToolbox) => {
            reveal_strlit("av1_videotoolbox");
            assert(n =~= "av1_"@ + accelerator_word(hw));
        },
        (VideoCodec::AV1, HwAccelType::Software) => {
            reveal_strlit("libsvtav1");
            assert(n.subrange(0, 3) =~= "lib"@);
        },
    }
}

} // verus!
