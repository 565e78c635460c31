//! The choice among the native encoders of Windows, and the choice of encoder
//! on every platform.

use crate::encode::ffmpeg::{
    available, copy_info, hw_encoder, infos, is_hw_encoder, names, FfmpegEncoder,
};
use crate::encode::native_setup::NativeResource;
use crate::encode::windows_amf::{
    properties, rate_properties, AmfProperty, AmfVariant, WindowsAmfEncoder,
};
use crate::encode::windows_nvenc::{WindowsNvencEncoder, NV_ENC_PIC_FLAGS_IDR};
use crate::encode::windows_qsv::{WindowsQsvEncoder, MFX_FRAMETYPE_KEY};
use crate::encode::{rate_of, EncoderConfig};
use crate::error::{ErrorView, MediaError};
use crate::types::{EncoderInfo, HwAccelType, VideoCodec};
use crate::Platform;
use vstd::prelude::*;

verus! {

/// A native encoder.
pub enum WindowsEncoderBackend {
    NativeNvenc(WindowsNvencEncoder),
    NativeAmf(WindowsAmfEncoder),
    NativeQsv(WindowsQsvEncoder),
}

/// Which native encoder.
#[derive(Debug, Clone, Copy, PartialEq, Eq, Structural)]
pub enum NativeKind {
    Nvenc,
    Amf,
    Qsv,
}

/// Picks a native encoder by the configuration and the adapter.
pub struct WindowsAutoEncoder {
    pub backend: Option<WindowsEncoderBackend>,
}

/// The hardware that an adapter's vendor number stands for.
pub open spec fn vendor_hw(vendor: u32) -> Option<HwAccelType> {
    if vendor == 0x10de {
        Some(HwAccelType::Nvenc)
    } else if vendor == 0x1002 {
        Some(HwAccelType::Amf)
    } else if vendor == 0x8086 {
        Some(HwAccelType::Qsv)
    } else {
        None
    }
}

/// The hardware behind the capturing device, where it could be asked.
pub open spec fn detected(c: EncoderConfig, vendor: Option<u32>) -> Option<HwAccelType> {
    if c.d3d11_device is None {
        None
    } else {
        match vendor {
            Some(v) => vendor_hw(v),
            None => None,
        }
    }
}

pub open spec fn has_pair(c: EncoderConfig) -> bool {
    c.d3d11_device is Some && c.d3d11_context is Some
}

/// The hardware of a native encoder.
pub open spec fn kind_hw(kind: NativeKind) -> HwAccelType {
    match kind {
        NativeKind::Nvenc => HwAccelType::Nvenc,
        NativeKind::Amf => HwAccelType::Amf,
        NativeKind::Qsv => HwAccelType::Qsv,
    }
}

/// Whether a native encoder takes the configuration's codec and device. NVENC
/// takes H.264 alone.
pub open spec fn supported(kind: NativeKind, c: EncoderConfig) -> bool {
    has_pair(c) && (kind == NativeKind::Nvenc ==> c.codec == VideoCodec::H264)
}

/// Whether a native encoder is worth trying: it is the preferred one, or
/// without a preference the adapter's own.
pub open spec fn worth_trying(kind: NativeKind, c: EncoderConfig, vendor: Option<u32>) -> bool {
    &&& !c.force_ffmpeg
    &&& supported(kind, c)
    &&& match c.preferred_hw {
        Some(hw) => hw == kind_hw(kind),
        None => detected(c, vendor) == Some(kind_hw(kind)),
    }
}

/// The native encoders to try, in order.
pub open spec fn natives_to_try(c: EncoderConfig, vendor: Option<u32>) -> Seq<NativeKind> {
    (if worth_trying(NativeKind::Nvenc, c, vendor) {
        seq![NativeKind::Nvenc]
    } else {
        Seq::empty()
    }) + (if worth_trying(NativeKind::Amf, c, vendor) {
        seq![NativeKind::Amf]
    } else {
        Seq::empty()
    }) + (if worth_trying(NativeKind::Qsv, c, vendor) {
        seq![NativeKind::Qsv]
    } else {
        Seq::empty()
    })
}

/// Why no native encoder could be used.
pub open spec fn failure_reason(c: EncoderConfig, vendor: Option<u32>) -> Seq<char> {
    let found = detected(c, vendor);
    if c.preferred_hw == Some(HwAccelType::Qsv) || found == Some(HwAccelType::Qsv) {
        "Native Intel/QSV Windows encoding requires libvpl.dll and successful initialization"@
    } else if c.preferred_hw == Some(HwAccelType::Software) {
        "Software/FFmpeg encoding is not compiled on Windows"@
    } else if c.preferred_hw == Some(HwAccelType::Nvenc) || found == Some(HwAccelType::Nvenc) {
        "Native NVENC requires a D3D11 device/context and successful NVENC initialization"@
    } else if c.preferred_hw == Some(HwAccelType::Amf) || found == Some(HwAccelType::Amf) {
        "Native AMF requires a D3D11 device/context and successful AMF initialization"@
    } else {
        "No supported native Windows encoder was available"@
    }
}

/// A backend after a key frame was asked for.
pub open spec fn keyed(b: WindowsEncoderBackend) -> WindowsEncoderBackend {
    match b {
        WindowsEncoderBackend::NativeNvenc(e) => WindowsEncoderBackend::NativeNvenc(
            WindowsNvencEncoder { force_keyframe: true, ..e },
        ),
        WindowsEncoderBackend::NativeAmf(e) => WindowsEncoderBackend::NativeAmf(
            WindowsAmfEncoder { force_keyframe: true, ..e },
        ),
        WindowsEncoderBackend::NativeQsv(e) => WindowsEncoderBackend::NativeQsv(
            WindowsQsvEncoder { force_keyframe: true, ..e },
        ),
    }
}

/// A backend after its bitrate was changed. That of AMF is keyed once the
/// runtime took the properties.
pub open spec fn rated(b: WindowsEncoderBackend, bitrate_kbps: u32) -> WindowsEncoderBackend {
    match b {
        WindowsEncoderBackend::NativeNvenc(e) => WindowsEncoderBackend::NativeNvenc(
            WindowsNvencEncoder {
                force_keyframe: true,
                config: Some(EncoderConfig { bitrate_kbps, ..e.config->0 }),
                ..e
            },
        ),
        WindowsEncoderBackend::NativeAmf(e) => WindowsEncoderBackend::NativeAmf(
            WindowsAmfEncoder {
                config: Some(EncoderConfig { bitrate_kbps, ..e.config->0 }),
                ..e
            },
        ),
        WindowsEncoderBackend::NativeQsv(e) => WindowsEncoderBackend::NativeQsv(
            WindowsQsvEncoder {
                force_keyframe: true,
                config: Some(EncoderConfig { bitrate_kbps, ..e.config->0 }),
                ..e
            },
        ),
    }
}

/// Whether a backend is set up.
pub open spec fn ready(b: WindowsEncoderBackend) -> bool {
    match b {
        WindowsEncoderBackend::NativeNvenc(e) => e.initialized,
        WindowsEncoderBackend::NativeAmf(e) => e.initialized,
        WindowsEncoderBackend::NativeQsv(e) => e.initialized,
    }
}

/// A backend after its frame rate was changed. QSV starts over with a key frame.
pub open spec fn paced(b: WindowsEncoderBackend, fps: u32) -> WindowsEncoderBackend {
    match b {
        WindowsEncoderBackend::NativeNvenc(e) => WindowsEncoderBackend::NativeNvenc(
            WindowsNvencEncoder {
                config: Some(EncoderConfig { fps: rate_of(fps), ..e.config->0 }),
                ..e
            },
        ),
        WindowsEncoderBackend::NativeAmf(e) => WindowsEncoderBackend::NativeAmf(
            WindowsAmfEncoder {
                config: Some(EncoderConfig { fps: rate_of(fps), ..e.config->0 }),
                ..e
            },
        ),
        WindowsEncoderBackend::NativeQsv(e) => WindowsEncoderBackend::NativeQsv(
            WindowsQsvEncoder {
                force_keyframe: true,
                config: Some(EncoderConfig { fps: rate_of(fps), ..e.config->0 }),
                ..e
            },
        ),
    }
}

/// A backend after it was shut down.
pub open spec fn shut(b: WindowsEncoderBackend) -> WindowsEncoderBackend {
    match b {
        WindowsEncoderBackend::NativeNvenc(e) => WindowsEncoderBackend::NativeNvenc(e.closed()),
        WindowsEncoderBackend::NativeAmf(e) => WindowsEncoderBackend::NativeAmf(e.closed()),
        WindowsEncoderBackend::NativeQsv(e) => WindowsEncoderBackend::NativeQsv(e.closed()),
    }
}

/// What a backend has to release.
pub open spec fn held_by(b: WindowsEncoderBackend) -> Seq<NativeResource> {
    match b {
        WindowsEncoderBackend::NativeNvenc(e) => e.held(),
        WindowsEncoderBackend::NativeAmf(e) => e.held(),
        WindowsEncoderBackend::NativeQsv(e) => e.held(),
    }
}

fn no_properties() -> (v: Vec<AmfProperty>)
    ensures
        properties(v@) == Seq::<(Seq<char>, AmfVariant, bool)>::empty(),
{
    let v: Vec<AmfProperty> = Vec::new();
    assert(properties(v@) =~= Seq::<(Seq<char>, AmfVariant, bool)>::empty());
    v
}

impl WindowsEncoderBackend {
    pub open spec fn wf(&self) -> bool {
        match self {
            WindowsEncoderBackend::NativeNvenc(e) => e.wf(),
            WindowsEncoderBackend::NativeAmf(e) => e.wf(),
            WindowsEncoderBackend::NativeQsv(e) => e.wf(),
        }
    }

    pub open spec fn is_initialized(&self) -> bool {
        match self {
            WindowsEncoderBackend::NativeNvenc(e) => e.initialized,
            WindowsEncoderBackend::NativeAmf(e) => e.initialized,
            WindowsEncoderBackend::NativeQsv(e) => e.initialized,
        }
    }
}

impl WindowsAutoEncoder {
    pub open spec fn wf(&self) -> bool {
        self.backend matches Some(b) ==> b.wf()
    }

    /// No encoder is chosen.
    pub fn new() -> (r: Self)
        ensures
            r.backend is None,
            r.wf(),
    {
        WindowsAutoEncoder { backend: None }
    }

    /// The hardware behind the capturing device, by its vendor number where it
    /// could be asked.
    pub fn detected_d3d11_hw(config: &EncoderConfig, vendor: Option<u32>) -> (r: Option<
        HwAccelType,
    >)
        ensures
            r == detected(*config, vendor),
    {
        if config.d3d11_device.is_none() {
            return None;
        }
        match vendor {
            Some(v) => if v == 0x10de {
                Some(HwAccelType::Nvenc)
            } else if v == 0x1002 {
                Some(HwAccelType::Amf)
            } else if v == 0x8086 {
                Some(HwAccelType::Qsv)
            } else {
                None
            },
            None => None,
        }
    }

    /// Whether there is a device with its context.
    pub fn has_d3d11_pair(config: &EncoderConfig) -> (b: bool)
        ensures
            b == has_pair(*config),
    {
        config.d3d11_device.is_some() && config.d3d11_context.is_some()
    }

    /// Whether NVENC takes the codec and the device.
    pub fn supports_native_d3d11_h264(config: &EncoderConfig) -> (b: bool)
        ensures
            b == supported(NativeKind::Nvenc, *config),
    {
        config.codec == VideoCodec::H264 && Self::has_d3d11_pair(config)
    }

    /// Whether AMF takes the codec and the device.
    pub fn supports_native_d3d11_amf(config: &EncoderConfig) -> (b: bool)
        ensures
            b == supported(NativeKind::Amf, *config),
    {
        Self::has_d3d11_pair(config)
    }

    /// Whether Quick Sync takes the codec and the device.
    pub fn supports_native_d3d11_qsv(config: &EncoderConfig) -> (b: bool)
        ensures
            b == supported(NativeKind::Qsv, *config),
    {
        Self::has_d3d11_pair(config)
    }

    fn prefers(config: &EncoderConfig, vendor: Option<u32>, hw: HwAccelType) -> (b: bool)
        ensures
            b == (match config.preferred_hw {
                Some(p) => p == hw,
                None => detected(*config, vendor) == Some(hw),
            }),
    {
        match config.preferred_hw {
            Some(p) => p == hw,
            None => match Self::detected_d3d11_hw(config, vendor) {
                Some(found) => found == hw,
                None => false,
            },
        }
    }

    /// Whether NVENC is worth trying.
    pub fn should_try_native_nvenc(config: &EncoderConfig, vendor: Option<u32>) -> (b: bool)
        ensures
            b == worth_trying(NativeKind::Nvenc, *config, vendor),
    {
        !config.force_ffmpeg && Self::supports_native_d3d11_h264(config) && Self::prefers(
            config,
            vendor,
            HwAccelType::Nvenc,
        )
    }

    /// Whether AMF is worth trying.
    pub fn should_try_native_amf(config: &EncoderConfig, vendor: Option<u32>) -> (b: bool)
        ensures
            b == worth_trying(NativeKind::Amf, *config, vendor),
    {
        !config.force_ffmpeg && Self::supports_native_d3d11_amf(config) && Self::prefers(
            config,
            vendor,
            HwAccelType::Amf,
        )
    }

    /// Whether Quick Sync is worth trying.
    pub fn should_try_native_qsv(config: &EncoderConfig, vendor: Option<u32>) -> (b: bool)
        ensures
            b == worth_trying(NativeKind::Qsv, *config, vendor),
    {
        !config.force_ffmpeg && Self::supports_native_d3d11_qsv(config) && Self::prefers(
            config,
            vendor,
            HwAccelType::Qsv,
        )
    }

    /// Starts setting up: the native encoders to try, in order. The first that
    /// can be set up is handed to [`Self::adopt`].
    pub fn initialize(config: &EncoderConfig, vendor: Option<u32>) -> (r: Result<
        Vec<NativeKind>,
        MediaError,
    >)
        ensures
            match r {
                Ok(k) => !config.force_ffmpeg && k@ == natives_to_try(*config, vendor),
                Err(e) => config.force_ffmpeg && e@ == ErrorView::EncoderInitFailed(
                    "FFmpeg backend is not compiled on Windows; select native_nvenc_d3d11, native_amf_d3d11, gpu, or auto"@,
                ),
            },
    {
        if config.force_ffmpeg {
            return Err(
                MediaError::init_failed(
                    "FFmpeg backend is not compiled on Windows; select native_nvenc_d3d11, native_amf_d3d11, gpu, or auto",
                ),
            );
        }
        let mut k: Vec<NativeKind> = Vec::new();
        if Self::should_try_native_nvenc(config, vendor) {
            k.push(NativeKind::Nvenc);
        }
        if Self::should_try_native_amf(config, vendor) {
            k.push(NativeKind::Amf);
        }
        if Self::should_try_native_qsv(config, vendor) {
            k.push(NativeKind::Qsv);
        }
        assert(k@ =~= natives_to_try(*config, vendor));
        Ok(k)
    }

    /// Takes the native encoder that was set up.
    pub fn adopt(&mut self, backend: WindowsEncoderBackend)
        ensures
            final(self).backend == Some(backend),
    {
        self.backend = Some(backend);
    }

    /// The error when no native encoder could be set up.
    pub fn initialize_failure(config: &EncoderConfig, vendor: Option<u32>) -> (e: MediaError)
        ensures
            e@ == ErrorView::EncoderInitFailed(failure_reason(*config, vendor)),
    {
        let found: Option<HwAccelType> = Self::detected_d3d11_hw(config, vendor);
        let is_found = |hw: HwAccelType| -> (b: bool)
            ensures
                b == (found == Some(hw)),
            {
                match found {
                    Some(f) => f == hw,
                    None => false,
                }
            };
        let wanted: Option<HwAccelType> = config.preferred_hw;
        let is_wanted = |hw: HwAccelType| -> (b: bool)
            ensures
                b == (wanted == Some(hw)),
            {
                match wanted {
                    Some(w) => w == hw,
                    None => false,
                }
            };
        if is_wanted(HwAccelType::Qsv) || is_found(HwAccelType::Qsv) {
            MediaError::init_failed(
                "Native Intel/QSV Windows encoding requires libvpl.dll and successful initialization",
            )
        } else if is_wanted(HwAccelType::Software) {
            MediaError::init_failed("Software/FFmpeg encoding is not compiled on Windows")
        } else if is_wanted(HwAccelType::Nvenc) || is_found(HwAccelType::Nvenc) {
            MediaError::init_failed(
                "Native NVENC requires a D3D11 device/context and successful NVENC initialization",
            )
        } else if is_wanted(HwAccelType::Amf) || is_found(HwAccelType::Amf) {
            MediaError::init_failed(
                "Native AMF requires a D3D11 device/context and successful AMF initialization",
            )
        } else {
            MediaError::init_failed("No supported native Windows encoder was available")
        }
    }

    /// The native encoder that encodes.
    pub fn encode(&mut self) -> (r: Result<&mut WindowsEncoderBackend, MediaError>)
        ensures
            match r {
                Ok(b) => old(self).backend == Some(*b) && final(self).backend == Some(*final(b)),
                Err(e) => old(self).backend is None && e@ == ErrorView::EncoderNotInitialized
                    && *final(self) == *old(self),
            },
    {
        match &mut self.backend {
            Some(b) => Ok(b),
            None => Err(MediaError::EncoderNotInitialized),
        }
    }

    /// Makes the next picture a key frame.
    pub fn request_keyframe(&mut self)
        ensures
            final(self).backend == (match old(self).backend {
                Some(b) => Some(keyed(b)),
                None => None,
            }),
    {
        match &mut self.backend {
            Some(WindowsEncoderBackend::NativeNvenc(e)) => e.request_keyframe(),
            Some(WindowsEncoderBackend::NativeAmf(e)) => e.request_keyframe(),
            Some(WindowsEncoderBackend::NativeQsv(e)) => e.request_keyframe(),
            None => {},
        }
    }

    /// Changes the bitrate. The properties are for the AMF runtime; the other
    /// encoders have none.
    pub fn set_bitrate(&mut self, bitrate_kbps: u32) -> (r: Result<Vec<AmfProperty>, MediaError>)
        requires
            old(self).wf(),
        ensures
            final(self).wf(),
            match r {
                Ok(p) => {
                    &&& old(self).backend matches Some(b)
                    &&& b.is_initialized()
                    &&& final(self).backend == Some(rated(b, bitrate_kbps))
                    &&& properties(p@) == rate_properties(
                        b matches WindowsEncoderBackend::NativeAmf(a) && a.component,
                        bitrate_kbps,
                    )
                },
                Err(e) => {
                    &&& e@ == ErrorView::EncoderNotInitialized
                    &&& *final(self) == *old(self)
                    &&& old(self).backend matches Some(b) ==> !b.is_initialized()
                },
            },
    {
        match &mut self.backend {
            Some(WindowsEncoderBackend::NativeNvenc(e)) => match e.set_bitrate(bitrate_kbps) {
                Ok(_) => Ok(no_properties()),
                Err(err) => Err(err),
            },
            Some(WindowsEncoderBackend::NativeAmf(e)) => e.set_bitrate(bitrate_kbps),
            Some(WindowsEncoderBackend::NativeQsv(e)) => match e.set_bitrate(bitrate_kbps) {
                Ok(_) => Ok(no_properties()),
                Err(err) => Err(err),
            },
            None => Err(MediaError::EncoderNotInitialized),
        }
    }

    /// Changes the frame rate, at least one frame a second, from the next frame
    /// on. NVENC and AMF take no note of it where they are not set up.
    pub fn set_fps(&mut self, fps: u32) -> (r: Result<(), MediaError>)
        requires
            old(self).wf(),
        ensures
            final(self).wf(),
            match old(self).backend {
                Some(b) if ready(b) => r is Ok && final(self).backend == Some(paced(b, fps)),
                Some(WindowsEncoderBackend::NativeNvenc(_)) | Some(
                    WindowsEncoderBackend::NativeAmf(_),
                ) => r is Ok && *final(self) == *old(self),
                _ => r matches Err(e) && e@ == ErrorView::EncoderNotInitialized && *final(self)
                    == *old(self),
            },
    {
        match &mut self.backend {
            Some(WindowsEncoderBackend::NativeNvenc(e)) => e.set_fps(fps),
            Some(WindowsEncoderBackend::NativeAmf(e)) => e.set_fps(fps),
            Some(WindowsEncoderBackend::NativeQsv(e)) => e.set_fps(fps),
            None => Err(MediaError::EncoderNotInitialized),
        }
    }

    /// Describes the encoder.
    pub fn encoder_info(&self) -> (i: EncoderInfo)
        ensures
            described(self.backend, i),
    {
        match &self.backend {
            Some(WindowsEncoderBackend::NativeNvenc(e)) => e.encoder_info(),
            Some(WindowsEncoderBackend::NativeAmf(e)) => e.encoder_info(),
            Some(WindowsEncoderBackend::NativeQsv(e)) => e.encoder_info(),
            None => EncoderInfo {
                name: "uninitialized".to_owned(),
                hw_type: HwAccelType::Software,
                supported_codecs: Vec::new(),
            },
        }
    }

    /// Whether flushing has something to drain: an AMF component.
    pub fn flush(&self) -> (drain: bool)
        ensures
            drain == (self.backend matches Some(WindowsEncoderBackend::NativeAmf(a))
                && a.component),
    {
        match &self.backend {
            Some(WindowsEncoderBackend::NativeAmf(e)) => e.flush(),
            _ => false,
        }
    }

    /// Lets the native encoder go. It is handed back shut down, with what has to be
    /// released, in order.
    pub fn shutdown(&mut self) -> (r: Option<(WindowsEncoderBackend, Vec<NativeResource>)>)
        ensures
            final(self).backend is None,
            match old(self).backend {
                Some(b) => r matches Some((s, release)) && s == shut(b) && release@ == held_by(b),
                None => r is None,
            },
    {
        match self.backend.take() {
            None => None,
            Some(WindowsEncoderBackend::NativeNvenc(e)) => {
                let mut e: WindowsNvencEncoder = e;
                let release: Vec<NativeResource> = e.shutdown();
                Some((WindowsEncoderBackend::NativeNvenc(e), release))
            },
            Some(WindowsEncoderBackend::NativeAmf(e)) => {
                let mut e: WindowsAmfEncoder = e;
                let release: Vec<NativeResource> = e.shutdown();
                Some((WindowsEncoderBackend::NativeAmf(e), release))
            },
            Some(WindowsEncoderBackend::NativeQsv(e)) => {
                let mut e: WindowsQsvEncoder = e;
                let release: Vec<NativeResource> = e.shutdown();
                Some((WindowsEncoderBackend::NativeQsv(e), release))
            },
        }
    }
}

/// The encoder of a platform.
pub enum EncoderBackend {
    WindowsAuto(WindowsAutoEncoder),
    Ffmpeg(FfmpegEncoder),
}

/// Makes the encoder of a platform: the native choice on Windows, FFmpeg on
/// Linux and macOS.
pub fn create_encoder(platform: Platform) -> (r: Result<EncoderBackend, MediaError>)
    ensures
        match platform {
            Platform::Windows => r matches Ok(EncoderBackend::WindowsAuto(w)) && w.backend is None,
            Platform::Linux | Platform::MacOs => r matches Ok(EncoderBackend::Ffmpeg(f)) && f.wf()
                && f.fresh(),
            Platform::Other => r matches Err(e) && e@ == ErrorView::PlatformNotSupported(
                "No encoder available on this platform"@,
            ),
        },
{
    match platform {
        Platform::Windows => Ok(EncoderBackend::WindowsAuto(WindowsAutoEncoder::new())),
        Platform::Linux | Platform::MacOs => match FfmpegEncoder::new() {
            Ok(f) => Ok(EncoderBackend::Ffmpeg(f)),
            Err(e) => Err(e),
        },
        Platform::Other => Err(
            MediaError::PlatformNotSupported("No encoder available on this platform".to_owned()),
        ),
    }
}

/// Which native encoders could be made.
#[derive(Debug, Clone, Copy, PartialEq, Eq, Structural)]
pub struct NativeAvailable {
    pub nvenc: bool,
    pub amf: bool,
    pub qsv: bool,
}

/// The native encoders that are offered.
pub open spec fn native_infos(n: NativeAvailable) -> Seq<(Seq<char>, HwAccelType, Seq<VideoCodec>)> {
    (if n.nvenc {
        seq![
            (
                "native_nvenc_d3d11"@,
                HwAccelType::Nvenc,
                seq![VideoCodec::H264],
            ),
        ]
    } else {
        Seq::empty()
    }) + (if n.amf {
        seq![
            (
                "native_amf_d3d11"@,
                HwAccelType::Amf,
                seq![VideoCodec::H264],
            ),
        ]
    } else {
        Seq::empty()
    }) + (if n.qsv {
        seq![
            (
                "native_qsv_d3d11"@,
                HwAccelType::Qsv,
                seq![VideoCodec::H264, VideoCodec::H265, VideoCodec::AV1],
            ),
        ]
    } else {
        Seq::empty()
    })
}

/// The encoders among `s` that run on hardware.
pub open spec fn on_hardware(s: Seq<(Seq<char>, HwAccelType, Seq<VideoCodec>)>) -> Seq<
    (Seq<char>, HwAccelType, Seq<VideoCodec>),
> {
    s.filter(|i: (Seq<char>, HwAccelType, Seq<VideoCodec>)| hw_encoder(i.1))
}

/// Every hardware encoder that the host offers.
pub open spec fn offered(
    platform: Platform,
    native: NativeAvailable,
    installed: Seq<Seq<char>>,
) -> Seq<(Seq<char>, HwAccelType, Seq<VideoCodec>)> {
    match platform {
        Platform::Windows => native_infos(native),
        Platform::Linux | Platform::MacOs => on_hardware(available(platform, installed)),
        Platform::Other => Seq::empty(),
    }
}

/// How an encoder is described.
pub open spec fn described(backend: Option<WindowsEncoderBackend>, i: EncoderInfo) -> bool {
    match backend {
        Some(WindowsEncoderBackend::NativeNvenc(_)) => i.name@ == "native_nvenc_d3d11"@
            && i.hw_type == HwAccelType::Nvenc && i.supported_codecs@ == seq![
            VideoCodec::H264,
        ],
        Some(WindowsEncoderBackend::NativeAmf(_)) => i.name@ == "native_amf_d3d11"@
            && i.hw_type == HwAccelType::Amf && i.supported_codecs@ == seq![
            VideoCodec::H264,
        ],
        Some(WindowsEncoderBackend::NativeQsv(_)) => i.name@ == "native_qsv_d3d11"@
            && i.hw_type == HwAccelType::Qsv && i.supported_codecs@ == seq![
            VideoCodec::H264,
            VideoCodec::H265,
            VideoCodec::AV1,
        ],
        None => i.name@ == "uninitialized"@ && i.hw_type == HwAccelType::Software
            && i.supported_codecs@.len() == 0,
    }
}

/// Every hardware encoder that the host offers: on Windows the native ones that
/// could be made, on Linux and macOS those of FFmpeg that are installed.
pub fn list_available_encoders(
    platform: Platform,
    native: NativeAvailable,
    installed: &Vec<String>,
) -> (r: Vec<EncoderInfo>)
    ensures
        infos(r@) == offered(platform, native, names(installed@)),
{
    match platform {
        Platform::Windows => {
            let mut r: Vec<EncoderInfo> = Vec::new();
            let of_nvenc: Vec<VideoCodec> = vec![VideoCodec::H264];
            assert(of_nvenc@ =~= seq![VideoCodec::H264]);
            if native.nvenc {
                r.push(
                    EncoderInfo {
                        name: "native_nvenc_d3d11".to_owned(),
                        hw_type: HwAccelType::Nvenc,
                        supported_codecs: of_nvenc,
                    },
                );
            }
            let of_amf: Vec<VideoCodec> = vec![VideoCodec::H264];
            assert(of_amf@ =~= seq![VideoCodec::H264]);
            if native.amf {
                r.push(
                    EncoderInfo {
                        name: "native_amf_d3d11".to_owned(),
                        hw_type: HwAccelType::Amf,
                        supported_codecs: of_amf,
                    },
                );
            }
            let of_qsv: Vec<VideoCodec> = vec![VideoCodec::H264, VideoCodec::H265, VideoCodec::AV1];
            assert(of_qsv@ =~= seq![VideoCodec::H264, VideoCodec::H265, VideoCodec::AV1]);
            if native.qsv {
                r.push(
                    EncoderInfo {
                        name: "native_qsv_d3d11".to_owned(),
                        hw_type: HwAccelType::Qsv,
                        supported_codecs: of_qsv,
                    },
                );
            }
            assert(infos(r@) =~= native_infos(native));
            r
        },
        Platform::Linux | Platform::MacOs => {
            let all: Vec<EncoderInfo> = FfmpegEncoder::list_available(platform, installed);
            let mut r: Vec<EncoderInfo> = Vec::new();
            let ghost whole = infos(all@);
            proof {
                reveal(Seq::filter);
                assert(infos(r@) =~= on_hardware(whole.take(0)));
            }
            for k in 0..all.len()
                invariant
                    whole == infos(all@),
                    infos(r@) == on_hardware(whole.take(k as int)),
            {
                let ghost before = infos(r@);
                if is_hw_encoder(all[k].hw_type) {
                    r.push(copy_info(&all[k]));
                    assert(infos(r@) =~= before.push(whole[k as int]));
                }
                proof {
                    reveal(Seq::filter);
                    assert(whole.take(k as int + 1).drop_last() =~= whole.take(k as int));
                    assert(whole.take(k as int + 1).last() == whole[k as int]);
                }
            }
            assert(whole.take(all@.len() as int) =~= whole);
            r
        },
        Platform::Other => {
            let r: Vec<EncoderInfo> = Vec::new();
            assert(infos(r@) =~= Seq::empty());
            r
        },
    }
}

// ---- Laws ----

/// At most one native encoder is tried for a configuration.
pub proof fn law_one_native_encoder_is_tried(c: EncoderConfig, vendor: Option<u32>)
    ensures
        natives_to_try(c, vendor).len() <= 1,
{
}

/// Asking for FFmpeg on Windows never leads to a native encoder.
pub proof fn law_forced_ffmpeg_tries_no_native(c: EncoderConfig, vendor: Option<u32>)
    requires
        c.force_ffmpeg,
    ensures
        natives_to_try(c, vendor).len() == 0,
{
}

/// Whether the next picture of a backend is submitted as a key frame.
pub open spec fn next_is_key(b: WindowsEncoderBackend) -> bool {
    match b {
        WindowsEncoderBackend::NativeNvenc(e) => e.picture_flags() == NV_ENC_PIC_FLAGS_IDR,
        WindowsEncoderBackend::NativeAmf(e) => e.forces_key(),
        WindowsEncoderBackend::NativeQsv(e) => e.forced_type() == MFX_FRAMETYPE_KEY,
    }
}

/// A backend once a picture is done.
pub open spec fn pictured(b: WindowsEncoderBackend) -> WindowsEncoderBackend {
    match b {
        WindowsEncoderBackend::NativeNvenc(e) => WindowsEncoderBackend::NativeNvenc(
            e.after_picture(),
        ),
        WindowsEncoderBackend::NativeAmf(e) => WindowsEncoderBackend::NativeAmf(e.after_picture()),
        WindowsEncoderBackend::NativeQsv(e) => WindowsEncoderBackend::NativeQsv(e.after_picture()),
    }
}

/// How many pictures a backend has done since it was initialized.
pub open spec fn pictures_done(b: WindowsEncoderBackend) -> u64 {
    match b {
        WindowsEncoderBackend::NativeNvenc(e) => e.frame_count,
        WindowsEncoderBackend::NativeAmf(e) => e.frame_count,
        WindowsEncoderBackend::NativeQsv(e) => e.frame_count,
    }
}

/// A key frame that was asked for is the next picture, and the one after it is
/// an ordinary picture again, whichever encoder is in use.
pub proof fn law_keyframe_request_marks_one_picture(b: WindowsEncoderBackend)
    requires
        pictures_done(b) < u64::MAX,
    ensures
        next_is_key(keyed(b)),
        !next_is_key(pictured(keyed(b))),
{
}

/// Which native encoder is tried. It needs the capture's device and context. A preference
/// decides alone; without one the adapter's vendor does: NVIDIA's number stands for NVENC,
/// AMD's for AMF, Intel's for Quick Sync. NVENC is left out for other codecs than H.264.
pub proof fn law_the_encoder_of_the_adapter_is_tried(c: EncoderConfig, vendor: Option<u32>)
    ensures
        ({
            let t = natives_to_try(c, vendor);
            let may = !c.force_ffmpeg && c.d3d11_device is Some && c.d3d11_context is Some;
            let nvenc = may && c.codec == VideoCodec::H264;
            &&& !may ==> t.len() == 0
            &&& may && c.preferred_hw is None && vendor == Some(0x1002u32) ==> t == seq![
                NativeKind::Amf,
            ]
            &&& may && c.preferred_hw is None && vendor == Some(0x8086u32) ==> t == seq![
                NativeKind::Qsv,
            ]
            &&& nvenc && c.preferred_hw is None && vendor == Some(0x10deu32) ==> t == seq![
                NativeKind::Nvenc,
            ]
            &&& c.preferred_hw is None && vendor != Some(0x1002u32) && vendor != Some(0x8086u32)
                && vendor != Some(0x10deu32) ==> t.len() == 0
            &&& may && c.preferred_hw == Some(HwAccelType::Amf) ==> t == seq![NativeKind::Amf]
            &&& may && c.preferred_hw == Some(HwAccelType::Qsv) ==> t == seq![NativeKind::Qsv]
            &&& nvenc && c.preferred_hw == Some(HwAccelType::Nvenc) ==> t == seq![
                NativeKind::Nvenc,
            ]
            &&& c.preferred_hw is Some && c.preferred_hw != Some(HwAccelType::Amf)
                && c.preferred_hw != Some(HwAccelType::Qsv) && c.preferred_hw != Some(
                HwAccelType::Nvenc,
            ) ==> t.len() == 0
            &&& t.contains(NativeKind::Nvenc) ==> c.codec == VideoCodec::H264
        }),
{
    let t = natives_to_try(c, vendor);
    if c.codec != VideoCodec::H264 {
        assert(!worth_trying(NativeKind::Nvenc, c, vendor));
        if t.contains(NativeKind::Nvenc) {
            let i = t.index_of(NativeKind::Nvenc);
            assert(t[i] == NativeKind::Nvenc);
        }
    }
}

/// The configuration that a backend encodes with.
pub open spec fn config_in(b: WindowsEncoderBackend) -> Option<EncoderConfig> {
    match b {
        WindowsEncoderBackend::NativeNvenc(e) => e.config,
        WindowsEncoderBackend::NativeAmf(e) => e.config,
        WindowsEncoderBackend::NativeQsv(e) => e.config,
    }
}

/// A new bitrate changes the bitrate of the configuration, a new frame rate its frame rate,
/// and each nothing else of it. No change undoes a request for a key frame; after a new
/// bitrate NVENC and Quick Sync make one, after a new frame rate Quick Sync does.
pub proof fn law_new_rates_are_used(b: WindowsEncoderBackend, kbps: u32, fps: u32)
    requires
        config_in(b) is Some,
    ensures
        ({
            let c = config_in(b)->0;
            &&& config_in(rated(b, kbps)) is Some && config_in(paced(b, fps)) is Some
            &&& config_in(rated(b, kbps))->0.bitrate_kbps == kbps
            &&& config_in(rated(b, kbps))->0.fps == c.fps
            &&& fps > 0 ==> config_in(paced(b, fps))->0.fps == fps
            &&& fps == 0 ==> config_in(paced(b, fps))->0.fps == 1
            &&& config_in(paced(b, fps))->0.bitrate_kbps == c.bitrate_kbps
            &&& config_in(rated(b, kbps))->0.width == c.width && config_in(
                paced(b, fps),
            )->0.width == c.width
            &&& config_in(rated(b, kbps))->0.height == c.height && config_in(
                paced(b, fps),
            )->0.height == c.height
            &&& next_is_key(b) ==> next_is_key(rated(b, kbps)) && next_is_key(paced(b, fps))
            &&& !(b is NativeAmf) ==> next_is_key(rated(b, kbps))
            &&& b is NativeQsv ==> next_is_key(paced(b, fps))
            &&& !(b is NativeQsv) ==> next_is_key(paced(b, fps)) == next_is_key(b)
            &&& ready(rated(b, kbps)) == ready(b) && ready(paced(b, fps)) == ready(b)
            &&& pictures_done(rated(b, kbps)) == pictures_done(b)
            &&& config_in(keyed(b)) == config_in(b)
        }),
{
}

/// A backend that was shut down is not ready and has nothing left to release. It is still
/// the same encoder.
pub proof fn law_a_shut_backend_holds_nothing(b: WindowsEncoderBackend)
    ensures
        !ready(shut(b)),
        held_by(shut(b)).len() == 0,
        b is NativeNvenc <==> shut(b) is NativeNvenc,
        b is NativeAmf <==> shut(b) is NativeAmf,
        config_in(shut(b)) == config_in(b),
{
}

proof fn lemma_on_hardware(s: Seq<(Seq<char>, HwAccelType, Seq<VideoCodec>)>)
    ensures
        forall|e: (Seq<char>, HwAccelType, Seq<VideoCodec>)| #[trigger]
            on_hardware(s).contains(e) <==> s.contains(e) && e.1 != HwAccelType::Software,
    decreases s.len(),
{
    reveal(Seq::filter);
    if s.len() > 0 {
        let f = s.drop_last();
        lemma_on_hardware(f);
        let front = on_hardware(f);
        assert(s =~= f.push(s.last()));
        assert forall|e: (Seq<char>, HwAccelType, Seq<VideoCodec>)| #[trigger]
            on_hardware(s).contains(e) <==> s.contains(e) && e.1 != HwAccelType::Software by {
            assert(front.contains(e) <==> f.contains(e) && e.1 != HwAccelType::Software);
            assert(s.contains(e) <==> f.contains(e) || e == s.last()) by {
                if s.contains(e) {
                    let i = s.index_of(e);
                    if i < f.len() {
                        assert(f[i] == e);
                    }
                }
                if f.contains(e) {
                    let i = f.index_of(e);
                    assert(s[i] == e);
                }
                assert(s[s.len() - 1] == s.last());
            }
            let q = front.push(s.last());
            assert(q.contains(e) <==> front.contains(e) || e == s.last()) by {
                if q.contains(e) {
                    let i = q.index_of(e);
                    if i < front.len() {
                        assert(front[i] == e);
                    }
                }
                if front.contains(e) {
                    let i = front.index_of(e);
                    assert(q[i] == e);
                }
                assert(q[front.len() as int] == s.last());
            }
        }
    }
}

/// Only encoders on hardware are offered: on Windows one for each native encoder that could
/// be made, elsewhere each installed one of FFmpeg that is not software.
pub proof fn law_offered_encoders_run_on_hardware(
    platform: Platform,
    native: NativeAvailable,
    installed: Seq<Seq<char>>,
)
    ensures
        ({
            let o = offered(platform, native, installed);
            &&& forall|i: int| 0 <= i < o.len() ==> (#[trigger] o[i]).1 != HwAccelType::Software
            &&& platform == Platform::Windows ==> {
                &&& native.nvenc <==> exists|i: int|
                    0 <= i < o.len() && (#[trigger] o[i]).1 == HwAccelType::Nvenc
                &&& native.amf <==> exists|i: int|
                    0 <= i < o.len() && (#[trigger] o[i]).1 == HwAccelType::Amf
                &&& native.qsv <==> exists|i: int|
                    0 <= i < o.len() && (#[trigger] o[i]).1 == HwAccelType::Qsv
                &&& forall|i: int|
                    0 <= i < o.len() ==> (#[trigger] o[i]).2.contains(VideoCodec::H264) && (
                    o[i].2.contains(VideoCodec::H265) <==> o[i].1 == HwAccelType::Qsv)
            }
            &&& platform == Platform::Linux || platform == Platform::MacOs ==> forall|
                e: (Seq<char>, HwAccelType, Seq<VideoCodec>),
            | #[trigger]
                o.contains(e) <==> available(platform, installed).contains(e) && e.1
                    != HwAccelType::Software
        }),
{
    let o = offered(platform, native, installed);
    match platform {
        Platform::Windows => {
            let a = if native.nvenc {
                1int
            } else {
                0
            };
            let b = if native.amf {
                1int
            } else {
                0
            };
            if native.nvenc {
                assert(o[0].1 == HwAccelType::Nvenc);
                assert(o[0].2[0] == VideoCodec::H264);
            }
            if native.amf {
                assert(o[a].1 == HwAccelType::Amf);
                assert(o[a].2[0] == VideoCodec::H264);
            }
            if native.qsv {
                assert(o[a + b].1 == HwAccelType::Qsv);
                assert(o[a + b].2[0] == VideoCodec::H264);
                assert(o[a + b].2[1] == VideoCodec::H265);
            }
        },
        Platform::Linux | Platform::MacOs => {
            let all = available(platform, installed);
            lemma_on_hardware(all);
            assert forall|i: int| 0 <= i < o.len() implies (#[trigger] o[i]).1
                != HwAccelType::Software by {
                assert(o.contains(o[i]));
            }
        },
        Platform::Other => {},
    }
}

/// An encoder in use is described as it is offered: by the name, the hardware and the codecs
/// under which it stands in the list of the host's encoders.
pub proof fn law_encoders_are_described_as_offered(
    b: WindowsEncoderBackend,
    i: EncoderInfo,
    native: NativeAvailable,
    installed: Seq<Seq<char>>,
)
    requires
        described(Some(b), i),
        b is NativeNvenc ==> native.nvenc,
        b is NativeAmf ==> native.amf,
        b is NativeQsv ==> native.qsv,
    ensures
        offered(Platform::Windows, native, installed).contains(
            (i.name@, i.hw_type, i.supported_codecs@),
        ),
        b is NativeNvenc <==> i.hw_type == HwAccelType::Nvenc,
        b is NativeAmf <==> i.hw_type == HwAccelType::Amf,
        b is NativeQsv <==> i.hw_type == HwAccelType::Qsv,
{
    let l = native_infos(native);
    let x = (i.name@, i.hw_type, i.supported_codecs@);
    let k: int = if b is NativeNvenc {
        0
    } else if b is NativeAmf {
        if native.nvenc {
            1
        } else {
            0
        }
    } else {
        l.len() - 1
    };
    assert(0 <= k < l.len());
    assert(l[k] == x);
}

} // verus!
