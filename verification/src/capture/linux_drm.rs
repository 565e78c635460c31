//! Capture of the picture that the Linux kernel shows, without a copy: the
//! active framebuffer is exported as a shared buffer.

use crate::capture::gpu_buffer::GpuBuffer;
use crate::capture::CapturedFrame;
use crate::error::{ErrorView, MediaError};
use crate::text::{dec, dec_text};
use crate::types::{DisplayInfo, PixelFormat, StreamConfig};
use vstd::prelude::*;

verus! {

// ---- Control codes ----

/// The control code of a call that reads and writes its argument.
pub fn iowr(ty: u32, nr: u32, size: u32) -> (r: u64)
    ensures
        r == ((3u32 << 30) | (size << 16) | (ty << 8) | nr) as u64,
        ty < 256 && nr < 256 && size < 0x4000 ==> r == 3 * 0x4000_0000 + size * 0x1_0000 + ty
            * 0x100 + nr,
{
    assert(ty < 256 && nr < 256 && size < 0x4000 ==> ((3u32 << 30) | (size << 16) | (ty << 8) | nr)
        == 3 * 0x4000_0000 + size * 0x1_0000 + ty * 0x100 + nr) by (bit_vector);
    ((3u32 << 30) | (size << 16) | (ty << 8) | nr) as u64
}

/// The control code of a call that reads its argument.
pub fn iow(ty: u32, nr: u32, size: u32) -> (r: u64)
    ensures
        r == ((1u32 << 30) | (size << 16) | (ty << 8) | nr) as u64,
        ty < 256 && nr < 256 && size < 0x4000 ==> r == 0x4000_0000 + size * 0x1_0000 + ty * 0x100
            + nr,
{
    assert(ty < 256 && nr < 256 && size < 0x4000 ==> ((1u32 << 30) | (size << 16) | (ty << 8) | nr)
        == 0x4000_0000 + size * 0x1_0000 + ty * 0x100 + nr) by (bit_vector);
    ((1u32 << 30) | (size << 16) | (ty << 8) | nr) as u64
}

/// A call to the graphics driver.
#[derive(Debug, Clone, Copy, PartialEq, Eq, Structural)]
pub enum DrmCall {
    GetResources,
    GetCrtc,
    GetFb2,
    PrimeHandleToFd,
    GemClose,
}

/// The control code of a call to the graphics driver.
pub open spec fn call_code(call: DrmCall) -> u64 {
    match call {
        DrmCall::GetResources => 0xc040_64a0,
        DrmCall::GetCrtc => 0xc068_64a1,
        DrmCall::GetFb2 => 0xc068_64ce,
        DrmCall::PrimeHandleToFd => 0xc00c_642d,
        DrmCall::GemClose => 0x4008_6409,
    }
}

/// The control code of a call to the graphics driver.
pub fn ioctl_code(call: DrmCall) -> (r: u64)
    ensures
        r == call_code(call),
{
    let ty: u32 = 0x64;
    match call {
        DrmCall::GetResources => iowr(ty, 0xa0, 64),
        DrmCall::GetCrtc => iowr(ty, 0xa1, 104),
        DrmCall::GetFb2 => iowr(ty, 0xce, 104),
        DrmCall::PrimeHandleToFd => iowr(ty, 0x2d, 12),
        DrmCall::GemClose => iow(ty, 0x09, 8),
    }
}

/// The exported descriptor is closed when a program is started.
pub const DRM_CLOEXEC: u32 = 0x8_0000;

/// The exported buffer can be written.
pub const DRM_RDWR: u32 = 0x02;

// ---- Formats ----

/// A pixel format of the kernel that the encoders know.
#[derive(Debug, Clone, Copy, PartialEq, Eq, Structural)]
pub enum KnownFourcc {
    Xrgb8888,
    Argb8888,
    Xbgr8888,
    Abgr8888,
    Nv12,
    P010,
    Other,
}

/// The format of a code, by `DrmFourcc::try_from`. The contract says of six codes
/// that they name the format of that name, and of all others that they name none
/// of the six; which of the others the function knows is left unsaid.
#[verifier::external_body]
fn known_fourcc(code: u32) -> (r: KnownFourcc)
    ensures
        r == (if code == 0x3432_5258 {
            KnownFourcc::Xrgb8888
        } else if code == 0x3432_5241 {
            KnownFourcc::Argb8888
        } else if code == 0x3432_4258 {
            KnownFourcc::Xbgr8888
        } else if code == 0x3432_4241 {
            KnownFourcc::Abgr8888
        } else if code == 0x3231_564e {
            KnownFourcc::Nv12
        } else if code == 0x3031_3050 {
            KnownFourcc::P010
        } else {
            KnownFourcc::Other
        }),
{
    match drm_fourcc::DrmFourcc::try_from(code) {
        Ok(drm_fourcc::DrmFourcc::Xrgb8888) => KnownFourcc::Xrgb8888,
        Ok(drm_fourcc::DrmFourcc::Argb8888) => KnownFourcc::Argb8888,
        Ok(drm_fourcc::DrmFourcc::Xbgr8888) => KnownFourcc::Xbgr8888,
        Ok(drm_fourcc::DrmFourcc::Abgr8888) => KnownFourcc::Abgr8888,
        Ok(drm_fourcc::DrmFourcc::Nv12) => KnownFourcc::Nv12,
        Ok(drm_fourcc::DrmFourcc::P010) => KnownFourcc::P010,
        Ok(_) => KnownFourcc::Other,
        Err(_) => KnownFourcc::Other,
    }
}

/// The pixel format that a kernel format is handled as: NV12 and P010 as
/// themselves, all others as BGRA.
pub open spec fn pixel_format_of(fourcc: u32) -> PixelFormat {
    if fourcc == 0x3231_564e {
        PixelFormat::NV12
    } else if fourcc == 0x3031_3050 {
        PixelFormat::P010
    } else {
        PixelFormat::BGRA
    }
}

/// The pixel format that a kernel format is handled as.
pub fn fourcc_to_pixel_format(fourcc: u32) -> (r: PixelFormat)
    ensures
        r == pixel_format_of(fourcc),
{
    match known_fourcc(fourcc) {
        KnownFourcc::Xrgb8888 | KnownFourcc::Argb8888 => PixelFormat::BGRA,
        KnownFourcc::Xbgr8888 | KnownFourcc::Abgr8888 => PixelFormat::BGRA,
        KnownFourcc::Nv12 => PixelFormat::NV12,
        KnownFourcc::P010 => PixelFormat::P010,
        KnownFourcc::Other => PixelFormat::BGRA,
    }
}

// ---- Finding the display ----

/// How opening a graphics device goes on.
#[derive(Debug)]
pub enum DeviceChoice {
    /// Open this device.
    Try(String),
    Failed(MediaError),
}

/// The devices, in the order they are tried.
pub open spec fn drm_devices() -> Seq<Seq<char>> {
    seq!["/dev/dri/card1"@, "/dev/dri/card0"@]
}

/// The device to open after `failed` of them could not be opened.
pub fn open_drm_device(failed: usize) -> (r: DeviceChoice)
    ensures
        match r {
            DeviceChoice::Try(s) => failed < drm_devices().len() && s@
                == drm_devices()[failed as int],
            DeviceChoice::Failed(e) => failed >= drm_devices().len() && e@
                == ErrorView::CaptureError(
                "No DRM device available. Check /dev/dri/card* permissions or run as root."@,
            ),
        },
{
    if failed == 0 {
        DeviceChoice::Try("/dev/dri/card1".to_owned())
    } else if failed == 1 {
        DeviceChoice::Try("/dev/dri/card0".to_owned())
    } else {
        DeviceChoice::Failed(
            MediaError::capture(
                "No DRM device available. Check /dev/dri/card* permissions or run as root.",
            ),
        )
    }
}

/// What the driver says of a display controller.
#[derive(Debug, Clone, Copy, PartialEq, Eq, Structural)]
pub struct Crtc {
    pub crtc_id: u32,
    /// The framebuffer that it shows, or zero.
    pub fb_id: u32,
    pub mode_valid: u32,
    pub hdisplay: u16,
    pub vdisplay: u16,
    /// The refresh rate, or zero where the driver does not know it.
    pub vrefresh: u32,
}

/// What the driver says of its display controllers.
#[derive(Debug)]
pub enum Resources {
    /// They could not be counted, with the system's description.
    CountFailed(String),
    /// They could not be listed, with the system's description.
    FetchFailed(String),
    /// Each of them; `None` where it could not be asked.
    Crtcs(Vec<Option<Crtc>>),
}

/// A controller that shows a picture: its number, size and rate.
#[derive(Debug, Clone, Copy, PartialEq, Eq, Structural)]
pub struct ActiveCrtc {
    pub crtc_id: u32,
    pub width: u32,
    pub height: u32,
    pub refresh_rate: u32,
}

/// What a controller that shows a picture is, with 60 for an unknown rate.
pub open spec fn active_crtc(c: Crtc) -> Option<ActiveCrtc> {
    if c.fb_id != 0 && c.mode_valid != 0 {
        Some(
            ActiveCrtc {
                crtc_id: c.crtc_id,
                width: c.hdisplay as u32,
                height: c.vdisplay as u32,
                refresh_rate: if c.vrefresh > 0 {
                    c.vrefresh
                } else {
                    60
                },
            },
        )
    } else {
        None
    }
}

/// The first controller that shows a picture.
pub open spec fn first_active(crtcs: Seq<Option<Crtc>>) -> Option<ActiveCrtc>
    decreases crtcs.len(),
{
    if crtcs.len() == 0 {
        None
    } else if crtcs[0] is Some && active_crtc(crtcs[0]->0) is Some {
        active_crtc(crtcs[0]->0)
    } else {
        first_active(crtcs.skip(1))
    }
}

/// The first controller that shows a picture.
pub fn find_active_crtc(resources: &Resources) -> (r: Result<ActiveCrtc, MediaError>)
    ensures
        match *resources {
            Resources::CountFailed(t) => r matches Err(e) && e@ == ErrorView::CaptureError(
                "DRM_IOCTL_MODE_GETRESOURCES (count) failed: "@ + t@,
            ),
            Resources::FetchFailed(t) => r matches Err(e) && e@ == ErrorView::CaptureError(
                "DRM_IOCTL_MODE_GETRESOURCES (fetch) failed: "@ + t@,
            ),
            Resources::Crtcs(v) => match r {
                Ok(a) => first_active(v@) == Some(a),
                Err(e) => first_active(v@) is None && e@ == ErrorView::NoDisplayFound,
            },
        },
{
    match resources {
        Resources::CountFailed(t) => Err(
            MediaError::CaptureError(
                "DRM_IOCTL_MODE_GETRESOURCES (count) failed: ".to_owned().concat(t.as_str()),
            ),
        ),
        Resources::FetchFailed(t) => Err(
            MediaError::CaptureError(
                "DRM_IOCTL_MODE_GETRESOURCES (fetch) failed: ".to_owned().concat(t.as_str()),
            ),
        ),
        Resources::Crtcs(v) => {
            assert(v@.skip(0) =~= v@);
            for i in 0..v.len()
                invariant
                    *resources == Resources::Crtcs(*v),
                    first_active(v@.skip(i as int)) == first_active(v@),
            {
                assert(v@.skip(i as int)[0] == v@[i as int]);
                assert(v@.skip(i as int).skip(1) =~= v@.skip(i as int + 1));
                if let Some(c) = v[i] {
                    if c.fb_id != 0 && c.mode_valid != 0 {
                        let refresh_rate: u32 = if c.vrefresh > 0 {
                            c.vrefresh
                        } else {
                            60
                        };
                        return Ok(
                            ActiveCrtc {
                                crtc_id: c.crtc_id,
                                width: c.hdisplay as u32,
                                height: c.vdisplay as u32,
                                refresh_rate,
                            },
                        );
                    }
                }
            }
            Err(MediaError::NoDisplayFound)
        },
    }
}

/// The layout of a framebuffer.
#[derive(Debug, Clone, Copy)]
pub struct Framebuffer {
    pub width: u32,
    pub height: u32,
    pub pixel_format: u32,
    pub handles: [u32; 4],
    pub pitches: [u32; 4],
    pub offsets: [u32; 4],
    pub modifier: [u64; 4],
}

/// The number of the error "permission denied".
pub const EACCES: i32 = 13;

/// Whether `r` says if the framebuffer's layout can be read.
pub open spec fn layout_tried(
    fb_id: Option<u32>,
    layout: Result<Framebuffer, (i32, String)>,
    r: Result<Option<u32>, MediaError>,
) -> bool {
    if fb_id is None || fb_id == Some(0u32) {
        r matches Err(e) && e@ == ErrorView::CaptureError(
            "Cannot read active framebuffer from CRTC"@,
        )
    } else {
        match layout {
            Ok(f) => r matches Ok(h) && h == (if f.handles@[0] != 0 {
                Some(f.handles@[0])
            } else {
                None
            }),
            Err((n, t)) => r matches Err(e) && e@ == (if n == EACCES {
                ErrorView::PermissionDenied(
                    "DRM_IOCTL_MODE_GETFB2 requires CAP_SYS_ADMIN. Run as root or set: sudo setcap cap_sys_admin+ep <binary>"@,
                )
            } else {
                ErrorView::CaptureError("DRM_IOCTL_MODE_GETFB2 failed: "@ + t@)
            }),
        }
    }
}

/// Whether the framebuffer's layout can be read, by trying it once. `fb_id` is
/// the framebuffer that the controller shows, `None` where it could not be
/// asked; the layout's reply has the system's error number and description.
/// Returns the handle to close, where there is one.
pub fn verify_getfb2(fb_id: Option<u32>, layout: &Result<Framebuffer, (i32, String)>) -> (r: Result<
    Option<u32>,
    MediaError,
>)
    ensures
        layout_tried(fb_id, *layout, r),
{
    match fb_id {
        None => {
            return Err(MediaError::capture("Cannot read active framebuffer from CRTC"));
        },
        Some(id) => {
            if id == 0 {
                return Err(MediaError::capture("Cannot read active framebuffer from CRTC"));
            }
        },
    }
    match layout {
        Ok(f) => {
            let handle: u32 = f.handles[0];
            if handle != 0 {
                Ok(Some(handle))
            } else {
                Ok(None)
            }
        },
        Err((n, t)) => {
            if *n == EACCES {
                Err(
                    MediaError::PermissionDenied(
                        "DRM_IOCTL_MODE_GETFB2 requires CAP_SYS_ADMIN. Run as root or set: sudo setcap cap_sys_admin+ep <binary>".to_owned(),
                    ),
                )
            } else {
                Err(
                    MediaError::CaptureError(
                        "DRM_IOCTL_MODE_GETFB2 failed: ".to_owned().concat(t.as_str()),
                    ),
                )
            }
        },
    }
}

// ---- Capturing ----

/// What has come back from the driver while a frame is taken.
#[derive(Debug)]
pub enum DmabufProgress {
    /// Nothing was asked yet.
    Start,
    /// The framebuffer that the controller shows.
    Crtc(Result<u32, String>),
    /// The framebuffer's layout.
    Layout(Result<Framebuffer, String>),
    /// The exported descriptor of a framebuffer, and the time.
    Exported(Framebuffer, Result<i32, String>, u64),
}

/// How the taking of a frame goes on. Handles in `close` are to be closed in
/// their order.
#[derive(Debug)]
pub enum DmabufStep {
    GetCrtc(u32),
    GetFb2(u32),
    /// Export a handle with flags.
    Export(u32, u32),
    Done { frame: CapturedFrame, close: Vec<u32> },
    Failed { error: MediaError, close: Vec<u32> },
}

/// Whether the handle of a further plane is closed: it is there, and is not the
/// first plane's.
pub open spec fn closes_plane(handles: Seq<u32>, i: int) -> bool {
    handles[i] != 0 && handles[i] != handles[0]
}

/// The handles to close after the first plane was exported: the first plane's,
/// then those of the other planes that have one of their own.
pub open spec fn handles_to_close(handles: Seq<u32>, planes: int) -> Seq<u32>
    decreases planes,
{
    if planes <= 1 {
        seq![handles[0]]
    } else {
        let r = handles_to_close(handles, planes - 1);
        if closes_plane(handles, planes - 1) {
            r.push(handles[planes - 1])
        } else {
            r
        }
    }
}

fn close_list(handles: &[u32; 4]) -> (r: Vec<u32>)
    ensures
        r@ == handles_to_close(handles@, 4),
{
    let mut r: Vec<u32> = vec![handles[0]];
    assert(r@ =~= handles_to_close(handles@, 1));
    for i in 1..4usize
        invariant
            r@ == handles_to_close(handles@, i as int),
    {
        if handles[i] != 0 && handles[i] != handles[0] {
            r.push(handles[i]);
        }
    }
    r
}

/// The capture's state. The device is held by the caller.
#[derive(Debug, Clone, Copy, PartialEq, Eq, Structural)]
pub struct DrmCapture {
    pub crtc_id: u32,
    pub width: u32,
    pub height: u32,
    pub refresh_rate: u32,
    pub fps: u32,
    pub capturing: bool,
}

/// Whether `r` is how taking a frame goes on.
pub open spec fn dmabuf_goes_on(c: DrmCapture, progress: DmabufProgress, r: DmabufStep) -> bool {
    match progress {
        DmabufProgress::Start => r == DmabufStep::GetCrtc(c.crtc_id),
        DmabufProgress::Crtc(Err(t)) => r matches DmabufStep::Failed { error, close }
            && error@ == ErrorView::CaptureError(
            "DRM_IOCTL_MODE_GETCRTC failed during capture: "@ + t@,
        ) && close@.len() == 0,
        DmabufProgress::Crtc(Ok(id)) => if id == 0 {
            r matches DmabufStep::Failed { error, close } && error@
                == ErrorView::CaptureError("CRTC has no active framebuffer"@)
                && close@.len() == 0
        } else {
            r == DmabufStep::GetFb2(id)
        },
        DmabufProgress::Layout(Err(t)) => r matches DmabufStep::Failed { error, close }
            && error@ == ErrorView::CaptureError("DRM_IOCTL_MODE_GETFB2 failed: "@ + t@)
            && close@.len() == 0,
        DmabufProgress::Layout(Ok(f)) => if f.handles@[0] == 0 {
            r matches DmabufStep::Failed { error, close } && error@
                == ErrorView::CaptureError("GETFB2 returned no GEM handle"@)
                && close@.len() == 0
        } else {
            r == DmabufStep::Export(f.handles@[0], DRM_CLOEXEC | DRM_RDWR)
        },
        DmabufProgress::Exported(f, Err(t), _) => r matches DmabufStep::Failed {
            error,
            close,
        } && error@ == ErrorView::CaptureError(
            "DRM_IOCTL_PRIME_HANDLE_TO_FD failed: "@ + t@,
        ) && close@ == seq![f.handles@[0]],
        DmabufProgress::Exported(f, Ok(fd), timestamp_us) => r matches DmabufStep::Done {
            frame,
            close,
        } && close@ == handles_to_close(f.handles@, 4) && frame == (CapturedFrame {
            buffer: GpuBuffer::DmaBuf {
                fd,
                offset: f.offsets@[0],
                stride: f.pitches@[0],
                modifier: f.modifier@[0],
                size: (f.pitches@[0] * f.height) as usize,
                width: f.width,
                height: f.height,
                fourcc: f.pixel_format,
            },
            timestamp_us,
            width: f.width,
            height: f.height,
            format: pixel_format_of(f.pixel_format),
            is_new_frame: true,
            cursor: None,
        }),
    }
}

impl DrmCapture {
    /// A capture of the controller that shows a picture, where its framebuffer
    /// can be read. On an error the device is to be closed.
    pub fn new(
        found: Result<ActiveCrtc, MediaError>,
        verified: Result<Option<u32>, MediaError>,
    ) -> (r: Result<Self, MediaError>)
        ensures
            match (found, verified) {
                (Err(e), _) => r == Err::<DrmCapture, MediaError>(e),
                (Ok(_), Err(e)) => r == Err::<DrmCapture, MediaError>(e),
                (Ok(c), Ok(_)) => r matches Ok(d) && d == (DrmCapture {
                    crtc_id: c.crtc_id,
                    width: c.width,
                    height: c.height,
                    refresh_rate: c.refresh_rate,
                    fps: 60,
                    capturing: false,
                }),
            },
    {
        match found {
            Err(e) => Err(e),
            Ok(c) => match verified {
                Err(e) => Err(e),
                Ok(_) => Ok(
                    DrmCapture {
                        crtc_id: c.crtc_id,
                        width: c.width,
                        height: c.height,
                        refresh_rate: c.refresh_rate,
                        fps: 60,
                        capturing: false,
                    },
                ),
            },
        }
    }

    /// The one display that the controller drives.
    pub fn list_displays(&self) -> (r: Vec<DisplayInfo>)
        ensures
            r@.len() == 1,
            r@[0].id@ == "drm-crtc-"@ + dec(self.crtc_id as nat),
            r@[0].name@ == "DRM Display (CRTC "@ + dec(self.crtc_id as nat) + ")"@,
            r@[0].width == self.width,
            r@[0].height == self.height,
            r@[0].refresh_rate@ == dec(self.refresh_rate as nat),
            r@[0].is_primary,
    {
        let number: String = dec_text(self.crtc_id as u64);
        vec![
            DisplayInfo {
                id: "drm-crtc-".to_owned().concat(number.as_str()),
                name: "DRM Display (CRTC ".to_owned().concat(number.as_str()).concat(")"),
                width: self.width,
                height: self.height,
                refresh_rate: dec_text(self.refresh_rate as u64),
                is_primary: true,
            },
        ]
    }

    /// Starts capturing.
    pub fn start(&mut self, config: &StreamConfig) -> (r: Result<(), MediaError>)
        ensures
            drm_started(*old(self), *final(self), *config, r),
    {
        if self.capturing {
            return Err(MediaError::CaptureAlreadyStarted);
        }
        self.fps = config.fps;
        self.capturing = true;
        Ok(())
    }

    /// Begins the next frame.
    pub fn next_frame(&self) -> (r: Result<DmabufStep, MediaError>)
        ensures
            drm_next(*self, r),
    {
        if !self.capturing {
            return Err(MediaError::CaptureNotStarted);
        }
        Ok(self.capture_dmabuf(DmabufProgress::Start))
    }

    /// How taking a frame goes on.
    pub fn capture_dmabuf(&self, progress: DmabufProgress) -> (r: DmabufStep)
        requires
            progress matches DmabufProgress::Exported(f, Ok(_), _) ==> f.pitches@[0] * f.height
                <= usize::MAX,
        ensures
            dmabuf_goes_on(*self, progress, r),
    {
        match progress {
            DmabufProgress::Start => DmabufStep::GetCrtc(self.crtc_id),
            DmabufProgress::Crtc(Err(t)) => DmabufStep::Failed {
                error: MediaError::CaptureError(
                    "DRM_IOCTL_MODE_GETCRTC failed during capture: ".to_owned().concat(t.as_str()),
                ),
                close: Vec::new(),
            },
            DmabufProgress::Crtc(Ok(id)) => if id == 0 {
                DmabufStep::Failed {
                    error: MediaError::capture("CRTC has no active framebuffer"),
                    close: Vec::new(),
                }
            } else {
                DmabufStep::GetFb2(id)
            },
            DmabufProgress::Layout(Err(t)) => DmabufStep::Failed {
                error: MediaError::CaptureError(
                    "DRM_IOCTL_MODE_GETFB2 failed: ".to_owned().concat(t.as_str()),
                ),
                close: Vec::new(),
            },
            DmabufProgress::Layout(Ok(f)) => if f.handles[0] == 0 {
                DmabufStep::Failed {
                    error: MediaError::capture("GETFB2 returned no GEM handle"),
                    close: Vec::new(),
                }
            } else {
                DmabufStep::Export(f.handles[0], DRM_CLOEXEC | DRM_RDWR)
            },
            DmabufProgress::Exported(f, Err(t), _) => {
                let close: Vec<u32> = vec![f.handles[0]];
                assert(close@ =~= seq![f.handles@[0]]);
                DmabufStep::Failed {
                    error: MediaError::CaptureError(
                        "DRM_IOCTL_PRIME_HANDLE_TO_FD failed: ".to_owned().concat(t.as_str()),
                    ),
                    close,
                }
            },
            DmabufProgress::Exported(f, Ok(fd), timestamp_us) => {
                let close: Vec<u32> = close_list(&f.handles);
                let stride: u32 = f.pitches[0];
                let size: usize = stride as usize * f.height as usize;
                let frame = CapturedFrame {
                    buffer: GpuBuffer::DmaBuf {
                        fd,
                        offset: f.offsets[0],
                        stride,
                        modifier: f.modifier[0],
                        size,
                        width: f.width,
                        height: f.height,
                        fourcc: f.pixel_format,
                    },
                    timestamp_us,
                    width: f.width,
                    height: f.height,
                    format: fourcc_to_pixel_format(f.pixel_format),
                    is_new_frame: true,
                    cursor: None,
                };
                DmabufStep::Done { frame, close }
            },
        }
    }

    /// Stops capturing.
    pub fn stop(&mut self)
        ensures
            *final(self) == (DrmCapture { capturing: false, ..*old(self) }),
    {
        self.capturing = false;
    }

    /// Whether a capture is running.
    pub fn is_capturing(&self) -> (b: bool)
        ensures
            b == self.capturing,
    {
        self.capturing
    }
}

proof fn lemma_closes(handles: Seq<u32>, planes: int, i: int)
    requires
        handles.len() == 4,
        1 <= planes <= 4,
        0 <= i < planes,
        handles[i] != 0,
    ensures
        handles_to_close(handles, planes).contains(handles[i]),
    decreases planes,
{
    let all = handles_to_close(handles, planes);
    if planes == 1 {
        assert(all[0] == handles[0]);
    } else {
        let r = handles_to_close(handles, planes - 1);
        if i < planes - 1 || handles[i] == handles[0] {
            let j = if i < planes - 1 {
                i
            } else {
                0
            };
            lemma_closes(handles, planes - 1, j);
            let k = choose|k: int| 0 <= k < r.len() && r[k] == handles[j];
            assert(all[k] == handles[i]);
        } else {
            assert(all.last() == handles[i]);
        }
    }
}

/// Every handle of a framebuffer is closed once its frame was exported.
pub proof fn law_every_handle_is_closed(handles: Seq<u32>, i: int)
    requires
        handles.len() == 4,
        0 <= i < 4,
        handles[i] != 0,
    ensures
        handles_to_close(handles, 4).contains(handles[i]),
{
    lemma_closes(handles, 4, i);
}

proof fn lemma_first_active(crtcs: Seq<Option<Crtc>>)
    ensures
        match first_active(crtcs) {
            Some(a) => exists|i: int|
                0 <= i < crtcs.len() && (#[trigger] crtcs[i]) is Some && active_crtc(crtcs[i]->0)
                    == Some(a) && forall|j: int|
                    0 <= j < i ==> (#[trigger] crtcs[j]) is None || active_crtc(crtcs[j]->0) is None,
            None => forall|j: int|
                0 <= j < crtcs.len() ==> (#[trigger] crtcs[j]) is None || active_crtc(crtcs[j]->0)
                    is None,
        },
    decreases crtcs.len(),
{
    if crtcs.len() > 0 {
        let t = crtcs.skip(1);
        if crtcs[0] is Some && active_crtc(crtcs[0]->0) is Some {
            assert(crtcs[0] is Some);
        } else {
            lemma_first_active(t);
            match first_active(t) {
                Some(a) => {
                    let i = choose|i: int|
                        0 <= i < t.len() && (#[trigger] t[i]) is Some && active_crtc(t[i]->0)
                            == Some(a) && forall|j: int|
                            0 <= j < i ==> (#[trigger] t[j]) is None || active_crtc(t[j]->0)
                                is None;
                    assert(crtcs[i + 1] == t[i]);
                    assert forall|j: int| 0 <= j < i + 1 implies (#[trigger] crtcs[j]) is None
                        || active_crtc(crtcs[j]->0) is None by {
                        if j > 0 {
                            assert(crtcs[j] == t[j - 1]);
                        }
                    }
                },
                None => {
                    assert forall|j: int| 0 <= j < crtcs.len() implies (#[trigger] crtcs[j]) is None
                        || active_crtc(crtcs[j]->0) is None by {
                        if j > 0 {
                            assert(crtcs[j] == t[j - 1]);
                        }
                    }
                },
            }
        }
    }
}

/// The controller that is captured is the first that shows a framebuffer in a valid mode:
/// with its own number and size, and its rate where it is known, else 60. None is found only
/// where none shows anything.
pub proof fn law_the_first_controller_that_shows_is_captured(crtcs: Seq<Option<Crtc>>)
    ensures
        match first_active(crtcs) {
            Some(a) => exists|i: int|
                #![trigger crtcs[i]]
                0 <= i < crtcs.len() && (crtcs[i] matches Some(c) && c.fb_id != 0 && c.mode_valid
                    != 0 && a.crtc_id == c.crtc_id && a.width == c.hdisplay && a.height
                    == c.vdisplay && (c.vrefresh > 0 ==> a.refresh_rate == c.vrefresh) && (
                c.vrefresh == 0 ==> a.refresh_rate == 60)) && forall|j: int|
                    0 <= j < i ==> (#[trigger] crtcs[j] matches Some(c) ==> c.fb_id == 0
                        || c.mode_valid == 0),
            None => forall|j: int|
                0 <= j < crtcs.len() ==> (#[trigger] crtcs[j] matches Some(c) ==> c.fb_id == 0
                    || c.mode_valid == 0),
        },
{
    lemma_first_active(crtcs);
}

/// A kernel format that spells NV12 or P010 is that format, any other is handled as BGRA.
pub proof fn law_spelled_formats_are_recognized(fourcc: u32)
    ensures
        pixel_format_of(fourcc) == PixelFormat::NV12 <==> fourcc == 'N' as u32 + 0x100 * ('V' as u32)
            + 0x1_0000 * ('1' as u32) + 0x100_0000 * ('2' as u32),
        pixel_format_of(fourcc) == PixelFormat::P010 <==> fourcc == 'P' as u32 + 0x100 * ('0' as u32)
            + 0x1_0000 * ('1' as u32) + 0x100_0000 * ('0' as u32),
{
}

/// A frame is the framebuffer that the controller shows: asked for by the controller's
/// number, laid out as the driver says of its first plane, under the exported descriptor. It
/// is new. The handle that was exported is closed in any case, whether the export worked or
/// not, and nothing is closed before there is a handle.
pub proof fn law_the_shown_framebuffer_is_captured(
    c: DrmCapture,
    fb_id: u32,
    f: Framebuffer,
    fd: Result<i32, String>,
    timestamp_us: u64,
    a: DmabufStep,
    b: DmabufStep,
    d: DmabufStep,
    e: DmabufStep,
)
    requires
        fb_id != 0,
        f.handles@[0] != 0,
        f.pitches@[0] * f.height <= usize::MAX,
        dmabuf_goes_on(c, DmabufProgress::Start, a),
        dmabuf_goes_on(c, DmabufProgress::Crtc(Ok(fb_id)), b),
        dmabuf_goes_on(c, DmabufProgress::Layout(Ok(f)), d),
        dmabuf_goes_on(c, DmabufProgress::Exported(f, fd, timestamp_us), e),
    ensures
        a == DmabufStep::GetCrtc(c.crtc_id),
        b == DmabufStep::GetFb2(fb_id),
        d is Export && d->Export_0 == f.handles@[0] && d->Export_1 == 0x8_0002,
        fd is Ok <==> e is Done,
        fd is Err ==> e is Failed && e->Failed_close@ == seq![f.handles@[0]],
        fd is Ok ==> {
            let g = e->frame;
            &&& g.buffer is DmaBuf && g.buffer->fd == fd->Ok_0
            &&& g.buffer->offset == f.offsets@[0] && g.buffer->DmaBuf_stride == f.pitches@[0]
            &&& g.buffer->modifier == f.modifier@[0] && g.buffer->fourcc == f.pixel_format
            &&& g.buffer->DmaBuf_size == f.pitches@[0] * f.height
            &&& g.buffer->DmaBuf_width == f.width && g.buffer->DmaBuf_height == f.height
            &&& g.width == f.width && g.height == f.height
            &&& g.is_new_frame && g.timestamp_us == timestamp_us && g.cursor is None
            &&& e->Done_close@.contains(f.handles@[0])
        },
{
    assert(0x8_0000u32 | 0x02u32 == 0x8_0002) by (bit_vector);
    if fd is Ok {
        law_every_handle_is_closed(f.handles@, 0);
    }
}

proof fn lemma_only_handles(handles: Seq<u32>, planes: int)
    requires
        handles.len() == 4,
        1 <= planes <= 4,
    ensures
        forall|k: int|
            0 <= k < handles_to_close(handles, planes).len() ==> handles.contains(
                #[trigger] handles_to_close(handles, planes)[k],
            ),
        forall|k: int|
            0 < k < handles_to_close(handles, planes).len() ==> #[trigger] handles_to_close(
                handles,
                planes,
            )[k] != 0 && handles_to_close(handles, planes)[k] != handles[0],
        handles_to_close(handles, planes).len() >= 1,
        handles_to_close(handles, planes)[0] == handles[0],
    decreases planes,
{
    if planes > 1 {
        lemma_only_handles(handles, planes - 1);
        assert(handles.contains(handles[planes - 1]));
    } else {
        assert(handles.contains(handles[0]));
    }
}

/// Only handles of the framebuffer are closed, the first plane's once, and none that is not
/// there.
pub proof fn law_only_its_handles_are_closed(handles: Seq<u32>, k: int)
    requires
        handles.len() == 4,
        0 <= k < handles_to_close(handles, 4).len(),
        handles[0] != 0,
    ensures
        handles.contains(handles_to_close(handles, 4)[k]),
        handles_to_close(handles, 4)[k] != 0,
        handles_to_close(handles, 4)[k] == handles[0] <==> k == 0,
{
    lemma_only_handles(handles, 4);
}

/// A layout can be read where the controller shows a framebuffer and the driver told of it;
/// the handle that came with it is to be closed. Where the driver refused for want of rights,
/// the error says so.
pub proof fn law_a_tried_layout_is_closed(
    fb_id: Option<u32>,
    layout: Result<Framebuffer, (i32, String)>,
    r: Result<Option<u32>, MediaError>,
)
    requires
        layout_tried(fb_id, layout, r),
    ensures
        r is Ok <==> fb_id is Some && fb_id->0 != 0 && layout is Ok,
        r is Ok ==> (r->Ok_0 is Some <==> layout->Ok_0.handles@[0] != 0),
        r is Ok && r->Ok_0 is Some ==> r->Ok_0->0 == layout->Ok_0.handles@[0],
        r is Err && fb_id is Some && fb_id->0 != 0 ==> ((layout->Err_0).0 == 13
            <==> r->Err_0@ is PermissionDenied),
{
}

/// What starting a capture comes to.
pub open spec fn drm_started(
    before: DrmCapture,
    after: DrmCapture,
    config: StreamConfig,
    r: Result<(), MediaError>,
) -> bool {
    match r {
        Err(e) => before.capturing && e@ == ErrorView::CaptureAlreadyStarted && after == before,
        Ok(()) => !before.capturing && after == (DrmCapture {
            fps: config.fps,
            capturing: true,
            ..before
        }),
    }
}

/// How the next frame begins.
pub open spec fn drm_next(c: DrmCapture, r: Result<DmabufStep, MediaError>) -> bool {
    match r {
        Err(e) => !c.capturing && e@ == ErrorView::CaptureNotStarted,
        Ok(s) => c.capturing && s == DmabufStep::GetCrtc(c.crtc_id),
    }
}

/// The control codes name the driver, `d`, and differ: a call that only closes something is
/// written to the driver, every other one is answered.
pub proof fn law_codes_tell_calls_apart(a: DrmCall, b: DrmCall)
    ensures
        call_code(a) / 0x100 % 0x100 == 'd' as u32,
        a != b ==> call_code(a) % 0x100 != call_code(b) % 0x100,
        call_code(a) / 0x4000_0000 == (if a is GemClose {
            1int
        } else {
            3int
        }),
        (a is GetCrtc && b is GetFb2) ==> call_code(a) / 0x100 == call_code(b) / 0x100,
{
}

/// A capture that was started gives frames of the controller that was found, and is not
/// started again; it keeps the size that the controller shows.
pub proof fn law_a_started_capture_gives_frames(
    a: DrmCapture,
    b: DrmCapture,
    config: StreamConfig,
    next: Result<DmabufStep, MediaError>,
    c: DrmCapture,
    again: Result<(), MediaError>,
    early: Result<DmabufStep, MediaError>,
)
    requires
        drm_started(a, b, config, Ok(())),
        drm_next(a, early),
        drm_next(b, next),
        drm_started(b, c, config, again),
    ensures
        early is Err,
        next == Ok::<DmabufStep, MediaError>(DmabufStep::GetCrtc(a.crtc_id)),
        again is Err && c == b,
        b.fps == config.fps && b.width == a.width && b.height == a.height,
{
}

} // verus!
