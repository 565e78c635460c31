//! Screen capture: frames, the choice of a backend and the cursor in a frame.

pub mod command;
pub mod egl_import;
pub mod gpu_buffer;
pub mod linux_drm;
pub mod linux_nvfbc;
pub mod linux_wayland;
pub mod linux_x11;
pub mod overlay;
pub mod virtual_display;
pub mod windows;

use crate::capture::gpu_buffer::GpuBuffer;
use crate::error::{ErrorView, MediaError};
use crate::text::{is_switched_on, switched_on};
use crate::types::{CursorImage, PixelFormat};
use crate::Platform;
use vstd::prelude::*;

verus! {

/// A captured frame.
#[derive(Debug)]
pub struct CapturedFrame {
    pub buffer: GpuBuffer,
    /// Time of capture in microseconds.
    pub timestamp_us: u64,
    pub width: u32,
    pub height: u32,
    pub format: PixelFormat,
    /// The picture differs from the last one.
    pub is_new_frame: bool,
    /// The cursor, where the backend knows it.
    pub cursor: Option<FrameCursorMeta>,
}

/// The cursor in a captured frame.
#[derive(Debug, Clone)]
pub struct FrameCursorMeta {
    pub x: i32,
    pub y: i32,
    pub hotspot_x: i32,
    pub hotspot_y: i32,
    pub visible: bool,
    /// The picture, present when it changed.
    pub image: Option<CursorImage>,
}

/// Whether `f` is a frame in memory, in BGRA and without a cursor, with the given
/// parts.
pub open spec fn is_cpu_frame(
    f: CapturedFrame,
    bytes: Seq<u8>,
    stride: u32,
    width: u32,
    height: u32,
    timestamp_us: u64,
    is_new_frame: bool,
) -> bool {
    &&& f.timestamp_us == timestamp_us
    &&& f.width == width
    &&& f.height == height
    &&& f.format == PixelFormat::BGRA
    &&& f.is_new_frame == is_new_frame
    &&& f.cursor is None
    &&& f.buffer matches GpuBuffer::CpuBuffer { data, stride: s, format, width: w, height: h }
    &&& data@ == bytes
    &&& s == stride
    &&& format == PixelFormat::BGRA
    &&& w == width
    &&& h == height
}

/// A frame in memory, in BGRA and without a cursor.
pub fn cpu_frame(
    data: Vec<u8>,
    stride: u32,
    width: u32,
    height: u32,
    timestamp_us: u64,
    is_new_frame: bool,
) -> (f: CapturedFrame)
    ensures
        is_cpu_frame(f, data@, stride, width, height, timestamp_us, is_new_frame),
{
    CapturedFrame {
        buffer: GpuBuffer::CpuBuffer { data, stride, format: PixelFormat::BGRA, width, height },
        timestamp_us,
        width,
        height,
        format: PixelFormat::BGRA,
        is_new_frame,
        cursor: None,
    }
}

/// Whether the host's cursor is drawn into the frames of a Linux host: not if
/// it is hidden, else as the switch says.
pub fn should_embed_host_cursor(hide_set: bool, embed: Option<&str>) -> (b: bool)
    ensures
        b == (!hide_set && (embed matches Some(v) && switched_on(v@))),
{
    if hide_set {
        return false;
    }
    match embed {
        Some(v) => is_switched_on(v),
        None => false,
    }
}

/// A capture backend.
#[derive(Debug, Clone, Copy, PartialEq, Eq, Structural)]
pub enum CaptureBackend {
    Nvfbc,
    Drm,
    PipeWire,
    X11,
    WindowsScreen,
    ScreenCaptureKit,
}

/// The backends of a platform in the order in which they are tried.
pub open spec fn backends(platform: Platform) -> Seq<CaptureBackend> {
    match platform {
        Platform::Linux => seq![
            CaptureBackend::Nvfbc,
            CaptureBackend::Drm,
            CaptureBackend::PipeWire,
            CaptureBackend::X11,
        ],
        Platform::Windows => seq![CaptureBackend::WindowsScreen],
        Platform::MacOs => seq![CaptureBackend::ScreenCaptureKit],
        Platform::Other => Seq::empty(),
    }
}

/// How choosing a backend goes on.
#[derive(Debug)]
pub enum BackendChoice {
    /// Try to make this one.
    Try(CaptureBackend),
    Failed(MediaError),
}

/// What to do after `errors` of a platform's backends could not be made: try the next one,
/// or fail with the last error.
pub open spec fn backend_after(platform: Platform, errors: Seq<ErrorView>) -> Result<
    CaptureBackend,
    ErrorView,
> {
    if errors.len() < backends(platform).len() {
        Ok(backends(platform)[errors.len() as int])
    } else if errors.len() > 0 {
        Err(errors.last())
    } else {
        Err(ErrorView::PlatformNotSupported("Unsupported OS"@))
    }
}

/// Chooses a screen capture backend: after `failures` backends of the platform
/// could not be made, the next one, or the last one's error.
pub fn create_screen_capture(platform: Platform, mut failures: Vec<MediaError>) -> (r:
    BackendChoice)
    ensures
        match r {
            BackendChoice::Try(b) => backend_after(
                platform,
                failures@.map_values(|e: MediaError| e@),
            ) == Ok::<CaptureBackend, ErrorView>(b),
            BackendChoice::Failed(e) => backend_after(
                platform,
                failures@.map_values(|e: MediaError| e@),
            ) == Err::<CaptureBackend, ErrorView>(e@),
        },
{
    let n: usize = failures.len();
    match platform {
        Platform::Linux => if n == 0 {
            return BackendChoice::Try(CaptureBackend::Nvfbc);
        } else if n == 1 {
            return BackendChoice::Try(CaptureBackend::Drm);
        } else if n == 2 {
            return BackendChoice::Try(CaptureBackend::PipeWire);
        } else if n == 3 {
            return BackendChoice::Try(CaptureBackend::X11);
        },
        Platform::Windows => if n == 0 {
            return BackendChoice::Try(CaptureBackend::WindowsScreen);
        },
        Platform::MacOs => if n == 0 {
            return BackendChoice::Try(CaptureBackend::ScreenCaptureKit);
        },
        Platform::Other => {},
    }
    match failures.pop() {
        Some(e) => BackendChoice::Failed(e),
        None => BackendChoice::Failed(MediaError::PlatformNotSupported("Unsupported OS".to_owned())),
    }
}

/// On Linux the backends that keep frames on the GPU are tried before the one that copies
/// the screen, NVIDIA's first of all and X11 last; the others have one of their own. Each
/// failure leads to the next, none is tried twice, and the last failure is what is reported.
pub proof fn law_backends_are_tried_in_turn(platform: Platform, errors: Seq<ErrorView>)
    ensures
        platform == Platform::Linux ==> {
            &&& errors.len() == 0 ==> backend_after(platform, errors) == Ok::<
                CaptureBackend,
                ErrorView,
            >(CaptureBackend::Nvfbc)
            &&& errors.len() == 1 ==> backend_after(platform, errors) == Ok::<
                CaptureBackend,
                ErrorView,
            >(CaptureBackend::Drm)
            &&& errors.len() == 2 ==> backend_after(platform, errors) == Ok::<
                CaptureBackend,
                ErrorView,
            >(CaptureBackend::PipeWire)
            &&& errors.len() == 3 ==> backend_after(platform, errors) == Ok::<
                CaptureBackend,
                ErrorView,
            >(CaptureBackend::X11)
            &&& errors.len() >= 4 <==> backend_after(platform, errors) is Err
        },
        platform == Platform::Windows && errors.len() == 0 ==> backend_after(platform, errors)
            == Ok::<CaptureBackend, ErrorView>(CaptureBackend::WindowsScreen),
        platform == Platform::MacOs && errors.len() == 0 ==> backend_after(platform, errors)
            == Ok::<CaptureBackend, ErrorView>(CaptureBackend::ScreenCaptureKit),
        platform == Platform::Windows || platform == Platform::MacOs ==> (errors.len() >= 1
            <==> backend_after(platform, errors) is Err),
        platform == Platform::Other ==> backend_after(platform, errors) is Err,
        backend_after(platform, errors) is Err && errors.len() > 0 ==> backend_after(
            platform,
            errors,
        )->Err_0 == errors[errors.len() - 1],
{
}

/// A frame in memory says of itself and of its buffer the same: its size, its format, its
/// bytes and their rows.
pub proof fn law_a_memory_frame_is_what_it_holds(
    f: CapturedFrame,
    bytes: Seq<u8>,
    stride: u32,
    width: u32,
    height: u32,
    timestamp_us: u64,
    is_new_frame: bool,
)
    requires
        is_cpu_frame(f, bytes, stride, width, height, timestamp_us, is_new_frame),
    ensures
        f.buffer is CpuBuffer,
        f.buffer->CpuBuffer_width == f.width && f.width == width,
        f.buffer->CpuBuffer_height == f.height && f.height == height,
        f.buffer->CpuBuffer_format == f.format && f.format == PixelFormat::BGRA,
        f.buffer->CpuBuffer_data@ == bytes,
        f.buffer->CpuBuffer_stride == stride,
        f.timestamp_us == timestamp_us,
        f.is_new_frame == is_new_frame,
        f.cursor is None,
{
}

} // verus!
