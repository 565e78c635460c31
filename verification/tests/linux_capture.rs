use drm_fourcc::DrmFourcc;
use lunaris_media::capture::egl_import::{
    config_attribs, context_attribs, create_display, egl_failure, import_attributes,
    pbuffer_attribs, readback_size, DisplayChoice, DisplaySource, DmabufSource, EglFailure,
    EglImporter, ImportFailure, ImportStep, ImportWay, EGL_NONE,
};
use lunaris_media::capture::gpu_buffer::GpuBuffer;
use lunaris_media::capture::linux_drm::{
    find_active_crtc, fourcc_to_pixel_format, ioctl_code, iow, iowr, open_drm_device,
    verify_getfb2, ActiveCrtc, Crtc, DeviceChoice, DmabufProgress, DmabufStep, DrmCall, DrmCapture,
    Framebuffer, Resources,
};
use lunaris_media::capture::linux_nvfbc::{
    cuda_frame, cuda_library, init_capturer, session_failure, session_params, set_up_call,
    system_frame, try_init_cuda, CapturerKind, CapturerProgress, CapturerStep, CommandAction,
    CudaSetup, NvfbcCapture, NvfbcCommand, NvfbcOutput, NvfbcStatus, NvfbcThread, SessionCall,
    ThreadReply, ThreadStep, Tracking,
};
use lunaris_media::capture::linux_wayland::{
    buffer_frame, convert_cursor_bitmap_to_rgba, extract_cursor_meta, keeps_token, no_format,
    param_changed, parse_format, plan_buffer, portal_failure, restore_token_path, saved_token,
    spa_video_format_to_drm_fourcc, BufferPlan, PipeWireCapture, PortalCall, SpaData,
};
use lunaris_media::capture::{
    create_screen_capture, should_embed_host_cursor, BackendChoice, CaptureBackend,
};
use lunaris_media::{MediaError, PixelFormat, Platform, StreamConfig};

fn capture_error(s: &str) -> MediaError {
    MediaError::CaptureError(s.to_string())
}

// ---- Choosing a backend ----

#[test]
fn backends_are_tried_in_order() {
    let failures = |n: usize| -> Vec<MediaError> {
        (1..=n).map(|i| capture_error(&format!("failure {}", i))).collect()
    };
    let mut tried = Vec::new();
    while let BackendChoice::Try(b) =
        create_screen_capture(Platform::Linux, failures(tried.len()))
    {
        tried.push(b);
    }
    assert_eq!(
        tried,
        vec![
            CaptureBackend::Nvfbc,
            CaptureBackend::Drm,
            CaptureBackend::PipeWire,
            CaptureBackend::X11,
        ]
    );
    match create_screen_capture(Platform::Linux, failures(4)) {
        BackendChoice::Failed(e) => assert_eq!(e, capture_error("failure 4")),
        _ => panic!("another backend"),
    }
    match create_screen_capture(Platform::Other, vec![]) {
        BackendChoice::Failed(e) => {
            assert_eq!(e, MediaError::PlatformNotSupported("Unsupported OS".to_string()))
        }
        _ => panic!("a backend"),
    }
}

#[test]
fn the_host_cursor_is_embedded_on_request() {
    assert!(should_embed_host_cursor(false, Some("1")));
    assert!(!should_embed_host_cursor(true, Some("1")));
    assert!(!should_embed_host_cursor(false, Some("off")));
    assert!(!should_embed_host_cursor(false, None));
}

// ---- DRM ----

#[test]
fn ioctl_numbers_are_the_kernel_ones() {
    assert_eq!(ioctl_code(DrmCall::GetResources), 0xc040_64a0);
    assert_eq!(ioctl_code(DrmCall::GetCrtc), 0xc068_64a1);
    assert_eq!(ioctl_code(DrmCall::GetFb2), 0xc068_64ce);
    assert_eq!(ioctl_code(DrmCall::PrimeHandleToFd), 0xc00c_642d);
    assert_eq!(ioctl_code(DrmCall::GemClose), 0x4008_6409);
    assert_eq!(iowr(0x64, 0xa0, 64), 0xc040_64a0);
    assert_eq!(iow(0x64, 9, 8), 0x4008_6409);
}

#[test]
fn fourcc_codes_have_pixel_formats() {
    for code in [DrmFourcc::Xrgb8888, DrmFourcc::Argb8888, DrmFourcc::Xbgr8888, DrmFourcc::Abgr8888]
    {
        assert_eq!(fourcc_to_pixel_format(code as u32), PixelFormat::BGRA);
    }
    assert_eq!(fourcc_to_pixel_format(DrmFourcc::Nv12 as u32), PixelFormat::NV12);
    assert_eq!(fourcc_to_pixel_format(DrmFourcc::P010 as u32), PixelFormat::P010);
    assert_eq!(fourcc_to_pixel_format(DrmFourcc::Yuyv as u32), PixelFormat::BGRA);
    assert_eq!(fourcc_to_pixel_format(0), PixelFormat::BGRA);
}

#[test]
fn drm_devices_are_tried() {
    match (open_drm_device(0), open_drm_device(1)) {
        (DeviceChoice::Try(a), DeviceChoice::Try(b)) => {
            assert_eq!((a.as_str(), b.as_str()), ("/dev/dri/card1", "/dev/dri/card0"))
        }
        _ => panic!("no device"),
    }
    match open_drm_device(2) {
        DeviceChoice::Failed(e) => assert_eq!(
            e,
            capture_error(
                "No DRM device available. Check /dev/dri/card* permissions or run as root."
            )
        ),
        _ => panic!("another device"),
    }
}

fn crtc(id: u32, fb_id: u32, valid: u32) -> Crtc {
    Crtc { crtc_id: id, fb_id, mode_valid: valid, hdisplay: 1920, vdisplay: 1080, vrefresh: 60 }
}

#[test]
fn the_first_lit_crtc_is_taken() {
    let v = vec![None, Some(crtc(1, 0, 1)), Some(crtc(2, 9, 0)), Some(crtc(3, 9, 1)), None];
    let a = find_active_crtc(&Resources::Crtcs(v)).unwrap();
    assert_eq!((a.crtc_id, a.width, a.height, a.refresh_rate), (3, 1920, 1080, 60));
    assert_eq!(
        find_active_crtc(&Resources::Crtcs(vec![None])).unwrap_err(),
        MediaError::NoDisplayFound
    );
    assert_eq!(
        find_active_crtc(&Resources::CountFailed("x".to_string())).unwrap_err(),
        capture_error("DRM_IOCTL_MODE_GETRESOURCES (count) failed: x")
    );
    assert_eq!(
        find_active_crtc(&Resources::FetchFailed("x".to_string())).unwrap_err(),
        capture_error("DRM_IOCTL_MODE_GETRESOURCES (fetch) failed: x")
    );
}

fn layout(handles: [u32; 4]) -> Framebuffer {
    Framebuffer {
        width: 4,
        height: 2,
        pixel_format: DrmFourcc::Nv12 as u32,
        handles,
        pitches: [16, 0, 0, 0],
        offsets: [8, 0, 0, 0],
        modifier: [7, 0, 0, 0],
    }
}

#[test]
fn reading_a_framebuffer_needs_permission() {
    assert_eq!(verify_getfb2(Some(5), &Ok(layout([3, 0, 0, 0]))), Ok(Some(3)));
    assert_eq!(verify_getfb2(Some(5), &Ok(layout([0, 0, 0, 0]))), Ok(None));
    assert!(matches!(
        verify_getfb2(Some(5), &Err((libc::EACCES, "denied".to_string()))),
        Err(MediaError::PermissionDenied(_))
    ));
    assert_eq!(
        verify_getfb2(Some(5), &Err((22, "invalid".to_string()))),
        Err(capture_error("DRM_IOCTL_MODE_GETFB2 failed: invalid"))
    );
    assert_eq!(
        verify_getfb2(Some(0), &Ok(layout([3, 0, 0, 0]))),
        Err(capture_error("Cannot read active framebuffer from CRTC"))
    );
}

#[test]
fn every_opened_handle_is_closed() {
    let found = ActiveCrtc { crtc_id: 42, width: 4, height: 2, refresh_rate: 60 };
    let mut c = DrmCapture::new(Ok(found), Ok(None)).unwrap();
    assert!(matches!(c.next_frame(), Err(MediaError::CaptureNotStarted)));
    assert_eq!(c.list_displays()[0].id, "drm-crtc-42");
    assert_eq!(c.list_displays()[0].name, "DRM Display (CRTC 42)");
    c.start(&StreamConfig::default()).unwrap();
    assert_eq!(c.start(&StreamConfig::default()), Err(MediaError::CaptureAlreadyStarted));
    assert!(matches!(c.next_frame(), Ok(DmabufStep::GetCrtc(42))));
    assert!(matches!(c.capture_dmabuf(DmabufProgress::Crtc(Ok(6))), DmabufStep::GetFb2(6)));
    match c.capture_dmabuf(DmabufProgress::Layout(Ok(layout([3, 3, 4, 0])))) {
        DmabufStep::Export(3, flags) => assert_eq!(flags, 0x8_0002),
        _ => panic!("no export"),
    }
    match c.capture_dmabuf(DmabufProgress::Exported(layout([3, 3, 4, 0]), Ok(10), 99)) {
        DmabufStep::Done { frame, close } => {
            assert_eq!(close, vec![3, 4]);
            assert_eq!((frame.timestamp_us, frame.format), (99, PixelFormat::NV12));
            match frame.buffer {
                GpuBuffer::DmaBuf { fd, offset, stride, modifier, size, .. } => {
                    assert_eq!((fd, offset, stride, modifier, size), (10, 8, 16, 7, 32))
                }
                _ => panic!("another buffer"),
            }
        }
        _ => panic!("no frame"),
    }
    let failed = DmabufProgress::Exported(layout([3, 0, 0, 0]), Err("x".to_string()), 0);
    match c.capture_dmabuf(failed) {
        DmabufStep::Failed { error, close } => {
            assert_eq!(error, capture_error("DRM_IOCTL_PRIME_HANDLE_TO_FD failed: x"));
            assert_eq!(close, vec![3]);
        }
        _ => panic!("no error"),
    }
    c.stop();
    assert!(!c.is_capturing());
}

// ---- NvFBC ----

#[test]
fn cuda_is_loaded_or_explained() {
    assert_eq!(cuda_library(0), Some("libcuda.so.1"));
    assert_eq!(cuda_library(1), Some("libcuda.so"));
    assert_eq!(cuda_library(2), None);
    assert_eq!(try_init_cuda(&CudaSetup::Ready), Ok(()));
    assert_eq!(
        try_init_cuda(&CudaSetup::NoLibrary),
        Err(("Failed to load libcuda.so.1 or libcuda.so".to_string(), false))
    );
    assert_eq!(
        try_init_cuda(&CudaSetup::Failed("cuInit".to_string(), 100)),
        Err(("cuInit failed with code: 100".to_string(), true))
    );
}

#[test]
fn no_capturer_is_used_after_an_x_error() {
    assert!(matches!(
        init_capturer(&CapturerProgress::Context(false, true)),
        CapturerStep::TrySystem
    ));
    assert!(matches!(
        init_capturer(&CapturerProgress::Context(true, false)),
        CapturerStep::TryCuda
    ));
    assert!(matches!(init_capturer(&CapturerProgress::Cuda(true, true)), CapturerStep::Failed(_)));
    assert!(matches!(
        init_capturer(&CapturerProgress::Cuda(true, false)),
        CapturerStep::Use(CapturerKind::Cuda)
    ));
    assert!(matches!(
        init_capturer(&CapturerProgress::System(Ok(()), true)),
        CapturerStep::Failed(_)
    ));
    match init_capturer(&CapturerProgress::System(Err("x".to_string()), false)) {
        CapturerStep::Failed(t) => {
            assert_eq!(t, "Failed to initialize NvFBC System Capturer: x")
        }
        _ => panic!("no error"),
    }
}

#[test]
fn sessions_follow_the_display() {
    let p = session_params("default", 60, true).unwrap();
    assert_eq!((p.tracking, p.sampling_rate_ms, p.with_cursor), (Tracking::Default, 16, true));
    assert_eq!(session_params("77", 0, false).unwrap().tracking, Tracking::Output(77));
    assert_eq!(session_params("77", 0, false).unwrap().sampling_rate_ms, 1000);
    assert_eq!(
        session_params("DP-1", 60, false).unwrap_err(),
        "Invalid NvFBC output id 'DP-1'".to_string()
    );
    assert_eq!(set_up_call(CapturerKind::Cuda), SessionCall::SetUpCuda);
    assert_eq!(session_failure(SessionCall::Create, 5), "NvFBCCreateCaptureSession failed: 5");
}

#[test]
fn the_thread_grabs_while_it_runs() {
    let mut t = NvfbcThread::new();
    assert_eq!(t.step(), ThreadStep::WaitForCommand);
    assert_eq!(t.on_command(NvfbcCommand::GetStatus, true), CommandAction::ReplyStatus);
    assert_eq!(t.on_command(NvfbcCommand::Start, true), CommandAction::StartSession);
    t.session_started(true);
    assert_eq!(t.step(), ThreadStep::Grab);
    t.frame_sent(false);
    assert_eq!(t.on_command(NvfbcCommand::Stop, false), CommandAction::StopSession);
    assert_eq!(t.step(), ThreadStep::WaitForCommand);
    assert_eq!(t.on_command(NvfbcCommand::Stop, true), CommandAction::ReplyDone);
    t.session_started(true);
    t.frame_sent(true);
    assert_eq!(t.step(), ThreadStep::WaitForCommand);
}

fn status(possible: bool) -> NvfbcStatus {
    NvfbcStatus {
        is_capture_possible: possible,
        screen_width: 800,
        screen_height: 600,
        outputs: vec![],
    }
}

#[test]
fn nvfbc_says_what_went_wrong() {
    assert!(NvfbcCapture::check_session(Some("x11")).is_ok());
    assert!(NvfbcCapture::check_session(None).is_ok());
    assert!(matches!(
        NvfbcCapture::check_session(Some("wayland")),
        Err(MediaError::PlatformNotSupported(_))
    ));
    assert_eq!(
        NvfbcCapture::new(ThreadReply::NoReply, ThreadReply::NotSent).err().unwrap(),
        capture_error("NvFBC thread panicked during setup")
    );
    assert_eq!(
        NvfbcCapture::new(ThreadReply::Done(()), ThreadReply::Done(status(false))).err().unwrap(),
        capture_error("NvFBC capture is not supported by the graphics driver or hardware.")
    );
    let mut c = NvfbcCapture::new(ThreadReply::Done(()), ThreadReply::Done(status(true))).unwrap();
    assert_eq!((c.width, c.height, c.fps), (800, 600, 60));
    let list = c.list_displays(ThreadReply::Done(status(true))).unwrap();
    assert_eq!((list[0].id.as_str(), list[0].width), ("default", 800));
    let mut s = status(true);
    s.outputs.push(NvfbcOutput { id: 5, name: "DP-0".to_string(), width: 3, height: 4 });
    s.outputs.push(NvfbcOutput { id: 6, name: "DP-2".to_string(), width: 5, height: 6 });
    let list = c.list_displays(ThreadReply::Done(s)).unwrap();
    assert_eq!((list[1].id.as_str(), list[1].name.as_str()), ("6", "DP-2"));
    assert!(list[0].is_primary && !list[1].is_primary);
    assert!(matches!(c.next_frame(None), Err(MediaError::CaptureNotStarted)));
    c.start(&StreamConfig::default()).unwrap();
    assert_eq!(
        c.started(ThreadReply::Failed("x".to_string())),
        Err(capture_error("Failed to start NvFBC session: x"))
    );
    assert!(!c.is_capturing());
    c.started(ThreadReply::Done(())).unwrap();
    assert_eq!(c.next_frame(None).err().unwrap(), capture_error("Frame channel closed"));
    assert!(c.set_fps(30));
    assert!(!c.set_fps(30));
    assert!(c.stop());
    assert!(!c.stop());
}

#[test]
fn nvfbc_frames_have_four_bytes_a_pixel() {
    let f = system_frame(vec![1; 16], 2, 2, false, 5);
    assert!(!f.is_new_frame);
    match f.buffer {
        GpuBuffer::CpuBuffer { stride, .. } => assert_eq!(stride, 8),
        _ => panic!("not in memory"),
    }
    match cuda_frame(9, 16, 2, 2, true, 5).buffer {
        GpuBuffer::CudaPointer { ptr, size, stride, .. } => {
            assert_eq!((ptr, size, stride), (9, 16, 8))
        }
        _ => panic!("not on the device"),
    }
}

// ---- PipeWire ----

fn prop(key: u32, kind: u32, value: &[u8]) -> Vec<u8> {
    let mut v = Vec::new();
    v.extend_from_slice(&key.to_le_bytes());
    v.extend_from_slice(&[0; 12]);
    v.extend_from_slice(&(value.len() as u32).to_le_bytes());
    v.extend_from_slice(&kind.to_le_bytes());
    v.extend_from_slice(value);
    while v.len() % 8 != 0 {
        v.push(0);
    }
    v
}

fn object(props: &[Vec<u8>]) -> Vec<u8> {
    let body: Vec<u8> = props.concat();
    let mut v = Vec::new();
    v.extend_from_slice(&(body.len() as u32 + 8).to_le_bytes());
    v.extend_from_slice(&15u32.to_le_bytes());
    v.extend_from_slice(&[0; 8]);
    v.extend_from_slice(&body);
    v
}

#[test]
fn formats_are_read_from_objects() {
    let pod = object(&[
        prop(1, 3, &[1, 0, 0, 0]),
        prop(2, 3, &8u32.to_le_bytes()),
        prop(3, 5, &0x0102_0304_0506_0708u64.to_le_bytes()),
    ]);
    let f = parse_format(&pod);
    assert_eq!((f.fourcc, f.modifier, f.format_ready), (0x3432_5258, 0x0102_0304_0506_0708, true));
    let mut g = no_format();
    assert!(!g.format_ready);
    param_changed(&mut g, 5, Some(&pod));
    param_changed(&mut g, 4, None);
    assert_eq!(g, no_format());
    param_changed(&mut g, 4, Some(&pod));
    assert_eq!(g, f);
    let wrong = parse_format(&object(&[prop(2, 4, &8u32.to_le_bytes())]));
    assert_eq!((wrong.fourcc, wrong.modifier), (0x3432_5241, 0));
    assert!(parse_format(&[]).format_ready);
}

#[test]
fn video_formats_have_fourcc_codes() {
    assert_eq!(spa_video_format_to_drm_fourcc(8), DrmFourcc::Xrgb8888 as u32);
    assert_eq!(spa_video_format_to_drm_fourcc(7), DrmFourcc::Xbgr8888 as u32);
    assert_eq!(spa_video_format_to_drm_fourcc(11), DrmFourcc::Abgr8888 as u32);
    assert_eq!(spa_video_format_to_drm_fourcc(12), DrmFourcc::Argb8888 as u32);
    assert_eq!(spa_video_format_to_drm_fourcc(99), DrmFourcc::Argb8888 as u32);
}

#[test]
fn cursor_bitmaps_become_rgba() {
    let raw = [1, 2, 3, 4, 5, 6, 7, 8];
    let one = |format| convert_cursor_bitmap_to_rgba(&raw, format, 2, 1, 8).unwrap();
    assert_eq!(one(12), vec![3, 2, 1, 4, 7, 6, 5, 8]);
    assert_eq!(one(13), vec![2, 3, 4, 1, 6, 7, 8, 5]);
    assert_eq!(one(8), vec![3, 2, 1, 255, 7, 6, 5, 255]);
    assert_eq!(one(7), vec![1, 2, 3, 255, 5, 6, 7, 255]);
    assert_eq!(one(11), raw.to_vec());
    assert_eq!(convert_cursor_bitmap_to_rgba(&raw, 11, 2, 1, 9), None);
    let padded = convert_cursor_bitmap_to_rgba(&raw, 11, 1, 2, 4).unwrap();
    assert_eq!(padded, raw.to_vec());
}

fn cursor_meta(id: u32, bitmap_offset: u32) -> Vec<u8> {
    let mut v = Vec::new();
    for n in [id, 0, 100, 200, 3, 4, bitmap_offset] {
        v.extend_from_slice(&n.to_le_bytes());
    }
    for n in [12u32, 1, 1, 4, 20] {
        v.extend_from_slice(&n.to_le_bytes());
    }
    v.extend_from_slice(&[10, 20, 30, 40]);
    v
}

#[test]
fn buffers_carry_a_cursor() {
    let m = extract_cursor_meta(Some(&cursor_meta(1, 28))).unwrap();
    assert_eq!((m.x, m.y, m.hotspot_x, m.hotspot_y, m.visible), (100, 200, 3, 4, true));
    let i = m.image.unwrap();
    assert_eq!((i.width, i.height, i.rgba_data), (1, 1, vec![30, 20, 10, 40]));
    assert!(extract_cursor_meta(Some(&cursor_meta(1, 0))).unwrap().image.is_none());
    assert!(extract_cursor_meta(Some(&cursor_meta(0, 28))).is_none());
    assert!(extract_cursor_meta(Some(&cursor_meta(1, 28)[..27])).is_none());
    assert!(extract_cursor_meta(None).is_none());
    let mut short = cursor_meta(1, 28);
    short.pop();
    assert!(extract_cursor_meta(Some(&short)).unwrap().image.is_none());
}

#[test]
fn buffers_are_imported_copied_or_skipped() {
    let data =
        SpaData { kind: 3, fd: 9, offset: 1, stride: 16, maxsize: 64, mapped: false };
    let f = no_format();
    assert_eq!(
        plan_buffer(Some(data), f),
        BufferPlan::Import { fd: 9, stride: 16, offset: 1, fourcc: f.fourcc, modifier: 0 }
    );
    let mapped = SpaData { kind: 1, mapped: true, ..data };
    assert_eq!(plan_buffer(Some(mapped), f), BufferPlan::Copy { stride: 16, size: 64 });
    assert_eq!(plan_buffer(Some(SpaData { mapped: false, ..mapped }), f), BufferPlan::Skip);
    assert_eq!(plan_buffer(Some(SpaData { maxsize: 0, ..mapped }), f), BufferPlan::Skip);
    assert_eq!(plan_buffer(None, f), BufferPlan::Skip);
    match buffer_frame(vec![0; 8], None, 2, 1, None, 3).buffer {
        GpuBuffer::CpuBuffer { stride, .. } => assert_eq!(stride, 8),
        _ => panic!("not in memory"),
    }
    match buffer_frame(vec![0; 8], Some(64), 2, 1, None, 3).buffer {
        GpuBuffer::CpuBuffer { stride, .. } => assert_eq!(stride, 64),
        _ => panic!("not in memory"),
    }
}

#[test]
fn the_portal_token_is_kept() {
    assert_eq!(restore_token_path(Some("/c"), Some("/h")), "/c/lunaris/screencast-token");
    assert_eq!(restore_token_path(None, Some("/h")), "/h/.config/lunaris/screencast-token");
    assert_eq!(restore_token_path(None, None), "/.config/lunaris/screencast-token");
    assert_eq!(saved_token(Some(" abc\n")), Some("abc".to_string()));
    assert_eq!(saved_token(Some(" \n")), None);
    assert_eq!(saved_token(None), None);
    assert!(keeps_token(Some("a")));
    assert!(!keeps_token(Some("")));
    assert_eq!(
        portal_failure(PortalCall::Start, "x"),
        capture_error("Failed to start portal: x")
    );
}

#[test]
fn pipewire_needs_wayland() {
    assert!(PipeWireCapture::new(Some("x11"), true).is_ok());
    assert!(PipeWireCapture::new(Some("wayland"), false).is_ok());
    assert!(matches!(
        PipeWireCapture::new(Some("x11"), false),
        Err(MediaError::PlatformNotSupported(_))
    ));
    let mut c = PipeWireCapture::new(None, true).unwrap();
    assert!(matches!(c.next_frame(None), Err(MediaError::CaptureNotStarted)));
    assert_eq!(
        c.started(&vec![]),
        Err(capture_error("No stream returned from portal"))
    );
    assert_eq!(c.started(&vec![7, 8]), Ok(7));
    assert_eq!(c.start(), Err(MediaError::CaptureAlreadyStarted));
    assert!(c.stop());
    assert_eq!(PipeWireCapture::list_displays()[0].id, "default");
}

// ---- EGL ----

#[test]
fn egl_displays_are_tried() {
    for (n, source) in [DisplaySource::Gbm, DisplaySource::Device, DisplaySource::Default]
        .into_iter()
        .enumerate()
    {
        match create_display(n) {
            DisplayChoice::Try(s) => assert_eq!(s, source),
            _ => panic!("no display"),
        }
    }
    assert!(matches!(create_display(3), DisplayChoice::Failed(_)));
    for v in [config_attribs(), pbuffer_attribs(), context_attribs()] {
        assert_eq!(v.last(), Some(&EGL_NONE));
        assert_eq!(v.len() % 2, 1);
    }
    assert_eq!(
        egl_failure(&EglFailure::Initialize(0x3001)),
        capture_error("eglInitialize failed: 0x3001")
    );
    assert_eq!(
        egl_failure(&EglFailure::NoSymbol("glFlush".to_string(), "x".to_string())),
        capture_error("Failed to load glFlush: x")
    );
}

#[test]
fn each_import_way_is_tried_once() {
    let s = DmabufSource {
        fd: 4,
        width: 2,
        height: 3,
        stride: 8,
        fourcc: DrmFourcc::Argb8888 as u32,
        offset: 0,
        modifier: 0x1_0000_0002,
    };
    let mut importer = EglImporter::new();
    let mut failures = Vec::new();
    let mut tried = Vec::new();
    while let ImportStep::Try(w, a) = importer.import_dmabuf(s, &failures) {
        assert_eq!(a, import_attributes(s, w));
        tried.push(w);
        failures.push(ImportFailure::NoImage(0x3003));
    }
    assert_eq!(tried, vec![ImportWay::NoModifier, ImportWay::WithModifier, ImportWay::Xrgb8888]);
    match importer.import_dmabuf(s, &failures) {
        ImportStep::Failed(MediaError::CaptureError(t)) => {
            assert!(t.starts_with("All EGL import attempts failed. Last: eglCreateImageKHR("));
            assert!(t.ends_with(") failed: 0x3003"));
        }
        _ => panic!("no error"),
    }
    let a = import_attributes(s, ImportWay::WithModifier);
    assert_eq!(&a[12..], &[0x3443, 2, 0x3444, 1, EGL_NONE]);
    importer.imported(s);
    assert_eq!(importer.cached_modifier, Some(0x1_0000_0002));
    assert_eq!(readback_size(3, 5), 60);
}

#[test]
fn listed_outputs_are_followed() {
    let c = NvfbcCapture { width: 1, height: 1, fps: 60, capturing: false };
    let outputs = [0u32, 7, 10, 4_294_967_295]
        .iter()
        .map(|id| NvfbcOutput { id: *id, name: "x".to_string(), width: 1, height: 1 })
        .collect();
    let status = NvfbcStatus {
        is_capture_possible: true,
        screen_width: 1,
        screen_height: 1,
        outputs,
    };
    let listed = c.list_displays(ThreadReply::Done(status)).unwrap();
    let followed: Vec<Tracking> =
        listed.iter().map(|d| session_params(&d.id, 60, false).unwrap().tracking).collect();
    assert_eq!(
        followed,
        vec![
            Tracking::Output(0),
            Tracking::Output(7),
            Tracking::Output(10),
            Tracking::Output(4_294_967_295),
        ]
    );
}
