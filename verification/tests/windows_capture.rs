use lunaris_media::capture::gpu_buffer::GpuBuffer;
use lunaris_media::capture::overlay::FrameLayout;
use lunaris_media::capture::windows::{
    capture_gdi_failed, draw_cursor_onto_buffer, dxgi_failure, dxgi_missing, find_output,
    is_buffer_black, list_gdi_displays, uses_gdi, Acquired, CursorSample, DesktopOutput, DxgiCall,
    DxgiCapture, DxgiObject, GdiCapture, GdiRelease, GdiStage, WindowsBackend,
    WindowsScreenCapture,
};
use lunaris_media::capture::{cpu_frame, CapturedFrame};
use lunaris_media::{MediaError, StreamConfig};

fn capture_error(s: &str) -> MediaError {
    MediaError::CaptureError(s.to_string())
}

fn output(left: i32, top: i32, width: i32, height: i32, is_primary: bool) -> DesktopOutput {
    let mut device_name: Vec<u16> = "\\\\.\\DISPLAY1".encode_utf16().collect();
    device_name.extend_from_slice(&[0, 65]);
    DesktopOutput { left, top, right: left + width, bottom: top + height, device_name, is_primary }
}

fn bytes_of(f: &CapturedFrame) -> Vec<u8> {
    match &f.buffer {
        GpuBuffer::CpuBuffer { data, .. } => data.clone(),
        _ => panic!("not in memory"),
    }
}

fn white_cursor(x: i32, y: i32) -> CursorSample {
    CursorSample {
        screen_x: x,
        screen_y: y,
        hotspot_x: 0,
        hotspot_y: 0,
        width: 1,
        height: 1,
        color: Some(vec![255, 255, 255, 255]),
        mask: None,
    }
}

#[test]
fn monitors_are_listed() {
    let m = vec![output(-800, 0, 800, 600, false), output(0, 0, 1920, 1080, true)];
    let v = list_gdi_displays(Some(&m)).unwrap();
    assert_eq!((v[0].id.as_str(), v[0].name.as_str()), ("0", "\\\\.\\DISPLAY1"));
    assert_eq!((v[0].width, v[0].height, v[0].is_primary), (800, 600, false));
    assert!(v[1].is_primary);
    assert_eq!(list_gdi_displays(None).unwrap_err(), capture_error("EnumDisplayMonitors failed"));
    let d = DxgiCapture::list_displays(&m).unwrap();
    assert!(d[0].is_primary && !d[1].is_primary);
    assert_eq!(
        DxgiCapture::list_displays(&vec![]).unwrap_err(),
        capture_error("No DXGI outputs found")
    );
    let fallback = WindowsScreenCapture::list_displays(Err(MediaError::Timeout), Some(&m)).unwrap();
    assert_eq!(fallback.len(), 2);
}

#[test]
fn outputs_are_found_by_number() {
    assert_eq!(find_output("1", 2), Ok(1));
    assert_eq!(find_output("not a number", 2), Ok(0));
    assert_eq!(find_output("2", 2), Err(capture_error("Display 2 not found")));
    let m = vec![output(0, 0, 1, 1, true)];
    assert_eq!(DxgiCapture::new().choose_output("0", &m), Ok(0));
    assert_eq!(
        DxgiCapture::new().choose_output("3", &m),
        Err(capture_error("Display 3 not found"))
    );
}

#[test]
fn failures_are_described() {
    assert_eq!(
        dxgi_failure(DxgiCall::Duplicate, "busy"),
        capture_error(
            "DuplicateOutput failed: busy. Ensure no other app is using Desktop Duplication."
        )
    );
    assert_eq!(dxgi_failure(DxgiCall::MapTexture, "x"), capture_error("Map failed: x"));
    assert!(matches!(dxgi_missing(DxgiObject::Staging), MediaError::CaptureError(_)));
    let (e, r) = capture_gdi_failed(GdiStage::ScreenContext);
    assert_eq!((e, r), (capture_error("GetDC(None) failed"), vec![]));
    let (e, r) = capture_gdi_failed(GdiStage::CreateBitmap);
    assert_eq!(e, capture_error("CreateCompatibleBitmap failed"));
    assert_eq!(r, vec![GdiRelease::DeleteContext, GdiRelease::ReleaseScreen]);
}

#[test]
fn dxgi_repeats_a_still_picture() {
    let mut c = DxgiCapture::new();
    assert_eq!(
        c.next_frame(Acquired::TimedOut, false, 0).unwrap_err(),
        MediaError::CaptureNotStarted
    );
    c.start(&output(10, 20, 2, 1, true));
    assert_eq!(
        c.choose_output("0", &vec![]),
        Err(MediaError::CaptureAlreadyStarted)
    );
    let empty = c.next_frame(Acquired::TimedOut, false, 1).unwrap();
    assert!(bytes_of(&empty).is_empty() && !empty.is_new_frame);
    let frame = || Acquired::Frame {
        data: vec![1; 8],
        stride: 8,
        cursor: Some(white_cursor(11, 20)),
    };
    let hidden = c.next_frame(frame(), true, 999).unwrap();
    assert_eq!(bytes_of(&hidden), vec![1; 8]);
    let f = c.next_frame(frame(), false, 1000).unwrap();
    assert_eq!(bytes_of(&f), vec![1, 1, 1, 1, 255, 255, 255, 1]);
    assert!(f.is_new_frame);
    let mut still = |now_us| c.next_frame(Acquired::TimedOut, false, now_us).unwrap();
    assert!(bytes_of(&still(1000 + 499_999)).is_empty());
    let again = still(1000 + 500_000);
    assert_eq!(bytes_of(&again), bytes_of(&f));
    assert!(!again.is_new_frame);
    assert!(bytes_of(&still(1000 + 500_001)).is_empty());
    assert_eq!(
        c.next_frame(Acquired::Failed(DxgiCall::Acquire, "x".to_string()), false, 0).unwrap_err(),
        capture_error("AcquireNextFrame failed: x")
    );
    assert_eq!(
        c.next_frame(Acquired::NoResource, false, 0).unwrap_err(),
        capture_error("Desktop resource is None")
    );
    c.stop();
    assert!(!c.is_capturing());
}

#[test]
fn gdi_takes_one_monitor() {
    let m = vec![output(10, 20, 1, 1, true)];
    let mut c = GdiCapture::new();
    assert_eq!(c.start("1", Some(&m)), Err(capture_error("Display 1 not found")));
    assert_eq!(c.start("0", None), Err(capture_error("EnumDisplayMonitors failed")));
    c.start("0", Some(&m)).unwrap();
    assert_eq!(c.start("0", Some(&m)), Err(MediaError::CaptureAlreadyStarted));
    assert_eq!(
        c.next_frame(Err(GdiStage::Copy), None, false, 4).unwrap_err(),
        capture_error("BitBlt failed")
    );
    let f = c.next_frame(Ok(vec![1, 2, 3, 4]), None, false, 5).unwrap();
    assert_eq!((bytes_of(&f), f.timestamp_us), (vec![1, 2, 3, 4], 5));
    c.stop();
    assert_eq!(
        c.next_frame(Ok(vec![]), None, false, 6).unwrap_err(),
        MediaError::CaptureNotStarted
    );
}

#[test]
fn masks_draw_black_and_white() {
    let mut frame = vec![100u8; 8];
    let f = FrameLayout { width: 2, height: 1, stride: 8 };
    let sample = CursorSample {
        screen_x: 0,
        screen_y: 0,
        hotspot_x: 0,
        hotspot_y: 0,
        width: 2,
        height: 1,
        color: None,
        mask: Some(vec![0, 0, 0, 0, 255, 0, 0, 0, 255, 255, 255, 0, 0, 0, 0, 0]),
    };
    draw_cursor_onto_buffer(&mut frame, f, sample, 0, 0);
    assert_eq!(frame, vec![255, 255, 255, 100, 100, 100, 100, 100]);
}

#[test]
fn black_buffers_are_seen() {
    assert!(is_buffer_black(&[0; 64]));
    let mut bright = vec![0u8; 64];
    bright.iter_mut().for_each(|b| *b = 200);
    assert!(!is_buffer_black(&bright));
    assert!(uses_gdi(Some("1")));
    assert!(!uses_gdi(None));
}

#[test]
fn three_black_pictures_lead_to_gdi() {
    let m = vec![output(0, 0, 4, 4, true)];
    let mut c = WindowsScreenCapture::new(None);
    assert_eq!(c.next_frame(), Err(MediaError::CaptureNotStarted));
    assert_eq!(c.start("0", StreamConfig::default()), Ok(WindowsBackend::Dxgi));
    assert!(!c.dxgi_started(Some(&m[0])));
    assert_eq!(
        c.start("0", StreamConfig::default()),
        Err(MediaError::CaptureAlreadyStarted)
    );
    let black = cpu_frame(vec![0; 64], 16, 4, 4, 0, true);
    let white = cpu_frame(vec![255; 64], 16, 4, 4, 0, true);
    let still = cpu_frame(vec![0; 64], 16, 4, 4, 0, false);
    assert!(!c.on_dxgi_frame(&black));
    assert!(!c.on_dxgi_frame(&black));
    assert!(!c.on_dxgi_frame(&white));
    assert!(!c.on_dxgi_frame(&black));
    assert!(!c.on_dxgi_frame(&still));
    assert!(!c.on_dxgi_frame(&black));
    assert!(c.on_dxgi_frame(&black));
    c.start_gdi(Some(&m)).unwrap();
    assert_eq!(c.next_frame(), Ok(WindowsBackend::Gdi));
    c.stop();
    assert!(!c.is_capturing());
}

#[test]
fn gdi_steps_in_when_dxgi_fails() {
    let mut c = WindowsScreenCapture::new(None);
    c.start("5", StreamConfig::default()).unwrap();
    assert!(c.dxgi_started(None));
    assert_eq!(
        c.start_gdi(Some(&vec![output(0, 0, 1, 1, true)])),
        Err(capture_error("Display 5 not found"))
    );
    let mut only = WindowsScreenCapture::new(Some("true"));
    assert_eq!(only.start("0", StreamConfig::default()), Ok(WindowsBackend::Gdi));
}

#[test]
fn listed_monitors_are_found_again() {
    let m: Vec<DesktopOutput> = (0..12).map(|i| output(i, 0, 10, 10, i == 0)).collect();
    for (i, d) in list_gdi_displays(Some(&m)).unwrap().iter().enumerate() {
        assert_eq!(find_output(&d.id, m.len()), Ok(i));
    }
}
