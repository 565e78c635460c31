use lunaris_media::capture::command::CommandReply;
use lunaris_media::capture::linux_x11::{
    extract_active_refresh_rate, find_display, parse_xrandr_output_with_offsets,
    query_xrandr_displays, ShmRelease, ShmStage, X11Capture, X11Cursor, X11Source,
};
use lunaris_media::capture::gpu_buffer::GpuBuffer;
use lunaris_media::pipeline::{
    active_refresh_rate, display_to_change, display_to_start, set_rate_args, xrandr_rates,
};
use lunaris_media::{MediaError, StreamConfig};

const XRANDR: &str = "Screen 0: minimum 320 x 200, current 5760 x 2160, maximum 16384 x 16384
DP-1 connected primary 3840x2160+0+0 (normal left inverted right x axis y axis) 597mm x 336mm
   3840x2160     60.00*+  30.00  
   2560x1440     59.95  
HDMI-1 disconnected (normal left inverted right x axis y axis)
DP-2 connected 1920x1080+3840+0 (normal left inverted right x axis y axis) 530mm x 300mm
   1920x1080     60.00*+  50.00    59.94  
";

fn ended(success: bool, stdout: &str, stderr: &str) -> CommandReply {
    CommandReply::Ended {
        success,
        status: "exit status: 1".to_string(),
        stdout: stdout.to_string(),
        stderr: stderr.to_string(),
    }
}

fn chars(s: &str) -> Vec<char> {
    s.chars().collect()
}

#[test]
fn test_parse_xrandr_output() {
    let xrandr_output = r#"Screen 0: minimum 320 x 200, current 5760 x 2160, maximum 16384 x 16384
DP-1 connected primary 3840x2160+0+0 (normal left inverted right x axis y axis) 597mm x 336mm
   3840x2160     60.00*+  30.00  
   2560x1440     59.95  
HDMI-1 disconnected (normal left inverted right x axis y axis)
DP-2 connected 1920x1080+3840+0 (normal left inverted right x axis y axis) 530mm x 300mm
   1920x1080     60.00*+  50.00    59.94  
"#;

    let displays = X11Capture::parse_xrandr_output(xrandr_output);
    assert_eq!(displays.len(), 2, "Should find 2 connected displays");

    assert_eq!(displays[0].id, "DP-1");
    assert_eq!(displays[0].width, 3840);
    assert_eq!(displays[0].height, 2160);
    assert!((displays[0].refresh_rate.parse::<f64>().unwrap() - 60.0).abs() < 0.01);
    assert!(displays[0].is_primary);

    assert_eq!(displays[1].id, "DP-2");
    assert_eq!(displays[1].width, 1920);
    assert_eq!(displays[1].height, 1080);
    assert!((displays[1].refresh_rate.parse::<f64>().unwrap() - 60.0).abs() < 0.01);
    assert!(!displays[1].is_primary);
}

#[test]
fn offsets_come_with_the_displays() {
    let v = parse_xrandr_output_with_offsets(XRANDR);
    assert_eq!(v.len(), 2);
    assert_eq!((v[0].1, v[0].2), (0, 0));
    assert_eq!((v[1].1, v[1].2), (3840, 0));
    assert_eq!(v[1].0.refresh_rate, "60.00");
}

#[test]
fn negative_offsets_and_missing_geometry_are_read() {
    let v = parse_xrandr_output_with_offsets("A connected 800x600+-800+20\nB connected primary\n");
    assert_eq!((v[0].0.width, v[0].0.height, v[0].1, v[0].2), (800, 600, -800, 20));
    assert_eq!((v[1].0.width, v[1].0.height, v[1].1, v[1].2), (0, 0, 0, 0));
    assert!(v[1].0.is_primary);
    assert_eq!(v[1].0.refresh_rate, "0");
}

#[test]
fn the_first_rate_in_use_stays() {
    let v = X11Capture::parse_xrandr_output(
        "A connected 800x600+0+0\n   800x600  59.94* 60.00\n   640x480  75.00*\n",
    );
    assert_eq!(v[0].refresh_rate, "59.94");
}

#[test]
fn a_zero_rate_is_replaced() {
    let v = X11Capture::parse_xrandr_output(
        "A connected 800x600+0+0\n   800x600  0.00*\n   640x480  75.00*\n",
    );
    assert_eq!(v[0].refresh_rate, "75.00");
}

#[test]
fn the_marked_rate_is_found_behind_the_mode() {
    let line = chars("3840x2160     30.00  60.00*+ ");
    assert_eq!(extract_active_refresh_rate(&line), Some(chars("60.00")));
    assert_eq!(extract_active_refresh_rate(&chars("3840x2160* 30.00")), None);
    assert_eq!(extract_active_refresh_rate(&chars("800x600 fast* 50.0*")), Some(chars("50.0")));
    assert_eq!(extract_active_refresh_rate(&[]), None);
}

#[test]
fn a_display_is_found_by_id_or_as_the_primary_one() {
    let v = parse_xrandr_output_with_offsets(XRANDR);
    assert_eq!(find_display(&v, "DP-2"), Some(1));
    assert_eq!(find_display(&v, "VGA-1"), Some(0));
    let none = parse_xrandr_output_with_offsets("A connected 800x600+0+0\n");
    assert_eq!(find_display(&none, "B"), None);
}

#[test]
fn a_failed_query_is_described() {
    assert_eq!(
        query_xrandr_displays(&CommandReply::NotRun("No such file".to_string())).unwrap_err(),
        MediaError::CaptureError("xrandr failed: No such file".to_string())
    );
    assert_eq!(
        query_xrandr_displays(&ended(false, XRANDR, "x")).unwrap_err(),
        MediaError::CaptureError("xrandr --query failed with status exit status: 1".to_string())
    );
    assert_eq!(query_xrandr_displays(&ended(true, XRANDR, "")).unwrap().len(), 2);
}

#[test]
fn x11_starts_at_the_chosen_display() {
    let mut c = X11Capture::new(Some((5760, 2160))).unwrap();
    assert_eq!(c.next_frame().unwrap_err(), MediaError::CaptureNotStarted);
    let config = StreamConfig::default();
    assert_eq!(c.start("DP-2", &config, &ended(true, XRANDR, "")), Ok(true));
    assert_eq!((c.capture_x, c.capture_y), (3840, 0));
    assert_eq!((c.width, c.height, c.fps), (1920, 1080, 60));
    assert!(c.is_capturing());
    assert_eq!(
        c.start("DP-2", &config, &ended(true, XRANDR, "")).unwrap_err(),
        MediaError::CaptureAlreadyStarted
    );
    assert_eq!(c.next_frame(), Ok(X11Source::GetImage));
    assert_eq!(c.init_shm(None), vec![ShmRelease::RemoveSegment]);
    assert_eq!(c.next_frame(), Ok(X11Source::SharedMemory));
    assert!(c.stop());
    assert!(!c.is_capturing());
    assert!(!c.stop());
    assert_eq!(c.next_frame().unwrap_err(), MediaError::CaptureNotStarted);
}

#[test]
fn x11_without_xrandr_captures_the_whole_screen() {
    let mut c = X11Capture::new(Some((1280, 720))).unwrap();
    let reply = CommandReply::NotRun("gone".to_string());
    let list = c.list_displays(&reply);
    assert_eq!(list.len(), 1);
    assert_eq!(list[0].id, "default");
    assert_eq!(list[0].name, "Default X11 Display");
    assert_eq!((list[0].width, list[0].height), (1280, 720));
    assert!(list[0].is_primary);
    assert_eq!(c.list_displays(&ended(true, XRANDR, "")).len(), 2);
    assert_eq!(c.start("DP-2", &StreamConfig::default(), &reply), Ok(true));
    assert_eq!((c.capture_x, c.capture_y), (0, 0));
}

#[test]
fn x11_without_a_display_fails() {
    assert_eq!(
        X11Capture::new(None).err().unwrap(),
        MediaError::CaptureError(
            "Failed to open X11 display. Check your DISPLAY environment variable.".to_string()
        )
    );
    assert_eq!(
        X11Capture::fetch_failed(X11Source::SharedMemory),
        MediaError::CaptureError("XShmGetImage failed".to_string())
    );
    assert_eq!(
        X11Capture::fetch_failed(X11Source::GetImage),
        MediaError::CaptureError("XGetImage returned NULL".to_string())
    );
}

#[test]
fn shared_memory_that_failed_is_released() {
    let mut c = X11Capture::new(Some((8, 8))).unwrap();
    assert_eq!(c.init_shm(Some(ShmStage::Query)), vec![]);
    assert_eq!(c.init_shm(Some(ShmStage::Allocate)), vec![ShmRelease::DestroyImage]);
    assert_eq!(
        c.init_shm(Some(ShmStage::MapSegment)),
        vec![ShmRelease::RemoveSegment, ShmRelease::DestroyImage]
    );
    assert_eq!(
        c.init_shm(Some(ShmStage::Attach)),
        vec![ShmRelease::Unmap, ShmRelease::RemoveSegment, ShmRelease::DestroyImage]
    );
    assert!(!c.shm_active);
}

#[test]
fn x11_frames_carry_the_cursor() {
    let mut c = X11Capture::new(Some((2, 2))).unwrap();
    c.capture_x = 10;
    c.capture_y = 20;
    let cursor = X11Cursor { x: 11, y: 20, width: 1, height: 1, pixels: vec![0xff01_0203] };
    let f = c.capture_frame(vec![9; 16], Some(cursor), 77);
    assert_eq!((f.width, f.height, f.timestamp_us, f.is_new_frame), (2, 2, 77, true));
    match f.buffer {
        GpuBuffer::CpuBuffer { data, stride, .. } => {
            assert_eq!(stride, 8);
            assert_eq!(&data[0..4], &[9, 9, 9, 9]);
            assert_eq!(&data[4..7], &[3, 2, 1]);
            assert_eq!(&data[8..16], &[9; 8]);
        }
        _ => panic!("not in memory"),
    }
    let plain = c.capture_frame(vec![5; 16], None, 1);
    match plain.buffer {
        GpuBuffer::CpuBuffer { data, .. } => assert_eq!(data, vec![5; 16]),
        _ => panic!("not in memory"),
    }
}

#[test]
fn rates_of_one_output_are_listed() {
    assert_eq!(
        xrandr_rates(Some(XRANDR), "DP-1", false),
        vec!["60.00".to_string(), "30.00".to_string(), "59.95".to_string()]
    );
    assert_eq!(xrandr_rates(Some(XRANDR), "DP-2", true), vec!["60.00".to_string()]);
    assert_eq!(xrandr_rates(Some(XRANDR), "HDMI-1", false), Vec::<String>::new());
    assert_eq!(xrandr_rates(None, "DP-1", false), Vec::<String>::new());
    assert_eq!(active_refresh_rate(Some(XRANDR), "DP-2"), Some("60.00".to_string()));
    assert_eq!(active_refresh_rate(Some(XRANDR), "VGA"), None);
}

#[test]
fn active_rates_are_among_the_listed_ones() {
    let all = xrandr_rates(Some(XRANDR), "DP-2", false);
    for rate in xrandr_rates(Some(XRANDR), "DP-2", true) {
        assert!(all.contains(&rate));
    }
}

#[test]
fn the_display_to_raise_is_chosen() {
    let displays = X11Capture::parse_xrandr_output(XRANDR);
    assert_eq!(display_to_start(&displays, "DP-2"), Some(1));
    assert_eq!(display_to_start(&displays, "gone"), Some(0));
    assert_eq!(display_to_start(&Vec::new(), "gone"), None);
    assert_eq!(display_to_change(&displays), Some(0));
    let plain = X11Capture::parse_xrandr_output("A connected 1x1+0+0\nB connected 1x1+1+0\n");
    assert_eq!(display_to_change(&plain), Some(0));
    assert_eq!(display_to_change(&Vec::new()), None);
    assert_eq!(
        set_rate_args("DP-1", 144),
        vec!["--output".to_string(), "DP-1".to_string(), "--rate".to_string(), "144".to_string()]
    );
}

#[test]
fn every_listed_display_is_found() {
    let v = parse_xrandr_output_with_offsets(XRANDR);
    for (i, (d, _, _)) in v.iter().enumerate() {
        assert_eq!(find_display(&v, &d.id), Some(i));
    }
}

#[test]
fn a_rate_read_as_zero_is_replaced() {
    let v = X11Capture::parse_xrandr_output(
        "A connected 800x600+0+0\n   800x600  1e-400*\n   640x480  59.9*\n   320x240  30.0*\n",
    );
    assert_eq!(v[0].refresh_rate, "59.9");
}
