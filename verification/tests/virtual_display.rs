use lunaris_media::capture::command::CommandReply;
use lunaris_media::capture::virtual_display::linux::{
    find_virtual_output, generate_modeline, CreateStep, VirtualDisplay,
};
use lunaris_media::capture::virtual_display::windows::{
    create_request, open_idd_driver, DriverChoice, IddCreateMonitorResponse, WindowsVirtualDisplay,
};
use lunaris_media::capture::virtual_display::{
    create_virtual_display, CreateProgress, VirtualDisplayStep,
};
use lunaris_media::{MediaError, Platform};

const CVT: &str = "# 1920x1080 59.96 Hz (CVT 2.07M9) hsync: 67.16 kHz; pclk: 173.00 MHz
Modeline \"1920x1080_60.00\"  173.00  1920 2048 2248 2576  1080 1083 1088 1120 -hsync +vsync
";

const XRANDR: &str = "Screen 0: minimum 8 x 8
DP-1 connected primary 3840x2160+0+0
   3840x2160     60.00*+
Virtual1 disconnected (normal left inverted right x axis y axis)
VIRTUAL2 disconnected (normal)
";

fn good(stdout: &str) -> CommandReply {
    CommandReply::Ended {
        success: true,
        status: "exit status: 0".to_string(),
        stdout: stdout.to_string(),
        stderr: String::new(),
    }
}

fn bad(stderr: &str) -> CommandReply {
    CommandReply::Ended {
        success: false,
        status: "exit status: 1".to_string(),
        stdout: String::new(),
        stderr: stderr.to_string(),
    }
}

fn run_of(step: CreateStep) -> (String, Vec<String>) {
    match step {
        CreateStep::Run(i) => (i.program, i.args),
        other => panic!("no program to run: {:?}", other),
    }
}

fn error_of(step: CreateStep) -> MediaError {
    match step {
        CreateStep::Failed(e) => e,
        other => panic!("no error: {:?}", other),
    }
}

fn strings(v: &[&str]) -> Vec<String> {
    v.iter().map(|s| s.to_string()).collect()
}

#[test]
fn a_display_is_made_in_five_runs() {
    let mut replies = Vec::new();
    let (p, a) = run_of(VirtualDisplay::create(1920, 1080, 60, &replies));
    assert_eq!((p.as_str(), a), ("cvt", strings(&["1920", "1080", "60"])));
    replies.push(good(CVT));
    let (p, a) = run_of(VirtualDisplay::create(1920, 1080, 60, &replies));
    assert_eq!((p.as_str(), a), ("xrandr", strings(&["--query"])));
    replies.push(good(XRANDR));
    let (p, a) = run_of(VirtualDisplay::create(1920, 1080, 60, &replies));
    assert_eq!(p, "xrandr");
    assert_eq!(
        a,
        strings(&[
            "--newmode", "lunaris_1920x1080_60", "173.00", "1920", "2048", "2248", "2576", "1080",
            "1083", "1088", "1120", "-hsync", "+vsync",
        ])
    );
    replies.push(bad("X Error: name already exists"));
    let (_, a) = run_of(VirtualDisplay::create(1920, 1080, 60, &replies));
    assert_eq!(a, strings(&["--addmode", "Virtual1", "lunaris_1920x1080_60"]));
    replies.push(good(""));
    let (_, a) = run_of(VirtualDisplay::create(1920, 1080, 60, &replies));
    assert_eq!(a, strings(&["--output", "Virtual1", "--mode", "lunaris_1920x1080_60"]));
    replies.push(good(""));
    match VirtualDisplay::create(1920, 1080, 60, &replies) {
        CreateStep::Created(d) => {
            assert_eq!(d.output_name(), "Virtual1");
            assert_eq!(d.mode_name, "lunaris_1920x1080_60");
            assert!(d.active);
        }
        other => panic!("not made: {:?}", other),
    }
}

#[test]
fn making_a_display_ends_at_the_first_error() {
    let cvt_missing = vec![CommandReply::NotRun("not found".to_string())];
    assert_eq!(
        error_of(VirtualDisplay::create(1, 1, 1, &cvt_missing)),
        MediaError::CaptureError("cvt failed: not found".to_string())
    );
    let cvt_bad = vec![bad("  usage \n")];
    assert_eq!(
        error_of(VirtualDisplay::create(1, 1, 1, &cvt_bad)),
        MediaError::CaptureError("cvt failed with status exit status: 1: usage".to_string())
    );
    let query_bad = vec![good(CVT), bad("no display")];
    assert_eq!(
        error_of(VirtualDisplay::create(1, 1, 1, &query_bad)),
        MediaError::CaptureError(
            "xrandr --query failed with status exit status: 1: no display".to_string()
        )
    );
    let newmode_bad = vec![good(CVT), good(XRANDR), bad("boom"), good(""), good("")];
    assert_eq!(
        error_of(VirtualDisplay::create(1, 1, 1, &newmode_bad)),
        MediaError::CaptureError("xrandr failed with status exit status: 1: boom".to_string())
    );
    let enable_bad = vec![good(CVT), good(XRANDR), good(""), good(""), bad("already exists")];
    assert_eq!(
        error_of(VirtualDisplay::create(1, 1, 1, &enable_bad)),
        MediaError::CaptureError(
            "xrandr failed with status exit status: 1: already exists".to_string()
        )
    );
}

#[test]
fn later_replies_change_no_end() {
    let mut replies = vec![good("nothing here")];
    let first = error_of(VirtualDisplay::create(1, 1, 1, &replies));
    replies.push(good(XRANDR));
    replies.push(good(""));
    assert_eq!(error_of(VirtualDisplay::create(1, 1, 1, &replies)), first);
}

#[test]
fn modelines_are_read_or_refused() {
    assert_eq!(generate_modeline(CVT).unwrap()[0], "173.00");
    assert_eq!(
        generate_modeline("nothing").unwrap_err(),
        MediaError::CaptureError("cvt did not return a Modeline".to_string())
    );
    assert_eq!(
        generate_modeline("  Modeline \"a\"").unwrap_err(),
        MediaError::CaptureError("cvt returned an empty Modeline".to_string())
    );
    assert_eq!(generate_modeline("Modeline \"a\" \"1.0\"").unwrap(), vec!["1.0".to_string()]);
}

#[test]
fn a_free_virtual_output_is_found() {
    assert_eq!(find_virtual_output(XRANDR).unwrap(), "Virtual1");
    assert_eq!(
        find_virtual_output("VIRTUAL1 connected 1x1+0+0\nHDMI-1 disconnected\n").unwrap_err(),
        MediaError::CaptureError(
            "No disconnected VIRTUAL output found. Configure Xorg VirtualHeads first.".to_string()
        )
    );
}

#[test]
fn a_display_is_taken_down_once() {
    let mut d = VirtualDisplay {
        output_name: "VIRTUAL1".to_string(),
        mode_name: "m".to_string(),
        active: true,
    };
    assert_eq!(
        d.destroy_commands(),
        vec![
            strings(&["--output", "VIRTUAL1", "--off"]),
            strings(&["--delmode", "VIRTUAL1", "m"]),
            strings(&["--rmmode", "m"]),
        ]
    );
    let replies = vec![good(""), bad("first"), bad("second")];
    assert_eq!(
        d.destroy(&replies).unwrap_err(),
        MediaError::CaptureError("xrandr failed with status exit status: 1: first".to_string())
    );
    assert!(!d.active);
    assert!(d.destroy_commands().is_empty());
    assert_eq!(d.destroy(&replies), Ok(()));
}

#[test]
fn drivers_are_tried_in_order() {
    let paths: Vec<String> = (0..3)
        .map(|i| match open_idd_driver(i) {
            DriverChoice::Try(s) => s,
            DriverChoice::Failed(e) => panic!("{:?}", e),
        })
        .collect();
    assert_eq!(
        paths,
        strings(&[
            "\\\\.\\IddSampleDriver",
            "\\\\.\\VirtualDisplayDriver",
            "\\\\.\\IddCxDriver",
        ])
    );
    match open_idd_driver(3) {
        DriverChoice::Failed(MediaError::CaptureError(s)) => {
            assert!(s.starts_with("No IddCx virtual display driver found."))
        }
        other => panic!("{:?}", other),
    }
}

fn response(success: u32) -> IddCreateMonitorResponse {
    let mut device_name: Vec<u16> = "\\\\.\\DISPLAY2".encode_utf16().collect();
    device_name.resize(64, 0);
    IddCreateMonitorResponse { display_id: 5, device_name, success }
}

#[test]
fn a_windows_display_lives_once() {
    let r = create_request(800, 600, 30);
    assert_eq!((r.width, r.height, r.refresh_rate), (800, 600, 30));
    let mut d = WindowsVirtualDisplay::create(800, 600, 30, 77, Some(response(1))).unwrap();
    assert_eq!(d.display_id(), "\\\\.\\DISPLAY2");
    assert_eq!(d.destroy(), Some((5, 77)));
    assert_eq!(d.driver_handle, -1);
    assert_eq!(d.destroy(), None);
}

#[test]
fn a_refused_windows_display_is_an_error() {
    let e = MediaError::CaptureError(
        "IddCx driver failed to create virtual display (800x600@30fps)".to_string(),
    );
    assert_eq!(WindowsVirtualDisplay::create(800, 600, 30, 1, Some(response(0))).unwrap_err(), e);
    assert_eq!(WindowsVirtualDisplay::create(800, 600, 30, 1, None).unwrap_err(), e);
}

#[test]
fn each_platform_makes_displays_its_own_way() {
    match create_virtual_display(Platform::Linux, 1, 2, 3, CreateProgress::Programs(vec![])) {
        VirtualDisplayStep::Linux(s) => assert_eq!(run_of(s).1, strings(&["1", "2", "3"])),
        other => panic!("{:?}", other),
    }
    match create_virtual_display(Platform::Windows, 1, 2, 3, CreateProgress::Opening(1)) {
        VirtualDisplayStep::OpenDriver(DriverChoice::Try(s)) => {
            assert_eq!(s, "\\\\.\\VirtualDisplayDriver")
        }
        other => panic!("{:?}", other),
    }
    match create_virtual_display(
        Platform::Windows,
        1,
        2,
        3,
        CreateProgress::Requested(9, Some(response(1))),
    ) {
        VirtualDisplayStep::Windows(Ok(d)) => assert_eq!(d.driver_handle, 9),
        other => panic!("{:?}", other),
    }
    match create_virtual_display(Platform::Windows, 1, 2, 3, CreateProgress::Opening(99)) {
        VirtualDisplayStep::OpenDriver(DriverChoice::Failed(e)) => assert_eq!(
            e,
            MediaError::CaptureError(
                "No IddCx virtual display driver found. Install usbmmidd or a compatible driver. \
                 See: https://github.com/ge9/IddSampleDriver"
                    .to_string()
            )
        ),
        _ => panic!("another step"),
    }
    match create_virtual_display(Platform::MacOs, 1, 2, 3, CreateProgress::Opening(0)) {
        VirtualDisplayStep::Failed(e) => assert_eq!(
            e,
            MediaError::PlatformNotSupported(
                "Virtual display not supported on this platform".to_string()
            )
        ),
        other => panic!("{:?}", other),
    }
}

#[test]
fn what_was_made_is_taken_down() {
    let replies = vec![good(CVT), good(XRANDR), good(""), good(""), good("")];
    match VirtualDisplay::create(1920, 1080, 60, &replies) {
        CreateStep::Created(d) => {
            assert_eq!(d.output_name, "Virtual1");
            let down = d.destroy_commands();
            assert_eq!(down[0], strings(&["--output", "Virtual1", "--off"]));
            assert_eq!(down[1], strings(&["--delmode", "Virtual1", d.mode_name.as_str()]));
            assert_eq!(down[2], strings(&["--rmmode", d.mode_name.as_str()]));
            let first = replies[..3].to_vec();
            let (_, args) = run_of(VirtualDisplay::create(1920, 1080, 60, &first));
            assert_eq!(args, strings(&["--addmode", "Virtual1", d.mode_name.as_str()]));
        }
        _ => panic!("no display"),
    }
}
