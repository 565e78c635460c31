use lunaris_media::audio::linux::{choose_source, LinuxAudioCapture, SourceDevice};
use lunaris_media::audio::windows::{check_source, WindowsAudioCapture};
use lunaris_media::audio::{
    audio_failure, audio_frame, create_audio_capture, frame_size_samples, opus_channels,
    samples_per_frame, AudioBackend, AudioSession, AudioStage, FrameChunker,
};
use lunaris_media::capture::{cpu_frame, CapturedFrame};
use lunaris_media::pipeline::{
    encodes_every_tick, error_event, frame_interval_ns, is_fatal, may_raise_rate, wants_zero_copy, AudioStep,
    AudioTask, CommandAction, CursorTask, FrameLoop, MediaEvent, MediaPipeline, PipelineCommand,
    SendOutcome, ShutdownStep, StartupStep, TickAction,
};
use lunaris_media::{
    AudioCaptureConfig, CursorKind, CursorState, HwAccelType, MediaError, Platform, StreamConfig,
};

fn audio_error(s: &str) -> MediaError {
    MediaError::AudioError(s.to_string())
}

// ---- Audio ----

#[test]
fn audio_frames_last_their_milliseconds() {
    let c = AudioCaptureConfig::default();
    assert_eq!((c.sample_rate, c.channels, c.frame_size_ms), (48_000, 2, 20));
    assert_eq!(frame_size_samples(&c), 960);
    assert_eq!(samples_per_frame(&c), 1920);
    let f = audio_frame(vec![1, 2], 7, &c);
    assert_eq!((f.data, f.pts, f.duration), (vec![1, 2], 7, 20_000));
    assert_eq!((f.sample_rate, f.channels), (48_000, 2));
    assert_eq!(opus_channels(1), 1);
    assert_eq!(opus_channels(6), 2);
}

#[test]
fn samples_are_cut_into_frames() {
    let mut c = FrameChunker::new(3);
    assert_eq!(c.feed(vec![1.0f32, 2.0]), Vec::<Vec<f32>>::new());
    assert_eq!(c.feed(vec![3.0, 4.0, 5.0, 6.0, 7.0]), vec![vec![1.0, 2.0, 3.0], vec![4.0, 5.0, 6.0]]);
    assert_eq!(c.pending, vec![7.0]);
}

#[test]
fn a_monitor_source_is_chosen() {
    let names = |v: &[Option<&str>]| -> Vec<Option<String>> {
        v.iter().map(|n| n.map(|s| s.to_string())).collect()
    };
    assert!(matches!(choose_source(true, &vec![]), Ok(SourceDevice::DefaultInput)));
    for default_input in [false, true] {
        let inputs = names(&[None, Some("Mic"), Some("Built-in Monitor"), Some("Monitor of HDMI")]);
        match choose_source(default_input, &inputs) {
            Ok(SourceDevice::Input(i)) => assert_eq!(i, 2),
            other => panic!("{:?}", other),
        }
    }
    assert!(matches!(
        choose_source(true, &names(&[None, Some("Mic")])),
        Ok(SourceDevice::DefaultInput)
    ));
    match choose_source(false, &names(&[Some("Mic")])) {
        Err(MediaError::AudioError(t)) => {
            assert!(t.starts_with("No loopback/monitor audio device found."))
        }
        other => panic!("{:?}", other),
    }
    assert!(LinuxAudioCapture::new(true).is_ok());
    assert!(LinuxAudioCapture::new(false).is_err());
    assert!(WindowsAudioCapture::new(false).is_err());
    assert_eq!(check_source(false), Err(audio_error("No default output device for loopback")));
    assert!(matches!(create_audio_capture(Platform::Linux), Ok(AudioBackend::Linux)));
    assert!(matches!(
        create_audio_capture(Platform::Other),
        Err(MediaError::PlatformNotSupported(_))
    ));
}

#[test]
fn an_audio_session_runs_once() {
    let mut s = AudioSession::new();
    assert_eq!(s.next_frame(None), Err(audio_error("Audio capture not started")));
    s.start().unwrap();
    assert_eq!(
        s.started(Err("x".to_string())),
        Err(audio_error("Failed to spawn audio thread: x"))
    );
    s.started(Ok(())).unwrap();
    assert_eq!(s.start(), Err(audio_error("Audio capture already started")));
    assert_eq!(s.next_frame(None), Err(audio_error("Audio frame channel closed")));
    let f = audio_frame(vec![1], 0, &AudioCaptureConfig::default());
    assert_eq!(s.next_frame(Some(f.clone())), Ok(f));
    assert!(s.stop());
    assert!(s.shutdown && !s.is_capturing());
    assert!(!s.stop());
    assert_eq!(
        audio_failure(AudioStage::BuildStream, "x"),
        audio_error("Failed to build cpal input stream: x")
    );
}

#[test]
fn dropped_audio_is_counted() {
    let mut t = AudioTask::new();
    assert_eq!(t.on_send(SendOutcome::Sent), AudioStep::Next { report: false });
    assert_eq!(t.on_send(SendOutcome::Full), AudioStep::Next { report: true });
    assert_eq!(t.on_send(SendOutcome::Full), AudioStep::Next { report: false });
    for _ in 2..99 {
        t.on_send(SendOutcome::Full);
    }
    assert_eq!(t.on_send(SendOutcome::Full), AudioStep::Next { report: true });
    assert_eq!(t.on_send(SendOutcome::Sent), AudioStep::Recovered(100));
    assert_eq!(t.on_send(SendOutcome::Closed), AudioStep::End);
}

// ---- The pipeline ----

fn config() -> StreamConfig {
    StreamConfig::default()
}

#[test]
fn the_encoder_follows_the_stream() {
    let mut c = config();
    c.preferred_encoder = Some("FFmpeg-VAAPI".to_string());
    let p = MediaPipeline::new(c);
    assert_eq!(p.encoder_preference(), (Some(HwAccelType::Vaapi), true));
    let e = p.encoder_config(Platform::Linux, Some((1, 2)));
    assert_eq!((e.width, e.height, e.fps, e.bitrate_kbps), (1920, 1080, 60, 10_000));
    assert_eq!((e.keyframe_interval, e.low_latency, e.force_ffmpeg), (240, true, true));
    assert_eq!((e.d3d11_device, e.d3d11_context), (None, None));
    let e = p.encoder_config(Platform::Windows, Some((1, 2)));
    assert_eq!((e.d3d11_device, e.d3d11_context), (Some(1), Some(2)));
    assert!(wants_zero_copy(Platform::Windows, None, None));
    assert!(!wants_zero_copy(Platform::Windows, Some("1"), None));
    assert!(!wants_zero_copy(Platform::Windows, None, Some(HwAccelType::Software)));
    assert!(!wants_zero_copy(Platform::Linux, None, None));
}

#[test]
fn started_comes_after_everything_fatal() {
    let mut c = config();
    c.virtual_display = true;
    c.fps = 144;
    let steps = MediaPipeline::new(c).startup_steps(Platform::Linux, None);
    assert_eq!(
        steps,
        vec![
            StartupStep::CreateCapture,
            StartupStep::CreateEncoder,
            StartupStep::CreateAudio,
            StartupStep::CreateCursor,
            StartupStep::CreateVirtualDisplay,
            StartupStep::RaiseRate,
            StartupStep::StartCapture,
            StartupStep::InitializeEncoder,
            StartupStep::SendEncoderStarted,
            StartupStep::SpawnAudio,
            StartupStep::SpawnCursor,
            StartupStep::SendStarted,
        ]
    );
    let started = steps.iter().position(|s| *s == StartupStep::SendStarted).unwrap();
    assert!(steps[started..].iter().all(|s| !is_fatal(*s)));
    assert!(is_fatal(StartupStep::CreateCapture));
    assert!(is_fatal(StartupStep::CreateAudio));
    assert!(!is_fatal(StartupStep::SpawnAudio));
    assert!(!is_fatal(StartupStep::CreateVirtualDisplay));
    let plain = MediaPipeline::new(config()).startup_steps(Platform::Windows, None);
    assert!(plain.contains(&StartupStep::SetZeroCopy));
    assert!(!plain.contains(&StartupStep::CreateVirtualDisplay));
    assert_eq!(MediaPipeline::shutdown_steps().last(), Some(&ShutdownStep::SendStopped));
    assert_eq!(MediaPipeline::shutdown_steps().len(), 6);
}

#[test]
fn small_settings_are_read() {
    assert_eq!(frame_interval_ns(60), 16_666_666);
    assert!(may_raise_rate(Platform::Linux, 61));
    assert!(!may_raise_rate(Platform::Linux, 60));
    assert!(!may_raise_rate(Platform::Windows, 144));
    assert!(encodes_every_tick(None));
    assert!(!encodes_every_tick(Some("0")));
    assert_eq!(MediaPipeline::capture_display("a", Some("b")), "b");
    assert_eq!(MediaPipeline::capture_display("a", None), "a");
    let a = MediaPipeline::audio_config();
    assert_eq!((a.sample_rate, a.channels, a.frame_size_ms), (48_000, 2, 10));
    let mut c = config();
    c.virtual_display = true;
    assert!(!MediaPipeline::new(c).wants_virtual_display(Platform::MacOs));
}

fn cursor(x: i32) -> CursorState {
    CursorState { x, y: 0, visible: true, kind: CursorKind::Arrow, image: None }
}

#[test]
fn a_cursor_is_sent_when_it_changes() {
    let mut t = CursorTask::new();
    assert_eq!(t.on_state(cursor(1)), Some(MediaEvent::CursorUpdate(cursor(1))));
    assert_eq!(t.on_state(cursor(1)), None);
    assert_eq!(t.on_state(cursor(2)), Some(MediaEvent::CursorUpdate(cursor(2))));
}

fn frame(is_new: bool) -> CapturedFrame {
    cpu_frame(vec![1; 16], 8, 2, 2, 0, is_new)
}

fn empty() -> CapturedFrame {
    cpu_frame(vec![], 0, 2, 2, 0, false)
}

#[test]
fn a_still_picture_is_sent_again() {
    let mut l = FrameLoop::new(60, false);
    assert!(matches!(l.on_tick(Ok(empty()), 0, 10), TickAction::Idle));
    assert!(matches!(l.on_tick(Ok(frame(true)), 0, 1000), TickAction::Encode { pts_us: 1000 }));
    assert!(matches!(l.on_tick(Ok(frame(false)), 0, 2000), TickAction::Idle));
    assert!(matches!(l.on_tick(Ok(empty()), 0, 500_999), TickAction::Idle));
    assert!(matches!(
        l.on_tick(Ok(empty()), 0, 501_000),
        TickAction::Encode { pts_us: 501_000 }
    ));
    assert_eq!(l.metrics.new_captures, 1);
    assert_eq!(l.metrics.encode_attempts, 2);
}

#[test]
fn a_full_channel_skips_frames() {
    let mut l = FrameLoop::new(60, true);
    assert!(matches!(l.on_tick(Ok(frame(true)), 56, 1), TickAction::Skip { report: true }));
    assert!(matches!(l.on_tick(Ok(frame(true)), 56, 2), TickAction::Skip { report: false }));
    assert_eq!(l.skipped_frames, 2);
    assert!(matches!(l.on_tick(Ok(frame(true)), 55, 3), TickAction::Encode { .. }));
    match l.on_tick(Err(MediaError::Timeout), 0, 4) {
        TickAction::ReportError(e) => assert_eq!(e, MediaError::Timeout),
        _ => panic!("no error"),
    }
    assert!(matches!(l.on_tick(Ok(frame(false)), 0, 5), TickAction::Encode { .. }));
}

#[test]
fn frames_are_counted() {
    let mut l = FrameLoop::new(60, true);
    l.metrics.started_us = 0;
    l.on_encoded(100, true);
    l.on_encoded(50, false);
    l.on_encode_time(7);
    assert_eq!((l.total_frames, l.total_bytes, l.dropped_frames), (2, 150, 1));
    assert_eq!(l.metrics.encode_us, 7);
    assert!(l.take_metrics(999_999).is_none());
    let m = l.take_metrics(1_000_000).unwrap();
    assert_eq!((m.encoded_frames, m.sent_frames, m.dropped_frames, m.bytes), (2, 1, 1, 150));
    assert_eq!(m.encoded_frames, m.sent_frames + m.dropped_frames);
    assert_eq!(l.metrics.started_us, 1_000_000);
    assert_eq!(l.metrics.encoded_frames, 0);
}

#[test]
fn frame_rates_stay_within_limits() {
    let mut l = FrameLoop::new(60, false);
    assert_eq!(
        l.on_command(PipelineCommand::SetFps(30)),
        CommandAction::SetFps { fps: 30, interval_ns: 33_333_333 }
    );
    assert!(l.keyframe_requested);
    match l.on_command(PipelineCommand::SetFps(0)) {
        CommandAction::SetFps { fps, .. } => assert_eq!(fps, 1),
        other => panic!("{:?}", other),
    }
    match l.on_command(PipelineCommand::SetFps(1000)) {
        CommandAction::SetFps { fps, .. } => assert_eq!(fps, 240),
        other => panic!("{:?}", other),
    }
    assert_eq!(
        l.on_command(PipelineCommand::SetBitrate(5)),
        CommandAction::SetBitrate(5)
    );
    assert_eq!(l.on_command(PipelineCommand::Stop), CommandAction::Stop);
    assert_eq!(
        l.on_command(PipelineCommand::RequestKeyframe),
        CommandAction::RequestKeyframe
    );
}

#[test]
fn failures_are_reported_and_the_run_goes_on() {
    let mut l = FrameLoop::new(60, false);
    assert!(matches!(l.on_tick(Ok(frame(true)), 0, 10), TickAction::Encode { pts_us: 10 }));
    let failed = MediaError::EncodeError("busy".to_string());
    match l.on_encode_failed(failed.clone()) {
        TickAction::ReportError(e) => match error_event(&e) {
            MediaEvent::Error(text) => assert_eq!(text, failed.to_string()),
            other => panic!("{:?}", other),
        },
        other => panic!("{:?}", other),
    }
    match l.on_tick(Err(MediaError::FrameDropped), 0, 20) {
        TickAction::ReportError(e) => assert_eq!(e, MediaError::FrameDropped),
        other => panic!("{:?}", other),
    }
    assert!(matches!(l.on_tick(Ok(frame(true)), 0, 30), TickAction::Encode { pts_us: 30 }));
    assert_eq!((l.metrics.ticks, l.metrics.encode_attempts, l.total_frames), (3, 2, 0));
    assert!(matches!(l.on_command(PipelineCommand::Stop), CommandAction::Stop));
    assert_eq!(AudioTask::new().on_capture_failed(), AudioStep::End);
}
