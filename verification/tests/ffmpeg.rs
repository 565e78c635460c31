use lunaris_media::capture::gpu_buffer::GpuBuffer;
use lunaris_media::encode::ffmpeg::FfmpegEncoder;
use lunaris_media::encode::ffmpeg_d3d11::{
    stage_failure, texture_failure, StageFault, StageOp, TextureDesc, TextureFault, TexturePair,
    TextureStep,
};
use lunaris_media::encode::ffmpeg_session::{
    cuda_bind_result, ff_err, init_step, op_failure, packet_status, plan_pool, plan_settings,
    Backing, CudaProbe, DeviceKind, EncodeOp, InitNext, InitReply, InitStep, PacketStatus,
    Resource, SurfaceFormat,
};
use lunaris_media::encode::gpu::{
    describe_d3d11_device, describe_drm_gpu, describe_host_gpu, describe_linux_gpu,
    describe_nvidia_proc_gpu, AdapterDesc, DrmCard,
};
use lunaris_media::encode::planes::{
    copy_bgra, copy_nv12, copy_rows, device_copy_result, plan_device_copies, CopyPart, DeviceCopy,
    Plane,
};
use lunaris_media::encode::video_processor::{ContentDesc, VideoCall};
use lunaris_media::encode::EncoderConfig;
use lunaris_media::{
    FrameType, HwAccelType, MediaError, PixelFormat, Platform, StreamConfig, VideoCodec,
};

fn strings(v: &[&str]) -> Vec<String> {
    v.iter().map(|s| s.to_string()).collect()
}

fn encode_error(s: &str) -> MediaError {
    MediaError::EncodeError(s.to_string())
}

fn init_error(s: &str) -> MediaError {
    MediaError::EncoderInitFailed(s.to_string())
}

fn picture(format: PixelFormat) -> GpuBuffer {
    GpuBuffer::CpuBuffer { data: vec![0; 64], stride: 16, format, width: 4, height: 4 }
}

fn linux(hw: HwAccelType) -> Backing {
    Backing::of(Platform::Linux, &EncoderConfig::default(), hw)
}

fn opened(hw: HwAccelType) -> FfmpegEncoder {
    let mut e = FfmpegEncoder::new().unwrap();
    e.finish_initialize(&EncoderConfig::default(), "enc", linux(hw), &[]);
    e
}

fn shared_device() -> EncoderConfig {
    let mut c = EncoderConfig::default();
    c.d3d11_device = Some(10);
    c.d3d11_context = Some(11);
    c
}

fn opened_on_windows(c: &EncoderConfig, hw: HwAccelType) -> FfmpegEncoder {
    let mut e = FfmpegEncoder::new().unwrap();
    e.finish_initialize(c, "enc", Backing::of(Platform::Windows, c, hw), &[]);
    e
}

#[test]
fn installed_encoders_are_ordered() {
    let installed = strings(&["libx264", "h264_vaapi", "h264_nvenc", "hevc_nvenc"]);
    let names = |v: Vec<(String, HwAccelType)>| -> Vec<String> {
        v.into_iter().map(|e| e.0).collect()
    };
    assert_eq!(
        names(FfmpegEncoder::select_encoder_candidates(
            Platform::Linux,
            VideoCodec::H264,
            None,
            &installed
        )),
        strings(&["h264_nvenc", "h264_vaapi", "libx264"])
    );
    let preferred = names(FfmpegEncoder::select_encoder_candidates(
        Platform::Linux,
        VideoCodec::H264,
        Some(HwAccelType::Software),
        &installed,
    ));
    assert_eq!(preferred, strings(&["libx264", "h264_nvenc", "h264_vaapi"]));
    for n in &preferred {
        assert!(installed.contains(n));
    }
    assert_eq!(
        FfmpegEncoder::select_encoder(Platform::Linux, VideoCodec::H265, None, &installed),
        Ok(("hevc_nvenc".to_string(), HwAccelType::Nvenc))
    );
    assert_eq!(
        FfmpegEncoder::select_encoder(Platform::MacOs, VideoCodec::AV1, None, &installed),
        Err(MediaError::NoEncoderAvailable)
    );
}

#[test]
fn available_encoders_list_their_codecs() {
    let v = FfmpegEncoder::list_available(
        Platform::Linux,
        &strings(&["libaom-av1", "hevc_vaapi", "h264_vaapi"]),
    );
    let found = v.iter().find(|i| i.name == "h264_vaapi").unwrap();
    assert_eq!(found.hw_type, HwAccelType::Vaapi);
    assert_eq!(found.supported_codecs, vec![VideoCodec::H264]);
    assert!(v.iter().any(|i| i.name == "libaom-av1"));
    assert_eq!(v.len(), 3);
}

#[test]
fn options_fit_the_hardware() {
    assert_eq!(
        FfmpegEncoder::set_encoder_options(HwAccelType::Vaapi, VideoCodec::H264, true),
        vec![
            ("repeat-headers", "1"),
            ("rc_mode", "CBR"),
            ("profile", "baseline"),
            ("async_depth", "1"),
        ]
    );
    assert_eq!(
        FfmpegEncoder::set_encoder_options(HwAccelType::Nvenc, VideoCodec::H265, false),
        vec![
            ("repeat-headers", "1"),
            ("annexb", "1"),
            ("preset", "p3"),
            ("tune", "ull"),
            ("rc", "cbr"),
            ("zerolatency", "1"),
            ("forced-idr", "1"),
            ("profile", "main"),
            ("repeat_vps_sps_pps", "1"),
        ]
    );
}

#[test]
fn settings_follow_the_configuration() {
    let mut c = EncoderConfig::default();
    let s = plan_settings(&c, linux(HwAccelType::Software));
    assert_eq!((s.bit_rate, s.rc_max_rate, s.rc_buffer_size), (10_000_000, 10_000_000, 333_333));
    assert_eq!((s.width, s.height, s.rate), (1920, 1080, 60));
    assert_eq!((s.gop_size, s.max_b_frames, s.thread_count), (120, 0, 1));
    assert_eq!(s.surface, SurfaceFormat::Yuv420p);
    assert!(s.low_delay);
    c.keyframe_interval = 30;
    c.low_latency = false;
    let s = plan_settings(&c, linux(HwAccelType::Vaapi));
    assert_eq!((s.gop_size, s.low_delay, s.surface), (30, false, SurfaceFormat::Vaapi));
}

#[test]
fn pools_stand_on_their_device() {
    let p = plan_pool(linux(HwAccelType::Vaapi)).unwrap();
    assert_eq!((p.device, p.path, p.pool_size), (DeviceKind::Vaapi, Some("/dev/dri/renderD128"), 4));
    let p = plan_pool(linux(HwAccelType::Nvenc)).unwrap();
    assert_eq!((p.device, p.path, p.surface), (DeviceKind::Cuda, None, SurfaceFormat::Cuda));
    assert!(plan_pool(linux(HwAccelType::Software)).is_none());
}

#[test]
fn a_failed_setup_gives_everything_back() {
    match init_step("x", linux(HwAccelType::Software), &InitReply::Found(false)) {
        InitNext::Fail { error, release } => {
            assert_eq!(error, init_error("Encoder 'x' not found"));
            assert!(release.is_empty());
        }
        _ => panic!("goes on"),
    }
    let opened = InitReply::Opened { code: -22, message: "m".to_string() };
    match init_step("x", linux(HwAccelType::Vaapi), &opened) {
        InitNext::Fail { error, release } => {
            assert_eq!(error, MediaError::FfmpegError { code: -22, message: "m".to_string() });
            assert_eq!(release, vec![Resource::Pool, Resource::Device, Resource::Context]);
        }
        _ => panic!("goes on"),
    }
    let frames = InitReply::FramesAllocated { hw_frame: true, memory_frame: false, packet: true };
    match init_step("x", linux(HwAccelType::Software), &frames) {
        InitNext::Fail { error, release } => {
            assert_eq!(error, init_error("Failed to allocate AVFrame/AVPacket"));
            assert_eq!(release, vec![Resource::HwFrame, Resource::Packet, Resource::Context]);
        }
        _ => panic!("goes on"),
    }
}

#[test]
fn a_setup_goes_its_way() {
    let step = |hw, r: InitReply| match init_step("x", linux(hw), &r) {
        InitNext::Step(s) => s,
        InitNext::Fail { error, .. } => panic!("{:?}", error),
    };
    let ok = || "".to_string();
    assert_eq!(step(HwAccelType::Nvenc, InitReply::Found(true)), InitStep::AllocContext);
    assert_eq!(
        step(HwAccelType::Nvenc, InitReply::ContextAllocated(true)),
        InitStep::CreateDevice
    );
    assert_eq!(step(HwAccelType::Software, InitReply::ContextAllocated(true)), InitStep::Open);
    assert_eq!(
        step(HwAccelType::Nvenc, InitReply::DeviceCreated { code: 0, present: true, message: ok() }),
        InitStep::AllocPool
    );
    assert_eq!(step(HwAccelType::Nvenc, InitReply::PoolAllocated(true)), InitStep::InitPool);
    assert_eq!(
        step(HwAccelType::Nvenc, InitReply::PoolInitialized { code: 0, message: ok() }),
        InitStep::SharePool
    );
    assert_eq!(step(HwAccelType::Nvenc, InitReply::PoolShared(true)), InitStep::Open);
    assert_eq!(
        step(HwAccelType::Nvenc, InitReply::Opened { code: 0, message: ok() }),
        InitStep::AllocFrames
    );
}

#[test]
fn an_encoder_starts_once() {
    let config = EncoderConfig::default();
    let installed = strings(&["libx264"]);
    let e = FfmpegEncoder::new().unwrap();
    assert_eq!(e.initialize(Platform::Linux, &config, &installed).unwrap().len(), 1);
    assert_eq!(e.encoder_info().name, "uninitialized");
    let e = opened(HwAccelType::Software);
    assert_eq!(
        e.initialize(Platform::Linux, &config, &installed).unwrap_err(),
        init_error("Encoder already initialized")
    );
    assert_eq!(e.encoder_info().name, "enc");
}

#[test]
fn the_first_encoder_that_opens_is_taken() {
    let config = EncoderConfig::default();
    let installed = strings(&["libx264", "h264_vaapi", "h264_nvenc"]);
    let mut e = FfmpegEncoder::new().unwrap();
    let candidates = e.initialize(Platform::Linux, &config, &installed).unwrap();
    let mut errors = Vec::new();
    assert_eq!(e.next_attempt(&candidates, &mut errors), Ok(0));
    errors.push(MediaError::Timeout);
    let i = e.next_attempt(&candidates, &mut errors).unwrap();
    assert_eq!(i, 1);
    assert!(!e.initialized);
    let (name, hw) = &candidates[i];
    e.finish_initialize(&config, name, linux(*hw), &[]);
    let info = e.encoder_info();
    assert_eq!((info.name.as_str(), info.hw_type), ("h264_vaapi", HwAccelType::Vaapi));
    assert_eq!(info.supported_codecs, vec![VideoCodec::H264]);

    let e = FfmpegEncoder::new().unwrap();
    let mut errors = vec![MediaError::Timeout, MediaError::CaptureNotStarted, MediaError::FrameDropped];
    assert_eq!(e.next_attempt(&candidates, &mut errors), Err(MediaError::FrameDropped));
    assert_eq!(
        e.next_attempt(&vec![], &mut Vec::new()),
        Err(init_error("No encoders available"))
    );
    assert!(!e.initialized);
}

#[test]
fn a_failed_frame_leaves_the_key_frame_request() {
    let mut e = opened(HwAccelType::Software);
    let sent = |ops: Vec<EncodeOp>| *ops.last().unwrap();
    e.request_keyframe();
    for _ in 0..3 {
        let ops = e.encode(Platform::Linux, &picture(PixelFormat::NV12), 5, false).unwrap();
        assert_eq!(sent(ops), EncodeOp::Send { hw_frame: false, pts: 0, key: true });
    }
    e.finish_encode();
    let ops = e.encode(Platform::Linux, &picture(PixelFormat::NV12), 6, false).unwrap();
    assert_eq!(sent(ops), EncodeOp::Send { hw_frame: false, pts: 1, key: false });
}

#[test]
fn shutting_down_ends_the_session() {
    let mut e = opened(HwAccelType::Software);
    e.request_keyframe();
    e.encode(Platform::Linux, &picture(PixelFormat::NV12), 5, false).unwrap();
    assert!(e.shutdown());
    for _ in 0..2 {
        let info = e.encoder_info();
        assert_eq!((info.name.as_str(), info.hw_type), ("uninitialized", HwAccelType::Software));
        assert!(info.supported_codecs.is_empty());
        assert_eq!(
            e.encode(Platform::Linux, &picture(PixelFormat::NV12), 0, false).unwrap_err(),
            MediaError::EncoderNotInitialized
        );
        assert_eq!(e.set_bitrate(1).unwrap_err(), MediaError::EncoderNotInitialized);
        assert_eq!(e.set_fps(30), Ok(()));
        assert!(e.config.is_none());
        assert!(e.flush().is_none());
        assert!(!e.force_keyframe);
        assert!(e.sent.is_empty());
        assert!(!e.shutdown());
    }
    let config = EncoderConfig::default();
    assert!(e.initialize(Platform::Linux, &config, &strings(&["libx264"])).is_ok());
    e.request_keyframe();
    e.finish_initialize(&config, "libx264", linux(HwAccelType::Software), &[]);
    assert!(!e.force_keyframe);
}

#[test]
fn listed_names_ask_for_their_hardware() {
    let installed = strings(&[
        "libaom-av1", "libsvtav1", "av1_qsv", "libx265", "hevc_vaapi", "libx264", "h264_nvenc",
    ]);
    let v = FfmpegEncoder::list_available(Platform::Linux, &installed);
    let names: Vec<&str> = v.iter().map(|e| e.name.as_str()).collect();
    assert_eq!(
        names,
        vec![
            "h264_nvenc", "libx264", "hevc_vaapi", "libx265", "av1_qsv", "libsvtav1", "libaom-av1",
        ]
    );
    for e in &v {
        assert_eq!(e.supported_codecs.len(), 1);
        assert_eq!(StreamConfig::parse_encoder_preference(&e.name), Some(e.hw_type));
    }
}

#[test]
fn pictures_are_encoded_in_steps() {
    let mut e = FfmpegEncoder::new().unwrap();
    assert_eq!(
        e.encode(Platform::Linux, &picture(PixelFormat::BGRA), 0, false).unwrap_err(),
        MediaError::EncoderNotInitialized
    );
    let mut e = opened(HwAccelType::Vaapi);
    e.request_keyframe();
    assert_eq!(
        e.encode(Platform::Linux, &picture(PixelFormat::BGRA), 0, false).unwrap(),
        vec![
            EncodeOp::EnsureWritable { width: 4, height: 4, surface: SurfaceFormat::Nv12 },
            EncodeOp::Scale { create: true, target: SurfaceFormat::Nv12 },
            EncodeOp::TakeHwFrame,
            EncodeOp::Upload { width: 4, height: 4 },
            EncodeOp::Send { hw_frame: true, pts: 0, key: true },
        ]
    );
    e.scaler_created();
    e.finish_encode();
    let ops = e.encode(Platform::Linux, &picture(PixelFormat::BGRA), 0, false).unwrap();
    assert_eq!(ops[1], EncodeOp::Scale { create: false, target: SurfaceFormat::Nv12 });
    assert_eq!(ops[4], EncodeOp::Send { hw_frame: true, pts: 1, key: false });
    let mut sw = opened(HwAccelType::Software);
    let ops = sw.encode(Platform::Linux, &picture(PixelFormat::P010), 0, false).unwrap();
    assert_eq!(ops[1], EncodeOp::RefuseP010);
    assert_eq!(ops.len(), 2);
    assert_eq!(
        op_failure(EncodeOp::RefuseP010, 0, ""),
        encode_error("P010 pixel format not supported")
    );
    assert_eq!(op_failure(EncodeOp::TakeHwFrame, -12, "no memory"), ff_err(-12, "no memory"));
}

#[test]
fn device_pictures_need_cuda() {
    let cuda = GpuBuffer::CudaPointer {
        ptr: 1,
        size: 1,
        width: 1,
        height: 1,
        stride: 4,
        format: PixelFormat::BGRA,
    };
    let mut e = opened(HwAccelType::Nvenc);
    assert_eq!(
        e.encode(Platform::Linux, &cuda, 0, false).unwrap_err(),
        encode_error("CUDA driver library not loaded")
    );
    assert_eq!(
        e.encode(Platform::Linux, &cuda, 0, true).unwrap(),
        vec![
            EncodeOp::BindCuda,
            EncodeOp::TakeHwFrame,
            EncodeOp::CopyDevice,
            EncodeOp::Send { hw_frame: true, pts: 0, key: false },
        ]
    );
    assert_eq!(
        opened(HwAccelType::Software).encode(Platform::Linux, &cuda, 0, true).unwrap_err(),
        encode_error("hw_device_ctx is null")
    );
    let texture = GpuBuffer::D3D11Texture { texture: 1, array_index: 0 };
    assert_eq!(
        e.encode(Platform::Linux, &texture, 0, true).unwrap_err(),
        encode_error("Unsupported buffer type for this platform")
    );
    assert_eq!(cuda_bind_result(CudaProbe::Bound(0)), Ok(()));
    assert_eq!(
        cuda_bind_result(CudaProbe::Bound(201)),
        Err(encode_error("cuCtxSetCurrent failed: 201"))
    );
    assert_eq!(
        cuda_bind_result(CudaProbe::NoHardwareContext),
        Err(encode_error("hwctx is null"))
    );
}

#[test]
fn windows_encoders_share_the_device() {
    let c = shared_device();
    let b = Backing::of(Platform::Windows, &c, HwAccelType::Amf);
    assert_eq!(b.d3d11, Some((10, 11)));
    assert_eq!(plan_settings(&c, b).surface, SurfaceFormat::D3d11);
    let p = plan_pool(b).unwrap();
    assert_eq!(p.device, DeviceKind::D3d11 { device: 10, context: 11 });
    assert_eq!((p.surface, p.memory), (SurfaceFormat::D3d11, SurfaceFormat::Nv12));
    assert_eq!((p.bind_flags, p.path, p.pool_size), (Some(8), None, 4));
    let p = plan_pool(Backing::of(Platform::Windows, &c, HwAccelType::Nvenc)).unwrap();
    assert_eq!((p.memory, p.bind_flags), (SurfaceFormat::Bgra, Some(40)));
    assert!(plan_pool(Backing::of(Platform::Windows, &c, HwAccelType::Qsv)).is_none());
    let alone = EncoderConfig::default();
    let b = Backing::of(Platform::Windows, &alone, HwAccelType::Amf);
    assert!(plan_pool(b).is_none());
    assert_eq!(plan_settings(&alone, b).surface, SurfaceFormat::Nv12);
    assert_eq!(Backing::of(Platform::Linux, &c, HwAccelType::Nvenc).d3d11, None);
}

#[test]
fn textures_go_through_memory_without_a_pool() {
    let texture = GpuBuffer::D3D11Texture { texture: 77, array_index: 3 };
    let mut alone = opened_on_windows(&EncoderConfig::default(), HwAccelType::Qsv);
    assert_eq!(
        alone.encode(Platform::Windows, &texture, 0, false).unwrap_err(),
        encode_error("D3D11 device not available in config")
    );
    let mut half = shared_device();
    half.d3d11_context = None;
    assert_eq!(
        opened_on_windows(&half, HwAccelType::Qsv)
            .encode(Platform::Windows, &texture, 0, false)
            .unwrap_err(),
        encode_error("D3D11 context not available in config")
    );
    let mut e = opened_on_windows(&shared_device(), HwAccelType::Qsv);
    assert_eq!(
        e.encode(Platform::Windows, &texture, 0, false).unwrap(),
        vec![
            EncodeOp::StageTexture { texture: 77, array_index: 3 },
            EncodeOp::Send { hw_frame: false, pts: 0, key: false },
        ]
    );
    let tail = vec![
        StageOp::Copy { slice: 3 },
        StageOp::MapStaging,
        StageOp::EnsureWritable { width: 64, height: 32, surface: SurfaceFormat::Nv12 },
        StageOp::Scale { create: true, target: SurfaceFormat::Nv12 },
        StageOp::UnmapStaging,
    ];
    let ops = e.stage_texture(64, 32, 3);
    assert_eq!(ops[0], StageOp::Create { width: 64, height: 32 });
    assert_eq!(&ops[1..], &tail[..]);
    e.staging_created(64, 32);
    assert_eq!(e.stage_texture(64, 32, 3), tail);
    assert_eq!(e.stage_texture(64, 33, 3)[0], StageOp::Create { width: 64, height: 33 });
    assert!(e.shutdown());
    assert_eq!(e.textures.staging, Some((64, 32)));
}

#[test]
fn staging_faults_unmap_what_is_mapped() {
    let f = |s: &str, unmap: bool| (encode_error(s), unmap);
    assert_eq!(
        stage_failure(StageFault::Create("x")),
        f("CreateTexture2D staging failed: x", false)
    );
    assert_eq!(
        stage_failure(StageFault::CastSource("x")),
        f("Cast src_tex to ID3D11Resource failed: x", false)
    );
    assert_eq!(
        stage_failure(StageFault::CastStaging("x")),
        f("Cast staging to ID3D11Resource failed: x", false)
    );
    assert_eq!(stage_failure(StageFault::Mapping("x")), f("Map staging failed: x", false));
    assert_eq!(
        stage_failure(StageFault::Frame { code: -12, message: "m" }),
        (ff_err(-12, "m"), true)
    );
    assert_eq!(
        stage_failure(StageFault::Scaler),
        f("Failed to create SwsContext for BGRA\u{2192}YUV/NV12", true)
    );
}

#[test]
fn textures_are_converted_on_the_device() {
    let c = shared_device();
    let mut e = opened_on_windows(&c, HwAccelType::Amf);
    let texture = GpuBuffer::D3D11Texture { texture: 77, array_index: 3 };
    assert_eq!(
        e.encode(Platform::Windows, &texture, 0, false).unwrap(),
        vec![
            EncodeOp::TakeHwFrame,
            EncodeOp::ConvertTexture { texture: 77, array_index: 3, width: 1920, height: 1080 },
            EncodeOp::Send { hw_frame: true, pts: 0, key: false },
        ]
    );
    let mut p = TexturePair {
        source: 77,
        slice: 3,
        source_desc: TextureDesc { format: 87, array_size: 1 },
        target: 88,
        target_slice: 5,
        target_desc: TextureDesc { format: 103, array_size: 4 },
    };
    let steps = e.convert_texture(p).unwrap();
    assert_eq!(
        steps,
        vec![
            TextureStep::MakeVideoDevice,
            TextureStep::MakeVideoContext,
            TextureStep::MakeProcessor(ContentDesc {
                fps: 60,
                input_width: 1920,
                input_height: 1080,
                output_width: 1920,
                output_height: 1080,
            }),
            TextureStep::MakeInputView { slice: 3 },
            TextureStep::MakeOutputView { slice: Some(5) },
            TextureStep::Convert,
            TextureStep::Flush,
        ]
    );
    for step in steps {
        e.texture_step_done(p, step);
    }
    assert_eq!(
        e.convert_texture(p).unwrap(),
        vec![TextureStep::Convert, TextureStep::Flush]
    );
    p.target_slice = 6;
    p.target_desc.array_size = 1;
    assert_eq!(
        e.convert_texture(p).unwrap(),
        vec![
            TextureStep::MakeInputView { slice: 3 },
            TextureStep::MakeOutputView { slice: None },
            TextureStep::Convert,
            TextureStep::Flush,
        ]
    );
    p.target_desc.format = 87;
    assert_eq!(
        e.convert_texture(p).unwrap(),
        vec![TextureStep::CopyRegion { from: 3, to: 6 }, TextureStep::Flush]
    );
    let mut half = c;
    half.d3d11_device = None;
    let e = opened_on_windows(&half, HwAccelType::Nvenc);
    assert!(e.convert_texture(p).is_ok());
    p.target_desc.format = 103;
    assert_eq!(
        e.convert_texture(p).unwrap_err(),
        encode_error("D3D11 device not available in config")
    );
    assert_eq!(
        texture_failure(TextureFault::CopyCast),
        encode_error("Failed to cast textures to ID3D11Resource")
    );
    assert_eq!(
        texture_failure(TextureFault::Call(VideoCall::CastDestination, "x")),
        encode_error("Cast dst_tex to ID3D11Resource failed: x")
    );
}

#[test]
fn packets_become_frames() {
    let mut e = opened(HwAccelType::Software);
    let sps = [0, 0, 0, 1, 0x67, 1, 0, 0, 0, 1, 0x68, 2];
    let mut first = sps.to_vec();
    first.extend_from_slice(&[0, 0, 0, 1, 0x65, 3]);
    for pts_us in [7_000, 40_000, 55_500] {
        e.encode(Platform::Linux, &picture(PixelFormat::NV12), 1, false).unwrap();
        e.encode(Platform::Linux, &picture(PixelFormat::NV12), pts_us, false).unwrap();
        e.finish_encode();
    }
    assert_eq!(e.sent, vec![(0, 7_000), (1, 40_000), (2, 55_500)]);
    let f = e.on_packet(first.clone(), true, 0, VideoCodec::H264, 60, true);
    assert_eq!((f.data, f.frame_type, f.pts, f.duration), (first, FrameType::Key, 7_000, 16_666));
    let f = e.on_packet(vec![0, 0, 0, 1, 0x65, 9], true, 1, VideoCodec::H264, 60, true);
    assert_eq!(&f.data[..12], &sps);
    assert_eq!(f.pts, 40_000);
    assert_eq!(e.sent, vec![(1, 40_000), (2, 55_500)]);
    let f = e.on_packet(vec![7], false, 2, VideoCodec::H264, 60, true);
    assert_eq!((f.data, f.frame_type, f.pts), (vec![7], FrameType::Inter, 55_500));
    let f = e.on_packet(vec![7], false, i64::MIN, VideoCodec::H264, 60, true);
    assert_eq!(f.pts, 0);
    let f = e.on_packet(vec![7], false, 3, VideoCodec::H264, 60, true);
    assert_eq!(f.pts, 0);
    assert!(matches!(packet_status(-11, -11, -541, ""), PacketStatus::Done));
    assert!(matches!(packet_status(-541, -11, -541, ""), PacketStatus::Done));
    assert!(matches!(packet_status(0, -11, -541, ""), PacketStatus::Packet));
    match packet_status(-5, -11, -541, "io") {
        PacketStatus::Failed(e) => assert_eq!(e, ff_err(-5, "io")),
        _ => panic!("no error"),
    }
}

#[test]
fn rates_change_while_running() {
    let mut e = FfmpegEncoder::new().unwrap();
    assert_eq!(e.set_bitrate(1).unwrap_err(), MediaError::EncoderNotInitialized);
    assert!(e.flush().is_none());
    assert!(!e.shutdown());
    let mut e = opened(HwAccelType::Software);
    let u = e.set_bitrate(2500).unwrap();
    assert_eq!((u.bit_rate, u.rc_max_rate, u.rc_buffer_size), (2_500_000, 2_500_000, 2_500_000));
    assert!(e.force_keyframe);
    assert_eq!(e.config.as_ref().unwrap().bitrate_kbps, 2500);
    assert_eq!(e.flush(), Some((VideoCodec::H264, 60)));
    e.force_keyframe = false;
    assert_eq!(e.set_fps(0), Ok(()));
    assert_eq!(e.flush(), Some((VideoCodec::H264, 1)));
    assert_eq!(e.set_fps(25), Ok(()));
    assert_eq!(e.flush(), Some((VideoCodec::H264, 25)));
    assert!(!e.force_keyframe);
    assert!(e.shutdown());
    assert!(!e.initialized);
}

#[test]
fn rows_are_copied_within_their_strides() {
    let src: Vec<u8> = (0..12).collect();
    let mut dst = vec![99u8; 10];
    copy_rows(&src, 1, 4, &mut dst, 5, 3, 2);
    assert_eq!(dst, vec![1, 2, 3, 99, 99, 5, 6, 7, 99, 99]);
    let mut y = vec![0u8; 4];
    let mut uv = vec![0u8; 2];
    copy_nv12(&src, 4, 2, 2, &mut y, 2, &mut uv, 2);
    assert_eq!((y, uv), (vec![0, 1, 4, 5], vec![8, 9]));
}

#[test]
fn equal_strides_copy_the_padding_too() {
    let src: Vec<u8> = (0..16).collect();
    let mut dst = vec![99u8; 16];
    copy_bgra(&src, 8, 1, 2, &mut dst, 8);
    assert_eq!(dst, src);
    let mut cut = vec![99u8; 10];
    copy_bgra(&src[..12], 8, 1, 2, &mut cut, 6);
    assert_eq!(cut, vec![0, 1, 2, 3, 99, 99, 8, 9, 10, 11]);
    let mut wide = vec![99u8; 24];
    copy_bgra(&src, 8, 1, 2, &mut wide, 12);
    assert_eq!(&wide[..4], &src[..4]);
    assert_eq!(&wide[4..12], &[99; 8]);
    assert_eq!(&wide[12..16], &src[8..12]);
}

#[test]
fn device_copies_are_planned() {
    let src = Plane { address: 1000, stride: 8 };
    let y = Plane { address: 2000, stride: 8 };
    let uv = Plane { address: 3000, stride: 8 };
    assert_eq!(
        plan_device_copies(PixelFormat::BGRA, src, 2, 2, y, uv),
        vec![DeviceCopy { part: CopyPart::BgraPlane, dst: 2000, src: 1000, len: 16 }]
    );
    let narrow = Plane { address: 2000, stride: 16 };
    assert_eq!(
        plan_device_copies(PixelFormat::BGRA, src, 2, 2, narrow, uv),
        vec![
            DeviceCopy { part: CopyPart::BgraRow(0), dst: 2000, src: 1000, len: 8 },
            DeviceCopy { part: CopyPart::BgraRow(1), dst: 2016, src: 1008, len: 8 },
        ]
    );
    assert_eq!(device_copy_result(CopyPart::YPlane, 0), Ok(()));
    assert_eq!(
        device_copy_result(CopyPart::BgraRow(3), 700),
        Err(encode_error("cuMemcpyDtoD BGRA row 3 failed: 700"))
    );
}

fn card(name: &str, vendor: Option<&str>) -> DrmCard {
    DrmCard {
        name: name.to_string(),
        vendor: vendor.map(|s| s.to_string()),
        device: Some("0x744c\n".to_string()),
        product_name: None,
        product_info: None,
        uevent: None,
    }
}

#[test]
fn graphics_cards_are_described() {
    let info = Some("Irq: 3\nModel: \t GeForce RTX \nBus: 1\n".to_string());
    assert_eq!(
        describe_nvidia_proc_gpu(&vec![Some("Model: \n".to_string()), info.clone()]),
        Some("NVIDIA GeForce RTX".to_string())
    );
    assert_eq!(describe_nvidia_proc_gpu(&vec![None, info.clone()]), None);
    let mut amd = card("card0", Some("0x1002\n"));
    assert_eq!(
        describe_drm_gpu(&vec![card("renderD128", None), card("card0-DP-1", None), amd.clone()]),
        Some("AMD GPU (vendor=0x1002, device=0x744c)".to_string())
    );
    amd.uevent = Some("A=1\nDRIVER=amdgpu\n".to_string());
    assert_eq!(
        describe_drm_gpu(&vec![amd.clone()]),
        Some("AMD GPU (amdgpu, vendor=0x1002, device=0x744c)".to_string())
    );
    amd.product_info = Some(" Radeon \n".to_string());
    let name = "AMD Radeon (vendor=0x1002, device=0x744c)".to_string();
    assert_eq!(describe_linux_gpu(&vec![], &vec![amd.clone()]), Some(name));
    assert_eq!(
        describe_linux_gpu(&vec![info], &vec![amd]),
        Some("NVIDIA GeForce RTX".to_string())
    );
    assert_eq!(describe_drm_gpu(&vec![card("card0", None)]), None);
}

#[test]
fn adapters_are_described() {
    let desc = |s: &str| AdapterDesc {
        description: s.encode_utf16().collect(),
        vendor_id: 0x10de,
        device_id: 0x2684,
    };
    assert_eq!(
        describe_d3d11_device(&Some(desc(" RTX\u{e9} "))),
        Some("RTX\u{e9} (vendor=0x10de, device=0x2684)".to_string())
    );
    assert_eq!(
        describe_d3d11_device(&Some(desc("  "))),
        Some("Unknown GPU (vendor=0x10de, device=0x2684)".to_string())
    );
    assert_eq!(describe_d3d11_device(&None), None);
    assert_eq!(describe_host_gpu(Platform::MacOs, &Some(desc("x")), &vec![], &vec![]), None);
    assert_eq!(
        describe_host_gpu(Platform::Windows, &Some(desc("x")), &vec![], &vec![]),
        Some("x (vendor=0x10de, device=0x2684)".to_string())
    );
}
