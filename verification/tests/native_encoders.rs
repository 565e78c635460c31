use lunaris_media::capture::gpu_buffer::GpuBuffer;
use lunaris_media::encode::native_setup::{setup_start, NativeResource, SetupNext, SetupStep};
use lunaris_media::encode::video_processor::{
    convert_bgra_to_nv12, create_slots, ensure_video_processor, texture_failure, video_failure,
    view_missing, ConvertSource, ConvertStep, NativeEncoder, VideoCall,
};
use lunaris_media::encode::windows_amf::{
    align_to, amf_call_result, amf_ok, amf_wide, buffer_result, configure_component, creation_result,
    drain_result, property_result, query_output_result, surface_properties,
    surface_property_result, AmfCall, AmfFlush, AmfLoad, AmfNext, AmfObject, AmfOutput,
    AmfVariant, WindowsAmfEncoder,
};
use lunaris_media::encode::windows_auto::{
    create_encoder, list_available_encoders, EncoderBackend, NativeAvailable, NativeKind,
    WindowsAutoEncoder, WindowsEncoderBackend,
};
use lunaris_media::encode::windows_nvenc::{
    call_result, check_h264_nv12_support, choose_preset, nvenc_extended_struct_version,
    nvenc_status, nvenc_struct_version, setup_of, Guid, NvencCall, NvencLoad,
    WindowsNvencEncoder,
};
use lunaris_media::encode::windows_qsv::{
    align16, next_implementation, session_result, session_source, setup_result, LoaderReply,
    QsvFunctions, QsvLoad, QsvOutput, QsvSetupCall, SessionSource, WindowsQsvEncoder,
};
use lunaris_media::encode::{frame_duration_us, keyframe_gap_of, EncoderConfig, VideoEncoder};
use lunaris_media::{
    EncodedVideoFrame, EncoderInfo, FrameType, HwAccelType, MediaError, Platform, VideoCodec,
};

const IDR: [u8; 6] = [0, 0, 0, 1, 0x65, 1];

fn init_error(s: &str) -> MediaError {
    MediaError::EncoderInitFailed(s.to_string())
}

fn encode_error(s: &str) -> MediaError {
    MediaError::EncodeError(s.to_string())
}

fn with_device() -> EncoderConfig {
    let mut c = EncoderConfig::default();
    c.d3d11_device = Some(11);
    c.d3d11_context = Some(12);
    c
}

fn texture() -> GpuBuffer {
    GpuBuffer::D3D11Texture { texture: 5, array_index: 1 }
}

fn memory() -> GpuBuffer {
    GpuBuffer::CpuBuffer {
        data: vec![],
        stride: 0,
        format: lunaris_media::PixelFormat::BGRA,
        width: 0,
        height: 0,
    }
}

fn nvenc() -> WindowsNvencEncoder {
    WindowsNvencEncoder::new(&NvencLoad::Loaded {
        version_status: 0,
        max_supported: 12 * 16,
        create_status: 0,
    })
    .unwrap()
}

fn amf() -> WindowsAmfEncoder {
    let load = AmfLoad::Loaded { query_status: 0, init_status: 0, has_factory: true };
    WindowsAmfEncoder::new(&load, None).unwrap()
}

fn all_functions() -> QsvFunctions {
    QsvFunctions {
        init: true,
        close: true,
        set_handle: true,
        encode_query: true,
        encode_init: true,
        encode_frame: true,
        encode_close: true,
        sync: true,
    }
}

fn qsv() -> WindowsQsvEncoder {
    WindowsQsvEncoder::new(&QsvLoad::Loaded(all_functions())).unwrap()
}

#[test]
fn frames_last_their_share() {
    assert_eq!(frame_duration_us(60), 16_666);
    assert_eq!(frame_duration_us(0), 0);
    let mut c = EncoderConfig::default();
    assert_eq!(keyframe_gap_of(&c), 120);
    c.keyframe_interval = 7;
    assert_eq!(keyframe_gap_of(&c), 7);
}

/// The steps of a set-up where all goes well.
fn steps_of(
    kind: NativeEncoder,
    mut take: impl FnMut(SetupStep) -> SetupNext,
) -> Vec<SetupStep> {
    let mut steps = vec![setup_start(kind)];
    loop {
        match take(*steps.last().unwrap()) {
            SetupNext::Step(SetupStep::Finish) => return steps,
            SetupNext::Step(next) => steps.push(next),
            SetupNext::Fail { error, .. } => panic!("{:?}", error),
        }
    }
}

fn nvenc_made() -> WindowsNvencEncoder {
    let mut e = nvenc();
    steps_of(NativeEncoder::Nvenc, |step| e.setup_step(step, Ok(())));
    e
}

fn amf_made() -> WindowsAmfEncoder {
    let mut e = amf();
    steps_of(NativeEncoder::Amf, |step| e.setup_step(step, Ok(())));
    e
}

fn qsv_made() -> WindowsQsvEncoder {
    let mut e = qsv();
    steps_of(NativeEncoder::Qsv, |step| e.setup_step(step, Ok(())));
    e
}

fn release_on_failure(next: SetupNext) -> Vec<NativeResource> {
    match next {
        SetupNext::Fail { error, release } => {
            assert_eq!(error, MediaError::Timeout);
            release
        }
        SetupNext::Step(step) => panic!("{:?}", step),
    }
}

#[test]
fn nvenc_setup_keeps_track_of_what_it_made() {
    let mut e = nvenc();
    let steps = steps_of(NativeEncoder::Nvenc, |step| e.setup_step(step, Ok(())));
    assert_eq!(
        steps[..5],
        [
            SetupStep::OpenSession,
            SetupStep::CheckSupport,
            SetupStep::ChoosePreset,
            SetupStep::InitEncoder,
            SetupStep::CreateTexture(0),
        ]
    );
    assert_eq!(steps[15], SetupStep::CreateBitstream(3));
    assert_eq!((steps.len(), e.slots, e.session), (16, 4, true));
    let mut e = nvenc();
    let mut failed = Vec::new();
    for step in &steps {
        let release = release_on_failure(e.setup_step(*step, Err(MediaError::Timeout)));
        failed.push(release);
        e.setup_step(*step, Ok(()));
    }
    assert!(failed[0].is_empty());
    for release in &failed[1..7] {
        assert_eq!(release, &vec![NativeResource::NvencSession]);
    }
    assert_eq!(
        failed[9],
        vec![
            NativeResource::Registration(0),
            NativeResource::Bitstream(0),
            NativeResource::NvencSession,
        ]
    );
    assert_eq!(failed[15].len(), 7);
    assert_eq!(e.shutdown().len(), 9);
    assert_eq!((e.session, e.slots, e.initialized), (false, 0, false));
    assert!(e.shutdown().is_empty());
}

#[test]
fn amf_setup_keeps_track_of_what_is_ready() {
    let mut e = amf();
    let steps = steps_of(NativeEncoder::Amf, |step| e.setup_step(step, Ok(())));
    assert_eq!(
        steps[..6],
        [
            SetupStep::CreateContext,
            SetupStep::BindContext,
            SetupStep::CreateComponent,
            SetupStep::Configure,
            SetupStep::InitEncoder,
            SetupStep::CreateTexture(0),
        ]
    );
    assert_eq!((steps.len(), e.slots), (9, 4));
    let mut e = amf();
    let mut failed = Vec::new();
    for step in &steps {
        failed.push(release_on_failure(e.setup_step(*step, Err(MediaError::Timeout))));
        e.setup_step(*step, Ok(()));
    }
    assert!(failed[0].is_empty() && failed[1].is_empty());
    assert_eq!(failed[4], vec![NativeResource::AmfContext]);
    assert_eq!(failed[5], vec![NativeResource::AmfComponent, NativeResource::AmfContext]);
    assert_eq!(e.shutdown(), vec![NativeResource::AmfComponent, NativeResource::AmfContext]);
    assert!(e.shutdown().is_empty());
    assert_eq!(e.slots, 0);
}

#[test]
fn qsv_setup_keeps_track_of_its_session() {
    let mut e = qsv();
    let steps = steps_of(NativeEncoder::Qsv, |step| e.setup_step(step, Ok(())));
    assert_eq!(
        steps[..4],
        [
            SetupStep::OpenSession,
            SetupStep::BindDevice,
            SetupStep::QueryParameters,
            SetupStep::InitEncoder,
        ]
    );
    assert_eq!((steps.len(), e.slots), (8, 4));
    let mut e = qsv();
    assert!(release_on_failure(e.setup_step(steps[0], Err(MediaError::Timeout))).is_empty());
    e.setup_step(steps[0], Ok(()));
    let both = vec![NativeResource::QsvEncoder, NativeResource::QsvSession];
    assert_eq!(release_on_failure(e.setup_step(steps[1], Err(MediaError::Timeout))), both);
    e.functions.encode_close = false;
    assert_eq!(e.shutdown(), vec![NativeResource::QsvSession]);
    assert!(e.shutdown().is_empty());
}

#[test]
fn nvenc_is_loaded_or_explained() {
    let load = |v, m, c| NvencLoad::Loaded { version_status: v, max_supported: m, create_status: c };
    assert!(WindowsNvencEncoder::is_available(&load(0, 200, 0)));
    assert_eq!(
        WindowsNvencEncoder::new(&load(0, 11 * 16 + 15, 0)).err().unwrap(),
        init_error("NVIDIA driver NVENC API 11 is older than required 12")
    );
    assert_eq!(
        WindowsNvencEncoder::new(&load(0, 200, 15)).err().unwrap(),
        encode_error("NvEncodeAPICreateInstance failed with NVENC status 15")
    );
    assert_eq!(
        WindowsNvencEncoder::new(&NvencLoad::NoLibrary("gone".to_string())).err().unwrap(),
        init_error("LoadLibraryA(nvEncodeAPI64.dll) failed: gone")
    );
    assert!(!WindowsNvencEncoder::is_available(&NvencLoad::NoVersionFunction));
    assert_eq!(nvenc_struct_version(1), 0x7001_000c);
    assert_eq!(nvenc_extended_struct_version(5), 0xf005_000c);
    assert_eq!(nvenc_status(0, "X"), Ok(()));
    assert_eq!(nvenc_status(8, "X"), Err(encode_error("X failed with NVENC status 8")));
}

#[test]
fn nvenc_needs_h264_and_nv12() {
    let h264 = Guid { data1: 0x6bc82762, data2: 0x4e63, data3: 0x4ca4, data4: 0xaa851e50f321f6bf };
    let other = Guid { data1: 1, data2: 2, data3: 3, data4: 4 };
    assert_eq!(check_h264_nv12_support(&vec![other, h264], 2, &vec![9, 1], 2), Ok(()));
    assert_eq!(
        check_h264_nv12_support(&vec![other, h264], 1, &vec![1], 1),
        Err(init_error("NVENC H.264 GUID not supported"))
    );
    assert_eq!(
        check_h264_nv12_support(&vec![h264], 1, &vec![9], 1),
        Err(init_error("NVENC NV12 input not supported"))
    );
    assert_eq!(choose_preset(2, &vec![other, h264]), Ok(other));
    assert_eq!(choose_preset(0, &vec![other]), Err(init_error("NVENC returned no H.264 presets")));
    assert_eq!(choose_preset(1, &vec![]), Err(init_error("NVENC preset list was empty")));
    let mut c = EncoderConfig::default();
    c.fps = 0;
    let s = setup_of(&c, other);
    assert_eq!((s.width, s.height, s.frame_rate_num, s.frame_rate_den), (1920, 1080, 1, 1));
}

#[test]
fn nvenc_asks_for_a_device() {
    let mut c = EncoderConfig::default();
    assert!(nvenc().initialize(&c).is_err());
    c.codec = VideoCodec::H265;
    assert_eq!(
        nvenc().initialize(&c),
        Err(init_error("native Windows NVENC v1 supports H.264 only"))
    );
    assert_eq!(nvenc().initialize(&with_device()), Ok((11, 12)));
}

#[test]
fn nvenc_key_frames_carry_the_headers() {
    let mut e = nvenc_made();
    assert_eq!(e.encode(&texture(), 0).unwrap_err(), MediaError::EncoderNotInitialized);
    e.finish_initialize(&with_device(), 0, &[0, 0, 0, 1, 0x67, 9, 9], 6);
    assert_eq!(
        e.encode(&memory(), 0).unwrap_err(),
        encode_error("native Windows NVENC requires GpuBuffer::D3D11Texture")
    );
    let p = e.encode(&texture(), 77).unwrap();
    assert_eq!((p.slot, p.frame_idx, p.timestamp, p.duration, p.flags), (0, 0, 77, 16_666, 6));
    assert_eq!(e.on_encoded(0), Ok(true));
    let f = e.drain_slot(0, IDR.to_vec(), 0, 77).unwrap();
    assert_eq!(f[0].data, vec![0, 0, 0, 1, 0x67, 9, 0, 0, 0, 1, 0x65, 1]);
    assert_eq!((f[0].frame_type, f[0].pts), (FrameType::Key, 77));
    let p = e.encode(&texture(), 88).unwrap();
    assert_eq!((p.slot, p.frame_idx, p.flags), (1, 1, 0));
    assert_eq!(e.on_encoded(10), Ok(false));
    assert_eq!(
        e.on_encoded(7),
        Err(encode_error("NvEncEncodePicture failed with NVENC status 7"))
    );
    assert_eq!(
        e.drain_slot(3, vec![], 0, 1),
        Err(encode_error("NvEncLockBitstream failed with NVENC status 3"))
    );
    assert_eq!(e.drain_slot(0, vec![], 0, 1), Ok(vec![]));
    let f = e.drain_slot(0, vec![1, 2], 0, 9).unwrap();
    assert_eq!((f[0].data.clone(), f[0].frame_type), (vec![1, 2], FrameType::Inter));
    assert!(e.flush().is_empty());
    assert_eq!(e.shutdown().last(), Some(&NativeResource::NvencSession));
}

#[test]
fn amf_is_loaded_or_explained() {
    let load = |q, i, f| AmfLoad::Loaded { query_status: q, init_status: i, has_factory: f };
    assert!(WindowsAmfEncoder::is_available(&load(0, 12, true)));
    assert_eq!(
        WindowsAmfEncoder::new(&load(0, 0, false), None).err().unwrap(),
        init_error("AMFInit returned null factory")
    );
    assert_eq!(
        WindowsAmfEncoder::new(&load(0, 3, true), None).err().unwrap(),
        encode_error("AMFInit failed with AMF status 3")
    );
    assert!(WindowsAmfEncoder::new(&load(0, 0, true), Some("yes")).unwrap().flush_each_frame);
    assert_eq!(amf_ok(-1, "Op"), Err(encode_error("Op failed with AMF status -1")));
    assert_eq!(amf_wide("Ab"), vec![0x41, 0x62, 0]);
    assert_eq!(align_to(1080, 16), 1088);
    assert_eq!(align_to(0, 16), 0);
}

#[test]
fn amf_gets_its_properties() {
    let v = configure_component(&EncoderConfig::default());
    let find = |n: &str| v.iter().find(|p| p.name == n).unwrap();
    assert_eq!(v.len(), 13);
    assert_eq!(find("Usage").value, AmfVariant::Int64(1));
    assert!(find("Usage").required);
    assert_eq!(find("FrameSize").value, AmfVariant::Size { width: 1920, height: 1080 });
    assert_eq!(find("FrameRate").value, AmfVariant::Rate { num: 60, den: 1 });
    assert_eq!(find("TargetBitrate").value, AmfVariant::Int64(10_000_000));
    assert_eq!(find("IDRPeriod").value, AmfVariant::Int64(120));
    assert_eq!(property_result(find("PeakBitrate"), 5), Ok(()));
    assert_eq!(
        property_result(find("Usage"), 5),
        Err(encode_error("AMFComponent::SetProperty(Usage) failed with AMF status 5"))
    );
}

#[test]
fn amf_runs_through_its_states() {
    let mut e = amf_made();
    assert!(e.wrap_surface(0).is_none());
    assert_eq!(e.encode(&texture()).unwrap_err(), MediaError::EncoderNotInitialized);
    e.finish_initialize(&with_device());
    let p = e.encode(&texture()).unwrap();
    assert!(p.new_input_view);
    e.view_created(5, 1);
    assert!(!e.encode(&texture()).unwrap().new_input_view);
    let s = e.wrap_surface(100).unwrap();
    assert_eq!((s.pts, s.duration, s.force_idr), (1000, 166_666, true));
    assert!(matches!(e.on_submitted(25, false), AmfNext::DrainAndRetry));
    assert!(matches!(e.on_submitted(0, false), AmfNext::Drain));
    match e.on_submitted(25, true) {
        AmfNext::Failed(x) => assert_eq!(
            x,
            encode_error("AMFComponent::SubmitInput retry failed with AMF status 25")
        ),
        _ => panic!("no error"),
    }
    assert!(matches!(query_output_result(24, true), AmfOutput::Done));
    assert!(matches!(query_output_result(0, false), AmfOutput::Done));
    assert!(matches!(query_output_result(0, true), AmfOutput::Take));
    assert!(matches!(drain_result(25), AmfFlush::Again));
    assert!(matches!(drain_result(23), AmfFlush::Last));
    assert!(matches!(drain_result(3), AmfFlush::Failed(_)));
    assert_eq!(e.drain_output(vec![1], 5).unwrap().unwrap().frame_type, FrameType::Key);
    e.finish_encode();
    assert_eq!(e.drain_output(vec![1], 5).unwrap().unwrap().frame_type, FrameType::Inter);
    assert_eq!(e.drain_output(IDR.to_vec(), 5).unwrap().unwrap().frame_type, FrameType::Key);
    assert_eq!(e.drain_output(vec![], 5), Ok(None));
    let rates = e.set_bitrate(2000).unwrap();
    assert_eq!(rates[0].value, AmfVariant::Int64(2_000_000));
    e.shutdown();
    assert!(!e.initialized);
}

#[test]
fn qsv_is_loaded_or_explained() {
    let mut f = all_functions();
    f.close = false;
    assert_eq!(
        WindowsQsvEncoder::new(&QsvLoad::Loaded(f)).err().unwrap(),
        init_error("libvpl.dll missing required MFXInit/MFXClose functions")
    );
    let mut f = all_functions();
    f.encode_frame = false;
    assert!(!WindowsQsvEncoder::is_available(&QsvLoad::Loaded(f)));
    let mut reply = LoaderReply {
        loaded: true,
        can_create: true,
        status: 0,
        has_session: true,
        can_unload: true,
    };
    assert_eq!(session_source(reply), SessionSource::Loader);
    reply.status = -1;
    assert_eq!(session_source(reply), SessionSource::Implementations { unload: true });
    reply.loaded = false;
    assert_eq!(session_source(reply), SessionSource::Implementations { unload: false });
    assert_eq!(next_implementation(0, 5), Some(1));
    assert_eq!(next_implementation(3, 5), Some(4));
    assert_eq!(next_implementation(4, 5), None);
    assert_eq!(next_implementation(2, 0), None);
    assert_eq!(session_result(-3, true), Ok(()));
    assert_eq!(
        session_result(-3, false),
        Err(init_error("MFXInit failed with all implementations, last status: -3"))
    );
    assert_eq!(setup_result(QsvSetupCall::Query, all_functions(), 14), Ok(()));
    assert_eq!(
        setup_result(QsvSetupCall::Init, all_functions(), -9),
        Err(init_error("MFXVideoENCODE_Init failed: -9"))
    );
    let mut f = all_functions();
    f.set_handle = false;
    assert_eq!(
        setup_result(QsvSetupCall::SetHandle, f, 0),
        Err(init_error("MFXVideoCORE_SetHandle not found"))
    );
    assert_eq!(align16(1080), 1088);
}

#[test]
fn qsv_cuts_frames_out_of_the_bitstream() {
    let mut e = qsv_made();
    assert_eq!(
        e.initialize(&EncoderConfig::default()).unwrap_err(),
        init_error("D3D11 device not available")
    );
    assert_eq!(e.initialize(&with_device()), Ok((11, 12)));
    let p = e.init_encoder(&with_device());
    assert_eq!((p.width, p.height, p.crop_w, p.crop_h), (1920, 1088, 1920, 1080));
    assert_eq!((p.frame_rate, p.gop_pic_size, p.target_kbps), (60, 120, 5_000));
    let mut rare = with_device();
    rare.keyframe_interval = 240;
    assert_eq!(e.init_encoder(&rare).gop_pic_size, 240);
    e.finish_initialize(&with_device());
    e.request_keyframe();
    let picture = e.encode(&texture()).unwrap();
    assert_eq!((picture.slot, picture.forced_type), (0, 0x8a));
    let mut o = QsvOutput {
        encode_status: 0,
        sync_status: 0,
        data_offset: 1,
        data_length: 2,
        frame_type: 0x8a,
    };
    let f = e.encode_surface(o, &[9, 8, 7, 6], 50).unwrap();
    assert_eq!((f[0].data.clone(), f[0].frame_type, f[0].pts), (vec![8, 7], FrameType::Key, 50));
    o.encode_status = 10;
    assert_eq!(e.encode_surface(o, &[], 50), Ok(vec![]));
    o.encode_status = -4;
    assert_eq!(
        e.encode_surface(o, &[], 50),
        Err(encode_error("MFXVideoENCODE_EncodeFrameAsync failed: -4"))
    );
    o.encode_status = 0;
    o.sync_status = 2;
    assert_eq!(
        e.encode_surface(o, &[], 50),
        Err(encode_error("MFXVideoCORE_SyncOperation failed: 2"))
    );
    assert_eq!(e.set_fps(0), Ok(()));
    assert_eq!(e.config.as_ref().unwrap().fps, 1);
}

#[test]
fn one_native_encoder_is_tried() {
    let c = with_device();
    assert_eq!(WindowsAutoEncoder::initialize(&c, Some(0x10de)), Ok(vec![NativeKind::Nvenc]));
    assert_eq!(WindowsAutoEncoder::initialize(&c, Some(0x1002)), Ok(vec![NativeKind::Amf]));
    assert_eq!(WindowsAutoEncoder::initialize(&c, Some(0x8086)), Ok(vec![NativeKind::Qsv]));
    assert_eq!(WindowsAutoEncoder::initialize(&EncoderConfig::default(), None), Ok(vec![]));
    let mut forced = with_device();
    forced.force_ffmpeg = true;
    assert!(WindowsAutoEncoder::initialize(&forced, Some(0x10de)).is_err());
    assert_eq!(
        WindowsAutoEncoder::detected_d3d11_hw(&c, Some(0x10de)),
        Some(HwAccelType::Nvenc)
    );
    assert!(WindowsAutoEncoder::has_d3d11_pair(&c));
}

#[test]
fn the_chosen_encoder_is_driven() {
    let mut a = WindowsAutoEncoder::new();
    assert_eq!(a.set_bitrate(1).unwrap_err(), MediaError::EncoderNotInitialized);
    assert_eq!(a.set_fps(1).unwrap_err(), MediaError::EncoderNotInitialized);
    assert!(a.encode().is_err());
    assert_eq!(a.encoder_info().name, "uninitialized");
    let mut q = qsv_made();
    q.finish_initialize(&with_device());
    a.adopt(WindowsEncoderBackend::NativeQsv(q));
    assert_eq!(a.encoder_info().name, "native_qsv_d3d11");
    assert_eq!(a.set_fps(30), Ok(()));
    a.request_keyframe();
    match a.encode() {
        Ok(WindowsEncoderBackend::NativeQsv(q)) => {
            assert!(q.force_keyframe);
            assert_eq!(q.config.as_ref().unwrap().fps, 30);
        }
        _ => panic!("another encoder"),
    }
    assert!(!a.flush());
    let (_, release) = a.shutdown().unwrap();
    assert_eq!(release, vec![NativeResource::QsvEncoder, NativeResource::QsvSession]);
    assert!(a.shutdown().is_none());
    assert!(a.backend.is_none());
}

#[test]
fn frame_rates_change_while_running() {
    let mut e = nvenc_made();
    assert_eq!(e.set_fps(30), Ok(()));
    assert!(e.config.is_none());
    e.finish_initialize(&with_device(), 1, &[], 0);
    e.force_keyframe = false;
    assert_eq!(e.set_fps(0), Ok(()));
    assert_eq!(e.config.as_ref().unwrap().fps, 1);
    assert!(!e.force_keyframe);
    let mut a = WindowsAutoEncoder::new();
    a.adopt(WindowsEncoderBackend::NativeAmf(amf()));
    assert_eq!(a.set_fps(30), Ok(()));
    a.adopt(WindowsEncoderBackend::NativeQsv(qsv()));
    assert_eq!(a.set_fps(30), Err(MediaError::EncoderNotInitialized));
    let mut e = amf_made();
    e.finish_initialize(&with_device());
    a.adopt(WindowsEncoderBackend::NativeAmf(e));
    assert_eq!(a.set_fps(25), Ok(()));
    match &a.backend {
        Some(WindowsEncoderBackend::NativeAmf(e)) => {
            assert_eq!(e.config.as_ref().unwrap().fps, 25)
        }
        _ => panic!("another encoder"),
    }
}

#[test]
fn platforms_have_their_encoder() {
    assert!(matches!(create_encoder(Platform::Windows), Ok(EncoderBackend::WindowsAuto(_))));
    assert!(matches!(create_encoder(Platform::Linux), Ok(EncoderBackend::Ffmpeg(_))));
    let native = NativeAvailable { nvenc: true, amf: false, qsv: true };
    let v = list_available_encoders(Platform::Windows, native, &vec![]);
    assert_eq!(v.len(), 2);
    assert_eq!(v[0].name, "native_nvenc_d3d11");
    assert_eq!(v[1].name, "native_qsv_d3d11");
    assert_eq!(v[0].supported_codecs, vec![VideoCodec::H264]);
    assert_eq!(
        v[1].supported_codecs,
        vec![VideoCodec::H264, VideoCodec::H265, VideoCodec::AV1]
    );
    let amf_only = NativeAvailable { nvenc: false, amf: true, qsv: false };
    let v = list_available_encoders(Platform::Windows, amf_only, &vec![]);
    assert_eq!(v[0].supported_codecs, vec![VideoCodec::H264]);
    let v = list_available_encoders(Platform::Linux, native, &vec!["libx264".to_string()]);
    assert!(v.is_empty());
    let installed = vec!["libx264".to_string(), "av1_qsv".to_string(), "h264_vaapi".to_string()];
    let v = list_available_encoders(Platform::Linux, native, &installed);
    let listed: Vec<&str> = v.iter().map(|i| i.name.as_str()).collect();
    assert_eq!(listed, vec!["h264_vaapi", "av1_qsv"]);
    assert!(list_available_encoders(Platform::Other, native, &vec![]).is_empty());
}

#[test]
fn each_conversion_happens_once() {
    let mut s = ConvertSource {
        array_index: 3,
        slot: 0,
        slots: 4,
        has_processor: false,
        has_device: true,
        has_input_view: true,
        has_output_view: true,
        frame_count: 9,
        flush_each_frame: false,
    };
    let c = Some(with_device());
    let amf = convert_bgra_to_nv12(NativeEncoder::Amf, &c, s).unwrap();
    assert_eq!(amf.len(), 2);
    assert!(matches!(amf[0], ConvertStep::MakeProcessor(_)));
    assert_eq!(amf[1], ConvertStep::Convert(9));
    s.has_processor = true;
    assert_eq!(
        convert_bgra_to_nv12(NativeEncoder::Nvenc, &c, s).unwrap(),
        vec![
            ConvertStep::MakeInputView(3),
            ConvertStep::MakeOutputView,
            ConvertStep::Convert(9),
            ConvertStep::Flush,
        ]
    );
    assert_eq!(
        convert_bgra_to_nv12(NativeEncoder::Nvenc, &None, s).unwrap_err(),
        MediaError::EncoderNotInitialized
    );
    s.slot = 4;
    assert!(convert_bgra_to_nv12(NativeEncoder::Amf, &c, s).is_err());
}

#[test]
fn textures_have_the_size_an_encoder_wants() {
    assert_eq!(create_slots(NativeEncoder::Nvenc, 1919, 1080, true).unwrap()[3], (1919, 1080));
    assert_eq!(
        create_slots(NativeEncoder::Nvenc, u32::MAX, u32::MAX, true).unwrap()[0],
        (u32::MAX, u32::MAX)
    );
    assert_eq!(create_slots(NativeEncoder::Amf, u32::MAX, 17, true).unwrap()[1], (u32::MAX, 32));
    assert_eq!(create_slots(NativeEncoder::Amf, 1919, 1080, true).unwrap()[0], (1919, 1088));
    assert_eq!(create_slots(NativeEncoder::Qsv, 1919, 1080, true).unwrap()[0], (1920, 1088));
    assert_eq!(
        create_slots(NativeEncoder::Qsv, 1, 1, false).unwrap_err(),
        MediaError::EncoderNotInitialized
    );
    let d = ensure_video_processor(NativeEncoder::Qsv, &with_device(), false, true);
    assert_eq!(d.unwrap().unwrap().output_height, 1088);
    assert_eq!(ensure_video_processor(NativeEncoder::Qsv, &with_device(), true, false), Ok(None));
    assert_eq!(view_missing(true), encode_error("VideoProcessor input view was None"));
    assert_eq!(
        texture_failure(NativeEncoder::Amf, Some("x")),
        init_error("CreateTexture2D(NV12 AMF input) failed: x")
    );
    assert_eq!(
        video_failure(VideoCall::Blt, "x"),
        encode_error("VideoProcessorBlt failed: x")
    );
}

#[test]
fn slots_take_turns() {
    let mut e = nvenc_made();
    e.finish_initialize(&with_device(), 1, &[], 0);
    let slots: Vec<usize> = (0..6).map(|_| e.encode(&texture(), 0).unwrap().slot).collect();
    assert_eq!(slots, vec![0, 1, 2, 3, 0, 1]);
    let mut e = amf_made();
    e.finish_initialize(&with_device());
    let slots: Vec<usize> = (0..5).map(|_| e.encode(&texture()).unwrap().slot).collect();
    assert_eq!(slots, vec![0, 1, 2, 3, 0]);
}

#[test]
fn a_request_makes_one_key_frame() {
    let mut e = amf_made();
    e.finish_initialize(&with_device());
    assert!(e.wrap_surface(0).unwrap().force_idr);
    e.finish_encode();
    assert!(!e.wrap_surface(0).unwrap().force_idr);
    e.request_keyframe();
    assert!(e.wrap_surface(0).unwrap().force_idr);
    e.finish_encode();
    assert!(!e.wrap_surface(0).unwrap().force_idr);
    let mut e = nvenc_made();
    e.finish_initialize(&with_device(), 1, &[], 0);
    assert_eq!(e.on_encoded(10), Ok(false));
    assert_eq!(e.encode(&texture(), 0).unwrap().flags, 0);
    e.request_keyframe();
    assert_eq!(e.encode(&texture(), 0).unwrap().flags, 6);
    assert_eq!(e.on_encoded(10), Ok(false));
    assert_eq!(e.encode(&texture(), 0).unwrap().flags, 0);
}

#[test]
fn amf_objects_are_made_or_explained() {
    assert_eq!(creation_result(AmfObject::Context, 0, true), Ok(()));
    assert_eq!(
        creation_result(AmfObject::Context, 0, false),
        Err(init_error("AMF CreateContext returned null"))
    );
    assert_eq!(
        creation_result(AmfObject::Component, 5, true),
        Err(encode_error(
            "AMFFactory::CreateComponent(AMFVideoEncoderVCE_AVC) failed with AMF status 5"
        ))
    );
    assert_eq!(
        creation_result(AmfObject::Component, 0, false),
        Err(init_error("AMF CreateComponent returned null"))
    );
    assert_eq!(
        creation_result(AmfObject::Surface, 12, false),
        Err(encode_error("AMF returned null surface"))
    );
    let mut e = amf_made();
    e.finish_initialize(&with_device());
    let key = surface_properties(&e.wrap_surface(0).unwrap());
    let names: Vec<&str> = key.iter().map(|p| p.name).collect();
    assert_eq!(names, vec!["ForcePictureType", "InsertSPS", "InsertPPS"]);
    assert_eq!(key[1].value, AmfVariant::Bool(true));
    assert_eq!(
        surface_property_result(&key[0], 3),
        Err(encode_error("AMFSurface::SetProperty(ForcePictureType) failed with AMF status 3"))
    );
    e.finish_encode();
    assert!(surface_properties(&e.wrap_surface(0).unwrap()).is_empty());
}

#[test]
fn native_calls_are_named() {
    assert_eq!(call_result(NvencCall::OpenSession, true, 0), Ok(()));
    assert_eq!(
        call_result(NvencCall::OpenSession, true, 8),
        Err(encode_error("NvEncOpenEncodeSessionEx failed with NVENC status 8"))
    );
    assert_eq!(
        call_result(NvencCall::RegisterTexture, false, 0),
        Err(encode_error("NvEncRegisterResource unavailable in NVENC function table"))
    );
    assert_eq!(amf_call_result(AmfCall::InitContext, 12), Ok(()));
    assert_eq!(
        amf_call_result(AmfCall::InitComponent, 4),
        Err(encode_error("AMFComponent::Init failed with AMF status 4"))
    );
}

struct Unpaced;

impl VideoEncoder for Unpaced {
    fn initialize(&mut self, _config: &EncoderConfig) -> Result<(), MediaError> {
        Ok(())
    }
    fn encode(
        &mut self,
        _buffer: &GpuBuffer,
        _pts_us: u64,
    ) -> Result<Vec<EncodedVideoFrame>, MediaError> {
        Ok(vec![])
    }
    fn request_keyframe(&mut self) {}
    fn set_bitrate(&mut self, _bitrate_kbps: u32) -> Result<(), MediaError> {
        Ok(())
    }
    fn encoder_info(&self) -> EncoderInfo {
        EncoderInfo {
            name: "unpaced".to_string(),
            hw_type: HwAccelType::Software,
            supported_codecs: vec![],
        }
    }
    fn flush(&mut self) -> Result<Vec<EncodedVideoFrame>, MediaError> {
        Ok(vec![])
    }
    fn shutdown(&mut self) {}
}

#[test]
fn encoders_need_not_take_up_a_frame_rate() {
    let mut e: Box<dyn VideoEncoder> = Box::new(Unpaced);
    assert_eq!(e.set_fps(30), Ok(()));
}

#[test]
fn a_failed_choice_is_explained() {
    let reason = |hw: Option<HwAccelType>, vendor| {
        let mut c = with_device();
        c.preferred_hw = hw;
        WindowsAutoEncoder::initialize_failure(&c, vendor)
    };
    assert_eq!(
        reason(None, Some(0x8086)),
        init_error(
            "Native Intel/QSV Windows encoding requires libvpl.dll and successful initialization"
        )
    );
    assert_eq!(
        reason(Some(HwAccelType::Software), Some(0x10de)),
        init_error("Software/FFmpeg encoding is not compiled on Windows")
    );
    assert_eq!(
        reason(Some(HwAccelType::Amf), None),
        init_error("Native AMF requires a D3D11 device/context and successful AMF initialization")
    );
    assert_eq!(
        reason(None, None),
        init_error("No supported native Windows encoder was available")
    );
}

#[test]
fn amf_values_and_buffers_are_told_apart() {
    assert_eq!(AmfVariant::Bool(true).type_number(), 1);
    assert_eq!(AmfVariant::Int64(5).type_number(), 2);
    assert_eq!(AmfVariant::Size { width: 1, height: 2 }.type_number(), 5);
    assert_eq!(AmfVariant::Rate { num: 60, den: 1 }.type_number(), 7);
    assert_eq!(buffer_result(0, true), Ok(()));
    assert_eq!(
        buffer_result(0, false),
        Err(encode_error("AMF QueryInterface(AMFBuffer) failed: 0"))
    );
    assert_eq!(
        buffer_result(4, true),
        Err(encode_error("AMF QueryInterface(AMFBuffer) failed: 4"))
    );
}
