use lunaris_media::capture::gpu_buffer::GpuBuffer;
use lunaris_media::error::{around_number, with_number};
use lunaris_media::text::{
    dec_text, hex_text, is_rate, is_switched_on, is_zero_rate, lines, parse_i32, parse_u32,
    parse_usize, signed_text, split_char, string_of, text_of_wide, wide_text, words,
};
use lunaris_media::{HwAccelType, MediaError, PixelFormat, StreamConfig, VideoCodec};

fn chars(s: &str) -> Vec<char> {
    s.chars().collect()
}

fn texts(v: Vec<Vec<char>>) -> Vec<String> {
    v.into_iter().map(|w| w.into_iter().collect()).collect()
}

#[test]
fn every_error_has_its_text() {
    let s = |t: &str| t.to_string();
    let cases = vec![
        (MediaError::NoDisplayFound, "No display found"),
        (MediaError::CaptureNotStarted, "Capture not started"),
        (MediaError::CaptureAlreadyStarted, "Capture already started"),
        (MediaError::NoEncoderAvailable, "No hardware encoder available"),
        (MediaError::EncoderNotInitialized, "Encoder not initialized"),
        (MediaError::EncoderInitFailed(s("x")), "Encoder initialization failed: x"),
        (MediaError::CaptureError(s("x")), "Capture error: x"),
        (MediaError::EncodeError(s("x")), "Encode error: x"),
        (MediaError::AudioError(s("x")), "Audio error: x"),
        (MediaError::CursorError(s("x")), "Cursor error: x"),
        (MediaError::PipelineError(s("x")), "Pipeline error: x"),
        (MediaError::FfmpegError { code: -22, message: s("bad") }, "FFmpeg error: -22 - bad"),
        (MediaError::PlatformNotSupported(s("x")), "Platform not supported: x"),
        (MediaError::PermissionDenied(s("x")), "Permission denied: x"),
        (MediaError::Timeout, "Timeout"),
        (MediaError::FrameDropped, "Frame dropped"),
        (MediaError::Io(s("x")), "IO error: x"),
    ];
    for (e, text) in cases {
        assert_eq!(e.to_string(), text);
    }
}

#[test]
fn numbers_are_written() {
    assert_eq!(dec_text(0), "0");
    assert_eq!(dec_text(u64::MAX), u64::MAX.to_string());
    assert_eq!(signed_text(i64::MIN), i64::MIN.to_string());
    assert_eq!(signed_text(-7), "-7");
    assert_eq!(hex_text(0x10de, 4), "10de");
    assert_eq!(hex_text(0xa, 4), "000a");
    assert_eq!(with_number("status ", -5), "status -5");
    assert_eq!(around_number("a", 12, "b"), "a12b");
}

#[test]
fn numbers_are_read() {
    assert_eq!(parse_u32(&chars("4294967295")), Some(u32::MAX));
    assert_eq!(parse_u32(&chars("4294967296")), None);
    assert_eq!(parse_u32(&chars("+7")), Some(7));
    assert_eq!(parse_u32(&chars("-7")), None);
    assert_eq!(parse_u32(&chars("")), None);
    assert_eq!(parse_u32(&chars("+")), None);
    assert_eq!(parse_i32(&chars("-2147483648")), Some(i32::MIN));
    assert_eq!(parse_i32(&chars("2147483648")), None);
    assert_eq!(parse_i32(&chars("-")), None);
    assert_eq!(parse_usize(&chars("12")), Some(12));
    assert_eq!(parse_usize(&chars("1 2")), None);
}

#[test]
fn rates_are_decimal_numbers() {
    for good in ["60.00", "60", ".5", "5.", "1e3", "+1.5E-2", "inf", "NaN", "-infinity"] {
        assert_eq!(is_rate(&chars(good)), good.parse::<f64>().is_ok(), "{}", good);
    }
    for bad in ["", ".", "e3", "1e", "6 0", "60Hz", "+", "1.2.3"] {
        assert_eq!(is_rate(&chars(bad)), bad.parse::<f64>().is_ok(), "{}", bad);
    }
    for n in ["0", "0.00", "-0.0", "0e7", "0.01", "60", "inf"] {
        assert_eq!(is_zero_rate(&chars(n)), n.parse::<f64>().unwrap() == 0.0, "{}", n);
    }
}

#[test]
fn text_is_split_as_std_splits_it() {
    for t in ["", "a", " a  b\tc ", "a\nb\r\nc", "\n", "a\n", "\u{2003}x\u{a0}y", "a\rb\n"] {
        let expected: Vec<String> = t.split_whitespace().map(|s| s.to_string()).collect();
        assert_eq!(texts(words(&chars(t))), expected);
        let expected: Vec<String> = t.lines().map(|s| s.to_string()).collect();
        assert_eq!(texts(lines(&chars(t))), expected);
        let expected: Vec<String> = t.split('a').map(|s| s.to_string()).collect();
        assert_eq!(texts(split_char(&chars(t), 'a')), expected);
    }
}

#[test]
fn wide_text_goes_there_and_back() {
    let text = "gr\u{fc}n \u{1f600}";
    let mut expected: Vec<u16> = text.encode_utf16().collect();
    assert_eq!(text_of_wide(&expected), chars(text));
    expected.push(0);
    assert_eq!(wide_text(text), expected);
}

#[test]
fn unpaired_halves_are_replaced() {
    for v in [
        vec![0xd83du16],
        vec![0xde00u16, 0x41],
        vec![0xd83du16, 0x41],
        vec![0xd83du16, 0xd83d, 0xde00],
        vec![0xdbffu16, 0xdfff],
    ] {
        assert_eq!(string_of(&text_of_wide(&v)), String::from_utf16_lossy(&v));
    }
}

#[test]
fn switches_are_read() {
    assert!(is_switched_on("1"));
    assert!(is_switched_on("TRUE"));
    assert!(is_switched_on("Yes"));
    assert!(is_switched_on("on"));
    assert!(!is_switched_on("0"));
    assert!(!is_switched_on(""));
}

#[test]
fn codecs_and_encoders_have_names() {
    assert_eq!(VideoCodec::H264.to_string(), "H.264");
    assert_eq!(VideoCodec::H265.to_string(), "H.265");
    assert_eq!(VideoCodec::AV1.to_string(), "AV1");
    assert_eq!(HwAccelType::Nvenc.to_string(), "NVENC");
    assert_eq!(HwAccelType::Vaapi.to_string(), "VAAPI");
    assert_eq!(HwAccelType::Qsv.to_string(), "QSV");
    assert_eq!(HwAccelType::Amf.to_string(), "AMF");
    assert_eq!(HwAccelType::VideoToolbox.to_string(), "VideoToolbox");
    assert_eq!(HwAccelType::Software.to_string(), "Software");
}

#[test]
fn preferences_are_made_plain() {
    for s in ["Native-NVENC", "ffmpeg_vaapi", "  GPU ", "x"] {
        let once = StreamConfig::normalize_encoder_preference(s);
        assert_eq!(StreamConfig::normalize_encoder_preference(&once), once);
    }
    assert!(StreamConfig::encoder_prefers_ffmpeg("ffmpeg_vaapi"));
    assert!(!StreamConfig::encoder_prefers_native("ffmpeg_vaapi"));
    assert!(StreamConfig::encoder_prefers_native("native_nvenc_d3d11"));
    assert!(!StreamConfig::encoder_prefers_ffmpeg("native_nvenc_d3d11"));
    assert_eq!(StreamConfig::parse_encoder_preference("nvenc"), Some(HwAccelType::Nvenc));
    assert_eq!(StreamConfig::parse_encoder_preference("SOFTWARE"), Some(HwAccelType::Software));
    assert_eq!(StreamConfig::parse_encoder_preference("auto"), None);
}

#[test]
fn a_stream_starts_from_these_settings() {
    let c = StreamConfig::default();
    assert_eq!((c.width, c.height, c.fps, c.bitrate_kbps), (1920, 1080, 60, 10_000));
    assert_eq!((c.codec, c.pixel_format), (VideoCodec::H264, PixelFormat::NV12));
    assert!(!c.virtual_display);
    assert_eq!(c.preferred_encoder, None);
}

#[test]
fn buffers_say_what_they_are() {
    let b = GpuBuffer::D3D11Texture { texture: 1, array_index: 2 };
    assert_eq!(b.owned_fd(), None);
    let d = GpuBuffer::DmaBuf {
        fd: 9,
        offset: 0,
        stride: 4,
        modifier: 0,
        size: 4,
        width: 1,
        height: 1,
        fourcc: 0,
    };
    assert_eq!(d.owned_fd(), Some(9));
    assert_eq!(b.label(), "D3D11Texture(index=2)");
    assert_eq!(d.label(), "DmaBuf(fd=9, 1x1)");
    let c = GpuBuffer::CudaPointer {
        ptr: 0x1ab,
        size: 1,
        width: 3,
        height: 2,
        stride: 12,
        format: PixelFormat::BGRA,
    };
    assert_eq!(c.label(), "CudaPointer(ptr=0x1AB, 3x2)");
    let m = GpuBuffer::CpuBuffer {
        data: vec![],
        stride: 0,
        format: PixelFormat::P010,
        width: 7,
        height: 8,
    };
    assert_eq!(m.label(), "CpuBuffer(7x8, P010)");
}

#[test]
fn rates_too_small_for_a_float_are_zero() {
    let mut long = "0.".to_string();
    long.push_str(&"0".repeat(400));
    long.push('7');
    let mut raised = long.clone();
    raised.push_str("e100");
    let rates = [
        "0", "-0.0", "0e9", "00.000e-3", "1e-400", "+1e-400", "-3.5E-999", "4.9e-324", "5e-324",
        "2.5e-324", "2.4e-324", "2.4703282292062327e-324", "2.4703282292062328e-324", "1e-323",
        "247032822920623270e-341", "247032822920623280e-341", "0.000e5", "1e-99999999999999999999",
        "0e-99999999999999999999", "1e99999999999999999999", "60.00", "1e-300", "1000e-327",
        "1000e-320", "1.e-324", ".1e-323", ".01e-323", "0.0000001e-317", "inf", "nan", "1e", "",
        long.as_str(), raised.as_str(),
    ];
    for rate in rates {
        let zero = rate.parse::<f64>().map_or(false, |r| r == 0.0);
        assert_eq!(is_zero_rate(&chars(rate)), zero, "{}", rate);
    }
    assert!(is_zero_rate(&chars("1e-400")));
    assert!(!is_zero_rate(&chars("5e-324")));
}

#[test]
fn half_of_the_smallest_float_is_zero() {
    // The half's digits are those of five to the power 1075.
    let mut digits: Vec<u32> = vec![1];
    for _ in 0..1075 {
        let mut carry = 0;
        for d in digits.iter_mut() {
            let t = *d * 5 + carry;
            *d = t % 10;
            carry = t / 10;
        }
        if carry > 0 {
            digits.push(carry);
        }
    }
    let half = |digits: &Vec<u32>| -> String {
        let text: String = digits.iter().rev().map(|d| d.to_string()).collect();
        format!("{}e-1075", text)
    };
    assert!(is_zero_rate(&chars(&half(&digits))));
    assert_eq!(half(&digits).parse::<f64>(), Ok(0.0));
    digits[0] += 1;
    assert!(!is_zero_rate(&chars(&half(&digits))));
    assert_ne!(half(&digits).parse::<f64>(), Ok(0.0));
}
