use lunaris_media::encode::annexb::{
    avcc_extradata_to_annexb, extract_sps_pps, find_annexb_headers, has_sps_pps, is_idr_annexb,
    prepare_key_frame,
};
use lunaris_media::VideoCodec;

const SPS: [u8; 6] = [0, 0, 0, 1, 0x67, 0x42];
const PPS: [u8; 5] = [0, 0, 1, 0x68, 0xce];
const IDR: [u8; 6] = [0, 0, 0, 1, 0x65, 0x88];

fn join(parts: &[&[u8]]) -> Vec<u8> {
    let mut v = Vec::new();
    for p in parts {
        v.extend_from_slice(p);
    }
    v
}

#[test]
fn the_first_slice_is_found() {
    let stream = join(&[&SPS, &PPS, &IDR]);
    assert_eq!(find_annexb_headers(&stream, VideoCodec::H264), Some(11));
    assert_eq!(find_annexb_headers(&join(&[&SPS, &PPS]), VideoCodec::H264), None);
    assert_eq!(find_annexb_headers(&IDR, VideoCodec::AV1), None);
    assert_eq!(find_annexb_headers(&[0, 0, 1], VideoCodec::H264), None);
    assert_eq!(find_annexb_headers(&[], VideoCodec::H264), None);
    let hevc = [0, 0, 1, 0x42, 1, 0, 0, 1, 0x26, 1];
    assert_eq!(find_annexb_headers(&hevc, VideoCodec::H265), Some(5));
}

#[test]
fn both_headers_are_needed() {
    assert!(has_sps_pps(&join(&[&SPS, &PPS, &IDR]), VideoCodec::H264));
    assert!(!has_sps_pps(&join(&[&SPS, &IDR]), VideoCodec::H264));
    assert!(!has_sps_pps(&join(&[&PPS, &IDR]), VideoCodec::H264));
    assert!(!has_sps_pps(&join(&[&SPS, &PPS]), VideoCodec::AV1));
    let hevc = [0, 0, 1, 0x42, 1, 0, 0, 0, 1, 0x44, 1];
    assert!(has_sps_pps(&hevc, VideoCodec::H265));
    assert!(!has_sps_pps(&hevc, VideoCodec::H264));
}

#[test]
fn headers_are_cut_out_of_a_stream() {
    let stream = join(&[&SPS, &IDR, &PPS]);
    let mut expected = SPS.to_vec();
    expected.extend_from_slice(&PPS);
    let cut = extract_sps_pps(&stream, VideoCodec::H264);
    assert_eq!(cut, expected);
    assert!(has_sps_pps(&cut, VideoCodec::H264));
    assert_eq!(extract_sps_pps(&IDR, VideoCodec::H264), Vec::<u8>::new());
    let hevc = [0, 0, 1, 0x40, 9, 0, 0, 1, 0x26, 8];
    assert_eq!(extract_sps_pps(&hevc, VideoCodec::H265), vec![0, 0, 1, 0x40, 9]);
}

#[test]
fn idr_pictures_are_seen() {
    assert!(is_idr_annexb(&IDR));
    assert!(is_idr_annexb(&join(&[&SPS, &PPS, &IDR])));
    assert!(!is_idr_annexb(&join(&[&SPS, &PPS])));
    assert!(!is_idr_annexb(&[0, 0, 1, 0x65]));
    assert!(is_idr_annexb(&[0, 0, 1, 0x65, 0]));
}

#[test]
fn avcc_becomes_annexb() {
    let avcc = [1, 0x42, 0, 0x1f, 0xff, 0xe1, 0, 2, 0x67, 0x42, 1, 0, 1, 0x68];
    assert_eq!(
        avcc_extradata_to_annexb(&avcc),
        vec![0, 0, 0, 1, 0x67, 0x42, 0, 0, 0, 1, 0x68]
    );
    assert_eq!(avcc_extradata_to_annexb(&avcc[..13]), vec![0, 0, 0, 1, 0x67, 0x42]);
    assert_eq!(avcc_extradata_to_annexb(&avcc[..9]), Vec::<u8>::new());
    assert_eq!(avcc_extradata_to_annexb(&[2, 0, 0, 0, 0, 0, 0, 0]), Vec::<u8>::new());
    assert_eq!(avcc_extradata_to_annexb(&avcc[..6]), Vec::<u8>::new());
    assert_eq!(avcc_extradata_to_annexb(&[]), Vec::<u8>::new());
}

#[test]
fn annexb_extradata_stays_as_it_is() {
    let mut four = SPS.to_vec();
    four.extend_from_slice(&PPS);
    assert_eq!(avcc_extradata_to_annexb(&four), four);
    assert_eq!(avcc_extradata_to_annexb(&PPS), PPS.to_vec());
}

#[test]
fn key_frames_get_their_headers() {
    let mut cache = None;
    let full = join(&[&SPS, &PPS, &IDR]);
    assert_eq!(prepare_key_frame(full.clone(), VideoCodec::H264, &mut cache), full);
    assert_eq!(cache, Some(join(&[&SPS, &PPS])));
    let bare = prepare_key_frame(IDR.to_vec(), VideoCodec::H264, &mut cache);
    assert_eq!(bare, full);
    assert!(has_sps_pps(&bare, VideoCodec::H264));
}

#[test]
fn without_known_headers_a_key_frame_stays_bare() {
    let mut cache = None;
    assert_eq!(prepare_key_frame(IDR.to_vec(), VideoCodec::H264, &mut cache), IDR.to_vec());
    assert_eq!(cache, None);
}

#[test]
fn an_extract_holds_headers_only() {
    let streams: [&[u8]; 4] = [
        &[0, 0, 1, 0x67, 1, 0, 0, 0, 0, 1, 0x65, 9, 0, 0, 1, 0x68, 2, 0],
        &[0, 0, 0, 1, 0x67, 0, 0, 0, 1, 0x68],
        &[1, 2, 0, 0, 1, 0, 0, 1],
        &[0, 0, 1, 0x42, 1, 0, 0, 1, 0x26, 5, 0, 0, 1, 0x44, 1],
    ];
    for d in streams {
        for codec in [VideoCodec::H264, VideoCodec::H265, VideoCodec::AV1] {
            let x = extract_sps_pps(d, codec);
            assert_eq!(extract_sps_pps(&x, codec), x);
            assert_eq!(has_sps_pps(&x, codec), has_sps_pps(d, codec));
            assert!(x.len() <= d.len());
            assert_eq!(find_annexb_headers(&x, codec), None);
        }
    }
    assert_eq!(
        extract_sps_pps(streams[0], VideoCodec::H264),
        vec![0, 0, 1, 0x67, 1, 0, 0, 0, 1, 0x68, 2, 0]
    );
}
