//! Annex-B byte streams: start codes, NAL units and parameter-set headers.

use crate::types::VideoCodec;
use vstd::prelude::*;

verus! {

/// Length of the start code that begins at `i`: 3 for `00 00 01`, 4 for
/// `00 00 00 01`, 0 where none begins.
pub open spec fn code_len(d: Seq<u8>, i: int) -> int {
    if 0 <= i && i + 3 <= d.len() && d[i] == 0 && d[i + 1] == 0 && d[i + 2] == 1 {
        3
    } else if 0 <= i && i + 4 <= d.len() && d[i] == 0 && d[i + 1] == 0 && d[i + 2] == 0 && d[i + 3]
        == 1 {
        4
    } else {
        0
    }
}

/// Whether a NAL unit's start code begins at `i`: a start code that is not the
/// rear part of a longer one.
pub open spec fn is_start(d: Seq<u8>, i: int) -> bool {
    code_len(d, i) > 0 && code_len(d, i - 1) != 4
}

/// Place of the first byte of the NAL unit whose start code begins at `i`.
pub open spec fn unit_first(d: Seq<u8>, i: int) -> int {
    i + code_len(d, i)
}

/// Type of a NAL unit by its first byte; AV1 has no such units.
pub open spec fn unit_type(codec: VideoCodec, b: u8) -> Option<u8> {
    match codec {
        VideoCodec::H264 => Some(b & 0x1f),
        VideoCodec::H265 => Some((b >> 1) & 0x3f),
        VideoCodec::AV1 => None,
    }
}

/// Type of the NAL unit whose start code begins at `i`, where it has a byte.
pub open spec fn type_at(d: Seq<u8>, codec: VideoCodec, i: int) -> Option<u8> {
    if unit_first(d, i) < d.len() {
        unit_type(codec, d[unit_first(d, i)])
    } else {
        None
    }
}

/// Types of coded slices: 1 to 5 in H.264, up to 21 in H.265.
pub open spec fn slice_type(codec: VideoCodec, t: Option<u8>) -> bool {
    match (codec, t) {
        (VideoCodec::H264, Some(n)) => 1 <= n <= 5,
        (VideoCodec::H265, Some(n)) => n <= 21,
        _ => false,
    }
}

pub open spec fn sps_type(codec: VideoCodec, t: Option<u8>) -> bool {
    match codec {
        VideoCodec::H264 => t == Some(7u8),
        VideoCodec::H265 => t == Some(33u8),
        VideoCodec::AV1 => false,
    }
}

pub open spec fn pps_type(codec: VideoCodec, t: Option<u8>) -> bool {
    match codec {
        VideoCodec::H264 => t == Some(8u8),
        VideoCodec::H265 => t == Some(34u8),
        VideoCodec::AV1 => false,
    }
}

/// Types of parameter sets: SPS and PPS, and in H.265 the VPS.
pub open spec fn header_type(codec: VideoCodec, t: Option<u8>) -> bool {
    sps_type(codec, t) || pps_type(codec, t) || (codec == VideoCodec::H265 && t == Some(32u8))
}

/// Whether a coded slice's start code begins at `i`.
pub open spec fn slice_at(d: Seq<u8>, codec: VideoCodec, i: int) -> bool {
    is_start(d, i) && slice_type(codec, type_at(d, codec, i))
}

pub open spec fn sps_at(d: Seq<u8>, codec: VideoCodec, i: int) -> bool {
    is_start(d, i) && sps_type(codec, type_at(d, codec, i))
}

pub open spec fn pps_at(d: Seq<u8>, codec: VideoCodec, i: int) -> bool {
    is_start(d, i) && pps_type(codec, type_at(d, codec, i))
}

/// Whether `d` holds an SPS and a PPS.
pub open spec fn has_headers(d: Seq<u8>, codec: VideoCodec) -> bool {
    (exists|i: int| #[trigger] sps_at(d, codec, i)) && (exists|i: int| #[trigger]
        pps_at(d, codec, i))
}

/// The first place from `i` on at which a start code begins, or the end.
pub open spec fn next_code(d: Seq<u8>, i: int) -> int
    decreases d.len() - i,
{
    if i >= d.len() {
        d.len() as int
    } else if code_len(d, i) > 0 {
        i
    } else {
        next_code(d, i + 1)
    }
}

/// The parameter sets of `d` from `i` on, each with its start code, in order.
pub open spec fn headers_from(d: Seq<u8>, codec: VideoCodec, i: int) -> Seq<u8>
    decreases d.len() - i,
{
    let s = next_code(d, i);
    if i < 0 || s < i || s >= d.len() {
        Seq::empty()
    } else {
        let e = next_code(d, unit_first(d, s));
        let rest = if s < e <= d.len() {
            headers_from(d, codec, e)
        } else {
            Seq::empty()
        };
        if header_type(codec, type_at(d, codec, s)) {
            d.subrange(s, e) + rest
        } else {
            rest
        }
    }
}

// ---- Scanning ----

fn code_len_at(d: &[u8], i: usize) -> (n: usize)
    requires
        i <= d@.len(),
    ensures
        n == code_len(d@, i as int),
{
    let left: usize = d.len() - i;
    if left >= 3 && d[i] == 0 && d[i + 1] == 0 && d[i + 2] == 1 {
        3
    } else if left >= 4 && d[i] == 0 && d[i + 1] == 0 && d[i + 2] == 0 && d[i + 3] == 1 {
        4
    } else {
        0
    }
}

fn type_of(codec: VideoCodec, b: u8) -> (t: Option<u8>)
    ensures
        t == unit_type(codec, b),
{
    match codec {
        VideoCodec::H264 => Some(b & 0x1f),
        VideoCodec::H265 => Some((b >> 1) & 0x3f),
        VideoCodec::AV1 => None,
    }
}

fn type_from(d: &[u8], codec: VideoCodec, i: usize, n: usize) -> (t: Option<u8>)
    requires
        n == code_len(d@, i as int),
        n > 0,
        i < d@.len(),
    ensures
        t == type_at(d@, codec, i as int),
{
    if d.len() - i > n {
        type_of(codec, d[i + n])
    } else {
        None
    }
}

/// The place of the first start code from `i` on, or the length.
fn find_code(d: &[u8], i: usize) -> (s: usize)
    requires
        i <= d@.len(),
    ensures
        s == next_code(d@, i as int),
        i <= s <= d@.len(),
        s < d@.len() ==> code_len(d@, s as int) > 0,
        forall|j: int| i <= j < s ==> code_len(d@, j) == 0,
{
    let mut s: usize = i;
    while s < d.len()
        invariant
            i <= s <= d@.len(),
            next_code(d@, s as int) == next_code(d@, i as int),
            forall|j: int| i <= j < s ==> code_len(d@, j) == 0,
        decreases d@.len() - s,
    {
        if code_len_at(d, s) > 0 {
            return s;
        }
        s = s + 1;
    }
    s
}

/// After a start code at `s` none begins inside it, but for the rear part of
/// a long one.
proof fn lemma_inside_code(d: Seq<u8>, s: int)
    requires
        code_len(d, s) > 0,
    ensures
        forall|j: int| s < j < s + code_len(d, s) ==> !is_start(d, j),
        code_len(d, s) == 4 ==> is_start(d, s),
        s + code_len(d, s) <= d.len(),
        code_len(d, s + code_len(d, s) - 1) != 4,
{
}

/// The offset at which the first coded slice starts. Everything before it is
/// stream headers.
pub fn find_annexb_headers(data: &[u8], codec: VideoCodec) -> (r: Option<usize>)
    ensures
        match r {
            Some(k) => slice_at(data@, codec, k as int) && forall|j: int|
                j < k ==> !#[trigger] slice_at(data@, codec, j),
            None => forall|j: int| !#[trigger] slice_at(data@, codec, j),
        },
{
    let mut i: usize = 0;
    while i < data.len()
        invariant
            i <= data@.len(),
            code_len(data@, i - 1) != 4,
            forall|j: int| j < i ==> !#[trigger] slice_at(data@, codec, j),
        decreases data@.len() - i,
    {
        let s: usize = find_code(data, i);
        if s == data.len() {
            assert forall|j: int| !#[trigger] slice_at(data@, codec, j) by {
                if j >= i && j < s {
                    assert(code_len(data@, j) == 0);
                }
            }
            return None;
        }
        let n: usize = code_len_at(data, s);
        let t: Option<u8> = type_from(data, codec, s, n);
        proof {
            lemma_inside_code(data@, s as int);
            if s > i {
                assert(code_len(data@, s - 1) == 0);
            }
            assert(is_start(data@, s as int));
            assert forall|j: int| j < s implies !#[trigger] slice_at(data@, codec, j) by {
                if j >= i {
                    assert(code_len(data@, j) == 0);
                }
            }
        }
        let is_slice: bool = match codec {
            VideoCodec::H264 => match t {
                Some(k) => k >= 1 && k <= 5,
                None => false,
            },
            VideoCodec::H265 => match t {
                Some(k) => k <= 21,
                None => false,
            },
            VideoCodec::AV1 => false,
        };
        if is_slice {
            return Some(s);
        }
        i = s + n;
    }
    assert forall|j: int| !#[trigger] slice_at(data@, codec, j) by {}
    None
}

/// Whether `data` holds both an SPS and a PPS.
pub fn has_sps_pps(data: &[u8], codec: VideoCodec) -> (b: bool)
    ensures
        b == has_headers(data@, codec),
{
    let mut has_sps: bool = false;
    let mut has_pps: bool = false;
    let mut i: usize = 0;
    while i < data.len()
        invariant
            i <= data@.len(),
            code_len(data@, i - 1) != 4,
            has_sps == exists|j: int| j < i && #[trigger] sps_at(data@, codec, j),
            has_pps == exists|j: int| j < i && #[trigger] pps_at(data@, codec, j),
        decreases data@.len() - i,
    {
        let s: usize = find_code(data, i);
        if s == data.len() {
            proof {
                lemma_none_between(data@, codec, i as int, s as int);
                lemma_none_behind(data@, codec);
            }
            return has_sps && has_pps;
        }
        let n: usize = code_len_at(data, s);
        let t: Option<u8> = type_from(data, codec, s, n);
        proof {
            lemma_inside_code(data@, s as int);
            if s > i {
                assert(code_len(data@, s - 1) == 0);
            }
            assert(is_start(data@, s as int));
            lemma_none_between(data@, codec, i as int, s as int);
        }
        match codec {
            VideoCodec::H264 => match t {
                Some(k) => {
                    if k == 7 {
                        has_sps = true;
                        assert(sps_at(data@, codec, s as int));
                    } else if k == 8 {
                        has_pps = true;
                        assert(pps_at(data@, codec, s as int));
                    }
                },
                None => {},
            },
            VideoCodec::H265 => match t {
                Some(k) => {
                    if k == 33 {
                        has_sps = true;
                        assert(sps_at(data@, codec, s as int));
                    } else if k == 34 {
                        has_pps = true;
                        assert(pps_at(data@, codec, s as int));
                    }
                },
                None => {},
            },
            VideoCodec::AV1 => {},
        }
        i = s + n;
    }
    proof {
        lemma_none_behind(data@, codec);
    }
    has_sps && has_pps
}

proof fn lemma_none_between(d: Seq<u8>, codec: VideoCodec, i: int, s: int)
    requires
        forall|j: int| i <= j < s ==> code_len(d, j) == 0,
    ensures
        forall|j: int| i <= j < s ==> !#[trigger] sps_at(d, codec, j),
        forall|j: int| i <= j < s ==> !#[trigger] pps_at(d, codec, j),
{
    assert forall|j: int| i <= j < s implies !#[trigger] sps_at(d, codec, j) by {
        assert(code_len(d, j) == 0);
    }
    assert forall|j: int| i <= j < s implies !#[trigger] pps_at(d, codec, j) by {
        assert(code_len(d, j) == 0);
    }
}

proof fn lemma_none_behind(d: Seq<u8>, codec: VideoCodec)
    ensures
        forall|j: int| j >= d.len() ==> !#[trigger] sps_at(d, codec, j),
        forall|j: int| j >= d.len() ==> !#[trigger] pps_at(d, codec, j),
{
}

/// Appends `src[from..to]` to `out`.
pub(crate) fn append_bytes(out: &mut Vec<u8>, src: &[u8], from: usize, to: usize)
    requires
        from <= to <= src@.len(),
    ensures
        final(out)@ == old(out)@ + src@.subrange(from as int, to as int),
{
    let ghost o = out@;
    for i in from..to
        invariant
            from <= to <= src@.len(),
            out@ == o + src@.subrange(from as int, i as int),
    {
        out.push(src[i]);
        assert(out@ =~= o + src@.subrange(from as int, i as int + 1));
    }
}

/// The SPS and PPS units of `data` (and the VPS units of H.265), each with its
/// start code, and nothing else.
pub fn extract_sps_pps(data: &[u8], codec: VideoCodec) -> (r: Vec<u8>)
    ensures
        r@ == headers_from(data@, codec, 0),
{
    let mut out: Vec<u8> = Vec::new();
    let mut i: usize = 0;
    assert(out@ + headers_from(data@, codec, 0) =~= headers_from(data@, codec, 0));
    while i < data.len()
        invariant
            i <= data@.len(),
            out@ + headers_from(data@, codec, i as int) == headers_from(data@, codec, 0),
        decreases data@.len() - i,
    {
        let s: usize = find_code(data, i);
        if s == data.len() {
            assert(headers_from(data@, codec, i as int) =~= Seq::<u8>::empty());
            assert(out@ =~= headers_from(data@, codec, 0));
            return out;
        }
        let n: usize = code_len_at(data, s);
        let t: Option<u8> = type_from(data, codec, s, n);
        proof {
            lemma_inside_code(data@, s as int);
        }
        let e: usize = find_code(data, s + n);
        let is_header: bool = match codec {
            VideoCodec::H264 => t == Some(7u8) || t == Some(8u8),
            VideoCodec::H265 => t == Some(32u8) || t == Some(33u8) || t == Some(34u8),
            VideoCodec::AV1 => false,
        };
        let ghost out0 = out@;
        if is_header {
            append_bytes(&mut out, data, s, e);
        }
        proof {
            let rest = headers_from(data@, codec, e as int);
            if is_header {
                assert(out0 + (data@.subrange(s as int, e as int) + rest) =~= out@ + rest);
            }
        }
        i = e;
    }
    assert(headers_from(data@, codec, i as int) =~= Seq::<u8>::empty());
    assert(out@ =~= headers_from(data@, codec, 0));
    out
}

/// Whether an IDR picture starts in `d`: an H.264 unit of type 5 whose start
/// code has at least two more bytes behind its shortest form.
pub open spec fn idr_at(d: Seq<u8>, i: int) -> bool {
    is_start(d, i) && i + 5 <= d.len() && (d[unit_first(d, i)] & 0x1f) == 5
}

/// Whether `data` holds an IDR picture.
pub fn is_idr_annexb(data: &[u8]) -> (b: bool)
    ensures
        b == exists|i: int| #[trigger] idr_at(data@, i),
{
    let mut i: usize = 0;
    while i < data.len()
        invariant
            i <= data@.len(),
            code_len(data@, i - 1) != 4,
            forall|j: int| j < i ==> !#[trigger] idr_at(data@, j),
        decreases data@.len() - i,
    {
        let s: usize = find_code(data, i);
        proof {
            assert forall|j: int| j < s implies !#[trigger] idr_at(data@, j) by {
                if j >= i {
                    assert(code_len(data@, j) == 0);
                }
            }
        }
        if data.len() - s < 5 {
            assert forall|j: int| !#[trigger] idr_at(data@, j) by {}
            return false;
        }
        let n: usize = code_len_at(data, s);
        proof {
            lemma_inside_code(data@, s as int);
            if s > i {
                assert(code_len(data@, s - 1) == 0);
            }
            assert(is_start(data@, s as int));
        }
        if (data[s + n] & 0x1f) == 5 {
            assert(idr_at(data@, s as int));
            return true;
        }
        i = s + n;
    }
    false
}

// ---- Extradata ----

/// `00 00 00 01`.
pub open spec fn start_code() -> Seq<u8> {
    seq![0u8, 0u8, 0u8, 1u8]
}

/// Up to `count` units from `pos` on, each behind a two-byte length, turned
/// into units behind a start code; and where reading stopped. A length without
/// its bytes ends the list behind the length.
pub open spec fn prefixed_units(d: Seq<u8>, pos: int, count: nat) -> (Seq<u8>, int)
    decreases count,
{
    if count == 0 || pos + 2 > d.len() {
        (Seq::empty(), pos)
    } else {
        let n = d[pos] * 256 + d[pos + 1];
        if pos + 2 + n > d.len() {
            (Seq::empty(), pos + 2)
        } else {
            let r = prefixed_units(d, pos + 2 + n, (count - 1) as nat);
            (start_code() + d.subrange(pos + 2, pos + 2 + n) + r.0, r.1)
        }
    }
}

/// The parameter sets of a configuration record: from the sixth byte on a list
/// of SPS, counted by five bits, then a list of PPS, counted by a byte.
pub open spec fn record_units(d: Seq<u8>) -> Seq<u8> {
    let sps = prefixed_units(d, 6, (d[5] & 0x1f) as nat);
    if sps.1 >= d.len() {
        sps.0
    } else {
        sps.0 + prefixed_units(d, sps.1 + 1, d[sps.1] as nat).0
    }
}

/// Encoder extradata as an Annex-B stream: itself where it starts with a start
/// code, the converted parameter sets where it is a configuration record of
/// version 1, else nothing.
pub open spec fn annexb_of(d: Seq<u8>) -> Seq<u8> {
    if code_len(d, 0) > 0 {
        d
    } else if d.len() < 7 || d[0] != 1 {
        Seq::empty()
    } else {
        record_units(d)
    }
}

fn append_units(out: &mut Vec<u8>, d: &[u8], pos: usize, count: u8) -> (end: usize)
    requires
        pos <= d@.len(),
    ensures
        final(out)@ == old(out)@ + prefixed_units(d@, pos as int, count as nat).0,
        end == prefixed_units(d@, pos as int, count as nat).1,
        pos <= end <= d@.len(),
{
    let ghost total = prefixed_units(d@, pos as int, count as nat);
    let ghost o = out@;
    let mut p: usize = pos;
    let mut left: u8 = count;
    assert(out@ + total.0 =~= o + total.0);
    while left > 0
        invariant
            pos <= p <= d@.len(),
            o == old(out)@,
            total == prefixed_units(d@, pos as int, count as nat),
            out@ + prefixed_units(d@, p as int, left as nat).0 == o + total.0,
            prefixed_units(d@, p as int, left as nat).1 == total.1,
        decreases left,
    {
        if d.len() - p < 2 {
            assert(out@ + Seq::<u8>::empty() =~= out@);
            return p;
        }
        let n: usize = d[p] as usize * 256 + d[p + 1] as usize;
        let first: usize = p + 2;
        if d.len() - first < n {
            assert(out@ + Seq::<u8>::empty() =~= out@);
            return first;
        }
        let ghost out0 = out@;
        let ghost rest = prefixed_units(d@, first + n, (left - 1) as nat).0;
        out.push(0);
        out.push(0);
        out.push(0);
        out.push(1);
        assert(out@ =~= out0 + start_code());
        append_bytes(out, d, first, first + n);
        assert(out@ + rest =~= out0 + (start_code() + d@.subrange(first as int, first + n) + rest));
        p = first + n;
        left = left - 1;
    }
    assert(out@ + Seq::<u8>::empty() =~= out@);
    p
}

/// Extradata of an encoder as an Annex-B stream of its parameter sets.
pub fn avcc_extradata_to_annexb(extra: &[u8]) -> (r: Vec<u8>)
    ensures
        r@ == annexb_of(extra@),
{
    let mut out: Vec<u8> = Vec::new();
    if code_len_at(extra, 0) > 0 {
        append_bytes(&mut out, extra, 0, extra.len());
        assert(out@ =~= extra@);
        return out;
    }
    if extra.len() < 7 || extra[0] != 1 {
        return out;
    }
    let num_sps: u8 = extra[5] & 0x1f;
    let pos: usize = append_units(&mut out, extra, 6, num_sps);
    let ghost sps = prefixed_units(extra@, 6, (extra@[5] & 0x1f) as nat);
    assert(out@ =~= sps.0);
    if pos >= extra.len() {
        return out;
    }
    let num_pps: u8 = extra[pos];
    let end: usize = append_units(&mut out, extra, pos + 1, num_pps);
    out
}

// ---- Key frames ----

/// Where the headers of a key frame end: at its first slice, or at its start.
pub open spec fn header_end(d: Seq<u8>, codec: VideoCodec) -> int {
    if exists|k: int| #[trigger] slice_at(d, codec, k) {
        choose|k: int| #[trigger]
            slice_at(d, codec, k) && forall|j: int| j < k ==> !#[trigger] slice_at(d, codec, j)
    } else {
        0
    }
}

/// What is sent of a key frame: its bytes, with the cached headers put in
/// front of its first slice where it has no SPS and PPS of its own.
pub open spec fn with_cached_headers(
    d: Seq<u8>,
    codec: VideoCodec,
    cache: Option<Seq<u8>>,
) -> Seq<u8> {
    let k = header_end(d, codec);
    match cache {
        Some(h) if !has_headers(d.take(k), codec) => d.take(k) + h + d.skip(k),
        _ => d,
    }
}

/// The header cache after a key frame: an empty cache takes the headers of a
/// frame that has them.
pub open spec fn cache_after(
    d: Seq<u8>,
    codec: VideoCodec,
    cache: Option<Seq<u8>>,
) -> Option<Seq<u8>> {
    let front = d.take(header_end(d, codec));
    if cache is None && has_headers(front, codec) && headers_from(front, codec, 0).len() > 0 {
        Some(headers_from(front, codec, 0))
    } else {
        cache
    }
}

/// The bytes behind an optional buffer.
pub open spec fn bytes_of(b: Option<Vec<u8>>) -> Option<Seq<u8>> {
    match b {
        Some(v) => Some(v@),
        None => None,
    }
}

proof fn lemma_header_end(d: Seq<u8>, codec: VideoCodec, k: int)
    requires
        slice_at(d, codec, k),
        forall|j: int| j < k ==> !#[trigger] slice_at(d, codec, j),
    ensures
        header_end(d, codec) == k,
{
    let m = choose|m: int| #[trigger]
        slice_at(d, codec, m) && forall|j: int| j < m ==> !#[trigger] slice_at(d, codec, j);
    assert(slice_at(d, codec, m));
}

/// Readies the bytes of a key frame for sending: fills an empty header cache
/// from them, and puts the cached headers in front of the first slice where
/// they have none.
pub fn prepare_key_frame(data: Vec<u8>, codec: VideoCodec, cache: &mut Option<Vec<u8>>) -> (r: Vec<
    u8,
>)
    ensures
        r@ == with_cached_headers(data@, codec, bytes_of(*old(cache))),
        bytes_of(*final(cache)) == cache_after(data@, codec, bytes_of(*old(cache))),
{
    let k: usize = match find_annexb_headers(data.as_slice(), codec) {
        Some(k) => {
            proof {
                lemma_header_end(data@, codec, k as int);
            }
            k
        },
        None => 0,
    };
    proof {
        assert(header_end(data@, codec) == k);
        assert(k <= data@.len());
    }
    let mut front: Vec<u8> = Vec::new();
    append_bytes(&mut front, data.as_slice(), 0, k);
    assert(front@ =~= data@.take(k as int));
    let has: bool = has_sps_pps(front.as_slice(), codec);
    if has {
        if cache.is_none() {
            let extracted: Vec<u8> = extract_sps_pps(front.as_slice(), codec);
            if extracted.len() > 0 {
                *cache = Some(extracted);
            }
        }
        return data;
    }
    match cache {
        Some(headers) => {
            let mut combined: Vec<u8> = front;
            append_bytes(&mut combined, headers.as_slice(), 0, headers.len());
            append_bytes(&mut combined, data.as_slice(), k, data.len());
            proof {
                assert(headers@.subrange(0, headers@.len() as int) =~= headers@);
                assert(data@.subrange(k as int, data@.len() as int) =~= data@.skip(k as int));
            }
            combined
        },
        None => data,
    }
}

// ---- Laws ----

/// A unit keeps its type when its stream stands inside a longer one.
proof fn lemma_unit_in_context(x: Seq<u8>, y: Seq<u8>, z: Seq<u8>, codec: VideoCodec, p: int)
    requires
        is_start(y, p),
        unit_first(y, p) < y.len(),
    ensures
        exists|q: int|
            #![trigger is_start(x + y + z, q)]
            is_start(x + y + z, q) && type_at(x + y + z, codec, q) == type_at(y, codec, p),
{
    let w = x + y + z;
    let q = x.len() + p;
    assert(forall|j: int| 0 <= j < y.len() ==> w[x.len() + j] == y[j]);
    assert(code_len(w, q) == code_len(y, p));
    if code_len(w, q - 1) == 4 {
        assert(code_len(w, q) == 3);
        lemma_inside_code(w, q - 1);
        assert(is_start(w, q - 1));
        assert(unit_first(w, q - 1) == q + 3);
        assert(type_at(w, codec, q - 1) == type_at(y, codec, p));
    } else {
        assert(is_start(w, q));
        assert(type_at(w, codec, q) == type_at(y, codec, p));
    }
}

proof fn lemma_headers_in_context(x: Seq<u8>, y: Seq<u8>, z: Seq<u8>, codec: VideoCodec)
    requires
        has_headers(y, codec),
    ensures
        has_headers(x + y + z, codec),
{
    let w = x + y + z;
    let p = choose|i: int| #[trigger] sps_at(y, codec, i);
    lemma_unit_in_context(x, y, z, codec, p);
    let q = choose|q: int|
        #![trigger is_start(w, q)]
        is_start(w, q) && type_at(w, codec, q) == type_at(y, codec, p);
    assert(sps_at(w, codec, q));
    let r = choose|i: int| #[trigger] pps_at(y, codec, i);
    lemma_unit_in_context(x, y, z, codec, r);
    let t = choose|t: int|
        #![trigger is_start(w, t)]
        is_start(w, t) && type_at(w, codec, t) == type_at(y, codec, r);
    assert(pps_at(w, codec, t));
}

proof fn lemma_next_code(d: Seq<u8>, i: int)
    requires
        0 <= i <= d.len(),
    ensures
        i <= next_code(d, i) <= d.len(),
        next_code(d, i) < d.len() ==> code_len(d, next_code(d, i)) > 0,
        forall|j: int| i <= j < next_code(d, i) ==> code_len(d, j) == 0,
    decreases d.len() - i,
{
    if i < d.len() && code_len(d, i) == 0 {
        lemma_next_code(d, i + 1);
    }
}

/// A byte that types a parameter set is not zero.
proof fn lemma_header_byte(codec: VideoCodec, b: u8)
    requires
        header_type(codec, unit_type(codec, b)),
    ensures
        b != 0,
{
    assert(0u8 & 0x1f == 0) by (bit_vector);
    assert((0u8 >> 1) & 0x3f == 0) by (bit_vector);
}

/// Every parameter set of `d` from `i` on is in the extract, as a unit of the
/// same type.
proof fn lemma_extract_keeps(d: Seq<u8>, codec: VideoCodec, i: int, p: int)
    requires
        0 <= i <= p < d.len(),
        code_len(d, i - 1) != 4,
        is_start(d, p),
        header_type(codec, type_at(d, codec, p)),
    ensures
        exists|q: int|
            #![trigger is_start(headers_from(d, codec, i), q)]
            is_start(headers_from(d, codec, i), q) && type_at(headers_from(d, codec, i), codec, q)
                == type_at(d, codec, p),
    decreases d.len() - i,
{
    let s = next_code(d, i);
    lemma_next_code(d, i);
    assert(s <= p) by {
        if s > p {
            assert(code_len(d, p) == 0);
        }
    }
    lemma_inside_code(d, s);
    let e = next_code(d, unit_first(d, s));
    lemma_next_code(d, unit_first(d, s));
    let rest = headers_from(d, codec, e);
    let out = headers_from(d, codec, i);
    assert(s < e <= d.len());
    if s == p {
        let u = d.subrange(s, e);
        assert(out == u + rest);
        lemma_header_byte(codec, d[unit_first(d, s)]);
        assert(unit_first(d, s) < e) by {
            if unit_first(d, s) == e {
                assert(code_len(d, e) > 0);
            }
        }
        assert(code_len(u, 0) == code_len(d, s));
        assert(is_start(u, 0));
        assert(type_at(u, codec, 0) == type_at(d, codec, s));
        lemma_unit_in_context(Seq::empty(), u, rest, codec, 0);
        assert(Seq::<u8>::empty() + u + rest =~= out);
    } else {
        assert(p >= e) by {
            if p < unit_first(d, s) {
                assert(!is_start(d, p));
            } else if p < e {
                assert(code_len(d, p) == 0);
            }
        }
        assert(code_len(d, e - 1) != 4) by {
            if e > unit_first(d, s) {
                assert(code_len(d, e - 1) == 0);
            }
        }
        lemma_extract_keeps(d, codec, e, p);
        let q = choose|q: int|
            #![trigger is_start(rest, q)]
            is_start(rest, q) && type_at(rest, codec, q) == type_at(d, codec, p);
        if header_type(codec, type_at(d, codec, s)) {
            let u = d.subrange(s, e);
            lemma_unit_in_context(u, rest, Seq::empty(), codec, q);
            assert(u + rest + Seq::<u8>::empty() =~= out);
        } else {
            assert(out == rest);
        }
    }
}

/// Whether some unit of `d` has this type.
spec fn has_unit(d: Seq<u8>, codec: VideoCodec, t: Option<u8>) -> bool {
    exists|q: int| #[trigger] is_start(d, q) && type_at(d, codec, q) == t
}

/// Whether every unit of `x` is a parameter set of `d`, and `x` begins with one.
spec fn only_headers_of(x: Seq<u8>, d: Seq<u8>, codec: VideoCodec) -> bool {
    &&& x.len() > 0 ==> code_len(x, 0) > 0
    &&& forall|p: int| #[trigger]
        is_start(x, p) ==> header_type(codec, type_at(x, codec, p)) && has_unit(
            d,
            codec,
            type_at(x, codec, p),
        )
}

/// A parameter set of `d` in front of others of `d` makes up a stream of parameter
/// sets. `u` is the unit at `s`, which ends at `e`.
proof fn lemma_header_in_front(d: Seq<u8>, codec: VideoCodec, s: int, e: int, rest: Seq<u8>)
    requires
        0 <= s,
        is_start(d, s),
        header_type(codec, type_at(d, codec, s)),
        unit_first(d, s) < e <= d.len(),
        forall|j: int| unit_first(d, s) <= j < e ==> code_len(d, j) == 0,
        only_headers_of(rest, d, codec),
    ensures
        only_headers_of(d.subrange(s, e) + rest, d, codec),
{
    let u = d.subrange(s, e);
    let y = u + rest;
    let n = u.len() as int;
    assert(forall|j: int| 0 <= j < n ==> y[j] == d[s + j]);
    assert(forall|j: int| 0 <= j < rest.len() ==> y[n + j] == rest[j]);
    lemma_header_byte(codec, d[unit_first(d, s)]);
    assert(code_len(y, 0) == code_len(d, s));
    assert forall|p: int| #[trigger] is_start(y, p) implies header_type(
        codec,
        type_at(y, codec, p),
    ) && has_unit(d, codec, type_at(y, codec, p)) by {
        let first = unit_first(y, 0);
        if p == 0 {
            assert(type_at(y, codec, 0) == type_at(d, codec, s));
        } else if p < first {
            lemma_inside_code(y, 0);
        } else if p < n {
            let k = code_len(y, p);
            assert(code_len(d, s + p) == 0);
            assert(y[p + k - 1] == 1);
            assert(p + k > n);
            assert(rest.len() > 0 && code_len(rest, 0) > 0);
            assert(p == n - 1 && k == 4);
            assert(code_len(rest, 0) == 3) by {
                assert(rest[2] == y[n + 2]);
            }
            assert(is_start(rest, 0));
            assert(unit_first(y, p) == n + unit_first(rest, 0));
            assert(type_at(y, codec, p) == type_at(rest, codec, 0));
        } else {
            let q = p - n;
            assert(code_len(rest, q) == code_len(y, p));
            if q > 0 {
                assert(code_len(rest, q - 1) == code_len(y, p - 1));
            }
            assert(is_start(rest, q));
            assert(type_at(y, codec, p) == type_at(rest, codec, q));
        }
    }
}

/// The extract from `i` on holds parameter sets of `d` only, and is no longer than
/// what is left of `d`.
proof fn lemma_extract_holds_headers(d: Seq<u8>, codec: VideoCodec, i: int)
    requires
        0 <= i <= d.len(),
        code_len(d, i - 1) != 4,
    ensures
        only_headers_of(headers_from(d, codec, i), d, codec),
        headers_from(d, codec, i).len() <= d.len() - i,
    decreases d.len() - i,
{
    let s = next_code(d, i);
    lemma_next_code(d, i);
    if s < d.len() {
        lemma_inside_code(d, s);
        let first = unit_first(d, s);
        let e = next_code(d, first);
        lemma_next_code(d, first);
        assert(is_start(d, s)) by {
            if s > i {
                assert(code_len(d, s - 1) == 0);
            }
        }
        assert(code_len(d, e - 1) != 4) by {
            if e > first {
                assert(code_len(d, e - 1) == 0);
            }
        }
        lemma_extract_holds_headers(d, codec, e);
        if header_type(codec, type_at(d, codec, s)) {
            lemma_header_byte(codec, d[first]);
            assert(first < e) by {
                if first == e {
                    assert(code_len(d, e) > 0);
                }
            }
            lemma_header_in_front(d, codec, s, e, headers_from(d, codec, e));
        }
    }
}

/// A stream of parameter sets is its own extract.
proof fn lemma_headers_extract_whole(x: Seq<u8>, codec: VideoCodec, i: int)
    requires
        0 <= i <= x.len(),
        i < x.len() ==> is_start(x, i),
        forall|p: int| #[trigger]
            is_start(x, p) ==> header_type(codec, type_at(x, codec, p)),
    ensures
        headers_from(x, codec, i) == x.skip(i),
    decreases x.len() - i,
{
    if i < x.len() {
        assert(next_code(x, i) == i);
        lemma_inside_code(x, i);
        let first = unit_first(x, i);
        let e = next_code(x, first);
        lemma_next_code(x, first);
        assert(e < x.len() ==> is_start(x, e)) by {
            if e > first {
                assert(code_len(x, e - 1) == 0);
            }
        }
        lemma_headers_extract_whole(x, codec, e);
        assert(x.subrange(i, e) + x.skip(e) =~= x.skip(i));
    } else {
        assert(x.skip(i) =~= Seq::<u8>::empty());
    }
}

/// The extract of a stream has an SPS and a PPS exactly where the stream has both.
pub proof fn law_extract_keeps_headers(d: Seq<u8>, codec: VideoCodec)
    ensures
        has_headers(headers_from(d, codec, 0), codec) == has_headers(d, codec),
{
    let out = headers_from(d, codec, 0);
    lemma_extract_holds_headers(d, codec, 0);
    if has_headers(d, codec) {
        let p = choose|i: int| #[trigger] sps_at(d, codec, i);
        lemma_extract_keeps(d, codec, 0, p);
        let q = choose|q: int|
            #![trigger is_start(out, q)]
            is_start(out, q) && type_at(out, codec, q) == type_at(d, codec, p);
        assert(sps_at(out, codec, q));
        let r = choose|i: int| #[trigger] pps_at(d, codec, i);
        lemma_extract_keeps(d, codec, 0, r);
        let t = choose|t: int|
            #![trigger is_start(out, t)]
            is_start(out, t) && type_at(out, codec, t) == type_at(d, codec, r);
        assert(pps_at(out, codec, t));
    }
    if has_headers(out, codec) {
        let p = choose|i: int| #[trigger] sps_at(out, codec, i);
        assert(is_start(out, p));
        let q = choose|q: int| #[trigger]
            is_start(d, q) && type_at(d, codec, q) == type_at(out, codec, p);
        assert(sps_at(d, codec, q));
        let r = choose|i: int| #[trigger] pps_at(out, codec, i);
        assert(is_start(out, r));
        let t = choose|t: int| #[trigger]
            is_start(d, t) && type_at(d, codec, t) == type_at(out, codec, r);
        assert(pps_at(d, codec, t));
    }
}

/// The extract of an extract is the extract itself.
pub proof fn law_extract_of_extract_is_the_same(d: Seq<u8>, codec: VideoCodec)
    ensures
        headers_from(headers_from(d, codec, 0), codec, 0) == headers_from(d, codec, 0),
{
    let out = headers_from(d, codec, 0);
    lemma_extract_holds_headers(d, codec, 0);
    lemma_headers_extract_whole(out, codec, 0);
    assert(out.skip(0) =~= out);
}

/// An extract is no longer than its stream and holds no slice.
pub proof fn law_extract_holds_no_slice(d: Seq<u8>, codec: VideoCodec)
    ensures
        headers_from(d, codec, 0).len() <= d.len(),
        forall|i: int| !#[trigger] slice_at(headers_from(d, codec, 0), codec, i),
{
    let out = headers_from(d, codec, 0);
    lemma_extract_holds_headers(d, codec, 0);
    assert forall|i: int| !#[trigger] slice_at(out, codec, i) by {
        if slice_at(out, codec, i) {
            assert(is_start(out, i));
        }
    }
}

proof fn lemma_header_end_in_range(d: Seq<u8>, codec: VideoCodec)
    ensures
        0 <= header_end(d, codec) <= d.len(),
        (exists|k: int| #[trigger] slice_at(d, codec, k)) ==> slice_at(
            d,
            codec,
            header_end(d, codec),
        ) && forall|j: int|
            j < header_end(d, codec) ==> !#[trigger] slice_at(d, codec, j),
{
    if exists|k: int| #[trigger] slice_at(d, codec, k) {
        let k = choose|k: int| #[trigger] slice_at(d, codec, k);
        lemma_least_slice(d, codec, k);
    }
}

proof fn lemma_least_slice(d: Seq<u8>, codec: VideoCodec, k: int)
    requires
        slice_at(d, codec, k),
    ensures
        exists|m: int| #[trigger]
            slice_at(d, codec, m) && forall|j: int| j < m ==> !#[trigger] slice_at(d, codec, j),
    decreases k,
{
    if exists|j: int| j < k && #[trigger] slice_at(d, codec, j) {
        let j = choose|j: int| j < k && #[trigger] slice_at(d, codec, j);
        lemma_least_slice(d, codec, j);
    }
}

/// Once the cache holds an SPS and a PPS, every key frame is sent with both,
/// and the cache keeps holding them.
pub proof fn law_key_frames_carry_headers(d: Seq<u8>, codec: VideoCodec, cache: Option<Seq<u8>>)
    requires
        cache matches Some(h) && has_headers(h, codec),
    ensures
        has_headers(with_cached_headers(d, codec, cache), codec),
        cache_after(d, codec, cache) == cache,
{
    let k = header_end(d, codec);
    lemma_header_end_in_range(d, codec);
    let h = cache->0;
    if has_headers(d.take(k), codec) {
        lemma_headers_in_context(Seq::empty(), d.take(k), d.skip(k), codec);
        assert(Seq::<u8>::empty() + d.take(k) + d.skip(k) =~= d);
    } else {
        lemma_headers_in_context(d.take(k), h, d.skip(k), codec);
    }
}

/// A key frame that brings an SPS and a PPS in front of its first slice fills
/// an empty cache with both, and is sent as it is.
pub proof fn law_first_headers_fill_the_cache(d: Seq<u8>, codec: VideoCodec)
    requires
        has_headers(d.take(header_end(d, codec)), codec),
    ensures
        cache_after(d, codec, None) matches Some(h) && has_headers(h, codec),
        with_cached_headers(d, codec, None) == d,
{
    let front = d.take(header_end(d, codec));
    law_extract_keeps_headers(front, codec);
    let out = headers_from(front, codec, 0);
    let q = choose|i: int| #[trigger] sps_at(out, codec, i);
    assert(out.len() > 0);
}

/// The units of `h` that are parameter sets are there before a unit of `x + h + z` that
/// starts at `p` in `h` or behind it, if that unit does not lie within `h`.
proof fn lemma_headers_before(
    x: Seq<u8>,
    h: Seq<u8>,
    z: Seq<u8>,
    codec: VideoCodec,
    p: int,
    q: int,
)
    requires
        is_start(h, q),
        header_type(codec, type_at(h, codec, q)),
        is_start(x + h + z, p),
        p >= x.len(),
        p - x.len() < h.len() ==> p - x.len() + code_len(x + h + z, p) >= h.len(),
    ensures
        exists|r: int|
            #![trigger is_start((x + h + z).take(p), r)]
            is_start((x + h + z).take(p), r) && type_at((x + h + z).take(p), codec, r) == type_at(
                h,
                codec,
                q,
            ),
{
    let w = x + h + z;
    let n = p - x.len();
    let u = unit_first(h, q);
    let end = if n < h.len() {
        n
    } else {
        h.len() as int
    };
    assert(forall|j: int| 0 <= j < h.len() ==> w[x.len() + j] == h[j]);
    lemma_inside_code(h, q);
    lemma_header_byte(codec, h[u]);
    assert(h[u - 1] == 1);
    assert(u < end) by {
        if n < h.len() && u >= n {
            let k = code_len(w, p);
            assert(w[p + (u - n)] == h[u]);
            assert(u - n <= k - 1);
            assert(u == n + k - 1);
            assert(w[p + k - 2] == 0);
            assert(w[p + k - 2] == h[u - 1]);
        }
    }
    let y = h.take(end);
    assert(forall|j: int| 0 <= j < end ==> y[j] == h[j]);
    assert(code_len(y, q) == code_len(h, q));
    assert(is_start(y, q)) by {
        if q > 0 {
            if code_len(y, q - 1) == 4 {
                assert(code_len(h, q - 1) == 4);
            }
        }
    }
    assert(type_at(y, codec, q) == type_at(h, codec, q));
    let rest = w.take(p).skip(x.len() + end);
    lemma_unit_in_context(x, y, rest, codec, q);
    assert(x + y + rest =~= w.take(p));
}

/// A stream of parameter sets that is put into a frame brings no slice with it, so that
/// every slice of the whole stands behind it or reaches out of it.
proof fn lemma_slices_behind_headers(
    d: Seq<u8>,
    codec: VideoCodec,
    h: Seq<u8>,
    k: int,
    p: int,
)
    requires
        0 <= k <= d.len(),
        k > 0 ==> slice_at(d, codec, k),
        forall|j: int| j < k ==> !#[trigger] slice_at(d, codec, j),
        code_len(h, 0) > 0,
        h.len() > 3,
        forall|j: int| !#[trigger] slice_at(h, codec, j),
        slice_at(d.take(k) + h + d.skip(k), codec, p),
    ensures
        p >= k,
        p - k < h.len() ==> p - k + code_len(d.take(k) + h + d.skip(k), p) >= h.len(),
{
    let x = d.take(k);
    let z = d.skip(k);
    let w = x + h + z;
    let n = code_len(w, p);
    assert(forall|j: int| 0 <= j < k ==> w[j] == d[j]);
    assert(forall|j: int| 0 <= j < h.len() ==> w[k + j] == h[j]);
    assert(h[0] == 0 && h[1] == 0);
    if p < k {
        assert(0 <= p);
        assert(code_len(w, p - 1) != 4);
        if p + n <= k {
            assert(code_len(d, p) == n);
            assert(code_len(d, p - 1) != 4) by {
                if code_len(d, p - 1) == 4 && p > 0 {
                    assert(p + 3 <= k);
                    assert(code_len(w, p - 1) == 4);
                }
            }
            assert(is_start(d, p));
            if p + n < k {
                assert(type_at(d, codec, p) == type_at(w, codec, p));
            } else {
                assert(d[k] == 0) by {
                    assert(code_len(d, k) > 0);
                }
                assert(w[k] == 0);
                assert(type_at(d, codec, p) == type_at(w, codec, p));
            }
            assert(slice_at(d, codec, p));
        } else {
            assert(w[p + n - 1] == 1);
            assert(w[k] == 0 && w[k + 1] == 0);
            assert(p == k - 1 && n == 4);
            assert(w[k + 2] == h[2]);
            assert(code_len(h, 0) == 3);
            assert(is_start(h, 0));
            assert(unit_first(w, p) == k + unit_first(h, 0));
            assert(type_at(h, codec, 0) == type_at(w, codec, p));
            assert(slice_at(h, codec, 0));
        }
    }
    if p >= k && p - k < h.len() && p - k + n < h.len() {
        let q = p - k;
        assert(code_len(h, q) == n);
        assert(code_len(h, q - 1) != 4) by {
            if code_len(h, q - 1) == 4 {
                assert(code_len(w, p - 1) == 4);
            }
        }
        assert(type_at(h, codec, q) == type_at(w, codec, p));
        assert(slice_at(h, codec, q));
    }
}

/// Whether a header cache can stand in front of a picture: it begins with a unit, holds an
/// SPS and a PPS, and no slice.
pub open spec fn clean_cache(h: Seq<u8>, codec: VideoCodec) -> bool {
    &&& is_start(h, 0)
    &&& has_headers(h, codec)
    &&& forall|i: int| !#[trigger] slice_at(h, codec, i)
}

/// In what is sent of a key frame, the parameter sets come before the picture: in front of
/// every coded slice of it an SPS and a PPS start.
pub proof fn law_headers_come_before_the_picture(
    d: Seq<u8>,
    codec: VideoCodec,
    h: Seq<u8>,
    p: int,
)
    requires
        clean_cache(h, codec),
        slice_at(with_cached_headers(d, codec, Some(h)), codec, p),
    ensures
        has_headers(with_cached_headers(d, codec, Some(h)).take(p), codec),
{
    let k = header_end(d, codec);
    lemma_header_end_in_range(d, codec);
    let out = with_cached_headers(d, codec, Some(h));
    let first_sps = choose|i: int| #[trigger] sps_at(h, codec, i);
    let first_pps = choose|i: int| #[trigger] pps_at(h, codec, i);
    lemma_inside_code(h, first_sps);
    if exists|j: int| #[trigger] slice_at(d, codec, j) {
        let j = choose|j: int| #[trigger] slice_at(d, codec, j);
        lemma_least_slice(d, codec, j);
    }
    if has_headers(d.take(k), codec) {
        assert(out == d);
        assert(p >= k);
        lemma_headers_in_context(Seq::empty(), d.take(k), d.subrange(k, p), codec);
        assert(Seq::<u8>::empty() + d.take(k) + d.subrange(k, p) =~= d.take(p));
    } else {
        assert(out == d.take(k) + h + d.skip(k));
        lemma_slices_behind_headers(d, codec, h, k, p);
        lemma_headers_before(d.take(k), h, d.skip(k), codec, p, first_sps);
        let r = choose|r: int|
            #![trigger is_start(out.take(p), r)]
            is_start(out.take(p), r) && type_at(out.take(p), codec, r) == type_at(
                h,
                codec,
                first_sps,
            );
        assert(sps_at(out.take(p), codec, r));
        lemma_headers_before(d.take(k), h, d.skip(k), codec, p, first_pps);
        let t = choose|t: int|
            #![trigger is_start(out.take(p), t)]
            is_start(out.take(p), t) && type_at(out.take(p), codec, t) == type_at(
                h,
                codec,
                first_pps,
            );
        assert(pps_at(out.take(p), codec, t));
    }
}

/// Once a key frame brought its parameter sets in front of its picture, every later key
/// frame is sent with them in front of its own, whether it brings them or not. `first` is
/// that frame and `s` a slice of it that stands behind an SPS and a PPS, before any other
/// slice.
pub proof fn law_later_key_frames_can_be_decoded(
    first: Seq<u8>,
    s: int,
    later: Seq<u8>,
    codec: VideoCodec,
    p: int,
)
    requires
        slice_at(first, codec, s),
        forall|j: int| j < s ==> !#[trigger] slice_at(first, codec, j),
        has_headers(first.take(s), codec),
        slice_at(with_cached_headers(later, codec, cache_after(first, codec, None)), codec, p),
    ensures
        with_cached_headers(first, codec, None) == first,
        cache_after(first, codec, None) matches Some(h) && clean_cache(h, codec),
        has_headers(
            with_cached_headers(later, codec, cache_after(first, codec, None)).take(p),
            codec,
        ),
{
    lemma_header_end(first, codec, s);
    law_first_headers_fill_the_cache(first, codec);
    let front = first.take(s);
    let h = headers_from(front, codec, 0);
    lemma_extract_holds_headers(front, codec, 0);
    law_extract_holds_no_slice(front, codec);
    law_headers_come_before_the_picture(later, codec, h, p);
}

/// Putting headers into a key frame loses none of its bytes: what stands around
/// them is the frame.
pub proof fn law_headers_are_only_inserted(d: Seq<u8>, codec: VideoCodec, h: Seq<u8>)
    ensures
        with_cached_headers(d, codec, Some(h)) == d || exists|k: int|
            #![trigger d.take(k)]
            0 <= k <= d.len() && with_cached_headers(d, codec, Some(h)) == d.take(k) + h + d.skip(
                k,
            ) && d.take(k) + d.skip(k) == d,
{
    let k = header_end(d, codec);
    lemma_header_end_in_range(d, codec);
    assert(d.take(k) + d.skip(k) =~= d);
}

/// Extradata that is an Annex-B stream already is used as it is.
pub proof fn law_annexb_extradata_unchanged(d: Seq<u8>)
    requires
        is_start(d, 0),
    ensures
        annexb_of(d) == d,
{
}

/// What the first byte of a unit says, behind a start code of either length. In H.264
/// the low five bits of it are the type: 1 to 5 is a slice, 5 of them an IDR picture, 7
/// an SPS and 8 a PPS. In H.265 the six bits above the lowest are: up to 21 a slice, 32 a
/// VPS, 33 an SPS and 34 a PPS. In AV1 there are no units.
pub proof fn law_first_bytes_tell_units_apart(d: Seq<u8>, i: int, n: int)
    requires
        0 <= i,
        n == 3 || n == 4,
        i + n < d.len(),
        forall|j: int| i <= j < i + n - 1 ==> d[j] == 0,
        d[i + n - 1] == 1,
        n == 3 && i > 0 ==> d[i - 1] != 0,
    ensures
        ({
            let h264 = d[i + n] as int % 32;
            let h265 = d[i + n] as int / 2 % 64;
            &&& is_start(d, i)
            &&& slice_at(d, VideoCodec::H264, i) == (1 <= h264 <= 5)
            &&& sps_at(d, VideoCodec::H264, i) == (h264 == 7)
            &&& pps_at(d, VideoCodec::H264, i) == (h264 == 8)
            &&& header_type(VideoCodec::H264, type_at(d, VideoCodec::H264, i)) == (h264 == 7
                || h264 == 8)
            &&& slice_at(d, VideoCodec::H265, i) == (h265 <= 21)
            &&& sps_at(d, VideoCodec::H265, i) == (h265 == 33)
            &&& pps_at(d, VideoCodec::H265, i) == (h265 == 34)
            &&& header_type(VideoCodec::H265, type_at(d, VideoCodec::H265, i)) == (32 <= h265
                <= 34)
            &&& !slice_at(d, VideoCodec::AV1, i) && !header_type(
                VideoCodec::AV1,
                type_at(d, VideoCodec::AV1, i),
            )
            &&& i + 5 <= d.len() ==> idr_at(d, i) == (h264 == 5)
        }),
{
    assert(d[i] == 0 && d[i + 1] == 0);
    if n == 4 {
        assert(d[i + 2] == 0);
    }
    assert(code_len(d, i) == n);
    let b: u8 = d[i + n];
    assert(b & 0x1f == b % 32) by (bit_vector);
    assert((b >> 1) & 0x3f == (b / 2) % 64) by (bit_vector);
}

/// Every unit begins behind two zero bytes and a one.
pub proof fn law_units_begin_behind_a_code(d: Seq<u8>, i: int)
    requires
        is_start(d, i),
    ensures
        ({
            let k = unit_first(d, i);
            &&& 0 <= i && i + 3 <= k <= i + 4 && k <= d.len()
            &&& d[k - 3] == 0 && d[k - 2] == 0 && d[k - 1] == 1
            &&& k == i + 4 ==> d[i] == 0
        }),
{
}

/// Units as a configuration record lists them: each behind its length, in two bytes with
/// the high one first.
pub open spec fn listed_units(units: Seq<Seq<u8>>) -> Seq<u8>
    decreases units.len(),
{
    if units.len() == 0 {
        Seq::empty()
    } else {
        let u = units.last();
        listed_units(units.drop_last()) + seq![(u.len() / 256) as u8, (u.len() % 256) as u8] + u
    }
}

/// Units as a stream has them: each behind `00 00 00 01`.
pub open spec fn streamed_units(units: Seq<Seq<u8>>) -> Seq<u8>
    decreases units.len(),
{
    if units.len() == 0 {
        Seq::empty()
    } else {
        streamed_units(units.drop_last()) + seq![0u8, 0u8, 0u8, 1u8] + units.last()
    }
}

proof fn lemma_streamed_first(units: Seq<Seq<u8>>)
    requires
        units.len() > 0,
    ensures
        streamed_units(units) == seq![0u8, 0u8, 0u8, 1u8] + units[0] + streamed_units(
            units.drop_first(),
        ),
    decreases units.len(),
{
    if units.len() == 1 {
        assert(units.drop_last() =~= Seq::<Seq<u8>>::empty());
        assert(units.drop_first() =~= Seq::<Seq<u8>>::empty());
        assert(streamed_units(units.drop_last()) =~= Seq::<u8>::empty());
        assert(streamed_units(units.drop_first()) =~= Seq::<u8>::empty());
        assert(streamed_units(units) =~= seq![0u8, 0u8, 0u8, 1u8] + units[0]);
    } else {
        lemma_streamed_first(units.drop_last());
        assert(units.drop_last().drop_first() =~= units.drop_first().drop_last());
        assert(units.drop_first().last() == units.last());
        assert(streamed_units(units) =~= seq![0u8, 0u8, 0u8, 1u8] + units[0] + streamed_units(
            units.drop_first(),
        ));
    }
}

proof fn lemma_listed_first(units: Seq<Seq<u8>>)
    requires
        units.len() > 0,
    ensures
        listed_units(units) == seq![
            (units[0].len() / 256) as u8,
            (units[0].len() % 256) as u8,
        ] + units[0] + listed_units(units.drop_first()),
    decreases units.len(),
{
    let front = seq![(units[0].len() / 256) as u8, (units[0].len() % 256) as u8];
    if units.len() == 1 {
        assert(units.drop_last() =~= Seq::<Seq<u8>>::empty());
        assert(units.drop_first() =~= Seq::<Seq<u8>>::empty());
        assert(listed_units(units.drop_last()) =~= Seq::<u8>::empty());
        assert(listed_units(units.drop_first()) =~= Seq::<u8>::empty());
        assert(listed_units(units) =~= front + units[0]);
    } else {
        lemma_listed_first(units.drop_last());
        assert(units.drop_last().drop_first() =~= units.drop_first().drop_last());
        assert(units.drop_first().last() == units.last());
        assert(listed_units(units) =~= front + units[0] + listed_units(units.drop_first()));
    }
}

proof fn lemma_list_is_read(d: Seq<u8>, pos: int, units: Seq<Seq<u8>>, rest: Seq<u8>)
    requires
        0 <= pos <= d.len(),
        d.skip(pos) == listed_units(units) + rest,
        forall|i: int| 0 <= i < units.len() ==> (#[trigger] units[i]).len() < 65536,
    ensures
        prefixed_units(d, pos, units.len()) == (
            streamed_units(units),
            pos + listed_units(units).len(),
        ),
    decreases units.len(),
{
    if units.len() > 0 {
        lemma_listed_first(units);
        lemma_streamed_first(units);
        let u = units[0];
        let n = u.len() as int;
        let tail = units.drop_first();
        let s = d.skip(pos);
        let whole = seq![(u.len() / 256) as u8, (u.len() % 256) as u8] + u + (listed_units(tail)
            + rest);
        assert(s =~= whole);
        assert(s.len() >= 2 + n);
        assert(d[pos] == s[0] && d[pos + 1] == s[1]);
        assert(whole[0] == (u.len() / 256) as u8 && whole[1] == (u.len() % 256) as u8);
        assert(d[pos] * 256 + d[pos + 1] == n);
        assert(d.subrange(pos + 2, pos + 2 + n) =~= u) by {
            assert forall|j: int| 0 <= j < n implies d[pos + 2 + j] == u[j] by {
                assert(d[pos + 2 + j] == s[2 + j]);
                assert(whole[2 + j] == u[j]);
            }
        }
        assert(d.skip(pos + 2 + n) =~= listed_units(tail) + rest) by {
            assert forall|j: int| 0 <= j < d.len() - pos - 2 - n implies #[trigger] d.skip(
                pos + 2 + n,
            )[j] == (listed_units(tail) + rest)[j] by {
                assert(d.skip(pos + 2 + n)[j] == s[2 + n + j]);
                assert(whole[2 + n + j] == (listed_units(tail) + rest)[j]);
            }
        }
        assert forall|i: int| 0 <= i < tail.len() implies (#[trigger] tail[i]).len() < 65536 by {
            assert(tail[i] == units[i + 1]);
        }
        lemma_list_is_read(d, pos + 2 + n, tail, rest);
        assert(start_code() =~= seq![0u8, 0u8, 0u8, 1u8]);
    }
}

/// A configuration record becomes the stream of its parameter sets: those that it lists
/// first, then those that it lists second, every one whole and behind a long start code.
/// `flags` counts the first list in its low five bits.
pub proof fn law_records_become_streams(
    head: Seq<u8>,
    flags: u8,
    sps: Seq<Seq<u8>>,
    pps: Seq<Seq<u8>>,
    rest: Seq<u8>,
)
    requires
        head.len() == 5,
        head[0] == 1,
        sps.len() == flags % 32,
        pps.len() < 256,
        forall|i: int| 0 <= i < sps.len() ==> (#[trigger] sps[i]).len() < 65536,
        forall|i: int| 0 <= i < pps.len() ==> (#[trigger] pps[i]).len() < 65536,
    ensures
        annexb_of(
            head + seq![flags] + listed_units(sps) + seq![pps.len() as u8] + listed_units(pps)
                + rest,
        ) == streamed_units(sps) + streamed_units(pps),
{
    let count = pps.len() as u8;
    let d = head + seq![flags] + listed_units(sps) + seq![count] + listed_units(pps) + rest;
    let behind = seq![count] + listed_units(pps) + rest;
    assert(d.skip(6) =~= listed_units(sps) + behind);
    assert(d[0] == 1 && d[5] == flags);
    assert(flags & 0x1f == flags % 32) by (bit_vector);
    lemma_list_is_read(d, 6, sps, behind);
    let p: int = 6 + listed_units(sps).len() as int;
    assert(d[p] == count);
    assert(d.skip(p + 1) =~= listed_units(pps) + rest);
    lemma_list_is_read(d, p + 1, pps, rest);
}

} // verus!
