//! Capture of a Wayland desktop: the desktop portal grants a PipeWire stream,
//! whose buffers carry the frames and the cursor.

use crate::capture::gpu_buffer::GpuBuffer;
use crate::capture::{CapturedFrame, FrameCursorMeta};
use crate::error::{ErrorView, MediaError};
use crate::text::{chars_of, string_of, stripped, trimmed, CharClass};
use crate::types::{picture, CursorImage, DisplayInfo, PictureView, PixelFormat};
use vstd::prelude::*;

verus! {

// ---- Numbers in memory ----

/// The number in four bytes, lowest first.
pub open spec fn u32_at(b: Seq<u8>, i: int) -> u32 {
    (b[i] + 0x100 * b[i + 1] + 0x1_0000 * b[i + 2] + 0x100_0000 * b[i + 3]) as u32
}

/// The number in eight bytes, lowest first.
pub open spec fn u64_at(b: Seq<u8>, i: int) -> u64 {
    (u32_at(b, i) + 0x1_0000_0000 * u32_at(b, i + 4)) as u64
}

/// The number with a sign in four bytes, lowest first.
pub open spec fn i32_at(b: Seq<u8>, i: int) -> i32 {
    u32_at(b, i) as i32
}

fn read_u32(b: &[u8], i: usize) -> (r: u32)
    requires
        i + 4 <= b@.len(),
    ensures
        r == u32_at(b@, i as int),
{
    b[i] as u32 + 0x100 * (b[i + 1] as u32) + 0x1_0000 * (b[i + 2] as u32) + 0x100_0000 * (b[i
        + 3] as u32)
}

fn read_u64(b: &[u8], i: usize) -> (r: u64)
    requires
        i + 8 <= b@.len(),
    ensures
        r == u64_at(b@, i as int),
{
    let n: usize = b.len();
    assert(i + 8 <= n);
    read_u32(b, i) as u64 + 0x1_0000_0000 * (read_u32(b, i + 4) as u64)
}

// ---- The negotiated format ----

/// Video formats of the stream.
pub const SPA_VIDEO_FORMAT_RGBX: u32 = 7;

pub const SPA_VIDEO_FORMAT_BGRX: u32 = 8;

pub const SPA_VIDEO_FORMAT_RGBA: u32 = 11;

pub const SPA_VIDEO_FORMAT_BGRA: u32 = 12;

pub const SPA_VIDEO_FORMAT_ARGB: u32 = 13;

/// Kinds of values that describe the stream.
pub const SPA_TYPE_ID: u32 = 3;

pub const SPA_TYPE_LONG: u32 = 5;

pub const SPA_TYPE_OBJECT: u32 = 15;

/// The parameter that holds the format.
pub const SPA_PARAM_FORMAT: u32 = 4;

/// The format that stands until another is known.
pub const DEFAULT_FOURCC: u32 = 0x3432_5241;

/// The kernel's code of a video format of the stream.
pub open spec fn drm_code(spa: u32) -> u32 {
    if spa == SPA_VIDEO_FORMAT_BGRA {
        0x3432_5241
    } else if spa == SPA_VIDEO_FORMAT_RGBA {
        0x3432_4241
    } else if spa == SPA_VIDEO_FORMAT_BGRX {
        0x3432_5258
    } else if spa == SPA_VIDEO_FORMAT_RGBX {
        0x3432_4258
    } else {
        0x3432_5241
    }
}

/// The kernel's code of a video format of the stream.
pub fn spa_video_format_to_drm_fourcc(spa: u32) -> (r: u32)
    ensures
        r == drm_code(spa),
{
    if spa == SPA_VIDEO_FORMAT_BGRA {
        0x3432_5241
    } else if spa == SPA_VIDEO_FORMAT_RGBA {
        0x3432_4241
    } else if spa == SPA_VIDEO_FORMAT_BGRX {
        0x3432_5258
    } else if spa == SPA_VIDEO_FORMAT_RGBX {
        0x3432_4258
    } else {
        0x3432_5241
    }
}

/// The format that the stream was negotiated to.
#[derive(Debug, Clone, Copy, PartialEq, Eq, Structural)]
pub struct NegotiatedFormat {
    pub fourcc: u32,
    pub modifier: u64,
    pub format_ready: bool,
}

/// The format before one was negotiated.
pub fn no_format() -> (r: NegotiatedFormat)
    ensures
        r == (NegotiatedFormat { fourcc: DEFAULT_FOURCC, modifier: 0, format_ready: false }),
{
    NegotiatedFormat { fourcc: DEFAULT_FOURCC, modifier: 0, format_ready: false }
}

/// Where the first property of an object stands: behind the header and the
/// object's own two numbers.
pub const FIRST_PROP: usize = 16;

/// `n` rounded up to a multiple of eight.
pub open spec fn padded(n: int) -> int {
    (n + 7) / 8 * 8
}

/// The format after the property at `at`. Its key stands there, and 16 bytes on
/// the header and the contents of its value: the format by key 2, the modifier
/// by key 3.
pub open spec fn after_prop(b: Seq<u8>, at: int, f: NegotiatedFormat) -> NegotiatedFormat {
    let key = u32_at(b, at);
    let size = u32_at(b, at + 16);
    let kind = u32_at(b, at + 20);
    if key == 2 {
        if kind == SPA_TYPE_ID && size >= 4 && at + 28 <= b.len() {
            NegotiatedFormat { fourcc: drm_code(u32_at(b, at + 24)), ..f }
        } else {
            f
        }
    } else if key == 3 {
        if kind == SPA_TYPE_LONG && size >= 8 && at + 32 <= b.len() {
            NegotiatedFormat { modifier: u64_at(b, at + 24), ..f }
        } else {
            f
        }
    } else {
        f
    }
}

/// The format after the properties from `offset` on, of an object whose
/// properties take `body` bytes. The walk ends where the bytes do.
pub open spec fn after_props(b: Seq<u8>, body: int, offset: int, f: NegotiatedFormat) ->
    NegotiatedFormat
    decreases
            (if body > offset {
                body - offset
            } else {
                0
            }),
{
    let at = FIRST_PROP + offset;
    if offset < 0 || offset + 16 >= body || at + 24 > b.len() {
        f
    } else {
        after_props(
            b,
            body,
            offset + 24 + padded(u32_at(b, at + 16) as int),
            after_prop(b, at, f),
        )
    }
}

/// The format that an object describes.
pub open spec fn described_format(b: Seq<u8>) -> NegotiatedFormat {
    let start = NegotiatedFormat { fourcc: DEFAULT_FOURCC, modifier: 0, format_ready: true };
    if b.len() >= 8 && u32_at(b, 4) == SPA_TYPE_OBJECT {
        let size = u32_at(b, 0) as int;
        after_props(
            b,
            if size >= 8 {
                size - 8
            } else {
                0
            },
            0,
            start,
        )
    } else {
        start
    }
}

fn read_prop(b: &[u8], at: usize, f: NegotiatedFormat) -> (r: NegotiatedFormat)
    requires
        at + 24 <= b@.len(),
    ensures
        r == after_prop(b@, at as int, f),
{
    let left: usize = b.len() - at;
    let key: u32 = read_u32(b, at);
    let size: u32 = read_u32(b, at + 16);
    let kind: u32 = read_u32(b, at + 20);
    let mut r: NegotiatedFormat = f;
    if key == 2 {
        if kind == SPA_TYPE_ID && size >= 4 && left >= 28 {
            r.fourcc = spa_video_format_to_drm_fourcc(read_u32(b, at + 24));
        }
    } else if key == 3 {
        if kind == SPA_TYPE_LONG && size >= 8 && left >= 32 {
            r.modifier = read_u64(b, at + 24);
        }
    }
    r
}

/// Reads the format that an object describes.
pub fn parse_format(b: &[u8]) -> (r: NegotiatedFormat)
    ensures
        r == described_format(b@),
{
    let mut r = NegotiatedFormat { fourcc: DEFAULT_FOURCC, modifier: 0, format_ready: true };
    let n: usize = b.len();
    if n < 8 || read_u32(b, 4) != SPA_TYPE_OBJECT {
        return r;
    }
    let size: u32 = read_u32(b, 0);
    let body: u64 = if size >= 8 {
        (size - 8) as u64
    } else {
        0
    };
    let mut offset: u64 = 0;
    while offset + 16 < body && offset + 40 <= n as u64
        invariant
            n == b@.len(),
            body <= u32::MAX,
            offset <= 0x4_0000_0000,
            after_props(b@, body as int, offset as int, r) == described_format(b@),
        decreases 0x4_0000_0000 - offset,
    {
        let at: usize = FIRST_PROP + offset as usize;
        let value: u32 = read_u32(b, at + 16);
        r = read_prop(b, at, r);
        let value: u64 = (value as u64 + 7) / 8 * 8;
        offset = offset + 24 + value;
    }
    r
}

/// Takes up a parameter of the stream that changed: a new format replaces the
/// old one, anything else leaves it.
pub fn param_changed(f: &mut NegotiatedFormat, id: u32, pod: Option<&[u8]>)
    ensures
        *final(f) == (match pod {
            Some(b) if id == SPA_PARAM_FORMAT => described_format(b@),
            _ => *old(f),
        }),
{
    if id != SPA_PARAM_FORMAT {
        return;
    }
    if let Some(b) = pod {
        *f = parse_format(b);
    }
}

// ---- The cursor ----

/// Where the bytes of a cursor pixel stand: red, green, blue and alpha; a pixel
/// without alpha is solid.
pub open spec fn pixel_byte(src: Seq<u8>, format: u32, at: int, c: int) -> u8 {
    if at + 4 > src.len() {
        0
    } else if format == SPA_VIDEO_FORMAT_BGRA {
        if c == 3 {
            src[at + 3]
        } else {
            src[at + 2 - c]
        }
    } else if format == SPA_VIDEO_FORMAT_ARGB {
        if c == 3 {
            src[at]
        } else {
            src[at + 1 + c]
        }
    } else if format == SPA_VIDEO_FORMAT_BGRX {
        if c == 3 {
            0xff
        } else {
            src[at + 2 - c]
        }
    } else if format == SPA_VIDEO_FORMAT_RGBX && c == 3 {
        0xff
    } else {
        src[at + c]
    }
}

/// A cursor picture in RGBA. Pixels that stand outside the rows are clear.
pub open spec fn cursor_rgba(
    src: Seq<u8>,
    format: u32,
    width: u32,
    height: u32,
    stride: u32,
) -> Seq<u8> {
    Seq::new(
        (4 * (width * height)) as nat,
        |i: int|
            pixel_byte(
                src,
                format,
                (i / 4) / (width as int) * stride + (i / 4) % (width as int) * 4,
                i % 4,
            ),
    )
}

fn push_pixel(r: &mut Vec<u8>, src: &[u8], format: u32, at: u128)
    ensures
        final(r)@ == old(r)@ + seq![
            pixel_byte(src@, format, at as int, 0),
            pixel_byte(src@, format, at as int, 1),
            pixel_byte(src@, format, at as int, 2),
            pixel_byte(src@, format, at as int, 3),
        ],
{
    let ghost before = r@;
    let n: usize = src.len();
    if n < 4 || at > (n - 4) as u128 {
        r.push(0);
        r.push(0);
        r.push(0);
        r.push(0);
    } else {
        let p: usize = at as usize;
        if format == SPA_VIDEO_FORMAT_BGRA || format == SPA_VIDEO_FORMAT_BGRX {
            r.push(src[p + 2]);
            r.push(src[p + 1]);
            r.push(src[p]);
        } else if format == SPA_VIDEO_FORMAT_ARGB {
            r.push(src[p + 1]);
            r.push(src[p + 2]);
            r.push(src[p + 3]);
        } else {
            r.push(src[p]);
            r.push(src[p + 1]);
            r.push(src[p + 2]);
        }
        if format == SPA_VIDEO_FORMAT_BGRX || format == SPA_VIDEO_FORMAT_RGBX {
            r.push(0xff);
        } else if format == SPA_VIDEO_FORMAT_ARGB {
            r.push(src[p]);
        } else {
            r.push(src[p + 3]);
        }
    }
    assert(r@ =~= before + seq![
        pixel_byte(src@, format, at as int, 0),
        pixel_byte(src@, format, at as int, 1),
        pixel_byte(src@, format, at as int, 2),
        pixel_byte(src@, format, at as int, 3),
    ]);
}

/// Makes a cursor picture in RGBA of rows in a format of the stream; `None`
/// where there are too few bytes.
pub fn convert_cursor_bitmap_to_rgba(
    raw: &[u8],
    format: u32,
    width: u32,
    height: u32,
    stride: u32,
) -> (r: Option<Vec<u8>>)
    requires
        4 * (width * height) <= usize::MAX,
    ensures
        match r {
            None => raw@.len() < stride * height,
            Some(v) => raw@.len() >= stride * height && v@ == cursor_rgba(
                raw@.take(stride * height),
                format,
                width,
                height,
                stride,
            ),
        },
{
    assert(stride * height <= u32::MAX * u32::MAX && width * height <= u32::MAX * u32::MAX)
        by (nonlinear_arith)
        requires
            stride <= u32::MAX,
            width <= u32::MAX,
            height <= u32::MAX,
    ;
    let expected: u64 = stride as u64 * height as u64;
    if (raw.len() as u64) < expected {
        return None;
    }
    let src: &[u8] = vstd::slice::slice_subrange(raw, 0, expected as usize);
    assert(src@ =~= raw@.take(stride * height));
    let pixels: u64 = width as u64 * height as u64;
    let mut r: Vec<u8> = Vec::new();
    let mut k: u64 = 0;
    while k < pixels
        invariant
            k <= pixels,
            pixels == width * height,
            4 * pixels <= usize::MAX,
            r@.len() == 4 * k,
            forall|i: int|
                0 <= i < r@.len() ==> r@[i] == #[trigger] cursor_rgba(
                    src@,
                    format,
                    width,
                    height,
                    stride,
                )[i],
        decreases pixels - k,
    {
        let w: u64 = width as u64;
        assert(w > 0) by (nonlinear_arith)
            requires
                0 <= k < w * height,
        ;
        let row: u64 = k / w;
        let col: u64 = k % w;
        assert(row < height) by (nonlinear_arith)
            requires
                row == k as int / w as int,
                w > 0,
                0 <= k < w * height,
        ;
        assert(row * stride <= u32::MAX * u32::MAX) by (nonlinear_arith)
            requires
                row < u32::MAX,
                stride <= u32::MAX,
        ;
        let at: u128 = row as u128 * stride as u128 + col as u128 * 4;
        let ghost before = r@;
        push_pixel(&mut r, src, format, at);
        proof {
            let all = cursor_rgba(src@, format, width, height, stride);
            assert forall|i: int| 0 <= i < r@.len() implies r@[i] == #[trigger] all[i] by {
                if i < 4 * k {
                    assert(r@[i] == before[i]);
                } else {
                    assert(i / 4 == k);
                    assert(i < 4 * pixels);
                }
            }
        }
        k = k + 1;
    }
    assert(r@ =~= cursor_rgba(src@, format, width, height, stride));
    Some(r)
}

/// The size of the cursor's description and of its bitmap's.
pub const CURSOR_META_SIZE: u32 = 28;

pub const BITMAP_META_SIZE: u32 = 20;

/// The picture that a bitmap description at `at` gives, for a hotspot.
pub open spec fn bitmap_picture(b: Seq<u8>, at: int, hx: i32, hy: i32) -> Option<PictureView> {
    let format = u32_at(b, at);
    let width = u32_at(b, at + 4);
    let height = u32_at(b, at + 8);
    let stride = u32_at(b, at + 12);
    let offset = u32_at(b, at + 16);
    if at + BITMAP_META_SIZE > b.len() || offset < BITMAP_META_SIZE || width == 0 || height == 0
        || at + offset + stride * height > b.len() || 4 * (width * height) > usize::MAX {
        None
    } else {
        Some(
            PictureView {
                width,
                height,
                hotspot_x: if hx < 0 {
                    0
                } else {
                    hx as u32
                },
                hotspot_y: if hy < 0 {
                    0
                } else {
                    hy as u32
                },
                rgba_data: cursor_rgba(
                    b.subrange(at + offset, at + offset + stride * height),
                    format,
                    width,
                    height,
                    stride,
                ),
            },
        )
    }
}

/// The picture that the cursor's description points to.
pub open spec fn cursor_picture(b: Seq<u8>) -> Option<PictureView> {
    let offset = u32_at(b, 24);
    if offset < CURSOR_META_SIZE {
        None
    } else {
        bitmap_picture(b, offset as int, i32_at(b, 16), i32_at(b, 20))
    }
}

fn read_bitmap(b: &[u8], offset: u32, hx: i32, hy: i32) -> (r: Option<CursorImage>)
    ensures
        picture(r) == bitmap_picture(b@, offset as int, hx, hy),
{
    let n: u64 = b.len() as u64;
    if n < BITMAP_META_SIZE as u64 || offset as u64 > n - BITMAP_META_SIZE as u64 {
        return None;
    }
    let at: usize = offset as usize;
    let format: u32 = read_u32(b, at);
    let width: u32 = read_u32(b, at + 4);
    let height: u32 = read_u32(b, at + 8);
    let stride: u32 = read_u32(b, at + 12);
    let start: u32 = read_u32(b, at + 16);
    if start < BITMAP_META_SIZE || width == 0 || height == 0 {
        return None;
    }
    assert(stride * height <= 0xffff_fffe_0000_0001 && width * height <= 0xffff_fffe_0000_0001)
        by (nonlinear_arith)
        requires
            stride <= u32::MAX,
            width <= u32::MAX,
            height <= u32::MAX,
    ;
    let length: u64 = stride as u64 * height as u64;
    let pixels: u64 = width as u64 * height as u64;
    let from: u64 = offset as u64 + start as u64;
    if from > n || length > n - from || pixels > (usize::MAX / 4) as u64 {
        return None;
    }
    let rows: &[u8] = vstd::slice::slice_subrange(b, from as usize, (from + length) as usize);
    assert(rows@.take(stride * height) =~= rows@);
    match convert_cursor_bitmap_to_rgba(rows, format, width, height, stride) {
        None => None,
        Some(rgba_data) => {
            let hotspot_x: u32 = if hx < 0 {
                0
            } else {
                hx as u32
            };
            let hotspot_y: u32 = if hy < 0 {
                0
            } else {
                hy as u32
            };
            Some(CursorImage { width, height, hotspot_x, hotspot_y, rgba_data })
        },
    }
}

/// Whether `r` is the cursor that these bytes describe.
pub open spec fn cursor_described(b: Seq<u8>, r: Option<FrameCursorMeta>) -> bool {
    match r {
        None => b.len() < CURSOR_META_SIZE || u32_at(b, 0) == 0,
        Some(m) => b.len() >= CURSOR_META_SIZE && u32_at(b, 0) != 0 && m.visible && m.x == i32_at(
            b,
            8,
        ) && m.y == i32_at(b, 12) && m.hotspot_x == i32_at(b, 16) && m.hotspot_y == i32_at(b, 20)
            && picture(m.image) == cursor_picture(b),
    }
}

/// The cursor that a buffer's description gives: none where it is missing, cut
/// short or of no cursor.
pub fn extract_cursor_meta(meta: Option<&[u8]>) -> (r: Option<FrameCursorMeta>)
    ensures
        match meta {
            None => r is None,
            Some(b) => cursor_described(b@, r),
        },
{
    match meta {
        None => None,
        Some(b) => {
            if b.len() < 28 || read_u32(b, 0) == 0 {
                return None;
            }
            let x: i32 = read_u32(b, 8) as i32;
            let y: i32 = read_u32(b, 12) as i32;
            let hotspot_x: i32 = read_u32(b, 16) as i32;
            let hotspot_y: i32 = read_u32(b, 20) as i32;
            let offset: u32 = read_u32(b, 24);
            let image: Option<CursorImage> = if offset < CURSOR_META_SIZE {
                None
            } else {
                read_bitmap(b, offset, hotspot_x, hotspot_y)
            };
            Some(FrameCursorMeta { x, y, hotspot_x, hotspot_y, visible: true, image })
        },
    }
}

// ---- Buffers ----

/// Where a buffer's bytes are.
pub const SPA_DATA_MEM_PTR: u32 = 1;

pub const SPA_DATA_MEM_FD: u32 = 2;

pub const SPA_DATA_DMA_BUF: u32 = 3;

/// What the stream says of a buffer's first part.
#[derive(Debug, Clone, Copy, PartialEq, Eq, Structural)]
pub struct SpaData {
    pub kind: u32,
    pub fd: i64,
    pub offset: u32,
    pub stride: i32,
    pub maxsize: u32,
    /// The bytes are mapped into memory.
    pub mapped: bool,
}

/// What is to be done with a buffer.
#[derive(Debug, Clone, Copy, PartialEq, Eq, Structural)]
pub enum BufferPlan {
    /// Import the shared buffer through the GPU.
    Import { fd: i32, stride: u32, offset: u32, fourcc: u32, modifier: u64 },
    /// Copy the mapped bytes.
    Copy { stride: u32, size: usize },
    Skip,
}

/// What is to be done with a buffer.
pub open spec fn buffer_plan(data: Option<SpaData>, f: NegotiatedFormat) -> BufferPlan {
    match data {
        None => BufferPlan::Skip,
        Some(d) => if d.kind == SPA_DATA_DMA_BUF {
            BufferPlan::Import {
                fd: d.fd as i32,
                stride: d.stride as u32,
                offset: d.offset,
                fourcc: f.fourcc,
                modifier: f.modifier,
            }
        } else if (d.kind == SPA_DATA_MEM_PTR || d.kind == SPA_DATA_MEM_FD) && d.mapped && d.maxsize
            > 0 {
            BufferPlan::Copy { stride: d.stride as u32, size: d.maxsize as usize }
        } else {
            BufferPlan::Skip
        },
    }
}

/// What is to be done with a buffer: a shared one is imported in the negotiated
/// format, a mapped one copied; others are skipped.
pub fn plan_buffer(data: Option<SpaData>, f: NegotiatedFormat) -> (r: BufferPlan)
    ensures
        r == buffer_plan(data, f),
{
    match data {
        None => BufferPlan::Skip,
        Some(d) => if d.kind == SPA_DATA_DMA_BUF {
            BufferPlan::Import {
                fd: d.fd as i32,
                stride: d.stride as u32,
                offset: d.offset,
                fourcc: f.fourcc,
                modifier: f.modifier,
            }
        } else if (d.kind == SPA_DATA_MEM_PTR || d.kind == SPA_DATA_MEM_FD) && d.mapped
            && d.maxsize > 0 {
            BufferPlan::Copy { stride: d.stride as u32, size: d.maxsize as usize }
        } else {
            BufferPlan::Skip
        },
    }
}

/// The frame of bytes in BGRA that a buffer gave.
pub open spec fn frame_of_buffer(
    data: Vec<u8>,
    copied_stride: Option<u32>,
    width: u32,
    height: u32,
    cursor: Option<FrameCursorMeta>,
    timestamp_us: u64,
) -> CapturedFrame {
    CapturedFrame {
        buffer: GpuBuffer::CpuBuffer {
            data,
            stride: match copied_stride {
                Some(s) => s,
                None => (width * 4) as u32,
            },
            format: PixelFormat::BGRA,
            width,
            height,
        },
        timestamp_us,
        width,
        height,
        format: PixelFormat::BGRA,
        is_new_frame: true,
        cursor,
    }
}

/// The frame of bytes in BGRA that a buffer gave. An imported one has rows
/// without gaps, a copied one the buffer's stride.
pub fn buffer_frame(
    data: Vec<u8>,
    copied_stride: Option<u32>,
    width: u32,
    height: u32,
    cursor: Option<FrameCursorMeta>,
    timestamp_us: u64,
) -> (r: CapturedFrame)
    requires
        copied_stride is None ==> width * 4 <= u32::MAX,
    ensures
        r == frame_of_buffer(data, copied_stride, width, height, cursor, timestamp_us),
{
    let stride: u32 = match copied_stride {
        Some(s) => s,
        None => width * 4,
    };
    CapturedFrame {
        buffer: GpuBuffer::CpuBuffer { data, stride, format: PixelFormat::BGRA, width, height },
        timestamp_us,
        width,
        height,
        format: PixelFormat::BGRA,
        is_new_frame: true,
        cursor,
    }
}

// ---- The portal ----

/// A call to the desktop portal.
#[derive(Debug, Clone, Copy, PartialEq, Eq, Structural)]
pub enum PortalCall {
    CreateScreencast,
    CreateSession,
    SelectSources,
    Start,
    Response,
    SpawnThread,
}

pub open spec fn portal_text(call: PortalCall) -> Seq<char> {
    match call {
        PortalCall::CreateScreencast => "Failed to create Screencast portal: "@,
        PortalCall::CreateSession => "Failed to create portal session: "@,
        PortalCall::SelectSources => "Failed to select sources: "@,
        PortalCall::Start => "Failed to start portal: "@,
        PortalCall::Response => "Portal response error: "@,
        PortalCall::SpawnThread => "Failed to spawn PipeWire thread: "@,
    }
}

/// The error of a call to the portal that failed.
pub fn portal_failure(call: PortalCall, text: &str) -> (e: MediaError)
    ensures
        e@ == ErrorView::CaptureError(portal_text(call) + text@),
{
    let front: &str = match call {
        PortalCall::CreateScreencast => "Failed to create Screencast portal: ",
        PortalCall::CreateSession => "Failed to create portal session: ",
        PortalCall::SelectSources => "Failed to select sources: ",
        PortalCall::Start => "Failed to start portal: ",
        PortalCall::Response => "Portal response error: ",
        PortalCall::SpawnThread => "Failed to spawn PipeWire thread: ",
    };
    MediaError::CaptureError(front.to_owned().concat(text))
}

/// The text of a setting that may be there.
pub open spec fn opt_view(s: Option<&str>) -> Option<Seq<char>> {
    match s {
        Some(t) => Some(t@),
        None => None,
    }
}

/// The file that keeps the portal's token, below the user's configuration.
pub open spec fn token_path(config_home: Option<Seq<char>>, home: Option<Seq<char>>) -> Seq<char> {
    (match (config_home, home) {
        (Some(c), _) => c,
        (None, Some(h)) => h + "/.config"@,
        (None, None) => ""@ + "/.config"@,
    }) + "/lunaris/screencast-token"@
}

/// The file that keeps the portal's token, below the user's configuration.
pub fn restore_token_path(config_home: Option<&str>, home: Option<&str>) -> (s: String)
    ensures
        s@ == token_path(opt_view(config_home), opt_view(home)),
{
    let dir: String = match config_home {
        Some(c) => c.to_owned(),
        None => match home {
            Some(h) => h.to_owned().concat("/.config"),
            None => "".to_owned().concat("/.config"),
        },
    };
    dir.concat("/lunaris/screencast-token")
}

/// The token in the text that was kept: what is left without the white space
/// around it, where anything is.
pub fn saved_token(text: Option<&str>) -> (r: Option<String>)
    ensures
        match (text, r) {
            (Some(t), Some(s)) => s@ == stripped(t@, CharClass::White) && s@.len() > 0,
            (Some(t), None) => stripped(t@, CharClass::White).len() == 0,
            (None, r) => r is None,
        },
{
    match text {
        None => None,
        Some(t) => {
            let all: Vec<char> = chars_of(t);
            let core: Vec<char> = trimmed(all.as_slice(), CharClass::White);
            if core.len() == 0 {
                None
            } else {
                Some(string_of(core.as_slice()))
            }
        },
    }
}

/// Whether a token that the portal gave is to be kept.
pub fn keeps_token(token: Option<&str>) -> (b: bool)
    ensures
        b == (token matches Some(t) && t@.len() > 0),
{
    match token {
        None => false,
        Some(t) => {
            let v: Vec<char> = chars_of(t);
            v.len() > 0
        },
    }
}

/// How many frames wait for the pipeline.
pub const FRAME_CHANNEL_CAPACITY: usize = 2;

/// The state of a capture by PipeWire. The stream is held by the caller.
#[derive(Debug, Clone, Copy, PartialEq, Eq, Structural)]
pub struct PipeWireCapture {
    pub capturing: bool,
}

impl PipeWireCapture {
    /// A capture that has not started. It needs a Wayland session, by the
    /// session's type or by a Wayland display that is named.
    pub fn new(session_type: Option<&str>, wayland_display: bool) -> (r: Result<Self, MediaError>)
        ensures
            match r {
                Ok(c) => (wayland_display || (session_type matches Some(t) && t@ == "wayland"@))
                    && !c.capturing,
                Err(e) => !wayland_display && !(session_type matches Some(t) && t@
                    == "wayland"@) && e@ == ErrorView::PlatformNotSupported(
                    "PipeWire screen capture requires a Wayland session."@,
                ),
            },
    {
        let named: bool = match session_type {
            None => false,
            Some(t) => {
                let v: Vec<char> = chars_of(t);
                crate::text::is_text(v.as_slice(), "wayland")
            },
        };
        if named || wayland_display {
            Ok(PipeWireCapture { capturing: false })
        } else {
            Err(
                MediaError::PlatformNotSupported(
                    "PipeWire screen capture requires a Wayland session.".to_owned(),
                ),
            )
        }
    }

    /// The one display that stands for what the portal lets the user pick.
    pub fn list_displays() -> (r: Vec<DisplayInfo>)
        ensures
            r@.len() == 1,
            r@[0].id@ == "default"@,
            r@[0].name@ == "Default Display (portal will show picker)"@,
            r@[0].width == 1920,
            r@[0].height == 1080,
            r@[0].refresh_rate@ == "60.0"@,
            r@[0].is_primary,
    {
        vec![
            DisplayInfo {
                id: "default".to_owned(),
                name: "Default Display (portal will show picker)".to_owned(),
                width: 1920,
                height: 1080,
                refresh_rate: "60.0".to_owned(),
                is_primary: true,
            },
        ]
    }

    /// Whether a capture can be started.
    pub fn start(&self) -> (r: Result<(), MediaError>)
        ensures
            match r {
                Ok(()) => !self.capturing,
                Err(e) => self.capturing && e@ == ErrorView::CaptureAlreadyStarted,
            },
    {
        if self.capturing {
            Err(MediaError::CaptureAlreadyStarted)
        } else {
            Ok(())
        }
    }

    /// Takes up the streams that the portal granted: the first is captured.
    pub fn started(&mut self, streams: &Vec<u32>) -> (r: Result<u32, MediaError>)
        ensures
            match r {
                Ok(node) => streams@.len() > 0 && node == streams@[0] && final(self).capturing,
                Err(e) => streams@.len() == 0 && *final(self) == *old(self) && e@
                    == ErrorView::CaptureError("No stream returned from portal"@),
            },
    {
        if streams.len() == 0 {
            return Err(MediaError::capture("No stream returned from portal"));
        }
        self.capturing = true;
        Ok(streams[0])
    }

    /// The next frame, by what the stream handed over; `None` where it ended.
    pub fn next_frame(&self, received: Option<CapturedFrame>) -> (r: Result<
        CapturedFrame,
        MediaError,
    >)
        ensures
            match r {
                Ok(f) => self.capturing && received == Some(f),
                Err(e) => if !self.capturing {
                    e@ == ErrorView::CaptureNotStarted
                } else {
                    received is None && e@ == ErrorView::CaptureError("Frame channel closed"@)
                },
            },
    {
        if !self.capturing {
            return Err(MediaError::CaptureNotStarted);
        }
        match received {
            Some(f) => Ok(f),
            None => Err(MediaError::capture("Frame channel closed")),
        }
    }

    /// Stops capturing. The stream is to be ended where this returns `true`.
    pub fn stop(&mut self) -> (end: bool)
        ensures
            end == old(self).capturing,
            !final(self).capturing,
    {
        let end: bool = self.capturing;
        self.capturing = false;
        end
    }

    /// Whether a capture is running.
    pub fn is_capturing(&self) -> (b: bool)
        ensures
            b == self.capturing,
    {
        self.capturing
    }
}

/// Every picture of a cursor in a buffer has a size and four bytes for each of
/// its pixels.
pub proof fn law_buffer_pictures_fill_their_size(b: Seq<u8>)
    ensures
        cursor_picture(b) matches Some(p) ==> p.width > 0 && p.height > 0 && p.rgba_data.len()
            == 4 * (p.width * p.height),
{
    if let Some(p) = cursor_picture(b) {
        assert(p.width * p.height >= 0) by (nonlinear_arith);
    }
}

/// Numbers stand in memory with their lowest byte first.
pub proof fn law_numbers_have_their_lowest_byte_first(b: Seq<u8>, i: int)
    requires
        0 <= i,
        i + 8 <= b.len(),
    ensures
        u32_at(b, i) as int % 0x100 == b[i],
        u32_at(b, i) as int / 0x100 % 0x100 == b[i + 1],
        u32_at(b, i) as int / 0x1_0000 % 0x100 == b[i + 2],
        u32_at(b, i) as int / 0x100_0000 == b[i + 3],
        u64_at(b, i) as int % 0x1_0000_0000 == u32_at(b, i),
        u64_at(b, i) as int / 0x1_0000_0000 == u32_at(b, i + 4),
        u32_at(b, i) < 0x8000_0000 ==> i32_at(b, i) == u32_at(b, i),
        u32_at(b, i) >= 0x8000_0000 ==> i32_at(b, i) == u32_at(b, i) - 0x1_0000_0000,
{
    let x: u32 = u32_at(b, i);
    assert(x < 0x8000_0000 ==> x as i32 == x) by (bit_vector);
    assert(x >= 0x8000_0000 ==> x as i32 == x - 0x1_0000_0000) by (bit_vector);
}

/// The kernel's code of a format spells it, lowest byte first: whether the fourth byte of a
/// pixel is alpha or of no meaning, whether red or blue is the third from below, and 24 for
/// the bits of colour. The kernel names the bytes from the highest down, the stream from the
/// lowest up.
pub proof fn law_format_codes_spell_the_format(spa: u32)
    ensures
        drm_code(spa) / 0x1_0000 == '2' as u32 + 0x100 * ('4' as u32),
        drm_code(spa) % 0x100 == (if spa == 7 || spa == 8 {
            'X' as u32
        } else {
            'A' as u32
        }),
        drm_code(spa) / 0x100 % 0x100 == (if spa == 7 || spa == 11 {
            'B' as u32
        } else {
            'R' as u32
        }),
{
}

/// A cursor's picture has the pixel in its row and column that the buffer has there, the
/// rows of which stand `stride` bytes apart: as red, green, blue and alpha, whatever order
/// the format has, and solid where the format has no alpha.
pub proof fn law_cursor_pixels_keep_their_places(
    src: Seq<u8>,
    format: u32,
    width: u32,
    height: u32,
    stride: u32,
    x: int,
    y: int,
)
    requires
        0 <= x < width,
        0 <= y < height,
        y * stride + x * 4 + 4 <= src.len(),
    ensures
        ({
            let r = cursor_rgba(src, format, width, height, stride);
            let i = 4 * (y * width + x);
            let at = y * stride + x * 4;
            &&& r.len() == 4 * (width * height)
            &&& 0 <= i && i + 4 <= r.len()
            &&& format == 12 ==> r[i] == src[at + 2] && r[i + 1] == src[at + 1] && r[i + 2]
                == src[at] && r[i + 3] == src[at + 3]
            &&& format == 13 ==> r[i] == src[at + 1] && r[i + 1] == src[at + 2] && r[i + 2]
                == src[at + 3] && r[i + 3] == src[at]
            &&& format == 8 ==> r[i] == src[at + 2] && r[i + 1] == src[at + 1] && r[i + 2]
                == src[at] && r[i + 3] == 255
            &&& format == 7 ==> r[i] == src[at] && r[i + 1] == src[at + 1] && r[i + 2] == src[at + 2]
                && r[i + 3] == 255
            &&& format != 12 && format != 13 && format != 8 && format != 7 ==> r[i] == src[at]
                && r[i + 1] == src[at + 1] && r[i + 2] == src[at + 2] && r[i + 3] == src[at + 3]
        }),
{
    let w = width as int;
    let h = height as int;
    let n = y * w + x;
    assert(0 <= n && 4 * n + 4 <= 4 * (w * h)) by (nonlinear_arith)
        requires
            n == y * w + x,
            0 <= x < w,
            0 <= y < h,
    ;
    vstd::arithmetic::div_mod::lemma_fundamental_div_mod_converse(n, w, y, x);
    assert(n / w == y && n % w == x);
    assert((4 * n) / 4 == n && (4 * n + 1) / 4 == n && (4 * n + 2) / 4 == n && (4 * n + 3) / 4 == n);
    assert((4 * n) % 4 == 0 && (4 * n + 1) % 4 == 1 && (4 * n + 2) % 4 == 2 && (4 * n + 3) % 4 == 3);
}

/// The cursor is shown where its description says, four bytes each from the ninth on: its
/// place, then its hotspot. Its picture has the size that the bitmap's description gives,
/// and a hotspot that is not below zero. A description that is cut short or of no cursor
/// gives none.
pub proof fn law_cursors_are_where_they_are_described(b: Seq<u8>, r: Option<FrameCursorMeta>)
    requires
        cursor_described(b, r),
    ensures
        r is Some <==> b.len() >= 28 && u32_at(b, 0) != 0,
        r is Some ==> {
            let m = r->0;
            let at = u32_at(b, 24) as int;
            &&& m.visible
            &&& m.x == u32_at(b, 8) as i32 && m.y == u32_at(b, 12) as i32
            &&& m.hotspot_x == u32_at(b, 16) as i32 && m.hotspot_y == u32_at(b, 20) as i32
            &&& m.image is Some ==> {
                let i = m.image->0;
                &&& at >= 28
                &&& i.width == u32_at(b, at + 4) && i.height == u32_at(b, at + 8)
                &&& m.hotspot_x >= 0 ==> i.hotspot_x == m.hotspot_x
                &&& m.hotspot_y >= 0 ==> i.hotspot_y == m.hotspot_y
                &&& m.hotspot_x < 0 ==> i.hotspot_x == 0
                &&& m.hotspot_y < 0 ==> i.hotspot_y == 0
                &&& i.rgba_data@ == cursor_rgba(
                    b.subrange(
                        at + u32_at(b, at + 16),
                        at + u32_at(b, at + 16) + u32_at(b, at + 12) * u32_at(b, at + 8),
                    ),
                    u32_at(b, at),
                    i.width,
                    i.height,
                    u32_at(b, at + 12),
                )
            }
        },
{
    if r is Some && r->0.image is Some {
        assert(picture(r->0.image) is Some);
        assert(picture(r->0.image) == cursor_picture(b));
    }
}

/// A shared buffer is imported as the stream describes it, in the format that was
/// negotiated; bytes that are mapped are copied, all of them, in the stream's rows; what is
/// neither is left.
pub proof fn law_buffers_are_taken_as_described(d: SpaData, f: NegotiatedFormat)
    ensures
        buffer_plan(None, f) == BufferPlan::Skip,
        d.kind == 3 ==> (buffer_plan(Some(d), f) matches BufferPlan::Import {
            fd,
            stride,
            offset,
            fourcc,
            modifier,
        } && fd == d.fd as i32 && stride == d.stride as u32 && offset == d.offset && fourcc
            == f.fourcc && modifier == f.modifier),
        (d.kind == 1 || d.kind == 2) && d.mapped && d.maxsize > 0 ==> (buffer_plan(Some(d), f)
            matches BufferPlan::Copy { stride, size } && stride == d.stride as u32 && size
            == d.maxsize),
        d.kind != 3 && (!(d.kind == 1 || d.kind == 2) || !d.mapped || d.maxsize == 0)
            ==> buffer_plan(Some(d), f) == BufferPlan::Skip,
{
}

/// A frame of a buffer is new, holds the buffer's bytes and its cursor, and is of the size
/// that it says. Rows that were imported have no gaps, rows that were copied the buffer's.
pub proof fn law_buffers_become_new_frames(
    data: Vec<u8>,
    copied_stride: Option<u32>,
    width: u32,
    height: u32,
    cursor: Option<FrameCursorMeta>,
    timestamp_us: u64,
)
    requires
        copied_stride is None ==> width * 4 <= u32::MAX,
    ensures
        ({
            let f = frame_of_buffer(data, copied_stride, width, height, cursor, timestamp_us);
            &&& f.is_new_frame && f.timestamp_us == timestamp_us && f.cursor == cursor
            &&& f.width == width && f.height == height && f.format == PixelFormat::BGRA
            &&& f.buffer is CpuBuffer && f.buffer->CpuBuffer_data == data
            &&& f.buffer->CpuBuffer_width == width && f.buffer->CpuBuffer_height == height
            &&& f.buffer->CpuBuffer_format == PixelFormat::BGRA
            &&& copied_stride is Some ==> f.buffer->CpuBuffer_stride == copied_stride->0
            &&& copied_stride is None ==> f.buffer->CpuBuffer_stride == 4 * width
        }),
{
}

/// An object whose first property is the format and whose second is the modifier describes
/// both. The first begins 16 bytes in, the second 32 bytes on; each has its key in front,
/// and its value 24 bytes behind that.
pub proof fn law_objects_describe_format_and_modifier(b: Seq<u8>)
    requires
        b.len() >= 80,
        u32_at(b, 4) == 15,
        u32_at(b, 0) == 72,
        u32_at(b, 16) == 2,
        u32_at(b, 32) == 4,
        u32_at(b, 36) == 3,
        u32_at(b, 48) == 3,
        u32_at(b, 64) == 8,
        u32_at(b, 68) == 5,
    ensures
        ({
            let f = described_format(b);
            &&& f.format_ready
            &&& f.fourcc == drm_code(u32_at(b, 40))
            &&& f.modifier == u64_at(b, 72)
        }),
{
    reveal_with_fuel(after_props, 3);
}

/// Bytes that describe no object leave the format at its default, though it is ready.
pub proof fn law_other_values_describe_no_format(b: Seq<u8>)
    requires
        b.len() < 8 || u32_at(b, 4) != 15,
    ensures
        described_format(b).fourcc == drm_code(12),
        described_format(b).modifier == 0,
        described_format(b).format_ready,
{
}

/// The token is kept below the user's configuration, and where that is not set, below the
/// directory `.config` at home; home does not matter where it is set.
pub proof fn law_where_the_token_is_kept(c: Seq<char>, h: Seq<char>, home: Option<Seq<char>>)
    ensures
        token_path(Some(c), home) == c + "/lunaris/screencast-token"@,
        token_path(None, Some(h)) == token_path(Some(h + "/.config"@), home),
        token_path(None, None) == token_path(None, Some(Seq::empty())),
        c.is_prefix_of(token_path(Some(c), home)),
        h.is_prefix_of(token_path(None, Some(h))),
{
    reveal_strlit("");
    assert(""@ + "/.config"@ =~= Seq::<char>::empty() + "/.config"@);
    assert(token_path(Some(c), home).subrange(0, c.len() as int) =~= c);
    assert(token_path(None, Some(h)).subrange(0, h.len() as int) =~= h);
}

} // verus!
