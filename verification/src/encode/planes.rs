//! Copying picture planes between buffers with different row lengths.

use crate::error::{around_number, with_number, ErrorView, MediaError};
use crate::text::{dec, signed_dec};
use crate::types::PixelFormat;
use vstd::arithmetic::div_mod::lemma_fundamental_div_mod_converse;
use vstd::prelude::*;

verus! {

/// Where the row `r` of a plane begins.
pub open spec fn row_start(start: int, stride: int, r: int) -> int {
    start + r * stride
}

/// `dst` after the first `len` bytes of each of `rows` rows were copied into
/// it. Rows begin every `ss` bytes in `src`, from `start` on, and every `ds`
/// bytes in `dst`; a row that `src` does not hold whole is not copied.
pub open spec fn rows_copied(
    src: Seq<u8>,
    start: int,
    ss: int,
    dst: Seq<u8>,
    ds: int,
    len: int,
    rows: int,
) -> Seq<u8> {
    Seq::new(
        dst.len(),
        |k: int|
            {
                let r = k / ds;
                let c = k % ds;
                if r < rows && c < len && row_start(start, ss, r) + len <= src.len() {
                    src[row_start(start, ss, r) + c]
                } else {
                    dst[k]
                }
            },
    )
}

proof fn lemma_place(k: int, ds: int, r: int)
    requires
        ds > 0,
        r * ds <= k < (r + 1) * ds,
    ensures
        k / ds == r,
        k % ds == k - r * ds,
{
    assert((r + 1) * ds == r * ds + ds) by (nonlinear_arith);
    lemma_fundamental_div_mod_converse(k, ds, r, k - r * ds);
}

proof fn lemma_behind(k: int, ds: int, rows: int)
    requires
        ds > 0,
        k >= rows * ds,
    ensures
        k / ds >= rows,
{
    assert(k / ds >= rows) by (nonlinear_arith)
        requires
            ds > 0,
            k >= rows * ds,
    ;
}

proof fn lemma_before(k: int, ds: int, r: int)
    requires
        ds > 0,
        0 <= k < r * ds,
    ensures
        k / ds < r,
        0 <= k / ds,
        0 <= k % ds < ds,
{
    assert(k / ds < r && 0 <= k / ds && 0 <= k % ds < ds) by (nonlinear_arith)
        requires
            ds > 0,
            0 <= k < r * ds,
    ;
}

/// Copies the first `len` bytes of each of `rows` rows; a row that `src` does
/// not hold whole is left out.
pub fn copy_rows(
    src: &[u8],
    start: usize,
    ss: usize,
    dst: &mut [u8],
    ds: usize,
    len: usize,
    rows: usize,
)
    requires
        0 < ds,
        len <= ds,
        rows == 0 || (rows - 1) * ds + len <= old(dst)@.len(),
        start + rows * ss + len <= usize::MAX,
    ensures
        final(dst)@ == rows_copied(
            src@,
            start as int,
            ss as int,
            old(dst)@,
            ds as int,
            len as int,
            rows as int,
        ),
{
    let ghost d0 = dst@;
    let ghost goal = rows_copied(
        src@,
        start as int,
        ss as int,
        d0,
        ds as int,
        len as int,
        rows as int,
    );
    let n: usize = src.len();
    let room: usize = dst.len();
    let mut r: usize = 0;
    let mut from: usize = start;
    let mut to: usize = 0;
    while r < rows
        invariant
            0 < ds,
            len <= ds,
            rows == 0 || (rows - 1) * ds + len <= d0.len(),
            d0.len() == room,
            dst@.len() == room,
            start + rows * ss + len <= usize::MAX,
            n == src@.len(),
            r <= rows,
            from == start + r * ss,
            r < rows ==> to == r * ds,
            goal == rows_copied(
                src@,
                start as int,
                ss as int,
                d0,
                ds as int,
                len as int,
                rows as int,
            ),
            forall|k: int| 0 <= k < dst@.len() && k < r * ds ==> #[trigger] dst@[k] == goal[k],
            forall|k: int| r * ds <= k < dst@.len() ==> #[trigger] dst@[k] == d0[k],
        decreases rows - r,
    {
        assert(r * ss + ss <= rows * ss) by (nonlinear_arith)
            requires
                r + 1 <= rows,
        ;
        assert(r * ds <= (rows - 1) * ds) by (nonlinear_arith)
            requires
                r + 1 <= rows,
        ;
        assert((r + 1) * ss == r * ss + ss) by (nonlinear_arith);
        assert((r + 1) * ds == r * ds + ds) by (nonlinear_arith);
        let ghost before = dst@;
        if from + len <= n {
            let mut c: usize = 0;
            while c < len
                invariant
                    c <= len,
                    len <= ds,
                    from + len <= n,
                    n == src@.len(),
                    to == r * ds,
                    to + len <= dst@.len(),
                    dst@.len() == before.len(),
                    dst@.len() == room,
                    forall|k: int|
                        0 <= k < dst@.len() ==> #[trigger] dst@[k] == (if to <= k < to + c {
                            src@[from + (k - to)]
                        } else {
                            before[k]
                        }),
                decreases len - c,
            {
                dst[to + c] = src[from + c];
                c = c + 1;
            }
        }
        proof {
            assert forall|k: int| 0 <= k < dst@.len() && k < (r + 1) * ds implies #[trigger] dst@[k]
                == goal[k] by {
                if k >= r * ds {
                    lemma_place(k, ds as int, r as int);
                    assert(row_start(start as int, ss as int, r as int) == from);
                    assert(before[k] == d0[k]);
                } else {
                    assert(before[k] == goal[k]);
                }
            }
            assert forall|k: int| (r + 1) * ds <= k < dst@.len() implies #[trigger] dst@[k]
                == d0[k] by {
                assert(before[k] == d0[k]);
            }
        }
        r = r + 1;
        if r < rows {
            assert(r * ds <= (rows - 1) * ds) by (nonlinear_arith)
                requires
                    r + 1 <= rows,
            ;
            to = to + ds;
            from = from + ss;
        } else {
            from = from + ss;
        }
    }
    proof {
        assert forall|k: int| 0 <= k < dst@.len() implies dst@[k] == goal[k] by {
            if k >= rows * ds {
                lemma_behind(k, ds as int, rows as int);
            }
        }
        assert(dst@ =~= goal);
    }
}

/// `dst` after the luma of a picture in NV12 was copied into it.
pub open spec fn luma_copied(
    src: Seq<u8>,
    ss: int,
    dst: Seq<u8>,
    ds: int,
    width: int,
    height: int,
) -> Seq<u8> {
    rows_copied(src, 0, ss, dst, ds, width, height)
}

/// `dst` after the chroma of a picture in NV12 was copied into it.
pub open spec fn chroma_copied(
    src: Seq<u8>,
    ss: int,
    dst: Seq<u8>,
    ds: int,
    width: int,
    height: int,
) -> Seq<u8> {
    rows_copied(src, height * ss, ss, dst, ds, width, height / 2)
}

/// Copies a picture in NV12: `height` rows of luma, then half as many of
/// chroma, which follow the luma rows in `data`.
pub fn copy_nv12(
    data: &[u8],
    stride: usize,
    width: usize,
    height: usize,
    y: &mut [u8],
    y_stride: usize,
    uv: &mut [u8],
    uv_stride: usize,
)
    requires
        0 < y_stride,
        0 < uv_stride,
        width <= y_stride,
        width <= uv_stride,
        height == 0 || (height - 1) * y_stride + width <= old(y)@.len(),
        height / 2 == 0 || (height / 2 - 1) * uv_stride + width <= old(uv)@.len(),
        height * stride + (height / 2) * stride + width <= usize::MAX,
    ensures
        final(y)@ == luma_copied(
            data@,
            stride as int,
            old(y)@,
            y_stride as int,
            width as int,
            height as int,
        ),
        final(uv)@ == chroma_copied(
            data@,
            stride as int,
            old(uv)@,
            uv_stride as int,
            width as int,
            height as int,
        ),
{
    assert(0 <= height * stride && 0 <= (height / 2) * stride) by (nonlinear_arith);
    copy_rows(data, 0, stride, y, y_stride, width, height);
    let chroma: usize = height * stride;
    copy_rows(data, chroma, stride, uv, uv_stride, width, height / 2);
}

/// `dst` after a picture in BGRA was copied into it: where both have the same
/// row length, all rows with their padding, else the pixels of each row.
pub open spec fn bgra_copied(
    src: Seq<u8>,
    ss: int,
    dst: Seq<u8>,
    ds: int,
    width: int,
    height: int,
) -> Seq<u8> {
    if ss == ds {
        rows_copied(src, 0, ss, dst, ds, ds, height)
    } else {
        rows_copied(src, 0, ss, dst, ds, width * 4, height)
    }
}

/// Copies a picture in BGRA.
pub fn copy_bgra(
    data: &[u8],
    stride: usize,
    width: usize,
    height: usize,
    dst: &mut [u8],
    dst_stride: usize,
)
    requires
        0 < dst_stride,
        width * 4 <= dst_stride,
        height > 0 ==> if stride == dst_stride {
            height * stride <= data@.len() && height * dst_stride <= old(dst)@.len()
        } else {
            (height - 1) * stride + width * 4 <= data@.len() && (height - 1) * dst_stride + width
                * 4 <= old(dst)@.len()
        },
        height * stride + dst_stride <= usize::MAX,
    ensures
        final(dst)@ == bgra_copied(
            data@,
            stride as int,
            old(dst)@,
            dst_stride as int,
            width as int,
            height as int,
        ),
{
    assert(height > 0 ==> (height - 1) * dst_stride + dst_stride == height * dst_stride)
        by (nonlinear_arith);
    if stride == dst_stride {
        copy_rows(data, 0, stride, dst, dst_stride, dst_stride, height);
    } else {
        copy_rows(data, 0, stride, dst, dst_stride, width * 4, height);
    }
}

// ---- Copies on a device ----

/// Which part of a picture a device copy moves.
#[derive(Debug, Clone, Copy, PartialEq, Eq, Structural)]
pub enum CopyPart {
    BgraPlane,
    BgraRow(u32),
    YPlane,
    YRow(u32),
    UvPlane,
    UvRow(u32),
}

/// A copy between two addresses of a device.
#[derive(Debug, Clone, Copy, PartialEq, Eq, Structural)]
pub struct DeviceCopy {
    pub part: CopyPart,
    pub dst: u64,
    pub src: u64,
    pub len: u64,
}

/// One plane: its address and the distance between its rows.
#[derive(Debug, Clone, Copy, PartialEq, Eq, Structural)]
pub struct Plane {
    pub address: u64,
    pub stride: u32,
}

/// Which plane a row belongs to.
#[derive(Debug, Clone, Copy, PartialEq, Eq, Structural)]
pub enum PlaneKind {
    Bgra,
    Y,
    Uv,
}

pub open spec fn row_part(kind: PlaneKind, r: u32) -> CopyPart {
    match kind {
        PlaneKind::Bgra => CopyPart::BgraRow(r),
        PlaneKind::Y => CopyPart::YRow(r),
        PlaneKind::Uv => CopyPart::UvRow(r),
    }
}

/// One copy of `len` bytes for each of `rows` rows.
pub open spec fn row_copies(kind: PlaneKind, dst: Plane, src: Plane, len: int, rows: nat) -> Seq<
    DeviceCopy,
> {
    Seq::new(
        rows,
        |r: int|
            DeviceCopy {
                part: row_part(kind, r as u32),
                dst: (dst.address + r * dst.stride) as u64,
                src: (src.address + r * src.stride) as u64,
                len: len as u64,
            },
    )
}

/// The chroma plane of a picture in NV12 that begins at `src`.
pub open spec fn chroma_of(src: Plane, height: u32) -> Plane {
    Plane { address: (src.address + src.stride * height) as u64, stride: src.stride }
}

/// The copies that bring a picture from `src` into the planes `y` and `uv`:
/// whole planes where the rows have the same distance, else row by row.
pub open spec fn device_copies(
    format: PixelFormat,
    src: Plane,
    width: u32,
    height: u32,
    y: Plane,
    uv: Plane,
) -> Seq<DeviceCopy> {
    let all = src.stride * height;
    if format == PixelFormat::BGRA {
        if src.stride == y.stride {
            seq![
                DeviceCopy {
                    part: CopyPart::BgraPlane,
                    dst: y.address,
                    src: src.address,
                    len: all as u64,
                },
            ]
        } else {
            row_copies(PlaneKind::Bgra, y, src, width * 4, height as nat)
        }
    } else {
        let chroma = chroma_of(src, height);
        if src.stride == y.stride && src.stride == uv.stride {
            seq![
                DeviceCopy {
                    part: CopyPart::YPlane,
                    dst: y.address,
                    src: src.address,
                    len: all as u64,
                },
                DeviceCopy {
                    part: CopyPart::UvPlane,
                    dst: uv.address,
                    src: chroma.address,
                    len: (src.stride * (height / 2)) as u64,
                },
            ]
        } else {
            row_copies(PlaneKind::Y, y, src, width as int, height as nat) + row_copies(
                PlaneKind::Uv,
                uv,
                chroma,
                width as int,
                (height / 2) as nat,
            )
        }
    }
}

fn append_row_copies(
    out: &mut Vec<DeviceCopy>,
    kind: PlaneKind,
    dst: Plane,
    src: Plane,
    len: u64,
    rows: u32,
)
    requires
        dst.address + rows * dst.stride <= u64::MAX,
        src.address + rows * src.stride <= u64::MAX,
    ensures
        final(out)@ == old(out)@ + row_copies(kind, dst, src, len as int, rows as nat),
{
    let ghost o = out@;
    assert(o + row_copies(kind, dst, src, len as int, 0) =~= o);
    for r in 0..rows
        invariant
            dst.address + rows * dst.stride <= u64::MAX,
            src.address + rows * src.stride <= u64::MAX,
            out@ == o + row_copies(kind, dst, src, len as int, r as nat),
    {
        assert(r * dst.stride <= rows * dst.stride && r * src.stride <= rows * src.stride)
            by (nonlinear_arith)
            requires
                r <= rows,
        ;
        assert(0 <= r * dst.stride <= 0xffff_ffff * 0xffff_ffff && 0 <= r * src.stride
            <= 0xffff_ffff * 0xffff_ffff) by (nonlinear_arith)
            requires
                0 <= r <= 0xffff_ffff,
                0 <= dst.stride <= 0xffff_ffff,
                0 <= src.stride <= 0xffff_ffff,
        ;
        let part: CopyPart = match kind {
            PlaneKind::Bgra => CopyPart::BgraRow(r),
            PlaneKind::Y => CopyPart::YRow(r),
            PlaneKind::Uv => CopyPart::UvRow(r),
        };
        out.push(
            DeviceCopy {
                part,
                dst: dst.address + r as u64 * dst.stride as u64,
                src: src.address + r as u64 * src.stride as u64,
                len,
            },
        );
        assert(out@ =~= o + row_copies(kind, dst, src, len as int, (r + 1) as nat));
    }
}

/// The copies that bring a picture on a device into an encoder's planes.
pub fn plan_device_copies(
    format: PixelFormat,
    src: Plane,
    width: u32,
    height: u32,
    y: Plane,
    uv: Plane,
) -> (r: Vec<DeviceCopy>)
    requires
        src.address + src.stride * height + src.stride * (height / 2) <= u64::MAX,
        y.address + height * y.stride <= u64::MAX,
        format != PixelFormat::BGRA ==> uv.address + (height / 2) * uv.stride <= u64::MAX,
    ensures
        r@ == device_copies(format, src, width, height, y, uv),
{
    let ghost goal = device_copies(format, src, width, height, y, uv);
    let mut out: Vec<DeviceCopy> = Vec::new();
    assert(0 <= src.stride * height <= 0xffff_ffff * 0xffff_ffff && 0 <= src.stride * (height / 2)
        <= 0xffff_ffff * 0xffff_ffff && src.stride * height == height * src.stride && src.stride * (
    height / 2) == (height / 2) * src.stride) by (nonlinear_arith)
        requires
            0 <= src.stride <= 0xffff_ffff,
            0 <= height <= 0xffff_ffff,
            0 <= height / 2 <= 0xffff_ffff,
    ;
    let all: u64 = src.stride as u64 * height as u64;
    if format == PixelFormat::BGRA {
        if src.stride == y.stride {
            out.push(
                DeviceCopy {
                    part: CopyPart::BgraPlane,
                    dst: y.address,
                    src: src.address,
                    len: all,
                },
            );
        } else {
            append_row_copies(&mut out, PlaneKind::Bgra, y, src, width as u64 * 4, height);
        }
    } else {
        let chroma = Plane { address: src.address + all, stride: src.stride };
        if src.stride == y.stride && src.stride == uv.stride {
            out.push(
                DeviceCopy { part: CopyPart::YPlane, dst: y.address, src: src.address, len: all },
            );
            out.push(
                DeviceCopy {
                    part: CopyPart::UvPlane,
                    dst: uv.address,
                    src: chroma.address,
                    len: src.stride as u64 * (height / 2) as u64,
                },
            );
        } else {
            append_row_copies(&mut out, PlaneKind::Y, y, src, width as u64, height);
            append_row_copies(&mut out, PlaneKind::Uv, uv, chroma, width as u64, height / 2);
        }
    }
    assert(out@ =~= goal);
    out
}

/// What a failed device copy is called.
pub open spec fn part_text(part: CopyPart) -> Seq<char> {
    match part {
        CopyPart::BgraPlane => "cuMemcpyDtoD BGRA plane failed: "@,
        CopyPart::BgraRow(r) => "cuMemcpyDtoD BGRA row "@ + dec(r as nat) + " failed: "@,
        CopyPart::YPlane => "cuMemcpyDtoD Y plane failed: "@,
        CopyPart::YRow(r) => "cuMemcpyDtoD Y row "@ + dec(r as nat) + " failed: "@,
        CopyPart::UvPlane => "cuMemcpyDtoD UV plane failed: "@,
        CopyPart::UvRow(r) => "cuMemcpyDtoD UV row "@ + dec(r as nat) + " failed: "@,
    }
}

/// The error of a device copy that returned `status`, none where it succeeded.
pub fn device_copy_result(part: CopyPart, status: i32) -> (r: Result<(), MediaError>)
    ensures
        match r {
            Ok(_) => status == 0,
            Err(e) => status != 0 && e@ == ErrorView::EncodeError(
                part_text(part) + signed_dec(status as int),
            ),
        },
{
    if status == 0 {
        return Ok(());
    }
    let front: String = match part {
        CopyPart::BgraPlane => "cuMemcpyDtoD BGRA plane failed: ".to_owned(),
        CopyPart::BgraRow(r) => around_number("cuMemcpyDtoD BGRA row ", r as u64, " failed: "),
        CopyPart::YPlane => "cuMemcpyDtoD Y plane failed: ".to_owned(),
        CopyPart::YRow(r) => around_number("cuMemcpyDtoD Y row ", r as u64, " failed: "),
        CopyPart::UvPlane => "cuMemcpyDtoD UV plane failed: ".to_owned(),
        CopyPart::UvRow(r) => around_number("cuMemcpyDtoD UV row ", r as u64, " failed: "),
    };
    Err(MediaError::EncodeError(with_number(front.as_str(), status as i64)))
}

// ---- Laws ----

/// Copying rows with the same distance on both sides and nothing cut off moves
/// every row as it is: the destination begins with the source's rows.
pub proof fn law_equal_strides_copy_whole(src: Seq<u8>, dst: Seq<u8>, stride: int, rows: int)
    requires
        stride > 0,
        rows >= 0,
        rows * stride <= src.len(),
        rows * stride <= dst.len(),
    ensures
        rows_copied(src, 0, stride, dst, stride, stride, rows) == src.take(rows * stride)
            + dst.skip(rows * stride),
{
    let out = rows_copied(src, 0, stride, dst, stride, stride, rows);
    let goal = src.take(rows * stride) + dst.skip(rows * stride);
    assert(0 <= rows * stride) by (nonlinear_arith)
        requires
            rows >= 0,
            stride > 0,
    ;
    assert forall|k: int| 0 <= k < dst.len() implies out[k] == goal[k] by {
        if k < rows * stride {
            let r = k / stride;
            lemma_before(k, stride, rows);
            assert(k == r * stride + k % stride) by (nonlinear_arith)
                requires
                    stride > 0,
                    r == k / stride,
            ;
            assert(r * stride + stride <= rows * stride) by (nonlinear_arith)
                requires
                    r < rows,
                    stride > 0,
            ;
        } else {
            lemma_behind(k, stride, rows);
        }
    }
    assert(out =~= goal);
}

/// A byte of a row keeps its place in the row.
proof fn lemma_row_byte(
    src: Seq<u8>,
    start: int,
    ss: int,
    dst: Seq<u8>,
    ds: int,
    len: int,
    rows: int,
    r: int,
    j: int,
)
    requires
        0 < ds,
        0 <= j < len <= ds,
        0 <= r < rows,
        start + r * ss + len <= src.len(),
        r * ds + j < dst.len(),
    ensures
        rows_copied(src, start, ss, dst, ds, len, rows)[r * ds + j] == src[start + r * ss + j],
        0 <= r * ds,
{
    assert(0 <= r * ds && r * ds + j < (r + 1) * ds) by (nonlinear_arith)
        requires
            0 <= r,
            0 < ds,
            0 <= j < ds,
    ;
    lemma_place(r * ds + j, ds, r);
}

/// A picture in BGRA keeps its pixels: every channel of the pixel in a row and column
/// stands in that row and column of the frame.
pub proof fn law_bgra_pixels_keep_their_places(
    src: Seq<u8>,
    ss: int,
    dst: Seq<u8>,
    ds: int,
    width: int,
    height: int,
    x: int,
    y: int,
    c: int,
)
    requires
        0 <= x < width,
        0 <= y < height,
        0 <= c < 4,
        width * 4 <= ds,
        width * 4 <= ss,
        ss * height <= src.len(),
        ds * height <= dst.len(),
    ensures
        bgra_copied(src, ss, dst, ds, width, height)[y * ds + 4 * x + c] == src[y * ss + 4 * x + c],
        bgra_copied(src, ss, dst, ds, width, height).len() == dst.len(),
{
    let len = if ss == ds {
        ds
    } else {
        width * 4
    };
    assert(y * ss + ss <= ss * height && y * ds + ds <= ds * height) by (nonlinear_arith)
        requires
            0 <= y < height,
            0 <= ss,
            0 <= ds,
    ;
    lemma_row_byte(src, 0, ss, dst, ds, len, height, y, 4 * x + c);
}

/// A picture in NV12 keeps its planes: the brightness of a row and column goes to that row
/// and column of the first plane, and the colours, whose rows follow all of those in the
/// picture, to the second, half as many rows.
pub proof fn law_nv12_planes_keep_their_rows(
    src: Seq<u8>,
    ss: int,
    dst: Seq<u8>,
    ds: int,
    width: int,
    height: int,
    x: int,
    y: int,
)
    requires
        0 <= x < width,
        0 <= y < height,
        width <= ds,
        width <= ss,
        ss * height + ss * (height / 2) <= src.len(),
        ds * height <= dst.len(),
    ensures
        luma_copied(src, ss, dst, ds, width, height)[y * ds + x] == src[y * ss + x],
        y < height / 2 ==> chroma_copied(src, ss, dst, ds, width, height)[y * ds + x] == src[ss
            * height + y * ss + x],
{
    assert(y * ss + ss <= ss * height && y * ds + ds <= ds * height && height * ss == ss * height)
        by (nonlinear_arith)
        requires
            0 <= y < height,
            0 <= ss,
            0 <= ds,
    ;
    assert(0 <= ss * (height / 2)) by (nonlinear_arith)
        requires
            0 <= ss,
            0 <= height,
    ;
    lemma_row_byte(src, 0, ss, dst, ds, width, height, y, x);
    if y < height / 2 {
        assert(y * ss + ss <= ss * (height / 2)) by (nonlinear_arith)
            requires
                y < height / 2,
                0 <= ss,
        ;
        lemma_row_byte(src, height * ss, ss, dst, ds, width, height / 2, y, x);
    }
}

/// What lies between the rows of a frame with rows of another length is left alone.
pub proof fn law_padding_is_left_alone(
    src: Seq<u8>,
    ss: int,
    dst: Seq<u8>,
    ds: int,
    width: int,
    height: int,
    k: int,
)
    requires
        0 < ds,
        ss != ds,
        0 <= k < dst.len(),
    ensures
        k % ds >= width * 4 ==> bgra_copied(src, ss, dst, ds, width, height)[k] == dst[k],
        k / ds >= height ==> bgra_copied(src, ss, dst, ds, width, height)[k] == dst[k],
        k % ds >= width ==> luma_copied(src, ss, dst, ds, width, height)[k] == dst[k],
        k / ds >= height ==> luma_copied(src, ss, dst, ds, width, height)[k] == dst[k],
{
}

/// Whether a copy brings the byte at one address of a device to another.
pub open spec fn brings(c: DeviceCopy, from: int, to: int) -> bool {
    c.src <= from < c.src + c.len && to - c.dst == from - c.src
}

proof fn lemma_row_copy(
    kind: PlaneKind,
    dst: Plane,
    src: Plane,
    len: int,
    rows: nat,
    r: int,
    j: int,
)
    requires
        0 <= r < rows <= u32::MAX,
        0 <= j < len <= u64::MAX,
        dst.address + rows * dst.stride <= u64::MAX,
        src.address + rows * src.stride <= u64::MAX,
    ensures
        brings(
            row_copies(kind, dst, src, len, rows)[r],
            src.address + r * src.stride + j,
            dst.address + r * dst.stride + j,
        ),
{
    assert(0 <= r * dst.stride <= rows * dst.stride && 0 <= r * src.stride <= rows * src.stride)
        by (nonlinear_arith)
        requires
            0 <= r <= rows,
            0 <= dst.stride,
            0 <= src.stride,
    ;
}

/// On a device, too, every byte of a picture is brought to its row and column: of a picture
/// in BGRA to the first plane, of one in NV12 the brightness to the first plane and the
/// colours, which follow it, to the second.
pub proof fn law_device_copies_bring_every_byte(
    format: PixelFormat,
    src: Plane,
    width: u32,
    height: u32,
    y: Plane,
    uv: Plane,
    r: int,
    j: int,
)
    requires
        src.address + src.stride * height + src.stride * (height / 2) <= u64::MAX,
        y.address + height * y.stride <= u64::MAX,
        format != PixelFormat::BGRA ==> uv.address + (height / 2) * uv.stride <= u64::MAX,
        width * 4 <= src.stride,
        0 <= r < height,
        0 <= j < (if format == PixelFormat::BGRA {
            width * 4
        } else {
            width as int
        }),
    ensures
        exists|i: int|
            0 <= i < device_copies(format, src, width, height, y, uv).len() && brings(
                #[trigger] device_copies(format, src, width, height, y, uv)[i],
                src.address + r * src.stride + j,
                y.address + r * y.stride + j,
            ),
        format != PixelFormat::BGRA && r < height / 2 ==> exists|i: int|
            0 <= i < device_copies(format, src, width, height, y, uv).len() && brings(
                #[trigger] device_copies(format, src, width, height, y, uv)[i],
                src.address + (height + r) * src.stride + j,
                uv.address + r * uv.stride + j,
            ),
{
    let copies = device_copies(format, src, width, height, y, uv);
    let ss = src.stride as int;
    let h = height as int;
    assert(ss * h == h * ss && ss * (h / 2) == (h / 2) * ss && 0 <= ss * h && 0 <= ss * (h / 2)
        && 0 <= r * ss && r * ss + ss <= ss * h && (h + r) * ss == h * ss + r * ss)
        by (nonlinear_arith)
        requires
            0 <= ss,
            0 <= r < h,
    ;
    assert(r < h / 2 ==> r * ss + ss <= ss * (h / 2)) by (nonlinear_arith)
        requires
            0 <= ss,
            0 <= r,
    ;
    let from = src.address + r * src.stride + j;
    let to = y.address + r * y.stride + j;
    let late = src.address + (height + r) * src.stride + j;
    let late_to = uv.address + r * uv.stride + j;
    if format == PixelFormat::BGRA {
        if src.stride == y.stride {
            assert(brings(copies[0], from, to));
        } else {
            lemma_row_copy(PlaneKind::Bgra, y, src, width * 4, height as nat, r, j);
            assert(brings(copies[r], from, to));
        }
    } else {
        let chroma = chroma_of(src, height);
        if src.stride == y.stride && src.stride == uv.stride {
            assert(brings(copies[0], from, to));
            if r < height / 2 {
                assert(brings(copies[1], late, late_to));
            }
        } else {
            lemma_row_copy(PlaneKind::Y, y, src, width as int, height as nat, r, j);
            assert(brings(copies[r], from, to));
            if r < height / 2 {
                let half = (height / 2) as nat;
                lemma_row_copy(PlaneKind::Uv, uv, chroma, width as int, half, r, j);
                assert(copies[h + r] == row_copies(
                    PlaneKind::Uv,
                    uv,
                    chroma,
                    width as int,
                    half,
                )[r]);
                assert(brings(copies[h + r], late, late_to));
            }
        }
    }
}

/// Device copies read nothing behind the picture and write nothing behind the planes: the
/// brightness of a picture in NV12 takes `height` rows and its colours half as many.
pub proof fn law_device_copies_stay_inside(
    format: PixelFormat,
    src: Plane,
    width: u32,
    height: u32,
    y: Plane,
    uv: Plane,
    i: int,
)
    requires
        src.address + src.stride * height + src.stride * (height / 2) <= u64::MAX,
        y.address + height * y.stride <= u64::MAX,
        format != PixelFormat::BGRA ==> uv.address + (height / 2) * uv.stride <= u64::MAX,
        width * 4 <= src.stride,
        width * 4 <= y.stride,
        width <= uv.stride,
        0 <= i < device_copies(format, src, width, height, y, uv).len(),
    ensures
        ({
            let c = device_copies(format, src, width, height, y, uv)[i];
            let rows: int = if format == PixelFormat::BGRA {
                height as int
            } else {
                height + height / 2
            };
            &&& src.address <= c.src && c.src + c.len <= src.address + src.stride * rows
            &&& (y.address <= c.dst && c.dst + c.len <= y.address + height * y.stride) || (format
                != PixelFormat::BGRA && uv.address <= c.dst && c.dst + c.len <= uv.address + (height
                / 2) * uv.stride)
        }),
{
    let h = height as int;
    let ss = src.stride as int;
    let chroma = chroma_of(src, height);
    assert(ss * (h + h / 2) == ss * h + ss * (h / 2) && 0 <= ss * h && 0 <= ss * (h / 2) && ss * h
        == h * ss && ss * (h / 2) == (h / 2) * ss) by (nonlinear_arith)
        requires
            0 <= ss,
            0 <= h,
    ;
    if format == PixelFormat::BGRA {
        if src.stride != y.stride {
            lemma_row_inside(PlaneKind::Bgra, y, src, width * 4, height as nat, i);
        }
    } else if !(src.stride == y.stride && src.stride == uv.stride) {
        if i < h {
            lemma_row_inside(PlaneKind::Y, y, src, width as int, height as nat, i);
            assert(device_copies(format, src, width, height, y, uv)[i] == row_copies(
                PlaneKind::Y,
                y,
                src,
                width as int,
                height as nat,
            )[i]);
        } else {
            lemma_row_inside(
                PlaneKind::Uv,
                uv,
                chroma,
                width as int,
                (height / 2) as nat,
                i - h,
            );
            assert(device_copies(format, src, width, height, y, uv)[i] == row_copies(
                PlaneKind::Uv,
                uv,
                chroma,
                width as int,
                (height / 2) as nat,
            )[i - h]);
        }
    }
}

proof fn lemma_row_inside(kind: PlaneKind, dst: Plane, src: Plane, len: int, rows: nat, r: int)
    requires
        0 <= r < rows <= u32::MAX,
        0 <= len <= src.stride,
        len <= dst.stride,
        dst.address + rows * dst.stride <= u64::MAX,
        src.address + rows * src.stride <= u64::MAX,
    ensures
        ({
            let c = row_copies(kind, dst, src, len, rows)[r];
            &&& src.address <= c.src && c.src + c.len <= src.address + rows * src.stride
            &&& dst.address <= c.dst && c.dst + c.len <= dst.address + rows * dst.stride
        }),
{
    let ss = src.stride as int;
    let ds = dst.stride as int;
    let n = rows as int;
    assert(0 <= r * ss && r * ss + ss <= n * ss && 0 <= r * ds && r * ds + ds <= n * ds)
        by (nonlinear_arith)
        requires
            0 <= ss,
            0 <= ds,
            0 <= r < n,
    ;
}

} // verus!
