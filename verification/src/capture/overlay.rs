//! Drawing a cursor into a frame.

use vstd::arithmetic::div_mod::lemma_fundamental_div_mod_converse;
use vstd::prelude::*;

verus! {

/// A frame in BGRA: its size in pixels and the distance of its rows in bytes.
#[derive(Debug, Clone, Copy, PartialEq, Eq, Structural)]
pub struct FrameLayout {
    pub width: u32,
    pub height: u32,
    pub stride: u32,
}

/// A cursor picture's size and the place of its corner in the frame.
#[derive(Debug, Clone, Copy, PartialEq, Eq, Structural)]
pub struct CursorPlace {
    pub x: i64,
    pub y: i64,
    pub width: u32,
    pub height: u32,
}

/// A colour `s` with the opacity `a` over the colour `d`.
pub open spec fn mix(s: u8, a: u8, d: u8) -> u8 {
    ((s * a + d * (255 - a)) / 255) as u8
}

/// The cursor's byte for channel `c` of its pixel at `cx`, `cy`.
pub open spec fn cursor_byte(cursor: Seq<u8>, p: CursorPlace, cx: int, cy: int, c: int) -> u8 {
    cursor[(cy * p.width + cx) * 4 + c]
}

/// The byte `k` of a frame after a cursor was drawn over it: mixed where the
/// cursor has a pixel that is not clear, else as it was. The alpha channel
/// stays, and a pixel that the frame does not hold whole is left out.
pub open spec fn drawn_byte(
    frame: Seq<u8>,
    f: FrameLayout,
    cursor: Seq<u8>,
    p: CursorPlace,
    k: int,
) -> u8 {
    let sy = k / (f.stride as int);
    let r = k % (f.stride as int);
    let sx = r / 4;
    let c = r % 4;
    let cx = sx - p.x;
    let cy = sy - p.y;
    if sx < f.width && sy < f.height && 0 <= cx < p.width && 0 <= cy < p.height && c < 3 && sy
        * f.stride + sx * 4 + 3 < frame.len() && cursor_byte(cursor, p, cx, cy, 3) > 0 {
        mix(cursor_byte(cursor, p, cx, cy, c), cursor_byte(cursor, p, cx, cy, 3), frame[k])
    } else {
        frame[k]
    }
}

/// A frame after a cursor was drawn over it. One whose rows have no bytes has no
/// place for it.
pub open spec fn drawn(frame: Seq<u8>, f: FrameLayout, cursor: Seq<u8>, p: CursorPlace) -> Seq<u8> {
    if f.stride == 0 {
        frame
    } else {
        Seq::new(frame.len(), |k: int| drawn_byte(frame, f, cursor, p, k))
    }
}

/// Whether the frame's byte `k` lies at a cursor pixel before `cx`, `cy` in
/// reading order.
spec fn passed(f: FrameLayout, p: CursorPlace, k: int, cx: int, cy: int) -> bool {
    let y = k / (f.stride as int) - p.y;
    let x = (k % (f.stride as int)) / 4 - p.x;
    y < cy || (y == cy && x < cx)
}

proof fn lemma_pixel(f: FrameLayout, sx: int, sy: int, c: int)
    requires
        0 <= sx < f.width,
        0 <= sy,
        0 <= c < 4,
        f.width * 4 <= f.stride,
    ensures
        (sy * f.stride + sx * 4 + c) / (f.stride as int) == sy,
        (sy * f.stride + sx * 4 + c) % (f.stride as int) == sx * 4 + c,
        (sx * 4 + c) / 4 == sx,
        (sx * 4 + c) % 4 == c,
{
    lemma_fundamental_div_mod_converse(
        sy * f.stride + sx * 4 + c,
        f.stride as int,
        sy,
        sx * 4 + c,
    );
}

proof fn lemma_unpixel(f: FrameLayout, k: int)
    requires
        f.stride > 0,
        0 <= k,
    ensures
        k == (k / (f.stride as int)) * f.stride + ((k % (f.stride as int)) / 4) * 4 + (k % (
        f.stride as int)) % 4,
        0 <= k / (f.stride as int),
        0 <= k % (f.stride as int) < f.stride,
{
    assert(k == (k / (f.stride as int)) * f.stride + k % (f.stride as int) && 0 <= k / (
    f.stride as int) && 0 <= k % (f.stride as int) < f.stride) by (nonlinear_arith)
        requires
            f.stride > 0,
            0 <= k,
    ;
}

fn mixed(s: u8, a: u8, d: u8) -> (r: u8)
    ensures
        r == mix(s, a, d),
{
    assert(0 <= s * a <= 255 * a && 0 <= d * (255 - a) <= 255 * (255 - a)) by (nonlinear_arith)
        requires
            0 <= s <= 255,
            0 <= d <= 255,
            0 <= a <= 255,
    ;
    ((s as u32 * a as u32 + d as u32 * (255 - a as u32)) / 255) as u8
}

proof fn lemma_cursor_index(w: int, h: int, cx: int, cy: int)
    requires
        0 <= cx < w,
        0 <= cy < h,
    ensures
        0 <= cy * w,
        cy * w + cx < w * h,
{
    assert(0 <= cy * w && cy * w + w <= w * h) by (nonlinear_arith)
        requires
            0 <= cy < h,
            0 < w,
    ;
}

/// Draws a cursor in BGRA over a frame in BGRA.
pub fn draw_cursor(frame: &mut [u8], f: FrameLayout, cursor: &[u8], p: CursorPlace)
    requires
        f.width * 4 <= f.stride,
        p.width * p.height * 4 <= cursor@.len(),
        -0x1_0000_0000 <= p.x <= 0x1_0000_0000,
        -0x1_0000_0000 <= p.y <= 0x1_0000_0000,
    ensures
        final(frame)@ == drawn(old(frame)@, f, cursor@, p),
{
    if f.stride == 0 {
        return;
    }
    let ghost f0 = frame@;
    let n: usize = frame.len();
    let m: usize = cursor.len();
    let mut cy: u32 = 0;
    assert forall|k: int| 0 <= k < n implies #[trigger] frame@[k] == (if passed(f, p, k, 0, 0) {
        drawn_byte(f0, f, cursor@, p, k)
    } else {
        f0[k]
    }) by {}
    while cy < p.height
        invariant
            f.stride > 0,
            f.width * 4 <= f.stride,
            p.width * p.height * 4 <= m,
            m == cursor@.len(),
            -0x1_0000_0000 <= p.x <= 0x1_0000_0000,
            -0x1_0000_0000 <= p.y <= 0x1_0000_0000,
            n == frame@.len(),
            n == f0.len(),
            cy <= p.height,
            forall|k: int|
                0 <= k < n ==> #[trigger] frame@[k] == (if passed(f, p, k, 0, cy as int) {
                    drawn_byte(f0, f, cursor@, p, k)
                } else {
                    f0[k]
                }),
        decreases p.height - cy,
    {
        let sy: i64 = p.y + cy as i64;
        if sy >= 0 && sy < f.height as i64 {
            let mut cx: u32 = 0;
            while cx < p.width
                invariant
                    f.stride > 0,
                    f.width * 4 <= f.stride,
                    p.width * p.height * 4 <= m,
                    m == cursor@.len(),
                    -0x1_0000_0000 <= p.x <= 0x1_0000_0000,
                    n == frame@.len(),
                    n == f0.len(),
                    cy < p.height,
                    cx <= p.width,
                    sy == p.y + cy,
                    0 <= sy < f.height,
                    forall|k: int|
                        0 <= k < n ==> #[trigger] frame@[k] == (if passed(
                            f,
                            p,
                            k,
                            cx as int,
                            cy as int,
                        ) {
                            drawn_byte(f0, f, cursor@, p, k)
                        } else {
                            f0[k]
                        }),
                decreases p.width - cx,
            {
                let sx: i64 = p.x + cx as i64;
                let ghost before = frame@;
                let ghost mut wrote = false;
                if sx >= 0 && sx < f.width as i64 {
                    proof {
                        lemma_cursor_index(
                            p.width as int,
                            p.height as int,
                            cx as int,
                            cy as int,
                        );
                        assert(0 <= sy * f.stride <= 0xffff_ffff * 0xffff_ffff)
                            by (nonlinear_arith)
                            requires
                                0 <= sy <= 0xffff_ffff,
                                0 <= f.stride <= 0xffff_ffff,
                        ;
                        assert(sy * f.stride <= 0xffff_fffe * 0xffff_ffff) by (nonlinear_arith)
                            requires
                                0 <= sy <= 0xffff_fffe,
                                0 <= f.stride <= 0xffff_ffff,
                        ;
                        lemma_pixel(f, sx as int, sy as int, 0);
                        lemma_pixel(f, sx as int, sy as int, 1);
                        lemma_pixel(f, sx as int, sy as int, 2);
                    }
                    let at: u64 = sy as u64 * f.stride as u64 + sx as u64 * 4;
                    let c: usize = (cy as usize * p.width as usize + cx as usize) * 4;
                    let alpha: u8 = cursor[c + 3];
                    if alpha > 0 && (n as u64) > 3 && at < n as u64 - 3 {
                        let i: usize = at as usize;
                        let b: u8 = mixed(cursor[c], alpha, frame[i]);
                        let g: u8 = mixed(cursor[c + 1], alpha, frame[i + 1]);
                        let r: u8 = mixed(cursor[c + 2], alpha, frame[i + 2]);
                        frame[i] = b;
                        frame[i + 1] = g;
                        frame[i + 2] = r;
                        proof {
                            wrote = true;
                            assert(before[i as int] == f0[i as int]);
                            assert(before[i + 1] == f0[i + 1]);
                            assert(before[i + 2] == f0[i + 2]);
                        }
                    }
                }
                proof {
                    assert forall|k: int| 0 <= k < n implies #[trigger] frame@[k] == (if passed(
                        f,
                        p,
                        k,
                        cx + 1,
                        cy as int,
                    ) {
                        drawn_byte(f0, f, cursor@, p, k)
                    } else {
                        f0[k]
                    }) by {
                        lemma_unpixel(f, k);
                        let y = k / (f.stride as int);
                        let x = (k % (f.stride as int)) / 4;
                        let ch = (k % (f.stride as int)) % 4;
                        assert(before[k] == (if passed(f, p, k, cx as int, cy as int) {
                            drawn_byte(f0, f, cursor@, p, k)
                        } else {
                            f0[k]
                        }));
                        if y == sy && x == sx {
                            assert(k == sy * f.stride + sx * 4 + ch);
                        } else {
                            assert(frame@[k] == before[k]) by {
                                if wrote && sy * f.stride + sx * 4 <= k <= sy * f.stride + sx * 4
                                    + 2 {
                                    lemma_pixel(
                                        f,
                                        sx as int,
                                        sy as int,
                                        k - (sy * f.stride + sx * 4),
                                    );
                                }
                            }
                        }
                    }
                }
                cx = cx + 1;
            }
        }
        proof {
            assert forall|k: int| 0 <= k < n implies #[trigger] frame@[k] == (if passed(
                f,
                p,
                k,
                0,
                cy + 1,
            ) {
                drawn_byte(f0, f, cursor@, p, k)
            } else {
                f0[k]
            }) by {
                lemma_unpixel(f, k);
            }
        }
        cy = cy + 1;
    }
    proof {
        assert forall|k: int| 0 <= k < n implies frame@[k] == drawn(f0, f, cursor@, p)[k] by {
            lemma_unpixel(f, k);
        }
        assert(frame@ =~= drawn(f0, f, cursor@, p));
    }
}

/// The bytes of a cursor in BGRA from pixels that hold alpha, red, green and
/// blue from the highest byte down.
pub open spec fn argb_bytes(pixels: Seq<u64>) -> Seq<u8> {
    Seq::new(
        pixels.len() * 4,
        |k: int|
            {
                let p = pixels[k / 4] as u32;
                let c = k % 4;
                if c == 0 {
                    (p & 0xff) as u8
                } else if c == 1 {
                    ((p >> 8) & 0xff) as u8
                } else if c == 2 {
                    ((p >> 16) & 0xff) as u8
                } else {
                    ((p >> 24) & 0xff) as u8
                }
            },
    )
}

/// A cursor in BGRA from pixels that hold alpha, red, green and blue.
pub fn cursor_from_argb(pixels: &[u64]) -> (r: Vec<u8>)
    ensures
        r@ == argb_bytes(pixels@),
{
    let mut r: Vec<u8> = Vec::new();
    for i in 0..pixels.len()
        invariant
            r@.len() == 4 * i,
            forall|k: int| 0 <= k < 4 * i ==> #[trigger] r@[k] == argb_bytes(pixels@)[k],
    {
        let p: u32 = pixels[i] as u32;
        r.push((p & 0xff) as u8);
        r.push(((p >> 8) & 0xff) as u8);
        r.push(((p >> 16) & 0xff) as u8);
        r.push(((p >> 24) & 0xff) as u8);
    }
    assert(r@ =~= argb_bytes(pixels@));
    r
}

/// Whether a picture with four bytes a pixel has one that is not clear.
pub open spec fn has_alpha(bytes: Seq<u8>) -> bool {
    exists|i: int| 0 <= i < bytes.len() / 4 && #[trigger] bytes[i * 4 + 3] != 0
}

/// Whether a picture has a pixel that is not clear.
pub fn any_alpha(bytes: &[u8]) -> (b: bool)
    ensures
        b == has_alpha(bytes@),
{
    let size: usize = bytes.len();
    let n: usize = size / 4;
    for i in 0..n
        invariant
            size == bytes@.len(),
            n == size / 4,
            forall|j: int| 0 <= j < i ==> #[trigger] bytes@[j * 4 + 3] == 0,
    {
        if bytes[i * 4 + 3] != 0 {
            assert(bytes@[i as int * 4 + 3] != 0);
            return true;
        }
    }
    false
}

/// A picture whose opacity comes from a mask: solid where the mask is zero,
/// clear elsewhere. The mask decides for the first `pixels` pixels.
pub open spec fn masked(color: Seq<u8>, mask: Seq<u8>, pixels: int) -> Seq<u8> {
    Seq::new(
        color.len(),
        |k: int|
            if k % 4 == 3 && k / 4 < pixels {
                if mask[(k / 4) * 4] == 0 {
                    255u8
                } else {
                    0u8
                }
            } else {
                color[k]
            },
    )
}

/// Takes the opacity of a picture from a mask.
pub fn apply_mask(color: &mut Vec<u8>, mask: &[u8], pixels: usize)
    requires
        pixels * 4 <= old(color)@.len(),
        pixels * 4 <= mask@.len(),
    ensures
        final(color)@ == masked(old(color)@, mask@, pixels as int),
{
    let ghost c0 = color@;
    let n: usize = color.len();
    for i in 0..pixels
        invariant
            n == color@.len(),
            n == c0.len(),
            pixels * 4 <= n,
            pixels * 4 <= mask@.len(),
            forall|k: int|
                0 <= k < n ==> #[trigger] color@[k] == (if k < 4 * i {
                    masked(c0, mask@, pixels as int)[k]
                } else {
                    c0[k]
                }),
    {
        let a: u8 = if mask[i * 4] == 0 {
            255
        } else {
            0
        };
        color.set(i * 4 + 3, a);
    }
    assert(color@ =~= masked(c0, mask@, pixels as int));
}

/// A cursor of two colours in BGRA, from its AND mask and the XOR mask behind
/// it: where the AND mask is zero the XOR mask's grey, solid; elsewhere clear.
pub open spec fn mono_bytes(mask: Seq<u8>, pixels: nat) -> Seq<u8> {
    Seq::new(
        pixels * 4,
        |k: int|
            {
                let i = k / 4;
                if mask[i * 4] != 0 {
                    0u8
                } else if k % 4 == 3 {
                    255u8
                } else {
                    mask[(i + pixels) * 4]
                }
            },
    )
}

/// A cursor of two colours in BGRA from its masks.
pub fn cursor_from_masks(mask: &[u8], pixels: usize) -> (r: Vec<u8>)
    requires
        pixels * 8 <= mask@.len(),
    ensures
        r@ == mono_bytes(mask@, pixels as nat),
{
    let n: usize = mask.len();
    let mut r: Vec<u8> = Vec::new();
    for i in 0..pixels
        invariant
            n == mask@.len(),
            pixels * 8 <= n,
            r@.len() == 4 * i,
            forall|k: int| 0 <= k < 4 * i ==> #[trigger] r@[k] == mono_bytes(mask@, pixels as nat)[k],
    {
        if mask[i * 4] == 0 {
            let x: u8 = mask[(i + pixels) * 4];
            r.push(x);
            r.push(x);
            r.push(x);
            r.push(255);
        } else {
            r.push(0);
            r.push(0);
            r.push(0);
            r.push(0);
        }
    }
    assert(r@ =~= mono_bytes(mask@, pixels as nat));
    r
}

// ---- Laws ----

/// Drawing a cursor changes nothing outside the rectangle that it covers, and
/// nowhere the alpha channel.
pub proof fn law_outside_the_cursor_nothing_changes(
    frame: Seq<u8>,
    f: FrameLayout,
    cursor: Seq<u8>,
    p: CursorPlace,
    sx: int,
    sy: int,
    c: int,
)
    requires
        f.width * 4 <= f.stride,
        0 <= sx < f.width,
        0 <= sy < f.height,
        0 <= c < 4,
        sy * f.stride + sx * 4 + c < frame.len(),
        c == 3 || sx < p.x || sx >= p.x + p.width || sy < p.y || sy >= p.y + p.height,
    ensures
        drawn(frame, f, cursor, p)[sy * f.stride + sx * 4 + c] == frame[sy * f.stride + sx * 4 + c],
{
    lemma_pixel(f, sx, sy, c);
    assert(0 <= sy * f.stride) by (nonlinear_arith)
        requires
            0 <= sy,
            0 <= f.stride,
    ;
}

/// Under a solid cursor pixel the frame takes the cursor's colour, under a
/// clear one it keeps its own.
pub proof fn law_solid_replaces_and_clear_keeps(
    frame: Seq<u8>,
    f: FrameLayout,
    cursor: Seq<u8>,
    p: CursorPlace,
    sx: int,
    sy: int,
    c: int,
)
    requires
        f.width * 4 <= f.stride,
        0 <= sx < f.width,
        0 <= sy < f.height,
        0 <= c < 3,
        sy * f.stride + sx * 4 + 3 < frame.len(),
        p.x <= sx < p.x + p.width,
        p.y <= sy < p.y + p.height,
    ensures
        cursor_byte(cursor, p, sx - p.x, sy - p.y, 3) == 255 ==> drawn(frame, f, cursor, p)[sy
            * f.stride + sx * 4 + c] == cursor_byte(cursor, p, sx - p.x, sy - p.y, c),
        cursor_byte(cursor, p, sx - p.x, sy - p.y, 3) == 0 ==> drawn(frame, f, cursor, p)[sy
            * f.stride + sx * 4 + c] == frame[sy * f.stride + sx * 4 + c],
{
    let k = sy * f.stride + sx * 4 + c;
    let a = cursor_byte(cursor, p, sx - p.x, sy - p.y, 3);
    let b = cursor_byte(cursor, p, sx - p.x, sy - p.y, c);
    let d = frame[k];
    assert(a == 255 ==> b * a + d * (255 - a) == 255 * b) by (nonlinear_arith);
    lemma_pixel(f, sx, sy, c);
    assert(0 <= sy * f.stride) by (nonlinear_arith)
        requires
            0 <= sy,
            0 <= f.stride,
    ;
}

/// Between clear and solid a cursor pixel mixes: the frame's new colour is the mean of the
/// cursor's and its own, weighed by the cursor's opacity out of 255 and rounded down, and so
/// lies between the two.
pub proof fn law_opacity_weighs_the_colours(
    frame: Seq<u8>,
    f: FrameLayout,
    cursor: Seq<u8>,
    p: CursorPlace,
    sx: int,
    sy: int,
    c: int,
)
    requires
        f.width * 4 <= f.stride,
        0 <= sx < f.width,
        0 <= sy < f.height,
        0 <= c < 3,
        sy * f.stride + sx * 4 + 3 < frame.len(),
        p.x <= sx < p.x + p.width,
        p.y <= sy < p.y + p.height,
    ensures
        ({
            let before = frame[sy * f.stride + sx * 4 + c];
            let after = drawn(frame, f, cursor, p)[sy * f.stride + sx * 4 + c];
            let at = ((sy - p.y) * p.width + (sx - p.x)) * 4;
            let weighed = cursor[at + c] * cursor[at + 3] + before * (255 - cursor[at + 3]);
            &&& 255 * after <= weighed < 255 * after + 255
            &&& before <= cursor[at + c] ==> before <= after <= cursor[at + c]
            &&& cursor[at + c] <= before ==> cursor[at + c] <= after <= before
        }),
{
    let k = sy * f.stride + sx * 4 + c;
    let at = ((sy - p.y) * p.width + (sx - p.x)) * 4;
    let a = cursor[at + 3];
    let b = cursor[at + c];
    let d = frame[k];
    lemma_pixel(f, sx, sy, c);
    assert(0 <= sy * f.stride) by (nonlinear_arith)
        requires
            0 <= sy,
            0 <= f.stride,
    ;
    assert(b <= d ==> 255 * b <= b * a + d * (255 - a) <= 255 * d) by (nonlinear_arith)
        requires
            0 <= a <= 255,
            0 <= b <= 255,
            0 <= d <= 255,
    ;
    assert(d <= b ==> 255 * d <= b * a + d * (255 - a) <= 255 * b) by (nonlinear_arith)
        requires
            0 <= a <= 255,
            0 <= b <= 255,
            0 <= d <= 255,
    ;
    assert(a == 0 ==> b * a + d * (255 - a) == 255 * d) by (nonlinear_arith);
}

/// A mask decides on the opacity of the pixel at its own place and touches no colour: where
/// it is zero the pixel is solid, elsewhere clear.
pub proof fn law_a_mask_only_sets_opacity(color: Seq<u8>, mask: Seq<u8>, pixels: int, i: int, c: int)
    requires
        0 <= i < pixels,
        4 * pixels <= color.len(),
        0 <= c < 3,
    ensures
        masked(color, mask, pixels).len() == color.len(),
        masked(color, mask, pixels)[i * 4 + c] == color[i * 4 + c],
        masked(color, mask, pixels)[i * 4 + 3] == (if mask[i * 4] == 0 {
            255u8
        } else {
            0u8
        }),
{
}

/// A cursor of two masks: the AND mask decides which pixels are solid, and the XOR mask
/// that follows it gives all three colours of those.
pub proof fn law_two_masks_make_a_cursor(mask: Seq<u8>, pixels: nat, i: int, c: int)
    requires
        0 <= i < pixels,
        0 <= c < 3,
    ensures
        mono_bytes(mask, pixels).len() == 4 * pixels,
        mask[i * 4] == 0 ==> mono_bytes(mask, pixels)[i * 4 + 3] == 255 && mono_bytes(
            mask,
            pixels,
        )[i * 4 + c] == mask[4 * pixels + i * 4],
        mask[i * 4] != 0 ==> mono_bytes(mask, pixels)[i * 4 + 3] == 0,
{
}

/// A pixel that holds alpha, red, green and blue from its 32 low bits down becomes blue,
/// green, red and alpha: put together again the four bytes give those bits.
pub proof fn law_argb_pixels_keep_their_bits(pixels: Seq<u64>, i: int)
    requires
        0 <= i < pixels.len(),
    ensures
        argb_bytes(pixels).len() == 4 * pixels.len(),
        ({
            let b = argb_bytes(pixels);
            b[4 * i] + 0x100 * b[4 * i + 1] + 0x1_0000 * b[4 * i + 2] + 0x100_0000 * b[4 * i + 3]
                == pixels[i] % 0x1_0000_0000
        }),
{
    let x = pixels[i];
    let p = x as u32;
    assert((p & 0xff) as u8 + 0x100 * (((p >> 8) & 0xff) as u8) + 0x1_0000 * (((p >> 16)
        & 0xff) as u8) + 0x100_0000 * (((p >> 24) & 0xff) as u8) == p) by (bit_vector);
    assert(x as u32 == x % 0x1_0000_0000) by (bit_vector);
    assert((4 * i) / 4 == i && (4 * i + 1) / 4 == i && (4 * i + 2) / 4 == i && (4 * i + 3) / 4
        == i);
}

/// Drawing a cursor leaves the frame's alpha alone, and its size.
pub proof fn law_drawing_leaves_alpha_alone(
    frame: Seq<u8>,
    f: FrameLayout,
    cursor: Seq<u8>,
    p: CursorPlace,
    sx: int,
    sy: int,
)
    requires
        f.width * 4 <= f.stride,
        0 <= sx < f.width,
        0 <= sy,
        sy * f.stride + sx * 4 + 3 < frame.len(),
    ensures
        drawn(frame, f, cursor, p).len() == frame.len(),
        drawn(frame, f, cursor, p)[sy * f.stride + sx * 4 + 3] == frame[sy * f.stride + sx * 4 + 3],
{
    lemma_pixel(f, sx, sy, 3);
    assert(0 <= sy * f.stride) by (nonlinear_arith)
        requires
            0 <= sy,
            0 <= f.stride,
    ;
}

} // verus!
