//! Following the cursor of a Windows desktop.

use crate::capture::overlay::{any_alpha, apply_mask, has_alpha, masked};
use crate::error::{ErrorView, MediaError};
use crate::types::{picture, CursorImage, CursorKind, CursorState, PictureView};
use vstd::prelude::*;

verus! {

// ---- Bitmaps ----

/// The size of a bitmap by what the system says of it: `None` where it could
/// not be read or is empty. A height below zero stands for rows from the top.
pub open spec fn bitmap_size(read: bool, width: i32, height: i32) -> Option<(u32, u32)> {
    if !read || width <= 0 || height == 0 {
        None
    } else {
        Some(
            (width as u32, (if height < 0 {
                -height
            } else {
                height as int
            }) as u32),
        )
    }
}

/// The size of a bitmap by what the system says of it.
pub fn bitmap_dimensions(read: bool, width: i32, height: i32) -> (r: Option<(u32, u32)>)
    ensures
        r == bitmap_size(read, width, height),
{
    if !read || width <= 0 || height == 0 {
        return None;
    }
    let h: u32 = if height < 0 {
        (-(height as i64)) as u32
    } else {
        height as u32
    };
    Some((width as u32, h))
}

/// Bytes in the order red, green, blue, alpha, for bytes in the order blue,
/// green, red, alpha. Bytes behind the last whole pixel are left out.
pub open spec fn swapped(bgra: Seq<u8>) -> Seq<u8> {
    Seq::new(
        (bgra.len() / 4 * 4) as nat,
        |i: int|
            if i % 4 == 0 {
                bgra[i + 2]
            } else if i % 4 == 2 {
                bgra[i - 2]
            } else {
                bgra[i]
            },
    )
}

/// Swaps red and blue.
pub fn bitmap_bgra_to_rgba(bgra: &[u8]) -> (r: Vec<u8>)
    ensures
        r@ == swapped(bgra@),
{
    let mut r: Vec<u8> = Vec::new();
    let total: usize = bgra.len();
    let n: usize = total / 4;
    for i in 0..n
        invariant
            n == total / 4,
            total == bgra@.len(),
            r@.len() == 4 * i,
            forall|j: int| 0 <= j < r@.len() ==> r@[j] == swapped(bgra@)[j],
    {
        r.push(bgra[4 * i + 2]);
        r.push(bgra[4 * i + 1]);
        r.push(bgra[4 * i]);
        r.push(bgra[4 * i + 3]);
    }
    assert(r@ =~= swapped(bgra@));
    r
}

/// A color picture with its alpha: its own where it has one; else a mask's,
/// whose zeros are solid; else every pixel that is not black is solid.
pub open spec fn with_alpha(bgra: Seq<u8>, mask: Option<Seq<u8>>, pixels: int) -> Seq<u8> {
    let rgba = swapped(bgra);
    if has_alpha(rgba) {
        rgba
    } else {
        match mask {
            Some(m) if m.len() >= 4 * pixels => masked(rgba, m, pixels),
            _ => Seq::new(
                rgba.len(),
                |i: int|
                    if i % 4 == 3 && (rgba[i - 3] != 0 || rgba[i - 2] != 0 || rgba[i - 1] != 0) {
                        255u8
                    } else {
                        rgba[i]
                    },
            ),
        }
    }
}

fn set_alpha_by_color(rgba: &mut Vec<u8>)
    requires
        old(rgba)@.len() % 4 == 0,
    ensures
        final(rgba)@ == Seq::new(
            old(rgba)@.len(),
            |i: int|
                if i % 4 == 3 && (old(rgba)@[i - 3] != 0 || old(rgba)@[i - 2] != 0
                    || old(rgba)@[i - 1] != 0) {
                    255u8
                } else {
                    old(rgba)@[i]
                },
        ),
{
    let ghost before = rgba@;
    let total: usize = rgba.len();
    let n: usize = total / 4;
    for i in 0..n
        invariant
            n == total / 4,
            total % 4 == 0,
            total == rgba@.len(),
            total == before.len(),
            forall|j: int|
                #![trigger rgba@[j]]
                0 <= j < total ==> rgba@[j] == if j % 4 == 3 && j / 4 < i && (before[j - 3] != 0
                    || before[j - 2] != 0 || before[j - 1] != 0) {
                    255u8
                } else {
                    before[j]
                },
    {
        if rgba[4 * i] != 0 || rgba[4 * i + 1] != 0 || rgba[4 * i + 2] != 0 {
            rgba.set(4 * i + 3, 255);
        }
    }
    assert(rgba@ =~= Seq::new(
        before.len(),
        |i: int|
            if i % 4 == 3 && (before[i - 3] != 0 || before[i - 2] != 0 || before[i - 1] != 0) {
                255u8
            } else {
                before[i]
            },
    ));
}

pub open spec fn bytes(mask: Option<&[u8]>) -> Option<Seq<u8>> {
    match mask {
        Some(m) => Some(m@),
        None => None,
    }
}

/// Makes a color picture's bytes, with the mask's alpha where it has none of its
/// own.
pub fn bitmap_bgra_to_rgba_with_mask(
    bgra: &[u8],
    mask: Option<&[u8]>,
    width: u32,
    height: u32,
) -> (r: Vec<u8>)
    requires
        !has_alpha(swapped(bgra@)) && (mask matches Some(m) && m@.len() >= 4 * width * height)
            ==> 4 * width * height <= bgra@.len(),
    ensures
        r@ == with_alpha(bgra@, bytes(mask), width * height),
{
    let mut rgba: Vec<u8> = bitmap_bgra_to_rgba(bgra);
    if any_alpha(rgba.as_slice()) {
        return rgba;
    }
    if let Some(m) = mask {
        assert(width * height <= u32::MAX * u32::MAX) by (nonlinear_arith)
            requires
                width <= u32::MAX,
                height <= u32::MAX,
        ;
        let pixels: u64 = width as u64 * height as u64;
        assert(4 * width * height == 4 * pixels) by (nonlinear_arith)
            requires
                pixels == width * height,
        ;
        if (m.len() / 4) as u64 >= pixels {
            let n: usize = pixels as usize;
            apply_mask(&mut rgba, m, n);
            return rgba;
        }
    }
    set_alpha_by_color(&mut rgba);
    rgba
}

/// The size of a cursor: its color picture's, or half the height of a mask that
/// stands alone.
pub open spec fn cursor_size(
    has_color: bool,
    color: Option<(u32, u32)>,
    mask: Option<(u32, u32)>,
) -> Option<(u32, u32)> {
    if has_color {
        color
    } else {
        match mask {
            Some((w, h)) => if h >= 2 {
                Some((w, (h / 2) as u32))
            } else {
                None
            },
            None => None,
        }
    }
}

/// The size of a cursor, by the sizes of its two bitmaps.
pub fn cursor_size_from_icon_info(
    has_color: bool,
    color: Option<(u32, u32)>,
    mask: Option<(u32, u32)>,
) -> (r: Option<(u32, u32)>)
    ensures
        r == cursor_size(has_color, color, mask),
{
    if has_color {
        color
    } else {
        match mask {
            Some((w, h)) => if h >= 2 {
                Some((w, h / 2))
            } else {
                None
            },
            None => None,
        }
    }
}

// ---- A cursor drawn twice ----

/// The picture that a cursor is drawn over: one solid color, given as red, green
/// and blue, in BGRA.
pub open spec fn background(pixels: nat, color: (u8, u8, u8)) -> Seq<u8> {
    Seq::new(
        4 * pixels,
        |i: int|
            if i % 4 == 0 {
                color.2
            } else if i % 4 == 1 {
                color.1
            } else if i % 4 == 2 {
                color.0
            } else {
                255
            },
    )
}

/// Fills a bitmap with one solid color. Bytes behind the last whole pixel stay.
pub fn fill_background(bitmap: &mut Vec<u8>, color: (u8, u8, u8))
    ensures
        final(bitmap)@ == background((old(bitmap)@.len() / 4) as nat, color) + old(
            bitmap,
        )@.skip((old(bitmap)@.len() / 4 * 4) as int),
{
    let ghost b0 = bitmap@;
    let total: usize = bitmap.len();
    let n: usize = total / 4;
    for i in 0..n
        invariant
            n == total / 4,
            total == bitmap@.len(),
            total == b0.len(),
            forall|j: int|
                0 <= j < total ==> #[trigger] bitmap@[j] == (if j < 4 * i {
                    background(n as nat, color)[j]
                } else {
                    b0[j]
                }),
    {
        bitmap.set(4 * i, color.2);
        bitmap.set(4 * i + 1, color.1);
        bitmap.set(4 * i + 2, color.0);
        bitmap.set(4 * i + 3, 255);
    }
    assert(bitmap@ =~= background(n as nat, color) + b0.skip(4 * (n as int)));
}

/// A stage of drawing a cursor into a bitmap.
#[derive(Debug, Clone, Copy, PartialEq, Eq, Structural)]
pub enum DrawStage {
    ScreenContext,
    MemoryContext,
    CreateBitmap,
    MapBits,
    /// Drawing, whether it worked or not.
    Draw,
}

/// Something that drawing a cursor releases.
#[derive(Debug, Clone, Copy, PartialEq, Eq, Structural)]
pub enum DrawRelease {
    /// Select the bitmap that was selected before, where there was one.
    Reselect,
    DeleteBitmap,
    DeleteContext,
    ReleaseScreen,
}

/// What is still to be released when drawing ends at a stage.
pub open spec fn released_at(stage: DrawStage) -> Seq<DrawRelease> {
    match stage {
        DrawStage::ScreenContext => Seq::empty(),
        DrawStage::MemoryContext => seq![DrawRelease::ReleaseScreen],
        DrawStage::CreateBitmap => seq![DrawRelease::DeleteContext, DrawRelease::ReleaseScreen],
        DrawStage::MapBits => seq![DrawRelease::DeleteBitmap, DrawRelease::DeleteContext],
        DrawStage::Draw => seq![
            DrawRelease::Reselect,
            DrawRelease::DeleteBitmap,
            DrawRelease::DeleteContext,
        ],
    }
}

/// What is still to be released when drawing ends at a stage, in this order. The
/// screen is released as soon as the bitmap is made.
pub fn draw_icon_releases(stage: DrawStage) -> (r: Vec<DrawRelease>)
    ensures
        r@ == released_at(stage),
{
    match stage {
        DrawStage::ScreenContext => Vec::new(),
        DrawStage::MemoryContext => vec![DrawRelease::ReleaseScreen],
        DrawStage::CreateBitmap => vec![DrawRelease::DeleteContext, DrawRelease::ReleaseScreen],
        DrawStage::MapBits => vec![DrawRelease::DeleteBitmap, DrawRelease::DeleteContext],
        DrawStage::Draw => vec![
            DrawRelease::Reselect,
            DrawRelease::DeleteBitmap,
            DrawRelease::DeleteContext,
        ],
    }
}

pub open spec fn max2(a: int, b: int) -> int {
    if a < b {
        b
    } else {
        a
    }
}

pub open spec fn min2(a: int, b: int) -> int {
    if a < b {
        a
    } else {
        b
    }
}

/// How much of the background shows through: the most that a color gained
/// between the black and the white background.
pub open spec fn drawn_alpha(black: Seq<u8>, white: Seq<u8>, p: int) -> int {
    255 - max2(
        max2(max2(white[p + 2] - black[p + 2], 0), max2(white[p + 1] - black[p + 1], 0)),
        max2(white[p] - black[p], 0),
    )
}

/// A color without the black behind it.
pub open spec fn pure_color(over_black: u8, alpha: int) -> u8 {
    min2((over_black * 255 + alpha / 2) / alpha, 255) as u8
}

/// A byte of the picture of a cursor that was drawn over black and over white.
pub open spec fn drawn_twice_byte(black: Seq<u8>, white: Seq<u8>, i: int) -> u8 {
    let p = i / 4 * 4;
    let alpha = drawn_alpha(black, white, p);
    if alpha == 0 {
        0
    } else if i % 4 == 3 {
        alpha as u8
    } else {
        pure_color(black[p + 2 - i % 4], alpha)
    }
}

/// The picture of a cursor that was drawn over black and over white.
pub open spec fn drawn_twice(black: Seq<u8>, white: Seq<u8>) -> Seq<u8> {
    Seq::new(black.len(), |i: int| drawn_twice_byte(black, white, i))
}

/// Whether any of the cursor shows.
pub open spec fn shows(black: Seq<u8>, white: Seq<u8>) -> bool {
    exists|k: int|
        0 <= k && 4 * k + 3 < black.len() && #[trigger] drawn_alpha(black, white, 4 * k) != 0
}

fn gain(black: u8, white: u8) -> (r: u16)
    ensures
        r == max2(white - black, 0),
        r <= 255,
{
    if white > black {
        (white - black) as u16
    } else {
        0
    }
}

fn larger(a: u16, b: u16) -> (r: u16)
    ensures
        r == max2(a as int, b as int),
{
    if a < b {
        b
    } else {
        a
    }
}

fn pure(over_black: u8, alpha: u16) -> (r: u8)
    requires
        0 < alpha <= 255,
    ensures
        r == pure_color(over_black, alpha as int),
{
    let v: u16 = (over_black as u16 * 255 + alpha / 2) / alpha;
    if v < 255 {
        v as u8
    } else {
        255
    }
}

/// The picture of a cursor that was drawn over black and over white; `None`
/// where a drawing is not of the given size, or nothing shows.
pub fn rendered_icon_to_rgba(black: &[u8], white: &[u8], width: u32, height: u32) -> (r: Option<
    Vec<u8>,
>)
    ensures
        match r {
            Some(v) => black@.len() == white@.len() == 4 * width * height && shows(black@, white@)
                && v@ == drawn_twice(black@, white@),
            None => black@.len() != white@.len() || black@.len() != 4 * width * height || !shows(
                black@,
                white@,
            ),
        },
{
    assert(width * height <= u32::MAX * u32::MAX) by (nonlinear_arith)
        requires
            width <= u32::MAX,
            height <= u32::MAX,
    ;
    let pixels: u64 = width as u64 * height as u64;
    assert(4 * width * height == 4 * pixels) by (nonlinear_arith)
        requires
            pixels == width * height,
    ;
    if black.len() != white.len() || black.len() % 4 != 0 || (black.len() / 4) as u64 != pixels {
        return None;
    }
    let total: usize = black.len();
    let n: usize = total / 4;
    let mut rgba: Vec<u8> = Vec::new();
    let mut visible: bool = false;
    for i in 0..n
        invariant
            n == total / 4,
            total == black@.len(),
            total % 4 == 0,
            black@.len() == white@.len(),
            rgba@.len() == 4 * i,
            forall|j: int|
                0 <= j < rgba@.len() ==> rgba@[j] == #[trigger] drawn_twice_byte(black@, white@, j),
            visible == exists|k: int|
                0 <= k < i && #[trigger] drawn_alpha(black@, white@, 4 * k) != 0,
    {
        let p: usize = 4 * i;
        let delta: u16 = larger(
            larger(gain(black[p + 2], white[p + 2]), gain(black[p + 1], white[p + 1])),
            gain(black[p], white[p]),
        );
        let alpha: u16 = 255 - delta;
        assert(alpha == drawn_alpha(black@, white@, 4 * (i as int)));
        let ghost before = rgba@;
        if alpha == 0 {
            rgba.push(0);
            rgba.push(0);
            rgba.push(0);
            rgba.push(0);
        } else {
            visible = true;
            rgba.push(pure(black[p + 2], alpha));
            rgba.push(pure(black[p + 1], alpha));
            rgba.push(pure(black[p], alpha));
            rgba.push(alpha as u8);
        }
        assert forall|j: int| 0 <= j < rgba@.len() implies rgba@[j] == #[trigger] drawn_twice_byte(
            black@,
            white@,
            j,
        ) by {
            if j < p {
                assert(rgba@[j] == before[j]);
            } else {
                assert(j / 4 * 4 == p);
            }
        }
    }
    if visible {
        assert(rgba@ =~= drawn_twice(black@, white@));
        Some(rgba)
    } else {
        None
    }
}

// ---- A cursor that is a mask ----

/// A byte of the picture of a cursor that is a mask of `rows` rows to keep the
/// screen and as many to turn it over: solid white where it turns over, clear
/// where it keeps, solid black elsewhere.
pub open spec fn mask_byte(mask: Seq<u8>, pixels: int, i: int) -> u8 {
    let keep = mask[i / 4 * 4];
    let turn = mask[(i / 4 + pixels) * 4];
    if turn > 0 {
        255
    } else if keep > 0 {
        0
    } else if i % 4 == 3 {
        255
    } else {
        0
    }
}

/// The picture of a cursor that is a mask of twice as many rows.
pub open spec fn from_mask(mask: Seq<u8>, width: u32, height: u32) -> Seq<u8> {
    let pixels = width * (height / 2);
    Seq::new((4 * pixels) as nat, |i: int| mask_byte(mask, pixels, i))
}

/// Makes the picture of a cursor that is a mask.
pub fn mask_bitmap_to_rgba(mask: &[u8], width: u32, height: u32) -> (r: Vec<u8>)
    requires
        mask@.len() >= 8 * (width * (height / 2)),
    ensures
        r@ == from_mask(mask@, width, height),
{
    let half: u32 = height / 2;
    assert(width * half <= u32::MAX * u32::MAX) by (nonlinear_arith)
        requires
            width <= u32::MAX,
            half <= u32::MAX,
    ;
    let total: usize = mask.len();
    let count: u64 = width as u64 * half as u64;
    let pixels: usize = count as usize;
    assert(pixels == width * half);
    let mut r: Vec<u8> = Vec::new();
    for k in 0..pixels
        invariant
            total == mask@.len(),
            total >= 8 * pixels,
            pixels == width * (height / 2),
            r@.len() == 4 * k,
            forall|j: int|
                0 <= j < r@.len() ==> r@[j] == #[trigger] mask_byte(mask@, pixels as int, j),
    {
        let keep: u8 = mask[4 * k];
        let turn: u8 = mask[4 * (k + pixels)];
        let color: u8 = if turn > 0 {
            255
        } else {
            0
        };
        let alpha: u8 = if turn == 0 && keep > 0 {
            0
        } else {
            255
        };
        let ghost before = r@;
        r.push(color);
        r.push(color);
        r.push(color);
        r.push(alpha);
        assert forall|j: int| 0 <= j < r@.len() implies r@[j] == #[trigger] mask_byte(
            mask@,
            pixels as int,
            j,
        ) by {
            if j < 4 * k {
                assert(r@[j] == before[j]);
            } else {
                assert(j / 4 == k);
            }
        }
    }
    assert(r@ =~= from_mask(mask@, width, height));
    r
}

// ---- The picture of a cursor ----

/// A bitmap that was read: width, height and bytes in BGRA.
pub type Bitmap = (u32, u32, Vec<u8>);

/// What the system gives of a cursor.
pub struct IconParts {
    pub hotspot_x: u32,
    pub hotspot_y: u32,
    pub has_color: bool,
    pub color_size: Option<(u32, u32)>,
    pub mask_size: Option<(u32, u32)>,
    /// The cursor drawn over black and over white, at its size.
    pub over_black: Option<Vec<u8>>,
    pub over_white: Option<Vec<u8>>,
    /// The bitmaps, where they could be read.
    pub color: Option<Bitmap>,
    pub mask: Option<Bitmap>,
}

pub open spec fn bitmap_wf(b: Option<Bitmap>) -> bool {
    b matches Some(b) ==> b.2@.len() == 4 * b.0 * b.1
}

impl IconParts {
    /// Each bitmap that was read has four bytes a pixel.
    pub open spec fn wf(&self) -> bool {
        bitmap_wf(self.color) && bitmap_wf(self.mask)
    }
}

/// The picture by drawing, where the cursor could be drawn and shows.
pub open spec fn by_drawing(parts: IconParts) -> Option<PictureView> {
    match (
        cursor_size(parts.has_color, parts.color_size, parts.mask_size),
        parts.over_black,
        parts.over_white,
    ) {
        (Some((w, h)), Some(b), Some(t)) => if b@.len() == t@.len() == 4 * w * h && shows(
            b@,
            t@,
        ) {
            Some(
                PictureView {
                    width: w,
                    height: h,
                    hotspot_x: parts.hotspot_x,
                    hotspot_y: parts.hotspot_y,
                    rgba_data: drawn_twice(b@, t@),
                },
            )
        } else {
            None
        },
        _ => None,
    }
}

/// The picture by the bitmaps.
pub open spec fn by_bitmaps(parts: IconParts) -> Option<PictureView> {
    if parts.has_color {
        match parts.color {
            Some(c) => Some(
                PictureView {
                    width: c.0,
                    height: c.1,
                    hotspot_x: parts.hotspot_x,
                    hotspot_y: parts.hotspot_y,
                    rgba_data: with_alpha(
                        c.2@,
                        match parts.mask {
                            Some(m) => Some(m.2@),
                            None => None,
                        },
                        c.0 * c.1,
                    ),
                },
            ),
            None => None,
        }
    } else {
        match parts.mask {
            Some(m) => if m.1 < 2 {
                None
            } else {
                Some(
                    PictureView {
                        width: m.0,
                        height: (m.1 / 2) as u32,
                        hotspot_x: parts.hotspot_x,
                        hotspot_y: parts.hotspot_y,
                        rgba_data: from_mask(m.2@, m.0, m.1),
                    },
                )
            },
            None => None,
        }
    }
}

/// The picture of a cursor: drawn where that works, else by its bitmaps; none
/// where it is empty.
pub open spec fn icon_picture(parts: IconParts) -> Option<PictureView> {
    let p = match by_drawing(parts) {
        Some(p) => Some(p),
        None => by_bitmaps(parts),
    };
    match p {
        Some(p) => if p.width > 0 && p.height > 0 && p.rgba_data.len() == 4 * p.width * p.height {
            Some(p)
        } else {
            None
        },
        None => None,
    }
}

fn picture_by_drawing(parts: &IconParts) -> (r: Option<CursorImage>)
    ensures
        picture(r) == by_drawing(*parts),
{
    match cursor_size_from_icon_info(parts.has_color, parts.color_size, parts.mask_size) {
        None => None,
        Some((width, height)) => match (&parts.over_black, &parts.over_white) {
            (Some(b), Some(w)) => match rendered_icon_to_rgba(
                b.as_slice(),
                w.as_slice(),
                width,
                height,
            ) {
                Some(rgba_data) => Some(
                    CursorImage {
                        width,
                        height,
                        hotspot_x: parts.hotspot_x,
                        hotspot_y: parts.hotspot_y,
                        rgba_data,
                    },
                ),
                None => None,
            },
            _ => None,
        },
    }
}

fn picture_by_bitmaps(parts: &IconParts) -> (r: Option<CursorImage>)
    requires
        parts.wf(),
    ensures
        picture(r) == by_bitmaps(*parts),
{
    if parts.has_color {
        match &parts.color {
            None => None,
            Some(c) => {
                let mask: Option<&[u8]> = match &parts.mask {
                    Some(m) => Some(m.2.as_slice()),
                    None => None,
                };
                let rgba_data: Vec<u8> = bitmap_bgra_to_rgba_with_mask(
                    c.2.as_slice(),
                    mask,
                    c.0,
                    c.1,
                );
                Some(
                    CursorImage {
                        width: c.0,
                        height: c.1,
                        hotspot_x: parts.hotspot_x,
                        hotspot_y: parts.hotspot_y,
                        rgba_data,
                    },
                )
            },
        }
    } else {
        match &parts.mask {
            None => None,
            Some(m) => {
                if m.1 < 2 {
                    return None;
                }
                assert(4 * m.0 * m.1 >= 8 * (m.0 * (m.1 / 2))) by (nonlinear_arith);
                let rgba_data: Vec<u8> = mask_bitmap_to_rgba(m.2.as_slice(), m.0, m.1);
                Some(
                    CursorImage {
                        width: m.0,
                        height: m.1 / 2,
                        hotspot_x: parts.hotspot_x,
                        hotspot_y: parts.hotspot_y,
                        rgba_data,
                    },
                )
            },
        }
    }
}

/// The picture of a cursor.
pub fn cursor_image_from_handle(parts: &IconParts) -> (r: Option<CursorImage>)
    requires
        parts.wf(),
    ensures
        picture(r) == icon_picture(*parts),
{
    let image: Option<CursorImage> = match picture_by_drawing(parts) {
        Some(i) => Some(i),
        None => picture_by_bitmaps(parts),
    };
    match image {
        None => None,
        Some(i) => {
            let (w, h): (u32, u32) = (i.width, i.height);
            assert(w * h <= u32::MAX * u32::MAX) by (nonlinear_arith)
                requires
                    w <= u32::MAX,
                    h <= u32::MAX,
            ;
            let pixels: u64 = w as u64 * h as u64;
            assert(4 * w * h == 4 * pixels) by (nonlinear_arith)
                requires
                    pixels == w * h,
            ;
            let n: usize = i.rgba_data.len();
            if w > 0 && h > 0 && n % 4 == 0 && (n / 4) as u64 == pixels {
                Some(i)
            } else {
                None
            }
        },
    }
}

// ---- The capture ----

/// The handles of the system's own cursors, where they could be loaded.
#[derive(Debug, Clone, Copy)]
pub struct SystemCursors {
    pub ibeam: Option<u64>,
    pub hand: Option<u64>,
    pub cross: Option<u64>,
    pub size_all: Option<u64>,
    pub size_ns: Option<u64>,
    pub size_we: Option<u64>,
    pub size_nesw: Option<u64>,
    pub size_nwse: Option<u64>,
    pub no: Option<u64>,
    pub arrow: Option<u64>,
}

fn is_handle(system: Option<u64>, handle: u64) -> (b: bool)
    ensures
        b == (system == Some(handle)),
{
    match system {
        Some(h) => h == handle,
        None => false,
    }
}

/// What a cursor stands for: the first of the system's cursors that it is.
pub open spec fn handle_kind(handle: u64, s: SystemCursors) -> CursorKind {
    if s.ibeam == Some(handle) {
        CursorKind::IBeam
    } else if s.hand == Some(handle) {
        CursorKind::Hand
    } else if s.cross == Some(handle) {
        CursorKind::Cross
    } else if s.size_all == Some(handle) {
        CursorKind::Move
    } else if s.size_ns == Some(handle) {
        CursorKind::ResizeNs
    } else if s.size_we == Some(handle) {
        CursorKind::ResizeEw
    } else if s.size_nesw == Some(handle) {
        CursorKind::ResizeNesw
    } else if s.size_nwse == Some(handle) {
        CursorKind::ResizeNwse
    } else if s.no == Some(handle) {
        CursorKind::Unavailable
    } else if s.arrow == Some(handle) {
        CursorKind::Arrow
    } else {
        CursorKind::Unknown
    }
}

/// What a cursor stands for.
pub fn cursor_kind_from_handle(handle: u64, s: &SystemCursors) -> (r: CursorKind)
    ensures
        r == handle_kind(handle, *s),
{
    if is_handle(s.ibeam, handle) {
        CursorKind::IBeam
    } else if is_handle(s.hand, handle) {
        CursorKind::Hand
    } else if is_handle(s.cross, handle) {
        CursorKind::Cross
    } else if is_handle(s.size_all, handle) {
        CursorKind::Move
    } else if is_handle(s.size_ns, handle) {
        CursorKind::ResizeNs
    } else if is_handle(s.size_we, handle) {
        CursorKind::ResizeEw
    } else if is_handle(s.size_nesw, handle) {
        CursorKind::ResizeNesw
    } else if is_handle(s.size_nwse, handle) {
        CursorKind::ResizeNwse
    } else if is_handle(s.no, handle) {
        CursorKind::Unavailable
    } else if is_handle(s.arrow, handle) {
        CursorKind::Arrow
    } else {
        CursorKind::Unknown
    }
}

/// The cursor of a Windows desktop.
pub struct WindowsCursorCapture {
    pub active: bool,
    /// The picture that was handed out last.
    pub last_image: Option<CursorImage>,
    /// The last picture of a visible cursor could not be had.
    pub logged_image_failure: bool,
}

/// Whether `s` is the state of a cursor that the system described so, and `after` the
/// capture then.
pub open spec fn cursor_seen(
    before: WindowsCursorCapture,
    after: WindowsCursorCapture,
    x: i32,
    y: i32,
    visible: bool,
    kind: CursorKind,
    image: Option<CursorImage>,
    s: CursorState,
) -> bool {
    let changed = visible && image is Some && picture(image) != picture(before.last_image);
    &&& before.active
    &&& s.x == x && s.y == y && s.visible == visible && s.kind == kind
    &&& picture(s.image) == (if changed {
        picture(image)
    } else {
        None
    })
    &&& picture(after.last_image) == (if changed {
        picture(image)
    } else {
        picture(before.last_image)
    })
    &&& after.logged_image_failure == (if visible {
        image is None
    } else {
        before.logged_image_failure
    })
}

impl WindowsCursorCapture {
    /// A capture that has not started.
    pub fn new() -> (r: Self)
        ensures
            r == (WindowsCursorCapture {
                active: false,
                last_image: None,
                logged_image_failure: false,
            }),
    {
        WindowsCursorCapture { active: false, last_image: None, logged_image_failure: false }
    }

    /// Starts following the cursor.
    pub fn start(&mut self)
        ensures
            *final(self) == (WindowsCursorCapture { active: true, ..*old(self) }),
    {
        self.active = true;
    }

    /// Where the cursor is and what it looks like, by what the system said of
    /// it. `image` is the picture of a visible cursor. It comes along only where
    /// it changed.
    pub fn get_cursor_state(
        &mut self,
        x: i32,
        y: i32,
        visible: bool,
        kind: CursorKind,
        image: Option<CursorImage>,
    ) -> (r: Result<CursorState, MediaError>)
        ensures
            final(self).active == old(self).active,
            match r {
                Err(e) => !old(self).active && e@ == ErrorView::CursorError(
                    "Cursor capture not started"@,
                ) && *final(self) == *old(self),
                Ok(s) => cursor_seen(*old(self), *final(self), x, y, visible, kind, image, s),
            },
    {
        if !self.active {
            return Err(MediaError::cursor("Cursor capture not started"));
        }
        let mut changed: Option<CursorImage> = None;
        if visible {
            match image {
                Some(i) => {
                    let known: bool = match &self.last_image {
                        Some(last) => last.same(&i),
                        None => false,
                    };
                    if !known {
                        self.last_image = Some(i.copy());
                        changed = Some(i);
                    }
                    self.logged_image_failure = false;
                },
                None => {
                    self.logged_image_failure = true;
                },
            }
        }
        Ok(CursorState { x, y, visible, kind, image: changed })
    }

    /// Stops following the cursor.
    pub fn stop(&mut self)
        ensures
            *final(self) == (WindowsCursorCapture { active: false, ..*old(self) }),
    {
        self.active = false;
    }
}

/// Every picture of a cursor has a size and four bytes for each of its pixels.
pub proof fn law_pictures_fill_their_size(parts: IconParts)
    ensures
        icon_picture(parts) matches Some(p) ==> p.width > 0 && p.height > 0 && p.rgba_data.len()
            == 4 * p.width * p.height,
{
}

/// Drawing a cursor over black and over white loses nothing of a solid cursor:
/// where the two drawings agree, the pixel is solid and has the drawn color.
pub proof fn law_solid_pixels_keep_their_color(black: Seq<u8>, white: Seq<u8>, k: int, c: int)
    requires
        0 <= k,
        4 * k + 3 < black.len(),
        black.len() == white.len(),
        0 <= c < 3,
        forall|d: int| 0 <= d < 3 ==> #[trigger] black[4 * k + d] == white[4 * k + d],
    ensures
        drawn_twice(black, white)[4 * k + 3] == 255,
        drawn_twice(black, white)[4 * k + c] == black[4 * k + 2 - c],
{
    assert((4 * k + 3) / 4 * 4 == 4 * k);
    assert((4 * k + c) / 4 * 4 == 4 * k);
    assert(black[4 * k + 0] == white[4 * k + 0]);
    assert(black[4 * k + 1] == white[4 * k + 1]);
    assert(black[4 * k + 2] == white[4 * k + 2]);
    assert(black[4 * k] == white[4 * k]);
    assert(drawn_alpha(black, white, 4 * k) == 255);
    let v = black[4 * k + 2 - c];
    assert((v * 255 + 127) / 255 == v);
}

/// A bitmap is as large as the system says, whichever way its rows run, and an empty one
/// has no size.
pub proof fn law_rows_of_either_order_have_a_height(width: i32, height: i32)
    ensures
        bitmap_size(false, width, height) is None,
        bitmap_size(true, width, height) is Some <==> width > 0 && height != 0,
        width > 0 && height > 0 ==> bitmap_size(true, width, height) == Some(
            (width as u32, height as u32),
        ),
        width > 0 && 0 < height ==> bitmap_size(true, width, (-height) as i32) == bitmap_size(
            true,
            width,
            height,
        ),
{
}

/// Red and blue change places, green and alpha stay, in every pixel; changed twice they are
/// where they were.
pub proof fn law_red_and_blue_change_places(bgra: Seq<u8>, i: int)
    requires
        0 <= i,
        4 * i + 3 < bgra.len(),
    ensures
        swapped(bgra)[4 * i] == bgra[4 * i + 2],
        swapped(bgra)[4 * i + 1] == bgra[4 * i + 1],
        swapped(bgra)[4 * i + 2] == bgra[4 * i],
        swapped(bgra)[4 * i + 3] == bgra[4 * i + 3],
        bgra.len() % 4 == 0 ==> swapped(bgra).len() == bgra.len() && swapped(swapped(bgra)) == bgra,
{
    assert((4 * i) % 4 == 0 && (4 * i + 1) % 4 == 1 && (4 * i + 2) % 4 == 2 && (4 * i + 3) % 4 == 3);
    if bgra.len() % 4 == 0 {
        let s = swapped(bgra);
        assert forall|k: int| 0 <= k < bgra.len() implies swapped(s)[k] == bgra[k] by {
            if k % 4 == 0 {
                assert((k + 2) % 4 == 2);
            } else if k % 4 == 2 {
                assert((k - 2) % 4 == 0);
            }
        }
        assert(swapped(s) =~= bgra);
    }
}

/// A color picture keeps its colours. It keeps its own alpha where any pixel has some; else
/// a mask that covers it decides, whose zeros are solid and whose other pixels are clear;
/// without one every pixel that is not black is solid.
pub proof fn law_where_alpha_comes_from(bgra: Seq<u8>, mask: Option<Seq<u8>>, pixels: int, i: int)
    requires
        0 <= i < pixels,
        bgra.len() == 4 * pixels,
    ensures
        ({
            let r = with_alpha(bgra, mask, pixels);
            let own = exists|j: int| 0 <= j < pixels && #[trigger] bgra[j * 4 + 3] != 0;
            let covers = mask is Some && mask->0.len() >= 4 * pixels;
            &&& r.len() == bgra.len()
            &&& r[4 * i] == bgra[4 * i + 2] && r[4 * i + 1] == bgra[4 * i + 1] && r[4 * i + 2]
                == bgra[4 * i]
            &&& own ==> r[4 * i + 3] == bgra[4 * i + 3]
            &&& !own && covers ==> r[4 * i + 3] == (if mask->0[4 * i] == 0 {
                255int
            } else {
                0
            })
            &&& !own && !covers ==> r[4 * i + 3] == (if bgra[4 * i] != 0 || bgra[4 * i + 1] != 0
                || bgra[4 * i + 2] != 0 {
                255int
            } else {
                0
            })
        }),
{
    let rgba = swapped(bgra);
    law_red_and_blue_change_places(bgra, i);
    assert((4 * i) % 4 == 0 && (4 * i + 1) % 4 == 1 && (4 * i + 2) % 4 == 2 && (4 * i + 3) % 4 == 3);
    assert((4 * i) / 4 == i && (4 * i + 3) / 4 == i);
    let own = exists|j: int| 0 <= j < pixels && #[trigger] bgra[j * 4 + 3] != 0;
    assert(own == has_alpha(rgba)) by {
        if own {
            let j = choose|j: int| 0 <= j < pixels && #[trigger] bgra[j * 4 + 3] != 0;
            law_red_and_blue_change_places(bgra, j);
            assert(rgba[j * 4 + 3] != 0);
        }
        if has_alpha(rgba) {
            let j = choose|j: int| 0 <= j < rgba.len() / 4 && #[trigger] rgba[j * 4 + 3] != 0;
            law_red_and_blue_change_places(bgra, j);
            assert(bgra[j * 4 + 3] != 0);
        }
    }
    if !own {
        assert(bgra[i * 4 + 3] == 0);
    }
}

/// A cursor that lets a part of the background through shows it alike in every colour: where
/// white behind it adds `255 - a` to every colour, `a` is its alpha. Its colours are those
/// over black without the black, to the nearest. A pixel that lets all through is clear.
pub proof fn law_drawing_twice_finds_the_alpha(
    black: Seq<u8>,
    white: Seq<u8>,
    k: int,
    a: int,
    c: int,
)
    requires
        0 <= k,
        4 * k + 3 < black.len(),
        black.len() == white.len(),
        0 <= a <= 255,
        forall|d: int|
            0 <= d < 3 ==> #[trigger] white[4 * k + d] == black[4 * k + d] + 255 - a && black[4 * k
                + d] <= a,
        0 <= c < 3,
    ensures
        ({
            let r = drawn_twice(black, white);
            let over = black[4 * k + 2 - c] as int;
            &&& r[4 * k + 3] == a
            &&& a == 0 ==> r[4 * k + c] == 0
            &&& a > 0 ==> 2 * r[4 * k + c] * a <= 2 * (255 * over) + a && 2 * (255 * over) < 2 * (r[4
                * k + c] + 1) * a
        }),
{
    assert((4 * k + c) / 4 == k && (4 * k + 3) / 4 == k && (4 * k + c) % 4 == c && (4 * k + 3) % 4
        == 3);
    assert(white[4 * k + 0] == black[4 * k + 0] + 255 - a);
    assert(white[4 * k + 1] == black[4 * k + 1] + 255 - a);
    assert(white[4 * k + 2] == black[4 * k + 2] + 255 - a);
    let over = black[4 * k + 2 - c] as int;
    assert(over <= a) by {
        let d = 2 - c;
        assert(white[4 * k + d] == black[4 * k + d] + 255 - a);
    }
    if a > 0 {
        let n = over * 255 + a / 2;
        let q = n / a;
        vstd::arithmetic::div_mod::lemma_fundamental_div_mod(n, a);
        vstd::arithmetic::div_mod::lemma_mod_bound(n, a);
        assert(0 <= q <= 255 && q * a <= n && n < (q + 1) * a) by (nonlinear_arith)
            requires
                n == a * q + n % a,
                0 <= n % a < a,
                0 <= over <= a,
                n == over * 255 + a / 2,
                0 < a <= 255,
        ;
        let v = drawn_twice(black, white)[4 * k + c];
        assert(v == q);
        assert(2 * v * a <= 2 * (255 * over) + a && 2 * (255 * over) < 2 * (v + 1) * a)
            by (nonlinear_arith)
            requires
                v == q,
                q * a <= n,
                n < (q + 1) * a,
                n == over * 255 + a / 2,
                a > 0,
        ;
    }
}

/// A cursor that is a mask shows white where the lower half turns the screen over, nothing
/// where the upper half keeps the screen, and black elsewhere.
pub proof fn law_masks_keep_turn_or_cover(mask: Seq<u8>, width: u32, height: u32, i: int, c: int)
    requires
        0 <= i < width * (height / 2),
        0 <= c < 3,
    ensures
        ({
            let r = from_mask(mask, width, height);
            let keep = mask[4 * i];
            let turn = mask[4 * (i + width * (height / 2))];
            &&& r.len() == 4 * (width * (height / 2))
            &&& turn > 0 ==> r[4 * i + c] == 255 && r[4 * i + 3] == 255
            &&& turn == 0 && keep > 0 ==> r[4 * i + 3] == 0
            &&& turn == 0 && keep == 0 ==> r[4 * i + c] == 0 && r[4 * i + 3] == 255
        }),
{
    assert((4 * i + c) / 4 == i && (4 * i + 3) / 4 == i && (4 * i + c) % 4 == c && (4 * i + 3) % 4
        == 3);
}

/// A picture keeps the cursor's hotspot and has the cursor's size: that of its colours, or
/// half the height of a mask that stands alone. Where it could be drawn and shows, the
/// drawing is its picture.
pub proof fn law_pictures_keep_the_hotspot(parts: IconParts)
    ensures
        icon_picture(parts) is Some ==> icon_picture(parts)->0.hotspot_x == parts.hotspot_x
            && icon_picture(parts)->0.hotspot_y == parts.hotspot_y,
        by_drawing(parts) is Some && icon_picture(parts) is Some ==> icon_picture(parts)
            == by_drawing(parts),
        by_drawing(parts) is Some && parts.has_color ==> parts.color_size == Some(
            (by_drawing(parts)->0.width, by_drawing(parts)->0.height),
        ),
        by_drawing(parts) is Some && !parts.has_color ==> (parts.mask_size matches Some(m)
            && by_drawing(parts)->0.width == m.0 && (m.1 == 2 * by_drawing(parts)->0.height
            || m.1 == 2 * by_drawing(parts)->0.height + 1)),
        by_bitmaps(parts) is Some && parts.has_color ==> (parts.color matches Some(c)
            && by_bitmaps(parts)->0.width == c.0 && by_bitmaps(parts)->0.height == c.1),
        by_bitmaps(parts) is Some && !parts.has_color ==> (parts.mask matches Some(m)
            && by_bitmaps(parts)->0.width == m.0 && (m.1 == 2 * by_bitmaps(parts)->0.height
            || m.1 == 2 * by_bitmaps(parts)->0.height + 1)),
{
}

/// The background is solid and of its colour everywhere, with blue lowest.
pub proof fn law_backgrounds_are_of_one_colour(pixels: nat, color: (u8, u8, u8), i: int)
    requires
        0 <= i < pixels,
    ensures
        background(pixels, color).len() == 4 * pixels,
        background(pixels, color)[4 * i] == color.2,
        background(pixels, color)[4 * i + 1] == color.1,
        background(pixels, color)[4 * i + 2] == color.0,
        background(pixels, color)[4 * i + 3] == 255,
{
    assert((4 * i) % 4 == 0 && (4 * i + 1) % 4 == 1 && (4 * i + 2) % 4 == 2 && (4 * i + 3) % 4 == 3);
}

/// Each of the system's cursors, told apart from the others by its handle, stands for what
/// it is, and a handle that is none of them for nothing known.
pub proof fn law_system_cursors_stand_for_themselves(h: Seq<u64>, other: u64)
    requires
        h.len() == 10,
        h.no_duplicates(),
        !h.contains(other),
    ensures
        ({
            let s = SystemCursors {
                ibeam: Some(h[0]),
                hand: Some(h[1]),
                cross: Some(h[2]),
                size_all: Some(h[3]),
                size_ns: Some(h[4]),
                size_we: Some(h[5]),
                size_nesw: Some(h[6]),
                size_nwse: Some(h[7]),
                no: Some(h[8]),
                arrow: Some(h[9]),
            };
            &&& handle_kind(h[0], s) == CursorKind::IBeam
            &&& handle_kind(h[1], s) == CursorKind::Hand
            &&& handle_kind(h[2], s) == CursorKind::Cross
            &&& handle_kind(h[3], s) == CursorKind::Move
            &&& handle_kind(h[4], s) == CursorKind::ResizeNs
            &&& handle_kind(h[5], s) == CursorKind::ResizeEw
            &&& handle_kind(h[6], s) == CursorKind::ResizeNesw
            &&& handle_kind(h[7], s) == CursorKind::ResizeNwse
            &&& handle_kind(h[8], s) == CursorKind::Unavailable
            &&& handle_kind(h[9], s) == CursorKind::Arrow
            &&& handle_kind(other, s) == CursorKind::Unknown
        }),
{
    assert forall|i: int| 0 <= i < 10 implies #[trigger] h[i] != other by {
        assert(h.contains(h[i]));
    }
}

/// The cursor's state is what the system said of it. The picture of a visible cursor comes
/// along once, and again where any of its parts changed; a hidden cursor brings none. As long
/// as there are pictures, no failure counts as reported.
pub proof fn law_a_picture_comes_along_once(
    a: WindowsCursorCapture,
    b: WindowsCursorCapture,
    c: WindowsCursorCapture,
    x: i32,
    y: i32,
    visible: bool,
    kind: CursorKind,
    image: CursorImage,
    other: CursorImage,
    s: CursorState,
    t: CursorState,
)
    requires
        cursor_seen(a, b, x, y, true, kind, Some(image), s),
        cursor_seen(b, c, x, y, visible, kind, Some(other), t),
    ensures
        s.x == x && s.y == y && s.visible && s.kind == kind,
        t.x == x && t.y == y && t.visible == visible && t.kind == kind,
        a.last_image is None ==> s.image is Some && s.image->0@ == image@,
        !visible ==> t.image is None,
        !b.logged_image_failure && !c.logged_image_failure,
        visible && other == image ==> t.image is None,
        visible && (other.width != image.width || other.height != image.height || other.hotspot_x
            != image.hotspot_x || other.hotspot_y != image.hotspot_y || other.rgba_data@
            != image.rgba_data@) ==> t.image is Some && t.image->0@ == other@,
{
    assert(picture(b.last_image) == Some(image@));
    assert(picture(s.image) is Some <==> s.image is Some);
    assert(picture(t.image) is Some <==> t.image is Some);
}

/// How far a stage of drawing is.
pub open spec fn reached(stage: DrawStage) -> int {
    match stage {
        DrawStage::ScreenContext => 0,
        DrawStage::MemoryContext => 1,
        DrawStage::CreateBitmap => 2,
        DrawStage::MapBits => 3,
        DrawStage::Draw => 4,
    }
}

/// Wherever drawing ends, what was made by then is released, once, the newest first: the
/// screen until there is a bitmap, the context once it was made, the bitmap once it was made.
pub proof fn law_drawing_leaves_nothing_behind(stage: DrawStage, i: int, j: int)
    ensures
        ({
            let r = released_at(stage);
            &&& r.contains(DrawRelease::ReleaseScreen) <==> 1 <= reached(stage) <= 2
            &&& r.contains(DrawRelease::DeleteContext) <==> reached(stage) >= 2
            &&& r.contains(DrawRelease::DeleteBitmap) <==> reached(stage) >= 3
            &&& r.contains(DrawRelease::Reselect) <==> reached(stage) == 4
            &&& 0 <= i < j < r.len() ==> r[i] != r[j]
            &&& r.len() > 0 && reached(stage) == 4 ==> r[0] == DrawRelease::Reselect
            &&& r.len() > 0 && reached(stage) >= 3 ==> r.last() == DrawRelease::DeleteContext
            &&& r.len() > 0 && reached(stage) <= 2 ==> r.last() == DrawRelease::ReleaseScreen
        }),
{
    let r = released_at(stage);
    if r.len() > 0 {
        assert(r.contains(r[0]));
    }
    if r.len() > 1 {
        assert(r.contains(r[1]));
    }
    if r.len() > 2 {
        assert(r.contains(r[2]));
    }
}

/// A picture that could not be had is noted while the cursor shows, and the note stays while
/// the cursor is hidden; the last picture stays as it was.
pub proof fn law_a_missing_picture_is_noted(
    a: WindowsCursorCapture,
    b: WindowsCursorCapture,
    c: WindowsCursorCapture,
    x: i32,
    y: i32,
    kind: CursorKind,
    image: Option<CursorImage>,
    s: CursorState,
    t: CursorState,
)
    requires
        cursor_seen(a, b, x, y, true, kind, None, s),
        cursor_seen(b, c, x, y, false, kind, image, t),
    ensures
        b.logged_image_failure && c.logged_image_failure,
        s.image is None && t.image is None,
        picture(c.last_image) == picture(a.last_image),
{
    assert(picture(s.image) is Some <==> s.image is Some);
    assert(picture(t.image) is Some <==> t.image is Some);
}

} // verus!
