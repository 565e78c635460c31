//! Following the cursor of an X server: its place by the pointer query, its look
//! by the XFixes extension.

use crate::error::{ErrorView, MediaError};
use crate::text::{chars_of, is_text, lower_all, lowered};
use crate::types::{picture, CursorImage, CursorKind, CursorState, PictureView};
use vstd::prelude::*;

verus! {

/// A cursor as XFixes gives it.
#[derive(Debug)]
pub struct XfixesImage {
    pub x: i16,
    pub y: i16,
    pub width: u16,
    pub height: u16,
    pub xhot: u16,
    pub yhot: u16,
    pub name: Option<String>,
    /// Alpha, red, green and blue from the highest of the lower four bytes down;
    /// `None` where the server gives no pixels.
    pub pixels: Option<Vec<u64>>,
}

impl XfixesImage {
    /// There are as many pixels as the size says.
    pub open spec fn wf(&self) -> bool {
        self.pixels matches Some(p) ==> p@.len() == self.width * self.height
    }
}

/// What tells one cursor shape from another.
#[derive(Debug)]
pub struct CursorShapeKey {
    pub name: Option<Vec<char>>,
    pub width: u32,
    pub height: u32,
    pub hotspot_x: u32,
    pub hotspot_y: u32,
    pub pixels: Vec<u64>,
}

/// A [`CursorShapeKey`] with its parts as sequences.
pub struct ShapeView {
    pub name: Option<Seq<char>>,
    pub width: u32,
    pub height: u32,
    pub hotspot_x: u32,
    pub hotspot_y: u32,
    pub pixels: Seq<u64>,
}

impl View for CursorShapeKey {
    type V = ShapeView;

    open spec fn view(&self) -> ShapeView {
        ShapeView {
            name: match self.name {
                Some(n) => Some(n@),
                None => None,
            },
            width: self.width,
            height: self.height,
            hotspot_x: self.hotspot_x,
            hotspot_y: self.hotspot_y,
            pixels: self.pixels@,
        }
    }
}

fn same_pixels(a: &Vec<u64>, b: &Vec<u64>) -> (r: bool)
    ensures
        r == (a@ == b@),
{
    if a.len() != b.len() {
        return false;
    }
    for i in 0..a.len()
        invariant
            a@.len() == b@.len(),
            forall|j: int| 0 <= j < i ==> a@[j] == b@[j],
    {
        if a[i] != b[i] {
            return false;
        }
    }
    assert(a@ =~= b@);
    true
}

fn same_chars(a: &Vec<char>, b: &Vec<char>) -> (r: bool)
    ensures
        r == (a@ == b@),
{
    if a.len() != b.len() {
        return false;
    }
    for i in 0..a.len()
        invariant
            a@.len() == b@.len(),
            forall|j: int| 0 <= j < i ==> a@[j] == b@[j],
    {
        if a[i] != b[i] {
            return false;
        }
    }
    assert(a@ =~= b@);
    true
}

impl CursorShapeKey {
    fn same(&self, other: &CursorShapeKey) -> (r: bool)
        ensures
            r == (self@ == other@),
    {
        let names: bool = match (&self.name, &other.name) {
            (Some(a), Some(b)) => same_chars(a, b),
            (None, None) => true,
            _ => false,
        };
        names && self.width == other.width && self.height == other.height && self.hotspot_x
            == other.hotspot_x && self.hotspot_y == other.hotspot_y && same_pixels(
            &self.pixels,
            &other.pixels,
        )
    }
}

// ---- Kinds ----

pub open spec fn apart(a: int, b: int) -> int {
    if a < b {
        b - a
    } else {
        a - b
    }
}

/// The kind of a cursor without a known name: a large one that points from its
/// middle moves things.
pub open spec fn unnamed_kind(width: u32, height: u32, hotspot_x: u32, hotspot_y: u32) -> Option<
    CursorKind,
> {
    if width >= 30 && height >= 30 && apart(hotspot_x as int, width as int / 2) <= 2 && apart(
        hotspot_y as int,
        height as int / 2,
    ) <= 2 {
        Some(CursorKind::Move)
    } else {
        None
    }
}

fn distance(a: u32, b: u32) -> (r: u32)
    ensures
        r == apart(a as int, b as int),
{
    if a < b {
        b - a
    } else {
        a - b
    }
}

/// The kind of a cursor without a known name.
pub fn infer_cursor_kind_from_unnamed_image(
    width: u32,
    height: u32,
    hotspot_x: u32,
    hotspot_y: u32,
) -> (r: Option<CursorKind>)
    ensures
        r == unnamed_kind(width, height, hotspot_x, hotspot_y),
{
    if width >= 30 && height >= 30 && distance(hotspot_x, width / 2) <= 2 && distance(
        hotspot_y,
        height / 2,
    ) <= 2 {
        Some(CursorKind::Move)
    } else {
        None
    }
}

/// `s` without dashes and underscores.
pub open spec fn without_marks(s: Seq<char>) -> Seq<char>
    decreases s.len(),
{
    if s.len() == 0 {
        Seq::empty()
    } else if s.last() == '-' || s.last() == '_' {
        without_marks(s.drop_last())
    } else {
        without_marks(s.drop_last()).push(s.last())
    }
}

/// The plain form of a cursor's name: small letters, no dashes or underscores;
/// none where nothing is left.
pub open spec fn plain_name(name: Option<Seq<char>>) -> Option<Seq<char>> {
    match name {
        None => None,
        Some(n) => {
            let plain = without_marks(lower_all(n));
            if plain.len() == 0 {
                None
            } else {
                Some(plain)
            }
        },
    }
}

/// The plain form of a cursor's name.
pub fn xfixes_cursor_name(name: Option<&str>) -> (r: Option<Vec<char>>)
    ensures
        (match r {
            Some(v) => Some(v@),
            None => None,
        }) == plain_name(
            match name {
                Some(n) => Some(n@),
                None => None,
            },
        ),
{
    match name {
        None => None,
        Some(n) => {
            let text: Vec<char> = chars_of(n);
            let small: Vec<char> = lowered(text.as_slice());
            let mut r: Vec<char> = Vec::new();
            assert(small@.take(0) =~= Seq::<char>::empty());
            for i in 0..small.len()
                invariant
                    r@ == without_marks(small@.take(i as int)),
            {
                proof {
                    crate::text::lemma_take_step(small@, i as int);
                }
                let c: char = small[i];
                if c != '-' && c != '_' {
                    r.push(c);
                }
            }
            assert(small@.take(small@.len() as int) =~= small@);
            if r.len() == 0 {
                None
            } else {
                Some(r)
            }
        },
    }
}

/// The kind that a plain name stands for.
pub open spec fn named_kind(n: Seq<char>) -> Option<CursorKind> {
    if n == "xterm"@ || n == "text"@ || n == "ibeam"@ {
        Some(CursorKind::IBeam)
    } else if n == "hand"@ || n == "hand1"@ || n == "hand2"@ || n == "pointer"@ || n
        == "openhand"@ || n == "dndcopy"@ || n == "dndlink"@ || n == "dndask"@ {
        Some(CursorKind::Hand)
    } else if n == "cross"@ || n == "crosshair"@ || n == "tcross"@ || n == "diamondcross"@ {
        Some(CursorKind::Cross)
    } else if n == "fleur"@ || n == "4498f0e0c1937ffe01fd06f973665830"@ || n == "move"@ || n
        == "allscroll"@ || n == "sizeall"@ || n == "grab"@ || n == "grabbed"@ || n == "grabbing"@
        || n == "drag"@ || n == "dragging"@ || n == "closedhand"@ || n == "dndmove"@ {
        Some(CursorKind::Move)
    } else if n == "sbvdoublearrow"@ || n == "sizens"@ || n == "nsresize"@ || n == "rowresize"@
        || n == "nresize"@ || n == "sresize"@ {
        Some(CursorKind::ResizeNs)
    } else if n == "sbhdoublearrow"@ || n == "sizewe"@ || n == "ewresize"@ || n == "colresize"@
        || n == "eresize"@ || n == "wresize"@ {
        Some(CursorKind::ResizeEw)
    } else if n == "sizenesw"@ || n == "neswresize"@ || n == "neresize"@ || n == "swresize"@ {
        Some(CursorKind::ResizeNesw)
    } else if n == "sizenwse"@ || n == "nwseresize"@ || n == "nwresize"@ || n == "seresize"@ {
        Some(CursorKind::ResizeNwse)
    } else if n == "notallowed"@ || n == "no"@ || n == "crossedcircle"@ || n == "forbidden"@ || n
        == "dndnone"@ {
        Some(CursorKind::Unavailable)
    } else if n == "leftptr"@ || n == "default"@ || n == "arrow"@ || n == "topleftarrow"@ {
        Some(CursorKind::Arrow)
    } else {
        None
    }
}

/// The kind that a plain name stands for.
pub fn cursor_kind_from_xfixes_name(n: &[char]) -> (r: Option<CursorKind>)
    ensures
        r == named_kind(n@),
{
    if is_text(n, "xterm") || is_text(n, "text") || is_text(n, "ibeam") {
        Some(CursorKind::IBeam)
    } else if is_text(n, "hand") || is_text(n, "hand1") || is_text(n, "hand2") || is_text(
        n,
        "pointer",
    ) || is_text(n, "openhand") || is_text(n, "dndcopy") || is_text(n, "dndlink") || is_text(
        n,
        "dndask",
    ) {
        Some(CursorKind::Hand)
    } else if is_text(n, "cross") || is_text(n, "crosshair") || is_text(n, "tcross") || is_text(
        n,
        "diamondcross",
    ) {
        Some(CursorKind::Cross)
    } else if is_text(n, "fleur") || is_text(n, "4498f0e0c1937ffe01fd06f973665830") || is_text(
        n,
        "move",
    ) || is_text(n, "allscroll") || is_text(n, "sizeall") || is_text(n, "grab") || is_text(
        n,
        "grabbed",
    ) || is_text(n, "grabbing") || is_text(n, "drag") || is_text(n, "dragging") || is_text(
        n,
        "closedhand",
    ) || is_text(n, "dndmove") {
        Some(CursorKind::Move)
    } else if is_text(n, "sbvdoublearrow") || is_text(n, "sizens") || is_text(n, "nsresize")
        || is_text(n, "rowresize") || is_text(n, "nresize") || is_text(n, "sresize") {
        Some(CursorKind::ResizeNs)
    } else if is_text(n, "sbhdoublearrow") || is_text(n, "sizewe") || is_text(n, "ewresize")
        || is_text(n, "colresize") || is_text(n, "eresize") || is_text(n, "wresize") {
        Some(CursorKind::ResizeEw)
    } else if is_text(n, "sizenesw") || is_text(n, "neswresize") || is_text(n, "neresize")
        || is_text(n, "swresize") {
        Some(CursorKind::ResizeNesw)
    } else if is_text(n, "sizenwse") || is_text(n, "nwseresize") || is_text(n, "nwresize")
        || is_text(n, "seresize") {
        Some(CursorKind::ResizeNwse)
    } else if is_text(n, "notallowed") || is_text(n, "no") || is_text(n, "crossedcircle")
        || is_text(n, "forbidden") || is_text(n, "dndnone") {
        Some(CursorKind::Unavailable)
    } else if is_text(n, "leftptr") || is_text(n, "default") || is_text(n, "arrow") || is_text(
        n,
        "topleftarrow",
    ) {
        Some(CursorKind::Arrow)
    } else {
        None
    }
}

// ---- Pixels ----

/// A byte of a pixel: `shift` bits up.
pub open spec fn pixel_byte(pixel: u64, shift: int) -> u8 {
    (((pixel as u32) >> shift) & 0xff) as u8
}

/// Pixels as red, green, blue and alpha.
pub open spec fn rgba_of(pixels: Seq<u64>) -> Seq<u8>
    decreases pixels.len(),
{
    if pixels.len() == 0 {
        Seq::empty()
    } else {
        let p = pixels.last();
        rgba_of(pixels.drop_last()) + seq![
            pixel_byte(p, 16),
            pixel_byte(p, 8),
            pixel_byte(p, 0),
            pixel_byte(p, 24),
        ]
    }
}

fn to_rgba(pixels: &Vec<u64>) -> (r: Vec<u8>)
    ensures
        r@ == rgba_of(pixels@),
{
    let mut r: Vec<u8> = Vec::new();
    assert(pixels@.take(0) =~= Seq::<u64>::empty());
    for i in 0..pixels.len()
        invariant
            r@ == rgba_of(pixels@.take(i as int)),
    {
        let ghost before = r@;
        let p: u64 = pixels[i];
        let argb: u32 = p as u32;
        r.push(((argb >> 16) & 0xff) as u8);
        r.push(((argb >> 8) & 0xff) as u8);
        r.push((argb & 0xff) as u8);
        r.push(((argb >> 24) & 0xff) as u8);
        proof {
            assert(argb >> 0 == argb) by (bit_vector);
            assert(pixels@.take(i as int + 1).drop_last() =~= pixels@.take(i as int));
            assert(r@ =~= before + seq![
                pixel_byte(p, 16),
                pixel_byte(p, 8),
                pixel_byte(p, 0),
                pixel_byte(p, 24),
            ]);
        }
    }
    assert(pixels@.take(pixels@.len() as int) =~= pixels@);
    r
}

proof fn lemma_four_bytes_a_pixel(pixels: Seq<u64>)
    ensures
        rgba_of(pixels).len() == 4 * pixels.len(),
    decreases pixels.len(),
{
    if pixels.len() > 0 {
        lemma_four_bytes_a_pixel(pixels.drop_last());
    }
}

// ---- The capture ----

/// The cursor of an X server.
pub struct LinuxCursorCapture {
    pub last_state: CursorState,
    /// The X server is there and has XFixes.
    pub connected: bool,
    /// The shape that was handed out last.
    pub last_cursor_shape: Option<CursorShapeKey>,
    pub active: bool,
}

/// The shape of an image whose pixels are known.
pub open spec fn shape_of(image: XfixesImage) -> ShapeView {
    ShapeView {
        name: plain_name(
            match image.name {
                Some(n) => Some(n@),
                None => None,
            },
        ),
        width: image.width as u32,
        height: image.height as u32,
        hotspot_x: image.xhot as u32,
        hotspot_y: image.yhot as u32,
        pixels: image.pixels->0@,
    }
}

/// Whether an image can be shown.
pub open spec fn shown(image: XfixesImage) -> bool {
    image.width > 0 && image.height > 0 && image.pixels is Some
}

/// The kind after an image came, where it was `kind`: the one its name stands
/// for, else the one its shape suggests; an image without pixels and without a
/// known name leaves it.
pub open spec fn kind_after(kind: CursorKind, image: XfixesImage) -> CursorKind {
    let named = match shape_of(image).name {
        Some(n) => named_kind(n),
        None => None,
    };
    match named {
        Some(k) => k,
        None => if shown(image) {
            match unnamed_kind(
                image.width as u32,
                image.height as u32,
                image.xhot as u32,
                image.yhot as u32,
            ) {
                Some(k) => k,
                None => CursorKind::Unknown,
            }
        } else {
            kind
        },
    }
}

/// The shape handed out last after an image came.
pub open spec fn shape_after(last: Option<ShapeView>, image: XfixesImage) -> Option<ShapeView> {
    if shown(image) {
        Some(shape_of(image))
    } else {
        last
    }
}

/// The picture handed out for an image: only a shape other than the last one.
pub open spec fn picture_after(last: Option<ShapeView>, image: XfixesImage) -> Option<PictureView> {
    if shown(image) && last != Some(shape_of(image)) {
        Some(
            PictureView {
                width: image.width as u32,
                height: image.height as u32,
                hotspot_x: image.xhot as u32,
                hotspot_y: image.yhot as u32,
                rgba_data: rgba_of(image.pixels->0@),
            },
        )
    } else {
        None
    }
}

pub open spec fn last_shape(key: Option<CursorShapeKey>) -> Option<ShapeView> {
    match key {
        Some(k) => Some(k@),
        None => None,
    }
}

/// Whether `s` is the cursor's state after the server was asked for the pointer and for the
/// image, and `after` the capture then.
pub open spec fn cursor_followed(
    before: LinuxCursorCapture,
    after: LinuxCursorCapture,
    pointer: Option<(i32, i32)>,
    image: Option<XfixesImage>,
    s: CursorState,
) -> bool {
    let last = before.last_state;
    &&& before.active && after.active
    &&& after.connected == before.connected
    &&& s.x == (match (image, pointer) {
        (Some(i), _) => i.x as i32,
        (None, Some(p)) => p.0,
        (None, None) => last.x,
    })
    &&& s.y == (match (image, pointer) {
        (Some(i), _) => i.y as i32,
        (None, Some(p)) => p.1,
        (None, None) => last.y,
    })
    &&& s.visible == (pointer is Some || last.visible)
    &&& s.kind == (match image {
        Some(i) => kind_after(last.kind, i),
        None => last.kind,
    })
    &&& picture(s.image) == (match image {
        Some(i) => picture_after(last_shape(before.last_cursor_shape), i),
        None => None,
    })
    &&& last_shape(after.last_cursor_shape) == (match image {
        Some(i) => shape_after(last_shape(before.last_cursor_shape), i),
        None => last_shape(before.last_cursor_shape),
    })
    &&& after.last_state == (CursorState { image: None, ..s })
}

impl LinuxCursorCapture {
    /// A capture that has not started: the cursor is a visible arrow at the
    /// origin.
    pub fn new() -> (r: Self)
        ensures
            !r.active,
            !r.connected,
            r.last_cursor_shape is None,
            r.last_state == (CursorState {
                x: 0,
                y: 0,
                visible: true,
                kind: CursorKind::Arrow,
                image: None,
            }),
    {
        LinuxCursorCapture {
            last_state: CursorState {
                x: 0,
                y: 0,
                visible: true,
                kind: CursorKind::Arrow,
                image: None,
            },
            connected: false,
            last_cursor_shape: None,
            active: false,
        }
    }

    /// Whether the X server is to be opened: not twice, and only where the
    /// environment names one.
    pub fn wants_x11(&self, display_set: bool) -> (b: bool)
        ensures
            b == (!self.connected && display_set),
    {
        !self.connected && display_set
    }

    /// Starts following the cursor. `opened` says whether a server with XFixes
    /// was opened; without one the cursor stays where it was.
    pub fn start(&mut self, opened: bool)
        ensures
            *final(self) == (LinuxCursorCapture {
                connected: old(self).connected || opened,
                active: true,
                ..*old(self)
            }),
    {
        if opened {
            self.connected = true;
        }
        self.active = true;
    }

    /// Takes up an image.
    fn take_image(&mut self, image: XfixesImage) -> (r: Option<CursorImage>)
        ensures
            final(self).connected == old(self).connected,
            final(self).active == old(self).active,
            final(self).last_state == (CursorState {
                x: image.x as i32,
                y: image.y as i32,
                kind: kind_after(old(self).last_state.kind, image),
                ..old(self).last_state
            }),
            last_shape(final(self).last_cursor_shape) == shape_after(
                last_shape(old(self).last_cursor_shape),
                image,
            ),
            picture(r) == picture_after(last_shape(old(self).last_cursor_shape), image),
    {
        self.last_state.x = image.x as i32;
        self.last_state.y = image.y as i32;
        let name: Option<Vec<char>> = match &image.name {
            Some(n) => xfixes_cursor_name(Some(n.as_str())),
            None => None,
        };
        let named: Option<CursorKind> = match &name {
            Some(n) => cursor_kind_from_xfixes_name(n.as_slice()),
            None => None,
        };
        if let Some(kind) = named {
            self.last_state.kind = kind;
        }
        let width: u32 = image.width as u32;
        let height: u32 = image.height as u32;
        let hotspot_x: u32 = image.xhot as u32;
        let hotspot_y: u32 = image.yhot as u32;
        if width == 0 || height == 0 {
            return None;
        }
        match image.pixels {
            None => None,
            Some(pixels) => {
                if named.is_none() {
                    self.last_state.kind = match infer_cursor_kind_from_unnamed_image(
                        width,
                        height,
                        hotspot_x,
                        hotspot_y,
                    ) {
                        Some(k) => k,
                        None => CursorKind::Unknown,
                    };
                }
                let key = CursorShapeKey { name, width, height, hotspot_x, hotspot_y, pixels };
                if let Some(last) = &self.last_cursor_shape {
                    if last.same(&key) {
                        return None;
                    }
                }
                let rgba: Vec<u8> = to_rgba(&key.pixels);
                self.last_cursor_shape = Some(key);
                Some(CursorImage { width, height, hotspot_x, hotspot_y, rgba_data: rgba })
            },
        }
    }

    /// Where the cursor is and what it looks like, after the server was asked
    /// for the pointer and for the cursor's image. A picture comes with it only
    /// where the shape changed.
    pub fn get_cursor_state(
        &mut self,
        pointer: Option<(i32, i32)>,
        image: Option<XfixesImage>,
    ) -> (r: Result<CursorState, MediaError>)
        requires
            !old(self).connected ==> pointer is None && image is None,
        ensures
            match r {
                Err(e) => !old(self).active && e@ == ErrorView::CursorError(
                    "Cursor capture not started"@,
                ) && *final(self) == *old(self),
                Ok(s) => cursor_followed(*old(self), *final(self), pointer, image, s),
            },
    {
        if !self.active {
            return Err(MediaError::cursor("Cursor capture not started"));
        }
        if let Some((x, y)) = pointer {
            self.last_state.x = x;
            self.last_state.y = y;
            self.last_state.visible = true;
        }
        let shown: Option<CursorImage> = match image {
            Some(i) => self.take_image(i),
            None => None,
        };
        self.last_state.image = None;
        Ok(
            CursorState {
                x: self.last_state.x,
                y: self.last_state.y,
                visible: self.last_state.visible,
                kind: self.last_state.kind,
                image: shown,
            },
        )
    }

    /// Stops following the cursor. The server is to be closed where this
    /// returns `true`.
    pub fn stop(&mut self) -> (close: bool)
        ensures
            close == old(self).connected,
            *final(self) == (LinuxCursorCapture { active: false, connected: false, ..*old(self) }),
    {
        let close: bool = self.connected;
        self.active = false;
        self.connected = false;
        close
    }
}

/// A shape that was just handed out is not handed out again, and one that
/// differs is.
pub proof fn law_a_shape_is_handed_out_once(last: Option<ShapeView>, a: XfixesImage, b: XfixesImage)
    requires
        shown(a),
        shown(b),
    ensures
        picture_after(shape_after(last, a), b) is None <==> shape_of(a) == shape_of(b),
{
}

/// A picture that is handed out holds four bytes for each of its pixels.
pub proof fn law_pictures_hold_every_pixel(last: Option<ShapeView>, image: XfixesImage)
    requires
        image.wf(),
    ensures
        picture_after(last, image) matches Some(p) ==> p.rgba_data.len() == p.width * p.height * 4,
{
    if shown(image) {
        lemma_four_bytes_a_pixel(image.pixels->0@);
    }
}

/// Pixels that hold alpha, red, green and blue from their 32 low bits down become red,
/// green, blue and alpha: every one keeps its bits, at its own place.
pub proof fn law_server_pixels_keep_their_colours(pixels: Seq<u64>, i: int)
    requires
        0 <= i < pixels.len(),
    ensures
        rgba_of(pixels).len() == 4 * pixels.len(),
        ({
            let b = rgba_of(pixels);
            0x1_0000 * b[4 * i] + 0x100 * b[4 * i + 1] + b[4 * i + 2] + 0x100_0000 * b[4 * i + 3]
                == pixels[i] % 0x1_0000_0000
        }),
    decreases pixels.len(),
{
    let f = pixels.drop_last();
    lemma_four_bytes_a_pixel(pixels);
    lemma_four_bytes_a_pixel(f);
    if i < f.len() {
        law_server_pixels_keep_their_colours(f, i);
        assert(f[i] == pixels[i]);
        let b = rgba_of(pixels);
        let c = rgba_of(f);
        assert(b[4 * i] == c[4 * i] && b[4 * i + 1] == c[4 * i + 1] && b[4 * i + 2] == c[4 * i + 2]
            && b[4 * i + 3] == c[4 * i + 3]);
    } else {
        let x = pixels[i];
        let p = x as u32;
        assert(0x1_0000 * (((p >> 16) & 0xff) as u8) + 0x100 * (((p >> 8) & 0xff) as u8) + (((p
            >> 0) & 0xff) as u8) + 0x100_0000 * (((p >> 24) & 0xff) as u8) == p) by (bit_vector);
        assert(x as u32 == x % 0x1_0000_0000) by (bit_vector);
        assert(x == pixels.last());
    }
}

/// The cursor is where the server shows it, by its image, which is the later word, else by
/// the pointer, and stays there where the server says nothing. Its picture has the image's
/// size, hotspot and pixels. One image asked for twice gives its picture once, and no image
/// gives none.
pub proof fn law_the_cursor_is_followed(
    c: LinuxCursorCapture,
    d: LinuxCursorCapture,
    e: LinuxCursorCapture,
    pointer: Option<(i32, i32)>,
    again: Option<(i32, i32)>,
    image: XfixesImage,
    s: CursorState,
    t: CursorState,
    u: CursorState,
    end: LinuxCursorCapture,
)
    requires
        cursor_followed(c, d, pointer, Some(image), s),
        cursor_followed(d, e, again, Some(image), t),
        cursor_followed(e, end, again, None, u),
    ensures
        s.x == image.x && s.y == image.y,
        t.x == image.x && t.y == image.y,
        again is Some ==> (u.x, u.y) == again->0,
        again is None ==> u.x == t.x && u.y == t.y && u.visible == t.visible,
        pointer is Some ==> s.visible,
        s.visible ==> t.visible && u.visible,
        t.image is None && u.image is None,
        s.image is Some ==> {
            let p = s.image->0;
            &&& p.width == image.width && p.height == image.height
            &&& p.hotspot_x == image.xhot && p.hotspot_y == image.yhot
            &&& image.pixels is Some && p.rgba_data@ == rgba_of(image.pixels->0@)
        },
        c.last_cursor_shape is None && image.width > 0 && image.height > 0 && image.pixels is Some
            ==> s.image is Some,
        u.kind == t.kind,
        t.kind == s.kind,
{
    assert(picture(t.image) is None);
    assert(picture(u.image) is None);
    if s.image is Some {
        assert(picture(s.image) is Some);
    }
}

/// The kind of a cursor without a name is that of moving where its hotspot is in its middle
/// and it is large in both directions, whichever of the two is which.
pub proof fn law_moving_cursors_point_from_their_middle(w: u32, h: u32, x: u32, y: u32)
    ensures
        unnamed_kind(w, h, x, y) == unnamed_kind(h, w, y, x),
        w < 30 ==> unnamed_kind(w, h, x, y) is None,
        w >= 30 && h >= 30 && 2 * x == w && 2 * y == h ==> unnamed_kind(w, h, x, y) == Some(
            CursorKind::Move,
        ),
        x + 3 <= w / 2 || x >= w / 2 + 3 ==> unnamed_kind(w, h, x, y) is None,
        unnamed_kind(w, h, x, y) is None || unnamed_kind(w, h, x, y) == Some(CursorKind::Move),
{
}

proof fn lemma_marks_are_dropped(a: Seq<char>, mark: char, b: Seq<char>)
    requires
        mark == '-' || mark == '_',
    ensures
        without_marks(a.push(mark) + b) == without_marks(a + b),
    decreases b.len(),
{
    if b.len() == 0 {
        assert(a.push(mark) + b =~= a.push(mark));
        assert(a + b =~= a);
        assert(a.push(mark).drop_last() =~= a);
    } else {
        let f = b.drop_last();
        lemma_marks_are_dropped(a, mark, f);
        assert((a.push(mark) + b).drop_last() =~= a.push(mark) + f);
        assert((a + b).drop_last() =~= a + f);
    }
}

/// A dash or an underscore in a cursor's name makes no difference, wherever it stands, and
/// every other character does.
pub proof fn law_marks_in_names_make_no_difference(
    a: Seq<char>,
    mark: char,
    b: Seq<char>,
    c: char,
)
    requires
        mark == '-' || mark == '_',
        c != '-' && c != '_',
    ensures
        without_marks(a.push(mark) + b) == without_marks(a + b),
        without_marks(a.push(c)) == without_marks(a).push(c),
{
    lemma_marks_are_dropped(a, mark, b);
    assert(a.push(c).drop_last() =~= a);
}

/// A name that is known decides what a cursor stands for; without one its shape does, where
/// the cursor shows, and a cursor that shows nothing keeps what it stood for.
pub proof fn law_a_known_name_decides(kind: CursorKind, image: XfixesImage, name: Seq<char>)
    ensures
        shape_of(image).name == Some(name) && named_kind(name) is Some ==> kind_after(kind, image)
            == named_kind(name)->0,
        shape_of(image).name is None && !(image.width > 0 && image.height > 0 && image.pixels is Some)
            ==> kind_after(kind, image) == kind,
        shape_of(image).name is None && image.width >= 30 && image.height >= 30 && image.pixels is Some
            && 2 * image.xhot == image.width && 2 * image.yhot == image.height ==> kind_after(
            kind,
            image,
        ) == CursorKind::Move,
        shape_of(image).name is None && 0 < image.width < 30 && image.height > 0
            && image.pixels is Some ==> kind_after(kind, image) == CursorKind::Unknown,
{
}

/// Whether a text has one of two letters.
pub open spec fn has_either(s: Seq<char>, a: char, b: char) -> bool {
    s.contains(a) || s.contains(b)
}

/// A cursor whose name says that it resizes, and towards which sides, in one to four letters
/// other than three, stands for those sides: north and south alone, east and west alone, or
/// the diagonal that its first two letters begin.
#[verifier::rlimit(60)]
pub proof fn law_resizing_cursors_say_where(n: Seq<char>, sides: Seq<char>)
    requires
        n == sides + "resize"@,
        sides.len() != 3,
    ensures
        named_kind(n) == Some(CursorKind::ResizeNs) ==> has_either(sides, 'n', 's') && !has_either(
            sides,
            'e',
            'w',
        ),
        named_kind(n) == Some(CursorKind::ResizeEw) ==> has_either(sides, 'e', 'w') && !has_either(
            sides,
            'n',
            's',
        ),
        named_kind(n) == Some(CursorKind::ResizeNesw) ==> sides.len() >= 2 && ((sides[0] == 'n'
            && sides[1] == 'e') || (sides[0] == 's' && sides[1] == 'w')),
        named_kind(n) == Some(CursorKind::ResizeNwse) ==> sides.len() >= 2 && ((sides[0] == 'n'
            && sides[1] == 'w') || (sides[0] == 's' && sides[1] == 'e')),
{
    reveal_strlit("resize");
    reveal_strlit("sbvdoublearrow");
    reveal_strlit("sizens");
    reveal_strlit("nsresize");
    reveal_strlit("rowresize");
    reveal_strlit("nresize");
    reveal_strlit("sresize");
    reveal_strlit("sbhdoublearrow");
    reveal_strlit("sizewe");
    reveal_strlit("ewresize");
    reveal_strlit("colresize");
    reveal_strlit("eresize");
    reveal_strlit("wresize");
    reveal_strlit("sizenesw");
    reveal_strlit("neswresize");
    reveal_strlit("neresize");
    reveal_strlit("swresize");
    reveal_strlit("sizenwse");
    reveal_strlit("nwseresize");
    reveal_strlit("nwresize");
    reveal_strlit("seresize");
    let k = sides.len() as int;
    assert forall|i: int| 0 <= i < k implies sides[i] == n[i] by {}
    assert(n.len() == k + 6);
    assert(n[k] == 'r' && n[k + 1] == 'e' && n[k + 2] == 's');
    if named_kind(n) == Some(CursorKind::ResizeNs) {
        assert(n == "nsresize"@ || n == "nresize"@ || n == "sresize"@) by {
            assert(n != "sbvdoublearrow"@) by {
                if n == "sbvdoublearrow"@ {
                    assert(n[n.len() - 1] == 'w');
                    assert(n[k + 5] == 'e');
                }
            }
            assert(n != "sizens"@) by {
                if n == "sizens"@ {
                    assert(n[0] == 's');
                }
            }
            assert(n != "rowresize"@);
        }
        assert(sides[0] == n[0]);
    }
    if named_kind(n) == Some(CursorKind::ResizeEw) {
        assert(n == "ewresize"@ || n == "eresize"@ || n == "wresize"@) by {
            assert(n != "sbhdoublearrow"@) by {
                if n == "sbhdoublearrow"@ {
                    assert(n[n.len() - 1] == 'w');
                    assert(n[k + 5] == 'e');
                }
            }
            assert(n != "sizewe"@) by {
                if n == "sizewe"@ {
                    assert(n[0] == 's');
                }
            }
            assert(n != "colresize"@);
        }
        assert(sides[0] == n[0]);
    }
    if named_kind(n) == Some(CursorKind::ResizeNesw) {
        if n == "sizenesw"@ {
            assert(n[7] == 'w' && n[k + 5] == 'e');
        }
        assert(sides[0] == n[0] && sides[1] == n[1]);
    }
    if named_kind(n) == Some(CursorKind::ResizeNwse) {
        if n == "sizenwse"@ {
            assert(n[2] == 'z' && n[k] == 'r');
        }
        assert(sides[0] == n[0] && sides[1] == n[1]);
    }
}

/// Whether a name is one under which cursor themes keep the cursor of a kind.
pub open spec fn themed(n: Seq<char>, k: CursorKind) -> bool {
    match k {
        CursorKind::Arrow => n == "leftptr"@ || n == "default"@ || n == "arrow"@ || n
            == "topleftarrow"@,
        CursorKind::IBeam => n == "xterm"@ || n == "text"@ || n == "ibeam"@,
        CursorKind::Hand => n == "pointer"@ || n == "hand"@ || n == "hand1"@ || n == "hand2"@ || n
            == "openhand"@ || n == "dndcopy"@ || n == "dndlink"@ || n == "dndask"@,
        CursorKind::Cross => n == "cross"@ || n == "crosshair"@ || n == "tcross"@ || n
            == "diamondcross"@,
        CursorKind::Move => n == "move"@ || n == "fleur"@ || n == "allscroll"@ || n == "sizeall"@
            || n == "grab"@ || n == "grabbed"@ || n == "grabbing"@ || n == "drag"@ || n
            == "dragging"@ || n == "closedhand"@ || n == "dndmove"@ || n
            == "4498f0e0c1937ffe01fd06f973665830"@,
        CursorKind::Unavailable => n == "no"@ || n == "notallowed"@ || n == "forbidden"@ || n
            == "crossedcircle"@ || n == "dndnone"@,
        CursorKind::ResizeNs => n == "sizens"@ || n == "sbvdoublearrow"@ || n == "rowresize"@ || n
            == "nsresize"@ || n == "nresize"@ || n == "sresize"@,
        CursorKind::ResizeEw => n == "sizewe"@ || n == "sbhdoublearrow"@ || n == "colresize"@ || n
            == "ewresize"@ || n == "eresize"@ || n == "wresize"@,
        CursorKind::ResizeNesw => n == "sizenesw"@ || n == "neswresize"@ || n == "neresize"@ || n
            == "swresize"@,
        CursorKind::ResizeNwse => n == "sizenwse"@ || n == "nwseresize"@ || n == "nwresize"@ || n
            == "seresize"@,
        _ => false,
    }
}

/// A name stands for a kind only where themes keep that kind's cursor under it, and it stands
/// for one as soon as some theme keeps a cursor under it.
pub proof fn law_names_stand_for_their_cursors(n: Seq<char>, k: CursorKind)
    ensures
        named_kind(n) == Some(k) ==> themed(n, k),
        themed(n, k) ==> named_kind(n) is Some,
{
}

} // verus!
