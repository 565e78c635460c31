//! Capture of an X11 display: the displays that xrandr lists, the choice among
//! them and the capture's state.

use crate::capture::command::{CommandReply, ReplyView};
use crate::capture::overlay::{
    argb_bytes, cursor_byte, cursor_from_argb, draw_cursor, drawn,
    law_argb_pixels_keep_their_bits, law_solid_replaces_and_clear_keeps, CursorPlace, FrameLayout,
};
use crate::capture::{cpu_frame, is_cpu_frame, CapturedFrame};
use crate::error::{ErrorView, MediaError};
use crate::text::{
    begins_with, chars_of, contains_char, contains_text, dec, is_rate, is_text, is_zero_rate,
    law_pieces_stand_between_characters, law_written_numbers_are_read_back,
    law_written_signed_numbers_are_read_back, lemma_decimals_are_digits, lines, lines_of, occurs,
    parse_i32, parse_u32, rate_text, signed_dec, signed_of, split_char, split_on, string_of,
    strip_back, stripped, trim_back, trimmed, unsigned_of, views, words, words_of, zero_rate,
    CharClass,
};
use crate::types::{DisplayInfo, StreamConfig};
use vstd::prelude::*;

verus! {

/// A display with its place on the screen.
pub type PlacedDisplay = (DisplayInfo, i32, i32);

/// A placed display with its texts as character sequences.
pub struct DisplayView {
    pub id: Seq<char>,
    pub name: Seq<char>,
    pub width: u32,
    pub height: u32,
    pub refresh_rate: Seq<char>,
    pub is_primary: bool,
    pub x: i32,
    pub y: i32,
}

pub open spec fn placed(d: PlacedDisplay) -> DisplayView {
    DisplayView {
        id: d.0.id@,
        name: d.0.name@,
        width: d.0.width,
        height: d.0.height,
        refresh_rate: d.0.refresh_rate@,
        is_primary: d.0.is_primary,
        x: d.1,
        y: d.2,
    }
}

pub open spec fn all_placed(v: Seq<PlacedDisplay>) -> Seq<DisplayView> {
    v.map_values(|d: PlacedDisplay| placed(d))
}

/// The views of displays without a place.
pub open spec fn all_displays(v: Seq<DisplayInfo>) -> Seq<DisplayView> {
    v.map_values(|d: DisplayInfo| placed((d, 0i32, 0i32)))
}

// ---- Geometry ----

/// A geometry such as `1920x1080+3840+0`: width, height and place.
pub open spec fn geometry_of(part: Seq<char>) -> Option<(u32, u32, i32, i32)> {
    let pieces = split_on(part, '+');
    let dims = split_on(pieces[0], 'x');
    if pieces.len() >= 3 && dims.len() >= 2 {
        match (
            unsigned_of(dims[0], 0xffff_ffff),
            unsigned_of(dims[1], 0xffff_ffff),
            signed_of(pieces[1]),
            signed_of(pieces[2]),
        ) {
            (Some(w), Some(h), Some(x), Some(y)) => Some((w as u32, h as u32, x as i32, y as i32)),
            _ => None,
        }
    } else {
        None
    }
}

/// Whether a word looks like a geometry.
pub open spec fn geometry_word(part: Seq<char>) -> bool {
    part.contains('x') && part.contains('+')
}

/// The geometry in the first word that looks like one.
pub open spec fn first_geometry(parts: Seq<Seq<char>>) -> Option<(u32, u32, i32, i32)>
    decreases parts.len(),
{
    if parts.len() == 0 {
        None
    } else if geometry_word(parts[0]) {
        geometry_of(parts[0])
    } else {
        first_geometry(parts.skip(1))
    }
}

fn read_geometry(part: &[char]) -> (r: Option<(u32, u32, i32, i32)>)
    ensures
        r == geometry_of(part@),
{
    let pieces: Vec<Vec<char>> = split_char(part, '+');
    proof {
        crate::text::lemma_split_nonempty(part@, '+');
        assert(views(pieces@).len() == pieces@.len());
        assert(views(pieces@)[0] == pieces@[0]@);
    }
    let dims: Vec<Vec<char>> = split_char(pieces[0].as_slice(), 'x');
    assert(views(dims@).len() == dims@.len());
    if pieces.len() < 3 || dims.len() < 2 {
        return None;
    }
    proof {
        assert(views(pieces@)[1] == pieces@[1]@);
        assert(views(pieces@)[2] == pieces@[2]@);
        assert(views(dims@)[0] == dims@[0]@);
        assert(views(dims@)[1] == dims@[1]@);
    }
    match parse_u32(dims[0].as_slice()) {
        None => None,
        Some(w) => match parse_u32(dims[1].as_slice()) {
            None => None,
            Some(h) => match parse_i32(pieces[1].as_slice()) {
                None => None,
                Some(x) => match parse_i32(pieces[2].as_slice()) {
                    None => None,
                    Some(y) => Some((w, h, x, y)),
                },
            },
        },
    }
}

/// The geometry among the words of a line.
pub fn extract_xrandr_geometry(parts: &Vec<Vec<char>>) -> (r: Option<(u32, u32, i32, i32)>)
    ensures
        r == first_geometry(views(parts@)),
{
    let ghost all = views(parts@);
    assert(all.skip(0) =~= all);
    for i in 0..parts.len()
        invariant
            all == views(parts@),
            first_geometry(all.skip(i as int)) == first_geometry(all),
    {
        assert(all.skip(i as int)[0] == parts@[i as int]@);
        assert(all.skip(i as int).skip(1) =~= all.skip(i as int + 1));
        let part: &Vec<char> = &parts[i];
        if contains_char(part.as_slice(), 'x') && contains_char(part.as_slice(), '+') {
            return read_geometry(part.as_slice());
        }
    }
    None
}

// ---- Refresh rates ----

/// A rate without the marks behind it.
pub open spec fn bare_rate(word: Seq<char>) -> Seq<char> {
    strip_back(word, CharClass::RateMark)
}

/// The first marked rate among words.
pub open spec fn marked_rate(parts: Seq<Seq<char>>) -> Option<Seq<char>>
    decreases parts.len(),
{
    if parts.len() == 0 {
        None
    } else if parts[0].contains('*') && rate_text(bare_rate(parts[0])) {
        Some(bare_rate(parts[0]))
    } else {
        marked_rate(parts.skip(1))
    }
}

/// The rate in use that a mode line marks, behind the mode's own name.
pub open spec fn active_rate(line: Seq<char>) -> Option<Seq<char>> {
    let parts = words_of(line);
    if parts.len() == 0 {
        None
    } else {
        marked_rate(parts.skip(1))
    }
}

/// The rate in use that a mode line marks.
pub fn extract_active_refresh_rate(line: &[char]) -> (r: Option<Vec<char>>)
    ensures
        match r {
            Some(v) => active_rate(line@) == Some(v@),
            None => active_rate(line@) is None,
        },
{
    let parts: Vec<Vec<char>> = words(line);
    let ghost all = views(parts@);
    assert(all.len() == parts@.len());
    if parts.len() == 0 {
        return None;
    }
    for i in 1..parts.len()
        invariant
            all == views(parts@),
            all == words_of(line@),
            all.len() > 0,
            marked_rate(all.skip(i as int)) == marked_rate(all.skip(1)),
    {
        assert(all.skip(i as int)[0] == parts@[i as int]@);
        assert(all.skip(i as int).skip(1) =~= all.skip(i as int + 1));
        let part: &Vec<char> = &parts[i];
        if contains_char(part.as_slice(), '*') {
            let bare: Vec<char> = trim_back(part.as_slice(), CharClass::RateMark);
            if is_rate(bare.as_slice()) {
                return Some(bare);
            }
        }
    }
    None
}

// ---- The list of displays ----

/// A line that heads a connected output.
pub open spec fn header_line(line: Seq<char>) -> bool {
    !" "@.is_prefix_of(line) && occurs(" connected"@, line) && words_of(line).len() >= 2
}

/// The display that a header line tells of. Its rate is not known yet.
pub open spec fn header_display(line: Seq<char>) -> DisplayView {
    let parts = words_of(line);
    let g = match first_geometry(parts) {
        Some(g) => g,
        None => (0u32, 0u32, 0i32, 0i32),
    };
    DisplayView {
        id: parts[0],
        name: parts[0],
        width: g.0,
        height: g.1,
        refresh_rate: "0"@,
        is_primary: parts.contains("primary"@),
        x: g.2,
        y: g.3,
    }
}

/// The rate in use that a mode line brings to the display above it.
pub open spec fn mode_rate(line: Seq<char>) -> Option<Seq<char>> {
    let core = stripped(line, CharClass::White);
    if "   "@.is_prefix_of(line) && core.contains('*') {
        active_rate(core)
    } else {
        None
    }
}

/// The displays after one more line: a header adds one; the first rate in use
/// below it, other than zero, becomes its rate.
pub open spec fn after_line(ds: Seq<DisplayView>, line: Seq<char>) -> Seq<DisplayView> {
    if header_line(line) {
        ds.push(header_display(line))
    } else {
        match mode_rate(line) {
            Some(rate) => if ds.len() > 0 && zero_rate(ds.last().refresh_rate) {
                ds.drop_last().push(DisplayView { refresh_rate: rate, ..ds.last() })
            } else {
                ds
            },
            None => ds,
        }
    }
}

/// The displays that lines of xrandr's output tell of.
pub open spec fn displays_in(rows: Seq<Seq<char>>) -> Seq<DisplayView>
    decreases rows.len(),
{
    if rows.len() == 0 {
        Seq::empty()
    } else {
        after_line(displays_in(rows.drop_last()), rows.last())
    }
}

/// The connected displays that xrandr's output tells of.
pub open spec fn connected_displays(output: Seq<char>) -> Seq<DisplayView> {
    displays_in(lines_of(output))
}

fn has_word(parts: &Vec<Vec<char>>, t: &str) -> (b: bool)
    ensures
        b == views(parts@).contains(t@),
{
    for i in 0..parts.len()
        invariant
            forall|j: int| 0 <= j < i ==> (#[trigger] views(parts@)[j]) != t@,
    {
        if is_text(parts[i].as_slice(), t) {
            assert(views(parts@)[i as int] == t@);
            return true;
        }
    }
    false
}

fn read_header(line: &[char]) -> (r: Option<PlacedDisplay>)
    ensures
        match r {
            Some(d) => header_line(line@) && placed(d) == header_display(line@),
            None => !header_line(line@),
        },
{
    if begins_with(line, " ") || !contains_text(line, " connected") {
        return None;
    }
    let parts: Vec<Vec<char>> = words(line);
    assert(views(parts@).len() == parts@.len());
    if parts.len() < 2 {
        return None;
    }
    assert(views(parts@)[0] == parts@[0]@);
    let id: String = string_of(parts[0].as_slice());
    let is_primary: bool = has_word(&parts, "primary");
    let g: (u32, u32, i32, i32) = match extract_xrandr_geometry(&parts) {
        Some(g) => g,
        None => (0, 0, 0, 0),
    };
    let info = DisplayInfo {
        id: id.clone(),
        name: id,
        width: g.0,
        height: g.1,
        refresh_rate: "0".to_owned(),
        is_primary,
    };
    Some((info, g.2, g.3))
}

fn read_mode(line: &[char]) -> (r: Option<String>)
    ensures
        match r {
            Some(s) => mode_rate(line@) == Some(s@),
            None => mode_rate(line@) is None,
        },
{
    if !begins_with(line, "   ") {
        return None;
    }
    let core: Vec<char> = trimmed(line, CharClass::White);
    if !contains_char(core.as_slice(), '*') {
        return None;
    }
    match extract_active_refresh_rate(core.as_slice()) {
        Some(v) => Some(string_of(v.as_slice())),
        None => None,
    }
}

/// The connected displays that xrandr's output tells of, with their places.
pub fn parse_xrandr_output_with_offsets(output: &str) -> (r: Vec<PlacedDisplay>)
    ensures
        all_placed(r@) == connected_displays(output@),
{
    let text: Vec<char> = chars_of(output);
    let rows: Vec<Vec<char>> = lines(text.as_slice());
    let ghost all = lines_of(output@);
    let mut r: Vec<PlacedDisplay> = Vec::new();
    assert(all.take(0) =~= Seq::<Seq<char>>::empty());
    assert(all_placed(r@) =~= displays_in(all.take(0)));
    for i in 0..rows.len()
        invariant
            views(rows@) == all,
            all_placed(r@) == displays_in(all.take(i as int)),
    {
        let line: &Vec<char> = &rows[i];
        let ghost before = all_placed(r@);
        proof {
            assert(all[i as int] == line@);
            assert(all.take(i as int + 1).drop_last() =~= all.take(i as int));
            assert(all.take(i as int + 1).last() == line@);
            assert(before.len() == r@.len());
        }
        match read_header(line.as_slice()) {
            Some(d) => {
                r.push(d);
                assert(all_placed(r@) =~= before.push(header_display(line@)));
            },
            None => {
                if let Some(rate) = read_mode(line.as_slice()) {
                    if r.len() > 0 {
                        let last: usize = r.len() - 1;
                        assert(before.last() == placed(r@[last as int]));
                        let known: Vec<char> = chars_of(r[last].0.refresh_rate.as_str());
                        if is_zero_rate(known.as_slice()) {
                            let (info, x, y) = r.pop().unwrap();
                            let info = DisplayInfo { refresh_rate: rate, ..info };
                            r.push((info, x, y));
                            assert(all_placed(r@) =~= before.drop_last().push(
                                DisplayView { refresh_rate: rate@, ..before.last() },
                            ));
                        }
                    }
                }
            },
        }
    }
    assert(all.take(all.len() as int) =~= all);
    r
}

/// The displays that a run of `xrandr --query` tells of; none where it failed.
pub open spec fn queried(reply: ReplyView) -> Seq<DisplayView> {
    match reply {
        ReplyView::Ended { success, stdout, .. } => if success {
            connected_displays(stdout)
        } else {
            Seq::empty()
        },
        ReplyView::NotRun(_) => Seq::empty(),
    }
}

/// The displays that a run of `xrandr --query` tells of.
pub fn query_xrandr_displays(reply: &CommandReply) -> (r: Result<Vec<PlacedDisplay>, MediaError>)
    ensures
        match reply@ {
            ReplyView::NotRun(e) => r matches Err(err) && err@ == ErrorView::CaptureError(
                "xrandr failed: "@ + e,
            ),
            ReplyView::Ended { success, status, stdout, .. } => if success {
                r matches Ok(v) && all_placed(v@) == connected_displays(stdout)
            } else {
                r matches Err(err) && err@ == ErrorView::CaptureError(
                    "xrandr --query failed with status "@ + status,
                )
            },
        },
{
    match reply {
        CommandReply::NotRun(e) => Err(
            MediaError::CaptureError("xrandr failed: ".to_owned().concat(e.as_str())),
        ),
        CommandReply::Ended { success, status, stdout, stderr: _ } => if *success {
            Ok(parse_xrandr_output_with_offsets(stdout.as_str()))
        } else {
            Err(
                MediaError::CaptureError(
                    "xrandr --query failed with status ".to_owned().concat(status.as_str()),
                ),
            )
        },
    }
}

/// A display list without the places.
pub open spec fn unplaced(ds: Seq<DisplayView>) -> Seq<DisplayView> {
    ds.map_values(|d: DisplayView| DisplayView { x: 0, y: 0, ..d })
}

fn without_places(mut placed_displays: Vec<PlacedDisplay>) -> (r: Vec<DisplayInfo>)
    ensures
        all_displays(r@) == unplaced(all_placed(placed_displays@)),
{
    let ghost p0 = placed_displays@;
    let mut rev: Vec<DisplayInfo> = Vec::new();
    while placed_displays.len() > 0
        invariant
            placed_displays@.len() + rev@.len() == p0.len(),
            placed_displays@ == p0.take(placed_displays@.len() as int),
            forall|k: int| 0 <= k < rev@.len() ==> #[trigger] rev@[k] == p0[p0.len() - 1 - k].0,
        decreases placed_displays@.len(),
    {
        let d: PlacedDisplay = placed_displays.pop().unwrap();
        rev.push(d.0);
        assert(placed_displays@ =~= p0.take(placed_displays@.len() as int));
    }
    let mut r: Vec<DisplayInfo> = Vec::new();
    while rev.len() > 0
        invariant
            rev@.len() + r@.len() == p0.len(),
            forall|k: int| 0 <= k < rev@.len() ==> #[trigger] rev@[k] == p0[p0.len() - 1 - k].0,
            forall|k: int| 0 <= k < r@.len() ==> #[trigger] r@[k] == p0[k].0,
        decreases rev@.len(),
    {
        let d: DisplayInfo = rev.pop().unwrap();
        r.push(d);
    }
    assert(all_displays(r@) =~= unplaced(all_placed(p0)));
    r
}

/// The first display at or behind `from` with the id, or the first primary one.
pub open spec fn first_index(
    ds: Seq<DisplayView>,
    id: Seq<char>,
    by_id: bool,
    from: int,
) -> Option<int>
    decreases ds.len() - from,
{
    if from < 0 || from >= ds.len() {
        None
    } else if if by_id {
        ds[from].id == id
    } else {
        ds[from].is_primary
    } {
        Some(from)
    } else {
        first_index(ds, id, by_id, from + 1)
    }
}

/// Where a display is found: the one with the given id, else the first primary
/// one.
pub open spec fn display_index(ds: Seq<DisplayView>, id: Seq<char>) -> Option<int> {
    match first_index(ds, id, true, 0) {
        Some(i) => Some(i),
        None => first_index(ds, id, false, 0),
    }
}

/// Finds a display: by its id, else the first primary one.
pub fn find_display(displays: &Vec<PlacedDisplay>, id: &str) -> (r: Option<usize>)
    ensures
        match r {
            Some(i) => display_index(all_placed(displays@), id@) == Some(i as int) && i
                < displays@.len(),
            None => display_index(all_placed(displays@), id@) is None,
        },
{
    let ghost ds = all_placed(displays@);
    let wanted: String = id.to_owned();
    for i in 0..displays.len()
        invariant
            ds == all_placed(displays@),
            wanted@ == id@,
            first_index(ds, id@, true, i as int) == first_index(ds, id@, true, 0),
    {
        assert(ds[i as int] == placed(displays@[i as int]));
        if displays[i].0.id == wanted {
            return Some(i);
        }
    }
    for i in 0..displays.len()
        invariant
            ds == all_placed(displays@),
            first_index(ds, id@, true, 0) is None,
            first_index(ds, id@, false, i as int) == first_index(ds, id@, false, 0),
    {
        assert(ds[i as int] == placed(displays@[i as int]));
        if displays[i].0.is_primary {
            return Some(i);
        }
    }
    None
}

// ---- The capture ----

/// How a frame is fetched.
#[derive(Debug, Clone, Copy, PartialEq, Eq, Structural)]
pub enum X11Source {
    SharedMemory,
    GetImage,
}

/// A stage of setting up shared memory.
#[derive(Debug, Clone, Copy, PartialEq, Eq, Structural)]
pub enum ShmStage {
    Query,
    CreateImage,
    Allocate,
    MapSegment,
    Attach,
}

/// Something to release after shared memory was set up or could not be. The
/// segment is marked for removal in any case: it goes when its last user
/// detaches.
#[derive(Debug, Clone, Copy, PartialEq, Eq, Structural)]
pub enum ShmRelease {
    Unmap,
    RemoveSegment,
    DestroyImage,
}

/// What is released when a stage failed, or when none did.
pub open spec fn releases(failed: Option<ShmStage>) -> Seq<ShmRelease> {
    match failed {
        Some(ShmStage::Query) | Some(ShmStage::CreateImage) => Seq::empty(),
        Some(ShmStage::Allocate) => seq![ShmRelease::DestroyImage],
        Some(ShmStage::MapSegment) => seq![ShmRelease::RemoveSegment, ShmRelease::DestroyImage],
        Some(ShmStage::Attach) => seq![
            ShmRelease::Unmap,
            ShmRelease::RemoveSegment,
            ShmRelease::DestroyImage,
        ],
        None => seq![ShmRelease::RemoveSegment],
    }
}

/// A cursor as the X server gives it.
#[derive(Debug, Clone)]
pub struct X11Cursor {
    pub x: i16,
    pub y: i16,
    pub width: u16,
    pub height: u16,
    /// Alpha, red, green and blue from the highest byte down.
    pub pixels: Vec<u64>,
}

/// The X11 capture's state. The connection is held by the caller.
pub struct X11Capture {
    pub width: u32,
    pub height: u32,
    pub fps: u32,
    pub capture_x: i32,
    pub capture_y: i32,
    pub capturing: bool,
    pub shm_active: bool,
}

/// The displays to offer.
pub open spec fn x11_displays(c: X11Capture, reply: ReplyView) -> Seq<DisplayView> {
    if queried(reply).len() > 0 {
        unplaced(queried(reply))
    } else {
        seq![
            DisplayView {
                id: "default"@,
                name: "Default X11 Display"@,
                width: c.width,
                height: c.height,
                refresh_rate: "60.0"@,
                is_primary: true,
                x: 0,
                y: 0,
            },
        ]
    }
}

/// A capture once it started at the display with an id.
pub open spec fn x11_started(
    c: X11Capture,
    display_id: Seq<char>,
    config: StreamConfig,
    reply: ReplyView,
) -> X11Capture {
    X11Capture {
        width: config.width,
        height: config.height,
        fps: config.fps,
        capture_x: match display_index(queried(reply), display_id) {
            Some(i) => queried(reply)[i].x,
            None => 0,
        },
        capture_y: match display_index(queried(reply), display_id) {
            Some(i) => queried(reply)[i].y,
            None => 0,
        },
        capturing: true,
        shm_active: c.shm_active,
    }
}

/// Whether `r` is the frame of fetched bytes, with a cursor drawn into it where one is
/// given.
pub open spec fn x11_frame(
    c: X11Capture,
    data: Seq<u8>,
    cursor: Option<X11Cursor>,
    timestamp_us: u64,
    r: CapturedFrame,
) -> bool {
    is_cpu_frame(
        r,
        match cursor {
            Some(s) => drawn(
                data,
                FrameLayout { width: c.width, height: c.height, stride: (c.width * 4) as u32 },
                argb_bytes(s.pixels@),
                CursorPlace {
                    x: (s.x - c.capture_x) as i64,
                    y: (s.y - c.capture_y) as i64,
                    width: s.width as u32,
                    height: s.height as u32,
                },
            ),
            None => data,
        },
        (c.width * 4) as u32,
        c.width,
        c.height,
        timestamp_us,
        true,
    )
}

impl X11Capture {
    /// A capture of a screen of the given size; `None` where the display could
    /// not be opened.
    pub fn new(screen: Option<(u32, u32)>) -> (r: Result<Self, MediaError>)
        ensures
            match screen {
                Some(s) => r matches Ok(c) && c == (X11Capture {
                    width: s.0,
                    height: s.1,
                    fps: 60,
                    capture_x: 0,
                    capture_y: 0,
                    capturing: false,
                    shm_active: false,
                }),
                None => r matches Err(e) && e@ == ErrorView::CaptureError(
                    "Failed to open X11 display. Check your DISPLAY environment variable."@,
                ),
            },
    {
        match screen {
            Some(s) => Ok(
                X11Capture {
                    width: s.0,
                    height: s.1,
                    fps: 60,
                    capture_x: 0,
                    capture_y: 0,
                    capturing: false,
                    shm_active: false,
                },
            ),
            None => Err(
                MediaError::capture(
                    "Failed to open X11 display. Check your DISPLAY environment variable.",
                ),
            ),
        }
    }

    /// The connected displays that xrandr's output tells of.
    pub fn parse_xrandr_output(output: &str) -> (r: Vec<DisplayInfo>)
        ensures
            all_displays(r@) == unplaced(connected_displays(output@)),
    {
        without_places(parse_xrandr_output_with_offsets(output))
    }

    /// The displays to offer: those that `xrandr --query` tells of, or the whole
    /// screen where it failed or names none.
    pub fn list_displays(&self, reply: &CommandReply) -> (r: Vec<DisplayInfo>)
        ensures
            all_displays(r@) == x11_displays(*self, reply@),
    {
        if let Ok(found) = query_xrandr_displays(reply) {
            assert(all_placed(found@).len() == found@.len());
            if found.len() > 0 {
                return without_places(found);
            }
        }
        let mut r: Vec<DisplayInfo> = Vec::new();
        r.push(
            DisplayInfo {
                id: "default".to_owned(),
                name: "Default X11 Display".to_owned(),
                width: self.width,
                height: self.height,
                refresh_rate: "60.0".to_owned(),
                is_primary: true,
            },
        );
        assert(all_displays(r@) =~= seq![
            DisplayView {
                id: "default"@,
                name: "Default X11 Display"@,
                width: self.width,
                height: self.height,
                refresh_rate: "60.0"@,
                is_primary: true,
                x: 0,
                y: 0,
            },
        ]);
        r
    }

    /// Starts capturing at the configured size, at the place of the display
    /// with the given id, else of the primary one, else of the screen. Says
    /// whether shared memory is still to be set up.
    pub fn start(&mut self, display_id: &str, config: &StreamConfig, reply: &CommandReply) -> (r:
        Result<bool, MediaError>)
        ensures
            match r {
                Err(e) => old(self).capturing && e@ == ErrorView::CaptureAlreadyStarted
                    && *final(self) == *old(self),
                Ok(setup) => !old(self).capturing && setup == !old(self).shm_active
                    && *final(self) == x11_started(*old(self), display_id@, *config, reply@),
            },
    {
        if self.capturing {
            return Err(MediaError::CaptureAlreadyStarted);
        }
        self.width = config.width;
        self.height = config.height;
        self.fps = config.fps;
        self.capture_x = 0;
        self.capture_y = 0;
        if let Ok(ds) = query_xrandr_displays(reply) {
            if let Some(i) = find_display(&ds, display_id) {
                assert(all_placed(ds@)[i as int] == placed(ds@[i as int]));
                self.capture_x = ds[i].1;
                self.capture_y = ds[i].2;
            }
        }
        self.capturing = true;
        Ok(!self.shm_active)
    }

    /// Takes up how far setting up shared memory came: it is in use where every
    /// stage succeeded. Returns what is to be released, in this order.
    pub fn init_shm(&mut self, failed: Option<ShmStage>) -> (r: Vec<ShmRelease>)
        ensures
            *final(self) == (X11Capture {
                shm_active: failed is None || old(self).shm_active,
                ..*old(self)
            }),
            r@ == releases(failed),
    {
        match failed {
            Some(ShmStage::Query) | Some(ShmStage::CreateImage) => Vec::new(),
            Some(ShmStage::Allocate) => vec![ShmRelease::DestroyImage],
            Some(ShmStage::MapSegment) => vec![ShmRelease::RemoveSegment, ShmRelease::DestroyImage],
            Some(ShmStage::Attach) => vec![
                ShmRelease::Unmap,
                ShmRelease::RemoveSegment,
                ShmRelease::DestroyImage,
            ],
            None => {
                self.shm_active = true;
                vec![ShmRelease::RemoveSegment]
            },
        }
    }

    /// How the next frame is fetched.
    pub fn next_frame(&self) -> (r: Result<X11Source, MediaError>)
        ensures
            match r {
                Err(e) => !self.capturing && e@ == ErrorView::CaptureNotStarted,
                Ok(s) => self.capturing && s == (if self.shm_active {
                    X11Source::SharedMemory
                } else {
                    X11Source::GetImage
                }),
            },
    {
        if !self.capturing {
            return Err(MediaError::CaptureNotStarted);
        }
        if self.shm_active {
            Ok(X11Source::SharedMemory)
        } else {
            Ok(X11Source::GetImage)
        }
    }

    /// The error of a fetch that failed.
    pub fn fetch_failed(source: X11Source) -> (e: MediaError)
        ensures
            e@ == ErrorView::CaptureError(
                match source {
                    X11Source::SharedMemory => "XShmGetImage failed"@,
                    X11Source::GetImage => "XGetImage returned NULL"@,
                },
            ),
    {
        match source {
            X11Source::SharedMemory => MediaError::capture("XShmGetImage failed"),
            X11Source::GetImage => MediaError::capture("XGetImage returned NULL"),
        }
    }

    /// Makes a frame of fetched bytes in BGRA, with the cursor drawn into it
    /// where one is given.
    pub fn capture_frame(&self, data: Vec<u8>, cursor: Option<X11Cursor>, timestamp_us: u64) -> (r:
        CapturedFrame)
        requires
            self.width * 4 <= u32::MAX,
            cursor matches Some(c) ==> c.width * c.height <= c.pixels@.len(),
        ensures
            x11_frame(*self, data@, cursor, timestamp_us, r),
    {
        let mut bytes: Vec<u8> = data;
        let stride: u32 = self.width * 4;
        if let Some(c) = cursor {
            let f = FrameLayout { width: self.width, height: self.height, stride };
            let p = CursorPlace {
                x: c.x as i64 - self.capture_x as i64,
                y: c.y as i64 - self.capture_y as i64,
                width: c.width as u32,
                height: c.height as u32,
            };
            let picture: Vec<u8> = cursor_from_argb(c.pixels.as_slice());
            draw_cursor(bytes.as_mut_slice(), f, picture.as_slice(), p);
        }
        cpu_frame(bytes, stride, self.width, self.height, timestamp_us, true)
    }

    /// Stops capturing. Shared memory is to be released where this returns
    /// `true`.
    pub fn stop(&mut self) -> (release: bool)
        ensures
            release == old(self).shm_active,
            *final(self) == (X11Capture { capturing: false, shm_active: false, ..*old(self) }),
    {
        let release: bool = self.shm_active;
        self.capturing = false;
        self.shm_active = false;
        release
    }

    /// Whether a capture is running.
    pub fn is_capturing(&self) -> (b: bool)
        ensures
            b == self.capturing,
    {
        self.capturing
    }
}

proof fn lemma_first_index(ds: Seq<DisplayView>, i: int, from: int)
    requires
        0 <= from <= i < ds.len(),
    ensures
        first_index(ds, ds[i].id, true, from) matches Some(j) && from <= j <= i && ds[j].id
            == ds[i].id,
    decreases i - from,
{
    if ds[from].id != ds[i].id {
        lemma_first_index(ds, i, from + 1);
    }
}

/// A display that was listed is found by its id, and no display listed after it
/// is found in its place.
pub proof fn law_listed_displays_are_found(ds: Seq<DisplayView>, i: int)
    requires
        0 <= i < ds.len(),
    ensures
        display_index(ds, ds[i].id) matches Some(j) && j <= i && ds[j].id == ds[i].id,
{
    lemma_first_index(ds, i, 0);
}

/// A frame is new, of the captured size, in rows without gaps. Every pixel of the cursor
/// stands where the server shows it, seen from the corner of what is captured: a solid one
/// shows its blue, green and red, from the lowest byte up, under a clear one the screen's
/// own colour stays. Without a cursor every byte is the screen's.
#[verifier::spinoff_prover]
#[verifier::rlimit(50)]
pub proof fn law_the_x11_cursor_is_where_it_is_shown(
    c: X11Capture,
    data: Seq<u8>,
    s: X11Cursor,
    timestamp_us: u64,
    r: CapturedFrame,
    bare: CapturedFrame,
    cx: int,
    cy: int,
    channel: int,
)
    requires
        c.width * 4 <= u32::MAX,
        s.width * s.height <= s.pixels@.len(),
        x11_frame(c, data, Some(s), timestamp_us, r),
        x11_frame(c, data, None, timestamp_us, bare),
        0 <= cx < s.width,
        0 <= cy < s.height,
        0 <= s.x + cx - c.capture_x < c.width,
        0 <= s.y + cy - c.capture_y < c.height,
        data.len() == c.width * c.height * 4,
        0 <= channel < 3,
    ensures
        r.width == c.width && r.height == c.height && r.timestamp_us == timestamp_us
            && r.is_new_frame,
        r.buffer is CpuBuffer && r.buffer->CpuBuffer_stride == 4 * c.width,
        bare.buffer is CpuBuffer && bare.buffer->CpuBuffer_data@ == data,
        ({
            let at = ((s.y + cy - c.capture_y) * c.width + (s.x + cx - c.capture_x)) * 4 + channel;
            let pixel = s.pixels@[cy * s.width + cx] as int % 0x1_0000_0000;
            let shown = r.buffer->CpuBuffer_data@[at];
            &&& pixel / 0x100_0000 == 255 ==> shown == (if channel == 0 {
                pixel % 0x100
            } else if channel == 1 {
                pixel / 0x100 % 0x100
            } else {
                pixel / 0x1_0000 % 0x100
            })
            &&& pixel / 0x100_0000 == 0 ==> shown == data[at]
        }),
{
    let f = FrameLayout { width: c.width, height: c.height, stride: (c.width * 4) as u32 };
    let p = CursorPlace {
        x: (s.x - c.capture_x) as i64,
        y: (s.y - c.capture_y) as i64,
        width: s.width as u32,
        height: s.height as u32,
    };
    let bytes = argb_bytes(s.pixels@);
    let sx = s.x + cx - c.capture_x;
    let sy = s.y + cy - c.capture_y;
    let w = c.width as int;
    let h = c.height as int;
    assert((sy * w + sx) * 4 + channel == sy * f.stride + sx * 4 + channel) by (nonlinear_arith)
        requires
            f.stride == w * 4,
    ;
    assert(sy * f.stride + sx * 4 + 3 < w * h * 4) by (nonlinear_arith)
        requires
            f.stride == w * 4,
            0 <= sx < w,
            0 <= sy < h,
    ;
    law_solid_replaces_and_clear_keeps(data, f, bytes, p, sx, sy, channel);
    let i = cy * s.width + cx;
    let cw = s.width as int;
    let ch = s.height as int;
    assert(0 <= cy * cw && cy * cw + cx < cw * ch) by (nonlinear_arith)
        requires
            0 <= cx < cw,
            0 <= cy < ch,
    ;
    law_argb_pixels_keep_their_bits(s.pixels@, i);
    assert(cursor_byte(bytes, p, cx, cy, 0) == bytes[4 * i]);
    assert(cursor_byte(bytes, p, cx, cy, 1) == bytes[4 * i + 1]);
    assert(cursor_byte(bytes, p, cx, cy, 2) == bytes[4 * i + 2]);
    assert(cursor_byte(bytes, p, cx, cy, 3) == bytes[4 * i + 3]);
}

/// Whether this is the first display with `id`, or, where none has it, the first that is
/// primary.
pub open spec fn asked_for(ds: Seq<DisplayView>, id: Seq<char>, i: int) -> bool {
    &&& 0 <= i < ds.len()
    &&& ds[i].id == id || forall|j: int| 0 <= j < ds.len() ==> (#[trigger] ds[j]).id != id
    &&& ds[i].id == id ==> forall|j: int| 0 <= j < i ==> (#[trigger] ds[j]).id != id
    &&& ds[i].id != id ==> ds[i].is_primary && forall|j: int|
        0 <= j < i ==> !(#[trigger] ds[j]).is_primary
}

proof fn lemma_first_index_is_first(ds: Seq<DisplayView>, id: Seq<char>, by_id: bool, from: int)
    requires
        0 <= from <= ds.len(),
    ensures
        match first_index(ds, id, by_id, from) {
            Some(i) => from <= i < ds.len() && (if by_id {
                ds[i].id == id
            } else {
                ds[i].is_primary
            }) && forall|j: int|
                from <= j < i ==> if by_id {
                    (#[trigger] ds[j]).id != id
                } else {
                    !ds[j].is_primary
                },
            None => forall|j: int|
                from <= j < ds.len() ==> if by_id {
                    (#[trigger] ds[j]).id != id
                } else {
                    !ds[j].is_primary
                },
        },
    decreases ds.len() - from,
{
    if from < ds.len() {
        lemma_first_index_is_first(ds, id, by_id, from + 1);
    }
}

/// The display that is found is the one that was asked for: by its id, else the first
/// primary one. None is found only where there is neither.
pub proof fn law_the_display_that_is_asked_for_is_found(ds: Seq<DisplayView>, id: Seq<char>)
    ensures
        display_index(ds, id) is Some ==> asked_for(ds, id, display_index(ds, id)->0),
        display_index(ds, id) is None <==> forall|j: int|
            0 <= j < ds.len() ==> (#[trigger] ds[j]).id != id && !ds[j].is_primary,
{
    lemma_first_index_is_first(ds, id, true, 0);
    lemma_first_index_is_first(ds, id, false, 0);
}

/// A capture starts at the corner of the display that was asked for, with the size and the
/// rate of the stream; at the screen's corner where no display was found.
pub proof fn law_an_x11_capture_starts_at_its_display(
    c: X11Capture,
    id: Seq<char>,
    config: StreamConfig,
    reply: ReplyView,
)
    ensures
        ({
            let s = x11_started(c, id, config, reply);
            let ds = queried(reply);
            &&& s.capturing
            &&& s.width == config.width && s.height == config.height && s.fps == config.fps
            &&& s.shm_active == c.shm_active
            &&& (exists|i: int| #[trigger]
                asked_for(ds, id, i) && s.capture_x == ds[i].x && s.capture_y == ds[i].y) || (
            s.capture_x == 0 && s.capture_y == 0 && forall|j: int|
                0 <= j < ds.len() ==> (#[trigger] ds[j]).id != id && !ds[j].is_primary)
        }),
{
    law_the_display_that_is_asked_for_is_found(queried(reply), id);
}

/// Something is always offered to capture, and the displays that xrandr listed are offered
/// as it listed them, but for their places.
pub proof fn law_an_x11_display_is_always_offered(c: X11Capture, reply: ReplyView)
    ensures
        ({
            let ds = x11_displays(c, reply);
            let q = queried(reply);
            &&& ds.len() > 0
            &&& q.len() > 0 ==> ds.len() == q.len() && forall|i: int|
                0 <= i < ds.len() ==> (#[trigger] ds[i]).id == q[i].id && ds[i].name == q[i].name
                    && ds[i].width == q[i].width && ds[i].height == q[i].height && ds[i].is_primary
                    == q[i].is_primary && ds[i].refresh_rate == q[i].refresh_rate
            &&& q.len() == 0 ==> ds.len() == 1 && ds[0].width == c.width && ds[0].height == c.height
                && ds[0].is_primary
            &&& !(reply is Ended && reply->success) ==> q.len() == 0
        }),
{
}

/// A geometry is read as it is written: width, height, and the place from the left and from
/// the top.
pub proof fn law_written_geometries_are_read_back(w: u32, h: u32, x: i32, y: i32)
    ensures
        geometry_of(
            dec(w as nat).push('x') + dec(h as nat) + seq!['+'] + signed_dec(x as int) + seq!['+']
                + signed_dec(y as int),
        ) == Some((w, h, x, y)),
        geometry_word(
            dec(w as nat).push('x') + dec(h as nat) + seq!['+'] + signed_dec(x as int) + seq!['+']
                + signed_dec(y as int),
        ),
{
    let dw = dec(w as nat);
    let dh = dec(h as nat);
    let sx = signed_dec(x as int);
    let sy = signed_dec(y as int);
    let size = dw.push('x') + dh;
    let two = size.push('+') + sx;
    let whole = dw.push('x') + dh + seq!['+'] + sx + seq!['+'] + sy;
    assert(whole =~= two.push('+') + sy);
    lemma_decimals_are_digits(w as nat);
    lemma_decimals_are_digits(h as nat);
    law_written_signed_numbers_are_read_back(x);
    law_written_signed_numbers_are_read_back(y);
    assert(!size.contains('+')) by {
        if size.contains('+') {
            let i = size.index_of('+');
            if i < dw.len() {
                assert(dw[i] == '+');
            } else if i > dw.len() {
                assert(dh[i - dw.len() - 1] == '+');
            }
        }
    }
    law_pieces_stand_between_characters(Seq::empty(), size, '+');
    law_pieces_stand_between_characters(size, sx, '+');
    law_pieces_stand_between_characters(two, sy, '+');
    assert(split_on(whole, '+') =~= seq![size, sx, sy]);
    law_pieces_stand_between_characters(Seq::empty(), dw, 'x');
    law_pieces_stand_between_characters(dw, dh, 'x');
    assert(split_on(size, 'x') =~= seq![dw, dh]);
    law_written_numbers_are_read_back(w as nat, 0xffff_ffff);
    law_written_numbers_are_read_back(h as nat, 0xffff_ffff);
    assert(whole[dw.len() as int] == 'x');
    assert(whole[size.len() as int] == '+');
}

/// A line about a connected output lists a display under the name that begins the line, at
/// the geometry that the line gives, primary where the line says so, and with no rate yet.
/// The displays before it stay as they are.
pub proof fn law_a_connected_output_is_listed(ds: Seq<DisplayView>, line: Seq<char>)
    requires
        header_line(line),
    ensures
        ({
            let after = after_line(ds, line);
            let d = after.last();
            &&& after.len() == ds.len() + 1
            &&& after.drop_last() == ds
            &&& d.id == words_of(line)[0] && d.name == d.id
            &&& d.is_primary <==> exists|i: int|
                0 <= i < words_of(line).len() && #[trigger] words_of(line)[i] == "primary"@
            &&& first_geometry(words_of(line)) is Some ==> (d.width, d.height, d.x, d.y)
                == first_geometry(words_of(line))->0
            &&& d.refresh_rate == "0"@
        }),
{
    assert(after_line(ds, line).drop_last() =~= ds);
}

/// A line that heads no output changes at most the rate of the display above it, and only
/// where that has none: so the first rate in use stays.
pub proof fn law_other_lines_only_bring_a_rate(ds: Seq<DisplayView>, line: Seq<char>, i: int)
    requires
        !header_line(line),
        0 <= i < ds.len(),
    ensures
        ({
            let d = after_line(ds, line)[i];
            &&& after_line(ds, line).len() == ds.len()
            &&& d.id == ds[i].id && d.name == ds[i].name && d.is_primary == ds[i].is_primary
            &&& d.width == ds[i].width && d.height == ds[i].height && d.x == ds[i].x && d.y
                == ds[i].y
            &&& i < ds.len() - 1 || !zero_rate(ds[i].refresh_rate) ==> d.refresh_rate
                == ds[i].refresh_rate
            &&& i == ds.len() - 1 && zero_rate(ds[i].refresh_rate) && mode_rate(line) is Some
                ==> d.refresh_rate == mode_rate(line)->0
        }),
{
}

/// What was made for shared memory and is of no use is released: the mapping where the
/// server could not attach, the segment once it was allocated, the image once it was made,
/// each unless all went well; the segment also then, as it goes with its last user.
pub proof fn law_shared_memory_leaves_nothing_behind(failed: Option<ShmStage>)
    ensures
        releases(failed).contains(ShmRelease::Unmap) <==> failed == Some(ShmStage::Attach),
        releases(failed).contains(ShmRelease::RemoveSegment) <==> failed is None || failed == Some(
            ShmStage::Attach,
        ) || failed == Some(ShmStage::MapSegment),
        releases(failed).contains(ShmRelease::DestroyImage) <==> failed == Some(ShmStage::Attach)
            || failed == Some(ShmStage::MapSegment) || failed == Some(ShmStage::Allocate),
{
    let r = releases(failed);
    if failed == Some(ShmStage::Attach) {
        assert(r[0] == ShmRelease::Unmap && r[1] == ShmRelease::RemoveSegment && r[2]
            == ShmRelease::DestroyImage);
    } else if failed == Some(ShmStage::MapSegment) {
        assert(r[0] == ShmRelease::RemoveSegment && r[1] == ShmRelease::DestroyImage);
    } else if failed == Some(ShmStage::Allocate) {
        assert(r[0] == ShmRelease::DestroyImage);
    } else if failed is None {
        assert(r[0] == ShmRelease::RemoveSegment);
    }
}

} // verus!
