//! Injection of mouse and keyboard input: by virtual devices of the kernel or by
//! the X server's test extension on Linux, by the system's input call on Windows.

use crate::text::{
    begins_with, chars_of, contains_char, contains_text, dec, law_pieces_stand_between_characters,
    law_written_signed_numbers_are_read_back, lemma_decimals_are_digits, lines, lines_of, occurs,
    parse_i32, signed_dec, signed_of, split_char, split_on, views, words, words_of,
};
use crate::Platform;
use vstd::prelude::*;

verus! {

// ---- The monitor ----

/// The place and size of a monitor.
#[derive(Debug, Clone, Copy, PartialEq, Eq, Structural)]
pub struct MonitorGeometry {
    pub x: i32,
    pub y: i32,
    pub width: i32,
    pub height: i32,
}

/// How far the search for the primary monitor came.
#[derive(Debug, Clone, Copy, PartialEq, Eq, Structural)]
pub enum MonitorSearch {
    /// Not found yet; the first connected monitor so far.
    Going(Option<MonitorGeometry>),
    /// Found, or given up.
    Done(Option<MonitorGeometry>),
}

/// Whether a word is read as a geometry.
pub open spec fn geometry_word(word: Seq<char>) -> bool {
    word.contains('x') && word.contains('+') && split_on(word, '+').len() >= 3
}

/// The geometry in a word such as `1920x1080+3840+0`.
pub open spec fn word_geometry(word: Seq<char>) -> Option<MonitorGeometry> {
    let pieces = split_on(word, '+');
    let dims = split_on(pieces[0], 'x');
    if dims.len() < 2 {
        None
    } else {
        match (signed_of(dims[0]), signed_of(dims[1]), signed_of(pieces[1]), signed_of(pieces[2])) {
            (Some(w), Some(h), Some(x), Some(y)) => Some(
                MonitorGeometry {
                    x: x as i32,
                    y: y as i32,
                    width: w as i32,
                    height: h as i32,
                },
            ),
            _ => None,
        }
    }
}

/// The search after a word of a connected output's line: a geometry that cannot
/// be read ends it, the primary output's is the answer.
pub open spec fn after_word(s: MonitorSearch, word: Seq<char>, primary: bool) -> MonitorSearch {
    match s {
        MonitorSearch::Done(_) => s,
        MonitorSearch::Going(first) => if !geometry_word(word) {
            s
        } else {
            match word_geometry(word) {
                None => MonitorSearch::Done(None),
                Some(g) => if primary {
                    MonitorSearch::Done(Some(g))
                } else if first is None {
                    MonitorSearch::Going(Some(g))
                } else {
                    s
                },
            }
        },
    }
}

pub open spec fn after_words(s: MonitorSearch, parts: Seq<Seq<char>>, primary: bool) -> MonitorSearch
    decreases parts.len(),
{
    if parts.len() == 0 {
        s
    } else {
        after_word(after_words(s, parts.drop_last(), primary), parts.last(), primary)
    }
}

/// The search after a line: only lines of connected outputs count.
pub open spec fn after_row(s: MonitorSearch, row: Seq<char>) -> MonitorSearch {
    if !" "@.is_prefix_of(row) && occurs(" connected"@, row) {
        after_words(s, words_of(row), occurs(" primary"@, row))
    } else {
        s
    }
}

pub open spec fn after_rows(rows: Seq<Seq<char>>) -> MonitorSearch
    decreases rows.len(),
{
    if rows.len() == 0 {
        MonitorSearch::Going(None)
    } else {
        after_row(after_rows(rows.drop_last()), rows.last())
    }
}

/// The monitor that xrandr's output makes the primary one: the primary output's,
/// else the first connected one's.
pub open spec fn primary_monitor(output: Seq<char>) -> Option<MonitorGeometry> {
    match after_rows(lines_of(output)) {
        MonitorSearch::Going(g) => g,
        MonitorSearch::Done(g) => g,
    }
}

fn read_geometry(pieces: &Vec<Vec<char>>) -> (r: Option<MonitorGeometry>)
    requires
        pieces@.len() >= 3,
    ensures
        forall|word: Seq<char>| #[trigger]
            split_on(word, '+') == views(pieces@) ==> r == word_geometry(word),
{
    let ghost p = views(pieces@);
    assert(p[0] == pieces@[0]@ && p[1] == pieces@[1]@ && p[2] == pieces@[2]@);
    let dims: Vec<Vec<char>> = split_char(pieces[0].as_slice(), 'x');
    let ghost d = views(dims@);
    assert(d.len() == dims@.len());
    if dims.len() < 2 {
        return None;
    }
    assert(d[0] == dims@[0]@ && d[1] == dims@[1]@);
    let w: Option<i32> = parse_i32(dims[0].as_slice());
    let h: Option<i32> = parse_i32(dims[1].as_slice());
    let x: Option<i32> = parse_i32(pieces[1].as_slice());
    let y: Option<i32> = parse_i32(pieces[2].as_slice());
    match (w, h, x, y) {
        (Some(width), Some(height), Some(x), Some(y)) => Some(
            MonitorGeometry { x, y, width, height },
        ),
        _ => None,
    }
}

fn take_word(s: MonitorSearch, word: &Vec<char>, primary: bool) -> (r: MonitorSearch)
    ensures
        r == after_word(s, word@, primary),
{
    match s {
        MonitorSearch::Done(_) => s,
        MonitorSearch::Going(first) => {
            if !contains_char(word.as_slice(), 'x') || !contains_char(word.as_slice(), '+') {
                return s;
            }
            let pieces: Vec<Vec<char>> = split_char(word.as_slice(), '+');
            assert(views(pieces@).len() == pieces@.len());
            if pieces.len() < 3 {
                return s;
            }
            match read_geometry(&pieces) {
                None => MonitorSearch::Done(None),
                Some(g) => if primary {
                    MonitorSearch::Done(Some(g))
                } else {
                    match first {
                        None => MonitorSearch::Going(Some(g)),
                        Some(_) => s,
                    }
                },
            }
        },
    }
}

fn take_row(s: MonitorSearch, row: &Vec<char>) -> (r: MonitorSearch)
    ensures
        r == after_row(s, row@),
{
    if begins_with(row.as_slice(), " ") || !contains_text(row.as_slice(), " connected") {
        return s;
    }
    let primary: bool = contains_text(row.as_slice(), " primary");
    let parts: Vec<Vec<char>> = words(row.as_slice());
    let ghost all = words_of(row@);
    let mut r: MonitorSearch = s;
    assert(all.take(0) =~= Seq::<Seq<char>>::empty());
    for i in 0..parts.len()
        invariant
            views(parts@) == all,
            r == after_words(s, all.take(i as int), primary),
    {
        proof {
            assert(all[i as int] == parts@[i as int]@);
            assert(all.take(i as int + 1).drop_last() =~= all.take(i as int));
        }
        r = take_word(r, &parts[i], primary);
    }
    assert(all.take(all.len() as int) =~= all);
    r
}

/// The primary monitor by xrandr's output; `None` where it could not be run.
pub fn get_primary_monitor_geometry(output: Option<&str>) -> (r: Option<MonitorGeometry>)
    ensures
        r == (match output {
            Some(o) => primary_monitor(o@),
            None => None,
        }),
{
    match output {
        None => None,
        Some(o) => {
            let text: Vec<char> = chars_of(o);
            let rows: Vec<Vec<char>> = lines(text.as_slice());
            let ghost all = lines_of(o@);
            let mut s: MonitorSearch = MonitorSearch::Going(None);
            assert(all.take(0) =~= Seq::<Seq<char>>::empty());
            for i in 0..rows.len()
                invariant
                    views(rows@) == all,
                    s == after_rows(all.take(i as int)),
            {
                proof {
                    assert(all[i as int] == rows@[i as int]@);
                    assert(all.take(i as int + 1).drop_last() =~= all.take(i as int));
                }
                s = take_row(s, &rows[i]);
            }
            assert(all.take(all.len() as int) =~= all);
            match s {
                MonitorSearch::Going(g) => g,
                MonitorSearch::Done(g) => g,
            }
        },
    }
}

// ---- Keys ----

/// The kernel's codes of the letters from A to Z.
pub open spec fn letter_keys() -> Seq<u16> {
    seq![
        30u16, 48u16, 46u16, 32u16, 18u16, 33u16, 34u16, 35u16, 23u16, 36u16, 37u16, 38u16, 50u16,
        49u16, 24u16, 25u16, 16u16, 19u16, 31u16, 20u16, 22u16, 47u16, 17u16, 45u16, 21u16, 44u16,
    ]
}

/// The kernel's code of a key that the viewer names by its virtual key code.
pub open spec fn linux_key(vk: u16) -> Option<u16> {
    if 0x31 <= vk <= 0x39 {
        Some((vk - 0x31 + 2) as u16)
    } else if vk == 0x30 {
        Some(11u16)
    } else if 0x41 <= vk <= 0x5a {
        Some(letter_keys()[vk - 0x41])
    } else if 0x70 <= vk <= 0x79 {
        Some((vk - 0x70 + 59) as u16)
    } else {
        other_linux_key(vk)
    }
}

/// The kernel's code of a key that is no letter, digit or early function key.
pub open spec fn other_linux_key(vk: u16) -> Option<u16> {
    match vk {
        0x08 => Some(14u16),  // backspace
        0x09 => Some(15u16),  // tab
        0x0d => Some(28u16),  // enter
        0x10 => Some(42u16),  // shift
        0x11 => Some(29u16),  // control
        0x12 => Some(56u16),  // alt
        0x1b => Some(1u16),  // escape
        0x20 => Some(57u16),  // space
        0x21 => Some(104u16),  // page up
        0x22 => Some(109u16),  // page down
        0x23 => Some(107u16),  // end
        0x24 => Some(102u16),  // home
        0x25 => Some(105u16),  // left
        0x26 => Some(103u16),  // up
        0x27 => Some(106u16),  // right
        0x28 => Some(108u16),  // down
        0x2d => Some(110u16),  // insert
        0x2e => Some(111u16),  // delete
        0x5b => Some(125u16),  // left meta
        0x5c => Some(126u16),  // right meta
        0x60 => Some(82u16),  // keypad 0
        0x61 => Some(79u16),  // keypad 1
        0x62 => Some(80u16),  // keypad 2
        0x63 => Some(81u16),  // keypad 3
        0x64 => Some(75u16),  // keypad 4
        0x65 => Some(76u16),  // keypad 5
        0x66 => Some(77u16),  // keypad 6
        0x67 => Some(71u16),  // keypad 7
        0x68 => Some(72u16),  // keypad 8
        0x69 => Some(73u16),  // keypad 9
        0x6a => Some(55u16),  // keypad *
        0x6b => Some(78u16),  // keypad +
        0x6d => Some(74u16),  // keypad -
        0x6e => Some(83u16),  // keypad .
        0x6f => Some(98u16),  // keypad /
        0x7a => Some(87u16),  // F11
        0x7b => Some(88u16),  // F12
        0x90 => Some(69u16),  // num lock
        0x91 => Some(70u16),  // scroll lock
        0xa0 => Some(42u16),  // left shift
        0xa1 => Some(54u16),  // right shift
        0xa2 => Some(29u16),  // left control
        0xa3 => Some(97u16),  // right control
        0xa4 => Some(56u16),  // left alt
        0xa5 => Some(100u16),  // right alt
        0xba => Some(39u16),  // ;
        0xbb => Some(13u16),  // =
        0xbc => Some(51u16),  // ,
        0xbd => Some(12u16),  // -
        0xbe => Some(52u16),  // .
        0xbf => Some(53u16),  // /
        0xc0 => Some(41u16),  // `
        0xdb => Some(26u16),  // [
        0xdc => Some(43u16),  // \
        0xdd => Some(27u16),  // ]
        0xde => Some(40u16),  // '
        _ => None,
    }
}

/// The kernel's code of a key.
pub fn vk_to_linux_keycode(vk: u16) -> (r: Option<u16>)
    ensures
        r == linux_key(vk),
{
    if 0x31 <= vk && vk <= 0x39 {
        Some(vk - 0x31 + 2)
    } else if vk == 0x30 {
        Some(11)
    } else if 0x41 <= vk && vk <= 0x5a {
        let letters: [u16; 26] = [
            30, 48, 46, 32, 18, 33, 34, 35, 23, 36, 37, 38, 50, 49, 24, 25, 16, 19, 31, 20, 22, 47,
            17, 45, 21, 44,
        ];
        assert(letters@ =~= letter_keys());
        Some(letters[(vk - 0x41) as usize])
    } else if 0x70 <= vk && vk <= 0x79 {
        Some(vk - 0x70 + 59)
    } else {
        match vk {
            0x08 => Some(14),
            0x09 => Some(15),
            0x0d => Some(28),
            0x10 => Some(42),
            0x11 => Some(29),
            0x12 => Some(56),
            0x1b => Some(1),
            0x20 => Some(57),
            0x21 => Some(104),
            0x22 => Some(109),
            0x23 => Some(107),
            0x24 => Some(102),
            0x25 => Some(105),
            0x26 => Some(103),
            0x27 => Some(106),
            0x28 => Some(108),
            0x2d => Some(110),
            0x2e => Some(111),
            0x5b => Some(125),
            0x5c => Some(126),
            0x60 => Some(82),
            0x61 => Some(79),
            0x62 => Some(80),
            0x63 => Some(81),
            0x64 => Some(75),
            0x65 => Some(76),
            0x66 => Some(77),
            0x67 => Some(71),
            0x68 => Some(72),
            0x69 => Some(73),
            0x6a => Some(55),
            0x6b => Some(78),
            0x6d => Some(74),
            0x6e => Some(83),
            0x6f => Some(98),
            0x7a => Some(87),
            0x7b => Some(88),
            0x90 => Some(69),
            0x91 => Some(70),
            0xa0 => Some(42),
            0xa1 => Some(54),
            0xa2 => Some(29),
            0xa3 => Some(97),
            0xa4 => Some(56),
            0xa5 => Some(100),
            0xba => Some(39),
            0xbb => Some(13),
            0xbc => Some(51),
            0xbd => Some(12),
            0xbe => Some(52),
            0xbf => Some(53),
            0xc0 => Some(41),
            0xdb => Some(26),
            0xdc => Some(43),
            0xdd => Some(27),
            0xde => Some(40),
            _ => None,
        }
    }
}

/// The X server's symbol of a key that the viewer names by its virtual key code.
pub open spec fn x_symbol(vk: u16) -> Option<u32> {
    if 0x30 <= vk <= 0x39 {
        Some((vk - 0x30 + 0x30) as u32)
    } else if 0x41 <= vk <= 0x5a {
        Some((vk - 0x41 + 0x61) as u32)
    } else if 0x60 <= vk <= 0x69 {
        Some((vk - 0x60 + 0xffb0) as u32)
    } else if 0x70 <= vk <= 0x7b {
        Some((vk - 0x70 + 0xffbe) as u32)
    } else {
        other_x_symbol(vk)
    }
}

/// The X server's symbol of a key that is no letter, digit or function key.
pub open spec fn other_x_symbol(vk: u16) -> Option<u32> {
    match vk {
        0x08 => Some(0xff08u32),  // backspace
        0x09 => Some(0xff09u32),  // tab
        0x0d => Some(0xff0du32),  // enter
        0x10 => Some(0xffe1u32),  // shift
        0x11 => Some(0xffe3u32),  // control
        0x12 => Some(0xffe9u32),  // alt
        0x1b => Some(0xff1bu32),  // escape
        0x20 => Some(0x20u32),  // space
        0x21 => Some(0xff55u32),  // page up
        0x22 => Some(0xff56u32),  // page down
        0x23 => Some(0xff57u32),  // end
        0x24 => Some(0xff50u32),  // home
        0x25 => Some(0xff51u32),  // left
        0x26 => Some(0xff52u32),  // up
        0x27 => Some(0xff53u32),  // right
        0x28 => Some(0xff54u32),  // down
        0x2d => Some(0xff63u32),  // insert
        0x2e => Some(0xffffu32),  // delete
        0x5b => Some(0xffebu32),  // left meta
        0x5c => Some(0xffecu32),  // right meta
        0x6a => Some(0xffaau32),  // keypad *
        0x6b => Some(0xffabu32),  // keypad +
        0x6d => Some(0xffadu32),  // keypad -
        0x6e => Some(0xffaeu32),  // keypad .
        0x6f => Some(0xffafu32),  // keypad /
        0x90 => Some(0xff7fu32),  // num lock
        0x91 => Some(0xff14u32),  // scroll lock
        0xa0 => Some(0xffe1u32),  // left shift
        0xa1 => Some(0xffe2u32),  // right shift
        0xa2 => Some(0xffe3u32),  // left control
        0xa3 => Some(0xffe4u32),  // right control
        0xa4 => Some(0xffe9u32),  // left alt
        0xa5 => Some(0xffeau32),  // right alt
        0xba => Some(0x3bu32),  // ;
        0xbb => Some(0x3du32),  // =
        0xbc => Some(0x2cu32),  // ,
        0xbd => Some(0x2du32),  // -
        0xbe => Some(0x2eu32),  // .
        0xbf => Some(0x2fu32),  // /
        0xc0 => Some(0x60u32),  // `
        0xdb => Some(0x5bu32),  // [
        0xdc => Some(0x5cu32),  // \
        0xdd => Some(0x5du32),  // ]
        0xde => Some(0x27u32),  // '
        _ => None,
    }
}

/// The X server's symbol of a key.
pub fn vk_to_keysym(vk: u16) -> (r: Option<u32>)
    ensures
        r == x_symbol(vk),
{
    if 0x30 <= vk && vk <= 0x39 {
        Some((vk - 0x30) as u32 + 0x30)
    } else if 0x41 <= vk && vk <= 0x5a {
        Some((vk - 0x41) as u32 + 0x61)
    } else if 0x60 <= vk && vk <= 0x69 {
        Some((vk - 0x60) as u32 + 0xffb0)
    } else if 0x70 <= vk && vk <= 0x7b {
        Some((vk - 0x70) as u32 + 0xffbe)
    } else {
        match vk {
            0x08 => Some(0xff08),
            0x09 => Some(0xff09),
            0x0d => Some(0xff0d),
            0x10 => Some(0xffe1),
            0x11 => Some(0xffe3),
            0x12 => Some(0xffe9),
            0x1b => Some(0xff1b),
            0x20 => Some(0x20),
            0x21 => Some(0xff55),
            0x22 => Some(0xff56),
            0x23 => Some(0xff57),
            0x24 => Some(0xff50),
            0x25 => Some(0xff51),
            0x26 => Some(0xff52),
            0x27 => Some(0xff53),
            0x28 => Some(0xff54),
            0x2d => Some(0xff63),
            0x2e => Some(0xffff),
            0x5b => Some(0xffeb),
            0x5c => Some(0xffec),
            0x6a => Some(0xffaa),
            0x6b => Some(0xffab),
            0x6d => Some(0xffad),
            0x6e => Some(0xffae),
            0x6f => Some(0xffaf),
            0x90 => Some(0xff7f),
            0x91 => Some(0xff14),
            0xa0 => Some(0xffe1),
            0xa1 => Some(0xffe2),
            0xa2 => Some(0xffe3),
            0xa3 => Some(0xffe4),
            0xa4 => Some(0xffe9),
            0xa5 => Some(0xffea),
            0xba => Some(0x3b),
            0xbb => Some(0x3d),
            0xbc => Some(0x2c),
            0xbd => Some(0x2d),
            0xbe => Some(0x2e),
            0xbf => Some(0x2f),
            0xc0 => Some(0x60),
            0xdb => Some(0x5b),
            0xdc => Some(0x5c),
            0xdd => Some(0x5d),
            0xde => Some(0x27),
            _ => None,
        }
    }
}

/// The kernel's code of a mouse button: left, middle, right, side and extra.
pub open spec fn linux_button(button: u32) -> Option<u16> {
    match button {
        1 => Some(0x110u16),
        2 => Some(0x112u16),
        3 => Some(0x111u16),
        8 => Some(0x113u16),
        9 => Some(0x114u16),
        _ => None,
    }
}

/// The kernel's code of a mouse button.
pub fn mouse_button_to_linux_keycode(button: u32) -> (r: Option<u16>)
    ensures
        r == linux_button(button),
{
    match button {
        1 => Some(0x110),
        2 => Some(0x112),
        3 => Some(0x111),
        8 => Some(0x113),
        9 => Some(0x114),
        _ => None,
    }
}


// ---- Injection ----

/// A division that drops the fraction, whatever the sign.
pub open spec fn whole_part(a: int, b: int) -> int {
    if a >= 0 {
        a / b
    } else {
        -((-a) / b)
    }
}

/// A coordinate of a picture `reference` wide, on a scale of `span`.
pub open spec fn scaled(v: int, span: int, reference: int) -> int {
    whole_part(v * span, reference)
}

fn scale(v: i32, span: i32, reference: i32) -> (r: i64)
    requires
        reference > 0,
    ensures
        r == scaled(v as int, span as int, reference as int),
{
    assert(-0x4000_0000_0000_0000 <= v * span <= 0x4000_0000_0000_0000) by (nonlinear_arith)
        requires
            -0x8000_0000 <= v <= 0x7fff_ffff,
            -0x8000_0000 <= span <= 0x7fff_ffff,
    ;
    let product: i64 = v as i64 * span as i64;
    let d: u64 = reference as u64;
    if product >= 0 {
        let q: u64 = product as u64 / d;
        assert(q <= product) by (nonlinear_arith)
            requires
                q == product as int / d as int,
                d > 0,
                product >= 0,
        ;
        q as i64
    } else {
        let size: u64 = (-product) as u64;
        let q: u64 = size / d;
        assert(q <= size) by (nonlinear_arith)
            requires
                q == size as int / d as int,
                d > 0,
        ;
        -(q as i64)
    }
}

/// An event of a virtual device: its type, code and value.
#[derive(Debug, Clone, Copy, PartialEq, Eq, Structural)]
pub struct DeviceEvent {
    pub kind: u16,
    pub code: u16,
    pub value: i32,
}

/// The event that ends a group of events.
pub open spec fn sync_event() -> DeviceEvent {
    DeviceEvent { kind: 0, code: 0, value: 0 }
}

/// A virtual device.
#[derive(Debug, Clone, Copy, PartialEq, Eq, Structural)]
pub enum VirtualDeviceKind {
    RelativeMouse,
    AbsoluteMouse,
    Keyboard,
}

/// The largest coordinate of the virtual device that points.
pub const UINPUT_SPAN: i32 = 32767;

/// The largest coordinate of the Windows desktop.
pub const WINDOWS_SPAN: i32 = 65535;

/// What is to be injected.
#[derive(Debug, Clone, PartialEq, Eq)]
pub enum InputAction {
    /// Send events through a virtual device.
    Device(VirtualDeviceKind, Vec<DeviceEvent>),
    /// Move the X server's pointer by this much.
    XMoveBy(i32, i32),
    /// Move the X server's pointer to this place.
    XMoveTo(i32, i32),
    /// Press or release a button of the X server, and flush.
    XButton(u32, bool),
    /// Press or release the key of a symbol, where the server has one, and flush.
    XKey(u32, bool),
    /// Flush what was sent to the X server.
    XFlush,
    /// A mouse event of Windows.
    WindowsMouse { dx: i32, dy: i32, data: u32, flags: u32 },
    /// A keyboard event of Windows, by the key's scan code.
    WindowsKey { vk: u16, flags: u32 },
    Nothing,
}

/// How input is injected.
#[derive(Debug, Clone, Copy, PartialEq, Eq, Structural)]
pub enum InputBackend {
    Uinput,
    X11(MonitorGeometry),
    Windows,
    /// Nothing can be injected on this platform.
    Stub,
}

/// Injects mouse and keyboard input. The devices and connections are held by the
/// caller.
#[derive(Debug, Clone, Copy, PartialEq, Eq, Structural)]
pub struct InputInjector {
    pub backend: InputBackend,
}

/// What the host offers for injection.
#[derive(Debug, Clone, Copy)]
pub struct InputHost<'a> {
    pub platform: Platform,
    /// The environment names an X display.
    pub display_set: bool,
    /// The size of the X screen, where the display could be opened.
    pub screen: Option<(i32, i32)>,
    /// The output of `xrandr --query`, where it could be run.
    pub xrandr: Option<&'a str>,
    /// The virtual devices could be made.
    pub uinput: bool,
}

fn two_events(a: DeviceEvent, b: DeviceEvent) -> (r: Vec<DeviceEvent>)
    ensures
        r@ == seq![a, b, sync_event()],
{
    vec![a, b, DeviceEvent { kind: 0, code: 0, value: 0 }]
}

fn one_event(a: DeviceEvent) -> (r: Vec<DeviceEvent>)
    ensures
        r@ == seq![a, sync_event()],
{
    vec![a, DeviceEvent { kind: 0, code: 0, value: 0 }]
}

pub open spec fn pressed(is_press: bool) -> i32 {
    if is_press {
        1
    } else {
        0
    }
}

/// The wheel event of a button: up and down turn the wheel, left and right the
/// horizontal one.
pub open spec fn wheel_event(button: u32) -> Option<DeviceEvent> {
    match button {
        4 => Some(DeviceEvent { kind: 2, code: 8, value: 1 }),
        5 => Some(DeviceEvent { kind: 2, code: 8, value: -1i32 }),
        6 => Some(DeviceEvent { kind: 2, code: 6, value: -1i32 }),
        7 => Some(DeviceEvent { kind: 2, code: 6, value: 1 }),
        _ => None,
    }
}

/// What Windows is told of a button: flags and data.
pub open spec fn windows_button(button: u32, is_press: bool) -> Option<(u32, u32)> {
    match button {
        1 => Some((if is_press { 0x2u32 } else { 0x4u32 }, 0u32)),
        2 => Some((if is_press { 0x20u32 } else { 0x40u32 }, 0u32)),
        3 => Some((if is_press { 0x8u32 } else { 0x10u32 }, 0u32)),
        4 => if is_press { Some((0x800u32, 120u32)) } else { None },
        5 => if is_press { Some((0x800u32, 0xffff_ff88u32)) } else { None },
        8 => Some((if is_press { 0x80u32 } else { 0x100u32 }, 1u32)),
        9 => Some((if is_press { 0x80u32 } else { 0x100u32 }, 2u32)),
        _ => None,
    }
}

/// A press or release of a mouse button by its two flags.
pub open spec fn windows_press(is_press: bool, down: u32, up: u32, data: u32) -> InputAction {
    InputAction::WindowsMouse {
        dx: 0,
        dy: 0,
        data,
        flags: if is_press {
            down
        } else {
            up
        },
    }
}

fn windows_flags(button: u32, is_press: bool) -> (r: Option<(u32, u32)>)
    ensures
        r == windows_button(button, is_press),
{
    let (down, up, data): (u32, u32, u32) = match button {
        1 => (0x2, 0x4, 0),
        2 => (0x20, 0x40, 0),
        3 => (0x8, 0x10, 0),
        8 => (0x80, 0x100, 1),
        9 => (0x80, 0x100, 2),
        4 => {
            return if is_press {
                Some((0x800, 120))
            } else {
                None
            };
        },
        5 => {
            return if is_press {
                Some((0x800, 0xffff_ff88))
            } else {
                None
            };
        },
        _ => {
            return None;
        },
    };
    if is_press {
        Some((down, data))
    } else {
        Some((up, data))
    }
}

/// Whether `r` moves the pointer by this much.
pub open spec fn moved_by(i: InputInjector, dx: i32, dy: i32, r: InputAction) -> bool {
    match i.backend {
        InputBackend::Uinput => r matches InputAction::Device(d, e) && d
            == VirtualDeviceKind::RelativeMouse && e@ == seq![
            (DeviceEvent { kind: 2, code: 0, value: dx }),
            (DeviceEvent { kind: 2, code: 1, value: dy }),
            sync_event(),
        ],
        InputBackend::X11(_) => r == InputAction::XMoveBy(dx, dy),
        InputBackend::Windows => r == (InputAction::WindowsMouse {
            dx,
            dy,
            data: 0,
            flags: 0x1,
        }),
        InputBackend::Stub => r == InputAction::Nothing,
    }
}

/// Whether `r` moves the pointer to a place in the viewer's picture.
pub open spec fn moved_to(
    i: InputInjector,
    x: i32,
    y: i32,
    reference_width: i32,
    reference_height: i32,
    r: InputAction,
) -> bool {
    if reference_width <= 0 || reference_height <= 0 {
        r == InputAction::Nothing
    } else {
        let tx = i.target(x as int, reference_width as int, true) as i32;
        let ty = i.target(y as int, reference_height as int, false) as i32;
        match i.backend {
            InputBackend::Uinput => r matches InputAction::Device(d, e) && d
                == VirtualDeviceKind::AbsoluteMouse && e@ == seq![
                (DeviceEvent { kind: 1, code: 0x140, value: 1 }),
                (DeviceEvent { kind: 3, code: 0, value: tx }),
                (DeviceEvent { kind: 3, code: 1, value: ty }),
                sync_event(),
            ],
            InputBackend::X11(_) => r == InputAction::XMoveTo(tx, ty),
            InputBackend::Windows => r == (InputAction::WindowsMouse {
                dx: tx,
                dy: ty,
                data: 0,
                flags: 0x8001,
            }),
            InputBackend::Stub => r == InputAction::Nothing,
        }
    }
}

/// Whether `r` presses or releases a mouse button.
pub open spec fn button_injected(i: InputInjector, button: u32, is_press: bool, r: InputAction) -> bool {
    match i.backend {
        InputBackend::Uinput => match wheel_event(button) {
            Some(w) => if is_press {
                r matches InputAction::Device(d, e) && d
                    == VirtualDeviceKind::RelativeMouse && e@ == seq![w, sync_event()]
            } else {
                r == InputAction::Nothing
            },
            None => match linux_button(button) {
                Some(code) => r matches InputAction::Device(d, e) && d
                    == VirtualDeviceKind::RelativeMouse && e@ == seq![
                    (DeviceEvent { kind: 1, code, value: pressed(is_press) }),
                    sync_event(),
                ],
                None => r == InputAction::Nothing,
            },
        },
        InputBackend::X11(_) => r == InputAction::XButton(button, is_press),
        InputBackend::Windows => match windows_button(button, is_press) {
            Some((flags, data)) => r == (InputAction::WindowsMouse {
                dx: 0,
                dy: 0,
                data,
                flags,
            }),
            None => r == InputAction::Nothing,
        },
        InputBackend::Stub => r == InputAction::Nothing,
    }
}

/// Whether `r` presses or releases a key.
pub open spec fn key_injected(i: InputInjector, vk_code: u16, is_press: bool, r: InputAction) -> bool {
    match i.backend {
        InputBackend::Uinput => match linux_key(vk_code) {
            Some(code) => r matches InputAction::Device(d, e) && d
                == VirtualDeviceKind::Keyboard && e@ == seq![
                (DeviceEvent { kind: 1, code, value: pressed(is_press) }),
                sync_event(),
            ],
            None => r == InputAction::Nothing,
        },
        InputBackend::X11(_) => match x_symbol(vk_code) {
            Some(symbol) => r == InputAction::XKey(symbol, is_press),
            None => r == InputAction::Nothing,
        },
        InputBackend::Windows => r == (InputAction::WindowsKey {
            vk: vk_code,
            flags: if is_press {
                0x8
            } else {
                0xa
            },
        }),
        InputBackend::Stub => r == InputAction::Nothing,
    }
}

/// How input is injected on a host.
pub open spec fn injector_for(host: InputHost) -> Option<InputInjector> {
    match host.platform {
        Platform::Linux => match host.screen {
            Some((w, h)) if host.display_set => Some(
                InputInjector {
                    backend: InputBackend::X11(
                        match host.xrandr {
                            Some(o) if primary_monitor(o@) is Some => primary_monitor(
                                o@,
                            )->0,
                            _ => MonitorGeometry { x: 0, y: 0, width: w, height: h },
                        },
                    ),
                },
            ),
            _ => if host.uinput {
                Some(InputInjector { backend: InputBackend::Uinput })
            } else {
                None
            },
        },
        Platform::Windows => Some(InputInjector { backend: InputBackend::Windows }),
        _ => Some(InputInjector { backend: InputBackend::Stub }),
    }
}

impl InputInjector {
    /// Chooses how input is injected. On Linux by the X server where one could be
    /// opened, on the primary monitor or the whole screen; else by virtual
    /// devices.
    pub fn new(host: &InputHost) -> (r: Option<Self>)
        ensures
            r == injector_for(*host),
    {
        match host.platform {
            Platform::Linux => {
                if host.display_set {
                    if let Some((width, height)) = host.screen {
                        let g: MonitorGeometry = match get_primary_monitor_geometry(host.xrandr) {
                            Some(g) => g,
                            None => MonitorGeometry { x: 0, y: 0, width, height },
                        };
                        return Some(InputInjector { backend: InputBackend::X11(g) });
                    }
                }
                if host.uinput {
                    Some(InputInjector { backend: InputBackend::Uinput })
                } else {
                    None
                }
            },
            Platform::Windows => Some(InputInjector { backend: InputBackend::Windows }),
            _ => Some(InputInjector { backend: InputBackend::Stub }),
        }
    }

    /// Moves the pointer by this much.
    pub fn move_mouse_relative(&self, dx: i32, dy: i32) -> (r: InputAction)
        ensures
            moved_by(*self, dx, dy, r),
    {
        match self.backend {
            InputBackend::Uinput => InputAction::Device(
                VirtualDeviceKind::RelativeMouse,
                two_events(
                    DeviceEvent { kind: 2, code: 0, value: dx },
                    DeviceEvent { kind: 2, code: 1, value: dy },
                ),
            ),
            InputBackend::X11(_) => InputAction::XMoveBy(dx, dy),
            InputBackend::Windows => InputAction::WindowsMouse { dx, dy, data: 0, flags: 0x1 },
            InputBackend::Stub => InputAction::Nothing,
        }
    }

    /// The scale that a coordinate is put on, and where it starts.
    pub open spec fn span(&self, horizontal: bool) -> (int, int) {
        match self.backend {
            InputBackend::Uinput => (0, UINPUT_SPAN as int),
            InputBackend::X11(g) => if horizontal {
                (g.x as int, g.width as int)
            } else {
                (g.y as int, g.height as int)
            },
            _ => (0, WINDOWS_SPAN as int),
        }
    }

    /// Where a coordinate of the viewer's picture lands.
    pub open spec fn target(&self, v: int, reference: int, horizontal: bool) -> int {
        self.span(horizontal).0 + scaled(v, self.span(horizontal).1, reference)
    }

    /// Moves the pointer to a place in the viewer's picture, which is
    /// `reference_width` by `reference_height` large. A picture without a size
    /// moves nothing.
    pub fn move_mouse_absolute(
        &self,
        x: i32,
        y: i32,
        reference_width: i32,
        reference_height: i32,
    ) -> (r: InputAction)
        requires
            (self.backend is Uinput || self.backend is X11) && reference_width > 0
                && reference_height > 0 ==> {
                &&& i32::MIN <= self.target(x as int, reference_width as int, true) <= i32::MAX
                &&& i32::MIN <= self.target(y as int, reference_height as int, false) <= i32::MAX
            },
        ensures
            moved_to(*self, x, y, reference_width, reference_height, r),
    {
        if reference_width <= 0 || reference_height <= 0 {
            return InputAction::Nothing;
        }
        match self.backend {
            InputBackend::Uinput => {
                let tx: i64 = scale(x, UINPUT_SPAN, reference_width);
                let ty: i64 = scale(y, UINPUT_SPAN, reference_height);
                let events: Vec<DeviceEvent> = vec![
                    DeviceEvent { kind: 1, code: 0x140, value: 1 },
                    DeviceEvent { kind: 3, code: 0, value: tx as i32 },
                    DeviceEvent { kind: 3, code: 1, value: ty as i32 },
                    DeviceEvent { kind: 0, code: 0, value: 0 },
                ];
                InputAction::Device(VirtualDeviceKind::AbsoluteMouse, events)
            },
            InputBackend::X11(g) => {
                let sx: i64 = scale(x, g.width, reference_width);
                let sy: i64 = scale(y, g.height, reference_height);
                let tx: i64 = g.x as i64 + sx;
                let ty: i64 = g.y as i64 + sy;
                InputAction::XMoveTo(tx as i32, ty as i32)
            },
            InputBackend::Windows => {
                let tx: i64 = scale(x, WINDOWS_SPAN, reference_width);
                let ty: i64 = scale(y, WINDOWS_SPAN, reference_height);
                InputAction::WindowsMouse { dx: tx as i32, dy: ty as i32, data: 0, flags: 0x8001 }
            },
            InputBackend::Stub => InputAction::Nothing,
        }
    }

    /// Presses or releases a mouse button. Buttons 4 to 7 turn the wheels when
    /// they are pressed.
    pub fn mouse_button(&self, button: u32, is_press: bool) -> (r: InputAction)
        ensures
            button_injected(*self, button, is_press, r),
            self.backend is Windows && button == 1 ==> r == windows_press(is_press, 0x2, 0x4, 0),
            self.backend is Windows && button == 2 ==> r == windows_press(is_press, 0x20, 0x40, 0),
            self.backend is Windows && button == 3 ==> r == windows_press(is_press, 0x8, 0x10, 0),
            self.backend is Windows && button == 8 ==> r == windows_press(is_press, 0x80, 0x100, 1),
            self.backend is Windows && button == 9 ==> r == windows_press(is_press, 0x80, 0x100, 2),
    {
        match self.backend {
            InputBackend::Uinput => {
                if 4 <= button && button <= 7 {
                    if !is_press {
                        return InputAction::Nothing;
                    }
                    let code: u16 = if button <= 5 {
                        8
                    } else {
                        6
                    };
                    let value: i32 = if button == 4 || button == 7 {
                        1
                    } else {
                        -1
                    };
                    return InputAction::Device(
                        VirtualDeviceKind::RelativeMouse,
                        one_event(DeviceEvent { kind: 2, code, value }),
                    );
                }
                match mouse_button_to_linux_keycode(button) {
                    Some(code) => {
                        let value: i32 = if is_press {
                            1
                        } else {
                            0
                        };
                        InputAction::Device(
                            VirtualDeviceKind::RelativeMouse,
                            one_event(DeviceEvent { kind: 1, code, value }),
                        )
                    },
                    None => InputAction::Nothing,
                }
            },
            InputBackend::X11(_) => InputAction::XButton(button, is_press),
            InputBackend::Windows => match windows_flags(button, is_press) {
                Some((flags, data)) => InputAction::WindowsMouse { dx: 0, dy: 0, data, flags },
                None => InputAction::Nothing,
            },
            InputBackend::Stub => InputAction::Nothing,
        }
    }

    /// Presses or releases a key.
    pub fn keyboard_key(&self, vk_code: u16, is_press: bool) -> (r: InputAction)
        ensures
            key_injected(*self, vk_code, is_press, r),
    {
        match self.backend {
            InputBackend::Uinput => match vk_to_linux_keycode(vk_code) {
                Some(code) => {
                    let value: i32 = if is_press {
                        1
                    } else {
                        0
                    };
                    InputAction::Device(
                        VirtualDeviceKind::Keyboard,
                        one_event(DeviceEvent { kind: 1, code, value }),
                    )
                },
                None => InputAction::Nothing,
            },
            InputBackend::X11(_) => match vk_to_keysym(vk_code) {
                Some(symbol) => InputAction::XKey(symbol, is_press),
                None => InputAction::Nothing,
            },
            InputBackend::Windows => {
                let flags: u32 = if is_press {
                    0x8
                } else {
                    0xa
                };
                InputAction::WindowsKey { vk: vk_code, flags }
            },
            InputBackend::Stub => InputAction::Nothing,
        }
    }

    /// Sends on what waits for the X server.
    pub fn flush(&self) -> (r: InputAction)
        ensures
            r == (match self.backend {
                InputBackend::X11(_) => InputAction::XFlush,
                _ => InputAction::Nothing,
            }),
    {
        match self.backend {
            InputBackend::X11(_) => InputAction::XFlush,
            _ => InputAction::Nothing,
        }
    }
}

/// A place inside the viewer's picture lands inside the target.
pub proof fn law_places_inside_stay_inside(i: InputInjector, v: int, reference: int, horizontal: bool)
    requires
        0 <= v <= reference,
        reference > 0,
        i.span(horizontal).1 >= 0,
    ensures
        i.span(horizontal).0 <= i.target(v, reference, horizontal) <= i.span(horizontal).0 + i.span(
            horizontal,
        ).1,
        v == 0 ==> i.target(v, reference, horizontal) == i.span(horizontal).0,
        v == reference ==> i.target(v, reference, horizontal) == i.span(horizontal).0 + i.span(
            horizontal,
        ).1,
{
    let span = i.span(horizontal).1;
    assert(0 <= v * span <= reference * span) by (nonlinear_arith)
        requires
            0 <= v <= reference,
            span >= 0,
    ;
    assert(0 <= (v * span) / reference <= span) by (nonlinear_arith)
        requires
            0 <= v * span <= reference * span,
            reference > 0,
    ;
    if v == 0 {
        assert(0 * span == 0) by (nonlinear_arith);
        assert(0int / reference == 0) by (nonlinear_arith)
            requires
                reference > 0,
        ;
    }
    if v == reference {
        assert((reference * span) / reference == span) by (nonlinear_arith)
            requires
                reference > 0,
        ;
    }
}

/// A place further right or down never lands further left or up.
pub proof fn law_places_keep_their_order(i: InputInjector, a: int, b: int, reference: int, horizontal: bool)
    requires
        0 <= a <= b,
        reference > 0,
        i.span(horizontal).1 >= 0,
    ensures
        i.target(a, reference, horizontal) <= i.target(b, reference, horizontal),
{
    let span = i.span(horizontal).1;
    assert(0 <= a * span <= b * span) by (nonlinear_arith)
        requires
            0 <= a <= b,
            span >= 0,
    ;
    assert((a * span) / reference <= (b * span) / reference) by (nonlinear_arith)
        requires
            a * span <= b * span,
            reference > 0,
    ;
}

/// The two ways to inject keys on Linux know the same keys.
pub proof fn law_both_key_tables_know_the_same_keys(vk: u16)
    ensures
        linux_key(vk) is Some <==> x_symbol(vk) is Some,
{
}

/// A button of a mouse, by where it is.
pub enum PhysicalButton {
    Left,
    Middle,
    Right,
    Side,
    Extra,
}

/// The button behind a number, as the X server counts them.
pub open spec fn numbered_button(button: u32) -> Option<PhysicalButton> {
    match button {
        1 => Some(PhysicalButton::Left),
        2 => Some(PhysicalButton::Middle),
        3 => Some(PhysicalButton::Right),
        8 => Some(PhysicalButton::Side),
        9 => Some(PhysicalButton::Extra),
        _ => None,
    }
}

/// The button behind a code of the kernel: `BTN_LEFT`, `BTN_RIGHT`, `BTN_MIDDLE`,
/// `BTN_SIDE` and `BTN_EXTRA`.
pub open spec fn kernel_button(code: u16) -> Option<PhysicalButton> {
    match code {
        0x110 => Some(PhysicalButton::Left),
        0x111 => Some(PhysicalButton::Right),
        0x112 => Some(PhysicalButton::Middle),
        0x113 => Some(PhysicalButton::Side),
        0x114 => Some(PhysicalButton::Extra),
        _ => None,
    }
}

/// The button behind flags and data of Windows, and whether it goes down:
/// `MOUSEEVENTF_LEFTDOWN` and `_LEFTUP`, `_RIGHTDOWN` and `_RIGHTUP`, `_MIDDLEDOWN` and
/// `_MIDDLEUP`, and `_XDOWN` and `_XUP` with the first or the second extra button.
pub open spec fn flagged_button(flags: u32, data: u32) -> Option<(PhysicalButton, bool)> {
    if data == 0 && (flags == 0x2 || flags == 0x4) {
        Some((PhysicalButton::Left, flags == 0x2))
    } else if data == 0 && (flags == 0x8 || flags == 0x10) {
        Some((PhysicalButton::Right, flags == 0x8))
    } else if data == 0 && (flags == 0x20 || flags == 0x40) {
        Some((PhysicalButton::Middle, flags == 0x20))
    } else if data == 1 && (flags == 0x80 || flags == 0x100) {
        Some((PhysicalButton::Side, flags == 0x80))
    } else if data == 2 && (flags == 0x80 || flags == 0x100) {
        Some((PhysicalButton::Extra, flags == 0x80))
    } else {
        None
    }
}

/// A viewer's button is the same button on every host: the kernel's code and the flags of
/// Windows for a number name the button that has that number, going down where it is
/// pressed and up where it is released. A number without a button has neither.
pub proof fn law_a_button_is_the_same_everywhere(button: u32, is_press: bool)
    ensures
        match numbered_button(button) {
            Some(b) => {
                &&& linux_button(button) matches Some(code) && kernel_button(code) == Some(b)
                &&& windows_button(button, is_press) matches Some((flags, data))
                    && flagged_button(flags, data) == Some((b, is_press))
                &&& wheel_event(button) is None
            },
            None => {
                &&& linux_button(button) is None
                &&& windows_button(button, is_press) matches Some((flags, data))
                    ==> flagged_button(flags, data) is None
            },
        },
        pressed(is_press) == 1 <==> is_press,
        pressed(is_press) == 0 <==> !is_press,
{
}

/// How far a wheel is turned by data of Windows: a number of two's complement, 120 for
/// each notch away from the user.
pub open spec fn turned_by(data: u32) -> int {
    if data < 0x8000_0000 {
        data as int
    } else {
        data - 0x1_0000_0000
    }
}

/// The buttons 4 and 5 turn the wheel a notch up and a notch down, on the kernel's wheel
/// and on that of Windows alike; 6 and 7 turn the kernel's horizontal wheel a notch left
/// and a notch right. No other button turns a wheel, and releasing one turns none.
pub proof fn law_wheels_turn_the_way_they_are_turned(button: u32)
    ensures
        ({
            let up: int = if button == 4 {
                1
            } else if button == 5 {
                -1
            } else {
                0
            };
            let right: int = if button == 7 {
                1
            } else if button == 6 {
                -1
            } else {
                0
            };
            &&& wheel_event(button) is Some <==> up != 0 || right != 0
            &&& wheel_event(button) matches Some(e) ==> e.kind == 2 && (if up != 0 {
                e.code == 8 && e.value == up
            } else {
                e.code == 6 && e.value == right
            })
            &&& up != 0 ==> (windows_button(button, true) matches Some((flags, data)) && flags
                == 0x800 && turned_by(data) == 120 * up)
            &&& up != 0 || right != 0 ==> windows_button(button, false) is None
            &&& right != 0 ==> windows_button(button, true) is None
        }),
{
}

/// The characters on the keys of a keyboard's four rows, from the kernel's code 2, 16, 30
/// and 43 on.
pub open spec fn key_rows() -> Seq<(int, Seq<char>)> {
    seq![
        (2int, seq!['1', '2', '3', '4', '5', '6', '7', '8', '9', '0', '-', '=']),
        (16int, seq!['q', 'w', 'e', 'r', 't', 'y', 'u', 'i', 'o', 'p', '[', ']']),
        (30int, seq!['a', 's', 'd', 'f', 'g', 'h', 'j', 'k', 'l', ';', '\'', '`']),
        (43int, seq!['\\', 'z', 'x', 'c', 'v', 'b', 'n', 'm', ',', '.', '/']),
    ]
}

/// Whether the key with a code of the kernel writes a character.
pub open spec fn key_writes(code: u16, c: char) -> bool {
    exists|r: int|
        #![trigger key_rows()[r]]
        0 <= r < 4 && key_rows()[r].0 <= code < key_rows()[r].0 + key_rows()[r].1.len()
            && key_rows()[r].1[code - key_rows()[r].0] == c
}

/// The character that a virtual key code stands for: letters and digits by their capital
/// and their own code, and the marks around them.
pub open spec fn key_character(vk: u16) -> Option<char> {
    if 0x30 <= vk <= 0x39 {
        Some(vk as char)
    } else if 0x41 <= vk <= 0x5a {
        Some((vk + 32) as char)
    } else {
        match vk {
            0xba => Some(';'),
            0xbb => Some('='),
            0xbc => Some(','),
            0xbd => Some('-'),
            0xbe => Some('.'),
            0xbf => Some('/'),
            0xc0 => Some('`'),
            0xdb => Some('['),
            0xdc => Some('\\'),
            0xdd => Some(']'),
            0xde => Some('\''),
            _ => None,
        }
    }
}

proof fn lemma_key_writes(code: u16, c: char, r: int)
    requires
        0 <= r < 4,
        key_rows()[r].0 <= code < key_rows()[r].0 + key_rows()[r].1.len(),
        key_rows()[r].1[code - key_rows()[r].0] == c,
    ensures
        key_writes(code, c),
{
}

/// A key that writes a character is that character's key: on the kernel's side the one
/// that bears it in the rows of the keyboard, on the X server's side its symbol.
pub proof fn law_characters_are_typed_on_their_keys(vk: u16)
    ensures
        key_character(vk) matches Some(c) ==> {
            &&& linux_key(vk) matches Some(code) && key_writes(code, c)
            &&& x_symbol(vk) == Some(c as u32)
        },
{
    if key_character(vk) is Some {
        let c = key_character(vk)->0;
        let code = linux_key(vk)->0;
        let r: int = if code < 16 {
            0
        } else if code < 30 {
            1
        } else if code < 43 {
            2
        } else {
            3
        };
        let rows = key_rows();
        assert(rows[0].0 == 2 && rows[1].0 == 16 && rows[2].0 == 30 && rows[3].0 == 43);
        assert(rows[0].1.len() == 12 && rows[1].1.len() == 12 && rows[2].1.len() == 12
            && rows[3].1.len() == 11);
        lemma_key_writes(code, c, r);
    }
}

/// A key that writes no character.
pub enum NamedKey {
    Backspace,
    Tab,
    Enter,
    Escape,
    Space,
    LeftShift,
    RightShift,
    LeftControl,
    RightControl,
    LeftAlt,
    RightAlt,
    LeftMeta,
    RightMeta,
    NumLock,
    ScrollLock,
    Home,
    LeftArrow,
    UpArrow,
    RightArrow,
    DownArrow,
    PageUp,
    PageDown,
    End,
    Insert,
    Delete,
}

/// The key that a virtual key code of Windows names. A modifier without a side is the left
/// one.
pub open spec fn named_key(vk: u16) -> Option<NamedKey> {
    match vk {
        0x08 => Some(NamedKey::Backspace),
        0x09 => Some(NamedKey::Tab),
        0x0d => Some(NamedKey::Enter),
        0x1b => Some(NamedKey::Escape),
        0x20 => Some(NamedKey::Space),
        0x10 | 0xa0 => Some(NamedKey::LeftShift),
        0xa1 => Some(NamedKey::RightShift),
        0x11 | 0xa2 => Some(NamedKey::LeftControl),
        0xa3 => Some(NamedKey::RightControl),
        0x12 | 0xa4 => Some(NamedKey::LeftAlt),
        0xa5 => Some(NamedKey::RightAlt),
        0x5b => Some(NamedKey::LeftMeta),
        0x5c => Some(NamedKey::RightMeta),
        0x90 => Some(NamedKey::NumLock),
        0x91 => Some(NamedKey::ScrollLock),
        0x24 => Some(NamedKey::Home),
        0x25 => Some(NamedKey::LeftArrow),
        0x26 => Some(NamedKey::UpArrow),
        0x27 => Some(NamedKey::RightArrow),
        0x28 => Some(NamedKey::DownArrow),
        0x21 => Some(NamedKey::PageUp),
        0x22 => Some(NamedKey::PageDown),
        0x23 => Some(NamedKey::End),
        0x2d => Some(NamedKey::Insert),
        0x2e => Some(NamedKey::Delete),
        _ => None,
    }
}

/// The kernel's code of a key, from `KEY_ESC` to `KEY_RIGHTMETA`.
pub open spec fn kernel_name(key: NamedKey) -> u16 {
    match key {
        NamedKey::Escape => 1,
        NamedKey::Backspace => 14,
        NamedKey::Tab => 15,
        NamedKey::Enter => 28,
        NamedKey::LeftControl => 29,
        NamedKey::LeftShift => 42,
        NamedKey::RightShift => 54,
        NamedKey::LeftAlt => 56,
        NamedKey::Space => 57,
        NamedKey::NumLock => 69,
        NamedKey::ScrollLock => 70,
        NamedKey::RightControl => 97,
        NamedKey::RightAlt => 100,
        NamedKey::Home => 102,
        NamedKey::UpArrow => 103,
        NamedKey::PageUp => 104,
        NamedKey::LeftArrow => 105,
        NamedKey::RightArrow => 106,
        NamedKey::End => 107,
        NamedKey::DownArrow => 108,
        NamedKey::PageDown => 109,
        NamedKey::Insert => 110,
        NamedKey::Delete => 111,
        NamedKey::LeftMeta => 125,
        NamedKey::RightMeta => 126,
    }
}

/// The X server's symbol of a key, from `XK_BackSpace` to `XK_Delete`.
pub open spec fn symbol_name(key: NamedKey) -> u32 {
    match key {
        NamedKey::Space => 0x20,
        NamedKey::Backspace => 0xff08,
        NamedKey::Tab => 0xff09,
        NamedKey::Enter => 0xff0d,
        NamedKey::ScrollLock => 0xff14,
        NamedKey::Escape => 0xff1b,
        NamedKey::Home => 0xff50,
        NamedKey::LeftArrow => 0xff51,
        NamedKey::UpArrow => 0xff52,
        NamedKey::RightArrow => 0xff53,
        NamedKey::DownArrow => 0xff54,
        NamedKey::PageUp => 0xff55,
        NamedKey::PageDown => 0xff56,
        NamedKey::End => 0xff57,
        NamedKey::Insert => 0xff63,
        NamedKey::NumLock => 0xff7f,
        NamedKey::LeftShift => 0xffe1,
        NamedKey::RightShift => 0xffe2,
        NamedKey::LeftControl => 0xffe3,
        NamedKey::RightControl => 0xffe4,
        NamedKey::LeftAlt => 0xffe9,
        NamedKey::RightAlt => 0xffea,
        NamedKey::LeftMeta => 0xffeb,
        NamedKey::RightMeta => 0xffec,
        NamedKey::Delete => 0xffff,
    }
}

/// The character on a key of the keypad, by the key's virtual code.
pub open spec fn keypad_character(vk: u16) -> Option<int> {
    if 0x60 <= vk <= 0x69 {
        Some(vk - 0x30)
    } else if vk == 0x6a || vk == 0x6b || vk == 0x6d || vk == 0x6e || vk == 0x6f {
        Some(vk - 0x40)
    } else {
        None
    }
}

/// The kernel's code of the keypad's key with a character: three rows of three digits, the
/// first ones from 71, 75 and 79 on, and the keys around them.
pub open spec fn keypad_code(character: int) -> int {
    if character == '0' as int {
        82
    } else if '1' as int <= character <= '3' as int {
        79 + (character - '1' as int)
    } else if '4' as int <= character <= '6' as int {
        75 + (character - '4' as int)
    } else if '7' as int <= character <= '9' as int {
        71 + (character - '7' as int)
    } else if character == '*' as int {
        55
    } else if character == '-' as int {
        74
    } else if character == '+' as int {
        78
    } else if character == '.' as int {
        83
    } else {
        98
    }
}

/// Every other key is the same key for the kernel, the X server and the viewer: the named
/// ones, the keypad's, whose symbols are their characters above 0xff80, and the twelve
/// function keys. A code that is none of these and writes no character is no key.
pub proof fn law_keys_are_the_same_everywhere(vk: u16)
    ensures
        named_key(vk) matches Some(k) ==> linux_key(vk) == Some(kernel_name(k)) && x_symbol(vk)
            == Some(symbol_name(k)),
        keypad_character(vk) matches Some(c) ==> (linux_key(vk) matches Some(code) && code
            == keypad_code(c)) && (x_symbol(vk) matches Some(s) && s == 0xff80 + c),
        0x70 <= vk <= 0x7b ==> (x_symbol(vk) matches Some(s) && s == 0xffbe + (vk - 0x70)) && (
        linux_key(vk) matches Some(code) && code == (if vk <= 0x79 {
            59 + (vk - 0x70)
        } else {
            87 + (vk - 0x7a)
        })),
        linux_key(vk) is Some <==> key_character(vk) is Some || named_key(vk) is Some
            || keypad_character(vk) is Some || 0x70 <= vk <= 0x7b,
{
}

/// A place keeps its proportion: on the target it is as far from the corner, of the whole
/// width or height, as it is in the viewer's picture, to less than one step. The target is
/// the kernel's scale to 32767, Windows' scale to 65535 or, for the X server, the monitor.
pub proof fn law_places_keep_their_proportion(
    i: InputInjector,
    v: int,
    reference: int,
    horizontal: bool,
)
    requires
        0 <= v,
        reference > 0,
        i.span(horizontal).1 >= 0,
    ensures
        ({
            let (start, span): (int, int) = match i.backend {
                InputBackend::X11(g) => if horizontal {
                    (g.x as int, g.width as int)
                } else {
                    (g.y as int, g.height as int)
                },
                InputBackend::Uinput => (0int, 32_767int),
                _ => (0int, 65_535int),
            };
            let steps = i.target(v, reference, horizontal) - start;
            steps * reference <= v * span < (steps + 1) * reference
        }),
{
    let span = i.span(horizontal).1;
    let q = (v * span) / reference;
    assert(0 <= v * span) by (nonlinear_arith)
        requires
            0 <= v,
            0 <= span,
    ;
    assert(q * reference <= v * span < (q + 1) * reference) by (nonlinear_arith)
        requires
            q == (v * span) / reference,
            reference > 0,
    ;
}

/// The pointer moves by what the viewer moved it, across by the first number and down by the
/// second, whatever injects it; where nothing can be injected nothing happens.
pub proof fn law_the_pointer_moves_as_it_was_moved(
    i: InputInjector,
    dx: i32,
    dy: i32,
    r: InputAction,
)
    requires
        moved_by(i, dx, dy, r),
    ensures
        match r {
            InputAction::Device(d, e) => i.backend is Uinput && d
                == VirtualDeviceKind::RelativeMouse && e@.len() == 3 && e@[0].kind == 2 && e@[0].code
                == 0 && e@[0].value == dx && e@[1].kind == 2 && e@[1].code == 1 && e@[1].value == dy
                && e@[2].kind == 0 && e@[2].code == 0,
            InputAction::XMoveBy(x, y) => i.backend is X11 && x == dx && y == dy,
            InputAction::WindowsMouse { dx: x, dy: y, data, flags } => i.backend is Windows && x == dx
                && y == dy && data == 0 && flags == 1,
            InputAction::Nothing => i.backend is Stub,
            _ => false,
        },
{
}

/// The pointer goes to the place that the viewer points to: as far across its target, of the
/// whole width, as it is across the viewer's picture, and as far down, of the whole height.
/// The X server's target is the monitor, the kernel's a scale to 32767, Windows' one to
/// 65535. A picture without a size moves nothing.
pub proof fn law_the_pointer_goes_where_it_points(
    i: InputInjector,
    x: i32,
    y: i32,
    width: i32,
    height: i32,
    r: InputAction,
)
    requires
        moved_to(i, x, y, width, height, r),
        0 <= x,
        0 <= y,
        i.backend matches InputBackend::X11(g) ==> g.width >= 0 && g.height >= 0,
        width > 0 && height > 0 ==> {
            &&& i32::MIN <= i.target(x as int, width as int, true) <= i32::MAX
            &&& i32::MIN <= i.target(y as int, height as int, false) <= i32::MAX
        },
    ensures
        width <= 0 || height <= 0 ==> r == InputAction::Nothing,
        width > 0 && height > 0 ==> match r {
            InputAction::Device(d, e) => {
                let across = e@[1].value as int;
                let down = e@[2].value as int;
                &&& i.backend is Uinput && d == VirtualDeviceKind::AbsoluteMouse && e@.len() == 4
                &&& e@[0].kind == 1 && e@[0].code == 0x140 && e@[0].value == 1
                &&& e@[1].kind == 3 && e@[1].code == 0 && e@[2].kind == 3 && e@[2].code == 1
                &&& e@[3].kind == 0 && e@[3].code == 0
                &&& across * width <= x * 32_767 < (across + 1) * width
                &&& down * height <= y * 32_767 < (down + 1) * height
            },
            InputAction::XMoveTo(a, b) => {
                let g = i.backend->X11_0;
                let across = a - g.x;
                let down = b - g.y;
                &&& i.backend is X11
                &&& across * width <= x * g.width < (across + 1) * width
                &&& down * height <= y * g.height < (down + 1) * height
            },
            InputAction::WindowsMouse { dx, dy, data, flags } => {
                &&& i.backend is Windows && data == 0 && flags == 0x8001
                &&& dx * width <= x * 65_535 < (dx + 1) * width
                &&& dy * height <= y * 65_535 < (dy + 1) * height
            },
            InputAction::Nothing => i.backend is Stub,
            _ => false,
        },
{
    if width > 0 && height > 0 {
        law_places_keep_their_proportion(i, x as int, width as int, true);
        law_places_keep_their_proportion(i, y as int, height as int, false);
    }
}

/// A key goes down when it is pressed and up when it is released, the same key both times:
/// the kernel's or the X server's of that name, and on Windows the one with that code. A key
/// that is not known does nothing.
pub proof fn law_a_key_goes_down_and_up(
    i: InputInjector,
    vk: u16,
    down: InputAction,
    up: InputAction,
)
    requires
        key_injected(i, vk, true, down),
        key_injected(i, vk, false, up),
    ensures
        match i.backend {
            InputBackend::Uinput => if linux_key(vk) is Some {
                &&& down matches InputAction::Device(d, e) && d == VirtualDeviceKind::Keyboard
                    && e@.len() == 2 && e@[0].kind == 1 && e@[0].code == linux_key(vk)->0
                    && e@[0].value == 1 && e@[1].kind == 0
                &&& up matches InputAction::Device(d, e) && d == VirtualDeviceKind::Keyboard
                    && e@.len() == 2 && e@[0].kind == 1 && e@[0].code == linux_key(vk)->0
                    && e@[0].value == 0 && e@[1].kind == 0
            } else {
                down == InputAction::Nothing && up == InputAction::Nothing
            },
            InputBackend::X11(_) => if x_symbol(vk) is Some {
                &&& down == InputAction::XKey(x_symbol(vk)->0, true)
                &&& up == InputAction::XKey(x_symbol(vk)->0, false)
            } else {
                down == InputAction::Nothing && up == InputAction::Nothing
            },
            InputBackend::Windows => {
                &&& down matches InputAction::WindowsKey { vk: k, flags } && k == vk && flags == 8
                &&& up matches InputAction::WindowsKey { vk: k, flags } && k == vk && flags == 8 + 2
            },
            InputBackend::Stub => down == InputAction::Nothing && up == InputAction::Nothing,
        },
{
}

/// A button goes down when it is pressed and up when it is released, the same button both
/// times and on every host. A wheel turns when its button is pressed, and does nothing when
/// it is released.
pub proof fn law_a_button_goes_down_and_up(
    i: InputInjector,
    button: u32,
    down: InputAction,
    up: InputAction,
)
    requires
        button_injected(i, button, true, down),
        button_injected(i, button, false, up),
    ensures
        i.backend is X11 ==> down == InputAction::XButton(button, true) && up
            == InputAction::XButton(button, false),
        i.backend is Stub ==> down == InputAction::Nothing && up == InputAction::Nothing,
        numbered_button(button) is Some && i.backend is Uinput ==> {
            &&& down matches InputAction::Device(d, e) && d == VirtualDeviceKind::RelativeMouse
                && e@.len() == 2 && e@[0].kind == 1 && e@[0].value == 1 && kernel_button(e@[0].code)
                == numbered_button(button)
            &&& up matches InputAction::Device(d, e) && d == VirtualDeviceKind::RelativeMouse
                && e@.len() == 2 && e@[0].kind == 1 && e@[0].value == 0 && kernel_button(e@[0].code)
                == numbered_button(button)
        },
        numbered_button(button) is Some && i.backend is Windows ==> {
            &&& down matches InputAction::WindowsMouse { dx, dy, data, flags } && dx == 0 && dy == 0
                && flagged_button(flags, data) == Some((numbered_button(button)->0, true))
            &&& up matches InputAction::WindowsMouse { dx, dy, data, flags } && dx == 0 && dy == 0
                && flagged_button(flags, data) == Some((numbered_button(button)->0, false))
        },
        4 <= button <= 7 && i.backend is Uinput ==> {
            &&& down matches InputAction::Device(d, e) && d == VirtualDeviceKind::RelativeMouse
                && e@.len() == 2 && e@[0].kind == 2 && e@[0].code == (if button <= 5 {
                8int
            } else {
                6
            }) && e@[0].value == (if button == 4 || button == 7 {
                1int
            } else {
                -1
            })
            &&& up == InputAction::Nothing
        },
        4 <= button <= 5 && i.backend is Windows ==> {
            &&& down matches InputAction::WindowsMouse { dx, dy, data, flags } && dx == 0 && dy == 0
                && flags == 0x800 && turned_by(data) == (if button == 4 {
                120int
            } else {
                -120
            })
            &&& up == InputAction::Nothing
        },
{
    law_a_button_is_the_same_everywhere(button, true);
    law_a_button_is_the_same_everywhere(button, false);
    law_wheels_turn_the_way_they_are_turned(button);
}

/// A Linux host with an X display that could be opened is injected through it, on the
/// primary monitor where xrandr names one and on the whole screen else; a host without one
/// through virtual devices where they could be made, else not. Windows is injected by its
/// own call, and other platforms do nothing.
pub proof fn law_how_a_host_is_injected(host: InputHost)
    ensures
        host.platform == Platform::Windows ==> injector_for(host) == Some(
            (InputInjector { backend: InputBackend::Windows }),
        ),
        host.platform == Platform::MacOs || host.platform == Platform::Other ==> injector_for(host)
            == Some((InputInjector { backend: InputBackend::Stub })),
        host.platform == Platform::Linux ==> {
            let x = host.display_set && host.screen is Some;
            &&& x ==> (injector_for(host) matches Some(i) && i.backend matches InputBackend::X11(g)
                && match host.xrandr {
                Some(o) => primary_monitor(o@) == Some(g) || (primary_monitor(o@) is None && g.x == 0
                    && g.y == 0 && (g.width, g.height) == host.screen->0),
                None => g.x == 0 && g.y == 0 && (g.width, g.height) == host.screen->0,
            })
            &&& !x && host.uinput ==> injector_for(host) == Some(
                (InputInjector { backend: InputBackend::Uinput }),
            )
            &&& !x && !host.uinput ==> injector_for(host) is None
        },
{
}

/// A monitor's geometry is read as it is written: width, height, and the place from the left
/// and from the top.
pub proof fn law_written_monitors_are_read_back(g: MonitorGeometry)
    requires
        0 <= g.width,
        0 <= g.height,
    ensures
        ({
            let word = dec(g.width as nat).push('x') + dec(g.height as nat) + seq!['+']
                + signed_dec(g.x as int) + seq!['+'] + signed_dec(g.y as int);
            &&& geometry_word(word)
            &&& word_geometry(word) == Some(g)
        }),
{
    let dw = dec(g.width as nat);
    let dh = dec(g.height as nat);
    let sx = signed_dec(g.x as int);
    let sy = signed_dec(g.y as int);
    let size = dw.push('x') + dh;
    let two = size.push('+') + sx;
    let whole = dw.push('x') + dh + seq!['+'] + sx + seq!['+'] + sy;
    assert(whole =~= two.push('+') + sy);
    lemma_decimals_are_digits(g.width as nat);
    lemma_decimals_are_digits(g.height as nat);
    law_written_signed_numbers_are_read_back(g.x);
    law_written_signed_numbers_are_read_back(g.y);
    law_written_signed_numbers_are_read_back(g.width);
    law_written_signed_numbers_are_read_back(g.height);
    assert(!size.contains('+')) by {
        if size.contains('+') {
            let i = size.index_of('+');
            if i < dw.len() {
                assert(dw[i] == '+');
            } else if i > dw.len() {
                assert(dh[i - dw.len() - 1] == '+');
            }
        }
    }
    law_pieces_stand_between_characters(Seq::empty(), size, '+');
    law_pieces_stand_between_characters(size, sx, '+');
    law_pieces_stand_between_characters(two, sy, '+');
    assert(split_on(whole, '+') =~= seq![size, sx, sy]);
    law_pieces_stand_between_characters(Seq::empty(), dw, 'x');
    law_pieces_stand_between_characters(dw, dh, 'x');
    assert(split_on(size, 'x') =~= seq![dw, dh]);
    assert(whole[dw.len() as int] == 'x');
    assert(whole[size.len() as int] == '+');
}

/// The primary monitor's geometry wins, wherever it stands; before it comes, the first
/// connected one is kept. What is found stays found.
pub proof fn law_the_primary_monitor_wins(
    s: MonitorSearch,
    first: Option<MonitorGeometry>,
    word: Seq<char>,
    g: MonitorGeometry,
)
    requires
        geometry_word(word),
        word_geometry(word) == Some(g),
    ensures
        after_word(MonitorSearch::Going(first), word, true) == MonitorSearch::Done(Some(g)),
        after_word(MonitorSearch::Going(None), word, false) == MonitorSearch::Going(Some(g)),
        first is Some ==> after_word(MonitorSearch::Going(first), word, false)
            == MonitorSearch::Going(first),
        s is Done ==> after_word(s, word, true) == s && after_word(s, word, false) == s,
{
}

} // verus!
