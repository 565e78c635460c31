//! Capture of a Windows desktop: by desktop duplication, or by GDI where that
//! fails or yields black frames only.

use crate::capture::gpu_buffer::GpuBuffer;
use crate::capture::overlay::{
    any_alpha, apply_mask, cursor_byte, cursor_from_masks, draw_cursor, drawn, has_alpha,
    law_a_mask_only_sets_opacity, law_solid_replaces_and_clear_keeps, law_two_masks_make_a_cursor,
    masked, mono_bytes, CursorPlace, FrameLayout,
};
use crate::capture::{cpu_frame, is_cpu_frame, CapturedFrame};
use crate::error::{ErrorView, MediaError};
use crate::text::{
    chars_of, dec, dec_text, from_utf16, is_text, law_written_numbers_are_read_back, lower_all,
    lowered, parse_usize, string_of, text_of_wide, unsigned_of,
};
use crate::types::{DisplayInfo, StreamConfig};
use vstd::prelude::*;

verus! {

// ---- Displays ----

/// A monitor's rectangle on the desktop, with its device name.
#[derive(Debug)]
pub struct DesktopOutput {
    pub left: i32,
    pub top: i32,
    pub right: i32,
    pub bottom: i32,
    /// The device's name in UTF-16, ended by a zero where it is shorter than the
    /// buffer.
    pub device_name: Vec<u16>,
    pub is_primary: bool,
}

impl DesktopOutput {
    /// The size fits in the system's coordinates.
    pub open spec fn wf(&self) -> bool {
        i32::MIN <= self.right - self.left <= i32::MAX && i32::MIN <= self.bottom - self.top
            <= i32::MAX
    }
}

/// The units before the first zero.
pub open spec fn up_to_zero(s: Seq<u16>) -> Seq<u16>
    decreases s.len(),
{
    if s.len() == 0 || s[0] == 0 {
        Seq::empty()
    } else {
        seq![s[0]] + up_to_zero(s.skip(1))
    }
}

fn until_zero(v: &Vec<u16>) -> (r: Vec<u16>)
    ensures
        r@ == up_to_zero(v@),
{
    let mut r: Vec<u16> = Vec::new();
    let mut i: usize = 0;
    assert(v@.skip(0) =~= v@);
    while i < v.len() && v[i] != 0
        invariant
            i <= v@.len(),
            r@ + up_to_zero(v@.skip(i as int)) == up_to_zero(v@),
        decreases v@.len() - i,
    {
        let ghost rest = v@.skip(i as int);
        let ghost done = r@;
        r.push(v[i]);
        proof {
            assert(rest[0] == v@[i as int]);
            assert(rest.skip(1) =~= v@.skip(i as int + 1));
            assert(r@ + up_to_zero(v@.skip(i as int + 1)) =~= done + up_to_zero(rest));
        }
        i = i + 1;
    }
    proof {
        let rest = v@.skip(i as int);
        assert(rest.len() > 0 ==> rest[0] == v@[i as int]);
        assert(up_to_zero(rest) =~= Seq::<u16>::empty());
        assert(r@ =~= up_to_zero(v@));
    }
    r
}

/// What a list says of the display at `i`.
pub open spec fn listed(o: DesktopOutput, i: int, is_primary: bool, d: DisplayInfo) -> bool {
    &&& d.id@ == dec(i as nat)
    &&& d.name@ == from_utf16(up_to_zero(o.device_name@))
    &&& d.width == (o.right - o.left) as u32
    &&& d.height == (o.bottom - o.top) as u32
    &&& d.refresh_rate@ == "60.0"@
    &&& d.is_primary == is_primary
}

fn display_of(o: &DesktopOutput, i: usize, is_primary: bool) -> (d: DisplayInfo)
    requires
        o.wf(),
    ensures
        listed(*o, i as int, is_primary, d),
{
    let units: Vec<u16> = until_zero(&o.device_name);
    let name: Vec<char> = text_of_wide(units.as_slice());
    DisplayInfo {
        id: dec_text(i as u64),
        name: string_of(name.as_slice()),
        width: (o.right - o.left) as u32,
        height: (o.bottom - o.top) as u32,
        refresh_rate: "60.0".to_owned(),
        is_primary,
    }
}

pub open spec fn all_wf(outputs: Seq<DesktopOutput>) -> bool {
    forall|i: int| 0 <= i < outputs.len() ==> (#[trigger] outputs[i]).wf()
}

/// The displays that GDI lists, by their place in its list; `None` where it
/// could not list them.
pub fn list_gdi_displays(monitors: Option<&Vec<DesktopOutput>>) -> (r: Result<
    Vec<DisplayInfo>,
    MediaError,
>)
    requires
        monitors matches Some(m) ==> all_wf(m@),
    ensures
        match (monitors, r) {
            (None, Err(e)) => e@ == ErrorView::CaptureError("EnumDisplayMonitors failed"@),
            (Some(m), Ok(v)) => v@.len() == m@.len() && forall|i: int|
                #![trigger v@[i]]
                0 <= i < v@.len() ==> listed(m@[i], i, m@[i].is_primary, v@[i]),
            _ => false,
        },
{
    match monitors {
        None => Err(MediaError::capture("EnumDisplayMonitors failed")),
        Some(m) => {
            let mut v: Vec<DisplayInfo> = Vec::new();
            for i in 0..m.len()
                invariant
                    all_wf(m@),
                    v@.len() == i,
                    forall|j: int|
                        #![trigger v@[j]]
                        0 <= j < i ==> listed(m@[j], j, m@[j].is_primary, v@[j]),
            {
                v.push(display_of(&m[i], i, m[i].is_primary));
            }
            Ok(v)
        },
    }
}

/// The index that a display's id names; the first display where it is no number.
pub open spec fn index_of(display_id: Seq<char>) -> nat {
    match unsigned_of(display_id, usize::MAX as nat) {
        Some(n) => n,
        None => 0,
    }
}

/// The display that an id names among `count` of them.
pub fn find_output(display_id: &str, count: usize) -> (r: Result<usize, MediaError>)
    ensures
        match r {
            Ok(i) => i < count && i == index_of(display_id@),
            Err(e) => index_of(display_id@) >= count && e@ == ErrorView::CaptureError(
                "Display "@ + display_id@ + " not found"@,
            ),
        },
{
    let text: Vec<char> = chars_of(display_id);
    let index: usize = match parse_usize(text.as_slice()) {
        Some(n) => n,
        None => 0,
    };
    if index < count {
        Ok(index)
    } else {
        Err(
            MediaError::CaptureError(
                "Display ".to_owned().concat(display_id).concat(" not found"),
            ),
        )
    }
}

// ---- The cursor in a frame ----

/// What the system gives of a visible cursor.
pub struct CursorSample {
    pub screen_x: i32,
    pub screen_y: i32,
    pub hotspot_x: i32,
    pub hotspot_y: i32,
    pub width: u32,
    pub height: u32,
    /// The color bitmap in BGRA, where there is one.
    pub color: Option<Vec<u8>>,
    /// The mask in BGRA, of twice the height.
    pub mask: Option<Vec<u8>>,
}

impl CursorSample {
    /// The bitmaps are as large as the size says, one of them is there, and
    /// the cursor's corner can be computed.
    pub open spec fn wf(&self, x_offset: i32, y_offset: i32) -> bool {
        &&& self.color matches Some(c) ==> c@.len() == self.width * self.height * 4
        &&& self.mask matches Some(m) ==> m@.len() == self.width * self.height * 8
        &&& self.color is Some || self.mask is Some
        &&& i32::MIN <= self.screen_x - x_offset - self.hotspot_x <= i32::MAX
        &&& i32::MIN <= self.screen_y - y_offset - self.hotspot_y <= i32::MAX
    }
}

/// The cursor's picture in BGRA: the color bitmap, with the mask's opacity where
/// it has none; or the mask's two colours.
pub open spec fn sample_bytes(s: CursorSample) -> Seq<u8> {
    match s.color {
        Some(c) => match s.mask {
            Some(m) if !has_alpha(c@) => masked(c@, m@, s.width * s.height),
            _ => c@,
        },
        None => mono_bytes(s.mask->0@, (s.width * s.height) as nat),
    }
}

/// Where the cursor's corner stands in a frame.
pub open spec fn sample_place(s: CursorSample, x_offset: i32, y_offset: i32) -> CursorPlace {
    CursorPlace {
        x: (s.screen_x - x_offset - s.hotspot_x) as i64,
        y: (s.screen_y - y_offset - s.hotspot_y) as i64,
        width: s.width,
        height: s.height,
    }
}

/// A frame with a cursor drawn into it, where there is one.
pub open spec fn with_cursor(
    frame: Seq<u8>,
    f: FrameLayout,
    s: Option<CursorSample>,
    x_offset: i32,
    y_offset: i32,
) -> Seq<u8> {
    match s {
        Some(s) => drawn(frame, f, sample_bytes(s), sample_place(s, x_offset, y_offset)),
        None => frame,
    }
}

/// Draws the cursor into a frame in BGRA.
pub fn draw_cursor_onto_buffer(
    frame: &mut Vec<u8>,
    f: FrameLayout,
    s: CursorSample,
    x_offset: i32,
    y_offset: i32,
)
    requires
        f.width * 4 <= f.stride,
        s.wf(x_offset, y_offset),
    ensures
        final(frame)@ == with_cursor(old(frame)@, f, Some(s), x_offset, y_offset),
{
    let p = CursorPlace {
        x: s.screen_x as i64 - x_offset as i64 - s.hotspot_x as i64,
        y: s.screen_y as i64 - y_offset as i64 - s.hotspot_y as i64,
        width: s.width,
        height: s.height,
    };
    assert(s.width * s.height <= u32::MAX * u32::MAX) by (nonlinear_arith)
        requires
            s.width <= u32::MAX,
            s.height <= u32::MAX,
    ;
    let count: u64 = s.width as u64 * s.height as u64;
    let picture: Vec<u8> = match s.color {
        Some(c) => {
            let mut c: Vec<u8> = c;
            if let Some(m) = &s.mask {
                if !any_alpha(c.as_slice()) {
                    let n: usize = c.len();
                    assert(count * 4 == n);
                    apply_mask(&mut c, m.as_slice(), count as usize);
                }
            }
            c
        },
        None => match &s.mask {
            Some(m) => {
                let n: usize = m.len();
                assert(count * 8 == n);
                cursor_from_masks(m.as_slice(), count as usize)
            },
            None => Vec::new(),
        },
    };
    assert(picture@ == sample_bytes(s));
    draw_cursor(frame.as_mut_slice(), f, picture.as_slice(), p);
}

// ---- Desktop duplication ----

/// A call that desktop duplication makes.
#[derive(Debug, Clone, Copy, PartialEq, Eq, Structural)]
pub enum DxgiCall {
    CreateDevice,
    CastDevice,
    GetAdapter,
    GetDesc,
    CreateStaging,
    Duplicate,
    Acquire,
    CastTexture,
    MapTexture,
}

/// What a failed call is described by, before and behind the system's text.
pub open spec fn call_text(call: DxgiCall) -> (Seq<char>, Seq<char>) {
    match call {
        DxgiCall::CreateDevice => ("D3D11CreateDevice failed: "@, ""@),
        DxgiCall::CastDevice => ("Cast to IDXGIDevice failed: "@, ""@),
        DxgiCall::GetAdapter => ("GetAdapter failed: "@, ""@),
        DxgiCall::GetDesc => ("GetDesc failed: "@, ""@),
        DxgiCall::CreateStaging => ("CreateTexture2D staging failed: "@, ""@),
        DxgiCall::Duplicate => (
            "DuplicateOutput failed: "@,
            ". Ensure no other app is using Desktop Duplication."@,
        ),
        DxgiCall::Acquire => ("AcquireNextFrame failed: "@, ""@),
        DxgiCall::CastTexture => ("Cast to Texture2D failed: "@, ""@),
        DxgiCall::MapTexture => ("Map failed: "@, ""@),
    }
}

/// The error of a call that failed.
pub fn dxgi_failure(call: DxgiCall, text: &str) -> (e: MediaError)
    ensures
        e@ == ErrorView::CaptureError(call_text(call).0 + text@ + call_text(call).1),
{
    let (front, back): (&str, &str) = match call {
        DxgiCall::CreateDevice => ("D3D11CreateDevice failed: ", ""),
        DxgiCall::CastDevice => ("Cast to IDXGIDevice failed: ", ""),
        DxgiCall::GetAdapter => ("GetAdapter failed: ", ""),
        DxgiCall::GetDesc => ("GetDesc failed: ", ""),
        DxgiCall::CreateStaging => ("CreateTexture2D staging failed: ", ""),
        DxgiCall::Duplicate => (
            "DuplicateOutput failed: ",
            ". Ensure no other app is using Desktop Duplication.",
        ),
        DxgiCall::Acquire => ("AcquireNextFrame failed: ", ""),
        DxgiCall::CastTexture => ("Cast to Texture2D failed: ", ""),
        DxgiCall::MapTexture => ("Map failed: ", ""),
    };
    MediaError::CaptureError(front.to_owned().concat(text).concat(back))
}

/// Something that a call should have returned.
#[derive(Debug, Clone, Copy, PartialEq, Eq, Structural)]
pub enum DxgiObject {
    Device,
    Context,
    Staging,
    Resource,
}

/// The error of a call that returned nothing.
pub fn dxgi_missing(object: DxgiObject) -> (e: MediaError)
    ensures
        e@ == ErrorView::CaptureError(
            match object {
                DxgiObject::Device => "D3D11 device is None"@,
                DxgiObject::Context => "D3D11 context is None"@,
                DxgiObject::Staging => "Staging texture is None"@,
                DxgiObject::Resource => "Desktop resource is None"@,
            },
        ),
{
    match object {
        DxgiObject::Device => MediaError::capture("D3D11 device is None"),
        DxgiObject::Context => MediaError::capture("D3D11 context is None"),
        DxgiObject::Staging => MediaError::capture("Staging texture is None"),
        DxgiObject::Resource => MediaError::capture("Desktop resource is None"),
    }
}

/// How long a still desktop goes without a frame, in microseconds.
pub const KEEPALIVE_US: u64 = 500_000;

/// The desktop duplication's state. The devices are held by the caller.
pub struct DxgiCapture {
    pub width: u32,
    pub height: u32,
    pub x_offset: i32,
    pub y_offset: i32,
    pub capturing: bool,
    pub frame_count: u64,
    /// The last frame's bytes and stride.
    pub last_frame_data: Option<(Vec<u8>, u32)>,
    /// When a frame with bytes was last returned, in microseconds.
    pub last_returned_us: Option<u64>,
}

/// Whether a still desktop's last frame is due again.
pub open spec fn keepalive_due(last: Option<u64>, now_us: u64) -> bool {
    match last {
        None => true,
        Some(t) => now_us - t >= KEEPALIVE_US,
    }
}

/// The bytes and stride of a frame that may be there.
pub open spec fn frame_bytes(f: Option<(Vec<u8>, u32)>) -> Option<(Seq<u8>, u32)> {
    match f {
        Some((d, s)) => Some((d@, s)),
        None => None,
    }
}

/// What asking the system for the next frame of the desktop gave.
pub enum Acquired {
    /// The desktop did not change.
    TimedOut,
    /// A call failed, with the system's text.
    Failed(DxgiCall, String),
    /// There was no picture.
    NoResource,
    /// The desktop's bytes, and the cursor where one is shown.
    Frame { data: Vec<u8>, stride: u32, cursor: Option<CursorSample> },
}

impl Acquired {
    /// What was acquired belongs to a capture: it is no older than the last
    /// frame, and its rows hold the width.
    pub open spec fn fits(&self, c: DxgiCapture, now_us: u64) -> bool {
        match self {
            Acquired::TimedOut => c.last_returned_us matches Some(t) ==> t <= now_us,
            Acquired::Frame { stride, cursor, .. } => {
                &&& c.frame_count < u64::MAX
                &&& c.width * 4 <= *stride
                &&& *cursor matches Some(s) ==> s.wf(c.x_offset, c.y_offset)
            },
            _ => true,
        }
    }
}

/// The last frame's bytes and stride, where they are due again.
pub open spec fn shown_again(c: DxgiCapture, now_us: u64) -> Option<(Seq<u8>, u32)> {
    if keepalive_due(c.last_returned_us, now_us) {
        frame_bytes(c.last_frame_data)
    } else {
        None
    }
}

/// Whether `r` is the frame of a desktop that did not change, and `n` the
/// capture `o` behind it: the last frame again where it is due, else one without
/// bytes.
pub open spec fn is_still(o: DxgiCapture, n: DxgiCapture, r: CapturedFrame, now_us: u64) -> bool {
    let again = shown_again(o, now_us);
    &&& is_cpu_frame(
        r,
        match again {
            Some((d, _)) => d,
            None => Seq::empty(),
        },
        match again {
            Some((_, s)) => s,
            None => 0,
        },
        o.width,
        o.height,
        now_us,
        false,
    )
    &&& n == (DxgiCapture {
        last_returned_us: if again is Some {
            Some(now_us)
        } else {
            o.last_returned_us
        },
        ..o
    })
}

/// Whether `r` is the frame of a desktop that changed, and `n` the capture `o`
/// behind it: the bytes with the cursor drawn into them, kept as the last ones.
pub open spec fn is_changed(
    o: DxgiCapture,
    n: DxgiCapture,
    r: CapturedFrame,
    data: Seq<u8>,
    stride: u32,
    cursor: Option<CursorSample>,
    now_us: u64,
) -> bool {
    let f = FrameLayout { width: o.width, height: o.height, stride };
    let bytes = with_cursor(data, f, cursor, o.x_offset, o.y_offset);
    &&& is_cpu_frame(r, bytes, stride, o.width, o.height, now_us, true)
    &&& frame_bytes(n.last_frame_data) == Some((bytes, stride))
    &&& n == (DxgiCapture {
        frame_count: (o.frame_count + 1) as u64,
        last_returned_us: Some(now_us),
        last_frame_data: n.last_frame_data,
        ..o
    })
}

/// Whether `r` is the next frame of a duplicated desktop, by what was acquired, and `n` the
/// capture `o` behind it.
pub open spec fn dxgi_next(
    o: DxgiCapture,
    n: DxgiCapture,
    acquired: Acquired,
    hide_cursor: bool,
    now_us: u64,
    r: Result<CapturedFrame, MediaError>,
) -> bool {
    if !o.capturing {
        &&& r matches Err(e) && e@ == ErrorView::CaptureNotStarted
        &&& n == o
    } else {
        match acquired {
            Acquired::TimedOut => r matches Ok(f) && is_still(
                o,
                n,
                f,
                now_us,
            ),
            Acquired::Failed(call, text) => n == o && (r matches Err(
                e,
            ) && e@ == ErrorView::CaptureError(
                call_text(call).0 + text@ + call_text(call).1,
            )),
            Acquired::NoResource => n == o && (r matches Err(e) && e@
                == ErrorView::CaptureError("Desktop resource is None"@)),
            Acquired::Frame { data, stride, cursor } => r matches Ok(f) && is_changed(
                o,
                n,
                f,
                data@,
                stride,
                if hide_cursor {
                    None
                } else {
                    cursor
                },
                now_us,
            ),
        }
    }
}

/// A capture once it started on an output that was duplicated.
pub open spec fn dxgi_begun(c: DxgiCapture, output: DesktopOutput) -> DxgiCapture {
    DxgiCapture {
        width: (output.right - output.left) as u32,
        height: (output.bottom - output.top) as u32,
        x_offset: output.left,
        y_offset: output.top,
        capturing: true,
        frame_count: 0,
        last_returned_us: None,
        ..c
    }
}

impl DxgiCapture {
    /// A capture that has not started.
    pub fn new() -> (r: Self)
        ensures
            r == (DxgiCapture {
                width: 0,
                height: 0,
                x_offset: 0,
                y_offset: 0,
                capturing: false,
                frame_count: 0,
                last_frame_data: None,
                last_returned_us: None,
            }),
    {
        DxgiCapture {
            width: 0,
            height: 0,
            x_offset: 0,
            y_offset: 0,
            capturing: false,
            frame_count: 0,
            last_frame_data: None,
            last_returned_us: None,
        }
    }

    /// The displays that the adapter drives; the first is the primary one.
    pub fn list_displays(outputs: &Vec<DesktopOutput>) -> (r: Result<Vec<DisplayInfo>, MediaError>)
        requires
            all_wf(outputs@),
        ensures
            match r {
                Err(e) => outputs@.len() == 0 && e@ == ErrorView::CaptureError(
                    "No DXGI outputs found"@,
                ),
                Ok(v) => outputs@.len() > 0 && v@.len() == outputs@.len() && forall|i: int|
                    #![trigger v@[i]]
                    0 <= i < v@.len() ==> listed(outputs@[i], i, i == 0, v@[i]),
            },
    {
        if outputs.len() == 0 {
            return Err(MediaError::capture("No DXGI outputs found"));
        }
        let mut v: Vec<DisplayInfo> = Vec::new();
        for i in 0..outputs.len()
            invariant
                all_wf(outputs@),
                v@.len() == i,
                forall|j: int|
                    #![trigger v@[j]]
                    0 <= j < i ==> listed(outputs@[j], j, j == 0, v@[j]),
        {
            v.push(display_of(&outputs[i], i, i == 0));
        }
        Ok(v)
    }

    /// The output to duplicate.
    pub fn choose_output(&self, display_id: &str, outputs: &Vec<DesktopOutput>) -> (r: Result<
        usize,
        MediaError,
    >)
        ensures
            match r {
                Ok(i) => !self.capturing && i < outputs@.len() && i == index_of(display_id@),
                Err(e) => e@ == (if self.capturing {
                    ErrorView::CaptureAlreadyStarted
                } else if outputs@.len() == 0 {
                    ErrorView::CaptureError("No DXGI outputs found"@)
                } else {
                    ErrorView::CaptureError("Display "@ + display_id@ + " not found"@)
                }) && (self.capturing || outputs@.len() <= index_of(display_id@)),
            },
    {
        if self.capturing {
            return Err(MediaError::CaptureAlreadyStarted);
        }
        if outputs.len() == 0 {
            return Err(MediaError::capture("No DXGI outputs found"));
        }
        find_output(display_id, outputs.len())
    }

    /// Starts capturing an output that was duplicated.
    pub fn start(&mut self, output: &DesktopOutput)
        requires
            !old(self).capturing,
            output.wf(),
        ensures
            *final(self) == dxgi_begun(*old(self), *output),
    {
        self.width = (output.right - output.left) as u32;
        self.height = (output.bottom - output.top) as u32;
        self.x_offset = output.left;
        self.y_offset = output.top;
        self.capturing = true;
        self.frame_count = 0;
        self.last_returned_us = None;
    }

    /// The next frame, by what asking the system for it gave. The cursor is left
    /// out where `hide_cursor` is set.
    pub fn next_frame(&mut self, acquired: Acquired, hide_cursor: bool, now_us: u64) -> (r: Result<
        CapturedFrame,
        MediaError,
    >)
        requires
            old(self).capturing ==> acquired.fits(*old(self), now_us),
        ensures
            dxgi_next(*old(self), *final(self), acquired, hide_cursor, now_us, r),
    {
        if !self.capturing {
            return Err(MediaError::CaptureNotStarted);
        }
        match acquired {
            Acquired::TimedOut => Ok(self.still_frame(now_us)),
            Acquired::Failed(call, text) => Err(dxgi_failure(call, text.as_str())),
            Acquired::NoResource => Err(dxgi_missing(DxgiObject::Resource)),
            Acquired::Frame { data, stride, cursor } => {
                let shown: Option<CursorSample> = if hide_cursor {
                    None
                } else {
                    cursor
                };
                Ok(self.new_frame(data, stride, shown, now_us))
            },
        }
    }

    fn still_frame(&mut self, now_us: u64) -> (r: CapturedFrame)
        requires
            old(self).last_returned_us matches Some(t) ==> t <= now_us,
        ensures
            is_still(*old(self), *final(self), r, now_us),
    {
        let due: bool = match self.last_returned_us {
            None => true,
            Some(t) => now_us - t >= KEEPALIVE_US,
        };
        if due {
            if let Some((d, s)) = &self.last_frame_data {
                let data: Vec<u8> = d.clone();
                let stride: u32 = *s;
                assert(data@ =~= d@);
                self.last_returned_us = Some(now_us);
                return cpu_frame(data, stride, self.width, self.height, now_us, false);
            }
        }
        cpu_frame(Vec::new(), 0, self.width, self.height, now_us, false)
    }

    fn new_frame(&mut self, data: Vec<u8>, stride: u32, cursor: Option<CursorSample>, now_us: u64) -> (r:
        CapturedFrame)
        requires
            old(self).frame_count < u64::MAX,
            old(self).width * 4 <= stride,
            cursor matches Some(c) ==> c.wf(old(self).x_offset, old(self).y_offset),
        ensures
            is_changed(*old(self), *final(self), r, data@, stride, cursor, now_us),
    {
        let f = FrameLayout { width: self.width, height: self.height, stride };
        let mut bytes: Vec<u8> = data;
        if let Some(c) = cursor {
            draw_cursor_onto_buffer(&mut bytes, f, c, self.x_offset, self.y_offset);
        }
        self.frame_count = self.frame_count + 1;
        let copy: Vec<u8> = bytes.clone();
        assert(copy@ =~= bytes@);
        self.last_frame_data = Some((copy, stride));
        self.last_returned_us = Some(now_us);
        cpu_frame(bytes, stride, self.width, self.height, now_us, true)
    }

    /// Stops capturing.
    pub fn stop(&mut self)
        ensures
            *final(self) == (DxgiCapture { capturing: false, ..*old(self) }),
    {
        self.capturing = false;
    }

    /// Whether a capture is running.
    pub fn is_capturing(&self) -> (b: bool)
        ensures
            b == self.capturing,
    {
        self.capturing
    }
}

// ---- GDI ----

/// A stage of a capture by GDI.
#[derive(Debug, Clone, Copy, PartialEq, Eq, Structural)]
pub enum GdiStage {
    ScreenContext,
    MemoryContext,
    CreateBitmap,
    Copy,
    ReadBits,
}

/// Something that a capture by GDI releases.
#[derive(Debug, Clone, Copy, PartialEq, Eq, Structural)]
pub enum GdiRelease {
    Deselect,
    DeleteBitmap,
    DeleteContext,
    ReleaseScreen,
}

/// What is released when a stage failed.
pub open spec fn gdi_releases(stage: GdiStage) -> Seq<GdiRelease> {
    match stage {
        GdiStage::ScreenContext => Seq::empty(),
        GdiStage::MemoryContext => seq![GdiRelease::ReleaseScreen],
        GdiStage::CreateBitmap => seq![GdiRelease::DeleteContext, GdiRelease::ReleaseScreen],
        GdiStage::Copy | GdiStage::ReadBits => seq![
            GdiRelease::Deselect,
            GdiRelease::DeleteBitmap,
            GdiRelease::DeleteContext,
            GdiRelease::ReleaseScreen,
        ],
    }
}

pub open spec fn gdi_error(stage: GdiStage) -> ErrorView {
    ErrorView::CaptureError(
        match stage {
            GdiStage::ScreenContext => "GetDC(None) failed"@,
            GdiStage::MemoryContext => "CreateCompatibleDC failed"@,
            GdiStage::CreateBitmap => "CreateCompatibleBitmap failed"@,
            GdiStage::Copy => "BitBlt failed"@,
            GdiStage::ReadBits => "GetDIBits failed"@,
        },
    )
}

/// The error of a stage that failed, and what is to be released, in this order.
pub fn capture_gdi_failed(stage: GdiStage) -> (r: (MediaError, Vec<GdiRelease>))
    ensures
        r.0@ == gdi_error(stage),
        r.1@ == gdi_releases(stage),
{
    let e: MediaError = match stage {
        GdiStage::ScreenContext => MediaError::capture("GetDC(None) failed"),
        GdiStage::MemoryContext => MediaError::capture("CreateCompatibleDC failed"),
        GdiStage::CreateBitmap => MediaError::capture("CreateCompatibleBitmap failed"),
        GdiStage::Copy => MediaError::capture("BitBlt failed"),
        GdiStage::ReadBits => MediaError::capture("GetDIBits failed"),
    };
    let v: Vec<GdiRelease> = match stage {
        GdiStage::ScreenContext => Vec::new(),
        GdiStage::MemoryContext => vec![GdiRelease::ReleaseScreen],
        GdiStage::CreateBitmap => vec![GdiRelease::DeleteContext, GdiRelease::ReleaseScreen],
        _ => vec![
            GdiRelease::Deselect,
            GdiRelease::DeleteBitmap,
            GdiRelease::DeleteContext,
            GdiRelease::ReleaseScreen,
        ],
    };
    assert(v@ =~= gdi_releases(stage));
    (e, v)
}

/// The state of a capture by GDI.
pub struct GdiCapture {
    pub width: u32,
    pub height: u32,
    pub x_offset: i32,
    pub y_offset: i32,
    pub capturing: bool,
    pub frame_count: u64,
    pub last_frame_data: Option<(Vec<u8>, u32)>,
    pub last_returned_us: Option<u64>,
}

/// A capture by GDI once it started on a monitor.
pub open spec fn gdi_begun(o: DesktopOutput) -> GdiCapture {
    GdiCapture {
        width: (o.right - o.left) as u32,
        height: (o.bottom - o.top) as u32,
        x_offset: o.left,
        y_offset: o.top,
        capturing: true,
        frame_count: 0,
        last_frame_data: None,
        last_returned_us: None,
    }
}

/// Whether `r` is the frame of bytes that GDI took, and `n` the capture `o` behind it: the
/// bytes with the cursor drawn into them, kept as the last ones.
pub open spec fn gdi_taken(
    o: GdiCapture,
    n: GdiCapture,
    r: CapturedFrame,
    data: Seq<u8>,
    cursor: Option<CursorSample>,
    now_us: u64,
) -> bool {
    let stride = (o.width * 4) as u32;
    let f = FrameLayout { width: o.width, height: o.height, stride };
    let bytes = with_cursor(data, f, cursor, o.x_offset, o.y_offset);
    &&& is_cpu_frame(r, bytes, stride, o.width, o.height, now_us, true)
    &&& frame_bytes(n.last_frame_data) == Some((bytes, stride))
    &&& n == (GdiCapture {
        frame_count: (o.frame_count + 1) as u64,
        last_returned_us: Some(now_us),
        last_frame_data: n.last_frame_data,
        ..o
    })
}

/// Whether `r` is the next frame of a capture by GDI, by what was taken, and `n` the capture
/// `o` behind it.
pub open spec fn gdi_next(
    o: GdiCapture,
    n: GdiCapture,
    taken: Result<Vec<u8>, GdiStage>,
    cursor: Option<CursorSample>,
    hide_cursor: bool,
    now_us: u64,
    r: Result<CapturedFrame, MediaError>,
) -> bool {
    if !o.capturing {
        &&& r matches Err(e) && e@ == ErrorView::CaptureNotStarted
        &&& n == o
    } else {
        match taken {
            Err(stage) => {
                &&& r matches Err(e) && e@ == gdi_error(stage)
                &&& n == o
            },
            Ok(data) => r matches Ok(frame) && gdi_taken(
                o,
                n,
                frame,
                data@,
                if hide_cursor {
                    None
                } else {
                    cursor
                },
                now_us,
            ),
        }
    }
}

impl GdiCapture {
    /// A capture that has not started.
    pub fn new() -> (r: Self)
        ensures
            r == (GdiCapture {
                width: 0,
                height: 0,
                x_offset: 0,
                y_offset: 0,
                capturing: false,
                frame_count: 0,
                last_frame_data: None,
                last_returned_us: None,
            }),
    {
        GdiCapture {
            width: 0,
            height: 0,
            x_offset: 0,
            y_offset: 0,
            capturing: false,
            frame_count: 0,
            last_frame_data: None,
            last_returned_us: None,
        }
    }

    /// Whether a capture is running.
    pub fn is_capturing(&self) -> (b: bool)
        ensures
            b == self.capturing,
    {
        self.capturing
    }

    /// Starts capturing the display that an id names; `None` where the monitors
    /// could not be listed.
    pub fn start(&mut self, display_id: &str, monitors: Option<&Vec<DesktopOutput>>) -> (r: Result<
        (),
        MediaError,
    >)
        requires
            monitors matches Some(m) ==> all_wf(m@),
        ensures
            match r {
                Err(e) => {
                    &&& *final(self) == *old(self)
                    &&& e@ == (if old(self).capturing {
                        ErrorView::CaptureAlreadyStarted
                    } else if monitors is None {
                        ErrorView::CaptureError("EnumDisplayMonitors failed"@)
                    } else {
                        ErrorView::CaptureError("Display "@ + display_id@ + " not found"@)
                    })
                    &&& old(self).capturing || (monitors matches Some(m) ==> index_of(display_id@)
                        >= m@.len())
                },
                Ok(()) => {
                    &&& !old(self).capturing
                    &&& monitors matches Some(m) && index_of(display_id@) < m@.len() && {
                        let o = m@[index_of(display_id@) as int];
                        *final(self) == gdi_begun(o)
                    }
                },
            },
    {
        if self.capturing {
            return Err(MediaError::CaptureAlreadyStarted);
        }
        match monitors {
            None => Err(MediaError::capture("EnumDisplayMonitors failed")),
            Some(m) => match find_output(display_id, m.len()) {
                Err(e) => Err(e),
                Ok(i) => {
                    let o: &DesktopOutput = &m[i];
                    self.width = (o.right - o.left) as u32;
                    self.height = (o.bottom - o.top) as u32;
                    self.x_offset = o.left;
                    self.y_offset = o.top;
                    self.capturing = true;
                    self.frame_count = 0;
                    self.last_frame_data = None;
                    self.last_returned_us = None;
                    Ok(())
                },
            },
        }
    }

    /// The next frame, by the bytes that were taken or the stage at which that
    /// failed. The cursor is left out where `hide_cursor` is set.
    pub fn next_frame(
        &mut self,
        taken: Result<Vec<u8>, GdiStage>,
        cursor: Option<CursorSample>,
        hide_cursor: bool,
        now_us: u64,
    ) -> (r: Result<CapturedFrame, MediaError>)
        requires
            old(self).capturing && taken is Ok ==> {
                &&& old(self).frame_count < u64::MAX
                &&& old(self).width * 4 <= u32::MAX
                &&& cursor matches Some(c) ==> c.wf(old(self).x_offset, old(self).y_offset)
            },
        ensures
            gdi_next(*old(self), *final(self), taken, cursor, hide_cursor, now_us, r),
    {
        if !self.capturing {
            return Err(MediaError::CaptureNotStarted);
        }
        let data: Vec<u8> = match taken {
            Err(stage) => {
                return Err(capture_gdi_failed(stage).0);
            },
            Ok(data) => data,
        };
        let stride: u32 = self.width * 4;
        let f = FrameLayout { width: self.width, height: self.height, stride };
        let mut bytes: Vec<u8> = data;
        let shown: Option<CursorSample> = if hide_cursor {
            None
        } else {
            cursor
        };
        if let Some(c) = shown {
            draw_cursor_onto_buffer(&mut bytes, f, c, self.x_offset, self.y_offset);
        }
        self.frame_count = self.frame_count + 1;
        let copy: Vec<u8> = bytes.clone();
        assert(copy@ =~= bytes@);
        self.last_frame_data = Some((copy, stride));
        self.last_returned_us = Some(now_us);
        Ok(cpu_frame(bytes, stride, self.width, self.height, now_us, true))
    }

    /// Stops capturing and forgets the last frame.
    pub fn stop(&mut self)
        ensures
            *final(self) == (GdiCapture {
                capturing: false,
                last_frame_data: None,
                ..*old(self)
            }),
    {
        self.capturing = false;
        self.last_frame_data = None;
    }
}

// ---- Both together ----

/// Whether a frame looks black: every sampled byte is zero.
pub open spec fn looks_black(data: Seq<u8>) -> bool {
    forall|k: int| 0 <= k && 256 * k < data.len() ==> #[trigger] data[256 * k] == 0
}

/// Whether a frame looks black. One byte in 256 is looked at.
pub fn is_buffer_black(data: &[u8]) -> (b: bool)
    ensures
        b == looks_black(data@),
{
    let n: usize = data.len();
    let mut i: usize = 0;
    let ghost mut k: int = 0;
    while i < n
        invariant
            n == data@.len(),
            i == 256 * k,
            k >= 0,
            forall|j: int| 0 <= j < k ==> #[trigger] data@[256 * j] == 0,
        decreases n - i,
    {
        if data[i] != 0 {
            assert(data@[256 * k] != 0);
            return false;
        }
        if n - i <= 256 {
            assert forall|j: int| 0 <= j && 256 * j < n implies #[trigger] data@[256 * j] == 0 by {
                assert(j <= k);
            }
            return true;
        }
        i = i + 256;
        proof {
            k = k + 1;
        }
    }
    true
}

/// The backend that is to be started.
#[derive(Debug, Clone, Copy, PartialEq, Eq, Structural)]
pub enum WindowsBackend {
    Dxgi,
    Gdi,
}

/// How many black frames in a row turn to GDI.
pub const BLACK_FRAME_LIMIT: u32 = 3;

/// The count of black frames in a row after another frame. A frame that brings
/// nothing new leaves it.
pub open spec fn black_after(count: u32, is_new: bool, black: bool) -> u32 {
    if !is_new {
        count
    } else if black {
        (count + 1) as u32
    } else {
        0
    }
}

/// The screen capture of a Windows host.
pub struct WindowsScreenCapture {
    pub dxgi: DxgiCapture,
    pub gdi: GdiCapture,
    pub use_gdi_only: bool,
    pub active_is_gdi: bool,
    pub display_id: String,
    pub config: Option<StreamConfig>,
    pub black_frame_count: u32,
}

/// Whether a setting asks for GDI.
pub open spec fn asks_for_gdi(value: Seq<char>) -> bool {
    value == "1"@ || lower_all(value) == "true"@
}

/// Whether a setting, where it is made, asks for GDI.
pub fn uses_gdi(setting: Option<&str>) -> (b: bool)
    ensures
        b == (setting matches Some(v) && asks_for_gdi(v@)),
{
    match setting {
        None => false,
        Some(v) => {
            let text: Vec<char> = chars_of(v);
            let small: Vec<char> = lowered(text.as_slice());
            is_text(text.as_slice(), "1") || is_text(small.as_slice(), "true")
        },
    }
}

/// A capture once it was stopped.
pub open spec fn stopped(c: WindowsScreenCapture) -> WindowsScreenCapture {
    if c.active_is_gdi {
        WindowsScreenCapture {
            gdi: GdiCapture {
                capturing: false,
                last_frame_data: None,
                ..c.gdi
            },
            ..c
        }
    } else {
        WindowsScreenCapture {
            dxgi: DxgiCapture { capturing: false, ..c.dxgi },
            ..c
        }
    }
}

/// Whether GDI is to be started after a frame of the duplicated desktop, and the capture
/// then.
pub open spec fn after_dxgi_frame(c: WindowsScreenCapture, frame: CapturedFrame) -> (
    bool,
    WindowsScreenCapture,
) {
    let seen = frame.is_new_frame && frame.buffer is CpuBuffer;
    let black = looks_black(frame.buffer->CpuBuffer_data@);
    let count = black_after(c.black_frame_count, seen, black);
    let start_gdi = count >= BLACK_FRAME_LIMIT;
    (
        start_gdi,
        WindowsScreenCapture {
            black_frame_count: count,
            dxgi: DxgiCapture { capturing: !start_gdi, ..c.dxgi },
            ..c
        },
    )
}

impl WindowsScreenCapture {
    /// Desktop duplication that runs has not seen too many black frames, and
    /// the two backends do not run together.
    pub open spec fn wf(&self) -> bool {
        &&& self.dxgi.capturing ==> self.black_frame_count < BLACK_FRAME_LIMIT
        &&& self.black_frame_count <= BLACK_FRAME_LIMIT
        &&& !(self.dxgi.capturing && self.gdi.capturing)
        &&& self.gdi.capturing ==> self.active_is_gdi
        &&& self.dxgi.capturing ==> !self.active_is_gdi
    }

    /// A capture that has not started. GDI alone is used where the setting asks
    /// for it.
    pub fn new(use_gdi: Option<&str>) -> (r: Self)
        ensures
            r.wf(),
            r.use_gdi_only == (use_gdi matches Some(v) && asks_for_gdi(v@)),
            r.active_is_gdi == r.use_gdi_only,
            r.dxgi == (DxgiCapture {
                width: 0,
                height: 0,
                x_offset: 0,
                y_offset: 0,
                capturing: false,
                frame_count: 0,
                last_frame_data: None,
                last_returned_us: None,
            }),
            r.gdi == (GdiCapture {
                width: 0,
                height: 0,
                x_offset: 0,
                y_offset: 0,
                capturing: false,
                frame_count: 0,
                last_frame_data: None,
                last_returned_us: None,
            }),
            r.display_id@ == Seq::<char>::empty(),
            r.config is None,
            r.black_frame_count == 0,
    {
        let use_gdi_only: bool = uses_gdi(use_gdi);
        WindowsScreenCapture {
            dxgi: DxgiCapture::new(),
            gdi: GdiCapture::new(),
            use_gdi_only,
            active_is_gdi: use_gdi_only,
            display_id: String::new(),
            config: None,
            black_frame_count: 0,
        }
    }

    /// The displays: those that desktop duplication lists, else those of GDI.
    pub fn list_displays(
        dxgi: Result<Vec<DisplayInfo>, MediaError>,
        monitors: Option<&Vec<DesktopOutput>>,
    ) -> (r: Result<Vec<DisplayInfo>, MediaError>)
        requires
            monitors matches Some(m) ==> all_wf(m@),
        ensures
            match dxgi {
                Ok(v) => r == Ok::<Vec<DisplayInfo>, MediaError>(v),
                Err(_) => match (monitors, r) {
                    (None, Err(e)) => e@ == ErrorView::CaptureError("EnumDisplayMonitors failed"@),
                    (Some(m), Ok(v)) => v@.len() == m@.len() && forall|i: int|
                        #![trigger v@[i]]
                        0 <= i < v@.len() ==> listed(m@[i], i, m@[i].is_primary, v@[i]),
                    _ => false,
                },
            },
    {
        match dxgi {
            Ok(v) => Ok(v),
            Err(_) => list_gdi_displays(monitors),
        }
    }

    /// Begins to start: the backend to start first.
    pub fn start(&mut self, display_id: &str, config: StreamConfig) -> (r: Result<
        WindowsBackend,
        MediaError,
    >)
        requires
            old(self).wf(),
        ensures
            final(self).wf(),
            match r {
                Err(e) => (old(self).dxgi.capturing || old(self).gdi.capturing) && e@
                    == ErrorView::CaptureAlreadyStarted && *final(self) == *old(self),
                Ok(b) => {
                    &&& !old(self).dxgi.capturing && !old(self).gdi.capturing
                    &&& b == (if old(self).use_gdi_only {
                        WindowsBackend::Gdi
                    } else {
                        WindowsBackend::Dxgi
                    })
                    &&& final(self).display_id@ == display_id@
                    &&& *final(self) == (WindowsScreenCapture {
                        display_id: final(self).display_id,
                        config: Some(config),
                        black_frame_count: 0,
                        active_is_gdi: old(self).use_gdi_only || old(self).active_is_gdi,
                        ..*old(self)
                    })
                },
            },
    {
        if self.is_capturing() {
            return Err(MediaError::CaptureAlreadyStarted);
        }
        self.display_id = display_id.to_owned();
        self.config = Some(config);
        self.black_frame_count = 0;
        if self.use_gdi_only {
            self.active_is_gdi = true;
            Ok(WindowsBackend::Gdi)
        } else {
            Ok(WindowsBackend::Dxgi)
        }
    }

    /// Takes up how duplicating the desktop went. Returns whether GDI is to be
    /// started in its place.
    pub fn dxgi_started(&mut self, output: Option<&DesktopOutput>) -> (start_gdi: bool)
        requires
            old(self).wf(),
            !old(self).dxgi.capturing,
            !old(self).gdi.capturing,
            old(self).black_frame_count == 0,
            output matches Some(o) ==> o.wf(),
        ensures
            final(self).wf(),
            start_gdi == output is None,
            final(self).active_is_gdi == output is None,
            final(self).dxgi.capturing == output is Some,
            output matches Some(o) ==> final(self).dxgi == dxgi_begun(old(self).dxgi, *o),
            output is None ==> final(self).dxgi == old(self).dxgi,
            *final(self) == (WindowsScreenCapture {
                dxgi: final(self).dxgi,
                active_is_gdi: final(self).active_is_gdi,
                ..*old(self)
            }),
    {
        match output {
            Some(o) => {
                self.dxgi.start(o);
                self.active_is_gdi = false;
                false
            },
            None => {
                self.active_is_gdi = true;
                true
            },
        }
    }

    /// The backend that the next frame comes from.
    pub fn next_frame(&self) -> (r: Result<WindowsBackend, MediaError>)
        requires
            self.wf(),
        ensures
            frame_source(*self, r),
    {
        if self.active_is_gdi {
            if self.gdi.is_capturing() {
                return Ok(WindowsBackend::Gdi);
            }
        } else if self.dxgi.is_capturing() {
            return Ok(WindowsBackend::Dxgi);
        }
        Err(MediaError::CaptureNotStarted)
    }

    /// Takes up a frame of the duplicated desktop. Returns whether it was the
    /// last of too many black ones: duplication then has stopped, and GDI is to
    /// be started in its place.
    pub fn on_dxgi_frame(&mut self, frame: &CapturedFrame) -> (start_gdi: bool)
        requires
            old(self).wf(),
            old(self).dxgi.capturing,
        ensures
            final(self).wf(),
            (start_gdi, *final(self)) == after_dxgi_frame(*old(self), *frame),
    {
        if frame.is_new_frame {
            if let GpuBuffer::CpuBuffer { data, stride: _, format: _, width: _, height: _ } =
                &frame.buffer {
                if is_buffer_black(data.as_slice()) {
                    self.black_frame_count = self.black_frame_count + 1;
                    if self.black_frame_count >= BLACK_FRAME_LIMIT {
                        self.dxgi.stop();
                        return true;
                    }
                } else {
                    self.black_frame_count = 0;
                }
            }
        }
        false
    }

    /// Starts GDI on the display that was asked for.
    pub fn start_gdi(&mut self, monitors: Option<&Vec<DesktopOutput>>) -> (r: Result<(), MediaError>)
        requires
            old(self).wf(),
            !old(self).dxgi.capturing,
            monitors matches Some(m) ==> all_wf(m@),
        ensures
            final(self).wf(),
            r is Ok <==> !old(self).gdi.capturing && (monitors matches Some(m) && index_of(
                old(self).display_id@,
            ) < m@.len()),
            match r {
                Ok(()) => {
                    let o = monitors->0@[index_of(old(self).display_id@) as int];
                    *final(self) == (WindowsScreenCapture {
                        gdi: gdi_begun(o),
                        active_is_gdi: true,
                        ..*old(self)
                    })
                },
                Err(e) => *final(self) == *old(self) && e@ == (if old(self).gdi.capturing {
                    ErrorView::CaptureAlreadyStarted
                } else if monitors is None {
                    ErrorView::CaptureError("EnumDisplayMonitors failed"@)
                } else {
                    ErrorView::CaptureError("Display "@ + old(self).display_id@ + " not found"@)
                }),
            },
    {
        match self.gdi.start(self.display_id.as_str(), monitors) {
            Ok(()) => {
                self.active_is_gdi = true;
                Ok(())
            },
            Err(e) => Err(e),
        }
    }

    /// Stops the backend that runs.
    pub fn stop(&mut self)
        requires
            old(self).wf(),
        ensures
            final(self).wf(),
            !final(self).dxgi.capturing,
            !final(self).gdi.capturing,
            *final(self) == stopped(*old(self)),
    {
        if self.active_is_gdi {
            self.gdi.stop();
        } else {
            self.dxgi.stop();
        }
    }

    /// Whether a capture is running.
    pub fn is_capturing(&self) -> (b: bool)
        requires
            self.wf(),
        ensures
            b == (self.dxgi.capturing || self.gdi.capturing),
    {
        if self.active_is_gdi {
            self.gdi.is_capturing()
        } else {
            self.dxgi.is_capturing()
        }
    }
}

/// The count of black frames in a row after several new frames.
pub open spec fn black_run(count: u32, frames: Seq<bool>) -> u32
    decreases frames.len(),
{
    if frames.len() == 0 {
        count
    } else {
        black_after(black_run(count, frames.drop_last()), true, frames.last())
    }
}

/// Capture turns to GDI exactly when as many black frames came one behind the
/// other, with no other new frame between them.
pub proof fn law_gdi_after_three_black_frames(a: bool, b: bool, c: bool)
    ensures
        black_run(0, seq![a, b, c]) >= BLACK_FRAME_LIMIT <==> a && b && c,
{
    reveal_with_fuel(black_run, 4);
    assert(seq![a, b, c].drop_last() =~= seq![a, b]);
    assert(seq![a, b].drop_last() =~= seq![a]);
    assert(seq![a].drop_last() =~= Seq::<bool>::empty());
}

/// A display that was listed is found by its id: the listing numbers the
/// outputs, and the search goes by the number.
pub proof fn law_listed_displays_are_found(o: DesktopOutput, i: nat, is_primary: bool, d: DisplayInfo)
    requires
        i <= usize::MAX,
        listed(o, i as int, is_primary, d),
    ensures
        index_of(d.id@) == i,
{
    law_written_numbers_are_read_back(i, usize::MAX as nat);
}

/// The cursor's hotspot lies on the pointer. Every pixel of the cursor's picture is shown
/// at the distance from the pointer that it has from the hotspot, wherever that is inside
/// the frame. A color bitmap with opacity of its own shows its solid pixels and leaves the
/// frame as it is under its clear ones; one without takes the mask's word for which are
/// solid, those where the mask is zero; and a mask alone shows the grey of its lower half
/// there.
pub proof fn law_the_hotspot_is_on_the_pointer(
    frame: Seq<u8>,
    f: FrameLayout,
    s: CursorSample,
    x_offset: i32,
    y_offset: i32,
    dx: int,
    dy: int,
    c: int,
)
    requires
        f.width * 4 <= f.stride,
        s.wf(x_offset, y_offset),
        0 <= s.screen_x - x_offset + dx < f.width,
        0 <= s.screen_y - y_offset + dy < f.height,
        0 <= s.hotspot_x + dx < s.width,
        0 <= s.hotspot_y + dy < s.height,
        0 <= c < 3,
        (s.screen_y - y_offset + dy) * f.stride + (s.screen_x - x_offset + dx) * 4 + 3
            < frame.len(),
    ensures
        ({
            let at = (s.screen_y - y_offset + dy) * f.stride + (s.screen_x - x_offset + dx) * 4 + c;
            let i = (s.hotspot_y + dy) * s.width + (s.hotspot_x + dx);
            let shown = with_cursor(frame, f, Some(s), x_offset, y_offset)[at];
            match s.color {
                Some(color) => {
                    let own = exists|j: int|
                        0 <= j < s.width * s.height && #[trigger] color@[j * 4 + 3] != 0;
                    &&& own && color@[i * 4 + 3] == 255 ==> shown == color@[i * 4 + c]
                    &&& own && color@[i * 4 + 3] == 0 ==> shown == frame[at]
                    &&& !own && (s.mask matches Some(m) && m@[i * 4] == 0) ==> shown == color@[i * 4
                        + c]
                    &&& !own && (s.mask matches Some(m) ==> m@[i * 4] != 0) ==> shown == frame[at]
                },
                None => {
                    let m = s.mask->0@;
                    &&& m[i * 4] == 0 ==> shown == m[(s.width * s.height + i) * 4]
                    &&& m[i * 4] != 0 ==> shown == frame[at]
                },
            }
        }),
{
    let n = (s.width * s.height) as int;
    let i = (s.hotspot_y + dy) * s.width + (s.hotspot_x + dx);
    let cy = s.hotspot_y + dy;
    let w = s.width as int;
    let h = s.height as int;
    assert(0 <= cy * w && cy * w + w <= w * h) by (nonlinear_arith)
        requires
            0 <= cy < h,
            0 < w,
    ;
    let p = sample_place(s, x_offset, y_offset);
    let sx = s.screen_x - x_offset + dx;
    let sy = s.screen_y - y_offset + dy;
    let picture = sample_bytes(s);
    law_solid_replaces_and_clear_keeps(frame, f, picture, p, sx, sy, c);
    assert(cursor_byte(picture, p, sx - p.x, sy - p.y, c) == picture[i * 4 + c]);
    assert(cursor_byte(picture, p, sx - p.x, sy - p.y, 3) == picture[i * 4 + 3]);
    match s.color {
        Some(color) => {
            let own = exists|j: int|
                0 <= j < s.width * s.height && #[trigger] color@[j * 4 + 3] != 0;
            assert(color@.len() / 4 == n);
            assert(own == has_alpha(color@));
            if !own {
                assert(color@[i * 4 + 3] == 0);
                match s.mask {
                    Some(m) => {
                        law_a_mask_only_sets_opacity(color@, m@, n, i, c);
                    },
                    None => {},
                }
            }
        },
        None => {
            law_two_masks_make_a_cursor(s.mask->0@, n as nat, i, c);
        },
    }
}

/// A hidden cursor, and one that is not there, leave every byte of the frame.
pub proof fn law_no_cursor_leaves_the_frame(frame: Seq<u8>, f: FrameLayout, x_offset: i32, y_offset: i32)
    ensures
        with_cursor(frame, f, None, x_offset, y_offset) == frame,
{
}

/// A capture covers its monitor: it has the monitor's size, and the monitor's corner is its
/// own. It counts its frames anew.
pub proof fn law_a_capture_covers_its_monitor(c: DxgiCapture, o: DesktopOutput)
    requires
        o.wf(),
        o.left <= o.right,
        o.top <= o.bottom,
    ensures
        ({
            let d = dxgi_begun(c, o);
            let g = gdi_begun(o);
            &&& d.x_offset == o.left && d.x_offset + d.width == o.right
            &&& d.y_offset == o.top && d.y_offset + d.height == o.bottom
            &&& d.capturing && d.frame_count == 0 && d.last_returned_us is None
            &&& g.x_offset == o.left && g.x_offset + g.width == o.right
            &&& g.y_offset == o.top && g.y_offset + g.height == o.bottom
            &&& g.capturing && g.frame_count == 0 && g.last_frame_data is None
        }),
{
}

/// A monitor is listed with its size, at its place in the list.
pub proof fn law_monitors_are_listed_with_their_size(
    o: DesktopOutput,
    i: nat,
    is_primary: bool,
    d: DisplayInfo,
)
    requires
        o.wf(),
        o.left <= o.right,
        o.top <= o.bottom,
        i <= usize::MAX,
        listed(o, i as int, is_primary, d),
    ensures
        o.left + d.width == o.right,
        o.top + d.height == o.bottom,
        d.is_primary == is_primary,
        index_of(d.id@) == i,
        d.refresh_rate@ == "60.0"@,
        d.name@ == from_utf16(up_to_zero(o.device_name@)),
{
    law_written_numbers_are_read_back(i, usize::MAX as nat);
}

/// A device's name ends at its first zero.
pub proof fn law_names_end_at_the_first_zero(s: Seq<u16>, rest: Seq<u16>)
    requires
        forall|i: int| 0 <= i < s.len() ==> #[trigger] s[i] != 0,
    ensures
        up_to_zero(s) == s,
        up_to_zero(s.push(0) + rest) == s,
    decreases s.len(),
{
    let whole = s.push(0) + rest;
    if s.len() == 0 {
        assert(s =~= Seq::<u16>::empty());
        assert(whole[0] == 0);
    } else {
        let t = s.skip(1);
        assert forall|i: int| 0 <= i < t.len() implies #[trigger] t[i] != 0 by {
            assert(t[i] == s[i + 1]);
        }
        law_names_end_at_the_first_zero(t, rest);
        assert(whole[0] == s[0]);
        assert(whole.skip(1) =~= t.push(0) + rest);
        assert(seq![s[0]] + t =~= s);
    }
}

/// A desktop that changed is shown at once, as a new frame. While it does not change, the
/// same picture is shown again after half a second without one, and not as a new frame;
/// before that the frames are empty, and the picture is not forgotten.
pub proof fn law_a_still_desktop_is_shown_again(
    o: DxgiCapture,
    n: DxgiCapture,
    m: DxgiCapture,
    data: Seq<u8>,
    stride: u32,
    cursor: Option<CursorSample>,
    shown: CapturedFrame,
    again: CapturedFrame,
    at_us: u64,
    now_us: u64,
)
    requires
        at_us <= now_us,
        o.frame_count < u64::MAX,
        is_changed(o, n, shown, data, stride, cursor, at_us),
        is_still(n, m, again, now_us),
    ensures
        shown.is_new_frame,
        !again.is_new_frame,
        shown.timestamp_us == at_us && again.timestamp_us == now_us,
        shown.width == o.width && shown.height == o.height,
        again.width == o.width && again.height == o.height,
        shown.buffer is CpuBuffer && again.buffer is CpuBuffer,
        now_us >= at_us + 500_000 ==> again.buffer->CpuBuffer_data@
            == shown.buffer->CpuBuffer_data@ && again.buffer->CpuBuffer_stride
            == shown.buffer->CpuBuffer_stride && m.last_returned_us == Some(now_us),
        now_us < at_us + 500_000 ==> again.buffer->CpuBuffer_data@.len() == 0
            && m.last_returned_us == Some(at_us),
        frame_bytes(m.last_frame_data) == frame_bytes(n.last_frame_data),
        n.frame_count == o.frame_count + 1 && m.frame_count == n.frame_count,
        cursor is None ==> shown.buffer->CpuBuffer_data@ == data,
        shown.buffer->CpuBuffer_stride == stride,
        m.capturing == o.capturing,
{
}

/// What GDI took is shown at once, as a new frame of the monitor's size, in rows without
/// gaps, and kept as it is shown.
pub proof fn law_gdi_frames_are_new(
    o: GdiCapture,
    n: GdiCapture,
    r: CapturedFrame,
    data: Seq<u8>,
    now_us: u64,
)
    requires
        o.frame_count < u64::MAX,
        o.width * 4 <= u32::MAX,
        gdi_taken(o, n, r, data, None, now_us),
    ensures
        r.is_new_frame && r.timestamp_us == now_us,
        r.width == o.width && r.height == o.height,
        r.buffer is CpuBuffer && r.buffer->CpuBuffer_data@ == data && r.buffer->CpuBuffer_stride
            == 4 * o.width,
        frame_bytes(n.last_frame_data) == Some((data, r.buffer->CpuBuffer_stride)),
        n.frame_count == o.frame_count + 1,
        n.last_returned_us == Some(now_us),
        n.x_offset == o.x_offset && n.y_offset == o.y_offset && n.capturing == o.capturing,
{
}

/// GDI draws the cursor into its frames the way that desktop duplication does.
pub proof fn law_both_captures_draw_the_same(
    d: DxgiCapture,
    dn: DxgiCapture,
    g: GdiCapture,
    gn: GdiCapture,
    a: CapturedFrame,
    b: CapturedFrame,
    data: Seq<u8>,
    cursor: Option<CursorSample>,
    now_us: u64,
)
    requires
        d.width == g.width && d.height == g.height,
        d.x_offset == g.x_offset && d.y_offset == g.y_offset,
        is_changed(d, dn, a, data, (d.width * 4) as u32, cursor, now_us),
        gdi_taken(g, gn, b, data, cursor, now_us),
    ensures
        a.buffer->CpuBuffer_data@ == b.buffer->CpuBuffer_data@,
        a.buffer->CpuBuffer_stride == b.buffer->CpuBuffer_stride,
        a.buffer->CpuBuffer_data@ == with_cursor(
            data,
            FrameLayout { width: d.width, height: d.height, stride: (4 * d.width) as u32 },
            cursor,
            d.x_offset,
            d.y_offset,
        ),
{
}

/// A frame of zeros looks black, and one with another byte at a place that is looked at
/// does not. The first byte is looked at, and every 256th behind it.
pub proof fn law_black_frames_look_black(data: Seq<u8>, k: int)
    requires
        0 <= k,
    ensures
        (forall|i: int| 0 <= i < data.len() ==> #[trigger] data[i] == 0) ==> looks_black(data),
        256 * k < data.len() && data[256 * k] != 0 ==> !looks_black(data),
{
    if forall|i: int| 0 <= i < data.len() ==> #[trigger] data[i] == 0 {
        assert forall|j: int| 0 <= j && 256 * j < data.len() implies #[trigger] data[256 * j]
            == 0 by {
            let i = 256 * j;
            assert(data[i] == 0);
        }
    }
}

/// Three black frames in a row turn to GDI, and nothing else does: a frame that shows
/// something begins the count anew, one that brings nothing new or is not in memory leaves
/// it. Duplication runs on until then.
pub proof fn law_frames_are_counted_while_they_are_black(
    c: WindowsScreenCapture,
    frame: CapturedFrame,
)
    requires
        c.black_frame_count < 3,
    ensures
        ({
            let (start, after) = after_dxgi_frame(c, frame);
            let seen = frame.is_new_frame && frame.buffer is CpuBuffer;
            let data = frame.buffer->CpuBuffer_data@;
            &&& !seen ==> after.black_frame_count == c.black_frame_count && !start
            &&& seen && data.len() > 0 && data[0] != 0 ==> after.black_frame_count == 0 && !start
            &&& seen && (forall|i: int| 0 <= i < data.len() ==> #[trigger] data[i] == 0)
                ==> after.black_frame_count == c.black_frame_count + 1 && (start
                <==> c.black_frame_count == 2)
            &&& after.dxgi.capturing == !start
            &&& after.gdi == c.gdi && after.active_is_gdi == c.active_is_gdi
            &&& after.dxgi.width == c.dxgi.width && after.dxgi.frame_count == c.dxgi.frame_count
        }),
{
    law_black_frames_look_black(frame.buffer->CpuBuffer_data@, 0);
}

/// What was acquired before a stage of GDI failed is released, the latest first, and what
/// was not is not.
pub proof fn law_gdi_releases_what_it_has(stage: GdiStage)
    ensures
        ({
            let r = gdi_releases(stage);
            let n = r.len() as int;
            &&& stage != GdiStage::ScreenContext <==> n >= 1 && r[n - 1]
                == GdiRelease::ReleaseScreen
            &&& stage != GdiStage::ScreenContext && stage != GdiStage::MemoryContext <==> n >= 2
                && r[n - 2] == GdiRelease::DeleteContext
            &&& stage == GdiStage::Copy || stage == GdiStage::ReadBits <==> n == 4 && r[n - 3]
                == GdiRelease::DeleteBitmap && r[n - 4] == GdiRelease::Deselect
            &&& n != 3 && n <= 4
        }),
{
}

/// A hidden cursor is not drawn, whichever way the desktop is captured: the frame is the
/// desktop's own bytes. Nothing comes of a capture that did not start, and a failure changes
/// nothing.
pub proof fn law_a_hidden_cursor_is_not_drawn(
    d: DxgiCapture,
    dn: DxgiCapture,
    g: GdiCapture,
    gn: GdiCapture,
    data: Vec<u8>,
    stride: u32,
    cursor: Option<CursorSample>,
    now_us: u64,
    a: Result<CapturedFrame, MediaError>,
    b: Result<CapturedFrame, MediaError>,
)
    requires
        dxgi_next(d, dn, Acquired::Frame { data, stride, cursor }, true, now_us, a),
        gdi_next(g, gn, Ok(data), cursor, true, now_us, b),
    ensures
        d.capturing ==> a is Ok && a->Ok_0.buffer->CpuBuffer_data@ == data@ && a->Ok_0.is_new_frame,
        !d.capturing ==> a is Err && dn == d,
        g.capturing ==> b is Ok && b->Ok_0.buffer->CpuBuffer_data@ == data@ && b->Ok_0.is_new_frame,
        !g.capturing ==> b is Err && gn == g,
{
}

/// A cursor that is not hidden is drawn, whichever way the desktop is captured.
pub proof fn law_a_shown_cursor_is_drawn(
    d: DxgiCapture,
    dn: DxgiCapture,
    g: GdiCapture,
    gn: GdiCapture,
    data: Vec<u8>,
    stride: u32,
    s: CursorSample,
    now_us: u64,
    a: Result<CapturedFrame, MediaError>,
    b: Result<CapturedFrame, MediaError>,
)
    requires
        d.capturing,
        g.capturing,
        g.width * 4 <= u32::MAX,
        dxgi_next(d, dn, Acquired::Frame { data, stride, cursor: Some(s) }, false, now_us, a),
        gdi_next(g, gn, Ok(data), Some(s), false, now_us, b),
    ensures
        a is Ok && a->Ok_0.buffer->CpuBuffer_data@ == with_cursor(
            data@,
            FrameLayout { width: d.width, height: d.height, stride },
            Some(s),
            d.x_offset,
            d.y_offset,
        ),
        b is Ok && b->Ok_0.buffer->CpuBuffer_data@ == with_cursor(
            data@,
            FrameLayout { width: g.width, height: g.height, stride: (4 * g.width) as u32 },
            Some(s),
            g.x_offset,
            g.y_offset,
        ),
{
}

/// A failure is reported and changes nothing, whichever way the desktop is captured.
pub proof fn law_a_failed_capture_changes_nothing(
    d: DxgiCapture,
    dn: DxgiCapture,
    g: GdiCapture,
    gn: GdiCapture,
    call: DxgiCall,
    text: String,
    stage: GdiStage,
    cursor: Option<CursorSample>,
    hide_cursor: bool,
    now_us: u64,
    a: Result<CapturedFrame, MediaError>,
    b: Result<CapturedFrame, MediaError>,
)
    requires
        dxgi_next(d, dn, Acquired::Failed(call, text), hide_cursor, now_us, a) || dxgi_next(
            d,
            dn,
            Acquired::NoResource,
            hide_cursor,
            now_us,
            a,
        ),
        gdi_next(g, gn, Err(stage), cursor, hide_cursor, now_us, b),
    ensures
        a is Err && dn == d,
        b is Err && gn == g,
{
}

/// Stopping stops what runs, and nothing runs then.
pub proof fn law_stopping_stops_what_runs(c: WindowsScreenCapture)
    requires
        c.wf(),
    ensures
        !stopped(c).dxgi.capturing,
        !stopped(c).gdi.capturing,
        stopped(c).wf(),
        stopped(c).use_gdi_only == c.use_gdi_only,
        stopped(c).display_id == c.display_id,
{
}

/// Where the next frame of a capture comes from.
pub open spec fn frame_source(
    c: WindowsScreenCapture,
    r: Result<WindowsBackend, MediaError>,
) -> bool {
    match r {
        Err(e) => !c.dxgi.capturing && !c.gdi.capturing && e@ == ErrorView::CaptureNotStarted,
        Ok(b) => match b {
            WindowsBackend::Gdi => c.gdi.capturing && c.active_is_gdi,
            WindowsBackend::Dxgi => c.dxgi.capturing && !c.active_is_gdi,
        },
    }
}

/// Frames come from the backend that runs, and from none where none runs.
pub proof fn law_frames_come_from_what_runs(
    c: WindowsScreenCapture,
    r: Result<WindowsBackend, MediaError>,
)
    requires
        c.wf(),
        frame_source(c, r),
    ensures
        c.gdi.capturing ==> r == Ok::<WindowsBackend, MediaError>(WindowsBackend::Gdi),
        c.dxgi.capturing ==> r == Ok::<WindowsBackend, MediaError>(WindowsBackend::Dxgi),
        !c.gdi.capturing && !c.dxgi.capturing ==> r is Err,
{
}

} // verus!
