//! Reading shared buffers through the GPU, which undoes the tiling that a plain
//! read of their memory would show.

use crate::error::{ErrorView, MediaError};
use crate::text::{chars_of, hex, hex_text, string_of, upper_all, uppered};
use vstd::prelude::*;

verus! {

pub const EGL_NONE: i32 = 0x3038;

pub const EGL_ALPHA_SIZE: i32 = 0x3021;

pub const EGL_BLUE_SIZE: i32 = 0x3022;

pub const EGL_GREEN_SIZE: i32 = 0x3023;

pub const EGL_RED_SIZE: i32 = 0x3024;

pub const EGL_RENDERABLE_TYPE: i32 = 0x3040;

pub const EGL_SURFACE_TYPE: i32 = 0x3033;

pub const EGL_OPENGL_BIT: i32 = 0x0008;

pub const EGL_PBUFFER_BIT: i32 = 0x0001;

pub const EGL_WIDTH: i32 = 0x3057;

pub const EGL_HEIGHT: i32 = 0x3056;

pub const EGL_CONTEXT_MAJOR_VERSION: i32 = 0x3098;

pub const EGL_CONTEXT_MINOR_VERSION: i32 = 0x30fb;

pub const EGL_CONTEXT_OPENGL_PROFILE_MASK: i32 = 0x30fd;

pub const EGL_CONTEXT_OPENGL_COMPATIBILITY_PROFILE_BIT: i32 = 0x0002;

pub const EGL_LINUX_DRM_FOURCC_EXT: i32 = 0x3271;

pub const EGL_DMA_BUF_PLANE0_FD_EXT: i32 = 0x3272;

pub const EGL_DMA_BUF_PLANE0_OFFSET_EXT: i32 = 0x3273;

pub const EGL_DMA_BUF_PLANE0_PITCH_EXT: i32 = 0x3274;

pub const EGL_DMA_BUF_PLANE0_MODIFIER_LO_EXT: i32 = 0x3443;

pub const EGL_DMA_BUF_PLANE0_MODIFIER_HI_EXT: i32 = 0x3444;

/// The kernel's code of pixels without alpha.
pub const DRM_FORMAT_XRGB8888: u32 = 0x3432_5258;

// ---- Setting up ----

/// Where a display of EGL comes from.
#[derive(Debug, Clone, Copy, PartialEq, Eq, Structural)]
pub enum DisplaySource {
    /// The graphics memory manager's device.
    Gbm,
    /// The first device that EGL lists.
    Device,
    /// The default display.
    Default,
}

/// How the making of a display goes on.
#[derive(Debug)]
pub enum DisplayChoice {
    Try(DisplaySource),
    Failed(MediaError),
}

/// What is tried after `failed` sources gave no display.
pub open spec fn display_tried(failed: int, r: DisplayChoice) -> bool {
    if failed == 0 {
        r == DisplayChoice::Try(DisplaySource::Gbm)
    } else if failed == 1 {
        r == DisplayChoice::Try(DisplaySource::Device)
    } else if failed == 2 {
        r == DisplayChoice::Try(DisplaySource::Default)
    } else {
        r matches DisplayChoice::Failed(e) && e@ == ErrorView::CaptureError(
            "Failed to create EGL display"@,
        )
    }
}

/// The source to try after `failed` of them gave no display.
pub fn create_display(failed: usize) -> (r: DisplayChoice)
    ensures
        display_tried(failed as int, r),
{
    if failed == 0 {
        DisplayChoice::Try(DisplaySource::Gbm)
    } else if failed == 1 {
        DisplayChoice::Try(DisplaySource::Device)
    } else if failed == 2 {
        DisplayChoice::Try(DisplaySource::Default)
    } else {
        DisplayChoice::Failed(MediaError::capture("Failed to create EGL display"))
    }
}

/// The configuration that is asked for.
pub open spec fn config_asked() -> Seq<i32> {
    seq![
        EGL_RED_SIZE,
        8i32,
        EGL_GREEN_SIZE,
        8i32,
        EGL_BLUE_SIZE,
        8i32,
        EGL_ALPHA_SIZE,
        8i32,
        EGL_SURFACE_TYPE,
        EGL_PBUFFER_BIT,
        EGL_RENDERABLE_TYPE,
        EGL_OPENGL_BIT,
        EGL_NONE,
    ]
}

/// The configuration that is asked for.
pub fn config_attribs() -> (r: Vec<i32>)
    ensures
        r@ == config_asked(),
{
    vec![
        EGL_RED_SIZE,
        8,
        EGL_GREEN_SIZE,
        8,
        EGL_BLUE_SIZE,
        8,
        EGL_ALPHA_SIZE,
        8,
        EGL_SURFACE_TYPE,
        EGL_PBUFFER_BIT,
        EGL_RENDERABLE_TYPE,
        EGL_OPENGL_BIT,
        EGL_NONE,
    ]
}

/// The surface of one pixel that a context needs.
pub open spec fn surface_asked() -> Seq<i32> {
    seq![EGL_WIDTH, 1i32, EGL_HEIGHT, 1i32, EGL_NONE]
}

/// The surface of one pixel that a context needs.
pub fn pbuffer_attribs() -> (r: Vec<i32>)
    ensures
        r@ == surface_asked(),
{
    vec![EGL_WIDTH, 1, EGL_HEIGHT, 1, EGL_NONE]
}

/// The context that is asked for.
pub open spec fn context_asked() -> Seq<i32> {
    seq![
        EGL_CONTEXT_MAJOR_VERSION,
        2i32,
        EGL_CONTEXT_MINOR_VERSION,
        0i32,
        EGL_CONTEXT_OPENGL_PROFILE_MASK,
        EGL_CONTEXT_OPENGL_COMPATIBILITY_PROFILE_BIT,
        EGL_NONE,
    ]
}

/// The context that is asked for: OpenGL 2.0 with the old functions.
pub fn context_attribs() -> (r: Vec<i32>)
    ensures
        r@ == context_asked(),
{
    vec![
        EGL_CONTEXT_MAJOR_VERSION,
        2,
        EGL_CONTEXT_MINOR_VERSION,
        0,
        EGL_CONTEXT_OPENGL_PROFILE_MASK,
        EGL_CONTEXT_OPENGL_COMPATIBILITY_PROFILE_BIT,
        EGL_NONE,
    ]
}

/// A failure of setting up, with what the system said of it.
#[derive(Debug)]
pub enum EglFailure {
    NoEgl(String),
    NoGl(String),
    /// A function is missing from a library.
    NoSymbol(String, String),
    /// Initializing failed with an error code.
    Initialize(i32),
    BindApi,
    ChooseConfig,
    CreateSurface,
    CreateContext,
    MakeCurrent,
    /// An extension's function is missing.
    NoExtension(String),
    /// Making the context current for an import failed.
    MakeCurrentForImport,
}

/// A number in hexadecimal with capital digits, at least `width` of them.
pub open spec fn hex_capital(n: u32, width: nat) -> Seq<char> {
    upper_all(hex(n as nat, width))
}

fn hex_number(n: u32, width: u8) -> (s: String)
    ensures
        s@ == hex_capital(n, width as nat),
{
    let small: String = hex_text(n as u64, width);
    let v: Vec<char> = chars_of(small.as_str());
    let big: Vec<char> = uppered(v.as_slice());
    string_of(big.as_slice())
}

/// The text that describes a failure of setting up.
pub open spec fn failure_text(f: EglFailure) -> Seq<char> {
    match f {
        EglFailure::NoEgl(t) => "EGL missing: "@ + t@,
        EglFailure::NoGl(t) => "GL missing: "@ + t@,
        EglFailure::NoSymbol(name, t) => "Failed to load "@ + name@ + ": "@ + t@,
        EglFailure::Initialize(code) => "eglInitialize failed: 0x"@ + hex_capital(code as u32, 4),
        EglFailure::BindApi => "eglBindAPI(EGL_OPENGL_API) failed"@,
        EglFailure::ChooseConfig => "eglChooseConfig failed"@,
        EglFailure::CreateSurface => "eglCreatePbufferSurface failed"@,
        EglFailure::CreateContext => "eglCreateContext failed"@,
        EglFailure::MakeCurrent => "eglMakeCurrent failed"@,
        EglFailure::NoExtension(name) => name@ + " not found"@,
        EglFailure::MakeCurrentForImport => "eglMakeCurrent failed during import"@,
    }
}

/// The error of a failure of setting up.
pub fn egl_failure(f: &EglFailure) -> (e: MediaError)
    ensures
        e@ == ErrorView::CaptureError(failure_text(*f)),
{
    let text: String = match f {
        EglFailure::NoEgl(t) => "EGL missing: ".to_owned().concat(t.as_str()),
        EglFailure::NoGl(t) => "GL missing: ".to_owned().concat(t.as_str()),
        EglFailure::NoSymbol(name, t) => "Failed to load ".to_owned().concat(name.as_str()).concat(
            ": ",
        ).concat(t.as_str()),
        EglFailure::Initialize(code) => "eglInitialize failed: 0x".to_owned().concat(
            hex_number(*code as u32, 4).as_str(),
        ),
        EglFailure::BindApi => "eglBindAPI(EGL_OPENGL_API) failed".to_owned(),
        EglFailure::ChooseConfig => "eglChooseConfig failed".to_owned(),
        EglFailure::CreateSurface => "eglCreatePbufferSurface failed".to_owned(),
        EglFailure::CreateContext => "eglCreateContext failed".to_owned(),
        EglFailure::MakeCurrent => "eglMakeCurrent failed".to_owned(),
        EglFailure::NoExtension(name) => name.as_str().to_owned().concat(" not found"),
        EglFailure::MakeCurrentForImport => "eglMakeCurrent failed during import".to_owned(),
    };
    MediaError::CaptureError(text)
}

// ---- Importing ----

/// A shared buffer to import.
#[derive(Debug, Clone, Copy, PartialEq, Eq, Structural)]
pub struct DmabufSource {
    pub fd: i32,
    pub width: u32,
    pub height: u32,
    pub stride: u32,
    pub fourcc: u32,
    pub offset: u32,
    pub modifier: u64,
}

/// A way to import a buffer.
#[derive(Debug, Clone, Copy, PartialEq, Eq, Structural)]
pub enum ImportWay {
    NoModifier,
    WithModifier,
    /// As pixels without alpha, without a modifier.
    Xrgb8888,
}

/// The ways to import a buffer, in the order they are tried.
pub open spec fn ways(s: DmabufSource) -> Seq<ImportWay> {
    seq![ImportWay::NoModifier] + (if s.modifier != 0 {
        seq![ImportWay::WithModifier]
    } else {
        Seq::empty()
    }) + (if s.fourcc != DRM_FORMAT_XRGB8888 {
        seq![ImportWay::Xrgb8888]
    } else {
        Seq::empty()
    })
}

/// What a way is called.
pub open spec fn way_label(w: ImportWay) -> Seq<char> {
    match w {
        ImportWay::NoModifier => "no-modifier"@,
        ImportWay::WithModifier => "with-modifier"@,
        ImportWay::Xrgb8888 => "XRGB8888-no-modifier"@,
    }
}

/// The attributes of an import.
pub open spec fn attributes(s: DmabufSource, w: ImportWay) -> Seq<i32> {
    seq![
        EGL_WIDTH,
        s.width as i32,
        EGL_HEIGHT,
        s.height as i32,
        EGL_LINUX_DRM_FOURCC_EXT,
        (if w == ImportWay::Xrgb8888 {
            DRM_FORMAT_XRGB8888
        } else {
            s.fourcc
        }) as i32,
        EGL_DMA_BUF_PLANE0_FD_EXT,
        s.fd,
        EGL_DMA_BUF_PLANE0_OFFSET_EXT,
        s.offset as i32,
        EGL_DMA_BUF_PLANE0_PITCH_EXT,
        s.stride as i32,
    ] + (if w == ImportWay::WithModifier {
        seq![
            EGL_DMA_BUF_PLANE0_MODIFIER_LO_EXT,
            (s.modifier & 0xffff_ffff) as i32,
            EGL_DMA_BUF_PLANE0_MODIFIER_HI_EXT,
            (s.modifier >> 32) as i32,
        ]
    } else {
        Seq::empty()
    }) + seq![EGL_NONE]
}

/// The attributes of an import.
pub fn import_attributes(s: DmabufSource, w: ImportWay) -> (r: Vec<i32>)
    ensures
        r@ == attributes(s, w),
{
    let fourcc: u32 = match w {
        ImportWay::Xrgb8888 => DRM_FORMAT_XRGB8888,
        _ => s.fourcc,
    };
    let mut r: Vec<i32> = vec![
        EGL_WIDTH,
        s.width as i32,
        EGL_HEIGHT,
        s.height as i32,
        EGL_LINUX_DRM_FOURCC_EXT,
        fourcc as i32,
        EGL_DMA_BUF_PLANE0_FD_EXT,
        s.fd,
        EGL_DMA_BUF_PLANE0_OFFSET_EXT,
        s.offset as i32,
        EGL_DMA_BUF_PLANE0_PITCH_EXT,
        s.stride as i32,
    ];
    if let ImportWay::WithModifier = w {
        r.push(EGL_DMA_BUF_PLANE0_MODIFIER_LO_EXT);
        r.push((s.modifier & 0xffff_ffff) as i32);
        r.push(EGL_DMA_BUF_PLANE0_MODIFIER_HI_EXT);
        r.push((s.modifier >> 32) as i32);
    }
    r.push(EGL_NONE);
    assert(r@ =~= attributes(s, w));
    r
}

/// Why an import failed.
#[derive(Debug, Clone, Copy, PartialEq, Eq, Structural)]
pub enum ImportFailure {
    /// No image was made, with the error code.
    NoImage(i32),
    /// The framebuffer is not complete, with its status.
    Incomplete(u32),
}

/// The text that describes why a way failed.
pub open spec fn import_text(w: ImportWay, f: ImportFailure) -> Seq<char> {
    match f {
        ImportFailure::NoImage(code) => "eglCreateImageKHR("@ + way_label(w) + ") failed: 0x"@
            + hex_capital(code as u32, 1),
        ImportFailure::Incomplete(status) => "GL framebuffer incomplete ("@ + way_label(w)
            + ", status=0x"@ + hex_capital(status, 1) + ")"@,
    }
}

fn label_of(w: ImportWay) -> (s: &'static str)
    ensures
        s@ == way_label(w),
{
    match w {
        ImportWay::NoModifier => "no-modifier",
        ImportWay::WithModifier => "with-modifier",
        ImportWay::Xrgb8888 => "XRGB8888-no-modifier",
    }
}

fn describe_failure(w: ImportWay, f: ImportFailure) -> (s: String)
    ensures
        s@ == import_text(w, f),
{
    let label: &str = label_of(w);
    match f {
        ImportFailure::NoImage(code) => "eglCreateImageKHR(".to_owned().concat(label).concat(
            ") failed: 0x",
        ).concat(hex_number(code as u32, 1).as_str()),
        ImportFailure::Incomplete(status) => "GL framebuffer incomplete (".to_owned().concat(
            label,
        ).concat(", status=0x").concat(hex_number(status, 1).as_str()).concat(")"),
    }
}

/// How an import goes on.
#[derive(Debug)]
pub enum ImportStep {
    /// Try this way, with these attributes.
    Try(ImportWay, Vec<i32>),
    Failed(MediaError),
}

fn import_ways(s: DmabufSource) -> (r: Vec<ImportWay>)
    ensures
        r@ == ways(s),
{
    let mut r: Vec<ImportWay> = vec![ImportWay::NoModifier];
    if s.modifier != 0 {
        r.push(ImportWay::WithModifier);
    }
    if s.fourcc != DRM_FORMAT_XRGB8888 {
        r.push(ImportWay::Xrgb8888);
    }
    assert(r@ =~= ways(s));
    r
}

/// The importer's state. The display and context are held by the caller.
#[derive(Debug, Clone, Copy, PartialEq, Eq, Structural)]
pub struct EglImporter {
    /// The modifier of the last buffer that could be imported.
    pub cached_modifier: Option<u64>,
}

impl EglImporter {
    /// An importer that imported nothing yet.
    pub fn new() -> (r: Self)
        ensures
            r.cached_modifier is None,
    {
        EglImporter { cached_modifier: None }
    }

    /// How an import goes on after the ways so far failed: the next way, or the
    /// last failure.
    pub fn import_dmabuf(&self, s: DmabufSource, failures: &Vec<ImportFailure>) -> (r: ImportStep)
        requires
            failures@.len() <= ways(s).len(),
        ensures
            if failures@.len() < ways(s).len() {
                r matches ImportStep::Try(w, a) && w == ways(s)[failures@.len() as int] && a@
                    == attributes(s, w)
            } else {
                r matches ImportStep::Failed(e) && e@ == ErrorView::CaptureError(
                    "All EGL import attempts failed. Last: "@ + import_text(
                        ways(s).last(),
                        failures@.last(),
                    ),
                )
            },
    {
        let all: Vec<ImportWay> = import_ways(s);
        let n: usize = failures.len();
        if n < all.len() {
            let w: ImportWay = all[n];
            ImportStep::Try(w, import_attributes(s, w))
        } else {
            let text: String = describe_failure(all[n - 1], failures[n - 1]);
            ImportStep::Failed(
                MediaError::CaptureError(
                    "All EGL import attempts failed. Last: ".to_owned().concat(text.as_str()),
                ),
            )
        }
    }

    /// Takes up that a buffer was imported.
    pub fn imported(&mut self, s: DmabufSource)
        ensures
            final(self).cached_modifier == Some(s.modifier),
    {
        self.cached_modifier = Some(s.modifier);
    }
}

/// The bytes that a picture of the given size takes when it is read back.
pub fn readback_size(width: u32, height: u32) -> (n: usize)
    requires
        width * height * 4 <= u32::MAX,
    ensures
        n == width * height * 4,
{
    let pixels: u32 = width * height;
    (pixels * 4) as usize
}

/// Every import is tried without a modifier first, and no way is tried twice.
pub proof fn law_each_way_once(s: DmabufSource, i: int, j: int)
    requires
        0 <= i < j < ways(s).len(),
    ensures
        ways(s)[0] == ImportWay::NoModifier,
        ways(s)[i] != ways(s)[j],
        ways(s).len() <= 3,
{
}

/// Whether the attribute at `i` gives this value to this key.
pub open spec fn gives_at(a: Seq<i32>, key: i32, value: i32, i: int) -> bool {
    0 <= i && 2 * i + 1 < a.len() && a[2 * i] == key && a[2 * i + 1] == value
}

/// Whether a list of attributes gives this value to this key: keys stand at even places, each
/// with its value behind it.
pub open spec fn gives(a: Seq<i32>, key: i32, value: i32) -> bool {
    exists|i: int| #[trigger] gives_at(a, key, value, i)
}

/// An import describes the buffer as it is: its size, its descriptor, where its bytes begin
/// and how far apart its rows are, and its format, unless it is tried as pixels without
/// alpha. The modifier is given in two halves, and only where it is asked for. The list ends
/// with the mark for its end.
pub proof fn law_imports_describe_the_buffer(s: DmabufSource, w: ImportWay)
    ensures
        ({
            let a = attributes(s, w);
            &&& gives(a, 0x3057, s.width as i32)
            &&& gives(a, 0x3056, s.height as i32)
            &&& gives(a, 0x3272, s.fd)
            &&& gives(a, 0x3273, s.offset as i32)
            &&& gives(a, 0x3274, s.stride as i32)
            &&& w == ImportWay::Xrgb8888 ==> gives(a, 0x3271, 0x3432_5258)
            &&& w != ImportWay::Xrgb8888 ==> gives(a, 0x3271, s.fourcc as i32)
            &&& w == ImportWay::WithModifier ==> exists|lo: u32, hi: u32|
                lo + 0x1_0000_0000 * hi == s.modifier && #[trigger] gives(a, 0x3443, lo as i32)
                    && #[trigger] gives(a, 0x3444, hi as i32)
            &&& w == ImportWay::WithModifier <==> a.len() == 17
            &&& w != ImportWay::WithModifier <==> a.len() == 13
            &&& a.last() == 0x3038
        }),
{
    let a = attributes(s, w);
    assert(gives_at(a, 0x3057, s.width as i32, 0));
    assert(gives_at(a, 0x3056, s.height as i32, 1));
    if w == ImportWay::Xrgb8888 {
        assert(gives_at(a, 0x3271, 0x3432_5258, 2));
    } else {
        assert(gives_at(a, 0x3271, s.fourcc as i32, 2));
    }
    assert(gives_at(a, 0x3272, s.fd, 3));
    assert(gives_at(a, 0x3273, s.offset as i32, 4));
    assert(gives_at(a, 0x3274, s.stride as i32, 5));
    if w == ImportWay::WithModifier {
        let m: u64 = s.modifier;
        let lo: u32 = (m & 0xffff_ffff) as u32;
        let hi: u32 = (m >> 32) as u32;
        assert(((m & 0xffff_ffff) as u32) + 0x1_0000_0000 * ((m >> 32) as u32) == m) by (bit_vector);
        assert((m & 0xffff_ffff) as i32 == ((m & 0xffff_ffff) as u32) as i32) by (bit_vector);
        assert((m >> 32) as i32 == ((m >> 32) as u32) as i32) by (bit_vector);
        assert(gives_at(a, 0x3443, lo as i32, 6));
        assert(gives_at(a, 0x3444, hi as i32, 7));
        assert(gives(a, 0x3443, lo as i32));
        assert(gives(a, 0x3444, hi as i32));
    }
}

/// A modifier is tried where there is one, and pixels without alpha where they are not what
/// the buffer has anyway.
pub proof fn law_ways_fit_the_buffer(s: DmabufSource)
    ensures
        ways(s).contains(ImportWay::WithModifier) <==> s.modifier != 0,
        ways(s).contains(ImportWay::Xrgb8888) <==> s.fourcc != 0x3432_5258,
        ways(s).contains(ImportWay::NoModifier),
        s.fourcc != 0x3432_5258 ==> ways(s).last() == ImportWay::Xrgb8888,
{
    let a = ways(s);
    assert(a[0] == ImportWay::NoModifier);
    if s.modifier != 0 {
        assert(a[1] == ImportWay::WithModifier);
    }
    if s.fourcc != DRM_FORMAT_XRGB8888 {
        assert(a[a.len() - 1] == ImportWay::Xrgb8888);
    }
}

/// Every source of a display is tried once, that of the buffers first and the default last,
/// and it is only given up when none is left.
pub proof fn law_every_display_is_tried_once(i: int, j: int, a: DisplayChoice, b: DisplayChoice)
    requires
        0 <= i < j,
        display_tried(i, a),
        display_tried(j, b),
    ensures
        i < 3 <==> a is Try,
        a is Try ==> a != b,
        i == 0 ==> a == DisplayChoice::Try(DisplaySource::Gbm),
        b == DisplayChoice::Try(DisplaySource::Default) ==> j == 2,
{
}

/// What is asked of EGL: eight bits for each colour and for alpha, a context of OpenGL 2.0
/// that has the old functions, and a surface of one pixel. Each list ends with the mark for
/// its end.
pub proof fn law_what_is_asked_of_egl()
    ensures
        gives(config_asked(), 0x3024, 8),
        gives(config_asked(), 0x3023, 8),
        gives(config_asked(), 0x3022, 8),
        gives(config_asked(), 0x3021, 8),
        gives(config_asked(), 0x3033, 1),
        gives(config_asked(), 0x3040, 8),
        config_asked().len() == 13 && config_asked().last() == 0x3038,
        gives(context_asked(), 0x3098, 2),
        gives(context_asked(), 0x30fb, 0),
        gives(context_asked(), 0x30fd, 2),
        context_asked().len() == 7 && context_asked().last() == 0x3038,
        gives(surface_asked(), 0x3057, 1),
        gives(surface_asked(), 0x3056, 1),
        surface_asked().len() == 5 && surface_asked().last() == 0x3038,
{
    let c = config_asked();
    assert(gives_at(c, 0x3024, 8, 0));
    assert(gives_at(c, 0x3023, 8, 1));
    assert(gives_at(c, 0x3022, 8, 2));
    assert(gives_at(c, 0x3021, 8, 3));
    assert(gives_at(c, 0x3033, 1, 4));
    assert(gives_at(c, 0x3040, 8, 5));
    let d = context_asked();
    assert(gives_at(d, 0x3098, 2, 0));
    assert(gives_at(d, 0x30fb, 0, 1));
    assert(gives_at(d, 0x30fd, 2, 2));
    let e = surface_asked();
    assert(gives_at(e, 0x3057, 1, 0));
    assert(gives_at(e, 0x3056, 1, 1));
}

} // verus!
