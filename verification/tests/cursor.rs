use lunaris_media::capture::overlay::{draw_cursor, CursorPlace, FrameLayout};
use lunaris_media::cursor::linux::{
    cursor_kind_from_xfixes_name, infer_cursor_kind_from_unnamed_image, xfixes_cursor_name,
    LinuxCursorCapture, XfixesImage,
};
use lunaris_media::cursor::windows::{
    bitmap_bgra_to_rgba, bitmap_bgra_to_rgba_with_mask, bitmap_dimensions, cursor_image_from_handle,
    cursor_kind_from_handle, cursor_size_from_icon_info, draw_icon_releases, fill_background,
    mask_bitmap_to_rgba, rendered_icon_to_rgba, DrawRelease, DrawStage, IconParts, SystemCursors,
    WindowsCursorCapture,
};
use lunaris_media::cursor::{create_cursor_capture, CursorBackend};
use lunaris_media::{CursorImage, CursorKind, MediaError, Platform};

fn name(s: &str) -> Option<String> {
    xfixes_cursor_name(Some(s)).map(|v| v.into_iter().collect())
}

fn image(name: Option<&str>, pixels: Vec<u64>, width: u16, height: u16) -> XfixesImage {
    XfixesImage {
        x: 3,
        y: 4,
        width,
        height,
        xhot: 1,
        yhot: 2,
        name: name.map(|s| s.to_string()),
        pixels: Some(pixels),
    }
}

#[test]
fn platforms_have_their_cursor() {
    assert_eq!(create_cursor_capture(Platform::Linux), Ok(CursorBackend::Linux));
    assert_eq!(create_cursor_capture(Platform::Windows), Ok(CursorBackend::Windows));
    assert_eq!(create_cursor_capture(Platform::MacOs), Ok(CursorBackend::MacOs));
    assert_eq!(
        create_cursor_capture(Platform::Other),
        Err(MediaError::PlatformNotSupported("Unsupported OS".to_string()))
    );
}

#[test]
fn names_are_made_plain() {
    assert_eq!(name("Left_Ptr"), Some("leftptr".to_string()));
    assert_eq!(name("ns-resize"), Some("nsresize".to_string()));
    assert_eq!(name("-_-"), None);
    assert_eq!(xfixes_cursor_name(None), None);
}

#[test]
fn names_stand_for_kinds() {
    let kind = |s: &str| cursor_kind_from_xfixes_name(&s.chars().collect::<Vec<char>>());
    assert_eq!(kind("xterm"), Some(CursorKind::IBeam));
    assert_eq!(kind("dndask"), Some(CursorKind::Hand));
    assert_eq!(kind("diamondcross"), Some(CursorKind::Cross));
    assert_eq!(kind("4498f0e0c1937ffe01fd06f973665830"), Some(CursorKind::Move));
    assert_eq!(kind("sresize"), Some(CursorKind::ResizeNs));
    assert_eq!(kind("wresize"), Some(CursorKind::ResizeEw));
    assert_eq!(kind("swresize"), Some(CursorKind::ResizeNesw));
    assert_eq!(kind("seresize"), Some(CursorKind::ResizeNwse));
    assert_eq!(kind("dndnone"), Some(CursorKind::Unavailable));
    assert_eq!(kind("topleftarrow"), Some(CursorKind::Arrow));
    assert_eq!(kind("watch"), None);
}

#[test]
fn large_centred_cursors_move() {
    assert_eq!(infer_cursor_kind_from_unnamed_image(32, 32, 14, 18), Some(CursorKind::Move));
    assert_eq!(infer_cursor_kind_from_unnamed_image(32, 32, 13, 16), None);
    assert_eq!(infer_cursor_kind_from_unnamed_image(29, 32, 14, 16), None);
}

#[test]
fn a_linux_cursor_must_be_started() {
    let mut c = LinuxCursorCapture::new();
    assert_eq!(
        c.get_cursor_state(None, None).unwrap_err(),
        MediaError::CursorError("Cursor capture not started".to_string())
    );
    assert!(c.wants_x11(true));
    assert!(!c.wants_x11(false));
    c.start(false);
    let s = c.get_cursor_state(None, None).unwrap();
    assert_eq!((s.x, s.y, s.visible, s.kind), (0, 0, true, CursorKind::Arrow));
    assert!(s.image.is_none());
    assert!(!c.stop());
    assert!(c.get_cursor_state(None, None).is_err());
}

#[test]
fn a_linux_shape_comes_once() {
    let mut c = LinuxCursorCapture::new();
    c.start(true);
    assert!(!c.wants_x11(true));
    let first = c
        .get_cursor_state(Some((7, 8)), Some(image(Some("text"), vec![0x8011_2233], 1, 1)))
        .unwrap();
    assert_eq!((first.x, first.y, first.kind), (3, 4, CursorKind::IBeam));
    let i = first.image.unwrap();
    assert_eq!((i.width, i.height, i.hotspot_x, i.hotspot_y), (1, 1, 1, 2));
    assert_eq!(i.rgba_data, vec![0x11, 0x22, 0x33, 0x80]);
    let again = c
        .get_cursor_state(None, Some(image(Some("text"), vec![0x8011_2233], 1, 1)))
        .unwrap();
    assert!(again.image.is_none());
    let other = c
        .get_cursor_state(None, Some(image(None, vec![0x8011_2233], 1, 1)))
        .unwrap();
    assert!(other.image.is_some());
    assert_eq!(other.kind, CursorKind::Unknown);
    let pointer = c.get_cursor_state(Some((50, 60)), None).unwrap();
    assert_eq!((pointer.x, pointer.y), (50, 60));
    assert!(c.stop());
}

#[test]
fn a_cursor_without_pixels_keeps_its_kind() {
    let mut c = LinuxCursorCapture::new();
    c.start(true);
    let mut i = image(None, vec![], 0, 0);
    i.pixels = None;
    let s = c.get_cursor_state(None, Some(i)).unwrap();
    assert_eq!(s.kind, CursorKind::Arrow);
    assert!(s.image.is_none());
}

#[test]
fn bitmaps_have_a_size() {
    assert_eq!(bitmap_dimensions(true, 32, -64), Some((32, 64)));
    assert_eq!(bitmap_dimensions(true, 32, 64), Some((32, 64)));
    assert_eq!(bitmap_dimensions(true, 1, i32::MIN), Some((1, 2147483648)));
    assert_eq!(bitmap_dimensions(true, 0, 64), None);
    assert_eq!(bitmap_dimensions(true, 5, 0), None);
    assert_eq!(bitmap_dimensions(false, 5, 5), None);
    assert_eq!(cursor_size_from_icon_info(true, Some((3, 4)), Some((9, 9))), Some((3, 4)));
    assert_eq!(cursor_size_from_icon_info(false, None, Some((9, 9))), Some((9, 4)));
    assert_eq!(cursor_size_from_icon_info(false, None, Some((9, 1))), None);
}

#[test]
fn red_and_blue_are_swapped() {
    assert_eq!(bitmap_bgra_to_rgba(&[1, 2, 3, 4, 5, 6, 7, 8, 9]), vec![3, 2, 1, 4, 7, 6, 5, 8]);
}

#[test]
fn alpha_comes_from_picture_mask_or_color() {
    let own = bitmap_bgra_to_rgba_with_mask(&[1, 2, 3, 9, 0, 0, 0, 0], Some(&[0; 8]), 2, 1);
    assert_eq!(own, vec![3, 2, 1, 9, 0, 0, 0, 0]);
    let mask = [0, 0, 0, 0, 255, 0, 0, 0];
    let cut = bitmap_bgra_to_rgba_with_mask(&[1, 2, 3, 9], Some(&[0; 8]), 2, 1);
    assert_eq!(cut, vec![3, 2, 1, 9]);
    let masked = bitmap_bgra_to_rgba_with_mask(&[1, 2, 3, 0, 4, 5, 6, 0], Some(&mask), 2, 1);
    assert_eq!(masked, vec![3, 2, 1, 255, 6, 5, 4, 0]);
    let short = bitmap_bgra_to_rgba_with_mask(&[1, 2, 3, 0, 0, 0, 0, 0], Some(&mask[..4]), 2, 1);
    assert_eq!(short, vec![3, 2, 1, 255, 0, 0, 0, 0]);
}

#[test]
fn a_cursor_is_drawn_over_black_and_white() {
    let solid = rendered_icon_to_rgba(&[10, 20, 30, 255], &[10, 20, 30, 255], 1, 1).unwrap();
    assert_eq!(solid, vec![30, 20, 10, 255]);
    let half = rendered_icon_to_rgba(&[50, 50, 50, 0], &[178, 178, 178, 0], 1, 1).unwrap();
    assert_eq!(half[3], 127);
    assert_eq!(half[0], 100);
    assert_eq!(rendered_icon_to_rgba(&[0, 0, 0, 0], &[255, 255, 255, 0], 1, 1), None);
    assert_eq!(rendered_icon_to_rgba(&[0; 4], &[0; 8], 1, 1), None);
    assert_eq!(rendered_icon_to_rgba(&[0; 8], &[0; 8], 1, 1), None);
}

#[test]
fn masks_make_pictures() {
    let mut mask = vec![0u8; 16];
    mask[0] = 255;
    mask[12] = 255;
    assert_eq!(mask_bitmap_to_rgba(&mask, 2, 2), vec![0, 0, 0, 0, 255, 255, 255, 255]);
    assert_eq!(mask_bitmap_to_rgba(&[0; 8], 1, 2), vec![0, 0, 0, 255]);
}

#[test]
fn backgrounds_are_solid() {
    let mut b = vec![0u8; 9];
    fill_background(&mut b, (1, 2, 3));
    assert_eq!(b, vec![3, 2, 1, 255, 3, 2, 1, 255, 0]);
    assert_eq!(draw_icon_releases(DrawStage::ScreenContext), vec![]);
    assert_eq!(draw_icon_releases(DrawStage::MemoryContext), vec![DrawRelease::ReleaseScreen]);
    assert_eq!(
        draw_icon_releases(DrawStage::CreateBitmap),
        vec![DrawRelease::DeleteContext, DrawRelease::ReleaseScreen]
    );
    assert_eq!(
        draw_icon_releases(DrawStage::Draw),
        vec![DrawRelease::Reselect, DrawRelease::DeleteBitmap, DrawRelease::DeleteContext]
    );
}

fn parts() -> IconParts {
    IconParts {
        hotspot_x: 1,
        hotspot_y: 2,
        has_color: true,
        color_size: Some((1, 1)),
        mask_size: None,
        over_black: None,
        over_white: None,
        color: Some((1, 1, vec![1, 2, 3, 4])),
        mask: None,
    }
}

#[test]
fn pictures_are_drawn_or_read() {
    let read = cursor_image_from_handle(&parts()).unwrap();
    assert_eq!(read.rgba_data, vec![3, 2, 1, 4]);
    let mut drawn = parts();
    drawn.over_black = Some(vec![10, 20, 30, 255]);
    drawn.over_white = Some(vec![10, 20, 30, 255]);
    assert_eq!(cursor_image_from_handle(&drawn).unwrap().rgba_data, vec![30, 20, 10, 255]);
    let mut mono = parts();
    mono.has_color = false;
    mono.color = None;
    mono.mask = Some((1, 2, vec![0; 8]));
    let m = cursor_image_from_handle(&mono).unwrap();
    assert_eq!((m.width, m.height, m.rgba_data), (1, 1, vec![0, 0, 0, 255]));
    let mut none = parts();
    none.color = None;
    assert!(cursor_image_from_handle(&none).is_none());
    let mut empty = parts();
    empty.color = Some((0, 0, vec![]));
    assert!(cursor_image_from_handle(&empty).is_none());
}

#[test]
fn windows_cursors_have_kinds() {
    let s = SystemCursors {
        ibeam: Some(1),
        hand: Some(2),
        cross: Some(3),
        size_all: Some(4),
        size_ns: Some(5),
        size_we: Some(6),
        size_nesw: Some(7),
        size_nwse: Some(8),
        no: Some(9),
        arrow: Some(1),
    };
    assert_eq!(cursor_kind_from_handle(1, &s), CursorKind::IBeam);
    assert_eq!(cursor_kind_from_handle(4, &s), CursorKind::Move);
    assert_eq!(cursor_kind_from_handle(9, &s), CursorKind::Unavailable);
    assert_eq!(cursor_kind_from_handle(10, &s), CursorKind::Unknown);
}

#[test]
fn windows_pictures_come_on_change() {
    let picture = |v: u8| CursorImage {
        width: 1,
        height: 1,
        hotspot_x: 0,
        hotspot_y: 0,
        rgba_data: vec![v; 4],
    };
    let mut c = WindowsCursorCapture::new();
    assert_eq!(
        c.get_cursor_state(0, 0, true, CursorKind::Arrow, None).unwrap_err(),
        MediaError::CursorError("Cursor capture not started".to_string())
    );
    c.start();
    let s = c.get_cursor_state(5, 6, true, CursorKind::Hand, Some(picture(1))).unwrap();
    assert_eq!((s.x, s.y, s.visible, s.kind), (5, 6, true, CursorKind::Hand));
    assert_eq!(s.image, Some(picture(1)));
    let s = c.get_cursor_state(5, 6, true, CursorKind::Hand, Some(picture(1))).unwrap();
    assert_eq!(s.image, None);
    let s = c.get_cursor_state(5, 6, false, CursorKind::Hand, Some(picture(2))).unwrap();
    assert_eq!(s.image, None);
    let s = c.get_cursor_state(5, 6, true, CursorKind::Hand, Some(picture(2))).unwrap();
    assert_eq!(s.image, Some(picture(2)));
    c.get_cursor_state(5, 6, true, CursorKind::Hand, None).unwrap();
    assert!(c.logged_image_failure);
    c.stop();
    assert!(c.get_cursor_state(0, 0, true, CursorKind::Arrow, None).is_err());
}

#[test]
fn drawing_mixes_and_keeps_the_rest() {
    let mut frame = vec![100u8; 3 * 2 * 4];
    let f = FrameLayout { width: 3, height: 2, stride: 12 };
    let p = CursorPlace { x: -1, y: 1, width: 3, height: 1 };
    let cursor = [1, 1, 1, 255, 200, 200, 200, 128, 50, 50, 50, 0];
    draw_cursor(&mut frame, f, &cursor, p);
    assert_eq!(&frame[..12], &[100u8; 12][..]);
    assert_eq!(frame[12], ((200u32 * 128 + 100 * 127) / 255) as u8);
    assert_eq!(frame[15], 100);
    assert_eq!(&frame[16..], &[100u8; 8][..]);
}
