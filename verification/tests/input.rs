use evdev::{AbsoluteAxisType, EventType, Key, RelativeAxisType};
use lunaris_media::input::{
    get_primary_monitor_geometry, mouse_button_to_linux_keycode, vk_to_keysym, vk_to_linux_keycode,
    DeviceEvent, InputAction, InputBackend, InputHost, InputInjector, MonitorGeometry,
    VirtualDeviceKind,
};
use lunaris_media::Platform;
use x11::keysym::{
    XK_0, XK_9, XK_Alt_L, XK_Alt_R, XK_BackSpace, XK_Control_L, XK_Control_R, XK_Delete, XK_Down, XK_End, XK_Escape, XK_F1, XK_F12, XK_Home, XK_Insert, XK_KP_0, XK_KP_1, XK_KP_2, XK_KP_3, XK_KP_4, XK_KP_5, XK_KP_6, XK_KP_7, XK_KP_8, XK_KP_9, XK_KP_Add, XK_KP_Decimal, XK_KP_Divide, XK_KP_Multiply, XK_KP_Subtract, XK_Left, XK_Next, XK_Num_Lock, XK_Prior, XK_Return, XK_Right, XK_Scroll_Lock, XK_Shift_L, XK_Shift_R, XK_Super_L, XK_Super_R, XK_Tab, XK_Up, XK_a, XK_apostrophe, XK_backslash, XK_bracketleft, XK_bracketright, XK_comma, XK_equal, XK_grave, XK_minus, XK_period, XK_semicolon, XK_slash, XK_space, XK_z,
};

const KEYS: &[(u16, Key)] = &[
    (0x08, Key::KEY_BACKSPACE),
    (0x09, Key::KEY_TAB),
    (0x0D, Key::KEY_ENTER),
    (0x1B, Key::KEY_ESC),
    (0x20, Key::KEY_SPACE),
    (0x21, Key::KEY_PAGEUP),
    (0x22, Key::KEY_PAGEDOWN),
    (0x23, Key::KEY_END),
    (0x24, Key::KEY_HOME),
    (0x25, Key::KEY_LEFT),
    (0x26, Key::KEY_UP),
    (0x27, Key::KEY_RIGHT),
    (0x28, Key::KEY_DOWN),
    (0x2D, Key::KEY_INSERT),
    (0x2E, Key::KEY_DELETE),
    (0x30, Key::KEY_0),
    (0x31, Key::KEY_1),
    (0x32, Key::KEY_2),
    (0x33, Key::KEY_3),
    (0x34, Key::KEY_4),
    (0x35, Key::KEY_5),
    (0x36, Key::KEY_6),
    (0x37, Key::KEY_7),
    (0x38, Key::KEY_8),
    (0x39, Key::KEY_9),
    (0x41, Key::KEY_A),
    (0x42, Key::KEY_B),
    (0x43, Key::KEY_C),
    (0x44, Key::KEY_D),
    (0x45, Key::KEY_E),
    (0x46, Key::KEY_F),
    (0x47, Key::KEY_G),
    (0x48, Key::KEY_H),
    (0x49, Key::KEY_I),
    (0x4A, Key::KEY_J),
    (0x4B, Key::KEY_K),
    (0x4C, Key::KEY_L),
    (0x4D, Key::KEY_M),
    (0x4E, Key::KEY_N),
    (0x4F, Key::KEY_O),
    (0x50, Key::KEY_P),
    (0x51, Key::KEY_Q),
    (0x52, Key::KEY_R),
    (0x53, Key::KEY_S),
    (0x54, Key::KEY_T),
    (0x55, Key::KEY_U),
    (0x56, Key::KEY_V),
    (0x57, Key::KEY_W),
    (0x58, Key::KEY_X),
    (0x59, Key::KEY_Y),
    (0x5A, Key::KEY_Z),
    (0x5B, Key::KEY_LEFTMETA),
    (0x5C, Key::KEY_RIGHTMETA),
    (0x60, Key::KEY_KP0),
    (0x61, Key::KEY_KP1),
    (0x62, Key::KEY_KP2),
    (0x63, Key::KEY_KP3),
    (0x64, Key::KEY_KP4),
    (0x65, Key::KEY_KP5),
    (0x66, Key::KEY_KP6),
    (0x67, Key::KEY_KP7),
    (0x68, Key::KEY_KP8),
    (0x69, Key::KEY_KP9),
    (0x6A, Key::KEY_KPASTERISK),
    (0x6B, Key::KEY_KPPLUS),
    (0x6D, Key::KEY_KPMINUS),
    (0x6E, Key::KEY_KPDOT),
    (0x6F, Key::KEY_KPSLASH),
    (0x70, Key::KEY_F1),
    (0x71, Key::KEY_F2),
    (0x72, Key::KEY_F3),
    (0x73, Key::KEY_F4),
    (0x74, Key::KEY_F5),
    (0x75, Key::KEY_F6),
    (0x76, Key::KEY_F7),
    (0x77, Key::KEY_F8),
    (0x78, Key::KEY_F9),
    (0x79, Key::KEY_F10),
    (0x7A, Key::KEY_F11),
    (0x7B, Key::KEY_F12),
    (0x90, Key::KEY_NUMLOCK),
    (0x91, Key::KEY_SCROLLLOCK),
    (0x10, Key::KEY_LEFTSHIFT),
    (0xA0, Key::KEY_LEFTSHIFT),
    (0xA1, Key::KEY_RIGHTSHIFT),
    (0x11, Key::KEY_LEFTCTRL),
    (0xA2, Key::KEY_LEFTCTRL),
    (0xA3, Key::KEY_RIGHTCTRL),
    (0x12, Key::KEY_LEFTALT),
    (0xA4, Key::KEY_LEFTALT),
    (0xA5, Key::KEY_RIGHTALT),
    (0xBA, Key::KEY_SEMICOLON),
    (0xBB, Key::KEY_EQUAL),
    (0xBC, Key::KEY_COMMA),
    (0xBD, Key::KEY_MINUS),
    (0xBE, Key::KEY_DOT),
    (0xBF, Key::KEY_SLASH),
    (0xC0, Key::KEY_GRAVE),
    (0xDB, Key::KEY_LEFTBRACE),
    (0xDC, Key::KEY_BACKSLASH),
    (0xDD, Key::KEY_RIGHTBRACE),
    (0xDE, Key::KEY_APOSTROPHE),
];

const SYMBOLS: &[(u16, u32)] = &[
    (0x08, XK_BackSpace),
    (0x09, XK_Tab),
    (0x0D, XK_Return),
    (0x1B, XK_Escape),
    (0x20, XK_space),
    (0x21, XK_Prior),
    (0x22, XK_Next),
    (0x23, XK_End),
    (0x24, XK_Home),
    (0x25, XK_Left),
    (0x26, XK_Up),
    (0x27, XK_Right),
    (0x28, XK_Down),
    (0x2D, XK_Insert),
    (0x2E, XK_Delete),
    (0x5B, XK_Super_L),
    (0x5C, XK_Super_R),
    (0x60, XK_KP_0),
    (0x61, XK_KP_1),
    (0x62, XK_KP_2),
    (0x63, XK_KP_3),
    (0x64, XK_KP_4),
    (0x65, XK_KP_5),
    (0x66, XK_KP_6),
    (0x67, XK_KP_7),
    (0x68, XK_KP_8),
    (0x69, XK_KP_9),
    (0x6A, XK_KP_Multiply),
    (0x6B, XK_KP_Add),
    (0x6D, XK_KP_Subtract),
    (0x6E, XK_KP_Decimal),
    (0x6F, XK_KP_Divide),
    (0x90, XK_Num_Lock),
    (0x91, XK_Scroll_Lock),
    (0xA0, XK_Shift_L),
    (0x10, XK_Shift_L),
    (0xA1, XK_Shift_R),
    (0xA2, XK_Control_L),
    (0x11, XK_Control_L),
    (0xA3, XK_Control_R),
    (0xA4, XK_Alt_L),
    (0x12, XK_Alt_L),
    (0xA5, XK_Alt_R),
    (0xBA, XK_semicolon),
    (0xBB, XK_equal),
    (0xBC, XK_comma),
    (0xBD, XK_minus),
    (0xBE, XK_period),
    (0xBF, XK_slash),
    (0xC0, XK_grave),
    (0xDB, XK_bracketleft),
    (0xDC, XK_backslash),
    (0xDD, XK_bracketright),
    (0xDE, XK_apostrophe),
];

const XRANDR: &str = "Screen 0: minimum 320 x 200
DP-2 connected 1920x1080+3840+0 (normal)
   1920x1080     60.00*+
DP-1 connected primary 3840x2160+0+100 (normal)
";

fn host(platform: Platform) -> InputHost<'static> {
    InputHost { platform, display_set: true, screen: None, xrandr: None, uinput: true }
}

fn injector(backend: InputBackend) -> InputInjector {
    InputInjector { backend }
}

fn monitor() -> MonitorGeometry {
    MonitorGeometry { x: 100, y: 50, width: 1000, height: 500 }
}

fn events(action: InputAction) -> (VirtualDeviceKind, Vec<DeviceEvent>) {
    match action {
        InputAction::Device(d, e) => (d, e),
        other => panic!("no device: {:?}", other),
    }
}

fn event(kind: EventType, code: u16, value: i32) -> DeviceEvent {
    DeviceEvent { kind: kind.0, code, value }
}

fn sync() -> DeviceEvent {
    event(EventType::SYNCHRONIZATION, 0, 0)
}

#[test]
fn keys_have_their_evdev_codes() {
    for (vk, key) in KEYS {
        assert_eq!(vk_to_linux_keycode(*vk), Some(key.code()), "{:#x}", vk);
    }
    let known = (0..=u16::MAX).filter(|vk| vk_to_linux_keycode(*vk).is_some()).count();
    assert_eq!(known, KEYS.len());
}

#[test]
fn keys_have_their_x_symbols() {
    for (vk, symbol) in SYMBOLS {
        assert_eq!(vk_to_keysym(*vk), Some(*symbol), "{:#x}", vk);
    }
    for (i, vk) in (0x30..=0x39).enumerate() {
        assert_eq!(vk_to_keysym(vk), Some(XK_0 + i as u32));
    }
    for (i, vk) in (0x41..=0x5a).enumerate() {
        assert_eq!(vk_to_keysym(vk), Some(XK_a + i as u32));
    }
    for (i, vk) in (0x70..=0x7b).enumerate() {
        assert_eq!(vk_to_keysym(vk), Some(XK_F1 + i as u32));
    }
    assert_eq!(vk_to_keysym(0x39), Some(XK_9));
    assert_eq!(vk_to_keysym(0x5a), Some(XK_z));
    assert_eq!(vk_to_keysym(0x7b), Some(XK_F12));
}

#[test]
fn both_tables_know_the_same_keys() {
    for vk in 0..=u16::MAX {
        assert_eq!(vk_to_keysym(vk).is_some(), vk_to_linux_keycode(vk).is_some());
    }
}

#[test]
fn buttons_have_their_evdev_codes() {
    assert_eq!(mouse_button_to_linux_keycode(1), Some(Key::BTN_LEFT.code()));
    assert_eq!(mouse_button_to_linux_keycode(2), Some(Key::BTN_MIDDLE.code()));
    assert_eq!(mouse_button_to_linux_keycode(3), Some(Key::BTN_RIGHT.code()));
    assert_eq!(mouse_button_to_linux_keycode(8), Some(Key::BTN_SIDE.code()));
    assert_eq!(mouse_button_to_linux_keycode(9), Some(Key::BTN_EXTRA.code()));
    assert_eq!(mouse_button_to_linux_keycode(4), None);
}

#[test]
fn the_primary_monitor_is_found() {
    let g = |t: &str| get_primary_monitor_geometry(Some(t));
    assert_eq!(g(XRANDR), Some(MonitorGeometry { x: 0, y: 100, width: 3840, height: 2160 }));
    assert_eq!(
        g("A connected 800x600+-10+5\nB connected 640x480+800+0\n"),
        Some(MonitorGeometry { x: -10, y: 5, width: 800, height: 600 })
    );
    assert_eq!(g("A connected 800xtall+0+0\nB connected primary 1x1+0+0\n"), None);
    assert_eq!(g("A disconnected\n"), None);
    assert_eq!(get_primary_monitor_geometry(None), None);
}

#[test]
fn hosts_choose_their_backend() {
    let mut h = host(Platform::Linux);
    assert_eq!(InputInjector::new(&h).unwrap().backend, InputBackend::Uinput);
    h.screen = Some((640, 480));
    assert_eq!(
        InputInjector::new(&h).unwrap().backend,
        InputBackend::X11(MonitorGeometry { x: 0, y: 0, width: 640, height: 480 })
    );
    h.xrandr = Some(XRANDR);
    assert_eq!(
        InputInjector::new(&h).unwrap().backend,
        InputBackend::X11(MonitorGeometry { x: 0, y: 100, width: 3840, height: 2160 })
    );
    h.display_set = false;
    h.uinput = false;
    assert!(InputInjector::new(&h).is_none());
    assert_eq!(InputInjector::new(&host(Platform::Windows)).unwrap().backend, InputBackend::Windows);
    assert_eq!(InputInjector::new(&host(Platform::MacOs)).unwrap().backend, InputBackend::Stub);
}

#[test]
fn moves_become_events() {
    let (d, e) = events(injector(InputBackend::Uinput).move_mouse_relative(3, -4));
    assert_eq!(d, VirtualDeviceKind::RelativeMouse);
    assert_eq!(
        e,
        vec![
            event(EventType::RELATIVE, RelativeAxisType::REL_X.0, 3),
            event(EventType::RELATIVE, RelativeAxisType::REL_Y.0, -4),
            sync(),
        ]
    );
    assert_eq!(
        injector(InputBackend::X11(monitor())).move_mouse_relative(3, -4),
        InputAction::XMoveBy(3, -4)
    );
    assert_eq!(
        injector(InputBackend::Windows).move_mouse_relative(3, -4),
        InputAction::WindowsMouse { dx: 3, dy: -4, data: 0, flags: 1 }
    );
    assert_eq!(injector(InputBackend::Stub).move_mouse_relative(3, -4), InputAction::Nothing);
}

#[test]
fn places_are_scaled() {
    let x = injector(InputBackend::X11(monitor()));
    assert_eq!(x.move_mouse_absolute(960, 540, 1920, 1080), InputAction::XMoveTo(600, 300));
    assert_eq!(x.move_mouse_absolute(0, 0, 1920, 1080), InputAction::XMoveTo(100, 50));
    assert_eq!(x.move_mouse_absolute(1920, 1080, 1920, 1080), InputAction::XMoveTo(1100, 550));
    assert_eq!(x.move_mouse_absolute(1, 1, 0, 1080), InputAction::Nothing);
    let (d, e) = events(injector(InputBackend::Uinput).move_mouse_absolute(960, 1080, 1920, 1080));
    assert_eq!(d, VirtualDeviceKind::AbsoluteMouse);
    assert_eq!(
        e,
        vec![
            event(EventType::KEY, Key::BTN_TOOL_PEN.code(), 1),
            event(EventType::ABSOLUTE, AbsoluteAxisType::ABS_X.0, 16383),
            event(EventType::ABSOLUTE, AbsoluteAxisType::ABS_Y.0, 32767),
            sync(),
        ]
    );
    assert_eq!(
        injector(InputBackend::Windows).move_mouse_absolute(1920, 0, 1920, 1080),
        InputAction::WindowsMouse { dx: 65535, dy: 0, data: 0, flags: 0x8001 }
    );
}

#[test]
fn places_keep_their_order() {
    let i = injector(InputBackend::X11(monitor()));
    let mut last = i32::MIN;
    for x in 0..=1920 {
        match i.move_mouse_absolute(x, 0, 1920, 1080) {
            InputAction::XMoveTo(tx, _) => {
                assert!(tx >= last && (100..=1100).contains(&tx));
                last = tx;
            }
            _ => panic!("no move"),
        }
    }
}

#[test]
fn buttons_and_wheels_become_events() {
    let u = injector(InputBackend::Uinput);
    let (_, e) = events(u.mouse_button(3, true));
    assert_eq!(e, vec![event(EventType::KEY, Key::BTN_RIGHT.code(), 1), sync()]);
    let (_, e) = events(u.mouse_button(3, false));
    assert_eq!(e[0].value, 0);
    let (_, e) = events(u.mouse_button(4, true));
    assert_eq!(e[0], event(EventType::RELATIVE, RelativeAxisType::REL_WHEEL.0, 1));
    assert_eq!(u.mouse_button(4, false), InputAction::Nothing);
    let (_, e) = events(u.mouse_button(5, true));
    assert_eq!(e[0], event(EventType::RELATIVE, RelativeAxisType::REL_WHEEL.0, -1));
    assert_eq!(u.mouse_button(77, true), InputAction::Nothing);
    assert_eq!(
        injector(InputBackend::X11(monitor())).mouse_button(2, true),
        InputAction::XButton(2, true)
    );
}

#[test]
fn keys_become_events() {
    let (d, e) = events(injector(InputBackend::Uinput).keyboard_key(0x41, true));
    assert_eq!(d, VirtualDeviceKind::Keyboard);
    assert_eq!(e, vec![event(EventType::KEY, Key::KEY_A.code(), 1), sync()]);
    let x = injector(InputBackend::X11(monitor()));
    assert_eq!(x.keyboard_key(0x41, false), InputAction::XKey(XK_a, false));
    assert_eq!(x.keyboard_key(0xff, true), InputAction::Nothing);
    assert_eq!(x.flush(), InputAction::XFlush);
    assert_eq!(injector(InputBackend::Uinput).flush(), InputAction::Nothing);
    assert_eq!(
        injector(InputBackend::Windows).keyboard_key(0x41, false),
        InputAction::WindowsKey { vk: 0x41, flags: 0xa }
    );
}

#[test]
fn a_stub_moves_nothing_however_far() {
    let far = injector(InputBackend::Stub).move_mouse_absolute(i32::MAX, i32::MIN, 1, 1);
    assert_eq!(far, InputAction::Nothing);
}
