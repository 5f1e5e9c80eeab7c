//! Gamepads.

use fairy_lantern::pad::{
    decode_xinput360, has_capability, looks_like_gamepad, mask_label, JsEvent, Pad, Profile, ABS_HAT0X, ABS_RZ,
    ABS_X, ABS_Y, ABS_Z, BTN_EAST, BTN_NORTH, BTN_SOUTH, BTN_THUMBL, BTN_THUMBR, BTN_TL, BTN_WEST, EV_ABS,
    EV_KEY, JS_EVENT_AXIS, JS_EVENT_BUTTON, KEY_A, KEY_B, KEY_L, KEY_LEFT, KEY_RIGHT, KEY_START, KEY_UP,
};

#[test]
fn missing_device_is_zero() {
    let p = Pad::new(Profile::Nintendo);
    assert_eq!(p.poll(), 0);
}

struct Tap {
    pad: Pad,
}

impl Tap {
    fn new() -> Self {
        Self { pad: Pad::new(Profile::Nintendo) }
    }
    fn ev(&mut self, profile: Profile, typ: u16, code: u16, value: i32) {
        self.pad.profile = profile;
        self.pad.apply_evdev(typ, code, value);
    }
    fn p(&self) -> u16 {
        self.pad.poll()
    }
}

#[test]
fn face_xy_are_host_only() {
    let mut t = Tap::new();
    t.ev(Profile::Nintendo, EV_KEY, BTN_WEST, 1);
    t.ev(Profile::Nintendo, EV_KEY, BTN_NORTH, 1);
    assert_eq!(t.p(), 0, "X/Y must not reach KEYINPUT");
    assert!(t.pad.host_west && t.pad.host_north);
    assert_eq!(t.pad.host_xy(), (true, true));
}

#[test]
fn l2_r2_are_host_only() {
    let mut t = Tap::new();
    t.ev(Profile::Nintendo, EV_ABS, ABS_Z, 200);
    t.ev(Profile::Nintendo, EV_ABS, ABS_RZ, 200);
    assert_eq!(t.p(), 0, "L2/R2 must not reach KEYINPUT");
    assert!(t.pad.host_l2 && t.pad.host_r2);
    t.ev(Profile::Nintendo, EV_KEY, BTN_TL, 1);
    assert_eq!(t.p() & KEY_L, KEY_L, "digital L still GBA L");
}

#[test]
fn stick_clicks_are_host_only() {
    let mut t = Tap::new();
    t.ev(Profile::Nintendo, EV_KEY, BTN_THUMBL, 1);
    t.ev(Profile::Nintendo, EV_KEY, BTN_THUMBR, 1);
    assert_eq!(t.p(), 0);
    assert!(t.pad.host_l3 && t.pad.host_r3);
    assert_eq!(t.pad.host_sticks(), (true, true));
}

#[test]
fn nintendo_east_is_gba_a() {
    let mut t = Tap::new();
    t.ev(Profile::Nintendo, EV_KEY, BTN_EAST, 1);
    assert_eq!(t.p() & KEY_A, KEY_A);
    assert_eq!(t.p() & KEY_B, 0);
    t.ev(Profile::Nintendo, EV_KEY, BTN_SOUTH, 1);
    assert_eq!(t.p() & KEY_B, KEY_B);
}

#[test]
fn xbox_south_is_gba_a() {
    let mut t = Tap::new();
    t.ev(Profile::Xbox, EV_KEY, BTN_SOUTH, 1);
    assert_eq!(t.p() & KEY_A, KEY_A);
    assert_eq!(t.p() & KEY_B, 0);
}

#[test]
fn hat_and_stick() {
    let mut t = Tap::new();
    t.ev(Profile::Nintendo, EV_ABS, ABS_HAT0X, -1);
    assert_eq!(t.p() & KEY_LEFT, KEY_LEFT);
    t.ev(Profile::Nintendo, EV_ABS, ABS_HAT0X, 0);
    assert_eq!(t.p() & KEY_LEFT, 0);
    t.ev(Profile::Nintendo, EV_ABS, ABS_Y, -32_000);
    assert_eq!(t.p() & KEY_UP, KEY_UP);
    t.ev(Profile::Nintendo, EV_ABS, ABS_HAT0X, -1);
    t.ev(Profile::Nintendo, EV_ABS, ABS_X, 0);
    assert_eq!(t.p() & KEY_LEFT, KEY_LEFT, "hat survives stick center");
}

#[test]
fn xinput360_nintendo_b_is_east() {
    let mut r = [0u8; 20];
    r[1] = 0x14;
    r[3] = 0x20; // Xbox B = east
    assert_eq!(decode_xinput360(&r, Profile::Nintendo) & KEY_A, KEY_A);
    r[3] = 0x10; // Xbox A = south
    assert_eq!(decode_xinput360(&r, Profile::Nintendo) & KEY_B, KEY_B);
    r[3] = 0x10;
    assert_eq!(decode_xinput360(&r, Profile::Xbox) & KEY_A, KEY_A);
}

#[test]
fn js_button_and_axis_or_into_mask() {
    let mut pad = Pad::new(Profile::Xbox);
    pad.apply_js(JsEvent { time: 0, value: 1, typ: JS_EVENT_BUTTON, number: 0 });
    pad.apply_js(JsEvent { time: 0, value: 32767, typ: JS_EVENT_AXIS, number: 0 });
    let pressed = pad.poll();
    assert_eq!(pressed & KEY_A, KEY_A);
    assert_eq!(pressed & KEY_RIGHT, KEY_RIGHT);
}

#[test]
fn records_are_little_endian() {
    let mut pad = Pad::new(Profile::Nintendo);
    let mut r = [0u8; 24];
    r[16] = EV_ABS as u8;
    r[18] = ABS_HAT0X as u8;
    r[20..24].copy_from_slice(&(-1i32).to_le_bytes());
    pad.evdev_record(&r);
    assert_eq!(pad.poll(), KEY_LEFT);

    let mut js = Pad::new(Profile::Nintendo);
    js.js_record(&[0, 0, 0, 0, 1, 0, 0x81, 7]);
    assert_eq!(js.poll(), KEY_START, "the opening event counts");
    js.unplug();
    assert_eq!(js.poll(), 0);
}

#[test]
fn short_reports_and_names() {
    assert_eq!(decode_xinput360(&[0xFF; 13], Profile::Xbox), 0);
    assert_eq!(mask_label(0), "(none)");
    assert_eq!(mask_label(KEY_A | KEY_START | KEY_L), "A+Start+L");
    assert_eq!(Profile::from_setting(Some("XBox")), Profile::Xbox);
    assert_eq!(Profile::from_setting(Some("ps")), Profile::Nintendo);
    assert_eq!(Profile::from_setting(None), Profile::Nintendo);
    assert_eq!(Profile::Xbox.label(), "xbox A=south");
    assert!(looks_like_gamepad("Anything", true, false));
    assert!(looks_like_gamepad("Action JoyPad", false, true));
    assert!(!looks_like_gamepad("Action JoyPad", false, false));
    assert!(!looks_like_gamepad("DS4 Touchpad", true, true));
    assert!(has_capability(&[0, 0b100], 10));
    assert!(!has_capability(&[0, 0b100], 11));
    assert!(!has_capability(&[0xFF], 8));
}
