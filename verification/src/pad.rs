//! Host gamepad to GBA `KEYINPUT` bits.
//!
//! The pad is OR-ed into the ten keys that the keyboard gives; a pad that is
//! missing or vanishes leaves the keyboard alone. Faces map the Nintendo way by
//! default: east is A, south is B.

use crate::bits::{le16, le32, make16, make32};
use crate::mem::{find_tag, holds_tag};
use crate::text::{equals_tag, is_tag, lowercase, lowered};
use vstd::prelude::*;
use vstd::utf8::encode_utf8;

verus! {

pub const KEY_A: u16 = 0x001;

pub const KEY_B: u16 = 0x002;

pub const KEY_SELECT: u16 = 0x004;

pub const KEY_START: u16 = 0x008;

pub const KEY_RIGHT: u16 = 0x010;

pub const KEY_LEFT: u16 = 0x020;

pub const KEY_UP: u16 = 0x040;

pub const KEY_DOWN: u16 = 0x080;

pub const KEY_R: u16 = 0x100;

pub const KEY_L: u16 = 0x200;

pub const JS_EVENT_BUTTON: u8 = 0x01;

pub const JS_EVENT_AXIS: u8 = 0x02;

pub const STICK_DEADZONE: i16 = 16_384;

/// Analogue triggers run from 0 to 255; half a pull counts.
pub const TRIGGER_ON: i32 = 128;

pub const EV_KEY: u16 = 1;

pub const EV_ABS: u16 = 3;

pub const BTN_SOUTH: u16 = 0x130;

pub const BTN_EAST: u16 = 0x131;

pub const BTN_NORTH: u16 = 0x133;

pub const BTN_WEST: u16 = 0x134;

pub const BTN_TL: u16 = 0x136;

pub const BTN_TR: u16 = 0x137;

pub const BTN_TL2: u16 = 0x138;

pub const BTN_TR2: u16 = 0x139;

pub const BTN_SELECT: u16 = 0x13A;

pub const BTN_START: u16 = 0x13B;

pub const BTN_MODE: u16 = 0x13C;

pub const BTN_THUMBL: u16 = 0x13D;

pub const BTN_THUMBR: u16 = 0x13E;

pub const ABS_X: u16 = 0;

pub const ABS_Y: u16 = 1;

pub const ABS_Z: u16 = 2;

pub const ABS_RZ: u16 = 5;

pub const ABS_HAT0X: u16 = 0x10;

pub const ABS_HAT0Y: u16 = 0x11;

#[derive(Clone, Copy, Debug, PartialEq, Eq, Structural)]
pub enum Profile {
    /// East face is A, south is B.
    Nintendo,
    /// South face is A, east is B.
    Xbox,
}

/// `mask` with a bit up or down.
#[verifier::opaque]
pub open spec fn bit_set(mask: u16, bit: u16, down: bool) -> u16 {
    if down {
        mask | bit
    } else {
        mask & !bit
    }
}

fn set_bit(mask: u16, bit: u16, down: bool) -> (r: u16)
    ensures
        r == bit_set(mask, bit, down),
{
    reveal(bit_set);
    if down {
        mask | bit
    } else {
        mask & !bit
    }
}

impl Profile {
    /// The profile that a setting names; Nintendo unless it says Xbox.
    pub open spec fn named(s: Option<Seq<char>>) -> Profile {
        match s {
            Some(t) if is_tag(lowered(encode_utf8(t)), "xbox"@) => Profile::Xbox,
            _ => Profile::Nintendo,
        }
    }

    pub fn from_setting(s: Option<&str>) -> (r: Profile)
        ensures
            r == Profile::named(
                match s {
                    Some(t) => Some(t@),
                    None => None,
                },
            ),
    {
        proof {
            reveal_strlit("xbox");
        }
        match s {
            Some(t) => {
                let low: Vec<u8> = lowercase(t.as_bytes());
                if equals_tag(low.as_slice(), "xbox") {
                    Profile::Xbox
                } else {
                    Profile::Nintendo
                }
            },
            None => Profile::Nintendo,
        }
    }

    pub fn label(self) -> (r: &'static str)
        ensures
            r@ == match self {
                Profile::Nintendo => "nintendo A=east"@,
                Profile::Xbox => "xbox A=south"@,
            },
    {
        match self {
            Profile::Nintendo => "nintendo A=east",
            Profile::Xbox => "xbox A=south",
        }
    }

    /// The faces as A and B; the other keys stay.
    #[verifier::opaque]
    pub open spec fn faces(self, south: bool, east: bool, pressed: u16) -> u16 {
        let m = pressed & !(KEY_A | KEY_B);
        let (a, b) = match self {
            Profile::Nintendo => (east, south),
            Profile::Xbox => (south, east),
        };
        let m = if a {
            m | KEY_A
        } else {
            m
        };
        if b {
            m | KEY_B
        } else {
            m
        }
    }

    pub fn map_south_east(self, south: bool, east: bool, pressed: u16) -> (r: u16)
        ensures
            r == self.faces(south, east, pressed),
    {
        reveal(Profile::faces);
        let mut m: u16 = pressed & !(KEY_A | KEY_B);
        let (a, b): (bool, bool) = match self {
            Profile::Nintendo => (east, south),
            Profile::Xbox => (south, east),
        };
        if a {
            m = m | KEY_A;
        }
        if b {
            m = m | KEY_B;
        }
        m
    }
}

/// An event of the old joystick interface.
#[derive(Clone, Copy, Debug)]
pub struct JsEvent {
    pub time: u32,
    pub value: i16,
    pub typ: u8,
    pub number: u8,
}

/// What a pad holds down.
#[derive(Clone, Copy, Debug)]
pub struct Pad {
    pub profile: Profile,
    /// Keys for the game; 1 is down.
    pub pressed: u16,
    pub south: bool,
    pub east: bool,
    pub hat_x: i32,
    pub hat_y: i32,
    pub stick_x: i16,
    pub stick_y: i16,
    pub sh_l: bool,
    pub sh_r: bool,
    /// Physical X (west) and Y (north), for the host only.
    pub host_west: bool,
    pub host_north: bool,
    /// Triggers, for the host only.
    pub host_l2: bool,
    pub host_r2: bool,
    /// Stick clicks: hold to save or load a state.
    pub host_l3: bool,
    pub host_r3: bool,
}

/// The directions that hat and stick give; the other keys stay.
#[verifier::opaque]
pub open spec fn dirs(pressed: u16, hat_x: i32, hat_y: i32, stick_x: i16, stick_y: i16) -> u16 {
    let m = pressed & !(KEY_LEFT | KEY_RIGHT | KEY_UP | KEY_DOWN);
    let m = if hat_x < 0 || stick_x <= -STICK_DEADZONE {
        m | KEY_LEFT
    } else {
        m
    };
    let m = if hat_x > 0 || stick_x >= STICK_DEADZONE {
        m | KEY_RIGHT
    } else {
        m
    };
    let m = if hat_y < 0 || stick_y <= -STICK_DEADZONE {
        m | KEY_UP
    } else {
        m
    };
    if hat_y > 0 || stick_y >= STICK_DEADZONE {
        m | KEY_DOWN
    } else {
        m
    }
}

fn write_dirs(pressed: u16, hat_x: i32, hat_y: i32, stick_x: i16, stick_y: i16) -> (r: u16)
    ensures
        r == dirs(pressed, hat_x, hat_y, stick_x, stick_y),
{
    reveal(dirs);
    let mut m: u16 = pressed & !(KEY_LEFT | KEY_RIGHT | KEY_UP | KEY_DOWN);
    if hat_x < 0 || stick_x <= -STICK_DEADZONE {
        m = m | KEY_LEFT;
    }
    if hat_x > 0 || stick_x >= STICK_DEADZONE {
        m = m | KEY_RIGHT;
    }
    if hat_y < 0 || stick_y <= -STICK_DEADZONE {
        m = m | KEY_UP;
    }
    if hat_y > 0 || stick_y >= STICK_DEADZONE {
        m = m | KEY_DOWN;
    }
    m
}

/// One joystick axis as two opposite keys.
#[verifier::opaque]
pub open spec fn axis(pressed: u16, neg: u16, pos: u16, value: i16) -> u16 {
    let m = pressed & !(neg | pos);
    if value <= -STICK_DEADZONE {
        m | neg
    } else if value >= STICK_DEADZONE {
        m | pos
    } else {
        m
    }
}

fn apply_axis(pressed: u16, neg: u16, pos: u16, value: i16) -> (r: u16)
    ensures
        r == axis(pressed, neg, pos, value),
{
    reveal(axis);
    let m: u16 = pressed & !(neg | pos);
    if value <= -STICK_DEADZONE {
        m | neg
    } else if value >= STICK_DEADZONE {
        m | pos
    } else {
        m
    }
}

impl Pad {
    /// Nothing held.
    pub open spec fn idle(profile: Profile) -> Pad {
        Pad {
            profile,
            pressed: 0,
            south: false,
            east: false,
            hat_x: 0,
            hat_y: 0,
            stick_x: 0,
            stick_y: 0,
            sh_l: false,
            sh_r: false,
            host_west: false,
            host_north: false,
            host_l2: false,
            host_r2: false,
            host_l3: false,
            host_r3: false,
        }
    }

    pub fn new(profile: Profile) -> (r: Pad)
        ensures
            r == Pad::idle(profile),
    {
        Pad {
            profile,
            pressed: 0,
            south: false,
            east: false,
            hat_x: 0,
            hat_y: 0,
            stick_x: 0,
            stick_y: 0,
            sh_l: false,
            sh_r: false,
            host_west: false,
            host_north: false,
            host_l2: false,
            host_r2: false,
            host_l3: false,
            host_r3: false,
        }
    }

    pub fn profile(&self) -> (r: Profile)
        ensures
            r == self.profile,
    {
        self.profile
    }

    /// The keys held; without a pad, none.
    pub fn poll(&self) -> (r: u16)
        ensures
            r == self.pressed,
    {
        self.pressed
    }

    /// Physical X (west) and Y (north): host turbo, no game keys.
    pub fn host_xy(&self) -> (r: (bool, bool))
        ensures
            r == (self.host_west, self.host_north),
    {
        (self.host_west, self.host_north)
    }

    pub fn host_triggers(&self) -> (r: (bool, bool))
        ensures
            r == (self.host_l2, self.host_r2),
    {
        (self.host_l2, self.host_r2)
    }

    /// Stick clicks (host savestate hold).
    pub fn host_sticks(&self) -> (r: (bool, bool))
        ensures
            r == (self.host_l3, self.host_r3),
    {
        (self.host_l3, self.host_r3)
    }

    /// The device is gone: everything is let go.
    pub fn unplug(&mut self)
        ensures
            *final(self) == Pad::idle(old(self).profile),
    {
        *self = Pad::new(self.profile);
    }

    /// A key event. X, Y, the triggers and the stick clicks stay with the host.
    pub open spec fn key(self, code: u16, down: bool) -> Pad {
        if code == BTN_SOUTH {
            Pad { south: down, pressed: self.profile.faces(down, self.east, self.pressed), ..self }
        } else if code == BTN_EAST {
            Pad { east: down, pressed: self.profile.faces(self.south, down, self.pressed), ..self }
        } else if code == BTN_WEST {
            Pad { host_west: down, ..self }
        } else if code == BTN_NORTH {
            Pad { host_north: down, ..self }
        } else if code == BTN_TL {
            Pad { sh_l: down, pressed: bit_set(self.pressed, KEY_L, down), ..self }
        } else if code == BTN_TR {
            Pad { sh_r: down, pressed: bit_set(self.pressed, KEY_R, down), ..self }
        } else if code == BTN_TL2 {
            Pad { host_l2: down, ..self }
        } else if code == BTN_TR2 {
            Pad { host_r2: down, ..self }
        } else if code == BTN_THUMBL {
            Pad { host_l3: down, ..self }
        } else if code == BTN_THUMBR {
            Pad { host_r3: down, ..self }
        } else if code == BTN_SELECT {
            Pad { pressed: bit_set(self.pressed, KEY_SELECT, down), ..self }
        } else if code == BTN_START {
            Pad { pressed: bit_set(self.pressed, KEY_START, down), ..self }
        } else {
            self
        }
    }

    /// An axis event. Hat and stick together give the directions.
    pub open spec fn moved(self, code: u16, value: i32) -> Pad {
        if code == ABS_Z {
            Pad { host_l2: value >= TRIGGER_ON, ..self }
        } else if code == ABS_RZ {
            Pad { host_r2: value >= TRIGGER_ON, ..self }
        } else if code == ABS_HAT0X || code == ABS_HAT0Y || code == ABS_X || code == ABS_Y {
            let s = if code == ABS_HAT0X {
                Pad { hat_x: value, ..self }
            } else if code == ABS_HAT0Y {
                Pad { hat_y: value, ..self }
            } else if code == ABS_X {
                Pad { stick_x: value as i16, ..self }
            } else {
                Pad { stick_y: value as i16, ..self }
            };
            Pad { pressed: dirs(s.pressed, s.hat_x, s.hat_y, s.stick_x, s.stick_y), ..s }
        } else {
            self
        }
    }

    /// An input event.
    pub open spec fn evdev(self, typ: u16, code: u16, value: i32) -> Pad {
        if typ == EV_KEY {
            self.key(code, value != 0)
        } else if typ == EV_ABS {
            self.moved(code, value)
        } else {
            self
        }
    }

    fn with_key_event(self, code: u16, down: bool) -> (r: Pad)
        ensures
            r == self.key(code, down),
    {
        if code == BTN_SOUTH {
            let pressed: u16 = self.profile.map_south_east(down, self.east, self.pressed);
            Pad { south: down, pressed, ..self }
        } else if code == BTN_EAST {
            let pressed: u16 = self.profile.map_south_east(self.south, down, self.pressed);
            Pad { east: down, pressed, ..self }
        } else if code == BTN_WEST {
            Pad { host_west: down, ..self }
        } else if code == BTN_NORTH {
            Pad { host_north: down, ..self }
        } else if code == BTN_TL {
            Pad { sh_l: down, pressed: set_bit(self.pressed, KEY_L, down), ..self }
        } else if code == BTN_TR {
            Pad { sh_r: down, pressed: set_bit(self.pressed, KEY_R, down), ..self }
        } else if code == BTN_TL2 {
            Pad { host_l2: down, ..self }
        } else if code == BTN_TR2 {
            Pad { host_r2: down, ..self }
        } else if code == BTN_THUMBL {
            Pad { host_l3: down, ..self }
        } else if code == BTN_THUMBR {
            Pad { host_r3: down, ..self }
        } else if code == BTN_SELECT {
            Pad { pressed: set_bit(self.pressed, KEY_SELECT, down), ..self }
        } else if code == BTN_START {
            Pad { pressed: set_bit(self.pressed, KEY_START, down), ..self }
        } else {
            self
        }
    }

    fn with_axis_event(self, code: u16, value: i32) -> (r: Pad)
        ensures
            r == self.moved(code, value),
    {
        if code == ABS_Z {
            Pad { host_l2: value >= TRIGGER_ON, ..self }
        } else if code == ABS_RZ {
            Pad { host_r2: value >= TRIGGER_ON, ..self }
        } else if code == ABS_HAT0X || code == ABS_HAT0Y || code == ABS_X || code == ABS_Y {
            let s: Pad = if code == ABS_HAT0X {
                Pad { hat_x: value, ..self }
            } else if code == ABS_HAT0Y {
                Pad { hat_y: value, ..self }
            } else if code == ABS_X {
                Pad { stick_x: value as i16, ..self }
            } else {
                Pad { stick_y: value as i16, ..self }
            };
            let pressed: u16 = write_dirs(s.pressed, s.hat_x, s.hat_y, s.stick_x, s.stick_y);
            Pad { pressed, ..s }
        } else {
            self
        }
    }

    pub fn apply_evdev(&mut self, typ: u16, code: u16, value: i32)
        ensures
            *final(self) == old(self).evdev(typ, code, value),
    {
        let p: Pad = *self;
        if typ == EV_KEY {
            *self = p.with_key_event(code, value != 0);
        } else if typ == EV_ABS {
            *self = p.with_axis_event(code, value);
        }
    }

    /// A 24-byte record as the kernel gives it: type, code and value behind
    /// the time stamp.
    pub fn evdev_record(&mut self, b: &[u8; 24])
        ensures
            *final(self) == old(self).evdev(
                le16(b[16], b[17]),
                le16(b[18], b[19]),
                le32(b[20], b[21], b[22], b[23]) as i32,
            ),
    {
        let typ: u16 = make16(b[16], b[17]);
        let code: u16 = make16(b[18], b[19]);
        let value: i32 = make32(b[20], b[21], b[22], b[23]) as i32;
        self.apply_evdev(typ, code, value);
    }

    /// The face that gives A, by joystick number: 0 is south, 1 is east.
    pub open spec fn js_face(self, number: u8) -> u16 {
        if (number == 1) == (self.profile == Profile::Nintendo) {
            KEY_A
        } else {
            KEY_B
        }
    }

    /// A joystick button.
    pub open spec fn js_button(self, number: u8, down: bool) -> Pad {
        if number <= 1 {
            Pad { pressed: bit_set(self.pressed, self.js_face(number), down), ..self }
        } else if number == 2 {
            Pad { host_west: down, ..self }
        } else if number == 3 {
            Pad { host_north: down, ..self }
        } else if number == 4 {
            Pad { pressed: bit_set(self.pressed, KEY_L, down), ..self }
        } else if number == 5 {
            Pad { pressed: bit_set(self.pressed, KEY_R, down), ..self }
        } else if number == 6 || number == 8 {
            Pad { pressed: bit_set(self.pressed, KEY_SELECT, down), ..self }
        } else if number == 7 {
            Pad { pressed: bit_set(self.pressed, KEY_START, down), ..self }
        } else if number == 9 {
            Pad { host_l3: down, ..self }
        } else if number == 10 {
            Pad { host_r3: down, ..self }
        } else {
            self
        }
    }

    /// A joystick axis.
    pub open spec fn js_axis(self, number: u8, value: i16) -> Pad {
        if number == 0 || number == 6 {
            Pad { pressed: axis(self.pressed, KEY_LEFT, KEY_RIGHT, value), ..self }
        } else if number == 1 || number == 7 {
            Pad { pressed: axis(self.pressed, KEY_UP, KEY_DOWN, value), ..self }
        } else if number == 2 {
            Pad { host_l2: value >= STICK_DEADZONE, ..self }
        } else if number == 5 {
            Pad { host_r2: value >= STICK_DEADZONE, ..self }
        } else {
            self
        }
    }

    /// A joystick event; the one sent on opening counts like any other.
    pub open spec fn js(self, e: JsEvent) -> Pad {
        let kind = e.typ & 0x7F;
        if kind == JS_EVENT_BUTTON {
            self.js_button(e.number, e.value != 0)
        } else if kind == JS_EVENT_AXIS {
            self.js_axis(e.number, e.value)
        } else {
            self
        }
    }

    fn with_js_button(self, number: u8, down: bool) -> (r: Pad)
        ensures
            r == self.js_button(number, down),
    {
        if number <= 1 {
            let face: u16 = if (number == 1) == (self.profile == Profile::Nintendo) {
                KEY_A
            } else {
                KEY_B
            };
            Pad { pressed: set_bit(self.pressed, face, down), ..self }
        } else if number == 2 {
            Pad { host_west: down, ..self }
        } else if number == 3 {
            Pad { host_north: down, ..self }
        } else if number == 4 {
            Pad { pressed: set_bit(self.pressed, KEY_L, down), ..self }
        } else if number == 5 {
            Pad { pressed: set_bit(self.pressed, KEY_R, down), ..self }
        } else if number == 6 || number == 8 {
            Pad { pressed: set_bit(self.pressed, KEY_SELECT, down), ..self }
        } else if number == 7 {
            Pad { pressed: set_bit(self.pressed, KEY_START, down), ..self }
        } else if number == 9 {
            Pad { host_l3: down, ..self }
        } else if number == 10 {
            Pad { host_r3: down, ..self }
        } else {
            self
        }
    }

    fn with_js_axis(self, number: u8, value: i16) -> (r: Pad)
        ensures
            r == self.js_axis(number, value),
    {
        if number == 0 || number == 6 {
            Pad { pressed: apply_axis(self.pressed, KEY_LEFT, KEY_RIGHT, value), ..self }
        } else if number == 1 || number == 7 {
            Pad { pressed: apply_axis(self.pressed, KEY_UP, KEY_DOWN, value), ..self }
        } else if number == 2 {
            Pad { host_l2: value >= STICK_DEADZONE, ..self }
        } else if number == 5 {
            Pad { host_r2: value >= STICK_DEADZONE, ..self }
        } else {
            self
        }
    }

    pub fn apply_js(&mut self, e: JsEvent)
        ensures
            *final(self) == old(self).js(e),
    {
        let p: Pad = *self;
        let kind: u8 = e.typ & 0x7F;
        if kind == JS_EVENT_BUTTON {
            *self = p.with_js_button(e.number, e.value != 0);
        } else if kind == JS_EVENT_AXIS {
            *self = p.with_js_axis(e.number, e.value);
        }
    }

    /// An 8-byte record as the kernel gives it.
    pub fn js_record(&mut self, b: &[u8; 8])
        ensures
            *final(self) == old(self).js(
                (JsEvent {
                    time: le32(b[0], b[1], b[2], b[3]),
                    value: le16(b[4], b[5]) as i16,
                    typ: b[6],
                    number: b[7],
                }),
            ),
    {
        let e: JsEvent = JsEvent {
            time: make32(b[0], b[1], b[2], b[3]),
            value: make16(b[4], b[5]) as i16,
            typ: b[6],
            number: b[7],
        };
        self.apply_js(e);
    }
}

/// `m` with a key where its condition holds.
pub open spec fn with_key(m: u16, on: bool, key: u16) -> u16 {
    if on {
        m | key
    } else {
        m
    }
}

fn add_key(m: u16, on: bool, key: u16) -> (r: u16)
    ensures
        r == with_key(m, on, key),
{
    if on {
        m | key
    } else {
        m
    }
}

/// The keys of a wired Xbox 360 input report; none where it is too short.
pub open spec fn report_keys(r: Seq<u8>, profile: Profile) -> u16 {
    if r.len() < 14 {
        0
    } else {
        let (b2, b3) = (r[2], r[3]);
        let m = with_key(0, b2 & 0x01 != 0, KEY_UP);
        let m = with_key(m, b2 & 0x02 != 0, KEY_DOWN);
        let m = with_key(m, b2 & 0x04 != 0, KEY_LEFT);
        let m = with_key(m, b2 & 0x08 != 0, KEY_RIGHT);
        let m = with_key(m, b2 & 0x10 != 0, KEY_START);
        let m = with_key(m, b2 & 0x20 != 0, KEY_SELECT);
        let m = with_key(m, b3 & 0x01 != 0, KEY_L);
        let m = with_key(m, b3 & 0x02 != 0, KEY_R);
        let m = profile.faces(b3 & 0x10 != 0, b3 & 0x20 != 0, m);
        let (lx, ly) = (le16(r[6], r[7]) as i16, le16(r[8], r[9]) as i16);
        let m = with_key(m, lx <= -STICK_DEADZONE, KEY_LEFT);
        let m = with_key(m, lx >= STICK_DEADZONE, KEY_RIGHT);
        let m = with_key(m, ly <= -STICK_DEADZONE, KEY_UP);
        with_key(m, ly >= STICK_DEADZONE, KEY_DOWN)
    }
}

pub fn decode_xinput360(report: &[u8], profile: Profile) -> (r: u16)
    ensures
        r == report_keys(report@, profile),
{
    if report.len() < 14 {
        return 0;
    }
    let b2: u8 = report[2];
    let b3: u8 = report[3];
    let m: u16 = add_key(0, b2 & 0x01 != 0, KEY_UP);
    let m: u16 = add_key(m, b2 & 0x02 != 0, KEY_DOWN);
    let m: u16 = add_key(m, b2 & 0x04 != 0, KEY_LEFT);
    let m: u16 = add_key(m, b2 & 0x08 != 0, KEY_RIGHT);
    let m: u16 = add_key(m, b2 & 0x10 != 0, KEY_START);
    let m: u16 = add_key(m, b2 & 0x20 != 0, KEY_SELECT);
    let m: u16 = add_key(m, b3 & 0x01 != 0, KEY_L);
    let m: u16 = add_key(m, b3 & 0x02 != 0, KEY_R);
    let m: u16 = profile.map_south_east(b3 & 0x10 != 0, b3 & 0x20 != 0, m);
    let lx: i16 = make16(report[6], report[7]) as i16;
    let ly: i16 = make16(report[8], report[9]) as i16;
    let m: u16 = add_key(m, lx <= -STICK_DEADZONE, KEY_LEFT);
    let m: u16 = add_key(m, lx >= STICK_DEADZONE, KEY_RIGHT);
    let m: u16 = add_key(m, ly <= -STICK_DEADZONE, KEY_UP);
    add_key(m, ly >= STICK_DEADZONE, KEY_DOWN)
}

// ---- names --------------------------------------------------------------

pub open spec fn key_bit(i: int) -> u16 {
    if i == 0 { KEY_A } else if i == 1 { KEY_B } else if i == 2 { KEY_SELECT } else if i == 3 {
        KEY_START
    } else if i == 4 { KEY_RIGHT } else if i == 5 { KEY_LEFT } else if i == 6 { KEY_UP } else if i == 7 {
        KEY_DOWN
    } else if i == 8 { KEY_R } else { KEY_L }
}

pub open spec fn key_name(i: int) -> Seq<char> {
    if i == 0 { "A"@ } else if i == 1 { "B"@ } else if i == 2 { "Select"@ } else if i == 3 {
        "Start"@
    } else if i == 4 { "Right"@ } else if i == 5 { "Left"@ } else if i == 6 { "Up"@ } else if i == 7 {
        "Down"@
    } else if i == 8 { "R"@ } else { "L"@ }
}

/// The names of the keys held among the first `n`, joined by plus signs.
pub open spec fn key_names(m: u16, n: nat) -> Seq<char>
    decreases n,
{
    if n == 0 {
        Seq::empty()
    } else {
        let p = key_names(m, (n - 1) as nat);
        if m & key_bit(n - 1) == 0 {
            p
        } else if p.len() == 0 {
            key_name(n - 1)
        } else {
            p + "+"@ + key_name(n - 1)
        }
    }
}

fn bit_and_name(i: usize) -> (r: (u16, &'static str))
    requires
        i < 10,
    ensures
        r.0 == key_bit(i as int),
        r.1@ == key_name(i as int),
{
    if i == 0 {
        (KEY_A, "A")
    } else if i == 1 {
        (KEY_B, "B")
    } else if i == 2 {
        (KEY_SELECT, "Select")
    } else if i == 3 {
        (KEY_START, "Start")
    } else if i == 4 {
        (KEY_RIGHT, "Right")
    } else if i == 5 {
        (KEY_LEFT, "Left")
    } else if i == 6 {
        (KEY_UP, "Up")
    } else if i == 7 {
        (KEY_DOWN, "Down")
    } else if i == 8 {
        (KEY_R, "R")
    } else {
        (KEY_L, "L")
    }
}

/// The keys of a mask in words.
pub fn mask_label(m: u16) -> (r: String)
    ensures
        r@ == if key_names(m, 10).len() == 0 {
            "(none)"@
        } else {
            key_names(m, 10)
        },
{
    let mut out: String = String::new();
    let mut i: usize = 0;
    while i < 10
        invariant
            i <= 10,
            out@ == key_names(m, i as nat),
        decreases 10 - i,
    {
        let (bit, name): (u16, &'static str) = bit_and_name(i);
        if m & bit != 0 {
            if out.as_str().unicode_len() != 0 {
                out.append("+");
            }
            let ghost before = out@;
            out.append(name);
            assert(before.len() == 0 ==> out@ =~= name@);
        }
        i += 1;
    }
    if out.as_str().unicode_len() == 0 {
        "(none)".to_owned()
    } else {
        out
    }
}

/// A device is a gamepad: it has a south face, or it is named like one and has
/// a hat. Touchpads, keyboards and mice never are.
pub open spec fn gamepad(name: Seq<u8>, has_south: bool, has_hat: bool) -> bool {
    let n = lowered(name);
    &&& !holds_tag(n, "touchpad"@) && !holds_tag(n, "keyboard"@) && !holds_tag(n, "mouse"@)
    &&& has_south || ((holds_tag(n, "xbox"@) || holds_tag(n, "pad"@) || holds_tag(n, "joy"@) || holds_tag(
        n,
        "game"@,
    )) && has_hat)
}

pub fn looks_like_gamepad(name: &str, has_south: bool, has_hat: bool) -> (r: bool)
    ensures
        r == gamepad(encode_utf8(name@), has_south, has_hat),
{
    proof {
        reveal_strlit("touchpad");
        reveal_strlit("keyboard");
        reveal_strlit("mouse");
        reveal_strlit("xbox");
        reveal_strlit("pad");
        reveal_strlit("joy");
        reveal_strlit("game");
    }
    let low: Vec<u8> = lowercase(name.as_bytes());
    let n: &[u8] = low.as_slice();
    if find_tag(n, "touchpad") || find_tag(n, "keyboard") || find_tag(n, "mouse") {
        return false;
    }
    if has_south {
        return true;
    }
    (find_tag(n, "xbox") || find_tag(n, "pad") || find_tag(n, "joy") || find_tag(n, "game")) && has_hat
}

/// Bit `code` of a capability map.
pub open spec fn capability(bits: Seq<u8>, code: u16) -> bool {
    code / 8 < bits.len() && bits[code as int / 8] & (1u8 << (code % 8) as u8) != 0
}

pub fn has_capability(bits: &[u8], code: u16) -> (r: bool)
    ensures
        r == capability(bits@, code),
{
    let i: usize = (code / 8) as usize;
    i < bits.len() && bits[i] & (1u8 << ((code % 8) as u8)) != 0
}

// ---- laws ---------------------------------------------------------------

/// X, Y, the triggers and the stick clicks never reach the game.
pub proof fn law_host_only(p: Pad, code: u16, value: i32)
    ensures
        code == BTN_WEST || code == BTN_NORTH || code == BTN_TL2 || code == BTN_TR2 || code == BTN_THUMBL
            || code == BTN_THUMBR ==> p.evdev(EV_KEY, code, value).pressed == p.pressed,
        code == ABS_Z || code == ABS_RZ ==> p.evdev(EV_ABS, code, value).pressed == p.pressed,
{
}

/// After a direction event each direction is held exactly where hat or stick
/// says so, whichever of them moved last.
pub proof fn law_directions(p: Pad, code: u16, value: i32)
    requires
        code == ABS_HAT0X || code == ABS_HAT0Y || code == ABS_X || code == ABS_Y,
    ensures
        ({
            let q = p.evdev(EV_ABS, code, value);
            &&& q.pressed & KEY_LEFT != 0 <==> q.hat_x < 0 || q.stick_x <= -STICK_DEADZONE
            &&& q.pressed & KEY_RIGHT != 0 <==> q.hat_x > 0 || q.stick_x >= STICK_DEADZONE
            &&& q.pressed & KEY_UP != 0 <==> q.hat_y < 0 || q.stick_y <= -STICK_DEADZONE
            &&& q.pressed & KEY_DOWN != 0 <==> q.hat_y > 0 || q.stick_y >= STICK_DEADZONE
            &&& q.pressed & 0x30F == p.pressed & 0x30F
        }),
{
    reveal(dirs);
    let m = p.pressed;
    let q = p.evdev(EV_ABS, code, value);
    let l = q.hat_x < 0 || q.stick_x <= -STICK_DEADZONE;
    let r = q.hat_x > 0 || q.stick_x >= STICK_DEADZONE;
    let u = q.hat_y < 0 || q.stick_y <= -STICK_DEADZONE;
    let d = q.hat_y > 0 || q.stick_y >= STICK_DEADZONE;
    let m0 = m & !(0x20u16 | 0x10u16 | 0x40u16 | 0x80u16);
    let m1 = if l { m0 | 0x20u16 } else { m0 };
    let m2 = if r { m1 | 0x10u16 } else { m1 };
    let m3 = if u { m2 | 0x40u16 } else { m2 };
    let m4 = if d { m3 | 0x80u16 } else { m3 };
    assert(q.pressed == m4);
    assert((m4 & 0x20 != 0 <==> l) && (m4 & 0x10 != 0 <==> r) && (m4 & 0x40 != 0 <==> u) && (m4 & 0x80
        != 0 <==> d) && m4 & 0x30F == m & 0x30F) by (bit_vector)
        requires
            m0 == m & !(0x20u16 | 0x10u16 | 0x40u16 | 0x80u16),
            m1 == if l { m0 | 0x20u16 } else { m0 },
            m2 == if r { m1 | 0x10u16 } else { m1 },
            m3 == if u { m2 | 0x40u16 } else { m2 },
            m4 == if d { m3 | 0x80u16 } else { m3 },
    ;
}

/// On a Nintendo pad A is east and B is south; on an Xbox pad the other way.
pub proof fn law_faces(p: Profile, south: bool, east: bool, m: u16)
    ensures
        ({
            let r = p.faces(south, east, m);
            let (a, b) = if p == Profile::Nintendo { (east, south) } else { (south, east) };
            (r & KEY_A != 0 <==> a) && (r & KEY_B != 0 <==> b) && r & 0x3FC == m & 0x3FC
        }),
{
    reveal(Profile::faces);
    let (a, b) = if p == Profile::Nintendo { (east, south) } else { (south, east) };
    let m0 = m & !(1u16 | 2u16);
    let m1 = if a { m0 | 1u16 } else { m0 };
    let m2 = if b { m1 | 2u16 } else { m1 };
    assert(p.faces(south, east, m) == m2);
    assert((m2 & 1 != 0 <==> a) && (m2 & 2 != 0 <==> b) && m2 & 0x3FC == m & 0x3FC) by (bit_vector)
        requires
            m0 == m & !(1u16 | 2u16),
            m1 == if a { m0 | 1u16 } else { m0 },
            m2 == if b { m1 | 2u16 } else { m1 },
    ;
}

} // verus!
