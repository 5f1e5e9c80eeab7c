//! A play session: what the keys, the pad and the clock make the host do.
//!
//! Times are nanoseconds of one steady clock.

use crate::bits::lemma_and32;
use crate::pad::{
    KEY_A, KEY_B, KEY_DOWN, KEY_L, KEY_LEFT, KEY_R, KEY_RIGHT, KEY_SELECT, KEY_START, KEY_UP,
};
use crate::ppu::{HEIGHT, WIDTH};
use vstd::prelude::*;

verus! {

/// A stick click held this long saves or loads.
pub const HOLD_FOR: u64 = 600_000_000;

/// Time between autosaves.
pub const AUTO_EVERY: u64 = 120_000_000_000;

/// How long a cue flashes.
pub const CUE_FLASH: u64 = 900_000_000;

/// Time of one frame: 280896 cycles at 16777216 a second.
pub const FRAME_BUDGET: u64 = 16_742_706;

#[derive(Clone, Copy, Debug, PartialEq, Eq, Structural)]
pub enum CueKind {
    Save,
    Load,
    Auto,
}

/// What a held button has come to.
#[derive(Clone, Copy, Debug, PartialEq, Eq, Structural)]
pub enum Hold {
    Idle,
    /// Held for so long.
    Charging(u64),
    Fire,
}

#[derive(Clone, Copy, Debug, PartialEq, Eq, Structural)]
pub enum Show {
    /// A hold under way, for so long.
    Holding(u64),
    /// A flash since then.
    Flash(u64),
}

#[derive(Clone, Copy, Debug, PartialEq, Eq, Structural)]
pub struct Cue {
    pub kind: CueKind,
    pub show: Show,
}

/// A button that is down fires once, when it was held long enough.
pub open spec fn held(down: bool, since: Option<u64>, fired: bool, now: u64) -> (
    Option<u64>,
    bool,
    Hold,
) {
    if !down {
        (None, false, Hold::Idle)
    } else {
        let start = match since {
            Some(t) => t,
            None => now,
        };
        let t = now.saturating_sub(start);
        if t < HOLD_FOR {
            (Some(start), fired, Hold::Charging(t))
        } else if fired {
            (Some(start), true, Hold::Idle)
        } else {
            (Some(start), true, Hold::Fire)
        }
    }
}

pub fn hold_progress(down: bool, since: &mut Option<u64>, fired: &mut bool, now: u64) -> (r: Hold)
    ensures
        (*final(since), *final(fired), r) == held(down, *old(since), *old(fired), now),
{
    if !down {
        *since = None;
        *fired = false;
        return Hold::Idle;
    }
    let start: u64 = match *since {
        Some(t) => t,
        None => now,
    };
    *since = Some(start);
    let t: u64 = now.saturating_sub(start);
    if t < HOLD_FOR {
        return Hold::Charging(t);
    }
    if *fired {
        return Hold::Idle;
    }
    *fired = true;
    Hold::Fire
}

/// A button that stays down fires exactly once: when it has fired it is idle
/// until it is let go.
pub proof fn law_hold_fires_once(since: Option<u64>, fired: bool, now: u64, later: u64)
    requires
        held(true, since, fired, now).2 == Hold::Fire,
        now <= later,
    ensures
        ({
            let (s, f, h) = held(true, since, fired, now);
            held(true, s, f, later).2 == Hold::Idle && held(false, s, f, later) == (
                None::<u64>,
                false,
                Hold::Idle,
            )
        }),
{
}

/// The turbo factors in turn.
pub open spec fn turbo_after(cur: u32) -> u32 {
    if cur == 2 {
        3
    } else if cur == 3 {
        4
    } else {
        2
    }
}

pub fn next_turbo_mult(cur: u32) -> (r: u32)
    ensures
        r == turbo_after(cur),
{
    match cur {
        2 => 3,
        3 => 4,
        _ => 2,
    }
}

/// Frames to run beyond the one that is due. None, however thin the ring: the
/// resampler stretches instead.
pub fn audio_catchup_extra(fifo_locked: bool, ring_frames: usize, stream_rate: u32) -> (r: u32)
    ensures
        r == 0,
{
    let _ = (fifo_locked, ring_frames, stream_rate);
    0
}

/// What happened since the last turn.
#[derive(Clone, Copy, Debug)]
pub struct Inputs {
    pub now: u64,
    /// Keys that went down.
    pub pause: bool,
    pub turbo: bool,
    pub cycle: bool,
    pub save: bool,
    pub load: bool,
    pub load_auto: bool,
    /// Pad buttons that are down.
    pub west: bool,
    pub north: bool,
    pub l3: bool,
    pub r3: bool,
    /// The fable has a place for its states.
    pub has_slot: bool,
}

/// What to do now, in this order; then to run `frames` frames.
#[derive(Clone, Copy, Debug, PartialEq, Eq, Structural)]
pub struct Orders {
    pub save_held: bool,
    pub load_held: bool,
    pub save_key: bool,
    pub load_key: bool,
    pub load_auto: bool,
    pub autosave: bool,
    /// Sound goes to the host from now on, or no longer.
    pub emit: Option<bool>,
    pub frames: u32,
}

#[derive(Clone, Copy, Debug)]
pub struct Session {
    pub paused: bool,
    pub turbo_on: bool,
    pub turbo_mult: u32,
    pub prev_west: bool,
    pub prev_north: bool,
    pub l3_since: Option<u64>,
    pub r3_since: Option<u64>,
    pub l3_fired: bool,
    pub r3_fired: bool,
    pub cue: Option<Cue>,
    pub last_auto: u64,
    pub next_frame: u64,
}

/// The cue of a hold, or the one before it.
pub open spec fn hold_cue(h: Hold, kind: CueKind, now: u64, before: Option<Cue>) -> Option<Cue> {
    match h {
        Hold::Charging(t) => Some(Cue { kind, show: Show::Holding(t) }),
        Hold::Fire => Some(Cue { kind, show: Show::Flash(now) }),
        Hold::Idle => before,
    }
}

fn cue_of_hold(h: Hold, kind: CueKind, now: u64, before: Option<Cue>) -> (r: Option<Cue>)
    ensures
        r == hold_cue(h, kind, now, before),
{
    match h {
        Hold::Charging(t) => Some(Cue { kind, show: Show::Holding(t) }),
        Hold::Fire => Some(Cue { kind, show: Show::Flash(now) }),
        Hold::Idle => before,
    }
}

/// A flash where something was done, or the cue before it.
pub open spec fn flash_cue(on: bool, kind: CueKind, now: u64, before: Option<Cue>) -> Option<Cue> {
    if on {
        Some(Cue { kind, show: Show::Flash(now) })
    } else {
        before
    }
}

fn cue_of_flash(on: bool, kind: CueKind, now: u64, before: Option<Cue>) -> (r: Option<Cue>)
    ensures
        r == flash_cue(on, kind, now, before),
{
    if on {
        Some(Cue { kind, show: Show::Flash(now) })
    } else {
        before
    }
}

impl Session {
    pub open spec fn started(now: u64) -> Session {
        Session {
            paused: false,
            turbo_on: false,
            turbo_mult: 2,
            prev_west: false,
            prev_north: false,
            l3_since: None,
            r3_since: None,
            l3_fired: false,
            r3_fired: false,
            cue: None,
            last_auto: now,
            next_frame: now,
        }
    }

    pub fn new(now: u64) -> (r: Session)
        ensures
            r == Session::started(now),
    {
        Session {
            paused: false,
            turbo_on: false,
            turbo_mult: 2,
            prev_west: false,
            prev_north: false,
            l3_since: None,
            r3_since: None,
            l3_fired: false,
            r3_fired: false,
            cue: None,
            last_auto: now,
            next_frame: now,
        }
    }

    /// An autosave is due; a pause puts it off.
    pub open spec fn auto_due(self, now: u64) -> bool {
        now.saturating_sub(self.last_auto) >= AUTO_EVERY && !self.paused
    }

    /// One turn. Pause first; then the holds, the keys, the autosave and the
    /// turbo, each of which may replace the cue.
    pub open spec fn turned(self, i: Inputs) -> (Session, Orders) {
        let paused = self.paused != i.pause;
        let toggle = i.turbo || (i.west && !self.prev_west);
        let cycle = i.cycle || (i.north && !self.prev_north);
        let (l3_since, l3_fired, l) = held(i.l3, self.l3_since, self.l3_fired, i.now);
        let (r3_since, r3_fired, r) = held(i.r3, self.r3_since, self.r3_fired, i.now);
        let auto = i.has_slot && (Session { paused, ..self }).auto_due(i.now);
        let c = hold_cue(l, CueKind::Save, i.now, self.cue);
        let c = hold_cue(r, CueKind::Load, i.now, c);
        let c = flash_cue(i.save, CueKind::Save, i.now, c);
        let c = flash_cue(i.load, CueKind::Load, i.now, c);
        let c = flash_cue(i.load_auto, CueKind::Auto, i.now, c);
        let c = flash_cue(auto, CueKind::Auto, i.now, c);
        let turbo_on = self.turbo_on != toggle;
        let turbo_mult = if cycle {
            turbo_after(self.turbo_mult)
        } else {
            self.turbo_mult
        };
        (
            Session {
                paused,
                turbo_on,
                turbo_mult,
                prev_west: i.west,
                prev_north: i.north,
                l3_since,
                r3_since,
                l3_fired,
                r3_fired,
                cue: c,
                last_auto: if auto {
                    i.now
                } else {
                    self.last_auto
                },
                next_frame: if i.pause || toggle {
                    i.now
                } else {
                    self.next_frame
                },
            },
            Orders {
                save_held: l == Hold::Fire,
                load_held: r == Hold::Fire,
                save_key: i.save,
                load_key: i.load,
                load_auto: i.load_auto,
                autosave: auto,
                emit: if toggle {
                    Some(!turbo_on)
                } else {
                    None
                },
                frames: if paused {
                    0
                } else if turbo_on {
                    turbo_mult
                } else {
                    1
                },
            },
        )
    }

    pub fn turn(&mut self, i: Inputs) -> (r: Orders)
        ensures
            (*final(self), r) == old(self).turned(i),
    {
        let s: Session = *self;
        let paused: bool = s.paused != i.pause;
        let toggle: bool = i.turbo || (i.west && !s.prev_west);
        let cycle: bool = i.cycle || (i.north && !s.prev_north);
        let mut l3_since: Option<u64> = s.l3_since;
        let mut l3_fired: bool = s.l3_fired;
        let l: Hold = hold_progress(i.l3, &mut l3_since, &mut l3_fired, i.now);
        let mut r3_since: Option<u64> = s.r3_since;
        let mut r3_fired: bool = s.r3_fired;
        let r: Hold = hold_progress(i.r3, &mut r3_since, &mut r3_fired, i.now);
        let auto: bool = i.has_slot && i.now.saturating_sub(s.last_auto) >= AUTO_EVERY && !paused;
        let c: Option<Cue> = cue_of_hold(l, CueKind::Save, i.now, s.cue);
        let c: Option<Cue> = cue_of_hold(r, CueKind::Load, i.now, c);
        let c: Option<Cue> = cue_of_flash(i.save, CueKind::Save, i.now, c);
        let c: Option<Cue> = cue_of_flash(i.load, CueKind::Load, i.now, c);
        let c: Option<Cue> = cue_of_flash(i.load_auto, CueKind::Auto, i.now, c);
        let c: Option<Cue> = cue_of_flash(auto, CueKind::Auto, i.now, c);
        let turbo_on: bool = s.turbo_on != toggle;
        let turbo_mult: u32 = if cycle {
            next_turbo_mult(s.turbo_mult)
        } else {
            s.turbo_mult
        };
        *self = Session {
            paused,
            turbo_on,
            turbo_mult,
            prev_west: i.west,
            prev_north: i.north,
            l3_since,
            r3_since,
            l3_fired,
            r3_fired,
            cue: c,
            last_auto: if auto {
                i.now
            } else {
                s.last_auto
            },
            next_frame: if i.pause || toggle {
                i.now
            } else {
                s.next_frame
            },
        };
        Orders {
            save_held: l == Hold::Fire,
            load_held: r == Hold::Fire,
            save_key: i.save,
            load_key: i.load,
            load_auto: i.load_auto,
            autosave: auto,
            emit: if toggle {
                Some(!turbo_on)
            } else {
                None
            },
            frames: if paused {
                0
            } else if turbo_on {
                turbo_mult
            } else {
                1
            },
        }
    }

    /// The next frame's time, and how long to sleep until it. Turbo never
    /// waits. A hitch of more than two frames is forgotten.
    pub open spec fn paced(self, now: u64) -> (u64, u64) {
        if self.turbo_on {
            (now, 0)
        } else {
            let next = self.next_frame.saturating_add(FRAME_BUDGET);
            if next > now {
                (next, (next - now) as u64)
            } else if now - next > 2 * FRAME_BUDGET {
                (now, 0)
            } else {
                (next, 0)
            }
        }
    }

    pub fn pace(&mut self, now: u64) -> (r: u64)
        ensures
            *final(self) == (Session { next_frame: old(self).paced(now).0, ..*old(self) }),
            r == old(self).paced(now).1,
    {
        if self.turbo_on {
            self.next_frame = now;
            return 0;
        }
        self.next_frame = self.next_frame.saturating_add(FRAME_BUDGET);
        if self.next_frame > now {
            return self.next_frame - now;
        }
        if now - self.next_frame > 2 * FRAME_BUDGET {
            self.next_frame = now;
        }
        0
    }

    /// Forgets a cue that has ended.
    pub fn drop_cue(&mut self, now: u64)
        ensures
            *final(self) == (Session {
                cue: match old(self).cue {
                    Some(c) => if cue_live(c, now) {
                        Some(c)
                    } else {
                        None
                    },
                    None => None,
                },
                ..*old(self)
            }),
    {
        if let Some(c) = self.cue {
            let live: bool = match c.show {
                Show::Holding(_) => true,
                Show::Flash(t) => now.saturating_sub(t) < CUE_FLASH,
            };
            if !live {
                self.cue = None;
            }
        }
    }
}

/// A hold is shown until something replaces it; a flash for its time.
pub open spec fn cue_live(c: Cue, now: u64) -> bool {
    match c.show {
        Show::Holding(_) => true,
        Show::Flash(t) => now.saturating_sub(t) < CUE_FLASH,
    }
}

/// After a hitch of any length the session waits again within two frames: the
/// debt that is carried on is never more than two frames.
pub proof fn law_debt_is_bounded(s: Session, now: u64)
    ensures
        s.paced(now).0 + 2 * FRAME_BUDGET >= now,
        s.paced(now).1 > 0 ==> s.paced(now).0 == now + s.paced(now).1,
{
}

// ---- picture ------------------------------------------------------------

/// Hot pink for saving, violet for loading, warm rose for autosaves.
pub fn cue_rgb(kind: CueKind) -> (r: (u8, u8, u8))
    ensures
        r == match kind {
            CueKind::Save => (255u8, 77u8, 154u8),
            CueKind::Load => (210u8, 90u8, 255u8),
            CueKind::Auto => (255u8, 140u8, 150u8),
        },
{
    match kind {
        CueKind::Save => (255, 77, 154),
        CueKind::Load => (210, 90, 255),
        CueKind::Auto => (255, 140, 150),
    }
}

/// A BGR555 pixel as 0RGB of eight bits each.
pub open spec fn rgb_of(p: u16) -> u32 {
    let r = ((p & 0x1F) as u32) << 3;
    let g = (((p >> 5) & 0x1F) as u32) << 3;
    let b = (((p >> 10) & 0x1F) as u32) << 3;
    (r << 16) | (g << 8) | b
}

/// The frame as the window shows it.
pub fn to_rgb(frame: &Vec<u16>) -> (r: Vec<u32>)
    ensures
        r@ == Seq::new(frame@.len(), |i: int| rgb_of(frame@[i])),
{
    let mut out: Vec<u32> = Vec::new();
    let mut i: usize = 0;
    while i < frame.len()
        invariant
            i <= frame@.len(),
            out@ == Seq::new(i as nat, |k: int| rgb_of(frame@[k])),
        decreases frame@.len() - i,
    {
        let p: u16 = frame[i];
        let r: u32 = ((p & 0x1F) as u32) << 3;
        let g: u32 = (((p >> 5) & 0x1F) as u32) << 3;
        let b: u32 = (((p >> 10) & 0x1F) as u32) << 3;
        out.push((r << 16) | (g << 8) | b);
        i += 1;
        assert(out@ =~= Seq::new(i as nat, |k: int| rgb_of(frame@[k])));
    }
    out
}

/// One channel: `a` parts of 255 of `c` over `d`.
pub open spec fn blended(c: u8, d: u32, a: u8) -> u32 {
    ((c as u32 * a as u32 + (d & 0xFF) * (255 - a as u32)) / 255) as u32
}

/// A pixel with a colour laid over it.
pub open spec fn over(dst: u32, r: u8, g: u8, b: u8, a: u8) -> u32 {
    (blended(r, dst >> 16, a) << 16) | (blended(g, dst >> 8, a) << 8) | blended(b, dst, a)
}

fn blend(c: u8, d: u32, a: u8) -> (r: u32)
    ensures
        r == blended(c, d, a),
{
    let m: u32 = d & 0xFF;
    proof {
        lemma_channel(d);
        assert(c as u32 * a as u32 <= 255 * 255) by (nonlinear_arith)
            requires
                c <= 255,
                a <= 255,
        ;
        assert(m * (255 - a as u32) <= 255 * 255) by (nonlinear_arith)
            requires
                m <= 255,
                a <= 255,
        ;
        assert(m * (255 - a as u32) >= 0) by (nonlinear_arith)
            requires
                a <= 255,
        ;
    }
    (c as u32 * a as u32 + m * (255 - a as u32)) / 255
}

proof fn lemma_channel(d: u32)
    ensures
        d & 0xFF <= 255,
{
    lemma_and32(d, 0xFF);
}

/// Lays a colour over one pixel; outside the screen nothing happens.
pub fn blend_px(fb: &mut Vec<u32>, x: i32, y: i32, r: u8, g: u8, b: u8, a: u8)
    requires
        old(fb)@.len() == WIDTH * HEIGHT,
    ensures
        final(fb)@ == if 0 <= x < WIDTH && 0 <= y < HEIGHT {
            let i = y * WIDTH + x;
            old(fb)@.update(i, over(old(fb)@[i], r, g, b, a))
        } else {
            old(fb)@
        },
{
    if x < 0 || y < 0 || x >= WIDTH as i32 || y >= HEIGHT as i32 {
        return;
    }
    let i: usize = y as usize * WIDTH + x as usize;
    let dst: u32 = fb[i];
    let nr: u32 = blend(r, dst >> 16, a);
    let ng: u32 = blend(g, dst >> 8, a);
    let nb: u32 = blend(b, dst, a);
    fb[i] = (nr << 16) | (ng << 8) | nb;
}

// ---- keyboard -----------------------------------------------------------

/// The keyboard keys that are down.
#[derive(Clone, Copy, Debug)]
pub struct Keyboard {
    pub z: bool,
    pub j: bool,
    pub space: bool,
    pub x: bool,
    pub k: bool,
    pub right_shift: bool,
    pub backspace: bool,
    pub enter: bool,
    pub right: bool,
    pub d: bool,
    pub left: bool,
    pub a: bool,
    pub up: bool,
    pub w: bool,
    pub down: bool,
    pub s: bool,
    pub q: bool,
    pub e: bool,
}

pub open spec fn key_if(on: bool, key: u16) -> u16 {
    if on {
        key
    } else {
        0
    }
}

fn key_when(on: bool, key: u16) -> (r: u16)
    ensures
        r == key_if(on, key),
{
    if on {
        key
    } else {
        0
    }
}

/// The game keys that a keyboard holds.
pub open spec fn keyboard_keys(k: Keyboard) -> u16 {
    key_if(k.z || k.j || k.space, KEY_A) | key_if(k.x || k.k, KEY_B) | key_if(
        k.right_shift || k.backspace,
        KEY_SELECT,
    ) | key_if(k.enter, KEY_START) | key_if(k.right || k.d, KEY_RIGHT) | key_if(k.left || k.a, KEY_LEFT)
        | key_if(k.up || k.w, KEY_UP) | key_if(k.down || k.s, KEY_DOWN) | key_if(k.q, KEY_L) | key_if(
        k.e,
        KEY_R,
    )
}

pub fn poll_keys(k: &Keyboard) -> (r: u16)
    ensures
        r == keyboard_keys(*k),
{
    key_when(k.z || k.j || k.space, KEY_A) | key_when(k.x || k.k, KEY_B) | key_when(
        k.right_shift || k.backspace,
        KEY_SELECT,
    ) | key_when(k.enter, KEY_START) | key_when(k.right || k.d, KEY_RIGHT) | key_when(
        k.left || k.a,
        KEY_LEFT,
    ) | key_when(k.up || k.w, KEY_UP) | key_when(k.down || k.s, KEY_DOWN) | key_when(k.q, KEY_L) | key_when(
        k.e,
        KEY_R,
    )
}

} // verus!
