//! Pixels, layers and their order; blending.

use crate::bits::{le16, lemma_and16, make16};
use crate::bus::model::BusModel;
use crate::bus::Bus;
use crate::mem::byte_or;
use vstd::prelude::*;

verus! {

// Layer ranks for same-priority ties (lower draws in front):
// OBJ=0, BG0=1, BG1=2, BG2=3, BG3=4, backdrop=5
pub const LAYER_OBJ: u8 = 0;

pub const LAYER_BD: u8 = 5;

/// One layer's pixel.
#[derive(Clone, Copy, Debug)]
pub struct Slot {
    pub color: u16,
    /// Display priority 0-3 (0 is the front). The backdrop has 4.
    pub prio: u8,
    pub layer: u8,
    /// Semi-transparent object: forces alpha blend.
    pub semi: bool,
}

/// The two frontmost layers of a pixel.
#[derive(Clone, Copy, Debug)]
pub struct Pair {
    pub top: Slot,
    pub bot: Slot,
}

/// `a` is drawn in front of `b`.
pub open spec fn fronts(a: Slot, b: Slot) -> bool {
    if a.prio != b.prio {
        a.prio < b.prio
    } else {
        a.layer < b.layer
    }
}

pub open spec fn backdrop_slot(color: u16) -> Slot {
    Slot { color, prio: 4, layer: LAYER_BD, semi: false }
}

impl Pair {
    /// A layer put in its place.
    pub open spec fn with(self, s: Slot) -> Pair {
        if fronts(s, self.top) {
            Pair { top: s, bot: self.top }
        } else if fronts(s, self.bot) {
            Pair { bot: s, ..self }
        } else {
            self
        }
    }
}

fn in_front(a: Slot, b: Slot) -> (r: bool)
    ensures
        r == fronts(a, b),
{
    if a.prio != b.prio {
        a.prio < b.prio
    } else {
        a.layer < b.layer
    }
}

pub fn put_layer(rows: &mut Vec<Pair>, x: usize, s: Slot)
    requires
        x < old(rows)@.len(),
    ensures
        final(rows)@ == old(rows)@.update(x as int, old(rows)@[x as int].with(s)),
{
    let mut p = rows[x];
    if in_front(s, p.top) {
        p.bot = p.top;
        p.top = s;
    } else if in_front(s, p.bot) {
        p.bot = s;
    }
    rows[x] = p;
}

/// A register of the IO page as it stands.
#[verifier::opaque]
pub open spec fn io16(b: BusModel, off: int) -> u16 {
    le16(byte_or(b.io, off, 0), byte_or(b.io, off + 1, 0))
}

pub fn io_half(bus: &Bus, off: usize) -> (r: u16)
    requires
        off < usize::MAX,
    ensures
        r == io16(bus@, off as int),
{
    reveal(io16);
    make16(bus.io_at(off), bus.io_at(off + 1))
}

/// Colour `index` of the palette.
pub open spec fn palette(b: BusModel, index: int) -> u16 {
    le16(b.pal[2 * index], b.pal[2 * index + 1])
}

pub fn pal_color(bus: &Bus, index: usize) -> (r: u16)
    requires
        bus@.wf(),
        index < 512,
    ensures
        r == palette(bus@, index as int),
{
    make16(bus.pal_byte(2 * index), bus.pal_byte(2 * index + 1))
}

pub open spec fn vram8(b: BusModel, off: int) -> u8 {
    byte_or(b.vram, off, 0)
}

pub open spec fn vram16(b: BusModel, off: int) -> u16 {
    le16(vram8(b, off), vram8(b, off + 1))
}

pub fn vram_u8(bus: &Bus, off: usize) -> (r: u8)
    ensures
        r == vram8(bus@, off as int),
{
    bus.vram_byte(off)
}

pub fn vram_u16(bus: &Bus, off: usize) -> (r: u16)
    requires
        off < usize::MAX,
    ensures
        r == vram16(bus@, off as int),
{
    make16(vram_u8(bus, off), vram_u8(bus, off + 1))
}

/// A halfword of object memory.
pub open spec fn oam16(b: BusModel, off: int) -> u16 {
    le16(b.oam[off], b.oam[off + 1])
}

pub fn oam_u16(bus: &Bus, off: usize) -> (r: u16)
    requires
        bus@.wf(),
        off < 0x3FF,
    ensures
        r == oam16(bus@, off as int),
{
    make16(bus.oam_byte(off), bus.oam_byte(off + 1))
}

// ---- blending -----------------------------------------------------------

/// One 5-bit channel of a colour.
pub open spec fn channel(c: u16, shift: u16) -> u32 {
    ((c >> shift) & 0x1F) as u32
}

fn channel_of(c: u16, shift: u16) -> (r: u32)
    requires
        shift < 16,
    ensures
        r == channel(c, shift),
        r <= 31,
{
    let v: u16 = c >> shift;
    proof {
        lemma_and16(v, 0x1F);
    }
    (v & 0x1F) as u32
}

pub open spec fn packed(r: u32, g: u32, b: u32) -> u16 {
    (r as u16) | ((g as u16) << 5) | ((b as u16) << 10)
}

pub open spec fn mixed(a: u32, b: u32, eva: u32, evb: u32) -> u32 {
    if (a * eva + b * evb) / 16 > 31 {
        31
    } else {
        ((a * eva + b * evb) / 16) as u32
    }
}

/// Weighted sum of two colours in sixteenths, each channel capped.
#[verifier::opaque]
pub open spec fn alpha(a: u16, b: u16, eva: u32, evb: u32) -> u16 {
    packed(
        mixed(channel(a, 0), channel(b, 0), eva, evb),
        mixed(channel(a, 5), channel(b, 5), eva, evb),
        mixed(channel(a, 10), channel(b, 10), eva, evb),
    )
}

fn mix(a: u32, b: u32, eva: u32, evb: u32) -> (r: u32)
    requires
        a <= 31,
        b <= 31,
        eva <= 16,
        evb <= 16,
    ensures
        r == mixed(a, b, eva, evb),
{
    assert(0 <= a * eva <= 31 * 16) by (nonlinear_arith)
        requires
            0 <= a <= 31,
            0 <= eva <= 16,
    ;
    assert(0 <= b * evb <= 31 * 16) by (nonlinear_arith)
        requires
            0 <= b <= 31,
            0 <= evb <= 16,
    ;
    let v: u32 = (a * eva + b * evb) / 16;
    if v > 31 {
        31
    } else {
        v
    }
}

pub fn alpha_blend(a: u16, b: u16, eva: u32, evb: u32) -> (r: u16)
    requires
        eva <= 16,
        evb <= 16,
    ensures
        r == alpha(a, b, eva, evb),
{
    reveal(alpha);
    let x: u32 = mix(channel_of(a, 0), channel_of(b, 0), eva, evb);
    let y: u32 = mix(channel_of(a, 5), channel_of(b, 5), eva, evb);
    let z: u32 = mix(channel_of(a, 10), channel_of(b, 10), eva, evb);
    (x as u16) | ((y as u16) << 5) | ((z as u16) << 10)
}

/// A channel faded toward white (effect 2) or black, in sixteenths.
pub open spec fn faded(v: u32, effect: u16, evy: u32) -> u32 {
    if effect == 2 {
        (v + ((31 - v) * evy) / 16) as u32
    } else {
        ((v * (16 - evy)) / 16) as u32
    }
}

fn fade(v: u32, effect: u16, evy: u32) -> (r: u32)
    requires
        v <= 31,
        evy <= 16,
    ensures
        r == faded(v, effect, evy),
{
    assert(0 <= (31 - v) * evy <= 31 * 16) by (nonlinear_arith)
        requires
            0 <= v <= 31,
            0 <= evy <= 16,
    ;
    assert(0 <= v * (16 - evy) <= 31 * 16) by (nonlinear_arith)
        requires
            0 <= v <= 31,
            0 <= evy <= 16,
    ;
    if effect == 2 {
        v + ((31 - v) * evy) / 16
    } else {
        (v * (16 - evy)) / 16
    }
}

/// All channels faded.
#[verifier::opaque]
pub open spec fn brightness(c: u16, effect: u16, evy: u32) -> u16 {
    ((faded(channel(c, 0), effect, evy) as u16) & 0x1F) | (((faded(channel(c, 5), effect, evy)
        as u16) & 0x1F) << 5) | (((faded(channel(c, 10), effect, evy) as u16) & 0x1F) << 10)
}

pub fn brightness_pixel(c: u16, effect: u16, evy: u32) -> (r: u16)
    requires
        evy <= 16,
    ensures
        r == brightness(c, effect, evy),
{
    reveal(brightness);
    let x: u32 = fade(channel_of(c, 0), effect, evy);
    let y: u32 = fade(channel_of(c, 5), effect, evy);
    let z: u32 = fade(channel_of(c, 10), effect, evy);
    ((x as u16) & 0x1F) | (((y as u16) & 0x1F) << 5) | (((z as u16) & 0x1F) << 10)
}

/// BLDCNT bit of a layer: BG0-BG3 are 0-3, OBJ 4, backdrop 5.
pub open spec fn blend_bit(layer: u8) -> u16 {
    if layer == LAYER_OBJ {
        4
    } else if 1 <= layer <= 4 {
        (layer - 1) as u16
    } else {
        5
    }
}

fn layer_to_bld_bit(layer: u8) -> (r: u16)
    ensures
        r == blend_bit(layer),
        r <= 5,
{
    if layer == LAYER_OBJ {
        4
    } else if 1 <= layer && layer <= 4 {
        (layer - 1) as u16
    } else {
        5
    }
}

/// Blend registers of a line.
#[derive(Clone, Copy, Debug)]
pub struct Blend {
    pub bldcnt: u16,
    pub eva: u32,
    pub evb: u32,
    pub evy: u32,
}

pub open spec fn capped16(v: u16) -> u32 {
    if v & 0x1F > 16 {
        16
    } else {
        (v & 0x1F) as u32
    }
}

fn cap16(v: u16) -> (r: u32)
    ensures
        r == capped16(v),
        r <= 16,
{
    if v & 0x1F > 16 {
        16
    } else {
        (v & 0x1F) as u32
    }
}

impl Blend {
    pub open spec fn of(bldcnt: u16, bldalpha: u16, bldy: u16) -> Blend {
        Blend {
            bldcnt,
            eva: capped16(bldalpha),
            evb: capped16(bldalpha >> 8),
            evy: capped16(bldy),
        }
    }

    pub fn from_regs(bldcnt: u16, bldalpha: u16, bldy: u16) -> (r: Blend)
        ensures
            r == Blend::of(bldcnt, bldalpha, bldy),
            r.eva <= 16,
            r.evb <= 16,
            r.evy <= 16,
    {
        Blend { bldcnt, eva: cap16(bldalpha), evb: cap16(bldalpha >> 8), evy: cap16(bldy) }
    }

    pub open spec fn first(self, layer: u8) -> bool {
        self.bldcnt & (1u16 << blend_bit(layer)) != 0
    }

    pub open spec fn second(self, layer: u8) -> bool {
        self.bldcnt & (1u16 << ((8 + blend_bit(layer)) as u16)) != 0
    }

    fn is_first(&self, layer: u8) -> (r: bool)
        ensures
            r == self.first(layer),
    {
        self.bldcnt & (1u16 << layer_to_bld_bit(layer)) != 0
    }

    fn is_second(&self, layer: u8) -> (r: bool)
        ensures
            r == self.second(layer),
    {
        self.bldcnt & (1u16 << (8 + layer_to_bld_bit(layer))) != 0
    }
}

pub open spec fn at_least(v: u32, lo: u32) -> u32 {
    if v < lo {
        lo
    } else {
        v
    }
}

/// The colour of a pixel from its two frontmost layers. A semi-transparent
/// object over a second target always blends; the other effects need the
/// window's permission (bit 5) and the right targets.
#[verifier::opaque]
pub open spec fn resolved(p: Pair, k: Blend, win: u8) -> u16 {
    let effect = (k.bldcnt >> 6) & 3;
    let allowed = win & 0x20 != 0;
    if p.top.semi && k.second(p.bot.layer) {
        if allowed || effect == 0 {
            alpha(p.top.color, p.bot.color, at_least(k.eva, 1), at_least(k.evb, 1))
        } else {
            alpha(p.top.color, p.bot.color, k.eva, k.evb)
        }
    } else if !allowed || effect == 0 {
        p.top.color
    } else if effect == 1 {
        if k.first(p.top.layer) && k.second(p.bot.layer) {
            alpha(p.top.color, p.bot.color, k.eva, k.evb)
        } else {
            p.top.color
        }
    } else if k.first(p.top.layer) && k.evy > 0 {
        brightness(p.top.color, effect, k.evy)
    } else {
        p.top.color
    }
}

pub fn resolve_pixel(p: Pair, k: Blend, win: u8) -> (r: u16)
    requires
        k.eva <= 16,
        k.evb <= 16,
        k.evy <= 16,
    ensures
        r == resolved(p, k, win),
{
    reveal(resolved);
    let effect: u16 = (k.bldcnt >> 6) & 3;
    let allowed: bool = win & 0x20 != 0;
    if p.top.semi && k.is_second(p.bot.layer) {
        if allowed || effect == 0 {
            let eva: u32 = if k.eva < 1 {
                1
            } else {
                k.eva
            };
            let evb: u32 = if k.evb < 1 {
                1
            } else {
                k.evb
            };
            return alpha_blend(p.top.color, p.bot.color, eva, evb);
        }
        return alpha_blend(p.top.color, p.bot.color, k.eva, k.evb);
    }
    if !allowed || effect == 0 {
        return p.top.color;
    }
    if effect == 1 {
        if k.is_first(p.top.layer) && k.is_second(p.bot.layer) {
            alpha_blend(p.top.color, p.bot.color, k.eva, k.evb)
        } else {
            p.top.color
        }
    } else if k.is_first(p.top.layer) && k.evy > 0 {
        brightness_pixel(p.top.color, effect, k.evy)
    } else {
        p.top.color
    }
}

} // verus!
