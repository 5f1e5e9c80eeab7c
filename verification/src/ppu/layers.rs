//! Text, affine and bitmap backgrounds.

use crate::bits::{lemma_and16, lemma_and8};
use crate::bus::model::BusModel;
use crate::bus::Bus;
use crate::ppu::scene::{
    io16, io_half, pal_color, palette, put_layer, vram16, vram8, vram_u16, vram_u8, Pair, Slot,
};
use crate::ppu::WIDTH;
use vstd::prelude::*;

verus! {

pub open spec fn bg_control(b: BusModel, bg: int) -> u16 {
    io16(b, 8 + 2 * bg)
}

fn bg_cnt(bus: &Bus, bg: usize) -> (r: u16)
    requires
        bus@.wf(),
        bg < 4,
    ensures
        r == bg_control(bus@, bg as int),
{
    io_half(bus, 8 + 2 * bg)
}

/// Map size in tiles.
pub open spec fn map_tiles(cnt: u16) -> (int, int) {
    let size = (cnt >> 14) & 3;
    (
        if size & 1 != 0 {
            64
        } else {
            32
        },
        if size >= 2 {
            64
        } else {
            32
        },
    )
}

/// Byte offset of a tile's map entry: 32x32 blocks of 800h bytes, left to
/// right, then top to bottom.
pub open spec fn map_entry(map_w: int, tx: int, ty: int) -> int {
    ((ty / 32) * (map_w / 32) + tx / 32) * 0x800 + ((ty % 32) * 32 + tx % 32) * 2
}

/// A coordinate, quantized where mosaic is on.
pub open spec fn coarse(v: int, mosaic: bool, step: int) -> int {
    if mosaic {
        v / step * step
    } else {
        v
    }
}

/// The colour of one texel of a tile, where it is not transparent.
#[verifier::opaque]
pub open spec fn tile_texel(b: BusModel, cnt: u16, entry: u16, fx: int, fy: int) -> Option<u16> {
    let base = ((cnt >> 2) & 3) as int * 0x4000;
    let tile = (entry & 0x3FF) as int;
    let px = if entry & 0x400 != 0 {
        7 - fx
    } else {
        fx
    };
    let py = if entry & 0x800 != 0 {
        7 - fy
    } else {
        fy
    };
    if cnt & 0x80 != 0 {
        let i = vram8(b, base + tile * 64 + py * 8 + px);
        if i == 0 {
            None
        } else {
            Some(palette(b, i as int))
        }
    } else {
        let byte = vram8(b, base + tile * 32 + py * 4 + px / 2);
        let i = if px % 2 == 0 {
            byte & 0xF
        } else {
            byte >> 4
        };
        if i == 0 {
            None
        } else {
            Some(palette(b, ((entry >> 12) & 0xF) as int * 16 + i as int))
        }
    }
}

fn sample_tile(bus: &Bus, cnt: u16, entry: u16, fx: usize, fy: usize) -> (r: Option<u16>)
    requires
        bus@.wf(),
        fx < 8,
        fy < 8,
    ensures
        r == tile_texel(bus@, cnt, entry, fx as int, fy as int),
{
    reveal(tile_texel);
    let k: u16 = (cnt >> 2) & 3;
    let t: u16 = entry & 0x3FF;
    let bank: u16 = (entry >> 12) & 0xF;
    proof {
        lemma_fields(cnt, entry);
    }
    let base: usize = k as usize * 0x4000;
    let tile: usize = t as usize;
    let px: usize = if entry & 0x400 != 0 {
        7 - fx
    } else {
        fx
    };
    let py: usize = if entry & 0x800 != 0 {
        7 - fy
    } else {
        fy
    };
    if cnt & 0x80 != 0 {
        let i: u8 = vram_u8(bus, base + tile * 64 + py * 8 + px);
        if i == 0 {
            None
        } else {
            Some(pal_color(bus, i as usize))
        }
    } else {
        let byte: u8 = vram_u8(bus, base + tile * 32 + py * 4 + px / 2);
        proof {
            lemma_nibbles(byte);
        }
        let i: u8 = if px % 2 == 0 {
            byte & 0xF
        } else {
            byte >> 4
        };
        if i == 0 {
            None
        } else {
            Some(pal_color(bus, bank as usize * 16 + i as usize))
        }
    }
}

proof fn lemma_fields(cnt: u16, entry: u16)
    ensures
        (cnt >> 2) & 3 <= 3,
        (cnt >> 8) & 0x1F <= 31,
        (cnt >> 14) & 3 <= 3,
        entry & 0x3FF <= 0x3FF,
        (entry >> 12) & 0xF <= 15,
        cnt & 3 <= 3,
        cnt & 0x1FF <= 0x1FF,
        cnt & 0xF <= 15,
        (cnt >> 4) & 0xF <= 15,
{
    lemma_and16(cnt >> 2, 3);
    lemma_and16(cnt >> 8, 0x1F);
    lemma_and16(cnt >> 14, 3);
    lemma_and16(entry, 0x3FF);
    lemma_and16(entry >> 12, 0xF);
    lemma_and16(cnt, 3);
    lemma_and16(cnt, 0x1FF);
    lemma_and16(cnt, 0xF);
    lemma_and16(cnt >> 4, 0xF);
}

pub proof fn lemma_nibbles(byte: u8)
    ensures
        byte & 0xF <= 15,
        byte >> 4 <= 15,
{
    lemma_and8(byte, 0xF);
}

/// The colour of a text background at a screen position.
#[verifier::opaque]
pub open spec fn text_pixel(b: BusModel, bg: int, x: int, y: int) -> Option<u16> {
    let cnt = bg_control(b, bg);
    let mos = io16(b, 0x4C);
    let on = cnt & 0x40 != 0;
    let sx = coarse(x + (io16(b, 0x10 + 4 * bg) & 0x1FF), on, (mos & 0xF) + 1);
    let sy = coarse(y + (io16(b, 0x12 + 4 * bg) & 0x1FF), on, ((mos >> 4) & 0xF) + 1);
    let (at, fx, fy) = text_place(cnt, sx, sy);
    if at + 1 >= 0x18000 {
        None
    } else {
        tile_texel(b, cnt, vram16(b, at), fx, fy)
    }
}

/// Where the map entry of a background position lies, and the place in its tile.
pub open spec fn text_place(cnt: u16, sx: int, sy: int) -> (int, int, int) {
    let (map_w, map_h) = map_tiles(cnt);
    let fx = sx % (map_w * 8);
    let fy = sy % (map_h * 8);
    (((cnt >> 8) & 0x1F) as int * 0x800 + map_entry(map_w, fx / 8, fy / 8), fx % 8, fy % 8)
}

fn place_text(cnt: u16, sx: usize, sy: usize) -> (r: (usize, usize, usize))
    ensures
        (r.0 as int, r.1 as int, r.2 as int) == text_place(cnt, sx as int, sy as int),
        r.0 < 0x1_8000,
        r.1 < 8,
        r.2 < 8,
{
    let size: u16 = (cnt >> 14) & 3;
    let map_w: usize = if size & 1 != 0 {
        64
    } else {
        32
    };
    let map_h: usize = if size >= 2 {
        64
    } else {
        32
    };
    let fx: usize = sx % (map_w * 8);
    let fy: usize = sy % (map_h * 8);
    let tx: usize = fx / 8;
    let ty: usize = fy / 8;
    let block: usize = if map_w == 64 {
        (ty / 32) * 2 + tx / 32
    } else {
        ty / 32 + tx / 32
    };
    proof {
        lemma_fields(cnt, 0);
    }
    let base: u16 = (cnt >> 8) & 0x1F;
    (base as usize * 0x800 + (block * 0x800 + ((ty % 32) * 32 + tx % 32) * 2), fx % 8, fy % 8)
}

fn sample_text(bus: &Bus, bg: usize, x: usize, y: usize) -> (r: Option<u16>)
    requires
        bus@.wf(),
        bg < 4,
        x < 240,
        y < 160,
    ensures
        r == text_pixel(bus@, bg as int, x as int, y as int),
{
    reveal(text_pixel);
    let cnt: u16 = bg_cnt(bus, bg);
    let mos: u16 = io_half(bus, 0x4C);
    let on: bool = cnt & 0x40 != 0;
    let hofs: u16 = io_half(bus, 0x10 + 4 * bg) & 0x1FF;
    let vofs: u16 = io_half(bus, 0x12 + 4 * bg) & 0x1FF;
    proof {
        lemma_fields(io16(bus@, 0x10 + 4 * bg), 0);
        lemma_fields(io16(bus@, 0x12 + 4 * bg), 0);
        lemma_fields(mos, 0);
        lemma_fields(cnt, 0);
    }
    let mx: usize = (mos & 0xF) as usize + 1;
    let my: usize = ((mos >> 4) & 0xF) as usize + 1;
    let mut sx: usize = x + hofs as usize;
    let mut sy: usize = y + vofs as usize;
    if on {
        proof {
            lemma_coarse(sx as int, mx as int);
            lemma_coarse(sy as int, my as int);
        }
        sx = sx / mx * mx;
        sy = sy / my * my;
    }
    let (at, fx, fy) = place_text(cnt, sx, sy);
    if at + 1 >= 0x18000 {
        return None;
    }
    let entry: u16 = vram_u16(bus, at);
    sample_tile(bus, cnt, entry, fx, fy)
}

pub proof fn lemma_coarse(v: int, step: int)
    requires
        v >= 0,
        step >= 1,
    ensures
        0 <= v / step * step <= v,
{
    assert(v / step * step <= v && v / step * step >= 0) by (nonlinear_arith)
        requires
            v >= 0,
            step >= 1,
    ;
}

/// One background pixel put in its place, where the window lets it through.
pub open spec fn layered(p: Pair, color: Option<u16>, bg: int, cnt: u16, win: u8) -> Pair {
    if win & (1u8 << (bg as u8)) == 0 || color is None {
        p
    } else {
        p.with(
            Slot { color: color->0, prio: (cnt & 3) as u8, layer: (bg + 1) as u8, semi: false },
        )
    }
}

/// A row with a text background added.
pub open spec fn text_added(b: BusModel, bg: int, y: int, win: Seq<u8>, rows: Seq<Pair>) -> Seq<Pair> {
    Seq::new(
        rows.len(),
        |x: int| layered(rows[x], text_pixel(b, bg, x, y), bg, bg_control(b, bg), win[x]),
    )
}

pub fn composite_text_bg(bus: &Bus, bg: usize, y: usize, win: &Vec<u8>, rows: &mut Vec<Pair>)
    requires
        bus@.wf(),
        bg < 4,
        y < 160,
        win@.len() == WIDTH,
        old(rows)@.len() == WIDTH,
    ensures
        final(rows)@ == text_added(bus@, bg as int, y as int, win@, old(rows)@),
{
    let cnt: u16 = bg_cnt(bus, bg);
    let bit: u8 = 1u8 << (bg as u8);
    let mut x: usize = 0;
    while x < WIDTH
        invariant
            x <= WIDTH,
            bus@.wf(),
            bg < 4,
            y < 160,
            bit == 1u8 << (bg as u8),
            cnt == bg_control(bus@, bg as int),
            win@.len() == WIDTH,
            rows@.len() == WIDTH,
            old(rows)@.len() == WIDTH,
            forall|j: int|
                0 <= j < WIDTH ==> #[trigger] rows@[j] == (if j < x {
                    text_added(bus@, bg as int, y as int, win@, old(rows)@)[j]
                } else {
                    old(rows)@[j]
                }),
        decreases WIDTH - x,
    {
        if win[x] & bit != 0 {
            if let Some(color) = sample_text(bus, bg, x, y) {
                put_layer(
                    rows,
                    x,
                    Slot { color, prio: (cnt & 3) as u8, layer: (bg + 1) as u8, semi: false },
                );
            }
        }
        x += 1;
    }
    assert(rows@ =~= text_added(bus@, bg as int, y as int, win@, old(rows)@));
}

// ---- affine -------------------------------------------------------------

/// A reference coordinate after `n` columns.
pub open spec fn walked(r: i32, d: i32, n: nat) -> i32
    decreases n,
{
    if n == 0 {
        r
    } else {
        walked(r, d, (n - 1) as nat).wrapping_add(d)
    }
}

pub open spec fn near_zero(v: u16) -> bool {
    -0x10 < (v as i16) < 0x10
}

/// Horizontal steps of an affine background. A matrix that was never set
/// counts as identity, and a wild PC as zero.
pub open spec fn affine_steps(b: BusModel, bg: int) -> (i32, i32) {
    let base = if bg == 2 {
        0x20
    } else {
        0x30
    };
    let pa = io16(b, base);
    let pb = io16(b, base + 2);
    let pc = io16(b, base + 4);
    if near_zero(pa) && near_zero(pb) {
        (0x100, 0)
    } else if !(-0x400 <= (pc as i16) <= 0x400) {
        (pa as i16 as i32, 0)
    } else {
        (pa as i16 as i32, pc as i16 as i32)
    }
}

fn steps_of(bus: &Bus, bg: usize) -> (r: (i32, i32))
    requires
        bus@.wf(),
        bg == 2 || bg == 3,
    ensures
        r == affine_steps(bus@, bg as int),
{
    let base: usize = if bg == 2 {
        0x20
    } else {
        0x30
    };
    let pa: i16 = io_half(bus, base) as i16;
    let pb: i16 = io_half(bus, base + 2) as i16;
    let pc: i16 = io_half(bus, base + 4) as i16;
    if -0x10 < pa && pa < 0x10 && -0x10 < pb && pb < 0x10 {
        (0x100, 0)
    } else if !(-0x400 <= pc && pc <= 0x400) {
        (pa as i32, 0)
    } else {
        (pa as i32, pc as i32)
    }
}

/// The colour of an affine background at a texture position in 24.8.
#[verifier::opaque]
pub open spec fn affine_pixel(b: BusModel, bg: int, rx: i32, ry: i32) -> Option<u16> {
    let cnt = bg_control(b, bg);
    let dim = affine_dim(cnt);
    let side = dim * 8;
    let u = (rx >> 8) as int;
    let v = (ry >> 8) as int;
    if cnt & 0x2000 == 0 && !(0 <= u < side && 0 <= v < side) {
        None
    } else {
        let sx = u % side;
        let sy = v % side;
        let tile = vram8(b, ((cnt >> 8) & 0x1F) as int * 0x800 + (sy / 8) * dim + sx / 8);
        let i = vram8(b, ((cnt >> 2) & 3) as int * 0x4000 + tile as int * 64 + (sy % 8) * 8 + sx % 8);
        if i == 0 {
            None
        } else {
            Some(palette(b, i as int))
        }
    }
}

pub open spec fn affine_dim(cnt: u16) -> int {
    let size = (cnt >> 14) & 3;
    if size == 0 {
        16
    } else if size == 1 {
        32
    } else if size == 2 {
        64
    } else {
        128
    }
}

fn wrapped(v: i32, side: i32) -> (r: i32)
    requires
        128 <= side <= 1024,
    ensures
        r == v as int % side as int,
        0 <= r < side,
{
    if v >= 0 {
        v % side
    } else {
        let w: i32 = -(v + 1);
        let r: i32 = side - 1 - w % side;
        proof {
            lemma_wrap(v as int, side as int);
        }
        r
    }
}

proof fn lemma_wrap(v: int, side: int)
    requires
        v < 0,
        side >= 1,
    ensures
        v % side == side - 1 - (-(v + 1)) % side,
{
    let w = -(v + 1);
    let q = w / side;
    let m = w % side;
    assert(w == q * side + m && 0 <= m < side) by {
        vstd::arithmetic::div_mod::lemma_fundamental_div_mod(w, side);
        vstd::arithmetic::mul::lemma_mul_is_commutative(side, q);
    }
    assert(v == (-(q + 1)) * side + (side - 1 - m)) by (nonlinear_arith)
        requires
            v == -w - 1,
            w == q * side + m,
    ;
    vstd::arithmetic::div_mod::lemma_fundamental_div_mod_converse(
        v,
        side,
        -(q + 1),
        side - 1 - m,
    );
}

fn sample_affine(bus: &Bus, bg: usize, rx: i32, ry: i32) -> (r: Option<u16>)
    requires
        bus@.wf(),
        bg < 4,
    ensures
        r == affine_pixel(bus@, bg as int, rx, ry),
{
    reveal(affine_pixel);
    let cnt: u16 = bg_cnt(bus, bg);
    proof {
        lemma_fields(cnt, 0);
    }
    let size: u16 = (cnt >> 14) & 3;
    let dim: usize = if size == 0 {
        16
    } else if size == 1 {
        32
    } else if size == 2 {
        64
    } else {
        128
    };
    let side: i32 = dim as i32 * 8;
    let u: i32 = rx >> 8;
    let v: i32 = ry >> 8;
    if cnt & 0x2000 == 0 && !(0 <= u && u < side && 0 <= v && v < side) {
        return None;
    }
    let sx: usize = wrapped(u, side) as usize;
    let sy: usize = wrapped(v, side) as usize;
    let k: u16 = (cnt >> 8) & 0x1F;
    let c: u16 = (cnt >> 2) & 3;
    assert((sy / 8) * dim <= 128 * 128) by (nonlinear_arith)
        requires
            sy / 8 <= 128,
            dim <= 128,
    ;
    let tile: u8 = vram_u8(bus, k as usize * 0x800 + (sy / 8) * dim + sx / 8);
    let i: u8 = vram_u8(bus, c as usize * 0x4000 + tile as usize * 64 + (sy % 8) * 8 + sx % 8);
    if i == 0 {
        None
    } else {
        Some(pal_color(bus, i as usize))
    }
}

/// A row with an affine background added, from its reference point.
pub open spec fn affine_added(
    b: BusModel,
    bg: int,
    rx: i32,
    ry: i32,
    win: Seq<u8>,
    rows: Seq<Pair>,
) -> Seq<Pair> {
    let (dx, dy) = affine_steps(b, bg);
    Seq::new(
        rows.len(),
        |x: int|
            layered(
                rows[x],
                affine_pixel(b, bg, walked(rx, dx, x as nat), walked(ry, dy, x as nat)),
                bg,
                bg_control(b, bg),
                win[x],
            ),
    )
}

pub fn composite_affine_bg(
    bus: &Bus,
    bg: usize,
    ref_x: i32,
    ref_y: i32,
    win: &Vec<u8>,
    rows: &mut Vec<Pair>,
)
    requires
        bus@.wf(),
        bg == 2 || bg == 3,
        win@.len() == WIDTH,
        old(rows)@.len() == WIDTH,
    ensures
        final(rows)@ == affine_added(bus@, bg as int, ref_x, ref_y, win@, old(rows)@),
{
    let cnt: u16 = bg_cnt(bus, bg);
    let bit: u8 = 1u8 << (bg as u8);
    let (dx, dy) = steps_of(bus, bg);
    let mut rx: i32 = ref_x;
    let mut ry: i32 = ref_y;
    let mut x: usize = 0;
    while x < WIDTH
        invariant
            x <= WIDTH,
            bus@.wf(),
            bg == 2 || bg == 3,
            bit == 1u8 << (bg as u8),
            cnt == bg_control(bus@, bg as int),
            (dx, dy) == affine_steps(bus@, bg as int),
            rx == walked(ref_x, dx, x as nat),
            ry == walked(ref_y, dy, x as nat),
            win@.len() == WIDTH,
            rows@.len() == WIDTH,
            old(rows)@.len() == WIDTH,
            forall|j: int|
                0 <= j < WIDTH ==> #[trigger] rows@[j] == (if j < x {
                    affine_added(bus@, bg as int, ref_x, ref_y, win@, old(rows)@)[j]
                } else {
                    old(rows)@[j]
                }),
        decreases WIDTH - x,
    {
        if win[x] & bit != 0 {
            if let Some(color) = sample_affine(bus, bg, rx, ry) {
                put_layer(
                    rows,
                    x,
                    Slot { color, prio: (cnt & 3) as u8, layer: (bg + 1) as u8, semi: false },
                );
            }
        }
        rx = rx.wrapping_add(dx);
        ry = ry.wrapping_add(dy);
        x += 1;
    }
    assert(rows@ =~= affine_added(bus@, bg as int, ref_x, ref_y, win@, old(rows)@));
}

// ---- bitmap modes -------------------------------------------------------

/// The bitmap pixel of modes 3, 4 and 5; mode 5 covers 160x128 only.
#[verifier::opaque]
pub open spec fn bitmap_pixel(b: BusModel, mode: u16, dispcnt: u16, x: int, y: int) -> Option<u16> {
    let page: int = if dispcnt & 0x10 != 0 {
        0xA000
    } else {
        0
    };
    if mode == 3 {
        Some(vram16(b, (y * 240 + x) * 2))
    } else if mode == 4 {
        Some(palette(b, vram8(b, page + y * 240 + x) as int))
    } else if x < 160 && y < 128 {
        Some(vram16(b, page + (y * 160 + x) * 2))
    } else {
        None
    }
}

fn sample_bitmap(bus: &Bus, mode: u16, dispcnt: u16, x: usize, y: usize) -> (r: Option<u16>)
    requires
        bus@.wf(),
        x < 240,
        y < 160,
    ensures
        r == bitmap_pixel(bus@, mode, dispcnt, x as int, y as int),
{
    reveal(bitmap_pixel);
    let page: usize = if dispcnt & 0x10 != 0 {
        0xA000
    } else {
        0
    };
    if mode == 3 {
        Some(vram_u16(bus, (y * 240 + x) * 2))
    } else if mode == 4 {
        let i: u8 = vram_u8(bus, page + y * 240 + x);
        Some(pal_color(bus, i as usize))
    } else if x < 160 && y < 128 {
        Some(vram_u16(bus, page + (y * 160 + x) * 2))
    } else {
        None
    }
}

/// The bitmap replaces the top layer, at the front of everything but objects
/// of priority 0.
pub open spec fn bitmap_put(p: Pair, color: Option<u16>) -> Pair {
    match color {
        Some(color) => Pair { top: Slot { color, prio: 0, layer: 3, semi: false }, ..p },
        None => p,
    }
}

pub open spec fn bitmap_added(b: BusModel, mode: u16, dispcnt: u16, y: int, rows: Seq<Pair>) -> Seq<
    Pair,
> {
    Seq::new(rows.len(), |x: int| bitmap_put(rows[x], bitmap_pixel(b, mode, dispcnt, x, y)))
}

pub fn bitmap_into(bus: &Bus, mode: u16, dispcnt: u16, y: usize, rows: &mut Vec<Pair>)
    requires
        bus@.wf(),
        y < 160,
        old(rows)@.len() == WIDTH,
    ensures
        final(rows)@ == bitmap_added(bus@, mode, dispcnt, y as int, old(rows)@),
{
    let mut x: usize = 0;
    while x < WIDTH
        invariant
            x <= WIDTH,
            bus@.wf(),
            y < 160,
            rows@.len() == WIDTH,
            old(rows)@.len() == WIDTH,
            forall|j: int|
                0 <= j < WIDTH ==> #[trigger] rows@[j] == (if j < x {
                    bitmap_added(bus@, mode, dispcnt, y as int, old(rows)@)[j]
                } else {
                    old(rows)@[j]
                }),
        decreases WIDTH - x,
    {
        if let Some(color) = sample_bitmap(bus, mode, dispcnt, x, y) {
            let mut p = rows[x];
            p.top = Slot { color, prio: 0, layer: 3, semi: false };
            rows[x] = p;
        }
        x += 1;
    }
    assert(rows@ =~= bitmap_added(bus@, mode, dispcnt, y as int, old(rows)@));
}

} // verus!
