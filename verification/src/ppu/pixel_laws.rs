//! What stands where in video memory, and what blending does to colours.

use crate::bits::{digit, law_little_endian, lemma_digit, lemma_digits16, lemma_digits8};
use crate::bus::model::BusModel;
use crate::ppu::layers::{
    affine_pixel, affine_steps, bg_control, bitmap_pixel, map_tiles, text_pixel, text_place,
    tile_texel, walked,
};
use crate::ppu::objs::{dims, obj_cell, obj_of, obj_texel, Obj};
use crate::ppu::render::{in_window, pixel_mask, rgb_byte, wide};
use crate::ppu::scene::{
    alpha, brightness, channel, io16, oam16, palette, resolved, vram16, vram8, Blend, Pair,
};
use vstd::prelude::*;

verus! {

/// The number that two bytes hold, low one first.
pub open spec fn half_at(s: Seq<u8>, at: int) -> int {
    s[at] + 256 * s[at + 1]
}

/// The colour of an index: none for zero, else its palette entry.
pub open spec fn shows(b: BusModel, color: Option<u16>, index: int, entry: int) -> bool {
    match color {
        None => index == 0,
        Some(c) => index != 0 && c == half_at(b.pal, 2 * entry),
    }
}

// ---- tiles --------------------------------------------------------------

/// A row of a 16-colour tile is four bytes: column `2 k` shows the low nibble
/// of byte `k`, column `2 k + 1` the high one, in the entry's bank of sixteen.
/// The mirrored tile shows its columns, or rows, the other way round.
pub proof fn law_tile_nibbles(b: BusModel, cnt: u16, entry: u16, k: int, row: int)
    requires
        0 <= k < 4,
        0 <= row < 8,
        digit(cnt as int, 0x80, 2) == 0,
    ensures
        ({
            let base = 0x4000 * digit(cnt as int, 4, 4) + 32 * digit(entry as int, 1, 0x400);
            let down = if digit(entry as int, 0x800, 2) == 1 { 7 - row } else { row };
            let byte = vram8(b, base + 4 * down + k);
            let bank = 16 * digit(entry as int, 0x1000, 16);
            let mirrored = digit(entry as int, 0x400, 2) == 1;
            let even = if mirrored { 7 - 2 * k } else { 2 * k };
            let odd = if mirrored { 6 - 2 * k } else { 2 * k + 1 };
            &&& shows(b, tile_texel(b, cnt, entry, even, row), byte as int % 16, bank + byte as int % 16)
            &&& shows(b, tile_texel(b, cnt, entry, odd, row), byte as int / 16, bank + byte as int / 16)
        }),
{
    lemma_digits16(entry);
    lemma_digit(entry as int, 0x400, 2);
    lemma_nibble(b, cnt, entry, 2 * k, row);
    lemma_nibble(b, cnt, entry, 2 * k + 1, row);
}

proof fn lemma_nibble(b: BusModel, cnt: u16, entry: u16, col: int, row: int)
    requires
        0 <= col < 8,
        0 <= row < 8,
        digit(cnt as int, 0x80, 2) == 0,
    ensures
        ({
            let base = 0x4000 * digit(cnt as int, 4, 4) + 32 * digit(entry as int, 1, 0x400);
            let down = if digit(entry as int, 0x800, 2) == 1 { 7 - row } else { row };
            let byte = vram8(b, base + 4 * down + col / 2);
            let at = if digit(entry as int, 0x400, 2) == 1 { 7 - col } else { col };
            let i = if col % 2 == 0 { byte as int % 16 } else { byte as int / 16 };
            shows(b, tile_texel(b, cnt, entry, at, row), i, 16 * digit(entry as int, 0x1000, 16) + i)
        }),
{
    lemma_cnt(cnt);
    lemma_entry(entry);
    let base = 0x4000 * digit(cnt as int, 4, 4) + 32 * digit(entry as int, 1, 0x400);
    let down = if digit(entry as int, 0x800, 2) == 1 { 7 - row } else { row };
    let at = if digit(entry as int, 0x400, 2) == 1 { 7 - col } else { col };
    let byte = vram8(b, base + 4 * down + col / 2);
    assert(byte & 0xF == byte as int % 16 && byte >> 4 == byte as int / 16) by {
        lemma_digits8(byte);
        reveal(digit);
    }
    let i = if col % 2 == 0 { byte & 0xF } else { byte >> 4 };
    let bank = digit(entry as int, 0x1000, 16) * 16;
    assert(tile_texel(b, cnt, entry, at, row) == if i == 0 { None } else { Some(palette(b, bank + i as int)) }) by {
        reveal(tile_texel);
    }
    lemma_palette(b);
}

proof fn lemma_cnt(cnt: u16)
    ensures
        (cnt >> 2) & 3 == digit(cnt as int, 4, 4),
        (cnt & 0x80 != 0) == (digit(cnt as int, 0x80, 2) == 1),
{
    lemma_digits16(cnt);
}

proof fn lemma_entry(entry: u16)
    ensures
        entry & 0x3FF == digit(entry as int, 1, 0x400),
        (entry >> 12) & 0xF == digit(entry as int, 0x1000, 16),
        (entry & 0x400 != 0) == (digit(entry as int, 0x400, 2) == 1),
        (entry & 0x800 != 0) == (digit(entry as int, 0x800, 2) == 1),
{
    lemma_digits16(entry);
}

/// A row of a 256-colour tile is eight bytes, a column each, mirrored as well.
pub proof fn law_tile_bytes(b: BusModel, cnt: u16, entry: u16, col: int, row: int)
    requires
        0 <= col < 8,
        0 <= row < 8,
        digit(cnt as int, 0x80, 2) == 1,
    ensures
        ({
            let base = 0x4000 * digit(cnt as int, 4, 4) + 64 * digit(entry as int, 1, 0x400);
            let down = if digit(entry as int, 0x800, 2) == 1 { 7 - row } else { row };
            let byte = vram8(b, base + 8 * down + col);
            let at = if digit(entry as int, 0x400, 2) == 1 { 7 - col } else { col };
            shows(b, tile_texel(b, cnt, entry, at, row), byte as int, byte as int)
        }),
{
    reveal(tile_texel);
    lemma_digits16(cnt);
    lemma_digits16(entry);
    lemma_digit(entry as int, 0x400, 2);
    lemma_digit(entry as int, 0x800, 2);
    let base = 0x4000 * digit(cnt as int, 4, 4) + 64 * digit(entry as int, 1, 0x400);
    let down = if digit(entry as int, 0x800, 2) == 1 { 7 - row } else { row };
    let byte = vram8(b, base + 8 * down + col) as int;
    law_little_endian(b.pal[2 * byte], b.pal[2 * byte + 1], 0, 0);
}

/// A text background is scrolled by its offsets, wraps at its size (32 or 64
/// tiles a side), and takes the map entry of the tile from blocks of 32 by 32
/// entries, two bytes each, left block before right, upper before lower. With
/// mosaic every cell shows its first pixel.
pub proof fn law_text_map(b: BusModel, bg: int, x: int, y: int)
    requires
        0 <= bg < 4,
        0 <= x,
        0 <= y,
    ensures
        ({
            let cnt = bg_control(b, bg) as int;
            let mos = io16(b, 0x4C) as int;
            let coarse = digit(cnt, 0x40, 2) == 1;
            let sx = x + digit(io16(b, 0x10 + 4 * bg) as int, 1, 0x200);
            let sy = y + digit(io16(b, 0x12 + 4 * bg) as int, 1, 0x200);
            let px = if coarse { sx - sx % (1 + digit(mos, 1, 16)) } else { sx };
            let py = if coarse { sy - sy % (1 + digit(mos, 16, 16)) } else { sy };
            let across = 1 + digit(cnt, 0x4000, 2);
            let u = px % (256 * across);
            let v = py % (256 * (1 + digit(cnt, 0x8000, 2)));
            let block = digit(cnt, 0x100, 32) + u / 256 + v / 256 * across;
            let at = 0x800 * block + 64 * (v % 256 / 8) + 2 * (u % 256 / 8);
            &&& at + 1 < 0x18000 ==> text_pixel(b, bg, x, y) == tile_texel(
                b,
                bg_control(b, bg),
                vram16(b, at),
                u % 8,
                v % 8,
            )
            &&& at + 1 >= 0x18000 ==> text_pixel(b, bg, x, y) is None
        }),
{
    reveal(text_pixel);
    let cnt = bg_control(b, bg);
    let mos = io16(b, 0x4C);
    lemma_digits16(cnt);
    lemma_digits16(mos);
    lemma_digits16(io16(b, 0x10 + 4 * bg));
    lemma_digits16(io16(b, 0x12 + 4 * bg));
    lemma_digit(mos as int, 1, 16);
    lemma_digit(mos as int, 16, 16);
    lemma_digit(cnt as int, 0x100, 32);
    lemma_digit(io16(b, 0x10 + 4 * bg) as int, 1, 0x200);
    lemma_digit(io16(b, 0x12 + 4 * bg) as int, 1, 0x200);
    let sx = x + digit(io16(b, 0x10 + 4 * bg) as int, 1, 0x200);
    let sy = y + digit(io16(b, 0x12 + 4 * bg) as int, 1, 0x200);
    lemma_coarse_step(sx, 1 + digit(mos as int, 1, 16));
    lemma_coarse_step(sy, 1 + digit(mos as int, 16, 16));
    let on = digit(cnt as int, 0x40, 2) == 1;
    let px = if on { sx - sx % (1 + digit(mos as int, 1, 16)) } else { sx };
    let py = if on { sy - sy % (1 + digit(mos as int, 16, 16)) } else { sy };
    lemma_map_size(cnt);
    lemma_text_place(cnt, px, py);
}

proof fn lemma_coarse_step(v: int, step: int)
    requires
        step > 0,
    ensures
        v / step * step == v - v % step,
{
    vstd::arithmetic::div_mod::lemma_fundamental_div_mod(v, step);
    vstd::arithmetic::mul::lemma_mul_is_commutative(v / step, step);
}

proof fn lemma_map_size(cnt: u16)
    ensures
        map_tiles(cnt).0 == 32 * (1 + digit(cnt as int, 0x4000, 2)),
        map_tiles(cnt).1 == 32 * (1 + digit(cnt as int, 0x8000, 2)),
        0 <= digit(cnt as int, 0x4000, 2) <= 1,
        0 <= digit(cnt as int, 0x8000, 2) <= 1,
{
    lemma_digits16(cnt);
    lemma_digits16((cnt >> 14) & 3);
    reveal(digit);
}

proof fn lemma_text_place(cnt: u16, px: int, py: int)
    requires
        0 <= px,
        0 <= py,
    ensures
        ({
            let across = 1 + digit(cnt as int, 0x4000, 2);
            let u = px % (256 * across);
            let v = py % (256 * (1 + digit(cnt as int, 0x8000, 2)));
            let block = digit(cnt as int, 0x100, 32) + u / 256 + v / 256 * across;
            text_place(cnt, px, py) == (0x800 * block + 64 * (v % 256 / 8) + 2 * (u % 256 / 8), u % 8, v % 8)
        }),
{
    lemma_map_size(cnt);
    lemma_digits16(cnt);
    let across = 1 + digit(cnt as int, 0x4000, 2);
    let u = px % (256 * across);
    let v = py % (256 * (1 + digit(cnt as int, 0x8000, 2)));
    assert(u / 8 / 32 == u / 256 && u / 8 % 32 == u % 256 / 8 && v / 8 / 32 == v / 256 && v / 8 % 32 == v % 256 / 8);
    assert(32 * across / 32 == across);
    if across == 1 {
        assert(v / 256 * 1 == v / 256);
    } else {
        assert(across == 2);
    }
}

// ---- affine backgrounds -------------------------------------------------

/// An affine background steps by the same amount in every column.
pub proof fn law_affine_steps_evenly(r: i32, d: i32, n: nat)
    requires
        forall|k: nat| k <= n ==> -0x8000_0000 <= r + #[trigger] (k * d) < 0x8000_0000,
    ensures
        walked(r, d, n) == r + n * d,
    decreases n,
{
    if n > 0 {
        assert forall|k: nat| k <= n - 1 implies -0x8000_0000 <= r + #[trigger] (k * d) < 0x8000_0000 by {}
        law_affine_steps_evenly(r, d, (n - 1) as nat);
        assert(n * d == (n - 1) * d + d) by (nonlinear_arith);
        assert(-0x8000_0000 <= r + n * d < 0x8000_0000);
    } else {
        assert(n * d == 0) by (nonlinear_arith)
            requires
                n == 0,
        ;
        assert(-0x8000_0000 <= r + n * d < 0x8000_0000);
    }
}

/// The steps are PA and PC, with their signs, in 256ths.
pub proof fn law_affine_matrix(b: BusModel, bg: int)
    requires
        bg == 2 || bg == 3,
    ensures
        ({
            let at = 0x10 * bg;
            let pa = io16(b, at) as i16;
            let pb = io16(b, at + 2) as i16;
            let pc = io16(b, at + 4) as i16;
            let unset = -16 < pa < 16 && -16 < pb < 16;
            &&& unset ==> affine_steps(b, bg) == (0x100i32, 0i32)
            &&& !unset ==> affine_steps(b, bg).0 == pa
            &&& !unset && -0x400 <= pc <= 0x400 ==> affine_steps(b, bg).1 == pc
            &&& !unset && !(-0x400 <= pc <= 0x400) ==> affine_steps(b, bg).1 == 0
        }),
{
}

/// An affine background is a square of 16 to 128 tiles. Its map has a byte for
/// each tile, its tiles a byte for each column; the texture position is in
/// 256ths. Outside it repeats where it wraps, and else shows nothing.
pub proof fn law_affine_texture(b: BusModel, bg: int, rx: i32, ry: i32)
    requires
        bg == 2 || bg == 3,
    ensures
        ({
            let cnt = bg_control(b, bg) as int;
            let size = digit(cnt, 0x4000, 4);
            let tiles: int = if size == 0 { 16 } else if size == 1 { 32 } else if size == 2 { 64 } else { 128 };
            let u = rx as int / 256;
            let v = ry as int / 256;
            let inside = 0 <= u < 8 * tiles && 0 <= v < 8 * tiles;
            let (s, t) = (u % (8 * tiles), v % (8 * tiles));
            let tile = vram8(b, 0x800 * digit(cnt, 0x100, 32) + t / 8 * tiles + s / 8);
            let i = vram8(b, 0x4000 * digit(cnt, 4, 4) + 64 * tile + 8 * (t % 8) + s % 8);
            &&& !inside && digit(cnt, 0x2000, 2) == 0 ==> affine_pixel(b, bg, rx, ry) is None
            &&& inside || digit(cnt, 0x2000, 2) == 1 ==> shows(b, affine_pixel(b, bg, rx, ry), i as int, i as int)
        }),
{
    reveal(affine_pixel);
    let cnt = bg_control(b, bg);
    lemma_digits16(cnt);
    lemma_digit(cnt as int, 0x2000, 2);
    lemma_floor(rx);
    lemma_floor(ry);
    lemma_palette(b);
}

proof fn lemma_floor(v: i32)
    ensures
        v >> 8 == v as int / 256,
{
    assert(v >> 8 == (if v >= 0 { v / 256 } else { -((255 - v) / 256) })) by (bit_vector);
}

proof fn lemma_palette(b: BusModel)
    ensures
        forall|i: int| #[trigger] palette(b, i) == half_at(b.pal, 2 * i),
{
    assert forall|i: int| #[trigger] palette(b, i) == half_at(b.pal, 2 * i) by {
        law_little_endian(b.pal[2 * i], b.pal[2 * i + 1], 0, 0);
    }
}

// ---- bitmaps ------------------------------------------------------------

/// Mode 3 is a halfword for each pixel of 240 by 160; mode 4 a palette index
/// for each, on the second page where bit 4 says so; mode 5 a halfword for each
/// of 160 by 128, paged too, and nothing outside.
pub proof fn law_bitmap(b: BusModel, dispcnt: u16, x: int, y: int)
    requires
        b.mapped(),
        0 <= x < 240,
        0 <= y < 160,
    ensures
        ({
            let page: int = 0xA000 * digit(dispcnt as int, 16, 2);
            let at3 = 480 * y + 2 * x;
            let at5 = page + 320 * y + 2 * x;
            &&& bitmap_pixel(b, 3, dispcnt, x, y) == Some(half_at(b.vram, at3) as u16)
            &&& bitmap_pixel(b, 4, dispcnt, x, y) == Some(half_at(b.pal, 2 * b.vram[page + 240 * y + x]) as u16)
            &&& x < 160 && y < 128 ==> bitmap_pixel(b, 5, dispcnt, x, y) == Some(half_at(b.vram, at5) as u16)
            &&& !(x < 160 && y < 128) ==> bitmap_pixel(b, 5, dispcnt, x, y) is None
        }),
{
    reveal(bitmap_pixel);
    lemma_digits16(dispcnt);
    lemma_digit(dispcnt as int, 16, 2);
    lemma_palette(b);
    let page: int = 0xA000 * digit(dispcnt as int, 16, 2);
    let at3 = 480 * y + 2 * x;
    let at5 = page + 320 * y + 2 * x;
    law_little_endian(vram8(b, at3), vram8(b, at3 + 1), 0, 0);
    law_little_endian(vram8(b, at5), vram8(b, at5 + 1), 0, 0);
    assert(bitmap_pixel(b, 4, dispcnt, x, y) == Some(palette(b, b.vram[page + 240 * y + x] as int)));
    assert((y * 240 + x) * 2 == at3);
    assert(page + (y * 160 + x) * 2 == at5);
}

// ---- objects ------------------------------------------------------------

/// Where the pixels of an object lie: tiles of 32 bytes from the upper part of
/// video memory on, its tile rows 32 tiles apart or one after the other. In 16
/// colours even columns are low nibbles and odd ones high.
pub proof fn law_object_texel(b: BusModel, o: Obj, x: int, y: int, map_2d: bool)
    requires
        o.wf(),
        0 <= x < o.ow,
        0 <= y < o.oh,
    ensures
        ({
            let row = if map_2d { 1024 } else { 4 * o.ow };
            let deep = o.color256;
            let at = 0x10000 + 32 * o.tile + y / 8 * (if deep && !map_2d { 2 * row } else { row }) + (if deep {
                64 * (x / 8) + 8 * (y % 8) + x % 8
            } else {
                32 * (x / 8) + 4 * (y % 8) + x % 8 / 2
            });
            let byte = vram8(b, at) as int;
            let i = if deep { byte } else if x % 2 == 0 { byte % 16 } else { byte / 16 };
            let bank: int = if deep { 0 } else { 16 * o.bank };
            &&& at >= 0x18000 ==> obj_texel(b, o, x, y, map_2d) is None
            &&& at < 0x18000 ==> shows(b, obj_texel(b, o, x, y, map_2d), i, 256 + bank + i)
        }),
{
    reveal(obj_texel);
    lemma_palette(b);
    assert((x % 8) % 2 == x % 2);
    let per: int = if o.color256 { 2 } else { 1 };
    let row: int = if map_2d { 32 } else { (o.ow as int / 8) * per };
    assert(32 * (y / 8 * row) == y / 8 * (32 * row)) by (nonlinear_arith);
    assert(32 * (x / 8 * per) == x / 8 * (32 * per)) by (nonlinear_arith);
    let at = 0x10000 + 32 * (o.tile as int + y / 8 * row + x / 8 * per) + (if o.color256 {
        8 * (y % 8) + x % 8
    } else {
        4 * (y % 8) + x % 8 / 2
    });
    let byte = vram8(b, at);
    lemma_digits8(byte);
    assert(byte & 0xF == byte as int % 16 && byte >> 4 == byte as int / 16) by {
        reveal(digit);
    }
}

/// An object that is not turned shows its columns in order, or mirrored.
pub proof fn law_object_mirror(b: BusModel, o: Obj, x: int, y: int, map_2d: bool)
    requires
        !o.affine,
    ensures
        obj_cell(b, o, x, y, map_2d) == obj_texel(
            b,
            o,
            if o.hflip { o.ow - 1 - x } else { x },
            if o.vflip { o.oh - 1 - y } else { y },
            map_2d,
        ),
{
    reveal(obj_cell);
}

/// Tall objects are wide ones turned; squares and rectangles grow by fixed
/// steps.
pub proof fn law_object_sizes(size: u16)
    requires
        size < 4,
    ensures
        dims(2, size) == (dims(1, size).1, dims(1, size).0),
        dims(0, size).0 == dims(0, size).1,
        dims(0, 0).0 == 8,
        size > 0 ==> dims(0, size).0 == 2 * dims(0, (size - 1) as u16).0,
        dims(1, size).0 == if size == 1 { 4 * dims(1, size).1 } else { 2 * dims(1, size).1 },
        dims(1, size).0 * dims(1, size).1 == (if size == 0 { 128int } else if size == 1 { 256 } else if size == 2 {
            512
        } else { 2048 }),
{
}

/// The attributes of an object, as digits of its three halfwords.
pub proof fn law_object_attributes(b: BusModel, i: int)
    requires
        b.mapped(),
        0 <= i < 128,
    ensures
        ({
            let (a0, a1, a2) = (half_at(b.oam, 8 * i), half_at(b.oam, 8 * i + 2), half_at(b.oam, 8 * i + 4));
            let o = obj_of(b, i, false);
            let x = digit(a1, 1, 512);
            let y = digit(a0, 1, 256);
            &&& o.x0 == if x >= 256 { x - 512 } else { x }
            &&& o.y0 == if y >= 160 { y - 256 } else { y }
            &&& o.affine <==> digit(a0, 0x100, 2) == 1
            &&& o.shown <==> digit(a0, 0x100, 2) == 1 || digit(a0, 0x200, 2) == 0
            &&& o.gfx == digit(a0, 0x400, 4)
            &&& o.mosaic <==> digit(a0, 0x1000, 2) == 1
            &&& o.color256 <==> digit(a0, 0x2000, 2) == 1
            &&& o.hflip <==> digit(a1, 0x1000, 2) == 1
            &&& o.vflip <==> digit(a1, 0x2000, 2) == 1
            &&& (o.ow, o.oh) == dims(digit(a0, 0x4000, 4) as u16, digit(a1, 0x4000, 4) as u16)
            &&& o.dw == if digit(a0, 0x100, 2) == 1 && digit(a0, 0x200, 2) == 1 { 2 * o.ow } else { o.ow as int }
            &&& o.dh == if digit(a0, 0x100, 2) == 1 && digit(a0, 0x200, 2) == 1 { 2 * o.oh } else { o.oh as int }
            &&& o.tile == digit(a2, 1, 0x400)
            &&& o.prio == digit(a2, 0x400, 4)
            &&& o.bank == digit(a2, 0x1000, 16)
        }),
{
    reveal(obj_of);
    law_little_endian(b.oam[8 * i], b.oam[8 * i + 1], 0, 0);
    law_little_endian(b.oam[8 * i + 2], b.oam[8 * i + 3], 0, 0);
    law_little_endian(b.oam[8 * i + 4], b.oam[8 * i + 5], 0, 0);
    let (a0, a1, a2) = (oam16(b, 8 * i), oam16(b, 8 * i + 2), oam16(b, 8 * i + 4));
    lemma_attr0(a0);
    lemma_attr1(a1);
    lemma_attr2(a2);
    let (h0, h1, h2) = (half_at(b.oam, 8 * i), half_at(b.oam, 8 * i + 2), half_at(b.oam, 8 * i + 4));
    assert(h0 == a0 && h1 == a1 && h2 == a2);
}

proof fn lemma_attr0(a: u16)
    ensures
        a & 0xFF == digit(a as int, 1, 256),
        0 <= digit(a as int, 1, 256) < 256,
        (a & 0x100 != 0) == (digit(a as int, 0x100, 2) == 1),
        (a & 0x200 != 0) == (digit(a as int, 0x200, 2) == 1),
        0 <= digit(a as int, 0x200, 2) < 2,
        (a >> 10) & 3 == digit(a as int, 0x400, 4),
        (a & 0x1000 != 0) == (digit(a as int, 0x1000, 2) == 1),
        (a & 0x2000 != 0) == (digit(a as int, 0x2000, 2) == 1),
        (a >> 14) & 3 == digit(a as int, 0x4000, 4),
        0 <= digit(a as int, 0x4000, 4) < 4,
{
    lemma_digits16(a);
    lemma_digit(a as int, 1, 256);
    lemma_digit(a as int, 0x200, 2);
    lemma_digit(a as int, 0x4000, 4);
}

proof fn lemma_attr1(a: u16)
    ensures
        a & 0x1FF == digit(a as int, 1, 512),
        0 <= digit(a as int, 1, 512) < 512,
        (a & 0x1000 != 0) == (digit(a as int, 0x1000, 2) == 1),
        (a & 0x2000 != 0) == (digit(a as int, 0x2000, 2) == 1),
        (a >> 14) & 3 == digit(a as int, 0x4000, 4),
        (a >> 9) & 0x1F == digit(a as int, 0x200, 32),
        0 <= digit(a as int, 0x4000, 4) < 4,
{
    lemma_digits16(a);
    lemma_digit(a as int, 1, 512);
    lemma_digit(a as int, 0x4000, 4);
}

proof fn lemma_attr2(a: u16)
    ensures
        a & 0x3FF == digit(a as int, 1, 0x400),
        (a >> 10) & 3 == digit(a as int, 0x400, 4),
        (a >> 12) & 0xF == digit(a as int, 0x1000, 16),
        0 <= digit(a as int, 0x400, 4) < 4,
{
    lemma_digits16(a);
    lemma_digit(a as int, 0x400, 4);
}

// ---- windows ------------------------------------------------------------

/// A window spans the columns and rows from its start byte up to, but not with,
/// its end byte; one that starts after its end goes around.
pub proof fn law_window_span(b: BusModel, win: int, x: int, y: int)
    requires
        win == 0 || win == 1,
        0 <= x < 240,
        0 <= y < 160,
    ensures
        ({
            let h = io16(b, 0x40 + 2 * win) as int;
            let v = io16(b, 0x44 + 2 * win) as int;
            let (left, right) = (digit(h, 0x100, 0x100), digit(h, 1, 0x100));
            let (top, bottom) = (digit(v, 0x100, 0x100), digit(v, 1, 0x100));
            in_window(b, win, x, y) <==> (if left <= right { left <= x < right } else { x >= left || x < right }) && (if top
                <= bottom { top <= y < bottom } else { y >= top || y < bottom })
        }),
{
    let h = io16(b, 0x40 + 2 * win);
    let v = io16(b, 0x44 + 2 * win);
    lemma_digits16(h);
    lemma_digits16(v);
    lemma_digit(h as int, 1, 0x100);
    lemma_digit(v as int, 1, 0x100);
    lemma_digit(h as int, 0x100, 0x100);
    lemma_digit(v as int, 0x100, 0x100);
}

/// Window 0 goes before window 1, that before the object window, and that
/// before the outside; with no window on everything shows.
pub proof fn law_window_order(b: BusModel, dispcnt: u16, covered: bool, x: int, y: int)
    ensures
        ({
            let d = dispcnt as int;
            let (w0, w1, wo) = (digit(d, 0x2000, 2) == 1, digit(d, 0x4000, 2) == 1, digit(d, 0x8000, 2) == 1);
            let winin = io16(b, 0x48) as int;
            let winout = io16(b, 0x4A) as int;
            pixel_mask(b, dispcnt, covered, x, y) == if !w0 && !w1 && !wo {
                63
            } else if w0 && in_window(b, 0, x, y) {
                digit(winin, 1, 64)
            } else if w1 && in_window(b, 1, x, y) {
                digit(winin, 0x100, 64)
            } else if covered {
                digit(winout, 0x100, 64)
            } else {
                digit(winout, 1, 64)
            }
        }),
{
    reveal(pixel_mask);
    lemma_digits16(dispcnt);
    lemma_digits16(io16(b, 0x48));
    lemma_digits16(io16(b, 0x4A));
    lemma_digit(io16(b, 0x48) as int, 1, 64);
    lemma_digit(io16(b, 0x4A) as int, 1, 64);
    lemma_digit(io16(b, 0x48) as int, 0x100, 64);
    lemma_digit(io16(b, 0x4A) as int, 0x100, 64);
}

// ---- colours ------------------------------------------------------------

/// Red, green or blue of a colour.
pub open spec fn part(c: u16, k: int) -> int {
    digit(c as int, if k == 0 { 1 } else if k == 1 { 32 } else { 1024 }, 32)
}

proof fn lemma_parts(r: u32, g: u32, b: u32, c: u16)
    requires
        r < 32,
        g < 32,
        b < 32,
    ensures
        ({
            let p = (r as u16) | ((g as u16) << 5) | ((b as u16) << 10);
            &&& part(p, 0) == r
            &&& part(p, 1) == g
            &&& part(p, 2) == b
        }),
        channel(c, 0) == part(c, 0),
        channel(c, 5) == part(c, 1),
        channel(c, 10) == part(c, 2),
        forall|k: int| 0 <= #[trigger] part(c, k) < 32,
        (r as u16) & 0x1F == r,
        (g as u16) & 0x1F == g,
        (b as u16) & 0x1F == b,
        wide(r as u8) == 8 * r + r as int / 4,
{
    let p = (r as u16) | ((g as u16) << 5) | ((b as u16) << 10);
    let (x, y, z): (u16, u16, u16) = (r as u16, g as u16, b as u16);
    let t: u8 = r as u8;
    assert((t << 3) | (t >> 2) == 8 * t + t / 4 && p % 32 == x && p / 32 % 32 == y && p / 1024 % 32 == z && x & 0x1F == x && y & 0x1F == y && z & 0x1F == z && (c >> 0) & 0x1F
        == c % 32) by (bit_vector)
        requires
            t < 32,
            x < 32,
            y < 32,
            z < 32,
            p == x | (y << 5) | (z << 10),
    ;
    lemma_digits16(c);
    reveal(digit);
}

/// Blending weighs each channel of the two colours in sixteenths, and stops at
/// the brightest.
pub proof fn law_blend_channels(a: u16, b: u16, eva: u32, evb: u32, k: int)
    requires
        eva <= 16,
        evb <= 16,
        0 <= k < 3,
    ensures
        ({
            let sum = (part(a, k) * eva + part(b, k) * evb) / 16;
            part(alpha(a, b, eva, evb), k) == if sum > 31 { 31 } else { sum }
        }),
{
    reveal(alpha);
    lemma_parts(0, 0, 0, a);
    lemma_parts(0, 0, 0, b);
    lemma_weights(part(a, 0), part(b, 0), eva as int, evb as int);
    lemma_weights(part(a, 1), part(b, 1), eva as int, evb as int);
    lemma_weights(part(a, 2), part(b, 2), eva as int, evb as int);
    let r = crate::ppu::scene::mixed(channel(a, 0), channel(b, 0), eva, evb);
    let g = crate::ppu::scene::mixed(channel(a, 5), channel(b, 5), eva, evb);
    let u = crate::ppu::scene::mixed(channel(a, 10), channel(b, 10), eva, evb);
    lemma_parts(r, g, u, a);
}

proof fn lemma_weights(a: int, b: int, eva: int, evb: int)
    requires
        0 <= a < 32,
        0 <= b < 32,
        0 <= eva <= 16,
        0 <= evb <= 16,
    ensures
        0 <= a * eva + b * evb <= 1024,
        0 <= (31 - a) * eva <= 496 - 16 * a + 16 * a,
        0 <= (31 - a) * eva / 16 <= 31 - a,
        0 <= a * (16 - eva) / 16 <= a,
{
    assert(0 <= a * eva <= 512) by (nonlinear_arith)
        requires
            0 <= a < 32,
            0 <= eva <= 16,
    ;
    assert(0 <= b * evb <= 512) by (nonlinear_arith)
        requires
            0 <= b < 32,
            0 <= evb <= 16,
    ;
    assert(0 <= (31 - a) * eva <= 16 * (31 - a)) by (nonlinear_arith)
        requires
            0 <= a < 32,
            0 <= eva <= 16,
    ;
    assert(0 <= a * (16 - eva) <= 16 * a) by (nonlinear_arith)
        requires
            0 <= a < 32,
            0 <= eva <= 16,
    ;
}

/// Brightening moves each channel that many sixteenths of the way to white,
/// darkening to black.
pub proof fn law_fade_channels(c: u16, evy: u32, k: int)
    requires
        evy <= 16,
        0 <= k < 3,
    ensures
        part(brightness(c, 2, evy), k) == part(c, k) + (31 - part(c, k)) * evy / 16,
        part(brightness(c, 3, evy), k) == part(c, k) * (16 - evy) / 16,
{
    reveal(brightness);
    lemma_parts(0, 0, 0, c);
    lemma_weights(part(c, 0), 0, evy as int, 0);
    lemma_weights(part(c, 1), 0, evy as int, 0);
    lemma_weights(part(c, 2), 0, evy as int, 0);
    let r2 = crate::ppu::scene::faded(channel(c, 0), 2, evy);
    let g2 = crate::ppu::scene::faded(channel(c, 5), 2, evy);
    let b2 = crate::ppu::scene::faded(channel(c, 10), 2, evy);
    let r3 = crate::ppu::scene::faded(channel(c, 0), 3, evy);
    let g3 = crate::ppu::scene::faded(channel(c, 5), 3, evy);
    let b3 = crate::ppu::scene::faded(channel(c, 10), 3, evy);
    lemma_parts(r2, g2, b2, c);
    lemma_parts(r3, g3, b3, c);
}

/// The blend weights are the low five bits of each byte, at most sixteen.
pub proof fn law_blend_registers(bldcnt: u16, bldalpha: u16, bldy: u16)
    ensures
        ({
            let k = Blend::of(bldcnt, bldalpha, bldy);
            let a = digit(bldalpha as int, 1, 32);
            let b = digit(bldalpha as int, 0x100, 32);
            let y = digit(bldy as int, 1, 32);
            &&& k.bldcnt == bldcnt
            &&& k.eva == if a > 16 { 16 } else { a }
            &&& k.evb == if b > 16 { 16 } else { b }
            &&& k.evy == if y > 16 { 16 } else { y }
        }),
{
    lemma_digits16(bldalpha);
    lemma_digits16(bldy);
    lemma_digit(bldalpha as int, 1, 32);
    lemma_digit(bldalpha as int, 0x100, 32);
    lemma_digit(bldy as int, 1, 32);
}

/// BLDCNT names the layers of the first target from bit 0 and of the second
/// from bit 8: BG0 to BG3, objects, backdrop.
pub proof fn law_blend_targets(k: Blend, layer: u8)
    requires
        layer <= 5,
    ensures
        ({
            let n = k.bldcnt as int;
            let unit: int = if layer == 1 { 1 } else if layer == 2 { 2 } else if layer == 3 { 4 } else if layer == 4 {
                8
            } else if layer == 0 { 16 } else { 32 };
            &&& k.first(layer) <==> digit(n, unit, 2) == 1
            &&& k.second(layer) <==> digit(n, 256 * unit, 2) == 1
        }),
{
    lemma_digits16(k.bldcnt);
    assert(1u16 << 0 == 1 && 1u16 << 1 == 2 && 1u16 << 2 == 4 && 1u16 << 3 == 8 && 1u16 << 4 == 16 && 1u16 << 5 == 32 && 1u16
        << 8 == 256 && 1u16 << 9 == 512 && 1u16 << 10 == 1024 && 1u16 << 11 == 2048 && 1u16 << 12 == 4096 && 1u16
        << 13 == 8192) by (bit_vector);
}

/// Which effect a pixel gets. Nothing happens without the window's leave or
/// with effect 0; effect 1 mixes a first target over a second; 2 brightens and
/// 3 darkens a first target. A semi-transparent object over a second target
/// mixes whatever the effect.
pub proof fn law_effects(p: Pair, k: Blend, win: u8)
    ensures
        ({
            let effect = digit(k.bldcnt as int, 0x40, 4);
            let leave = digit(win as int, 0x20, 2) == 1;
            let glass = p.top.semi && k.second(p.bot.layer);
            let (a, b) = (p.top.color, p.bot.color);
            let out = resolved(p, k, win);
            &&& glass && k.eva > 0 && k.evb > 0 ==> out == alpha(a, b, k.eva, k.evb)
            &&& glass && !leave && effect != 0 ==> out == alpha(a, b, k.eva, k.evb)
            &&& glass && (leave || effect == 0) && k.eva == 0 && k.evb > 0 ==> out == alpha(a, b, 1, k.evb)
            &&& glass && (leave || effect == 0) && k.eva > 0 && k.evb == 0 ==> out == alpha(a, b, k.eva, 1)
            &&& !glass && (!leave || effect == 0) ==> out == a
            &&& !glass && leave && effect == 1 ==> out == if k.first(p.top.layer) && k.second(p.bot.layer) {
                alpha(a, b, k.eva, k.evb)
            } else {
                a
            }
            &&& !glass && leave && effect >= 2 && k.evy > 0 ==> out == if k.first(p.top.layer) {
                brightness(a, effect as u16, k.evy)
            } else {
                a
            }
            &&& !glass && leave && effect >= 2 && k.evy == 0 ==> out == a
        }),
{
    reveal(resolved);
    lemma_digits16(k.bldcnt);
    lemma_digits8(win);
    lemma_digit(k.bldcnt as int, 0x40, 4);
}

/// The bytes of a pixel: red, green, blue, each of its five bits spread over
/// eight, black to black and white to white, brighter to brighter.
pub proof fn law_rgb_bytes(px: u16, k: int)
    requires
        0 <= k < 3,
    ensures
        rgb_byte(px, k) == 8 * part(px, k) + part(px, k) / 4,
{
    lemma_digits16(px);
    lemma_digit(px as int, 1, 32);
    lemma_digit(px as int, 32, 32);
    lemma_digit(px as int, 1024, 32);
    lemma_parts(part(px, k) as u32, 0, 0, 0);
}

} // verus!
