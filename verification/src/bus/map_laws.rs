//! Where memory lies, in numbers.

use crate::bits::{
    hi16, law_little_endian, law_parts_are_digits, lemma_address_digits, lemma_next_bytes, lo16,
};
use crate::bus::model::{put16, BusModel};
use crate::bus::unfold::{lemma_write16_at, lemma_write32_at};
use vstd::prelude::*;

verus! {

/// Sixteen megabytes each: work RAM on board and on chip, palette, video and
/// object memory.
pub open spec fn is_ram(a: int) -> bool {
    let r = a / 0x100_0000;
    0 <= a < 0x1_0000_0000 && (r == 2 || r == 3 || r == 5 || r == 6 || r == 7)
}

/// The byte of its memory that an address names. Each memory repeats through
/// its region: 256K, 32K, 1K, 96K in a frame of 128K whose last quarter shows
/// the third again, and 1K.
pub open spec fn place(a: int) -> (int, int) {
    let r = a / 0x100_0000;
    if r == 2 {
        (2, a % 0x4_0000)
    } else if r == 3 {
        (3, a % 0x8000)
    } else if r == 6 {
        let o = a % 0x2_0000;
        (6, if o >= 0x1_8000 { o - 0x8000 } else { o })
    } else {
        (r, a % 0x400)
    }
}

/// What an address in RAM holds.
pub open spec fn cell(b: BusModel, a: int) -> u8 {
    let (r, o) = place(a);
    if r == 2 {
        b.ewram[o]
    } else if r == 3 {
        b.iwram[o]
    } else if r == 5 {
        b.pal[o]
    } else if r == 6 {
        b.vram[o]
    } else {
        b.oam[o]
    }
}

/// Both machines hold the same in RAM.
pub open spec fn same_ram(s: BusModel, t: BusModel) -> bool {
    s.ewram == t.ewram && s.iwram == t.iwram && s.pal == t.pal && s.vram == t.vram && s.oam == t.oam
}

/// A byte read from RAM is what its place holds, and changes nothing there.
pub proof fn law_byte_read(b: BusModel, a: u32)
    requires
        is_ram(a as int),
    ensures
        b.read8(a).1 == cell(b, a as int),
        same_ram(b.read8(a).0, b),
{
    lemma_address_digits(a);
    reveal(BusModel::read8);
    reveal(BusModel::cart_device8);
    reveal(BusModel::driven8);
    reveal(BusModel::noted);
}

/// A halfword read from RAM is the two bytes from the even address on, the low
/// one first.
pub proof fn law_half_read(b: BusModel, a: u32)
    requires
        is_ram(a as int),
    ensures
        ({
            let e = a - a as int % 2;
            b.read16(a).1 == cell(b, e) + 0x100 * cell(b, e + 1)
        }),
        same_ram(b.read16(a).0, b),
{
    lemma_address_digits(a);
    lemma_gpio_elsewhere(b, a);
    let e = (a - a as int % 2) as u32;
    law_byte_read(b, e);
    let s = b.read8(e).0;
    law_byte_read(s, (e + 1) as u32);
    law_little_endian(cell(b, e as int), cell(b, e + 1), 0, 0);
    reveal(BusModel::read16);
    reveal(BusModel::latched16);
    lemma_address_digits(e);
}

proof fn lemma_gpio_elsewhere(b: BusModel, a: u32)
    requires
        is_ram(a as int),
    ensures
        b.rtc.gpio_read((a - a as int % 2) as u32) is None,
        (a - a as int % 2) / 0x100_0000 == a as int / 0x100_0000,
        (a - a as int % 2 + 1) / 0x100_0000 == a as int / 0x100_0000,
{
    lemma_address_digits((a - a as int % 2) as u32);
}

/// A word read from RAM is the four bytes from the aligned address on.
pub proof fn law_word_read(b: BusModel, a: u32)
    requires
        is_ram(a as int),
    ensures
        ({
            let e = a - a as int % 4;
            b.read32(a).1 == cell(b, e) + 0x100 * cell(b, e + 1) + 0x1_0000 * cell(b, e + 2) + 0x100_0000 * cell(b, e + 3)
        }),
        same_ram(b.read32(a).0, b),
{
    lemma_address_digits(a);
    let e = (a - a as int % 4) as u32;
    lemma_address_digits(e);
    law_byte_read(b, e);
    let s1 = b.read8(e).0;
    law_byte_read(s1, (e + 1) as u32);
    let s2 = s1.read8((e + 1) as u32).0;
    law_byte_read(s2, (e + 2) as u32);
    let s3 = s2.read8((e + 2) as u32).0;
    law_byte_read(s3, (e + 3) as u32);
    law_little_endian(cell(b, e as int), cell(b, e + 1), cell(b, e + 2), cell(b, e + 3));
    reveal(BusModel::read32);
}

/// A halfword written to RAM lies in the two bytes from the even address on,
/// and no other byte changes.
pub proof fn law_half_written(b: BusModel, depth: nat, a: u32, v: u16, c: int)
    requires
        b.mapped(),
        is_ram(a as int),
        is_ram(c),
    ensures
        ({
            let t = b.write16_at(depth, a, v);
            let e = a - a as int % 2;
            &&& t.mapped()
            &&& cell(t, c) == if place(c) == place(e) {
                v as int % 0x100
            } else if place(c) == place(e + 1) {
                v as int / 0x100
            } else {
                cell(b, c) as int
            }
        }),
{
    let e = a - a as int % 2;
    lemma_half_update(b, depth, a, v);
    lemma_pair(e);
    law_parts_are_digits(v, 0);
    lemma_within(c);
}

proof fn lemma_half_update(b: BusModel, depth: nat, a: u32, v: u16)
    requires
        is_ram(a as int),
    ensures
        ({
            let t = b.write16_at(depth, a, v);
            let (r, o) = place(a - a as int % 2);
            &&& r == 2 ==> t == (BusModel { ewram: put16(b.ewram, o, v), ..b })
            &&& r == 3 ==> t == (BusModel { iwram: put16(b.iwram, o, v), ..b })
            &&& r == 5 ==> t == (BusModel { pal: put16(b.pal, o, v), ..b })
            &&& r == 6 ==> t == (BusModel { vram: put16(b.vram, o, v), ..b })
            &&& r == 7 ==> t == (BusModel { oam: put16(b.oam, o, v), ..b })
        }),
{
    lemma_address_digits(a);
    let e = (a - a as int % 2) as u32;
    lemma_address_digits(e);
    lemma_write16_at(b, depth, a, v);
    reveal(BusModel::write16_raw);
    assert(e as int / 0x100_0000 == a as int / 0x100_0000);
    assert(e & !1u32 == e);
}

/// A place lies inside its memory.
proof fn lemma_within(c: int)
    requires
        is_ram(c),
    ensures
        ({
            let (r, o) = place(c);
            &&& r == c / 0x100_0000
            &&& 0 <= o
            &&& r == 2 ==> o < 0x4_0000
            &&& r == 3 ==> o < 0x8000
            &&& r == 6 ==> o < 0x1_8000
            &&& r == 5 || r == 7 ==> o < 0x400
        }),
{
}

/// The bytes of a halfword lie one after the other.
proof fn lemma_pair(e: int)
    requires
        is_ram(e),
        e % 2 == 0,
    ensures
        is_ram(e + 1),
        place(e + 1) == (place(e).0, place(e).1 + 1),
        place(e).1 % 2 == 0,
{
    lemma_next_bytes(e as u32);
}

proof fn lemma_aligned(a: u32)
    requires
        is_ram(a as int),
    ensures
        is_ram(a - a as int % 4),
        (a - a as int % 4) % 4 == 0,
        (a - a as int % 4) % 2 == 0,
        (a - a as int % 4 + 2) % 2 == 0,
{
}

/// The bytes of a word lie one after the other.
proof fn lemma_quad(e: int)
    requires
        is_ram(e),
        e % 4 == 0,
    ensures
        is_ram(e + 2),
        is_ram(e + 3),
        place(e + 1) == (place(e).0, place(e).1 + 1),
        place(e + 2) == (place(e).0, place(e).1 + 2),
        place(e + 3) == (place(e).0, place(e).1 + 3),
        place(e).1 % 4 == 0,
{
    lemma_next_bytes(e as u32);
}

proof fn lemma_word_parts(v: u32)
    ensures
        v as int % 0x1_0000 % 0x100 == v as int % 0x100,
        v as int % 0x1_0000 / 0x100 == v as int / 0x100 % 0x100,
        v as int / 0x1_0000 / 0x100 == v as int / 0x100_0000,
{
}

/// A word written to RAM lies in the four bytes from the aligned address on.
pub proof fn law_word_written(b: BusModel, depth: nat, a: u32, v: u32, c: int)
    requires
        b.mapped(),
        is_ram(a as int),
        is_ram(c),
    ensures
        ({
            let t = b.write32_at(depth, a, v);
            let e = a - a as int % 4;
            &&& t.mapped()
            &&& cell(t, c) == if place(c) == place(e) {
                v as int % 0x100
            } else if place(c) == place(e + 1) {
                v as int / 0x100 % 0x100
            } else if place(c) == place(e + 2) {
                v as int / 0x1_0000 % 0x100
            } else if place(c) == place(e + 3) {
                v as int / 0x100_0000
            } else {
                cell(b, c) as int
            }
        }),
{
    let e = (a - a as int % 4) as u32;
    assert(e == a & !3u32) by {
        lemma_address_digits(a);
    }
    lemma_aligned(a);
    lemma_quad(e as int);
    lemma_write32_at(b, depth, a, v);
    law_parts_are_digits(0, v);
    law_half_written(b, depth, e, lo16(v), c);
    let s = b.write16_at(depth, e, lo16(v));
    law_half_written(s, depth, (e + 2) as u32, hi16(v), c);
    lemma_word_parts(v);
}

/// A byte written to work RAM lies at its address, and no other byte changes.
pub proof fn law_byte_written(b: BusModel, a: u32, v: u8, c: int)
    requires
        b.mapped(),
        a as int / 0x100_0000 == 2 || a as int / 0x100_0000 == 3,
        is_ram(c),
    ensures
        b.write8(a, v).mapped(),
        cell(b.write8(a, v), c) == if place(c) == place(a as int) { v } else { cell(b, c) },
{
    lemma_address_digits(a);
    reveal(BusModel::write8);
}

} // verus!
