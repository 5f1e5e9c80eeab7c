//! What the memory map promises.

use crate::battery::SaveType;
use crate::bits::{hi8, le16, lemma_le16_round_trip, lo8};
use crate::bus::model::{lane_get, readable, sram_at, vram_at, writable, BusModel};
use crate::bus::{lemma_even, lemma_masks};
use crate::mem::byte_or;
use vstd::prelude::*;

verus! {

/// An address in RAM that halfwords can be written to: work RAM, palette, VRAM
/// or object memory.
pub open spec fn in_ram(a: u32) -> bool {
    let r = a >> 24;
    r == 0x02 || r == 0x03 || r == 0x05 || r == 0x06 || r == 0x07
}

proof fn lemma_regions(a: u32)
    ensures
        (a & !1u32) >> 24 == a >> 24,
        (a & !1u32) < 0xFFFF_FFFF,
        ((a & !1u32) + 1) as u32 >> 24 == a >> 24,
        a < 0x4000 ==> a >> 24 == 0,
        a >> 24 == 0x02 ==> ((a & !1u32) + 1) as u32 & 0x3FFFF == ((a & !1u32) & 0x3FFFF) + 1,
        a >> 24 == 0x03 ==> ((a & !1u32) + 1) as u32 & 0x7FFF == ((a & !1u32) & 0x7FFF) + 1,
        ((a & !1u32) + 1) as u32 & 0x3FF == ((a & !1u32) & 0x3FF) + 1,
        ((a & !1u32) + 1) as u32 & 0x1FFFF == ((a & !1u32) & 0x1FFFF) + 1,
        0x0800_00C4u32 >> 24 == 8,
        0x0800_00C6u32 >> 24 == 8,
        0x0800_00C8u32 >> 24 == 8,
        ((a & !1u32) + 1) as u32 & !1u32 == a & !1u32,
{
    let e = a & !1u32;
    assert(e >> 24 == a >> 24 && e < 0xFFFF_FFFF && (e + 1) as u32 >> 24 == a >> 24 && (a < 0x4000 ==> a
        >> 24 == 0) && (e + 1) as u32 & 0x3FFFF == (e & 0x3FFFF) + 1 && (e + 1) as u32 & 0x7FFF == (e
        & 0x7FFF) + 1 && (e + 1) as u32 & 0x3FF == (e & 0x3FF) + 1 && (e + 1) as u32 & 0x1FFFF == (e
        & 0x1FFFF) + 1 && 0x0800_00C4u32 >> 24 == 8 && 0x0800_00C6u32 >> 24 == 8 && 0x0800_00C8u32
        >> 24 == 8 && (e + 1) as u32 & !1u32 == e) by (bit_vector)
        requires
            e == a & !1u32,
    ;
}

/// A byte in work RAM reads back, and no other byte of it changes.
pub proof fn law_byte_reads_back(b: BusModel, a: u32, v: u8, c: u32)
    requires
        b.wf(),
        a >> 24 == 0x02 || a >> 24 == 0x03,
        c >> 24 == a >> 24,
    ensures
        b.write8(a, v).read8(a).1 == v,
        b.write8(a, v).read8(c).1 == v || b.write8(a, v).read8(c).1 == b.read8(c).1,
        (a >> 24 == 0x02 && a & 0x3FFFF != c & 0x3FFFF) || (a >> 24 == 0x03 && a & 0x7FFF != c & 0x7FFF)
            ==> b.write8(a, v).read8(c).1 == b.read8(c).1,
{
    lemma_regions(a);
    lemma_regions(c);
    lemma_masks(a);
    lemma_masks(c);
    reveal(BusModel::wf);
    reveal(BusModel::write8);
    reveal(BusModel::read8);
    reveal(BusModel::cart_device8);
    reveal(BusModel::driven8);
}

/// A halfword in RAM reads back.
pub proof fn law_half_reads_back(b: BusModel, a: u32, v: u16)
    requires
        b.wf(),
        in_ram(a),
    ensures
        b.write16(a, v).read16(a).1 == v,
{
    lemma_regions(a);
    lemma_even(a);
    lemma_masks(a & !1u32);
    lemma_le16_round_trip(v);
    reveal(BusModel::wf);
    reveal(BusModel::write16_at);
    reveal(BusModel::write16_raw);
    reveal(BusModel::read16);
    reveal(BusModel::read8);
    reveal(BusModel::cart_device8);
    reveal(BusModel::driven8);
    reveal(BusModel::noted);
    let e = a & !1u32;
    let f = (e + 1) as u32;
    assert(e.wrapping_add(1) == f);
    lemma_regions(e);
    lemma_regions(f);
    reveal(BusModel::io16_written);
    let w = b.write16(a, v);
    assert(w == b.write16_raw(e, v));
    assert(w.rtc.gpio_read(e) is None);
    assert(w.driven8(e) matches Some(x) && x == lo8(v));
    assert(w.driven8(f) matches Some(x) && x == hi8(v));
    let s1 = w.read8(e).0;
    assert(s1 == w.noted(e, lo8(v)));
    assert(s1.driven8(f) matches Some(x) && x == hi8(v));
}

/// Work RAM repeats through its region: addresses with the same low bits show
/// the same byte.
pub proof fn law_mirrors(b: BusModel, a: u32, c: u32)
    requires
        a >> 24 == c >> 24,
        (a >> 24 == 0x02 && a & 0x3FFFF == c & 0x3FFFF) || (a >> 24 == 0x03 && a & 0x7FFF == c & 0x7FFF)
            || (a >> 24 == 0x06 && vram_at(a) == vram_at(c)),
    ensures
        b.read8(a).1 == b.read8(c).1,
{
    lemma_regions(a);
    lemma_regions(c);
    reveal(BusModel::read8);
    reveal(BusModel::cart_device8);
    reveal(BusModel::driven8);
}

/// Palette and object memory ignore bytes.
pub proof fn law_bytes_ignored(b: BusModel, a: u32, v: u8)
    requires
        a >> 24 == 0x05 || a >> 24 == 0x07,
    ensures
        b.write8(a, v) == b,
{
    reveal(BusModel::write8);
}

/// A byte into background memory fills both halves of its halfword.
pub proof fn law_background_doubles_bytes(b: BusModel, a: u32, v: u8)
    requires
        b.wf(),
        a >> 24 == 0x06,
        vram_at(a) < 0x10000,
    ensures
        ({
            let i = vram_at(a) - vram_at(a) % 2;
            b.write8(a, v).vram == b.read16(0x0400_0000).0.vram.update(i, v).update(i + 1, v)
        }),
{
    reveal(BusModel::write8);
    reveal(BusModel::vram8_written);
}

/// The save window of an untagged cart shows FF until it is written; the first
/// byte makes it 64K of SRAM, and reads back.
pub proof fn law_untagged_cart_becomes_sram(b: BusModel, a: u32, v: u8)
    requires
        b.wf(),
        a >> 24 == 0x0E,
        b.save_type == SaveType::NoSave,
        b.flash is None,
    ensures
        b.read8(a).1 == 0xFF,
        b.write8(a, v).save_type == SaveType::Sram(0x1_0000),
        b.write8(a, v).read8(a).1 == v,
{
    lemma_regions(a);
    reveal(BusModel::wf);
    reveal(BusModel::write8);
    reveal(BusModel::save_written);
    reveal(BusModel::promoted);
    reveal(BusModel::read8);
    reveal(BusModel::cart_device8);
    reveal(BusModel::driven8);
    reveal(BusModel::save_byte);
}

/// A byte in SRAM reads back, and a changed byte wants the battery written.
pub proof fn law_sram_reads_back(b: BusModel, a: u32, v: u8)
    requires
        a >> 24 == 0x0E,
        b.flash is None,
        b.save_type == SaveType::NoSave || b.sram.len() > 0,
    ensures
        b.write8(a, v).read8(a).1 == v,
        ({
            let s = b.promoted().sram;
            s[sram_at(s, a)] != v ==> b.write8(a, v).save_dirty
        }),
{
    lemma_regions(a);
    reveal(BusModel::wf);
    reveal(BusModel::write8);
    reveal(BusModel::save_written);
    reveal(BusModel::promoted);
    reveal(BusModel::read8);
    reveal(BusModel::cart_device8);
    reveal(BusModel::driven8);
    reveal(BusModel::save_byte);
}

/// The ROM cannot be written: a byte into its window reaches the serial EEPROM
/// or the clock behind it, or is lost.
pub proof fn law_rom_is_read_only(b: BusModel, a: u32, v: u8)
    requires
        0x08 <= a >> 24 <= 0x0D,
    ensures
        b.write8(a, v) == (BusModel {
            eeprom: b.write8(a, v).eeprom,
            rtc: b.write8(a, v).rtc,
            save_dirty: b.write8(a, v).save_dirty,
            ..b
        }),
        b.eeprom is None && !b.rtc.present ==> b.write8(a, v) == b,
{
    reveal(BusModel::write8);
    reveal(BusModel::cart8_written);
    reveal(BusModel::eeprom_bit);
}

/// Where nothing drives the bus a read shows its last value and leaves it.
pub proof fn law_open_bus(b: BusModel, a: u32)
    requires
        a >= 0x4000,
        a >> 24 < 0x02 || a >> 24 >= 0x10 || (a >> 24 == 0x04 && (a >= 0x0400_0400 || !readable(
            (a & 0x3FF) as u16,
        ))),
    ensures
        b.read8(a) == (b, lane_get(b.last_bus, a)),
{
    lemma_regions(a);
    reveal(BusModel::read8);
    reveal(BusModel::cart_device8);
    reveal(BusModel::driven8);
}

/// Code outside the BIOS sees its last fetch there, never its bytes.
pub proof fn law_bios_is_protected(b: BusModel, a: u32)
    requires
        a < 0x4000,
        b.exec_pc >= 0x4000,
    ensures
        b.read8(a) == (b, lane_get(b.last_bios, a)),
{
    reveal(BusModel::read8);
}

// ---- registers ----------------------------------------------------------

/// Register `off` as it is stored.
pub open spec fn reg(b: BusModel, off: int) -> u16 {
    le16(byte_or(b.io, off, 0), byte_or(b.io, off + 1, 0))
}

proof fn lemma_reg_addresses()
    ensures
        0x0400_0004u32 & 0x3FF == 4,
        0x0400_0005u32 & 0x3FF == 5,
        0x0400_0202u32 & 0x3FF == 0x202,
        0x0400_0203u32 & 0x3FF == 0x203,
        0x0400_0004u32 & !1u32 == 0x0400_0004,
        0x0400_0202u32 & !1u32 == 0x0400_0202,
        0x0400_0004u32 >> 24 == 4,
        0x0400_0005u32 >> 24 == 4,
        0x0400_0202u32 >> 24 == 4,
        0x0400_0203u32 >> 24 == 4,
{
    assert(0x0400_0004u32 & 0x3FF == 4 && 0x0400_0005u32 & 0x3FF == 5 && 0x0400_0202u32 & 0x3FF == 0x202
        && 0x0400_0203u32 & 0x3FF == 0x203 && 0x0400_0004u32 & !1u32 == 0x0400_0004 && 0x0400_0202u32
        & !1u32 == 0x0400_0202 && 0x0400_0004u32 >> 24 == 4 && 0x0400_0005u32 >> 24 == 4
        && 0x0400_0202u32 >> 24 == 4 && 0x0400_0203u32 >> 24 == 4) by (bit_vector);
}

/// DISPSTAT: the live flags in bits 0-2 cannot be written, the rest can.
pub proof fn law_dispstat_flags_are_live(b: BusModel, v: u16)
    requires
        b.wf(),
        b.io.len() > 5,
    ensures
        reg(b.write16(0x0400_0004, v), 4) == (v & !7u16) | (reg(b, 4) & 7),
{
    lemma_reg_addresses();
    lemma_regions(0x0400_0004);
    let x = (v & !7u16) | (reg(b, 4) & 7);
    lemma_le16_round_trip(x);
    reveal(BusModel::wf);
    reveal(BusModel::write16_at);
    reveal(BusModel::io16_written);
    reveal(BusModel::reg_written);
    reveal(BusModel::dispstat_written);
    reveal(BusModel::write16_raw);
    reveal(BusModel::read16);
    reveal(BusModel::read8);
    reveal(BusModel::latched16);
    reveal(BusModel::cart_device8);
    reveal(BusModel::driven8);
    reveal(BusModel::io_byte);
    reveal(BusModel::noted);
}

/// IF: a one that is written clears its bit, a zero leaves it.
pub proof fn law_if_ones_clear(b: BusModel, v: u16)
    requires
        b.wf(),
        b.io.len() > 0x203,
    ensures
        reg(b.write16(0x0400_0202, v), 0x202) == (reg(b, 0x202) & !v) & 0x3FFF,
{
    lemma_reg_addresses();
    lemma_regions(0x0400_0202);
    let x = (reg(b, 0x202) & !v) & 0x3FFF;
    lemma_le16_round_trip(x);
    reveal(BusModel::wf);
    reveal(BusModel::write16_at);
    reveal(BusModel::io16_written);
    reveal(BusModel::reg_written);
    reveal(BusModel::if_written);
    reveal(BusModel::write16_raw);
    reveal(BusModel::read16);
    reveal(BusModel::read8);
    reveal(BusModel::latched16);
    reveal(BusModel::cart_device8);
    reveal(BusModel::driven8);
    reveal(BusModel::io_byte);
    reveal(BusModel::noted);
}

/// Registers that a program may not write stay as they are.
pub proof fn law_read_only_registers(b: BusModel, off: u16, v: u16)
    requires
        off % 2 == 0,
        off != 0x300,
        !writable(off),
        !writable((off + 1) as u16),
    ensures
        b.reg_written(off, v) == b,
{
    reveal(BusModel::reg_written);
}

} // verus!
