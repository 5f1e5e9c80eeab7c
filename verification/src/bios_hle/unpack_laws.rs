//! What the unpacking services leave in memory.

use crate::bios_hle::decomp::{byte_out, Unpack};
use crate::bios_hle::filters::{sums16, sums8};
use crate::bits::{law_parts_are_digits, lemma_address_digits, lemma_merge};
use crate::bus::map_laws::{cell, is_ram, law_byte_read, law_byte_written, law_half_read, place};
use crate::bus::model::{vram_at, BusModel};
use vstd::prelude::*;

verus! {

/// A byte unpacked to work RAM or VRAM lies at its address, reads back from
/// there, and leaves every other byte alone, the other half of its halfword
/// too.
pub proof fn law_unpacked_byte(b: BusModel, a: u32, v: u8, to_vram: bool, c: int)
    requires
        b.mapped(),
        a as int / 0x100_0000 == 6 || (!to_vram && 2 <= a as int / 0x100_0000 <= 3),
        is_ram(c),
    ensures
        ({
            let t = byte_out(b, a, v, to_vram);
            &&& t.mapped()
            &&& t.read8(a).1 == v
            &&& place(c) == place(a as int) ==> cell(t, c) == v
            &&& place(c) != place(a as int) ==> cell(t, c) == cell(b, c)
            &&& place(c) != place(a as int) ==> t.read8(c as u32).1 == b.read8(c as u32).1
        }),
{
    let t = byte_out(b, a, v, to_vram);
    lemma_address_digits(a);
    if a as int / 0x100_0000 == 6 {
        lemma_video_byte(b, a, v, to_vram);
        let i = place(a as int).1;
        lemma_video_place(a);
    } else {
        reveal(byte_out);
        law_byte_written(b, a, v, c);
        law_byte_written(b, a, v, a as int);
    }
    law_byte_read(t, a);
    law_byte_read(t, c as u32);
    law_byte_read(b, c as u32);
}

proof fn lemma_video_place(a: u32)
    requires
        a as int / 0x100_0000 == 6,
    ensures
        is_ram(a as int),
        place(a as int).0 == 6,
        0 <= place(a as int).1 < 0x1_8000,
{
}

proof fn lemma_video_byte(b: BusModel, a: u32, v: u8, to_vram: bool)
    requires
        b.mapped(),
        a as int / 0x100_0000 == 6,
    ensures
        ({
            let t = byte_out(b, a, v, to_vram);
            &&& t.vram =~= b.vram.update(place(a as int).1, v)
            &&& t.ewram == b.ewram && t.iwram == b.iwram && t.pal == b.pal && t.oam == b.oam
        }),
{
    let e = (a - a as int % 2) as u32;
    assert(a & !1u32 == e && a >> 24 == 6 && a & 1 == a as int % 2) by {
        lemma_address_digits(a);
    }
    assert(vram_at(e) == place(e as int).1) by {
        lemma_address_digits(e);
    }
    crate::bits::lemma_next_bytes(e);
    assert(e as int / 0x100_0000 == 6 && e as int % 2 == 0);
    law_half_read(b, e);
    let (s, cur) = b.read16(e);
    let o = place(e as int).1;
    assert(place(e + 1) == (6int, o + 1));
    assert(cur == b.vram[o] + 0x100 * b.vram[o + 1]);
    lemma_merge(cur, v, 0);
    let lo = (cur & 0xFF00) | (v as u16);
    let hi = (cur & 0x00FF) | ((v as u16) << 8);
    law_parts_are_digits(lo, 0);
    law_parts_are_digits(hi, 0);
    reveal(byte_out);
    let t = byte_out(b, a, v, to_vram);
    if a as int % 2 == 0 {
        assert(a == e);
        assert(t.vram =~= b.vram.update(o, v));
    } else {
        assert(a == e + 1);
        assert(t.vram =~= b.vram.update(o + 1, v));
    }
}

// ---- LZ77 ---------------------------------------------------------------

/// A literal is the next byte of the stream: it reads back from the next
/// address of the destination, in VRAM as in work RAM, and both positions move
/// on by one. So literals come out as they went in, in order.
pub proof fn law_literal_copies(u: Unpack, size: u32, to_vram: bool, keep: bool)
    requires
        u.b.mapped(),
        is_ram(u.s as int),
        u.d as int / 0x100_0000 == 6 || (!to_vram && 2 <= u.d as int / 0x100_0000 <= 3),
    ensures
        ({
            let t = u.token(false, size, to_vram, keep);
            &&& t.b.read8(u.d).1 == u.b.read8(u.s).1
            &&& t.s == (u.s + 1) % 0x1_0000_0000
            &&& t.d == (u.d + 1) % 0x1_0000_0000
            &&& u.written < u32::MAX ==> t.written == u.written + 1
            &&& t.window == if keep { u.window.push(u.b.read8(u.s).1) } else { u.window }
        }),
{
    let (h, v) = u.get();
    law_byte_read(u.b, u.s);
    law_unpacked_byte(h.b, h.d, v, to_vram, 0x0200_0000);
    reveal(Unpack::token);
    reveal(Unpack::put);
}

/// While flags are left the highest goes first, a clear one for a literal; with
/// none left the next byte brings eight.
pub proof fn law_flags_in_order(u: Unpack, flags: u8, bits: u8, size: u32, to_vram: bool, keep: bool, fuel: nat)
    requires
        u.written < size,
        fuel > 0,
        bits <= 8,
    ensures
        bits > 0 ==> u.lz77(flags, bits, size, to_vram, keep, fuel) == u.token(
            flags & (1u8 << ((bits - 1) as u8)) != 0,
            size,
            to_vram,
            keep,
        ).lz77(flags, (bits - 1) as u8, size, to_vram, keep, (fuel - 1) as nat),
        bits == 0 ==> u.lz77(flags, 0, size, to_vram, keep, fuel) == u.get().0.lz77(
            u.get().1,
            8,
            size,
            to_vram,
            keep,
            fuel,
        ) || u.get().0.written >= size,
{
    reveal_with_fuel(Unpack::lz77, 2);
}

/// A reference is two bytes: the high nibble of the first plus three is its
/// length; the low nibble and the second byte plus one, how far back.
pub proof fn law_reference_format(u: Unpack, size: u32, to_vram: bool, keep: bool)
    ensures
        ({
            let (v, b0) = u.get();
            let (w, b1) = v.get();
            u.token(true, size, to_vram, keep) == w.repeated(
                256 * (b0 as int % 16) + b1 + 1,
                (b0 as int / 16 + 3) as nat,
                size,
                to_vram,
                keep,
            )
        }),
{
    reveal(Unpack::token);
    let (v, b0) = u.get();
    let (w, b1) = v.get();
    lemma_merge(0, b0, b1);
}

// ---- differences --------------------------------------------------------

/// Each byte of a difference filter is the one before it plus its delta: the
/// running value after one more byte grows by the byte read, as a byte, and is
/// what is written at the next address.
pub proof fn law_byte_sums_grow(b: BusModel, s: u32, d: u32, to_vram: bool, n: nat)
    requires
        n < 0x100_0000,
    ensures
        sums8(b, s, d, to_vram, 0).1 == 0,
        ({
            let (t, acc) = sums8(b, s, d, to_vram, n);
            let (u, delta) = t.read8(((s + n) % 0x1_0000_0000) as u32);
            let (x, next) = sums8(b, s, d, to_vram, n + 1);
            &&& next == (acc + delta) % 0x100
            &&& x == byte_out(u, ((d + n) % 0x1_0000_0000) as u32, next, to_vram)
        }),
{
    let m = n + 1;
    assert((m - 1) as nat == n);
    assert(s.wrapping_add(n as u32) == (s + n) % 0x1_0000_0000);
    assert(d.wrapping_add(n as u32) == (d + n) % 0x1_0000_0000);
}

/// The same by halfwords.
pub proof fn law_half_sums_grow(b: BusModel, s: u32, d: u32, n: nat)
    requires
        n < 0x100_0000,
    ensures
        sums16(b, s, d, 0).1 == 0,
        ({
            let (t, acc) = sums16(b, s, d, n);
            let (u, delta) = t.read16(((s + 2 * n) % 0x1_0000_0000) as u32);
            let (x, next) = sums16(b, s, d, n + 1);
            &&& next == (acc + delta) % 0x1_0000
            &&& x == u.write16(((d + 2 * n) % 0x1_0000_0000) as u32, next)
        }),
{
    let m = n + 1;
    assert((m - 1) as nat == n);
    assert(s.wrapping_add((2 * n) as u32) == (s + 2 * n) % 0x1_0000_0000);
    assert(d.wrapping_add((2 * n) as u32) == (d + 2 * n) % 0x1_0000_0000);
}

} // verus!
