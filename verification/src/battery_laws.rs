//! What the save chips promise.

use crate::battery::{
    be_byte, be_bytes, lemma_off16, with_be64, EepromFsm, EepromModel, FlashModel, EE_HEADER, EE_IDLE, EE_READ, EE_WRITE,
    FLASH_READY,
};
use crate::mem::byte_or;
use vstd::prelude::*;

verus! {

/// Bits that are sent, masked or set arrive as they are.
proof fn lemma_bits(v: u8, x: u64, c: u64)
    ensures
        0xFFu8 & v == v,
        v <= 1 ==> v & 1 == v,
        ((x & 1) as u16) & 1 == x & 1,
        1u16 & 1 == 1,
        0u16 & 1 == 0,
        c <= 1 ==> (((1u64 << 1) | 1) << 1) | c == 6 + c,
{
    assert(0xFFu8 & v == v && (v <= 1 ==> v & 1 == v) && ((x & 1) as u16) & 1 == (x & 1) as u16 && x & 1
        <= 1 && 1u16 & 1 == 1 && 0u16 & 1 == 0 && (c <= 1 ==> (((1u64 << 1) | 1) << 1) | c == 6 + c))
        by (bit_vector);
}

// ---- flash --------------------------------------------------------------

impl FlashModel {
    pub open spec fn is_ready(self) -> bool {
        self.mode == FLASH_READY && self.cmd_step == 0
    }

    /// The two unlock writes.
    pub open spec fn unlocked(self) -> FlashModel {
        self.write(0x5555, 0xAA).0.write(0x2AAA, 0x55).0
    }

    /// A command behind its unlock.
    pub open spec fn command(self, cmd: u8) -> FlashModel {
        self.unlocked().write(0x5555, cmd).0
    }
}

/// Address `a` within a 64K window.
pub open spec fn window(a: u32) -> int {
    ((a as usize) & 0xFFFF) as int
}

proof fn lemma_window(a: u32)
    ensures
        0 <= window(a) < 0x1_0000,
        window(0x5555) == 0x5555,
        window(0x2AAA) == 0x2AAA,
        a < 0x1_0000 ==> window(a) == a,
{
    let u = a as usize;
    lemma_off16(u);
}

/// A ready chip keeps its cells whatever byte is written to it: nothing is
/// stored without a command.
pub proof fn law_no_raw_write(f: FlashModel, a: u32, v: u8)
    requires
        f.is_ready(),
    ensures
        f.write(a, v).0.data == f.data,
        !f.write(a, v).1,
{
}

/// Program: the addressed cell loses the bits that are clear in the byte, every
/// other cell stays, and the chip is ready again.
pub proof fn law_program(f: FlashModel, a: u32, v: u8)
    requires
        f.is_ready(),
        f.base() + window(a) < f.data.len(),
    ensures
        ({
            let g = f.command(0xA0).write(a, v).0;
            let i = f.base() + window(a);
            g.is_ready() && g.data == f.data.update(i, f.data[i] & v) && g.bank == f.bank
        }),
{
    lemma_window(a);
}

/// A byte programmed into an erased cell reads back.
pub proof fn law_program_after_erase(f: FlashModel, a: u32, v: u8)
    requires
        f.is_ready(),
        f.base() + window(a) < f.data.len(),
        f.data[f.base() + window(a)] == 0xFF,
    ensures
        f.command(0xA0).write(a, v).0.read(a) == v,
{
    lemma_window(a);
    law_program(f, a, v);
    lemma_bits(v, 0, 0);
}

/// Chip erase sets every cell; it wants the unlock twice.
pub proof fn law_chip_erase(f: FlashModel)
    requires
        f.is_ready(),
    ensures
        ({
            let g = f.command(0x80).command(0x10);
            g.is_ready() && g.data.len() == f.data.len() && g.bank == f.bank && forall|i: int|
                0 <= i < f.data.len() ==> #[trigger] g.data[i] == 0xFF
        }),
{
    lemma_window(0);
}

/// Sector erase sets the 4K sector of the address in the selected bank and
/// nothing else.
pub proof fn law_sector_erase(f: FlashModel, a: u32)
    requires
        f.is_ready(),
    ensures
        ({
            let g = f.command(0x80).unlocked().write(a, 0x30).0;
            let lo = f.base() + ((a as usize) & 0xFFFF & !0xFFFusize);
            g.is_ready() && g.data.len() == f.data.len() && forall|i: int|
                0 <= i < f.data.len() ==> #[trigger] g.data[i] == if lo <= i < lo + 0x1000 {
                    0xFFu8
                } else {
                    f.data[i]
                }
        }),
{
    lemma_window(a);
}

/// Bank select: a 128K chip then shows the chosen 64K.
pub proof fn law_bank_select(f: FlashModel, a: u32, v: u8)
    requires
        f.is_ready(),
        f.data.len() == 0x2_0000,
        v <= 1,
    ensures
        f.command(0xB0).write(0, v).0.read(a) == f.data[v * 0x1_0000 + window(a)],
        f.command(0xB0).write(0, v).0.data == f.data,
{
    lemma_window(a);
    lemma_bits(v, 0, 0);
}

/// ID mode shows maker and device and goes away with F0; the cells stay.
pub proof fn law_id_mode(f: FlashModel, a: u32)
    requires
        f.is_ready(),
    ensures
        f.command(0x90).read(0) == f.manufacturer,
        f.command(0x90).read(1) == f.device,
        f.command(0x90).data == f.data,
        f.command(0x90).write(a, 0xF0).0 == f,
{
    lemma_window(0);
    lemma_window(1);
    lemma_window(a);
}

// ---- EEPROM -------------------------------------------------------------

/// Serial bits in, one after the other.
pub open spec fn fed(e: EepromModel, bits: Seq<u16>, n: nat) -> EepromModel
    decreases n,
{
    if n == 0 {
        e
    } else {
        fed(e, bits, (n - 1) as nat).bit_in(bits[n - 1])
    }
}

/// A command: start bit, two command bits, `w` address bits from the top.
pub open spec fn header(w: nat, read: bool, a: u64) -> Seq<u16> {
    Seq::new(
        w + 3,
        |i: int|
            if i == 2 && !read {
                0u16
            } else if i < 3 {
                1u16
            } else {
                ((a >> ((w + 2 - i) as u64)) & 1) as u16
            },
    )
}

/// 64 data bits, from the top.
pub open spec fn data_bits(v: u64) -> Seq<u16> {
    Seq::new(64, |i: int| ((v >> ((63 - i) as u64)) & 1) as u16)
}

/// One address bit more behind the command bits, and the whole header.
proof fn lemma_header_bits(c: u64, a: u64, j: u64, s: u64)
    requires
        c == 6 || c == 7,
        j < 14,
        s < 14,
        a < 0x4000,
    ensures
        (((c << j) | (a >> ((s + 1) as u64))) << 1) | ((a >> s) & 1) == (c << ((j + 1) as u64)) | (a >> s),
        (c << 0u64) | (a >> 14u64) == c,
        a < 64 ==> (c << 0u64) | (a >> 6u64) == c,
        a >> 0u64 == a,
        (((c << 14u64) | a) >> 14) & 3 == c - 4,
        ((c << 14u64) | a) & 0x3FFF == a,
        a < 64 ==> (((c << 6u64) | a) >> 6) & 3 == c - 4,
        a < 64 ==> ((c << 6u64) | a) & 63 == a,
        1u64 << 14 == 0x4000,
        1u64 << 6 == 64,
{
    let s1: u64 = (s + 1) as u64;
    let j1: u64 = (j + 1) as u64;
    assert((((c << j) | (a >> s1)) << 1) | ((a >> s) & 1) == (c << j1) | (a >> s) && (c << 0u64) | (a
        >> 14u64) == c && (a < 64 ==> (c << 0u64) | (a >> 6u64) == c) && a >> 0u64 == a && (((c << 14u64) | a)
        >> 14) & 3 == c - 4 && ((c << 14u64) | a) & 0x3FFF == a && (a < 64 ==> (((c << 6u64) | a) >> 6) & 3 == c - 4)
        && (a < 64 ==> ((c << 6u64) | a) & 63 == a) && 1u64 << 14 == 0x4000 && 1u64 << 6 == 64) by (bit_vector)
        requires
            c == 6 || c == 7,
            j < 14,
            s < 14,
            a < 0x4000,
            s1 == s + 1,
            j1 == j + 1,
    ;
}

/// How far `w` address bits reach.
pub open spec fn reach(w: nat) -> u64 {
    if w == 6 {
        64
    } else {
        0x4000
    }
}

/// The chip is idle and takes `w` address bits.
pub open spec fn awaits(e: EepromModel, w: nat) -> bool {
    e.fsm.phase == EE_IDLE && e.fsm.addr_bits == w && (w == 6 || w == 14)
}

/// The chip after the first bits of a header that is not complete.
proof fn lemma_partial(e: EepromModel, w: nat, v: nat, read: bool, a: u64, k: nat)
    requires
        awaits(e, w),
        v == 6 || v == 14,
        v <= w,
        a < reach(v),
        3 <= k <= v + 3,
        k < w + 3,
    ensures
        ({
            let r = fed(e, header(v, read, a), k);
            let c: u64 = if read { 7 } else { 6 };
            &&& r.data == e.data
            &&& r.fsm == (EepromFsm {
                phase: EE_HEADER,
                bit_count: k as u8,
                bits: (c << ((k - 3) as u64)) | (a >> ((v + 3 - k) as u64)),
                ..e.fsm
            })
        }),
    decreases k,
{
    let h = header(v, read, a);
    let c: u64 = if read { 7 } else { 6 };
    lemma_bits(0, 0, c);
    if k == 3 {
        lemma_header_bits(c, a, 0, 0);
        reveal_with_fuel(fed, 4);
        lemma_bits(0, 0, if read { 1 } else { 0 });
        assert(h[0] == 1 && h[1] == 1 && h[2] == if read { 1u16 } else { 0 });
        assert(fed(e, h, 1).fsm.bits == 1);
        assert(fed(e, h, 2).fsm.bits == (1u64 << 1) | 1);
    } else {
        lemma_partial(e, w, v, read, a, (k - 1) as nat);
        let s: u64 = (v + 3 - k) as u64;
        lemma_bits(0, a >> s, 0);
        lemma_header_bits(c, a, (k - 4) as u64, s);
        assert(h[k - 1] == ((a >> s) & 1) as u16);
    }
}

proof fn lemma_header(e: EepromModel, w: nat, read: bool, a: u64)
    requires
        awaits(e, w),
        a < reach(w),
    ensures
        ({
            let r = fed(e, header(w, read, a), w + 3);
            &&& r.data == e.data
            &&& r.fsm.addr_bits == w
            &&& r.fsm.write_addr == a
            &&& r.fsm.bit_count == 0
            &&& if read {
                r.fsm.phase == EE_READ && r.fsm.read_left == 68 && r.fsm.read_stream == be_bytes(
                    e.data,
                    a * 8,
                    8,
                ) as u128
            } else {
                r.fsm.phase == EE_WRITE && r.fsm.write_buf == 0
            }
        }),
{
    let c: u64 = if read { 7 } else { 6 };
    let h = header(w, read, a);
    lemma_partial(e, w, w, read, a, w + 2);
    lemma_bits(0, a, 0);
    lemma_header_bits(c, a, (w - 1) as u64, 0);
    assert(h[(w + 2) as int] == ((a >> 0u64) & 1) as u16);
}

proof fn lemma_push_bit(v: u64, k: u64)
    requires
        k < 64,
    ensures
        k > 0 ==> ((v >> ((64 - k) as u64)) << 1) | ((v >> ((63 - k) as u64)) & 1) == v >> ((63 - k) as u64),
        (0u64 << 1) | ((v >> 63u64) & 1) == v >> 63u64,
        v >> 0u64 == v,
{
    let s: u64 = (63 - k) as u64;
    let t: u64 = (64 - k) as u64;
    assert((s < 63 ==> ((v >> t) << 1) | ((v >> s) & 1) == v >> s) && (0u64 << 1) | ((v >> 63u64) & 1) == v
        >> 63u64 && v >> 0u64 == v) by (bit_vector)
        requires
            s < 64,
            t == s + 1,
    ;
}

proof fn lemma_data(e: EepromModel, v: u64, k: nat)
    requires
        e.fsm.phase == EE_WRITE,
        e.fsm.bit_count == 0,
        e.fsm.write_buf == 0,
        k <= 64,
    ensures
        ({
            let r = fed(e, data_bits(v), k);
            &&& r.fsm.addr_bits == e.fsm.addr_bits
            &&& k < 64 ==> {
                &&& r.data == e.data
                &&& r.fsm.phase == EE_WRITE
                &&& r.fsm.bit_count == k
                &&& r.fsm.write_addr == e.fsm.write_addr
                &&& r.fsm.write_buf == if k == 0 {
                    0
                } else {
                    v >> ((64 - k) as u64)
                }
            }
            &&& k == 64 ==> {
                &&& r.data == with_be64(e.data, e.fsm.write_addr * 8, v)
                &&& r.fsm.phase == EE_IDLE
                &&& r.fsm.dirty
            }
        }),
    decreases k,
{
    if k > 0 {
        let j = (k - 1) as nat;
        lemma_data(e, v, j);
        lemma_push_bit(v, j as u64);
        lemma_bits(0, v >> ((63 - j) as u64), 0);
        assert(data_bits(v)[j as int] == ((v >> ((63 - j) as u64)) & 1) as u16);
    }
}

/// Eight bytes stored big-endian read back as the number.
proof fn lemma_be64(d: Seq<u8>, off: int, v: u64)
    requires
        0 <= off,
        off + 8 <= d.len(),
    ensures
        be_bytes(with_be64(d, off, v), off, 8) == v,
{
    let w = with_be64(d, off, v);
    reveal_with_fuel(be_bytes, 9);
    let (b0, b1, b2, b3) = (be_byte(v, 0), be_byte(v, 1), be_byte(v, 2), be_byte(v, 3));
    let (b4, b5, b6, b7) = (be_byte(v, 4), be_byte(v, 5), be_byte(v, 6), be_byte(v, 7));
    assert(w[off] == b0 && w[off + 1] == b1 && w[off + 2] == b2 && w[off + 3] == b3);
    assert(w[off + 4] == b4 && w[off + 5] == b5 && w[off + 6] == b6 && w[off + 7] == b7);
    let c1: u64 = (0u64 << 8) | (b0 as u64);
    let c2: u64 = (c1 << 8) | (b1 as u64);
    let c3: u64 = (c2 << 8) | (b2 as u64);
    let c4: u64 = (c3 << 8) | (b3 as u64);
    let c5: u64 = (c4 << 8) | (b4 as u64);
    let c6: u64 = (c5 << 8) | (b5 as u64);
    let c7: u64 = (c6 << 8) | (b6 as u64);
    let c8: u64 = (c7 << 8) | (b7 as u64);
    assert(be_bytes(w, off, 8) == c8);
    assert(c8 == v) by (bit_vector)
        requires
            c1 == (0u64 << 8) | (b0 as u64),
            c2 == (c1 << 8) | (b1 as u64),
            c3 == (c2 << 8) | (b2 as u64),
            c4 == (c3 << 8) | (b3 as u64),
            c5 == (c4 << 8) | (b4 as u64),
            c6 == (c5 << 8) | (b5 as u64),
            c7 == (c6 << 8) | (b6 as u64),
            c8 == (c7 << 8) | (b7 as u64),
            b0 == ((v >> 56u64) & 0xFF) as u8,
            b1 == ((v >> 48u64) & 0xFF) as u8,
            b2 == ((v >> 40u64) & 0xFF) as u8,
            b3 == ((v >> 32u64) & 0xFF) as u8,
            b4 == ((v >> 24u64) & 0xFF) as u8,
            b5 == ((v >> 16u64) & 0xFF) as u8,
            b6 == ((v >> 8u64) & 0xFF) as u8,
            b7 == ((v >> 0u64) & 0xFF) as u8,
    ;
}

/// The chip after `n` bits were read from it.
pub open spec fn drained(e: EepromModel, n: nat) -> EepromModel
    decreases n,
{
    if n == 0 {
        e
    } else {
        drained(e, (n - 1) as nat).bit_out().0
    }
}

proof fn lemma_drained(e: EepromModel, n: nat)
    requires
        e.fsm.phase == EE_READ,
        e.fsm.read_left == 68,
    ensures
        drained(e, n).data == e.data,
        n < 68 ==> drained(e, n).fsm.phase == EE_READ,
        n < 68 ==> drained(e, n).fsm.read_left == 68 - n,
        n < 68 ==> drained(e, n).fsm.read_stream == e.fsm.read_stream,
        n >= 68 ==> drained(e, n).fsm.phase == EE_IDLE,
    decreases n,
{
    if n > 0 {
        lemma_drained(e, (n - 1) as nat);
    }
}

/// Bit `i` of the eight bytes at `off`, counted from the top of the first;
/// cells past the end read FF.
pub open spec fn cell_bit(data: Seq<u8>, off: int, i: int) -> u16 {
    ((byte_or(data, off + i / 8, 0xFF) >> ((7 - i % 8) as u8)) & 1) as u16
}

proof fn lemma_cell_bit(d: Seq<u8>, off: int, i: int)
    requires
        0 <= i < 64,
    ensures
        (((be_bytes(d, off, 8) as u128) >> ((63 - i) as u128)) & 1) as u16 == cell_bit(d, off, i),
{
    reveal_with_fuel(be_bytes, 9);
    let (b0, b1) = (byte_or(d, off, 0xFF), byte_or(d, off + 1, 0xFF));
    let (b2, b3) = (byte_or(d, off + 2, 0xFF), byte_or(d, off + 3, 0xFF));
    let (b4, b5) = (byte_or(d, off + 4, 0xFF), byte_or(d, off + 5, 0xFF));
    let (b6, b7) = (byte_or(d, off + 6, 0xFF), byte_or(d, off + 7, 0xFF));
    let c1: u64 = (0u64 << 8) | (b0 as u64);
    let c2: u64 = (c1 << 8) | (b1 as u64);
    let c3: u64 = (c2 << 8) | (b2 as u64);
    let c4: u64 = (c3 << 8) | (b3 as u64);
    let c5: u64 = (c4 << 8) | (b4 as u64);
    let c6: u64 = (c5 << 8) | (b5 as u64);
    let c7: u64 = (c6 << 8) | (b6 as u64);
    let c8: u64 = (c7 << 8) | (b7 as u64);
    assert(be_bytes(d, off, 8) == c8);
    let q: u8 = (i / 8) as u8;
    let m: u8 = (7 - i % 8) as u8;
    let s: u128 = (63 - i) as u128;
    let b: u8 = byte_or(d, off + i / 8, 0xFF);
    assert((((c8 as u128) >> s) & 1) as u16 == ((b >> m) & 1) as u16) by (bit_vector)
        requires
            c1 == (0u64 << 8) | (b0 as u64),
            c2 == (c1 << 8) | (b1 as u64),
            c3 == (c2 << 8) | (b2 as u64),
            c4 == (c3 << 8) | (b3 as u64),
            c5 == (c4 << 8) | (b4 as u64),
            c6 == (c5 << 8) | (b5 as u64),
            c7 == (c6 << 8) | (b6 as u64),
            c8 == (c7 << 8) | (b7 as u64),
            q < 8,
            m < 8,
            s == 56 - q * 8 + m,
            q == 0 ==> b == b0,
            q == 1 ==> b == b1,
            q == 2 ==> b == b2,
            q == 3 ==> b == b3,
            q == 4 ==> b == b4,
            q == 5 ==> b == b5,
            q == 6 ==> b == b6,
            q == 7 ==> b == b7,
    ;
}

/// A read command gives out the cells at its address as they stand: four zeros,
/// then the 64 bits of eight bytes from the top, then ones. Nothing is changed.
pub proof fn law_eeprom_reads_out(e: EepromModel, w: nat, a: u64)
    requires
        awaits(e, w),
        a < reach(w),
    ensures
        ({
            let r = fed(e, header(w, true, a), w + 3);
            forall|n: nat|
                {
                    &&& (#[trigger] drained(r, n)).data == e.data
                    &&& drained(r, n).bit_out().0.data == e.data
                    &&& drained(r, n).bit_out().1 == if n < 4 {
                        0
                    } else if n < 68 {
                        cell_bit(e.data, a * 8, n - 4)
                    } else {
                        1
                    }
                }
        }),
{
    lemma_header(e, w, true, a);
    let r = fed(e, header(w, true, a), w + 3);
    assert forall|n: nat|
        {
            &&& (#[trigger] drained(r, n)).data == e.data
            &&& drained(r, n).bit_out().0.data == e.data
            &&& drained(r, n).bit_out().1 == if n < 4 {
                0
            } else if n < 68 {
                cell_bit(e.data, a * 8, n - 4)
            } else {
                1
            }
        } by {
        lemma_drained(r, n);
        lemma_drained(r, n + 1);
        assert(drained(r, n + 1) == drained(r, n).bit_out().0);
        if 4 <= n < 68 {
            lemma_cell_bit(e.data, a * 8, n - 4);
        }
    }
}

/// Eight bytes written over the serial line are stored at their address, and a
/// read gives them back: four zeros, then the 64 bits from the top.
pub proof fn law_eeprom_reads_back(e: EepromModel, w: nat, a: u64, v: u64)
    requires
        awaits(e, w),
        a < reach(w),
        a * 8 + 8 <= e.data.len(),
    ensures
        ({
            let s = fed(fed(e, header(w, false, a), w + 3), data_bits(v), 64);
            let r = fed(s, header(w, true, a), w + 3);
            &&& s.data == with_be64(e.data, a * 8, v)
            &&& s.fsm.dirty
            &&& awaits(s, w)
            &&& r.data == s.data
            &&& forall|n: nat|
                n < 68 ==> (#[trigger] drained(r, n)).bit_out().1 == if n < 4 {
                    0
                } else {
                    (v >> ((67 - n) as u64)) & 1
                }
        }),
{
    lemma_header(e, w, false, a);
    let h = fed(e, header(w, false, a), w + 3);
    lemma_data(h, v, 64);
    let s = fed(h, data_bits(v), 64);
    lemma_header(s, w, true, a);
    lemma_be64(e.data, a * 8, v);
    let r = fed(s, header(w, true, a), w + 3);
    assert forall|n: nat| n < 68 implies (#[trigger] drained(r, n)).bit_out().1 == if n < 4 {
        0
    } else {
        (v >> ((67 - n) as u64)) & 1
    } by {
        lemma_drained(r, n);
        if n >= 4 {
            let s: u64 = (67 - n) as u64;
            let t: u128 = s as u128;
            assert((((v as u128) >> t) & 1) as u16 == ((v >> s) & 1) as u16 && (v >> s) & 1 <= 1)
                by (bit_vector)
                requires
                    s < 64,
                    t == s as u128,
            ;
        }
    }
}

/// A header of nine bits narrows an 8K chip as soon as the game turns to
/// reading, which then gives out the cells of the short address.
pub proof fn law_short_read_narrows(e: EepromModel, a: u64)
    requires
        awaits(e, 14),
        a < 64,
    ensures
        ({
            let r = fed(e, header(6, true, a), 9).settled();
            &&& r.data == e.data
            &&& r.fsm.addr_bits == 6
            &&& r.fsm.phase == EE_READ && r.fsm.read_left == 68
            &&& r.fsm.read_stream == be_bytes(e.data, a * 8, 8) as u128
            &&& fed(e, header(6, true, a), 9).bit_out() == r.bit_out()
        }),
{
    lemma_partial(e, 14, 6, true, a, 9);
    lemma_header_bits(7, a, 0, 0);
}

/// A write of 73 bits, with a stop bit behind it or without, stores its eight
/// bytes at the short address of an 8K chip as soon as the game turns to reading.
pub proof fn law_short_write_narrows(e: EepromModel, a: u64, v: u64, stop: bool)
    requires
        awaits(e, 14),
        a < 64,
    ensures
        ({
            let s = header(6, false, a) + data_bits(v) + seq![0u16];
            let (r, bit) = fed(e, s, if stop { 74 } else { 73 }).bit_out();
            &&& r.data == with_be64(e.data, a * 8, v)
            &&& r.fsm.dirty
            &&& awaits(r, 6)
            &&& bit == 1
        }),
{
    let s = header(6, false, a) + data_bits(v) + seq![0u16];
    let top: u64 = v >> 56;
    let long: u64 = (a << 8) | top;
    let rest: u64 = v << 8;
    let h = header(14, false, long);
    let d = data_bits(rest);
    lemma_split(a, v, 0);
    assert forall|i: int| 0 <= i < 17 implies s[i] == h[i] by {
        if 3 <= i {
            lemma_split(a, v, (16 - i) as u64);
        }
    }
    assert forall|i: int| 17 <= i < 73 implies s[i] == d[i - 17] by {
        lemma_split(a, v, (72 - i) as u64);
    }
    lemma_fed_prefix(e, s, h, 17);
    lemma_header(e, 14, false, long);
    let f = fed(e, h, 17);
    lemma_fed_tail(e, s, d, 17, 56);
    lemma_data(f, rest, 56);
    let r = fed(e, s, 73);
    assert(r == fed(f, d, 56));
    assert(fed(e, s, 74) == r.bit_in(0u16));
    lemma_bits(0, 0, 0);
}

/// The short header and the first eight data bits, as a long header.
proof fn lemma_split(a: u64, v: u64, k: u64)
    requires
        a < 64,
        k < 64,
    ensures
        ((a << 8) | (v >> 56)) < 0x4000,
        k < 8 ==> (((a << 8) | (v >> 56)) >> k) & 1 == (v >> ((56 + k) as u64)) & 1,
        8 <= k < 14 ==> (((a << 8) | (v >> 56)) >> k) & 1 == (a >> ((k - 8) as u64)) & 1,
        k < 56 ==> ((v << 8) >> ((k + 8) as u64)) & 1 == (v >> k) & 1,
        ((((a << 8) | (v >> 56)) as u16) as u64) << 56 | ((v << 8) >> 8u64) == v,
        (((a << 8) | (v >> 56)) as u16) >> 8 == a,
        ((((v << 8) >> 8u64) << 1) | 0) >> 1 == (v << 8) >> 8u64,
        (((v << 8) >> 8u64) << 1 | 0) & 1 == 0,
{
    let k8: u64 = if k < 56 { (k + 8) as u64 } else { 0 };
    let k56: u64 = if k < 8 { (k + 56) as u64 } else { 0 };
    let km: u64 = if 8 <= k { (k - 8) as u64 } else { 0 };
    assert(((a << 8) | (v >> 56)) < 0x4000 && (k < 8 ==> (((a << 8) | (v >> 56)) >> k) & 1 == (v >> k56) & 1)
        && (8 <= k && k < 14 ==> (((a << 8) | (v >> 56)) >> k) & 1 == (a >> km) & 1) && (k < 56 ==> ((v << 8)
        >> k8) & 1 == (v >> k) & 1) && ((((a << 8) | (v >> 56)) as u16) as u64) << 56 | ((v << 8) >> 8u64) == v
        && (((a << 8) | (v >> 56)) as u16) >> 8 == a && ((((v << 8) >> 8u64) << 1) | 0) >> 1 == (v << 8) >> 8u64
        && (((v << 8) >> 8u64) << 1 | 0) & 1 == 0) by (bit_vector)
        requires
            a < 64,
            k < 64,
            k < 56 ==> k8 == k + 8,
            k < 8 ==> k56 == k + 56,
            8 <= k ==> km == k - 8,
    ;
}

proof fn lemma_fed_prefix(e: EepromModel, s: Seq<u16>, t: Seq<u16>, n: nat)
    requires
        forall|i: int| 0 <= i < n ==> s[i] == t[i],
    ensures
        fed(e, s, n) == fed(e, t, n),
    decreases n,
{
    if n > 0 {
        lemma_fed_prefix(e, s, t, (n - 1) as nat);
    }
}

proof fn lemma_fed_tail(e: EepromModel, s: Seq<u16>, t: Seq<u16>, m: nat, n: nat)
    requires
        forall|i: int| m <= i < m + n ==> s[i] == t[i - m],
    ensures
        fed(e, s, m + n) == fed(fed(e, s, m), t, n),
    decreases n,
{
    if n > 0 {
        assert(s[m + n - 1] == t[n - 1]);
        lemma_fed_tail(e, s, t, m, (n - 1) as nat);
    }
}

} // verus!
