//! Which bytes a transfer moves, and how it ends.

use crate::bits::{digit, lemma_address_digits, lemma_and16, lemma_digits16};
use crate::bus::map_laws::{
    cell, is_ram, law_half_read, law_half_written, law_word_read, law_word_written, place,
};
use crate::bus::model::BusModel;
use crate::bus::unfold::{lemma_moved, lemma_transferred};
use crate::dma::{adjusted, full_count, Channel};
use vstd::prelude::*;

verus! {

/// The state, source and destination of a transfer after `k` units.
pub open spec fn run(b: BusModel, depth: nat, ch: int, c: Channel, k: nat) -> (BusModel, u32, u32) {
    b.moved(depth, c.wide(ch), c.planned(ch).src, c.planned(ch).dst, c.src_mode(), c.dst_mode(ch), k)
}

/// The channel feeds a sound FIFO: channel 1 or 2 with start timing 3.
pub open spec fn feeds(ch: int, c: Channel) -> bool {
    (ch == 1 || ch == 2) && digit(c.ctrl as int, 0x1000, 4) == 3
}

/// Bytes of one unit.
pub open spec fn unit_size(ch: int, c: Channel) -> int {
    if feeds(ch, c) || digit(c.ctrl as int, 0x400, 2) == 1 {
        4
    } else {
        2
    }
}

/// What an address moves by for each unit in an address mode: up, down, not at
/// all, up.
pub open spec fn stride(mode: int, size: int) -> int {
    if mode == 1 {
        -size
    } else if mode == 2 {
        0
    } else {
        size
    }
}

/// Where unit `k` is read.
pub open spec fn source_at(ch: int, c: Channel, k: nat) -> int {
    (c.src + stride(digit(c.ctrl as int, 0x80, 4), unit_size(ch, c)) * k) % 0x1_0000_0000
}

/// Where unit `k` is written. A FIFO is one address.
pub open spec fn target_at(ch: int, c: Channel, k: nat) -> int {
    if feeds(ch, c) {
        if ch == 1 {
            0x0400_00A0
        } else {
            0x0400_00A4
        }
    } else {
        (c.dst + stride(digit(c.ctrl as int, 0x20, 4), unit_size(ch, c)) * k) % 0x1_0000_0000
    }
}

proof fn lemma_control(ch: int, c: Channel)
    ensures
        c.wide(ch) == (unit_size(ch, c) == 4),
        c.feeds_fifo(ch) == feeds(ch, c),
        c.src_mode() == digit(c.ctrl as int, 0x80, 4),
        !feeds(ch, c) ==> c.dst_mode(ch) == digit(c.ctrl as int, 0x20, 4),
        feeds(ch, c) ==> c.dst_mode(ch) == 2,
        c.timing() == digit(c.ctrl as int, 0x1000, 4),
        (c.ctrl & 0x8000 != 0) == (digit(c.ctrl as int, 0x8000, 2) == 1),
        (c.ctrl & 0x4000 != 0) == (digit(c.ctrl as int, 0x4000, 2) == 1),
        (c.ctrl & 0x200 != 0) == (digit(c.ctrl as int, 0x200, 2) == 1),
{
    lemma_digits16(c.ctrl);
}

/// Unit `k` is read from the source plus, minus or exactly `k` steps (mode 0, 1
/// or 2), and written to the destination likewise. So a fixed source is read
/// from one address throughout.
pub proof fn law_transfer_addresses(b: BusModel, depth: nat, ch: int, c: Channel, k: nat)
    ensures
        run(b, depth, ch, c, k).1 == source_at(ch, c, k),
        run(b, depth, ch, c, k).2 == target_at(ch, c, k),
        digit(c.ctrl as int, 0x80, 4) == 2 ==> run(b, depth, ch, c, k).1 == c.src,
    decreases k,
{
    lemma_control(ch, c);
    let p = c.planned(ch);
    let sd = stride(digit(c.ctrl as int, 0x80, 4), unit_size(ch, c));
    let dd = stride(digit(c.ctrl as int, 0x20, 4), unit_size(ch, c));
    if k == 0 {
        lemma_moved(b, depth, c.wide(ch), p.src, p.dst, c.src_mode(), c.dst_mode(ch), 1);
        assert(sd * k == 0 && dd * k == 0) by (nonlinear_arith)
            requires
                k == 0,
        ;
    } else {
        let m = (k - 1) as nat;
        law_transfer_addresses(b, depth, ch, c, m);
        lemma_moved(b, depth, c.wide(ch), p.src, p.dst, c.src_mode(), c.dst_mode(ch), m);
        let (s, x, y) = run(b, depth, ch, c, m);
        let step: u32 = if c.wide(ch) { 4 } else { 2 };
        assert(run(b, depth, ch, c, k).1 == adjusted(x, c.src_mode(), step));
        assert(run(b, depth, ch, c, k).2 == adjusted(y, c.dst_mode(ch), step));
        lemma_step(c.src as int, sd, k);
        lemma_step(c.dst as int, dd, k);
        assert(adjusted(x, c.src_mode(), step) == (x + sd) % 0x1_0000_0000);
        assert(!feeds(ch, c) ==> adjusted(y, c.dst_mode(ch), step) == (y + dd) % 0x1_0000_0000);
    }
    if digit(c.ctrl as int, 0x80, 4) == 2 {
        assert(sd * k == 0) by (nonlinear_arith)
            requires
                sd == 0,
        ;
    }
}

proof fn lemma_step(a: int, d: int, k: nat)
    requires
        k > 0,
        -4 <= d <= 4,
    ensures
        (a + d * k) % 0x1_0000_0000 == ((a + d * (k - 1)) % 0x1_0000_0000 + d) % 0x1_0000_0000,
{
    assert(d * k == d * (k - 1) + d) by (nonlinear_arith);
    vstd::arithmetic::div_mod::lemma_add_mod_noop(a + d * (k - 1), d, 0x1_0000_0000);
    vstd::arithmetic::div_mod::lemma_add_mod_noop((a + d * (k - 1)) % 0x1_0000_0000, d, 0x1_0000_0000);
}

/// An enabled channel moves its count of units, at least one, a FIFO channel
/// four.
pub proof fn law_transfer_length(b: BusModel, depth: nat, ch: int, c: Channel)
    requires
        digit(c.ctrl as int, 0x8000, 2) == 1,
    ensures
        ({
            let n: nat = if feeds(ch, c) { 4 } else if c.count == 0 { 1 } else { c.count as nat };
            let (s, src, dst) = run(b, depth, ch, c, n);
            b.transferred(depth, ch, c) == s.finished(ch, c, src, dst)
        }),
{
    lemma_control(ch, c);
    lemma_transferred(b, depth, ch, c);
}

/// One unit from RAM to RAM: the bytes of the aligned source stand in the
/// aligned destination, and nothing else changes.
proof fn lemma_unit(b: BusModel, depth: nat, word: bool, a: u32, d: u32, c: int)
    requires
        b.mapped(),
        is_ram(a as int),
        is_ram(d as int),
        is_ram(c),
    ensures
        ({
            let t = b.unit_moved(depth, word, a, d);
            let size: int = if word { 4 } else { 2 };
            let (e, f) = (a - a as int % size, d - d as int % size);
            &&& t.mapped()
            &&& cell(t, c) == if place(c) == place(f) {
                cell(b, e)
            } else if place(c) == place(f + 1) {
                cell(b, e + 1)
            } else if word && place(c) == place(f + 2) {
                cell(b, e + 2)
            } else if word && place(c) == place(f + 3) {
                cell(b, e + 3)
            } else {
                cell(b, c)
            }
        }),
{
    if word {
        lemma_unit_word(b, depth, a, d, c);
    } else {
        lemma_unit_half(b, depth, a, d, c);
    }
}

proof fn lemma_unit_half(b: BusModel, depth: nat, a: u32, d: u32, c: int)
    requires
        b.mapped(),
        is_ram(a as int),
        is_ram(d as int),
        is_ram(c),
    ensures
        ({
            let t = b.unit_moved(depth, false, a, d);
            let (e, f) = (a - a as int % 2, d - d as int % 2);
            &&& t.mapped()
            &&& cell(t, c) == if place(c) == place(f) {
                cell(b, e)
            } else if place(c) == place(f + 1) {
                cell(b, e + 1)
            } else {
                cell(b, c)
            }
        }),
{
    let e = (a - a as int % 2) as u32;
    let f = (d - d as int % 2) as u32;
    assert(b.unit_moved(depth, false, a, d) == b.read16(e).0.write16_at(depth, f, b.read16(e).1)) by {
        lemma_address_digits(a);
        lemma_address_digits(d);
        reveal(BusModel::unit_moved);
    }
    lemma_same_region(a as int, 2, 0);
    lemma_same_region(d as int, 2, 0);
    assert(e as int % 2 == 0 && f as int % 2 == 0);
    law_half_read(b, e);
    let (s, v) = b.read16(e);
    law_half_written(s, depth, f, v, c);
    lemma_digits_of_sum(cell(b, e as int), cell(b, e + 1), 0, 0);
    assert(cell(s, c) == cell(b, c));
}

proof fn lemma_unit_word(b: BusModel, depth: nat, a: u32, d: u32, c: int)
    requires
        b.mapped(),
        is_ram(a as int),
        is_ram(d as int),
        is_ram(c),
    ensures
        ({
            let t = b.unit_moved(depth, true, a, d);
            let (e, f) = (a - a as int % 4, d - d as int % 4);
            &&& t.mapped()
            &&& cell(t, c) == if place(c) == place(f) {
                cell(b, e)
            } else if place(c) == place(f + 1) {
                cell(b, e + 1)
            } else if place(c) == place(f + 2) {
                cell(b, e + 2)
            } else if place(c) == place(f + 3) {
                cell(b, e + 3)
            } else {
                cell(b, c)
            }
        }),
{
    let e = (a - a as int % 4) as u32;
    let f = (d - d as int % 4) as u32;
    assert(b.unit_moved(depth, true, a, d) == b.read32(e).0.write32_at(depth, f, b.read32(e).1)) by {
        lemma_address_digits(a);
        lemma_address_digits(d);
        reveal(BusModel::unit_moved);
    }
    lemma_same_region(a as int, 4, 0);
    lemma_same_region(d as int, 4, 0);
    assert(e as int % 4 == 0 && f as int % 4 == 0);
    law_word_read(b, e);
    let (s, v) = b.read32(e);
    law_word_written(s, depth, f, v, c);
    lemma_digits_of_sum(cell(b, e as int), cell(b, e + 1), cell(b, e + 2), cell(b, e + 3));
    assert(cell(s, c) == cell(b, c));
}

proof fn lemma_digits_of_sum(b0: u8, b1: u8, b2: u8, b3: u8)
    ensures
        ({
            let v = b0 + 0x100 * b1 + 0x1_0000 * b2 + 0x100_0000 * b3;
            &&& v % 0x100 == b0
            &&& v / 0x100 % 0x100 == b1
            &&& v / 0x1_0000 % 0x100 == b2
            &&& v / 0x100_0000 == b3
        }),
        (b0 + 0x100 * b1) / 0x100 == b1,
        (b0 + 0x100 * b1) % 0x100 == b0,
{
}

/// A transfer to work RAM, upwards from an aligned address, leaves there, unit
/// for unit, what the source held: the byte `j` of unit `k` is that of the
/// source of unit `k`. A fixed source leaves copies of one unit. The source may
/// lie in any other RAM.
pub proof fn law_transfer_copies(b: BusModel, depth: nat, ch: int, c: Channel, n: nat, k: nat, j: int)
    requires
        b.mapped(),
        !feeds(ch, c),
        k < n,
        0 <= j < unit_size(ch, c),
        digit(c.ctrl as int, 0x20, 4) == 0,
        c.dst as int / 0x100_0000 == 2,
        c.dst as int % 4 == 0,
        c.dst as int % 0x4_0000 + unit_size(ch, c) * n <= 0x4_0000,
        forall|i: nat| i < n ==> is_ram(#[trigger] source_at(ch, c, i)) && source_at(ch, c, i) / 0x100_0000 != 2,
    ensures
        ({
            let size = unit_size(ch, c);
            let s = run(b, depth, ch, c, n).0;
            let from = source_at(ch, c, k);
            &&& cell(s, c.dst + size * k + j) == cell(b, from - from % size + j)
            &&& digit(c.ctrl as int, 0x80, 4) == 2 ==> cell(s, c.dst + size * k + j) == cell(
                b,
                c.src - c.src as int % size + j,
            )
        }),
{
    lemma_copies(b, depth, ch, c, n, k, j, 0x0300_0000);
    law_transfer_addresses(b, depth, ch, c, k);
}

#[verifier::rlimit(60)]
#[verifier::spinoff_prover]
proof fn lemma_copies(b: BusModel, depth: nat, ch: int, c: Channel, n: nat, k: nat, j: int, x: int)
    requires
        b.mapped(),
        !feeds(ch, c),
        0 <= j < unit_size(ch, c),
        digit(c.ctrl as int, 0x20, 4) == 0,
        c.dst as int / 0x100_0000 == 2,
        c.dst as int % 4 == 0,
        c.dst as int % 0x4_0000 + unit_size(ch, c) * n <= 0x4_0000,
        forall|i: nat| i < n ==> is_ram(#[trigger] source_at(ch, c, i)) && source_at(ch, c, i) / 0x100_0000 != 2,
        is_ram(x),
        x / 0x100_0000 != 2,
    ensures
        ({
            let size = unit_size(ch, c);
            let s = run(b, depth, ch, c, n).0;
            let from = source_at(ch, c, k);
            &&& s.mapped()
            &&& cell(s, x) == cell(b, x)
            &&& k < n ==> cell(s, c.dst + size * k + j) == cell(b, from - from % size + j)
        }),
    decreases n,
{
    lemma_control(ch, c);
    let size = unit_size(ch, c);
    let p = c.planned(ch);
    if n == 0 {
        lemma_moved(b, depth, c.wide(ch), p.src, p.dst, c.src_mode(), c.dst_mode(ch), 1);
    } else {
        let m = (n - 1) as nat;
        assert(size * n == size * m + size) by (nonlinear_arith)
            requires
                n == m + 1,
        ;
        lemma_moved(b, depth, c.wide(ch), p.src, p.dst, c.src_mode(), c.dst_mode(ch), m);
        law_transfer_addresses(b, depth, ch, c, m);
        let (s, a, d) = run(b, depth, ch, c, m);
        let from = a as int;
        assert(from == source_at(ch, c, m));
        lemma_target(c.dst, size, m);
        assert(d == c.dst + size * m);
        let e = from - from % size;
        assert(is_ram(e + j) && (e + j) / 0x100_0000 != 2) by {
            lemma_same_region(from, size, j);
        }
        lemma_copies(b, depth, ch, c, m, k, j, x);
        lemma_copies(b, depth, ch, c, m, k, j, e + j);
        let t = s.unit_moved(depth, c.wide(ch), a, d);
        assert(run(b, depth, ch, c, n).0 == t);
        let at = c.dst + size * k + j;
        lemma_ewram(c.dst, size * m);
        lemma_ewram(c.dst, size * m + 1);
        if size == 4 {
            lemma_ewram(c.dst, size * m + 2);
            lemma_ewram(c.dst, size * m + 3);
        }
        lemma_unit(s, depth, c.wide(ch), a, d, x);
        assert(place(x).0 != 2);
        assert(cell(t, x) == cell(b, x));
        if k < n {
            assert(size * k + j < size * n && size * k >= 0) by (nonlinear_arith)
                requires
                    k + 1 <= n,
                    0 <= j < size,
                    size > 0,
            ;
            lemma_ewram(c.dst, size * k + j);
            lemma_unit(s, depth, c.wide(ch), a, d, at);
            if k < m {
                assert(size * k + j < size * m) by (nonlinear_arith)
                    requires
                        k + 1 <= m,
                        0 <= j < size,
                        size > 0,
                ;
                assert(cell(t, at) == cell(s, at));
            } else {
                assert(cell(t, at) == cell(s, e + j));
            }
        }
    }
}

proof fn lemma_target(dst: u32, size: int, m: nat)
    requires
        size == 2 || size == 4,
        dst as int / 0x100_0000 == 2,
        dst as int % 4 == 0,
        dst as int % 0x4_0000 + size * m + size <= 0x4_0000,
    ensures
        (dst + size * m) % 0x1_0000_0000 == dst + size * m,
        (dst + size * m) % size == 0,
        is_ram(dst + size * m),
{
    assert(size * m >= 0) by (nonlinear_arith)
        requires
            size > 0,
    ;
    lemma_ewram(dst, size * m);
    assert((dst + size * m) % size == 0) by {
        if size == 2 {
        } else {
        }
    }
}

/// Within the window the on-board RAM lies byte after byte.
proof fn lemma_ewram(dst: u32, o: int)
    requires
        dst as int / 0x100_0000 == 2,
        0 <= o,
        dst as int % 0x4_0000 + o < 0x4_0000,
    ensures
        place(dst + o) == (2int, dst as int % 0x4_0000 + o),
        is_ram(dst + o),
{
}

proof fn lemma_same_region(a: int, size: int, j: int)
    requires
        is_ram(a),
        size == 2 || size == 4,
        0 <= j < size,
    ensures
        is_ram(a - a % size + j),
        (a - a % size + j) / 0x100_0000 == a / 0x100_0000,
{
    if size == 2 {
    } else {
    }
}

/// How a transfer ends. Without repeat the channel is off and its enable bit
/// gone from the control, the other bits kept; with repeat it stays on and the
/// count is taken from the register again. Destination mode 3 starts over at
/// the latched address; otherwise both pointers stay where they came to.
pub proof fn law_transfer_end(b: BusModel, ch: int, c: Channel, src: u32, dst: u32)
    requires
        0 <= ch < 4,
    ensures
        ({
            let e = b.finished(ch, c, src, dst).1;
            let repeats = digit(c.ctrl as int, 0x200, 2) == 1;
            let reload = !feeds(ch, c) && digit(c.ctrl as int, 0x20, 4) == 3;
            &&& e.src == src
            &&& e.dst == if reload { c.latch_dst } else { dst }
            &&& repeats ==> e.active == c.active && e.ctrl == c.ctrl
            &&& repeats ==> e.count == full_count(ch, b.read16((0x0400_00B8 + 12 * ch) as u32).1)
            &&& !repeats ==> !e.active && e.count == c.count
            &&& !repeats && digit(c.ctrl as int, 0x8000, 2) == 1 ==> e.ctrl == c.ctrl - 0x8000
        }),
{
    lemma_control(ch, c);
    lemma_digits16(c.ctrl);
    lemma_and16(c.ctrl, 0x8000);
    reveal(BusModel::finished);
}

} // verus!
