//! What ARM instructions are for, in numbers.

use crate::bits::{
    lemma_address_digits, lemma_and32, lemma_cast64, lemma_halves64, lemma_sign_parts,
    lemma_signed_word, ror32,
};
use crate::bus::model::BusModel;
use crate::cpu::alu::{added, cond_holds, ones, reg_field, sext16, sext8, shifted, subtracted};
use crate::cpu::arm::{
    alu_out, arm_executed, block_moved, block_words, branched, data_processed, long_multiplied,
    mode2_offset, multiplied, operand, operand2, product, status_or_multiply, stored,
};
use crate::cpu::laws::{law_add_flags, law_sub_flags, signed};
use crate::cpu::{Cpsr, Cpu};
use vstd::prelude::*;

verus! {

/// The digit of a word that counts `unit`s, in base `size`.
#[verifier::opaque]
pub open spec fn field(v: u32, unit: int, size: int) -> int {
    v as int / unit % size
}

pub open spec fn flag(v: u32, unit: int) -> bool {
    field(v, unit, 2) == 1
}

/// Bit `k` of a word.
pub open spec fn bit(v: u32, k: int) -> bool {
    (v >> (k as u32)) & 1 == 1
}

/// A number as a word.
pub open spec fn word(n: int) -> u32 {
    (n % 0x1_0000_0000) as u32
}

pub proof fn lemma_digit(v: u32, unit: int, size: int)
    requires
        unit > 0,
        size > 0,
    ensures
        0 <= field(v, unit, size) < size,
{
    reveal(field);
    vstd::arithmetic::div_mod::lemma_mod_bound(v as int / unit, size);
}

/// How the fields of an ARM opcode lie in it.
pub proof fn lemma_arm(op: u32)
    ensures
        forall|unit: int, size: int| unit > 0 && size > 0 ==> 0 <= #[trigger] field(op, unit, size) < size,
        (8 <= field(op, 0x20_0000, 16) <= 11) == (field(op, 0x80_0000, 4) == 2),
        (op & 0x0080_0000 != 0) == (field(op, 1, 0x100_0000) >= 0x80_0000),
        op >> 28 == field(op, 0x1000_0000, 16),
        (op >> 21) & 0xF == field(op, 0x20_0000, 16),
        reg_field(op, 16) == field(op, 0x1_0000, 16),
        reg_field(op, 12) == field(op, 0x1000, 16),
        reg_field(op, 8) == field(op, 0x100, 16),
        (op >> 8) & 0xF == field(op, 0x100, 16),
        reg_field(op, 0) == field(op, 1, 16),
        (op >> 7) & 0x1F == field(op, 0x80, 32),
        (op >> 5) & 3 == field(op, 0x20, 4),
        op & 0xFF == field(op, 1, 256),
        op & 0xFFF == field(op, 1, 4096),
        op & 0xFFFF == field(op, 1, 0x1_0000),
        ((op >> 4) & 0xF0) | (op & 0xF) == 16 * field(op, 0x100, 16) + field(op, 1, 16),
        (op & 0x0200_0000 != 0) == flag(op, 0x0200_0000),
        (op & 0x0100_0000 != 0) == flag(op, 0x0100_0000),
        (op & 0x0080_0000 != 0) == flag(op, 0x0080_0000),
        (op & 0x0040_0000 != 0) == flag(op, 0x0040_0000),
        (op & 0x0020_0000 != 0) == flag(op, 0x0020_0000),
        (op & 0x0010_0000 != 0) == flag(op, 0x0010_0000),
        (op & 0x10 != 0) == flag(op, 0x10),
        (op & 0x20 != 0) == flag(op, 0x20),
        (op & 0x40 != 0) == flag(op, 0x40),
        (op & 0x0200_0010 == 0x10) == (!flag(op, 0x0200_0000) && flag(op, 0x10)),
        (op & 0x0FFF_FFF0 == 0x012F_FF10) == (field(op, 0x10, 0x100_0000) == 0x12_FFF1),
        op & 0x00FF_FFFF == field(op, 1, 0x100_0000),
        ((op & 0x00FF_FFFF) << 2) == 4 * field(op, 1, 0x100_0000),
        (((op & 0x00FF_FFFF) | 0xFF00_0000u32) << 2) == 4 * field(op, 1, 0x100_0000) + 0xFC00_0000,
{
    assert forall|unit: int, size: int| unit > 0 && size > 0 implies 0 <= #[trigger] field(op, unit, size) < size by {
        lemma_digit(op, unit, size);
    }
    reveal(field);
    assert((8 <= op / 0x20_0000 % 16 <= 11) == (op / 0x80_0000 % 4 == 2) && (op & 0x0080_0000 != 0) == (op
        % 0x100_0000 >= 0x80_0000) && op >> 28 == op / 0x1000_0000 % 16 && (op >> 21) & 0xF == op / 0x20_0000 % 16 && (op >> 16) & 0xF == op
        / 0x1_0000 % 16 && (op >> 12) & 0xF == op / 0x1000 % 16 && (op >> 8) & 0xF == op / 0x100 % 16 && (op >> 0)
        & 0xF == op % 16 && (op >> 7) & 0x1F == op / 0x80 % 32 && (op >> 5) & 3 == op / 0x20 % 4 && op & 0xFF == op
        % 256 && op & 0xFFF == op % 4096 && op & 0xFFFF == op % 0x1_0000 && ((op >> 4) & 0xF0) | (op & 0xF) == 16
        * (op / 0x100 % 16) + op % 16 && (op & 0x0200_0000 != 0) == (op / 0x0200_0000 % 2 == 1) && (op & 0x0100_0000
        != 0) == (op / 0x0100_0000 % 2 == 1) && (op & 0x0080_0000 != 0) == (op / 0x0080_0000 % 2 == 1) && (op
        & 0x0040_0000 != 0) == (op / 0x0040_0000 % 2 == 1) && (op & 0x0020_0000 != 0) == (op / 0x0020_0000 % 2 == 1)
        && (op & 0x0010_0000 != 0) == (op / 0x0010_0000 % 2 == 1) && (op & 0x10 != 0) == (op / 0x10 % 2 == 1) && (op
        & 0x20 != 0) == (op / 0x20 % 2 == 1) && (op & 0x40 != 0) == (op / 0x40 % 2 == 1) && (op & 0x0200_0010 == 0x10)
        == (op / 0x0200_0000 % 2 != 1 && op / 0x10 % 2 == 1) && (op & 0x0E00_0000 == 0x0A00_0000) == (op
        / 0x0200_0000 % 8 == 5) && (op & 0x0F00_0000 == 0x0F00_0000) == (op / 0x0100_0000 % 16 == 15) && (op
        & 0x0C00_0000 == 0x0400_0000) == (op / 0x0400_0000 % 4 == 1) && (op & 0x0C00_0000 == 0) == (op / 0x0400_0000
        % 4 == 0) && (op & 0x0E00_0000 == 0x0800_0000) == (op / 0x0200_0000 % 8 == 4) && (op & 0x0E00_0090
        == 0x0000_0090) == (op / 0x0200_0000 % 8 == 0 && op / 0x80 % 2 == 1 && op / 0x10 % 2 == 1) && (op
        & 0x0FFF_FFF0 == 0x012F_FF10) == (op / 0x10 % 0x100_0000 == 0x12_FFF1) && (op & 0x0FBF_0FFF == 0x010F_0000
        ==> op / 0x0080_0000 % 32 == 2 && op / 0x0010_0000 % 2 != 1) && (op & 0x0FB0_FFF0 == 0x0120_F000 ==> op
        / 0x0080_0000 % 32 == 2 && op / 0x0010_0000 % 2 != 1) && (op & 0x0FB0_F000 == 0x0320_F000 ==> op
        / 0x0080_0000 % 32 == 6 && op / 0x0010_0000 % 2 != 1) && (op & 0x0FB0_0FF0 == 0x0100_0090 ==> op
        / 0x0080_0000 % 32 == 2 && op / 0x80 % 2 == 1 && op / 0x10 % 2 == 1) && (op & 0x0FC0_00F0 == 0x0000_0090) == (
    op / 0x0040_0000 % 64 == 0 && op / 0x10 % 16 == 9) && (op & 0x0F80_00F0 == 0x0080_0090) == (op / 0x0080_0000 % 32
        == 1 && op / 0x10 % 16 == 9) && op & 0x00FF_FFFF == op % 0x100_0000 && ((op & 0x00FF_FFFF) << 2) == 4 * (op
        % 0x100_0000) && (((op & 0x00FF_FFFF) | 0xFF00_0000u32) << 2) == 4 * (op % 0x100_0000) + 0xFC00_0000) by (bit_vector);
}

/// Which instruction an opcode stands for is settled by its fields.
proof fn lemma_kinds(op: u32)
    ensures
        is_data(op) || is_single(op) || field(op, 0x0200_0000, 8) == 4 || is_multiply(op) || is_long(op) ==> {
            &&& op & 0x0FFF_FFF0 != 0x012F_FF10
            &&& op & 0x0E00_0000 != 0x0A00_0000
            &&& op & 0x0F00_0000 != 0x0F00_0000
            &&& op & 0x0FBF_0FFF != 0x010F_0000
            &&& op & 0x0FB0_FFF0 != 0x0120_F000
            &&& op & 0x0FB0_F000 != 0x0320_F000
        },
        is_data(op) || is_single(op) || field(op, 0x0200_0000, 8) == 4 ==> {
            &&& op & 0x0FC0_00F0 != 0x0000_0090
            &&& op & 0x0F80_00F0 != 0x0080_0090
            &&& op & 0x0FB0_0FF0 != 0x0100_0090
            &&& op & 0x0E00_0090 != 0x0000_0090
        },
        is_data(op) ==> op & 0x0C00_0000 == 0 && op & 0x0E00_0000 != 0x0800_0000,
        is_single(op) ==> op & 0x0C00_0000 == 0x0400_0000,
        field(op, 0x0200_0000, 8) == 4 ==> op & 0x0E00_0000 == 0x0800_0000 && op & 0x0C00_0000 != 0x0400_0000,
        is_multiply(op) ==> op & 0x0FC0_00F0 == 0x0000_0090,
        is_long(op) ==> op & 0x0F80_00F0 == 0x0080_0090 && op & 0x0FC0_00F0 != 0x0000_0090,
        field(op, 0x0200_0000, 8) == 5 ==> op & 0x0E00_0000 == 0x0A00_0000 && op & 0x0FFF_FFF0 != 0x012F_FF10,
{
    reveal(field);
    let d = op / 0x0400_0000 % 4 == 0 && (op / 0x0200_0000 % 2 == 1 || op / 0x80 % 2 != 1 || op / 0x10 % 2 != 1) && (
    op / 0x0010_0000 % 2 == 1 || op / 0x0080_0000 % 4 != 2);
    let s = op / 0x0400_0000 % 4 == 1;
    let k = op / 0x0200_0000 % 8 == 4;
    let m = op / 0x0040_0000 % 64 == 0 && op / 0x10 % 16 == 9;
    let l = op / 0x0080_0000 % 32 == 1 && op / 0x10 % 16 == 9;
    let j = op / 0x0200_0000 % 8 == 5;
    assert((d || s || k || m || l ==> op & 0x0FFF_FFF0 != 0x012F_FF10 && op & 0x0E00_0000 != 0x0A00_0000 && op
        & 0x0F00_0000 != 0x0F00_0000 && op & 0x0FBF_0FFF != 0x010F_0000 && op & 0x0FB0_FFF0 != 0x0120_F000 && op
        & 0x0FB0_F000 != 0x0320_F000) && (d || s || k ==> op & 0x0FC0_00F0 != 0x0000_0090 && op & 0x0F80_00F0
        != 0x0080_0090 && op & 0x0FB0_0FF0 != 0x0100_0090 && op & 0x0E00_0090 != 0x0000_0090) && (d ==> op
        & 0x0C00_0000 == 0 && op & 0x0E00_0000 != 0x0800_0000) && (s ==> op & 0x0C00_0000 == 0x0400_0000) && (k ==> op
        & 0x0E00_0000 == 0x0800_0000 && op & 0x0C00_0000 != 0x0400_0000) && (m ==> op & 0x0FC0_00F0 == 0x0000_0090)
        && (l ==> op & 0x0F80_00F0 == 0x0080_0090 && op & 0x0FC0_00F0 != 0x0000_0090) && (j ==> op & 0x0E00_0000
        == 0x0A00_0000 && op & 0x0FFF_FFF0 != 0x012F_FF10)) by (bit_vector)
        requires
            d == (op / 0x0400_0000 % 4 == 0 && (op / 0x0200_0000 % 2 == 1 || op / 0x80 % 2 != 1 || op / 0x10 % 2 != 1)
                && (op / 0x0010_0000 % 2 == 1 || op / 0x0080_0000 % 4 != 2)),
            s == (op / 0x0400_0000 % 4 == 1),
            k == (op / 0x0200_0000 % 8 == 4),
            m == (op / 0x0040_0000 % 64 == 0 && op / 0x10 % 16 == 9),
            l == (op / 0x0080_0000 % 32 == 1 && op / 0x10 % 16 == 9),
            j == (op / 0x0200_0000 % 8 == 5),
    ;
}

/// The opcode is MUL or MLA.
pub open spec fn is_multiply(op: u32) -> bool {
    field(op, 0x0040_0000, 64) == 0 && field(op, 0x10, 16) == 9
}

/// The opcode is a long multiplication.
pub open spec fn is_long(op: u32) -> bool {
    field(op, 0x0080_0000, 32) == 1 && field(op, 0x10, 16) == 9
}

// ---- conditions ---------------------------------------------------------

/// The flags tell the order of two words: EQ and NE, HS and LO, HI and LS of
/// the words as they are, GE and LT, GT and LE of the words with their signs.
/// MI and PL tell the sign of the difference as a word, VS and VC whether the
/// difference of the signed words fits one.
#[verifier::opaque]
pub open spec fn tells_order(f: Cpsr, a: u32, b: u32) -> bool {
    &&& cond_holds(f, 0x0) <==> a == b
    &&& cond_holds(f, 0x1) <==> a != b
    &&& cond_holds(f, 0x2) <==> a >= b
    &&& cond_holds(f, 0x3) <==> a < b
    &&& cond_holds(f, 0x4) <==> signed(word(a - b)) < 0
    &&& cond_holds(f, 0x5) <==> signed(word(a - b)) >= 0
    &&& cond_holds(f, 0x6) <==> !(-0x8000_0000 <= signed(a) - signed(b) < 0x8000_0000)
    &&& cond_holds(f, 0x7) <==> -0x8000_0000 <= signed(a) - signed(b) < 0x8000_0000
    &&& cond_holds(f, 0x8) <==> a > b
    &&& cond_holds(f, 0x9) <==> a <= b
    &&& cond_holds(f, 0xA) <==> signed(a) >= signed(b)
    &&& cond_holds(f, 0xB) <==> signed(a) < signed(b)
    &&& cond_holds(f, 0xC) <==> signed(a) > signed(b)
    &&& cond_holds(f, 0xD) <==> signed(a) <= signed(b)
    &&& cond_holds(f, 0xE)
    &&& !cond_holds(f, 0xF)
}

/// A word as a signed machine number has its sign.
pub proof fn lemma_sign(v: u32)
    ensures
        v as i32 == signed(v),
{
    lemma_signed_word(v);
}

/// After a subtraction that sets the flags, the conditions tell the order of
/// what was compared.
pub proof fn law_conditions_tell_order(c: Cpu, a: u32, b: u32)
    ensures
        ({
            let (r, fc, fv) = subtracted(a, b, true);
            &&& r == word(a - b)
            &&& tells_order(c.flagged(r, fc, fv).cpsr, a, b)
        }),
{
    reveal(tells_order);
    law_sub_flags(a, b, true);
    lemma_sign(subtracted(a, b, true).0);
}

// ---- data processing ----------------------------------------------------

/// The opcode is one of data processing: no multiply or halfword transfer has
/// its place, nor one of the status registers, which stand where a comparison
/// would not set flags.
pub open spec fn is_data(op: u32) -> bool {
    &&& field(op, 0x0400_0000, 4) == 0
    &&& flag(op, 0x0200_0000) || !flag(op, 0x80) || !flag(op, 0x10)
    &&& flag(op, 0x0010_0000) || field(op, 0x0080_0000, 4) != 2
}

proof fn lemma_is_data(c: Cpu, b: BusModel, op: u32)
    requires
        is_data(op),
    ensures
        arm_executed(c, b, op) == (data_processed(c, op).0, b, data_processed(c, op).1),
{
    lemma_arm(op);
    lemma_kinds(op);
    reveal(arm_executed);
    reveal(status_or_multiply);
}

/// CMP: the conditions then tell the order of the two operands, and no register
/// changes.
pub proof fn law_compare(c: Cpu, b: BusModel, op: u32)
    requires
        is_data(op),
        field(op, 0x20_0000, 16) == 0xA,
    ensures
        ({
            let x = operand(c, field(op, 0x1_0000, 16));
            let y = operand2(c, op, c.cpsr.c).0;
            let (d, s, t) = arm_executed(c, b, op);
            &&& tells_order(d.cpsr, x, y)
            &&& d.r == c.r
            &&& s == b
        }),
{
    lemma_is_data(c, b, op);
    lemma_arm(op);
    reveal(data_processed);
    reveal(alu_out);
    let x = operand(c, field(op, 0x1_0000, 16));
    let y = operand2(c, op, c.cpsr.c).0;
    law_conditions_tell_order(c, x, y);
}

/// The words of the arithmetic opcodes: SUB, RSB, ADD, ADC, SBC, RSC.
pub open spec fn arithmetic(opcode: int, x: int, y: int, carry: int) -> int {
    if opcode == 2 {
        x - y
    } else if opcode == 3 {
        y - x
    } else if opcode == 4 {
        x + y
    } else if opcode == 5 {
        x + y + carry
    } else if opcode == 6 {
        x - y - (1 - carry)
    } else {
        y - x - (1 - carry)
    }
}

/// Arithmetic gives the sum or difference, as a word.
pub proof fn law_arithmetic(n: int, x: u32, y: u32, carry: bool, f: Cpsr)
    requires
        2 <= n <= 7,
    ensures
        alu_out(n as u32, x, y, carry, f).0 == word(arithmetic(n, x as int, y as int, if f.c { 1 } else { 0 })),
{
    lemma_sum(x, y, false);
    lemma_sum(x, y, f.c);
    lemma_difference(x, y, true);
    lemma_difference(y, x, true);
    lemma_difference(x, y, f.c);
    lemma_difference(y, x, f.c);
    reveal(alu_out);
}

proof fn lemma_sum(a: u32, b: u32, carry: bool)
    ensures
        added(a, b, carry).0 == word(a + b + if carry { 1int } else { 0 }),
{
}

proof fn lemma_difference(a: u32, b: u32, carry: bool)
    ensures
        subtracted(a, b, carry).0 == word(a - b - if carry { 0int } else { 1 }),
{
}

/// C of the additions is set where the sum needs a 33rd bit, of the
/// subtractions where nothing is borrowed; V where the signed result does not
/// fit a word. CMP and CMN set the flags of SUB and ADD.
pub proof fn law_arithmetic_flags(n: int, x: u32, y: u32, carry: bool, f: Cpsr)
    requires
        2 <= n <= 7,
    ensures
        ({
            let k: int = if f.c { 1 } else { 0 };
            let (v, c, o) = alu_out(n as u32, x, y, carry, f);
            let plain = arithmetic(n, x as int, y as int, k);
            let s = arithmetic(n, signed(x), signed(y), k);
            &&& n == 4 || n == 5 ==> (c <==> plain >= 0x1_0000_0000)
            &&& n == 2 || n == 3 || n == 6 || n == 7 ==> (c <==> plain >= 0)
            &&& o <==> !(-0x8000_0000 <= s < 0x8000_0000)
        }),
        alu_out(10, x, y, carry, f) == alu_out(2, x, y, carry, f),
        alu_out(11, x, y, carry, f) == alu_out(4, x, y, carry, f),
{
    reveal(alu_out);
    law_sub_flags(x, y, true);
    law_sub_flags(y, x, true);
    law_sub_flags(x, y, f.c);
    law_sub_flags(y, x, f.c);
    law_add_flags(x, y, false);
    law_add_flags(x, y, f.c);
}

/// What a logical opcode does to two bits: AND, EOR, TST, TEQ, ORR, MOV, BIC,
/// MVN.
pub open spec fn logical(opcode: int, x: bool, y: bool) -> bool {
    if opcode == 0 || opcode == 8 {
        x && y
    } else if opcode == 1 || opcode == 9 {
        x != y
    } else if opcode == 12 {
        x || y
    } else if opcode == 13 {
        y
    } else if opcode == 14 {
        x && !y
    } else {
        !y
    }
}

/// Facts on single bits, under every operation on words.
pub proof fn lemma_bits32(x: u32, y: u32, k: u32, a: u32)
    requires
        k < 32,
        a < 32,
    ensures
        bit(x & y, k as int) == (bit(x, k as int) && bit(y, k as int)),
        bit(x ^ y, k as int) == (bit(x, k as int) != bit(y, k as int)),
        bit(x | y, k as int) == (bit(x, k as int) || bit(y, k as int)),
        bit(!y, k as int) == !bit(y, k as int),
        bit(x << a, k as int) == (k >= a && bit(x, k - a)),
        bit(x >> a, k as int) == (k + a < 32 && bit(x, k + a)),
        bit(((x as i32) >> a) as u32, k as int) == bit(x, if k + a < 32 { k + a } else { 31 }),
        a > 0 ==> bit((x >> a) | (x << ((32 - a) as u32)), k as int) == bit(x, (k + a) % 32),
        bit(0x8000_0000, k as int) == (k == 31),
        !bit(0, k as int),
        bit(0xFFFF_FFFF, k as int),
        bit(x, k as int) == (x & (1u32 << k) != 0),
        bit(x, 31) == (x >= 0x8000_0000),
        bit(x, 31) == (x & 0x8000_0000 != 0),
        bit(x, 31) == ((x >> 31) & 1 != 0),
        bit(x, k as int) == ((x >> k) & 1 != 0),
        bit(x, 0) == (x & 1 != 0),
        x ^ y == 0 <==> x == y,
{
    let d: u32 = if k >= a { (k - a) as u32 } else { 0 };
    let s: u32 = (k + a) as u32;
    let t: u32 = if s < 32 { s } else { 31 };
    let u: u32 = (s % 32) as u32;
    let z: u32 = (32 - a) as u32;
    assert((((x & y) >> k) & 1 == 1) == ((x >> k) & 1 == 1 && (y >> k) & 1 == 1) && (((x ^ y) >> k) & 1 == 1) == (((
    x >> k) & 1 == 1) != ((y >> k) & 1 == 1)) && (((x | y) >> k) & 1 == 1) == ((x >> k) & 1 == 1 || (y >> k) & 1
        == 1) && ((!y >> k) & 1 == 1) == ((y >> k) & 1 != 1) && (((x << a) >> k) & 1 == 1) == (k >= a && (x >> d) & 1
        == 1) && (((x >> a) >> k) & 1 == 1) == (s < 32 && (x >> s) & 1 == 1) && (((((x as i32) >> a) as u32) >> k) & 1
        == 1) == ((x >> t) & 1 == 1) && (a > 0 ==> ((((x >> a) | (x << z)) >> k) & 1 == 1) == ((x >> u) & 1 == 1)) && ((
    0x8000_0000u32 >> k) & 1 == 1) == (k == 31) && (0u32 >> k) & 1 == 0 && (0xFFFF_FFFFu32 >> k) & 1 == 1 && ((x >> k)
        & 1 == 1) == (x & (1u32 << k) != 0) && ((x >> 31u32) & 1 == 1) == (x >= 0x8000_0000) && ((x >> 31u32) & 1
        == 1) == (x & 0x8000_0000 != 0) && ((x >> k) & 1 == 1) == ((x >> k) & 1 != 0) && ((x >> 0u32) & 1 == 1) == (x
        & 1 != 0) && ((x >> 31u32) & 1 == 1) == ((x >> 31u32) & 1 != 0) && (x ^ y == 0 <==> x == y)) by (bit_vector)
        requires
            k < 32,
            a < 32,
            k >= a ==> d == k - a,
            s == k + a,
            t == if s < 32 { s } else { 31 },
            u == if s < 32 { s } else { (s - 32) as u32 },
            z == 32 - a,
    ;
}

/// Logical instructions work bit by bit, take C from the shifter and leave V.
pub proof fn law_logical(n: int, x: u32, y: u32, carry: bool, f: Cpsr, k: u32)
    requires
        0 <= n <= 1 || 8 <= n <= 9 || 12 <= n <= 15,
        k < 32,
    ensures
        ({
            let (v, c, o) = alu_out(n as u32, x, y, carry, f);
            &&& bit(v, k as int) == logical(n, bit(x, k as int), bit(y, k as int))
            &&& c == carry && o == f.v
        }),
{
    reveal(alu_out);
    lemma_bits32(x, y, k, 0);
    lemma_bits32(x, !y, k, 0);
}

/// An immediate operand is a byte, turned right by twice the four bits above
/// it: bit `k` of the operand is the byte's bit `k + 2 n`, around the end.
pub proof fn law_immediate(c: Cpu, op: u32, carry: bool, k: u32)
    requires
        flag(op, 0x0200_0000),
        k < 32,
    ensures
        ({
            let n = 2 * field(op, 0x100, 16);
            let v = operand2(c, op, carry).0;
            &&& n == 0 ==> v == field(op, 1, 256)
            &&& bit(v, k as int) == bit((op & 0xFF), (k + n) % 32)
        }),
{
    lemma_arm(op);
    reveal(operand2);
    let n: u32 = (2 * field(op, 0x100, 16)) as u32;
    law_rotate(op & 0xFF, n, k);
}

/// A rotation moves every bit `n` places down, around the end.
pub proof fn law_rotate(v: u32, n: u32, k: u32)
    requires
        n < 32,
        k < 32,
    ensures
        bit(ror32(v, n), k as int) == bit(v, (k + n) % 32),
{
    lemma_bits32(v, 0, k, n);
    vstd::bits::lemma_u32_low_bits_mask_is_mod(n, 5);
    vstd::bits::lemma_low_bits_mask_values();
    vstd::arithmetic::power2::lemma2_to64();
}

/// The shifter. A left shift by `a` moves bit `k - a` to place `k` and fills
/// with zeros; a right shift moves bit `k + a` down, filled with zeros (LSR),
/// copies of the sign (ASR), or what fell out (ROR). The carry is the bit that
/// fell out last.
pub proof fn law_shifter(kind: u32, v: u32, a: u32, carry: bool, k: u32)
    requires
        kind < 4,
        0 < a < 32,
        k < 32,
    ensures
        ({
            let (r, out) = shifted(kind, v, a, false, carry);
            &&& shifted(kind, v, a, true, carry) == (r, out)
            &&& kind == 0 ==> bit(r, k as int) == (k >= a && bit(v, k - a)) && out == bit(v, 32 - a)
            &&& kind == 1 ==> bit(r, k as int) == (k + a < 32 && bit(v, k + a)) && out == bit(v, a - 1)
            &&& kind == 2 ==> bit(r, k as int) == bit(v, if k + a < 32 { k + a } else { 31 }) && out == bit(v, a - 1)
            &&& kind == 3 ==> bit(r, k as int) == bit(v, (k + a) % 32) && out == bit(v, a - 1)
        }),
{
    reveal(shifted);
    lemma_bits32(v, 0, k, a);
    lemma_bits32(v, 0, (32 - a) as u32, 0);
    lemma_bits32(v, 0, (a - 1) as u32, 0);
    vstd::bits::lemma_u32_low_bits_mask_is_mod(a, 5);
    vstd::bits::lemma_low_bits_mask_values();
    vstd::arithmetic::power2::lemma2_to64();
    if kind == 3 {
        law_rotate(v, a, k);
    }
}

/// Amounts of zero and of a word's length or more. A register amount of zero
/// changes nothing. An immediate one is no shift for LSL, 32 places for LSR and
/// ASR, and one place through the carry for ROR.
pub proof fn law_shifter_ends(v: u32, a: u32, carry: bool, k: u32)
    requires
        a >= 32,
        k < 32,
    ensures
        forall|kind: u32| kind < 4 ==> #[trigger] shifted(kind, v, 0, false, carry) == (v, carry),
        shifted(0, v, 0, true, carry) == (v, carry),
        shifted(1, v, 0, true, carry) == (0u32, bit(v, 31)),
        shifted(1, v, a, false, carry) == (0u32, a == 32 && bit(v, 31)),
        shifted(0, v, a, false, carry) == (0u32, a == 32 && bit(v, 0)),
        shifted(2, v, a, false, carry) == shifted(2, v, 0, true, carry),
        shifted(2, v, a, false, carry).1 == bit(v, 31),
        bit(shifted(2, v, a, false, carry).0, k as int) == bit(v, 31),
        bit(shifted(3, v, 0, true, carry).0, k as int) == (if k == 31 { carry } else { bit(v, k + 1) }),
        shifted(3, v, 0, true, carry).1 == bit(v, 0),
        a % 32 == 0 ==> shifted(3, v, a, false, carry) == (v, bit(v, 31)),
        a % 32 != 0 ==> shifted(3, v, a, false, carry) == shifted(3, v, (a % 32) as u32, false, carry),
{
    reveal(shifted);
    lemma_bits32(v, 0, k, 1);
    lemma_bits32(v >> 1, if carry { 0x8000_0000 } else { 0 }, k, 0);
    lemma_bits32(v, 0, 31, 0);
    vstd::bits::lemma_u32_low_bits_mask_is_mod(a, 5);
    vstd::bits::lemma_u32_low_bits_mask_is_mod((a % 32) as u32, 5);
    vstd::bits::lemma_low_bits_mask_values();
    vstd::arithmetic::power2::lemma2_to64();
}

/// A register operand is Rm through the shifter, by five bits of the opcode or
/// by the low byte of Rs.
pub proof fn law_register_operand(c: Cpu, op: u32, carry: bool)
    requires
        !flag(op, 0x0200_0000),
        field(op, 1, 16) != 15,
    ensures
        ({
            let v = c.r[field(op, 1, 16)];
            let kind = field(op, 0x20, 4) as u32;
            &&& !flag(op, 0x10) ==> operand2(c, op, carry) == shifted(kind, v, field(op, 0x80, 32) as u32, true, carry)
            &&& flag(op, 0x10) ==> operand2(c, op, carry) == shifted(
                kind,
                v,
                (c.r[field(op, 0x100, 16)] % 256) as u32,
                false,
                carry,
            )
        }),
{
    lemma_arm(op);
    reveal(operand2);
    vstd::bits::lemma_u32_low_bits_mask_is_mod(c.r[field(op, 0x100, 16)], 8);
    vstd::bits::lemma_low_bits_mask_values();
    vstd::arithmetic::power2::lemma2_to64();
}

// ---- multiplication -----------------------------------------------------

/// The 64-bit product of two words, with or without their signs.
pub proof fn law_long_product(x: u32, y: u32)
    ensures
        product(x, y, true) == (signed(x) * signed(y)) % 0x1_0000_0000_0000_0000,
        product(x, y, false) == x * y,
{
    lemma_sign(x);
    lemma_sign(y);
    let (a, b) = (signed(x), signed(y));
    assert(-0x4000_0000_0000_0000 <= a * b <= 0x4000_0000_0000_0000) by (nonlinear_arith)
        requires
            -0x8000_0000 <= a <= 0x7FFF_FFFF,
            -0x8000_0000 <= b <= 0x7FFF_FFFF,
    ;
    assert(0 <= x * y <= 0xFFFF_FFFE_0000_0001) by (nonlinear_arith)
        requires
            0 <= x <= 0xFFFF_FFFF,
            0 <= y <= 0xFFFF_FFFF,
    ;
    let s: i64 = (a * b) as i64;
    lemma_cast64(s);
    assert(x as i32 as i64 == a && y as i32 as i64 == b);
}

// ---- branches -----------------------------------------------------------

/// B and BL go four bytes for each unit of the signed 24-bit offset from where
/// the program counter reads (eight ahead of the instruction, four ahead of
/// its stored value); BL leaves the address of the next instruction in R14.
pub proof fn law_branch(c: Cpu, b: BusModel, op: u32)
    requires
        field(op, 0x0200_0000, 8) == 5,
    ensures
        ({
            let n = field(op, 1, 0x100_0000);
            let by = if n >= 0x80_0000 { n - 0x100_0000 } else { n };
            let d = arm_executed(c, b, op).0;
            &&& d.r[15] == word(c.r[15] + 4 + 4 * by)
            &&& d.r[14] == if flag(op, 0x0100_0000) { c.r[15] } else { c.r[14] }
            &&& forall|i: int| 0 <= i < 14 ==> #[trigger] d.r[i] == c.r[i]
            &&& d.cpsr == c.cpsr
        }),
{
    lemma_arm(op);
    lemma_kinds(op);
    reveal(arm_executed);
    reveal(branched);
}

/// BX jumps to the even address and takes the instruction set from the odd bit.
pub proof fn law_branch_exchange(c: Cpu, b: BusModel, op: u32)
    requires
        field(op, 0x10, 0x100_0000) == 0x12_FFF1,
    ensures
        ({
            let v = c.r[field(op, 1, 16)];
            let d = arm_executed(c, b, op).0;
            &&& d.r[15] == v - v % 2
            &&& d.cpsr == (Cpsr { thumb: v % 2 == 1, ..c.cpsr })
        }),
{
    lemma_arm(op);
    lemma_kinds(op);
    reveal(arm_executed);
    let v = c.r[field(op, 1, 16)];
    lemma_and32(v, 1);
    lemma_address_digits(v);
}

// ---- memory -------------------------------------------------------------

/// A byte or halfword with its sign.
pub proof fn law_sign_extension(b: u8, h: u16)
    ensures
        signed(sext8(b)) == if b >= 0x80 { b - 0x100 } else { b as int },
        signed(sext16(h)) == if h >= 0x8000 { h - 0x1_0000 } else { h as int },
{
    lemma_sign_parts(b, h);
}

/// The opcode is LDR, STR, LDRB or STRB.
pub open spec fn is_single(op: u32) -> bool {
    field(op, 0x0400_0000, 4) == 1
}

/// The offset of a single transfer: twelve bits of the opcode, or Rm through
/// the shifter.
pub proof fn law_single_offset(c: Cpu, op: u32)
    ensures
        !flag(op, 0x0200_0000) ==> mode2_offset(c, op) == field(op, 1, 4096),
        flag(op, 0x0200_0000) && field(op, 1, 16) != 15 ==> mode2_offset(c, op) == shifted(
            field(op, 0x20, 4) as u32,
            c.r[field(op, 1, 16)],
            field(op, 0x80, 32) as u32,
            true,
            c.cpsr.c,
        ).0,
{
    lemma_arm(op);
    reveal(mode2_offset);
}

// ---- blocks -------------------------------------------------------------

/// The registers of a block lie one after the other: each moves the address by
/// a word.
pub proof fn law_block_order(
    c: Cpu,
    b: BusModel,
    op: u32,
    list: u32,
    start: u32,
    user: bool,
    last: u32,
    n: nat,
)
    requires
        n <= 16,
    ensures
        block_words(c, b, op, list, start, user, last, n).2 == word(start + 4 * ones(list, n)),
        ones(list, n) <= n,
    decreases n,
{
    if n > 0 {
        law_block_order(c, b, op, list, start, user, last, (n - 1) as nat);
    }
}

} // verus!
