//! What the Thumb arithmetic is for, in numbers.

use crate::cpu::arm_laws::{
    bit, field, law_conditions_tell_order, lemma_bits32, logical, tells_order, word,
};
use crate::cpu::laws::{law_add_flags, law_sub_flags, signed};
use crate::cpu::thumb::{low_alu, offset11, offset8};
use crate::cpu::{Cpsr, Cpu};
use vstd::prelude::*;

verus! {

// ---- branches -----------------------------------------------------------

/// A field of `size` as a signed number.
pub open spec fn signed_field(op: u32, size: int) -> int {
    let n = field(op, 1, size);
    if 2 * n >= size {
        n - size
    } else {
        n
    }
}

/// Distances of branches.
proof fn lemma_branch_fields(op: u32)
    ensures
        0 <= field(op, 1, 0x800) < 0x800,
        0 <= field(op, 1, 0x100) < 0x100,
        (op & 0x7FF) << 1 == 2 * field(op, 1, 0x800),
        ((op & 0x7FF) | 0xFFFF_F800u32) << 1 == 2 * field(op, 1, 0x800) + 0xFFFF_F000,
        (op & 0x7FF) << 12 == 0x1000 * field(op, 1, 0x800),
        ((op & 0x7FF) | 0xFFFF_F800u32) << 12 == 0x1000 * field(op, 1, 0x800) + 0xFF80_0000,
        (op & 0xFF) << 1 == 2 * field(op, 1, 0x100),
        ((op & 0xFF) | 0xFFFF_FF00u32) << 1 == 2 * field(op, 1, 0x100) + 0xFFFF_FE00,
        (op & 0x0400 != 0) == (field(op, 1, 0x800) >= 0x400),
        (op & 0x80 != 0) == (field(op, 1, 0x100) >= 0x80),
{
    reveal(field);
    assert((op & 0x7FF) << 1 == 2 * (op % 0x800) && ((op & 0x7FF) | 0xFFFF_F800u32) << 1 == 2 * (op % 0x800) + 0xFFFF_F000 && (
    op & 0x7FF) << 12 == 0x1000 * (op % 0x800) && ((op & 0x7FF) | 0xFFFF_F800u32) << 12 == 0x1000 * (op % 0x800)
        + 0xFF80_0000 && (op & 0xFF) << 1 == 2 * (op % 0x100) && ((op & 0xFF) | 0xFFFF_FF00u32) << 1 == 2 * (op
        % 0x100) + 0xFFFF_FE00 && (op & 0x0400 != 0) == (op % 0x800 >= 0x400) && (op & 0x80 != 0) == (op % 0x100
        >= 0x80)) by (bit_vector);
}

/// The distance of a branch is its signed field: 11 or 8 bits counting
/// halfwords, and the upper part of a call counting 4096 bytes.
pub proof fn law_thumb_distances(op: u32)
    ensures
        (offset11(op) << 1) == (2 * signed_field(op, 0x800)) % 0x1_0000_0000,
        (offset8(op) << 1) == (2 * signed_field(op, 0x100)) % 0x1_0000_0000,
        (offset11(op) << 12) == (0x1000 * signed_field(op, 0x800)) % 0x1_0000_0000,
{
    lemma_branch_fields(op);
}

// ---- registers ----------------------------------------------------------

/// Opcodes of ARM that do what the logical opcodes of Thumb do: AND, EOR, TST,
/// ORR, BIC, MVN.
pub open spec fn arm_logical(n: int) -> int {
    if n == 0 {
        0
    } else if n == 1 {
        1
    } else if n == 8 {
        8
    } else if n == 12 {
        12
    } else if n == 14 {
        14
    } else {
        15
    }
}

/// Logical operations of low registers work bit by bit, and leave C and V.
pub proof fn law_thumb_logical(n: u32, a: u32, b: u32, f: Cpsr, k: u32)
    requires
        n == 0 || n == 1 || n == 8 || n == 12 || n == 14 || n == 15,
        k < 32,
    ensures
        ({
            let (write, v, c, o) = low_alu(n, a, b, f);
            &&& write == (n != 8)
            &&& bit(v, k as int) == logical(arm_logical(n as int), bit(a, k as int), bit(b, k as int))
            &&& c == f.c && o == f.v
        }),
{
    reveal(low_alu);
    lemma_bits32(a, b, k, 0);
    lemma_bits32(a, !b, k, 0);
}

/// Arithmetic of low registers: ADC, SBC, NEG, CMP, CMN and MUL. After CMP the
/// conditions tell the order of what was compared.
pub proof fn law_thumb_arithmetic(cpu: Cpu, n: u32, a: u32, b: u32)
    ensures
        ({
            let (write, v, c, o) = low_alu(n, a, b, cpu.cpsr);
            let k: int = if cpu.cpsr.c { 1 } else { 0 };
            &&& n == 5 ==> write && v == word(a + b + k) && (c <==> a + b + k >= 0x1_0000_0000)
            &&& n == 6 ==> write && v == word(a - b - (1 - k)) && (c <==> a - b - (1 - k) >= 0)
            &&& n == 9 ==> write && v == word(0 - b) && (c <==> b == 0)
            &&& n == 10 ==> !write && v == word(a - b) && tells_order(cpu.flagged(v, c, o).cpsr, a, b)
            &&& n == 11 ==> !write && v == word(a + b) && (c <==> a + b >= 0x1_0000_0000)
            &&& n == 13 ==> write && v == word(a * b) && c == cpu.cpsr.c && o == cpu.cpsr.v
        }),
{
    reveal(low_alu);
    law_conditions_tell_order(cpu, a, b);
}

/// V is set where the signed result does not fit a word.
pub proof fn law_thumb_overflow(n: u32, a: u32, b: u32, f: Cpsr)
    ensures
        ({
            let o = low_alu(n, a, b, f).3;
            let (x, y) = (signed(a), signed(b));
            let k: int = if f.c { 1 } else { 0 };
            &&& n == 5 ==> (o <==> !(-0x8000_0000 <= x + y + k < 0x8000_0000))
            &&& n == 6 ==> (o <==> !(-0x8000_0000 <= x - y - (1 - k) < 0x8000_0000))
            &&& n == 11 ==> (o <==> !(-0x8000_0000 <= x + y < 0x8000_0000))
        }),
{
    reveal(low_alu);
    law_add_flags(a, b, f.c);
    law_add_flags(a, b, false);
    law_sub_flags(a, b, f.c);
}

} // verus!
