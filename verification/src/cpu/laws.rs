//! What mode switches keep, and how results set the flags.

use super::alu::{added, one_if, subtracted};
use super::arm::{arm_executed, status_or_multiply};
use super::cpsr::{MODE_ABT, MODE_FIQ, MODE_IRQ, MODE_SVC, MODE_UND};
use super::{Cpsr, Cpu};
use crate::bus::model::BusModel;
use vstd::prelude::*;

verus! {

/// Modes with the same bank of R13 and R14: user and system mode share one.
pub open spec fn same_bank(a: u8, b: u8) -> bool {
    bank(a) == bank(b)
}

pub open spec fn bank(m: u8) -> u8 {
    if m == MODE_FIQ || m == MODE_IRQ || m == MODE_SVC || m == MODE_ABT || m == MODE_UND {
        m
    } else {
        0
    }
}

/// The registers without a bank are the same: R0-R7 and R15.
pub open spec fn unbanked_kept(a: [u32; 16], b: [u32; 16]) -> bool {
    &&& a[0] == b[0] && a[1] == b[1] && a[2] == b[2] && a[3] == b[3]
    &&& a[4] == b[4] && a[5] == b[5] && a[6] == b[6] && a[7] == b[7]
    &&& a[15] == b[15]
}

pub proof fn lemma_mode_bits(m: u8)
    requires
        m < 0x20,
    ensures
        m & 0x1F == m,
        (m & 0x1F) & 0x1F == m,
{
    assert(m & 0x1F == m) by (bit_vector)
        requires
            m < 0x20,
    ;
}

/// A switch to another mode and back leaves every register and the status word
/// as they were.
#[verifier::spinoff_prover]
#[verifier::rlimit(40)]
pub proof fn law_mode_round_trip(c: Cpu, m: u8)
    requires
        c.cpsr.mode < 0x20,
        m < 0x20,
    ensures
        c.in_mode(m).in_mode(c.cpsr.mode).r == c.r,
        c.in_mode(m).in_mode(c.cpsr.mode).cpsr == c.cpsr,
{
    lemma_mode_bits(c.cpsr.mode);
    lemma_mode_bits(m);
    assert(c.in_mode(m).in_mode(c.cpsr.mode).r =~= c.r);
}

/// What FIQ code does to R8-R14 is not seen in any other mode.
pub proof fn law_fiq_has_its_own_registers(c: Cpu, f: Cpu)
    requires
        c.cpsr.mode < 0x20,
        c.cpsr.mode != MODE_FIQ,
        ({
            let e = c.in_mode(MODE_FIQ);
            unbanked_kept(f.r, e.r) && f == (Cpu { r: f.r, ..e })
        }),
    ensures
        f.in_mode(c.cpsr.mode).r == c.r,
{
    lemma_mode_bits(c.cpsr.mode);
    lemma_mode_bits(MODE_FIQ);
    assert(f.in_mode(c.cpsr.mode).r =~= c.r);
}

/// R13 and R14 of a mode survive what another bank's code does to its own.
pub proof fn law_stack_pointers_are_private(c: Cpu, m: u8, f: Cpu)
    requires
        c.cpsr.mode < 0x20,
        m < 0x20,
        !same_bank(c.cpsr.mode, m),
        f == (Cpu { r: f.r, ..c.in_mode(m) }),
    ensures
        f.in_mode(c.cpsr.mode).r[13] == c.r[13],
        f.in_mode(c.cpsr.mode).r[14] == c.r[14],
{
    lemma_mode_bits(c.cpsr.mode);
    lemma_mode_bits(m);
}

/// A banked SPSR comes back with its mode.
pub proof fn law_spsr_is_banked(c: Cpu, m: u8, s: Cpsr)
    requires
        c.cpsr.mode < 0x20,
        m < 0x20,
        !same_bank(c.cpsr.mode, m),
        bank(m) != 0,
    ensures
        (Cpu { spsr: s, ..c.in_mode(m) }).in_mode(c.cpsr.mode).in_mode(m).spsr == s,
{
    lemma_mode_bits(c.cpsr.mode);
    lemma_mode_bits(m);
}

/// A word as a signed number.
pub open spec fn signed(v: u32) -> int {
    if v >= 0x8000_0000 {
        v - 0x1_0000_0000
    } else {
        v as int
    }
}

proof fn lemma_signs(a: u32, b: u32, r: u32)
    ensures
        (!(a ^ b) & (a ^ r)) >> 31 != 0 <==> (a >= 0x8000_0000) == (b >= 0x8000_0000) && (a >= 0x8000_0000)
            != (r >= 0x8000_0000),
        ((a ^ b) & (a ^ r)) >> 31 != 0 <==> (a >= 0x8000_0000) != (b >= 0x8000_0000) && (a >= 0x8000_0000)
            != (r >= 0x8000_0000),
{
    assert(((!(a ^ b) & (a ^ r)) >> 31 != 0 <==> (a >= 0x8000_0000) == (b >= 0x8000_0000) && (a
        >= 0x8000_0000) != (r >= 0x8000_0000)) && (((a ^ b) & (a ^ r)) >> 31 != 0 <==> (a >= 0x8000_0000)
        != (b >= 0x8000_0000) && (a >= 0x8000_0000) != (r >= 0x8000_0000))) by (bit_vector);
}

/// Addition: C is set exactly where the unsigned sum does not fit a word, V
/// exactly where the signed sum does not, and the word is the sum otherwise.
pub proof fn law_add_flags(a: u32, b: u32, carry: bool)
    ensures
        ({
            let k = one_if(carry);
            let (r, c, v) = added(a, b, carry);
            &&& c <==> a + b + k > 0xFFFF_FFFF
            &&& !c ==> r == a + b + k
            &&& v <==> !(-0x8000_0000 <= signed(a) + signed(b) + k <= 0x7FFF_FFFF)
            &&& !v ==> signed(r) == signed(a) + signed(b) + k
        }),
{
    lemma_signs(a, b, added(a, b, carry).0);
}

/// Subtraction: C is set exactly where nothing is borrowed, V exactly where the
/// signed difference does not fit a word.
pub proof fn law_sub_flags(a: u32, b: u32, carry: bool)
    ensures
        ({
            let k = one_if(!carry);
            let (r, c, v) = subtracted(a, b, carry);
            &&& c <==> a - b - k >= 0
            &&& c ==> r == a - b - k
            &&& v <==> !(-0x8000_0000 <= signed(a) - signed(b) - k <= 0x7FFF_FFFF)
            &&& !v ==> signed(r) == signed(a) - signed(b) - k
        }),
{
    lemma_signs(a, b, subtracted(a, b, carry).0);
}

/// The encodings of the coprocessors, which the console does not have, do
/// nothing but be counted.
pub proof fn law_undecoded_is_nop(c: Cpu, b: BusModel, op: u32)
    requires
        op & 0x0C00_0000 == 0x0C00_0000,
        op & 0x0F00_0000 != 0x0F00_0000,
    ensures
        arm_executed(c, b, op) == (c.noted_unknown(op), b, 1u32),
{
    reveal(arm_executed);
    reveal(status_or_multiply);
    assert(op & 0x0FFF_FFF0 != 0x012F_FF10 && op & 0x0E00_0000 != 0x0A00_0000 && op & 0x0FBF_0FFF
        != 0x010F_0000 && op & 0x0FB0_FFF0 != 0x0120_F000 && op & 0x0FB0_F000 != 0x0320_F000 && op
        & 0x0FC0_00F0 != 0x0000_0090 && op & 0x0F80_00F0 != 0x0080_0090 && op & 0x0FB0_0FF0
        != 0x0100_0090 && op & 0x0E00_0090 != 0x0000_0090 && op & 0x0C00_0000 != 0x0400_0000 && op
        & 0x0E00_0000 != 0x0800_0000 && op & 0x0C00_0000 != 0) by (bit_vector)
        requires
            op & 0x0C00_0000 == 0x0C00_0000,
    ;
}

} // verus!
