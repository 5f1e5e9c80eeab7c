//! Conditions, flags and the shifter, shared by both instruction sets.

use crate::bits::{lemma_low5, lemma_low_bits, ror32, rotate_right32};
use crate::cpu::{Cpsr, Cpu};
use vstd::prelude::*;

verus! {

/// Condition field of an instruction against the flags.
pub open spec fn cond_holds(s: Cpsr, cond: u32) -> bool {
    if cond == 0x0 {
        s.z
    } else if cond == 0x1 {
        !s.z
    } else if cond == 0x2 {
        s.c
    } else if cond == 0x3 {
        !s.c
    } else if cond == 0x4 {
        s.n
    } else if cond == 0x5 {
        !s.n
    } else if cond == 0x6 {
        s.v
    } else if cond == 0x7 {
        !s.v
    } else if cond == 0x8 {
        s.c && !s.z
    } else if cond == 0x9 {
        !s.c || s.z
    } else if cond == 0xA {
        s.n == s.v
    } else if cond == 0xB {
        s.n != s.v
    } else if cond == 0xC {
        !s.z && s.n == s.v
    } else if cond == 0xD {
        s.z || s.n != s.v
    } else {
        cond != 0xF
    }
}

pub fn cond_ok(s: Cpsr, cond: u32) -> (r: bool)
    ensures
        r == cond_holds(s, cond),
{
    match cond {
        0x0 => s.z,
        0x1 => !s.z,
        0x2 => s.c,
        0x3 => !s.c,
        0x4 => s.n,
        0x5 => !s.n,
        0x6 => s.v,
        0x7 => !s.v,
        0x8 => s.c && !s.z,
        0x9 => !s.c || s.z,
        0xA => s.n == s.v,
        0xB => s.n != s.v,
        0xC => !s.z && s.n == s.v,
        0xD => s.z || s.n != s.v,
        0xF => false,
        _ => true,
    }
}

pub open spec fn one_if(b: bool) -> u32 {
    if b {
        1
    } else {
        0
    }
}

/// `a + b + carry`: the word, the carry out, and signed overflow.
pub open spec fn added(a: u32, b: u32, carry: bool) -> (u32, bool, bool) {
    let r = a.wrapping_add(b).wrapping_add(one_if(carry));
    (r, a + b + one_if(carry) > 0xFFFF_FFFF, (!(a ^ b) & (a ^ r)) >> 31 != 0)
}

/// `a - b - !carry`: the word, the carry out (no borrow), and signed overflow.
pub open spec fn subtracted(a: u32, b: u32, carry: bool) -> (u32, bool, bool) {
    let r = a.wrapping_sub(b).wrapping_sub(one_if(!carry));
    (r, a >= b + one_if(!carry), ((a ^ b) & (a ^ r)) >> 31 != 0)
}

pub fn add_flags(a: u32, b: u32, carry: bool) -> (r: (u32, bool, bool))
    ensures
        r == added(a, b, carry),
{
    let k: u32 = if carry {
        1
    } else {
        0
    };
    let v: u32 = a.wrapping_add(b).wrapping_add(k);
    let wide: u64 = a as u64 + b as u64 + k as u64;
    (v, wide > 0xFFFF_FFFF, (!(a ^ b) & (a ^ v)) >> 31 != 0)
}

pub fn sub_flags(a: u32, b: u32, carry: bool) -> (r: (u32, bool, bool))
    ensures
        r == subtracted(a, b, carry),
{
    let k: u32 = if carry {
        0
    } else {
        1
    };
    let v: u32 = a.wrapping_sub(b).wrapping_sub(k);
    (v, a as u64 >= b as u64 + k as u64, ((a ^ b) & (a ^ v)) >> 31 != 0)
}

/// The shifter: LSL, LSR, ASR or ROR of a word, and the bit shifted out last.
/// An immediate amount of zero means 32 for LSR and ASR, and RRX for ROR; a
/// register amount of zero changes nothing.
#[verifier::opaque]
pub open spec fn shifted(kind: u32, val: u32, amount: u32, imm: bool, carry: bool) -> (u32, bool) {
    let a = if imm && amount == 0 {
        32
    } else {
        amount
    };
    if kind == 0 {
        if amount == 0 {
            (val, carry)
        } else if amount < 32 {
            (val << amount, (val >> ((32 - amount) as u32)) & 1 != 0)
        } else {
            (0, amount == 32 && val & 1 != 0)
        }
    } else if kind == 1 {
        if a == 0 {
            (val, carry)
        } else if a < 32 {
            (val >> a, (val >> ((a - 1) as u32)) & 1 != 0)
        } else {
            (0, a == 32 && (val >> 31) & 1 != 0)
        }
    } else if kind == 2 {
        if a == 0 {
            (val, carry)
        } else if a < 32 {
            (((val as i32) >> a) as u32, (val >> ((a - 1) as u32)) & 1 != 0)
        } else if (val >> 31) & 1 != 0 {
            (0xFFFF_FFFF, true)
        } else {
            (0, false)
        }
    } else if imm && amount == 0 {
        (
            (val >> 1) | (if carry {
                0x8000_0000u32
            } else {
                0
            }),
            val & 1 != 0,
        )
    } else if amount == 0 {
        (val, carry)
    } else if amount & 31 == 0 {
        (val, (val >> 31) & 1 != 0)
    } else {
        (ror32(val, amount & 31), (val >> (((amount & 31) - 1) as u32)) & 1 != 0)
    }
}

pub fn shift(kind: u32, val: u32, amount: u32, imm: bool, carry: bool) -> (r: (u32, bool))
    ensures
        r == shifted(kind, val, amount, imm, carry),
{
    reveal(shifted);
    let a: u32 = if imm && amount == 0 {
        32
    } else {
        amount
    };
    if kind == 0 {
        if amount == 0 {
            (val, carry)
        } else if amount < 32 {
            (val << amount, (val >> (32 - amount)) & 1 != 0)
        } else {
            (0, amount == 32 && val & 1 != 0)
        }
    } else if kind == 1 {
        if a == 0 {
            (val, carry)
        } else if a < 32 {
            (val >> a, (val >> (a - 1)) & 1 != 0)
        } else {
            (0, a == 32 && (val >> 31) & 1 != 0)
        }
    } else if kind == 2 {
        if a == 0 {
            (val, carry)
        } else if a < 32 {
            (((val as i32) >> a) as u32, (val >> (a - 1)) & 1 != 0)
        } else if (val >> 31) & 1 != 0 {
            (0xFFFF_FFFF, true)
        } else {
            (0, false)
        }
    } else if imm && amount == 0 {
        (
            (val >> 1) | (if carry {
                0x8000_0000u32
            } else {
                0
            }),
            val & 1 != 0,
        )
    } else if amount == 0 {
        (val, carry)
    } else {
        let k: u32 = amount & 31;
        proof {
            lemma_low5(amount);
        }
        if k == 0 {
            (val, (val >> 31) & 1 != 0)
        } else {
            (rotate_right32(val, k), (val >> (k - 1)) & 1 != 0)
        }
    }
}

/// A byte or halfword, sign-extended to a word.
pub open spec fn sext8(b: u8) -> u32 {
    b as i8 as i32 as u32
}

pub open spec fn sext16(h: u16) -> u32 {
    h as i16 as i32 as u32
}

pub fn sign_byte(b: u8) -> (r: u32)
    ensures
        r == sext8(b),
{
    b as i8 as i32 as u32
}

pub fn sign_half(h: u16) -> (r: u32)
    ensures
        r == sext16(h),
{
    h as i16 as i32 as u32
}

/// A field of an opcode as a register number.
pub open spec fn reg_field(op: u32, shift: u32) -> int {
    ((op >> shift) & 0xF) as int
}

pub open spec fn low_reg(op: u32, shift: u32) -> int {
    ((op >> shift) & 7) as int
}

pub fn reg4(op: u32, shift: u32) -> (r: usize)
    requires
        shift < 32,
    ensures
        r == reg_field(op, shift),
        r < 16,
{
    let v: u32 = op >> shift;
    proof {
        lemma_low_bits(v);
    }
    (v & 0xF) as usize
}

pub fn reg3(op: u32, shift: u32) -> (r: usize)
    requires
        shift < 32,
    ensures
        r == low_reg(op, shift),
        r < 8,
{
    let v: u32 = op >> shift;
    proof {
        lemma_low_bits(v);
    }
    (v & 7) as usize
}

/// Bits set among the first `n` of a register list.
pub open spec fn ones(list: u32, n: nat) -> nat
    decreases n,
{
    if n == 0 {
        0
    } else {
        ones(list, (n - 1) as nat) + (if list & (1u32 << ((n - 1) as u32)) != 0 {
            1nat
        } else {
            0nat
        })
    }
}

pub fn count_regs(list: u32, n: u32) -> (r: u32)
    requires
        n <= 16,
    ensures
        r == ones(list, n as nat),
        r <= n,
{
    let mut i: u32 = 0;
    let mut c: u32 = 0;
    while i < n
        invariant
            i <= n <= 16,
            c <= i,
            c == ones(list, i as nat),
        decreases n - i,
    {
        if list & (1u32 << i) != 0 {
            c += 1;
        }
        i += 1;
    }
    c
}

impl Cpu {
    /// N and Z from a result, C and V given.
    pub open spec fn flagged(self, result: u32, c: bool, v: bool) -> Cpu {
        Cpu { cpsr: Cpsr { c, v, ..self.cpsr.with_nz(result) }, ..self }
    }

    pub fn set_flags(&mut self, result: u32, c: bool, v: bool)
        ensures
            *final(self) == old(self).flagged(result, c, v),
    {
        self.cpsr.set_nz(result);
        self.cpsr.c = c;
        self.cpsr.v = v;
    }

    /// A jump that also selects the instruction set by bit 0.
    pub open spec fn exchanged(self, v: u32) -> Cpu {
        Cpu { cpsr: Cpsr { thumb: v & 1 != 0, ..self.cpsr }, ..self }.with_r(15, v & !1u32)
    }

    pub fn exchange(&mut self, v: u32)
        ensures
            *final(self) == old(self).exchanged(v),
    {
        self.cpsr.thumb = (v & 1) != 0;
        self.r[15] = v & !1;
    }

    /// Exception return: SPSR back to CPSR, and a jump aligned for the
    /// instruction set that it selects.
    #[verifier::opaque]
    pub open spec fn returned(self, v: u32) -> Cpu {
        self.spsr_restored().with_r(
            15,
            if self.spsr.thumb {
                v & !1u32
            } else {
                v & !3u32
            },
        )
    }

    pub fn return_to(&mut self, v: u32)
        ensures
            *final(self) == old(self).returned(v),
    {
        reveal(Cpu::returned);
        let thumb: bool = self.spsr.thumb;
        self.restore_spsr();
        self.r[15] = if thumb {
            v & !1
        } else {
            v & !3
        };
    }
}

} // verus!
