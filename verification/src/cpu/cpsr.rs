//! CPSR / SPSR flags and CPU modes.

use vstd::prelude::*;

verus! {

/// User mode: the only one that may not write the control field.
pub const MODE_USR: u8 = 0x10;

pub const MODE_FIQ: u8 = 0x11;

pub const MODE_IRQ: u8 = 0x12;

pub const MODE_SVC: u8 = 0x13;

pub const MODE_ABT: u8 = 0x17;

pub const MODE_UND: u8 = 0x1B;

pub const MODE_SYS: u8 = 0x1F;

#[derive(Clone, Copy, Debug)]
pub struct Cpsr {
    pub n: bool,
    pub z: bool,
    pub c: bool,
    pub v: bool,
    /// Bits 0-4: USR/FIQ/IRQ/SVC/ABT/UND/SYS.
    pub mode: u8,
    pub thumb: bool,
    pub irq_disable: bool,
    pub fiq_disable: bool,
}

/// `bit` when the flag is set, nothing otherwise.
pub open spec fn flag_bit(on: bool, bit: u32) -> u32 {
    if on {
        bit
    } else {
        0
    }
}

/// All flags clear, mode bits zero.
pub open spec fn cpsr_zero() -> Cpsr {
    Cpsr {
        n: false,
        z: false,
        c: false,
        v: false,
        mode: 0,
        thumb: false,
        irq_disable: false,
        fiq_disable: false,
    }
}

impl Default for Cpsr {
    fn default() -> (r: Self)
        ensures
            r == cpsr_zero(),
    {
        Cpsr {
            n: false,
            z: false,
            c: false,
            v: false,
            mode: 0,
            thumb: false,
            irq_disable: false,
            fiq_disable: false,
        }
    }
}

impl Cpsr {
    /// The status word: N Z C V in bits 31-28, I F T in 7-5, mode in 4-0.
    pub open spec fn word(self) -> u32 {
        flag_bit(self.n, 0x8000_0000) | flag_bit(self.z, 0x4000_0000) | flag_bit(
            self.c,
            0x2000_0000,
        ) | flag_bit(self.v, 0x1000_0000) | flag_bit(self.irq_disable, 0x80) | flag_bit(
            self.fiq_disable,
            0x40,
        ) | flag_bit(self.thumb, 0x20) | ((self.mode as u32) & 0x1F)
    }

    /// The flags that a status word holds.
    pub open spec fn of_word(v: u32) -> Cpsr {
        Cpsr {
            n: v & 0x8000_0000 != 0,
            z: v & 0x4000_0000 != 0,
            c: v & 0x2000_0000 != 0,
            v: v & 0x1000_0000 != 0,
            irq_disable: v & 0x80 != 0,
            fiq_disable: v & 0x40 != 0,
            thumb: v & 0x20 != 0,
            mode: (v & 0x1F) as u8,
        }
    }

    /// N and Z taken from a 32-bit result; everything else kept.
    pub open spec fn with_nz(self, result: u32) -> Cpsr {
        Cpsr { n: (result as i32) < 0, z: result == 0, ..self }
    }

    pub fn new_svc() -> (r: Self)
        ensures
            r == (Cpsr { mode: MODE_SVC, irq_disable: true, fiq_disable: true, ..cpsr_zero() }),
    {
        Cpsr {
            n: false,
            z: false,
            c: false,
            v: false,
            mode: MODE_SVC,
            thumb: false,
            irq_disable: true,
            fiq_disable: true,
        }
    }

    pub fn to_u32(self) -> (r: u32)
        ensures
            r == self.word(),
    {
        let n: u32 = if self.n { 0x8000_0000 } else { 0 };
        let z: u32 = if self.z { 0x4000_0000 } else { 0 };
        let c: u32 = if self.c { 0x2000_0000 } else { 0 };
        let v: u32 = if self.v { 0x1000_0000 } else { 0 };
        let i: u32 = if self.irq_disable { 0x80 } else { 0 };
        let f: u32 = if self.fiq_disable { 0x40 } else { 0 };
        let t: u32 = if self.thumb { 0x20 } else { 0 };
        n | z | c | v | i | f | t | ((self.mode as u32) & 0x1F)
    }

    pub fn from_u32(v: u32) -> (r: Self)
        ensures
            r == Cpsr::of_word(v),
    {
        Cpsr {
            n: v & 0x8000_0000 != 0,
            z: v & 0x4000_0000 != 0,
            c: v & 0x2000_0000 != 0,
            v: v & 0x1000_0000 != 0,
            irq_disable: v & 0x80 != 0,
            fiq_disable: v & 0x40 != 0,
            thumb: v & 0x20 != 0,
            mode: (v & 0x1F) as u8,
        }
    }

    pub fn set_nz(&mut self, result: u32)
        ensures
            *final(self) == old(self).with_nz(result),
    {
        self.n = (result as i32) < 0;
        self.z = result == 0;
    }

    /// N from the sign of the whole result, Z from its low word.
    pub fn set_nz_i64(&mut self, result: i64)
        ensures
            *final(self) == (Cpsr { n: result < 0, z: (result as u32) == 0, ..*old(self) }),
    {
        self.n = result < 0;
        self.z = (result as u32) == 0;
    }
}

/// A status register written to a word and read back is unchanged, as long as
/// its mode fits the five mode bits.
pub proof fn law_word_round_trip(s: Cpsr)
    requires
        s.mode < 0x20,
    ensures
        Cpsr::of_word(s.word()) == s,
{
    let (n, z, c, v) = (s.n, s.z, s.c, s.v);
    let (i, f, t, m) = (s.irq_disable, s.fiq_disable, s.thumb, s.mode);
    let nb = flag_bit(n, 0x8000_0000);
    let zb = flag_bit(z, 0x4000_0000);
    let cb = flag_bit(c, 0x2000_0000);
    let vb = flag_bit(v, 0x1000_0000);
    let ib = flag_bit(i, 0x80);
    let fb = flag_bit(f, 0x40);
    let tb = flag_bit(t, 0x20);
    let w = nb | zb | cb | vb | ib | fb | tb | ((m as u32) & 0x1F);
    assert((w & 0x8000_0000 != 0) == (nb != 0) && (w & 0x4000_0000 != 0) == (zb != 0) && (w
        & 0x2000_0000 != 0) == (cb != 0) && (w & 0x1000_0000 != 0) == (vb != 0) && (w & 0x80 != 0)
        == (ib != 0) && (w & 0x40 != 0) == (fb != 0) && (w & 0x20 != 0) == (tb != 0) && (w & 0x1F)
        as u8 == m) by (bit_vector)
        requires
            w == nb | zb | cb | vb | ib | fb | tb | ((m as u32) & 0x1F),
            nb == 0 || nb == 0x8000_0000,
            zb == 0 || zb == 0x4000_0000,
            cb == 0 || cb == 0x2000_0000,
            vb == 0 || vb == 0x1000_0000,
            ib == 0 || ib == 0x80,
            fb == 0 || fb == 0x40,
            tb == 0 || tb == 0x20,
            m < 0x20,
    ;
}

/// The word of what a word holds keeps exactly the implemented bits.
pub proof fn law_of_word_keeps_implemented_bits(v: u32)
    ensures
        Cpsr::of_word(v).word() == v & 0xF000_00FF,
{
    assert((if v & 0x8000_0000 != 0 { 0x8000_0000u32 } else { 0 }) | (if v & 0x4000_0000 != 0 { 0x4000_0000u32 } else { 0 })
        | (if v & 0x2000_0000 != 0 { 0x2000_0000u32 } else { 0 }) | (if v & 0x1000_0000 != 0 { 0x1000_0000u32 } else { 0 })
        | (if v & 0x80 != 0 { 0x80u32 } else { 0 }) | (if v & 0x40 != 0 { 0x40u32 } else { 0 })
        | (if v & 0x20 != 0 { 0x20u32 } else { 0 }) | ((((v & 0x1F) as u8) as u32) & 0x1F) == v & 0xF000_00FF)
        by (bit_vector);
}

} // verus!
