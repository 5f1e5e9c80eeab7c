//! ARM state decode and execute.

use crate::bios_hle::{swi_arm, swi_served};
use crate::bits::{lemma_low_bits, lemma_one_bit, ror32, rotate_right32};
use crate::bus::model::BusModel;
use crate::bus::Bus;
use crate::cpu::alu::{
    add_flags, added, cond_holds, cond_ok, count_regs, ones, reg4, reg_field, sext16, sext8, shift, shifted, sign_byte,
    sign_half, sub_flags, subtracted,
};
use crate::cpu::cpsr::MODE_USR;
use crate::cpu::{Cpsr, Cpu};
use vstd::prelude::*;

verus! {

/// Register operand; R15 reads eight ahead of the instruction.
pub open spec fn operand(c: Cpu, i: int) -> u32 {
    if i == 15 {
        c.r[15].wrapping_add(4)
    } else {
        c.r[i]
    }
}

/// Shifted or stored register; R15 reads twelve ahead.
pub open spec fn late_operand(c: Cpu, i: int) -> u32 {
    if i == 15 {
        c.r[15].wrapping_add(4).wrapping_add(4)
    } else {
        c.r[i]
    }
}

fn rn_value(cpu: &Cpu, i: usize) -> (r: u32)
    requires
        i < 16,
    ensures
        r == operand(*cpu, i as int),
{
    if i == 15 {
        cpu.pc_arm_read()
    } else {
        cpu.r[i]
    }
}

fn late_value(cpu: &Cpu, i: usize) -> (r: u32)
    requires
        i < 16,
    ensures
        r == late_operand(*cpu, i as int),
{
    if i == 15 {
        cpu.pc_arm_read().wrapping_add(4)
    } else {
        cpu.r[i]
    }
}

/// Second operand of data processing, and the shifter carry.
#[verifier::opaque]
pub open spec fn operand2(c: Cpu, op: u32, carry: bool) -> (u32, bool) {
    if op & 0x0200_0000 != 0 {
        let rot = ((op >> 8) & 0xF) * 2;
        let v = ror32(op & 0xFF, rot as u32);
        if rot == 0 {
            (op & 0xFF, carry)
        } else {
            (v, v & 0x8000_0000 != 0)
        }
    } else {
        let imm = op & 0x10 == 0;
        let amount = if imm {
            (op >> 7) & 0x1F
        } else {
            c.r[reg_field(op, 8)] & 0xFF
        };
        shifted((op >> 5) & 3, late_operand(c, reg_field(op, 0)), amount, imm, carry)
    }
}

fn barrel_shift(cpu: &Cpu, op: u32, carry_in: bool) -> (r: (u32, bool))
    ensures
        r == operand2(*cpu, op, carry_in),
{
    reveal(operand2);
    if op & 0x0200_0000 != 0 {
        let imm: u32 = op & 0xFF;
        let k: usize = reg4(op, 8);
        let rot: u32 = ((op >> 8) & 0xF) * 2;
        if rot == 0 {
            return (imm, carry_in);
        }
        let v: u32 = rotate_right32(imm, rot);
        return (v, v & 0x8000_0000 != 0);
    }
    let val: u32 = late_value(cpu, reg4(op, 0));
    let imm: bool = op & 0x10 == 0;
    let amount: u32 = if imm {
        (op >> 7) & 0x1F
    } else {
        cpu.r[reg4(op, 8)] & 0xFF
    };
    shift((op >> 5) & 3, val, amount, imm, carry_in)
}

/// Result, C and V of a data-processing opcode.
#[verifier::opaque]
pub open spec fn alu_out(opcode: u32, rn: u32, b: u32, shift_c: bool, f: Cpsr) -> (
    u32,
    bool,
    bool,
) {
    if opcode == 0x0 || opcode == 0x8 {
        (rn & b, shift_c, f.v)
    } else if opcode == 0x1 || opcode == 0x9 {
        (rn ^ b, shift_c, f.v)
    } else if opcode == 0x2 || opcode == 0xA {
        subtracted(rn, b, true)
    } else if opcode == 0x3 {
        subtracted(b, rn, true)
    } else if opcode == 0x4 || opcode == 0xB {
        added(rn, b, false)
    } else if opcode == 0x5 {
        added(rn, b, f.c)
    } else if opcode == 0x6 {
        subtracted(rn, b, f.c)
    } else if opcode == 0x7 {
        subtracted(b, rn, f.c)
    } else if opcode == 0xC {
        (rn | b, shift_c, f.v)
    } else if opcode == 0xD {
        (b, shift_c, f.v)
    } else if opcode == 0xE {
        (rn & !b, shift_c, f.v)
    } else {
        (!b, shift_c, f.v)
    }
}

fn alu(opcode: u32, rn: u32, b: u32, shift_c: bool, f: Cpsr) -> (r: (u32, bool, bool))
    ensures
        r == alu_out(opcode, rn, b, shift_c, f),
{
    reveal(alu_out);
    match opcode {
        0x0 | 0x8 => (rn & b, shift_c, f.v),
        0x1 | 0x9 => (rn ^ b, shift_c, f.v),
        0x2 | 0xA => sub_flags(rn, b, true),
        0x3 => sub_flags(b, rn, true),
        0x4 | 0xB => add_flags(rn, b, false),
        0x5 => add_flags(rn, b, f.c),
        0x6 => sub_flags(rn, b, f.c),
        0x7 => sub_flags(b, rn, f.c),
        0xC => (rn | b, shift_c, f.v),
        0xD => (b, shift_c, f.v),
        0xE => (rn & !b, shift_c, f.v),
        _ => (!b, shift_c, f.v),
    }
}

/// Data processing. TST, TEQ, CMP and CMN (8 to 11) only set flags; a result
/// into R15 jumps, with S as an exception return. A shift by a register costs
/// a cycle more.
#[verifier::opaque]
pub open spec fn data_processed(c: Cpu, op: u32) -> (Cpu, u32) {
    let opcode = (op >> 21) & 0xF;
    let s = op & 0x0010_0000 != 0;
    let rd = reg_field(op, 12);
    let (b, shift_c) = operand2(c, op, c.cpsr.c);
    let (result, fc, fv) = alu_out(opcode, operand(c, reg_field(op, 16)), b, shift_c, c.cpsr);
    let write = !(8 <= opcode <= 11);
    let extra: u32 = if op & 0x0200_0010 == 0x10 {
        1
    } else {
        0
    };
    if write && rd == 15 {
        (
            if s {
                c.returned(result)
            } else {
                c.with_r(15, result & !3u32)
            },
            (3 + extra) as u32,
        )
    } else {
        let d = if write {
            c.with_r(rd, result)
        } else {
            c
        };
        (
            if s {
                d.flagged(result, fc, fv)
            } else {
                d
            },
            (1 + extra) as u32,
        )
    }
}

fn data_processing(cpu: &mut Cpu, op: u32) -> (t: u32)
    ensures
        (*final(cpu), t) == data_processed(*old(cpu), op),
        t >= 1,
{
    reveal(data_processed);
    let opcode: u32 = (op >> 21) & 0xF;
    let s: bool = op & 0x0010_0000 != 0;
    let rd: usize = reg4(op, 12);
    let rn: u32 = rn_value(cpu, reg4(op, 16));
    let (b, shift_c) = barrel_shift(cpu, op, cpu.cpsr.c);
    let (result, fc, fv) = alu(opcode, rn, b, shift_c, cpu.cpsr);
    let write: bool = !(8 <= opcode && opcode <= 11);
    let extra: u32 = if op & 0x0200_0010 == 0x10 {
        1
    } else {
        0
    };
    if write && rd == 15 {
        if s {
            cpu.return_to(result);
        } else {
            cpu.r[15] = result & !3;
        }
        return 3 + extra;
    }
    if write {
        cpu.r[rd] = result;
    }
    if s {
        cpu.set_flags(result, fc, fv);
    }
    1 + extra
}

/// Condition flags of a status word from bits 31-28.
pub open spec fn with_flag_bits(s: Cpsr, v: u32) -> Cpsr {
    Cpsr {
        n: v & 0x8000_0000 != 0,
        z: v & 0x4000_0000 != 0,
        c: v & 0x2000_0000 != 0,
        v: v & 0x1000_0000 != 0,
        ..s
    }
}

/// MSR. SPSR takes both fields whole. In CPSR the T bit is not writable, and
/// User mode cannot write the control field.
#[verifier::opaque]
pub open spec fn msr_done(c: Cpu, spsr: bool, field_mask: u32, v: u32) -> Cpu {
    if spsr {
        let f = if field_mask & 8 != 0 {
            with_flag_bits(c.spsr, v)
        } else {
            c.spsr
        };
        Cpu {
            spsr: if field_mask & 1 != 0 {
                Cpsr {
                    mode: (v & 0x1F) as u8,
                    thumb: v & 0x20 != 0,
                    fiq_disable: v & 0x40 != 0,
                    irq_disable: v & 0x80 != 0,
                    ..f
                }
            } else {
                f
            },
            ..c
        }
    } else {
        let d = if field_mask & 8 != 0 {
            Cpu { cpsr: with_flag_bits(c.cpsr, v), ..c }
        } else {
            c
        };
        if field_mask & 1 != 0 && c.cpsr.mode & 0x1F != MODE_USR {
            let e = d.in_mode((v & 0x1F) as u8);
            Cpu {
                cpsr: Cpsr {
                    fiq_disable: v & 0x40 != 0,
                    irq_disable: v & 0x80 != 0,
                    ..e.cpsr
                },
                ..e
            }
        } else {
            d
        }
    }
}

fn flag_bits(s: &mut Cpsr, v: u32)
    ensures
        *final(s) == with_flag_bits(*old(s), v),
{
    s.n = v & 0x8000_0000 != 0;
    s.z = v & 0x4000_0000 != 0;
    s.c = v & 0x2000_0000 != 0;
    s.v = v & 0x1000_0000 != 0;
}

fn apply_msr(cpu: &mut Cpu, spsr: bool, field_mask: u32, v: u32)
    ensures
        *final(cpu) == msr_done(*old(cpu), spsr, field_mask, v),
{
    reveal(msr_done);
    if spsr {
        if field_mask & 8 != 0 {
            flag_bits(&mut cpu.spsr, v);
        }
        if field_mask & 1 != 0 {
            cpu.spsr.mode = (v & 0x1F) as u8;
            cpu.spsr.thumb = v & 0x20 != 0;
            cpu.spsr.fiq_disable = v & 0x40 != 0;
            cpu.spsr.irq_disable = v & 0x80 != 0;
        }
        return;
    }
    if field_mask & 8 != 0 {
        flag_bits(&mut cpu.cpsr, v);
    }
    if field_mask & 1 != 0 {
        // USR cannot write the control field (mode / I / F).
        if cpu.cpsr.mode & 0x1F == MODE_USR {
            return;
        }
        cpu.set_mode((v & 0x1F) as u8);
        // ARM7TDMI: T is not writable via MSR. BX / exception return only.
        cpu.cpsr.fiq_disable = v & 0x40 != 0;
        cpu.cpsr.irq_disable = v & 0x80 != 0;
    }
}

/// A register write that leaves R15 alone.
pub open spec fn stored(c: Cpu, rd: int, v: u32) -> Cpu {
    if rd == 15 {
        c
    } else {
        c.with_r(rd, v)
    }
}

fn store(cpu: &mut Cpu, rd: usize, v: u32)
    requires
        rd < 16,
    ensures
        *final(cpu) == stored(*old(cpu), rd as int, v),
{
    if rd != 15 {
        cpu.r[rd] = v;
    }
}

/// MUL and MLA.
#[verifier::opaque]
pub open spec fn multiplied(c: Cpu, op: u32) -> Cpu {
    let p = c.r[reg_field(op, 0)].wrapping_mul(c.r[reg_field(op, 8)]);
    let result = if op & 0x0020_0000 != 0 {
        p.wrapping_add(c.r[reg_field(op, 12)])
    } else {
        p
    };
    let d = stored(c, reg_field(op, 16), result);
    if op & 0x0010_0000 != 0 {
        Cpu { cpsr: d.cpsr.with_nz(result), ..d }
    } else {
        d
    }
}

fn multiply(cpu: &mut Cpu, op: u32)
    ensures
        *final(cpu) == multiplied(*old(cpu), op),
{
    reveal(multiplied);
    let mut result: u32 = cpu.r[reg4(op, 0)].wrapping_mul(cpu.r[reg4(op, 8)]);
    if op & 0x0020_0000 != 0 {
        result = result.wrapping_add(cpu.r[reg4(op, 12)]);
    }
    store(cpu, reg4(op, 16), result);
    if op & 0x0010_0000 != 0 {
        cpu.cpsr.set_nz(result);
    }
}

/// 64-bit product of two words, signed or not.
pub open spec fn product(a: u32, b: u32, signed: bool) -> u64 {
    if signed {
        (a as i32 as i64).wrapping_mul(b as i32 as i64) as u64
    } else {
        (a as u64).wrapping_mul(b as u64)
    }
}

/// UMULL, UMLAL, SMULL and SMLAL.
#[verifier::opaque]
pub open spec fn long_multiplied(c: Cpu, op: u32) -> Cpu {
    let hi = reg_field(op, 16);
    let lo = reg_field(op, 12);
    let p = product(c.r[reg_field(op, 0)], c.r[reg_field(op, 8)], op & 0x0040_0000 == 0);
    let result = if op & 0x0020_0000 != 0 {
        p.wrapping_add(((c.r[hi] as u64) << 32) | (c.r[lo] as u64))
    } else {
        p
    };
    let d = stored(stored(c, lo, result as u32), hi, (result >> 32) as u32);
    if op & 0x0010_0000 != 0 {
        Cpu { cpsr: Cpsr { n: result >> 63 != 0, z: result == 0, ..d.cpsr }, ..d }
    } else {
        d
    }
}

fn multiply_long(cpu: &mut Cpu, op: u32)
    ensures
        *final(cpu) == long_multiplied(*old(cpu), op),
{
    reveal(long_multiplied);
    let hi: usize = reg4(op, 16);
    let lo: usize = reg4(op, 12);
    let a: u32 = cpu.r[reg4(op, 0)];
    let b: u32 = cpu.r[reg4(op, 8)];
    let mut result: u64 = if op & 0x0040_0000 == 0 {
        (a as i32 as i64).wrapping_mul(b as i32 as i64) as u64
    } else {
        (a as u64).wrapping_mul(b as u64)
    };
    if op & 0x0020_0000 != 0 {
        result = result.wrapping_add(((cpu.r[hi] as u64) << 32) | (cpu.r[lo] as u64));
    }
    store(cpu, lo, result as u32);
    store(cpu, hi, (result >> 32) as u32);
    if op & 0x0010_0000 != 0 {
        cpu.cpsr.n = result >> 63 != 0;
        cpu.cpsr.z = result == 0;
    }
}

/// A word load: the aligned word, rotated so that the addressed byte is lowest.
pub open spec fn word_loaded(b: BusModel, addr: u32) -> (BusModel, u32) {
    let (s, w) = b.read32(addr & !3u32);
    (s, ror32(w, ((addr & 3) * 8) as u32))
}

pub fn load_word(bus: &mut Bus, addr: u32) -> (r: u32)
    requires
        old(bus)@.wf(),
    ensures
        (final(bus)@, r) == word_loaded(old(bus)@, addr),
        final(bus)@.wf(),
{
    proof {
        lemma_low_bits(addr);
    }
    let w: u32 = bus.read32(addr & !3);
    rotate_right32(w, (addr & 3) * 8)
}

/// A halfword load: unaligned ones come rotated right by eight.
pub open spec fn half_loaded(b: BusModel, addr: u32) -> (BusModel, u32) {
    let (s, h) = b.read16(addr & !1u32);
    (
        s,
        if addr & 1 != 0 {
            ror32(h as u32, 8)
        } else {
            h as u32
        },
    )
}

pub fn load_half(bus: &mut Bus, addr: u32) -> (r: u32)
    requires
        old(bus)@.wf(),
    ensures
        (final(bus)@, r) == half_loaded(old(bus)@, addr),
        final(bus)@.wf(),
{
    let h: u32 = bus.read16(addr & !1) as u32;
    if addr & 1 != 0 {
        rotate_right32(h, 8)
    } else {
        h
    }
}

/// SWP and SWPB.
#[verifier::opaque]
pub open spec fn swapped(c: Cpu, b: BusModel, op: u32) -> (Cpu, BusModel) {
    let addr = c.r[reg_field(op, 16)];
    let v = c.r[reg_field(op, 0)];
    if op & 0x0040_0000 != 0 {
        let (s, old_byte) = b.read8(addr);
        (stored(c, reg_field(op, 12), old_byte as u32), s.write8(addr, v as u8))
    } else {
        let (s, old_word) = word_loaded(b, addr);
        (stored(c, reg_field(op, 12), old_word), s.write32(addr & !3u32, v))
    }
}

fn swap(cpu: &mut Cpu, bus: &mut Bus, op: u32)
    requires
        old(bus)@.wf(),
    ensures
        (*final(cpu), final(bus)@) == swapped(*old(cpu), old(bus)@, op),
        final(bus)@.wf(),
{
    reveal(swapped);
    let addr: u32 = cpu.r[reg4(op, 16)];
    let v: u32 = cpu.r[reg4(op, 0)];
    let rd: usize = reg4(op, 12);
    if op & 0x0040_0000 != 0 {
        let was: u32 = bus.read8(addr) as u32;
        bus.write8(addr, v as u8);
        store(cpu, rd, was);
    } else {
        let was: u32 = load_word(bus, addr);
        bus.write32(addr & !3, v);
        store(cpu, rd, was);
    }
}

/// Offset with its direction, and the access address (pre- or post-indexed).
pub open spec fn offset_by(op: u32, offset: u32) -> u32 {
    if op & 0x0080_0000 != 0 {
        offset
    } else {
        0u32.wrapping_sub(offset)
    }
}

pub open spec fn access_addr(op: u32, base: u32, offset: u32) -> u32 {
    if op & 0x0100_0000 != 0 {
        base.wrapping_add(offset)
    } else {
        base
    }
}

/// Base register after a transfer: post-indexing always writes back, and
/// pre-indexing on request; R15 is never written back.
pub open spec fn based(c: Cpu, op: u32, base: u32, offset: u32) -> Cpu {
    if op & 0x0020_0000 != 0 || op & 0x0100_0000 == 0 {
        stored(c, reg_field(op, 16), base.wrapping_add(offset))
    } else {
        c
    }
}

fn write_back(cpu: &mut Cpu, op: u32, base: u32, offset: u32)
    ensures
        *final(cpu) == based(*old(cpu), op, base, offset),
{
    if op & 0x0020_0000 != 0 || op & 0x0100_0000 == 0 {
        store(cpu, reg4(op, 16), base.wrapping_add(offset));
    }
}

/// What a halfword or signed load brings: LDRH, LDRSB, LDRSH (of a byte when
/// unaligned), or a plain byte.
#[verifier::opaque]
pub open spec fn small_loaded(b: BusModel, addr: u32, signed: bool, half: bool) -> (BusModel, u32) {
    if half && !signed {
        half_loaded(b, addr)
    } else if half && addr & 1 == 0 {
        let (s, h) = b.read16(addr);
        (s, sext16(h))
    } else {
        let (s, x) = b.read8(addr);
        (
            s,
            if signed {
                sext8(x)
            } else {
                x as u32
            },
        )
    }
}

fn load_small(bus: &mut Bus, addr: u32, signed: bool, half: bool) -> (r: u32)
    requires
        old(bus)@.wf(),
    ensures
        (final(bus)@, r) == small_loaded(old(bus)@, addr, signed, half),
        final(bus)@.wf(),
{
    reveal(small_loaded);
    if half && !signed {
        load_half(bus, addr)
    } else if half && addr & 1 == 0 {
        sign_half(bus.read16(addr))
    } else {
        let x: u8 = bus.read8(addr);
        if signed {
            sign_byte(x)
        } else {
            x as u32
        }
    }
}

/// Halfword and signed transfers.
#[verifier::opaque]
pub open spec fn half_moved(c: Cpu, b: BusModel, op: u32) -> (Cpu, BusModel, u32) {
    let signed = op & 0x40 != 0;
    let half = op & 0x20 != 0;
    let base = operand(c, reg_field(op, 16));
    let offset = offset_by(
        op,
        if op & 0x0040_0000 != 0 {
            ((op >> 4) & 0xF0) | (op & 0xF)
        } else {
            c.r[reg_field(op, 0)]
        },
    );
    let addr = access_addr(op, base, offset);
    let rd = reg_field(op, 12);
    let (d, s) = if op & 0x0010_0000 != 0 {
        let (s, v) = small_loaded(b, addr, signed, half);
        (stored(c, rd, v), s)
    } else if half && !signed {
        (c, b.write16(addr & !1u32, late_operand(c, rd) as u16))
    } else {
        (c, b)
    };
    let (t, wait) = s.data_waits(
        addr,
        if half {
            2
        } else {
            1
        },
    );
    (based(d, op, base, offset), t, (2 + wait) as u32)
}

fn ldrh_strh(cpu: &mut Cpu, bus: &mut Bus, op: u32) -> (t: u32)
    requires
        old(bus)@.wf(),
    ensures
        (*final(cpu), final(bus)@, t) == half_moved(*old(cpu), old(bus)@, op),
        final(bus)@.wf(),
        t >= 1,
{
    reveal(half_moved);
    let signed: bool = op & 0x40 != 0;
    let half: bool = op & 0x20 != 0;
    let base: u32 = rn_value(cpu, reg4(op, 16));
    let plain: u32 = if op & 0x0040_0000 != 0 {
        ((op >> 4) & 0xF0) | (op & 0xF)
    } else {
        cpu.r[reg4(op, 0)]
    };
    let offset: u32 = if op & 0x0080_0000 != 0 {
        plain
    } else {
        0u32.wrapping_sub(plain)
    };
    let addr: u32 = if op & 0x0100_0000 != 0 {
        base.wrapping_add(offset)
    } else {
        base
    };
    let rd: usize = reg4(op, 12);
    if op & 0x0010_0000 != 0 {
        let v: u32 = load_small(bus, addr, signed, half);
        store(cpu, rd, v);
    } else if half && !signed {
        let v: u32 = late_value(cpu, rd);
        bus.write16(addr & !1, v as u16);
    }
    write_back(cpu, op, base, offset);
    let bytes: u32 = if half {
        2
    } else {
        1
    };
    2 + bus.data_waitstates(addr, bytes)
}

/// Addressing mode 2 offset: a 12-bit immediate, or Rm shifted by an
/// immediate (where zero means 32, or RRX).
#[verifier::opaque]
pub open spec fn mode2_offset(c: Cpu, op: u32) -> u32 {
    if op & 0x0200_0000 == 0 {
        op & 0xFFF
    } else {
        shifted(
            (op >> 5) & 3,
            late_operand(c, reg_field(op, 0)),
            (op >> 7) & 0x1F,
            true,
            c.cpsr.c,
        ).0
    }
}

fn addr_mode2_offset(cpu: &Cpu, op: u32) -> (r: u32)
    ensures
        r == mode2_offset(*cpu, op),
{
    reveal(mode2_offset);
    if op & 0x0200_0000 == 0 {
        return op & 0xFFF;
    }
    let val: u32 = late_value(cpu, reg4(op, 0));
    shift((op >> 5) & 3, val, (op >> 7) & 0x1F, true, cpu.cpsr.c).0
}

/// LDR, STR, LDRB and STRB. A load into R15 stays in ARM state.
#[verifier::opaque]
pub open spec fn single_moved(c: Cpu, b: BusModel, op: u32) -> (Cpu, BusModel, u32) {
    let byte = op & 0x0040_0000 != 0;
    let base = operand(c, reg_field(op, 16));
    let offset = offset_by(op, mode2_offset(c, op));
    let addr = access_addr(op, base, offset);
    let rd = reg_field(op, 12);
    let (d, s) = if op & 0x0010_0000 != 0 {
        let (s, v) = if byte {
            let (s, x) = b.read8(addr);
            (s, x as u32)
        } else {
            word_loaded(b, addr)
        };
        (
            if rd == 15 {
                c.with_r(15, v & !3u32)
            } else {
                c.with_r(rd, v)
            },
            s,
        )
    } else if byte {
        (c, b.write8(addr, late_operand(c, rd) as u8))
    } else {
        (c, b.write32(addr & !3u32, late_operand(c, rd)))
    };
    let (t, wait) = s.data_waits(
        addr,
        if byte {
            1
        } else {
            4
        },
    );
    (based(d, op, base, offset), t, (2 + wait) as u32)
}

fn ldr_str(cpu: &mut Cpu, bus: &mut Bus, op: u32) -> (t: u32)
    requires
        old(bus)@.wf(),
    ensures
        (*final(cpu), final(bus)@, t) == single_moved(*old(cpu), old(bus)@, op),
        final(bus)@.wf(),
        t >= 1,
{
    reveal(single_moved);
    let byte: bool = op & 0x0040_0000 != 0;
    let base: u32 = rn_value(cpu, reg4(op, 16));
    let plain: u32 = addr_mode2_offset(cpu, op);
    let offset: u32 = if op & 0x0080_0000 != 0 {
        plain
    } else {
        0u32.wrapping_sub(plain)
    };
    let addr: u32 = if op & 0x0100_0000 != 0 {
        base.wrapping_add(offset)
    } else {
        base
    };
    let rd: usize = reg4(op, 12);
    if op & 0x0010_0000 != 0 {
        let v: u32 = if byte {
            bus.read8(addr) as u32
        } else {
            load_word(bus, addr)
        };
        if rd == 15 {
            cpu.r[15] = v & !3;
        } else {
            cpu.r[rd] = v;
        }
    } else {
        let v: u32 = late_value(cpu, rd);
        if byte {
            bus.write8(addr, v as u8);
        } else {
            bus.write32(addr & !3, v);
        }
    }
    write_back(cpu, op, base, offset);
    2 + bus.data_waitstates(
        addr,
        if byte {
            1
        } else {
            4
        },
    )
}

/// One register of a block transfer: word `a` to or from register `i`.
/// `user` selects the User bank of R8-R14; a loaded R15 with S is an
/// exception return; a stored base that is not first in the list goes out
/// with its final value.
#[verifier::opaque]
pub open spec fn block_word(
    c: Cpu,
    b: BusModel,
    op: u32,
    list: u32,
    i: int,
    a: u32,
    user: bool,
    final_base: u32,
) -> (Cpu, BusModel) {
    let rn = reg_field(op, 16);
    if op & 0x0010_0000 != 0 {
        let (s, v) = b.read32(a);
        (
            if i == 15 {
                if op & 0x0040_0000 != 0 {
                    c.returned(v)
                } else {
                    c.with_r(15, v & !3u32)
                }
            } else if user && 8 <= i {
                c.with_user_reg(i, v)
            } else {
                c.with_r(i, v)
            },
            s,
        )
    } else {
        let v = if i == 15 {
            late_operand(c, 15)
        } else if i == rn && list & (((1u32 << (i as u32)) - 1) as u32) != 0 {
            final_base
        } else if user && 8 <= i {
            c.user_reg_of(i)
        } else {
            c.r[i]
        };
        (c, b.write32(a, v))
    }
}

fn move_block_word(
    cpu: &mut Cpu,
    bus: &mut Bus,
    op: u32,
    list: u32,
    i: usize,
    a: u32,
    user: bool,
    final_base: u32,
)
    requires
        old(bus)@.wf(),
        i < 16,
    ensures
        (*final(cpu), final(bus)@) == block_word(
            *old(cpu),
            old(bus)@,
            op,
            list,
            i as int,
            a,
            user,
            final_base,
        ),
        final(bus)@.wf(),
{
    reveal(block_word);
    let k: u32 = i as u32;
    proof {
        lemma_one_bit(k);
    }
    let rn: usize = reg4(op, 16);
    if op & 0x0010_0000 != 0 {
        let v: u32 = bus.read32(a);
        if i == 15 {
            // Exception return: LDM with S and PC restores SPSR
            if op & 0x0040_0000 != 0 {
                cpu.return_to(v);
            } else {
                cpu.r[15] = v & !3;
            }
        } else if user && 8 <= i {
            cpu.set_user_reg(i, v);
        } else {
            cpu.r[i] = v;
        }
    } else {
        let v: u32 = if i == 15 {
            late_value(cpu, 15)
        } else if i == rn && list & ((1u32 << k) - 1) != 0 {
            final_base
        } else if user && 8 <= i {
            cpu.user_reg(i)
        } else {
            cpu.r[i]
        };
        bus.write32(a, v);
    }
}

/// The first `n` registers of a block transfer, from address `start` up.
pub open spec fn block_words(
    c: Cpu,
    b: BusModel,
    op: u32,
    list: u32,
    start: u32,
    user: bool,
    final_base: u32,
    n: nat,
) -> (Cpu, BusModel, u32)
    decreases n,
{
    if n == 0 {
        (c, b, start)
    } else {
        let i = (n - 1) as nat;
        let (d, s, a) = block_words(c, b, op, list, start, user, final_base, i);
        if list & (1u32 << (i as u32)) != 0 {
            let (e, t) = block_word(d, s, op, list, i as int, a, user, final_base);
            (e, t, a.wrapping_add(4))
        } else {
            (d, s, a)
        }
    }
}

/// LDM and STM. An empty list moves R15 alone and counts as sixteen. S without
/// a loaded R15 moves the User bank. A loaded base register is not written
/// back.
#[verifier::opaque]
pub open spec fn block_moved(c: Cpu, b: BusModel, op: u32) -> (Cpu, BusModel, u32) {
    let rn = reg_field(op, 16);
    let empty = op & 0xFFFF == 0;
    let list = if empty {
        0x8000u32
    } else {
        op & 0xFFFF
    };
    let count = if empty {
        16
    } else {
        ones(list, 16) as u32
    };
    let up = op & 0x0080_0000 != 0;
    let pre = op & 0x0100_0000 != 0;
    let load = op & 0x0010_0000 != 0;
    let base = c.r[rn];
    let final_base = if up {
        base.wrapping_add((4 * count) as u32)
    } else {
        base.wrapping_sub((4 * count) as u32)
    };
    let start = if up {
        if pre {
            base.wrapping_add(4)
        } else {
            base
        }
    } else if pre {
        final_base
    } else {
        final_base.wrapping_add(4)
    };
    let user = op & 0x0040_0000 != 0 && !(load && list & 0x8000 != 0);
    let base_in_list = !empty && list & (1u32 << (rn as u32)) != 0;
    let (d, s, _a) = block_words(c, b, op, list, start, user, final_base, 16);
    let e = if op & 0x0020_0000 != 0 && rn != 15 && !user && !(load && base_in_list) {
        d.with_r(rn, final_base)
    } else {
        d
    };
    let (t, wait) = s.burst_waits(start, count);
    (e, t, (count + 1 + wait) as u32)
}

fn move_block_words(
    cpu: &mut Cpu,
    bus: &mut Bus,
    op: u32,
    list: u32,
    start: u32,
    user: bool,
    final_base: u32,
)
    requires
        old(bus)@.wf(),
    ensures
        ({
            let z = block_words(*old(cpu), old(bus)@, op, list, start, user, final_base, 16);
            *final(cpu) == z.0 && final(bus)@ == z.1
        }),
        final(bus)@.wf(),
{
    let mut a: u32 = start;
    let mut i: usize = 0;
    while i < 16
        invariant
            i <= 16,
            bus@.wf(),
            (*cpu, bus@, a) == block_words(
                *old(cpu),
                old(bus)@,
                op,
                list,
                start,
                user,
                final_base,
                i as nat,
            ),
        decreases 16 - i,
    {
        if list & (1u32 << (i as u32)) != 0 {
            move_block_word(cpu, bus, op, list, i, a, user, final_base);
            a = a.wrapping_add(4);
        }
        i += 1;
    }
}

fn ldm_stm(cpu: &mut Cpu, bus: &mut Bus, op: u32) -> (t: u32)
    requires
        old(bus)@.wf(),
    ensures
        (*final(cpu), final(bus)@, t) == block_moved(*old(cpu), old(bus)@, op),
        final(bus)@.wf(),
        t >= 1,
{
    reveal(block_moved);
    let rn: usize = reg4(op, 16);
    let empty: bool = op & 0xFFFF == 0;
    let list: u32 = if empty {
        0x8000
    } else {
        op & 0xFFFF
    };
    let count: u32 = if empty {
        16
    } else {
        count_regs(list, 16)
    };
    let up: bool = op & 0x0080_0000 != 0;
    let pre: bool = op & 0x0100_0000 != 0;
    let load: bool = op & 0x0010_0000 != 0;
    let base: u32 = cpu.r[rn];
    let final_base: u32 = if up {
        base.wrapping_add(4 * count)
    } else {
        base.wrapping_sub(4 * count)
    };
    let start: u32 = if up {
        if pre {
            base.wrapping_add(4)
        } else {
            base
        }
    } else if pre {
        final_base
    } else {
        final_base.wrapping_add(4)
    };
    let user: bool = op & 0x0040_0000 != 0 && !(load && list & 0x8000 != 0);
    let base_in_list: bool = !empty && list & (1u32 << (rn as u32)) != 0;
    move_block_words(cpu, bus, op, list, start, user, final_base);
    if op & 0x0020_0000 != 0 && rn != 15 && !user && !(load && base_in_list) {
        cpu.r[rn] = final_base;
    }
    count + 1 + bus.data_burst_waitstates(start, count)
}

/// B and BL.
#[verifier::opaque]
pub open spec fn branched(c: Cpu, op: u32) -> Cpu {
    let imm = if op & 0x0080_0000 != 0 {
        (op & 0x00FF_FFFF) | 0xFF00_0000u32
    } else {
        op & 0x00FF_FFFF
    };
    let target = c.r[15].wrapping_add(4).wrapping_add(imm << 2);
    if op & 0x0100_0000 != 0 {
        c.with_r(14, c.r[15]).with_r(15, target)
    } else {
        c.with_r(15, target)
    }
}

fn branch(cpu: &mut Cpu, op: u32)
    ensures
        *final(cpu) == branched(*old(cpu), op),
{
    reveal(branched);
    let imm: u32 = if op & 0x0080_0000 != 0 {
        (op & 0x00FF_FFFF) | 0xFF00_0000
    } else {
        op & 0x00FF_FFFF
    };
    let target: u32 = cpu.r[15].wrapping_add(4).wrapping_add(imm << 2);
    if op & 0x0100_0000 != 0 {
        cpu.r[14] = cpu.r[15];
    }
    cpu.r[15] = target;
}

/// Instructions that leave memory alone: MRS, MSR and the multiplies.
#[verifier::opaque]
pub open spec fn status_or_multiply(c: Cpu, op: u32) -> Option<(Cpu, u32)> {
    if op & 0x0FBF_0FFF == 0x010F_0000 {
        let v = if op & 0x0040_0000 != 0 {
            c.spsr.word()
        } else {
            c.cpsr.word()
        };
        Some((stored(c, reg_field(op, 12), v), 1))
    } else if op & 0x0FB0_FFF0 == 0x0120_F000 {
        Some(
            (
                msr_done(c, op & 0x0040_0000 != 0, (op >> 16) & 0xF, c.r[reg_field(op, 0)]),
                1,
            ),
        )
    } else if op & 0x0FB0_F000 == 0x0320_F000 {
        let rot = ((op >> 8) & 0xF) * 2;
        Some(
            (
                msr_done(
                    c,
                    op & 0x0040_0000 != 0,
                    (op >> 16) & 0xF,
                    ror32(op & 0xFF, rot as u32),
                ),
                1,
            ),
        )
    } else if op & 0x0FC0_00F0 == 0x0000_0090 {
        Some((multiplied(c, op), 2))
    } else if op & 0x0F80_00F0 == 0x0080_0090 {
        Some((long_multiplied(c, op), 3))
    } else {
        None
    }
}

fn exec_status_or_multiply(cpu: &mut Cpu, op: u32) -> (t: Option<u32>)
    ensures
        match status_or_multiply(*old(cpu), op) {
            Some((c, n)) => *final(cpu) == c && t == Some(n),
            None => *final(cpu) == *old(cpu) && t is None,
        },
        t is Some ==> t->0 >= 1,
{
    reveal(status_or_multiply);
    if op & 0x0FBF_0FFF == 0x010F_0000 {
        let v: u32 = if op & 0x0040_0000 != 0 {
            cpu.spsr.to_u32()
        } else {
            cpu.cpsr.to_u32()
        };
        store(cpu, reg4(op, 12), v);
        return Some(1);
    }
    if op & 0x0FB0_FFF0 == 0x0120_F000 {
        let v: u32 = cpu.r[reg4(op, 0)];
        apply_msr(cpu, op & 0x0040_0000 != 0, (op >> 16) & 0xF, v);
        return Some(1);
    }
    if op & 0x0FB0_F000 == 0x0320_F000 {
        let k: usize = reg4(op, 8);
        let rot: u32 = ((op >> 8) & 0xF) * 2;
        let v: u32 = rotate_right32(op & 0xFF, rot);
        apply_msr(cpu, op & 0x0040_0000 != 0, (op >> 16) & 0xF, v);
        return Some(1);
    }
    if op & 0x0FC0_00F0 == 0x0000_0090 {
        multiply(cpu, op);
        return Some(2);
    }
    if op & 0x0F80_00F0 == 0x0080_0090 {
        multiply_long(cpu, op);
        return Some(3);
    }
    None
}

/// One ARM instruction whose condition holds.
#[verifier::opaque]
pub open spec fn arm_executed(c: Cpu, b: BusModel, op: u32) -> (Cpu, BusModel, u32) {
    if op & 0x0FFF_FFF0 == 0x012F_FF10 {
        (c.exchanged(c.r[reg_field(op, 0)]), b, 3)
    } else if op & 0x0E00_0000 == 0x0A00_0000 {
        (branched(c, op), b, 3)
    } else if op & 0x0F00_0000 == 0x0F00_0000 {
        let (d, s) = swi_served(c, b, (op & 0xFF) as u8);
        (d, s, 3)
    } else {
        match status_or_multiply(c, op) {
            Some((d, t)) => (d, b, t),
            None => if op & 0x0FB0_0FF0 == 0x0100_0090 {
                let (d, s) = swapped(c, b, op);
                (d, s, 2)
            } else if op & 0x0E00_0090 == 0x0000_0090 {
                half_moved(c, b, op)
            } else if op & 0x0C00_0000 == 0x0400_0000 {
                single_moved(c, b, op)
            } else if op & 0x0E00_0000 == 0x0800_0000 {
                block_moved(c, b, op)
            } else if op & 0x0C00_0000 == 0 {
                let (d, t) = data_processed(c, op);
                (d, b, t)
            } else {
                (c.noted_unknown(op), b, 1)
            },
        }
    }
}

fn exec_arm(cpu: &mut Cpu, bus: &mut Bus, op: u32) -> (t: u32)
    requires
        old(bus)@.wf(),
    ensures
        (*final(cpu), final(bus)@, t) == arm_executed(*old(cpu), old(bus)@, op),
        final(bus)@.wf(),
        t >= 1,
{
    reveal(arm_executed);
    if op & 0x0FFF_FFF0 == 0x012F_FF10 {
        let v: u32 = cpu.r[reg4(op, 0)];
        cpu.exchange(v);
        return 3;
    }
    if op & 0x0E00_0000 == 0x0A00_0000 {
        branch(cpu, op);
        return 3;
    }
    if op & 0x0F00_0000 == 0x0F00_0000 {
        swi_arm(cpu, bus, op);
        return 3;
    }
    if let Some(t) = exec_status_or_multiply(cpu, op) {
        return t;
    }
    if op & 0x0FB0_0FF0 == 0x0100_0090 {
        swap(cpu, bus, op);
        return 2;
    }
    if op & 0x0E00_0090 == 0x0000_0090 {
        return ldrh_strh(cpu, bus, op);
    }
    if op & 0x0C00_0000 == 0x0400_0000 {
        return ldr_str(cpu, bus, op);
    }
    if op & 0x0E00_0000 == 0x0800_0000 {
        return ldm_stm(cpu, bus, op);
    }
    if op & 0x0C00_0000 == 0 {
        return data_processing(cpu, op);
    }
    cpu.note_unknown(op);
    1
}

/// Fetch, condition, execute.
#[verifier::opaque]
pub open spec fn arm_stepped(c: Cpu, b: BusModel) -> (Cpu, BusModel, u32) {
    let pc = c.r[15];
    let (s, op) = b.read32(pc);
    let d = c.with_r(15, pc.wrapping_add(4));
    let (e, t, n) = if cond_holds(d.cpsr, op >> 28) {
        arm_executed(d, s, op)
    } else {
        (d, s, 1)
    };
    (Cpu { cycles: e.cycles.wrapping_add(n as u64), ..e }, t, n)
}

pub fn step(cpu: &mut Cpu, bus: &mut Bus) -> (t: u32)
    requires
        old(bus)@.wf(),
    ensures
        (*final(cpu), final(bus)@, t) == arm_stepped(*old(cpu), old(bus)@),
        final(bus)@.wf(),
        t >= 1,
{
    reveal(arm_stepped);
    let pc: u32 = cpu.r[15];
    let op: u32 = bus.read32(pc);
    cpu.r[15] = pc.wrapping_add(4);
    if !cond_ok(cpu.cpsr, op >> 28) {
        cpu.cycles = cpu.cycles.wrapping_add(1);
        return 1;
    }
    let n: u32 = exec_arm(cpu, bus, op);
    cpu.cycles = cpu.cycles.wrapping_add(n as u64);
    n
}

} // verus!
