//! Thumb state decode and execute.

use crate::bits::lemma_and32;
use crate::bios_hle::{swi_served, swi_thumb};
use crate::bus::model::BusModel;
use crate::bus::Bus;
use crate::cpu::alu::{
    add_flags, added, cond_holds, cond_ok, count_regs, low_reg, ones, reg3, reg4, reg_field, sext16, sext8, shift,
    shifted, sign_byte, sign_half, sub_flags, subtracted,
};
use crate::cpu::arm::{half_loaded, load_half, load_word, word_loaded};
use crate::cpu::{Cpsr, Cpu};
use vstd::prelude::*;

verus! {

/// R15 as an operand reads four ahead of the instruction.
pub open spec fn high_operand(c: Cpu, i: int) -> u32 {
    if i == 15 {
        c.r[15].wrapping_add(2)
    } else {
        c.r[i]
    }
}

fn high_value(cpu: &Cpu, i: usize) -> (r: u32)
    requires
        i < 16,
    ensures
        r == high_operand(*cpu, i as int),
{
    if i == 15 {
        cpu.pc_thumb_read()
    } else {
        cpu.r[i]
    }
}

/// 11-bit and 8-bit branch offsets, sign-extended.
pub open spec fn offset11(op: u32) -> u32 {
    if op & 0x400 != 0 {
        (op & 0x7FF) | 0xFFFF_F800u32
    } else {
        op & 0x7FF
    }
}

pub open spec fn offset8(op: u32) -> u32 {
    if op & 0x80 != 0 {
        (op & 0xFF) | 0xFFFF_FF00u32
    } else {
        op & 0xFF
    }
}

fn far_offset(op: u32) -> (r: u32)
    ensures
        r == offset11(op),
{
    if op & 0x400 != 0 {
        (op & 0x7FF) | 0xFFFF_F800
    } else {
        op & 0x7FF
    }
}

fn near_offset(op: u32) -> (r: u32)
    ensures
        r == offset8(op),
{
    if op & 0x80 != 0 {
        (op & 0xFF) | 0xFFFF_FF00
    } else {
        op & 0xFF
    }
}

/// B, the two halves of BL, and the conditional branches.
#[verifier::opaque]
pub open spec fn thumb_branched(c: Cpu, op: u32) -> Option<(Cpu, u32)> {
    let pc = c.r[15];
    if op & 0xF800 == 0xE000 {
        Some((c.with_r(15, pc.wrapping_add(2).wrapping_add(offset11(op) << 1)), 3))
    } else if op & 0xF800 == 0xF000 {
        Some((c.with_r(14, pc.wrapping_add(2).wrapping_add(offset11(op) << 12)), 1))
    } else if op & 0xF800 == 0xF800 {
        let target = c.r[14].wrapping_add((op & 0x7FF) << 1);
        Some((c.with_r(14, pc | 1).with_r(15, target & !1u32), 3))
    } else if op & 0xF000 == 0xD000 && op & 0x0F00 != 0x0E00 && op & 0x0F00 != 0x0F00 {
        if cond_holds(c.cpsr, (op >> 8) & 0xF) {
            Some((c.with_r(15, pc.wrapping_add(2).wrapping_add(offset8(op) << 1)), 3))
        } else {
            Some((c, 1))
        }
    } else {
        None
    }
}

fn exec_branch(cpu: &mut Cpu, op: u32) -> (t: Option<u32>)
    ensures
        match thumb_branched(*old(cpu), op) {
            Some((c, n)) => *final(cpu) == c && t == Some(n),
            None => *final(cpu) == *old(cpu) && t is None,
        },
        t is Some ==> t->0 >= 1,
{
    reveal(thumb_branched);
    let pc: u32 = cpu.r[15];
    if op & 0xF800 == 0xE000 {
        cpu.r[15] = pc.wrapping_add(2).wrapping_add(far_offset(op) << 1);
        return Some(3);
    }
    if op & 0xF800 == 0xF000 {
        cpu.r[14] = pc.wrapping_add(2).wrapping_add(far_offset(op) << 12);
        return Some(1);
    }
    if op & 0xF800 == 0xF800 {
        let target: u32 = cpu.r[14].wrapping_add((op & 0x7FF) << 1);
        cpu.r[14] = pc | 1;
        cpu.r[15] = target & !1;
        return Some(3);
    }
    if op & 0xF000 == 0xD000 && op & 0x0F00 != 0x0E00 && op & 0x0F00 != 0x0F00 {
        if cond_ok(cpu.cpsr, (op >> 8) & 0xF) {
            cpu.r[15] = pc.wrapping_add(2).wrapping_add(near_offset(op) << 1);
            return Some(3);
        }
        return Some(1);
    }
    None
}

/// Loads and stores relative to PC and SP, and address arithmetic on them.
#[verifier::opaque]
pub open spec fn relative_done(c: Cpu, b: BusModel, op: u32) -> Option<(Cpu, BusModel, u32)> {
    let rd = low_reg(op, 8);
    let imm = (op & 0xFF) << 2;
    let pc = c.r[15].wrapping_add(2) & !2u32;
    if op & 0xF800 == 0x4800 {
        let (s, v) = b.read32(pc.wrapping_add(imm));
        Some((c.with_r(rd, v), s, 2))
    } else if op & 0xF000 == 0x9000 {
        let addr = c.r[13].wrapping_add(imm);
        if op & 0x0800 != 0 {
            let (s, v) = b.read32(addr);
            Some((c.with_r(rd, v), s, 2))
        } else {
            Some((c, b.write32(addr, c.r[rd]), 2))
        }
    } else if op & 0xF000 == 0xA000 {
        let base = if op & 0x0800 != 0 {
            c.r[13]
        } else {
            pc
        };
        Some((c.with_r(rd, base.wrapping_add(imm)), b, 1))
    } else if op & 0xFF00 == 0xB000 {
        let by = (op & 0x7F) << 2;
        let sp = if op & 0x80 != 0 {
            c.r[13].wrapping_sub(by)
        } else {
            c.r[13].wrapping_add(by)
        };
        Some((c.with_r(13, sp), b, 1))
    } else {
        None
    }
}

fn exec_relative(cpu: &mut Cpu, bus: &mut Bus, op: u32) -> (t: Option<u32>)
    requires
        old(bus)@.wf(),
    ensures
        match relative_done(*old(cpu), old(bus)@, op) {
            Some((c, b, n)) => *final(cpu) == c && final(bus)@ == b && t == Some(n),
            None => *final(cpu) == *old(cpu) && final(bus)@ == old(bus)@ && t is None,
        },
        final(bus)@.wf(),
        t is Some ==> t->0 >= 1,
{
    reveal(relative_done);
    let rd: usize = reg3(op, 8);
    let imm: u32 = (op & 0xFF) << 2;
    let pc: u32 = cpu.pc_thumb_read() & !2;
    if op & 0xF800 == 0x4800 {
        let v: u32 = bus.read32(pc.wrapping_add(imm));
        cpu.r[rd] = v;
        return Some(2);
    }
    if op & 0xF000 == 0x9000 {
        let addr: u32 = cpu.r[13].wrapping_add(imm);
        if op & 0x0800 != 0 {
            let v: u32 = bus.read32(addr);
            cpu.r[rd] = v;
        } else {
            bus.write32(addr, cpu.r[rd]);
        }
        return Some(2);
    }
    if op & 0xF000 == 0xA000 {
        let base: u32 = if op & 0x0800 != 0 {
            cpu.r[13]
        } else {
            pc
        };
        cpu.r[rd] = base.wrapping_add(imm);
        return Some(1);
    }
    if op & 0xFF00 == 0xB000 {
        let by: u32 = (op & 0x7F) << 2;
        cpu.r[13] = if op & 0x80 != 0 {
            cpu.r[13].wrapping_sub(by)
        } else {
            cpu.r[13].wrapping_add(by)
        };
        return Some(1);
    }
    None
}

/// Low registers of `list` loaded from, or stored to, ascending words.
pub open spec fn low_list(c: Cpu, b: BusModel, load: bool, list: u32, start: u32, n: nat) -> (
    Cpu,
    BusModel,
    u32,
)
    decreases n,
{
    if n == 0 {
        (c, b, start)
    } else {
        let i = (n - 1) as nat;
        let (d, s, a) = low_list(c, b, load, list, start, i);
        if list & (1u32 << (i as u32)) != 0 {
            if load {
                let (t, v) = s.read32(a);
                (d.with_r(i as int, v), t, a.wrapping_add(4))
            } else {
                (d, s.write32(a, d.r[i as int]), a.wrapping_add(4))
            }
        } else {
            (d, s, a)
        }
    }
}

fn move_low_list(cpu: &mut Cpu, bus: &mut Bus, load: bool, list: u32, start: u32) -> (a: u32)
    requires
        old(bus)@.wf(),
    ensures
        (*final(cpu), final(bus)@, a) == low_list(*old(cpu), old(bus)@, load, list, start, 8),
        final(bus)@.wf(),
{
    let mut a: u32 = start;
    let mut i: usize = 0;
    while i < 8
        invariant
            i <= 8,
            bus@.wf(),
            (*cpu, bus@, a) == low_list(*old(cpu), old(bus)@, load, list, start, i as nat),
        decreases 8 - i,
    {
        if list & (1u32 << (i as u32)) != 0 {
            if load {
                let v: u32 = bus.read32(a);
                cpu.r[i] = v;
            } else {
                bus.write32(a, cpu.r[i]);
            }
            a = a.wrapping_add(4);
        }
        i += 1;
    }
    a
}

/// PUSH and POP. POP into R15 selects the instruction set by bit 0.
#[verifier::opaque]
pub open spec fn stacked(c: Cpu, b: BusModel, op: u32) -> (Cpu, BusModel) {
    let list = op & 0xFF;
    let extra = op & 0x0100 != 0;
    if op & 0x0800 != 0 {
        let (d, s, sp) = low_list(c, b, true, list, c.r[13], 8);
        if extra {
            let (t, v) = s.read32(sp);
            (d.exchanged(v).with_r(13, sp.wrapping_add(4)), t)
        } else {
            (d.with_r(13, sp), s)
        }
    } else {
        let words = ones(list, 8) + (if extra {
            1nat
        } else {
            0nat
        });
        let base = c.r[13].wrapping_sub((4 * words) as u32);
        let (d, s, sp) = low_list(c, b, false, list, base, 8);
        (
            d.with_r(13, base),
            if extra {
                s.write32(sp, d.r[14])
            } else {
                s
            },
        )
    }
}

fn push_pop(cpu: &mut Cpu, bus: &mut Bus, op: u32)
    requires
        old(bus)@.wf(),
    ensures
        (*final(cpu), final(bus)@) == stacked(*old(cpu), old(bus)@, op),
        final(bus)@.wf(),
{
    reveal(stacked);
    let list: u32 = op & 0xFF;
    let extra: bool = op & 0x0100 != 0;
    if op & 0x0800 != 0 {
        let mut sp: u32 = move_low_list(cpu, bus, true, list, cpu.r[13]);
        if extra {
            let v: u32 = bus.read32(sp);
            sp = sp.wrapping_add(4);
            cpu.exchange(v);
        }
        cpu.r[13] = sp;
    } else {
        let words: u32 = count_regs(list, 8) + (if extra {
            1
        } else {
            0
        });
        let base: u32 = cpu.r[13].wrapping_sub(4 * words);
        let sp: u32 = move_low_list(cpu, bus, false, list, base);
        if extra {
            bus.write32(sp, cpu.r[14]);
        }
        cpu.r[13] = base;
    }
}

/// LDMIA and STMIA. A loaded base keeps what was loaded; a store always
/// writes back.
#[verifier::opaque]
pub open spec fn low_block_moved(c: Cpu, b: BusModel, op: u32) -> (Cpu, BusModel, u32) {
    let load = op & 0x0800 != 0;
    let rb = low_reg(op, 8);
    let list = op & 0xFF;
    let start = c.r[rb];
    let (d, s, a) = low_list(c, b, load, list, start, 8);
    let e = if list != 0 && !(load && list & (1u32 << (rb as u32)) != 0) {
        d.with_r(rb, a)
    } else {
        d
    };
    let n = if ones(list, 8) < 1 {
        1u32
    } else {
        ones(list, 8) as u32
    };
    let (t, wait) = s.burst_waits(start, n);
    (e, t, (2 + wait) as u32)
}

fn move_low_block(cpu: &mut Cpu, bus: &mut Bus, op: u32) -> (t: u32)
    requires
        old(bus)@.wf(),
    ensures
        (*final(cpu), final(bus)@, t) == low_block_moved(*old(cpu), old(bus)@, op),
        final(bus)@.wf(),
        t >= 1,
{
    reveal(low_block_moved);
    let load: bool = op & 0x0800 != 0;
    let rb: usize = reg3(op, 8);
    let list: u32 = op & 0xFF;
    let start: u32 = cpu.r[rb];
    let a: u32 = move_low_list(cpu, bus, load, list, start);
    if list != 0 && !(load && list & (1u32 << (rb as u32)) != 0) {
        cpu.r[rb] = a;
    }
    let k: u32 = count_regs(list, 8);
    let n: u32 = if k < 1 {
        1
    } else {
        k
    };
    2 + bus.data_burst_waitstates(start, n)
}

/// Word and byte transfers with an immediate offset.
#[verifier::opaque]
pub open spec fn imm_moved(c: Cpu, b: BusModel, op: u32) -> (Cpu, BusModel, u32) {
    let byte = op & 0x1000 != 0;
    let imm = (op >> 6) & 0x1F;
    let addr = c.r[low_reg(op, 3)].wrapping_add(
        if byte {
            imm
        } else {
            imm << 2
        },
    );
    let rd = low_reg(op, 0);
    let (d, s) = if op & 0x0800 != 0 {
        if byte {
            let (s, v) = b.read8(addr);
            (c.with_r(rd, v as u32), s)
        } else {
            let (s, v) = word_loaded(b, addr);
            (c.with_r(rd, v), s)
        }
    } else if byte {
        (c, b.write8(addr, c.r[rd] as u8))
    } else {
        (c, b.write32(addr & !3u32, c.r[rd]))
    };
    let (t, wait) = s.data_waits(
        addr,
        if byte {
            1
        } else {
            4
        },
    );
    (d, t, (2 + wait) as u32)
}

fn move_imm(cpu: &mut Cpu, bus: &mut Bus, op: u32) -> (t: u32)
    requires
        old(bus)@.wf(),
    ensures
        (*final(cpu), final(bus)@, t) == imm_moved(*old(cpu), old(bus)@, op),
        final(bus)@.wf(),
        t >= 1,
{
    reveal(imm_moved);
    let byte: bool = op & 0x1000 != 0;
    let imm: u32 = (op >> 6) & 0x1F;
    let addr: u32 = cpu.r[reg3(op, 3)].wrapping_add(
        if byte {
            imm
        } else {
            imm << 2
        },
    );
    let rd: usize = reg3(op, 0);
    if op & 0x0800 != 0 {
        let v: u32 = if byte {
            bus.read8(addr) as u32
        } else {
            load_word(bus, addr)
        };
        cpu.r[rd] = v;
    } else if byte {
        bus.write8(addr, cpu.r[rd] as u8);
    } else {
        bus.write32(addr & !3, cpu.r[rd]);
    }
    2 + bus.data_waitstates(
        addr,
        if byte {
            1
        } else {
            4
        },
    )
}

/// Halfword transfers with an immediate offset.
#[verifier::opaque]
pub open spec fn half_imm_moved(c: Cpu, b: BusModel, op: u32) -> (Cpu, BusModel, u32) {
    let addr = c.r[low_reg(op, 3)].wrapping_add(((op >> 6) & 0x1F) << 1);
    let rd = low_reg(op, 0);
    let (d, s) = if op & 0x0800 != 0 {
        let (s, v) = half_loaded(b, addr);
        (c.with_r(rd, v), s)
    } else {
        (c, b.write16(addr & !1u32, c.r[rd] as u16))
    };
    let (t, wait) = s.data_waits(addr, 2);
    (d, t, (2 + wait) as u32)
}

fn move_half_imm(cpu: &mut Cpu, bus: &mut Bus, op: u32) -> (t: u32)
    requires
        old(bus)@.wf(),
    ensures
        (*final(cpu), final(bus)@, t) == half_imm_moved(*old(cpu), old(bus)@, op),
        final(bus)@.wf(),
        t >= 1,
{
    reveal(half_imm_moved);
    let addr: u32 = cpu.r[reg3(op, 3)].wrapping_add(((op >> 6) & 0x1F) << 1);
    let rd: usize = reg3(op, 0);
    if op & 0x0800 != 0 {
        let v: u32 = load_half(bus, addr);
        cpu.r[rd] = v;
    } else {
        bus.write16(addr & !1, cpu.r[rd] as u16);
    }
    2 + bus.data_waitstates(addr, 2)
}

/// Transfers with a register offset. A signed halfword at an odd address is a
/// signed byte.
#[verifier::opaque]
pub open spec fn indexed_moved(c: Cpu, b: BusModel, op: u32) -> (Cpu, BusModel, u32) {
    let opc = (op >> 9) & 7;
    let addr = c.r[low_reg(op, 3)].wrapping_add(c.r[low_reg(op, 6)]);
    let rd = low_reg(op, 0);
    let (d, s) = if opc == 0 {
        (c, b.write32(addr & !3u32, c.r[rd]))
    } else if opc == 1 {
        (c, b.write16(addr & !1u32, c.r[rd] as u16))
    } else if opc == 2 {
        (c, b.write8(addr, c.r[rd] as u8))
    } else if opc == 3 {
        let (s, v) = b.read8(addr);
        (c.with_r(rd, sext8(v)), s)
    } else if opc == 4 {
        let (s, v) = word_loaded(b, addr);
        (c.with_r(rd, v), s)
    } else if opc == 5 {
        let (s, v) = half_loaded(b, addr);
        (c.with_r(rd, v), s)
    } else if opc == 6 {
        let (s, v) = b.read8(addr);
        (c.with_r(rd, v as u32), s)
    } else {
        let (s, h) = b.read16(addr & !1u32);
        if addr & 1 != 0 {
            let (t, v) = s.read8(addr);
            (c.with_r(rd, sext8(v)), t)
        } else {
            (c.with_r(rd, sext16(h)), s)
        }
    };
    let (t, wait) = s.data_waits(
        addr,
        if opc == 1 || opc == 5 {
            2
        } else if opc == 0 || opc == 4 {
            4
        } else {
            1
        },
    );
    (d, t, (2 + wait) as u32)
}

fn move_indexed(cpu: &mut Cpu, bus: &mut Bus, op: u32) -> (t: u32)
    requires
        old(bus)@.wf(),
    ensures
        (*final(cpu), final(bus)@, t) == indexed_moved(*old(cpu), old(bus)@, op),
        final(bus)@.wf(),
        t >= 1,
{
    reveal(indexed_moved);
    let opc: u32 = (op >> 9) & 7;
    let addr: u32 = cpu.r[reg3(op, 3)].wrapping_add(cpu.r[reg3(op, 6)]);
    let rd: usize = reg3(op, 0);
    if opc == 0 {
        bus.write32(addr & !3, cpu.r[rd]);
    } else if opc == 1 {
        bus.write16(addr & !1, cpu.r[rd] as u16);
    } else if opc == 2 {
        bus.write8(addr, cpu.r[rd] as u8);
    } else {
        let v: u32 = if opc == 3 {
            sign_byte(bus.read8(addr))
        } else if opc == 4 {
            load_word(bus, addr)
        } else if opc == 5 {
            load_half(bus, addr)
        } else if opc == 6 {
            bus.read8(addr) as u32
        } else {
            let h: u16 = bus.read16(addr & !1);
            if addr & 1 != 0 {
                sign_byte(bus.read8(addr))
            } else {
                sign_half(h)
            }
        };
        cpu.r[rd] = v;
    }
    2 + bus.data_waitstates(
        addr,
        if opc == 1 || opc == 5 {
            2
        } else if opc == 0 || opc == 4 {
            4
        } else {
            1
        },
    )
}

/// A register write that aligns R15.
pub open spec fn placed(c: Cpu, rd: int, v: u32) -> Cpu {
    if rd == 15 {
        c.with_r(15, v & !1u32)
    } else {
        c.with_r(rd, v)
    }
}

fn place(cpu: &mut Cpu, rd: usize, v: u32)
    requires
        rd < 16,
    ensures
        *final(cpu) == placed(*old(cpu), rd as int, v),
{
    if rd == 15 {
        cpu.r[15] = v & !1;
    } else {
        cpu.r[rd] = v;
    }
}

/// ADD, CMP and MOV on any register, and BX.
#[verifier::opaque]
pub open spec fn high_done(c: Cpu, op: u32) -> Cpu {
    let kind = (op >> 8) & 3;
    let rd = (((op >> 4) & 8) | (op & 7)) as int;
    let v = high_operand(c, reg_field(op, 3));
    let d = high_operand(c, rd);
    if kind == 0 {
        placed(c, rd, d.wrapping_add(v))
    } else if kind == 1 {
        let (r, fc, fv) = subtracted(d, v, true);
        c.flagged(r, fc, fv)
    } else if kind == 2 {
        placed(c, rd, v)
    } else {
        c.exchanged(v)
    }
}

fn exec_high(cpu: &mut Cpu, op: u32)
    ensures
        *final(cpu) == high_done(*old(cpu), op),
{
    reveal(high_done);
    let kind: u32 = (op >> 8) & 3;
    proof {
        lemma_and32(op >> 4, 8);
        lemma_and32(op, 7);
        lemma_and32((op >> 4) & 8, op & 7);
    }
    let rd: usize = (((op >> 4) & 8) | (op & 7)) as usize;
    let v: u32 = high_value(cpu, reg4(op, 3));
    let d: u32 = high_value(cpu, rd);
    if kind == 0 {
        place(cpu, rd, d.wrapping_add(v));
    } else if kind == 1 {
        let (r, fc, fv) = sub_flags(d, v, true);
        cpu.set_flags(r, fc, fv);
    } else if kind == 2 {
        place(cpu, rd, v);
    } else {
        cpu.exchange(v);
    }
}

/// Result (None where only flags are set), and N/Z source, C and V of a
/// low-register ALU operation.
#[verifier::opaque]
pub open spec fn low_alu(opc: u32, a: u32, b: u32, f: Cpsr) -> (bool, u32, bool, bool) {
    if opc == 0x0 {
        (true, a & b, f.c, f.v)
    } else if opc == 0x1 {
        (true, a ^ b, f.c, f.v)
    } else if opc == 0x2 || opc == 0x3 || opc == 0x4 {
        let (r, c) = shifted((opc - 2) as u32, a, b & 0xFF, false, f.c);
        (true, r, c, f.v)
    } else if opc == 0x5 {
        let (r, c, v) = added(a, b, f.c);
        (true, r, c, v)
    } else if opc == 0x6 {
        let (r, c, v) = subtracted(a, b, f.c);
        (true, r, c, v)
    } else if opc == 0x7 {
        let (r, c) = shifted(3, a, b & 0xFF, false, f.c);
        (true, r, c, f.v)
    } else if opc == 0x8 {
        (false, a & b, f.c, f.v)
    } else if opc == 0x9 {
        let (r, c, _v) = subtracted(0, b, true);
        (true, r, c, (b & r) >> 31 != 0)
    } else if opc == 0xA {
        let (r, c, v) = subtracted(a, b, true);
        (false, r, c, v)
    } else if opc == 0xB {
        let (r, c, v) = added(a, b, false);
        (false, r, c, v)
    } else if opc == 0xC {
        (true, a | b, f.c, f.v)
    } else if opc == 0xD {
        (true, a.wrapping_mul(b), f.c, f.v)
    } else if opc == 0xE {
        (true, a & !b, f.c, f.v)
    } else {
        (true, !b, f.c, f.v)
    }
}

fn alu(opc: u32, a: u32, b: u32, f: Cpsr) -> (r: (bool, u32, bool, bool))
    ensures
        r == low_alu(opc, a, b, f),
{
    reveal(low_alu);
    match opc {
        0x0 => (true, a & b, f.c, f.v),
        0x1 => (true, a ^ b, f.c, f.v),
        0x2 | 0x3 | 0x4 => {
            let (r, c) = shift(opc - 2, a, b & 0xFF, false, f.c);
            (true, r, c, f.v)
        },
        0x5 => {
            let (r, c, v) = add_flags(a, b, f.c);
            (true, r, c, v)
        },
        0x6 => {
            let (r, c, v) = sub_flags(a, b, f.c);
            (true, r, c, v)
        },
        0x7 => {
            let (r, c) = shift(3, a, b & 0xFF, false, f.c);
            (true, r, c, f.v)
        },
        0x8 => (false, a & b, f.c, f.v),
        0x9 => {
            let (r, c, _v) = sub_flags(0, b, true);
            (true, r, c, (b & r) >> 31 != 0)
        },
        0xA => {
            let (r, c, v) = sub_flags(a, b, true);
            (false, r, c, v)
        },
        0xB => {
            let (r, c, v) = add_flags(a, b, false);
            (false, r, c, v)
        },
        0xC => (true, a | b, f.c, f.v),
        0xD => (true, a.wrapping_mul(b), f.c, f.v),
        0xE => (true, a & !b, f.c, f.v),
        _ => (true, !b, f.c, f.v),
    }
}

/// Writes a result where there is one, and the flags.
pub open spec fn settled(c: Cpu, rd: int, out: (bool, u32, bool, bool)) -> Cpu {
    if out.0 {
        c.with_r(rd, out.1).flagged(out.1, out.2, out.3)
    } else {
        c.flagged(out.1, out.2, out.3)
    }
}

fn settle(cpu: &mut Cpu, rd: usize, out: (bool, u32, bool, bool))
    requires
        rd < 16,
    ensures
        *final(cpu) == settled(*old(cpu), rd as int, out),
{
    if out.0 {
        cpu.r[rd] = out.1;
    }
    cpu.set_flags(out.1, out.2, out.3);
}

/// Shifts by an immediate, three-operand add and subtract, and MOV, CMP, ADD
/// and SUB with an 8-bit immediate.
#[verifier::opaque]
pub open spec fn short_out(c: Cpu, op: u32) -> (int, (bool, u32, bool, bool)) {
    let f = c.cpsr;
    let opc = (op >> 11) & 3;
    if op & 0xE000 == 0 {
        let a = c.r[low_reg(op, 3)];
        if opc != 3 {
            let (r, fc) = shifted(opc, a, (op >> 6) & 0x1F, true, f.c);
            (low_reg(op, 0), (true, r, fc, f.v))
        } else {
            let b = if op & 0x0400 != 0 {
                (op >> 6) & 7
            } else {
                c.r[low_reg(op, 6)]
            };
            let (r, fc, fv) = if op & 0x0200 != 0 {
                subtracted(a, b, true)
            } else {
                added(a, b, false)
            };
            (low_reg(op, 0), (true, r, fc, fv))
        }
    } else {
        let rd = low_reg(op, 8);
        let imm = op & 0xFF;
        if opc == 0 {
            (rd, (true, imm, f.c, f.v))
        } else {
            let (r, fc, fv) = if opc == 2 {
                added(c.r[rd], imm, false)
            } else {
                subtracted(c.r[rd], imm, true)
            };
            (rd, (opc != 1, r, fc, fv))
        }
    }
}

fn exec_short(cpu: &mut Cpu, op: u32)
    ensures
        ({
            let (rd, out) = short_out(*old(cpu), op);
            *final(cpu) == settled(*old(cpu), rd, out)
        }),
{
    reveal(short_out);
    let f = cpu.cpsr;
    let opc: u32 = (op >> 11) & 3;
    if op & 0xE000 == 0 {
        let a: u32 = cpu.r[reg3(op, 3)];
        let rd: usize = reg3(op, 0);
        if opc != 3 {
            let (r, fc) = shift(opc, a, (op >> 6) & 0x1F, true, f.c);
            settle(cpu, rd, (true, r, fc, f.v));
        } else {
            let b: u32 = if op & 0x0400 != 0 {
                (op >> 6) & 7
            } else {
                cpu.r[reg3(op, 6)]
            };
            let (r, fc, fv) = if op & 0x0200 != 0 {
                sub_flags(a, b, true)
            } else {
                add_flags(a, b, false)
            };
            settle(cpu, rd, (true, r, fc, fv));
        }
    } else {
        let rd: usize = reg3(op, 8);
        let imm: u32 = op & 0xFF;
        if opc == 0 {
            settle(cpu, rd, (true, imm, f.c, f.v));
        } else {
            let (r, fc, fv) = if opc == 2 {
                add_flags(cpu.r[rd], imm, false)
            } else {
                sub_flags(cpu.r[rd], imm, true)
            };
            settle(cpu, rd, (opc != 1, r, fc, fv));
        }
    }
}

/// Everything that moves a single datum, or only registers.
#[verifier::opaque]
pub open spec fn plain_executed(c: Cpu, b: BusModel, op: u32) -> (Cpu, BusModel, u32) {
    if op & 0xE000 == 0x6000 {
        imm_moved(c, b, op)
    } else if op & 0xF000 == 0x8000 {
        half_imm_moved(c, b, op)
    } else if op & 0xF000 == 0x5000 {
        indexed_moved(c, b, op)
    } else if op & 0xFC00 == 0x4400 {
        (high_done(c, op), b, 1)
    } else if op & 0xFC00 == 0x4000 {
        let rd = low_reg(op, 0);
        let out = low_alu((op >> 6) & 0xF, c.r[rd], c.r[low_reg(op, 3)], c.cpsr);
        (settled(c, rd, out), b, 1)
    } else if op & 0xE000 == 0 || op & 0xE000 == 0x2000 {
        let (rd, out) = short_out(c, op);
        (settled(c, rd, out), b, 1)
    } else {
        (c.noted_unknown(op), b, 1)
    }
}

fn exec_plain(cpu: &mut Cpu, bus: &mut Bus, op: u32) -> (t: u32)
    requires
        old(bus)@.wf(),
    ensures
        (*final(cpu), final(bus)@, t) == plain_executed(*old(cpu), old(bus)@, op),
        final(bus)@.wf(),
        t >= 1,
{
    reveal(plain_executed);
    if op & 0xE000 == 0x6000 {
        return move_imm(cpu, bus, op);
    }
    if op & 0xF000 == 0x8000 {
        return move_half_imm(cpu, bus, op);
    }
    if op & 0xF000 == 0x5000 {
        return move_indexed(cpu, bus, op);
    }
    if op & 0xFC00 == 0x4400 {
        exec_high(cpu, op);
        return 1;
    }
    if op & 0xFC00 == 0x4000 {
        let rd: usize = reg3(op, 0);
        let out = alu((op >> 6) & 0xF, cpu.r[rd], cpu.r[reg3(op, 3)], cpu.cpsr);
        settle(cpu, rd, out);
        return 1;
    }
    if op & 0xE000 == 0 || op & 0xE000 == 0x2000 {
        exec_short(cpu, op);
        return 1;
    }
    cpu.note_unknown(op);
    1
}

/// One Thumb instruction.
#[verifier::opaque]
pub open spec fn thumb_executed(c: Cpu, b: BusModel, op: u32) -> (Cpu, BusModel, u32) {
    if op & 0xFF00 == 0xDF00 {
        let (d, s) = swi_served(c, b, (op & 0xFF) as u8);
        (d, s, 3)
    } else {
        match thumb_branched(c, op) {
            Some((d, t)) => (d, b, t),
            None => match relative_done(c, b, op) {
                Some(z) => z,
                None => if op & 0xF600 == 0xB400 {
                    let (d, s) = stacked(c, b, op);
                    (d, s, 2)
                } else if op & 0xF000 == 0xC000 {
                    low_block_moved(c, b, op)
                } else {
                    plain_executed(c, b, op)
                },
            },
        }
    }
}

fn exec_thumb(cpu: &mut Cpu, bus: &mut Bus, op: u32) -> (t: u32)
    requires
        old(bus)@.wf(),
    ensures
        (*final(cpu), final(bus)@, t) == thumb_executed(*old(cpu), old(bus)@, op),
        final(bus)@.wf(),
        t >= 1,
{
    reveal(thumb_executed);
    if op & 0xFF00 == 0xDF00 {
        swi_thumb(cpu, bus, op);
        return 3;
    }
    if let Some(t) = exec_branch(cpu, op) {
        return t;
    }
    if let Some(t) = exec_relative(cpu, bus, op) {
        return t;
    }
    if op & 0xF600 == 0xB400 {
        push_pop(cpu, bus, op);
        return 2;
    }
    if op & 0xF000 == 0xC000 {
        return move_low_block(cpu, bus, op);
    }
    exec_plain(cpu, bus, op)
}

/// Fetch and execute.
#[verifier::opaque]
pub open spec fn thumb_stepped(c: Cpu, b: BusModel) -> (Cpu, BusModel, u32) {
    let pc = c.r[15] & !1u32;
    let (s, half) = b.read16(pc);
    let (e, t, n) = thumb_executed(c.with_r(15, pc.wrapping_add(2)), s, half as u32);
    (Cpu { cycles: e.cycles.wrapping_add(n as u64), ..e }, t, n)
}

pub fn step(cpu: &mut Cpu, bus: &mut Bus) -> (t: u32)
    requires
        old(bus)@.wf(),
    ensures
        (*final(cpu), final(bus)@, t) == thumb_stepped(*old(cpu), old(bus)@),
        final(bus)@.wf(),
        t >= 1,
{
    reveal(thumb_stepped);
    let pc: u32 = cpu.r[15] & !1;
    let op: u32 = bus.read16(pc) as u32;
    cpu.r[15] = pc.wrapping_add(2);
    let n: u32 = exec_thumb(cpu, bus, op);
    cpu.cycles = cpu.cycles.wrapping_add(n as u64);
    n
}

} // verus!
