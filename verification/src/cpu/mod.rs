//! ARM7TDMI interpreter (pipeline-less).

pub mod alu;
pub mod arm;
pub mod cpsr;
pub mod arm_laws;
pub mod laws;
pub mod thumb;
pub mod thumb_laws;

pub use crate::cpu::cpsr::Cpsr;

use crate::bits::aset;
use crate::bus::model::BusModel;
use crate::bus::Bus;
use crate::cpu::cpsr::{cpsr_zero, MODE_ABT, MODE_FIQ, MODE_IRQ, MODE_SVC, MODE_SYS, MODE_UND, MODE_USR};
use vstd::prelude::*;

verus! {

/// HLE BIOS address: IRQ epilogue (`ldmfd ...; subs pc, lr, #4`).
pub const BIOS_IRQ_RETURN: u32 = 0x0000_0138;

#[verifier::ext_equal]
#[derive(Clone, Copy, Debug)]
pub struct Cpu {
    /// R0-R15; R15 is PC (points at the *current* instruction).
    pub r: [u32; 16],
    pub cpsr: Cpsr,
    /// Active SPSR for the current privileged mode.
    pub spsr: Cpsr,
    pub cycles: u64,
    pub halted: bool,
    /// Count of undecoded instructions (soft NOPs).
    pub unknown_ops: u64,
    /// Last unknown opcode (for diagnose).
    pub last_unknown: u32,
    /// R8-R12 of every mode but FIQ.
    pub r8_usr: [u32; 5],
    pub r13_usr: u32,
    pub r14_usr: u32,
    pub r8_fiq: [u32; 5],
    pub r13_fiq: u32,
    pub r14_fiq: u32,
    pub spsr_fiq: Cpsr,
    pub r13_irq: u32,
    pub r14_irq: u32,
    pub spsr_irq: Cpsr,
    pub r13_svc: u32,
    pub r14_svc: u32,
    pub spsr_svc: Cpsr,
    pub r13_abt: u32,
    pub r14_abt: u32,
    pub spsr_abt: Cpsr,
    pub r13_und: u32,
    pub r14_und: u32,
    pub spsr_und: Cpsr,
}

/// R8-R12 as a bank of five.
pub open spec fn mid_regs(r: [u32; 16]) -> [u32; 5] {
    [r[8], r[9], r[10], r[11], r[12]]
}

/// R8-R14 replaced by a bank of five plus SP and LR.
pub open spec fn with_high_regs(r: [u32; 16], mid: [u32; 5], sp: u32, lr: u32) -> [u32; 16] {
    [
        r[0], r[1], r[2], r[3], r[4], r[5], r[6], r[7],
        mid[0], mid[1], mid[2], mid[3], mid[4], sp, lr, r[15],
    ]
}

impl Cpu {
    /// One register replaced, R15 included as a plain register.
    pub open spec fn with_r(self, i: int, v: u32) -> Cpu {
        Cpu { r: aset(self.r, i, v), ..self }
    }

    /// The banks after the live R8-R14 and SPSR of `mode` were stored away.
    /// User and System own no SPSR.
    pub open spec fn banked_out(self, mode: u8) -> Cpu {
        let mid = mid_regs(self.r);
        let (sp, lr) = (self.r[13], self.r[14]);
        if mode & 0x1F == MODE_FIQ {
            Cpu { r8_fiq: mid, r13_fiq: sp, r14_fiq: lr, spsr_fiq: self.spsr, ..self }
        } else if mode & 0x1F == MODE_IRQ {
            Cpu { r8_usr: mid, r13_irq: sp, r14_irq: lr, spsr_irq: self.spsr, ..self }
        } else if mode & 0x1F == MODE_SVC {
            Cpu { r8_usr: mid, r13_svc: sp, r14_svc: lr, spsr_svc: self.spsr, ..self }
        } else if mode & 0x1F == MODE_ABT {
            Cpu { r8_usr: mid, r13_abt: sp, r14_abt: lr, spsr_abt: self.spsr, ..self }
        } else if mode & 0x1F == MODE_UND {
            Cpu { r8_usr: mid, r13_und: sp, r14_und: lr, spsr_und: self.spsr, ..self }
        } else {
            Cpu { r8_usr: mid, r13_usr: sp, r14_usr: lr, ..self }
        }
    }

    /// The live R8-R14 and SPSR after they were taken from the bank of `mode`.
    pub open spec fn banked_in(self, mode: u8) -> Cpu {
        if mode & 0x1F == MODE_FIQ {
            Cpu {
                r: with_high_regs(self.r, self.r8_fiq, self.r13_fiq, self.r14_fiq),
                spsr: self.spsr_fiq,
                ..self
            }
        } else if mode & 0x1F == MODE_IRQ {
            Cpu {
                r: with_high_regs(self.r, self.r8_usr, self.r13_irq, self.r14_irq),
                spsr: self.spsr_irq,
                ..self
            }
        } else if mode & 0x1F == MODE_SVC {
            Cpu {
                r: with_high_regs(self.r, self.r8_usr, self.r13_svc, self.r14_svc),
                spsr: self.spsr_svc,
                ..self
            }
        } else if mode & 0x1F == MODE_ABT {
            Cpu {
                r: with_high_regs(self.r, self.r8_usr, self.r13_abt, self.r14_abt),
                spsr: self.spsr_abt,
                ..self
            }
        } else if mode & 0x1F == MODE_UND {
            Cpu {
                r: with_high_regs(self.r, self.r8_usr, self.r13_und, self.r14_und),
                spsr: self.spsr_und,
                ..self
            }
        } else {
            Cpu { r: with_high_regs(self.r, self.r8_usr, self.r13_usr, self.r14_usr), ..self }
        }
    }

    /// The machine after a switch to the mode in the low five bits of `m`.
    pub open spec fn in_mode(self, m: u8) -> Cpu {
        if self.cpsr.mode & 0x1F == m & 0x1F {
            self
        } else {
            let s = self.banked_out(self.cpsr.mode & 0x1F).banked_in(m & 0x1F);
            Cpu { cpsr: Cpsr { mode: m & 0x1F, ..s.cpsr }, ..s }
        }
    }

    /// User and System share one bank.
    pub open spec fn user_banked(self) -> bool {
        self.cpsr.mode & 0x1F == MODE_USR || self.cpsr.mode & 0x1F == MODE_SYS
    }

    /// Register `i` of the user bank, whatever the mode.
    pub open spec fn user_reg_of(self, i: int) -> u32 {
        if 8 <= i <= 12 && self.cpsr.mode & 0x1F == MODE_FIQ {
            self.r8_usr[i - 8]
        } else if i == 13 && !self.user_banked() {
            self.r13_usr
        } else if i == 14 && !self.user_banked() {
            self.r14_usr
        } else {
            self.r[i]
        }
    }

    /// Register `i` of the user bank replaced, in the bank and, where the mode
    /// shares it, in the live file.
    pub open spec fn with_user_reg(self, i: int, v: u32) -> Cpu {
        if 8 <= i <= 12 {
            let s = Cpu { r8_usr: aset(self.r8_usr, i - 8, v), ..self };
            if self.cpsr.mode & 0x1F == MODE_FIQ {
                s
            } else {
                s.with_r(i, v)
            }
        } else if i == 13 {
            let s = Cpu { r13_usr: v, ..self };
            if self.user_banked() {
                s.with_r(13, v)
            } else {
                s
            }
        } else if i == 14 {
            let s = Cpu { r14_usr: v, ..self };
            if self.user_banked() {
                s.with_r(14, v)
            } else {
                s
            }
        } else {
            self.with_r(i, v)
        }
    }

    /// CPSR reloaded from SPSR, with the banks of both modes exchanged.
    pub open spec fn spsr_restored(self) -> Cpu {
        let (o, n) = (self.cpsr.mode & 0x1F, self.spsr.mode & 0x1F);
        let s = if o != n {
            self.banked_out(o).banked_in(n)
        } else {
            self
        };
        Cpu { cpsr: self.spsr, ..s }
    }

    /// What an instruction reads as register `i`: PC reads ahead.
    pub open spec fn reg_of(self, i: int) -> u32 {
        if i == 15 {
            if self.cpsr.thumb {
                self.r[15].wrapping_add(2)
            } else {
                self.r[15].wrapping_add(4)
            }
        } else {
            self.r[i]
        }
    }

    /// Register `i` written; a PC write is aligned for the current state.
    pub open spec fn with_reg(self, i: int, v: u32) -> Cpu {
        if i == 15 {
            self.with_r(
                15,
                if self.cpsr.thumb {
                    v & !1u32
                } else {
                    v & !3u32
                },
            )
        } else {
            self.with_r(i, v)
        }
    }

    /// An undecoded instruction: counted and remembered.
    pub open spec fn noted_unknown(self, op: u32) -> Cpu {
        Cpu { unknown_ops: self.unknown_ops.wrapping_add(1), last_unknown: op, ..self }
    }

    /// The state at power-on: supervisor mode, interrupts off, BIOS stacks.
    pub open spec fn power_on(self) -> bool {
        &&& forall|i: int| 0 <= i < 16 ==> #[trigger] self.r[i] == 0
        &&& forall|i: int| 0 <= i < 5 ==> #[trigger] self.r8_usr[i] == 0
        &&& forall|i: int| 0 <= i < 5 ==> #[trigger] self.r8_fiq[i] == 0
        &&& self.cpsr == (Cpsr {
            mode: MODE_SVC,
            irq_disable: true,
            fiq_disable: true,
            ..cpsr_zero()
        })
        &&& self.spsr == cpsr_zero() && self.spsr_fiq == cpsr_zero() && self.spsr_irq
            == cpsr_zero()
        &&& self.spsr_svc == cpsr_zero() && self.spsr_abt == cpsr_zero() && self.spsr_und
            == cpsr_zero()
        &&& self.cycles == 0 && !self.halted && self.unknown_ops == 0 && self.last_unknown == 0
        &&& self.r13_usr == 0x0300_7F00 && self.r13_fiq == 0x0300_7F80 && self.r13_irq
            == 0x0300_7FA0
        &&& self.r13_svc == 0x0300_7FE0 && self.r13_abt == 0x0300_7F00 && self.r13_und
            == 0x0300_7F00
        &&& self.r14_usr == 0 && self.r14_fiq == 0 && self.r14_irq == 0
        &&& self.r14_svc == 0 && self.r14_abt == 0 && self.r14_und == 0
    }

    pub fn new() -> (cpu: Self)
        ensures
            cpu.power_on(),
    {
        let z = Cpsr::default();
        Cpu {
            r: [0;16],
            cpsr: Cpsr::new_svc(),
            spsr: z,
            cycles: 0,
            halted: false,
            unknown_ops: 0,
            last_unknown: 0,
            r8_usr: [0;5],
            r13_usr: 0x0300_7F00,
            r14_usr: 0,
            r8_fiq: [0;5],
            r13_fiq: 0x0300_7F80,
            r14_fiq: 0,
            spsr_fiq: z,
            r13_irq: 0x0300_7FA0,
            r14_irq: 0,
            spsr_irq: z,
            r13_svc: 0x0300_7FE0,
            r14_svc: 0,
            spsr_svc: z,
            r13_abt: 0x0300_7F00,
            r14_abt: 0,
            spsr_abt: z,
            r13_und: 0x0300_7F00,
            r14_und: 0,
            spsr_und: z,
        }
    }

    /// One instruction, or the BIOS interrupt epilogue; returns its cycles with
    /// the wait states of the next fetch.
    pub fn step(&mut self, bus: &mut Bus) -> (t: u32)
        requires
            old(bus)@.wf(),
        ensures
            (*final(self), final(bus)@, t) == cpu_stepped(*old(self), old(bus)@),
            t >= 1,
            final(bus)@.wf(),
    {
        reveal(cpu_stepped);
        if self.halted {
            return 1;
        }
        bus.set_exec_pc(self.r[15]);
        // HLE BIOS IRQ epilogue
        if !self.cpsr.thumb && self.r[15] == BIOS_IRQ_RETURN {
            return crate::irq::hle_irq_return(self, bus);
        }
        let base: u32 = if self.cpsr.thumb {
            thumb::step(self, bus)
        } else {
            arm::step(self, bus)
        };
        let back: u32 = if self.cpsr.thumb {
            2
        } else {
            4
        };
        let wait: u32 = bus.fetch_waitstates(self.r[15].wrapping_sub(back));
        self.cycles = self.cycles.saturating_add(wait as u64);
        base.saturating_add(wait)
    }

    pub fn pc(&self) -> (r: u32)
        ensures
            r == self.r[15],
    {
        self.r[15]
    }

    pub fn set_pc(&mut self, pc: u32)
        ensures
            *final(self) == old(self).with_r(15, pc),
    {
        self.r[15] = pc;
    }

    /// Architectural PC+8 for ARM operands: after the fetch R15 is already A+4.
    pub fn pc_arm_read(&self) -> (r: u32)
        ensures
            r == self.r[15].wrapping_add(4),
    {
        self.r[15].wrapping_add(4)
    }

    /// Architectural PC+4 for Thumb operands: after the fetch R15 is A+2.
    pub fn pc_thumb_read(&self) -> (r: u32)
        ensures
            r == self.r[15].wrapping_add(2),
    {
        self.r[15].wrapping_add(2)
    }

    /// Switch CPSR mode, banking R8-R14 and SPSR as needed.
    pub fn set_mode(&mut self, new_mode: u8)
        ensures
            *final(self) == old(self).in_mode(new_mode),
    {
        let m: u8 = new_mode & 0x1F;
        let o: u8 = self.cpsr.mode & 0x1F;
        if o == m {
            return;
        }
        self.bank_save(o);
        self.bank_restore(m);
        self.cpsr.mode = m;
    }

    fn bank_save(&mut self, mode: u8)
        ensures
            *final(self) == old(self).banked_out(mode),
    {
        let mid: [u32; 5] = [self.r[8], self.r[9], self.r[10], self.r[11], self.r[12]];
        assert(mid =~= mid_regs(self.r));
        let m: u8 = mode & 0x1F;
        if m == MODE_FIQ {
            self.r8_fiq = mid;
            self.r13_fiq = self.r[13];
            self.r14_fiq = self.r[14];
            self.spsr_fiq = self.spsr;
            return;
        }
        self.r8_usr = mid;
        if m == MODE_IRQ {
            self.r13_irq = self.r[13];
            self.r14_irq = self.r[14];
            self.spsr_irq = self.spsr;
        } else if m == MODE_SVC {
            self.r13_svc = self.r[13];
            self.r14_svc = self.r[14];
            self.spsr_svc = self.spsr;
        } else if m == MODE_ABT {
            self.r13_abt = self.r[13];
            self.r14_abt = self.r[14];
            self.spsr_abt = self.spsr;
        } else if m == MODE_UND {
            self.r13_und = self.r[13];
            self.r14_und = self.r[14];
            self.spsr_und = self.spsr;
        } else {
            self.r13_usr = self.r[13];
            self.r14_usr = self.r[14];
        }
    }

    fn load_high(&mut self, mid: [u32; 5], sp: u32, lr: u32)
        ensures
            *final(self) == (Cpu { r: with_high_regs(old(self).r, mid, sp, lr), ..*old(self) }),
    {
        self.r[8] = mid[0];
        self.r[9] = mid[1];
        self.r[10] = mid[2];
        self.r[11] = mid[3];
        self.r[12] = mid[4];
        self.r[13] = sp;
        self.r[14] = lr;
        assert(self.r =~= with_high_regs(old(self).r, mid, sp, lr));
    }

    fn bank_restore(&mut self, mode: u8)
        ensures
            *final(self) == old(self).banked_in(mode),
    {
        let m: u8 = mode & 0x1F;
        if m == MODE_FIQ {
            self.load_high(self.r8_fiq, self.r13_fiq, self.r14_fiq);
            self.spsr = self.spsr_fiq;
        } else if m == MODE_IRQ {
            self.load_high(self.r8_usr, self.r13_irq, self.r14_irq);
            self.spsr = self.spsr_irq;
        } else if m == MODE_SVC {
            self.load_high(self.r8_usr, self.r13_svc, self.r14_svc);
            self.spsr = self.spsr_svc;
        } else if m == MODE_ABT {
            self.load_high(self.r8_usr, self.r13_abt, self.r14_abt);
            self.spsr = self.spsr_abt;
        } else if m == MODE_UND {
            self.load_high(self.r8_usr, self.r13_und, self.r14_und);
            self.spsr = self.spsr_und;
        } else {
            self.load_high(self.r8_usr, self.r13_usr, self.r14_usr);
        }
    }

    /// User-bank R8-R14 (for `LDM/STM ^` without PC).
    pub fn user_reg(&self, i: usize) -> (r: u32)
        requires
            i < 16,
        ensures
            r == self.user_reg_of(i as int),
    {
        let mode: u8 = self.cpsr.mode & 0x1F;
        let shared: bool = mode == MODE_USR || mode == MODE_SYS;
        if 8 <= i && i <= 12 && mode == MODE_FIQ {
            self.r8_usr[i - 8]
        } else if i == 13 && !shared {
            self.r13_usr
        } else if i == 14 && !shared {
            self.r14_usr
        } else {
            self.r[i]
        }
    }

    pub fn set_user_reg(&mut self, i: usize, v: u32)
        requires
            i < 16,
        ensures
            *final(self) == old(self).with_user_reg(i as int, v),
    {
        let mode: u8 = self.cpsr.mode & 0x1F;
        let shared: bool = mode == MODE_USR || mode == MODE_SYS;
        if 8 <= i && i <= 12 {
            self.r8_usr[i - 8] = v;
            if mode != MODE_FIQ {
                self.r[i] = v;
            }
        } else if i == 13 {
            self.r13_usr = v;
            if shared {
                self.r[13] = v;
            }
        } else if i == 14 {
            self.r14_usr = v;
            if shared {
                self.r[14] = v;
            }
        } else {
            self.r[i] = v;
        }
    }

    /// Restore CPSR from SPSR (for `SUBS pc, lr, #4` etc.) and unbank.
    pub fn restore_spsr(&mut self)
        ensures
            *final(self) == old(self).spsr_restored(),
    {
        let spsr = self.spsr;
        let o: u8 = self.cpsr.mode & 0x1F;
        let n: u8 = spsr.mode & 0x1F;
        if o != n {
            self.bank_save(o);
            self.bank_restore(n);
        }
        self.cpsr = spsr;
    }

    /// Counts an undecoded instruction and keeps its opcode.
    pub fn note_unknown(&mut self, op: u32)
        ensures
            *final(self) == old(self).noted_unknown(op),
    {
        self.unknown_ops = self.unknown_ops.wrapping_add(1);
        self.last_unknown = op;
    }

    pub fn reg(&self, i: usize) -> (r: u32)
        requires
            i < 16,
        ensures
            r == self.reg_of(i as int),
    {
        if i == 15 {
            if self.cpsr.thumb {
                self.pc_thumb_read()
            } else {
                self.pc_arm_read()
            }
        } else {
            self.r[i]
        }
    }

    pub fn set_reg(&mut self, i: usize, v: u32)
        requires
            i < 16,
        ensures
            *final(self) == old(self).with_reg(i as int, v),
    {
        if i == 15 {
            if self.cpsr.thumb {
                self.r[15] = v & !1;
            } else {
                self.r[15] = v & !3;
            }
        } else {
            self.r[i] = v;
        }
    }
}

/// One step of the CPU: the new registers, the new machine, and the cycles.
#[verifier::opaque]
pub open spec fn cpu_stepped(c: Cpu, b: BusModel) -> (Cpu, BusModel, u32) {
    if c.halted {
        (c, b, 1)
    } else {
        let s = BusModel { exec_pc: c.r[15], ..b };
        if !c.cpsr.thumb && c.r[15] == BIOS_IRQ_RETURN {
            let (d, t) = crate::irq::irq_left(c, s);
            (d, t, 3)
        } else {
            let (d, t, n) = if c.cpsr.thumb {
                thumb::thumb_stepped(c, s)
            } else {
                arm::arm_stepped(c, s)
            };
            let back: u32 = if d.cpsr.thumb {
                2
            } else {
                4
            };
            let (u, wait) = t.fetch_waits(d.r[15].wrapping_sub(back));
            (
                Cpu { cycles: d.cycles.saturating_add(wait as u64), ..d },
                u,
                n.saturating_add(wait),
            )
        }
    }
}

impl Default for Cpu {
    fn default() -> (cpu: Self)
        ensures
            cpu.power_on(),
    {
        Cpu::new()
    }
}

} // verus!
