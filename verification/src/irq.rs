//! Interrupt controller: IME, IE and IF.

use crate::bits::le16;
use crate::bus::model::{put16, BusModel};
use crate::bus::Bus;
use crate::cpu::cpsr::MODE_IRQ;
use crate::cpu::{Cpsr, Cpu, BIOS_IRQ_RETURN};
use vstd::prelude::*;

verus! {

pub const IRQ_VBLANK: u16 = 0x0001;

pub const IRQ_HBLANK: u16 = 0x0002;

pub const IRQ_VCOUNTER: u16 = 0x0004;

pub const IRQ_TIMER0: u16 = 0x0008;

pub const IRQ_TIMER1: u16 = 0x0010;

pub const IRQ_TIMER2: u16 = 0x0020;

pub const IRQ_TIMER3: u16 = 0x0040;

pub const IRQ_SERIAL: u16 = 0x0080;

pub const IRQ_DMA0: u16 = 0x0100;

pub const IRQ_DMA1: u16 = 0x0200;

pub const IRQ_DMA2: u16 = 0x0400;

pub const IRQ_DMA3: u16 = 0x0800;

pub const IRQ_KEYPAD: u16 = 0x1000;

/// Where the BIOS latches the interrupts that IntrWait looks at.
pub const IRQ_CHECK: usize = 0x7FF8;

impl BusModel {
    /// The BIOS interrupt latch in work RAM.
    pub open spec fn check_flags(self) -> u16 {
        le16(self.iwram[IRQ_CHECK as int], self.iwram[IRQ_CHECK + 1])
    }

    #[verifier::opaque]
    pub open spec fn with_check_flags(self, v: u16) -> BusModel {
        BusModel { iwram: put16(self.iwram, IRQ_CHECK as int, v), ..self }
    }

    /// An interrupt source fires: its IF bit and its latch bit are set.
    #[verifier::opaque]
    pub open spec fn raised(self, bit: u16) -> BusModel {
        let (s, cur) = self.read16(0x0400_0202);
        let t = s.write16_raw(0x0400_0202, cur | bit);
        t.with_check_flags(t.check_flags() | bit)
    }
}

/// Raise a hardware IRQ source (sets the IF bit and the BIOS latch).
pub fn raise(bus: &mut Bus, bit: u16)
    requires
        old(bus)@.wf(),
    ensures
        final(bus)@ == old(bus)@.raised(bit),
        final(bus)@.wf(),
{
    reveal(BusModel::raised);
    let cur: u16 = bus.read16(0x0400_0202);
    bus.write16_raw(0x0400_0202, cur | bit);
    bus.or_irq_check_flags(bit);
}

/// Registers that the BIOS pushes before it calls the handler, lowest first.
#[verifier::opaque]
pub open spec fn irq_frame_pushed(c: Cpu, b: BusModel, sp: u32) -> BusModel {
    b.write32(sp, c.r[0]).write32(sp.wrapping_add(4), c.r[1]).write32(
        sp.wrapping_add(8),
        c.r[2],
    ).write32(sp.wrapping_add(12), c.r[3]).write32(sp.wrapping_add(16), c.r[12]).write32(
        sp.wrapping_add(20),
        c.r[14],
    )
}

/// The exception itself: IRQ mode, ARM state, interrupts off, the old CPSR in
/// SPSR and the return address in LR.
#[verifier::opaque]
pub open spec fn irq_taken(c: Cpu) -> Cpu {
    let d = c.in_mode(MODE_IRQ);
    Cpu {
        spsr: c.cpsr,
        cpsr: Cpsr { irq_disable: true, thumb: false, mode: MODE_IRQ, ..d.cpsr },
        ..d
    }.with_r(14, c.r[15].wrapping_add(4))
}

/// The way out of the handler: the pushed registers come back, then
/// `subs pc, lr, #4`.
#[verifier::opaque]
pub open spec fn irq_left(c: Cpu, b: BusModel) -> (Cpu, BusModel) {
    let sp = c.r[13];
    let (s, r0) = b.read32(sp);
    let (s, r1) = s.read32(sp.wrapping_add(4));
    let (s, r2) = s.read32(sp.wrapping_add(8));
    let (s, r3) = s.read32(sp.wrapping_add(12));
    let (s, r12) = s.read32(sp.wrapping_add(16));
    let (s, lr) = s.read32(sp.wrapping_add(20));
    let d = c.with_r(0, r0).with_r(1, r1).with_r(2, r2).with_r(3, r3).with_r(12, r12).with_r(
        13,
        sp.wrapping_add(24),
    ).with_r(14, lr).spsr_restored();
    let back = lr.wrapping_sub(4);
    (
        d.with_r(
            15,
            if d.cpsr.thumb {
                back & !1u32
            } else {
                back & !3u32
            },
        ),
        s,
    )
}

/// Interrupt entry. Without a BIOS image its prologue is done here and the
/// handler at `03007FFCh` called; a null handler returns at once.
#[verifier::opaque]
pub open spec fn irq_entered(c: Cpu, b: BusModel) -> (Cpu, BusModel) {
    let s = BusModel { irq_count: b.irq_count.wrapping_add(1), ..b };
    let d = irq_taken(c);
    if s.hle_bios {
        let sp = d.r[13].wrapping_sub(24);
        let e = d.with_r(13, sp);
        let (t, handler) = irq_frame_pushed(e, s, sp).read32(0x0300_7FFC);
        let f = e.with_r(14, BIOS_IRQ_RETURN);
        if handler == 0 {
            irq_left(f, t)
        } else {
            (f.exchanged(handler), t)
        }
    } else {
        (d.with_r(15, 0x18), s)
    }
}

/// After `ran` cycles: an enabled pending interrupt is taken two cycles after
/// it became visible; masking it starts the delay again.
#[verifier::opaque]
pub open spec fn irq_checked(c: Cpu, b: BusModel, ran: u32) -> (Cpu, BusModel) {
    if c.cpsr.irq_disable {
        (c, BusModel { irq_countdown: 0, ..b })
    } else {
        let (s, ime) = b.read16(0x0400_0208);
        if ime & 1 == 0 {
            (c, BusModel { irq_countdown: 0, ..s })
        } else {
            let (s, ie) = s.read16(0x0400_0200);
            let (s, pending) = s.read16(0x0400_0202);
            if ie & pending == 0 {
                (c, BusModel { irq_countdown: 0, ..s })
            } else {
                let n = if s.irq_countdown == 0 {
                    2u8
                } else {
                    s.irq_countdown
                };
                if ran >= n {
                    irq_entered(c, BusModel { irq_countdown: 0, ..s })
                } else {
                    (c, BusModel { irq_countdown: (n - ran) as u8, ..s })
                }
            }
        }
    }
}

fn push_frame(cpu: &Cpu, bus: &mut Bus, sp: u32)
    requires
        old(bus)@.wf(),
    ensures
        final(bus)@ == irq_frame_pushed(*cpu, old(bus)@, sp),
        final(bus)@.wf(),
{
    reveal(irq_frame_pushed);
    bus.write32(sp, cpu.r[0]);
    bus.write32(sp.wrapping_add(4), cpu.r[1]);
    bus.write32(sp.wrapping_add(8), cpu.r[2]);
    bus.write32(sp.wrapping_add(12), cpu.r[3]);
    bus.write32(sp.wrapping_add(16), cpu.r[12]);
    bus.write32(sp.wrapping_add(20), cpu.r[14]);
}

fn take(cpu: &mut Cpu)
    ensures
        *final(cpu) == irq_taken(*old(cpu)),
{
    reveal(irq_taken);
    let lr: u32 = cpu.r[15].wrapping_add(4);
    let spsr = cpu.cpsr;
    cpu.set_mode(MODE_IRQ);
    cpu.spsr = spsr;
    cpu.cpsr.irq_disable = true;
    cpu.cpsr.thumb = false;
    cpu.cpsr.mode = MODE_IRQ;
    cpu.r[14] = lr;
}

fn enter_irq(cpu: &mut Cpu, bus: &mut Bus)
    requires
        old(bus)@.wf(),
    ensures
        (*final(cpu), final(bus)@) == irq_entered(*old(cpu), old(bus)@),
        final(bus)@.wf(),
{
    reveal(irq_entered);
    bus.count_irq();
    take(cpu);
    if bus.is_hle() {
        let sp: u32 = cpu.r[13].wrapping_sub(24);
        cpu.r[13] = sp;
        push_frame(cpu, bus, sp);
        cpu.r[14] = BIOS_IRQ_RETURN;
        let handler: u32 = bus.read32(0x0300_7FFC);
        if handler == 0 {
            let _t: u32 = hle_irq_return(cpu, bus);
            return;
        }
        cpu.exchange(handler);
    } else {
        cpu.r[15] = 0x0000_0018;
    }
}

/// BIOS IRQ epilogue: pops what the prologue pushed, then `subs pc, lr, #4`.
pub fn hle_irq_return(cpu: &mut Cpu, bus: &mut Bus) -> (t: u32)
    requires
        old(bus)@.wf(),
    ensures
        (*final(cpu), final(bus)@) == irq_left(*old(cpu), old(bus)@),
        t == 3,
        final(bus)@.wf(),
{
    reveal(irq_left);
    let sp: u32 = cpu.r[13];
    let r0: u32 = bus.read32(sp);
    let r1: u32 = bus.read32(sp.wrapping_add(4));
    let r2: u32 = bus.read32(sp.wrapping_add(8));
    let r3: u32 = bus.read32(sp.wrapping_add(12));
    let r12: u32 = bus.read32(sp.wrapping_add(16));
    let lr: u32 = bus.read32(sp.wrapping_add(20));
    cpu.r[0] = r0;
    cpu.r[1] = r1;
    cpu.r[2] = r2;
    cpu.r[3] = r3;
    cpu.r[12] = r12;
    cpu.r[13] = sp.wrapping_add(24);
    cpu.r[14] = lr;
    let back: u32 = lr.wrapping_sub(4);
    cpu.restore_spsr();
    cpu.r[15] = if cpu.cpsr.thumb {
        back & !1
    } else {
        back & !3
    };
    3
}

/// `just_ran` cycles have passed: takes the interrupt when its delay is over.
pub fn check(cpu: &mut Cpu, bus: &mut Bus, just_ran: u32)
    requires
        old(bus)@.wf(),
    ensures
        (*final(cpu), final(bus)@) == irq_checked(*old(cpu), old(bus)@, just_ran),
        final(bus)@.wf(),
{
    reveal(irq_checked);
    if cpu.cpsr.irq_disable {
        bus.set_countdown(0);
        return;
    }
    let ime: u16 = bus.read16(0x0400_0208);
    if ime & 1 == 0 {
        bus.set_countdown(0);
        return;
    }
    let ie: u16 = bus.read16(0x0400_0200);
    let pending: u16 = bus.read16(0x0400_0202);
    if ie & pending == 0 {
        bus.set_countdown(0);
        return;
    }
    let cur: u8 = bus.countdown();
    let n: u8 = if cur == 0 {
        2
    } else {
        cur
    };
    if just_ran >= n as u32 {
        bus.set_countdown(0);
        enter_irq(cpu, bus);
    } else {
        bus.set_countdown(n - just_ran as u8);
    }
}

} // verus!
