//! High-level BIOS calls (no BIOS image required).

pub mod decomp;
pub mod filters;
pub mod laws;
pub mod math;
pub mod unpack_laws;

use crate::bios_hle::decomp::{
    cpu_fast_set, cpu_fast_set_done, cpu_set, cpu_set_done, lz77_done, lz77_uncomp,
};
use crate::bios_hle::filters::{
    bit_unpack, diff16_done, diff16_unfilter, diff8_done, diff8_unfilter, huff_done, huff_uncomp, rl_done, rl_uncomp,
    unpack_done,
};
use crate::bios_hle::math::{div, div_arm, div_arm_done, div_done, is_isqrt, isqrt_u32};
use crate::bus::model::BusModel;
use crate::bus::{Bus, MathCall};
use crate::cpu::cpsr::{MODE_IRQ, MODE_SVC, MODE_SYS};
use crate::cpu::{Cpsr, Cpu};
use crate::mem::{filled, repeated};
use crate::sound::bios::{
    biased, initialised, key_asked, main_counted, midi_key_freq, mode_set, music_player_open,
    opened, sound_bias, sound_driver_init, sound_driver_main, sound_driver_mode, sound_driver_vsync,
    sound_get_jump_list, vsynced,
};
use vstd::prelude::*;

verus! {

/// The square root of a word, as a value.
pub open spec fn root_of(n: u32) -> u32 {
    choose|r: u32| is_isqrt(r, n)
}

proof fn lemma_root(a: u32, b: u32, n: u32)
    requires
        is_isqrt(a, n),
        is_isqrt(b, n),
    ensures
        a == b,
{
    if a < b {
        assert((a + 1) * (a + 1) <= b * b) by (nonlinear_arith)
            requires
                a + 1 <= b,
                0 <= a,
        ;
    } else if b < a {
        assert((b + 1) * (b + 1) <= a * a) by (nonlinear_arith)
            requires
                b + 1 <= a,
                0 <= b,
        ;
    }
}

fn sqrt(cpu: &mut Cpu)
    ensures
        *final(cpu) == old(cpu).with_r(0, root_of(old(cpu).r[0])),
{
    let n: u32 = cpu.r[0];
    let r: u32 = isqrt_u32(n);
    proof {
        lemma_root(r, root_of(n), n);
    }
    cpu.r[0] = r;
}

/// The first `n` registers cleared.
pub open spec fn low_cleared(c: Cpu, n: nat) -> Cpu
    decreases n,
{
    if n == 0 {
        c
    } else {
        low_cleared(c, (n - 1) as nat).with_r(n - 1, 0)
    }
}

fn clear_low(cpu: &mut Cpu, n: usize)
    requires
        n <= 16,
    ensures
        *final(cpu) == low_cleared(*old(cpu), n as nat),
{
    let mut i: usize = 0;
    while i < n
        invariant
            i <= n <= 16,
            *cpu == low_cleared(*old(cpu), i as nat),
        decreases n - i,
    {
        cpu.r[i] = 0;
        i += 1;
    }
}

/// Registers after SoftReset: R0-R12 cleared, the three stacks set up, System
/// mode, ARM state, and the entry point.
#[verifier::opaque]
pub open spec fn reset_regs(c: Cpu, entry: u32) -> Cpu {
    let d = low_cleared(c, 13).in_mode(MODE_SVC).with_r(13, 0x0300_7FE0);
    let e = d.in_mode(MODE_IRQ).with_r(13, 0x0300_7FA0);
    let f = e.in_mode(MODE_SYS).with_r(13, 0x0300_7F00);
    (Cpu { cpsr: Cpsr { thumb: false, irq_disable: false, ..f.cpsr }, ..f }).with_r(15, entry)
}

fn reset_cpu(cpu: &mut Cpu, entry: u32)
    ensures
        *final(cpu) == reset_regs(*old(cpu), entry),
{
    reveal(reset_regs);
    clear_low(cpu, 13);
    cpu.set_mode(MODE_SVC);
    cpu.r[13] = 0x0300_7FE0;
    cpu.set_mode(MODE_IRQ);
    cpu.r[13] = 0x0300_7FA0;
    cpu.set_mode(MODE_SYS);
    cpu.r[13] = 0x0300_7F00;
    cpu.cpsr.thumb = false;
    cpu.cpsr.irq_disable = false;
    cpu.set_pc(entry);
}

/// SoftReset: the top 200h of IWRAM is wiped (the entry flag in it is read
/// first), and execution starts in ROM or, with the flag, in EWRAM.
#[verifier::opaque]
pub open spec fn soft_reset_done(c: Cpu, b: BusModel) -> (Cpu, BusModel) {
    let (s, flag) = b.read8(0x0300_7FFA);
    (
        reset_regs(
            c,
            if flag & 1 != 0 {
                0x0200_0000
            } else {
                0x0800_0000
            },
        ),
        BusModel {
            iwram: filled(s.iwram, 0x7E00, 0x8000, 0),
            halt_wait: false,
            intr_wait_mask: 0,
            last_bios: 0,
            ..s
        },
    )
}

pub fn soft_reset(cpu: &mut Cpu, bus: &mut Bus)
    requires
        old(bus)@.wf(),
    ensures
        (*final(cpu), final(bus)@) == soft_reset_done(*old(cpu), old(bus)@),
        final(bus)@.wf(),
{
    reveal(soft_reset_done);
    let flag: u8 = bus.read8(0x0300_7FFA);
    bus.clear_iwram(0x7E00, 0x8000);
    bus.set_halt(false);
    bus.set_wait_mask(0);
    bus.clear_last_bios();
    reset_cpu(
        cpu,
        if flag & 1 != 0 {
            0x0200_0000
        } else {
            0x0800_0000
        },
    );
}

/// RegisterRamReset, memories: each flag clears one, and IWRAM keeps its top
/// 200h (interrupt vector and reset flag).
#[verifier::opaque]
pub open spec fn ram_cleared(b: BusModel, flags: u32) -> BusModel {
    BusModel {
        ewram: if flags & 1 != 0 {
            repeated(0u8, b.ewram.len())
        } else {
            b.ewram
        },
        iwram: if flags & 2 != 0 {
            filled(b.iwram, 0, 0x7E00, 0)
        } else {
            b.iwram
        },
        pal: if flags & 4 != 0 {
            repeated(0u8, b.pal.len())
        } else {
            b.pal
        },
        vram: if flags & 8 != 0 {
            repeated(0u8, b.vram.len())
        } else {
            b.vram
        },
        oam: if flags & 0x10 != 0 {
            repeated(0u8, b.oam.len())
        } else {
            b.oam
        },
        ..b
    }
}

fn clear_ram(bus: &mut Bus, flags: u32)
    requires
        old(bus)@.wf(),
    ensures
        final(bus)@ == ram_cleared(old(bus)@, flags),
        final(bus)@.wf(),
{
    reveal(ram_cleared);
    if flags & 1 != 0 {
        bus.clear_ewram();
    }
    if flags & 2 != 0 {
        bus.clear_iwram(0, 0x7E00);
    }
    if flags & 4 != 0 {
        bus.clear_pal();
    }
    if flags & 8 != 0 {
        bus.clear_vram();
    }
    if flags & 0x10 != 0 {
        bus.clear_oam();
    }
}

/// RegisterRamReset, registers: sound, display, and last DMA and timers, whose
/// units stop with their registers.
#[verifier::opaque]
pub open spec fn io_cleared(b: BusModel, flags: u32) -> BusModel {
    let s = if flags & 0x20 != 0 {
        BusModel { io: filled(b.io, 0x60, 0xB0, 0), ..b }
    } else {
        b
    };
    let t = if flags & 0x40 != 0 {
        BusModel { io: filled(s.io, 0, 0x60, 0), ..s }
    } else {
        s
    };
    if flags & 0x80 != 0 {
        (BusModel {
            io: filled(filled(t.io, 0xB0, 0xE0, 0), 0x100, 0x110, 0),
            ..t
        }).units_stopped()
    } else {
        t
    }
}

fn clear_registers(bus: &mut Bus, flags: u32)
    requires
        old(bus)@.wf(),
    ensures
        final(bus)@ == io_cleared(old(bus)@, flags),
        final(bus)@.wf(),
{
    reveal(io_cleared);
    if flags & 0x20 != 0 {
        bus.clear_io(0x60, 0xB0);
    }
    if flags & 0x40 != 0 {
        bus.clear_io(0, 0x60);
    }
    if flags & 0x80 != 0 {
        bus.clear_io(0xB0, 0xE0);
        bus.clear_io(0x100, 0x110);
        bus.stop_dma_and_timers();
    }
}

pub open spec fn ram_reset_done(c: Cpu, b: BusModel) -> (Cpu, BusModel) {
    (
        if c.r[0] & 0x80 != 0 {
            low_cleared(c, 12)
        } else {
            c
        },
        io_cleared(ram_cleared(b, c.r[0]), c.r[0]),
    )
}

pub fn register_ram_reset(cpu: &mut Cpu, bus: &mut Bus)
    requires
        old(bus)@.wf(),
    ensures
        (*final(cpu), final(bus)@) == ram_reset_done(*old(cpu), old(bus)@),
        final(bus)@.wf(),
{
    let flags: u32 = cpu.r[0];
    clear_ram(bus, flags);
    clear_registers(bus, flags);
    if flags & 0x80 != 0 {
        clear_low(cpu, 12);
    }
}

/// IntrWait: with R0 set the flags in question are discarded first; otherwise
/// one that is already there ends the wait at once. No flag means VBlank.
#[verifier::opaque]
pub open spec fn waiting(c: Cpu, b: BusModel) -> BusModel {
    let m = lo_half(c.r[1]);
    let mask = if m == 0 {
        1u16
    } else {
        m
    };
    let (s, pending) = b.read16(0x0400_0202);
    if c.r[0] != 0 {
        let t = s.write16_raw(0x0400_0202, pending & !mask);
        BusModel {
            intr_wait_mask: mask,
            halt_wait: true,
            ..t.with_check_flags(t.check_flags() & !mask)
        }
    } else {
        let (s, seen) = s.read16(0x0300_7FF8);
        if pending & mask != 0 || seen & mask != 0 {
            s
        } else {
            BusModel { intr_wait_mask: mask, halt_wait: true, ..s }
        }
    }
}

pub open spec fn lo_half(v: u32) -> u16 {
    (v & 0xFFFF) as u16
}

pub fn intr_wait(cpu: &Cpu, bus: &mut Bus)
    requires
        old(bus)@.wf(),
    ensures
        final(bus)@ == waiting(*cpu, old(bus)@),
        final(bus)@.wf(),
{
    reveal(waiting);
    let m: u16 = (cpu.r[1] & 0xFFFF) as u16;
    let mask: u16 = if m == 0 {
        1
    } else {
        m
    };
    let pending: u16 = bus.read16(0x0400_0202);
    if cpu.r[0] != 0 {
        bus.write16_raw(0x0400_0202, pending & !mask);
        let seen: u16 = bus.irq_check_flags();
        bus.set_irq_check_flags(seen & !mask);
    } else {
        let seen: u16 = bus.read16(0x0300_7FF8);
        if pending & mask != 0 || seen & mask != 0 {
            return;
        }
    }
    bus.set_wait_mask(mask);
    bus.set_halt(true);
}

/// Services that wait for the host's arithmetic.
#[verifier::opaque]
pub open spec fn math_asked(c: Cpu, b: BusModel, num: u8) -> BusModel {
    let m = if num == 0x09 {
        Some(MathCall::ArcTan { tan: c.r[0] })
    } else if num == 0x0A {
        Some(MathCall::ArcTan2 { x: c.r[0], y: c.r[1] })
    } else if c.r[2] == 0 {
        None
    } else if num == 0x0E {
        Some(MathCall::BgAffine { src: c.r[0], dst: c.r[1], left: c.r[2] })
    } else {
        Some(
            MathCall::ObjAffine {
                src: c.r[0],
                dst: c.r[1],
                left: c.r[2],
                offset: if c.r[3] < 2 {
                    2
                } else {
                    c.r[3]
                },
            },
        )
    };
    BusModel { math: m, ..b }
}

fn ask_math(cpu: &Cpu, bus: &mut Bus, num: u8)
    requires
        old(bus)@.wf(),
    ensures
        final(bus)@ == math_asked(*cpu, old(bus)@, num),
        final(bus)@.wf(),
{
    reveal(math_asked);
    let m: Option<MathCall> = if num == 0x09 {
        Some(MathCall::ArcTan { tan: cpu.r[0] })
    } else if num == 0x0A {
        Some(MathCall::ArcTan2 { x: cpu.r[0], y: cpu.r[1] })
    } else if cpu.r[2] == 0 {
        None
    } else if num == 0x0E {
        Some(MathCall::BgAffine { src: cpu.r[0], dst: cpu.r[1], left: cpu.r[2] })
    } else {
        Some(
            MathCall::ObjAffine {
                src: cpu.r[0],
                dst: cpu.r[1],
                left: cpu.r[2],
                offset: if cpu.r[3] < 2 {
                    2
                } else {
                    cpu.r[3]
                },
            },
        )
    };
    bus.set_math(m);
}

/// Sound services, 19h and up.
#[verifier::opaque]
pub open spec fn sound_served(c: Cpu, b: BusModel, num: u8) -> (Cpu, BusModel) {
    if num == 0x19 {
        (c, biased(b, c.r[0]))
    } else if num == 0x1A {
        (c, initialised(b, c.r[0]))
    } else if num == 0x1B {
        (c, mode_set(b, c.r[0]))
    } else if num == 0x1C {
        (c, main_counted(b))
    } else if num == 0x1D || num == 0x28 || num == 0x29 {
        (c, vsynced(b))
    } else if num == 0x1F || num == 0x2B {
        key_asked(c, b)
    } else if num == 0x20 {
        (c, opened(b))
    } else if num == 0x1E || (0x21 <= num <= 0x24) {
        (c, b)
    } else if num == 0x2A {
        (c.with_r(0, 0), b)
    } else {
        (
            c,
            BusModel { swi_unknown: b.swi_unknown.wrapping_add(1), last_swi_unknown: num, ..b },
        )
    }
}

fn dispatch_sound(cpu: &mut Cpu, bus: &mut Bus, num: u8)
    requires
        old(bus)@.wf(),
    ensures
        (*final(cpu), final(bus)@) == sound_served(*old(cpu), old(bus)@, num),
        final(bus)@.wf(),
{
    reveal(sound_served);
    match num {
        0x19 => sound_bias(bus, cpu.r[0]),
        0x1A => sound_driver_init(cpu, bus),
        0x1B => sound_driver_mode(bus, cpu.r[0]),
        0x1C => sound_driver_main(bus),
        0x1D | 0x28 | 0x29 => sound_driver_vsync(bus),
        0x1F | 0x2B => midi_key_freq(cpu, bus),
        0x20 => music_player_open(bus),
        0x1E | 0x21 | 0x22 | 0x23 | 0x24 => {},
        0x2A => sound_get_jump_list(cpu),
        _ => {
            bus.note_unknown_swi(num);
        },
    }
}

/// Decompression services, 10h to 18h.
#[verifier::opaque]
pub open spec fn unpacked(c: Cpu, b: BusModel, num: u8) -> BusModel {
    if num == 0x10 {
        unpack_done(c, b)
    } else if num == 0x11 || num == 0x12 {
        lz77_done(c, b, num == 0x12)
    } else if num == 0x13 {
        huff_done(c, b)
    } else if num == 0x14 || num == 0x15 {
        rl_done(c, b, num == 0x15)
    } else if num == 0x16 || num == 0x17 {
        diff8_done(c, b, num == 0x17)
    } else {
        diff16_done(c, b)
    }
}

fn dispatch_unpack(cpu: &Cpu, bus: &mut Bus, num: u8)
    requires
        old(bus)@.wf(),
    ensures
        final(bus)@ == unpacked(*cpu, old(bus)@, num),
        final(bus)@.wf(),
{
    reveal(unpacked);
    match num {
        0x10 => bit_unpack(cpu, bus),
        0x11 => lz77_uncomp(cpu, bus, false),
        0x12 => lz77_uncomp(cpu, bus, true),
        0x13 => huff_uncomp(cpu, bus),
        0x14 => rl_uncomp(cpu, bus, false),
        0x15 => rl_uncomp(cpu, bus, true),
        0x16 => diff8_unfilter(cpu, bus, false),
        0x17 => diff8_unfilter(cpu, bus, true),
        _ => diff16_unfilter(cpu, bus),
    }
}

/// One service by its number.
#[verifier::opaque]
pub open spec fn dispatched(c: Cpu, b: BusModel, num: u8) -> (Cpu, BusModel) {
    let s = BusModel {
        swi_counts: crate::bits::aset(
            b.swi_counts,
            num as int,
            b.swi_counts[num as int].wrapping_add(1),
        ),
        ..b
    };
    if num == 0x00 {
        soft_reset_done(c, s)
    } else if num == 0x01 {
        ram_reset_done(c, s)
    } else if num == 0x02 || num == 0x03 {
        (c, BusModel { halt_wait: true, ..s })
    } else if num == 0x04 {
        (c, waiting(c, s))
    } else if num == 0x05 {
        let d = c.with_r(0, 1).with_r(1, 1);
        (d, waiting(d, s))
    } else if num == 0x06 {
        (div_done(c), s)
    } else if num == 0x07 {
        (div_arm_done(c), s)
    } else if num == 0x08 {
        (c.with_r(0, root_of(c.r[0])), s)
    } else if num == 0x09 || num == 0x0A || num == 0x0E || num == 0x0F {
        (c, math_asked(c, s, num))
    } else if num == 0x0B {
        (c, cpu_set_done(c, s))
    } else if num == 0x0C {
        (c, cpu_fast_set_done(c, s))
    } else if num == 0x0D {
        (c.with_r(0, 0xBAAE_187F), s)
    } else if num <= 0x18 {
        (c, unpacked(c, s, num))
    } else {
        sound_served(c, s, num)
    }
}

/// Runs one service. Those that need the host's arithmetic leave a request
/// on the bus.
pub fn dispatch(cpu: &mut Cpu, bus: &mut Bus, num: u8)
    requires
        old(bus)@.wf(),
    ensures
        (*final(cpu), final(bus)@) == dispatched(*old(cpu), old(bus)@, num),
        final(bus)@.wf(),
{
    reveal(dispatched);
    bus.count_swi(num);
    match num {
        0x00 => soft_reset(cpu, bus),
        0x01 => register_ram_reset(cpu, bus),
        0x02 | 0x03 => {
            // Stop is treated like Halt (deep sleep not needed for games)
            bus.set_halt(true);
        },
        0x04 => intr_wait(cpu, bus),
        0x05 => {
            cpu.r[0] = 1;
            cpu.r[1] = 1;
            intr_wait(cpu, bus);
        },
        0x06 => div(cpu),
        0x07 => div_arm(cpu),
        0x08 => sqrt(cpu),
        0x09 | 0x0A | 0x0E | 0x0F => ask_math(cpu, bus, num),
        0x0B => cpu_set(cpu, bus),
        0x0C => cpu_fast_set(cpu, bus),
        0x0D => {
            cpu.r[0] = 0xBAAE_187F;
        },
        _ => {
            if num <= 0x18 {
                dispatch_unpack(cpu, bus, num);
            } else {
                dispatch_sound(cpu, bus, num);
            }
        },
    }
}

/// Exception entry: LR_svc is the next instruction, SPSR the old CPSR, and the
/// mode is SVC in ARM state with interrupts off.
#[verifier::opaque]
pub open spec fn svc_entered(c: Cpu) -> Cpu {
    let d = c.in_mode(MODE_SVC);
    (Cpu {
        spsr: c.cpsr,
        cpsr: Cpsr { irq_disable: true, thumb: false, mode: MODE_SVC, ..d.cpsr },
        ..d
    }).with_r(14, c.r[15])
}

/// Return from the service, unless it left SVC mode itself (SoftReset).
#[verifier::opaque]
pub open spec fn svc_left(c: Cpu) -> Cpu {
    if c.cpsr.mode & 0x1F != MODE_SVC {
        c
    } else {
        c.spsr_restored().with_r(15, c.r[14])
    }
}

pub open spec fn swi_served(c: Cpu, b: BusModel, num: u8) -> (Cpu, BusModel) {
    let (d, s) = dispatched(svc_entered(c), b, num);
    (svc_left(d), s)
}

fn enter_svc(cpu: &mut Cpu)
    ensures
        *final(cpu) == svc_entered(*old(cpu)),
{
    reveal(svc_entered);
    let lr: u32 = cpu.r[15];
    let spsr = cpu.cpsr;
    cpu.set_mode(MODE_SVC);
    cpu.spsr = spsr;
    cpu.cpsr.irq_disable = true;
    cpu.cpsr.thumb = false;
    cpu.cpsr.mode = MODE_SVC;
    cpu.r[14] = lr;
}

fn leave_svc(cpu: &mut Cpu)
    ensures
        *final(cpu) == svc_left(*old(cpu)),
{
    reveal(svc_left);
    if cpu.cpsr.mode & 0x1F != MODE_SVC {
        return;
    }
    let ret: u32 = cpu.r[14];
    cpu.restore_spsr();
    cpu.r[15] = ret;
}

fn serve(cpu: &mut Cpu, bus: &mut Bus, num: u8)
    requires
        old(bus)@.wf(),
    ensures
        (*final(cpu), final(bus)@) == swi_served(*old(cpu), old(bus)@, num),
        final(bus)@.wf(),
{
    enter_svc(cpu);
    dispatch(cpu, bus, num);
    leave_svc(cpu);
}

/// ARM SWI: the BIOS uses the low 8 bits of the comment field.
pub fn swi_arm(cpu: &mut Cpu, bus: &mut Bus, op: u32)
    requires
        old(bus)@.wf(),
    ensures
        (*final(cpu), final(bus)@) == swi_served(*old(cpu), old(bus)@, (op & 0xFF) as u8),
        final(bus)@.wf(),
{
    serve(cpu, bus, (op & 0xFF) as u8);
}

/// Thumb SWI: low 8 bits.
pub fn swi_thumb(cpu: &mut Cpu, bus: &mut Bus, op: u32)
    requires
        old(bus)@.wf(),
    ensures
        (*final(cpu), final(bus)@) == swi_served(*old(cpu), old(bus)@, (op & 0xFF) as u8),
        final(bus)@.wf(),
{
    serve(cpu, bus, (op & 0xFF) as u8);
}

} // verus!
