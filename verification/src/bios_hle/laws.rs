//! What the BIOS services leave alone.

use super::math::divided;
use super::{dispatched, low_cleared, sound_served, svc_entered, svc_left, swi_served};
use crate::bus::model::BusModel;
use crate::bus::{lemma_even, lemma_io_page};
use crate::cpu::cpsr::{MODE_ABT, MODE_FIQ, MODE_IRQ, MODE_SVC, MODE_UND};
use crate::cpu::laws::lemma_mode_bits;
use crate::cpu::Cpu;
use crate::savestate::lemma_io_read;
use crate::sound::bios::{initialised, key_asked, mode_set};
use vstd::prelude::*;

verus! {

/// Only R0-R12 differ.
pub open spec fn low_only(c: Cpu, d: Cpu) -> bool {
    &&& d == (Cpu { r: d.r, ..c })
    &&& d.r[13] == c.r[13] && d.r[14] == c.r[14] && d.r[15] == c.r[15]
}

proof fn lemma_low_cleared(c: Cpu, n: nat)
    requires
        n <= 13,
    ensures
        low_only(c, low_cleared(c, n)),
    decreases n,
{
    if n > 0 {
        lemma_low_cleared(c, (n - 1) as nat);
    }
}

proof fn lemma_served(c: Cpu, b: BusModel, num: u8)
    requires
        num != 0,
    ensures
        low_only(c, dispatched(c, b, num).0),
{
    reveal(dispatched);
    reveal(sound_served);
    reveal(key_asked);
    reveal(divided);
    lemma_low_cleared(c, 12);
}

/// A service other than SoftReset comes back: to the instruction behind the
/// call, in the mode and with the flags of the caller, whose stack pointer and
/// link register are as they were. In SVC mode the link register is the call's.
pub proof fn law_service_comes_back(c: Cpu, b: BusModel, num: u8)
    requires
        num != 0,
        c.cpsr.mode < 0x20,
    ensures
        ({
            let d = swi_served(c, b, num).0;
            &&& d.cpsr == c.cpsr
            &&& d.r[15] == c.r[15]
            &&& d.r[13] == c.r[13]
            &&& c.cpsr.mode != MODE_SVC ==> d.r[14] == c.r[14]
        }),
{
    lemma_served(svc_entered(c), b, num);
    lemma_left(c, dispatched(svc_entered(c), b, num).0);
}

proof fn lemma_left(c: Cpu, d: Cpu)
    requires
        c.cpsr.mode < 0x20,
        low_only(svc_entered(c), d),
    ensures
        ({
            let e = svc_left(d);
            &&& e.cpsr == c.cpsr
            &&& e.r[15] == c.r[15]
            &&& e.r[13] == c.r[13]
            &&& c.cpsr.mode != MODE_SVC ==> e.r[14] == c.r[14]
        }),
{
    lemma_mode_bits(c.cpsr.mode);
    lemma_mode_bits(MODE_SVC);
    reveal(svc_entered);
    reveal(svc_left);
    if c.cpsr.mode == MODE_SVC {
    } else if c.cpsr.mode == MODE_FIQ {
    } else if c.cpsr.mode == MODE_IRQ {
    } else if c.cpsr.mode == MODE_ABT {
    } else if c.cpsr.mode == MODE_UND {
    } else {
    }
}

/// The services of the music driver, MidiKey2Freq aside, play nothing and keep
/// no sound in memory: they leave the CPU, every memory and the sound as they
/// are.
pub proof fn law_music_services_are_stubs(c: Cpu, b: BusModel, num: u8)
    requires
        0x1A <= num <= 0x1E || 0x20 <= num <= 0x24 || num == 0x28 || num == 0x29,
    ensures
        ({
            let (d, s) = dispatched(c, b, num);
            &&& d == c
            &&& s.ewram == b.ewram && s.iwram == b.iwram && s.vram == b.vram
            &&& s.pal == b.pal && s.oam == b.oam && s.sram == b.sram
            &&& s.sound == b.sound && s.dma == b.dma
        }),
{
    reveal(dispatched);
    reveal(sound_served);
    reveal(initialised);
    if num == 0x1B {
        reveal(mode_set);
        reveal(BusModel::write16_raw);
        lemma_io_page(0x0400_0082);
        lemma_even(0x0400_0082);
        let s = BusModel {
            swi_counts: crate::bits::aset(
                b.swi_counts,
                num as int,
                b.swi_counts[num as int].wrapping_add(1),
            ),
            ..b
        };
        let m = (c.r[0] & 0xFFFF) as u16;
        let t = BusModel {
            sound_driver: crate::sound::bios::SoundDriver {
                mode_count: s.sound_driver.mode_count.wrapping_add(1),
                da_flags: if m & 0xFC00 != 0 {
                    m
                } else {
                    s.sound_driver.da_flags
                },
                ..s.sound_driver
            },
            ..s
        };
        lemma_io_read(t, 0x0400_0082);
    }
}

} // verus!
