//! Latches, counters and whole memories of the bus.

use crate::bits::{aset, high_byte, low_byte};
use crate::bus::model::{put16, BusModel};
use crate::bus::{bus_view, Bus, MathCall, IO_SIZE, IWRAM_SIZE, OAM_SIZE, PAL_SIZE, VRAM_SIZE};
use crate::mem::{byte_or, fill_range, filled, get_or, repeated};
use crate::sound::bios::SoundDriver;
use crate::sound::PsgRegs;
use vstd::prelude::*;

verus! {

impl Bus {
    pub fn countdown(&self) -> (r: u8)
        ensures
            r == self@.irq_countdown,
    {
        reveal(bus_view);
        reveal(BusModel::wf);
        self.irq_countdown
    }

    pub fn set_countdown(&mut self, v: u8)
        requires
            old(self)@.wf(),
        ensures
            final(self)@ == (BusModel { irq_countdown: v, ..old(self)@ }),
            final(self)@.wf(),
    {
        reveal(bus_view);
        reveal(BusModel::wf);
        self.irq_countdown = v;
    }

    pub fn count_irq(&mut self)
        requires
            old(self)@.wf(),
        ensures
            final(self)@ == (BusModel { irq_count: old(self)@.irq_count.wrapping_add(1), ..old(self)@ }),
            final(self)@.wf(),
    {
        reveal(bus_view);
        reveal(BusModel::wf);
        self.irq_count = self.irq_count.wrapping_add(1);
    }

    pub fn is_hle(&self) -> (r: bool)
        ensures
            r == self@.hle_bios,
    {
        reveal(bus_view);
        reveal(BusModel::wf);
        self.hle_bios
    }

    pub fn set_exec_pc(&mut self, pc: u32)
        requires
            old(self)@.wf(),
        ensures
            final(self)@ == (BusModel { exec_pc: pc, ..old(self)@ }),
            final(self)@.wf(),
    {
        reveal(bus_view);
        reveal(BusModel::wf);
        self.exec_pc = pc;
    }

    pub fn timer_reloads(&self) -> (r: [u16; 4])
        ensures
            r == self@.timer_reload,
    {
        reveal(bus_view);
        reveal(BusModel::wf);
        self.timer_reload
    }

    pub fn set_timer_reloads(&mut self, v: [u16; 4])
        requires
            old(self)@.wf(),
        ensures
            final(self)@ == (BusModel { timer_reload: v, ..old(self)@ }),
            final(self)@.wf(),
    {
        reveal(bus_view);
        reveal(BusModel::wf);
        self.timer_reload = v;
    }

    pub fn timer_ctrls(&self) -> (r: [u16; 4])
        ensures
            r == self@.timer_ctrl_prev,
    {
        reveal(bus_view);
        reveal(BusModel::wf);
        self.timer_ctrl_prev
    }

    pub fn timer_starts(&self) -> (r: u8)
        ensures
            r == self@.timer_start_mask,
    {
        reveal(bus_view);
        reveal(BusModel::wf);
        self.timer_start_mask
    }

    pub fn clear_timer_starts(&mut self)
        requires
            old(self)@.wf(),
        ensures
            final(self)@ == (BusModel { timer_start_mask: 0, ..old(self)@ }),
            final(self)@.wf(),
    {
        reveal(bus_view);
        reveal(BusModel::wf);
        self.timer_start_mask = 0;
    }

    pub fn overflows(&self) -> (r: [u32; 4])
        ensures
            r == self@.timer_overflows,
    {
        reveal(bus_view);
        reveal(BusModel::wf);
        self.timer_overflows
    }

    pub fn set_overflows(&mut self, v: [u32; 4])
        requires
            old(self)@.wf(),
        ensures
            final(self)@ == (BusModel { timer_overflows: v, ..old(self)@ }),
            final(self)@.wf(),
    {
        reveal(bus_view);
        reveal(BusModel::wf);
        self.timer_overflows = v;
    }

    pub fn is_halted(&self) -> (r: bool)
        ensures
            r == self@.halt_wait,
    {
        reveal(bus_view);
        reveal(BusModel::wf);
        self.halt_wait
    }

    pub fn wait_mask(&self) -> (r: u16)
        ensures
            r == self@.intr_wait_mask,
    {
        reveal(bus_view);
        reveal(BusModel::wf);
        self.intr_wait_mask
    }

    pub fn set_wait_mask(&mut self, v: u16)
        requires
            old(self)@.wf(),
        ensures
            final(self)@ == (BusModel { intr_wait_mask: v, ..old(self)@ }),
            final(self)@.wf(),
    {
        reveal(bus_view);
        reveal(BusModel::wf);
        self.intr_wait_mask = v;
    }

    pub fn count_swi(&mut self, num: u8)
        requires
            old(self)@.wf(),
        ensures
            final(self)@ == (BusModel { swi_counts: aset(old(self)@.swi_counts, num as int, old(self)@.swi_counts[num as int].wrapping_add(1)), ..old(self)@ }),
            final(self)@.wf(),
    {
        reveal(bus_view);
        reveal(BusModel::wf);
        let n: u32 = self.swi_counts[num as usize];
        self.swi_counts[num as usize] = n.wrapping_add(1);
    }

    pub fn note_unknown_swi(&mut self, num: u8)
        requires
            old(self)@.wf(),
        ensures
            final(self)@ == (BusModel { swi_unknown: old(self)@.swi_unknown.wrapping_add(1),
                last_swi_unknown: num, ..old(self)@ }),
            final(self)@.wf(),
    {
        reveal(bus_view);
        reveal(BusModel::wf);
        self.swi_unknown = self.swi_unknown.wrapping_add(1);
        self.last_swi_unknown = num;
    }

    pub fn note_lz77(&mut self, dst: u32, size: u32, near: bool)
        requires
            old(self)@.wf(),
        ensures
            final(self)@ == (BusModel { last_lz77v_dst: dst,
                last_lz77v_size: size,
                last_lz77v_to_0600: if near {
                    old(self)@.last_lz77v_to_0600.wrapping_add(1)
                } else {
                    old(self)@.last_lz77v_to_0600
                }, ..old(self)@ }),
            final(self)@.wf(),
    {
        reveal(bus_view);
        reveal(BusModel::wf);
        self.last_lz77v_dst = dst;
        self.last_lz77v_size = size;
        if near {
            self.last_lz77v_to_0600 = self.last_lz77v_to_0600.wrapping_add(1);
        }
    }

    pub fn driver(&self) -> (r: SoundDriver)
        ensures
            r == self@.sound_driver,
    {
        reveal(bus_view);
        reveal(BusModel::wf);
        self.sound_driver
    }

    pub fn set_driver(&mut self, d: SoundDriver)
        requires
            old(self)@.wf(),
        ensures
            final(self)@ == (BusModel { sound_driver: d, ..old(self)@ }),
            final(self)@.wf(),
    {
        reveal(bus_view);
        reveal(BusModel::wf);
        self.sound_driver = d;
    }

    pub fn pending_math(&self) -> (r: Option<MathCall>)
        ensures
            r == self@.math,
    {
        reveal(bus_view);
        reveal(BusModel::wf);
        self.math
    }

    pub fn set_math(&mut self, m: Option<MathCall>)
        requires
            old(self)@.wf(),
        ensures
            final(self)@ == (BusModel { math: m, ..old(self)@ }),
            final(self)@.wf(),
    {
        reveal(bus_view);
        reveal(BusModel::wf);
        self.math = m;
    }

    /// All of ewram cleared.
    pub fn clear_ewram(&mut self)
        requires
            old(self)@.wf(),
        ensures
            final(self)@ == (BusModel { ewram: repeated(0u8, old(self)@.ewram.len()), ..old(self)@ }),
            final(self)@.wf(),
    {
        reveal(bus_view);
        reveal(BusModel::wf);
        let n: usize = self.ewram.len();
        fill_range(&mut self.ewram, 0, n, 0);
        assert(self.ewram@ =~= repeated(0u8, old(self).ewram@.len()));
    }

    /// Bytes `lo` up to `hi` of iwram cleared.
    pub fn clear_iwram(&mut self, lo: usize, hi: usize)
        requires
            old(self)@.wf(),
            lo <= hi <= IWRAM_SIZE,
        ensures
            final(self)@ == (BusModel { iwram: filled(old(self)@.iwram, lo as int, hi as int, 0), ..old(self)@ }),
            final(self)@.wf(),
    {
        reveal(bus_view);
        reveal(BusModel::wf);
        fill_range(&mut self.iwram, lo, hi, 0);
    }

    /// Bytes `lo` up to `hi` of io cleared.
    pub fn clear_io(&mut self, lo: usize, hi: usize)
        requires
            old(self)@.wf(),
            lo <= hi <= IO_SIZE,
        ensures
            final(self)@ == (BusModel { io: filled(old(self)@.io, lo as int, hi as int, 0), ..old(self)@ }),
            final(self)@.wf(),
    {
        reveal(bus_view);
        reveal(BusModel::wf);
        fill_range(&mut self.io, lo, hi, 0);
    }

    /// All of palette cleared.
    pub fn clear_pal(&mut self)
        requires
            old(self)@.wf(),
        ensures
            final(self)@ == (BusModel { pal: repeated(0u8, old(self)@.pal.len()), ..old(self)@ }),
            final(self)@.wf(),
    {
        reveal(bus_view);
        reveal(BusModel::wf);
        let n: usize = self.pal.len();
        fill_range(&mut self.pal, 0, n, 0);
        assert(self.pal@ =~= repeated(0u8, old(self).pal@.len()));
    }

    /// All of vram cleared.
    pub fn clear_vram(&mut self)
        requires
            old(self)@.wf(),
        ensures
            final(self)@ == (BusModel { vram: repeated(0u8, old(self)@.vram.len()), ..old(self)@ }),
            final(self)@.wf(),
    {
        reveal(bus_view);
        reveal(BusModel::wf);
        let n: usize = self.vram.len();
        fill_range(&mut self.vram, 0, n, 0);
        assert(self.vram@ =~= repeated(0u8, old(self).vram@.len()));
    }

    /// All of oam cleared.
    pub fn clear_oam(&mut self)
        requires
            old(self)@.wf(),
        ensures
            final(self)@ == (BusModel { oam: repeated(0u8, old(self)@.oam.len()), ..old(self)@ }),
            final(self)@.wf(),
    {
        reveal(bus_view);
        reveal(BusModel::wf);
        let n: usize = self.oam.len();
        fill_range(&mut self.oam, 0, n, 0);
        assert(self.oam@ =~= repeated(0u8, old(self).oam@.len()));
    }

    /// A halfword into VRAM at an index.
    pub fn store_vram16(&mut self, i: usize, v: u16)
        requires
            old(self)@.wf(),
            i + 1 < VRAM_SIZE,
        ensures
            final(self)@ == (BusModel { vram: put16(old(self)@.vram, i as int, v), ..old(self)@ }),
            final(self)@.wf(),
    {
        reveal(bus_view);
        reveal(BusModel::wf);
        self.vram[i] = low_byte(v);
        self.vram[i + 1] = high_byte(v);
    }

    pub fn step_sound(
        &mut self,
        cycles: u32,
        regs: &PsgRegs,
        t0: u16,
        t1: u16,
        ov: [u32; 4],
    )
        requires
            old(self)@.wf(),
        ensures
            final(self)@ == (BusModel { sound: old(self)@.sound.stepped(cycles, *regs, old(self)@.timer_reload, t0, t1, ov), ..old(self)@ }),
            final(self)@.wf(),
    {
        reveal(bus_view);
        reveal(BusModel::wf);
        let reload = self.timer_reload;
        self.sound.step(cycles, regs, reload, t0, t1, ov);
    }

    /// A FIFO asks for samples.
    pub fn fifo_requested(&self) -> (r: bool)
        ensures
            r == (self@.sound.dma_req_a || self@.sound.dma_req_b),
    {
        reveal(bus_view);
        reveal(BusModel::wf);
        reveal(crate::sound::sound_view);
        self.sound.dma_req_a || self.sound.dma_req_b
    }

    /// A byte of VRAM; zero behind its end.
    pub fn vram_byte(&self, i: usize) -> (r: u8)
        ensures
            r == byte_or(self@.vram, i as int, 0),
    {
        reveal(bus_view);
        get_or(&self.vram, i, 0)
    }

    pub fn pal_byte(&self, i: usize) -> (r: u8)
        requires
            self@.wf(),
            i < PAL_SIZE,
        ensures
            r == self@.pal[i as int],
    {
        reveal(bus_view);
        reveal(BusModel::wf);
        self.pal[i]
    }

    pub fn oam_byte(&self, i: usize) -> (r: u8)
        requires
            self@.wf(),
            i < OAM_SIZE,
        ensures
            r == self@.oam[i as int],
    {
        reveal(bus_view);
        reveal(BusModel::wf);
        self.oam[i]
    }

    pub fn is_dirty(&self) -> (r: bool)
        ensures
            r == self@.save_dirty,
    {
        reveal(bus_view);
        reveal(BusModel::wf);
        self.save_dirty
    }
}

} // verus!
