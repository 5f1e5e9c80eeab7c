//! Single devices and latches of the bus.

use crate::battery::SaveType;
use crate::bits::{aset, high_byte, low_byte, make16, make32};
use crate::bus::model::{lane_get, lane_set, sram_at, BusModel};
use crate::bus::{
    bus_view, eeprom_view, flash_view, io_readable, io_writable, lemma_masks, vram_index, Bus, EWRAM_SIZE, IWRAM_SIZE, OAM_SIZE, PAL_SIZE, VRAM_SIZE,
};
use crate::dma::{idle_dma, DmaController};
use crate::irq::IRQ_CHECK;
use crate::mem::{byte_or, get_or, repeated, set_at};
use crate::rtc::{GPIO_CTRL, GPIO_DATA, GPIO_DIR};
use crate::sound::PsgRegs;
use vstd::prelude::*;

verus! {

fn sram_index(len: usize, addr: u32) -> (r: usize)
    ensures
        forall|s: Seq<u8>| s.len() == len ==> r == #[trigger] sram_at(s, addr),
{
    if len == 0 {
        0
    } else {
        (addr as usize) % len
    }
}

impl Bus {
    /// The EEPROM is on the cartridge.
    pub fn has_eeprom(&self) -> (r: bool)
        ensures
            r == (self@.eeprom is Some),
    {
        reveal(bus_view);
        reveal(BusModel::wf);
        reveal(eeprom_view);
        self.eeprom.is_some()
    }

    /// A GPIO register is mapped at this address.
    pub fn gpio_at(&self, a: u32) -> (r: bool)
        ensures
            r == (self@.rtc.present && (a == GPIO_DATA || a == GPIO_DIR || a == GPIO_CTRL)),
    {
        reveal(bus_view);
        reveal(BusModel::wf);
        self.rtc.present && (a == GPIO_DATA || a == GPIO_DIR || a == GPIO_CTRL)
    }

    pub fn gpio_read(&self, a: u32) -> (r: Option<u16>)
        requires
            self@.wf(),
        ensures
            r == self@.rtc.gpio_read(a),
    {
        reveal(bus_view);
        reveal(BusModel::wf);
        self.rtc.read16(a)
    }

    pub fn gpio_write(&mut self, a: u32, val: u16)
        requires
            old(self)@.wf(),
        ensures
            final(self)@ == (BusModel { rtc: old(self)@.rtc.gpio_write(a, val), ..old(self)@ }),
            final(self)@.wf(),
    {
        reveal(bus_view);
        reveal(BusModel::wf);
        self.rtc.write16(a, val);
    }

    /// One serial bit from the EEPROM.
    pub fn eeprom_read(&mut self) -> (r: u16)
        requires
            old(self)@.wf(),
            old(self)@.eeprom is Some,
        ensures
            (final(self)@, r) == ({
                let (e, v) = old(self)@.eeprom->0.bit_out();
                let save_dirty = old(self)@.save_dirty || e.fsm.dirty;
                (BusModel { eeprom: Some(e), save_dirty, ..old(self)@ }, v)
            }),
            final(self)@.wf(),
    {
        reveal(bus_view);
        reveal(BusModel::wf);
        reveal(eeprom_view);
        match &mut self.eeprom {
            Some(e) => {
                let v: u16 = e.read_serial();
                if e.dirty {
                    self.save_dirty = true;
                }
                v
            },
            None => 0,
        }
    }

    pub(crate) fn write_eeprom_bit(&mut self, half: u16)
        requires
            old(self)@.wf(),
            old(self)@.eeprom is Some,
        ensures
            final(self)@ == old(self)@.eeprom_bit(half),
            final(self)@.wf(),
    {
        reveal(bus_view);
        reveal(BusModel::wf);
        reveal(eeprom_view);
        reveal(BusModel::eeprom_bit);
        if let Some(e) = &mut self.eeprom {
            e.write_bit(half);
            if e.dirty {
                self.save_dirty = true;
            }
        }
    }

    /// HALTCNT, and the end of a halt.
    pub fn set_halt(&mut self, on: bool)
        requires
            old(self)@.wf(),
        ensures
            final(self)@ == (BusModel { halt_wait: on, ..old(self)@ }),
            final(self)@.wf(),
    {
        reveal(bus_view);
        reveal(BusModel::wf);
        self.halt_wait = on;
    }

    /// TMxCNT_L latch.
    pub fn set_reload(&mut self, i: usize, val: u16)
        requires
            old(self)@.wf(),
            i < 4,
        ensures
            final(self)@ == old(self)@.reload_written(i as int, val),
            final(self)@.wf(),
    {
        reveal(bus_view);
        reveal(BusModel::wf);
        reveal(BusModel::reload_written);
        self.timer_reload[i] = val;
    }

    pub fn timer_ctrl(&self, i: usize) -> (r: u16)
        requires
            i < 4,
        ensures
            r == self@.timer_ctrl_prev[i as int],
    {
        reveal(bus_view);
        reveal(BusModel::wf);
        self.timer_ctrl_prev[i]
    }

    /// The control value that the timer step goes by.
    pub fn set_timer_ctrl(&mut self, i: usize, v: u16)
        requires
            old(self)@.wf(),
            i < 4,
        ensures
            final(self)@ == (BusModel { timer_ctrl_prev: aset(old(self)@.timer_ctrl_prev, i as int, v), ..old(self)@ }),
            final(self)@.wf(),
    {
        reveal(bus_view);
        reveal(BusModel::wf);
        self.timer_ctrl_prev[i] = v;
    }

    /// Asks for counter := reload on the next timer step.
    pub fn ask_timer_start(&mut self, i: usize)
        requires
            old(self)@.wf(),
            i < 4,
        ensures
            final(self)@ == (BusModel { timer_start_mask: old(self)@.timer_start_mask | (1u8 << (i as u8)), ..old(self)@ }),
            final(self)@.wf(),
    {
        reveal(bus_view);
        reveal(BusModel::wf);
        self.timer_start_mask = self.timer_start_mask | (1u8 << (i as u8));
    }

    pub fn push_fifo_a_half(&mut self, val: u16)
        requires
            old(self)@.wf(),
        ensures
            final(self)@ == (BusModel { sound: old(self)@.sound.half_a(val), ..old(self)@ }),
            final(self)@.wf(),
    {
        reveal(bus_view);
        reveal(BusModel::wf);
        self.sound.push_fifo_a_half(val);
    }

    pub fn push_fifo_b_half(&mut self, val: u16)
        requires
            old(self)@.wf(),
        ensures
            final(self)@ == (BusModel { sound: old(self)@.sound.half_b(val), ..old(self)@ }),
            final(self)@.wf(),
    {
        reveal(bus_view);
        reveal(BusModel::wf);
        self.sound.push_fifo_b_half(val);
    }

    pub fn push_fifo_a_word(&mut self, val: u32)
        requires
            old(self)@.wf(),
        ensures
            final(self)@ == (BusModel { sound: old(self)@.sound.word_a(val), ..old(self)@ }),
            final(self)@.wf(),
    {
        reveal(bus_view);
        reveal(BusModel::wf);
        self.sound.push_fifo_a_word(val);
    }

    pub fn push_fifo_b_word(&mut self, val: u32)
        requires
            old(self)@.wf(),
        ensures
            final(self)@ == (BusModel { sound: old(self)@.sound.word_b(val), ..old(self)@ }),
            final(self)@.wf(),
    {
        reveal(bus_view);
        reveal(BusModel::wf);
        self.sound.push_fifo_b_word(val);
    }

    pub fn reset_fifo_a(&mut self)
        requires
            old(self)@.wf(),
        ensures
            final(self)@ == (BusModel { sound: old(self)@.sound.a_reset(), ..old(self)@ }),
            final(self)@.wf(),
    {
        reveal(bus_view);
        reveal(BusModel::wf);
        self.sound.reset_fifo_a();
    }

    pub fn reset_fifo_b(&mut self)
        requires
            old(self)@.wf(),
        ensures
            final(self)@ == (BusModel { sound: old(self)@.sound.b_reset(), ..old(self)@ }),
            final(self)@.wf(),
    {
        reveal(bus_view);
        reveal(BusModel::wf);
        self.sound.reset_fifo_b();
    }

    pub fn psg_off(&mut self)
        requires
            old(self)@.wf(),
        ensures
            final(self)@ == (BusModel { sound: old(self)@.sound.psg_off(), ..old(self)@ }),
            final(self)@.wf(),
    {
        reveal(bus_view);
        reveal(BusModel::wf);
        self.sound.psg_all_off();
    }

    pub fn psg_power_wave(&mut self, ch3_l: u16)
        requires
            old(self)@.wf(),
        ensures
            final(self)@ == (BusModel { sound: old(self)@.sound.wave_powered(ch3_l), ..old(self)@ }),
            final(self)@.wf(),
    {
        reveal(bus_view);
        reveal(BusModel::wf);
        self.sound.psg_sync_wave(ch3_l);
    }

    pub fn psg_store_wave(&mut self, off: u8, val: u8)
        requires
            old(self)@.wf(),
        ensures
            final(self)@ == (BusModel { sound: old(self)@.sound.wave_stored(off, val), ..old(self)@ }),
            final(self)@.wf(),
    {
        reveal(bus_view);
        reveal(BusModel::wf);
        self.sound.psg_set_wave_byte(off, val);
    }

    pub fn psg_trigger(&mut self, ch: u8, regs: &PsgRegs)
        requires
            old(self)@.wf(),
        ensures
            final(self)@ == (BusModel { sound: old(self)@.sound.triggered(ch, *regs), ..old(self)@ }),
            final(self)@.wf(),
    {
        reveal(bus_view);
        reveal(BusModel::wf);
        self.sound.psg_trigger(ch, regs);
    }

    pub fn clear_fifo_req(&mut self, which: u8)
        requires
            old(self)@.wf(),
        ensures
            final(self)@ == (BusModel { sound: old(self)@.sound.req_cleared(which), ..old(self)@ }),
            final(self)@.wf(),
    {
        reveal(bus_view);
        reveal(BusModel::wf);
        self.sound.clear_dma_req(which);
    }

    pub fn fifo_a_len(&self) -> (r: usize)
        ensures
            r == self@.sound.queued_a(),
    {
        reveal(bus_view);
        reveal(BusModel::wf);
        self.sound.fifo_a_len()
    }

    pub fn fifo_b_len(&self) -> (r: usize)
        ensures
            r == self@.sound.queued_b(),
    {
        reveal(bus_view);
        reveal(BusModel::wf);
        self.sound.fifo_b_len()
    }

    pub fn fifo_wants(&self, which: u8) -> (r: bool)
        ensures
            r == self@.sound.wants_dma(which),
    {
        reveal(bus_view);
        reveal(BusModel::wf);
        self.sound.fifo_needs_dma(which)
    }

    /// The DMA unit, lifted out while it works on the bus.
    pub fn take_dma(&mut self) -> (r: DmaController)
        requires
            old(self)@.wf(),
        ensures
            r == old(self)@.dma,
            final(self)@ == (BusModel { dma: idle_dma(), ..old(self)@ }),
            final(self)@.wf(),
    {
        reveal(bus_view);
        reveal(BusModel::wf);
        let d = self.dma;
        self.dma = DmaController::new();
        d
    }

    pub fn put_dma(&mut self, d: DmaController)
        requires
            old(self)@.wf(),
        ensures
            final(self)@ == (BusModel { dma: d, ..old(self)@ }),
            final(self)@.wf(),
    {
        reveal(bus_view);
        reveal(BusModel::wf);
        self.dma = d;
    }

    pub fn is_affine_compat(&self) -> (r: bool)
        ensures
            r == self@.affine_compat,
    {
        reveal(bus_view);
        reveal(BusModel::wf);
        self.affine_compat
    }

    /// No memory ends before its window in the map does. A machine whose
    /// memories do cannot go on.
    pub fn is_mapped(&self) -> (r: bool)
        ensures
            r == self@.mapped(),
    {
        reveal(bus_view);
        self.ewram.len() >= EWRAM_SIZE && self.iwram.len() >= IWRAM_SIZE && self.pal.len() >= PAL_SIZE
            && self.vram.len() >= VRAM_SIZE && self.oam.len() >= OAM_SIZE
    }

    /// The reload latch of a timer.
    pub fn reload_at(&self, i: usize) -> (r: u16)
        requires
            i < 4,
        ensures
            r == self@.timer_reload[i as int],
    {
        reveal(bus_view);
        self.timer_reload[i]
    }

    /// The control of a timer as it was last written.
    pub fn control_at(&self, i: usize) -> (r: u16)
        requires
            i < 4,
        ensures
            r == self@.timer_ctrl_prev[i as int],
    {
        reveal(bus_view);
        self.timer_ctrl_prev[i]
    }

    /// Where a DMA channel reads next.
    pub fn source_of(&self, ch: usize) -> (r: u32)
        requires
            ch < 4,
        ensures
            r == self@.dma.ch[ch as int].src,
    {
        reveal(bus_view);
        self.dma.ch[ch].src
    }

    /// An IO byte as it stands in the register file.
    pub fn io_at(&self, i: usize) -> (r: u8)
        ensures
            r == byte_or(self@.io, i as int, 0),
    {
        reveal(bus_view);
        get_or(&self.io, i, 0)
    }

    /// Starts an instruction fetch; whether it follows the last one.
    pub fn begin_fetch(&mut self, pc: u32) -> (r: bool)
        requires
            old(self)@.wf(),
        ensures
            r == (old(self)@.last_fetch_ok && (pc == old(self)@.last_fetch.wrapping_add(2) || pc
                == old(self)@.last_fetch.wrapping_add(4)) && pc >> 24 == old(self)@.last_fetch >> 24),
            final(self)@ == (BusModel { last_fetch: pc, last_fetch_ok: true, ..old(self)@ }),
            final(self)@.wf(),
    {
        reveal(bus_view);
        reveal(BusModel::wf);
        let seq: bool = self.last_fetch_ok && (pc == self.last_fetch.wrapping_add(2) || pc
            == self.last_fetch.wrapping_add(4)) && pc >> 24 == self.last_fetch >> 24;
        self.last_fetch = pc;
        self.last_fetch_ok = true;
        seq
    }

    pub fn set_prefetch(&mut self, n: u8)
        requires
            old(self)@.wf(),
            n <= 8,
        ensures
            final(self)@ == (BusModel { prefetch_halfs: n, ..old(self)@ }),
            final(self)@.wf(),
    {
        reveal(bus_view);
        reveal(BusModel::wf);
        self.prefetch_halfs = n;
    }

    pub fn prefetch(&self) -> (r: u8)
        ensures
            r == self@.prefetch_halfs,
    {
        reveal(bus_view);
        reveal(BusModel::wf);
        self.prefetch_halfs
    }

    pub fn key_bits(&self) -> (r: u16)
        ensures
            r == self@.keyinput,
    {
        reveal(bus_view);
        reveal(BusModel::wf);
        self.keyinput
    }

    pub fn set_key_bits(&mut self, v: u16)
        requires
            old(self)@.wf(),
        ensures
            final(self)@ == (BusModel { keyinput: v, ..old(self)@ }),
            final(self)@.wf(),
    {
        reveal(bus_view);
        reveal(BusModel::wf);
        self.keyinput = v;
    }

    pub(crate) fn note_bus8(&mut self, addr: u32, v: u8)
        requires
            old(self)@.wf(),
        ensures
            final(self)@ == old(self)@.noted(addr, v),
            final(self)@.wf(),
    {
        reveal(bus_view);
        reveal(BusModel::wf);
        reveal(BusModel::noted);
        proof {
            lemma_masks(addr);
        }
        let shift: u32 = (addr & 3) * 8;
        self.last_bus = (self.last_bus & !(0xFFu32 << shift)) | ((v as u32) << shift);
    }

    pub(crate) fn open_bus8(&self, addr: u32) -> (r: u8)
        ensures
            r == lane_get(self@.last_bus, addr),
    {
        reveal(bus_view);
        reveal(BusModel::wf);
        proof {
            lemma_masks(addr);
        }
        let shift: u32 = (addr & 3) * 8;
        ((self.last_bus >> shift) & 0xFF) as u8
    }

    pub(crate) fn note_bios8(&mut self, addr: u32, v: u8)
        requires
            old(self)@.wf(),
        ensures
            final(self)@ == (BusModel {
                last_bios: lane_set(old(self)@.last_bios, addr, v),
                ..old(self)@
            }),
            final(self)@.wf(),
    {
        reveal(bus_view);
        reveal(BusModel::wf);
        proof {
            lemma_masks(addr);
        }
        let shift: u32 = (addr & 3) * 8;
        self.last_bios = (self.last_bios & !(0xFFu32 << shift)) | ((v as u32) << shift);
    }

    pub(crate) fn bios_open_bus8(&self, addr: u32) -> (r: u8)
        ensures
            r == lane_get(self@.last_bios, addr),
    {
        reveal(bus_view);
        reveal(BusModel::wf);
        proof {
            lemma_masks(addr);
        }
        let shift: u32 = (addr & 3) * 8;
        ((self.last_bios >> shift) & 0xFF) as u8
    }

    pub fn fetching_bios(&self) -> (r: bool)
        ensures
            r == (self@.exec_pc < 0x4000),
    {
        reveal(bus_view);
        reveal(BusModel::wf);
        self.exec_pc < 0x4000
    }

    pub fn bios_at(&self, addr: u32) -> (r: u8)
        ensures
            r == byte_or(self@.bios, addr as int, 0),
    {
        reveal(bus_view);
        reveal(BusModel::wf);
        get_or(&self.bios, addr as usize, 0)
    }

    pub(crate) fn read_io8(&self, addr: u32) -> (r: u8)
        requires
            self@.wf(),
        ensures
            r == self@.io_byte(addr),
    {
        reveal(bus_view);
        reveal(BusModel::wf);
        reveal(BusModel::io_byte);
        proof {
            lemma_masks(addr);
        }
        let off: u32 = addr & 0x3FF;
        if off == 0x130 {
            low_byte(self.keyinput)
        } else if off == 0x131 {
            high_byte(self.keyinput)
        } else if off == 0x84 {
            (get_or(&self.io, 0x84, 0) & 0x80) | self.sound.psg_channel_status()
        } else if 0x90 <= off && off <= 0x9F {
            self.sound.psg_get_wave_byte((off - 0x90) as u8)
        } else {
            get_or(&self.io, off as usize, 0)
        }
    }

    pub(crate) fn read_save(&self, addr: u32) -> (r: u8)
        requires
            self@.wf(),
        ensures
            r == self@.save_byte(addr),
    {
        reveal(bus_view);
        reveal(BusModel::wf);
        reveal(flash_view);
        reveal(BusModel::save_byte);
        if self.save_type == SaveType::NoSave {
            return 0xFF;
        }
        match &self.flash {
            Some(f) => f.read(addr),
            None => {
                let i: usize = sram_index(self.sram.len(), addr);
                get_or(&self.sram, i, 0xFF)
            },
        }
    }

    pub(crate) fn read_driven8(&self, addr: u32) -> (r: Option<u8>)
        requires
            self@.wf(),
        ensures
            r == self@.driven8(addr),
    {
        reveal(bus_view);
        reveal(BusModel::wf);
        reveal(BusModel::driven8);
        proof {
            lemma_masks(addr);
        }
        let r: u32 = addr >> 24;
        if r == 0x02 {
            Some(self.ewram[(addr & 0x3FFFF) as usize])
        } else if r == 0x03 {
            Some(self.iwram[(addr & 0x7FFF) as usize])
        } else if r == 0x04 {
            if addr < 0x0400_0400 && io_readable((addr & 0x3FF) as u16) {
                Some(self.read_io8(addr))
            } else {
                None
            }
        } else if r == 0x05 {
            Some(self.pal[(addr & 0x3FF) as usize])
        } else if r == 0x06 {
            Some(self.vram[vram_index(addr)])
        } else if r == 0x07 {
            Some(self.oam[(addr & 0x3FF) as usize])
        } else if 0x08 <= r && r <= 0x0D {
            let off: usize = (addr & 0x01FF_FFFF) as usize;
            if off < self.rom.len() {
                Some(self.rom[off])
            } else {
                None
            }
        } else if r == 0x0E || r == 0x0F {
            Some(self.read_save(addr))
        } else {
            None
        }
    }

    /// After a 16-bit read: latch the value that an unused-region read sees.
    pub(crate) fn latch_open_bus16(&mut self, addr: u32, v: u16)
        requires
            old(self)@.wf(),
        ensures
            final(self)@ == old(self)@.latched16(addr, v),
            final(self)@.wf(),
    {
        reveal(bus_view);
        reveal(BusModel::wf);
        reveal(BusModel::latched16);
        proof {
            lemma_masks(addr);
        }
        let r: u32 = addr >> 24;
        if 0x05 <= r && r <= 0x0C {
            let d: u32 = v as u32;
            self.last_bus = d | (d << 16);
        } else if r == 0x02 {
            let i: usize = (addr & 0x3FFFC) as usize;
            self.last_bus = make32(
                self.ewram[i],
                self.ewram[i + 1],
                self.ewram[i + 2],
                self.ewram[i + 3],
            );
        } else if r == 0x03 {
            let i: usize = (addr & 0x7FFC) as usize;
            self.last_bus = make32(
                self.iwram[i],
                self.iwram[i + 1],
                self.iwram[i + 2],
                self.iwram[i + 3],
            );
        }
    }

    /// SoftReset: nothing was fetched from BIOS since.
    pub fn clear_last_bios(&mut self)
        requires
            old(self)@.wf(),
        ensures
            final(self)@ == (BusModel { last_bios: 0, ..old(self)@ }),
            final(self)@.wf(),
    {
        reveal(bus_view);
        reveal(BusModel::wf);
        self.last_bios = 0;
    }

    /// Stops the live DMA and timer units when their registers are zeroed
    /// behind their back.
    pub fn stop_dma_and_timers(&mut self)
        requires
            old(self)@.wf(),
        ensures
            final(self)@ == old(self)@.units_stopped(),
            final(self)@.wf(),
    {
        reveal(bus_view);
        reveal(BusModel::wf);
        reveal(BusModel::units_stopped);
        self.dma.stop();
        self.timer_ctrl_prev = [0u16, 0, 0, 0];
        self.timer_reload = [0u16, 0, 0, 0];
        self.timer_start_mask = 0;
        self.timer_overflows = [0u32, 0, 0, 0];
        self.irq_countdown = 0;
        assert(self.timer_ctrl_prev =~= old(self)@.units_stopped().timer_ctrl_prev);
        assert(self.timer_reload =~= old(self)@.units_stopped().timer_reload);
        assert(self.timer_overflows =~= old(self)@.units_stopped().timer_overflows);
    }

    /// BIOS IntrWait latch at `03007FF8h`.
    pub fn irq_check_flags(&self) -> (r: u16)
        requires
            self@.wf(),
        ensures
            r == self@.check_flags(),
    {
        reveal(bus_view);
        reveal(BusModel::wf);
        make16(self.iwram[IRQ_CHECK], self.iwram[IRQ_CHECK + 1])
    }

    pub fn set_irq_check_flags(&mut self, v: u16)
        requires
            old(self)@.wf(),
        ensures
            final(self)@ == old(self)@.with_check_flags(v),
            final(self)@.wf(),
    {
        reveal(bus_view);
        reveal(BusModel::wf);
        reveal(BusModel::with_check_flags);
        self.iwram[IRQ_CHECK] = low_byte(v);
        self.iwram[IRQ_CHECK + 1] = high_byte(v);
    }

    /// First save-window write on an untagged cart: 64K of SRAM.
    pub fn promote_sram_if_none(&mut self)
        requires
            old(self)@.wf(),
        ensures
            final(self)@ == old(self)@.promoted(),
            final(self)@.wf(),
    {
        reveal(bus_view);
        reveal(BusModel::wf);
        reveal(BusModel::promoted);
        if self.save_type == SaveType::NoSave {
            self.save_type = SaveType::Sram(0x1_0000);
            while self.sram.len() < 0x1_0000
                invariant
                    self.sram@.len() >= old(self).sram@.len(),
                    self.sram@.len() <= 0x1_0000 || self.sram@ == old(self).sram@,
                    self.sram@ == old(self).sram@ + repeated(
                        0xFFu8,
                        (self.sram@.len() - old(self).sram@.len()) as nat,
                    ),
                    *self == (Bus { sram: self.sram, save_type: SaveType::Sram(0x1_0000), ..*old(self) }),
                decreases 0x1_0000 - self.sram@.len(),
            {
                self.sram.push(0xFF);
                assert(self.sram@ =~= old(self).sram@ + repeated(
                    0xFFu8,
                    (self.sram@.len() - old(self).sram@.len()) as nat,
                ));
            }
        }
    }

    pub fn or_irq_check_flags(&mut self, bits: u16)
        requires
            old(self)@.wf(),
        ensures
            final(self)@ == old(self)@.with_check_flags(old(self)@.check_flags() | bits),
            final(self)@.wf(),
    {
        let cur: u16 = self.irq_check_flags();
        self.set_irq_check_flags(cur | bits);
    }

    pub(crate) fn write_save(&mut self, addr: u32, val: u8)
        requires
            old(self)@.wf(),
        ensures
            final(self)@ == old(self)@.save_written(addr, val),
            final(self)@.wf(),
    {
        reveal(bus_view);
        reveal(BusModel::wf);
        reveal(flash_view);
        reveal(BusModel::save_written);
        reveal(BusModel::promoted);
        self.promote_sram_if_none();
        if let Some(f) = &mut self.flash {
            if f.write(addr, val) {
                self.save_dirty = true;
            }
            return;
        }
        let i: usize = sram_index(self.sram.len(), addr);
        if i < self.sram.len() {
            if self.sram[i] != val {
                self.save_dirty = true;
            }
            self.sram[i] = val;
        }
    }

    pub(crate) fn write8_io(&mut self, addr: u32, val: u8)
        requires
            old(self)@.wf(),
        ensures
            final(self)@ == old(self)@.io8_written(addr, val),
            final(self)@.wf(),
    {
        reveal(bus_view);
        reveal(BusModel::wf);
        reveal(BusModel::io8_written);
        proof {
            lemma_masks(addr);
        }
        let off: u16 = (addr & 0x3FF) as u16;
        let i: usize = off as usize;
        if off == 0x301 {
            // HALTCNT: Halt and Stop both wait for an interrupt
            self.halt_wait = true;
            return;
        }
        if off == 0x300 {
            set_at(&mut self.io, 0x300, val & 1);
            return;
        }
        if !io_writable(off) {
            return;
        }
        if off == 0x202 || off == 0x203 {
            // IF is write-1-to-clear even on a byte
            let cur: u8 = get_or(&self.io, i, 0);
            set_at(&mut self.io, i, cur & !val);
        } else if off == 0x201 {
            set_at(&mut self.io, i, val & 0x3F);
        } else if off == 0x004 {
            // DISPSTAT bits 0-2 are live flags
            let cur: u8 = get_or(&self.io, 4, 0);
            set_at(&mut self.io, i, (val & !7) | (cur & 7));
        } else if off == 0x205 {
            set_at(&mut self.io, i, val & 0x7F);
        } else if off == 0x208 {
            set_at(&mut self.io, i, val & 1);
        } else {
            set_at(&mut self.io, i, val);
        }
    }

    /// Cart data (CPU or DMA) uses the Game Pak bus.
    pub fn note_cart_data(&mut self)
        requires
            old(self)@.wf(),
        ensures
            final(self)@ == old(self)@.cart_data_noted(),
            final(self)@.wf(),
    {
        reveal(bus_view);
        reveal(BusModel::wf);
        self.last_fetch_ok = false;
        self.prefetch_halfs = 0;
    }

    /// A byte into work RAM.
    pub(crate) fn store_ram8(&mut self, addr: u32, val: u8)
        requires
            old(self)@.wf(),
        ensures
            addr >> 24 == 0x02 ==> final(self)@ == (BusModel {
                ewram: old(self)@.ewram.update((addr & 0x3FFFF) as int, val),
                ..old(self)@
            }),
            addr >> 24 == 0x03 ==> final(self)@ == (BusModel {
                iwram: old(self)@.iwram.update((addr & 0x7FFF) as int, val),
                ..old(self)@
            }),
            addr >> 24 != 0x02 && addr >> 24 != 0x03 ==> final(self)@ == old(self)@,
            final(self)@.wf(),
    {
        reveal(bus_view);
        reveal(BusModel::wf);
        proof {
            lemma_masks(addr);
        }
        if addr >> 24 == 0x02 {
            self.ewram[(addr & 0x3FFFF) as usize] = val;
        } else if addr >> 24 == 0x03 {
            self.iwram[(addr & 0x7FFF) as usize] = val;
        }
    }

    /// A byte into both halves of a VRAM halfword.
    pub(crate) fn store_vram_pair(&mut self, i: usize, val: u8)
        requires
            old(self)@.wf(),
            i + 1 < VRAM_SIZE,
        ensures
            final(self)@ == (BusModel {
                vram: old(self)@.vram.update(i as int, val).update(i + 1, val),
                ..old(self)@
            }),
            final(self)@.wf(),
    {
        reveal(bus_view);
        reveal(BusModel::wf);
        self.vram[i] = val;
        self.vram[i + 1] = val;
    }
}

} // verus!
