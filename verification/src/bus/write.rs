//! Writes and their side effects.

use crate::bits::{high_byte, high_half, low_byte, low_half};
use crate::bus::unfold::{lemma_dma_ctrl_written, lemma_io16_written, lemma_write16_at, lemma_write32_at};
use crate::bus::model::BusModel;
use crate::bus::{bus_view, io_writable, lemma_even, lemma_masks, vram_index, Bus};
use crate::dma::DMA_NEST;
use crate::irq::{raise, IRQ_SERIAL};
use vstd::prelude::*;

verus! {

impl Bus {
    /// 8-bit VRAM write.
    fn write8_vram(&mut self, addr: u32, val: u8)
        requires
            old(self)@.wf(),
        ensures
            final(self)@ == old(self)@.vram8_written(addr, val),
            final(self)@.wf(),
    {
        reveal(BusModel::vram8_written);
        let idx: usize = vram_index(addr);
        let mode: u16 = self.dispcnt() & 7;
        let obj: bool = idx >= 0x10000 && !(mode >= 3 && addr & 0x1FFFF < 0x14000);
        if obj {
            return;
        }
        let i: usize = idx - idx % 2;
        self.store_vram_pair(i, val);
    }

    fn write8_cart(&mut self, addr: u32, val: u8)
        requires
            old(self)@.wf(),
        ensures
            final(self)@ == old(self)@.cart8_written(addr, val),
            final(self)@.wf(),
    {
        reveal(BusModel::cart8_written);
        if addr >> 24 == 0x0D && self.has_eeprom() {
            self.write_eeprom_bit(val as u16);
            return;
        }
        let a16: u32 = addr & !1;
        if self.gpio_at(a16) {
            let cur: u16 = match self.gpio_read(a16) {
                Some(v) => v,
                None => 0,
            };
            let v: u16 = if addr & 1 == 0 {
                (cur & 0xFF00) | (val as u16)
            } else {
                (cur & 0x00FF) | ((val as u16) << 8)
            };
            self.gpio_write(a16, v);
        }
    }

    pub fn write8(&mut self, addr: u32, val: u8)
        requires
            old(self)@.wf(),
        ensures
            final(self)@ == old(self)@.write8(addr, val),
            final(self)@.wf(),
    {
        reveal(BusModel::write8);
        proof {
            lemma_masks(addr);
        }
        let r: u32 = addr >> 24;
        if r == 0x02 || r == 0x03 {
            self.store_ram8(addr, val);
        } else if r == 0x04 {
            if addr < 0x0400_0400 {
                self.write8_io(addr, val);
            }
        } else if r == 0x06 {
            self.write8_vram(addr, val);
        } else if 0x08 <= r && r <= 0x0D {
            self.write8_cart(addr, val);
        } else if r == 0x0E || r == 0x0F {
            self.write_save(addr, val);
        }
    }

    pub fn write32_raw(&mut self, addr: u32, val: u32)
        requires
            old(self)@.wf(),
        ensures
            final(self)@ == old(self)@.write32_raw(addr, val),
            final(self)@.wf(),
    {
        reveal(BusModel::write32_raw);
        self.write16_raw(addr, low_half(val));
        self.write16_raw(addr.wrapping_add(2), high_half(val));
    }

    pub fn write16_raw(&mut self, addr: u32, val: u16)
        requires
            old(self)@.wf(),
        ensures
            final(self)@ == old(self)@.write16_raw(addr, val),
            final(self)@.wf(),
    {
        reveal(bus_view);
        reveal(BusModel::wf);
        reveal(BusModel::write16_raw);
        proof {
            lemma_even(addr);
        }
        let a: u32 = addr & !1;
        let (b0, b1) = (low_byte(val), high_byte(val));
        let r: u32 = a >> 24;
        if r == 0x02 {
            let i: usize = (a & 0x3FFFF) as usize;
            self.ewram[i] = b0;
            self.ewram[i + 1] = b1;
        } else if r == 0x03 {
            let i: usize = (a & 0x7FFF) as usize;
            self.iwram[i] = b0;
            self.iwram[i + 1] = b1;
        } else if r == 0x04 {
            let i: usize = (a & 0x3FF) as usize;
            if i + 1 < self.io.len() {
                self.io[i] = b0;
                self.io[i + 1] = b1;
            }
        } else if r == 0x05 {
            let i: usize = (a & 0x3FF) as usize;
            self.pal[i] = b0;
            self.pal[i + 1] = b1;
        } else if r == 0x06 {
            let i: usize = vram_index(a);
            self.vram[i] = b0;
            self.vram[i + 1] = b1;
        } else if r == 0x07 {
            let i: usize = (a & 0x3FF) as usize;
            self.oam[i] = b0;
            self.oam[i + 1] = b1;
        } else {
            // save chips and cart: byte protocol
            self.write8(a, b0);
            self.write8(a.wrapping_add(1), b1);
        }
    }

    fn ensure_affine_identity(&mut self, base: u32)
        requires
            old(self)@.wf(),
            base <= 0x0400_0030,
        ensures
            final(self)@ == old(self)@.affine_ensured(base),
            final(self)@.wf(),
    {
        reveal(BusModel::affine_ensured);
        let pa: u16 = self.read16(base);
        if pa == 0 {
            self.write16_raw(base, 0x0100);
            self.write16_raw(base + 2, 0);
            self.write16_raw(base + 4, 0);
            self.write16_raw(base + 6, 0x0100);
        }
    }

    fn write_dispcnt(&mut self, val: u16)
        requires
            old(self)@.wf(),
        ensures
            final(self)@ == old(self)@.dispcnt_written(val),
            final(self)@.wf(),
    {
        reveal(BusModel::dispcnt_written);
        let compat: bool = self.is_affine_compat();
        self.write16_raw(0x0400_0000, val);
        let mode: u16 = val & 7;
        if compat && mode == 1 {
            self.ensure_affine_identity(0x0400_0020);
        } else if compat && mode == 2 {
            self.ensure_affine_identity(0x0400_0020);
            self.ensure_affine_identity(0x0400_0030);
        }
    }

    fn write_dispstat(&mut self, val: u16)
        requires
            old(self)@.wf(),
        ensures
            final(self)@ == old(self)@.dispstat_written(val),
            final(self)@.wf(),
    {
        reveal(BusModel::dispstat_written);
        let cur: u16 = self.read16(0x0400_0004);
        self.write16_raw(0x0400_0004, (val & !7) | (cur & 7));
    }

    fn write_if(&mut self, val: u16)
        requires
            old(self)@.wf(),
        ensures
            final(self)@ == old(self)@.if_written(val),
            final(self)@.wf(),
    {
        reveal(BusModel::if_written);
        let cur: u16 = self.read16(0x0400_0202);
        self.write16_raw(0x0400_0202, (cur & !val) & 0x3FFF);
    }

    fn write_timer_ctrl(&mut self, i: usize, addr: u32, val: u16)
        requires
            old(self)@.wf(),
            i < 4,
        ensures
            final(self)@ == old(self)@.timer_ctrl_written(i as int, addr, val),
            final(self)@.wf(),
    {
        reveal(BusModel::timer_ctrl_written);
        let prev: u16 = self.timer_ctrl(i);
        let v: u16 = val & 0xC7;
        self.write16_raw(addr, v);
        self.set_timer_ctrl(i, v);
        if v & 0x80 != 0 && prev & 0x80 == 0 {
            self.ask_timer_start(i);
        }
    }

    fn write_soundcnt_h(&mut self, val: u16)
        requires
            old(self)@.wf(),
        ensures
            final(self)@ == old(self)@.soundcnt_h_written(val),
            final(self)@.wf(),
    {
        reveal(BusModel::soundcnt_h_written);
        if val & 0x800 != 0 {
            self.reset_fifo_a();
        }
        if val & 0x8000 != 0 {
            self.reset_fifo_b();
        }
        self.write16_raw(0x0400_0082, val & !0x8800);
    }

    fn write_soundcnt_x(&mut self, val: u16)
        requires
            old(self)@.wf(),
        ensures
            final(self)@ == old(self)@.soundcnt_x_written(val),
            final(self)@.wf(),
    {
        reveal(BusModel::soundcnt_x_written);
        self.write16_raw(0x0400_0084, val & 0x80);
        if val & 0x80 == 0 {
            self.psg_off();
        }
    }

    fn write_wave_ctrl(&mut self, val: u16)
        requires
            old(self)@.wf(),
        ensures
            final(self)@ == old(self)@.wave_ctrl_written(val),
            final(self)@.wf(),
    {
        reveal(BusModel::wave_ctrl_written);
        self.write16_raw(0x0400_0070, val);
        self.psg_power_wave(val);
    }

    fn write_psg_freq(&mut self, ch: u8, addr: u32, val: u16)
        requires
            old(self)@.wf(),
        ensures
            final(self)@ == old(self)@.psg_freq_written(ch, addr, val),
            final(self)@.wf(),
    {
        reveal(BusModel::psg_freq_written);
        self.write16_raw(addr, val & !0x8000);
        if val & 0x8000 != 0 {
            let regs = self.psg_regs();
            self.psg_trigger(ch, &regs);
        }
    }

    fn write_wave_ram(&mut self, addr: u32, val: u16)
        requires
            old(self)@.wf(),
            0x0400_0090 <= addr <= 0x0400_009E,
        ensures
            final(self)@ == old(self)@.wave_ram_written(addr, val),
            final(self)@.wf(),
    {
        reveal(BusModel::wave_ram_written);
        self.write16_raw(addr, val);
        let ch3_l: u16 = self.read16(0x0400_0070);
        self.psg_power_wave(ch3_l);
        let off: u8 = (addr - 0x0400_0090) as u8;
        self.psg_store_wave(off, low_byte(val));
        self.psg_store_wave(off.wrapping_add(1), high_byte(val));
    }

    fn write_siocnt(&mut self, val: u16)
        requires
            old(self)@.wf(),
        ensures
            final(self)@ == old(self)@.siocnt_written(val),
            final(self)@.wf(),
    {
        reveal(BusModel::siocnt_written);
        if val & 0x80 != 0 {
            let v: u16 = (val & !0x80) | 0x08;
            self.write16_raw(0x0400_0128, v);
            if v & 0x4000 != 0 {
                raise(self, IRQ_SERIAL);
            }
        } else {
            self.write16_raw(0x0400_0128, val);
        }
    }

    fn write_dma_ctrl(&mut self, depth: u32, ch: usize, val: u16)
        requires
            old(self)@.wf(),
            ch < 4,
        ensures
            final(self)@ == old(self)@.dma_ctrl_written(depth as nat, ch as int, val),
            final(self)@.wf(),
        decreases depth, 0nat, 0nat,
    {
        proof {
            lemma_dma_ctrl_written(old(self)@, depth as nat, ch as int, val);
        }
        self.write16_raw(0x0400_00B0 + (ch as u32) * 12 + 10, val);
        if depth > 0 {
            let mut dma = self.take_dma();
            dma.cnt_h_written(self, depth - 1, ch);
            self.put_dma(dma);
        }
    }

    fn write16_reg(&mut self, off: u16, val: u16)
        requires
            old(self)@.wf(),
            off < 0x400,
            off % 2 == 0,
        ensures
            final(self)@ == old(self)@.reg_written(off, val),
            final(self)@.wf(),
    {
        reveal(BusModel::reg_written);
        let addr: u32 = 0x0400_0000 + off as u32;
        if off == 0x300 {
            self.write16_raw(addr, val & 1);
            self.set_halt(true);
        } else if !io_writable(off) && !io_writable(off + 1) {
        } else if off == 0x208 {
            self.write16_raw(addr, val & 1);
        } else if off == 0x004 {
            self.write_dispstat(val);
        } else if off == 0x048 || off == 0x04A {
            self.write16_raw(addr, val & 0x3F3F);
        } else if off == 0x050 || off == 0x200 {
            self.write16_raw(addr, val & 0x3FFF);
        } else if off == 0x204 {
            self.write16_raw(addr, val & 0x7FFF);
        } else if off == 0x202 {
            self.write_if(val);
        } else if off == 0x100 || off == 0x104 || off == 0x108 || off == 0x10C {
            let i: usize = ((off - 0x100) / 4) as usize;
            self.set_reload(i, val);
        } else if off == 0x102 || off == 0x106 || off == 0x10A || off == 0x10E {
            self.write_timer_ctrl(((off - 0x102) / 4) as usize, addr, val);
        } else if off == 0x082 {
            self.write_soundcnt_h(val);
        } else if off == 0x084 {
            self.write_soundcnt_x(val);
        } else if off == 0x070 {
            self.write_wave_ctrl(val);
        } else if off == 0x000 {
            self.write_dispcnt(val);
        } else if off == 0x064 {
            self.write_psg_freq(1, addr, val);
        } else if off == 0x06C {
            self.write_psg_freq(2, addr, val);
        } else if off == 0x074 {
            self.write_psg_freq(3, addr, val);
        } else if off == 0x07C {
            self.write_psg_freq(4, addr, val);
        } else if 0x090 <= off && off <= 0x09E {
            self.write_wave_ram(addr, val);
        } else if off == 0x0A0 || off == 0x0A2 {
            self.push_fifo_a_half(val);
        } else if off == 0x0A4 || off == 0x0A6 {
            self.push_fifo_b_half(val);
        } else if off == 0x128 {
            self.write_siocnt(val);
        } else {
            self.write16_raw(addr, val);
        }
    }

    fn write16_io(&mut self, depth: u32, off: u16, val: u16)
        requires
            old(self)@.wf(),
            off < 0x400,
            off % 2 == 0,
        ensures
            final(self)@ == old(self)@.io16_written(depth as nat, off, val),
            final(self)@.wf(),
        decreases depth, 0nat, 1nat,
    {
        proof {
            lemma_io16_written(old(self)@, depth as nat, off, val);
        }
        if off == 0x0BA {
            self.write_dma_ctrl(depth, 0, val);
        } else if off == 0x0C6 {
            self.write_dma_ctrl(depth, 1, val);
        } else if off == 0x0D2 {
            self.write_dma_ctrl(depth, 2, val);
        } else if off == 0x0DE {
            self.write_dma_ctrl(depth, 3, val);
        } else {
            self.write16_reg(off, val);
        }
    }

    /// A halfword write from inside `DMA_NEST - depth` nested transfers.
    pub fn write16_at(&mut self, depth: u32, addr: u32, val: u16)
        requires
            old(self)@.wf(),
        ensures
            final(self)@ == old(self)@.write16_at(depth as nat, addr, val),
            final(self)@.wf(),
        decreases depth, 0nat, 2nat,
    {
        proof {
            lemma_write16_at(old(self)@, depth as nat, addr, val);
        }
        let a: u32 = addr & !1;
        proof {
            lemma_even(addr);
        }
        if a >> 24 == 0x0D && self.has_eeprom() {
            self.write_eeprom_bit(val);
        } else if self.gpio_at(a) {
            self.gpio_write(a, val);
        } else if a >> 24 == 0x04 {
            if a < 0x0400_0400 {
                self.write16_io(depth, (a & 0x3FF) as u16, val);
            }
        } else {
            self.write16_raw(a, val);
        }
    }

    /// A word write from inside `DMA_NEST - depth` nested transfers.
    pub fn write32_at(&mut self, depth: u32, addr: u32, val: u32)
        requires
            old(self)@.wf(),
        ensures
            final(self)@ == old(self)@.write32_at(depth as nat, addr, val),
            final(self)@.wf(),
        decreases depth, 1nat, 0nat,
    {
        proof {
            lemma_write32_at(old(self)@, depth as nat, addr, val);
        }
        let a: u32 = addr & !3;
        if a == 0x0400_00A0 {
            self.push_fifo_a_word(val);
        } else if a == 0x0400_00A4 {
            self.push_fifo_b_word(val);
        } else {
            self.write16_at(depth, a, low_half(val));
            self.write16_at(depth, a.wrapping_add(2), high_half(val));
        }
    }

    pub fn write16(&mut self, addr: u32, val: u16)
        requires
            old(self)@.wf(),
        ensures
            final(self)@ == old(self)@.write16(addr, val),
            final(self)@.wf(),
    {
        self.write16_at(DMA_NEST, addr, val);
    }

    pub fn write32(&mut self, addr: u32, val: u32)
        requires
            old(self)@.wf(),
        ensures
            final(self)@ == old(self)@.write32(addr, val),
            final(self)@.wf(),
    {
        self.write32_at(DMA_NEST, addr, val);
    }

    /// An address inside the affine reference registers.
    pub fn is_affine_ref_write(&self, addr: u32) -> (r: bool)
        ensures
            r == (addr & !3u32 == 0x0400_0028 || addr & !3u32 == 0x0400_002C || addr & !3u32
                == 0x0400_0038 || addr & !3u32 == 0x0400_003C),
    {
        let a: u32 = addr & !3;
        a == 0x0400_0028 || a == 0x0400_002C || a == 0x0400_0038 || a == 0x0400_003C
    }

    pub fn set_vcount(&mut self, v: u16)
        requires
            old(self)@.wf(),
        ensures
            final(self)@ == old(self)@.write16_raw(0x0400_0006, v),
            final(self)@.wf(),
    {
        self.write16_raw(0x0400_0006, v);
    }

    pub fn set_dispstat(&mut self, v: u16)
        requires
            old(self)@.wf(),
        ensures
            final(self)@ == old(self)@.write16_raw(0x0400_0004, v),
            final(self)@.wf(),
    {
        self.write16_raw(0x0400_0004, v);
    }
}

} // verus!
