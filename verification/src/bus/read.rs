//! Reads: the memory map and the open bus.

use crate::bits::{high_byte, low_byte, make16, make32};
use crate::bus::model::BusModel;
use crate::bus::Bus;
use crate::sound::PsgRegs;
use vstd::prelude::*;

verus! {

impl Bus {
    fn read_cart8(&self, addr: u32) -> (r: Option<u8>)
        requires
            self@.wf(),
        ensures
            r == self@.cart_device8(addr),
    {
        reveal(BusModel::cart_device8);
        let r: u32 = addr >> 24;
        if r < 0x08 || r > 0x0D {
            return None;
        }
        if r == 0x0D && self.has_eeprom() {
            return Some(1);
        }
        match self.gpio_read(addr & !1) {
            Some(v) => if addr & 1 == 0 {
                Some(low_byte(v))
            } else {
                Some(high_byte(v))
            },
            None => None,
        }
    }

    pub fn read8(&mut self, addr: u32) -> (r: u8)
        requires
            old(self)@.wf(),
        ensures
            (final(self)@, r) == old(self)@.read8(addr),
            final(self)@.wf(),
    {
        reveal(BusModel::read8);
        reveal(BusModel::noted);
        if addr < 0x4000 {
            if self.fetching_bios() {
                let v: u8 = self.bios_at(addr);
                self.note_bios8(addr, v);
                self.note_bus8(addr, v);
                return v;
            }
            return self.bios_open_bus8(addr);
        }
        if let Some(v) = self.read_cart8(addr) {
            return v;
        }
        match self.read_driven8(addr) {
            Some(v) => {
                self.note_bus8(addr, v);
                v
            },
            None => self.open_bus8(addr),
        }
    }

    pub fn read16(&mut self, addr: u32) -> (r: u16)
        requires
            old(self)@.wf(),
        ensures
            (final(self)@, r) == old(self)@.read16(addr),
            final(self)@.wf(),
    {
        reveal(BusModel::read16);
        let a: u32 = addr & !1;
        if a >> 24 == 0x0D {
            // EEPROM serial out (DMA halfword reads)
            if self.has_eeprom() {
                return self.eeprom_read();
            }
        }
        if let Some(v) = self.gpio_read(a) {
            return v;
        }
        let b0: u8 = self.read8(a);
        let b1: u8 = self.read8(a.wrapping_add(1));
        let v: u16 = make16(b0, b1);
        self.latch_open_bus16(a, v);
        v
    }

    pub fn read32(&mut self, addr: u32) -> (r: u32)
        requires
            old(self)@.wf(),
        ensures
            (final(self)@, r) == old(self)@.read32(addr),
            final(self)@.wf(),
    {
        reveal(BusModel::read32);
        let a: u32 = addr & !3;
        if a >> 24 == 0x0D {
            let lo: u16 = self.read16(a);
            let hi: u16 = self.read16(a.wrapping_add(2));
            return (lo as u32) | ((hi as u32) << 16);
        }
        let b0: u8 = self.read8(a);
        let b1: u8 = self.read8(a.wrapping_add(1));
        let b2: u8 = self.read8(a.wrapping_add(2));
        let b3: u8 = self.read8(a.wrapping_add(3));
        make32(b0, b1, b2, b3)
    }

    pub fn dispcnt(&mut self) -> (r: u16)
        requires
            old(self)@.wf(),
        ensures
            (final(self)@, r) == old(self)@.read16(0x0400_0000),
            final(self)@.wf(),
    {
        self.read16(0x0400_0000)
    }

    pub fn dispstat(&mut self) -> (r: u16)
        requires
            old(self)@.wf(),
        ensures
            (final(self)@, r) == old(self)@.read16(0x0400_0004),
            final(self)@.wf(),
    {
        self.read16(0x0400_0004)
    }

    pub fn psg_regs(&mut self) -> (r: PsgRegs)
        requires
            old(self)@.wf(),
        ensures
            (final(self)@, r) == old(self)@.psg_regs(),
            final(self)@.wf(),
    {
        reveal(BusModel::psg_regs);
        let wave: [u8; 16] = [
            self.io_at(0x90), self.io_at(0x91), self.io_at(0x92), self.io_at(0x93),
            self.io_at(0x94), self.io_at(0x95), self.io_at(0x96), self.io_at(0x97),
            self.io_at(0x98), self.io_at(0x99), self.io_at(0x9A), self.io_at(0x9B),
            self.io_at(0x9C), self.io_at(0x9D), self.io_at(0x9E), self.io_at(0x9F),
        ];
        let sndl: u16 = self.read16(0x0400_0080);
        let sndh: u16 = self.read16(0x0400_0082);
        let sndx: u16 = self.read16(0x0400_0084);
        let bias: u16 = self.read16(0x0400_0088);
        let ch1_l: u16 = self.read16(0x0400_0060);
        let ch1_h: u16 = self.read16(0x0400_0062);
        let ch1_x: u16 = self.read16(0x0400_0064);
        let ch2_l: u16 = self.read16(0x0400_0068);
        let ch2_h: u16 = self.read16(0x0400_006C);
        let ch3_l: u16 = self.read16(0x0400_0070);
        let ch3_h: u16 = self.read16(0x0400_0072);
        let ch3_x: u16 = self.read16(0x0400_0074);
        let ch4_l: u16 = self.read16(0x0400_0078);
        let ch4_h: u16 = self.read16(0x0400_007C);
        let r = PsgRegs {
            sndl,
            sndh,
            sndx,
            bias,
            ch1_l,
            ch1_h,
            ch1_x,
            ch2_l,
            ch2_h,
            ch3_l,
            ch3_h,
            ch3_x,
            ch4_l,
            ch4_h,
            wave,
        };
        assert(r =~= old(self)@.psg_regs().1);
        r
    }
}

} // verus!
