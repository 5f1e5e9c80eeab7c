//! What DMA does, and the register writes that start it.

use crate::bits::{hi16, lo16};
use crate::bus::model::{in_rom, writable, BusModel};
use crate::dma::{
    adjusted, dma_base, dma_irq, full_count, idle_dma, Channel, DmaController, Timing, DMA_NEST,
};
use crate::irq::IRQ_DMA3;
use vstd::prelude::*;

verus! {

impl BusModel {
    /// `n` units moved, source and destination stepping in their modes.
    /// Game Pak sources break the fetch sequence.
    #[verifier::opaque]
    pub open spec fn moved(
        self,
        depth: nat,
        word: bool,
        src: u32,
        dst: u32,
        src_adj: u16,
        dst_adj: u16,
        n: nat,
    ) -> (BusModel, u32, u32)
        decreases depth, 2nat, n,
    {
        if n == 0 {
            (self, src, dst)
        } else {
            let (s, a, d) = self.moved(depth, word, src, dst, src_adj, dst_adj, (n - 1) as nat);
            let t = s.unit_moved(depth, word, a, d);
            let step: u32 = if word {
                4
            } else {
                2
            };
            (t, adjusted(a, src_adj, step), adjusted(d, dst_adj, step))
        }
    }

    /// One unit moved.
    #[verifier::opaque]
    pub open spec fn unit_moved(self, depth: nat, word: bool, src: u32, dst: u32) -> BusModel
        decreases depth, 2nat, 0nat,
    {
        let s = if in_rom(src) {
            self.cart_data_noted()
        } else {
            self
        };
        if word {
            let (t, v) = s.read32(src & !3u32);
            t.write32_at(depth, dst & !3u32, v)
        } else {
            let (t, v) = s.read16(src & !1u32);
            t.write16_at(depth, dst & !1u32, v)
        }
    }

    /// The end of a transfer: repeat reloads the count, otherwise the channel
    /// switches itself off; then its interrupt.
    #[verifier::opaque]
    pub open spec fn finished(self, ch: int, c: Channel, src: u32, dst: u32) -> (BusModel, Channel) {
        let c2 = c.planned(ch).landed(src, dst, c.dst_mode(ch));
        let (t, c3) = if c.ctrl & 0x200 == 0 {
            let h = c.ctrl & !0x8000u16;
            (
                self.write16_raw((dma_base(ch) + 10) as u32, h),
                Channel { ctrl: h, active: false, ..c2 },
            )
        } else {
            let (t, cnt_l) = self.read16((dma_base(ch) + 8) as u32);
            (t, Channel { count: full_count(ch, cnt_l), ..c2 })
        };
        if c.ctrl & 0x4000 != 0 {
            (t.raised(dma_irq(ch)), c3)
        } else {
            (t, c3)
        }
    }

    /// One transfer of a channel: the units, the new pointers, and its end.
    #[verifier::opaque]
    pub open spec fn transferred(self, depth: nat, ch: int, c: Channel) -> (BusModel, Channel)
        decreases depth, 3nat, 0nat,
    {
        if c.ctrl & 0x8000 == 0 {
            (self, Channel { active: false, ..c })
        } else {
            let (s, src, dst) = self.moved(
                depth,
                c.wide(ch),
                c.planned(ch).src,
                c.planned(ch).dst,
                c.src_mode(),
                c.dst_mode(ch),
                c.units(ch),
            );
            s.finished(ch, c, src, dst)
        }
    }

    /// A FIFO refill: one transfer of four words, the programmed count kept.
    #[verifier::opaque]
    pub open spec fn refilled(self, depth: nat, ch: int, c: Channel) -> (BusModel, Channel)
        decreases depth, 4nat, 0nat,
    {
        let (s, d) = self.transferred(depth, ch, Channel { count: 4, ..c });
        let which: u8 = if ch == 1 {
            0
        } else {
            1
        };
        (
            BusModel { sound: s.sound.req_cleared(which), ..s },
            Channel { count: c.count, ..d },
        )
    }

    /// Room for another refill in the FIFO of channel 1 or 2.
    pub open spec fn fifo_room(self, ch: int) -> bool {
        if ch == 1 {
            self.sound.queued_a() < 32
        } else {
            self.sound.queued_b() < 32
        }
    }

    /// The registers of a channel as a DMAxCNT_H write sees them: source,
    /// destination, count and control.
    #[verifier::opaque]
    pub open spec fn dma_regs(self, ch: int) -> (BusModel, u32, u32, u16, u16) {
        let base = dma_base(ch);
        let (s, sad) = self.read32(base);
        let (s, dad) = s.read32((base + 4) as u32);
        let (s, cnt_l) = s.read16((base + 8) as u32);
        let (s, cnt_h) = s.read16((base + 10) as u32);
        (s, sad, dad, cnt_l, cnt_h)
    }

    /// A channel whose enable bit was just written. An immediate channel runs
    /// now; a FIFO channel fills its FIFO at once, up to twice.
    #[verifier::opaque]
    pub open spec fn started(self, depth: nat, ch: int, c: Channel) -> (BusModel, Channel)
        decreases depth, 5nat, 0nat,
    {
        if c.timing() == 0 {
            self.transferred(depth, ch, c)
        } else if c.feeds_fifo(ch) && self.fifo_room(ch) {
            let (t, f) = self.refilled(depth, ch, c);
            if t.fifo_room(ch) {
                t.refilled(depth, ch, f)
            } else {
                (t, f)
            }
        } else {
            (self, c)
        }
    }

    /// Software wrote DMAxCNT_H: off stops the channel, on may start it.
    #[verifier::opaque]
    pub open spec fn cnt_h_seen(self, depth: nat, d: DmaController, ch: int) -> (
        BusModel,
        DmaController,
    )
        decreases depth, 6nat, 0nat,
    {
        let (s, sad, dad, cnt_l, cnt_h) = self.dma_regs(ch);
        let c = d.ch[ch];
        if cnt_h & 0x8000 == 0 {
            (s, d.with(ch, Channel { ctrl: cnt_h, active: false, ..c }))
        } else {
            let (t, e) = s.started(depth, ch, c.enabled(ch, sad, dad, cnt_l, cnt_h));
            (t, d.with(ch, e))
        }
    }

    /// A DMAxCNT_H write: the register is stored and the channel reacts.
    /// Writes that the transfer itself makes see an idle controller, and the
    /// real one is put back after it.
    #[verifier::opaque]
    pub open spec fn dma_ctrl_written(self, depth: nat, ch: int, val: u16) -> BusModel
        decreases depth, 0nat, 0nat,
    {
        let s = self.write16_raw((dma_base(ch) + 10) as u32, val);
        if depth == 0 {
            s
        } else {
            let (t, d) = BusModel { dma: idle_dma(), ..s }.cnt_h_seen(
                (depth - 1) as nat,
                s.dma,
                ch,
            );
            BusModel { dma: d, ..t }
        }
    }

    /// A halfword into an IO register other than DMAxCNT_H, at even offset `off`.
    #[verifier::opaque]
    pub open spec fn reg_written(self, off: u16, val: u16) -> BusModel {
        let addr = (0x0400_0000 + off) as u32;
        if off == 0x300 {
            // POSTFLG, and HALTCNT in the high byte
            BusModel { halt_wait: true, ..self.write16_raw(addr, val & 1) }
        } else if !writable(off) && !writable((off + 1) as u16) {
            self
        } else if off == 0x208 {
            self.write16_raw(addr, val & 1)
        } else if off == 0x004 {
            self.dispstat_written(val)
        } else if off == 0x048 || off == 0x04A {
            self.write16_raw(addr, val & 0x3F3F)
        } else if off == 0x050 || off == 0x200 {
            self.write16_raw(addr, val & 0x3FFF)
        } else if off == 0x204 {
            self.write16_raw(addr, val & 0x7FFF)
        } else if off == 0x202 {
            self.if_written(val)
        } else if off == 0x100 || off == 0x104 || off == 0x108 || off == 0x10C {
            self.reload_written((off - 0x100) / 4, val)
        } else if off == 0x102 || off == 0x106 || off == 0x10A || off == 0x10E {
            self.timer_ctrl_written((off - 0x102) / 4, addr, val)
        } else if off == 0x082 {
            self.soundcnt_h_written(val)
        } else if off == 0x084 {
            self.soundcnt_x_written(val)
        } else if off == 0x070 {
            self.wave_ctrl_written(val)
        } else if off == 0x000 {
            self.dispcnt_written(val)
        } else if off == 0x064 {
            self.psg_freq_written(1, addr, val)
        } else if off == 0x06C {
            self.psg_freq_written(2, addr, val)
        } else if off == 0x074 {
            self.psg_freq_written(3, addr, val)
        } else if off == 0x07C {
            self.psg_freq_written(4, addr, val)
        } else if 0x090 <= off <= 0x09E {
            self.wave_ram_written(addr, val)
        } else if off == 0x0A0 || off == 0x0A2 {
            BusModel { sound: self.sound.half_a(val), ..self }
        } else if off == 0x0A4 || off == 0x0A6 {
            BusModel { sound: self.sound.half_b(val), ..self }
        } else if off == 0x128 {
            self.siocnt_written(val)
        } else {
            self.write16_raw(addr, val)
        }
    }

    /// A halfword into the IO page, at even offset `off`.
    #[verifier::opaque]
    pub open spec fn io16_written(self, depth: nat, off: u16, val: u16) -> BusModel
        decreases depth, 0nat, 1nat,
    {
        if off == 0x0BA {
            self.dma_ctrl_written(depth, 0, val)
        } else if off == 0x0C6 {
            self.dma_ctrl_written(depth, 1, val)
        } else if off == 0x0D2 {
            self.dma_ctrl_written(depth, 2, val)
        } else if off == 0x0DE {
            self.dma_ctrl_written(depth, 3, val)
        } else {
            self.reg_written(off, val)
        }
    }

    /// A halfword write with its register side effects.
    #[verifier::opaque]
    pub open spec fn write16_at(self, depth: nat, addr: u32, val: u16) -> BusModel
        decreases depth, 0nat, 2nat,
    {
        let a = addr & !1u32;
        if a >> 24 == 0x0D && self.eeprom is Some {
            self.eeprom_bit(val)
        } else if self.rtc.present && (a == crate::rtc::GPIO_DATA || a == crate::rtc::GPIO_DIR || a
            == crate::rtc::GPIO_CTRL) {
            BusModel { rtc: self.rtc.gpio_write(a, val), ..self }
        } else if a >> 24 == 0x04 {
            if a >= 0x0400_0400 {
                self
            } else {
                self.io16_written(depth, (a & 0x3FF) as u16, val)
            }
        } else {
            self.write16_raw(a, val)
        }
    }

    /// A word write: the FIFOs take it whole, everything else as two halves.
    #[verifier::opaque]
    pub open spec fn write32_at(self, depth: nat, addr: u32, val: u32) -> BusModel
        decreases depth, 1nat, 0nat,
    {
        let a = addr & !3u32;
        if a == 0x0400_00A0 {
            BusModel { sound: self.sound.word_a(val), ..self }
        } else if a == 0x0400_00A4 {
            BusModel { sound: self.sound.word_b(val), ..self }
        } else {
            self.write16_at(depth, a, lo16(val)).write16_at(depth, a.wrapping_add(2), hi16(val))
        }
    }

    pub open spec fn write16(self, addr: u32, val: u16) -> BusModel {
        self.write16_at(DMA_NEST as nat, addr, val)
    }

    pub open spec fn write32(self, addr: u32, val: u32) -> BusModel {
        self.write32_at(DMA_NEST as nat, addr, val)
    }

    /// The channels of one start timing, in order, from `ch` on.
    #[verifier::opaque]
    pub open spec fn timed(self, d: DmaController, timing: Timing, ch: int) -> (
        BusModel,
        DmaController,
    )
        decreases 4 - ch,
    {
        if ch >= 4 {
            (self, d)
        } else {
            let c = d.ch[ch];
            if !c.active || c.timing() != timing.code() || (timing == Timing::Special && ch == 0) {
                self.timed(d, timing, ch + 1)
            } else {
                let (s, e) = self.transferred(DMA_NEST as nat, ch, c);
                s.timed(d.with(ch, e), timing, ch + 1)
            }
        }
    }

    /// Video capture (channel 3, special): one line per HBlank from VCOUNT 2
    /// to 161; at 162 the channel switches off.
    #[verifier::opaque]
    pub open spec fn captured(self, d: DmaController) -> (BusModel, DmaController) {
        let c = d.ch[3];
        if !c.active || c.timing() != 3 {
            (self, d)
        } else {
            let (s, vcount) = self.read16(0x0400_0006);
            if vcount == 162 {
                let h = c.ctrl & !0x8000u16;
                let t = s.write16_raw(0x0400_00DE, h);
                (
                    if c.ctrl & 0x4000 != 0 {
                        t.raised(IRQ_DMA3)
                    } else {
                        t
                    },
                    d.with(3, Channel { ctrl: h, active: false, ..c }),
                )
            } else if 2 <= vcount <= 161 {
                let (t, e) = s.transferred(DMA_NEST as nat, 3, c);
                (t, d.with(3, e))
            } else {
                (s, d)
            }
        }
    }

    /// Channel 1 or 2 serves the FIFO that asks for samples.
    #[verifier::opaque]
    pub open spec fn fifo_served(self, d: DmaController, ch: int) -> (BusModel, DmaController) {
        let c = d.ch[ch];
        let which: u8 = if ch == 1 {
            0
        } else {
            1
        };
        if c.active && c.timing() == 3 && self.sound.wants_dma(which) {
            let (s, e) = self.refilled(DMA_NEST as nat, ch, c);
            (s, d.with(ch, e))
        } else {
            (self, d)
        }
    }
}

} // verus!
