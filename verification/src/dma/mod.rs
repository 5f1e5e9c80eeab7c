//! DMA channels 0-3: immediate, VBlank, HBlank, special.

pub mod laws;
pub mod transfer;

use crate::bits::aset;
use crate::bus::model::BusModel;
use crate::bus::Bus;
use crate::dma::transfer::{refill, run_transfer};
use crate::irq::{raise, IRQ_DMA0, IRQ_DMA1, IRQ_DMA2, IRQ_DMA3};
use vstd::prelude::*;

verus! {

#[derive(Clone, Copy, Debug, PartialEq, Eq, Structural)]
pub enum Timing {
    Immediate,
    VBlank,
    HBlank,
    Special,
}

impl Timing {
    /// The two start bits of DMAxCNT_H.
    pub open spec fn code(self) -> u16 {
        match self {
            Timing::Immediate => 0,
            Timing::VBlank => 1,
            Timing::HBlank => 2,
            Timing::Special => 3,
        }
    }

    pub fn bits(self) -> (r: u16)
        ensures
            r == self.code(),
    {
        match self {
            Timing::Immediate => 0,
            Timing::VBlank => 1,
            Timing::HBlank => 2,
            Timing::Special => 3,
        }
    }
}

#[derive(Clone, Copy, Debug)]
pub struct Channel {
    pub src: u32,
    pub dst: u32,
    pub latch_src: u32,
    pub latch_dst: u32,
    pub count: u32,
    pub ctrl: u16,
    pub active: bool,
}

pub open spec fn idle_channel() -> Channel {
    Channel { src: 0, dst: 0, latch_src: 0, latch_dst: 0, count: 0, ctrl: 0, active: false }
}

#[verifier::ext_equal]
#[derive(Clone, Copy, Debug)]
pub struct DmaController {
    pub ch: [Channel; 4],
    /// Completed transfers (diagnostic).
    pub xfer_count: u64,
}

/// A transfer into a DMA control register starts that channel inside itself, a
/// start inside that one nests again, and so on. Starts nest as deep as a word
/// counts, which no stack holds: every chain of starts that ends is followed.
pub const DMA_NEST: u32 = 0xFFFF_FFFF;

/// All channels idle.
pub open spec fn idle_dma() -> DmaController {
    DmaController {
        ch: [idle_channel(), idle_channel(), idle_channel(), idle_channel()],
        xfer_count: 0,
    }
}

/// Word count of a channel: zero means the most it can do.
pub open spec fn full_count(ch: int, cnt_l: u16) -> u32 {
    if cnt_l != 0 {
        cnt_l as u32
    } else if ch == 3 {
        0x1_0000
    } else {
        0x4000
    }
}

/// The address after one unit: up, down or fixed.
pub open spec fn adjusted(addr: u32, mode: u16, step: u32) -> u32 {
    if mode == 1 {
        addr.wrapping_sub(step)
    } else if mode == 2 {
        addr
    } else {
        addr.wrapping_add(step)
    }
}

pub open spec fn dma_irq(ch: int) -> u16 {
    if ch == 0 {
        IRQ_DMA0
    } else if ch == 1 {
        IRQ_DMA1
    } else if ch == 2 {
        IRQ_DMA2
    } else {
        IRQ_DMA3
    }
}

/// First register of a channel.
pub open spec fn dma_base(ch: int) -> u32 {
    (0x0400_00B0 + ch * 12) as u32
}

impl Channel {
    pub open spec fn timing(self) -> u16 {
        (self.ctrl >> 12) & 3
    }

    /// Sound FIFO feed: 32-bit units to a fixed FIFO address, four at a time.
    pub open spec fn feeds_fifo(self, ch: int) -> bool {
        self.timing() == 3 && (ch == 1 || ch == 2)
    }

    /// The channel switched off.
    pub open spec fn stopped(self) -> Channel {
        Channel { active: false, ctrl: 0, count: 0, ..self }
    }

    fn off(self) -> (r: Channel)
        ensures
            r == self.stopped(),
    {
        Channel {
            src: self.src,
            dst: self.dst,
            latch_src: self.latch_src,
            latch_dst: self.latch_dst,
            count: 0,
            ctrl: 0,
            active: false,
        }
    }

    /// Width, stepping and length of one transfer.
    pub open spec fn wide(self, ch: int) -> bool {
        self.feeds_fifo(ch) || self.ctrl & 0x400 != 0
    }

    pub open spec fn src_mode(self) -> u16 {
        (self.ctrl >> 7) & 3
    }

    pub open spec fn dst_mode(self, ch: int) -> u16 {
        if self.feeds_fifo(ch) {
            2
        } else {
            (self.ctrl >> 5) & 3
        }
    }

    pub open spec fn units(self, ch: int) -> nat {
        if self.feeds_fifo(ch) {
            4
        } else if self.count < 1 {
            1
        } else {
            self.count as nat
        }
    }

    /// A FIFO feed always aims at its FIFO.
    pub open spec fn planned(self, ch: int) -> Channel {
        if self.feeds_fifo(ch) {
            let to: u32 = if ch == 1 {
                0x0400_00A0
            } else {
                0x0400_00A4
            };
            Channel { dst: to, latch_dst: to, ..self }
        } else {
            self
        }
    }

    /// Pointers after the units; mode 3 reloads the destination.
    pub open spec fn landed(self, src: u32, dst: u32, dst_adj: u16) -> Channel {
        Channel {
            src,
            dst: if dst_adj == 3 {
                self.latch_dst
            } else {
                dst
            },
            ..self
        }
    }

    /// The channel after its enable bit was written: pointers and counter are
    /// taken over only when the bit goes from 0 to 1.
    pub open spec fn enabled(self, ch: int, sad: u32, dad: u32, cnt_l: u16, cnt_h: u16) -> Channel {
        let c = Channel { ctrl: cnt_h, active: true, ..self };
        if self.ctrl & 0x8000 != 0 {
            c
        } else {
            Channel {
                latch_src: sad,
                latch_dst: dad,
                src: sad & 0x0FFF_FFFF,
                dst: dad & 0x0FFF_FFFF,
                count: full_count(ch, cnt_l),
                ..c
            }
        }
    }
}

impl DmaController {
    /// Channel `i` replaced.
    #[verifier::opaque]
    pub open spec fn with(self, i: int, c: Channel) -> DmaController {
        DmaController { ch: aset(self.ch, i, c), ..self }
    }

    /// Every channel off.
    pub open spec fn halted(self) -> DmaController {
        DmaController {
            ch: [
                self.ch[0].stopped(),
                self.ch[1].stopped(),
                self.ch[2].stopped(),
                self.ch[3].stopped(),
            ],
            ..self
        }
    }

    pub(crate) fn stop(&mut self)
        ensures
            *final(self) == old(self).halted(),
    {
        self.ch = [
            self.ch[0].off(),
            self.ch[1].off(),
            self.ch[2].off(),
            self.ch[3].off(),
        ];
        assert(self.ch =~= old(self).halted().ch);
    }

    pub(crate) fn set_channel(&mut self, i: usize, c: Channel)
        requires
            i < 4,
        ensures
            *final(self) == old(self).with(i as int, c),
    {
        reveal(DmaController::with);
        self.ch[i] = c;
    }
}

impl DmaController {
    pub fn new() -> (r: Self)
        ensures
            r == idle_dma(),
    {
        let c = Channel {
            src: 0,
            dst: 0,
            latch_src: 0,
            latch_dst: 0,
            count: 0,
            ctrl: 0,
            active: false,
        };
        let r = DmaController { ch: [c, c, c, c], xfer_count: 0 };
        assert(r.ch =~= idle_dma().ch);
        r
    }

    /// Software wrote DMAxCNT_H.
    pub fn on_cnt_h_write(&mut self, bus: &mut Bus, ch: usize)
        requires
            old(bus)@.wf(),
        ensures
            ch > 3 ==> final(bus)@ == old(bus)@ && *final(self) == *old(self),
            ch <= 3 ==> (final(bus)@, *final(self)) == old(bus)@.cnt_h_seen(
                DMA_NEST as nat,
                *old(self),
                ch as int,
            ),
            final(bus)@.wf(),
    {
        if ch > 3 {
            return;
        }
        self.cnt_h_written(bus, DMA_NEST, ch);
    }

    pub fn on_vblank(&mut self, bus: &mut Bus)
        requires
            old(bus)@.wf(),
        ensures
            (final(bus)@, *final(self)) == old(bus)@.timed(*old(self), Timing::VBlank, 0),
            final(bus)@.wf(),
    {
        self.run_timing(bus, Timing::VBlank);
    }

    pub fn on_hblank(&mut self, bus: &mut Bus)
        requires
            old(bus)@.wf(),
        ensures
            ({
                let (s, d) = old(bus)@.timed(*old(self), Timing::HBlank, 0);
                (final(bus)@, *final(self)) == s.captured(d)
            }),
            final(bus)@.wf(),
    {
        self.run_timing(bus, Timing::HBlank);
        self.run_video_capture(bus);
    }

    /// DMA3 start=Special: one scanline per HBlank, VCOUNT 2..=161, off at 162.
    fn run_video_capture(&mut self, bus: &mut Bus)
        requires
            old(bus)@.wf(),
        ensures
            (final(bus)@, *final(self)) == old(bus)@.captured(*old(self)),
            final(bus)@.wf(),
    {
        reveal(BusModel::captured);
        let mut c = self.ch[3];
        if !c.active || (c.ctrl >> 12) & 3 != 3 {
            return;
        }
        let vcount: u16 = bus.read16(0x0400_0006);
        if vcount == 162 {
            let irq: bool = c.ctrl & 0x4000 != 0;
            let h: u16 = c.ctrl & !0x8000;
            c.ctrl = h;
            c.active = false;
            self.set_channel(3, c);
            bus.write16_raw(0x0400_00DE, h);
            if irq {
                raise(bus, IRQ_DMA3);
            }
            return;
        }
        if vcount < 2 || vcount > 161 {
            return;
        }
        run_transfer(bus, DMA_NEST, 3, &mut c);
        self.set_channel(3, c);
    }

    fn serve_fifo(&mut self, bus: &mut Bus, ch: usize)
        requires
            old(bus)@.wf(),
            ch == 1 || ch == 2,
        ensures
            (final(bus)@, *final(self)) == old(bus)@.fifo_served(*old(self), ch as int),
            final(bus)@.wf(),
    {
        reveal(BusModel::fifo_served);
        let mut c = self.ch[ch];
        let which: u8 = if ch == 1 {
            0
        } else {
            1
        };
        if c.active && (c.ctrl >> 12) & 3 == 3 && bus.fifo_wants(which) {
            refill(bus, DMA_NEST, ch, &mut c);
            self.set_channel(ch, c);
        }
    }

    /// Called after the sound mix when FIFOs are half-empty.
    pub fn on_fifo_request(&mut self, bus: &mut Bus)
        requires
            old(bus)@.wf(),
        ensures
            ({
                let (s, d) = old(bus)@.fifo_served(*old(self), 1);
                (final(bus)@, *final(self)) == s.fifo_served(d, 2)
            }),
            final(bus)@.wf(),
    {
        self.serve_fifo(bus, 1);
        self.serve_fifo(bus, 2);
    }

    fn run_timing(&mut self, bus: &mut Bus, timing: Timing)
        requires
            old(bus)@.wf(),
        ensures
            (final(bus)@, *final(self)) == old(bus)@.timed(*old(self), timing, 0),
            final(bus)@.wf(),
    {
        reveal(BusModel::timed);
        let mut ch: usize = 0;
        while ch < 4
            invariant
                ch <= 4,
                bus@.wf(),
                bus@.timed(*self, timing, ch as int) == old(bus)@.timed(*old(self), timing, 0),
            decreases 4 - ch,
        {
            reveal(BusModel::timed);
            let mut c = self.ch[ch];
            if c.active && (c.ctrl >> 12) & 3 == timing.bits() && !(timing == Timing::Special && ch
                == 0) {
                run_transfer(bus, DMA_NEST, ch, &mut c);
                self.set_channel(ch, c);
            }
            ch += 1;
        }
    }
}

impl Default for DmaController {
    fn default() -> (r: Self)
        ensures
            r == idle_dma(),
    {
        DmaController::new()
    }
}

} // verus!
