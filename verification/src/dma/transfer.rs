//! One transfer of a channel.

use crate::bus::unfold::{lemma_cnt_h_seen, lemma_moved, lemma_refilled, lemma_started, lemma_transferred};
use crate::bus::model::BusModel;
use crate::bus::Bus;
use crate::dma::{adjusted, dma_irq, full_count, Channel, DmaController};
use crate::irq::{raise, IRQ_DMA0, IRQ_DMA1, IRQ_DMA2, IRQ_DMA3};
use vstd::prelude::*;

verus! {

pub fn adj(addr: u32, mode: u16, step: u32) -> (r: u32)
    ensures
        r == adjusted(addr, mode, step),
{
    if mode == 1 {
        addr.wrapping_sub(step)
    } else if mode == 2 {
        addr
    } else {
        addr.wrapping_add(step)
    }
}

pub fn whole_count(ch: usize, cnt_l: u16) -> (r: u32)
    ensures
        r == full_count(ch as int, cnt_l),
{
    if cnt_l != 0 {
        cnt_l as u32
    } else if ch == 3 {
        0x1_0000
    } else {
        0x4000
    }
}

pub fn irq_of(ch: usize) -> (r: u16)
    ensures
        r == dma_irq(ch as int),
{
    if ch == 0 {
        IRQ_DMA0
    } else if ch == 1 {
        IRQ_DMA1
    } else if ch == 2 {
        IRQ_DMA2
    } else {
        IRQ_DMA3
    }
}

/// One unit of a transfer.
pub fn move_unit(bus: &mut Bus, depth: u32, word: bool, src: u32, dst: u32)
    requires
        old(bus)@.wf(),
    ensures
        final(bus)@ == old(bus)@.unit_moved(depth as nat, word, src, dst),
        final(bus)@.wf(),
    decreases depth, 2nat, 0nat,
{
    reveal(BusModel::unit_moved);
    let r: u32 = src >> 24;
    if 0x08 <= r && r <= 0x0D {
        bus.note_cart_data();
    }
    if word {
        let v: u32 = bus.read32(src & !3);
        bus.write32_at(depth, dst & !3, v);
    } else {
        let v: u16 = bus.read16(src & !1);
        bus.write16_at(depth, dst & !1, v);
    }
}

/// `n` units of a transfer.
fn move_units(
    bus: &mut Bus,
    depth: u32,
    word: bool,
    src: u32,
    dst: u32,
    src_adj: u16,
    dst_adj: u16,
    n: u32,
) -> (r: (u32, u32))
    requires
        old(bus)@.wf(),
    ensures
        (final(bus)@, r.0, r.1) == old(bus)@.moved(
            depth as nat,
            word,
            src,
            dst,
            src_adj,
            dst_adj,
            n as nat,
        ),
        final(bus)@.wf(),
    decreases depth, 2nat, 1nat,
{
    proof {
        lemma_moved(old(bus)@, depth as nat, word, src, dst, src_adj, dst_adj, 0);
    }
    let step: u32 = if word {
        4
    } else {
        2
    };
    let mut s: u32 = src;
    let mut d: u32 = dst;
    let mut i: u32 = 0;
    while i < n
        invariant
            i <= n,
            bus@.wf(),
            step == (if word {
                4u32
            } else {
                2
            }),
            (bus@, s, d) == old(bus)@.moved(
                depth as nat,
                word,
                src,
                dst,
                src_adj,
                dst_adj,
                i as nat,
            ),
        decreases n - i,
    {
        proof {
            lemma_moved(
                old(bus)@,
                depth as nat,
                word,
                src,
                dst,
                src_adj,
                dst_adj,
                i as nat,
            );
        }
        move_unit(bus, depth, word, s, d);
        s = adj(s, src_adj, step);
        d = adj(d, dst_adj, step);
        i += 1;
    }
    (s, d)
}

/// Width, source and destination stepping, and length of one transfer; a FIFO
/// feed is aimed at its FIFO.
fn plan(ch: usize, c: &mut Channel) -> (r: (bool, u16, u16, u32))
    requires
        ch < 4,
    ensures
        *final(c) == old(c).planned(ch as int),
        r.0 == old(c).wide(ch as int),
        r.1 == old(c).src_mode(),
        r.2 == old(c).dst_mode(ch as int),
        r.3 == old(c).units(ch as int),
{
    let cnt_h: u16 = c.ctrl;
    let fifo: bool = (cnt_h >> 12) & 3 == 3 && (ch == 1 || ch == 2);
    if fifo {
        let to: u32 = if ch == 1 {
            0x0400_00A0
        } else {
            0x0400_00A4
        };
        c.dst = to;
        c.latch_dst = to;
        (true, (cnt_h >> 7) & 3, 2, 4)
    } else {
        (
            cnt_h & 0x400 != 0,
            (cnt_h >> 7) & 3,
            (cnt_h >> 5) & 3,
            if c.count < 1 {
                1
            } else {
                c.count
            },
        )
    }
}

/// The end of a transfer.
fn finish(bus: &mut Bus, ch: usize, c: &mut Channel, Ghost(was): Ghost<Channel>, dst_adj: u16, src: u32, dst: u32)
    requires
        old(bus)@.wf(),
        ch < 4,
        *old(c) == was.planned(ch as int),
        dst_adj == was.dst_mode(ch as int),
    ensures
        (final(bus)@, *final(c)) == old(bus)@.finished(ch as int, was, src, dst),
        final(bus)@.wf(),
{
    reveal(BusModel::finished);
    c.src = src;
    if dst_adj == 3 {
        c.dst = c.latch_dst;
    } else {
        c.dst = dst;
    }
    let cnt_h: u16 = c.ctrl;
    let base: u32 = 0x0400_00B0 + (ch as u32) * 12;
    if cnt_h & 0x200 == 0 {
        let h: u16 = cnt_h & !0x8000;
        c.ctrl = h;
        c.active = false;
        bus.write16_raw(base + 10, h);
    } else {
        let cnt_l: u16 = bus.read16(base + 8);
        c.count = whole_count(ch, cnt_l);
    }
    if cnt_h & 0x4000 != 0 {
        raise(bus, irq_of(ch));
    }
}

/// One transfer of channel `ch`.
pub fn run_transfer(bus: &mut Bus, depth: u32, ch: usize, c: &mut Channel)
    requires
        old(bus)@.wf(),
        ch < 4,
    ensures
        (final(bus)@, *final(c)) == old(bus)@.transferred(depth as nat, ch as int, *old(c)),
        final(bus)@.wf(),
    decreases depth, 3nat, 0nat,
{
    proof {
        lemma_transferred(old(bus)@, depth as nat, ch as int, *old(c));
    }
    if c.ctrl & 0x8000 == 0 {
        c.active = false;
        return;
    }
    let ghost was = *c;
    let (word, src_adj, dst_adj, n) = plan(ch, c);
    let (src, dst) = move_units(bus, depth, word, c.src, c.dst, src_adj, dst_adj, n);
    finish(bus, ch, c, Ghost(was), dst_adj, src, dst);
}

/// Four words into the FIFO of channel 1 or 2.
pub fn refill(bus: &mut Bus, depth: u32, ch: usize, c: &mut Channel)
    requires
        old(bus)@.wf(),
        ch < 4,
    ensures
        (final(bus)@, *final(c)) == old(bus)@.refilled(depth as nat, ch as int, *old(c)),
        final(bus)@.wf(),
    decreases depth, 4nat, 0nat,
{
    proof {
        lemma_refilled(old(bus)@, depth as nat, ch as int, *old(c));
    }
    let saved: u32 = c.count;
    c.count = 4;
    run_transfer(bus, depth, ch, c);
    c.count = saved;
    let which: u8 = if ch == 1 {
        0
    } else {
        1
    };
    bus.clear_fifo_req(which);
}

/// A channel whose enable bit was just written.
fn start(bus: &mut Bus, depth: u32, ch: usize, c: &mut Channel)
    requires
        old(bus)@.wf(),
        ch < 4,
    ensures
        (final(bus)@, *final(c)) == old(bus)@.started(depth as nat, ch as int, *old(c)),
        final(bus)@.wf(),
    decreases depth, 5nat, 0nat,
{
    proof {
        lemma_started(old(bus)@, depth as nat, ch as int, *old(c));
    }
    let timing: u16 = (c.ctrl >> 12) & 3;
    if timing == 0 {
        run_transfer(bus, depth, ch, c);
    } else if timing == 3 && (ch == 1 || ch == 2) && has_room(bus, ch) {
        refill(bus, depth, ch, c);
        if has_room(bus, ch) {
            refill(bus, depth, ch, c);
        }
    }
}

/// The registers of a channel.
fn channel_regs(bus: &mut Bus, ch: usize) -> (r: (u32, u32, u16, u16))
    requires
        old(bus)@.wf(),
        ch < 4,
    ensures
        (final(bus)@, r.0, r.1, r.2, r.3) == old(bus)@.dma_regs(ch as int),
        final(bus)@.wf(),
{
    reveal(BusModel::dma_regs);
    let base: u32 = 0x0400_00B0 + (ch as u32) * 12;
    let sad: u32 = bus.read32(base);
    let dad: u32 = bus.read32(base + 4);
    let cnt_l: u16 = bus.read16(base + 8);
    let cnt_h: u16 = bus.read16(base + 10);
    (sad, dad, cnt_l, cnt_h)
}

fn has_room(bus: &Bus, ch: usize) -> (r: bool)
    ensures
        r == bus@.fifo_room(ch as int),
{
    if ch == 1 {
        bus.fifo_a_len() < 32
    } else {
        bus.fifo_b_len() < 32
    }
}

impl DmaController {
    /// Software wrote DMAxCNT_H; starts nest `depth` deep.
    pub fn cnt_h_written(&mut self, bus: &mut Bus, depth: u32, ch: usize)
        requires
            old(bus)@.wf(),
            ch < 4,
        ensures
            (final(bus)@, *final(self)) == old(bus)@.cnt_h_seen(
                depth as nat,
                *old(self),
                ch as int,
            ),
            final(bus)@.wf(),
        decreases depth, 6nat, 0nat,
    {
        proof {
            lemma_cnt_h_seen(old(bus)@, depth as nat, *old(self), ch as int);
        }
        let (sad, dad, cnt_l, cnt_h) = channel_regs(bus, ch);
        let mut c = self.ch[ch];
        if cnt_h & 0x8000 == 0 {
            c.ctrl = cnt_h;
            c.active = false;
            self.set_channel(ch, c);
            return;
        }
        c.enable(ch, sad, dad, cnt_l, cnt_h);
        start(bus, depth, ch, &mut c);
        self.set_channel(ch, c);
    }
}

impl Channel {
    fn enable(&mut self, ch: usize, sad: u32, dad: u32, cnt_l: u16, cnt_h: u16)
        ensures
            *final(self) == old(self).enabled(ch as int, sad, dad, cnt_l, cnt_h),
    {
        let was: bool = self.ctrl & 0x8000 != 0;
        self.ctrl = cnt_h;
        self.active = true;
        if !was {
            self.latch_src = sad;
            self.latch_dst = dad;
            self.src = sad & 0x0FFF_FFFF;
            self.dst = dad & 0x0FFF_FFFF;
            self.count = whole_count(ch, cnt_l);
        }
    }
}

} // verus!
