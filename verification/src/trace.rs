//! What a trace of the sound path reports: timers, DMA and mixing buffers, from
//! one look at the machine to the next.

use crate::bits::{le16, le32, make16, make32};
use crate::emu::{Emu, EmuModel};
use crate::mem::byte_or;
use vstd::prelude::*;

verus! {

/// The watched part of a machine.
#[derive(Clone, Copy, Debug)]
pub struct Look {
    /// The four reload latches, the four timer controls, the DMA registers,
    /// SOUNDCNT_H and SOUNDCNT_X.
    pub regs: [u16; 34],
    /// Where the next words of FIFO A and B come from.
    pub src_a: u32,
    pub src_b: u32,
    /// The count of timer 3.
    pub tm3: u32,
}

/// The address of a watched register.
pub open spec fn reg_addr(i: int) -> u32 {
    if i < 4 {
        (0x0400_0100 + 4 * i) as u32
    } else if i < 8 {
        (0x0400_0102 + 4 * (i - 4)) as u32
    } else if i < 32 {
        (0x0400_00B0 + 2 * (i - 8)) as u32
    } else {
        (0x0400_0082 + 2 * (i - 32)) as u32
    }
}

/// The value of a watched register.
pub open spec fn reg_value(m: EmuModel, i: int) -> u16 {
    if i < 4 {
        m.bus.timer_reload[i]
    } else if i < 8 {
        m.bus.timer_ctrl_prev[i - 4]
    } else {
        let off = (reg_addr(i) - 0x0400_0000) as int;
        le16(byte_or(m.bus.io, off, 0), byte_or(m.bus.io, off + 1, 0))
    }
}

/// What a look at a machine sees.
pub open spec fn seen(m: EmuModel, l: Look) -> bool {
    &&& forall|i: int| 0 <= i < 34 ==> #[trigger] l.regs[i] == reg_value(m, i)
    &&& l.src_a == m.bus.dma.ch[1].src
    &&& l.src_b == m.bus.dma.ch[2].src
    &&& l.tm3 == m.timers.counter[3] % 0x1_0000
}

fn address(i: usize) -> (r: u32)
    requires
        i < 34,
    ensures
        r == reg_addr(i as int),
        r == 0x0400_0082 || r == 0x0400_0084 || 0x0400_00B0 <= r <= 0x0400_010E,
{
    if i < 4 {
        0x0400_0100 + 4 * i as u32
    } else if i < 8 {
        0x0400_0102 + 4 * (i as u32 - 4)
    } else if i < 32 {
        0x0400_00B0 + 2 * (i as u32 - 8)
    } else {
        0x0400_0082 + 2 * (i as u32 - 32)
    }
}

/// Looks at a machine.
pub fn look(emu: &Emu) -> (r: Look)
    ensures
        seen(emu@, r),
{
    let mut regs: [u16; 34] = [0u16; 34];
    let mut i: usize = 0;
    while i < 34
        invariant
            i <= 34,
            forall|j: int| 0 <= j < i ==> #[trigger] regs[j] == reg_value(emu@, j),
        decreases 34 - i,
    {
        let v: u16 = if i < 4 {
            emu.bus.reload_at(i)
        } else if i < 8 {
            emu.bus.control_at(i - 4)
        } else {
            let off: usize = (address(i) - 0x0400_0000) as usize;
            make16(emu.bus.io_at(off), emu.bus.io_at(off + 1))
        };
        regs[i] = v;
        i += 1;
    }
    Look {
        regs,
        src_a: emu.bus.source_of(1),
        src_b: emu.bus.source_of(2),
        tm3: emu.timers.counter[3] % 0x1_0000,
    }
}

/// One line of a trace.
#[derive(Clone, Copy, Debug, PartialEq, Eq, Structural)]
pub enum Line {
    /// A timer or sound register has a new value.
    Io(u32, u16),
    /// A DMA register has a new value.
    Dma(u32, u16),
    /// The control of a channel is new: source, destination, count, control.
    Start(u8, u32, u32, u16, u16),
    /// A FIFO was refilled; where its next words come from.
    Refill(u8, u32),
    /// Timer 3 went on: control, count before, ticks.
    Timer3(u16, u32, u32),
}

/// The line for a register that has a new value.
pub open spec fn reg_line(l: Look, i: int) -> Line {
    if 8 <= i < 32 {
        Line::Dma(reg_addr(i), l.regs[i])
    } else {
        Line::Io(reg_addr(i), l.regs[i])
    }
}

/// The first `n` registers that differ.
pub open spec fn reg_lines(a: Look, b: Look, n: nat) -> Seq<Line>
    decreases n,
{
    if n == 0 {
        Seq::empty()
    } else {
        let s = reg_lines(a, b, (n - 1) as nat);
        if a.regs[n - 1] != b.regs[n - 1] {
            s.push(reg_line(b, n - 1))
        } else {
            s
        }
    }
}

/// Two registers as a word.
pub open spec fn word_at(l: Look, i: int) -> u32 {
    (l.regs[i] as u32) | ((l.regs[i + 1] as u32) << 16)
}

/// The first `n` channels whose control differs.
pub open spec fn start_lines(a: Look, b: Look, n: nat) -> Seq<Line>
    decreases n,
{
    if n == 0 {
        Seq::empty()
    } else {
        let s = start_lines(a, b, (n - 1) as nat);
        let base = 8 + 6 * (n - 1);
        if a.regs[base + 5] != b.regs[base + 5] {
            s.push(
                Line::Start(
                    (n - 1) as u8,
                    word_at(b, base),
                    word_at(b, base + 2),
                    b.regs[base + 4],
                    b.regs[base + 5],
                ),
            )
        } else {
            s
        }
    }
}

/// The channel feeds its FIFO: it starts on the sample timer.
pub open spec fn feeds(l: Look, ch: int) -> bool {
    (l.regs[8 + 6 * ch + 5] >> 12) & 3 == 3
}

/// FIFO refills: a feeding channel whose source moved.
pub open spec fn refill_lines(a: Look, b: Look) -> Seq<Line> {
    let s = if feeds(b, 1) && a.src_a != b.src_a {
        seq![Line::Refill(1u8, b.src_a)]
    } else {
        Seq::empty()
    };
    if feeds(b, 2) && a.src_b != b.src_b {
        s.push(Line::Refill(2u8, b.src_b))
    } else {
        s
    }
}

/// Timer 3, every 28 refills.
pub open spec fn timer_lines(evt: u64, a: Look, b: Look) -> Seq<Line> {
    if evt % 28 == 0 && b.regs[7] & 0x80 != 0 && a.tm3 != b.tm3 {
        seq![Line::Timer3(b.regs[7], a.tm3, ((b.tm3 - a.tm3) % 0x1_0000) as u32)]
    } else {
        Seq::empty()
    }
}

/// What is new from one look to the next, `evt` refills into the trace.
pub open spec fn news(evt: u64, a: Look, b: Look) -> Seq<Line> {
    timer_lines(evt, a, b) + reg_lines(a, b, 34) + start_lines(a, b, 4) + refill_lines(a, b)
}

fn ticks(a: u32, b: u32) -> (r: u32)
    ensures
        r == (b - a) % 0x1_0000,
{
    ((0x1_0000_0000 + b as u64 - a as u64) % 0x1_0000) as u32
}

/// A trace: what was seen last, and the FIFO refills so far.
#[derive(Clone, Copy, Debug)]
pub struct Tracer {
    pub evt: u64,
    pub last: Look,
}

impl Tracer {
    pub fn new(emu: &Emu) -> (r: Self)
        ensures
            r.evt == 0,
            seen(emu@, r.last),
    {
        Tracer { evt: 0, last: look(emu) }
    }

    /// The lines since the last look.
    pub fn step(&mut self, now: Look) -> (r: Vec<Line>)
        ensures
            r@ == news(old(self).evt, old(self).last, now),
            final(self).last == now,
            final(self).evt == old(self).evt.wrapping_add(
                refill_lines(old(self).last, now).len() as u64,
            ),
    {
        let a: Look = self.last;
        let b: Look = now;
        let mut out: Vec<Line> = Vec::new();
        let ctrl: u16 = b.regs[7];
        if self.evt % 28 == 0 && ctrl & 0x80 != 0 && a.tm3 != b.tm3 {
            out.push(Line::Timer3(ctrl, a.tm3, ticks(a.tm3, b.tm3)));
        }
        let ghost head = timer_lines(self.evt, a, b);
        assert(out@ =~= head);
        let mut i: usize = 0;
        while i < 34
            invariant
                i <= 34,
                out@ == head + reg_lines(a, b, i as nat),
            decreases 34 - i,
        {
            let v: u16 = b.regs[i];
            if a.regs[i] != v {
                out.push(
                    if 8 <= i && i < 32 {
                        Line::Dma(address(i), v)
                    } else {
                        Line::Io(address(i), v)
                    },
                );
            }
            i += 1;
            assert(out@ =~= head + reg_lines(a, b, i as nat));
        }
        let ghost head = out@;
        let mut ch: usize = 0;
        while ch < 4
            invariant
                ch <= 4,
                out@ == head + start_lines(a, b, ch as nat),
            decreases 4 - ch,
        {
            let base: usize = 8 + 6 * ch;
            if a.regs[base + 5] != b.regs[base + 5] {
                let sad: u32 = (b.regs[base] as u32) | ((b.regs[base + 1] as u32) << 16);
                let dad: u32 = (b.regs[base + 2] as u32) | ((b.regs[base + 3] as u32) << 16);
                out.push(Line::Start(ch as u8, sad, dad, b.regs[base + 4], b.regs[base + 5]));
            }
            ch += 1;
            assert(out@ =~= head + start_lines(a, b, ch as nat));
        }
        let ghost head = out@;
        if (b.regs[19] >> 12) & 3 == 3 && a.src_a != b.src_a {
            out.push(Line::Refill(1, b.src_a));
            self.evt = self.evt.wrapping_add(1);
        }
        if (b.regs[25] >> 12) & 3 == 3 && a.src_b != b.src_b {
            out.push(Line::Refill(2, b.src_b));
            self.evt = self.evt.wrapping_add(1);
        }
        assert(out@ =~= head + refill_lines(a, b));
        self.last = now;
        out
    }
}

// ---- mixing buffers -----------------------------------------------------

/// The parts of IWRAM that a sound driver mixes in.
#[derive(Clone, Copy, Debug, PartialEq, Eq, Structural)]
pub enum Span {
    Slot,
    Track,
    Buffer,
}

/// The part that an offset into IWRAM belongs to.
pub open spec fn span(off: int) -> Option<Span> {
    if 0x28E0 <= off < 0x28EC {
        Some(Span::Slot)
    } else if 0x5FA0 <= off < 0x6228 {
        Some(Span::Track)
    } else if 0x62A0 <= off < 0x6F00 {
        Some(Span::Buffer)
    } else {
        None
    }
}

pub fn span_of(off: usize) -> (r: Option<Span>)
    ensures
        r == span(off as int),
{
    if 0x28E0 <= off && off < 0x28EC {
        Some(Span::Slot)
    } else if 0x5FA0 <= off && off < 0x6228 {
        Some(Span::Track)
    } else if 0x62A0 <= off && off < 0x6F00 {
        Some(Span::Buffer)
    } else {
        None
    }
}

/// The watched offsets below `n` whose bytes differ.
pub open spec fn changed_in(a: Seq<u8>, b: Seq<u8>, n: nat) -> Seq<usize>
    decreases n,
{
    if n == 0 {
        Seq::empty()
    } else {
        let s = changed_in(a, b, (n - 1) as nat);
        if span(n - 1) is Some && a[n - 1] != b[n - 1] {
            s.push((n - 1) as usize)
        } else {
            s
        }
    }
}

/// The watched offsets at which two images of IWRAM differ.
pub fn changed(a: &[u8], b: &[u8]) -> (r: Vec<usize>)
    requires
        a@.len() == b@.len(),
    ensures
        r@ == changed_in(a@, b@, a@.len()),
{
    let mut out: Vec<usize> = Vec::new();
    let mut i: usize = 0;
    while i < a.len()
        invariant
            i <= a@.len(),
            a@.len() == b@.len(),
            out@ == changed_in(a@, b@, i as nat),
        decreases a@.len() - i,
    {
        if span_of(i).is_some() && a[i] != b[i] {
            out.push(i);
        }
        i += 1;
    }
    out
}

/// The two fields of each of six songs, and the driver's song counter.
pub open spec fn song_field(i: int) -> int {
    let base = if i < 2 {
        0x6FB0int
    } else if i < 4 {
        0x6F70
    } else if i < 6 {
        0x73D0
    } else if i < 8 {
        0x7380
    } else if i < 10 {
        0x7340
    } else {
        0x7300
    };
    if i == 12 {
        0x5F78
    } else if i % 2 == 0 {
        base + 4
    } else {
        base + 0x34
    }
}

fn field_of(i: usize) -> (r: usize)
    requires
        i < 13,
    ensures
        r == song_field(i as int),
        r < 0x7FFC,
{
    let base: usize = if i < 2 {
        0x6FB0
    } else if i < 4 {
        0x6F70
    } else if i < 6 {
        0x73D0
    } else if i < 8 {
        0x7380
    } else if i < 10 {
        0x7340
    } else {
        0x7300
    };
    if i == 12 {
        0x5F78
    } else if i % 2 == 0 {
        base + 4
    } else {
        base + 0x34
    }
}

/// The word at an offset.
pub open spec fn word_in(s: Seq<u8>, off: int) -> u32 {
    le32(s[off], s[off + 1], s[off + 2], s[off + 3])
}

/// Offset and word of the first `n` song fields that differ.
pub open spec fn songs_in(a: Seq<u8>, b: Seq<u8>, n: nat) -> Seq<(usize, u32)>
    decreases n,
{
    if n == 0 {
        Seq::empty()
    } else {
        let s = songs_in(a, b, (n - 1) as nat);
        let off = song_field(n - 1);
        if word_in(a, off) != word_in(b, off) {
            s.push((off as usize, word_in(b, off)))
        } else {
            s
        }
    }
}

/// The song fields at which two images of IWRAM differ, with their new words.
pub fn changed_songs(a: &[u8], b: &[u8]) -> (r: Vec<(usize, u32)>)
    requires
        a@.len() >= 0x8000,
        b@.len() >= 0x8000,
    ensures
        r@ == songs_in(a@, b@, 13),
{
    let mut out: Vec<(usize, u32)> = Vec::new();
    let mut i: usize = 0;
    while i < 13
        invariant
            i <= 13,
            a@.len() >= 0x8000,
            b@.len() >= 0x8000,
            out@ == songs_in(a@, b@, i as nat),
        decreases 13 - i,
    {
        let o: usize = field_of(i);
        let v: u32 = make32(b[o], b[o + 1], b[o + 2], b[o + 3]);
        if make32(a[o], a[o + 1], a[o + 2], a[o + 3]) != v {
            out.push((o, v));
        }
        i += 1;
    }
    out
}

/// A line that comes often is shown at first, and then once in a while.
pub fn is_due(count: u64, first: u64, every: u64) -> (r: bool)
    requires
        every > 0,
    ensures
        r == (count < first || count % every == 0),
{
    count < first || count % every == 0
}

/// At how many of the first `n` places two windows differ.
pub open spec fn differing(a: Seq<u8>, b: Seq<u8>, n: nat) -> nat
    decreases n,
{
    if n == 0 {
        0
    } else {
        differing(a, b, (n - 1) as nat) + if a[n - 1] != b[n - 1] {
            1nat
        } else {
            0
        }
    }
}

pub fn differences(a: &[u8], b: &[u8]) -> (r: usize)
    requires
        a@.len() == b@.len(),
    ensures
        r == differing(a@, b@, a@.len()),
{
    let mut c: usize = 0;
    let mut i: usize = 0;
    while i < a.len()
        invariant
            c <= i <= a@.len(),
            a@.len() == b@.len(),
            c == differing(a@, b@, i as nat),
        decreases a@.len() - i,
    {
        if a[i] != b[i] {
            c += 1;
        }
        i += 1;
    }
    c
}

} // verus!
