//! Picture processing unit: scanlines, VBlank and HBlank, DMA hooks.

pub mod laws;
pub mod layers;
pub mod objs;
pub mod pixel_laws;
pub mod render;
pub mod scene;

use crate::bus::model::BusModel;
use crate::bus::Bus;
use crate::dma::{idle_dma, Timing};
use crate::irq::{raise, IRQ_HBLANK, IRQ_VBLANK, IRQ_VCOUNTER};
use crate::ppu::render::{line_drawn, render_scanline_affine};
use vstd::prelude::*;

verus! {

pub const WIDTH: usize = 240;

pub const HEIGHT: usize = 160;

/// Cycles per scanline.
pub const CYCLES_PER_LINE: u32 = 1232;

/// HBlank flag, HBlank DMA and HBlank interrupt start here (not at the end of
/// the line).
pub const HBLANK_CYCLE: u32 = 1006;

/// 160 visible lines and 68 of VBlank.
pub const LINES_PER_FRAME: u32 = 228;

pub struct Ppu {
    pub line: u16,
    pub line_cycles: u32,
    /// BGR555, row after row.
    pub frame: Vec<u16>,
    pub frame_ready: bool,
    /// Affine reference points (28.8 fixed), latched from the registers.
    pub bg2x: i32,
    pub bg2y: i32,
    pub bg3x: i32,
    pub bg3y: i32,
    pub hblank_fired: bool,
}

pub struct PpuModel {
    pub line: u16,
    pub line_cycles: u32,
    pub frame: Seq<u16>,
    pub frame_ready: bool,
    pub bg2x: i32,
    pub bg2y: i32,
    pub bg3x: i32,
    pub bg3y: i32,
    pub hblank_fired: bool,
}

impl View for Ppu {
    type V = PpuModel;

    open spec fn view(&self) -> PpuModel {
        PpuModel {
            line: self.line,
            line_cycles: self.line_cycles,
            frame: self.frame@,
            frame_ready: self.frame_ready,
            bg2x: self.bg2x,
            bg2y: self.bg2y,
            bg3x: self.bg3x,
            bg3y: self.bg3y,
            hblank_fired: self.hblank_fired,
        }
    }
}

/// A 28-bit two's-complement number.
pub open spec fn sext28(v: u32) -> i32 {
    if v & 0x0800_0000 != 0 {
        ((v & 0x0FFF_FFFF) | 0xF000_0000u32) as i32
    } else {
        (v & 0x0FFF_FFFF) as i32
    }
}

fn sign_ext_28(v: u32) -> (r: i32)
    ensures
        r == sext28(v),
{
    if v & 0x0800_0000 != 0 {
        ((v & 0x0FFF_FFFF) | 0xF000_0000) as i32
    } else {
        (v & 0x0FFF_FFFF) as i32
    }
}

pub open spec fn small(v: i32) -> bool {
    -0x10 < v < 0x10
}

/// Vertical steps of an affine background: PB and PD, which the compatibility
/// switch replaces where they cannot be meant.
pub open spec fn line_steps(compat: bool, pa: i32, pb: i32, pd: i32) -> (i32, i32) {
    if compat {
        let (b, d) = if small(pa) && small(pb) {
            (0, 0x100)
        } else if small(pd) {
            (pb, 0x100)
        } else {
            (pb, pd)
        };
        if -0x400 <= d <= 0x400 {
            (b, d)
        } else {
            (b, 0x100)
        }
    } else {
        (pb, pd)
    }
}

fn steps_down(compat: bool, pa: i32, pb: i32, pd: i32) -> (r: (i32, i32))
    ensures
        r == line_steps(compat, pa, pb, pd),
{
    if !compat {
        return (pb, pd);
    }
    let small_b: bool = -0x10 < pb && pb < 0x10;
    let (b, d): (i32, i32) = if -0x10 < pa && pa < 0x10 && small_b {
        (0, 0x100)
    } else if -0x10 < pd && pd < 0x10 {
        (pb, 0x100)
    } else {
        (pb, pd)
    };
    if -0x400 <= d && d <= 0x400 {
        (b, d)
    } else {
        (b, 0x100)
    }
}

pub open spec fn half_signed(v: u16) -> i32 {
    v as i16 as i32
}

impl PpuModel {
    pub open spec fn wf(self) -> bool {
        self.frame.len() == WIDTH * HEIGHT
    }

    /// Affine reference points taken from the registers.
    #[verifier::opaque]
    pub open spec fn latched(self, b: BusModel) -> (PpuModel, BusModel) {
        let (s, x2) = b.read32(0x0400_0028);
        let (s, y2) = s.read32(0x0400_002C);
        let (s, x3) = s.read32(0x0400_0038);
        let (s, y3) = s.read32(0x0400_003C);
        (
            PpuModel {
                bg2x: sext28(x2),
                bg2y: sext28(y2),
                bg3x: sext28(x3),
                bg3y: sext28(y3),
                ..self
            },
            s,
        )
    }

    /// HBlank begins: a visible line is drawn, the flag set, HBlank DMA runs,
    /// and the interrupt comes where it is enabled.
    #[verifier::opaque]
    pub open spec fn hblanked(self, b: BusModel) -> (PpuModel, BusModel) {
        let (s, frame) = if self.line < HEIGHT {
            line_drawn(
                b,
                (self.bg2x, self.bg2y, self.bg3x, self.bg3y),
                self.line as int,
                self.frame,
            )
        } else {
            (b, self.frame)
        };
        let (s, ds) = s.read16(0x0400_0004);
        let s = s.write16_raw(0x0400_0004, ds | 2);
        let (t, d) = (BusModel { dma: idle_dma(), ..s }).timed(s.dma, Timing::HBlank, 0);
        let (t, d) = t.captured(d);
        let (u, ds) = (BusModel { dma: d, ..t }).read16(0x0400_0004);
        (
            PpuModel { frame, hblank_fired: true, ..self },
            if ds & 0x10 != 0 {
                u.raised(IRQ_HBLANK)
            } else {
                u
            },
        )
    }

    /// VCOUNT and the DISPSTAT flags of the line just begun.
    #[verifier::opaque]
    pub open spec fn status_set(line: u16, b: BusModel) -> BusModel {
        let (s, was) = b.write16_raw(0x0400_0006, line).read16(0x0400_0004);
        let ds = (was & !3u16) | (if line >= HEIGHT {
            1u16
        } else {
            0
        });
        if line == (ds >> 8) & 0xFF {
            let t = if ds & 0x20 != 0 {
                s.raised(IRQ_VCOUNTER)
            } else {
                s
            };
            t.write16_raw(0x0400_0004, ds | 4)
        } else {
            s.write16_raw(0x0400_0004, ds)
        }
    }

    /// VBlank begins: its interrupt and its DMA.
    #[verifier::opaque]
    pub open spec fn vblanked(b: BusModel) -> BusModel {
        let s = b.raised(IRQ_VBLANK);
        let (t, d) = (BusModel { dma: idle_dma(), ..s }).timed(s.dma, Timing::VBlank, 0);
        BusModel { dma: d, ..t }
    }

    /// After a visible line the reference points move down by PB and PD.
    #[verifier::opaque]
    pub open spec fn advanced(self, b: BusModel) -> (PpuModel, BusModel) {
        let (s, pb2) = b.read16(0x0400_0022);
        let (s, pd2) = s.read16(0x0400_0026);
        let (s, pb3) = s.read16(0x0400_0032);
        let (s, pd3) = s.read16(0x0400_0036);
        let (s, pa2) = if b.affine_compat {
            s.read16(0x0400_0020)
        } else {
            (s, 0)
        };
        let (s, pa3) = if b.affine_compat {
            s.read16(0x0400_0030)
        } else {
            (s, 0)
        };
        let (x2, y2) = line_steps(
            b.affine_compat,
            half_signed(pa2),
            half_signed(pb2),
            half_signed(pd2),
        );
        let (x3, y3) = line_steps(
            b.affine_compat,
            half_signed(pa3),
            half_signed(pb3),
            half_signed(pd3),
        );
        (
            PpuModel {
                bg2x: self.bg2x.wrapping_add(x2),
                bg2y: self.bg2y.wrapping_add(y2),
                bg3x: self.bg3x.wrapping_add(x3),
                bg3y: self.bg3y.wrapping_add(y3),
                ..self
            },
            s,
        )
    }

    /// The end of a line.
    #[verifier::opaque]
    pub open spec fn line_finished(self, b: BusModel) -> (PpuModel, BusModel) {
        let last = self.line;
        let next = last.wrapping_add(1);
        let (p, s) = if next >= LINES_PER_FRAME {
            (PpuModel { line: 0, frame_ready: true, ..self }).latched(b)
        } else {
            (PpuModel { line: next, ..self }, b)
        };
        let s = PpuModel::status_set(p.line, s);
        let s = if last == HEIGHT {
            PpuModel::vblanked(s)
        } else {
            s
        };
        let (q, t) = if last < HEIGHT {
            p.advanced(s)
        } else {
            (p, s)
        };
        (PpuModel { hblank_fired: false, ..q }, t)
    }

    /// The PPU up to its cycle count: HBlank at cycle 1006 of a line, the next
    /// line at 1232.
    pub open spec fn ran(self, b: BusModel) -> (PpuModel, BusModel)
        decreases self.line_cycles,
    {
        let (p, s) = if !self.hblank_fired && self.line_cycles >= HBLANK_CYCLE {
            self.hblanked(b)
        } else {
            (self, b)
        };
        if self.line_cycles < CYCLES_PER_LINE {
            (p, s)
        } else {
            let left = (self.line_cycles - CYCLES_PER_LINE) as u32;
            let (q, t) = (PpuModel { line_cycles: left, ..p }).line_finished(s);
            (PpuModel { line_cycles: left, ..q }).ran(t)
        }
    }

    /// `cycles` more.
    #[verifier::opaque]
    pub open spec fn stepped(self, b: BusModel, cycles: u32) -> (PpuModel, BusModel) {
        (PpuModel {
            frame_ready: false,
            line_cycles: self.line_cycles.saturating_add(cycles),
            ..self
        }).ran(b)
    }
}

pub open spec fn blank_ppu() -> PpuModel {
    PpuModel {
        line: 0,
        line_cycles: 0,
        frame: Seq::new((WIDTH * HEIGHT) as nat, |i: int| 0u16),
        frame_ready: false,
        bg2x: 0,
        bg2y: 0,
        bg3x: 0,
        bg3y: 0,
        hblank_fired: false,
    }
}

impl Default for Ppu {
    fn default() -> (r: Self)
        ensures
            r@ == blank_ppu(),
            r@.wf(),
    {
        Self::new()
    }
}

impl Ppu {
    pub fn new() -> (r: Self)
        ensures
            r@ == blank_ppu(),
            r@.wf(),
    {
        let frame: Vec<u16> = vec![0u16; WIDTH * HEIGHT];
        assert(frame@ =~= Seq::new((WIDTH * HEIGHT) as nat, |i: int| 0u16));
        Ppu {
            line: 0,
            line_cycles: 0,
            frame,
            frame_ready: false,
            bg2x: 0,
            bg2y: 0,
            bg3x: 0,
            bg3y: 0,
            hblank_fired: false,
        }
    }

    /// Whether HBlank already happened on this line, from the cycle count.
    pub fn sync_hblank_from_cycles(&mut self)
        ensures
            final(self)@ == (PpuModel {
                hblank_fired: old(self)@.line_cycles >= HBLANK_CYCLE,
                ..old(self)@
            }),
    {
        self.hblank_fired = self.line_cycles >= HBLANK_CYCLE;
    }

    /// Latches the affine reference points (games wrote BG2X/Y etc.).
    pub fn latch_affine_from_bus(&mut self, bus: &mut Bus)
        requires
            old(bus)@.wf(),
        ensures
            (final(self)@, final(bus)@) == old(self)@.latched(old(bus)@),
            final(bus)@.wf(),
    {
        reveal(PpuModel::latched);
        self.bg2x = sign_ext_28(bus.read32(0x0400_0028));
        self.bg2y = sign_ext_28(bus.read32(0x0400_002C));
        self.bg3x = sign_ext_28(bus.read32(0x0400_0038));
        self.bg3y = sign_ext_28(bus.read32(0x0400_003C));
    }

    /// Advances by CPU cycles; true if a full frame was completed.
    pub fn step(&mut self, bus: &mut Bus, cycles: u32) -> (r: bool)
        requires
            old(self)@.wf(),
            old(bus)@.wf(),
        ensures
            (final(self)@, final(bus)@) == old(self)@.stepped(old(bus)@, cycles),
            r == final(self)@.frame_ready,
            final(self)@.wf(),
            final(bus)@.wf(),
    {
        reveal(PpuModel::stepped);
        self.frame_ready = false;
        self.line_cycles = self.line_cycles.saturating_add(cycles);
        let ghost goal = self@.ran(bus@);
        loop
            invariant
                self@.wf(),
                bus@.wf(),
                goal == old(self)@.stepped(old(bus)@, cycles),
                self@.ran(bus@) == goal,
            decreases self.line_cycles,
        {
            if !self.hblank_fired && self.line_cycles >= HBLANK_CYCLE {
                self.enter_hblank(bus);
            }
            if self.line_cycles < CYCLES_PER_LINE {
                return self.frame_ready;
            }
            self.line_cycles = self.line_cycles - CYCLES_PER_LINE;
            self.finish_line(bus);
        }
    }

    fn enter_hblank(&mut self, bus: &mut Bus)
        requires
            old(self)@.wf(),
            old(bus)@.wf(),
        ensures
            (final(self)@, final(bus)@) == old(self)@.hblanked(old(bus)@),
            final(self)@.line_cycles == old(self)@.line_cycles,
            final(self)@.wf(),
            final(bus)@.wf(),
    {
        reveal(PpuModel::hblanked);
        if self.line < HEIGHT as u16 {
            let affine = (self.bg2x, self.bg2y, self.bg3x, self.bg3y);
            let line: usize = self.line as usize;
            render_scanline_affine(affine, bus, line, &mut self.frame);
            proof {
                lemma_line_keeps_size(old(bus)@, affine, line as int, old(self).frame@);
            }
        }
        let ds: u16 = bus.dispstat();
        bus.set_dispstat(ds | 2);
        let mut dma = bus.take_dma();
        dma.on_hblank(bus);
        bus.put_dma(dma);
        let ds: u16 = bus.dispstat();
        if ds & 0x10 != 0 {
            raise(bus, IRQ_HBLANK);
        }
        self.hblank_fired = true;
    }

    fn set_status(&self, bus: &mut Bus)
        requires
            old(bus)@.wf(),
        ensures
            final(bus)@ == PpuModel::status_set(self.line, old(bus)@),
            final(bus)@.wf(),
    {
        reveal(PpuModel::status_set);
        bus.set_vcount(self.line);
        let was: u16 = bus.dispstat();
        // new line: clear vblank + hblank
        let mut ds: u16 = (was & !3) | (if self.line >= HEIGHT as u16 {
            1
        } else {
            0
        });
        if self.line == (ds >> 8) & 0xFF {
            if ds & 0x20 != 0 {
                raise(bus, IRQ_VCOUNTER);
            }
            ds = ds | 4;
        }
        bus.set_dispstat(ds);
    }

    fn enter_vblank(bus: &mut Bus)
        requires
            old(bus)@.wf(),
        ensures
            final(bus)@ == PpuModel::vblanked(old(bus)@),
            final(bus)@.wf(),
    {
        reveal(PpuModel::vblanked);
        raise(bus, IRQ_VBLANK);
        let mut dma = bus.take_dma();
        dma.on_vblank(bus);
        bus.put_dma(dma);
    }

    fn advance_affine(&mut self, bus: &mut Bus)
        requires
            old(bus)@.wf(),
        ensures
            (final(self)@, final(bus)@) == old(self)@.advanced(old(bus)@),
            final(bus)@.wf(),
    {
        reveal(PpuModel::advanced);
        let compat: bool = bus.is_affine_compat();
        let pb2: i32 = bus.read16(0x0400_0022) as i16 as i32;
        let pd2: i32 = bus.read16(0x0400_0026) as i16 as i32;
        let pb3: i32 = bus.read16(0x0400_0032) as i16 as i32;
        let pd3: i32 = bus.read16(0x0400_0036) as i16 as i32;
        let pa2: i32 = if compat {
            bus.read16(0x0400_0020) as i16 as i32
        } else {
            0u16 as i16 as i32
        };
        let pa3: i32 = if compat {
            bus.read16(0x0400_0030) as i16 as i32
        } else {
            0u16 as i16 as i32
        };
        let (x2, y2) = steps_down(compat, pa2, pb2, pd2);
        let (x3, y3) = steps_down(compat, pa3, pb3, pd3);
        self.bg2x = self.bg2x.wrapping_add(x2);
        self.bg2y = self.bg2y.wrapping_add(y2);
        self.bg3x = self.bg3x.wrapping_add(x3);
        self.bg3y = self.bg3y.wrapping_add(y3);
    }

    fn finish_line(&mut self, bus: &mut Bus)
        requires
            old(self)@.wf(),
            old(bus)@.wf(),
        ensures
            (final(self)@, final(bus)@) == old(self)@.line_finished(old(bus)@),
            final(self)@.line_cycles == old(self)@.line_cycles,
            final(self)@.wf(),
            final(bus)@.wf(),
    {
        reveal(PpuModel::line_finished);
        reveal(PpuModel::latched);
        reveal(PpuModel::advanced);
        let last: u16 = self.line;
        self.line = last.wrapping_add(1);
        if self.line >= LINES_PER_FRAME as u16 {
            self.line = 0;
            self.frame_ready = true;
            self.latch_affine_from_bus(bus);
        }
        self.set_status(bus);
        if last == HEIGHT as u16 {
            Self::enter_vblank(bus);
        }
        if last < HEIGHT as u16 {
            self.advance_affine(bus);
        }
        self.hblank_fired = false;
    }
}

proof fn lemma_line_keeps_size(b: BusModel, refs: (i32, i32, i32, i32), y: int, frame: Seq<u16>)
    ensures
        line_drawn(b, refs, y, frame).1.len() == frame.len(),
{
    reveal(line_drawn);
}

} // verus!
