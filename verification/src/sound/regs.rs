//! SOUNDCNT / PSG register snapshots.

use vstd::prelude::*;

verus! {

/// Snapshot of PSG-related IO for one mixer step.
#[verifier::ext_equal]
#[derive(Clone, Copy, Debug)]
pub struct PsgRegs {
    pub sndl: u16,
    pub sndh: u16,
    pub sndx: u16,
    /// SOUNDBIAS: bits 0-9 bias level, typically 0x200.
    pub bias: u16,
    pub ch1_l: u16,
    pub ch1_h: u16,
    pub ch1_x: u16,
    pub ch2_l: u16,
    pub ch2_h: u16,
    pub ch3_l: u16,
    pub ch3_h: u16,
    pub ch3_x: u16,
    pub ch4_l: u16,
    pub ch4_h: u16,
    pub wave: [u8; 16],
}

/// PSG channel `ch` (0-3) is routed to a speaker; with no routing at all every
/// channel is heard.
pub open spec fn routed(sndl: u16, ch: u16) -> bool {
    sndl & 0xFF00 == 0 || sndl & (1u16 << ((8 + ch) as u16)) != 0 || sndl & (1u16 << ((12 + ch)
        as u16)) != 0
}

pub fn channel_routed(sndl: u16, ch: u16) -> (r: bool)
    requires
        ch < 4,
    ensures
        r == routed(sndl, ch),
{
    sndl & 0xFF00 == 0 || sndl & (1u16 << (8 + ch)) != 0 || sndl & (1u16 << (12 + ch)) != 0
}

impl PsgRegs {
    /// Some channel is routed and loud: squares and noise have their envelope
    /// volume in bits 12-15 (of CNT_H for channel 1, of CNT_L for 2 and 4), the
    /// wave channel its switch and its volume code.
    pub open spec fn has_signal(self) -> bool {
        &&& self.sndx & 0x80 != 0
        &&& {
            ||| routed(self.sndl, 0) && (self.ch1_h >> 12) & 0xF != 0
            ||| routed(self.sndl, 1) && (self.ch2_l >> 12) & 0xF != 0
            ||| routed(self.sndl, 2) && self.ch3_l & 0x80 != 0 && (self.ch3_h >> 5) & 3 != 0
            ||| routed(self.sndl, 3) && (self.ch4_l >> 12) & 0xF != 0
        }
    }

    /// Right shift of the PSG mix: 25%, 50%, 100%; the fourth code is 25%.
    pub open spec fn psg_shift(self) -> u32 {
        if self.sndh & 3 == 1 {
            1
        } else if self.sndh & 3 == 2 {
            0
        } else {
            2
        }
    }

    pub fn master_enable(&self) -> (r: bool)
        ensures
            r == (self.sndx & 0x80 != 0),
    {
        self.sndx & 0x80 != 0
    }

    /// FIFO A destination enables (bits 8-9).
    pub fn fifo_a_enable(&self) -> (r: bool)
        ensures
            r == ((self.sndh >> 8) & 3 != 0),
    {
        (self.sndh >> 8) & 3 != 0
    }

    /// FIFO B destination enables (bits 12-13).
    pub fn fifo_b_enable(&self) -> (r: bool)
        ensures
            r == ((self.sndh >> 12) & 3 != 0),
    {
        (self.sndh >> 12) & 3 != 0
    }

    pub fn fifo_a_left(&self) -> (r: bool)
        ensures
            r == (self.sndh & 0x200 != 0),
    {
        self.sndh & 0x200 != 0
    }

    pub fn fifo_a_right(&self) -> (r: bool)
        ensures
            r == (self.sndh & 0x100 != 0),
    {
        self.sndh & 0x100 != 0
    }

    pub fn fifo_b_left(&self) -> (r: bool)
        ensures
            r == (self.sndh & 0x2000 != 0),
    {
        self.sndh & 0x2000 != 0
    }

    pub fn fifo_b_right(&self) -> (r: bool)
        ensures
            r == (self.sndh & 0x1000 != 0),
    {
        self.sndh & 0x1000 != 0
    }

    /// SOUNDCNT_H bit 10: Timer 1 clocks FIFO A, else Timer 0.
    pub fn fifo_a_timer1(&self) -> (r: bool)
        ensures
            r == (self.sndh & 0x400 != 0),
    {
        self.sndh & 0x400 != 0
    }

    /// SOUNDCNT_H bit 14: Timer 1 clocks FIFO B, else Timer 0.
    pub fn fifo_b_timer1(&self) -> (r: bool)
        ensures
            r == (self.sndh & 0x4000 != 0),
    {
        self.sndh & 0x4000 != 0
    }

    /// DMA-A volume: bit 2 clear is 50%, set is 100%.
    pub fn fifo_a_full_vol(&self) -> (r: bool)
        ensures
            r == (self.sndh & 4 != 0),
    {
        self.sndh & 4 != 0
    }

    /// DMA-B volume: bit 3.
    pub fn fifo_b_full_vol(&self) -> (r: bool)
        ensures
            r == (self.sndh & 8 != 0),
    {
        self.sndh & 8 != 0
    }

    /// PSG master volume shift from SOUNDCNT_H bits 0-1.
    pub fn psg_volume_shift(&self) -> (r: u32)
        ensures
            r == self.psg_shift(),
            r <= 2,
    {
        if self.sndh & 3 == 1 {
            1
        } else if self.sndh & 3 == 2 {
            0
        } else {
            2
        }
    }

    /// True when any PSG channel could produce sound from registers alone.
    pub fn psg_has_signal(&self) -> (r: bool)
        ensures
            r == self.has_signal(),
    {
        if !self.master_enable() {
            return false;
        }
        (channel_routed(self.sndl, 0) && (self.ch1_h >> 12) & 0xF != 0) || (channel_routed(
            self.sndl,
            1,
        ) && (self.ch2_l >> 12) & 0xF != 0) || (channel_routed(self.sndl, 2) && self.ch3_l & 0x80
            != 0 && (self.ch3_h >> 5) & 3 != 0) || (channel_routed(self.sndl, 3) && (self.ch4_l
            >> 12) & 0xF != 0)
    }
}

impl Default for PsgRegs {
    fn default() -> (r: Self)
        ensures
            r == (PsgRegs {
                sndl: 0,
                sndh: 0,
                sndx: 0,
                bias: 0,
                ch1_l: 0,
                ch1_h: 0,
                ch1_x: 0,
                ch2_l: 0,
                ch2_h: 0,
                ch3_l: 0,
                ch3_h: 0,
                ch3_x: 0,
                ch4_l: 0,
                ch4_h: 0,
                wave: r.wave,
            }),
            forall|i: int| 0 <= i < 16 ==> #[trigger] r.wave[i] == 0,
    {
        PsgRegs {
            sndl: 0,
            sndh: 0,
            sndx: 0,
            bias: 0,
            ch1_l: 0,
            ch1_h: 0,
            ch1_x: 0,
            ch2_l: 0,
            ch2_h: 0,
            ch3_l: 0,
            ch3_h: 0,
            ch3_x: 0,
            ch4_l: 0,
            ch4_h: 0,
            wave: [0;16],
        }
    }
}

} // verus!
