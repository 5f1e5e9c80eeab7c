//! Cycle-step mixer: one output frame per FIFO timer tick at game rate.

use crate::sound::fifo::{empty_fifo, Fifo, FifoModel};
use crate::sound::psg::{toward_zero, Psg};
use crate::sound::regs::PsgRegs;
use vstd::arithmetic::div_mod::lemma_div_is_ordered;
use vstd::prelude::*;

verus! {

pub const GBA_CLOCK: u32 = 16_777_216;

pub const PSG_BASE_RATE: u32 = 32768;

/// Cycles per PSG sample.
pub const CPS_PSG: u32 = 512;

/// Frames kept of the raw FIFO traces.
pub const TRACE_CAP: usize = 300_000;

/// Frames emitted in one step at most.
pub const BURST_CAP: u32 = 4096;

#[verifier::ext_equal]
pub struct MixerModel {
    pub fifo_a: FifoModel,
    pub fifo_b: FifoModel,
    pub psg: Psg,
    pub cycle_accum_out: u32,
    pub cps_out: u32,
    pub cycle_accum_psg: u32,
    pub cycle_a: u32,
    pub cycle_b: u32,
    pub cps_a: u32,
    pub cps_b: u32,
    pub stream_rate: u32,
    pub samples_out: u64,
    pub peak_abs: i16,
    pub prev_en_a: bool,
    pub prev_en_b: bool,
    pub timer_on_a: bool,
    pub timer_on_b: bool,
    pub fifo_locked: bool,
    pub ds_mode: u8,
    pub trace_a: Seq<i8>,
    pub trace_b: Seq<i8>,
    pub scratch: Seq<i16>,
}

/// Timer prescaler of a control register.
pub open spec fn prescale(ctrl: u16) -> u32 {
    if ctrl & 3 == 0 {
        1
    } else if ctrl & 3 == 1 {
        64
    } else if ctrl & 3 == 2 {
        256
    } else {
        1024
    }
}

/// Cycles per overflow, overflow rate in Hz, and whether the timer runs.
pub open spec fn cps_rate(reload: u16, ctrl: u16) -> (u32, u32, bool) {
    if ctrl & 0x80 == 0 {
        (0, 0, false)
    } else {
        let cyc = (0x1_0000 - reload) * prescale(ctrl);
        let r = GBA_CLOCK as int / cyc;
        (
            cyc as u32,
            if r < 1 {
                1
            } else {
                r as u32
            },
            true,
        )
    }
}

pub fn timer_cps_rate(reload: u16, ctrl: u16) -> (r: (u32, u32, bool))
    ensures
        r == cps_rate(reload, ctrl),
        r.2 ==> 1 <= r.0 <= 0x400_0000,
{
    if ctrl & 0x80 == 0 {
        return (0, 0, false);
    }
    let period: u32 = 0x1_0000 - reload as u32;
    let presc: u32 = if ctrl & 3 == 0 {
        1
    } else if ctrl & 3 == 1 {
        64
    } else if ctrl & 3 == 2 {
        256
    } else {
        1024
    };
    assert(1 <= period * presc <= 0x400_0000) by (nonlinear_arith)
        requires
            1 <= period <= 0x1_0000,
            1 <= presc <= 1024,
    ;
    let cyc: u32 = period * presc;
    let f: u32 = GBA_CLOCK / cyc;
    (
        cyc,
        if f < 1 {
            1
        } else {
            f
        },
        true,
    )
}

/// A FIFO sample on the 10-bit DAC: four steps per unit at full volume, two
/// at half.
pub open spec fn amp(hold: i8, full: bool) -> int {
    if full {
        hold * 4
    } else {
        hold * 2
    }
}

/// The DAC level around its bias, in host units. Above the top it folds back
/// at a quarter; below the bottom it stays there.
#[verifier::opaque]
pub open spec fn biased(sample: int) -> int {
    let s = sample + 0x200;
    let folded = if s > 0x3FF {
        let f = 0x3FF - (s - 0x3FF) / 4;
        if f < 0 {
            0
        } else {
            f
        }
    } else if s < 0 {
        0
    } else {
        s
    };
    (folded - 0x200) * 40
}

/// The sum that one speaker gets before the bias.
pub open spec fn speaker(
    regs: PsgRegs,
    en_a: bool,
    hold_a: i8,
    to_a: bool,
    en_b: bool,
    hold_b: i8,
    to_b: bool,
    psg: i16,
) -> int {
    (if en_a && to_a {
        amp(hold_a, regs.sndh & 4 != 0)
    } else {
        0
    }) + (if en_b && to_b {
        amp(hold_b, regs.sndh & 8 != 0)
    } else {
        0
    }) + ((psg as i32) >> regs.psg_shift())
}

/// One stereo frame: A and B go where SOUNDCNT_H sends them, the PSG to both
/// sides; with the master switch off there is silence.
#[verifier::opaque]
pub open spec fn mixed(
    regs: PsgRegs,
    master: bool,
    en_a: bool,
    hold_a: i8,
    en_b: bool,
    hold_b: i8,
    psg: i16,
) -> (i16, i16) {
    if !master {
        (0, 0)
    } else {
        (
            biased(
                speaker(
                    regs,
                    en_a,
                    hold_a,
                    regs.sndh & 0x200 != 0,
                    en_b,
                    hold_b,
                    regs.sndh & 0x2000 != 0,
                    psg,
                ),
            ) as i16,
            biased(
                speaker(
                    regs,
                    en_a,
                    hold_a,
                    regs.sndh & 0x100 != 0,
                    en_b,
                    hold_b,
                    regs.sndh & 0x1000 != 0,
                    psg,
                ),
            ) as i16,
        )
    }
}

pub fn fifo_amp(hold: i8, full: bool) -> (r: i32)
    ensures
        r == amp(hold, full),
        -512 <= r <= 508,
{
    if full {
        (hold as i32) * 4
    } else {
        (hold as i32) * 2
    }
}

pub fn bias_out(sample: i32) -> (r: i16)
    requires
        sample + 0x200 <= i32::MAX,
    ensures
        r == biased(sample as int),
        -20480 <= r <= 20440,
{
    reveal(biased);
    let s: i32 = sample + 0x200;
    let folded: i32 = if s > 0x3FF {
        let f: i32 = 0x3FF - (s - 0x3FF) / 4;
        if f < 0 {
            0
        } else {
            f
        }
    } else if s < 0 {
        0
    } else {
        s
    };
    ((folded - 0x200) * 40) as i16
}

proof fn lemma_shift_bounds(p: i32, k: u32)
    requires
        k <= 2,
        -32768 <= p <= 32767,
    ensures
        -32768 <= p >> k <= 32767,
        p == 0 ==> p >> k == 0,
{
    assert(-32768 <= p >> k && p >> k <= 32767 && (p == 0 ==> p >> k == 0)) by (bit_vector)
        requires
            k <= 2,
            -32768 <= p && p <= 32767,
    ;
}

pub fn mix_sample(
    regs: &PsgRegs,
    master: bool,
    en_a: bool,
    hold_a: i8,
    en_b: bool,
    hold_b: i8,
    psg: i16,
) -> (r: (i16, i16))
    ensures
        r == mixed(*regs, master, en_a, hold_a, en_b, hold_b, psg),
        -20480 <= r.0 <= 20440,
        -20480 <= r.1 <= 20440,
{
    reveal(mixed);
    if !master {
        return (0, 0);
    }
    let va: i32 = fifo_amp(hold_a, regs.fifo_a_full_vol());
    let vb: i32 = fifo_amp(hold_b, regs.fifo_b_full_vol());
    let left_a: i32 = if en_a && regs.fifo_a_left() { va } else { 0 };
    let left_b: i32 = if en_b && regs.fifo_b_left() { vb } else { 0 };
    let right_a: i32 = if en_a && regs.fifo_a_right() { va } else { 0 };
    let right_b: i32 = if en_b && regs.fifo_b_right() { vb } else { 0 };
    let k: u32 = regs.psg_volume_shift();
    let wide: i32 = psg as i32;
    proof {
        lemma_shift_bounds(wide, k);
    }
    let p: i32 = wide >> k;
    (bias_out(left_a + left_b + p), bias_out(right_a + right_b + p))
}

/// The PSG run over a cycle count: one sample every 512 cycles, the last one
/// kept (silence when none fell in).
pub open spec fn psg_run(p: Psg, accum: int, regs: PsgRegs, last: int) -> (Psg, int, int)
    decreases accum,
{
    if accum < CPS_PSG {
        (p, accum, last)
    } else {
        let (q, v) = p.sampled(regs, PSG_BASE_RATE);
        psg_run(q, accum - CPS_PSG, regs, v)
    }
}

/// Frames on a free-running output clock: (accumulator, frames emitted).
pub open spec fn clocked_out(accum: u32, left: u32, cps: u32) -> (u32, nat)
    decreases left,
{
    if left == 0 {
        (accum, 0)
    } else {
        let gap: u32 = if cps > accum {
            (cps - accum) as u32
        } else {
            1
        };
        let step: u32 = if left < gap {
            left
        } else {
            gap
        };
        let a = accum.wrapping_add(step);
        if a >= cps {
            let (b, n) = clocked_out((a - cps) as u32, (left - step) as u32, cps);
            (b, n + 1)
        } else {
            clocked_out(a, (left - step) as u32, cps)
        }
    }
}

/// `n` copies of one stereo frame.
pub open spec fn frames_of(l: i16, r: i16, n: nat) -> Seq<i16> {
    Seq::new(
        2 * n,
        |i: int|
            if i % 2 == 0 {
                l
            } else {
                r
            },
    )
}

/// Share of `total` events that falls in slot `i` of `n`.
pub open spec fn share(total: u32, i: int, n: int) -> int {
    ((i + 1) * total) / n - (i * total) / n
}

pub open spec fn magnitude(v: i16) -> int {
    if v < 0 {
        -v
    } else {
        v as int
    }
}

impl MixerModel {
    pub open spec fn wf(self) -> bool {
        &&& self.fifo_a.wf()
        &&& self.fifo_b.wf()
        &&& self.psg.wf()
        &&& self.trace_a.len() == self.trace_b.len()
    }

    /// Sample clocks as the timers stand now. The output runs at the faster
    /// FIFO; once a FIFO has set the rate, stopping its timer keeps it.
    #[verifier::opaque]
    pub open spec fn rated(self, regs: PsgRegs, reload: [u16; 4], t0: u16, t1: u16) -> MixerModel {
        let (cps_a, _ra, on_a) = if regs.sndh & 0x400 != 0 {
            cps_rate(reload[1], t1)
        } else {
            cps_rate(reload[0], t0)
        };
        let (cps_b, _rb, on_b) = if regs.sndh & 0x4000 != 0 {
            cps_rate(reload[1], t1)
        } else {
            cps_rate(reload[0], t0)
        };
        let s = MixerModel {
            timer_on_a: on_a,
            timer_on_b: on_b,
            cps_a: if on_a {
                cps_a
            } else {
                self.cps_a
            },
            cps_b: if on_b {
                cps_b
            } else {
                self.cps_b
            },
            fifo_locked: self.fifo_locked || on_a || on_b,
            ..self
        };
        if !on_a && !on_b && (self.fifo_locked || !regs.has_signal()) {
            s
        } else {
            let tick: u32 = if on_a && on_b {
                if cps_a <= cps_b {
                    cps_a
                } else {
                    cps_b
                }
            } else if on_a {
                cps_a
            } else if on_b {
                cps_b
            } else {
                CPS_PSG
            };
            let hz = GBA_CLOCK / tick;
            MixerModel {
                cps_out: tick,
                stream_rate: if hz < 1 {
                    1
                } else {
                    hz
                },
                ..s
            }
        }
    }

    /// A FIFO that was just switched off is drained; one that is off is silent.
    #[verifier::opaque]
    pub open spec fn gated(self, regs: PsgRegs) -> MixerModel {
        let en_a = (regs.sndh >> 8) & 3 != 0;
        let en_b = (regs.sndh >> 12) & 3 != 0;
        MixerModel {
            fifo_a: if en_a {
                self.fifo_a
            } else if self.prev_en_a {
                self.fifo_a.cleared().unheld()
            } else {
                self.fifo_a.unheld()
            },
            fifo_b: if en_b {
                self.fifo_b
            } else if self.prev_en_b {
                self.fifo_b.cleared().unheld()
            } else {
                self.fifo_b.unheld()
            },
            prev_en_a: en_a,
            prev_en_b: en_b,
            ..self
        }
    }

    /// Frame `i` of `n`: both FIFOs pop their share, then the frame is mixed.
    #[verifier::opaque]
    pub open spec fn frame(
        self,
        regs: PsgRegs,
        i: int,
        n: int,
        ov_a: u32,
        ov_b: u32,
        psg: i16,
    ) -> MixerModel {
        let fa = self.fifo_a.popped_n(share(ov_a, i, n) as nat);
        let fb = self.fifo_b.popped_n(share(ov_b, i, n) as nat);
        let (l, r) = mixed(
            regs,
            regs.sndx & 0x80 != 0,
            (regs.sndh >> 8) & 3 != 0 && fa.hold_valid && self.ds_mode & 1 != 0,
            fa.hold,
            (regs.sndh >> 12) & 3 != 0 && fb.hold_valid && self.ds_mode & 2 != 0,
            fb.hold,
            psg,
        );
        let p = if magnitude(l) >= magnitude(r) {
            magnitude(l)
        } else {
            magnitude(r)
        };
        let keep = self.trace_a.len() < TRACE_CAP;
        MixerModel {
            fifo_a: fa,
            fifo_b: fb,
            trace_a: if keep {
                self.trace_a.push(fa.hold)
            } else {
                self.trace_a
            },
            trace_b: if keep {
                self.trace_b.push(fb.hold)
            } else {
                self.trace_b
            },
            peak_abs: if p > self.peak_abs {
                p as i16
            } else {
                self.peak_abs
            },
            scratch: self.scratch.push(l).push(r),
            samples_out: self.samples_out.wrapping_add(1),
            ..self
        }
    }

    /// The first `k` of `n` frames.
    pub open spec fn frames(
        self,
        regs: PsgRegs,
        k: nat,
        n: int,
        ov_a: u32,
        ov_b: u32,
        psg: i16,
    ) -> MixerModel
        decreases k,
    {
        if k == 0 {
            self
        } else {
            self.frames(regs, (k - 1) as nat, n, ov_a, ov_b, psg).frame(
                regs,
                k - 1,
                n,
                ov_a,
                ov_b,
                psg,
            )
        }
    }

    /// Overflows that clock FIFO A in this slice.
    pub open spec fn pops_a(self, regs: PsgRegs, ov: [u32; 4]) -> u32 {
        if self.prev_en_a && self.timer_on_a {
            if regs.sndh & 0x400 != 0 {
                ov[1]
            } else {
                ov[0]
            }
        } else {
            0
        }
    }

    /// Overflows that clock FIFO B in this slice.
    pub open spec fn pops_b(self, regs: PsgRegs, ov: [u32; 4]) -> u32 {
        if self.prev_en_b && self.timer_on_b {
            if regs.sndh & 0x4000 != 0 {
                ov[1]
            } else {
                ov[0]
            }
        } else {
            0
        }
    }

    /// The PSG run over the slice, and its last sample.
    pub open spec fn psg_ran(self, cycles: u32, regs: PsgRegs) -> (MixerModel, i16) {
        let (psg, accum, v) = psg_run(
            self.psg,
            self.cycle_accum_psg.wrapping_add(cycles) as int,
            regs,
            0,
        );
        (MixerModel { psg, cycle_accum_psg: accum as u32, ..self }, v as i16)
    }

    /// Frames on the free-running output clock.
    pub open spec fn ran_free(self, cycles: u32, l: i16, r: i16) -> MixerModel {
        let cps: u32 = if self.cps_out < 1 {
            1
        } else {
            self.cps_out
        };
        let (acc, n) = clocked_out(self.cycle_accum_out, cycles, cps);
        MixerModel {
            cycle_accum_out: acc,
            scratch: frames_of(l, r, n),
            samples_out: self.samples_out.wrapping_add(n as u64),
            ..self
        }
    }

    /// The frames of a slice: one per overflow of the faster FIFO; without a
    /// FIFO clock, the PSG at its own rate.
    pub open spec fn produced(self, cycles: u32, regs: PsgRegs, ov: [u32; 4]) -> MixerModel {
        if !self.timer_on_a && !self.timer_on_b && !regs.has_signal() {
            self
        } else {
            let (b, v) = self.psg_ran(cycles, regs);
            let (ov_a, ov_b) = (self.pops_a(regs, ov), self.pops_b(regs, ov));
            let top: u32 = if ov_a >= ov_b {
                ov_a
            } else {
                ov_b
            };
            if top > 0 {
                let n: u32 = if top <= BURST_CAP {
                    top
                } else {
                    BURST_CAP
                };
                b.frames(regs, n as nat, n as int, ov_a, ov_b, v)
            } else if regs.has_signal() && !(self.prev_en_a && self.timer_on_a) && !(self.prev_en_b
                && self.timer_on_b) {
                let (l, r) = mixed(regs, regs.sndx & 0x80 != 0, false, 0, false, 0, v);
                b.ran_free(cycles, l, r)
            } else {
                b
            }
        }
    }

    /// One slice of `cycles`, in which the timers overflowed `ov` times.
    pub open spec fn stepped(
        self,
        cycles: u32,
        regs: PsgRegs,
        reload: [u16; 4],
        t0: u16,
        t1: u16,
        ov: [u32; 4],
    ) -> MixerModel {
        MixerModel { scratch: Seq::empty(), ..self }.rated(regs, reload, t0, t1).gated(
            regs,
        ).produced(cycles, regs, ov)
    }
}

pub open spec fn mixer_new(psg: Psg) -> MixerModel {
    MixerModel {
        fifo_a: empty_fifo(),
        fifo_b: empty_fifo(),
        psg,
        cycle_accum_out: 0,
        cps_out: 512,
        cycle_accum_psg: 0,
        cycle_a: 0,
        cycle_b: 0,
        cps_a: 512,
        cps_b: 512,
        stream_rate: 32768,
        samples_out: 0,
        peak_abs: 0,
        prev_en_a: false,
        prev_en_b: false,
        timer_on_a: false,
        timer_on_b: false,
        fifo_locked: false,
        ds_mode: 3,
        trace_a: Seq::empty(),
        trace_b: Seq::empty(),
        scratch: Seq::empty(),
    }
}

#[derive(Debug)]
pub struct Mixer {
    pub fifo_a: Fifo,
    pub fifo_b: Fifo,
    pub psg: Psg,
    pub cycle_accum_out: u32,
    pub cps_out: u32,
    pub cycle_accum_psg: u32,
    pub cycle_a: u32,
    pub cycle_b: u32,
    pub cps_a: u32,
    pub cps_b: u32,
    pub stream_rate: u32,
    pub samples_out: u64,
    pub peak_abs: i16,
    pub prev_en_a: bool,
    pub prev_en_b: bool,
    pub timer_on_a: bool,
    pub timer_on_b: bool,
    /// Once a FIFO sample-timer has run, keep that rate.
    pub fifo_locked: bool,
    /// FIFOs that are heard: bit 0 is A, bit 1 is B.
    pub ds_mode: u8,
    /// Raw FIFO holds at the sample clock (for A/B diagnostics).
    pub trace_a: Vec<i8>,
    pub trace_b: Vec<i8>,
    pub scratch: Vec<i16>,
}

impl View for Mixer {
    type V = MixerModel;

    open spec fn view(&self) -> MixerModel {
        MixerModel {
            fifo_a: self.fifo_a@,
            fifo_b: self.fifo_b@,
            psg: self.psg,
            cycle_accum_out: self.cycle_accum_out,
            cps_out: self.cps_out,
            cycle_accum_psg: self.cycle_accum_psg,
            cycle_a: self.cycle_a,
            cycle_b: self.cycle_b,
            cps_a: self.cps_a,
            cps_b: self.cps_b,
            stream_rate: self.stream_rate,
            samples_out: self.samples_out,
            peak_abs: self.peak_abs,
            prev_en_a: self.prev_en_a,
            prev_en_b: self.prev_en_b,
            timer_on_a: self.timer_on_a,
            timer_on_b: self.timer_on_b,
            fifo_locked: self.fifo_locked,
            ds_mode: self.ds_mode,
            trace_a: self.trace_a@,
            trace_b: self.trace_b@,
            scratch: self.scratch@,
        }
    }
}

/// FIFO A is heard in a DirectSound mode.
pub fn ds_want_a(mode: u8) -> (r: bool)
    ensures
        r == (mode & 1 != 0),
{
    mode & 1 != 0
}

/// FIFO B is heard in a DirectSound mode.
pub fn ds_want_b(mode: u8) -> (r: bool)
    ensures
        r == (mode & 2 != 0),
{
    mode & 2 != 0
}

fn abs_i16(v: i16) -> (r: i16)
    requires
        v > -32768,
    ensures
        r == magnitude(v),
{
    if v < 0 {
        -v
    } else {
        v
    }
}

impl Mixer {
    pub fn new() -> (r: Self)
        ensures
            r.psg.fresh(),
            r@ == mixer_new(r.psg),
            r@.wf(),
    {
        Mixer {
            fifo_a: Fifo::new(),
            fifo_b: Fifo::new(),
            psg: Psg::new(),
            cycle_accum_out: 0,
            cps_out: 512,
            cycle_accum_psg: 0,
            cycle_a: 0,
            cycle_b: 0,
            cps_a: 512,
            cps_b: 512,
            stream_rate: 32768,
            samples_out: 0,
            peak_abs: 0,
            prev_en_a: false,
            prev_en_b: false,
            timer_on_a: false,
            timer_on_b: false,
            fifo_locked: false,
            ds_mode: 3,
            trace_a: Vec::new(),
            trace_b: Vec::new(),
            scratch: Vec::new(),
        }
    }

    pub fn peak_abs(&self) -> (r: i16)
        ensures
            r == self@.peak_abs,
    {
        self.peak_abs
    }

    pub fn samples_from_fifo(&self) -> (r: u64)
        ensures
            r == self@.fifo_a.samples_consumed.wrapping_add(self@.fifo_b.samples_consumed),
    {
        self.fifo_a.samples_consumed.wrapping_add(self.fifo_b.samples_consumed)
    }

    fn update_rates(&mut self, regs: &PsgRegs, reload: [u16; 4], t0: u16, t1: u16)
        requires
            old(self)@.wf(),
        ensures
            final(self)@ == old(self)@.rated(*regs, reload, t0, t1),
            final(self)@.scratch == old(self)@.scratch,
            final(self)@.wf(),
    {
        reveal(MixerModel::rated);
        let (cps_a, _ra, on_a) = if regs.fifo_a_timer1() {
            timer_cps_rate(reload[1], t1)
        } else {
            timer_cps_rate(reload[0], t0)
        };
        let (cps_b, _rb, on_b) = if regs.fifo_b_timer1() {
            timer_cps_rate(reload[1], t1)
        } else {
            timer_cps_rate(reload[0], t0)
        };
        self.timer_on_a = on_a;
        self.timer_on_b = on_b;
        if on_a {
            self.cps_a = cps_a;
        }
        if on_b {
            self.cps_b = cps_b;
        }
        let was: bool = self.fifo_locked;
        if on_a || on_b {
            self.fifo_locked = true;
        }
        let tick: u32 = if on_a && on_b {
            if cps_a <= cps_b {
                cps_a
            } else {
                cps_b
            }
        } else if on_a {
            cps_a
        } else if on_b {
            cps_b
        } else if was {
            return;
        } else if regs.psg_has_signal() {
            CPS_PSG
        } else {
            return;
        };
        self.cps_out = tick;
        let hz: u32 = GBA_CLOCK / tick;
        self.stream_rate = if hz < 1 {
            1
        } else {
            hz
        };
    }

    fn gate(&mut self, regs: &PsgRegs)
        requires
            old(self)@.wf(),
        ensures
            final(self)@ == old(self)@.gated(*regs),
            final(self)@.scratch == old(self)@.scratch,
            final(self)@.wf(),
    {
        reveal(MixerModel::gated);
        let en_a: bool = regs.fifo_a_enable();
        let en_b: bool = regs.fifo_b_enable();
        if self.prev_en_a && !en_a {
            self.fifo_a.clear();
        }
        if self.prev_en_b && !en_b {
            self.fifo_b.clear();
        }
        self.prev_en_a = en_a;
        self.prev_en_b = en_b;
        if !en_a {
            self.fifo_a.invalidate_hold();
        }
        if !en_b {
            self.fifo_b.invalidate_hold();
        }
    }

    fn run_psg(&mut self, cycles: u32, regs: &PsgRegs) -> (v: i16)
        requires
            old(self)@.wf(),
        ensures
            (final(self)@, v) == old(self)@.psg_ran(cycles, *regs),
            final(self)@.scratch == old(self)@.scratch,
            final(self)@.wf(),
    {
        let mut accum: u32 = self.cycle_accum_psg.wrapping_add(cycles);
        let mut v: i16 = 0;
        let ghost start = accum as int;
        while accum >= CPS_PSG
            invariant
                self@ == (MixerModel { psg: self.psg, ..old(self)@ }),
                self.psg.wf(),
                psg_run(self.psg, accum as int, *regs, v as int) == psg_run(
                    old(self)@.psg,
                    start,
                    *regs,
                    0,
                ),
            decreases accum,
        {
            accum = accum - CPS_PSG;
            v = self.psg.sample(regs, PSG_BASE_RATE);
        }
        self.cycle_accum_psg = accum;
        v
    }

    fn emit_frame(&mut self, regs: &PsgRegs, i: u32, n: u32, ov_a: u32, ov_b: u32, psg: i16)
        requires
            old(self)@.wf(),
            i < n <= BURST_CAP,
        ensures
            final(self)@ == old(self)@.frame(*regs, i as int, n as int, ov_a, ov_b, psg),
            final(self)@.wf(),
    {
        reveal(MixerModel::frame);
        proof {
            lemma_share_nonneg(ov_a, i as int, n as int);
            lemma_share_nonneg(ov_b, i as int, n as int);
            lemma_product_bound(i as int, ov_a);
            lemma_product_bound(i as int, ov_b);
            lemma_product_bound(i + 1, ov_a);
            lemma_product_bound(i + 1, ov_b);
        }
        let (w, m, a, b) = (i as u64, n as u64, ov_a as u64, ov_b as u64);
        let pa: u64 = ((w + 1) * a) / m - (w * a) / m;
        let pb: u64 = ((w + 1) * b) / m - (w * b) / m;
        self.fifo_a.pop_times(pa);
        self.fifo_b.pop_times(pb);
        if self.trace_a.len() < TRACE_CAP {
            self.trace_a.push(self.fifo_a.hold);
            self.trace_b.push(self.fifo_b.hold);
        }
        let use_a: bool = regs.fifo_a_enable() && self.fifo_a.hold_valid && ds_want_a(self.ds_mode);
        let use_b: bool = regs.fifo_b_enable() && self.fifo_b.hold_valid && ds_want_b(self.ds_mode);
        let (l, r) = mix_sample(
            regs,
            regs.master_enable(),
            use_a,
            self.fifo_a.hold,
            use_b,
            self.fifo_b.hold,
            psg,
        );
        let al: i16 = abs_i16(l);
        let ar: i16 = abs_i16(r);
        let p: i16 = if al >= ar {
            al
        } else {
            ar
        };
        if p > self.peak_abs {
            self.peak_abs = p;
        }
        self.scratch.push(l);
        self.scratch.push(r);
        self.samples_out = self.samples_out.wrapping_add(1);
    }

    fn emit_burst(&mut self, regs: &PsgRegs, n: u32, ov_a: u32, ov_b: u32, psg: i16)
        requires
            old(self)@.wf(),
            n <= BURST_CAP,
        ensures
            final(self)@ == old(self)@.frames(*regs, n as nat, n as int, ov_a, ov_b, psg),
            final(self)@.wf(),
    {
        let mut i: u32 = 0;
        while i < n
            invariant
                i <= n <= BURST_CAP,
                self@.wf(),
                self@ == old(self)@.frames(*regs, i as nat, n as int, ov_a, ov_b, psg),
            decreases n - i,
        {
            self.emit_frame(regs, i, n, ov_a, ov_b, psg);
            i += 1;
        }
    }

    fn emit_free(&mut self, cycles: u32, l: i16, r: i16)
        requires
            old(self)@.wf(),
            old(self)@.scratch.len() == 0,
        ensures
            final(self)@ == old(self)@.ran_free(cycles, l, r),
            final(self)@.wf(),
    {
        let cps: u32 = if self.cps_out < 1 {
            1
        } else {
            self.cps_out
        };
        let mut left: u32 = cycles;
        let ghost mut n: nat = 0;
        let ghost whole = clocked_out(old(self)@.cycle_accum_out, cycles, cps);
        while left > 0
            invariant
                cps >= 1,
                left <= cycles,
                n + left <= cycles,
                ({
                    let (b, k) = clocked_out(self.cycle_accum_out, left, cps);
                    (b, n + k) == whole
                }),
                self@ == (MixerModel {
                    cycle_accum_out: self.cycle_accum_out,
                    scratch: frames_of(l, r, n),
                    samples_out: old(self)@.samples_out.wrapping_add(n as u64),
                    ..old(self)@
                }),
            decreases left,
        {
            let acc: u32 = self.cycle_accum_out;
            let gap: u32 = if cps > acc {
                cps - acc
            } else {
                1
            };
            let step: u32 = if left < gap {
                left
            } else {
                gap
            };
            self.cycle_accum_out = acc.wrapping_add(step);
            left = left - step;
            if self.cycle_accum_out >= cps {
                self.cycle_accum_out = self.cycle_accum_out - cps;
                self.scratch.push(l);
                self.scratch.push(r);
                self.samples_out = self.samples_out.wrapping_add(1);
                proof {
                    n = n + 1;
                    assert(self.scratch@ =~= frames_of(l, r, n));
                }
            }
        }
    }

    fn produce(&mut self, cycles: u32, regs: &PsgRegs, overflows: [u32; 4])
        requires
            old(self)@.wf(),
            old(self)@.scratch.len() == 0,
        ensures
            final(self)@ == old(self)@.produced(cycles, *regs, overflows),
            final(self)@.wf(),
    {
        let psg_active: bool = regs.psg_has_signal();
        let clock_a: bool = self.prev_en_a && self.timer_on_a;
        let clock_b: bool = self.prev_en_b && self.timer_on_b;
        let ov_a: u32 = if clock_a {
            if regs.fifo_a_timer1() {
                overflows[1]
            } else {
                overflows[0]
            }
        } else {
            0
        };
        let ov_b: u32 = if clock_b {
            if regs.fifo_b_timer1() {
                overflows[1]
            } else {
                overflows[0]
            }
        } else {
            0
        };
        if !self.timer_on_a && !self.timer_on_b && !psg_active {
            return;
        }
        let v: i16 = self.run_psg(cycles, regs);
        let top: u32 = if ov_a >= ov_b {
            ov_a
        } else {
            ov_b
        };
        if top > 0 {
            let n: u32 = if top <= BURST_CAP {
                top
            } else {
                BURST_CAP
            };
            self.emit_burst(regs, n, ov_a, ov_b, v);
            return;
        }
        if psg_active && !clock_a && !clock_b {
            let (l, r) = mix_sample(regs, regs.master_enable(), false, 0, false, 0, v);
            self.emit_free(cycles, l, r);
        }
    }

    pub fn step(
        &mut self,
        cycles: u32,
        regs: &PsgRegs,
        timer_reload: [u16; 4],
        timer0_ctrl: u16,
        timer1_ctrl: u16,
        overflows: [u32; 4],
    )
        requires
            old(self)@.wf(),
        ensures
            final(self)@ == old(self)@.stepped(
                cycles,
                *regs,
                timer_reload,
                timer0_ctrl,
                timer1_ctrl,
                overflows,
            ),
            final(self)@.wf(),
    {
        self.scratch.clear();
        assert(self@ =~= (MixerModel { scratch: Seq::empty(), ..old(self)@ }));
        self.update_rates(regs, timer_reload, timer0_ctrl, timer1_ctrl);
        self.gate(regs);
        self.produce(cycles, regs, overflows);
    }

    pub fn last_batch(&self) -> (r: &[i16])
        ensures
            r@ == self@.scratch,
    {
        self.scratch.as_slice()
    }

    pub fn audio_active(&self) -> (r: bool)
        ensures
            r == (self@.timer_on_a || self@.timer_on_b),
    {
        self.timer_on_a || self.timer_on_b
    }

    pub fn fifo_locked(&self) -> (r: bool)
        ensures
            r == self@.fifo_locked,
    {
        self.fifo_locked
    }
}

impl Default for Mixer {
    fn default() -> (r: Self)
        ensures
            r.psg.fresh(),
            r@ == mixer_new(r.psg),
            r@.wf(),
    {
        Self::new()
    }
}

/// Slow DC blocker: the tracked offset moves by 1/256 of the distance.
pub open spec fn dc_next(dc: i32, x: i16) -> int {
    dc + toward_zero(x - dc, 256)
}

pub fn dc_block(dc: &mut i32, x: i16) -> (r: i16)
    requires
        i32::MIN <= x - *old(dc) <= i32::MAX,
    ensures
        *final(dc) == dc_next(*old(dc), x),
        r == (x - *final(dc)) as i16,
{
    let d: i32 = x as i32 - *dc;
    let q: i32 = if d < 0 {
        -((-(d as i64)) / 256) as i32
    } else {
        d / 256
    };
    *dc = *dc + q;
    (x as i32 - *dc) as i16
}

/// Envelope limiter: fast attack, slow release. Returns the new envelope.
pub open spec fn env_next(env: i32, x: i16) -> int {
    let a = if x < 0 {
        -x
    } else {
        x as int
    };
    if a > env {
        a
    } else {
        (env * 255) / 256
    }
}

pub fn limit_sample_pumps(env: &mut i32, x: i16) -> (r: i16)
    requires
        *old(env) * 255 <= i32::MAX,
    ensures
        *final(env) == env_next(*old(env), x),
        *final(env) <= 10_000 ==> r == (if x < -32767 {
            -32767
        } else {
            x as int
        }),
        *final(env) > 10_000 ==> r == toward_zero(x * 10_000, *final(env) as int),
{
    let y: i32 = x as i32;
    let a: i32 = if y < 0 {
        -y
    } else {
        y
    };
    if a > *env {
        *env = a;
    } else {
        *env = (*env * 255) / 256;
    }
    let e: i32 = *env;
    if e > 10_000 {
        proof {
            lemma_limit(a as int, e as int);
        }
        let m: i32 = (a * 10_000) / e;
        if y < 0 {
            (-m) as i16
        } else {
            m as i16
        }
    } else if y < -32767 {
        -32767
    } else {
        y as i16
    }
}

proof fn lemma_limit(a: int, e: int)
    requires
        0 <= a <= 32768,
        e > 10_000,
    ensures
        0 <= (a * 10_000) / e <= 32767,
        a * 10_000 <= 327_680_000,
{
    assert(a * 10_000 <= 32768 * 10_000);
    assert((a * 10_000) / e <= 32767) by (nonlinear_arith)
        requires
            0 <= a <= 32768,
            e > 10_000,
    ;
    assert((a * 10_000) / e >= 0) by (nonlinear_arith)
        requires
            0 <= a,
            e > 10_000,
    ;
}

proof fn lemma_share_nonneg(total: u32, i: int, n: int)
    requires
        0 <= i,
        0 < n,
    ensures
        share(total, i, n) >= 0,
        (i * total) / n >= 0,
{
    assert(i * total <= (i + 1) * total) by (nonlinear_arith)
        requires
            0 <= total,
    ;
    assert(i * total >= 0) by (nonlinear_arith)
        requires
            0 <= total,
            0 <= i,
    ;
    lemma_div_is_ordered(i * total, (i + 1) * total, n);
    lemma_div_is_ordered(0, i * total, n);
}

proof fn lemma_product_bound(i: int, t: u32)
    requires
        0 <= i <= 4096,
    ensures
        0 <= i * t <= 0x1000_0000_0000,
{
    assert(0 <= i * t <= 4096 * 0x1_0000_0000) by (nonlinear_arith)
        requires
            0 <= i <= 4096,
            0 <= t < 0x1_0000_0000,
    ;
}

/// Events handed out to the first `k` slots.
pub open spec fn shares(total: u32, k: nat, n: int) -> int
    decreases k,
{
    if k == 0 {
        0
    } else {
        shares(total, (k - 1) as nat, n) + share(total, k - 1, n)
    }
}

proof fn lemma_shares(total: u32, k: nat, n: int)
    requires
        n > 0,
    ensures
        shares(total, k, n) == (k * total) / n,
    decreases k,
{
    if k > 0 {
        lemma_shares(total, (k - 1) as nat, n);
    } else {
        assert(0 * total == 0) by (nonlinear_arith);
    }
}

/// No overflow is lost: over all frames of a slice each FIFO pops exactly once
/// per overflow of its timer, however the two rates relate.
pub proof fn law_every_overflow_pops(total: u32, n: nat)
    requires
        n > 0,
    ensures
        shares(total, n, n as int) == total,
{
    lemma_shares(total, n, n as int);
    assert((n * total) / (n as int) == total) by (nonlinear_arith)
        requires
            n > 0,
    ;
}

/// Frames never fall between overflows: with a FIFO clocked and no overflow in
/// the slice, nothing is emitted.
pub proof fn law_no_emit_between_overflows(
    m: MixerModel,
    cycles: u32,
    regs: PsgRegs,
    reload: [u16; 4],
    t0: u16,
    t1: u16,
    ov: [u32; 4],
)
    requires
        ov[0] == 0 && ov[1] == 0,
        t0 & 0x80 != 0,
        regs.sndh & 0x400 == 0,
        (regs.sndh >> 8) & 3 != 0,
    ensures
        m.stepped(cycles, regs, reload, t0, t1, ov).scratch.len() == 0,
{
    reveal(MixerModel::rated);
    reveal(MixerModel::gated);
}

/// The announced stream rate is the clock over the emit period whenever a timer
/// sets either.
pub proof fn law_stream_rate_matches_emit_period(
    m: MixerModel,
    regs: PsgRegs,
    reload: [u16; 4],
    t0: u16,
    t1: u16,
)
    ensures
        ({
            let r = m.rated(regs, reload, t0, t1);
            let hz = GBA_CLOCK as int / r.cps_out as int;
            r.timer_on_a || r.timer_on_b ==> {
                &&& r.fifo_locked
                &&& r.stream_rate == (if hz < 1 {
                    1
                } else {
                    hz
                })
            }
        }),
{
    reveal(MixerModel::rated);
}

/// With the FIFO rate once locked, switching both timers off keeps it, whatever
/// else their controls hold.
pub proof fn law_rate_stays_after_timer_off(
    m: MixerModel,
    regs: PsgRegs,
    reload: [u16; 4],
    t0: u16,
    t1: u16,
)
    requires
        m.fifo_locked,
        t0 & 0x80 == 0,
        t1 & 0x80 == 0,
    ensures
        m.rated(regs, reload, t0, t1).stream_rate == m.stream_rate,
        m.rated(regs, reload, t0, t1).cps_out == m.cps_out,
        m.rated(regs, reload, t0, t1).fifo_locked,
{
    reveal(MixerModel::rated);
}

} // verus!
