//! How samples become what is heard.

use crate::bits::{digit, lemma_digit, lemma_digits16};
use crate::sound::fifo::{FifoModel, FIFO_CAP};
use crate::sound::mixer::{
    biased, clocked_out, cps_rate, dc_next, env_next, frames_of, mixed, speaker, MixerModel,
};
use crate::sound::regs::{routed, PsgRegs};
use vstd::prelude::*;

verus! {

/// A timer divides the clock by 1, 64, 256 or 1024 and again by what its
/// counter has to go: the overflow rate is the clock of 2^24 Hz over that,
/// without the fraction and at least one. A stopped timer has none.
pub proof fn law_overflow_rate(reload: u16, ctrl: u16)
    ensures
        ({
            let code = digit(ctrl as int, 1, 4);
            let div: int = if code == 0 { 1 } else if code == 1 { 64 } else if code == 2 { 256 } else { 1024 };
            let period = div * (0x1_0000 - reload);
            let (cycles, hz, on) = cps_rate(reload, ctrl);
            &&& on <==> digit(ctrl as int, 0x80, 2) == 1
            &&& on ==> cycles == period
            &&& on && period <= 0x100_0000 ==> hz * period <= 0x100_0000 < (hz + 1) * period
            &&& on && period > 0x100_0000 ==> hz == 1
        }),
{
    lemma_digits16(ctrl);
    lemma_digit(ctrl as int, 1, 4);
    let code = digit(ctrl as int, 1, 4);
    let div: int = if code == 0 { 1 } else if code == 1 { 64 } else if code == 2 { 256 } else { 1024 };
    let left = 0x1_0000 - reload;
    let period = div * left;
    assert(left * div == period) by (nonlinear_arith)
        requires
            period == div * left,
    ;
    assert(0 < period <= 0x400_0000) by (nonlinear_arith)
        requires
            period == div * left,
            0 < div <= 1024,
            0 < left <= 0x1_0000,
    ;
    vstd::arithmetic::div_mod::lemma_fundamental_div_mod(0x100_0000, period);
    let q = 0x100_0000int / period;
    assert(q * period <= 0x100_0000 < (q + 1) * period) by (nonlinear_arith)
        requires
            0x100_0000 == period * q + 0x100_0000int % period,
            0 <= 0x100_0000int % period < period,
    ;
    if period <= 0x100_0000 {
        assert(q >= 1) by (nonlinear_arith)
            requires
                0 < period <= 0x100_0000,
                0x100_0000 < (q + 1) * period,
        ;
    } else {
        vstd::arithmetic::div_mod::lemma_basic_div(0x100_0000, period);
    }
}

/// The DAC is even between its ends: the level is 40 for each step of the sum.
/// Below the bottom it stays; above the top it comes back by a quarter of what
/// is too much.
pub proof fn law_dac_range(s: int)
    ensures
        -0x200 <= s < 0x200 ==> biased(s) == 40 * s,
        s < -0x200 ==> biased(s) == -0x5000,
        0x200 <= s < 0x11FF ==> biased(s) == 40 * (0x1FF - (s - 0x1FF) / 4),
        s >= 0x11FF ==> biased(s) == -0x5000,
{
    reveal(biased);
}

/// Both FIFOs at full volume count four for each unit, two at half; the PSG
/// counts its whole, half or quarter.
pub proof fn law_speaker_sum(regs: PsgRegs, a: i8, to_a: bool, b: i8, to_b: bool, psg: i16)
    ensures
        ({
            let h = regs.sndh as int;
            let wa: int = if digit(h, 4, 2) == 1 { 4 } else { 2 };
            let wb: int = if digit(h, 8, 2) == 1 { 4 } else { 2 };
            let ratio = digit(h, 1, 4);
            let tone = psg as int / (if ratio == 1 { 2int } else if ratio == 2 { 1 } else { 4 });
            speaker(regs, true, a, to_a, true, b, to_b, psg) == (if to_a { wa * a } else { 0 }) + (if to_b { wb * b } else { 0 })
                + tone
        }),
        speaker(regs, false, a, to_a, false, b, to_b, psg) == speaker(regs, true, 0, to_a, true, 0, to_b, psg),
{
    lemma_digits16(regs.sndh);
    lemma_digit(regs.sndh as int, 1, 4);
    lemma_floor_shift(psg as i32);
}

proof fn lemma_floor_shift(v: i32)
    ensures
        v >> 0u32 == v,
        v >> 1u32 == v as int / 2,
        v >> 2u32 == v as int / 4,
{
    lemma_mix_bits(v, 0);
}

proof fn lemma_mix_bits(v: i32, h: u16)
    ensures
        v >> 0u32 == v,
        v >> 1u32 == v as int / 2,
        v >> 2u32 == v as int / 4,
        h as u8 as i8 == (if h as int % 256 >= 128 { h as int % 256 - 256 } else { h as int % 256 }),
        (h >> 8) as u8 as i8 == (if h as int / 256 >= 128 { h as int / 256 - 256 } else { h as int / 256 }),
        h & 0xFF00 == 0 <==> h >> 8 == 0,
        1u16 << 8 == 0x100 && 1u16 << 9 == 0x200 && 1u16 << 10 == 0x400 && 1u16 << 11 == 0x800,
        1u16 << 12 == 0x1000 && 1u16 << 13 == 0x2000 && 1u16 << 14 == 0x4000 && 1u16 << 15 == 0x8000,
{
    assert(v >> 0u32 == v && v >> 1u32 == (if v >= 0 { v / 2 } else { -((1 - v) / 2) }) && v >> 2u32 == (if v >= 0 {
        v / 4
    } else {
        -((3 - v) / 4)
    }) && h as u8 as i8 == (if h % 256 >= 128 { h % 256 - 256 } else { (h % 256) as int }) && (h >> 8) as u8 as i8 == (if h
        / 256 >= 128 { h / 256 - 256 } else { (h / 256) as int }) && (h & 0xFF00 == 0 <==> h >> 8 == 0) && 1u16 << 8
        == 0x100 && 1u16 << 9 == 0x200 && 1u16 << 10 == 0x400 && 1u16 << 11 == 0x800 && 1u16 << 12 == 0x1000 && 1u16
        << 13 == 0x2000 && 1u16 << 14 == 0x4000 && 1u16 << 15 == 0x8000) by (bit_vector);
}

/// The left speaker gets FIFO A by bit 9 and B by bit 13 of SOUNDCNT_H, the
/// right one by bits 8 and 12; the master switch silences both.
pub proof fn law_speakers(regs: PsgRegs, en_a: bool, a: i8, en_b: bool, b: i8, psg: i16)
    ensures
        mixed(regs, false, en_a, a, en_b, b, psg) == (0i16, 0i16),
        ({
            let h = regs.sndh as int;
            let on = |unit: int| -> bool { digit(h, unit, 2) == 1 };
            mixed(regs, true, en_a, a, en_b, b, psg) == (
                biased(speaker(regs, en_a, a, on(0x200), en_b, b, on(0x2000), psg)) as i16,
                biased(speaker(regs, en_a, a, on(0x100), en_b, b, on(0x1000), psg)) as i16,
            )
        }),
{
    reveal(mixed);
    lemma_digits16(regs.sndh);
}

/// A free-running output gives a frame for every period that passes and keeps
/// the rest: nothing is lost or made up.
pub proof fn law_output_clock(accum: u32, left: u32, cps: u32)
    requires
        cps > 0,
        accum < cps,
        accum + left <= u32::MAX,
    ensures
        ({
            let (rest, n) = clocked_out(accum, left, cps);
            &&& rest < cps
            &&& n * cps + rest == accum + left
        }),
    decreases left,
{
    if left > 0 {
        let gap = (cps - accum) as u32;
        let step: u32 = if left < gap { left } else { gap };
        let a = (accum + step) as u32;
        if a >= cps {
            law_output_clock((a - cps) as u32, (left - step) as u32, cps);
            let n = clocked_out((a - cps) as u32, (left - step) as u32, cps).1;
            assert((n + 1) * cps == n * cps + cps) by (nonlinear_arith);
        } else {
            law_output_clock(a, (left - step) as u32, cps);
        }
    } else {
        assert(0nat * cps == 0) by (nonlinear_arith);
    }
}

/// A frame is the left sample, then the right.
pub proof fn law_frames_alternate(l: i16, r: i16, n: nat, k: int)
    requires
        0 <= k < n,
    ensures
        frames_of(l, r, n).len() == 2 * n,
        frames_of(l, r, n)[2 * k] == l,
        frames_of(l, r, n)[2 * k + 1] == r,
{
}

/// A byte queued in a FIFO is a signed sample; what went in first comes out
/// first, and each pop takes one.
pub proof fn law_fifo_is_first_in_first_out(f: FifoModel, half: u16)
    requires
        f.samples.len() + 2 <= FIFO_CAP,
    ensures
        ({
            let g = f.with_half(half);
            let lo = half as int % 256;
            let hi = half as int / 256;
            &&& g.samples.len() == f.samples.len() + 2
            &&& g.samples[f.samples.len() as int] == if lo >= 128 { lo - 256 } else { lo }
            &&& g.samples[f.samples.len() as int + 1] == if hi >= 128 { hi - 256 } else { hi }
            &&& forall|i: int| 0 <= i < f.samples.len() ==> g.samples[i] == f.samples[i]
        }),
        f.samples.len() > 0 ==> f.popped().hold == f.samples[0] && f.popped().hold_valid,
        f.samples.len() > 0 ==> f.popped().samples == f.samples.subrange(1, f.samples.len() as int),
{
    lemma_mix_bits(0, half);
}

/// A PSG channel is heard where either side routes it, and every one where no
/// side routes any.
pub proof fn law_routing(sndl: u16, ch: u16)
    requires
        ch < 4,
    ensures
        ({
            let n = sndl as int;
            let unit: int = if ch == 0 { 0x100 } else if ch == 1 { 0x200 } else if ch == 2 { 0x400 } else { 0x800 };
            routed(sndl, ch) <==> digit(n, 0x100, 0x100) == 0 || digit(n, unit, 2) == 1 || digit(n, 16 * unit, 2) == 1
        }),
{
    lemma_digits16(sndl);
    lemma_mix_bits(0, sndl);
}

/// There is something to hear where the master switch is on and a routed
/// channel has a volume.
pub proof fn law_signal(regs: PsgRegs)
    ensures
        regs.has_signal() <==> digit(regs.sndx as int, 0x80, 2) == 1 && ({
            ||| routed(regs.sndl, 0) && digit(regs.ch1_h as int, 0x1000, 16) != 0
            ||| routed(regs.sndl, 1) && digit(regs.ch2_l as int, 0x1000, 16) != 0
            ||| routed(regs.sndl, 2) && digit(regs.ch3_l as int, 0x80, 2) == 1 && digit(regs.ch3_h as int, 0x20, 4) != 0
            ||| routed(regs.sndl, 3) && digit(regs.ch4_l as int, 0x1000, 16) != 0
        }),
{
    lemma_digits16(regs.sndx);
    lemma_digits16(regs.ch1_h);
    lemma_digits16(regs.ch2_l);
    lemma_digits16(regs.ch3_l);
    lemma_digits16(regs.ch3_h);
    lemma_digits16(regs.ch4_l);
}

/// FIFO A follows timer 1 where bit 10 of SOUNDCNT_H says so and else timer 0;
/// B by bit 14.
pub proof fn law_fifo_timers(m: MixerModel, regs: PsgRegs, ov: [u32; 4])
    ensures
        ({
            let h = regs.sndh as int;
            &&& m.prev_en_a && m.timer_on_a ==> m.pops_a(regs, ov) == ov[digit(h, 0x400, 2)]
            &&& m.prev_en_b && m.timer_on_b ==> m.pops_b(regs, ov) == ov[digit(h, 0x4000, 2)]
            &&& !(m.prev_en_a && m.timer_on_a) ==> m.pops_a(regs, ov) == 0
            &&& !(m.prev_en_b && m.timer_on_b) ==> m.pops_b(regs, ov) == 0
        }),
{
    lemma_digits16(regs.sndh);
    lemma_digit(regs.sndh as int, 0x400, 2);
    lemma_digit(regs.sndh as int, 0x4000, 2);
}

/// The offset follower never overshoots: it moves towards the sample by a 256th
/// of the way, and a steady input leaves it in the end within 255 of it.
pub proof fn law_offset_follows(dc: i32, x: i16)
    requires
        -0x1_0000 <= dc <= 0x1_0000,
    ensures
        x >= dc ==> dc <= dc_next(dc, x) <= x,
        x <= dc ==> x <= dc_next(dc, x) <= dc,
        dc_next(dc, x) == dc ==> -256 < x - dc < 256,
        x - dc >= 256 ==> dc_next(dc, x) > dc,
{
}

/// The limiter's envelope is never below the sample, and falls by a 256th.
pub proof fn law_envelope_covers(env: i32, x: i16)
    requires
        env >= 0,
    ensures
        ({
            let e = env_next(env, x);
            let a = if x < 0 { -x } else { x as int };
            &&& a > env ==> e == a
            &&& a <= env ==> env - e == (env + 255) / 256
        }),
{
}

} // verus!
