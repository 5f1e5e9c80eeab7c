//! What the tone and noise channels play.

use crate::bits::{digit, lemma_digit, lemma_digits16, lemma_digits8};
use crate::sound::psg::{
    duty_high, envelope, inc_of, lfsr_next, master_gain, noise_period, square_freq, toward_zero,
    wave_freq, NoiseCh, Psg, SquareCh, WaveCh,
};
use crate::sound::regs::PsgRegs;
use vstd::prelude::*;

verus! {

// ---- frequency ----------------------------------------------------------

/// The frequency of period code `n` is `131072 / (2048 - n)` Hz for a square
/// and `65536 / (2048 - n)` for the wave, without the fraction.
pub proof fn law_tone_frequency(code: u16)
    ensures
        ({
            let span = 2048 - digit(code as int, 1, 2048);
            &&& 1 <= span <= 2048
            &&& square_freq(code) * span <= 131072 < (square_freq(code) + 1) * span
            &&& wave_freq(code) * span <= 65536 < (wave_freq(code) + 1) * span
        }),
{
    lemma_digits16(code);
    lemma_digit(code as int, 1, 2048);
    let span = 2048 - digit(code as int, 1, 2048);
    lemma_quotient(131072, span);
    lemma_quotient(65536, span);
}

proof fn lemma_quotient(a: int, d: int)
    requires
        0 <= a,
        0 < d,
    ensures
        a / d * d <= a < (a / d + 1) * d,
        0 <= a / d <= a,
{
    vstd::arithmetic::div_mod::lemma_fundamental_div_mod(a, d);
    assert(a / d * d <= a < (a / d + 1) * d) by (nonlinear_arith)
        requires
            a == d * (a / d) + a % d,
            0 <= a % d < d,
    ;
    assert(0 <= a / d <= a) by (nonlinear_arith)
        requires
            0 <= a,
            0 < d,
    ;
}

/// A channel moves in one second through its frequency times 524288 steps of
/// phase, that is eight steps of 65536 for each period, short of the fraction
/// that each sample drops.
pub proof fn law_phase_rate(freq: u32, rate: u32)
    requires
        0 < freq <= 131072,
        17 <= rate,
    ensures
        inc_of(freq, rate) * rate <= freq * 524288 < (inc_of(freq, rate) + 1) * rate,
{
    let a = freq as int * 524288;
    lemma_quotient(a, rate as int);
    assert(a / rate as int <= u32::MAX) by (nonlinear_arith)
        requires
            0 <= a <= 131072 * 524288,
            17 <= rate,
            a / rate as int * rate as int <= a,
    ;
}

/// A square channel of period code `n` plays its eight duty steps in
/// `rate (2048 - n) / 131072` samples: wherever that is a whole number, and
/// the divisions come out even, the phase has gone round exactly once.
pub proof fn law_square_period(code: u16, rate: u32, samples: int)
    requires
        16 <= rate,
        0 < samples,
        ({
            let span = 2048 - digit(code as int, 1, 2048);
            &&& samples * 131072 == rate * span
            &&& 131072int % span == 0
        }),
        524288int % samples == 0,
    ensures
        inc_of(square_freq(code), rate) * samples == 524288,
{
    lemma_digits16(code);
    lemma_digit(code as int, 1, 2048);
    let span = 2048 - digit(code as int, 1, 2048);
    let f = square_freq(code) as int;
    let r = rate as int;
    lemma_quotient(131072, span);
    vstd::arithmetic::div_mod::lemma_fundamental_div_mod(131072, span);
    assert(f * span == 131072) by (nonlinear_arith)
        requires
            131072 == span * (131072int / span) + 131072int % span,
            131072int % span == 0,
            f == 131072int / span,
    ;
    assert(samples * f == r) by (nonlinear_arith)
        requires
            samples * 131072 == r * span,
            f * span == 131072,
            span > 0,
    ;
    vstd::arithmetic::div_mod::lemma_fundamental_div_mod(524288, samples);
    let q = 524288int / samples;
    assert(f * 524288 == q * r) by (nonlinear_arith)
        requires
            524288 == samples * q + 524288int % samples,
            524288int % samples == 0,
            samples * f == r,
    ;
    assert(f > 0) by (nonlinear_arith)
        requires
            f * span == 131072,
            span > 0,
    ;
    vstd::arithmetic::div_mod::lemma_div_multiples_vanish(q, r);
    assert(q * r / r == q) by {
        assert(q * r == r * q) by (nonlinear_arith);
    }
    assert(samples * q == 524288);
    assert(0 <= q <= 524288) by (nonlinear_arith)
        requires
            samples * q == 524288,
            samples > 0,
    ;
    assert(q * samples == 524288) by (nonlinear_arith)
        requires
            samples * q == 524288,
    ;
}

/// A channel after `k` samples.
pub open spec fn played(s: SquareCh, rate: u32, k: nat) -> SquareCh
    decreases k,
{
    if k == 0 {
        s
    } else {
        played(s, rate, (k - 1) as nat).ticked(rate).0
    }
}

/// A steady channel: on, with neither envelope nor sweep.
pub open spec fn steady(s: SquareCh) -> bool {
    s.enabled && s.volume > 0 && s.env_period == 0 && s.sweep_period == 0
}

/// A steady square moves through its phase evenly.
pub proof fn law_square_moves_evenly(s: SquareCh, rate: u32, k: nat)
    requires
        steady(s),
    ensures
        played(s, rate, k) == (SquareCh { phase: ((s.phase + s.phase_inc * k) % 0x1_0000_0000) as u32, ..s }),
    decreases k,
{
    if k == 0 {
        assert(s.phase_inc * k == 0) by (nonlinear_arith)
            requires
                k == 0,
        ;
    } else {
        let m = (k - 1) as nat;
        law_square_moves_evenly(s, rate, m);
        reveal(SquareCh::ticked);
        let i = s.phase_inc as int;
        assert(i * k == i * m + i) by (nonlinear_arith)
            requires
                k == m + 1,
        ;
        vstd::arithmetic::div_mod::lemma_add_mod_noop(s.phase + i * m, i, 0x1_0000_0000);
        vstd::arithmetic::div_mod::lemma_add_mod_noop((s.phase + i * m) % 0x1_0000_0000, i, 0x1_0000_0000);
    }
}

/// The duty step of a phase.
pub open spec fn step_of(phase: u32) -> int {
    phase as int / 65536 % 8
}

proof fn lemma_step_of(phase: u32)
    ensures
        (phase >> 16) & 7 == step_of(phase),
        (phase >> 16) & 31 == phase as int / 65536 % 32,
{
    vstd::bits::lemma_u32_shr_is_div(phase, 16);
    vstd::bits::lemma_u32_low_bits_mask_is_mod(phase >> 16, 3);
    vstd::bits::lemma_u32_low_bits_mask_is_mod(phase >> 16, 5);
    vstd::bits::lemma_low_bits_mask_values();
    vstd::arithmetic::power2::lemma2_to64();
}

/// A steady square repeats after every full round: what it plays at sample `k`
/// it plays again `samples` later.
pub proof fn law_square_repeats(s: SquareCh, rate: u32, samples: nat, k: nat)
    requires
        steady(s),
        s.phase_inc * samples == 524288,
    ensures
        step_of(played(s, rate, k + samples).phase) == step_of(played(s, rate, k).phase),
        played(s, rate, k + samples).ticked(rate).1 == played(s, rate, k).ticked(rate).1,
{
    law_square_moves_evenly(s, rate, k);
    law_square_moves_evenly(s, rate, k + samples);
    law_square_moves_evenly(s, rate, k + 1);
    law_square_moves_evenly(s, rate, k + samples + 1);
    let i = s.phase_inc as int;
    assert(i * (k + samples) == i * k + 524288 && i * (k + 1) == i * k + i && i * (k + samples + 1) == i * k + i
        + 524288) by (nonlinear_arith)
        requires
            i * samples == 524288,
    ;
    lemma_round(s.phase + i * k);
    lemma_round(s.phase + i * (k + 1));
    reveal(SquareCh::ticked);
    lemma_step_of(played(s, rate, k + 1).phase);
    lemma_step_of(played(s, rate, k + samples + 1).phase);
}

proof fn lemma_round(x: int)
    ensures
        (x + 524288) % 0x1_0000_0000 / 65536 % 8 == x % 0x1_0000_0000 / 65536 % 8,
{
    let a = x % 0x1_0000_0000;
    let b = (x + 524288) % 0x1_0000_0000;
    vstd::arithmetic::div_mod::lemma_add_mod_noop(x, 524288, 0x1_0000_0000);
    assert(b == a + 524288 || b == a + 524288 - 0x1_0000_0000);
}

// ---- duty and volume ----------------------------------------------------

/// One, two, four and six of the eight steps are high; the last pattern is the
/// second upside down, and each of the others holds the one before it. Only the
/// low two bits name a pattern.
pub proof fn law_duty(duty: u8, step: u32)
    requires
        step < 8,
    ensures
        ({
            let high = |d: u8, s: u32| -> int { if duty_high(d, s) { 1int } else { 0 } };
            let total = |d: u8| -> int {
                high(d, 0) + high(d, 1) + high(d, 2) + high(d, 3) + high(d, 4) + high(d, 5) + high(d, 6) + high(d, 7)
            };
            total(0) == 1 && total(1) == 2 && total(2) == 4 && total(3) == 6
        }),
        duty_high(3, step) == !duty_high(1, step),
        duty_high(0, step) ==> duty_high(1, step),
        duty_high(1, step) ==> duty_high(2, step),
        duty_high(0, 7),
        duty_high(2, 5),
        duty_high(duty, step) == duty_high(digit(duty as int, 1, 4) as u8, step),
{
    lemma_digits8(duty);
    lemma_digits8(0);
    lemma_digits8(1);
    lemma_digits8(2);
    lemma_digits8(3);
    lemma_digit(duty as int, 1, 4);
    let d = digit(duty as int, 1, 4) as u8;
    lemma_digits8(d);
    lemma_digit(d as int, 1, 4);
    lemma_digit(0, 1, 4);
    lemma_digit(1, 1, 4);
    lemma_digit(2, 1, 4);
    lemma_digit(3, 1, 4);
}

/// A steady square is as loud as its volume, high and low alike: 512 for each
/// of fifteen steps.
pub proof fn law_square_level(s: SquareCh, rate: u32)
    requires
        steady(s),
    ensures
        ({
            let out = s.ticked(rate).1;
            let next = (s.phase + s.phase_inc) % 0x1_0000_0000;
            out == if duty_high(s.duty, step_of(next as u32) as u32) { 512 * s.volume } else { -512 * s.volume }
        }),
{
    reveal(SquareCh::ticked);
    let next = (s.phase + s.phase_inc) % 0x1_0000_0000;
    lemma_step_of(next as u32);
}

/// The envelope is clocked 64 times a second. At a clock whose timer has run
/// down the volume moves by one, up or down, and stops at 0 and 15; at other
/// samples it stays. Period zero holds it.
pub proof fn law_envelope(volume: u8, up: bool, period: u8, timer: u8, clock: u32, rate: u32)
    requires
        volume <= 15,
        rate >= 64,
        clock < u32::MAX,
    ensures
        ({
            let (v, t, c) = envelope(volume, up, period, timer, clock, rate);
            let due = period > 0 && (clock + 1) >= rate as int / 64;
            &&& v <= 15
            &&& due && timer == 0 && up ==> v == (if volume == 15 { 15 } else { volume + 1 })
            &&& due && timer == 0 && !up ==> v == (if volume == 0 { 0 } else { volume - 1 })
            &&& !(due && timer == 0) ==> v == volume
            &&& due ==> c == 0 && t == (if timer > 0 { timer - 1 } else { period as int })
            &&& !due && period > 0 ==> c == clock + 1 && t == timer
        }),
{
}

/// A channel with its length on stays on for that many clocks and goes off at
/// the next.
pub proof fn law_length_runs_out(s: SquareCh, w: WaveCh, n: NoiseCh)
    ensures
        s.length_en && s.enabled && s.length > 0 ==> s.length_ticked().enabled && s.length_ticked().length == s.length - 1,
        s.length_en && s.enabled && s.length == 0 ==> !s.length_ticked().enabled,
        !s.length_en ==> s.length_ticked() == s,
        w.length_en && w.enabled && w.length > 0 ==> w.length_ticked().enabled && w.length_ticked().length == w.length - 1,
        w.length_en && w.enabled && w.length == 0 ==> !w.length_ticked().enabled,
        !w.length_en ==> w.length_ticked() == w,
        n.length_en && n.enabled && n.length > 0 ==> n.length_ticked().enabled && n.length_ticked().length == n.length - 1,
        n.length_en && n.enabled && n.length == 0 ==> !n.length_ticked().enabled,
        !n.length_en ==> n.length_ticked() == n,
{
}

/// The length clock comes every 256th of a second.
pub proof fn law_length_clock(p: Psg, rate: u32)
    requires
        p.len_clock < u32::MAX,
    ensures
        p.len_clock + 1 < rate as int / 256 ==> p.length_clocked(rate) == (Psg {
            len_clock: (p.len_clock + 1) as u32,
            ..p
        }),
        p.len_clock + 1 >= rate as int / 256 ==> {
            let q = p.length_clocked(rate);
            &&& q.len_clock == 0
            &&& q.sq1 == p.sq1.length_ticked()
            &&& q.sq2 == p.sq2.length_ticked()
            &&& q.wave == p.wave.length_ticked()
            &&& q.noise == p.noise.length_ticked()
        },
{
}

/// The sweep is clocked 128 times a second. When its timer has run down the
/// period code moves by its own `2^shift`-th part, and a code beyond 2047 turns
/// the channel off.
pub proof fn law_sweep(s: SquareCh, rate: u32)
    requires
        s.enabled,
        s.sweep_period > 0,
        0 < s.sweep_shift < 8,
        rate >= 128,
        s.sweep_clock < u32::MAX,
        s.freq_raw <= 2047,
    ensures
        ({
            let t = s.sweep_ticked(rate);
            let due = s.sweep_clock + 1 >= rate as int / 128;
            let part = s.freq_raw as int / vstd::arithmetic::power2::pow2(s.sweep_shift as nat) as int;
            let code = if s.sweep_neg { s.freq_raw - part } else { s.freq_raw + part };
            &&& !due ==> t == (SquareCh { sweep_clock: (s.sweep_clock + 1) as u32, ..s })
            &&& due ==> t.sweep_clock == 0
            &&& due && s.sweep_timer > 0 ==> t.freq_raw == s.freq_raw && t.sweep_timer == s.sweep_timer - 1
            &&& due && s.sweep_timer == 0 ==> t.sweep_timer == s.sweep_period
            &&& due && s.sweep_timer == 0 && code <= 2047 ==> t.enabled && t.freq_raw == code
            &&& due && s.sweep_timer == 0 && code > 2047 ==> !t.enabled
        }),
{
    vstd::bits::lemma_u16_shr_is_div(s.freq_raw, s.sweep_shift as u16);
    let p = vstd::arithmetic::power2::pow2(s.sweep_shift as nat) as int;
    vstd::arithmetic::power2::lemma_pow2_pos(s.sweep_shift as nat);
    lemma_quotient(s.freq_raw as int, p);
}

/// What a trigger takes from the registers of a square channel.
pub proof fn law_square_trigger(s: SquareCh, sweep: u16, env: u16, freq: u16, rate: u32)
    ensures
        ({
            let t = s.triggered(sweep, env, freq, true, rate);
            let plain = s.triggered(sweep, env, freq, false, rate);
            let (e, f, w) = (env as int, freq as int, sweep as int);
            &&& t.enabled && t.phase == 0
            &&& t.duty == digit(e, 0x40, 4)
            &&& t.volume == digit(e, 0x1000, 16)
            &&& t.env_dir <==> digit(e, 0x800, 2) == 1
            &&& t.env_period == digit(e, 1, 8) && t.env_timer == digit(e, 1, 8)
            &&& t.length == 64 - digit(e, 0x100, 64)
            &&& t.length_en <==> digit(f, 0x4000, 2) == 1
            &&& t.freq_raw == digit(f, 1, 2048)
            &&& t.sweep_period == digit(w, 16, 8) && t.sweep_timer == digit(w, 16, 8)
            &&& t.sweep_neg <==> digit(w, 8, 2) == 1
            &&& t.sweep_shift == digit(w, 1, 8)
            &&& plain == (SquareCh {
                sweep_period: s.sweep_period,
                sweep_neg: s.sweep_neg,
                sweep_shift: s.sweep_shift,
                sweep_timer: s.sweep_timer,
                sweep_clock: s.sweep_clock,
                ..t
            })
        }),
{
    lemma_digits16(env);
    lemma_digits16(freq);
    lemma_digits16(sweep);
    lemma_digit(env as int, 0x100, 64);
    lemma_digit(env as int, 0x40, 4);
    lemma_digit(env as int, 0x1000, 16);
    lemma_digit(env as int, 1, 8);
    lemma_digit(sweep as int, 16, 8);
    lemma_digit(sweep as int, 1, 8);
}

// ---- wave ---------------------------------------------------------------

/// The wave plays its bytes in order, the high nibble of each first.
pub proof fn law_wave_order(w: WaveCh, k: int)
    requires
        0 <= k < 16,
    ensures
        w.nibble((2 * k) as u32) == w.wave[k] as int / 16,
        w.nibble((2 * k + 1) as u32) == w.wave[k] as int % 16,
{
    lemma_digits8(w.wave[k]);
    reveal(digit);
    assert((2 * k) as u32 / 2 == k && (2 * k + 1) as u32 / 2 == k);
}

/// A wave sample is its nibble about the middle, 8, at full, half or quarter
/// volume.
pub proof fn law_wave_level(w: WaveCh)
    requires
        w.enabled,
        1 <= w.volume_code <= 3,
    ensures
        ({
            let next = (w.phase + w.phase_inc) % 0x1_0000_0000;
            let n = w.nibble((next / 65536 % 32) as u32);
            let out = w.ticked().1;
            &&& w.ticked().0 == (WaveCh { phase: next as u32, ..w })
            &&& w.volume_code == 1 ==> out == 512 * (n - 8)
            &&& w.volume_code == 2 ==> 2 * out == 512 * (n - 8)
            &&& w.volume_code == 3 ==> 4 * out == 512 * (n - 8)
        }),
{
    reveal(WaveCh::ticked);
    let next = (w.phase + w.phase_inc) % 0x1_0000_0000;
    lemma_step_of(next as u32);
}

/// What a trigger takes from the registers of the wave channel.
pub proof fn law_wave_trigger(w: WaveCh, regs: PsgRegs, rate: u32)
    ensures
        ({
            let t = w.triggered(regs, rate);
            &&& t.enabled <==> digit(regs.ch3_l as int, 0x80, 2) == 1
            &&& t.volume_code == digit(regs.ch3_h as int, 0x20, 4)
            &&& t.length == 256 - digit(regs.ch3_h as int, 1, 256)
            &&& t.length_en <==> digit(regs.ch3_x as int, 0x4000, 2) == 1
            &&& t.phase == 0 && t.wave == regs.wave
            &&& t.phase_inc == inc_of(wave_freq(regs.ch3_x), rate)
        }),
{
    lemma_digits16(regs.ch3_l);
    lemma_digits16(regs.ch3_h);
    lemma_digits16(regs.ch3_x);
    lemma_digit(regs.ch3_h as int, 0x20, 4);
    lemma_digit(regs.ch3_h as int, 1, 256);
}

// ---- noise --------------------------------------------------------------

/// The noise register shifts right; the sum of its two low bits, without
/// carry, comes in at bit 14, and at bit 6 of the short one.
pub proof fn law_noise_register(l: u16)
    requires
        l < 0x8000,
    ensures
        lfsr_next(l, false) == l as int / 2 + 0x4000 * ((l as int % 2 + l as int / 2 % 2) % 2),
        l < 0x80 ==> lfsr_next(l, true) == l as int / 2 + 0x40 * ((l as int % 2 + l as int / 2 % 2) % 2),
        lfsr_next(l, true) as int % 0x40 == l as int / 2 % 0x40,
{
    let long = if (l ^ (l >> 1)) & 1 != 0 { (l >> 1) | 0x4000 } else { l >> 1 };
    let short = if (l ^ (l >> 1)) & 1 != 0 { (l >> 1) | 0x40 } else { l >> 1 };
    assert(long == l / 2 + 0x4000 * ((l % 2 + l / 2 % 2) % 2) && (l < 0x80 ==> short == l / 2 + 0x40 * ((l % 2 + l / 2
        % 2) % 2)) && short % 0x40 == l / 2 % 0x40) by (bit_vector)
        requires
            l < 0x8000,
            long == if (l ^ (l >> 1)) & 1 != 0 { (l >> 1) | 0x4000 } else { l >> 1 },
            short == if (l ^ (l >> 1)) & 1 != 0 { (l >> 1) | 0x40 } else { l >> 1 },
    ;
}

/// What a trigger takes from the registers of the noise channel.
pub proof fn law_noise_trigger(n: NoiseCh, env: u16, poly: u16, rate: u32)
    ensures
        ({
            let t = n.triggered(env, poly, rate);
            let (e, p) = (env as int, poly as int);
            &&& t.enabled && t.lfsr == 0x7FFF
            &&& t.volume == digit(e, 0x1000, 16)
            &&& t.env_dir <==> digit(e, 0x800, 2) == 1
            &&& t.env_period == digit(e, 1, 8) && t.env_timer == digit(e, 1, 8)
            &&& t.length == 64 - digit(e, 0x100, 64)
            &&& t.length_en <==> digit(p, 0x4000, 2) == 1
            &&& t.width7 <==> digit(p, 8, 2) == 1
            &&& t.timer == t.period_samples
        }),
{
    lemma_digits16(env);
    lemma_digits16(poly);
    lemma_digit(env as int, 0x100, 64);
    lemma_digit(env as int, 0x1000, 16);
    lemma_digit(env as int, 1, 8);
}

/// The noise shifts `524288 / (r 2^(s + 1))` times a second, `r` being 16 times
/// the ratio code or 8 for code 0, and at least once; its period in samples
/// follows from that, and is at least one.
pub proof fn law_noise_period(poly: u16, rate: u32)
    requires
        rate > 0,
    ensures
        ({
            let code = digit(poly as int, 1, 8);
            let r: int = if code == 0 { 8 } else { 16 * code };
            let d = r * vstd::arithmetic::power2::pow2((digit(poly as int, 16, 16) + 1) as nat);
            let f = 524288int / d;
            let hz = if f < 1 { 1 } else { f };
            let n = noise_period(poly, rate);
            &&& hz <= rate ==> n * hz <= rate < (n + 1) * hz
            &&& hz > rate ==> n == 1
        }),
{
    lemma_digits16(poly);
    lemma_digit(poly as int, 1, 8);
    lemma_digit(poly as int, 16, 16);
    let s = (digit(poly as int, 16, 16) + 1) as u32;
    vstd::arithmetic::power2::lemma2_to64();
    vstd::bits::lemma_u32_shl_is_mul(1, s);
    vstd::arithmetic::power2::lemma_pow2_pos(s as nat);
    let code = digit(poly as int, 1, 8);
    let r: int = if code == 0 { 8 } else { 16 * code };
    let p = vstd::arithmetic::power2::pow2(s as nat) as int;
    let d = r * p;
    assert(d > 0) by (nonlinear_arith)
        requires
            r > 0,
            p > 0,
            d == r * p,
    ;
    let f = 524288int / d;
    let hz = if f < 1 { 1 } else { f };
    lemma_quotient(rate as int, hz);
    if hz <= rate {
        assert(rate as int / hz >= 1) by (nonlinear_arith)
            requires
                0 < hz <= rate,
                rate < (rate as int / hz + 1) * hz,
        ;
    } else {
        vstd::arithmetic::div_mod::lemma_basic_div(rate as int, hz);
    }
}

// ---- mixing -------------------------------------------------------------

/// The master gain is the mean of both sides' volumes; a side that is off
/// counts for nothing, and both off is full.
pub proof fn law_master_gain(sndl: u16)
    ensures
        ({
            let r = digit(sndl as int, 1, 8);
            let l = digit(sndl as int, 16, 8);
            let g = master_gain(sndl);
            &&& l > 0 && r > 0 ==> 2 * g == l + r || 2 * g + 1 == l + r
            &&& l == 0 && r > 0 ==> g == r
            &&& l > 0 && r == 0 ==> g == l
            &&& l == 0 && r == 0 ==> g == 7
            &&& 1 <= g <= 7
        }),
{
    lemma_digits16(sndl);
    lemma_digit(sndl as int, 1, 8);
    lemma_digit(sndl as int, 16, 8);
}

/// The fraction is dropped towards zero: the quotient is smaller than the
/// dividend, misses it by less than one, and has its sign.
pub proof fn law_toward_zero(a: int, b: int)
    requires
        b > 0,
    ensures
        toward_zero(-a, b) == -toward_zero(a, b),
        a >= 0 ==> toward_zero(a, b) * b <= a < (toward_zero(a, b) + 1) * b,
{
    if a >= 0 {
        lemma_quotient(a, b);
    }
    if a == 0 {
        vstd::arithmetic::div_mod::lemma_div_of0(b);
    }
}

/// The status shows one bit for each channel that is on.
pub proof fn law_status(p: Psg)
    ensures
        ({
            let one = |on: bool| -> int { if on { 1int } else { 0 } };
            p.status() == one(p.sq1.enabled) + 2 * one(p.sq2.enabled) + 4 * one(p.wave.enabled) + 8 * one(
                p.noise.enabled,
            )
        }),
{
    let a: u8 = if p.sq1.enabled { 1 } else { 0 };
    let b: u8 = if p.sq2.enabled { 2 } else { 0 };
    let c: u8 = if p.wave.enabled { 4 } else { 0 };
    let d: u8 = if p.noise.enabled { 8 } else { 0 };
    assert(a | b | c | d == a + b + c + d) by (bit_vector)
        requires
            a <= 1,
            b == 0 || b == 2,
            c == 0 || c == 4,
            d == 0 || d == 8,
    ;
}

} // verus!
