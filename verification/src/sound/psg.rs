//! GBA PSG: two squares, wave, noise, clocked at the mixer sample rate.

use crate::bits::{aset, lemma_and16, lemma_and32, lemma_and8};
use crate::sound::regs::{channel_routed, routed, PsgRegs};
use vstd::prelude::*;

verus! {

#[derive(Debug, Clone, Copy)]
pub struct SquareCh {
    pub enabled: bool,
    pub phase: u32,
    pub phase_inc: u32,
    pub duty: u8,
    pub volume: u8,
    pub env_dir: bool,
    pub env_period: u8,
    pub env_timer: u8,
    pub env_clock: u32,
    pub length: u16,
    pub length_en: bool,
    pub sweep_period: u8,
    pub sweep_neg: bool,
    pub sweep_shift: u8,
    pub sweep_timer: u8,
    pub sweep_clock: u32,
    pub freq_raw: u16,
}

#[verifier::ext_equal]
#[derive(Debug, Clone, Copy)]
pub struct WaveCh {
    pub enabled: bool,
    pub phase: u32,
    pub phase_inc: u32,
    pub volume_code: u8,
    pub length: u16,
    pub length_en: bool,
    pub wave: [u8; 16],
}

#[derive(Debug, Clone, Copy)]
pub struct NoiseCh {
    pub enabled: bool,
    pub lfsr: u16,
    pub timer: u32,
    pub period_samples: u32,
    pub volume: u8,
    pub env_dir: bool,
    pub env_period: u8,
    pub env_timer: u8,
    pub env_clock: u32,
    pub length: u16,
    pub length_en: bool,
    pub width7: bool,
}

#[verifier::ext_equal]
#[derive(Debug, Clone, Copy)]
pub struct Psg {
    pub sq1: SquareCh,
    pub sq2: SquareCh,
    pub wave: WaveCh,
    pub noise: NoiseCh,
    pub len_clock: u32,
    pub samples_from_psg: u64,
}

/// Phase advance per sample, in 1/65536 of a duty step; eight steps a period.
pub open spec fn inc_of(freq_hz: u32, rate: u32) -> u32 {
    if freq_hz == 0 || rate == 0 {
        0
    } else {
        let v = (freq_hz as int * 524288) / rate as int;
        if v > u32::MAX {
            u32::MAX
        } else {
            v as u32
        }
    }
}

pub fn freq_to_inc(freq_hz: u32, stream_rate: u32) -> (r: u32)
    ensures
        r == inc_of(freq_hz, stream_rate),
{
    if freq_hz == 0 || stream_rate == 0 {
        return 0;
    }
    let v: u64 = (freq_hz as u64 * 524288) / stream_rate as u64;
    if v > 0xFFFF_FFFF {
        0xFFFF_FFFF
    } else {
        v as u32
    }
}

/// Square frequency in Hz of an 11-bit period code.
pub open spec fn square_freq(raw: u16) -> u32 {
    (131072int / (2048 - (raw & 0x7FF))) as u32
}

pub fn square_hz(freq_raw: u16) -> (r: u32)
    ensures
        r == square_freq(freq_raw),
{
    proof {
        lemma_fields(freq_raw);
    }
    let n: u32 = (freq_raw & 0x7FF) as u32;
    131072 / (2048 - n)
}

/// Wave frequency in Hz of an 11-bit period code.
pub open spec fn wave_freq(raw: u16) -> u32 {
    (65536int / (2048 - (raw & 0x7FF))) as u32
}

fn wave_hz(raw: u16) -> (r: u32)
    ensures
        r == wave_freq(raw),
{
    proof {
        lemma_fields(raw);
    }
    let n: u32 = (raw & 0x7FF) as u32;
    65536 / (2048 - n)
}

/// Lowest rate that the channels are clocked at.
pub open spec fn floor_rate(rate: u32) -> u32 {
    if rate < 8000 {
        8000
    } else {
        rate
    }
}

fn at_least_8000(rate: u32) -> (r: u32)
    ensures
        r == floor_rate(rate),
{
    if rate < 8000 {
        8000
    } else {
        rate
    }
}

/// High half of a duty step: patterns of 12.5, 25, 50 and 75 percent.
pub open spec fn duty_high(duty: u8, step: u32) -> bool {
    if duty & 3 == 0 {
        step == 7
    } else if duty & 3 == 1 {
        step == 0 || step == 7
    } else if duty & 3 == 2 {
        step == 0 || step >= 5
    } else {
        1 <= step <= 6
    }
}

fn duty_bit(duty: u8, step: u32) -> (r: bool)
    ensures
        r == duty_high(duty, step),
{
    let d: u8 = duty & 3;
    if d == 0 {
        step == 7
    } else if d == 1 {
        step == 0 || step == 7
    } else if d == 2 {
        step == 0 || step >= 5
    } else {
        1 <= step && step <= 6
    }
}

/// One sample of an envelope clocked at 64 Hz: (volume, timer, clock).
pub open spec fn envelope(
    volume: u8,
    dir: bool,
    period: u8,
    timer: u8,
    clock: u32,
    rate: u32,
) -> (u8, u8, u32) {
    if period == 0 || rate / 64 == 0 {
        (volume, timer, clock)
    } else if clock.saturating_add(1) < rate / 64 {
        (volume, timer, clock.saturating_add(1))
    } else if timer > 0 {
        (volume, (timer - 1) as u8, 0)
    } else if dir {
        (
            if volume < 15 {
                (volume + 1) as u8
            } else {
                volume
            },
            period,
            0,
        )
    } else {
        (
            if volume > 0 {
                (volume - 1) as u8
            } else {
                volume
            },
            period,
            0,
        )
    }
}

fn step_envelope(
    volume: u8,
    dir: bool,
    period: u8,
    timer: u8,
    clock: u32,
    rate: u32,
) -> (r: (u8, u8, u32))
    requires
        volume <= 15,
    ensures
        r == envelope(volume, dir, period, timer, clock, rate),
        r.0 <= 15,
{
    if period == 0 || rate / 64 == 0 {
        return (volume, timer, clock);
    }
    let c: u32 = clock.saturating_add(1);
    if c < rate / 64 {
        return (volume, timer, c);
    }
    if timer > 0 {
        return (volume, timer - 1, 0);
    }
    if dir {
        if volume < 15 {
            (volume + 1, period, 0)
        } else {
            (volume, period, 0)
        }
    } else if volume > 0 {
        (volume - 1, period, 0)
    } else {
        (volume, period, 0)
    }
}

/// Full-scale output of a channel at a volume: plus or minus.
pub open spec fn level(high: bool, volume: u8) -> int {
    if high {
        volume * 512
    } else {
        -(volume * 512)
    }
}

fn level_of(high: bool, volume: u8) -> (r: i32)
    requires
        volume <= 15,
    ensures
        r == level(high, volume),
        -7680 <= r <= 7680,
{
    let v: i32 = (volume as i32) * 512;
    if high {
        v
    } else {
        -v
    }
}

impl SquareCh {
    pub open spec fn wf(self) -> bool {
        self.volume <= 15 && self.sweep_shift <= 7 && self.freq_raw <= 2047
    }

    pub open spec fn triggered(
        self,
        sweep: u16,
        env: u16,
        freq: u16,
        has_sweep: bool,
        rate: u32,
    ) -> SquareCh {
        let s = SquareCh {
            enabled: true,
            duty: ((env >> 6) & 3) as u8,
            volume: ((env >> 12) & 0xF) as u8,
            env_dir: env & 0x800 != 0,
            env_period: (env & 7) as u8,
            env_timer: (env & 7) as u8,
            env_clock: 0,
            length: (64 - ((env >> 8) & 0x3F)) as u16,
            length_en: freq & 0x4000 != 0,
            freq_raw: freq & 0x7FF,
            phase: 0,
            phase_inc: inc_of(square_freq(freq & 0x7FF), floor_rate(rate)),
            ..self
        };
        if has_sweep {
            SquareCh {
                sweep_period: ((sweep >> 4) & 7) as u8,
                sweep_neg: sweep & 8 != 0,
                sweep_shift: (sweep & 7) as u8,
                sweep_timer: ((sweep >> 4) & 7) as u8,
                sweep_clock: 0,
                ..s
            }
        } else {
            s
        }
    }

    /// The frequency register as it stands now, for a running channel.
    pub open spec fn retuned(self, freq_reg: u16, rate: u32) -> SquareCh {
        if self.enabled {
            SquareCh {
                length_en: freq_reg & 0x4000 != 0,
                freq_raw: freq_reg & 0x7FF,
                phase_inc: inc_of(square_freq(freq_reg & 0x7FF), rate),
                ..self
            }
        } else {
            self
        }
    }

    pub open spec fn length_ticked(self) -> SquareCh {
        if self.length_en && self.enabled {
            if self.length > 0 {
                SquareCh { length: (self.length - 1) as u16, ..self }
            } else {
                SquareCh { enabled: false, ..self }
            }
        } else {
            self
        }
    }

    pub open spec fn env_ticked(self, rate: u32) -> SquareCh {
        if self.enabled {
            let (volume, env_timer, env_clock) = envelope(
                self.volume,
                self.env_dir,
                self.env_period,
                self.env_timer,
                self.env_clock,
                rate,
            );
            SquareCh { volume, env_timer, env_clock, ..self }
        } else {
            self
        }
    }

    /// One sample of the 128 Hz sweep; leaving the 11-bit range stops the
    /// channel.
    pub open spec fn sweep_ticked(self, rate: u32) -> SquareCh {
        if self.sweep_period == 0 || self.sweep_shift == 0 || !self.enabled || rate / 128 == 0 {
            self
        } else if self.sweep_clock.saturating_add(1) < rate / 128 {
            SquareCh { sweep_clock: self.sweep_clock.saturating_add(1), ..self }
        } else if self.sweep_timer > 0 {
            SquareCh { sweep_clock: 0, sweep_timer: (self.sweep_timer - 1) as u8, ..self }
        } else {
            let s = SquareCh { sweep_clock: 0, sweep_timer: self.sweep_period, ..self };
            let delta = self.freq_raw >> self.sweep_shift;
            let f = if self.sweep_neg {
                self.freq_raw - delta
            } else {
                self.freq_raw + delta
            };
            if f < 0 || f > 2047 {
                SquareCh { enabled: false, ..s }
            } else {
                SquareCh { freq_raw: f as u16, ..s }
            }
        }
    }

    /// One output sample.
    #[verifier::opaque]
    pub open spec fn ticked(self, rate: u32) -> (SquareCh, int) {
        if !self.enabled || self.volume == 0 {
            (self, 0)
        } else {
            let s = self.env_ticked(rate).sweep_ticked(rate);
            let t = SquareCh { phase: s.phase.wrapping_add(s.phase_inc), ..s };
            (t, level(duty_high(t.duty, (t.phase >> 16) & 7), t.volume))
        }
    }
}

impl Default for SquareCh {
    fn default() -> (r: Self)
        ensures
            r == silent_square(),
            r.wf(),
    {
        SquareCh {
            enabled: false,
            phase: 0,
            phase_inc: 0,
            duty: 2,
            volume: 0,
            env_dir: false,
            env_period: 0,
            env_timer: 0,
            env_clock: 0,
            length: 0,
            length_en: false,
            sweep_period: 0,
            sweep_neg: false,
            sweep_shift: 0,
            sweep_timer: 0,
            sweep_clock: 0,
            freq_raw: 0,
        }
    }
}

pub open spec fn silent_square() -> SquareCh {
    SquareCh {
        enabled: false,
        phase: 0,
        phase_inc: 0,
        duty: 2,
        volume: 0,
        env_dir: false,
        env_period: 0,
        env_timer: 0,
        env_clock: 0,
        length: 0,
        length_en: false,
        sweep_period: 0,
        sweep_neg: false,
        sweep_shift: 0,
        sweep_timer: 0,
        sweep_clock: 0,
        freq_raw: 0,
    }
}

pub fn trigger_square(
    ch: &mut SquareCh,
    sweep: u16,
    env: u16,
    freq: u16,
    has_sweep: bool,
    rate: u32,
)
    requires
        old(ch).wf(),
    ensures
        *final(ch) == old(ch).triggered(sweep, env, freq, has_sweep, rate),
        final(ch).wf(),
{
    proof {
        lemma_fields(env);
        lemma_fields(sweep);
        lemma_fields(freq);
    }
    ch.enabled = true;
    ch.duty = ((env >> 6) & 3) as u8;
    ch.volume = ((env >> 12) & 0xF) as u8;
    ch.env_dir = env & 0x800 != 0;
    ch.env_period = (env & 7) as u8;
    ch.env_timer = ch.env_period;
    ch.env_clock = 0;
    ch.length = 64 - ((env >> 8) & 0x3F);
    ch.length_en = freq & 0x4000 != 0;
    ch.freq_raw = freq & 0x7FF;
    ch.phase = 0;
    if has_sweep {
        ch.sweep_period = ((sweep >> 4) & 7) as u8;
        ch.sweep_neg = sweep & 8 != 0;
        ch.sweep_shift = (sweep & 7) as u8;
        ch.sweep_timer = ch.sweep_period;
        ch.sweep_clock = 0;
    }
    ch.phase_inc = freq_to_inc(square_hz(ch.freq_raw), at_least_8000(rate));
}

pub fn refresh_square_freq(ch: &mut SquareCh, freq_reg: u16, rate: u32)
    requires
        old(ch).wf(),
    ensures
        *final(ch) == old(ch).retuned(freq_reg, rate),
        final(ch).wf(),
{
    proof {
        lemma_fields(freq_reg);
    }
    if !ch.enabled {
        return;
    }
    ch.length_en = freq_reg & 0x4000 != 0;
    ch.freq_raw = freq_reg & 0x7FF;
    ch.phase_inc = freq_to_inc(square_hz(ch.freq_raw), rate);
}

pub fn tick_length_sq(ch: &mut SquareCh)
    requires
        old(ch).wf(),
    ensures
        *final(ch) == old(ch).length_ticked(),
        final(ch).wf(),
{
    if ch.length_en && ch.enabled {
        if ch.length > 0 {
            ch.length = ch.length - 1;
        } else {
            ch.enabled = false;
        }
    }
}

pub fn tick_envelope_sq(ch: &mut SquareCh, rate: u32)
    requires
        old(ch).wf(),
    ensures
        *final(ch) == old(ch).env_ticked(rate),
        final(ch).wf(),
{
    if !ch.enabled {
        return;
    }
    let (volume, env_timer, env_clock) = step_envelope(
        ch.volume,
        ch.env_dir,
        ch.env_period,
        ch.env_timer,
        ch.env_clock,
        rate,
    );
    ch.volume = volume;
    ch.env_timer = env_timer;
    ch.env_clock = env_clock;
}

pub fn tick_sweep(ch: &mut SquareCh, rate: u32)
    requires
        old(ch).wf(),
    ensures
        *final(ch) == old(ch).sweep_ticked(rate),
        final(ch).wf(),
{
    if ch.sweep_period == 0 || ch.sweep_shift == 0 || !ch.enabled || rate / 128 == 0 {
        return;
    }
    let c: u32 = ch.sweep_clock.saturating_add(1);
    if c < rate / 128 {
        ch.sweep_clock = c;
        return;
    }
    ch.sweep_clock = 0;
    if ch.sweep_timer > 0 {
        ch.sweep_timer = ch.sweep_timer - 1;
        return;
    }
    ch.sweep_timer = ch.sweep_period;
    let f: u16 = ch.freq_raw;
    let k: u8 = ch.sweep_shift;
    let delta: u16 = f >> k;
    proof {
        lemma_shr_le(f, k);
    }
    let g: u16 = if ch.sweep_neg {
        f - delta
    } else {
        f + delta
    };
    if g > 2047 {
        ch.enabled = false;
    } else {
        ch.freq_raw = g;
    }
}

pub fn square_tick(ch: &mut SquareCh, rate: u32) -> (r: i32)
    requires
        old(ch).wf(),
    ensures
        (*final(ch), r as int) == old(ch).ticked(rate),
        final(ch).wf(),
        -7680 <= r <= 7680,
{
    reveal(SquareCh::ticked);
    if !ch.enabled || ch.volume == 0 {
        return 0;
    }
    tick_envelope_sq(ch, rate);
    tick_sweep(ch, rate);
    ch.phase = ch.phase.wrapping_add(ch.phase_inc);
    let step: u32 = (ch.phase >> 16) & 7;
    level_of(duty_bit(ch.duty, step), ch.volume)
}

impl WaveCh {
    /// The 4-bit sample at a position: two per byte, high nibble first.
    pub open spec fn nibble(self, idx: u32) -> u8 {
        let b = self.wave[(idx / 2) as int];
        if idx % 2 == 0 {
            b >> 4
        } else {
            b & 0xF
        }
    }

    pub open spec fn triggered(self, regs: PsgRegs, rate: u32) -> WaveCh {
        WaveCh {
            wave: regs.wave,
            enabled: regs.ch3_l & 0x80 != 0,
            volume_code: ((regs.ch3_h >> 5) & 3) as u8,
            length: (256 - (regs.ch3_h & 0xFF)) as u16,
            length_en: regs.ch3_x & 0x4000 != 0,
            phase: 0,
            phase_inc: inc_of(wave_freq(regs.ch3_x), rate),
        }
    }

    pub open spec fn length_ticked(self) -> WaveCh {
        if self.length_en && self.enabled {
            if self.length > 0 {
                WaveCh { length: (self.length - 1) as u16, ..self }
            } else {
                WaveCh { enabled: false, ..self }
            }
        } else {
            self
        }
    }

    pub open spec fn retuned(self, regs: PsgRegs, rate: u32) -> WaveCh {
        WaveCh {
            phase_inc: inc_of(wave_freq(regs.ch3_x), rate),
            volume_code: ((regs.ch3_h >> 5) & 3) as u8,
            length_en: regs.ch3_x & 0x4000 != 0,
            ..self
        }
    }

    /// One output sample: the nibble around its midpoint, scaled by the
    /// volume code (100, 50, 25 percent).
    #[verifier::opaque]
    pub open spec fn ticked(self) -> (WaveCh, int) {
        if !self.enabled || self.volume_code == 0 {
            (self, 0)
        } else {
            let s = WaveCh { phase: self.phase.wrapping_add(self.phase_inc), ..self };
            let gain: int = if self.volume_code == 1 {
                512
            } else if self.volume_code == 2 {
                256
            } else if self.volume_code == 3 {
                128
            } else {
                32
            };
            (s, (s.nibble((s.phase >> 16) & 31) - 8) * gain)
        }
    }
}

pub fn tick_length_wave(ch: &mut WaveCh)
    ensures
        *final(ch) == old(ch).length_ticked(),
{
    if ch.length_en && ch.enabled {
        if ch.length > 0 {
            ch.length = ch.length - 1;
        } else {
            ch.enabled = false;
        }
    }
}

pub fn wave_tick(ch: &mut WaveCh) -> (r: i32)
    ensures
        (*final(ch), r as int) == old(ch).ticked(),
        -4096 <= r <= 4096,
{
    reveal(WaveCh::ticked);
    if !ch.enabled || ch.volume_code == 0 {
        return 0;
    }
    ch.phase = ch.phase.wrapping_add(ch.phase_inc);
    let ph: u32 = ch.phase;
    let idx: u32 = (ph >> 16) & 31;
    proof {
        lemma_and32(ph >> 16, 31);
    }
    let b: u8 = ch.wave[(idx / 2) as usize];
    proof {
        lemma_nibbles(b);
    }
    let n: u8 = if idx % 2 == 0 {
        b >> 4
    } else {
        b & 0xF
    };
    let gain: i32 = if ch.volume_code == 1 {
        512
    } else if ch.volume_code == 2 {
        256
    } else if ch.volume_code == 3 {
        128
    } else {
        32
    };
    let s: i32 = n as i32 - 8;
    assert(-4096 <= s * gain <= 4096) by (nonlinear_arith)
        requires
            -8 <= s <= 7,
            gain == 512 || gain == 256 || gain == 128 || gain == 32,
    ;
    s * gain
}

/// Noise divider: samples per shift at a rate.
pub open spec fn noise_period(poly: u16, rate: u32) -> u32 {
    let shift = ((poly >> 4) & 0xF) as u32;
    let code = (poly & 7) as u32;
    let r: int = if code == 0 {
        8
    } else {
        code * 16
    };
    let denom = r * (1u32 << ((shift + 1) as u32));
    let freq = 524288int / denom;
    let p = rate as int / (if freq < 1 {
        1
    } else {
        freq
    });
    if p < 1 {
        1
    } else {
        p as u32
    }
}

/// One shift of the 15-bit (or 7-bit) feedback register.
pub open spec fn lfsr_next(lfsr: u16, width7: bool) -> u16 {
    let bit = (lfsr ^ (lfsr >> 1)) & 1;
    if bit != 0 {
        if width7 {
            (lfsr >> 1) | 0x40
        } else {
            (lfsr >> 1) | 0x4000
        }
    } else {
        lfsr >> 1
    }
}

impl NoiseCh {
    pub open spec fn wf(self) -> bool {
        self.volume <= 15
    }

    pub open spec fn retuned(self, poly: u16, rate: u32) -> NoiseCh {
        if self.enabled {
            NoiseCh { width7: poly & 8 != 0, period_samples: noise_period(poly, rate), ..self }
        } else {
            self
        }
    }

    pub open spec fn triggered(self, env: u16, poly: u16, rate: u32) -> NoiseCh {
        let p = noise_period(poly, floor_rate(rate));
        NoiseCh {
            enabled: true,
            volume: ((env >> 12) & 0xF) as u8,
            env_dir: env & 0x800 != 0,
            env_period: (env & 7) as u8,
            env_timer: (env & 7) as u8,
            env_clock: 0,
            length: (64 - ((env >> 8) & 0x3F)) as u16,
            length_en: poly & 0x4000 != 0,
            width7: poly & 8 != 0,
            lfsr: 0x7FFF,
            period_samples: p,
            timer: p,
        }
    }

    pub open spec fn length_ticked(self) -> NoiseCh {
        if self.length_en && self.enabled {
            if self.length > 0 {
                NoiseCh { length: (self.length - 1) as u16, ..self }
            } else {
                NoiseCh { enabled: false, ..self }
            }
        } else {
            self
        }
    }

    pub open spec fn env_ticked(self, rate: u32) -> NoiseCh {
        if self.enabled {
            let (volume, env_timer, env_clock) = envelope(
                self.volume,
                self.env_dir,
                self.env_period,
                self.env_timer,
                self.env_clock,
                rate,
            );
            NoiseCh { volume, env_timer, env_clock, ..self }
        } else {
            self
        }
    }

    /// One output sample: bit 0 of the register at the volume.
    #[verifier::opaque]
    pub open spec fn ticked(self, rate: u32) -> (NoiseCh, int) {
        if !self.enabled || self.volume == 0 {
            (self, 0)
        } else {
            let s = self.env_ticked(rate);
            let t = if s.timer <= 1 {
                NoiseCh {
                    timer: if s.period_samples < 1 {
                        1
                    } else {
                        s.period_samples
                    },
                    lfsr: lfsr_next(s.lfsr, s.width7),
                    ..s
                }
            } else {
                NoiseCh { timer: (s.timer - 1) as u32, ..s }
            };
            (t, level(t.lfsr & 1 != 0, t.volume))
        }
    }
}

impl Default for NoiseCh {
    fn default() -> (r: Self)
        ensures
            r == silent_noise(),
            r.wf(),
    {
        NoiseCh {
            enabled: false,
            lfsr: 0x7FFF,
            timer: 0,
            period_samples: 1,
            volume: 0,
            env_dir: false,
            env_period: 0,
            env_timer: 0,
            env_clock: 0,
            length: 0,
            length_en: false,
            width7: false,
        }
    }
}

pub open spec fn silent_noise() -> NoiseCh {
    NoiseCh {
        enabled: false,
        lfsr: 0x7FFF,
        timer: 0,
        period_samples: 1,
        volume: 0,
        env_dir: false,
        env_period: 0,
        env_timer: 0,
        env_clock: 0,
        length: 0,
        length_en: false,
        width7: false,
    }
}

fn period_for(poly: u16, rate: u32) -> (r: u32)
    ensures
        r == noise_period(poly, rate),
{
    let shift: u32 = ((poly >> 4) & 0xF) as u32;
    let code: u32 = (poly & 7) as u32;
    proof {
        lemma_fields(poly);
        lemma_pow16((shift + 1) as u32);
    }
    let div: u32 = if code == 0 {
        8
    } else {
        code * 16
    };
    let pw: u32 = 1u32 << (shift + 1);
    assert(8 <= div * pw <= 7340032) by (nonlinear_arith)
        requires
            8 <= div <= 112,
            1 <= pw <= 65536,
    ;
    let denom: u32 = div * pw;
    let freq: u32 = 524288 / denom;
    let f: u32 = if freq < 1 {
        1
    } else {
        freq
    };
    let p: u32 = rate / f;
    if p < 1 {
        1
    } else {
        p
    }
}

pub fn refresh_noise_period(ch: &mut NoiseCh, poly: u16, rate: u32)
    requires
        old(ch).wf(),
    ensures
        *final(ch) == old(ch).retuned(poly, rate),
        final(ch).wf(),
{
    if !ch.enabled {
        return;
    }
    ch.width7 = poly & 8 != 0;
    ch.period_samples = period_for(poly, rate);
}

pub fn trigger_noise(ch: &mut NoiseCh, env: u16, poly: u16, rate: u32)
    ensures
        *final(ch) == old(ch).triggered(env, poly, rate),
        final(ch).wf(),
{
    proof {
        lemma_fields(env);
    }
    ch.enabled = true;
    ch.volume = ((env >> 12) & 0xF) as u8;
    ch.env_dir = env & 0x800 != 0;
    ch.env_period = (env & 7) as u8;
    ch.env_timer = ch.env_period;
    ch.env_clock = 0;
    ch.length = 64 - ((env >> 8) & 0x3F);
    ch.length_en = poly & 0x4000 != 0;
    ch.lfsr = 0x7FFF;
    refresh_noise_period(ch, poly, at_least_8000(rate));
    ch.timer = ch.period_samples;
}

pub fn tick_length_noise(ch: &mut NoiseCh)
    requires
        old(ch).wf(),
    ensures
        *final(ch) == old(ch).length_ticked(),
        final(ch).wf(),
{
    if ch.length_en && ch.enabled {
        if ch.length > 0 {
            ch.length = ch.length - 1;
        } else {
            ch.enabled = false;
        }
    }
}

pub fn tick_envelope_noise(ch: &mut NoiseCh, rate: u32)
    requires
        old(ch).wf(),
    ensures
        *final(ch) == old(ch).env_ticked(rate),
        final(ch).wf(),
{
    if !ch.enabled {
        return;
    }
    let (volume, env_timer, env_clock) = step_envelope(
        ch.volume,
        ch.env_dir,
        ch.env_period,
        ch.env_timer,
        ch.env_clock,
        rate,
    );
    ch.volume = volume;
    ch.env_timer = env_timer;
    ch.env_clock = env_clock;
}

pub fn noise_tick(ch: &mut NoiseCh, rate: u32) -> (r: i32)
    requires
        old(ch).wf(),
    ensures
        (*final(ch), r as int) == old(ch).ticked(rate),
        final(ch).wf(),
        -7680 <= r <= 7680,
{
    reveal(NoiseCh::ticked);
    if !ch.enabled || ch.volume == 0 {
        return 0;
    }
    tick_envelope_noise(ch, rate);
    if ch.timer > 0 {
        ch.timer = ch.timer - 1;
    }
    if ch.timer == 0 {
        ch.timer = if ch.period_samples < 1 {
            1
        } else {
            ch.period_samples
        };
        let bit: u16 = (ch.lfsr ^ (ch.lfsr >> 1)) & 1;
        ch.lfsr = ch.lfsr >> 1;
        if bit != 0 {
            if ch.width7 {
                ch.lfsr = ch.lfsr | 0x40;
            } else {
                ch.lfsr = ch.lfsr | 0x4000;
            }
        }
    }
    level_of(ch.lfsr & 1 != 0, ch.volume)
}

/// Gain in sevenths from the left and right master volumes; a side that is off
/// leaves the other alone, and both off is full.
pub open spec fn master_gain(sndl: u16) -> int {
    let r = (sndl & 7) as int;
    let l = ((sndl >> 4) & 7) as int;
    if l == 0 && r == 0 {
        7
    } else if l == 0 {
        r
    } else if r == 0 {
        l
    } else {
        (l + r) / 2
    }
}

/// Division that drops the fraction, towards zero.
pub open spec fn toward_zero(a: int, b: int) -> int {
    if a < 0 {
        -((-a) / b)
    } else {
        a / b
    }
}

impl Psg {
    pub open spec fn wf(self) -> bool {
        self.sq1.wf() && self.sq2.wf() && self.noise.wf()
    }

    pub open spec fn triggered(self, ch: u8, regs: PsgRegs, rate: u32) -> Psg {
        if ch == 1 {
            Psg { sq1: self.sq1.triggered(regs.ch1_l, regs.ch1_h, regs.ch1_x, true, rate), ..self }
        } else if ch == 2 {
            Psg { sq2: self.sq2.triggered(0, regs.ch2_l, regs.ch2_h, false, rate), ..self }
        } else if ch == 3 {
            Psg { wave: self.wave.triggered(regs, rate), ..self }
        } else if ch == 4 {
            Psg { noise: self.noise.triggered(regs.ch4_l, regs.ch4_h, rate), ..self }
        } else {
            self
        }
    }

    /// Bits 0-3: which channels are on.
    pub open spec fn status(self) -> u8 {
        (if self.sq1.enabled {
            1u8
        } else {
            0
        }) | (if self.sq2.enabled {
            2u8
        } else {
            0
        }) | (if self.wave.enabled {
            4u8
        } else {
            0
        }) | (if self.noise.enabled {
            8u8
        } else {
            0
        })
    }

    /// Every channel off.
    pub open spec fn all_off(self) -> Psg {
        Psg {
            sq1: SquareCh { enabled: false, ..self.sq1 },
            sq2: SquareCh { enabled: false, ..self.sq2 },
            wave: WaveCh { enabled: false, ..self.wave },
            noise: NoiseCh { enabled: false, ..self.noise },
            ..self
        }
    }

    /// A wave DAC without power turns the wave channel off.
    pub open spec fn wave_powered(self, ch3_l: u16) -> Psg {
        if ch3_l & 0x80 == 0 {
            Psg { wave: WaveCh { enabled: false, ..self.wave }, ..self }
        } else {
            self
        }
    }

    /// The 256 Hz length clock, counted in samples.
    pub open spec fn length_clocked(self, rate: u32) -> Psg {
        if self.len_clock.saturating_add(1) >= rate / 256 {
            Psg {
                len_clock: 0,
                sq1: self.sq1.length_ticked(),
                sq2: self.sq2.length_ticked(),
                wave: self.wave.length_ticked(),
                noise: self.noise.length_ticked(),
                ..self
            }
        } else {
            Psg { len_clock: self.len_clock.saturating_add(1), ..self }
        }
    }

    /// State before the channels tick: registers taken over, lengths clocked.
    #[verifier::opaque]
    pub open spec fn prepared(self, regs: PsgRegs, rate: u32) -> Psg {
        let a = Psg { wave: WaveCh { wave: regs.wave, ..self.wave }, ..self }.wave_powered(
            regs.ch3_l,
        ).length_clocked(rate);
        Psg {
            sq1: a.sq1.retuned(regs.ch1_x, rate),
            sq2: a.sq2.retuned(regs.ch2_h, rate),
            wave: a.wave.retuned(regs, rate),
            noise: a.noise.retuned(regs.ch4_h, rate),
            ..a
        }
    }

    /// One mono sample at `rate` Hz.
    pub open spec fn sampled(self, regs: PsgRegs, rate: u32) -> (Psg, int) {
        let k = floor_rate(rate);
        let p = self.prepared(regs, k);
        let (sq1, v1) = if routed(regs.sndl, 0) {
            p.sq1.ticked(k)
        } else {
            (p.sq1, 0)
        };
        let (sq2, v2) = if routed(regs.sndl, 1) {
            p.sq2.ticked(k)
        } else {
            (p.sq2, 0)
        };
        let (wave, v3) = if routed(regs.sndl, 2) {
            p.wave.ticked()
        } else {
            (p.wave, 0)
        };
        let (noise, v4) = if routed(regs.sndl, 3) {
            p.noise.ticked(k)
        } else {
            (p.noise, 0)
        };
        let mix = v1 + v2 + v3 + v4;
        (
            Psg {
                sq1,
                sq2,
                wave,
                noise,
                samples_from_psg: if mix != 0 {
                    p.samples_from_psg.wrapping_add(1)
                } else {
                    p.samples_from_psg
                },
                ..p
            },
            toward_zero(mix * master_gain(regs.sndl), 7),
        )
    }

    pub open spec fn fresh(self) -> bool {
        &&& self.sq1 == silent_square() && self.sq2 == silent_square() && self.noise
            == silent_noise()
        &&& !self.wave.enabled && self.wave.phase == 0 && self.wave.phase_inc == 0
        &&& self.wave.volume_code == 0 && self.wave.length == 0 && !self.wave.length_en
        &&& forall|i: int| 0 <= i < 16 ==> #[trigger] self.wave.wave[i] == 0
        &&& self.len_clock == 0 && self.samples_from_psg == 0
    }

    pub fn new() -> (r: Self)
        ensures
            r.fresh(),
            r.wf(),
    {
        Psg {
            sq1: SquareCh::default(),
            sq2: SquareCh::default(),
            wave: WaveCh {
                enabled: false,
                phase: 0,
                phase_inc: 0,
                volume_code: 0,
                length: 0,
                length_en: false,
                wave: [0;16],
            },
            noise: NoiseCh::default(),
            len_clock: 0,
            samples_from_psg: 0,
        }
    }

    /// Channel init (bit 15 of the frequency register), `ch` 1-4.
    pub fn trigger(&mut self, ch: u8, regs: &PsgRegs, rate: u32)
        requires
            old(self).wf(),
        ensures
            *final(self) == old(self).triggered(ch, *regs, rate),
            final(self).wf(),
    {
        if ch == 1 {
            trigger_square(&mut self.sq1, regs.ch1_l, regs.ch1_h, regs.ch1_x, true, rate);
        } else if ch == 2 {
            trigger_square(&mut self.sq2, 0, regs.ch2_l, regs.ch2_h, false, rate);
        } else if ch == 3 {
            let c: u16 = regs.ch3_h;
            proof {
                lemma_fields(c);
            }
            self.wave = WaveCh {
                wave: regs.wave,
                enabled: regs.ch3_l & 0x80 != 0,
                volume_code: ((regs.ch3_h >> 5) & 3) as u8,
                length: 256 - (c & 0xFF),
                length_en: regs.ch3_x & 0x4000 != 0,
                phase: 0,
                phase_inc: freq_to_inc(wave_hz(regs.ch3_x), rate),
            };
        } else if ch == 4 {
            trigger_noise(&mut self.noise, regs.ch4_l, regs.ch4_h, rate);
        }
    }

    pub fn set_wave_byte(&mut self, offset: u8, val: u8)
        requires
            old(self).wf(),
        ensures
            *final(self) == (Psg {
                wave: WaveCh {
                    wave: aset(old(self).wave.wave, (offset & 15) as int, val),
                    ..old(self).wave
                },
                ..*old(self)
            }),
            final(self).wf(),
    {
        proof {
            lemma_nibbles(offset);
        }
        self.wave.wave[(offset & 15) as usize] = val;
    }

    pub fn wave_byte(&self, offset: u8) -> (r: u8)
        ensures
            r == self.wave.wave[(offset & 15) as int],
    {
        proof {
            lemma_nibbles(offset);
        }
        self.wave.wave[(offset & 15) as usize]
    }

    pub fn channel_status(&self) -> (r: u8)
        ensures
            r == self.status(),
    {
        let a: u8 = if self.sq1.enabled { 1 } else { 0 };
        let b: u8 = if self.sq2.enabled { 2 } else { 0 };
        let c: u8 = if self.wave.enabled { 4 } else { 0 };
        let d: u8 = if self.noise.enabled { 8 } else { 0 };
        a | b | c | d
    }

    pub fn turn_off(&mut self)
        requires
            old(self).wf(),
        ensures
            *final(self) == old(self).all_off(),
            final(self).wf(),
    {
        self.sq1.enabled = false;
        self.sq2.enabled = false;
        self.wave.enabled = false;
        self.noise.enabled = false;
    }

    pub fn power_wave(&mut self, ch3_l: u16)
        requires
            old(self).wf(),
        ensures
            *final(self) == old(self).wave_powered(ch3_l),
            final(self).wf(),
    {
        if ch3_l & 0x80 == 0 {
            self.wave.enabled = false;
        }
    }

    fn prepare(&mut self, regs: &PsgRegs, rate: u32)
        requires
            old(self).wf(),
            rate >= 8000,
        ensures
            *final(self) == old(self).prepared(*regs, rate),
            final(self).wf(),
    {
        reveal(Psg::prepared);
        self.wave.wave = regs.wave;
        self.power_wave(regs.ch3_l);
        self.len_clock = self.len_clock.saturating_add(1);
        if self.len_clock >= rate / 256 {
            self.len_clock = 0;
            tick_length_sq(&mut self.sq1);
            tick_length_sq(&mut self.sq2);
            tick_length_wave(&mut self.wave);
            tick_length_noise(&mut self.noise);
        }
        refresh_square_freq(&mut self.sq1, regs.ch1_x, rate);
        refresh_square_freq(&mut self.sq2, regs.ch2_h, rate);
        self.wave.phase_inc = freq_to_inc(wave_hz(regs.ch3_x), rate);
        self.wave.volume_code = ((regs.ch3_h >> 5) & 3) as u8;
        self.wave.length_en = regs.ch3_x & 0x4000 != 0;
        refresh_noise_period(&mut self.noise, regs.ch4_h, rate);
    }

    /// Produce one mono PSG sample at `rate` Hz.
    pub fn sample(&mut self, regs: &PsgRegs, rate: u32) -> (r: i16)
        requires
            old(self).wf(),
        ensures
            (*final(self), r as int) == old(self).sampled(*regs, rate),
            final(self).wf(),
    {
        let k: u32 = at_least_8000(rate);
        self.prepare(regs, k);
        let mut mix: i32 = 0;
        if channel_routed(regs.sndl, 0) {
            mix = mix + square_tick(&mut self.sq1, k);
        }
        if channel_routed(regs.sndl, 1) {
            mix = mix + square_tick(&mut self.sq2, k);
        }
        if channel_routed(regs.sndl, 2) {
            mix = mix + wave_tick(&mut self.wave);
        }
        if channel_routed(regs.sndl, 3) {
            mix = mix + noise_tick(&mut self.noise, k);
        }
        if mix != 0 {
            self.samples_from_psg = self.samples_from_psg.wrapping_add(1);
        }
        let sl: u16 = regs.sndl;
        proof {
            lemma_fields(sl);
        }
        let vol_r: i32 = (sl & 7) as i32;
        let vol_l: i32 = ((sl >> 4) & 7) as i32;
        let vol: i32 = if vol_l == 0 && vol_r == 0 {
            7
        } else if vol_l == 0 {
            vol_r
        } else if vol_r == 0 {
            vol_l
        } else {
            (vol_l + vol_r) / 2
        };
        assert(vol == master_gain(sl));
        assert(-27136 * 7 <= mix * vol <= 27136 * 7) by (nonlinear_arith)
            requires
                -27136 <= mix <= 27136,
                1 <= vol <= 7,
        ;
        let p: i32 = mix * vol;
        if p < 0 {
            let m: i32 = -p;
            (-(m / 7)) as i16
        } else {
            (p / 7) as i16
        }
    }
}

impl Default for Psg {
    fn default() -> (r: Self)
        ensures
            r.fresh(),
            r.wf(),
    {
        Psg::new()
    }
}

/// Bounds of the register fields.
proof fn lemma_fields(v: u16)
    ensures
        v & 0xFF <= 255,
        v & 0x7FF <= 0x7FF,
        (v & 0x7FF) & 0x7FF == v & 0x7FF,
        (v >> 12) & 0xF <= 15,
        (v >> 8) & 0x3F <= 63,
        (v >> 4) & 0xF <= 15,
        (v >> 4) & 7 <= 7,
        v & 7 <= 7,
{
    lemma_and16(v, 0xFF);
    lemma_and16(v, 0x7FF);
    lemma_and16(v >> 12, 0xF);
    lemma_and16(v >> 8, 0x3F);
    lemma_and16(v >> 4, 0xF);
    lemma_and16(v >> 4, 7);
    lemma_and16(v, 7);
}

proof fn lemma_nibbles(b: u8)
    ensures
        b >> 4 <= 15,
        b & 0xF <= 15,
{
    lemma_and8(b, 0xF);
}

proof fn lemma_pow16(k: u32)
    requires
        k <= 16,
    ensures
        1 <= 1u32 << k <= 65536,
{
    assert(1 <= 1u32 << k && 1u32 << k <= 65536) by (bit_vector)
        requires
            k <= 16,
    ;
}

proof fn lemma_shr_le(f: u16, k: u8)
    requires
        k <= 7,
    ensures
        f >> k <= f,
{
    assert(f >> k <= f) by (bit_vector)
        requires
            k <= 7,
    ;
}

} // verus!
