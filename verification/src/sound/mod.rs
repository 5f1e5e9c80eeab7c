//! GBA audio: DirectSound FIFOs and PSG, mixed at the game rate.
//!
//! - Dual-rate FIFO pops from Timer 0/1 (SOUNDCNT_H bits 10/14).
//! - One output frame per FIFO sample-timer tick.
//! - The host takes frames from the ring and resamples them.

pub mod bios;
pub mod fifo;
pub mod mix_laws;
pub mod mixer;
pub mod pipe;
pub mod psg;
pub mod psg_laws;
pub mod regs;
pub mod resample;
pub mod settings;
pub mod wav;

pub use crate::sound::fifo::Fifo;
pub use crate::sound::regs::PsgRegs;

use crate::bits::aset;
use crate::sound::fifo::FifoModel;
use crate::sound::mixer::{mixer_new, Mixer, MixerModel, PSG_BASE_RATE};
use crate::sound::psg::{Psg, WaveCh};
use crate::sound::resample::{newest, ring_after, Capture, SampleRing, CAPTURE_CAP};
use vstd::prelude::*;

verus! {

/// FIFO and mixer timing as a savestate keeps them (the host ring is not kept).
#[derive(Debug)]
pub struct SoundPlaySnap {
    pub fifo_a: Fifo,
    pub fifo_b: Fifo,
    pub dma_req_a: bool,
    pub dma_req_b: bool,
    pub stream_rate: u32,
    pub samples_out: u64,
    pub samples_from_fifo: u64,
    pub cycle_accum_out: u32,
    pub cycle_accum_psg: u32,
    pub cycle_a: u32,
    pub cycle_b: u32,
    pub cps_a: u32,
    pub cps_b: u32,
    pub cps_out: u32,
}

#[verifier::ext_equal]
pub struct PlayModel {
    pub fifo_a: FifoModel,
    pub fifo_b: FifoModel,
    pub dma_req_a: bool,
    pub dma_req_b: bool,
    pub stream_rate: u32,
    pub samples_out: u64,
    pub samples_from_fifo: u64,
    pub cycle_accum_out: u32,
    pub cycle_accum_psg: u32,
    pub cycle_a: u32,
    pub cycle_b: u32,
    pub cps_a: u32,
    pub cps_b: u32,
    pub cps_out: u32,
}

impl PlayModel {
    pub open spec fn wf(self) -> bool {
        self.fifo_a.wf() && self.fifo_b.wf()
    }
}

impl View for SoundPlaySnap {
    type V = PlayModel;

    open spec fn view(&self) -> PlayModel {
        PlayModel {
            fifo_a: self.fifo_a@,
            fifo_b: self.fifo_b@,
            dma_req_a: self.dma_req_a,
            dma_req_b: self.dma_req_b,
            stream_rate: self.stream_rate,
            samples_out: self.samples_out,
            samples_from_fifo: self.samples_from_fifo,
            cycle_accum_out: self.cycle_accum_out,
            cycle_accum_psg: self.cycle_accum_psg,
            cycle_a: self.cycle_a,
            cycle_b: self.cycle_b,
            cps_a: self.cps_a,
            cps_b: self.cps_b,
            cps_out: self.cps_out,
        }
    }
}

#[verifier::ext_equal]
pub struct SoundModel {
    pub mix: MixerModel,
    pub ring: Seq<i16>,
    pub capture: Seq<i16>,
    pub emit_host: bool,
    pub dma_req_a: bool,
    pub dma_req_b: bool,
    pub stream_rate: u32,
    pub samples_out: u64,
    pub samples_from_fifo: u64,
}

impl SoundModel {
    #[verifier::opaque]
    pub open spec fn wf(self) -> bool {
        self.mix.wf() && self.capture.len() <= CAPTURE_CAP
    }

    pub open spec fn with_psg(self, psg: Psg) -> SoundModel {
        SoundModel { mix: MixerModel { psg, ..self.mix }, ..self }
    }

    /// PSG channel `ch` (re)started.
    #[verifier::opaque]
    pub open spec fn triggered(self, ch: u8, regs: PsgRegs) -> SoundModel {
        self.with_psg(self.mix.psg.triggered(ch, regs, PSG_BASE_RATE))
    }

    /// One byte of wave RAM stored.
    #[verifier::opaque]
    pub open spec fn wave_stored(self, offset: u8, val: u8) -> SoundModel {
        self.with_psg(
            Psg {
                wave: WaveCh {
                    wave: aset(self.mix.psg.wave.wave, (offset & 15) as int, val),
                    ..self.mix.psg.wave
                },
                ..self.mix.psg
            },
        )
    }

    /// Every PSG channel stopped.
    #[verifier::opaque]
    pub open spec fn psg_off(self) -> SoundModel {
        self.with_psg(self.mix.psg.all_off())
    }

    /// The wave channel follows its DAC power.
    #[verifier::opaque]
    pub open spec fn wave_powered(self, ch3_l: u16) -> SoundModel {
        self.with_psg(self.mix.psg.wave_powered(ch3_l))
    }

    #[verifier::opaque]
    pub open spec fn half_a(self, v: u16) -> SoundModel {
        self.with_fifo_a(self.mix.fifo_a.with_half(v))
    }

    #[verifier::opaque]
    pub open spec fn half_b(self, v: u16) -> SoundModel {
        self.with_fifo_b(self.mix.fifo_b.with_half(v))
    }

    #[verifier::opaque]
    pub open spec fn word_a(self, v: u32) -> SoundModel {
        self.with_fifo_a(self.mix.fifo_a.with_word(v))
    }

    #[verifier::opaque]
    pub open spec fn word_b(self, v: u32) -> SoundModel {
        self.with_fifo_b(self.mix.fifo_b.with_word(v))
    }

    /// Live channel-on bits.
    #[verifier::opaque]
    pub open spec fn status(self) -> u8 {
        self.mix.psg.status()
    }

    /// One byte of wave RAM.
    #[verifier::opaque]
    pub open spec fn wave_byte(self, offset: u8) -> u8 {
        self.mix.psg.wave.wave[(offset & 15) as int]
    }

    /// Samples waiting in FIFO A and FIFO B.
    #[verifier::opaque]
    pub open spec fn queued_a(self) -> nat {
        self.mix.fifo_a.samples.len()
    }

    #[verifier::opaque]
    pub open spec fn queued_b(self) -> nat {
        self.mix.fifo_b.samples.len()
    }

    /// FIFO A after a push: half full or more ends the request.
    pub open spec fn with_fifo_a(self, f: FifoModel) -> SoundModel {
        SoundModel {
            mix: MixerModel { fifo_a: f, ..self.mix },
            dma_req_a: self.dma_req_a && f.samples.len() < 16,
            ..self
        }
    }

    pub open spec fn with_fifo_b(self, f: FifoModel) -> SoundModel {
        SoundModel {
            mix: MixerModel { fifo_b: f, ..self.mix },
            dma_req_b: self.dma_req_b && f.samples.len() < 16,
            ..self
        }
    }

    #[verifier::opaque]
    pub open spec fn a_reset(self) -> SoundModel {
        SoundModel {
            mix: MixerModel { fifo_a: self.mix.fifo_a.cleared(), ..self.mix },
            dma_req_a: true,
            ..self
        }
    }

    #[verifier::opaque]
    pub open spec fn b_reset(self) -> SoundModel {
        SoundModel {
            mix: MixerModel { fifo_b: self.mix.fifo_b.cleared(), ..self.mix },
            dma_req_b: true,
            ..self
        }
    }

    /// FIFO `which` (0 is A) wants a refill.
    #[verifier::opaque]
    pub open spec fn wants_dma(self, which: u8) -> bool {
        if which == 0 {
            self.mix.fifo_a.wants_dma()
        } else {
            self.mix.fifo_b.wants_dma()
        }
    }

    #[verifier::opaque]
    pub open spec fn req_cleared(self, which: u8) -> SoundModel {
        if which == 0 {
            SoundModel {
                dma_req_a: false,
                mix: MixerModel {
                    fifo_a: FifoModel { dma_req: false, ..self.mix.fifo_a },
                    ..self.mix
                },
                ..self
            }
        } else {
            SoundModel {
                dma_req_b: false,
                mix: MixerModel {
                    fifo_b: FifoModel { dma_req: false, ..self.mix.fifo_b },
                    ..self.mix
                },
                ..self
            }
        }
    }

    /// One slice: the mixer runs, its frames go to the capture and, unless
    /// muted, to the host ring.
    #[verifier::opaque]
    pub open spec fn stepped(
        self,
        cycles: u32,
        regs: PsgRegs,
        reload: [u16; 4],
        t0: u16,
        t1: u16,
        ov: [u32; 4],
    ) -> SoundModel {
        let m = self.mix.stepped(cycles, regs, reload, t0, t1, ov);
        SoundModel {
            mix: m,
            ring: if self.emit_host {
                ring_after(self.ring, m.scratch)
            } else {
                self.ring
            },
            capture: newest(self.capture + m.scratch),
            emit_host: self.emit_host,
            dma_req_a: m.fifo_a.dma_req,
            dma_req_b: m.fifo_b.dma_req,
            stream_rate: m.stream_rate,
            samples_out: m.samples_out,
            samples_from_fifo: m.fifo_a.samples_consumed.wrapping_add(m.fifo_b.samples_consumed),
        }
    }

    #[verifier::opaque]
    pub open spec fn play(self) -> PlayModel {
        PlayModel {
            fifo_a: self.mix.fifo_a,
            fifo_b: self.mix.fifo_b,
            dma_req_a: self.dma_req_a,
            dma_req_b: self.dma_req_b,
            stream_rate: self.stream_rate,
            samples_out: self.samples_out,
            samples_from_fifo: self.samples_from_fifo,
            cycle_accum_out: self.mix.cycle_accum_out,
            cycle_accum_psg: self.mix.cycle_accum_psg,
            cycle_a: self.mix.cycle_a,
            cycle_b: self.mix.cycle_b,
            cps_a: self.mix.cps_a,
            cps_b: self.mix.cps_b,
            cps_out: self.mix.cps_out,
        }
    }

    #[verifier::opaque]
    pub open spec fn with_play(self, p: PlayModel) -> SoundModel {
        SoundModel {
            mix: MixerModel {
                fifo_a: p.fifo_a,
                fifo_b: p.fifo_b,
                cycle_accum_out: p.cycle_accum_out,
                cycle_accum_psg: p.cycle_accum_psg,
                cycle_a: p.cycle_a,
                cycle_b: p.cycle_b,
                cps_a: p.cps_a,
                cps_b: p.cps_b,
                cps_out: p.cps_out,
                stream_rate: p.stream_rate,
                samples_out: p.samples_out,
                ..self.mix
            },
            dma_req_a: p.dma_req_a,
            dma_req_b: p.dma_req_b,
            stream_rate: p.stream_rate,
            samples_out: p.samples_out,
            samples_from_fifo: p.samples_from_fifo,
            ..self
        }
    }
}

pub open spec fn sound_new(psg: Psg) -> SoundModel {
    SoundModel {
        mix: mixer_new(psg),
        ring: Seq::empty(),
        capture: Seq::empty(),
        emit_host: true,
        dma_req_a: false,
        dma_req_b: false,
        stream_rate: 32768,
        samples_out: 0,
        samples_from_fifo: 0,
    }
}

#[derive(Debug)]
pub struct Sound {
    pub mix: Mixer,
    pub ring: SampleRing,
    pub capture: Capture,
    /// Frames reach the host ring; off while the game runs faster than real
    /// time.
    pub emit_host: bool,
    /// Mirrors of the FIFO DMA request flags for bus and DMA.
    pub dma_req_a: bool,
    pub dma_req_b: bool,
    pub stream_rate: u32,
    pub samples_out: u64,
    pub samples_from_fifo: u64,
}

impl View for Sound {
    type V = SoundModel;

    open spec fn view(&self) -> SoundModel {
        sound_view(*self)
    }
}

#[verifier::opaque]
pub open spec fn sound_view(s: Sound) -> SoundModel {
    SoundModel {
        mix: s.mix@,
        ring: s.ring@,
        capture: s.capture@,
        emit_host: s.emit_host,
        dma_req_a: s.dma_req_a,
        dma_req_b: s.dma_req_b,
        stream_rate: s.stream_rate,
        samples_out: s.samples_out,
        samples_from_fifo: s.samples_from_fifo,
    }
}

impl Default for Sound {
    fn default() -> (r: Self)
        ensures
            r.mix.psg.fresh(),
            r@ == sound_new(r.mix.psg),
            r@.wf(),
    {
        Self::new()
    }
}

/// A FIFO trace on the DAC scale, on both sides.
pub fn trace_stereo(xs: &[i8]) -> (r: Vec<i16>)
    ensures
        r@ == Seq::new(2 * xs@.len(), |i: int| (xs@[i / 2] * 128) as i16),
{
    let mut out: Vec<i16> = Vec::new();
    let mut i: usize = 0;
    while i < xs.len()
        invariant
            i <= xs@.len(),
            out@ == Seq::new(2 * i as nat, |j: int| (xs@[j / 2] * 128) as i16),
        decreases xs@.len() - i,
    {
        let v: i16 = (xs[i] as i16) * 128;
        out.push(v);
        out.push(v);
        i += 1;
        assert(out@ =~= Seq::new(2 * i as nat, |j: int| (xs@[j / 2] * 128) as i16));
    }
    out
}

/// Two FIFO traces on the DAC scale, A left and B right, as far as both reach.
pub fn trace_split(a: &[i8], b: &[i8]) -> (r: Vec<i16>)
    ensures
        r@ == Seq::new(
            2 * (if a@.len() <= b@.len() {
                a@.len()
            } else {
                b@.len()
            }),
            |i: int|
                if i % 2 == 0 {
                    (a@[i / 2] * 128) as i16
                } else {
                    (b@[i / 2] * 128) as i16
                },
        ),
{
    let mut out: Vec<i16> = Vec::new();
    let mut i: usize = 0;
    while i < a.len() && i < b.len()
        invariant
            i <= a@.len(),
            i <= b@.len(),
            out@ == Seq::new(
                2 * i as nat,
                |j: int|
                    if j % 2 == 0 {
                        (a@[j / 2] * 128) as i16
                    } else {
                        (b@[j / 2] * 128) as i16
                    },
            ),
        decreases a@.len() - i,
    {
        out.push((a[i] as i16) * 128);
        out.push((b[i] as i16) * 128);
        i += 1;
        assert(out@ =~= Seq::new(
            2 * i as nat,
            |j: int|
                if j % 2 == 0 {
                    (a@[j / 2] * 128) as i16
                } else {
                    (b@[j / 2] * 128) as i16
                },
        ));
    }
    out
}

impl Sound {
    pub fn new() -> (r: Self)
        ensures
            r.mix.psg.fresh(),
            r@ == sound_new(r.mix.psg),
            r@.wf(),
    {
        reveal(sound_view);
        reveal(SoundModel::wf);
        Sound {
            mix: Mixer::new(),
            ring: SampleRing::new(),
            capture: Capture::new(),
            emit_host: true,
            dma_req_a: false,
            dma_req_b: false,
            stream_rate: 32768,
            samples_out: 0,
            samples_from_fifo: 0,
        }
    }

    pub fn samples_from_psg(&self) -> (r: u64)
        ensures
            r == self@.mix.psg.samples_from_psg,
    {
        reveal(sound_view);
        reveal(SoundModel::wf);
        self.mix.psg.samples_from_psg
    }

    /// Channel init (SOUNDxCNT_X bit 15 write), `ch` 1-4.
    pub fn psg_trigger(&mut self, ch: u8, regs: &PsgRegs)
        requires
            old(self)@.wf(),
        ensures
            final(self)@ == old(self)@.triggered(ch, *regs),
            final(self)@.wf(),
    {
        reveal(sound_view);
        reveal(SoundModel::wf);
        reveal(SoundModel::triggered);
        self.mix.psg.trigger(ch, regs, PSG_BASE_RATE);
    }

    pub fn psg_set_wave_byte(&mut self, offset: u8, val: u8)
        requires
            old(self)@.wf(),
        ensures
            final(self)@ == old(self)@.wave_stored(offset, val),
            final(self)@.wf(),
    {
        reveal(sound_view);
        reveal(SoundModel::wf);
        reveal(SoundModel::wave_stored);
        self.mix.psg.set_wave_byte(offset, val);
    }

    pub fn psg_get_wave_byte(&self, offset: u8) -> (r: u8)
        ensures
            r == self@.wave_byte(offset),
    {
        reveal(sound_view);
        reveal(SoundModel::wf);
        reveal(SoundModel::wave_byte);
        self.mix.psg.wave_byte(offset)
    }

    /// Live channel-on bits of SOUNDCNT_X.
    pub fn psg_channel_status(&self) -> (r: u8)
        ensures
            r == self@.status(),
    {
        reveal(sound_view);
        reveal(SoundModel::wf);
        reveal(SoundModel::status);
        self.mix.psg.channel_status()
    }

    /// Master switch off: every channel stops.
    pub fn psg_all_off(&mut self)
        requires
            old(self)@.wf(),
        ensures
            final(self)@ == old(self)@.psg_off(),
            final(self)@.wf(),
    {
        reveal(sound_view);
        reveal(SoundModel::wf);
        reveal(SoundModel::psg_off);
        self.mix.psg.turn_off();
    }

    /// SOUND3CNT_L write: a wave DAC without power stops its channel.
    pub fn psg_sync_wave(&mut self, ch3_l: u16)
        requires
            old(self)@.wf(),
        ensures
            final(self)@ == old(self)@.wave_powered(ch3_l),
            final(self)@.wf(),
    {
        reveal(sound_view);
        reveal(SoundModel::wf);
        reveal(SoundModel::wave_powered);
        self.mix.psg.power_wave(ch3_l);
    }

    pub fn peak_abs(&self) -> (r: i16)
        ensures
            r == self@.mix.peak_abs,
    {
        reveal(sound_view);
        reveal(SoundModel::wf);
        self.mix.peak_abs()
    }

    pub fn ring_len(&self) -> (r: usize)
        ensures
            r == self@.ring.len(),
    {
        reveal(sound_view);
        reveal(SoundModel::wf);
        self.ring.len()
    }

    pub fn ring_frames(&self) -> (r: usize)
        ensures
            r == self@.ring.len() / 2,
    {
        reveal(sound_view);
        reveal(SoundModel::wf);
        self.ring.frames()
    }

    pub fn fifo_locked(&self) -> (r: bool)
        ensures
            r == self@.mix.fifo_locked,
    {
        reveal(sound_view);
        reveal(SoundModel::wf);
        self.mix.fifo_locked()
    }

    /// Raw samples of both FIFOs at the sample clock.
    pub fn fifo_trace(&self) -> (r: (&[i8], &[i8]))
        ensures
            r.0@ == self@.mix.trace_a,
            r.1@ == self@.mix.trace_b,
    {
        reveal(sound_view);
        reveal(SoundModel::wf);
        (self.mix.trace_a.as_slice(), self.mix.trace_b.as_slice())
    }

    pub fn fifo_a_len(&self) -> (r: usize)
        ensures
            r == self@.queued_a(),
    {
        reveal(sound_view);
        reveal(SoundModel::wf);
        reveal(SoundModel::queued_a);
        self.mix.fifo_a.len()
    }

    pub fn fifo_b_len(&self) -> (r: usize)
        ensures
            r == self@.queued_b(),
    {
        reveal(sound_view);
        reveal(SoundModel::wf);
        reveal(SoundModel::queued_b);
        self.mix.fifo_b.len()
    }

    pub fn reset_fifo_a(&mut self)
        requires
            old(self)@.wf(),
        ensures
            final(self)@ == old(self)@.a_reset(),
            final(self)@.wf(),
    {
        reveal(sound_view);
        reveal(SoundModel::wf);
        reveal(SoundModel::a_reset);
        self.mix.fifo_a.clear();
        self.dma_req_a = true;
    }

    pub fn reset_fifo_b(&mut self)
        requires
            old(self)@.wf(),
        ensures
            final(self)@ == old(self)@.b_reset(),
            final(self)@.wf(),
    {
        reveal(sound_view);
        reveal(SoundModel::wf);
        reveal(SoundModel::b_reset);
        self.mix.fifo_b.clear();
        self.dma_req_b = true;
    }

    pub fn fifo_needs_dma(&self, which: u8) -> (r: bool)
        ensures
            r == self@.wants_dma(which),
    {
        reveal(sound_view);
        reveal(SoundModel::wf);
        reveal(SoundModel::wants_dma);
        if which == 0 {
            self.mix.fifo_a.needs_dma()
        } else {
            self.mix.fifo_b.needs_dma()
        }
    }

    pub fn clear_dma_req(&mut self, which: u8)
        requires
            old(self)@.wf(),
        ensures
            final(self)@ == old(self)@.req_cleared(which),
            final(self)@.wf(),
    {
        reveal(sound_view);
        reveal(SoundModel::wf);
        reveal(SoundModel::req_cleared);
        if which == 0 {
            self.dma_req_a = false;
            self.mix.fifo_a.dma_req = false;
        } else {
            self.dma_req_b = false;
            self.mix.fifo_b.dma_req = false;
        }
    }

    /// Frames reach the host ring, or not.
    pub fn set_emit_host(&mut self, on: bool)
        requires
            old(self)@.wf(),
        ensures
            final(self)@ == (SoundModel { emit_host: on, ..old(self)@ }),
            final(self)@.wf(),
    {
        reveal(sound_view);
        reveal(SoundModel::wf);
        self.emit_host = on;
    }

    /// FIFOs that are heard: bit 0 is A, bit 1 is B.
    pub fn set_ds_mode(&mut self, mode: u8)
        requires
            old(self)@.wf(),
        ensures
            final(self)@ == (SoundModel {
                mix: MixerModel { ds_mode: mode, ..old(self)@.mix },
                ..old(self)@
            }),
            final(self)@.wf(),
    {
        reveal(sound_view);
        reveal(SoundModel::wf);
        self.mix.ds_mode = mode;
    }

    pub fn push_fifo_a_word(&mut self, word: u32)
        requires
            old(self)@.wf(),
        ensures
            final(self)@ == old(self)@.word_a(word),
            final(self)@.wf(),
    {
        reveal(sound_view);
        reveal(SoundModel::wf);
        reveal(SoundModel::word_a);
        self.mix.fifo_a.push_word(word);
        if self.mix.fifo_a.len() >= 16 {
            self.dma_req_a = false;
        }
    }

    pub fn push_fifo_b_word(&mut self, word: u32)
        requires
            old(self)@.wf(),
        ensures
            final(self)@ == old(self)@.word_b(word),
            final(self)@.wf(),
    {
        reveal(sound_view);
        reveal(SoundModel::wf);
        reveal(SoundModel::word_b);
        self.mix.fifo_b.push_word(word);
        if self.mix.fifo_b.len() >= 16 {
            self.dma_req_b = false;
        }
    }

    pub fn push_fifo_a_half(&mut self, half: u16)
        requires
            old(self)@.wf(),
        ensures
            final(self)@ == old(self)@.half_a(half),
            final(self)@.wf(),
    {
        reveal(sound_view);
        reveal(SoundModel::wf);
        reveal(SoundModel::half_a);
        self.mix.fifo_a.push_half(half);
        if self.mix.fifo_a.len() >= 16 {
            self.dma_req_a = false;
        }
    }

    pub fn push_fifo_b_half(&mut self, half: u16)
        requires
            old(self)@.wf(),
        ensures
            final(self)@ == old(self)@.half_b(half),
            final(self)@.wf(),
    {
        reveal(sound_view);
        reveal(SoundModel::wf);
        reveal(SoundModel::half_b);
        self.mix.fifo_b.push_half(half);
        if self.mix.fifo_b.len() >= 16 {
            self.dma_req_b = false;
        }
    }

    /// Snapshot of the FIFOs and the mixer timing for savestates.
    pub fn snapshot_play(&self) -> (r: SoundPlaySnap)
        ensures
            r@ == self@.play(),
    {
        reveal(sound_view);
        reveal(SoundModel::wf);
        reveal(SoundModel::play);
        SoundPlaySnap {
            fifo_a: self.mix.fifo_a.copy(),
            fifo_b: self.mix.fifo_b.copy(),
            dma_req_a: self.dma_req_a,
            dma_req_b: self.dma_req_b,
            stream_rate: self.stream_rate,
            samples_out: self.samples_out,
            samples_from_fifo: self.samples_from_fifo,
            cycle_accum_out: self.mix.cycle_accum_out,
            cycle_accum_psg: self.mix.cycle_accum_psg,
            cycle_a: self.mix.cycle_a,
            cycle_b: self.mix.cycle_b,
            cps_a: self.mix.cps_a,
            cps_b: self.mix.cps_b,
            cps_out: self.mix.cps_out,
        }
    }

    pub fn restore_play(&mut self, s: SoundPlaySnap)
        requires
            old(self)@.wf(),
            s@.wf(),
        ensures
            final(self)@ == old(self)@.with_play(s@),
            final(self)@.wf(),
    {
        reveal(sound_view);
        reveal(SoundModel::wf);
        reveal(SoundModel::with_play);
        self.mix.fifo_a = s.fifo_a;
        self.mix.fifo_b = s.fifo_b;
        self.dma_req_a = s.dma_req_a;
        self.dma_req_b = s.dma_req_b;
        self.stream_rate = s.stream_rate;
        self.samples_out = s.samples_out;
        self.samples_from_fifo = s.samples_from_fifo;
        self.mix.cycle_accum_out = s.cycle_accum_out;
        self.mix.cycle_accum_psg = s.cycle_accum_psg;
        self.mix.cycle_a = s.cycle_a;
        self.mix.cycle_b = s.cycle_b;
        self.mix.cps_a = s.cps_a;
        self.mix.cps_b = s.cps_b;
        self.mix.cps_out = s.cps_out;
        self.mix.stream_rate = s.stream_rate;
        self.mix.samples_out = s.samples_out;
    }

    pub fn step(
        &mut self,
        cycles: u32,
        regs: &PsgRegs,
        timer_reload: [u16; 4],
        timer0_ctrl: u16,
        timer1_ctrl: u16,
        overflows: [u32; 4],
    )
        requires
            old(self)@.wf(),
        ensures
            final(self)@ == old(self)@.stepped(
                cycles,
                *regs,
                timer_reload,
                timer0_ctrl,
                timer1_ctrl,
                overflows,
            ),
            final(self)@.wf(),
    {
        reveal(sound_view);
        reveal(SoundModel::wf);
        reveal(SoundModel::stepped);
        self.mix.step(cycles, regs, timer_reload, timer0_ctrl, timer1_ctrl, overflows);
        self.stream_rate = self.mix.stream_rate;
        self.samples_out = self.mix.samples_out;
        self.samples_from_fifo = self.mix.samples_from_fifo();
        self.dma_req_a = self.mix.fifo_a.dma_req;
        self.dma_req_b = self.mix.fifo_b.dma_req;
        self.capture.push_batch(self.mix.scratch.as_slice());
        if self.emit_host {
            self.ring.push_batch(self.mix.scratch.as_slice());
        }
    }
}

/// Restoring a snapshot brings back exactly what it kept, on top of whatever
/// plays now.
pub proof fn law_play_round_trip(a: SoundModel, b: SoundModel)
    ensures
        b.with_play(a.play()).play() == a.play(),
{
    reveal(SoundModel::play);
    reveal(SoundModel::with_play);
}

} // verus!
