//! What a savestate holds, and its place in the data.

use super::codec::{
    begins, group_put, lemma_halves, lemma_put64, put16, put32, put64, put8, put_blob, put_flag, source, write16, write32, write64, write8, write_blob, write_flag, Reader, Source,
    StateError,
};
use super::parts::{
    get_channel, get_eeprom, get_gpio, lemma_channel, lemma_eeprom, lemma_gpio, put_channel,
    put_eeprom, put_gpio, read_channel, read_eeprom, read_gpio, write_channel, write_eeprom, write_gpio,
};
use crate::battery::{EepromFsm, EepromModel, FlashModel};
use crate::bus::model::BusModel;
use crate::bus::{bus_view, eeprom_view, flash_view, Bus};
use crate::dma::Channel;
use crate::rtc::{Rtc, RtcGpio};
use crate::sound::fifo::{empty_fifo, Fifo, FifoModel, FIFO_CAP};
use crate::sound::{PlayModel, SoundPlaySnap};
use crate::timers::Timers;
use vstd::prelude::*;

verus! {

// ---- timers -------------------------------------------------------------

#[verifier::opaque]
pub open spec fn put_timers(o: Seq<u8>, t: Timers) -> Seq<u8> {
    let o = put32(put32(put32(put32(o, t.counter[0]), t.counter[1]), t.counter[2]), t.counter[3]);
    let o = put16(put16(put16(put16(o, t.reload[0]), t.reload[1]), t.reload[2]), t.reload[3]);
    put32(put32(put32(put32(o, t.frac[0]), t.frac[1]), t.frac[2]), t.frac[3])
}

pub fn write_timers(out: &mut Vec<u8>, t: Timers)
    ensures
        final(out)@ == put_timers(old(out)@, t),
{
    reveal(put_timers);
    write32(out, t.counter[0]);
    write32(out, t.counter[1]);
    write32(out, t.counter[2]);
    write32(out, t.counter[3]);
    write16(out, t.reload[0]);
    write16(out, t.reload[1]);
    write16(out, t.reload[2]);
    write16(out, t.reload[3]);
    write32(out, t.frac[0]);
    write32(out, t.frac[1]);
    write32(out, t.frac[2]);
    write32(out, t.frac[3]);
}

pub open spec fn get_words(s: Source) -> (Source, [u32; 4]) {
    let (s, a) = s.u32();
    let (s, b) = s.u32();
    let (s, c) = s.u32();
    let (s, d) = s.u32();
    (s, [a, b, c, d])
}

fn read_words(s: &mut Reader) -> (r: [u32; 4])
    requires
        old(s).pos <= old(s).data@.len(),
    ensures
        (final(s)@, r) == get_words(old(s)@),
        final(s).pos <= final(s).data@.len(),
{
    let a: u32 = s.read32();
    let b: u32 = s.read32();
    let c: u32 = s.read32();
    let d: u32 = s.read32();
    [a, b, c, d]
}

/// The oldest states keep no prescaler remainders: those of the machine, `now`,
/// stay.
#[verifier::opaque]
pub open spec fn get_timers(s: Source, with_frac: bool, now: [u32; 4]) -> (Source, Timers) {
    let (s, counter) = get_words(s);
    let (s, a) = s.u16();
    let (s, b) = s.u16();
    let (s, c) = s.u16();
    let (s, d) = s.u16();
    let (s, frac) = if with_frac {
        get_words(s)
    } else {
        (s, now)
    };
    (s, Timers { counter, reload: [a, b, c, d], frac })
}

pub fn read_timers(s: &mut Reader, with_frac: bool, now: [u32; 4]) -> (r: Timers)
    requires
        old(s).pos <= old(s).data@.len(),
    ensures
        (final(s)@, r) == get_timers(old(s)@, with_frac, now),
        final(s).pos <= final(s).data@.len(),
{
    reveal(get_timers);
    let counter: [u32; 4] = read_words(s);
    let a: u16 = s.read16();
    let b: u16 = s.read16();
    let c: u16 = s.read16();
    let d: u16 = s.read16();
    let frac: [u32; 4] = if with_frac {
        read_words(s)
    } else {
        now
    };
    Timers { counter, reload: [a, b, c, d], frac }
}

pub proof fn lemma_timers(d: Seq<u8>, o: Seq<u8>, t: Timers, now: [u32; 4])
    requires
        begins(d, put_timers(o, t)),
    ensures
        begins(d, o),
        get_timers(source(d, o.len()), true, now) == (source(d, put_timers(o, t).len()), t),
{
    broadcast use group_put;

    reveal(put_timers);
    reveal(get_timers);
    let g = get_timers(source(d, o.len()), true, now).1;
    assert(g.counter =~= t.counter);
    assert(g.reload =~= t.reload);
    assert(g.frac =~= t.frac);
}

// ---- memory -------------------------------------------------------------

pub struct Memory {
    pub ewram: Vec<u8>,
    pub iwram: Vec<u8>,
    pub io: Vec<u8>,
    pub pal: Vec<u8>,
    pub vram: Vec<u8>,
    pub oam: Vec<u8>,
    pub sram: Vec<u8>,
}

pub struct MemoryModel {
    pub ewram: Seq<u8>,
    pub iwram: Seq<u8>,
    pub io: Seq<u8>,
    pub pal: Seq<u8>,
    pub vram: Seq<u8>,
    pub oam: Seq<u8>,
    pub sram: Seq<u8>,
}

impl View for Memory {
    type V = MemoryModel;

    open spec fn view(&self) -> MemoryModel {
        MemoryModel {
            ewram: self.ewram@,
            iwram: self.iwram@,
            io: self.io@,
            pal: self.pal@,
            vram: self.vram@,
            oam: self.oam@,
            sram: self.sram@,
        }
    }
}

pub open spec fn memory_of(b: BusModel) -> MemoryModel {
    MemoryModel {
        ewram: b.ewram,
        iwram: b.iwram,
        io: b.io,
        pal: b.pal,
        vram: b.vram,
        oam: b.oam,
        sram: b.sram,
    }
}

#[verifier::opaque]
pub open spec fn put_memory(o: Seq<u8>, m: MemoryModel) -> Seq<u8> {
    let o = put_blob(o, m.ewram);
    let o = put_blob(o, m.iwram);
    let o = put_blob(o, m.io);
    let o = put_blob(o, m.pal);
    let o = put_blob(o, m.vram);
    let o = put_blob(o, m.oam);
    put_blob(o, m.sram)
}

pub fn write_memory(out: &mut Vec<u8>, b: &Bus)
    ensures
        final(out)@ == put_memory(old(out)@, memory_of(b@)),
{
    reveal(bus_view);
    reveal(put_memory);
    write_blob(out, b.ewram.as_slice());
    write_blob(out, b.iwram.as_slice());
    write_blob(out, b.io.as_slice());
    write_blob(out, b.pal.as_slice());
    write_blob(out, b.vram.as_slice());
    write_blob(out, b.oam.as_slice());
    write_blob(out, b.sram.as_slice());
}

#[verifier::opaque]
pub open spec fn get_memory(s: Source) -> (Source, MemoryModel) {
    let (s, ewram) = s.blob();
    let (s, iwram) = s.blob();
    let (s, io) = s.blob();
    let (s, pal) = s.blob();
    let (s, vram) = s.blob();
    let (s, oam) = s.blob();
    let (s, sram) = s.blob();
    (s, MemoryModel { ewram, iwram, io, pal, vram, oam, sram })
}

pub fn read_memory(s: &mut Reader) -> (r: Memory)
    requires
        old(s).pos <= old(s).data@.len(),
    ensures
        (final(s)@, r@) == get_memory(old(s)@),
        final(s).pos <= final(s).data@.len(),
{
    reveal(get_memory);
    let ewram: Vec<u8> = s.read_blob();
    let iwram: Vec<u8> = s.read_blob();
    let io: Vec<u8> = s.read_blob();
    let pal: Vec<u8> = s.read_blob();
    let vram: Vec<u8> = s.read_blob();
    let oam: Vec<u8> = s.read_blob();
    let sram: Vec<u8> = s.read_blob();
    Memory { ewram, iwram, io, pal, vram, oam, sram }
}

/// Every image is short enough for a 32-bit length.
pub open spec fn lengths_fit(m: MemoryModel) -> bool {
    &&& m.ewram.len() <= u32::MAX
    &&& m.iwram.len() <= u32::MAX
    &&& m.io.len() <= u32::MAX
    &&& m.pal.len() <= u32::MAX
    &&& m.vram.len() <= u32::MAX
    &&& m.oam.len() <= u32::MAX
    &&& m.sram.len() <= u32::MAX
}

pub proof fn lemma_memory(d: Seq<u8>, o: Seq<u8>, m: MemoryModel)
    requires
        begins(d, put_memory(o, m)),
        lengths_fit(m),
    ensures
        begins(d, o),
        get_memory(source(d, o.len())) == (source(d, put_memory(o, m).len()), m),
{
    broadcast use group_put;

    reveal(put_memory);
    reveal(get_memory);
}

// ---- flash --------------------------------------------------------------

#[verifier::opaque]
pub open spec fn put_flash(o: Seq<u8>, f: Option<FlashModel>) -> Seq<u8> {
    match f {
        Some(c) => put32(put_blob(put8(o, 1), c.data), c.bank as u32),
        None => put8(o, 0),
    }
}

pub fn write_flash(out: &mut Vec<u8>, b: &Bus)
    ensures
        final(out)@ == put_flash(old(out)@, b@.flash),
{
    reveal(bus_view);
    reveal(flash_view);
    reveal(put_flash);
    match &b.flash {
        Some(c) => {
            write8(out, 1);
            write_blob(out, c.data.as_slice());
            write32(out, c.bank as u32);
        },
        None => write8(out, 0),
    }
}

/// Cells and bank of a flash chip, where the state has one.
#[verifier::opaque]
pub open spec fn get_flash(s: Source) -> (Source, Option<(Seq<u8>, u32)>) {
    let (s, has) = s.flag();
    if has {
        let (s, data) = s.blob();
        let (s, bank) = s.u32();
        (s, Some((data, bank)))
    } else {
        (s, None)
    }
}

pub open spec fn cells(f: Option<(Vec<u8>, u32)>) -> Option<(Seq<u8>, u32)> {
    match f {
        Some((v, bank)) => Some((v@, bank)),
        None => None,
    }
}

pub fn read_flash(s: &mut Reader) -> (r: Option<(Vec<u8>, u32)>)
    requires
        old(s).pos <= old(s).data@.len(),
    ensures
        (final(s)@, cells(r)) == get_flash(old(s)@),
        final(s).pos <= final(s).data@.len(),
{
    reveal(get_flash);
    if s.read_flag() {
        let data: Vec<u8> = s.read_blob();
        let bank: u32 = s.read32();
        Some((data, bank))
    } else {
        None
    }
}

pub open spec fn flash_cells(f: Option<FlashModel>) -> Option<(Seq<u8>, u32)> {
    match f {
        Some(c) => Some((c.data, c.bank as u32)),
        None => None,
    }
}

pub proof fn lemma_flash(d: Seq<u8>, o: Seq<u8>, f: Option<FlashModel>)
    requires
        begins(d, put_flash(o, f)),
        f matches Some(c) ==> c.data.len() <= u32::MAX,
    ensures
        begins(d, o),
        get_flash(source(d, o.len())) == (source(d, put_flash(o, f).len()), flash_cells(f)),
{
    broadcast use group_put;

    reveal(put_flash);
    reveal(get_flash);
}

// ---- sound --------------------------------------------------------------

pub open spec fn sample_bytes(s: Seq<i8>) -> Seq<u8> {
    Seq::new(s.len(), |i: int| s[i] as u8)
}

pub open spec fn byte_samples(b: Seq<u8>) -> Seq<i8> {
    Seq::new(b.len(), |i: int| b[i] as i8)
}

#[verifier::opaque]
pub open spec fn put_fifo(o: Seq<u8>, f: FifoModel) -> Seq<u8> {
    let o = put_blob(o, sample_bytes(f.samples));
    let o = put8(o, f.hold as u8);
    let o = put_flag(o, f.hold_valid);
    let o = put_flag(o, f.dma_req);
    put64(o, f.samples_consumed)
}

pub fn write_fifo(out: &mut Vec<u8>, f: &Fifo)
    ensures
        final(out)@ == put_fifo(old(out)@, f@),
{
    reveal(put_fifo);
    let samples: Vec<i8> = f.samples_vec();
    let mut raw: Vec<u8> = Vec::new();
    let mut i: usize = 0;
    while i < samples.len()
        invariant
            i <= samples@.len(),
            raw@ == sample_bytes(samples@).take(i as int),
        decreases samples@.len() - i,
    {
        raw.push(samples[i] as u8);
        i += 1;
    }
    assert(raw@ =~= sample_bytes(samples@));
    write_blob(out, raw.as_slice());
    write8(out, f.hold as u8);
    write_flag(out, f.hold_valid);
    write_flag(out, f.dma_req);
    write64(out, f.samples_consumed);
}

/// A queue longer than the hardware's is refused.
#[verifier::opaque]
pub open spec fn get_fifo(s: Source) -> (Source, FifoModel) {
    let (s, n) = s.u32();
    if n > FIFO_CAP {
        (s.failed(StateError::FifoLength(n)), empty_fifo())
    } else {
        let (s, raw) = s.raw(n as nat);
        let (s, hold) = s.u8();
        let (s, hold_valid) = s.flag();
        let (s, dma_req) = s.flag();
        let (s, samples_consumed) = s.u64();
        (
            s,
            FifoModel {
                samples: byte_samples(raw),
                hold: hold as i8,
                hold_valid,
                dma_req,
                samples_consumed,
            },
        )
    }
}

pub fn read_fifo(s: &mut Reader) -> (r: Fifo)
    requires
        old(s).pos <= old(s).data@.len(),
    ensures
        (final(s)@, r@) == get_fifo(old(s)@),
        r@.wf(),
        final(s).pos <= final(s).data@.len(),
{
    reveal(get_fifo);
    let n: u32 = s.read32();
    let mut fifo: Fifo = Fifo::new();
    if n as usize > FIFO_CAP {
        s.fail(StateError::FifoLength(n));
        return fifo;
    }
    let raw: Vec<u8> = s.read_raw(n as usize);
    assert(raw@.len() <= FIFO_CAP) by {
        reveal(Source::raw);
    }
    let mut samples: Vec<i8> = Vec::new();
    let mut i: usize = 0;
    while i < raw.len()
        invariant
            i <= raw@.len(),
            samples@ == byte_samples(raw@).take(i as int),
        decreases raw@.len() - i,
    {
        samples.push(raw[i] as i8);
        i += 1;
    }
    assert(samples@ =~= byte_samples(raw@));
    let hold: u8 = s.read8();
    let hold_valid: bool = s.read_flag();
    let dma_req: bool = s.read_flag();
    let consumed: u64 = s.read64();
    fifo.restore(samples.as_slice(), hold as i8, hold_valid, dma_req, consumed);
    fifo
}

pub proof fn lemma_fifo(d: Seq<u8>, o: Seq<u8>, f: FifoModel)
    requires
        begins(d, put_fifo(o, f)),
        f.wf(),
    ensures
        begins(d, o),
        get_fifo(source(d, o.len())) == (source(d, put_fifo(o, f).len()), f),
{
    broadcast use {group_put, lemma_put64};

    reveal(put_fifo);
    reveal(get_fifo);
    lemma_halves(0, 0, f.hold);
    assert forall|i: int| 0 <= i < f.samples.len() implies #[trigger] byte_samples(
        sample_bytes(f.samples),
    )[i] == f.samples[i] by {
        lemma_halves(0, 0, f.samples[i]);
    }
    assert(byte_samples(sample_bytes(f.samples)) =~= f.samples);
}

#[verifier::opaque]
pub open spec fn put_play(o: Seq<u8>, p: PlayModel) -> Seq<u8> {
    let o = put_fifo(o, p.fifo_a);
    let o = put_fifo(o, p.fifo_b);
    let o = put_flag(o, p.dma_req_a);
    let o = put_flag(o, p.dma_req_b);
    let o = put32(o, p.stream_rate);
    let o = put64(o, p.samples_out);
    let o = put64(o, p.samples_from_fifo);
    let o = put32(o, p.cycle_accum_out);
    let o = put32(o, p.cycle_accum_psg);
    let o = put32(o, p.cycle_a);
    let o = put32(o, p.cycle_b);
    let o = put32(o, p.cps_a);
    let o = put32(o, p.cps_b);
    put32(o, p.cps_out)
}

pub fn write_play(out: &mut Vec<u8>, p: &SoundPlaySnap)
    ensures
        final(out)@ == put_play(old(out)@, p@),
{
    reveal(put_play);
    write_fifo(out, &p.fifo_a);
    write_fifo(out, &p.fifo_b);
    write_flag(out, p.dma_req_a);
    write_flag(out, p.dma_req_b);
    write32(out, p.stream_rate);
    write64(out, p.samples_out);
    write64(out, p.samples_from_fifo);
    write32(out, p.cycle_accum_out);
    write32(out, p.cycle_accum_psg);
    write32(out, p.cycle_a);
    write32(out, p.cycle_b);
    write32(out, p.cps_a);
    write32(out, p.cps_b);
    write32(out, p.cps_out);
}

#[verifier::opaque]
pub open spec fn get_play(s: Source) -> (Source, PlayModel) {
    let (s, fifo_a) = get_fifo(s);
    let (s, fifo_b) = get_fifo(s);
    let (s, dma_req_a) = s.flag();
    let (s, dma_req_b) = s.flag();
    let (s, stream_rate) = s.u32();
    let (s, samples_out) = s.u64();
    let (s, samples_from_fifo) = s.u64();
    let (s, cycle_accum_out) = s.u32();
    let (s, cycle_accum_psg) = s.u32();
    let (s, cycle_a) = s.u32();
    let (s, cycle_b) = s.u32();
    let (s, cps_a) = s.u32();
    let (s, cps_b) = s.u32();
    let (s, cps_out) = s.u32();
    (
        s,
        PlayModel {
            fifo_a,
            fifo_b,
            dma_req_a,
            dma_req_b,
            stream_rate,
            samples_out,
            samples_from_fifo,
            cycle_accum_out,
            cycle_accum_psg,
            cycle_a,
            cycle_b,
            cps_a,
            cps_b,
            cps_out,
        },
    )
}

pub fn read_play(s: &mut Reader) -> (r: SoundPlaySnap)
    requires
        old(s).pos <= old(s).data@.len(),
    ensures
        (final(s)@, r@) == get_play(old(s)@),
        r@.wf(),
        final(s).pos <= final(s).data@.len(),
{
    reveal(get_play);
    let fifo_a: Fifo = read_fifo(s);
    let fifo_b: Fifo = read_fifo(s);
    let dma_req_a: bool = s.read_flag();
    let dma_req_b: bool = s.read_flag();
    let stream_rate: u32 = s.read32();
    let samples_out: u64 = s.read64();
    let samples_from_fifo: u64 = s.read64();
    let cycle_accum_out: u32 = s.read32();
    let cycle_accum_psg: u32 = s.read32();
    let cycle_a: u32 = s.read32();
    let cycle_b: u32 = s.read32();
    let cps_a: u32 = s.read32();
    let cps_b: u32 = s.read32();
    let cps_out: u32 = s.read32();
    SoundPlaySnap {
        fifo_a,
        fifo_b,
        dma_req_a,
        dma_req_b,
        stream_rate,
        samples_out,
        samples_from_fifo,
        cycle_accum_out,
        cycle_accum_psg,
        cycle_a,
        cycle_b,
        cps_a,
        cps_b,
        cps_out,
    }
}

pub proof fn lemma_play(d: Seq<u8>, o: Seq<u8>, p: PlayModel)
    requires
        begins(d, put_play(o, p)),
        p.wf(),
    ensures
        begins(d, o),
        get_play(source(d, o.len())) == (source(d, put_play(o, p).len()), p),
{
    broadcast use {group_put, lemma_put64};

    reveal(put_play);
    reveal(get_play);
    let a = put_fifo(o, p.fifo_a);
    let b = put_fifo(a, p.fifo_b);
    assert(begins(d, b));
    lemma_fifo(d, a, p.fifo_b);
    lemma_fifo(d, o, p.fifo_a);
}

// ---- waits, DMA and sound ----------------------------------------------

/// The second half of a state, which the oldest ones lack.
pub struct Late {
    pub halt_wait: bool,
    pub intr_wait_mask: u16,
    pub timer_start_mask: u8,
    pub ch: [Channel; 4],
    pub play: SoundPlaySnap,
}

pub struct LateModel {
    pub halt_wait: bool,
    pub intr_wait_mask: u16,
    pub timer_start_mask: u8,
    pub ch: [Channel; 4],
    pub play: PlayModel,
}

impl View for Late {
    type V = LateModel;

    open spec fn view(&self) -> LateModel {
        LateModel {
            halt_wait: self.halt_wait,
            intr_wait_mask: self.intr_wait_mask,
            timer_start_mask: self.timer_start_mask,
            ch: self.ch,
            play: self.play@,
        }
    }
}

pub open spec fn late_of(b: BusModel) -> LateModel {
    LateModel {
        halt_wait: b.halt_wait,
        intr_wait_mask: b.intr_wait_mask,
        timer_start_mask: b.timer_start_mask,
        ch: b.dma.ch,
        play: b.sound.play(),
    }
}

#[verifier::opaque]
pub open spec fn put_late(o: Seq<u8>, l: LateModel) -> Seq<u8> {
    let o = put_flag(o, l.halt_wait);
    let o = put16(o, l.intr_wait_mask);
    let o = put8(o, l.timer_start_mask);
    let o = put_channel(o, l.ch[0]);
    let o = put_channel(o, l.ch[1]);
    let o = put_channel(o, l.ch[2]);
    let o = put_channel(o, l.ch[3]);
    put_play(o, l.play)
}

pub fn write_late(out: &mut Vec<u8>, b: &Bus)
    ensures
        final(out)@ == put_late(old(out)@, late_of(b@)),
{
    reveal(bus_view);
    reveal(put_late);
    write_flag(out, b.halt_wait);
    write16(out, b.intr_wait_mask);
    write8(out, b.timer_start_mask);
    write_channel(out, b.dma.ch[0]);
    write_channel(out, b.dma.ch[1]);
    write_channel(out, b.dma.ch[2]);
    write_channel(out, b.dma.ch[3]);
    let snap: SoundPlaySnap = b.sound.snapshot_play();
    write_play(out, &snap);
}

#[verifier::opaque]
pub open spec fn get_late(s: Source) -> (Source, LateModel) {
    let (s, halt_wait) = s.flag();
    let (s, intr_wait_mask) = s.u16();
    let (s, timer_start_mask) = s.u8();
    let (s, a) = get_channel(s);
    let (s, b) = get_channel(s);
    let (s, c) = get_channel(s);
    let (s, d) = get_channel(s);
    let (s, play) = get_play(s);
    (s, LateModel { halt_wait, intr_wait_mask, timer_start_mask, ch: [a, b, c, d], play })
}

pub fn read_late(s: &mut Reader) -> (r: Late)
    requires
        old(s).pos <= old(s).data@.len(),
    ensures
        (final(s)@, r@) == get_late(old(s)@),
        r.play@.wf(),
        final(s).pos <= final(s).data@.len(),
{
    reveal(get_late);
    let halt_wait: bool = s.read_flag();
    let intr_wait_mask: u16 = s.read16();
    let timer_start_mask: u8 = s.read8();
    let a: Channel = read_channel(s);
    let b: Channel = read_channel(s);
    let c: Channel = read_channel(s);
    let d: Channel = read_channel(s);
    let play: SoundPlaySnap = read_play(s);
    Late { halt_wait, intr_wait_mask, timer_start_mask, ch: [a, b, c, d], play }
}

pub proof fn lemma_late(d: Seq<u8>, o: Seq<u8>, l: LateModel)
    requires
        begins(d, put_late(o, l)),
        l.play.wf(),
    ensures
        begins(d, o),
        get_late(source(d, o.len())) == (source(d, put_late(o, l).len()), l),
{
    broadcast use group_put;

    reveal(put_late);
    reveal(get_late);
    let o3 = put8(put16(put_flag(o, l.halt_wait), l.intr_wait_mask), l.timer_start_mask);
    let o4 = put_channel(o3, l.ch[0]);
    let o5 = put_channel(o4, l.ch[1]);
    let o6 = put_channel(o5, l.ch[2]);
    let o7 = put_channel(o6, l.ch[3]);
    lemma_play(d, o7, l.play);
    lemma_channel(d, o6, l.ch[3]);
    lemma_channel(d, o5, l.ch[2]);
    lemma_channel(d, o4, l.ch[1]);
    lemma_channel(d, o3, l.ch[0]);
    let g = get_late(source(d, o.len())).1;
    assert(g.ch =~= l.ch);
}

// ---- cartridge chips ----------------------------------------------------

/// Serial and command engines of the chips that a state has.
pub struct Chips {
    /// Flash decoder mode and step.
    pub flash: Option<(u8, u8)>,
    pub eeprom: Option<EepromFsm>,
    pub rtc: Option<RtcGpio>,
}

pub open spec fn chips_of(f: Option<FlashModel>, e: Option<EepromModel>, r: Rtc) -> Chips {
    Chips {
        flash: match f {
            Some(c) => Some((c.mode, c.cmd_step)),
            None => None,
        },
        eeprom: match e {
            Some(m) => Some(m.fsm),
            None => None,
        },
        rtc: if r.present {
            Some(r.gpio())
        } else {
            None
        },
    }
}

#[verifier::opaque]
pub open spec fn put_chips(o: Seq<u8>, c: Chips) -> Seq<u8> {
    let o = match c.flash {
        Some((mode, step)) => put8(put8(put8(o, 1), mode), step),
        None => put8(o, 0),
    };
    let o = match c.eeprom {
        Some(e) => put_eeprom(put8(o, 1), e),
        None => put8(o, 0),
    };
    match c.rtc {
        Some(g) => put_gpio(put8(o, 1), g),
        None => put8(o, 0),
    }
}

pub fn write_chips(out: &mut Vec<u8>, b: &Bus)
    ensures
        final(out)@ == put_chips(old(out)@, chips_of(b@.flash, b@.eeprom, b@.rtc)),
{
    reveal(bus_view);
    reveal(flash_view);
    reveal(eeprom_view);
    reveal(put_chips);
    match &b.flash {
        Some(c) => {
            let (mode, step, _bank, _m, _d): (u8, u8, usize, u8, u8) = c.debug_fsm();
            write8(out, 1);
            write8(out, mode);
            write8(out, step);
        },
        None => write8(out, 0),
    }
    match &b.eeprom {
        Some(e) => {
            write8(out, 1);
            write_eeprom(out, e.snapshot_fsm());
        },
        None => write8(out, 0),
    }
    if b.rtc.present {
        write8(out, 1);
        write_gpio(out, b.rtc.snapshot_gpio());
    } else {
        write8(out, 0);
    }
}

#[verifier::opaque]
pub open spec fn get_chips(s: Source) -> (Source, Chips) {
    let (s, has) = s.flag();
    let (s, flash) = if has {
        let (s, mode) = s.u8();
        let (s, step) = s.u8();
        (s, Some((mode, step)))
    } else {
        (s, None)
    };
    let (s, has) = s.flag();
    let (s, eeprom) = if has {
        let (s, e) = get_eeprom(s);
        (s, Some(e))
    } else {
        (s, None)
    };
    let (s, has) = s.flag();
    let (s, rtc) = if has {
        let (s, g) = get_gpio(s);
        (s, Some(g))
    } else {
        (s, None)
    };
    (s, Chips { flash, eeprom, rtc })
}

pub fn read_chips(s: &mut Reader) -> (r: Chips)
    requires
        old(s).pos <= old(s).data@.len(),
    ensures
        (final(s)@, r) == get_chips(old(s)@),
        final(s).pos <= final(s).data@.len(),
{
    reveal(get_chips);
    let flash: Option<(u8, u8)> = if s.read_flag() {
        let mode: u8 = s.read8();
        let step: u8 = s.read8();
        Some((mode, step))
    } else {
        None
    };
    let eeprom: Option<EepromFsm> = if s.read_flag() {
        Some(read_eeprom(s))
    } else {
        None
    };
    let rtc: Option<RtcGpio> = if s.read_flag() {
        Some(read_gpio(s))
    } else {
        None
    };
    Chips { flash, eeprom, rtc }
}

pub proof fn lemma_chips(d: Seq<u8>, o: Seq<u8>, c: Chips)
    requires
        begins(d, put_chips(o, c)),
    ensures
        begins(d, o),
        get_chips(source(d, o.len())) == (source(d, put_chips(o, c).len()), c),
{
    broadcast use group_put;

    reveal(put_chips);
    reveal(get_chips);
    let o1 = match c.flash {
        Some((mode, step)) => put8(put8(put8(o, 1), mode), step),
        None => put8(o, 0),
    };
    let o2 = match c.eeprom {
        Some(e) => put_eeprom(put8(o1, 1), e),
        None => put8(o1, 0),
    };
    if let Some(g) = c.rtc {
        lemma_gpio(d, put8(o2, 1), g);
    }
    assert(begins(d, o2));
    if let Some(e) = c.eeprom {
        lemma_eeprom(d, put8(o1, 1), e);
    }
    assert(begins(d, o1));
}

} // verus!
