//! The parts of a savestate, each as a run of fields.

use super::codec::{
    begins, group_put, lemma_put128, lemma_put64, put128, put16, put32, put64, put8, put_flag, source,
    write128, write16, write32, write64, write8, write_flag, Reader, Source,
};
use crate::battery::EepromFsm;
use crate::cpu::cpsr::law_word_round_trip;
use crate::cpu::{Cpsr, Cpu};
use crate::dma::Channel;
use crate::rtc::RtcGpio;
use vstd::prelude::*;

verus! {

/// The registers, with the banks of user, IRQ and supervisor mode.
#[verifier::opaque]
pub open spec fn put_cpu(o: Seq<u8>, c: Cpu) -> Seq<u8> {
    let o = put32(o, c.r[0]);
    let o = put32(o, c.r[1]);
    let o = put32(o, c.r[2]);
    let o = put32(o, c.r[3]);
    let o = put32(o, c.r[4]);
    let o = put32(o, c.r[5]);
    let o = put32(o, c.r[6]);
    let o = put32(o, c.r[7]);
    let o = put32(o, c.r[8]);
    let o = put32(o, c.r[9]);
    let o = put32(o, c.r[10]);
    let o = put32(o, c.r[11]);
    let o = put32(o, c.r[12]);
    let o = put32(o, c.r[13]);
    let o = put32(o, c.r[14]);
    let o = put32(o, c.r[15]);
    let o = put32(o, c.cpsr.word());
    let o = put32(o, c.spsr.word());
    let o = put64(o, c.cycles);
    let o = put_flag(o, c.halted);
    let o = put32(o, c.r13_usr);
    let o = put32(o, c.r14_usr);
    let o = put32(o, c.r13_irq);
    let o = put32(o, c.r14_irq);
    let o = put32(o, c.spsr_irq.word());
    let o = put32(o, c.r13_svc);
    let o = put32(o, c.r14_svc);
    let o = put32(o, c.spsr_svc.word());
    o
}

pub fn write_cpu(out: &mut Vec<u8>, c: Cpu)
    ensures
        final(out)@ == put_cpu(old(out)@, c),
{
    reveal(put_cpu);
    write32(out, c.r[0]);
    write32(out, c.r[1]);
    write32(out, c.r[2]);
    write32(out, c.r[3]);
    write32(out, c.r[4]);
    write32(out, c.r[5]);
    write32(out, c.r[6]);
    write32(out, c.r[7]);
    write32(out, c.r[8]);
    write32(out, c.r[9]);
    write32(out, c.r[10]);
    write32(out, c.r[11]);
    write32(out, c.r[12]);
    write32(out, c.r[13]);
    write32(out, c.r[14]);
    write32(out, c.r[15]);
    write32(out, c.cpsr.to_u32());
    write32(out, c.spsr.to_u32());
    write64(out, c.cycles);
    write_flag(out, c.halted);
    write32(out, c.r13_usr);
    write32(out, c.r14_usr);
    write32(out, c.r13_irq);
    write32(out, c.r14_irq);
    write32(out, c.spsr_irq.to_u32());
    write32(out, c.r13_svc);
    write32(out, c.r14_svc);
    write32(out, c.spsr_svc.to_u32());
}

/// `c` with those registers as they were written.
#[verifier::opaque]
pub open spec fn get_cpu(s: Source, c: Cpu) -> (Source, Cpu) {
    let (s, r0) = s.u32();
    let (s, r1) = s.u32();
    let (s, r2) = s.u32();
    let (s, r3) = s.u32();
    let (s, r4) = s.u32();
    let (s, r5) = s.u32();
    let (s, r6) = s.u32();
    let (s, r7) = s.u32();
    let (s, r8) = s.u32();
    let (s, r9) = s.u32();
    let (s, r10) = s.u32();
    let (s, r11) = s.u32();
    let (s, r12) = s.u32();
    let (s, r13) = s.u32();
    let (s, r14) = s.u32();
    let (s, r15) = s.u32();
    let (s, cpsr) = s.u32();
    let (s, spsr) = s.u32();
    let (s, cycles) = s.u64();
    let (s, halted) = s.flag();
    let (s, r13_usr) = s.u32();
    let (s, r14_usr) = s.u32();
    let (s, r13_irq) = s.u32();
    let (s, r14_irq) = s.u32();
    let (s, spsr_irq) = s.u32();
    let (s, r13_svc) = s.u32();
    let (s, r14_svc) = s.u32();
    let (s, spsr_svc) = s.u32();
    (s, Cpu {
        r: [r0, r1, r2, r3, r4, r5, r6, r7, r8, r9, r10, r11, r12, r13, r14, r15],
        cpsr: Cpsr::of_word(cpsr),
        spsr: Cpsr::of_word(spsr),
        cycles,
        halted,
        r13_usr,
        r14_usr,
        r13_irq,
        r14_irq,
        spsr_irq: Cpsr::of_word(spsr_irq),
        r13_svc,
        r14_svc,
        spsr_svc: Cpsr::of_word(spsr_svc),
        ..c
    })
}

pub fn read_cpu(s: &mut Reader, c: Cpu) -> (r: Cpu)
    requires
        old(s).pos <= old(s).data@.len(),
    ensures
        (final(s)@, r) == get_cpu(old(s)@, c),
        final(s).pos <= final(s).data@.len(),
{
    reveal(get_cpu);
    let r0: u32 = s.read32();
    let r1: u32 = s.read32();
    let r2: u32 = s.read32();
    let r3: u32 = s.read32();
    let r4: u32 = s.read32();
    let r5: u32 = s.read32();
    let r6: u32 = s.read32();
    let r7: u32 = s.read32();
    let r8: u32 = s.read32();
    let r9: u32 = s.read32();
    let r10: u32 = s.read32();
    let r11: u32 = s.read32();
    let r12: u32 = s.read32();
    let r13: u32 = s.read32();
    let r14: u32 = s.read32();
    let r15: u32 = s.read32();
    let cpsr: u32 = s.read32();
    let spsr: u32 = s.read32();
    let cycles: u64 = s.read64();
    let halted: bool = s.read_flag();
    let r13_usr: u32 = s.read32();
    let r14_usr: u32 = s.read32();
    let r13_irq: u32 = s.read32();
    let r14_irq: u32 = s.read32();
    let spsr_irq: u32 = s.read32();
    let r13_svc: u32 = s.read32();
    let r14_svc: u32 = s.read32();
    let spsr_svc: u32 = s.read32();
    Cpu {
        r: [r0, r1, r2, r3, r4, r5, r6, r7, r8, r9, r10, r11, r12, r13, r14, r15],
        cpsr: Cpsr::from_u32(cpsr),
        spsr: Cpsr::from_u32(spsr),
        cycles,
        halted,
        r13_usr,
        r14_usr,
        r13_irq,
        r14_irq,
        spsr_irq: Cpsr::from_u32(spsr_irq),
        r13_svc,
        r14_svc,
        spsr_svc: Cpsr::from_u32(spsr_svc),
        ..c
    }
}

/// The banks of the other modes.
#[verifier::opaque]
pub open spec fn put_banks(o: Seq<u8>, c: Cpu) -> Seq<u8> {
    let o = put32(o, c.r8_usr[0]);
    let o = put32(o, c.r8_usr[1]);
    let o = put32(o, c.r8_usr[2]);
    let o = put32(o, c.r8_usr[3]);
    let o = put32(o, c.r8_usr[4]);
    let o = put32(o, c.r8_fiq[0]);
    let o = put32(o, c.r8_fiq[1]);
    let o = put32(o, c.r8_fiq[2]);
    let o = put32(o, c.r8_fiq[3]);
    let o = put32(o, c.r8_fiq[4]);
    let o = put32(o, c.r13_fiq);
    let o = put32(o, c.r14_fiq);
    let o = put32(o, c.spsr_fiq.word());
    let o = put32(o, c.r13_abt);
    let o = put32(o, c.r14_abt);
    let o = put32(o, c.spsr_abt.word());
    let o = put32(o, c.r13_und);
    let o = put32(o, c.r14_und);
    let o = put32(o, c.spsr_und.word());
    o
}

pub fn write_banks(out: &mut Vec<u8>, c: Cpu)
    ensures
        final(out)@ == put_banks(old(out)@, c),
{
    reveal(put_banks);
    write32(out, c.r8_usr[0]);
    write32(out, c.r8_usr[1]);
    write32(out, c.r8_usr[2]);
    write32(out, c.r8_usr[3]);
    write32(out, c.r8_usr[4]);
    write32(out, c.r8_fiq[0]);
    write32(out, c.r8_fiq[1]);
    write32(out, c.r8_fiq[2]);
    write32(out, c.r8_fiq[3]);
    write32(out, c.r8_fiq[4]);
    write32(out, c.r13_fiq);
    write32(out, c.r14_fiq);
    write32(out, c.spsr_fiq.to_u32());
    write32(out, c.r13_abt);
    write32(out, c.r14_abt);
    write32(out, c.spsr_abt.to_u32());
    write32(out, c.r13_und);
    write32(out, c.r14_und);
    write32(out, c.spsr_und.to_u32());
}

#[verifier::opaque]
pub open spec fn get_banks(s: Source, c: Cpu) -> (Source, Cpu) {
    let (s, u0) = s.u32();
    let (s, u1) = s.u32();
    let (s, u2) = s.u32();
    let (s, u3) = s.u32();
    let (s, u4) = s.u32();
    let (s, f0) = s.u32();
    let (s, f1) = s.u32();
    let (s, f2) = s.u32();
    let (s, f3) = s.u32();
    let (s, f4) = s.u32();
    let (s, r13_fiq) = s.u32();
    let (s, r14_fiq) = s.u32();
    let (s, spsr_fiq) = s.u32();
    let (s, r13_abt) = s.u32();
    let (s, r14_abt) = s.u32();
    let (s, spsr_abt) = s.u32();
    let (s, r13_und) = s.u32();
    let (s, r14_und) = s.u32();
    let (s, spsr_und) = s.u32();
    (s, Cpu {
        r8_usr: [u0, u1, u2, u3, u4],
        r8_fiq: [f0, f1, f2, f3, f4],
        r13_fiq,
        r14_fiq,
        spsr_fiq: Cpsr::of_word(spsr_fiq),
        r13_abt,
        r14_abt,
        spsr_abt: Cpsr::of_word(spsr_abt),
        r13_und,
        r14_und,
        spsr_und: Cpsr::of_word(spsr_und),
        ..c
    })
}

pub fn read_banks(s: &mut Reader, c: Cpu) -> (r: Cpu)
    requires
        old(s).pos <= old(s).data@.len(),
    ensures
        (final(s)@, r) == get_banks(old(s)@, c),
        final(s).pos <= final(s).data@.len(),
{
    reveal(get_banks);
    let u0: u32 = s.read32();
    let u1: u32 = s.read32();
    let u2: u32 = s.read32();
    let u3: u32 = s.read32();
    let u4: u32 = s.read32();
    let f0: u32 = s.read32();
    let f1: u32 = s.read32();
    let f2: u32 = s.read32();
    let f3: u32 = s.read32();
    let f4: u32 = s.read32();
    let r13_fiq: u32 = s.read32();
    let r14_fiq: u32 = s.read32();
    let spsr_fiq: u32 = s.read32();
    let r13_abt: u32 = s.read32();
    let r14_abt: u32 = s.read32();
    let spsr_abt: u32 = s.read32();
    let r13_und: u32 = s.read32();
    let r14_und: u32 = s.read32();
    let spsr_und: u32 = s.read32();
    Cpu {
        r8_usr: [u0, u1, u2, u3, u4],
        r8_fiq: [f0, f1, f2, f3, f4],
        r13_fiq,
        r14_fiq,
        spsr_fiq: Cpsr::from_u32(spsr_fiq),
        r13_abt,
        r14_abt,
        spsr_abt: Cpsr::from_u32(spsr_abt),
        r13_und,
        r14_und,
        spsr_und: Cpsr::from_u32(spsr_und),
        ..c
    }
}

/// One DMA channel.
#[verifier::opaque]
pub open spec fn put_channel(o: Seq<u8>, c: Channel) -> Seq<u8> {
    let o = put32(o, c.src);
    let o = put32(o, c.dst);
    let o = put32(o, c.latch_src);
    let o = put32(o, c.latch_dst);
    let o = put32(o, c.count);
    let o = put16(o, c.ctrl);
    let o = put_flag(o, c.active);
    o
}

pub fn write_channel(out: &mut Vec<u8>, c: Channel)
    ensures
        final(out)@ == put_channel(old(out)@, c),
{
    reveal(put_channel);
    write32(out, c.src);
    write32(out, c.dst);
    write32(out, c.latch_src);
    write32(out, c.latch_dst);
    write32(out, c.count);
    write16(out, c.ctrl);
    write_flag(out, c.active);
}

#[verifier::opaque]
pub open spec fn get_channel(s: Source) -> (Source, Channel) {
    let (s, src) = s.u32();
    let (s, dst) = s.u32();
    let (s, latch_src) = s.u32();
    let (s, latch_dst) = s.u32();
    let (s, count) = s.u32();
    let (s, ctrl) = s.u16();
    let (s, active) = s.flag();
    (s, Channel { src, dst, latch_src, latch_dst, count, ctrl, active })
}

pub fn read_channel(s: &mut Reader) -> (r: Channel)
    requires
        old(s).pos <= old(s).data@.len(),
    ensures
        (final(s)@, r) == get_channel(old(s)@),
        final(s).pos <= final(s).data@.len(),
{
    reveal(get_channel);
    let src: u32 = s.read32();
    let dst: u32 = s.read32();
    let latch_src: u32 = s.read32();
    let latch_dst: u32 = s.read32();
    let count: u32 = s.read32();
    let ctrl: u16 = s.read16();
    let active: bool = s.read_flag();
    Channel { src, dst, latch_src, latch_dst, count, ctrl, active }
}

/// The serial engine of an EEPROM.
#[verifier::opaque]
pub open spec fn put_eeprom(o: Seq<u8>, e: EepromFsm) -> Seq<u8> {
    let o = put8(o, e.addr_bits);
    let o = put8(o, e.bit_count);
    let o = put8(o, e.phase);
    let o = put_flag(o, e.dirty);
    let o = put8(o, e.read_left);
    let o = put64(o, e.bits);
    let o = put128(o, e.read_stream);
    let o = put16(o, e.write_addr);
    let o = put64(o, e.write_buf);
    o
}

pub fn write_eeprom(out: &mut Vec<u8>, e: EepromFsm)
    ensures
        final(out)@ == put_eeprom(old(out)@, e),
{
    reveal(put_eeprom);
    write8(out, e.addr_bits);
    write8(out, e.bit_count);
    write8(out, e.phase);
    write_flag(out, e.dirty);
    write8(out, e.read_left);
    write64(out, e.bits);
    write128(out, e.read_stream);
    write16(out, e.write_addr);
    write64(out, e.write_buf);
}

#[verifier::opaque]
pub open spec fn get_eeprom(s: Source) -> (Source, EepromFsm) {
    let (s, addr_bits) = s.u8();
    let (s, bit_count) = s.u8();
    let (s, phase) = s.u8();
    let (s, dirty) = s.flag();
    let (s, read_left) = s.u8();
    let (s, bits) = s.u64();
    let (s, read_stream) = s.u128();
    let (s, write_addr) = s.u16();
    let (s, write_buf) = s.u64();
    (s, EepromFsm {
        addr_bits,
        bits,
        bit_count,
        phase,
        dirty,
        read_stream,
        read_left,
        write_addr,
        write_buf,
    })
}

pub fn read_eeprom(s: &mut Reader) -> (r: EepromFsm)
    requires
        old(s).pos <= old(s).data@.len(),
    ensures
        (final(s)@, r) == get_eeprom(old(s)@),
        final(s).pos <= final(s).data@.len(),
{
    reveal(get_eeprom);
    let addr_bits: u8 = s.read8();
    let bit_count: u8 = s.read8();
    let phase: u8 = s.read8();
    let dirty: bool = s.read_flag();
    let read_left: u8 = s.read8();
    let bits: u64 = s.read64();
    let read_stream: u128 = s.read128();
    let write_addr: u16 = s.read16();
    let write_buf: u64 = s.read64();
    EepromFsm {
        addr_bits,
        bits,
        bit_count,
        phase,
        dirty,
        read_stream,
        read_left,
        write_addr,
        write_buf,
    }
}

/// The clock's serial port.
#[verifier::opaque]
pub open spec fn put_gpio(o: Seq<u8>, g: RtcGpio) -> Seq<u8> {
    let o = put16(o, g.data);
    let o = put16(o, g.dir);
    let o = put16(o, g.ctrl);
    let o = put8(o, g.bit_count);
    let o = put8(o, g.cmd);
    let o = put8(o, g.buf[0]);
    let o = put8(o, g.buf[1]);
    let o = put8(o, g.buf[2]);
    let o = put8(o, g.buf[3]);
    let o = put8(o, g.buf[4]);
    let o = put8(o, g.buf[5]);
    let o = put8(o, g.buf[6]);
    let o = put8(o, g.buf[7]);
    let o = put8(o, g.buf_len);
    let o = put8(o, g.buf_idx);
    let o = put_flag(o, g.reading);
    let o = put_flag(o, g.cs);
    let o = put_flag(o, g.sck);
    let o = put_flag(o, g.cmd_done);
    o
}

pub fn write_gpio(out: &mut Vec<u8>, g: RtcGpio)
    ensures
        final(out)@ == put_gpio(old(out)@, g),
{
    reveal(put_gpio);
    write16(out, g.data);
    write16(out, g.dir);
    write16(out, g.ctrl);
    write8(out, g.bit_count);
    write8(out, g.cmd);
    write8(out, g.buf[0]);
    write8(out, g.buf[1]);
    write8(out, g.buf[2]);
    write8(out, g.buf[3]);
    write8(out, g.buf[4]);
    write8(out, g.buf[5]);
    write8(out, g.buf[6]);
    write8(out, g.buf[7]);
    write8(out, g.buf_len);
    write8(out, g.buf_idx);
    write_flag(out, g.reading);
    write_flag(out, g.cs);
    write_flag(out, g.sck);
    write_flag(out, g.cmd_done);
}

#[verifier::opaque]
pub open spec fn get_gpio(s: Source) -> (Source, RtcGpio) {
    let (s, data) = s.u16();
    let (s, dir) = s.u16();
    let (s, ctrl) = s.u16();
    let (s, bit_count) = s.u8();
    let (s, cmd) = s.u8();
    let (s, b0) = s.u8();
    let (s, b1) = s.u8();
    let (s, b2) = s.u8();
    let (s, b3) = s.u8();
    let (s, b4) = s.u8();
    let (s, b5) = s.u8();
    let (s, b6) = s.u8();
    let (s, b7) = s.u8();
    let (s, buf_len) = s.u8();
    let (s, buf_idx) = s.u8();
    let (s, reading) = s.flag();
    let (s, cs) = s.flag();
    let (s, sck) = s.flag();
    let (s, cmd_done) = s.flag();
    (s, RtcGpio {
        data,
        dir,
        ctrl,
        bit_count,
        cmd,
        buf: [b0, b1, b2, b3, b4, b5, b6, b7],
        buf_len,
        buf_idx,
        reading,
        cs,
        sck,
        cmd_done,
    })
}

pub fn read_gpio(s: &mut Reader) -> (r: RtcGpio)
    requires
        old(s).pos <= old(s).data@.len(),
    ensures
        (final(s)@, r) == get_gpio(old(s)@),
        final(s).pos <= final(s).data@.len(),
{
    reveal(get_gpio);
    let data: u16 = s.read16();
    let dir: u16 = s.read16();
    let ctrl: u16 = s.read16();
    let bit_count: u8 = s.read8();
    let cmd: u8 = s.read8();
    let b0: u8 = s.read8();
    let b1: u8 = s.read8();
    let b2: u8 = s.read8();
    let b3: u8 = s.read8();
    let b4: u8 = s.read8();
    let b5: u8 = s.read8();
    let b6: u8 = s.read8();
    let b7: u8 = s.read8();
    let buf_len: u8 = s.read8();
    let buf_idx: u8 = s.read8();
    let reading: bool = s.read_flag();
    let cs: bool = s.read_flag();
    let sck: bool = s.read_flag();
    let cmd_done: bool = s.read_flag();
    RtcGpio {
        data,
        dir,
        ctrl,
        bit_count,
        cmd,
        buf: [b0, b1, b2, b3, b4, b5, b6, b7],
        buf_len,
        buf_idx,
        reading,
        cs,
        sck,
        cmd_done,
    }
}


// ---- what was written reads back ----------------------------------------

/// Every status word has a five-bit mode.
pub open spec fn modes_fit(c: Cpu) -> bool {
    &&& c.cpsr.mode < 0x20
    &&& c.spsr.mode < 0x20
    &&& c.spsr_irq.mode < 0x20
    &&& c.spsr_svc.mode < 0x20
    &&& c.spsr_fiq.mode < 0x20
    &&& c.spsr_abt.mode < 0x20
    &&& c.spsr_und.mode < 0x20
}

/// `n` with the registers that `put_cpu` writes taken from `c`.
pub open spec fn core_of(c: Cpu, n: Cpu) -> Cpu {
    Cpu {
        r: c.r,
        cpsr: c.cpsr,
        spsr: c.spsr,
        cycles: c.cycles,
        halted: c.halted,
        r13_usr: c.r13_usr,
        r14_usr: c.r14_usr,
        r13_irq: c.r13_irq,
        r14_irq: c.r14_irq,
        spsr_irq: c.spsr_irq,
        r13_svc: c.r13_svc,
        r14_svc: c.r14_svc,
        spsr_svc: c.spsr_svc,
        ..n
    }
}

/// `n` with the registers that `put_banks` writes taken from `c`.
pub open spec fn banks_of(c: Cpu, n: Cpu) -> Cpu {
    Cpu {
        r8_usr: c.r8_usr,
        r8_fiq: c.r8_fiq,
        r13_fiq: c.r13_fiq,
        r14_fiq: c.r14_fiq,
        spsr_fiq: c.spsr_fiq,
        r13_abt: c.r13_abt,
        r14_abt: c.r14_abt,
        spsr_abt: c.spsr_abt,
        r13_und: c.r13_und,
        r14_und: c.r14_und,
        spsr_und: c.spsr_und,
        ..n
    }
}

pub proof fn lemma_cpu(d: Seq<u8>, o: Seq<u8>, c: Cpu, n: Cpu)
    requires
        begins(d, put_cpu(o, c)),
        modes_fit(c),
    ensures
        begins(d, o),
        get_cpu(source(d, o.len()), n) == (source(d, put_cpu(o, c).len()), core_of(c, n)),
{
    broadcast use {group_put, lemma_put64};

    reveal(put_cpu);
    reveal(get_cpu);
    law_word_round_trip(c.cpsr);
    law_word_round_trip(c.spsr);
    law_word_round_trip(c.spsr_irq);
    law_word_round_trip(c.spsr_svc);
    let g = get_cpu(source(d, o.len()), n).1;
    assert(g.r =~= c.r);
}

pub proof fn lemma_banks(d: Seq<u8>, o: Seq<u8>, c: Cpu, n: Cpu)
    requires
        begins(d, put_banks(o, c)),
        modes_fit(c),
    ensures
        begins(d, o),
        get_banks(source(d, o.len()), n) == (source(d, put_banks(o, c).len()), banks_of(c, n)),
{
    broadcast use group_put;

    reveal(put_banks);
    reveal(get_banks);
    law_word_round_trip(c.spsr_fiq);
    law_word_round_trip(c.spsr_abt);
    law_word_round_trip(c.spsr_und);
    let g = get_banks(source(d, o.len()), n).1;
    assert(g.r8_usr =~= c.r8_usr);
    assert(g.r8_fiq =~= c.r8_fiq);
}

pub proof fn lemma_channel(d: Seq<u8>, o: Seq<u8>, c: Channel)
    requires
        begins(d, put_channel(o, c)),
    ensures
        begins(d, o),
        get_channel(source(d, o.len())) == (source(d, put_channel(o, c).len()), c),
{
    broadcast use group_put;

    reveal(put_channel);
    reveal(get_channel);
}

pub proof fn lemma_eeprom(d: Seq<u8>, o: Seq<u8>, e: EepromFsm)
    requires
        begins(d, put_eeprom(o, e)),
    ensures
        begins(d, o),
        get_eeprom(source(d, o.len())) == (source(d, put_eeprom(o, e).len()), e),
{
    broadcast use {group_put, lemma_put64, lemma_put128};

    reveal(put_eeprom);
    reveal(get_eeprom);
}

pub proof fn lemma_gpio(d: Seq<u8>, o: Seq<u8>, g: RtcGpio)
    requires
        begins(d, put_gpio(o, g)),
    ensures
        begins(d, o),
        get_gpio(source(d, o.len())) == (source(d, put_gpio(o, g).len()), g),
{
    broadcast use group_put;

    reveal(put_gpio);
    reveal(get_gpio);
    let h = get_gpio(source(d, o.len())).1;
    assert(h.buf =~= g.buf);
}

} // verus!
