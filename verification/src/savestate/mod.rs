//! Savestates: a machine as bytes.
//!
//! `FAELST05` is what is written. `FAELST04` still loads (the flash, EEPROM and
//! clock engines become idle), so does `FAELST03` (the FIQ, ABT and UND banks
//! stay as they are), and so does `FAELST02` (waits, DMA, sound and the timers'
//! prescaler remainders stay as well).

pub mod codec;
pub mod image;
pub mod parts;

use crate::battery::{EepromFsm, EepromModel, FlashModel, EE_IDLE, FLASH_READY};
use crate::bus::model::BusModel;
use crate::bus::{bus_view, eeprom_view, flash_view, lemma_even, lemma_io_page, Bus};
use crate::cpu::Cpu;
use crate::dma::DmaController;
use crate::emu::{Emu, EmuModel};
use crate::ppu::{PpuModel, HBLANK_CYCLE, HEIGHT, WIDTH};
use crate::rtc::{Rtc, RtcGpio};
use crate::sound::law_play_round_trip;
use crate::sound::SoundModel;
use crate::timers::Timers;
use codec::{
    begins, group_put, lemma_put_halves, put16, put32, put_halves, put_raw, source, write16, write32,
    write_halves, write_raw, Reader, Source, StateError,
};
use image::{
    cells, chips_of, flash_cells, get_chips, get_flash, get_late, get_memory, get_timers, late_of,
    lemma_chips, lemma_flash, lemma_late, lemma_memory, lemma_timers, memory_of, put_chips,
    put_flash, put_late, put_memory, put_timers, read_chips, read_flash, read_late, read_memory,
    read_timers, write_chips, write_flash, write_late, write_memory, write_timers, Chips, Late,
    LateModel, Memory, MemoryModel,
};
use parts::{
    banks_of, core_of, get_banks, get_cpu, lemma_banks, lemma_cpu, modes_fit, put_banks, put_cpu,
    read_banks, read_cpu, write_banks, write_cpu,
};
use vstd::prelude::*;

verus! {

/// The magic of version `v`, a digit.
pub open spec fn magic(v: u8) -> Seq<u8> {
    seq![0x46u8, 0x41u8, 0x45u8, 0x4Cu8, 0x53u8, 0x54u8, 0x30u8, v]
}

/// A state as it was read.
pub struct Image {
    pub cpu: Cpu,
    pub timers: Timers,
    pub line: u16,
    pub line_cycles: u32,
    pub mem: Memory,
    pub flash: Option<(Vec<u8>, u32)>,
    pub frame: Vec<u16>,
    pub late: Option<Late>,
    pub chips: Option<Chips>,
}

pub struct ImageModel {
    pub cpu: Cpu,
    pub timers: Timers,
    pub line: u16,
    pub line_cycles: u32,
    pub mem: MemoryModel,
    pub flash: Option<(Seq<u8>, u32)>,
    pub frame: Seq<u16>,
    pub late: Option<LateModel>,
    pub chips: Option<Chips>,
}

pub open spec fn late_view(l: Option<Late>) -> Option<LateModel> {
    match l {
        Some(l) => Some(l@),
        None => None,
    }
}

impl View for Image {
    type V = ImageModel;

    open spec fn view(&self) -> ImageModel {
        ImageModel {
            cpu: self.cpu,
            timers: self.timers,
            line: self.line,
            line_cycles: self.line_cycles,
            mem: self.mem@,
            flash: cells(self.flash),
            frame: self.frame@,
            late: late_view(self.late),
            chips: self.chips,
        }
    }
}

// ---- saving -------------------------------------------------------------

/// The bytes of a machine's state.
#[verifier::opaque]
pub open spec fn state_bytes(m: EmuModel) -> Seq<u8> {
    let o = put_raw(Seq::empty(), magic(0x35));
    let o = put_cpu(o, m.cpu);
    let o = put_timers(o, m.timers);
    let o = put16(o, m.ppu.line);
    let o = put32(o, m.ppu.line_cycles);
    let o = put_memory(o, memory_of(m.bus));
    let o = put_flash(o, m.bus.flash);
    let o = put_halves(o, m.ppu.frame, m.ppu.frame.len());
    let o = put_late(o, late_of(m.bus));
    let o = put_banks(o, m.cpu);
    put_chips(o, chips_of(m.bus.flash, m.bus.eeprom, m.bus.rtc))
}

/// A machine's state, to be kept.
pub fn save(emu: &Emu) -> (r: Vec<u8>)
    ensures
        r@ == state_bytes(emu@),
{
    reveal(state_bytes);
    let mut out: Vec<u8> = Vec::new();
    let tag: [u8; 8] = [0x46, 0x41, 0x45, 0x4C, 0x53, 0x54, 0x30, 0x35];
    assert(tag@ =~= magic(0x35));
    write_raw(&mut out, &tag);
    write_cpu(&mut out, emu.cpu);
    write_timers(&mut out, emu.timers);
    write16(&mut out, emu.ppu.line);
    write32(&mut out, emu.ppu.line_cycles);
    write_memory(&mut out, &emu.bus);
    write_flash(&mut out, &emu.bus);
    write_halves(&mut out, &emu.ppu.frame);
    write_late(&mut out, &emu.bus);
    write_banks(&mut out, emu.cpu);
    write_chips(&mut out, &emu.bus);
    out
}

// ---- reading ------------------------------------------------------------

/// The version that a magic names.
pub open spec fn version(m: Seq<u8>) -> Option<u8> {
    if m == magic(0x35) {
        Some(5)
    } else if m == magic(0x34) {
        Some(4)
    } else if m == magic(0x33) {
        Some(3)
    } else if m == magic(0x32) {
        Some(2)
    } else {
        None
    }
}

fn read_version(m: &Vec<u8>) -> (r: Option<u8>)
    ensures
        r == version(m@),
{
    if m.len() == 8 && m[0] == 0x46 && m[1] == 0x41 && m[2] == 0x45 && m[3] == 0x4C && m[4] == 0x53
        && m[5] == 0x54 && m[6] == 0x30 && 0x32 <= m[7] && m[7] <= 0x35 {
        let v: u8 = m[7];
        assert(m@ =~= magic(v));
        assert(magic(v)[7] == v);
        assert(magic(0x32)[7] == 0x32 && magic(0x33)[7] == 0x33);
        assert(magic(0x34)[7] == 0x34 && magic(0x35)[7] == 0x35);
        return Some(v - 0x30);
    }
    proof {
        if version(m@) is Some {
            assert(m@.len() == 8);
            assert(m@[0] == 0x46 && m@[7] <= 0x35);
        }
    }
    None
}

/// The fields after the magic, for a machine whose CPU is `c` and whose
/// prescaler remainders are `frac`.
#[verifier::opaque]
pub open spec fn get_image(s: Source, v: u8, c: Cpu, frac: [u32; 4]) -> (Source, ImageModel) {
    let (s, cpu) = get_cpu(s, c);
    let (s, timers) = get_timers(s, v >= 3, frac);
    let (s, line) = s.u16();
    let (s, line_cycles) = s.u32();
    let (s, mem) = get_memory(s);
    let (s, flash) = get_flash(s);
    let (s, frame) = s.halves((WIDTH * HEIGHT) as nat);
    let (s, late) = if v >= 3 {
        let (s, l) = get_late(s);
        (s, Some(l))
    } else {
        (s, None)
    };
    let (s, cpu) = if v >= 4 {
        get_banks(s, cpu)
    } else {
        (s, cpu)
    };
    let (s, chips) = if v >= 5 {
        let (s, c) = get_chips(s);
        (s, Some(c))
    } else {
        (s, None)
    };
    (s, ImageModel { cpu, timers, line, line_cycles, mem, flash, frame, late, chips })
}

fn read_image(s: &mut Reader, v: u8, c: Cpu, frac: [u32; 4]) -> (r: Image)
    requires
        old(s).pos <= old(s).data@.len(),
    ensures
        (final(s)@, r@) == get_image(old(s)@, v, c, frac),
        r.frame@.len() == WIDTH * HEIGHT,
        r.late matches Some(l) ==> l.play@.wf(),
        final(s).pos <= final(s).data@.len(),
{
    reveal(get_image);
    let cpu: Cpu = read_cpu(s, c);
    let timers: Timers = read_timers(s, v >= 3, frac);
    let line: u16 = s.read16();
    let line_cycles: u32 = s.read32();
    let mem: Memory = read_memory(s);
    let flash: Option<(Vec<u8>, u32)> = read_flash(s);
    let frame: Vec<u16> = s.read_halves(WIDTH * HEIGHT);
    let late: Option<Late> = if v >= 3 {
        Some(read_late(s))
    } else {
        None
    };
    let cpu: Cpu = if v >= 4 {
        read_banks(s, cpu)
    } else {
        cpu
    };
    let chips: Option<Chips> = if v >= 5 {
        Some(read_chips(s))
    } else {
        None
    };
    Image { cpu, timers, line, line_cycles, mem, flash, frame, late, chips }
}

/// What `d` holds for a machine with that CPU and those prescaler remainders, or
/// what is wrong with it. Data behind the last field is ignored.
#[verifier::opaque]
pub open spec fn parsed(d: Seq<u8>, c: Cpu, frac: [u32; 4]) -> Result<ImageModel, StateError> {
    let (s, m) = source(d, 0).raw(8);
    match s.fault {
        Some(e) => Err(e),
        None => match version(m) {
            None => Err(StateError::NotAState),
            Some(v) => {
                let (s, i) = get_image(s, v, c, frac);
                match s.fault {
                    Some(e) => Err(e),
                    None => Ok(i),
                }
            },
        },
    }
}

pub open spec fn image_view(r: Result<Image, StateError>) -> Result<ImageModel, StateError> {
    match r {
        Ok(i) => Ok(i@),
        Err(e) => Err(e),
    }
}

fn parse(d: &[u8], c: Cpu, frac: [u32; 4]) -> (r: Result<Image, StateError>)
    ensures
        image_view(r) == parsed(d@, c, frac),
        r matches Ok(i) ==> i.frame@.len() == WIDTH * HEIGHT,
        r matches Ok(i) ==> (i.late matches Some(l) ==> l.play@.wf()),
{
    reveal(parsed);
    let mut s: Reader = Reader::new(d);
    let m: Vec<u8> = s.read_raw(8);
    if let Some(e) = s.fault {
        return Err(e);
    }
    match read_version(&m) {
        None => Err(StateError::NotAState),
        Some(v) => {
            let i: Image = read_image(&mut s, v, c, frac);
            match s.fault {
                Some(e) => Err(e),
                None => Ok(i),
            }
        },
    }
}

// ---- loading ------------------------------------------------------------

/// The bus with its registers, reload latches and battery cells taken from a
/// state.
#[verifier::opaque]
pub open spec fn registers_taken(b: BusModel, i: ImageModel) -> BusModel {
    BusModel {
        timer_reload: i.timers.reload,
        io: i.mem.io,
        sram: i.mem.sram,
        flash: match (b.flash, i.flash) {
            (Some(f), Some((data, bank))) => Some(FlashModel { data, bank: bank as usize, ..f }),
            _ => b.flash,
        },
        ..b
    }
}

/// The memories taken from a state, whatever their sizes. The battery counts as
/// changed.
#[verifier::opaque]
pub open spec fn memory_taken(b: BusModel, m: MemoryModel) -> BusModel {
    BusModel {
        ewram: m.ewram,
        iwram: m.iwram,
        pal: m.pal,
        vram: m.vram,
        oam: m.oam,
        save_dirty: true,
        ..b
    }
}

/// Timer controls read back from the IO registers; starts forgotten.
#[verifier::opaque]
pub open spec fn controls_taken(b: BusModel) -> BusModel {
    let (b, t0) = b.read16(0x0400_0102);
    let (b, t1) = b.read16(0x0400_0106);
    let (b, t2) = b.read16(0x0400_010A);
    let (b, t3) = b.read16(0x0400_010E);
    BusModel { timer_ctrl_prev: [t0, t1, t2, t3], timer_start_mask: 0, ..b }
}

/// Waits, DMA and sound taken from a state that has them.
#[verifier::opaque]
pub open spec fn late_taken(b: BusModel, l: Option<LateModel>) -> BusModel {
    match l {
        None => b,
        Some(l) => BusModel {
            halt_wait: l.halt_wait,
            intr_wait_mask: l.intr_wait_mask,
            intr_wait_ime: 1,
            timer_start_mask: l.timer_start_mask,
            dma: DmaController { ch: l.ch, ..b.dma },
            sound: b.sound.with_play(l.play),
            ..b
        },
    }
}

/// An EEPROM between commands.
pub open spec fn eeprom_idle(e: EepromFsm) -> EepromFsm {
    EepromFsm {
        bits: 0,
        bit_count: 0,
        phase: EE_IDLE,
        read_stream: 0,
        read_left: 0,
        write_addr: 0,
        write_buf: 0,
        ..e
    }
}

/// A clock that nothing was sent to.
pub open spec fn clock_idle(r: Rtc) -> Rtc {
    r.with_gpio(
        RtcGpio {
            data: 0,
            dir: 0,
            ctrl: 0,
            bit_count: 0,
            cmd: 0,
            buf: [0u8, 0, 0, 0, 0, 0, 0, 0],
            buf_len: 0,
            buf_idx: 0,
            reading: false,
            cs: false,
            sck: false,
            cmd_done: false,
        },
    )
}

/// Chip engines taken from a state that has them; with an older one they become
/// idle.
#[verifier::opaque]
pub open spec fn chips_taken(b: BusModel, c: Option<Chips>) -> BusModel {
    match c {
        None => BusModel {
            flash: match b.flash {
                Some(f) => Some(f.idle()),
                None => None,
            },
            eeprom: match b.eeprom {
                Some(m) => Some(EepromModel { fsm: eeprom_idle(m.fsm), ..m }),
                None => None,
            },
            rtc: clock_idle(b.rtc),
            ..b
        },
        Some(c) => BusModel {
            flash: match (b.flash, c.flash) {
                (Some(f), Some((mode, cmd_step))) => Some(FlashModel { mode, cmd_step, ..f }),
                _ => b.flash,
            },
            eeprom: match (b.eeprom, c.eeprom) {
                (Some(m), Some(fsm)) => Some(EepromModel { fsm, ..m }),
                _ => b.eeprom,
            },
            rtc: match c.rtc {
                Some(g) => b.rtc.with_gpio(g),
                None => b.rtc,
            },
            ..b
        },
    }
}

/// The bus of a machine that takes a state.
pub open spec fn bus_taken(b: BusModel, i: ImageModel) -> BusModel {
    let b = controls_taken(registers_taken(b, i));
    memory_taken(chips_taken(late_taken(b, i.late), i.chips), i.mem)
}

/// The machine that takes a state.
pub open spec fn taken(m: EmuModel, i: ImageModel) -> EmuModel {
    EmuModel {
        cpu: i.cpu,
        timers: i.timers,
        ppu: PpuModel {
            line: i.line,
            line_cycles: i.line_cycles,
            frame: i.frame,
            hblank_fired: i.line_cycles >= HBLANK_CYCLE,
            ..m.ppu
        },
        bus: bus_taken(m.bus, i),
        ..m
    }
}

impl Bus {
    fn take_registers(
        &mut self,
        io: Vec<u8>,
        sram: Vec<u8>,
        flash: Option<(Vec<u8>, u32)>,
        reload: [u16; 4],
        Ghost(i): Ghost<ImageModel>,
    )
        requires
            old(self)@.wf(),
            i.mem.io == io@,
            i.mem.sram == sram@,
            i.flash == cells(flash),
            i.timers.reload == reload,
        ensures
            final(self)@ == registers_taken(old(self)@, i),
            final(self)@.wf(),
    {
        reveal(bus_view);
        reveal(flash_view);
        reveal(BusModel::wf);
        reveal(registers_taken);
        self.timer_reload = reload;
        self.io = io;
        self.sram = sram;
        if let Some((data, bank)) = flash {
            if let Some(f) = &mut self.flash {
                f.data = data;
                f.bank = bank as usize;
            }
        }
    }

    fn take_controls(&mut self)
        requires
            old(self)@.wf(),
        ensures
            final(self)@ == controls_taken(old(self)@),
            final(self)@.wf(),
    {
        reveal(controls_taken);
        let t0: u16 = self.read16(0x0400_0102);
        let t1: u16 = self.read16(0x0400_0106);
        let t2: u16 = self.read16(0x0400_010A);
        let t3: u16 = self.read16(0x0400_010E);
        proof {
            reveal(bus_view);
            reveal(BusModel::wf);
        }
        self.timer_ctrl_prev = [t0, t1, t2, t3];
        self.timer_start_mask = 0;
    }

    fn take_late(&mut self, l: Option<Late>)
        requires
            old(self)@.wf(),
            l matches Some(x) ==> x.play@.wf(),
        ensures
            final(self)@ == late_taken(old(self)@, late_view(l)),
            final(self)@.wf(),
    {
        reveal(bus_view);
        reveal(BusModel::wf);
        reveal(late_taken);
        if let Some(l) = l {
            self.halt_wait = l.halt_wait;
            self.intr_wait_mask = l.intr_wait_mask;
            self.intr_wait_ime = 1;
            self.timer_start_mask = l.timer_start_mask;
            self.dma.ch = l.ch;
            self.sound.restore_play(l.play);
        }
    }

    fn idle_chips(&mut self)
        requires
            old(self)@.wf(),
        ensures
            final(self)@ == chips_taken(old(self)@, None),
            final(self)@.wf(),
    {
        reveal(bus_view);
        reveal(flash_view);
        reveal(eeprom_view);
        reveal(BusModel::wf);
        reveal(chips_taken);
        if let Some(f) = &mut self.flash {
            let bank: usize = f.bank;
            f.restore_fsm(FLASH_READY, 0, bank);
        }
        if let Some(e) = &mut self.eeprom {
            let s: EepromFsm = e.snapshot_fsm();
            e.restore_fsm(
                EepromFsm {
                    bits: 0,
                    bit_count: 0,
                    phase: EE_IDLE,
                    read_stream: 0,
                    read_left: 0,
                    write_addr: 0,
                    write_buf: 0,
                    ..s
                },
            );
        }
        self.rtc.restore_gpio(
            RtcGpio {
                data: 0,
                dir: 0,
                ctrl: 0,
                bit_count: 0,
                cmd: 0,
                buf: [0u8, 0, 0, 0, 0, 0, 0, 0],
                buf_len: 0,
                buf_idx: 0,
                reading: false,
                cs: false,
                sck: false,
                cmd_done: false,
            },
        );
    }

    fn take_chips(&mut self, c: Option<Chips>)
        requires
            old(self)@.wf(),
        ensures
            final(self)@ == chips_taken(old(self)@, c),
            final(self)@.wf(),
    {
        reveal(bus_view);
        reveal(flash_view);
        reveal(eeprom_view);
        reveal(BusModel::wf);
        reveal(chips_taken);
        if let Some(c) = c {
            if let Some((mode, step)) = c.flash {
                if let Some(f) = &mut self.flash {
                    let bank: usize = f.bank;
                    f.restore_fsm(mode, step, bank);
                }
            }
            if let Some(fsm) = c.eeprom {
                if let Some(e) = &mut self.eeprom {
                    e.restore_fsm(fsm);
                }
            }
            if let Some(g) = c.rtc {
                self.rtc.restore_gpio(g);
            }
        } else {
            self.idle_chips();
        }
    }

    fn take_memory(
        &mut self,
        ewram: Vec<u8>,
        iwram: Vec<u8>,
        pal: Vec<u8>,
        vram: Vec<u8>,
        oam: Vec<u8>,
        Ghost(m): Ghost<MemoryModel>,
    )
        requires
            old(self)@.wf(),
            m.ewram == ewram@,
            m.iwram == iwram@,
            m.pal == pal@,
            m.vram == vram@,
            m.oam == oam@,
        ensures
            final(self)@ == memory_taken(old(self)@, m),
            final(self)@.mapped() ==> final(self)@.wf(),
    {
        reveal(bus_view);
        reveal(BusModel::wf);
        reveal(memory_taken);
        self.ewram = ewram;
        self.iwram = iwram;
        self.pal = pal;
        self.vram = vram;
        self.oam = oam;
        self.save_dirty = true;
    }
}

/// The machine after a state is loaded, or why it is not.
pub open spec fn loaded(m: EmuModel, d: Seq<u8>) -> Result<EmuModel, StateError> {
    match parsed(d, m.cpu, m.timers.frac) {
        Err(e) => Err(e),
        Ok(i) => Ok(taken(m, i)),
    }
}

/// Loads a state. A machine that refuses one stays as it was. Memories are
/// taken as long as the state has them: with one that ends before its window
/// does the machine cannot go on.
pub fn load(emu: &mut Emu, data: &[u8]) -> (r: Result<(), StateError>)
    requires
        old(emu)@.wf(),
    ensures
        match loaded(old(emu)@, data@) {
            Ok(m) => r is Ok && final(emu)@ == m,
            Err(e) => r == Err::<(), StateError>(e) && final(emu)@ == old(emu)@,
        },
        final(emu)@.bus.mapped() ==> final(emu)@.wf(),
{
    let i: Image = match parse(data, emu.cpu, emu.timers.frac) {
        Ok(i) => i,
        Err(e) => {
            return Err(e);
        },
    };
    let ghost g = i@;
    emu.bus.take_registers(i.mem.io, i.mem.sram, i.flash, i.timers.reload, Ghost(g));
    proof {
        lemma_controls(emu.bus@);
    }
    emu.bus.take_controls();
    emu.bus.take_late(i.late);
    emu.bus.take_chips(i.chips);
    emu.bus.take_memory(i.mem.ewram, i.mem.iwram, i.mem.pal, i.mem.vram, i.mem.oam, Ghost(g.mem));
    emu.cpu = i.cpu;
    emu.timers = i.timers;
    emu.ppu.line = i.line;
    emu.ppu.line_cycles = i.line_cycles;
    emu.ppu.frame = i.frame;
    emu.ppu.sync_hblank_from_cycles();
    Ok(())
}

/// Reading an IO register changes nothing but the open-bus latches.
pub proof fn lemma_io_read(b: BusModel, a: u32)
    requires
        0x0400_0000 <= a < 0x0400_0400,
    ensures
        b.read16(a).0 == (BusModel { last_bus: b.read16(a).0.last_bus, ..b }),
{
    lemma_io_page(a);
    lemma_even(a);
    reveal(BusModel::read16);
    reveal(BusModel::read8);
    reveal(BusModel::latched16);
    reveal(BusModel::cart_device8);
    reveal(BusModel::noted);
    let e = a & !1u32;
    assert(e.wrapping_add(1) == (e + 1) as u32);
}

proof fn lemma_controls(b: BusModel)
    ensures
        controls_taken(b) == (BusModel {
            last_bus: controls_taken(b).last_bus,
            timer_ctrl_prev: controls_taken(b).timer_ctrl_prev,
            timer_start_mask: 0,
            ..b
        }),
{
    reveal(controls_taken);
    let b1 = b.read16(0x0400_0102).0;
    let b2 = b1.read16(0x0400_0106).0;
    let b3 = b2.read16(0x0400_010A).0;
    lemma_io_read(b, 0x0400_0102);
    lemma_io_read(b1, 0x0400_0106);
    lemma_io_read(b2, 0x0400_010A);
    lemma_io_read(b3, 0x0400_010E);
}

// ---- laws ---------------------------------------------------------------

/// What a state holds of machine `m`, for a machine whose CPU is `c`.
pub open spec fn image_of(m: EmuModel, c: Cpu) -> ImageModel {
    ImageModel {
        cpu: banks_of(m.cpu, core_of(m.cpu, c)),
        timers: m.timers,
        line: m.ppu.line,
        line_cycles: m.ppu.line_cycles,
        mem: memory_of(m.bus),
        flash: flash_cells(m.bus.flash),
        frame: m.ppu.frame,
        late: Some(late_of(m.bus)),
        chips: Some(chips_of(m.bus.flash, m.bus.eeprom, m.bus.rtc)),
    }
}

/// The machine's values fit the fields that a state has for them.
pub open spec fn fields_fit(m: EmuModel) -> bool {
    &&& modes_fit(m.cpu)
    &&& m.bus.ewram.len() <= u32::MAX && m.bus.iwram.len() <= u32::MAX
    &&& m.bus.io.len() <= u32::MAX && m.bus.pal.len() <= u32::MAX
    &&& m.bus.vram.len() <= u32::MAX && m.bus.oam.len() <= u32::MAX
    &&& m.bus.sram.len() <= u32::MAX
    &&& m.bus.flash matches Some(f) ==> f.data.len() <= u32::MAX && f.bank <= u32::MAX
}

/// A saved state reads back as it was written.
pub proof fn law_state_reads_back(m: EmuModel, c: Cpu, frac: [u32; 4])
    requires
        m.wf(),
        fields_fit(m),
    ensures
        parsed(state_bytes(m), c, frac) == Ok::<ImageModel, StateError>(image_of(m, c)),
{
    broadcast use group_put;

    reveal(state_bytes);
    reveal(parsed);
    reveal(get_image);
    let d = state_bytes(m);
    let o0 = put_raw(Seq::empty(), magic(0x35));
    let o1 = put_cpu(o0, m.cpu);
    let o2 = put_timers(o1, m.timers);
    let o3 = put16(o2, m.ppu.line);
    let o4 = put32(o3, m.ppu.line_cycles);
    let o5 = put_memory(o4, memory_of(m.bus));
    let o6 = put_flash(o5, m.bus.flash);
    let n = m.ppu.frame.len();
    let o7 = put_halves(o6, m.ppu.frame, n);
    let o8 = put_late(o7, late_of(m.bus));
    let o9 = put_banks(o8, m.cpu);
    let chips = chips_of(m.bus.flash, m.bus.eeprom, m.bus.rtc);
    assert(begins(d, d)) by {
        reveal(begins);
    }
    reveal(BusModel::wf);
    assert(late_of(m.bus).play.wf()) by {
        reveal(SoundModel::wf);
        reveal(SoundModel::play);
    }
    lemma_chips(d, o9, chips);
    lemma_banks(d, o8, m.cpu, core_of(m.cpu, c));
    lemma_late(d, o7, late_of(m.bus));
    lemma_put_halves(d, o6, m.ppu.frame, n);
    assert(m.ppu.frame.take(n as int) =~= m.ppu.frame);
    lemma_flash(d, o5, m.bus.flash);
    lemma_memory(d, o4, memory_of(m.bus));
    assert(begins(d, o3) && begins(d, o2));
    lemma_timers(d, o1, m.timers, frac);
    lemma_cpu(d, o0, m.cpu, c);
    assert(magic(0x35).len() == 8);
    assert(Seq::<u8>::empty().len() == 0);
}

/// A state loads into every machine, and gives it the registers, timers,
/// memory, frame, waits, DMA channels and sound position of the machine that
/// was saved. The chip engines come along where both machines have the chip.
pub proof fn law_save_load(m: EmuModel, n: EmuModel)
    requires
        m.wf(),
        fields_fit(m),
        n.wf(),
    ensures
        loaded(n, state_bytes(m)) is Ok,
        ({
            let r = loaded(n, state_bytes(m))->Ok_0;
            &&& r.cpu == (Cpu {
                unknown_ops: n.cpu.unknown_ops,
                last_unknown: n.cpu.last_unknown,
                ..m.cpu
            })
            &&& r.timers == m.timers
            &&& r.ppu.line == m.ppu.line && r.ppu.line_cycles == m.ppu.line_cycles
            &&& r.ppu.frame == m.ppu.frame
            &&& memory_of(r.bus) == memory_of(m.bus)
            &&& r.bus.halt_wait == m.bus.halt_wait
            &&& r.bus.intr_wait_mask == m.bus.intr_wait_mask
            &&& r.bus.timer_start_mask == m.bus.timer_start_mask
            &&& r.bus.dma.ch == m.bus.dma.ch
            &&& r.bus.sound.play() == m.bus.sound.play()
            &&& m.bus.flash is Some && n.bus.flash is Some ==> {
                let (f, g) = (r.bus.flash->0, m.bus.flash->0);
                f.data == g.data && f.bank == g.bank && f.mode == g.mode && f.cmd_step == g.cmd_step
            }
            &&& m.bus.eeprom is Some && n.bus.eeprom is Some ==> r.bus.eeprom->0.fsm
                == m.bus.eeprom->0.fsm
            &&& m.bus.rtc.present ==> r.bus.rtc.gpio() == m.bus.rtc.gpio()
            &&& r.bus.save_dirty
        }),
{
    law_state_reads_back(m, n.cpu, n.timers.frac);
    let i = image_of(m, n.cpu);
    reveal(BusModel::wf);
    let b1 = registers_taken(n.bus, i);
    lemma_controls(b1);
    reveal(registers_taken);
    reveal(memory_taken);
    reveal(late_taken);
    reveal(chips_taken);
    law_play_round_trip(m.bus.sound, n.bus.sound);
}

} // verus!
