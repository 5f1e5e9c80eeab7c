//! Cartridge battery saves: SRAM, Flash and serial EEPROM.

use crate::bits::{lemma_and16, lemma_and8, lemma_one_bit, min_int};
use crate::mem::{byte_or, bytes_of, fill_range, filled, find_tag, get_or, holds_tag, overlaid, overlay, repeated};
use vstd::prelude::*;

verus! {

#[derive(Clone, Copy, Debug, PartialEq, Eq, Structural)]
pub enum SaveType {
    /// No save hardware known.
    NoSave,
    /// Size in bytes (typically 32 KiB or 64 KiB).
    Sram(usize),
    /// 64 KiB flash.
    Flash64,
    /// 128 KiB flash (banked).
    Flash128,
    /// 512-byte EEPROM (6-bit address).
    Eeprom512,
    /// 8 KiB EEPROM (14-bit address).
    Eeprom8K,
}

impl SaveType {
    pub open spec fn bytes(self) -> int {
        match self {
            SaveType::NoSave => 0,
            SaveType::Sram(n) => n as int,
            SaveType::Flash64 => 0x1_0000,
            SaveType::Flash128 => 0x2_0000,
            SaveType::Eeprom512 => 512,
            SaveType::Eeprom8K => 8192,
        }
    }

    pub fn size(self) -> (r: usize)
        ensures
            r == self.bytes(),
    {
        match self {
            SaveType::NoSave => 0,
            SaveType::Sram(n) => n,
            SaveType::Flash64 => 0x1_0000,
            SaveType::Flash128 => 0x2_0000,
            SaveType::Eeprom512 => 512,
            SaveType::Eeprom8K => 8192,
        }
    }

    pub fn label(self) -> (r: &'static str)
        ensures
            r@ == (match self {
                SaveType::NoSave => "none"@,
                SaveType::Sram(n) => if n <= 0x8000 {
                    "SRAM 32K"@
                } else {
                    "SRAM 64K"@
                },
                SaveType::Flash64 => "FLASH 64K"@,
                SaveType::Flash128 => "FLASH 128K"@,
                SaveType::Eeprom512 => "EEPROM 512B"@,
                SaveType::Eeprom8K => "EEPROM 8K"@,
            }),
    {
        match self {
            SaveType::NoSave => "none",
            SaveType::Sram(n) => if n <= 0x8000 {
                "SRAM 32K"
            } else {
                "SRAM 64K"
            },
            SaveType::Flash64 => "FLASH 64K",
            SaveType::Flash128 => "FLASH 128K",
            SaveType::Eeprom512 => "EEPROM 512B",
            SaveType::Eeprom8K => "EEPROM 8K",
        }
    }

    pub fn is_eeprom(self) -> (r: bool)
        ensures
            r == (self is Eeprom512 || self is Eeprom8K),
    {
        matches!(self, SaveType::Eeprom512 | SaveType::Eeprom8K)
    }
}

/// The save hardware that the SDK tags in a ROM name, the more specific tag
/// first. Without a tag the cart has none; a first write to the save window
/// may still promote it to SRAM.
pub open spec fn detected(rom: Seq<u8>) -> SaveType {
    if holds_tag(rom, "FLASH1M_V"@) || holds_tag(rom, "FLASH1M"@) {
        SaveType::Flash128
    } else if holds_tag(rom, "FLASH512_V"@) || holds_tag(rom, "FLASH_V"@) || holds_tag(
        rom,
        "FLASH512"@,
    ) {
        SaveType::Flash64
    } else if holds_tag(rom, "SRAM_V"@) || holds_tag(rom, "SRAM_F_V"@) {
        SaveType::Sram(0x1_0000)
    } else if holds_tag(rom, "EEPROM_V"@) {
        SaveType::Eeprom8K
    } else {
        SaveType::NoSave
    }
}

/// Detect the save type from strings embedded in the ROM (Nintendo SDK tags).
pub fn detect(rom: &[u8]) -> (r: SaveType)
    ensures
        r == detected(rom@),
{
    proof {
        reveal_strlit("FLASH1M_V");
        reveal_strlit("FLASH1M");
        reveal_strlit("FLASH512_V");
        reveal_strlit("FLASH_V");
        reveal_strlit("FLASH512");
        reveal_strlit("SRAM_V");
        reveal_strlit("SRAM_F_V");
        reveal_strlit("EEPROM_V");
    }
    if find_tag(rom, "FLASH1M_V") || find_tag(rom, "FLASH1M") {
        return SaveType::Flash128;
    }
    if find_tag(rom, "FLASH512_V") || find_tag(rom, "FLASH_V") || find_tag(rom, "FLASH512") {
        return SaveType::Flash64;
    }
    if find_tag(rom, "SRAM_V") || find_tag(rom, "SRAM_F_V") {
        return SaveType::Sram(0x1_0000);
    }
    if find_tag(rom, "EEPROM_V") {
        return SaveType::Eeprom8K;
    }
    SaveType::NoSave
}

/// Manufacturer and device byte that the SDK flash library of this ROM
/// expects. Only chips that speak the AMD unlock sequence are named.
pub open spec fn ids_for(rom: Seq<u8>, size: int) -> (u8, u8) {
    if size >= 0x2_0000 {
        if holds_tag(rom, "FLASH1M_V102"@) {
            (0xC2, 0x09)
        } else {
            (0x62, 0x13)
        }
    } else if holds_tag(rom, "PANASONIC"@) {
        (0x32, 0x1B)
    } else if holds_tag(rom, "MACRONIX"@) {
        (0xC2, 0x1C)
    } else {
        (0xBF, 0xD4)
    }
}

pub fn flash_ids(rom: &[u8], size: usize) -> (r: (u8, u8))
    ensures
        r == ids_for(rom@, size as int),
{
    proof {
        reveal_strlit("FLASH1M_V102");
        reveal_strlit("PANASONIC");
        reveal_strlit("MACRONIX");
    }
    if size >= 0x2_0000 {
        // FLASH1M_V102 Macronix; V103 Sanyo.
        if find_tag(rom, "FLASH1M_V102") {
            return (0xC2, 0x09);
        }
        return (0x62, 0x13);
    }
    if find_tag(rom, "PANASONIC") {
        return (0x32, 0x1B);
    }
    if find_tag(rom, "MACRONIX") {
        return (0xC2, 0x1C);
    }
    (0xBF, 0xD4)
}

/// The battery image of `size` bytes that a save file stands for: what the
/// file holds, then FF. A size of zero still gives one byte.
pub open spec fn sav_image(file: Option<Seq<u8>>, size: nat) -> Seq<u8> {
    let blank = repeated(
        0xFFu8,
        if size == 0 {
            1
        } else {
            size
        },
    );
    match file {
        Some(data) => if size == 0 {
            blank
        } else {
            overlaid(blank, data)
        },
        None => blank,
    }
}

/// Battery image from the bytes of a save file, if there is one.
pub fn load_sav(file: Option<&[u8]>, size: usize) -> (r: Vec<u8>)
    ensures
        r@ == sav_image(
            match file {
                Some(d) => Some(d@),
                None => None,
            },
            size as nat,
        ),
{
    let mut buf = bytes_of(
        0xFF,
        if size == 0 {
            1
        } else {
            size
        },
    );
    if size == 0 {
        return buf;
    }
    if let Some(data) = file {
        overlay(&mut buf, data);
    }
    buf
}

/// What a flash chip is: its cells and its command decoder.
#[verifier::ext_equal]
pub struct FlashModel {
    pub data: Seq<u8>,
    pub bank: usize,
    pub cmd_step: u8,
    pub mode: u8,
    pub manufacturer: u8,
    pub device: u8,
}

/// Decoder modes.
pub const FLASH_READY: u8 = 0;

pub const FLASH_ID: u8 = 1;

pub const FLASH_ERASE: u8 = 2;

pub const FLASH_PROGRAM: u8 = 3;

pub const FLASH_BANK: u8 = 4;

impl FlashModel {
    /// First cell of the selected bank: only 128K chips are banked.
    pub open spec fn base(self) -> int {
        if self.data.len() >= 0x2_0000 {
            self.bank * 0x1_0000
        } else {
            0
        }
    }

    pub open spec fn idle(self) -> FlashModel {
        FlashModel { mode: FLASH_READY, cmd_step: 0, ..self }
    }

    /// The byte seen at an address: an ID byte in ID mode, else the cell.
    pub open spec fn read(self, addr: u32) -> u8 {
        let off = (addr as usize) & 0xFFFF;
        if self.mode == FLASH_ID {
            if off == 0 {
                self.manufacturer
            } else if off == 1 {
                self.device
            } else {
                0xFF
            }
        } else {
            byte_or(self.data, self.base() + off, 0xFF)
        }
    }

    /// One byte written to the chip, and whether cells may have changed.
    ///
    /// Program and bank-select take the next byte as it comes. Otherwise a
    /// command is the third byte of `AA@5555, 55@2AAA, cmd`; erase wants the
    /// prefix twice. A lone F0 leaves every mode.
    pub open spec fn write(self, addr: u32, val: u8) -> (FlashModel, bool) {
        let off = (addr as usize) & 0xFFFF;
        if self.mode == FLASH_PROGRAM {
            let i = self.base() + off;
            let data = if i < self.data.len() {
                self.data.update(i, self.data[i] & val)
            } else {
                self.data
            };
            (FlashModel { data, ..self.idle() }, true)
        } else if self.mode == FLASH_BANK {
            (FlashModel { bank: (val & 1) as usize, ..self.idle() }, false)
        } else if self.cmd_step == 0 && off == 0x5555 && val == 0xAA {
            (FlashModel { cmd_step: 1, ..self }, false)
        } else if self.cmd_step == 1 && off == 0x2AAA && val == 0x55 {
            (FlashModel { cmd_step: 2, ..self }, false)
        } else if self.cmd_step == 2 {
            if self.mode == FLASH_ERASE {
                if val == 0x10 {
                    (
                        FlashModel { data: repeated(0xFF, self.data.len()), ..self.idle() },
                        true,
                    )
                } else if val == 0x30 {
                    let lo = self.base() + (off & !0xFFFusize);
                    (
                        FlashModel { data: filled(self.data, lo, lo + 0x1000, 0xFF), ..self.idle() },
                        true,
                    )
                } else {
                    (self.idle(), false)
                }
            } else {
                let mode = if val == 0x90 {
                    FLASH_ID
                } else if val == 0xF0 {
                    FLASH_READY
                } else if val == 0x80 {
                    FLASH_ERASE
                } else if val == 0xA0 {
                    FLASH_PROGRAM
                } else if val == 0xB0 {
                    FLASH_BANK
                } else {
                    self.mode
                };
                (FlashModel { mode, cmd_step: 0, ..self }, false)
            }
        } else if val == 0xF0 {
            (self.idle(), false)
        } else {
            (FlashModel { cmd_step: 0, ..self }, false)
        }
    }
}

/// Flash chip (64K / 128K) with the AMD command set.
#[derive(Clone, Debug)]
pub struct FlashChip {
    pub data: Vec<u8>,
    pub bank: usize,
    pub cmd_step: u8,
    pub mode: u8,
    pub manufacturer: u8,
    pub device: u8,
}

impl View for FlashChip {
    type V = FlashModel;

    open spec fn view(&self) -> FlashModel {
        FlashModel {
            data: self.data@,
            bank: self.bank,
            cmd_step: self.cmd_step,
            mode: self.mode,
            manufacturer: self.manufacturer,
            device: self.device,
        }
    }
}

/// A blank chip: at least 64K of FF, bank 0, ready.
pub open spec fn blank_flash(size: nat, ids: (u8, u8)) -> FlashModel {
    FlashModel {
        data: repeated(
            0xFFu8,
            if size < 0x1_0000 {
                0x1_0000
            } else {
                size
            },
        ),
        bank: 0,
        cmd_step: 0,
        mode: FLASH_READY,
        manufacturer: ids.0,
        device: ids.1,
    }
}

impl FlashChip {
    pub fn new(size: usize) -> (r: Self)
        ensures
            r@ == blank_flash(size as nat, ids_for(Seq::empty(), size as int)),
    {
        let none: Vec<u8> = Vec::new();
        let (m, d) = flash_ids(none.as_slice(), size);
        assert(none@ =~= Seq::<u8>::empty());
        Self::with_ids(size, m, d)
    }

    /// Pick IDs from the ROM's SDK tag (FLASH1M_V103 is Sanyo, etc.).
    pub fn new_for(size: usize, rom: &[u8]) -> (r: Self)
        ensures
            r@ == blank_flash(size as nat, ids_for(rom@, size as int)),
    {
        let (m, d) = flash_ids(rom, size);
        Self::with_ids(size, m, d)
    }

    fn with_ids(size: usize, manufacturer: u8, device: u8) -> (r: Self)
        ensures
            r@ == blank_flash(size as nat, (manufacturer, device)),
    {
        FlashChip {
            data: bytes_of(
                0xFF,
                if size < 0x1_0000 {
                    0x1_0000
                } else {
                    size
                },
            ),
            bank: 0,
            cmd_step: 0,
            mode: FLASH_READY,
            manufacturer,
            device,
        }
    }

    pub fn restore_fsm(&mut self, mode: u8, cmd_step: u8, bank: usize)
        ensures
            final(self)@ == (FlashModel { mode, cmd_step, bank, ..old(self)@ }),
    {
        self.mode = mode;
        self.cmd_step = cmd_step;
        self.bank = bank;
    }

    /// (mode, cmd_step, bank, manufacturer, device)
    pub fn debug_fsm(&self) -> (r: (u8, u8, usize, u8, u8))
        ensures
            r == (
                self@.mode,
                self@.cmd_step,
                self@.bank,
                self@.manufacturer,
                self@.device,
            ),
    {
        (self.mode, self.cmd_step, self.bank, self.manufacturer, self.device)
    }

    fn bank_base(&self) -> (r: usize)
        ensures
            r == min_int(self@.base(), usize::MAX as int),
    {
        if self.data.len() >= 0x2_0000 {
            match self.bank.checked_mul(0x1_0000) {
                Some(b) => b,
                None => usize::MAX,
            }
        } else {
            0
        }
    }

    pub fn read(&self, addr: u32) -> (r: u8)
        ensures
            r == self@.read(addr),
    {
        let off: usize = (addr as usize) & 0xFFFF;
        proof {
            lemma_off16(addr as usize);
        }
        if self.mode == FLASH_ID {
            if off == 0 {
                return self.manufacturer;
            }
            if off == 1 {
                return self.device;
            }
            return 0xFF;
        }
        let i: usize = self.bank_base().saturating_add(off);
        if i < self.data.len() {
            self.data[i]
        } else {
            0xFF
        }
    }

    /// One write cycle; true when cells may have changed.
    pub fn write(&mut self, addr: u32, val: u8) -> (r: bool)
        ensures
            (final(self)@, r) == old(self)@.write(addr, val),
    {
        let off: usize = (addr as usize) & 0xFFFF;
        proof {
            lemma_off16(addr as usize);
            lemma_line_bits(val, 0);
        }
        if self.mode == FLASH_PROGRAM {
            let i: usize = self.bank_base().saturating_add(off);
            if i < self.data.len() {
                // flash programs 1 to 0
                self.data[i] = self.data[i] & val;
            }
            self.mode = FLASH_READY;
            self.cmd_step = 0;
            return true;
        }
        if self.mode == FLASH_BANK {
            self.bank = (val & 1) as usize;
            self.mode = FLASH_READY;
            self.cmd_step = 0;
            return false;
        }
        // AMD unlock: [5555]=AA, [2AAA]=55, then the command byte.
        if self.cmd_step == 0 && off == 0x5555 && val == 0xAA {
            self.cmd_step = 1;
            return false;
        }
        if self.cmd_step == 1 && off == 0x2AAA && val == 0x55 {
            self.cmd_step = 2;
            return false;
        }
        if self.cmd_step == 2 {
            self.cmd_step = 0;
            if self.mode == FLASH_ERASE {
                self.mode = FLASH_READY;
                if val == 0x10 {
                    let n: usize = self.data.len();
                    fill_range(&mut self.data, 0, n, 0xFF);
                    assert(self.data@ =~= repeated(0xFFu8, old(self)@.data.len()));
                    return true;
                }
                if val == 0x30 {
                    let lo: usize = self.bank_base().saturating_add(off & !0xFFF);
                    let len: usize = self.data.len();
                    if lo < len {
                        let room: usize = len - lo;
                        let hi: usize = if room < 0x1000 {
                            len
                        } else {
                            lo + 0x1000
                        };
                        fill_range(&mut self.data, lo, hi, 0xFF);
                    }
                    assert(self.data@ =~= filled(
                        old(self)@.data,
                        old(self)@.base() + (off & !0xFFFusize),
                        old(self)@.base() + (off & !0xFFFusize) + 0x1000,
                        0xFF,
                    ));
                    return true;
                }
                return false;
            }
            if val == 0x90 {
                self.mode = FLASH_ID;
            } else if val == 0xF0 {
                self.mode = FLASH_READY;
            } else if val == 0x80 {
                self.mode = FLASH_ERASE;
            } else if val == 0xA0 {
                self.mode = FLASH_PROGRAM;
            } else if val == 0xB0 {
                self.mode = FLASH_BANK;
            }
            return false;
        }
        self.cmd_step = 0;
        // Many SDK drivers write F0 to leave ID without a full prefix.
        if val == 0xF0 {
            self.mode = FLASH_READY;
        }
        false
    }
}

pub proof fn lemma_off16(a: usize)
    ensures
        a & 0xFFFF <= 0xFFFF,
        (a & 0xFFFF) & !0xFFFusize <= 0xF000,
        0x5555usize & 0xFFFF == 0x5555,
        0x2AAAusize & 0xFFFF == 0x2AAA,
        a < 0x1_0000 ==> a & 0xFFFF == a,
        a & 0xFFFF == a % 0x1_0000,
        (a & 0xFFFF) & !0xFFFusize == a % 0x1_0000 / 0x1000 * 0x1000,
{
    assert(a & 0xFFFF <= 0xFFFF && (a & 0xFFFF) & !0xFFFusize <= 0xF000 && 0x5555usize & 0xFFFF == 0x5555 && 0x2AAAusize
        & 0xFFFF == 0x2AAA && (a < 0x1_0000 ==> a & 0xFFFF == a) && a & 0xFFFF == a % 0x1_0000 && (a & 0xFFFF)
        & !0xFFFusize == a % 0x1_0000 / 0x1000 * 0x1000) by (bit_vector);
}

/// EEPROM serial engine (not the data array) for savestates.
#[derive(Clone, Copy, Debug)]
pub struct EepromFsm {
    pub addr_bits: u8,
    pub bits: u64,
    pub bit_count: u8,
    pub phase: u8,
    pub dirty: bool,
    pub read_stream: u128,
    pub read_left: u8,
    pub write_addr: u16,
    pub write_buf: u64,
}

/// Serial phases.
pub const EE_IDLE: u8 = 0;

pub const EE_HEADER: u8 = 1;

pub const EE_WRITE: u8 = 2;

pub const EE_READ: u8 = 3;

/// What an EEPROM is: its cells and its serial engine.
#[verifier::ext_equal]
pub struct EepromModel {
    pub data: Seq<u8>,
    pub fsm: EepromFsm,
}

/// `n` bytes from `off`, big-endian; cells past the end read FF.
pub open spec fn be_bytes(data: Seq<u8>, off: int, n: nat) -> u64
    decreases n,
{
    if n == 0 {
        0
    } else {
        (be_bytes(data, off, (n - 1) as nat) << 8) | (byte_or(data, off + n - 1, 0xFF) as u64)
    }
}

/// Byte `k` (0 is the first) of eight stored big-endian.
pub open spec fn be_byte(v: u64, k: int) -> u8 {
    ((v >> (((7 - k) * 8) as u64)) & 0xFF) as u8
}

/// `data` with the eight bytes of `v` stored from `off`, as far as they fit.
pub open spec fn with_be64(data: Seq<u8>, off: int, v: u64) -> Seq<u8> {
    Seq::new(
        data.len(),
        |j: int|
            if off <= j < off + 8 {
                be_byte(v, j - off)
            } else {
                data[j]
            },
    )
}

impl EepromModel {
    /// The header is complete: decode command and address.
    pub open spec fn header_done(self) -> EepromModel {
        let f = self.fsm;
        let ab = (f.addr_bits % 64) as u32;
        let cmd = ((f.bits >> ab) & 3) as u8;
        let addr = (f.bits & (((1u64 << ab) - 1) as u64)) as u16;
        if cmd == 2 {
            EepromModel {
                fsm: EepromFsm {
                    write_addr: addr,
                    phase: EE_WRITE,
                    bit_count: 0,
                    write_buf: 0,
                    ..f
                },
                ..self
            }
        } else if cmd == 3 {
            EepromModel {
                fsm: EepromFsm {
                    write_addr: addr,
                    phase: EE_READ,
                    bit_count: 0,
                    bits: 0,
                    read_stream: be_bytes(self.data, addr * 8, 8) as u128,
                    read_left: 68,
                    ..f
                },
                ..self
            }
        } else {
            EepromModel {
                fsm: EepromFsm { write_addr: addr, phase: EE_IDLE, bit_count: 0, bits: 0, ..f },
                ..self
            }
        }
    }

    /// One serial bit in (bit 0 of the halfword).
    pub open spec fn bit_in(self, half: u16) -> EepromModel {
        let f = self.fsm;
        let bit = (half & 1) as u64;
        let start = EepromFsm { phase: EE_HEADER, bits: 1, bit_count: 1, ..f };
        if f.phase == EE_IDLE {
            if bit == 0 {
                self
            } else {
                EepromModel { fsm: start, ..self }
            }
        } else if f.phase == EE_HEADER {
            let g = EepromFsm {
                bits: (f.bits << 1) | bit,
                bit_count: f.bit_count.saturating_add(1),
                ..f
            };
            let s = EepromModel { fsm: g, ..self };
            if g.bit_count == f.addr_bits.wrapping_add(3) {
                s.header_done()
            } else {
                s
            }
        } else if f.phase == EE_WRITE {
            let g = EepromFsm {
                write_buf: (f.write_buf << 1) | bit,
                bit_count: f.bit_count.saturating_add(1),
                ..f
            };
            if g.bit_count >= 64 {
                EepromModel {
                    data: with_be64(self.data, f.write_addr * 8, g.write_buf),
                    fsm: EepromFsm { dirty: true, phase: EE_IDLE, bit_count: 0, bits: 0, ..g },
                }
            } else {
                EepromModel { fsm: g, ..self }
            }
        } else if f.phase == EE_READ {
            // A new command while reading restarts on its start bit.
            if bit == 1 {
                EepromModel { fsm: EepromFsm { read_left: 0, ..start }, ..self }
            } else {
                EepromModel {
                    fsm: EepromFsm { phase: EE_IDLE, read_left: 0, bit_count: 0, bits: 0, ..f },
                    ..self
                }
            }
        } else {
            EepromModel { fsm: EepromFsm { phase: EE_IDLE, ..f }, ..self }
        }
    }

    /// The game turns from sending to reading, so what it sent is a whole
    /// stream. One that is short for 14 address bits came for a 512-byte chip:
    /// a header of nine bits, or a write of 73 and perhaps a stop bit. The chip
    /// takes six address bits from there on.
    pub open spec fn settled(self) -> EepromModel {
        let f = self.fsm;
        let cmd = (f.bits >> 6) & 3;
        let stop = f.bit_count == 57 && f.write_buf & 1 == 0;
        if f.addr_bits != 14 {
            self
        } else if f.phase == EE_HEADER && f.bit_count == 9 && (cmd == 2 || cmd == 3) {
            EepromModel { fsm: EepromFsm { addr_bits: 6, ..f }, ..self }.header_done()
        } else if f.phase == EE_WRITE && (f.bit_count == 56 || stop) {
            // the low eight address bits were the first eight of the data
            let rest = if stop {
                f.write_buf >> 1
            } else {
                f.write_buf
            };
            let v = ((f.write_addr as u64) << 56) | rest;
            let addr = f.write_addr >> 8;
            EepromModel {
                data: with_be64(self.data, addr * 8, v),
                fsm: EepromFsm {
                    addr_bits: 6,
                    write_addr: addr,
                    write_buf: v,
                    dirty: true,
                    phase: EE_IDLE,
                    bit_count: 0,
                    bits: 0,
                    ..f
                },
            }
        } else {
            self
        }
    }

    /// One serial bit out: four zeros, then the 64 data bits from the top;
    /// 1 when there is nothing to read.
    pub open spec fn bit_out(self) -> (EepromModel, u16) {
        let e = self.settled();
        let f = e.fsm;
        if f.phase != EE_READ || f.read_left == 0 {
            (e, 1)
        } else {
            let left = (f.read_left - 1) as u8;
            let g = EepromFsm {
                read_left: left,
                phase: if left == 0 {
                    EE_IDLE
                } else {
                    EE_READ
                },
                ..f
            };
            let v: u16 = if f.read_left > 64 {
                0
            } else {
                ((f.read_stream >> (left as u128)) & 1) as u16
            };
            (EepromModel { fsm: g, ..e }, v)
        }
    }
}

/// Serial EEPROM (512 B or 8 KiB) bit-banged on bus `0x0Dxxxxxx`.
///
/// Games DMA halfwords to and from the cart; bit 0 of each is the serial line:
/// - write: `1 | 10 | addr | 64 data bits | 0`
/// - read:  `1 | 11 | addr`, then 4 dummy and 64 data bits out
#[derive(Clone, Debug)]
pub struct EepromChip {
    pub data: Vec<u8>,
    /// Address width in bits (6 is 512 B, 14 is 8K); it narrows with the first
    /// short stream.
    pub addr_bits: u8,
    pub bits: u64,
    pub bit_count: u8,
    pub phase: u8,
    pub dirty: bool,
    pub read_stream: u128,
    pub read_left: u8,
    pub write_addr: u16,
    pub write_buf: u64,
}

impl View for EepromChip {
    type V = EepromModel;

    open spec fn view(&self) -> EepromModel {
        EepromModel {
            data: self.data@,
            fsm: EepromFsm {
                addr_bits: self.addr_bits,
                bits: self.bits,
                bit_count: self.bit_count,
                phase: self.phase,
                dirty: self.dirty,
                read_stream: self.read_stream,
                read_left: self.read_left,
                write_addr: self.write_addr,
                write_buf: self.write_buf,
            },
        }
    }
}

/// A blank chip of one of the two sizes.
pub open spec fn blank_eeprom(size: int) -> EepromModel {
    let small = size <= 512;
    EepromModel {
        data: repeated(
            0xFFu8,
            if small {
                512
            } else {
                8192
            },
        ),
        fsm: EepromFsm {
            addr_bits: if small {
                6
            } else {
                14
            },
            bits: 0,
            bit_count: 0,
            phase: EE_IDLE,
            dirty: false,
            read_stream: 0,
            read_left: 0,
            write_addr: 0,
            write_buf: 0,
        },
    }
}

impl Default for EepromChip {
    fn default() -> (r: Self)
        ensures
            r@ == blank_eeprom(8192),
    {
        Self::new(8192)
    }
}

impl EepromChip {
    pub fn new(size: usize) -> (r: Self)
        ensures
            r@ == blank_eeprom(size as int),
    {
        let small: bool = size <= 512;
        EepromChip {
            data: bytes_of(
                0xFF,
                if small {
                    512
                } else {
                    8192
                },
            ),
            addr_bits: if small {
                6
            } else {
                14
            },
            bits: 0,
            bit_count: 0,
            phase: EE_IDLE,
            dirty: false,
            read_stream: 0,
            read_left: 0,
            write_addr: 0,
            write_buf: 0,
        }
    }

    pub fn from_save_type(st: SaveType) -> (r: Option<Self>)
        ensures
            match st {
                SaveType::Eeprom512 => r is Some && r->0@ == blank_eeprom(512),
                SaveType::Eeprom8K => r is Some && r->0@ == blank_eeprom(8192),
                _ => r is None,
            },
    {
        match st {
            SaveType::Eeprom512 => Some(Self::new(512)),
            SaveType::Eeprom8K => Some(Self::new(8192)),
            _ => None,
        }
    }

    pub fn snapshot_fsm(&self) -> (r: EepromFsm)
        ensures
            r == self@.fsm,
    {
        EepromFsm {
            addr_bits: self.addr_bits,
            bits: self.bits,
            bit_count: self.bit_count,
            phase: self.phase,
            dirty: self.dirty,
            read_stream: self.read_stream,
            read_left: self.read_left,
            write_addr: self.write_addr,
            write_buf: self.write_buf,
        }
    }

    pub fn restore_fsm(&mut self, s: EepromFsm)
        ensures
            final(self)@ == (EepromModel { fsm: s, ..old(self)@ }),
    {
        self.addr_bits = s.addr_bits;
        self.bits = s.bits;
        self.bit_count = s.bit_count;
        self.phase = s.phase;
        self.dirty = s.dirty;
        self.read_stream = s.read_stream;
        self.read_left = s.read_left;
        self.write_addr = s.write_addr;
        self.write_buf = s.write_buf;
    }

    fn settle(&mut self)
        ensures
            final(self)@ == old(self)@.settled(),
    {
        if self.addr_bits != 14 {
            return;
        }
        if self.phase == EE_HEADER {
            let cmd: u64 = (self.bits >> 6) & 3;
            if self.bit_count == 9 && (cmd == 2 || cmd == 3) {
                self.addr_bits = 6;
                self.finish_header();
            }
        } else if self.phase == EE_WRITE {
            let stop: bool = self.bit_count == 57 && self.write_buf & 1 == 0;
            if self.bit_count == 56 || stop {
                let rest: u64 = if stop {
                    self.write_buf >> 1
                } else {
                    self.write_buf
                };
                self.write_buf = ((self.write_addr as u64) << 56) | rest;
                self.write_addr = self.write_addr >> 8;
                self.addr_bits = 6;
                self.commit_write();
                self.phase = EE_IDLE;
                self.bit_count = 0;
                self.bits = 0;
            }
        }
    }

    /// Serial read halfword (bit 0 is the next bit; idle returns 1).
    pub fn read_serial(&mut self) -> (r: u16)
        ensures
            (final(self)@, r) == old(self)@.bit_out(),
    {
        self.settle();
        if self.phase != EE_READ || self.read_left == 0 {
            return 1;
        }
        let pos: u8 = self.read_left;
        self.read_left = pos - 1;
        if self.read_left == 0 {
            self.phase = EE_IDLE;
        }
        if pos > 64 {
            return 0;
        }
        ((self.read_stream >> ((pos - 1) as u128)) & 1) as u16
    }

    /// Serial write: consume bit 0 of the halfword.
    pub fn write_bit(&mut self, half: u16)
        ensures
            final(self)@ == old(self)@.bit_in(half),
    {
        let bit: u64 = (half & 1) as u64;
        if self.phase == EE_IDLE {
            if bit == 0 {
                return;
            }
            self.phase = EE_HEADER;
            self.bits = 1;
            self.bit_count = 1;
        } else if self.phase == EE_HEADER {
            self.bits = (self.bits << 1) | bit;
            self.bit_count = self.bit_count.saturating_add(1);
            let need: u8 = self.addr_bits.wrapping_add(3);
            if self.bit_count == need {
                self.finish_header();
            }
        } else if self.phase == EE_WRITE {
            self.write_buf = (self.write_buf << 1) | bit;
            self.bit_count = self.bit_count.saturating_add(1);
            if self.bit_count >= 64 {
                self.commit_write();
                // A trailing stop bit (0) may follow; idle ignores it.
                self.phase = EE_IDLE;
                self.bit_count = 0;
                self.bits = 0;
            }
        } else if self.phase == EE_READ {
            proof {
                lemma_line_bits(0, half);
            }
            self.phase = EE_IDLE;
            self.read_left = 0;
            self.bit_count = 0;
            self.bits = 0;
            if bit == 1 {
                self.phase = EE_HEADER;
                self.bits = 1;
                self.bit_count = 1;
            }
        } else {
            self.phase = EE_IDLE;
        }
    }

    fn finish_header(&mut self)
        ensures
            final(self)@ == old(self)@.header_done(),
    {
        let ab: u32 = (self.addr_bits % 64) as u32;
        proof {
            lemma_one_bit(ab);
        }
        let cmd: u8 = ((self.bits >> ab) & 3) as u8;
        let addr: u16 = (self.bits & ((1u64 << ab) - 1)) as u16;
        self.write_addr = addr;
        if cmd == 2 {
            self.phase = EE_WRITE;
            self.bit_count = 0;
            self.write_buf = 0;
        } else if cmd == 3 {
            let off: usize = (addr as usize) * 8;
            let mut data64: u64 = 0;
            let mut i: usize = 0;
            while i < 8
                invariant
                    i <= 8,
                    off <= 0x7_FFF8,
                    data64 == be_bytes(self.data@, off as int, i as nat),
                decreases 8 - i,
            {
                data64 = (data64 << 8) | (get_or(&self.data, off + i, 0xFF) as u64);
                i += 1;
            }
            self.read_stream = data64 as u128;
            self.read_left = 68;
            self.phase = EE_READ;
            self.bit_count = 0;
            self.bits = 0;
        } else {
            self.phase = EE_IDLE;
            self.bit_count = 0;
            self.bits = 0;
        }
    }

    fn commit_write(&mut self)
        ensures
            final(self)@ == (EepromModel {
                data: with_be64(
                    old(self)@.data,
                    old(self)@.fsm.write_addr * 8,
                    old(self)@.fsm.write_buf,
                ),
                fsm: EepromFsm { dirty: true, ..old(self)@.fsm },
            }),
    {
        let off: usize = (self.write_addr as usize) * 8;
        let mut i: usize = 0;
        while i < 8
            invariant
                i <= 8,
                off == old(self).write_addr * 8,
                self@.fsm == old(self)@.fsm,
                self@.data.len() == old(self)@.data.len(),
                forall|j: int|
                    0 <= j < self@.data.len() ==> #[trigger] self@.data[j] == (if off <= j < off
                        + i {
                        be_byte(old(self).write_buf, j - off)
                    } else {
                        old(self)@.data[j]
                    }),
            decreases 8 - i,
        {
            let shift: u64 = ((7 - i) * 8) as u64;
            let b: u8 = ((self.write_buf >> shift) & 0xFF) as u8;
            assert(b == be_byte(old(self).write_buf, i as int));
            if off + i < self.data.len() {
                self.data[off + i] = b;
            }
            i += 1;
        }
        self.dirty = true;
    }
}

proof fn lemma_line_bits(v: u8, h: u16)
    ensures
        v & 1 <= 1,
        h & 1 == 0 || h & 1 == 1,
{
    lemma_and8(v, 1);
    lemma_and16(h, 1);
}

} // verus!
