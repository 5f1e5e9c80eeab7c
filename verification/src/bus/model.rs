//! What the memory map is: its contents as plain values, and what a read or a
//! write does to them.

use crate::battery::{EepromModel, FlashModel, SaveType};
use crate::bits::{aset, hi16, hi8, le16, le32, lo16, lo8};
use crate::dma::DmaController;
use crate::mem::{byte_or, byte_put, repeated};
use crate::rtc::{Rtc, GPIO_CTRL, GPIO_DATA, GPIO_DIR};
use crate::sound::bios::SoundDriver;
use crate::sound::{PsgRegs, SoundModel};
use crate::bus::{MathCall, EWRAM_SIZE, IWRAM_SIZE, OAM_SIZE, PAL_SIZE, VRAM_SIZE};
use vstd::prelude::*;

verus! {

/// The whole machine but for the CPU, as plain values.
pub struct BusModel {
    pub bios: Seq<u8>,
    pub ewram: Seq<u8>,
    pub iwram: Seq<u8>,
    pub io: Seq<u8>,
    pub pal: Seq<u8>,
    pub vram: Seq<u8>,
    pub oam: Seq<u8>,
    pub rom: Seq<u8>,
    pub sram: Seq<u8>,
    pub flash: Option<FlashModel>,
    pub eeprom: Option<EepromModel>,
    pub save_type: SaveType,
    pub save_dirty: bool,
    pub keyinput: u16,
    pub timer_reload: [u16; 4],
    pub timer_ctrl_prev: [u16; 4],
    pub timer_start_mask: u8,
    pub timer_overflows: [u32; 4],
    pub last_bus: u32,
    pub last_bios: u32,
    pub irq_countdown: u8,
    pub last_fetch: u32,
    pub last_fetch_ok: bool,
    pub prefetch_halfs: u8,
    pub halt_wait: bool,
    pub intr_wait_mask: u16,
    pub intr_wait_ime: u16,
    pub hle_bios: bool,
    pub irq_count: u64,
    pub dma: DmaController,
    pub sound: SoundModel,
    pub sound_driver: SoundDriver,
    pub exec_pc: u32,
    pub rtc: Rtc,
    pub affine_compat: bool,
    pub math: Option<MathCall>,
    pub swi_counts: [u32; 256],
    pub swi_unknown: u32,
    pub last_swi_unknown: u8,
    pub last_lz77v_dst: u32,
    pub last_lz77v_size: u32,
    pub last_lz77v_to_0600: u32,
}

/// A halfword stored at an index, low byte first.
pub open spec fn put16(s: Seq<u8>, i: int, v: u16) -> Seq<u8> {
    s.update(i, lo8(v)).update(i + 1, hi8(v))
}

/// A word with the byte lane of `addr` replaced.
pub open spec fn lane_set(w: u32, addr: u32, v: u8) -> u32 {
    let shift: u32 = ((addr & 3) * 8) as u32;
    (w & !(0xFFu32 << shift)) | ((v as u32) << shift)
}

/// The byte lane of `addr` in a word.
pub open spec fn lane_get(w: u32, addr: u32) -> u8 {
    let shift: u32 = ((addr & 3) * 8) as u32;
    ((w >> shift) & 0xFF) as u8
}

/// Registers that a read sees; the rest of the IO page is open bus.
pub open spec fn readable(off: u16) -> bool {
    ||| off <= 0x04D
    ||| 0x050 <= off <= 0x055
    ||| 0x060 <= off <= 0x065
    ||| 0x068 <= off <= 0x069
    ||| 0x06C <= off <= 0x06D
    ||| 0x070 <= off <= 0x075
    ||| 0x078 <= off <= 0x079
    ||| 0x07C <= off <= 0x07D
    ||| 0x080 <= off <= 0x085
    ||| 0x088 <= off <= 0x089
    ||| 0x090 <= off <= 0x09F
    ||| 0x0B0 <= off <= 0x0DF
    ||| 0x100 <= off <= 0x10F
    ||| 0x120 <= off <= 0x12B
    ||| 0x130 <= off <= 0x137
    ||| 0x140 <= off <= 0x141
    ||| 0x150 <= off <= 0x159
    ||| 0x200 <= off <= 0x205
    ||| off == 0x208
    ||| off == 0x300
}

/// Registers that a write reaches: VCOUNT, KEYINPUT and the IME high byte are
/// not among them; the FIFOs and HALTCNT are, though no read sees them.
pub open spec fn writable(off: u16) -> bool {
    &&& !(off == 0x006 || off == 0x007 || off == 0x130 || off == 0x131 || off == 0x209)
    &&& (0x0A0 <= off <= 0x0A7 || off == 0x301 || readable(off))
}

/// Index into the 96K of VRAM: the map repeats every 128K, and the top 32K of
/// each window is the object half again.
pub open spec fn vram_at(addr: u32) -> int {
    let a = (addr & 0x1FFFF) as int;
    if a >= 0x18000 {
        a - 0x8000
    } else {
        a
    }
}

/// Index into a save RAM, which repeats through its window.
pub open spec fn sram_at(sram: Seq<u8>, addr: u32) -> int {
    if sram.len() == 0 {
        0
    } else {
        addr as int % sram.len() as int
    }
}

/// The wait states that two bits of WAITCNT name: 4, 3, 2, 8.
pub open spec fn wait_code(code: u16) -> u32 {
    if code & 3 == 0 {
        4
    } else if code & 3 == 1 {
        3
    } else if code & 3 == 2 {
        2
    } else {
        8
    }
}

/// Non-sequential and sequential cycles of a Game Pak address.
pub open spec fn rom_cycles(waitcnt: u16, addr: u32) -> (u32, u32) {
    if addr >> 24 == 0x08 || addr >> 24 == 0x09 {
        (
            wait_code(waitcnt >> 2),
            if waitcnt & 0x10 != 0 {
                1
            } else {
                2
            },
        )
    } else if addr >> 24 == 0x0A || addr >> 24 == 0x0B {
        (
            wait_code(waitcnt >> 5),
            if waitcnt & 0x80 != 0 {
                1
            } else {
                4
            },
        )
    } else {
        (
            wait_code(waitcnt >> 8),
            if waitcnt & 0x400 != 0 {
                1
            } else {
                8
            },
        )
    }
}

/// A count, capped at what 32 bits hold.
pub open spec fn sat32(v: int) -> u32 {
    if v > u32::MAX {
        u32::MAX
    } else {
        v as u32
    }
}

/// Game Pak ROM window.
pub open spec fn in_rom(addr: u32) -> bool {
    0x08 <= addr >> 24 <= 0x0D
}

/// All keys of a KEYCNT selection are down, or any of them.
pub open spec fn keys_match(keycnt: u16, pressed: u16) -> bool {
    let mask = keycnt & 0x03FF;
    if keycnt & 0x8000 != 0 {
        pressed & mask == mask
    } else {
        pressed & mask != 0
    }
}

impl BusModel {
    /// DMA channels and timers stopped.
    #[verifier::opaque]
    pub open spec fn units_stopped(self) -> BusModel {
        BusModel {
            dma: self.dma.halted(),
            timer_ctrl_prev: [0u16, 0, 0, 0],
            timer_reload: [0u16, 0, 0, 0],
            timer_start_mask: 0,
            timer_overflows: [0u32, 0, 0, 0],
            irq_countdown: 0,
            ..self
        }
    }

    #[verifier::opaque]
    pub open spec fn wf(self) -> bool {
        &&& self.mapped()
        &&& self.prefetch_halfs <= 8
        &&& self.sound.wf()
    }

    /// No memory ends before its window in the map does.
    pub open spec fn mapped(self) -> bool {
        &&& self.ewram.len() >= EWRAM_SIZE
        &&& self.iwram.len() >= IWRAM_SIZE
        &&& self.pal.len() >= PAL_SIZE
        &&& self.vram.len() >= VRAM_SIZE
        &&& self.oam.len() >= OAM_SIZE
    }

    // ---- reads ----------------------------------------------------------

    /// The open-bus latch after a byte was driven.
    #[verifier::opaque]
    pub open spec fn noted(self, addr: u32, v: u8) -> BusModel {
        BusModel { last_bus: lane_set(self.last_bus, addr, v), ..self }
    }

    /// The IO byte a read sees. KEYINPUT, the PSG status and the wave RAM come
    /// from the live devices.
    #[verifier::opaque]
    pub open spec fn io_byte(self, addr: u32) -> u8 {
        let off = addr & 0x3FF;
        if off == 0x130 {
            lo8(self.keyinput)
        } else if off == 0x131 {
            hi8(self.keyinput)
        } else if off == 0x84 {
            (byte_or(self.io, 0x84, 0) & 0x80) | self.sound.status()
        } else if 0x90 <= off <= 0x9F {
            self.sound.wave_byte((off - 0x90) as u8)
        } else {
            byte_or(self.io, off as int, 0)
        }
    }

    /// The byte in the save window.
    #[verifier::opaque]
    pub open spec fn save_byte(self, addr: u32) -> u8 {
        if self.save_type == SaveType::NoSave {
            0xFF
        } else {
            match self.flash {
                Some(f) => f.read(addr),
                None => byte_or(self.sram, sram_at(self.sram, addr), 0xFF),
            }
        }
    }

    /// Cart devices answer a byte read without driving the latch: an EEPROM,
    /// and the clock's GPIO window.
    #[verifier::opaque]
    pub open spec fn cart_device8(self, addr: u32) -> Option<u8> {
        if !in_rom(addr) {
            None
        } else if addr >> 24 == 0x0D && self.eeprom is Some {
            Some(1u8)
        } else {
            match self.rtc.gpio_read(addr & !1u32) {
                Some(v) => Some(
                    if addr & 1 == 0 {
                        lo8(v)
                    } else {
                        hi8(v)
                    },
                ),
                None => None,
            }
        }
    }

    /// The byte that memory drives; nothing drives the unused regions.
    #[verifier::opaque]
    pub open spec fn driven8(self, addr: u32) -> Option<u8> {
        let r = addr >> 24;
        if r == 0x02 {
            Some(self.ewram[(addr & 0x3FFFF) as int])
        } else if r == 0x03 {
            Some(self.iwram[(addr & 0x7FFF) as int])
        } else if r == 0x04 {
            if addr < 0x0400_0400 && readable((addr & 0x3FF) as u16) {
                Some(self.io_byte(addr))
            } else {
                None
            }
        } else if r == 0x05 {
            Some(self.pal[(addr & 0x3FF) as int])
        } else if r == 0x06 {
            Some(self.vram[vram_at(addr)])
        } else if r == 0x07 {
            Some(self.oam[(addr & 0x3FF) as int])
        } else if in_rom(addr) {
            let off = (addr & 0x01FF_FFFF) as int;
            if off < self.rom.len() {
                Some(self.rom[off])
            } else {
                None
            }
        } else if r == 0x0E || r == 0x0F {
            Some(self.save_byte(addr))
        } else {
            None
        }
    }

    /// A byte read. BIOS shows its image only to code inside it; outside it
    /// the last BIOS fetch. Where nothing drives the bus, its last value.
    #[verifier::opaque]
    pub open spec fn read8(self, addr: u32) -> (BusModel, u8) {
        if addr < 0x4000 {
            if self.exec_pc < 0x4000 {
                let v = byte_or(self.bios, addr as int, 0);
                (
                    BusModel {
                        last_bios: lane_set(self.last_bios, addr, v),
                        ..self.noted(addr, v)
                    },
                    v,
                )
            } else {
                (self, lane_get(self.last_bios, addr))
            }
        } else {
            match self.cart_device8(addr) {
                Some(v) => (self, v),
                None => match self.driven8(addr) {
                    Some(v) => (self.noted(addr, v), v),
                    None => (self, lane_get(self.last_bus, addr)),
                },
            }
        }
    }

    /// The latch after a halfword read: 16-bit buses repeat the halfword,
    /// 32-bit work RAM leaves the whole aligned word.
    #[verifier::opaque]
    pub open spec fn latched16(self, addr: u32, v: u16) -> BusModel {
        let r = addr >> 24;
        if 0x05 <= r <= 0x0C {
            let d = v as u32;
            BusModel { last_bus: d | (d << 16), ..self }
        } else if r == 0x02 {
            let i = (addr & 0x3FFFC) as int;
            BusModel {
                last_bus: le32(
                    self.ewram[i],
                    self.ewram[i + 1],
                    self.ewram[i + 2],
                    self.ewram[i + 3],
                ),
                ..self
            }
        } else if r == 0x03 {
            let i = (addr & 0x7FFC) as int;
            BusModel {
                last_bus: le32(
                    self.iwram[i],
                    self.iwram[i + 1],
                    self.iwram[i + 2],
                    self.iwram[i + 3],
                ),
                ..self
            }
        } else {
            self
        }
    }

    /// A halfword read; the EEPROM streams one serial bit instead.
    #[verifier::opaque]
    pub open spec fn read16(self, addr: u32) -> (BusModel, u16) {
        let a = addr & !1u32;
        if a >> 24 == 0x0D && self.eeprom is Some {
            let (e, v) = self.eeprom->0.bit_out();
            (
                BusModel { eeprom: Some(e), save_dirty: self.save_dirty || e.fsm.dirty, ..self },
                v,
            )
        } else {
            match self.rtc.gpio_read(a) {
                Some(v) => (self, v),
                None => {
                    let (s1, b0) = self.read8(a);
                    let (s2, b1) = s1.read8(a.wrapping_add(1));
                    let v = le16(b0, b1);
                    (s2.latched16(a, v), v)
                },
            }
        }
    }

    /// A word read: four bytes, or two halfwords of the EEPROM window.
    #[verifier::opaque]
    pub open spec fn read32(self, addr: u32) -> (BusModel, u32) {
        let a = addr & !3u32;
        if a >> 24 == 0x0D {
            let (s1, lo) = self.read16(a);
            let (s2, hi) = s1.read16(a.wrapping_add(2));
            (s2, (lo as u32) | ((hi as u32) << 16))
        } else {
            let (s1, b0) = self.read8(a);
            let (s2, b1) = s1.read8(a.wrapping_add(1));
            let (s3, b2) = s2.read8(a.wrapping_add(2));
            let (s4, b3) = s3.read8(a.wrapping_add(3));
            (s4, le32(b0, b1, b2, b3))
        }
    }

    // ---- writes ---------------------------------------------------------

    /// First save-window write on an untagged cart: 64K of SRAM.
    #[verifier::opaque]
    pub open spec fn promoted(self) -> BusModel {
        if self.save_type == SaveType::NoSave {
            BusModel {
                save_type: SaveType::Sram(0x1_0000),
                sram: self.sram + repeated(
                    0xFFu8,
                    if self.sram.len() < 0x1_0000 {
                        (0x1_0000 - self.sram.len()) as nat
                    } else {
                        0
                    },
                ),
                ..self
            }
        } else {
            self
        }
    }

    /// A byte into the save window.
    #[verifier::opaque]
    pub open spec fn save_written(self, addr: u32, val: u8) -> BusModel {
        let s = self.promoted();
        match s.flash {
            Some(f) => {
                let (g, changed) = f.write(addr, val);
                BusModel { flash: Some(g), save_dirty: s.save_dirty || changed, ..s }
            },
            None => {
                let i = sram_at(s.sram, addr);
                if i < s.sram.len() {
                    BusModel {
                        sram: s.sram.update(i, val),
                        save_dirty: s.save_dirty || s.sram[i] != val,
                        ..s
                    }
                } else {
                    s
                }
            },
        }
    }

    /// A byte into VRAM: background memory takes it in both halves of the
    /// halfword, object memory ignores it. Bitmap modes widen the background.
    #[verifier::opaque]
    pub open spec fn vram8_written(self, addr: u32, val: u8) -> BusModel {
        let (s, dispcnt) = self.read16(0x0400_0000);
        let idx = vram_at(addr);
        let obj = idx >= 0x10000 && !(dispcnt & 7 >= 3 && addr & 0x1FFFF < 0x14000);
        if obj {
            s
        } else {
            let i = idx - idx % 2;
            BusModel { vram: s.vram.update(i, val).update(i + 1, val), ..s }
        }
    }

    /// A byte into the IO page.
    #[verifier::opaque]
    pub open spec fn io8_written(self, addr: u32, val: u8) -> BusModel {
        let off = (addr & 0x3FF) as u16;
        let i = off as int;
        if off == 0x301 {
            BusModel { halt_wait: true, ..self }
        } else if off == 0x300 {
            BusModel { io: byte_put(self.io, 0x300, val & 1), ..self }
        } else if !writable(off) {
            self
        } else if off == 0x202 || off == 0x203 {
            BusModel { io: byte_put(self.io, i, byte_or(self.io, i, 0) & !val), ..self }
        } else if off == 0x201 {
            BusModel { io: byte_put(self.io, i, val & 0x3F), ..self }
        } else if off == 0x004 {
            BusModel { io: byte_put(self.io, i, (val & !7u8) | (byte_or(self.io, 4, 0) & 7)), ..self }
        } else if off == 0x205 {
            BusModel { io: byte_put(self.io, i, val & 0x7F), ..self }
        } else if off == 0x208 {
            BusModel { io: byte_put(self.io, i, val & 1), ..self }
        } else {
            BusModel { io: byte_put(self.io, i, val), ..self }
        }
    }

    /// One serial bit to the EEPROM.
    #[verifier::opaque]
    pub open spec fn eeprom_bit(self, half: u16) -> BusModel {
        let e = self.eeprom->0.bit_in(half);
        BusModel { eeprom: Some(e), save_dirty: self.save_dirty || e.fsm.dirty, ..self }
    }

    /// A byte into the Game Pak window: the EEPROM line, or half of a GPIO
    /// register.
    #[verifier::opaque]
    pub open spec fn cart8_written(self, addr: u32, val: u8) -> BusModel {
        let a16 = addr & !1u32;
        if addr >> 24 == 0x0D && self.eeprom is Some {
            self.eeprom_bit(val as u16)
        } else if self.rtc.present && (a16 == GPIO_DATA || a16 == GPIO_DIR || a16 == GPIO_CTRL) {
            let cur = match self.rtc.gpio_read(a16) {
                Some(v) => v,
                None => 0,
            };
            let v = if addr & 1 == 0 {
                (cur & 0xFF00) | (val as u16)
            } else {
                (cur & 0x00FF) | ((val as u16) << 8)
            };
            BusModel { rtc: self.rtc.gpio_write(a16, v), ..self }
        } else {
            self
        }
    }

    /// A byte write. Palette and object memory ignore bytes.
    #[verifier::opaque]
    pub open spec fn write8(self, addr: u32, val: u8) -> BusModel {
        let r = addr >> 24;
        if r == 0x02 {
            BusModel { ewram: self.ewram.update((addr & 0x3FFFF) as int, val), ..self }
        } else if r == 0x03 {
            BusModel { iwram: self.iwram.update((addr & 0x7FFF) as int, val), ..self }
        } else if r == 0x04 {
            if addr >= 0x0400_0400 {
                self
            } else {
                self.io8_written(addr, val)
            }
        } else if r == 0x06 {
            self.vram8_written(addr, val)
        } else if in_rom(addr) {
            self.cart8_written(addr, val)
        } else if r == 0x0E || r == 0x0F {
            self.save_written(addr, val)
        } else {
            self
        }
    }

    /// A halfword stored without register side effects.
    #[verifier::opaque]
    pub open spec fn write16_raw(self, addr: u32, val: u16) -> BusModel {
        let a = addr & !1u32;
        let r = a >> 24;
        if r == 0x02 {
            BusModel { ewram: put16(self.ewram, (a & 0x3FFFF) as int, val), ..self }
        } else if r == 0x03 {
            BusModel { iwram: put16(self.iwram, (a & 0x7FFF) as int, val), ..self }
        } else if r == 0x04 {
            let i = (a & 0x3FF) as int;
            if i + 1 < self.io.len() {
                BusModel { io: put16(self.io, i, val), ..self }
            } else {
                self
            }
        } else if r == 0x05 {
            BusModel { pal: put16(self.pal, (a & 0x3FF) as int, val), ..self }
        } else if r == 0x06 {
            BusModel { vram: put16(self.vram, vram_at(a), val), ..self }
        } else if r == 0x07 {
            BusModel { oam: put16(self.oam, (a & 0x3FF) as int, val), ..self }
        } else {
            self.write8(a, lo8(val)).write8(a.wrapping_add(1), hi8(val))
        }
    }

    #[verifier::opaque]
    pub open spec fn write32_raw(self, addr: u32, val: u32) -> BusModel {
        self.write16_raw(addr, lo16(val)).write16_raw(addr.wrapping_add(2), hi16(val))
    }

    /// The sound registers as one snapshot, read in this order.
    #[verifier::opaque]
    pub open spec fn psg_regs(self) -> (BusModel, PsgRegs) {
        let (s, sndl) = self.read16(0x0400_0080);
        let (s, sndh) = s.read16(0x0400_0082);
        let (s, sndx) = s.read16(0x0400_0084);
        let (s, bias) = s.read16(0x0400_0088);
        let (s, ch1_l) = s.read16(0x0400_0060);
        let (s, ch1_h) = s.read16(0x0400_0062);
        let (s, ch1_x) = s.read16(0x0400_0064);
        let (s, ch2_l) = s.read16(0x0400_0068);
        let (s, ch2_h) = s.read16(0x0400_006C);
        let (s, ch3_l) = s.read16(0x0400_0070);
        let (s, ch3_h) = s.read16(0x0400_0072);
        let (s, ch3_x) = s.read16(0x0400_0074);
        let (s, ch4_l) = s.read16(0x0400_0078);
        let (s, ch4_h) = s.read16(0x0400_007C);
        let wave: [u8; 16] = [
            byte_or(self.io, 0x90, 0), byte_or(self.io, 0x91, 0),
            byte_or(self.io, 0x92, 0), byte_or(self.io, 0x93, 0),
            byte_or(self.io, 0x94, 0), byte_or(self.io, 0x95, 0),
            byte_or(self.io, 0x96, 0), byte_or(self.io, 0x97, 0),
            byte_or(self.io, 0x98, 0), byte_or(self.io, 0x99, 0),
            byte_or(self.io, 0x9A, 0), byte_or(self.io, 0x9B, 0),
            byte_or(self.io, 0x9C, 0), byte_or(self.io, 0x9D, 0),
            byte_or(self.io, 0x9E, 0), byte_or(self.io, 0x9F, 0),
        ];
        (
            s,
            PsgRegs {
                sndl,
                sndh,
                sndx,
                bias,
                ch1_l,
                ch1_h,
                ch1_x,
                ch2_l,
                ch2_h,
                ch3_l,
                ch3_h,
                ch3_x,
                ch4_l,
                ch4_h,
                wave,
            },
        )
    }

    /// Affine identity for a background whose scale is still zero.
    #[verifier::opaque]
    pub open spec fn affine_ensured(self, base: u32) -> BusModel {
        let (s, pa) = self.read16(base);
        if pa == 0 {
            s.write16_raw(base, 0x0100).write16_raw((base + 2) as u32, 0).write16_raw(
                (base + 4) as u32,
                0,
            ).write16_raw((base + 6) as u32, 0x0100)
        } else {
            s
        }
    }

    /// DISPCNT write. With the compatibility switch, entering mode 1 or 2
    /// gives unset affine backgrounds an identity scale.
    #[verifier::opaque]
    pub open spec fn dispcnt_written(self, val: u16) -> BusModel {
        let s = self.write16_raw(0x0400_0000, val);
        if self.affine_compat && val & 7 == 1 {
            s.affine_ensured(0x0400_0020)
        } else if self.affine_compat && val & 7 == 2 {
            s.affine_ensured(0x0400_0020).affine_ensured(0x0400_0030)
        } else {
            s
        }
    }

    /// DISPSTAT write: bits 0-2 are live flags.
    #[verifier::opaque]
    pub open spec fn dispstat_written(self, val: u16) -> BusModel {
        let (s, cur) = self.read16(0x0400_0004);
        s.write16_raw(0x0400_0004, (val & !7u16) | (cur & 7))
    }

    /// IF write: ones clear; bits 14 and 15 do not exist.
    #[verifier::opaque]
    pub open spec fn if_written(self, val: u16) -> BusModel {
        let (s, cur) = self.read16(0x0400_0202);
        s.write16_raw(0x0400_0202, (cur & !val) & 0x3FFF)
    }

    /// TMxCNT_L write: only the reload latch moves.
    #[verifier::opaque]
    pub open spec fn reload_written(self, i: int, val: u16) -> BusModel {
        BusModel { timer_reload: aset(self.timer_reload, i, val), ..self }
    }

    /// TMxCNT_H write: enabling a stopped timer asks for a reload.
    #[verifier::opaque]
    pub open spec fn timer_ctrl_written(self, i: int, addr: u32, val: u16) -> BusModel {
        let v = val & 0xC7;
        let s = self.write16_raw(addr, v);
        BusModel {
            timer_ctrl_prev: aset(s.timer_ctrl_prev, i, v),
            timer_start_mask: if v & 0x80 != 0 && self.timer_ctrl_prev[i] & 0x80 == 0 {
                s.timer_start_mask | (1u8 << (i as u8))
            } else {
                s.timer_start_mask
            },
            ..s
        }
    }

    /// SOUNDCNT_H write: bits 11 and 15 reset the FIFOs and are not kept.
    #[verifier::opaque]
    pub open spec fn soundcnt_h_written(self, val: u16) -> BusModel {
        let a = if val & 0x800 != 0 {
            self.sound.a_reset()
        } else {
            self.sound
        };
        let b = if val & 0x8000 != 0 {
            a.b_reset()
        } else {
            a
        };
        BusModel { sound: b, ..self }.write16_raw(0x0400_0082, val & !0x8800u16)
    }

    /// SOUNDCNT_X write: only the master switch; off stops the PSG.
    #[verifier::opaque]
    pub open spec fn soundcnt_x_written(self, val: u16) -> BusModel {
        let s = self.write16_raw(0x0400_0084, val & 0x80);
        if val & 0x80 == 0 {
            BusModel { sound: s.sound.psg_off(), ..s }
        } else {
            s
        }
    }

    /// SOUND3CNT_L write.
    #[verifier::opaque]
    pub open spec fn wave_ctrl_written(self, val: u16) -> BusModel {
        let s = self.write16_raw(0x0400_0070, val);
        BusModel { sound: s.sound.wave_powered(val), ..s }
    }

    /// Frequency register of PSG channel `ch`: bit 15 (re)starts the channel
    /// and is not kept.
    #[verifier::opaque]
    pub open spec fn psg_freq_written(self, ch: u8, addr: u32, val: u16) -> BusModel {
        let s = self.write16_raw(addr, val & !0x8000u16);
        if val & 0x8000 != 0 {
            let (t, regs) = s.psg_regs();
            BusModel { sound: t.sound.triggered(ch, regs), ..t }
        } else {
            s
        }
    }

    /// Two bytes of wave RAM.
    #[verifier::opaque]
    pub open spec fn wave_ram_written(self, addr: u32, val: u16) -> BusModel {
        let (s, ch3_l) = self.write16_raw(addr, val).read16(0x0400_0070);
        let off = (addr - 0x0400_0090) as u8;
        BusModel {
            sound: s.sound.wave_powered(ch3_l).wave_stored(off, lo8(val)).wave_stored(
                off.wrapping_add(1),
                hi8(val),
            ),
            ..s
        }
    }

    /// SIOCNT write: a started transfer is done at once, with its interrupt.
    #[verifier::opaque]
    pub open spec fn siocnt_written(self, val: u16) -> BusModel {
        if val & 0x80 != 0 {
            let v = (val & !0x80u16) | 0x08;
            let s = self.write16_raw(0x0400_0128, v);
            if v & 0x4000 != 0 {
                s.raised(crate::irq::IRQ_SERIAL)
            } else {
                s
            }
        } else {
            self.write16_raw(0x0400_0128, val)
        }
    }

    // ---- timing ---------------------------------------------------------

    /// Game Pak data traffic: the next fetch is non-sequential and the
    /// prefetch buffer is lost.
    pub open spec fn cart_data_noted(self) -> BusModel {
        BusModel { last_fetch_ok: false, prefetch_halfs: 0, ..self }
    }

    /// Extra cycles of an instruction fetch.
    #[verifier::opaque]
    pub open spec fn fetch_waits(self, pc: u32) -> (BusModel, u32) {
        let r = pc >> 24;
        let seq = self.last_fetch_ok && (pc == self.last_fetch.wrapping_add(2) || pc
            == self.last_fetch.wrapping_add(4)) && r == self.last_fetch >> 24;
        let (s, waitcnt) = BusModel { last_fetch: pc, last_fetch_ok: true, ..self }.read16(
            0x0400_0204,
        );
        let prefetch = waitcnt & 0x4000 != 0;
        if r == 0 || 3 <= r <= 7 {
            if prefetch {
                (
                    BusModel {
                        prefetch_halfs: if s.prefetch_halfs >= 7 {
                            8
                        } else {
                            (s.prefetch_halfs + 1) as u8
                        },
                        ..s
                    },
                    0,
                )
            } else {
                (s, 0)
            }
        } else if r == 2 {
            (s, 2)
        } else if in_rom(pc) {
            let (t, w) = s.read16(0x0400_0204);
            let (n, q) = rom_cycles(w, pc);
            if seq {
                if prefetch {
                    (BusModel { prefetch_halfs: 1, ..t }, 0)
                } else {
                    (t, (q - 1) as u32)
                }
            } else {
                (BusModel { prefetch_halfs: 0, ..t }, (n - 1) as u32)
            }
        } else if r == 0x0E || r == 0x0F {
            let (t, w) = s.read16(0x0400_0204);
            (t, (wait_code(w) - 1) as u32)
        } else {
            (s, 1)
        }
    }

    /// Extra cycles of a data access of `bytes` bytes.
    #[verifier::opaque]
    pub open spec fn data_waits(self, addr: u32, bytes: u32) -> (BusModel, u32) {
        let r = addr >> 24;
        if r == 2 {
            (
                self,
                if bytes >= 4 {
                    4
                } else {
                    2
                },
            )
        } else if 5 <= r <= 7 {
            (
                self,
                if bytes >= 4 {
                    1
                } else {
                    0
                },
            )
        } else if in_rom(addr) {
            let (s, w) = self.cart_data_noted().read16(0x0400_0204);
            let (n, q) = rom_cycles(w, addr);
            (
                s,
                if bytes >= 4 {
                    (n + q - 1) as u32
                } else {
                    (n - 1) as u32
                },
            )
        } else if r == 0x0E || r == 0x0F {
            let (s, w) = self.read16(0x0400_0204);
            (s, (wait_code(w) - 1) as u32)
        } else {
            (self, 0)
        }
    }

    /// Extra cycles of a burst of words: the first as a single access, the
    /// rest sequential.
    #[verifier::opaque]
    pub open spec fn burst_waits(self, addr: u32, words: u32) -> (BusModel, u32) {
        let r = addr >> 24;
        let (s, first) = self.data_waits(addr, 4);
        if words <= 1 {
            (s, first)
        } else if r == 2 {
            (s, sat32(first + 2 * (words - 1)))
        } else if 5 <= r <= 7 {
            (s, sat32(first + (words - 1)))
        } else if in_rom(addr) {
            let (t, w) = s.read16(0x0400_0204);
            (t, sat32(first + (rom_cycles(w, addr).1 - 1) * (words - 1)))
        } else {
            (s, first)
        }
    }

    /// Keys as pressed now; a KEYCNT selection that newly matches interrupts.
    #[verifier::opaque]
    pub open spec fn keys_set(self, pressed_mask: u16) -> BusModel {
        let now = (!pressed_mask) & 0x03FF;
        let (s, keycnt) = BusModel { keyinput: now, ..self }.read16(0x0400_0132);
        if keycnt & 0x4000 != 0 && keycnt & 0x03FF != 0 && keys_match(keycnt, (!now) & 0x03FF)
            && !keys_match(keycnt, (!self.keyinput) & 0x03FF) {
            s.raised(crate::irq::IRQ_KEYPAD)
        } else {
            s
        }
    }
}

} // verus!
