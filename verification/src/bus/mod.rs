//! GBA memory map and battery-backed cart save.

pub mod boot;
pub mod effects;
pub mod latches;
pub mod laws;
pub mod map_laws;
pub mod model;
pub mod parts;
pub mod read;
pub mod timing;
pub mod unfold;
pub mod write;

use crate::battery::{EepromChip, FlashChip, SaveType};
use crate::bus::model::{readable, vram_at, writable, BusModel};
use crate::dma::DmaController;
use crate::rtc::Rtc;
use crate::sound::bios::SoundDriver;
use crate::sound::Sound;
use vstd::prelude::*;

verus! {

pub const EWRAM_SIZE: usize = 0x40000;

pub const IWRAM_SIZE: usize = 0x8000;

pub const VRAM_SIZE: usize = 0x18000;

pub const PAL_SIZE: usize = 0x400;

pub const OAM_SIZE: usize = 0x400;

pub const BIOS_SIZE: usize = 0x4000;

pub const IO_SIZE: usize = 0x400;

/// A BIOS service whose arithmetic the host does: the machine waits for its
/// result before the next instruction.
#[derive(Clone, Copy, Debug)]
pub enum MathCall {
    /// ArcTan of a 16.16 tangent.
    ArcTan { tan: u32 },
    /// ArcTan2 of a point.
    ArcTan2 { x: u32, y: u32 },
    /// MidiKey2Freq of a base frequency.
    MidiKey { base_hz: u32, key: u32, fine: u32 },
    /// BgAffineSet with `left` entries to do.
    BgAffine { src: u32, dst: u32, left: u32 },
    /// ObjAffineSet with `left` entries to do.
    ObjAffine { src: u32, dst: u32, left: u32, offset: u32 },
}

pub struct Bus {
    pub bios: Vec<u8>,
    pub ewram: Vec<u8>,
    pub iwram: Vec<u8>,
    pub io: Vec<u8>,
    pub pal: Vec<u8>,
    pub vram: Vec<u8>,
    pub oam: Vec<u8>,
    pub rom: Vec<u8>,
    pub sram: Vec<u8>,
    pub flash: Option<FlashChip>,
    pub eeprom: Option<EepromChip>,
    pub save_type: SaveType,
    pub save_dirty: bool,
    /// KEYINPUT active-low bits (0 is pressed).
    pub keyinput: u16,
    /// Timer reload latches.
    pub timer_reload: [u16; 4],
    /// Current TMxCNT_H values (for the start edge and the timer step).
    pub timer_ctrl_prev: [u16; 4],
    /// Channels that need counter := reload on the next timer step.
    pub timer_start_mask: u8,
    /// Overflows since the last `tick_sound` (DirectSound sample clock).
    pub timer_overflows: [u32; 4],
    /// Last value driven on the data bus (open bus for unmapped reads).
    pub last_bus: u32,
    /// Last BIOS fetch; code outside BIOS that reads it sees this.
    pub last_bios: u32,
    /// Cycles until a visibly pending interrupt is taken.
    pub irq_countdown: u8,
    /// Last instruction-fetch address (for N and S wait states).
    pub last_fetch: u32,
    pub last_fetch_ok: bool,
    /// Game Pak prefetch halfwords waiting (0-8).
    pub prefetch_halfs: u8,
    /// BIOS Halt / IntrWait: run until an interrupt.
    pub halt_wait: bool,
    pub intr_wait_mask: u16,
    /// IME to restore when IntrWait wakes.
    pub intr_wait_ime: u16,
    /// No real BIOS image is loaded.
    pub hle_bios: bool,
    /// How many times the CPU entered IRQ.
    pub irq_count: u64,
    pub dma: DmaController,
    pub sound: Sound,
    pub sound_driver: SoundDriver,
    /// PC of the executing instruction (BIOS protection).
    pub exec_pc: u32,
    pub rtc: Rtc,
    /// Opt-in patch: identity scale for affine backgrounds left at zero.
    pub affine_compat: bool,
    /// BIOS arithmetic that waits for the host.
    pub math: Option<MathCall>,
    pub swi_counts: [u32; 256],
    pub swi_unknown: u32,
    pub last_swi_unknown: u8,
    /// Last LZ77UnCompVram destination and size (diagnostic).
    pub last_lz77v_dst: u32,
    pub last_lz77v_size: u32,
    pub last_lz77v_to_0600: u32,
}

#[verifier::opaque]
pub open spec fn flash_view(f: Option<FlashChip>) -> Option<crate::battery::FlashModel> {
    match f {
        Some(c) => Some(c@),
        None => None,
    }
}

#[verifier::opaque]
pub open spec fn eeprom_view(e: Option<EepromChip>) -> Option<crate::battery::EepromModel> {
    match e {
        Some(c) => Some(c@),
        None => None,
    }
}

impl View for Bus {
    type V = BusModel;

    open spec fn view(&self) -> BusModel {
        bus_view(*self)
    }
}

#[verifier::opaque]
pub open spec fn bus_view(b: Bus) -> BusModel {
    BusModel {
        bios: b.bios@,
        ewram: b.ewram@,
        iwram: b.iwram@,
        io: b.io@,
        pal: b.pal@,
        vram: b.vram@,
        oam: b.oam@,
        rom: b.rom@,
        sram: b.sram@,
        flash: flash_view(b.flash),
        eeprom: eeprom_view(b.eeprom),
        save_type: b.save_type,
        save_dirty: b.save_dirty,
        keyinput: b.keyinput,
        timer_reload: b.timer_reload,
        timer_ctrl_prev: b.timer_ctrl_prev,
        timer_start_mask: b.timer_start_mask,
        timer_overflows: b.timer_overflows,
        last_bus: b.last_bus,
        last_bios: b.last_bios,
        irq_countdown: b.irq_countdown,
        last_fetch: b.last_fetch,
        last_fetch_ok: b.last_fetch_ok,
        prefetch_halfs: b.prefetch_halfs,
        halt_wait: b.halt_wait,
        intr_wait_mask: b.intr_wait_mask,
        intr_wait_ime: b.intr_wait_ime,
        hle_bios: b.hle_bios,
        irq_count: b.irq_count,
        dma: b.dma,
        sound: b.sound@,
        sound_driver: b.sound_driver,
        exec_pc: b.exec_pc,
        rtc: b.rtc,
        affine_compat: b.affine_compat,
        math: b.math,
        swi_counts: b.swi_counts,
        swi_unknown: b.swi_unknown,
        last_swi_unknown: b.last_swi_unknown,
        last_lz77v_dst: b.last_lz77v_dst,
        last_lz77v_size: b.last_lz77v_size,
        last_lz77v_to_0600: b.last_lz77v_to_0600,
    }
}

/// A read sees this IO byte; unused and write-only ones are open bus.
pub fn io_readable(off: u16) -> (r: bool)
    ensures
        r == readable(off),
{
    off <= 0x04D || (0x050 <= off && off <= 0x055) || (0x060 <= off && off <= 0x065) || (0x068
        <= off && off <= 0x069) || (0x06C <= off && off <= 0x06D) || (0x070 <= off && off <= 0x075)
        || (0x078 <= off && off <= 0x079) || (0x07C <= off && off <= 0x07D) || (0x080 <= off && off
        <= 0x085) || (0x088 <= off && off <= 0x089) || (0x090 <= off && off <= 0x09F) || (0x0B0
        <= off && off <= 0x0DF) || (0x100 <= off && off <= 0x10F) || (0x120 <= off && off <= 0x12B)
        || (0x130 <= off && off <= 0x137) || (0x140 <= off && off <= 0x141) || (0x150 <= off && off
        <= 0x159) || (0x200 <= off && off <= 0x205) || off == 0x208 || off == 0x300
}

/// A write reaches this IO byte.
pub fn io_writable(off: u16) -> (r: bool)
    ensures
        r == writable(off),
{
    if off == 0x006 || off == 0x007 || off == 0x130 || off == 0x131 || off == 0x209 {
        false
    } else {
        (0x0A0 <= off && off <= 0x0A7) || off == 0x301 || io_readable(off)
    }
}

/// Index into VRAM of an address in its window.
pub fn vram_index(addr: u32) -> (r: usize)
    ensures
        r == vram_at(addr),
        r < VRAM_SIZE,
        addr & 1 == 0 ==> r % 2 == 0,
{
    proof {
        lemma_masks(addr);
    }
    let a: usize = (addr & 0x1FFFF) as usize;
    if a >= 0x18000 {
        a - 0x8000
    } else {
        a
    }
}

proof fn lemma_address(a: u32)
    ensures
        a & 0x3FFFF < 0x40000 && a & 0x7FFF < 0x8000 && a & 0x3FF < 0x400 && a & 0x1FFFF
        < 0x20000 && a & 0x01FF_FFFF < 0x0200_0000 && a & 3 < 4 && (a & 1 == 0 ==> (a & 0x1FFFF) % 2
        == 0) && a & 0x3FFFC < 0x3FFFD && a & 0x7FFC < 0x7FFD,
        (a & !1u32) & 1 == 0 && (a & !1u32) & !1u32 == a & !1u32 && (a & !1u32)
        & 0x3FFFF < 0x3FFFF && (a & !1u32) & 0x7FFF < 0x7FFF && (a & !1u32) & 0x3FF < 0x3FF
        && ((a & !1u32) & 0x3FF) % 2 == 0,
        0x0400_0000 <= a && a < 0x0400_0400 ==> a >> 24 == 0x04 && 0x0400_0000 <= a & !1u32 && a & !1u32
        < 0x0400_0400 && (a & !1u32) >> 24 == 0x04 && (a & !1u32) + 1 < 0x0400_0400 && ((a & !1u32) + 1) as u32 >> 24
        == 0x04,
{
    assert((a & 0x3FFFF < 0x40000 && a & 0x7FFF < 0x8000 && a & 0x3FF < 0x400 && a & 0x1FFFF
        < 0x20000 && a & 0x01FF_FFFF < 0x0200_0000 && a & 3 < 4 && (a & 1 == 0 ==> (a & 0x1FFFF) % 2
        == 0) && a & 0x3FFFC < 0x3FFFD && a & 0x7FFC < 0x7FFD) && ((a & !1u32) & 1 == 0 && (a & !1u32) & !1u32 == a & !1u32 && (a & !1u32)
        & 0x3FFFF < 0x3FFFF && (a & !1u32) & 0x7FFF < 0x7FFF && (a & !1u32) & 0x3FF < 0x3FF
        && ((a & !1u32) & 0x3FF) % 2 == 0) && (0x0400_0000 <= a && a < 0x0400_0400 ==> a >> 24 == 0x04 && 0x0400_0000 <= a & !1u32 && a & !1u32
        < 0x0400_0400 && (a & !1u32) >> 24 == 0x04 && (a & !1u32) + 1 < 0x0400_0400 && ((a & !1u32) + 1) as u32 >> 24
        == 0x04)) by (bit_vector);
}

pub proof fn lemma_masks(a: u32)
    ensures
        a & 0x3FFFF < 0x40000,
        a & 0x7FFF < 0x8000,
        a & 0x3FF < 0x400,
        a & 0x1FFFF < 0x20000,
        a & 0x01FF_FFFF < 0x0200_0000,
        a & 3 < 4,
        a & 1 == 0 ==> (a & 0x1FFFF) % 2 == 0,
        a & 0x3FFFC < 0x3FFFD,
        a & 0x7FFC < 0x7FFD,
{
    lemma_address(a);
}

/// Facts about a halfword address.
pub proof fn lemma_even(addr: u32)
    ensures
        (addr & !1u32) & 1 == 0,
        (addr & !1u32) & !1u32 == addr & !1u32,
        (addr & !1u32) & 0x3FFFF < 0x3FFFF,
        (addr & !1u32) & 0x7FFF < 0x7FFF,
        (addr & !1u32) & 0x3FF < 0x3FF,
        ((addr & !1u32) & 0x3FF) % 2 == 0,
{
    lemma_address(addr);
}

/// Facts about an address in the IO page and the halfword it lies in.
pub proof fn lemma_io_page(a: u32)
    ensures
        0x0400_0000 <= a < 0x0400_0400 ==> a >> 24 == 0x04 && 0x0400_0000 <= a & !1u32 < 0x0400_0400 && (a & !1u32)
            >> 24 == 0x04 && (a & !1u32) + 1 < 0x0400_0400 && ((a & !1u32) + 1) as u32 >> 24 == 0x04,
{
    lemma_address(a);
}

} // verus!
