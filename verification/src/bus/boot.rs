//! Power-on, the battery image, and the sound tick.

use crate::battery::{
    blank_eeprom, blank_flash, detect, detected, ids_for, load_sav, sav_image, EepromChip, EepromFsm, EepromModel,
    FlashChip, FlashModel, SaveType,
};
use crate::bus::model::BusModel;
use crate::bus::{
    bus_view, eeprom_view, flash_view, Bus, BIOS_SIZE, EWRAM_SIZE, IO_SIZE, IWRAM_SIZE, OAM_SIZE, PAL_SIZE, VRAM_SIZE,
};
use crate::cart::Cart;
use crate::dma::{idle_dma, DmaController};
use crate::mem::{bytes_of, copy_bytes, overlaid, overlay, repeated, zeroed};
use crate::rtc::{has_clock, Rtc};
use crate::sound::bios::{fresh_driver, SoundDriver};
use crate::sound::{sound_new, Sound, SoundModel};
use vstd::prelude::*;

verus! {

/// The flash chip of a save type.
pub open spec fn boot_flash(st: SaveType, rom: Seq<u8>) -> Option<FlashModel> {
    match st {
        SaveType::Flash64 => Some(blank_flash(0x1_0000, ids_for(rom, 0x1_0000))),
        SaveType::Flash128 => Some(blank_flash(0x2_0000, ids_for(rom, 0x2_0000))),
        _ => None,
    }
}

/// The EEPROM of a save type.
pub open spec fn boot_eeprom(st: SaveType) -> Option<EepromModel> {
    match st {
        SaveType::Eeprom512 => Some(blank_eeprom(512)),
        SaveType::Eeprom8K => Some(blank_eeprom(8192)),
        _ => None,
    }
}

/// The machine before its registers are set: cleared memories, the ROM, and
/// the save chip that the ROM names.
#[verifier::opaque]
pub open spec fn cold(rom: Seq<u8>, bios: Option<Seq<u8>>, sound: SoundModel, rtc: Rtc) -> BusModel {
    let st = detected(rom);
    BusModel {
        bios: match bios {
            Some(b) => b,
            None => repeated(0u8, BIOS_SIZE as nat),
        },
        ewram: repeated(0u8, EWRAM_SIZE as nat),
        iwram: repeated(0u8, IWRAM_SIZE as nat),
        io: repeated(0u8, IO_SIZE as nat).update(0x300, 1),
        pal: repeated(0u8, PAL_SIZE as nat),
        vram: repeated(0u8, VRAM_SIZE as nat),
        oam: repeated(0u8, OAM_SIZE as nat),
        rom,
        sram: repeated(
            0xFFu8,
            if st.bytes() < 0x1_0000 {
                0x1_0000
            } else {
                st.bytes() as nat
            },
        ),
        flash: boot_flash(st, rom),
        eeprom: boot_eeprom(st),
        save_type: st,
        save_dirty: false,
        keyinput: 0x03FF,
        timer_reload: [0u16, 0, 0, 0],
        timer_ctrl_prev: [0u16, 0, 0, 0],
        timer_start_mask: 0,
        timer_overflows: [0u32, 0, 0, 0],
        last_bus: 0,
        last_bios: 0,
        irq_countdown: 0,
        last_fetch: 0,
        last_fetch_ok: false,
        prefetch_halfs: 0,
        halt_wait: false,
        intr_wait_mask: 0,
        intr_wait_ime: 1,
        hle_bios: bios is None,
        irq_count: 0,
        dma: idle_dma(),
        sound,
        sound_driver: fresh_driver(),
        exec_pc: 0x0800_0000,
        rtc,
        affine_compat: false,
        math: None,
        swi_counts: zero_counts(),
        swi_unknown: 0,
        last_swi_unknown: 0,
        last_lz77v_dst: 0,
        last_lz77v_size: 0,
        last_lz77v_to_0600: 0,
    }
}

/// 256 zeroes.
pub open spec fn zero_counts() -> [u32; 256] {
    choose|a: [u32; 256]| a@ == Seq::new(256, |i: int| 0u32)
}

/// Registers as the BIOS leaves them: forced blank, sound on with its bias,
/// and an identity scale for the affine backgrounds.
#[verifier::opaque]
pub open spec fn booted(b: BusModel) -> BusModel {
    b.write16_raw(0x0400_0130, 0x03FF).write16_raw(0x0400_0000, 0x0080).write16_raw(
        0x0400_0088,
        0x0200,
    ).write16_raw(0x0400_0084, 0x0080).write16_raw(0x0400_0020, 0x0100).write16_raw(
        0x0400_0026,
        0x0100,
    ).write16_raw(0x0400_0030, 0x0100).write16_raw(0x0400_0036, 0x0100)
}

/// The machine just after power-on: silent sound, an idle clock, everything
/// else as `cold` and `booted` say.
pub open spec fn powered_on(b: BusModel, rom: Seq<u8>, bios: Option<Seq<u8>>) -> bool {
    exists|sound: SoundModel, rtc: Rtc|
        {
            &&& sound == sound_new(sound.mix.psg)
            &&& sound.mix.psg.fresh()
            &&& rtc.fresh(has_clock(rom))
            &&& b == booted(#[trigger] cold(rom, bios, sound, rtc))
        }
}

pub open spec fn opt_bytes(v: Option<Vec<u8>>) -> Option<Seq<u8>> {
    match v {
        Some(b) => Some(b@),
        None => None,
    }
}

impl BusModel {
    /// The battery as a save file holds it.
    #[verifier::opaque]
    pub open spec fn battery(self) -> Option<Seq<u8>> {
        match self.save_type {
            SaveType::Flash64 | SaveType::Flash128 => match self.flash {
                Some(f) => Some(f.data),
                None => Some(self.sram),
            },
            SaveType::Eeprom512 | SaveType::Eeprom8K => match self.eeprom {
                Some(e) => Some(e.data),
                None => None,
            },
            SaveType::Sram(n) => Some(
                self.sram.take(
                    if n < self.sram.len() {
                        n as int
                    } else {
                        self.sram.len() as int
                    },
                ),
            ),
            SaveType::NoSave => None,
        }
    }

    /// A save file read back. An untagged cart takes a non-empty one as SRAM.
    #[verifier::opaque]
    pub open spec fn battery_loaded(self, file: Option<Seq<u8>>) -> BusModel {
        if self.save_type == SaveType::NoSave {
            if file is Some && file->0.len() > 0 {
                let s = self.promoted();
                BusModel { sram: overlaid(s.sram, file->0), save_dirty: false, ..s }
            } else {
                self
            }
        } else {
            let size: nat = if self.save_type.bytes() < 1 {
                1
            } else {
                self.save_type.bytes() as nat
            };
            let data = sav_image(file, size);
            let s = match self.save_type {
                SaveType::Flash64 | SaveType::Flash128 => match self.flash {
                    Some(f) => BusModel {
                        flash: Some(FlashModel { data: overlaid(f.data, data), ..f }),
                        ..self
                    },
                    None => self,
                },
                SaveType::Eeprom512 | SaveType::Eeprom8K => match self.eeprom {
                    Some(e) => BusModel {
                        eeprom: Some(EepromModel { data: overlaid(e.data, data), ..e }),
                        ..self
                    },
                    None => self,
                },
                _ => BusModel { sram: overlaid(self.sram, data), ..self },
            };
            BusModel { save_dirty: false, ..s }
        }
    }

    /// A flush takes the chip's own dirty mark; the file still has to be
    /// written.
    #[verifier::opaque]
    pub open spec fn flushing(self) -> BusModel {
        match self.eeprom {
            Some(e) => BusModel {
                eeprom: Some(EepromModel { fsm: EepromFsm { dirty: false, ..e.fsm }, ..e }),
                ..self
            },
            None => self,
        }
    }

    /// Sound over `cycles`: the mixer takes the registers and the timer
    /// overflows since the last tick, then a half-empty FIFO is refilled.
    #[verifier::opaque]
    pub open spec fn sound_ticked(self, cycles: u32) -> BusModel {
        let (s, regs) = self.psg_regs();
        let (s, t0) = s.read16(0x0400_0102);
        let (s, t1) = s.read16(0x0400_0106);
        let ov = s.timer_overflows;
        let t = BusModel {
            sound: s.sound.stepped(cycles, regs, s.timer_reload, t0, t1, ov),
            timer_overflows: [0u32, 0, 0, 0],
            ..s
        };
        if t.sound.dma_req_a || t.sound.dma_req_b {
            let (u, d) = BusModel { dma: idle_dma(), ..t }.fifo_served(t.dma, 1);
            let (u, d) = u.fifo_served(d, 2);
            BusModel { dma: d, ..u }
        } else {
            t
        }
    }
}

fn no_counts() -> (r: [u32; 256])
    ensures
        r == zero_counts(),
{
    let r: [u32; 256] = [0u32; 256];
    assert(r@ =~= Seq::new(256, |i: int| 0u32));
    let ghost z = zero_counts();
    assert(z@ == Seq::new(256, |i: int| 0u32));
    assert(r =~= z);
    r
}

impl Bus {
    fn cold_start(cart: &Cart, bios: Option<Vec<u8>>) -> (b: Self)
        ensures
            b.sound.mix.psg.fresh(),
            b.sound@ == sound_new(b.sound.mix.psg),
            b.rtc.fresh(has_clock(cart.data@)),
            b@ == cold(cart.data@, opt_bytes(bios), b.sound@, b.rtc),
            b@.wf(),
    {
        reveal(cold);
        reveal(bus_view);
        reveal(BusModel::wf);
        reveal(flash_view);
        reveal(eeprom_view);
        let rom: &[u8] = cart.data.as_slice();
        let save_type = detect(rom);
        let st: usize = save_type.size();
        let size: usize = if st < 0x1_0000 {
            0x1_0000
        } else {
            st
        };
        let hle_bios: bool = bios.is_none();
        let bios_image: Vec<u8> = match bios {
            Some(v) => v,
            None => zeroed(BIOS_SIZE),
        };
        let mut io: Vec<u8> = zeroed(IO_SIZE);
        // A real BIOS leaves POSTFLG=1 after the boot sequence.
        io[0x300] = 1;
        let flash: Option<FlashChip> = match save_type {
            SaveType::Flash64 => Some(FlashChip::new_for(0x1_0000, rom)),
            SaveType::Flash128 => Some(FlashChip::new_for(0x2_0000, rom)),
            _ => None,
        };
        let b = Bus {
            bios: bios_image,
            ewram: zeroed(EWRAM_SIZE),
            iwram: zeroed(IWRAM_SIZE),
            io,
            pal: zeroed(PAL_SIZE),
            vram: zeroed(VRAM_SIZE),
            oam: zeroed(OAM_SIZE),
            rom: copy_bytes(rom),
            sram: bytes_of(0xFF, size),
            flash,
            eeprom: EepromChip::from_save_type(save_type),
            save_type,
            save_dirty: false,
            keyinput: 0x03FF,
            timer_reload: [0u16, 0, 0, 0],
            timer_ctrl_prev: [0u16, 0, 0, 0],
            timer_start_mask: 0,
            timer_overflows: [0u32, 0, 0, 0],
            last_bus: 0,
            last_bios: 0,
            irq_countdown: 0,
            last_fetch: 0,
            last_fetch_ok: false,
            prefetch_halfs: 0,
            halt_wait: false,
            intr_wait_mask: 0,
            intr_wait_ime: 1,
            hle_bios,
            irq_count: 0,
            dma: DmaController::new(),
            sound: Sound::new(),
            sound_driver: SoundDriver::new(),
            exec_pc: 0x0800_0000,
            rtc: Rtc::new(Rtc::detect(rom)),
            affine_compat: false,
            math: None,
            swi_counts: no_counts(),
            swi_unknown: 0,
            last_swi_unknown: 0,
            last_lz77v_dst: 0,
            last_lz77v_size: 0,
            last_lz77v_to_0600: 0,
        };
        assert(b.timer_reload =~= [0u16, 0, 0, 0]);
        assert(b.timer_ctrl_prev =~= [0u16, 0, 0, 0]);
        assert(b.timer_overflows =~= [0u32, 0, 0, 0]);
        b
    }

    /// The bus at power-on with a cartridge and, if there is one, a BIOS image.
    pub fn new(cart: &Cart, bios: Option<Vec<u8>>) -> (b: Self)
        ensures
            powered_on(b@, cart.data@, opt_bytes(bios)),
            b@.wf(),
    {
        reveal(booted);
        let mut b = Self::cold_start(cart, bios);
        assert(b.sound@.mix.psg == b.sound.mix.psg) by {
            reveal(crate::sound::sound_view);
        }
        let ghost z = cold(cart.data@, opt_bytes(bios), b.sound@, b.rtc);
        b.write16_raw(0x0400_0130, 0x03FF);
        b.write16_raw(0x0400_0000, 0x0080);
        // SoundBias default (BIOS-like): mid-level DC bias
        b.write16_raw(0x0400_0088, 0x0200);
        // SOUNDCNT_X: master enable defaults on
        b.write16_raw(0x0400_0084, 0x0080);
        // Affine identity scale (games often assume it)
        b.write16_raw(0x0400_0020, 0x0100);
        b.write16_raw(0x0400_0026, 0x0100);
        b.write16_raw(0x0400_0030, 0x0100);
        b.write16_raw(0x0400_0036, 0x0100);
        b
    }

    /// Loads the battery from the bytes of a save file, if there is one.
    pub fn load_battery(&mut self, file: Option<&[u8]>)
        requires
            old(self)@.wf(),
        ensures
            final(self)@ == old(self)@.battery_loaded(
                match file {
                    Some(d) => Some(d@),
                    None => None,
                },
            ),
            final(self)@.wf(),
    {
        reveal(BusModel::battery_loaded);
        reveal(BusModel::promoted);
        reveal(bus_view);
        reveal(BusModel::wf);
        reveal(flash_view);
        reveal(eeprom_view);
        if self.save_type == SaveType::NoSave {
            // A leftover file of an earlier promotion (untagged homebrew).
            if let Some(data) = file {
                if data.len() > 0 {
                    self.promote_sram_if_none();
                    overlay(&mut self.sram, data);
                    self.save_dirty = false;
                }
            }
            return;
        }
        let st: usize = self.save_type.size();
        let size: usize = if st < 1 {
            1
        } else {
            st
        };
        let data = load_sav(file, size);
        match self.save_type {
            SaveType::Flash64 | SaveType::Flash128 => {
                if let Some(f) = &mut self.flash {
                    overlay(&mut f.data, data.as_slice());
                }
            },
            SaveType::Eeprom512 | SaveType::Eeprom8K => {
                if let Some(e) = &mut self.eeprom {
                    overlay(&mut e.data, data.as_slice());
                }
            },
            _ => {
                overlay(&mut self.sram, data.as_slice());
            },
        }
        self.save_dirty = false;
    }

    /// The battery image that has to be written, when it changed since the
    /// last write.
    pub fn flush_battery(&mut self) -> (image: Option<Vec<u8>>)
        requires
            old(self)@.wf(),
        ensures
            !old(self)@.save_dirty ==> image is None && final(self)@ == old(self)@,
            old(self)@.save_dirty ==> final(self)@ == old(self)@.flushing(),
            old(self)@.save_dirty ==> match old(self)@.battery() {
                Some(s) => image is Some && image->0@ == s,
                None => image is None,
            },
            final(self)@.wf(),
    {
        reveal(BusModel::battery);
        reveal(BusModel::flushing);
        reveal(bus_view);
        reveal(BusModel::wf);
        reveal(flash_view);
        reveal(eeprom_view);
        if !self.save_dirty {
            return None;
        }
        if let Some(e) = &mut self.eeprom {
            e.dirty = false;
        }
        match self.save_type {
            SaveType::Flash64 | SaveType::Flash128 => match &self.flash {
                Some(f) => Some(copy_bytes(f.data.as_slice())),
                None => Some(copy_bytes(self.sram.as_slice())),
            },
            SaveType::Eeprom512 | SaveType::Eeprom8K => match &self.eeprom {
                Some(e) => Some(copy_bytes(e.data.as_slice())),
                None => None,
            },
            SaveType::Sram(n) => {
                let mut v = copy_bytes(self.sram.as_slice());
                if n < v.len() {
                    v.truncate(n);
                }
                assert(n >= self.sram@.len() ==> v@ =~= self.sram@.take(self.sram@.len() as int));
                Some(v)
            },
            SaveType::NoSave => None,
        }
    }

    /// The image was written.
    pub fn battery_flushed(&mut self)
        requires
            old(self)@.wf(),
        ensures
            final(self)@ == (BusModel { save_dirty: false, ..old(self)@ }),
            final(self)@.wf(),
    {
        reveal(bus_view);
        reveal(BusModel::wf);
        self.save_dirty = false;
    }

    /// Advances the sound mix by CPU cycles, and serves half-empty FIFOs.
    pub fn tick_sound(&mut self, cycles: u32)
        requires
            old(self)@.wf(),
        ensures
            final(self)@ == old(self)@.sound_ticked(cycles),
            final(self)@.wf(),
    {
        reveal(BusModel::sound_ticked);
        let regs = self.psg_regs();
        let t0: u16 = self.read16(0x0400_0102);
        let t1: u16 = self.read16(0x0400_0106);
        let ov = self.overflows();
        let none: [u32; 4] = [0u32, 0, 0, 0];
        assert(none =~= [0u32, 0, 0, 0]);
        self.set_overflows(none);
        self.step_sound(cycles, &regs, t0, t1, ov);
        if self.fifo_requested() {
            let mut dma = self.take_dma();
            dma.on_fifo_request(self);
            self.put_dma(dma);
        }
    }
}

} // verus!
