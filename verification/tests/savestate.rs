//! Savestates.

use fairy_lantern::cart::Cart;
use fairy_lantern::emu::Emu;
use fairy_lantern::rtc::{GPIO_CTRL, GPIO_DATA, GPIO_DIR};
use fairy_lantern::savestate::codec::StateError;
use fairy_lantern::savestate::{load, save};

fn dummy() -> Emu {
    dummy_rom(vec![0u8; 0x200])
}

fn dummy_rom(data: Vec<u8>) -> Emu {
    let cart = Cart {
        data,
        title: "t".into(),
        game_code: "T".into(),
        maker: "00".into(),
        path: "m".into(),
        inner_name: None,
    };
    Emu::new(&cart, None)
}

#[test]
fn timer_ctrl_restored_from_saved_io() {
    let mut emu = dummy();
    emu.bus.write16(0x0400_0102, 0x0083);
    emu.bus.timer_ctrl_prev[0] = 0x0083;
    let bytes = save(&emu);

    emu.bus.write16(0x0400_0102, 0);
    emu.bus.timer_ctrl_prev[0] = 0;
    load(&mut emu, &bytes).unwrap();
    assert_eq!(
        emu.bus.timer_ctrl_prev[0] & 0x80,
        0x80,
        "timer enable must come from snapshot IO, not the live machine"
    );
}

#[test]
fn frac_halt_dma_fifo_round_trip() {
    let mut emu = dummy();
    emu.timers.frac[2] = 17;
    emu.bus.halt_wait = true;
    emu.bus.intr_wait_mask = 0x0001;
    emu.bus.dma.ch[1].src = 0x0300_1000;
    emu.bus.dma.ch[1].dst = 0x0400_00A0;
    emu.bus.dma.ch[1].count = 4;
    emu.bus.dma.ch[1].ctrl = 0xB600;
    emu.bus.dma.ch[1].active = true;
    emu.bus.sound.push_fifo_a_word(0x0403_0201);
    emu.bus.sound.push_fifo_a_word(0x0807_0605);

    let bytes = save(&emu);

    let mut emu2 = dummy();
    load(&mut emu2, &bytes).unwrap();
    assert_eq!(emu2.timers.frac[2], 17);
    assert!(emu2.bus.halt_wait);
    assert_eq!(emu2.bus.intr_wait_mask, 0x0001);
    assert_eq!(emu2.bus.dma.ch[1].src, 0x0300_1000);
    assert_eq!(emu2.bus.dma.ch[1].count, 4);
    assert!(emu2.bus.dma.ch[1].active);
    assert_eq!(emu2.bus.sound.fifo_a_len(), 8);
}

#[test]
fn fiq_bank_round_trip() {
    let mut emu = dummy();
    emu.cpu.set_mode(0x11);
    emu.cpu.r[8] = 0xFEED_FACE;
    emu.cpu.r[13] = 0x0300_7F80;
    emu.cpu.set_mode(0x1F); // flush FIQ bank
    let bytes = save(&emu);
    let mut emu2 = dummy();
    load(&mut emu2, &bytes).unwrap();
    emu2.cpu.set_mode(0x11);
    assert_eq!(emu2.cpu.r[8], 0xFEED_FACE);
    assert_eq!(emu2.cpu.r[13], 0x0300_7F80);
}

#[test]
fn v5_restores_flash_erase_prep() {
    let mut rom = vec![0u8; 0x400];
    rom[0x100..0x108].copy_from_slice(b"FLASH1M_");
    let mut emu = dummy_rom(rom);
    {
        let flash = emu.bus.flash.as_mut().expect("flash128");
        flash.data[0] = 0x12;
        flash.data[0x0FFF] = 0x34;
        flash.write(0x5555, 0xAA);
        flash.write(0x2AAA, 0x55);
        flash.write(0x5555, 0x80);
        flash.write(0x5555, 0xAA);
        flash.write(0x2AAA, 0x55);
        let (mode, step, _, _, _) = flash.debug_fsm();
        assert_eq!((mode, step), (2, 2), "erase-prep + second unlock");
    }
    let bytes = save(&emu);
    let mut emu2 = dummy_rom({
        let mut r = vec![0u8; 0x400];
        r[0x100..0x108].copy_from_slice(b"FLASH1M_");
        r
    });
    load(&mut emu2, &bytes).unwrap();
    let flash = emu2.bus.flash.as_mut().unwrap();
    assert_eq!(flash.debug_fsm().0, 2);
    flash.write(0, 0x30);
    assert_eq!(flash.data[0], 0xFF, "confirm after F7 must still erase");
    assert_eq!(flash.data[0x0FFF], 0xFF);
}

#[test]
fn v5_restores_eeprom_phase() {
    let mut rom = vec![0u8; 0x400];
    rom[0x100..0x109].copy_from_slice(b"EEPROM_V1");
    let mut emu = dummy_rom(rom.clone());
    {
        let e = emu.bus.eeprom.as_mut().expect("eeprom");
        e.write_bit(1);
        e.write_bit(1);
        e.write_bit(0);
        let s = e.snapshot_fsm();
        assert_eq!(s.phase, 1);
        assert_eq!(s.bit_count, 3);
    }
    let bytes = save(&emu);
    let mut emu2 = dummy_rom(rom);
    load(&mut emu2, &bytes).unwrap();
    let s = emu2.bus.eeprom.as_ref().unwrap().snapshot_fsm();
    assert_eq!(s.phase, 1);
    assert_eq!(s.bit_count, 3);
}

#[test]
fn v5_restores_rtc_gpio() {
    let mut rom = vec![0u8; 0x400];
    rom[0x100..0x106].copy_from_slice(b"RTC_V_");
    let mut emu = dummy_rom(rom.clone());
    assert!(emu.bus.rtc.present);
    emu.bus.rtc.write16(GPIO_DIR, 0x0007);
    emu.bus.rtc.write16(GPIO_CTRL, 0x0001);
    emu.bus.rtc.write16(GPIO_DATA, 0x0004);
    let bytes = save(&emu);
    let mut emu2 = dummy_rom(rom);
    load(&mut emu2, &bytes).unwrap();
    let s = emu2.bus.rtc.snapshot_gpio();
    assert_eq!(s.dir, 0x0007);
    assert_eq!(s.ctrl, 0x0001);
    assert_eq!(s.data & 0x4, 0x4);
}

#[test]
fn a_state_reads_back_whole() {
    let mut emu = dummy();
    for i in 0..16 {
        emu.cpu.r[i] = 0x1000_0001 * i as u32;
    }
    emu.cpu.cycles = 0x0123_4567_89AB_CDEF;
    emu.bus.write32(0x0200_0100, 0xCAFE_F00D);
    emu.bus.write16(0x0600_0040, 0x7C1F);
    emu.ppu.line = 100;
    emu.ppu.line_cycles = 1100;
    emu.ppu.frame[38399] = 0x7FFF;
    emu.timers.counter = [1, 2, 3, 0xFFFF];
    let bytes = save(&emu);
    assert_eq!(&bytes[..8], b"FAELST05");

    let mut other = dummy();
    load(&mut other, &bytes).unwrap();
    assert_eq!(other.cpu.r, emu.cpu.r);
    assert_eq!(other.cpu.cycles, 0x0123_4567_89AB_CDEF);
    assert_eq!(other.bus.read32(0x0200_0100), 0xCAFE_F00D);
    assert_eq!(other.bus.read16(0x0600_0040), 0x7C1F);
    assert_eq!((other.ppu.line, other.ppu.line_cycles), (100, 1100));
    assert!(other.ppu.hblank_fired);
    assert_eq!(other.ppu.frame[38399], 0x7FFF);
    assert_eq!(other.timers.counter, [1, 2, 3, 0xFFFF]);
    assert!(other.bus.save_dirty);
    assert_eq!(save(&other), bytes);
}

#[test]
fn older_states_still_load() {
    let mut emu = dummy();
    emu.cpu.r8_fiq = [9; 5];
    emu.cpu.r[3] = 77;
    emu.timers.frac = [5, 6, 7, 8];
    let mut v4 = save(&emu);
    v4[7] = b'4';
    let mut v3 = v4.clone();
    v3[7] = b'3';

    let mut a = dummy();
    load(&mut a, &v4).unwrap();
    assert_eq!(a.cpu.r8_fiq, [9; 5]);
    let mut b = dummy();
    load(&mut b, &v3).unwrap();
    assert_eq!(b.cpu.r8_fiq, [0; 5]);
    assert_eq!(b.cpu.r[3], 77);
    assert_eq!(b.timers.frac, [5, 6, 7, 8]);

    // the oldest format has no prescaler remainders: drop those 16 bytes
    let mut v2 = v4.clone();
    v2[7] = b'2';
    let frac_at = 8 + 64 + 8 + 8 + 1 + 32 + 16 + 8;
    v2.drain(frac_at..frac_at + 16);
    let mut c = dummy();
    c.timers.frac = [1; 4];
    load(&mut c, &v2).unwrap();
    assert_eq!(c.cpu.r[3], 77);
    assert_eq!(c.timers.frac, [1; 4]);
}

#[test]
fn older_states_leave_the_chips_idle() {
    let mut rom = vec![0u8; 0x400];
    rom[0x100..0x108].copy_from_slice(b"FLASH1M_");
    rom[0x200..0x206].copy_from_slice(b"RTC_V_");
    let mut emu = dummy_rom(rom);
    let mut v4 = save(&emu);
    v4[7] = b'4';
    emu.bus.flash.as_mut().unwrap().write(0x5555, 0xAA);
    emu.bus.rtc.write16(fairy_lantern::rtc::GPIO_DIR, 0x0007);
    load(&mut emu, &v4).unwrap();
    assert_eq!(emu.bus.flash.as_ref().unwrap().debug_fsm().1, 0);
    assert_eq!(emu.bus.rtc.snapshot_gpio().dir, 0);
    assert!(emu.bus.rtc.present);

    let mut rom = vec![0u8; 0x400];
    rom[0x100..0x109].copy_from_slice(b"EEPROM_V1");
    let mut emu = dummy_rom(rom);
    let mut v4 = save(&emu);
    v4[7] = b'4';
    emu.bus.eeprom.as_mut().unwrap().write_bit(1);
    emu.bus.eeprom.as_mut().unwrap().write_bit(1);
    load(&mut emu, &v4).unwrap();
    let s = emu.bus.eeprom.as_ref().unwrap().snapshot_fsm();
    assert_eq!((s.phase, s.bit_count), (0, 0));
}

#[test]
fn bad_states_are_refused_and_change_nothing() {
    let good = save(&dummy());
    let mut emu = dummy();
    emu.cpu.r[5] = 55;

    let mut magic = good.clone();
    magic[0] = b'X';
    assert_eq!(load(&mut emu, &magic), Err(StateError::NotAState));
    assert_eq!(load(&mut emu, &good[..6]), Err(StateError::Truncated));
    assert_eq!(load(&mut emu, &good[..good.len() - 1]), Err(StateError::Truncated));

    let fifo_at = good.len() - 3 - (19 * 4) - 1 * 0 - (2 + 4 + 8 + 8 + 28) - 2 * (4 + 3 + 8);
    let mut fifo = good.clone();
    fifo[fifo_at..fifo_at + 4].copy_from_slice(&33u32.to_le_bytes());
    assert_eq!(load(&mut emu, &fifo), Err(StateError::FifoLength(33)));

    assert_eq!(emu.cpu.r[5], 55);
    assert_eq!(load(&mut emu, &good), Ok(()));
    assert_eq!(emu.cpu.r[5], 0);
}

#[test]
fn shorter_memories_are_taken() {
    let mut emu = dummy();
    emu.cpu.r[5] = 55;
    let good = save(&emu);
    // one byte short of EWRAM: its length field follows the line clock
    let ewram_at = 8 + 64 + 8 + 8 + 1 + 32 + 16 + 8 + 16 + 2 + 4;
    let mut small = good.clone();
    small[ewram_at..ewram_at + 4].copy_from_slice(&0x3_FFFFu32.to_le_bytes());
    small.remove(ewram_at + 4);
    let mut other = dummy();
    assert!(other.bus.is_mapped());
    assert_eq!(load(&mut other, &small), Ok(()));
    assert_eq!((other.cpu.r[5], other.bus.ewram.len()), (55, 0x3_FFFF));
    assert!(!other.bus.is_mapped(), "the machine cannot go on");
    assert!(save(&other) == small);

    // registers that the state lacks read 0 and take no writes
    let io_at = ewram_at + 4 + 0x4_0000 + 4 + 0x8000;
    let mut few = good.clone();
    few[io_at..io_at + 4].copy_from_slice(&0x100u32.to_le_bytes());
    few.drain(io_at + 4 + 0x100..io_at + 4 + 0x400);
    let mut other = dummy();
    assert_eq!(load(&mut other, &few), Ok(()));
    assert!(other.bus.is_mapped());
    other.bus.write16(0x0400_0200, 0x1234);
    assert_eq!(other.bus.read16(0x0400_0200), 0);
    other.bus.write16(0x0400_0008, 0x1234);
    assert_eq!(other.bus.read16(0x0400_0008), 0x1234);
    assert!(other.step_cycles(64).is_some());
}

#[test]
fn odd_chips_and_longer_memories_are_taken() {
    // one byte more than EWRAM
    let ewram_at = 8 + 64 + 8 + 8 + 1 + 32 + 16 + 8 + 16 + 2 + 4;
    let mut long = save(&dummy());
    long[ewram_at..ewram_at + 4].copy_from_slice(&0x4_0001u32.to_le_bytes());
    long.insert(ewram_at + 4 + 0x4_0000, 0x77);
    let mut emu = dummy();
    assert_eq!(load(&mut emu, &long), Ok(()));
    assert_eq!(emu.bus.ewram.len(), 0x4_0001);
    assert_eq!(emu.bus.read8(0x0204_0000), emu.bus.ewram[0]);
    assert!(save(&emu).starts_with(&long[..ewram_at + 4 + 0x4_0001]));

    // an EEPROM of 200 address bits
    let mut rom = vec![0u8; 0x400];
    rom[0x100..0x109].copy_from_slice(b"EEPROM_V1");
    let mut chip = dummy_rom(rom);
    let mut odd = save(&chip);
    let bits_at = odd.len() - 1 - (5 + 8 + 16 + 2 + 8);
    odd[bits_at] = 200;
    assert_eq!(load(&mut chip, &odd), Ok(()));
    assert_eq!(chip.bus.eeprom.as_ref().unwrap().snapshot_fsm().addr_bits, 200);

    // a flash of one cell in a bank that it has not
    let mut rom = vec![0u8; 0x400];
    rom[0x100..0x108].copy_from_slice(b"FLASH1M_");
    let mut emu = dummy_rom(rom);
    let f = emu.bus.flash.as_mut().unwrap();
    f.data = vec![0x12];
    f.bank = 0x12_3456;
    let bytes = save(&emu);
    assert_eq!(load(&mut emu, &bytes), Ok(()));
    let f = emu.bus.flash.as_mut().unwrap();
    assert_eq!((f.data.len(), f.bank), (1, 0x12_3456));
    assert_eq!((f.read(0), f.read(1)), (0x12, 0xFF));
}
