//! Save hardware.

use fairy_lantern::battery::{detect, flash_ids, EepromChip, FlashChip, SaveType};

fn unlock(flash: &mut FlashChip) {
    flash.write(0x5555, 0xAA);
    flash.write(0x2AAA, 0x55);
}

/// SDK FLASH1M sector erase: AA/55/80, AA/55, then 30 at the sector.
fn sector_erase(flash: &mut FlashChip, sector: u32) {
    unlock(flash);
    flash.write(0x5555, 0x80);
    unlock(flash);
    flash.write(sector, 0x30);
}

fn program(flash: &mut FlashChip, addr: u32, val: u8) {
    unlock(flash);
    flash.write(0x5555, 0xA0);
    flash.write(addr, val);
}

#[test]
fn untagged_rom_is_not_sram() {
    assert_eq!(detect(&[0u8; 256]), SaveType::NoSave);
    let mut sram = vec![0u8; 256];
    sram[10..16].copy_from_slice(b"SRAM_V");
    assert!(matches!(detect(&sram), SaveType::Sram(_)));
}

#[test]
fn flash_ids_follow_sdk_tag() {
    assert_eq!(flash_ids(b"FLASH1M_V103", 128 * 1024), (0x62, 0x13));
    assert_eq!(flash_ids(b"FLASH1M_V102", 128 * 1024), (0xC2, 0x09));
    assert_eq!(flash_ids(b"FLASH512_V131", 64 * 1024), (0xBF, 0xD4));
    assert_eq!(flash_ids(b"PANASONIC FLASH_V", 64 * 1024), (0x32, 0x1B));
    // Never claim Atmel — we do not implement its command set.
    assert_ne!(flash_ids(b"FLASH512_V", 64 * 1024).0, 0x1F);
}

#[test]
fn flash128_id_is_sanyo() {
    let mut flash = FlashChip::new(128 * 1024);
    unlock(&mut flash);
    flash.write(0x5555, 0x90);
    assert_eq!(flash.read(0), 0x62);
    assert_eq!(flash.read(1), 0x13);
    flash.write(0, 0xF0);
    assert_eq!(flash.read(0), 0xFF);
}

#[test]
fn amd_sector_erase_after_second_unlock() {
    let mut flash = FlashChip::new(128 * 1024);
    flash.data[0x1000] = 0x12;
    flash.data[0x1FFF] = 0x34;
    flash.data[0x2000] = 0x56;
    sector_erase(&mut flash, 0x1000);
    assert_eq!(flash.read(0x1000), 0xFF, "sector start erased");
    assert_eq!(flash.read(0x1FFF), 0xFF, "sector end erased");
    assert_eq!(flash.data[0x2000], 0x56, "next sector untouched");
}

#[test]
fn amd_chip_erase() {
    let mut flash = FlashChip::new(64 * 1024);
    flash.data[0] = 0x11;
    flash.data[0x8000] = 0x22;
    unlock(&mut flash);
    flash.write(0x5555, 0x80);
    unlock(&mut flash);
    flash.write(0x5555, 0x10);
    assert!(flash.data.iter().all(|&b| b == 0xFF));
}

#[test]
fn program_after_erase_and_no_raw_write() {
    let mut flash = FlashChip::new(128 * 1024);
    sector_erase(&mut flash, 0);
    program(&mut flash, 0x20, 0xA5);
    assert_eq!(flash.read(0x20), 0xA5);
    // Command bytes must not poke SRAM-style into the array.
    flash.write(0x20, 0x00);
    assert_eq!(flash.read(0x20), 0xA5);
}

#[test]
fn bank_switch_selects_second_64k() {
    let mut flash = FlashChip::new(128 * 1024);
    flash.data[64 * 1024] = 0x77;
    unlock(&mut flash);
    flash.write(0x5555, 0xB0);
    flash.write(0, 1);
    assert_eq!(flash.read(0), 0x77);
    unlock(&mut flash);
    flash.write(0x5555, 0xB0);
    flash.write(0, 0);
    assert_eq!(flash.read(0), 0xFF);
}

fn command(chip: &mut EepromChip, width: u32, read: bool, addr: u32) {
    for b in [1, 1, read as u16] {
        chip.write_bit(b);
    }
    for i in (0..width).rev() {
        chip.write_bit(((addr >> i) & 1) as u16);
    }
}

fn send(chip: &mut EepromChip, v: u64) {
    for i in (0..64).rev() {
        chip.write_bit(((v >> i) & 1) as u16);
    }
}

fn take(chip: &mut EepromChip) -> u64 {
    for _ in 0..4 {
        assert_eq!(chip.read_serial(), 0);
    }
    let v = (0..64).fold(0, |v: u64, _| (v << 1) | u64::from(chip.read_serial()));
    assert_eq!(chip.read_serial(), 1);
    v
}

#[test]
fn an_eeprom_reads_out_its_cells() {
    let mut chip = EepromChip::new(512);
    for i in 0..512 {
        chip.data[i] = (i * 7) as u8;
    }
    let before = chip.data.clone();
    command(&mut chip, 6, true, 0x2A);
    let at = 0x2A * 8;
    let cells: [u8; 8] = before[at..at + 8].try_into().unwrap();
    assert_eq!(take(&mut chip), u64::from_be_bytes(cells));
    assert_eq!(chip.data, before);
}

#[test]
fn a_large_eeprom_keeps_fourteen_address_bits() {
    let mut chip = EepromChip::new(8192);
    command(&mut chip, 14, false, 0x3A5);
    send(&mut chip, 0x0123_4567_89AB_CDEF);
    chip.write_bit(0);
    assert_eq!(chip.read_serial(), 1);
    assert_eq!(chip.addr_bits, 14);
    assert_eq!(chip.data[0x3A5 * 8..0x3A5 * 8 + 8], [0x01, 0x23, 0x45, 0x67, 0x89, 0xAB, 0xCD, 0xEF]);
    command(&mut chip, 14, true, 0x3A5);
    assert_eq!(take(&mut chip), 0x0123_4567_89AB_CDEF);
    assert_eq!(chip.addr_bits, 14);
}

#[test]
fn a_short_stream_narrows_an_eeprom() {
    for stop in [false, true] {
        let mut chip = EepromChip::new(8192);
        command(&mut chip, 6, false, 0x15);
        send(&mut chip, 0xFEDC_BA98_7654_3210);
        if stop {
            chip.write_bit(0);
        }
        assert_eq!((chip.addr_bits, chip.dirty), (14, false));
        assert_eq!(chip.read_serial(), 1);
        assert_eq!((chip.addr_bits, chip.dirty), (6, true));
        assert_eq!(chip.data[0x15 * 8..0x15 * 8 + 8], [0xFE, 0xDC, 0xBA, 0x98, 0x76, 0x54, 0x32, 0x10]);
        command(&mut chip, 6, true, 0x15);
        assert_eq!(take(&mut chip), 0xFEDC_BA98_7654_3210);
    }
    let mut chip = EepromChip::new(8192);
    chip.data[8 * 3] = 0xA5;
    command(&mut chip, 6, true, 3);
    assert_eq!(take(&mut chip) >> 56, 0xA5);
    assert_eq!(chip.addr_bits, 6);
}
