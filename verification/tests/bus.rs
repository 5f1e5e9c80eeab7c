//! The memory map.

use fairy_lantern::battery::SaveType;
use fairy_lantern::bus::{vram_index, Bus, BIOS_SIZE};
use fairy_lantern::cart::Cart;
use fairy_lantern::irq::{raise, IRQ_VBLANK};

#[test]
fn untagged_cart_promotes_sram_on_write() {
    let cart = Cart {
        data: vec![0u8; 0x200],
        title: "t".into(),
        game_code: "T".into(),
        maker: "00".into(),
        path: "m".into(),
        inner_name: None,
    };
    let mut bus = Bus::new(&cart, None);
    assert_eq!(bus.save_type, SaveType::NoSave);
    assert_eq!(bus.read8(0x0E00_0000), 0xFF, "unread window is open/empty");
    bus.write8(0x0E00_0000, 0x42);
    assert!(bus.save_dirty, "first 0x0E write becomes SRAM");
    assert!(matches!(bus.save_type, SaveType::Sram(_)));
    assert_eq!(bus.read8(0x0E00_0000), 0x42);
}

#[test]
fn siocnt_start_completes_and_can_irq() {
    let cart = Cart {
        data: vec![0u8; 0x200],
        title: "t".into(),
        game_code: "T".into(),
        maker: "00".into(),
        path: "m".into(),
        inner_name: None,
    };
    let mut bus = Bus::new(&cart, None);
    bus.write16(0x0400_0128, (1 << 7) | (1 << 14));
    let v = bus.read16(0x0400_0128);
    assert_eq!(v & (1 << 7), 0, "start bit clears");
    assert_eq!(v & (1 << 3), 1 << 3, "transfer complete");
    assert_eq!(bus.read16(0x0400_0202) & (1 << 7), 1 << 7, "serial IRQ");
}

#[test]
fn soundcnt_x_live_bits_not_writable() {
    let cart = Cart {
        data: vec![0u8; 0x200],
        title: "t".into(),
        game_code: "T".into(),
        maker: "00".into(),
        path: "m".into(),
        inner_name: None,
    };
    let mut bus = Bus::new(&cart, None);
    bus.write16(0x0400_0084, 0x008F);
    assert_eq!(bus.read16(0x0400_0084) & 0x80, 0x80);
    assert_eq!(bus.read16(0x0400_0084) & 0x0F, 0, "bits 0–3 are live, not latched");
    bus.write16(0x0400_0084, 0);
    assert_eq!(bus.read16(0x0400_0084) & 0x80, 0);
}

#[test]
fn bios_hidden_when_pc_outside() {
    let cart = Cart {
        data: vec![0u8; 0x200],
        title: "t".into(),
        game_code: "T".into(),
        maker: "00".into(),
        path: "m".into(),
        inner_name: None,
    };
    let mut bus = Bus::new(&cart, Some(vec![0xEA; BIOS_SIZE]));
    bus.exec_pc = 0x0800_0000;
    assert_eq!(bus.read8(0), 0, "ROM code must not dump BIOS");
    let _ = bus.read16(0x0800_0000);
    assert_eq!(
        bus.read32(0x0000_000C),
        0,
        "BIOS open bus is last BIOS fetch (0 after HLE reset), not last ROM halfword"
    );
    bus.exec_pc = 0x0000_0138;
    assert_eq!(bus.read8(0), 0xEA, "BIOS code can read the image");
    bus.write32(0x0300_0000, 0xA1B2_C3D4);
    let _ = bus.read32(0x0300_0000);
    assert_eq!(
        bus.read8(0x0000_4000),
        0xD4,
        "00004000+ is unused, not a BIOS mirror"
    );
}

#[test]
fn vram_128k_window_mirrors_obj_not_bg() {
    let cart = Cart {
        data: vec![0u8; 0x200],
        title: "t".into(),
        game_code: "T".into(),
        maker: "00".into(),
        path: "m".into(),
        inner_name: None,
    };
    let mut bus = Bus::new(&cart, None);
    // OBJ is 16-bit only; 8-bit stores are ignored (see byte_writes test).
    bus.write16(0x0601_0000, 0xABAB);
    bus.write8(0x0600_0000, 0x11);
    assert_eq!(bus.read8(0x0601_8000), 0xAB, "06018000 mirrors OBJ 32K");
    assert_ne!(bus.read8(0x0601_8000), 0x11, "must not wrap onto BG 64K");
    bus.write16(0x0601_8004, 0xCDCD);
    assert_eq!(bus.read8(0x0601_0004), 0xCD);
    bus.write8(0x0602_0008, 0xEF); // +128K → same 64K BG (8-bit duplicates)
    assert_eq!(bus.read8(0x0600_0008), 0xEF);
    assert_eq!(vram_index(0x0601_8000), 0x10000);
    assert_eq!(vram_index(0x0600_FFFF), 0x0FFFF);
    assert_eq!(vram_index(0x0601_7FFF), 0x17FFF);
}

#[test]
fn sequential_rom_fetch_cheaper_than_n() {
    let cart = Cart {
        data: vec![0u8; 0x200],
        title: "t".into(),
        game_code: "T".into(),
        maker: "00".into(),
        path: "m".into(),
        inner_name: None,
    };
    let mut bus = Bus::new(&cart, None);
    // WAITCNT=0 → WS0 N=4, S=2
    let n = bus.fetch_waitstates(0x0800_0000);
    let s = bus.fetch_waitstates(0x0800_0004);
    let n2 = bus.fetch_waitstates(0x0800_1000);
    assert_eq!(n, 3, "N-cycle extra");
    assert_eq!(s, 1, "S-cycle extra");
    assert_eq!(n2, 3, "taken branch is N again");
    assert!(s < n);
}

#[test]
fn rom_data_access_breaks_sequential_fetch() {
    let cart = Cart {
        data: vec![0u8; 0x200],
        title: "t".into(),
        game_code: "T".into(),
        maker: "00".into(),
        path: "m".into(),
        inner_name: None,
    };
    let mut bus = Bus::new(&cart, None);
    let n = bus.fetch_waitstates(0x0800_0000);
    let s = bus.fetch_waitstates(0x0800_0004);
    let _ = bus.data_waitstates(0x0800_0100, 4);
    let after = bus.fetch_waitstates(0x0800_0008);
    assert_eq!(s, 1);
    assert_eq!(after, n, "LDR from ROM must make the next fetch an N-cycle");
}

#[test]
fn rom_32bit_data_costs_n_plus_s() {
    let cart = Cart {
        data: vec![0u8; 0x200],
        title: "t".into(),
        game_code: "T".into(),
        maker: "00".into(),
        path: "m".into(),
        inner_name: None,
    };
    let mut bus = Bus::new(&cart, None);
    let w16 = bus.data_waitstates(0x0800_0000, 2);
    let w32 = bus.data_waitstates(0x0800_0000, 4);
    assert_eq!(w16, 3, "N=4 minus the 1 already in the insn");
    assert_eq!(w32, 5, "N+S=6 minus 1");
    assert!(w32 > w16);
    let iwram = bus.data_waitstates(0x0300_0000, 4);
    assert_eq!(iwram, 0);
}

#[test]
fn ws1_ws2_sequential_use_gbatek_s() {
    let cart = Cart {
        data: vec![0u8; 0x200],
        title: "t".into(),
        game_code: "T".into(),
        maker: "00".into(),
        path: "m".into(),
        inner_name: None,
    };
    let mut bus = Bus::new(&cart, None);
    // WAITCNT=0: WS1 S=4, WS2 S=8
    let _ = bus.fetch_waitstates(0x0A00_0000);
    assert_eq!(bus.fetch_waitstates(0x0A00_0004), 3, "WS1 S=4 extra");
    let _ = bus.fetch_waitstates(0x0C00_0000);
    assert_eq!(bus.fetch_waitstates(0x0C00_0004), 7, "WS2 S=8 extra");
    // sequential bits on: S=1 for all
    bus.write16(0x0400_0204, (1 << 7) | (1 << 10));
    let _ = bus.fetch_waitstates(0x0A00_0000);
    assert_eq!(bus.fetch_waitstates(0x0A00_0004), 0, "WS1 S=1 extra");
    let _ = bus.fetch_waitstates(0x0C00_0000);
    assert_eq!(bus.fetch_waitstates(0x0C00_0004), 0, "WS2 S=1 extra");
}

#[test]
fn sram_wait_follows_waitcnt() {
    let cart = Cart {
        data: vec![0u8; 0x200],
        title: "t".into(),
        game_code: "T".into(),
        maker: "00".into(),
        path: "m".into(),
        inner_name: None,
    };
    let mut bus = Bus::new(&cart, None);
    assert_eq!(bus.data_waitstates(0x0E00_0000, 1), 3, "default SRAM 4-1");
    bus.write16(0x0400_0204, 3);
    assert_eq!(bus.data_waitstates(0x0E00_0000, 1), 7, "SRAM wait 8-1");
}

fn tiny_bus() -> Bus {
    let cart = Cart {
        data: vec![0u8; 0x200],
        title: "t".into(),
        game_code: "T".into(),
        maker: "00".into(),
        path: "m".into(),
        inner_name: None,
    };
    Bus::new(&cart, None)
}

#[test]
fn rom_halfword_open_bus_duplicates_on_both_halves() {
    let mut data = vec![0u8; 0x200];
    data[0..2].copy_from_slice(&0x7801u16.to_le_bytes());
    let cart = Cart {
        data,
        title: "t".into(),
        game_code: "T".into(),
        maker: "00".into(),
        path: "m".into(),
        inner_name: None,
    };
    let mut bus = Bus::new(&cart, Some(vec![0xEA; BIOS_SIZE]));
    bus.exec_pc = 0x0800_0000;
    assert_eq!(bus.read16(0x0800_0000), 0x7801);
    // Unused 00004000+ is last-bus (not BIOS). Thumb latch is 7801_7801.
    assert_eq!(bus.read8(0x0000_4000), 0x01);
    assert_eq!(bus.read8(0x0000_4001), 0x78);
    assert_eq!(bus.read8(0x0000_4002), 0x01);
    assert_eq!(bus.read8(0x0000_4003), 0x78);
    assert_eq!(bus.read32(0x0000_4000), 0x7801_7801);
    assert_eq!(bus.read32(0x0000_000C), 0, "BIOS itself stays last-BIOS (0)");
}

#[test]
fn iwram_halfword_open_bus_is_the_aligned_word() {
    let mut bus = tiny_bus();
    bus.write32(0x0300_0000, 0xA1B2_C3D4);
    let _ = bus.read16(0x0300_0002);
    assert_eq!(
        bus.read8(0x0000_4000),
        0xD4,
        "IWRAM is a 32-bit bus: unused read sees the whole word"
    );
    assert_eq!(bus.read8(0x0000_4001), 0xC3);
    assert_eq!(bus.read8(0x0000_4002), 0xB2);
    assert_eq!(bus.read8(0x0000_4003), 0xA1);
}

#[test]
fn vram_halfword_open_bus_duplicates() {
    let mut bus = tiny_bus();
    bus.write16(0x0600_0000, 0x1F3F);
    let _ = bus.read16(0x0600_0000);
    assert_eq!(bus.read8(0x0000_4000), 0x3F);
    assert_eq!(bus.read8(0x0000_4001), 0x1F);
    assert_eq!(bus.read8(0x0000_4002), 0x3F);
    assert_eq!(bus.read8(0x0000_4003), 0x1F);
}

#[test]
fn unused_io_is_open_bus_not_zero() {
    let mut bus = tiny_bus();
    bus.write32(0x0300_0000, 0xA1B2_C3D4);
    let _ = bus.read32(0x0300_0000);
    bus.write16(0x0400_004E, 0xBEEF);
    assert_ne!(
        bus.read16(0x0400_004E),
        0xBEEF,
        "unused MOSAIC pad must not latch"
    );
    // 0xE0 is unused; addr&3==0 → last-word low byte
    assert_eq!(bus.read8(0x0400_00E0), 0xD4, "open bus byte 0 of last word");
    assert_eq!(bus.read8(0x0400_00A0), 0xD4, "FIFO A is write-only");
    assert_eq!(bus.read16(0x0400_0000), 0x0080, "DISPCNT still mapped");
}

#[test]
fn haltcnt_byte_write_halts() {
    let mut bus = tiny_bus();
    assert_eq!(bus.read8(0x0400_0300), 1, "HLE boot leaves POSTFLG set");
    assert!(!bus.halt_wait);
    bus.write8(0x0400_0300, 1);
    assert!(!bus.halt_wait, "POSTFLG alone is not Halt");
    assert_eq!(bus.read8(0x0400_0300), 1);
    bus.write8(0x0400_0301, 0);
    assert!(bus.halt_wait);
    bus.write32(0x0300_0000, 0xA1B2_C3D4);
    let _ = bus.read32(0x0300_0000);
    assert_eq!(
        bus.read8(0x0400_0301),
        0xC3,
        "HALTCNT reads are open bus, not the written 0"
    );
}

#[test]
fn ime_and_ie_mask_unused_bits() {
    let mut bus = tiny_bus();
    bus.write16(0x0400_0208, 0xFFFF);
    assert_eq!(bus.read16(0x0400_0208) & 0xFF, 1, "IME is bit 0 only");
    bus.write16(0x0400_0200, 0xFFFF);
    assert_eq!(bus.read16(0x0400_0200), 0x3FFF);
    let keys = bus.read16(0x0400_0130);
    bus.write16(0x0400_0130, 0);
    assert_eq!(bus.read16(0x0400_0130), keys, "KEYINPUT is read-only");
}

#[test]
fn pal_oam_ignore_byte_writes() {
    let mut bus = tiny_bus();
    bus.write16(0x0500_0000, 0x7FFF);
    bus.write8(0x0500_0000, 0x12);
    assert_eq!(bus.read16(0x0500_0000), 0x7FFF);
    bus.write16(0x0700_0000, 0x1234);
    bus.write8(0x0700_0000, 0xAB);
    assert_eq!(bus.read16(0x0700_0000), 0x1234);
}

#[test]
fn vram_byte_write_bg_duplicates_obj_ignored() {
    let mut bus = tiny_bus();
    bus.write16(0x0600_0000, 0x0000);
    bus.write8(0x0600_0000, 0x5A);
    assert_eq!(bus.read16(0x0600_0000), 0x5A5A, "BG 8-bit writes both bytes");
    bus.write16(0x0601_0000, 0x1111);
    bus.write8(0x0601_0000, 0x22);
    assert_eq!(bus.read16(0x0601_0000), 0x1111, "OBJ 8-bit writes ignored");
    bus.write16(0x0400_0000, 0x0003); // mode 3 bitmap
    bus.write8(0x0601_0000, 0x33);
    assert_eq!(
        bus.read16(0x0601_0000),
        0x3333,
        "mode-3 bitmap allows 8-bit dual write"
    );
}

#[test]
fn dispstat_write_keeps_live_flags() {
    let mut bus = tiny_bus();
    bus.write16_raw(0x0400_0004, 0x0007);
    bus.write16(0x0400_0004, 0x2800);
    assert_eq!(bus.read16(0x0400_0004) & 7, 7, "v/h/vc flags stay");
    assert_eq!(bus.read16(0x0400_0004) & 0x2800, 0x2800);
    bus.write16(0x0400_0204, 0xFFFF);
    assert_eq!(bus.read16(0x0400_0204) & 0x8000, 0, "WAITCNT bit15 is 0");
    raise(&mut bus, IRQ_VBLANK);
    bus.write16(0x0400_0202, 0xC000);
    assert_eq!(
        bus.read16(0x0400_0202) & 0xC000,
        0,
        "IF bits 14–15 do not exist"
    );
    assert_eq!(bus.read16(0x0400_0202) & 1, 1, "W1C unused bits leave IF");
    bus.write16(0x0400_0048, 0xFFFF);
    assert_eq!(bus.read16(0x0400_0048), 0x3F3F, "WININ unused bits");
    bus.write16(0x0400_0050, 0xFFFF);
    assert_eq!(bus.read16(0x0400_0050), 0x3FFF, "BLDCNT unused bits");
    bus.write16(0x0400_0102, 0x00FF);
    assert_eq!(bus.read16(0x0400_0102), 0x00C7, "TMxCNT unused bits");
}
