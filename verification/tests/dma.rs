//! DMA.

use fairy_lantern::cart::Cart;
use fairy_lantern::dma::DmaController;
use fairy_lantern::emu::Emu;

#[test]
fn fifo_special_refills_four_words() {
    let cart = Cart {
        data: vec![0u8; 0x200],
        title: "t".into(),
        game_code: "T".into(),
        maker: "00".into(),
        path: "m".into(),
        inner_name: None,
    };
    let mut emu = Emu::new(&cart, None);
    emu.bus.write32(0x0300_0000, 0x0403_0201);
    emu.bus.write32(0x0300_0004, 0x0807_0605);
    emu.bus.write32(0x0300_0008, 0x0C0B_0A09);
    emu.bus.write32(0x0300_000C, 0x100F_0E0D);
    // DMA1 SAD / DAD / CNT_L
    emu.bus.write32(0x0400_00BC, 0x0300_0000);
    emu.bus.write32(0x0400_00C0, 0x0400_00A0);
    emu.bus.write16(0x0400_00C4, 4);
    // enable + 32-bit + repeat + special
    emu.bus.write16(0x0400_00C6, 0xB600);

    assert!(emu.bus.dma.ch[1].active);
    // Empty FIFO DRQ: enable must fill immediately (2×4 words → 32 samples).
    assert_eq!(
        emu.bus.sound.fifo_a_len(),
        32,
        "special DMA fills FIFO on enable"
    );
    assert_eq!(emu.bus.dma.ch[1].src, 0x0300_0020);
    assert!(emu.bus.dma.ch[1].active, "repeat keeps the channel live");
}

#[test]
fn dma3_video_capture_one_line_then_stops() {
    let cart = Cart {
        data: vec![0u8; 0x200],
        title: "t".into(),
        game_code: "T".into(),
        maker: "00".into(),
        path: "m".into(),
        inner_name: None,
    };
    let mut emu = Emu::new(&cart, None);
    for i in 0..8u32 {
        emu.bus.write16(0x0200_0000 + i * 2, (0x100 + i) as u16);
    }
    emu.bus.write32(0x0400_00D4, 0x0200_0000);
    emu.bus.write32(0x0400_00D8, 0x0600_0000);
    emu.bus.write16(0x0400_00DC, 4);
    // enable + repeat + special + 16-bit
    emu.bus.write16(0x0400_00DE, 0xB200);
    assert!(emu.bus.dma.ch[3].active);

    emu.bus.set_vcount(0);
    let mut dma = std::mem::replace(&mut emu.bus.dma, DmaController::new());
    dma.on_hblank(&mut emu.bus);
    emu.bus.dma = dma;
    assert_eq!(emu.bus.read16(0x0600_0000), 0, "no capture on line 0");

    emu.bus.set_vcount(2);
    let mut dma = std::mem::replace(&mut emu.bus.dma, DmaController::new());
    dma.on_hblank(&mut emu.bus);
    emu.bus.dma = dma;
    assert_eq!(emu.bus.read16(0x0600_0000), 0x100);
    assert_eq!(emu.bus.read16(0x0600_0006), 0x103);
    assert!(emu.bus.dma.ch[3].active);

    emu.bus.set_vcount(162);
    let mut dma = std::mem::replace(&mut emu.bus.dma, DmaController::new());
    dma.on_hblank(&mut emu.bus);
    emu.bus.dma = dma;
    assert!(!emu.bus.dma.ch[3].active, "capture ends at VCOUNT 162");
    assert_eq!(emu.bus.read16(0x0400_00DE) & 0x8000, 0);
}

/// A list of descriptors: each transfer loads the channel's own registers with
/// the next one and so starts it inside itself.
#[test]
fn a_chain_of_transfers_is_followed_to_its_end() {
    let cart = Cart {
        data: vec![0u8; 0x200],
        title: "t".into(),
        game_code: "T".into(),
        maker: "00".into(),
        path: "m".into(),
        inner_name: None,
    };
    let mut emu = Emu::new(&cart, None);
    let links = 40u32;
    let at = |i: u32| 0x0200_0000 + i * 12;
    for i in 0..links {
        let last = i + 1 == links;
        emu.bus.write32(at(i), if last { 0x0200_4000 } else { at(i + 1) });
        emu.bus.write32(at(i) + 4, if last { 0x0200_8000 } else { 0x0400_00D4 });
        emu.bus.write32(at(i) + 8, if last { 0x8400_0001 } else { 0x8400_0003 });
    }
    emu.bus.write32(0x0200_4000, 0x1234_5678);
    emu.bus.write32(0x0400_00D4, at(0));
    emu.bus.write32(0x0400_00D8, 0x0400_00D4);
    emu.bus.write32(0x0400_00DC, 0x8400_0003);
    assert_eq!(emu.bus.read32(0x0200_8000), 0x1234_5678);
}
