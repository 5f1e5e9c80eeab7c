//! The whole machine.

use fairy_lantern::battery::{detect, EepromChip, SaveType};
use fairy_lantern::bios_hle::dispatch;
use fairy_lantern::bios_hle::math::{affine_item, finish_affine, finish_number, Matrix};
use fairy_lantern::bus::{Bus, MathCall};
use fairy_lantern::cart::Cart;
use fairy_lantern::cpu::Cpu;
use fairy_lantern::emu::{AutoInput, Emu, FrameRun, FrameTurn};
use fairy_lantern::fable::spark_rom;
use fairy_lantern::ppu::render::render_scanline;
use fairy_lantern::ppu::{CYCLES_PER_LINE, LINES_PER_FRAME};
use fairy_lantern::savestate;
use fairy_lantern::timers;

fn cart_of(data: Vec<u8>) -> Cart {
    Cart {
        data,
        title: "t".into(),
        game_code: "T".into(),
        maker: "00".into(),
        path: "m".into(),
        inner_name: None,
    }
}

fn cart_with(ops: &[u32]) -> Cart {
    let mut data = vec![0u8; 0x200];
    for (i, op) in ops.iter().enumerate() {
        data[i * 4..i * 4 + 4].copy_from_slice(&op.to_le_bytes());
    }
    cart_of(data)
}

fn run_frames(emu: &mut Emu, n: u32) -> u32 {
    let mut run = FrameRun::new(n, None);
    emu.run_frames_with_input(&mut run).expect("no host arithmetic")
}

#[test]
fn builtin_self_tests() {
    let mut passed = 0;

    {
        let cart = cart_with(&[0xE3A0_0001, 0xE280_0002, 0xEAFF_FFFE]);
        let mut emu = Emu::new(&cart, None);
        emu.cpu.set_pc(0x0800_0000);
        emu.cpu.step(&mut emu.bus);
        emu.cpu.step(&mut emu.bus);
        assert_eq!(emu.cpu.r[0], 3);
        passed += 1;
    }

    {
        let cart = cart_of(vec![0u8; 0x200]);
        let mut emu = Emu::new(&cart, None);
        emu.bus.write16(0x0300_0000, 0x2005);
        emu.bus.write16(0x0300_0002, 0x3003);
        emu.cpu.cpsr.thumb = true;
        emu.cpu.set_pc(0x0300_0000);
        emu.cpu.step(&mut emu.bus);
        emu.cpu.step(&mut emu.bus);
        assert_eq!(emu.cpu.r[0], 8);
        passed += 1;
    }

    {
        let cart = spark_rom();
        let mut emu = Emu::new(&cart, None);
        let n = run_frames(&mut emu, 3);
        assert!(n >= 1, "spark produces frames");
        let dc = emu.bus.dispcnt();
        assert_eq!(dc & 7, 3, "DISPCNT mode3, got {dc:#x}");
        let lit = emu.ppu.frame.iter().any(|&p| p & 0x7FFF != 0);
        assert!(lit, "spark should draw at least one pixel");
        passed += 1;
    }

    {
        let cart = cart_of(vec![0u8; 0x200]);
        let mut emu = Emu::new(&cart, None);
        emu.bus.write16(0x0400_0000, 0x0003);
        emu.bus.write16(0x0600_0000, 0x001F);
        render_scanline(&mut emu.bus, 0, &mut emu.ppu.frame);
        assert_eq!(emu.ppu.frame[0] & 0x1F, 0x1F);
        passed += 1;
    }

    {
        let mut rom = vec![0u8; 0x400];
        rom[0x100..0x106].copy_from_slice(b"SRAM_V");
        assert!(matches!(detect(&rom), SaveType::Sram(_)));
        rom = vec![0u8; 0x400];
        rom[0x100..0x108].copy_from_slice(b"FLASH_V ");
        assert!(matches!(detect(&rom), SaveType::Flash64 | SaveType::Flash128));
        let mut r = vec![0u8; 0x400];
        r[0x100..0x106].copy_from_slice(b"SRAM_V");
        let cart = cart_of(r);
        let mut emu = Emu::new(&cart, None);
        emu.bus.load_battery(None);
        emu.bus.write8(0x0E00_0000, 0x42);
        assert!(emu.bus.save_dirty);
        let data = emu.bus.flush_battery().expect("sav written");
        emu.bus.battery_flushed();
        assert!(!emu.bus.save_dirty);
        assert_eq!(data[0], 0x42);
        let mut emu2 = Emu::new(&cart, None);
        emu2.bus.load_battery(Some(&data));
        assert_eq!(emu2.bus.read8(0x0E00_0000), 0x42);
        passed += 1;
    }

    // EEPROM serial: write 8 bytes then read them back (6-bit address device)
    {
        let mut chip = EepromChip::new(512);
        let data: u64 = 0x0123_4567_89AB_CDEF;
        let mut stream: Vec<u16> = vec![1, 1, 0];
        for _ in 0..6 {
            stream.push(0);
        }
        for i in (0..64).rev() {
            stream.push(((data >> i) & 1) as u16);
        }
        stream.push(0);
        for b in stream {
            chip.write_bit(b);
        }
        assert!(chip.dirty, "eeprom write should dirty");
        assert_eq!(chip.data[0], 0x01);
        assert_eq!(chip.data[7], 0xEF);
        for b in [1u16, 1, 1, 0, 0, 0, 0, 0, 0] {
            chip.write_bit(b);
        }
        let mut out = 0u64;
        for _ in 0..4 {
            assert_eq!(chip.read_serial(), 0);
        }
        for _ in 0..64 {
            out = (out << 1) | (chip.read_serial() as u64 & 1);
        }
        assert_eq!(out, data, "eeprom readback");
        assert!(matches!(detect(b"....EEPROM_V123...."), SaveType::Eeprom8K | SaveType::Eeprom512));
        passed += 1;
    }

    // ARM LDR [PC, #imm] uses PC+8 (not PC+12)
    {
        let cart = cart_with(&[0xE59F_0000, 0xE1A0_0000, 0xDEAD_BEEF]);
        let mut emu = Emu::new(&cart, None);
        emu.cpu.set_pc(0x0800_0000);
        emu.cpu.step(&mut emu.bus);
        assert_eq!(emu.cpu.r[0], 0xDEAD_BEEF, "ARM LDR [PC,#0] must use PC+8");
        passed += 1;
    }

    // Thumb BL: the return address is behind the pair
    {
        let mut mem = vec![0u8; 0x100];
        mem[0..2].copy_from_slice(&0xF000u16.to_le_bytes());
        mem[2..4].copy_from_slice(&0xF801u16.to_le_bytes());
        mem[6..8].copy_from_slice(&0x2042u16.to_le_bytes());
        let cart = cart_of(vec![0u8; 0x200]);
        let mut emu = Emu::new(&cart, None);
        emu.bus.iwram[..mem.len()].copy_from_slice(&mem);
        emu.cpu.cpsr.thumb = true;
        emu.cpu.set_pc(0x0300_0000);
        emu.cpu.step(&mut emu.bus);
        emu.cpu.step(&mut emu.bus);
        assert_eq!(emu.cpu.pc(), 0x0300_0006, "BL target");
        assert_eq!(emu.cpu.r[14] & !1, 0x0300_0004, "BL LR = next after pair");
        assert_eq!(emu.cpu.r[14] & 1, 1, "BL LR thumb bit");
        emu.cpu.step(&mut emu.bus);
        assert_eq!(emu.cpu.r[0], 0x42);
        passed += 1;
    }

    // ARM MSR #imm must change CPSR
    {
        let cart = cart_with(&[0xE321_F01F]);
        let mut emu = Emu::new(&cart, None);
        emu.cpu.set_mode(0x13);
        emu.cpu.cpsr.irq_disable = true;
        emu.cpu.set_pc(0x0800_0000);
        emu.cpu.step(&mut emu.bus);
        assert_eq!(emu.cpu.cpsr.mode, 0x1F, "MSR CPSR_c, #0x1F");
        assert!(!emu.cpu.cpsr.irq_disable);
        assert_eq!(emu.cpu.unknown_ops, 0);
        passed += 1;
    }

    assert_eq!(passed, 9);
}

fn harness() -> (Cpu, Bus) {
    let cart = cart_of(vec![0u8; 0x200]);
    let mut cpu = Cpu::new();
    cpu.set_mode(0x1F);
    (cpu, Bus::new(&cart, None))
}

fn load_bytes(bus: &mut Bus, at: u32, bytes: &[u8]) {
    for (i, b) in bytes.iter().enumerate() {
        bus.write8(at + i as u32, *b);
    }
}

fn dump(bus: &mut Bus, at: u32, n: u32) -> Vec<u8> {
    (0..n).map(|i| bus.read8(at + i)).collect()
}

#[test]
fn division_rounds_toward_zero() {
    let (mut cpu, mut bus) = harness();
    cpu.r[0] = -7i32 as u32;
    cpu.r[1] = 2;
    dispatch(&mut cpu, &mut bus, 0x06);
    assert_eq!((cpu.r[0] as i32, cpu.r[1] as i32, cpu.r[3]), (-3, -1, 3));
    cpu.r[0] = 2;
    cpu.r[1] = 7;
    dispatch(&mut cpu, &mut bus, 0x07);
    assert_eq!((cpu.r[0], cpu.r[1], cpu.r[3]), (3, 1, 3));
}

#[test]
fn lz77_repeats_what_it_wrote() {
    let (mut cpu, mut bus) = harness();
    load_bytes(&mut bus, 0x0200_0000, &[0x10, 8, 0, 0, 0x10, b'a', b'b', b'c', 0x20, 2]);
    cpu.r[0] = 0x0200_0000;
    cpu.r[1] = 0x0300_0000;
    dispatch(&mut cpu, &mut bus, 0x11);
    assert_eq!(dump(&mut bus, 0x0300_0000, 9), b"abcabcab\0");
}

#[test]
fn run_lengths_fill_and_copy() {
    let (mut cpu, mut bus) = harness();
    load_bytes(&mut bus, 0x0200_0000, &[0x30, 8, 0, 0, 0x82, b'x', 0x02, b'a', b'b', b'c']);
    cpu.r[0] = 0x0200_0000;
    cpu.r[1] = 0x0300_0000;
    dispatch(&mut cpu, &mut bus, 0x14);
    assert_eq!(dump(&mut bus, 0x0300_0000, 8), b"xxxxxabc");
}

#[test]
fn differences_are_summed() {
    let (mut cpu, mut bus) = harness();
    load_bytes(&mut bus, 0x0200_0000, &[0x81, 4, 0, 0, 1, 2, 3, 255]);
    cpu.r[0] = 0x0200_0000;
    cpu.r[1] = 0x0300_0000;
    dispatch(&mut cpu, &mut bus, 0x16);
    assert_eq!(dump(&mut bus, 0x0300_0000, 4), [1, 3, 6, 5]);
}

#[test]
fn bits_unpack_from_the_low_end() {
    let (mut cpu, mut bus) = harness();
    bus.write8(0x0200_0000, 0b1010_0101);
    load_bytes(&mut bus, 0x0200_0010, &[1, 0, 1, 8, 0, 0, 0, 0]);
    cpu.r[0] = 0x0200_0000;
    cpu.r[1] = 0x0300_0000;
    cpu.r[2] = 0x0200_0010;
    dispatch(&mut cpu, &mut bus, 0x10);
    assert_eq!(dump(&mut bus, 0x0300_0000, 8), [1, 0, 1, 0, 0, 1, 0, 1]);
}

#[test]
fn cpu_set_copies_and_fills() {
    let (mut cpu, mut bus) = harness();
    load_bytes(&mut bus, 0x0200_0000, &[1, 2, 3, 4]);
    cpu.r[0] = 0x0200_0000;
    cpu.r[1] = 0x0300_0000;
    cpu.r[2] = 2;
    dispatch(&mut cpu, &mut bus, 0x0B);
    assert_eq!(dump(&mut bus, 0x0300_0000, 6), [1, 2, 3, 4, 0, 0]);
    cpu.r[1] = 0x0300_0010;
    cpu.r[2] = 3 | (1 << 24);
    dispatch(&mut cpu, &mut bus, 0x0B);
    assert_eq!(dump(&mut bus, 0x0300_0010, 6), [1, 2, 1, 2, 1, 2]);
}

#[test]
fn the_host_is_asked_for_arithmetic() {
    let (mut cpu, mut bus) = harness();
    cpu.r[0] = 0x4000;
    dispatch(&mut cpu, &mut bus, 0x09);
    assert!(matches!(bus.math, Some(MathCall::ArcTan { tan: 0x4000 })));
    finish_number(&mut cpu, &mut bus, 0x2000);
    assert_eq!(cpu.r[0], 0x2000);
    assert!(bus.math.is_none());

    // one object entry: scales 1.0, angle 0
    load_bytes(&mut bus, 0x0200_0000, &[0, 1, 0, 1, 0, 0]);
    cpu.r[0] = 0x0200_0000;
    cpu.r[1] = 0x0300_0000;
    cpu.r[2] = 1;
    cpu.r[3] = 2;
    dispatch(&mut cpu, &mut bus, 0x0F);
    let item = affine_item(&mut bus).expect("an entry");
    assert_eq!((item.scale_x, item.scale_y, item.angle), (0x100, 0x100, 0));
    finish_affine(&mut bus, item, Matrix { pa: 0x100, pb: 0, pc: 0, pd: 0x100 });
    assert!(bus.math.is_none());
    assert_eq!(dump(&mut bus, 0x0300_0000, 8), [0, 1, 0, 0, 0, 0, 0, 1]);
}

#[test]
fn overflows_clock_the_next_timer() {
    let cart = cart_of(vec![0u8; 0x200]);
    let mut emu = Emu::new(&cart, None);
    emu.bus.write16(0x0400_0100, 0xFFFE);
    emu.bus.write16(0x0400_0102, 0x0080);
    emu.bus.write16(0x0400_0104, 0xFFFF);
    emu.bus.write16(0x0400_0106, 0x00C4);
    emu.bus.apply_timer_starts(&mut emu.timers);
    let ov = timers::step(&mut emu.timers, &mut emu.bus, 5);
    assert_eq!(emu.timers.counter[0], 0xFFFF);
    assert_eq!(ov[..2], [2, 2]);
    assert_eq!(emu.bus.read16(0x0400_0202) & 0x10, 0x10, "timer 1 interrupt");
    assert_eq!(emu.timers.counter[1], 0xFFFF, "reloaded");
}

#[test]
fn prescaler_keeps_its_remainder() {
    let cart = cart_of(vec![0u8; 0x200]);
    let mut emu = Emu::new(&cart, None);
    emu.bus.write16(0x0400_0102, 0x0081);
    emu.bus.apply_timer_starts(&mut emu.timers);
    timers::step(&mut emu.timers, &mut emu.bus, 100);
    assert_eq!((emu.timers.counter[0], emu.timers.frac[0]), (1, 36));
    timers::step(&mut emu.timers, &mut emu.bus, 28);
    assert_eq!((emu.timers.counter[0], emu.timers.frac[0]), (2, 0));
}

#[test]
fn lines_pass_in_their_time() {
    let cart = cart_of(vec![0u8; 0x200]);
    let mut emu = Emu::new(&cart, None);
    assert!(!emu.ppu.step(&mut emu.bus, 5 * CYCLES_PER_LINE + 7));
    assert_eq!((emu.ppu.line, emu.ppu.line_cycles), (5, 7));
    assert_eq!(emu.bus.read16(0x0400_0006), 5);
    assert!(emu.ppu.step(&mut emu.bus, (LINES_PER_FRAME - 5) * CYCLES_PER_LINE));
    assert_eq!((emu.ppu.line, emu.ppu.line_cycles), (0, 7));
}

#[test]
fn spark_moves_with_the_keys() {
    let mut emu = Emu::new(&spark_rom(), None);
    run_frames(&mut emu, 2);
    let x0 = emu.cpu.r[4];
    emu.bus.set_keys_pressed(0x10);
    for _ in 0..3 {
        assert_eq!(emu.run_one_frame(), Some(true));
    }
    assert!(emu.cpu.r[4] > x0, "right moves the spark");
    assert_eq!(emu.cpu.unknown_ops, 0);
}

#[test]
fn automatic_keys_have_phases() {
    let a = AutoInput::title_advance();
    assert_eq!(a.buttons_at(2499), 0);
    assert_eq!(a.buttons_at(2500), 8);
    assert_eq!(a.buttons_at(2505), 0);
    assert_eq!(a.buttons_at(2800), 1);
    assert_eq!(a.buttons_at(9000), 1);
    assert_eq!(a.buttons_at(9010), 0x10);
    assert_eq!(a.buttons_at(9062), 0);
    assert_eq!(a.buttons_at(9070), 0x80);
    assert_eq!(AutoInput::off().buttons_at(2500), 0);
}

#[test]
fn memory_mirrors_and_the_rom_window() {
    let (_, mut bus) = harness();
    bus.write8(0x0204_0005, 7);
    assert_eq!(bus.read8(0x0200_0005), 7);
    bus.write8(0x0300_8001, 9);
    assert_eq!(bus.read8(0x0300_0001), 9);
    let mut rom = vec![0u8; 0x200];
    rom[4] = 0x5A;
    let mut bus = Bus::new(&cart_of(rom), None);
    bus.write8(0x0800_0004, 1);
    assert_eq!(bus.read8(0x0800_0004), 0x5A, "ROM is read-only");
    assert_eq!(bus.read8(0x0A00_0004), 0x5A, "the 32 MiB window comes again");
    assert_eq!(bus.read8(0x0C00_0004), 0x5A);
}

#[test]
fn overflow_flags_follow_the_signs() {
    // ADDS r0, r1, r2 ; SUBS r3, r1, r2
    let cart = cart_with(&[0xE091_0002, 0xE051_3002]);
    let mut cpu = Cpu::new();
    let mut bus = Bus::new(&cart, None);
    cpu.set_pc(0x0800_0000);
    cpu.r[1] = 0x7FFF_FFFF;
    cpu.r[2] = 1;
    cpu.step(&mut bus);
    assert_eq!(cpu.r[0], 0x8000_0000);
    assert!(cpu.cpsr.v && cpu.cpsr.n && !cpu.cpsr.c && !cpu.cpsr.z);
    cpu.r[1] = 0x8000_0000;
    cpu.step(&mut bus);
    assert_eq!(cpu.r[3], 0x7FFF_FFFF);
    assert!(cpu.cpsr.v && !cpu.cpsr.n && cpu.cpsr.c);
}

#[test]
fn services_come_back() {
    // SWI 6 (Div) from system mode, flags set
    let cart = cart_with(&[0xEF00_0006]);
    let mut cpu = Cpu::new();
    cpu.set_mode(0x1F);
    let mut bus = Bus::new(&cart, None);
    cpu.set_pc(0x0800_0000);
    cpu.cpsr.c = true;
    cpu.r[0] = 9;
    cpu.r[1] = 2;
    cpu.r[13] = 0x0300_7F00;
    cpu.r[14] = 0x1234;
    let status = cpu.cpsr.to_u32();
    cpu.step(&mut bus);
    assert_eq!((cpu.r[0], cpu.r[1], cpu.r[3]), (4, 1, 4));
    assert_eq!((cpu.pc(), cpu.r[13], cpu.r[14]), (0x0800_0004, 0x0300_7F00, 0x1234));
    assert_eq!(cpu.cpsr.to_u32(), status);
}

#[test]
fn music_services_write_no_memory() {
    let (mut cpu, mut bus) = harness();
    bus.write8(0x0300_5F50, 0x11);
    let before = (bus.ewram.clone(), bus.iwram.clone(), bus.vram.clone());
    cpu.r[0] = 0x0300_5F50;
    let regs = cpu.r;
    for num in [0x1A, 0x1B, 0x1C, 0x1D, 0x1E, 0x20, 0x21, 0x22, 0x23, 0x24, 0x28, 0x29] {
        dispatch(&mut cpu, &mut bus, num);
    }
    assert!(before == (bus.ewram.clone(), bus.iwram.clone(), bus.vram.clone()));
    assert_eq!(cpu.r, regs);
    assert_eq!(bus.swi_unknown, 0);
}

#[test]
fn coprocessor_encodings_are_counted_and_skipped() {
    let cart = cart_with(&[0xEE00_0A10, 0xE3A0_0007]);
    let mut cpu = Cpu::new();
    let mut bus = Bus::new(&cart, None);
    cpu.set_pc(0x0800_0000);
    cpu.r[0] = 5;
    cpu.step(&mut bus);
    assert_eq!((cpu.unknown_ops, cpu.last_unknown, cpu.r[0]), (1, 0xEE00_0A10, 5));
    cpu.step(&mut bus);
    assert_eq!(cpu.r[0], 7);
}

#[test]
fn unpacked_by_huffman() {
    let (mut cpu, mut bus) = harness();
    // eight-bit symbols, a root with two leaves, and the bits 0110
    load_bytes(&mut bus, 0x0200_0000, &[0x28, 4, 0, 0, 3, 0xC0, 0, b'A', b'B', 0, 0, 0, 0, 0, 0, 0x60]);
    cpu.r[0] = 0x0200_0000;
    cpu.r[1] = 0x0300_0000;
    dispatch(&mut cpu, &mut bus, 0x13);
    assert_eq!(dump(&mut bus, 0x0300_0000, 4), b"ABBA");
}

#[test]
fn a_run_resumes_after_host_arithmetic() {
    // SWI 9 (ArcTan) and then MOV r1, #3
    let cart = cart_with(&[0xEF00_0009, 0xE3A0_1003, 0xEAFF_FFFE]);
    let mut emu = Emu::new(&cart, None);
    emu.cpu.r[0] = 0x4000;
    assert_eq!(emu.step_cycles(64), None);
    finish_number(&mut emu.cpu, &mut emu.bus, 0x1234);
    assert_eq!(emu.step_cycles(64), Some(false));
    assert_eq!((emu.cpu.r[0], emu.cpu.r[1]), (0x1234, 3));
}

#[test]
fn a_run_goes_in_turns() {
    let cart = spark_rom();
    let mut whole = Emu::new(&cart, None);
    assert_eq!(run_frames(&mut whole, 3), 3);
    let mut emu = Emu::new(&cart, None);
    let mut run = FrameRun::new(3, None);
    emu.bus.set_keys_pressed(0);
    let mut turns = 0;
    while emu.frame_turn(&mut run) == FrameTurn::Going {
        turns += 1;
    }
    assert_eq!((run.frames, run.guard), (3, turns));
    assert_eq!(emu.frame_turn(&mut run), FrameTurn::Done(3));
    assert_eq!(emu.cpu.cycles, whole.cpu.cycles);
    assert_eq!(emu.ppu.frame, whole.ppu.frame);
}

#[test]
fn keys_stay_down_until_the_run_ends() {
    let mut emu = Emu::new(&spark_rom(), None);
    let mut run = FrameRun::new(1, None);
    emu.bus.set_keys_pressed(0x10);
    assert_eq!(emu.frame_turn(&mut run), FrameTurn::Going);
    assert_eq!(emu.bus.keyinput, 0x03EF);
    while emu.frame_turn(&mut run) == FrameTurn::Going {}
    assert_eq!(emu.bus.keyinput, 0x03FF);
}

#[test]
fn the_title_stays() {
    let mut cart = spark_rom();
    cart.title = "SPARK".into();
    let mut emu = Emu::new(&cart, None);
    run_frames(&mut emu, 2);
    assert_eq!(emu.run_one_frame(), Some(true));
    let state = savestate::save(&emu);
    let mut other = Emu::new(&spark_rom(), None);
    other.cart_title = "OTHER".into();
    assert!(savestate::load(&mut other, &state).is_ok());
    assert_eq!((emu.cart_title.as_str(), other.cart_title.as_str()), ("SPARK", "OTHER"));
}
