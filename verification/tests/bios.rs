//! BIOS calls.

use fairy_lantern::bios_hle::math::isqrt_u32;
use fairy_lantern::bios_hle::{dispatch, register_ram_reset, soft_reset, swi_thumb};
use fairy_lantern::bus::Bus;
use fairy_lantern::cart::Cart;
use fairy_lantern::cpu::Cpu;

fn harness() -> (Cpu, Bus) {
    let cart = Cart {
        data: vec![0u8; 0x200],
        title: "t".into(),
        game_code: "T".into(),
        maker: "00".into(),
        path: "m".into(),
        inner_name: None,
    };
    (Cpu::new(), Bus::new(&cart, None))
}

#[test]
fn swi_enters_svc_then_returns_to_caller() {
    let (mut cpu, mut bus) = harness();
    cpu.set_mode(0x1F);
    cpu.r[13] = 0x0300_7F00;
    cpu.set_mode(0x13);
    cpu.r[13] = 0x0300_7FE0;
    cpu.set_mode(0x1F);
    cpu.cpsr.thumb = true;
    cpu.r[0] = 200;
    cpu.r[15] = 0x0800_0102;
    swi_thumb(&mut cpu, &mut bus, 0xDF08);
    assert_eq!(cpu.r[0], 14);
    assert_eq!(cpu.cpsr.mode & 0x1F, 0x1F, "back in SYS");
    assert!(cpu.cpsr.thumb, "T bit restored from SPSR");
    assert_eq!(cpu.r[15], 0x0800_0102, "PC is next insn");
    assert_eq!(cpu.r[13], 0x0300_7F00, "user SP intact");
    cpu.set_mode(0x13);
    assert_eq!(cpu.r[13], 0x0300_7FE0, "SVC SP not smashed");
}

#[test]
fn sqrt_is_integer_floor() {
    assert_eq!(isqrt_u32(0), 0);
    assert_eq!(isqrt_u32(1), 1);
    assert_eq!(isqrt_u32(3), 1);
    assert_eq!(isqrt_u32(4), 2);
    assert_eq!(isqrt_u32(10), 3);
    assert_eq!(isqrt_u32(0xFFFF), 0xFF);
    assert_eq!(isqrt_u32(0x1_0000), 0x100);
    assert_eq!(isqrt_u32(u32::MAX), 0xFFFF);
    let (mut cpu, mut bus) = harness();
    cpu.r[0] = 200;
    dispatch(&mut cpu, &mut bus, 0x08);
    assert_eq!(cpu.r[0], 14);
}

#[test]
fn ram_reset_keeps_irq_vector() {
    let (mut cpu, mut bus) = harness();
    bus.write32(0x0300_7FFC, 0x0800_1234);
    bus.write8(0x0300_1000, 0xAB);
    cpu.r[0] = 0x02;
    register_ram_reset(&mut cpu, &mut bus);
    assert_eq!(bus.read8(0x0300_1000), 0);
    assert_eq!(bus.read32(0x0300_7FFC), 0x0800_1234);
}

#[test]
fn soft_reset_honors_ram_boot_flag() {
    let (mut cpu, mut bus) = harness();
    bus.write8(0x0300_7FFA, 1);
    cpu.r[0] = 0xDEAD;
    soft_reset(&mut cpu, &mut bus);
    assert_eq!(cpu.pc(), 0x0200_0000);
    assert_eq!(cpu.r[0], 0);
    assert_eq!(cpu.cpsr.mode & 0x1F, 0x1F);
    assert_eq!(cpu.r[13], 0x0300_7F00);
    assert_eq!(bus.read8(0x0300_7FFA), 0, "flag region is wiped");
}
