//! Interrupts.

use fairy_lantern::bus::Bus;
use fairy_lantern::cart::Cart;
use fairy_lantern::cpu::Cpu;
use fairy_lantern::irq::{check, raise, IRQ_VBLANK};

fn harness() -> (Cpu, Bus) {
    let cart = Cart {
        data: vec![0u8; 0x200],
        title: "t".into(),
        game_code: "T".into(),
        maker: "00".into(),
        path: "m".into(),
        inner_name: None,
    };
    let mut cpu = Cpu::new();
    cpu.set_mode(0x1F);
    cpu.cpsr.irq_disable = false;
    cpu.cpsr.thumb = false;
    cpu.set_pc(0x0800_0000);
    cpu.r[13] = 0x0300_7F00;
    let mut bus = Bus::new(&cart, None);
    bus.write32(0x0300_7FFC, 0x0800_1000);
    bus.write16(0x0400_0200, IRQ_VBLANK);
    bus.write16(0x0400_0208, 1);
    (cpu, bus)
}

#[test]
fn irq_waits_two_cycles_after_pending() {
    let (mut cpu, mut bus) = harness();
    raise(&mut bus, IRQ_VBLANK);
    check(&mut cpu, &mut bus, 1);
    assert_eq!(cpu.cpsr.mode & 0x1F, 0x1F, "1 cycle is not enough");
    assert_eq!(cpu.pc(), 0x0800_0000);
    check(&mut cpu, &mut bus, 1);
    assert_eq!(cpu.cpsr.mode & 0x1F, 0x12, "2nd cycle takes IRQ");
    assert_eq!(cpu.pc(), 0x0800_1000);
}

#[test]
fn halt_slice_takes_irq_immediately() {
    let (mut cpu, mut bus) = harness();
    raise(&mut bus, IRQ_VBLANK);
    check(&mut cpu, &mut bus, 64);
    assert_eq!(cpu.cpsr.mode & 0x1F, 0x12);
    assert_eq!(cpu.pc(), 0x0800_1000);
}

#[test]
fn ime_off_resets_delay() {
    let (mut cpu, mut bus) = harness();
    raise(&mut bus, IRQ_VBLANK);
    check(&mut cpu, &mut bus, 1);
    bus.write16(0x0400_0208, 0);
    check(&mut cpu, &mut bus, 1);
    assert_eq!(cpu.cpsr.mode & 0x1F, 0x1F);
    assert_eq!(bus.irq_countdown, 0);
}
