//! Instructions and modes.

use fairy_lantern::bus::Bus;
use fairy_lantern::cart::Cart;
use fairy_lantern::cpu::Cpu;

fn cart_with(ops: &[u32]) -> Cart {
    let mut data = vec![0u8; 0x200];
    for (i, op) in ops.iter().enumerate() {
        data[i * 4..i * 4 + 4].copy_from_slice(&op.to_le_bytes());
    }
    Cart {
        data,
        title: "t".into(),
        game_code: "T".into(),
        maker: "00".into(),
        path: "m".into(),
        inner_name: None,
    }
}

#[test]
fn msr_cpsr_does_not_set_thumb() {
    // AL MSR CPSR_c, #0x3F  — SYS + T. Hardware ignores T on MSR.
    let cart = cart_with(&[0xE321_F03F]);
    let mut cpu = Cpu::new();
    let mut bus = Bus::new(&cart, None);
    cpu.set_mode(0x1F);
    cpu.cpsr.thumb = false;
    cpu.set_pc(0x0800_0000);
    cpu.step(&mut bus);
    assert!(!cpu.cpsr.thumb, "MSR must not enter Thumb");
    assert_eq!(cpu.cpsr.mode, 0x1F);
    assert_eq!(cpu.unknown_ops, 0);
}

#[test]
fn usr_msr_cannot_change_mode() {
    // AL MSR CPSR_c, #0x13  from USR
    let cart = cart_with(&[0xE321_F013]);
    let mut cpu = Cpu::new();
    let mut bus = Bus::new(&cart, None);
    cpu.set_mode(0x10);
    cpu.cpsr.irq_disable = false;
    cpu.set_pc(0x0800_0000);
    cpu.step(&mut bus);
    assert_eq!(cpu.cpsr.mode, 0x10, "USR cannot MSR the control field");
    assert!(!cpu.cpsr.irq_disable);
}

#[test]
fn msr_imm_sets_sys_mode() {
    // AL MSR CPSR_c, #0x1F  (System, I/F clear)
    let cart = cart_with(&[0xE321_F01F]);
    let mut cpu = Cpu::new();
    let mut bus = Bus::new(&cart, None);
    assert_eq!(cpu.cpsr.mode, 0x13, "reset is SVC");
    assert!(cpu.cpsr.irq_disable);
    cpu.set_pc(0x0800_0000);
    cpu.step(&mut bus);
    assert_eq!(cpu.cpsr.mode, 0x1F, "MSR #imm must change mode");
    assert!(!cpu.cpsr.irq_disable);
    assert!(!cpu.cpsr.fiq_disable);
    assert!(!cpu.cpsr.thumb);
    assert_eq!(cpu.unknown_ops, 0);
}

#[test]
fn msr_imm_sets_irq_disable() {
    // AL MSR CPSR_c, #0xDF  (System + I + F)
    let cart = cart_with(&[0xE321_F0DF]);
    let mut cpu = Cpu::new();
    let mut bus = Bus::new(&cart, None);
    cpu.set_mode(0x1F);
    cpu.cpsr.irq_disable = false;
    cpu.cpsr.fiq_disable = false;
    cpu.set_pc(0x0800_0000);
    cpu.step(&mut bus);
    assert_eq!(cpu.cpsr.mode, 0x1F);
    assert!(cpu.cpsr.irq_disable);
    assert!(cpu.cpsr.fiq_disable);
    assert_eq!(cpu.unknown_ops, 0);
}

#[test]
fn strb_reg_offset_uses_rm_not_imm() {
    // STRB r0, [r5, r6]  — must write r5+r6, not r5+(r6 as rotated imm8).
    // m4a reverb is this encoding with r6 = PCM_DMA_BUF_SIZE (1584).
    let cart = cart_with(&[0xE7C5_0006]);
    let mut cpu = Cpu::new();
    let mut bus = Bus::new(&cart, None);
    cpu.set_mode(0x1F);
    cpu.r[0] = 0xAB;
    cpu.r[5] = 0x0300_0000;
    cpu.r[6] = 1584;
    cpu.set_pc(0x0800_0000);
    cpu.step(&mut bus);
    assert_eq!(bus.read8(0x0300_0000 + 1584), 0xAB, "STRB [r5, r6] → r5+1584");
    assert_eq!(
        bus.read8(0x0300_0006),
        0,
        "must not treat Rm as an 8-bit immediate (r5+6)"
    );
    assert_eq!(cpu.unknown_ops, 0);
}

#[test]
fn data_proc_reg_shift_costs_extra_cycle() {
    // MOV r0, r1, LSL r2  vs  MOV r0, r1
    let cart = cart_with(&[0xE1A0_0211, 0xE1A0_0001]);
    let mut cpu = Cpu::new();
    let mut bus = Bus::new(&cart, None);
    cpu.set_mode(0x1F);
    cpu.r[1] = 4;
    cpu.r[2] = 1;
    cpu.set_pc(0x0300_0000);
    bus.write32(0x0300_0000, 0xE1A0_0211);
    bus.write32(0x0300_0004, 0xE1A0_0001);
    let c_shift = cpu.step(&mut bus);
    assert_eq!(cpu.r[0], 8);
    cpu.set_pc(0x0300_0004);
    let c_mov = cpu.step(&mut bus);
    assert_eq!(c_shift, c_mov + 1, "Rs shift is +1 I-cycle");
    assert_eq!(cpu.unknown_ops, 0);
}

#[test]
fn ldr_reg_lsl_offset() {
    // LDR r2, [r0, r1, LSL #2]
    let cart = cart_with(&[0xE790_2101]);
    let mut cpu = Cpu::new();
    let mut bus = Bus::new(&cart, None);
    cpu.set_mode(0x1F);
    bus.write32(0x0300_0010, 0x1234_5678);
    cpu.r[0] = 0x0300_0000;
    cpu.r[1] = 4;
    cpu.set_pc(0x0800_0000);
    cpu.step(&mut bus);
    assert_eq!(cpu.r[2], 0x1234_5678);
    assert_eq!(cpu.unknown_ops, 0);
}

#[test]
fn ldr_pc_stays_arm_on_v4() {
    // LDR r15, [r0]  — word at [r0] has bit 0 set; must NOT enter Thumb.
    let cart = cart_with(&[0xE590_F000]);
    let mut cpu = Cpu::new();
    let mut bus = Bus::new(&cart, None);
    bus.write32(0x0300_0000, 0x0800_0001);
    cpu.set_mode(0x1F);
    cpu.r[0] = 0x0300_0000;
    cpu.set_pc(0x0800_0000);
    cpu.step(&mut bus);
    assert!(!cpu.cpsr.thumb, "ARMv4 LDR PC ignores bit 0");
    assert_eq!(cpu.r[15] & 3, 0);
    assert_eq!(cpu.unknown_ops, 0);
}

#[test]
fn fiq_banks_r8_and_r13() {
    let mut cpu = Cpu::new();
    cpu.set_mode(0x1F);
    cpu.r[8] = 0x1111_1111;
    cpu.r[13] = 0xAAAA_0000;
    cpu.set_mode(0x11); // FIQ
    cpu.r[8] = 0x2222_2222;
    cpu.r[13] = 0xBBBB_0000;
    cpu.set_mode(0x1F);
    assert_eq!(cpu.r[8], 0x1111_1111, "USR R8 restored");
    assert_eq!(cpu.r[13], 0xAAAA_0000, "USR R13 restored");
    cpu.set_mode(0x11);
    assert_eq!(cpu.r[8], 0x2222_2222, "FIQ R8 restored");
    assert_eq!(cpu.r[13], 0xBBBB_0000, "FIQ R13 restored");
}

#[test]
fn und_does_not_clobber_usr_sp() {
    let mut cpu = Cpu::new();
    cpu.set_mode(0x1F);
    cpu.r[13] = 0x0300_7F00;
    cpu.set_mode(0x1B); // UND
    cpu.r[13] = 0xDEAD_BEEF;
    cpu.set_mode(0x1F);
    assert_eq!(cpu.r[13], 0x0300_7F00);
}

#[test]
fn stm_user_bank_stores_usr_sp() {
    // STMIA r0, {r13}^
    let cart = cart_with(&[0xE8C0_2000]);
    let mut cpu = Cpu::new();
    let mut bus = Bus::new(&cart, None);
    cpu.set_mode(0x1F);
    cpu.r[13] = 0x1111_1111;
    cpu.set_mode(0x12); // IRQ
    cpu.r[13] = 0x2222_2222;
    cpu.r[0] = 0x0300_0000;
    cpu.set_pc(0x0800_0000);
    cpu.step(&mut bus);
    assert_eq!(bus.read32(0x0300_0000), 0x1111_1111);
    assert_eq!(cpu.r[13], 0x2222_2222, "IRQ SP unchanged");
}

#[test]
fn ldm_user_bank_loads_usr_sp() {
    // LDMIA r0, {r13}^
    let cart = cart_with(&[0xE8D0_2000]);
    let mut cpu = Cpu::new();
    let mut bus = Bus::new(&cart, None);
    cpu.set_mode(0x1F);
    cpu.r[13] = 0x1111_1111;
    cpu.set_mode(0x12);
    cpu.r[13] = 0x2222_2222;
    cpu.r[0] = 0x0300_0000;
    bus.write32(0x0300_0000, 0x3333_3333);
    cpu.set_pc(0x0800_0000);
    cpu.step(&mut bus);
    assert_eq!(cpu.r[13], 0x2222_2222, "IRQ SP not overwritten");
    assert_eq!(cpu.r13_usr, 0x3333_3333);
}

#[test]
fn ldrh_unaligned_rors() {
    // LDRH r0, [r1]
    let cart = cart_with(&[0xE1D1_00B0]);
    let mut cpu = Cpu::new();
    let mut bus = Bus::new(&cart, None);
    bus.write16(0x0300_0000, 0x1234);
    cpu.r[1] = 0x0300_0001;
    cpu.set_pc(0x0800_0000);
    cpu.step(&mut bus);
    assert_eq!(cpu.unknown_ops, 0, "must decode LDRH");
    assert_eq!(cpu.r[0], 0x3400_0012, "unaligned LDRH is 32-bit ROR 8");
}

#[test]
fn thumb_ldrh_unaligned_rors() {
    // LDRH r0, [r1, #0]
    let mut mem = vec![0u8; 0x100];
    mem[0..2].copy_from_slice(&0x8808u16.to_le_bytes());
    let cart = cart_with(&[]);
    let mut cpu = Cpu::new();
    let mut bus = Bus::new(&cart, None);
    bus.iwram[..mem.len()].copy_from_slice(&mem);
    bus.write16(0x0300_0010, 0x1234);
    cpu.cpsr.thumb = true;
    cpu.r[1] = 0x0300_0011;
    cpu.set_pc(0x0300_0000);
    cpu.step(&mut bus);
    assert_eq!(cpu.r[0], 0x3400_0012, "Thumb unaligned LDRH is 32-bit ROR 8");
}

#[test]
fn thumb_ldmia_skips_writeback_when_rb_in_list() {
    // LDMIA r0!, {r0, r1}  — r0 must keep the loaded word, not r0+8.
    let mut mem = vec![0u8; 0x100];
    mem[0..2].copy_from_slice(&0xC803u16.to_le_bytes());
    let cart = cart_with(&[]);
    let mut cpu = Cpu::new();
    let mut bus = Bus::new(&cart, None);
    bus.iwram[..mem.len()].copy_from_slice(&mem);
    bus.write32(0x0300_0010, 0x1111_1111);
    bus.write32(0x0300_0014, 0x2222_2222);
    cpu.cpsr.thumb = true;
    cpu.r[0] = 0x0300_0010;
    cpu.set_pc(0x0300_0000);
    cpu.step(&mut bus);
    assert_eq!(cpu.r[0], 0x1111_1111, "loaded value wins over writeback");
    assert_eq!(cpu.r[1], 0x2222_2222);
    assert_eq!(cpu.unknown_ops, 0);
}

#[test]
fn arm_ldm_skips_writeback_when_rn_in_list() {
    // LDMIA r0!, {r0, r1}
    let cart = cart_with(&[0xE8B0_0003]);
    let mut cpu = Cpu::new();
    let mut bus = Bus::new(&cart, None);
    bus.write32(0x0300_0010, 0x1111_1111);
    bus.write32(0x0300_0014, 0x2222_2222);
    cpu.set_mode(0x1F);
    cpu.r[0] = 0x0300_0010;
    cpu.set_pc(0x0800_0000);
    cpu.step(&mut bus);
    assert_eq!(cpu.r[0], 0x1111_1111, "loaded value wins over writeback");
    assert_eq!(cpu.r[1], 0x2222_2222);
    assert_eq!(cpu.unknown_ops, 0);
}

#[test]
fn arm_stm_stores_old_base_when_rn_first() {
    // STMIA r0!, {r0, r1}
    let cart = cart_with(&[0xE8A0_0003]);
    let mut cpu = Cpu::new();
    let mut bus = Bus::new(&cart, None);
    cpu.set_mode(0x1F);
    cpu.r[0] = 0x0300_0020;
    cpu.r[1] = 0xABCD_0001;
    cpu.set_pc(0x0800_0000);
    cpu.step(&mut bus);
    assert_eq!(bus.read32(0x0300_0020), 0x0300_0020, "first is old base");
    assert_eq!(bus.read32(0x0300_0024), 0xABCD_0001);
    assert_eq!(cpu.r[0], 0x0300_0028);
}

#[test]
fn thumb_ldrh_reg_unaligned_rors() {
    // LDRH r0, [r1, r2]
    let mut mem = vec![0u8; 0x100];
    mem[0..2].copy_from_slice(&0x5A88u16.to_le_bytes());
    let cart = cart_with(&[]);
    let mut cpu = Cpu::new();
    let mut bus = Bus::new(&cart, None);
    bus.iwram[..mem.len()].copy_from_slice(&mem);
    bus.write16(0x0300_0010, 0x1234);
    cpu.cpsr.thumb = true;
    cpu.r[1] = 0x0300_0011;
    cpu.r[2] = 0;
    cpu.set_pc(0x0300_0000);
    cpu.step(&mut bus);
    assert_eq!(cpu.r[0], 0x3400_0012);
    assert_eq!(cpu.unknown_ops, 0);
}

#[test]
fn thumb_stmia_always_writebacks() {
    // STMIA r0!, {r1}  — r0 advances even though r0 is not stored.
    let mut mem = vec![0u8; 0x100];
    mem[0..2].copy_from_slice(&0xC002u16.to_le_bytes());
    let cart = cart_with(&[]);
    let mut cpu = Cpu::new();
    let mut bus = Bus::new(&cart, None);
    bus.iwram[..mem.len()].copy_from_slice(&mem);
    cpu.cpsr.thumb = true;
    cpu.r[0] = 0x0300_0020;
    cpu.r[1] = 0xABCD_EF01;
    cpu.set_pc(0x0300_0000);
    cpu.step(&mut bus);
    assert_eq!(bus.read32(0x0300_0020), 0xABCD_EF01);
    assert_eq!(cpu.r[0], 0x0300_0024);
}

#[test]
fn ldrsh_unaligned_is_ldrsb() {
    // LDRSH r0, [r1]
    let cart = cart_with(&[0xE1D1_00F0]);
    let mut cpu = Cpu::new();
    let mut bus = Bus::new(&cart, None);
    bus.write8(0x0300_0001, 0x80);
    cpu.r[1] = 0x0300_0001;
    cpu.set_pc(0x0800_0000);
    cpu.step(&mut bus);
    assert_eq!(cpu.r[0], 0xFFFF_FF80, "unaligned LDRSH is LDRSB");
}
