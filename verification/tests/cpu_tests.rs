use rgb::cpu::Cpu;

#[test]
fn test_ld_bc_d16() {
    let mut cpu = Cpu::new();
    cpu.mmap.write(0x0000, 0x01);
    cpu.mmap.write(0x0001, 0x34);
    cpu.mmap.write(0x0002, 0x12);

    let instruction = cpu.decode().unwrap();
    cpu.execute(instruction);

    assert_eq!(cpu.registers.b, 0x12);
    assert_eq!(cpu.registers.c, 0x34);
    assert_eq!(cpu.pc, 3);
}

#[test]
fn test_ld_de_d16() {
    let mut cpu = Cpu::new();
    cpu.mmap.write(0x0000, 0x11);
    cpu.mmap.write(0x0001, 0xAB);
    cpu.mmap.write(0x0002, 0xCD);

    let instruction = cpu.decode().unwrap();
    cpu.execute(instruction);

    assert_eq!(cpu.registers.d, 0xCD);
    assert_eq!(cpu.registers.e, 0xAB);
    assert_eq!(cpu.pc, 3);
}

#[test]
fn test_ld_hl_d16() {
    let mut cpu = Cpu::new();
    cpu.mmap.write(0x0000, 0x21);
    cpu.mmap.write(0x0001, 0x56);
    cpu.mmap.write(0x0002, 0x78);

    let instruction = cpu.decode().unwrap();
    cpu.execute(instruction);

    assert_eq!(cpu.registers.h, 0x78);
    assert_eq!(cpu.registers.l, 0x56);
    assert_eq!(cpu.pc, 3);
}

#[test]
fn test_ld_sp_d16() {
    let mut cpu = Cpu::new();
    cpu.mmap.write(0x0000, 0x31);
    cpu.mmap.write(0x0001, 0xFF);
    cpu.mmap.write(0x0002, 0xFE);

    let instruction = cpu.decode().unwrap();
    cpu.execute(instruction);

    assert_eq!(cpu.sp, 0xFEFF);
    assert_eq!(cpu.pc, 3);
}

#[test]
fn test_ld_b_d8() {
    let mut cpu = Cpu::new();
    cpu.mmap.write(0x0000, 0x06);
    cpu.mmap.write(0x0001, 0x42);

    let instruction = cpu.decode().unwrap();
    cpu.execute(instruction);

    assert_eq!(cpu.registers.b, 0x42);
    assert_eq!(cpu.pc, 2);
}

#[test]
fn test_ld_a_d8() {
    let mut cpu = Cpu::new();
    cpu.mmap.write(0x0000, 0x3E);
    cpu.mmap.write(0x0001, 0xFF);

    let instruction = cpu.decode().unwrap();
    cpu.execute(instruction);

    assert_eq!(cpu.registers.a, 0xFF);
    assert_eq!(cpu.pc, 2);
}

#[test]
fn test_ld_b_c() {
    let mut cpu = Cpu::new();
    cpu.registers.c = 0x35;
    cpu.mmap.write(0x0000, 0x41);

    let instruction = cpu.decode().unwrap();
    cpu.execute(instruction);

    assert_eq!(cpu.registers.b, 0x35);
    assert_eq!(cpu.pc, 1);
}

#[test]
fn test_ld_a_h() {
    let mut cpu = Cpu::new();
    cpu.registers.h = 0x99;
    cpu.mmap.write(0x0000, 0x7C);

    let instruction = cpu.decode().unwrap();
    cpu.execute(instruction);

    assert_eq!(cpu.registers.a, 0x99);
    assert_eq!(cpu.pc, 1);
}

#[test]
fn test_ld_a_a() {
    let mut cpu = Cpu::new();
    cpu.registers.a = 0x77;
    cpu.mmap.write(0x0000, 0x7F);

    let instruction = cpu.decode().unwrap();
    cpu.execute(instruction);

    assert_eq!(cpu.registers.a, 0x77);
    assert_eq!(cpu.pc, 1);
}

#[test]
fn test_undefined_opcode_decodes_to_none() {
    let mut cpu = Cpu::new();
    cpu.mmap.write(0x0000, 0xD3);
    assert!(cpu.decode().is_none());
    assert_eq!(cpu.pc, 0);
}

#[test]
fn test_push_pop_roundtrip() {
    let mut cpu = Cpu::new();
    cpu.sp = 0xFFFE;
    cpu.push_stack(0x1234);
    assert_eq!(cpu.sp, 0xFFFC);
    let value = cpu.pop_stack();
    assert_eq!(value, 0x1234);
    assert_eq!(cpu.sp, 0xFFFE);
}

#[test]
fn test_push_pop_af_masks_low_nibble() {
    let mut cpu = Cpu::new();
    cpu.sp = 0xFFFE;
    cpu.registers.set_af(0x12FF);
    // The flags register has no low nibble to keep.
    assert_eq!(cpu.registers.get_af(), 0x12F0);
    // PUSH AF; POP AF through the real stack.
    cpu.mmap.write(0x0000, 0xF5);
    cpu.mmap.write(0x0001, 0xF1);
    let push = cpu.decode().unwrap();
    cpu.execute(push);
    cpu.registers.set_af(0x0000);
    let pop = cpu.decode().unwrap();
    cpu.execute(pop);
    assert_eq!(cpu.registers.get_af(), 0x12F0);
}

#[test]
fn test_add_flags_exact() {
    let mut cpu = Cpu::new();
    cpu.registers.a = 0x3C;
    let r = cpu.add(0xC4);
    assert_eq!(r, 0x00);
    assert!(cpu.registers.f.zero);
    assert!(!cpu.registers.f.subtract);
    assert!(cpu.registers.f.half_carry);
    assert!(cpu.registers.f.carry);

    cpu.registers.a = 0x08;
    let r2 = cpu.add(0x07);
    assert_eq!(r2, 0x0F);
    assert!(!cpu.registers.f.zero);
    assert!(!cpu.registers.f.half_carry);
    assert!(!cpu.registers.f.carry);
}

#[test]
fn test_oam_dma_copies_pattern() {
    let mut cpu = Cpu::new();
    for i in 0..0xA0u16 {
        cpu.mmap.write(0xC300 + i, (i as u8).wrapping_mul(7).wrapping_add(3));
    }
    cpu.mmap.write(0xFF46, 0xC3);
    for i in 0..0xA0u16 {
        assert_eq!(
            cpu.mmap.read(0xFE00 + i),
            (i as u8).wrapping_mul(7).wrapping_add(3)
        );
    }
}

#[test]
fn test_echo_ram_mirrors_work_ram() {
    let mut cpu = Cpu::new();
    cpu.mmap.write(0xC123, 0x5A);
    assert_eq!(cpu.mmap.read(0xE123), 0x5A);
    cpu.mmap.write(0xE200, 0x77);
    assert_eq!(cpu.mmap.read(0xC200), 0x77);
}

#[test]
fn test_unusable_region_reads_ff() {
    let mut cpu = Cpu::new();
    cpu.mmap.write(0xFEA5, 0x12);
    assert_eq!(cpu.mmap.read(0xFEA5), 0xFF);
}

#[test]
fn test_if_register_upper_bits() {
    let mut cpu = Cpu::new();
    cpu.mmap.write(0xFF0F, 0x01);
    assert_eq!(cpu.mmap.read(0xFF0F), 0xE1);
}

#[test]
fn test_ei_delay_dispatches_after_following_instruction() {
    let mut cpu = Cpu::new();
    cpu.sp = 0xFFFE;
    cpu.mmap.write(0xFFFF, 0x01);
    cpu.mmap.write(0xFF0F, 0x01);
    cpu.mmap.write(0x0000, 0xFB); // EI
    cpu.mmap.write(0x0001, 0x00); // NOP

    cpu.step_instruction().unwrap(); // EI
    assert!(!cpu.ime);
    assert_eq!(cpu.pc, 1);

    cpu.step_instruction().unwrap(); // NOP, then dispatch
    assert_eq!(cpu.pc, 0x0040);
    assert_eq!(cpu.sp, 0xFFFC);
}

#[test]
fn test_di_blocks_dispatch_and_cancels_pending_ei() {
    let mut cpu = Cpu::new();
    cpu.sp = 0xFFFE;
    cpu.ei_delay = true;
    cpu.mmap.write(0xFFFF, 0x01);
    cpu.mmap.write(0xFF0F, 0x01);
    cpu.mmap.write(0x0000, 0xF3); // DI
    cpu.mmap.write(0x0001, 0x00); // NOP

    cpu.step_instruction().unwrap(); // DI
    assert!(!cpu.ime);
    assert!(!cpu.ei_delay);
    assert_eq!(cpu.pc, 1);

    cpu.step_instruction().unwrap(); // NOP: still no dispatch
    assert_eq!(cpu.pc, 2);
}

#[test]
fn test_halt_bug_reexecutes_next_opcode() {
    let mut cpu = Cpu::new();
    cpu.pc = 0x0100;
    cpu.registers.a = 0x00;
    cpu.mmap.write(0xFF0F, 0x01);
    cpu.mmap.write(0xFFFF, 0x01);
    cpu.mmap.write(0x0100, 0x76); // HALT
    cpu.mmap.write(0x0101, 0x3C); // INC A

    cpu.step_instruction().unwrap(); // HALT arms the bug, does not halt
    assert!(!cpu.halted);
    assert!(cpu.halt_bug);
    assert_eq!(cpu.pc, 0x0101);

    cpu.step_instruction().unwrap(); // INC A fetched without advancing PC
    assert_eq!(cpu.registers.a, 1);
    assert_eq!(cpu.pc, 0x0101);

    cpu.step_instruction().unwrap(); // INC A again, PC now moves on
    assert_eq!(cpu.registers.a, 2);
    assert_eq!(cpu.pc, 0x0102);
}

#[test]
fn test_vblank_interrupt_dispatch() {
    let mut cpu = Cpu::new();
    cpu.pc = 0x0150;
    cpu.sp = 0xFFFE;
    cpu.ime = true;
    cpu.mmap.write(0xFFFF, 0x01);
    // A tight loop at 0x0150; only the VBlank dispatch can leave it.
    cpu.mmap.write(0x0150, 0x18);
    cpu.mmap.write(0x0151, 0xFE);
    let mut steps = 0u32;
    while cpu.pc != 0x0040 && steps < 40000 {
        cpu.step_instruction().unwrap();
        steps += 1;
    }
    assert_eq!(cpu.pc, 0x0040);
    assert_eq!(cpu.sp, 0xFFFC);
    // The serviced VBlank bit is cleared again.
    assert_eq!(cpu.mmap.read(0xFF0F) & 0x01, 0);
}
