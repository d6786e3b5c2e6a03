use rgb::cpu::Cpu;

#[test]
fn test_inc_a() {
    let mut cpu = Cpu::new();
    cpu.registers.a = 0x0F;
    cpu.mmap.write(0x0000, 0x3C); // INC A

    let instruction = cpu.decode().unwrap();
    let cycles = cpu.execute(instruction);

    assert_eq!(cpu.registers.a, 0x10);
    assert!(!cpu.registers.f.zero);
    assert!(cpu.registers.f.half_carry);
    assert!(!cpu.registers.f.subtract);
    assert_eq!(cpu.pc, 1);
    assert_eq!(cycles, 4);
}

#[test]
fn test_inc_b_zero_flag() {
    let mut cpu = Cpu::new();
    cpu.registers.b = 0xFF;
    cpu.mmap.write(0x0000, 0x04); // INC B

    let instruction = cpu.decode().unwrap();
    cpu.execute(instruction);

    assert_eq!(cpu.registers.b, 0x00);
    assert!(cpu.registers.f.zero);
    assert!(cpu.registers.f.half_carry);
    assert!(!cpu.registers.f.subtract);
    assert_eq!(cpu.pc, 1);
}

#[test]
fn test_bit_0_b_set() {
    let mut cpu = Cpu::new();
    cpu.registers.b = 0x01;
    cpu.mmap.write(0x0000, 0xCB);
    cpu.mmap.write(0x0001, 0x40); // BIT 0,B

    let instruction = cpu.decode().unwrap();
    cpu.execute(instruction);

    assert!(!cpu.registers.f.zero);
    assert!(!cpu.registers.f.subtract);
    assert!(cpu.registers.f.half_carry);
    assert_eq!(cpu.pc, 2);
}

#[test]
fn test_bit_0_b_clear() {
    let mut cpu = Cpu::new();
    cpu.registers.b = 0xFE;
    cpu.mmap.write(0x0000, 0xCB);
    cpu.mmap.write(0x0001, 0x40); // BIT 0,B

    let instruction = cpu.decode().unwrap();
    cpu.execute(instruction);

    assert!(cpu.registers.f.zero);
    assert!(!cpu.registers.f.subtract);
    assert!(cpu.registers.f.half_carry);
    assert_eq!(cpu.pc, 2);
}

#[test]
fn test_jp_always() {
    let mut cpu = Cpu::new();
    cpu.mmap.write(0x0000, 0xC3);
    cpu.mmap.write(0x0001, 0x34);
    cpu.mmap.write(0x0002, 0x12);

    let instruction = cpu.decode().unwrap();
    cpu.execute(instruction);

    assert_eq!(cpu.pc, 0x1234);
}

#[test]
fn test_jp_zero_condition_true() {
    let mut cpu = Cpu::new();
    cpu.registers.f.zero = true;
    cpu.mmap.write(0x0000, 0xCA);
    cpu.mmap.write(0x0001, 0x78);
    cpu.mmap.write(0x0002, 0x56);

    let instruction = cpu.decode().unwrap();
    cpu.execute(instruction);

    assert_eq!(cpu.pc, 0x5678);
}

#[test]
fn test_jp_zero_condition_false() {
    let mut cpu = Cpu::new();
    cpu.registers.f.zero = false;
    cpu.mmap.write(0x0000, 0xCA);
    cpu.mmap.write(0x0001, 0x78);
    cpu.mmap.write(0x0002, 0x56);

    let instruction = cpu.decode().unwrap();
    cpu.execute(instruction);

    assert_eq!(cpu.pc, 3);
}

#[test]
fn test_call_and_ret() {
    let mut cpu = Cpu::new();
    cpu.pc = 0x100;
    cpu.sp = 0xFFFE;
    cpu.mmap.write(0x0100, 0xCD);
    cpu.mmap.write(0x0101, 0x00);
    cpu.mmap.write(0x0102, 0x02);

    let instruction = cpu.decode().unwrap();
    cpu.execute(instruction);

    assert_eq!(cpu.pc, 0x0200);
    assert_eq!(cpu.sp, 0xFFFC);
    // The pushed return address, low byte first.
    assert_eq!(cpu.mmap.read(0xFFFC), 0x03);
    assert_eq!(cpu.mmap.read(0xFFFD), 0x01);

    cpu.mmap.write(0x0200, 0xC9);

    let instruction = cpu.decode().unwrap();
    cpu.execute(instruction);

    assert_eq!(cpu.pc, 0x103);
    assert_eq!(cpu.sp, 0xFFFE);
}

#[test]
fn test_halt() {
    let mut cpu = Cpu::new();
    cpu.mmap.write(0x0000, 0x76); // HALT

    let instruction = cpu.decode().unwrap();
    cpu.execute(instruction);

    assert!(cpu.halted);
    assert_eq!(cpu.pc, 1);
}

#[test]
fn test_jr_not_taken() {
    let mut cpu = Cpu::new();
    cpu.registers.f.zero = false;
    cpu.mmap.write(0x0000, 0x28); // JR Z,+5
    cpu.mmap.write(0x0001, 0x05);

    let instruction = cpu.decode().unwrap();
    let cycles = cpu.execute(instruction);

    assert_eq!(cpu.pc, 2);
    assert_eq!(cycles, 8);
}

#[test]
fn test_daa_after_add() {
    let mut cpu = Cpu::new();
    // 0x15 + 0x27 in BCD is 0x42.
    cpu.registers.a = 0x15;
    let r = cpu.add(0x27);
    cpu.registers.a = r;
    cpu.mmap.write(0x0000, 0x27); // DAA
    let instruction = cpu.decode().unwrap();
    cpu.execute(instruction);
    assert_eq!(cpu.registers.a, 0x42);
}

#[test]
fn test_swap_nibbles() {
    let mut cpu = Cpu::new();
    cpu.registers.a = 0xF1;
    cpu.mmap.write(0x0000, 0xCB);
    cpu.mmap.write(0x0001, 0x37); // SWAP A

    let instruction = cpu.decode().unwrap();
    cpu.execute(instruction);

    assert_eq!(cpu.registers.a, 0x1F);
    assert!(!cpu.registers.f.carry);
}

#[test]
fn test_rlca_carries_high_bit() {
    let mut cpu = Cpu::new();
    cpu.registers.a = 0x85;
    cpu.mmap.write(0x0000, 0x07); // RLCA

    let instruction = cpu.decode().unwrap();
    cpu.execute(instruction);

    assert_eq!(cpu.registers.a, 0x0B);
    assert!(cpu.registers.f.carry);
    assert!(!cpu.registers.f.zero);
}

#[test]
fn test_bit_7_hl_reads_memory() {
    let mut cpu = Cpu::new();
    cpu.registers.set_hl(0xC123);
    cpu.mmap.write(0xC123, 0x80);
    cpu.mmap.write(0x0000, 0xCB);
    cpu.mmap.write(0x0001, 0x7E); // BIT 7,(HL)

    let instruction = cpu.decode().unwrap();
    let cycles = cpu.execute(instruction);

    assert!(!cpu.registers.f.zero); // bit 7 is set
    assert!(cpu.registers.f.half_carry);
    assert_eq!(cpu.pc, 2);
    assert_eq!(cycles, 12);

    // And the zero case.
    cpu.mmap.write(0xC123, 0x7F);
    cpu.mmap.write(0x0002, 0xCB);
    cpu.mmap.write(0x0003, 0x7E);
    let instruction = cpu.decode().unwrap();
    cpu.execute(instruction);
    assert!(cpu.registers.f.zero);
}

#[test]
fn test_set_and_res_on_hl_write_memory() {
    let mut cpu = Cpu::new();
    cpu.registers.set_hl(0xC200);
    cpu.mmap.write(0xC200, 0x00);
    cpu.mmap.write(0x0000, 0xCB);
    cpu.mmap.write(0x0001, 0xDE); // SET 3,(HL)

    let instruction = cpu.decode().unwrap();
    let cycles = cpu.execute(instruction);
    assert_eq!(cpu.mmap.read(0xC200), 0x08);
    assert_eq!(cycles, 16);

    cpu.mmap.write(0x0002, 0xCB);
    cpu.mmap.write(0x0003, 0x9E); // RES 3,(HL)
    let instruction = cpu.decode().unwrap();
    cpu.execute(instruction);
    assert_eq!(cpu.mmap.read(0xC200), 0x00);
}
