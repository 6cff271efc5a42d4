use emulator::cpu::{CpuError, CPU};
use emulator::instruction::{ArithmeticTarget, Instruction};
use emulator::ram::RAM;
use emulator::register::Flags;

// Helper function to create a CPU with specific initial state
fn create_cpu_with_state(
    a: u8, b: u8, c: u8, d: u8, e: u8, f: u8, h: u8, l: u8,
    sp: u16, pc: u16, ram: &mut RAM
) -> CPU<'_> {
    let mut cpu = CPU::new(ram);
    cpu.registers.set_a(a);
    cpu.registers.set_b(b);
    cpu.registers.set_c(c);
    cpu.registers.set_d(d);
    cpu.registers.set_e(e);
    cpu.registers.set_f(f);
    cpu.registers.set_h(h);
    cpu.registers.set_l(l);
    cpu.registers.set_sp(sp);
    cpu.registers.set_pc(pc);
    cpu
}

// Helper function to check register values
fn assert_registers(
    cpu: &CPU,
    a: u8, b: u8, c: u8, d: u8, e: u8, f: u8, h: u8, l: u8,
    sp: u16, pc: u16
) {
    assert_eq!(cpu.registers.get_a(), a, "Register A mismatch");
    assert_eq!(cpu.registers.get_b(), b, "Register B mismatch");
    assert_eq!(cpu.registers.get_c(), c, "Register C mismatch");
    assert_eq!(cpu.registers.get_d(), d, "Register D mismatch");
    assert_eq!(cpu.registers.get_e(), e, "Register E mismatch");
    assert_eq!(cpu.registers.get_f(), f, "Register F mismatch");
    assert_eq!(cpu.registers.get_h(), h, "Register H mismatch");
    assert_eq!(cpu.registers.get_l(), l, "Register L mismatch");
    assert_eq!(cpu.registers.get_sp(), sp, "Register SP mismatch");
    assert_eq!(cpu.registers.get_pc(), pc, "Register PC mismatch");
}

// Helper function to check specific flags
fn assert_flags(cpu: &CPU, zero: bool, subtract: bool, half_carry: bool, carry: bool) {
    let flags = Flags::from_u8(cpu.registers.get_f());
    assert_eq!(flags.zero, zero, "Zero flag mismatch");
    assert_eq!(flags.subtract, subtract, "Subtract flag mismatch");
    assert_eq!(flags.half_carry, half_carry, "Half carry flag mismatch");
    assert_eq!(flags.carry, carry, "Carry flag mismatch");
}

#[test]
fn test_ld_rr() {
    let mut ram = RAM::new();
    let mut cpu = create_cpu_with_state(0x11, 0x22, 0x33, 0x44, 0x55, 0x00, 0x77, 0x88, 0x1234, 0x5678, &mut ram);
    cpu.execute(Instruction::LD_RR(ArithmeticTarget::A, ArithmeticTarget::B));
    assert_registers(&cpu, 0x22, 0x22, 0x33, 0x44, 0x55, 0x00, 0x77, 0x88, 0x1234, 0x5678);
}

#[test]
fn test_ld_reg_imm() {
    // Test LD A, 0x42
    let mut ram = RAM::new();
    let mut cpu = create_cpu_with_state(0, 0, 0, 0, 0, 0, 0, 0, 0, 0, &mut ram);
    cpu.ram.write(0, 0x3E); // LD A, d8 opcode
    cpu.ram.write(1, 0x42); // Immediate value
    let cycles = cpu.step().unwrap();
    assert_eq!(cycles, 8, "LD A, d8 should take 8 cycles");
    assert_registers(&cpu, 0x42, 0, 0, 0, 0, 0, 0, 0, 0, 2);
}

#[test]
fn test_add() {
    let mut ram = RAM::new();
    let mut cpu = create_cpu_with_state(0x11, 0x22, 0x33, 0x44, 0x55, 0x00, 0x77, 0x88, 0x1234, 0x5678, &mut ram);
    cpu.execute(Instruction::ADD(ArithmeticTarget::B));
    assert_registers(&cpu, 0x33, 0x22, 0x33, 0x44, 0x55, 0x00, 0x77, 0x88, 0x1234, 0x5678);
    println!("cpu.registers.get_b(): {}", cpu.registers.get_b());
    println!("cpu.registers.get_f(): {:02x}", cpu.registers.get_f());
    assert_flags(&cpu, false, false, false, false);
}

#[test]
fn test_add_with_carry() {
    let mut ram = RAM::new();
    let mut cpu = create_cpu_with_state(0xFF, 0x22, 0x33, 0x44, 0x55, 0x00, 0x77, 0x88, 0x1234, 0x5678, &mut ram);
    cpu.execute(Instruction::ADD(ArithmeticTarget::C)); // 0xFF + 0x33
    println!("cpu.registers.get_a(): {:02x}", cpu.registers.get_a());
    assert_registers(&cpu, 0x32, 0x22, 0x33, 0x44, 0x55, 0x30, 0x77, 0x88, 0x1234, 0x5678);
}

#[test]
fn test_sub() {
    let mut ram = RAM::new();
    let mut cpu = create_cpu_with_state(0x33, 0x22, 0x33, 0x44, 0x55, 0x00, 0x77, 0x88, 0x1234, 0x5678, &mut ram);
    cpu.execute(Instruction::SUB(ArithmeticTarget::B));
    // 0x3 - 0x2 needs no borrow from bit 4, so half-carry stays clear.
    assert_registers(&cpu, 0x11, 0x22, 0x33, 0x44, 0x55, 0x40, 0x77, 0x88, 0x1234, 0x5678);
    assert_flags(&cpu, false, true, false, false);
}

#[test]
fn test_sub_with_borrow() {
    // Test SUB A, B with borrow
    let mut ram = RAM::new();
    let mut cpu = create_cpu_with_state(0x00, 0x01, 0, 0, 0, 0, 0, 0, 0, 0, &mut ram);
    cpu.ram.write(0, 0x90); // SUB A, B opcode
    let cycles = cpu.step().unwrap();
    assert_eq!(cycles, 4, "SUB A, B should take 4 cycles");
    // 0x0 - 0x1 borrows from bit 4 as well as from bit 8.
    assert_registers(&cpu, 0xFF, 0x01, 0, 0, 0, 0x70, 0, 0, 0, 1);
    assert_flags(&cpu, false, true, true, true);
}

#[test]
fn test_inc() {
    let mut ram = RAM::new();
    let mut cpu = create_cpu_with_state(0x11, 0x22, 0x33, 0x44, 0x55, 0x00, 0x77, 0x88, 0x1234, 0x5678, &mut ram);
    cpu.execute(Instruction::INC(ArithmeticTarget::B));
    assert_registers(&cpu, 0x11, 0x23, 0x33, 0x44, 0x55, 0x00, 0x77, 0x88, 0x1234, 0x5678);
    assert_flags(&cpu, false, false, false, false);
}

#[test]
fn test_dec() {
    let mut ram = RAM::new();
    let mut cpu = create_cpu_with_state(0x11, 0x22, 0x33, 0x44, 0x55, 0x00, 0x77, 0x88, 0x1234, 0x5678, &mut ram);
    cpu.execute(Instruction::DEC(ArithmeticTarget::B));
    assert_registers(&cpu, 0x11, 0x21, 0x33, 0x44, 0x55, 0x40, 0x77, 0x88, 0x1234, 0x5678);
    assert_flags(&cpu, false, true, false, false);
}

#[test]
fn test_jp() {
    // Test JP 0x1234
    let mut ram = RAM::new();
    let mut cpu = create_cpu_with_state(0, 0, 0, 0, 0, 0, 0, 0, 0, 0, &mut ram);
    cpu.ram.write(0, 0xC3); // JP a16 opcode
    cpu.ram.write(1, 0x34); // Low byte of address
    cpu.ram.write(2, 0x12); // High byte of address
    let cycles = cpu.step().unwrap();
    assert_eq!(cycles, 12, "JP a16 should take 12 cycles");
    assert_registers(&cpu, 0, 0, 0, 0, 0, 0, 0, 0, 0, 0x1234);
}

#[test]
fn test_jr() {
    // Test JR 0x10 (forward jump)
    let mut ram = RAM::new();
    let mut cpu = create_cpu_with_state(0, 0, 0, 0, 0, 0, 0, 0, 0, 0, &mut ram);
    cpu.ram.write(0, 0x18); // JR e8 opcode
    cpu.ram.write(1, 0x10); // Jump offset
    let cycles = cpu.step().unwrap();
    assert_eq!(cycles, 8, "JR e8 should take 8 cycles");
    assert_registers(&cpu, 0, 0, 0, 0, 0, 0, 0, 0, 0, 0x10);
}

#[test]
fn test_push_pop() {
    let mut ram = RAM::new();
    let mut cpu = create_cpu_with_state(0x11, 0x22, 0x33, 0x44, 0x55, 0x00, 0x77, 0x88, 0x1234, 0x5678, &mut ram);
    cpu.execute(Instruction::PUSH(ArithmeticTarget::B, ArithmeticTarget::C));
    assert_eq!(cpu.registers.get_sp(), 0x1232);
    cpu.execute(Instruction::POP(ArithmeticTarget::D, ArithmeticTarget::E));
    assert_registers(&cpu, 0x11, 0x22, 0x33, 0x22, 0x33, 0x00, 0x77, 0x88, 0x1234, 0x5678);
}

#[test]
fn test_instruction_sequence() {
    // Test a sequence of instructions
    let mut ram = RAM::new();
    let mut cpu = create_cpu_with_state(0, 0, 0, 0, 0, 0, 0, 0, 0xFFFE, 0, &mut ram);

    cpu.ram.write(0, 0x3E); // LD A, d8
    cpu.ram.write(1, 0x42); // Value 0x42
    cpu.ram.write(2, 0x06); // LD B, d8
    cpu.ram.write(3, 0x10); // Value 0x10
    cpu.ram.write(4, 0x80); // ADD A, B
    cpu.ram.write(5, 0x04); // INC B
    cpu.ram.write(6, 0x90); // SUB A, B

    let mut total_cycles = 0;
    for _ in 0..5 {
        total_cycles += cpu.step().unwrap();
    }

    assert_eq!(total_cycles, 28, "Total cycles mismatch");
    assert_registers(&cpu, 0x41, 0x11, 0, 0, 0, 0x40, 0, 0, 0xFFFE, 7);
    assert_flags(&cpu, false, true, false, false);
}

#[test]
fn test_conditional_jump() {
    let mut ram = RAM::new();
    let mut cpu = create_cpu_with_state(0x11, 0x22, 0x33, 0x44, 0x55, 0x66, 0x77, 0x88, 0x1234, 0x5678, &mut ram);
    // Set zero flag manually
    cpu.registers.set_f(Flags { zero: true, subtract: false, half_carry: false, carry: false }.to_u8());
    cpu.execute(Instruction::JP(false, true, false, 0xABCD));
    assert_eq!(cpu.registers.get_pc(), 0xABCD);
}

#[test]
fn test_16bit_operations() {
    let mut ram = RAM::new();
    let mut cpu = create_cpu_with_state(0x11, 0x22, 0x33, 0x44, 0x55, 0x66, 0x77, 0x88, 0x1234, 0x5678, &mut ram);
    cpu.execute(Instruction::INC_16(ArithmeticTarget::B, ArithmeticTarget::C));
    assert_eq!(cpu.registers.get_bc(), 0x2234);
}

// ---- further cases ----

#[test]
fn add_half_carry_follows_low_nibbles() {
    let mut ram = RAM::new();
    let mut cpu = create_cpu_with_state(0x0F, 0x01, 0, 0, 0, 0, 0, 0, 0, 0, &mut ram);
    cpu.execute(Instruction::ADD(ArithmeticTarget::B));
    assert_eq!(cpu.registers.get_a(), 0x10);
    assert_flags(&cpu, false, false, true, false);
    cpu.execute(Instruction::ADD_IMM(0xF0));
    assert_eq!(cpu.registers.get_a(), 0x00);
    assert_flags(&cpu, true, false, false, true);
}

#[test]
fn adc_adds_the_carry_in() {
    let mut ram = RAM::new();
    let mut cpu = create_cpu_with_state(0x0E, 0x01, 0, 0, 0, 0x10, 0, 0, 0, 0, &mut ram);
    cpu.execute(Instruction::ADC(ArithmeticTarget::B));
    assert_eq!(cpu.registers.get_a(), 0x10);
    assert_flags(&cpu, false, false, true, false);
}

#[test]
fn sub_half_borrow_and_compare() {
    let mut ram = RAM::new();
    let mut cpu = create_cpu_with_state(0x10, 0x01, 0, 0, 0, 0, 0, 0, 0, 0, &mut ram);
    cpu.execute(Instruction::SUB(ArithmeticTarget::B));
    assert_eq!(cpu.registers.get_a(), 0x0F);
    assert_flags(&cpu, false, true, true, false);
    cpu.execute(Instruction::CP_IMM(0x0F));
    assert_eq!(cpu.registers.get_a(), 0x0F);
    assert_flags(&cpu, true, true, false, false);
}

#[test]
fn sbc_subtracts_the_carry_in() {
    let mut ram = RAM::new();
    let mut cpu = create_cpu_with_state(0x10, 0x0F, 0, 0, 0, 0x10, 0, 0, 0, 0, &mut ram);
    cpu.execute(Instruction::SBC(ArithmeticTarget::B));
    assert_eq!(cpu.registers.get_a(), 0x00);
    assert_flags(&cpu, true, true, true, false);
}

#[test]
fn logic_operations_set_documented_flags() {
    let mut ram = RAM::new();
    let mut cpu = create_cpu_with_state(0xF0, 0x0F, 0, 0, 0, 0, 0, 0, 0, 0, &mut ram);
    cpu.execute(Instruction::AND(ArithmeticTarget::B));
    assert_eq!(cpu.registers.get_a(), 0);
    assert_flags(&cpu, true, false, true, false);
    cpu.execute(Instruction::OR_IMM(0x81));
    assert_eq!(cpu.registers.get_a(), 0x81);
    assert_flags(&cpu, false, false, false, false);
    cpu.execute(Instruction::XOR(ArithmeticTarget::A));
    assert_eq!(cpu.registers.get_a(), 0);
    assert_flags(&cpu, true, false, false, false);
}

#[test]
fn push_pop_round_trip_of_af() {
    let mut ram = RAM::new();
    let mut cpu = create_cpu_with_state(0xAB, 0, 0, 0, 0, 0xB0, 0, 0, 0xD000, 0, &mut ram);
    cpu.execute(Instruction::PUSH(ArithmeticTarget::A, ArithmeticTarget::F));
    assert_eq!(cpu.ram.read(0xCFFF), 0xAB);
    assert_eq!(cpu.ram.read(0xCFFE), 0xB0);
    cpu.registers.set_a(0);
    cpu.registers.set_f(0);
    cpu.execute(Instruction::POP(ArithmeticTarget::A, ArithmeticTarget::F));
    assert_registers(&cpu, 0xAB, 0, 0, 0, 0, 0xB0, 0, 0, 0xD000, 0);
}

#[test]
fn pop_af_drops_low_nibble() {
    let mut ram = RAM::new();
    let mut cpu = create_cpu_with_state(0, 0, 0, 0, 0, 0, 0, 0, 0xC000, 0, &mut ram);
    cpu.ram.write(0xC000, 0xFF);
    cpu.ram.write(0xC001, 0x12);
    cpu.execute(Instruction::POP(ArithmeticTarget::A, ArithmeticTarget::F));
    assert_eq!(cpu.registers.get_a(), 0x12);
    assert_eq!(cpu.registers.get_f(), 0xF0);
    assert_eq!(cpu.registers.get_sp(), 0xC002);
}

#[test]
fn wide_increment_keeps_flags() {
    let mut ram = RAM::new();
    let mut cpu = create_cpu_with_state(0, 0xFF, 0xFF, 0, 0, 0xF0, 0, 0, 0, 0, &mut ram);
    cpu.execute(Instruction::INC_16(ArithmeticTarget::B, ArithmeticTarget::C));
    assert_eq!(cpu.registers.get_bc(), 0x0000);
    assert_eq!(cpu.registers.get_f(), 0xF0);
    cpu.execute(Instruction::DEC_16(ArithmeticTarget::SP, ArithmeticTarget::SP));
    assert_eq!(cpu.registers.get_sp(), 0xFFFF);
    assert_eq!(cpu.registers.get_f(), 0xF0);
}

#[test]
fn narrow_increment_keeps_carry() {
    let mut ram = RAM::new();
    let mut cpu = create_cpu_with_state(0, 0xFF, 0, 0, 0, 0x10, 0, 0, 0, 0, &mut ram);
    cpu.execute(Instruction::INC(ArithmeticTarget::B));
    assert_eq!(cpu.registers.get_b(), 0);
    assert_flags(&cpu, true, false, true, true);
    cpu.execute(Instruction::DEC(ArithmeticTarget::B));
    assert_eq!(cpu.registers.get_b(), 0xFF);
    assert_flags(&cpu, false, true, true, true);
}

#[test]
fn increment_memory_at_hl() {
    let mut ram = RAM::new();
    let mut cpu = create_cpu_with_state(0, 0, 0, 0, 0, 0, 0xC0, 0x00, 0, 0, &mut ram);
    cpu.ram.write(0xC000, 0x0F);
    cpu.ram.write(0, 0x34); // INC (HL)
    cpu.step().unwrap();
    assert_eq!(cpu.ram.read(0xC000), 0x10);
    assert_flags(&cpu, false, false, true, false);
    cpu.ram.write(1, 0x35); // DEC (HL)
    cpu.step().unwrap();
    assert_eq!(cpu.ram.read(0xC000), 0x0F);
    assert_flags(&cpu, false, true, true, false);
}

#[test]
fn add_hl_sets_carries_from_bits_11_and_15() {
    let mut ram = RAM::new();
    let mut cpu = create_cpu_with_state(0, 0x08, 0x00, 0, 0, 0, 0xF8, 0x00, 0, 0, &mut ram);
    cpu.execute(Instruction::ADD_HL(ArithmeticTarget::B, ArithmeticTarget::C));
    assert_eq!(cpu.registers.get_hl(), 0x0000);
    assert_flags(&cpu, true, false, true, true);
}

#[test]
fn load_through_hl_with_increment() {
    let mut ram = RAM::new();
    let mut cpu = create_cpu_with_state(0x5A, 0, 0, 0, 0, 0, 0xC0, 0x10, 0, 0, &mut ram);
    cpu.execute(Instruction::LD_MEM_INC(true, false));
    assert_eq!(cpu.ram.read(0xC010), 0x5A);
    assert_eq!(cpu.registers.get_hl(), 0xC011);
    cpu.execute(Instruction::LD_MEM_INC(false, true));
    assert_eq!(cpu.registers.get_hl(), 0xC010);
}

#[test]
fn high_page_load_is_two_bytes() {
    let mut ram = RAM::new();
    let mut cpu = create_cpu_with_state(0x77, 0, 0, 0, 0, 0, 0, 0, 0, 0, &mut ram);
    cpu.ram.write(0, 0xE0); // LD (FF00+d8), A
    cpu.ram.write(1, 0x80);
    let cycles = cpu.step().unwrap();
    assert_eq!(cycles, 12);
    assert_eq!(cpu.ram.read(0xFF80), 0x77);
    assert_eq!(cpu.registers.get_pc(), 2);
}

#[test]
fn call_then_return() {
    let mut ram = RAM::new();
    let mut cpu = create_cpu_with_state(0, 0, 0, 0, 0, 0, 0, 0, 0xFFFE, 0x0100, &mut ram);
    cpu.ram.write(0x0100, 0xCD); // CALL a16
    cpu.ram.write(0x0101, 0x00);
    cpu.ram.write(0x0102, 0x20);
    cpu.ram.write(0x2000, 0xC9); // RET
    assert_eq!(cpu.step(), Ok(12));
    assert_eq!(cpu.registers.get_pc(), 0x2000);
    assert_eq!(cpu.registers.get_sp(), 0xFFFC);
    assert_eq!(cpu.ram.read(0xFFFD), 0x01);
    assert_eq!(cpu.ram.read(0xFFFC), 0x03);
    assert_eq!(cpu.step(), Ok(4));
    assert_eq!(cpu.registers.get_pc(), 0x0103);
    assert_eq!(cpu.registers.get_sp(), 0xFFFE);
}

#[test]
fn conditional_call_not_taken_moves_past_operands() {
    let mut ram = RAM::new();
    let mut cpu = create_cpu_with_state(0, 0, 0, 0, 0, 0, 0, 0, 0xFFFE, 0, &mut ram);
    cpu.ram.write(0, 0xCC); // CALL Z, a16 with Z clear
    cpu.ram.write(1, 0x00);
    cpu.ram.write(2, 0x20);
    assert_eq!(cpu.step(), Ok(12));
    assert_eq!(cpu.registers.get_pc(), 3);
    assert_eq!(cpu.registers.get_sp(), 0xFFFE);
}

#[test]
fn relative_jump_backwards() {
    let mut ram = RAM::new();
    let mut cpu = create_cpu_with_state(0, 0, 0, 0, 0, 0, 0, 0, 0, 0x0010, &mut ram);
    cpu.ram.write(0x0010, 0x18);
    cpu.ram.write(0x0011, 0xFC); // -4
    cpu.step().unwrap();
    assert_eq!(cpu.registers.get_pc(), 0x000C);
}

#[test]
fn restart_pushes_return_address() {
    let mut ram = RAM::new();
    let mut cpu = create_cpu_with_state(0, 0, 0, 0, 0, 0, 0, 0, 0xFFFE, 0x0200, &mut ram);
    cpu.ram.write(0x0200, 0xEF); // RST 28H
    assert_eq!(cpu.step(), Ok(4));
    assert_eq!(cpu.registers.get_pc(), 0x0028);
    assert_eq!(cpu.ram.read(0xFFFD), 0x02);
    assert_eq!(cpu.ram.read(0xFFFC), 0x01);
}

#[test]
fn rotates_through_carry() {
    let mut ram = RAM::new();
    let mut cpu = create_cpu_with_state(0x80, 0, 0, 0, 0, 0x10, 0, 0, 0, 0, &mut ram);
    cpu.execute(Instruction::RL(false));
    assert_eq!(cpu.registers.get_a(), 0x01);
    assert_flags(&cpu, false, false, false, true);
    cpu.execute(Instruction::RR(true));
    assert_eq!(cpu.registers.get_a(), 0x80);
    assert_flags(&cpu, false, false, false, true);
    cpu.execute(Instruction::RR(false));
    assert_eq!(cpu.registers.get_a(), 0xC0);
    assert_flags(&cpu, false, false, false, false);
}

#[test]
fn decimal_adjust_after_addition() {
    let mut ram = RAM::new();
    let mut cpu = create_cpu_with_state(0x19, 0x28, 0, 0, 0, 0, 0, 0, 0, 0, &mut ram);
    cpu.execute(Instruction::ADD(ArithmeticTarget::B)); // 0x19 + 0x28 = 0x41, half-carry
    cpu.execute(Instruction::DAA);
    assert_eq!(cpu.registers.get_a(), 0x47);
    assert_flags(&cpu, false, false, false, false);
}

#[test]
fn carry_flag_operations() {
    let mut ram = RAM::new();
    let mut cpu = create_cpu_with_state(0x35, 0, 0, 0, 0, 0x80, 0, 0, 0, 0, &mut ram);
    cpu.execute(Instruction::SCF);
    assert_flags(&cpu, true, false, false, true);
    cpu.execute(Instruction::CCF);
    assert_flags(&cpu, true, false, false, false);
    cpu.execute(Instruction::CPL);
    assert_eq!(cpu.registers.get_a(), 0xCA);
    assert_flags(&cpu, true, true, true, false);
}

#[test]
fn stack_pointer_offset() {
    let mut ram = RAM::new();
    let mut cpu = create_cpu_with_state(0, 0, 0, 0, 0, 0, 0, 0, 0x00FF, 0, &mut ram);
    cpu.execute(Instruction::LD_HL_SP(1));
    assert_eq!(cpu.registers.get_hl(), 0x0100);
    assert_flags(&cpu, false, false, true, true);
    cpu.execute(Instruction::INC_SP(-1));
    assert_eq!(cpu.registers.get_sp(), 0x00FE);
}

#[test]
fn unimplemented_opcode_is_reported() {
    let mut ram = RAM::new();
    let mut cpu = create_cpu_with_state(0, 0, 0, 0, 0, 0, 0, 0, 0, 0x0150, &mut ram);
    cpu.ram.write(0x0150, 0x76); // HALT
    assert_eq!(cpu.step(), Err(CpuError::UnimplementedOpcode { opcode: 0x76, address: 0x0150 }));
    assert_eq!(cpu.registers.get_pc(), 0x0150);
    assert_eq!(cpu.clock_cycles, 0);
}

#[test]
fn interrupt_dispatch_and_return() {
    let mut ram = RAM::new();
    let mut cpu = create_cpu_with_state(0, 0, 0, 0, 0, 0, 0, 0, 0xFFF0, 0x1234, &mut ram);
    cpu.ram.write(0xFF0F, 0x05); // VBlank and timer requested
    cpu.ram.write(0xFFFF, 0x04); // only the timer enabled
    cpu.execute(Instruction::EI);
    cpu.handle_interrupts();
    assert_eq!(cpu.registers.get_pc(), 0x0050);
    assert_eq!(cpu.registers.get_sp(), 0xFFEE);
    assert!(!cpu.interrupt_master_enable);
    assert_eq!(cpu.ram.read(0xFF0F), 0x01);
    cpu.execute(Instruction::RETI);
    assert_eq!(cpu.registers.get_pc(), 0x1234);
    assert_eq!(cpu.registers.get_sp(), 0xFFF0);
    assert!(cpu.interrupt_master_enable);
}

#[test]
fn interrupts_wait_for_master_enable() {
    let mut ram = RAM::new();
    let mut cpu = create_cpu_with_state(0, 0, 0, 0, 0, 0, 0, 0, 0xFFF0, 0x1234, &mut ram);
    cpu.ram.write(0xFF0F, 0x01);
    cpu.ram.write(0xFFFF, 0x01);
    cpu.execute(Instruction::DI);
    cpu.handle_interrupts();
    assert_eq!(cpu.registers.get_pc(), 0x1234);
    assert_eq!(cpu.ram.read(0xFF0F), 0x01);
}

#[test]
fn flags_byte_round_trip() {
    let flags = Flags::from_u8(0xAF);
    assert!(flags.zero && !flags.subtract && flags.half_carry && !flags.carry);
    assert_eq!(flags.to_u8(), 0xA0);
    assert_eq!(Flags::new().to_u8(), 0);
}

#[test]
fn stack_opcodes_name_hl_and_af() {
    let mut ram = RAM::new();
    let mut cpu = create_cpu_with_state(0x12, 0, 0, 0, 0, 0x90, 0xBE, 0xEF, 0xC100, 0, &mut ram);
    cpu.ram.write(0, 0xE5); // PUSH HL
    cpu.ram.write(1, 0xF5); // PUSH AF
    cpu.ram.write(2, 0xE1); // POP HL
    cpu.ram.write(3, 0xF1); // POP AF
    for _ in 0..4 {
        cpu.step().unwrap();
    }
    assert_registers(&cpu, 0xBE, 0, 0, 0, 0, 0xE0, 0x12, 0x90, 0xC100, 4);
}

#[test]
fn absolute_load_into_a() {
    let mut ram = RAM::new();
    let mut cpu = create_cpu_with_state(0, 0, 0, 0, 0, 0, 0, 0, 0, 0, &mut ram);
    cpu.ram.write(0xC234, 0x99);
    cpu.ram.write(0, 0xFA); // LD A, (a16)
    cpu.ram.write(1, 0x34);
    cpu.ram.write(2, 0xC2);
    assert_eq!(cpu.step(), Ok(12));
    assert_eq!(cpu.registers.get_a(), 0x99);
    assert_eq!(cpu.registers.get_pc(), 3);
    assert_eq!(cpu.clock_cycles, 12);
}

#[test]
fn carry_in_forms_through_step() {
    let mut ram = RAM::new();
    let mut cpu = create_cpu_with_state(0xFF, 0, 0, 0, 0, 0x10, 0xC0, 0x00, 0, 0, &mut ram);
    cpu.ram.write(0xC000, 0x01);
    cpu.ram.write(0, 0xCE); // ADC A, d8
    cpu.ram.write(1, 0x00);
    cpu.ram.write(2, 0x9E); // SBC A, (HL)
    cpu.step().unwrap();
    assert_eq!(cpu.registers.get_a(), 0x00);
    assert_flags(&cpu, true, false, true, true);
    cpu.step().unwrap();
    assert_eq!(cpu.registers.get_a(), 0xFE);
    assert_flags(&cpu, false, true, true, true);
}

#[test]
fn no_dispatch_without_a_real_source() {
    let mut ram = RAM::new();
    let mut cpu = create_cpu_with_state(0, 0, 0, 0, 0, 0, 0, 0, 0xFFF0, 0x1234, &mut ram);
    cpu.ram.write(0xFF0F, 0x20);
    cpu.ram.write(0xFFFF, 0x20);
    cpu.execute(Instruction::EI);
    cpu.handle_interrupts();
    assert_eq!(cpu.registers.get_pc(), 0x1234);
    assert_eq!(cpu.registers.get_sp(), 0xFFF0);
    assert!(cpu.interrupt_master_enable);
    assert_eq!(cpu.ram.read(0xFF0F), 0x20);
}

#[test]
fn jump_to_itself_stays_put() {
    let mut ram = RAM::new();
    let mut cpu = create_cpu_with_state(0, 0, 0, 0, 0, 0, 0, 0, 0, 0x0300, &mut ram);
    cpu.ram.write(0x0300, 0xC3); // JP 0x0300
    cpu.ram.write(0x0301, 0x00);
    cpu.ram.write(0x0302, 0x03);
    assert_eq!(cpu.step(), Ok(12));
    assert_eq!(cpu.registers.get_pc(), 0x0300);
    cpu.ram.write(0x0300, 0x18); // JR 0
    cpu.ram.write(0x0301, 0x00);
    cpu.step().unwrap();
    assert_eq!(cpu.registers.get_pc(), 0x0300);
}
