use rustyboy::alu::half_carry;
use rustyboy::cpu::Cpu;
use rustyboy::error::EmuError;
use rustyboy::memory::Bus;
use rustyboy::utils::{InterruptStatus, Register};

fn image_with_header(code: u8) -> Vec<u8> {
    let mut data = vec![0u8; 0x8000];
    data[0] = 0xAB;
    data[0x147] = code;
    data
}

/// A processor past its start-up program, with `program` at 0xC000 and the
/// stack at the top of high RAM.
fn cpu_running(program: &[u8]) -> Cpu {
    let mut bus = Bus::new(image_with_header(0x00)).unwrap();
    bus.boot_finished = true;
    for (i, b) in program.iter().enumerate() {
        bus.ram[i] = *b;
    }
    let mut cpu = Cpu::new(bus);
    cpu.pc = 0xC000;
    cpu.sp = 0xFFFE;
    cpu
}

#[test]
fn test_cpu() {
    let bus = Bus::new(image_with_header(0x00)).unwrap();
    let mut cpu = Cpu::new(bus);
    cpu.af.set_z(true);
    assert_eq!(cpu.af.z(), true);
    cpu.af.set_z(false);
    assert_eq!(cpu.af.z(), false);
    cpu.af.set_z(true);
    assert_eq!(cpu.get_regu8(Register::F), Ok(0b10000000));
}

#[test]
fn inc_a_wraps_to_zero() {
    let mut cpu = cpu_running(&[0x3C]);
    cpu.af.a = 0xFF;
    cpu.af.n = true;
    assert_eq!(cpu.clock(), Ok(1));
    assert_eq!(cpu.af.a, 0x00);
    assert!(cpu.af.z);
    assert!(cpu.af.h);
    assert!(!cpu.af.n);
}

#[test]
fn dec_a_wraps_to_ff() {
    let mut cpu = cpu_running(&[0x3D]);
    cpu.af.a = 0x00;
    assert_eq!(cpu.clock(), Ok(1));
    assert_eq!(cpu.af.a, 0xFF);
    assert!(!cpu.af.z);
    assert!(cpu.af.n);
    assert!(cpu.af.h);
}

#[test]
fn inc_keeps_carry() {
    let mut cpu = cpu_running(&[0x04]);
    cpu.af.c = true;
    cpu.b = 0x0F;
    cpu.clock().unwrap();
    assert_eq!(cpu.b, 0x10);
    assert!(cpu.af.c);
    assert!(cpu.af.h);
}

#[test]
fn half_carry_examples() {
    assert!(half_carry(0x0F, 0x01));
    assert!(!half_carry(0x0E, 0x01));
}

#[test]
fn add_a_a_overflows_to_zero() {
    let mut cpu = cpu_running(&[0x87]);
    cpu.af.a = 0x80;
    cpu.clock().unwrap();
    assert_eq!(cpu.af.a, 0x00);
    assert!(cpu.af.z);
    assert!(cpu.af.c);
    assert!(!cpu.af.h);
    assert!(!cpu.af.n);
}

#[test]
fn sub_and_cp_set_borrow_flags() {
    // SUB B; CP 0x01
    let mut cpu = cpu_running(&[0x90, 0xFE, 0x01]);
    cpu.af.a = 0x10;
    cpu.b = 0x01;
    cpu.clock().unwrap();
    assert_eq!(cpu.af.a, 0x0F);
    assert!(cpu.af.n && cpu.af.h && !cpu.af.c && !cpu.af.z);
    assert_eq!(cpu.clock(), Ok(2));
    assert_eq!(cpu.af.a, 0x0F);
    assert!(cpu.af.n && !cpu.af.h && !cpu.af.c && !cpu.af.z);
}

#[test]
fn and_or_xor_flags() {
    // AND 0x0F; OR 0x00; XOR A
    let mut cpu = cpu_running(&[0xE6, 0x0F, 0xF6, 0x00, 0xAF]);
    cpu.af.a = 0xF0;
    cpu.af.c = true;
    cpu.clock().unwrap();
    assert_eq!(cpu.af.a, 0x00);
    assert!(cpu.af.z && cpu.af.h && !cpu.af.c && !cpu.af.n);
    cpu.af.a = 0x81;
    cpu.clock().unwrap();
    assert_eq!(cpu.af.a, 0x81);
    assert!(!cpu.af.z && !cpu.af.h && !cpu.af.c);
    cpu.clock().unwrap();
    assert_eq!(cpu.af.a, 0x00);
    assert!(cpu.af.z);
}

#[test]
fn adc_and_sbc_use_carry() {
    // ADC A,0x01; SBC A,0x01
    let mut cpu = cpu_running(&[0xCE, 0x01, 0xDE, 0x01]);
    cpu.af.a = 0xFE;
    cpu.af.c = true;
    cpu.clock().unwrap();
    assert_eq!(cpu.af.a, 0x00);
    assert!(cpu.af.z && cpu.af.c && cpu.af.h);
    cpu.clock().unwrap();
    assert_eq!(cpu.af.a, 0xFE);
    assert!(cpu.af.c && cpu.af.n);
}

#[test]
fn daa_corrects_bcd_sum() {
    // ADD A,0x27; DAA
    let mut cpu = cpu_running(&[0xC6, 0x27, 0x27]);
    cpu.af.a = 0x15;
    cpu.clock().unwrap();
    assert_eq!(cpu.af.a, 0x3C);
    cpu.clock().unwrap();
    assert_eq!(cpu.af.a, 0x42);
    assert!(!cpu.af.c && !cpu.af.h);
}

#[test]
fn register_pairs_compose() {
    let mut cpu = cpu_running(&[]);
    cpu.set_regu8(Register::B, 0x12).unwrap();
    cpu.set_regu8(Register::C, 0x34).unwrap();
    assert_eq!(cpu.get_regu16(Register::BC), 0x1234);
    cpu.set_regu16(Register::DE, 0xBEEF);
    assert_eq!(cpu.get_regu8(Register::D), Ok(0xBE));
    assert_eq!(cpu.get_regu8(Register::E), Ok(0xEF));
    cpu.set_regu16(Register::HL, 0x0102);
    assert_eq!(cpu.reg(Register::H), 0x01);
    assert_eq!(cpu.reg(Register::L), 0x02);
    cpu.set_regu8(Register::A, 0x9A).unwrap();
    cpu.set_regu8(Register::F, 0xB0).unwrap();
    assert_eq!(cpu.get_regu16(Register::AF), 0x9AB0);
    cpu.set_regu16(Register::AF, 0x12FF);
    assert_eq!(cpu.reg(Register::A), 0x12);
    assert_eq!(cpu.reg(Register::F), 0xF0);
}

#[test]
fn push_pop_bc_round_trip() {
    // PUSH BC; LD BC,0x0000; POP BC
    let mut cpu = cpu_running(&[0xC5, 0x01, 0x00, 0x00, 0xC1]);
    cpu.set_regu16(Register::BC, 0xA55A);
    cpu.clock().unwrap();
    assert_eq!(cpu.sp, 0xFFFC);
    assert_eq!(cpu.memory.get_address(0xFFFD), Ok(0xA5));
    assert_eq!(cpu.memory.get_address(0xFFFC), Ok(0x5A));
    assert_eq!(cpu.clock(), Ok(3));
    assert_eq!(cpu.get_regu16(Register::BC), 0x0000);
    cpu.clock().unwrap();
    assert_eq!(cpu.get_regu16(Register::BC), 0xA55A);
    assert_eq!(cpu.sp, 0xFFFE);
}

#[test]
fn pop_af_drops_low_nibble() {
    // POP AF
    let mut cpu = cpu_running(&[0xF1]);
    cpu.sp = 0xC100;
    cpu.memory.ram[0x100] = 0xFF;
    cpu.memory.ram[0x101] = 0x12;
    cpu.clock().unwrap();
    assert_eq!(cpu.get_regu16(Register::AF), 0x12F0);
}

#[test]
fn interrupt_priority_vblank_first() {
    let mut cpu = cpu_running(&[0x00]);
    cpu.memory.write_byte(0xFFFF, 0xFF).unwrap();
    cpu.memory.write_byte(0xFF0F, 0x03).unwrap();
    cpu.interrupt_enable = InterruptStatus::Enabled;
    assert_eq!(cpu.clock(), Ok(5));
    assert_eq!(cpu.pc, 0x40);
    assert_eq!(cpu.interrupt_enable, InterruptStatus::Unset);
    assert_eq!(cpu.sp, 0xFFFC);
    assert_eq!(cpu.memory.get_address(0xFFFD), Ok(0xC0));
    assert_eq!(cpu.memory.get_address(0xFFFC), Ok(0x00));
}

#[test]
fn interrupt_needs_enable_bit() {
    let mut cpu = cpu_running(&[0x00]);
    cpu.memory.write_byte(0xFFFF, 0x02).unwrap();
    cpu.memory.write_byte(0xFF0F, 0x03).unwrap();
    cpu.interrupt_enable = InterruptStatus::Enabled;
    cpu.clock().unwrap();
    assert_eq!(cpu.pc, 0x48);
}

#[test]
fn no_interrupt_while_disabled() {
    let mut cpu = cpu_running(&[0x00]);
    cpu.memory.write_byte(0xFFFF, 0xFF).unwrap();
    cpu.memory.write_byte(0xFF0F, 0x01).unwrap();
    assert_eq!(cpu.clock(), Ok(1));
    assert_eq!(cpu.pc, 0xC001);
}

#[test]
fn ei_takes_effect_after_next_instruction() {
    // EI; NOP; NOP
    let mut cpu = cpu_running(&[0xFB, 0x00, 0x00]);
    cpu.clock().unwrap();
    assert_eq!(cpu.interrupt_enable, InterruptStatus::PendingEnable);
    cpu.clock().unwrap();
    assert_eq!(cpu.interrupt_enable, InterruptStatus::Enabled);
}

#[test]
fn di_goes_through_pending_disable() {
    // DI; NOP
    let mut cpu = cpu_running(&[0xF3, 0x00]);
    cpu.interrupt_enable = InterruptStatus::Enabled;
    cpu.clock().unwrap();
    assert_eq!(cpu.interrupt_enable, InterruptStatus::PendingDisable);
    cpu.clock().unwrap();
    assert_eq!(cpu.interrupt_enable, InterruptStatus::Unset);
}

#[test]
fn undefined_opcode_is_reported() {
    let mut cpu = cpu_running(&[0x00, 0xD3]);
    cpu.clock().unwrap();
    assert_eq!(
        cpu.clock(),
        Err(EmuError::UnimplementedOpcode { opcode: 0xD3, pc: 0xC001 })
    );
}

#[test]
fn prohibited_read_is_reported() {
    // LD A,(0xFEA0)
    let mut cpu = cpu_running(&[0xFA, 0xA0, 0xFE]);
    assert_eq!(cpu.clock(), Err(EmuError::IllegalMemoryAccess { addr: 0xFEA0 }));
}

#[test]
fn load_block_moves_through_hl() {
    // LD HL,0xC100; LD (HL),B; LD A,(HL); LD (HL+),A
    let mut cpu = cpu_running(&[0x21, 0x00, 0xC1, 0x70, 0x7E, 0x22]);
    cpu.b = 0x77;
    assert_eq!(cpu.clock(), Ok(3));
    cpu.clock().unwrap();
    assert_eq!(cpu.memory.ram[0x100], 0x77);
    cpu.clock().unwrap();
    assert_eq!(cpu.af.a, 0x77);
    cpu.clock().unwrap();
    assert_eq!(cpu.get_regu16(Register::HL), 0xC101);
    assert_eq!(cpu.memory.ram[0x100], 0x77);
}

#[test]
fn extended_table_swap_bit_res_set() {
    // SWAP A; BIT 7,A; RES 0,A; SET 7,B
    let mut cpu = cpu_running(&[0xCB, 0x37, 0xCB, 0x7F, 0xCB, 0x87, 0xCB, 0xF8]);
    cpu.af.a = 0x1F;
    cpu.af.c = true;
    assert_eq!(cpu.clock(), Ok(2));
    assert_eq!(cpu.af.a, 0xF1);
    assert!(!cpu.af.c && !cpu.af.z);
    cpu.clock().unwrap();
    assert!(!cpu.af.z && cpu.af.h && !cpu.af.n);
    cpu.clock().unwrap();
    assert_eq!(cpu.af.a, 0xF0);
    cpu.clock().unwrap();
    assert_eq!(cpu.b, 0x80);
}

#[test]
fn accumulator_rotates_clear_zero() {
    // RLCA; RRA
    let mut cpu = cpu_running(&[0x07, 0x1F]);
    cpu.af.a = 0x80;
    cpu.clock().unwrap();
    assert_eq!(cpu.af.a, 0x01);
    assert!(cpu.af.c && !cpu.af.z);
    cpu.clock().unwrap();
    assert_eq!(cpu.af.a, 0x80);
    assert!(cpu.af.c);
}

#[test]
fn relative_jump_backwards() {
    // NOP; JR -3
    let mut cpu = cpu_running(&[0x00, 0x18, 0xFD]);
    cpu.clock().unwrap();
    cpu.clock().unwrap();
    assert_eq!(cpu.pc, 0xC000);
}

#[test]
fn call_and_ret() {
    // CALL 0xC010 ... at 0xC010: RET
    let mut program = vec![0u8; 0x11];
    program[0] = 0xCD;
    program[1] = 0x10;
    program[2] = 0xC0;
    program[0x10] = 0xC9;
    let mut cpu = cpu_running(&program);
    assert_eq!(cpu.clock(), Ok(3));
    assert_eq!(cpu.pc, 0xC010);
    assert_eq!(cpu.sp, 0xFFFC);
    cpu.clock().unwrap();
    assert_eq!(cpu.pc, 0xC003);
    assert_eq!(cpu.sp, 0xFFFE);
}

#[test]
fn add_hl_keeps_zero() {
    // ADD HL,DE
    let mut cpu = cpu_running(&[0x19]);
    cpu.set_regu16(Register::HL, 0x0FFF);
    cpu.set_regu16(Register::DE, 0x0001);
    cpu.af.z = true;
    cpu.clock().unwrap();
    assert_eq!(cpu.get_regu16(Register::HL), 0x1000);
    assert!(cpu.af.z && cpu.af.h && !cpu.af.c && !cpu.af.n);
}

#[test]
fn boot_overlay_lifts_at_ff() {
    let bus = Bus::new(image_with_header(0x00)).unwrap();
    let mut cpu = Cpu::new(bus);
    assert_eq!(cpu.memory.get_address(0x0000), Ok(0x31));
    cpu.pc = 0x00FF;
    cpu.b = 0x77;
    // The byte at 0x00FF still comes from the start-up program: 0x50, LD D,B.
    cpu.clock().unwrap();
    assert_eq!(cpu.d, 0x77);
    assert!(cpu.memory.boot_finished);
    assert_eq!(cpu.memory.get_address(0x0000), Ok(0xAB));
}

#[test]
fn store_sp_at_immediate_address() {
    // LD (0xC100),SP
    let mut cpu = cpu_running(&[0x08, 0x00, 0xC1]);
    cpu.sp = 0xBEEF;
    assert_eq!(cpu.clock(), Ok(3));
    assert_eq!(cpu.memory.ram[0x100], 0xEF);
    assert_eq!(cpu.memory.ram[0x101], 0xBE);
}

#[test]
fn reti_returns_and_keeps_interrupt_state() {
    // RETI
    let mut cpu = cpu_running(&[0xD9]);
    cpu.sp = 0xC100;
    cpu.memory.ram[0x100] = 0x34;
    cpu.memory.ram[0x101] = 0x12;
    cpu.clock().unwrap();
    assert_eq!(cpu.pc, 0x1234);
    assert_eq!(cpu.sp, 0xC102);
    assert_eq!(cpu.interrupt_enable, InterruptStatus::Unset);
}

#[test]
fn reti_after_di_stays_disabled() {
    // DI; RETI
    let mut cpu = cpu_running(&[0xF3, 0xD9]);
    cpu.interrupt_enable = InterruptStatus::Enabled;
    cpu.sp = 0xC100;
    cpu.memory.ram[0x100] = 0x00;
    cpu.memory.ram[0x101] = 0xC0;
    cpu.clock().unwrap();
    assert_eq!(cpu.interrupt_enable, InterruptStatus::PendingDisable);
    cpu.clock().unwrap();
    assert_eq!(cpu.pc, 0xC000);
    assert_eq!(cpu.interrupt_enable, InterruptStatus::Unset);
}

#[test]
fn rst_pushes_and_jumps() {
    // NOP; RST 0x28
    let mut cpu = cpu_running(&[0x00, 0xEF]);
    cpu.clock().unwrap();
    assert_eq!(cpu.clock(), Ok(1));
    assert_eq!(cpu.pc, 0x0028);
    assert_eq!(cpu.memory.get_address(0xFFFD), Ok(0xC0));
    assert_eq!(cpu.memory.get_address(0xFFFC), Ok(0x02));
}

#[test]
fn conditional_call_and_jump_follow_flags() {
    // CALL NZ,0xC100; JP Z,0xC200
    let mut cpu = cpu_running(&[0xC4, 0x00, 0xC1, 0xCA, 0x00, 0xC2]);
    cpu.af.z = true;
    assert_eq!(cpu.clock(), Ok(3));
    assert_eq!(cpu.pc, 0xC003);
    assert_eq!(cpu.sp, 0xFFFE);
    cpu.clock().unwrap();
    assert_eq!(cpu.pc, 0xC200);
}

#[test]
fn high_page_loads() {
    // LDH (0x80),A; LD A,0x00; LDH A,(0x80); LD (C),A
    let mut cpu = cpu_running(&[0xE0, 0x80, 0x3E, 0x00, 0xF0, 0x80, 0xE2]);
    cpu.af.a = 0x5C;
    cpu.c = 0x81;
    cpu.clock().unwrap();
    assert_eq!(cpu.memory.hram[0], 0x5C);
    cpu.clock().unwrap();
    assert_eq!(cpu.af.a, 0x00);
    cpu.clock().unwrap();
    assert_eq!(cpu.af.a, 0x5C);
    cpu.clock().unwrap();
    assert_eq!(cpu.memory.hram[1], 0x5C);
}

#[test]
fn stack_pointer_offsets() {
    // ADD SP,-2; LD HL,SP+1
    let mut cpu = cpu_running(&[0xE8, 0xFE, 0xF8, 0x01]);
    cpu.sp = 0xFFF8;
    cpu.clock().unwrap();
    assert_eq!(cpu.sp, 0xFFF6);
    assert!(!cpu.af.z && !cpu.af.n && cpu.af.c && cpu.af.h);
    cpu.clock().unwrap();
    assert_eq!(cpu.get_regu16(Register::HL), 0xFFF7);
    assert_eq!(cpu.sp, 0xFFF6);
}

#[test]
fn halt_is_reported_unimplemented() {
    let mut cpu = cpu_running(&[0x76]);
    assert_eq!(
        cpu.clock(),
        Err(EmuError::UnimplementedOpcode { opcode: 0x76, pc: 0xC000 })
    );
}

#[test]
fn pc_wraps_at_top_of_memory() {
    // The IE register at 0xFFFF holds 0x00: a NOP.
    let mut cpu = cpu_running(&[]);
    cpu.pc = 0xFFFF;
    assert_eq!(cpu.clock(), Ok(1));
    assert_eq!(cpu.pc, 0x0000);
}

#[test]
fn push_wraps_stack_pointer() {
    // PUSH BC with SP = 0x0000 writes to 0xFFFF and 0xFFFE.
    let mut cpu = cpu_running(&[0xC5]);
    cpu.sp = 0x0000;
    cpu.set_regu16(Register::BC, 0x1234);
    cpu.clock().unwrap();
    assert_eq!(cpu.sp, 0xFFFE);
    assert_eq!(cpu.memory.ie_reg, 0x12);
    assert_eq!(cpu.memory.get_address(0xFFFE), Ok(0x34));
}
