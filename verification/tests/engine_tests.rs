use gbz80::cpu::{Gbz80, Reg16, Reg8};
use gbz80::gameboy::{Gameboy, StepEvent};
use gbz80::memory::GbError;

fn load_program(gb: &mut Gameboy, program: &[u8]) {
    for (i, &byte) in program.iter().enumerate() {
        gb.memory.write_u8(i as u16, byte).unwrap();
    }
}

#[test]
fn test_halt_opcode_stops_the_engine() {
    let mut gb = Gameboy::new();
    load_program(&mut gb, &[0x76]);
    assert!(gb.running);
    assert_eq!(gb.execute_next().unwrap(), StepEvent::Executed);
    assert!(!gb.running);
    assert_eq!(gb.cpu.program_counter, 1);
    // No memory access happened: everything is still as loaded.
    assert_eq!(gb.memory.read_u8(0).unwrap(), 0x76);
    assert_eq!(gb.memory.read_u8(1).unwrap(), 0x00);
}

#[test]
fn test_halt_through_ld_dispatch() {
    let mut gb = Gameboy::new();
    gb.ld(0x76).unwrap();
    assert!(!gb.running);
}

#[test]
fn test_nop_advances_only_the_program_counter() {
    let mut gb = Gameboy::new();
    assert_eq!(gb.execute_next().unwrap(), StepEvent::Executed);
    assert_eq!(gb.cpu.program_counter, 1);
    assert!(gb.running);
    assert_eq!(gb.cpu.a, 0);
}

#[test]
fn test_unimplemented_opcode_is_reported_and_absorbed() {
    let mut gb = Gameboy::new();
    load_program(&mut gb, &[0xD3]);
    assert_eq!(
        gb.execute_next().unwrap(),
        StepEvent::Unimplemented {
            opcode: 0xD3,
            address: 0
        }
    );
    assert!(gb.running);
    assert_eq!(gb.cpu.program_counter, 1);
    assert_eq!(gb.cpu.a, 0);
}

#[test]
fn test_fetch_from_invalid_program_counter_is_fatal() {
    let mut gb = Gameboy::new();
    gb.cpu.program_counter = 0x2000;
    assert_eq!(gb.execute_next(), Err(GbError::AddressOutOfRange));
    assert_eq!(gb.cpu.program_counter, 0x2000);
}

#[test]
fn test_operand_fetch_past_capacity_is_fatal() {
    let mut gb = Gameboy::new();
    gb.memory.write_u8(0x1FFF, 0x3E).unwrap();
    gb.cpu.program_counter = 0x1FFF;
    assert_eq!(gb.execute_next(), Err(GbError::AddressOutOfRange));
    assert_eq!(gb.cpu.program_counter, 0x2000);
}

#[test]
fn test_immediate_loads_advance_pc_by_two() {
    let opcodes = [0x06u8, 0x0E, 0x16, 0x1E, 0x26, 0x2E, 0x3E];
    let regs = [
        Reg8::B,
        Reg8::C,
        Reg8::D,
        Reg8::E,
        Reg8::H,
        Reg8::L,
        Reg8::A,
    ];
    for (&opcode, &reg) in opcodes.iter().zip(regs.iter()) {
        let mut gb = Gameboy::new();
        load_program(&mut gb, &[opcode, 0x99]);
        assert_eq!(gb.execute_next().unwrap(), StepEvent::Executed);
        assert_eq!(gb.cpu.reg8(reg), 0x99, "opcode 0x{:02X}", opcode);
        assert_eq!(gb.cpu.program_counter, 2, "opcode 0x{:02X}", opcode);
    }
}

#[test]
fn test_xor_immediate_clears_zero_flag() {
    let mut gb = Gameboy::new();
    gb.cpu.write_reg8(Reg8::A, 0x01);
    gb.memory.write_u8(0x00, 0xAB).unwrap();
    gb.xor(0xEE).unwrap();
    assert_eq!(gb.cpu.reg8(Reg8::A), 0xAA);
    assert_eq!(gb.cpu.f & Gbz80::FLAG_Z, 0);
    assert_eq!(gb.cpu.program_counter, 1);
}

#[test]
fn test_bit_test_flags() {
    // Bit indices land in bits 3-5 of the opcode, the register code in 0-2.
    let mut gb = Gameboy::new();
    gb.cpu.write_reg8(Reg8::B, 0b0000_0001);

    gb.bit(0b0000_0000); // test bit 0 of B
    assert_eq!(gb.cpu.f & Gbz80::FLAG_Z, 0);
    assert_eq!(gb.cpu.f & Gbz80::FLAG_N, 0);
    assert_eq!(gb.cpu.f & Gbz80::FLAG_H, Gbz80::FLAG_H);

    gb.bit(0b0000_1000); // test bit 1 of B
    assert_eq!(gb.cpu.f & Gbz80::FLAG_Z, Gbz80::FLAG_Z);
    assert_eq!(gb.cpu.f & Gbz80::FLAG_N, 0);
    assert_eq!(gb.cpu.f & Gbz80::FLAG_H, Gbz80::FLAG_H);

    // The tested value is never mutated.
    assert_eq!(gb.cpu.reg8(Reg8::B), 0b0000_0001);
}

#[test]
fn test_program_load_then_xor_self() {
    // LD A,0x05 then XOR A,A.
    let mut gb = Gameboy::new();
    load_program(&mut gb, &[0x3E, 0x05, 0xAF]);
    gb.execute_next().unwrap();
    assert_eq!(gb.cpu.reg8(Reg8::A), 0x05);
    gb.execute_next().unwrap();
    assert_eq!(gb.cpu.reg8(Reg8::A), 0x00);
    assert_eq!(gb.cpu.f & Gbz80::FLAG_Z, Gbz80::FLAG_Z);
    assert_eq!(gb.cpu.program_counter, 3);
}

#[test]
fn test_program_store_immediate_through_hl() {
    // LD HL,0x1000 then LD (HL),0x7F.
    let mut gb = Gameboy::new();
    load_program(&mut gb, &[0x21, 0x00, 0x10, 0x36, 0x7F]);
    gb.execute_next().unwrap();
    assert_eq!(gb.cpu.hl(), 0x1000);
    gb.execute_next().unwrap();
    gb.execute_next().unwrap();
    assert_eq!(gb.memory.read_u8(0x1000).unwrap(), 0x7F);
}

#[test]
fn test_program_load_accumulator_through_bc() {
    // LD BC,0x1234 then LD A,(BC).
    let mut gb = Gameboy::new();
    load_program(&mut gb, &[0x01, 0x34, 0x12, 0x0A]);
    gb.memory.write_u8(0x1234, 0x99).unwrap();
    gb.execute_next().unwrap();
    assert_eq!(gb.cpu.reg16(Reg16::BC), 0x1234);
    gb.execute_next().unwrap();
    assert_eq!(gb.cpu.reg8(Reg8::A), 0x99);
}

#[test]
fn test_ld_sp_immediate() {
    let mut gb = Gameboy::new();
    load_program(&mut gb, &[0x31, 0xCD, 0xAB]);
    gb.execute_next().unwrap();
    assert_eq!(gb.cpu.stack_pointer, 0xABCD);
    assert_eq!(gb.cpu.program_counter, 3);
}

#[test]
fn test_ld_sp_u16_helper() {
    let mut gb = Gameboy::new();
    gb.memory.write_u8(1, 0x77).unwrap();
    gb.memory.write_u8(2, 0x66).unwrap();
    let mut pc: u16 = 0;
    let mut sp: u16 = 0;
    gb.ld_sp_u16(&mut pc, &mut sp).unwrap();
    assert_eq!(sp, 0x6677);
    assert_eq!(pc, 3);
}

#[test]
fn test_ld_16_16_copies() {
    let gb = Gameboy::new();
    let mut dest: u16 = 0;
    gb.ld_16_16(0x1234, &mut dest);
    assert_eq!(dest, 0x1234);
}

#[test]
fn test_opcode_dest_register_field() {
    assert_eq!(Gameboy::opcode_dest_register(0x3E), 7);
    assert_eq!(Gameboy::opcode_dest_register(0x06), 0);
    assert_eq!(Gameboy::opcode_dest_register(0x36), 6);
}

#[test]
fn test_ld_a_absolute_and_back() {
    // LD A,(nn) reads through the little-endian immediate address.
    let mut gb = Gameboy::new();
    load_program(&mut gb, &[0xFA, 0x10, 0x00]);
    gb.memory.write_u8(0x0010, 0x42).unwrap();
    gb.execute_next().unwrap();
    assert_eq!(gb.cpu.reg8(Reg8::A), 0x42);
    assert_eq!(gb.cpu.program_counter, 3);

    // LD (nn),A stores the accumulator at the immediate address.
    let mut gb = Gameboy::new();
    load_program(&mut gb, &[0xEA, 0x20, 0x00]);
    gb.cpu.write_reg8(Reg8::A, 0x77);
    gb.execute_next().unwrap();
    assert_eq!(gb.memory.read_u8(0x0020).unwrap(), 0x77);
}

#[test]
fn test_hl_post_increment_and_decrement() {
    // LD A,(HL+)
    let mut gb = Gameboy::new();
    gb.cpu.write_reg16(Reg16::HL, 0x0012);
    gb.memory.write_u8(0x0012, 0x5C).unwrap();
    gb.ld(0x2A).unwrap();
    assert_eq!(gb.cpu.reg8(Reg8::A), 0x5C);
    assert_eq!(gb.cpu.hl(), 0x0013);

    // LD A,(HL-)
    let mut gb = Gameboy::new();
    gb.cpu.write_reg16(Reg16::HL, 0x0012);
    gb.memory.write_u8(0x0012, 0x5D).unwrap();
    gb.ld(0x3A).unwrap();
    assert_eq!(gb.cpu.reg8(Reg8::A), 0x5D);
    assert_eq!(gb.cpu.hl(), 0x0011);

    // LD (HL+),A
    let mut gb = Gameboy::new();
    gb.cpu.write_reg16(Reg16::HL, 0x0040);
    gb.cpu.write_reg8(Reg8::A, 0x11);
    gb.ld(0x22).unwrap();
    assert_eq!(gb.memory.read_u8(0x0040).unwrap(), 0x11);
    assert_eq!(gb.cpu.hl(), 0x0041);

    // LD (HL-),A
    let mut gb = Gameboy::new();
    gb.cpu.write_reg16(Reg16::HL, 0x0040);
    gb.cpu.write_reg8(Reg8::A, 0x22);
    gb.ld(0x32).unwrap();
    assert_eq!(gb.memory.read_u8(0x0040).unwrap(), 0x22);
    assert_eq!(gb.cpu.hl(), 0x003F);
}

#[test]
fn test_xor_preserves_carry_bit() {
    let mut gb = Gameboy::new();
    gb.cpu.write_reg8(Reg8::F, 0x10); // only the Carry bit set
    gb.cpu.write_reg8(Reg8::A, 0x0F);
    gb.cpu.write_reg8(Reg8::B, 0x0F);
    gb.xor(0xA8).unwrap();
    assert_eq!(gb.cpu.reg8(Reg8::A), 0x00);
    assert_eq!(gb.cpu.f, 0x90); // Zero set, Carry still set
}
