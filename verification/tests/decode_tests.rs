use gbz80::cpu::Reg16;
use gbz80::decode::{decode, Instr};

#[test]
fn test_decode_nop_and_halt() {
    assert_eq!(decode(0x00), Instr::Nop);
    assert_eq!(decode(0x76), Instr::Halt);
}

#[test]
fn test_decode_register_loads() {
    assert_eq!(decode(0x41), Instr::LdRR { dest: 0, src: 1 });
    assert_eq!(decode(0x7F), Instr::LdRR { dest: 7, src: 7 });
    assert_eq!(decode(0x46), Instr::LdRR { dest: 0, src: 6 });
    assert_eq!(decode(0x70), Instr::LdRR { dest: 6, src: 0 });
}

#[test]
fn test_decode_immediate_loads() {
    assert_eq!(decode(0x06), Instr::LdRN { dest: 0 });
    assert_eq!(decode(0x36), Instr::LdRN { dest: 6 });
    assert_eq!(decode(0x3E), Instr::LdRN { dest: 7 });
}

#[test]
fn test_decode_pair_and_absolute_loads() {
    assert_eq!(decode(0x01), Instr::LdPairNn { pair: Reg16::BC });
    assert_eq!(decode(0x11), Instr::LdPairNn { pair: Reg16::DE });
    assert_eq!(decode(0x21), Instr::LdPairNn { pair: Reg16::HL });
    assert_eq!(decode(0x31), Instr::LdSpNn);
    assert_eq!(decode(0x0A), Instr::LdAPair { pair: Reg16::BC });
    assert_eq!(decode(0x1A), Instr::LdAPair { pair: Reg16::DE });
    assert_eq!(decode(0x02), Instr::LdPairA { pair: Reg16::BC });
    assert_eq!(decode(0x12), Instr::LdPairA { pair: Reg16::DE });
    assert_eq!(decode(0x2A), Instr::LdAHlInc);
    assert_eq!(decode(0x3A), Instr::LdAHlDec);
    assert_eq!(decode(0x22), Instr::LdHlAInc);
    assert_eq!(decode(0x32), Instr::LdHlADec);
    assert_eq!(decode(0xFA), Instr::LdANn);
    assert_eq!(decode(0xEA), Instr::LdNnA);
}

#[test]
fn test_decode_xor_family() {
    assert_eq!(decode(0xA8), Instr::XorR { src: 0 });
    assert_eq!(decode(0xAE), Instr::XorR { src: 6 });
    assert_eq!(decode(0xAF), Instr::XorR { src: 7 });
    assert_eq!(decode(0xEE), Instr::XorN);
}

#[test]
fn test_decode_undefined_opcodes() {
    assert_eq!(decode(0xD3), Instr::Undefined);
    assert_eq!(decode(0xCB), Instr::Undefined);
    assert_eq!(decode(0x03), Instr::Undefined);
    assert_eq!(decode(0xFF), Instr::Undefined);
}
