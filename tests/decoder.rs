use siri8080::i8080::instructions::{Instruction, InstructionTypes};

#[test]
fn every_byte_decodes() {
    for b in 0..=255u8 {
        let ins = Instruction::from_byte(b);
        assert_eq!(ins.raw, b);
        assert_eq!(ins.low3, b & 0x07);
        assert_eq!(ins.high3, (b >> 3) & 0x07);
        assert_eq!(ins.rp, (b >> 4) & 0x03);
        assert!(!ins.mnemonic().is_empty());
        let len = ins.length();
        assert!(len >= 1 && len <= 3);
    }
}

#[test]
fn decoded_kinds() {
    assert_eq!(Instruction::from_byte(0x00).kind, InstructionTypes::NOP);
    assert_eq!(Instruction::from_byte(0x08).kind, InstructionTypes::NOP);
    assert_eq!(Instruction::from_byte(0x76).kind, InstructionTypes::HLT);
    assert_eq!(Instruction::from_byte(0x41).kind, InstructionTypes::MOV);
    assert_eq!(Instruction::from_byte(0x86).kind, InstructionTypes::ADD);
    assert_eq!(Instruction::from_byte(0xBF).kind, InstructionTypes::CMP);
    assert_eq!(Instruction::from_byte(0xFE).kind, InstructionTypes::CPI);
    assert_eq!(Instruction::from_byte(0xC2).kind, InstructionTypes::JNZ);
    assert_eq!(Instruction::from_byte(0xFA).kind, InstructionTypes::JM);
    assert_eq!(Instruction::from_byte(0xCC).kind, InstructionTypes::CZ);
    assert_eq!(Instruction::from_byte(0xD8).kind, InstructionTypes::RC);
    assert_eq!(Instruction::from_byte(0xF5).kind, InstructionTypes::PUSH);
    assert_eq!(Instruction::from_byte(0xE1).kind, InstructionTypes::POP);
    assert_eq!(Instruction::from_byte(0xFF).kind, InstructionTypes::RST);
    assert_eq!(Instruction::from_byte(0xE3).kind, InstructionTypes::XTHL);
    assert_eq!(Instruction::from_byte(0xEB).kind, InstructionTypes::XCHG);
    assert_eq!(Instruction::from_byte(0x27).kind, InstructionTypes::DAA);
    assert_eq!(Instruction::from_byte(0xCB).kind, InstructionTypes::Unknown);
    assert_eq!(Instruction::from_byte(0xDD).kind, InstructionTypes::Unknown);
}

#[test]
fn mnemonics() {
    assert_eq!(Instruction::from_byte(0x41).mnemonic(), "MOV B,C");
    assert_eq!(Instruction::from_byte(0x77).mnemonic(), "MOV M,A");
    assert_eq!(Instruction::from_byte(0x3E).mnemonic(), "MVI A");
    assert_eq!(Instruction::from_byte(0x31).mnemonic(), "LXI SP");
    assert_eq!(Instruction::from_byte(0xF5).mnemonic(), "PUSH PSW");
    assert_eq!(Instruction::from_byte(0xC5).mnemonic(), "PUSH B");
    assert_eq!(Instruction::from_byte(0x1A).mnemonic(), "LDAX D");
    assert_eq!(Instruction::from_byte(0x96).mnemonic(), "SUB M");
    assert_eq!(Instruction::from_byte(0xFF).mnemonic(), "RST 7");
    assert_eq!(Instruction::from_byte(0xC3).mnemonic(), "JMP");
    assert_eq!(Instruction::from_byte(0xCB).mnemonic(), "???");
    let (b, text) = Instruction::from_byte(0x04).get_name_byte();
    assert_eq!(b, 0x04);
    assert_eq!(text, "INR B");
}

#[test]
fn lengths() {
    assert_eq!(Instruction::from_byte(0x00).length(), 1);
    assert_eq!(Instruction::from_byte(0x06).length(), 2);
    assert_eq!(Instruction::from_byte(0xD3).length(), 2);
    assert_eq!(Instruction::from_byte(0x01).length(), 3);
    assert_eq!(Instruction::from_byte(0xCD).length(), 3);
    assert_eq!(Instruction::from_byte(0xC9).length(), 1);
}

#[test]
fn byte_to_op_replaces() {
    let mut ins = Instruction::new();
    assert_eq!(ins.kind, InstructionTypes::NOP);
    ins.byte_to_op(0xC9);
    assert_eq!(ins, Instruction::from_byte(0xC9));
}
