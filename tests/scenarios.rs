use siri8080::i8080::flags::StatusFlags;
use siri8080::i8080::instructions::InstructionTypes;
use siri8080::i8080::registers::Registers;
use siri8080::i8080::Processor;

fn run(bytes: Vec<u8>, steps: usize) -> Processor {
    let mut cpu = Processor::from_bytes(bytes);
    for _ in 0..steps {
        assert!(cpu.clock());
    }
    cpu
}

#[test]
fn mvi_adi_hlt() {
    let cpu = run(vec![0x3E, 0x42, 0xC6, 0x01, 0x76], 3);
    let f = cpu.get_flags();
    assert_eq!(cpu.get_registers().accumulator, 0x43);
    assert!(!f.carry_flag);
    assert!(!f.zero_flag);
    assert!(!f.sign_flag);
    // 0x43 has three set bits: odd parity.
    assert!(!f.parity_flag);
    assert!(!f.auxiliary_flag);
    assert_eq!(cpu.get_pc(), 5);
    assert_eq!(cpu.get_current_op().kind, InstructionTypes::HLT);
}

#[test]
fn adi_overflows_to_zero() {
    let cpu = run(vec![0x3E, 0xFF, 0xC6, 0x01], 2);
    let f = cpu.get_flags();
    assert_eq!(cpu.get_registers().accumulator, 0x00);
    assert!(f.carry_flag);
    assert!(f.zero_flag);
    assert!(!f.sign_flag);
    assert!(f.parity_flag);
    assert!(f.auxiliary_flag);
}

#[test]
fn lxi_then_mvi_m() {
    let cpu = run(vec![0x21, 0x34, 0x12, 0x36, 0xAB], 2);
    assert_eq!(cpu.get_memory_at(0x1234), 0xAB);
    assert_eq!(cpu.get_registers().h, 0x12);
    assert_eq!(cpu.get_registers().l, 0x34);
    assert_eq!(cpu.get_pc(), 5);
}

#[test]
fn jmp_skips_bytes() {
    let cpu = run(vec![0xC3, 0x06, 0x00, 0x00, 0x00, 0x00, 0x3E, 0x07], 2);
    assert_eq!(cpu.get_registers().accumulator, 0x07);
    assert_eq!(cpu.get_pc(), 0x0008);
}

#[test]
fn call_then_ret() {
    let mut image = vec![0u8; 0x20];
    image[0] = 0xCD;
    image[1] = 0x10;
    image[2] = 0x00;
    image[0x10] = 0x3E;
    image[0x11] = 0x99;
    image[0x12] = 0xC9;
    let mut cpu = Processor::from_bytes(image);
    assert!(cpu.clock());
    assert_eq!(cpu.get_pc(), 0x0010);
    assert_eq!(cpu.get_stack_pointer(), 0x001E);
    assert_eq!(cpu.get_memory_at(0x001F), 0x00);
    assert_eq!(cpu.get_memory_at(0x001E), 0x03);
    assert!(cpu.clock());
    assert!(cpu.clock());
    assert_eq!(cpu.get_registers().accumulator, 0x99);
    assert_eq!(cpu.get_pc(), 0x0003);
    assert_eq!(cpu.get_stack_pointer(), 0x0020);
}

#[test]
fn push_pop_psw() {
    let mut cpu = Processor::from_bytes(vec![0xF5, 0xF1]);
    let mut regs = Registers::new();
    regs.accumulator = 0x5A;
    cpu.set_all_registers(regs);
    cpu.set_flags_cszp(true, true, 0x80);
    let flags = cpu.get_flags();
    assert_eq!(
        flags,
        StatusFlags {
            sign_flag: true,
            zero_flag: false,
            auxiliary_flag: true,
            parity_flag: false,
            carry_flag: true,
        }
    );
    let sp = cpu.get_stack_pointer();
    assert_eq!(sp, 0x0020);
    assert!(cpu.clock());
    assert_eq!(cpu.get_stack_pointer(), 0x001E);
    assert_eq!(cpu.get_memory_at(0x001F), 0x5A);
    assert_eq!(cpu.get_memory_at(0x001E), 0x93);
    assert!(cpu.clock());
    assert_eq!(cpu.get_registers().accumulator, 0x5A);
    assert_eq!(cpu.get_flags(), flags);
    assert_eq!(cpu.get_stack_pointer(), sp);
}
