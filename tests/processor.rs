use siri8080::i8080::registers::Registers;
use siri8080::i8080::Processor;

fn cpu_with(bytes: Vec<u8>, regs: Registers) -> Processor {
    let mut cpu = Processor::from_bytes(bytes);
    cpu.set_all_registers(regs);
    cpu
}

fn regs(a: u8, b: u8, c: u8, d: u8, e: u8, h: u8, l: u8) -> Registers {
    Registers { accumulator: a, b, c, d, e, h, l }
}

#[test]
fn cold_start() {
    let cpu = Processor::from_bytes(vec![1, 2, 3]);
    assert_eq!(cpu.get_pc(), 0);
    assert_eq!(cpu.get_stack_pointer(), 0x0020);
    assert_eq!(cpu.get_registers(), Registers::new());
    assert_eq!(cpu.get_flags().to_psw_byte(), 0x02);
    assert_eq!(cpu.get_out(), 0);
    assert!(!cpu.get_interrupts_enabled());
    let mem = cpu.get_memory();
    assert_eq!(mem.len(), 0x10000);
    assert_eq!(&mem[0..4], &[1, 2, 3, 0]);
    assert_eq!(Processor::empty().get_memory_at(0), 0);
}

#[test]
fn reset_keeps_memory() {
    let mut cpu = Processor::from_bytes(vec![0x3E, 0x11, 0xFB, 0x31, 0x00, 0x40]);
    assert!(cpu.clock());
    assert!(cpu.clock());
    assert!(cpu.clock());
    assert_eq!(cpu.get_stack_pointer(), 0x4000);
    assert!(cpu.get_interrupts_enabled());
    cpu.reset();
    assert_eq!(cpu.get_pc(), 0);
    assert_eq!(cpu.get_stack_pointer(), 0x0020);
    assert_eq!(cpu.get_registers().accumulator, 0);
    assert!(!cpu.get_interrupts_enabled());
    assert_eq!(cpu.get_memory_at(1), 0x11);
    assert!(cpu.clock());
    cpu.reset_pc();
    assert_eq!(cpu.get_pc(), 0);
}

#[test]
fn sub_sbb_and_cmp() {
    let mut cpu = cpu_with(vec![0x90, 0x98, 0xB8], regs(0x10, 0x20, 0, 0, 0, 0, 0));
    assert!(cpu.clock());
    assert_eq!(cpu.get_registers().accumulator, 0xF0);
    assert!(cpu.get_flags().carry_flag);
    assert!(cpu.clock());
    assert_eq!(cpu.get_registers().accumulator, 0xCF);
    assert!(!cpu.get_flags().carry_flag);
    assert!(cpu.clock());
    assert_eq!(cpu.get_registers().accumulator, 0xCF);
    assert!(!cpu.get_flags().carry_flag);
    assert!(!cpu.get_flags().zero_flag);
}

#[test]
fn logic_ops_clear_carry() {
    let mut cpu = cpu_with(vec![0x37, 0xA0, 0xB1, 0xAA, 0xEE, 0x0F], regs(0xF0, 0x3C, 0x01, 0, 0, 0, 0));
    assert!(cpu.clock());
    assert!(cpu.get_flags().carry_flag);
    assert!(cpu.clock());
    assert_eq!(cpu.get_registers().accumulator, 0x30);
    assert!(!cpu.get_flags().carry_flag);
    assert!(cpu.clock());
    assert_eq!(cpu.get_registers().accumulator, 0x31);
    assert!(cpu.clock());
    assert_eq!(cpu.get_registers().accumulator, 0x31);
    assert!(cpu.clock());
    assert_eq!(cpu.get_registers().accumulator, 0x3E);
    assert_eq!(cpu.get_pc(), 6);
}

#[test]
fn cpi_sets_zero_on_equal() {
    let mut cpu = cpu_with(vec![0xFE, 0x42], regs(0x42, 0, 0, 0, 0, 0, 0));
    assert!(cpu.clock());
    assert!(cpu.get_flags().zero_flag);
    assert!(!cpu.get_flags().carry_flag);
    assert_eq!(cpu.get_registers().accumulator, 0x42);
}

#[test]
fn inr_dcr_keep_carry() {
    let mut cpu = cpu_with(vec![0x37, 0x04, 0x0D], regs(0, 0x0F, 0x00, 0, 0, 0, 0));
    assert!(cpu.clock());
    assert!(cpu.clock());
    assert_eq!(cpu.get_registers().b, 0x10);
    assert!(cpu.get_flags().auxiliary_flag);
    assert!(cpu.get_flags().carry_flag);
    assert!(cpu.clock());
    assert_eq!(cpu.get_registers().c, 0xFF);
    assert!(cpu.get_flags().auxiliary_flag);
    assert!(cpu.get_flags().sign_flag);
    assert!(cpu.get_flags().carry_flag);
}

#[test]
fn inx_dcx_dad() {
    let mut cpu = cpu_with(vec![0x03, 0x1B, 0x09, 0x29], regs(0, 0x12, 0xFF, 0x00, 0x00, 0x80, 0x00));
    assert!(cpu.clock());
    assert_eq!((cpu.get_registers().b, cpu.get_registers().c), (0x13, 0x00));
    assert!(cpu.clock());
    assert_eq!((cpu.get_registers().d, cpu.get_registers().e), (0xFF, 0xFF));
    assert!(cpu.clock());
    assert_eq!((cpu.get_registers().h, cpu.get_registers().l), (0x93, 0x00));
    assert!(!cpu.get_flags().carry_flag);
    assert!(cpu.clock());
    assert_eq!((cpu.get_registers().h, cpu.get_registers().l), (0x26, 0x00));
    assert!(cpu.get_flags().carry_flag);
}

#[test]
fn rotations() {
    let mut cpu = cpu_with(vec![0x07, 0x0F, 0x17, 0x1F], regs(0x81, 0, 0, 0, 0, 0, 0));
    assert!(cpu.clock());
    assert_eq!(cpu.get_registers().accumulator, 0x03);
    assert!(cpu.get_flags().carry_flag);
    assert!(cpu.clock());
    assert_eq!(cpu.get_registers().accumulator, 0x81);
    assert!(cpu.get_flags().carry_flag);
    assert!(cpu.clock());
    assert_eq!(cpu.get_registers().accumulator, 0x03);
    assert!(cpu.get_flags().carry_flag);
    assert!(cpu.clock());
    assert_eq!(cpu.get_registers().accumulator, 0x81);
    assert!(cpu.get_flags().carry_flag);
}

#[test]
fn rlc_then_rrc_restores_a() {
    for a in 0..=255u8 {
        let mut cpu = cpu_with(vec![0x07, 0x0F], regs(a, 0, 0, 0, 0, 0, 0));
        assert!(cpu.clock());
        let c = cpu.get_flags().carry_flag;
        assert!(cpu.clock());
        assert_eq!(cpu.get_registers().accumulator, a);
        assert_eq!(cpu.get_flags().carry_flag, c);
    }
}

#[test]
fn daa_cma_cmc() {
    let mut cpu = cpu_with(vec![0xC6, 0x27, 0x27, 0x2F, 0x3F], regs(0x15, 0, 0, 0, 0, 0, 0));
    assert!(cpu.clock());
    assert_eq!(cpu.get_registers().accumulator, 0x3C);
    assert!(cpu.clock());
    assert_eq!(cpu.get_registers().accumulator, 0x42);
    assert!(!cpu.get_flags().carry_flag);
    assert!(cpu.clock());
    assert_eq!(cpu.get_registers().accumulator, 0xBD);
    assert!(cpu.clock());
    assert!(cpu.get_flags().carry_flag);
}

#[test]
fn loads_and_stores() {
    let mut image = vec![
        0x3A, 0x00, 0x10, // LDA 0x1000
        0x32, 0x02, 0x10, // STA 0x1002
        0x2A, 0x00, 0x10, // LHLD 0x1000
        0x22, 0x04, 0x10, // SHLD 0x1004
        0x02, // STAX B
        0x1A, // LDAX D
        0xEB, // XCHG
    ];
    image.resize(0x1002, 0);
    image[0x1000] = 0x11;
    image[0x1001] = 0x22;
    let mut cpu = cpu_with(image, regs(0, 0x20, 0x00, 0x10, 0x01, 0, 0));
    for _ in 0..4 {
        assert!(cpu.clock());
    }
    assert_eq!(cpu.get_registers().accumulator, 0x11);
    assert_eq!(cpu.get_memory_at(0x1002), 0x11);
    assert_eq!((cpu.get_registers().h, cpu.get_registers().l), (0x22, 0x11));
    assert_eq!(cpu.get_memory_at(0x1004), 0x11);
    assert_eq!(cpu.get_memory_at(0x1005), 0x22);
    assert!(cpu.clock());
    assert_eq!(cpu.get_memory_at(0x2000), 0x11);
    assert!(cpu.clock());
    assert_eq!(cpu.get_registers().accumulator, 0x22);
    assert!(cpu.clock());
    let r = cpu.get_registers();
    assert_eq!((r.d, r.e, r.h, r.l), (0x22, 0x11, 0x10, 0x01));
    assert_eq!(cpu.get_pc(), 15);
}

#[test]
fn stack_is_lifo() {
    let mut cpu = cpu_with(vec![0xC5, 0xD5, 0xD1, 0xC1], regs(0, 0x12, 0x34, 0x56, 0x78, 0, 0));
    assert!(cpu.clock());
    assert!(cpu.clock());
    assert_eq!(cpu.get_stack_pointer(), 0x001C);
    let mut changed = cpu.get_registers();
    changed.b = 0;
    changed.c = 0;
    changed.d = 0;
    changed.e = 0;
    cpu.set_all_registers(changed);
    assert!(cpu.clock());
    assert!(cpu.clock());
    let r = cpu.get_registers();
    assert_eq!((r.b, r.c, r.d, r.e), (0x12, 0x34, 0x56, 0x78));
    assert_eq!(cpu.get_stack_pointer(), 0x0020);
}

#[test]
fn xthl_sphl_pchl() {
    let mut image = vec![0xE3, 0xF9, 0xE9];
    image.resize(0x22, 0);
    image[0x20] = 0xAA;
    image[0x21] = 0xBB;
    let mut cpu = cpu_with(image, regs(0, 0, 0, 0, 0, 0x12, 0x34));
    assert!(cpu.clock());
    assert_eq!((cpu.get_registers().h, cpu.get_registers().l), (0xBB, 0xAA));
    assert_eq!(cpu.get_memory_at(0x20), 0x34);
    assert_eq!(cpu.get_memory_at(0x21), 0x12);
    assert!(cpu.clock());
    assert_eq!(cpu.get_stack_pointer(), 0xBBAA);
    assert!(cpu.clock());
    assert_eq!(cpu.get_pc(), 0xBBAA);
}

#[test]
fn conditional_branches() {
    let mut image = vec![
        0xCA, 0x00, 0x10, // JZ 0x1000: not taken, Z clear
        0xC2, 0x08, 0x00, // JNZ 0x0008: taken
        0x00, 0x00, //
        0xDC, 0x00, 0x20, // CC 0x2000: not taken
        0xD4, 0x00, 0x20, // CNC 0x2000: taken
    ];
    image.resize(0x2002, 0);
    image[0x2000] = 0xD8; // RC: not taken
    image[0x2001] = 0xD0; // RNC: taken
    let mut cpu = Processor::from_bytes(image);
    assert!(cpu.clock());
    assert_eq!(cpu.get_pc(), 3);
    assert!(cpu.clock());
    assert_eq!(cpu.get_pc(), 8);
    assert!(cpu.clock());
    assert_eq!(cpu.get_pc(), 11);
    assert_eq!(cpu.get_stack_pointer(), 0x20);
    assert!(cpu.clock());
    assert_eq!(cpu.get_pc(), 0x2000);
    assert_eq!(cpu.get_stack_pointer(), 0x1E);
    assert!(cpu.clock());
    assert_eq!(cpu.get_pc(), 0x2001);
    assert!(cpu.clock());
    assert_eq!(cpu.get_pc(), 14);
    assert_eq!(cpu.get_stack_pointer(), 0x20);
}

#[test]
fn rst_pushes_next_address() {
    let mut cpu = Processor::from_bytes(vec![0x00, 0xEF]);
    assert!(cpu.clock());
    assert!(cpu.clock());
    assert_eq!(cpu.get_pc(), 0x28);
    assert_eq!(cpu.get_memory_at(0x1E), 0x02);
    assert_eq!(cpu.get_memory_at(0x1F), 0x00);
}

#[test]
fn out_ei_di() {
    let mut cpu = cpu_with(vec![0xD3, 0x01, 0xFB, 0xF3, 0xDB, 0x02], regs(0x77, 0, 0, 0, 0, 0, 0));
    assert!(cpu.clock());
    assert_eq!(cpu.get_out(), 0x77);
    assert_eq!(cpu.get_pc(), 2);
    assert!(cpu.clock());
    assert!(cpu.get_interrupts_enabled());
    assert!(cpu.clock());
    assert!(!cpu.get_interrupts_enabled());
    assert!(cpu.clock());
    assert_eq!(cpu.get_pc(), 6);
    assert_eq!(cpu.get_registers().accumulator, 0x77);
}

#[test]
fn running_off_the_top_is_reported() {
    let mut cpu = Processor::from_bytes(vec![0xC3, 0xFE, 0xFF]);
    assert!(cpu.clock());
    assert_eq!(cpu.get_pc(), 0xFFFE);
    assert!(cpu.clock());
    assert_eq!(cpu.get_pc(), 0xFFFF);
    assert!(!cpu.clock());
    assert_eq!(cpu.get_pc(), 0x0000);
}

#[test]
fn immediates_and_direct_address() {
    let mut cpu = Processor::from_bytes(vec![0x01, 0x34, 0x12]);
    assert_eq!(cpu.get_immediate(), 0x34);
    assert_eq!(cpu.get_direct_address(), 0x1234);
    cpu.fetch_instruction();
    assert_eq!(cpu.get_current_op().raw, 0x01);
    assert!(cpu.clock());
    assert_eq!((cpu.get_registers().b, cpu.get_registers().c), (0x12, 0x34));
    assert_eq!(cpu.get_pc(), 3);
}

#[test]
fn disassembly_lines() {
    let cpu = Processor::from_bytes(vec![0x3E, 0x42, 0xFF]);
    let lines = cpu.get_instructions();
    assert_eq!(lines.len(), 49);
    assert_eq!(lines[0], "");
    assert_eq!(lines[1], "     0:     0x3E MVI A");
    assert_eq!(lines[2], "     1:     0x42 MOV B,D");
    assert_eq!(lines[3], "     2:     0xFF RST 7");
    assert_eq!(lines[4], "     3:     0x00 NOP");
    let ahead = cpu.disassemble_ahead(2);
    assert_eq!(ahead, vec![(0, 0x3E, "MVI A".to_string()), (1, 0x42, "MOV B,D".to_string())]);
}
