use siri8080::disassembler::Term;
use siri8080::i8080::flags::StatusFlags;
use siri8080::i8080::registers::Registers;

#[test]
fn default_tables() {
    let t = Term::default();
    assert_eq!(t.memory_rows().len(), 44);
    assert!(t.memory_rows().iter().all(|r| r.len() == 17 && r.iter().all(|c| c == "00")));
    assert!(t.instruction_lines().is_empty());
    assert_eq!(t.register_rows()[0], vec!["Accumulator", "B", "C"]);
    assert_eq!(t.register_rows()[3], vec!["D", "E", "H", "L"]);
    assert_eq!(t.flag_rows()[2], vec!["Auxiliary", "Parity"]);
    assert_eq!(t.pc_rows()[1], vec!["0"]);
}

#[test]
fn set_pc_in_decimal() {
    let mut t = Term::default();
    t.set_pc(65535);
    assert_eq!(t.pc_rows()[1], vec!["65535"]);
    t.set_pc(7);
    assert_eq!(t.pc_rows()[1], vec!["7"]);
    assert_eq!(t.pc_rows()[0], vec!["PC"]);
}

#[test]
fn set_regs_in_decimal() {
    let mut t = Term::default();
    let regs = Registers { accumulator: 255, b: 0, c: 10, d: 99, e: 100, h: 1, l: 42 };
    t.set_regs(&regs);
    assert_eq!(t.register_rows()[1], vec!["255", "0", "10"]);
    assert_eq!(t.register_rows()[4], vec!["99", "100", "1", "42"]);
    assert_eq!(t.register_rows()[2], vec![""]);
}

#[test]
fn set_flags_as_bits() {
    let mut t = Term::default();
    let f = StatusFlags {
        sign_flag: true,
        zero_flag: false,
        auxiliary_flag: false,
        parity_flag: true,
        carry_flag: true,
    };
    t.set_flags(&f);
    assert_eq!(t.flag_rows()[1], vec!["1", "0", "1"]);
    assert_eq!(t.flag_rows()[3], vec!["0", "1"]);
}

#[test]
fn update_instructions_replaces() {
    let mut t = Term::default();
    t.update_instructions(vec!["a".to_string(), "b".to_string()]);
    t.update_instructions(vec!["c".to_string()]);
    assert_eq!(t.instruction_lines(), &vec!["c".to_string()]);
}
