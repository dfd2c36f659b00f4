use vstd::prelude::*;
use vstd::string::StringExecFns;
use crate::text::{digit_char, digit_str};

verus! {

/// The instruction kinds of the 8080, named by their mnemonics.
#[derive(Clone, Copy, Debug, PartialEq, Eq, Structural)]
pub enum InstructionTypes {
    NOP,
    MOV,
    ADD,
    ADC,
    SUB,
    SBB,
    ANA,
    XRA,
    ORA,
    CMP,
    ADI,
    ACI,
    SUI,
    SBI,
    ANI,
    XRI,
    ORI,
    CPI,
    MVI,
    LXI,
    LDA,
    STA,
    LDAX,
    STAX,
    LHLD,
    SHLD,
    INR,
    DCR,
    INX,
    DCX,
    DAD,
    JMP,
    JC,
    JNC,
    JZ,
    JNZ,
    JPE,
    JPO,
    JP,
    JM,
    CALL,
    CC,
    CNC,
    CZ,
    CNZ,
    CPE,
    CPO,
    CP,
    CM,
    RET,
    RC,
    RNC,
    RZ,
    RNZ,
    RPE,
    RPO,
    RP,
    RM,
    PUSH,
    POP,
    RRC,
    RLC,
    RAR,
    RAL,
    XCHG,
    XTHL,
    OUT,
    IN,
    EI,
    DI,
    HLT,
    RST,
    DAA,
    CMA,
    STC,
    CMC,
    SPHL,
    PCHL,
    Unknown,
}

/// One decoded opcode byte: its kind and its operand fields.
#[derive(Clone, Copy, Debug, PartialEq, Eq, Structural)]
pub struct Instruction {
    pub kind: InstructionTypes,
    /// The opcode byte itself.
    pub raw: u8,
    /// Bits 2..0: the source register of MOV and of the register ALU forms.
    pub low3: u8,
    /// Bits 5..3: the destination register of MOV, MVI, INR and DCR, a condition
    /// code, or a restart number.
    pub high3: u8,
    /// Bits 5..4: the register pair of LXI, DAD, INX, DCX, PUSH, POP, LDAX and STAX.
    pub rp: u8,
}

/// ADD, ADC, SUB, SBB, ANA, XRA, ORA, CMP, in the order of bits 5..3.
pub open spec fn alu_kind(y: int) -> InstructionTypes {
    if y == 0 {
        InstructionTypes::ADD
    } else if y == 1 {
        InstructionTypes::ADC
    } else if y == 2 {
        InstructionTypes::SUB
    } else if y == 3 {
        InstructionTypes::SBB
    } else if y == 4 {
        InstructionTypes::ANA
    } else if y == 5 {
        InstructionTypes::XRA
    } else if y == 6 {
        InstructionTypes::ORA
    } else {
        InstructionTypes::CMP
    }
}

/// The immediate ALU forms, in the same order as `alu_kind`.
pub open spec fn alu_immediate_kind(y: int) -> InstructionTypes {
    if y == 0 {
        InstructionTypes::ADI
    } else if y == 1 {
        InstructionTypes::ACI
    } else if y == 2 {
        InstructionTypes::SUI
    } else if y == 3 {
        InstructionTypes::SBI
    } else if y == 4 {
        InstructionTypes::ANI
    } else if y == 5 {
        InstructionTypes::XRI
    } else if y == 6 {
        InstructionTypes::ORI
    } else {
        InstructionTypes::CPI
    }
}

/// Conditional returns by condition code: NZ, Z, NC, C, PO, PE, P, M.
pub open spec fn ret_kind(y: int) -> InstructionTypes {
    if y == 0 {
        InstructionTypes::RNZ
    } else if y == 1 {
        InstructionTypes::RZ
    } else if y == 2 {
        InstructionTypes::RNC
    } else if y == 3 {
        InstructionTypes::RC
    } else if y == 4 {
        InstructionTypes::RPO
    } else if y == 5 {
        InstructionTypes::RPE
    } else if y == 6 {
        InstructionTypes::RP
    } else {
        InstructionTypes::RM
    }
}

/// Conditional jumps by condition code.
pub open spec fn jump_kind(y: int) -> InstructionTypes {
    if y == 0 {
        InstructionTypes::JNZ
    } else if y == 1 {
        InstructionTypes::JZ
    } else if y == 2 {
        InstructionTypes::JNC
    } else if y == 3 {
        InstructionTypes::JC
    } else if y == 4 {
        InstructionTypes::JPO
    } else if y == 5 {
        InstructionTypes::JPE
    } else if y == 6 {
        InstructionTypes::JP
    } else {
        InstructionTypes::JM
    }
}

/// Conditional calls by condition code.
pub open spec fn call_kind(y: int) -> InstructionTypes {
    if y == 0 {
        InstructionTypes::CNZ
    } else if y == 1 {
        InstructionTypes::CZ
    } else if y == 2 {
        InstructionTypes::CNC
    } else if y == 3 {
        InstructionTypes::CC
    } else if y == 4 {
        InstructionTypes::CPO
    } else if y == 5 {
        InstructionTypes::CPE
    } else if y == 6 {
        InstructionTypes::CP
    } else {
        InstructionTypes::CM
    }
}

/// The kind of an opcode byte, read from its fields `xx yyy zzz`. The
/// undocumented aliases 0x08, 0x10, ..., 0x38 are NOP; 0xCB, 0xD9, 0xDD, 0xED
/// and 0xFD are Unknown.
pub open spec fn kind_of(b: u8) -> InstructionTypes {
    let x = b / 64;
    let y = (b / 8) % 8;
    let z = b % 8;
    if x == 1 {
        if b == 0x76 {
            InstructionTypes::HLT
        } else {
            InstructionTypes::MOV
        }
    } else if x == 2 {
        alu_kind(y as int)
    } else if x == 0 {
        if z == 0 {
            InstructionTypes::NOP
        } else if z == 1 {
            if y % 2 == 0 {
                InstructionTypes::LXI
            } else {
                InstructionTypes::DAD
            }
        } else if z == 2 {
            if y == 0 || y == 2 {
                InstructionTypes::STAX
            } else if y == 1 || y == 3 {
                InstructionTypes::LDAX
            } else if y == 4 {
                InstructionTypes::SHLD
            } else if y == 5 {
                InstructionTypes::LHLD
            } else if y == 6 {
                InstructionTypes::STA
            } else {
                InstructionTypes::LDA
            }
        } else if z == 3 {
            if y % 2 == 0 {
                InstructionTypes::INX
            } else {
                InstructionTypes::DCX
            }
        } else if z == 4 {
            InstructionTypes::INR
        } else if z == 5 {
            InstructionTypes::DCR
        } else if z == 6 {
            InstructionTypes::MVI
        } else if y == 0 {
            InstructionTypes::RLC
        } else if y == 1 {
            InstructionTypes::RRC
        } else if y == 2 {
            InstructionTypes::RAL
        } else if y == 3 {
            InstructionTypes::RAR
        } else if y == 4 {
            InstructionTypes::DAA
        } else if y == 5 {
            InstructionTypes::CMA
        } else if y == 6 {
            InstructionTypes::STC
        } else {
            InstructionTypes::CMC
        }
    } else {
        if z == 0 {
            ret_kind(y as int)
        } else if z == 1 {
            if y % 2 == 0 {
                InstructionTypes::POP
            } else if y == 1 {
                InstructionTypes::RET
            } else if y == 5 {
                InstructionTypes::PCHL
            } else if y == 7 {
                InstructionTypes::SPHL
            } else {
                InstructionTypes::Unknown
            }
        } else if z == 2 {
            jump_kind(y as int)
        } else if z == 3 {
            if y == 0 {
                InstructionTypes::JMP
            } else if y == 2 {
                InstructionTypes::OUT
            } else if y == 3 {
                InstructionTypes::IN
            } else if y == 4 {
                InstructionTypes::XTHL
            } else if y == 5 {
                InstructionTypes::XCHG
            } else if y == 6 {
                InstructionTypes::DI
            } else if y == 7 {
                InstructionTypes::EI
            } else {
                InstructionTypes::Unknown
            }
        } else if z == 4 {
            call_kind(y as int)
        } else if z == 5 {
            if y % 2 == 0 {
                InstructionTypes::PUSH
            } else if y == 1 {
                InstructionTypes::CALL
            } else {
                InstructionTypes::Unknown
            }
        } else if z == 6 {
            alu_immediate_kind(y as int)
        } else {
            InstructionTypes::RST
        }
    }
}

/// The decoded form of an opcode byte.
pub open spec fn decode(b: u8) -> Instruction {
    Instruction { kind: kind_of(b), raw: b, low3: b % 8, high3: (b / 8) % 8, rp: (b / 16) % 4 }
}

/// The number of bytes an instruction of kind `k` takes: the opcode and its
/// immediate operand bytes.
pub open spec fn instruction_length(k: InstructionTypes) -> nat {
    match k {
        InstructionTypes::LXI | InstructionTypes::LDA | InstructionTypes::STA
        | InstructionTypes::LHLD | InstructionTypes::SHLD | InstructionTypes::JMP
        | InstructionTypes::JC | InstructionTypes::JNC | InstructionTypes::JZ
        | InstructionTypes::JNZ | InstructionTypes::JPE | InstructionTypes::JPO
        | InstructionTypes::JP | InstructionTypes::JM | InstructionTypes::CALL
        | InstructionTypes::CC | InstructionTypes::CNC | InstructionTypes::CZ
        | InstructionTypes::CNZ | InstructionTypes::CPE | InstructionTypes::CPO
        | InstructionTypes::CP | InstructionTypes::CM => 3,
        InstructionTypes::MVI | InstructionTypes::ADI | InstructionTypes::ACI
        | InstructionTypes::SUI | InstructionTypes::SBI | InstructionTypes::ANI
        | InstructionTypes::XRI | InstructionTypes::ORI | InstructionTypes::CPI
        | InstructionTypes::OUT | InstructionTypes::IN => 2,
        _ => 1,
    }
}

/// The mnemonic of a kind, as the disassembler shows it.
pub open spec fn kind_name(k: InstructionTypes) -> Seq<char> {
    match k {
        InstructionTypes::NOP => "NOP"@,
        InstructionTypes::MOV => "MOV"@,
        InstructionTypes::ADD => "ADD"@,
        InstructionTypes::ADC => "ADC"@,
        InstructionTypes::SUB => "SUB"@,
        InstructionTypes::SBB => "SBB"@,
        InstructionTypes::ANA => "ANA"@,
        InstructionTypes::XRA => "XRA"@,
        InstructionTypes::ORA => "ORA"@,
        InstructionTypes::CMP => "CMP"@,
        InstructionTypes::ADI => "ADI"@,
        InstructionTypes::ACI => "ACI"@,
        InstructionTypes::SUI => "SUI"@,
        InstructionTypes::SBI => "SBI"@,
        InstructionTypes::ANI => "ANI"@,
        InstructionTypes::XRI => "XRI"@,
        InstructionTypes::ORI => "ORI"@,
        InstructionTypes::CPI => "CPI"@,
        InstructionTypes::MVI => "MVI"@,
        InstructionTypes::LXI => "LXI"@,
        InstructionTypes::LDA => "LDA"@,
        InstructionTypes::STA => "STA"@,
        InstructionTypes::LDAX => "LDAX"@,
        InstructionTypes::STAX => "STAX"@,
        InstructionTypes::LHLD => "LHLD"@,
        InstructionTypes::SHLD => "SHLD"@,
        InstructionTypes::INR => "INR"@,
        InstructionTypes::DCR => "DCR"@,
        InstructionTypes::INX => "INX"@,
        InstructionTypes::DCX => "DCX"@,
        InstructionTypes::DAD => "DAD"@,
        InstructionTypes::JMP => "JMP"@,
        InstructionTypes::JC => "JC"@,
        InstructionTypes::JNC => "JNC"@,
        InstructionTypes::JZ => "JZ"@,
        InstructionTypes::JNZ => "JNZ"@,
        InstructionTypes::JPE => "JPE"@,
        InstructionTypes::JPO => "JPO"@,
        InstructionTypes::JP => "JP"@,
        InstructionTypes::JM => "JM"@,
        InstructionTypes::CALL => "CALL"@,
        InstructionTypes::CC => "CC"@,
        InstructionTypes::CNC => "CNC"@,
        InstructionTypes::CZ => "CZ"@,
        InstructionTypes::CNZ => "CNZ"@,
        InstructionTypes::CPE => "CPE"@,
        InstructionTypes::CPO => "CPO"@,
        InstructionTypes::CP => "CP"@,
        InstructionTypes::CM => "CM"@,
        InstructionTypes::RET => "RET"@,
        InstructionTypes::RC => "RC"@,
        InstructionTypes::RNC => "RNC"@,
        InstructionTypes::RZ => "RZ"@,
        InstructionTypes::RNZ => "RNZ"@,
        InstructionTypes::RPE => "RPE"@,
        InstructionTypes::RPO => "RPO"@,
        InstructionTypes::RP => "RP"@,
        InstructionTypes::RM => "RM"@,
        InstructionTypes::PUSH => "PUSH"@,
        InstructionTypes::POP => "POP"@,
        InstructionTypes::RRC => "RRC"@,
        InstructionTypes::RLC => "RLC"@,
        InstructionTypes::RAR => "RAR"@,
        InstructionTypes::RAL => "RAL"@,
        InstructionTypes::XCHG => "XCHG"@,
        InstructionTypes::XTHL => "XTHL"@,
        InstructionTypes::OUT => "OUT"@,
        InstructionTypes::IN => "IN"@,
        InstructionTypes::EI => "EI"@,
        InstructionTypes::DI => "DI"@,
        InstructionTypes::HLT => "HLT"@,
        InstructionTypes::RST => "RST"@,
        InstructionTypes::DAA => "DAA"@,
        InstructionTypes::CMA => "CMA"@,
        InstructionTypes::STC => "STC"@,
        InstructionTypes::CMC => "CMC"@,
        InstructionTypes::SPHL => "SPHL"@,
        InstructionTypes::PCHL => "PCHL"@,
        InstructionTypes::Unknown => "???"@,
    }
}

/// The name of a register index: B, C, D, E, H, L, M, A.
pub open spec fn register_name(r: u8) -> Seq<char> {
    if r == 0 {
        "B"@
    } else if r == 1 {
        "C"@
    } else if r == 2 {
        "D"@
    } else if r == 3 {
        "E"@
    } else if r == 4 {
        "H"@
    } else if r == 5 {
        "L"@
    } else if r == 6 {
        "M"@
    } else {
        "A"@
    }
}

/// The name of a register-pair index, with `psw` choosing PSW over SP for index 3.
pub open spec fn pair_name(rp: u8, psw: bool) -> Seq<char> {
    if rp == 0 {
        "B"@
    } else if rp == 1 {
        "D"@
    } else if rp == 2 {
        "H"@
    } else if psw {
        "PSW"@
    } else {
        "SP"@
    }
}

/// The operand text that follows the mnemonic, empty for instructions whose
/// operands are implicit or immediate.
pub open spec fn operand_text(ins: Instruction) -> Seq<char> {
    match ins.kind {
        InstructionTypes::MOV => " "@ + register_name(ins.high3) + ","@ + register_name(ins.low3),
        InstructionTypes::MVI | InstructionTypes::INR | InstructionTypes::DCR => " "@
            + register_name(ins.high3),
        InstructionTypes::ADD | InstructionTypes::ADC | InstructionTypes::SUB
        | InstructionTypes::SBB | InstructionTypes::ANA | InstructionTypes::XRA
        | InstructionTypes::ORA | InstructionTypes::CMP => " "@ + register_name(ins.low3),
        InstructionTypes::LXI | InstructionTypes::DAD | InstructionTypes::INX
        | InstructionTypes::DCX | InstructionTypes::LDAX | InstructionTypes::STAX => " "@
            + pair_name(ins.rp, false),
        InstructionTypes::PUSH | InstructionTypes::POP => " "@ + pair_name(ins.rp, true),
        InstructionTypes::RST => " "@ + seq![digit_char(ins.high3 as nat)],
        _ => Seq::empty(),
    }
}

/// The display text of a decoded instruction.
pub open spec fn mnemonic_of(ins: Instruction) -> Seq<char> {
    kind_name(ins.kind) + operand_text(ins)
}

/// The mnemonic of a kind.
pub fn kind_str(k: InstructionTypes) -> (r: &'static str)
    ensures
        r@ == kind_name(k),
{
    match k {
        InstructionTypes::NOP => "NOP",
        InstructionTypes::MOV => "MOV",
        InstructionTypes::ADD => "ADD",
        InstructionTypes::ADC => "ADC",
        InstructionTypes::SUB => "SUB",
        InstructionTypes::SBB => "SBB",
        InstructionTypes::ANA => "ANA",
        InstructionTypes::XRA => "XRA",
        InstructionTypes::ORA => "ORA",
        InstructionTypes::CMP => "CMP",
        InstructionTypes::ADI => "ADI",
        InstructionTypes::ACI => "ACI",
        InstructionTypes::SUI => "SUI",
        InstructionTypes::SBI => "SBI",
        InstructionTypes::ANI => "ANI",
        InstructionTypes::XRI => "XRI",
        InstructionTypes::ORI => "ORI",
        InstructionTypes::CPI => "CPI",
        InstructionTypes::MVI => "MVI",
        InstructionTypes::LXI => "LXI",
        InstructionTypes::LDA => "LDA",
        InstructionTypes::STA => "STA",
        InstructionTypes::LDAX => "LDAX",
        InstructionTypes::STAX => "STAX",
        InstructionTypes::LHLD => "LHLD",
        InstructionTypes::SHLD => "SHLD",
        InstructionTypes::INR => "INR",
        InstructionTypes::DCR => "DCR",
        InstructionTypes::INX => "INX",
        InstructionTypes::DCX => "DCX",
        InstructionTypes::DAD => "DAD",
        InstructionTypes::JMP => "JMP",
        InstructionTypes::JC => "JC",
        InstructionTypes::JNC => "JNC",
        InstructionTypes::JZ => "JZ",
        InstructionTypes::JNZ => "JNZ",
        InstructionTypes::JPE => "JPE",
        InstructionTypes::JPO => "JPO",
        InstructionTypes::JP => "JP",
        InstructionTypes::JM => "JM",
        InstructionTypes::CALL => "CALL",
        InstructionTypes::CC => "CC",
        InstructionTypes::CNC => "CNC",
        InstructionTypes::CZ => "CZ",
        InstructionTypes::CNZ => "CNZ",
        InstructionTypes::CPE => "CPE",
        InstructionTypes::CPO => "CPO",
        InstructionTypes::CP => "CP",
        InstructionTypes::CM => "CM",
        InstructionTypes::RET => "RET",
        InstructionTypes::RC => "RC",
        InstructionTypes::RNC => "RNC",
        InstructionTypes::RZ => "RZ",
        InstructionTypes::RNZ => "RNZ",
        InstructionTypes::RPE => "RPE",
        InstructionTypes::RPO => "RPO",
        InstructionTypes::RP => "RP",
        InstructionTypes::RM => "RM",
        InstructionTypes::PUSH => "PUSH",
        InstructionTypes::POP => "POP",
        InstructionTypes::RRC => "RRC",
        InstructionTypes::RLC => "RLC",
        InstructionTypes::RAR => "RAR",
        InstructionTypes::RAL => "RAL",
        InstructionTypes::XCHG => "XCHG",
        InstructionTypes::XTHL => "XTHL",
        InstructionTypes::OUT => "OUT",
        InstructionTypes::IN => "IN",
        InstructionTypes::EI => "EI",
        InstructionTypes::DI => "DI",
        InstructionTypes::HLT => "HLT",
        InstructionTypes::RST => "RST",
        InstructionTypes::DAA => "DAA",
        InstructionTypes::CMA => "CMA",
        InstructionTypes::STC => "STC",
        InstructionTypes::CMC => "CMC",
        InstructionTypes::SPHL => "SPHL",
        InstructionTypes::PCHL => "PCHL",
        InstructionTypes::Unknown => "???",
    }
}

/// The name of a register index.
pub fn register_str(r: u8) -> (s: &'static str)
    ensures
        s@ == register_name(r),
{
    if r == 0 {
        "B"
    } else if r == 1 {
        "C"
    } else if r == 2 {
        "D"
    } else if r == 3 {
        "E"
    } else if r == 4 {
        "H"
    } else if r == 5 {
        "L"
    } else if r == 6 {
        "M"
    } else {
        "A"
    }
}

/// The name of a register-pair index.
pub fn pair_str(rp: u8, psw: bool) -> (s: &'static str)
    ensures
        s@ == pair_name(rp, psw),
{
    if rp == 0 {
        "B"
    } else if rp == 1 {
        "D"
    } else if rp == 2 {
        "H"
    } else if psw {
        "PSW"
    } else {
        "SP"
    }
}

fn alu_kind_of(y: u8) -> (k: InstructionTypes)
    ensures
        k == alu_kind(y as int),
{
    if y == 0 {
        InstructionTypes::ADD
    } else if y == 1 {
        InstructionTypes::ADC
    } else if y == 2 {
        InstructionTypes::SUB
    } else if y == 3 {
        InstructionTypes::SBB
    } else if y == 4 {
        InstructionTypes::ANA
    } else if y == 5 {
        InstructionTypes::XRA
    } else if y == 6 {
        InstructionTypes::ORA
    } else {
        InstructionTypes::CMP
    }
}

fn alu_immediate_kind_of(y: u8) -> (k: InstructionTypes)
    ensures
        k == alu_immediate_kind(y as int),
{
    if y == 0 {
        InstructionTypes::ADI
    } else if y == 1 {
        InstructionTypes::ACI
    } else if y == 2 {
        InstructionTypes::SUI
    } else if y == 3 {
        InstructionTypes::SBI
    } else if y == 4 {
        InstructionTypes::ANI
    } else if y == 5 {
        InstructionTypes::XRI
    } else if y == 6 {
        InstructionTypes::ORI
    } else {
        InstructionTypes::CPI
    }
}

fn ret_kind_of(y: u8) -> (k: InstructionTypes)
    ensures
        k == ret_kind(y as int),
{
    if y == 0 {
        InstructionTypes::RNZ
    } else if y == 1 {
        InstructionTypes::RZ
    } else if y == 2 {
        InstructionTypes::RNC
    } else if y == 3 {
        InstructionTypes::RC
    } else if y == 4 {
        InstructionTypes::RPO
    } else if y == 5 {
        InstructionTypes::RPE
    } else if y == 6 {
        InstructionTypes::RP
    } else {
        InstructionTypes::RM
    }
}

fn jump_kind_of(y: u8) -> (k: InstructionTypes)
    ensures
        k == jump_kind(y as int),
{
    if y == 0 {
        InstructionTypes::JNZ
    } else if y == 1 {
        InstructionTypes::JZ
    } else if y == 2 {
        InstructionTypes::JNC
    } else if y == 3 {
        InstructionTypes::JC
    } else if y == 4 {
        InstructionTypes::JPO
    } else if y == 5 {
        InstructionTypes::JPE
    } else if y == 6 {
        InstructionTypes::JP
    } else {
        InstructionTypes::JM
    }
}

fn call_kind_of(y: u8) -> (k: InstructionTypes)
    ensures
        k == call_kind(y as int),
{
    if y == 0 {
        InstructionTypes::CNZ
    } else if y == 1 {
        InstructionTypes::CZ
    } else if y == 2 {
        InstructionTypes::CNC
    } else if y == 3 {
        InstructionTypes::CC
    } else if y == 4 {
        InstructionTypes::CPO
    } else if y == 5 {
        InstructionTypes::CPE
    } else if y == 6 {
        InstructionTypes::CP
    } else {
        InstructionTypes::CM
    }
}

fn decode_kind(b: u8) -> (k: InstructionTypes)
    ensures
        k == kind_of(b),
{
    let x: u8 = b / 64;
    let y: u8 = (b / 8) % 8;
    let z: u8 = b % 8;
    if x == 1 {
        if b == 0x76 {
            InstructionTypes::HLT
        } else {
            InstructionTypes::MOV
        }
    } else if x == 2 {
        alu_kind_of(y)
    } else if x == 0 {
        if z == 0 {
            InstructionTypes::NOP
        } else if z == 1 {
            if y % 2 == 0 {
                InstructionTypes::LXI
            } else {
                InstructionTypes::DAD
            }
        } else if z == 2 {
            if y == 0 || y == 2 {
                InstructionTypes::STAX
            } else if y == 1 || y == 3 {
                InstructionTypes::LDAX
            } else if y == 4 {
                InstructionTypes::SHLD
            } else if y == 5 {
                InstructionTypes::LHLD
            } else if y == 6 {
                InstructionTypes::STA
            } else {
                InstructionTypes::LDA
            }
        } else if z == 3 {
            if y % 2 == 0 {
                InstructionTypes::INX
            } else {
                InstructionTypes::DCX
            }
        } else if z == 4 {
            InstructionTypes::INR
        } else if z == 5 {
            InstructionTypes::DCR
        } else if z == 6 {
            InstructionTypes::MVI
        } else if y == 0 {
            InstructionTypes::RLC
        } else if y == 1 {
            InstructionTypes::RRC
        } else if y == 2 {
            InstructionTypes::RAL
        } else if y == 3 {
            InstructionTypes::RAR
        } else if y == 4 {
            InstructionTypes::DAA
        } else if y == 5 {
            InstructionTypes::CMA
        } else if y == 6 {
            InstructionTypes::STC
        } else {
            InstructionTypes::CMC
        }
    } else {
        if z == 0 {
            ret_kind_of(y)
        } else if z == 1 {
            if y % 2 == 0 {
                InstructionTypes::POP
            } else if y == 1 {
                InstructionTypes::RET
            } else if y == 5 {
                InstructionTypes::PCHL
            } else if y == 7 {
                InstructionTypes::SPHL
            } else {
                InstructionTypes::Unknown
            }
        } else if z == 2 {
            jump_kind_of(y)
        } else if z == 3 {
            if y == 0 {
                InstructionTypes::JMP
            } else if y == 2 {
                InstructionTypes::OUT
            } else if y == 3 {
                InstructionTypes::IN
            } else if y == 4 {
                InstructionTypes::XTHL
            } else if y == 5 {
                InstructionTypes::XCHG
            } else if y == 6 {
                InstructionTypes::DI
            } else if y == 7 {
                InstructionTypes::EI
            } else {
                InstructionTypes::Unknown
            }
        } else if z == 4 {
            call_kind_of(y)
        } else if z == 5 {
            if y % 2 == 0 {
                InstructionTypes::PUSH
            } else if y == 1 {
                InstructionTypes::CALL
            } else {
                InstructionTypes::Unknown
            }
        } else if z == 6 {
            alu_immediate_kind_of(y)
        } else {
            InstructionTypes::RST
        }
    }
}

impl Instruction {
    /// A NOP at opcode 0: the instruction held before anything was fetched.
    pub fn new() -> (r: Instruction)
        ensures
            r == decode(0),
    {
        Instruction::from_byte(0)
    }

    /// Decodes one opcode byte. Every byte decodes; no memory is read.
    pub fn from_byte(b: u8) -> (r: Instruction)
        ensures
            r == decode(b),
    {
        Instruction { kind: decode_kind(b), raw: b, low3: b % 8, high3: (b / 8) % 8, rp: (b / 16) % 4 }
    }

    /// Replaces this instruction with the decoding of `b`.
    pub fn byte_to_op(&mut self, b: u8)
        ensures
            *final(self) == decode(b),
    {
        *self = Instruction::from_byte(b);
    }

    /// The number of bytes the instruction takes, opcode included.
    pub fn length(&self) -> (r: u8)
        ensures
            r as nat == instruction_length(self.kind),
    {
        match self.kind {
            InstructionTypes::LXI | InstructionTypes::LDA | InstructionTypes::STA
            | InstructionTypes::LHLD | InstructionTypes::SHLD | InstructionTypes::JMP
            | InstructionTypes::JC | InstructionTypes::JNC | InstructionTypes::JZ
            | InstructionTypes::JNZ | InstructionTypes::JPE | InstructionTypes::JPO
            | InstructionTypes::JP | InstructionTypes::JM | InstructionTypes::CALL
            | InstructionTypes::CC | InstructionTypes::CNC | InstructionTypes::CZ
            | InstructionTypes::CNZ | InstructionTypes::CPE | InstructionTypes::CPO
            | InstructionTypes::CP | InstructionTypes::CM => 3,
            InstructionTypes::MVI | InstructionTypes::ADI | InstructionTypes::ACI
            | InstructionTypes::SUI | InstructionTypes::SBI | InstructionTypes::ANI
            | InstructionTypes::XRI | InstructionTypes::ORI | InstructionTypes::CPI
            | InstructionTypes::OUT | InstructionTypes::IN => 2,
            _ => 1,
        }
    }

    /// The display text, such as `MOV B,C`, `MVI A`, `PUSH PSW` or `RST 7`.
    pub fn mnemonic(&self) -> (r: String)
        requires
            self.high3 < 8,
        ensures
            r@ == mnemonic_of(*self),
    {
        let mut text = String::from_str(kind_str(self.kind));
        match self.kind {
            InstructionTypes::MOV => {
                text.append(" ");
                text.append(register_str(self.high3));
                text.append(",");
                text.append(register_str(self.low3));
            },
            InstructionTypes::MVI | InstructionTypes::INR | InstructionTypes::DCR => {
                text.append(" ");
                text.append(register_str(self.high3));
            },
            InstructionTypes::ADD | InstructionTypes::ADC | InstructionTypes::SUB
            | InstructionTypes::SBB | InstructionTypes::ANA | InstructionTypes::XRA
            | InstructionTypes::ORA | InstructionTypes::CMP => {
                text.append(" ");
                text.append(register_str(self.low3));
            },
            InstructionTypes::LXI | InstructionTypes::DAD | InstructionTypes::INX
            | InstructionTypes::DCX | InstructionTypes::LDAX | InstructionTypes::STAX => {
                text.append(" ");
                text.append(pair_str(self.rp, false));
            },
            InstructionTypes::PUSH | InstructionTypes::POP => {
                text.append(" ");
                text.append(pair_str(self.rp, true));
            },
            InstructionTypes::RST => {
                text.append(" ");
                text.append(digit_str(self.high3));
            },
            _ => {},
        }
        proof {
            assert(text@ =~= mnemonic_of(*self));
        }
        text
    }

    /// The opcode byte with its display text.
    pub fn get_name_byte(&self) -> (r: (u8, String))
        requires
            self.high3 < 8,
        ensures
            r.0 == self.raw,
            r.1@ == mnemonic_of(*self),
    {
        (self.raw, self.mnemonic())
    }
}

/// Every byte decodes to some kind with a non-empty display text.
pub proof fn lemma_decode_total(b: u8)
    ensures
        decode(b).low3 < 8 && decode(b).high3 < 8 && decode(b).rp < 4,
        mnemonic_of(decode(b)).len() > 0,
{
    lemma_kind_name_nonempty(decode(b).kind);
}

/// Every kind has a non-empty mnemonic.
proof fn lemma_kind_name_nonempty(k: InstructionTypes)
    ensures
        kind_name(k).len() > 0,
{
    match k {
        InstructionTypes::NOP => reveal_strlit("NOP"),
        InstructionTypes::MOV => reveal_strlit("MOV"),
        InstructionTypes::ADD => reveal_strlit("ADD"),
        InstructionTypes::ADC => reveal_strlit("ADC"),
        InstructionTypes::SUB => reveal_strlit("SUB"),
        InstructionTypes::SBB => reveal_strlit("SBB"),
        InstructionTypes::ANA => reveal_strlit("ANA"),
        InstructionTypes::XRA => reveal_strlit("XRA"),
        InstructionTypes::ORA => reveal_strlit("ORA"),
        InstructionTypes::CMP => reveal_strlit("CMP"),
        InstructionTypes::ADI => reveal_strlit("ADI"),
        InstructionTypes::ACI => reveal_strlit("ACI"),
        InstructionTypes::SUI => reveal_strlit("SUI"),
        InstructionTypes::SBI => reveal_strlit("SBI"),
        InstructionTypes::ANI => reveal_strlit("ANI"),
        InstructionTypes::XRI => reveal_strlit("XRI"),
        InstructionTypes::ORI => reveal_strlit("ORI"),
        InstructionTypes::CPI => reveal_strlit("CPI"),
        InstructionTypes::MVI => reveal_strlit("MVI"),
        InstructionTypes::LXI => reveal_strlit("LXI"),
        InstructionTypes::LDA => reveal_strlit("LDA"),
        InstructionTypes::STA => reveal_strlit("STA"),
        InstructionTypes::LDAX => reveal_strlit("LDAX"),
        InstructionTypes::STAX => reveal_strlit("STAX"),
        InstructionTypes::LHLD => reveal_strlit("LHLD"),
        InstructionTypes::SHLD => reveal_strlit("SHLD"),
        InstructionTypes::INR => reveal_strlit("INR"),
        InstructionTypes::DCR => reveal_strlit("DCR"),
        InstructionTypes::INX => reveal_strlit("INX"),
        InstructionTypes::DCX => reveal_strlit("DCX"),
        InstructionTypes::DAD => reveal_strlit("DAD"),
        InstructionTypes::JMP => reveal_strlit("JMP"),
        InstructionTypes::JC => reveal_strlit("JC"),
        InstructionTypes::JNC => reveal_strlit("JNC"),
        InstructionTypes::JZ => reveal_strlit("JZ"),
        InstructionTypes::JNZ => reveal_strlit("JNZ"),
        InstructionTypes::JPE => reveal_strlit("JPE"),
        InstructionTypes::JPO => reveal_strlit("JPO"),
        InstructionTypes::JP => reveal_strlit("JP"),
        InstructionTypes::JM => reveal_strlit("JM"),
        InstructionTypes::CALL => reveal_strlit("CALL"),
        InstructionTypes::CC => reveal_strlit("CC"),
        InstructionTypes::CNC => reveal_strlit("CNC"),
        InstructionTypes::CZ => reveal_strlit("CZ"),
        InstructionTypes::CNZ => reveal_strlit("CNZ"),
        InstructionTypes::CPE => reveal_strlit("CPE"),
        InstructionTypes::CPO => reveal_strlit("CPO"),
        InstructionTypes::CP => reveal_strlit("CP"),
        InstructionTypes::CM => reveal_strlit("CM"),
        InstructionTypes::RET => reveal_strlit("RET"),
        InstructionTypes::RC => reveal_strlit("RC"),
        InstructionTypes::RNC => reveal_strlit("RNC"),
        InstructionTypes::RZ => reveal_strlit("RZ"),
        InstructionTypes::RNZ => reveal_strlit("RNZ"),
        InstructionTypes::RPE => reveal_strlit("RPE"),
        InstructionTypes::RPO => reveal_strlit("RPO"),
        InstructionTypes::RP => reveal_strlit("RP"),
        InstructionTypes::RM => reveal_strlit("RM"),
        InstructionTypes::PUSH => reveal_strlit("PUSH"),
        InstructionTypes::POP => reveal_strlit("POP"),
        InstructionTypes::RRC => reveal_strlit("RRC"),
        InstructionTypes::RLC => reveal_strlit("RLC"),
        InstructionTypes::RAR => reveal_strlit("RAR"),
        InstructionTypes::RAL => reveal_strlit("RAL"),
        InstructionTypes::XCHG => reveal_strlit("XCHG"),
        InstructionTypes::XTHL => reveal_strlit("XTHL"),
        InstructionTypes::OUT => reveal_strlit("OUT"),
        InstructionTypes::IN => reveal_strlit("IN"),
        InstructionTypes::EI => reveal_strlit("EI"),
        InstructionTypes::DI => reveal_strlit("DI"),
        InstructionTypes::HLT => reveal_strlit("HLT"),
        InstructionTypes::RST => reveal_strlit("RST"),
        InstructionTypes::DAA => reveal_strlit("DAA"),
        InstructionTypes::CMA => reveal_strlit("CMA"),
        InstructionTypes::STC => reveal_strlit("STC"),
        InstructionTypes::CMC => reveal_strlit("CMC"),
        InstructionTypes::SPHL => reveal_strlit("SPHL"),
        InstructionTypes::PCHL => reveal_strlit("PCHL"),
        InstructionTypes::Unknown => reveal_strlit("???"),
    }
}

} // verus!
