use vstd::prelude::*;

verus! {

/// Register index of B in the 8080's three-bit operand fields.
pub const B_REG: u8 = 0;
/// Register index of C.
pub const C_REG: u8 = 1;
/// Register index of D.
pub const D_REG: u8 = 2;
/// Register index of E.
pub const E_REG: u8 = 3;
/// Register index of H.
pub const H_REG: u8 = 4;
/// Register index of L.
pub const L_REG: u8 = 5;
/// Index 6 names the memory cell that HL points at.
pub const MEM_REF: u8 = 6;
/// Register index of the accumulator.
pub const A_REG: u8 = 7;

/// Register-pair index of BC in the two-bit pair fields.
pub const BC_PAIR_REG: u8 = 0;
/// Register-pair index of DE.
pub const DE_PAIR_REG: u8 = 1;
/// Register-pair index of HL.
pub const HL_PAIR_REG: u8 = 2;
/// Pair index 3: SP for LXI, INX, DCX and DAD; the PSW for PUSH and POP.
pub const SP_REG: u8 = 3;

/// The seven 8-bit registers of the 8080.
#[derive(Clone, Copy, Debug, PartialEq, Eq, Structural)]
pub struct Registers {
    pub accumulator: u8,
    pub b: u8,
    pub c: u8,
    pub d: u8,
    pub e: u8,
    pub h: u8,
    pub l: u8,
}

/// The 16-bit value of a pair whose first register is the high byte.
pub open spec fn word(msb: u8, lsb: u8) -> u16 {
    (msb as int * 256 + lsb as int) as u16
}

impl Registers {
    /// All registers zero: the cold-start state.
    pub fn new() -> (r: Registers)
        ensures
            r == (Registers { accumulator: 0, b: 0, c: 0, d: 0, e: 0, h: 0, l: 0 }),
    {
        Registers { accumulator: 0, b: 0, c: 0, d: 0, e: 0, h: 0, l: 0 }
    }

    pub open spec fn bc(&self) -> u16 {
        word(self.b, self.c)
    }

    pub open spec fn de(&self) -> u16 {
        word(self.d, self.e)
    }

    pub open spec fn hl(&self) -> u16 {
        word(self.h, self.l)
    }

    /// The pair BC, with B as the high byte.
    pub fn get_bc(&self) -> (r: u16)
        ensures
            r == self.bc(),
    {
        self.b as u16 * 256 + self.c as u16
    }

    /// The pair DE, with D as the high byte.
    pub fn get_de(&self) -> (r: u16)
        ensures
            r == self.de(),
    {
        self.d as u16 * 256 + self.e as u16
    }

    /// The pair HL, with H as the high byte.
    pub fn get_hl(&self) -> (r: u16)
        ensures
            r == self.hl(),
    {
        self.h as u16 * 256 + self.l as u16
    }
}

} // verus!
