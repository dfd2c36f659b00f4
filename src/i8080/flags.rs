use vstd::prelude::*;

verus! {

/// The five condition bits of the 8080.
#[derive(Clone, Copy, Debug, PartialEq, Eq, Structural)]
pub struct StatusFlags {
    pub sign_flag: bool,
    pub zero_flag: bool,
    pub auxiliary_flag: bool,
    pub parity_flag: bool,
    pub carry_flag: bool,
}

/// `mask` when `b` holds, else zero.
pub open spec fn bit_if(b: bool, mask: u8) -> u8 {
    if b {
        mask
    } else {
        0
    }
}

/// The PSW byte, laid out `S Z 0 A 0 P 1 C` from bit 7 down to bit 0.
pub open spec fn psw_byte(f: StatusFlags) -> u8 {
    bit_if(f.sign_flag, 0x80) | bit_if(f.zero_flag, 0x40) | bit_if(f.auxiliary_flag, 0x10)
        | bit_if(f.parity_flag, 0x04) | 0x02 | bit_if(f.carry_flag, 0x01)
}

/// The flags that a PSW byte holds; the reserved bits 5, 3 and 1 are ignored.
pub open spec fn flags_of_psw(b: u8) -> StatusFlags {
    StatusFlags {
        sign_flag: b & 0x80 != 0,
        zero_flag: b & 0x40 != 0,
        auxiliary_flag: b & 0x10 != 0,
        parity_flag: b & 0x04 != 0,
        carry_flag: b & 0x01 != 0,
    }
}

/// A byte with its reserved bits forced to the values a PSW byte carries:
/// bits 5 and 3 clear, bit 1 set.
pub open spec fn with_reserved_bits(b: u8) -> u8 {
    (b & 0xD7) | 0x02
}

impl StatusFlags {
    /// All flags clear: the cold-start state.
    pub fn new() -> (r: StatusFlags)
        ensures
            !r.sign_flag && !r.zero_flag && !r.auxiliary_flag && !r.parity_flag && !r.carry_flag,
    {
        StatusFlags {
            sign_flag: false,
            zero_flag: false,
            auxiliary_flag: false,
            parity_flag: false,
            carry_flag: false,
        }
    }

    /// Packs the flags into the 8080 PSW layout.
    pub fn to_psw_byte(&self) -> (r: u8)
        ensures
            r == psw_byte(*self),
    {
        let s: u8 = if self.sign_flag { 0x80 } else { 0 };
        let z: u8 = if self.zero_flag { 0x40 } else { 0 };
        let a: u8 = if self.auxiliary_flag { 0x10 } else { 0 };
        let p: u8 = if self.parity_flag { 0x04 } else { 0 };
        let c: u8 = if self.carry_flag { 0x01 } else { 0 };
        s | z | a | p | 0x02 | c
    }

    /// Unpacks bits 7, 6, 4, 2 and 0 of a PSW byte into S, Z, A, P and C.
    pub fn from_psw_byte(b: u8) -> (r: StatusFlags)
        ensures
            r == flags_of_psw(b),
    {
        StatusFlags {
            sign_flag: b & 0x80 != 0,
            zero_flag: b & 0x40 != 0,
            auxiliary_flag: b & 0x10 != 0,
            parity_flag: b & 0x04 != 0,
            carry_flag: b & 0x01 != 0,
        }
    }
}

/// Unpacking a packed flag set gives back the same flags.
pub proof fn lemma_psw_round_trip(f: StatusFlags)
    ensures
        flags_of_psw(psw_byte(f)) == f,
{
    let (s, z, a, p, c) = (f.sign_flag, f.zero_flag, f.auxiliary_flag, f.parity_flag, f.carry_flag);
    let b = psw_byte(f);
    assert(b == bit_if(s, 0x80) | bit_if(z, 0x40) | bit_if(a, 0x10) | bit_if(p, 0x04) | 0x02
        | bit_if(c, 0x01));
    assert({
        let b = bit_if(s, 0x80) | bit_if(z, 0x40) | bit_if(a, 0x10) | bit_if(p, 0x04) | 0x02
            | bit_if(c, 0x01);
        &&& (b & 0x80 != 0) == s
        &&& (b & 0x40 != 0) == z
        &&& (b & 0x10 != 0) == a
        &&& (b & 0x04 != 0) == p
        &&& (b & 0x01 != 0) == c
    }) by (bit_vector);
}

/// Packing the flags of any byte gives that byte with its reserved bits forced
/// to 0, 0 and 1.
pub proof fn lemma_psw_byte_normalized(b: u8)
    ensures
        psw_byte(flags_of_psw(b)) == with_reserved_bits(b),
{
    assert((if b & 0x80 != 0 { 0x80u8 } else { 0u8 }) | (if b & 0x40 != 0 { 0x40u8 } else { 0u8 })
        | (if b & 0x10 != 0 { 0x10u8 } else { 0u8 }) | (if b & 0x04 != 0 { 0x04u8 } else { 0u8 })
        | 0x02u8 | (if b & 0x01 != 0 { 0x01u8 } else { 0u8 }) == (b & 0xD7) | 0x02) by (bit_vector);
}

} // verus!
