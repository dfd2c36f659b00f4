use vstd::prelude::*;
use crate::i8080::flags::StatusFlags;

verus! {

/// The number of set bits of `x`.
pub open spec fn pop_count(x: nat) -> nat
    decreases x,
{
    if x == 0 {
        0
    } else {
        x % 2 + pop_count(x / 2)
    }
}

/// 1 for a set carry, 0 for a clear one.
pub open spec fn carry_value(c: bool) -> int {
    if c {
        1
    } else {
        0
    }
}

/// Carry out of bit 3 when `a + b + cin` is computed.
pub open spec fn aux_add_spec(a: u8, b: u8, cin: bool) -> bool {
    a % 16 + b % 16 + carry_value(cin) > 15
}

/// Borrow into bit 4 when `a - b - cin` is computed.
pub open spec fn aux_sub_spec(a: u8, b: u8, cin: bool) -> bool {
    a % 16 < b % 16 + carry_value(cin)
}

/// The flags after an operation that gave `res`: sign, zero and parity from
/// the result, carry and auxiliary carry as given.
pub open spec fn result_flags(res: u8, carry: bool, aux: bool) -> StatusFlags {
    StatusFlags {
        sign_flag: res >= 0x80,
        zero_flag: res == 0,
        auxiliary_flag: aux,
        parity_flag: pop_count(res as nat) % 2 == 0,
        carry_flag: carry,
    }
}

/// Result and flags of the 8-bit addition `a + b + cin`.
pub open spec fn add_outcome(a: u8, b: u8, cin: bool) -> (u8, StatusFlags) {
    let sum = a + b + carry_value(cin);
    let res = (sum % 256) as u8;
    (res, result_flags(res, sum > 255, aux_add_spec(a, b, cin)))
}

/// Result and flags of the 8-bit subtraction `a - b - cin`; the carry is the borrow.
pub open spec fn sub_outcome(a: u8, b: u8, cin: bool) -> (u8, StatusFlags) {
    let diff = a - b - carry_value(cin);
    let res = ((diff + 512) % 256) as u8;
    (res, result_flags(res, diff < 0, aux_sub_spec(a, b, cin)))
}

/// Result and flags of AND, OR or XOR giving `res`: carry and auxiliary carry clear.
pub open spec fn logic_outcome(res: u8) -> (u8, StatusFlags) {
    (res, result_flags(res, false, false))
}

/// True iff `x` has an even number of set bits.
pub fn parity(x: u8) -> (r: bool)
    ensures
        r == (pop_count(x as nat) % 2 == 0),
{
    let mut n: u8 = x;
    let mut count: u8 = 0;
    while n > 0
        invariant
            count as nat + pop_count(n as nat) == pop_count(x as nat),
            count as int + n as int <= x as int,
        decreases n,
    {
        count = count + n % 2;
        n = n / 2;
    }
    count % 2 == 0
}

/// Bit 7 of `x`.
pub fn sign(x: u8) -> (r: bool)
    ensures
        r == (x >= 0x80),
{
    x >= 0x80
}

/// True iff `x` is zero.
pub fn zero(x: u8) -> (r: bool)
    ensures
        r == (x == 0),
{
    x == 0
}

/// Carry out of the low nibble in `a + b + cin`.
pub fn aux_add(a: u8, b: u8, cin: bool) -> (r: bool)
    ensures
        r == aux_add_spec(a, b, cin),
{
    let c: u8 = if cin { 1 } else { 0 };
    (a % 16) + (b % 16) + c > 15
}

/// Borrow out of the low nibble in `a - b - cin`.
pub fn aux_sub(a: u8, b: u8, cin: bool) -> (r: bool)
    ensures
        r == aux_sub_spec(a, b, cin),
{
    let c: u8 = if cin { 1 } else { 0 };
    (a % 16) < (b % 16) + c
}

/// The flags for a result `res` with the given carry and auxiliary carry.
pub fn flags_for(res: u8, carry: bool, aux: bool) -> (r: StatusFlags)
    ensures
        r == result_flags(res, carry, aux),
{
    StatusFlags {
        sign_flag: sign(res),
        zero_flag: zero(res),
        auxiliary_flag: aux,
        parity_flag: parity(res),
        carry_flag: carry,
    }
}

/// 8-bit addition with carry in: the result and all five flags.
pub fn add8(a: u8, b: u8, cin: bool) -> (r: (u8, StatusFlags))
    ensures
        r == add_outcome(a, b, cin),
{
    let c: u16 = if cin { 1 } else { 0 };
    let sum: u16 = a as u16 + b as u16 + c;
    let res = (sum % 256) as u8;
    (res, flags_for(res, sum > 255, aux_add(a, b, cin)))
}

/// 8-bit subtraction with borrow in: the result and all five flags.
pub fn sub8(a: u8, b: u8, cin: bool) -> (r: (u8, StatusFlags))
    ensures
        r == sub_outcome(a, b, cin),
{
    let c: u16 = if cin { 1 } else { 0 };
    let taken: u16 = b as u16 + c;
    let borrow = (a as u16) < taken;
    let res = ((a as u16 + 512 - taken) % 256) as u8;
    (res, flags_for(res, borrow, aux_sub(a, b, cin)))
}

/// Addition commutes: swapping the operands changes neither the result nor
/// any flag, the auxiliary carry included.
pub proof fn lemma_add_commutes(a: u8, r: u8, cin: bool)
    ensures
        add_outcome(a, r, cin) == add_outcome(r, a, cin),
        aux_add_spec(a, r, cin) == aux_add_spec(r, a, cin),
{
}

} // verus!
