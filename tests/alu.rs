use siri8080::i8080::alu::{add8, aux_add, aux_sub, parity, sign, sub8, zero};
use siri8080::i8080::flags::StatusFlags;

#[test]
fn parity_counts_set_bits() {
    for x in 0..=255u8 {
        assert_eq!(parity(x), x.count_ones() % 2 == 0);
    }
    assert!(parity(0));
    assert!(parity(0x03));
    assert!(!parity(0x01));
    assert!(!parity(0x43));
    assert!(parity(0xFF));
}

#[test]
fn sign_and_zero() {
    assert!(sign(0x80));
    assert!(!sign(0x7F));
    assert!(zero(0));
    assert!(!zero(1));
}

#[test]
fn auxiliary_carry_and_borrow() {
    assert!(aux_add(0x0F, 0x01, false));
    assert!(!aux_add(0x0E, 0x01, false));
    assert!(aux_add(0x0E, 0x01, true));
    assert!(aux_sub(0x10, 0x01, false));
    assert!(!aux_sub(0x11, 0x01, false));
    assert!(aux_sub(0x11, 0x01, true));
}

#[test]
fn add_with_carry_in() {
    let (r, f) = add8(0xFF, 0x00, true);
    assert_eq!(r, 0x00);
    assert!(f.carry_flag && f.zero_flag && f.auxiliary_flag && f.parity_flag);
    let (r, f) = add8(0x7F, 0x7F, true);
    assert_eq!(r, 0xFF);
    assert!(!f.carry_flag && f.sign_flag && f.auxiliary_flag);
}

#[test]
fn sub_with_borrow_in() {
    let (r, f) = sub8(0x00, 0x00, true);
    assert_eq!(r, 0xFF);
    assert!(f.carry_flag && f.sign_flag && f.auxiliary_flag);
    let (r, f) = sub8(0x00, 0xFF, true);
    assert_eq!(r, 0x00);
    assert!(f.carry_flag && f.zero_flag);
    let (r, f) = sub8(0x50, 0x20, false);
    assert_eq!(r, 0x30);
    assert!(!f.carry_flag && !f.auxiliary_flag);
}

#[test]
fn add_commutes_on_all_pairs() {
    for a in (0..=255u8).step_by(7) {
        for r in 0..=255u8 {
            assert_eq!(add8(a, r, false), add8(r, a, false));
            assert_eq!(add8(a, r, true), add8(r, a, true));
        }
    }
}

#[test]
fn psw_round_trip() {
    for bits in 0..32u8 {
        let f = StatusFlags {
            sign_flag: bits & 1 != 0,
            zero_flag: bits & 2 != 0,
            auxiliary_flag: bits & 4 != 0,
            parity_flag: bits & 8 != 0,
            carry_flag: bits & 16 != 0,
        };
        assert_eq!(StatusFlags::from_psw_byte(f.to_psw_byte()), f);
    }
    for b in 0..=255u8 {
        assert_eq!(StatusFlags::from_psw_byte(b).to_psw_byte(), (b & 0xD7) | 0x02);
    }
    assert_eq!(StatusFlags::new().to_psw_byte(), 0x02);
}
