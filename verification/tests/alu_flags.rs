//! Table-driven flag exactness for the byte arithmetic: known operand
//! values against bit-for-bit reference accumulator and Z/N/H/C values.
//! The packed flag byte is Z=0x80, N=0x40, H=0x20, C=0x10.

use gb_core::alu::{
    alu_add, alu_add16, alu_add_sp, alu_and, alu_daa, alu_dec, alu_inc, alu_or, alu_rl, alu_rlc,
    alu_rr, alu_rrc, alu_sla, alu_sra, alu_srl, alu_sub, alu_swap, exec_bit, exec_res_bit,
    exec_set_bit,
};

#[test]
fn sub_reference_case() {
    // 0x3A minus 0x09 with incoming carry clear: 0x31, N set, H/C/Z clear.
    let (v, f) = alu_sub(0x3A, 0x09, false);
    assert_eq!(v, 0x31);
    assert_eq!(f, 0x40);
}

#[test]
fn add_to_zero_sets_zero_half_and_carry() {
    let (v, f) = alu_add(0x3A, 0xC6, false);
    assert_eq!(v, 0x00);
    assert_eq!(f, 0x80 | 0x20 | 0x10);
}

#[test]
fn add_half_carry_only() {
    let (v, f) = alu_add(0x0F, 0x01, false);
    assert_eq!(v, 0x10);
    assert_eq!(f, 0x20);
}

#[test]
fn adc_uses_incoming_carry() {
    let (v, f) = alu_add(0xFF, 0x00, true);
    assert_eq!(v, 0x00);
    assert_eq!(f, 0x80 | 0x20 | 0x10);
    let (v2, f2) = alu_add(0xFF, 0x00, false);
    assert_eq!(v2, 0xFF);
    assert_eq!(f2, 0x00);
}

#[test]
fn sbc_borrows_through_carry() {
    // 0x00 - 0x00 - 1 = 0xFF with both borrows set.
    let (v, f) = alu_sub(0x00, 0x00, true);
    assert_eq!(v, 0xFF);
    assert_eq!(f, 0x40 | 0x20 | 0x10);
}

#[test]
fn and_sets_half_carry_always() {
    let (v, f) = alu_and(0xF0, 0x0F);
    assert_eq!(v, 0x00);
    assert_eq!(f, 0x80 | 0x20);
    let (v2, f2) = alu_and(0xFF, 0x0F);
    assert_eq!(v2, 0x0F);
    assert_eq!(f2, 0x20);
}

#[test]
fn or_and_xor_clear_nhc() {
    let (v, f) = alu_or(0x55, 0xAA);
    assert_eq!(v, 0xFF);
    assert_eq!(f, 0x00);
    let (v2, f2) = gb_core::alu::alu_xor(0x5A, 0x5A);
    assert_eq!(v2, 0x00);
    assert_eq!(f2, 0x80);
}

#[test]
fn inc_keeps_carry() {
    let (v, f) = alu_inc(0x0F, true);
    assert_eq!(v, 0x10);
    assert_eq!(f, 0x20 | 0x10);
    let (v2, f2) = alu_inc(0xFF, false);
    assert_eq!(v2, 0x00);
    assert_eq!(f2, 0x80 | 0x20);
}

#[test]
fn dec_keeps_carry() {
    let (v, f) = alu_dec(0x01, false);
    assert_eq!(v, 0x00);
    assert_eq!(f, 0x80 | 0x40);
    let (v2, f2) = alu_dec(0x10, true);
    assert_eq!(v2, 0x0F);
    assert_eq!(f2, 0x40 | 0x20 | 0x10);
    let (v3, f3) = alu_dec(0x00, false);
    assert_eq!(v3, 0xFF);
    assert_eq!(f3, 0x40 | 0x20);
}

#[test]
fn daa_after_bcd_addition() {
    // 0x15 + 0x27 = 0x3C, then decimal adjust: 0x42, carry clear.
    let (raw, f) = alu_add(0x15, 0x27, false);
    assert_eq!(raw, 0x3C);
    let n = f & 0x40 != 0;
    let h = f & 0x20 != 0;
    let c = f & 0x10 != 0;
    let (adj, f2) = alu_daa(raw, n, h, c);
    assert_eq!(adj, 0x42);
    assert_eq!(f2 & 0x10, 0);
    assert_eq!(f2 & 0x80, 0);
}

#[test]
fn daa_carries_past_ninety_nine() {
    // 0x90 + 0x20 = 0xB0, adjust: 0x10 with carry set.
    let (raw, f) = alu_add(0x90, 0x20, false);
    assert_eq!(raw, 0xB0);
    let (adj, f2) = alu_daa(raw, f & 0x40 != 0, f & 0x20 != 0, f & 0x10 != 0);
    assert_eq!(adj, 0x10);
    assert_eq!(f2 & 0x10, 0x10);
}

#[test]
fn daa_after_bcd_subtraction() {
    // 0x20 - 0x13 = 0x0D with half-borrow, adjust: 0x07.
    let (raw, f) = alu_sub(0x20, 0x13, false);
    assert_eq!(raw, 0x0D);
    let (adj, f2) = alu_daa(raw, f & 0x40 != 0, f & 0x20 != 0, f & 0x10 != 0);
    assert_eq!(adj, 0x07);
    assert_eq!(f2 & 0x40, 0x40);
}

#[test]
fn rotates_move_the_edge_bits() {
    assert_eq!(alu_rlc(0x80), (0x01, true));
    assert_eq!(alu_rlc(0x01), (0x02, false));
    assert_eq!(alu_rrc(0x01), (0x80, true));
    assert_eq!(alu_rl(0x80, false), (0x00, true));
    assert_eq!(alu_rl(0x00, true), (0x01, false));
    assert_eq!(alu_rr(0x01, true), (0x80, true));
    assert_eq!(alu_sla(0xC0), (0x80, true));
    assert_eq!(alu_sra(0x81), (0xC0, true));
    assert_eq!(alu_srl(0x81), (0x40, true));
    assert_eq!(alu_swap(0xAB), (0xBA, false));
}

#[test]
fn bit_test_set_and_reset() {
    assert!(exec_bit(0x80, 7));
    assert!(!exec_bit(0x7F, 7));
    assert_eq!(exec_set_bit(0x00, 3), 0x08);
    assert_eq!(exec_set_bit(0x08, 3), 0x08);
    assert_eq!(exec_res_bit(0x08, 3), 0x00);
    assert_eq!(exec_res_bit(0x00, 3), 0x00);
}

#[test]
fn add16_flags_from_bits_eleven_and_fifteen() {
    // Half-carry out of bit 11; zero flag keeps its incoming value.
    let (v, f) = alu_add16(0x0FFF, 0x0001, true);
    assert_eq!(v, 0x1000);
    assert_eq!(f, 0x80 | 0x20);
    let (v2, f2) = alu_add16(0xFFFF, 0x0001, false);
    assert_eq!(v2, 0x0000);
    assert_eq!(f2, 0x20 | 0x10);
}

#[test]
fn add_sp_signed_displacement() {
    let (v, f) = alu_add_sp(0xFFF8, 0x08);
    assert_eq!(v, 0x0000);
    assert_eq!(f, 0x20 | 0x10);
    let (v2, f2) = alu_add_sp(0x0000, 0xFF);
    // -1 from 0 wraps to 0xFFFF; low-byte addition 0x00 + 0xFF carries nothing.
    assert_eq!(v2, 0xFFFF);
    assert_eq!(f2, 0x00);
}
