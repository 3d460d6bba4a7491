//! Byte arithmetic with bit-exact flag semantics.  Each operation is
//! stated as a spec function over mathematical integers and implemented
//! by an executable function proved equal to it.  Results pair the new
//! byte value with the full packed flag register.

use vstd::prelude::*;
use crate::regs::mk_flags;
use crate::regs::pack_flags;

verus! {

/// Reduces an integer into the byte range.
pub open spec fn wrap8(x: int) -> u8
    recommends
        x >= 0,
{
    (x % 256) as u8
}

/// Reduces an integer into the 16-bit range.
pub open spec fn wrap16(x: int) -> u16
    recommends
        x >= 0,
{
    (x % 65536) as u16
}

/// Addition with optional incoming carry.  Zero from the result,
/// subtract clear, half-carry from the low nibbles, carry from the full
/// byte.
pub open spec fn spec_add(a: u8, b: u8, cin: bool) -> (u8, u8) {
    let ci: int = if cin {
        1int
    } else {
        0int
    };
    let r = wrap8(a + b + ci);
    (r, mk_flags(r == 0, false, a % 16 + b % 16 + ci > 15, a + b + ci > 255))
}

/// Subtraction with optional incoming borrow.  Zero from the result,
/// subtract set, half-carry when the low nibble borrows, carry when the
/// full byte borrows.
pub open spec fn spec_sub(a: u8, b: u8, cin: bool) -> (u8, u8) {
    let ci: int = if cin {
        1int
    } else {
        0int
    };
    let r = wrap8(a + 256 - b - ci);
    (r, mk_flags(r == 0, true, a % 16 < b % 16 + ci, (a as int) < b + ci))
}

/// Bitwise AND: clears subtract and carry, sets half-carry.
pub open spec fn spec_and(a: u8, b: u8) -> (u8, u8) {
    let r = a & b;
    (r, mk_flags(r == 0, false, true, false))
}

/// Bitwise XOR: clears subtract, half-carry and carry.
pub open spec fn spec_xor(a: u8, b: u8) -> (u8, u8) {
    let r = a ^ b;
    (r, mk_flags(r == 0, false, false, false))
}

/// Bitwise OR: clears subtract, half-carry and carry.
pub open spec fn spec_or(a: u8, b: u8) -> (u8, u8) {
    let r = a | b;
    (r, mk_flags(r == 0, false, false, false))
}

/// 8-bit increment: the carry flag keeps its previous value `c`.
pub open spec fn spec_inc(v: u8, c: bool) -> (u8, u8) {
    let r = wrap8(v + 1);
    (r, mk_flags(r == 0, false, v % 16 == 15, c))
}

/// 8-bit decrement: the carry flag keeps its previous value `c`.
pub open spec fn spec_dec(v: u8, c: bool) -> (u8, u8) {
    let r = wrap8(v + 255);
    (r, mk_flags(r == 0, true, v % 16 == 0, c))
}

/// Decimal adjustment after BCD arithmetic, driven by the subtract,
/// half-carry and carry flags of the preceding operation.  Zero is
/// recomputed, subtract is unchanged, half-carry is cleared, and carry
/// records a high-digit adjustment (additions only).
pub open spec fn spec_daa(a: u8, n: bool, h: bool, c: bool) -> (u8, u8) {
    if !n {
        let hi = c || a > 0x99;
        let lo = h || a % 16 > 9;
        let r = wrap8(
            a + (if lo {
                6int
            } else {
                0int
            }) + (if hi {
                0x60int
            } else {
                0int
            }),
        );
        (r, mk_flags(r == 0, false, false, hi))
    } else {
        // Subtracting 0x06 and 0x60 modulo 256 is adding 250 and 160.
        let r = wrap8(
            a + (if h {
                250int
            } else {
                0int
            }) + (if c {
                160int
            } else {
                0int
            }),
        );
        (r, mk_flags(r == 0, true, false, c))
    }
}

/// Rotate left: bit 7 moves into both the carry and bit 0.
pub open spec fn spec_rlc(a: u8) -> (u8, bool) {
    (wrap8(a * 2 + a / 128), a / 128 == 1)
}

/// Rotate left through carry: the old carry enters bit 0, bit 7 leaves
/// into the carry.
pub open spec fn spec_rl(a: u8, cin: bool) -> (u8, bool) {
    (
        wrap8(
            a * 2 + (if cin {
                1int
            } else {
                0int
            }),
        ),
        a / 128 == 1,
    )
}

/// Rotate right: bit 0 moves into both the carry and bit 7.
pub open spec fn spec_rrc(a: u8) -> (u8, bool) {
    ((a / 2 + a % 2 * 128) as u8, a % 2 == 1)
}

/// Rotate right through carry: the old carry enters bit 7, bit 0 leaves
/// into the carry.
pub open spec fn spec_rr(a: u8, cin: bool) -> (u8, bool) {
    (
        (a / 2 + (if cin {
            128int
        } else {
            0int
        })) as u8,
        a % 2 == 1,
    )
}

/// Arithmetic shift left: zero enters bit 0, bit 7 leaves into the carry.
pub open spec fn spec_sla(a: u8) -> (u8, bool) {
    (wrap8(a * 2), a / 128 == 1)
}

/// Arithmetic shift right: bit 7 is kept, bit 0 leaves into the carry.
pub open spec fn spec_sra(a: u8) -> (u8, bool) {
    ((a / 2 + a / 128 * 128) as u8, a % 2 == 1)
}

/// Exchanges the two nibbles; the carry is cleared.
pub open spec fn spec_swap(a: u8) -> (u8, bool) {
    ((a % 16 * 16 + a / 16) as u8, false)
}

/// Logical shift right: zero enters bit 7, bit 0 leaves into the carry.
pub open spec fn spec_srl(a: u8) -> (u8, bool) {
    (a / 2, a % 2 == 1)
}

/// The byte with exactly bit `n` set, for `n` in `0..8`.
pub open spec fn bit_mask(n: u8) -> u8 {
    if n == 0 {
        1
    } else if n == 1 {
        2
    } else if n == 2 {
        4
    } else if n == 3 {
        8
    } else if n == 4 {
        16
    } else if n == 5 {
        32
    } else if n == 6 {
        64
    } else {
        128
    }
}

/// Whether bit `n` of `a` is set.
pub open spec fn spec_bit(a: u8, n: u8) -> bool {
    a / bit_mask(n) % 2 == 1
}

/// `a` with bit `n` set.
pub open spec fn spec_set_bit(a: u8, n: u8) -> u8 {
    if spec_bit(a, n) {
        a
    } else {
        wrap8(a + bit_mask(n))
    }
}

/// `a` with bit `n` cleared.
pub open spec fn spec_res_bit(a: u8, n: u8) -> u8 {
    if spec_bit(a, n) {
        wrap8(a + 256 - bit_mask(n))
    } else {
        a
    }
}

/// 16-bit addition into the `H`/`L` pair: the zero flag keeps its
/// previous value `z`, half-carry comes out of bit 11 and carry out of
/// bit 15.
pub open spec fn spec_add16(hl: u16, x: u16, z: bool) -> (u16, u8) {
    let r = wrap16(hl + x);
    (r, mk_flags(z, false, hl % 4096 + x % 4096 > 4095, hl + x > 65535))
}

/// Stack-pointer plus signed byte (`ADD SP` and `LD HL,SP+`): zero and
/// subtract are cleared; half-carry and carry come from the unsigned
/// low-byte addition.
pub open spec fn spec_add_sp(sp: u16, d: u8) -> (u16, u8) {
    let r = wrap16(
        sp + d + (if d < 128 {
            0int
        } else {
            // Adding 0xFF00 is subtracting 256 modulo 65536.
            65280int
        }),
    );
    (r, mk_flags(false, false, sp % 16 + d % 16 > 15, sp % 256 + d > 255))
}

/// Addition with optional incoming carry; returns the new accumulator
/// and the packed flags.
pub fn alu_add(a: u8, b: u8, cin: bool) -> (r: (u8, u8))
    ensures
        r == spec_add(a, b, cin),
        r.1 % 16 == 0,
{
    let ci: u16 = if cin {
        1
    } else {
        0
    };
    let sum: u16 = a as u16 + b as u16 + ci;
    let v = (sum % 256) as u8;
    let h = a % 16 + b % 16 + (ci as u8) > 15;
    (v, pack_flags(v == 0, false, h, sum > 255))
}

/// Subtraction with optional incoming borrow; returns the new
/// accumulator and the packed flags.
pub fn alu_sub(a: u8, b: u8, cin: bool) -> (r: (u8, u8))
    ensures
        r == spec_sub(a, b, cin),
        r.1 % 16 == 0,
{
    let ci: u16 = if cin {
        1
    } else {
        0
    };
    let diff: u16 = a as u16 + 256 - b as u16 - ci;
    let v = (diff % 256) as u8;
    let lo_a = (a % 16) as u16;
    let lo_b = (b % 16) as u16;
    let h = lo_a < lo_b + ci;
    (v, pack_flags(v == 0, true, h, (a as u16) < b as u16 + ci))
}

pub fn alu_and(a: u8, b: u8) -> (r: (u8, u8))
    ensures
        r == spec_and(a, b),
        r.1 % 16 == 0,
{
    let v = a & b;
    (v, pack_flags(v == 0, false, true, false))
}

pub fn alu_xor(a: u8, b: u8) -> (r: (u8, u8))
    ensures
        r == spec_xor(a, b),
        r.1 % 16 == 0,
{
    let v = a ^ b;
    (v, pack_flags(v == 0, false, false, false))
}

pub fn alu_or(a: u8, b: u8) -> (r: (u8, u8))
    ensures
        r == spec_or(a, b),
        r.1 % 16 == 0,
{
    let v = a | b;
    (v, pack_flags(v == 0, false, false, false))
}

pub fn alu_inc(v: u8, c: bool) -> (r: (u8, u8))
    ensures
        r == spec_inc(v, c),
        r.1 % 16 == 0,
{
    let nv = ((v as u16 + 1) % 256) as u8;
    (nv, pack_flags(nv == 0, false, v % 16 == 15, c))
}

pub fn alu_dec(v: u8, c: bool) -> (r: (u8, u8))
    ensures
        r == spec_dec(v, c),
        r.1 % 16 == 0,
{
    let nv = ((v as u16 + 255) % 256) as u8;
    (nv, pack_flags(nv == 0, true, v % 16 == 0, c))
}

/// Decimal adjustment after BCD arithmetic.
pub fn alu_daa(a: u8, n: bool, h: bool, c: bool) -> (r: (u8, u8))
    ensures
        r == spec_daa(a, n, h, c),
        r.1 % 16 == 0,
{
    if !n {
        let hi = c || a > 0x99;
        let lo = h || a % 16 > 9;
        let adj: u16 = (if lo {
            6
        } else {
            0
        }) + (if hi {
            0x60
        } else {
            0
        });
        let v = ((a as u16 + adj) % 256) as u8;
        (v, pack_flags(v == 0, false, false, hi))
    } else {
        let adj: u16 = (if h {
            250
        } else {
            0
        }) + (if c {
            160
        } else {
            0
        });
        let v = ((a as u16 + adj) % 256) as u8;
        (v, pack_flags(v == 0, true, false, c))
    }
}

/// Dispatches one secondary-table shift/rotate to its spec; returns the
/// new byte and the carry that left.
pub fn alu_rlc(a: u8) -> (r: (u8, bool))
    ensures
        r == spec_rlc(a),
{
    (((a as u16 * 2 + a as u16 / 128) % 256) as u8, a / 128 == 1)
}

pub fn alu_rl(a: u8, cin: bool) -> (r: (u8, bool))
    ensures
        r == spec_rl(a, cin),
{
    let ci: u16 = if cin {
        1
    } else {
        0
    };
    (((a as u16 * 2 + ci) % 256) as u8, a / 128 == 1)
}

pub fn alu_rrc(a: u8) -> (r: (u8, bool))
    ensures
        r == spec_rrc(a),
{
    (a / 2 + a % 2 * 128, a % 2 == 1)
}

pub fn alu_rr(a: u8, cin: bool) -> (r: (u8, bool))
    ensures
        r == spec_rr(a, cin),
{
    let hi: u8 = if cin {
        128
    } else {
        0
    };
    (a / 2 + hi, a % 2 == 1)
}

pub fn alu_sla(a: u8) -> (r: (u8, bool))
    ensures
        r == spec_sla(a),
{
    (((a as u16 * 2) % 256) as u8, a / 128 == 1)
}

pub fn alu_sra(a: u8) -> (r: (u8, bool))
    ensures
        r == spec_sra(a),
{
    (a / 2 + a / 128 * 128, a % 2 == 1)
}

pub fn alu_swap(a: u8) -> (r: (u8, bool))
    ensures
        r == spec_swap(a),
{
    (a % 16 * 16 + a / 16, false)
}

pub fn alu_srl(a: u8) -> (r: (u8, bool))
    ensures
        r == spec_srl(a),
{
    (a / 2, a % 2 == 1)
}

/// The byte with exactly bit `n` set, for `n` in `0..8`.
pub fn exec_bit_mask(n: u8) -> (m: u8)
    ensures
        m == bit_mask(n),
{
    if n == 0 {
        1
    } else if n == 1 {
        2
    } else if n == 2 {
        4
    } else if n == 3 {
        8
    } else if n == 4 {
        16
    } else if n == 5 {
        32
    } else if n == 6 {
        64
    } else {
        128
    }
}

/// Whether bit `n` of `a` is set.
pub fn exec_bit(a: u8, n: u8) -> (b: bool)
    ensures
        b == spec_bit(a, n),
{
    let m = exec_bit_mask(n);
    a / m % 2 == 1
}

pub fn exec_set_bit(a: u8, n: u8) -> (r: u8)
    ensures
        r == spec_set_bit(a, n),
{
    let m = exec_bit_mask(n);
    if a / m % 2 == 1 {
        a
    } else {
        ((a as u16 + m as u16) % 256) as u8
    }
}

pub fn exec_res_bit(a: u8, n: u8) -> (r: u8)
    ensures
        r == spec_res_bit(a, n),
{
    let m = exec_bit_mask(n);
    if a / m % 2 == 1 {
        ((a as u16 + 256 - m as u16) % 256) as u8
    } else {
        a
    }
}

/// 16-bit addition into `H`/`L`; the zero flag keeps its value `z`.
pub fn alu_add16(hl: u16, x: u16, z: bool) -> (r: (u16, u8))
    ensures
        r == spec_add16(hl, x, z),
        r.1 % 16 == 0,
{
    let sum: u32 = hl as u32 + x as u32;
    let v = (sum % 65536) as u16;
    let h = hl % 4096 + x % 4096 > 4095;
    (v, pack_flags(z, false, h, sum > 65535))
}

/// Stack-pointer plus signed byte, with the low-byte carry flags.
pub fn alu_add_sp(sp: u16, d: u8) -> (r: (u16, u8))
    ensures
        r == spec_add_sp(sp, d),
        r.1 % 16 == 0,
{
    let ext: u32 = if d < 128 {
        0
    } else {
        65280
    };
    let v = ((sp as u32 + d as u32 + ext) % 65536) as u16;
    let h = sp % 16 + (d % 16) as u16 > 15;
    let c = sp % 256 + d as u16 > 255;
    (v, pack_flags(false, false, h, c))
}

} // verus!
