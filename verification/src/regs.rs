//! The register file: seven 8-bit general registers plus the flag
//! register, with the three documented 16-bit pairings and the four
//! condition flags packed into the high nibble of `F`.

use vstd::prelude::*;

verus! {

/// A byte register of the CPU.  `F` is the flag register; its low nibble
/// reads as zero on the real silicon, and every write through the
/// register file masks it accordingly.
#[derive(Clone, Copy, PartialEq, Eq, Structural, Debug)]
pub enum Register {
    A,
    B,
    C,
    D,
    E,
    H,
    L,
    F,
}

/// One of the four condition flags held in the high nibble of `F`:
/// Zero, Subtract, Half-carry, Carry.
#[derive(Clone, Copy, PartialEq, Eq, Structural, Debug)]
pub enum Flag {
    Z,
    N,
    H,
    C,
}

/// The register file.  `B`/`C`, `D`/`E` and `H`/`L` pair into 16-bit
/// views with the first register as the upper byte.
#[derive(Clone, Copy, PartialEq, Eq, Structural, Debug)]
pub struct Registers {
    pub a: u8,
    pub b: u8,
    pub c: u8,
    pub d: u8,
    pub e: u8,
    pub h: u8,
    pub l: u8,
    pub f: u8,
}

/// Clears the low nibble of a byte, as every write to `F` does.
pub open spec fn mask_flags(v: u8) -> u8 {
    (v / 16 * 16) as u8
}

/// Packs the four condition flags into a flag-register byte:
/// Z in bit 7, N in bit 6, H in bit 5, C in bit 4, low nibble zero.
pub open spec fn mk_flags(z: bool, n: bool, h: bool, c: bool) -> u8 {
    ((if z {
        128int
    } else {
        0int
    }) + (if n {
        64int
    } else {
        0int
    }) + (if h {
        32int
    } else {
        0int
    }) + (if c {
        16int
    } else {
        0int
    })) as u8
}

pub open spec fn flag_z(f: u8) -> bool {
    f / 128 % 2 == 1
}

pub open spec fn flag_n(f: u8) -> bool {
    f / 64 % 2 == 1
}

pub open spec fn flag_h(f: u8) -> bool {
    f / 32 % 2 == 1
}

pub open spec fn flag_c(f: u8) -> bool {
    f / 16 % 2 == 1
}

pub open spec fn spec_flag(f: u8, which: Flag) -> bool {
    match which {
        Flag::Z => flag_z(f),
        Flag::N => flag_n(f),
        Flag::H => flag_h(f),
        Flag::C => flag_c(f),
    }
}

pub open spec fn spec_get(r: Registers, which: Register) -> u8 {
    match which {
        Register::A => r.a,
        Register::B => r.b,
        Register::C => r.c,
        Register::D => r.d,
        Register::E => r.e,
        Register::H => r.h,
        Register::L => r.l,
        Register::F => r.f,
    }
}

pub open spec fn spec_set(r: Registers, which: Register, v: u8) -> Registers {
    match which {
        Register::A => Registers { a: v, ..r },
        Register::B => Registers { b: v, ..r },
        Register::C => Registers { c: v, ..r },
        Register::D => Registers { d: v, ..r },
        Register::E => Registers { e: v, ..r },
        Register::H => Registers { h: v, ..r },
        Register::L => Registers { l: v, ..r },
        Register::F => Registers { f: mask_flags(v), ..r },
    }
}

pub open spec fn spec_bc(r: Registers) -> u16 {
    (r.b * 256 + r.c) as u16
}

pub open spec fn spec_de(r: Registers) -> u16 {
    (r.d * 256 + r.e) as u16
}

pub open spec fn spec_hl(r: Registers) -> u16 {
    (r.h * 256 + r.l) as u16
}

pub open spec fn spec_af(r: Registers) -> u16 {
    (r.a * 256 + r.f) as u16
}

/// The flag register keeps its low nibble clear; every constructor
/// establishes this and every write through the file preserves it.
pub open spec fn regs_wf(r: Registers) -> bool {
    r.f % 16 == 0
}

/// A packed flag byte always has a clear low nibble and hands each flag
/// back unchanged.
pub proof fn lemma_mk_flags(z: bool, n: bool, h: bool, c: bool)
    ensures
        mk_flags(z, n, h, c) % 16 == 0,
        flag_z(mk_flags(z, n, h, c)) == z,
        flag_n(mk_flags(z, n, h, c)) == n,
        flag_h(mk_flags(z, n, h, c)) == h,
        flag_c(mk_flags(z, n, h, c)) == c,
{
}

/// Masking clears the low nibble and is the identity on bytes whose low
/// nibble is already clear.
pub proof fn lemma_mask_flags(v: u8)
    ensures
        mask_flags(v) % 16 == 0,
        v % 16 == 0 ==> mask_flags(v) == v,
{
    assert(mask_flags(v) % 16 == 0) by (nonlinear_arith);
    assert(v % 16 == 0 ==> v / 16 * 16 == v) by (nonlinear_arith);
}

/// Reading back the register just written yields the written value,
/// masked for the flag register.
pub proof fn lemma_set_get(r: Registers, w: Register, v: u8)
    ensures
        spec_get(spec_set(r, w, v), w) == (if w is F {
            mask_flags(v)
        } else {
            v
        }),
{
}

/// Writing one register leaves every other register unchanged.
pub proof fn lemma_set_get_other(r: Registers, w: Register, o: Register, v: u8)
    requires
        w != o,
    ensures
        spec_get(spec_set(r, w, v), o) == spec_get(r, o),
{
}

/// Packs the four condition flags into a flag-register byte.
pub fn pack_flags(z: bool, n: bool, h: bool, c: bool) -> (f: u8)
    ensures
        f == mk_flags(z, n, h, c),
        f % 16 == 0,
{
    (if z {
        128u8
    } else {
        0u8
    }) + (if n {
        64u8
    } else {
        0u8
    }) + (if h {
        32u8
    } else {
        0u8
    }) + (if c {
        16u8
    } else {
        0u8
    })
}

impl Registers {
    pub fn get(&self, which: Register) -> (v: u8)
        ensures
            v == spec_get(*self, which),
    {
        match which {
            Register::A => self.a,
            Register::B => self.b,
            Register::C => self.c,
            Register::D => self.d,
            Register::E => self.e,
            Register::H => self.h,
            Register::L => self.l,
            Register::F => self.f,
        }
    }

    pub fn set(&mut self, which: Register, v: u8)
        ensures
            *final(self) == spec_set(*old(self), which, v),
    {
        match which {
            Register::A => self.a = v,
            Register::B => self.b = v,
            Register::C => self.c = v,
            Register::D => self.d = v,
            Register::E => self.e = v,
            Register::H => self.h = v,
            Register::L => self.l = v,
            Register::F => self.f = v / 16 * 16,
        }
    }

    pub fn get_bc(&self) -> (v: u16)
        ensures
            v == spec_bc(*self),
    {
        (self.b as u16) * 256 + (self.c as u16)
    }

    pub fn get_de(&self) -> (v: u16)
        ensures
            v == spec_de(*self),
    {
        (self.d as u16) * 256 + (self.e as u16)
    }

    pub fn get_hl(&self) -> (v: u16)
        ensures
            v == spec_hl(*self),
    {
        (self.h as u16) * 256 + (self.l as u16)
    }

    pub fn get_af(&self) -> (v: u16)
        ensures
            v == spec_af(*self),
    {
        (self.a as u16) * 256 + (self.f as u16)
    }

    /// Reads one condition flag out of `F`.
    pub fn flag(&self, which: Flag) -> (b: bool)
        ensures
            b == spec_flag(self.f, which),
    {
        match which {
            Flag::Z => self.f / 128 % 2 == 1,
            Flag::N => self.f / 64 % 2 == 1,
            Flag::H => self.f / 32 % 2 == 1,
            Flag::C => self.f / 16 % 2 == 1,
        }
    }

    /// Replaces all four condition flags at once; the low nibble of the
    /// new `F` is zero.
    pub fn set_flags(&mut self, z: bool, n: bool, h: bool, c: bool)
        ensures
            *final(self) == (Registers { f: mk_flags(z, n, h, c), ..*old(self) }),
    {
        self.f = (if z {
            128u8
        } else {
            0u8
        }) + (if n {
            64u8
        } else {
            0u8
        }) + (if h {
            32u8
        } else {
            0u8
        }) + (if c {
            16u8
        } else {
            0u8
        });
    }
}

} // verus!
