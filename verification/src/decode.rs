//! The opcode decode tables: a pure mapping from an opcode byte to the
//! ordered micro-operation sequence that implements the instruction.
//! The primary table covers the single-byte opcode space; the secondary
//! table covers the `0xCB`-prefixed shift/rotate/bit space.  Decoding
//! never reads or mutates CPU state.

use vstd::prelude::*;
use crate::micro::MicroInstr as M;
use crate::micro::Addr;
use crate::micro::Pair;
use crate::micro::AluOp;
use crate::micro::Operand;
use crate::micro::PushSrc;
use crate::micro::CbOp;
use crate::micro::CbTarget;
use crate::micro::Fault;
use crate::regs::Register as R;
use crate::regs::Flag;

verus! {

/// The register selected by a three-bit operand field.  Code 6 names the
/// memory operand and never reaches this table.
pub open spec fn reg_code(i: u8) -> R
    recommends
        i < 8,
        i != 6,
{
    if i == 0 {
        R::B
    } else if i == 1 {
        R::C
    } else if i == 2 {
        R::D
    } else if i == 3 {
        R::E
    } else if i == 4 {
        R::H
    } else if i == 5 {
        R::L
    } else {
        R::A
    }
}

/// The accumulator operation selected by a three-bit opcode field.
pub open spec fn alu_code(i: u8) -> AluOp
    recommends
        i < 8,
{
    if i == 0 {
        AluOp::Add
    } else if i == 1 {
        AluOp::Adc
    } else if i == 2 {
        AluOp::Sub
    } else if i == 3 {
        AluOp::Sbc
    } else if i == 4 {
        AluOp::And
    } else if i == 5 {
        AluOp::Xor
    } else if i == 6 {
        AluOp::Or
    } else {
        AluOp::Cp
    }
}

/// The shift/rotate operation selected by a three-bit secondary-table
/// field.
pub open spec fn rot_code(i: u8) -> CbOp
    recommends
        i < 8,
{
    if i == 0 {
        CbOp::Rlc
    } else if i == 1 {
        CbOp::Rrc
    } else if i == 2 {
        CbOp::Rl
    } else if i == 3 {
        CbOp::Rr
    } else if i == 4 {
        CbOp::Sla
    } else if i == 5 {
        CbOp::Sra
    } else if i == 6 {
        CbOp::Swap
    } else {
        CbOp::Srl
    }
}

/// Whether the opcode has assigned behaviour.  The eleven reserved
/// values below decode to nothing on the real silicon; executing one is
/// a fatal fault.
pub open spec fn spec_legal(op: u8) -> bool {
    op != 0xD3 && op != 0xDB && op != 0xDD && op != 0xE3 && op != 0xE4 && op != 0xEB && op
        != 0xEC && op != 0xED && op != 0xF4 && op != 0xFC && op != 0xFD
}

/// Primary table, rows `0x00`-`0x3F`: loads, 16-bit arithmetic, relative
/// jumps and the one-cycle miscellaneous operations.
#[verifier::opaque]
pub open spec fn spec_decode_lo(op: u8) -> Seq<M> {
    if op == 0x00 {
        seq![M::Nop]
    } else if op == 0x01 {
        seq![M::Nop, M::LdRN(R::C), M::LdRN(R::B)]
    } else if op == 0x02 {
        seq![M::Nop, M::LdMemR(Addr::BC, R::A)]
    } else if op == 0x03 {
        seq![M::Nop, M::IncPair(Pair::BC)]
    } else if op == 0x04 {
        seq![M::IncReg(R::B)]
    } else if op == 0x05 {
        seq![M::DecReg(R::B)]
    } else if op == 0x06 {
        seq![M::Nop, M::LdRN(R::B)]
    } else if op == 0x07 {
        seq![M::Rlca]
    } else if op == 0x08 {
        seq![M::Nop, M::ReadLsb, M::ReadMsb, M::LdNNSpLo, M::LdNNSpHi]
    } else if op == 0x09 {
        seq![M::Nop, M::AddHLPair(Pair::BC)]
    } else if op == 0x0A {
        seq![M::Nop, M::LdRMem(R::A, Addr::BC)]
    } else if op == 0x0B {
        seq![M::Nop, M::DecPair(Pair::BC)]
    } else if op == 0x0C {
        seq![M::IncReg(R::C)]
    } else if op == 0x0D {
        seq![M::DecReg(R::C)]
    } else if op == 0x0E {
        seq![M::Nop, M::LdRN(R::C)]
    } else if op == 0x0F {
        seq![M::Rrca]
    } else if op == 0x10 {
        seq![M::Stop]
    } else if op == 0x11 {
        seq![M::Nop, M::LdRN(R::E), M::LdRN(R::D)]
    } else if op == 0x12 {
        seq![M::Nop, M::LdMemR(Addr::DE, R::A)]
    } else if op == 0x13 {
        seq![M::Nop, M::IncPair(Pair::DE)]
    } else if op == 0x14 {
        seq![M::IncReg(R::D)]
    } else if op == 0x15 {
        seq![M::DecReg(R::D)]
    } else if op == 0x16 {
        seq![M::Nop, M::LdRN(R::D)]
    } else if op == 0x17 {
        seq![M::Rla]
    } else if op == 0x18 {
        seq![M::ReadLsb, M::Nop, M::Jr]
    } else if op == 0x19 {
        seq![M::Nop, M::AddHLPair(Pair::DE)]
    } else if op == 0x1A {
        seq![M::Nop, M::LdRMem(R::A, Addr::DE)]
    } else if op == 0x1B {
        seq![M::Nop, M::DecPair(Pair::DE)]
    } else if op == 0x1C {
        seq![M::IncReg(R::E)]
    } else if op == 0x1D {
        seq![M::DecReg(R::E)]
    } else if op == 0x1E {
        seq![M::Nop, M::LdRN(R::E)]
    } else if op == 0x1F {
        seq![M::Rra]
    } else if op == 0x20 {
        seq![M::ReadLsb, M::Cond(Flag::Z, false), M::Jr]
    } else if op == 0x21 {
        seq![M::Nop, M::LdRN(R::L), M::LdRN(R::H)]
    } else if op == 0x22 {
        seq![M::Nop, M::LdHLIncA]
    } else if op == 0x23 {
        seq![M::Nop, M::IncPair(Pair::HL)]
    } else if op == 0x24 {
        seq![M::IncReg(R::H)]
    } else if op == 0x25 {
        seq![M::DecReg(R::H)]
    } else if op == 0x26 {
        seq![M::Nop, M::LdRN(R::H)]
    } else if op == 0x27 {
        seq![M::Daa]
    } else if op == 0x28 {
        seq![M::ReadLsb, M::Cond(Flag::Z, true), M::Jr]
    } else if op == 0x29 {
        seq![M::Nop, M::AddHLPair(Pair::HL)]
    } else if op == 0x2A {
        seq![M::Nop, M::LdAHLInc]
    } else if op == 0x2B {
        seq![M::Nop, M::DecPair(Pair::HL)]
    } else if op == 0x2C {
        seq![M::IncReg(R::L)]
    } else if op == 0x2D {
        seq![M::DecReg(R::L)]
    } else if op == 0x2E {
        seq![M::Nop, M::LdRN(R::L)]
    } else if op == 0x2F {
        seq![M::Cpl]
    } else if op == 0x30 {
        seq![M::ReadLsb, M::Cond(Flag::C, false), M::Jr]
    } else if op == 0x31 {
        seq![M::ReadLsb, M::ReadMsb, M::LdSpNN]
    } else if op == 0x32 {
        seq![M::Nop, M::LdHLDecA]
    } else if op == 0x33 {
        seq![M::Nop, M::IncPair(Pair::SP)]
    } else if op == 0x34 {
        seq![M::Nop, M::Nop, M::IncMemHL]
    } else if op == 0x35 {
        seq![M::Nop, M::Nop, M::DecMemHL]
    } else if op == 0x36 {
        seq![M::Nop, M::ReadLsb, M::LdHLN]
    } else if op == 0x37 {
        seq![M::Scf]
    } else if op == 0x38 {
        seq![M::ReadLsb, M::Cond(Flag::C, true), M::Jr]
    } else if op == 0x39 {
        seq![M::Nop, M::AddHLPair(Pair::SP)]
    } else if op == 0x3A {
        seq![M::Nop, M::LdAHLDec]
    } else if op == 0x3B {
        seq![M::Nop, M::DecPair(Pair::SP)]
    } else if op == 0x3C {
        seq![M::IncReg(R::A)]
    } else if op == 0x3D {
        seq![M::DecReg(R::A)]
    } else if op == 0x3E {
        seq![M::Nop, M::LdRN(R::A)]
    } else {
        seq![M::Ccf]
    }
}

/// Primary table, rows `0x40`-`0x7F`: the register-to-register load
/// block, with the memory operand in column and row six and `HALT` in
/// the slot a memory-to-memory load would occupy.
#[verifier::opaque]
pub open spec fn spec_decode_ld(op: u8) -> Seq<M>
    recommends
        0x40 <= op < 0x80,
{
    let d = ((op - 0x40) / 8) as u8;
    let s = (op % 8) as u8;
    if op == 0x76 {
        seq![M::Halt]
    } else if d == 6 {
        seq![M::Nop, M::LdMemR(Addr::HL, reg_code(s))]
    } else if s == 6 {
        seq![M::Nop, M::LdRMem(reg_code(d), Addr::HL)]
    } else {
        seq![M::LdRR(reg_code(d), reg_code(s))]
    }
}

/// Primary table, rows `0x80`-`0xBF`: accumulator arithmetic against a
/// register or the memory operand.
#[verifier::opaque]
pub open spec fn spec_decode_alu(op: u8) -> Seq<M>
    recommends
        0x80 <= op < 0xC0,
{
    let i = ((op - 0x80) / 8) as u8;
    let s = (op % 8) as u8;
    if s == 6 {
        seq![M::Nop, M::Alu(alu_code(i), Operand::MemHL)]
    } else {
        seq![M::Alu(alu_code(i), Operand::Reg(reg_code(s)))]
    }
}

/// Primary table, rows `0xC0`-`0xFF`: jumps, calls, returns, restarts,
/// stack operations, immediate arithmetic, the high-page loads and the
/// interrupt-enable operations.  Reserved opcodes decode to the empty
/// sequence, which `spec_decode` only exposes behind `spec_legal`.
#[verifier::opaque]
pub open spec fn spec_decode_hi(op: u8) -> Seq<M>
    recommends
        0xC0 <= op,
{
    if op % 8 == 6 {
        // Immediate-operand accumulator arithmetic.
        seq![M::ReadLsb, M::Alu(alu_code(((op - 0xC0) / 8) as u8), Operand::Imm)]
    } else if op % 8 == 7 {
        // Restarts; the vector is fixed by the opcode.
        seq![
            M::Nop,
            M::Push(PushSrc::PcHi),
            M::Push(PushSrc::PcLo),
            M::Rst((((op - 0xC0) / 8 * 8)) as u16),
        ]
    } else if op == 0xC0 {
        seq![M::Nop, M::Cond(Flag::Z, false), M::PopPcLsb, M::PopPcMsb, M::Jp]
    } else if op == 0xC1 {
        seq![M::Nop, M::PopR(R::C), M::PopR(R::B)]
    } else if op == 0xC2 {
        seq![M::ReadLsb, M::ReadMsb, M::Cond(Flag::Z, false), M::Jp]
    } else if op == 0xC3 {
        seq![M::ReadLsb, M::ReadMsb, M::Nop, M::Jp]
    } else if op == 0xC4 {
        seq![
            M::ReadLsb,
            M::ReadMsb,
            M::Cond(Flag::Z, false),
            M::Push(PushSrc::PcHi),
            M::Push(PushSrc::PcLo),
            M::Jp,
        ]
    } else if op == 0xC5 {
        seq![M::Nop, M::Nop, M::Push(PushSrc::Reg(R::B)), M::Push(PushSrc::Reg(R::C))]
    } else if op == 0xC8 {
        seq![M::Nop, M::Cond(Flag::Z, true), M::PopPcLsb, M::PopPcMsb, M::Jp]
    } else if op == 0xC9 {
        seq![M::Nop, M::PopPcLsb, M::PopPcMsb, M::Jp]
    } else if op == 0xCA {
        seq![M::ReadLsb, M::ReadMsb, M::Cond(Flag::Z, true), M::Jp]
    } else if op == 0xCB {
        // Escape into the secondary table: the engine fetches the next
        // byte and decodes it there.
        Seq::<M>::empty()
    } else if op == 0xCC {
        seq![
            M::ReadLsb,
            M::ReadMsb,
            M::Cond(Flag::Z, true),
            M::Push(PushSrc::PcHi),
            M::Push(PushSrc::PcLo),
            M::Jp,
        ]
    } else if op == 0xCD {
        seq![
            M::Nop,
            M::ReadLsb,
            M::ReadMsb,
            M::Push(PushSrc::PcHi),
            M::Push(PushSrc::PcLo),
            M::Jp,
        ]
    } else if op == 0xD0 {
        seq![M::Nop, M::Cond(Flag::C, false), M::PopPcLsb, M::PopPcMsb, M::Jp]
    } else if op == 0xD1 {
        seq![M::Nop, M::PopR(R::E), M::PopR(R::D)]
    } else if op == 0xD2 {
        seq![M::ReadLsb, M::ReadMsb, M::Cond(Flag::C, false), M::Jp]
    } else if op == 0xD4 {
        seq![
            M::ReadLsb,
            M::ReadMsb,
            M::Cond(Flag::C, false),
            M::Push(PushSrc::PcHi),
            M::Push(PushSrc::PcLo),
            M::Jp,
        ]
    } else if op == 0xD5 {
        seq![M::Nop, M::Nop, M::Push(PushSrc::Reg(R::D)), M::Push(PushSrc::Reg(R::E))]
    } else if op == 0xD8 {
        seq![M::Nop, M::Cond(Flag::C, true), M::PopPcLsb, M::PopPcMsb, M::Jp]
    } else if op == 0xD9 {
        seq![M::Nop, M::PopPcLsb, M::PopPcMsb, M::Reti]
    } else if op == 0xDA {
        seq![M::ReadLsb, M::ReadMsb, M::Cond(Flag::C, true), M::Jp]
    } else if op == 0xDC {
        seq![
            M::ReadLsb,
            M::ReadMsb,
            M::Cond(Flag::C, true),
            M::Push(PushSrc::PcHi),
            M::Push(PushSrc::PcLo),
            M::Jp,
        ]
    } else if op == 0xE0 {
        seq![M::Nop, M::ReadLsb, M::LdMemR(Addr::HighImm, R::A)]
    } else if op == 0xE1 {
        seq![M::Nop, M::PopR(R::L), M::PopR(R::H)]
    } else if op == 0xE2 {
        seq![M::Nop, M::LdMemR(Addr::HighC, R::A)]
    } else if op == 0xE5 {
        seq![M::Nop, M::Nop, M::Push(PushSrc::Reg(R::H)), M::Push(PushSrc::Reg(R::L))]
    } else if op == 0xE8 {
        seq![M::Nop, M::ReadLsb, M::Nop, M::AddSpN]
    } else if op == 0xE9 {
        seq![M::JpHL]
    } else if op == 0xEA {
        seq![M::Nop, M::ReadLsb, M::ReadMsb, M::LdMemR(Addr::Imm16, R::A)]
    } else if op == 0xF0 {
        seq![M::Nop, M::ReadLsb, M::LdRMem(R::A, Addr::HighImm)]
    } else if op == 0xF1 {
        seq![M::Nop, M::PopR(R::F), M::PopR(R::A)]
    } else if op == 0xF2 {
        seq![M::Nop, M::LdRMem(R::A, Addr::HighC)]
    } else if op == 0xF3 {
        seq![M::Di]
    } else if op == 0xF5 {
        seq![M::Nop, M::Nop, M::Push(PushSrc::Reg(R::A)), M::Push(PushSrc::Reg(R::F))]
    } else if op == 0xF8 {
        seq![M::Nop, M::ReadLsb, M::LdHLSpN]
    } else if op == 0xF9 {
        seq![M::Nop, M::LdSpHL]
    } else if op == 0xFA {
        seq![M::Nop, M::ReadLsb, M::ReadMsb, M::LdRMem(R::A, Addr::Imm16)]
    } else if op == 0xFB {
        seq![M::Ei]
    } else {
        Seq::<M>::empty()
    }
}

/// The full primary decode table.  Every legal opcode maps to exactly
/// one fixed sequence; reserved opcodes map to the empty sequence and
/// are rejected by `decode_instr` before this is exposed.
pub open spec fn spec_decode(op: u8) -> Seq<M> {
    if op < 0x40 {
        spec_decode_lo(op)
    } else if op < 0x80 {
        spec_decode_ld(op)
    } else if op < 0xC0 {
        spec_decode_alu(op)
    } else {
        spec_decode_hi(op)
    }
}

/// The secondary (`0xCB`-prefixed) decode table.  Its 256 entries are
/// fully regular: bits 7-6 pick the group (shift/rotate, bit test, bit
/// clear, bit set), bits 5-3 the operation or bit index, bits 2-0 the
/// target.  Every entry is defined.
#[verifier::opaque]
pub open spec fn spec_decode_cb(op: u8) -> Seq<M> {
    let group = (op / 64) as u8;
    let idx = (op / 8 % 8) as u8;
    let tgt = (op % 8) as u8;
    let cbop = if group == 0 {
        rot_code(idx)
    } else if group == 1 {
        CbOp::TestBit(idx)
    } else if group == 2 {
        CbOp::ResBit(idx)
    } else {
        CbOp::SetBit(idx)
    };
    if tgt == 6 {
        if group == 1 {
            seq![M::Nop, M::Cb(cbop, CbTarget::MemHL)]
        } else {
            seq![M::Nop, M::Nop, M::Cb(cbop, CbTarget::MemHL)]
        }
    } else {
        seq![M::Cb(cbop, CbTarget::Reg(reg_code(tgt)))]
    }
}

/// The register selected by a three-bit operand field.
pub fn exec_reg_code(i: u8) -> (r: R)
    requires
        i < 8,
        i != 6,
    ensures
        r == reg_code(i),
{
    if i == 0 {
        R::B
    } else if i == 1 {
        R::C
    } else if i == 2 {
        R::D
    } else if i == 3 {
        R::E
    } else if i == 4 {
        R::H
    } else if i == 5 {
        R::L
    } else {
        R::A
    }
}

/// The accumulator operation selected by a three-bit opcode field.
pub fn exec_alu_code(i: u8) -> (r: AluOp)
    requires
        i < 8,
    ensures
        r == alu_code(i),
{
    if i == 0 {
        AluOp::Add
    } else if i == 1 {
        AluOp::Adc
    } else if i == 2 {
        AluOp::Sub
    } else if i == 3 {
        AluOp::Sbc
    } else if i == 4 {
        AluOp::And
    } else if i == 5 {
        AluOp::Xor
    } else if i == 6 {
        AluOp::Or
    } else {
        AluOp::Cp
    }
}

pub(crate) fn steps1(m0: M) -> (v: Vec<M>)
    ensures
        v@ == seq![m0],
{
    let mut v: Vec<M> = Vec::new();
    v.push(m0);
    proof {
        assert(v@ =~= seq![m0]);
    }
    v
}

pub(crate) fn steps2(m0: M, m1: M) -> (v: Vec<M>)
    ensures
        v@ == seq![m0, m1],
{
    let mut v: Vec<M> = Vec::new();
    v.push(m0);
    v.push(m1);
    proof {
        assert(v@ =~= seq![m0, m1]);
    }
    v
}

pub(crate) fn steps3(m0: M, m1: M, m2: M) -> (v: Vec<M>)
    ensures
        v@ == seq![m0, m1, m2],
{
    let mut v: Vec<M> = Vec::new();
    v.push(m0);
    v.push(m1);
    v.push(m2);
    proof {
        assert(v@ =~= seq![m0, m1, m2]);
    }
    v
}

pub(crate) fn steps4(m0: M, m1: M, m2: M, m3: M) -> (v: Vec<M>)
    ensures
        v@ == seq![m0, m1, m2, m3],
{
    let mut v: Vec<M> = Vec::new();
    v.push(m0);
    v.push(m1);
    v.push(m2);
    v.push(m3);
    proof {
        assert(v@ =~= seq![m0, m1, m2, m3]);
    }
    v
}

pub(crate) fn steps5(m0: M, m1: M, m2: M, m3: M, m4: M) -> (v: Vec<M>)
    ensures
        v@ == seq![m0, m1, m2, m3, m4],
{
    let mut v: Vec<M> = Vec::new();
    v.push(m0);
    v.push(m1);
    v.push(m2);
    v.push(m3);
    v.push(m4);
    proof {
        assert(v@ =~= seq![m0, m1, m2, m3, m4]);
    }
    v
}

pub(crate) fn steps6(m0: M, m1: M, m2: M, m3: M, m4: M, m5: M) -> (v: Vec<M>)
    ensures
        v@ == seq![m0, m1, m2, m3, m4, m5],
{
    let mut v: Vec<M> = Vec::new();
    v.push(m0);
    v.push(m1);
    v.push(m2);
    v.push(m3);
    v.push(m4);
    v.push(m5);
    proof {
        assert(v@ =~= seq![m0, m1, m2, m3, m4, m5]);
    }
    v
}

fn decode_lo(op: u8) -> (v: Vec<M>)
    requires
        op < 0x40,
    ensures
        v@ == spec_decode_lo(op),
{
    proof {
        reveal(spec_decode_lo);
    }
    match op {
        0x00 => steps1(M::Nop),
        0x01 => steps3(M::Nop, M::LdRN(R::C), M::LdRN(R::B)),
        0x02 => steps2(M::Nop, M::LdMemR(Addr::BC, R::A)),
        0x03 => steps2(M::Nop, M::IncPair(Pair::BC)),
        0x04 => steps1(M::IncReg(R::B)),
        0x05 => steps1(M::DecReg(R::B)),
        0x06 => steps2(M::Nop, M::LdRN(R::B)),
        0x07 => steps1(M::Rlca),
        0x08 => steps5(M::Nop, M::ReadLsb, M::ReadMsb, M::LdNNSpLo, M::LdNNSpHi),
        0x09 => steps2(M::Nop, M::AddHLPair(Pair::BC)),
        0x0A => steps2(M::Nop, M::LdRMem(R::A, Addr::BC)),
        0x0B => steps2(M::Nop, M::DecPair(Pair::BC)),
        0x0C => steps1(M::IncReg(R::C)),
        0x0D => steps1(M::DecReg(R::C)),
        0x0E => steps2(M::Nop, M::LdRN(R::C)),
        0x0F => steps1(M::Rrca),
        0x10 => steps1(M::Stop),
        0x11 => steps3(M::Nop, M::LdRN(R::E), M::LdRN(R::D)),
        0x12 => steps2(M::Nop, M::LdMemR(Addr::DE, R::A)),
        0x13 => steps2(M::Nop, M::IncPair(Pair::DE)),
        0x14 => steps1(M::IncReg(R::D)),
        0x15 => steps1(M::DecReg(R::D)),
        0x16 => steps2(M::Nop, M::LdRN(R::D)),
        0x17 => steps1(M::Rla),
        0x18 => steps3(M::ReadLsb, M::Nop, M::Jr),
        0x19 => steps2(M::Nop, M::AddHLPair(Pair::DE)),
        0x1A => steps2(M::Nop, M::LdRMem(R::A, Addr::DE)),
        0x1B => steps2(M::Nop, M::DecPair(Pair::DE)),
        0x1C => steps1(M::IncReg(R::E)),
        0x1D => steps1(M::DecReg(R::E)),
        0x1E => steps2(M::Nop, M::LdRN(R::E)),
        0x1F => steps1(M::Rra),
        0x20 => steps3(M::ReadLsb, M::Cond(Flag::Z, false), M::Jr),
        0x21 => steps3(M::Nop, M::LdRN(R::L), M::LdRN(R::H)),
        0x22 => steps2(M::Nop, M::LdHLIncA),
        0x23 => steps2(M::Nop, M::IncPair(Pair::HL)),
        0x24 => steps1(M::IncReg(R::H)),
        0x25 => steps1(M::DecReg(R::H)),
        0x26 => steps2(M::Nop, M::LdRN(R::H)),
        0x27 => steps1(M::Daa),
        0x28 => steps3(M::ReadLsb, M::Cond(Flag::Z, true), M::Jr),
        0x29 => steps2(M::Nop, M::AddHLPair(Pair::HL)),
        0x2A => steps2(M::Nop, M::LdAHLInc),
        0x2B => steps2(M::Nop, M::DecPair(Pair::HL)),
        0x2C => steps1(M::IncReg(R::L)),
        0x2D => steps1(M::DecReg(R::L)),
        0x2E => steps2(M::Nop, M::LdRN(R::L)),
        0x2F => steps1(M::Cpl),
        0x30 => steps3(M::ReadLsb, M::Cond(Flag::C, false), M::Jr),
        0x31 => steps3(M::ReadLsb, M::ReadMsb, M::LdSpNN),
        0x32 => steps2(M::Nop, M::LdHLDecA),
        0x33 => steps2(M::Nop, M::IncPair(Pair::SP)),
        0x34 => steps3(M::Nop, M::Nop, M::IncMemHL),
        0x35 => steps3(M::Nop, M::Nop, M::DecMemHL),
        0x36 => steps3(M::Nop, M::ReadLsb, M::LdHLN),
        0x37 => steps1(M::Scf),
        0x38 => steps3(M::ReadLsb, M::Cond(Flag::C, true), M::Jr),
        0x39 => steps2(M::Nop, M::AddHLPair(Pair::SP)),
        0x3A => steps2(M::Nop, M::LdAHLDec),
        0x3B => steps2(M::Nop, M::DecPair(Pair::SP)),
        0x3C => steps1(M::IncReg(R::A)),
        0x3D => steps1(M::DecReg(R::A)),
        0x3E => steps2(M::Nop, M::LdRN(R::A)),
        _ => steps1(M::Ccf),
    }
}

fn decode_ld(op: u8) -> (v: Vec<M>)
    requires
        0x40 <= op < 0x80,
    ensures
        v@ == spec_decode_ld(op),
{
    proof {
        reveal(spec_decode_ld);
    }
    let d = ((op - 0x40) / 8) as u8;
    let s = (op % 8) as u8;
    if op == 0x76 {
        steps1(M::Halt)
    } else if d == 6 {
        steps2(M::Nop, M::LdMemR(Addr::HL, exec_reg_code(s)))
    } else if s == 6 {
        steps2(M::Nop, M::LdRMem(exec_reg_code(d), Addr::HL))
    } else {
        steps1(M::LdRR(exec_reg_code(d), exec_reg_code(s)))
    }
}

fn decode_alu(op: u8) -> (v: Vec<M>)
    requires
        0x80 <= op < 0xC0,
    ensures
        v@ == spec_decode_alu(op),
{
    proof {
        reveal(spec_decode_alu);
    }
    let i = (op - 0x80) / 8;
    let s = op % 8;
    if s == 6 {
        steps2(M::Nop, M::Alu(exec_alu_code(i), Operand::MemHL))
    } else {
        steps1(M::Alu(exec_alu_code(i), Operand::Reg(exec_reg_code(s))))
    }
}

fn decode_hi(op: u8) -> (v: Vec<M>)
    requires
        0xC0 <= op,
        spec_legal(op),
    ensures
        v@ == spec_decode_hi(op),
{
    proof {
        reveal(spec_decode_hi);
    }
    if op % 8 == 6 {
        steps2(M::ReadLsb, M::Alu(exec_alu_code((op - 0xC0) / 8), Operand::Imm))
    } else if op % 8 == 7 {
        steps4(
            M::Nop,
            M::Push(PushSrc::PcHi),
            M::Push(PushSrc::PcLo),
            M::Rst(((op - 0xC0) / 8 * 8) as u16),
        )
    } else {
        match op {
            0xC0 => steps5(M::Nop, M::Cond(Flag::Z, false), M::PopPcLsb, M::PopPcMsb, M::Jp),
            0xC1 => steps3(M::Nop, M::PopR(R::C), M::PopR(R::B)),
            0xC2 => steps4(M::ReadLsb, M::ReadMsb, M::Cond(Flag::Z, false), M::Jp),
            0xC3 => steps4(M::ReadLsb, M::ReadMsb, M::Nop, M::Jp),
            0xC4 => steps6(
                M::ReadLsb,
                M::ReadMsb,
                M::Cond(Flag::Z, false),
                M::Push(PushSrc::PcHi),
                M::Push(PushSrc::PcLo),
                M::Jp,
            ),
            0xC5 => steps4(
                M::Nop,
                M::Nop,
                M::Push(PushSrc::Reg(R::B)),
                M::Push(PushSrc::Reg(R::C)),
            ),
            0xC8 => steps5(M::Nop, M::Cond(Flag::Z, true), M::PopPcLsb, M::PopPcMsb, M::Jp),
            0xC9 => steps4(M::Nop, M::PopPcLsb, M::PopPcMsb, M::Jp),
            0xCA => steps4(M::ReadLsb, M::ReadMsb, M::Cond(Flag::Z, true), M::Jp),
            0xCB => Vec::new(),
            0xCC => steps6(
                M::ReadLsb,
                M::ReadMsb,
                M::Cond(Flag::Z, true),
                M::Push(PushSrc::PcHi),
                M::Push(PushSrc::PcLo),
                M::Jp,
            ),
            0xCD => steps6(
                M::Nop,
                M::ReadLsb,
                M::ReadMsb,
                M::Push(PushSrc::PcHi),
                M::Push(PushSrc::PcLo),
                M::Jp,
            ),
            0xD0 => steps5(M::Nop, M::Cond(Flag::C, false), M::PopPcLsb, M::PopPcMsb, M::Jp),
            0xD1 => steps3(M::Nop, M::PopR(R::E), M::PopR(R::D)),
            0xD2 => steps4(M::ReadLsb, M::ReadMsb, M::Cond(Flag::C, false), M::Jp),
            0xD4 => steps6(
                M::ReadLsb,
                M::ReadMsb,
                M::Cond(Flag::C, false),
                M::Push(PushSrc::PcHi),
                M::Push(PushSrc::PcLo),
                M::Jp,
            ),
            0xD5 => steps4(
                M::Nop,
                M::Nop,
                M::Push(PushSrc::Reg(R::D)),
                M::Push(PushSrc::Reg(R::E)),
            ),
            0xD8 => steps5(M::Nop, M::Cond(Flag::C, true), M::PopPcLsb, M::PopPcMsb, M::Jp),
            0xD9 => steps4(M::Nop, M::PopPcLsb, M::PopPcMsb, M::Reti),
            0xDA => steps4(M::ReadLsb, M::ReadMsb, M::Cond(Flag::C, true), M::Jp),
            0xDC => steps6(
                M::ReadLsb,
                M::ReadMsb,
                M::Cond(Flag::C, true),
                M::Push(PushSrc::PcHi),
                M::Push(PushSrc::PcLo),
                M::Jp,
            ),
            0xE0 => steps3(M::Nop, M::ReadLsb, M::LdMemR(Addr::HighImm, R::A)),
            0xE1 => steps3(M::Nop, M::PopR(R::L), M::PopR(R::H)),
            0xE2 => steps2(M::Nop, M::LdMemR(Addr::HighC, R::A)),
            0xE5 => steps4(
                M::Nop,
                M::Nop,
                M::Push(PushSrc::Reg(R::H)),
                M::Push(PushSrc::Reg(R::L)),
            ),
            0xE8 => steps4(M::Nop, M::ReadLsb, M::Nop, M::AddSpN),
            0xE9 => steps1(M::JpHL),
            0xEA => steps4(M::Nop, M::ReadLsb, M::ReadMsb, M::LdMemR(Addr::Imm16, R::A)),
            0xF0 => steps3(M::Nop, M::ReadLsb, M::LdRMem(R::A, Addr::HighImm)),
            0xF1 => steps3(M::Nop, M::PopR(R::F), M::PopR(R::A)),
            0xF2 => steps2(M::Nop, M::LdRMem(R::A, Addr::HighC)),
            0xF3 => steps1(M::Di),
            0xF5 => steps4(
                M::Nop,
                M::Nop,
                M::Push(PushSrc::Reg(R::A)),
                M::Push(PushSrc::Reg(R::F)),
            ),
            0xF8 => steps3(M::Nop, M::ReadLsb, M::LdHLSpN),
            0xF9 => steps2(M::Nop, M::LdSpHL),
            0xFA => steps4(M::Nop, M::ReadLsb, M::ReadMsb, M::LdRMem(R::A, Addr::Imm16)),
            _ => steps1(M::Ei),
        }
    }
}

/// Decodes one primary-table opcode into its micro-operation sequence,
/// or the illegal-opcode fault for the eleven reserved values.
pub fn decode_opcode(op: u8) -> (r: Result<Vec<M>, Fault>)
    ensures
        spec_legal(op) ==> r is Ok && r->Ok_0@ == spec_decode(op),
        !spec_legal(op) ==> r is Err && r->Err_0 == Fault::IllegalOpcode(op),
{
    if op == 0xD3 || op == 0xDB || op == 0xDD || op == 0xE3 || op == 0xE4 || op == 0xEB || op
        == 0xEC || op == 0xED || op == 0xF4 || op == 0xFC || op == 0xFD {
        Err(Fault::IllegalOpcode(op))
    } else if op < 0x40 {
        Ok(decode_lo(op))
    } else if op < 0x80 {
        Ok(decode_ld(op))
    } else if op < 0xC0 {
        Ok(decode_alu(op))
    } else {
        Ok(decode_hi(op))
    }
}

/// Decodes one secondary-table opcode; every one of its 256 entries is
/// defined.
pub fn decode_cb_opcode(op: u8) -> (v: Vec<M>)
    ensures
        v@ == spec_decode_cb(op),
{
    proof {
        reveal(spec_decode_cb);
    }
    let group = op / 64;
    let idx = op / 8 % 8;
    let tgt = op % 8;
    let cbop = if group == 0 {
        exec_rot_code(idx)
    } else if group == 1 {
        CbOp::TestBit(idx)
    } else if group == 2 {
        CbOp::ResBit(idx)
    } else {
        CbOp::SetBit(idx)
    };
    if tgt == 6 {
        if group == 1 {
            steps2(M::Nop, M::Cb(cbop, CbTarget::MemHL))
        } else {
            steps3(M::Nop, M::Nop, M::Cb(cbop, CbTarget::MemHL))
        }
    } else {
        steps1(M::Cb(cbop, CbTarget::Reg(exec_reg_code(tgt))))
    }
}

/// Every legal opcode other than the escape prefix decodes to at least
/// one micro-operation, so the fetch cycle always has a step to run.
pub proof fn lemma_decode_nonempty(op: u8)
    requires
        spec_legal(op),
        op != 0xCB,
    ensures
        spec_decode(op).len() >= 1,
{
    reveal(spec_decode_lo);
    reveal(spec_decode_ld);
    reveal(spec_decode_alu);
    reveal(spec_decode_hi);
}

/// Every secondary-table entry decodes to at least one micro-operation.
pub proof fn lemma_decode_cb_nonempty(op: u8)
    ensures
        spec_decode_cb(op).len() >= 1,
{
    reveal(spec_decode_cb);
}

/// The shift/rotate operation selected by a three-bit secondary-table
/// field.
pub fn exec_rot_code(i: u8) -> (r: CbOp)
    requires
        i < 8,
    ensures
        r == rot_code(i),
{
    if i == 0 {
        CbOp::Rlc
    } else if i == 1 {
        CbOp::Rrc
    } else if i == 2 {
        CbOp::Rl
    } else if i == 3 {
        CbOp::Rr
    } else if i == 4 {
        CbOp::Sla
    } else if i == 5 {
        CbOp::Sra
    } else if i == 6 {
        CbOp::Swap
    } else {
        CbOp::Srl
    }
}

} // verus!
