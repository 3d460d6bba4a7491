//! The CPU state, its mathematical model, and the micro-operation
//! execution engine.  `tick` advances exactly one clock cycle; its whole
//! effect is pinned to the spec-level step function `spec_tick_result`,
//! so the machine is a deterministic function of its state.

use vstd::prelude::*;
use crate::regs::Registers;
use crate::regs::Flag;
use crate::regs::spec_get;
use crate::regs::spec_set;
use crate::regs::spec_flag;
use crate::regs::spec_bc;
use crate::regs::spec_de;
use crate::regs::spec_hl;
use crate::regs::flag_z;
use crate::regs::flag_n;
use crate::regs::flag_h;
use crate::regs::flag_c;
use crate::regs::mk_flags;
use crate::regs::lemma_mask_flags;
use crate::regs::regs_wf;
use crate::regs::pack_flags;
use crate::alu::wrap16;
use crate::alu::spec_add;
use crate::alu::spec_sub;
use crate::alu::spec_and;
use crate::alu::spec_xor;
use crate::alu::spec_or;
use crate::alu::spec_inc;
use crate::alu::spec_dec;
use crate::alu::spec_daa;
use crate::alu::spec_rlc;
use crate::alu::spec_rl;
use crate::alu::spec_rrc;
use crate::alu::spec_rr;
use crate::alu::spec_sla;
use crate::alu::spec_sra;
use crate::alu::spec_swap;
use crate::alu::spec_srl;
use crate::alu::spec_bit;
use crate::alu::spec_set_bit;
use crate::alu::spec_res_bit;
use crate::alu::spec_add16;
use crate::alu::spec_add_sp;
use crate::alu::alu_add;
use crate::alu::alu_sub;
use crate::alu::alu_and;
use crate::alu::alu_xor;
use crate::alu::alu_or;
use crate::alu::alu_inc;
use crate::alu::alu_dec;
use crate::alu::alu_daa;
use crate::alu::alu_rlc;
use crate::alu::alu_rl;
use crate::alu::alu_rrc;
use crate::alu::alu_rr;
use crate::alu::alu_sla;
use crate::alu::alu_sra;
use crate::alu::alu_swap;
use crate::alu::alu_srl;
use crate::alu::exec_bit;
use crate::alu::exec_set_bit;
use crate::alu::exec_res_bit;
use crate::alu::alu_add16;
use crate::alu::alu_add_sp;
use crate::micro::MicroInstr as M;
use crate::micro::Addr;
use crate::micro::Pair;
use crate::micro::AluOp;
use crate::micro::Operand;
use crate::micro::PushSrc;
use crate::micro::CbOp;
use crate::micro::CbTarget;
use crate::micro::Fault;
use crate::decode::spec_decode;
use crate::decode::spec_decode_cb;
use crate::decode::spec_legal;
use crate::decode::decode_opcode;
use crate::decode::decode_cb_opcode;
use crate::decode::steps5;

verus! {

/// The byte-addressable bus the core reads and writes: a flat 64 KiB
/// memory plus the interrupt-request and interrupt-enable registers
/// (only the low five bits of each are meaningful).
#[derive(Clone)]
pub struct Bus {
    pub mem: Vec<u8>,
    pub intf: u8,
    pub inte: u8,
}

/// The CPU core: the register file, program counter, stack pointer,
/// interrupt-enable state, power state, the instruction in flight and
/// the operand latch, together with the bus.
#[derive(Clone)]
pub struct CPU {
    pub regs: Registers,
    pub pc: u16,
    pub sp: u16,
    /// Interrupt master enable.
    pub ime: bool,
    /// Set by the enable-interrupts operation; copied into `ime` at the
    /// start of the fetch after the next instruction.
    pub ime_pending: bool,
    pub halted: bool,
    pub stopped: bool,
    /// Set when halt is entered with interrupts disabled and a request
    /// pending: the next fetch then does not advance the program counter.
    pub halt_bug: bool,
    /// Set after fetching the escape prefix: the next cycle fetches the
    /// following byte and decodes it against the secondary table.
    pub cb_pending: bool,
    /// The micro-operation sequence of the instruction in flight.
    pub steps: Vec<M>,
    /// The index of the next micro-operation; equal to the length when
    /// no instruction is in flight.
    pub cursor: usize,
    /// Low byte of the operand latch, filled by operand fetches and pops.
    pub lsb: u8,
    /// High byte of the operand latch.
    pub msb: u8,
    pub bus: Bus,
}

/// The mathematical state of the machine: every field of the CPU and the
/// bus as a plain mathematical value.
#[verifier::ext_equal]
pub ghost struct CpuV {
    pub regs: Registers,
    pub pc: u16,
    pub sp: u16,
    pub ime: bool,
    pub ime_pending: bool,
    pub halted: bool,
    pub stopped: bool,
    pub halt_bug: bool,
    pub cb_pending: bool,
    pub steps: Seq<M>,
    pub cursor: int,
    pub lsb: u8,
    pub msb: u8,
    pub mem: Seq<u8>,
    pub intf: u8,
    pub inte: u8,
}

impl View for CPU {
    type V = CpuV;

    open spec fn view(&self) -> CpuV {
        CpuV {
            regs: self.regs,
            pc: self.pc,
            sp: self.sp,
            ime: self.ime,
            ime_pending: self.ime_pending,
            halted: self.halted,
            stopped: self.stopped,
            halt_bug: self.halt_bug,
            cb_pending: self.cb_pending,
            steps: self.steps@,
            cursor: self.cursor as int,
            lsb: self.lsb,
            msb: self.msb,
            mem: self.bus.mem@,
            intf: self.bus.intf,
            inte: self.bus.inte,
        }
    }
}

/// Well-formedness: the full 16-bit address space is backed, the flag
/// register's low nibble is clear, and the step cursor never runs past
/// the sequence.
pub open spec fn wf(s: CpuV) -> bool {
    &&& s.mem.len() == 0x10000
    &&& regs_wf(s.regs)
    &&& 0 <= s.cursor <= s.steps.len()
}

/// The byte the bus returns at an address.
pub open spec fn mread(s: CpuV, addr: u16) -> u8 {
    s.mem[addr as int]
}

/// The state after the bus stores a byte at an address.
pub open spec fn mwrite(s: CpuV, addr: u16, v: u8) -> CpuV {
    CpuV { mem: s.mem.update(addr as int, v), ..s }
}

/// The 16-bit immediate assembled from the operand latch (low byte
/// fetched first).
pub open spec fn imm16(s: CpuV) -> u16 {
    (s.msb * 256 + s.lsb) as u16
}

/// The pending-and-enabled interrupt mask (five sources).
pub open spec fn pending(s: CpuV) -> u8 {
    s.intf & s.inte & 0x1F
}

/// The execution-time value of an address operand.
pub open spec fn addr_of(s: CpuV, a: Addr) -> u16 {
    match a {
        Addr::BC => spec_bc(s.regs),
        Addr::DE => spec_de(s.regs),
        Addr::HL => spec_hl(s.regs),
        Addr::Imm16 => imm16(s),
        Addr::HighImm => (0xFF00 + s.lsb) as u16,
        Addr::HighC => (0xFF00 + s.regs.c) as u16,
    }
}

/// The execution-time value of a pair operand.
pub open spec fn pair_of(s: CpuV, p: Pair) -> u16 {
    match p {
        Pair::BC => spec_bc(s.regs),
        Pair::DE => spec_de(s.regs),
        Pair::HL => spec_hl(s.regs),
        Pair::SP => s.sp,
    }
}

/// The register file with one 16-bit pair replaced.
pub open spec fn set_hl(r: Registers, v: u16) -> Registers {
    Registers { h: (v / 256) as u8, l: (v % 256) as u8, ..r }
}

/// The state with one pair (or the stack pointer) replaced.
pub open spec fn with_pair(s: CpuV, p: Pair, v: u16) -> CpuV {
    match p {
        Pair::BC => CpuV {
            regs: Registers { b: (v / 256) as u8, c: (v % 256) as u8, ..s.regs },
            ..s
        },
        Pair::DE => CpuV {
            regs: Registers { d: (v / 256) as u8, e: (v % 256) as u8, ..s.regs },
            ..s
        },
        Pair::HL => CpuV { regs: set_hl(s.regs, v), ..s },
        Pair::SP => CpuV { sp: v, ..s },
    }
}

/// Relative-jump target: the displacement byte is added as a signed
/// value to the program counter after the full instruction has been
/// consumed.  Adding 65280 is subtracting 256 modulo 65536.
pub open spec fn jr_target(pc: u16, d: u8) -> u16 {
    wrap16(
        pc + d + (if d < 128 {
            0int
        } else {
            65280int
        }),
    )
}

/// The execution-time value of an accumulator-operation operand.
pub open spec fn alu_operand(s: CpuV, o: Operand) -> u8 {
    match o {
        Operand::Reg(r) => spec_get(s.regs, r),
        Operand::MemHL => mread(s, spec_hl(s.regs)),
        Operand::Imm => s.lsb,
    }
}

/// One accumulator operation: the new accumulator (unchanged for the
/// compare) and the new flag byte.
pub open spec fn spec_alu(op: AluOp, a: u8, b: u8, cy: bool) -> (u8, u8) {
    match op {
        AluOp::Add => spec_add(a, b, false),
        AluOp::Adc => spec_add(a, b, cy),
        AluOp::Sub => spec_sub(a, b, false),
        AluOp::Sbc => spec_sub(a, b, cy),
        AluOp::And => spec_and(a, b),
        AluOp::Xor => spec_xor(a, b),
        AluOp::Or => spec_or(a, b),
        AluOp::Cp => (a, spec_sub(a, b, false).1),
    }
}

/// One secondary-table operation on a byte: the new byte (unchanged for
/// the bit test) and the new flag byte, given the current flags `f`.
pub open spec fn spec_cb_val(op: CbOp, x: u8, f: u8) -> (u8, u8) {
    match op {
        CbOp::Rlc => (spec_rlc(x).0, mk_flags(spec_rlc(x).0 == 0, false, false, spec_rlc(x).1)),
        CbOp::Rrc => (spec_rrc(x).0, mk_flags(spec_rrc(x).0 == 0, false, false, spec_rrc(x).1)),
        CbOp::Rl => (
            spec_rl(x, flag_c(f)).0,
            mk_flags(spec_rl(x, flag_c(f)).0 == 0, false, false, spec_rl(x, flag_c(f)).1),
        ),
        CbOp::Rr => (
            spec_rr(x, flag_c(f)).0,
            mk_flags(spec_rr(x, flag_c(f)).0 == 0, false, false, spec_rr(x, flag_c(f)).1),
        ),
        CbOp::Sla => (spec_sla(x).0, mk_flags(spec_sla(x).0 == 0, false, false, spec_sla(x).1)),
        CbOp::Sra => (spec_sra(x).0, mk_flags(spec_sra(x).0 == 0, false, false, spec_sra(x).1)),
        CbOp::Swap => (spec_swap(x).0, mk_flags(spec_swap(x).0 == 0, false, false, false)),
        CbOp::Srl => (spec_srl(x).0, mk_flags(spec_srl(x).0 == 0, false, false, spec_srl(x).1)),
        CbOp::TestBit(n) => (x, mk_flags(!spec_bit(x, n), false, true, flag_c(f))),
        CbOp::ResBit(n) => (spec_res_bit(x, n), f),
        CbOp::SetBit(n) => (spec_set_bit(x, n), f),
    }
}

/// The transfer micro-operations: operand fetches, register and memory
/// loads, and the 16-bit stack-pointer loads.
/// Micro-operations of other groups are the identity here.
#[verifier::opaque]
pub open spec fn spec_micro_mov(s: CpuV, m: M) -> CpuV {
    match m {
        M::Nop => s,

        M::ReadLsb => CpuV { lsb: mread(s, s.pc), pc: wrap16(s.pc + 1), ..s },

        M::ReadMsb => CpuV { msb: mread(s, s.pc), pc: wrap16(s.pc + 1), ..s },

        M::LdRN(r) => CpuV {
            regs: spec_set(s.regs, r, mread(s, s.pc)),
            pc: wrap16(s.pc + 1),
            ..s
        },

        M::LdRR(d, src) => CpuV { regs: spec_set(s.regs, d, spec_get(s.regs, src)), ..s },

        M::LdRMem(r, a) => CpuV { regs: spec_set(s.regs, r, mread(s, addr_of(s, a))), ..s },

        M::LdMemR(a, r) => mwrite(s, addr_of(s, a), spec_get(s.regs, r)),

        M::LdHLN => mwrite(s, spec_hl(s.regs), s.lsb),

        M::LdAHLInc => CpuV {
            regs: set_hl(
                Registers { a: mread(s, spec_hl(s.regs)), ..s.regs },
                wrap16(spec_hl(s.regs) + 1),
            ),
            ..s
        },

        M::LdHLIncA => CpuV {
            regs: set_hl(s.regs, wrap16(spec_hl(s.regs) + 1)),
            ..mwrite(s, spec_hl(s.regs), s.regs.a)
        },

        M::LdAHLDec => CpuV {
            regs: set_hl(
                Registers { a: mread(s, spec_hl(s.regs)), ..s.regs },
                wrap16(spec_hl(s.regs) + 65535),
            ),
            ..s
        },

        M::LdHLDecA => CpuV {
            regs: set_hl(s.regs, wrap16(spec_hl(s.regs) + 65535)),
            ..mwrite(s, spec_hl(s.regs), s.regs.a)
        },

        M::LdSpNN => CpuV { sp: imm16(s), ..s },

        M::LdSpHL => CpuV { sp: spec_hl(s.regs), ..s },

        M::LdHLSpN => CpuV {
            regs: Registers {
                f: spec_add_sp(s.sp, s.lsb).1,
                ..set_hl(s.regs, spec_add_sp(s.sp, s.lsb).0)
            },
            ..s
        },

        M::LdNNSpLo => mwrite(s, imm16(s), (s.sp % 256) as u8),

        M::LdNNSpHi => mwrite(s, wrap16(imm16(s) + 1), (s.sp / 256) as u8),
        _ => s,
    }
}

/// The arithmetic micro-operations: increments, accumulator and 16-bit
/// arithmetic, decimal adjust and the accumulator rotates.
/// Micro-operations of other groups are the identity here.
#[verifier::opaque]
pub open spec fn spec_micro_arith(s: CpuV, m: M) -> CpuV {
    match m {
        M::IncReg(r) => CpuV {
            regs: Registers {
                f: spec_inc(spec_get(s.regs, r), flag_c(s.regs.f)).1,
                ..spec_set(s.regs, r, spec_inc(spec_get(s.regs, r), flag_c(s.regs.f)).0)
            },
            ..s
        },

        M::DecReg(r) => CpuV {
            regs: Registers {
                f: spec_dec(spec_get(s.regs, r), flag_c(s.regs.f)).1,
                ..spec_set(s.regs, r, spec_dec(spec_get(s.regs, r), flag_c(s.regs.f)).0)
            },
            ..s
        },

        M::IncPair(p) => with_pair(s, p, wrap16(pair_of(s, p) + 1)),

        M::DecPair(p) => with_pair(s, p, wrap16(pair_of(s, p) + 65535)),

        M::IncMemHL => CpuV {
            regs: Registers {
                f: spec_inc(mread(s, spec_hl(s.regs)), flag_c(s.regs.f)).1,
                ..s.regs
            },
            ..mwrite(
                s,
                spec_hl(s.regs),
                spec_inc(mread(s, spec_hl(s.regs)), flag_c(s.regs.f)).0,
            )
        },

        M::DecMemHL => CpuV {
            regs: Registers {
                f: spec_dec(mread(s, spec_hl(s.regs)), flag_c(s.regs.f)).1,
                ..s.regs
            },
            ..mwrite(
                s,
                spec_hl(s.regs),
                spec_dec(mread(s, spec_hl(s.regs)), flag_c(s.regs.f)).0,
            )
        },

        M::Alu(op, o) => CpuV {
            regs: Registers {
                a: spec_alu(op, s.regs.a, alu_operand(s, o), flag_c(s.regs.f)).0,
                f: spec_alu(op, s.regs.a, alu_operand(s, o), flag_c(s.regs.f)).1,
                ..s.regs
            },
            ..s
        },

        M::AddHLPair(p) => CpuV {
            regs: Registers {
                f: spec_add16(spec_hl(s.regs), pair_of(s, p), flag_z(s.regs.f)).1,
                ..set_hl(s.regs, spec_add16(spec_hl(s.regs), pair_of(s, p), flag_z(s.regs.f)).0)
            },
            ..s
        },

        M::AddSpN => CpuV {
            regs: Registers { f: spec_add_sp(s.sp, s.lsb).1, ..s.regs },
            sp: spec_add_sp(s.sp, s.lsb).0,
            ..s
        },

        M::Daa => CpuV {
            regs: Registers {
                a: spec_daa(s.regs.a, flag_n(s.regs.f), flag_h(s.regs.f), flag_c(s.regs.f)).0,
                f: spec_daa(s.regs.a, flag_n(s.regs.f), flag_h(s.regs.f), flag_c(s.regs.f)).1,
                ..s.regs
            },
            ..s
        },

        M::Rlca => CpuV {
            regs: Registers {
                a: spec_rlc(s.regs.a).0,
                f: mk_flags(false, false, false, spec_rlc(s.regs.a).1),
                ..s.regs
            },
            ..s
        },

        M::Rla => CpuV {
            regs: Registers {
                a: spec_rl(s.regs.a, flag_c(s.regs.f)).0,
                f: mk_flags(false, false, false, spec_rl(s.regs.a, flag_c(s.regs.f)).1),
                ..s.regs
            },
            ..s
        },

        M::Rrca => CpuV {
            regs: Registers {
                a: spec_rrc(s.regs.a).0,
                f: mk_flags(false, false, false, spec_rrc(s.regs.a).1),
                ..s.regs
            },
            ..s
        },

        M::Rra => CpuV {
            regs: Registers {
                a: spec_rr(s.regs.a, flag_c(s.regs.f)).0,
                f: mk_flags(false, false, false, spec_rr(s.regs.a, flag_c(s.regs.f)).1),
                ..s.regs
            },
            ..s
        },

        M::Cpl => CpuV {
            regs: Registers {
                a: (255 - s.regs.a) as u8,
                f: mk_flags(flag_z(s.regs.f), true, true, flag_c(s.regs.f)),
                ..s.regs
            },
            ..s
        },

        M::Scf => CpuV {
            regs: Registers { f: mk_flags(flag_z(s.regs.f), false, false, true), ..s.regs },
            ..s
        },

        M::Ccf => CpuV {
            regs: Registers {
                f: mk_flags(flag_z(s.regs.f), false, false, !flag_c(s.regs.f)),
                ..s.regs
            },
            ..s
        },
        _ => s,
    }
}

/// The control micro-operations: jumps, stack transfers, interrupt
/// enabling, the power states and the secondary-table operations.
/// Micro-operations of other groups are the identity here.
#[verifier::opaque]
pub open spec fn spec_micro_ctrl(s: CpuV, m: M) -> CpuV {
    match m {
        M::Cond(_, _) => s,

        M::Jr => CpuV { pc: jr_target(s.pc, s.lsb), ..s },

        M::Jp => CpuV { pc: imm16(s), ..s },

        M::JpHL => CpuV { pc: spec_hl(s.regs), ..s },

        M::Push(src) => mwrite(
            CpuV { sp: wrap16(s.sp + 65535), ..s },
            wrap16(s.sp + 65535),
            match src {
                PushSrc::Reg(r) => spec_get(s.regs, r),
                PushSrc::PcHi => (s.pc / 256) as u8,
                PushSrc::PcLo => (s.pc % 256) as u8,
            },
        ),

        M::PopR(r) => CpuV {
            regs: spec_set(s.regs, r, mread(s, s.sp)),
            sp: wrap16(s.sp + 1),
            ..s
        },

        M::PopPcLsb => CpuV { lsb: mread(s, s.sp), sp: wrap16(s.sp + 1), ..s },

        M::PopPcMsb => CpuV { msb: mread(s, s.sp), sp: wrap16(s.sp + 1), ..s },

        M::Rst(v) => CpuV { pc: v, ..s },

        M::Reti => CpuV { pc: imm16(s), ime: true, ..s },

        M::Ei => CpuV { ime_pending: true, ..s },

        M::Di => CpuV { ime: false, ime_pending: false, ..s },

        M::Halt => if !s.ime && pending(s) != 0 {
            // The halt bug: with interrupts disabled and a request
            // already pending, halt is not entered and the next fetch
            // does not advance the program counter.
            CpuV { halt_bug: true, ..s }
        } else {
            CpuV { halted: true, ..s }
        },

        M::Stop => CpuV { stopped: true, ..s },

        M::Cb(op, tgt) => {
            let x = match tgt {
                CbTarget::Reg(r) => spec_get(s.regs, r),
                CbTarget::MemHL => mread(s, spec_hl(s.regs)),
            };
            let v = spec_cb_val(op, x, s.regs.f).0;
            let nf = spec_cb_val(op, x, s.regs.f).1;
            match op {
                CbOp::TestBit(_) => CpuV { regs: Registers { f: nf, ..s.regs }, ..s },
                _ => match tgt {
                    CbTarget::Reg(r) => CpuV {
                        regs: Registers { f: nf, ..spec_set(s.regs, r, v) },
                        ..s
                    },
                    CbTarget::MemHL => CpuV {
                        regs: Registers { f: nf, ..s.regs },
                        ..mwrite(s, spec_hl(s.regs), v)
                    },
                },
            }
        },
        _ => s,
    }
}

/// The effect of one micro-operation on the machine state.  The step
/// cursor is managed by the caller; the conditional gate is handled
/// there too and is the identity here.
pub open spec fn spec_exec_micro(s: CpuV, m: M) -> CpuV {
    match m {
        M::Nop | M::ReadLsb | M::ReadMsb | M::LdRN(_) | M::LdRR(_, _) | M::LdRMem(_, _)
            | M::LdMemR(_, _) | M::LdHLN | M::LdAHLInc | M::LdHLIncA | M::LdAHLDec
            | M::LdHLDecA | M::LdSpNN | M::LdSpHL | M::LdHLSpN | M::LdNNSpLo | M::LdNNSpHi
            => spec_micro_mov(s, m),
        M::IncReg(_) | M::DecReg(_) | M::IncPair(_) | M::DecPair(_) | M::IncMemHL | M::DecMemHL
            | M::Alu(_, _) | M::AddHLPair(_) | M::AddSpN | M::Daa | M::Rlca | M::Rla | M::Rrca
            | M::Rra | M::Cpl | M::Scf | M::Ccf => spec_micro_arith(s, m),
        M::Cond(_, _) | M::Jr | M::Jp | M::JpHL | M::Push(_) | M::PopR(_) | M::PopPcLsb
            | M::PopPcMsb | M::Rst(_) | M::Reti | M::Ei | M::Di | M::Halt | M::Stop
            | M::Cb(_, _) => spec_micro_ctrl(s, m),
    }
}

/// The micro-operation sequence of an interrupt dispatch: two internal
/// delays, the program counter pushed high byte then low byte, and the
/// jump to the vector held in the operand latch — five cycles in all,
/// independent of which source fired.
pub open spec fn dispatch_steps() -> Seq<M> {
    seq![M::Nop, M::Nop, M::Push(PushSrc::PcHi), M::Push(PushSrc::PcLo), M::Jp]
}

/// The lowest set bit of a nonzero five-bit mask: interrupt priority is
/// fixed and ascending by bit position.
pub open spec fn lowest_pending(m: u8) -> u8 {
    if m % 2 == 1 {
        0
    } else if m / 2 % 2 == 1 {
        1
    } else if m / 4 % 2 == 1 {
        2
    } else if m / 8 % 2 == 1 {
        3
    } else {
        4
    }
}

/// One in-flight cycle: advance the cursor and apply the micro-operation
/// there; a failed conditional gate instead discards the rest of the
/// sequence.
pub open spec fn spec_step(s: CpuV) -> CpuV
    recommends
        0 <= s.cursor < s.steps.len(),
{
    let m = s.steps[s.cursor];
    match m {
        M::Cond(fl, pol) => if spec_flag(s.regs.f, fl) == pol {
            CpuV { cursor: s.cursor + 1, ..s }
        } else {
            CpuV { cursor: s.steps.len() as int, ..s }
        },
        _ => spec_exec_micro(CpuV { cursor: s.cursor + 1, ..s }, m),
    }
}

/// An instruction boundary: finish the escape prefix, dispatch a pending
/// interrupt, or fetch, decode and begin the next instruction in this
/// same cycle.  `None` is the illegal-opcode fault; the machine state is
/// then unchanged.
#[verifier::opaque]
pub open spec fn spec_boundary(s: CpuV) -> Option<CpuV> {
    if s.cb_pending {
        let op = mread(s, s.pc);
        let s1 = CpuV {
            pc: wrap16(s.pc + 1),
            cb_pending: false,
            steps: spec_decode_cb(op),
            cursor: 0,
            ..s
        };
        Some(spec_step(s1))
    } else if s.ime && pending(s) != 0 {
        let i = lowest_pending(pending(s));
        // The decision cycle is the first of the five dispatch cycles:
        // the leading internal delay is already behind the cursor.
        Some(
            CpuV {
                ime: false,
                ime_pending: false,
                intf: spec_res_bit(s.intf, i),
                lsb: (0x40 + 8 * i) as u8,
                msb: 0,
                steps: dispatch_steps(),
                cursor: 1,
                ..s
            },
        )
    } else {
        let op = mread(s, s.pc);
        if !spec_legal(op) {
            None
        } else {
            let s1 = CpuV { ime: s.ime || s.ime_pending, ime_pending: false, ..s };
            let s2 = if s1.halt_bug {
                CpuV { halt_bug: false, ..s1 }
            } else {
                CpuV { pc: wrap16(s1.pc + 1), ..s1 }
            };
            if op == 0xCB {
                // The escape prefix decodes to the empty placeholder
                // sequence; the next cycle reads the secondary table.
                Some(CpuV { steps: spec_decode(op), cursor: 0, cb_pending: true, ..s2 })
            } else {
                Some(spec_step(CpuV { steps: spec_decode(op), cursor: 0, ..s2 }))
            }
        }
    }
}

/// One clock cycle of the whole machine.  `None` is the illegal-opcode
/// fault.  The stopped state consumes cycles without effect until the
/// external wake signal; the halted state consumes cycles until a
/// request is pending, then resumes (dispatching if enabled) in that
/// same cycle.
pub open spec fn spec_tick_result(s: CpuV) -> Option<CpuV> {
    if s.stopped {
        Some(s)
    } else if s.halted {
        if pending(s) == 0 {
            Some(s)
        } else {
            spec_boundary(CpuV { halted: false, ..s })
        }
    } else if s.cursor < s.steps.len() {
        Some(spec_step(s))
    } else {
        spec_boundary(s)
    }
}

/// N clock cycles; `None` as soon as any cycle faults.
pub open spec fn spec_run(s: CpuV, n: nat) -> Option<CpuV>
    decreases n,
{
    if n == 0 {
        Some(s)
    } else {
        match spec_tick_result(s) {
            Some(v) => spec_run(v, (n - 1) as nat),
            None => None,
        }
    }
}

/// The machine state after reinitialisation: the documented power-on
/// register values, with the bus contents left to the surrounding
/// system.
pub open spec fn spec_reset(s: CpuV) -> CpuV {
    CpuV {
        regs: Registers {
            a: 0x01,
            f: 0xB0,
            b: 0x00,
            c: 0x13,
            d: 0x00,
            e: 0xD8,
            h: 0x01,
            l: 0x4D,
        },
        pc: 0x0100,
        sp: 0xFFFE,
        ime: false,
        ime_pending: false,
        halted: false,
        stopped: false,
        halt_bug: false,
        cb_pending: false,
        steps: Seq::<M>::empty(),
        cursor: 0,
        lsb: 0,
        msb: 0,
        ..s
    }
}

/// A freshly constructed machine: power-on state over an all-zero bus.
pub open spec fn spec_power_on() -> CpuV {
    spec_reset(
        CpuV {
            regs: Registers { a: 0, b: 0, c: 0, d: 0, e: 0, h: 0, l: 0, f: 0 },
            pc: 0,
            sp: 0,
            ime: false,
            ime_pending: false,
            halted: false,
            stopped: false,
            halt_bug: false,
            cb_pending: false,
            steps: Seq::<M>::empty(),
            cursor: 0,
            lsb: 0,
            msb: 0,
            mem: Seq::new(0x10000, |i: int| 0u8),
            intf: 0,
            inte: 0,
        },
    )
}

/// One accumulator operation; result and flags exactly as the spec
/// states them.
pub fn exec_alu(op: AluOp, a: u8, b: u8, cy: bool) -> (r: (u8, u8))
    ensures
        r == spec_alu(op, a, b, cy),
        r.1 % 16 == 0,
{
    match op {
        AluOp::Add => alu_add(a, b, false),
        AluOp::Adc => alu_add(a, b, cy),
        AluOp::Sub => alu_sub(a, b, false),
        AluOp::Sbc => alu_sub(a, b, cy),
        AluOp::And => alu_and(a, b),
        AluOp::Xor => alu_xor(a, b),
        AluOp::Or => alu_or(a, b),
        AluOp::Cp => {
            let t = alu_sub(a, b, false);
            (a, t.1)
        },
    }
}

/// One secondary-table operation on a byte; result and flags exactly as
/// the spec states them.
pub fn exec_cb_val(op: CbOp, x: u8, f: u8) -> (r: (u8, u8))
    requires
        f % 16 == 0,
    ensures
        r == spec_cb_val(op, x, f),
        r.1 % 16 == 0,
{
    let cy = f / 16 % 2 == 1;
    match op {
        CbOp::Rlc => {
            let (v, c) = alu_rlc(x);
            (v, pack_flags(v == 0, false, false, c))
        },
        CbOp::Rrc => {
            let (v, c) = alu_rrc(x);
            (v, pack_flags(v == 0, false, false, c))
        },
        CbOp::Rl => {
            let (v, c) = alu_rl(x, cy);
            (v, pack_flags(v == 0, false, false, c))
        },
        CbOp::Rr => {
            let (v, c) = alu_rr(x, cy);
            (v, pack_flags(v == 0, false, false, c))
        },
        CbOp::Sla => {
            let (v, c) = alu_sla(x);
            (v, pack_flags(v == 0, false, false, c))
        },
        CbOp::Sra => {
            let (v, c) = alu_sra(x);
            (v, pack_flags(v == 0, false, false, c))
        },
        CbOp::Swap => {
            let (v, _) = alu_swap(x);
            (v, pack_flags(v == 0, false, false, false))
        },
        CbOp::Srl => {
            let (v, c) = alu_srl(x);
            (v, pack_flags(v == 0, false, false, c))
        },
        CbOp::TestBit(n) => {
            let b = exec_bit(x, n);
            (x, pack_flags(!b, false, true, cy))
        },
        CbOp::ResBit(n) => (exec_res_bit(x, n), f),
        CbOp::SetBit(n) => (exec_set_bit(x, n), f),
    }
}

/// 16-bit addition that wraps modulo 65536; `d` of 65535 is a decrement.
fn wadd16(x: u16, d: u16) -> (r: u16)
    ensures
        r == wrap16(x + d),
{
    ((x as u32 + d as u32) % 65536) as u16
}

impl CPU {
    /// What the bus returns at an address.
    pub fn bus_read(&self, addr: u16) -> (v: u8)
        requires
            wf(self@),
        ensures
            v == mread(self@, addr),
    {
        self.bus.mem[addr as usize]
    }

    /// Stores one byte on the bus.
    pub fn bus_write(&mut self, addr: u16, v: u8)
        requires
            wf(old(self)@),
        ensures
            final(self)@ == mwrite(old(self)@, addr, v),
            wf(final(self)@),
    {
        self.bus.mem.set(addr as usize, v);
    }

    /// The pending-and-enabled interrupt mask.
    pub fn pending_mask(&self) -> (p: u8)
        ensures
            p == pending(self@),
    {
        self.bus.intf & self.bus.inte & 0x1F
    }

    /// The execution-time value of an address operand.
    fn calc_addr(&self, a: Addr) -> (v: u16)
        ensures
            v == addr_of(self@, a),
    {
        match a {
            Addr::BC => self.regs.get_bc(),
            Addr::DE => self.regs.get_de(),
            Addr::HL => self.regs.get_hl(),
            Addr::Imm16 => self.msb as u16 * 256 + self.lsb as u16,
            Addr::HighImm => 0xFF00 + self.lsb as u16,
            Addr::HighC => 0xFF00 + self.regs.c as u16,
        }
    }

    /// The 16-bit immediate assembled from the operand latch.
    fn imm16e(&self) -> (v: u16)
        ensures
            v == imm16(self@),
    {
        self.msb as u16 * 256 + self.lsb as u16
    }

    /// The execution-time value of a pair operand.
    fn get_pair(&self, p: Pair) -> (v: u16)
        ensures
            v == pair_of(self@, p),
    {
        match p {
            Pair::BC => self.regs.get_bc(),
            Pair::DE => self.regs.get_de(),
            Pair::HL => self.regs.get_hl(),
            Pair::SP => self.sp,
        }
    }

    /// Replaces one pair (or the stack pointer).
    fn set_pair(&mut self, p: Pair, v: u16)
        requires
            wf(old(self)@),
        ensures
            final(self)@ == with_pair(old(self)@, p, v),
            wf(final(self)@),
    {
        match p {
            Pair::BC => {
                self.regs.b = (v / 256) as u8;
                self.regs.c = (v % 256) as u8;
            },
            Pair::DE => {
                self.regs.d = (v / 256) as u8;
                self.regs.e = (v % 256) as u8;
            },
            Pair::HL => {
                self.regs.h = (v / 256) as u8;
                self.regs.l = (v % 256) as u8;
            },
            Pair::SP => {
                self.sp = v;
            },
        }
    }

    /// Applies one micro-operation, exactly as the spec-level semantics
    /// state it.  The step cursor is the caller's business.
    fn exec_micro(&mut self, m: M)
        requires
            wf(old(self)@),
        ensures
            final(self)@ == spec_exec_micro(old(self)@, m),
            wf(final(self)@),
    {
        match m {
            M::Nop | M::ReadLsb | M::ReadMsb | M::LdRN(_) | M::LdRR(_, _) | M::LdRMem(_, _)
                | M::LdMemR(_, _) | M::LdHLN | M::LdAHLInc | M::LdHLIncA | M::LdAHLDec
                | M::LdHLDecA | M::LdSpNN | M::LdSpHL | M::LdHLSpN | M::LdNNSpLo
                | M::LdNNSpHi => self.exec_micro_mov(m),
            M::IncReg(_) | M::DecReg(_) | M::IncPair(_) | M::DecPair(_) | M::IncMemHL
                | M::DecMemHL | M::Alu(_, _) | M::AddHLPair(_) | M::AddSpN | M::Daa | M::Rlca
                | M::Rla | M::Rrca | M::Rra | M::Cpl | M::Scf | M::Ccf => self.exec_micro_arith(
                m,
            ),
            M::Cond(_, _) | M::Jr | M::Jp | M::JpHL | M::Push(_) | M::PopR(_) | M::PopPcLsb
                | M::PopPcMsb | M::Rst(_) | M::Reti | M::Ei | M::Di | M::Halt | M::Stop
                | M::Cb(_, _) => self.exec_micro_ctrl(m),
        }
    }

    /// The transfer micro-operations: operand fetches, register and
    /// memory loads, and the 16-bit stack-pointer loads.
    #[verifier::rlimit(60)]
    fn exec_micro_mov(&mut self, m: M)
        requires
            wf(old(self)@),
            m is Nop || m is ReadLsb || m is ReadMsb || m is LdRN || m is LdRR || m is LdRMem || m is LdMemR || m is LdHLN || m is LdAHLInc || m is LdHLIncA || m is LdAHLDec || m is LdHLDecA || m is LdSpNN || m is LdSpHL || m is LdHLSpN || m is LdNNSpLo || m is LdNNSpHi,
        ensures
            final(self)@ == spec_micro_mov(old(self)@, m),
            wf(final(self)@),
    {
        proof {
            reveal(spec_micro_mov);
        }
        match m {
            M::Nop => {},

            M::ReadLsb => {
                let v = self.bus_read(self.pc);
                self.lsb = v;
                self.pc = wadd16(self.pc, 1);
            },

            M::ReadMsb => {
                let v = self.bus_read(self.pc);
                self.msb = v;
                self.pc = wadd16(self.pc, 1);
            },

            M::LdRN(r) => {
                let v = self.bus_read(self.pc);
                self.regs.set(r, v);
                proof {
                    lemma_mask_flags(v);
                }
                self.pc = wadd16(self.pc, 1);
            },

            M::LdRR(d, src) => {
                let v = self.regs.get(src);
                self.regs.set(d, v);
                proof {
                    lemma_mask_flags(v);
                }
            },

            M::LdRMem(r, a) => {
                let ad = self.calc_addr(a);
                let v = self.bus_read(ad);
                self.regs.set(r, v);
                proof {
                    lemma_mask_flags(v);
                }
            },

            M::LdMemR(a, r) => {
                let ad = self.calc_addr(a);
                let v = self.regs.get(r);
                self.bus_write(ad, v);
            },

            M::LdHLN => {
                let ad = self.regs.get_hl();
                let v = self.lsb;
                self.bus_write(ad, v);
            },

            M::LdAHLInc => {
                let hl = self.regs.get_hl();
                let v = self.bus_read(hl);
                self.regs.a = v;
                let nhl = wadd16(hl, 1);
                self.regs.h = (nhl / 256) as u8;
                self.regs.l = (nhl % 256) as u8;
            },

            M::LdHLIncA => {
                let hl = self.regs.get_hl();
                let v = self.regs.a;
                self.bus_write(hl, v);
                let nhl = wadd16(hl, 1);
                self.regs.h = (nhl / 256) as u8;
                self.regs.l = (nhl % 256) as u8;
            },

            M::LdAHLDec => {
                let hl = self.regs.get_hl();
                let v = self.bus_read(hl);
                self.regs.a = v;
                let nhl = wadd16(hl, 65535);
                self.regs.h = (nhl / 256) as u8;
                self.regs.l = (nhl % 256) as u8;
            },

            M::LdHLDecA => {
                let hl = self.regs.get_hl();
                let v = self.regs.a;
                self.bus_write(hl, v);
                let nhl = wadd16(hl, 65535);
                self.regs.h = (nhl / 256) as u8;
                self.regs.l = (nhl % 256) as u8;
            },

            M::LdSpNN => {
                self.sp = self.imm16e();
            },

            M::LdSpHL => {
                self.sp = self.regs.get_hl();
            },

            M::LdHLSpN => {
                let (v, f) = alu_add_sp(self.sp, self.lsb);
                self.regs.h = (v / 256) as u8;
                self.regs.l = (v % 256) as u8;
                self.regs.f = f;
            },

            M::LdNNSpLo => {
                let ad = self.imm16e();
                let v = (self.sp % 256) as u8;
                self.bus_write(ad, v);
            },

            M::LdNNSpHi => {
                let ad = wadd16(self.imm16e(), 1);
                let v = (self.sp / 256) as u8;
                self.bus_write(ad, v);
            },
            _ => {
            },
        }
    }

    /// The arithmetic micro-operations: increments, accumulator and
    /// 16-bit arithmetic, decimal adjust and the accumulator rotates.
    #[verifier::rlimit(100)]
    fn exec_micro_arith(&mut self, m: M)
        requires
            wf(old(self)@),
            m is IncReg || m is DecReg || m is IncPair || m is DecPair || m is IncMemHL || m is DecMemHL || m is Alu || m is AddHLPair || m is AddSpN || m is Daa || m is Rlca || m is Rla || m is Rrca || m is Rra || m is Cpl || m is Scf || m is Ccf,
        ensures
            final(self)@ == spec_micro_arith(old(self)@, m),
            wf(final(self)@),
    {
        proof {
            reveal(spec_micro_arith);
        }
        match m {
            M::IncReg(r) => {
                let cy = self.regs.flag(Flag::C);
                let x = self.regs.get(r);
                let (v, f) = alu_inc(x, cy);
                self.regs.set(r, v);
                proof {
                    lemma_mask_flags(v);
                }
                self.regs.f = f;
            },

            M::DecReg(r) => {
                let cy = self.regs.flag(Flag::C);
                let x = self.regs.get(r);
                let (v, f) = alu_dec(x, cy);
                self.regs.set(r, v);
                proof {
                    lemma_mask_flags(v);
                }
                self.regs.f = f;
            },

            M::IncPair(p) => {
                let v = self.get_pair(p);
                let nv = wadd16(v, 1);
                self.set_pair(p, nv);
            },

            M::DecPair(p) => {
                let v = self.get_pair(p);
                let nv = wadd16(v, 65535);
                self.set_pair(p, nv);
            },

            M::IncMemHL => {
                let cy = self.regs.flag(Flag::C);
                let hl = self.regs.get_hl();
                let x = self.bus_read(hl);
                let (v, f) = alu_inc(x, cy);
                self.bus_write(hl, v);
                self.regs.f = f;
            },

            M::DecMemHL => {
                let cy = self.regs.flag(Flag::C);
                let hl = self.regs.get_hl();
                let x = self.bus_read(hl);
                let (v, f) = alu_dec(x, cy);
                self.bus_write(hl, v);
                self.regs.f = f;
            },

            M::Alu(op, o) => {
                let b = match o {
                    Operand::Reg(r) => self.regs.get(r),
                    Operand::MemHL => {
                        let hl = self.regs.get_hl();
                        self.bus_read(hl)
                    },
                    Operand::Imm => self.lsb,
                };
                let cy = self.regs.flag(Flag::C);
                let (v, f) = exec_alu(op, self.regs.a, b, cy);
                self.regs.a = v;
                self.regs.f = f;
            },

            M::AddHLPair(p) => {
                let z = self.regs.flag(Flag::Z);
                let hl = self.regs.get_hl();
                let x = self.get_pair(p);
                let (v, f) = alu_add16(hl, x, z);
                self.regs.h = (v / 256) as u8;
                self.regs.l = (v % 256) as u8;
                self.regs.f = f;
            },

            M::AddSpN => {
                let (v, f) = alu_add_sp(self.sp, self.lsb);
                self.sp = v;
                self.regs.f = f;
            },

            M::Daa => {
                let n = self.regs.flag(Flag::N);
                let h = self.regs.flag(Flag::H);
                let c = self.regs.flag(Flag::C);
                let (v, f) = alu_daa(self.regs.a, n, h, c);
                self.regs.a = v;
                self.regs.f = f;
            },

            M::Rlca => {
                let (v, c) = alu_rlc(self.regs.a);
                self.regs.a = v;
                self.regs.f = pack_flags(false, false, false, c);
            },

            M::Rla => {
                let cy = self.regs.flag(Flag::C);
                let (v, c) = alu_rl(self.regs.a, cy);
                self.regs.a = v;
                self.regs.f = pack_flags(false, false, false, c);
            },

            M::Rrca => {
                let (v, c) = alu_rrc(self.regs.a);
                self.regs.a = v;
                self.regs.f = pack_flags(false, false, false, c);
            },

            M::Rra => {
                let cy = self.regs.flag(Flag::C);
                let (v, c) = alu_rr(self.regs.a, cy);
                self.regs.a = v;
                self.regs.f = pack_flags(false, false, false, c);
            },

            M::Cpl => {
                let z = self.regs.flag(Flag::Z);
                let c = self.regs.flag(Flag::C);
                self.regs.a = 255 - self.regs.a;
                self.regs.f = pack_flags(z, true, true, c);
            },

            M::Scf => {
                let z = self.regs.flag(Flag::Z);
                self.regs.f = pack_flags(z, false, false, true);
            },

            M::Ccf => {
                let z = self.regs.flag(Flag::Z);
                let c = self.regs.flag(Flag::C);
                self.regs.f = pack_flags(z, false, false, !c);
            },
            _ => {
            },
        }
    }

    /// The control micro-operations: jumps, stack transfers, interrupt
    /// enabling, the power states and the secondary-table operations.
    #[verifier::rlimit(60)]
    fn exec_micro_ctrl(&mut self, m: M)
        requires
            wf(old(self)@),
            m is Cond || m is Jr || m is Jp || m is JpHL || m is Push || m is PopR || m is PopPcLsb || m is PopPcMsb || m is Rst || m is Reti || m is Ei || m is Di || m is Halt || m is Stop || m is Cb,
        ensures
            final(self)@ == spec_micro_ctrl(old(self)@, m),
            wf(final(self)@),
    {
        proof {
            reveal(spec_micro_ctrl);
        }
        match m {
            M::Cond(_, _) => {},

            M::Jr => {
                let ext: u32 = if self.lsb < 128 {
                    0
                } else {
                    65280
                };
                self.pc = ((self.pc as u32 + self.lsb as u32 + ext) % 65536) as u16;
            },

            M::Jp => {
                self.pc = self.imm16e();
            },

            M::JpHL => {
                self.pc = self.regs.get_hl();
            },

            M::Push(src) => {
                let v = match src {
                    PushSrc::Reg(r) => self.regs.get(r),
                    PushSrc::PcHi => (self.pc / 256) as u8,
                    PushSrc::PcLo => (self.pc % 256) as u8,
                };
                let nsp = wadd16(self.sp, 65535);
                self.sp = nsp;
                self.bus_write(nsp, v);
            },

            M::PopR(r) => {
                let v = self.bus_read(self.sp);
                self.regs.set(r, v);
                proof {
                    lemma_mask_flags(v);
                }
                self.sp = wadd16(self.sp, 1);
            },

            M::PopPcLsb => {
                let v = self.bus_read(self.sp);
                self.lsb = v;
                self.sp = wadd16(self.sp, 1);
            },

            M::PopPcMsb => {
                let v = self.bus_read(self.sp);
                self.msb = v;
                self.sp = wadd16(self.sp, 1);
            },

            M::Rst(v) => {
                self.pc = v;
            },

            M::Reti => {
                self.pc = self.imm16e();
                self.ime = true;
            },

            M::Ei => {
                self.ime_pending = true;
            },

            M::Di => {
                self.ime = false;
                self.ime_pending = false;
            },

            M::Halt => {
                let p = self.pending_mask();
                if !self.ime && p != 0 {
                    self.halt_bug = true;
                } else {
                    self.halted = true;
                }
            },

            M::Stop => {
                self.stopped = true;
            },

            M::Cb(op, tgt) => {
                let x = match tgt {
                    CbTarget::Reg(r) => self.regs.get(r),
                    CbTarget::MemHL => {
                        let hl = self.regs.get_hl();
                        self.bus_read(hl)
                    },
                };
                let (v, nf) = exec_cb_val(op, x, self.regs.f);
                match op {
                    CbOp::TestBit(_) => {
                        self.regs.f = nf;
                    },
                    _ => {
                        match tgt {
                            CbTarget::Reg(r) => {
                                self.regs.set(r, v);
                                proof {
                                    lemma_mask_flags(v);
                                }
                                self.regs.f = nf;
                            },
                            CbTarget::MemHL => {
                                let hl = self.regs.get_hl();
                                self.bus_write(hl, v);
                                self.regs.f = nf;
                            },
                        }
                    },
                }
            },
            _ => {
            },
        }
    }

    /// One in-flight cycle: runs the micro-operation under the cursor.
    fn step_inflight(&mut self)
        requires
            wf(old(self)@),
            old(self)@.cursor < old(self)@.steps.len(),
        ensures
            final(self)@ == spec_step(old(self)@),
            wf(final(self)@),
    {
        let n = self.steps.len();
        let m = self.steps[self.cursor];
        match m {
            M::Cond(fl, pol) => {
                let hit = self.regs.flag(fl);
                if hit == pol {
                    self.cursor = self.cursor + 1;
                } else {
                    self.cursor = n;
                }
            },
            _ => {
                self.cursor = self.cursor + 1;
                self.exec_micro(m);
            },
        }
    }

    /// An instruction boundary: finish the escape prefix, dispatch a
    /// pending interrupt, or fetch, decode and begin the next
    /// instruction this same cycle.  A fault leaves the state untouched.
    fn boundary(&mut self) -> (r: Result<(), Fault>)
        requires
            wf(old(self)@),
        ensures
            wf(final(self)@),
            match spec_boundary(old(self)@) {
                Some(v) => r is Ok && final(self)@ == v,
                None => r is Err && final(self)@ == old(self)@ && r->Err_0 == Fault::IllegalOpcode(
                    mread(old(self)@, old(self)@.pc),
                ),
            },
    {
        proof {
            reveal(spec_boundary);
        }
        if self.cb_pending {
            let op = self.bus_read(self.pc);
            self.pc = wadd16(self.pc, 1);
            self.cb_pending = false;
            self.steps = decode_cb_opcode(op);
            self.cursor = 0;
            proof {
                crate::decode::lemma_decode_cb_nonempty(op);
            }
            self.step_inflight();
            Ok(())
        } else {
            let p = self.pending_mask();
            if self.ime && p != 0 {
                let i: u8 = if p % 2 == 1 {
                    0
                } else if p / 2 % 2 == 1 {
                    1
                } else if p / 4 % 2 == 1 {
                    2
                } else if p / 8 % 2 == 1 {
                    3
                } else {
                    4
                };
                self.ime = false;
                self.ime_pending = false;
                self.bus.intf = exec_res_bit(self.bus.intf, i);
                self.lsb = 0x40 + 8 * i;
                self.msb = 0;
                self.steps = steps5(
                    M::Nop,
                    M::Nop,
                    M::Push(PushSrc::PcHi),
                    M::Push(PushSrc::PcLo),
                    M::Jp,
                );
                self.cursor = 1;
                Ok(())
            } else {
                let op = self.bus_read(self.pc);
                match decode_opcode(op) {
                    Err(f) => Err(f),
                    Ok(steps) => {
                        if self.ime_pending {
                            self.ime = true;
                            self.ime_pending = false;
                        }
                        if self.halt_bug {
                            self.halt_bug = false;
                        } else {
                            self.pc = wadd16(self.pc, 1);
                        }
                        self.steps = steps;
                        self.cursor = 0;
                        if op == 0xCB {
                            self.cb_pending = true;
                            Ok(())
                        } else {
                            proof {
                                crate::decode::lemma_decode_nonempty(op);
                            }
                            self.step_inflight();
                            Ok(())
                        }
                    },
                }
            }
        }
    }

    /// Advances the machine by exactly one clock cycle.  The whole
    /// effect is the spec-level step function; the illegal-opcode fault
    /// leaves every part of the state unchanged.
    pub fn tick(&mut self) -> (r: Result<(), Fault>)
        requires
            wf(old(self)@),
        ensures
            wf(final(self)@),
            match spec_tick_result(old(self)@) {
                Some(v) => r is Ok && final(self)@ == v,
                None => r is Err && final(self)@ == old(self)@,
            },
    {
        proof {
            reveal(spec_boundary);
        }
        if self.stopped {
            return Ok(());
        }
        if self.halted {
            let p = self.pending_mask();
            if p == 0 {
                return Ok(());
            }
            self.halted = false;
            let r = self.boundary();
            if r.is_err() {
                // A fault must leave the machine exactly as it was, so
                // the halted state is re-entered on the fault path.
                self.halted = true;
            }
            return r;
        }
        if self.cursor < self.steps.len() {
            self.step_inflight();
            return Ok(());
        }
        self.boundary()
    }

    /// A fresh machine in the documented power-on state over an all-zero
    /// bus.
    pub fn new() -> (c: CPU)
        ensures
            c@ == spec_power_on(),
            wf(c@),
    {
        let mut mem: Vec<u8> = Vec::new();
        while mem.len() < 65536
            invariant
                mem@.len() <= 65536,
                forall|j: int| 0 <= j < mem@.len() ==> mem@[j] == 0,
            decreases 65536 - mem.len(),
        {
            mem.push(0);
        }
        let mut c = CPU {
            regs: Registers { a: 0, b: 0, c: 0, d: 0, e: 0, h: 0, l: 0, f: 0 },
            pc: 0,
            sp: 0,
            ime: false,
            ime_pending: false,
            halted: false,
            stopped: false,
            halt_bug: false,
            cb_pending: false,
            steps: Vec::new(),
            cursor: 0,
            lsb: 0,
            msb: 0,
            bus: Bus { mem, intf: 0, inte: 0 },
        };
        proof {
            assert(c@.mem =~= Seq::new(0x10000, |i: int| 0u8));
        }
        c.reset();
        proof {
            assert(c@ =~= spec_power_on());
        }
        c
    }

    /// Reinitialises the CPU state to its documented power-on values;
    /// the bus contents belong to the surrounding system and are kept.
    pub fn reset(&mut self)
        requires
            wf(old(self)@),
        ensures
            final(self)@ == spec_reset(old(self)@),
            wf(final(self)@),
    {
        self.regs.a = 0x01;
        self.regs.f = 0xB0;
        self.regs.b = 0x00;
        self.regs.c = 0x13;
        self.regs.d = 0x00;
        self.regs.e = 0xD8;
        self.regs.h = 0x01;
        self.regs.l = 0x4D;
        self.pc = 0x0100;
        self.sp = 0xFFFE;
        self.ime = false;
        self.ime_pending = false;
        self.halted = false;
        self.stopped = false;
        self.halt_bug = false;
        self.cb_pending = false;
        self.steps = Vec::new();
        self.cursor = 0;
        self.lsb = 0;
        self.msb = 0;
        proof {
            assert(final(self)@ =~= spec_reset(old(self)@));
        }
    }

    /// The external wake condition observed while stopped: the clock
    /// resumes; nothing else changes.
    pub fn wake(&mut self)
        ensures
            final(self)@ == (CpuV { stopped: false, ..old(self)@ }),
    {
        self.stopped = false;
    }

    /// Decodes one primary-table opcode into its micro-operation
    /// sequence, or the illegal-opcode fault for the eleven reserved
    /// values.  Decoding is a pure function of the opcode byte and never
    /// touches CPU state.
    pub fn decode_instr(&self, opcode: u8) -> (r: Result<Vec<M>, Fault>)
        ensures
            spec_legal(opcode) ==> r is Ok && r->Ok_0@ == spec_decode(opcode),
            !spec_legal(opcode) ==> r is Err && r->Err_0 == Fault::IllegalOpcode(opcode),
    {
        decode_opcode(opcode)
    }

    /// Decodes one secondary-table opcode; every one of its 256 entries
    /// is defined.
    pub fn decode_cb_instr(&self, opcode: u8) -> (v: Vec<M>)
        ensures
            v@ == spec_decode_cb(opcode),
    {
        decode_cb_opcode(opcode)
    }

    /// Advances the machine by `n` clock cycles, stopping at the first
    /// fault.  For a fixed starting state the result is the unique value
    /// of the spec-level run function: execution is deterministic.
    pub fn run(&mut self, n: u64) -> (r: Result<(), Fault>)
        requires
            wf(old(self)@),
        ensures
            wf(final(self)@),
            match spec_run(old(self)@, n as nat) {
                Some(v) => r is Ok && final(self)@ == v,
                None => r is Err,
            },
    {
        let mut i: u64 = 0;
        while i < n
            invariant
                i <= n,
                wf(self@),
                spec_run(self@, (n - i) as nat) == spec_run(old(self)@, n as nat),
            decreases n - i,
        {
            match self.tick() {
                Err(f) => {
                    return Err(f);
                },
                Ok(_) => {},
            }
            i = i + 1;
        }
        Ok(())
    }
}

} // verus!
