//! The laws of the core, stated and proved against the spec-level
//! semantics that `tick` is contracted to: determinism, per-opcode cycle
//! counts, the push/pop round trip, the delayed interrupt enable, the
//! halt bug, and the illegal-opcode fault.

use vstd::prelude::*;
use crate::regs::Register;
use crate::regs::Flag;
use crate::regs::spec_get;
use crate::regs::flag_z;
use crate::regs::mask_flags;
use crate::regs::lemma_mask_flags;
use crate::regs::lemma_set_get;
use crate::regs::lemma_set_get_other;
use crate::regs::spec_set;
use crate::alu::wrap16;
use crate::micro::MicroInstr as M;
use crate::micro::PushSrc;
use crate::decode::spec_decode;
use crate::decode::spec_legal;
use crate::cpu::CpuV;
use crate::cpu::wf;
use crate::cpu::mread;
use crate::cpu::pending;
use crate::cpu::lowest_pending;
use crate::cpu::dispatch_steps;
use crate::cpu::spec_exec_micro;
use crate::cpu::spec_step;
use crate::cpu::spec_tick_result;
use crate::cpu::spec_run;
use crate::cpu::jr_target;
use crate::alu::spec_res_bit;

verus! {

/// The machine is at an instruction boundary, running, with no dispatch
/// due and no latched quirk: the next cycle fetches the byte at the
/// program counter.
pub open spec fn at_fetch(s: CpuV) -> bool {
    &&& wf(s)
    &&& !s.stopped
    &&& !s.halted
    &&& !s.cb_pending
    &&& !s.halt_bug
    &&& !s.ime_pending
    &&& s.cursor == s.steps.len()
    &&& !(s.ime && pending(s) != 0)
}

/// Determinism: for a fixed starting state, executing N cycles has
/// exactly one outcome — two runs from equal states end in equal states
/// (or fault identically).  `CPU::tick` and `CPU::run` are contracted to
/// this function of the state, so the executable engine inherits it.
pub proof fn lemma_determinism(s1: CpuV, s2: CpuV, n: nat)
    requires
        s1 == s2,
    ensures
        spec_run(s1, n) == spec_run(s2, n),
{
}

/// The sequence of the conditional relative jump: an operand fetch, the
/// gate on the zero flag, and the jump.
pub proof fn lemma_decode_jr_nz()
    ensures
        spec_decode(0x20) =~= seq![M::ReadLsb, M::Cond(Flag::Z, false), M::Jr],
{
    reveal(crate::decode::spec_decode_lo);
}

/// Cycle-count exactness, not-taken variant: with the zero flag set the
/// branch gate fails, the remaining step is discarded, and the
/// instruction is over after exactly two cycles — not one — with the
/// program counter past the operand and nothing else jumped.
#[verifier::rlimit(100)]
pub proof fn lemma_jr_nz_not_taken(s: CpuV)
    requires
        at_fetch(s),
        mread(s, s.pc) == 0x20,
        flag_z(s.regs.f),
    ensures
        spec_run(s, 1) is Some && spec_run(s, 1)->Some_0.cursor < spec_run(
            s,
            1,
        )->Some_0.steps.len(),
        spec_run(s, 2) is Some,
        spec_run(s, 2)->Some_0.cursor == spec_run(s, 2)->Some_0.steps.len(),
        spec_run(s, 2)->Some_0.pc == wrap16(s.pc + 2),
{
    reveal_with_fuel(spec_run, 4);
    lemma_fetch_advances(s);
    lemma_decode_jr_nz();
    let stps = spec_decode(0x20);
    let s0 = CpuV { pc: wrap16(s.pc + 1), steps: stps, cursor: 0, ..s };
    let t1 = CpuV {
        pc: wrap16(s.pc + 2),
        lsb: mread(s, wrap16(s.pc + 1)),
        steps: stps,
        cursor: 1,
        ..s
    };
    assert(spec_step(s0) == t1) by {
        reveal(crate::cpu::spec_micro_mov);
        assert(s0.steps[0] == M::ReadLsb);
        assert(wrap16(s0.pc + 1) == wrap16(s.pc + 2));
        assert(spec_step(s0) =~= t1);
    }
    let t2 = CpuV { cursor: 3, ..t1 };
    assert(spec_step(t1) == t2) by {
        assert(t1.steps[1] == M::Cond(Flag::Z, false));
        assert(spec_step(t1) =~= t2);
    }
    assert(spec_tick_result(s) == Some(t1));
    assert(spec_tick_result(t1) == Some(t2));
    assert(spec_run(s, 1) == Some(t1));
    assert(spec_run(t1, 1) == Some(t2)) by {
        assert(spec_run(t2, 0) == Some(t2));
    }
    assert(spec_run(s, 2) == Some(t2));
}

/// Cycle-count exactness, taken variant: with the zero flag clear the
/// jump is taken and costs exactly three cycles, landing on the
/// displaced target.
#[verifier::rlimit(100)]
pub proof fn lemma_jr_nz_taken(s: CpuV)
    requires
        at_fetch(s),
        mread(s, s.pc) == 0x20,
        !flag_z(s.regs.f),
    ensures
        spec_run(s, 2) is Some && spec_run(s, 2)->Some_0.cursor < spec_run(
            s,
            2,
        )->Some_0.steps.len(),
        spec_run(s, 3) is Some,
        spec_run(s, 3)->Some_0.cursor == spec_run(s, 3)->Some_0.steps.len(),
        spec_run(s, 3)->Some_0.pc == jr_target(wrap16(s.pc + 2), mread(s, wrap16(s.pc + 1))),
{
    reveal_with_fuel(spec_run, 4);
    lemma_fetch_advances(s);
    lemma_decode_jr_nz();
    let stps = spec_decode(0x20);
    let s0 = CpuV { pc: wrap16(s.pc + 1), steps: stps, cursor: 0, ..s };
    let t1 = CpuV {
        pc: wrap16(s.pc + 2),
        lsb: mread(s, wrap16(s.pc + 1)),
        steps: stps,
        cursor: 1,
        ..s
    };
    assert(spec_step(s0) == t1) by {
        reveal(crate::cpu::spec_micro_mov);
        assert(s0.steps[0] == M::ReadLsb);
        assert(wrap16(s0.pc + 1) == wrap16(s.pc + 2));
        assert(spec_step(s0) =~= t1);
    }
    let t2 = CpuV { cursor: 2, ..t1 };
    assert(spec_step(t1) == t2) by {
        assert(t1.steps[1] == M::Cond(Flag::Z, false));
        assert(spec_step(t1) =~= t2);
    }
    let t3 = CpuV { pc: jr_target(t2.pc, t2.lsb), cursor: 3, ..t2 };
    assert(spec_step(t2) == t3) by {
        reveal(crate::cpu::spec_micro_ctrl);
        assert(t2.steps[2] == M::Jr);
        assert(spec_step(t2) =~= t3);
    }
    assert(spec_tick_result(s) == Some(t1));
    assert(spec_tick_result(t1) == Some(t2));
    assert(spec_tick_result(t2) == Some(t3));
    assert(spec_run(s, 1) == Some(t1));
    assert(spec_run(t2, 1) == Some(t3)) by {
        assert(spec_run(t3, 0) == Some(t3));
    }
    assert(spec_run(t1, 2) == Some(t3));
    assert(spec_run(s, 3) == Some(t3));
    assert(spec_run(s, 2) == Some(t2));
}

/// Round trip of the stack: pushing any register pair (high byte first)
/// and immediately popping it restores the exact original byte values —
/// including the flag register's forced-zero low nibble — and the stack
/// pointer.
#[verifier::rlimit(100)]
pub proof fn lemma_push_pop_roundtrip(s: CpuV, hi: Register, lo: Register)
    requires
        wf(s),
    ensures
        ({
            let s1 = spec_exec_micro(s, M::Push(PushSrc::Reg(hi)));
            let s2 = spec_exec_micro(s1, M::Push(PushSrc::Reg(lo)));
            let s3 = spec_exec_micro(s2, M::PopR(lo));
            let s4 = spec_exec_micro(s3, M::PopR(hi));
            &&& spec_get(s4.regs, hi) == spec_get(s.regs, hi)
            &&& spec_get(s4.regs, lo) == spec_get(s.regs, lo)
            &&& s4.sp == s.sp
        }),
{
    let a1 = wrap16(s.sp + 65535);
    let a2 = wrap16(a1 + 65535);
    if s.sp == 0 {
        assert(a1 == 65535);
    } else {
        assert(a1 == s.sp - 1);
    }
    if a1 == 0 {
        assert(a2 == 65535);
    } else {
        assert(a2 == a1 - 1);
    }
    let g_hi = spec_get(s.regs, hi);
    let g_lo = spec_get(s.regs, lo);
    let s1e = CpuV { sp: a1, mem: s.mem.update(a1 as int, g_hi), ..s };
    assert(spec_exec_micro(s, M::Push(PushSrc::Reg(hi))) == s1e) by {
        reveal(crate::cpu::spec_micro_ctrl);
        assert(spec_exec_micro(s, M::Push(PushSrc::Reg(hi))) =~= s1e);
    }
    let s2e = CpuV { sp: a2, mem: s1e.mem.update(a2 as int, g_lo), ..s };
    assert(spec_exec_micro(s1e, M::Push(PushSrc::Reg(lo))) == s2e) by {
        reveal(crate::cpu::spec_micro_ctrl);
        assert(wrap16(s1e.sp + 65535) == a2);
        assert(spec_get(s1e.regs, lo) == g_lo);
        assert(spec_exec_micro(s1e, M::Push(PushSrc::Reg(lo))) =~= s2e);
    }
    assert(mread(s2e, a2) == g_lo);
    let s3e = CpuV { regs: spec_set(s.regs, lo, g_lo), sp: a1, ..s2e };
    assert(spec_exec_micro(s2e, M::PopR(lo)) == s3e) by {
        reveal(crate::cpu::spec_micro_ctrl);
        assert(wrap16(a2 + 1) == a1);
        assert(spec_exec_micro(s2e, M::PopR(lo)) =~= s3e);
    }
    assert(mread(s3e, a1) == g_hi);
    let s4e = CpuV { regs: spec_set(s3e.regs, hi, g_hi), sp: s.sp, ..s3e };
    assert(spec_exec_micro(s3e, M::PopR(hi)) == s4e) by {
        reveal(crate::cpu::spec_micro_ctrl);
        assert(wrap16(a1 + 1) == s.sp);
        assert(spec_exec_micro(s3e, M::PopR(hi)) =~= s4e);
    }
    lemma_mask_flags(s.regs.f);
    lemma_set_get(s3e.regs, hi, g_hi);
    lemma_set_get(s.regs, lo, g_lo);
    if hi != lo {
        lemma_set_get_other(s3e.regs, hi, lo, g_hi);
        lemma_set_get_other(s.regs, lo, hi, g_lo);
    }
    if hi is F {
        assert(g_hi == s.regs.f);
        assert(mask_flags(g_hi) == g_hi);
    }
    if lo is F {
        assert(g_lo == s.regs.f);
        assert(mask_flags(g_lo) == g_lo);
    }
}

/// The enable-interrupts delay: at the fetch boundary right after the
/// enabling instruction, the pending latch is applied but no dispatch
/// happens, even with a request already pending and enabled — the
/// following instruction is fetched normally.
#[verifier::rlimit(100)]
pub proof fn lemma_ei_delay(s: CpuV)
    requires
        wf(s),
        !s.stopped,
        !s.halted,
        !s.cb_pending,
        !s.halt_bug,
        s.cursor == s.steps.len(),
        !s.ime,
        s.ime_pending,
        pending(s) != 0,
        spec_legal(mread(s, s.pc)),
        mread(s, s.pc) != 0xCB,
    ensures
        spec_tick_result(s) == Some(
            spec_step(
                CpuV {
                    ime: true,
                    ime_pending: false,
                    pc: wrap16(s.pc + 1),
                    steps: spec_decode(mread(s, s.pc)),
                    cursor: 0,
                    ..s
                },
            ),
        ),
{
    reveal(crate::cpu::spec_boundary);
    crate::decode::lemma_decode_nonempty(mread(s, s.pc));
}

/// No transfer micro-operation touches the sequence in flight, the
/// cursor, or the power state.
proof fn lemma_micro_mov_frame(s: CpuV, m: M)
    ensures
        ({
            let v = crate::cpu::spec_micro_mov(s, m);
            &&& v.steps == s.steps
            &&& v.cursor == s.cursor
            &&& v.halted == s.halted
            &&& v.stopped == s.stopped
            &&& v.cb_pending == s.cb_pending
        }),
{
    reveal(crate::cpu::spec_micro_mov);
}

/// No arithmetic micro-operation touches the sequence in flight, the
/// cursor, or the power state.
proof fn lemma_micro_arith_frame(s: CpuV, m: M)
    ensures
        ({
            let v = crate::cpu::spec_micro_arith(s, m);
            &&& v.steps == s.steps
            &&& v.cursor == s.cursor
            &&& v.halted == s.halted
            &&& v.stopped == s.stopped
            &&& v.cb_pending == s.cb_pending
        }),
{
    reveal(crate::cpu::spec_micro_arith);
}

/// No control micro-operation except halt and stop touches the sequence
/// in flight, the cursor, or the power state.
proof fn lemma_micro_ctrl_frame(s: CpuV, m: M)
    requires
        !(m is Halt),
        !(m is Stop),
    ensures
        ({
            let v = crate::cpu::spec_micro_ctrl(s, m);
            &&& v.steps == s.steps
            &&& v.cursor == s.cursor
            &&& v.halted == s.halted
            &&& v.stopped == s.stopped
            &&& v.cb_pending == s.cb_pending
        }),
{
    reveal(crate::cpu::spec_micro_ctrl);
}

/// Every micro-operation but halt and stop leaves the sequence in
/// flight, the cursor and the power state alone.
#[verifier::rlimit(100)]
pub proof fn lemma_micro_frame(s: CpuV, m: M)
    requires
        !(m is Halt),
        !(m is Stop),
    ensures
        ({
            let v = spec_exec_micro(s, m);
            &&& v.steps == s.steps
            &&& v.cursor == s.cursor
            &&& v.halted == s.halted
            &&& v.stopped == s.stopped
            &&& v.cb_pending == s.cb_pending
        }),
{
    lemma_micro_mov_frame(s, m);
    lemma_micro_arith_frame(s, m);
    lemma_micro_ctrl_frame(s, m);
}

/// The tail of the sequence from position `i` on holds no conditional
/// gate and no power-state operation: execution is straight-line.
pub open spec fn straight_line(q: Seq<M>, i: int) -> bool {
    forall|j: int|
        i <= j < q.len() ==> !(#[trigger] q[j] is Cond) && !(q[j] is Halt) && !(q[j] is Stop)
}

/// A running machine finishes the straight-line remainder of its
/// sequence in exactly one cycle per micro-operation: after that many
/// cycles the instruction is over, and after any fewer it is still in
/// flight.
pub proof fn lemma_straight_line_cycles(s: CpuV, k: nat)
    requires
        !s.stopped,
        !s.halted,
        0 <= s.cursor <= s.steps.len(),
        k == s.steps.len() - s.cursor,
        straight_line(s.steps, s.cursor),
    ensures
        spec_run(s, k) is Some,
        spec_run(s, k)->Some_0.cursor == spec_run(s, k)->Some_0.steps.len(),
        spec_run(s, k)->Some_0.steps == s.steps,
        forall|j: nat|
            j < k ==> #[trigger] spec_run(s, j) is Some && spec_run(s, j)->Some_0.cursor
                < s.steps.len() && spec_run(s, j)->Some_0.steps == s.steps,
    decreases k,
{
    reveal_with_fuel(spec_run, 2);
    if k == 0 {
        assert(spec_run(s, 0) == Some(s));
    } else {
        let m = s.steps[s.cursor];
        assert(!(m is Cond) && !(m is Halt) && !(m is Stop));
        let s1 = spec_step(s);
        assert(s1 == spec_exec_micro(CpuV { cursor: s.cursor + 1, ..s }, m));
        lemma_micro_frame(CpuV { cursor: s.cursor + 1, ..s }, m);
        assert(s1.steps == s.steps && s1.cursor == s.cursor + 1);
        assert(!s1.halted && !s1.stopped);
        assert(spec_tick_result(s) == Some(s1));
        lemma_straight_line_cycles(s1, (k - 1) as nat);
        assert(spec_run(s, k) == spec_run(s1, (k - 1) as nat));
        assert forall|j: nat| j < k implies #[trigger] spec_run(s, j) is Some && spec_run(
            s,
            j,
        )->Some_0.cursor < s.steps.len() && spec_run(s, j)->Some_0.steps == s.steps by {
            if j == 0 {
                assert(spec_run(s, 0) == Some(s));
            } else {
                assert(spec_run(s, j) == spec_run(s1, (j - 1) as nat));
            }
        }
    }
}

/// Cycle-count exactness for every unconditional instruction: an opcode
/// whose decoded sequence holds no gate and no power-state operation
/// costs exactly one cycle per micro-operation of its sequence — the
/// first of them falling on the fetch cycle itself — and is not finished
/// any earlier.
pub proof fn lemma_instruction_cycles(s: CpuV)
    requires
        at_fetch(s),
        spec_legal(mread(s, s.pc)),
        mread(s, s.pc) != 0xCB,
        straight_line(spec_decode(mread(s, s.pc)), 0),
    ensures
        ({
            let n = spec_decode(mread(s, s.pc)).len();
            &&& spec_run(s, n) is Some
            &&& spec_run(s, n)->Some_0.cursor == spec_run(s, n)->Some_0.steps.len()
            &&& forall|j: nat|
                0 < j < n ==> #[trigger] spec_run(s, j) is Some && spec_run(s, j)->Some_0.cursor
                    < spec_run(s, j)->Some_0.steps.len()
        }),
{
    reveal_with_fuel(spec_run, 2);
    let op = mread(s, s.pc);
    let stps = spec_decode(op);
    let n = stps.len();
    crate::decode::lemma_decode_nonempty(op);
    lemma_fetch_advances(s);
    let s0 = CpuV { pc: wrap16(s.pc + 1), steps: stps, cursor: 0, ..s };
    let m = s0.steps[0];
    assert(!(m is Cond) && !(m is Halt) && !(m is Stop));
    let s1 = spec_step(s0);
    assert(s1 == spec_exec_micro(CpuV { cursor: 1, ..s0 }, m));
    lemma_micro_frame(CpuV { cursor: 1, ..s0 }, m);
    assert(s1.steps == stps && s1.cursor == 1);
    assert(!s1.halted && !s1.stopped);
    assert(spec_tick_result(s) == Some(s1));
    lemma_straight_line_cycles(s1, (n - 1) as nat);
    assert(spec_run(s, n) == spec_run(s1, (n - 1) as nat));
    assert forall|j: nat| 0 < j < n implies #[trigger] spec_run(s, j) is Some && spec_run(
        s,
        j,
    )->Some_0.cursor < spec_run(s, j)->Some_0.steps.len() by {
        assert(spec_run(s, j) == spec_run(s1, (j - 1) as nat));
    }
}

/// Mid-instruction, one clock cycle is exactly one micro-operation:
/// nothing else is consulted, no interrupt is examined.
pub proof fn lemma_inflight_step(s: CpuV)
    requires
        !s.stopped,
        !s.halted,
        s.cursor < s.steps.len(),
    ensures
        spec_tick_result(s) == Some(spec_step(s)),
{
}

/// A conditional gate that fails its test terminates the instruction
/// immediately: the remaining steps are discarded — skipped, not
/// executed — and nothing else about the machine changes, so the cycles
/// already consumed are the only cycles charged.
pub proof fn lemma_cond_abort(s: CpuV, fl: Flag, pol: bool)
    requires
        0 <= s.cursor < s.steps.len(),
        s.steps[s.cursor] == M::Cond(fl, pol),
        crate::regs::spec_flag(s.regs.f, fl) != pol,
    ensures
        spec_step(s) == (CpuV { cursor: s.steps.len() as int, ..s }),
{
}

/// At an instruction boundary with the master enable set and a request
/// pending, the engine dispatches: it clears the master enable, clears
/// exactly the highest-priority (lowest-bit) request, latches that
/// source's fixed vector, and begins the five-cycle dispatch sequence
/// with the program counter still pointing at the interrupted
/// instruction (it is pushed by the sequence).
pub proof fn lemma_dispatch(s: CpuV)
    requires
        wf(s),
        !s.stopped,
        !s.halted,
        !s.cb_pending,
        s.cursor == s.steps.len(),
        s.ime,
        pending(s) != 0,
    ensures
        spec_tick_result(s) is Some,
        ({
            let v = spec_tick_result(s)->Some_0;
            let i = lowest_pending(pending(s));
            &&& !v.ime
            &&& v.intf == spec_res_bit(s.intf, i)
            &&& v.lsb == 0x40 + 8 * i && v.msb == 0
            &&& v.steps == dispatch_steps() && v.cursor == 1
            &&& v.pc == s.pc
            &&& v.regs == s.regs && v.sp == s.sp
        }),
{
    reveal(crate::cpu::spec_boundary);
}

/// Entering halt with the master enable clear and a request already
/// pending does not halt: it latches the halt bug instead, and changes
/// nothing else.
pub proof fn lemma_halt_bug_entry(s: CpuV)
    requires
        !s.ime,
        pending(s) != 0,
    ensures
        spec_exec_micro(s, M::Halt) == (CpuV { halt_bug: true, ..s }),
{
    reveal(crate::cpu::spec_micro_ctrl);
}

/// A fetch with the halt bug latched decodes the byte at the program
/// counter without advancing it and clears the latch — so the very next
/// fetch reads that same byte again: it is decoded twice.
pub proof fn lemma_halt_bug_fetch(s: CpuV)
    requires
        wf(s),
        !s.stopped,
        !s.halted,
        !s.cb_pending,
        s.halt_bug,
        s.cursor == s.steps.len(),
        !(s.ime && pending(s) != 0),
        spec_legal(mread(s, s.pc)),
        mread(s, s.pc) != 0xCB,
    ensures
        spec_tick_result(s) == Some(
            spec_step(
                CpuV {
                    ime: s.ime || s.ime_pending,
                    ime_pending: false,
                    halt_bug: false,
                    steps: spec_decode(mread(s, s.pc)),
                    cursor: 0,
                    ..s
                },
            ),
        ),
{
    reveal(crate::cpu::spec_boundary);
    crate::decode::lemma_decode_nonempty(mread(s, s.pc));
}

/// A fetch without the latch advances the program counter by one before
/// decoding — the byte under the counter is consumed exactly once.
pub proof fn lemma_fetch_advances(s: CpuV)
    requires
        at_fetch(s),
        spec_legal(mread(s, s.pc)),
        mread(s, s.pc) != 0xCB,
    ensures
        spec_tick_result(s) == Some(
            spec_step(
                CpuV {
                    pc: wrap16(s.pc + 1),
                    steps: spec_decode(mread(s, s.pc)),
                    cursor: 0,
                    ..s
                },
            ),
        ),
{
    reveal(crate::cpu::spec_boundary);
    crate::decode::lemma_decode_nonempty(mread(s, s.pc));
    assert(CpuV { ime: s.ime || s.ime_pending, ime_pending: false, ..s } =~= s);
}

/// Fetching any of the reserved opcode values is the fatal fault, and a
/// faulting cycle performs no state mutation at all: `CPU::tick` is
/// contracted to return the state unchanged exactly when this function
/// yields nothing.
pub proof fn lemma_illegal_faults(s: CpuV)
    requires
        !s.stopped,
        !s.halted,
        !s.cb_pending,
        s.cursor == s.steps.len(),
        !(s.ime && pending(s) != 0),
        !spec_legal(mread(s, s.pc)),
    ensures
        spec_tick_result(s) is None,
{
    reveal(crate::cpu::spec_boundary);
}

} // verus!
