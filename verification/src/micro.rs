//! The micro-operation vocabulary: the smallest schedulable units of an
//! instruction, each consuming exactly one clock cycle.  The decode
//! tables map every opcode to an ordered sequence of these.

use vstd::prelude::*;
use crate::regs::Register;
use crate::regs::Flag;

verus! {

/// A 16-bit address source resolved at execution time.
#[derive(Clone, Copy, PartialEq, Eq, Structural, Debug)]
pub enum Addr {
    /// The `B`/`C` pair.
    BC,
    /// The `D`/`E` pair.
    DE,
    /// The `H`/`L` pair.
    HL,
    /// The 16-bit immediate assembled from the two fetched operand bytes
    /// (low byte first).
    Imm16,
    /// `0xFF00` plus the fetched operand byte (the high I/O page).
    HighImm,
    /// `0xFF00` plus register `C`.
    HighC,
}

/// A 16-bit register pair, or the stack pointer, as the target of a
/// 16-bit increment, decrement or addition.
#[derive(Clone, Copy, PartialEq, Eq, Structural, Debug)]
pub enum Pair {
    BC,
    DE,
    HL,
    SP,
}

/// An eight-way arithmetic/logic operation on the accumulator.
#[derive(Clone, Copy, PartialEq, Eq, Structural, Debug)]
pub enum AluOp {
    Add,
    Adc,
    Sub,
    Sbc,
    And,
    Xor,
    Or,
    Cp,
}

/// The second operand of an accumulator operation.
#[derive(Clone, Copy, PartialEq, Eq, Structural, Debug)]
pub enum Operand {
    Reg(Register),
    /// The byte in memory at the `H`/`L` pair.
    MemHL,
    /// The fetched immediate operand byte.
    Imm,
}

/// The byte pushed by a one-cycle stack push.
#[derive(Clone, Copy, PartialEq, Eq, Structural, Debug)]
pub enum PushSrc {
    Reg(Register),
    /// High byte of the program counter as it stands when the push runs.
    PcHi,
    /// Low byte of the program counter as it stands when the push runs.
    PcLo,
}

/// A shift, rotate or bit operation of the secondary (`0xCB`-prefixed)
/// opcode space.  Bit indices are in `0..8`.
#[derive(Clone, Copy, PartialEq, Eq, Structural, Debug)]
pub enum CbOp {
    Rlc,
    Rrc,
    Rl,
    Rr,
    Sla,
    Sra,
    Swap,
    Srl,
    TestBit(u8),
    ResBit(u8),
    SetBit(u8),
}

/// The target of a secondary-table operation: a register or the byte in
/// memory at the `H`/`L` pair.
#[derive(Clone, Copy, PartialEq, Eq, Structural, Debug)]
pub enum CbTarget {
    Reg(Register),
    MemHL,
}

/// One clock cycle of work inside an instruction.
#[derive(Clone, Copy, PartialEq, Eq, Structural, Debug)]
pub enum MicroInstr {
    /// Internal delay with no externally visible effect.
    Nop,
    /// Fetch the low operand byte at the program counter and advance it.
    ReadLsb,
    /// Fetch the high operand byte at the program counter and advance it.
    ReadMsb,
    /// Load a register from the immediate byte at the program counter,
    /// advancing it.
    LdRN(Register),
    /// Register-to-register transfer (destination first).
    LdRR(Register, Register),
    /// Load a register from memory.
    LdRMem(Register, Addr),
    /// Store a register to memory.
    LdMemR(Addr, Register),
    /// Store the fetched operand byte to memory at the `H`/`L` pair.
    LdHLN,
    /// Load `A` from memory at `H`/`L`, then increment the pair.
    LdAHLInc,
    /// Store `A` to memory at `H`/`L`, then increment the pair.
    LdHLIncA,
    /// Load `A` from memory at `H`/`L`, then decrement the pair.
    LdAHLDec,
    /// Store `A` to memory at `H`/`L`, then decrement the pair.
    LdHLDecA,
    /// Load the stack pointer from the assembled 16-bit immediate.
    LdSpNN,
    /// Load the stack pointer from the `H`/`L` pair.
    LdSpHL,
    /// Load `H`/`L` with the stack pointer plus the signed operand byte,
    /// setting the carry flags from the low-byte addition.
    LdHLSpN,
    /// Store the low byte of the stack pointer at the immediate address.
    LdNNSpLo,
    /// Store the high byte of the stack pointer at the immediate address
    /// plus one.
    LdNNSpHi,
    /// 8-bit register increment (carry flag untouched).
    IncReg(Register),
    /// 8-bit register decrement (carry flag untouched).
    DecReg(Register),
    /// 16-bit increment of a pair or the stack pointer (no flags).
    IncPair(Pair),
    /// 16-bit decrement of a pair or the stack pointer (no flags).
    DecPair(Pair),
    /// Increment the byte in memory at `H`/`L` (carry flag untouched).
    IncMemHL,
    /// Decrement the byte in memory at `H`/`L` (carry flag untouched).
    DecMemHL,
    /// Arithmetic/logic on the accumulator.
    Alu(AluOp, Operand),
    /// 16-bit addition into `H`/`L` (zero flag untouched).
    AddHLPair(Pair),
    /// Add the signed operand byte to the stack pointer.
    AddSpN,
    /// Conditional gate: if the named flag does not match the expected
    /// polarity, the remaining micro-operations of the instruction are
    /// discarded.
    Cond(Flag, bool),
    /// Relative jump by the signed operand byte.
    Jr,
    /// Absolute jump to the assembled 16-bit immediate.
    Jp,
    /// Jump to the address in the `H`/`L` pair.
    JpHL,
    /// Push one byte: decrement the stack pointer, then write.
    Push(PushSrc),
    /// Pop one byte into a register: read, then increment the stack
    /// pointer.
    PopR(Register),
    /// Pop one byte into the low operand latch.
    PopPcLsb,
    /// Pop one byte into the high operand latch.
    PopPcMsb,
    /// Jump to a fixed restart vector.
    Rst(u16),
    /// Return from interrupt: jump to the popped address and enable
    /// interrupts immediately.
    Reti,
    /// Rotate the accumulator left (bit 7 into carry and bit 0).
    Rlca,
    /// Rotate the accumulator left through carry.
    Rla,
    /// Rotate the accumulator right (bit 0 into carry and bit 7).
    Rrca,
    /// Rotate the accumulator right through carry.
    Rra,
    /// Decimal adjust the accumulator after BCD arithmetic.
    Daa,
    /// Complement the accumulator.
    Cpl,
    /// Set the carry flag.
    Scf,
    /// Complement the carry flag.
    Ccf,
    /// Request interrupt enable, delayed by one instruction.
    Ei,
    /// Disable interrupts immediately.
    Di,
    /// Enter the halted power state (or latch the halt bug).
    Halt,
    /// Enter the stopped power state.
    Stop,
    /// A secondary-table shift/rotate/bit operation.
    Cb(CbOp, CbTarget),
}

/// The fatal faults of the core.  Decoding an opcode with no assigned
/// behaviour cannot continue meaningfully, so it is surfaced to the
/// caller and never retried.
#[derive(Clone, Copy, PartialEq, Eq, Structural, Debug)]
pub enum Fault {
    /// The opcode byte has no assigned behaviour.
    IllegalOpcode(u8),
}

} // verus!
