//! Cycle-stepped emulation core for the 8-bit CPU of the Game Boy handheld.
//!
//! The crate models the opcode decode-and-dispatch engine: a pure decode
//! table from opcode bytes to micro-operation sequences, and an execution
//! engine that steps one micro-operation per clock cycle, mutating
//! registers, flags, the program counter, the stack pointer and the
//! interrupt-enable state.  Every instruction's cycle count, bit-exact
//! flag arithmetic and the documented hardware quirks (delayed interrupt
//! enabling, the halt bug) are stated in contracts and proved.

pub mod regs;
pub mod micro;
pub mod alu;
pub mod decode;
pub mod cpu;
pub mod laws;

pub use cpu::Bus;
pub use cpu::CPU;
pub use micro::Fault;
pub use micro::MicroInstr;
pub use regs::Flag;
pub use regs::Register;
pub use regs::Registers;
