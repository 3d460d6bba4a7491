//! The decode tables: legality, the reserved values, per-opcode
//! sequence lengths, and the corrected self-transfer entry.

use gb_core::cpu::CPU;
use gb_core::micro::{Addr, AluOp, CbOp, CbTarget, Fault, MicroInstr, Operand, PushSrc};
use gb_core::regs::Register;

const ILLEGAL: [u8; 11] = [
    0xD3, 0xDB, 0xDD, 0xE3, 0xE4, 0xEB, 0xEC, 0xED, 0xF4, 0xFC, 0xFD,
];

#[test]
fn reserved_opcodes_fault() {
    let cpu = CPU::new();
    for &op in ILLEGAL.iter() {
        assert_eq!(cpu.decode_instr(op), Err(Fault::IllegalOpcode(op)));
    }
}

#[test]
fn every_other_opcode_decodes() {
    let cpu = CPU::new();
    for op in 0..=255u8 {
        if ILLEGAL.contains(&op) {
            continue;
        }
        let steps = cpu.decode_instr(op).unwrap();
        if op == 0xCB {
            assert!(steps.is_empty());
        } else {
            assert!(!steps.is_empty());
            assert!(steps.len() <= 6);
        }
    }
}

#[test]
fn load_immediate_sequences() {
    let cpu = CPU::new();
    assert_eq!(
        cpu.decode_instr(0x26).unwrap(),
        vec![MicroInstr::Nop, MicroInstr::LdRN(Register::H)]
    );
    assert_eq!(
        cpu.decode_instr(0x21).unwrap(),
        vec![
            MicroInstr::Nop,
            MicroInstr::LdRN(Register::L),
            MicroInstr::LdRN(Register::H)
        ]
    );
    assert_eq!(
        cpu.decode_instr(0x31).unwrap(),
        vec![MicroInstr::ReadLsb, MicroInstr::ReadMsb, MicroInstr::LdSpNN]
    );
}

#[test]
fn accumulator_self_transfer_names_the_accumulator() {
    // The architecturally correct LD A,A: a transfer from A to A.
    let cpu = CPU::new();
    assert_eq!(
        cpu.decode_instr(0x7F).unwrap(),
        vec![MicroInstr::LdRR(Register::A, Register::A)]
    );
}

#[test]
fn load_block_row_and_column_six_use_memory() {
    let cpu = CPU::new();
    assert_eq!(
        cpu.decode_instr(0x70).unwrap(),
        vec![MicroInstr::Nop, MicroInstr::LdMemR(Addr::HL, Register::B)]
    );
    assert_eq!(
        cpu.decode_instr(0x7E).unwrap(),
        vec![MicroInstr::Nop, MicroInstr::LdRMem(Register::A, Addr::HL)]
    );
    assert_eq!(cpu.decode_instr(0x76).unwrap(), vec![MicroInstr::Halt]);
}

#[test]
fn arithmetic_block_order() {
    let cpu = CPU::new();
    assert_eq!(
        cpu.decode_instr(0x80).unwrap(),
        vec![MicroInstr::Alu(AluOp::Add, Operand::Reg(Register::B))]
    );
    assert_eq!(
        cpu.decode_instr(0x9F).unwrap(),
        vec![MicroInstr::Alu(AluOp::Sbc, Operand::Reg(Register::A))]
    );
    assert_eq!(
        cpu.decode_instr(0xB6).unwrap(),
        vec![MicroInstr::Nop, MicroInstr::Alu(AluOp::Or, Operand::MemHL)]
    );
    assert_eq!(
        cpu.decode_instr(0xFE).unwrap(),
        vec![MicroInstr::ReadLsb, MicroInstr::Alu(AluOp::Cp, Operand::Imm)]
    );
}

#[test]
fn restart_vectors_follow_the_opcode() {
    let cpu = CPU::new();
    for (op, vector) in [
        (0xC7u8, 0x00u16),
        (0xCF, 0x08),
        (0xD7, 0x10),
        (0xDF, 0x18),
        (0xE7, 0x20),
        (0xEF, 0x28),
        (0xF7, 0x30),
        (0xFF, 0x38),
    ] {
        assert_eq!(
            cpu.decode_instr(op).unwrap(),
            vec![
                MicroInstr::Nop,
                MicroInstr::Push(PushSrc::PcHi),
                MicroInstr::Push(PushSrc::PcLo),
                MicroInstr::Rst(vector)
            ]
        );
    }
}

#[test]
fn push_orders_high_byte_first() {
    let cpu = CPU::new();
    assert_eq!(
        cpu.decode_instr(0xF5).unwrap(),
        vec![
            MicroInstr::Nop,
            MicroInstr::Nop,
            MicroInstr::Push(PushSrc::Reg(Register::A)),
            MicroInstr::Push(PushSrc::Reg(Register::F))
        ]
    );
    assert_eq!(
        cpu.decode_instr(0xF1).unwrap(),
        vec![
            MicroInstr::Nop,
            MicroInstr::PopR(Register::F),
            MicroInstr::PopR(Register::A)
        ]
    );
}

#[test]
fn secondary_table_is_fully_regular() {
    let cpu = CPU::new();
    assert_eq!(
        cpu.decode_cb_instr(0x00),
        vec![MicroInstr::Cb(CbOp::Rlc, CbTarget::Reg(Register::B))]
    );
    assert_eq!(
        cpu.decode_cb_instr(0x37),
        vec![MicroInstr::Cb(CbOp::Swap, CbTarget::Reg(Register::A))]
    );
    assert_eq!(
        cpu.decode_cb_instr(0x7F),
        vec![MicroInstr::Cb(CbOp::TestBit(7), CbTarget::Reg(Register::A))]
    );
    // Bit test on the memory operand: one extra cycle.
    assert_eq!(
        cpu.decode_cb_instr(0x46),
        vec![
            MicroInstr::Nop,
            MicroInstr::Cb(CbOp::TestBit(0), CbTarget::MemHL)
        ]
    );
    // Read-modify-write on the memory operand: two extra cycles.
    assert_eq!(
        cpu.decode_cb_instr(0x06),
        vec![
            MicroInstr::Nop,
            MicroInstr::Nop,
            MicroInstr::Cb(CbOp::Rlc, CbTarget::MemHL)
        ]
    );
    assert_eq!(
        cpu.decode_cb_instr(0xDE),
        vec![
            MicroInstr::Nop,
            MicroInstr::Nop,
            MicroInstr::Cb(CbOp::SetBit(3), CbTarget::MemHL)
        ]
    );
    for op in 0..=255u8 {
        let steps = cpu.decode_cb_instr(op);
        assert!(!steps.is_empty() && steps.len() <= 3);
    }
}

#[test]
fn decoding_reads_no_state() {
    // Decoding is a pure function of the opcode byte: two machines in
    // different states decode identically.
    let a = CPU::new();
    let mut b = CPU::new();
    b.regs.a = 0x99;
    b.pc = 0x4321;
    b.bus.mem[0x4321] = 0x55;
    for op in 0..=255u8 {
        assert_eq!(a.decode_instr(op), b.decode_instr(op));
    }
}
