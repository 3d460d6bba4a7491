//! The cycle-stepped engine: per-opcode cycle counts, endianness, the
//! stack round trip, interrupt dispatch and its delay, the halt bug,
//! the power states, fault atomicity, and determinism.

use gb_core::cpu::CPU;
use gb_core::micro::Fault;

/// A machine at the power-on state with a program laid down at the
/// program counter.
fn with_program(bytes: &[u8]) -> CPU {
    let mut cpu = CPU::new();
    let pc = cpu.pc as usize;
    for (i, &b) in bytes.iter().enumerate() {
        cpu.bus.mem[pc + i] = b;
    }
    cpu
}

/// Runs exactly one instruction (prefix included) and returns the cycles
/// it took.
fn one_instruction(cpu: &mut CPU) -> u32 {
    let mut n = 0u32;
    loop {
        cpu.tick().unwrap();
        n += 1;
        if cpu.cursor == cpu.steps.len() && !cpu.cb_pending {
            return n;
        }
    }
}

#[test]
fn documented_cycle_counts() {
    for (program, cycles) in [
        (vec![0x00u8], 1u32),           // NOP
        (vec![0x06, 0x12], 2),          // LD B,n
        (vec![0x21, 0x34, 0x12], 3),    // LD HL,nn
        (vec![0x36, 0x7F], 3),          // LD (HL),n
        (vec![0x34], 3),                // INC (HL)
        (vec![0xC5], 4),                // PUSH BC
        (vec![0xC1], 3),                // POP BC
        (vec![0xCD, 0x00, 0x80], 6),    // CALL nn
        (vec![0xC3, 0x00, 0x80], 4),    // JP nn
        (vec![0x18, 0x02], 3),          // JR i8
        (vec![0xE9], 1),                // JP HL
        (vec![0x08, 0x00, 0xC0], 5),    // LD (nn),SP
        (vec![0xE8, 0x01], 4),          // ADD SP,i8
        (vec![0xE0, 0x80], 3),          // LDH (n),A
        (vec![0xF0, 0x80], 3),          // LDH A,(n)
        (vec![0xCB, 0x00], 2),          // RLC B
        (vec![0xCB, 0x46], 3),          // BIT 0,(HL)
        (vec![0xCB, 0x06], 4),          // RLC (HL)
        (vec![0xC9], 4),                // RET
    ] {
        let mut cpu = with_program(&program);
        assert_eq!(one_instruction(&mut cpu), cycles, "program {:02X?}", program);
    }
}

#[test]
fn conditional_jump_cycle_counts() {
    // JR NZ,i8: 2 cycles when the zero flag is set (not taken), 3 when
    // clear (taken).
    let mut cpu = with_program(&[0x20, 0x03]);
    cpu.regs.f = 0x80;
    assert_eq!(one_instruction(&mut cpu), 2);
    assert_eq!(cpu.pc, 0x0102);

    let mut cpu = with_program(&[0x20, 0x03]);
    cpu.regs.f = 0x00;
    assert_eq!(one_instruction(&mut cpu), 3);
    assert_eq!(cpu.pc, 0x0105);
}

#[test]
fn conditional_call_and_return_cycle_counts() {
    // RET Z: 2 not taken, 5 taken; CALL NZ: 3 not taken, 6 taken.
    let mut cpu = with_program(&[0xC8]);
    cpu.regs.f = 0x00;
    assert_eq!(one_instruction(&mut cpu), 2);
    let mut cpu = with_program(&[0xC8]);
    cpu.regs.f = 0x80;
    assert_eq!(one_instruction(&mut cpu), 5);
    let mut cpu = with_program(&[0xC4, 0x00, 0x80]);
    cpu.regs.f = 0x80;
    assert_eq!(one_instruction(&mut cpu), 3);
    let mut cpu = with_program(&[0xC4, 0x00, 0x80]);
    cpu.regs.f = 0x00;
    assert_eq!(one_instruction(&mut cpu), 6);
    assert_eq!(cpu.pc, 0x8000);
}

#[test]
fn relative_jump_backwards() {
    // The displacement is signed and relative to the byte after the
    // instruction: -2 re-enters the jump itself.
    let mut cpu = with_program(&[0x18, 0xFE]);
    assert_eq!(one_instruction(&mut cpu), 3);
    assert_eq!(cpu.pc, 0x0100);
}

#[test]
fn sixteen_bit_load_is_little_endian() {
    // LD HL,nn with operand bytes 0x34, 0x12 leaves HL = 0x1234.
    let mut cpu = with_program(&[0x21, 0x34, 0x12]);
    cpu.run(3).unwrap();
    assert_eq!(cpu.regs.get_hl(), 0x1234);
    assert_eq!(cpu.regs.h, 0x12);
    assert_eq!(cpu.regs.l, 0x34);
}

#[test]
fn push_pop_restores_the_pair() {
    let mut cpu = with_program(&[0xC5, 0xC1]);
    cpu.regs.b = 0x12;
    cpu.regs.c = 0x34;
    let sp0 = cpu.sp;
    cpu.run(7).unwrap();
    assert_eq!(cpu.regs.b, 0x12);
    assert_eq!(cpu.regs.c, 0x34);
    assert_eq!(cpu.sp, sp0);
    // High byte first on the way down.
    assert_eq!(cpu.bus.mem[(sp0 - 1) as usize], 0x12);
    assert_eq!(cpu.bus.mem[(sp0 - 2) as usize], 0x34);
}

#[test]
fn push_pop_af_keeps_flag_low_nibble_zero() {
    let mut cpu = with_program(&[0xF5, 0xF1]);
    cpu.regs.a = 0x9C;
    cpu.regs.f = 0xB0;
    assert_eq!(cpu.regs.get_af(), 0x9CB0);
    cpu.run(7).unwrap();
    assert_eq!(cpu.regs.a, 0x9C);
    assert_eq!(cpu.regs.f, 0xB0);
    assert_eq!(cpu.regs.get_af(), 0x9CB0);
}

#[test]
fn pop_af_masks_the_low_nibble() {
    let mut cpu = with_program(&[0xF1]);
    cpu.sp = 0xC000;
    cpu.bus.mem[0xC000] = 0xFF;
    cpu.bus.mem[0xC001] = 0x12;
    cpu.run(3).unwrap();
    assert_eq!(cpu.regs.f, 0xF0);
    assert_eq!(cpu.regs.a, 0x12);
    assert_eq!(cpu.sp, 0xC002);
}

#[test]
fn enable_interrupts_is_delayed_one_instruction() {
    // EI; NOP; with a request already pending and enabled: the NOP still
    // runs before dispatch.
    let mut cpu = with_program(&[0xFB, 0x00, 0x00]);
    cpu.bus.intf = 0x01;
    cpu.bus.inte = 0x01;
    cpu.tick().unwrap(); // EI
    assert!(!cpu.ime);
    cpu.tick().unwrap(); // NOP fetched and run; no dispatch
    assert!(cpu.ime);
    assert_eq!(cpu.bus.intf, 0x01);
    assert_eq!(cpu.pc, 0x0102);
    cpu.tick().unwrap(); // dispatch decision cycle
    assert!(!cpu.ime);
    assert_eq!(cpu.bus.intf, 0x00);
    cpu.run(4).unwrap(); // the remaining dispatch cycles
    assert_eq!(cpu.pc, 0x0040);
    // The interrupted program counter was pushed high byte then low.
    assert_eq!(cpu.sp, 0xFFFC);
    assert_eq!(cpu.bus.mem[0xFFFD], 0x01);
    assert_eq!(cpu.bus.mem[0xFFFC], 0x02);
}

#[test]
fn disable_interrupts_is_immediate() {
    // EI; DI; NOP with a pending request: no dispatch happens.
    let mut cpu = with_program(&[0xFB, 0xF3, 0x00, 0x00]);
    cpu.bus.intf = 0x01;
    cpu.bus.inte = 0x01;
    cpu.run(4).unwrap();
    assert!(!cpu.ime);
    assert_eq!(cpu.bus.intf, 0x01);
    assert_eq!(cpu.pc, 0x0104);
}

#[test]
fn dispatch_costs_five_cycles_and_picks_lowest_bit() {
    let mut cpu = with_program(&[0x00, 0x00]);
    cpu.ime = true;
    cpu.bus.intf = 0b10010;
    cpu.bus.inte = 0b11111;
    cpu.run(5).unwrap();
    // Bit 1 has priority over bit 4; its vector is 0x48.
    assert_eq!(cpu.pc, 0x0048);
    assert_eq!(cpu.bus.intf, 0b10000);
    assert!(!cpu.ime);
    assert_eq!(cpu.cursor, cpu.steps.len());
    // The pushed return address is the pre-dispatch counter.
    assert_eq!(cpu.bus.mem[0xFFFD], 0x01);
    assert_eq!(cpu.bus.mem[0xFFFC], 0x00);
}

#[test]
fn reti_returns_and_enables_immediately() {
    let mut cpu = with_program(&[0xD9]);
    cpu.sp = 0xC000;
    cpu.bus.mem[0xC000] = 0x34;
    cpu.bus.mem[0xC001] = 0x12;
    cpu.run(4).unwrap();
    assert_eq!(cpu.pc, 0x1234);
    assert!(cpu.ime);
    assert_eq!(cpu.sp, 0xC002);
}

#[test]
fn halt_waits_for_a_pending_request() {
    let mut cpu = with_program(&[0x76, 0x3C]);
    cpu.tick().unwrap();
    assert!(cpu.halted);
    let pc = cpu.pc;
    for _ in 0..10 {
        cpu.tick().unwrap();
        assert!(cpu.halted);
        assert_eq!(cpu.pc, pc);
    }
    // A pending-and-enabled request with dispatch disabled resumes
    // execution after the halt.
    cpu.bus.intf = 0x04;
    cpu.bus.inte = 0x04;
    cpu.tick().unwrap();
    assert!(!cpu.halted);
    assert_eq!(cpu.regs.a, 0x02); // INC A ran (power-on accumulator 0x01)
    assert_eq!(cpu.pc, 0x0102);
}

#[test]
fn halt_with_enabled_interrupt_dispatches() {
    let mut cpu = with_program(&[0x76, 0x00]);
    cpu.ime = true;
    cpu.tick().unwrap();
    assert!(cpu.halted);
    cpu.bus.intf = 0x01;
    cpu.bus.inte = 0x01;
    cpu.run(5).unwrap();
    assert!(!cpu.halted);
    assert!(!cpu.ime);
    assert_eq!(cpu.pc, 0x0040);
    // The return address is the byte after the halt.
    assert_eq!(cpu.bus.mem[0xFFFD], 0x01);
    assert_eq!(cpu.bus.mem[0xFFFC], 0x01);
}

#[test]
fn halt_bug_decodes_one_byte_twice() {
    // HALT entered with the master enable clear and a request already
    // pending: the byte after it is decoded twice.
    let mut cpu = with_program(&[0x76, 0x3C]);
    cpu.bus.intf = 0x01;
    cpu.bus.inte = 0x01;
    let a0 = cpu.regs.a;
    cpu.tick().unwrap(); // HALT: latches the bug, does not halt
    assert!(!cpu.halted);
    assert!(cpu.halt_bug);
    cpu.tick().unwrap(); // INC A, fetched without advancing the counter
    assert_eq!(cpu.pc, 0x0101);
    assert_eq!(cpu.regs.a, a0.wrapping_add(1));
    cpu.tick().unwrap(); // the same INC A again
    assert_eq!(cpu.pc, 0x0102);
    assert_eq!(cpu.regs.a, a0.wrapping_add(2));
}

#[test]
fn stop_suspends_until_wake() {
    let mut cpu = with_program(&[0x10, 0x3C]);
    cpu.tick().unwrap();
    assert!(cpu.stopped);
    let a0 = cpu.regs.a;
    for _ in 0..5 {
        cpu.tick().unwrap();
        assert!(cpu.stopped);
        assert_eq!(cpu.regs.a, a0);
    }
    cpu.wake();
    assert!(!cpu.stopped);
    cpu.run(1).unwrap();
    assert_eq!(cpu.regs.a, a0.wrapping_add(1));
}

#[test]
fn illegal_opcode_faults_without_mutation() {
    let mut cpu = with_program(&[0xD3]);
    let regs0 = cpu.regs;
    let pc0 = cpu.pc;
    let sp0 = cpu.sp;
    let r = cpu.tick();
    assert_eq!(r, Err(Fault::IllegalOpcode(0xD3)));
    assert_eq!(cpu.regs, regs0);
    assert_eq!(cpu.pc, pc0);
    assert_eq!(cpu.sp, sp0);
    assert!(!cpu.halted && !cpu.stopped);
    // A longer run stops at the fault.
    assert_eq!(cpu.run(10), Err(Fault::IllegalOpcode(0xD3)));
    assert_eq!(cpu.pc, pc0);
}

#[test]
fn execution_is_deterministic() {
    // A busy little program: arithmetic, a loop, stack traffic.
    let mut cpu = with_program(&[
        0x3C, // INC A
        0xC5, // PUSH BC
        0x03, // INC BC
        0xC1, // POP BC
        0x18, 0xFA, // JR back to the start
    ]);
    cpu.bus.intf = 0x01;
    cpu.bus.inte = 0x00;
    let mut twin = cpu.clone();
    cpu.run(200).unwrap();
    twin.run(200).unwrap();
    assert_eq!(cpu.regs, twin.regs);
    assert_eq!(cpu.pc, twin.pc);
    assert_eq!(cpu.sp, twin.sp);
    assert_eq!(cpu.ime, twin.ime);
    assert_eq!(cpu.halted, twin.halted);
    assert_eq!(cpu.cursor, twin.cursor);
    assert_eq!(cpu.steps, twin.steps);
    assert_eq!(cpu.bus.mem, twin.bus.mem);
    assert_eq!(cpu.bus.intf, twin.bus.intf);
}

#[test]
fn memory_loads_with_auto_increment_and_decrement() {
    // LD (HL+),A then LD A,(HL-): the pair moves each time.
    let mut cpu = with_program(&[0x22, 0x3A]);
    cpu.regs.a = 0x77;
    cpu.regs.h = 0xC0;
    cpu.regs.l = 0x00;
    cpu.run(2).unwrap();
    assert_eq!(cpu.bus.mem[0xC000], 0x77);
    assert_eq!(cpu.regs.get_hl(), 0xC001);
    cpu.bus.mem[0xC001] = 0x5A;
    cpu.run(2).unwrap();
    assert_eq!(cpu.regs.a, 0x5A);
    assert_eq!(cpu.regs.get_hl(), 0xC000);
}

#[test]
fn high_page_loads_use_register_c() {
    let mut cpu = with_program(&[0xE2, 0xF2]);
    cpu.regs.a = 0x66;
    cpu.regs.c = 0x80;
    cpu.run(2).unwrap();
    assert_eq!(cpu.bus.mem[0xFF80], 0x66);
    cpu.bus.mem[0xFF80] = 0x42;
    cpu.run(2).unwrap();
    assert_eq!(cpu.regs.a, 0x42);
}

#[test]
fn load_hl_sp_displacement_flags() {
    let mut cpu = with_program(&[0xF8, 0x08]);
    cpu.sp = 0xFFF8;
    cpu.run(3).unwrap();
    assert_eq!(cpu.regs.get_hl(), 0x0000);
    assert_eq!(cpu.regs.f, 0x30);
    assert_eq!(cpu.sp, 0xFFF8);
}

#[test]
fn bcd_adjust_in_a_program() {
    // LD A,0x15; ADD A,0x27; DAA leaves 0x42.
    let mut cpu = with_program(&[0x3E, 0x15, 0xC6, 0x27, 0x27]);
    cpu.run(5).unwrap();
    assert_eq!(cpu.regs.a, 0x42);
    assert_eq!(cpu.regs.f & 0x10, 0);
}

#[test]
fn secondary_table_operations_run() {
    // RLC B; BIT 7,A; SET 3,(HL); SWAP A.
    let mut cpu = with_program(&[0xCB, 0x00, 0xCB, 0x7F, 0xCB, 0xDE, 0xCB, 0x37]);
    cpu.regs.b = 0x80;
    cpu.regs.a = 0x80;
    cpu.regs.h = 0xC0;
    cpu.regs.l = 0x00;
    cpu.run(2).unwrap();
    assert_eq!(cpu.regs.b, 0x01);
    assert_eq!(cpu.regs.f, 0x10);
    cpu.run(2).unwrap();
    // Bit 7 of A is set: Z clear, N clear, H set, C kept.
    assert_eq!(cpu.regs.f, 0x20 | 0x10);
    cpu.run(4).unwrap();
    assert_eq!(cpu.bus.mem[0xC000], 0x08);
    cpu.run(2).unwrap();
    assert_eq!(cpu.regs.a, 0x08);
}

#[test]
fn stack_pointer_wraps_modulo_sixty_four_k() {
    // Pushing with the stack pointer at zero wraps to the top of the
    // address space; this is not a fault.
    let mut cpu = with_program(&[0xC5]);
    cpu.sp = 0x0001;
    cpu.regs.b = 0xAA;
    cpu.regs.c = 0xBB;
    cpu.run(4).unwrap();
    assert_eq!(cpu.sp, 0xFFFF);
    assert_eq!(cpu.bus.mem[0x0000], 0xAA);
    assert_eq!(cpu.bus.mem[0xFFFF], 0xBB);
}

#[test]
fn reset_restores_power_on_registers() {
    let mut cpu = with_program(&[0x3C, 0x04]);
    cpu.run(2).unwrap();
    cpu.bus.mem[0xC123] = 0x55;
    cpu.reset();
    assert_eq!(cpu.pc, 0x0100);
    assert_eq!(cpu.sp, 0xFFFE);
    assert_eq!(cpu.regs.a, 0x01);
    assert_eq!(cpu.regs.f, 0xB0);
    assert!(!cpu.ime && !cpu.halted && !cpu.stopped);
    // The bus belongs to the surrounding system and is kept.
    assert_eq!(cpu.bus.mem[0xC123], 0x55);
}

#[test]
fn call_pushes_the_return_address() {
    let mut cpu = with_program(&[0xCD, 0x00, 0x80]);
    cpu.run(6).unwrap();
    assert_eq!(cpu.pc, 0x8000);
    assert_eq!(cpu.sp, 0xFFFC);
    // The return address 0x0103, high byte first.
    assert_eq!(cpu.bus.mem[0xFFFD], 0x01);
    assert_eq!(cpu.bus.mem[0xFFFC], 0x03);
}
