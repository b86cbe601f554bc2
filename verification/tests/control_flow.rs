//! Tests of subroutine linkage, program loading, the fetch-decode-execute
//! loop, faults, and the key-read suspension point.

use chip8_vm::cpu::CPU;
use chip8_vm::isa::Fault;
use chip8_vm::isa::KeyEvent;
use chip8_vm::isa::StepOutcome;

const BUDGET: u64 = 10_000;

#[test]
fn call_pushes_and_ret_restores() {
    let mut cpu = CPU::new();
    cpu.position_in_memory = 0x20;
    assert_eq!(cpu.call(0x100), Ok(()));
    assert_eq!(cpu.position_in_memory, 0x100);
    assert_eq!(cpu.stack_pointer, 1);
    assert_eq!(cpu.stack[0], 0x20);
    assert_eq!(cpu.ret(), Ok(()));
    assert_eq!(cpu.position_in_memory, 0x20);
    assert_eq!(cpu.stack_pointer, 0);
}

#[test]
fn call_ret_restores_at_every_depth_up_to_16() {
    let mut cpu = CPU::new();
    for depth in 0..16 {
        cpu.position_in_memory = depth * 2;
        assert_eq!(cpu.call(0x200), Ok(()));
    }
    assert_eq!(cpu.stack_pointer, 16);
    for depth in (0..16).rev() {
        assert_eq!(cpu.ret(), Ok(()));
        assert_eq!(cpu.position_in_memory, depth * 2);
    }
}

#[test]
fn seventeenth_nested_call_overflows() {
    let mut cpu = CPU::new();
    for _ in 0..16 {
        assert_eq!(cpu.call(0x300), Ok(()));
    }
    let stack_before = cpu.stack;
    assert_eq!(cpu.call(0x300), Err(Fault::StackOverflow));
    assert_eq!(cpu.stack_pointer, 16);
    assert_eq!(cpu.stack, stack_before);
}

#[test]
fn ret_with_empty_stack_underflows() {
    let mut cpu = CPU::new();
    assert_eq!(cpu.ret(), Err(Fault::StackUnderflow));
    assert_eq!(cpu.position_in_memory, 0);
}

#[test]
fn call_then_ret_program_resumes_after_call() {
    // CALL 0x004; HALT; at 0x004: RET.
    let program = [0x20, 0x04, 0x00, 0x00, 0x00, 0xEE];
    let mut cpu = CPU::new();
    assert_eq!(cpu.load_program(&program, 0), Ok(()));
    assert_eq!(cpu.run(BUDGET), Ok(StepOutcome::Halted));
    // The RET came back to offset 2, whose halt sentinel ended the run at 4.
    assert_eq!(cpu.position_in_memory, 4);
    assert_eq!(cpu.stack_pointer, 0);
}

#[test]
fn nested_call_overflow_faults_as_program() {
    // Seventeen CALLs in a row, each to the next instruction.
    let mut program: Vec<u8> = Vec::new();
    for i in 0..17u16 {
        let target = 2 * (i + 1);
        program.push(0x20 | (target >> 8) as u8);
        program.push((target & 0xFF) as u8);
    }
    let mut cpu = CPU::new();
    assert_eq!(cpu.load_program(&program, 0), Ok(()));
    assert_eq!(cpu.run(BUDGET), Err(Fault::StackOverflow));
    assert_eq!(cpu.stack_pointer, 16);
}

#[test]
fn ret_underflow_faults_as_program() {
    let program = [0x00, 0xEE];
    let mut cpu = CPU::new();
    assert_eq!(cpu.load_program(&program, 0), Ok(()));
    assert_eq!(cpu.run(BUDGET), Err(Fault::StackUnderflow));
}

#[test]
fn load_program_rejects_out_of_bounds() {
    let mut cpu = CPU::new();
    let program = [1, 2, 3, 4];
    assert_eq!(cpu.load_program(&program, 4093), Err(Fault::Bounds));
    assert_eq!(cpu.memory[4093], 0); // memory untouched
    assert_eq!(cpu.load_program(&program, 4092), Ok(()));
    assert_eq!(cpu.memory[4092], 1);
    assert_eq!(cpu.memory[4095], 4);
}

#[test]
fn load_program_at_offset_and_jmp() {
    // At 0: JMP 0x100; at 0x100: LD reg[4], 0x2A; HALT.
    let mut cpu = CPU::new();
    assert_eq!(cpu.load_program(&[0x11, 0x00], 0), Ok(()));
    assert_eq!(cpu.load_program(&[0x64, 0x2A, 0x00, 0x00], 0x100), Ok(()));
    assert_eq!(cpu.run(BUDGET), Ok(StepOutcome::Halted));
    assert_eq!(cpu.registers[4], 0x2A);
}

#[test]
fn se_and_sne_steer_the_program() {
    // LD reg[0], 5; SE reg[0], 5 skips the LD reg[1], 1; SNE reg[0], 6
    // skips the LD reg[2], 2; HALT.
    let program = [
        0x60, 0x05, // LD reg[0], 5
        0x30, 0x05, // SE reg[0], 5 -> skip
        0x61, 0x01, // LD reg[1], 1 (skipped)
        0x40, 0x06, // SNE reg[0], 6 -> skip
        0x62, 0x02, // LD reg[2], 2 (skipped)
        0x00, 0x00, // HALT
    ];
    let mut cpu = CPU::new();
    assert_eq!(cpu.load_program(&program, 0), Ok(()));
    assert_eq!(cpu.run(BUDGET), Ok(StepOutcome::Halted));
    assert_eq!(cpu.registers[0], 5);
    assert_eq!(cpu.registers[1], 0);
    assert_eq!(cpu.registers[2], 0);
}

#[test]
fn unknown_opcode_faults_with_raw_value() {
    let program = [0x90, 0x12];
    let mut cpu = CPU::new();
    assert_eq!(cpu.load_program(&program, 0), Ok(()));
    assert_eq!(cpu.run(BUDGET), Err(Fault::UnknownOpcode(0x9012)));
}

#[test]
fn fetch_past_memory_faults_with_bounds() {
    // JMP to the last byte: the two-byte fetch would reach past memory.
    let program = [0x1F, 0xFF];
    let mut cpu = CPU::new();
    assert_eq!(cpu.load_program(&program, 0), Ok(()));
    assert_eq!(cpu.run(BUDGET), Err(Fault::Bounds));
}

#[test]
fn run_with_exhausted_budget_reports_running() {
    // JMP 0: an endless loop; a bounded run must come back.
    let program = [0x10, 0x00];
    let mut cpu = CPU::new();
    assert_eq!(cpu.load_program(&program, 0), Ok(()));
    assert_eq!(cpu.run(100), Ok(StepOutcome::Running));
    assert_eq!(cpu.run(101), Ok(StepOutcome::Running));
}

#[test]
fn halt_sentinel_stops_a_fresh_processor() {
    let mut cpu = CPU::new();
    assert_eq!(cpu.run(BUDGET), Ok(StepOutcome::Halted));
    assert_eq!(cpu.position_in_memory, 2);
}

#[test]
fn key_read_suspends_and_character_resumes() {
    // LD reg[1], 3; LDK; HALT.
    let program = [0x61, 0x03, 0xF0, 0x0A, 0x00, 0x00];
    let mut cpu = CPU::new();
    assert_eq!(cpu.load_program(&program, 0), Ok(()));
    assert_eq!(cpu.run(BUDGET), Ok(StepOutcome::AwaitingKey));
    assert!(cpu.handle_key_event(KeyEvent::Character(b'a')));
    assert_eq!(cpu.registers[0], b'a');
    assert_eq!(cpu.run(BUDGET), Ok(StepOutcome::Halted));
    assert_eq!(cpu.registers[1], 3);
}

#[test]
fn key_read_cancel_leaves_register_zero() {
    let program = [0xF0, 0x0A, 0x00, 0x00];
    let mut cpu = CPU::new();
    assert_eq!(cpu.load_program(&program, 0), Ok(()));
    assert_eq!(cpu.run(BUDGET), Ok(StepOutcome::AwaitingKey));
    assert!(!cpu.handle_key_event(KeyEvent::Ignored)); // keep polling
    assert!(cpu.handle_key_event(KeyEvent::Cancel));
    assert_eq!(cpu.registers[0], 0);
    assert_eq!(cpu.run(BUDGET), Ok(StepOutcome::Halted));
}
