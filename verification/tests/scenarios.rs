//! End-to-end scenarios: whole programs run to their halt or fault.

use chip8_vm::cpu::CPU;
use chip8_vm::isa::Fault;
use chip8_vm::isa::StepOutcome;

const BUDGET: u64 = 10_000;

#[test]
fn arithmetic_chain_runs_to_halt() {
    // LD reg[0], 5; LD reg[1], 10; SUB -> 251 with flag 0; ADD -> 5 with
    // flag 0; AND 5 & 10 = 0; HALT.
    let program = [
        0x60, 0x05, // LD reg[0], 5
        0x61, 0x0A, // LD reg[1], 10
        0x80, 0x15, // SUB reg[0], reg[1]
        0x80, 0x14, // ADD reg[0], reg[1]
        0x80, 0x12, // AND reg[0], reg[1]
        0x00, 0x00, // HALT
    ];
    let mut cpu = CPU::new();
    assert_eq!(cpu.load_program(&program, 0), Ok(()));
    assert_eq!(cpu.run(BUDGET), Ok(StepOutcome::Halted));
    assert_eq!(cpu.registers[0], 0);
    assert_eq!(cpu.registers[1], 10);
}

#[test]
fn division_by_zero_is_a_typed_fault() {
    // LD reg[0], 5; LD reg[1], 0; DIV reg[0], reg[1]; HALT.
    let program = [
        0x60, 0x05, // LD reg[0], 5
        0x61, 0x00, // LD reg[1], 0
        0x80, 0x1D, // DIV reg[0], reg[1]
        0x00, 0x00, // HALT
    ];
    let mut cpu = CPU::new();
    assert_eq!(cpu.load_program(&program, 0), Ok(()));
    assert_eq!(cpu.run(BUDGET), Err(Fault::DivideByZero));
    // The fault left the registers as they were before the DIV.
    assert_eq!(cpu.registers[0], 5);
    assert_eq!(cpu.registers[1], 0);
}

#[test]
fn multiply_then_divide_restores_value() {
    // LD reg[0], 5; LD reg[1], 10; MUL -> 50; DIV -> 5 remainder 0; HALT.
    let program = [
        0x60, 0x05, // LD reg[0], 5
        0x61, 0x0A, // LD reg[1], 10
        0x80, 0x1C, // MUL reg[0], reg[1]
        0x80, 0x1D, // DIV reg[0], reg[1]
        0x00, 0x00, // HALT
    ];
    let mut cpu = CPU::new();
    assert_eq!(cpu.load_program(&program, 0), Ok(()));
    assert_eq!(cpu.run(BUDGET), Ok(StepOutcome::Halted));
    assert_eq!(cpu.registers[0], 5);
    assert_eq!(cpu.registers[0xF], 0);
}
