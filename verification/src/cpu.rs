//! The executable processor: register file, memory, program counter and call
//! stack, with one handler per instruction and a fetch-decode-execute step.
//! Every handler is verified against the corresponding effect function of the
//! `isa` model, and the step against `isa::step_model`.

use vstd::prelude::*;

use crate::isa::add_regs;
use crate::isa::and_regs;
use crate::isa::cpu_wf;
use crate::isa::div_regs;
use crate::isa::init_state;
use crate::isa::key_done;
use crate::isa::key_regs;
use crate::isa::lemma_steps_n_snoc;
use crate::isa::mul_regs;
use crate::isa::opcode_at;
use crate::isa::or_regs;
use crate::isa::step_model;
use crate::isa::steps_n;
use crate::isa::sub_regs;
use crate::isa::xor_regs;
use crate::isa::CpuState;
use crate::isa::Fault;
use crate::isa::KeyEvent;
use crate::isa::StepOutcome;

verus! {

/// The processor: 16 eight-bit registers, 4096 bytes of memory, a program
/// counter, and a call stack of 16 return addresses.
#[derive(Debug)]
pub struct CPU {
    /// General-purpose registers; register 0xF doubles as the flag output of
    /// the arithmetic instructions.
    pub registers: [u8; 16],
    /// The program counter: an offset into `memory`.
    pub position_in_memory: usize,
    /// The addressable space, zero-initialized at construction.
    pub memory: [u8; 4096],
    /// Return addresses pushed by CALL.
    pub stack: [u16; 16],
    /// Number of return addresses on the stack, 0 to 16.
    pub stack_pointer: usize,
}

impl View for CPU {
    type V = CpuState;

    open spec fn view(&self) -> CpuState {
        CpuState {
            regs: self.registers@,
            mem: self.memory@,
            pc: self.position_in_memory as int,
            stack: self.stack@,
            sp: self.stack_pointer as int,
        }
    }
}

impl CPU {
    /// A processor with all registers, memory, stack and counters zeroed.
    pub fn new() -> (cpu: CPU)
        ensures
            cpu@ == init_state(),
            cpu_wf(cpu@),
    {
        let cpu = CPU {
            registers: [0; 16],
            memory: [0; 4096],
            position_in_memory: 0,
            stack: [0; 16],
            stack_pointer: 0,
        };
        proof {
            assert(cpu@.regs =~= init_state().regs);
            assert(cpu@.mem =~= init_state().mem);
            assert(cpu@.stack =~= init_state().stack);
            assert(cpu@ =~= init_state());
        }
        cpu
    }

    /// Copies `program` into memory starting at `start_address`. Fails with a
    /// bounds fault, leaving memory untouched, iff the end of the program
    /// would exceed the 4096-byte space.
    pub fn load_program(&mut self, program: &[u8], start_address: usize) -> (r: Result<
        (),
        Fault,
    >)
        ensures
            final(self)@.regs == old(self)@.regs,
            final(self)@.pc == old(self)@.pc,
            final(self)@.stack == old(self)@.stack,
            final(self)@.sp == old(self)@.sp,
            r is Ok <==> start_address + program@.len() <= 4096,
            r is Err ==> r == Err::<(), Fault>(Fault::Bounds) && final(self)@.mem == old(self)@.mem,
            r is Ok ==> forall|j: int|
                0 <= j < program@.len() ==> final(self)@.mem[start_address + j] == program@[j],
            r is Ok ==> forall|j: int|
                0 <= j < 4096 && !(start_address <= j < start_address + program@.len())
                    ==> final(self)@.mem[j] == old(self)@.mem[j],
    {
        if program.len() > 4096 || start_address > 4096 - program.len() {
            return Err(Fault::Bounds);
        }
        let ghost mem0 = self.memory@;
        let ghost snapshot = *self;
        let mut i: usize = 0;
        while i < program.len()
            invariant
                *self == (CPU { memory: self.memory, ..snapshot }),
                i <= program@.len(),
                start_address + program@.len() <= 4096,
                forall|j: int|
                    0 <= j < i ==> self.memory@[start_address + j] == program@[j],
                forall|j: int|
                    0 <= j < 4096 && !(start_address <= j < start_address + i)
                        ==> self.memory@[j] == mem0[j],
            decreases program@.len() - i,
        {
            self.memory[start_address + i] = program[i];
            i = i + 1;
        }
        Ok(())
    }

    /// The big-endian 16-bit opcode at the program counter.
    pub fn read_opcode(&self) -> (op: u16)
        requires
            self@.pc + 1 < 4096,
        ensures
            op == opcode_at(self@.mem, self@.pc),
    {
        let p: usize = self.position_in_memory;
        let op_byte1: u16 = self.memory[p] as u16;
        let op_byte2: u16 = self.memory[p + 1] as u16;
        op_byte1 * 0x100 + op_byte2
    }

    /// ADD: reg[x] := reg[x] + reg[y] modulo 256; reg[0xF] := 1 iff the true
    /// sum exceeds 255, else 0.
    pub fn add_xy(&mut self, x: u8, y: u8)
        requires
            x < 16,
            y < 16,
        ensures
            final(self)@.regs == add_regs(old(self)@.regs, x as int, y as int),
            final(self)@.mem == old(self)@.mem,
            final(self)@.pc == old(self)@.pc,
            final(self)@.stack == old(self)@.stack,
            final(self)@.sp == old(self)@.sp,
    {
        let arg1: u8 = self.registers[x as usize];
        let arg2: u8 = self.registers[y as usize];
        let sum: u16 = arg1 as u16 + arg2 as u16;
        self.registers[x as usize] = (sum % 0x100) as u8;
        if sum > 0xFF {
            self.registers[0xF] = 1;
        } else {
            self.registers[0xF] = 0;
        }
    }

    /// SUB: reg[x] := reg[x] - reg[y] modulo 256; reg[0xF] := 1 iff no borrow
    /// occurred (reg[x] >= reg[y]), else 0 -- the inverted flag convention.
    pub fn sub_xy(&mut self, x: u8, y: u8)
        requires
            x < 16,
            y < 16,
        ensures
            final(self)@.regs == sub_regs(old(self)@.regs, x as int, y as int),
            final(self)@.mem == old(self)@.mem,
            final(self)@.pc == old(self)@.pc,
            final(self)@.stack == old(self)@.stack,
            final(self)@.sp == old(self)@.sp,
    {
        let arg1: u8 = self.registers[x as usize];
        let arg2: u8 = self.registers[y as usize];
        if arg1 >= arg2 {
            self.registers[x as usize] = arg1 - arg2;
            self.registers[0xF] = 1;
        } else {
            self.registers[x as usize] = ((arg1 as u16 + 0x100) - arg2 as u16) as u8;
            self.registers[0xF] = 0;
        }
    }

    /// MUL: reg[x] := reg[x] * reg[y] modulo 256; reg[0xF] := 1 iff the true
    /// product exceeds 255, else 0.
    pub fn mul_xy(&mut self, x: u8, y: u8)
        requires
            x < 16,
            y < 16,
        ensures
            final(self)@.regs == mul_regs(old(self)@.regs, x as int, y as int),
            final(self)@.mem == old(self)@.mem,
            final(self)@.pc == old(self)@.pc,
            final(self)@.stack == old(self)@.stack,
            final(self)@.sp == old(self)@.sp,
    {
        let arg1: u8 = self.registers[x as usize];
        let arg2: u8 = self.registers[y as usize];
        proof {
            assert(arg1 * arg2 <= 255 * 255) by (nonlinear_arith)
                requires
                    arg1 <= 255,
                    arg2 <= 255,
            ;
        }
        let product: u16 = arg1 as u16 * arg2 as u16;
        self.registers[x as usize] = (product % 0x100) as u8;
        if product > 0xFF {
            self.registers[0xF] = 1;
        } else {
            self.registers[0xF] = 0;
        }
    }

    /// DIV: faults on a zero divisor, leaving every register unchanged;
    /// otherwise reg[0xF] := reg[x] mod reg[y], then reg[x] := reg[x] / reg[y].
    pub fn div_xy(&mut self, x: u8, y: u8) -> (r: Result<(), Fault>)
        requires
            x < 16,
            y < 16,
        ensures
            final(self)@.mem == old(self)@.mem,
            final(self)@.pc == old(self)@.pc,
            final(self)@.stack == old(self)@.stack,
            final(self)@.sp == old(self)@.sp,
            old(self)@.regs[y as int] == 0 ==> r == Err::<(), Fault>(Fault::DivideByZero)
                && final(self)@.regs == old(self)@.regs,
            old(self)@.regs[y as int] != 0 ==> r == Ok::<(), Fault>(()) && final(self)@.regs
                == div_regs(old(self)@.regs, x as int, y as int),
    {
        let arg1: u8 = self.registers[x as usize];
        let arg2: u8 = self.registers[y as usize];
        if arg2 == 0 {
            return Err(Fault::DivideByZero);
        }
        self.registers[0xF] = arg1 % arg2;
        self.registers[x as usize] = arg1 / arg2;
        Ok(())
    }

    /// AND: reg[x] := reg[x] & reg[y]; no flag is written.
    pub fn and_xy(&mut self, x: u8, y: u8)
        requires
            x < 16,
            y < 16,
        ensures
            final(self)@.regs == and_regs(old(self)@.regs, x as int, y as int),
            final(self)@.mem == old(self)@.mem,
            final(self)@.pc == old(self)@.pc,
            final(self)@.stack == old(self)@.stack,
            final(self)@.sp == old(self)@.sp,
    {
        let arg1: u8 = self.registers[x as usize];
        let arg2: u8 = self.registers[y as usize];
        self.registers[x as usize] = arg1 & arg2;
    }

    /// OR: reg[x] := reg[x] | reg[y]; no flag is written.
    pub fn or_xy(&mut self, x: u8, y: u8)
        requires
            x < 16,
            y < 16,
        ensures
            final(self)@.regs == or_regs(old(self)@.regs, x as int, y as int),
            final(self)@.mem == old(self)@.mem,
            final(self)@.pc == old(self)@.pc,
            final(self)@.stack == old(self)@.stack,
            final(self)@.sp == old(self)@.sp,
    {
        let arg1: u8 = self.registers[x as usize];
        let arg2: u8 = self.registers[y as usize];
        self.registers[x as usize] = arg1 | arg2;
    }

    /// XOR: reg[x] := reg[x] ^ reg[y]; no flag is written.
    pub fn xor_xy(&mut self, x: u8, y: u8)
        requires
            x < 16,
            y < 16,
        ensures
            final(self)@.regs == xor_regs(old(self)@.regs, x as int, y as int),
            final(self)@.mem == old(self)@.mem,
            final(self)@.pc == old(self)@.pc,
            final(self)@.stack == old(self)@.stack,
            final(self)@.sp == old(self)@.sp,
    {
        let arg1: u8 = self.registers[x as usize];
        let arg2: u8 = self.registers[y as usize];
        self.registers[x as usize] = arg1 ^ arg2;
    }

    /// JMP: the program counter becomes `addr`; nothing else changes.
    pub fn jmp(&mut self, addr: u16)
        ensures
            final(self)@.pc == addr as int,
            final(self)@.regs == old(self)@.regs,
            final(self)@.mem == old(self)@.mem,
            final(self)@.stack == old(self)@.stack,
            final(self)@.sp == old(self)@.sp,
    {
        self.position_in_memory = addr as usize;
    }

    /// CALL: pushes the current program counter (already past the CALL) and
    /// jumps to `addr`. Faults, changing nothing, iff the stack is full.
    pub fn call(&mut self, addr: u16) -> (r: Result<(), Fault>)
        requires
            old(self)@.sp <= 16,
            old(self)@.pc <= u16::MAX,
        ensures
            final(self)@.regs == old(self)@.regs,
            final(self)@.mem == old(self)@.mem,
            old(self)@.sp == 16 ==> r == Err::<(), Fault>(Fault::StackOverflow) && final(self)@.pc == old(self)@.pc && final(self)@.stack == old(self)@.stack && final(self)@.sp
                == old(self)@.sp,
            old(self)@.sp < 16 ==> r == Ok::<(), Fault>(()) && final(self)@.stack == old(self)@.stack.update(old(self)@.sp, old(self)@.pc as u16) && final(self)@.sp == old(self)@.sp + 1 && final(self)@.pc == addr as int,
    {
        let sp: usize = self.stack_pointer;
        if sp >= 16 {
            return Err(Fault::StackOverflow);
        }
        self.stack[sp] = self.position_in_memory as u16;
        self.stack_pointer = sp + 1;
        self.position_in_memory = addr as usize;
        Ok(())
    }

    /// RET: pops the call stack into the program counter. Faults, changing
    /// nothing, iff the stack is empty.
    pub fn ret(&mut self) -> (r: Result<(), Fault>)
        requires
            old(self)@.sp <= 16,
        ensures
            final(self)@.regs == old(self)@.regs,
            final(self)@.mem == old(self)@.mem,
            final(self)@.stack == old(self)@.stack,
            old(self)@.sp == 0 ==> r == Err::<(), Fault>(Fault::StackUnderflow) && final(self)@.pc == old(self)@.pc && final(self)@.sp == old(self)@.sp,
            old(self)@.sp > 0 ==> r == Ok::<(), Fault>(()) && final(self)@.sp == old(self)@.sp
                - 1 && final(self)@.pc == old(self)@.stack[old(self)@.sp - 1] as int,
    {
        if self.stack_pointer == 0 {
            return Err(Fault::StackUnderflow);
        }
        self.stack_pointer = self.stack_pointer - 1;
        let addr: u16 = self.stack[self.stack_pointer];
        self.position_in_memory = addr as usize;
        Ok(())
    }

    /// LD: reg[x] := kk; nothing else changes.
    pub fn ld(&mut self, x: u8, kk: u8)
        requires
            x < 16,
        ensures
            final(self)@.regs == old(self)@.regs.update(x as int, kk),
            final(self)@.mem == old(self)@.mem,
            final(self)@.pc == old(self)@.pc,
            final(self)@.stack == old(self)@.stack,
            final(self)@.sp == old(self)@.sp,
    {
        self.registers[x as usize] = kk;
    }

    /// SE: skips the next instruction (counter += 2) iff reg[x] == kk;
    /// registers are never touched.
    pub fn se(&mut self, x: u8, kk: u8)
        requires
            x < 16,
            old(self)@.pc + 2 <= usize::MAX,
        ensures
            final(self)@.pc == if old(self)@.regs[x as int] == kk {
                old(self)@.pc + 2
            } else {
                old(self)@.pc
            },
            final(self)@.regs == old(self)@.regs,
            final(self)@.mem == old(self)@.mem,
            final(self)@.stack == old(self)@.stack,
            final(self)@.sp == old(self)@.sp,
    {
        if self.registers[x as usize] == kk {
            self.position_in_memory = self.position_in_memory + 2;
        }
    }

    /// SNE: skips the next instruction (counter += 2) iff reg[x] != kk;
    /// registers are never touched.
    pub fn sne(&mut self, x: u8, kk: u8)
        requires
            x < 16,
            old(self)@.pc + 2 <= usize::MAX,
        ensures
            final(self)@.pc == if old(self)@.regs[x as int] != kk {
                old(self)@.pc + 2
            } else {
                old(self)@.pc
            },
            final(self)@.regs == old(self)@.regs,
            final(self)@.mem == old(self)@.mem,
            final(self)@.stack == old(self)@.stack,
            final(self)@.sp == old(self)@.sp,
    {
        if self.registers[x as usize] != kk {
            self.position_in_memory = self.position_in_memory + 2;
        }
    }

    /// One fetch-decode-execute cycle, exactly as `isa::step_model` describes
    /// it: fetch the big-endian opcode at the program counter (a bounds fault
    /// if the fetch would reach past memory), advance the counter by 2,
    /// decompose the opcode into its fields, and dispatch to one handler.
    pub fn step(&mut self) -> (r: Result<StepOutcome, Fault>)
        requires
            cpu_wf(old(self)@),
        ensures
            cpu_wf(final(self)@),
            (final(self)@, r) == step_model(old(self)@),
    {
        if self.position_in_memory >= 4095 {
            return Err(Fault::Bounds);
        }
        let opcode: u16 = self.read_opcode();
        self.position_in_memory = self.position_in_memory + 2;

        let c: u8 = (opcode / 0x1000) as u8;
        let x: u8 = ((opcode / 0x100) % 0x10) as u8;
        let y: u8 = ((opcode / 0x10) % 0x10) as u8;
        let d: u8 = (opcode % 0x10) as u8;

        let nnn: u16 = opcode % 0x1000;
        let kk: u8 = (opcode % 0x100) as u8;

        if opcode == 0 {
            Ok(StepOutcome::Halted)
        } else if opcode == 0x00EE {
            match self.ret() {
                Ok(()) => Ok(StepOutcome::Running),
                Err(f) => Err(f),
            }
        } else if c == 0x1 {
            self.jmp(nnn);
            Ok(StepOutcome::Running)
        } else if c == 0x2 {
            match self.call(nnn) {
                Ok(()) => Ok(StepOutcome::Running),
                Err(f) => Err(f),
            }
        } else if c == 0x3 {
            self.se(x, kk);
            Ok(StepOutcome::Running)
        } else if c == 0x4 {
            self.sne(x, kk);
            Ok(StepOutcome::Running)
        } else if c == 0x6 {
            self.ld(x, kk);
            Ok(StepOutcome::Running)
        } else if c == 0x8 && d == 0x1 {
            self.or_xy(x, y);
            Ok(StepOutcome::Running)
        } else if c == 0x8 && d == 0x2 {
            self.and_xy(x, y);
            Ok(StepOutcome::Running)
        } else if c == 0x8 && d == 0x3 {
            self.xor_xy(x, y);
            Ok(StepOutcome::Running)
        } else if c == 0x8 && d == 0x4 {
            self.add_xy(x, y);
            Ok(StepOutcome::Running)
        } else if c == 0x8 && d == 0x5 {
            self.sub_xy(x, y);
            Ok(StepOutcome::Running)
        } else if c == 0x8 && d == 0xC {
            self.mul_xy(x, y);
            Ok(StepOutcome::Running)
        } else if c == 0x8 && d == 0xD {
            match self.div_xy(x, y) {
                Ok(()) => Ok(StepOutcome::Running),
                Err(f) => Err(f),
            }
        } else if opcode == 0xF00A {
            Ok(StepOutcome::AwaitingKey)
        } else {
            Err(Fault::UnknownOpcode(opcode))
        }
    }

    /// Fetches, decodes and executes instructions until the halt sentinel, a
    /// key-read instruction, a fault, or `budget` exhausted cycles. The
    /// result is `Ok(Running)` exactly when the budget ran out after `budget`
    /// ordinary cycles: the caller re-invokes to keep the machine going.
    /// Otherwise the final state was reached from the starting one by some
    /// number of ordinary cycles followed by the one cycle whose outcome is
    /// the result.
    #[verifier::loop_isolation(false)]
    pub fn run(&mut self, budget: u64) -> (r: Result<StepOutcome, Fault>)
        requires
            cpu_wf(old(self)@),
        ensures
            cpu_wf(final(self)@),
            r == Ok::<StepOutcome, Fault>(StepOutcome::Running) ==> steps_n(
                old(self)@,
                final(self)@,
                budget as nat,
            ),
            r != Ok::<StepOutcome, Fault>(StepOutcome::Running) ==> exists|
                m: CpuState,
                n: nat,
            |
                n < budget && #[trigger] steps_n(old(self)@, m, n) && step_model(m) == (
                    final(self)@,
                    r,
                ),
    {
        let ghost s0: CpuState = self@;
        proof {
            assert(steps_n(s0, self@, 0));
        }
        let mut used: u64 = 0;
        while used < budget
            invariant
                cpu_wf(self@),
                used <= budget,
                steps_n(s0, self@, used as nat),
            decreases budget - used,
        {
            let ghost prev: CpuState = self@;
            let res: Result<StepOutcome, Fault> = self.step();
            match res {
                Ok(StepOutcome::Running) => {
                    used = used + 1;
                    proof {
                        lemma_steps_n_snoc(s0, prev, self@, (used - 1) as nat);
                        assert(steps_n(s0, self@, used as nat));
                    }
                },
                _ => {
                    proof {
                        assert(steps_n(s0, prev, used as nat) && step_model(prev) == (
                            self@,
                            res,
                        ));
                    }
                    return res;
                },
            }
        }
        Ok(StepOutcome::Running)
    }

    /// Delivers one key event to a processor awaiting a key: a character key
    /// stores its code in register 0, the cancel key abandons the read, and
    /// any other event changes nothing and asks the caller to keep polling.
    pub fn handle_key_event(&mut self, ev: KeyEvent) -> (done: bool)
        ensures
            final(self)@.regs == key_regs(old(self)@.regs, ev),
            final(self)@.mem == old(self)@.mem,
            final(self)@.pc == old(self)@.pc,
            final(self)@.stack == old(self)@.stack,
            final(self)@.sp == old(self)@.sp,
            done == key_done(ev),
    {
        match ev {
            KeyEvent::Character(k) => {
                self.registers[0] = k;
                true
            },
            KeyEvent::Cancel => true,
            KeyEvent::Ignored => false,
        }
    }
}

} // verus!
