//! The instruction-set model: opcode field decomposition, the effect of each
//! instruction on the register file, and the mathematical transition function
//! of the whole processor (`step_model`). The executable engine in `cpu` is
//! verified against these definitions.

use vstd::prelude::*;

verus! {

/// A fault that ends a run. Every fault is a typed value returned to the
/// caller; none aborts the process.
#[derive(Clone, Copy, Debug, PartialEq, Eq, Structural)]
pub enum Fault {
    /// A memory access past the 4096-byte space: a program load whose end
    /// exceeds memory, or an opcode fetch at the last byte or beyond.
    Bounds,
    /// CALL with a full call stack (16 return addresses already pushed).
    StackOverflow,
    /// RET with an empty call stack.
    StackUnderflow,
    /// DIV with a zero divisor.
    DivideByZero,
    /// An opcode matching no table entry; carries the raw opcode.
    UnknownOpcode(u16),
}

/// What one executed instruction asks of the loop driving the processor.
#[derive(Clone, Copy, Debug, PartialEq, Eq, Structural)]
pub enum StepOutcome {
    /// Keep fetching: an ordinary instruction was executed.
    Running,
    /// The halt sentinel (opcode 0x0000) was executed.
    Halted,
    /// LDK was executed: the processor waits for one key event.
    AwaitingKey,
}

/// A key event delivered to a processor that awaits a key.
#[derive(Clone, Copy, Debug, PartialEq, Eq, Structural)]
pub enum KeyEvent {
    /// A character key, as its code point truncated to 8 bits.
    Character(u8),
    /// The explicit cancel key: the read is abandoned, register 0 unchanged.
    Cancel,
    /// Any other event: no state change, the wait continues.
    Ignored,
}

/// The mathematical state of the processor.
#[verifier::ext_equal]
pub ghost struct CpuState {
    /// The 16 general-purpose registers.
    pub regs: Seq<u8>,
    /// The 4096 bytes of memory.
    pub mem: Seq<u8>,
    /// The program counter: an offset into memory.
    pub pc: int,
    /// The 16 call-stack slots.
    pub stack: Seq<u16>,
    /// The stack pointer: the number of return addresses pushed.
    pub sp: int,
}

/// Well-formedness of a processor state.
pub open spec fn cpu_wf(s: CpuState) -> bool {
    &&& s.regs.len() == 16
    &&& s.mem.len() == 4096
    &&& s.stack.len() == 16
    &&& 0 <= s.sp <= 16
    &&& 0 <= s.pc
}

/// The state a freshly constructed processor is in: everything zero.
pub open spec fn init_state() -> CpuState {
    CpuState {
        regs: Seq::new(16, |i: int| 0u8),
        mem: Seq::new(4096, |i: int| 0u8),
        pc: 0,
        stack: Seq::new(16, |i: int| 0u16),
        sp: 0,
    }
}

/// Opcode field `c`: bits 15-12, the operation class.
pub open spec fn op_c(op: u16) -> int {
    (op / 0x1000) as int
}

/// Opcode field `x`: bits 11-8, a register index.
pub open spec fn op_x(op: u16) -> int {
    ((op / 0x100) % 0x10) as int
}

/// Opcode field `y`: bits 7-4, a register index.
pub open spec fn op_y(op: u16) -> int {
    ((op / 0x10) % 0x10) as int
}

/// Opcode field `d`: bits 3-0, the operation selector within a class.
pub open spec fn op_d(op: u16) -> int {
    (op % 0x10) as int
}

/// Opcode field `nnn`: bits 11-0, a 12-bit address.
pub open spec fn op_nnn(op: u16) -> int {
    (op % 0x1000) as int
}

/// Opcode field `kk`: bits 7-0, an 8-bit immediate.
pub open spec fn op_kk(op: u16) -> u8 {
    (op % 0x100) as u8
}

/// The 16-bit opcode assembled big-endian from two consecutive memory bytes.
pub open spec fn opcode_at(mem: Seq<u8>, pc: int) -> u16
    recommends
        0 <= pc,
        pc + 1 < mem.len(),
{
    (mem[pc] * 0x100 + mem[pc + 1]) as u16
}

/// The flag value written to register 0xF: 1 for a true condition, else 0.
pub open spec fn flag_of(b: bool) -> u8 {
    if b {
        1u8
    } else {
        0u8
    }
}

/// Effect of ADD on the register file: reg[x] := (reg[x] + reg[y]) mod 256,
/// then reg[0xF] := 1 iff the sum exceeded 255.
pub open spec fn add_regs(regs: Seq<u8>, x: int, y: int) -> Seq<u8>
    recommends
        regs.len() == 16,
        0 <= x < 16,
        0 <= y < 16,
{
    let a = regs[x];
    let b = regs[y];
    regs.update(x, ((a + b) % 0x100) as u8).update(0xF, flag_of(a + b > 0xFF))
}

/// Effect of SUB: reg[x] := (reg[x] - reg[y]) mod 256, then reg[0xF] := 1 iff
/// no borrow occurred (reg[x] >= reg[y]) -- the inverted flag convention.
pub open spec fn sub_regs(regs: Seq<u8>, x: int, y: int) -> Seq<u8>
    recommends
        regs.len() == 16,
        0 <= x < 16,
        0 <= y < 16,
{
    let a = regs[x];
    let b = regs[y];
    regs.update(x, (if a >= b { a - b } else { a + 0x100 - b }) as u8).update(
        0xF,
        flag_of(a >= b),
    )
}

/// Effect of MUL: reg[x] := (reg[x] * reg[y]) mod 256, then reg[0xF] := 1 iff
/// the product exceeded 255.
pub open spec fn mul_regs(regs: Seq<u8>, x: int, y: int) -> Seq<u8>
    recommends
        regs.len() == 16,
        0 <= x < 16,
        0 <= y < 16,
{
    let a = regs[x];
    let b = regs[y];
    regs.update(x, ((a * b) % 0x100) as u8).update(0xF, flag_of(a * b > 0xFF))
}

/// Effect of DIV (divisor nonzero): reg[0xF] := reg[x] mod reg[y] first, then
/// reg[x] := reg[x] / reg[y] -- so with x = 0xF the quotient wins.
pub open spec fn div_regs(regs: Seq<u8>, x: int, y: int) -> Seq<u8>
    recommends
        regs.len() == 16,
        0 <= x < 16,
        0 <= y < 16,
        regs[y] != 0,
{
    let a = regs[x];
    let b = regs[y];
    regs.update(0xF, (a % b) as u8).update(x, (a / b) as u8)
}

/// Effect of OR: reg[x] := reg[x] | reg[y].
pub open spec fn or_regs(regs: Seq<u8>, x: int, y: int) -> Seq<u8>
    recommends
        regs.len() == 16,
        0 <= x < 16,
        0 <= y < 16,
{
    regs.update(x, regs[x] | regs[y])
}

/// Effect of AND: reg[x] := reg[x] & reg[y].
pub open spec fn and_regs(regs: Seq<u8>, x: int, y: int) -> Seq<u8>
    recommends
        regs.len() == 16,
        0 <= x < 16,
        0 <= y < 16,
{
    regs.update(x, regs[x] & regs[y])
}

/// Effect of XOR: reg[x] := reg[x] ^ reg[y].
pub open spec fn xor_regs(regs: Seq<u8>, x: int, y: int) -> Seq<u8>
    recommends
        regs.len() == 16,
        0 <= x < 16,
        0 <= y < 16,
{
    regs.update(x, regs[x] ^ regs[y])
}

/// Effect of CALL on a state whose program counter has already been advanced
/// past the CALL: push that counter and jump to `nnn`, or fault when the
/// stack is full (strict check: the pointer must be below capacity).
pub open spec fn call_model(s: CpuState, nnn: int) -> (CpuState, Result<StepOutcome, Fault>)
    recommends
        cpu_wf(s),
        0 <= s.pc <= u16::MAX,
{
    if s.sp >= 16 {
        (s, Err(Fault::StackOverflow))
    } else {
        (
            CpuState {
                stack: s.stack.update(s.sp, s.pc as u16),
                sp: s.sp + 1,
                pc: nnn,
                ..s
            },
            Ok(StepOutcome::Running),
        )
    }
}

/// Effect of RET: pop the call stack into the program counter, or fault when
/// the stack is empty.
pub open spec fn ret_model(s: CpuState) -> (CpuState, Result<StepOutcome, Fault>)
    recommends
        cpu_wf(s),
{
    if s.sp <= 0 {
        (s, Err(Fault::StackUnderflow))
    } else {
        (
            CpuState { sp: s.sp - 1, pc: s.stack[s.sp - 1] as int, ..s },
            Ok(StepOutcome::Running),
        )
    }
}

/// Dispatch of one already-fetched opcode `op` on a state `t` whose program
/// counter has been advanced past it.
pub open spec fn step_decoded(t: CpuState, op: u16) -> (CpuState, Result<StepOutcome, Fault>)
    recommends
        cpu_wf(t),
        0 <= t.pc <= u16::MAX,
{
    let c = op_c(op);
    let x = op_x(op);
    let y = op_y(op);
    let d = op_d(op);
    let nnn = op_nnn(op);
    let kk = op_kk(op);
    if op == 0 {
        (t, Ok(StepOutcome::Halted))
    } else if op == 0x00EE {
        ret_model(t)
    } else if c == 0x1 {
        (CpuState { pc: nnn, ..t }, Ok(StepOutcome::Running))
    } else if c == 0x2 {
        call_model(t, nnn)
    } else if c == 0x3 {
        (
            CpuState { pc: if t.regs[x] == kk { t.pc + 2 } else { t.pc }, ..t },
            Ok(StepOutcome::Running),
        )
    } else if c == 0x4 {
        (
            CpuState { pc: if t.regs[x] != kk { t.pc + 2 } else { t.pc }, ..t },
            Ok(StepOutcome::Running),
        )
    } else if c == 0x6 {
        (CpuState { regs: t.regs.update(x, kk), ..t }, Ok(StepOutcome::Running))
    } else if c == 0x8 && d == 0x1 {
        (CpuState { regs: or_regs(t.regs, x, y), ..t }, Ok(StepOutcome::Running))
    } else if c == 0x8 && d == 0x2 {
        (CpuState { regs: and_regs(t.regs, x, y), ..t }, Ok(StepOutcome::Running))
    } else if c == 0x8 && d == 0x3 {
        (CpuState { regs: xor_regs(t.regs, x, y), ..t }, Ok(StepOutcome::Running))
    } else if c == 0x8 && d == 0x4 {
        (CpuState { regs: add_regs(t.regs, x, y), ..t }, Ok(StepOutcome::Running))
    } else if c == 0x8 && d == 0x5 {
        (CpuState { regs: sub_regs(t.regs, x, y), ..t }, Ok(StepOutcome::Running))
    } else if c == 0x8 && d == 0xC {
        (CpuState { regs: mul_regs(t.regs, x, y), ..t }, Ok(StepOutcome::Running))
    } else if c == 0x8 && d == 0xD {
        if t.regs[y] == 0 {
            (t, Err(Fault::DivideByZero))
        } else {
            (CpuState { regs: div_regs(t.regs, x, y), ..t }, Ok(StepOutcome::Running))
        }
    } else if op == 0xF00A {
        (t, Ok(StepOutcome::AwaitingKey))
    } else {
        (t, Err(Fault::UnknownOpcode(op)))
    }
}

/// One full fetch-decode-execute cycle: fault when the fetch would reach past
/// memory, otherwise fetch the opcode, advance the counter by 2, dispatch.
pub open spec fn step_model(s: CpuState) -> (CpuState, Result<StepOutcome, Fault>)
    recommends
        cpu_wf(s),
{
    if s.pc + 1 >= 4096 {
        (s, Err(Fault::Bounds))
    } else {
        step_decoded(CpuState { pc: s.pc + 2, ..s }, opcode_at(s.mem, s.pc))
    }
}

/// Effect of a key event on the register file: a character key stores its
/// code in register 0; cancel and ignored events change nothing.
pub open spec fn key_regs(regs: Seq<u8>, ev: KeyEvent) -> Seq<u8>
    recommends
        regs.len() == 16,
{
    match ev {
        KeyEvent::Character(k) => regs.update(0, k),
        KeyEvent::Cancel => regs,
        KeyEvent::Ignored => regs,
    }
}

/// Whether a key event finishes the wait: character and cancel do, any other
/// event leaves the processor polling.
pub open spec fn key_done(ev: KeyEvent) -> bool {
    !(ev is Ignored)
}

/// `s1` is reached from `s0` by exactly `n` cycles, each of which ran an
/// ordinary instruction (outcome `Running`).
pub open spec fn steps_n(s0: CpuState, s1: CpuState, n: nat) -> bool
    decreases n,
{
    if n == 0 {
        s0 == s1
    } else {
        step_model(s0).1 == Ok::<StepOutcome, Fault>(StepOutcome::Running) && steps_n(
            step_model(s0).0,
            s1,
            (n - 1) as nat,
        )
    }
}

/// Appending one ordinary cycle to a chain of `n` cycles gives a chain of
/// `n + 1` cycles.
pub proof fn lemma_steps_n_snoc(s0: CpuState, m: CpuState, s1: CpuState, n: nat)
    requires
        steps_n(s0, m, n),
        step_model(m) == (s1, Ok::<StepOutcome, Fault>(StepOutcome::Running)),
    ensures
        steps_n(s0, s1, n + 1),
    decreases n,
{
    let k: nat = (n + 1) as nat;
    if n == 0 {
        assert(steps_n(s1, s1, 0));
        assert(steps_n(s0, s1, k));
    } else {
        lemma_steps_n_snoc(step_model(s0).0, m, s1, (n - 1) as nat);
        assert((k - 1) as nat == n);
        assert(steps_n(s0, s1, k));
    }
}

} // verus!
