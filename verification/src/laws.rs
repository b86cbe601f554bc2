//! Laws of the instruction set, proved once and for all over the `isa`
//! model: the arithmetic flag conventions, and the subroutine linkage of
//! CALL and RET including its overflow and underflow faults.

use vstd::prelude::*;

use crate::isa::add_regs;
use crate::isa::cpu_wf;
use crate::isa::div_regs;
use crate::isa::flag_of;
use crate::isa::mul_regs;
use crate::isa::op_c;
use crate::isa::op_nnn;
use crate::isa::opcode_at;
use crate::isa::step_model;
use crate::isa::sub_regs;
use crate::isa::CpuState;
use crate::isa::Fault;
use crate::isa::StepOutcome;

verus! {

/// ADD writes the modulo-256 sum to reg[x] and sets reg[0xF] to 1 exactly
/// when the true sum exceeds 255; every other register keeps its value.
pub proof fn lemma_add_flag(regs: Seq<u8>, x: int, y: int)
    requires
        regs.len() == 16,
        0 <= x < 16,
        0 <= y < 16,
    ensures
        add_regs(regs, x, y)[0xF] == flag_of(regs[x] + regs[y] > 255),
        x != 0xF ==> add_regs(regs, x, y)[x] == ((regs[x] + regs[y]) % 256) as u8,
        forall|i: int|
            0 <= i < 16 && i != x && i != 0xF ==> add_regs(regs, x, y)[i] == regs[i],
{
}

/// SUB writes the modulo-256 difference to reg[x] and sets reg[0xF] to 1
/// exactly when no borrow occurred (reg[x] >= reg[y]) -- the inverted flag
/// convention; every other register keeps its value.
pub proof fn lemma_sub_flag(regs: Seq<u8>, x: int, y: int)
    requires
        regs.len() == 16,
        0 <= x < 16,
        0 <= y < 16,
    ensures
        sub_regs(regs, x, y)[0xF] == flag_of(regs[x] >= regs[y]),
        x != 0xF ==> sub_regs(regs, x, y)[x] == (if regs[x] >= regs[y] {
            regs[x] - regs[y]
        } else {
            regs[x] + 256 - regs[y]
        }) as u8,
        forall|i: int|
            0 <= i < 16 && i != x && i != 0xF ==> sub_regs(regs, x, y)[i] == regs[i],
{
}

/// MUL writes the modulo-256 product to reg[x] and sets reg[0xF] to 1
/// exactly when the true product exceeds 255; every other register keeps its
/// value.
pub proof fn lemma_mul_flag(regs: Seq<u8>, x: int, y: int)
    requires
        regs.len() == 16,
        0 <= x < 16,
        0 <= y < 16,
    ensures
        mul_regs(regs, x, y)[0xF] == flag_of(regs[x] * regs[y] > 255),
        x != 0xF ==> mul_regs(regs, x, y)[x] == ((regs[x] * regs[y]) % 256) as u8,
        forall|i: int|
            0 <= i < 16 && i != x && i != 0xF ==> mul_regs(regs, x, y)[i] == regs[i],
{
}

/// DIV with a nonzero divisor writes the integer quotient to reg[x] and the
/// remainder of the pre-division values to reg[0xF]; every other register
/// keeps its value. (With x = 0xF the quotient, written second, wins.)
pub proof fn lemma_div_quotient(regs: Seq<u8>, x: int, y: int)
    requires
        regs.len() == 16,
        0 <= x < 16,
        0 <= y < 16,
        regs[y] != 0,
    ensures
        div_regs(regs, x, y)[x] == (regs[x] / regs[y]) as u8,
        x != 0xF ==> div_regs(regs, x, y)[0xF] == (regs[x] % regs[y]) as u8,
        forall|i: int|
            0 <= i < 16 && i != x && i != 0xF ==> div_regs(regs, x, y)[i] == regs[i],
{
}

/// A CALL cycle followed at once by a RET cycle restores the program counter
/// to the instruction following the CALL, leaves the registers, memory and
/// stack depth as they were, and succeeds at any nesting depth below the
/// 16-slot capacity.
pub proof fn lemma_call_then_ret(s: CpuState)
    requires
        cpu_wf(s),
        s.sp < 16,
        s.pc + 1 < 4096,
        op_c(opcode_at(s.mem, s.pc)) == 0x2,
        op_nnn(opcode_at(s.mem, s.pc)) + 1 < 4096,
        opcode_at(s.mem, op_nnn(opcode_at(s.mem, s.pc))) == 0x00EE,
    ensures
        step_model(s).1 == Ok::<StepOutcome, Fault>(StepOutcome::Running),
        step_model(step_model(s).0).1 == Ok::<StepOutcome, Fault>(StepOutcome::Running),
        step_model(step_model(s).0).0.pc == s.pc + 2,
        step_model(step_model(s).0).0.regs == s.regs,
        step_model(step_model(s).0).0.mem == s.mem,
        step_model(step_model(s).0).0.sp == s.sp,
{
    let op = opcode_at(s.mem, s.pc);
    assert(op != 0 && op != 0x00EE && op_c(op) != 0x1);
    let s1 = step_model(s).0;
    assert(s1.pc == op_nnn(op));
    assert(s1.stack[s.sp] == (s.pc + 2) as u16);
}

/// A 17th nested CALL -- one attempted with the 16-slot stack already full --
/// faults with a stack overflow and changes no register and no stack slot.
pub proof fn lemma_call_overflow(s: CpuState)
    requires
        cpu_wf(s),
        s.sp == 16,
        s.pc + 1 < 4096,
        op_c(opcode_at(s.mem, s.pc)) == 0x2,
    ensures
        step_model(s).1 == Err::<StepOutcome, Fault>(Fault::StackOverflow),
        step_model(s).0.regs == s.regs,
        step_model(s).0.stack == s.stack,
        step_model(s).0.sp == s.sp,
{
    let op = opcode_at(s.mem, s.pc);
    assert(op != 0 && op != 0x00EE && op_c(op) != 0x1);
}

/// RET with an empty call stack faults with a stack underflow and changes no
/// register and no stack slot.
pub proof fn lemma_ret_underflow(s: CpuState)
    requires
        cpu_wf(s),
        s.sp == 0,
        s.pc + 1 < 4096,
        opcode_at(s.mem, s.pc) == 0x00EE,
    ensures
        step_model(s).1 == Err::<StepOutcome, Fault>(Fault::StackUnderflow),
        step_model(s).0.regs == s.regs,
        step_model(s).0.stack == s.stack,
        step_model(s).0.sp == s.sp,
{
}

} // verus!
