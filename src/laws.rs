//! Properties of the processor that relate its instructions and cycles.
use crate::cpu::{
    begin_spec, compare_psw, end_spec, execute_spec, jump_pc, negative_set, next_pc, reg_ok,
    step_spec, target_of, zero_set, Fault, Machine, State,
};
use crate::isa::{half_of, opcode_spec, word_bytes, Instruction};
use vstd::prelude::*;

verus! {

proof fn lemma_compare_bits(p: u32)
    by (bit_vector)
    ensures
        ((p | 1) & !2u32) & 1 == 1,
        ((p | 1) & !2u32) & 2 == 0,
        ((p & !1u32) | 2) & 1 == 0,
        ((p & !1u32) | 2) & 2 == 2,
        (p & !1u32 & !2u32) & 1 == 0,
        (p & !1u32 & !2u32) & 2 == 0,
{
}

/// A compare sets the zero flag exactly when its operands are equal and the
/// negative flag exactly when the first is smaller; the two flags are never
/// set together, and when the first operand is smaller exactly one is set.
pub proof fn lemma_compare_flags(psw: u32, a: u32, b: u32)
    ensures
        zero_set(compare_psw(psw, a, b)) == (a == b),
        negative_set(compare_psw(psw, a, b)) == (a < b),
        !(zero_set(compare_psw(psw, a, b)) && negative_set(compare_psw(psw, a, b))),
        a < b ==> (zero_set(compare_psw(psw, a, b)) != negative_set(compare_psw(psw, a, b))),
{
    lemma_compare_bits(psw);
}

/// Only a compare changes the status word: any other instruction, and any
/// cycle that does not execute a compare, leaves it as it was.
pub proof fn lemma_flags_persist(m: Machine)
    requires
        m.wf(),
    ensures
        m.instruction != Instruction::Cmp ==> execute_spec(m).0.psw == m.psw,
        begin_spec(m).instruction != Instruction::Cmp ==> step_spec(m).0.psw == m.psw,
{
}

/// A cycle on an undefined opcode faults with that opcode and the program
/// counter, and changes neither registers nor memory nor the program counter.
pub proof fn lemma_unknown_opcode_faults(m: Machine)
    requires
        m.wf(),
        m.state == State::Running,
        opcode_spec(word_bytes(m.ram[m.pc as int])[0]) is None,
    ensures
        step_spec(m).0.state == State::Faulted(
            Fault::UnknownOpcode { opcode: word_bytes(m.ram[m.pc as int])[0], pc: m.pc },
        ),
        step_spec(m).0.regs == m.regs,
        step_spec(m).0.ram == m.ram,
        step_spec(m).0.pc == m.pc,
        step_spec(m).1 is None,
{
}

/// A cycle on a defined opcode decodes the fetched word to the instruction
/// of the opcode table and then has exactly the effect of that instruction.
pub proof fn lemma_defined_opcode_executes(m: Machine, i: Instruction)
    requires
        m.wf(),
        m.state == State::Running,
        opcode_spec(word_bytes(m.ram[m.pc as int])[0]) == Some(i),
    ensures
        begin_spec(m) == (Machine {
            ir: word_bytes(m.ram[m.pc as int]),
            instruction: i,
            ..m
        }),
        step_spec(m) == end_spec(
            Machine { ir: word_bytes(m.ram[m.pc as int]), instruction: i, ..m },
        ),
{
}

/// Add, subtract and multiply wrap: the register written holds the exact
/// result reduced modulo 2^32.
pub proof fn lemma_arithmetic_wraps(m: Machine)
    requires
        m.wf(),
        m.instruction == Instruction::Add || m.instruction == Instruction::Sub
            || m.instruction == Instruction::Mul,
        reg_ok(m.ir[1]),
        reg_ok(m.ir[2]),
        reg_ok(m.ir[3]),
    ensures
        ({
            let a = m.regs[m.ir[2] as int] as int;
            let b = m.regs[m.ir[3] as int] as int;
            let r = execute_spec(m).0.regs[m.ir[1] as int] as int;
            &&& m.instruction == Instruction::Add ==> r == (a + b) % 0x1_0000_0000
            &&& m.instruction == Instruction::Sub ==> r == (a - b) % 0x1_0000_0000
            &&& m.instruction == Instruction::Mul ==> r == (a * b) % 0x1_0000_0000
        }),
{
}

proof fn lemma_jump_lands(t: u16)
    ensures
        next_pc(jump_pc(t)) == t,
{
}

/// With the zero flag set, as an equal compare leaves it, a cycle on a
/// jump-if-equal moves the program counter to exactly the target in bytes 1
/// and 2 of the word, while a jump-if-not-equal only advances it.
pub proof fn lemma_jump_after_equal(m: Machine)
    requires
        m.wf(),
        m.state == State::Running,
        zero_set(m.psw),
    ensures
        opcode_spec(word_bytes(m.ram[m.pc as int])[0]) == Some(Instruction::Jeq) ==> step_spec(
            m,
        ).0.pc == half_of(word_bytes(m.ram[m.pc as int])[1], word_bytes(m.ram[m.pc as int])[2]),
        opcode_spec(word_bytes(m.ram[m.pc as int])[0]) == Some(Instruction::Jne) ==> step_spec(
            m,
        ).0.pc == next_pc(m.pc),
{
    lemma_jump_lands(target_of(begin_spec(m)));
}

/// A processor that has halted or faulted stays as it is.
pub proof fn lemma_stopped_is_final(m: Machine)
    requires
        m.state != State::Running,
    ensures
        step_spec(m) == (m, None::<u32>),
{
}

} // verus!
