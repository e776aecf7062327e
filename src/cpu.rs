//! The processor: its state, the meaning of each instruction, and the
//! fetch-decode-execute cycle as a state machine.
use crate::isa::{
    decode_opcode, half_of, join_half, opcode_spec, split_word, word_bytes, Instruction,
    MEMORY_WORDS, REGISTER_COUNT,
};
use vstd::prelude::*;

verus! {

/// A fatal fault that stops the processor.
#[derive(Clone, Copy, Debug, PartialEq, Eq, Structural)]
pub enum Fault {
    /// The word at `pc` holds an opcode outside the defined set.
    UnknownOpcode { opcode: u8, pc: u16 },
    /// The instruction at `pc` names a register `index` that does not exist.
    BadRegister { index: u8, pc: u16 },
}

/// Where the processor stands in its life.
#[derive(Clone, Copy, Debug, PartialEq, Eq, Structural)]
pub enum State {
    Running,
    Halted,
    Faulted(Fault),
}

/// What executing one instruction asks of the run loop.
#[derive(Clone, Copy, Debug, PartialEq, Eq, Structural)]
pub enum Effect {
    /// Go on with the next word.
    Next,
    /// Emit this value, then go on with the next word.
    Print(u32),
    /// Stop with success.
    Halt,
    /// Stop with this fault.
    Fault(Fault),
}

/// The abstract state of a processor.
pub struct Machine {
    pub ram: Seq<u32>,
    pub regs: Seq<u32>,
    pub pc: u16,
    pub ir: Seq<u8>,
    pub psw: u32,
    pub instruction: Instruction,
    pub state: State,
    /// Whether the driving loop is to emit a trace before each execution.
    pub trace: bool,
}

impl Machine {
    /// Memory and register file have their fixed sizes and the instruction
    /// register holds four bytes.
    pub open spec fn wf(self) -> bool {
        &&& self.ram.len() == MEMORY_WORDS
        &&& self.regs.len() == REGISTER_COUNT
        &&& self.ir.len() == 4
    }
}

/// Bit 0 of the status word: the last compare found its operands equal.
pub open spec fn zero_set(psw: u32) -> bool {
    psw & 1 == 1
}

/// Bit 1 of the status word: the last compare found its first operand smaller.
pub open spec fn negative_set(psw: u32) -> bool {
    psw & 2 == 2
}

/// The status word after comparing `a` with `b`: bits 0 and 1 are set or
/// cleared by the outcome, the other bits are kept.
pub open spec fn compare_psw(psw: u32, a: u32, b: u32) -> u32 {
    if a == b {
        (psw | 1) & !2u32
    } else if a < b {
        (psw & !1u32) | 2
    } else {
        psw & !1u32 & !2u32
    }
}

/// The address after `pc`, wrapping from the last word to the first.
pub open spec fn next_pc(pc: u16) -> u16 {
    ((pc + 1) % 0x1_0000) as u16
}

/// The program counter a taken jump to `target` leaves behind, so that the
/// advance that ends the cycle lands on `target`.
pub open spec fn jump_pc(target: u16) -> u16 {
    ((target - 1) % 0x1_0000) as u16
}

/// A register index names one of the registers.
pub open spec fn reg_ok(index: u8) -> bool {
    index < REGISTER_COUNT
}

/// The result of a two-operand register instruction on `a` and `b`,
/// with arithmetic modulo 2^32.
pub open spec fn alu_spec(op: Instruction, a: u32, b: u32) -> u32 {
    match op {
        Instruction::Add => ((a + b) % 0x1_0000_0000) as u32,
        Instruction::Sub => ((a - b) % 0x1_0000_0000) as u32,
        Instruction::Mul => ((a * b) % 0x1_0000_0000) as u32,
        Instruction::And => a & b,
        _ => a | b,
    }
}

/// An instruction that writes `op` of two registers into a third.
pub open spec fn is_alu(op: Instruction) -> bool {
    match op {
        Instruction::Add | Instruction::Sub | Instruction::Mul | Instruction::And
        | Instruction::Or => true,
        _ => false,
    }
}

/// The fault for a missing register `index` named at `m.pc`.
pub open spec fn bad_register(m: Machine, index: u8) -> (Machine, Effect) {
    (m, Effect::Fault(Fault::BadRegister { index, pc: m.pc }))
}

/// The 16-bit immediate or address in bytes 2 and 3 of the instruction.
pub open spec fn operand16(m: Machine) -> u16 {
    half_of(m.ir[2], m.ir[3])
}

/// The jump target in bytes 1 and 2 of the instruction.
pub open spec fn target_of(m: Machine) -> u16 {
    half_of(m.ir[1], m.ir[2])
}

/// The meaning of the decoded instruction: the new state and what the run
/// loop is to do next. A register index outside the register file is a fault
/// that changes nothing.
pub open spec fn execute_spec(m: Machine) -> (Machine, Effect) {
    let ir = m.ir;
    match m.instruction {
        Instruction::Noop => (m, Effect::Next),
        Instruction::Hlt => (m, Effect::Halt),
        Instruction::Loadi => if !reg_ok(ir[1]) {
            bad_register(m, ir[1])
        } else {
            (Machine { regs: m.regs.update(ir[1] as int, operand16(m) as u32), ..m }, Effect::Next)
        },
        Instruction::Load => if !reg_ok(ir[1]) {
            bad_register(m, ir[1])
        } else {
            (
                Machine { regs: m.regs.update(ir[1] as int, m.ram[operand16(m) as int]), ..m },
                Effect::Next,
            )
        },
        Instruction::Store => if !reg_ok(ir[1]) {
            bad_register(m, ir[1])
        } else {
            (
                Machine { ram: m.ram.update(operand16(m) as int, m.regs[ir[1] as int]), ..m },
                Effect::Next,
            )
        },
        Instruction::Prnt => if !reg_ok(ir[1]) {
            bad_register(m, ir[1])
        } else {
            (m, Effect::Print(m.regs[ir[1] as int]))
        },
        Instruction::Not => if !reg_ok(ir[1]) {
            bad_register(m, ir[1])
        } else {
            (Machine { regs: m.regs.update(ir[1] as int, !m.regs[ir[1] as int]), ..m }, Effect::Next)
        },
        Instruction::Cmp => if !reg_ok(ir[1]) {
            bad_register(m, ir[1])
        } else if !reg_ok(ir[2]) {
            bad_register(m, ir[2])
        } else {
            (
                Machine {
                    psw: compare_psw(m.psw, m.regs[ir[1] as int], m.regs[ir[2] as int]),
                    ..m
                },
                Effect::Next,
            )
        },
        Instruction::Jeq => if zero_set(m.psw) {
            (Machine { pc: jump_pc(target_of(m)), ..m }, Effect::Next)
        } else {
            (m, Effect::Next)
        },
        Instruction::Jne => if !zero_set(m.psw) {
            (Machine { pc: jump_pc(target_of(m)), ..m }, Effect::Next)
        } else {
            (m, Effect::Next)
        },
        op => if !reg_ok(ir[1]) {
            bad_register(m, ir[1])
        } else if !reg_ok(ir[2]) {
            bad_register(m, ir[2])
        } else if !reg_ok(ir[3]) {
            bad_register(m, ir[3])
        } else {
            (
                Machine {
                    regs: m.regs.update(
                        ir[1] as int,
                        alu_spec(op, m.regs[ir[2] as int], m.regs[ir[3] as int]),
                    ),
                    ..m
                },
                Effect::Next,
            )
        },
    }
}

/// First half of a cycle: fetch the word at `pc` into the instruction
/// register and decode its opcode. An undefined opcode faults the processor.
pub open spec fn begin_spec(m: Machine) -> Machine {
    if m.state != State::Running {
        m
    } else {
        let ir = word_bytes(m.ram[m.pc as int]);
        match opcode_spec(ir[0]) {
            Some(i) => Machine { ir, instruction: i, ..m },
            None => Machine {
                ir,
                state: State::Faulted(Fault::UnknownOpcode { opcode: ir[0], pc: m.pc }),
                ..m
            },
        }
    }
}

/// Second half of a cycle: execute the decoded instruction, then advance
/// `pc` or stop. Yields the value printed, if any.
pub open spec fn end_spec(m: Machine) -> (Machine, Option<u32>) {
    if m.state != State::Running {
        (m, None)
    } else {
        let (n, e) = execute_spec(m);
        match e {
            Effect::Next => (Machine { pc: next_pc(n.pc), ..n }, None),
            Effect::Print(v) => (Machine { pc: next_pc(n.pc), ..n }, Some(v)),
            Effect::Halt => (Machine { state: State::Halted, ..n }, None),
            Effect::Fault(f) => (Machine { state: State::Faulted(f), ..n }, None),
        }
    }
}

/// One full cycle.
pub open spec fn step_spec(m: Machine) -> (Machine, Option<u32>) {
    end_spec(begin_spec(m))
}

/// The values a printed-value option contributes to the output.
pub open spec fn printed(o: Option<u32>) -> Seq<u32> {
    match o {
        Some(v) => seq![v],
        None => Seq::empty(),
    }
}

/// At most `n` cycles from `m`, stopping early once the processor stops
/// running: the final state and everything printed on the way.
pub open spec fn run_spec(m: Machine, n: nat) -> (Machine, Seq<u32>)
    decreases n,
{
    if n == 0 || m.state != State::Running {
        (m, Seq::empty())
    } else {
        let (m1, o) = step_spec(m);
        let (m2, out) = run_spec(m1, (n - 1) as nat);
        (m2, printed(o) + out)
    }
}

/// The state of a fresh processor over memory `boot`.
pub open spec fn initial(boot: Seq<u32>, trace: bool) -> Machine {
    Machine {
        ram: boot,
        regs: Seq::new(REGISTER_COUNT as nat, |i: int| 0u32),
        pc: 0,
        ir: seq![0u8, 0u8, 0u8, 0u8],
        psw: 0,
        instruction: Instruction::Noop,
        state: State::Running,
        trace,
    }
}

/// A processor with its memory, registers, program counter, instruction
/// register and status word.
pub struct Cpu {
    ram: Vec<u32>,
    regs: Vec<u32>,
    pc: u16,
    ir: [u8; 4],
    psw: u32,
    instruction: Instruction,
    state: State,
    debug: bool,
}

impl View for Cpu {
    type V = Machine;

    closed spec fn view(&self) -> Machine {
        Machine {
            ram: self.ram@,
            regs: self.regs@,
            pc: self.pc,
            ir: self.ir@,
            psw: self.psw,
            instruction: self.instruction,
            state: self.state,
            trace: self.debug,
        }
    }
}

impl Cpu {
    /// A running processor over the memory image `boot`, with zeroed
    /// registers, status word and program counter.
    pub fn new(boot: Vec<u32>, debug: bool) -> (r: Cpu)
        requires
            boot@.len() == MEMORY_WORDS,
        ensures
            r@ == initial(boot@, debug),
            r@.wf(),
    {
        let regs: Vec<u32> = vec![0u32; REGISTER_COUNT];
        let r = Cpu {
            ram: boot,
            regs,
            pc: 0,
            ir: [0, 0, 0, 0],
            psw: 0,
            instruction: Instruction::Noop,
            state: State::Running,
            debug,
        };
        assert(r@.regs =~= initial(boot@, debug).regs);
        assert(r@.ir =~= initial(boot@, debug).ir);
        r
    }

    fn set_zero_flag(&mut self)
        ensures
            final(self)@ == (Machine { psw: old(self)@.psw | 1, ..old(self)@ }),
    {
        self.psw = self.psw | 1;
    }

    fn unset_zero_flag(&mut self)
        ensures
            final(self)@ == (Machine { psw: old(self)@.psw & !1u32, ..old(self)@ }),
    {
        self.psw = self.psw & !1u32;
    }

    fn set_negative_flag(&mut self)
        ensures
            final(self)@ == (Machine { psw: old(self)@.psw | 2, ..old(self)@ }),
    {
        self.psw = self.psw | 2;
    }

    fn unset_negative_flag(&mut self)
        ensures
            final(self)@ == (Machine { psw: old(self)@.psw & !2u32, ..old(self)@ }),
    {
        self.psw = self.psw & !2u32;
    }

    /// Whether the last compare found its operands equal.
    pub fn zero_flag(&self) -> (r: bool)
        ensures
            r == zero_set(self@.psw),
    {
        self.psw & 1 == 1
    }

    /// Whether the last compare found its first operand smaller.
    pub fn negative_flag(&self) -> (r: bool)
        ensures
            r == negative_set(self@.psw),
    {
        self.psw & 2 == 2
    }

    fn bad_register(&self, index: u8) -> (e: Effect)
        ensures
            e == Effect::Fault(Fault::BadRegister { index, pc: self@.pc }),
    {
        Effect::Fault(Fault::BadRegister { index, pc: self.pc })
    }

    /// Applies the decoded instruction to the state.
    pub fn execute(&mut self) -> (e: Effect)
        requires
            old(self)@.wf(),
        ensures
            (final(self)@, e) == execute_spec(old(self)@),
    {
        let d = self.ir[1];
        let r1 = self.ir[2];
        let r2 = self.ir[3];
        match self.instruction {
            Instruction::Noop => Effect::Next,
            Instruction::Hlt => Effect::Halt,
            Instruction::Loadi => {
                if d as usize >= REGISTER_COUNT {
                    return self.bad_register(d);
                }
                let value = join_half(self.ir[2], self.ir[3]);
                self.regs[d as usize] = value as u32;
                Effect::Next
            },
            Instruction::Load => {
                if d as usize >= REGISTER_COUNT {
                    return self.bad_register(d);
                }
                let addr = join_half(self.ir[2], self.ir[3]);
                self.regs[d as usize] = self.ram[addr as usize];
                Effect::Next
            },
            Instruction::Store => {
                if d as usize >= REGISTER_COUNT {
                    return self.bad_register(d);
                }
                let addr = join_half(self.ir[2], self.ir[3]);
                self.ram[addr as usize] = self.regs[d as usize];
                Effect::Next
            },
            Instruction::Prnt => {
                if d as usize >= REGISTER_COUNT {
                    return self.bad_register(d);
                }
                Effect::Print(self.regs[d as usize])
            },
            Instruction::Not => {
                if d as usize >= REGISTER_COUNT {
                    return self.bad_register(d);
                }
                self.regs[d as usize] = !self.regs[d as usize];
                Effect::Next
            },
            Instruction::Cmp => {
                // Compare names its operands in bytes 1 and 2.
                if d as usize >= REGISTER_COUNT {
                    return self.bad_register(d);
                }
                if r1 as usize >= REGISTER_COUNT {
                    return self.bad_register(r1);
                }
                let a = self.regs[d as usize];
                let b = self.regs[r1 as usize];
                if a == b {
                    self.set_zero_flag();
                    self.unset_negative_flag();
                } else if a < b {
                    self.unset_zero_flag();
                    self.set_negative_flag();
                } else {
                    self.unset_zero_flag();
                    self.unset_negative_flag();
                }
                Effect::Next
            },
            Instruction::Jeq => {
                if self.zero_flag() {
                    self.jump();
                }
                Effect::Next
            },
            Instruction::Jne => {
                if !self.zero_flag() {
                    self.jump();
                }
                Effect::Next
            },
            op => {
                if d as usize >= REGISTER_COUNT {
                    return self.bad_register(d);
                }
                if r1 as usize >= REGISTER_COUNT {
                    return self.bad_register(r1);
                }
                if r2 as usize >= REGISTER_COUNT {
                    return self.bad_register(r2);
                }
                let a = self.regs[r1 as usize];
                let b = self.regs[r2 as usize];
                self.regs[d as usize] = alu(op, a, b);
                Effect::Next
            },
        }
    }

    fn fetch(&mut self)
        requires
            old(self)@.wf(),
        ensures
            final(self)@ == (Machine {
                ir: word_bytes(old(self)@.ram[old(self)@.pc as int]),
                ..old(self)@
            }),
    {
        self.ir = split_word(self.ram[self.pc as usize]);
    }

    fn decode(&mut self)
        requires
            old(self)@.wf(),
        ensures
            final(self)@ == (match opcode_spec(old(self)@.ir[0]) {
                Some(i) => Machine { instruction: i, ..old(self)@ },
                None => Machine {
                    state: State::Faulted(
                        Fault::UnknownOpcode { opcode: old(self)@.ir[0], pc: old(self)@.pc },
                    ),
                    ..old(self)@
                },
            }),
    {
        let opcode = self.ir[0];
        match decode_opcode(opcode) {
            Some(i) => {
                self.instruction = i;
            },
            None => {
                self.state = State::Faulted(Fault::UnknownOpcode { opcode, pc: self.pc });
            },
        }
    }

    /// Fetches the word at `pc` and decodes its opcode, so that the decoded
    /// instruction can be inspected before it runs. Does nothing once the
    /// processor has stopped.
    pub fn begin_cycle(&mut self)
        requires
            old(self)@.wf(),
        ensures
            final(self)@ == begin_spec(old(self)@),
            final(self)@.wf(),
    {
        if self.state != State::Running {
            return ;
        }
        self.fetch();
        self.decode();
    }

    /// Executes the decoded instruction, then advances `pc`, halts or faults
    /// as it asks. Returns the value printed, if any. Does nothing once the
    /// processor has stopped.
    pub fn end_cycle(&mut self) -> (r: Option<u32>)
        requires
            old(self)@.wf(),
        ensures
            (final(self)@, r) == end_spec(old(self)@),
            final(self)@.wf(),
    {
        if self.state != State::Running {
            return None;
        }
        match self.execute() {
            Effect::Next => {
                self.pc = self.pc.wrapping_add(1);
                None
            },
            Effect::Print(v) => {
                self.pc = self.pc.wrapping_add(1);
                Some(v)
            },
            Effect::Halt => {
                self.state = State::Halted;
                None
            },
            Effect::Fault(f) => {
                self.state = State::Faulted(f);
                None
            },
        }
    }

    /// One fetch-decode-execute cycle. Returns the value printed, if any.
    pub fn step(&mut self) -> (r: Option<u32>)
        requires
            old(self)@.wf(),
        ensures
            (final(self)@, r) == step_spec(old(self)@),
            final(self)@.wf(),
    {
        self.begin_cycle();
        self.end_cycle()
    }

    /// Runs until the processor halts or faults, or `max_cycles` cycles have
    /// passed, and returns the values printed on the way, in order.
    pub fn run(&mut self, max_cycles: u64) -> (out: Vec<u32>)
        requires
            old(self)@.wf(),
        ensures
            (final(self)@, out@) == run_spec(old(self)@, max_cycles as nat),
            final(self)@.wf(),
    {
        let mut out: Vec<u32> = Vec::new();
        let mut left: u64 = max_cycles;
        while left > 0 && self.state == State::Running
            invariant
                self@.wf(),
                run_spec(old(self)@, max_cycles as nat) == (
                    run_spec(self@, left as nat).0,
                    out@ + run_spec(self@, left as nat).1,
                ),
            decreases left,
        {
            let ghost before = self@;
            let ghost prev = out@;
            let printed_value = self.step();
            match printed_value {
                Some(v) => out.push(v),
                None => {},
            }
            assert(out@ == prev + printed(printed_value));
            assert(prev + run_spec(before, left as nat).1 =~= out@ + run_spec(
                self@,
                (left - 1) as nat,
            ).1);
            left = left - 1;
        }
        assert(out@ + run_spec(self@, left as nat).1 =~= out@);
        out
    }

    /// Whether tracing was asked for when the processor was built.
    pub fn debug(&self) -> (r: bool)
        ensures
            r == self@.trace,
    {
        self.debug
    }

    /// The program counter.
    pub fn pc(&self) -> (r: u16)
        ensures
            r == self@.pc,
    {
        self.pc
    }

    /// The status word.
    pub fn psw(&self) -> (r: u32)
        ensures
            r == self@.psw,
    {
        self.psw
    }

    /// The instruction register: the bytes of the word fetched last.
    pub fn ir(&self) -> (r: [u8; 4])
        ensures
            r@ == self@.ir,
    {
        self.ir
    }

    /// The instruction decoded last.
    pub fn instruction(&self) -> (r: Instruction)
        ensures
            r == self@.instruction,
    {
        self.instruction
    }

    /// Running, halted or faulted.
    pub fn state(&self) -> (r: State)
        ensures
            r == self@.state,
    {
        self.state
    }

    /// Register `index`, or `None` when there is no such register.
    pub fn register(&self, index: usize) -> (r: Option<u32>)
        requires
            self@.wf(),
        ensures
            index < REGISTER_COUNT ==> r == Some(self@.regs[index as int]),
            index >= REGISTER_COUNT ==> r is None,
    {
        if index < REGISTER_COUNT {
            Some(self.regs[index])
        } else {
            None
        }
    }

    /// The word at `addr`.
    pub fn memory_word(&self, addr: u16) -> (r: u32)
        requires
            self@.wf(),
        ensures
            r == self@.ram[addr as int],
    {
        self.ram[addr as usize]
    }

    /// Sets `pc` one before the target in bytes 1 and 2, so that the advance
    /// that ends the cycle lands on the target.
    fn jump(&mut self)
        requires
            old(self)@.wf(),
        ensures
            final(self)@ == (Machine { pc: jump_pc(target_of(old(self)@)), ..old(self)@ }),
    {
        let target = join_half(self.ir[1], self.ir[2]);
        self.pc = target.wrapping_sub(1);
    }
}

/// Computes `op` on `a` and `b` for the two-register instructions.
fn alu(op: Instruction, a: u32, b: u32) -> (r: u32)
    requires
        is_alu(op),
    ensures
        r == alu_spec(op, a, b),
{
    match op {
        Instruction::Add => a.wrapping_add(b),
        Instruction::Sub => a.wrapping_sub(b),
        Instruction::Mul => a.wrapping_mul(b),
        Instruction::And => a & b,
        _ => a | b,
    }
}

} // verus!
