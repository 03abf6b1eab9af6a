//! The controller: it owns the register file, the memory unit, the program
//! store, the program counter and the two status flags, and drives them
//! through one micro-instruction per step.
//!
//! One step does, in this order:
//!
//! 1. clear both flags;
//! 2. fetch the word at the program counter, and stop there if it is 0:
//!    the zero word halts the machine, which then stays at this word;
//! 3. decode the word;
//! 4. if `mar` is set, copy the register on the second ALU input into the
//!    address register;
//! 5. run the ALU on the two operands and set the flags from its output;
//! 6. run the shifter on the ALU output;
//! 7. let the condition unit set the program counter;
//! 8. write the shifter output back to the destination register;
//! 9. if `ms` is set, invoke the memory unit once, for a read into the
//!    buffer register or a write out of it, at the address register;
//! 10. advance the program counter by one, wrapping at 8 bits.
//!
//! The last point holds after a taken branch too, so a branch to `addr`
//! continues at `addr + 1`.

use crate::fault::Fault;
use crate::instruction::{decode, lemma_bus_fields_in_range, Fields, Instruction};
use crate::memory::{cell_of, MemoryState, Phase};
use crate::registers::{
    initial_registers, well_formed, CONSTANT_COUNT, MAR_REGISTER_IDX, MBR_REGISTER_IDX,
};
use crate::units::{alu, alu_result, branch, branch_target, shifter, shifter_result};
pub use crate::memory::Memory;
pub use crate::registers::RegisterSet;
pub use crate::units::{AluMode, CondMode, ShifterMode};
use vstd::prelude::*;

verus! {

/// The number of words that the program store holds.
pub const PROGRAM_LENGTH: usize = 256;

/// When a step writes the shifter output back to the destination register.
#[derive(Clone, Copy, Debug, PartialEq, Eq, Structural)]
pub enum WriteBack {
    /// Only when the instruction's `ens` bit is set.
    Gated,
    /// In every step that is not a halt, whatever `ens` says.
    Always,
}

/// The machine as a mathematical value.
pub struct CpuState {
    /// The sixteen registers.
    pub registers: Seq<i16>,
    /// The memory unit.
    pub memory: MemoryState,
    /// The program, first instruction first.
    pub program: Seq<u32>,
    /// The index of the next instruction.
    pub program_counter: u8,
    /// Whether the last ALU output was negative.
    pub negative: bool,
    /// Whether the last ALU output was zero.
    pub zero: bool,
    /// The write-back policy.
    pub write_back: WriteBack,
}

/// The register that an instruction puts on the first ALU input.
pub open spec fn a_index(f: Fields) -> u8 {
    if f.a_mux {
        MAR_REGISTER_IDX
    } else {
        f.a_bus
    }
}

/// Whether an instruction's result goes to its destination register.
pub open spec fn commits(write_back: WriteBack, f: Fields) -> bool {
    match write_back {
        WriteBack::Gated => f.ens,
        WriteBack::Always => true,
    }
}

/// The program counter after `counter`, wrapping at 8 bits.
pub open spec fn successor(counter: u8) -> u8 {
    if counter == 255 {
        0
    } else {
        (counter + 1) as u8
    }
}

/// The memory stage of an instruction: one invocation of the memory unit
/// at the address register, if the instruction asks for one. A read that
/// completes lands in the buffer register; a write takes its value from
/// there.
pub open spec fn memory_stage(f: Fields, registers: Seq<i16>, memory: MemoryState) -> (
    Seq<i16>,
    MemoryState,
) {
    let address = registers[MAR_REGISTER_IDX as int] as int;
    if !f.ms {
        (registers, memory)
    } else if f.rd_wr {
        match memory.read(address).1 {
            Some(value) => (
                registers.update(MBR_REGISTER_IDX as int, value),
                memory.read(address).0,
            ),
            None => (registers, memory.read(address).0),
        }
    } else {
        (registers, memory.write(address, registers[MBR_REGISTER_IDX as int]).0)
    }
}

impl CpuState {
    /// The machine before its first step.
    pub open spec fn initial(program: Seq<u32>) -> CpuState {
        CpuState {
            registers: initial_registers(),
            memory: MemoryState::initial(),
            program,
            program_counter: 0,
            negative: false,
            zero: false,
            write_back: WriteBack::Gated,
        }
    }

    /// Whether the parts have their shapes and the program fits the store.
    pub open spec fn wf(self) -> bool {
        &&& well_formed(self.registers)
        &&& self.memory.wf()
        &&& self.program.len() <= PROGRAM_LENGTH
    }

    /// Whether the program counter has reached or passed the program's end.
    pub open spec fn done(self) -> bool {
        self.program_counter >= self.program.len()
    }

    /// The word at the program counter.
    pub open spec fn fetch(self) -> u32
        recommends
            !self.done(),
    {
        self.program[self.program_counter as int]
    }

    /// Whether the machine stands at a halt word.
    pub open spec fn halted(self) -> bool {
        !self.done() && self.fetch() == 0
    }

    /// The fault that the next step would run into, if any: a write-back
    /// aimed at a constant register.
    pub open spec fn fault(self) -> Option<Fault>
        recommends
            !self.done(),
    {
        let f = decode(self.fetch());
        if self.fetch() != 0 && commits(self.write_back, f) && f.s_bus < CONSTANT_COUNT {
            Some(Fault::ReadOnlyRegisterWrite)
        } else {
            None
        }
    }

    /// The machine after one step.
    pub open spec fn step(self) -> CpuState
        recommends
            !self.done(),
            self.fault() is None,
    {
        let f = decode(self.fetch());
        if self.fetch() == 0 {
            CpuState { negative: false, zero: false, ..self }
        } else {
            let loaded = if f.mar {
                self.registers.update(MAR_REGISTER_IDX as int, self.registers[f.b_bus as int])
            } else {
                self.registers
            };
            let result = alu_result(f.alu, loaded[a_index(f) as int], loaded[f.b_bus as int]);
            let negative = result < 0;
            let zero = result == 0;
            let shifted = shifter_result(f.sh, result);
            let target = branch_target(f.cond, f.addr, negative, zero, self.program_counter);
            let stored = if commits(self.write_back, f) {
                loaded.update(f.s_bus as int, shifted)
            } else {
                loaded
            };
            let (registers, memory) = memory_stage(f, stored, self.memory);
            CpuState {
                registers,
                memory,
                program: self.program,
                program_counter: successor(target),
                negative,
                zero,
                write_back: self.write_back,
            }
        }
    }

    /// The machine after `n` steps.
    pub open spec fn run(self, n: nat) -> CpuState
        decreases n,
    {
        if n == 0 {
            self
        } else {
            self.step().run((n - 1) as nat)
        }
    }
}

/// The micro16.
pub struct Cpu<'a> {
    registers: RegisterSet,
    memory: Memory,
    program: &'a [u32],
    program_counter: u8,
    negative_flag: bool,
    zero_flag: bool,
    write_back: WriteBack,
}

impl<'a> View for Cpu<'a> {
    type V = CpuState;

    closed spec fn view(&self) -> CpuState {
        CpuState {
            registers: self.registers@,
            memory: self.memory@,
            program: self.program@,
            program_counter: self.program_counter,
            negative: self.negative_flag,
            zero: self.zero_flag,
            write_back: self.write_back,
        }
    }
}

impl<'a> Cpu<'a> {
    /// A machine that is about to run `prog` from its first word, with the
    /// write-back gated by `ens`.
    pub fn new(prog: &'a [u32]) -> (r: Cpu<'a>)
        requires
            prog@.len() <= PROGRAM_LENGTH,
        ensures
            r@ == CpuState::initial(prog@),
            r@.wf(),
    {
        let r = Cpu {
            registers: RegisterSet::new(),
            memory: Memory::new(),
            program: prog,
            program_counter: 0,
            zero_flag: false,
            negative_flag: false,
            write_back: WriteBack::Gated,
        };
        proof {
            r.registers.lemma_constants();
            r.memory.lemma_size();
        }
        r
    }

    /// A machine that is about to run `prog`, or the fault that a program
    /// too long for the program store gives.
    pub fn try_new(prog: &'a [u32]) -> (r: Result<Cpu<'a>, Fault>)
        ensures
            prog@.len() <= PROGRAM_LENGTH ==> r is Ok && r->Ok_0@ == CpuState::initial(prog@)
                && r->Ok_0@.wf(),
            prog@.len() > PROGRAM_LENGTH ==> r is Err && r->Err_0 == Fault::ConstructionError,
    {
        if prog.len() > PROGRAM_LENGTH {
            Err(Fault::ConstructionError)
        } else {
            Ok(Cpu::new(prog))
        }
    }

    /// Chooses when a step writes its result back.
    pub fn set_write_back(&mut self, write_back: WriteBack)
        ensures
            final(self)@ == (CpuState { write_back, ..old(self)@ }),
    {
        self.write_back = write_back;
    }

    /// Tells whether the program counter has reached or passed the
    /// program's end.
    pub fn done(&self) -> (r: bool)
        ensures
            r == self@.done(),
    {
        self.program_counter as usize >= self.program.len()
    }

    /// The index of the next instruction.
    pub fn program_counter(&self) -> (r: u8)
        ensures
            r == self@.program_counter,
    {
        self.program_counter
    }

    /// Whether the last ALU output was negative.
    pub fn negative_flag(&self) -> (r: bool)
        ensures
            r == self@.negative,
    {
        self.negative_flag
    }

    /// Whether the last ALU output was zero.
    pub fn zero_flag(&self) -> (r: bool)
        ensures
            r == self@.zero,
    {
        self.zero_flag
    }

    /// The write-back policy.
    pub fn write_back(&self) -> (r: WriteBack)
        ensures
            r == self@.write_back,
    {
        self.write_back
    }

    /// The register file, for reading.
    pub fn registers(&self) -> (r: &RegisterSet)
        ensures
            r@ == self@.registers,
    {
        &self.registers
    }

    /// The memory unit, for reading.
    pub fn memory(&self) -> (r: &Memory)
        ensures
            r@ == self@.memory,
    {
        &self.memory
    }

    /// The program.
    pub fn program(&self) -> (r: &'a [u32])
        ensures
            r@ == self@.program,
    {
        self.program
    }

    /// Every machine has a full register file with its constants in place
    /// and a full memory.
    pub proof fn lemma_parts(&self)
        ensures
            well_formed(self@.registers),
            self@.memory.wf(),
    {
        self.registers.lemma_constants();
        self.memory.lemma_size();
    }

    /// Tells which fault the next step would run into, if any.
    pub fn pending_fault(&self) -> (r: Option<Fault>)
        requires
            !self@.done(),
        ensures
            r == self@.fault(),
    {
        let word = self.program[self.program_counter as usize];
        if word == 0 {
            return None;
        }
        let instr = Instruction::new(word);
        let commits = match self.write_back {
            WriteBack::Gated => instr.ens(),
            WriteBack::Always => true,
        };
        if commits && instr.s_bus() < CONSTANT_COUNT {
            Some(Fault::ReadOnlyRegisterWrite)
        } else {
            None
        }
    }

    /// Executes the instruction at the program counter.
    pub fn step(&mut self)
        requires
            !old(self)@.done(),
            old(self)@.fault() is None,
        ensures
            final(self)@ == old(self)@.step(),
            old(self)@.wf() ==> final(self)@.wf(),
    {
        proof {
            if old(self)@.wf() {
                lemma_step_preserves_wf(old(self)@);
            }
        }
        self.negative_flag = false;
        self.zero_flag = false;

        let next_instruction = self.program[self.program_counter as usize];
        if next_instruction == 0 {
            return ;
        }
        let instr = Instruction::new(next_instruction);
        let a_bus = if instr.a_mux() {
            MAR_REGISTER_IDX
        } else {
            instr.a_bus()
        };
        let b_bus = instr.b_bus();
        let s_bus = instr.s_bus();

        if instr.mar() {
            let val = self.registers.get(b_bus);
            self.registers.set(MAR_REGISTER_IDX, val);
        }
        let alu_result = self.alu_op(instr.alu(), a_bus, b_bus);

        self.negative_flag = alu_result < 0;
        self.zero_flag = alu_result == 0;

        let shifter_result = self.shifter_op(instr.sh(), alu_result);
        self.cond_op(instr.cond(), instr.addr());

        let commits = match self.write_back {
            WriteBack::Gated => instr.ens(),
            WriteBack::Always => true,
        };
        if commits {
            self.registers.set(s_bus, shifter_result);
        }
        if instr.ms() {
            let mar = self.registers.get(MAR_REGISTER_IDX);
            let mbr = self.registers.get(MBR_REGISTER_IDX);
            let address = (#[verifier::truncate] (mar as u16)) as usize;
            assert(address as int % 0x1_0000 == mar as int % 0x1_0000) by {
                assert((mar as u16) as int == if mar < 0 {
                    mar + 0x1_0000
                } else {
                    mar as int
                }) by (bit_vector);
            }
            if instr.rd_wr() {
                match self.memory.read(address) {
                    Some(val) => self.registers.set(MBR_REGISTER_IDX, val),
                    None => (),
                }
            } else {
                self.memory.write(address, mbr);
            }
        }
        self.program_counter = self.program_counter.wrapping_add(1);
        proof {
            old(self).registers.lemma_constants();
            assert(self@.registers =~= old(self)@.step().registers);
        }
    }

    /// Executes the instruction at the program counter, unless that would
    /// run into a fault: then the machine stays as it is and the fault is
    /// handed back.
    pub fn try_step(&mut self) -> (r: Result<(), Fault>)
        requires
            !old(self)@.done(),
        ensures
            match old(self)@.fault() {
                Some(fault) => r == Err::<(), Fault>(fault) && final(self)@ == old(self)@,
                None => r == Ok::<(), Fault>(()) && final(self)@ == old(self)@.step(),
            },
            old(self)@.wf() ==> final(self)@.wf(),
    {
        match self.pending_fault() {
            Some(fault) => Err(fault),
            None => {
                self.step();
                Ok(())
            },
        }
    }

    /// Runs the ALU on the registers at `a_bus` and `b_bus`.
    pub fn alu_op(&self, alu_mode: AluMode, a_bus: u8, b_bus: u8) -> (r: i16)
        requires
            a_bus < 16,
            b_bus < 16,
        ensures
            r == alu_result(
                alu_mode,
                self@.registers[a_bus as int],
                self@.registers[b_bus as int],
            ),
    {
        alu(alu_mode, self.registers.get(a_bus), self.registers.get(b_bus))
    }

    /// Runs the shifter on the ALU output.
    pub fn shifter_op(&self, shifter_mode: ShifterMode, alu_result: i16) -> (r: i16)
        ensures
            r == shifter_result(shifter_mode, alu_result),
    {
        shifter(shifter_mode, alu_result)
    }

    /// Lets the condition unit act on the program counter: it jumps to
    /// `addr` if the condition holds of the flags, and nothing else changes.
    pub fn cond_op(&mut self, cond_mode: CondMode, addr: u8)
        ensures
            final(self)@ == (CpuState {
                program_counter: branch_target(
                    cond_mode,
                    addr,
                    old(self)@.negative,
                    old(self)@.zero,
                    old(self)@.program_counter,
                ),
                ..old(self)@
            }),
    {
        self.program_counter = branch(
            cond_mode,
            addr,
            self.negative_flag,
            self.zero_flag,
            self.program_counter,
        );
    }
}

/// A step keeps the machine in shape: as long as it runs into no fault,
/// the register file keeps its sixteen slots and its three constants, the
/// memory keeps its size, and the program and the policy stay as they are.
pub proof fn lemma_step_preserves_wf(s: CpuState)
    requires
        s.wf(),
        !s.done(),
        s.fault() is None,
    ensures
        s.step().wf(),
        s.step().program == s.program,
        s.step().write_back == s.write_back,
{
    lemma_bus_fields_in_range(s.fetch());
}

/// The first memory stage after the unit was idle moves no data: the
/// registers and the cells stay as they are, and the unit is armed.
pub proof fn lemma_memory_stage_arms(f: Fields, registers: Seq<i16>, memory: MemoryState)
    requires
        f.ms,
        memory.phase == Phase::Idle,
    ensures
        memory_stage(f, registers, memory).0 == registers,
        memory_stage(f, registers, memory).1.cells == memory.cells,
        memory_stage(f, registers, memory).1.phase == Phase::Armed,
{
}

/// The memory stage that finds the unit armed moves the data and leaves
/// the unit idle: a read copies the addressed cell into the buffer
/// register and changes no cell, a write copies the buffer register into
/// the addressed cell and changes no register.
pub proof fn lemma_memory_stage_transfers(f: Fields, registers: Seq<i16>, memory: MemoryState)
    requires
        f.ms,
        memory.phase == Phase::Armed,
    ensures
        memory_stage(f, registers, memory).1.phase == Phase::Idle,
        f.rd_wr ==> memory_stage(f, registers, memory).1.cells == memory.cells
            && memory_stage(f, registers, memory).0 == registers.update(
            MBR_REGISTER_IDX as int,
            memory.cells[cell_of(registers[MAR_REGISTER_IDX as int] as int)],
        ),
        !f.rd_wr ==> memory_stage(f, registers, memory).0 == registers && memory_stage(
            f,
            registers,
            memory,
        ).1.cells == memory.cells.update(
            cell_of(registers[MAR_REGISTER_IDX as int] as int),
            registers[MBR_REGISTER_IDX as int],
        ),
{
}

/// The zero word is a fixed point: a machine that stands at one stays
/// there. Whatever the number of steps, the program counter, the registers
/// and the memory are the same, no fault comes up and the run never ends.
pub proof fn lemma_halt_is_permanent(s: CpuState, n: nat)
    requires
        s.halted(),
    ensures
        s.run(n).halted(),
        s.run(n).fault() is None,
        s.run(n).program_counter == s.program_counter,
        s.run(n).registers == s.registers,
        s.run(n).memory == s.memory,
        s.run(n).program == s.program,
        n > 0 ==> !s.run(n).negative && !s.run(n).zero,
    decreases n,
{
    if n > 0 {
        lemma_halt_is_permanent(s.step(), (n - 1) as nat);
    }
}

/// A program that starts with the zero word never leaves it: after any
/// number of steps the program counter is 0 and the run is not done.
pub proof fn lemma_zero_program_never_ends(program: Seq<u32>, n: nat)
    requires
        program.len() > 0,
        program[0] == 0,
    ensures
        CpuState::initial(program).run(n).program_counter == 0,
        !CpuState::initial(program).run(n).done(),
{
    lemma_halt_is_permanent(CpuState::initial(program), n);
}

/// A machine is done before its first step exactly if its program is
/// empty.
pub proof fn lemma_done_at_start(program: Seq<u32>)
    ensures
        CpuState::initial(program).done() <==> program.len() == 0,
{
}

/// Whether the step that the machine is about to take branches: its
/// condition holds of the flags that its own ALU output sets.
pub open spec fn branch_taken(s: CpuState) -> bool {
    let f = decode(s.fetch());
    let loaded = if f.mar {
        s.registers.update(MAR_REGISTER_IDX as int, s.registers[f.b_bus as int])
    } else {
        s.registers
    };
    let result = alu_result(f.alu, loaded[a_index(f) as int], loaded[f.b_bus as int]);
    &&& s.fetch() != 0
    &&& match f.cond {
        CondMode::NoOp => false,
        CondMode::IfNegative => result < 0,
        CondMode::IfZero => result == 0,
        CondMode::GoTo => true,
    }
}

/// The program counter advances after the condition unit has acted: a
/// taken branch to `addr` continues one word past `addr`, and a step that
/// does not branch and does not halt continues at the next word.
pub proof fn lemma_branch_overshoots(s: CpuState)
    requires
        !s.done(),
        s.fetch() != 0,
    ensures
        branch_taken(s) ==> s.step().program_counter == successor(decode(s.fetch()).addr),
        !branch_taken(s) ==> s.step().program_counter == successor(s.program_counter),
{
}

} // verus!
