//! The execution engine: it owns the register file, the program counter, the
//! stack pointer and the halted flag, holds a memory surface, and executes one
//! instruction per step.
use crate::bus::{Bus, MemorySurface};
use crate::instruction::{table_entry, DecodeError, Instruction, JumpTest, PREFIX};
use crate::machine::{after_add, after_inc, has_handler, jump_taken, lemma_inc_keeps_flags, Machine};
use crate::registers::{join_bytes, wrap_u16, Register, RegisterPair, Registers};
use vstd::prelude::*;

verus! {

/// An instruction that the decoder knows but that has no handler.
#[derive(Debug, Copy, Clone, PartialEq, Eq, Structural)]
pub struct UnimplementedError {
    /// The instruction that was refused.
    pub instruction: Instruction,
}

/// How a step ended.
#[derive(Debug, Copy, Clone, PartialEq, Eq, Structural)]
pub enum StepResult {
    /// One instruction was executed and the engine is still running.
    Success,
    /// The engine is halted: either this step executed the halt instruction,
    /// or the engine was halted already and the step did nothing.
    Halted,
    /// The opcode has no entry in its table. The engine is as it was.
    DecodeError(DecodeError),
    /// The instruction has no handler. The engine is as it was.
    Unimplemented(UnimplementedError),
}

/// The execution engine.
#[derive(Debug)]
pub struct CPU<M> {
    registers: Registers,
    pc: u16,
    sp: u16,
    bus: M,
    halted: bool,
}

impl<M> View for CPU<M> {
    type V = Machine<M>;

    closed spec fn view(&self) -> Machine<M> {
        Machine { registers: self.registers, pc: self.pc, sp: self.sp, bus: self.bus, halted: self.halted }
    }
}

impl CPU<Bus> {
    /// A running engine over a fresh, zeroed bus: registers, program counter
    /// and stack pointer are all zero.
    pub fn new() -> (cpu: CPU<Bus>)
        ensures
            cpu@.registers == Registers::spec_new(),
            cpu@.pc == 0,
            cpu@.sp == 0,
            !cpu@.halted,
            forall|address: u16| cpu@.bus.byte_at(address) == 0,
    {
        let bus = Bus::new();
        CPU { registers: Registers::new(), pc: 0x0, sp: 0x0, bus, halted: false }
    }
}

impl<M: MemorySurface> CPU<M> {
    /// A running engine with the given registers, program counter and stack
    /// pointer, over the memory surface `bus`.
    pub fn with_state(registers: Registers, pc: u16, sp: u16, bus: M) -> (cpu: CPU<M>)
        ensures
            cpu@ == (Machine { registers, pc, sp, bus, halted: false }),
    {
        CPU { registers, pc, sp, bus, halted: false }
    }

    /// The register file.
    pub fn registers(&self) -> (registers: Registers)
        ensures
            registers == self@.registers,
    {
        self.registers
    }

    /// The program counter.
    pub fn pc(&self) -> (pc: u16)
        ensures
            pc == self@.pc,
    {
        self.pc
    }

    /// The stack pointer.
    pub fn sp(&self) -> (sp: u16)
        ensures
            sp == self@.sp,
    {
        self.sp
    }

    /// Whether the engine is halted. A driver stops stepping once this holds.
    pub fn halted(&self) -> (halted: bool)
        ensures
            halted == self@.halted,
    {
        self.halted
    }

    /// The memory surface.
    pub fn bus(&self) -> (bus: &M)
        ensures
            *bus == self@.bus,
    {
        &self.bus
    }

    /// Reads the byte at the program counter and moves the counter on by one,
    /// modulo 2^16. This is the raw fetch: it does not look at the halted flag.
    pub fn chomp_byte(&mut self) -> (value: u8)
        ensures
            value == old(self)@.next_byte(),
            final(self)@ == old(self)@.advanced(1),
    {
        let value = self.bus.read(self.pc);
        self.pc = self.pc.wrapping_add(1);
        value
    }

    /// Reads the little-endian word at the program counter and moves the
    /// counter on by two, modulo 2^16. This is the raw fetch: it does not look
    /// at the halted flag.
    pub fn chomp_word(&mut self) -> (value: u16)
        ensures
            value == old(self)@.next_word(),
            final(self)@ == old(self)@.advanced(2),
    {
        let low = self.bus.read(self.pc);
        let high = self.bus.read(self.pc.wrapping_add(1));
        self.pc = self.pc.wrapping_add(2);
        join_bytes(high, low)
    }

    /// Executes one instruction: fetches the opcode at the program counter,
    /// and the byte after it where the first is the prefix byte; decodes it;
    /// and runs its handler.
    ///
    /// A halted engine refuses the step. A step that ends in an error leaves
    /// the engine as it was, the program counter still at the opcode.
    pub fn step(&mut self) -> (result: StepResult)
        ensures
            (final(self)@, result) == old(self)@.stepped(),
            old(self)@.halted ==> result == StepResult::Halted && final(self)@ == old(self)@,
            (result is Halted) == final(self)@.halted,
            result is DecodeError || result is Unimplemented ==> final(self)@ == old(self)@,
            result matches StepResult::DecodeError(error) ==> {
                &&& error.byte == old(self)@.opcode()
                &&& error.prefixed == old(self)@.prefixed()
                &&& table_entry(error.byte, error.prefixed) is None
            },
            final(self)@.bus == old(self)@.bus,
            final(self)@.sp == old(self)@.sp,
    {
        if self.halted {
            return StepResult::Halted;
        }
        let start = self.pc;
        let first = self.chomp_byte();
        let prefixed = first == PREFIX;
        let opcode = if prefixed {
            self.chomp_byte()
        } else {
            first
        };
        match Instruction::of_byte(opcode, prefixed) {
            Err(error) => {
                self.pc = start;
                StepResult::DecodeError(error)
            },
            Ok(instruction) => {
                let result = self.execute(instruction);
                if let StepResult::Unimplemented(_) = result {
                    self.pc = start;
                }
                result
            },
        }
    }

    /// Executes one decoded instruction, as a step does once it has decoded
    /// the opcode: the program counter is taken to stand behind the opcode.
    ///
    /// A halted engine refuses the instruction. An instruction without a
    /// handler is reported and leaves the engine as it was.
    pub fn execute(&mut self, instruction: Instruction) -> (result: StepResult)
        ensures
            (final(self)@, result) == old(self)@.run(instruction),
            old(self)@.halted ==> result == StepResult::Halted && final(self)@ == old(self)@,
            (result is Halted) == final(self)@.halted,
            !(result is DecodeError),
            result is Unimplemented <==> !old(self)@.halted && !has_handler(instruction),
            result matches StepResult::Unimplemented(error) ==> {
                &&& error.instruction == instruction
                &&& final(self)@ == old(self)@
            },
            final(self)@.bus == old(self)@.bus,
            final(self)@.sp == old(self)@.sp,
    {
        if self.halted {
            return StepResult::Halted;
        }
        match instruction {
            Instruction::Noop => self.noop(),
            Instruction::Halt => self.halt(),
            Instruction::Add(target) => self.add(target),
            Instruction::Inc(target) => {
                if !self.inc(target) {
                    return StepResult::Unimplemented(UnimplementedError { instruction });
                }
            },
            Instruction::Jump(test) => self.jump(test),
        }
        if self.halted {
            StepResult::Halted
        } else {
            StepResult::Success
        }
    }

    /// The no-op: nothing changes.
    fn noop(&mut self)
        ensures
            final(self)@ == old(self)@,
    {
    }

    /// Halts the engine: the halted flag is set, nothing else changes.
    fn halt(&mut self)
        ensures
            final(self)@ == (Machine { halted: true, ..old(self)@ }),
    {
        self.halted = true;
    }

    /// Adds the register `target` to `A`, modulo 256, and sets all four flags
    /// from the addition.
    fn add(&mut self, target: Register)
        ensures
            final(self)@ == (Machine { registers: after_add(old(self)@.registers, target), ..old(self)@ }),
    {
        let a = self.registers.a;
        let value = self.registers.get(target);
        let sum: u16 = a as u16 + value as u16;
        let new_value = a.wrapping_add(value);
        assert((a & 0xF) <= 0xF && (value & 0xF) <= 0xF) by (bit_vector);
        self.registers.f.zero = new_value == 0;
        self.registers.f.subtract = false;
        self.registers.f.carry = sum > 0xFF;
        self.registers.f.half_carry = (a & 0xF) + (value & 0xF) > 0xF;
        self.registers.a = new_value;
    }

    /// Increments the pair `target`, modulo 2^16, and says whether it did: the
    /// addressing modes `HLI` and `HLD` name no pair to increment, and for them
    /// nothing changes. No flag changes in either case.
    fn inc(&mut self, target: RegisterPair) -> (handled: bool)
        ensures
            handled == has_handler(Instruction::Inc(target)),
            final(self)@ == (Machine { registers: after_inc(old(self)@.registers, target), ..old(self)@ }),
            final(self)@.registers.f == old(self)@.registers.f,
            !handled ==> final(self)@ == old(self)@,
    {
        proof {
            lemma_inc_keeps_flags(self.registers, target);
        }
        match target {
            RegisterPair::AF => {
                let value = self.registers.af();
                self.registers.set_af(value.wrapping_add(1));
                true
            },
            RegisterPair::BC => {
                let value = self.registers.bc();
                self.registers.set_bc(value.wrapping_add(1));
                true
            },
            RegisterPair::DE => {
                let value = self.registers.de();
                self.registers.set_de(value.wrapping_add(1));
                true
            },
            RegisterPair::HL => {
                let value = self.registers.hl();
                self.registers.set_hl(value.wrapping_add(1));
                true
            },
            RegisterPair::HLI | RegisterPair::HLD => false,
        }
    }

    /// Reads the jump target that follows the opcode and jumps there if the
    /// flags meet `test`. Whether the jump is taken or not, the operand is
    /// consumed: a jump that is not taken leaves the program counter behind
    /// the two operand bytes.
    fn jump(&mut self, test: JumpTest)
        ensures
            final(self)@ == old(self)@.executed(Instruction::Jump(test)),
            jump_taken(old(self)@.registers.f, test) ==> final(self)@.pc == old(self)@.next_word(),
            !jump_taken(old(self)@.registers.f, test) ==> final(self)@.pc == wrap_u16(old(self)@.pc + 2),
    {
        let flags = self.registers.f;
        let should_jump = match test {
            JumpTest::Always => true,
            JumpTest::Zero => flags.zero,
            JumpTest::NotZero => !flags.zero,
            JumpTest::Carry => flags.carry,
            JumpTest::NotCarry => !flags.carry,
        };
        let target = self.chomp_word();
        if should_jump {
            self.pc = target;
        }
    }
}

} // verus!
