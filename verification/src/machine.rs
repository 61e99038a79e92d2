//! The engine as a state machine: its state as contracts see it, the
//! transition that one step makes, and what holds of every step.
use crate::bus::MemorySurface;
use crate::cpu::{StepResult, UnimplementedError};
use crate::instruction::{
    decode, table_entry, unprefixed_entry, DecodeError, Instruction, JumpTest, HALT, PREFIX,
};
use crate::registers::{
    lemma_flags_round_trip, pair_value, wrap_u16, wrap_u8, FlagsRegister, Register, RegisterPair, Registers,
};
use vstd::prelude::*;

verus! {

/// The engine as contracts see it.
pub struct Machine<M> {
    pub registers: Registers,
    pub pc: u16,
    pub sp: u16,
    pub bus: M,
    pub halted: bool,
}

/// The flags that adding `operand` to `a` leaves behind: zero if the sum is
/// zero modulo 256, half-carry if the low nibbles carry into bit 4, carry if
/// the sum does not fit in eight bits.
pub open spec fn add_flags(a: u8, operand: u8) -> FlagsRegister {
    FlagsRegister {
        zero: wrap_u8(a + operand) == 0,
        subtract: false,
        half_carry: (a & 0xF) + (operand & 0xF) > 0xF,
        carry: a + operand > 0xFF,
    }
}

/// The register file after the register `operand` is added to `A`.
pub open spec fn after_add(registers: Registers, operand: Register) -> Registers {
    let value = registers.spec_get(operand);
    Registers { a: wrap_u8(registers.a + value), f: add_flags(registers.a, value), ..registers }
}

/// The register file after `pair` is incremented, modulo 2^16. The pair is
/// written back through its setter, so for `AF` the increment falls into the
/// nibble that is not stored.
pub open spec fn after_inc(registers: Registers, pair: RegisterPair) -> Registers {
    match pair {
        RegisterPair::AF => registers.with_af(wrap_u16(registers.spec_af() + 1)),
        RegisterPair::BC => registers.with_bc(wrap_u16(registers.spec_bc() + 1)),
        RegisterPair::DE => registers.with_de(wrap_u16(registers.spec_de() + 1)),
        RegisterPair::HL => registers.with_hl(wrap_u16(registers.spec_hl() + 1)),
        RegisterPair::HLI | RegisterPair::HLD => registers,
    }
}

/// Whether the flags meet the condition of a jump.
pub open spec fn jump_taken(flags: FlagsRegister, test: JumpTest) -> bool {
    match test {
        JumpTest::Always => true,
        JumpTest::Zero => flags.zero,
        JumpTest::NotZero => !flags.zero,
        JumpTest::Carry => flags.carry,
        JumpTest::NotCarry => !flags.carry,
    }
}

/// Whether the engine has a handler for the instruction. An increment through
/// the addressing modes `HLI` and `HLD` has none.
pub open spec fn has_handler(instruction: Instruction) -> bool {
    instruction != Instruction::Inc(RegisterPair::HLI) && instruction != Instruction::Inc(RegisterPair::HLD)
}

impl<M: MemorySurface> Machine<M> {
    /// The byte at the program counter.
    pub open spec fn next_byte(self) -> u8 {
        self.bus.byte_at(self.pc)
    }

    /// The little-endian word at the program counter: the byte there is the
    /// low byte, the byte after it the high byte.
    pub open spec fn next_word(self) -> u16 {
        pair_value(self.bus.byte_at(wrap_u16(self.pc + 1)), self.bus.byte_at(self.pc))
    }

    /// The machine with its program counter moved on by `count`, modulo 2^16.
    pub open spec fn advanced(self, count: int) -> Machine<M> {
        Machine { pc: wrap_u16(self.pc + count), ..self }
    }

    /// The machine after the handler of `instruction` has run. The program
    /// counter stands behind the opcode when the handler starts.
    pub open spec fn executed(self, instruction: Instruction) -> Machine<M> {
        match instruction {
            Instruction::Noop => self,
            Instruction::Halt => Machine { halted: true, ..self },
            Instruction::Add(operand) => Machine { registers: after_add(self.registers, operand), ..self },
            Instruction::Inc(pair) => Machine { registers: after_inc(self.registers, pair), ..self },
            Instruction::Jump(test) => if jump_taken(self.registers.f, test) {
                Machine { pc: self.next_word(), ..self }
            } else {
                self.advanced(2)
            },
        }
    }

    /// What executing one decoded instruction does: nothing on a halted
    /// machine or for an instruction without a handler, else the handler's
    /// effect.
    pub open spec fn run(self, instruction: Instruction) -> (Machine<M>, StepResult) {
        if self.halted {
            (self, StepResult::Halted)
        } else if !has_handler(instruction) {
            (self, StepResult::Unimplemented(UnimplementedError { instruction }))
        } else {
            let after = self.executed(instruction);
            (after, if after.halted { StepResult::Halted } else { StepResult::Success })
        }
    }

    /// Whether the opcode at the program counter is the prefix byte.
    pub open spec fn prefixed(self) -> bool {
        self.next_byte() == PREFIX
    }

    /// The opcode that a step decodes: the byte at the program counter, or
    /// the byte after it where the first is the prefix byte.
    pub open spec fn opcode(self) -> u8 {
        if self.prefixed() {
            self.advanced(1).next_byte()
        } else {
            self.next_byte()
        }
    }

    /// The number of bytes that the opcode takes, prefix included.
    pub open spec fn opcode_len(self) -> int {
        if self.prefixed() {
            2
        } else {
            1
        }
    }

    /// What one step does: the transition function of the engine.
    pub open spec fn stepped(self) -> (Machine<M>, StepResult) {
        if self.halted {
            (self, StepResult::Halted)
        } else {
            match decode(self.opcode(), self.prefixed()) {
                Err(error) => (self, StepResult::DecodeError(error)),
                Ok(instruction) => if has_handler(instruction) {
                    self.advanced(self.opcode_len()).run(instruction)
                } else {
                    (self, StepResult::Unimplemented(UnimplementedError { instruction }))
                },
            }
        }
    }
}

/// An increment changes no flag, whichever pair it names: `BC`, `DE` and `HL`
/// then read one higher, modulo 2^16, and `AF` reads as before, because the
/// increment falls into the low nibble of the flags byte.
pub proof fn lemma_inc_keeps_flags(registers: Registers, pair: RegisterPair)
    ensures
        after_inc(registers, pair).f == registers.f,
        pair == RegisterPair::AF ==> after_inc(registers, pair) == registers,
        pair == RegisterPair::BC ==> after_inc(registers, pair).spec_bc() == wrap_u16(
            registers.spec_bc() + 1,
        ),
        pair == RegisterPair::DE ==> after_inc(registers, pair).spec_de() == wrap_u16(
            registers.spec_de() + 1,
        ),
        pair == RegisterPair::HL ==> after_inc(registers, pair).spec_hl() == wrap_u16(
            registers.spec_hl() + 1,
        ),
{
    if pair == RegisterPair::AF {
        // The packed flags end in four zero bits, so adding one carries into
        // nothing: it sets bit 0 only, which holds no flag.
        let packed = registers.f.spec_to_byte();
        lemma_flags_round_trip(registers.f);
        assert(packed < 255) by (bit_vector)
            requires
                packed & 0x0F == 0,
        ;
        let bumped = (packed + 1) as u8;
        assert({
            &&& (bumped & 0x80 != 0) == (packed & 0x80 != 0)
            &&& (bumped & 0x40 != 0) == (packed & 0x40 != 0)
            &&& (bumped & 0x20 != 0) == (packed & 0x20 != 0)
            &&& (bumped & 0x10 != 0) == (packed & 0x10 != 0)
        }) by (bit_vector)
            requires
                packed & 0x0F == 0,
                bumped == packed + 1,
        ;
    }
}

/// Every instruction that the decoder yields has a handler.
pub proof fn lemma_decoded_has_handler(byte: u8, prefixed: bool)
    ensures
        table_entry(byte, prefixed) matches Some(instruction) ==> has_handler(instruction),
{
}

/// A step never ends as unimplemented: it executes only what the decoder
/// yields, and all of that has a handler.
pub proof fn lemma_step_never_unimplemented<M: MemorySurface>(machine: Machine<M>)
    ensures
        !(machine.stepped().1 is Unimplemented),
{
    lemma_decoded_has_handler(machine.opcode(), machine.prefixed());
}

/// Halted is terminal: a halted machine refuses every step and every
/// instruction, and is left exactly as it was.
pub proof fn lemma_halted_is_terminal<M: MemorySurface>(machine: Machine<M>, instruction: Instruction)
    requires
        machine.halted,
    ensures
        machine.stepped() == (machine, StepResult::Halted),
        machine.run(instruction) == (machine, StepResult::Halted),
{
}

/// A step reports that the machine is halted exactly when it leaves it
/// halted, and a step that ends in an error leaves the machine as it was.
pub proof fn lemma_step_outcomes<M: MemorySurface>(machine: Machine<M>)
    ensures
        (machine.stepped().1 is Halted) == machine.stepped().0.halted,
        machine.stepped().1 is DecodeError || machine.stepped().1 is Unimplemented
            ==> machine.stepped().0 == machine,
        machine.stepped().1 matches StepResult::DecodeError(error) ==> error == (DecodeError {
            byte: machine.opcode(),
            prefixed: machine.prefixed(),
        }),
        machine.stepped().0.bus == machine.bus,
        machine.stepped().0.sp == machine.sp,
{
}

/// After the halt instruction has executed the machine is halted, the
/// program counter stands behind the opcode, and nothing else has changed.
pub proof fn lemma_step_of_halt<M: MemorySurface>(machine: Machine<M>)
    requires
        !machine.halted,
        machine.next_byte() == HALT,
    ensures
        machine.stepped() == (Machine { halted: true, ..machine.advanced(1) }, StepResult::Halted),
{
}

/// A step over a jump ends behind the whole instruction when the condition
/// fails, and at the target when it holds. The target is the little-endian
/// word behind the opcode. Nothing but the program counter changes.
pub proof fn lemma_step_of_jump<M: MemorySurface>(machine: Machine<M>, test: JumpTest)
    requires
        !machine.halted,
        unprefixed_entry(machine.next_byte()) == Some(Instruction::Jump(test)),
    ensures
        machine.stepped().1 == StepResult::Success,
        machine.stepped().0 == (Machine { pc: machine.stepped().0.pc, ..machine }),
        jump_taken(machine.registers.f, test) ==> machine.stepped().0.pc == pair_value(
            machine.bus.byte_at(wrap_u16(machine.pc + 2)),
            machine.bus.byte_at(wrap_u16(machine.pc + 1)),
        ),
        !jump_taken(machine.registers.f, test) ==> machine.stepped().0.pc == wrap_u16(machine.pc + 3),
{
}

/// A step over an addition leaves the sum modulo 256 in `A`, sets the flags
/// from the addition, and moves the program counter behind the opcode.
pub proof fn lemma_step_of_add<M: MemorySurface>(machine: Machine<M>, operand: Register)
    requires
        !machine.halted,
        unprefixed_entry(machine.next_byte()) == Some(Instruction::Add(operand)),
    ensures
        machine.stepped().1 == StepResult::Success,
        machine.stepped().0 == (Machine {
            registers: after_add(machine.registers, operand),
            pc: wrap_u16(machine.pc + 1),
            ..machine
        }),
        machine.stepped().0.registers.a == wrap_u8(
            machine.registers.a + machine.registers.spec_get(operand),
        ),
        machine.stepped().0.registers.f.zero == (machine.stepped().0.registers.a == 0),
        !machine.stepped().0.registers.f.subtract,
        machine.stepped().0.registers.f.carry == (machine.registers.a + machine.registers.spec_get(
            operand,
        ) > 0xFF),
{
}

/// A step reads memory through `byte_at` alone: two machines that agree on
/// registers, program counter, stack pointer and halted flag, and whose
/// memory surfaces hold the same bytes, take the same step.
pub proof fn lemma_step_reads_bytes_only<M: MemorySurface, N: MemorySurface>(a: Machine<M>, b: Machine<N>)
    requires
        a.registers == b.registers,
        a.pc == b.pc,
        a.sp == b.sp,
        a.halted == b.halted,
        forall|address: u16| a.bus.byte_at(address) == b.bus.byte_at(address),
    ensures
        a.stepped().1 == b.stepped().1,
        a.stepped().0.registers == b.stepped().0.registers,
        a.stepped().0.pc == b.stepped().0.pc,
        a.stepped().0.sp == b.stepped().0.sp,
        a.stepped().0.halted == b.stepped().0.halted,
{
}

} // verus!
