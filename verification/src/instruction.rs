//! The instruction decoder: two independent, total lookup tables from an
//! opcode byte to an instruction, one for plain opcodes and one for opcodes
//! that follow the prefix byte.
use crate::registers::{Register, RegisterPair};
use vstd::prelude::*;

verus! {

/// The escape byte: the opcode that follows it is looked up in the prefixed
/// table.
pub const PREFIX: u8 = 0xCB;

/// Opcode of the no-op, in either table.
pub const NOOP: u8 = 0x00;

/// Opcode of the halt instruction.
pub const HALT: u8 = 0x76;

/// Opcodes of the 16-bit increments.
pub const INC_BC: u8 = 0x03;

pub const INC_DE: u8 = 0x13;

pub const INC_HL: u8 = 0x23;

/// Opcodes of the 8-bit additions to `A`, one per register operand.
pub const ADD_B: u8 = 0x80;

pub const ADD_C: u8 = 0x81;

pub const ADD_D: u8 = 0x82;

pub const ADD_E: u8 = 0x83;

pub const ADD_H: u8 = 0x84;

pub const ADD_L: u8 = 0x85;

pub const ADD_A: u8 = 0x87;

/// Opcodes of the absolute jumps, one per condition.
pub const JUMP_IF_NOT_ZERO: u8 = 0xC2;

pub const JUMP_ALWAYS: u8 = 0xC3;

pub const JUMP_IF_ZERO: u8 = 0xCA;

pub const JUMP_IF_NOT_CARRY: u8 = 0xD2;

pub const JUMP_IF_CARRY: u8 = 0xDA;

/// The condition under which a jump is taken.
#[derive(Debug, Copy, Clone, PartialEq, Eq, Structural)]
pub enum JumpTest {
    NotZero,
    Zero,
    NotCarry,
    Carry,
    Always,
}

/// An operand designator: an 8-bit register, a 16-bit pair, an immediate of
/// 8 or 16 bits, or the byte that `HL` points at. The instructions of the
/// present set name their operands by `Register` and `RegisterPair`; this is
/// the wider vocabulary for instructions whose operand may be of any kind.
#[derive(Debug, Copy, Clone, PartialEq, Eq, Structural)]
pub enum Target {
    A,
    B,
    C,
    D,
    E,
    F,
    H,
    L,
    AF,
    BC,
    DE,
    HL,
    D8,
    D16,
    HLI,
}

/// A decoded instruction, complete with its operand.
#[derive(Debug, Copy, Clone, PartialEq, Eq, Structural)]
pub enum Instruction {
    Noop,
    Halt,
    Add(Register),
    Inc(RegisterPair),
    Jump(JumpTest),
}

/// An opcode byte that has no entry in the table it was looked up in.
#[derive(Debug, Copy, Clone, PartialEq, Eq, Structural)]
pub struct DecodeError {
    /// The offending opcode byte.
    pub byte: u8,
    /// Whether the byte followed the prefix byte.
    pub prefixed: bool,
}

/// The plain table: the instruction that a byte stands for when no prefix
/// precedes it, if it stands for any.
pub open spec fn unprefixed_entry(byte: u8) -> Option<Instruction> {
    if byte == NOOP {
        Some(Instruction::Noop)
    } else if byte == HALT {
        Some(Instruction::Halt)
    } else if byte == INC_BC {
        Some(Instruction::Inc(RegisterPair::BC))
    } else if byte == INC_DE {
        Some(Instruction::Inc(RegisterPair::DE))
    } else if byte == INC_HL {
        Some(Instruction::Inc(RegisterPair::HL))
    } else if byte == ADD_B {
        Some(Instruction::Add(Register::B))
    } else if byte == ADD_C {
        Some(Instruction::Add(Register::C))
    } else if byte == ADD_D {
        Some(Instruction::Add(Register::D))
    } else if byte == ADD_E {
        Some(Instruction::Add(Register::E))
    } else if byte == ADD_H {
        Some(Instruction::Add(Register::H))
    } else if byte == ADD_L {
        Some(Instruction::Add(Register::L))
    } else if byte == ADD_A {
        Some(Instruction::Add(Register::A))
    } else if byte == JUMP_IF_NOT_ZERO {
        Some(Instruction::Jump(JumpTest::NotZero))
    } else if byte == JUMP_ALWAYS {
        Some(Instruction::Jump(JumpTest::Always))
    } else if byte == JUMP_IF_ZERO {
        Some(Instruction::Jump(JumpTest::Zero))
    } else if byte == JUMP_IF_NOT_CARRY {
        Some(Instruction::Jump(JumpTest::NotCarry))
    } else if byte == JUMP_IF_CARRY {
        Some(Instruction::Jump(JumpTest::Carry))
    } else {
        None
    }
}

/// The prefixed table: the instruction that a byte stands for when it follows
/// the prefix byte, if it stands for any.
pub open spec fn prefixed_entry(byte: u8) -> Option<Instruction> {
    if byte == NOOP {
        Some(Instruction::Noop)
    } else {
        None
    }
}

/// The entry of `byte` in the table that `prefixed` selects.
pub open spec fn table_entry(byte: u8, prefixed: bool) -> Option<Instruction> {
    if prefixed {
        prefixed_entry(byte)
    } else {
        unprefixed_entry(byte)
    }
}

/// Decoding as a total function: the table entry where there is one, else an
/// error that names the byte and the table.
pub open spec fn decode(byte: u8, prefixed: bool) -> Result<Instruction, DecodeError> {
    match table_entry(byte, prefixed) {
        Some(instruction) => Ok(instruction),
        None => Err(DecodeError { byte, prefixed }),
    }
}

impl Instruction {
    /// Decodes `byte` against the prefixed table if `prefixed`, else against
    /// the plain table. A byte without an entry is an error that carries the
    /// byte and the flag.
    pub fn of_byte(byte: u8, prefixed: bool) -> (result: Result<Instruction, DecodeError>)
        ensures
            result == decode(byte, prefixed),
            result is Ok <==> table_entry(byte, prefixed) is Some,
            result matches Err(error) ==> error.byte == byte && error.prefixed == prefixed,
    {
        if prefixed {
            Self::of_prefixed_byte(byte)
        } else {
            Self::of_unprefixed_byte(byte)
        }
    }

    /// Decodes `byte` against the plain table.
    pub fn of_unprefixed_byte(byte: u8) -> (result: Result<Instruction, DecodeError>)
        ensures
            result == decode(byte, false),
            result is Ok <==> unprefixed_entry(byte) is Some,
            result matches Err(error) ==> error.byte == byte && !error.prefixed,
    {
        match byte {
            NOOP => Ok(Instruction::Noop),
            HALT => Ok(Instruction::Halt),
            INC_BC => Ok(Instruction::Inc(RegisterPair::BC)),
            INC_DE => Ok(Instruction::Inc(RegisterPair::DE)),
            INC_HL => Ok(Instruction::Inc(RegisterPair::HL)),
            ADD_B => Ok(Instruction::Add(Register::B)),
            ADD_C => Ok(Instruction::Add(Register::C)),
            ADD_D => Ok(Instruction::Add(Register::D)),
            ADD_E => Ok(Instruction::Add(Register::E)),
            ADD_H => Ok(Instruction::Add(Register::H)),
            ADD_L => Ok(Instruction::Add(Register::L)),
            ADD_A => Ok(Instruction::Add(Register::A)),
            JUMP_IF_NOT_ZERO => Ok(Instruction::Jump(JumpTest::NotZero)),
            JUMP_ALWAYS => Ok(Instruction::Jump(JumpTest::Always)),
            JUMP_IF_ZERO => Ok(Instruction::Jump(JumpTest::Zero)),
            JUMP_IF_NOT_CARRY => Ok(Instruction::Jump(JumpTest::NotCarry)),
            JUMP_IF_CARRY => Ok(Instruction::Jump(JumpTest::Carry)),
            _ => Err(DecodeError { byte, prefixed: false }),
        }
    }

    /// Decodes `byte` against the prefixed table.
    pub fn of_prefixed_byte(byte: u8) -> (result: Result<Instruction, DecodeError>)
        ensures
            result == decode(byte, true),
            result is Ok <==> prefixed_entry(byte) is Some,
            result matches Err(error) ==> error.byte == byte && error.prefixed,
    {
        match byte {
            NOOP => Ok(Instruction::Noop),
            _ => Err(DecodeError { byte, prefixed: true }),
        }
    }
}

} // verus!
