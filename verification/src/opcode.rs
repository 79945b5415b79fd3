//! Decoding of one instruction word into an operation kind and the
//! addressing modes of its three operand slots.

use vstd::prelude::*;

verus! {

/// How the literal of an operand is interpreted.
#[derive(Debug, Clone, Copy, PartialEq, Eq, Structural)]
pub enum Mode {
    /// The literal is a memory address.
    AddressMode,
    /// The literal is the value itself.
    ImmediateMode,
    /// The literal is an offset from the base pointer.
    RelativeMode,
}

/// The operation selected by the two low decimal digits of an instruction word.
#[derive(Debug, Clone, Copy, PartialEq, Eq, Structural)]
pub enum OpCodeType {
    Add,
    AdjustBase,
    Halt,
    Input,
    JumpIfFalse,
    JumpIfTrue,
    Output,
    Multiply,
    TestEqual,
    TestLessThan,
}

/// A decoded instruction word: the operation and one mode per operand slot.
/// Operations with fewer than three operands leave the later slots unused.
#[derive(Debug, Clone, Copy, PartialEq, Eq, Structural)]
pub struct OpCode {
    pub opcode_type: OpCodeType,
    pub param1_mode: Mode,
    pub param2_mode: Mode,
    pub param3_mode: Mode,
}

/// An operand literal tagged with the mode it was encoded in.
#[derive(Debug, Clone, Copy, PartialEq, Eq, Structural)]
pub enum Operand {
    Address(isize),
    Immediate(isize),
    Relative(isize),
}

/// The operation that a two-digit operation number stands for.
pub open spec fn kind_of(number: int) -> Option<OpCodeType> {
    if number == 1 {
        Some(OpCodeType::Add)
    } else if number == 2 {
        Some(OpCodeType::Multiply)
    } else if number == 3 {
        Some(OpCodeType::Input)
    } else if number == 4 {
        Some(OpCodeType::Output)
    } else if number == 5 {
        Some(OpCodeType::JumpIfTrue)
    } else if number == 6 {
        Some(OpCodeType::JumpIfFalse)
    } else if number == 7 {
        Some(OpCodeType::TestLessThan)
    } else if number == 8 {
        Some(OpCodeType::TestEqual)
    } else if number == 9 {
        Some(OpCodeType::AdjustBase)
    } else if number == 99 {
        Some(OpCodeType::Halt)
    } else {
        None
    }
}

/// The addressing mode that a decimal digit stands for.
pub open spec fn mode_of(digit: int) -> Option<Mode> {
    if digit == 0 {
        Some(Mode::AddressMode)
    } else if digit == 1 {
        Some(Mode::ImmediateMode)
    } else if digit == 2 {
        Some(Mode::RelativeMode)
    } else {
        None
    }
}

/// The operand that a literal becomes under a mode.
pub open spec fn tag(mode: Mode, literal: isize) -> Operand {
    match mode {
        Mode::AddressMode => Operand::Address(literal),
        Mode::ImmediateMode => Operand::Immediate(literal),
        Mode::RelativeMode => Operand::Relative(literal),
    }
}

/// The number of operand words that follow the instruction word.
pub open spec fn arity(kind: OpCodeType) -> int {
    match kind {
        OpCodeType::Halt => 0,
        OpCodeType::Input | OpCodeType::Output | OpCodeType::AdjustBase => 1,
        OpCodeType::JumpIfTrue | OpCodeType::JumpIfFalse => 2,
        OpCodeType::Add | OpCodeType::Multiply | OpCodeType::TestLessThan
        | OpCodeType::TestEqual => 3,
    }
}

/// The meaning of an instruction word. The two low decimal digits name the
/// operation; the hundreds, thousands and ten-thousands digits are the modes
/// of the first, second and third operand. Digits above those are not read.
/// Negative words, unknown operation numbers and mode digits above 2 have no
/// meaning.
pub open spec fn decode(word: int) -> Option<OpCode> {
    let kind = kind_of(word % 100);
    let mode1 = mode_of(word / 100 % 10);
    let mode2 = mode_of(word / 1000 % 10);
    let mode3 = mode_of(word / 10000 % 10);
    if word >= 0 && kind is Some && mode1 is Some && mode2 is Some && mode3 is Some {
        Some(
            OpCode {
                opcode_type: kind->0,
                param1_mode: mode1->0,
                param2_mode: mode2->0,
                param3_mode: mode3->0,
            },
        )
    } else {
        None
    }
}

impl Mode {
    /// Reads a mode from one decimal digit.
    fn from_digit(digit: isize) -> (r: Option<Mode>)
        ensures
            r == mode_of(digit as int),
    {
        if digit == 0 {
            Some(Mode::AddressMode)
        } else if digit == 1 {
            Some(Mode::ImmediateMode)
        } else if digit == 2 {
            Some(Mode::RelativeMode)
        } else {
            None
        }
    }
}

impl OpCodeType {
    /// Reads an operation from its two-digit number.
    fn from_number(number: isize) -> (r: Option<OpCodeType>)
        ensures
            r == kind_of(number as int),
    {
        if number == 1 {
            Some(OpCodeType::Add)
        } else if number == 2 {
            Some(OpCodeType::Multiply)
        } else if number == 3 {
            Some(OpCodeType::Input)
        } else if number == 4 {
            Some(OpCodeType::Output)
        } else if number == 5 {
            Some(OpCodeType::JumpIfTrue)
        } else if number == 6 {
            Some(OpCodeType::JumpIfFalse)
        } else if number == 7 {
            Some(OpCodeType::TestLessThan)
        } else if number == 8 {
            Some(OpCodeType::TestEqual)
        } else if number == 9 {
            Some(OpCodeType::AdjustBase)
        } else if number == 99 {
            Some(OpCodeType::Halt)
        } else {
            None
        }
    }

    /// The number of operand words that this operation reads.
    pub fn operands(&self) -> (n: isize)
        ensures
            n == arity(*self),
    {
        match self {
            OpCodeType::Halt => 0,
            OpCodeType::Input | OpCodeType::Output | OpCodeType::AdjustBase => 1,
            OpCodeType::JumpIfTrue | OpCodeType::JumpIfFalse => 2,
            OpCodeType::Add | OpCodeType::Multiply | OpCodeType::TestLessThan
            | OpCodeType::TestEqual => 3,
        }
    }
}

impl OpCode {
    /// Decodes an instruction word, or fails where the word has no meaning.
    pub fn new(opcode: isize) -> (r: Result<OpCode, ()>)
        ensures
            r == match decode(opcode as int) {
                Some(decoded) => Ok::<OpCode, ()>(decoded),
                None => Err::<OpCode, ()>(()),
            },
    {
        if opcode < 0 {
            return Err(());
        }
        let opcode_type = match OpCodeType::from_number(opcode % 100) {
            Some(kind) => kind,
            None => {
                return Err(());
            },
        };
        let param1_mode = match Mode::from_digit(opcode / 100 % 10) {
            Some(mode) => mode,
            None => {
                return Err(());
            },
        };
        let param2_mode = match Mode::from_digit(opcode / 1000 % 10) {
            Some(mode) => mode,
            None => {
                return Err(());
            },
        };
        let param3_mode = match Mode::from_digit(opcode / 10000 % 10) {
            Some(mode) => mode,
            None => {
                return Err(());
            },
        };
        Ok(OpCode { opcode_type, param1_mode, param2_mode, param3_mode })
    }
}

impl Operand {
    /// Tags an operand literal with the mode it was encoded in.
    pub fn new(mode: Mode, argument: isize) -> (operand: Operand)
        ensures
            operand == tag(mode, argument),
    {
        match mode {
            Mode::AddressMode => Operand::Address(argument),
            Mode::ImmediateMode => Operand::Immediate(argument),
            Mode::RelativeMode => Operand::Relative(argument),
        }
    }
}

} // verus!
