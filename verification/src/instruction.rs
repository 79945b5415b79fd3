//! Instructions: an operation together with its mode-tagged operands.

use crate::machine::Machine;
use crate::opcode::{arity, OpCode, OpCodeType, Operand};
use vstd::prelude::*;

verus! {

/// One instruction as it stands in memory: the operation and the operands it
/// takes, each tagged with the addressing mode of its slot.
#[derive(Debug, Clone, Copy, PartialEq, Eq, Structural)]
pub enum Instruction {
    /// Store the sum of `op1` and `op2` at `address`.
    Add { op1: Operand, op2: Operand, address: Operand },
    /// Move the base pointer by the operand's value.
    AdjustBase(Operand),
    /// Stop the program.
    Halt,
    /// Read a value from input and store it at the operand's address.
    Input(Operand),
    /// Jump to the value of `address` if `condition` is zero.
    JumpIfFalse { condition: Operand, address: Operand },
    /// Jump to the value of `address` if `condition` is not zero.
    JumpIfTrue { condition: Operand, address: Operand },
    /// Store the product of `op1` and `op2` at `address`.
    Multiply { op1: Operand, op2: Operand, address: Operand },
    /// Emit the operand's value.
    Output(Operand),
    /// Store 1 at `address` if `op1` equals `op2`, else 0.
    TestEqual { op1: Operand, op2: Operand, address: Operand },
    /// Store 1 at `address` if `op1` is less than `op2`, else 0.
    TestLessThan { op1: Operand, op2: Operand, address: Operand },
}

impl Instruction {
    /// Reads the operands of the instruction at the machine's instruction
    /// pointer, whose word has been decoded to `opcode`. The operand words
    /// that the operation takes must lie at addresses that exist: none of
    /// them negative, none beyond the range of a cell.
    pub fn new(machine: &Machine, opcode: OpCode) -> (instruction: Instruction)
        requires
            arity(opcode.opcode_type) > 0 ==> 0 <= machine@.ip + 1,
            machine@.ip + arity(opcode.opcode_type) <= isize::MAX,
        ensures
            instruction == machine@.fetch(opcode),
    {
        let ip: isize = machine.get_ip();
        let OpCode { opcode_type, param1_mode, param2_mode, param3_mode } = opcode;
        match opcode_type {
            OpCodeType::Add => Instruction::Add {
                op1: Operand::new(param1_mode, machine.read_mem(ip + 1)),
                op2: Operand::new(param2_mode, machine.read_mem(ip + 2)),
                address: Operand::new(param3_mode, machine.read_mem(ip + 3)),
            },
            OpCodeType::AdjustBase => Instruction::AdjustBase(
                Operand::new(param1_mode, machine.read_mem(ip + 1)),
            ),
            OpCodeType::Halt => Instruction::Halt,
            OpCodeType::JumpIfFalse => Instruction::JumpIfFalse {
                condition: Operand::new(param1_mode, machine.read_mem(ip + 1)),
                address: Operand::new(param2_mode, machine.read_mem(ip + 2)),
            },
            OpCodeType::JumpIfTrue => Instruction::JumpIfTrue {
                condition: Operand::new(param1_mode, machine.read_mem(ip + 1)),
                address: Operand::new(param2_mode, machine.read_mem(ip + 2)),
            },
            OpCodeType::Input => Instruction::Input(
                Operand::new(param1_mode, machine.read_mem(ip + 1)),
            ),
            OpCodeType::Multiply => Instruction::Multiply {
                op1: Operand::new(param1_mode, machine.read_mem(ip + 1)),
                op2: Operand::new(param2_mode, machine.read_mem(ip + 2)),
                address: Operand::new(param3_mode, machine.read_mem(ip + 3)),
            },
            OpCodeType::Output => Instruction::Output(
                Operand::new(param1_mode, machine.read_mem(ip + 1)),
            ),
            OpCodeType::TestLessThan => Instruction::TestLessThan {
                op1: Operand::new(param1_mode, machine.read_mem(ip + 1)),
                op2: Operand::new(param2_mode, machine.read_mem(ip + 2)),
                address: Operand::new(param3_mode, machine.read_mem(ip + 3)),
            },
            OpCodeType::TestEqual => Instruction::TestEqual {
                op1: Operand::new(param1_mode, machine.read_mem(ip + 1)),
                op2: Operand::new(param2_mode, machine.read_mem(ip + 2)),
                address: Operand::new(param3_mode, machine.read_mem(ip + 3)),
            },
        }
    }
}

} // verus!
