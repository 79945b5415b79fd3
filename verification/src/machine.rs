//! The executable machine: memory, instruction pointer and base pointer,
//! and the fetch-decode-execute loop over them.

use crate::instruction::Instruction;
use crate::model::{reachable, read_cell, write_cell, MachineError, Signal, State};
use crate::opcode::{OpCode, OpCodeType, Operand};
use crate::text::{
    chars_of, line_end, parse_program, parse_range, program_of, push_decimal, push_listed,
    trim_range,
};
use vstd::prelude::*;
use vstd::string::StringExecFns;

verus! {

/// An Intcode machine. Its base pointer, instruction pointer and memory all
/// change while a program runs.
#[derive(Debug)]
pub struct Machine {
    bp: isize,
    ip: isize,
    mem: Vec<isize>,
}

impl View for Machine {
    type V = State;

    closed spec fn view(&self) -> State {
        State { bp: self.bp as int, ip: self.ip as int, mem: self.mem@ }
    }
}

impl Machine {
    /// A machine loaded with the program that a text stands for: integers
    /// separated by commas. Both pointers start at zero.
    pub fn new(src: &str) -> (machine: Machine)
        requires
            program_of(src@) is Some,
        ensures
            machine@ == State::initial(program_of(src@)->0),
    {
        match parse_program(src) {
            Some(mem) => Machine::with_memory(mem),
            None => unreached(),
        }
    }

    /// A machine loaded with the given memory, both pointers at zero.
    pub fn with_memory(mem: Vec<isize>) -> (machine: Machine)
        ensures
            machine@ == State::initial(mem@),
    {
        Machine { bp: 0, ip: 0, mem }
    }

    /// The cells that memory physically holds.
    pub fn dump(&self) -> (mem: &[isize])
        ensures
            mem@ == self@.mem,
    {
        self.mem.as_slice()
    }

    /// The base pointer.
    pub fn get_bp(&self) -> (bp: isize)
        ensures
            bp == self@.bp,
    {
        self.bp
    }

    /// The instruction pointer.
    pub fn get_ip(&self) -> (ip: isize)
        ensures
            ip == self@.ip,
    {
        self.ip
    }

    /// Reads the cell at a non-negative address. Cells beyond those that
    /// memory holds read as zero, and reading never changes memory.
    pub fn read_mem(&self, address: isize) -> (value: isize)
        requires
            0 <= address,
        ensures
            value == read_cell(self@.mem, address as int),
            address >= self@.mem.len() ==> value == 0,
    {
        self.cell(address as usize)
    }

    /// The cell at an index, or zero beyond the cells that memory holds.
    fn cell(&self, index: usize) -> (value: isize)
        ensures
            value == read_cell(self@.mem, index as int),
    {
        if self.mem.len() <= index {
            0
        } else {
            self.mem[index]
        }
    }

    /// Stores a value at a non-negative address that memory can reach,
    /// growing memory with zeros where the address lies beyond it.
    pub fn write_mem(&mut self, address: isize, value: isize)
        requires
            reachable(old(self)@.mem, address as int),
        ensures
            final(self)@ == (State {
                mem: write_cell(old(self)@.mem, address as int, value),
                ..old(self)@
            }),
    {
        let address: usize = address as usize;
        if self.mem.len() <= address {
            self.mem.resize(2 * (address + 1), 0);
        }
        self.mem[address] = value;
    }

    /// Resolves a source operand to its value.
    pub fn convert_operand(&self, operand: Operand) -> (value: Result<isize, MachineError>)
        ensures
            value == self@.value(operand),
    {
        match operand {
            Operand::Address(address) => {
                if address < 0 {
                    Err(MachineError::NegativeAddress)
                } else {
                    Ok(self.read_mem(address))
                }
            },
            Operand::Immediate(literal) => Ok(literal),
            Operand::Relative(offset) => {
                match self.bp.checked_add(offset) {
                    Some(address) => {
                        if address < 0 {
                            Err(MachineError::NegativeAddress)
                        } else {
                            Ok(self.read_mem(address))
                        }
                    },
                    None => {
                        if offset < 0 {
                            Err(MachineError::NegativeAddress)
                        } else {
                            Ok(self.cell(self.bp as usize + offset as usize))
                        }
                    },
                }
            },
        }
    }

    /// Whether memory can hold a cell at this non-negative address, growing
    /// if it has to.
    fn reaches(&self, address: isize) -> (r: bool)
        requires
            0 <= address,
        ensures
            r == reachable(self@.mem, address as int),
    {
        let address: usize = address as usize;
        address < self.mem.len() || address < usize::MAX / 2
    }

    /// Resolves a destination operand to the address it names. An operand
    /// in immediate mode names none.
    pub fn convert_address(&self, address: Operand) -> (target: Result<isize, MachineError>)
        ensures
            target == self@.destination(address),
    {
        let effective: isize = match address {
            Operand::Address(address) => address,
            Operand::Immediate(_) => {
                return Err(MachineError::Addressing);
            },
            Operand::Relative(offset) => {
                match self.bp.checked_add(offset) {
                    Some(address) => address,
                    None => {
                        if offset < 0 {
                            return Err(MachineError::NegativeAddress);
                        } else {
                            return Err(MachineError::MemoryLimit);
                        }
                    },
                }
            },
        };
        if effective < 0 {
            Err(MachineError::NegativeAddress)
        } else if !self.reaches(effective) {
            Err(MachineError::MemoryLimit)
        } else {
            Ok(effective)
        }
    }

    /// Describes the machine for diagnostics: its memory, base pointer and
    /// instruction pointer, each on a line of its own.
    pub fn write_state(&self) -> (text: String)
        ensures
            text@ == self@.text(),
    {
        let mut text: String = String::from_str("Memory: [");
        push_listed(&mut text, self.mem.as_slice());
        text.append("]\nBase pointer: ");
        push_decimal(&mut text, self.bp);
        text.append("\nInstruction pointer: ");
        push_decimal(&mut text, self.ip);
        text.append("\n");
        text
    }

    /// Decodes the word at the instruction pointer and makes sure that the
    /// operand words it takes lie at addresses that exist.
    fn opcode(&self) -> (opcode: Result<OpCode, MachineError>)
        ensures
            opcode == self@.opcode(),
    {
        if self.ip < 0 {
            return Err(MachineError::NegativeAddress);
        }
        match OpCode::new(self.read_mem(self.ip)) {
            Ok(opcode) => {
                if self.ip > isize::MAX - opcode.opcode_type.operands() {
                    Err(MachineError::Overflow)
                } else {
                    Ok(opcode)
                }
            },
            Err(_) => Err(MachineError::Decode),
        }
    }

    /// Whether the next instruction is an input instruction, which consumes
    /// a line of input when it is run.
    pub fn awaits_input(&self) -> (awaits: bool)
        ensures
            awaits == self@.awaits_input(),
    {
        match self.opcode() {
            Ok(opcode) => opcode.opcode_type == OpCodeType::Input,
            Err(_) => false,
        }
    }

    /// The instruction pointer after an instruction of the given width.
    fn advanced(&self, width: isize) -> (ip: Result<isize, MachineError>)
        ensures
            ip == match self@.advance(width as int) {
                Ok(state) => Ok::<isize, MachineError>(state.ip as isize),
                Err(e) => Err::<isize, MachineError>(e),
            },
            ip is Ok ==> ip->Ok_0 == self@.ip + width,
    {
        match self.ip.checked_add(width) {
            Some(ip) => Ok(ip),
            None => Err(MachineError::Overflow),
        }
    }

    /// Runs a three-operand instruction.
    fn binary(&mut self, kind: OpCodeType, op1: Operand, op2: Operand, address: Operand) -> (r:
        Result<(), MachineError>)
        ensures
            match old(self)@.binary(kind, op1, op2, address) {
                Ok(state) => r is Ok && final(self)@ == state,
                Err(e) => r == Err::<(), MachineError>(e) && final(self)@ == old(self)@,
            },
    {
        if let Operand::Immediate(_) = address {
            return Err(MachineError::Addressing);
        }
        let a: isize = self.convert_operand(op1)?;
        let b: isize = self.convert_operand(op2)?;
        let to: isize = self.convert_address(address)?;
        let result: Option<isize> = match kind {
            OpCodeType::Add => a.checked_add(b),
            OpCodeType::Multiply => a.checked_mul(b),
            OpCodeType::TestLessThan => Some(
                if a < b {
                    1
                } else {
                    0
                },
            ),
            OpCodeType::TestEqual => Some(
                if a == b {
                    1
                } else {
                    0
                },
            ),
            _ => Some(0),
        };
        match result {
            Some(value) => {
                let ip: isize = self.advanced(4)?;
                self.write_mem(to, value);
                self.ip = ip;
                Ok(())
            },
            None => Err(MachineError::Overflow),
        }
    }

    /// Runs a conditional jump.
    fn jump(&mut self, condition: Operand, address: Operand, if_nonzero: bool) -> (r: Result<
        (),
        MachineError,
    >)
        ensures
            match old(self)@.jump(condition, address, if_nonzero) {
                Ok(state) => r is Ok && final(self)@ == state,
                Err(e) => r == Err::<(), MachineError>(e) && final(self)@ == old(self)@,
            },
    {
        let condition: isize = self.convert_operand(condition)?;
        let target: isize = self.convert_operand(address)?;
        if (condition != 0) == if_nonzero {
            self.ip = target;
        } else {
            self.ip = self.advanced(3)?;
        }
        Ok(())
    }

    /// Runs an input instruction on the integer read from its line.
    fn receive(&mut self, operand: Operand, input: Option<isize>) -> (r: Result<
        (),
        MachineError,
    >)
        ensures
            match old(self)@.receive(operand, input) {
                Ok(state) => r is Ok && final(self)@ == state,
                Err(e) => r == Err::<(), MachineError>(e) && final(self)@ == old(self)@,
            },
    {
        let to: isize = self.convert_address(operand)?;
        match input {
            Some(value) => {
                let ip: isize = self.advanced(2)?;
                self.write_mem(to, value);
                self.ip = ip;
                Ok(())
            },
            None => Err(MachineError::InputParse),
        }
    }

    /// Runs an adjustment of the base pointer.
    fn adjust(&mut self, operand: Operand) -> (r: Result<(), MachineError>)
        ensures
            match old(self)@.adjust(operand) {
                Ok(state) => r is Ok && final(self)@ == state,
                Err(e) => r == Err::<(), MachineError>(e) && final(self)@ == old(self)@,
            },
    {
        let delta: isize = self.convert_operand(operand)?;
        match self.bp.checked_add(delta) {
            Some(bp) => {
                self.ip = self.advanced(2)?;
                self.bp = bp;
                Ok(())
            },
            None => Err(MachineError::Overflow),
        }
    }

    /// Applies an instruction that was read at the instruction pointer. On
    /// an error the machine is left as it was.
    pub fn apply(&mut self, instruction: Instruction, input: Option<isize>) -> (r: Result<
        Signal,
        MachineError,
    >)
        ensures
            match old(self)@.effect(instruction, input) {
                Ok((state, signal)) => r == Ok::<Signal, MachineError>(signal) && final(self)@
                    == state,
                Err(e) => r == Err::<Signal, MachineError>(e) && final(self)@ == old(self)@,
            },
    {
        match instruction {
            Instruction::Halt => {
                return Ok(Signal::Halt);
            },
            Instruction::Output(operand) => {
                let value: isize = self.convert_operand(operand)?;
                self.ip = self.advanced(2)?;
                return Ok(Signal::Output(value));
            },
            Instruction::Add { op1, op2, address } => {
                self.binary(OpCodeType::Add, op1, op2, address)?;
            },
            Instruction::Multiply { op1, op2, address } => {
                self.binary(OpCodeType::Multiply, op1, op2, address)?;
            },
            Instruction::TestLessThan { op1, op2, address } => {
                self.binary(OpCodeType::TestLessThan, op1, op2, address)?;
            },
            Instruction::TestEqual { op1, op2, address } => {
                self.binary(OpCodeType::TestEqual, op1, op2, address)?;
            },
            Instruction::JumpIfTrue { condition, address } => {
                self.jump(condition, address, true)?;
            },
            Instruction::JumpIfFalse { condition, address } => {
                self.jump(condition, address, false)?;
            },
            Instruction::Input(operand) => {
                self.receive(operand, input)?;
            },
            Instruction::AdjustBase(operand) => {
                self.adjust(operand)?;
            },
        }
        Ok(Signal::Continue)
    }

    /// Runs the instruction at the instruction pointer. `input` is handed to
    /// an input instruction and is otherwise not looked at: it is the integer
    /// on the line that the instruction consumes, or `None` where the line
    /// holds none. On an error the machine is left as it was.
    pub fn step(&mut self, input: Option<isize>) -> (r: Result<Signal, MachineError>)
        ensures
            match old(self)@.step(input) {
                Ok((state, signal)) => r == Ok::<Signal, MachineError>(signal) && final(self)@
                    == state,
                Err(e) => r == Err::<Signal, MachineError>(e) && final(self)@ == old(self)@,
            },
    {
        let opcode: OpCode = self.opcode()?;
        let instruction: Instruction = Instruction::new(&*self, opcode);
        self.apply(instruction, input)
    }

    /// Runs the program until it halts, fails, or has run `budget`
    /// instructions. Each input instruction consumes the next line of
    /// `input`; each output instruction appends its value to `output`.
    /// Returns the value at address 0 once a halt instruction is reached.
    pub fn execute(&mut self, input: &str, output: &mut Vec<isize>, budget: u64) -> (r: Result<
        isize,
        MachineError,
    >)
        ensures
            ({
                let run = old(self)@.run(input@, old(output)@, budget as nat);
                final(self)@ == run.state && final(output)@ == run.output && r == run.result
            }),
    {
        let chars: Vec<char> = chars_of(input);
        let mut pos: usize = 0;
        let mut left: u64 = budget;
        assert(chars@.skip(0) == input@);
        loop
            invariant
                pos <= chars.len(),
                old(self)@.run(input@, old(output)@, budget as nat) == self@.run(
                    chars@.skip(pos as int),
                    output@,
                    left as nat,
                ),
            decreases left,
        {
            if left == 0 {
                return Err(MachineError::StepLimit);
            }
            let ghost rest = chars@.skip(pos as int);
            let value: Option<isize> = if self.awaits_input() {
                let end: usize = line_end(&chars, pos);
                let (from, to) = trim_range(&chars, pos, end);
                let value: Option<isize> = parse_range(&chars, from, to);
                proof {
                    assert(rest.take(end - pos) == chars@.subrange(pos as int, end as int));
                    assert(rest.skip(end - pos) == chars@.skip(end as int));
                }
                pos = end;
                value
            } else {
                None
            };
            match self.step(value) {
                Ok(Signal::Halt) => {
                    return Ok(self.read_mem(0));
                },
                Ok(Signal::Continue) => {},
                Ok(Signal::Output(value)) => {
                    output.push(value);
                },
                Err(e) => {
                    return Err(e);
                },
            }
            left -= 1;
        }
    }
}

} // verus!
