//! The abstract machine: what one instruction does to memory, the
//! instruction pointer and the base pointer, stated over mathematical
//! sequences and integers. The executable machine is specified against it.

use crate::instruction::Instruction;
use crate::opcode::{arity, decode, tag, Mode, OpCode, OpCodeType, Operand};
use crate::text::{decimal, first_line, input_of, listed};
use vstd::prelude::*;

verus! {

/// Why the machine stopped without reaching a halt instruction.
#[derive(Debug, Clone, Copy, PartialEq, Eq, Structural)]
pub enum MachineError {
    /// The word at the instruction pointer names no operation, or one of its
    /// mode digits names no mode.
    Decode,
    /// A destination operand is encoded in immediate mode.
    Addressing,
    /// An effective address, or the instruction pointer, is negative.
    NegativeAddress,
    /// An input instruction was given no line that reads as an integer.
    InputParse,
    /// A sum, a product, the base pointer or the instruction pointer would
    /// leave the range of a memory cell.
    Overflow,
    /// A store addresses a cell beyond what memory can grow to.
    MemoryLimit,
    /// The instruction budget ran out before a halt instruction was reached.
    StepLimit,
}

/// What an instruction that ran without error asks of the machine's driver.
#[derive(Debug, Clone, Copy, PartialEq, Eq, Structural)]
pub enum Signal {
    /// Nothing: run the next instruction.
    Continue,
    /// Emit this value, then run the next instruction.
    Output(isize),
    /// Stop: a halt instruction was reached.
    Halt,
}

/// The state of a machine: base pointer, instruction pointer and the cells
/// that memory physically holds. Every cell beyond them reads as zero.
#[verifier::ext_equal]
pub struct State {
    pub bp: int,
    pub ip: int,
    pub mem: Seq<isize>,
}

/// How a run of the machine ended: the state it was left in, everything it
/// has emitted, and the value at address 0 where it reached a halt
/// instruction, or the error that stopped it.
#[verifier::ext_equal]
pub struct Run {
    pub state: State,
    pub output: Seq<isize>,
    pub result: Result<isize, MachineError>,
}

/// Whether a value can be held in a memory cell.
pub open spec fn fits(value: int) -> bool {
    isize::MIN <= value <= isize::MAX
}

/// The value read at an address: the cell's content, or zero beyond the
/// cells that memory holds.
pub open spec fn read_cell(mem: Seq<isize>, address: int) -> isize {
    if 0 <= address < mem.len() {
        mem[address]
    } else {
        0
    }
}

/// Whether a cell can be stored to: its address is non-negative and either
/// lies within memory or memory can grow to twice the address plus two cells.
pub open spec fn reachable(mem: Seq<isize>, address: int) -> bool {
    &&& 0 <= address <= isize::MAX
    &&& address < mem.len() || 2 * (address + 1) <= usize::MAX
}

/// Memory after a store. A store beyond the cells that memory holds first
/// grows it with zeros to twice the address plus two cells.
pub open spec fn write_cell(mem: Seq<isize>, address: int, value: isize) -> Seq<isize> {
    if address < mem.len() {
        mem.update(address, value)
    } else {
        (mem + Seq::new((2 * (address + 1) - mem.len()) as nat, |i: int| 0isize)).update(
            address,
            value,
        )
    }
}

/// The result of one of the four three-operand operations on two values.
pub open spec fn compute(kind: OpCodeType, a: int, b: int) -> int {
    match kind {
        OpCodeType::Add => a + b,
        OpCodeType::Multiply => a * b,
        OpCodeType::TestLessThan => if a < b {
            1
        } else {
            0
        },
        OpCodeType::TestEqual => if a == b {
            1
        } else {
            0
        },
        _ => 0,
    }
}

impl State {
    /// The state as text for diagnostics, on three lines: the cells of
    /// memory in square brackets, the base pointer, and the instruction
    /// pointer.
    pub open spec fn text(self) -> Seq<char> {
        "Memory: ["@ + listed(self.mem) + "]\nBase pointer: "@ + decimal(self.bp)
            + "\nInstruction pointer: "@ + decimal(self.ip) + "\n"@
    }

    /// A machine that has just been loaded with a program.
    pub open spec fn initial(program: Seq<isize>) -> State {
        State { bp: 0, ip: 0, mem: program }
    }

    /// The address that an operand in address or relative mode refers to.
    pub open spec fn effective(self, operand: Operand) -> int {
        match operand {
            Operand::Address(address) => address as int,
            Operand::Immediate(literal) => literal as int,
            Operand::Relative(offset) => self.bp + offset,
        }
    }

    /// The value of a source operand: the literal in immediate mode, else
    /// the cell at the effective address.
    pub open spec fn value(self, operand: Operand) -> Result<isize, MachineError> {
        if operand is Immediate {
            Ok(operand->Immediate_0)
        } else if self.effective(operand) < 0 {
            Err(MachineError::NegativeAddress)
        } else {
            Ok(read_cell(self.mem, self.effective(operand)))
        }
    }

    /// The address of a destination operand, which is never in immediate mode
    /// and must be a cell that can be stored to.
    pub open spec fn destination(self, operand: Operand) -> Result<isize, MachineError> {
        if operand is Immediate {
            Err(MachineError::Addressing)
        } else if self.effective(operand) < 0 {
            Err(MachineError::NegativeAddress)
        } else if !reachable(self.mem, self.effective(operand)) {
            Err(MachineError::MemoryLimit)
        } else {
            Ok(self.effective(operand) as isize)
        }
    }

    /// The operand in slot `k` of the instruction at the instruction pointer.
    pub open spec fn operand(self, mode: Mode, k: int) -> Operand {
        tag(mode, read_cell(self.mem, self.ip + k))
    }

    /// The instruction at the instruction pointer, given its decoded word:
    /// as many operands as the operation takes, each tagged with the mode of
    /// its slot.
    pub open spec fn fetch(self, opcode: OpCode) -> Instruction {
        let op1 = self.operand(opcode.param1_mode, 1);
        let op2 = self.operand(opcode.param2_mode, 2);
        let op3 = self.operand(opcode.param3_mode, 3);
        match opcode.opcode_type {
            OpCodeType::Add => Instruction::Add { op1: op1, op2: op2, address: op3 },
            OpCodeType::AdjustBase => Instruction::AdjustBase(op1),
            OpCodeType::Halt => Instruction::Halt,
            OpCodeType::Input => Instruction::Input(op1),
            OpCodeType::JumpIfFalse => Instruction::JumpIfFalse { condition: op1, address: op2 },
            OpCodeType::JumpIfTrue => Instruction::JumpIfTrue { condition: op1, address: op2 },
            OpCodeType::Multiply => Instruction::Multiply { op1: op1, op2: op2, address: op3 },
            OpCodeType::Output => Instruction::Output(op1),
            OpCodeType::TestEqual => Instruction::TestEqual { op1: op1, op2: op2, address: op3 },
            OpCodeType::TestLessThan => Instruction::TestLessThan {
                op1: op1,
                op2: op2,
                address: op3,
            },
        }
    }

    /// The state with the instruction pointer moved past an instruction of
    /// the given width.
    pub open spec fn advance(self, width: int) -> Result<State, MachineError> {
        if fits(self.ip + width) {
            Ok(State { ip: self.ip + width, ..self })
        } else {
            Err(MachineError::Overflow)
        }
    }

    /// A three-operand operation. A destination in immediate mode is
    /// refused before anything else; then both values are resolved, then
    /// the destination, and the result is stored and the instruction
    /// pointer moves on by four.
    pub open spec fn binary(
        self,
        kind: OpCodeType,
        op1: Operand,
        op2: Operand,
        address: Operand,
    ) -> Result<State, MachineError> {
        let a = self.value(op1);
        let b = self.value(op2);
        let to = self.destination(address);
        if address is Immediate {
            Err(MachineError::Addressing)
        } else if a is Err {
            Err(a->Err_0)
        } else if b is Err {
            Err(b->Err_0)
        } else if to is Err {
            Err(to->Err_0)
        } else if !fits(compute(kind, a->Ok_0 as int, b->Ok_0 as int)) {
            Err(MachineError::Overflow)
        } else {
            State {
                mem: write_cell(
                    self.mem,
                    to->Ok_0 as int,
                    compute(kind, a->Ok_0 as int, b->Ok_0 as int) as isize,
                ),
                ..self
            }.advance(4)
        }
    }

    /// A conditional jump: both operands are resolved; the instruction
    /// pointer becomes the target where the condition is nonzero exactly if
    /// `if_nonzero` is set, and moves on by three where it is not.
    pub open spec fn jump(self, condition: Operand, address: Operand, if_nonzero: bool) -> Result<
        State,
        MachineError,
    > {
        let c = self.value(condition);
        let target = self.value(address);
        if c is Err {
            Err(c->Err_0)
        } else if target is Err {
            Err(target->Err_0)
        } else if (c->Ok_0 != 0) == if_nonzero {
            Ok(State { ip: target->Ok_0 as int, ..self })
        } else {
            self.advance(3)
        }
    }

    /// An input instruction: the destination is resolved, then the value
    /// read from the input line is stored there.
    pub open spec fn receive(self, operand: Operand, input: Option<isize>) -> Result<
        State,
        MachineError,
    > {
        let to = self.destination(operand);
        if to is Err {
            Err(to->Err_0)
        } else if input is None {
            Err(MachineError::InputParse)
        } else {
            State { mem: write_cell(self.mem, to->Ok_0 as int, input->0), ..self }.advance(2)
        }
    }

    /// An output instruction: the operand's value is emitted.
    pub open spec fn emit(self, operand: Operand) -> Result<(State, Signal), MachineError> {
        let v = self.value(operand);
        if v is Err {
            Err(v->Err_0)
        } else if self.advance(2) is Err {
            Err(MachineError::Overflow)
        } else {
            Ok((self.advance(2)->Ok_0, Signal::Output(v->Ok_0)))
        }
    }

    /// An adjustment of the base pointer by the operand's value.
    pub open spec fn adjust(self, operand: Operand) -> Result<State, MachineError> {
        let v = self.value(operand);
        if v is Err {
            Err(v->Err_0)
        } else if !fits(self.bp + v->Ok_0) {
            Err(MachineError::Overflow)
        } else {
            State { bp: self.bp + v->Ok_0, ..self }.advance(2)
        }
    }

    /// What an instruction does to the state, and what it asks of the
    /// driver. `input` is the integer read from the line that an input
    /// instruction consumes, or `None` where that line holds no integer.
    pub open spec fn effect(self, instruction: Instruction, input: Option<isize>) -> Result<
        (State, Signal),
        MachineError,
    > {
        match instruction {
            Instruction::Halt => Ok((self, Signal::Halt)),
            Instruction::Output(operand) => self.emit(operand),
            _ => {
                let next = match instruction {
                    Instruction::Add { op1, op2, address } => self.binary(
                        OpCodeType::Add,
                        op1,
                        op2,
                        address,
                    ),
                    Instruction::Multiply { op1, op2, address } => self.binary(
                        OpCodeType::Multiply,
                        op1,
                        op2,
                        address,
                    ),
                    Instruction::TestLessThan { op1, op2, address } => self.binary(
                        OpCodeType::TestLessThan,
                        op1,
                        op2,
                        address,
                    ),
                    Instruction::TestEqual { op1, op2, address } => self.binary(
                        OpCodeType::TestEqual,
                        op1,
                        op2,
                        address,
                    ),
                    Instruction::JumpIfTrue { condition, address } => self.jump(
                        condition,
                        address,
                        true,
                    ),
                    Instruction::JumpIfFalse { condition, address } => self.jump(
                        condition,
                        address,
                        false,
                    ),
                    Instruction::Input(operand) => self.receive(operand, input),
                    _ => self.adjust(instruction->AdjustBase_0),
                };
                match next {
                    Ok(state) => Ok((state, Signal::Continue)),
                    Err(e) => Err(e),
                }
            },
        }
    }

    /// The decoded word at the instruction pointer, where there is one.
    pub open spec fn opcode(self) -> Result<OpCode, MachineError> {
        if self.ip < 0 {
            Err(MachineError::NegativeAddress)
        } else if decode(read_cell(self.mem, self.ip) as int) is None {
            Err(MachineError::Decode)
        } else if !fits(self.ip + arity(decode(read_cell(self.mem, self.ip) as int)->0.opcode_type)) {
            Err(MachineError::Overflow)
        } else {
            Ok(decode(read_cell(self.mem, self.ip) as int)->0)
        }
    }

    /// Whether the next instruction consumes a line of input.
    pub open spec fn awaits_input(self) -> bool {
        self.opcode() matches Ok(opcode) && opcode.opcode_type == OpCodeType::Input
    }

    /// One turn of the fetch-decode-execute loop: the next state and the
    /// signal to the driver, or the error that stops the machine.
    pub open spec fn step(self, input: Option<isize>) -> Result<(State, Signal), MachineError> {
        match self.opcode() {
            Ok(opcode) => self.effect(self.fetch(opcode), input),
            Err(e) => Err(e),
        }
    }

    /// A run of at most `budget` instructions, the halt instruction
    /// included, on the lines of `input`, with what it emits appended to
    /// `output`. Each input instruction consumes the first line that is
    /// left, or an empty line once the input is used up. The run ends at a
    /// halt instruction, at the first error, or with an error when the
    /// budget is spent. A failing instruction leaves the state as it found
    /// it.
    pub open spec fn run(self, input: Seq<char>, output: Seq<isize>, budget: nat) -> Run
        decreases budget,
    {
        let line = first_line(input);
        let (value, rest) = if self.awaits_input() {
            (input_of(line), input.skip(line.len() as int))
        } else {
            (None, input)
        };
        if budget == 0 {
            Run { state: self, output: output, result: Err(MachineError::StepLimit) }
        } else {
            match self.step(value) {
                Err(e) => Run { state: self, output: output, result: Err(e) },
                Ok((state, Signal::Halt)) => Run {
                    state: state,
                    output: output,
                    result: Ok(read_cell(state.mem, 0)),
                },
                Ok((state, Signal::Continue)) => state.run(rest, output, (budget - 1) as nat),
                Ok((state, Signal::Output(value))) => state.run(
                    rest,
                    output.push(value),
                    (budget - 1) as nat,
                ),
            }
        }
    }

    /// The state after `n` more instructions, as far as they run without
    /// error and without input.
    pub open spec fn after(self, n: nat) -> State
        decreases n,
    {
        if n == 0 {
            self
        } else {
            match self.step(None) {
                Ok((state, _)) => state.after((n - 1) as nat),
                Err(_) => self,
            }
        }
    }

    /// Whether the next `n` instructions are additions and multiplications
    /// that run without error, and the instruction behind them is a halt.
    pub open spec fn straight(self, n: nat) -> bool
        decreases n,
    {
        if n == 0 {
            self.opcode() matches Ok(opcode) && opcode.opcode_type == OpCodeType::Halt
        } else {
            &&& self.opcode() matches Ok(opcode) && (opcode.opcode_type == OpCodeType::Add
                || opcode.opcode_type == OpCodeType::Multiply)
            &&& self.step(None) matches Ok((state, _)) && state.straight((n - 1) as nat)
        }
    }
}

} // verus!
