use intcode::instruction::Instruction;
use intcode::machine::Machine;
use intcode::model::{MachineError, Signal};
use intcode::opcode::{Mode, OpCode, OpCodeType, Operand};

fn stepped(cells: Vec<isize>) -> (Machine, Result<Signal, MachineError>) {
    let mut machine = Machine::with_memory(cells);
    let result = machine.step(None);
    (machine, result)
}

fn refused(cells: Vec<isize>, error: MachineError) {
    let (machine, result) = stepped(cells.clone());
    assert_eq!(result, Err(error));
    assert_eq!(machine.dump(), &cells[..]);
    assert_eq!(machine.get_ip(), 0);
    assert_eq!(machine.get_bp(), 0);
}

#[test]
fn a_new_machine_holds_its_program() {
    let machine = Machine::new("1,0,0,0,99\n");
    assert_eq!(machine.dump(), &[1, 0, 0, 0, 99][..]);
    assert_eq!(machine.get_ip(), 0);
    assert_eq!(machine.get_bp(), 0);
    let machine = Machine::with_memory(vec![]);
    assert!(machine.dump().is_empty());
}

#[test]
fn reading_beyond_memory_gives_zero_and_changes_nothing() {
    let machine = Machine::with_memory(vec![5, 6, 7]);
    assert_eq!(machine.read_mem(0), 5);
    assert_eq!(machine.read_mem(2), 7);
    assert_eq!(machine.read_mem(3), 0);
    assert_eq!(machine.read_mem(1_000_000), 0);
    assert_eq!(machine.read_mem(isize::MAX), 0);
    assert_eq!(machine.dump(), &[5, 6, 7][..]);
}

#[test]
fn writing_within_memory_keeps_its_extent() {
    let mut machine = Machine::with_memory(vec![5, 6, 7]);
    machine.write_mem(2, -1);
    assert_eq!(machine.dump(), &[5, 6, -1][..]);
    machine.write_mem(0, 9);
    assert_eq!(machine.dump(), &[9, 6, -1][..]);
}

#[test]
fn writing_beyond_memory_grows_it_with_zeros() {
    let mut machine = Machine::with_memory(vec![1, 2, 3]);
    machine.write_mem(5, 9);
    assert_eq!(machine.dump(), &[1, 2, 3, 0, 0, 9, 0, 0, 0, 0, 0, 0][..]);
    for address in 3..20 {
        assert_eq!(machine.read_mem(address), if address == 5 { 9 } else { 0 });
    }
    let mut machine = Machine::with_memory(vec![1, 2, 3]);
    machine.write_mem(3, 4);
    assert_eq!(machine.dump(), &[1, 2, 3, 4, 0, 0, 0, 0][..]);
    let mut machine = Machine::with_memory(vec![]);
    machine.write_mem(0, 4);
    assert_eq!(machine.dump(), &[4, 0][..]);
}

#[test]
fn source_operands_resolve_to_values() {
    let mut machine = Machine::with_memory(vec![109, 2, 99, 40, 50]);
    assert_eq!(machine.step(None), Ok(Signal::Continue));
    assert_eq!(machine.get_bp(), 2);
    assert_eq!(machine.convert_operand(Operand::Address(3)), Ok(40));
    assert_eq!(machine.convert_operand(Operand::Address(77)), Ok(0));
    assert_eq!(machine.convert_operand(Operand::Immediate(3)), Ok(3));
    assert_eq!(machine.convert_operand(Operand::Immediate(-3)), Ok(-3));
    assert_eq!(machine.convert_operand(Operand::Relative(2)), Ok(50));
    assert_eq!(machine.convert_operand(Operand::Relative(-2)), Ok(109));
    assert_eq!(machine.convert_operand(Operand::Relative(isize::MAX)), Ok(0));
    assert_eq!(machine.convert_operand(Operand::Address(-1)), Err(MachineError::NegativeAddress));
    assert_eq!(machine.convert_operand(Operand::Relative(-3)), Err(MachineError::NegativeAddress));
    assert_eq!(
        machine.convert_operand(Operand::Relative(isize::MIN)),
        Err(MachineError::NegativeAddress)
    );
}

#[test]
fn destination_operands_resolve_to_addresses() {
    let mut machine = Machine::with_memory(vec![109, 2, 99, 40, 50]);
    assert_eq!(machine.step(None), Ok(Signal::Continue));
    assert_eq!(machine.convert_address(Operand::Address(3)), Ok(3));
    assert_eq!(machine.convert_address(Operand::Address(77)), Ok(77));
    assert_eq!(machine.convert_address(Operand::Relative(2)), Ok(4));
    assert_eq!(machine.convert_address(Operand::Relative(-2)), Ok(0));
    assert_eq!(machine.convert_address(Operand::Immediate(3)), Err(MachineError::Addressing));
    assert_eq!(machine.convert_address(Operand::Address(-1)), Err(MachineError::NegativeAddress));
    assert_eq!(machine.convert_address(Operand::Relative(-3)), Err(MachineError::NegativeAddress));
    assert_eq!(
        machine.convert_address(Operand::Address(isize::MAX)),
        Err(MachineError::MemoryLimit)
    );
    assert_eq!(
        machine.convert_address(Operand::Relative(isize::MAX)),
        Err(MachineError::MemoryLimit)
    );
}

#[test]
fn adjust_base_moves_the_base_pointer() {
    let mut machine = Machine::with_memory(vec![109, 19, 109, -25, 9, 1, 99]);
    assert_eq!(machine.step(None), Ok(Signal::Continue));
    assert_eq!((machine.get_bp(), machine.get_ip()), (19, 2));
    assert_eq!(machine.step(None), Ok(Signal::Continue));
    assert_eq!((machine.get_bp(), machine.get_ip()), (-6, 4));
    assert_eq!(machine.step(None), Ok(Signal::Continue));
    assert_eq!((machine.get_bp(), machine.get_ip()), (13, 6));
    assert_eq!(machine.dump(), &[109, 19, 109, -25, 9, 1, 99][..]);
}

#[test]
fn relative_operands_are_offsets_from_the_base_pointer() {
    let mut machine = Machine::with_memory(vec![109, 10, 22201, -3, -2, 1, 99, 4, 5]);
    assert_eq!(machine.step(None), Ok(Signal::Continue));
    assert_eq!(machine.step(None), Ok(Signal::Continue));
    assert_eq!(machine.read_mem(11), 9);
    assert_eq!(machine.get_ip(), 6);
}

#[test]
fn immediate_destinations_are_refused() {
    refused(vec![11101, 1, 1, 0, 99], MachineError::Addressing);
    refused(vec![11102, 1, 1, 0, 99], MachineError::Addressing);
    refused(vec![11107, 1, 1, 0, 99], MachineError::Addressing);
    refused(vec![11108, 1, 1, 0, 99], MachineError::Addressing);
    refused(vec![10001, -1, -1, 0, 99], MachineError::Addressing);
    let mut machine = Machine::with_memory(vec![103, 0, 99]);
    assert_eq!(machine.step(Some(5)), Err(MachineError::Addressing));
    assert_eq!(machine.dump(), &[103, 0, 99][..]);
}

#[test]
fn jump_if_true_jumps_on_nonzero() {
    let (machine, result) = stepped(vec![1105, 7, 40]);
    assert_eq!(result, Ok(Signal::Continue));
    assert_eq!(machine.get_ip(), 40);
    let (machine, result) = stepped(vec![1105, 0, 40]);
    assert_eq!(result, Ok(Signal::Continue));
    assert_eq!(machine.get_ip(), 3);
    let (machine, result) = stepped(vec![5, 1, 2]);
    assert_eq!(result, Ok(Signal::Continue));
    assert_eq!(machine.get_ip(), 2);
}

#[test]
fn jump_if_false_jumps_on_zero() {
    let (machine, result) = stepped(vec![1106, 0, 40]);
    assert_eq!(result, Ok(Signal::Continue));
    assert_eq!(machine.get_ip(), 40);
    let (machine, result) = stepped(vec![1106, -1, 40]);
    assert_eq!(result, Ok(Signal::Continue));
    assert_eq!(machine.get_ip(), 3);
    let (machine, result) = stepped(vec![2106, 0, 1, 77]);
    assert_eq!(result, Ok(Signal::Continue));
    assert_eq!(machine.get_ip(), 0);
    let (machine, result) = stepped(vec![6, 3, 1, 0]);
    assert_eq!(result, Ok(Signal::Continue));
    assert_eq!(machine.get_ip(), 3);
}

#[test]
fn a_jump_to_a_negative_address_fails_at_the_next_step() {
    let (mut machine, result) = stepped(vec![1105, 1, -4]);
    assert_eq!(result, Ok(Signal::Continue));
    assert_eq!(machine.get_ip(), -4);
    assert_eq!(machine.step(None), Err(MachineError::NegativeAddress));
    assert_eq!(machine.get_ip(), -4);
    assert!(!machine.awaits_input());
}

#[test]
fn malformed_words_are_decode_errors() {
    refused(vec![0], MachineError::Decode);
    refused(vec![42, 0, 0, 0], MachineError::Decode);
    refused(vec![301, 0, 0, 0], MachineError::Decode);
    refused(vec![-1, 0, 0, 0], MachineError::Decode);
    refused(vec![], MachineError::Decode);
}

#[test]
fn running_off_the_end_is_a_decode_error() {
    let mut machine = Machine::new("1,0,0,0");
    let mut output = Vec::new();
    assert_eq!(machine.execute("", &mut output, 10), Err(MachineError::Decode));
    assert_eq!(machine.get_ip(), 4);
    assert_eq!(machine.dump(), &[2, 0, 0, 0][..]);
}

#[test]
fn negative_addresses_are_refused() {
    refused(vec![1, -1, 0, 0, 99], MachineError::NegativeAddress);
    refused(vec![1, 0, -1, 0, 99], MachineError::NegativeAddress);
    refused(vec![1, 0, 0, -1, 99], MachineError::NegativeAddress);
    refused(vec![4, -1, 99], MachineError::NegativeAddress);
    refused(vec![204, -1, 99], MachineError::NegativeAddress);
    refused(vec![9, -2, 99], MachineError::NegativeAddress);
    refused(vec![5, -7, 0], MachineError::NegativeAddress);
    refused(vec![5, 0, -7], MachineError::NegativeAddress);
    let mut machine = Machine::with_memory(vec![3, -1, 99]);
    assert_eq!(machine.step(Some(5)), Err(MachineError::NegativeAddress));
}

#[test]
fn results_beyond_a_cell_are_overflow_errors() {
    refused(vec![1101, isize::MAX, 1, 0, 99], MachineError::Overflow);
    refused(vec![1101, isize::MIN, -1, 0, 99], MachineError::Overflow);
    refused(vec![1102, isize::MAX, 2, 0, 99], MachineError::Overflow);
    refused(vec![1102, isize::MIN, -1, 0, 99], MachineError::Overflow);
    let mut machine = Machine::with_memory(vec![109, isize::MAX, 109, 1, 99]);
    assert_eq!(machine.step(None), Ok(Signal::Continue));
    assert_eq!(machine.step(None), Err(MachineError::Overflow));
    assert_eq!((machine.get_bp(), machine.get_ip()), (isize::MAX, 2));
    let (machine, result) = stepped(vec![1101, isize::MAX, 0, 0, 99]);
    assert_eq!(result, Ok(Signal::Continue));
    assert_eq!(machine.read_mem(0), isize::MAX);
}

#[test]
fn stores_beyond_what_memory_can_hold_are_refused() {
    refused(vec![1101, 1, 1, isize::MAX, 99], MachineError::MemoryLimit);
    let mut machine = Machine::with_memory(vec![3, isize::MAX, 99]);
    assert_eq!(machine.step(Some(5)), Err(MachineError::MemoryLimit));
}

#[test]
fn input_is_handed_to_input_instructions_only() {
    let mut machine = Machine::with_memory(vec![3, 7, 1101, 1, 1, 0, 99, 0]);
    assert!(machine.awaits_input());
    assert_eq!(machine.step(Some(-8)), Ok(Signal::Continue));
    assert_eq!(machine.read_mem(7), -8);
    assert_eq!(machine.get_ip(), 2);
    assert!(!machine.awaits_input());
    assert_eq!(machine.step(Some(1234)), Ok(Signal::Continue));
    assert_eq!(machine.dump(), &[2, 7, 1101, 1, 1, 0, 99, -8][..]);
    let mut machine = Machine::with_memory(vec![3, 5, 99]);
    assert_eq!(machine.step(None), Err(MachineError::InputParse));
    assert_eq!(machine.get_ip(), 0);
}

#[test]
fn output_is_signalled() {
    let mut machine = Machine::with_memory(vec![4, 3, 104, -9, 99]);
    assert!(!machine.awaits_input());
    assert_eq!(machine.step(None), Ok(Signal::Output(-9)));
    assert_eq!(machine.step(None), Ok(Signal::Output(-9)));
    assert_eq!(machine.get_ip(), 4);
    assert_eq!(machine.step(None), Ok(Signal::Halt));
    assert_eq!(machine.get_ip(), 4);
}

#[test]
fn instructions_are_read_with_their_operands() {
    let machine = Machine::with_memory(vec![21002, 4, 3, 4, 33]);
    let opcode = OpCode::new(machine.read_mem(0)).unwrap();
    assert_eq!(
        Instruction::new(&machine, opcode),
        Instruction::Multiply {
            op1: Operand::Address(4),
            op2: Operand::Immediate(3),
            address: Operand::Relative(4),
        }
    );
    let modes = |kind| OpCode {
        opcode_type: kind,
        param1_mode: Mode::RelativeMode,
        param2_mode: Mode::ImmediateMode,
        param3_mode: Mode::AddressMode,
    };
    let a = Operand::Relative(4);
    let b = Operand::Immediate(3);
    let c = Operand::Address(4);
    let expected = [
        (OpCodeType::Add, Instruction::Add { op1: a, op2: b, address: c }),
        (OpCodeType::Multiply, Instruction::Multiply { op1: a, op2: b, address: c }),
        (OpCodeType::TestLessThan, Instruction::TestLessThan { op1: a, op2: b, address: c }),
        (OpCodeType::TestEqual, Instruction::TestEqual { op1: a, op2: b, address: c }),
        (OpCodeType::JumpIfTrue, Instruction::JumpIfTrue { condition: a, address: b }),
        (OpCodeType::JumpIfFalse, Instruction::JumpIfFalse { condition: a, address: b }),
        (OpCodeType::Input, Instruction::Input(a)),
        (OpCodeType::Output, Instruction::Output(a)),
        (OpCodeType::AdjustBase, Instruction::AdjustBase(a)),
        (OpCodeType::Halt, Instruction::Halt),
    ];
    for (kind, instruction) in expected {
        assert_eq!(Instruction::new(&machine, modes(kind)), instruction);
    }
}

#[test]
fn operands_beyond_memory_read_as_zero() {
    let machine = Machine::with_memory(vec![1101, 5]);
    let opcode = OpCode::new(1101).unwrap();
    assert_eq!(
        Instruction::new(&machine, opcode),
        Instruction::Add {
            op1: Operand::Immediate(5),
            op2: Operand::Immediate(0),
            address: Operand::Address(0),
        }
    );
}

#[test]
fn instructions_are_applied() {
    let mut machine = Machine::with_memory(vec![0, 0, 0, 0]);
    let add = Instruction::Add {
        op1: Operand::Immediate(20),
        op2: Operand::Immediate(22),
        address: Operand::Address(6),
    };
    assert_eq!(machine.apply(add, None), Ok(Signal::Continue));
    assert_eq!(machine.read_mem(6), 42);
    assert_eq!(machine.dump().len(), 14);
    assert_eq!(machine.get_ip(), 4);
    let less = Instruction::TestLessThan {
        op1: Operand::Address(6),
        op2: Operand::Immediate(43),
        address: Operand::Address(0),
    };
    assert_eq!(machine.apply(less, None), Ok(Signal::Continue));
    assert_eq!(machine.read_mem(0), 1);
    let equal = Instruction::TestEqual {
        op1: Operand::Address(6),
        op2: Operand::Immediate(43),
        address: Operand::Address(0),
    };
    assert_eq!(machine.apply(equal, None), Ok(Signal::Continue));
    assert_eq!(machine.read_mem(0), 0);
    assert_eq!(machine.get_ip(), 12);
    assert_eq!(machine.apply(Instruction::Halt, None), Ok(Signal::Halt));
    assert_eq!(machine.apply(Instruction::Output(Operand::Address(6)), None), Ok(Signal::Output(42)));
    assert_eq!(machine.get_ip(), 14);
}

#[test]
fn the_state_is_described_on_three_lines() {
    let mut machine = Machine::with_memory(vec![109, -7, 1105, 1, 5, 99]);
    assert_eq!(
        machine.write_state(),
        "Memory: [109, -7, 1105, 1, 5, 99]\nBase pointer: 0\nInstruction pointer: 0\n"
    );
    assert_eq!(machine.step(None), Ok(Signal::Continue));
    assert_eq!(machine.step(None), Ok(Signal::Continue));
    assert_eq!(
        machine.write_state(),
        "Memory: [109, -7, 1105, 1, 5, 99]\nBase pointer: -7\nInstruction pointer: 5\n"
    );
    assert_eq!(
        Machine::with_memory(vec![]).write_state(),
        "Memory: []\nBase pointer: 0\nInstruction pointer: 0\n"
    );
    assert_eq!(
        Machine::with_memory(vec![isize::MIN]).write_state(),
        format!("Memory: [{}]\nBase pointer: 0\nInstruction pointer: 0\n", isize::MIN)
    );
}
