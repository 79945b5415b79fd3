//! Laws of the abstract machine, proved from its definition.

use crate::instruction::Instruction;
use crate::model::{fits, reachable, read_cell, write_cell, MachineError, Run, Signal, State};
use crate::opcode::Operand;
use crate::text::{
    all_digits, decimal, digit_char, digits, fields, first_line, input_of, integer_of, is_digit,
    is_whitespace, joined, magnitude, output_line, trim, trim_end, trim_start,
};
use vstd::prelude::*;

verus! {

/// Every address at or beyond the cells that memory holds reads as zero.
pub proof fn law_read_beyond_extent(mem: Seq<isize>, address: int)
    requires
        address >= mem.len(),
    ensures
        read_cell(mem, address) == 0,
{
}

/// A store changes what the stored address reads as and nothing else. A
/// store within memory keeps its extent. A store beyond it grows memory to
/// twice the address plus two cells, so that every address that was beyond
/// the old extent reads as zero afterwards, but for the one stored to.
pub proof fn law_write_then_read(mem: Seq<isize>, address: int, value: isize, other: int)
    requires
        0 <= address,
        0 <= other,
    ensures
        read_cell(write_cell(mem, address, value), other) == if other == address {
            value
        } else {
            read_cell(mem, other)
        },
        write_cell(mem, address, value).len() == if address < mem.len() {
            mem.len() as int
        } else {
            2 * (address + 1)
        },
        other >= mem.len() && other != address ==> read_cell(
            write_cell(mem, address, value),
            other,
        ) == 0,
{
}

/// An operand in relative mode with literal `k` refers to the address
/// `bp + k`, as a source and as a destination: as a source its value is
/// the cell there, and as a destination its address is `bp + k` itself.
pub proof fn law_relative_operand(s: State, k: isize)
    ensures
        s.effective(Operand::Relative(k)) == s.bp + k,
        s.value(Operand::Relative(k)) == if s.bp + k < 0 {
            Err::<isize, MachineError>(MachineError::NegativeAddress)
        } else {
            Ok::<isize, MachineError>(read_cell(s.mem, s.bp + k))
        },
        s.destination(Operand::Relative(k)) == if s.bp + k < 0 {
            Err::<isize, MachineError>(MachineError::NegativeAddress)
        } else if !reachable(s.mem, s.bp + k) {
            Err::<isize, MachineError>(MachineError::MemoryLimit)
        } else {
            Ok::<isize, MachineError>((s.bp + k) as isize)
        },
        s.destination(Operand::Relative(k)) matches Ok(address) ==> address == s.bp + k,
{
}

/// An adjustment of the base pointer whose operand resolves to the value
/// `k` changes the base pointer by exactly `k`, moves the instruction
/// pointer on by two and leaves memory alone. It fails only where one of
/// the two pointers would leave the range of a cell.
pub proof fn law_adjust_base(s: State, operand: Operand, input: Option<isize>)
    requires
        s.value(operand) is Ok,
    ensures
        s.effect(Instruction::AdjustBase(operand), input) == if fits(
            s.bp + s.value(operand)->Ok_0,
        ) && fits(s.ip + 2) {
            Ok::<(State, Signal), MachineError>(
                (
                    State { bp: s.bp + s.value(operand)->Ok_0, ip: s.ip + 2, mem: s.mem },
                    Signal::Continue,
                ),
            )
        } else {
            Err::<(State, Signal), MachineError>(MachineError::Overflow)
        },
{
}

/// An addition, a multiplication, a comparison or an input whose
/// destination is in immediate mode is refused as an addressing error,
/// whatever its other operands are.
pub proof fn law_immediate_destination(
    s: State,
    op1: Operand,
    op2: Operand,
    literal: isize,
    input: Option<isize>,
)
    ensures
        s.effect(Instruction::Add { op1, op2, address: Operand::Immediate(literal) }, input) == Err::<
            (State, Signal),
            MachineError,
        >(MachineError::Addressing),
        s.effect(Instruction::Multiply { op1, op2, address: Operand::Immediate(literal) }, input)
            == Err::<(State, Signal), MachineError>(MachineError::Addressing),
        s.effect(
            Instruction::TestLessThan { op1, op2, address: Operand::Immediate(literal) },
            input,
        ) == Err::<(State, Signal), MachineError>(MachineError::Addressing),
        s.effect(Instruction::TestEqual { op1, op2, address: Operand::Immediate(literal) }, input)
            == Err::<(State, Signal), MachineError>(MachineError::Addressing),
        s.effect(Instruction::Input(Operand::Immediate(literal)), input) == Err::<
            (State, Signal),
            MachineError,
        >(MachineError::Addressing),
{
}

/// What a conditional jump does once its operands have resolved: where it
/// is taken the instruction pointer becomes the target, and where it is
/// not the instruction pointer moves on by three.
pub open spec fn jumped(s: State, taken: bool, target: isize) -> Result<
    (State, Signal),
    MachineError,
> {
    if taken {
        Ok((State { ip: target as int, ..s }, Signal::Continue))
    } else if fits(s.ip + 3) {
        Ok((State { ip: s.ip + 3, ..s }, Signal::Continue))
    } else {
        Err(MachineError::Overflow)
    }
}

/// A conditional jump whose operands resolve changes the instruction
/// pointer only. Jump-if-true is taken if and only if the condition is
/// not zero, jump-if-false if and only if it is zero. A jump that is taken
/// sets the instruction pointer to the target; one that is not moves it on
/// by three.
pub proof fn law_jump(s: State, condition: Operand, address: Operand, input: Option<isize>)
    requires
        s.value(condition) is Ok,
        s.value(address) is Ok,
    ensures
        s.effect(Instruction::JumpIfTrue { condition, address }, input) == jumped(
            s,
            s.value(condition)->Ok_0 != 0,
            s.value(address)->Ok_0,
        ),
        s.effect(Instruction::JumpIfFalse { condition, address }, input) == jumped(
            s,
            s.value(condition)->Ok_0 == 0,
            s.value(address)->Ok_0,
        ),
{
}

/// A program of additions and multiplications that ends in a halt runs
/// straight through: where the next `n` instructions are additions and
/// multiplications that succeed and a halt follows them, the `k`-th
/// instruction is read at the instruction pointer plus `4 * k`, so that no
/// instruction is decoded twice, and a run with budget for `n + 1`
/// instructions ends at the halt with the memory that the `n` instructions
/// leave behind, having consumed no input and emitted nothing.
pub proof fn law_straight_line(
    s: State,
    n: nat,
    input: Seq<char>,
    output: Seq<isize>,
    budget: nat,
)
    requires
        s.straight(n),
        budget > n,
    ensures
        forall|k: nat| k <= n ==> (#[trigger] s.after(k)).ip == s.ip + 4 * k,
        s.run(input, output, budget) == (Run {
            state: s.after(n),
            output: output,
            result: Ok(read_cell(s.after(n).mem, 0)),
        }),
    decreases n,
{
    if n > 0 {
        let next = s.step(None)->Ok_0.0;
        law_straight_line(next, (n - 1) as nat, input, output, (budget - 1) as nat);
        assert forall|k: nat| k <= n implies (#[trigger] s.after(k)).ip == s.ip + 4 * k by {
            if k > 0 {
                assert(s.after(k) == next.after((k - 1) as nat));
            }
        }
    }
}

/// A run that ends before its budget is spent ends in the same way under
/// every larger budget.
pub proof fn law_budget_suffices(
    s: State,
    input: Seq<char>,
    output: Seq<isize>,
    budget: nat,
    larger: nat,
)
    requires
        s.run(input, output, budget).result != Err::<isize, MachineError>(MachineError::StepLimit),
        budget <= larger,
    ensures
        s.run(input, output, larger) == s.run(input, output, budget),
    decreases budget,
{
    if budget > 0 {
        let value = if s.awaits_input() {
            input_of(first_line(input))
        } else {
            None
        };
        let rest = if s.awaits_input() {
            input.skip(first_line(input).len() as int)
        } else {
            input
        };
        match s.step(value) {
            Ok((state, Signal::Continue)) => {
                law_budget_suffices(state, rest, output, (budget - 1) as nat, (larger - 1) as nat);
            },
            Ok((state, Signal::Output(v))) => {
                law_budget_suffices(
                    state,
                    rest,
                    output.push(v),
                    (budget - 1) as nat,
                    (larger - 1) as nat,
                );
            },
            _ => {},
        }
    }
}

/// The decimal digits of a number are digits, at least one of them, and
/// stand for that number.
pub proof fn law_digits_read_back(n: nat)
    ensures
        digits(n).len() > 0,
        all_digits(digits(n)),
        magnitude(digits(n)) == n,
    decreases n,
{
    let last = digit_char(n as int % 10);
    assert(is_digit(last) && last as u32 - 48 == n % 10);
    if n >= 10 {
        law_digits_read_back(n / 10);
        let front = digits(n / 10);
        assert(front.push(last).drop_last() == front);
        assert(front.push(last).last() == last);
    } else {
        assert(seq![last].drop_last() == Seq::<char>::empty());
        assert(magnitude(Seq::<char>::empty()) == 0);
    }
}

/// An integer that was written as decimal text reads back as itself, and
/// so does the line that an output instruction writes for it.
pub proof fn law_written_reads_back(value: isize)
    ensures
        integer_of(decimal(value as int)) == Some(value),
        input_of(output_line(value as int)) == Some(value),
{
    let text = decimal(value as int);
    if value < 0 {
        let body = digits((-value) as nat);
        law_digits_read_back((-value) as nat);
        assert(text.drop_first() == body);
        assert(text.last() == body.last());
    } else {
        law_digits_read_back(value as nat);
    }
    assert(integer_of(text) == Some(value));
    assert(!is_whitespace(text[0]));
    assert(is_digit(text.last()));
    let line = output_line(value as int);
    assert(line[0] == text[0]);
    assert(trim_start(line) == line);
    assert(line.drop_last() == text);
    assert(trim_end(line) == trim_end(text));
    assert(trim_end(text) == text);
    assert(trim(line) == text);
}

/// Where the text without its leading white space begins.
proof fn lemma_trim_start(s: Seq<char>) -> (from: int)
    ensures
        0 <= from <= s.len(),
        trim_start(s) == s.subrange(from, s.len() as int),
        forall|i: int| 0 <= i < from ==> is_whitespace(s[i]),
        from < s.len() ==> !is_whitespace(s[from]),
    decreases s.len(),
{
    if s.len() > 0 && is_whitespace(s[0]) {
        let rest = s.drop_first();
        let from = lemma_trim_start(rest);
        assert(rest.subrange(from, rest.len() as int) == s.subrange(from + 1, s.len() as int));
        assert forall|i: int| 0 <= i < from + 1 implies is_whitespace(s[i]) by {
            if i > 0 {
                assert(s[i] == rest[i - 1]);
            }
        }
        assert(from < rest.len() ==> s[from + 1] == rest[from]);
        from + 1
    } else {
        assert(s.subrange(0, s.len() as int) == s);
        0
    }
}

/// Where the text without its trailing white space ends.
proof fn lemma_trim_end(s: Seq<char>) -> (to: int)
    ensures
        0 <= to <= s.len(),
        trim_end(s) == s.subrange(0, to),
        forall|i: int| to <= i < s.len() ==> is_whitespace(s[i]),
        0 < to ==> !is_whitespace(s[to - 1]),
    decreases s.len(),
{
    if s.len() > 0 && is_whitespace(s.last()) {
        let rest = s.drop_last();
        let to = lemma_trim_end(rest);
        assert(rest.subrange(0, to) == s.subrange(0, to));
        assert forall|i: int| to <= i < s.len() implies is_whitespace(s[i]) by {
            if i < s.len() - 1 {
                assert(s[i] == rest[i]);
            }
        }
        assert(0 < to ==> s[to - 1] == rest[to - 1]);
        to
    } else {
        assert(s.subrange(0, s.len() as int) == s);
        s.len() as int
    }
}

/// Trimming takes white space away at both ends and nothing else: the
/// trimmed text is the part of the text between the two places returned,
/// all that stands before and behind that part is white space, and the
/// part neither begins nor ends with white space.
pub proof fn law_trim(s: Seq<char>) -> (part: (int, int))
    ensures
        0 <= part.0 <= part.1 <= s.len(),
        trim(s) == s.subrange(part.0, part.1),
        forall|i: int| 0 <= i < part.0 || part.1 <= i < s.len() ==> is_whitespace(s[i]),
        part.0 < part.1 ==> !is_whitespace(s[part.0]) && !is_whitespace(s[part.1 - 1]),
{
    let from = lemma_trim_start(s);
    let tail = s.subrange(from, s.len() as int);
    let to = lemma_trim_end(tail);
    assert(tail.subrange(0, to) == s.subrange(from, from + to));
    assert forall|i: int| 0 <= i < from || from + to <= i < s.len() implies is_whitespace(
        s[i],
    ) by {
        if i >= from + to {
            assert(s[i] == tail[i - from]);
        }
    }
    if to > 0 {
        assert(s[from + to - 1] == tail[to - 1]);
    }
    (from, from + to)
}

/// Whether none of the fields holds a comma.
pub open spec fn comma_free(parts: Seq<Seq<char>>) -> bool {
    forall|k: int, i: int|
        0 <= k < parts.len() && 0 <= i < parts[k].len() ==> (#[trigger] parts[k][i]) != ','
}

/// Splitting undoes joining: the fields of a text are comma-free, there is
/// at least one, and joined by commas they make the text again.
pub proof fn law_fields_join(s: Seq<char>)
    ensures
        fields(s).len() > 0,
        comma_free(fields(s)),
        joined(fields(s)) == s,
    decreases s.len(),
{
    if s.len() > 0 {
        let front = s.drop_last();
        law_fields_join(front);
        let before = fields(front);
        if s.last() == ',' {
            let parts = before.push(Seq::<char>::empty());
            assert(parts.drop_last() == before);
            assert(joined(parts) == s);
            assert forall|k: int, i: int|
                0 <= k < parts.len() && 0 <= i < parts[k].len() implies (#[trigger] parts[k][i])
                != ',' by {
                assert(parts[k] == before[k]);
            }
        } else {
            let parts = before.drop_last().push(before.last().push(s.last()));
            lemma_joined_last(before, before.last().push(s.last()));
            let head = front.take(front.len() - before.last().len());
            assert(front == head + before.last());
            assert(s == front.push(s.last()));
            assert(s == head + before.last().push(s.last()));
            assert forall|k: int, i: int|
                0 <= k < parts.len() && 0 <= i < parts[k].len() implies (#[trigger] parts[k][i])
                != ',' by {
                if k < parts.len() - 1 {
                    assert(parts[k] == before[k]);
                } else if i < before.last().len() {
                    assert(parts[k][i] == before[before.len() - 1][i]);
                }
            }
            assert(joined(parts) == s);
        }
    } else {
        assert(joined(seq![Seq::<char>::empty()]) == Seq::<char>::empty());
    }
}

/// Joined fields end with the last field, and replacing the last field
/// replaces that end.
proof fn lemma_joined_last(parts: Seq<Seq<char>>, last: Seq<char>)
    requires
        parts.len() > 0,
    ensures
        joined(parts) == joined(parts).take(joined(parts).len() - parts.last().len())
            + parts.last(),
        joined(parts.drop_last().push(last)) == joined(parts).take(
            joined(parts).len() - parts.last().len(),
        ) + last,
{
    let changed = parts.drop_last().push(last);
    assert(changed.drop_last() == parts.drop_last());
    if parts.len() == 1 {
        assert(joined(parts).take(0) + last == last);
    } else {
        let head = joined(parts.drop_last()).push(',');
        assert((head + parts.last()).take(head.len() as int) == head);
    }
}

/// Joining undoes splitting: fields without commas, at least one of them,
/// are the fields of the text that they make when joined by commas.
pub proof fn law_join_fields(parts: Seq<Seq<char>>)
    requires
        parts.len() > 0,
        comma_free(parts),
    ensures
        fields(joined(parts)) == parts,
    decreases parts.len(),
{
    let last = parts.last();
    assert forall|i: int| 0 <= i < last.len() implies last[i] != ',' by {
        assert(parts[parts.len() - 1][i] != ',');
    }
    if parts.len() == 1 {
        lemma_fields_extend(Seq::<char>::empty(), last);
        assert(Seq::<char>::empty() + last == last);
        assert(seq![Seq::<char>::empty()].drop_last().push(Seq::<char>::empty() + last) == parts);
    } else {
        let front = parts.drop_last();
        assert forall|k: int, i: int|
            0 <= k < front.len() && 0 <= i < front[k].len() implies (#[trigger] front[k][i])
            != ',' by {
            assert(front[k][i] == parts[k][i]);
        }
        law_join_fields(front);
        let head = joined(front).push(',');
        assert(head.drop_last() == joined(front));
        assert(fields(head) == front.push(Seq::<char>::empty()));
        lemma_fields_extend(head, last);
        assert(front.push(Seq::<char>::empty()).drop_last() == front);
        assert(Seq::<char>::empty() + last == last);
        assert(front.push(last) == parts);
    }
}

/// Text without a comma that is appended to a text extends its last field.
proof fn lemma_fields_extend(s: Seq<char>, more: Seq<char>)
    requires
        forall|i: int| 0 <= i < more.len() ==> more[i] != ',',
    ensures
        fields(s).len() > 0,
        fields(s + more) == fields(s).drop_last().push(fields(s).last() + more),
    decreases more.len(),
{
    law_fields_join(s);
    let parts = fields(s);
    if more.len() == 0 {
        assert(s + more == s);
        assert(parts.last() + more == parts.last());
        assert(parts.drop_last().push(parts.last()) == parts);
    } else {
        let front = more.drop_last();
        lemma_fields_extend(s, front);
        assert((s + more).drop_last() == s + front);
        assert((s + more).last() == more.last());
        let before = fields(s + front);
        assert(before.drop_last() == parts.drop_last());
        assert(before.last().push(more.last()) == parts.last() + more);
    }
}

} // verus!
