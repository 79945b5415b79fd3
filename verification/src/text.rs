//! Integers as decimal text: the program text that a machine is loaded
//! from, the lines that input instructions consume, and the text that
//! values are written as.

use crate::model::fits;
use vstd::prelude::*;
use vstd::string::StringExecFns;

verus! {

/// Whether a character is white space: one of the characters with the
/// Unicode property `White_Space`.
pub open spec fn is_whitespace(c: char) -> bool {
    let n = c as u32;
    ||| 0x09 <= n <= 0x0D
    ||| n == 0x20
    ||| n == 0x85
    ||| n == 0xA0
    ||| n == 0x1680
    ||| 0x2000 <= n <= 0x200A
    ||| n == 0x2028
    ||| n == 0x2029
    ||| n == 0x202F
    ||| n == 0x205F
    ||| n == 0x3000
}

/// The text without the white space that it begins with.
pub open spec fn trim_start(s: Seq<char>) -> Seq<char>
    decreases s.len(),
{
    if s.len() > 0 && is_whitespace(s[0]) {
        trim_start(s.drop_first())
    } else {
        s
    }
}

/// The text without the white space that it ends with.
pub open spec fn trim_end(s: Seq<char>) -> Seq<char>
    decreases s.len(),
{
    if s.len() > 0 && is_whitespace(s.last()) {
        trim_end(s.drop_last())
    } else {
        s
    }
}

/// The text without the white space around it.
pub open spec fn trim(s: Seq<char>) -> Seq<char> {
    trim_end(trim_start(s))
}

/// Whether a character is one of the ten decimal digits.
pub open spec fn is_digit(c: char) -> bool {
    48 <= c as u32 <= 57
}

/// Whether a text holds decimal digits only.
pub open spec fn all_digits(s: Seq<char>) -> bool {
    forall|i: int| 0 <= i < s.len() ==> is_digit(#[trigger] s[i])
}

/// The number that a text of decimal digits stands for.
pub open spec fn magnitude(s: Seq<char>) -> nat
    decreases s.len(),
{
    if s.len() == 0 {
        0
    } else {
        (magnitude(s.drop_last()) * 10 + (s.last() as u32 - 48)) as nat
    }
}

/// Whether a text begins with a sign.
pub open spec fn has_sign(s: Seq<char>) -> bool {
    s.len() > 0 && (s[0] == '-' || s[0] == '+')
}

/// The number with the sign that a text begins with.
pub open spec fn with_sign(s: Seq<char>, magnitude: nat) -> int {
    if s.len() > 0 && s[0] == '-' {
        -magnitude
    } else {
        magnitude as int
    }
}

/// The integer that a text stands for: an optional sign, `+` or `-`, then
/// one or more decimal digits and nothing else, of a value that fits a
/// memory cell. Any other text stands for none.
pub open spec fn integer_of(s: Seq<char>) -> Option<isize> {
    let body = if has_sign(s) {
        s.drop_first()
    } else {
        s
    };
    let value = with_sign(s, magnitude(body));
    if body.len() > 0 && all_digits(body) && fits(value) {
        Some(value as isize)
    } else {
        None
    }
}

/// The integer on a line of input: the line is trimmed of white space,
/// its line end included, and then read as an integer.
pub open spec fn input_of(line: Seq<char>) -> Option<isize> {
    integer_of(trim(line))
}

/// The length of the first line of a text, its line feed included. The
/// last line of a text may lack the line feed.
pub open spec fn line_len(text: Seq<char>) -> nat
    decreases text.len(),
{
    if text.len() == 0 {
        0
    } else if text[0] == '\n' {
        1
    } else {
        1 + line_len(text.drop_first())
    }
}

/// The first line of a text, its line feed included.
pub open spec fn first_line(text: Seq<char>) -> Seq<char> {
    text.take(line_len(text) as int)
}

/// The fields of a text that commas separate. A text without a comma is
/// one field, and so is the empty text.
pub open spec fn fields(s: Seq<char>) -> Seq<Seq<char>>
    decreases s.len(),
{
    if s.len() == 0 {
        seq![Seq::<char>::empty()]
    } else {
        let before = fields(s.drop_last());
        if s.last() == ',' {
            before.push(Seq::<char>::empty())
        } else {
            before.drop_last().push(before.last().push(s.last()))
        }
    }
}

/// The text that fields make when a comma is put between each two of them.
pub open spec fn joined(parts: Seq<Seq<char>>) -> Seq<char>
    decreases parts.len(),
{
    if parts.len() == 0 {
        Seq::empty()
    } else if parts.len() == 1 {
        parts[0]
    } else {
        joined(parts.drop_last()).push(',') + parts.last()
    }
}

/// The program that a text stands for: the text is trimmed of white space
/// around it, and each of its comma-separated fields must read as an
/// integer. A text with a field that does not stands for no program.
pub open spec fn program_of(src: Seq<char>) -> Option<Seq<isize>> {
    let parts = fields(trim(src));
    if forall|k: int| 0 <= k < parts.len() ==> (#[trigger] integer_of(parts[k])) is Some {
        Some(Seq::new(parts.len(), |k: int| integer_of(parts[k])->0))
    } else {
        None
    }
}

/// The character that a decimal digit is written as.
pub open spec fn digit_char(digit: int) -> char {
    if digit == 0 {
        '0'
    } else if digit == 1 {
        '1'
    } else if digit == 2 {
        '2'
    } else if digit == 3 {
        '3'
    } else if digit == 4 {
        '4'
    } else if digit == 5 {
        '5'
    } else if digit == 6 {
        '6'
    } else if digit == 7 {
        '7'
    } else if digit == 8 {
        '8'
    } else {
        '9'
    }
}

/// The decimal digits of a natural number, without leading zeros.
pub open spec fn digits(n: nat) -> Seq<char>
    decreases n,
{
    if n < 10 {
        seq![digit_char(n as int)]
    } else {
        digits(n / 10).push(digit_char(n as int % 10))
    }
}

/// An integer as decimal text: its digits, behind a minus sign where it is
/// negative.
pub open spec fn decimal(value: int) -> Seq<char> {
    if value < 0 {
        seq!['-'] + digits((-value) as nat)
    } else {
        digits(value as nat)
    }
}

/// The line that an output instruction writes: the value as decimal text
/// and a line feed.
pub open spec fn output_line(value: int) -> Seq<char> {
    decimal(value).push('\n')
}

/// The cells of a memory as decimal text, separated by a comma and a space.
pub open spec fn listed(cells: Seq<isize>) -> Seq<char>
    decreases cells.len(),
{
    if cells.len() == 0 {
        Seq::empty()
    } else if cells.len() == 1 {
        decimal(cells[0] as int)
    } else {
        listed(cells.drop_last()) + seq![',', ' '] + decimal(cells.last() as int)
    }
}

/// The characters of a string.
pub(crate) fn chars_of(s: &str) -> (chars: Vec<char>)
    ensures
        chars@ == s@,
{
    broadcast use vstd::string::axiom_spec_iter;

    let mut chars: Vec<char> = Vec::new();
    for c in it: s.chars()
        invariant
            it.seq() == s@,
            chars@ == s@.take(it.index()),
    {
        chars.push(c);
    }
    chars
}

fn whitespace(c: char) -> (b: bool)
    ensures
        b == is_whitespace(c),
{
    let n: u32 = c as u32;
    (0x09 <= n && n <= 0x0D) || n == 0x20 || n == 0x85 || n == 0xA0 || n == 0x1680 || (0x2000 <= n
        && n <= 0x200A) || n == 0x2028 || n == 0x2029 || n == 0x202F || n == 0x205F || n == 0x3000
}

/// Trims the part of `chars` between `from` and `to`: returns where the
/// trimmed text begins and ends.
pub(crate) fn trim_range(chars: &Vec<char>, from: usize, to: usize) -> (r: (usize, usize))
    requires
        from <= to <= chars.len(),
    ensures
        from <= r.0 <= r.1 <= to,
        chars@.subrange(r.0 as int, r.1 as int) == trim(chars@.subrange(from as int, to as int)),
{
    let mut start: usize = from;
    while start < to && whitespace(chars[start])
        invariant
            from <= start <= to <= chars.len(),
            trim_start(chars@.subrange(from as int, to as int)) == trim_start(
                chars@.subrange(start as int, to as int),
            ),
        decreases to - start,
    {
        assert(chars@.subrange(start as int, to as int).drop_first() == chars@.subrange(
            start + 1,
            to as int,
        ));
        start += 1;
    }
    let mut end: usize = to;
    while end > start && whitespace(chars[end - 1])
        invariant
            start <= end <= to <= chars.len(),
            trim_end(chars@.subrange(start as int, to as int)) == trim_end(
                chars@.subrange(start as int, end as int),
            ),
        decreases end - start,
    {
        assert(chars@.subrange(start as int, end as int).drop_last() == chars@.subrange(
            start as int,
            end - 1,
        ));
        end -= 1;
    }
    (start, end)
}

/// Reads the part of `chars` between `from` and `to` as an integer.
pub(crate) fn parse_range(chars: &Vec<char>, from: usize, to: usize) -> (r: Option<isize>)
    requires
        from <= to <= chars.len(),
    ensures
        r == integer_of(chars@.subrange(from as int, to as int)),
{
    let ghost s = chars@.subrange(from as int, to as int);
    if from == to {
        return None;
    }
    let first: char = chars[from];
    let negative: bool = first == '-';
    let begin: usize = if first == '-' || first == '+' {
        from + 1
    } else {
        from
    };
    let ghost body = chars@.subrange(begin as int, to as int);
    assert(body == if has_sign(s) {
        s.drop_first()
    } else {
        s
    });
    if begin == to {
        return None;
    }
    let mut acc: isize = 0;
    let mut overflow: bool = false;
    let mut i: usize = begin;
    while i < to
        invariant
            from <= begin <= i <= to <= chars.len(),
            s == chars@.subrange(from as int, to as int),
            body == chars@.subrange(begin as int, to as int),
            body == if has_sign(s) {
                s.drop_first()
            } else {
                s
            },
            negative == (s.len() > 0 && s[0] == '-'),
            all_digits(chars@.subrange(begin as int, i as int)),
            !overflow ==> acc == with_sign(s, magnitude(chars@.subrange(begin as int, i as int))),
            overflow ==> !fits(with_sign(s, magnitude(chars@.subrange(begin as int, i as int)))),
        decreases to - i,
    {
        let n: u32 = chars[i] as u32;
        if n < 48 || n > 57 {
            assert(!is_digit(body[i - begin]));
            return None;
        }
        let digit: isize = (n - 48) as isize;
        proof {
            let next = chars@.subrange(begin as int, i + 1);
            assert(next.drop_last() == chars@.subrange(begin as int, i as int));
            assert(next.last() == chars@[i as int]);
        }
        if !overflow {
            let shifted: Option<isize> = acc.checked_mul(10);
            let next: Option<isize> = match shifted {
                Some(tens) => if negative {
                    tens.checked_sub(digit)
                } else {
                    tens.checked_add(digit)
                },
                None => None,
            };
            match next {
                Some(value) => {
                    acc = value;
                },
                None => {
                    overflow = true;
                },
            }
        }
        i += 1;
    }
    assert(chars@.subrange(begin as int, to as int) == body);
    if overflow {
        None
    } else {
        Some(acc)
    }
}

/// Finds where the line that begins at `from` ends.
pub(crate) fn line_end(chars: &Vec<char>, from: usize) -> (end: usize)
    requires
        from <= chars.len(),
    ensures
        from <= end <= chars.len(),
        end - from == line_len(chars@.skip(from as int)),
{
    let mut end: usize = from;
    while end < chars.len()
        invariant
            from <= end <= chars.len(),
            line_len(chars@.skip(from as int)) == (end - from) + line_len(chars@.skip(end as int)),
        decreases chars.len() - end,
    {
        assert(chars@.skip(end as int).drop_first() == chars@.skip(end + 1));
        if chars[end] == '\n' {
            return end + 1;
        }
        end += 1;
    }
    end
}

/// Reads the integer on a line of input. White space around it, the line
/// end included, is not looked at.
pub fn parse_input(line: &str) -> (value: Option<isize>)
    ensures
        value == input_of(line@),
{
    let chars: Vec<char> = chars_of(line);
    assert(chars@.subrange(0, chars@.len() as int) == chars@);
    let (start, end) = trim_range(&chars, 0, chars.len());
    parse_range(&chars, start, end)
}

/// Reads a program: integers separated by commas, with white space allowed
/// around the whole text only. Returns `None` where a field is no integer.
pub fn parse_program(src: &str) -> (program: Option<Vec<isize>>)
    ensures
        match program_of(src@) {
            Some(cells) => program is Some && program->0@ == cells,
            None => program is None,
        },
{
    let chars: Vec<char> = chars_of(src);
    assert(chars@.subrange(0, chars@.len() as int) == chars@);
    let (start, end) = trim_range(&chars, 0, chars.len());
    let ghost text = chars@.subrange(start as int, end as int);
    let mut cells: Vec<isize> = Vec::new();
    let mut valid: bool = true;
    let ghost mut done: Seq<Seq<char>> = Seq::empty();
    let mut begin: usize = start;
    let mut i: usize = start;
    assert(chars@.subrange(start as int, start as int) == Seq::<char>::empty());
    assert(fields(Seq::<char>::empty()) == done.push(Seq::<char>::empty()));
    while i < end
        invariant
            start <= begin <= i <= end <= chars.len(),
            fields(chars@.subrange(start as int, i as int)) == done.push(
                chars@.subrange(begin as int, i as int),
            ),
            valid ==> cells@.len() == done.len(),
            valid ==> forall|k: int|
                0 <= k < done.len() ==> (#[trigger] integer_of(done[k])) == Some(cells@[k]),
            !valid ==> exists|k: int| 0 <= k < done.len() && (#[trigger] integer_of(done[k])) is None,
        decreases end - i,
    {
        proof {
            let next = chars@.subrange(start as int, i + 1);
            assert(next.drop_last() == chars@.subrange(start as int, i as int));
            assert(next.last() == chars@[i as int]);
            assert(chars@.subrange(begin as int, i as int).push(chars@[i as int])
                == chars@.subrange(begin as int, i + 1));
            assert(done.push(chars@.subrange(begin as int, i as int)).drop_last() == done);
            assert(chars@.subrange(i + 1, i + 1) == Seq::<char>::empty());
        }
        if chars[i] == ',' {
            let value: Option<isize> = parse_range(&chars, begin, i);
            proof {
                let field = chars@.subrange(begin as int, i as int);
                if !valid {
                    let k = choose|k: int|
                        0 <= k < done.len() && (#[trigger] integer_of(done[k])) is None;
                    assert(done.push(field)[k] == done[k]);
                } else if value is None {
                    assert(done.push(field)[done.len() as int] == field);
                } else {
                    assert forall|k: int| 0 <= k < done.len() + 1 implies (#[trigger] integer_of(
                        done.push(field)[k],
                    )) == Some(cells@.push(value->0)[k]) by {
                        if k < done.len() {
                            assert(done.push(field)[k] == done[k]);
                        }
                    }
                }
                done = done.push(field);
            }
            match value {
                Some(cell) => {
                    if valid {
                        cells.push(cell);
                    }
                },
                None => {
                    valid = false;
                },
            }
            begin = i + 1;
        }
        i += 1;
    }
    let last: Option<isize> = parse_range(&chars, begin, end);
    proof {
        let field = chars@.subrange(begin as int, end as int);
        let parts = done.push(field);
        assert(fields(trim(src@)) == parts);
        if !valid {
            let k = choose|k: int| 0 <= k < done.len() && (#[trigger] integer_of(done[k])) is None;
            assert(parts[k] == done[k]);
        } else if last is None {
            assert(parts[done.len() as int] == field);
        } else {
            assert forall|k: int| 0 <= k < parts.len() implies (#[trigger] integer_of(parts[k]))
                == Some(cells@.push(last->0)[k]) by {
                if k < done.len() {
                    assert(parts[k] == done[k]);
                }
            }
            assert(cells@.push(last->0) == Seq::new(parts.len(), |k: int| integer_of(parts[k])->0));
        }
    }
    match last {
        Some(cell) => {
            if valid {
                cells.push(cell);
                Some(cells)
            } else {
                None
            }
        },
        None => None,
    }
}

/// The text of one decimal digit.
fn digit_text(digit: usize) -> (text: &'static str)
    requires
        digit < 10,
    ensures
        text@ == seq![digit_char(digit as int)],
{
    proof {
        reveal_strlit("0");
        reveal_strlit("1");
        reveal_strlit("2");
        reveal_strlit("3");
        reveal_strlit("4");
        reveal_strlit("5");
        reveal_strlit("6");
        reveal_strlit("7");
        reveal_strlit("8");
        reveal_strlit("9");
    }
    let text: &'static str = if digit == 0 {
        "0"
    } else if digit == 1 {
        "1"
    } else if digit == 2 {
        "2"
    } else if digit == 3 {
        "3"
    } else if digit == 4 {
        "4"
    } else if digit == 5 {
        "5"
    } else if digit == 6 {
        "6"
    } else if digit == 7 {
        "7"
    } else if digit == 8 {
        "8"
    } else {
        "9"
    };
    assert(text@ =~= seq![digit_char(digit as int)]);
    text
}

/// Appends the decimal digits of a number to a text.
fn push_digits(text: &mut String, n: usize)
    ensures
        final(text)@ == old(text)@ + digits(n as nat),
    decreases n,
{
    if n >= 10 {
        push_digits(text, n / 10);
    }
    text.append(digit_text(n % 10));
    assert(final(text)@ =~= old(text)@ + digits(n as nat));
}

/// Appends an integer as decimal text to a text.
pub fn push_decimal(text: &mut String, value: isize)
    ensures
        final(text)@ == old(text)@ + decimal(value as int),
{
    if value < 0 {
        proof {
            reveal_strlit("-");
        }
        text.append("-");
        push_digits(text, (-(value + 1)) as usize + 1);
        assert(final(text)@ =~= old(text)@ + decimal(value as int));
    } else {
        push_digits(text, value as usize);
    }
}

/// Appends the cells of a memory, as decimal text separated by a comma and
/// a space, to a text.
pub fn push_listed(text: &mut String, cells: &[isize])
    ensures
        final(text)@ == old(text)@ + listed(cells@),
{
    let mut i: usize = 0;
    assert(cells@.take(0) == Seq::<isize>::empty());
    assert(text@ =~= old(text)@ + listed(cells@.take(0)));
    while i < cells.len()
        invariant
            i <= cells.len(),
            text@ == old(text)@ + listed(cells@.take(i as int)),
        decreases cells.len() - i,
    {
        let ghost before = text@;
        proof {
            let next = cells@.take(i + 1);
            assert(next.drop_last() == cells@.take(i as int));
            assert(next.last() == cells@[i as int]);
        }
        if i > 0 {
            proof {
                reveal_strlit(", ");
            }
            text.append(", ");
            assert(text@ =~= before + seq![',', ' ']);
        }
        push_decimal(text, cells[i]);
        assert(text@ =~= old(text)@ + listed(cells@.take(i + 1)));
        i += 1;
    }
    assert(cells@.take(cells@.len() as int) == cells@);
}

/// The line that an output instruction writes for a value.
pub fn format_output(value: isize) -> (line: String)
    ensures
        line@ == output_line(value as int),
{
    let mut line: String = String::new();
    push_decimal(&mut line, value);
    proof {
        reveal_strlit("\n");
    }
    line.append("\n");
    assert(line@ =~= output_line(value as int));
    line
}

} // verus!
