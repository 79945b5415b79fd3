//! An interpreter for Intcode programs: a memory of signed integers that is
//! read as instructions and operands, with three addressing modes, memory
//! that grows on demand, and line-based input and output.

pub mod instruction;
pub mod laws;
pub mod machine;
pub mod model;
pub mod opcode;
pub mod text;

use machine::Machine;
use model::{write_cell, MachineError, State};
use text::program_of;
use vstd::prelude::*;

verus! {

/// The value at address 0 that `find_noun_and_verb` looks for.
pub const MAGIC_NUM: isize = 19_690_720;

/// The exclusive upper bound of the nouns and verbs that are tried.
pub const SEARCH_RANGE: isize = 100;

/// The result of running a program, without input and for at most `budget`
/// instructions, after `noun` has been stored at address 1 and `verb` at
/// address 2.
pub open spec fn attempt(program: Seq<isize>, noun: isize, verb: isize, budget: nat) -> Result<
    isize,
    MachineError,
> {
    State::initial(write_cell(write_cell(program, 1, noun), 2, verb)).run(
        Seq::empty(),
        Seq::empty(),
        budget,
    ).result
}

/// Whether a noun and a verb within the search range make the program halt
/// with the value looked for at address 0.
pub open spec fn hits(program: Seq<isize>, noun: int, verb: int, budget: nat) -> bool {
    &&& 0 <= noun < SEARCH_RANGE
    &&& 0 <= verb < SEARCH_RANGE
    &&& attempt(program, noun as isize, verb as isize, budget) == Ok::<isize, MachineError>(
        MAGIC_NUM,
    )
}

/// Whether one pair is tried before another: nouns ascend, and for each
/// noun the verbs ascend.
pub open spec fn tried_before(noun: int, verb: int, other_noun: int, other_verb: int) -> bool {
    noun < other_noun || (noun == other_noun && verb < other_verb)
}

/// Whether `found` is the outcome of the search: the first pair that hits,
/// nouns ascending and verbs ascending for each noun, or `None` where no
/// pair hits.
pub open spec fn first_hit(program: Seq<isize>, budget: nat, found: Option<(isize, isize)>) -> bool {
    match found {
        Some((noun, verb)) => {
            &&& hits(program, noun as int, verb as int, budget)
            &&& forall|n: int, v: int|
                tried_before(n, v, noun as int, verb as int) ==> !hits(program, n, v, budget)
        },
        None => forall|n: int, v: int| !hits(program, n, v, budget),
    }
}

/// Where exactly one pair hits, the search returns that pair.
pub proof fn law_unique_hit(
    program: Seq<isize>,
    budget: nat,
    found: Option<(isize, isize)>,
    noun: int,
    verb: int,
)
    requires
        first_hit(program, budget, found),
        hits(program, noun, verb, budget),
        forall|n: int, v: int| hits(program, n, v, budget) ==> n == noun && v == verb,
    ensures
        found == Some((noun as isize, verb as isize)),
{
    match found {
        Some((n, v)) => {
            assert(hits(program, n as int, v as int, budget));
        },
        None => {},
    }
}

/// Searches for the noun and the verb, each from 0 up to 99, that make the
/// program halt with `MAGIC_NUM` at address 0 once they are stored at
/// addresses 1 and 2. Each attempt runs a fresh machine without input for
/// at most `budget` instructions; one that fails or runs out of budget
/// counts as a miss. Returns the first pair that hits, nouns ascending and
/// verbs ascending for each noun, or `None` where none does.
pub fn find_noun_and_verb(src: &str, budget: u64) -> (found: Option<(isize, isize)>)
    requires
        program_of(src@) is Some,
    ensures
        first_hit(program_of(src@)->0, budget as nat, found),
{
    let ghost program = program_of(src@)->0;
    let mut noun: isize = 0;
    while noun < SEARCH_RANGE
        invariant
            0 <= noun <= SEARCH_RANGE,
            program_of(src@) == Some(program),
            forall|n: int, v: int| n < noun ==> !hits(program, n, v, budget as nat),
        decreases SEARCH_RANGE - noun,
    {
        let mut verb: isize = 0;
        while verb < SEARCH_RANGE
            invariant
                0 <= noun < SEARCH_RANGE,
                0 <= verb <= SEARCH_RANGE,
                program_of(src@) == Some(program),
                forall|n: int, v: int|
                    tried_before(n, v, noun as int, verb as int) ==> !hits(
                        program,
                        n,
                        v,
                        budget as nat,
                    ),
            decreases SEARCH_RANGE - verb,
        {
            let mut machine: Machine = Machine::new(src);
            machine.write_mem(1, noun);
            machine.write_mem(2, verb);
            let mut output: Vec<isize> = Vec::new();
            proof {
                reveal_strlit("");
                assert(""@ == Seq::<char>::empty());
            }
            let result: Result<isize, MachineError> = machine.execute("", &mut output, budget);
            match result {
                Ok(value) => {
                    if value == MAGIC_NUM {
                        return Some((noun, verb));
                    }
                },
                Err(_) => {},
            }
            verb += 1;
        }
        noun += 1;
    }
    None
}

} // verus!
