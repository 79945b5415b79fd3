use intcode::find_noun_and_verb;
use intcode::machine::Machine;
use intcode::{MAGIC_NUM, SEARCH_RANGE};

// Leaves 613553 + 829440 * noun + verb at address 0.
const LINEAR: &str = "1,12,2,3,2,1,17,0,1,0,2,0,1,0,18,0,99,829440,613553";

#[test]
fn the_unique_pair_is_found() {
    assert_eq!(find_noun_and_verb(LINEAR, 100), Some((23, 47)));
    let mut machine = Machine::new(LINEAR);
    machine.write_mem(1, 23);
    machine.write_mem(2, 47);
    let mut output = Vec::new();
    assert_eq!(machine.execute("", &mut output, 100), Ok(MAGIC_NUM));
}

#[test]
fn no_pair_gives_none() {
    assert_eq!(find_noun_and_verb("1,0,0,0,99", 100), None);
    assert_eq!(find_noun_and_verb("99", 100), None);
}

#[test]
fn a_pair_out_of_range_is_not_found() {
    // Hits for noun 100 and verb 0 only.
    let program = "1,0,0,3,2,1,13,0,1,0,2,0,99,196907,20";
    assert_eq!(find_noun_and_verb(program, 100), None);
    assert_eq!(SEARCH_RANGE, 100);
}

#[test]
fn the_first_of_several_pairs_is_returned() {
    // Leaves 19690720 at address 0 whenever the noun is 3, whatever the verb.
    let program = "1101,0,0,3,1008,1,3,0,1002,0,19690720,0,99";
    assert_eq!(find_noun_and_verb(program, 100), Some((3, 0)));
}

#[test]
fn attempts_that_fail_count_as_misses() {
    // The first instruction jumps to the verb unless the noun is 0. Verb 0
    // loops for ever, verbs 1 to 3 end in an error or an early halt, and
    // verb 4 reaches the addition of the noun and 19690700.
    let program = "1105,1,4,99,1001,1,19690700,0,99";
    assert_eq!(find_noun_and_verb(program, 50), Some((20, 4)));
    // An input instruction finds no line to read.
    assert_eq!(find_noun_and_verb("3,0,0,1101,19690720,0,0,99", 50), None);
    // Without the budget to reach the halt nothing hits.
    assert_eq!(find_noun_and_verb(LINEAR, 4), None);
    assert_eq!(find_noun_and_verb(LINEAR, 5), Some((23, 47)));
}
