//! Control-flow walkthroughs: an `if` used as an expression, a named
//! (labelled) loop pair, a `while` loop over an array, and a `for` loop
//! over the characters of a string.

use vstd::prelude::*;
use vstd::string::StrSliceExecFns;

verus! {

/// Selects one of two fixed messages from a condition, the way a
/// conditional expression stands in for a ternary operator.
pub fn tenary_exp(something: bool) -> (something_else: &'static str)
    ensures
        something ==> something_else@ == "it's true"@,
        !something ==> something_else@ == "it's false"@,
{
    if something {
        "it's true"
    } else {
        "it's false"
    }
}

/// Two nested loops where the inner one exits the outer by a label:
/// the outer counter climbs until it reaches three, while the inner
/// countdown restarts from ten and stops at eight.
pub fn loop_with_name() -> (count: u32)
    ensures
        count == 3,
{
    let mut count: u32 = 0;
    'counting_up_loop: loop
        invariant_except_break
            count == 0 || count == 2,
        ensures
            count == 3,
        decreases 3 - count,
    {
        let ghost entry_count: u32 = count;
        let mut remaining: u32 = 10;
        loop
            invariant
                entry_count == 0 || entry_count == 2,
                count == entry_count + 10 - remaining,
                8 <= remaining <= 10,
                count <= 3,
            ensures
                entry_count == 0 && count == 2,
            decreases remaining,
        {
            if remaining == 8 {
                break;
            }
            if count == 3 {
                break 'counting_up_loop;
            }
            remaining = remaining - 1;
            count = count + 1;
        }
    }
    count
}

/// Walks an array front to back with an explicit counter, returning the
/// elements in the order the `while` loop visits them.
pub fn while_loop_demo(numbers: &[i32; 5]) -> (visited: Vec<i32>)
    ensures
        visited@ == numbers@,
{
    let mut visited: Vec<i32> = Vec::new();
    let mut counter: usize = 0;
    while counter < 5
        invariant
            counter <= 5,
            visited@ == numbers@.subrange(0, counter as int),
        decreases 5 - counter,
    {
        visited.push(numbers[counter]);
        counter = counter + 1;
    }
    proof {
        assert(visited@ =~= numbers@);
    }
    visited
}

/// Collects the characters of a phrase in order, as a `for` loop over
/// `chars` would visit them.
pub fn for_loop_in_string(some_phrase: &str) -> (chars: Vec<char>)
    ensures
        chars@ == some_phrase@,
{
    let len: usize = some_phrase.unicode_len();
    let mut chars: Vec<char> = Vec::new();
    let mut i: usize = 0;
    while i < len
        invariant
            i <= len,
            len == some_phrase@.len(),
            chars@ == some_phrase@.subrange(0, i as int),
        decreases len - i,
    {
        chars.push(some_phrase.get_char(i));
        i = i + 1;
    }
    proof {
        assert(chars@ =~= some_phrase@);
    }
    chars
}

} // verus!
