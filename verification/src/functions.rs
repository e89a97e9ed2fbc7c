//! Functions, statements, and expressions: a block used as an
//! expression, and small constructors that return an array, a tuple,
//! a borrowed string, and an owned string.

use vstd::prelude::*;

verus! {

/// A block expression seeds a variable with sixteen, and a later
/// statement raises it to forty-six; both values are returned in order.
pub fn expr_demo() -> (values: (i32, i32))
    ensures
        values == (16i32, 46i32),
{
    let mut x: i32 = {
        let y: i32 = 1;
        y + 15
    };
    let before: i32 = x;
    x = x + 30;
    (before, x)
}

/// An array of five elements, each equal to three.
pub fn create_five_numbers() -> (numbers: [i32; 5])
    ensures
        numbers@ =~= seq![3i32, 3i32, 3i32, 3i32, 3i32],
{
    [3; 5]
}

/// The pair `('a', 'b')`, ready to be unpacked by the caller.
pub fn create_a_tuple() -> (pair: (char, char))
    ensures
        pair == ('a', 'b'),
{
    ('a', 'b')
}

/// A borrowed string: a literal that lives for the whole program.
pub fn create_a_borrowed_string() -> (name: &'static str)
    ensures
        name@ == "Ioannis"@,
{
    "Ioannis"
}

/// An owned string with the same contents as the borrowed one.
pub fn create_a_owned_string() -> (name: String)
    ensures
        name@ == "Ioannis"@,
{
    "Ioannis".to_owned()
}

} // verus!
