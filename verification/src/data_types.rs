//! Compound data types: a fixed-size array that is read, updated in
//! place, and indexed, and a tuple that is unpacked into its parts.

use vstd::prelude::*;

verus! {

/// Builds the demo array `[1, 2, 3, 4, 5]`, then overwrites its first
/// element with `10`, exactly as the array walkthrough does.
pub fn arrays_demo_numbers() -> (numbers: [i32; 5])
    ensures
        numbers@ =~= seq![10i32, 2i32, 3i32, 4i32, 5i32],
{
    let mut numbers: [i32; 5] = [1, 2, 3, 4, 5];
    numbers[0] = 10;
    numbers
}

/// The element of the array at `index`. Callers must stay in bounds;
/// an unchecked index on the demo array would otherwise abort.
pub fn element_at(numbers: &[i32; 5], index: usize) -> (element: i32)
    requires
        index < 5,
    ensures
        element == numbers@[index as int],
{
    numbers[index]
}

/// Unpacks a tuple of three colors into its components, in order.
pub fn tuple_demo(colors: (&'static str, &'static str, &'static str)) -> (parts: (
    &'static str,
    &'static str,
    &'static str,
))
    ensures
        parts == colors,
{
    let (red, blue, yellow) = colors;
    (red, blue, yellow)
}

} // verus!
