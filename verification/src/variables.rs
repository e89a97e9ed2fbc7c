//! Variables, constants, and shadowing: a named constant built from an
//! arithmetic expression, and a variable shadowed across scopes.

use vstd::prelude::*;

verus! {

/// The number of seconds in a day.
pub const DAY_COUNTDOWN_SEC: u32 = 24 * 60 * 60;

/// Shadows a variable twice: the outer binding grows from one to six,
/// and an inner scope doubles it to twelve without touching the outer
/// value. Returns the outer and the inner value, in that order.
pub fn shadowing() -> (values: (i32, i32))
    ensures
        values == (6i32, 12i32),
{
    let x: i32 = 1;
    let x: i32 = x + 5;
    let inner: i32 = {
        let x: i32 = x * 2;
        x
    };
    (x, inner)
}

} // verus!
