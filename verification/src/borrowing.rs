//! References and borrowing: reading through a shared reference,
//! writing through a mutable one, and the owned value a function must
//! return when no reference can outlive it.

use vstd::prelude::*;
use vstd::string::StringExecFns;
use vstd::utf8::encode_utf8;

verus! {

/// The length in bytes of a borrowed string, read without taking
/// ownership of it.
pub fn greet_length(s: &String) -> (len: usize)
    ensures
        len == encode_utf8(s@).len() as usize,
{
    s.as_str().len()
}

/// Appends `" bar bar"` to the string behind a mutable reference:
/// the one borrow that is allowed to modify the underlying value.
pub fn mutable_reference(s: &mut String)
    ensures
        final(s)@ == old(s)@ + " bar bar"@,
{
    s.append(" bar bar");
}

/// A function that builds a string locally must hand the owned value
/// out; a reference into the local would not survive the call.
pub fn dangle() -> (s: String)
    ensures
        s@ == "hello"@,
{
    "hello".to_owned()
}

} // verus!
