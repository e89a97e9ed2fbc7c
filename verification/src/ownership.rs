//! Ownership and moves: a heap string grown in place, a function that
//! hands ownership of a fresh value to its caller, and one that takes a
//! value and gives the very same value back.

use vstd::prelude::*;
use vstd::string::StringExecFns;

verus! {

/// Builds `"Foo"` on the heap and grows it in place to `"Foo Bar"`,
/// the mutation a `String` allows that a literal does not.
pub fn the_string_type_demo() -> (s: String)
    ensures
        s@ == "Foo Bar"@,
{
    let mut s: String = "Foo".to_owned();
    s.append(" Bar");
    proof {
        reveal_strlit("Foo");
        reveal_strlit(" Bar");
        reveal_strlit("Foo Bar");
        assert(s@ =~= "Foo Bar"@);
    }
    s
}

/// Creates a string and moves it out: the caller becomes its owner.
pub fn gives_ownership() -> (s: String)
    ensures
        s@ == "bar string"@,
{
    "bar string".to_owned()
}

/// Takes ownership of a string and returns it unchanged, moving the
/// value back to the caller.
pub fn take_and_give_back(s: String) -> (r: String)
    ensures
        r == s,
{
    s
}

} // verus!
