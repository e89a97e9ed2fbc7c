//! Slices: finding the first word of a sentence as a borrowed slice of
//! the input, and negating every element of a mutable integer slice.

use vstd::prelude::*;
use vstd::string::StrSliceExecFns;

verus! {

/// Whether `word` is the first word of `s`: the longest prefix of `s`
/// that holds no space, cut off right before the first space if there
/// is one.
pub open spec fn is_first_word(word: Seq<char>, s: Seq<char>) -> bool {
    &&& word.len() <= s.len()
    &&& word == s.subrange(0, word.len() as int)
    &&& forall|i: int| 0 <= i < word.len() ==> s[i] != ' '
    &&& word.len() < s.len() ==> s[word.len() as int] == ' '
}

/// The first word of a sentence held in an owned string, borrowed from
/// the input rather than copied.
pub fn first_word(s: &String) -> (word: &str)
    ensures
        is_first_word(word@, s@),
{
    first_word_improved(s.as_str())
}

/// The first word of any string slice: everything before the first
/// space, or the whole slice when it has no space.
pub fn first_word_improved(s: &str) -> (word: &str)
    ensures
        is_first_word(word@, s@),
{
    let len: usize = s.unicode_len();
    let mut i: usize = 0;
    while i < len
        invariant
            i <= len,
            len == s@.len(),
            forall|j: int| 0 <= j < i ==> s@[j] != ' ',
        decreases len - i,
    {
        if s.get_char(i) == ' ' {
            let word: &str = s.substring_char(0, i);
            return word;
        }
        i = i + 1;
    }
    proof {
        assert(s@ =~= s@.subrange(0, s@.len() as int));
    }
    s
}

/// Negates every element of a mutable slice in place, keeping the
/// length and the positions.
pub fn mutable_slice(numbers: &mut [i32])
    requires
        forall|i: int| 0 <= i < old(numbers)@.len() ==> old(numbers)@[i] != i32::MIN,
    ensures
        final(numbers)@.len() == old(numbers)@.len(),
        forall|i: int| 0 <= i < old(numbers)@.len() ==> final(numbers)@[i] == -old(numbers)@[i],
{
    let len: usize = numbers.len();
    let mut index: usize = 0;
    while index < len
        invariant
            index <= len,
            len == numbers@.len(),
            len == old(numbers)@.len(),
            forall|i: int| 0 <= i < old(numbers)@.len() ==> old(numbers)@[i] != i32::MIN,
            forall|i: int| index <= i < len ==> numbers@[i] == old(numbers)@[i],
            forall|i: int| 0 <= i < index ==> numbers@[i] == -old(numbers)@[i],
        decreases len - index,
    {
        let number: i32 = numbers[index];
        numbers[index] = -number;
        index = index + 1;
    }
}

} // verus!
