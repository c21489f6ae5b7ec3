//! Validation of a guessed word before it is sent to the remote service.

use vstd::prelude::*;
use vstd::string::StrSliceExecFns;

verus! {

/// Number of characters in every guess.
pub const WORD_LENGTH: usize = 5;

/// Whether `c` is lowercase in the sense of Unicode, as `char::is_lowercase`
/// reports it.
pub uninterp spec fn lowercase(c: char) -> bool;

/// `char::is_lowercase` is a function of the character alone; its result is
/// the value that `lowercase` names. Nothing else is claimed of it.
pub assume_specification[ char::is_lowercase ](c: char) -> (lower: bool)
    ensures
        lower == lowercase(c),
;

/// A guess is acceptable when it has exactly `WORD_LENGTH` characters and
/// every one of them is lowercase.
pub open spec fn valid_word(word: Seq<char>) -> bool {
    &&& word.len() == WORD_LENGTH
    &&& forall|i: int| 0 <= i < word.len() ==> lowercase(#[trigger] word[i])
}

/// Checks a guess against `valid_word`.
pub fn is_valid_word(word: &str) -> (ok: bool)
    ensures
        ok == valid_word(word@),
{
    if word.unicode_len() != WORD_LENGTH {
        return false;
    }
    let mut i: usize = 0;
    while i < WORD_LENGTH
        invariant
            i <= WORD_LENGTH,
            word@.len() == WORD_LENGTH,
            forall|j: int| 0 <= j < i ==> lowercase(#[trigger] word@[j]),
        decreases WORD_LENGTH - i,
    {
        let c = word.get_char(i);
        if !c.is_lowercase() {
            return false;
        }
        i += 1;
    }
    true
}

} // verus!
