//! Reading the user's answer to the yes/no prompt.

use vstd::prelude::*;
use crate::text::{trim, to_lowercase, trimmed, lowercased};

verus! {

/// The one answer, after normalisation, that selects the commit path.
pub open spec fn affirmative() -> Seq<char> {
    seq!['y']
}

/// An answer as typed, normalised: trimmed of surrounding white space, then
/// lower-cased.
pub open spec fn normalized(answer: Seq<char>) -> Seq<char> {
    lowercased(trimmed(answer))
}

/// Whether a line of console input selects the commit path.
pub open spec fn selects_commit(answer: Seq<char>) -> bool {
    normalized(answer) == affirmative()
}

/// Decides on an answer that has already been trimmed and lower-cased:
/// only the single letter `y` selects the commit path.
pub fn normalized_is_yes(normalized: &str) -> (yes: bool)
    ensures
        yes == (normalized@ == affirmative()),
{
    let n: usize = normalized.unicode_len();
    if n != 1 {
        return false;
    }
    let c = normalized.get_char(0);
    proof {
        assert(c == 'y' ==> normalized@ =~= affirmative());
    }
    c == 'y'
}

/// Decides on a line as it was read from the console. Anything but `y`, in
/// either case and with any white space around it, cancels.
pub fn is_confirmation(answer: &str) -> (yes: bool)
    ensures
        yes == selects_commit(answer@),
{
    let lowered = to_lowercase(trim(answer));
    normalized_is_yes(lowered.as_str())
}

} // verus!
