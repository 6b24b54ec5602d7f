//! Small helpers on text that the other modules share.

use vstd::prelude::*;
use vstd::string::*;

verus! {

/// What `str::trim` leaves of a text: the text without its leading and
/// trailing whitespace, in the sense of the Unicode property `White_Space`.
pub uninterp spec fn trimmed(text: Seq<char>) -> Seq<char>;

/// Calls `str::trim`. Nothing is proved of it: the result is, by
/// definition, what `trimmed` names.
#[verifier::external_body]
pub(crate) fn trim(text: &str) -> (r: &str)
    ensures
        r@ == trimmed(text@),
{
    text.trim()
}

/// The three texts one after another.
pub fn join3(first: &str, second: &str, third: &str) -> (r: String)
    ensures
        r@ == first@ + second@ + third@,
{
    let mut out = String::from_str(first);
    out.append(second);
    out.append(third);
    out
}

} // verus!
