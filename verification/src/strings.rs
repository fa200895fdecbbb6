use vstd::prelude::*;

use vstd::string::StrSliceExecFns;

use crate::text::{lemma_rfind_before, lemma_rfind_before_is, rfind_before};

verus! {

/// Relies on String::push: appends the given character to the end of the
/// string.
pub assume_specification[ String::push ](s: &mut String, ch: char)
    ensures
        final(s)@ == old(s)@.push(ch),
;

/// Relies on String::pop: removes the last character from the string and
/// returns it, or returns None when the string is empty.
pub assume_specification[ String::pop ](s: &mut String) -> (r: Option<char>)
    ensures
        old(s)@.len() == 0 ==> r is None && final(s)@ == old(s)@,
        old(s)@.len() > 0 ==> r == Some(old(s)@.last()) && final(s)@ == old(s)@.drop_last(),
;

/// The display name of a path: everything after its last separator, or the
/// whole path when it has none.
pub open spec fn spec_file_name(p: Seq<char>) -> Seq<char> {
    match rfind_before(p, p.len() as int, '/') {
        Some(i) => p.subrange(i + 1, p.len() as int),
        None => p,
    }
}

/// Extract the display name from a path: the part after the last separator.
pub fn file_name_of(path: &str) -> (r: &str)
    ensures
        r@ == spec_file_name(path@),
{
    let n = path.unicode_len();
    let mut i: usize = n;
    while i > 0
        invariant
            i <= n,
            n == path@.len(),
            forall|j: int| i <= j < n ==> path@[j] != '/',
        decreases i,
    {
        if path.get_char(i - 1) == '/' {
            proof {
                lemma_rfind_before_is(path@, n as int, '/', i - 1);
            }
            return path.substring_char(i, n);
        }
        i -= 1;
    }
    proof {
        lemma_rfind_before(path@, n as int, '/');
    }
    path
}

} // verus!
