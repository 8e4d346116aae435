//! Verified equality of string slices, used to dispatch on the textual
//! keys of the configuration, input, output and introspection surfaces.
//!
//! Two slices are equal exactly when their character views are: the
//! comparison walks both character sequences and is proved against the
//! views, so key dispatch needs no trusted code.

use vstd::prelude::*;

verus! {

/// The two slices hold the same characters, i.e. their views are equal.
pub fn str_eq(a: &str, b: &str) -> (r: bool)
    ensures
        r == (a@ == b@),
{
    let la = a.unicode_len();
    let lb = b.unicode_len();
    if la != lb {
        assert(a@ != b@) by {
            assert(a@.len() != b@.len());
        }
        return false;
    }
    let mut i: usize = 0;
    while i < la
        invariant
            la as nat == a@.len(),
            la as nat == b@.len(),
            i <= la,
            forall|j: int| 0 <= j < i ==> a@[j] == b@[j],
        decreases la - i,
    {
        if a.get_char(i) != b.get_char(i) {
            assert(a@ != b@) by {
                assert(a@[i as int] != b@[i as int]);
            }
            return false;
        }
        i = i + 1;
    }
    assert(a@ =~= b@);
    true
}

} // verus!
