//! Comparing and joining pieces of text.

use vstd::prelude::*;
use vstd::utf8::*;

verus! {

/// Whether two pieces of text hold the same characters.
pub fn same_text(a: &str, b: &str) -> (same: bool)
    ensures
        same == (a@ == b@),
{
    let x = a.as_bytes();
    let y = b.as_bytes();
    proof {
        encode_utf8_decode_utf8(a@);
        encode_utf8_decode_utf8(b@);
    }
    if x.len() != y.len() {
        return false;
    }
    let mut i: usize = 0;
    while i < x.len()
        invariant
            i <= x.len(),
            x.len() == y.len(),
            x@ == encode_utf8(a@),
            y@ == encode_utf8(b@),
            forall|j: int| 0 <= j < i ==> x@[j] == y@[j],
        decreases x.len() - i,
    {
        if x[i] != y[i] {
            return false;
        }
        i += 1;
    }
    assert(x@ =~= y@);
    true
}

/// The three pieces one after the other.
pub fn join3(head: &str, middle: &str, tail: &str) -> (joined: String)
    ensures
        joined@ == head@ + middle@ + tail@,
{
    let mut joined = String::from_str(head);
    joined.append(middle);
    joined.append(tail);
    joined
}

} // verus!
