//! Small executable bridge between `&str`/`String` and the character
//! sequences the specifications speak of.

use vstd::prelude::*;
use vstd::std_specs::iter::IteratorSpec;

verus! {

/// Relies on `String::push`: appends exactly the given character.
pub assume_specification[ String::push ](s: &mut String, ch: char)
    ensures
        final(s)@ == old(s)@.push(ch),
;

/// Collects the characters of a string slice into a vector, in order.
pub fn chars_vec(s: &str) -> (v: Vec<char>)
    ensures
        v@ == s@,
{
    broadcast use vstd::string::group_string_axioms;

    let mut it = s.chars();
    let mut v: Vec<char> = Vec::new();
    loop
        invariant
            it.obeys_prophetic_iter_laws(),
            it.decrease() is Some,
            v@ + it.remaining() == s@,
        ensures
            v@ == s@,
        decreases it.decrease()->0,
    {
        match it.next() {
            Some(c) => {
                proof {
                    assert(v@.push(c) + it.remaining() =~= s@);
                }
                v.push(c);
            },
            None => {
                proof {
                    assert(it.remaining().len() == 0);
                    assert(v@ + it.remaining() =~= v@);
                }
                break;
            },
        }
    }
    proof {
        assert(v@ =~= s@);
    }
    v
}

} // verus!
