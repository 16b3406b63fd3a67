//! The watch-list: whose messages are forwarded.

use vstd::prelude::*;

verus! {

/// A login is watched when the list holds it, letter for letter.
pub open spec fn watched(login: Seq<char>, look_for: Seq<Seq<char>>) -> bool {
    look_for.contains(login)
}

/// Tells whether `login` is in the watch-list. Nothing is folded or trimmed: case counts.
pub fn is_watched(login: &String, look_for: &Vec<String>) -> (found: bool)
    ensures
        found == watched(login@, look_for.deep_view()),
{
    let mut i: usize = 0;
    while i < look_for.len()
        invariant
            i <= look_for.len(),
            forall|j: int| 0 <= j < i ==> look_for[j]@ != login@,
        decreases look_for.len() - i,
    {
        if look_for[i] == *login {
            assert(look_for.deep_view()[i as int] == login@);
            return true;
        }
        i += 1;
    }
    assert forall|j: int| 0 <= j < look_for.deep_view().len() implies look_for.deep_view()[j]
        != login@ by {
        assert(look_for.deep_view()[j] == look_for[j]@);
    }
    false
}

} // verus!
