//! First-match lookup: how a dispatch picks its branch and how the graph
//! finds a node by its name.

use vstd::prelude::*;
use crate::text::{same_text, texts};

verus! {

/// The least position at or after `from` at which `s` holds `x`.
pub open spec fn first_position_from<T>(s: Seq<T>, x: T, from: int) -> Option<int>
    decreases s.len() - from,
{
    if from < 0 || from >= s.len() {
        None
    } else if s[from] == x {
        Some(from)
    } else {
        first_position_from(s, x, from + 1)
    }
}

/// The least position at which `s` holds `x`.
pub open spec fn first_position<T>(s: Seq<T>, x: T) -> Option<int> {
    first_position_from(s, x, 0)
}

/// What [`first_position_from`] finds holds `x` and nothing between `from`
/// and it does; where it finds nothing, nothing from `from` on holds `x`.
pub proof fn lemma_first_position_from<T>(s: Seq<T>, x: T, from: int)
    requires
        0 <= from <= s.len(),
    ensures
        match first_position_from(s, x, from) {
            Some(i) => from <= i < s.len() && s[i] == x && forall|j: int|
                from <= j < i ==> s[j] != x,
            None => forall|j: int| from <= j < s.len() ==> s[j] != x,
        },
    decreases s.len() - from,
{
    if from < s.len() && s[from] != x {
        lemma_first_position_from(s, x, from + 1);
    }
}

/// A position that holds `x`, with no earlier one that does, is the first.
pub proof fn lemma_first_position_is<T>(s: Seq<T>, x: T, i: int)
    requires
        0 <= i < s.len(),
        s[i] == x,
        forall|j: int| 0 <= j < i ==> s[j] != x,
    ensures
        first_position(s, x) == Some(i),
{
    lemma_first_position_from(s, x, 0);
}

/// Where all items differ, each is first found at its own position.
pub proof fn lemma_first_position_of_distinct<T>(s: Seq<T>, i: int)
    requires
        s.no_duplicates(),
        0 <= i < s.len(),
    ensures
        first_position(s, s[i]) == Some(i),
{
    lemma_first_position_from(s, s[i], 0);
}

/// Whether `v` holds a string with the characters of `x`.
pub fn contains_text(v: &Vec<String>, x: &str) -> (found: bool)
    ensures
        found == texts(v@).contains(x@),
{
    let mut i: usize = 0;
    while i < v.len()
        invariant
            i <= v.len(),
            forall|j: int| 0 <= j < i ==> texts(v@)[j] != x@,
        decreases v.len() - i,
    {
        if same_text(v[i].as_str(), x) {
            assert(texts(v@)[i as int] == x@);
            return true;
        }
        i += 1;
    }
    false
}

} // verus!
