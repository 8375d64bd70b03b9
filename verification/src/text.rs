//! Character scanning shared by the listing and content modules.

use vstd::prelude::*;

verus! {

/// The position of the last occurrence of `c` in `s`, or `-1` when `c`
/// does not occur.
pub open spec fn last_pos(s: Seq<char>, c: char) -> int
    decreases s.len(),
{
    if s.len() == 0 {
        -1
    } else if s[s.len() - 1] == c {
        s.len() - 1
    } else {
        last_pos(s.drop_last(), c)
    }
}

pub proof fn lemma_last_pos_bounds(s: Seq<char>, c: char)
    ensures
        -1 <= last_pos(s, c) < s.len(),
        last_pos(s, c) >= 0 ==> s[last_pos(s, c)] == c,
        forall|j: int| last_pos(s, c) < j < s.len() ==> s[j] != c,
    decreases s.len(),
{
    if s.len() > 0 && s[s.len() - 1] != c {
        lemma_last_pos_bounds(s.drop_last(), c);
        assert(forall|j: int| 0 <= j < s.len() - 1 ==> s[j] == s.drop_last()[j]);
    }
}

/// Finds the last occurrence of `c` in `s`: `Some` exactly when `c`
/// occurs, and then its position.
pub fn last_char_pos(s: &str, c: char) -> (r: Option<usize>)
    ensures
        r is Some <==> last_pos(s@, c) >= 0,
        r matches Some(p) ==> p == last_pos(s@, c),
{
    let len = s.unicode_len();
    let mut i: usize = len;
    assert(s@.subrange(0, len as int) =~= s@);
    while i > 0
        invariant
            len == s@.len(),
            i <= len,
            last_pos(s@, c) == last_pos(s@.subrange(0, i as int), c),
        decreases i,
    {
        let prefix = Ghost(s@.subrange(0, i as int));
        if s.get_char(i - 1) == c {
            assert(last_pos(prefix@, c) == i - 1);
            return Some(i - 1);
        }
        assert(prefix@.drop_last() =~= s@.subrange(0, i - 1 as int));
        i -= 1;
    }
    assert(s@.subrange(0, 0) =~= Seq::<char>::empty());
    None
}

} // verus!
