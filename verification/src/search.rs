//! Finding the first occurrence of a value in a sequence.
//!
//! Both the legacy property decoder (first null byte of a buffer) and the
//! record reader (first column with a given header) need the position of the
//! first element equal to some value. The spec side characterises that
//! position; the exec side finds it by a scan.

use vstd::prelude::*;

verus! {

/// `i` is the position of the first element of `s` equal to `x`.
pub open spec fn is_first_match<T>(s: Seq<T>, x: T, i: int) -> bool {
    &&& 0 <= i < s.len()
    &&& s[i] == x
    &&& forall|j: int| 0 <= j < i ==> s[j] != x
}

/// The position of the first element of `s` equal to `x` (meaningful only
/// when `s` contains `x`).
pub open spec fn first_match<T>(s: Seq<T>, x: T) -> int {
    choose|i: int| is_first_match(s, x, i)
}

/// At most one position is the first match, so `first_match` returns it.
pub proof fn lemma_first_match_is_unique<T>(s: Seq<T>, x: T, i: int)
    requires
        is_first_match(s, x, i),
    ensures
        first_match(s, x) == i,
{
    let j = first_match(s, x);
    assert(is_first_match(s, x, j));
    if j < i {
        assert(s[j] != x);
    }
    if i < j {
        assert(s[i] != x);
    }
}

/// The position of the first null byte of `v`, if any.
pub fn find_null(v: &Vec<u8>) -> (r: Option<usize>)
    ensures
        match r {
            Some(i) => is_first_match(v@, 0u8, i as int),
            None => !v@.contains(0u8),
        },
{
    let mut i: usize = 0;
    while i < v.len()
        invariant
            i <= v@.len(),
            forall|j: int| 0 <= j < i ==> v@[j] != 0u8,
        decreases v@.len() - i,
    {
        if v[i] == 0u8 {
            return Some(i);
        }
        i = i + 1;
    }
    assert(!v@.contains(0u8));
    None
}

/// The position of the first string of `row` equal to `needle`, if any.
pub fn find_column(row: &Vec<String>, needle: &String) -> (r: Option<usize>)
    ensures
        match r {
            Some(i) => is_first_match(row.deep_view(), needle@, i as int),
            None => !row.deep_view().contains(needle@),
        },
{
    let mut i: usize = 0;
    while i < row.len()
        invariant
            i <= row@.len(),
            forall|j: int| 0 <= j < i ==> row.deep_view()[j] != needle@,
        decreases row@.len() - i,
    {
        if row[i] == *needle {
            assert(row.deep_view()[i as int] == needle@);
            return Some(i);
        }
        assert(row.deep_view()[i as int] != needle@);
        i = i + 1;
    }
    assert(!row.deep_view().contains(needle@));
    None
}

} // verus!
