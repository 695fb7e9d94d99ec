//! Character-level string helpers shared by the parsing code.

use vstd::prelude::*;

verus! {

/// The index of the first occurrence of `c` in `s`, or -1 when `c`
/// does not occur.
pub open spec fn find_in(s: Seq<char>, c: char) -> int
    decreases s.len(),
{
    if s.len() == 0 {
        -1
    } else if s[0] == c {
        0
    } else {
        let rest = find_in(s.drop_first(), c);
        if rest < 0 {
            -1
        } else {
            rest + 1
        }
    }
}

/// What [`find_in`] returns: either -1 and no occurrence, or the first
/// position holding `c`.
pub proof fn lemma_find_in(s: Seq<char>, c: char)
    ensures
        find_in(s, c) == -1 || (0 <= find_in(s, c) < s.len() && s[find_in(s, c)] == c),
        find_in(s, c) == -1 ==> forall|i: int| 0 <= i < s.len() ==> s[i] != c,
        forall|i: int| 0 <= i < find_in(s, c) ==> s[i] != c,
    decreases s.len(),
{
    if s.len() > 0 && s[0] != c {
        lemma_find_in(s.drop_first(), c);
        assert forall|i: int| 0 <= i < s.len() && find_in(s, c) == -1 implies s[i] != c by {
            if i > 0 {
                assert(s.drop_first()[i - 1] == s[i]);
            }
        }
        assert forall|i: int| 0 <= i < find_in(s, c) implies s[i] != c by {
            if i > 0 {
                assert(s.drop_first()[i - 1] == s[i]);
            }
        }
    }
}

/// The first occurrence is the only index that matches `c` with no
/// earlier match.
pub proof fn lemma_find_in_at(s: Seq<char>, c: char, i: int)
    requires
        0 <= i < s.len(),
        s[i] == c,
        forall|k: int| 0 <= k < i ==> s[k] != c,
    ensures
        find_in(s, c) == i,
{
    lemma_find_in(s, c);
    let f = find_in(s, c);
    if f == -1 {
    } else if f < i {
    } else if f > i {
        assert(s[i] != c);
    }
}

/// When no index matches `c`, [`find_in`] reports -1.
pub proof fn lemma_find_in_none(s: Seq<char>, c: char)
    requires
        forall|k: int| 0 <= k < s.len() ==> s[k] != c,
    ensures
        find_in(s, c) == -1,
{
    lemma_find_in(s, c);
    let f = find_in(s, c);
    if f >= 0 {
        assert(s[f] != c);
    }
}

/// Scans `s` for the first occurrence of `c`.
pub fn find_char(s: &str, c: char) -> (r: Option<usize>)
    ensures
        match r {
            Some(i) => find_in(s@, c) == i as int,
            None => find_in(s@, c) == -1,
        },
{
    let n: usize = s.unicode_len();
    let mut i: usize = 0;
    while i < n
        invariant
            i <= n,
            n == s@.len(),
            forall|k: int| 0 <= k < i ==> s@[k] != c,
        decreases n - i,
    {
        if s.get_char(i) == c {
            proof {
                lemma_find_in_at(s@, c, i as int);
            }
            return Some(i);
        }
        i = i + 1;
    }
    proof {
        lemma_find_in_none(s@, c);
    }
    None
}

/// The index of the first occurrence of `c` twice in a row in `s`,
/// or -1 when that never happens.
pub open spec fn find_pair(s: Seq<char>, c: char) -> int
    decreases s.len(),
{
    if s.len() < 2 {
        -1
    } else if s[0] == c && s[1] == c {
        0
    } else {
        let rest = find_pair(s.drop_first(), c);
        if rest < 0 {
            -1
        } else {
            rest + 1
        }
    }
}

/// What [`find_pair`] returns: either -1 and no doubled `c`, or the
/// first position where `c` stands twice.
pub proof fn lemma_find_pair(s: Seq<char>, c: char)
    ensures
        find_pair(s, c) == -1 || (0 <= find_pair(s, c) && find_pair(s, c) + 1 < s.len()
            && s[find_pair(s, c)] == c && s[find_pair(s, c) + 1] == c),
        find_pair(s, c) == -1 ==> forall|i: int|
            0 <= i && i + 1 < s.len() ==> !((#[trigger] s[i]) == c && s[i + 1] == c),
        forall|i: int| 0 <= i < find_pair(s, c) ==> !((#[trigger] s[i]) == c && s[i + 1] == c),
    decreases s.len(),
{
    if s.len() >= 2 && !(s[0] == c && s[1] == c) {
        lemma_find_pair(s.drop_first(), c);
        assert forall|i: int|
            0 <= i && i + 1 < s.len() && find_pair(s, c) == -1 implies !((#[trigger] s[i]) == c
            && s[i + 1] == c) by {
            if i > 0 {
                assert(s.drop_first()[i - 1] == s[i]);
                assert(s.drop_first()[i] == s[i + 1]);
            }
        }
        assert forall|i: int| 0 <= i < find_pair(s, c) implies !((#[trigger] s[i]) == c && s[i
            + 1] == c) by {
            if i > 0 {
                assert(s.drop_first()[i - 1] == s[i]);
                assert(s.drop_first()[i] == s[i + 1]);
            }
        }
    }
}

/// The first doubled `c` is the only candidate with no earlier one.
pub proof fn lemma_find_pair_at(s: Seq<char>, c: char, i: int)
    requires
        0 <= i,
        i + 1 < s.len(),
        s[i] == c,
        s[i + 1] == c,
        forall|k: int| 0 <= k < i ==> !((#[trigger] s[k]) == c && s[k + 1] == c),
    ensures
        find_pair(s, c) == i,
{
    lemma_find_pair(s, c);
    let f = find_pair(s, c);
    if f == -1 {
    } else if f < i {
    } else if f > i {
        assert(!(s[i] == c && s[i + 1] == c));
    }
}

/// When `c` never stands twice in a row, [`find_pair`] reports -1.
pub proof fn lemma_find_pair_none(s: Seq<char>, c: char)
    requires
        forall|k: int| 0 <= k && k + 1 < s.len() ==> !((#[trigger] s[k]) == c && s[k + 1] == c),
    ensures
        find_pair(s, c) == -1,
{
    lemma_find_pair(s, c);
    let f = find_pair(s, c);
    if f >= 0 {
        assert(!(s[f] == c && s[f + 1] == c));
    }
}

/// Scans `s` for the first occurrence of `c` twice in a row.
pub fn find_pair_char(s: &str, c: char) -> (r: Option<usize>)
    ensures
        match r {
            Some(i) => find_pair(s@, c) == i as int,
            None => find_pair(s@, c) == -1,
        },
{
    let n: usize = s.unicode_len();
    if n < 2 {
        proof {
            lemma_find_pair_none(s@, c);
        }
        return None;
    }
    let mut i: usize = 0;
    while i < n - 1
        invariant
            i <= n,
            n >= 2,
            n == s@.len(),
            forall|k: int| 0 <= k < i ==> !((#[trigger] s@[k]) == c && s@[k + 1] == c),
        decreases n - i,
    {
        if s.get_char(i) == c && s.get_char(i + 1) == c {
            proof {
                lemma_find_pair_at(s@, c, i as int);
            }
            return Some(i);
        }
        i = i + 1;
    }
    proof {
        lemma_find_pair_none(s@, c);
    }
    None
}

/// Character-wise string equality, decided without an assumed
/// comparison implementation.
pub fn str_eq(a: &str, b: &str) -> (r: bool)
    ensures
        r == (a@ == b@),
{
    let n: usize = a.unicode_len();
    if n != b.unicode_len() {
        return false;
    }
    let mut i: usize = 0;
    while i < n
        invariant
            i <= n,
            n == a@.len(),
            n == b@.len(),
            forall|k: int| 0 <= k < i ==> a@[k] == b@[k],
        decreases n - i,
    {
        if a.get_char(i) != b.get_char(i) {
            return false;
        }
        i = i + 1;
    }
    proof {
        assert(a@ =~= b@);
    }
    true
}

} // verus!
