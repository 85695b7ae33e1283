//! Character and string helpers: ASCII case folding, equality and prefix
//! tests, specified over `Seq<char>` views.

use vstd::prelude::*;
use vstd::string::StrSliceExecFns;

verus! {

/// An ASCII upper-case letter.
pub open spec fn is_upper(c: char) -> bool {
    65 <= c as u32 && c as u32 <= 90
}

/// ASCII lower-casing of one character; all other characters are unchanged.
pub open spec fn lower_char(c: char) -> char {
    if is_upper(c) {
        ((c as u32 + 32) as char)
    } else {
        c
    }
}

/// ASCII lower-casing of a whole string.
pub open spec fn lower(s: Seq<char>) -> Seq<char> {
    s.map_values(|c: char| lower_char(c))
}

/// Compares two characters up to ASCII case.
pub fn chars_eq_ci(a: char, b: char) -> (r: bool)
    ensures
        r == (lower_char(a) == lower_char(b)),
{
    let au: u32 = a as u32;
    let bu: u32 = b as u32;
    let al: u32 = if 65 <= au && au <= 90 { au + 32 } else { au };
    let bl: u32 = if 65 <= bu && bu <= 90 { bu + 32 } else { bu };
    proof {
        assert(lower_char(a) as u32 == al);
        assert(lower_char(b) as u32 == bl);
    }
    al == bl
}

/// Case-insensitive string equality (ASCII case only).
pub fn str_eq_ci(a: &str, b: &str) -> (r: bool)
    ensures
        r == (lower(a@) == lower(b@)),
{
    let alen: usize = a.unicode_len();
    let blen: usize = b.unicode_len();
    if alen != blen {
        proof {
            assert(lower(a@).len() != lower(b@).len());
        }
        return false;
    }
    let mut i: usize = 0;
    while i < alen
        invariant
            alen == a@.len(),
            alen == b@.len(),
            i <= alen,
            forall|j: int| 0 <= j < i ==> lower_char(a@[j]) == lower_char(b@[j]),
        decreases alen - i,
    {
        if !chars_eq_ci(a.get_char(i), b.get_char(i)) {
            proof {
                assert(lower(a@)[i as int] != lower(b@)[i as int]);
            }
            return false;
        }
        i = i + 1;
    }
    proof {
        assert(lower(a@) =~= lower(b@));
    }
    true
}

/// Exact string equality.
pub fn str_eq(a: &str, b: &str) -> (r: bool)
    ensures
        r == (a@ == b@),
{
    let alen: usize = a.unicode_len();
    let blen: usize = b.unicode_len();
    if alen != blen {
        return false;
    }
    let mut i: usize = 0;
    while i < alen
        invariant
            alen == a@.len(),
            alen == b@.len(),
            i <= alen,
            forall|j: int| 0 <= j < i ==> a@[j] == b@[j],
        decreases alen - i,
    {
        if a.get_char(i) != b.get_char(i) {
            return false;
        }
        i = i + 1;
    }
    proof {
        assert(a@ =~= b@);
    }
    true
}

/// `q` occurs in `s` at position `i`, both taken case-insensitively.
pub open spec fn match_at(s: Seq<char>, q: Seq<char>, i: int) -> bool {
    0 <= i && i + q.len() <= s.len() && lower(s.subrange(i, i + q.len())) == lower(q)
}

/// `q` occurs somewhere in `s`, case-insensitively. An empty `q` occurs
/// everywhere.
pub open spec fn contains_ci_spec(s: Seq<char>, q: Seq<char>) -> bool {
    exists|i: int| match_at(s, q, i)
}

/// Case-insensitive substring search (ASCII case only).
pub fn contains_ci(s: &str, q: &str) -> (r: bool)
    ensures
        r == contains_ci_spec(s@, q@),
{
    let slen: usize = s.unicode_len();
    let qlen: usize = q.unicode_len();
    if qlen > slen {
        proof {
            assert forall|i: int| !match_at(s@, q@, i) by {}
        }
        return false;
    }
    let mut i: usize = 0;
    while i <= slen - qlen
        invariant
            slen == s@.len(),
            qlen == q@.len(),
            qlen <= slen,
            i <= slen - qlen + 1,
            forall|k: int| 0 <= k < i ==> !match_at(s@, q@, k),
        decreases slen + 1 - qlen - i,
    {
        let mut j: usize = 0;
        while j < qlen && chars_eq_ci(s.get_char(i + j), q.get_char(j))
            invariant
                slen == s@.len(),
                qlen == q@.len(),
                i + qlen <= slen,
                j <= qlen,
                forall|t: int| 0 <= t < j ==> lower_char(s@[i + t]) == lower_char(q@[t]),
            decreases qlen - j,
        {
            j = j + 1;
        }
        if j == qlen {
            proof {
                let sub = s@.subrange(i as int, i + q@.len());
                assert forall|t: int| 0 <= t < lower(sub).len() implies lower(sub)[t] == lower(
                    q@,
                )[t] by {
                    assert(sub[t] == s@[i + t]);
                }
                assert(lower(sub) =~= lower(q@));
                assert(match_at(s@, q@, i as int));
            }
            return true;
        }
        proof {
            assert(j < qlen);
            assert(lower_char(s@[i + j]) != lower_char(q@[j as int]));
            assert(!match_at(s@, q@, i as int)) by {
                if match_at(s@, q@, i as int) {
                    let sub = s@.subrange(i as int, i + q@.len());
                    assert(lower(sub)[j as int] == lower(q@)[j as int]);
                    assert(sub[j as int] == s@[i + j]);
                }
            }
        }
        i = i + 1;
    }
    proof {
        assert forall|k: int| !match_at(s@, q@, k) by {
            if 0 <= k && k + q@.len() <= s@.len() {
                assert(k < i);
            }
        }
    }
    false
}

/// Index of the last occurrence of `c` in `s`, or -1 when `c` does not occur.
pub open spec fn last_index(s: Seq<char>, c: char) -> int
    decreases s.len(),
{
    if s.len() == 0 {
        -1
    } else if s.last() == c {
        s.len() - 1
    } else {
        last_index(s.drop_last(), c)
    }
}

/// `last_index` is a position in `s` holding `c`, or -1.
pub proof fn lemma_last_index_bounds(s: Seq<char>, c: char)
    ensures
        -1 <= last_index(s, c) < s.len(),
        last_index(s, c) >= 0 ==> s[last_index(s, c)] == c,
    decreases s.len(),
{
    if s.len() > 0 && s.last() != c {
        lemma_last_index_bounds(s.drop_last(), c);
    }
}

pub fn find_last(s: &str, c: char) -> (r: Option<usize>)
    ensures
        match r {
            Some(i) => i == last_index(s@, c),
            None => last_index(s@, c) == -1,
        },
{
    let len: usize = s.unicode_len();
    let mut j: usize = len;
    proof {
        assert(s@.take(len as int) =~= s@);
    }
    while j > 0
        invariant
            len == s@.len(),
            j <= len,
            last_index(s@, c) == last_index(s@.take(j as int), c),
        decreases j,
    {
        let ghost pre = s@.take(j as int);
        if s.get_char(j - 1) == c {
            proof {
                assert(pre.last() == c);
            }
            return Some(j - 1);
        }
        j = j - 1;
        proof {
            assert(pre.last() != c);
            assert(pre.drop_last() =~= s@.take(j as int));
        }
    }
    proof {
        assert(s@.take(0) =~= Seq::<char>::empty());
    }
    None
}

/// `p` is a prefix of `s`.
pub open spec fn starts_with(s: Seq<char>, p: Seq<char>) -> bool {
    p.len() <= s.len() && s.subrange(0, p.len() as int) == p
}

pub fn str_starts_with(s: &str, p: &str) -> (r: bool)
    ensures
        r == starts_with(s@, p@),
{
    let slen: usize = s.unicode_len();
    let plen: usize = p.unicode_len();
    if plen > slen {
        return false;
    }
    let mut i: usize = 0;
    while i < plen
        invariant
            slen == s@.len(),
            plen == p@.len(),
            plen <= slen,
            i <= plen,
            forall|j: int| 0 <= j < i ==> s@[j] == p@[j],
        decreases plen - i,
    {
        if s.get_char(i) != p.get_char(i) {
            proof {
                assert(s@.subrange(0, p@.len() as int)[i as int] != p@[i as int]);
            }
            return false;
        }
        i = i + 1;
    }
    proof {
        assert(s@.subrange(0, p@.len() as int) =~= p@);
    }
    true
}

} // verus!
