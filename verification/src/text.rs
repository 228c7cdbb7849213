use vstd::prelude::*;
use vstd::string::StrSliceExecFns;

verus! {

/// The pattern `p` occurs in `s` starting at position `j`.
pub open spec fn match_at(s: Seq<char>, p: Seq<char>, j: int) -> bool {
    forall|k: int| 0 <= k < p.len() ==> s[j + k] == p[k]
}

/// The pattern `p` occurs somewhere in `s` (an empty pattern always occurs).
pub open spec fn spec_contains(s: Seq<char>, p: Seq<char>) -> bool {
    exists|j: int| 0 <= j && j + p.len() <= s.len() && match_at(s, p, j)
}

/// True when `a` and `b` are the same sequence of characters.
pub fn str_eq(a: &str, b: &str) -> (r: bool)
    ensures
        r == (a@ == b@),
{
    let n = a.unicode_len();
    if n != b.unicode_len() {
        proof {
            assert(a@.len() != b@.len());
        }
        return false;
    }
    let mut i: usize = 0;
    while i < n
        invariant
            n == a@.len(),
            n == b@.len(),
            i <= n,
            forall|j: int| 0 <= j < i ==> a@[j] == b@[j],
        decreases n - i,
    {
        if a.get_char(i) != b.get_char(i) {
            return false;
        }
        i += 1;
    }
    proof {
        assert(a@ =~= b@);
    }
    true
}

fn match_at_exec(s: &str, p: &str, j: usize) -> (r: bool)
    requires
        s@.len() <= usize::MAX,
        j + p@.len() <= s@.len(),
    ensures
        r == match_at(s@, p@, j as int),
{
    let m = p.unicode_len();
    let mut k: usize = 0;
    while k < m
        invariant
            m == p@.len(),
            j + m <= s@.len() <= usize::MAX,
            k <= m,
            forall|t: int| 0 <= t < k ==> s@[j + t] == p@[t],
        decreases m - k,
    {
        if s.get_char(j + k) != p.get_char(k) {
            proof {
                assert(s@[j as int + k as int] != p@[k as int]);
            }
            return false;
        }
        k += 1;
    }
    true
}

/// True when `p` occurs as a substring of `s`, in the sense of `spec_contains`.
pub fn contains_str(s: &str, p: &str) -> (r: bool)
    ensures
        r == spec_contains(s@, p@),
{
    let n = s.unicode_len();
    let m = p.unicode_len();
    if m > n {
        proof {
            assert(!spec_contains(s@, p@));
        }
        return false;
    }
    let mut j: usize = 0;
    while j <= n - m
        invariant
            n == s@.len(),
            m == p@.len(),
            m <= n <= usize::MAX,
            j <= n - m + 1,
            forall|t: int| 0 <= t < j ==> !match_at(s@, p@, t),
        decreases n - m - j + 1,
    {
        if match_at_exec(s, p, j) {
            proof {
                assert(0 <= j as int && j as int + p@.len() <= s@.len() && match_at(
                    s@,
                    p@,
                    j as int,
                ));
            }
            return true;
        }
        j += 1;
    }
    proof {
        assert forall|t: int| 0 <= t && t + p@.len() <= s@.len() implies !match_at(s@, p@, t) by {
            assert(t < j);
        }
    }
    false
}

} // verus!
