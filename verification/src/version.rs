//! The semantic-version constraint on version 3 documents: the value of
//! the "openapi" key must name a version of at least 3.0. Only the major
//! component decides; it is the run of digits before the first dot.

use vstd::prelude::*;
use vstd::string::StrSliceExecFns;

verus! {

/// The version every version 3 document must reach.
pub open spec fn spec_required_version() -> Seq<char> {
    ">= 3.0"@
}

pub open spec fn is_digit(c: char) -> bool {
    '0' <= c && c <= '9'
}

/// The length of the major component: the characters before the first
/// dot.
pub open spec fn major_len(s: Seq<char>) -> nat
    decreases s.len(),
{
    if s.len() == 0 {
        0
    } else if s[0] == '.' {
        0
    } else {
        1 + major_len(s.drop_first())
    }
}

/// The numeric value of a run of digits, most significant first.
pub open spec fn digits_val(s: Seq<char>) -> int
    decreases s.len(),
{
    if s.len() == 0 {
        0
    } else {
        digits_val(s.drop_last()) * 10 + (s.last() as int - '0' as int)
    }
}

/// A version string satisfies the constraint when its major component is
/// a nonempty run of digits whose value is at least 3.
pub open spec fn version_supported(s: Seq<char>) -> bool {
    let m = major_len(s) as int;
    &&& m > 0
    &&& (forall|j: int| 0 <= j < m ==> is_digit(#[trigger] s[j]))
    &&& digits_val(s.take(m)) >= 3
}

pub proof fn lemma_major_len_bound(s: Seq<char>)
    ensures
        major_len(s) <= s.len(),
    decreases s.len(),
{
    if s.len() > 0 && s[0] != '.' {
        lemma_major_len_bound(s.drop_first());
    }
}

/// The major component ends exactly at the first dot, or at the end of
/// the string.
pub proof fn lemma_major_len_at(s: Seq<char>, i: int)
    requires
        0 <= i <= s.len(),
        forall|j: int| 0 <= j < i ==> #[trigger] s[j] != '.',
        i == s.len() || s[i] == '.',
    ensures
        major_len(s) == i,
    decreases s.len(),
{
    if s.len() > 0 && i > 0 {
        assert(s[0] != '.');
        assert forall|j: int| 0 <= j < i - 1 implies #[trigger] s.drop_first()[j] != '.' by {
            assert(s.drop_first()[j] == s[j + 1]);
        }
        if i < s.len() {
            assert(s.drop_first()[i - 1] == s[i]);
        }
        lemma_major_len_at(s.drop_first(), i - 1);
    }
}

/// Bounds the value a cap of 1000 can hide: the capped and the true value
/// sit on the same side of 3.
pub open spec fn capped(v: int) -> int {
    if v > 1000 {
        1000
    } else {
        v
    }
}

/// Whether the text of the "openapi" key satisfies the version
/// constraint.
pub fn check_version(s: &str) -> (r: bool)
    ensures
        r == version_supported(s@),
{
    let n = s.unicode_len();
    let mut i: usize = 0;
    while i < n && s.get_char(i) != '.'
        invariant
            i <= n,
            n == s@.len(),
            forall|j: int| 0 <= j < i ==> #[trigger] s@[j] != '.',
        decreases n - i,
    {
        i = i + 1;
    }
    let m = i;
    proof {
        lemma_major_len_at(s@, m as int);
    }
    if m == 0 {
        return false;
    }
    let mut acc: u32 = 0;
    let mut j: usize = 0;
    proof {
        assert(s@.take(0) =~= Seq::<char>::empty());
    }
    while j < m
        invariant
            j <= m,
            m <= n,
            n == s@.len(),
            m as int == major_len(s@),
            forall|q: int| 0 <= q < j ==> is_digit(#[trigger] s@[q]),
            acc == capped(digits_val(s@.take(j as int))),
            acc <= 1000,
        decreases m - j,
    {
        let c = s.get_char(j);
        if !(c >= '0' && c <= '9') {
            return false;
        }
        let d: u32 = (c as u32) - ('0' as u32);
        proof {
            assert(s@.take(j + 1 as int).drop_last() =~= s@.take(j as int));
            assert(s@.take(j + 1 as int).last() == s@[j as int]);
        }
        let t: u32 = acc * 10 + d;
        if t > 1000 {
            acc = 1000;
        } else {
            acc = t;
        }
        j = j + 1;
    }
    acc >= 3
}

} // verus!
