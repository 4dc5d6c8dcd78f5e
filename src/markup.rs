use vstd::prelude::*;
use vstd::string::StrSliceExecFns;
use vstd::string::StringExecFns;

verus! {

/// `p` occurs in `s` starting at position `k`.
pub open spec fn occurs_at(s: Seq<char>, p: Seq<char>, k: int) -> bool {
    0 <= k && k + p.len() <= s.len() && s.subrange(k, k + p.len()) == p
}

/// `k` is the first position at which `p` occurs in `s`.
pub open spec fn first_occurrence(s: Seq<char>, p: Seq<char>, k: int) -> bool {
    occurs_at(s, p, k) && forall|j: int| 0 <= j < k ==> !occurs_at(s, p, j)
}

/// `s` with the first occurrence of `p` cut out; `s` itself where `p` does
/// not occur.
pub open spec fn strip_first(s: Seq<char>, p: Seq<char>) -> Seq<char> {
    if exists|k: int| first_occurrence(s, p, k) {
        let k = choose|k: int| first_occurrence(s, p, k);
        s.subrange(0, k) + s.subrange(k + p.len(), s.len() as int)
    } else {
        s
    }
}

proof fn lemma_first_occurrence_unique(s: Seq<char>, p: Seq<char>, k1: int, k2: int)
    requires
        first_occurrence(s, p, k1),
        first_occurrence(s, p, k2),
    ensures
        k1 == k2,
{
}

proof fn lemma_no_occurrence(s: Seq<char>, p: Seq<char>)
    requires
        forall|j: int| 0 <= j ==> !occurs_at(s, p, j),
    ensures
        strip_first(s, p) == s,
{
}

fn chars_of(s: &str) -> (r: Vec<char>)
    ensures
        r@ == s@,
{
    let n = s.unicode_len();
    let mut r: Vec<char> = Vec::new();
    let mut i: usize = 0;
    while i < n
        invariant
            n == s@.len(),
            i <= n,
            r@ == s@.subrange(0, i as int),
        decreases n - i,
    {
        r.push(s.get_char(i));
        i = i + 1;
    }
    assert(r@ =~= s@);
    r
}

/// Whether `p` occurs in `s` at position `k`.
fn matches_at(s: &Vec<char>, p: &Vec<char>, k: usize) -> (r: bool)
    requires
        k + p@.len() <= s@.len(),
    ensures
        r == occurs_at(s@, p@, k as int),
{
    let m = p.len();
    let n = s.len();
    let mut j: usize = 0;
    while j < m
        invariant
            m == p@.len(),
            n == s@.len(),
            k + m <= n,
            j <= m,
            forall|t: int| 0 <= t < j ==> s@[k + t] == p@[t],
        decreases m - j,
    {
        if s[k + j] != p[j] {
            assert(s@.subrange(k as int, k + m)[j as int] != p@[j as int]);
            return false;
        }
        j = j + 1;
    }
    assert(s@.subrange(k as int, k + m) =~= p@);
    true
}

/// Removes the first occurrence of `heading` from `body`, as a literal
/// substring; `body` is returned unchanged where `heading` does not occur.
pub fn strip_heading(body: &str, heading: &str) -> (r: String)
    ensures
        r@ == strip_first(body@, heading@),
{
    let s = chars_of(body);
    let p = chars_of(heading);
    let n = s.len();
    let m = p.len();
    if m > n {
        proof {
            assert forall|j: int| 0 <= j implies !occurs_at(body@, heading@, j) by {}
            lemma_no_occurrence(body@, heading@);
        }
        return body.to_owned();
    }
    let mut k: usize = 0;
    loop
        invariant
            s@ == body@,
            p@ == heading@,
            n == s@.len(),
            m == p@.len(),
            m <= n,
            k <= n - m,
            forall|j: int| 0 <= j < k ==> !occurs_at(body@, heading@, j),
        decreases n - m - k,
    {
        if matches_at(&s, &p, k) {
            proof {
                assert(first_occurrence(body@, heading@, k as int));
                let c = choose|c: int| first_occurrence(body@, heading@, c);
                lemma_first_occurrence_unique(body@, heading@, c, k as int);
            }
            let front = body.substring_char(0, k);
            let back = body.substring_char(k + m, n);
            return String::from_str(front).concat(back);
        }
        if k == n - m {
            proof {
                assert forall|j: int| 0 <= j implies !occurs_at(body@, heading@, j) by {
                    if j > k {
                        assert(j + m > n);
                    }
                }
                lemma_no_occurrence(body@, heading@);
            }
            return body.to_owned();
        }
        k = k + 1;
    }
}

} // verus!
