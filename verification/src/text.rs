//! Verified text utilities over character sequences: substring search and
//! two-sided trimming, the groundwork of command parsing and server
//! detection.
use vstd::prelude::*;
use vstd::string::*;

verus! {

/// `p` occurs in `s` as a contiguous run.
pub open spec fn contains_seq(s: Seq<char>, p: Seq<char>) -> bool {
    exists|k: int| 0 <= k <= s.len() - p.len() && #[trigger] s.subrange(k, k + p.len()) == p
}

/// `s` with its leading run of characters satisfying `p` removed.
pub open spec fn trim_start(s: Seq<char>, p: spec_fn(char) -> bool) -> Seq<char>
    decreases s.len(),
{
    if s.len() > 0 && p(s[0]) {
        trim_start(s.drop_first(), p)
    } else {
        s
    }
}

/// `s` with its trailing run of characters satisfying `p` removed.
pub open spec fn trim_end(s: Seq<char>, p: spec_fn(char) -> bool) -> Seq<char>
    decreases s.len(),
{
    if s.len() > 0 && p(s[s.len() - 1]) {
        trim_end(s.drop_last(), p)
    } else {
        s
    }
}

/// `s` with both runs removed.
pub open spec fn trim_both(s: Seq<char>, p: spec_fn(char) -> bool) -> Seq<char> {
    trim_end(trim_start(s, p), p)
}

/// The characters `str::trim` removes: Unicode `White_Space`.
pub open spec fn is_whitespace(c: char) -> bool {
    c == ' ' || c == '\t' || c == '\n' || c == '\u{0B}' || c == '\u{0C}' || c == '\r' || c
        == '\u{85}' || c == '\u{A0}' || c == '\u{1680}' || c == '\u{2000}' || c == '\u{2001}' || c
        == '\u{2002}' || c == '\u{2003}' || c == '\u{2004}' || c == '\u{2005}' || c == '\u{2006}'
        || c == '\u{2007}' || c == '\u{2008}' || c == '\u{2009}' || c == '\u{200A}' || c
        == '\u{2028}' || c == '\u{2029}' || c == '\u{202F}' || c == '\u{205F}' || c == '\u{3000}'
}

/// Whether `c` is Unicode whitespace.
pub fn is_whitespace_char(c: char) -> (r: bool)
    ensures
        r == is_whitespace(c),
{
    c == ' ' || c == '\t' || c == '\n' || c == '\u{0B}' || c == '\u{0C}' || c == '\r' || c
        == '\u{85}' || c == '\u{A0}' || c == '\u{1680}' || c == '\u{2000}' || c == '\u{2001}' || c
        == '\u{2002}' || c == '\u{2003}' || c == '\u{2004}' || c == '\u{2005}' || c == '\u{2006}'
        || c == '\u{2007}' || c == '\u{2008}' || c == '\u{2009}' || c == '\u{200A}' || c
        == '\u{2028}' || c == '\u{2029}' || c == '\u{202F}' || c == '\u{205F}' || c == '\u{3000}'
}

/// A trimming rule: one exact character, or any whitespace.
#[derive(Clone, Copy, Debug)]
pub enum TrimRule {
    Exactly(char),
    Whitespace,
}

/// Whether `c` falls under the rule.
pub open spec fn rule_spec(rule: TrimRule, c: char) -> bool {
    match rule {
        TrimRule::Exactly(d) => c == d,
        TrimRule::Whitespace => is_whitespace(c),
    }
}

/// The rule as a character predicate.
pub open spec fn rule_pred(rule: TrimRule) -> spec_fn(char) -> bool {
    |c: char| rule_spec(rule, c)
}

/// Whether `c` falls under the rule.
pub fn rule_holds(rule: &TrimRule, c: char) -> (r: bool)
    ensures
        r == rule_spec(*rule, c),
{
    match rule {
        TrimRule::Exactly(d) => c == *d,
        TrimRule::Whitespace => is_whitespace_char(c),
    }
}

/// Whether `pat` occurs in `hay` as a contiguous run of characters.
pub fn contains_str(hay: &str, pat: &str) -> (b: bool)
    ensures
        b == contains_seq(hay@, pat@),
{
    let n = hay.unicode_len();
    let m = pat.unicode_len();
    if m > n {
        return false;
    }
    let mut k: usize = 0;
    while k <= n - m
        invariant
            m <= n,
            n == hay@.len(),
            m == pat@.len(),
            k <= n - m + 1,
            forall|kk: int| 0 <= kk < k ==> #[trigger] hay@.subrange(kk, kk + m as int) != pat@,
        decreases n - m - k + 1,
    {
        let mut i: usize = 0;
        let mut matched = true;
        while i < m
            invariant
                m <= n,
                n == hay@.len(),
                m == pat@.len(),
                k + m <= n,
                i <= m,
                matched ==> forall|ii: int| 0 <= ii < i ==> hay@[k + ii] == pat@[ii],
                !matched ==> hay@.subrange(k as int, k + m as int) != pat@,
            decreases m - i,
        {
            if hay.get_char(k + i) != pat.get_char(i) {
                proof {
                    assert(hay@.subrange(k as int, k + m as int)[i as int] == hay@[k + i]);
                }
                matched = false;
                i = m;
            } else {
                i = i + 1;
            }
        }
        if matched {
            proof {
                assert(hay@.subrange(k as int, k + m as int) =~= pat@);
            }
            return true;
        }
        if k == n - m {
            proof {
                assert(forall|kk: int| 0 <= kk <= n - m ==> #[trigger] hay@.subrange(
                    kk,
                    kk + m as int,
                ) != pat@);
            }
            return false;
        }
        k = k + 1;
    }
    proof {
        assert(forall|kk: int| 0 <= kk <= n - m ==> #[trigger] hay@.subrange(kk, kk + m as int)
            != pat@);
    }
    false
}

/// Removing a satisfying first character steps `trim_start` once.
proof fn lemma_trim_start_step(s: Seq<char>, p: spec_fn(char) -> bool, i: int, n: int)
    requires
        0 <= i < n <= s.len(),
        p(s.subrange(i, n)[0]),
    ensures
        trim_start(s.subrange(i, n), p) == trim_start(s.subrange(i + 1, n), p),
{
    assert(s.subrange(i, n).drop_first() =~= s.subrange(i + 1, n));
}

/// Removing a satisfying last character steps `trim_end` once.
proof fn lemma_trim_end_step(s: Seq<char>, p: spec_fn(char) -> bool, i: int, j: int)
    requires
        0 <= i < j <= s.len(),
        p(s.subrange(i, j)[j - i - 1]),
    ensures
        trim_end(s.subrange(i, j), p) == trim_end(s.subrange(i, j - 1), p),
{
    assert(s.subrange(i, j).drop_last() =~= s.subrange(i, j - 1));
}

/// The window left in `s` between `i0` and `j0` after trimming both ends
/// under the rule. The returned pair brackets `trim_both` of the window.
pub fn trim_window(s: &str, i0: usize, j0: usize, rule: &TrimRule) -> (r: (usize, usize))
    requires
        i0 <= j0 <= s@.len(),
    ensures
        i0 <= r.0 <= r.1 <= j0,
        s@.subrange(r.0 as int, r.1 as int) == trim_both(
            s@.subrange(i0 as int, j0 as int),
            rule_pred(*rule),
        ),
{
    let ghost w = s@.subrange(i0 as int, j0 as int);
    let ghost p = rule_pred(*rule);
    proof {
        assert(w.subrange(0, w.len() as int) =~= w);
    }
    let mut i: usize = i0;
    while i < j0 && rule_holds(rule, s.get_char(i))
        invariant
            i0 <= i <= j0 <= s@.len(),
            w == s@.subrange(i0 as int, j0 as int),
            p == rule_pred(*rule),
            trim_start(w, p) == trim_start(w.subrange(i - i0, w.len() as int), p),
        decreases j0 - i,
    {
        proof {
            assert(w.subrange(i - i0, w.len() as int)[0] == s@[i as int]);
            lemma_trim_start_step(w, p, i - i0, w.len() as int);
        }
        i = i + 1;
    }
    proof {
        assert(trim_start(w, p) == w.subrange(i - i0, w.len() as int));
    }
    let mut j: usize = j0;
    while j > i && rule_holds(rule, s.get_char(j - 1))
        invariant
            i0 <= i <= j <= j0 <= s@.len(),
            w == s@.subrange(i0 as int, j0 as int),
            p == rule_pred(*rule),
            trim_start(w, p) == w.subrange(i - i0, w.len() as int),
            trim_end(w.subrange(i - i0, w.len() as int), p) == trim_end(
                w.subrange(i - i0, j - i0),
                p,
            ),
        decreases j,
    {
        proof {
            assert(w.subrange(i - i0, j - i0)[j - i - 1] == s@[j - 1]);
            lemma_trim_end_step(w, p, i - i0, j - i0);
        }
        j = j - 1;
    }
    proof {
        assert(trim_end(w.subrange(i - i0, j - i0), p) == w.subrange(i - i0, j - i0));
        assert(w.subrange(i - i0, j - i0) =~= s@.subrange(i as int, j as int));
    }
    (i, j)
}

} // verus!
