//! Verified helpers for working with strings at the character level:
//! equality, substring search, substring replacement, and rendering of
//! decimal numbers.

use vstd::prelude::*;
use vstd::string::*;

verus! {

/// The pattern `pat` occurs in `s` at position `i`.
pub open spec fn match_at(s: Seq<char>, pat: Seq<char>, i: int) -> bool {
    &&& 0 <= i
    &&& i + pat.len() <= s.len()
    &&& s.subrange(i, i + pat.len() as int) == pat
}

/// The pattern `pat` occurs somewhere in `s`.
pub open spec fn contains_seq(s: Seq<char>, pat: Seq<char>) -> bool {
    exists|i: int| match_at(s, pat, i)
}

/// `s` with every occurrence of `pat` replaced by `rep`, scanning left to
/// right and never rescanning replaced text. An empty pattern replaces
/// nothing.
pub open spec fn replace_seq(s: Seq<char>, pat: Seq<char>, rep: Seq<char>) -> Seq<char>
    decreases s.len(),
{
    if pat.len() == 0 || s.len() < pat.len() {
        s
    } else if s.subrange(0, pat.len() as int) == pat {
        rep + replace_seq(s.subrange(pat.len() as int, s.len() as int), pat, rep)
    } else {
        seq![s[0]] + replace_seq(s.subrange(1, s.len() as int), pat, rep)
    }
}

/// When `s` starts with the pattern, the replacement contributes `rep` and
/// scanning resumes after the matched prefix.
proof fn lemma_replace_head_match(s: Seq<char>, pat: Seq<char>, rep: Seq<char>)
    requires
        1 <= pat.len(),
        match_at(s, pat, 0),
    ensures
        replace_seq(s, pat, rep) == rep + replace_seq(
            s.subrange(pat.len() as int, s.len() as int),
            pat,
            rep,
        ),
{
}

/// When `s` does not start with the pattern, its first character is kept and
/// scanning resumes one position later.
proof fn lemma_replace_head_nomatch(s: Seq<char>, pat: Seq<char>, rep: Seq<char>)
    requires
        1 <= pat.len(),
        1 <= s.len(),
        !match_at(s, pat, 0),
    ensures
        replace_seq(s, pat, rep) == seq![s[0]] + replace_seq(
            s.subrange(1, s.len() as int),
            pat,
            rep,
        ),
{
    if s.len() < pat.len() {
        let tail = s.subrange(1, s.len() as int);
        assert(replace_seq(s, pat, rep) == s);
        assert(tail.len() < pat.len());
        assert(replace_seq(tail, pat, rep) == tail);
        assert(s =~= seq![s[0]] + tail);
    } else {
        assert(s.subrange(0, pat.len() as int) != pat);
    }
}

/// Character-for-character equality of two string slices.
pub fn str_eq(a: &str, b: &str) -> (r: bool)
    ensures
        r == (a@ == b@),
{
    let alen = a.unicode_len();
    let blen = b.unicode_len();
    if alen != blen {
        return false;
    }
    let mut i: usize = 0;
    while i < alen
        invariant
            alen == a@.len(),
            alen == b@.len(),
            i <= alen,
            forall|j: int| 0 <= j < i ==> a@[j] == b@[j],
        decreases alen - i,
    {
        if a.get_char(i) != b.get_char(i) {
            return false;
        }
        i += 1;
    }
    proof {
        assert(a@ =~= b@);
    }
    true
}

/// Whether `pat` occurs in `s` at position `i`, by comparing characters.
pub fn is_match_at(s: &str, i: usize, pat: &str) -> (r: bool)
    requires
        i + pat@.len() <= s@.len(),
    ensures
        r == match_at(s@, pat@, i as int),
{
    let n = s.unicode_len();
    let plen = pat.unicode_len();
    let mut j: usize = 0;
    while j < plen
        invariant
            n == s@.len(),
            plen == pat@.len(),
            i + plen <= n,
            j <= plen,
            forall|k: int| 0 <= k < j ==> s@[i + k] == pat@[k],
        decreases plen - j,
    {
        if s.get_char(i + j) != pat.get_char(j) {
            proof {
                if match_at(s@, pat@, i as int) {
                    assert(s@.subrange(i as int, i + plen as int)[j as int] == s@[i + j]);
                }
            }
            return false;
        }
        j += 1;
    }
    proof {
        assert(s@.subrange(i as int, i + plen as int) =~= pat@);
    }
    true
}

/// Whether `pat` occurs anywhere in `s`, by scanning every position.
pub fn contains_str(s: &str, pat: &str) -> (r: bool)
    requires
        1 <= pat@.len(),
    ensures
        r == contains_seq(s@, pat@),
{
    let n = s.unicode_len();
    let plen = pat.unicode_len();
    if plen > n {
        return false;
    }
    let mut i: usize = 0;
    while i <= n - plen
        invariant
            n == s@.len(),
            plen == pat@.len(),
            1 <= plen <= n,
            i <= n - plen + 1,
            forall|k: int| 0 <= k < i ==> !match_at(s@, pat@, k),
        decreases n - plen - i + 1,
    {
        if is_match_at(s, i, pat) {
            return true;
        }
        i += 1;
    }
    proof {
        assert(forall|k: int| match_at(s@, pat@, k) ==> 0 <= k <= n - plen);
        assert(!contains_seq(s@, pat@));
    }
    false
}

/// `s` with every occurrence of `pat` replaced by `rep`.
pub fn replace(s: &str, pat: &str, rep: &str) -> (r: String)
    requires
        1 <= pat@.len(),
    ensures
        r@ == replace_seq(s@, pat@, rep@),
{
    let n = s.unicode_len();
    let plen = pat.unicode_len();
    let mut out = String::new();
    let mut start: usize = 0;
    let mut i: usize = 0;
    proof {
        assert(s@.subrange(0, n as int) =~= s@);
        assert(out@ + s@.subrange(0, 0) + replace_seq(s@, pat@, rep@) =~= replace_seq(
            s@,
            pat@,
            rep@,
        ));
    }
    while i < n
        invariant
            n == s@.len(),
            plen == pat@.len(),
            1 <= plen,
            start <= i <= n,
            replace_seq(s@, pat@, rep@) == out@ + s@.subrange(start as int, i as int)
                + replace_seq(s@.subrange(i as int, n as int), pat@, rep@),
        decreases n - i,
    {
        let ghost out0 = out@;
        let ghost suf = s@.subrange(i as int, n as int);
        if plen <= n - i && is_match_at(s, i, pat) {
            out.append(s.substring_char(start, i));
            out.append(rep);
            proof {
                assert(suf.subrange(0, plen as int) =~= s@.subrange(i as int, i + plen as int));
                assert(match_at(suf, pat@, 0));
                lemma_replace_head_match(suf, pat@, rep@);
                assert(suf.subrange(plen as int, suf.len() as int) =~= s@.subrange(
                    i + plen as int,
                    n as int,
                ));
                let rest = replace_seq(s@.subrange(i + plen as int, n as int), pat@, rep@);
                assert(out0 + s@.subrange(start as int, i as int) + (rep@ + rest) =~= (out0
                    + s@.subrange(start as int, i as int) + rep@) + s@.subrange(
                    i + plen as int,
                    i + plen as int,
                ) + rest);
            }
            i = i + plen;
            start = i;
        } else {
            proof {
                if plen <= n - i {
                    assert(suf.subrange(0, plen as int) =~= s@.subrange(
                        i as int,
                        i + plen as int,
                    ));
                }
                assert(!match_at(suf, pat@, 0));
                lemma_replace_head_nomatch(suf, pat@, rep@);
                assert(suf.subrange(1, suf.len() as int) =~= s@.subrange(i + 1, n as int));
                assert(suf[0] == s@[i as int]);
                let rest = replace_seq(s@.subrange(i + 1, n as int), pat@, rep@);
                assert(out0 + s@.subrange(start as int, i as int) + (seq![s@[i as int]] + rest)
                    =~= out0 + s@.subrange(start as int, i as int + 1) + rest);
            }
            i = i + 1;
        }
    }
    let ghost out1 = out@;
    out.append(s.substring_char(start, n));
    proof {
        assert(s@.subrange(n as int, n as int) =~= Seq::<char>::empty());
        assert(replace_seq(Seq::<char>::empty(), pat@, rep@) == Seq::<char>::empty());
        assert(out1 + s@.subrange(start as int, n as int) + Seq::<char>::empty() =~= out@);
    }
    out
}

/// The decimal digit `d` as a character.
pub open spec fn dec_digit_char(d: nat) -> char {
    if d == 0 {
        '0'
    } else if d == 1 {
        '1'
    } else if d == 2 {
        '2'
    } else if d == 3 {
        '3'
    } else if d == 4 {
        '4'
    } else if d == 5 {
        '5'
    } else if d == 6 {
        '6'
    } else if d == 7 {
        '7'
    } else if d == 8 {
        '8'
    } else {
        '9'
    }
}

/// The decimal rendering of `n`, without a sign and without leading zeros
/// (a single zero for zero itself).
pub open spec fn dec_str(n: nat) -> Seq<char>
    decreases n,
{
    if n < 10 {
        seq![dec_digit_char(n)]
    } else {
        dec_str(n / 10) + seq![dec_digit_char(n % 10)]
    }
}

/// The single decimal digit `d` as a string slice.
fn digit_str(d: u64) -> (r: &'static str)
    requires
        d < 10,
    ensures
        r@ == seq![dec_digit_char(d as nat)],
{
    let r: &'static str = if d == 0 {
        "0"
    } else if d == 1 {
        "1"
    } else if d == 2 {
        "2"
    } else if d == 3 {
        "3"
    } else if d == 4 {
        "4"
    } else if d == 5 {
        "5"
    } else if d == 6 {
        "6"
    } else if d == 7 {
        "7"
    } else if d == 8 {
        "8"
    } else {
        "9"
    };
    proof {
        reveal_strlit("0");
        reveal_strlit("1");
        reveal_strlit("2");
        reveal_strlit("3");
        reveal_strlit("4");
        reveal_strlit("5");
        reveal_strlit("6");
        reveal_strlit("7");
        reveal_strlit("8");
        reveal_strlit("9");
        assert(r@ =~= seq![dec_digit_char(d as nat)]);
    }
    r
}

/// The decimal rendering of `n` as a string.
pub fn u64_to_string(n: u64) -> (r: String)
    ensures
        r@ == dec_str(n as nat),
    decreases n,
{
    if n < 10 {
        String::from_str(digit_str(n))
    } else {
        let mut r = u64_to_string(n / 10);
        r.append(digit_str(n % 10));
        r
    }
}

} // verus!
