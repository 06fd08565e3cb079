//! Character-level helpers shared by the whole library: equality, prefix and
//! suffix tests, whitespace trimming, concatenation, and leftmost-occurrence
//! removal, each specified over `Seq<char>` views.

use vstd::prelude::*;

verus! {

/// Relies on `String::push_str`: appends the slice's characters onto the end
/// of the string.
#[verifier::external_body]
pub(crate) fn append_str(dst: &mut String, s: &str)
    ensures
        final(dst)@ == old(dst)@ + s@,
{
    dst.push_str(s);
}

/// Character-for-character equality of two string slices.
pub fn str_eq(a: &str, b: &str) -> (r: bool)
    ensures
        r == (a@ == b@),
{
    let alen = a.unicode_len();
    let blen = b.unicode_len();
    if alen != blen {
        return false;
    }
    let mut i: usize = 0;
    while i < alen
        invariant
            alen == a@.len(),
            blen == b@.len(),
            alen == blen,
            i <= alen,
            forall|j: int| 0 <= j < i ==> a@[j] == b@[j],
        decreases alen - i,
    {
        let ca = a.get_char(i);
        let cb = b.get_char(i);
        if ca != cb {
            return false;
        }
        i = i + 1;
    }
    proof {
        assert(a@ =~= b@);
    }
    true
}

pub open spec fn spec_starts_with(s: Seq<char>, p: Seq<char>) -> bool {
    p.len() <= s.len() && s.take(p.len() as int) == p
}

pub open spec fn spec_ends_with(s: Seq<char>, p: Seq<char>) -> bool {
    p.len() <= s.len() && s.skip(s.len() - p.len()) == p
}

/// Whether the characters of `s` starting at `at` begin with `p`.
pub fn matches_at(s: &str, at: usize, p: &str) -> (r: bool)
    requires
        at <= s@.len(),
    ensures
        r == spec_starts_with(s@.skip(at as int), p@),
{
    let slen = s.unicode_len();
    let plen = p.unicode_len();
    if slen - at < plen {
        return false;
    }
    let mut i: usize = 0;
    while i < plen
        invariant
            slen == s@.len(),
            plen == p@.len(),
            at + plen <= slen,
            i <= plen,
            forall|j: int| 0 <= j < i ==> s@[at + j] == p@[j],
        decreases plen - i,
    {
        let cs = s.get_char(at + i);
        let cp = p.get_char(i);
        if cs != cp {
            proof {
                assert(s@.skip(at as int).take(plen as int)[i as int] != p@[i as int]);
            }
            return false;
        }
        i = i + 1;
    }
    proof {
        assert(s@.skip(at as int).take(plen as int) =~= p@);
    }
    true
}

pub fn starts_with(s: &str, p: &str) -> (r: bool)
    ensures
        r == spec_starts_with(s@, p@),
{
    proof {
        assert(s@.skip(0) =~= s@);
    }
    matches_at(s, 0, p)
}

pub fn ends_with(s: &str, p: &str) -> (r: bool)
    ensures
        r == spec_ends_with(s@, p@),
{
    let slen = s.unicode_len();
    let plen = p.unicode_len();
    if plen > slen {
        return false;
    }
    let r = matches_at(s, slen - plen, p);
    proof {
        assert(s@.skip(slen - plen).take(plen as int) =~= s@.skip(slen - plen));
    }
    r
}

/// The concatenation of two strings.
pub fn concat2(a: &str, b: &str) -> (r: String)
    ensures
        r@ == a@ + b@,
{
    let mut r = String::new();
    append_str(&mut r, a);
    append_str(&mut r, b);
    proof {
        assert(r@ =~= a@ + b@);
    }
    r
}

pub open spec fn is_space(c: char) -> bool {
    c == ' ' || c == '\t' || c == '\n' || c == '\r' || c == '\x0C'
}

/// Whether `c` is one of the five ASCII whitespace characters.
pub fn char_is_space(c: char) -> (r: bool)
    ensures
        r == is_space(c),
{
    c == ' ' || c == '\t' || c == '\n' || c == '\r' || c == '\x0C'
}

pub open spec fn spec_trim_start(s: Seq<char>) -> Seq<char>
    decreases s.len(),
{
    if s.len() == 0 {
        s
    } else if is_space(s[0]) {
        spec_trim_start(s.skip(1))
    } else {
        s
    }
}

pub open spec fn spec_trim_end(s: Seq<char>) -> Seq<char>
    decreases s.len(),
{
    if s.len() == 0 {
        s
    } else if is_space(s.last()) {
        spec_trim_end(s.drop_last())
    } else {
        s
    }
}

/// `s` without its leading and trailing ASCII whitespace.
pub open spec fn spec_trim(s: Seq<char>) -> Seq<char> {
    spec_trim_end(spec_trim_start(s))
}

proof fn lemma_trim_start_skip(s: Seq<char>, k: int)
    requires
        0 <= k <= s.len(),
        forall|j: int| 0 <= j < k ==> is_space(s[j]),
        k < s.len() ==> !is_space(s[k]),
    ensures
        spec_trim_start(s) == s.skip(k),
    decreases k,
{
    if k == 0 {
        assert(s.skip(0) =~= s);
    } else {
        assert(is_space(s[0]));
        lemma_trim_start_skip(s.skip(1), k - 1);
        assert(s.skip(1).skip(k - 1) =~= s.skip(k));
    }
}

proof fn lemma_trim_end_take(s: Seq<char>, m: int)
    requires
        0 <= m <= s.len(),
        forall|j: int| m <= j < s.len() ==> is_space(s[j]),
        m > 0 ==> !is_space(s[m - 1]),
    ensures
        spec_trim_end(s) == s.take(m),
    decreases s.len() - m,
{
    if m == s.len() {
        assert(s.take(m) =~= s);
    } else {
        assert(is_space(s.last()));
        lemma_trim_end_take(s.drop_last(), m);
        assert(s.drop_last().take(m) =~= s.take(m));
    }
}

/// `s` without leading and trailing ASCII whitespace.
pub fn trim<'a>(s: &'a str) -> (r: &'a str)
    ensures
        r@ == spec_trim(s@),
{
    let n = s.unicode_len();
    let mut b: usize = 0;
    while b < n && char_is_space(s.get_char(b))
        invariant
            n == s@.len(),
            b <= n,
            forall|j: int| 0 <= j < b ==> is_space(s@[j]),
        decreases n - b,
    {
        b = b + 1;
    }
    let mut e: usize = n;
    while e > b && char_is_space(s.get_char(e - 1))
        invariant
            n == s@.len(),
            b <= e <= n,
            forall|j: int| e <= j < n ==> is_space(s@[j]),
        decreases e,
    {
        e = e - 1;
    }
    let r = s.substring_char(b, e);
    proof {
        lemma_trim_start_skip(s@, b as int);
        let t = s@.skip(b as int);
        lemma_trim_end_take(t, e - b);
        assert(t.take(e - b) =~= s@.subrange(b as int, e as int));
    }
    r
}

/// The index of the last occurrence of `c` in `s`, if any.
pub fn last_index_of(s: &str, c: char) -> (r: Option<usize>)
    ensures
        match r {
            Some(i) => i < s@.len() && s@[i as int] == c && forall|j: int|
                i < j < s@.len() ==> s@[j] != c,
            None => forall|j: int| 0 <= j < s@.len() ==> s@[j] != c,
        },
{
    let n = s.unicode_len();
    let mut e: usize = n;
    while e > 0
        invariant
            n == s@.len(),
            e <= n,
            forall|j: int| e <= j < n ==> s@[j] != c,
        decreases e,
    {
        if s.get_char(e - 1) == c {
            return Some(e - 1);
        }
        e = e - 1;
    }
    None
}

/// `s` with the leftmost occurrence of `pat` removed, or `s` itself when
/// `pat` is empty or does not occur.
pub open spec fn spec_remove_first(s: Seq<char>, pat: Seq<char>) -> Seq<char>
    decreases s.len(),
{
    if pat.len() == 0 || s.len() < pat.len() {
        s
    } else if spec_starts_with(s, pat) {
        s.skip(pat.len() as int)
    } else {
        seq![s[0]] + spec_remove_first(s.skip(1), pat)
    }
}

/// `s` with every (leftmost-first, non-overlapping) occurrence of `pat`
/// removed, or `s` itself when `pat` is empty.
pub open spec fn spec_remove_all(s: Seq<char>, pat: Seq<char>) -> Seq<char>
    decreases s.len(),
{
    if pat.len() == 0 || s.len() < pat.len() {
        s
    } else if spec_starts_with(s, pat) {
        spec_remove_all(s.skip(pat.len() as int), pat)
    } else {
        seq![s[0]] + spec_remove_all(s.skip(1), pat)
    }
}

pub fn remove_first(s: &str, pat: &str) -> (r: String)
    ensures
        r@ == spec_remove_first(s@, pat@),
{
    let n = s.unicode_len();
    let plen = pat.unicode_len();
    if plen == 0 {
        return s.to_owned();
    }
    let mut i: usize = 0;
    proof {
        assert(s@.take(0) =~= Seq::<char>::empty());
        assert(s@.skip(0) =~= s@);
        assert(s@.take(0) + spec_remove_first(s@.skip(0), pat@) =~= spec_remove_first(s@, pat@));
    }
    while i < n
        invariant
            n == s@.len(),
            plen == pat@.len(),
            plen > 0,
            i <= n,
            spec_remove_first(s@, pat@) == s@.take(i as int) + spec_remove_first(
                s@.skip(i as int),
                pat@,
            ),
        decreases n - i,
    {
        if n - i >= plen && matches_at(s, i, pat) {
            let head = s.substring_char(0, i);
            let tail = s.substring_char(i + plen, n);
            let r = concat2(head, tail);
            proof {
                let t = s@.skip(i as int);
                assert(spec_starts_with(t, pat@));
                assert(t.skip(plen as int) =~= s@.skip(i + plen));
                assert(s@.take(i as int) =~= s@.subrange(0, i as int));
                assert(s@.skip(i + plen) =~= s@.subrange(i + plen, n as int));
            }
            return r;
        }
        proof {
            let t = s@.skip(i as int);
            assert(t.skip(1) =~= s@.skip(i + 1));
            if t.len() < plen {
                assert(spec_remove_first(t, pat@) == t);
                assert(spec_remove_first(t.skip(1), pat@) == t.skip(1));
                assert(t =~= seq![t[0]] + t.skip(1));
            }
            assert(t[0] == s@[i as int]);
            assert(s@.take(i as int) + (seq![s@[i as int]] + spec_remove_first(
                s@.skip(i + 1),
                pat@,
            )) =~= s@.take(i + 1) + spec_remove_first(s@.skip(i + 1), pat@));
        }
        i = i + 1;
    }
    proof {
        assert(s@.skip(n as int) =~= Seq::<char>::empty());
        assert(spec_remove_first(Seq::<char>::empty(), pat@) == Seq::<char>::empty());
        assert(s@.take(n as int) + Seq::<char>::empty() =~= s@);
    }
    s.to_owned()
}

pub fn remove_all(s: &str, pat: &str) -> (r: String)
    ensures
        r@ == spec_remove_all(s@, pat@),
{
    let n = s.unicode_len();
    let plen = pat.unicode_len();
    if plen == 0 {
        return s.to_owned();
    }
    let mut out = String::new();
    let mut i: usize = 0;
    proof {
        assert(s@.skip(0) =~= s@);
        assert(out@ + spec_remove_all(s@, pat@) =~= spec_remove_all(s@, pat@));
    }
    while i < n
        invariant
            n == s@.len(),
            plen == pat@.len(),
            plen > 0,
            i <= n,
            out@ + spec_remove_all(s@.skip(i as int), pat@) == spec_remove_all(s@, pat@),
        decreases n - i,
    {
        if n - i >= plen && matches_at(s, i, pat) {
            proof {
                let t = s@.skip(i as int);
                assert(spec_starts_with(t, pat@));
                assert(t.skip(plen as int) =~= s@.skip(i + plen));
            }
            i = i + plen;
        } else {
            let piece = s.substring_char(i, i + 1);
            let ghost old_out = out@;
            append_str(&mut out, piece);
            proof {
                let t = s@.skip(i as int);
                assert(t.skip(1) =~= s@.skip(i + 1));
                if t.len() < plen {
                    assert(spec_remove_all(t, pat@) == t);
                    assert(spec_remove_all(t.skip(1), pat@) == t.skip(1));
                    assert(t =~= seq![t[0]] + t.skip(1));
                }
                assert(piece@ =~= seq![t[0]]);
                assert((old_out + seq![t[0]]) + spec_remove_all(s@.skip(i + 1), pat@) =~= old_out
                    + (seq![t[0]] + spec_remove_all(s@.skip(i + 1), pat@)));
            }
            i = i + 1;
        }
    }
    proof {
        assert(s@.skip(n as int) =~= Seq::<char>::empty());
        assert(spec_remove_all(Seq::<char>::empty(), pat@) == Seq::<char>::empty());
        assert(out@ + Seq::<char>::empty() =~= out@);
    }
    out
}

/// The concatenation of three strings.
pub fn concat3(a: &str, b: &str, c: &str) -> (r: String)
    ensures
        r@ == a@ + b@ + c@,
{
    let mut r = String::new();
    append_str(&mut r, a);
    append_str(&mut r, b);
    append_str(&mut r, c);
    proof {
        assert(r@ =~= a@ + b@ + c@);
    }
    r
}

} // verus!
