//! Searching for and replacing every occurrence of a piece of text.

use vstd::prelude::*;
use crate::text::{chars_of, push_char};

verus! {

/// `pat` occurs in `s` at position `i`.
pub open spec fn occurs_at(s: Seq<char>, pat: Seq<char>, i: int) -> bool {
    0 <= i && i + pat.len() <= s.len() && s.subrange(i, i + pat.len()) == pat
}

/// `pat` occurs somewhere in `s` (the empty pattern occurs in every text).
pub open spec fn contains_seq(s: Seq<char>, pat: Seq<char>) -> bool {
    exists|i: int| occurs_at(s, pat, i)
}

/// `s` with every occurrence of `pat` replaced by `rep`, as `str::replace`
/// does it: occurrences are taken from left to right and do not overlap; an
/// empty pattern matches before every character and at the end.
pub open spec fn replace_all(s: Seq<char>, pat: Seq<char>, rep: Seq<char>) -> Seq<char>
    decreases s.len(),
{
    if pat.len() == 0 {
        if s.len() == 0 {
            rep
        } else {
            rep.push(s[0]) + replace_all(s.drop_first(), pat, rep)
        }
    } else if s.len() < pat.len() {
        s
    } else if s.subrange(0, pat.len() as int) == pat {
        rep + replace_all(s.subrange(pat.len() as int, s.len() as int), pat, rep)
    } else {
        seq![s[0]] + replace_all(s.drop_first(), pat, rep)
    }
}

/// Whether `needle` occurs in `hay` at position `i`.
fn matches_at(hay: &Vec<char>, i: usize, needle: &Vec<char>) -> (res: bool)
    ensures
        res == occurs_at(hay@, needle@, i as int),
{
    let n = hay.len();
    let m = needle.len();
    if m > n || i > n - m {
        return false;
    }
    let mut k: usize = 0;
    while k < m
        invariant
            m == needle.len(),
            n == hay.len(),
            i + m <= n,
            k <= m,
            forall|j: int| 0 <= j < k ==> hay@[i + j] == needle@[j],
        decreases m - k,
    {
        if hay[i + k] != needle[k] {
            assert(hay@.subrange(i as int, i + m)[k as int] != needle@[k as int]);
            return false;
        }
        k = k + 1;
    }
    assert(hay@.subrange(i as int, i + m) =~= needle@);
    true
}

/// Whether `needle` occurs anywhere in `hay`.
fn contains_chars(hay: &Vec<char>, needle: &Vec<char>) -> (res: bool)
    ensures
        res == contains_seq(hay@, needle@),
{
    let n = hay.len();
    let m = needle.len();
    if m == 0 {
        assert(hay@.subrange(0, 0) =~= needle@);
        assert(occurs_at(hay@, needle@, 0));
        return true;
    }
    if m > n {
        return false;
    }
    let mut i: usize = 0;
    while i <= n - m
        invariant
            n == hay.len(),
            m == needle.len(),
            0 < m <= n,
            i <= n - m + 1,
            forall|j: int| 0 <= j < i ==> !occurs_at(hay@, needle@, j),
        decreases n - m + 1 - i,
    {
        if matches_at(hay, i, needle) {
            return true;
        }
        i = i + 1;
    }
    assert forall|j: int| !occurs_at(hay@, needle@, j) by {
        if 0 <= j < i {
        }
    }
    false
}


/// `hay` with every occurrence of `pat` replaced by `rep`.
fn replace_chars(hay: &Vec<char>, pat: &Vec<char>, rep: &str) -> (res: String)
    ensures
        res@ == replace_all(hay@, pat@, rep@),
{
    let n = hay.len();
    let m = pat.len();
    let mut out = String::new();
    let mut i: usize = 0;
    assert(hay@.subrange(0, n as int) == hay@);
    while i < n
        invariant
            n == hay.len(),
            m == pat.len(),
            i <= n,
            out@ + replace_all(hay@.subrange(i as int, n as int), pat@, rep@) == replace_all(
                hay@,
                pat@,
                rep@,
            ),
        decreases n - i,
    {
        let ghost rest = hay@.subrange(i as int, n as int);
        let ghost old_out = out@;
        if m > 0 && matches_at(hay, i, pat) {
            assert(rest.subrange(0, m as int) == hay@.subrange(i as int, i + m));
            assert(rest.subrange(m as int, rest.len() as int) == hay@.subrange(i + m, n as int));
            out.append(rep);
            assert(old_out + replace_all(rest, pat@, rep@) == out@ + replace_all(
                hay@.subrange(i + m, n as int),
                pat@,
                rep@,
            ));
            i = i + m;
        } else {
            let c = hay[i];
            assert(rest.drop_first() == hay@.subrange(i + 1, n as int));
            if m == 0 {
                out.append(rep);
                push_char(&mut out, c);
                assert(old_out + replace_all(rest, pat@, rep@) == out@ + replace_all(
                    hay@.subrange(i + 1, n as int),
                    pat@,
                    rep@,
                ));
            } else {
                push_char(&mut out, c);
                proof {
                    if rest.len() < m {
                        assert(replace_all(hay@.subrange(i + 1, n as int), pat@, rep@)
                            == hay@.subrange(i + 1, n as int));
                        assert(rest == seq![c] + hay@.subrange(i + 1, n as int));
                    } else {
                        assert(rest.subrange(0, m as int) == hay@.subrange(i as int, i + m));
                    }
                }
                assert(old_out + replace_all(rest, pat@, rep@) == out@ + replace_all(
                    hay@.subrange(i + 1, n as int),
                    pat@,
                    rep@,
                ));
            }
            i = i + 1;
        }
    }
    if m == 0 {
        let ghost old_out = out@;
        out.append(rep);
        assert(old_out + replace_all(hay@.subrange(n as int, n as int), pat@, rep@) == out@);
    } else {
        assert(out@ + replace_all(hay@.subrange(n as int, n as int), pat@, rep@) == out@);
    }
    out
}

/// The new text of a file whose text is `content`, once every occurrence of
/// `old` is replaced by `new`; `None` where `old` does not occur, in which
/// case the file is left as it is.
pub fn replace_in_content(content: &str, old: &str, new: &str) -> (res: Option<String>)
    ensures
        res is None <==> !contains_seq(content@, old@),
        res matches Some(r) ==> r@ == replace_all(content@, old@, new@),
{
    let hay = chars_of(content);
    let pat = chars_of(old);
    if !contains_chars(&hay, &pat) {
        return None;
    }
    Some(replace_chars(&hay, &pat, new))
}


/// Replacing a pattern with itself leaves the text as it was.
pub proof fn law_replace_with_itself(s: Seq<char>, pat: Seq<char>)
    ensures
        replace_all(s, pat, pat) == s,
    decreases s.len(),
{
    if pat.len() == 0 {
        if s.len() > 0 {
            law_replace_with_itself(s.drop_first(), pat);
            assert(pat.push(s[0]) + s.drop_first() =~= s);
        } else {
            assert(pat =~= s);
        }
    } else if s.len() < pat.len() {
    } else if s.subrange(0, pat.len() as int) == pat {
        law_replace_with_itself(s.subrange(pat.len() as int, s.len() as int), pat);
        assert(s.subrange(0, pat.len() as int) + s.subrange(pat.len() as int, s.len() as int) =~= s);
    } else {
        law_replace_with_itself(s.drop_first(), pat);
        assert(seq![s[0]] + s.drop_first() =~= s);
    }
}

/// Where the pattern does not occur, replacing it changes nothing; so a file
/// that `replace_in_content` leaves alone is exactly what the replacement
/// would have produced.
pub proof fn law_replace_absent_is_identity(s: Seq<char>, pat: Seq<char>, rep: Seq<char>)
    requires
        !contains_seq(s, pat),
    ensures
        replace_all(s, pat, rep) == s,
    decreases s.len(),
{
    if pat.len() == 0 {
        assert(s.subrange(0, 0) =~= pat);
        assert(occurs_at(s, pat, 0));
    } else if s.len() < pat.len() {
    } else {
        if s.subrange(0, pat.len() as int) == pat {
            assert(occurs_at(s, pat, 0));
        }
        assert forall|j: int| !occurs_at(s.drop_first(), pat, j) by {
            if occurs_at(s.drop_first(), pat, j) {
                assert(s.subrange(j + 1, j + 1 + pat.len()) =~= s.drop_first().subrange(
                    j,
                    j + pat.len(),
                ));
                assert(occurs_at(s, pat, j + 1));
            }
        }
        law_replace_absent_is_identity(s.drop_first(), pat, rep);
        assert(seq![s[0]] + s.drop_first() =~= s);
    }
}


/// Replacement goes from left to right: a text that starts with the pattern
/// gets the replacement first and the rest is replaced after it; so two
/// occurrences in a row both go, and an empty pattern puts the replacement
/// around every character.
pub proof fn law_replace_every_occurrence(pat: Seq<char>, s: Seq<char>, rep: Seq<char>, c: char)
    ensures
        pat.len() > 0 ==> replace_all(pat + s, pat, rep) == rep + replace_all(s, pat, rep),
        pat.len() > 0 ==> replace_all(pat + pat, pat, rep) == rep + rep,
        replace_all(seq![c], Seq::<char>::empty(), rep) == rep + seq![c] + rep,
        replace_all(Seq::<char>::empty(), Seq::<char>::empty(), rep) == rep,
{
    if pat.len() > 0 {
        assert((pat + s).subrange(0, pat.len() as int) =~= pat);
        assert((pat + s).subrange(pat.len() as int, (pat + s).len() as int) =~= s);
        assert((pat + pat).subrange(0, pat.len() as int) =~= pat);
        assert((pat + pat).subrange(pat.len() as int, (pat + pat).len() as int) =~= pat);
        assert(pat.subrange(0, pat.len() as int) =~= pat);
        assert(pat.subrange(pat.len() as int, pat.len() as int) =~= Seq::<char>::empty());
        assert(replace_all(Seq::<char>::empty(), pat, rep) == Seq::<char>::empty());
        assert(replace_all(pat, pat, rep) =~= rep + Seq::<char>::empty());
    }
    assert(seq![c].drop_first() =~= Seq::<char>::empty());
    assert(replace_all(Seq::<char>::empty(), Seq::<char>::empty(), rep) == rep);
    assert(replace_all(seq![c], Seq::<char>::empty(), rep) == rep.push(c) + rep);
    assert(rep.push(c) + rep =~= rep + seq![c] + rep);
}

} // verus!
