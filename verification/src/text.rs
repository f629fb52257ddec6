//! Character-level text helpers: Unicode white space, trimming,
//! and conversion between `&str`, `Vec<char>` and `String`.

use vstd::prelude::*;

verus! {

/// The Unicode `White_Space` property, which is what `char::is_whitespace`
/// and `str::trim` go by.
pub open spec fn is_white_space(c: char) -> bool {
    let n = c as u32;
    ||| 0x9 <= n <= 0xd
    ||| n == 0x20
    ||| n == 0x85
    ||| n == 0xa0
    ||| n == 0x1680
    ||| 0x2000 <= n <= 0x200a
    ||| n == 0x2028
    ||| n == 0x2029
    ||| n == 0x202f
    ||| n == 0x205f
    ||| n == 0x3000
}

/// `s` without its leading white space.
pub open spec fn trim_start_seq(s: Seq<char>) -> Seq<char>
    decreases s.len(),
{
    if s.len() > 0 && is_white_space(s[0]) {
        trim_start_seq(s.drop_first())
    } else {
        s
    }
}

/// `s` without its trailing white space.
pub open spec fn trim_end_seq(s: Seq<char>) -> Seq<char>
    decreases s.len(),
{
    if s.len() > 0 && is_white_space(s.last()) {
        trim_end_seq(s.drop_last())
    } else {
        s
    }
}

/// `s` without leading and trailing white space, as `str::trim` gives it.
pub open spec fn trim_seq(s: Seq<char>) -> Seq<char> {
    trim_end_seq(trim_start_seq(s))
}

/// Whether `c` is white space in the sense of `is_white_space`.
pub fn is_white_space_char(c: char) -> (res: bool)
    ensures
        res == is_white_space(c),
{
    let n = c as u32;
    (0x9 <= n && n <= 0xd) || n == 0x20 || n == 0x85 || n == 0xa0 || n == 0x1680 || (0x2000
        <= n && n <= 0x200a) || n == 0x2028 || n == 0x2029 || n == 0x202f || n == 0x205f || n
        == 0x3000
}

/// Appends one character to a `String` (`String::push`).
#[verifier::external_body]
pub(crate) fn push_char(s: &mut String, c: char)
    ensures
        final(s)@ == old(s)@.push(c),
{
    s.push(c);
}

/// The characters of `s`, in order.
pub fn chars_of(s: &str) -> (v: Vec<char>)
    ensures
        v@ == s@,
{
    broadcast use vstd::string::group_string_axioms;

    let mut v: Vec<char> = Vec::new();
    for c in it: s.chars()
        invariant
            v@ == it.seq().take(it.index() as int),
    {
        v.push(c);
    }
    v
}


/// The characters `v[from..to]` as a `String`.
pub(crate) fn string_from_range(v: &Vec<char>, from: usize, to: usize) -> (res: String)
    requires
        from <= to <= v.len(),
    ensures
        res@ == v@.subrange(from as int, to as int),
{
    let mut res = String::new();
    let mut i = from;
    while i < to
        invariant
            from <= i <= to <= v.len(),
            res@ == v@.subrange(from as int, i as int),
        decreases to - i,
    {
        push_char(&mut res, v[i]);
        assert(v@.subrange(from as int, i + 1) == v@.subrange(from as int, i as int).push(v@[i as int]));
        i = i + 1;
    }
    res
}

/// The bounds of `v` once leading and trailing white space is cut off.
pub(crate) fn trim_bounds(v: &Vec<char>) -> (r: (usize, usize))
    ensures
        r.0 <= r.1 <= v.len(),
        v@.subrange(r.0 as int, r.1 as int) == trim_seq(v@),
{
    let len = v.len();
    let mut i: usize = 0;
    assert(v@.subrange(0, len as int) == v@);
    while i < len && is_white_space_char(v[i])
        invariant
            i <= len == v.len(),
            trim_start_seq(v@) == trim_start_seq(v@.subrange(i as int, len as int)),
        decreases len - i,
    {
        assert(v@.subrange(i as int, len as int).drop_first() == v@.subrange(i + 1, len as int));
        i = i + 1;
    }
    assert(trim_start_seq(v@) == v@.subrange(i as int, len as int));
    let mut j: usize = len;
    while j > i && is_white_space_char(v[j - 1])
        invariant
            i <= j <= len == v.len(),
            trim_seq(v@) == trim_end_seq(v@.subrange(i as int, j as int)),
        decreases j - i,
    {
        assert(v@.subrange(i as int, j as int).drop_last() == v@.subrange(i as int, j - 1));
        j = j - 1;
    }
    (i, j)
}

/// `s` without leading and trailing white space (`str::trim`, owned).
pub fn trim_text(s: &str) -> (res: String)
    ensures
        res@ == trim_seq(s@),
{
    let v = chars_of(s);
    let (a, b) = trim_bounds(&v);
    string_from_range(&v, a, b)
}


/// What `trim_start_seq` leaves is a suffix of its argument that does not
/// start with white space.
proof fn lemma_trim_start_shape(s: Seq<char>)
    ensures
        exists|k: int| 0 <= k <= s.len() && trim_start_seq(s) == s.subrange(k, s.len() as int),
        trim_start_seq(s).len() == 0 || !is_white_space(trim_start_seq(s)[0]),
    decreases s.len(),
{
    if s.len() > 0 && is_white_space(s[0]) {
        lemma_trim_start_shape(s.drop_first());
        let k = choose|k: int|
            0 <= k <= s.drop_first().len() && trim_start_seq(s.drop_first())
                == s.drop_first().subrange(k, s.drop_first().len() as int);
        assert(s.drop_first().subrange(k, s.drop_first().len() as int) == s.subrange(
            k + 1,
            s.len() as int,
        ));
    } else {
        assert(s.subrange(0, s.len() as int) == s);
    }
}

/// What `trim_end_seq` leaves is a prefix of its argument that does not end
/// with white space.
proof fn lemma_trim_end_shape(s: Seq<char>)
    ensures
        exists|k: int| 0 <= k <= s.len() && trim_end_seq(s) == s.subrange(0, k),
        trim_end_seq(s).len() == 0 || !is_white_space(trim_end_seq(s).last()),
    decreases s.len(),
{
    if s.len() > 0 && is_white_space(s.last()) {
        lemma_trim_end_shape(s.drop_last());
        let k = choose|k: int|
            0 <= k <= s.drop_last().len() && trim_end_seq(s.drop_last()) == s.drop_last().subrange(
                0,
                k,
            );
        assert(s.drop_last().subrange(0, k) == s.subrange(0, k));
    } else {
        assert(s.subrange(0, s.len() as int) == s);
    }
}

/// Trimming twice gives what trimming once gives.
pub proof fn lemma_trim_idempotent(s: Seq<char>)
    ensures
        trim_seq(trim_seq(s)) == trim_seq(s),
{
    let t = trim_start_seq(s);
    let r = trim_end_seq(t);
    lemma_trim_start_shape(s);
    lemma_trim_end_shape(t);
    let k = choose|k: int| 0 <= k <= t.len() && r == t.subrange(0, k);
    if r.len() > 0 {
        assert(r[0] == t[0]);
    }
    assert(trim_start_seq(r) == r);
    assert(trim_end_seq(r) == r);
}


/// Trailing white space does not change what `trim_end_seq` leaves.
proof fn lemma_trim_end_drops_blank_tail(x: Seq<char>, w: Seq<char>)
    requires
        forall|i: int| 0 <= i < w.len() ==> is_white_space(#[trigger] w[i]),
    ensures
        trim_end_seq(x + w) == trim_end_seq(x),
    decreases w.len(),
{
    if w.len() > 0 {
        assert((x + w).last() == w.last());
        assert((x + w).drop_last() =~= x + w.drop_last());
        lemma_trim_end_drops_blank_tail(x, w.drop_last());
    } else {
        assert(x + w =~= x);
    }
}

/// `trim_start_seq` of a text followed by white space.
proof fn lemma_trim_start_blank_tail(s: Seq<char>, w: Seq<char>)
    requires
        forall|i: int| 0 <= i < w.len() ==> is_white_space(#[trigger] w[i]),
    ensures
        trim_start_seq(s + w) == if trim_start_seq(s).len() > 0 {
            trim_start_seq(s) + w
        } else {
            Seq::<char>::empty()
        },
    decreases s.len() + w.len(),
{
    if s.len() == 0 {
        assert(s + w =~= w);
        if w.len() > 0 {
            assert(w.drop_first() =~= Seq::<char>::empty() + w.drop_first());
            lemma_trim_start_blank_tail(Seq::<char>::empty(), w.drop_first());
            assert(Seq::<char>::empty() + w.drop_first() =~= w.drop_first());
        }
    } else if is_white_space(s[0]) {
        assert((s + w)[0] == s[0]);
        assert((s + w).drop_first() =~= s.drop_first() + w);
        lemma_trim_start_blank_tail(s.drop_first(), w);
    } else {
        assert((s + w)[0] == s[0]);
    }
}

/// Trailing white space, such as the `\r\n` that ends a line typed on
/// Windows, does not change the trimmed text; in particular the carriage
/// return and the line feed are white space.
pub proof fn law_trim_ignores_line_ending(s: Seq<char>)
    ensures
        is_white_space('\r'),
        is_white_space('\n'),
        is_white_space('\t'),
        is_white_space(' '),
        trim_seq(s + seq!['\r', '\n']) == trim_seq(s),
        trim_seq(s + seq!['\n']) == trim_seq(s),
{
    let w1 = seq!['\r', '\n'];
    let w2 = seq!['\n'];
    assert(forall|i: int| 0 <= i < w1.len() ==> is_white_space(#[trigger] w1[i]));
    assert(forall|i: int| 0 <= i < w2.len() ==> is_white_space(#[trigger] w2[i]));
    lemma_trim_start_blank_tail(s, w1);
    lemma_trim_start_blank_tail(s, w2);
    if trim_start_seq(s).len() > 0 {
        lemma_trim_end_drops_blank_tail(trim_start_seq(s), w1);
        lemma_trim_end_drops_blank_tail(trim_start_seq(s), w2);
    } else {
        assert(trim_start_seq(s) =~= Seq::<char>::empty());
    }
}


/// The white space that trimming removes is exactly Unicode's `White_Space`
/// set, the one `char::is_whitespace` uses: tab, line feed, vertical tab,
/// form feed, carriage return, space, next line, no-break space, ogham space
/// mark, the spaces from en quad to hair space, line and paragraph
/// separator, narrow no-break space, medium mathematical space and
/// ideographic space.
pub proof fn law_white_space_is_unicode_white_space(c: char)
    ensures
        is_white_space(c) <==> (c == '\t' || c == '\n' || c == '\u{b}' || c == '\u{c}' || c
            == '\r' || c == ' ' || c == '\u{85}' || c == '\u{a0}' || c == '\u{1680}' || ('\u{2000}'
            <= c <= '\u{200a}') || c == '\u{2028}' || c == '\u{2029}' || c == '\u{202f}' || c
            == '\u{205f}' || c == '\u{3000}'),
{
}


/// Leading white space does not change what `trim_start_seq` leaves.
proof fn lemma_trim_start_drops_blank_head(w: Seq<char>, x: Seq<char>)
    requires
        forall|i: int| 0 <= i < w.len() ==> is_white_space(#[trigger] w[i]),
    ensures
        trim_start_seq(w + x) == trim_start_seq(x),
    decreases w.len(),
{
    if w.len() > 0 {
        assert((w + x)[0] == w[0]);
        assert((w + x).drop_first() =~= w.drop_first() + x);
        lemma_trim_start_drops_blank_head(w.drop_first(), x);
    } else {
        assert(w + x =~= x);
    }
}

/// White space put before and after a text, whatever it is, is exactly what
/// trimming takes off again.
pub proof fn law_trim_ignores_surrounding_blanks(before: Seq<char>, s: Seq<char>, after: Seq<char>)
    requires
        forall|i: int| 0 <= i < before.len() ==> is_white_space(#[trigger] before[i]),
        forall|i: int| 0 <= i < after.len() ==> is_white_space(#[trigger] after[i]),
    ensures
        trim_seq(before + s + after) == trim_seq(s),
{
    assert(before + s + after =~= before + (s + after));
    lemma_trim_start_drops_blank_head(before, s + after);
    lemma_trim_start_blank_tail(s, after);
    if trim_start_seq(s).len() > 0 {
        lemma_trim_end_drops_blank_tail(trim_start_seq(s), after);
    } else {
        assert(trim_start_seq(s) =~= Seq::<char>::empty());
    }
}

/// What trimming leaves neither starts nor ends with white space.
pub proof fn law_trim_leaves_no_blank_ends(s: Seq<char>)
    ensures
        trim_seq(s).len() > 0 ==> !is_white_space(trim_seq(s)[0]) && !is_white_space(
            trim_seq(s).last(),
        ),
{
    let t = trim_start_seq(s);
    lemma_trim_start_shape(s);
    lemma_trim_end_shape(t);
    let k = choose|k: int| 0 <= k <= t.len() && trim_end_seq(t) == t.subrange(0, k);
    if trim_seq(s).len() > 0 {
        assert(trim_seq(s)[0] == t[0]);
    }
}

} // verus!
