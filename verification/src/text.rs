//! Character-level text utilities shared by the parsers of this crate.
//!
//! Every function works on the characters of a string (its `Seq<char>` view)
//! and is specified by a spec function over that view.
use vstd::prelude::*;

verus! {

/// The Unicode `White_Space` property, which `char::is_whitespace` tests.
pub open spec fn is_ws(c: char) -> bool {
    ||| '\u{9}' <= c <= '\u{d}'
    ||| c == ' '
    ||| c == '\u{85}'
    ||| c == '\u{a0}'
    ||| c == '\u{1680}'
    ||| '\u{2000}' <= c <= '\u{200a}'
    ||| c == '\u{2028}'
    ||| c == '\u{2029}'
    ||| c == '\u{202f}'
    ||| c == '\u{205f}'
    ||| c == '\u{3000}'
}

/// `s` without its leading whitespace.
pub open spec fn trim_start(s: Seq<char>) -> Seq<char>
    decreases s.len(),
{
    if s.len() > 0 && is_ws(s[0]) {
        trim_start(s.drop_first())
    } else {
        s
    }
}

/// `s` without its trailing whitespace.
pub open spec fn trim_end(s: Seq<char>) -> Seq<char>
    decreases s.len(),
{
    if s.len() > 0 && is_ws(s.last()) {
        trim_end(s.drop_last())
    } else {
        s
    }
}

/// `s` without leading and trailing whitespace (what `str::trim` gives).
pub open spec fn trim(s: Seq<char>) -> Seq<char> {
    trim_end(trim_start(s))
}

/// Index of the first occurrence of `c` in `s`, or -1.
pub open spec fn find_char(s: Seq<char>, c: char) -> int
    decreases s.len(),
{
    if s.len() == 0 {
        -1
    } else if s[0] == c {
        0
    } else {
        let r = find_char(s.drop_first(), c);
        if r < 0 {
            -1
        } else {
            r + 1
        }
    }
}

/// The pieces of `s` between occurrences of `sep` (what `str::split(sep)` yields).
/// There is always at least one piece.
pub open spec fn split_char(s: Seq<char>, sep: char) -> Seq<Seq<char>>
    decreases s.len(),
{
    let i = find_char(s, sep);
    if 0 <= i < s.len() {
        seq![s.take(i)] + split_char(s.skip(i + 1), sep)
    } else {
        seq![s]
    }
}

/// Whether `s` begins with `prefix`.
pub open spec fn starts_with(s: Seq<char>, prefix: Seq<char>) -> bool {
    prefix.len() <= s.len() && s.take(prefix.len() as int) == prefix
}

/// Whether `s` ends with `suffix`.
pub open spec fn ends_with(s: Seq<char>, suffix: Seq<char>) -> bool {
    suffix.len() <= s.len() && s.skip(s.len() - suffix.len()) == suffix
}

/// Whether `needle` occurs in `s` as a contiguous piece.
pub open spec fn contains_seq(s: Seq<char>, needle: Seq<char>) -> bool {
    exists|i: int| 0 <= i <= s.len() - needle.len() && #[trigger] s.subrange(i, i + needle.len()) == needle
}

/// ASCII upper case of one character (other characters are unchanged).
pub open spec fn ascii_upper(c: char) -> char {
    if 'a' <= c <= 'z' {
        ((c as u32) - 32) as char
    } else {
        c
    }
}

/// ASCII lower case of one character (other characters are unchanged).
pub open spec fn ascii_lower(c: char) -> char {
    if 'A' <= c <= 'Z' {
        ((c as u32) + 32) as char
    } else {
        c
    }
}

pub open spec fn upper_seq(s: Seq<char>) -> Seq<char> {
    s.map_values(|c: char| ascii_upper(c))
}

pub open spec fn lower_seq(s: Seq<char>) -> Seq<char> {
    s.map_values(|c: char| ascii_lower(c))
}

/// Equality up to ASCII case (what `str::eq_ignore_ascii_case` tests).
pub open spec fn eq_ignore_case(a: Seq<char>, b: Seq<char>) -> bool {
    a.len() == b.len() && forall|i: int| 0 <= i < a.len() ==> ascii_lower(#[trigger] a[i]) == ascii_lower(b[i])
}

/// The pieces of `parts` joined with `sep` between consecutive pieces.
pub open spec fn join(parts: Seq<Seq<char>>, sep: Seq<char>) -> Seq<char>
    decreases parts.len(),
{
    if parts.len() == 0 {
        seq![]
    } else if parts.len() == 1 {
        parts[0]
    } else {
        join(parts.drop_last(), sep) + sep + parts.last()
    }
}

/// Code point order on texts: `a` sorts before `b`.
pub open spec fn lex_lt(a: Seq<char>, b: Seq<char>) -> bool
    decreases a.len(),
{
    if a.len() == 0 {
        b.len() > 0
    } else if b.len() == 0 {
        false
    } else if a[0] < b[0] {
        true
    } else if a[0] == b[0] {
        lex_lt(a.drop_first(), b.drop_first())
    } else {
        false
    }
}

// ----------------------------------------------------------------------------
// Lemmas
// ----------------------------------------------------------------------------

pub proof fn lemma_find_char(s: Seq<char>, c: char)
    ensures
        -1 <= find_char(s, c) < s.len(),
        find_char(s, c) == -1 <==> (forall|j: int| 0 <= j < s.len() ==> s[j] != c),
        find_char(s, c) >= 0 ==> s[find_char(s, c)] == c,
        forall|j: int| 0 <= j < find_char(s, c) ==> s[j] != c,
    decreases s.len(),
{
    if s.len() > 0 {
        lemma_find_char(s.drop_first(), c);
        if s[0] != c {
            assert forall|j: int| 0 < j < s.len() implies s[j] == s.drop_first()[j - 1] by {}
            if find_char(s.drop_first(), c) == -1 {
                assert forall|j: int| 0 <= j < s.len() implies s[j] != c by {
                    if j > 0 {
                        assert(s[j] == s.drop_first()[j - 1]);
                    }
                }
            }
        }
    }
}

/// The first occurrence of `c` is at `i` when `s[i] == c` and no earlier
/// character is `c`.
pub proof fn lemma_find_char_at(s: Seq<char>, c: char, i: int)
    requires
        0 <= i <= s.len(),
        forall|j: int| 0 <= j < i ==> s[j] != c,
        i < s.len() ==> s[i] == c,
    ensures
        find_char(s, c) == (if i < s.len() { i } else { -1 }),
{
    lemma_find_char(s, c);
}

pub proof fn lemma_trim_start_skip(s: Seq<char>, i: int)
    requires
        0 <= i < s.len(),
        is_ws(s[i]),
    ensures
        trim_start(s.skip(i)) == trim_start(s.skip(i + 1)),
{
    assert(s.skip(i).drop_first() =~= s.skip(i + 1));
}

pub proof fn lemma_trim_end_take(s: Seq<char>, j: int)
    requires
        0 < j <= s.len(),
        is_ws(s[j - 1]),
    ensures
        trim_end(s.take(j)) == trim_end(s.take(j - 1)),
{
    assert(s.take(j).drop_last() =~= s.take(j - 1));
}

/// The first piece of `split_char` runs up to the first separator.
pub proof fn lemma_split_first(s: Seq<char>, sep: char)
    ensures
        split_char(s, sep).len() >= 1,
        split_char(s, sep)[0] == (if find_char(s, sep) >= 0 { s.take(find_char(s, sep)) } else { s }),
        split_char(s, sep).len() >= 2 <==> find_char(s, sep) >= 0,
        find_char(s, sep) >= 0 ==> split_char(s, sep).drop_first() == split_char(s.skip(find_char(s, sep) + 1), sep),
{
    lemma_find_char(s, sep);
    let i = find_char(s, sep);
    if i >= 0 {
        let rest = split_char(s.skip(i + 1), sep);
        assert((seq![s.take(i)] + rest).drop_first() =~= rest);
    }
}

/// Splitting at the first separator when the text before it has none.
pub proof fn lemma_split_concat(a: Seq<char>, b: Seq<char>, c: char)
    requires
        forall|j: int| 0 <= j < a.len() ==> a[j] != c,
    ensures
        split_char(a + seq![c] + b, c) == seq![a] + split_char(b, c),
{
    let s = a + seq![c] + b;
    assert forall|j: int| 0 <= j < a.len() implies s[j] != c by {
        assert(s[j] == a[j]);
    }
    lemma_find_char_at(s, c, a.len() as int);
    assert(s.take(a.len() as int) =~= a);
    assert(s.skip(a.len() as int + 1) =~= b);
}

/// A text without separator splits into itself.
pub proof fn lemma_split_none(a: Seq<char>, c: char)
    requires
        forall|j: int| 0 <= j < a.len() ==> a[j] != c,
    ensures
        split_char(a, c) == seq![a],
{
    lemma_find_char_at(a, c, a.len() as int);
}

/// `join` seen from the front.
pub proof fn lemma_join_front(ws: Seq<Seq<char>>, sep: Seq<char>)
    requires
        ws.len() >= 2,
    ensures
        join(ws, sep) == ws[0] + sep + join(ws.drop_first(), sep),
    decreases ws.len(),
{
    if ws.len() == 2 {
        assert(ws.drop_last() =~= seq![ws[0]]);
        assert(ws.drop_first() =~= seq![ws[1]]);
        assert(join(ws.drop_last(), sep) == ws[0]);
        assert(join(ws.drop_first(), sep) == ws[1]);
        assert(join(ws, sep) == join(ws.drop_last(), sep) + sep + ws.last());
    } else {
        lemma_join_front(ws.drop_last(), sep);
        assert(ws.drop_last().drop_first() =~= ws.drop_first().drop_last());
        assert(ws.drop_last()[0] == ws[0]);
        assert(ws.drop_first().last() == ws.last());
        assert(join(ws.drop_first(), sep) == join(ws.drop_first().drop_last(), sep) + sep + ws.drop_first().last());
        assert(join(ws, sep) == join(ws.drop_last(), sep) + sep + ws.last());
        assert(join(ws.drop_last(), sep) == ws[0] + sep + join(ws.drop_last().drop_first(), sep));
        assert(ws[0] + sep + join(ws.drop_first().drop_last(), sep) + sep + ws.last() =~= ws[0] + sep + (join(ws.drop_first().drop_last(), sep) + sep + ws.drop_first().last()));
    }
}

/// Splitting a join at its separator gives back the pieces, when no piece
/// holds the separator.
pub proof fn lemma_split_join(ws: Seq<Seq<char>>, c: char)
    requires
        ws.len() >= 1,
        forall|i: int, j: int| 0 <= i < ws.len() && 0 <= j < ws[i].len() ==> ws[i][j] != c,
    ensures
        split_char(join(ws, seq![c]), c) == ws,
    decreases ws.len(),
{
    if ws.len() == 1 {
        lemma_split_none(ws[0], c);
        assert(seq![ws[0]] =~= ws);
    } else {
        lemma_join_front(ws, seq![c]);
        let rest = ws.drop_first();
        assert forall|i: int, j: int| 0 <= i < rest.len() && 0 <= j < rest[i].len() implies rest[i][j] != c by {
            assert(rest[i] == ws[i + 1]);
        }
        lemma_split_join(rest, c);
        assert forall|j: int| 0 <= j < ws[0].len() implies ws[0][j] != c by {}
        lemma_split_concat(ws[0], join(rest, seq![c]), c);
        assert(seq![ws[0]] + rest =~= ws);
    }
}

/// Text that neither begins nor ends with whitespace is its own trim.
pub proof fn lemma_trim_id(s: Seq<char>)
    requires
        s.len() > 0 ==> !is_ws(s[0]) && !is_ws(s.last()),
    ensures
        trim(s) == s,
{
}

/// `trim_start` drops a prefix, and what is left does not start with
/// whitespace.
pub proof fn lemma_trim_start_drops(s: Seq<char>) -> (k: int)
    ensures
        0 <= k <= s.len(),
        trim_start(s) == s.skip(k),
        trim_start(s).len() > 0 ==> !is_ws(trim_start(s)[0]),
    decreases s.len(),
{
    if s.len() > 0 && is_ws(s[0]) {
        let k1 = lemma_trim_start_drops(s.drop_first());
        assert(s.drop_first().skip(k1) =~= s.skip(k1 + 1));
        k1 + 1
    } else {
        assert(s.skip(0) =~= s);
        0
    }
}

/// `trim_end` keeps a prefix, and it does not end with whitespace.
pub proof fn lemma_trim_end_keeps(s: Seq<char>) -> (j: int)
    ensures
        0 <= j <= s.len(),
        trim_end(s) == s.take(j),
        trim_end(s).len() > 0 ==> !is_ws(trim_end(s).last()),
    decreases s.len(),
{
    if s.len() > 0 && is_ws(s.last()) {
        let j1 = lemma_trim_end_keeps(s.drop_last());
        assert(s.drop_last().take(j1) =~= s.take(j1));
        j1
    } else {
        assert(s.take(s.len() as int) =~= s);
        s.len() as int
    }
}

/// `trim` keeps a contiguous piece of the text, which neither starts nor
/// ends with whitespace; trimming again changes nothing.
pub proof fn lemma_trim_piece(s: Seq<char>) -> (r: (int, int))
    ensures
        0 <= r.0 <= r.1 <= s.len(),
        trim(s) == s.subrange(r.0, r.1),
        trim(s).len() > 0 ==> !is_ws(trim(s)[0]) && !is_ws(trim(s).last()),
        trim(trim(s)) == trim(s),
{
    let k = lemma_trim_start_drops(s);
    let u = trim_start(s);
    let j = lemma_trim_end_keeps(u);
    assert(s.skip(k).take(j) =~= s.subrange(k, k + j));
    if trim(s).len() > 0 {
        assert(trim(s)[0] == u[0]);
    }
    lemma_trim_id(trim(s));
    (k, k + j)
}

pub proof fn lemma_lex_irreflexive(a: Seq<char>)
    ensures
        !lex_lt(a, a),
    decreases a.len(),
{
    if a.len() > 0 {
        lemma_lex_irreflexive(a.drop_first());
    }
}

pub proof fn lemma_lex_trichotomy(a: Seq<char>, b: Seq<char>)
    ensures
        lex_lt(a, b) || lex_lt(b, a) || a == b,
        !(lex_lt(a, b) && lex_lt(b, a)),
    decreases a.len(),
{
    if a.len() > 0 && b.len() > 0 {
        lemma_lex_trichotomy(a.drop_first(), b.drop_first());
        if a[0] == b[0] && a.drop_first() == b.drop_first() {
            assert(a =~= seq![a[0]] + a.drop_first());
            assert(b =~= seq![b[0]] + b.drop_first());
        }
    } else if a.len() == 0 && b.len() == 0 {
        assert(a =~= b);
    }
}

pub proof fn lemma_lex_transitive(a: Seq<char>, b: Seq<char>, c: Seq<char>)
    requires
        lex_lt(a, b),
        lex_lt(b, c),
    ensures
        lex_lt(a, c),
    decreases a.len(),
{
    if a.len() > 0 && b.len() > 0 && c.len() > 0 {
        if a[0] == b[0] && b[0] == c[0] {
            lemma_lex_transitive(a.drop_first(), b.drop_first(), c.drop_first());
        }
    }
}

pub proof fn lemma_join_push(parts: Seq<Seq<char>>, sep: Seq<char>, p: Seq<char>)
    ensures
        join(parts.push(p), sep) == (if parts.len() == 0 { p } else { join(parts, sep) + sep + p }),
{
    assert(parts.push(p).drop_last() =~= parts);
}

pub proof fn lemma_upper_push(s: Seq<char>, c: char)
    ensures
        upper_seq(s.push(c)) == upper_seq(s).push(ascii_upper(c)),
        lower_seq(s.push(c)) == lower_seq(s).push(ascii_lower(c)),
{
    assert(upper_seq(s.push(c)) =~= upper_seq(s).push(ascii_upper(c)));
    assert(lower_seq(s.push(c)) =~= lower_seq(s).push(ascii_lower(c)));
}

// ----------------------------------------------------------------------------
// Executable functions
// ----------------------------------------------------------------------------

/// Append one character to a `String` (`String::push`).
#[verifier::external_body]
pub fn push_char(s: &mut String, c: char)
    ensures
        final(s)@ == old(s)@.push(c),
{
    s.push(c);
}

/// The characters of `s`.
pub fn to_chars(s: &str) -> (v: Vec<char>)
    ensures
        v@ == s@,
{
    let mut v: Vec<char> = Vec::new();
    for c in it: s.chars()
        invariant
            v@ == it.seq().take(it.index() as int),
    {
        v.push(c);
    }
    v
}

/// A `String` made of the characters `v[from..to]`.
pub fn string_of_range(v: &[char], from: usize, to: usize) -> (s: String)
    requires
        from <= to <= v@.len(),
    ensures
        s@ == v@.subrange(from as int, to as int),
{
    let mut s = String::new();
    let mut i = from;
    while i < to
        invariant
            from <= i <= to <= v@.len(),
            s@ == v@.subrange(from as int, i as int),
        decreases to - i,
    {
        push_char(&mut s, v[i]);
        assert(v@.subrange(from as int, i + 1) =~= v@.subrange(from as int, i as int).push(v@[i as int]));
        i += 1;
    }
    s
}

/// A `String` made of the characters of `v`.
pub fn string_of(v: &[char]) -> (s: String)
    ensures
        s@ == v@,
{
    let s = string_of_range(v, 0, v.len());
    assert(v@.subrange(0, v@.len() as int) =~= v@);
    s
}

/// Append the characters of `v` to `s`.
pub fn push_chars(s: &mut String, v: &[char])
    ensures
        final(s)@ == old(s)@ + v@,
{
    let mut i: usize = 0;
    while i < v.len()
        invariant
            i <= v@.len(),
            s@ == old(s)@ + v@.take(i as int),
        decreases v.len() - i,
    {
        push_char(s, v[i]);
        assert(v@.take(i + 1) =~= v@.take(i as int).push(v@[i as int]));
        i += 1;
    }
    assert(v@.take(v@.len() as int) =~= v@);
}

/// Whether the two character slices are equal.
pub fn chars_eq(a: &[char], b: &[char]) -> (r: bool)
    ensures
        r == (a@ == b@),
{
    if a.len() != b.len() {
        return false;
    }
    let mut i: usize = 0;
    while i < a.len()
        invariant
            a.len() == b.len(),
            i <= a.len(),
            forall|j: int| 0 <= j < i ==> a@[j] == b@[j],
        decreases a.len() - i,
    {
        if a[i] != b[i] {
            return false;
        }
        i += 1;
    }
    assert(a@ =~= b@);
    true
}

/// Whether the characters `w` spell `lit`.
pub fn word_is(w: &[char], lit: &str) -> (r: bool)
    ensures
        r == (w@ == lit@),
{
    let v = to_chars(lit);
    chars_eq(w, v.as_slice())
}

/// Whether `c` is Unicode whitespace (`char::is_whitespace`).
pub fn is_whitespace(c: char) -> (r: bool)
    ensures
        r == is_ws(c),
{
    ('\u{9}' <= c && c <= '\u{d}') || c == ' ' || c == '\u{85}' || c == '\u{a0}' || c == '\u{1680}'
        || ('\u{2000}' <= c && c <= '\u{200a}') || c == '\u{2028}' || c == '\u{2029}' || c == '\u{202f}'
        || c == '\u{205f}' || c == '\u{3000}'
}

/// Index of the first non-whitespace character of `v[from..to]`, or `to`.
pub fn skip_ws(v: &[char], from: usize, to: usize) -> (i: usize)
    requires
        from <= to <= v@.len(),
    ensures
        from <= i <= to,
        trim_start(v@.subrange(from as int, to as int)) == v@.subrange(i as int, to as int),
        forall|j: int| from <= j < i ==> is_ws(v@[j]),
{
    let mut i = from;
    while i < to && is_whitespace(v[i])
        invariant
            from <= i <= to <= v@.len(),
            trim_start(v@.subrange(from as int, to as int)) == trim_start(v@.subrange(i as int, to as int)),
            forall|j: int| from <= j < i ==> is_ws(v@[j]),
        decreases to - i,
    {
        proof {
            let t = v@.subrange(from as int, to as int);
            lemma_trim_start_skip(t, i - from);
            assert(t.skip(i - from) =~= v@.subrange(i as int, to as int));
            assert(t.skip(i - from + 1) =~= v@.subrange(i + 1, to as int));
        }
        i += 1;
    }
    i
}

/// One past the last non-whitespace character of `v[from..to]`, or `from`.
pub fn skip_ws_back(v: &[char], from: usize, to: usize) -> (j: usize)
    requires
        from <= to <= v@.len(),
    ensures
        from <= j <= to,
        trim_end(v@.subrange(from as int, to as int)) == v@.subrange(from as int, j as int),
{
    let mut j = to;
    while j > from && is_whitespace(v[j - 1])
        invariant
            from <= j <= to <= v@.len(),
            trim_end(v@.subrange(from as int, to as int)) == trim_end(v@.subrange(from as int, j as int)),
        decreases j - from,
    {
        proof {
            let t = v@.subrange(from as int, to as int);
            lemma_trim_end_take(v@.subrange(from as int, j as int), j - from);
            assert(v@.subrange(from as int, j as int).take(j - from) =~= v@.subrange(from as int, j as int));
            assert(v@.subrange(from as int, j as int).take(j - from - 1) =~= v@.subrange(from as int, j - 1));
        }
        j -= 1;
    }
    j
}

/// The bounds of `trim(v[from..to])` inside `v`.
pub fn trim_bounds(v: &[char], from: usize, to: usize) -> (r: (usize, usize))
    requires
        from <= to <= v@.len(),
    ensures
        from <= r.0 <= r.1 <= to,
        trim(v@.subrange(from as int, to as int)) == v@.subrange(r.0 as int, r.1 as int),
{
    let i = skip_ws(v, from, to);
    let j = skip_ws_back(v, i, to);
    (i, j)
}

/// `trim(v)` as a new vector.
pub fn trim_chars(v: &[char]) -> (r: Vec<char>)
    ensures
        r@ == trim(v@),
{
    let (i, j) = trim_bounds(v, 0, v.len());
    assert(v@.subrange(0, v@.len() as int) =~= v@);
    let mut r: Vec<char> = Vec::new();
    let mut k = i;
    while k < j
        invariant
            i <= k <= j <= v@.len(),
            r@ == v@.subrange(i as int, k as int),
        decreases j - k,
    {
        r.push(v[k]);
        assert(v@.subrange(i as int, k + 1) =~= v@.subrange(i as int, k as int).push(v@[k as int]));
        k += 1;
    }
    r
}

/// `trim(s)` of a string.
pub fn trim_str(s: &str) -> (r: String)
    ensures
        r@ == trim(s@),
{
    let v = to_chars(s);
    let t = trim_chars(v.as_slice());
    string_of(t.as_slice())
}

/// Index of the first `c` in `v[from..]`, or `v.len()`.
pub fn find_from(v: &[char], from: usize, c: char) -> (i: usize)
    requires
        from <= v@.len(),
    ensures
        from <= i <= v@.len(),
        find_char(v@.skip(from as int), c) == (if i < v@.len() { i - from } else { -1 }),
        forall|j: int| from <= j < i ==> v@[j] != c,
        i < v@.len() ==> v@[i as int] == c,
{
    let mut i = from;
    while i < v.len() && v[i] != c
        invariant
            from <= i <= v@.len(),
            forall|j: int| from <= j < i ==> v@[j] != c,
        decreases v.len() - i,
    {
        i += 1;
    }
    proof {
        let t = v@.skip(from as int);
        assert forall|j: int| 0 <= j < i - from implies t[j] != c by {
            assert(t[j] == v@[from + j]);
        }
        lemma_find_char_at(t, c, i - from);
    }
    i
}

/// The pieces of `v` between occurrences of `sep`.
pub fn split_chars(v: &[char], sep: char) -> (r: Vec<Vec<char>>)
    ensures
        r@.map_values(|p: Vec<char>| p@) == split_char(v@, sep),
{
    let mut r: Vec<Vec<char>> = Vec::new();
    let mut start: usize = 0;
    proof {
        assert(v@.skip(0) =~= v@);
        assert(r@.map_values(|p: Vec<char>| p@) + split_char(v@, sep) =~= split_char(v@, sep));
    }
    loop
        invariant
            start <= v@.len(),
            r@.map_values(|p: Vec<char>| p@) + split_char(v@.skip(start as int), sep) == split_char(v@, sep),
        decreases v@.len() - start,
    {
        let i = find_from(v, start, sep);
        let mut piece: Vec<char> = Vec::new();
        let mut k = start;
        while k < i
            invariant
                start <= k <= i <= v@.len(),
                piece@ == v@.subrange(start as int, k as int),
            decreases i - k,
        {
            piece.push(v[k]);
            assert(v@.subrange(start as int, k + 1) =~= v@.subrange(start as int, k as int).push(v@[k as int]));
            k += 1;
        }
        let ghost old_r = r@;
        let ghost t = v@.skip(start as int);
        r.push(piece);
        proof {
            assert(r@.map_values(|p: Vec<char>| p@) =~= old_r.map_values(|p: Vec<char>| p@).push(piece@));
        }
        if i == v.len() {
            proof {
                assert(t =~= v@.subrange(start as int, i as int));
                assert(split_char(t, sep) == seq![t]);
                assert(old_r.map_values(|p: Vec<char>| p@).push(piece@) =~= old_r.map_values(|p: Vec<char>| p@) + seq![t]);
            }
            return r;
        }
        proof {
            assert(t.take(i - start) =~= piece@);
            assert(t.skip(i - start + 1) =~= v@.skip(i + 1));
            assert(split_char(t, sep) == seq![piece@] + split_char(v@.skip(i + 1), sep));
            assert(old_r.map_values(|p: Vec<char>| p@) + split_char(t, sep) =~= old_r.map_values(|p: Vec<char>| p@).push(piece@) + split_char(v@.skip(i + 1), sep));
        }
        start = i + 1;
    }
}

/// Whether `v` begins with `prefix`.
pub fn starts_with_chars(v: &[char], prefix: &[char]) -> (r: bool)
    ensures
        r == starts_with(v@, prefix@),
{
    if prefix.len() > v.len() {
        return false;
    }
    let mut i: usize = 0;
    while i < prefix.len()
        invariant
            prefix.len() <= v.len(),
            i <= prefix.len(),
            forall|j: int| 0 <= j < i ==> v@[j] == prefix@[j],
        decreases prefix.len() - i,
    {
        if v[i] != prefix[i] {
            assert(v@.take(prefix@.len() as int)[i as int] != prefix@[i as int]);
            return false;
        }
        i += 1;
    }
    assert(v@.take(prefix@.len() as int) =~= prefix@);
    true
}

/// Whether `v` ends with `suffix`.
pub fn ends_with_chars(v: &[char], suffix: &[char]) -> (r: bool)
    ensures
        r == ends_with(v@, suffix@),
{
    if suffix.len() > v.len() {
        return false;
    }
    let off = v.len() - suffix.len();
    let mut i: usize = 0;
    while i < suffix.len()
        invariant
            suffix.len() <= v.len(),
            off == v.len() - suffix.len(),
            i <= suffix.len(),
            forall|j: int| 0 <= j < i ==> v@[off + j] == suffix@[j],
        decreases suffix.len() - i,
    {
        if v[off + i] != suffix[i] {
            assert(v@.skip(off as int)[i as int] != suffix@[i as int]);
            return false;
        }
        i += 1;
    }
    assert(v@.skip(off as int) =~= suffix@);
    true
}

/// Whether `needle` occurs in `v`.
pub fn contains_chars(v: &[char], needle: &[char]) -> (r: bool)
    ensures
        r == contains_seq(v@, needle@),
{
    if needle.len() > v.len() {
        return false;
    }
    let last = v.len() - needle.len();
    let mut i: usize = 0;
    while i <= last
        invariant
            needle.len() <= v.len(),
            last == v.len() - needle.len(),
            i <= last + 1,
            forall|k: int| 0 <= k < i ==> #[trigger] v@.subrange(k, k + needle@.len()) != needle@,
        decreases last + 1 - i,
    {
        let mut j: usize = 0;
        let mut same = true;
        while j < needle.len()
            invariant
                needle.len() <= v.len(),
                i <= last,
                last == v.len() - needle.len(),
                j <= needle.len(),
                same == (forall|k: int| 0 <= k < j ==> v@[i + k] == needle@[k]),
            decreases needle.len() - j,
        {
            if v[i + j] != needle[j] {
                same = false;
            }
            j += 1;
        }
        if same {
            assert(v@.subrange(i as int, i + needle@.len()) =~= needle@);
            return true;
        } else {
            let ghost k0 = choose|k: int| 0 <= k < needle@.len() && v@[i + k] != needle@[k];
            assert(v@.subrange(i as int, i + needle@.len())[k0] != needle@[k0]);
        }
        i += 1;
    }
    assert forall|k: int| 0 <= k <= v@.len() - needle@.len() implies #[trigger] v@.subrange(k, k + needle@.len()) != needle@ by {}
    false
}

/// The pieces of `parts` joined with `sep`.
pub fn join_chars(parts: &Vec<Vec<char>>, sep: &[char]) -> (r: Vec<char>)
    ensures
        r@ == join(parts@.map_values(|p: Vec<char>| p@), sep@),
{
    let ghost views = parts@.map_values(|p: Vec<char>| p@);
    let mut r: Vec<char> = Vec::new();
    let mut i: usize = 0;
    while i < parts.len()
        invariant
            i <= parts@.len(),
            views == parts@.map_values(|p: Vec<char>| p@),
            r@ == join(views.take(i as int), sep@),
        decreases parts.len() - i,
    {
        proof {
            lemma_join_push(views.take(i as int), sep@, views[i as int]);
            assert(views.take(i + 1) =~= views.take(i as int).push(views[i as int]));
        }
        if i > 0 {
            let mut k: usize = 0;
            let ghost before = r@;
            while k < sep.len()
                invariant
                    k <= sep@.len(),
                    r@ == before + sep@.take(k as int),
                decreases sep.len() - k,
            {
                r.push(sep[k]);
                assert(sep@.take(k + 1) =~= sep@.take(k as int).push(sep@[k as int]));
                k += 1;
            }
            assert(sep@.take(sep@.len() as int) =~= sep@);
        }
        let p = &parts[i];
        let mut k: usize = 0;
        let ghost before = r@;
        while k < p.len()
            invariant
                k <= p@.len(),
                r@ == before + p@.take(k as int),
            decreases p.len() - k,
        {
            r.push(p[k]);
            assert(p@.take(k + 1) =~= p@.take(k as int).push(p@[k as int]));
            k += 1;
        }
        assert(p@.take(p@.len() as int) =~= p@);
        assert(views[i as int] == p@);
        if i == 0 {
            assert(r@ =~= p@);
        }
        i += 1;
    }
    assert(views.take(parts@.len() as int) =~= views);
    r
}

/// Whether `a` sorts before `b` in code point order.
pub fn chars_lt(a: &[char], b: &[char]) -> (r: bool)
    ensures
        r == lex_lt(a@, b@),
{
    let mut i: usize = 0;
    assert(a@.skip(0) =~= a@ && b@.skip(0) =~= b@);
    while i < a.len() && i < b.len() && a[i] == b[i]
        invariant
            i <= a@.len(),
            i <= b@.len(),
            lex_lt(a@, b@) == lex_lt(a@.skip(i as int), b@.skip(i as int)),
        decreases a.len() - i,
    {
        proof {
            let sa = a@.skip(i as int);
            let sb = b@.skip(i as int);
            assert(sa.drop_first() =~= a@.skip(i + 1));
            assert(sb.drop_first() =~= b@.skip(i + 1));
        }
        i += 1;
    }
    if i == a.len() {
        i < b.len()
    } else if i == b.len() {
        false
    } else {
        a[i] < b[i]
    }
}

/// ASCII upper case of one character.
pub fn to_ascii_upper(c: char) -> (r: char)
    ensures
        r == ascii_upper(c),
{
    if 'a' <= c && c <= 'z' {
        ((c as u8) - 32) as char
    } else {
        c
    }
}

/// ASCII lower case of one character.
pub fn to_ascii_lower(c: char) -> (r: char)
    ensures
        r == ascii_lower(c),
{
    if 'A' <= c && c <= 'Z' {
        ((c as u8) + 32) as char
    } else {
        c
    }
}

/// ASCII upper case of every character of `v`.
pub fn upper_chars(v: &[char]) -> (r: Vec<char>)
    ensures
        r@ == upper_seq(v@),
{
    let mut r: Vec<char> = Vec::new();
    let mut i: usize = 0;
    while i < v.len()
        invariant
            i <= v@.len(),
            r@ == upper_seq(v@.take(i as int)),
        decreases v.len() - i,
    {
        proof {
            lemma_upper_push(v@.take(i as int), v@[i as int]);
            assert(v@.take(i + 1) =~= v@.take(i as int).push(v@[i as int]));
        }
        r.push(to_ascii_upper(v[i]));
        i += 1;
    }
    assert(v@.take(v@.len() as int) =~= v@);
    r
}

/// ASCII lower case of every character of `v`.
pub fn lower_chars(v: &[char]) -> (r: Vec<char>)
    ensures
        r@ == lower_seq(v@),
{
    let mut r: Vec<char> = Vec::new();
    let mut i: usize = 0;
    while i < v.len()
        invariant
            i <= v@.len(),
            r@ == lower_seq(v@.take(i as int)),
        decreases v.len() - i,
    {
        proof {
            lemma_upper_push(v@.take(i as int), v@[i as int]);
            assert(v@.take(i + 1) =~= v@.take(i as int).push(v@[i as int]));
        }
        r.push(to_ascii_lower(v[i]));
        i += 1;
    }
    assert(v@.take(v@.len() as int) =~= v@);
    r
}

/// Whether `a` and `b` are equal up to ASCII case.
pub fn eq_ignore_ascii_case(a: &[char], b: &[char]) -> (r: bool)
    ensures
        r == eq_ignore_case(a@, b@),
{
    if a.len() != b.len() {
        return false;
    }
    let mut i: usize = 0;
    while i < a.len()
        invariant
            a.len() == b.len(),
            i <= a.len(),
            forall|j: int| 0 <= j < i ==> ascii_lower(#[trigger] a@[j]) == ascii_lower(b@[j]),
        decreases a.len() - i,
    {
        if to_ascii_lower(a[i]) != to_ascii_lower(b[i]) {
            return false;
        }
        i += 1;
    }
    true
}

// ----------------------------------------------------------------------------
// Decimal numbers
// ----------------------------------------------------------------------------

/// The digit character for `d` (0 to 9).
pub open spec fn digit_char(d: int) -> char {
    (48 + d) as char
}

/// The decimal digits of `n`, without leading zeros.
pub open spec fn decimal(n: nat) -> Seq<char>
    decreases n,
{
    if n < 10 {
        seq![digit_char(n as int)]
    } else {
        decimal(n / 10).push(digit_char((n % 10) as int))
    }
}

/// The decimal text of a signed number ("-" before negative ones).
pub open spec fn signed_decimal(n: int) -> Seq<char> {
    if n < 0 { seq!['-'] + decimal((-n) as nat) } else { decimal(n as nat) }
}

fn digit(d: u64) -> (c: char)
    requires
        d < 10,
    ensures
        c == digit_char(d as int),
{
    let b: u8 = 48 + d as u8;
    b as char
}

/// Append the decimal digits of `n`.
pub fn push_decimal(s: &mut String, n: u64)
    ensures
        final(s)@ == old(s)@ + decimal(n as nat),
    decreases n,
{
    if n >= 10 {
        push_decimal(s, n / 10);
    }
    push_char(s, digit(n % 10));
}

/// Append the decimal text of the signed number `n`.
pub fn push_signed_decimal(s: &mut String, n: i64)
    ensures
        final(s)@ == old(s)@ + signed_decimal(n as int),
{
    if n < 0 {
        push_char(s, '-');
        let m: u64 = if n == i64::MIN { 9223372036854775808u64 } else { (-n) as u64 };
        push_decimal(s, m);
    } else {
        push_decimal(s, n as u64);
    }
}

} // verus!
