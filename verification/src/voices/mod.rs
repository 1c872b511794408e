//! Voice metadata for Piper TTS: the catalogue published as `voices.json` by
//! the piper-voices repository, held as a list of (voice key, voice) entries
//! with distinct keys.
pub mod aws;
pub mod download;

use vstd::prelude::*;

use crate::model::{LanguageInfo, VoiceInfo};
use crate::text;
use crate::text::{chars_eq, chars_lt, to_chars};

verus! {

/// Entries are sorted by strictly increasing code.
pub open spec fn sorted_codes(r: Seq<(String, LanguageInfo)>) -> bool {
    forall|i: int, j: int| 0 <= i < j < r.len() ==> text::lex_lt(r[i].0@, r[j].0@)
}

/// `langs[k]` is the first language in `langs` with code `code`.
pub open spec fn first_with_code(langs: Seq<LanguageInfo>, k: int, code: Seq<char>) -> bool {
    &&& 0 <= k < langs.len()
    &&& langs[k].code@ == code
    &&& forall|j: int| 0 <= j < k ==> langs[j].code@ != code
}

/// Some entry of `r` has code `code`.
pub open spec fn has_code(r: Seq<(String, LanguageInfo)>, code: Seq<char>) -> bool {
    exists|i: int| 0 <= i < r.len() && #[trigger] r[i].0@ == code
}

/// `r` lists each language code of `langs` once, in code point order of the
/// code, with the information of the first language that has that code.
pub open spec fn is_language_list(langs: Seq<LanguageInfo>, r: Seq<(String, LanguageInfo)>) -> bool {
    &&& sorted_codes(r)
    &&& forall|i: int|
        0 <= i < r.len() ==> r[i].0@ == r[i].1.code@ && exists|k: int|
            first_with_code(langs, k, r[i].0@) && langs[k] == #[trigger] r[i].1
    &&& forall|k: int| 0 <= k < langs.len() ==> has_code(r, #[trigger] langs[k].code@)
}

/// The distinct languages of `langs` sorted by code (first occurrence wins).
pub fn distinct_languages(langs: &Vec<LanguageInfo>) -> (r: Vec<(String, LanguageInfo)>)
    ensures
        is_language_list(langs@, r@),
{
    let mut r: Vec<(String, LanguageInfo)> = Vec::new();
    // the codes of `r`, as characters
    let mut codes: Vec<Vec<char>> = Vec::new();
    let mut n: usize = 0;
    while n < langs.len()
        invariant
            n <= langs@.len(),
            codes@.len() == r@.len(),
            forall|i: int| 0 <= i < r@.len() ==> (#[trigger] codes@[i])@ == r@[i].0@,
            is_language_list(langs@.take(n as int), r@),
        decreases langs.len() - n,
    {
        let ghost prefix = langs@.take(n as int);
        let ghost next = langs@.take(n + 1);
        assert(next =~= prefix.push(langs@[n as int]));
        let lang = &langs[n];
        let code = to_chars(lang.code.as_str());
        // find the insertion point
        let mut j: usize = 0;
        while j < codes.len() && chars_lt(codes[j].as_slice(), code.as_slice())
            invariant
                j <= codes@.len(),
                codes@.len() == r@.len(),
                forall|i: int| 0 <= i < r@.len() ==> (#[trigger] codes@[i])@ == r@[i].0@,
                forall|i: int| 0 <= i < j ==> text::lex_lt(r@[i].0@, code@),
            decreases codes.len() - j,
        {
            j += 1;
        }
        let present = j < codes.len() && chars_eq(codes[j].as_slice(), code.as_slice());
        proof {
            // facts about the entries before and after the insertion point
            assert forall|i: int| j <= i < r@.len() implies !text::lex_lt(r@[i].0@, code@) by {
                if i > j {
                    assert(text::lex_lt(r@[j as int].0@, r@[i].0@));
                    if text::lex_lt(r@[i].0@, code@) {
                        text::lemma_lex_transitive(r@[j as int].0@, r@[i].0@, code@);
                    }
                }
            }
        }
        if present {
            proof {
                assert(r@[j as int].0@ == code@);
                assert forall|k: int| 0 <= k < next.len() implies has_code(r@, #[trigger] next[k].code@) by {
                    if k < n {
                        assert(next[k] == prefix[k]);
                        assert(has_code(r@, prefix[k].code@));
                    } else {
                        assert(r@[j as int].0@ == next[k].code@);
                    }
                }
                assert forall|i: int| 0 <= i < r@.len() implies r@[i].0@ == r@[i].1.code@ && exists|k: int|
                    first_with_code(next, k, r@[i].0@) && next[k] == #[trigger] r@[i].1 by {
                    let k = choose|k: int| first_with_code(prefix, k, r@[i].0@) && prefix[k] == r@[i].1;
                    assert(first_with_code(next, k, r@[i].0@));
                }
            }
        } else {
            proof {
                assert forall|i: int| 0 <= i < r@.len() implies r@[i].0@ != code@ by {
                    if i < j {
                        text::lemma_lex_irreflexive(code@);
                    } else if i == j {
                    } else {
                        text::lemma_lex_trichotomy(r@[j as int].0@, code@);
                        text::lemma_lex_trichotomy(r@[i].0@, code@);
                        assert(text::lex_lt(r@[j as int].0@, r@[i].0@));
                        if r@[i].0@ == code@ {
                            assert(text::lex_lt(code@, r@[j as int].0@) || r@[j as int].0@ == code@);
                            text::lemma_lex_transitive(code@, r@[j as int].0@, r@[i].0@);
                            text::lemma_lex_irreflexive(code@);
                        }
                    }
                }
                assert forall|k: int| 0 <= k < n implies prefix[k].code@ != code@ by {
                    assert(has_code(r@, prefix[k].code@));
                    let i = choose|i: int| 0 <= i < r@.len() && #[trigger] r@[i].0@ == prefix[k].code@;
                }
                assert forall|i: int| j <= i < r@.len() implies text::lex_lt(code@, r@[i].0@) by {
                    text::lemma_lex_trichotomy(r@[i].0@, code@);
                }
            }
            let ghost old_r = r@;
            let ghost old_codes = codes@;
            let key = lang.code.clone();
            r.insert(j, (key, lang.duplicate()));
            codes.insert(j, code);
            proof {
                let new_r = r@;
                assert(new_r =~= old_r.insert(j as int, new_r[j as int]));
                assert(new_r[j as int].0@ == code@);
                assert forall|i: int| 0 <= i < new_r.len() implies (#[trigger] codes@[i])@ == new_r[i].0@ by {
                    if i < j {
                        assert(codes@[i] == old_codes[i] && new_r[i] == old_r[i]);
                    } else if i > j {
                        assert(codes@[i] == old_codes[i - 1] && new_r[i] == old_r[i - 1]);
                    }
                }
                assert forall|a: int, b: int| 0 <= a < b < new_r.len() implies text::lex_lt(new_r[a].0@, new_r[b].0@) by {
                    let ea = if a < j { a } else if a == j { -1 } else { a - 1 };
                    let eb = if b < j { b } else if b == j { -1 } else { b - 1 };
                    if a < j && b > j {
                        assert(text::lex_lt(old_r[a].0@, code@));
                        assert(text::lex_lt(code@, old_r[b - 1].0@));
                        text::lemma_lex_transitive(old_r[a].0@, code@, old_r[b - 1].0@);
                    } else if a == j && b > j {
                        assert(text::lex_lt(code@, old_r[b - 1].0@));
                    }
                }
                assert forall|i: int| 0 <= i < new_r.len() implies new_r[i].0@ == new_r[i].1.code@ && exists|k: int|
                    first_with_code(next, k, new_r[i].0@) && next[k] == #[trigger] new_r[i].1 by {
                    if i == j {
                        assert(first_with_code(next, n as int, code@));
                    } else {
                        let oi = if i < j { i } else { i - 1 };
                        assert(new_r[i] == old_r[oi]);
                        let k = choose|k: int| first_with_code(prefix, k, old_r[oi].0@) && prefix[k] == old_r[oi].1;
                        assert(first_with_code(next, k, new_r[i].0@));
                    }
                }
                assert forall|k: int| 0 <= k < next.len() implies has_code(new_r, #[trigger] next[k].code@) by {
                    if k < n {
                        assert(has_code(old_r, prefix[k].code@));
                        let i = choose|i: int| 0 <= i < old_r.len() && #[trigger] old_r[i].0@ == prefix[k].code@;
                        if i < j {
                            assert(new_r[i] == old_r[i]);
                        } else {
                            assert(new_r[i + 1] == old_r[i]);
                        }
                    } else {
                        assert(new_r[j as int].0@ == next[k].code@);
                    }
                }
            }
        }
        n += 1;
    }
    assert(langs@.take(langs@.len() as int) =~= langs@);
    r
}

/// The languages of the voices, in catalogue order.
pub open spec fn voice_languages(voices: Seq<(String, VoiceInfo)>) -> Seq<LanguageInfo> {
    voices.map_values(|e: (String, VoiceInfo)| e.1.language)
}

/// The distinct languages of the catalogue, sorted by code.
pub fn get_available_languages(voices: &Vec<(String, VoiceInfo)>) -> (r: Vec<(String, LanguageInfo)>)
    requires
        keys_distinct(voices@),
    ensures
        is_language_list(voice_languages(voices@), r@),
{
    let mut langs: Vec<LanguageInfo> = Vec::new();
    let mut i: usize = 0;
    while i < voices.len()
        invariant
            i <= voices@.len(),
            langs@ == voice_languages(voices@.take(i as int)),
        decreases voices.len() - i,
    {
        langs.push(voices[i].1.language.duplicate());
        assert(voice_languages(voices@.take(i + 1)) =~= voice_languages(voices@.take(i as int)).push(voices@[i as int].1.language));
        i += 1;
    }
    assert(voices@.take(voices@.len() as int) =~= voices@);
    distinct_languages(&langs)
}

/// The voices of the catalogue whose language has code `code`, in order.
pub open spec fn voices_with_code(voices: Seq<(String, VoiceInfo)>, code: Seq<char>) -> Seq<VoiceInfo>
    decreases voices.len(),
{
    if voices.len() == 0 {
        seq![]
    } else {
        let rest = voices_with_code(voices.drop_last(), code);
        if voices.last().1.language.code@ == code {
            rest.push(voices.last().1)
        } else {
            rest
        }
    }
}

/// The voices for a language code, in catalogue order.
pub fn get_voices_for_language<'a>(voices: &'a Vec<(String, VoiceInfo)>, language_code: &'a str) -> (r: Vec<&'a VoiceInfo>)
    requires
        keys_distinct(voices@),
    ensures
        r@.map_values(|v: &VoiceInfo| *v) == voices_with_code(voices@, language_code@),
{
    let code = to_chars(language_code);
    let mut r: Vec<&'a VoiceInfo> = Vec::new();
    let mut i: usize = 0;
    while i < voices.len()
        invariant
            i <= voices@.len(),
            code@ == language_code@,
            r@.map_values(|v: &VoiceInfo| *v) == voices_with_code(voices@.take(i as int), code@),
        decreases voices.len() - i,
    {
        let voice = &voices[i].1;
        let c = to_chars(voice.language.code.as_str());
        let ghost before = r@;
        assert(voices@.take(i + 1).drop_last() =~= voices@.take(i as int));
        if chars_eq(c.as_slice(), code.as_slice()) {
            r.push(voice);
            assert(r@.map_values(|v: &VoiceInfo| *v) =~= before.map_values(|v: &VoiceInfo| *v).push(*voice));
        }
        i += 1;
    }
    assert(voices@.take(voices@.len() as int) =~= voices@);
    r
}

/// The keys of the entries are distinct (the catalogue is a map from voice
/// key to voice).
pub open spec fn keys_distinct<V>(entries: Seq<(String, V)>) -> bool {
    forall|i: int, j: int| 0 <= i < j < entries.len() ==> entries[i].0@ != entries[j].0@
}

/// The codes of a language list.
pub open spec fn list_codes(r: Seq<(String, LanguageInfo)>) -> Seq<Seq<char>> {
    r.map_values(|e: (String, LanguageInfo)| e.0@)
}

/// How many of `codes` equal `x`.
pub open spec fn code_count(codes: Seq<Seq<char>>, x: Seq<char>) -> nat
    decreases codes.len(),
{
    if codes.len() == 0 {
        0
    } else {
        code_count(codes.drop_last(), x) + if codes.last() == x { 1nat } else { 0nat }
    }
}

pub(crate) proof fn lemma_code_count_distinct(codes: Seq<Seq<char>>, x: Seq<char>)
    requires
        forall|i: int, j: int| 0 <= i < j < codes.len() ==> codes[i] != codes[j],
    ensures
        code_count(codes, x) == if codes.contains(x) { 1nat } else { 0nat },
    decreases codes.len(),
{
    if codes.len() > 0 {
        let d = codes.drop_last();
        lemma_code_count_distinct(d, x);
        if codes.last() == x {
            assert(!d.contains(x)) by {
                if d.contains(x) {
                    let i = choose|i: int| 0 <= i < d.len() && d[i] == x;
                    assert(codes[i] == codes[codes.len() - 1]);
                }
            }
            assert(codes.contains(x)) by { assert(codes[codes.len() - 1] == x); }
        } else {
            assert(codes.contains(x) == d.contains(x)) by {
                if codes.contains(x) {
                    let i = choose|i: int| 0 <= i < codes.len() && codes[i] == x;
                    assert(d[i] == x);
                }
                if d.contains(x) {
                    let i = choose|i: int| 0 <= i < d.len() && d[i] == x;
                    assert(codes[i] == x);
                }
            }
        }
    }
}

/// How many voices of the catalogue the voice lists of `codes` hold
/// together.
pub open spec fn voices_listed(voices: Seq<(String, VoiceInfo)>, codes: Seq<Seq<char>>) -> nat
    decreases codes.len(),
{
    if codes.len() == 0 {
        0
    } else {
        voices_listed(voices, codes.drop_last()) + voices_with_code(voices, codes.last()).len()
    }
}

proof fn lemma_voices_listed_step(voices: Seq<(String, VoiceInfo)>, codes: Seq<Seq<char>>)
    requires
        voices.len() > 0,
    ensures
        voices_listed(voices, codes) == voices_listed(voices.drop_last(), codes)
            + code_count(codes, voices.last().1.language.code@),
    decreases codes.len(),
{
    if codes.len() > 0 {
        lemma_voices_listed_step(voices, codes.drop_last());
    }
}

proof fn lemma_voices_listed_all(voices: Seq<(String, VoiceInfo)>, codes: Seq<Seq<char>>)
    requires
        forall|i: int, j: int| 0 <= i < j < codes.len() ==> codes[i] != codes[j],
        forall|k: int| 0 <= k < voices.len() ==> codes.contains(#[trigger] voices[k].1.language.code@),
    ensures
        voices_listed(voices, codes) == voices.len(),
    decreases voices.len(),
{
    if voices.len() == 0 {
        assert(voices_listed(voices, codes) == 0) by {
            lemma_voices_listed_empty(voices, codes);
        }
    } else {
        let d = voices.drop_last();
        assert forall|k: int| 0 <= k < d.len() implies codes.contains(#[trigger] d[k].1.language.code@) by {
            assert(d[k] == voices[k]);
        }
        lemma_voices_listed_all(d, codes);
        lemma_voices_listed_step(voices, codes);
        assert(codes.contains(voices[voices.len() - 1].1.language.code@));
        lemma_code_count_distinct(codes, voices.last().1.language.code@);
    }
}

proof fn lemma_voices_listed_empty(voices: Seq<(String, VoiceInfo)>, codes: Seq<Seq<char>>)
    requires
        voices.len() == 0,
    ensures
        voices_listed(voices, codes) == 0,
    decreases codes.len(),
{
    if codes.len() > 0 {
        lemma_voices_listed_empty(voices, codes.drop_last());
    }
}

/// The codes of a language list are distinct, and every language of
/// `langs` has its code among them.
pub proof fn lemma_language_list_codes(langs: Seq<LanguageInfo>, r: Seq<(String, LanguageInfo)>)
    requires
        is_language_list(langs, r),
    ensures
        forall|i: int, j: int| 0 <= i < j < list_codes(r).len() ==> list_codes(r)[i] != list_codes(r)[j],
        forall|k: int| 0 <= k < langs.len() ==> list_codes(r).contains(#[trigger] langs[k].code@),
{
    let c = list_codes(r);
    assert forall|i: int, j: int| 0 <= i < j < c.len() implies c[i] != c[j] by {
        assert(text::lex_lt(r[i].0@, r[j].0@));
        if c[i] == c[j] {
            text::lemma_lex_irreflexive(r[i].0@);
        }
    }
    assert forall|k: int| 0 <= k < langs.len() implies c.contains(#[trigger] langs[k].code@) by {
        assert(has_code(r, langs[k].code@));
        let i = choose|i: int| 0 <= i < r.len() && #[trigger] r[i].0@ == langs[k].code@;
        assert(c[i] == langs[k].code@);
    }
}

/// The per-language voice lists partition the catalogue: over the languages
/// that [`get_available_languages`] lists, the voices that
/// [`get_voices_for_language`] gives number exactly the voices of the
/// catalogue, none lost and none repeated.
pub proof fn lemma_languages_partition_voices(voices: Seq<(String, VoiceInfo)>, r: Seq<(String, LanguageInfo)>)
    requires
        is_language_list(voice_languages(voices), r),
    ensures
        voices_listed(voices, list_codes(r)) == voices.len(),
{
    let langs = voice_languages(voices);
    lemma_language_list_codes(langs, r);
    let c = list_codes(r);
    assert forall|k: int| 0 <= k < voices.len() implies c.contains(#[trigger] voices[k].1.language.code@) by {
        assert(langs[k] == voices[k].1.language);
    }
    lemma_voices_listed_all(voices, c);
}

/// Some entry of `s` has the key `k`.
pub open spec fn key_in<V>(s: Seq<(String, V)>, k: Seq<char>) -> bool {
    exists|i: int| 0 <= i < s.len() && #[trigger] s[i].0@ == k
}

/// One entry per key, in order: the entries whose key no later entry
/// repeats (for each key, the last entry given for it, as a map built from
/// the list keeps).
pub open spec fn last_per_key<V>(s: Seq<(String, V)>) -> Seq<(String, V)>
    decreases s.len(),
{
    if s.len() == 0 {
        seq![]
    } else if key_in(s.drop_first(), s[0].0@) {
        last_per_key(s.drop_first())
    } else {
        seq![s[0]] + last_per_key(s.drop_first())
    }
}

fn has_key_in<V>(r: &Vec<(String, V)>, key: &str) -> (b: bool)
    ensures
        b == key_in(r@, key@),
{
    let k = to_chars(key);
    let mut j: usize = 0;
    while j < r.len()
        invariant
            j <= r@.len(),
            k@ == key@,
            forall|i: int| 0 <= i < j ==> (#[trigger] r@[i]).0@ != key@,
        decreases r.len() - j,
    {
        let c = to_chars(r[j].0.as_str());
        if chars_eq(c.as_slice(), k.as_slice()) {
            assert(r@[j as int].0@ == key@);
            return true;
        }
        j += 1;
    }
    false
}

/// A list keyed by its first components with each key once: for each key,
/// the last entry given for it, in the order of those entries. Every key of
/// `entries` is kept.
pub fn one_per_key<V>(entries: Vec<(String, V)>) -> (r: Vec<(String, V)>)
    ensures
        r@ == last_per_key(entries@),
        keys_distinct(r@),
        forall|k: Seq<char>| key_in(r@, k) <==> key_in(entries@, k),
{
    let ghost orig = entries@;
    let mut entries = entries;
    let mut r: Vec<(String, V)> = Vec::new();
    assert(orig.skip(orig.len() as int) =~= Seq::<(String, V)>::empty());
    while entries.len() > 0
        invariant
            entries@.len() <= orig.len(),
            entries@ == orig.take(entries@.len() as int),
            r@ == last_per_key(orig.skip(entries@.len() as int)),
            keys_distinct(r@),
            forall|k: Seq<char>| key_in(r@, k) <==> key_in(orig.skip(entries@.len() as int), k),
        decreases entries.len(),
    {
        let ghost n = entries@.len() as int;
        assert(forall|k: Seq<char>| key_in(r@, k) <==> key_in(orig.skip(n), k));
        let e = entries.pop().unwrap();
        let ghost suffix = orig.skip(n);
        let ghost longer = orig.skip(n - 1);
        assert(longer.drop_first() =~= suffix);
        assert(longer[0] == orig[n - 1]);
        assert(e == orig[n - 1]) by {
            assert(orig.take(n)[n - 1] == orig[n - 1]);
        }
        assert(entries@ =~= orig.take(n - 1));
        let present = has_key_in(&r, e.0.as_str());
        let ghost old_r = r@;
        if !present {
            r.insert(0, e);
            assert(r@ =~= seq![longer[0]] + old_r);
            assert forall|i: int, j: int| 0 <= i < j < r@.len() implies r@[i].0@ != r@[j].0@ by {
                if i == 0 {
                    assert(r@[j] == old_r[j - 1]);
                } else {
                    assert(r@[i] == old_r[i - 1] && r@[j] == old_r[j - 1]);
                }
            }
            assert forall|k: Seq<char>| key_in(r@, k) <==> key_in(longer, k) by {
                if key_in(r@, k) {
                    let i = choose|i: int| 0 <= i < r@.len() && #[trigger] r@[i].0@ == k;
                    if i == 0 {
                        assert(longer[0].0@ == k);
                    } else {
                        assert(r@[i] == old_r[i - 1]);
                        assert(key_in(old_r, k));
                        let m = choose|m: int| 0 <= m < suffix.len() && #[trigger] suffix[m].0@ == k;
                        assert(longer[m + 1] == suffix[m]);
                    }
                }
                if key_in(longer, k) {
                    let m = choose|m: int| 0 <= m < longer.len() && #[trigger] longer[m].0@ == k;
                    if m == 0 {
                        assert(r@[0].0@ == k);
                    } else {
                        assert(suffix[m - 1] == longer[m]);
                        assert(key_in(suffix, k));
                        assert(key_in(old_r, k));
                        let i = choose|i: int| 0 <= i < old_r.len() && #[trigger] old_r[i].0@ == k;
                        assert(r@[i + 1] == old_r[i]);
                    }
                }
            }
        } else {
            assert forall|k: Seq<char>| key_in(r@, k) <==> key_in(longer, k) by {
                if key_in(longer, k) {
                    let m = choose|m: int| 0 <= m < longer.len() && #[trigger] longer[m].0@ == k;
                    if m > 0 {
                        assert(suffix[m - 1] == longer[m]);
                        assert(key_in(suffix, k));
                    }
                }
                if key_in(suffix, k) {
                    let m = choose|m: int| 0 <= m < suffix.len() && #[trigger] suffix[m].0@ == k;
                    assert(longer[m + 1] == suffix[m]);
                }
            }
        }
    }
    assert(orig.skip(0) =~= orig);
    r
}

} // verus!
