//! AWS Polly voice metadata: the voice list, its languages, and the region
//! taken from the AWS configuration file.
use vstd::prelude::*;

use crate::model::{LanguageInfo, PollyVoiceInfo};
use crate::text;
use crate::text::{
    chars_eq, eq_ignore_ascii_case, push_chars, split_chars, starts_with_chars, string_of,
    to_chars, trim_bounds, trim_chars,
};
use crate::voices::{distinct_languages, is_language_list};

verus! {

/// The English name of a language family ("Unknown" when not listed).
pub open spec fn english_language_name(f: Seq<char>) -> Seq<char> {
    if f.len() == 2 {
        match (f[0], f[1]) {
            ('e', 'n') => "English"@,
            ('p', 't') => "Portuguese"@,
            ('e', 's') => "Spanish"@,
            ('f', 'r') => "French"@,
            ('d', 'e') => "German"@,
            ('i', 't') => "Italian"@,
            ('j', 'a') => "Japanese"@,
            ('k', 'o') => "Korean"@,
            ('z', 'h') => "Chinese"@,
            ('a', 'r') => "Arabic"@,
            ('h', 'i') => "Hindi"@,
            ('r', 'u') => "Russian"@,
            ('n', 'l') => "Dutch"@,
            ('p', 'l') => "Polish"@,
            ('t', 'r') => "Turkish"@,
            ('s', 'v') => "Swedish"@,
            ('d', 'a') => "Danish"@,
            ('n', 'o') => "Norwegian"@,
            ('f', 'i') => "Finnish"@,
            ('c', 's') => "Czech"@,
            ('r', 'o') => "Romanian"@,
            ('h', 'u') => "Hungarian"@,
            ('t', 'h') => "Thai"@,
            ('v', 'i') => "Vietnamese"@,
            ('i', 'd') => "Indonesian"@,
            ('m', 's') => "Malay"@,
            ('h', 'e') => "Hebrew"@,
            ('i', 's') => "Icelandic"@,
            ('c', 'y') => "Welsh"@,
            ('g', 'a') => "Irish"@,
            ('m', 't') => "Maltese"@,
            _ => "Unknown"@,
        }
    } else {
        "Unknown"@
    }
}

/// The English name of a region's country ("Unknown" when not listed).
pub open spec fn english_country_name(r: Seq<char>) -> Seq<char> {
    if r.len() == 2 {
        match (r[0], r[1]) {
            ('U', 'S') => "United States"@,
            ('G', 'B') => "United Kingdom"@,
            ('A', 'U') => "Australia"@,
            ('C', 'A') => "Canada"@,
            ('I', 'N') => "India"@,
            ('I', 'E') => "Ireland"@,
            ('N', 'Z') => "New Zealand"@,
            ('Z', 'A') => "South Africa"@,
            ('B', 'R') => "Brazil"@,
            ('P', 'T') => "Portugal"@,
            ('E', 'S') => "Spain"@,
            ('M', 'X') => "Mexico"@,
            ('A', 'R') => "Argentina"@,
            ('C', 'O') => "Colombia"@,
            ('C', 'L') => "Chile"@,
            ('P', 'E') => "Peru"@,
            ('V', 'E') => "Venezuela"@,
            ('E', 'C') => "Ecuador"@,
            ('B', 'O') => "Bolivia"@,
            ('P', 'Y') => "Paraguay"@,
            ('U', 'Y') => "Uruguay"@,
            ('C', 'R') => "Costa Rica"@,
            ('P', 'A') => "Panama"@,
            ('D', 'O') => "Dominican Republic"@,
            ('C', 'U') => "Cuba"@,
            ('F', 'R') => "France"@,
            ('D', 'E') => "Germany"@,
            ('A', 'T') => "Austria"@,
            ('C', 'H') => "Switzerland"@,
            ('I', 'T') => "Italy"@,
            ('N', 'L') => "Netherlands"@,
            ('P', 'L') => "Poland"@,
            ('R', 'U') => "Russia"@,
            ('T', 'R') => "Turkey"@,
            ('G', 'R') => "Greece"@,
            ('C', 'Z') => "Czech Republic"@,
            ('S', 'K') => "Slovakia"@,
            ('H', 'U') => "Hungary"@,
            ('R', 'O') => "Romania"@,
            ('B', 'G') => "Bulgaria"@,
            ('H', 'R') => "Croatia"@,
            ('S', 'I') => "Slovenia"@,
            ('F', 'I') => "Finland"@,
            ('S', 'V') => "Sweden"@,
            ('N', 'O') => "Norway"@,
            ('D', 'K') => "Denmark"@,
            ('I', 'S') => "Iceland"@,
            ('E', 'E') => "Estonia"@,
            ('L', 'V') => "Latvia"@,
            ('L', 'T') => "Lithuania"@,
            ('C', 'N') => "China"@,
            ('T', 'W') => "Taiwan"@,
            ('H', 'K') => "Hong Kong"@,
            ('J', 'P') => "Japan"@,
            ('K', 'R') => "South Korea"@,
            ('V', 'N') => "Vietnam"@,
            ('T', 'H') => "Thailand"@,
            ('I', 'D') => "Indonesia"@,
            ('M', 'Y') => "Malaysia"@,
            ('P', 'H') => "Philippines"@,
            ('P', 'K') => "Pakistan"@,
            ('B', 'D') => "Bangladesh"@,
            ('S', 'A') => "Saudi Arabia"@,
            ('A', 'E') => "United Arab Emirates"@,
            ('I', 'L') => "Israel"@,
            ('I', 'R') => "Iran"@,
            ('I', 'Q') => "Iraq"@,
            ('J', 'O') => "Jordan"@,
            ('E', 'G') => "Egypt"@,
            ('K', 'E') => "Kenya"@,
            ('N', 'G') => "Nigeria"@,
            _ => "Unknown"@,
        }
    } else {
        "Unknown"@
    }
}

fn english_language_name_of(f: &[char]) -> (s: &'static str)
    ensures
        s@ == english_language_name(f@),
{
    if f.len() == 2 {
        match (f[0], f[1]) {
            ('e', 'n') => "English",
            ('p', 't') => "Portuguese",
            ('e', 's') => "Spanish",
            ('f', 'r') => "French",
            ('d', 'e') => "German",
            ('i', 't') => "Italian",
            ('j', 'a') => "Japanese",
            ('k', 'o') => "Korean",
            ('z', 'h') => "Chinese",
            ('a', 'r') => "Arabic",
            ('h', 'i') => "Hindi",
            ('r', 'u') => "Russian",
            ('n', 'l') => "Dutch",
            ('p', 'l') => "Polish",
            ('t', 'r') => "Turkish",
            ('s', 'v') => "Swedish",
            ('d', 'a') => "Danish",
            ('n', 'o') => "Norwegian",
            ('f', 'i') => "Finnish",
            ('c', 's') => "Czech",
            ('r', 'o') => "Romanian",
            ('h', 'u') => "Hungarian",
            ('t', 'h') => "Thai",
            ('v', 'i') => "Vietnamese",
            ('i', 'd') => "Indonesian",
            ('m', 's') => "Malay",
            ('h', 'e') => "Hebrew",
            ('i', 's') => "Icelandic",
            ('c', 'y') => "Welsh",
            ('g', 'a') => "Irish",
            ('m', 't') => "Maltese",
            _ => "Unknown",
        }
    } else {
        "Unknown"
    }
}

fn english_country_name_of(r: &[char]) -> (s: &'static str)
    ensures
        s@ == english_country_name(r@),
{
    if r.len() == 2 {
        match (r[0], r[1]) {
            ('U', 'S') => "United States",
            ('G', 'B') => "United Kingdom",
            ('A', 'U') => "Australia",
            ('C', 'A') => "Canada",
            ('I', 'N') => "India",
            ('I', 'E') => "Ireland",
            ('N', 'Z') => "New Zealand",
            ('Z', 'A') => "South Africa",
            ('B', 'R') => "Brazil",
            ('P', 'T') => "Portugal",
            ('E', 'S') => "Spain",
            ('M', 'X') => "Mexico",
            ('A', 'R') => "Argentina",
            ('C', 'O') => "Colombia",
            ('C', 'L') => "Chile",
            ('P', 'E') => "Peru",
            ('V', 'E') => "Venezuela",
            ('E', 'C') => "Ecuador",
            ('B', 'O') => "Bolivia",
            ('P', 'Y') => "Paraguay",
            ('U', 'Y') => "Uruguay",
            ('C', 'R') => "Costa Rica",
            ('P', 'A') => "Panama",
            ('D', 'O') => "Dominican Republic",
            ('C', 'U') => "Cuba",
            ('F', 'R') => "France",
            ('D', 'E') => "Germany",
            ('A', 'T') => "Austria",
            ('C', 'H') => "Switzerland",
            ('I', 'T') => "Italy",
            ('N', 'L') => "Netherlands",
            ('P', 'L') => "Poland",
            ('R', 'U') => "Russia",
            ('T', 'R') => "Turkey",
            ('G', 'R') => "Greece",
            ('C', 'Z') => "Czech Republic",
            ('S', 'K') => "Slovakia",
            ('H', 'U') => "Hungary",
            ('R', 'O') => "Romania",
            ('B', 'G') => "Bulgaria",
            ('H', 'R') => "Croatia",
            ('S', 'I') => "Slovenia",
            ('F', 'I') => "Finland",
            ('S', 'V') => "Sweden",
            ('N', 'O') => "Norway",
            ('D', 'K') => "Denmark",
            ('I', 'S') => "Iceland",
            ('E', 'E') => "Estonia",
            ('L', 'V') => "Latvia",
            ('L', 'T') => "Lithuania",
            ('C', 'N') => "China",
            ('T', 'W') => "Taiwan",
            ('H', 'K') => "Hong Kong",
            ('J', 'P') => "Japan",
            ('K', 'R') => "South Korea",
            ('V', 'N') => "Vietnam",
            ('T', 'H') => "Thailand",
            ('I', 'D') => "Indonesia",
            ('M', 'Y') => "Malaysia",
            ('P', 'H') => "Philippines",
            ('P', 'K') => "Pakistan",
            ('B', 'D') => "Bangladesh",
            ('S', 'A') => "Saudi Arabia",
            ('A', 'E') => "United Arab Emirates",
            ('I', 'L') => "Israel",
            ('I', 'R') => "Iran",
            ('I', 'Q') => "Iraq",
            ('J', 'O') => "Jordan",
            ('E', 'G') => "Egypt",
            ('K', 'E') => "Kenya",
            ('N', 'G') => "Nigeria",
            _ => "Unknown",
        }
    } else {
        "Unknown"
    }
}

/// The English names of a language family and of a region's country.
pub fn get_language_names(lang_family: &str, region: &str) -> (r: (String, String))
    ensures
        r.0@ == english_language_name(lang_family@),
        r.1@ == english_country_name(region@),
{
    let f = to_chars(lang_family);
    let g = to_chars(region);
    (english_language_name_of(f.as_slice()).to_owned(), english_country_name_of(g.as_slice()).to_owned())
}

/// `s` with every `from` replaced by `to`.
pub open spec fn replace_char(s: Seq<char>, from: char, to: char) -> Seq<char> {
    s.map_values(|c: char| if c == from { to } else { c })
}

/// The language information made from an AWS language code such as "en-US":
/// code "en_US", family "en", region "US" (or "US" when there is no region),
/// and the English names of the language and of the country.
pub open spec fn is_language_info_for(lang_code: Seq<char>, info: LanguageInfo) -> bool {
    let code = replace_char(lang_code, '-', '_');
    let parts = text::split_char(code, '_');
    let region = if parts.len() >= 2 { parts[1] } else { seq!['U', 'S'] };
    &&& info.code@ == code
    &&& info.family@ == parts[0]
    &&& info.region@ == region
    &&& info.name_english@ == english_language_name(parts[0])
    &&& info.name_native@ == english_language_name(parts[0])
    &&& info.country_english@ == english_country_name(region)
}

/// Language information from an AWS language code (e.g. "pt-BR").
pub fn create_language_info(lang_code: &str) -> (info: LanguageInfo)
    ensures
        is_language_info_for(lang_code@, info),
{
    let v = to_chars(lang_code);
    let mut code: Vec<char> = Vec::new();
    let mut i: usize = 0;
    while i < v.len()
        invariant
            i <= v@.len(),
            code@ == replace_char(v@.take(i as int), '-', '_'),
        decreases v.len() - i,
    {
        let c = if v[i] == '-' { '_' } else { v[i] };
        code.push(c);
        assert(replace_char(v@.take(i + 1), '-', '_') =~= replace_char(v@.take(i as int), '-', '_').push(c));
        i += 1;
    }
    assert(v@.take(v@.len() as int) =~= v@);
    let parts = split_chars(code.as_slice(), '_');
    let ghost views = parts@.map_values(|p: Vec<char>| p@);
    proof {
        text::lemma_split_first(code@, '_');
    }
    let family = string_of(parts[0].as_slice());
    let region = if parts.len() >= 2 {
        string_of(parts[1].as_slice())
    } else {
        string_of(&['U', 'S'])
    };
    assert(views[0] == parts@[0]@);
    let (name_english, country_english) = get_language_names(family.as_str(), region.as_str());
    let name_native = name_english.clone();
    LanguageInfo {
        code: string_of(code.as_slice()),
        family,
        region,
        name_native,
        name_english,
        country_english,
    }
}

/// The languages of the voices, in list order.
pub open spec fn polly_languages(voices: Seq<(String, PollyVoiceInfo)>) -> Seq<LanguageInfo> {
    voices.map_values(|e: (String, PollyVoiceInfo)| e.1.language)
}

/// The distinct languages of the AWS voices, sorted by code.
pub fn get_available_languages(voices: &Vec<(String, PollyVoiceInfo)>) -> (r: Vec<(String, LanguageInfo)>)
    requires
        distinct_keys(voices@),
    ensures
        is_language_list(polly_languages(voices@), r@),
{
    let mut langs: Vec<LanguageInfo> = Vec::new();
    let mut i: usize = 0;
    while i < voices.len()
        invariant
            i <= voices@.len(),
            langs@ == polly_languages(voices@.take(i as int)),
        decreases voices.len() - i,
    {
        langs.push(voices[i].1.language.duplicate());
        assert(polly_languages(voices@.take(i + 1)) =~= polly_languages(voices@.take(i as int)).push(voices@[i as int].1.language));
        i += 1;
    }
    assert(voices@.take(voices@.len() as int) =~= voices@);
    distinct_languages(&langs)
}

/// The AWS voices whose language has code `code`, in list order.
pub open spec fn polly_voices_with_code(voices: Seq<(String, PollyVoiceInfo)>, code: Seq<char>) -> Seq<PollyVoiceInfo>
    decreases voices.len(),
{
    if voices.len() == 0 {
        seq![]
    } else {
        let rest = polly_voices_with_code(voices.drop_last(), code);
        if voices.last().1.language.code@ == code {
            rest.push(voices.last().1)
        } else {
            rest
        }
    }
}

/// The AWS voices for a language code, in list order.
pub fn get_voices_for_language<'a>(voices: &'a Vec<(String, PollyVoiceInfo)>, language_code: &'a str) -> (r: Vec<&'a PollyVoiceInfo>)
    requires
        distinct_keys(voices@),
    ensures
        r@.map_values(|v: &PollyVoiceInfo| *v) == polly_voices_with_code(voices@, language_code@),
{
    let code = to_chars(language_code);
    let mut r: Vec<&'a PollyVoiceInfo> = Vec::new();
    let mut i: usize = 0;
    while i < voices.len()
        invariant
            i <= voices@.len(),
            code@ == language_code@,
            r@.map_values(|v: &PollyVoiceInfo| *v) == polly_voices_with_code(voices@.take(i as int), code@),
        decreases voices.len() - i,
    {
        let voice = &voices[i].1;
        let c = to_chars(voice.language.code.as_str());
        let ghost before = r@;
        assert(voices@.take(i + 1).drop_last() =~= voices@.take(i as int));
        if chars_eq(c.as_slice(), code.as_slice()) {
            r.push(voice);
            assert(r@.map_values(|v: &PollyVoiceInfo| *v) =~= before.map_values(|v: &PollyVoiceInfo| *v).push(*voice));
        }
        i += 1;
    }
    assert(voices@.take(voices@.len() as int) =~= voices@);
    r
}

/// How many voices of the catalogue the voice lists of `codes` hold
/// together.
pub open spec fn polly_voices_listed(voices: Seq<(String, PollyVoiceInfo)>, codes: Seq<Seq<char>>) -> nat
    decreases codes.len(),
{
    if codes.len() == 0 {
        0
    } else {
        polly_voices_listed(voices, codes.drop_last()) + polly_voices_with_code(voices, codes.last()).len()
    }
}

proof fn lemma_polly_voices_listed_step(voices: Seq<(String, PollyVoiceInfo)>, codes: Seq<Seq<char>>)
    requires
        voices.len() > 0,
    ensures
        polly_voices_listed(voices, codes) == polly_voices_listed(voices.drop_last(), codes)
            + crate::voices::code_count(codes, voices.last().1.language.code@),
    decreases codes.len(),
{
    if codes.len() > 0 {
        lemma_polly_voices_listed_step(voices, codes.drop_last());
    }
}

proof fn lemma_polly_voices_listed_all(voices: Seq<(String, PollyVoiceInfo)>, codes: Seq<Seq<char>>)
    requires
        forall|i: int, j: int| 0 <= i < j < codes.len() ==> codes[i] != codes[j],
        forall|k: int| 0 <= k < voices.len() ==> codes.contains(#[trigger] voices[k].1.language.code@),
    ensures
        polly_voices_listed(voices, codes) == voices.len(),
    decreases voices.len(),
{
    if voices.len() == 0 {
        assert(polly_voices_listed(voices, codes) == 0) by {
            lemma_polly_voices_listed_empty(voices, codes);
        }
    } else {
        let d = voices.drop_last();
        assert forall|k: int| 0 <= k < d.len() implies codes.contains(#[trigger] d[k].1.language.code@) by {
            assert(d[k] == voices[k]);
        }
        lemma_polly_voices_listed_all(d, codes);
        lemma_polly_voices_listed_step(voices, codes);
        assert(codes.contains(voices[voices.len() - 1].1.language.code@));
        crate::voices::lemma_code_count_distinct(codes, voices.last().1.language.code@);
    }
}

proof fn lemma_polly_voices_listed_empty(voices: Seq<(String, PollyVoiceInfo)>, codes: Seq<Seq<char>>)
    requires
        voices.len() == 0,
    ensures
        polly_voices_listed(voices, codes) == 0,
    decreases codes.len(),
{
    if codes.len() > 0 {
        lemma_polly_voices_listed_empty(voices, codes.drop_last());
    }
}

/// The per-language voice lists partition the AWS voices: over the languages
/// that [`get_available_languages`] lists, the voices that
/// [`get_voices_for_language`] gives number exactly the voices of the
/// list, none lost and none repeated.
pub proof fn lemma_languages_partition_polly_voices(voices: Seq<(String, PollyVoiceInfo)>, r: Seq<(String, LanguageInfo)>)
    requires
        is_language_list(polly_languages(voices), r),
    ensures
        polly_voices_listed(voices, crate::voices::list_codes(r)) == voices.len(),
{
    let langs = polly_languages(voices);
    crate::voices::lemma_language_list_codes(langs, r);
    let c = crate::voices::list_codes(r);
    assert forall|k: int| 0 <= k < voices.len() implies c.contains(#[trigger] voices[k].1.language.code@) by {
        assert(langs[k] == voices[k].1.language);
    }
    lemma_polly_voices_listed_all(voices, c);
}

// ----------------------------------------------------------------------------
// Region from the AWS configuration file
// ----------------------------------------------------------------------------

pub open spec fn region_key() -> Seq<char> {
    seq!['r', 'e', 'g', 'i', 'o', 'n']
}

/// The value of a trimmed "key = value" line: its second "="-separated piece,
/// trimmed, when that is not empty.
pub open spec fn line_value(line: Seq<char>) -> Option<Seq<char>> {
    let parts = text::split_char(line, '=');
    if parts.len() >= 2 && text::trim(parts[1]).len() > 0 {
        Some(text::trim(parts[1]))
    } else {
        None
    }
}

/// The first region set in the section `header`, scanning `lines` from the
/// top; `in_section` tells whether the scan starts inside that section.
/// Lines are trimmed; a line starting with "[" opens a section, which is the
/// wanted one when it equals `header` up to ASCII case.
pub open spec fn region_scan(lines: Seq<Seq<char>>, header: Seq<char>, in_section: bool) -> Option<Seq<char>>
    decreases lines.len(),
{
    if lines.len() == 0 {
        None
    } else {
        let line = text::trim(lines[0]);
        let rest = lines.drop_first();
        if text::starts_with(line, seq!['[']) {
            region_scan(rest, header, text::eq_ignore_case(line, header))
        } else if in_section && text::starts_with(line, region_key()) && line_value(line) is Some {
            line_value(line)
        } else {
            region_scan(rest, header, in_section)
        }
    }
}

/// "[profile NAME]".
pub open spec fn profile_header(profile: Seq<char>) -> Seq<char> {
    seq!['[', 'p', 'r', 'o', 'f', 'i', 'l', 'e', ' '] + profile + seq![']']
}

pub open spec fn default_header() -> Seq<char> {
    seq!['[', 'd', 'e', 'f', 'a', 'u', 'l', 't', ']']
}

/// The lines of a file's content. (`str::lines` also drops a final empty line
/// and a trailing carriage return, which makes no difference to scans that
/// trim every line.)
pub open spec fn content_lines(content: Seq<char>) -> Seq<Seq<char>> {
    text::split_char(content, '\n')
}

/// The value of a trimmed line, if it has one.
fn line_value_of(line: &[char]) -> (r: Option<Vec<char>>)
    ensures
        r is Some == line_value(line@) is Some,
        r is Some ==> r.unwrap()@ == line_value(line@).unwrap(),
{
    let parts = split_chars(line, '=');
    let ghost views = parts@.map_values(|p: Vec<char>| p@);
    if parts.len() >= 2 {
        assert(views[1] == parts@[1]@);
        let v = trim_chars(parts[1].as_slice());
        if v.len() > 0 {
            return Some(v);
        }
    }
    None
}

/// The first region in the section `header` of `content`.
pub fn region_in_section(content: &[char], header: &[char]) -> (r: Option<String>)
    ensures
        r is Some == region_scan(content_lines(content@), header@, false) is Some,
        r is Some ==> r.unwrap()@ == region_scan(content_lines(content@), header@, false).unwrap(),
{
    let lines = split_chars(content, '\n');
    let ghost views = lines@.map_values(|p: Vec<char>| p@);
    let open = ['['];
    let key = ['r', 'e', 'g', 'i', 'o', 'n'];
    assert(open@ =~= seq!['['] && key@ =~= region_key());
    let mut in_section = false;
    let mut i: usize = 0;
    assert(views.skip(0) =~= views);
    while i < lines.len()
        invariant
            i <= lines@.len(),
            views == lines@.map_values(|p: Vec<char>| p@),
            views == content_lines(content@),
            open@ == seq!['['],
            key@ == region_key(),
            region_scan(views, header@, false) == region_scan(views.skip(i as int), header@, in_section),
        decreases lines.len() - i,
    {
        let raw = lines[i].as_slice();
        let (a, b) = trim_bounds(raw, 0, raw.len());
        assert(raw@.subrange(0, raw@.len() as int) =~= raw@);
        let mut line: Vec<char> = Vec::new();
        let mut k = a;
        while k < b
            invariant
                a <= k <= b <= raw@.len(),
                line@ == raw@.subrange(a as int, k as int),
            decreases b - k,
        {
            line.push(raw[k]);
            assert(raw@.subrange(a as int, k + 1) =~= raw@.subrange(a as int, k as int).push(raw@[k as int]));
            k += 1;
        }
        let line = line.as_slice();
        proof {
            assert(views.skip(i as int)[0] == views[i as int]);
            assert(views.skip(i as int).drop_first() =~= views.skip(i + 1));
            assert(line@ == text::trim(views.skip(i as int)[0]));
        }
        if starts_with_chars(line, &open) {
            in_section = eq_ignore_ascii_case(line, header);
        } else if in_section && starts_with_chars(line, &key) {
            match line_value_of(line) {
                Some(v) => {
                    return Some(string_of(v.as_slice()));
                },
                None => {},
            }
        }
        i += 1;
    }
    None
}

/// The region set for a named profile in the content of an AWS configuration
/// file (its "[profile NAME]" section).
pub fn read_region_from_profile_section(content: &str, profile: &str) -> (r: Option<String>)
    ensures
        r is Some == region_scan(content_lines(content@), profile_header(profile@), false) is Some,
        r is Some ==> r.unwrap()@ == region_scan(content_lines(content@), profile_header(profile@), false).unwrap(),
{
    let c = to_chars(content);
    let p = to_chars(profile);
    let mut header: Vec<char> = vec!['[', 'p', 'r', 'o', 'f', 'i', 'l', 'e', ' '];
    let mut k: usize = 0;
    let ghost start = header@;
    assert(start =~= seq!['[', 'p', 'r', 'o', 'f', 'i', 'l', 'e', ' ']);
    while k < p.len()
        invariant
            k <= p@.len(),
            header@ == start + p@.take(k as int),
        decreases p.len() - k,
    {
        header.push(p[k]);
        assert(p@.take(k + 1) =~= p@.take(k as int).push(p@[k as int]));
        k += 1;
    }
    header.push(']');
    assert(p@.take(p@.len() as int) =~= p@);
    assert(header@ =~= profile_header(profile@));
    region_in_section(c.as_slice(), header.as_slice())
}

/// The region a configuration file sets for `profile`: the "[default]"
/// section for the profile "default", the "[profile NAME]" section otherwise.
pub open spec fn spec_region_from_config(content: Seq<char>, profile: Seq<char>) -> Option<Seq<char>> {
    if profile == seq!['d', 'e', 'f', 'a', 'u', 'l', 't'] {
        region_scan(content_lines(content), default_header(), false)
    } else {
        region_scan(content_lines(content), profile_header(profile), false)
    }
}

/// The region that the AWS configuration file `content` sets for `profile`.
pub fn region_from_config(content: &str, profile: &str) -> (r: Option<String>)
    ensures
        r is Some == spec_region_from_config(content@, profile@) is Some,
        r is Some ==> r.unwrap()@ == spec_region_from_config(content@, profile@).unwrap(),
{
    let p = to_chars(profile);
    let dflt = ['d', 'e', 'f', 'a', 'u', 'l', 't'];
    assert(dflt@ =~= seq!['d', 'e', 'f', 'a', 'u', 'l', 't']);
    if chars_eq(p.as_slice(), &dflt) {
        let c = to_chars(content);
        let header = ['[', 'd', 'e', 'f', 'a', 'u', 'l', 't', ']'];
        assert(header@ =~= default_header());
        region_in_section(c.as_slice(), &header)
    } else {
        read_region_from_profile_section(content, profile)
    }
}

/// The region to use: `AWS_REGION`, then `AWS_DEFAULT_REGION` (each when set
/// and not empty), then the region of the configuration file, then
/// "us-east-1".
pub fn choose_region(aws_region: Option<String>, aws_default_region: Option<String>, from_config: Option<String>) -> (r: String)
    ensures
        r@ == (if aws_region is Some && aws_region.unwrap()@.len() > 0 {
            aws_region.unwrap()@
        } else if aws_default_region is Some && aws_default_region.unwrap()@.len() > 0 {
            aws_default_region.unwrap()@
        } else if from_config is Some {
            from_config.unwrap()@
        } else {
            "us-east-1"@
        }),
{
    if let Some(region) = aws_region {
        if !region.as_str().is_empty() {
            return region;
        }
    }
    if let Some(region) = aws_default_region {
        if !region.as_str().is_empty() {
            return region;
        }
    }
    if let Some(region) = from_config {
        return region;
    }
    "us-east-1".to_owned()
}

// ----------------------------------------------------------------------------
// The voice list
// ----------------------------------------------------------------------------

/// A voice as AWS describes it; the gender and engines are their printed
/// names (e.g. "Female", "Neural").
#[derive(Debug, Clone)]
pub struct DescribedVoice {
    pub id: Option<String>,
    pub name: Option<String>,
    pub language_code: Option<String>,
    pub gender: Option<String>,
    pub supported_engines: Vec<String>,
}

/// The key of a voice entry: "VoiceId:Engine".
pub open spec fn voice_key(id: Seq<char>, engine: Seq<char>) -> Seq<char> {
    id + seq![':'] + engine
}

/// The entry made for one engine of a described voice.
pub open spec fn is_entry_for(v: DescribedVoice, engine: Seq<char>, info: PollyVoiceInfo) -> bool {
    &&& info.id@ == v.id.unwrap()@
    &&& info.name@ == (match v.name {
        Some(n) => n@,
        None => v.id.unwrap()@,
    })
    &&& is_language_info_for(v.language_code.unwrap()@, info.language)
    &&& info.gender@ == (match v.gender {
        Some(g) => g@,
        None => "Unknown"@,
    })
    &&& info.engine@ == engine
}

/// The keys of the entries are distinct.
pub open spec fn distinct_keys(r: Seq<(String, PollyVoiceInfo)>) -> bool {
    forall|i: int, j: int| 0 <= i < j < r.len() ==> r[i].0@ != r[j].0@
}

/// Some entry has the key `key`.
pub open spec fn has_key(r: Seq<(String, PollyVoiceInfo)>, key: Seq<char>) -> bool {
    exists|j: int| 0 <= j < r.len() && #[trigger] r[j].0@ == key
}

/// The voice can be listed: it has an id and a language code.
pub open spec fn is_listable(v: DescribedVoice) -> bool {
    v.id is Some && v.language_code is Some
}

/// `entry` is the entry for engine `e` of the listable voice `k`.
pub open spec fn is_entry_of(described: Seq<DescribedVoice>, k: int, e: int, entry: (String, PollyVoiceInfo)) -> bool {
    &&& 0 <= k < described.len()
    &&& is_listable(described[k])
    &&& 0 <= e < described[k].supported_engines@.len()
    &&& entry.0@ == voice_key(described[k].id.unwrap()@, described[k].supported_engines@[e]@)
    &&& is_entry_for(described[k], described[k].supported_engines@[e]@, entry.1)
}

/// The pair (voice `k2`, engine `e2`) comes before (voice `k`, engine `e`)
/// in list order.
pub open spec fn pair_lt(k2: int, e2: int, k: int, e: int) -> bool {
    k2 < k || (k2 == k && e2 < e)
}

/// The key of engine `e` of the listable voice `k`.
pub open spec fn pair_key(described: Seq<DescribedVoice>, k: int, e: int) -> Seq<char> {
    voice_key(described[k].id.unwrap()@, described[k].supported_engines@[e]@)
}

/// Among the engines listed before (voice `nk`, engine `ne`), none after
/// (voice `k`, engine `e`) has the same key.
pub open spec fn is_last_for_key(described: Seq<DescribedVoice>, k: int, e: int, nk: int, ne: int) -> bool {
    forall|k2: int, e2: int| #![trigger described[k2].supported_engines@[e2]]
        0 <= k2 < described.len() && is_listable(described[k2]) && 0 <= e2 < described[k2].supported_engines@.len()
            && pair_lt(k2, e2, nk, ne) && pair_key(described, k2, e2) == pair_key(described, k, e)
            ==> !pair_lt(k, e, k2, e2)
}

/// `entry` is the entry for the last engine with its key among those listed
/// before (voice `nk`, engine `ne`).
pub open spec fn is_latest_entry(described: Seq<DescribedVoice>, nk: int, ne: int, entry: (String, PollyVoiceInfo)) -> bool {
    exists|k: int, e: int|
        #[trigger] is_entry_of(described, k, e, entry) && pair_lt(k, e, nk, ne) && is_last_for_key(described, k, e, nk, ne)
}

/// Lastness survives an engine with another key.
proof fn lemma_last_new_pair(described: Seq<DescribedVoice>, k0: int, e0: int, k: int, e: int)
    requires
        is_last_for_key(described, k0, e0, k, e),
        0 <= k < described.len() && is_listable(described[k]) && 0 <= e < described[k].supported_engines@.len(),
        pair_key(described, k, e) != pair_key(described, k0, e0),
    ensures
        is_last_for_key(described, k0, e0, k, e + 1),
{
    assert forall|k2: int, e2: int| #![trigger described[k2].supported_engines@[e2]]
        0 <= k2 < described.len() && is_listable(described[k2]) && 0 <= e2 < described[k2].supported_engines@.len()
            && pair_lt(k2, e2, k, e + 1) && pair_key(described, k2, e2) == pair_key(described, k0, e0)
            implies !pair_lt(k0, e0, k2, e2) by {
        if k2 == k && e2 == e {
        } else {
            assert(pair_lt(k2, e2, k, e));
        }
    }
}

/// Once the engines of voice `k` are done, lastness holds up to the next
/// voice.
proof fn lemma_last_next_voice(described: Seq<DescribedVoice>, k0: int, e0: int, k: int, ne: int)
    requires
        is_last_for_key(described, k0, e0, k, ne),
        0 <= k < described.len(),
        !is_listable(described[k]) || ne >= described[k].supported_engines@.len(),
    ensures
        is_last_for_key(described, k0, e0, k + 1, 0),
{
    assert forall|k2: int, e2: int| #![trigger described[k2].supported_engines@[e2]]
        0 <= k2 < described.len() && is_listable(described[k2]) && 0 <= e2 < described[k2].supported_engines@.len()
            && pair_lt(k2, e2, k + 1, 0) && pair_key(described, k2, e2) == pair_key(described, k0, e0)
            implies !pair_lt(k0, e0, k2, e2) by {
        assert(pair_lt(k2, e2, k, ne));
    }
}

fn string_eq(a: &String, b: &String) -> (r: bool)
    ensures
        r == (a@ == b@),
{
    let ac = to_chars(a.as_str());
    let bc = to_chars(b.as_str());
    chars_eq(ac.as_slice(), bc.as_slice())
}

/// Insert `(key, info)`, replacing an entry with the same key.
fn insert_entry(r: &mut Vec<(String, PollyVoiceInfo)>, key: String, info: PollyVoiceInfo)
    requires
        distinct_keys(old(r)@),
    ensures
        distinct_keys(final(r)@),
        final(r)@.contains((key, info)),
        forall|i: int| 0 <= i < old(r)@.len() && old(r)@[i].0@ != key@
            ==> final(r)@.contains(#[trigger] old(r)@[i]),
        forall|j: int| 0 <= j < final(r)@.len()
            ==> #[trigger] final(r)@[j] == (key, info) || old(r)@.contains(final(r)@[j]),
{
    let ghost k = key;
    let ghost f = info;
    let mut i: usize = 0;
    while i < r.len()
        invariant
            i <= r@.len(),
            r@ == old(r)@,
            distinct_keys(r@),
            key == k,
            info == f,
            forall|j: int| 0 <= j < i ==> r@[j].0@ != key@,
        decreases r.len() - i,
    {
        if string_eq(&r[i].0, &key) {
            let ghost before = r@;
            r.set(i, (key, info));
            proof {
                assert forall|a: int, b: int| 0 <= a < b < r@.len() implies r@[a].0@ != r@[b].0@ by {
                    if a != i as int && b != i as int {
                        assert(r@[a] == before[a] && r@[b] == before[b]);
                    } else if a == i as int {
                        assert(r@[b] == before[b]);
                        assert(before[a].0@ != before[b].0@);
                    } else {
                        assert(r@[a] == before[a]);
                    }
                }
                assert(r@[i as int] == (k, f));
                assert forall|x: int| 0 <= x < before.len() && before[x].0@ != k@
                    implies r@.contains(#[trigger] before[x]) by {
                    assert(r@[x] == before[x]);
                }
                assert forall|j: int| 0 <= j < r@.len()
                    implies #[trigger] r@[j] == (k, f) || before.contains(r@[j]) by {
                    if j != i as int {
                        assert(before[j] == r@[j]);
                    }
                }
            }
            return;
        }
        i += 1;
    }
    let ghost before = r@;
    r.push((key, info));
    proof {
        assert(r@[before.len() as int] == (k, f));
        assert forall|x: int| 0 <= x < before.len() && before[x].0@ != k@
            implies r@.contains(#[trigger] before[x]) by {
            assert(r@[x] == before[x]);
        }
        assert forall|j: int| 0 <= j < r@.len()
            implies #[trigger] r@[j] == (k, f) || before.contains(r@[j]) by {
            if j < before.len() {
                assert(before[j] == r@[j]);
            }
        }
    }
}

/// After `insert_entry`, every key that was present is still present.
proof fn lemma_insert_keeps_keys(
    before: Seq<(String, PollyVoiceInfo)>,
    after: Seq<(String, PollyVoiceInfo)>,
    key: String,
    info: PollyVoiceInfo,
    kk: Seq<char>,
)
    requires
        after.contains((key, info)),
        forall|i: int| 0 <= i < before.len() && before[i].0@ != key@
            ==> after.contains(#[trigger] before[i]),
        has_key(before, kk) || kk == key@,
    ensures
        has_key(after, kk),
{
    if kk == key@ {
        let j = choose|j: int| 0 <= j < after.len() && after[j] == (key, info);
        assert(after[j].0@ == kk);
    } else {
        let i = choose|i: int| 0 <= i < before.len() && #[trigger] before[i].0@ == kk;
        assert(after.contains(before[i]));
        let j = choose|j: int| 0 <= j < after.len() && after[j] == before[i];
        assert(after[j].0@ == kk);
    }
}

/// The voice entries for the described voices: one per supported engine of
/// each voice that has an id and a language code, keyed "VoiceId:Engine";
/// a later entry with the same key replaces an earlier one.
pub fn polly_voice_entries(described: &Vec<DescribedVoice>) -> (r: Vec<(String, PollyVoiceInfo)>)
    ensures
        distinct_keys(r@),
        // every entry is made from the last engine listed with its key
        forall|j: int| 0 <= j < r@.len() ==> is_latest_entry(described@, described@.len() as int, 0, #[trigger] r@[j]),
        // every engine of every listable voice has an entry
        forall|k: int, e: int| #![trigger described@[k].supported_engines@[e]]
            0 <= k < described@.len() && is_listable(described@[k])
                && 0 <= e < described@[k].supported_engines@.len()
                ==> has_key(r@, voice_key(described@[k].id.unwrap()@, described@[k].supported_engines@[e]@)),
{
    let mut r: Vec<(String, PollyVoiceInfo)> = Vec::new();
    let mut k: usize = 0;
    while k < described.len()
        invariant
            k <= described@.len(),
            distinct_keys(r@),
            forall|j: int| 0 <= j < r@.len() ==> is_latest_entry(described@, k as int, 0, #[trigger] r@[j]),
            forall|k2: int, e: int| #![trigger described@[k2].supported_engines@[e]]
                0 <= k2 < k && is_listable(described@[k2])
                    && 0 <= e < described@[k2].supported_engines@.len()
                    ==> has_key(r@, voice_key(described@[k2].id.unwrap()@, described@[k2].supported_engines@[e]@)),
        decreases described.len() - k,
    {
        let v = &described[k];
        match (&v.id, &v.language_code) {
            (Some(id), Some(lang_code)) => {
                let language = create_language_info(lang_code.as_str());
                let id_chars = to_chars(id.as_str());
                let mut e: usize = 0;
                while e < v.supported_engines.len()
                    invariant
                        k < described@.len(),
                        *v == described@[k as int],
                        v.id == Some(*id),
                        v.language_code == Some(*lang_code),
                        id_chars@ == id@,
                        is_language_info_for(lang_code@, language),
                        e <= v.supported_engines@.len(),
                        distinct_keys(r@),
                        forall|j: int| 0 <= j < r@.len() ==> is_latest_entry(described@, k as int, e as int, #[trigger] r@[j]),
                        forall|k2: int, e2: int| #![trigger described@[k2].supported_engines@[e2]]
                            0 <= k2 < k && is_listable(described@[k2])
                                && 0 <= e2 < described@[k2].supported_engines@.len()
                                ==> has_key(r@, voice_key(described@[k2].id.unwrap()@, described@[k2].supported_engines@[e2]@)),
                        forall|e2: int| #![trigger v.supported_engines@[e2]] 0 <= e2 < e
                            ==> has_key(r@, voice_key(id@, v.supported_engines@[e2]@)),
                    decreases v.supported_engines.len() - e,
                {
                    let engine = &v.supported_engines[e];
                    let mut key = string_of(id_chars.as_slice());
                    push_chars(&mut key, &[':']);
                    let ec = to_chars(engine.as_str());
                    push_chars(&mut key, ec.as_slice());
                    assert(key@ =~= voice_key(id@, engine@));
                    let name = match &v.name {
                        Some(n) => n.clone(),
                        None => id.clone(),
                    };
                    let gender = match &v.gender {
                        Some(g) => g.clone(),
                        None => "Unknown".to_owned(),
                    };
                    let info = PollyVoiceInfo {
                        id: id.clone(),
                        name,
                        language: language.duplicate(),
                        gender,
                        engine: engine.clone(),
                    };
                    let ghost before = r@;
                    let ghost kv = key;
                    let ghost iv = info;
                    proof {
                        assert(described@[k as int].supported_engines@[e as int] == *engine);
                        assert(is_entry_of(described@, k as int, e as int, (kv, iv)));
                        assert(pair_key(described@, k as int, e as int) == kv@);
                    }
                    insert_entry(&mut r, key, info);
                    proof {
                        assert forall|j: int| 0 <= j < r@.len() implies is_latest_entry(described@, k as int, e + 1, #[trigger] r@[j]) by {
                            if r@[j] == (kv, iv) {
                                assert(is_entry_of(described@, k as int, e as int, r@[j]));
                                assert(is_last_for_key(described@, k as int, e as int, k as int, e + 1));
                            } else {
                                let i = choose|i: int| 0 <= i < before.len() && before[i] == r@[j];
                                assert(is_latest_entry(described@, k as int, e as int, before[i]));
                                let (k0, e0) = choose|k0: int, e0: int| #[trigger] is_entry_of(described@, k0, e0, before[i])
                                    && pair_lt(k0, e0, k as int, e as int) && is_last_for_key(described@, k0, e0, k as int, e as int);
                                // the new entry holds the key kv, so this one has another key
                                let jj = choose|jj: int| 0 <= jj < r@.len() && r@[jj] == (kv, iv);
                                assert(jj != j);
                                assert(r@[j].0@ != kv@);
                                lemma_last_new_pair(described@, k0, e0, k as int, e as int);
                                assert(is_entry_of(described@, k0, e0, r@[j]));
                            }
                        }
                        assert forall|k2: int, e2: int| #![trigger described@[k2].supported_engines@[e2]]
                            0 <= k2 < k && is_listable(described@[k2])
                                && 0 <= e2 < described@[k2].supported_engines@.len()
                                implies has_key(r@, voice_key(described@[k2].id.unwrap()@, described@[k2].supported_engines@[e2]@)) by {
                            lemma_insert_keeps_keys(before, r@, kv, iv,
                                voice_key(described@[k2].id.unwrap()@, described@[k2].supported_engines@[e2]@));
                        }
                        assert forall|e2: int| #![trigger v.supported_engines@[e2]] 0 <= e2 <= e
                            implies has_key(r@, voice_key(id@, v.supported_engines@[e2]@)) by {
                            lemma_insert_keeps_keys(before, r@, kv, iv, voice_key(id@, v.supported_engines@[e2]@));
                        }
                    }
                    e += 1;
                }
                proof {
                    assert forall|j: int| 0 <= j < r@.len() implies is_latest_entry(described@, k + 1, 0, #[trigger] r@[j]) by {
                        let (k0, e0) = choose|k0: int, e0: int| #[trigger] is_entry_of(described@, k0, e0, r@[j])
                            && pair_lt(k0, e0, k as int, e as int) && is_last_for_key(described@, k0, e0, k as int, e as int);
                        lemma_last_next_voice(described@, k0, e0, k as int, e as int);
                        assert(is_entry_of(described@, k0, e0, r@[j]));
                    }
                }
            },
            _ => {
                proof {
                    assert(!is_listable(described@[k as int]));
                    assert forall|j: int| 0 <= j < r@.len() implies is_latest_entry(described@, k + 1, 0, #[trigger] r@[j]) by {
                        let (k0, e0) = choose|k0: int, e0: int| #[trigger] is_entry_of(described@, k0, e0, r@[j])
                            && pair_lt(k0, e0, k as int, 0) && is_last_for_key(described@, k0, e0, k as int, 0);
                        lemma_last_next_voice(described@, k0, e0, k as int, 0);
                        assert(is_entry_of(described@, k0, e0, r@[j]));
                    }
                }
            },
        }
        k += 1;
    }
    r
}

/// The language family a listed English language name belongs to, the
/// name spelled out letter by letter.
pub open spec fn family_named(name: Seq<char>) -> Seq<char> {
    if name == seq!['E', 'n', 'g', 'l', 'i', 's', 'h'] {
        seq!['e', 'n']
    } else if name == seq!['P', 'o', 'r', 't', 'u', 'g', 'u', 'e', 's', 'e'] {
        seq!['p', 't']
    } else if name == seq!['S', 'p', 'a', 'n', 'i', 's', 'h'] {
        seq!['e', 's']
    } else if name == seq!['F', 'r', 'e', 'n', 'c', 'h'] {
        seq!['f', 'r']
    } else if name == seq!['G', 'e', 'r', 'm', 'a', 'n'] {
        seq!['d', 'e']
    } else if name == seq!['I', 't', 'a', 'l', 'i', 'a', 'n'] {
        seq!['i', 't']
    } else if name == seq!['J', 'a', 'p', 'a', 'n', 'e', 's', 'e'] {
        seq!['j', 'a']
    } else if name == seq!['K', 'o', 'r', 'e', 'a', 'n'] {
        seq!['k', 'o']
    } else if name == seq!['C', 'h', 'i', 'n', 'e', 's', 'e'] {
        seq!['z', 'h']
    } else if name == seq!['A', 'r', 'a', 'b', 'i', 'c'] {
        seq!['a', 'r']
    } else if name == seq!['H', 'i', 'n', 'd', 'i'] {
        seq!['h', 'i']
    } else if name == seq!['R', 'u', 's', 's', 'i', 'a', 'n'] {
        seq!['r', 'u']
    } else if name == seq!['D', 'u', 't', 'c', 'h'] {
        seq!['n', 'l']
    } else if name == seq!['P', 'o', 'l', 'i', 's', 'h'] {
        seq!['p', 'l']
    } else if name == seq!['T', 'u', 'r', 'k', 'i', 's', 'h'] {
        seq!['t', 'r']
    } else if name == seq!['S', 'w', 'e', 'd', 'i', 's', 'h'] {
        seq!['s', 'v']
    } else if name == seq!['D', 'a', 'n', 'i', 's', 'h'] {
        seq!['d', 'a']
    } else if name == seq!['N', 'o', 'r', 'w', 'e', 'g', 'i', 'a', 'n'] {
        seq!['n', 'o']
    } else if name == seq!['F', 'i', 'n', 'n', 'i', 's', 'h'] {
        seq!['f', 'i']
    } else if name == seq!['C', 'z', 'e', 'c', 'h'] {
        seq!['c', 's']
    } else if name == seq!['R', 'o', 'm', 'a', 'n', 'i', 'a', 'n'] {
        seq!['r', 'o']
    } else if name == seq!['H', 'u', 'n', 'g', 'a', 'r', 'i', 'a', 'n'] {
        seq!['h', 'u']
    } else if name == seq!['T', 'h', 'a', 'i'] {
        seq!['t', 'h']
    } else if name == seq!['V', 'i', 'e', 't', 'n', 'a', 'm', 'e', 's', 'e'] {
        seq!['v', 'i']
    } else if name == seq!['I', 'n', 'd', 'o', 'n', 'e', 's', 'i', 'a', 'n'] {
        seq!['i', 'd']
    } else if name == seq!['M', 'a', 'l', 'a', 'y'] {
        seq!['m', 's']
    } else if name == seq!['H', 'e', 'b', 'r', 'e', 'w'] {
        seq!['h', 'e']
    } else if name == seq!['I', 'c', 'e', 'l', 'a', 'n', 'd', 'i', 'c'] {
        seq!['i', 's']
    } else if name == seq!['W', 'e', 'l', 's', 'h'] {
        seq!['c', 'y']
    } else if name == seq!['I', 'r', 'i', 's', 'h'] {
        seq!['g', 'a']
    } else if name == seq!['M', 'a', 'l', 't', 'e', 's', 'e'] {
        seq!['m', 't']
    } else {
        seq![]
    }
}

#[verifier::rlimit(50)]
proof fn lemma_family_named(f: Seq<char>)
    requires
        english_language_name(f) != "Unknown"@,
    ensures
        family_named(english_language_name(f)) == f,
{
    reveal_strlit("English");
    reveal_strlit("Portuguese");
    reveal_strlit("Spanish");
    reveal_strlit("French");
    reveal_strlit("German");
    reveal_strlit("Italian");
    reveal_strlit("Japanese");
    reveal_strlit("Korean");
    reveal_strlit("Chinese");
    reveal_strlit("Arabic");
    reveal_strlit("Hindi");
    reveal_strlit("Russian");
    reveal_strlit("Dutch");
    reveal_strlit("Polish");
    reveal_strlit("Turkish");
    reveal_strlit("Swedish");
    reveal_strlit("Danish");
    reveal_strlit("Norwegian");
    reveal_strlit("Finnish");
    reveal_strlit("Czech");
    reveal_strlit("Romanian");
    reveal_strlit("Hungarian");
    reveal_strlit("Thai");
    reveal_strlit("Vietnamese");
    reveal_strlit("Indonesian");
    reveal_strlit("Malay");
    reveal_strlit("Hebrew");
    reveal_strlit("Icelandic");
    reveal_strlit("Welsh");
    reveal_strlit("Irish");
    reveal_strlit("Maltese");
    reveal_strlit("Unknown");
    assert(f.len() == 2);
    assert(f =~= seq![f[0], f[1]]);
    match (f[0], f[1]) {
        ('e', 'n') => {
            assert(english_language_name(f) =~= seq!['E', 'n', 'g', 'l', 'i', 's', 'h']);
        },
        ('p', 't') => {
            assert(english_language_name(f) =~= seq!['P', 'o', 'r', 't', 'u', 'g', 'u', 'e', 's', 'e']);
        },
        ('e', 's') => {
            assert(english_language_name(f) =~= seq!['S', 'p', 'a', 'n', 'i', 's', 'h']);
        },
        ('f', 'r') => {
            assert(english_language_name(f) =~= seq!['F', 'r', 'e', 'n', 'c', 'h']);
        },
        ('d', 'e') => {
            assert(english_language_name(f) =~= seq!['G', 'e', 'r', 'm', 'a', 'n']);
        },
        ('i', 't') => {
            assert(english_language_name(f) =~= seq!['I', 't', 'a', 'l', 'i', 'a', 'n']);
        },
        ('j', 'a') => {
            assert(english_language_name(f) =~= seq!['J', 'a', 'p', 'a', 'n', 'e', 's', 'e']);
        },
        ('k', 'o') => {
            assert(english_language_name(f) =~= seq!['K', 'o', 'r', 'e', 'a', 'n']);
        },
        ('z', 'h') => {
            assert(english_language_name(f) =~= seq!['C', 'h', 'i', 'n', 'e', 's', 'e']);
        },
        ('a', 'r') => {
            assert(english_language_name(f) =~= seq!['A', 'r', 'a', 'b', 'i', 'c']);
        },
        ('h', 'i') => {
            assert(english_language_name(f) =~= seq!['H', 'i', 'n', 'd', 'i']);
        },
        ('r', 'u') => {
            assert(english_language_name(f) =~= seq!['R', 'u', 's', 's', 'i', 'a', 'n']);
        },
        ('n', 'l') => {
            assert(english_language_name(f) =~= seq!['D', 'u', 't', 'c', 'h']);
        },
        ('p', 'l') => {
            assert(english_language_name(f) =~= seq!['P', 'o', 'l', 'i', 's', 'h']);
        },
        ('t', 'r') => {
            assert(english_language_name(f) =~= seq!['T', 'u', 'r', 'k', 'i', 's', 'h']);
        },
        ('s', 'v') => {
            assert(english_language_name(f) =~= seq!['S', 'w', 'e', 'd', 'i', 's', 'h']);
        },
        ('d', 'a') => {
            assert(english_language_name(f) =~= seq!['D', 'a', 'n', 'i', 's', 'h']);
        },
        ('n', 'o') => {
            assert(english_language_name(f) =~= seq!['N', 'o', 'r', 'w', 'e', 'g', 'i', 'a', 'n']);
        },
        ('f', 'i') => {
            assert(english_language_name(f) =~= seq!['F', 'i', 'n', 'n', 'i', 's', 'h']);
        },
        ('c', 's') => {
            assert(english_language_name(f) =~= seq!['C', 'z', 'e', 'c', 'h']);
        },
        ('r', 'o') => {
            assert(english_language_name(f) =~= seq!['R', 'o', 'm', 'a', 'n', 'i', 'a', 'n']);
        },
        ('h', 'u') => {
            assert(english_language_name(f) =~= seq!['H', 'u', 'n', 'g', 'a', 'r', 'i', 'a', 'n']);
        },
        ('t', 'h') => {
            assert(english_language_name(f) =~= seq!['T', 'h', 'a', 'i']);
        },
        ('v', 'i') => {
            assert(english_language_name(f) =~= seq!['V', 'i', 'e', 't', 'n', 'a', 'm', 'e', 's', 'e']);
        },
        ('i', 'd') => {
            assert(english_language_name(f) =~= seq!['I', 'n', 'd', 'o', 'n', 'e', 's', 'i', 'a', 'n']);
        },
        ('m', 's') => {
            assert(english_language_name(f) =~= seq!['M', 'a', 'l', 'a', 'y']);
        },
        ('h', 'e') => {
            assert(english_language_name(f) =~= seq!['H', 'e', 'b', 'r', 'e', 'w']);
        },
        ('i', 's') => {
            assert(english_language_name(f) =~= seq!['I', 'c', 'e', 'l', 'a', 'n', 'd', 'i', 'c']);
        },
        ('c', 'y') => {
            assert(english_language_name(f) =~= seq!['W', 'e', 'l', 's', 'h']);
        },
        ('g', 'a') => {
            assert(english_language_name(f) =~= seq!['I', 'r', 'i', 's', 'h']);
        },
        ('m', 't') => {
            assert(english_language_name(f) =~= seq!['M', 'a', 'l', 't', 'e', 's', 'e']);
        },
        _ => {},
    }
}

/// Each listed language family has a name of its own: two families with the
/// same English name (other than "Unknown") are the same family, and the
/// name spells out the family's language (see [`family_named`]).
pub proof fn lemma_language_names_distinct(f1: Seq<char>, f2: Seq<char>)
    requires
        english_language_name(f1) != "Unknown"@,
        english_language_name(f1) == english_language_name(f2),
    ensures
        f1 == f2,
        family_named(english_language_name(f1)) == f1,
{
    lemma_family_named(f1);
    lemma_family_named(f2);
}

/// The region a listed English country name belongs to, the name spelled
/// out letter by letter.
pub open spec fn region_named(name: Seq<char>) -> Seq<char> {
    if name == seq!['U', 'n', 'i', 't', 'e', 'd', ' ', 'S', 't', 'a', 't', 'e', 's'] {
        seq!['U', 'S']
    } else if name == seq!['U', 'n', 'i', 't', 'e', 'd', ' ', 'K', 'i', 'n', 'g', 'd', 'o', 'm'] {
        seq!['G', 'B']
    } else if name == seq!['A', 'u', 's', 't', 'r', 'a', 'l', 'i', 'a'] {
        seq!['A', 'U']
    } else if name == seq!['C', 'a', 'n', 'a', 'd', 'a'] {
        seq!['C', 'A']
    } else if name == seq!['I', 'n', 'd', 'i', 'a'] {
        seq!['I', 'N']
    } else if name == seq!['I', 'r', 'e', 'l', 'a', 'n', 'd'] {
        seq!['I', 'E']
    } else if name == seq!['N', 'e', 'w', ' ', 'Z', 'e', 'a', 'l', 'a', 'n', 'd'] {
        seq!['N', 'Z']
    } else if name == seq!['S', 'o', 'u', 't', 'h', ' ', 'A', 'f', 'r', 'i', 'c', 'a'] {
        seq!['Z', 'A']
    } else if name == seq!['B', 'r', 'a', 'z', 'i', 'l'] {
        seq!['B', 'R']
    } else if name == seq!['P', 'o', 'r', 't', 'u', 'g', 'a', 'l'] {
        seq!['P', 'T']
    } else if name == seq!['S', 'p', 'a', 'i', 'n'] {
        seq!['E', 'S']
    } else if name == seq!['M', 'e', 'x', 'i', 'c', 'o'] {
        seq!['M', 'X']
    } else if name == seq!['A', 'r', 'g', 'e', 'n', 't', 'i', 'n', 'a'] {
        seq!['A', 'R']
    } else if name == seq!['C', 'o', 'l', 'o', 'm', 'b', 'i', 'a'] {
        seq!['C', 'O']
    } else if name == seq!['C', 'h', 'i', 'l', 'e'] {
        seq!['C', 'L']
    } else if name == seq!['P', 'e', 'r', 'u'] {
        seq!['P', 'E']
    } else if name == seq!['V', 'e', 'n', 'e', 'z', 'u', 'e', 'l', 'a'] {
        seq!['V', 'E']
    } else if name == seq!['E', 'c', 'u', 'a', 'd', 'o', 'r'] {
        seq!['E', 'C']
    } else if name == seq!['B', 'o', 'l', 'i', 'v', 'i', 'a'] {
        seq!['B', 'O']
    } else if name == seq!['P', 'a', 'r', 'a', 'g', 'u', 'a', 'y'] {
        seq!['P', 'Y']
    } else if name == seq!['U', 'r', 'u', 'g', 'u', 'a', 'y'] {
        seq!['U', 'Y']
    } else if name == seq!['C', 'o', 's', 't', 'a', ' ', 'R', 'i', 'c', 'a'] {
        seq!['C', 'R']
    } else if name == seq!['P', 'a', 'n', 'a', 'm', 'a'] {
        seq!['P', 'A']
    } else if name == seq!['D', 'o', 'm', 'i', 'n', 'i', 'c', 'a', 'n', ' ', 'R', 'e', 'p', 'u', 'b', 'l', 'i', 'c'] {
        seq!['D', 'O']
    } else if name == seq!['C', 'u', 'b', 'a'] {
        seq!['C', 'U']
    } else if name == seq!['F', 'r', 'a', 'n', 'c', 'e'] {
        seq!['F', 'R']
    } else if name == seq!['G', 'e', 'r', 'm', 'a', 'n', 'y'] {
        seq!['D', 'E']
    } else if name == seq!['A', 'u', 's', 't', 'r', 'i', 'a'] {
        seq!['A', 'T']
    } else if name == seq!['S', 'w', 'i', 't', 'z', 'e', 'r', 'l', 'a', 'n', 'd'] {
        seq!['C', 'H']
    } else if name == seq!['I', 't', 'a', 'l', 'y'] {
        seq!['I', 'T']
    } else if name == seq!['N', 'e', 't', 'h', 'e', 'r', 'l', 'a', 'n', 'd', 's'] {
        seq!['N', 'L']
    } else if name == seq!['P', 'o', 'l', 'a', 'n', 'd'] {
        seq!['P', 'L']
    } else if name == seq!['R', 'u', 's', 's', 'i', 'a'] {
        seq!['R', 'U']
    } else if name == seq!['T', 'u', 'r', 'k', 'e', 'y'] {
        seq!['T', 'R']
    } else if name == seq!['G', 'r', 'e', 'e', 'c', 'e'] {
        seq!['G', 'R']
    } else if name == seq!['C', 'z', 'e', 'c', 'h', ' ', 'R', 'e', 'p', 'u', 'b', 'l', 'i', 'c'] {
        seq!['C', 'Z']
    } else if name == seq!['S', 'l', 'o', 'v', 'a', 'k', 'i', 'a'] {
        seq!['S', 'K']
    } else if name == seq!['H', 'u', 'n', 'g', 'a', 'r', 'y'] {
        seq!['H', 'U']
    } else if name == seq!['R', 'o', 'm', 'a', 'n', 'i', 'a'] {
        seq!['R', 'O']
    } else if name == seq!['B', 'u', 'l', 'g', 'a', 'r', 'i', 'a'] {
        seq!['B', 'G']
    } else if name == seq!['C', 'r', 'o', 'a', 't', 'i', 'a'] {
        seq!['H', 'R']
    } else if name == seq!['S', 'l', 'o', 'v', 'e', 'n', 'i', 'a'] {
        seq!['S', 'I']
    } else if name == seq!['F', 'i', 'n', 'l', 'a', 'n', 'd'] {
        seq!['F', 'I']
    } else if name == seq!['S', 'w', 'e', 'd', 'e', 'n'] {
        seq!['S', 'V']
    } else if name == seq!['N', 'o', 'r', 'w', 'a', 'y'] {
        seq!['N', 'O']
    } else if name == seq!['D', 'e', 'n', 'm', 'a', 'r', 'k'] {
        seq!['D', 'K']
    } else if name == seq!['I', 'c', 'e', 'l', 'a', 'n', 'd'] {
        seq!['I', 'S']
    } else if name == seq!['E', 's', 't', 'o', 'n', 'i', 'a'] {
        seq!['E', 'E']
    } else if name == seq!['L', 'a', 't', 'v', 'i', 'a'] {
        seq!['L', 'V']
    } else if name == seq!['L', 'i', 't', 'h', 'u', 'a', 'n', 'i', 'a'] {
        seq!['L', 'T']
    } else if name == seq!['C', 'h', 'i', 'n', 'a'] {
        seq!['C', 'N']
    } else if name == seq!['T', 'a', 'i', 'w', 'a', 'n'] {
        seq!['T', 'W']
    } else if name == seq!['H', 'o', 'n', 'g', ' ', 'K', 'o', 'n', 'g'] {
        seq!['H', 'K']
    } else if name == seq!['J', 'a', 'p', 'a', 'n'] {
        seq!['J', 'P']
    } else if name == seq!['S', 'o', 'u', 't', 'h', ' ', 'K', 'o', 'r', 'e', 'a'] {
        seq!['K', 'R']
    } else if name == seq!['V', 'i', 'e', 't', 'n', 'a', 'm'] {
        seq!['V', 'N']
    } else if name == seq!['T', 'h', 'a', 'i', 'l', 'a', 'n', 'd'] {
        seq!['T', 'H']
    } else if name == seq!['I', 'n', 'd', 'o', 'n', 'e', 's', 'i', 'a'] {
        seq!['I', 'D']
    } else if name == seq!['M', 'a', 'l', 'a', 'y', 's', 'i', 'a'] {
        seq!['M', 'Y']
    } else if name == seq!['P', 'h', 'i', 'l', 'i', 'p', 'p', 'i', 'n', 'e', 's'] {
        seq!['P', 'H']
    } else if name == seq!['P', 'a', 'k', 'i', 's', 't', 'a', 'n'] {
        seq!['P', 'K']
    } else if name == seq!['B', 'a', 'n', 'g', 'l', 'a', 'd', 'e', 's', 'h'] {
        seq!['B', 'D']
    } else if name == seq!['S', 'a', 'u', 'd', 'i', ' ', 'A', 'r', 'a', 'b', 'i', 'a'] {
        seq!['S', 'A']
    } else if name == seq!['U', 'n', 'i', 't', 'e', 'd', ' ', 'A', 'r', 'a', 'b', ' ', 'E', 'm', 'i', 'r', 'a', 't', 'e', 's'] {
        seq!['A', 'E']
    } else if name == seq!['I', 's', 'r', 'a', 'e', 'l'] {
        seq!['I', 'L']
    } else if name == seq!['I', 'r', 'a', 'n'] {
        seq!['I', 'R']
    } else if name == seq!['I', 'r', 'a', 'q'] {
        seq!['I', 'Q']
    } else if name == seq!['J', 'o', 'r', 'd', 'a', 'n'] {
        seq!['J', 'O']
    } else if name == seq!['E', 'g', 'y', 'p', 't'] {
        seq!['E', 'G']
    } else if name == seq!['K', 'e', 'n', 'y', 'a'] {
        seq!['K', 'E']
    } else if name == seq!['N', 'i', 'g', 'e', 'r', 'i', 'a'] {
        seq!['N', 'G']
    } else {
        seq![]
    }
}

#[verifier::rlimit(100)]
#[verifier::spinoff_prover]
proof fn lemma_region_named(r: Seq<char>)
    requires
        english_country_name(r) != "Unknown"@,
    ensures
        region_named(english_country_name(r)) == r,
{
    reveal_strlit("United States");
    reveal_strlit("United Kingdom");
    reveal_strlit("Australia");
    reveal_strlit("Canada");
    reveal_strlit("India");
    reveal_strlit("Ireland");
    reveal_strlit("New Zealand");
    reveal_strlit("South Africa");
    reveal_strlit("Brazil");
    reveal_strlit("Portugal");
    reveal_strlit("Spain");
    reveal_strlit("Mexico");
    reveal_strlit("Argentina");
    reveal_strlit("Colombia");
    reveal_strlit("Chile");
    reveal_strlit("Peru");
    reveal_strlit("Venezuela");
    reveal_strlit("Ecuador");
    reveal_strlit("Bolivia");
    reveal_strlit("Paraguay");
    reveal_strlit("Uruguay");
    reveal_strlit("Costa Rica");
    reveal_strlit("Panama");
    reveal_strlit("Dominican Republic");
    reveal_strlit("Cuba");
    reveal_strlit("France");
    reveal_strlit("Germany");
    reveal_strlit("Austria");
    reveal_strlit("Switzerland");
    reveal_strlit("Italy");
    reveal_strlit("Netherlands");
    reveal_strlit("Poland");
    reveal_strlit("Russia");
    reveal_strlit("Turkey");
    reveal_strlit("Greece");
    reveal_strlit("Czech Republic");
    reveal_strlit("Slovakia");
    reveal_strlit("Hungary");
    reveal_strlit("Romania");
    reveal_strlit("Bulgaria");
    reveal_strlit("Croatia");
    reveal_strlit("Slovenia");
    reveal_strlit("Finland");
    reveal_strlit("Sweden");
    reveal_strlit("Norway");
    reveal_strlit("Denmark");
    reveal_strlit("Iceland");
    reveal_strlit("Estonia");
    reveal_strlit("Latvia");
    reveal_strlit("Lithuania");
    reveal_strlit("China");
    reveal_strlit("Taiwan");
    reveal_strlit("Hong Kong");
    reveal_strlit("Japan");
    reveal_strlit("South Korea");
    reveal_strlit("Vietnam");
    reveal_strlit("Thailand");
    reveal_strlit("Indonesia");
    reveal_strlit("Malaysia");
    reveal_strlit("Philippines");
    reveal_strlit("Pakistan");
    reveal_strlit("Bangladesh");
    reveal_strlit("Saudi Arabia");
    reveal_strlit("United Arab Emirates");
    reveal_strlit("Israel");
    reveal_strlit("Iran");
    reveal_strlit("Iraq");
    reveal_strlit("Jordan");
    reveal_strlit("Egypt");
    reveal_strlit("Kenya");
    reveal_strlit("Nigeria");
    reveal_strlit("Unknown");
    assert(r.len() == 2);
    assert(r =~= seq![r[0], r[1]]);
    match (r[0], r[1]) {
        ('U', 'S') => {
            assert(english_country_name(r) =~= seq!['U', 'n', 'i', 't', 'e', 'd', ' ', 'S', 't', 'a', 't', 'e', 's']);
        },
        ('G', 'B') => {
            assert(english_country_name(r) =~= seq!['U', 'n', 'i', 't', 'e', 'd', ' ', 'K', 'i', 'n', 'g', 'd', 'o', 'm']);
        },
        ('A', 'U') => {
            assert(english_country_name(r) =~= seq!['A', 'u', 's', 't', 'r', 'a', 'l', 'i', 'a']);
        },
        ('C', 'A') => {
            assert(english_country_name(r) =~= seq!['C', 'a', 'n', 'a', 'd', 'a']);
        },
        ('I', 'N') => {
            assert(english_country_name(r) =~= seq!['I', 'n', 'd', 'i', 'a']);
        },
        ('I', 'E') => {
            assert(english_country_name(r) =~= seq!['I', 'r', 'e', 'l', 'a', 'n', 'd']);
        },
        ('N', 'Z') => {
            assert(english_country_name(r) =~= seq!['N', 'e', 'w', ' ', 'Z', 'e', 'a', 'l', 'a', 'n', 'd']);
        },
        ('Z', 'A') => {
            assert(english_country_name(r) =~= seq!['S', 'o', 'u', 't', 'h', ' ', 'A', 'f', 'r', 'i', 'c', 'a']);
        },
        ('B', 'R') => {
            assert(english_country_name(r) =~= seq!['B', 'r', 'a', 'z', 'i', 'l']);
        },
        ('P', 'T') => {
            assert(english_country_name(r) =~= seq!['P', 'o', 'r', 't', 'u', 'g', 'a', 'l']);
        },
        ('E', 'S') => {
            assert(english_country_name(r) =~= seq!['S', 'p', 'a', 'i', 'n']);
        },
        ('M', 'X') => {
            assert(english_country_name(r) =~= seq!['M', 'e', 'x', 'i', 'c', 'o']);
        },
        ('A', 'R') => {
            assert(english_country_name(r) =~= seq!['A', 'r', 'g', 'e', 'n', 't', 'i', 'n', 'a']);
        },
        ('C', 'O') => {
            assert(english_country_name(r) =~= seq!['C', 'o', 'l', 'o', 'm', 'b', 'i', 'a']);
        },
        ('C', 'L') => {
            assert(english_country_name(r) =~= seq!['C', 'h', 'i', 'l', 'e']);
        },
        ('P', 'E') => {
            assert(english_country_name(r) =~= seq!['P', 'e', 'r', 'u']);
        },
        ('V', 'E') => {
            assert(english_country_name(r) =~= seq!['V', 'e', 'n', 'e', 'z', 'u', 'e', 'l', 'a']);
        },
        ('E', 'C') => {
            assert(english_country_name(r) =~= seq!['E', 'c', 'u', 'a', 'd', 'o', 'r']);
        },
        ('B', 'O') => {
            assert(english_country_name(r) =~= seq!['B', 'o', 'l', 'i', 'v', 'i', 'a']);
        },
        ('P', 'Y') => {
            assert(english_country_name(r) =~= seq!['P', 'a', 'r', 'a', 'g', 'u', 'a', 'y']);
        },
        ('U', 'Y') => {
            assert(english_country_name(r) =~= seq!['U', 'r', 'u', 'g', 'u', 'a', 'y']);
        },
        ('C', 'R') => {
            assert(english_country_name(r) =~= seq!['C', 'o', 's', 't', 'a', ' ', 'R', 'i', 'c', 'a']);
        },
        ('P', 'A') => {
            assert(english_country_name(r) =~= seq!['P', 'a', 'n', 'a', 'm', 'a']);
        },
        ('D', 'O') => {
            assert(english_country_name(r) =~= seq!['D', 'o', 'm', 'i', 'n', 'i', 'c', 'a', 'n', ' ', 'R', 'e', 'p', 'u', 'b', 'l', 'i', 'c']);
        },
        ('C', 'U') => {
            assert(english_country_name(r) =~= seq!['C', 'u', 'b', 'a']);
        },
        ('F', 'R') => {
            assert(english_country_name(r) =~= seq!['F', 'r', 'a', 'n', 'c', 'e']);
        },
        ('D', 'E') => {
            assert(english_country_name(r) =~= seq!['G', 'e', 'r', 'm', 'a', 'n', 'y']);
        },
        ('A', 'T') => {
            assert(english_country_name(r) =~= seq!['A', 'u', 's', 't', 'r', 'i', 'a']);
        },
        ('C', 'H') => {
            assert(english_country_name(r) =~= seq!['S', 'w', 'i', 't', 'z', 'e', 'r', 'l', 'a', 'n', 'd']);
        },
        ('I', 'T') => {
            assert(english_country_name(r) =~= seq!['I', 't', 'a', 'l', 'y']);
        },
        ('N', 'L') => {
            assert(english_country_name(r) =~= seq!['N', 'e', 't', 'h', 'e', 'r', 'l', 'a', 'n', 'd', 's']);
        },
        ('P', 'L') => {
            assert(english_country_name(r) =~= seq!['P', 'o', 'l', 'a', 'n', 'd']);
        },
        ('R', 'U') => {
            assert(english_country_name(r) =~= seq!['R', 'u', 's', 's', 'i', 'a']);
        },
        ('T', 'R') => {
            assert(english_country_name(r) =~= seq!['T', 'u', 'r', 'k', 'e', 'y']);
        },
        ('G', 'R') => {
            assert(english_country_name(r) =~= seq!['G', 'r', 'e', 'e', 'c', 'e']);
        },
        ('C', 'Z') => {
            assert(english_country_name(r) =~= seq!['C', 'z', 'e', 'c', 'h', ' ', 'R', 'e', 'p', 'u', 'b', 'l', 'i', 'c']);
        },
        ('S', 'K') => {
            assert(english_country_name(r) =~= seq!['S', 'l', 'o', 'v', 'a', 'k', 'i', 'a']);
        },
        ('H', 'U') => {
            assert(english_country_name(r) =~= seq!['H', 'u', 'n', 'g', 'a', 'r', 'y']);
        },
        ('R', 'O') => {
            assert(english_country_name(r) =~= seq!['R', 'o', 'm', 'a', 'n', 'i', 'a']);
        },
        ('B', 'G') => {
            assert(english_country_name(r) =~= seq!['B', 'u', 'l', 'g', 'a', 'r', 'i', 'a']);
        },
        ('H', 'R') => {
            assert(english_country_name(r) =~= seq!['C', 'r', 'o', 'a', 't', 'i', 'a']);
        },
        ('S', 'I') => {
            assert(english_country_name(r) =~= seq!['S', 'l', 'o', 'v', 'e', 'n', 'i', 'a']);
        },
        ('F', 'I') => {
            assert(english_country_name(r) =~= seq!['F', 'i', 'n', 'l', 'a', 'n', 'd']);
        },
        ('S', 'V') => {
            assert(english_country_name(r) =~= seq!['S', 'w', 'e', 'd', 'e', 'n']);
        },
        ('N', 'O') => {
            assert(english_country_name(r) =~= seq!['N', 'o', 'r', 'w', 'a', 'y']);
        },
        ('D', 'K') => {
            assert(english_country_name(r) =~= seq!['D', 'e', 'n', 'm', 'a', 'r', 'k']);
        },
        ('I', 'S') => {
            assert(english_country_name(r) =~= seq!['I', 'c', 'e', 'l', 'a', 'n', 'd']);
        },
        ('E', 'E') => {
            assert(english_country_name(r) =~= seq!['E', 's', 't', 'o', 'n', 'i', 'a']);
        },
        ('L', 'V') => {
            assert(english_country_name(r) =~= seq!['L', 'a', 't', 'v', 'i', 'a']);
        },
        ('L', 'T') => {
            assert(english_country_name(r) =~= seq!['L', 'i', 't', 'h', 'u', 'a', 'n', 'i', 'a']);
        },
        ('C', 'N') => {
            assert(english_country_name(r) =~= seq!['C', 'h', 'i', 'n', 'a']);
        },
        ('T', 'W') => {
            assert(english_country_name(r) =~= seq!['T', 'a', 'i', 'w', 'a', 'n']);
        },
        ('H', 'K') => {
            assert(english_country_name(r) =~= seq!['H', 'o', 'n', 'g', ' ', 'K', 'o', 'n', 'g']);
        },
        ('J', 'P') => {
            assert(english_country_name(r) =~= seq!['J', 'a', 'p', 'a', 'n']);
        },
        ('K', 'R') => {
            assert(english_country_name(r) =~= seq!['S', 'o', 'u', 't', 'h', ' ', 'K', 'o', 'r', 'e', 'a']);
        },
        ('V', 'N') => {
            assert(english_country_name(r) =~= seq!['V', 'i', 'e', 't', 'n', 'a', 'm']);
        },
        ('T', 'H') => {
            assert(english_country_name(r) =~= seq!['T', 'h', 'a', 'i', 'l', 'a', 'n', 'd']);
        },
        ('I', 'D') => {
            assert(english_country_name(r) =~= seq!['I', 'n', 'd', 'o', 'n', 'e', 's', 'i', 'a']);
        },
        ('M', 'Y') => {
            assert(english_country_name(r) =~= seq!['M', 'a', 'l', 'a', 'y', 's', 'i', 'a']);
        },
        ('P', 'H') => {
            assert(english_country_name(r) =~= seq!['P', 'h', 'i', 'l', 'i', 'p', 'p', 'i', 'n', 'e', 's']);
        },
        ('P', 'K') => {
            assert(english_country_name(r) =~= seq!['P', 'a', 'k', 'i', 's', 't', 'a', 'n']);
        },
        ('B', 'D') => {
            assert(english_country_name(r) =~= seq!['B', 'a', 'n', 'g', 'l', 'a', 'd', 'e', 's', 'h']);
        },
        ('S', 'A') => {
            assert(english_country_name(r) =~= seq!['S', 'a', 'u', 'd', 'i', ' ', 'A', 'r', 'a', 'b', 'i', 'a']);
        },
        ('A', 'E') => {
            assert(english_country_name(r) =~= seq!['U', 'n', 'i', 't', 'e', 'd', ' ', 'A', 'r', 'a', 'b', ' ', 'E', 'm', 'i', 'r', 'a', 't', 'e', 's']);
        },
        ('I', 'L') => {
            assert(english_country_name(r) =~= seq!['I', 's', 'r', 'a', 'e', 'l']);
        },
        ('I', 'R') => {
            assert(english_country_name(r) =~= seq!['I', 'r', 'a', 'n']);
        },
        ('I', 'Q') => {
            assert(english_country_name(r) =~= seq!['I', 'r', 'a', 'q']);
        },
        ('J', 'O') => {
            assert(english_country_name(r) =~= seq!['J', 'o', 'r', 'd', 'a', 'n']);
        },
        ('E', 'G') => {
            assert(english_country_name(r) =~= seq!['E', 'g', 'y', 'p', 't']);
        },
        ('K', 'E') => {
            assert(english_country_name(r) =~= seq!['K', 'e', 'n', 'y', 'a']);
        },
        ('N', 'G') => {
            assert(english_country_name(r) =~= seq!['N', 'i', 'g', 'e', 'r', 'i', 'a']);
        },
        _ => {},
    }
}

/// Each listed region has a country name of its own: two regions with the
/// same English country name (other than "Unknown") are the same region,
/// and the name spells out the region's country (see [`region_named`]).
pub proof fn lemma_country_names_distinct(r1: Seq<char>, r2: Seq<char>)
    requires
        english_country_name(r1) != "Unknown"@,
        english_country_name(r1) == english_country_name(r2),
    ensures
        r1 == r2,
        region_named(english_country_name(r1)) == r1,
{
    lemma_region_named(r1);
    lemma_region_named(r2);
}

} // verus!
