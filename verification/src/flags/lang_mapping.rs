//! Language code to country code mapping, for flag lookup.
//!
//! Maps language codes (e.g. "pt_BR", "en_US", "ja") to ISO 3166-1 alpha-2
//! country codes.
use vstd::prelude::*;

use crate::text;
use crate::text::{split_chars, to_chars};

verus! {

/// The country codes that have a flag.
pub open spec fn known_pair(a: char, b: char) -> bool {
    match (a, b) {
        ('A', 'R')
        | ('B', 'O')
        | ('B', 'R')
        | ('C', 'A')
        | ('C', 'L')
        | ('C', 'O')
        | ('C', 'R')
        | ('C', 'U')
        | ('D', 'O')
        | ('E', 'C')
        | ('M', 'X')
        | ('P', 'A')
        | ('P', 'E')
        | ('P', 'Y')
        | ('U', 'S')
        | ('U', 'Y')
        | ('V', 'E')
        | ('A', 'L')
        | ('A', 'T')
        | ('B', 'G')
        | ('B', 'Y')
        | ('C', 'H')
        | ('C', 'Z')
        | ('D', 'E')
        | ('D', 'K')
        | ('E', 'E')
        | ('E', 'S')
        | ('F', 'I')
        | ('F', 'R')
        | ('G', 'B')
        | ('G', 'R')
        | ('H', 'R')
        | ('H', 'U')
        | ('I', 'E')
        | ('I', 'S')
        | ('I', 'T')
        | ('L', 'T')
        | ('L', 'V')
        | ('M', 'K')
        | ('M', 'T')
        | ('N', 'L')
        | ('N', 'O')
        | ('P', 'L')
        | ('P', 'T')
        | ('R', 'O')
        | ('R', 'S')
        | ('R', 'U')
        | ('S', 'E')
        | ('S', 'I')
        | ('S', 'K')
        | ('T', 'R')
        | ('U', 'A')
        | ('A', 'Z')
        | ('B', 'D')
        | ('C', 'N')
        | ('G', 'E')
        | ('H', 'K')
        | ('I', 'D')
        | ('I', 'L')
        | ('I', 'N')
        | ('I', 'Q')
        | ('I', 'R')
        | ('J', 'O')
        | ('J', 'P')
        | ('K', 'G')
        | ('K', 'H')
        | ('K', 'R')
        | ('K', 'Z')
        | ('L', 'A')
        | ('L', 'K')
        | ('M', 'M')
        | ('M', 'N')
        | ('M', 'Y')
        | ('N', 'P')
        | ('P', 'K')
        | ('P', 'H')
        | ('S', 'A')
        | ('T', 'H')
        | ('T', 'W')
        | ('U', 'Z')
        | ('V', 'N')
        | ('A', 'E')
        | ('E', 'G')
        | ('E', 'R')
        | ('E', 'T')
        | ('G', 'H')
        | ('K', 'E')
        | ('M', 'G')
        | ('M', 'L')
        | ('M', 'W')
        | ('N', 'G')
        | ('R', 'W')
        | ('S', 'N')
        | ('S', 'O')
        | ('U', 'G')
        | ('Z', 'A')
        | ('Z', 'W')
        | ('A', 'M') => true,
        _ => false,
    }
}

pub open spec fn known_country(code: Seq<char>) -> bool {
    code.len() == 2 && known_pair(code[0], code[1])
}

/// The primary country of a language, for the languages that have one.
pub open spec fn language_pair(a: char, b: char) -> Option<(char, char)> {
    match (a, b) {
        ('a', 'r') => Some(('S', 'A')),
        ('h', 'e') => Some(('I', 'L')),
        ('f', 'a') => Some(('I', 'R')),
        ('z', 'h') => Some(('C', 'N')),
        ('j', 'a') => Some(('J', 'P')),
        ('k', 'o') => Some(('K', 'R')),
        ('v', 'i') => Some(('V', 'N')),
        ('t', 'h') => Some(('T', 'H')),
        ('k', 'm') => Some(('K', 'H')),
        ('l', 'o') => Some(('L', 'A')),
        ('m', 'y') => Some(('M', 'M')),
        ('m', 'n') => Some(('M', 'N')),
        ('h', 'i') => Some(('I', 'N')),
        ('u', 'r') => Some(('P', 'K')),
        ('b', 'n') => Some(('B', 'D')),
        ('t', 'a') => Some(('I', 'N')),
        ('t', 'e') => Some(('I', 'N')),
        ('m', 'l') => Some(('I', 'N')),
        ('k', 'n') => Some(('I', 'N')),
        ('g', 'u') => Some(('I', 'N')),
        ('p', 'a') => Some(('I', 'N')),
        ('m', 'r') => Some(('I', 'N')),
        ('n', 'e') => Some(('N', 'P')),
        ('s', 'i') => Some(('L', 'K')),
        ('c', 's') => Some(('C', 'Z')),
        ('s', 'k') => Some(('S', 'K')),
        ('h', 'u') => Some(('H', 'U')),
        ('r', 'o') => Some(('R', 'O')),
        ('b', 'g') => Some(('B', 'G')),
        ('h', 'r') => Some(('H', 'R')),
        ('s', 'r') => Some(('R', 'S')),
        ('s', 'l') => Some(('S', 'I')),
        ('e', 't') => Some(('E', 'E')),
        ('l', 'v') => Some(('L', 'V')),
        ('l', 't') => Some(('L', 'T')),
        ('f', 'i') => Some(('F', 'I')),
        ('s', 'v') => Some(('S', 'E')),
        ('n', 'o') => Some(('N', 'O')),
        ('d', 'a') => Some(('D', 'K')),
        ('i', 's') => Some(('I', 'S')),
        ('c', 'a') => Some(('E', 'S')),
        ('e', 'u') => Some(('E', 'S')),
        ('g', 'l') => Some(('E', 'S')),
        ('u', 'k') => Some(('U', 'A')),
        ('b', 'e') => Some(('B', 'Y')),
        ('m', 'k') => Some(('M', 'K')),
        ('s', 'q') => Some(('A', 'L')),
        ('m', 't') => Some(('M', 'T')),
        ('g', 'a') => Some(('I', 'E')),
        ('c', 'y') => Some(('G', 'B')),
        ('k', 'a') => Some(('G', 'E')),
        ('h', 'y') => Some(('A', 'M')),
        ('a', 'z') => Some(('A', 'Z')),
        ('k', 'k') => Some(('K', 'Z')),
        ('k', 'y') => Some(('K', 'G')),
        ('u', 'z') => Some(('U', 'Z')),
        ('s', 'w') => Some(('K', 'E')),
        ('a', 'f') => Some(('Z', 'A')),
        ('a', 'm') => Some(('E', 'T')),
        ('y', 'o') => Some(('N', 'G')),
        ('i', 'g') => Some(('N', 'G')),
        ('h', 'a') => Some(('N', 'G')),
        ('z', 'u') => Some(('Z', 'A')),
        ('x', 'h') => Some(('Z', 'A')),
        ('s', 't') => Some(('Z', 'A')),
        ('t', 'n') => Some(('Z', 'A')),
        ('s', 'n') => Some(('Z', 'W')),
        ('n', 'y') => Some(('M', 'W')),
        ('s', 'o') => Some(('S', 'O')),
        ('o', 'm') => Some(('E', 'T')),
        ('t', 'i') => Some(('E', 'R')),
        ('m', 'g') => Some(('M', 'G')),
        ('r', 'w') => Some(('R', 'W')),
        ('l', 'g') => Some(('U', 'G')),
        ('a', 'k') => Some(('G', 'H')),
        ('f', 'f') => Some(('S', 'N')),
        ('w', 'o') => Some(('S', 'N')),
        ('b', 'm') => Some(('M', 'L')),
        ('e', 'e') => Some(('G', 'H')),
        ('t', 'w') => Some(('G', 'H')),
        _ => None,
    }
}

pub open spec fn globe() -> Seq<char> {
    seq!['G', 'L', 'O', 'B', 'E']
}

/// The country for a bare language code, "GLOBE" when there is none.
pub open spec fn language_country(lang: Seq<char>) -> Seq<char> {
    if lang.len() == 2 {
        match language_pair(lang[0], lang[1]) {
            Some(p) => seq![p.0, p.1],
            None => globe(),
        }
    } else {
        globe()
    }
}

/// The country for a language code: the part after the first "_" when it is
/// a known country code, otherwise the country of the language before it,
/// otherwise "GLOBE".
pub open spec fn spec_lang_to_country(lang_code: Seq<char>) -> Seq<char> {
    let parts = text::split_char(lang_code, '_');
    if parts.len() >= 2 && known_country(parts[1]) {
        parts[1]
    } else {
        language_country(parts[0])
    }
}

fn is_known_pair(a: char, b: char) -> (r: bool)
    ensures
        r == known_pair(a, b),
{
    match (a, b) {
        ('A', 'R')
        | ('B', 'O')
        | ('B', 'R')
        | ('C', 'A')
        | ('C', 'L')
        | ('C', 'O')
        | ('C', 'R')
        | ('C', 'U')
        | ('D', 'O')
        | ('E', 'C')
        | ('M', 'X')
        | ('P', 'A')
        | ('P', 'E')
        | ('P', 'Y')
        | ('U', 'S')
        | ('U', 'Y')
        | ('V', 'E')
        | ('A', 'L')
        | ('A', 'T')
        | ('B', 'G')
        | ('B', 'Y')
        | ('C', 'H')
        | ('C', 'Z')
        | ('D', 'E')
        | ('D', 'K')
        | ('E', 'E')
        | ('E', 'S')
        | ('F', 'I')
        | ('F', 'R')
        | ('G', 'B')
        | ('G', 'R')
        | ('H', 'R')
        | ('H', 'U')
        | ('I', 'E')
        | ('I', 'S')
        | ('I', 'T')
        | ('L', 'T')
        | ('L', 'V')
        | ('M', 'K')
        | ('M', 'T')
        | ('N', 'L')
        | ('N', 'O')
        | ('P', 'L')
        | ('P', 'T')
        | ('R', 'O')
        | ('R', 'S')
        | ('R', 'U')
        | ('S', 'E')
        | ('S', 'I')
        | ('S', 'K')
        | ('T', 'R')
        | ('U', 'A')
        | ('A', 'Z')
        | ('B', 'D')
        | ('C', 'N')
        | ('G', 'E')
        | ('H', 'K')
        | ('I', 'D')
        | ('I', 'L')
        | ('I', 'N')
        | ('I', 'Q')
        | ('I', 'R')
        | ('J', 'O')
        | ('J', 'P')
        | ('K', 'G')
        | ('K', 'H')
        | ('K', 'R')
        | ('K', 'Z')
        | ('L', 'A')
        | ('L', 'K')
        | ('M', 'M')
        | ('M', 'N')
        | ('M', 'Y')
        | ('N', 'P')
        | ('P', 'K')
        | ('P', 'H')
        | ('S', 'A')
        | ('T', 'H')
        | ('T', 'W')
        | ('U', 'Z')
        | ('V', 'N')
        | ('A', 'E')
        | ('E', 'G')
        | ('E', 'R')
        | ('E', 'T')
        | ('G', 'H')
        | ('K', 'E')
        | ('M', 'G')
        | ('M', 'L')
        | ('M', 'W')
        | ('N', 'G')
        | ('R', 'W')
        | ('S', 'N')
        | ('S', 'O')
        | ('U', 'G')
        | ('Z', 'A')
        | ('Z', 'W')
        | ('A', 'M') => true,
        _ => false,
    }
}

/// Whether a country code is known.
fn is_known_country(code: &[char]) -> (r: bool)
    ensures
        r == known_country(code@),
{
    code.len() == 2 && is_known_pair(code[0], code[1])
}

fn language_pair_of(a: char, b: char) -> (r: Option<(char, char)>)
    ensures
        r == language_pair(a, b),
{
    match (a, b) {
        ('a', 'r') => Some(('S', 'A')),
        ('h', 'e') => Some(('I', 'L')),
        ('f', 'a') => Some(('I', 'R')),
        ('z', 'h') => Some(('C', 'N')),
        ('j', 'a') => Some(('J', 'P')),
        ('k', 'o') => Some(('K', 'R')),
        ('v', 'i') => Some(('V', 'N')),
        ('t', 'h') => Some(('T', 'H')),
        ('k', 'm') => Some(('K', 'H')),
        ('l', 'o') => Some(('L', 'A')),
        ('m', 'y') => Some(('M', 'M')),
        ('m', 'n') => Some(('M', 'N')),
        ('h', 'i') => Some(('I', 'N')),
        ('u', 'r') => Some(('P', 'K')),
        ('b', 'n') => Some(('B', 'D')),
        ('t', 'a') => Some(('I', 'N')),
        ('t', 'e') => Some(('I', 'N')),
        ('m', 'l') => Some(('I', 'N')),
        ('k', 'n') => Some(('I', 'N')),
        ('g', 'u') => Some(('I', 'N')),
        ('p', 'a') => Some(('I', 'N')),
        ('m', 'r') => Some(('I', 'N')),
        ('n', 'e') => Some(('N', 'P')),
        ('s', 'i') => Some(('L', 'K')),
        ('c', 's') => Some(('C', 'Z')),
        ('s', 'k') => Some(('S', 'K')),
        ('h', 'u') => Some(('H', 'U')),
        ('r', 'o') => Some(('R', 'O')),
        ('b', 'g') => Some(('B', 'G')),
        ('h', 'r') => Some(('H', 'R')),
        ('s', 'r') => Some(('R', 'S')),
        ('s', 'l') => Some(('S', 'I')),
        ('e', 't') => Some(('E', 'E')),
        ('l', 'v') => Some(('L', 'V')),
        ('l', 't') => Some(('L', 'T')),
        ('f', 'i') => Some(('F', 'I')),
        ('s', 'v') => Some(('S', 'E')),
        ('n', 'o') => Some(('N', 'O')),
        ('d', 'a') => Some(('D', 'K')),
        ('i', 's') => Some(('I', 'S')),
        ('c', 'a') => Some(('E', 'S')),
        ('e', 'u') => Some(('E', 'S')),
        ('g', 'l') => Some(('E', 'S')),
        ('u', 'k') => Some(('U', 'A')),
        ('b', 'e') => Some(('B', 'Y')),
        ('m', 'k') => Some(('M', 'K')),
        ('s', 'q') => Some(('A', 'L')),
        ('m', 't') => Some(('M', 'T')),
        ('g', 'a') => Some(('I', 'E')),
        ('c', 'y') => Some(('G', 'B')),
        ('k', 'a') => Some(('G', 'E')),
        ('h', 'y') => Some(('A', 'M')),
        ('a', 'z') => Some(('A', 'Z')),
        ('k', 'k') => Some(('K', 'Z')),
        ('k', 'y') => Some(('K', 'G')),
        ('u', 'z') => Some(('U', 'Z')),
        ('s', 'w') => Some(('K', 'E')),
        ('a', 'f') => Some(('Z', 'A')),
        ('a', 'm') => Some(('E', 'T')),
        ('y', 'o') => Some(('N', 'G')),
        ('i', 'g') => Some(('N', 'G')),
        ('h', 'a') => Some(('N', 'G')),
        ('z', 'u') => Some(('Z', 'A')),
        ('x', 'h') => Some(('Z', 'A')),
        ('s', 't') => Some(('Z', 'A')),
        ('t', 'n') => Some(('Z', 'A')),
        ('s', 'n') => Some(('Z', 'W')),
        ('n', 'y') => Some(('M', 'W')),
        ('s', 'o') => Some(('S', 'O')),
        ('o', 'm') => Some(('E', 'T')),
        ('t', 'i') => Some(('E', 'R')),
        ('m', 'g') => Some(('M', 'G')),
        ('r', 'w') => Some(('R', 'W')),
        ('l', 'g') => Some(('U', 'G')),
        ('a', 'k') => Some(('G', 'H')),
        ('f', 'f') => Some(('S', 'N')),
        ('w', 'o') => Some(('S', 'N')),
        ('b', 'm') => Some(('M', 'L')),
        ('e', 'e') => Some(('G', 'H')),
        ('t', 'w') => Some(('G', 'H')),
        _ => None,
    }
}

fn country_str(a: char, b: char) -> (s: &'static str)
    requires
        known_pair(a, b),
    ensures
        s@ == seq![a, b],
{
    match (a, b) {
        ('A', 'R') => {
            proof {
                reveal_strlit("AR");
            }
            "AR"
        },
        ('B', 'O') => {
            proof {
                reveal_strlit("BO");
            }
            "BO"
        },
        ('B', 'R') => {
            proof {
                reveal_strlit("BR");
            }
            "BR"
        },
        ('C', 'A') => {
            proof {
                reveal_strlit("CA");
            }
            "CA"
        },
        ('C', 'L') => {
            proof {
                reveal_strlit("CL");
            }
            "CL"
        },
        ('C', 'O') => {
            proof {
                reveal_strlit("CO");
            }
            "CO"
        },
        ('C', 'R') => {
            proof {
                reveal_strlit("CR");
            }
            "CR"
        },
        ('C', 'U') => {
            proof {
                reveal_strlit("CU");
            }
            "CU"
        },
        ('D', 'O') => {
            proof {
                reveal_strlit("DO");
            }
            "DO"
        },
        ('E', 'C') => {
            proof {
                reveal_strlit("EC");
            }
            "EC"
        },
        ('M', 'X') => {
            proof {
                reveal_strlit("MX");
            }
            "MX"
        },
        ('P', 'A') => {
            proof {
                reveal_strlit("PA");
            }
            "PA"
        },
        ('P', 'E') => {
            proof {
                reveal_strlit("PE");
            }
            "PE"
        },
        ('P', 'Y') => {
            proof {
                reveal_strlit("PY");
            }
            "PY"
        },
        ('U', 'S') => {
            proof {
                reveal_strlit("US");
            }
            "US"
        },
        ('U', 'Y') => {
            proof {
                reveal_strlit("UY");
            }
            "UY"
        },
        ('V', 'E') => {
            proof {
                reveal_strlit("VE");
            }
            "VE"
        },
        ('A', 'L') => {
            proof {
                reveal_strlit("AL");
            }
            "AL"
        },
        ('A', 'T') => {
            proof {
                reveal_strlit("AT");
            }
            "AT"
        },
        ('B', 'G') => {
            proof {
                reveal_strlit("BG");
            }
            "BG"
        },
        ('B', 'Y') => {
            proof {
                reveal_strlit("BY");
            }
            "BY"
        },
        ('C', 'H') => {
            proof {
                reveal_strlit("CH");
            }
            "CH"
        },
        ('C', 'Z') => {
            proof {
                reveal_strlit("CZ");
            }
            "CZ"
        },
        ('D', 'E') => {
            proof {
                reveal_strlit("DE");
            }
            "DE"
        },
        ('D', 'K') => {
            proof {
                reveal_strlit("DK");
            }
            "DK"
        },
        ('E', 'E') => {
            proof {
                reveal_strlit("EE");
            }
            "EE"
        },
        ('E', 'S') => {
            proof {
                reveal_strlit("ES");
            }
            "ES"
        },
        ('F', 'I') => {
            proof {
                reveal_strlit("FI");
            }
            "FI"
        },
        ('F', 'R') => {
            proof {
                reveal_strlit("FR");
            }
            "FR"
        },
        ('G', 'B') => {
            proof {
                reveal_strlit("GB");
            }
            "GB"
        },
        ('G', 'R') => {
            proof {
                reveal_strlit("GR");
            }
            "GR"
        },
        ('H', 'R') => {
            proof {
                reveal_strlit("HR");
            }
            "HR"
        },
        ('H', 'U') => {
            proof {
                reveal_strlit("HU");
            }
            "HU"
        },
        ('I', 'E') => {
            proof {
                reveal_strlit("IE");
            }
            "IE"
        },
        ('I', 'S') => {
            proof {
                reveal_strlit("IS");
            }
            "IS"
        },
        ('I', 'T') => {
            proof {
                reveal_strlit("IT");
            }
            "IT"
        },
        ('L', 'T') => {
            proof {
                reveal_strlit("LT");
            }
            "LT"
        },
        ('L', 'V') => {
            proof {
                reveal_strlit("LV");
            }
            "LV"
        },
        ('M', 'K') => {
            proof {
                reveal_strlit("MK");
            }
            "MK"
        },
        ('M', 'T') => {
            proof {
                reveal_strlit("MT");
            }
            "MT"
        },
        ('N', 'L') => {
            proof {
                reveal_strlit("NL");
            }
            "NL"
        },
        ('N', 'O') => {
            proof {
                reveal_strlit("NO");
            }
            "NO"
        },
        ('P', 'L') => {
            proof {
                reveal_strlit("PL");
            }
            "PL"
        },
        ('P', 'T') => {
            proof {
                reveal_strlit("PT");
            }
            "PT"
        },
        ('R', 'O') => {
            proof {
                reveal_strlit("RO");
            }
            "RO"
        },
        ('R', 'S') => {
            proof {
                reveal_strlit("RS");
            }
            "RS"
        },
        ('R', 'U') => {
            proof {
                reveal_strlit("RU");
            }
            "RU"
        },
        ('S', 'E') => {
            proof {
                reveal_strlit("SE");
            }
            "SE"
        },
        ('S', 'I') => {
            proof {
                reveal_strlit("SI");
            }
            "SI"
        },
        ('S', 'K') => {
            proof {
                reveal_strlit("SK");
            }
            "SK"
        },
        ('T', 'R') => {
            proof {
                reveal_strlit("TR");
            }
            "TR"
        },
        ('U', 'A') => {
            proof {
                reveal_strlit("UA");
            }
            "UA"
        },
        ('A', 'Z') => {
            proof {
                reveal_strlit("AZ");
            }
            "AZ"
        },
        ('B', 'D') => {
            proof {
                reveal_strlit("BD");
            }
            "BD"
        },
        ('C', 'N') => {
            proof {
                reveal_strlit("CN");
            }
            "CN"
        },
        ('G', 'E') => {
            proof {
                reveal_strlit("GE");
            }
            "GE"
        },
        ('H', 'K') => {
            proof {
                reveal_strlit("HK");
            }
            "HK"
        },
        ('I', 'D') => {
            proof {
                reveal_strlit("ID");
            }
            "ID"
        },
        ('I', 'L') => {
            proof {
                reveal_strlit("IL");
            }
            "IL"
        },
        ('I', 'N') => {
            proof {
                reveal_strlit("IN");
            }
            "IN"
        },
        ('I', 'Q') => {
            proof {
                reveal_strlit("IQ");
            }
            "IQ"
        },
        ('I', 'R') => {
            proof {
                reveal_strlit("IR");
            }
            "IR"
        },
        ('J', 'O') => {
            proof {
                reveal_strlit("JO");
            }
            "JO"
        },
        ('J', 'P') => {
            proof {
                reveal_strlit("JP");
            }
            "JP"
        },
        ('K', 'G') => {
            proof {
                reveal_strlit("KG");
            }
            "KG"
        },
        ('K', 'H') => {
            proof {
                reveal_strlit("KH");
            }
            "KH"
        },
        ('K', 'R') => {
            proof {
                reveal_strlit("KR");
            }
            "KR"
        },
        ('K', 'Z') => {
            proof {
                reveal_strlit("KZ");
            }
            "KZ"
        },
        ('L', 'A') => {
            proof {
                reveal_strlit("LA");
            }
            "LA"
        },
        ('L', 'K') => {
            proof {
                reveal_strlit("LK");
            }
            "LK"
        },
        ('M', 'M') => {
            proof {
                reveal_strlit("MM");
            }
            "MM"
        },
        ('M', 'N') => {
            proof {
                reveal_strlit("MN");
            }
            "MN"
        },
        ('M', 'Y') => {
            proof {
                reveal_strlit("MY");
            }
            "MY"
        },
        ('N', 'P') => {
            proof {
                reveal_strlit("NP");
            }
            "NP"
        },
        ('P', 'K') => {
            proof {
                reveal_strlit("PK");
            }
            "PK"
        },
        ('P', 'H') => {
            proof {
                reveal_strlit("PH");
            }
            "PH"
        },
        ('S', 'A') => {
            proof {
                reveal_strlit("SA");
            }
            "SA"
        },
        ('T', 'H') => {
            proof {
                reveal_strlit("TH");
            }
            "TH"
        },
        ('T', 'W') => {
            proof {
                reveal_strlit("TW");
            }
            "TW"
        },
        ('U', 'Z') => {
            proof {
                reveal_strlit("UZ");
            }
            "UZ"
        },
        ('V', 'N') => {
            proof {
                reveal_strlit("VN");
            }
            "VN"
        },
        ('A', 'E') => {
            proof {
                reveal_strlit("AE");
            }
            "AE"
        },
        ('E', 'G') => {
            proof {
                reveal_strlit("EG");
            }
            "EG"
        },
        ('E', 'R') => {
            proof {
                reveal_strlit("ER");
            }
            "ER"
        },
        ('E', 'T') => {
            proof {
                reveal_strlit("ET");
            }
            "ET"
        },
        ('G', 'H') => {
            proof {
                reveal_strlit("GH");
            }
            "GH"
        },
        ('K', 'E') => {
            proof {
                reveal_strlit("KE");
            }
            "KE"
        },
        ('M', 'G') => {
            proof {
                reveal_strlit("MG");
            }
            "MG"
        },
        ('M', 'L') => {
            proof {
                reveal_strlit("ML");
            }
            "ML"
        },
        ('M', 'W') => {
            proof {
                reveal_strlit("MW");
            }
            "MW"
        },
        ('N', 'G') => {
            proof {
                reveal_strlit("NG");
            }
            "NG"
        },
        ('R', 'W') => {
            proof {
                reveal_strlit("RW");
            }
            "RW"
        },
        ('S', 'N') => {
            proof {
                reveal_strlit("SN");
            }
            "SN"
        },
        ('S', 'O') => {
            proof {
                reveal_strlit("SO");
            }
            "SO"
        },
        ('U', 'G') => {
            proof {
                reveal_strlit("UG");
            }
            "UG"
        },
        ('Z', 'A') => {
            proof {
                reveal_strlit("ZA");
            }
            "ZA"
        },
        ('Z', 'W') => {
            proof {
                reveal_strlit("ZW");
            }
            "ZW"
        },
        ('A', 'M') => {
            proof {
                reveal_strlit("AM");
            }
            "AM"
        },
        _ => {
            proof {
                reveal_strlit("GLOBE");
            }
            "GLOBE"
        },
    }
}

/// Map a language code to its country code.
///
/// Handles "lang_COUNTRY" (e.g. "pt_BR" gives "BR") and a bare language
/// (e.g. "ja" gives "JP"); gives "GLOBE" for unknown languages.
pub fn lang_to_country(lang_code: &str) -> (country: &'static str)
    ensures
        country@ == spec_lang_to_country(lang_code@),
{
    let v = to_chars(lang_code);
    let parts = split_chars(v.as_slice(), '_');
    let ghost views = parts@.map_values(|p: Vec<char>| p@);
    proof {
        text::lemma_split_first(v@, '_');
    }
    assert(views.len() >= 1);
    if parts.len() >= 2 {
        let country = parts[1].as_slice();
        assert(country@ == views[1]);
        if is_known_country(country) {
            return country_str(country[0], country[1]);
        }
    }
    let lang = parts[0].as_slice();
    assert(lang@ == views[0]);
    if lang.len() == 2 {
        match language_pair_of(lang[0], lang[1]) {
            Some((x, y)) => {
                return country_str(x, y);
            },
            None => {},
        }
    }
    proof {
        reveal_strlit("GLOBE");
    }
    "GLOBE"
}

/// Every answer of `lang_to_country` is a known country code or "GLOBE".
pub proof fn lemma_lang_to_country_known(lang_code: Seq<char>)
    ensures
        known_country(spec_lang_to_country(lang_code)) || spec_lang_to_country(lang_code) == globe(),
{
    let parts = text::split_char(lang_code, '_');
    text::lemma_split_first(lang_code, '_');
    let lang = parts[0];
    if lang.len() == 2 {
        if let Some(p) = language_pair(lang[0], lang[1]) {
            assert(known_pair(p.0, p.1));
        }
    }
}

/// An explicit region wins: for a code made of a language part (without
/// "_"), "_" and a known country code, the flag is that country code,
/// whatever the language.
pub proof fn lemma_region_wins(lang: Seq<char>, cc: Seq<char>)
    requires
        forall|i: int| 0 <= i < lang.len() ==> lang[i] != '_',
        known_country(cc),
    ensures
        spec_lang_to_country(lang + seq!['_'] + cc) == cc,
{
    assert(cc[0] != '_' && cc[1] != '_');
    let ws = seq![lang, cc];
    assert forall|i: int, j: int| 0 <= i < ws.len() && 0 <= j < ws[i].len() implies ws[i][j] != '_' by {
        if i == 1 {
            assert(j == 0 || j == 1);
        }
    }
    text::lemma_split_join(ws, '_');
    assert(ws.drop_last() =~= seq![lang]);
    assert(text::join(ws, seq!['_']) == text::join(seq![lang], seq!['_']) + seq!['_'] + cc);
    assert(text::join(ws, seq!['_']) =~= lang + seq!['_'] + cc);
}

} // verus!
