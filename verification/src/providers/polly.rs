//! The AWS Polly provider: which voice and engine a voice key selects,
//! whether AWS credentials are configured, and what the synthesized audio
//! becomes.
//!
//! Calling AWS and reading the environment and the credentials file are
//! left to the caller, which reports what it found.
use vstd::prelude::*;

use super::audio_player::{pcm_samples, pcm_to_samples};
use super::TTSError;
use crate::text;
use crate::text::{
    chars_eq, eq_ignore_ascii_case, find_from, push_chars, split_chars, starts_with_chars,
    string_of, string_of_range, to_chars, trim_chars,
};
use crate::voices::aws::{content_lines, default_header, line_value, profile_header};

verus! {

/// Sample rate of the audio requested from Polly.
pub const POLLY_SAMPLE_RATE: u32 = 16000;

/// The Polly synthesis engines.
#[derive(Debug, Clone, Copy, PartialEq, Eq, Structural)]
pub enum PollyEngine {
    Standard,
    Neural,
    Generative,
    LongForm,
}

/// The engine an engine name selects; unknown names select Neural.
pub open spec fn engine_from_name(s: Seq<char>) -> PollyEngine {
    if s == "Standard"@ {
        PollyEngine::Standard
    } else if s == "Neural"@ {
        PollyEngine::Neural
    } else if s == "Generative"@ {
        PollyEngine::Generative
    } else if s == "LongForm"@ {
        PollyEngine::LongForm
    } else {
        PollyEngine::Neural
    }
}

/// The name of an engine.
pub open spec fn engine_name(e: PollyEngine) -> Seq<char> {
    match e {
        PollyEngine::Standard => "Standard"@,
        PollyEngine::Neural => "Neural"@,
        PollyEngine::Generative => "Generative"@,
        PollyEngine::LongForm => "LongForm"@,
    }
}

/// The voice and engine a voice key ("VoiceId:Engine" or "VoiceId")
/// selects: no key selects Matthew; no engine selects Neural.
pub open spec fn spec_parse_voice_key(voice_key: Option<String>) -> (Seq<char>, PollyEngine) {
    match voice_key {
        None => ("Matthew"@, PollyEngine::Neural),
        Some(k) => {
            let i = text::find_char(k@, ':');
            if 0 <= i < k@.len() {
                (k@.take(i), engine_from_name(k@.skip(i + 1)))
            } else {
                (k@, PollyEngine::Neural)
            }
        },
    }
}

fn engine_of(s: &[char]) -> (e: PollyEngine)
    ensures
        e == engine_from_name(s@),
{
    let standard = ['S', 't', 'a', 'n', 'd', 'a', 'r', 'd'];
    let neural = ['N', 'e', 'u', 'r', 'a', 'l'];
    let generative = ['G', 'e', 'n', 'e', 'r', 'a', 't', 'i', 'v', 'e'];
    let long_form = ['L', 'o', 'n', 'g', 'F', 'o', 'r', 'm'];
    proof {
        reveal_strlit("Standard");
        reveal_strlit("Neural");
        reveal_strlit("Generative");
        reveal_strlit("LongForm");
        assert(standard@ =~= "Standard"@);
        assert(neural@ =~= "Neural"@);
        assert(generative@ =~= "Generative"@);
        assert(long_form@ =~= "LongForm"@);
    }
    if chars_eq(s, &standard) {
        PollyEngine::Standard
    } else if chars_eq(s, &neural) {
        PollyEngine::Neural
    } else if chars_eq(s, &generative) {
        PollyEngine::Generative
    } else if chars_eq(s, &long_form) {
        PollyEngine::LongForm
    } else {
        PollyEngine::Neural
    }
}

/// The voice id and engine to synthesize with, from the selected voice key.
pub fn parse_voice_key(voice_key: Option<String>) -> (r: (String, PollyEngine))
    ensures
        r.0@ == spec_parse_voice_key(voice_key).0,
        r.1 == spec_parse_voice_key(voice_key).1,
{
    match voice_key {
        None => ("Matthew".to_owned(), PollyEngine::Neural),
        Some(k) => {
            let v = to_chars(k.as_str());
            let i = find_from(v.as_slice(), 0, ':');
            proof {
                text::lemma_find_char(v@, ':');
            }
            if i < v.len() {
                assert(v@.skip(0) =~= v@);
                let id = string_of_range(v.as_slice(), 0, i);
                let rest_s = string_of_range(v.as_slice(), i + 1, v.len());
                let rest = to_chars(rest_s.as_str());
                assert(id@ =~= v@.take(i as int));
                assert(rest@ =~= v@.skip(i + 1));
                (id, engine_of(rest.as_slice()))
            } else {
                (k, PollyEngine::Neural)
            }
        },
    }
}

/// The message given when no AWS credentials are configured.
pub open spec fn credentials_error_text() -> Seq<char> {
    "AWS credentials not found. Please configure credentials via:\n  - Environment variables: AWS_ACCESS_KEY_ID and AWS_SECRET_ACCESS_KEY\n  - Or credentials file: ~/.aws/credentials"@
}

/// The message given when no AWS credentials are configured.
pub fn credentials_error_message() -> (s: String)
    ensures
        s@ == credentials_error_text(),
{
    "AWS credentials not found. Please configure credentials via:\n  - Environment variables: AWS_ACCESS_KEY_ID and AWS_SECRET_ACCESS_KEY\n  - Or credentials file: ~/.aws/credentials".to_owned()
}

pub open spec fn access_key_name() -> Seq<char> {
    "aws_access_key_id"@
}

pub open spec fn secret_key_name() -> Seq<char> {
    "aws_secret_access_key"@
}

/// Whether both keys are found, non-empty, in the section `header`,
/// scanning `lines` from the top with the flags found so far. Lines are
/// trimmed; a line starting with "[" opens a section, which is the wanted
/// one when it equals `header` up to ASCII case.
pub open spec fn credentials_scan(
    lines: Seq<Seq<char>>,
    header: Seq<char>,
    in_section: bool,
    has_access: bool,
    has_secret: bool,
) -> bool
    decreases lines.len(),
{
    if lines.len() == 0 {
        has_access && has_secret
    } else {
        let line = text::trim(lines[0]);
        let rest = lines.drop_first();
        if text::starts_with(line, seq!['[']) {
            credentials_scan(rest, header, text::eq_ignore_case(line, header), has_access, has_secret)
        } else if in_section && text::starts_with(line, access_key_name()) {
            credentials_scan(rest, header, in_section, has_access || line_value(line) is Some, has_secret)
        } else if in_section && text::starts_with(line, secret_key_name()) {
            credentials_scan(rest, header, in_section, has_access, has_secret || line_value(line) is Some)
        } else {
            credentials_scan(rest, header, in_section, has_access, has_secret)
        }
    }
}

fn has_line_value(line: &[char]) -> (r: bool)
    ensures
        r == line_value(line@) is Some,
{
    let parts = split_chars(line, '=');
    let ghost views = parts@.map_values(|p: Vec<char>| p@);
    if parts.len() >= 2 {
        assert(views[1] == parts@[1]@);
        let v = trim_chars(parts[1].as_slice());
        return v.len() > 0;
    }
    false
}

/// Whether the credentials file `content` sets both an access key and a
/// secret key, each non-empty, in the section `section_header`.
pub fn parse_credentials_from_section(content: &str, section_header: &str) -> (r: bool)
    ensures
        r == credentials_scan(content_lines(content@), section_header@, false, false, false),
{
    let c = to_chars(content);
    let header = to_chars(section_header);
    let lines = split_chars(c.as_slice(), '\n');
    let ghost views = lines@.map_values(|p: Vec<char>| p@);
    let open = ['['];
    let access = ['a', 'w', 's', '_', 'a', 'c', 'c', 'e', 's', 's', '_', 'k', 'e', 'y', '_', 'i', 'd'];
    let secret = ['a', 'w', 's', '_', 's', 'e', 'c', 'r', 'e', 't', '_', 'a', 'c', 'c', 'e', 's', 's', '_', 'k', 'e', 'y'];
    proof {
        reveal_strlit("aws_access_key_id");
        reveal_strlit("aws_secret_access_key");
        assert(open@ =~= seq!['[']);
        assert(access@ =~= access_key_name());
        assert(secret@ =~= secret_key_name());
    }
    let mut in_section = false;
    let mut has_access = false;
    let mut has_secret = false;
    let mut i: usize = 0;
    assert(views.skip(0) =~= views);
    while i < lines.len()
        invariant
            i <= lines@.len(),
            views == lines@.map_values(|p: Vec<char>| p@),
            views == content_lines(content@),
            header@ == section_header@,
            open@ == seq!['['],
            access@ == access_key_name(),
            secret@ == secret_key_name(),
            credentials_scan(views, section_header@, false, false, false)
                == credentials_scan(views.skip(i as int), section_header@, in_section, has_access, has_secret),
        decreases lines.len() - i,
    {
        let line = trim_chars(lines[i].as_slice());
        let line = line.as_slice();
        proof {
            assert(views.skip(i as int)[0] == views[i as int]);
            assert(views.skip(i as int).drop_first() =~= views.skip(i + 1));
        }
        if starts_with_chars(line, &open) {
            in_section = eq_ignore_ascii_case(line, header.as_slice());
        } else if in_section && starts_with_chars(line, &access) {
            if has_line_value(line) {
                has_access = true;
            }
        } else if in_section && starts_with_chars(line, &secret) {
            if has_line_value(line) {
                has_secret = true;
            }
        }
        i += 1;
    }
    has_access && has_secret
}

/// The credentials section used for a profile: "[default]" for the
/// profile "default", "[profile NAME]" otherwise.
pub open spec fn credentials_header(profile: Seq<char>) -> Seq<char> {
    if profile == "default"@ { default_header() } else { profile_header(profile) }
}

/// The credentials section for the profile named by `AWS_PROFILE`
/// ("default" when it is not set).
pub fn credentials_section_header(aws_profile: &Option<String>) -> (r: String)
    ensures
        r@ == credentials_header(match *aws_profile {
            Some(p) => p@,
            None => "default"@,
        }),
{
    let profile = match aws_profile {
        Some(p) => to_chars(p.as_str()),
        None => to_chars("default"),
    };
    let dflt = ['d', 'e', 'f', 'a', 'u', 'l', 't'];
    proof {
        reveal_strlit("default");
        assert(dflt@ =~= "default"@);
    }
    if chars_eq(profile.as_slice(), &dflt) {
        let h = ['[', 'd', 'e', 'f', 'a', 'u', 'l', 't', ']'];
        assert(h@ =~= default_header());
        return string_of(&h);
    }
    let mut r = string_of(&['[', 'p', 'r', 'o', 'f', 'i', 'l', 'e', ' ']);
    push_chars(&mut r, profile.as_slice());
    push_chars(&mut r, &[']']);
    assert(r@ =~= profile_header(profile@));
    r
}

/// Whether AWS credentials are configured: both `AWS_ACCESS_KEY_ID` and
/// `AWS_SECRET_ACCESS_KEY` set, or both keys in the profile's section of the
/// credentials file.
pub open spec fn spec_credentials_found(
    env_access_key: bool,
    env_secret_key: bool,
    credentials_file: Option<String>,
    aws_profile: Option<String>,
) -> bool {
    (env_access_key && env_secret_key) || match credentials_file {
        Some(content) => credentials_scan(
            content_lines(content@),
            credentials_header(match aws_profile {
                Some(p) => p@,
                None => "default"@,
            }),
            false,
            false,
            false,
        ),
        None => false,
    }
}

/// Whether AWS credentials are available, given whether the two
/// environment variables are set, the content of `~/.aws/credentials`
/// (when it could be read) and `AWS_PROFILE`. The error is the message
/// that explains how to configure them.
pub fn check_credentials(
    env_access_key: bool,
    env_secret_key: bool,
    credentials_file: &Option<String>,
    aws_profile: &Option<String>,
) -> (r: Result<(), String>)
    ensures
        r is Ok <==> spec_credentials_found(env_access_key, env_secret_key, *credentials_file, *aws_profile),
        r is Err ==> r->Err_0@ == credentials_error_text(),
{
    if env_access_key && env_secret_key {
        return Ok(());
    }
    if let Some(content) = credentials_file {
        let header = credentials_section_header(aws_profile);
        if parse_credentials_from_section(content.as_str(), header.as_str()) {
            return Ok(());
        }
    }
    Err(credentials_error_message())
}

/// The audio Polly returned (16-bit PCM), or the error for an empty reply.
pub fn speech_from_reply(audio_bytes: &[u8]) -> (r: Result<Vec<i16>, TTSError>)
    ensures
        audio_bytes@.len() == 0 <==> r is Err,
        r is Ok ==> r.unwrap()@ == pcm_samples(audio_bytes@),
        r is Err ==> (r matches Err(TTSError::ProcessError(m)) && m@ == "No audio data generated by AWS Polly"@),
{
    if audio_bytes.len() == 0 {
        return Err(TTSError::ProcessError("No audio data generated by AWS Polly".to_owned()));
    }
    Ok(pcm_to_samples(audio_bytes))
}

} // verus!
