//! Piper voice downloads: where voices are stored, which files of a voice
//! are fetched and from where, and the MD5 check of what was fetched.
//!
//! The HTTP requests and the file writes are left to the caller.
use vstd::prelude::*;

use crate::locations;
use crate::model::{FileInfo, VoiceInfo};
use crate::paths::{join_path, path_join};
use crate::text;
use crate::text::{chars_eq, ends_with_chars, push_chars, to_chars};

verus! {

/// Where the voice files are published.
pub open spec fn huggingface_base() -> Seq<char> {
    "https://huggingface.co/rhasspy/piper-voices/resolve/main"@
}

/// The models directory under a data directory:
/// "insight-reader/models".
pub open spec fn models_dir(data_dir: Seq<char>) -> Seq<char> {
    path_join(path_join(data_dir, "insight-reader"@), "models"@)
}

/// The directory voices are stored in, given the data directory; an error
/// when there is none.
pub fn model_directory_in(data_dir: &Option<String>) -> (r: Result<String, String>)
    ensures
        data_dir is Some <==> r is Ok,
        r is Ok ==> r->Ok_0@ == models_dir(data_dir.unwrap()@),
        r is Err ==> r->Err_0@ == "Failed to get data directory"@,
{
    match data_dir {
        Some(d) => {
            let a = join_path(d.as_str(), "insight-reader");
            Ok(join_path(a.as_str(), "models"))
        },
        None => Err("Failed to get data directory".to_owned()),
    }
}

/// The directory voices are stored in, under the user's data directory
/// (the same for every voice).
pub fn get_model_directory(voice_key: &str) -> (r: Result<String, String>)
    ensures
        r is Ok ==> exists|d: String| r->Ok_0@ == models_dir(d@),
        r is Err ==> r->Err_0@ == "Failed to get data directory"@,
{
    let dir = locations::data_dir();
    let r = model_directory_in(&dir);
    proof {
        if r is Ok {
            let d = dir.unwrap();
            assert(r->Ok_0@ == models_dir(d@));
        }
    }
    r
}

/// The directory of one voice: a directory named by the voice key in the
/// models directory.
pub open spec fn voice_dir(model_dir: Seq<char>, voice_key: Seq<char>) -> Seq<char> {
    path_join(model_dir, voice_key)
}

/// The files of a downloaded voice, in its own directory: the model and its
/// configuration.
pub open spec fn voice_files(model_dir: Seq<char>, voice_key: Seq<char>) -> (Seq<char>, Seq<char>) {
    let dir = voice_dir(model_dir, voice_key);
    (path_join(dir, voice_key + ".onnx"@), path_join(dir, voice_key + ".onnx.json"@))
}

/// The directory of the voice `voice_key` in `model_dir`
/// (`{model_dir}/{voice_key}`).
pub fn voice_directory(model_dir: &str, voice_key: &str) -> (r: String)
    ensures
        r@ == voice_dir(model_dir@, voice_key@),
{
    join_path(model_dir, voice_key)
}

/// The model file and the configuration file of a voice, in the voice's
/// directory in `model_dir`.
pub fn voice_file_paths(model_dir: &str, voice_key: &str) -> (r: (String, String))
    ensures
        (r.0@, r.1@) == voice_files(model_dir@, voice_key@),
{
    let dir = voice_directory(model_dir, voice_key);
    let mut onnx = voice_key.to_owned();
    push_chars(&mut onnx, to_chars(".onnx").as_slice());
    let mut json = voice_key.to_owned();
    push_chars(&mut json, to_chars(".onnx.json").as_slice());
    (join_path(dir.as_str(), onnx.as_str()), join_path(dir.as_str(), json.as_str()))
}

/// The path a downloaded voice is known by: the voice key in the voice's
/// directory (its model file without the ".onnx" extension).
pub fn voice_model_path(model_dir: &str, voice_key: &str) -> (r: String)
    ensures
        r@ == path_join(voice_dir(model_dir@, voice_key@), voice_key@),
{
    let dir = voice_directory(model_dir, voice_key);
    join_path(dir.as_str(), voice_key)
}

/// A voice's model file: a path ending in ".onnx" but not ".onnx.json".
pub open spec fn is_model_file(path: Seq<char>) -> bool {
    text::ends_with(path, ".onnx"@) && !text::ends_with(path, ".onnx.json"@)
}

/// A voice's configuration file: a path ending in ".onnx.json".
pub open spec fn is_config_file(path: Seq<char>) -> bool {
    text::ends_with(path, ".onnx.json"@)
}

/// The first file of `files` whose path is a model file, if any.
pub fn find_model_file(files: &Vec<(String, FileInfo)>) -> (r: Option<usize>)
    ensures
        r is None <==> forall|j: int| 0 <= j < files@.len() ==> !is_model_file(#[trigger] files@[j].0@),
        r is Some ==> r.unwrap() < files@.len() && is_model_file(files@[r.unwrap() as int].0@)
            && forall|j: int| 0 <= j < r.unwrap() ==> !is_model_file(#[trigger] files@[j].0@),
{
    let onnx = to_chars(".onnx");
    let json = to_chars(".onnx.json");
    let mut i: usize = 0;
    while i < files.len()
        invariant
            i <= files@.len(),
            onnx@ == ".onnx"@,
            json@ == ".onnx.json"@,
            forall|j: int| 0 <= j < i ==> !is_model_file(#[trigger] files@[j].0@),
        decreases files.len() - i,
    {
        let p = to_chars(files[i].0.as_str());
        if ends_with_chars(p.as_slice(), onnx.as_slice()) && !ends_with_chars(p.as_slice(), json.as_slice()) {
            return Some(i);
        }
        i += 1;
    }
    None
}

/// The first file of `files` whose path is a configuration file, if any.
pub fn find_config_file(files: &Vec<(String, FileInfo)>) -> (r: Option<usize>)
    ensures
        r is None <==> forall|j: int| 0 <= j < files@.len() ==> !is_config_file(#[trigger] files@[j].0@),
        r is Some ==> r.unwrap() < files@.len() && is_config_file(files@[r.unwrap() as int].0@)
            && forall|j: int| 0 <= j < r.unwrap() ==> !is_config_file(#[trigger] files@[j].0@),
{
    let json = to_chars(".onnx.json");
    let mut i: usize = 0;
    while i < files.len()
        invariant
            i <= files@.len(),
            json@ == ".onnx.json"@,
            forall|j: int| 0 <= j < i ==> !is_config_file(#[trigger] files@[j].0@),
        decreases files.len() - i,
    {
        let p = to_chars(files[i].0.as_str());
        if ends_with_chars(p.as_slice(), json.as_slice()) {
            return Some(i);
        }
        i += 1;
    }
    None
}

/// One file to fetch: its URL, where it goes, and its expected MD5
/// digest.
#[derive(Debug, Clone)]
pub struct FileDownload {
    pub url: String,
    pub path: String,
    pub md5_digest: String,
}

/// The URL of a published file.
pub open spec fn file_url(file_path: Seq<char>) -> Seq<char> {
    huggingface_base() + seq!['/'] + file_path
}

fn download_of(entry: &(String, FileInfo), path: String) -> (d: FileDownload)
    ensures
        d.url@ == file_url(entry.0@),
        d.path == path,
        d.md5_digest == entry.1.md5_digest,
{
    let mut url = "https://huggingface.co/rhasspy/piper-voices/resolve/main".to_owned();
    push_chars(&mut url, &['/']);
    push_chars(&mut url, to_chars(entry.0.as_str()).as_slice());
    FileDownload { url, path, md5_digest: entry.1.md5_digest.clone() }
}

/// The files to fetch for the voice `voice_key` into `model_dir`: its
/// model file, then its configuration file (the first of each kind listed);
/// an error names the kind that is missing.
pub fn voice_downloads(voice_key: &str, voice: &VoiceInfo, model_dir: &str) -> (r: Result<Vec<FileDownload>, String>)
    ensures
        r is Err <==> (forall|j: int| 0 <= j < voice.files@.len() ==> !is_model_file(#[trigger] voice.files@[j].0@))
            || (forall|j: int| 0 <= j < voice.files@.len() ==> !is_config_file(#[trigger] voice.files@[j].0@)),
        (forall|j: int| 0 <= j < voice.files@.len() ==> !is_model_file(#[trigger] voice.files@[j].0@))
            ==> r is Err && r->Err_0@ == "No .onnx file found for voice "@ + voice_key@,
        (exists|j: int| 0 <= j < voice.files@.len() && is_model_file(#[trigger] voice.files@[j].0@))
            && (forall|j: int| 0 <= j < voice.files@.len() ==> !is_config_file(#[trigger] voice.files@[j].0@))
            ==> r is Err && r->Err_0@ == "No .onnx.json file found for voice "@ + voice_key@,
        r is Ok ==> r->Ok_0@.len() == 2 && exists|m: int, c: int| {
            &&& 0 <= m < voice.files@.len() && 0 <= c < voice.files@.len()
            &&& is_model_file(voice.files@[m].0@)
            &&& forall|j: int| 0 <= j < m ==> !is_model_file(#[trigger] voice.files@[j].0@)
            &&& is_config_file(voice.files@[c].0@)
            &&& forall|j: int| 0 <= j < c ==> !is_config_file(#[trigger] voice.files@[j].0@)
            &&& r->Ok_0@[0].url@ == file_url(voice.files@[m].0@)
            &&& r->Ok_0@[0].path@ == voice_files(model_dir@, voice_key@).0
            &&& r->Ok_0@[0].md5_digest == voice.files@[m].1.md5_digest
            &&& r->Ok_0@[1].url@ == file_url(voice.files@[c].0@)
            &&& r->Ok_0@[1].path@ == voice_files(model_dir@, voice_key@).1
            &&& r->Ok_0@[1].md5_digest == voice.files@[c].1.md5_digest
        },
{
    let m = match find_model_file(&voice.files) {
        Some(m) => m,
        None => {
            let mut e = "No .onnx file found for voice ".to_owned();
            push_chars(&mut e, to_chars(voice_key).as_slice());
            return Err(e);
        },
    };
    let c = match find_config_file(&voice.files) {
        Some(c) => c,
        None => {
            let mut e = "No .onnx.json file found for voice ".to_owned();
            push_chars(&mut e, to_chars(voice_key).as_slice());
            return Err(e);
        },
    };
    let (onnx_path, json_path) = voice_file_paths(model_dir, voice_key);
    let d0 = download_of(&voice.files[m], onnx_path);
    let d1 = download_of(&voice.files[c], json_path);
    let r = vec![d0, d1];
    assert(r@[0] == d0 && r@[1] == d1);
    Ok(r)
}

// ----------------------------------------------------------------------------
// MD5 check
// ----------------------------------------------------------------------------

/// The MD5 digest of some bytes, as `md5::compute` gives it.
pub uninterp spec fn md5_digest(bytes: Seq<u8>) -> Seq<u8>;

/// The MD5 digest of `bytes` (`md5::compute`).
#[verifier::external_body]
fn compute_md5(bytes: &[u8]) -> (d: [u8; 16])
    ensures
        d@ == md5_digest(bytes@),
{
    md5::compute(bytes).0
}

/// The lowercase hexadecimal digit of `d` (0 to 15).
pub open spec fn hex_digit(d: int) -> char {
    if d < 10 { (48 + d) as char } else { (87 + d) as char }
}

/// Bytes in lowercase hexadecimal, two digits per byte (how an MD5 digest
/// is printed).
pub open spec fn hex_lower(bytes: Seq<u8>) -> Seq<char>
    decreases bytes.len(),
{
    if bytes.len() == 0 {
        seq![]
    } else {
        hex_lower(bytes.drop_last()) + seq![hex_digit((bytes.last() / 16) as int), hex_digit((bytes.last() % 16) as int)]
    }
}

fn hex_char(d: u8) -> (c: char)
    requires
        d < 16,
    ensures
        c == hex_digit(d as int),
{
    if d < 10 {
        (48 + d) as char
    } else {
        (87 + d) as char
    }
}

/// The MD5 digest of `bytes` in lowercase hexadecimal.
pub fn md5_hex(bytes: &[u8]) -> (r: String)
    ensures
        r@ == hex_lower(md5_digest(bytes@)),
{
    let d = compute_md5(bytes);
    let mut s = String::new();
    let mut i: usize = 0;
    while i < 16
        invariant
            i <= 16,
            d@.len() == 16,
            d@ == md5_digest(bytes@),
            s@ == hex_lower(d@.take(i as int)),
        decreases 16 - i,
    {
        let b = d[i];
        push_chars(&mut s, &[hex_char(b / 16), hex_char(b % 16)]);
        assert(d@.take(i + 1).drop_last() =~= d@.take(i as int));
        i += 1;
    }
    assert(d@.take(16) =~= d@);
    s
}

/// The outcome of comparing a computed digest with the expected one: an
/// error naming the file and both digests when they differ.
pub open spec fn spec_md5_check(computed: Seq<char>, expected: Seq<char>, path: Seq<char>) -> Result<(), Seq<char>> {
    if computed == expected {
        Ok(())
    } else {
        Err("MD5 checksum mismatch for "@ + path + ": expected "@ + expected + ", got "@ + computed)
    }
}

/// Compare a computed digest (hexadecimal) with the expected one (see
/// [`spec_md5_check`]).
pub fn md5_check_result(computed: &str, expected: &str, path: &str) -> (r: Result<(), String>)
    ensures
        r is Ok <==> spec_md5_check(computed@, expected@, path@) is Ok,
        r is Err ==> r->Err_0@ == spec_md5_check(computed@, expected@, path@)->Err_0,
{
    let c = to_chars(computed);
    let e = to_chars(expected);
    if chars_eq(c.as_slice(), e.as_slice()) {
        return Ok(());
    }
    let mut m = "MD5 checksum mismatch for ".to_owned();
    push_chars(&mut m, to_chars(path).as_slice());
    push_chars(&mut m, to_chars(": expected ").as_slice());
    push_chars(&mut m, e.as_slice());
    push_chars(&mut m, to_chars(", got ").as_slice());
    push_chars(&mut m, c.as_slice());
    Err(m)
}

/// Check fetched bytes against the expected MD5 digest (hexadecimal) of
/// the file `path`.
pub fn check_md5(bytes: &[u8], expected: &str, path: &str) -> (r: Result<(), String>)
    ensures
        r is Ok <==> spec_md5_check(hex_lower(md5_digest(bytes@)), expected@, path@) is Ok,
        r is Err ==> r->Err_0@ == spec_md5_check(hex_lower(md5_digest(bytes@)), expected@, path@)->Err_0,
{
    let computed = md5_hex(bytes);
    md5_check_result(computed.as_str(), expected, path)
}

/// Fetched bytes pass the check against their own digest, whatever the
/// file.
pub proof fn lemma_own_digest_passes(bytes: Seq<u8>, path: Seq<char>)
    ensures
        spec_md5_check(hex_lower(md5_digest(bytes)), hex_lower(md5_digest(bytes)), path) is Ok,
{
}

/// A digest prints as two hexadecimal digits per byte.
pub proof fn lemma_hex_length(bytes: Seq<u8>)
    ensures
        hex_lower(bytes).len() == 2 * bytes.len(),
    decreases bytes.len(),
{
    if bytes.len() > 0 {
        lemma_hex_length(bytes.drop_last());
    }
}

} // verus!
