//! The Piper provider: where its binary and voice model are looked for,
//! what is checked before it starts, what text it is given, and how the
//! output of a Piper run becomes audio or an error.
//!
//! Running Piper and probing the file system are left to the caller, which
//! reports what it found.
use vstd::prelude::*;

use super::audio_player::{pcm_samples, pcm_to_samples};
use super::TTSError;
use crate::paths::{join_path, path_join, replace_extension, with_extension};
use crate::text;
use crate::text::{push_chars, push_signed_decimal, string_of, to_chars, trim_chars};

verus! {

/// The voice model used when none is selected.
pub open spec fn default_model_name() -> Seq<char> {
    "en_US-lessac-medium"@
}

/// The application's directory under a data directory.
pub open spec fn app_dir(data_dir: Seq<char>) -> Seq<char> {
    path_join(data_dir, "insight-reader"@)
}

/// The Piper binary of the virtual environment under `base`.
pub open spec fn venv_piper(base: Seq<char>) -> Seq<char> {
    path_join(path_join(path_join(base, "venv"@), "bin"@), "piper"@)
}

/// The model `name` in the models directory under `base`.
pub open spec fn model_in(base: Seq<char>, name: Seq<char>) -> Seq<char> {
    path_join(path_join(base, "models"@), name)
}

/// The places searched for the Piper binary, in order: the project's
/// virtual environment under the working directory, then the user's
/// installation under the data directory.
pub open spec fn spec_piper_binary_candidates(cwd: Option<String>, data_dir: Option<String>) -> Seq<Seq<char>> {
    (match cwd {
        Some(c) => seq![venv_piper(c@)],
        None => seq![],
    }) + (match data_dir {
        Some(d) => seq![venv_piper(app_dir(d@))],
        None => seq![],
    })
}

/// The places searched for a voice model (without its ".onnx"
/// extension), in order: the project's models directory, the user's, then
/// the voice's own directory in the user's models directory (where
/// downloaded voices are stored).
pub open spec fn spec_model_candidates(cwd: Option<String>, data_dir: Option<String>, name: Seq<char>) -> Seq<Seq<char>> {
    (match cwd {
        Some(c) => seq![model_in(c@, name)],
        None => seq![],
    }) + (match data_dir {
        Some(d) => seq![model_in(app_dir(d@), name), path_join(model_in(app_dir(d@), name), name)],
        None => seq![],
    })
}

/// The data directory, or "/tmp" when there is none.
pub open spec fn data_or_tmp(data_dir: Option<String>) -> Seq<char> {
    match data_dir {
        Some(d) => d@,
        None => "/tmp"@,
    }
}

fn data_or_tmp_string(data_dir: &Option<String>) -> (r: String)
    ensures
        r@ == data_or_tmp(*data_dir),
{
    match data_dir {
        Some(d) => d.clone(),
        None => "/tmp".to_owned(),
    }
}

fn venv_piper_under(base: &str) -> (r: String)
    ensures
        r@ == venv_piper(base@),
{
    let a = join_path(base, "venv");
    let b = join_path(a.as_str(), "bin");
    join_path(b.as_str(), "piper")
}

fn model_under(base: &str, name: &str) -> (r: String)
    ensures
        r@ == model_in(base@, name@),
{
    let a = join_path(base, "models");
    join_path(a.as_str(), name)
}

/// The places to look for the Piper binary, in order of preference.
pub fn piper_binary_candidates(cwd: &Option<String>, data_dir: &Option<String>) -> (r: Vec<String>)
    ensures
        r@.map_values(|s: String| s@) == spec_piper_binary_candidates(*cwd, *data_dir),
{
    let mut r: Vec<String> = Vec::new();
    if let Some(c) = cwd {
        r.push(venv_piper_under(c.as_str()));
    }
    if let Some(d) = data_dir {
        let app = join_path(d.as_str(), "insight-reader");
        r.push(venv_piper_under(app.as_str()));
    }
    assert(r@.map_values(|s: String| s@) =~= spec_piper_binary_candidates(*cwd, *data_dir));
    r
}

/// The Piper binary named by a `which piper` lookup: its trimmed output,
/// when the lookup succeeded and printed something.
pub fn piper_on_path(success: bool, stdout: &str) -> (r: Option<String>)
    ensures
        r is Some <==> success && text::trim(stdout@).len() > 0,
        r is Some ==> r.unwrap()@ == text::trim(stdout@),
{
    if !success {
        return None;
    }
    let t = trim_chars(to_chars(stdout).as_slice());
    if t.len() == 0 {
        None
    } else {
        Some(string_of(t.as_slice()))
    }
}

/// The Piper binary assumed when none is found (it fails validation).
pub fn fallback_piper_binary(data_dir: &Option<String>) -> (r: String)
    ensures
        r@ == venv_piper(app_dir(data_or_tmp(*data_dir))),
{
    let base = data_or_tmp_string(data_dir);
    let app = join_path(base.as_str(), "insight-reader");
    venv_piper_under(app.as_str())
}

/// The model to use: the selected voice, or the default one.
pub fn model_name(selected: &Option<String>) -> (r: String)
    ensures
        r@ == (match *selected {
            Some(s) => s@,
            None => default_model_name(),
        }),
{
    match selected {
        Some(s) => s.clone(),
        None => "en_US-lessac-medium".to_owned(),
    }
}

/// The places to look for the model `name`, in order of preference.
pub fn model_candidates(cwd: &Option<String>, data_dir: &Option<String>, name: &str) -> (r: Vec<String>)
    ensures
        r@.map_values(|s: String| s@) == spec_model_candidates(*cwd, *data_dir, name@),
{
    let mut r: Vec<String> = Vec::new();
    if let Some(c) = cwd {
        r.push(model_under(c.as_str(), name));
    }
    if let Some(d) = data_dir {
        let app = join_path(d.as_str(), "insight-reader");
        let flat = model_under(app.as_str(), name);
        let own = join_path(flat.as_str(), name);
        r.push(flat);
        r.push(own);
    }
    assert(r@.map_values(|s: String| s@) =~= spec_model_candidates(*cwd, *data_dir, name@));
    r
}

/// The model assumed when none is found (it fails validation).
pub fn fallback_model(data_dir: &Option<String>, name: &str) -> (r: String)
    ensures
        r@ == model_in(app_dir(data_or_tmp(*data_dir)), name@),
{
    let base = data_or_tmp_string(data_dir);
    let app = join_path(base.as_str(), "insight-reader");
    model_under(app.as_str(), name)
}

/// The model file: the model path with the ".onnx" extension.
pub fn model_with_extension(path: &str) -> (r: String)
    ensures
        r@ == with_extension(path@, "onnx"@),
{
    replace_extension(path, "onnx")
}

/// The model file of a model path with a file name ends in ".onnx".
pub proof fn lemma_model_file_is_onnx(path: Seq<char>)
    requires
        crate::paths::file_name(path) is Some,
    ensures
        text::ends_with(with_extension(path, "onnx"@), ".onnx"@),
{
    let r = with_extension(path, "onnx"@);
    reveal_strlit("onnx");
    reveal_strlit(".onnx");
    assert(r.skip(r.len() - 5) =~= ".onnx"@);
}

/// The outcome of the checks made before the provider starts: the binary
/// must be a file, then the model file must be.
pub fn check_piper_paths(piper_bin: &str, bin_is_file: bool, model_file: &str, model_is_file: bool) -> (r: Result<(), TTSError>)
    ensures
        bin_is_file && model_is_file <==> r is Ok,
        !bin_is_file ==> (r matches Err(TTSError::ProcessError(m)) && m@ == "Piper binary not found at "@ + piper_bin@),
        bin_is_file && !model_is_file ==> (r matches Err(TTSError::ProcessError(m))
            && m@ == "Piper model (.onnx) not found at "@ + model_file@),
{
    if !bin_is_file {
        let mut m = "Piper binary not found at ".to_owned();
        push_chars(&mut m, to_chars(piper_bin).as_slice());
        return Err(TTSError::ProcessError(m));
    }
    if !model_is_file {
        let mut m = "Piper model (.onnx) not found at ".to_owned();
        push_chars(&mut m, to_chars(model_file).as_slice());
        return Err(TTSError::ProcessError(m));
    }
    Ok(())
}

/// The text handed to Piper: trimmed; empty text is refused.
pub fn prepare_text(text: &str) -> (r: Result<String, TTSError>)
    ensures
        text::trim(text@).len() == 0 <==> r is Err,
        r is Ok ==> r.unwrap()@ == text::trim(text@),
        r is Err ==> (r matches Err(TTSError::ProcessError(m)) && m@ == "Cannot synthesize empty text"@),
{
    let t = trim_chars(to_chars(text).as_slice());
    if t.len() == 0 {
        Err(TTSError::ProcessError("Cannot synthesize empty text".to_owned()))
    } else {
        Ok(string_of(t.as_slice()))
    }
}

/// How an exit code is printed: "Some(code)" or "None".
pub open spec fn exit_code_text(code: Option<i32>) -> Seq<char> {
    match code {
        Some(c) => "Some("@ + text::signed_decimal(c as int) + ")"@,
        None => "None"@,
    }
}

/// The audio or the error a finished Piper run gives.
pub open spec fn spec_speech_from_output(success: bool, exit_code: Option<i32>, stderr: Seq<char>, stdout: Seq<u8>) -> Result<Seq<i16>, Seq<char>> {
    if !success {
        Err("Piper failed with code "@ + exit_code_text(exit_code) + ": "@ + text::trim(stderr))
    } else if stdout.len() == 0 {
        if text::trim(stderr).len() == 0 {
            Err("No audio data generated by piper"@)
        } else {
            Err("No audio data generated by piper. stderr: "@ + text::trim(stderr))
        }
    } else {
        Ok(pcm_samples(stdout))
    }
}

/// The audio of a finished Piper run (its standard output, 16-bit PCM), or
/// the error it reports: a failed run, or a run that produced no audio.
pub fn speech_from_output(success: bool, exit_code: Option<i32>, stderr: &str, stdout: &[u8]) -> (r: Result<Vec<i16>, TTSError>)
    ensures
        r is Ok <==> spec_speech_from_output(success, exit_code, stderr@, stdout@) is Ok,
        r is Ok ==> r.unwrap()@ == spec_speech_from_output(success, exit_code, stderr@, stdout@)->Ok_0,
        r is Err ==> (r matches Err(TTSError::ProcessError(m))
            && m@ == spec_speech_from_output(success, exit_code, stderr@, stdout@)->Err_0),
{
    let err = trim_chars(to_chars(stderr).as_slice());
    if !success {
        let mut m = "Piper failed with code ".to_owned();
        match exit_code {
            Some(c) => {
                push_chars(&mut m, &['S', 'o', 'm', 'e', '(']);
                push_signed_decimal(&mut m, c as i64);
                push_chars(&mut m, &[')']);
                assert(m@ =~= "Piper failed with code "@ + exit_code_text(exit_code)) by {
                    reveal_strlit("Some(");
                    reveal_strlit(")");
                }
            },
            None => {
                push_chars(&mut m, &['N', 'o', 'n', 'e']);
                assert(m@ =~= "Piper failed with code "@ + exit_code_text(exit_code)) by {
                    reveal_strlit("None");
                }
            },
        }
        push_chars(&mut m, &[':', ' ']);
        push_chars(&mut m, err.as_slice());
        assert(m@ =~= "Piper failed with code "@ + exit_code_text(exit_code) + ": "@ + text::trim(stderr@)) by {
            reveal_strlit(": ");
        }
        return Err(TTSError::ProcessError(m));
    }
    if stdout.len() == 0 {
        if err.len() == 0 {
            return Err(TTSError::ProcessError("No audio data generated by piper".to_owned()));
        }
        let mut m = "No audio data generated by piper. stderr: ".to_owned();
        push_chars(&mut m, err.as_slice());
        return Err(TTSError::ProcessError(m));
    }
    Ok(pcm_to_samples(stdout))
}

/// A voice downloaded into the user's data directory is among the places
/// searched for its model: its model path (as the download gives it) is one
/// of the candidates for its key.
pub proof fn lemma_downloaded_voice_found(cwd: Option<String>, data_dir: String, key: Seq<char>)
    ensures
        spec_model_candidates(cwd, Some(data_dir), key).contains(
            path_join(crate::voices::download::voice_dir(crate::voices::download::models_dir(data_dir@), key), key),
        ),
{
    let c = spec_model_candidates(cwd, Some(data_dir), key);
    let k: int = if cwd is Some { 2 } else { 1 };
    assert(c[k] == path_join(model_in(app_dir(data_dir@), key), key));
}

} // verus!
