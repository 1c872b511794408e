//! Speech providers: the errors they report, and the logic of the Piper and
//! AWS Polly providers and of the audio player they share.
use vstd::prelude::*;

pub mod audio_player;
pub mod piper;
pub mod polly;

verus! {

/// Errors that can occur during text-to-speech operations.
#[derive(Debug, Clone, PartialEq, Eq)]
pub enum TTSError {
    /// The speech process could not be started or failed.
    ProcessError(String),
    /// Audio output failed.
    AudioError(String),
    /// The provider is not configured.
    ConfigError(String),
    /// The operation is not supported.
    NotSupported(String),
}

/// The text of an error: its prefix, then its detail.
pub open spec fn tts_error_message(e: TTSError) -> Seq<char> {
    match e {
        TTSError::ProcessError(d) => "Failed to start TTS process: "@ + d@,
        TTSError::AudioError(d) => "Audio playback error: "@ + d@,
        TTSError::ConfigError(d) => "Provider not configured: "@ + d@,
        TTSError::NotSupported(d) => "Operation not supported: "@ + d@,
    }
}

impl TTSError {
    /// The message shown for this error.
    pub fn message(&self) -> (s: String)
        ensures
            s@ == tts_error_message(*self),
    {
        let (prefix, detail) = match self {
            TTSError::ProcessError(d) => ("Failed to start TTS process: ", d),
            TTSError::AudioError(d) => ("Audio playback error: ", d),
            TTSError::ConfigError(d) => ("Provider not configured: ", d),
            TTSError::NotSupported(d) => ("Operation not supported: ", d),
        };
        let mut s = prefix.to_owned();
        let dc = crate::text::to_chars(detail.as_str());
        crate::text::push_chars(&mut s, dc.as_slice());
        s
    }
}

} // verus!
