//! Domain types shared across the crate.
use vstd::prelude::*;

verus! {

/// The speech engine in use.
#[derive(Debug, Clone, Copy, PartialEq, Eq, Structural)]
pub enum TTSBackend {
    Piper,
    AwsPolly,
}

/// The text recognition engine used for screenshots.
#[derive(Debug, Clone, Copy, PartialEq, Eq, Structural)]
pub enum OCRBackend {
    Default,
    BetterOCR,
}

/// Log verbosity chosen by the user.
#[derive(Debug, Clone, Copy, PartialEq, Eq, Structural)]
pub enum LogLevel {
    Error,
    Warn,
    Info,
    Debug,
    Trace,
}

/// Playback state shown by the main window.
#[derive(Debug, Clone, Copy, PartialEq, Eq, Structural)]
pub enum PlaybackState {
    Stopped,
    Playing,
    Paused,
}

/// Language information for a voice.
#[derive(Debug, Clone)]
pub struct LanguageInfo {
    pub code: String,
    pub family: String,
    pub region: String,
    pub name_native: String,
    pub name_english: String,
    pub country_english: String,
}

impl LanguageInfo {
    /// A field-by-field copy.
    pub fn duplicate(&self) -> (r: LanguageInfo)
        ensures
            r == *self,
    {
        LanguageInfo {
            code: self.code.clone(),
            family: self.family.clone(),
            region: self.region.clone(),
            name_native: self.name_native.clone(),
            name_english: self.name_english.clone(),
            country_english: self.country_english.clone(),
        }
    }
}

/// File information for voice model files.
#[derive(Debug, Clone)]
pub struct FileInfo {
    pub size_bytes: u64,
    pub md5_digest: String,
}

/// Voice metadata from the piper-voices repository.
///
/// The maps of the published JSON are held as lists of (key, value) pairs.
#[derive(Debug, Clone)]
pub struct VoiceInfo {
    pub key: String,
    pub name: String,
    pub language: LanguageInfo,
    pub quality: String,
    pub num_speakers: u32,
    pub speaker_id_map: Vec<(String, u32)>,
    pub files: Vec<(String, FileInfo)>,
    pub aliases: Vec<String>,
}

impl FileInfo {
    /// A field-by-field copy.
    pub fn duplicate(&self) -> (r: FileInfo)
        ensures
            r == *self,
    {
        FileInfo { size_bytes: self.size_bytes, md5_digest: self.md5_digest.clone() }
    }
}

/// Voice metadata from AWS Polly.
#[derive(Debug, Clone)]
pub struct PollyVoiceInfo {
    /// AWS voice id (e.g. "Matthew").
    pub id: String,
    pub name: String,
    pub language: LanguageInfo,
    /// "Male", "Female" or "Unknown".
    pub gender: String,
    /// Engine name (e.g. "Neural").
    pub engine: String,
}

/// The operating system a function's behaviour depends on.
#[derive(Debug, Clone, Copy, PartialEq, Eq, Structural)]
pub enum Platform {
    Linux,
    MacOs,
    Windows,
}

} // verus!
