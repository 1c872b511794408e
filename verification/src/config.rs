//! Persistent configuration of Insight Reader.
//!
//! The configuration is a small JSON object
//! (`~/.config/insight-reader/config.json`), for example
//! `{ "voice_provider": "piper", "log_level": "INFO" }`.
//! This module decides what each setting reads as, and what is written back
//! when a setting changes; reading and writing the file is left to the caller,
//! which hands over the outcome of the read as a [`LoadedConfig`].
use vstd::prelude::*;

use crate::model::{LogLevel, OCRBackend, TTSBackend};
use crate::text;
use crate::text::{chars_eq, push_chars, to_chars, upper_chars};

verus! {

/// The raw contents of the configuration file. Every field may be absent.
#[derive(Debug, Clone)]
pub struct RawConfig {
    /// Voice provider name ("piper" or "polly").
    pub voice_provider: Option<String>,
    /// Log level name ("ERROR", "WARN", "INFO", "DEBUG", "TRACE").
    pub log_level: Option<String>,
    /// Whether Natural Reading is enabled.
    pub text_cleanup_enabled: Option<bool>,
    /// Selected Piper voice key (e.g. "en_US-lessac-medium").
    pub selected_voice: Option<String>,
    /// Selected AWS Polly voice id (e.g. "Matthew").
    pub selected_polly_voice: Option<String>,
    /// OCR backend name ("default" or "better_ocr").
    pub ocr_backend: Option<String>,
    /// Whether the global hotkey is enabled.
    pub hotkey_enabled: Option<bool>,
    /// Hotkey modifiers, comma separated ("command", "shift", "alt", "control").
    pub hotkey_modifiers: Option<String>,
    /// Hotkey key ("r", "t", "s", "space").
    pub hotkey_key: Option<String>,
}

impl RawConfig {
    /// The empty configuration (every field absent).
    pub fn empty() -> (r: RawConfig)
        ensures
            r == empty_config(),
    {
        RawConfig {
            voice_provider: None,
            log_level: None,
            text_cleanup_enabled: None,
            selected_voice: None,
            selected_polly_voice: None,
            ocr_backend: None,
            hotkey_enabled: None,
            hotkey_modifiers: None,
            hotkey_key: None,
        }
    }
}

pub open spec fn empty_config() -> RawConfig {
    RawConfig {
        voice_provider: None,
        log_level: None,
        text_cleanup_enabled: None,
        selected_voice: None,
        selected_polly_voice: None,
        ocr_backend: None,
        hotkey_enabled: None,
        hotkey_modifiers: None,
        hotkey_key: None,
    }
}

/// Why the configuration file could not be read or written.
#[derive(Debug, Clone)]
pub enum ConfigError {
    /// A file system error, with its message.
    Io(String),
    /// A JSON (de)serialisation error, with its message.
    Json(String),
}

impl ConfigError {
    /// The message shown for the error ("IO error: ..." or "JSON error: ...").
    pub fn message(&self) -> (r: String)
        ensures
            r@ == (match *self {
                ConfigError::Io(e) => seq!['I', 'O', ' ', 'e', 'r', 'r', 'o', 'r', ':', ' '] + e@,
                ConfigError::Json(e) => seq!['J', 'S', 'O', 'N', ' ', 'e', 'r', 'r', 'o', 'r', ':', ' '] + e@,
            }),
    {
        let mut r = String::new();
        match self {
            ConfigError::Io(e) => {
                push_chars(&mut r, &['I', 'O', ' ', 'e', 'r', 'r', 'o', 'r', ':', ' ']);
                let v = to_chars(e.as_str());
                push_chars(&mut r, v.as_slice());
            },
            ConfigError::Json(e) => {
                push_chars(&mut r, &['J', 'S', 'O', 'N', ' ', 'e', 'r', 'r', 'o', 'r', ':', ' ']);
                let v = to_chars(e.as_str());
                push_chars(&mut r, v.as_slice());
            },
        }
        r
    }
}

/// The outcome of reading the configuration file. A missing file reads as
/// `Ok(RawConfig::empty())`.
pub type LoadedConfig = Result<RawConfig, ConfigError>;

// ----------------------------------------------------------------------------
// Names of the settings
// ----------------------------------------------------------------------------

pub open spec fn backend_name(b: TTSBackend) -> Seq<char> {
    match b {
        TTSBackend::Piper => seq!['p', 'i', 'p', 'e', 'r'],
        TTSBackend::AwsPolly => seq!['p', 'o', 'l', 'l', 'y'],
    }
}

pub open spec fn backend_from_name(s: Seq<char>) -> Option<TTSBackend> {
    if s == backend_name(TTSBackend::Piper) {
        Some(TTSBackend::Piper)
    } else if s == backend_name(TTSBackend::AwsPolly) {
        Some(TTSBackend::AwsPolly)
    } else {
        None
    }
}

pub open spec fn log_level_name(l: LogLevel) -> Seq<char> {
    match l {
        LogLevel::Error => seq!['E', 'R', 'R', 'O', 'R'],
        LogLevel::Warn => seq!['W', 'A', 'R', 'N'],
        LogLevel::Info => seq!['I', 'N', 'F', 'O'],
        LogLevel::Debug => seq!['D', 'E', 'B', 'U', 'G'],
        LogLevel::Trace => seq!['T', 'R', 'A', 'C', 'E'],
    }
}

/// Log level names are read without regard to ASCII case; "WARNING" is
/// accepted as well as "WARN".
pub open spec fn log_level_from_name(s: Seq<char>) -> Option<LogLevel> {
    let u = text::upper_seq(s);
    if u == log_level_name(LogLevel::Error) {
        Some(LogLevel::Error)
    } else if u == log_level_name(LogLevel::Warn) || u == seq!['W', 'A', 'R', 'N', 'I', 'N', 'G'] {
        Some(LogLevel::Warn)
    } else if u == log_level_name(LogLevel::Info) {
        Some(LogLevel::Info)
    } else if u == log_level_name(LogLevel::Debug) {
        Some(LogLevel::Debug)
    } else if u == log_level_name(LogLevel::Trace) {
        Some(LogLevel::Trace)
    } else {
        None
    }
}

pub open spec fn ocr_backend_name(b: OCRBackend) -> Seq<char> {
    match b {
        OCRBackend::Default => seq!['d', 'e', 'f', 'a', 'u', 'l', 't'],
        OCRBackend::BetterOCR => seq!['b', 'e', 't', 't', 'e', 'r', '_', 'o', 'c', 'r'],
    }
}

pub open spec fn ocr_backend_from_name(s: Seq<char>) -> Option<OCRBackend> {
    if s == ocr_backend_name(OCRBackend::Default) {
        Some(OCRBackend::Default)
    } else if s == ocr_backend_name(OCRBackend::BetterOCR) {
        Some(OCRBackend::BetterOCR)
    } else {
        None
    }
}

fn backend_from_str(s: &str) -> (r: Option<TTSBackend>)
    ensures
        r == backend_from_name(s@),
{
    let v = to_chars(s);
    if chars_eq(v.as_slice(), &['p', 'i', 'p', 'e', 'r']) {
        Some(TTSBackend::Piper)
    } else if chars_eq(v.as_slice(), &['p', 'o', 'l', 'l', 'y']) {
        Some(TTSBackend::AwsPolly)
    } else {
        None
    }
}

fn backend_to_str(backend: TTSBackend) -> (r: &'static str)
    ensures
        r@ == backend_name(backend),
{
    match backend {
        TTSBackend::Piper => {
            proof {
                reveal_strlit("piper");
            }
            "piper"
        },
        TTSBackend::AwsPolly => {
            proof {
                reveal_strlit("polly");
            }
            "polly"
        },
    }
}

fn log_level_from_str(s: &str) -> (r: Option<LogLevel>)
    ensures
        r == log_level_from_name(s@),
{
    let v = to_chars(s);
    let u = upper_chars(v.as_slice());
    let u = u.as_slice();
    if chars_eq(u, &['E', 'R', 'R', 'O', 'R']) {
        Some(LogLevel::Error)
    } else if chars_eq(u, &['W', 'A', 'R', 'N']) || chars_eq(u, &['W', 'A', 'R', 'N', 'I', 'N', 'G']) {
        Some(LogLevel::Warn)
    } else if chars_eq(u, &['I', 'N', 'F', 'O']) {
        Some(LogLevel::Info)
    } else if chars_eq(u, &['D', 'E', 'B', 'U', 'G']) {
        Some(LogLevel::Debug)
    } else if chars_eq(u, &['T', 'R', 'A', 'C', 'E']) {
        Some(LogLevel::Trace)
    } else {
        None
    }
}

fn log_level_to_str(level: LogLevel) -> (r: &'static str)
    ensures
        r@ == log_level_name(level),
{
    match level {
        LogLevel::Error => {
            proof {
                reveal_strlit("ERROR");
            }
            "ERROR"
        },
        LogLevel::Warn => {
            proof {
                reveal_strlit("WARN");
            }
            "WARN"
        },
        LogLevel::Info => {
            proof {
                reveal_strlit("INFO");
            }
            "INFO"
        },
        LogLevel::Debug => {
            proof {
                reveal_strlit("DEBUG");
            }
            "DEBUG"
        },
        LogLevel::Trace => {
            proof {
                reveal_strlit("TRACE");
            }
            "TRACE"
        },
    }
}

fn ocr_backend_from_str(s: &str) -> (r: Option<OCRBackend>)
    ensures
        r == ocr_backend_from_name(s@),
{
    let v = to_chars(s);
    if chars_eq(v.as_slice(), &['d', 'e', 'f', 'a', 'u', 'l', 't']) {
        Some(OCRBackend::Default)
    } else if chars_eq(v.as_slice(), &['b', 'e', 't', 't', 'e', 'r', '_', 'o', 'c', 'r']) {
        Some(OCRBackend::BetterOCR)
    } else {
        None
    }
}

fn ocr_backend_to_str(backend: OCRBackend) -> (r: &'static str)
    ensures
        r@ == ocr_backend_name(backend),
{
    match backend {
        OCRBackend::Default => {
            proof {
                reveal_strlit("default");
            }
            "default"
        },
        OCRBackend::BetterOCR => {
            proof {
                reveal_strlit("better_ocr");
            }
            "better_ocr"
        },
    }
}

// ----------------------------------------------------------------------------
// What each setting reads as
// ----------------------------------------------------------------------------

pub open spec fn spec_load_voice_provider(loaded: LoadedConfig) -> TTSBackend {
    match loaded {
        Ok(cfg) => match cfg.voice_provider {
            Some(s) => match backend_from_name(s@) {
                Some(b) => b,
                None => TTSBackend::Piper,
            },
            None => TTSBackend::Piper,
        },
        Err(_) => TTSBackend::Piper,
    }
}

pub open spec fn spec_load_log_level(loaded: LoadedConfig) -> LogLevel {
    match loaded {
        Ok(cfg) => match cfg.log_level {
            Some(s) => match log_level_from_name(s@) {
                Some(l) => l,
                None => LogLevel::Info,
            },
            None => LogLevel::Info,
        },
        Err(_) => LogLevel::Info,
    }
}

pub open spec fn spec_load_text_cleanup_enabled(loaded: LoadedConfig) -> bool {
    match loaded {
        Ok(cfg) => match cfg.text_cleanup_enabled {
            Some(b) => b,
            None => false,
        },
        Err(_) => false,
    }
}

/// A stored string, with the empty string read as absent.
pub open spec fn non_empty(o: Option<String>) -> Option<String> {
    match o {
        Some(s) => if s@.len() == 0 {
            None
        } else {
            Some(s)
        },
        None => None,
    }
}

pub open spec fn spec_load_selected_voice(loaded: LoadedConfig) -> Option<String> {
    match loaded {
        Ok(cfg) => non_empty(cfg.selected_voice),
        Err(_) => None,
    }
}

pub open spec fn spec_load_selected_polly_voice(loaded: LoadedConfig) -> Option<String> {
    match loaded {
        Ok(cfg) => non_empty(cfg.selected_polly_voice),
        Err(_) => None,
    }
}

pub open spec fn spec_load_ocr_backend(loaded: LoadedConfig) -> OCRBackend {
    match loaded {
        Ok(cfg) => match cfg.ocr_backend {
            Some(s) => match ocr_backend_from_name(s@) {
                Some(b) => b,
                None => OCRBackend::Default,
            },
            None => OCRBackend::Default,
        },
        Err(_) => OCRBackend::Default,
    }
}

/// The persisted voice provider; Piper when it is not set, not valid, or the
/// file could not be read.
pub fn load_voice_provider(loaded: &LoadedConfig) -> (backend: TTSBackend)
    ensures
        backend == spec_load_voice_provider(*loaded),
{
    match loaded {
        Ok(cfg) => match &cfg.voice_provider {
            Some(s) => match backend_from_str(s.as_str()) {
                Some(b) => b,
                None => TTSBackend::Piper,
            },
            None => TTSBackend::Piper,
        },
        Err(_) => TTSBackend::Piper,
    }
}

/// The persisted log level; `Info` when it is not set, not valid, or the file
/// could not be read.
pub fn load_log_level(loaded: &LoadedConfig) -> (level: LogLevel)
    ensures
        level == spec_load_log_level(*loaded),
{
    match loaded {
        Ok(cfg) => match &cfg.log_level {
            Some(s) => match log_level_from_str(s.as_str()) {
                Some(l) => l,
                None => LogLevel::Info,
            },
            None => LogLevel::Info,
        },
        Err(_) => LogLevel::Info,
    }
}

/// Whether Natural Reading is enabled; `false` unless set.
pub fn load_text_cleanup_enabled(loaded: &LoadedConfig) -> (enabled: bool)
    ensures
        enabled == spec_load_text_cleanup_enabled(*loaded),
{
    match loaded {
        Ok(cfg) => match cfg.text_cleanup_enabled {
            Some(b) => b,
            None => false,
        },
        Err(_) => false,
    }
}

fn non_empty_clone(o: &Option<String>) -> (r: Option<String>)
    ensures
        r == non_empty(*o),
{
    match o {
        Some(s) => if s.as_str().is_empty() {
            None
        } else {
            Some(s.clone())
        },
        None => None,
    }
}

/// The persisted Piper voice key, if set and not empty.
pub fn load_selected_voice(loaded: &LoadedConfig) -> (voice: Option<String>)
    ensures
        voice == spec_load_selected_voice(*loaded),
{
    match loaded {
        Ok(cfg) => non_empty_clone(&cfg.selected_voice),
        Err(_) => None,
    }
}

/// The persisted AWS Polly voice, if set and not empty.
pub fn load_selected_polly_voice(loaded: &LoadedConfig) -> (voice: Option<String>)
    ensures
        voice == spec_load_selected_polly_voice(*loaded),
{
    match loaded {
        Ok(cfg) => non_empty_clone(&cfg.selected_polly_voice),
        Err(_) => None,
    }
}

/// The persisted OCR backend; `Default` unless validly set.
pub fn load_ocr_backend(loaded: &LoadedConfig) -> (backend: OCRBackend)
    ensures
        backend == spec_load_ocr_backend(*loaded),
{
    match loaded {
        Ok(cfg) => match &cfg.ocr_backend {
            Some(s) => match ocr_backend_from_str(s.as_str()) {
                Some(b) => b,
                None => OCRBackend::Default,
            },
            None => OCRBackend::Default,
        },
        Err(_) => OCRBackend::Default,
    }
}

// ----------------------------------------------------------------------------
// What is written back
// ----------------------------------------------------------------------------

pub open spec fn spec_or_default(loaded: LoadedConfig) -> RawConfig {
    match loaded {
        Ok(cfg) => cfg,
        Err(_) => empty_config(),
    }
}

/// `cfg` with every empty string field dropped.
pub open spec fn spec_normalize(cfg: RawConfig) -> RawConfig {
    RawConfig {
        voice_provider: non_empty(cfg.voice_provider),
        log_level: non_empty(cfg.log_level),
        text_cleanup_enabled: cfg.text_cleanup_enabled,
        selected_voice: non_empty(cfg.selected_voice),
        selected_polly_voice: non_empty(cfg.selected_polly_voice),
        ocr_backend: non_empty(cfg.ocr_backend),
        hotkey_enabled: cfg.hotkey_enabled,
        hotkey_modifiers: non_empty(cfg.hotkey_modifiers),
        hotkey_key: non_empty(cfg.hotkey_key),
    }
}

/// The configuration that was read, or the empty one when reading failed
/// (saving a setting then starts afresh).
pub fn load_or_default_config(loaded: LoadedConfig) -> (cfg: RawConfig)
    ensures
        cfg == spec_or_default(loaded),
{
    match loaded {
        Ok(cfg) => cfg,
        Err(_) => RawConfig::empty(),
    }
}

fn drop_empty(o: Option<String>) -> (r: Option<String>)
    ensures
        r == non_empty(o),
{
    match o {
        Some(s) => if s.as_str().is_empty() {
            None
        } else {
            Some(s)
        },
        None => None,
    }
}

/// The configuration as it is written to disk: empty strings are dropped.
pub fn normalize_config(cfg: RawConfig) -> (r: RawConfig)
    ensures
        r == spec_normalize(cfg),
{
    RawConfig {
        voice_provider: drop_empty(cfg.voice_provider),
        log_level: drop_empty(cfg.log_level),
        text_cleanup_enabled: cfg.text_cleanup_enabled,
        selected_voice: drop_empty(cfg.selected_voice),
        selected_polly_voice: drop_empty(cfg.selected_polly_voice),
        ocr_backend: drop_empty(cfg.ocr_backend),
        hotkey_enabled: cfg.hotkey_enabled,
        hotkey_modifiers: drop_empty(cfg.hotkey_modifiers),
        hotkey_key: drop_empty(cfg.hotkey_key),
    }
}

/// `cfg` is `loaded` (or the empty configuration) with the voice provider set
/// to the name of `backend`, normalised.
pub open spec fn is_saved_voice_provider(loaded: LoadedConfig, backend: TTSBackend, cfg: RawConfig) -> bool {
    &&& cfg.voice_provider is Some
    &&& cfg.voice_provider.unwrap()@ == backend_name(backend)
    &&& cfg == spec_normalize(RawConfig { voice_provider: cfg.voice_provider, ..spec_or_default(loaded) })
}

/// `cfg` is `loaded` (or the empty configuration) with the log level set to
/// the name of `level`, normalised.
pub open spec fn is_saved_log_level(loaded: LoadedConfig, level: LogLevel, cfg: RawConfig) -> bool {
    &&& cfg.log_level is Some
    &&& cfg.log_level.unwrap()@ == log_level_name(level)
    &&& cfg == spec_normalize(RawConfig { log_level: cfg.log_level, ..spec_or_default(loaded) })
}

/// `cfg` is `loaded` (or the empty configuration) with the OCR backend set to
/// the name of `backend`, normalised.
pub open spec fn is_saved_ocr_backend(loaded: LoadedConfig, backend: OCRBackend, cfg: RawConfig) -> bool {
    &&& cfg.ocr_backend is Some
    &&& cfg.ocr_backend.unwrap()@ == ocr_backend_name(backend)
    &&& cfg == spec_normalize(RawConfig { ocr_backend: cfg.ocr_backend, ..spec_or_default(loaded) })
}

/// The configuration to write after choosing a voice provider.
pub fn save_voice_provider(loaded: LoadedConfig, backend: TTSBackend) -> (cfg: RawConfig)
    ensures
        is_saved_voice_provider(loaded, backend, cfg),
{
    let mut cfg = load_or_default_config(loaded);
    cfg.voice_provider = Some(backend_to_str(backend).to_owned());
    proof {
        reveal_strlit("piper");
        reveal_strlit("polly");
    }
    normalize_config(cfg)
}

/// The configuration to write after choosing a log level.
pub fn save_log_level(loaded: LoadedConfig, level: LogLevel) -> (cfg: RawConfig)
    ensures
        is_saved_log_level(loaded, level, cfg),
{
    let mut cfg = load_or_default_config(loaded);
    cfg.log_level = Some(log_level_to_str(level).to_owned());
    normalize_config(cfg)
}

/// The configuration to write after toggling Natural Reading.
pub fn save_text_cleanup_enabled(loaded: LoadedConfig, enabled: bool) -> (cfg: RawConfig)
    ensures
        cfg == spec_normalize(RawConfig { text_cleanup_enabled: Some(enabled), ..spec_or_default(loaded) }),
{
    let mut cfg = load_or_default_config(loaded);
    cfg.text_cleanup_enabled = Some(enabled);
    normalize_config(cfg)
}

/// The configuration to write after selecting a Piper voice.
pub fn save_selected_voice(loaded: LoadedConfig, voice_key: String) -> (cfg: RawConfig)
    ensures
        cfg == spec_normalize(RawConfig { selected_voice: Some(voice_key), ..spec_or_default(loaded) }),
{
    let mut cfg = load_or_default_config(loaded);
    cfg.selected_voice = Some(voice_key);
    normalize_config(cfg)
}

/// The configuration to write after selecting an AWS Polly voice.
pub fn save_selected_polly_voice(loaded: LoadedConfig, voice_id: String) -> (cfg: RawConfig)
    ensures
        cfg == spec_normalize(RawConfig { selected_polly_voice: Some(voice_id), ..spec_or_default(loaded) }),
{
    let mut cfg = load_or_default_config(loaded);
    cfg.selected_polly_voice = Some(voice_id);
    normalize_config(cfg)
}

/// The configuration to write after choosing an OCR backend.
pub fn save_ocr_backend(loaded: LoadedConfig, backend: OCRBackend) -> (cfg: RawConfig)
    ensures
        is_saved_ocr_backend(loaded, backend, cfg),
{
    let mut cfg = load_or_default_config(loaded);
    cfg.ocr_backend = Some(ocr_backend_to_str(backend).to_owned());
    normalize_config(cfg)
}

// ----------------------------------------------------------------------------
// Laws
// ----------------------------------------------------------------------------

/// Every setting as it reads from an outcome of loading the configuration:
/// voice provider, log level, Natural Reading, Piper voice, AWS Polly voice
/// and OCR backend.
pub open spec fn settings(loaded: LoadedConfig) -> (
    TTSBackend,
    LogLevel,
    bool,
    Option<String>,
    Option<String>,
    OCRBackend,
) {
    (
        spec_load_voice_provider(loaded),
        spec_load_log_level(loaded),
        spec_load_text_cleanup_enabled(loaded),
        spec_load_selected_voice(loaded),
        spec_load_selected_polly_voice(loaded),
        spec_load_ocr_backend(loaded),
    )
}

/// A stored name reads back as the value it names.
pub proof fn lemma_names_round_trip(b: TTSBackend, l: LogLevel, o: OCRBackend)
    ensures
        backend_from_name(backend_name(b)) == Some(b),
        log_level_from_name(log_level_name(l)) == Some(l),
        ocr_backend_from_name(ocr_backend_name(o)) == Some(o),
{
    assert(text::upper_seq(log_level_name(l)) =~= log_level_name(l));
}

/// Log level names are read without regard to ASCII case.
pub proof fn lemma_log_level_case_insensitive(s: Seq<char>)
    ensures
        log_level_from_name(s) == log_level_from_name(text::upper_seq(s)),
{
    let u = text::upper_seq(s);
    assert(text::upper_seq(u) =~= u) by {
        assert forall|i: int| 0 <= i < u.len() implies text::ascii_upper(u[i]) == u[i] by {}
    }
}

/// Writing the configuration back drops empty strings, and no setting reads
/// differently for it.
pub proof fn lemma_normalize_keeps_settings(cfg: RawConfig)
    ensures
        settings(Ok(spec_normalize(cfg))) == settings(Ok(cfg)),
{
    if let Some(s) = cfg.voice_provider {
        assert(s@.len() == 0 ==> backend_from_name(s@) is None);
    }
    if let Some(s) = cfg.log_level {
        assert(s@.len() == 0 ==> text::upper_seq(s@).len() == 0);
    }
    if let Some(s) = cfg.ocr_backend {
        assert(s@.len() == 0 ==> ocr_backend_from_name(s@) is None);
    }
}

/// Saving a voice provider: it reads back as saved, and every other setting
/// reads as before.
pub proof fn lemma_save_voice_provider(loaded: LoadedConfig, backend: TTSBackend, saved: RawConfig)
    requires
        is_saved_voice_provider(loaded, backend, saved),
    ensures
        settings(Ok(saved)) == (backend, settings(loaded).1, settings(loaded).2, settings(loaded).3, settings(loaded).4, settings(loaded).5),
{
    lemma_names_round_trip(backend, LogLevel::Info, OCRBackend::Default);
    let base = RawConfig { voice_provider: saved.voice_provider, ..spec_or_default(loaded) };
    lemma_normalize_keeps_settings(base);
}

/// Saving a log level: it reads back as saved, and every other setting reads
/// as before.
pub proof fn lemma_save_log_level(loaded: LoadedConfig, level: LogLevel, saved: RawConfig)
    requires
        is_saved_log_level(loaded, level, saved),
    ensures
        settings(Ok(saved)) == (settings(loaded).0, level, settings(loaded).2, settings(loaded).3, settings(loaded).4, settings(loaded).5),
{
    lemma_names_round_trip(TTSBackend::Piper, level, OCRBackend::Default);
    let base = RawConfig { log_level: saved.log_level, ..spec_or_default(loaded) };
    lemma_normalize_keeps_settings(base);
}

/// Toggling Natural Reading: it reads back as saved, and every other setting
/// reads as before.
pub proof fn lemma_save_text_cleanup_enabled(loaded: LoadedConfig, enabled: bool)
    ensures
        settings(Ok(spec_normalize(RawConfig { text_cleanup_enabled: Some(enabled), ..spec_or_default(loaded) })))
            == (settings(loaded).0, settings(loaded).1, enabled, settings(loaded).3, settings(loaded).4, settings(loaded).5),
{
    let base = RawConfig { text_cleanup_enabled: Some(enabled), ..spec_or_default(loaded) };
    lemma_normalize_keeps_settings(base);
}

/// Selecting a Piper voice: it reads back as saved (the empty key reads as
/// no selection), and every other setting reads as before.
pub proof fn lemma_save_selected_voice(loaded: LoadedConfig, voice_key: String)
    ensures
        settings(Ok(spec_normalize(RawConfig { selected_voice: Some(voice_key), ..spec_or_default(loaded) })))
            == (settings(loaded).0, settings(loaded).1, settings(loaded).2, non_empty(Some(voice_key)), settings(loaded).4, settings(loaded).5),
{
    let base = RawConfig { selected_voice: Some(voice_key), ..spec_or_default(loaded) };
    lemma_normalize_keeps_settings(base);
}

/// Selecting an AWS Polly voice: it reads back as saved (the empty id reads as
/// no selection), and every other setting reads as before.
pub proof fn lemma_save_selected_polly_voice(loaded: LoadedConfig, voice_id: String)
    ensures
        settings(Ok(spec_normalize(RawConfig { selected_polly_voice: Some(voice_id), ..spec_or_default(loaded) })))
            == (settings(loaded).0, settings(loaded).1, settings(loaded).2, settings(loaded).3, non_empty(Some(voice_id)), settings(loaded).5),
{
    let base = RawConfig { selected_polly_voice: Some(voice_id), ..spec_or_default(loaded) };
    lemma_normalize_keeps_settings(base);
}

/// Saving an OCR backend: it reads back as saved, and every other setting
/// reads as before.
pub proof fn lemma_save_ocr_backend(loaded: LoadedConfig, backend: OCRBackend, saved: RawConfig)
    requires
        is_saved_ocr_backend(loaded, backend, saved),
    ensures
        settings(Ok(saved)) == (settings(loaded).0, settings(loaded).1, settings(loaded).2, settings(loaded).3, settings(loaded).4, backend),
{
    lemma_names_round_trip(TTSBackend::Piper, LogLevel::Info, backend);
    let base = RawConfig { ocr_backend: saved.ocr_backend, ..spec_or_default(loaded) };
    lemma_normalize_keeps_settings(base);
}

// ----------------------------------------------------------------------------
// Location of the file
// ----------------------------------------------------------------------------

/// The configuration file under a configuration directory:
/// "insight-reader/config.json".
pub open spec fn config_file_in(config_dir: Seq<char>) -> Seq<char> {
    crate::paths::path_join(crate::paths::path_join(config_dir, "insight-reader"@), "config.json"@)
}

/// The configuration file under `config_dir`; none without a
/// configuration directory.
pub fn config_path_in(config_dir: &Option<String>) -> (r: Option<String>)
    ensures
        r is Some <==> config_dir is Some,
        r is Some ==> r.unwrap()@ == config_file_in(config_dir.unwrap()@),
{
    match config_dir {
        Some(d) => {
            let a = crate::paths::join_path(d.as_str(), "insight-reader");
            Some(crate::paths::join_path(a.as_str(), "config.json"))
        },
        None => None,
    }
}

/// The configuration file under the user's configuration directory; none
/// when there is no such directory.
pub fn config_path() -> (r: Option<String>)
    ensures
        r is Some ==> exists|d: String| r.unwrap()@ == config_file_in(d@),
{
    let dir = crate::locations::config_dir();
    let r = config_path_in(&dir);
    proof {
        if r is Some {
            let d = dir.unwrap();
            assert(r.unwrap()@ == config_file_in(d@));
        }
    }
    r
}

} // verus!
