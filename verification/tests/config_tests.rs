use insight_reader::config::{
    config_path_in, load_log_level, load_ocr_backend, load_or_default_config, load_selected_polly_voice,
    load_selected_voice, load_text_cleanup_enabled, load_voice_provider, normalize_config, save_log_level,
    save_ocr_backend, save_selected_polly_voice, save_selected_voice, save_text_cleanup_enabled,
    save_voice_provider, ConfigError, LoadedConfig, RawConfig,
};
use insight_reader::model::{LogLevel, OCRBackend, TTSBackend};

fn with_provider(p: &str) -> LoadedConfig {
    let mut c = RawConfig::empty();
    c.voice_provider = Some(p.to_string());
    Ok(c)
}

fn with_level(l: &str) -> LoadedConfig {
    let mut c = RawConfig::empty();
    c.log_level = Some(l.to_string());
    Ok(c)
}

fn failed() -> LoadedConfig {
    Err(ConfigError::Json("expected value at line 1 column 1".to_string()))
}

#[test]
fn voice_provider_names() {
    assert_eq!(load_voice_provider(&with_provider("piper")), TTSBackend::Piper);
    assert_eq!(load_voice_provider(&with_provider("polly")), TTSBackend::AwsPolly);
    assert_eq!(load_voice_provider(&with_provider("Polly")), TTSBackend::Piper);
    assert_eq!(load_voice_provider(&Ok(RawConfig::empty())), TTSBackend::Piper);
    assert_eq!(load_voice_provider(&failed()), TTSBackend::Piper);
}

#[test]
fn log_level_names_ignore_case() {
    assert_eq!(load_log_level(&with_level("ERROR")), LogLevel::Error);
    assert_eq!(load_log_level(&with_level("warning")), LogLevel::Warn);
    assert_eq!(load_log_level(&with_level("Warn")), LogLevel::Warn);
    assert_eq!(load_log_level(&with_level("debug")), LogLevel::Debug);
    assert_eq!(load_log_level(&with_level("trace")), LogLevel::Trace);
    assert_eq!(load_log_level(&with_level("verbose")), LogLevel::Info);
    assert_eq!(load_log_level(&Ok(RawConfig::empty())), LogLevel::Info);
    assert_eq!(load_log_level(&failed()), LogLevel::Info);
}

#[test]
fn text_cleanup_defaults_to_off() {
    let mut c = RawConfig::empty();
    assert!(!load_text_cleanup_enabled(&Ok(c.clone())));
    c.text_cleanup_enabled = Some(true);
    assert!(load_text_cleanup_enabled(&Ok(c)));
    assert!(!load_text_cleanup_enabled(&failed()));
}

#[test]
fn empty_voice_counts_as_none() {
    let mut c = RawConfig::empty();
    c.selected_voice = Some(String::new());
    c.selected_polly_voice = Some("Joanna:Neural".to_string());
    let loaded: LoadedConfig = Ok(c);
    assert_eq!(load_selected_voice(&loaded), None);
    assert_eq!(load_selected_polly_voice(&loaded), Some("Joanna:Neural".to_string()));
    assert_eq!(load_selected_voice(&failed()), None);
}

#[test]
fn ocr_backend_names() {
    let mut c = RawConfig::empty();
    c.ocr_backend = Some("better_ocr".to_string());
    assert_eq!(load_ocr_backend(&Ok(c.clone())), OCRBackend::BetterOCR);
    c.ocr_backend = Some("default".to_string());
    assert_eq!(load_ocr_backend(&Ok(c.clone())), OCRBackend::Default);
    c.ocr_backend = Some("tesseract".to_string());
    assert_eq!(load_ocr_backend(&Ok(c)), OCRBackend::Default);
    assert_eq!(load_ocr_backend(&failed()), OCRBackend::Default);
}

#[test]
fn saving_starts_fresh_after_a_failed_read() {
    let saved = save_voice_provider(failed(), TTSBackend::AwsPolly);
    assert_eq!(saved.voice_provider, Some("polly".to_string()));
    assert_eq!(saved.log_level, None);
    assert_eq!(saved.selected_voice, None);
    assert_eq!(saved.hotkey_enabled, None);
}

#[test]
fn saving_keeps_other_settings_and_drops_empty_strings() {
    let mut c = RawConfig::empty();
    c.voice_provider = Some("polly".to_string());
    c.selected_voice = Some(String::new());
    c.text_cleanup_enabled = Some(true);
    let saved = save_log_level(Ok(c), LogLevel::Warn);
    assert_eq!(saved.log_level, Some("WARN".to_string()));
    assert_eq!(saved.voice_provider, Some("polly".to_string()));
    assert_eq!(saved.text_cleanup_enabled, Some(true));
    assert_eq!(saved.selected_voice, None);
}

#[test]
fn each_setting_reads_back_as_saved() {
    for level in [LogLevel::Error, LogLevel::Warn, LogLevel::Info, LogLevel::Debug, LogLevel::Trace] {
        let saved = save_log_level(Ok(RawConfig::empty()), level);
        assert_eq!(load_log_level(&Ok(saved)), level);
    }
    for backend in [TTSBackend::Piper, TTSBackend::AwsPolly] {
        let saved = save_voice_provider(Ok(RawConfig::empty()), backend);
        assert_eq!(load_voice_provider(&Ok(saved)), backend);
    }
    for backend in [OCRBackend::Default, OCRBackend::BetterOCR] {
        let saved = save_ocr_backend(Ok(RawConfig::empty()), backend);
        assert_eq!(load_ocr_backend(&Ok(saved)), backend);
    }
    let saved = save_text_cleanup_enabled(Ok(RawConfig::empty()), true);
    assert!(load_text_cleanup_enabled(&Ok(saved)));
    let saved = save_selected_voice(Ok(RawConfig::empty()), "en_US-lessac-medium".to_string());
    assert_eq!(load_selected_voice(&Ok(saved)), Some("en_US-lessac-medium".to_string()));
    let saved = save_selected_polly_voice(Ok(RawConfig::empty()), "Matthew:Neural".to_string());
    assert_eq!(load_selected_polly_voice(&Ok(saved)), Some("Matthew:Neural".to_string()));
}

#[test]
fn saving_an_empty_voice_removes_it() {
    let mut c = RawConfig::empty();
    c.selected_voice = Some("en_GB-alan-low".to_string());
    let saved = save_selected_voice(Ok(c), String::new());
    assert_eq!(saved.selected_voice, None);
}

#[test]
fn normalize_drops_only_empty_strings() {
    let mut c = RawConfig::empty();
    c.hotkey_key = Some(String::new());
    c.hotkey_modifiers = Some("shift".to_string());
    c.hotkey_enabled = Some(false);
    let n = normalize_config(c);
    assert_eq!(n.hotkey_key, None);
    assert_eq!(n.hotkey_modifiers, Some("shift".to_string()));
    assert_eq!(n.hotkey_enabled, Some(false));
}

#[test]
fn load_or_default_uses_empty_on_error() {
    let c = load_or_default_config(failed());
    assert_eq!(c.voice_provider, None);
    assert_eq!(c.text_cleanup_enabled, None);
    let mut raw = RawConfig::empty();
    raw.log_level = Some("DEBUG".to_string());
    assert_eq!(load_or_default_config(Ok(raw)).log_level, Some("DEBUG".to_string()));
}

#[test]
fn config_error_messages() {
    assert_eq!(ConfigError::Io("permission denied".to_string()).message(), "IO error: permission denied");
    assert_eq!(ConfigError::Json("trailing comma".to_string()).message(), "JSON error: trailing comma");
}

#[test]
fn config_file_location() {
    assert_eq!(
        config_path_in(&Some("/home/ada/.config".to_string())),
        Some("/home/ada/.config/insight-reader/config.json".to_string())
    );
    assert_eq!(
        config_path_in(&Some("/home/ada/.config/".to_string())),
        Some("/home/ada/.config/insight-reader/config.json".to_string())
    );
    assert_eq!(config_path_in(&None), None);
}
