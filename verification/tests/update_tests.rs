use insight_reader::config::RawConfig;
use insight_reader::model::{LanguageInfo, LogLevel, Platform, PlaybackState, TTSBackend, VoiceInfo};
use insight_reader::update::{
    choose_provider, format_tts_error, is_aws_credential_error, polly_pricing_url, startup, Action, Event,
    url_open_command, ProviderChoice, SkipDirection, StatusText, TtsOutcome, UiError, UiState, WindowKind,
};

fn fresh() -> UiState {
    UiState::new(None, &Ok(RawConfig::empty()))
}

fn playing() -> UiState {
    let mut s = fresh();
    s.has_provider = true;
    s.playback_state = PlaybackState::Playing;
    s
}

#[test]
fn new_state_reads_settings() {
    let mut c = RawConfig::empty();
    c.voice_provider = Some("polly".to_string());
    c.log_level = Some("debug".to_string());
    c.text_cleanup_enabled = Some(true);
    c.selected_voice = Some("en_GB-alan-low".to_string());
    let s = UiState::new(Some("hello".to_string()), &Ok(c));
    assert_eq!(s.selected_backend, TTSBackend::AwsPolly);
    assert_eq!(s.log_level, LogLevel::Debug);
    assert!(s.text_cleanup_enabled);
    assert_eq!(s.selected_voice, Some("en_GB-alan-low".to_string()));
    assert_eq!(s.pending_text, Some("hello".to_string()));
    assert_eq!(s.playback_state, PlaybackState::Stopped);
}

#[test]
fn play_pause_round_trip() {
    let mut s = playing();
    assert!(matches!(s.update(Event::PlayPause).as_slice(), [Action::Pause]));
    assert_eq!(s.playback_state, PlaybackState::Playing);
    assert!(s.update(Event::PlaybackPaused(true)).is_empty());
    assert_eq!(s.playback_state, PlaybackState::Paused);
    assert!(matches!(s.update(Event::PlayPause).as_slice(), [Action::Resume]));
    s.update(Event::PlaybackResumed(true));
    assert_eq!(s.playback_state, PlaybackState::Playing);
    s.update(Event::PlaybackPaused(false));
    assert_eq!(s.playback_state, PlaybackState::Playing);
    let mut idle = fresh();
    assert!(idle.update(Event::PlayPause).is_empty());
}

#[test]
fn skip_needs_a_provider() {
    let mut s = playing();
    assert!(matches!(s.update(Event::SkipForward).as_slice(), [Action::Skip(SkipDirection::Forward)]));
    assert!(matches!(s.update(Event::SkipBackward).as_slice(), [Action::Skip(SkipDirection::Backward)]));
    let mut idle = fresh();
    assert!(idle.update(Event::SkipForward).is_empty());
}

#[test]
fn stop_stops_and_closes() {
    let mut s = playing();
    s.is_loading = true;
    s.status_text = Some(StatusText::SynthesizingVoice);
    assert!(matches!(s.update(Event::Stop).as_slice(), [Action::StopPlayback, Action::CloseLatestWindow]));
    assert_eq!(s.playback_state, PlaybackState::Stopped);
    assert!(!s.is_loading);
    assert!(s.status_text.is_none());
}

#[test]
fn ticks() {
    let mut s = playing();
    assert!(matches!(s.update(Event::Tick { provider_active: true }).as_slice(), [Action::RefreshPlayback]));
    assert!(matches!(
        s.update(Event::Tick { provider_active: false }).as_slice(),
        [Action::RefreshPlayback, Action::CloseLatestWindow]
    ));
    assert_eq!(s.playback_state, PlaybackState::Stopped);
    s.is_loading = true;
    assert!(matches!(s.update(Event::Tick { provider_active: true }).as_slice(), [Action::AnimateLoading { bars: true }]));
    s.is_loading = false;
    s.downloading_voice = Some("v".to_string());
    assert!(matches!(s.update(Event::Tick { provider_active: true }).as_slice(), [Action::AnimateLoading { bars: false }]));
    assert!(fresh().update(Event::Tick { provider_active: false }).is_empty());
}

#[test]
fn one_settings_window_at_a_time() {
    let mut s = fresh();
    assert!(matches!(s.update(Event::Settings).as_slice(), [Action::OpenSettingsWindow]));
    s.update(Event::SettingsWindowOpened(7));
    assert_eq!(s.settings_window_id, Some(7));
    assert!(s.show_settings_modal);
    assert!(s.update(Event::Settings).is_empty());
    assert!(matches!(s.update(Event::CloseSettings).as_slice(), [Action::CloseWindow(7)]));
    assert_eq!(s.settings_window_id, None);
    assert!(!s.show_settings_modal);
    assert!(s.update(Event::CloseSettings).is_empty());
}

#[test]
fn provider_selection() {
    let mut s = fresh();
    s.error_message = Some(UiError::Reported("old".to_string()));
    assert!(matches!(
        s.update(Event::ProviderSelected { backend: TTSBackend::AwsPolly, credentials: Ok(()) }).as_slice(),
        [Action::SaveVoiceProvider(TTSBackend::AwsPolly), Action::FetchPollyVoices]
    ));
    assert_eq!(s.selected_backend, TTSBackend::AwsPolly);
    assert!(s.error_message.is_none());
    s.polly_voices = Some(vec![]);
    assert!(matches!(
        s.update(Event::ProviderSelected { backend: TTSBackend::AwsPolly, credentials: Ok(()) }).as_slice(),
        [Action::SaveVoiceProvider(TTSBackend::AwsPolly)]
    ));
    assert!(matches!(
        s.update(Event::ProviderSelected { backend: TTSBackend::AwsPolly, credentials: Err("no creds".to_string()) })
            .as_slice(),
        [Action::SaveVoiceProvider(TTSBackend::AwsPolly)]
    ));
    assert!(s.polly_voices.is_none());
    assert_eq!(s.error_message.as_ref().unwrap().text(), "no creds");
    assert!(matches!(
        s.update(Event::ProviderSelected { backend: TTSBackend::Piper, credentials: Err("ignored".to_string()) })
            .as_slice(),
        [Action::SaveVoiceProvider(TTSBackend::Piper)]
    ));
    assert!(s.error_message.is_none());
}

#[test]
fn settings_are_saved() {
    let mut s = fresh();
    assert!(matches!(s.update(Event::LogLevelSelected(LogLevel::Trace)).as_slice(), [Action::SaveLogLevel(LogLevel::Trace), Action::SetVerbosity(LogLevel::Trace)]));
    assert_eq!(s.log_level, LogLevel::Trace);
    assert!(matches!(s.update(Event::TextCleanupToggled(true)).as_slice(), [Action::SaveTextCleanupEnabled(true)]));
    assert!(s.text_cleanup_enabled);
}

#[test]
fn text_before_window_is_read_when_it_opens() {
    let mut s = fresh();
    assert!(s.update(Event::SelectedTextFetched(Some("Hi".to_string()))).is_empty());
    assert_eq!(s.pending_text, Some("Hi".to_string()));
    let actions = s.update(Event::WindowOpened(1));
    match actions.as_slice() {
        [Action::InitializeTts { backend, text, polly_voice }] => {
            assert_eq!(*backend, TTSBackend::Piper);
            assert_eq!(text, "Hi");
            assert!(polly_voice.is_none());
        },
        _ => panic!("speech expected"),
    }
    assert_eq!(s.main_window_id, Some(1));
    assert!(s.pending_text.is_none());
    assert!(s.is_loading);
    assert_eq!(s.status_text.as_ref().unwrap().text(), "Synthesizing voice...");
    assert_eq!(s.current_window_id, None);
}

#[test]
fn text_after_window_goes_to_cleanup_when_enabled() {
    let mut s = fresh();
    s.text_cleanup_enabled = true;
    assert!(s.update(Event::WindowOpened(3)).is_empty());
    assert_eq!(s.current_window_id, Some(3));
    match s.update(Event::SelectedTextFetched(Some("Text".to_string()))).as_slice() {
        [Action::CleanupText(t)] => assert_eq!(t, "Text"),
        _ => panic!("cleanup expected"),
    }
    assert_eq!(s.status_text.as_ref().unwrap().text(), "Cleaning text...");
    match s.update(Event::TextCleanupResponse(Ok("Clean".to_string()))).as_slice() {
        [Action::InitializeTts { text, .. }] => assert_eq!(text, "Clean"),
        _ => panic!("speech expected"),
    }
    assert_eq!(s.status_text.as_ref().unwrap().text(), "Synthesizing voice...");
}

#[test]
fn no_text_closes_the_window() {
    let mut s = fresh();
    s.update(Event::WindowOpened(3));
    assert!(matches!(s.update(Event::SelectedTextFetched(None)).as_slice(), [Action::CloseLatestWindow]));
}

#[test]
fn failures_open_settings_with_the_error() {
    let mut s = fresh();
    s.is_loading = true;
    s.status_text = Some(StatusText::CleaningText);
    assert!(matches!(
        s.update(Event::TextCleanupResponse(Err("Cleanup API error (500): x".to_string()))).as_slice(),
        [Action::OpenSettingsWindow]
    ));
    assert!(!s.is_loading);
    assert_eq!(s.error_message.as_ref().unwrap().text(), "Cleanup API error (500): x");
    s.update(Event::SettingsWindowOpened(9));
    assert!(s.update(Event::TTSInitialized(TtsOutcome::Failed("boom".to_string()))).is_empty());
    assert_eq!(s.error_message.as_ref().unwrap().text(), "boom");
}

#[test]
fn speech_ready() {
    let mut s = fresh();
    s.is_loading = true;
    s.status_text = Some(StatusText::SynthesizingVoice);
    s.error_message = Some(UiError::Reported("old".to_string()));
    assert!(s.update(Event::TTSInitialized(TtsOutcome::Ready)).is_empty());
    assert!(s.has_provider);
    assert_eq!(s.playback_state, PlaybackState::Playing);
    assert!(s.error_message.is_none());
    assert!(!s.is_loading);
    s.update(Event::TTSInitialized(TtsOutcome::ProviderMissing));
    assert_eq!(s.error_message.as_ref().unwrap().text(), "Internal error: provider not found");
    s.update(Event::TTSInitialized(TtsOutcome::LockFailed));
    assert_eq!(s.error_message.as_ref().unwrap().text(), "Internal error: mutex lock failed");
}

#[test]
fn closing_windows() {
    let mut s = fresh();
    s.update(Event::WindowOpened(1));
    s.update(Event::SettingsWindowOpened(2));
    s.update(Event::WindowOpened(2));
    assert!(s.update(Event::WindowClosed(2)).is_empty());
    assert_eq!(s.settings_window_id, None);
    assert!(!s.show_settings_modal);
    assert_eq!(s.current_window_id, None);
    assert!(matches!(s.update(Event::WindowClosed(1)).as_slice(), [Action::Exit]));
    let mut t = fresh();
    t.update(Event::WindowOpened(4));
    assert!(matches!(t.update(Event::StartDrag).as_slice(), [Action::DragWindow(4)]));
}

#[test]
fn voice_windows_and_selection() {
    let mut s = fresh();
    assert!(matches!(s.update(Event::OpenVoiceSelection("en_US".to_string())).as_slice(), [Action::OpenVoiceSelectionWindow]));
    assert_eq!(s.selected_language, Some("en_US".to_string()));
    s.update(Event::VoiceSelectionWindowOpened(5));
    assert!(s.update(Event::OpenVoiceSelection("de_DE".to_string())).is_empty());
    assert_eq!(s.selected_language, Some("en_US".to_string()));
    match s.update(Event::VoiceSelected("en_US-amy-low".to_string())).as_slice() {
        [Action::SaveSelectedVoice(k), Action::CloseWindow(5)] => assert_eq!(k, "en_US-amy-low"),
        _ => panic!("save and close expected"),
    }
    assert_eq!(s.selected_voice, Some("en_US-amy-low".to_string()));
    s.selected_backend = TTSBackend::AwsPolly;
    match s.update(Event::VoiceSelected("Joanna:Neural".to_string())).as_slice() {
        [Action::SaveSelectedPollyVoice(k)] => assert_eq!(k, "Joanna:Neural"),
        _ => panic!("save expected"),
    }
    assert_eq!(s.selected_polly_voice, Some("Joanna:Neural".to_string()));
    assert!(matches!(s.update(Event::OpenPollyInfo).as_slice(), [Action::OpenPollyInfoWindow]));
    s.update(Event::PollyInfoWindowOpened(8));
    assert!(s.update(Event::OpenPollyInfo).is_empty());
    assert!(matches!(s.update(Event::ClosePollyInfo).as_slice(), [Action::CloseWindow(8)]));
    assert!(matches!(s.update(Event::OpenPollyPricingUrl).as_slice(), [Action::OpenPollyPricingPage]));
    assert_eq!(polly_pricing_url(), "https://aws.amazon.com/polly/pricing/");
}

fn catalogue() -> Vec<(String, VoiceInfo)> {
    let language = LanguageInfo {
        code: "en_US".to_string(),
        family: "en".to_string(),
        region: "US".to_string(),
        name_native: "English".to_string(),
        name_english: "English".to_string(),
        country_english: "United States".to_string(),
    };
    vec![(
        "en_US-amy-low".to_string(),
        VoiceInfo {
            key: "en_US-amy-low".to_string(),
            name: "amy".to_string(),
            language,
            quality: "low".to_string(),
            num_speakers: 1,
            speaker_id_map: vec![],
            files: vec![],
            aliases: vec![],
        },
    )]
}

#[test]
fn voice_downloads() {
    let mut s = fresh();
    assert!(s.update(Event::VoiceDownloadRequested("en_US-amy-low".to_string())).is_empty());
    assert_eq!(s.error_message.as_ref().unwrap().text(), "Voice en_US-amy-low not found");
    s.update(Event::VoicesJsonLoaded(Ok(catalogue())));
    match s.update(Event::VoiceDownloadRequested("en_US-amy-low".to_string())).as_slice() {
        [Action::DownloadVoice { key, index }] => {
            assert_eq!(key, "en_US-amy-low");
            assert_eq!(*index, 0);
        },
        _ => panic!("download expected"),
    }
    assert_eq!(s.downloading_voice, Some("en_US-amy-low".to_string()));
    assert_eq!(s.status_text.as_ref().unwrap().text(), "Downloading voice: amy...");
    match s.update(Event::VoiceDownloaded(Ok("en_US-amy-low".to_string()))).as_slice() {
        [Action::SaveSelectedVoice(k)] => assert_eq!(k, "en_US-amy-low"),
        _ => panic!("save expected"),
    }
    assert!(!s.is_loading);
    assert!(s.downloading_voice.is_none());
    assert_eq!(s.status_text.as_ref().unwrap().text(), "Voice downloaded successfully");
    s.update(Event::VoiceDownloaded(Err("HTTP 404".to_string())));
    assert_eq!(s.error_message.as_ref().unwrap().text(), "Download failed: HTTP 404");
}

#[test]
fn catalogue_errors_show_only_in_settings() {
    let mut s = fresh();
    s.update(Event::VoicesJsonLoaded(Err("timeout".to_string())));
    assert!(s.error_message.is_none());
    s.update(Event::SettingsWindowOpened(2));
    s.update(Event::VoicesJsonLoaded(Err("timeout".to_string())));
    assert_eq!(
        s.error_message.as_ref().unwrap().text(),
        "Failed to load voices: timeout. Check your internet connection."
    );
    s.update(Event::PollyVoicesLoaded(Err("no creds".to_string())));
    assert!(s.polly_voices.is_none());
}

#[test]
fn credential_errors() {
    assert!(is_aws_credential_error("dispatch failure: timeout"));
    assert!(is_aws_credential_error("missing credentials"));
    assert!(is_aws_credential_error("AWS Polly API error: x"));
    assert!(!is_aws_credential_error("Piper failed"));
    let creds: Result<(), String> = Err("configure credentials".to_string());
    assert_eq!(format_tts_error("Unauthorized", TTSBackend::AwsPolly, &creds), "configure credentials");
    assert_eq!(format_tts_error("Unauthorized", TTSBackend::AwsPolly, &Ok(())), "Unauthorized");
    assert_eq!(format_tts_error("Unauthorized", TTSBackend::Piper, &creds), "Unauthorized");
    assert_eq!(format_tts_error("network down", TTSBackend::AwsPolly, &creds), "network down");
}

#[test]
fn startup_work() {
    assert!(matches!(
        startup(&Ok(())).as_slice(),
        [Action::OpenMainWindow, Action::FetchSelectedText, Action::FetchVoicesJson, Action::FetchPollyVoices]
    ));
    assert!(matches!(
        startup(&Err("no".to_string())).as_slice(),
        [Action::OpenMainWindow, Action::FetchSelectedText, Action::FetchVoicesJson]
    ));
}

#[test]
fn window_titles_and_kinds() {
    let mut s = fresh();
    s.update(Event::WindowOpened(1));
    s.update(Event::SettingsWindowOpened(2));
    s.update(Event::VoiceSelectionWindowOpened(3));
    s.update(Event::PollyInfoWindowOpened(4));
    assert_eq!(s.title(1), "Insight Reader");
    assert_eq!(s.title(2), "Settings");
    assert_eq!(s.title(3), "Select Voice");
    assert_eq!(s.title(4), "AWS Polly Pricing Information");
    assert_eq!(s.window_kind(2), WindowKind::Settings);
    assert_eq!(s.window_kind(99), WindowKind::Main);
}

#[test]
fn ticks_and_icons() {
    let mut s = fresh();
    assert!(!s.needs_ticks());
    assert_eq!(s.play_pause_icon(), "assets/icons/play.svg");
    s.playback_state = PlaybackState::Playing;
    assert!(s.needs_ticks());
    assert_eq!(s.play_pause_icon(), "assets/icons/pause.svg");
    s.playback_state = PlaybackState::Paused;
    assert!(s.needs_ticks());
    assert_eq!(s.play_pause_icon(), "assets/icons/play.svg");
    let mut l = fresh();
    l.is_loading = true;
    assert!(l.needs_ticks());
}

#[test]
fn provider_choice() {
    assert!(matches!(choose_provider(TTSBackend::Piper, None, None, &Err("x".to_string())), Ok(ProviderChoice::Piper)));
    assert_eq!(
        choose_provider(TTSBackend::AwsPolly, None, None, &Err("no creds".to_string())).unwrap_err(),
        "no creds"
    );
    match choose_provider(TTSBackend::AwsPolly, None, Some("Amy:Neural".to_string()), &Ok(())) {
        Ok(ProviderChoice::Polly { voice_key }) => assert_eq!(voice_key, Some("Amy:Neural".to_string())),
        _ => panic!("polly expected"),
    }
    match choose_provider(TTSBackend::AwsPolly, Some("Joey".to_string()), Some("Amy:Neural".to_string()), &Ok(())) {
        Ok(ProviderChoice::Polly { voice_key }) => assert_eq!(voice_key, Some("Joey".to_string())),
        _ => panic!("polly expected"),
    }
}

#[test]
fn url_openers() {
    assert_eq!(url_open_command(Platform::Windows), ("cmd", vec!["/c", "start"]));
    assert_eq!(url_open_command(Platform::MacOs), ("open", vec![]));
    assert_eq!(url_open_command(Platform::Linux), ("xdg-open", vec![]));
}
