//! The state of the reader's windows and the decisions taken on each event.
//!
//! [`UiState::update`] takes an event (a user action, or the outcome of
//! work the caller did) and returns the next state together with the
//! actions the caller performs: talking to the speech provider, opening and
//! closing windows, saving settings, starting background work. The outcome
//! of such work comes back as another event.
use vstd::prelude::*;

use crate::config;
use crate::config::LoadedConfig;
use crate::model::{LogLevel, OCRBackend, Platform, PlaybackState, PollyVoiceInfo, TTSBackend, VoiceInfo};
use crate::text;
use crate::text::{chars_eq, push_chars, to_chars};

verus! {

/// The status line shown while work is in progress.
#[derive(Debug, Clone)]
pub enum StatusText {
    CleaningText,
    SynthesizingVoice,
    /// Downloading the voice with this name.
    DownloadingVoice(String),
    VoiceDownloaded,
}

/// The text of a status line.
pub open spec fn status_line(s: StatusText) -> Seq<char> {
    match s {
        StatusText::CleaningText => "Cleaning text..."@,
        StatusText::SynthesizingVoice => "Synthesizing voice..."@,
        StatusText::DownloadingVoice(name) => "Downloading voice: "@ + name@ + "..."@,
        StatusText::VoiceDownloaded => "Voice downloaded successfully"@,
    }
}

impl StatusText {
    /// The text shown for this status.
    pub fn text(&self) -> (s: String)
        ensures
            s@ == status_line(*self),
    {
        match self {
            StatusText::CleaningText => "Cleaning text...".to_owned(),
            StatusText::SynthesizingVoice => "Synthesizing voice...".to_owned(),
            StatusText::DownloadingVoice(name) => {
                let mut s = "Downloading voice: ".to_owned();
                push_chars(&mut s, to_chars(name.as_str()).as_slice());
                push_chars(&mut s, &['.', '.', '.']);
                assert(s@ =~= status_line(*self)) by {
                    reveal_strlit("...");
                }
                s
            },
            StatusText::VoiceDownloaded => "Voice downloaded successfully".to_owned(),
        }
    }
}

/// The error shown to the user.
#[derive(Debug, Clone)]
pub enum UiError {
    /// An error reported as it is.
    Reported(String),
    /// The voice catalogue could not be loaded.
    VoicesLoadFailed(String),
    /// A voice key missing from the catalogue.
    VoiceNotFound(String),
    /// A voice download failed.
    DownloadFailed(String),
    /// Speech was ready but no provider was handed over.
    ProviderNotFound,
    /// The provider hand-over could not be locked.
    LockFailed,
}

/// The text of an error.
pub open spec fn error_line(e: UiError) -> Seq<char> {
    match e {
        UiError::Reported(m) => m@,
        UiError::VoicesLoadFailed(m) => "Failed to load voices: "@ + m@ + ". Check your internet connection."@,
        UiError::VoiceNotFound(k) => "Voice "@ + k@ + " not found"@,
        UiError::DownloadFailed(m) => "Download failed: "@ + m@,
        UiError::ProviderNotFound => "Internal error: provider not found"@,
        UiError::LockFailed => "Internal error: mutex lock failed"@,
    }
}

impl UiError {
    /// The text shown for this error.
    pub fn text(&self) -> (s: String)
        ensures
            s@ == error_line(*self),
    {
        match self {
            UiError::Reported(m) => m.clone(),
            UiError::VoicesLoadFailed(m) => {
                let mut s = "Failed to load voices: ".to_owned();
                push_chars(&mut s, to_chars(m.as_str()).as_slice());
                let tail = to_chars(". Check your internet connection.");
                push_chars(&mut s, tail.as_slice());
                s
            },
            UiError::VoiceNotFound(k) => {
                let mut s = "Voice ".to_owned();
                push_chars(&mut s, to_chars(k.as_str()).as_slice());
                let tail = to_chars(" not found");
                push_chars(&mut s, tail.as_slice());
                s
            },
            UiError::DownloadFailed(m) => {
                let mut s = "Download failed: ".to_owned();
                push_chars(&mut s, to_chars(m.as_str()).as_slice());
                s
            },
            UiError::ProviderNotFound => "Internal error: provider not found".to_owned(),
            UiError::LockFailed => "Internal error: mutex lock failed".to_owned(),
        }
    }
}

/// The state of the reader's windows and settings. Window ids are the
/// numbers the windowing layer gives its windows; the audio itself (its
/// progress and spectrum) is held by the caller.
#[derive(Debug)]
pub struct UiState {
    pub playback_state: PlaybackState,
    /// Whether a speech provider is active.
    pub has_provider: bool,
    pub selected_backend: TTSBackend,
    pub log_level: LogLevel,
    pub text_cleanup_enabled: bool,
    pub show_settings_modal: bool,
    pub settings_window_id: Option<u64>,
    pub current_window_id: Option<u64>,
    pub main_window_id: Option<u64>,
    /// Text waiting for the main window to open.
    pub pending_text: Option<String>,
    pub error_message: Option<UiError>,
    pub is_loading: bool,
    pub status_text: Option<StatusText>,
    /// Selected Piper voice key (e.g. "en_US-lessac-medium").
    pub selected_voice: Option<String>,
    /// Language code chosen for voice selection (e.g. "en_US").
    pub selected_language: Option<String>,
    /// The Piper voice catalogue, once loaded.
    pub voices: Option<Vec<(String, VoiceInfo)>>,
    /// The AWS Polly voices, once loaded.
    pub polly_voices: Option<Vec<(String, PollyVoiceInfo)>>,
    /// Selected AWS Polly voice key (e.g. "Matthew:Neural").
    pub selected_polly_voice: Option<String>,
    pub voice_selection_window_id: Option<u64>,
    /// The voice being downloaded.
    pub downloading_voice: Option<String>,
    pub polly_info_window_id: Option<u64>,
    pub selected_ocr_backend: OCRBackend,
}

/// How speech initialization ended.
#[derive(Debug, Clone)]
pub enum TtsOutcome {
    /// Speech started; the provider was handed over.
    Ready,
    /// Speech started but no provider was handed over.
    ProviderMissing,
    /// The provider hand-over could not be locked.
    LockFailed,
    /// Initialization failed with this message.
    Failed(String),
}

/// A direction to skip in.
#[derive(Debug, Clone, Copy, PartialEq, Eq, Structural)]
pub enum SkipDirection {
    Backward,
    Forward,
}

/// What happened: a user action, or the outcome of work the caller did.
#[derive(Debug)]
pub enum Event {
    SkipBackward,
    SkipForward,
    PlayPause,
    /// The provider was asked to pause; whether it succeeded.
    PlaybackPaused(bool),
    /// The provider was asked to resume; whether it succeeded.
    PlaybackResumed(bool),
    Stop,
    /// The periodic tick; whether the provider is still playing or paused.
    Tick { provider_active: bool },
    Settings,
    /// The settings window was opened with this id.
    SettingsWindowOpened(u64),
    CloseSettings,
    /// A provider was chosen; `credentials` is the outcome of the AWS
    /// credentials check.
    ProviderSelected { backend: TTSBackend, credentials: Result<(), String> },
    LogLevelSelected(LogLevel),
    TextCleanupToggled(bool),
    WindowOpened(u64),
    WindowClosed(u64),
    TTSInitialized(TtsOutcome),
    SelectedTextFetched(Option<String>),
    TextCleanupResponse(Result<String, String>),
    StartDrag,
    VoicesJsonLoaded(Result<Vec<(String, VoiceInfo)>, String>),
    PollyVoicesLoaded(Result<Vec<(String, PollyVoiceInfo)>, String>),
    OpenVoiceSelection(String),
    /// The voice selection window was opened with this id.
    VoiceSelectionWindowOpened(u64),
    CloseVoiceSelection,
    OpenPollyInfo,
    /// The AWS Polly information window was opened with this id.
    PollyInfoWindowOpened(u64),
    ClosePollyInfo,
    OpenPollyPricingUrl,
    VoiceSelected(String),
    VoiceDownloadRequested(String),
    VoiceDownloaded(Result<String, String>),
}

/// Work for the caller.
#[derive(Debug)]
pub enum Action {
    /// Skip five seconds in the audio and refresh the progress.
    Skip(SkipDirection),
    Pause,
    Resume,
    /// Stop the provider; reset progress and spectrum.
    StopPlayback,
    /// Close the most recently opened window.
    CloseLatestWindow,
    /// Advance the loading animation (`bars`: also animate the spectrum).
    AnimateLoading { bars: bool },
    /// Read progress and spectrum from the provider.
    RefreshPlayback,
    OpenSettingsWindow,
    OpenVoiceSelectionWindow,
    OpenPollyInfoWindow,
    CloseWindow(u64),
    DragWindow(u64),
    /// Leave the application.
    Exit,
    FetchPollyVoices,
    SaveVoiceProvider(TTSBackend),
    /// Save the log level.
    SaveLogLevel(LogLevel),
    /// Apply the log level to the running logger.
    SetVerbosity(LogLevel),
    SaveTextCleanupEnabled(bool),
    SaveSelectedVoice(String),
    SaveSelectedPollyVoice(String),
    OpenPollyPricingPage,
    /// Send the text to the cleanup service.
    CleanupText(String),
    /// Start speech of `text` with the backend (and Polly voice).
    InitializeTts { backend: TTSBackend, text: String, polly_voice: Option<String> },
    /// Download the voice `key`, entry `index` of the catalogue.
    DownloadVoice { key: String, index: usize },
    /// Open the main window.
    OpenMainWindow,
    /// Read the selected text in the background.
    FetchSelectedText,
    /// Load the Piper voice catalogue in the background.
    FetchVoicesJson,
}

/// The page describing AWS Polly pricing.
pub fn polly_pricing_url() -> (r: &'static str)
    ensures
        r@ == "https://aws.amazon.com/polly/pricing/"@,
{
    "https://aws.amazon.com/polly/pricing/"
}

/// The command that opens a URL in the default browser, and its arguments
/// before the URL: `cmd /c start` on Windows, `open` on macOS, `xdg-open`
/// elsewhere.
pub fn url_open_command(platform: Platform) -> (r: (&'static str, Vec<&'static str>))
    ensures
        platform == Platform::Windows ==> r.0@ == "cmd"@ && r.1@.map_values(|a: &'static str| a@) == seq!["/c"@, "start"@],
        platform == Platform::MacOs ==> r.0@ == "open"@ && r.1@.len() == 0,
        platform == Platform::Linux ==> r.0@ == "xdg-open"@ && r.1@.len() == 0,
{
    match platform {
        Platform::Windows => {
            let args = vec!["/c", "start"];
            assert(args@.map_values(|a: &'static str| a@) =~= seq!["/c"@, "start"@]);
            ("cmd", args)
        },
        Platform::MacOs => ("open", Vec::new()),
        Platform::Linux => ("xdg-open", Vec::new()),
    }
}

// ----------------------------------------------------------------------------
// The transition function
// ----------------------------------------------------------------------------

/// The state while work with this status is in progress.
pub open spec fn loading(s: UiState, status: StatusText) -> UiState {
    UiState { is_loading: true, status_text: Some(status), ..s }
}

/// The state once no work is in progress.
pub open spec fn not_loading(s: UiState) -> UiState {
    UiState { is_loading: false, status_text: None, ..s }
}

/// What happens to text that is to be read: it goes to the cleanup service
/// when that is enabled, otherwise straight to speech.
pub open spec fn spec_process_text(s: UiState, text: String) -> (UiState, Seq<Action>) {
    if s.text_cleanup_enabled {
        (loading(s, StatusText::CleaningText), seq![Action::CleanupText(text)])
    } else {
        (
            loading(s, StatusText::SynthesizingVoice),
            seq![Action::InitializeTts { backend: s.selected_backend, text, polly_voice: s.selected_polly_voice }],
        )
    }
}

/// Show an error in the settings window, opening it when it is not open.
pub open spec fn spec_show_error(s: UiState, e: UiError) -> (UiState, Seq<Action>) {
    let s1 = UiState { error_message: Some(e), ..s };
    if s.settings_window_id is None {
        (s1, seq![Action::OpenSettingsWindow])
    } else {
        (s1, seq![])
    }
}

/// The first catalogue entry with key `key`, or -1.
pub open spec fn voice_index(voices: Seq<(String, VoiceInfo)>, key: Seq<char>) -> int
    decreases voices.len(),
{
    if voices.len() == 0 {
        -1
    } else if voices[0].0@ == key {
        0
    } else {
        let r = voice_index(voices.drop_first(), key);
        if r < 0 { -1 } else { r + 1 }
    }
}

/// The window ids cleared when the window `id` closes.
pub open spec fn spec_window_closed(s: UiState, id: u64) -> UiState {
    let s1 = if s.settings_window_id == Some(id) {
        UiState { settings_window_id: None, show_settings_modal: false, ..s }
    } else {
        s
    };
    let s2 = if s1.voice_selection_window_id == Some(id) {
        UiState { voice_selection_window_id: None, ..s1 }
    } else {
        s1
    };
    let s3 = if s2.polly_info_window_id == Some(id) {
        UiState { polly_info_window_id: None, ..s2 }
    } else {
        s2
    };
    if s3.current_window_id == Some(id) {
        UiState { current_window_id: None, ..s3 }
    } else {
        s3
    }
}

/// The next state and the actions, for an event in a state.
pub open spec fn next(s: UiState, e: Event) -> (UiState, Seq<Action>) {
    match e {
        Event::SkipBackward => if s.has_provider {
            (s, seq![Action::Skip(SkipDirection::Backward)])
        } else {
            (s, seq![])
        },
        Event::SkipForward => if s.has_provider {
            (s, seq![Action::Skip(SkipDirection::Forward)])
        } else {
            (s, seq![])
        },
        Event::PlayPause => if !s.has_provider {
            (s, seq![])
        } else {
            match s.playback_state {
                PlaybackState::Playing => (s, seq![Action::Pause]),
                PlaybackState::Paused => (s, seq![Action::Resume]),
                PlaybackState::Stopped => (s, seq![]),
            }
        },
        Event::PlaybackPaused(ok) => if ok {
            (UiState { playback_state: PlaybackState::Paused, ..s }, seq![])
        } else {
            (s, seq![])
        },
        Event::PlaybackResumed(ok) => if ok {
            (UiState { playback_state: PlaybackState::Playing, ..s }, seq![])
        } else {
            (s, seq![])
        },
        Event::Stop => (
            not_loading(UiState { playback_state: PlaybackState::Stopped, ..s }),
            seq![Action::StopPlayback, Action::CloseLatestWindow],
        ),
        Event::Tick { provider_active } => if s.is_loading || s.downloading_voice is Some {
            (s, seq![Action::AnimateLoading { bars: s.is_loading }])
        } else if s.has_provider {
            if !provider_active {
                (
                    UiState { playback_state: PlaybackState::Stopped, ..s },
                    seq![Action::RefreshPlayback, Action::CloseLatestWindow],
                )
            } else {
                (s, seq![Action::RefreshPlayback])
            }
        } else {
            (s, seq![])
        },
        Event::Settings => if s.settings_window_id is Some {
            (s, seq![])
        } else {
            (s, seq![Action::OpenSettingsWindow])
        },
        Event::SettingsWindowOpened(id) => (
            UiState { settings_window_id: Some(id), show_settings_modal: true, ..s },
            seq![],
        ),
        Event::CloseSettings => match s.settings_window_id {
            Some(id) => (
                UiState { show_settings_modal: false, settings_window_id: None, ..s },
                seq![Action::CloseWindow(id)],
            ),
            None => (UiState { show_settings_modal: false, ..s }, seq![]),
        },
        Event::ProviderSelected { backend, credentials } => {
            let s1 = UiState { selected_backend: backend, ..s };
            if backend == TTSBackend::AwsPolly {
                match credentials {
                    Ok(_) => {
                        let s2 = UiState { error_message: None, ..s1 };
                        if s2.polly_voices is None {
                            (s2, seq![Action::SaveVoiceProvider(backend), Action::FetchPollyVoices])
                        } else {
                            (s2, seq![Action::SaveVoiceProvider(backend)])
                        }
                    },
                    Err(m) => (
                        UiState { error_message: Some(UiError::Reported(m)), polly_voices: None, ..s1 },
                        seq![Action::SaveVoiceProvider(backend)],
                    ),
                }
            } else {
                (UiState { error_message: None, ..s1 }, seq![Action::SaveVoiceProvider(backend)])
            }
        },
        Event::LogLevelSelected(level) => (
            UiState { log_level: level, ..s },
            seq![Action::SaveLogLevel(level), Action::SetVerbosity(level)],
        ),
        Event::TextCleanupToggled(enabled) => (
            UiState { text_cleanup_enabled: enabled, ..s },
            seq![Action::SaveTextCleanupEnabled(enabled)],
        ),
        Event::WindowOpened(id) => if s.main_window_id is None {
            let s1 = UiState { main_window_id: Some(id), ..s };
            match s1.pending_text {
                Some(t) => spec_process_text(UiState { pending_text: None, ..s1 }, t),
                None => (UiState { current_window_id: Some(id), ..s1 }, seq![]),
            }
        } else {
            (UiState { current_window_id: Some(id), ..s }, seq![])
        },
        Event::WindowClosed(id) => if s.main_window_id == Some(id) {
            (spec_window_closed(s, id), seq![Action::Exit])
        } else {
            (spec_window_closed(s, id), seq![])
        },
        Event::SelectedTextFetched(text) => if s.main_window_id is Some {
            match text {
                Some(t) => spec_process_text(s, t),
                None => (s, seq![Action::CloseLatestWindow]),
            }
        } else {
            (UiState { pending_text: text, ..s }, seq![])
        },
        Event::TextCleanupResponse(result) => match result {
            Ok(t) => (
                UiState { status_text: Some(StatusText::SynthesizingVoice), ..s },
                seq![Action::InitializeTts { backend: s.selected_backend, text: t, polly_voice: s.selected_polly_voice }],
            ),
            Err(m) => spec_show_error(not_loading(s), UiError::Reported(m)),
        },
        Event::TTSInitialized(outcome) => {
            let s1 = not_loading(s);
            match outcome {
                TtsOutcome::Ready => (
                    UiState { has_provider: true, playback_state: PlaybackState::Playing, error_message: None, ..s1 },
                    seq![],
                ),
                TtsOutcome::ProviderMissing => (UiState { error_message: Some(UiError::ProviderNotFound), ..s1 }, seq![]),
                TtsOutcome::LockFailed => (UiState { error_message: Some(UiError::LockFailed), ..s1 }, seq![]),
                TtsOutcome::Failed(m) => spec_show_error(s1, UiError::Reported(m)),
            }
        },
        Event::StartDrag => match s.main_window_id {
            Some(id) => (s, seq![Action::DragWindow(id)]),
            None => (s, seq![]),
        },
        Event::VoicesJsonLoaded(result) => match result {
            Ok(v) => (UiState { voices: Some(v), ..s }, seq![]),
            Err(m) => if s.settings_window_id is Some {
                (UiState { error_message: Some(UiError::VoicesLoadFailed(m)), ..s }, seq![])
            } else {
                (s, seq![])
            },
        },
        Event::PollyVoicesLoaded(result) => match result {
            Ok(v) => (UiState { polly_voices: Some(v), ..s }, seq![]),
            Err(_) => (UiState { polly_voices: None, ..s }, seq![]),
        },
        Event::OpenVoiceSelection(code) => if s.voice_selection_window_id is Some {
            (s, seq![])
        } else {
            (UiState { selected_language: Some(code), ..s }, seq![Action::OpenVoiceSelectionWindow])
        },
        Event::VoiceSelectionWindowOpened(id) => (UiState { voice_selection_window_id: Some(id), ..s }, seq![]),
        Event::CloseVoiceSelection => match s.voice_selection_window_id {
            Some(id) => (UiState { voice_selection_window_id: None, ..s }, seq![Action::CloseWindow(id)]),
            None => (s, seq![]),
        },
        Event::OpenPollyInfo => if s.polly_info_window_id is Some {
            (s, seq![])
        } else {
            (s, seq![Action::OpenPollyInfoWindow])
        },
        Event::PollyInfoWindowOpened(id) => (UiState { polly_info_window_id: Some(id), ..s }, seq![]),
        Event::ClosePollyInfo => match s.polly_info_window_id {
            Some(id) => (UiState { polly_info_window_id: None, ..s }, seq![Action::CloseWindow(id)]),
            None => (s, seq![]),
        },
        Event::OpenPollyPricingUrl => (s, seq![Action::OpenPollyPricingPage]),
        Event::VoiceSelected(key) => {
            let (s1, save) = match s.selected_backend {
                TTSBackend::Piper => (UiState { selected_voice: Some(key), ..s }, Action::SaveSelectedVoice(key)),
                TTSBackend::AwsPolly => (
                    UiState { selected_polly_voice: Some(key), ..s },
                    Action::SaveSelectedPollyVoice(key),
                ),
            };
            match s1.voice_selection_window_id {
                Some(id) => (UiState { voice_selection_window_id: None, ..s1 }, seq![save, Action::CloseWindow(id)]),
                None => (s1, seq![save]),
            }
        },
        Event::VoiceDownloadRequested(key) => {
            let i = match s.voices {
                Some(v) => voice_index(v@, key@),
                None => -1,
            };
            if i >= 0 {
                let name = s.voices.unwrap()@[i].1.name;
                (
                    loading(UiState { downloading_voice: Some(key), ..s }, StatusText::DownloadingVoice(name)),
                    seq![Action::DownloadVoice { key, index: i as usize }],
                )
            } else {
                (UiState { error_message: Some(UiError::VoiceNotFound(key)), ..s }, seq![])
            }
        },
        Event::VoiceDownloaded(result) => {
            let s1 = UiState { downloading_voice: None, ..not_loading(s) };
            match result {
                Ok(key) => (
                    UiState { status_text: Some(StatusText::VoiceDownloaded), selected_voice: Some(key), ..s1 },
                    seq![Action::SaveSelectedVoice(key)],
                ),
                Err(m) => (UiState { error_message: Some(UiError::DownloadFailed(m)), ..s1 }, seq![]),
            }
        },
    }
}

// ----------------------------------------------------------------------------
// The executable state machine
// ----------------------------------------------------------------------------

fn find_voice(voices: &Vec<(String, VoiceInfo)>, key: &str) -> (r: Option<usize>)
    ensures
        r is Some <==> voice_index(voices@, key@) >= 0,
        r is Some ==> r.unwrap() == voice_index(voices@, key@) && r.unwrap() < voices@.len(),
{
    let k = to_chars(key);
    let mut i: usize = 0;
    assert(voices@.skip(0) =~= voices@);
    while i < voices.len()
        invariant
            i <= voices@.len(),
            k@ == key@,
            voice_index(voices@, key@) == if voice_index(voices@.skip(i as int), key@) < 0 {
                -1
            } else {
                voice_index(voices@.skip(i as int), key@) + i
            },
        decreases voices.len() - i,
    {
        assert(voices@.skip(i as int)[0] == voices@[i as int]);
        assert(voices@.skip(i as int).drop_first() =~= voices@.skip(i + 1));
        let c = to_chars(voices[i].0.as_str());
        if chars_eq(c.as_slice(), k.as_slice()) {
            return Some(i);
        }
        i += 1;
    }
    None
}

impl UiState {
    /// The state of a new reader, with the settings of the configuration
    /// and the text to read, if it is already known.
    pub fn new(pending_text: Option<String>, loaded: &LoadedConfig) -> (s: UiState)
        ensures
            s.playback_state == PlaybackState::Stopped,
            !s.has_provider,
            s.selected_backend == config::spec_load_voice_provider(*loaded),
            s.log_level == config::spec_load_log_level(*loaded),
            s.text_cleanup_enabled == config::spec_load_text_cleanup_enabled(*loaded),
            s.selected_voice == config::spec_load_selected_voice(*loaded),
            s.selected_polly_voice == config::spec_load_selected_polly_voice(*loaded),
            s.selected_ocr_backend == config::spec_load_ocr_backend(*loaded),
            s.pending_text == pending_text,
            !s.show_settings_modal && !s.is_loading,
            s.settings_window_id is None && s.current_window_id is None && s.main_window_id is None,
            s.voice_selection_window_id is None && s.polly_info_window_id is None,
            s.error_message is None && s.status_text is None && s.selected_language is None,
            s.voices is None && s.polly_voices is None && s.downloading_voice is None,
    {
        UiState {
            playback_state: PlaybackState::Stopped,
            has_provider: false,
            selected_backend: config::load_voice_provider(loaded),
            log_level: config::load_log_level(loaded),
            text_cleanup_enabled: config::load_text_cleanup_enabled(loaded),
            show_settings_modal: false,
            settings_window_id: None,
            current_window_id: None,
            main_window_id: None,
            pending_text,
            error_message: None,
            is_loading: false,
            status_text: None,
            selected_voice: config::load_selected_voice(loaded),
            selected_language: None,
            voices: None,
            polly_voices: None,
            selected_polly_voice: config::load_selected_polly_voice(loaded),
            voice_selection_window_id: None,
            downloading_voice: None,
            polly_info_window_id: None,
            selected_ocr_backend: config::load_ocr_backend(loaded),
        }
    }

    fn process_text(&mut self, text: String) -> (r: Vec<Action>)
        ensures
            (*final(self), r@) == spec_process_text(*old(self), text),
    {
        self.is_loading = true;
        if self.text_cleanup_enabled {
            self.status_text = Some(StatusText::CleaningText);
            vec![Action::CleanupText(text)]
        } else {
            self.status_text = Some(StatusText::SynthesizingVoice);
            vec![Action::InitializeTts {
                backend: self.selected_backend,
                text,
                polly_voice: self.selected_polly_voice.clone(),
            }]
        }
    }

    fn show_error(&mut self, e: UiError) -> (r: Vec<Action>)
        ensures
            (*final(self), r@) == spec_show_error(*old(self), e),
    {
        self.error_message = Some(e);
        if self.settings_window_id.is_none() {
            vec![Action::OpenSettingsWindow]
        } else {
            Vec::new()
        }
    }

    fn clear_loading(&mut self)
        ensures
            *final(self) == not_loading(*old(self)),
    {
        self.is_loading = false;
        self.status_text = None;
    }

    fn window_closed(&mut self, id: u64)
        ensures
            *final(self) == spec_window_closed(*old(self), id),
    {
        if self.settings_window_id == Some(id) {
            self.settings_window_id = None;
            self.show_settings_modal = false;
        }
        if self.voice_selection_window_id == Some(id) {
            self.voice_selection_window_id = None;
        }
        if self.polly_info_window_id == Some(id) {
            self.polly_info_window_id = None;
        }
        if self.current_window_id == Some(id) {
            self.current_window_id = None;
        }
    }

    fn voice_download_requested(&mut self, key: String) -> (r: Vec<Action>)
        ensures
            (*final(self), r@) == next(*old(self), Event::VoiceDownloadRequested(key)),
    {
        let found = match &self.voices {
            Some(v) => match find_voice(v, key.as_str()) {
                Some(i) => Some((i, v[i].1.name.clone())),
                None => None,
            },
            None => None,
        };
        match found {
            Some((index, name)) => {
                self.downloading_voice = Some(key.clone());
                self.is_loading = true;
                self.status_text = Some(StatusText::DownloadingVoice(name));
                vec![Action::DownloadVoice { key, index }]
            },
            None => {
                self.error_message = Some(UiError::VoiceNotFound(key));
                Vec::new()
            },
        }
    }

    /// Take `event`: the state moves on as [`next`] says, and the actions
    /// it gives are returned, to be performed in order.
    #[verifier::rlimit(100)]
    #[verifier::spinoff_prover]
    pub fn update(&mut self, event: Event) -> (actions: Vec<Action>)
        ensures
            (*final(self), actions@) == next(*old(self), event),
    {
        match event {
            Event::SkipBackward => if self.has_provider {
                vec![Action::Skip(SkipDirection::Backward)]
            } else {
                Vec::new()
            },
            Event::SkipForward => if self.has_provider {
                vec![Action::Skip(SkipDirection::Forward)]
            } else {
                Vec::new()
            },
            Event::PlayPause => if !self.has_provider {
                Vec::new()
            } else {
                match self.playback_state {
                    PlaybackState::Playing => vec![Action::Pause],
                    PlaybackState::Paused => vec![Action::Resume],
                    PlaybackState::Stopped => Vec::new(),
                }
            },
            Event::PlaybackPaused(ok) => {
                if ok {
                    self.playback_state = PlaybackState::Paused;
                }
                Vec::new()
            },
            Event::PlaybackResumed(ok) => {
                if ok {
                    self.playback_state = PlaybackState::Playing;
                }
                Vec::new()
            },
            Event::Stop => {
                self.playback_state = PlaybackState::Stopped;
                self.clear_loading();
                vec![Action::StopPlayback, Action::CloseLatestWindow]
            },
            Event::Tick { provider_active } => if self.is_loading || self.downloading_voice.is_some() {
                vec![Action::AnimateLoading { bars: self.is_loading }]
            } else if self.has_provider {
                if !provider_active {
                    self.playback_state = PlaybackState::Stopped;
                    vec![Action::RefreshPlayback, Action::CloseLatestWindow]
                } else {
                    vec![Action::RefreshPlayback]
                }
            } else {
                Vec::new()
            },
            Event::Settings => if self.settings_window_id.is_some() {
                Vec::new()
            } else {
                vec![Action::OpenSettingsWindow]
            },
            Event::SettingsWindowOpened(id) => {
                self.settings_window_id = Some(id);
                self.show_settings_modal = true;
                Vec::new()
            },
            Event::CloseSettings => {
                self.show_settings_modal = false;
                match self.settings_window_id.take() {
                    Some(id) => vec![Action::CloseWindow(id)],
                    None => Vec::new(),
                }
            },
            Event::ProviderSelected { backend, credentials } => {
                self.selected_backend = backend;
                if backend == TTSBackend::AwsPolly {
                    match credentials {
                        Ok(()) => {
                            self.error_message = None;
                            if self.polly_voices.is_none() {
                                return vec![Action::SaveVoiceProvider(backend), Action::FetchPollyVoices];
                            }
                        },
                        Err(m) => {
                            self.error_message = Some(UiError::Reported(m));
                            self.polly_voices = None;
                        },
                    }
                } else {
                    self.error_message = None;
                }
                vec![Action::SaveVoiceProvider(backend)]
            },
            Event::LogLevelSelected(level) => {
                self.log_level = level;
                vec![Action::SaveLogLevel(level), Action::SetVerbosity(level)]
            },
            Event::TextCleanupToggled(enabled) => {
                self.text_cleanup_enabled = enabled;
                vec![Action::SaveTextCleanupEnabled(enabled)]
            },
            Event::WindowOpened(id) => {
                if self.main_window_id.is_none() {
                    self.main_window_id = Some(id);
                    if let Some(text) = self.pending_text.take() {
                        return self.process_text(text);
                    }
                }
                self.current_window_id = Some(id);
                Vec::new()
            },
            Event::WindowClosed(id) => {
                let is_main = self.main_window_id == Some(id);
                self.window_closed(id);
                if is_main {
                    vec![Action::Exit]
                } else {
                    Vec::new()
                }
            },
            Event::SelectedTextFetched(text) => {
                if self.main_window_id.is_some() {
                    match text {
                        Some(t) => self.process_text(t),
                        None => vec![Action::CloseLatestWindow],
                    }
                } else {
                    self.pending_text = text;
                    Vec::new()
                }
            },
            Event::TextCleanupResponse(result) => match result {
                Ok(t) => {
                    self.status_text = Some(StatusText::SynthesizingVoice);
                    vec![Action::InitializeTts {
                        backend: self.selected_backend,
                        text: t,
                        polly_voice: self.selected_polly_voice.clone(),
                    }]
                },
                Err(m) => {
                    self.clear_loading();
                    self.show_error(UiError::Reported(m))
                },
            },
            Event::TTSInitialized(outcome) => {
                self.clear_loading();
                match outcome {
                    TtsOutcome::Ready => {
                        self.has_provider = true;
                        self.playback_state = PlaybackState::Playing;
                        self.error_message = None;
                        Vec::new()
                    },
                    TtsOutcome::ProviderMissing => {
                        self.error_message = Some(UiError::ProviderNotFound);
                        Vec::new()
                    },
                    TtsOutcome::LockFailed => {
                        self.error_message = Some(UiError::LockFailed);
                        Vec::new()
                    },
                    TtsOutcome::Failed(m) => self.show_error(UiError::Reported(m)),
                }
            },
            Event::StartDrag => match self.main_window_id {
                Some(id) => vec![Action::DragWindow(id)],
                None => Vec::new(),
            },
            Event::VoicesJsonLoaded(result) => {
                match result {
                    Ok(v) => {
                        self.voices = Some(v);
                    },
                    Err(m) => {
                        if self.settings_window_id.is_some() {
                            self.error_message = Some(UiError::VoicesLoadFailed(m));
                        }
                    },
                }
                Vec::new()
            },
            Event::PollyVoicesLoaded(result) => {
                match result {
                    Ok(v) => {
                        self.polly_voices = Some(v);
                    },
                    Err(_) => {
                        self.polly_voices = None;
                    },
                }
                Vec::new()
            },
            Event::OpenVoiceSelection(code) => if self.voice_selection_window_id.is_some() {
                Vec::new()
            } else {
                self.selected_language = Some(code);
                vec![Action::OpenVoiceSelectionWindow]
            },
            Event::VoiceSelectionWindowOpened(id) => {
                self.voice_selection_window_id = Some(id);
                Vec::new()
            },
            Event::CloseVoiceSelection => match self.voice_selection_window_id.take() {
                Some(id) => vec![Action::CloseWindow(id)],
                None => Vec::new(),
            },
            Event::OpenPollyInfo => if self.polly_info_window_id.is_some() {
                Vec::new()
            } else {
                vec![Action::OpenPollyInfoWindow]
            },
            Event::PollyInfoWindowOpened(id) => {
                self.polly_info_window_id = Some(id);
                Vec::new()
            },
            Event::ClosePollyInfo => match self.polly_info_window_id.take() {
                Some(id) => vec![Action::CloseWindow(id)],
                None => Vec::new(),
            },
            Event::OpenPollyPricingUrl => vec![Action::OpenPollyPricingPage],
            Event::VoiceSelected(key) => {
                let save = match self.selected_backend {
                    TTSBackend::Piper => {
                        self.selected_voice = Some(key.clone());
                        Action::SaveSelectedVoice(key)
                    },
                    TTSBackend::AwsPolly => {
                        self.selected_polly_voice = Some(key.clone());
                        Action::SaveSelectedPollyVoice(key)
                    },
                };
                match self.voice_selection_window_id.take() {
                    Some(id) => vec![save, Action::CloseWindow(id)],
                    None => vec![save],
                }
            },
            Event::VoiceDownloadRequested(key) => self.voice_download_requested(key),
            Event::VoiceDownloaded(result) => {
                self.clear_loading();
                self.downloading_voice = None;
                match result {
                    Ok(key) => {
                        self.status_text = Some(StatusText::VoiceDownloaded);
                        self.selected_voice = Some(key.clone());
                        vec![Action::SaveSelectedVoice(key)]
                    },
                    Err(m) => {
                        self.error_message = Some(UiError::DownloadFailed(m));
                        Vec::new()
                    },
                }
            },
        }
    }
}

// ----------------------------------------------------------------------------
// Start-up and windows
// ----------------------------------------------------------------------------

/// The work started with the application: open the main window, read the
/// selected text, load the Piper catalogue, and load the AWS Polly voices
/// when AWS credentials are configured (`credentials`).
pub fn startup(credentials: &Result<(), String>) -> (r: Vec<Action>)
    ensures
        credentials is Ok ==> r@ == seq![Action::OpenMainWindow, Action::FetchSelectedText, Action::FetchVoicesJson, Action::FetchPollyVoices],
        credentials is Err ==> r@ == seq![Action::OpenMainWindow, Action::FetchSelectedText, Action::FetchVoicesJson],
{
    let mut r = vec![Action::OpenMainWindow, Action::FetchSelectedText, Action::FetchVoicesJson];
    if credentials.is_ok() {
        r.push(Action::FetchPollyVoices);
    }
    r
}

/// What a window shows.
#[derive(Debug, Clone, Copy, PartialEq, Eq, Structural)]
pub enum WindowKind {
    Settings,
    VoiceSelection,
    PollyInfo,
    Main,
}

/// What the window `id` shows: the settings, voice selection or AWS Polly
/// information window when it is one of them (in that order), the main
/// view otherwise.
pub open spec fn spec_window_kind(s: UiState, id: u64) -> WindowKind {
    if s.settings_window_id == Some(id) {
        WindowKind::Settings
    } else if s.voice_selection_window_id == Some(id) {
        WindowKind::VoiceSelection
    } else if s.polly_info_window_id == Some(id) {
        WindowKind::PollyInfo
    } else {
        WindowKind::Main
    }
}

impl UiState {
    /// What the window `id` shows (see [`spec_window_kind`]).
    pub fn window_kind(&self, id: u64) -> (k: WindowKind)
        ensures
            k == spec_window_kind(*self, id),
    {
        if self.settings_window_id == Some(id) {
            WindowKind::Settings
        } else if self.voice_selection_window_id == Some(id) {
            WindowKind::VoiceSelection
        } else if self.polly_info_window_id == Some(id) {
            WindowKind::PollyInfo
        } else {
            WindowKind::Main
        }
    }

    /// The title of the window `id`.
    pub fn title(&self, id: u64) -> (t: &'static str)
        ensures
            t@ == match spec_window_kind(*self, id) {
                WindowKind::Settings => "Settings"@,
                WindowKind::VoiceSelection => "Select Voice"@,
                WindowKind::PollyInfo => "AWS Polly Pricing Information"@,
                WindowKind::Main => "Insight Reader"@,
            },
    {
        match self.window_kind(id) {
            WindowKind::Settings => "Settings",
            WindowKind::VoiceSelection => "Select Voice",
            WindowKind::PollyInfo => "AWS Polly Pricing Information",
            WindowKind::Main => "Insight Reader",
        }
    }

    /// Whether the periodic tick runs: while playing or paused, loading, or
    /// downloading a voice.
    pub fn needs_ticks(&self) -> (r: bool)
        ensures
            r == !(self.playback_state == PlaybackState::Stopped && !self.is_loading && self.downloading_voice is None),
    {
        !(self.playback_state == PlaybackState::Stopped && !self.is_loading && self.downloading_voice.is_none())
    }

    /// The icon of the play/pause button: pause while playing, play
    /// otherwise.
    pub fn play_pause_icon(&self) -> (r: &'static str)
        ensures
            r@ == if self.playback_state == PlaybackState::Playing {
                "assets/icons/pause.svg"@
            } else {
                "assets/icons/play.svg"@
            },
    {
        if self.playback_state == PlaybackState::Playing {
            "assets/icons/pause.svg"
        } else {
            "assets/icons/play.svg"
        }
    }
}

/// The provider speech starts with.
#[derive(Debug, Clone)]
pub enum ProviderChoice {
    Piper,
    /// AWS Polly with this voice key ("VoiceId:Engine"), if any.
    Polly { voice_key: Option<String> },
}

/// The provider to start speech with: Piper, or AWS Polly with the chosen
/// voice (else the configured one) when AWS credentials are configured;
/// otherwise the credentials check's message.
pub fn choose_provider(
    backend: TTSBackend,
    polly_voice: Option<String>,
    configured_polly_voice: Option<String>,
    credentials: &Result<(), String>,
) -> (r: Result<ProviderChoice, String>)
    ensures
        backend == TTSBackend::Piper ==> (r matches Ok(ProviderChoice::Piper)),
        backend == TTSBackend::AwsPolly && credentials is Err ==> r == Err::<ProviderChoice, String>(credentials->Err_0),
        backend == TTSBackend::AwsPolly && credentials is Ok ==> (r matches Ok(ProviderChoice::Polly { voice_key })
            && voice_key == if polly_voice is Some { polly_voice } else { configured_polly_voice }),
{
    match backend {
        TTSBackend::Piper => Ok(ProviderChoice::Piper),
        TTSBackend::AwsPolly => match credentials {
            Err(m) => Err(m.clone()),
            Ok(()) => Ok(ProviderChoice::Polly {
                voice_key: match polly_voice {
                    Some(v) => Some(v),
                    None => configured_polly_voice,
                },
            }),
        },
    }
}

// ----------------------------------------------------------------------------
// Speech errors
// ----------------------------------------------------------------------------

/// Whether an error text points at AWS credentials or authentication.
pub open spec fn is_credential_error_text(s: Seq<char>) -> bool {
    ||| text::contains_seq(s, "credentials"@)
    ||| text::contains_seq(s, "authentication"@)
    ||| text::contains_seq(s, "Unauthorized"@)
    ||| text::contains_seq(s, "dispatch failure"@)
    ||| text::contains_seq(s, "AWS"@)
}

/// Whether an error text points at AWS credentials or authentication.
pub fn is_aws_credential_error(error_str: &str) -> (r: bool)
    ensures
        r == is_credential_error_text(error_str@),
{
    let v = to_chars(error_str);
    let n1 = to_chars("credentials");
    let n2 = to_chars("authentication");
    let n3 = to_chars("Unauthorized");
    let n4 = to_chars("dispatch failure");
    let n5 = to_chars("AWS");
    text::contains_chars(v.as_slice(), n1.as_slice())
        || text::contains_chars(v.as_slice(), n2.as_slice())
        || text::contains_chars(v.as_slice(), n3.as_slice())
        || text::contains_chars(v.as_slice(), n4.as_slice())
        || text::contains_chars(v.as_slice(), n5.as_slice())
}

/// The message shown for a speech error: with AWS Polly, an error about
/// credentials is replaced by the message of the credentials check
/// (`credentials`), when that check fails.
pub open spec fn spec_format_tts_error(error: Seq<char>, backend: TTSBackend, credentials: Result<(), String>) -> Seq<char> {
    if backend == TTSBackend::AwsPolly && is_credential_error_text(error) {
        match credentials {
            Err(m) => m@,
            Ok(_) => error,
        }
    } else {
        error
    }
}

/// The message shown for a speech error (see [`spec_format_tts_error`]).
pub fn format_tts_error(error: &str, backend: TTSBackend, credentials: &Result<(), String>) -> (r: String)
    ensures
        r@ == spec_format_tts_error(error@, backend, *credentials),
{
    if backend == TTSBackend::AwsPolly && is_aws_credential_error(error) {
        match credentials {
            Err(m) => m.clone(),
            Ok(()) => error.to_owned(),
        }
    } else {
        error.to_owned()
    }
}

// ----------------------------------------------------------------------------
// Laws
// ----------------------------------------------------------------------------

/// The state's own consistency: a loading state has a status line, and the
/// settings modal is shown only with a settings window.
pub open spec fn ui_wf(s: UiState) -> bool {
    &&& s.is_loading ==> s.status_text is Some
    &&& s.show_settings_modal ==> s.settings_window_id is Some
}

/// Every event keeps the state consistent.
pub proof fn lemma_next_keeps_wf(s: UiState, e: Event)
    requires
        ui_wf(s),
    ensures
        ui_wf(next(s, e).0),
{
    match e {
        Event::SkipBackward => {},
        Event::SkipForward => {},
        Event::PlayPause => {},
        Event::PlaybackPaused(_) => {},
        Event::PlaybackResumed(_) => {},
        Event::Stop => {},
        Event::Tick { .. } => {},
        Event::Settings => {},
        Event::SettingsWindowOpened(_) => {},
        Event::CloseSettings => {},
        Event::ProviderSelected { .. } => {},
        Event::LogLevelSelected(_) => {},
        Event::TextCleanupToggled(_) => {},
        Event::WindowOpened(_) => {},
        Event::WindowClosed(_) => {},
        Event::TTSInitialized(_) => {},
        Event::SelectedTextFetched(_) => {},
        Event::TextCleanupResponse(_) => {},
        Event::StartDrag => {},
        Event::VoicesJsonLoaded(_) => {},
        Event::PollyVoicesLoaded(_) => {},
        Event::OpenVoiceSelection(_) => {},
        Event::VoiceSelectionWindowOpened(_) => {},
        Event::CloseVoiceSelection => {},
        Event::OpenPollyInfo => {},
        Event::PollyInfoWindowOpened(_) => {},
        Event::ClosePollyInfo => {},
        Event::OpenPollyPricingUrl => {},
        Event::VoiceSelected(_) => {},
        Event::VoiceDownloadRequested(_) => {},
        Event::VoiceDownloaded(_) => {},
    }
}

/// A second settings window is never opened: asking for settings while
/// they are open changes nothing.
pub proof fn lemma_single_settings_window(s: UiState)
    requires
        s.settings_window_id is Some,
    ensures
        next(s, Event::Settings) == (s, Seq::<Action>::empty()),
{
}

/// Closing the main window leaves the application.
pub proof fn lemma_main_window_close_exits(s: UiState, id: u64)
    requires
        s.main_window_id == Some(id),
    ensures
        next(s, Event::WindowClosed(id)).1 == seq![Action::Exit],
{
}

/// Play/pause on playing speech pauses it; play/pause again resumes it,
/// and the state is as before.
pub proof fn lemma_pause_resume_round_trip(s: UiState)
    requires
        s.has_provider,
        s.playback_state == PlaybackState::Playing,
    ensures
        next(s, Event::PlayPause) == (s, seq![Action::Pause]),
        next(s, Event::PlaybackPaused(true)).0.playback_state == PlaybackState::Paused,
        next(next(s, Event::PlaybackPaused(true)).0, Event::PlayPause).1 == seq![Action::Resume],
        next(next(s, Event::PlaybackPaused(true)).0, Event::PlaybackResumed(true)).0 == s,
{
}

/// Stop always ends playback and loading, stops the provider and closes
/// the window.
pub proof fn lemma_stop_stops(s: UiState)
    ensures
        next(s, Event::Stop).0.playback_state == PlaybackState::Stopped,
        !next(s, Event::Stop).0.is_loading,
        next(s, Event::Stop).0.status_text is None,
        next(s, Event::Stop).1 == seq![Action::StopPlayback, Action::CloseLatestWindow],
{
}

/// Choosing a provider saves the choice first, so that later runs start
/// with it; when AWS Polly is chosen with credentials present before its
/// voices are loaded, its voices are fetched after the save.
pub proof fn lemma_provider_choice_saved(s: UiState, backend: TTSBackend, credentials: Result<(), String>)
    ensures
        next(s, Event::ProviderSelected { backend, credentials }).1.len() >= 1,
        next(s, Event::ProviderSelected { backend, credentials }).1[0] == Action::SaveVoiceProvider(backend),
        next(s, Event::ProviderSelected { backend, credentials }).1 == if backend == TTSBackend::AwsPolly
            && credentials is Ok && s.polly_voices is None {
            seq![Action::SaveVoiceProvider(backend), Action::FetchPollyVoices]
        } else {
            seq![Action::SaveVoiceProvider(backend)]
        },
        next(s, Event::ProviderSelected { backend, credentials }).0.selected_backend == backend,
{
}

/// Choosing a log level saves it, so that later runs start with it, and
/// applies it to the running logger at once.
pub proof fn lemma_log_level_applied(s: UiState, level: LogLevel)
    ensures
        next(s, Event::LogLevelSelected(level)).0.log_level == level,
        next(s, Event::LogLevelSelected(level)).1 == seq![Action::SaveLogLevel(level), Action::SetVerbosity(level)],
{
}

/// Loaded voice lists are kept: after the Piper catalogue or the AWS Polly
/// voices arrive, the state holds exactly the list that arrived, and the
/// other list is left as it was.
pub proof fn lemma_loaded_voices_kept(
    s: UiState,
    piper: Vec<(String, VoiceInfo)>,
    polly: Vec<(String, PollyVoiceInfo)>,
)
    ensures
        next(s, Event::VoicesJsonLoaded(Ok(piper))).0.voices == Some(piper),
        next(s, Event::VoicesJsonLoaded(Ok(piper))).0.polly_voices == s.polly_voices,
        next(s, Event::PollyVoicesLoaded(Ok(polly))).0.polly_voices == Some(polly),
        next(s, Event::PollyVoicesLoaded(Ok(polly))).0.voices == s.voices,
{
}

/// Skipping moves the audio in the direction asked, and only while there is
/// speech to skip in.
pub proof fn lemma_skip_direction(s: UiState)
    ensures
        s.has_provider ==> next(s, Event::SkipForward).1 == seq![Action::Skip(SkipDirection::Forward)],
        s.has_provider ==> next(s, Event::SkipBackward).1 == seq![Action::Skip(SkipDirection::Backward)],
        !s.has_provider ==> next(s, Event::SkipForward).1.len() == 0 && next(s, Event::SkipBackward).1.len() == 0,
        next(s, Event::SkipForward).0 == s && next(s, Event::SkipBackward).0 == s,
{
}

/// Toggling Natural Reading takes the new setting and saves it.
pub proof fn lemma_text_cleanup_toggle_saved(s: UiState, enabled: bool)
    ensures
        next(s, Event::TextCleanupToggled(enabled)).0.text_cleanup_enabled == enabled,
        next(s, Event::TextCleanupToggled(enabled)).1 == seq![Action::SaveTextCleanupEnabled(enabled)],
{
}

/// The cleaned text is what is spoken, with the selected provider and AWS
/// voice; a failed cleanup ends the loading and shows its message.
pub proof fn lemma_cleaned_text_spoken(s: UiState, cleaned: String, failure: String)
    ensures
        next(s, Event::TextCleanupResponse(Ok(cleaned))).1 == seq![Action::InitializeTts {
            backend: s.selected_backend,
            text: cleaned,
            polly_voice: s.selected_polly_voice,
        }],
        !next(s, Event::TextCleanupResponse(Err(failure))).0.is_loading,
        next(s, Event::TextCleanupResponse(Err(failure))).0.error_message == Some(UiError::Reported(failure)),
{
}

/// Speech that started plays, with any earlier error cleared; speech that
/// failed to start ends the loading and shows why.
pub proof fn lemma_speech_start_outcome(s: UiState, failure: String)
    ensures
        next(s, Event::TTSInitialized(TtsOutcome::Ready)).0.has_provider,
        next(s, Event::TTSInitialized(TtsOutcome::Ready)).0.playback_state == PlaybackState::Playing,
        next(s, Event::TTSInitialized(TtsOutcome::Ready)).0.error_message is None,
        !next(s, Event::TTSInitialized(TtsOutcome::Ready)).0.is_loading,
        !next(s, Event::TTSInitialized(TtsOutcome::Failed(failure))).0.is_loading,
        next(s, Event::TTSInitialized(TtsOutcome::Failed(failure))).0.error_message == Some(UiError::Reported(failure)),
{
}

proof fn lemma_voice_index(voices: Seq<(String, VoiceInfo)>, key: Seq<char>)
    ensures
        voice_index(voices, key) < voices.len(),
        voice_index(voices, key) >= 0 ==> voices[voice_index(voices, key)].0@ == key,
        voice_index(voices, key) < 0 ==> forall|i: int| 0 <= i < voices.len() ==> voices[i].0@ != key,
    decreases voices.len(),
{
    if voices.len() > 0 && voices[0].0@ != key {
        let rest = voices.drop_first();
        lemma_voice_index(rest, key);
        assert forall|i: int| 0 <= i < voices.len() && voice_index(voices, key) < 0 implies voices[i].0@ != key by {
            if i > 0 {
                assert(voices[i] == rest[i - 1]);
            }
        }
    }
}

/// A download request downloads the catalogue entry with the key asked for
/// and marks that voice as downloading; a key missing from the catalogue
/// is reported and nothing is downloaded.
pub proof fn lemma_download_requested_voice(s: UiState, key: String)
    ensures
        next(s, Event::VoiceDownloadRequested(key)).1.len() <= 1,
        next(s, Event::VoiceDownloadRequested(key)).1.len() == 1 ==> ({
            let a = next(s, Event::VoiceDownloadRequested(key)).1[0];
            &&& a matches Action::DownloadVoice { key: k, index: i }
            &&& k == key
            &&& s.voices is Some
            &&& (i as int) < s.voices.unwrap()@.len()
            &&& s.voices.unwrap()@[i as int].0@ == key@
        }),
        next(s, Event::VoiceDownloadRequested(key)).1.len() == 1
            ==> next(s, Event::VoiceDownloadRequested(key)).0.downloading_voice == Some(key),
        next(s, Event::VoiceDownloadRequested(key)).1.len() == 0 ==> (s.voices is None || forall|i: int|
            0 <= i < s.voices.unwrap()@.len() ==> s.voices.unwrap()@[i].0@ != key@)
            && next(s, Event::VoiceDownloadRequested(key)).0.error_message == Some(UiError::VoiceNotFound(key)),
{
    if let Some(v) = s.voices {
        lemma_voice_index(v@, key@);
        assert(v.len() == v@.len());
        let i = voice_index(v@, key@);
        if i >= 0 {
            assert((i as usize) as int == i);
        }
    }
}

/// A finished download selects the downloaded voice and saves it; a failed
/// one shows why. Either way the download is over.
pub proof fn lemma_download_finished(s: UiState, key: String, failure: String)
    ensures
        next(s, Event::VoiceDownloaded(Ok(key))).0.selected_voice == Some(key),
        next(s, Event::VoiceDownloaded(Ok(key))).1 == seq![Action::SaveSelectedVoice(key)],
        next(s, Event::VoiceDownloaded(Ok(key))).0.downloading_voice is None,
        next(s, Event::VoiceDownloaded(Err(failure))).0.downloading_voice is None,
        next(s, Event::VoiceDownloaded(Err(failure))).0.error_message == Some(UiError::DownloadFailed(failure)),
        next(s, Event::VoiceDownloaded(Err(failure))).1.len() == 0,
{
}

/// Closing the settings, voice selection or AWS Polly window closes the
/// window that was opened for it, and forgets it.
pub proof fn lemma_close_opened_windows(s: UiState, id: u64)
    ensures
        next(next(s, Event::SettingsWindowOpened(id)).0, Event::CloseSettings).1 == seq![Action::CloseWindow(id)],
        next(next(s, Event::SettingsWindowOpened(id)).0, Event::CloseSettings).0.settings_window_id is None,
        next(next(s, Event::VoiceSelectionWindowOpened(id)).0, Event::CloseVoiceSelection).1 == seq![Action::CloseWindow(id)],
        next(next(s, Event::VoiceSelectionWindowOpened(id)).0, Event::CloseVoiceSelection).0.voice_selection_window_id is None,
        next(next(s, Event::PollyInfoWindowOpened(id)).0, Event::ClosePollyInfo).1 == seq![Action::CloseWindow(id)],
        next(next(s, Event::PollyInfoWindowOpened(id)).0, Event::ClosePollyInfo).0.polly_info_window_id is None,
{
}

/// When the provider has finished (neither playing nor paused) and no
/// work is in progress, the next tick stops playback and closes the window.
pub proof fn lemma_finished_playback_closes(s: UiState)
    requires
        s.has_provider,
        !s.is_loading,
        s.downloading_voice is None,
    ensures
        next(s, Event::Tick { provider_active: false }).0.playback_state == PlaybackState::Stopped,
        next(s, Event::Tick { provider_active: false }).1 == seq![Action::RefreshPlayback, Action::CloseLatestWindow],
{
}

/// A selected voice becomes the voice of the selected provider, and is
/// saved first.
pub proof fn lemma_voice_selected_saved(s: UiState, key: String)
    ensures
        s.selected_backend == TTSBackend::Piper ==> next(s, Event::VoiceSelected(key)).0.selected_voice == Some(key)
            && next(s, Event::VoiceSelected(key)).1[0] == Action::SaveSelectedVoice(key),
        s.selected_backend == TTSBackend::AwsPolly ==> next(s, Event::VoiceSelected(key)).0.selected_polly_voice == Some(key)
            && next(s, Event::VoiceSelected(key)).1[0] == Action::SaveSelectedPollyVoice(key),
        next(s, Event::VoiceSelected(key)).0.voice_selection_window_id is None,
{
}

/// Text fetched before the main window opens is read once it opens, just as
/// text fetched after it opened: the same work starts, with the same
/// loading state.
pub proof fn lemma_text_read_whenever_window_opens(s: UiState, text: String, id: u64)
    requires
        s.main_window_id is None,
        s.pending_text is None,
    ensures
        next(next(s, Event::SelectedTextFetched(Some(text))).0, Event::WindowOpened(id)).1
            == next(next(s, Event::WindowOpened(id)).0, Event::SelectedTextFetched(Some(text))).1,
        next(next(s, Event::SelectedTextFetched(Some(text))).0, Event::WindowOpened(id)).0.status_text
            == next(next(s, Event::WindowOpened(id)).0, Event::SelectedTextFetched(Some(text))).0.status_text,
        next(next(s, Event::WindowOpened(id)).0, Event::SelectedTextFetched(Some(text))).0.is_loading,
{
}

} // verus!
