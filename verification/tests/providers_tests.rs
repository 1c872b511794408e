use insight_reader::providers::audio_player::{
    chunk_samples, create_wav, pcm_to_samples, samples_for_seconds, PlaybackState, SKIP_SECONDS,
};
use insight_reader::providers::piper::{
    check_piper_paths, fallback_model, fallback_piper_binary, model_candidates, model_name,
    model_with_extension, piper_binary_candidates, piper_on_path, prepare_text, speech_from_output,
};
use insight_reader::providers::polly::{
    check_credentials, credentials_error_message, credentials_section_header, parse_credentials_from_section,
    parse_voice_key, speech_from_reply, PollyEngine,
};
use insight_reader::providers::TTSError;

#[test]
fn pcm_bytes_become_samples() {
    assert_eq!(pcm_to_samples(&[0x01, 0x00, 0xff, 0xff, 0x00, 0x80, 0xff, 0x7f]), vec![1, -1, -32768, 32767]);
    assert_eq!(pcm_to_samples(&[0x10, 0x00, 0x05]), vec![16]);
    assert!(pcm_to_samples(&[]).is_empty());
}

#[test]
fn wav_header_and_data() {
    let wav = create_wav(&[1, -2], 22050);
    assert_eq!(wav.len(), 48);
    assert_eq!(&wav[0..4], b"RIFF");
    assert_eq!(&wav[4..8], &40u32.to_le_bytes());
    assert_eq!(&wav[8..16], b"WAVEfmt ");
    assert_eq!(&wav[16..20], &16u32.to_le_bytes());
    assert_eq!(&wav[20..24], &[1, 0, 1, 0]);
    assert_eq!(&wav[24..28], &22050u32.to_le_bytes());
    assert_eq!(&wav[28..32], &44100u32.to_le_bytes());
    assert_eq!(&wav[32..36], &[2, 0, 16, 0]);
    assert_eq!(&wav[36..40], b"data");
    assert_eq!(&wav[40..44], &4u32.to_le_bytes());
    assert_eq!(&wav[44..], &[1, 0, 0xfe, 0xff]);
}

#[test]
fn wav_data_decodes_back() {
    let samples: Vec<i16> = vec![0, 1, -1, 12345, -32768, 32767];
    let wav = create_wav(&samples, 16000);
    assert_eq!(wav.len(), 44 + 2 * samples.len());
    assert_eq!(pcm_to_samples(&wav[44..]), samples);
}

#[test]
fn playback_start_and_errors() {
    let mut empty = PlaybackState::new();
    assert_eq!(empty.start_playback(), Err(TTSError::AudioError("No audio data to play".to_string())));
    let mut p = PlaybackState::load(1000);
    assert_eq!(p.start_playback(), Ok(0));
    assert!(p.is_playing());
    p.position = 1000;
    assert_eq!(p.start_playback(), Err(TTSError::AudioError("Playback position at end".to_string())));
}

#[test]
fn pause_resume_stop() {
    let mut p = PlaybackState::load(100);
    p.start_playback().unwrap();
    p.position = 40;
    let before = p;
    p.pause();
    assert!(!p.is_playing());
    assert!(p.is_paused());
    p.resume();
    assert_eq!(p, before);
    p.stop();
    assert!(!p.is_playing());
    assert!(!p.is_paused());
    assert_eq!(p.position, 0);
    assert_eq!(p.audio_len, 100);
    let mut idle = PlaybackState::load(100);
    idle.pause();
    assert!(!idle.is_paused());
}

#[test]
fn skipping_clamps_and_reports_restart() {
    let mut p = PlaybackState::load(100);
    p.start_playback().unwrap();
    assert!(p.skip_forward(30));
    assert_eq!(p.position, 30);
    assert!(!p.is_playing);
    assert!(!p.skip_backward(30));
    assert_eq!(p.position, 0);
    p.position = 90;
    p.skip_forward(30);
    assert_eq!(p.position, 100);
    p.position = 10;
    p.skip_backward(30);
    assert_eq!(p.position, 0);
    assert_eq!(p.seek_to(500), false);
    assert_eq!(p.position, 100);
}

#[test]
fn skip_forward_then_back_returns() {
    let mut p = PlaybackState::load(1000);
    p.position = 250;
    p.skip_forward(80);
    p.skip_backward(80);
    assert_eq!(p.position, 250);
}

#[test]
fn tracker_steps() {
    let mut p = PlaybackState::load(100);
    assert!(!p.tracker_step(30));
    p.start_playback().unwrap();
    assert!(p.tracker_step(30));
    assert_eq!((p.position, p.chunk_start, p.chunk_end), (30, 0, 30));
    assert!(p.tracker_step(30));
    assert_eq!((p.position, p.chunk_start, p.chunk_end), (60, 30, 60));
    p.pause();
    assert!(p.tracker_step(30));
    assert_eq!(p.position, 60);
    p.resume();
    assert!(p.tracker_step(30));
    assert!(!p.tracker_step(30));
    assert_eq!(p.position, 100);
    assert!(!p.is_playing);
    assert_eq!(chunk_samples(22050), 1653);
    assert_eq!(chunk_samples(16000), 1200);
}

#[test]
fn piper_text_preparation() {
    assert_eq!(prepare_text("  Hello world \n"), Ok("Hello world".to_string()));
    assert_eq!(prepare_text(" \t\n"), Err(TTSError::ProcessError("Cannot synthesize empty text".to_string())));
}

#[test]
fn piper_output() {
    assert_eq!(speech_from_output(true, Some(0), "", &[2, 0, 3, 0]), Ok(vec![2, 3]));
    assert_eq!(
        speech_from_output(false, Some(1), " model not found \n", &[]),
        Err(TTSError::ProcessError("Piper failed with code Some(1): model not found".to_string()))
    );
    assert_eq!(
        speech_from_output(false, None, "", &[]),
        Err(TTSError::ProcessError("Piper failed with code None: ".to_string()))
    );
    assert_eq!(
        speech_from_output(false, Some(-9), "killed", &[]),
        Err(TTSError::ProcessError("Piper failed with code Some(-9): killed".to_string()))
    );
    assert_eq!(
        speech_from_output(true, Some(0), "  ", &[]),
        Err(TTSError::ProcessError("No audio data generated by piper".to_string()))
    );
    assert_eq!(
        speech_from_output(true, Some(0), "warning: x\n", &[]),
        Err(TTSError::ProcessError("No audio data generated by piper. stderr: warning: x".to_string()))
    );
}

#[test]
fn piper_locations() {
    let cwd = Some("/work/reader".to_string());
    let data = Some("/home/ada/.local/share".to_string());
    assert_eq!(
        piper_binary_candidates(&cwd, &data),
        vec![
            "/work/reader/venv/bin/piper".to_string(),
            "/home/ada/.local/share/insight-reader/venv/bin/piper".to_string()
        ]
    );
    assert_eq!(piper_binary_candidates(&None, &None), Vec::<String>::new());
    assert_eq!(fallback_piper_binary(&None), "/tmp/insight-reader/venv/bin/piper");
    assert_eq!(piper_on_path(true, "/usr/bin/piper\n"), Some("/usr/bin/piper".to_string()));
    assert_eq!(piper_on_path(true, "  "), None);
    assert_eq!(piper_on_path(false, "/usr/bin/piper"), None);
    let name = model_name(&None);
    assert_eq!(name, "en_US-lessac-medium");
    assert_eq!(model_name(&Some("de_DE-thorsten-high".to_string())), "de_DE-thorsten-high");
    assert_eq!(
        model_candidates(&None, &data, &name),
        vec![
            "/home/ada/.local/share/insight-reader/models/en_US-lessac-medium".to_string(),
            "/home/ada/.local/share/insight-reader/models/en_US-lessac-medium/en_US-lessac-medium".to_string(),
        ]
    );
    assert_eq!(fallback_model(&data, "x"), "/home/ada/.local/share/insight-reader/models/x");
}

#[test]
fn model_file_extension() {
    assert_eq!(model_with_extension("/m/en_US-lessac-medium"), "/m/en_US-lessac-medium.onnx");
    assert_eq!(model_with_extension("/m/voice.bin"), "/m/voice.onnx");
    assert_eq!(model_with_extension("/m/v.tar.gz"), "/m/v.tar.onnx");
    assert_eq!(model_with_extension("/m/.hidden"), "/m/.hidden.onnx");
    assert_eq!(model_with_extension("/m/dir/"), "/m/dir.onnx");
    assert_eq!(model_with_extension("/m/.."), "/m/..");
    assert_eq!(model_with_extension(""), "");
    assert_eq!(model_with_extension("/"), "/");
}

#[test]
fn piper_path_checks() {
    assert_eq!(check_piper_paths("/b/piper", true, "/m/x.onnx", true), Ok(()));
    assert_eq!(
        check_piper_paths("/b/piper", false, "/m/x.onnx", false),
        Err(TTSError::ProcessError("Piper binary not found at /b/piper".to_string()))
    );
    assert_eq!(
        check_piper_paths("/b/piper", true, "/m/x.onnx", false),
        Err(TTSError::ProcessError("Piper model (.onnx) not found at /m/x.onnx".to_string()))
    );
}

#[test]
fn polly_voice_keys() {
    assert_eq!(parse_voice_key(None), ("Matthew".to_string(), PollyEngine::Neural));
    assert_eq!(parse_voice_key(Some("Joanna".to_string())), ("Joanna".to_string(), PollyEngine::Neural));
    assert_eq!(parse_voice_key(Some("Joanna:Standard".to_string())), ("Joanna".to_string(), PollyEngine::Standard));
    assert_eq!(parse_voice_key(Some("Ruth:Generative".to_string())), ("Ruth".to_string(), PollyEngine::Generative));
    assert_eq!(parse_voice_key(Some("Danielle:LongForm".to_string())), ("Danielle".to_string(), PollyEngine::LongForm));
    assert_eq!(parse_voice_key(Some("Amy:Turbo".to_string())), ("Amy".to_string(), PollyEngine::Neural));
    assert_eq!(parse_voice_key(Some("A:B:Standard".to_string())), ("A".to_string(), PollyEngine::Neural));
}

#[test]
fn polly_credentials_file() {
    let content = "[default]\naws_access_key_id = AKIA\naws_secret_access_key = SECRET-REDACTED\n[profile dev]\naws_access_key_id=\n";
    assert!(parse_credentials_from_section(content, "[default]"));
    assert!(parse_credentials_from_section(content, "[DEFAULT]"));
    assert!(!parse_credentials_from_section(content, "[profile dev]"));
    assert!(!parse_credentials_from_section("[default]\naws_access_key_id = A\n", "[default]"));
    assert_eq!(credentials_section_header(&None), "[default]");
    assert_eq!(credentials_section_header(&Some("default".to_string())), "[default]");
    assert_eq!(credentials_section_header(&Some("dev".to_string())), "[profile dev]");
}

#[test]
fn polly_credentials_check() {
    assert_eq!(check_credentials(true, true, &None, &None), Ok(()));
    let msg = credentials_error_message();
    assert!(msg.starts_with("AWS credentials not found."));
    assert_eq!(check_credentials(true, false, &None, &None), Err(msg.clone()));
    let file = Some("[profile dev]\naws_access_key_id=a\naws_secret_access_key=b\n".to_string());
    assert_eq!(check_credentials(false, false, &file, &Some("dev".to_string())), Ok(()));
    assert_eq!(check_credentials(false, false, &file, &None), Err(msg));
}

#[test]
fn polly_reply() {
    assert_eq!(speech_from_reply(&[0, 1]), Ok(vec![256]));
    assert_eq!(
        speech_from_reply(&[]),
        Err(TTSError::ProcessError("No audio data generated by AWS Polly".to_string()))
    );
}

#[test]
fn tts_error_messages() {
    assert_eq!(TTSError::ProcessError("x".into()).message(), "Failed to start TTS process: x");
    assert_eq!(TTSError::AudioError("y".into()).message(), "Audio playback error: y");
    assert_eq!(TTSError::ConfigError("z".into()).message(), "Provider not configured: z");
    assert_eq!(TTSError::NotSupported("w".into()).message(), "Operation not supported: w");
}

#[test]
fn five_second_skip_in_samples() {
    assert_eq!(samples_for_seconds(SKIP_SECONDS, 22050), 110250);
    assert_eq!(samples_for_seconds(SKIP_SECONDS, 16000), 80000);
    assert_eq!(samples_for_seconds(0, 16000), 0);
}
