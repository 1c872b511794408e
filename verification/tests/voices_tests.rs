use insight_reader::flags::lang_mapping::lang_to_country;
use insight_reader::model::{FileInfo, LanguageInfo, PollyVoiceInfo, VoiceInfo};
use insight_reader::voices::aws::{
    choose_region, create_language_info, get_language_names, polly_voice_entries,
    read_region_from_profile_section, region_from_config, DescribedVoice,
};
use insight_reader::voices::download::{
    check_md5, find_config_file, find_model_file, md5_check_result, md5_hex, model_directory_in,
    voice_directory, voice_downloads, voice_file_paths, voice_model_path,
};
use insight_reader::voices::{get_available_languages, get_voices_for_language, one_per_key};

fn lang(code: &str, family: &str, region: &str, name: &str) -> LanguageInfo {
    LanguageInfo {
        code: code.to_string(),
        family: family.to_string(),
        region: region.to_string(),
        name_native: name.to_string(),
        name_english: name.to_string(),
        country_english: region.to_string(),
    }
}

fn voice(key: &str, language: LanguageInfo, files: Vec<(&str, &str)>) -> VoiceInfo {
    VoiceInfo {
        key: key.to_string(),
        name: key.to_string(),
        language,
        quality: "medium".to_string(),
        num_speakers: 1,
        speaker_id_map: vec![],
        files: files
            .into_iter()
            .map(|(p, m)| (p.to_string(), FileInfo { size_bytes: 10, md5_digest: m.to_string() }))
            .collect(),
        aliases: vec![],
    }
}

#[test]
fn piper_languages_are_distinct_and_sorted() {
    let voices = vec![
        ("pt_BR-faber-medium".to_string(), voice("pt_BR-faber-medium", lang("pt_BR", "pt", "BR", "Português"), vec![])),
        ("en_US-lessac-medium".to_string(), voice("en_US-lessac-medium", lang("en_US", "en", "US", "English"), vec![])),
        ("en_GB-alan-low".to_string(), voice("en_GB-alan-low", lang("en_GB", "en", "GB", "English"), vec![])),
        ("en_US-amy-low".to_string(), voice("en_US-amy-low", lang("en_US", "en", "US", "English"), vec![])),
    ];
    let langs = get_available_languages(&voices);
    let codes: Vec<&str> = langs.iter().map(|(c, _)| c.as_str()).collect();
    assert_eq!(codes, vec!["en_GB", "en_US", "pt_BR"]);
    assert_eq!(langs[2].1.family, "pt");

    let us = get_voices_for_language(&voices, "en_US");
    let keys: Vec<&str> = us.iter().map(|v| v.key.as_str()).collect();
    assert_eq!(keys, vec!["en_US-lessac-medium", "en_US-amy-low"]);
    assert!(get_voices_for_language(&voices, "de_DE").is_empty());
    assert!(get_available_languages(&vec![]).is_empty());
}

#[test]
fn language_names() {
    assert_eq!(get_language_names("en", "US"), ("English".to_string(), "United States".to_string()));
    assert_eq!(get_language_names("pt", "BR"), ("Portuguese".to_string(), "Brazil".to_string()));
    assert_eq!(get_language_names("xx", "ZZ"), ("Unknown".to_string(), "Unknown".to_string()));
}

#[test]
fn aws_language_info() {
    let info = create_language_info("en-GB");
    assert_eq!(info.code, "en_GB");
    assert_eq!(info.family, "en");
    assert_eq!(info.region, "GB");
    assert_eq!(info.name_english, "English");
    assert_eq!(info.name_native, "English");
    assert_eq!(info.country_english, "United Kingdom");
    let arb = create_language_info("arb");
    assert_eq!(arb.code, "arb");
    assert_eq!(arb.family, "arb");
    assert_eq!(arb.region, "US");
    assert_eq!(arb.name_english, "Unknown");
    assert_eq!(arb.country_english, "United States");
}

fn described(id: &str, name: Option<&str>, lang: &str, gender: Option<&str>, engines: &[&str]) -> DescribedVoice {
    DescribedVoice {
        id: Some(id.to_string()),
        name: name.map(|s| s.to_string()),
        language_code: Some(lang.to_string()),
        gender: gender.map(|s| s.to_string()),
        supported_engines: engines.iter().map(|e| e.to_string()).collect(),
    }
}

#[test]
fn polly_entries_one_per_engine() {
    let mut no_lang = described("Ghost", None, "en-US", None, &["Neural"]);
    no_lang.language_code = None;
    let list = vec![
        described("Joanna", Some("Joanna"), "en-US", Some("Female"), &["Standard", "Neural"]),
        described("Camila", None, "pt-BR", None, &["Neural"]),
        no_lang,
    ];
    let entries = polly_voice_entries(&list);
    let mut keys: Vec<&str> = entries.iter().map(|(k, _)| k.as_str()).collect();
    keys.sort();
    assert_eq!(keys, vec!["Camila:Neural", "Joanna:Neural", "Joanna:Standard"]);
    let camila = &entries.iter().find(|(k, _)| k == "Camila:Neural").unwrap().1;
    assert_eq!(camila.name, "Camila");
    assert_eq!(camila.gender, "Unknown");
    assert_eq!(camila.engine, "Neural");
    assert_eq!(camila.language.code, "pt_BR");
}

#[test]
fn polly_languages_and_voices() {
    let list = vec![
        described("Joanna", Some("Joanna"), "en-US", Some("Female"), &["Neural"]),
        described("Vitoria", Some("Vitória"), "pt-BR", Some("Female"), &["Standard"]),
    ];
    let entries: Vec<(String, PollyVoiceInfo)> = polly_voice_entries(&list);
    let langs = insight_reader::voices::aws::get_available_languages(&entries);
    let codes: Vec<&str> = langs.iter().map(|(c, _)| c.as_str()).collect();
    assert_eq!(codes, vec!["en_US", "pt_BR"]);
    let pt = insight_reader::voices::aws::get_voices_for_language(&entries, "pt_BR");
    assert_eq!(pt.len(), 1);
    assert_eq!(pt[0].id, "Vitoria");
}

#[test]
fn region_from_aws_config() {
    let content = "[default]\nregion = eu-west-1\n\n[profile work]\nregion=us-west-2\noutput = json\n";
    assert_eq!(region_from_config(content, "default"), Some("eu-west-1".to_string()));
    assert_eq!(region_from_config(content, "work"), Some("us-west-2".to_string()));
    assert_eq!(region_from_config(content, "home"), None);
    assert_eq!(read_region_from_profile_section(content, "work"), Some("us-west-2".to_string()));
    assert_eq!(read_region_from_profile_section("[PROFILE Work]\nregion = ap-south-1", "work"), Some("ap-south-1".to_string()));
    assert_eq!(region_from_config("[default]\nregion =   \n", "default"), None);
}

#[test]
fn region_priority() {
    assert_eq!(choose_region(Some("eu-central-1".into()), Some("us-west-1".into()), Some("x".into())), "eu-central-1");
    assert_eq!(choose_region(Some(String::new()), Some("us-west-1".into()), None), "us-west-1");
    assert_eq!(choose_region(None, None, Some("sa-east-1".into())), "sa-east-1");
    assert_eq!(choose_region(None, Some(String::new()), None), "us-east-1");
}

#[test]
fn country_flags() {
    assert_eq!(lang_to_country("en_US"), "US");
    assert_eq!(lang_to_country("pt_BR"), "BR");
    assert_eq!(lang_to_country("pt_br"), "GLOBE");
    assert_eq!(lang_to_country("ar_XX"), "SA");
    assert_eq!(lang_to_country("ja"), "JP");
    assert_eq!(lang_to_country("cy_XX"), "GB");
    assert_eq!(lang_to_country("tlh"), "GLOBE");
}

#[test]
fn model_directory_and_files() {
    assert_eq!(
        model_directory_in(&Some("/home/ada/.local/share".to_string())),
        Ok("/home/ada/.local/share/insight-reader/models".to_string())
    );
    assert_eq!(model_directory_in(&None), Err("Failed to get data directory".to_string()));
    let (onnx, json) = voice_file_paths("/data/models", "en_US-amy-low");
    assert_eq!(onnx, "/data/models/en_US-amy-low/en_US-amy-low.onnx");
    assert_eq!(json, "/data/models/en_US-amy-low/en_US-amy-low.onnx.json");
    assert_eq!(voice_model_path("/data/models", "en_US-amy-low"), "/data/models/en_US-amy-low/en_US-amy-low");
    assert_eq!(voice_directory("/data/models", "en_US-amy-low"), "/data/models/en_US-amy-low");
}

#[test]
fn download_plan_for_a_voice() {
    let v = voice(
        "en_US-amy-low",
        lang("en_US", "en", "US", "English"),
        vec![
            ("en/en_US/amy/low/MODEL_CARD", "m0"),
            ("en/en_US/amy/low/en_US-amy-low.onnx.json", "m1"),
            ("en/en_US/amy/low/en_US-amy-low.onnx", "m2"),
        ],
    );
    assert_eq!(find_model_file(&v.files), Some(2));
    assert_eq!(find_config_file(&v.files), Some(1));
    let plan = voice_downloads("en_US-amy-low", &v, "/data/models").unwrap();
    assert_eq!(plan.len(), 2);
    assert_eq!(
        plan[0].url,
        "https://huggingface.co/rhasspy/piper-voices/resolve/main/en/en_US/amy/low/en_US-amy-low.onnx"
    );
    assert_eq!(plan[0].path, "/data/models/en_US-amy-low/en_US-amy-low.onnx");
    assert_eq!(plan[0].md5_digest, "m2");
    assert_eq!(plan[1].path, "/data/models/en_US-amy-low/en_US-amy-low.onnx.json");
    assert_eq!(plan[1].md5_digest, "m1");
}

#[test]
fn download_plan_errors() {
    let no_model = voice("x", lang("en_US", "en", "US", "English"), vec![("x.onnx.json", "a")]);
    assert_eq!(
        voice_downloads("x", &no_model, "/m").unwrap_err(),
        "No .onnx file found for voice x"
    );
    let no_config = voice("y", lang("en_US", "en", "US", "English"), vec![("y.onnx", "a")]);
    assert_eq!(
        voice_downloads("y", &no_config, "/m").unwrap_err(),
        "No .onnx.json file found for voice y"
    );
}

#[test]
fn md5_digests() {
    assert_eq!(md5_hex(b""), "d41d8cd98f00b204e9800998ecf8427e");
    assert_eq!(md5_hex(b"abc"), "900150983cd24fb0d6963f7d28e17f72");
    assert_eq!(check_md5(b"abc", "900150983cd24fb0d6963f7d28e17f72", "/m/a.onnx"), Ok(()));
    assert_eq!(
        check_md5(b"abd", "900150983cd24fb0d6963f7d28e17f72", "/m/a.onnx"),
        Err(format!(
            "MD5 checksum mismatch for /m/a.onnx: expected 900150983cd24fb0d6963f7d28e17f72, got {}",
            md5_hex(b"abd")
        ))
    );
    assert_eq!(
        md5_check_result("aa", "bb", "p"),
        Err("MD5 checksum mismatch for p: expected bb, got aa".to_string())
    );
}

#[test]
fn later_polly_entry_with_same_key_wins() {
    let list = vec![
        described("Joanna", Some("First"), "en-US", Some("Female"), &["Neural"]),
        described("Joanna", Some("Second"), "en-GB", Some("Female"), &["Neural", "Standard"]),
    ];
    let entries = polly_voice_entries(&list);
    assert_eq!(entries.len(), 2);
    let neural = &entries.iter().find(|(k, _)| k == "Joanna:Neural").unwrap().1;
    assert_eq!(neural.name, "Second");
    assert_eq!(neural.language.code, "en_GB");
}

#[test]
fn language_lists_partition_the_voices() {
    let voices = vec![
        ("pt_BR-faber-medium".to_string(), voice("pt_BR-faber-medium", lang("pt_BR", "pt", "BR", "Português"), vec![])),
        ("en_US-lessac-medium".to_string(), voice("en_US-lessac-medium", lang("en_US", "en", "US", "English"), vec![])),
        ("en_GB-alan-low".to_string(), voice("en_GB-alan-low", lang("en_GB", "en", "GB", "English"), vec![])),
        ("en_US-amy-low".to_string(), voice("en_US-amy-low", lang("en_US", "en", "US", "English"), vec![])),
    ];
    let total: usize = get_available_languages(&voices)
        .iter()
        .map(|(c, _)| get_voices_for_language(&voices, c).len())
        .sum();
    assert_eq!(total, voices.len());

    let list = vec![
        described("Joanna", Some("Joanna"), "en-US", Some("Female"), &["Standard", "Neural"]),
        described("Matthew", Some("Matthew"), "en-US", Some("Male"), &["Neural"]),
        described("Vitoria", Some("Vitória"), "pt-BR", Some("Female"), &["Standard"]),
    ];
    let entries = polly_voice_entries(&list);
    let total: usize = insight_reader::voices::aws::get_available_languages(&entries)
        .iter()
        .map(|(c, _)| insight_reader::voices::aws::get_voices_for_language(&entries, c).len())
        .sum();
    assert_eq!(total, entries.len());
    assert_eq!(total, 4);
}

#[test]
fn one_entry_per_key_the_last_wins() {
    let entries = vec![
        ("a".to_string(), 1),
        ("b".to_string(), 2),
        ("a".to_string(), 3),
        ("c".to_string(), 4),
        ("b".to_string(), 5),
    ];
    assert_eq!(
        one_per_key(entries),
        vec![("a".to_string(), 3), ("c".to_string(), 4), ("b".to_string(), 5)]
    );
    assert_eq!(one_per_key(Vec::<(String, u8)>::new()), vec![]);
}

#[test]
fn downloaded_voice_is_among_the_model_candidates() {
    let data = Some("/home/ada/.local/share".to_string());
    let models = model_directory_in(&data).unwrap();
    let downloaded = voice_model_path(&models, "de_DE-thorsten-high");
    let candidates = insight_reader::providers::piper::model_candidates(
        &Some("/work".to_string()),
        &data,
        "de_DE-thorsten-high",
    );
    assert!(candidates.contains(&downloaded));
}
