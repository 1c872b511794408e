use insight_reader::config::{LoadedConfig, RawConfig};
use insight_reader::hotkey::{
    code_to_string, format_hotkey_display, format_key_code, iced_key_to_global_hotkey_code,
    iced_modifiers_to_global_hotkey_modifiers, load_hotkey_config, modifiers_to_string,
    save_hotkey_config, string_to_code, string_to_modifiers, HotkeyConfig, HotkeyModifiers, NamedKey,
    PressedKey, PressedModifiers,
};
use insight_reader::model::Platform;

fn mods(shift: bool, alt: bool, control: bool, meta: bool) -> HotkeyModifiers {
    HotkeyModifiers { shift, alt, control, meta }
}

#[test]
fn default_hotkey_per_platform() {
    let mac = HotkeyConfig::default_for(Platform::MacOs);
    assert_eq!(mac.modifiers, mods(false, false, false, true));
    assert_eq!(mac.key, "KeyR");
    let linux = HotkeyConfig::default_for(Platform::Linux);
    assert_eq!(linux.modifiers, mods(false, false, true, false));
    assert_eq!(linux.key, "KeyR");
}

#[test]
fn modifiers_are_written_in_fixed_order() {
    assert_eq!(modifiers_to_string(mods(true, true, true, true), Platform::Linux), "shift,alt,control,meta");
    assert_eq!(modifiers_to_string(mods(false, false, false, true), Platform::MacOs), "command");
    assert_eq!(modifiers_to_string(mods(true, false, true, false), Platform::Windows), "shift,control");
    assert_eq!(modifiers_to_string(mods(false, false, false, false), Platform::Linux), "");
}

#[test]
fn modifiers_are_read_leniently() {
    assert_eq!(string_to_modifiers(" Shift , CMD,option"), mods(true, true, false, true));
    assert_eq!(string_to_modifiers("ctrl,meta"), mods(false, false, true, true));
    assert_eq!(string_to_modifiers("hyper,,"), mods(false, false, false, false));
}

#[test]
fn key_names() {
    assert_eq!(code_to_string("KeyR"), "r");
    assert_eq!(code_to_string("Space"), "space");
    assert_eq!(code_to_string("Digit1"), "digit1");
    assert_eq!(string_to_code("R"), Some("KeyR".to_string()));
    assert_eq!(string_to_code("t"), Some("KeyT".to_string()));
    assert_eq!(string_to_code("SPACE"), Some("Space".to_string()));
    assert_eq!(string_to_code("f5"), Some("F5".to_string()));
    assert_eq!(string_to_code("a"), Some("KeyA".to_string()));
    assert_eq!(string_to_code("Z"), Some("KeyZ".to_string()));
    assert_eq!(string_to_code("digit7"), Some("Digit7".to_string()));
    assert_eq!(string_to_code("ArrowUp"), Some("ArrowUp".to_string()));
    assert_eq!(string_to_code("pagedown"), Some("PageDown".to_string()));
    assert_eq!(string_to_code("f12"), Some("F12".to_string()));
    assert_eq!(string_to_code("bogus"), Some("KeyR".to_string()));
}

#[test]
fn loading_hotkey_defaults_and_values() {
    let (h, enabled) = load_hotkey_config(&Ok(RawConfig::empty()), Platform::Linux);
    assert_eq!(h.modifiers, mods(false, false, true, false));
    assert_eq!(h.key, "KeyR");
    assert!(enabled);

    let mut c = RawConfig::empty();
    c.hotkey_enabled = Some(false);
    c.hotkey_modifiers = Some("shift,alt".to_string());
    c.hotkey_key = Some("t".to_string());
    let (h, enabled) = load_hotkey_config(&Ok(c), Platform::MacOs);
    assert_eq!(h.modifiers, mods(true, true, false, false));
    assert_eq!(h.key, "KeyT");
    assert!(!enabled);

    let failed: LoadedConfig = Err(insight_reader::config::ConfigError::Io("denied".to_string()));
    let (h, enabled) = load_hotkey_config(&failed, Platform::MacOs);
    assert_eq!(h.modifiers, mods(false, false, false, true));
    assert_eq!(h.key, "KeyR");
    assert!(enabled);
}

#[test]
fn saving_hotkey_writes_three_fields() {
    let hotkey = HotkeyConfig { modifiers: mods(true, false, true, false), key: "KeyS".to_string() };
    let mut c = RawConfig::empty();
    c.voice_provider = Some("polly".to_string());
    let saved = save_hotkey_config(Ok(c), &hotkey, true, Platform::Linux);
    assert_eq!(saved.hotkey_enabled, Some(true));
    assert_eq!(saved.hotkey_modifiers, Some("shift,control".to_string()));
    assert_eq!(saved.hotkey_key, Some("s".to_string()));
    assert_eq!(saved.voice_provider, Some("polly".to_string()));
}

#[test]
fn saved_hotkey_reads_back() {
    for key in [
        "KeyR", "KeyT", "KeyS", "Space", "KeyA", "KeyZ", "Digit0", "Digit9", "Enter", "Tab", "Backspace",
        "Escape", "ArrowUp", "ArrowDown", "ArrowLeft", "ArrowRight", "Home", "End", "PageUp", "PageDown",
        "Insert", "Delete", "F1", "F9", "F10", "F12",
    ] {
        for platform in [Platform::Linux, Platform::MacOs, Platform::Windows] {
            let hotkey = HotkeyConfig { modifiers: mods(false, true, false, true), key: key.to_string() };
            let saved = save_hotkey_config(Ok(RawConfig::empty()), &hotkey, false, platform);
            let (back, enabled) = load_hotkey_config(&Ok(saved), platform);
            assert_eq!(back.modifiers, hotkey.modifiers);
            assert_eq!(back.key, key);
            assert!(!enabled);
        }
    }
}

#[test]
fn hotkey_without_modifiers_reads_back_with_defaults() {
    let hotkey = HotkeyConfig { modifiers: mods(false, false, false, false), key: "KeyT".to_string() };
    let saved = save_hotkey_config(Ok(RawConfig::empty()), &hotkey, true, Platform::Linux);
    assert_eq!(saved.hotkey_modifiers, None);
    let (back, _) = load_hotkey_config(&Ok(saved), Platform::Linux);
    assert_eq!(back.modifiers, mods(false, false, true, false));
}

#[test]
fn key_display() {
    assert_eq!(format_key_code("KeyR", Platform::Linux), "R");
    assert_eq!(format_key_code("Space", Platform::MacOs), "Space");
    assert_eq!(format_key_code("KeyQ", Platform::Linux), "Q");
    assert_eq!(format_key_code("Digit5", Platform::Linux), "DIGIT5");
    assert_eq!(format_key_code("Space", Platform::Linux), "SPACE");
    assert_eq!(format_key_code("Digit5", Platform::MacOs), "DIGIT5");
    assert_eq!(format_key_code("Digit5", Platform::Windows), "Digit5");
}

#[test]
fn hotkey_display() {
    let h = HotkeyConfig { modifiers: mods(true, true, true, true), key: "KeyR".to_string() };
    assert_eq!(format_hotkey_display(&h, Platform::Linux), "Meta + Ctrl + Shift + Alt + R");
    assert_eq!(format_hotkey_display(&h, Platform::MacOs), "\u{2318}\u{21e7}\u{2325}\u{2303}R");
    let plain = HotkeyConfig { modifiers: mods(false, false, false, false), key: "Space".to_string() };
    assert_eq!(format_hotkey_display(&plain, Platform::Windows), "Space");
}

#[test]
fn pressed_keys_become_codes() {
    assert_eq!(iced_key_to_global_hotkey_code(&PressedKey::Character("r".to_string())), Some("KeyR".to_string()));
    assert_eq!(iced_key_to_global_hotkey_code(&PressedKey::Character("Q".to_string())), Some("KeyQ".to_string()));
    assert_eq!(iced_key_to_global_hotkey_code(&PressedKey::Character("7".to_string())), Some("Digit7".to_string()));
    assert_eq!(iced_key_to_global_hotkey_code(&PressedKey::Character("é".to_string())), None);
    assert_eq!(iced_key_to_global_hotkey_code(&PressedKey::Character("ab".to_string())), None);
    assert_eq!(iced_key_to_global_hotkey_code(&PressedKey::Character("-".to_string())), None);
    assert_eq!(iced_key_to_global_hotkey_code(&PressedKey::Named(NamedKey::Space)), Some("Space".to_string()));
    assert_eq!(iced_key_to_global_hotkey_code(&PressedKey::Named(NamedKey::F12)), Some("F12".to_string()));
    assert_eq!(iced_key_to_global_hotkey_code(&PressedKey::Named(NamedKey::Shift)), None);
    assert_eq!(iced_key_to_global_hotkey_code(&PressedKey::Unidentified), None);
}

#[test]
fn pressed_modifiers_become_hotkey_modifiers() {
    let m = iced_modifiers_to_global_hotkey_modifiers(PressedModifiers { shift: true, alt: false, ctrl: true, logo: true });
    assert_eq!(m, mods(true, false, true, true));
}

#[test]
fn control_a_persists() {
    let hotkey = HotkeyConfig { modifiers: mods(false, false, true, false), key: "KeyA".to_string() };
    let saved = save_hotkey_config(Ok(RawConfig::empty()), &hotkey, true, Platform::Linux);
    let (back, enabled) = load_hotkey_config(&Ok(saved), Platform::Linux);
    assert_eq!(back.modifiers, hotkey.modifiers);
    assert_eq!(back.key, "KeyA");
    assert!(enabled);
}
