use dictation_settings::codec::load_settings;
use dictation_settings::hotkey::HotkeyConfig;
use dictation_settings::settings::{AppSettings, CleanupPromptSections, PromptSection};
use dictation_settings::store::{HotkeyUpdateError, SettingsManager};
use dictation_settings::validate::{validate_no_duplicate_shortcut, BindingSlot};

fn binding(mods: &[&str], key: &str) -> HotkeyConfig {
    HotkeyConfig {
        modifiers: mods.iter().map(|m| m.to_string()).collect(),
        key: key.to_string(),
    }
}

#[test]
fn absent_file_loads_defaults() {
    let s = load_settings(None);
    assert_eq!(s, AppSettings::default());
}

#[test]
fn corrupt_file_loads_defaults() {
    assert_eq!(load_settings(Some("this is not json")), AppSettings::default());
    assert_eq!(load_settings(Some("")), AppSettings::default());
    assert_eq!(load_settings(Some("{\"toggle_hotkey\": 3}")), AppSettings::default());
    assert_eq!(load_settings(Some("[1, 2, 3]")), AppSettings::default());
}

#[test]
fn empty_object_loads_defaults() {
    let s = load_settings(Some("{}"));
    assert_eq!(s, AppSettings::default());
}

#[test]
fn missing_fields_take_defaults() {
    let s = load_settings(Some("{\"sound_enabled\": false}"));
    let mut expected = AppSettings::default();
    expected.sound_enabled = false;
    assert_eq!(s, expected);
    assert_eq!(s.toggle_hotkey, HotkeyConfig::default_toggle());
    assert_eq!(s.stt_timeout_seconds, None);
}

#[test]
fn unknown_fields_are_ignored() {
    let text = "{\"mystery\": {\"nested\": [1, -2.5e3, \"x\", null, true]}, \"auto_mute_audio\": true}";
    let s = load_settings(Some(text));
    let mut expected = AppSettings::default();
    expected.auto_mute_audio = true;
    assert_eq!(s, expected);
}

#[test]
fn full_document_loads_every_field() {
    let text = "{\"toggle_hotkey\": {\"modifiers\": [\"ctrl\"], \"key\": \"F1\"},\n \"hold_hotkey\": {\"modifiers\": [\"ctrl\", \"shift\"], \"key\": \"F2\"},\n \"paste_last_hotkey\": {\"modifiers\": [], \"key\": \"F3\"},\n \"selected_mic_id\": \"mic-7\",\n \"sound_enabled\": false,\n \"cleanup_prompt_sections\": {\n   \"main\": {\"enabled\": true, \"content\": \"rules\"},\n   \"advanced\": {\"enabled\": false, \"content\": null},\n   \"dictionary\": {\"enabled\": true}\n },\n \"stt_provider\": \"alpha\",\n \"llm_provider\": null,\n \"auto_mute_audio\": true,\n \"stt_timeout_seconds\": 30}";
    let s = load_settings(Some(text));
    assert_eq!(s.toggle_hotkey, binding(&["ctrl"], "F1"));
    assert_eq!(s.hold_hotkey, binding(&["ctrl", "shift"], "F2"));
    assert_eq!(s.paste_last_hotkey, binding(&[], "F3"));
    assert_eq!(s.selected_mic_id, Some("mic-7".to_string()));
    assert!(!s.sound_enabled);
    let cs = s.cleanup_prompt_sections.unwrap();
    assert_eq!(cs.main, PromptSection { enabled: true, content: Some("rules".to_string()) });
    assert_eq!(cs.advanced, PromptSection { enabled: false, content: None });
    assert_eq!(cs.dictionary, PromptSection { enabled: true, content: None });
    assert_eq!(s.stt_provider, Some("alpha".to_string()));
    assert_eq!(s.llm_provider, None);
    assert!(s.auto_mute_audio);
    assert_eq!(s.stt_timeout_seconds, Some(30));
}

#[test]
fn timeout_keeps_the_integer_part_of_a_legacy_fractional_value() {
    let s = load_settings(Some("{\"stt_timeout_seconds\": 30.0, \"sound_enabled\": false}"));
    assert_eq!(s.stt_timeout_seconds, Some(30));
    assert!(!s.sound_enabled);
    let s = load_settings(Some("{\"stt_timeout_seconds\": 30.5}"));
    assert_eq!(s.stt_timeout_seconds, Some(30));
}

#[test]
fn unrepresentable_timeouts_default_without_losing_the_record() {
    let s = load_settings(Some("{\"stt_timeout_seconds\": 99999999999999999999999, \"auto_mute_audio\": true}"));
    assert_eq!(s.stt_timeout_seconds, None);
    assert!(s.auto_mute_audio);
    let s = load_settings(Some("{\"stt_timeout_seconds\": -5}"));
    assert_eq!(s.stt_timeout_seconds, None);
    let s = load_settings(Some("{\"stt_timeout_seconds\": 3e2}"));
    assert_eq!(s.stt_timeout_seconds, None);
}

#[test]
fn fractional_numbers_in_unknown_fields_are_tolerated() {
    let s = load_settings(Some("{\"volume\": 0.75, \"sound_enabled\": false}"));
    let mut expected = AppSettings::default();
    expected.sound_enabled = false;
    assert_eq!(s, expected);
}

#[test]
fn surrogate_pair_escapes_decode() {
    let s = load_settings(Some("{\"selected_mic_id\": \"\\uD83D\\uDE00 mic\"}"));
    assert_eq!(s.selected_mic_id, Some("\u{1F600} mic".to_string()));
}

#[test]
fn lone_surrogate_escapes_default_the_record() {
    let s = load_settings(Some("{\"selected_mic_id\": \"\\uD83D oops\"}"));
    assert_eq!(s, AppSettings::default());
    let s = load_settings(Some("{\"selected_mic_id\": \"\\uDE00 oops\"}"));
    assert_eq!(s, AppSettings::default());
}

#[test]
fn unicode_escapes_decode() {
    let s = load_settings(Some("{\"selected_mic_id\": \"\\u0041\\n\\\"q\\\"\"}"));
    assert_eq!(s.selected_mic_id, Some("A\n\"q\"".to_string()));
}

#[test]
fn replace_then_get_returns_what_was_replaced() {
    let mut m = SettingsManager::new(AppSettings::default());
    let mut custom = AppSettings::default();
    custom.toggle_hotkey = binding(&["ctrl"], "F9");
    custom.selected_mic_id = Some("usb-mic".to_string());
    custom.stt_timeout_seconds = Some(45);
    let _text = m.update(custom.clone());
    assert_eq!(m.get(), custom);
}

#[test]
fn saved_text_reloads_to_the_same_record() {
    let mut custom = AppSettings::default();
    custom.hold_hotkey = binding(&["CTRL", "Shift"], "Backquote");
    custom.selected_mic_id = Some("mic with \"quotes\" and \\slashes\\ and\nnewlines\tand\u{1}ctl".to_string());
    custom.cleanup_prompt_sections = Some(CleanupPromptSections {
        main: PromptSection { enabled: true, content: Some("custom prompt".to_string()) },
        advanced: PromptSection { enabled: false, content: None },
        dictionary: PromptSection { enabled: true, content: Some("a -> b".to_string()) },
    });
    custom.stt_provider = Some("beta".to_string());
    custom.stt_timeout_seconds = Some(18446744073709551615);
    let m = SettingsManager::new(custom.clone());
    let text = m.save();
    assert_eq!(load_settings(Some(&text)), custom);
}

#[test]
fn saved_text_is_json_for_other_readers() {
    let m = SettingsManager::new(AppSettings::default());
    let text = m.save();
    let v: serde_json::Value = serde_json::from_str(&text).unwrap();
    assert_eq!(v["toggle_hotkey"]["key"], serde_json::Value::String("Space".to_string()));
    assert_eq!(v["sound_enabled"], serde_json::Value::Bool(true));
    assert!(v["stt_timeout_seconds"].is_null());
}

#[test]
fn every_field_update_survives_a_reload() {
    let mut m = SettingsManager::new(AppSettings::default());
    let text = m.update_selected_mic(Some("m1".to_string()));
    assert_eq!(load_settings(Some(&text)), m.get());
    let text = m.update_sound_enabled(false);
    assert_eq!(load_settings(Some(&text)), m.get());
    let text = m.update_stt_provider(Some("p".to_string()));
    assert_eq!(load_settings(Some(&text)), m.get());
    let text = m.update_llm_provider(Some("q".to_string()));
    assert_eq!(load_settings(Some(&text)), m.get());
    let text = m.update_auto_mute_audio(true);
    assert_eq!(load_settings(Some(&text)), m.get());
    let text = m.update_stt_timeout(Some(7));
    assert_eq!(load_settings(Some(&text)), m.get());
    let text = m.update_hold_hotkey(binding(&["super"], "F2"));
    assert_eq!(load_settings(Some(&text)), m.get());
    let text = m.update_cleanup_prompt_sections(Some(CleanupPromptSections::default()));
    assert_eq!(load_settings(Some(&text)), m.get());
}

#[test]
fn conflict_check_names_the_colliding_slot() {
    let current = AppSettings::default();
    let candidate = binding(&["ALT", "ctrl"], "backquote");
    let err = validate_no_duplicate_shortcut(&candidate, &current, BindingSlot::Toggle)
        .unwrap_err();
    assert_eq!(err.slot, BindingSlot::Hold);
    assert_eq!(err.message(), "This shortcut is already used for the hold hotkey");
}

#[test]
fn conflict_message_spells_paste_last_with_a_space() {
    let current = AppSettings::default();
    let candidate = binding(&["ctrl", "alt"], "Period");
    let err = validate_no_duplicate_shortcut(&candidate, &current, BindingSlot::Hold)
        .unwrap_err();
    assert_eq!(err.message(), "This shortcut is already used for the paste last hotkey");
}

#[test]
fn resaving_own_value_is_not_a_conflict() {
    let current = AppSettings::default();
    let own = binding(&["ctrl", "alt"], "Space");
    assert!(validate_no_duplicate_shortcut(&own, &current, BindingSlot::Toggle).is_ok());
}

#[test]
fn validated_toggle_update_rejects_hold_duplicate_ignoring_case() {
    let mut m = SettingsManager::new(AppSettings::default());
    let candidate = binding(&["CTRL", "ALT"], "Backquote");
    match m.update_hotkey_validated(BindingSlot::Toggle, candidate) {
        Err(HotkeyUpdateError::Conflict(c)) => assert_eq!(c.slot, BindingSlot::Hold),
        _ => panic!("expected a conflict with the hold slot"),
    }
    assert_eq!(m.get(), AppSettings::default());
}

#[test]
fn validated_toggle_update_accepts_a_fresh_binding() {
    let mut m = SettingsManager::new(AppSettings::default());
    let candidate = binding(&["ctrl", "alt"], "Tab");
    let text = m.update_hotkey_validated(BindingSlot::Toggle, candidate.clone()).unwrap();
    let reloaded = load_settings(Some(&text));
    assert_eq!(reloaded, m.get());
    assert_eq!(m.get().toggle_hotkey, candidate);
    assert_eq!(m.get().hold_hotkey, HotkeyConfig::default_hold());
    assert_eq!(m.get().paste_last_hotkey, HotkeyConfig::default_paste_last());
}

#[test]
fn validated_update_rejects_unparseable_binding() {
    let mut m = SettingsManager::new(AppSettings::default());
    let candidate = binding(&["ctrl", "alt"], "NoSuchKey");
    match m.update_hotkey_validated(BindingSlot::Toggle, candidate) {
        Err(HotkeyUpdateError::Parse(msg)) => assert!(msg.contains("ctrl+alt+NoSuchKey")),
        _ => panic!("expected a parse rejection"),
    }
    assert_eq!(m.get(), AppSettings::default());
}

#[test]
fn reset_restores_default_bindings_and_requires_restart() {
    let mut m = SettingsManager::new(AppSettings::default());
    let _ = m.update_toggle_hotkey(binding(&["ctrl"], "F1"));
    let _ = m.update_hold_hotkey(binding(&["ctrl"], "F2"));
    let _ = m.update_paste_last_hotkey(binding(&["ctrl"], "F3"));
    let (restart_required, text) = m.reset_hotkeys_to_defaults();
    assert!(restart_required);
    let s = m.get();
    assert_eq!(s.toggle_hotkey, HotkeyConfig::default_toggle());
    assert_eq!(s.hold_hotkey, HotkeyConfig::default_hold());
    assert_eq!(s.paste_last_hotkey, HotkeyConfig::default_paste_last());
    assert_eq!(load_settings(Some(&text)), s);
}

#[test]
fn field_order_and_whitespace_do_not_matter() {
    let text = "{\"sound_enabled\":false,\"toggle_hotkey\":{\"key\":\"F8\",\"modifiers\":[\"ctrl\",\"alt\"]}}";
    let s = load_settings(Some(text));
    let mut expected = AppSettings::default();
    expected.sound_enabled = false;
    expected.toggle_hotkey = binding(&["ctrl", "alt"], "F8");
    assert_eq!(s, expected);
}
