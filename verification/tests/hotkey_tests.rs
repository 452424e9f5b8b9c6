use dictation_settings::hotkey::HotkeyConfig;

fn binding(mods: &[&str], key: &str) -> HotkeyConfig {
    HotkeyConfig {
        modifiers: mods.iter().map(|m| m.to_string()).collect(),
        key: key.to_string(),
    }
}

#[test]
fn equality_ignores_case_and_order() {
    let a = binding(&["CTRL", "alt"], "SPACE");
    let b = binding(&["alt", "ctrl"], "Space");
    assert!(a.is_same_as(&b));
    assert!(b.is_same_as(&a));
}

#[test]
fn equality_same_binding_identical() {
    let a = binding(&["ctrl", "alt"], "Space");
    let b = binding(&["ctrl", "alt"], "Space");
    assert!(a.is_same_as(&b));
}

#[test]
fn inequality_on_different_key() {
    let a = binding(&["ctrl", "alt"], "Space");
    let b = binding(&["ctrl", "alt"], "Tab");
    assert!(!a.is_same_as(&b));
    assert!(!b.is_same_as(&a));
}

#[test]
fn duplicate_modifiers_compare_as_multisets() {
    let a = binding(&["ctrl", "ctrl"], "Space");
    let b = binding(&["ctrl", "alt"], "Space");
    assert!(!a.is_same_as(&b));
    assert!(!b.is_same_as(&a));
    let c = binding(&["CTRL", "Ctrl"], "space");
    assert!(a.is_same_as(&c));
    assert!(c.is_same_as(&a));
    let d = binding(&["ctrl"], "Space");
    assert!(!a.is_same_as(&d));
    assert!(!d.is_same_as(&a));
}

#[test]
fn equality_is_symmetric() {
    let a = binding(&["ctrl", "alt"], "Space");
    let b = binding(&["ALT", "ctrl"], "SPACE");
    assert_eq!(a.is_same_as(&b), b.is_same_as(&a));
    assert!(a.is_same_as(&a));
}

#[test]
fn inequality_on_different_modifier_membership() {
    let a = binding(&["ctrl"], "Space");
    let b = binding(&["ctrl", "alt"], "Space");
    assert!(!a.is_same_as(&b));
    assert!(!b.is_same_as(&a));
    let c = binding(&["ctrl", "shift"], "Space");
    assert!(!b.is_same_as(&c));
}

#[test]
fn shortcut_string_lowercases_modifiers_only() {
    let a = binding(&["CTRL", "Alt"], "Space");
    assert_eq!(a.to_shortcut_string(), "ctrl+alt+Space");
    let b = binding(&[], "F5");
    assert_eq!(b.to_shortcut_string(), "F5");
}

#[test]
fn default_bindings_render_canonically() {
    assert_eq!(HotkeyConfig::default_toggle().to_shortcut_string(), "ctrl+alt+Space");
    assert_eq!(HotkeyConfig::default_hold().to_shortcut_string(), "ctrl+alt+Backquote");
    assert_eq!(HotkeyConfig::default_paste_last().to_shortcut_string(), "ctrl+alt+Period");
}

#[test]
fn default_bindings_parse_in_platform_grammar() {
    assert!(HotkeyConfig::default_toggle().check_parseable().is_ok());
    assert!(HotkeyConfig::default_hold().check_parseable().is_ok());
    assert!(HotkeyConfig::default_paste_last().check_parseable().is_ok());
}

#[test]
fn unknown_key_is_rejected_by_platform_grammar() {
    let bad = binding(&["ctrl", "alt"], "NotARealKeyName");
    let err = bad.check_parseable().unwrap_err();
    assert!(err.contains("ctrl+alt+NotARealKeyName"));
}

#[test]
fn platform_grammar_matches_global_hotkey_parser() {
    let good = binding(&["ctrl", "alt"], "Tab");
    let text = good.to_shortcut_string();
    let direct = <global_hotkey::hotkey::HotKey as std::str::FromStr>::from_str(&text);
    assert_eq!(good.check_parseable().is_ok(), direct.is_ok());
}
