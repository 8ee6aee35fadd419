use wingman::hotkey::{get_default_hotkey, validate_hotkey, HotkeyConfig};

#[test]
fn shortcut_is_split_at_plus_signs() {
    let config = HotkeyConfig::from_shortcut_string("Command+Shift+Space");
    assert_eq!(config.key, "Space");
    assert_eq!(config.modifiers, vec!["Command".to_string(), "Shift".to_string()]);
    let config = HotkeyConfig::from_shortcut_string("A");
    assert_eq!(config.key, "A");
    assert!(config.modifiers.is_empty());
    let config = HotkeyConfig::from_shortcut_string("");
    assert_eq!(config.key, "");
    assert!(config.modifiers.is_empty());
    let config = HotkeyConfig::from_shortcut_string("Ctrl++");
    assert_eq!(config.key, "");
    assert_eq!(config.modifiers, vec!["Ctrl".to_string(), "".to_string()]);
}

#[test]
fn shortcut_is_written_with_plus_signs() {
    let config = HotkeyConfig {
        key: "K".to_string(),
        modifiers: vec!["Control".to_string(), "Alt".to_string()],
    };
    assert_eq!(config.to_shortcut_string(), "Control+Alt+K");
    let config = HotkeyConfig { key: "F5".to_string(), modifiers: vec![] };
    assert_eq!(config.to_shortcut_string(), "F5");
}

#[test]
fn shortcut_round_trip_on_examples() {
    for text in ["Command+Shift+Space", "A", "", "+", "a++b", "Ctrl+", "\u{e9}+\u{4e2d}"] {
        assert_eq!(HotkeyConfig::from_shortcut_string(text).to_shortcut_string(), text);
    }
}

#[test]
fn default_hotkey_by_target() {
    assert_eq!(get_default_hotkey("macos"), "Command+Shift+Space");
    assert_eq!(get_default_hotkey("linux"), "Control+Shift+Space");
    assert_eq!(get_default_hotkey("windows"), "Control+Shift+Space");
    assert!(validate_hotkey(&get_default_hotkey("macos")));
    assert!(validate_hotkey(&get_default_hotkey("linux")));
}

#[test]
fn valid_shortcuts() {
    assert!(validate_hotkey("Command+Shift+Space"));
    assert!(validate_hotkey("Ctrl+A"));
    assert!(validate_hotkey("ctrl+a"));
    assert!(validate_hotkey("CMD+OPTION+f12"));
    assert!(validate_hotkey("Meta+Super+Alt+Control+Shift+PageDown"));
    assert!(validate_hotkey("Alt+9"));
    assert!(validate_hotkey("Shift+bracketleft"));
    assert!(validate_hotkey("Shift+Slash"));
    assert!(validate_hotkey("Shift+ArrowRight"));
    assert!(validate_hotkey("Shift+Grave"));
}

#[test]
fn invalid_shortcuts() {
    assert!(!validate_hotkey(""));
    assert!(!validate_hotkey("A"));
    assert!(!validate_hotkey("Space"));
    assert!(!validate_hotkey("Ctrl"));
    assert!(!validate_hotkey("Ctrl+"));
    assert!(!validate_hotkey("+A"));
    assert!(!validate_hotkey("Ctrl+Shift"));
    assert!(!validate_hotkey("Ctrl+F13"));
    assert!(!validate_hotkey("Hyper+A"));
    assert!(!validate_hotkey("Ctrl+A+B+"));
    assert!(!validate_hotkey("A+Ctrl"));
    assert!(!validate_hotkey("Ctrl+ A"));
    assert!(!validate_hotkey("Ctrl+AA"));
    assert!(!validate_hotkey("Ctrl+\u{c4}"));
    // an ASCII letter and the Kelvin sign differ although their lower-case forms agree
    assert!(!validate_hotkey("Ctrl+\u{212a}"));
}
