use kbd_overlay::{
    default_hotkey, hotkey_to_string, is_modifier, key_from_name, key_name, parse_hotkey,
    parse_hotkey_str, text_to_name, validate_hotkey, HotkeyError, KeyName,
};

fn names(list: &[&str]) -> Vec<String> {
    list.iter().map(|s| s.to_string()).collect()
}

#[test]
fn parses_canonical_names() {
    let keys = parse_hotkey(&names(&["ControlLeft", "Alt", "ShiftLeft", "Slash"])).unwrap();
    assert_eq!(
        keys,
        vec![KeyName::ControlLeft, KeyName::Alt, KeyName::ShiftLeft, KeyName::Slash]
    );
}

#[test]
fn parses_aliases_in_any_case() {
    assert_eq!(parse_hotkey(&names(&["option"])).unwrap(), vec![KeyName::Alt]);
    assert_eq!(parse_hotkey(&names(&["OPT"])).unwrap(), vec![KeyName::Alt]);
    assert_eq!(parse_hotkey(&names(&["Command"])).unwrap(), vec![KeyName::MetaLeft]);
    assert_eq!(parse_hotkey(&names(&["cmd"])).unwrap(), vec![KeyName::MetaLeft]);
}

#[test]
fn rejects_unknown_name_with_index() {
    let r = parse_hotkey(&names(&["ControlLeft", "NoSuchKey", "Slash"]));
    assert_eq!(r, Err(HotkeyError::UnknownKey { index: 1 }));
}

#[test]
fn canonical_names_are_case_sensitive() {
    assert_eq!(key_from_name("Alt"), Some(KeyName::Alt));
    assert_eq!(key_from_name("alt"), None);
    assert_eq!(key_from_name("ALT"), None);
    assert_eq!(key_from_name("Period"), None);
    assert_eq!(key_from_name("Dot"), Some(KeyName::Dot));
}

#[test]
fn parses_hotkey_string_with_whitespace() {
    let keys = parse_hotkey_str(" ControlLeft + Alt +ShiftLeft+ Slash ").unwrap();
    assert_eq!(
        keys,
        vec![KeyName::ControlLeft, KeyName::Alt, KeyName::ShiftLeft, KeyName::Slash]
    );
}

#[test]
fn blank_hotkey_string_parses_to_empty() {
    assert_eq!(parse_hotkey_str("").unwrap(), vec![]);
    assert_eq!(parse_hotkey_str("   \t ").unwrap(), vec![]);
}

#[test]
fn hotkey_string_with_unknown_piece_fails() {
    let r = parse_hotkey_str("ControlLeft+Banana+Slash");
    assert_eq!(r, Err(HotkeyError::UnknownKey { index: 1 }));
}

#[test]
fn validation_needs_a_modifier() {
    let keys = vec![KeyName::Slash, KeyName::KeyA];
    assert_eq!(validate_hotkey(&keys), Err(HotkeyError::NoModifier));
    assert_eq!(validate_hotkey(&vec![]), Err(HotkeyError::NoModifier));
}

#[test]
fn validation_needs_a_non_modifier() {
    let keys = vec![KeyName::ControlLeft, KeyName::ShiftLeft];
    assert_eq!(validate_hotkey(&keys), Err(HotkeyError::NoNonModifier));
}

#[test]
fn validation_accepts_mixed_combination() {
    let keys = vec![KeyName::ControlLeft, KeyName::Slash];
    assert_eq!(validate_hotkey(&keys), Ok(()));
    let keys = vec![KeyName::Slash, KeyName::MetaRight];
    assert_eq!(validate_hotkey(&keys), Ok(()));
}

#[test]
fn validation_error_messages_name_the_missing_class() {
    assert_eq!(
        HotkeyError::NoModifier.message(),
        "hotkey must contain at least one modifier key"
    );
    assert_eq!(
        HotkeyError::NoNonModifier.message(),
        "hotkey must contain at least one non-modifier key"
    );
    assert_eq!(HotkeyError::UnknownKey { index: 0 }.message(), "invalid key name");
}

#[test]
fn default_hotkey_is_valid() {
    let raw = default_hotkey();
    assert_eq!(raw, vec!["ControlLeft", "Alt", "ShiftLeft", "Slash"]);
    let keys = parse_hotkey(&raw).unwrap();
    assert_eq!(validate_hotkey(&keys), Ok(()));
}

#[test]
fn renders_combination_back_to_text() {
    let keys = vec![KeyName::ControlLeft, KeyName::Alt, KeyName::ShiftLeft, KeyName::Slash];
    assert_eq!(hotkey_to_string(&keys), "ControlLeft+Alt+ShiftLeft+Slash");
    assert_eq!(hotkey_to_string(&vec![]), "");
    assert_eq!(hotkey_to_string(&vec![KeyName::F5]), "F5");
}

#[test]
fn rendering_then_parsing_round_trips() {
    let keys = vec![KeyName::MetaLeft, KeyName::Num3, KeyName::BackQuote, KeyName::UpArrow];
    let text = hotkey_to_string(&keys);
    assert_eq!(parse_hotkey_str(&text).unwrap(), keys);
}

#[test]
fn modifier_classification_matches_the_vocabulary() {
    for k in [
        KeyName::Alt,
        KeyName::AltGr,
        KeyName::ControlLeft,
        KeyName::ControlRight,
        KeyName::ShiftLeft,
        KeyName::ShiftRight,
        KeyName::MetaLeft,
        KeyName::MetaRight,
    ] {
        assert!(is_modifier(k));
    }
    for k in [KeyName::KeyA, KeyName::Num0, KeyName::Slash, KeyName::F12, KeyName::Space] {
        assert!(!is_modifier(k));
    }
}

#[test]
fn key_names_round_trip_through_the_parser() {
    let all = [
        KeyName::Alt,
        KeyName::AltGr,
        KeyName::ControlLeft,
        KeyName::ControlRight,
        KeyName::ShiftLeft,
        KeyName::ShiftRight,
        KeyName::MetaLeft,
        KeyName::MetaRight,
        KeyName::Escape,
        KeyName::Tab,
        KeyName::Backspace,
        KeyName::Return,
        KeyName::Space,
        KeyName::Insert,
        KeyName::Delete,
        KeyName::Home,
        KeyName::End,
        KeyName::PageUp,
        KeyName::PageDown,
        KeyName::UpArrow,
        KeyName::DownArrow,
        KeyName::LeftArrow,
        KeyName::RightArrow,
        KeyName::F1,
        KeyName::F2,
        KeyName::F3,
        KeyName::F4,
        KeyName::F5,
        KeyName::F6,
        KeyName::F7,
        KeyName::F8,
        KeyName::F9,
        KeyName::F10,
        KeyName::F11,
        KeyName::F12,
        KeyName::Num0,
        KeyName::Num1,
        KeyName::Num2,
        KeyName::Num3,
        KeyName::Num4,
        KeyName::Num5,
        KeyName::Num6,
        KeyName::Num7,
        KeyName::Num8,
        KeyName::Num9,
        KeyName::KeyA,
        KeyName::KeyB,
        KeyName::KeyC,
        KeyName::KeyD,
        KeyName::KeyE,
        KeyName::KeyF,
        KeyName::KeyG,
        KeyName::KeyH,
        KeyName::KeyI,
        KeyName::KeyJ,
        KeyName::KeyK,
        KeyName::KeyL,
        KeyName::KeyM,
        KeyName::KeyN,
        KeyName::KeyO,
        KeyName::KeyP,
        KeyName::KeyQ,
        KeyName::KeyR,
        KeyName::KeyS,
        KeyName::KeyT,
        KeyName::KeyU,
        KeyName::KeyV,
        KeyName::KeyW,
        KeyName::KeyX,
        KeyName::KeyY,
        KeyName::KeyZ,
        KeyName::Slash,
        KeyName::BackSlash,
        KeyName::Comma,
        KeyName::Dot,
        KeyName::SemiColon,
        KeyName::Quote,
        KeyName::BackQuote,
        KeyName::LeftBracket,
        KeyName::RightBracket,
        KeyName::Minus,
        KeyName::Equal,
    ];
    let mut seen: Vec<String> = Vec::new();
    for k in all {
        let name = key_name(k);
        assert_eq!(key_from_name(name), Some(k));
        assert!(!seen.contains(&name.to_string()));
        seen.push(name.to_string());
    }
}

#[test]
fn text_input_maps_shifted_and_plain_punctuation() {
    assert_eq!(text_to_name("/").as_deref(), Some("Slash"));
    assert_eq!(text_to_name("?").as_deref(), Some("Slash"));
    assert_eq!(text_to_name("\\").as_deref(), Some("BackSlash"));
    assert_eq!(text_to_name("|").as_deref(), Some("BackSlash"));
    assert_eq!(text_to_name("}").as_deref(), Some("RightBracket"));
    assert_eq!(text_to_name("~").as_deref(), Some("BackQuote"));
    assert_eq!(text_to_name("_").as_deref(), Some("Minus"));
    assert_eq!(text_to_name("+").as_deref(), Some("Equal"));
    assert_eq!(text_to_name("x"), None);
    assert_eq!(text_to_name(""), None);
}
