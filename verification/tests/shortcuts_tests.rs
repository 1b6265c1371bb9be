use corner::shortcuts::{default_shortcut, parse_shortcut, Shortcut, ShortcutKey, ShortcutModifier};

fn shortcut(modifier: Option<ShortcutModifier>, key: ShortcutKey) -> Result<Shortcut, String> {
    Ok(Shortcut { modifier, key })
}

#[test]
fn default_shortcut_is_alt_t() {
    assert_eq!(
        default_shortcut(),
        Shortcut { modifier: Some(ShortcutModifier::Alt), key: ShortcutKey::T }
    );
    assert_eq!(parse_shortcut("Alt+T"), Ok(default_shortcut()));
}

#[test]
fn modifier_and_key_are_read_from_the_text() {
    assert_eq!(parse_shortcut("Alt+S"), shortcut(Some(ShortcutModifier::Alt), ShortcutKey::S));
    assert_eq!(parse_shortcut("Ctrl+C"), shortcut(Some(ShortcutModifier::Control), ShortcutKey::C));
    assert_eq!(
        parse_shortcut("Command+T"),
        shortcut(Some(ShortcutModifier::Control), ShortcutKey::T)
    );
    assert_eq!(parse_shortcut("Shift+S"), shortcut(Some(ShortcutModifier::Shift), ShortcutKey::S));
    assert_eq!(parse_shortcut("T"), shortcut(None, ShortcutKey::T));
    assert_eq!(parse_shortcut("Super+C"), shortcut(None, ShortcutKey::C));
}

#[test]
fn first_modifier_in_rank_wins() {
    assert_eq!(
        parse_shortcut("Shift+Ctrl+Alt+T"),
        shortcut(Some(ShortcutModifier::Alt), ShortcutKey::T)
    );
    assert_eq!(
        parse_shortcut("Shift+Command+S"),
        shortcut(Some(ShortcutModifier::Control), ShortcutKey::S)
    );
}

#[test]
fn modifier_names_are_case_sensitive() {
    assert_eq!(parse_shortcut("alt+T"), shortcut(None, ShortcutKey::T));
    assert_eq!(parse_shortcut("CTRL+T"), shortcut(None, ShortcutKey::T));
}

#[test]
fn the_key_is_the_last_character() {
    assert_eq!(parse_shortcut("Alt+T+S"), shortcut(Some(ShortcutModifier::Alt), ShortcutKey::S));
    assert_eq!(parse_shortcut("AltC"), shortcut(Some(ShortcutModifier::Alt), ShortcutKey::C));
    // The last letter of a modifier's name can be the key.
    assert_eq!(parse_shortcut("CtrlS"), shortcut(Some(ShortcutModifier::Control), ShortcutKey::S));
}

#[test]
fn other_keys_are_unsupported() {
    for text in ["", "Alt", "Alt+", "Alt+t", "Alt+X", "Ctrl+1", "Shift+\u{1f600}", "Alt+T "] {
        assert_eq!(parse_shortcut(text), Err("Unsupported key".to_string()), "{:?}", text);
    }
}
