use bclicker::keys::{KeyCombo, KeyId};

fn label_of(combo: &KeyCombo) -> String {
    combo.label_chars().into_iter().collect()
}

#[test]
fn vk_codes_match_the_os_table() {
    assert_eq!(KeyId::Letter('A').vk_code(), 0x41);
    assert_eq!(KeyId::Letter('B').vk_code(), 0x42);
    assert_eq!(KeyId::Letter('Z').vk_code(), 0x5A);
    assert_eq!(KeyId::Function(1).vk_code(), 0x70);
    assert_eq!(KeyId::Function(5).vk_code(), 0x74);
    assert_eq!(KeyId::Function(12).vk_code(), 0x7B);
}

#[test]
fn mods_byte_encodes_ctrl_shift_as_six() {
    let combo = KeyCombo { ctrl: true, shift: true, alt: false, key: KeyId::Letter('B') };
    assert_eq!(combo.mods_byte(), 6);
    let none = KeyCombo { ctrl: false, shift: false, alt: false, key: KeyId::Letter('B') };
    assert_eq!(none.mods_byte(), 0);
    let all = KeyCombo { ctrl: true, shift: true, alt: true, key: KeyId::Letter('B') };
    assert_eq!(all.mods_byte(), 7);
}

#[test]
fn mods_byte_round_trips() {
    for m in 0u8..8 {
        let combo = KeyCombo::from_mods_byte(m, KeyId::Letter('Q'));
        assert_eq!(combo.mods_byte(), m);
    }
}

#[test]
fn labels_join_modifiers_and_key() {
    let combo = KeyCombo { ctrl: true, shift: true, alt: false, key: KeyId::Letter('B') };
    assert_eq!(label_of(&combo), "Ctrl+Shift+B");
    let alt_f7 = KeyCombo { ctrl: false, shift: false, alt: true, key: KeyId::Function(7) };
    assert_eq!(label_of(&alt_f7), "Alt+F7");
    let f10 = KeyCombo { ctrl: false, shift: false, alt: false, key: KeyId::Function(10) };
    assert_eq!(label_of(&f10), "F10");
    let f12 = KeyCombo { ctrl: true, shift: false, alt: true, key: KeyId::Function(12) };
    assert_eq!(label_of(&f12), "Ctrl+Alt+F12");
}
