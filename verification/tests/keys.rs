use shortcutd::{Key, Modifier, ModifierList, ParseError};

#[test]
fn key_codes_of_some_keys() {
    assert_eq!(Key::KeyReserved.code(), 0);
    assert_eq!(Key::KeyEsc.code(), 1);
    assert_eq!(Key::KeyO.code(), 24);
    assert_eq!(Key::KeyP.code(), 25);
    assert_eq!(Key::KeyLeftCtrl.code(), 29);
    assert_eq!(Key::KeyLeftAlt.code(), 56);
    assert_eq!(Key::KeyMicMute.code(), 248);
    assert_eq!(Key::Btn0.code(), 0x100);
    assert_eq!(Key::BtnGearUp.code(), 0x151);
    assert_eq!(Key::KeyOk.code(), 0x160);
    assert_eq!(Key::BtnTriggerHappy40.code(), 0x2e7);
    assert_eq!(Key::KeyMax.code(), 0x2ff);
}

#[test]
fn key_from_code_of_some_codes() {
    assert_eq!(Key::from_code(0), Some(Key::KeyReserved));
    assert_eq!(Key::from_code(25), Some(Key::KeyP));
    assert_eq!(Key::from_code(83), Some(Key::KeyKpDot));
    assert_eq!(Key::from_code(84), None);
    assert_eq!(Key::from_code(85), Some(Key::KeyZenkakuhankaku));
    assert_eq!(Key::from_code(195), None);
    assert_eq!(Key::from_code(249), None);
    assert_eq!(Key::from_code(0xff), None);
    assert_eq!(Key::from_code(0x100), Some(Key::Btn0));
    assert_eq!(Key::from_code(0x2ff), Some(Key::KeyMax));
    assert_eq!(Key::from_code(0x300), None);
    assert_eq!(Key::from_code(u16::MAX), None);
}

#[test]
fn key_code_round_trip_over_all_codes() {
    let mut count = 0;
    for code in 0..=u16::MAX {
        if let Some(key) = Key::from_code(code) {
            assert_eq!(key.code(), code);
            count += 1;
        }
    }
    assert_eq!(count, 520);
}

#[test]
fn key_name_round_trip_over_all_keys() {
    let mut names: Vec<&'static str> = Vec::new();
    for code in 0..=0x2ffu16 {
        if let Some(key) = Key::from_code(code) {
            let name = key.name();
            assert_eq!(format!("{:?}", key), name);
            assert_eq!(Key::from_name(name), Some(key));
            assert_eq!(name.parse::<Key>(), Ok(key));
            assert!(name.chars().all(|c| c.is_ascii_alphanumeric()));
            assert!(!names.contains(&name));
            names.push(name);
        }
    }
    assert_eq!(names.len(), 520);
}

#[test]
fn key_names_of_some_keys() {
    assert_eq!(Key::KeyP.name(), "KeyP");
    assert_eq!(Key::Key102nd.name(), "Key102nd");
    assert_eq!(Key::KeySysRQ.name(), "KeySysRQ");
    assert_eq!(Key::BtnTriggerHappy1.name(), "BtnTriggerHappy1");
    assert_eq!(Key::from_name("KeyLeft"), Some(Key::KeyLeft));
    assert_eq!(Key::from_name("Keyleft"), None);
    assert_eq!(Key::from_name("Key"), None);
    assert_eq!(Key::from_name(""), None);
    assert_eq!(Key::from_name("KeyPP"), None);
    assert_eq!("P".parse::<Key>(), Err(ParseError::UnknownKey));
}

#[test]
fn ascii_alpha_numeric_keys() {
    let mut count = 0;
    for code in 0..=0x2ffu16 {
        if let Some(key) = Key::from_code(code) {
            let name = key.name();
            let expected = name.len() == 4
                && name.starts_with("Key")
                && name.chars().last().unwrap().is_ascii_alphanumeric();
            assert_eq!(key.is_ascii_alpha_numeric(), expected);
            if expected {
                count += 1;
            }
        }
    }
    assert_eq!(count, 36);
    assert!(Key::KeyA.is_ascii_alpha_numeric());
    assert!(Key::Key0.is_ascii_alpha_numeric());
    assert!(!Key::KeyEsc.is_ascii_alpha_numeric());
    assert!(!Key::BtnC.is_ascii_alpha_numeric());
    assert!(!Key::KeyKp1.is_ascii_alpha_numeric());
}

#[test]
fn modifier_masks() {
    assert_eq!(Modifier::Alt.as_mask(), 0b00000011);
    assert_eq!(Modifier::LeftAlt.as_mask(), 0b00000001);
    assert_eq!(Modifier::RightAlt.as_mask(), 0b00000010);
    assert_eq!(Modifier::Ctrl.as_mask(), 0b00001100);
    assert_eq!(Modifier::LeftCtrl.as_mask(), 0b00000100);
    assert_eq!(Modifier::RightCtrl.as_mask(), 0b00001000);
    assert_eq!(Modifier::Meta.as_mask(), 0b00110000);
    assert_eq!(Modifier::LeftMeta.as_mask(), 0b00010000);
    assert_eq!(Modifier::RightMeta.as_mask(), 0b00100000);
    assert_eq!(Modifier::Shift.as_mask(), 0b11000000);
    assert_eq!(Modifier::LeftShift.as_mask(), 0b01000000);
    assert_eq!(Modifier::RightShift.as_mask(), 0b10000000);
}

#[test]
fn generic_mask_is_both_sides() {
    assert_eq!(Modifier::Alt.as_mask(), Modifier::LeftAlt.as_mask() | Modifier::RightAlt.as_mask());
    assert_eq!(Modifier::Ctrl.as_mask(), Modifier::LeftCtrl.as_mask() | Modifier::RightCtrl.as_mask());
    assert_eq!(Modifier::Meta.as_mask(), Modifier::LeftMeta.as_mask() | Modifier::RightMeta.as_mask());
    assert_eq!(Modifier::Shift.as_mask(), Modifier::LeftShift.as_mask() | Modifier::RightShift.as_mask());
}

#[test]
fn masks_of_keys() {
    assert_eq!(Modifier::mask_from_key(Key::KeyLeftAlt), 0b00000001);
    assert_eq!(Modifier::mask_from_key(Key::KeyRightAlt), 0b00000010);
    assert_eq!(Modifier::mask_from_key(Key::KeyLeftCtrl), 0b00000100);
    assert_eq!(Modifier::mask_from_key(Key::KeyRightCtrl), 0b00001000);
    assert_eq!(Modifier::mask_from_key(Key::KeyLeftMeta), 0b00010000);
    assert_eq!(Modifier::mask_from_key(Key::KeyRightMeta), 0b00100000);
    assert_eq!(Modifier::mask_from_key(Key::KeyLeftShift), 0b01000000);
    assert_eq!(Modifier::mask_from_key(Key::KeyRightShift), 0b10000000);
    assert_eq!(Modifier::mask_from_key(Key::KeyP), 0);
    assert_eq!(Modifier::mask_from_key(Key::KeyCapsLock), 0);
    let mut modifier_keys = 0;
    for code in 0..=0x2ffu16 {
        if let Some(key) = Key::from_code(code) {
            if Modifier::mask_from_key(key) != 0 {
                assert_eq!(Modifier::mask_from_key(key).count_ones(), 1);
                modifier_keys += 1;
            }
        }
    }
    assert_eq!(modifier_keys, 8);
}

#[test]
fn combined_mask_of_a_list() {
    assert_eq!(ModifierList::new(vec![]).as_mask(), 0);
    assert_eq!(ModifierList::new(vec![Modifier::Ctrl]).as_mask(), 0b00001100);
    assert_eq!(ModifierList::new(vec![Modifier::Ctrl, Modifier::Alt]).as_mask(), 0b00001111);
    assert_eq!(ModifierList::new(vec![Modifier::Alt, Modifier::Ctrl]).as_mask(), 0b00001111);
    assert_eq!(
        ModifierList::new(vec![Modifier::LeftShift, Modifier::RightMeta, Modifier::LeftShift]).as_mask(),
        0b01100000
    );
}

#[test]
fn ones_of_masks() {
    for mask in 0..=u8::MAX {
        assert_eq!(shortcutd::matcher::ones(mask) as u32, mask.count_ones());
    }
}
