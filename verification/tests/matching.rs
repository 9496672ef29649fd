use shortcutd::{ActiveKeySet, Key, Modifier, Shortcut};

fn shortcut_triggered(text: &str, keys: &[Key]) -> bool {
    let shortcut: Shortcut = text.parse().unwrap();
    shortcut.is_triggered(&ActiveKeySet::from_keys(keys))
}

#[test]
fn shortcut_triggered_ctrl_p_nothing_held() {
    assert_eq!(shortcut_triggered("<Ctrl>-KeyP", &[]), false);
}

#[test]
fn shortcut_triggered_ctrl_p_left_ctrl() {
    assert_eq!(shortcut_triggered("<Ctrl>-KeyP", &[Key::KeyLeftCtrl, Key::KeyP]), true);
}

#[test]
fn shortcut_triggered_ctrl_p_right_ctrl() {
    assert_eq!(shortcut_triggered("<Ctrl>-KeyP", &[Key::KeyRightCtrl, Key::KeyP]), true);
}

#[test]
fn shortcut_triggered_left_ctrl_p_left_ctrl() {
    assert_eq!(shortcut_triggered("<LeftCtrl>-KeyP", &[Key::KeyLeftCtrl, Key::KeyP]), true);
}

#[test]
fn shortcut_triggered_left_ctrl_p_right_ctrl() {
    assert_eq!(shortcut_triggered("<LeftCtrl>-KeyP", &[Key::KeyRightCtrl, Key::KeyP]), false);
}

#[test]
fn shortcut_triggered_ctrl_p_with_alt_too() {
    assert_eq!(
        shortcut_triggered("<Ctrl>-KeyP", &[Key::KeyLeftCtrl, Key::KeyLeftAlt, Key::KeyP]),
        false
    );
}

#[test]
fn shortcut_triggered_two_modifiers_nothing_held() {
    assert_eq!(shortcut_triggered("<LeftCtrl><LeftAlt>-KeyLeft", &[]), false);
}

#[test]
fn shortcut_triggered_two_modifiers_key_only() {
    assert_eq!(shortcut_triggered("<LeftCtrl><LeftAlt>-KeyLeft", &[Key::KeyLeft]), false);
}

#[test]
fn shortcut_triggered_two_modifiers_one_missing() {
    assert_eq!(
        shortcut_triggered("<LeftCtrl><LeftAlt>-KeyLeft", &[Key::KeyLeftCtrl, Key::KeyLeft]),
        false
    );
}

#[test]
fn shortcut_triggered_two_modifiers_key_missing() {
    assert_eq!(
        shortcut_triggered("<LeftCtrl><LeftAlt>-KeyLeft", &[Key::KeyLeftCtrl, Key::KeyLeftAlt]),
        false
    );
}

#[test]
fn shortcut_triggered_two_modifiers_other_key() {
    assert_eq!(
        shortcut_triggered(
            "<LeftCtrl><LeftAlt>-KeyLeft",
            &[Key::KeyLeftCtrl, Key::KeyLeftAlt, Key::KeyRight]
        ),
        false
    );
}

#[test]
fn shortcut_triggered_two_modifiers_all_held() {
    assert_eq!(
        shortcut_triggered(
            "<LeftCtrl><LeftAlt>-KeyLeft",
            &[Key::KeyLeftCtrl, Key::KeyLeftAlt, Key::KeyLeft]
        ),
        true
    );
}

#[test]
fn shortcut_triggered_two_modifiers_wrong_side() {
    assert_eq!(
        shortcut_triggered(
            "<LeftCtrl><LeftAlt>-KeyLeft",
            &[Key::KeyLeftCtrl, Key::KeyRightAlt, Key::KeyLeft]
        ),
        false
    );
}

#[test]
fn shortcut_triggered_generic_modifiers_either_side() {
    assert_eq!(
        shortcut_triggered("<Ctrl><Alt>-KeyLeft", &[Key::KeyLeftCtrl, Key::KeyRightAlt, Key::KeyLeft]),
        true
    );
}

#[test]
fn the_match_is_exact_not_a_superset() {
    let held = [Key::KeyLeftCtrl, Key::KeyP];
    assert!(shortcut_triggered("<Ctrl>-KeyP", &held));
    for extra in [
        Key::KeyLeftAlt,
        Key::KeyRightAlt,
        Key::KeyRightCtrl,
        Key::KeyLeftMeta,
        Key::KeyRightMeta,
        Key::KeyLeftShift,
        Key::KeyRightShift,
    ] {
        assert!(!shortcut_triggered("<Ctrl>-KeyP", &[held[0], held[1], extra]));
    }
}

#[test]
fn other_keys_do_not_matter() {
    assert!(shortcut_triggered("<Ctrl>-KeyP", &[Key::KeyLeftCtrl, Key::KeyP, Key::KeyQ, Key::BtnLeft]));
    assert!(shortcut_triggered("-KeyP", &[Key::KeyP, Key::KeyQ]));
    assert!(!shortcut_triggered("-KeyP", &[Key::KeyQ]));
}

#[test]
fn bare_shortcut_needs_no_modifier_held() {
    assert!(shortcut_triggered("-KeyP", &[Key::KeyP]));
    assert!(!shortcut_triggered("-KeyP", &[Key::KeyLeftShift, Key::KeyP]));
    assert!(!shortcut_triggered("-KeyP", &[]));
}

#[test]
fn the_order_of_the_modifiers_does_not_matter() {
    let sets: [&[Key]; 5] = [
        &[Key::KeyLeftCtrl, Key::KeyLeftAlt, Key::KeyO],
        &[Key::KeyRightCtrl, Key::KeyLeftAlt, Key::KeyO],
        &[Key::KeyLeftCtrl, Key::KeyO],
        &[Key::KeyLeftCtrl, Key::KeyLeftAlt, Key::KeyLeftShift, Key::KeyO],
        &[Key::KeyLeftCtrl, Key::KeyLeftAlt],
    ];
    for keys in sets {
        assert_eq!(
            shortcut_triggered("<Ctrl><Alt>-KeyO", keys),
            shortcut_triggered("<Alt><Ctrl>-KeyO", keys)
        );
    }
    assert!(shortcut_triggered("<Alt><Ctrl>-KeyO", sets[0]));
    assert!(shortcut_triggered("<Alt><Ctrl>-KeyO", sets[1]));
    assert!(!shortcut_triggered("<Alt><Ctrl>-KeyO", sets[2]));
}

#[test]
fn every_listed_modifier_must_be_held() {
    // Both Ctrl keys are held and no Alt key: Alt is missing.
    let shortcut = Shortcut::new(vec![Modifier::Ctrl, Modifier::Alt], Key::KeyP);
    let held = ActiveKeySet::from_keys(&[Key::KeyLeftCtrl, Key::KeyRightCtrl, Key::KeyP]);
    assert_eq!(shortcut.is_triggered(&held), false);
    assert!(!shortcut_triggered("<Ctrl><Alt>-KeyP", &[Key::KeyLeftCtrl, Key::KeyRightCtrl, Key::KeyP]));
    assert!(!shortcut_triggered("<Alt><Ctrl>-KeyP", &[Key::KeyLeftAlt, Key::KeyRightAlt, Key::KeyP]));
    assert!(!shortcut_triggered("<Shift><Meta>-KeyP", &[Key::KeyLeftShift, Key::KeyRightShift, Key::KeyP]));
    assert!(!shortcut_triggered("<Ctrl><Alt><Shift>-KeyP", &[Key::KeyLeftCtrl, Key::KeyRightCtrl, Key::KeyLeftAlt, Key::KeyP]));
    assert!(shortcut_triggered("<Ctrl><Alt>-KeyP", &[Key::KeyLeftCtrl, Key::KeyRightAlt, Key::KeyP]));
    assert!(shortcut_triggered("<Ctrl><Alt><Shift>-KeyP", &[Key::KeyRightCtrl, Key::KeyLeftAlt, Key::KeyRightShift, Key::KeyP]));
}

#[test]
fn a_modifier_listed_twice_counts_once() {
    assert!(shortcut_triggered("<LeftCtrl><LeftCtrl>-KeyP", &[Key::KeyLeftCtrl, Key::KeyP]));
    assert!(shortcut_triggered("<Ctrl><Ctrl>-KeyP", &[Key::KeyLeftCtrl, Key::KeyP]));
    assert!(shortcut_triggered("<Ctrl><Ctrl>-KeyP", &[Key::KeyRightCtrl, Key::KeyP]));
    assert!(shortcut_triggered("<Ctrl><Alt><Ctrl>-KeyP", &[Key::KeyRightCtrl, Key::KeyLeftAlt, Key::KeyP]));
    assert!(!shortcut_triggered("<LeftCtrl><LeftCtrl>-KeyP", &[Key::KeyRightCtrl, Key::KeyP]));
    assert!(!shortcut_triggered("<LeftCtrl><LeftCtrl>-KeyP", &[Key::KeyP]));
    let sets: [&[Key]; 6] = [
        &[Key::KeyP],
        &[Key::KeyLeftCtrl, Key::KeyP],
        &[Key::KeyRightCtrl, Key::KeyP],
        &[Key::KeyLeftCtrl, Key::KeyRightCtrl, Key::KeyP],
        &[Key::KeyLeftCtrl, Key::KeyLeftAlt, Key::KeyP],
        &[Key::KeyLeftCtrl],
    ];
    for keys in sets {
        assert_eq!(shortcut_triggered("<Ctrl><Ctrl>-KeyP", keys), shortcut_triggered("<Ctrl>-KeyP", keys));
        assert_eq!(
            shortcut_triggered("<LeftCtrl><LeftCtrl><LeftCtrl>-KeyP", keys),
            shortcut_triggered("<LeftCtrl>-KeyP", keys)
        );
    }
}

#[test]
fn as_many_modifier_keys_as_different_modifiers() {
    // Both sides held count as two keys: one generic modifier does not stand for both.
    assert!(!shortcut_triggered("<Ctrl>-KeyP", &[Key::KeyLeftCtrl, Key::KeyRightCtrl, Key::KeyP]));
    assert!(!shortcut_triggered("<Ctrl><Ctrl>-KeyP", &[Key::KeyLeftCtrl, Key::KeyRightCtrl, Key::KeyP]));
    assert!(shortcut_triggered("<LeftCtrl><RightCtrl>-KeyP", &[Key::KeyLeftCtrl, Key::KeyRightCtrl, Key::KeyP]));
    assert!(shortcut_triggered("<Ctrl><LeftCtrl>-KeyP", &[Key::KeyLeftCtrl, Key::KeyRightCtrl, Key::KeyP]));
    assert!(!shortcut_triggered("<Ctrl><LeftCtrl>-KeyP", &[Key::KeyLeftCtrl, Key::KeyP]));
    assert!(!shortcut_triggered("<LeftCtrl><RightCtrl>-KeyP", &[Key::KeyLeftCtrl, Key::KeyP]));
}

#[test]
fn different_modifiers_of_a_list() {
    let count = |text: &str| shortcutd::matcher::distinct_modifiers(text.parse::<Shortcut>().unwrap().modifiers());
    assert_eq!(count("-KeyP"), 0);
    assert_eq!(count("<Ctrl>-KeyP"), 1);
    assert_eq!(count("<Ctrl><Ctrl>-KeyP"), 1);
    assert_eq!(count("<Ctrl><Alt><Ctrl>-KeyP"), 2);
    assert_eq!(count("<Ctrl><LeftCtrl><RightCtrl>-KeyP"), 3);
    assert_eq!(count("<Alt><Alt><Alt><Shift><Shift><Meta>-KeyP"), 3);
}

#[test]
fn active_key_set_follows_inserts_and_removes() {
    let mut active = ActiveKeySet::new();
    assert!(!active.contains(Key::KeyP));
    assert!(active.insert(Key::KeyP));
    assert!(!active.insert(Key::KeyP));
    assert!(active.contains(Key::KeyP));
    assert!(!active.contains(Key::KeyO));
    assert!(active.insert(Key::KeyMax));
    assert!(active.insert(Key::KeyReserved));
    assert!(active.contains(Key::KeyMax));
    assert!(active.remove(Key::KeyP));
    assert!(!active.remove(Key::KeyP));
    assert!(!active.contains(Key::KeyP));
    assert!(active.contains(Key::KeyMax));
    assert!(!active.remove(Key::BtnLeft));
    let copy = active.clone();
    assert!(copy.contains(Key::KeyReserved));
    assert!(!copy.contains(Key::KeyP));
}

#[test]
fn active_key_set_modifier_mask() {
    assert_eq!(ActiveKeySet::new().modifier_mask(), 0);
    assert_eq!(ActiveKeySet::from_keys(&[Key::KeyP]).modifier_mask(), 0);
    assert_eq!(
        ActiveKeySet::from_keys(&[Key::KeyLeftCtrl, Key::KeyRightAlt, Key::KeyP]).modifier_mask(),
        0b00000110
    );
    assert_eq!(
        ActiveKeySet::from_keys(&[
            Key::KeyLeftAlt,
            Key::KeyRightAlt,
            Key::KeyLeftCtrl,
            Key::KeyRightCtrl,
            Key::KeyLeftMeta,
            Key::KeyRightMeta,
            Key::KeyLeftShift,
            Key::KeyRightShift,
        ])
        .modifier_mask(),
        0b11111111
    );
}

#[test]
fn shortcut_new_keeps_its_parts() {
    let shortcut = Shortcut::new(vec![Modifier::Ctrl, Modifier::Alt], Key::KeyO);
    assert_eq!(shortcut.key(), Key::KeyO);
    assert_eq!(shortcut.modifiers().len(), 2);
    assert_eq!(shortcut.modifiers().as_mask(), 0b00001111);
    assert_eq!(shortcut.clone(), shortcut);
    assert!(shortcut.equals(&shortcut.clone()));
    assert!(!shortcut.equals(&Shortcut::new(vec![Modifier::Ctrl, Modifier::Alt], Key::KeyP)));
    assert!(!shortcut.equals(&Shortcut::new(vec![Modifier::Ctrl], Key::KeyO)));
}
