use shortcutd::{
    DeviceListener, InputEvent, Key, Shortcut, ShortcutEvent, ShortcutListener, ShortcutSet, ShortcutState,
};

fn press(key: Key) -> InputEvent {
    InputEvent { code: key.code(), value: 1 }
}

fn release(key: Key) -> InputEvent {
    InputEvent { code: key.code(), value: 0 }
}

fn repeat(key: Key) -> InputEvent {
    InputEvent { code: key.code(), value: 2 }
}

fn parse(text: &str) -> Shortcut {
    text.parse().unwrap()
}

fn listening_for(texts: &[&str]) -> ShortcutListener {
    let mut listener = ShortcutListener::new();
    for text in texts {
        listener.add(parse(text));
    }
    listener
}

fn told(events: &[ShortcutEvent]) -> Vec<(String, ShortcutState)> {
    events.iter().map(|event| (event.shortcut.to_string(), event.state)).collect()
}

#[test]
fn held_combination_gives_one_pressed_and_one_released() {
    let shortcuts = listening_for(&["<Ctrl>-KeyP"]);
    let mut device = DeviceListener::new();
    let emitted = device.handle_events(&[press(Key::KeyLeftCtrl)], &shortcuts);
    assert!(emitted.is_empty());
    let emitted = device.handle_events(&[press(Key::KeyP)], &shortcuts);
    assert_eq!(told(&emitted), vec![("<Ctrl>-KeyP".to_string(), ShortcutState::Pressed)]);
    // Held over further batches: autorepeat and other keys give nothing new.
    for batch in [
        vec![repeat(Key::KeyP)],
        vec![repeat(Key::KeyP), repeat(Key::KeyP)],
        vec![press(Key::KeyQ)],
        vec![release(Key::KeyQ)],
        vec![press(Key::KeyP)],
    ] {
        assert!(device.handle_events(&batch, &shortcuts).is_empty());
    }
    let emitted = device.handle_events(&[release(Key::KeyP)], &shortcuts);
    assert_eq!(told(&emitted), vec![("<Ctrl>-KeyP".to_string(), ShortcutState::Released)]);
    assert!(device.handle_events(&[release(Key::KeyLeftCtrl)], &shortcuts).is_empty());
    assert!(device.handle_events(&[release(Key::KeyP)], &shortcuts).is_empty());
}

#[test]
fn events_alternate_over_many_batches() {
    let shortcuts = listening_for(&["<Shift>-KeyA"]);
    let mut device = DeviceListener::new();
    let batches = [
        vec![press(Key::KeyLeftShift), press(Key::KeyA)],
        vec![repeat(Key::KeyA)],
        vec![press(Key::KeyLeftCtrl)],
        vec![release(Key::KeyLeftCtrl)],
        vec![release(Key::KeyA)],
        vec![press(Key::KeyA), release(Key::KeyA)],
        vec![press(Key::KeyA)],
        vec![release(Key::KeyLeftShift), press(Key::KeyRightShift)],
        vec![release(Key::KeyRightShift)],
    ];
    let mut states = Vec::new();
    for batch in batches {
        for event in device.handle_events(&batch, &shortcuts) {
            states.push(event.state);
        }
    }
    assert_eq!(
        states,
        vec![
            ShortcutState::Pressed,
            ShortcutState::Released,
            ShortcutState::Pressed,
            ShortcutState::Released,
            ShortcutState::Pressed,
            ShortcutState::Released,
        ]
    );
}

#[test]
fn a_batch_is_looked_at_once_it_is_all_in() {
    let shortcuts = listening_for(&["-KeyA"]);
    let mut device = DeviceListener::new();
    // Down and up within one batch: nothing is held when the shortcuts are looked at.
    assert!(device.handle_events(&[press(Key::KeyA), release(Key::KeyA)], &shortcuts).is_empty());
    assert!(!device.active_keys().contains(Key::KeyA));
}

#[test]
fn empty_batch_changes_nothing() {
    let mut device = DeviceListener::new();
    let none = ShortcutListener::new();
    assert!(device.handle_events(&[press(Key::KeyA)], &none).is_empty());
    // The shortcut comes in while its key is held; an empty batch does not look at it.
    let shortcuts = listening_for(&["-KeyA"]);
    assert!(device.handle_events(&[], &shortcuts).is_empty());
    assert!(!device.is_pressed(&parse("-KeyA")));
    assert!(device.active_keys().contains(Key::KeyA));
    // The next batch that holds an event does.
    let emitted = device.handle_events(&[repeat(Key::KeyA)], &shortcuts);
    assert_eq!(told(&emitted), vec![("-KeyA".to_string(), ShortcutState::Pressed)]);
    assert!(device.is_pressed(&parse("-KeyA")));
}

#[test]
fn codes_without_a_key_and_other_values_are_ignored() {
    let mut device = DeviceListener::new();
    device.apply(InputEvent { code: 84, value: 1 });
    device.apply(InputEvent { code: 0x300, value: 1 });
    device.apply(InputEvent { code: u16::MAX, value: 1 });
    device.apply(InputEvent { code: Key::KeyA.code(), value: 2 });
    device.apply(InputEvent { code: Key::KeyA.code(), value: -1 });
    device.apply(InputEvent { code: Key::KeyA.code(), value: i32::MAX });
    for code in 0..=0x2ffu16 {
        if let Some(key) = Key::from_code(code) {
            assert!(!device.active_keys().contains(key));
        }
    }
    device.apply(press(Key::KeyA));
    assert!(device.active_keys().contains(Key::KeyA));
    device.apply(repeat(Key::KeyA));
    assert!(device.active_keys().contains(Key::KeyA));
    device.apply(release(Key::KeyA));
    assert!(!device.active_keys().contains(Key::KeyA));
}

#[test]
fn events_come_in_the_order_of_the_shortcuts() {
    let shortcuts = listening_for(&["<Ctrl>-KeyP", "<LeftCtrl>-KeyP", "<RightCtrl>-KeyP", "-KeyP"]);
    let mut device = DeviceListener::new();
    let emitted = device.handle_events(&[press(Key::KeyLeftCtrl), press(Key::KeyP)], &shortcuts);
    assert_eq!(
        told(&emitted),
        vec![
            ("<Ctrl>-KeyP".to_string(), ShortcutState::Pressed),
            ("<LeftCtrl>-KeyP".to_string(), ShortcutState::Pressed),
        ]
    );
    let emitted = device.handle_events(&[release(Key::KeyLeftCtrl)], &shortcuts);
    assert_eq!(
        told(&emitted),
        vec![
            ("<Ctrl>-KeyP".to_string(), ShortcutState::Released),
            ("<LeftCtrl>-KeyP".to_string(), ShortcutState::Released),
            ("-KeyP".to_string(), ShortcutState::Pressed),
        ]
    );
}

#[test]
fn each_device_has_its_own_keys() {
    let shortcuts = listening_for(&["<Ctrl>-KeyP"]);
    let mut one = DeviceListener::new();
    let mut other = DeviceListener::new();
    assert!(one.handle_events(&[press(Key::KeyLeftCtrl)], &shortcuts).is_empty());
    // The letter on another keyboard makes no chord with the modifier on this one.
    assert!(other.handle_events(&[press(Key::KeyP)], &shortcuts).is_empty());
    assert_eq!(one.handle_events(&[press(Key::KeyP)], &shortcuts).len(), 1);
}

#[test]
fn listener_add_remove_has() {
    let mut listener = ShortcutListener::new();
    assert!(!listener.has(&parse("<Ctrl>-KeyP")));
    listener.add(parse("<Ctrl>-KeyP"));
    listener.add(parse("<Alt>-KeyP"));
    listener.add(parse("<Ctrl>-KeyP"));
    assert!(listener.has(&parse("<Ctrl>-KeyP")));
    assert!(listener.has(&parse("<Alt>-KeyP")));
    assert_eq!(listener.shortcuts().len(), 2);
    assert_eq!(listener.shortcuts().get(0).to_string(), "<Ctrl>-KeyP");
    assert_eq!(listener.shortcuts().get(1).to_string(), "<Alt>-KeyP");
    listener.remove(parse("<Ctrl>-KeyP"));
    assert!(!listener.has(&parse("<Ctrl>-KeyP")));
    assert!(listener.has(&parse("<Alt>-KeyP")));
    assert_eq!(listener.shortcuts().len(), 1);
    assert_eq!(listener.shortcuts().get(0).to_string(), "<Alt>-KeyP");
    listener.remove(parse("<Ctrl>-KeyP"));
    assert_eq!(listener.clone().shortcuts().len(), 1);
}

#[test]
fn a_removed_shortcut_keeps_its_turn() {
    let mut shortcuts = listening_for(&["-KeyA"]);
    let mut device = DeviceListener::new();
    assert_eq!(device.handle_events(&[press(Key::KeyA)], &shortcuts).len(), 1);
    shortcuts.remove(parse("-KeyA"));
    assert!(device.handle_events(&[release(Key::KeyA)], &shortcuts).is_empty());
    shortcuts.add(parse("-KeyA"));
    let emitted = device.handle_events(&[repeat(Key::KeyA)], &shortcuts);
    assert_eq!(told(&emitted), vec![("-KeyA".to_string(), ShortcutState::Released)]);
}

#[test]
fn shortcut_set_keeps_order_and_holds_nothing_twice() {
    let mut set = ShortcutSet::new();
    assert_eq!(set.len(), 0);
    assert!(set.insert(parse("-KeyA")));
    assert!(set.insert(parse("-KeyB")));
    assert!(!set.insert(parse("-KeyA")));
    assert!(set.insert(parse("-KeyC")));
    assert_eq!(set.len(), 3);
    assert_eq!(set.position(&parse("-KeyB")), Some(1));
    assert_eq!(set.position(&parse("-KeyD")), None);
    assert!(set.contains(&parse("-KeyC")));
    assert!(set.remove(&parse("-KeyB")));
    assert!(!set.remove(&parse("-KeyB")));
    assert_eq!(set.len(), 2);
    assert_eq!(set.get(0).to_string(), "-KeyA");
    assert_eq!(set.get(1).to_string(), "-KeyC");
    assert_eq!(set.clone().len(), 2);
}

#[test]
fn shortcut_states() {
    assert_eq!(ShortcutState::from_pressed(true), ShortcutState::Pressed);
    assert_eq!(ShortcutState::from_pressed(false), ShortcutState::Released);
    assert!(ShortcutState::Pressed.is_pressed());
    assert!(!ShortcutState::Released.is_pressed());
    assert_eq!(ShortcutState::Pressed.as_str(), "pressed");
    assert_eq!(ShortcutState::Released.as_str(), "released");
    let event = ShortcutEvent { shortcut: parse("-KeyA"), state: ShortcutState::Pressed };
    let copy = event.clone();
    assert_eq!(copy.shortcut, event.shortcut);
    assert_eq!(copy.state, event.state);
}
