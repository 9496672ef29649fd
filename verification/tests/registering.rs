use shortcutd::{
    after_run, keyboards_ready, DeviceListener, InputEvent, Key, Next, ParseError, QuotaExceeded, Register,
    RegisterError, RunEnd, Shortcut, ShortcutEvent, ShortcutState, MAX_BARE, REGISTER_PATH,
    RESTART_DELAY_SECS, SERVICE_NAME, TICK_MILLIS,
};

fn press(key: Key) -> InputEvent {
    InputEvent { code: key.code(), value: 1 }
}

fn release(key: Key) -> InputEvent {
    InputEvent { code: key.code(), value: 0 }
}

fn parse(text: &str) -> Shortcut {
    text.parse().unwrap()
}

#[test]
fn quota_of_bare_shortcuts() {
    let mut register = Register::new();
    assert_eq!(register.register("-KeyA"), Ok("/_KeyA".to_string()));
    assert_eq!(register.register("-KeyB"), Ok("/_KeyB".to_string()));
    assert_eq!(register.register("-KeyC"), Ok("/_KeyC".to_string()));
    assert_eq!(register.bare_count(), 3);
    assert_eq!(register.register("-KeyD"), Err(RegisterError::QuotaExceeded));
    assert_eq!(register.bare_count(), 3);
    assert!(!register.has(&parse("-KeyD")));
    assert_eq!(register.listener().shortcuts().len(), 3);
    // A shortcut with a modifier is taken however many bare ones there are.
    assert_eq!(register.register("<Shift>-KeyD"), Ok("/Shift_KeyD".to_string()));
    assert_eq!(register.bare_count(), 3);
    assert_eq!(register.listener().shortcuts().len(), 4);
    // A bare shortcut that is registered already is taken again and not counted again.
    assert_eq!(register.register("-KeyB"), Ok("/_KeyB".to_string()));
    assert_eq!(register.bare_count(), 3);
    assert_eq!(register.listener().shortcuts().len(), 4);
    assert_eq!(register.register("-KeyE"), Err(RegisterError::QuotaExceeded));
}

#[test]
fn registering_twice_counts_once() {
    let mut register = Register::new();
    for _ in 0..5 {
        assert_eq!(register.register("-KeyA"), Ok("/_KeyA".to_string()));
    }
    assert_eq!(register.bare_count(), 1);
    assert_eq!(register.listener().shortcuts().len(), 1);
    assert_eq!(register.register("-KeyB"), Ok("/_KeyB".to_string()));
    assert_eq!(register.register("-KeyC"), Ok("/_KeyC".to_string()));
    assert_eq!(register.bare_count(), 3);
}

#[test]
fn shortcuts_with_modifiers_are_not_counted() {
    let mut register = Register::new();
    for text in ["<Ctrl>-KeyA", "<Ctrl>-KeyB", "<Ctrl>-KeyC", "<Ctrl>-KeyD", "<Alt>-KeyA", "<Alt><Ctrl>-KeyA"] {
        assert!(register.register(text).is_ok());
    }
    assert_eq!(register.bare_count(), 0);
    assert_eq!(register.listener().shortcuts().len(), 6);
}

#[test]
fn register_shortcut_by_value() {
    let mut register = Register::new();
    assert_eq!(register.register_shortcut(parse("-KeyA")), Ok(()));
    assert_eq!(register.register_shortcut(parse("-KeyB")), Ok(()));
    assert_eq!(register.register_shortcut(parse("-KeyC")), Ok(()));
    assert_eq!(register.register_shortcut(parse("-KeyD")), Err(QuotaExceeded));
    assert_eq!(register.register_shortcut(parse("-KeyA")), Ok(()));
    assert_eq!(register.register_shortcut(parse("<Meta>-KeyD")), Ok(()));
    assert!(register.has(&parse("<Meta>-KeyD")));
    assert!(!register.has(&parse("-KeyD")));
}

#[test]
fn malformed_text_is_refused_and_changes_nothing() {
    let mut register = Register::new();
    assert_eq!(register.register("Ctrl+P"), Err(RegisterError::Malformed(ParseError::MissingKey)));
    assert_eq!(
        register.register("<Hyper>-KeyP"),
        Err(RegisterError::Malformed(ParseError::InvalidModifier))
    );
    assert_eq!(register.register("<Ctrl>-P"), Err(RegisterError::Malformed(ParseError::UnknownKey)));
    assert_eq!(register.listener().shortcuts().len(), 0);
    assert_eq!(register.bare_count(), 0);
}

#[test]
fn fault_messages() {
    assert_eq!(RegisterError::Malformed(ParseError::UnknownKey).message(), "Malformed shortcut");
    assert_eq!(RegisterError::Malformed(ParseError::MissingKey).message(), "Malformed shortcut");
    assert_eq!(
        RegisterError::QuotaExceeded.message(),
        "Only 3 shortcuts without modifiers are allowed"
    );
    assert_eq!(
        RegisterError::QuotaExceeded.message(),
        format!("Only {} shortcuts without modifiers are allowed", MAX_BARE)
    );
}

#[test]
fn names_and_times_of_the_service() {
    assert_eq!(SERVICE_NAME, "nl.icewind.shortcutd");
    assert_eq!(REGISTER_PATH, "/register");
    assert_eq!(MAX_BARE, 3);
    assert_eq!(TICK_MILLIS, 50);
    assert_eq!(RESTART_DELAY_SECS, 15);
}

#[test]
fn path_is_slash_and_identifier() {
    assert_eq!(Register::path_of(&parse("<Ctrl><Alt>-KeyO")), "/CtrlAlt_KeyO");
    assert_eq!(Register::path_of(&parse("-KeyA")), format!("/{}", parse("-KeyA").identifier()));
}

#[test]
fn notification_goes_to_registered_shortcuts_only() {
    let mut register = Register::new();
    register.register("<Ctrl>-KeyP").unwrap();
    let pressed = ShortcutEvent { shortcut: parse("<Ctrl>-KeyP"), state: ShortcutState::Pressed };
    let notification = register.notification(&pressed).unwrap();
    assert_eq!(notification.path, "/Ctrl_KeyP");
    assert_eq!(notification.pressed, true);
    let released = ShortcutEvent { shortcut: parse("<Ctrl>-KeyP"), state: ShortcutState::Released };
    let notification = register.notification(&released).unwrap();
    assert_eq!(notification.path, "/Ctrl_KeyP");
    assert_eq!(notification.pressed, false);
    let unknown = ShortcutEvent { shortcut: parse("<Alt>-KeyP"), state: ShortcutState::Pressed };
    assert!(register.notification(&unknown).is_none());
}

#[test]
fn end_to_end_ctrl_alt_o() {
    let mut register = Register::new();
    let path = register.register("<Ctrl><Alt>-KeyO").unwrap();
    assert_eq!(path, "/CtrlAlt_KeyO");
    let mut device = DeviceListener::new();
    let mut sent: Vec<(String, bool)> = Vec::new();
    let feed = [
        vec![press(Key::KeyLeftCtrl), press(Key::KeyLeftAlt), press(Key::KeyO)],
        vec![release(Key::KeyO)],
    ];
    for batch in feed {
        for event in device.handle_events(&batch, register.listener()) {
            if let Some(notification) = register.notification(&event) {
                sent.push((notification.path, notification.pressed));
            }
        }
    }
    assert_eq!(sent, vec![("/CtrlAlt_KeyO".to_string(), true), ("/CtrlAlt_KeyO".to_string(), false)]);
}

#[test]
fn a_failed_start_ends_the_daemon() {
    assert_eq!(after_run(RunEnd::StartupFailed), Next::Exit);
}

#[test]
fn a_failed_run_starts_anew_after_fifteen_seconds() {
    assert_eq!(after_run(RunEnd::Crashed), Next::RestartAfter { secs: 15 });
    assert_eq!(after_run(RunEnd::Panicked), Next::RestartAfter { secs: 15 });
    assert_eq!(after_run(RunEnd::Crashed), Next::RestartAfter { secs: RESTART_DELAY_SECS });
}

#[test]
fn the_daemon_needs_every_keyboard_and_at_least_one() {
    assert!(!keyboards_ready(0, 0));
    assert!(keyboards_ready(1, 1));
    assert!(keyboards_ready(3, 3));
    assert!(!keyboards_ready(3, 2));
    assert!(!keyboards_ready(1, 0));
    assert!(!keyboards_ready(2, 3));
}
