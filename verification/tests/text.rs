use shortcutd::{Key, Modifier, ModifierList, ParseError, Shortcut};

fn parse(text: &str) -> Shortcut {
    text.parse().unwrap()
}

#[test]
fn shortcut_parse_display_test_ctrl_p() {
    let text = "<Ctrl>-KeyP";
    let shortcut = Shortcut::new(vec![Modifier::Ctrl], Key::KeyP);
    assert_eq!(text, shortcut.to_string());
    assert_eq!(shortcut, text.parse().unwrap());
}

#[test]
fn shortcut_parse_display_test_left_ctrl_left_alt_left() {
    let text = "<LeftCtrl><LeftAlt>-KeyLeft";
    let shortcut = Shortcut::new(vec![Modifier::LeftCtrl, Modifier::LeftAlt], Key::KeyLeft);
    assert_eq!(text, shortcut.to_string());
    assert_eq!(shortcut, text.parse().unwrap());
}

#[test]
fn bare_shortcut_has_only_dash_and_key() {
    let shortcut = Shortcut::new(vec![], Key::KeyA);
    assert_eq!(shortcut.to_string(), "-KeyA");
    assert_eq!(parse("-KeyA"), shortcut);
    assert!(shortcut.is_bare());
    assert!(!parse("<Shift>-KeyA").is_bare());
}

#[test]
fn format_undoes_parse_on_canonical_texts() {
    let texts = [
        "-KeyA",
        "-Btn0",
        "<Ctrl>-KeyP",
        "<Ctrl><Alt>-KeyO",
        "<Alt><Ctrl>-KeyO",
        "<LeftCtrl><LeftAlt>-KeyLeft",
        "<RightShift><RightMeta><RightAlt><RightCtrl>-KeyKbdinputassistPrevgroup",
        "<Ctrl><Ctrl>-Key102nd",
        "<Meta>-BtnTriggerHappy40",
        "<Shift><LeftShift>-KeyMax",
    ];
    for text in texts {
        assert_eq!(parse(text).to_string(), text);
    }
}

#[test]
fn parse_undoes_format() {
    let shortcuts = [
        Shortcut::new(vec![], Key::KeyReserved),
        Shortcut::new(vec![Modifier::Meta, Modifier::Shift], Key::KeySysRQ),
        Shortcut::new(vec![Modifier::Alt, Modifier::Alt, Modifier::LeftAlt], Key::BtnLeft),
    ];
    for shortcut in shortcuts {
        assert_eq!(parse(&shortcut.to_string()), shortcut);
    }
}

#[test]
fn parse_keeps_the_order_of_the_modifiers() {
    let one = parse("<Ctrl><Alt>-KeyO");
    let other = parse("<Alt><Ctrl>-KeyO");
    assert_ne!(one, other);
    assert_eq!(one.modifiers().len(), 2);
    assert_eq!(one.modifiers().get(0), Modifier::Ctrl);
    assert_eq!(one.modifiers().get(1), Modifier::Alt);
    assert_eq!(other.modifiers().get(0), Modifier::Alt);
    assert_eq!(one.key(), Key::KeyO);
}

#[test]
fn text_without_dash_misses_its_key() {
    for text in ["", "KeyP", "<Ctrl>", "<Ctrl>KeyP", "Ctrl+P"] {
        assert_eq!(Shortcut::parse(text).unwrap_err(), ParseError::MissingKey);
    }
}

#[test]
fn modifier_outside_the_closed_set_is_refused() {
    for text in ["<Control>-KeyP", "<ctrl>-KeyP", "<>-KeyP", "<Ctrl><Hyper>-KeyP", "<Ctrl >-KeyP"] {
        assert_eq!(Shortcut::parse(text).unwrap_err(), ParseError::InvalidModifier);
    }
}

#[test]
fn modifier_that_is_not_wrapped_is_refused() {
    for text in [
        "Ctrl-KeyP",
        "<Ctrl-KeyP",
        "Ctrl>-KeyP",
        "<Ctrl>>-KeyP",
        "<<Ctrl>-KeyP",
        "<Ctrl> <Alt>-KeyP",
        "<Ctrl><Alt-KeyP",
        " <Ctrl>-KeyP",
        "<Ctrl>x-KeyP",
    ] {
        assert_eq!(Shortcut::parse(text).unwrap_err(), ParseError::InvalidModifier);
    }
}

#[test]
fn unknown_key_is_refused() {
    for text in ["<Ctrl>-KeyPP", "<Ctrl>-", "-", "<Ctrl>-keyp", "<Ctrl>-KeyP ", "<Ctrl>--KeyP", "-Key-P", "<Ctrl>-P"] {
        assert_eq!(Shortcut::parse(text).unwrap_err(), ParseError::UnknownKey);
    }
}

#[test]
fn the_first_dash_parts_modifiers_from_key() {
    // What stands before the first dash is looked at first.
    assert_eq!(Shortcut::parse("<Foo>-Bar").unwrap_err(), ParseError::InvalidModifier);
    assert_eq!(Shortcut::parse("<Ct-rl>-KeyP").unwrap_err(), ParseError::InvalidModifier);
    assert_eq!(Shortcut::parse("<Ctrl>-Key-<Alt>").unwrap_err(), ParseError::UnknownKey);
}

#[test]
fn text_that_is_not_ascii_is_refused() {
    assert_eq!(Shortcut::parse("<Ctrl>-KeyÄ").unwrap_err(), ParseError::UnknownKey);
    assert_eq!(Shortcut::parse("<Ctrł>-KeyP").unwrap_err(), ParseError::InvalidModifier);
    assert_eq!(Shortcut::parse("<Ctrl>\u{2013}KeyP").unwrap_err(), ParseError::MissingKey);
}

#[test]
fn parse_error_messages() {
    assert_eq!(ParseError::MissingKey.message(), "Missing key");
    assert_eq!(ParseError::InvalidModifier.message(), "Invalid modifier");
    assert_eq!(ParseError::UnknownKey.message(), "Unknown key");
}

#[test]
fn modifier_list_text() {
    let list = ModifierList::new(vec![Modifier::Ctrl, Modifier::LeftShift]);
    assert_eq!(list.to_string(), "<Ctrl><LeftShift>");
    assert_eq!(ModifierList::new(vec![]).to_string(), "");
    assert_eq!(ModifierList::parse("<Ctrl><LeftShift>").unwrap(), list);
    assert_eq!("<Ctrl><LeftShift>".parse::<ModifierList>().unwrap(), list);
    assert!(ModifierList::parse("").unwrap().is_empty());
    assert_eq!(ModifierList::parse("").unwrap().len(), 0);
}

#[test]
fn modifier_list_refuses_what_is_not_a_run_of_tokens() {
    for text in ["<Ctrl", "Ctrl>", "<Ctrl>>", "<Ctrl>><Alt>", "<Ctrl>-", "<Key>", "Ctrl", "<Ctrl><", ">"] {
        assert_eq!(ModifierList::parse(text).unwrap_err(), ParseError::InvalidModifier);
    }
}

#[test]
fn modifier_names() {
    let all = [
        (Modifier::Alt, "Alt"),
        (Modifier::LeftAlt, "LeftAlt"),
        (Modifier::RightAlt, "RightAlt"),
        (Modifier::Ctrl, "Ctrl"),
        (Modifier::LeftCtrl, "LeftCtrl"),
        (Modifier::RightCtrl, "RightCtrl"),
        (Modifier::Shift, "Shift"),
        (Modifier::LeftShift, "LeftShift"),
        (Modifier::RightShift, "RightShift"),
        (Modifier::Meta, "Meta"),
        (Modifier::LeftMeta, "LeftMeta"),
        (Modifier::RightMeta, "RightMeta"),
    ];
    for (modifier, name) in all {
        assert_eq!(modifier.name(), name);
        assert_eq!(Modifier::from_name(name), Some(modifier));
        assert_eq!(name.parse::<Modifier>(), Ok(modifier));
    }
    assert_eq!(Modifier::from_name("Left"), None);
    assert_eq!(Modifier::from_name(""), None);
    assert_eq!("Hyper".parse::<Modifier>(), Err(ParseError::InvalidModifier));
}

#[test]
fn identifier_drops_brackets_and_turns_dash_to_underscore() {
    assert_eq!(parse("<Ctrl><Alt>-KeyO").identifier(), "CtrlAlt_KeyO");
    assert_eq!(parse("<LeftCtrl><LeftAlt>-KeyLeft").identifier(), "LeftCtrlLeftAlt_KeyLeft");
    assert_eq!(parse("-KeyA").identifier(), "_KeyA");
    assert_eq!(parse("<Meta>-Btn0").identifier(), "Meta_Btn0");
}

#[test]
fn identifier_is_the_text_with_marks_replaced() {
    for text in ["-KeyA", "<Ctrl>-KeyP", "<Shift><Meta><Alt>-KeyF24", "<RightCtrl>-BtnDpadUp"] {
        let expected = text.replace('<', "").replace('>', "").replace('-', "_");
        assert_eq!(parse(text).identifier(), expected);
    }
}

#[test]
fn identifier_tells_shortcuts_apart() {
    let texts = [
        "-KeyA",
        "-KeyB",
        "<Alt>-KeyA",
        "<LeftAlt>-KeyA",
        "<RightAlt>-KeyA",
        "<Ctrl>-KeyA",
        "<Ctrl><Alt>-KeyA",
        "<Alt><Ctrl>-KeyA",
        "<Ctrl><Ctrl>-KeyA",
        "<LeftCtrl><LeftAlt>-KeyLeft",
        "<LeftCtrl><LeftAlt>-KeyRight",
        "<Shift>-Key1",
        "<Shift>-KeyKp1",
        "<Meta>-KeyF1",
        "<Meta>-KeyF11",
        "<Meta>-KeyFn",
        "<Meta>-KeyFnF1",
    ];
    let mut seen: Vec<String> = Vec::new();
    for text in texts {
        let identifier = parse(text).identifier();
        assert_eq!(identifier, parse(text).identifier());
        assert!(!seen.contains(&identifier));
        seen.push(identifier);
    }
}
