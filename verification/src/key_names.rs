//! The names of the keys, as they stand in the text of a shortcut.

use crate::error::ParseError;
use crate::keycodes::{lemma_code_bounded, lemma_code_injective, Key, MAX_KEY_CODE};
use crate::text::{chars_of, is_name_char, same_text};
use vstd::prelude::*;

verus! {

/// No key name is longer than this.
pub const MAX_KEY_NAME_LEN: usize = 26;

impl Key {
    /// The name of the key: the name of its variant.
    pub open spec fn spec_name(self) -> Seq<char> {
        match self {
            Key::KeyReserved => "KeyReserved"@,
            Key::KeyEsc => "KeyEsc"@,
            Key::Key1 => "Key1"@,
            Key::Key2 => "Key2"@,
            Key::Key3 => "Key3"@,
            Key::Key4 => "Key4"@,
            Key::Key5 => "Key5"@,
            Key::Key6 => "Key6"@,
            Key::Key7 => "Key7"@,
            Key::Key8 => "Key8"@,
            Key::Key9 => "Key9"@,
            Key::Key0 => "Key0"@,
            Key::KeyMinus => "KeyMinus"@,
            Key::KeyEqual => "KeyEqual"@,
            Key::KeyBackspace => "KeyBackspace"@,
            Key::KeyTab => "KeyTab"@,
            Key::KeyQ => "KeyQ"@,
            Key::KeyW => "KeyW"@,
            Key::KeyE => "KeyE"@,
            Key::KeyR => "KeyR"@,
            Key::KeyT => "KeyT"@,
            Key::KeyY => "KeyY"@,
            Key::KeyU => "KeyU"@,
            Key::KeyI => "KeyI"@,
            Key::KeyO => "KeyO"@,
            Key::KeyP => "KeyP"@,
            Key::KeyLeftBrace => "KeyLeftBrace"@,
            Key::KeyRightBrace => "KeyRightBrace"@,
            Key::KeyEnter => "KeyEnter"@,
            Key::KeyLeftCtrl => "KeyLeftCtrl"@,
            Key::KeyA => "KeyA"@,
            Key::KeyS => "KeyS"@,
            Key::KeyD => "KeyD"@,
            Key::KeyF => "KeyF"@,
            Key::KeyG => "KeyG"@,
            Key::KeyH => "KeyH"@,
            Key::KeyJ => "KeyJ"@,
            Key::KeyK => "KeyK"@,
            Key::KeyL => "KeyL"@,
            Key::KeySemicolon => "KeySemicolon"@,
            Key::KeyApostrophe => "KeyApostrophe"@,
            Key::KeyGrave => "KeyGrave"@,
            Key::KeyLeftShift => "KeyLeftShift"@,
            Key::KeyBackslash => "KeyBackslash"@,
            Key::KeyZ => "KeyZ"@,
            Key::KeyX => "KeyX"@,
            Key::KeyC => "KeyC"@,
            Key::KeyV => "KeyV"@,
            Key::KeyB => "KeyB"@,
            Key::KeyN => "KeyN"@,
            Key::KeyM => "KeyM"@,
            Key::KeyComma => "KeyComma"@,
            Key::KeyDot => "KeyDot"@,
            Key::KeySlash => "KeySlash"@,
            Key::KeyRightShift => "KeyRightShift"@,
            Key::KeyKpAsterisk => "KeyKpAsterisk"@,
            Key::KeyLeftAlt => "KeyLeftAlt"@,
            Key::KeySpace => "KeySpace"@,
            Key::KeyCapsLock => "KeyCapsLock"@,
            Key::KeyF1 => "KeyF1"@,
            Key::KeyF2 => "KeyF2"@,
            Key::KeyF3 => "KeyF3"@,
            Key::KeyF4 => "KeyF4"@,
            Key::KeyF5 => "KeyF5"@,
            Key::KeyF6 => "KeyF6"@,
            Key::KeyF7 => "KeyF7"@,
            Key::KeyF8 => "KeyF8"@,
            Key::KeyF9 => "KeyF9"@,
            Key::KeyF10 => "KeyF10"@,
            Key::KeyNumLock => "KeyNumLock"@,
            Key::KeyScrollLock => "KeyScrollLock"@,
            Key::KeyKp7 => "KeyKp7"@,
            Key::KeyKp8 => "KeyKp8"@,
            Key::KeyKp9 => "KeyKp9"@,
            Key::KeyKpMinus => "KeyKpMinus"@,
            Key::KeyKp4 => "KeyKp4"@,
            Key::KeyKp5 => "KeyKp5"@,
            Key::KeyKp6 => "KeyKp6"@,
            Key::KeyKpPlus => "KeyKpPlus"@,
            Key::KeyKp1 => "KeyKp1"@,
            Key::KeyKp2 => "KeyKp2"@,
            Key::KeyKp3 => "KeyKp3"@,
            Key::KeyKp0 => "KeyKp0"@,
            Key::KeyKpDot => "KeyKpDot"@,
            Key::KeyZenkakuhankaku => "KeyZenkakuhankaku"@,
            Key::Key102nd => "Key102nd"@,
            Key::KeyF11 => "KeyF11"@,
            Key::KeyF12 => "KeyF12"@,
            Key::KeyRo => "KeyRo"@,
            Key::KeyKatakana => "KeyKatakana"@,
            Key::KeyHiragana => "KeyHiragana"@,
            Key::KeyHenkan => "KeyHenkan"@,
            Key::KeyKatakanahiragana => "KeyKatakanahiragana"@,
            Key::KeyMuhenkan => "KeyMuhenkan"@,
            Key::KeyKpJpComma => "KeyKpJpComma"@,
            Key::KeyKpEnter => "KeyKpEnter"@,
            Key::KeyRightCtrl => "KeyRightCtrl"@,
            Key::KeyKpSlash => "KeyKpSlash"@,
            Key::KeySysRQ => "KeySysRQ"@,
            Key::KeyRightAlt => "KeyRightAlt"@,
            Key::KeyLinefeed => "KeyLinefeed"@,
            Key::KeyHome => "KeyHome"@,
            Key::KeyUp => "KeyUp"@,
            Key::KeyPageup => "KeyPageup"@,
            Key::KeyLeft => "KeyLeft"@,
            Key::KeyRight => "KeyRight"@,
            Key::KeyEnd => "KeyEnd"@,
            Key::KeyDown => "KeyDown"@,
            Key::KeyPagedown => "KeyPagedown"@,
            Key::KeyInsert => "KeyInsert"@,
            Key::KeyDelete => "KeyDelete"@,
            Key::KeyMacro => "KeyMacro"@,
            Key::KeyMute => "KeyMute"@,
            Key::KeyVolumeDown => "KeyVolumeDown"@,
            Key::KeyVolumeUp => "KeyVolumeUp"@,
            Key::KeyPower => "KeyPower"@,
            Key::KeyKpEqual => "KeyKpEqual"@,
            Key::KeyKpPlusMinus => "KeyKpPlusMinus"@,
            Key::KeyPause => "KeyPause"@,
            Key::KeyScale => "KeyScale"@,
            Key::KeyKpComma => "KeyKpComma"@,
            Key::KeyHangeul => "KeyHangeul"@,
            Key::KeyHanja => "KeyHanja"@,
            Key::KeyYen => "KeyYen"@,
            Key::KeyLeftMeta => "KeyLeftMeta"@,
            Key::KeyRightMeta => "KeyRightMeta"@,
            Key::KeyCompose => "KeyCompose"@,
            Key::KeyStop => "KeyStop"@,
            Key::KeyAgain => "KeyAgain"@,
            Key::KeyProps => "KeyProps"@,
            Key::KeyUndo => "KeyUndo"@,
            Key::KeyFront => "KeyFront"@,
            Key::KeyCopy => "KeyCopy"@,
            Key::KeyOpen => "KeyOpen"@,
            Key::KeyPaste => "KeyPaste"@,
            Key::KeyFind => "KeyFind"@,
            Key::KeyCut => "KeyCut"@,
            Key::KeyHelp => "KeyHelp"@,
            Key::KeyMenu => "KeyMenu"@,
            Key::KeyCalc => "KeyCalc"@,
            Key::KeySetup => "KeySetup"@,
            Key::KeySleep => "KeySleep"@,
            Key::KeyWakeup => "KeyWakeup"@,
            Key::KeyFile => "KeyFile"@,
            Key::KeySendfile => "KeySendfile"@,
            Key::KeyDeleteFile => "KeyDeleteFile"@,
            Key::KeyXfer => "KeyXfer"@,
            Key::KeyProg1 => "KeyProg1"@,
            Key::KeyProg2 => "KeyProg2"@,
            Key::KeyWww => "KeyWww"@,
            Key::KeyMsDos => "KeyMsDos"@,
            Key::KeyCoffee => "KeyCoffee"@,
            Key::KeyDirection => "KeyDirection"@,
            Key::KeyCycleWindows => "KeyCycleWindows"@,
            Key::KeyMail => "KeyMail"@,
            Key::KeyBookmarks => "KeyBookmarks"@,
            Key::KeyComputer => "KeyComputer"@,
            Key::KeyBack => "KeyBack"@,
            Key::KeyForward => "KeyForward"@,
            Key::KeyCloseCd => "KeyCloseCd"@,
            Key::KeyEjectCd => "KeyEjectCd"@,
            Key::KeyEjectCloseCd => "KeyEjectCloseCd"@,
            Key::KeyNextSong => "KeyNextSong"@,
            Key::KeyPlayPause => "KeyPlayPause"@,
            Key::KeyPreviousSong => "KeyPreviousSong"@,
            Key::KeyStopCd => "KeyStopCd"@,
            Key::KeyRecord => "KeyRecord"@,
            Key::KeyRewind => "KeyRewind"@,
            Key::KeyPhone => "KeyPhone"@,
            Key::KeyIso => "KeyIso"@,
            Key::KeyConfig => "KeyConfig"@,
            Key::KeyHomepage => "KeyHomepage"@,
            Key::KeyRefresh => "KeyRefresh"@,
            Key::KeyExit => "KeyExit"@,
            Key::KeyMove => "KeyMove"@,
            Key::KeyEdit => "KeyEdit"@,
            Key::KeyScrollUp => "KeyScrollUp"@,
            Key::KeyScrollDown => "KeyScrollDown"@,
            Key::KeyKpLeftParen => "KeyKpLeftParen"@,
            Key::KeyKpRightParen => "KeyKpRightParen"@,
            Key::KeyNew => "KeyNew"@,
            Key::KeyRedo => "KeyRedo"@,
            Key::KeyF13 => "KeyF13"@,
            Key::KeyF14 => "KeyF14"@,
            Key::KeyF15 => "KeyF15"@,
            Key::KeyF16 => "KeyF16"@,
            Key::KeyF17 => "KeyF17"@,
            Key::KeyF18 => "KeyF18"@,
            Key::KeyF19 => "KeyF19"@,
            Key::KeyF20 => "KeyF20"@,
            Key::KeyF21 => "KeyF21"@,
            Key::KeyF22 => "KeyF22"@,
            Key::KeyF23 => "KeyF23"@,
            Key::KeyF24 => "KeyF24"@,
            Key::KeyPlayCd => "KeyPlayCd"@,
            Key::KeyPauseCd => "KeyPauseCd"@,
            Key::KeyProg3 => "KeyProg3"@,
            Key::KeyProg4 => "KeyProg4"@,
            Key::KeyDashboard => "KeyDashboard"@,
            Key::KeySuspend => "KeySuspend"@,
            Key::KeyClose => "KeyClose"@,
            Key::KeyPlay => "KeyPlay"@,
            Key::KeyFastForward => "KeyFastForward"@,
            Key::KeyBassBoost => "KeyBassBoost"@,
            Key::KeyPrint => "KeyPrint"@,
            Key::KeyHp => "KeyHp"@,
            Key::KeyCamera => "KeyCamera"@,
            Key::KeySound => "KeySound"@,
            Key::KeyQuestion => "KeyQuestion"@,
            Key::KeyEmail => "KeyEmail"@,
            Key::KeyChat => "KeyChat"@,
            Key::KeySearch => "KeySearch"@,
            Key::KeyConnect => "KeyConnect"@,
            Key::KeyFinance => "KeyFinance"@,
            Key::KeySport => "KeySport"@,
            Key::KeyShop => "KeyShop"@,
            Key::KeyAltErase => "KeyAltErase"@,
            Key::KeyCancel => "KeyCancel"@,
            Key::KeyBrightnessDown => "KeyBrightnessDown"@,
            Key::KeyBrightnessUp => "KeyBrightnessUp"@,
            Key::KeyMedia => "KeyMedia"@,
            Key::KeySwitchVideoMode => "KeySwitchVideoMode"@,
            Key::KeyKbDillumToggle => "KeyKbDillumToggle"@,
            Key::KeyKbDillumDown => "KeyKbDillumDown"@,
            Key::KeyKbDillumUp => "KeyKbDillumUp"@,
            Key::KeySend => "KeySend"@,
            Key::KeyReply => "KeyReply"@,
            Key::KeyForwardMail => "KeyForwardMail"@,
            Key::KeySave => "KeySave"@,
            Key::KeyDocuments => "KeyDocuments"@,
            Key::KeyBattery => "KeyBattery"@,
            Key::KeyBluetooth => "KeyBluetooth"@,
            Key::KeyWlan => "KeyWlan"@,
            Key::KeyUwb => "KeyUwb"@,
            Key::KeyUnknown => "KeyUnknown"@,
            Key::KeyVideoNext => "KeyVideoNext"@,
            Key::KeyVideoPrev => "KeyVideoPrev"@,
            Key::KeyBrightnessCycle => "KeyBrightnessCycle"@,
            Key::KeyBrightnessAuto => "KeyBrightnessAuto"@,
            Key::KeyDisplayOff => "KeyDisplayOff"@,
            Key::KeyWwan => "KeyWwan"@,
            Key::KeyRfKill => "KeyRfKill"@,
            Key::KeyMicMute => "KeyMicMute"@,
            Key::Btn0 => "Btn0"@,
            Key::Btn1 => "Btn1"@,
            Key::Btn2 => "Btn2"@,
            Key::Btn3 => "Btn3"@,
            Key::Btn4 => "Btn4"@,
            Key::Btn5 => "Btn5"@,
            Key::Btn6 => "Btn6"@,
            Key::Btn7 => "Btn7"@,
            Key::Btn8 => "Btn8"@,
            Key::Btn9 => "Btn9"@,
            Key::BtnLeft => "BtnLeft"@,
            Key::BtnRight => "BtnRight"@,
            Key::BtnMiddle => "BtnMiddle"@,
            Key::BtnSide => "BtnSide"@,
            Key::BtnExtra => "BtnExtra"@,
            Key::BtnForward => "BtnForward"@,
            Key::BtnBack => "BtnBack"@,
            Key::BtnTask => "BtnTask"@,
            Key::BtnTrigger => "BtnTrigger"@,
            Key::BtnThumb => "BtnThumb"@,
            Key::BtnThumb2 => "BtnThumb2"@,
            Key::BtnTop => "BtnTop"@,
            Key::BtnTop2 => "BtnTop2"@,
            Key::BtnPinkie => "BtnPinkie"@,
            Key::BtnBase => "BtnBase"@,
            Key::BtnBase2 => "BtnBase2"@,
            Key::BtnBase3 => "BtnBase3"@,
            Key::BtnBase4 => "BtnBase4"@,
            Key::BtnBase5 => "BtnBase5"@,
            Key::BtnBase6 => "BtnBase6"@,
            Key::BtnDead => "BtnDead"@,
            Key::BtnSouth => "BtnSouth"@,
            Key::BtnEast => "BtnEast"@,
            Key::BtnC => "BtnC"@,
            Key::BtnNorth => "BtnNorth"@,
            Key::BtnWest => "BtnWest"@,
            Key::BtnZ => "BtnZ"@,
            Key::BtnTl => "BtnTl"@,
            Key::BtnTr => "BtnTr"@,
            Key::BtnTl2 => "BtnTl2"@,
            Key::BtnTr2 => "BtnTr2"@,
            Key::BtnSelect => "BtnSelect"@,
            Key::BtnStart => "BtnStart"@,
            Key::BtnMode => "BtnMode"@,
            Key::BtnThumbL => "BtnThumbL"@,
            Key::BtnThumbR => "BtnThumbR"@,
            Key::BtnToolPen => "BtnToolPen"@,
            Key::BtnToolRubber => "BtnToolRubber"@,
            Key::BtnToolBrush => "BtnToolBrush"@,
            Key::BtnToolPencil => "BtnToolPencil"@,
            Key::BtnToolAirbrush => "BtnToolAirbrush"@,
            Key::BtnToolFinger => "BtnToolFinger"@,
            Key::BtnToolMouse => "BtnToolMouse"@,
            Key::BtnToolLens => "BtnToolLens"@,
            Key::BtnToolQuintTap => "BtnToolQuintTap"@,
            Key::BtnTouch => "BtnTouch"@,
            Key::BtnStylus => "BtnStylus"@,
            Key::BtnStylus2 => "BtnStylus2"@,
            Key::BtnToolDoubleTap => "BtnToolDoubleTap"@,
            Key::BtnToolTripleTap => "BtnToolTripleTap"@,
            Key::BtnToolQuadTap => "BtnToolQuadTap"@,
            Key::BtnGearDown => "BtnGearDown"@,
            Key::BtnGearUp => "BtnGearUp"@,
            Key::KeyOk => "KeyOk"@,
            Key::KeySelect => "KeySelect"@,
            Key::KeyGoto => "KeyGoto"@,
            Key::KeyClear => "KeyClear"@,
            Key::KeyPower2 => "KeyPower2"@,
            Key::KeyOption => "KeyOption"@,
            Key::KeyInfo => "KeyInfo"@,
            Key::KeyTime => "KeyTime"@,
            Key::KeyVendor => "KeyVendor"@,
            Key::KeyArchive => "KeyArchive"@,
            Key::KeyProgram => "KeyProgram"@,
            Key::KeyChannel => "KeyChannel"@,
            Key::KeyFavorites => "KeyFavorites"@,
            Key::KeyEpg => "KeyEpg"@,
            Key::KeyPvr => "KeyPvr"@,
            Key::KeyMhp => "KeyMhp"@,
            Key::KeyLanguage => "KeyLanguage"@,
            Key::KeyTitle => "KeyTitle"@,
            Key::KeySubtitle => "KeySubtitle"@,
            Key::KeyAngle => "KeyAngle"@,
            Key::KeyZoom => "KeyZoom"@,
            Key::KeyMode => "KeyMode"@,
            Key::KeyKeyboard => "KeyKeyboard"@,
            Key::KeyScreen => "KeyScreen"@,
            Key::KeyPc => "KeyPc"@,
            Key::KeyTv => "KeyTv"@,
            Key::KeyTv2 => "KeyTv2"@,
            Key::KeyVcr => "KeyVcr"@,
            Key::KeyVcr2 => "KeyVcr2"@,
            Key::KeySat => "KeySat"@,
            Key::KeySat2 => "KeySat2"@,
            Key::KeyCd => "KeyCd"@,
            Key::KeyTape => "KeyTape"@,
            Key::KeyRadio => "KeyRadio"@,
            Key::KeyTuner => "KeyTuner"@,
            Key::KeyPlayer => "KeyPlayer"@,
            Key::KeyText => "KeyText"@,
            Key::KeyDvd => "KeyDvd"@,
            Key::KeyAux => "KeyAux"@,
            Key::KeyMp3 => "KeyMp3"@,
            Key::KeyAudio => "KeyAudio"@,
            Key::KeyVideo => "KeyVideo"@,
            Key::KeyDirectory => "KeyDirectory"@,
            Key::KeyList => "KeyList"@,
            Key::KeyMemo => "KeyMemo"@,
            Key::KeyCalendar => "KeyCalendar"@,
            Key::KeyRed => "KeyRed"@,
            Key::KeyGreen => "KeyGreen"@,
            Key::KeyYellow => "KeyYellow"@,
            Key::KeyBlue => "KeyBlue"@,
            Key::KeyChannelUp => "KeyChannelUp"@,
            Key::KeyChannelDown => "KeyChannelDown"@,
            Key::KeyFirst => "KeyFirst"@,
            Key::KeyLast => "KeyLast"@,
            Key::KeyAb => "KeyAb"@,
            Key::KeyNext => "KeyNext"@,
            Key::KeyRestart => "KeyRestart"@,
            Key::KeySlow => "KeySlow"@,
            Key::KeyShuffle => "KeyShuffle"@,
            Key::KeyBreak => "KeyBreak"@,
            Key::KeyPrevious => "KeyPrevious"@,
            Key::KeyDigits => "KeyDigits"@,
            Key::KeyTeen => "KeyTeen"@,
            Key::KeyTwen => "KeyTwen"@,
            Key::KeyVideophone => "KeyVideophone"@,
            Key::KeyGames => "KeyGames"@,
            Key::KeyZoomIn => "KeyZoomIn"@,
            Key::KeyZoomOut => "KeyZoomOut"@,
            Key::KeyZoomReset => "KeyZoomReset"@,
            Key::KeyWordProcessor => "KeyWordProcessor"@,
            Key::KeyEditor => "KeyEditor"@,
            Key::KeySpreadsheet => "KeySpreadsheet"@,
            Key::KeyGraphicsEditor => "KeyGraphicsEditor"@,
            Key::KeyPresentation => "KeyPresentation"@,
            Key::KeyDatabase => "KeyDatabase"@,
            Key::KeyNews => "KeyNews"@,
            Key::KeyVoiceMail => "KeyVoiceMail"@,
            Key::KeyAddressBook => "KeyAddressBook"@,
            Key::KeyMessenger => "KeyMessenger"@,
            Key::KeyDisplayToggle => "KeyDisplayToggle"@,
            Key::KeySpellcheck => "KeySpellcheck"@,
            Key::KeyLogoff => "KeyLogoff"@,
            Key::KeyDollar => "KeyDollar"@,
            Key::KeyEuro => "KeyEuro"@,
            Key::KeyFrameBack => "KeyFrameBack"@,
            Key::KeyFrameForward => "KeyFrameForward"@,
            Key::KeyContextMenu => "KeyContextMenu"@,
            Key::KeyMediaRepeat => "KeyMediaRepeat"@,
            Key::Key10ChannelsUp => "Key10ChannelsUp"@,
            Key::Key10ChannelsDown => "Key10ChannelsDown"@,
            Key::KeyImages => "KeyImages"@,
            Key::KeyDelEol => "KeyDelEol"@,
            Key::KeyDelEos => "KeyDelEos"@,
            Key::KeyInsLine => "KeyInsLine"@,
            Key::KeyDelLine => "KeyDelLine"@,
            Key::KeyFn => "KeyFn"@,
            Key::KeyFnEsc => "KeyFnEsc"@,
            Key::KeyFnF1 => "KeyFnF1"@,
            Key::KeyFnF2 => "KeyFnF2"@,
            Key::KeyFnF3 => "KeyFnF3"@,
            Key::KeyFnF4 => "KeyFnF4"@,
            Key::KeyFnF5 => "KeyFnF5"@,
            Key::KeyFnF6 => "KeyFnF6"@,
            Key::KeyFnF7 => "KeyFnF7"@,
            Key::KeyFnF8 => "KeyFnF8"@,
            Key::KeyFnF9 => "KeyFnF9"@,
            Key::KeyFnF10 => "KeyFnF10"@,
            Key::KeyFnF11 => "KeyFnF11"@,
            Key::KeyFnF12 => "KeyFnF12"@,
            Key::KeyFn1 => "KeyFn1"@,
            Key::KeyFn2 => "KeyFn2"@,
            Key::KeyFnD => "KeyFnD"@,
            Key::KeyFnE => "KeyFnE"@,
            Key::KeyFnF => "KeyFnF"@,
            Key::KeyFnS => "KeyFnS"@,
            Key::KeyFnB => "KeyFnB"@,
            Key::KeyBrlDot1 => "KeyBrlDot1"@,
            Key::KeyBrlDot2 => "KeyBrlDot2"@,
            Key::KeyBrlDot3 => "KeyBrlDot3"@,
            Key::KeyBrlDot4 => "KeyBrlDot4"@,
            Key::KeyBrlDot5 => "KeyBrlDot5"@,
            Key::KeyBrlDot6 => "KeyBrlDot6"@,
            Key::KeyBrlDot7 => "KeyBrlDot7"@,
            Key::KeyBrlDot8 => "KeyBrlDot8"@,
            Key::KeyBrlDot9 => "KeyBrlDot9"@,
            Key::KeyBrlDot10 => "KeyBrlDot10"@,
            Key::KeyNumeric0 => "KeyNumeric0"@,
            Key::KeyNumeric1 => "KeyNumeric1"@,
            Key::KeyNumeric2 => "KeyNumeric2"@,
            Key::KeyNumeric3 => "KeyNumeric3"@,
            Key::KeyNumeric4 => "KeyNumeric4"@,
            Key::KeyNumeric5 => "KeyNumeric5"@,
            Key::KeyNumeric6 => "KeyNumeric6"@,
            Key::KeyNumeric7 => "KeyNumeric7"@,
            Key::KeyNumeric8 => "KeyNumeric8"@,
            Key::KeyNumeric9 => "KeyNumeric9"@,
            Key::KeyNumericStar => "KeyNumericStar"@,
            Key::KeyNumericPound => "KeyNumericPound"@,
            Key::KeyCameraFocus => "KeyCameraFocus"@,
            Key::KeyWpsButton => "KeyWpsButton"@,
            Key::KeyTouchpadToggle => "KeyTouchpadToggle"@,
            Key::KeyTouchpadOn => "KeyTouchpadOn"@,
            Key::KeyTouchpadOff => "KeyTouchpadOff"@,
            Key::KeyCameraZoomIn => "KeyCameraZoomIn"@,
            Key::KeyCameraZoomOut => "KeyCameraZoomOut"@,
            Key::KeyCameraUp => "KeyCameraUp"@,
            Key::KeyCameraDown => "KeyCameraDown"@,
            Key::KeyCameraLeft => "KeyCameraLeft"@,
            Key::KeyCameraRight => "KeyCameraRight"@,
            Key::KeyAttendantOn => "KeyAttendantOn"@,
            Key::KeyAttendantOff => "KeyAttendantOff"@,
            Key::KeyAttendantToggle => "KeyAttendantToggle"@,
            Key::KeyLightsToggle => "KeyLightsToggle"@,
            Key::BtnDpadUp => "BtnDpadUp"@,
            Key::BtnDpadDown => "BtnDpadDown"@,
            Key::BtnDpadLeft => "BtnDpadLeft"@,
            Key::BtnDpadRight => "BtnDpadRight"@,
            Key::KeyAlsToggle => "KeyAlsToggle"@,
            Key::KeyButtonConfig => "KeyButtonConfig"@,
            Key::KeyTaskManager => "KeyTaskManager"@,
            Key::KeyJournal => "KeyJournal"@,
            Key::KeyControlPanel => "KeyControlPanel"@,
            Key::KeyAppSelect => "KeyAppSelect"@,
            Key::KeyScreenSaver => "KeyScreenSaver"@,
            Key::KeyVoiceCommand => "KeyVoiceCommand"@,
            Key::KeyBrightnessMin => "KeyBrightnessMin"@,
            Key::KeyBrightnessMax => "KeyBrightnessMax"@,
            Key::KeyKbdinputassistPrev => "KeyKbdinputassistPrev"@,
            Key::KeyKbdinputassistNext => "KeyKbdinputassistNext"@,
            Key::KeyKbdinputassistPrevgroup => "KeyKbdinputassistPrevgroup"@,
            Key::KeyKbdinputassistNextgroup => "KeyKbdinputassistNextgroup"@,
            Key::KeyKbdinputassistAccept => "KeyKbdinputassistAccept"@,
            Key::KeyKbdinputassistCancel => "KeyKbdinputassistCancel"@,
            Key::BtnTriggerHappy1 => "BtnTriggerHappy1"@,
            Key::BtnTriggerHappy2 => "BtnTriggerHappy2"@,
            Key::BtnTriggerHappy3 => "BtnTriggerHappy3"@,
            Key::BtnTriggerHappy4 => "BtnTriggerHappy4"@,
            Key::BtnTriggerHappy5 => "BtnTriggerHappy5"@,
            Key::BtnTriggerHappy6 => "BtnTriggerHappy6"@,
            Key::BtnTriggerHappy7 => "BtnTriggerHappy7"@,
            Key::BtnTriggerHappy8 => "BtnTriggerHappy8"@,
            Key::BtnTriggerHappy9 => "BtnTriggerHappy9"@,
            Key::BtnTriggerHappy10 => "BtnTriggerHappy10"@,
            Key::BtnTriggerHappy11 => "BtnTriggerHappy11"@,
            Key::BtnTriggerHappy12 => "BtnTriggerHappy12"@,
            Key::BtnTriggerHappy13 => "BtnTriggerHappy13"@,
            Key::BtnTriggerHappy14 => "BtnTriggerHappy14"@,
            Key::BtnTriggerHappy15 => "BtnTriggerHappy15"@,
            Key::BtnTriggerHappy16 => "BtnTriggerHappy16"@,
            Key::BtnTriggerHappy17 => "BtnTriggerHappy17"@,
            Key::BtnTriggerHappy18 => "BtnTriggerHappy18"@,
            Key::BtnTriggerHappy19 => "BtnTriggerHappy19"@,
            Key::BtnTriggerHappy20 => "BtnTriggerHappy20"@,
            Key::BtnTriggerHappy21 => "BtnTriggerHappy21"@,
            Key::BtnTriggerHappy22 => "BtnTriggerHappy22"@,
            Key::BtnTriggerHappy23 => "BtnTriggerHappy23"@,
            Key::BtnTriggerHappy24 => "BtnTriggerHappy24"@,
            Key::BtnTriggerHappy25 => "BtnTriggerHappy25"@,
            Key::BtnTriggerHappy26 => "BtnTriggerHappy26"@,
            Key::BtnTriggerHappy27 => "BtnTriggerHappy27"@,
            Key::BtnTriggerHappy28 => "BtnTriggerHappy28"@,
            Key::BtnTriggerHappy29 => "BtnTriggerHappy29"@,
            Key::BtnTriggerHappy30 => "BtnTriggerHappy30"@,
            Key::BtnTriggerHappy31 => "BtnTriggerHappy31"@,
            Key::BtnTriggerHappy32 => "BtnTriggerHappy32"@,
            Key::BtnTriggerHappy33 => "BtnTriggerHappy33"@,
            Key::BtnTriggerHappy34 => "BtnTriggerHappy34"@,
            Key::BtnTriggerHappy35 => "BtnTriggerHappy35"@,
            Key::BtnTriggerHappy36 => "BtnTriggerHappy36"@,
            Key::BtnTriggerHappy37 => "BtnTriggerHappy37"@,
            Key::BtnTriggerHappy38 => "BtnTriggerHappy38"@,
            Key::BtnTriggerHappy39 => "BtnTriggerHappy39"@,
            Key::BtnTriggerHappy40 => "BtnTriggerHappy40"@,
            Key::KeyMax => "KeyMax"@,
        }
    }

    /// The name of the key: the name of its variant.
    pub fn name(&self) -> (name: &'static str)
        ensures
            name@ == self.spec_name(),
    {
        match self {
            Key::KeyReserved => "KeyReserved",
            Key::KeyEsc => "KeyEsc",
            Key::Key1 => "Key1",
            Key::Key2 => "Key2",
            Key::Key3 => "Key3",
            Key::Key4 => "Key4",
            Key::Key5 => "Key5",
            Key::Key6 => "Key6",
            Key::Key7 => "Key7",
            Key::Key8 => "Key8",
            Key::Key9 => "Key9",
            Key::Key0 => "Key0",
            Key::KeyMinus => "KeyMinus",
            Key::KeyEqual => "KeyEqual",
            Key::KeyBackspace => "KeyBackspace",
            Key::KeyTab => "KeyTab",
            Key::KeyQ => "KeyQ",
            Key::KeyW => "KeyW",
            Key::KeyE => "KeyE",
            Key::KeyR => "KeyR",
            Key::KeyT => "KeyT",
            Key::KeyY => "KeyY",
            Key::KeyU => "KeyU",
            Key::KeyI => "KeyI",
            Key::KeyO => "KeyO",
            Key::KeyP => "KeyP",
            Key::KeyLeftBrace => "KeyLeftBrace",
            Key::KeyRightBrace => "KeyRightBrace",
            Key::KeyEnter => "KeyEnter",
            Key::KeyLeftCtrl => "KeyLeftCtrl",
            Key::KeyA => "KeyA",
            Key::KeyS => "KeyS",
            Key::KeyD => "KeyD",
            Key::KeyF => "KeyF",
            Key::KeyG => "KeyG",
            Key::KeyH => "KeyH",
            Key::KeyJ => "KeyJ",
            Key::KeyK => "KeyK",
            Key::KeyL => "KeyL",
            Key::KeySemicolon => "KeySemicolon",
            Key::KeyApostrophe => "KeyApostrophe",
            Key::KeyGrave => "KeyGrave",
            Key::KeyLeftShift => "KeyLeftShift",
            Key::KeyBackslash => "KeyBackslash",
            Key::KeyZ => "KeyZ",
            Key::KeyX => "KeyX",
            Key::KeyC => "KeyC",
            Key::KeyV => "KeyV",
            Key::KeyB => "KeyB",
            Key::KeyN => "KeyN",
            Key::KeyM => "KeyM",
            Key::KeyComma => "KeyComma",
            Key::KeyDot => "KeyDot",
            Key::KeySlash => "KeySlash",
            Key::KeyRightShift => "KeyRightShift",
            Key::KeyKpAsterisk => "KeyKpAsterisk",
            Key::KeyLeftAlt => "KeyLeftAlt",
            Key::KeySpace => "KeySpace",
            Key::KeyCapsLock => "KeyCapsLock",
            Key::KeyF1 => "KeyF1",
            Key::KeyF2 => "KeyF2",
            Key::KeyF3 => "KeyF3",
            Key::KeyF4 => "KeyF4",
            Key::KeyF5 => "KeyF5",
            Key::KeyF6 => "KeyF6",
            Key::KeyF7 => "KeyF7",
            Key::KeyF8 => "KeyF8",
            Key::KeyF9 => "KeyF9",
            Key::KeyF10 => "KeyF10",
            Key::KeyNumLock => "KeyNumLock",
            Key::KeyScrollLock => "KeyScrollLock",
            Key::KeyKp7 => "KeyKp7",
            Key::KeyKp8 => "KeyKp8",
            Key::KeyKp9 => "KeyKp9",
            Key::KeyKpMinus => "KeyKpMinus",
            Key::KeyKp4 => "KeyKp4",
            Key::KeyKp5 => "KeyKp5",
            Key::KeyKp6 => "KeyKp6",
            Key::KeyKpPlus => "KeyKpPlus",
            Key::KeyKp1 => "KeyKp1",
            Key::KeyKp2 => "KeyKp2",
            Key::KeyKp3 => "KeyKp3",
            Key::KeyKp0 => "KeyKp0",
            Key::KeyKpDot => "KeyKpDot",
            Key::KeyZenkakuhankaku => "KeyZenkakuhankaku",
            Key::Key102nd => "Key102nd",
            Key::KeyF11 => "KeyF11",
            Key::KeyF12 => "KeyF12",
            Key::KeyRo => "KeyRo",
            Key::KeyKatakana => "KeyKatakana",
            Key::KeyHiragana => "KeyHiragana",
            Key::KeyHenkan => "KeyHenkan",
            Key::KeyKatakanahiragana => "KeyKatakanahiragana",
            Key::KeyMuhenkan => "KeyMuhenkan",
            Key::KeyKpJpComma => "KeyKpJpComma",
            Key::KeyKpEnter => "KeyKpEnter",
            Key::KeyRightCtrl => "KeyRightCtrl",
            Key::KeyKpSlash => "KeyKpSlash",
            Key::KeySysRQ => "KeySysRQ",
            Key::KeyRightAlt => "KeyRightAlt",
            Key::KeyLinefeed => "KeyLinefeed",
            Key::KeyHome => "KeyHome",
            Key::KeyUp => "KeyUp",
            Key::KeyPageup => "KeyPageup",
            Key::KeyLeft => "KeyLeft",
            Key::KeyRight => "KeyRight",
            Key::KeyEnd => "KeyEnd",
            Key::KeyDown => "KeyDown",
            Key::KeyPagedown => "KeyPagedown",
            Key::KeyInsert => "KeyInsert",
            Key::KeyDelete => "KeyDelete",
            Key::KeyMacro => "KeyMacro",
            Key::KeyMute => "KeyMute",
            Key::KeyVolumeDown => "KeyVolumeDown",
            Key::KeyVolumeUp => "KeyVolumeUp",
            Key::KeyPower => "KeyPower",
            Key::KeyKpEqual => "KeyKpEqual",
            Key::KeyKpPlusMinus => "KeyKpPlusMinus",
            Key::KeyPause => "KeyPause",
            Key::KeyScale => "KeyScale",
            Key::KeyKpComma => "KeyKpComma",
            Key::KeyHangeul => "KeyHangeul",
            Key::KeyHanja => "KeyHanja",
            Key::KeyYen => "KeyYen",
            Key::KeyLeftMeta => "KeyLeftMeta",
            Key::KeyRightMeta => "KeyRightMeta",
            Key::KeyCompose => "KeyCompose",
            Key::KeyStop => "KeyStop",
            Key::KeyAgain => "KeyAgain",
            Key::KeyProps => "KeyProps",
            Key::KeyUndo => "KeyUndo",
            Key::KeyFront => "KeyFront",
            Key::KeyCopy => "KeyCopy",
            Key::KeyOpen => "KeyOpen",
            Key::KeyPaste => "KeyPaste",
            Key::KeyFind => "KeyFind",
            Key::KeyCut => "KeyCut",
            Key::KeyHelp => "KeyHelp",
            Key::KeyMenu => "KeyMenu",
            Key::KeyCalc => "KeyCalc",
            Key::KeySetup => "KeySetup",
            Key::KeySleep => "KeySleep",
            Key::KeyWakeup => "KeyWakeup",
            Key::KeyFile => "KeyFile",
            Key::KeySendfile => "KeySendfile",
            Key::KeyDeleteFile => "KeyDeleteFile",
            Key::KeyXfer => "KeyXfer",
            Key::KeyProg1 => "KeyProg1",
            Key::KeyProg2 => "KeyProg2",
            Key::KeyWww => "KeyWww",
            Key::KeyMsDos => "KeyMsDos",
            Key::KeyCoffee => "KeyCoffee",
            Key::KeyDirection => "KeyDirection",
            Key::KeyCycleWindows => "KeyCycleWindows",
            Key::KeyMail => "KeyMail",
            Key::KeyBookmarks => "KeyBookmarks",
            Key::KeyComputer => "KeyComputer",
            Key::KeyBack => "KeyBack",
            Key::KeyForward => "KeyForward",
            Key::KeyCloseCd => "KeyCloseCd",
            Key::KeyEjectCd => "KeyEjectCd",
            Key::KeyEjectCloseCd => "KeyEjectCloseCd",
            Key::KeyNextSong => "KeyNextSong",
            Key::KeyPlayPause => "KeyPlayPause",
            Key::KeyPreviousSong => "KeyPreviousSong",
            Key::KeyStopCd => "KeyStopCd",
            Key::KeyRecord => "KeyRecord",
            Key::KeyRewind => "KeyRewind",
            Key::KeyPhone => "KeyPhone",
            Key::KeyIso => "KeyIso",
            Key::KeyConfig => "KeyConfig",
            Key::KeyHomepage => "KeyHomepage",
            Key::KeyRefresh => "KeyRefresh",
            Key::KeyExit => "KeyExit",
            Key::KeyMove => "KeyMove",
            Key::KeyEdit => "KeyEdit",
            Key::KeyScrollUp => "KeyScrollUp",
            Key::KeyScrollDown => "KeyScrollDown",
            Key::KeyKpLeftParen => "KeyKpLeftParen",
            Key::KeyKpRightParen => "KeyKpRightParen",
            Key::KeyNew => "KeyNew",
            Key::KeyRedo => "KeyRedo",
            Key::KeyF13 => "KeyF13",
            Key::KeyF14 => "KeyF14",
            Key::KeyF15 => "KeyF15",
            Key::KeyF16 => "KeyF16",
            Key::KeyF17 => "KeyF17",
            Key::KeyF18 => "KeyF18",
            Key::KeyF19 => "KeyF19",
            Key::KeyF20 => "KeyF20",
            Key::KeyF21 => "KeyF21",
            Key::KeyF22 => "KeyF22",
            Key::KeyF23 => "KeyF23",
            Key::KeyF24 => "KeyF24",
            Key::KeyPlayCd => "KeyPlayCd",
            Key::KeyPauseCd => "KeyPauseCd",
            Key::KeyProg3 => "KeyProg3",
            Key::KeyProg4 => "KeyProg4",
            Key::KeyDashboard => "KeyDashboard",
            Key::KeySuspend => "KeySuspend",
            Key::KeyClose => "KeyClose",
            Key::KeyPlay => "KeyPlay",
            Key::KeyFastForward => "KeyFastForward",
            Key::KeyBassBoost => "KeyBassBoost",
            Key::KeyPrint => "KeyPrint",
            Key::KeyHp => "KeyHp",
            Key::KeyCamera => "KeyCamera",
            Key::KeySound => "KeySound",
            Key::KeyQuestion => "KeyQuestion",
            Key::KeyEmail => "KeyEmail",
            Key::KeyChat => "KeyChat",
            Key::KeySearch => "KeySearch",
            Key::KeyConnect => "KeyConnect",
            Key::KeyFinance => "KeyFinance",
            Key::KeySport => "KeySport",
            Key::KeyShop => "KeyShop",
            Key::KeyAltErase => "KeyAltErase",
            Key::KeyCancel => "KeyCancel",
            Key::KeyBrightnessDown => "KeyBrightnessDown",
            Key::KeyBrightnessUp => "KeyBrightnessUp",
            Key::KeyMedia => "KeyMedia",
            Key::KeySwitchVideoMode => "KeySwitchVideoMode",
            Key::KeyKbDillumToggle => "KeyKbDillumToggle",
            Key::KeyKbDillumDown => "KeyKbDillumDown",
            Key::KeyKbDillumUp => "KeyKbDillumUp",
            Key::KeySend => "KeySend",
            Key::KeyReply => "KeyReply",
            Key::KeyForwardMail => "KeyForwardMail",
            Key::KeySave => "KeySave",
            Key::KeyDocuments => "KeyDocuments",
            Key::KeyBattery => "KeyBattery",
            Key::KeyBluetooth => "KeyBluetooth",
            Key::KeyWlan => "KeyWlan",
            Key::KeyUwb => "KeyUwb",
            Key::KeyUnknown => "KeyUnknown",
            Key::KeyVideoNext => "KeyVideoNext",
            Key::KeyVideoPrev => "KeyVideoPrev",
            Key::KeyBrightnessCycle => "KeyBrightnessCycle",
            Key::KeyBrightnessAuto => "KeyBrightnessAuto",
            Key::KeyDisplayOff => "KeyDisplayOff",
            Key::KeyWwan => "KeyWwan",
            Key::KeyRfKill => "KeyRfKill",
            Key::KeyMicMute => "KeyMicMute",
            Key::Btn0 => "Btn0",
            Key::Btn1 => "Btn1",
            Key::Btn2 => "Btn2",
            Key::Btn3 => "Btn3",
            Key::Btn4 => "Btn4",
            Key::Btn5 => "Btn5",
            Key::Btn6 => "Btn6",
            Key::Btn7 => "Btn7",
            Key::Btn8 => "Btn8",
            Key::Btn9 => "Btn9",
            Key::BtnLeft => "BtnLeft",
            Key::BtnRight => "BtnRight",
            Key::BtnMiddle => "BtnMiddle",
            Key::BtnSide => "BtnSide",
            Key::BtnExtra => "BtnExtra",
            Key::BtnForward => "BtnForward",
            Key::BtnBack => "BtnBack",
            Key::BtnTask => "BtnTask",
            Key::BtnTrigger => "BtnTrigger",
            Key::BtnThumb => "BtnThumb",
            Key::BtnThumb2 => "BtnThumb2",
            Key::BtnTop => "BtnTop",
            Key::BtnTop2 => "BtnTop2",
            Key::BtnPinkie => "BtnPinkie",
            Key::BtnBase => "BtnBase",
            Key::BtnBase2 => "BtnBase2",
            Key::BtnBase3 => "BtnBase3",
            Key::BtnBase4 => "BtnBase4",
            Key::BtnBase5 => "BtnBase5",
            Key::BtnBase6 => "BtnBase6",
            Key::BtnDead => "BtnDead",
            Key::BtnSouth => "BtnSouth",
            Key::BtnEast => "BtnEast",
            Key::BtnC => "BtnC",
            Key::BtnNorth => "BtnNorth",
            Key::BtnWest => "BtnWest",
            Key::BtnZ => "BtnZ",
            Key::BtnTl => "BtnTl",
            Key::BtnTr => "BtnTr",
            Key::BtnTl2 => "BtnTl2",
            Key::BtnTr2 => "BtnTr2",
            Key::BtnSelect => "BtnSelect",
            Key::BtnStart => "BtnStart",
            Key::BtnMode => "BtnMode",
            Key::BtnThumbL => "BtnThumbL",
            Key::BtnThumbR => "BtnThumbR",
            Key::BtnToolPen => "BtnToolPen",
            Key::BtnToolRubber => "BtnToolRubber",
            Key::BtnToolBrush => "BtnToolBrush",
            Key::BtnToolPencil => "BtnToolPencil",
            Key::BtnToolAirbrush => "BtnToolAirbrush",
            Key::BtnToolFinger => "BtnToolFinger",
            Key::BtnToolMouse => "BtnToolMouse",
            Key::BtnToolLens => "BtnToolLens",
            Key::BtnToolQuintTap => "BtnToolQuintTap",
            Key::BtnTouch => "BtnTouch",
            Key::BtnStylus => "BtnStylus",
            Key::BtnStylus2 => "BtnStylus2",
            Key::BtnToolDoubleTap => "BtnToolDoubleTap",
            Key::BtnToolTripleTap => "BtnToolTripleTap",
            Key::BtnToolQuadTap => "BtnToolQuadTap",
            Key::BtnGearDown => "BtnGearDown",
            Key::BtnGearUp => "BtnGearUp",
            Key::KeyOk => "KeyOk",
            Key::KeySelect => "KeySelect",
            Key::KeyGoto => "KeyGoto",
            Key::KeyClear => "KeyClear",
            Key::KeyPower2 => "KeyPower2",
            Key::KeyOption => "KeyOption",
            Key::KeyInfo => "KeyInfo",
            Key::KeyTime => "KeyTime",
            Key::KeyVendor => "KeyVendor",
            Key::KeyArchive => "KeyArchive",
            Key::KeyProgram => "KeyProgram",
            Key::KeyChannel => "KeyChannel",
            Key::KeyFavorites => "KeyFavorites",
            Key::KeyEpg => "KeyEpg",
            Key::KeyPvr => "KeyPvr",
            Key::KeyMhp => "KeyMhp",
            Key::KeyLanguage => "KeyLanguage",
            Key::KeyTitle => "KeyTitle",
            Key::KeySubtitle => "KeySubtitle",
            Key::KeyAngle => "KeyAngle",
            Key::KeyZoom => "KeyZoom",
            Key::KeyMode => "KeyMode",
            Key::KeyKeyboard => "KeyKeyboard",
            Key::KeyScreen => "KeyScreen",
            Key::KeyPc => "KeyPc",
            Key::KeyTv => "KeyTv",
            Key::KeyTv2 => "KeyTv2",
            Key::KeyVcr => "KeyVcr",
            Key::KeyVcr2 => "KeyVcr2",
            Key::KeySat => "KeySat",
            Key::KeySat2 => "KeySat2",
            Key::KeyCd => "KeyCd",
            Key::KeyTape => "KeyTape",
            Key::KeyRadio => "KeyRadio",
            Key::KeyTuner => "KeyTuner",
            Key::KeyPlayer => "KeyPlayer",
            Key::KeyText => "KeyText",
            Key::KeyDvd => "KeyDvd",
            Key::KeyAux => "KeyAux",
            Key::KeyMp3 => "KeyMp3",
            Key::KeyAudio => "KeyAudio",
            Key::KeyVideo => "KeyVideo",
            Key::KeyDirectory => "KeyDirectory",
            Key::KeyList => "KeyList",
            Key::KeyMemo => "KeyMemo",
            Key::KeyCalendar => "KeyCalendar",
            Key::KeyRed => "KeyRed",
            Key::KeyGreen => "KeyGreen",
            Key::KeyYellow => "KeyYellow",
            Key::KeyBlue => "KeyBlue",
            Key::KeyChannelUp => "KeyChannelUp",
            Key::KeyChannelDown => "KeyChannelDown",
            Key::KeyFirst => "KeyFirst",
            Key::KeyLast => "KeyLast",
            Key::KeyAb => "KeyAb",
            Key::KeyNext => "KeyNext",
            Key::KeyRestart => "KeyRestart",
            Key::KeySlow => "KeySlow",
            Key::KeyShuffle => "KeyShuffle",
            Key::KeyBreak => "KeyBreak",
            Key::KeyPrevious => "KeyPrevious",
            Key::KeyDigits => "KeyDigits",
            Key::KeyTeen => "KeyTeen",
            Key::KeyTwen => "KeyTwen",
            Key::KeyVideophone => "KeyVideophone",
            Key::KeyGames => "KeyGames",
            Key::KeyZoomIn => "KeyZoomIn",
            Key::KeyZoomOut => "KeyZoomOut",
            Key::KeyZoomReset => "KeyZoomReset",
            Key::KeyWordProcessor => "KeyWordProcessor",
            Key::KeyEditor => "KeyEditor",
            Key::KeySpreadsheet => "KeySpreadsheet",
            Key::KeyGraphicsEditor => "KeyGraphicsEditor",
            Key::KeyPresentation => "KeyPresentation",
            Key::KeyDatabase => "KeyDatabase",
            Key::KeyNews => "KeyNews",
            Key::KeyVoiceMail => "KeyVoiceMail",
            Key::KeyAddressBook => "KeyAddressBook",
            Key::KeyMessenger => "KeyMessenger",
            Key::KeyDisplayToggle => "KeyDisplayToggle",
            Key::KeySpellcheck => "KeySpellcheck",
            Key::KeyLogoff => "KeyLogoff",
            Key::KeyDollar => "KeyDollar",
            Key::KeyEuro => "KeyEuro",
            Key::KeyFrameBack => "KeyFrameBack",
            Key::KeyFrameForward => "KeyFrameForward",
            Key::KeyContextMenu => "KeyContextMenu",
            Key::KeyMediaRepeat => "KeyMediaRepeat",
            Key::Key10ChannelsUp => "Key10ChannelsUp",
            Key::Key10ChannelsDown => "Key10ChannelsDown",
            Key::KeyImages => "KeyImages",
            Key::KeyDelEol => "KeyDelEol",
            Key::KeyDelEos => "KeyDelEos",
            Key::KeyInsLine => "KeyInsLine",
            Key::KeyDelLine => "KeyDelLine",
            Key::KeyFn => "KeyFn",
            Key::KeyFnEsc => "KeyFnEsc",
            Key::KeyFnF1 => "KeyFnF1",
            Key::KeyFnF2 => "KeyFnF2",
            Key::KeyFnF3 => "KeyFnF3",
            Key::KeyFnF4 => "KeyFnF4",
            Key::KeyFnF5 => "KeyFnF5",
            Key::KeyFnF6 => "KeyFnF6",
            Key::KeyFnF7 => "KeyFnF7",
            Key::KeyFnF8 => "KeyFnF8",
            Key::KeyFnF9 => "KeyFnF9",
            Key::KeyFnF10 => "KeyFnF10",
            Key::KeyFnF11 => "KeyFnF11",
            Key::KeyFnF12 => "KeyFnF12",
            Key::KeyFn1 => "KeyFn1",
            Key::KeyFn2 => "KeyFn2",
            Key::KeyFnD => "KeyFnD",
            Key::KeyFnE => "KeyFnE",
            Key::KeyFnF => "KeyFnF",
            Key::KeyFnS => "KeyFnS",
            Key::KeyFnB => "KeyFnB",
            Key::KeyBrlDot1 => "KeyBrlDot1",
            Key::KeyBrlDot2 => "KeyBrlDot2",
            Key::KeyBrlDot3 => "KeyBrlDot3",
            Key::KeyBrlDot4 => "KeyBrlDot4",
            Key::KeyBrlDot5 => "KeyBrlDot5",
            Key::KeyBrlDot6 => "KeyBrlDot6",
            Key::KeyBrlDot7 => "KeyBrlDot7",
            Key::KeyBrlDot8 => "KeyBrlDot8",
            Key::KeyBrlDot9 => "KeyBrlDot9",
            Key::KeyBrlDot10 => "KeyBrlDot10",
            Key::KeyNumeric0 => "KeyNumeric0",
            Key::KeyNumeric1 => "KeyNumeric1",
            Key::KeyNumeric2 => "KeyNumeric2",
            Key::KeyNumeric3 => "KeyNumeric3",
            Key::KeyNumeric4 => "KeyNumeric4",
            Key::KeyNumeric5 => "KeyNumeric5",
            Key::KeyNumeric6 => "KeyNumeric6",
            Key::KeyNumeric7 => "KeyNumeric7",
            Key::KeyNumeric8 => "KeyNumeric8",
            Key::KeyNumeric9 => "KeyNumeric9",
            Key::KeyNumericStar => "KeyNumericStar",
            Key::KeyNumericPound => "KeyNumericPound",
            Key::KeyCameraFocus => "KeyCameraFocus",
            Key::KeyWpsButton => "KeyWpsButton",
            Key::KeyTouchpadToggle => "KeyTouchpadToggle",
            Key::KeyTouchpadOn => "KeyTouchpadOn",
            Key::KeyTouchpadOff => "KeyTouchpadOff",
            Key::KeyCameraZoomIn => "KeyCameraZoomIn",
            Key::KeyCameraZoomOut => "KeyCameraZoomOut",
            Key::KeyCameraUp => "KeyCameraUp",
            Key::KeyCameraDown => "KeyCameraDown",
            Key::KeyCameraLeft => "KeyCameraLeft",
            Key::KeyCameraRight => "KeyCameraRight",
            Key::KeyAttendantOn => "KeyAttendantOn",
            Key::KeyAttendantOff => "KeyAttendantOff",
            Key::KeyAttendantToggle => "KeyAttendantToggle",
            Key::KeyLightsToggle => "KeyLightsToggle",
            Key::BtnDpadUp => "BtnDpadUp",
            Key::BtnDpadDown => "BtnDpadDown",
            Key::BtnDpadLeft => "BtnDpadLeft",
            Key::BtnDpadRight => "BtnDpadRight",
            Key::KeyAlsToggle => "KeyAlsToggle",
            Key::KeyButtonConfig => "KeyButtonConfig",
            Key::KeyTaskManager => "KeyTaskManager",
            Key::KeyJournal => "KeyJournal",
            Key::KeyControlPanel => "KeyControlPanel",
            Key::KeyAppSelect => "KeyAppSelect",
            Key::KeyScreenSaver => "KeyScreenSaver",
            Key::KeyVoiceCommand => "KeyVoiceCommand",
            Key::KeyBrightnessMin => "KeyBrightnessMin",
            Key::KeyBrightnessMax => "KeyBrightnessMax",
            Key::KeyKbdinputassistPrev => "KeyKbdinputassistPrev",
            Key::KeyKbdinputassistNext => "KeyKbdinputassistNext",
            Key::KeyKbdinputassistPrevgroup => "KeyKbdinputassistPrevgroup",
            Key::KeyKbdinputassistNextgroup => "KeyKbdinputassistNextgroup",
            Key::KeyKbdinputassistAccept => "KeyKbdinputassistAccept",
            Key::KeyKbdinputassistCancel => "KeyKbdinputassistCancel",
            Key::BtnTriggerHappy1 => "BtnTriggerHappy1",
            Key::BtnTriggerHappy2 => "BtnTriggerHappy2",
            Key::BtnTriggerHappy3 => "BtnTriggerHappy3",
            Key::BtnTriggerHappy4 => "BtnTriggerHappy4",
            Key::BtnTriggerHappy5 => "BtnTriggerHappy5",
            Key::BtnTriggerHappy6 => "BtnTriggerHappy6",
            Key::BtnTriggerHappy7 => "BtnTriggerHappy7",
            Key::BtnTriggerHappy8 => "BtnTriggerHappy8",
            Key::BtnTriggerHappy9 => "BtnTriggerHappy9",
            Key::BtnTriggerHappy10 => "BtnTriggerHappy10",
            Key::BtnTriggerHappy11 => "BtnTriggerHappy11",
            Key::BtnTriggerHappy12 => "BtnTriggerHappy12",
            Key::BtnTriggerHappy13 => "BtnTriggerHappy13",
            Key::BtnTriggerHappy14 => "BtnTriggerHappy14",
            Key::BtnTriggerHappy15 => "BtnTriggerHappy15",
            Key::BtnTriggerHappy16 => "BtnTriggerHappy16",
            Key::BtnTriggerHappy17 => "BtnTriggerHappy17",
            Key::BtnTriggerHappy18 => "BtnTriggerHappy18",
            Key::BtnTriggerHappy19 => "BtnTriggerHappy19",
            Key::BtnTriggerHappy20 => "BtnTriggerHappy20",
            Key::BtnTriggerHappy21 => "BtnTriggerHappy21",
            Key::BtnTriggerHappy22 => "BtnTriggerHappy22",
            Key::BtnTriggerHappy23 => "BtnTriggerHappy23",
            Key::BtnTriggerHappy24 => "BtnTriggerHappy24",
            Key::BtnTriggerHappy25 => "BtnTriggerHappy25",
            Key::BtnTriggerHappy26 => "BtnTriggerHappy26",
            Key::BtnTriggerHappy27 => "BtnTriggerHappy27",
            Key::BtnTriggerHappy28 => "BtnTriggerHappy28",
            Key::BtnTriggerHappy29 => "BtnTriggerHappy29",
            Key::BtnTriggerHappy30 => "BtnTriggerHappy30",
            Key::BtnTriggerHappy31 => "BtnTriggerHappy31",
            Key::BtnTriggerHappy32 => "BtnTriggerHappy32",
            Key::BtnTriggerHappy33 => "BtnTriggerHappy33",
            Key::BtnTriggerHappy34 => "BtnTriggerHappy34",
            Key::BtnTriggerHappy35 => "BtnTriggerHappy35",
            Key::BtnTriggerHappy36 => "BtnTriggerHappy36",
            Key::BtnTriggerHappy37 => "BtnTriggerHappy37",
            Key::BtnTriggerHappy38 => "BtnTriggerHappy38",
            Key::BtnTriggerHappy39 => "BtnTriggerHappy39",
            Key::BtnTriggerHappy40 => "BtnTriggerHappy40",
            Key::KeyMax => "KeyMax",
        }
    }

    /// The key with the given name, if there is one.
    pub fn from_name_chars(name: &[char]) -> (found: Option<Key>)
        ensures
            match found {
                Some(k) => k.spec_name() == name@,
                None => forall|k: Key| k.spec_name() != name@,
            },
    {
        let mut code: u16 = 0;
        while code <= MAX_KEY_CODE
            invariant
                code <= MAX_KEY_CODE + 1,
                forall|k: Key| k.spec_code() < code ==> k.spec_name() != name@,
            decreases MAX_KEY_CODE + 1 - code,
        {
            if let Some(candidate) = Key::from_code(code) {
                if same_text(candidate.name(), name) {
                    return Some(candidate);
                }
                proof {
                    assert forall|k: Key| k.spec_code() == code implies k.spec_name() != name@ by {
                        lemma_code_injective(k, candidate);
                    }
                }
            }
            code += 1;
        }
        proof {
            assert forall|k: Key| k.spec_name() != name@ by {
                lemma_code_bounded(k);
            }
        }
        None
    }

    /// The key with the given name, if there is one.
    pub fn from_name(name: &str) -> (found: Option<Key>)
        ensures
            match found {
                Some(k) => k.spec_name() == name@,
                None => forall|k: Key| k.spec_name() != name@,
            },
    {
        let chars = chars_of(name);
        Key::from_name_chars(chars.as_slice())
    }

}

impl core::str::FromStr for Key {
    type Err = ParseError;

    /// The key with the given name. A name that no key has is refused as an
    /// unknown key.
    fn from_str(name: &str) -> (parsed: Result<Key, ParseError>)
        ensures
            match parsed {
                Ok(key) => key.spec_name() == name@,
                Err(e) => e == ParseError::UnknownKey && forall|k: Key| k.spec_name() != name@,
            },
    {
        match Key::from_name(name) {
            Some(key) => Ok(key),
            None => Err(ParseError::UnknownKey),
        }
    }
}

impl Key {
    /// The name of the key read as a number in base 128, the first character
    /// being the lowest digit: see [`base128`].
    spec fn name_number(self) -> int {
        match self {
            Key::KeyReserved => 118999290068035981701835int,
            Key::KeyEsc => 3432630874827int,
            Key::Key1 => 104755915int,
            Key::Key2 => 106853067int,
            Key::Key3 => 108950219int,
            Key::Key4 => 111047371int,
            Key::Key5 => 113144523int,
            Key::Key6 => 115241675int,
            Key::Key7 => 117338827int,
            Key::Key8 => 119435979int,
            Key::Key9 => 121533131int,
            Key::Key0 => 102658763int,
            Key::KeyMinus => 65257624005669579int,
            Key::KeyEqual => 61229256050373323int,
            Key::KeyBackspace => 15380469845837087623770827int,
            Key::KeyTab => 3393470755531int,
            Key::KeyQ => 171864779int,
            Key::KeyW => 184447691int,
            Key::KeyE => 146698955int,
            Key::KeyR => 173961931int,
            Key::KeyT => 178156235int,
            Key::KeyY => 188641995int,
            Key::KeyU => 180253387int,
            Key::KeyI => 155087563int,
            Key::KeyO => 167670475int,
            Key::KeyP => 169767627int,
            Key::KeyLeftBrace => 15380469962407414574510795int,
            Key::KeyRightBrace => 1968700155188157938053051083int,
            Key::KeyEnter => 64624512791900875int,
            Key::KeyLeftCtrl => 128563756361942506042059int,
            Key::KeyA => 138310347int,
            Key::KeyS => 176059083int,
            Key::KeyD => 144601803int,
            Key::KeyF => 148796107int,
            Key::KeyG => 150893259int,
            Key::KeyH => 152990411int,
            Key::KeyJ => 157184715int,
            Key::KeyK => 159281867int,
            Key::KeyL => 161379019int,
            Key::KeySemicolon => 16754779868371315104576203int,
            Key::KeyApostrophe => 1969473418488424900945933003int,
            Key::KeyGrave => 57380278431019723int,
            Key::KeyLeftShift => 17650820725017500178084555int,
            Key::KeyBackslash => 15852706205893675993428683int,
            Key::KeyZ => 190739147int,
            Key::KeyX => 186544843int,
            Key::KeyC => 142504651int,
            Key::KeyV => 182350539int,
            Key::KeyB => 140407499int,
            Key::KeyN => 165573323int,
            Key::KeyM => 163476171int,
            Key::KeyComma => 55089307701899979int,
            Key::KeyDot => 4015670588107int,
            Key::KeySlash => 59055932566303435int,
            Key::KeyRightShift => 2259305052802248895310492363int,
            Key::KeyKpAsterisk => 2087184332765420202498093771int,
            Key::KeyLeftAlt => 1077730481883584557771int,
            Key::KeySpace => 57296715035603659int,
            Key::KeyCapsLock => 127244458935196122510027int,
            Key::KeyF1 => 13302133451int,
            Key::KeyF2 => 13570568907int,
            Key::KeyF3 => 13839004363int,
            Key::KeyF4 => 14107439819int,
            Key::KeyF5 => 14375875275int,
            Key::KeyF6 => 14644310731int,
            Key::KeyF7 => 14912746187int,
            Key::KeyF8 => 15181181643int,
            Key::KeyF9 => 15449617099int,
            Key::KeyF10 => 1662569575115int,
            Key::KeyNumLock => 994097335226364490443int,
            Key::KeyScrollLock => 2084773214687661494741398219int,
            Key::KeyKp7 => 1920009663179int,
            Key::KeyKp8 => 1954369401547int,
            Key::KeyKp9 => 1988729139915int,
            Key::KeyKpMinus => 1069180911706420703947int,
            Key::KeyKp4 => 1816930448075int,
            Key::KeyKp5 => 1851290186443int,
            Key::KeyKp6 => 1885649924811int,
            Key::KeyKpPlus => 8352966226938327755int,
            Key::KeyKp1 => 1713851232971int,
            Key::KeyKp2 => 1748210971339int,
            Key::KeyKp3 => 1782570709707int,
            Key::KeyKp0 => 1679491494603int,
            Key::KeyKpDot => 65792744445866699int,
            Key::KeyZenkakuhankaku => 611870175692471768156058660160565963int,
            Key::Key102nd => 56780511434928843int,
            Key::KeyF11 => 1696929313483int,
            Key::KeyF12 => 1731289051851int,
            Key::KeyRo => 29970297547int,
            Key::KeyKatakana => 115539008386532055610059int,
            Key::KeyHiragana => 115539006134665663640267int,
            Key::KeyHenkan => 7981415887466820299int,
            Key::KeyKatakanahiragana => 8325462799597408553963864052510383567563int,
            Key::KeyMuhenkan => 130767517901354772099787int,
            Key::KeyKpJpComma => 14787923433643332889113291int,
            Key::KeyKpEnter => 1058808017580034257611int,
            Key::KeyRightCtrl => 16456160814337513289052875int,
            Key::KeyKpSlash => 967572399163845800651int,
            Key::KeySysRQ => 45963570067698379int,
            Key::KeyRightAlt => 137949501689971339064011int,
            Key::KeyLinefeed => 118998058333367158338251int,
            Key::KeyHome => 447977858429643int,
            Key::KeyUp => 30245024459int,
            Key::KeyPageup => 8136763444756902603int,
            Key::KeyLeft => 513705361961675int,
            Key::KeyRight => 65763158846763723int,
            Key::KeyEnd => 3465648435915int,
            Key::KeyDown => 487903866024651int,
            Key::KeyPagedown => 130970714687002472510155int,
            Key::KeyInsert => 8423305386840191691int,
            Key::KeyDelete => 7343567133233541835int,
            Key::KeyMacro => 62992249947845323int,
            Key::KeyMute => 448219997696715int,
            Key::KeyVolumeDown => 2145823894287409950261932747int,
            Key::KeyVolumeUp => 133017587840337747800779int,
            Key::KeyPower => 64624616162620107int,
            Key::KeyKpEqual => 1003180131126846845643int,
            Key::KeyKpPlusMinus => 287006065580648538585943667403int,
            Key::KeyPause => 57367766941725387int,
            Key::KeyScale => 57336293964542667int,
            Key::KeyKpComma => 902583217385459577547int,
            Key::KeyHangeul => 1004612233232602002123int,
            Key::KeyHanja => 55076144174494411int,
            Key::KeyYen => 3806871843531int,
            Key::KeyLeftMeta => 115594620043713656550091int,
            Key::KeyRightMeta => 14796111365604220554080971int,
            Key::KeyCompose => 939910182837883400907int,
            Key::KeyStop => 496426454774475int,
            Key::KeyAgain => 62389650441794251int,
            Key::KeyProps => 65235670555062987int,
            Key::KeyUndo => 491648844722891int,
            Key::KeyFront => 65789824394490571int,
            Key::KeyCopy => 536041857381067int,
            Key::KeyOpen => 487285682238155int,
            Key::KeyPaste => 57372096268759755int,
            Key::KeyFind => 443612556849867int,
            Key::KeyCut => 4017279103691int,
            Key::KeyHelp => 496319325958859int,
            Key::KeyMenu => 518378288476875int,
            Key::KeyCalc => 439143637086923int,
            Key::KeySetup => 63568979242676939int,
            Key::KeySleep => 63498096981471947int,
            Key::KeyWakeup => 8136763582210536139int,
            Key::KeyFile => 447941883884235int,
            Key::KeySendfile => 120243501784319599211211int,
            Key::KeyDeleteFile => 1970069238161823281438421707int,
            Key::KeyXfer => 504875202802379int,
            Key::KeyProg1 => 28041391210656459int,
            Key::KeyProg2 => 28604341164077771int,
            Key::KeyWww => 4120937132747int,
            Key::KeyMsDos => 65229795301946059int,
            Key::KeyCoffee => 7335127078502560459int,
            Key::KeyDirection => 16754752558525755384820427int,
            Key::KeyCycleWindows => 36741746780579755252570021327563int,
            Key::KeyMail => 478622997443275int,
            Key::KeyBookmarks => 17505690476211860286632651int,
            Key::KeyComputer => 135527430379916530447051int,
            Key::KeyBack => 474018769433291int,
            Key::KeyForward => 930606902865773359819int,
            Key::KeyCloseCd => 927222430049727574731int,
            Key::KeyEjectCd => 927230803586154656459int,
            Key::KeyEjectCloseCd => 31859120105449817874808421905099int,
            Key::KeyNextSong => 122623553490055575007947int,
            Key::KeyPlayPause => 15399542678703651275305675int,
            Key::KeyPreviousSong => 32916509496235933768178101809867int,
            Key::KeyStopCd => 7243973477126795979int,
            Key::KeyRecord => 7270427310545597131int,
            Key::KeyRewind => 7268149809647612619int,
            Key::KeyPhone => 57345572429787851int,
            Key::KeyIso => 3844956123851int,
            Key::KeyConfig => 7481494341270008523int,
            Key::KeyHomepage => 120196814097248904180427int,
            Key::KeyRefresh => 967574678001835471563int,
            Key::KeyExit => 513813526770379int,
            Key::KeyMove => 448287106560715int,
            Key::KeyEdit => 513808158061259int,
            Key::KeyScrollUp => 133018091654360711721675int,
            Key::KeyScrollDown => 2145823894791223973225853643int,
            Key::KeyKpLeftParen => 274317775223883930875060974283int,
            Key::KeyKpRightParen => 35112675228657288519618180051659int,
            Key::KeyNew => 4116086420171int,
            Key::KeyRedo => 491646422512331int,
            Key::KeyF13 => 1765648790219int,
            Key::KeyF14 => 1800008528587int,
            Key::KeyF15 => 1834368266955int,
            Key::KeyF16 => 1868728005323int,
            Key::KeyF17 => 1903087743691int,
            Key::KeyF18 => 1937447482059int,
            Key::KeyF19 => 1971807220427int,
            Key::KeyF20 => 1662838010571int,
            Key::KeyF21 => 1697197748939int,
            Key::KeyF22 => 1731557487307int,
            Key::KeyF23 => 1765917225675int,
            Key::KeyF24 => 1800276964043int,
            Key::KeyPlayCd => 7244012576355283659int,
            Key::KeyPauseCd => 927222430252960477899int,
            Key::KeyProg3 => 29167291117499083int,
            Key::KeyProg4 => 29730241070920395int,
            Key::KeyDashboard => 15247062911055632520868555int,
            Key::KeySuspend => 930320893539107369675int,
            Key::KeyClose => 57367563708822219int,
            Key::KeyPlay => 535525683262155int,
            Key::KeyFastForward => 249807888327521557132523500235int,
            Key::KeyBassBoost => 17666224251148104246391499int,
            Key::KeyPrint => 65789618257031883int,
            Key::KeyHp => 30217761483int,
            Key::KeyCamera => 7054210890458886859int,
            Key::KeySound => 56782830520136395int,
            Key::KeyQuestion => 130896504433851963962059int,
            Key::KeyEmail => 61263752153952971int,
            Key::KeyChat => 513534349701835int,
            Key::KeySearch => 7550226562818142923int,
            Key::KeyConnect => 1077102203624830694091int,
            Key::KeyFinance => 938756632445380883147int,
            Key::KeySport => 65807416070927051int,
            Key::KeyShop => 496423233549003int,
            Key::KeyAltErase => 120307495547093278159563int,
            Key::KeyCancel => 7839517313748333259int,
            Key::KeyBrightnessDown => 576015215830423892367041791088554699int,
            Key::KeyBrightnessUp => 35706908535148428067469814297291int,
            Key::KeyMedia => 55071403614827211int,
            Key::KeySwitchVideoMode => 67649770846989348590222652053334684363int,
            Key::KeyKbDillumToggle => 528835882364886069194782344187114187int,
            Key::KeyKbDillumDown => 35157178693522796021766311277259int,
            Key::KeyKbDillumUp => 2179369677047490334773113547int,
            Key::KeySend => 443611510371019int,
            Key::KeyReply => 68595808963818187int,
            Key::KeyForwardMail => 269440793924319241876904243915int,
            Key::KeySave => 448283361047243int,
            Key::KeyDocuments => 17516279195584113873416907int,
            Key::KeyBattery => 1124299954310350795467int,
            Key::KeyBluetooth => 15854016141432874587812555int,
            Key::KeyWlan => 487147186320075int,
            Key::KeyUwb => 3399378432715int,
            Key::KeyUnknown => 1023208752680684909259int,
            Key::KeyVideoNext => 17672032622901381549683403int,
            Key::KeyVideoPrev => 17951952884963075216536267int,
            Key::KeyBrightnessCycle => 67690836279518080243938022644495839947int,
            Key::KeyBrightnessAuto => 581087712279596916604849199570121419int,
            Key::KeyDisplayOff => 1988475131628096247576818379int,
            Key::KeyWwan => 487150139110091int,
            Key::KeyRfKill => 7843483150484140747int,
            Key::KeyMicMute => 939985463854826943179int,
            Key::Btn0 => 102480450int,
            Key::Btn1 => 104577602int,
            Key::Btn2 => 106674754int,
            Key::Btn3 => 108771906int,
            Key::Btn4 => 110869058int,
            Key::Btn5 => 112966210int,
            Key::Btn6 => 115063362int,
            Key::Btn7 => 117160514int,
            Key::Btn8 => 119257666int,
            Key::Btn9 => 121354818int,
            Key::BtnLeft => 513705361783362int,
            Key::BtnRight => 65763158846585410int,
            Key::BtnMiddle => 7339058861774191170int,
            Key::BtnSide => 447667033061954int,
            Key::BtnExtra => 55111540872559170int,
            Key::BtnForward => 930606902865773181506int,
            Key::BtnBack => 474018769254978int,
            Key::BtnTask => 474568562817602int,
            Key::BtnTrigger => 1058800669681820351042int,
            Key::BtnThumb => 55652530689653314int,
            Key::BtnThumb2 => 3658532232586050114int,
            Key::BtnTop => 3878265010754int,
            Key::BtnTop2 => 223780590565954int,
            Key::BtnPinkie => 7337401141843180098int,
            Key::BtnBase => 448180246002242int,
            Key::BtnBase2 => 28595677917067842int,
            Key::BtnBase3 => 29158627870489154int,
            Key::BtnBase4 => 29721577823910466int,
            Key::BtnBase5 => 30284527777331778int,
            Key::BtnBase6 => 30847477730753090int,
            Key::BtnDead => 443164802136642int,
            Key::BtnSouth => 59061018612709954int,
            Key::BtnEast => 514150949960258int,
            Key::BtnC => 142326338int,
            Key::BtnNorth => 59060915523009090int,
            Key::BtnWest => 514152061450818int,
            Key::BtnZ => 190560834int,
            Key::BtnTl => 29169007170int,
            Key::BtnTr => 30779619906int,
            Key::BtnTl2 => 1747155925570int,
            Key::BtnTr2 => 1748766538306int,
            Key::BtnSelect => 8414860894625577538int,
            Key::BtnStart => 65806936108153410int,
            Key::BtnMode => 447668631091778int,
            Key::BtnThumbL => 5532029677572176450int,
            Key::BtnThumbR => 5964375241799744066int,
            Key::BtnToolPen => 1021894255881058236994int,
            Key::BtnToolRubber => 2220459993796387457617082946int,
            Key::BtnToolBrush => 15852891078100243757906498int,
            Key::BtnToolPencil => 2105008868141228126587566658int,
            Key::BtnToolAirbrush => 33245922268053896356883506903618int,
            Key::BtnToolFinger => 2220466006563508959034718786int,
            Key::BtnToolMouse => 15399543685764425191242306int,
            Key::BtnToolLens => 136789928386583544445506int,
            Key::BtnToolQuintTap => 35736019630579742648038546192962int,
            Key::BtnTouch => 58986251824118338int,
            Key::BtnStylus => 8352967636777941570int,
            Key::BtnStylus2 => 469521569479516731970int,
            Key::BtnToolDoubleTap => 4574210222261516894385888865008194int,
            Key::BtnToolTripleTap => 4574210222277934721791471734471234int,
            Key::BtnToolQuadTap => 279187634355379015260518988354int,
            Key::BtnGearDown => 130970696729573463931458int,
            Key::BtnGearUp => 8118806015748323906int,
            Key::KeyOk => 28890264267int,
            Key::KeySelect => 8414860894625755851int,
            Key::KeyGoto => 492198839612107int,
            Key::KeyClear => 64606404668715723int,
            Key::KeyPower2 => 3667504318059016907int,
            Key::KeyOption => 7989288599847596747int,
            Key::KeyInfo => 491717539033803int,
            Key::KeyTime => 447976272982731int,
            Key::KeyVendor => 8277496776670212811int,
            Key::KeyArchive => 940122942393108296395int,
            Key::KeyProgram => 1012401771777032614603int,
            Key::KeyChannel => 1003464408619093488331int,
            Key::KeyFavorites => 17498625952524960553398987int,
            Key::KeyEpg => 3569264521931int,
            Key::KeyPvr => 3948855325387int,
            Key::KeyMhp => 3876371460811int,
            Key::KeyLanguage => 120196816920825374339787int,
            Key::KeyTitle => 57336948412281547int,
            Key::KeySubtitle => 120244296176664598966987int,
            Key::KeyAngle => 57336503038014155int,
            Key::KeyZoom => 483230987743947int,
            Key::KeyMode => 447668631270091int,
            Key::KeyKeyboard => 119117678993202441253579int,
            Key::KeyScreen => 7983641435926590155int,
            Key::KeyPc => 26744877771int,
            Key::KeyTv => 31853540043int,
            Key::KeyTv2 => 1749840458443int,
            Key::KeyVcr => 3943767634635int,
            Key::KeyVcr2 => 223846093189835int,
            Key::KeySat => 4011943949003int,
            Key::KeySat2 => 223914269504203int,
            Key::KeyCd => 26986050251int,
            Key::KeyTape => 448077204714187int,
            Key::KeyRadio => 62952701899469515int,
            Key::KeyTuner => 64624308543976139int,
            Key::KeyPlayer => 8271959191302599371int,
            Key::KeyText => 514323854029515int,
            Key::KeyDvd => 3467793822411int,
            Key::KeyAux => 4154713862859int,
            Key::KeyMp3 => 1782574904011int,
            Key::KeyAudio => 62952707232527051int,
            Key::KeyVideo => 62935111869297355int,
            Key::KeyDirectory => 18420622675590243862606539int,
            Key::KeyList => 514153112302283int,
            Key::KeyMemo => 491955649671883int,
            Key::KeyCalendar => 135489379981198201090763int,
            Key::KeyRed => 3463259779787int,
            Key::KeyGreen => 62372198660076235int,
            Key::KeyYellow => 8637819862518756043int,
            Key::KeyBlue => 448251918447307int,
            Key::KeyChannelUp => 17026315226774407500165835int,
            Key::KeyChannelDown => 274665458532771684809309057739int,
            Key::KeyFirst => 65811915290342091int,
            Key::KeyLast => 514150964818635int,
            Key::KeyAb => 26444985035int,
            Key::KeyNext => 514323841446603int,
            Key::KeyRestart => 1078180842293010789067int,
            Key::KeySlow => 527210632868555int,
            Key::KeyShuffle => 939400669422604415691int,
            Key::KeyBreak => 60665756603282123int,
            Key::KeyPrevious => 136855228935968221197003int,
            Key::KeyDigits => 8352390871225627339int,
            Key::KeyTeen => 487282739933899int,
            Key::KeyTwen => 487287571772107int,
            Key::KeyVideophone => 1970378867550919007145980619int,
            Key::KeyGames => 65187218741686987int,
            Key::KeyZoomIn => 7967913921759572683int,
            Key::KeyZoomOut => 1078386851054899589835int,
            Key::KeyZoomReset => 17649732150350944873116363int,
            Key::KeyWordProcessor => 4659853659802057048359691234472651int,
            Key::KeyEditor => 8277566973311611595int,
            Key::KeySpreadsheet => 289171099776655251764550726347int,
            Key::KeyGraphicsEditor => 596461560584640874421981125604700875int,
            Key::KeyPresentation => 35137262835394282019753455153867int,
            Key::KeyDatabase => 120307486663036379230923int,
            Key::KeyNews => 509891435197131int,
            Key::KeyVoiceMail => 16445360957792127530463947int,
            Key::KeyAddressBook => 267083073496532850909850268363int,
            Key::KeyMessenger => 17347390674223763784889035int,
            Key::KeyDisplayToggle => 4131530330975781654914744216089291int,
            Key::KeySpellcheck => 2084761666377339368894264011int,
            Key::KeyLogoff => 7407787239291122379int,
            Key::KeyDollar => 8269650595621532363int,
            Key::KeyEuro => 492131726553803int,
            Key::KeyFrameBack => 16287160888026166357553867int,
            Key::KeyFrameForward => 31975409705922750842337132180171int,
            Key::KeyContextMenu => 291821033307943601095785214667int,
            Key::KeyMediaRepeat => 289093737838508653136194728651int,
            Key::Key10ChannelsUp => 35706907477337899621530008974027int,
            Key::Key10ChannelsDown => 576015215829366081838595851283231435int,
            Key::KeyImages => 8343937620757082827int,
            Key::KeyDelEol => 7845014804243575499int,
            Key::KeyDelEos => 8349417962509071051int,
            Key::KeyInsLine => 939546359044201411275int,
            Key::KeyDelLine => 939546358801256837835int,
            Key::KeyFn => 29676696267int,
            Key::KeyFnEsc => 56240221236130507int,
            Key::KeyFnF1 => 217939137426123int,
            Key::KeyFnF2 => 222337183937227int,
            Key::KeyFnF3 => 226735230448331int,
            Key::KeyFnF4 => 231133276959435int,
            Key::KeyFnF5 => 235531323470539int,
            Key::KeyFnF6 => 239929369981643int,
            Key::KeyFnF7 => 244327416492747int,
            Key::KeyFnF8 => 248725463003851int,
            Key::KeyFnF9 => 253123509514955int,
            Key::KeyFnF10 => 27239536901649099int,
            Key::KeyFnF11 => 27802486855070411int,
            Key::KeyFnF12 => 28365436808491723int,
            Key::KeyFn1 => 1713303876299int,
            Key::KeyFn2 => 1747663614667int,
            Key::KeyFnD => 2366138905291int,
            Key::KeyFnE => 2400498643659int,
            Key::KeyFnF => 2434858382027int,
            Key::KeyFnS => 2881534980811int,
            Key::KeyFnB => 2297419428555int,
            Key::KeyBrlDot1 => 460366700967869969099int,
            Key::KeyBrlDot2 => 469590073004724744907int,
            Key::KeyBrlDot3 => 478813445041579520715int,
            Key::KeyBrlDot4 => 488036817078434296523int,
            Key::KeyBrlDot5 => 497260189115289072331int,
            Key::KeyBrlDot6 => 506483561152143848139int,
            Key::KeyBrlDot7 => 515706933188998623947int,
            Key::KeyBrlDot8 => 524930305225853399755int,
            Key::KeyBrlDot9 => 534153677262708175563int,
            Key::KeyBrlDot10 => 57128764495403612533451int,
            Key::KeyNumeric0 => 57589142297732519457483int,
            Key::KeyNumeric1 => 58769733918449930760907int,
            Key::KeyNumeric2 => 59950325539167342064331int,
            Key::KeyNumeric3 => 61130917159884753367755int,
            Key::KeyNumeric4 => 62311508780602164671179int,
            Key::KeyNumeric5 => 63492100401319575974603int,
            Key::KeyNumeric6 => 64672692022036987278027int,
            Key::KeyNumeric7 => 65853283642754398581451int,
            Key::KeyNumeric8 => 67033875263471809884875int,
            Key::KeyNumeric9 => 68214466884189221188299int,
            Key::KeyNumericStar => 284144210163342042121092625099int,
            Key::KeyNumericPound => 31965891792696658597379917640395int,
            Key::KeyCameraFocus => 287004410325333933180833395403int,
            Key::KeyWpsButton => 16754854025597364599681739int,
            Key::KeyTouchpadToggle => 528835882364875259688709025584542411int,
            Key::KeyTouchpadOn => 2139766546949037910698914507int,
            Key::KeyTouchpadOff => 254524792056255941455757865675int,
            Key::KeyCameraZoomIn => 35043256024369956721395140293323int,
            Key::KeyCameraZoomOut => 4742795527902428321093075458749131int,
            Key::KeyCameraUp => 133017302354373180814027int,
            Key::KeyCameraDown => 2145823894001923985694945995int,
            Key::KeyCameraLeft => 2259300073189016420195660491int,
            Key::KeyCameraRight => 289229431323465398314669601483int,
            Key::KeyAttendantOn => 273892551070174462486199038667int,
            Key::KeyAttendantOff => 32579175816261458116253744788171int,
            Key::KeyAttendantToggle => 67690992942706466300852365191559410379int,
            Key::KeyLightsToggle => 32277580710747872511602158629579int,
            Key::BtnDpadUp => 8118744446043667010int,
            Key::BtnDpadDown => 130970696668003759274562int,
            Key::BtnDpadLeft => 137896732995340943997506int,
            Key::BtnDpadRight => 17653163532938967768611394int,
            Key::KeyAlsToggle => 15391149859785016935871179int,
            Key::KeyButtonConfig => 32903960085466092885314795107019int,
            Key::KeyTaskManager => 284219633540483023753527063243int,
            Key::KeyJournal => 1003176196524216316619int,
            Key::KeyControlPanel => 34478772557217442151255861261003int,
            Key::KeyAppSelect => 17647242354885886830605003int,
            Key::KeyScreenSaver => 284221900028313989287421833931int,
            Key::KeyVoiceCommand => 31965504668548018961775941546699int,
            Key::KeyBrightnessMin => 4495598825747487953798847480623819int,
            Key::KeyBrightnessMax => 4898711716620064903474799099933387int,
            Key::KeyKbdinputassistPrev => 165577540272633849518147856636010191187243723int,
            Key::KeyKbdinputassistNext => 162995731554984963376319494741966447544529611int,
            Key::KeyKbdinputassistPrevgroup => 5407836365276616748440782949625651255678073870439314123int,
            Key::KeyKbdinputassistNextgroup => 5407836365274034939723134063483822893784030126796600011int,
            Key::KeyKbdinputassistAccept => 2669095045294544603779457260336119019888424415947int,
            Key::KeyKbdinputassistCancel => 2484442207068142428545303644322884824900524995275int,
            Key::BtnTriggerHappy1 => 2026302051522923275727878552795714int,
            Key::BtnTriggerHappy2 => 2066866870730226616575773055367746int,
            Key::BtnTriggerHappy3 => 2107431689937529957423667557939778int,
            Key::BtnTriggerHappy4 => 2147996509144833298271562060511810int,
            Key::BtnTriggerHappy5 => 2188561328352136639119456563083842int,
            Key::BtnTriggerHappy6 => 2229126147559439979967351065655874int,
            Key::BtnTriggerHappy7 => 2269690966766743320815245568227906int,
            Key::BtnTriggerHappy8 => 2310255785974046661663140070799938int,
            Key::BtnTriggerHappy9 => 2350820605181350002511034573371970int,
            Key::BtnTriggerHappy10 => 251256551261194649445191702355360322int,
            Key::BtnTriggerHappy11 => 256448848119729477073722198684580418int,
            Key::BtnTriggerHappy12 => 261641144978264304702252695013800514int,
            Key::BtnTriggerHappy13 => 266833441836799132330783191343020610int,
            Key::BtnTriggerHappy14 => 272025738695333959959313687672240706int,
            Key::BtnTriggerHappy15 => 277218035553868787587844184001460802int,
            Key::BtnTriggerHappy16 => 282410332412403615216374680330680898int,
            Key::BtnTriggerHappy17 => 287602629270938442844905176659900994int,
            Key::BtnTriggerHappy18 => 292794926129473270473435672989121090int,
            Key::BtnTriggerHappy19 => 297987222988008098101966169318341186int,
            Key::BtnTriggerHappy20 => 251297116080401952786039596857932354int,
            Key::BtnTriggerHappy21 => 256489412938936780414570093187152450int,
            Key::BtnTriggerHappy22 => 261681709797471608043100589516372546int,
            Key::BtnTriggerHappy23 => 266874006656006435671631085845592642int,
            Key::BtnTriggerHappy24 => 272066303514541263300161582174812738int,
            Key::BtnTriggerHappy25 => 277258600373076090928692078504032834int,
            Key::BtnTriggerHappy26 => 282450897231610918557222574833252930int,
            Key::BtnTriggerHappy27 => 287643194090145746185753071162473026int,
            Key::BtnTriggerHappy28 => 292835490948680573814283567491693122int,
            Key::BtnTriggerHappy29 => 298027787807215401442814063820913218int,
            Key::BtnTriggerHappy30 => 251337680899609256126887491360504386int,
            Key::BtnTriggerHappy31 => 256529977758144083755417987689724482int,
            Key::BtnTriggerHappy32 => 261722274616678911383948484018944578int,
            Key::BtnTriggerHappy33 => 266914571475213739012478980348164674int,
            Key::BtnTriggerHappy34 => 272106868333748566641009476677384770int,
            Key::BtnTriggerHappy35 => 277299165192283394269539973006604866int,
            Key::BtnTriggerHappy36 => 282491462050818221898070469335824962int,
            Key::BtnTriggerHappy37 => 287683758909353049526600965665045058int,
            Key::BtnTriggerHappy38 => 292876055767887877155131461994265154int,
            Key::BtnTriggerHappy39 => 298068352626422704783661958323485250int,
            Key::BtnTriggerHappy40 => 251378245718816559467735385863076418int,
            Key::KeyMax => 4149370319563int,
        }
    }
}

/// The character at `i` as a number, or 0 past the end of `s`.
spec fn digit(s: Seq<char>, i: int) -> int {
    if 0 <= i < s.len() {
        s[i] as int
    } else {
        0
    }
}

/// The first 26 characters of `s` read as the digits of a number in base 128,
/// the first character being the lowest digit.
#[verifier::opaque]
spec fn base128(s: Seq<char>) -> int {
    digit(s, 0) + 128 * (
    digit(s, 1) + 128 * (
    digit(s, 2) + 128 * (
    digit(s, 3) + 128 * (
    digit(s, 4) + 128 * (
    digit(s, 5) + 128 * (
    digit(s, 6) + 128 * (
    digit(s, 7) + 128 * (
    digit(s, 8) + 128 * (
    digit(s, 9) + 128 * (
    digit(s, 10) + 128 * (
    digit(s, 11) + 128 * (
    digit(s, 12) + 128 * (
    digit(s, 13) + 128 * (
    digit(s, 14) + 128 * (
    digit(s, 15) + 128 * (
    digit(s, 16) + 128 * (
    digit(s, 17) + 128 * (
    digit(s, 18) + 128 * (
    digit(s, 19) + 128 * (
    digit(s, 20) + 128 * (
    digit(s, 21) + 128 * (
    digit(s, 22) + 128 * (
    digit(s, 23) + 128 * (
    digit(s, 24) + 128 * (
    digit(s, 25)
    )))))))))))))))))))))))))
}

/// Whether the character at `i` is a letter or a digit, if `s` is that long.
spec fn plain_at(s: Seq<char>, i: int) -> bool {
    i >= s.len() || is_name_char(s[i])
}

/// Whether every character of `s` is a letter or a digit, and `s` has between 1
/// and 26 of them.
#[verifier::opaque]
spec fn is_plain_name(s: Seq<char>) -> bool {
    &&& 0 < s.len() <= 26
    &&& plain_at(s, 0)
    &&& plain_at(s, 1)
    &&& plain_at(s, 2)
    &&& plain_at(s, 3)
    &&& plain_at(s, 4)
    &&& plain_at(s, 5)
    &&& plain_at(s, 6)
    &&& plain_at(s, 7)
    &&& plain_at(s, 8)
    &&& plain_at(s, 9)
    &&& plain_at(s, 10)
    &&& plain_at(s, 11)
    &&& plain_at(s, 12)
    &&& plain_at(s, 13)
    &&& plain_at(s, 14)
    &&& plain_at(s, 15)
    &&& plain_at(s, 16)
    &&& plain_at(s, 17)
    &&& plain_at(s, 18)
    &&& plain_at(s, 19)
    &&& plain_at(s, 20)
    &&& plain_at(s, 21)
    &&& plain_at(s, 22)
    &&& plain_at(s, 23)
    &&& plain_at(s, 24)
    &&& plain_at(s, 25)
}

/// Whether a name is `Key` and one more character, a digit or a capital letter.
#[verifier::opaque]
pub open spec fn is_letter_or_digit_name(name: Seq<char>) -> bool {
    &&& name.len() == 4
    &&& name[0] == 'K'
    &&& name[1] == 'e'
    &&& name[2] == 'y'
    &&& (('0' <= name[3] && name[3] <= '9') || ('A' <= name[3] && name[3] <= 'Z'))
}

/// What is to be known of how a name is spelled: its number, that it is
/// plain, and whether it is the name of a digit or letter key.
spec fn spelled(name: Seq<char>, number: int, letter_or_digit: bool) -> bool {
    &&& base128(name) == number
    &&& is_plain_name(name)
    &&& is_letter_or_digit_name(name) == letter_or_digit
}

/// What [`base128`], [`is_plain_name`] and [`is_letter_or_digit_name`] say of one text.
proof fn lemma_spelling(s: Seq<char>)
    ensures
        base128(s) == (
        digit(s, 0) + 128 * (
        digit(s, 1) + 128 * (
        digit(s, 2) + 128 * (
        digit(s, 3) + 128 * (
        digit(s, 4) + 128 * (
        digit(s, 5) + 128 * (
        digit(s, 6) + 128 * (
        digit(s, 7) + 128 * (
        digit(s, 8) + 128 * (
        digit(s, 9) + 128 * (
        digit(s, 10) + 128 * (
        digit(s, 11) + 128 * (
        digit(s, 12) + 128 * (
        digit(s, 13) + 128 * (
        digit(s, 14) + 128 * (
        digit(s, 15) + 128 * (
        digit(s, 16) + 128 * (
        digit(s, 17) + 128 * (
        digit(s, 18) + 128 * (
        digit(s, 19) + 128 * (
        digit(s, 20) + 128 * (
        digit(s, 21) + 128 * (
        digit(s, 22) + 128 * (
        digit(s, 23) + 128 * (
        digit(s, 24) + 128 * (
        digit(s, 25)
        )))))))))))))))))))))))))),
        is_plain_name(s) <==> 0 < s.len() <= 26
            && plain_at(s, 0)
            && plain_at(s, 1)
            && plain_at(s, 2)
            && plain_at(s, 3)
            && plain_at(s, 4)
            && plain_at(s, 5)
            && plain_at(s, 6)
            && plain_at(s, 7)
            && plain_at(s, 8)
            && plain_at(s, 9)
            && plain_at(s, 10)
            && plain_at(s, 11)
            && plain_at(s, 12)
            && plain_at(s, 13)
            && plain_at(s, 14)
            && plain_at(s, 15)
            && plain_at(s, 16)
            && plain_at(s, 17)
            && plain_at(s, 18)
            && plain_at(s, 19)
            && plain_at(s, 20)
            && plain_at(s, 21)
            && plain_at(s, 22)
            && plain_at(s, 23)
            && plain_at(s, 24)
            && plain_at(s, 25),
        is_letter_or_digit_name(s) <==> s.len() == 4 && s[0] == 'K' && s[1] == 'e' && s[2] == 'y' && ((
            '0' <= s[3] && s[3] <= '9') || ('A' <= s[3] && s[3] <= 'Z')),
{
    reveal(base128);
    reveal(is_plain_name);
    reveal(is_letter_or_digit_name);
}

/// How the names of the keys are spelled whose codes lie from 0x0 up to, not
/// including, 0x40.
proof fn lemma_names_from_000()
    ensures
        spelled("KeyReserved"@, 118999290068035981701835int, false),
        spelled("KeyEsc"@, 3432630874827int, false),
        spelled("Key1"@, 104755915int, true),
        spelled("Key2"@, 106853067int, true),
        spelled("Key3"@, 108950219int, true),
        spelled("Key4"@, 111047371int, true),
        spelled("Key5"@, 113144523int, true),
        spelled("Key6"@, 115241675int, true),
        spelled("Key7"@, 117338827int, true),
        spelled("Key8"@, 119435979int, true),
        spelled("Key9"@, 121533131int, true),
        spelled("Key0"@, 102658763int, true),
        spelled("KeyMinus"@, 65257624005669579int, false),
        spelled("KeyEqual"@, 61229256050373323int, false),
        spelled("KeyBackspace"@, 15380469845837087623770827int, false),
        spelled("KeyTab"@, 3393470755531int, false),
        spelled("KeyQ"@, 171864779int, true),
        spelled("KeyW"@, 184447691int, true),
        spelled("KeyE"@, 146698955int, true),
        spelled("KeyR"@, 173961931int, true),
        spelled("KeyT"@, 178156235int, true),
        spelled("KeyY"@, 188641995int, true),
        spelled("KeyU"@, 180253387int, true),
        spelled("KeyI"@, 155087563int, true),
        spelled("KeyO"@, 167670475int, true),
        spelled("KeyP"@, 169767627int, true),
        spelled("KeyLeftBrace"@, 15380469962407414574510795int, false),
        spelled("KeyRightBrace"@, 1968700155188157938053051083int, false),
        spelled("KeyEnter"@, 64624512791900875int, false),
        spelled("KeyLeftCtrl"@, 128563756361942506042059int, false),
        spelled("KeyA"@, 138310347int, true),
        spelled("KeyS"@, 176059083int, true),
        spelled("KeyD"@, 144601803int, true),
        spelled("KeyF"@, 148796107int, true),
        spelled("KeyG"@, 150893259int, true),
        spelled("KeyH"@, 152990411int, true),
        spelled("KeyJ"@, 157184715int, true),
        spelled("KeyK"@, 159281867int, true),
        spelled("KeyL"@, 161379019int, true),
        spelled("KeySemicolon"@, 16754779868371315104576203int, false),
        spelled("KeyApostrophe"@, 1969473418488424900945933003int, false),
        spelled("KeyGrave"@, 57380278431019723int, false),
        spelled("KeyLeftShift"@, 17650820725017500178084555int, false),
        spelled("KeyBackslash"@, 15852706205893675993428683int, false),
        spelled("KeyZ"@, 190739147int, true),
        spelled("KeyX"@, 186544843int, true),
        spelled("KeyC"@, 142504651int, true),
        spelled("KeyV"@, 182350539int, true),
        spelled("KeyB"@, 140407499int, true),
        spelled("KeyN"@, 165573323int, true),
        spelled("KeyM"@, 163476171int, true),
        spelled("KeyComma"@, 55089307701899979int, false),
        spelled("KeyDot"@, 4015670588107int, false),
        spelled("KeySlash"@, 59055932566303435int, false),
        spelled("KeyRightShift"@, 2259305052802248895310492363int, false),
        spelled("KeyKpAsterisk"@, 2087184332765420202498093771int, false),
        spelled("KeyLeftAlt"@, 1077730481883584557771int, false),
        spelled("KeySpace"@, 57296715035603659int, false),
        spelled("KeyCapsLock"@, 127244458935196122510027int, false),
        spelled("KeyF1"@, 13302133451int, false),
        spelled("KeyF2"@, 13570568907int, false),
        spelled("KeyF3"@, 13839004363int, false),
        spelled("KeyF4"@, 14107439819int, false),
        spelled("KeyF5"@, 14375875275int, false),
{
    assert(spelled("KeyReserved"@, 118999290068035981701835int, false)) by {
        reveal_strlit("KeyReserved");
        lemma_spelling("KeyReserved"@);
    }
    assert(spelled("KeyEsc"@, 3432630874827int, false)) by {
        reveal_strlit("KeyEsc");
        lemma_spelling("KeyEsc"@);
    }
    assert(spelled("Key1"@, 104755915int, true)) by {
        reveal_strlit("Key1");
        lemma_spelling("Key1"@);
    }
    assert(spelled("Key2"@, 106853067int, true)) by {
        reveal_strlit("Key2");
        lemma_spelling("Key2"@);
    }
    assert(spelled("Key3"@, 108950219int, true)) by {
        reveal_strlit("Key3");
        lemma_spelling("Key3"@);
    }
    assert(spelled("Key4"@, 111047371int, true)) by {
        reveal_strlit("Key4");
        lemma_spelling("Key4"@);
    }
    assert(spelled("Key5"@, 113144523int, true)) by {
        reveal_strlit("Key5");
        lemma_spelling("Key5"@);
    }
    assert(spelled("Key6"@, 115241675int, true)) by {
        reveal_strlit("Key6");
        lemma_spelling("Key6"@);
    }
    assert(spelled("Key7"@, 117338827int, true)) by {
        reveal_strlit("Key7");
        lemma_spelling("Key7"@);
    }
    assert(spelled("Key8"@, 119435979int, true)) by {
        reveal_strlit("Key8");
        lemma_spelling("Key8"@);
    }
    assert(spelled("Key9"@, 121533131int, true)) by {
        reveal_strlit("Key9");
        lemma_spelling("Key9"@);
    }
    assert(spelled("Key0"@, 102658763int, true)) by {
        reveal_strlit("Key0");
        lemma_spelling("Key0"@);
    }
    assert(spelled("KeyMinus"@, 65257624005669579int, false)) by {
        reveal_strlit("KeyMinus");
        lemma_spelling("KeyMinus"@);
    }
    assert(spelled("KeyEqual"@, 61229256050373323int, false)) by {
        reveal_strlit("KeyEqual");
        lemma_spelling("KeyEqual"@);
    }
    assert(spelled("KeyBackspace"@, 15380469845837087623770827int, false)) by {
        reveal_strlit("KeyBackspace");
        lemma_spelling("KeyBackspace"@);
    }
    assert(spelled("KeyTab"@, 3393470755531int, false)) by {
        reveal_strlit("KeyTab");
        lemma_spelling("KeyTab"@);
    }
    assert(spelled("KeyQ"@, 171864779int, true)) by {
        reveal_strlit("KeyQ");
        lemma_spelling("KeyQ"@);
    }
    assert(spelled("KeyW"@, 184447691int, true)) by {
        reveal_strlit("KeyW");
        lemma_spelling("KeyW"@);
    }
    assert(spelled("KeyE"@, 146698955int, true)) by {
        reveal_strlit("KeyE");
        lemma_spelling("KeyE"@);
    }
    assert(spelled("KeyR"@, 173961931int, true)) by {
        reveal_strlit("KeyR");
        lemma_spelling("KeyR"@);
    }
    assert(spelled("KeyT"@, 178156235int, true)) by {
        reveal_strlit("KeyT");
        lemma_spelling("KeyT"@);
    }
    assert(spelled("KeyY"@, 188641995int, true)) by {
        reveal_strlit("KeyY");
        lemma_spelling("KeyY"@);
    }
    assert(spelled("KeyU"@, 180253387int, true)) by {
        reveal_strlit("KeyU");
        lemma_spelling("KeyU"@);
    }
    assert(spelled("KeyI"@, 155087563int, true)) by {
        reveal_strlit("KeyI");
        lemma_spelling("KeyI"@);
    }
    assert(spelled("KeyO"@, 167670475int, true)) by {
        reveal_strlit("KeyO");
        lemma_spelling("KeyO"@);
    }
    assert(spelled("KeyP"@, 169767627int, true)) by {
        reveal_strlit("KeyP");
        lemma_spelling("KeyP"@);
    }
    assert(spelled("KeyLeftBrace"@, 15380469962407414574510795int, false)) by {
        reveal_strlit("KeyLeftBrace");
        lemma_spelling("KeyLeftBrace"@);
    }
    assert(spelled("KeyRightBrace"@, 1968700155188157938053051083int, false)) by {
        reveal_strlit("KeyRightBrace");
        lemma_spelling("KeyRightBrace"@);
    }
    assert(spelled("KeyEnter"@, 64624512791900875int, false)) by {
        reveal_strlit("KeyEnter");
        lemma_spelling("KeyEnter"@);
    }
    assert(spelled("KeyLeftCtrl"@, 128563756361942506042059int, false)) by {
        reveal_strlit("KeyLeftCtrl");
        lemma_spelling("KeyLeftCtrl"@);
    }
    assert(spelled("KeyA"@, 138310347int, true)) by {
        reveal_strlit("KeyA");
        lemma_spelling("KeyA"@);
    }
    assert(spelled("KeyS"@, 176059083int, true)) by {
        reveal_strlit("KeyS");
        lemma_spelling("KeyS"@);
    }
    assert(spelled("KeyD"@, 144601803int, true)) by {
        reveal_strlit("KeyD");
        lemma_spelling("KeyD"@);
    }
    assert(spelled("KeyF"@, 148796107int, true)) by {
        reveal_strlit("KeyF");
        lemma_spelling("KeyF"@);
    }
    assert(spelled("KeyG"@, 150893259int, true)) by {
        reveal_strlit("KeyG");
        lemma_spelling("KeyG"@);
    }
    assert(spelled("KeyH"@, 152990411int, true)) by {
        reveal_strlit("KeyH");
        lemma_spelling("KeyH"@);
    }
    assert(spelled("KeyJ"@, 157184715int, true)) by {
        reveal_strlit("KeyJ");
        lemma_spelling("KeyJ"@);
    }
    assert(spelled("KeyK"@, 159281867int, true)) by {
        reveal_strlit("KeyK");
        lemma_spelling("KeyK"@);
    }
    assert(spelled("KeyL"@, 161379019int, true)) by {
        reveal_strlit("KeyL");
        lemma_spelling("KeyL"@);
    }
    assert(spelled("KeySemicolon"@, 16754779868371315104576203int, false)) by {
        reveal_strlit("KeySemicolon");
        lemma_spelling("KeySemicolon"@);
    }
    assert(spelled("KeyApostrophe"@, 1969473418488424900945933003int, false)) by {
        reveal_strlit("KeyApostrophe");
        lemma_spelling("KeyApostrophe"@);
    }
    assert(spelled("KeyGrave"@, 57380278431019723int, false)) by {
        reveal_strlit("KeyGrave");
        lemma_spelling("KeyGrave"@);
    }
    assert(spelled("KeyLeftShift"@, 17650820725017500178084555int, false)) by {
        reveal_strlit("KeyLeftShift");
        lemma_spelling("KeyLeftShift"@);
    }
    assert(spelled("KeyBackslash"@, 15852706205893675993428683int, false)) by {
        reveal_strlit("KeyBackslash");
        lemma_spelling("KeyBackslash"@);
    }
    assert(spelled("KeyZ"@, 190739147int, true)) by {
        reveal_strlit("KeyZ");
        lemma_spelling("KeyZ"@);
    }
    assert(spelled("KeyX"@, 186544843int, true)) by {
        reveal_strlit("KeyX");
        lemma_spelling("KeyX"@);
    }
    assert(spelled("KeyC"@, 142504651int, true)) by {
        reveal_strlit("KeyC");
        lemma_spelling("KeyC"@);
    }
    assert(spelled("KeyV"@, 182350539int, true)) by {
        reveal_strlit("KeyV");
        lemma_spelling("KeyV"@);
    }
    assert(spelled("KeyB"@, 140407499int, true)) by {
        reveal_strlit("KeyB");
        lemma_spelling("KeyB"@);
    }
    assert(spelled("KeyN"@, 165573323int, true)) by {
        reveal_strlit("KeyN");
        lemma_spelling("KeyN"@);
    }
    assert(spelled("KeyM"@, 163476171int, true)) by {
        reveal_strlit("KeyM");
        lemma_spelling("KeyM"@);
    }
    assert(spelled("KeyComma"@, 55089307701899979int, false)) by {
        reveal_strlit("KeyComma");
        lemma_spelling("KeyComma"@);
    }
    assert(spelled("KeyDot"@, 4015670588107int, false)) by {
        reveal_strlit("KeyDot");
        lemma_spelling("KeyDot"@);
    }
    assert(spelled("KeySlash"@, 59055932566303435int, false)) by {
        reveal_strlit("KeySlash");
        lemma_spelling("KeySlash"@);
    }
    assert(spelled("KeyRightShift"@, 2259305052802248895310492363int, false)) by {
        reveal_strlit("KeyRightShift");
        lemma_spelling("KeyRightShift"@);
    }
    assert(spelled("KeyKpAsterisk"@, 2087184332765420202498093771int, false)) by {
        reveal_strlit("KeyKpAsterisk");
        lemma_spelling("KeyKpAsterisk"@);
    }
    assert(spelled("KeyLeftAlt"@, 1077730481883584557771int, false)) by {
        reveal_strlit("KeyLeftAlt");
        lemma_spelling("KeyLeftAlt"@);
    }
    assert(spelled("KeySpace"@, 57296715035603659int, false)) by {
        reveal_strlit("KeySpace");
        lemma_spelling("KeySpace"@);
    }
    assert(spelled("KeyCapsLock"@, 127244458935196122510027int, false)) by {
        reveal_strlit("KeyCapsLock");
        lemma_spelling("KeyCapsLock"@);
    }
    assert(spelled("KeyF1"@, 13302133451int, false)) by {
        reveal_strlit("KeyF1");
        lemma_spelling("KeyF1"@);
    }
    assert(spelled("KeyF2"@, 13570568907int, false)) by {
        reveal_strlit("KeyF2");
        lemma_spelling("KeyF2"@);
    }
    assert(spelled("KeyF3"@, 13839004363int, false)) by {
        reveal_strlit("KeyF3");
        lemma_spelling("KeyF3"@);
    }
    assert(spelled("KeyF4"@, 14107439819int, false)) by {
        reveal_strlit("KeyF4");
        lemma_spelling("KeyF4"@);
    }
    assert(spelled("KeyF5"@, 14375875275int, false)) by {
        reveal_strlit("KeyF5");
        lemma_spelling("KeyF5"@);
    }
}

/// How the names of the keys are spelled whose codes lie from 0x40 up to, not
/// including, 0x80.
proof fn lemma_names_from_040()
    ensures
        spelled("KeyF6"@, 14644310731int, false),
        spelled("KeyF7"@, 14912746187int, false),
        spelled("KeyF8"@, 15181181643int, false),
        spelled("KeyF9"@, 15449617099int, false),
        spelled("KeyF10"@, 1662569575115int, false),
        spelled("KeyNumLock"@, 994097335226364490443int, false),
        spelled("KeyScrollLock"@, 2084773214687661494741398219int, false),
        spelled("KeyKp7"@, 1920009663179int, false),
        spelled("KeyKp8"@, 1954369401547int, false),
        spelled("KeyKp9"@, 1988729139915int, false),
        spelled("KeyKpMinus"@, 1069180911706420703947int, false),
        spelled("KeyKp4"@, 1816930448075int, false),
        spelled("KeyKp5"@, 1851290186443int, false),
        spelled("KeyKp6"@, 1885649924811int, false),
        spelled("KeyKpPlus"@, 8352966226938327755int, false),
        spelled("KeyKp1"@, 1713851232971int, false),
        spelled("KeyKp2"@, 1748210971339int, false),
        spelled("KeyKp3"@, 1782570709707int, false),
        spelled("KeyKp0"@, 1679491494603int, false),
        spelled("KeyKpDot"@, 65792744445866699int, false),
        spelled("KeyZenkakuhankaku"@, 611870175692471768156058660160565963int, false),
        spelled("Key102nd"@, 56780511434928843int, false),
        spelled("KeyF11"@, 1696929313483int, false),
        spelled("KeyF12"@, 1731289051851int, false),
        spelled("KeyRo"@, 29970297547int, false),
        spelled("KeyKatakana"@, 115539008386532055610059int, false),
        spelled("KeyHiragana"@, 115539006134665663640267int, false),
        spelled("KeyHenkan"@, 7981415887466820299int, false),
        spelled("KeyKatakanahiragana"@, 8325462799597408553963864052510383567563int, false),
        spelled("KeyMuhenkan"@, 130767517901354772099787int, false),
        spelled("KeyKpJpComma"@, 14787923433643332889113291int, false),
        spelled("KeyKpEnter"@, 1058808017580034257611int, false),
        spelled("KeyRightCtrl"@, 16456160814337513289052875int, false),
        spelled("KeyKpSlash"@, 967572399163845800651int, false),
        spelled("KeySysRQ"@, 45963570067698379int, false),
        spelled("KeyRightAlt"@, 137949501689971339064011int, false),
        spelled("KeyLinefeed"@, 118998058333367158338251int, false),
        spelled("KeyHome"@, 447977858429643int, false),
        spelled("KeyUp"@, 30245024459int, false),
        spelled("KeyPageup"@, 8136763444756902603int, false),
        spelled("KeyLeft"@, 513705361961675int, false),
        spelled("KeyRight"@, 65763158846763723int, false),
        spelled("KeyEnd"@, 3465648435915int, false),
        spelled("KeyDown"@, 487903866024651int, false),
        spelled("KeyPagedown"@, 130970714687002472510155int, false),
        spelled("KeyInsert"@, 8423305386840191691int, false),
        spelled("KeyDelete"@, 7343567133233541835int, false),
        spelled("KeyMacro"@, 62992249947845323int, false),
        spelled("KeyMute"@, 448219997696715int, false),
        spelled("KeyVolumeDown"@, 2145823894287409950261932747int, false),
        spelled("KeyVolumeUp"@, 133017587840337747800779int, false),
        spelled("KeyPower"@, 64624616162620107int, false),
        spelled("KeyKpEqual"@, 1003180131126846845643int, false),
        spelled("KeyKpPlusMinus"@, 287006065580648538585943667403int, false),
        spelled("KeyPause"@, 57367766941725387int, false),
        spelled("KeyScale"@, 57336293964542667int, false),
        spelled("KeyKpComma"@, 902583217385459577547int, false),
        spelled("KeyHangeul"@, 1004612233232602002123int, false),
        spelled("KeyHanja"@, 55076144174494411int, false),
        spelled("KeyYen"@, 3806871843531int, false),
        spelled("KeyLeftMeta"@, 115594620043713656550091int, false),
        spelled("KeyRightMeta"@, 14796111365604220554080971int, false),
        spelled("KeyCompose"@, 939910182837883400907int, false),
{
    assert(spelled("KeyF6"@, 14644310731int, false)) by {
        reveal_strlit("KeyF6");
        lemma_spelling("KeyF6"@);
    }
    assert(spelled("KeyF7"@, 14912746187int, false)) by {
        reveal_strlit("KeyF7");
        lemma_spelling("KeyF7"@);
    }
    assert(spelled("KeyF8"@, 15181181643int, false)) by {
        reveal_strlit("KeyF8");
        lemma_spelling("KeyF8"@);
    }
    assert(spelled("KeyF9"@, 15449617099int, false)) by {
        reveal_strlit("KeyF9");
        lemma_spelling("KeyF9"@);
    }
    assert(spelled("KeyF10"@, 1662569575115int, false)) by {
        reveal_strlit("KeyF10");
        lemma_spelling("KeyF10"@);
    }
    assert(spelled("KeyNumLock"@, 994097335226364490443int, false)) by {
        reveal_strlit("KeyNumLock");
        lemma_spelling("KeyNumLock"@);
    }
    assert(spelled("KeyScrollLock"@, 2084773214687661494741398219int, false)) by {
        reveal_strlit("KeyScrollLock");
        lemma_spelling("KeyScrollLock"@);
    }
    assert(spelled("KeyKp7"@, 1920009663179int, false)) by {
        reveal_strlit("KeyKp7");
        lemma_spelling("KeyKp7"@);
    }
    assert(spelled("KeyKp8"@, 1954369401547int, false)) by {
        reveal_strlit("KeyKp8");
        lemma_spelling("KeyKp8"@);
    }
    assert(spelled("KeyKp9"@, 1988729139915int, false)) by {
        reveal_strlit("KeyKp9");
        lemma_spelling("KeyKp9"@);
    }
    assert(spelled("KeyKpMinus"@, 1069180911706420703947int, false)) by {
        reveal_strlit("KeyKpMinus");
        lemma_spelling("KeyKpMinus"@);
    }
    assert(spelled("KeyKp4"@, 1816930448075int, false)) by {
        reveal_strlit("KeyKp4");
        lemma_spelling("KeyKp4"@);
    }
    assert(spelled("KeyKp5"@, 1851290186443int, false)) by {
        reveal_strlit("KeyKp5");
        lemma_spelling("KeyKp5"@);
    }
    assert(spelled("KeyKp6"@, 1885649924811int, false)) by {
        reveal_strlit("KeyKp6");
        lemma_spelling("KeyKp6"@);
    }
    assert(spelled("KeyKpPlus"@, 8352966226938327755int, false)) by {
        reveal_strlit("KeyKpPlus");
        lemma_spelling("KeyKpPlus"@);
    }
    assert(spelled("KeyKp1"@, 1713851232971int, false)) by {
        reveal_strlit("KeyKp1");
        lemma_spelling("KeyKp1"@);
    }
    assert(spelled("KeyKp2"@, 1748210971339int, false)) by {
        reveal_strlit("KeyKp2");
        lemma_spelling("KeyKp2"@);
    }
    assert(spelled("KeyKp3"@, 1782570709707int, false)) by {
        reveal_strlit("KeyKp3");
        lemma_spelling("KeyKp3"@);
    }
    assert(spelled("KeyKp0"@, 1679491494603int, false)) by {
        reveal_strlit("KeyKp0");
        lemma_spelling("KeyKp0"@);
    }
    assert(spelled("KeyKpDot"@, 65792744445866699int, false)) by {
        reveal_strlit("KeyKpDot");
        lemma_spelling("KeyKpDot"@);
    }
    assert(spelled("KeyZenkakuhankaku"@, 611870175692471768156058660160565963int, false)) by {
        reveal_strlit("KeyZenkakuhankaku");
        lemma_spelling("KeyZenkakuhankaku"@);
    }
    assert(spelled("Key102nd"@, 56780511434928843int, false)) by {
        reveal_strlit("Key102nd");
        lemma_spelling("Key102nd"@);
    }
    assert(spelled("KeyF11"@, 1696929313483int, false)) by {
        reveal_strlit("KeyF11");
        lemma_spelling("KeyF11"@);
    }
    assert(spelled("KeyF12"@, 1731289051851int, false)) by {
        reveal_strlit("KeyF12");
        lemma_spelling("KeyF12"@);
    }
    assert(spelled("KeyRo"@, 29970297547int, false)) by {
        reveal_strlit("KeyRo");
        lemma_spelling("KeyRo"@);
    }
    assert(spelled("KeyKatakana"@, 115539008386532055610059int, false)) by {
        reveal_strlit("KeyKatakana");
        lemma_spelling("KeyKatakana"@);
    }
    assert(spelled("KeyHiragana"@, 115539006134665663640267int, false)) by {
        reveal_strlit("KeyHiragana");
        lemma_spelling("KeyHiragana"@);
    }
    assert(spelled("KeyHenkan"@, 7981415887466820299int, false)) by {
        reveal_strlit("KeyHenkan");
        lemma_spelling("KeyHenkan"@);
    }
    assert(spelled("KeyKatakanahiragana"@, 8325462799597408553963864052510383567563int, false)) by {
        reveal_strlit("KeyKatakanahiragana");
        lemma_spelling("KeyKatakanahiragana"@);
    }
    assert(spelled("KeyMuhenkan"@, 130767517901354772099787int, false)) by {
        reveal_strlit("KeyMuhenkan");
        lemma_spelling("KeyMuhenkan"@);
    }
    assert(spelled("KeyKpJpComma"@, 14787923433643332889113291int, false)) by {
        reveal_strlit("KeyKpJpComma");
        lemma_spelling("KeyKpJpComma"@);
    }
    assert(spelled("KeyKpEnter"@, 1058808017580034257611int, false)) by {
        reveal_strlit("KeyKpEnter");
        lemma_spelling("KeyKpEnter"@);
    }
    assert(spelled("KeyRightCtrl"@, 16456160814337513289052875int, false)) by {
        reveal_strlit("KeyRightCtrl");
        lemma_spelling("KeyRightCtrl"@);
    }
    assert(spelled("KeyKpSlash"@, 967572399163845800651int, false)) by {
        reveal_strlit("KeyKpSlash");
        lemma_spelling("KeyKpSlash"@);
    }
    assert(spelled("KeySysRQ"@, 45963570067698379int, false)) by {
        reveal_strlit("KeySysRQ");
        lemma_spelling("KeySysRQ"@);
    }
    assert(spelled("KeyRightAlt"@, 137949501689971339064011int, false)) by {
        reveal_strlit("KeyRightAlt");
        lemma_spelling("KeyRightAlt"@);
    }
    assert(spelled("KeyLinefeed"@, 118998058333367158338251int, false)) by {
        reveal_strlit("KeyLinefeed");
        lemma_spelling("KeyLinefeed"@);
    }
    assert(spelled("KeyHome"@, 447977858429643int, false)) by {
        reveal_strlit("KeyHome");
        lemma_spelling("KeyHome"@);
    }
    assert(spelled("KeyUp"@, 30245024459int, false)) by {
        reveal_strlit("KeyUp");
        lemma_spelling("KeyUp"@);
    }
    assert(spelled("KeyPageup"@, 8136763444756902603int, false)) by {
        reveal_strlit("KeyPageup");
        lemma_spelling("KeyPageup"@);
    }
    assert(spelled("KeyLeft"@, 513705361961675int, false)) by {
        reveal_strlit("KeyLeft");
        lemma_spelling("KeyLeft"@);
    }
    assert(spelled("KeyRight"@, 65763158846763723int, false)) by {
        reveal_strlit("KeyRight");
        lemma_spelling("KeyRight"@);
    }
    assert(spelled("KeyEnd"@, 3465648435915int, false)) by {
        reveal_strlit("KeyEnd");
        lemma_spelling("KeyEnd"@);
    }
    assert(spelled("KeyDown"@, 487903866024651int, false)) by {
        reveal_strlit("KeyDown");
        lemma_spelling("KeyDown"@);
    }
    assert(spelled("KeyPagedown"@, 130970714687002472510155int, false)) by {
        reveal_strlit("KeyPagedown");
        lemma_spelling("KeyPagedown"@);
    }
    assert(spelled("KeyInsert"@, 8423305386840191691int, false)) by {
        reveal_strlit("KeyInsert");
        lemma_spelling("KeyInsert"@);
    }
    assert(spelled("KeyDelete"@, 7343567133233541835int, false)) by {
        reveal_strlit("KeyDelete");
        lemma_spelling("KeyDelete"@);
    }
    assert(spelled("KeyMacro"@, 62992249947845323int, false)) by {
        reveal_strlit("KeyMacro");
        lemma_spelling("KeyMacro"@);
    }
    assert(spelled("KeyMute"@, 448219997696715int, false)) by {
        reveal_strlit("KeyMute");
        lemma_spelling("KeyMute"@);
    }
    assert(spelled("KeyVolumeDown"@, 2145823894287409950261932747int, false)) by {
        reveal_strlit("KeyVolumeDown");
        lemma_spelling("KeyVolumeDown"@);
    }
    assert(spelled("KeyVolumeUp"@, 133017587840337747800779int, false)) by {
        reveal_strlit("KeyVolumeUp");
        lemma_spelling("KeyVolumeUp"@);
    }
    assert(spelled("KeyPower"@, 64624616162620107int, false)) by {
        reveal_strlit("KeyPower");
        lemma_spelling("KeyPower"@);
    }
    assert(spelled("KeyKpEqual"@, 1003180131126846845643int, false)) by {
        reveal_strlit("KeyKpEqual");
        lemma_spelling("KeyKpEqual"@);
    }
    assert(spelled("KeyKpPlusMinus"@, 287006065580648538585943667403int, false)) by {
        reveal_strlit("KeyKpPlusMinus");
        lemma_spelling("KeyKpPlusMinus"@);
    }
    assert(spelled("KeyPause"@, 57367766941725387int, false)) by {
        reveal_strlit("KeyPause");
        lemma_spelling("KeyPause"@);
    }
    assert(spelled("KeyScale"@, 57336293964542667int, false)) by {
        reveal_strlit("KeyScale");
        lemma_spelling("KeyScale"@);
    }
    assert(spelled("KeyKpComma"@, 902583217385459577547int, false)) by {
        reveal_strlit("KeyKpComma");
        lemma_spelling("KeyKpComma"@);
    }
    assert(spelled("KeyHangeul"@, 1004612233232602002123int, false)) by {
        reveal_strlit("KeyHangeul");
        lemma_spelling("KeyHangeul"@);
    }
    assert(spelled("KeyHanja"@, 55076144174494411int, false)) by {
        reveal_strlit("KeyHanja");
        lemma_spelling("KeyHanja"@);
    }
    assert(spelled("KeyYen"@, 3806871843531int, false)) by {
        reveal_strlit("KeyYen");
        lemma_spelling("KeyYen"@);
    }
    assert(spelled("KeyLeftMeta"@, 115594620043713656550091int, false)) by {
        reveal_strlit("KeyLeftMeta");
        lemma_spelling("KeyLeftMeta"@);
    }
    assert(spelled("KeyRightMeta"@, 14796111365604220554080971int, false)) by {
        reveal_strlit("KeyRightMeta");
        lemma_spelling("KeyRightMeta"@);
    }
    assert(spelled("KeyCompose"@, 939910182837883400907int, false)) by {
        reveal_strlit("KeyCompose");
        lemma_spelling("KeyCompose"@);
    }
}

/// How the names of the keys are spelled whose codes lie from 0x80 up to, not
/// including, 0xc0.
proof fn lemma_names_from_080()
    ensures
        spelled("KeyStop"@, 496426454774475int, false),
        spelled("KeyAgain"@, 62389650441794251int, false),
        spelled("KeyProps"@, 65235670555062987int, false),
        spelled("KeyUndo"@, 491648844722891int, false),
        spelled("KeyFront"@, 65789824394490571int, false),
        spelled("KeyCopy"@, 536041857381067int, false),
        spelled("KeyOpen"@, 487285682238155int, false),
        spelled("KeyPaste"@, 57372096268759755int, false),
        spelled("KeyFind"@, 443612556849867int, false),
        spelled("KeyCut"@, 4017279103691int, false),
        spelled("KeyHelp"@, 496319325958859int, false),
        spelled("KeyMenu"@, 518378288476875int, false),
        spelled("KeyCalc"@, 439143637086923int, false),
        spelled("KeySetup"@, 63568979242676939int, false),
        spelled("KeySleep"@, 63498096981471947int, false),
        spelled("KeyWakeup"@, 8136763582210536139int, false),
        spelled("KeyFile"@, 447941883884235int, false),
        spelled("KeySendfile"@, 120243501784319599211211int, false),
        spelled("KeyDeleteFile"@, 1970069238161823281438421707int, false),
        spelled("KeyXfer"@, 504875202802379int, false),
        spelled("KeyProg1"@, 28041391210656459int, false),
        spelled("KeyProg2"@, 28604341164077771int, false),
        spelled("KeyWww"@, 4120937132747int, false),
        spelled("KeyMsDos"@, 65229795301946059int, false),
        spelled("KeyCoffee"@, 7335127078502560459int, false),
        spelled("KeyDirection"@, 16754752558525755384820427int, false),
        spelled("KeyCycleWindows"@, 36741746780579755252570021327563int, false),
        spelled("KeyMail"@, 478622997443275int, false),
        spelled("KeyBookmarks"@, 17505690476211860286632651int, false),
        spelled("KeyComputer"@, 135527430379916530447051int, false),
        spelled("KeyBack"@, 474018769433291int, false),
        spelled("KeyForward"@, 930606902865773359819int, false),
        spelled("KeyCloseCd"@, 927222430049727574731int, false),
        spelled("KeyEjectCd"@, 927230803586154656459int, false),
        spelled("KeyEjectCloseCd"@, 31859120105449817874808421905099int, false),
        spelled("KeyNextSong"@, 122623553490055575007947int, false),
        spelled("KeyPlayPause"@, 15399542678703651275305675int, false),
        spelled("KeyPreviousSong"@, 32916509496235933768178101809867int, false),
        spelled("KeyStopCd"@, 7243973477126795979int, false),
        spelled("KeyRecord"@, 7270427310545597131int, false),
        spelled("KeyRewind"@, 7268149809647612619int, false),
        spelled("KeyPhone"@, 57345572429787851int, false),
        spelled("KeyIso"@, 3844956123851int, false),
        spelled("KeyConfig"@, 7481494341270008523int, false),
        spelled("KeyHomepage"@, 120196814097248904180427int, false),
        spelled("KeyRefresh"@, 967574678001835471563int, false),
        spelled("KeyExit"@, 513813526770379int, false),
        spelled("KeyMove"@, 448287106560715int, false),
        spelled("KeyEdit"@, 513808158061259int, false),
        spelled("KeyScrollUp"@, 133018091654360711721675int, false),
        spelled("KeyScrollDown"@, 2145823894791223973225853643int, false),
        spelled("KeyKpLeftParen"@, 274317775223883930875060974283int, false),
        spelled("KeyKpRightParen"@, 35112675228657288519618180051659int, false),
        spelled("KeyNew"@, 4116086420171int, false),
        spelled("KeyRedo"@, 491646422512331int, false),
        spelled("KeyF13"@, 1765648790219int, false),
        spelled("KeyF14"@, 1800008528587int, false),
        spelled("KeyF15"@, 1834368266955int, false),
        spelled("KeyF16"@, 1868728005323int, false),
        spelled("KeyF17"@, 1903087743691int, false),
        spelled("KeyF18"@, 1937447482059int, false),
        spelled("KeyF19"@, 1971807220427int, false),
        spelled("KeyF20"@, 1662838010571int, false),
        spelled("KeyF21"@, 1697197748939int, false),
{
    assert(spelled("KeyStop"@, 496426454774475int, false)) by {
        reveal_strlit("KeyStop");
        lemma_spelling("KeyStop"@);
    }
    assert(spelled("KeyAgain"@, 62389650441794251int, false)) by {
        reveal_strlit("KeyAgain");
        lemma_spelling("KeyAgain"@);
    }
    assert(spelled("KeyProps"@, 65235670555062987int, false)) by {
        reveal_strlit("KeyProps");
        lemma_spelling("KeyProps"@);
    }
    assert(spelled("KeyUndo"@, 491648844722891int, false)) by {
        reveal_strlit("KeyUndo");
        lemma_spelling("KeyUndo"@);
    }
    assert(spelled("KeyFront"@, 65789824394490571int, false)) by {
        reveal_strlit("KeyFront");
        lemma_spelling("KeyFront"@);
    }
    assert(spelled("KeyCopy"@, 536041857381067int, false)) by {
        reveal_strlit("KeyCopy");
        lemma_spelling("KeyCopy"@);
    }
    assert(spelled("KeyOpen"@, 487285682238155int, false)) by {
        reveal_strlit("KeyOpen");
        lemma_spelling("KeyOpen"@);
    }
    assert(spelled("KeyPaste"@, 57372096268759755int, false)) by {
        reveal_strlit("KeyPaste");
        lemma_spelling("KeyPaste"@);
    }
    assert(spelled("KeyFind"@, 443612556849867int, false)) by {
        reveal_strlit("KeyFind");
        lemma_spelling("KeyFind"@);
    }
    assert(spelled("KeyCut"@, 4017279103691int, false)) by {
        reveal_strlit("KeyCut");
        lemma_spelling("KeyCut"@);
    }
    assert(spelled("KeyHelp"@, 496319325958859int, false)) by {
        reveal_strlit("KeyHelp");
        lemma_spelling("KeyHelp"@);
    }
    assert(spelled("KeyMenu"@, 518378288476875int, false)) by {
        reveal_strlit("KeyMenu");
        lemma_spelling("KeyMenu"@);
    }
    assert(spelled("KeyCalc"@, 439143637086923int, false)) by {
        reveal_strlit("KeyCalc");
        lemma_spelling("KeyCalc"@);
    }
    assert(spelled("KeySetup"@, 63568979242676939int, false)) by {
        reveal_strlit("KeySetup");
        lemma_spelling("KeySetup"@);
    }
    assert(spelled("KeySleep"@, 63498096981471947int, false)) by {
        reveal_strlit("KeySleep");
        lemma_spelling("KeySleep"@);
    }
    assert(spelled("KeyWakeup"@, 8136763582210536139int, false)) by {
        reveal_strlit("KeyWakeup");
        lemma_spelling("KeyWakeup"@);
    }
    assert(spelled("KeyFile"@, 447941883884235int, false)) by {
        reveal_strlit("KeyFile");
        lemma_spelling("KeyFile"@);
    }
    assert(spelled("KeySendfile"@, 120243501784319599211211int, false)) by {
        reveal_strlit("KeySendfile");
        lemma_spelling("KeySendfile"@);
    }
    assert(spelled("KeyDeleteFile"@, 1970069238161823281438421707int, false)) by {
        reveal_strlit("KeyDeleteFile");
        lemma_spelling("KeyDeleteFile"@);
    }
    assert(spelled("KeyXfer"@, 504875202802379int, false)) by {
        reveal_strlit("KeyXfer");
        lemma_spelling("KeyXfer"@);
    }
    assert(spelled("KeyProg1"@, 28041391210656459int, false)) by {
        reveal_strlit("KeyProg1");
        lemma_spelling("KeyProg1"@);
    }
    assert(spelled("KeyProg2"@, 28604341164077771int, false)) by {
        reveal_strlit("KeyProg2");
        lemma_spelling("KeyProg2"@);
    }
    assert(spelled("KeyWww"@, 4120937132747int, false)) by {
        reveal_strlit("KeyWww");
        lemma_spelling("KeyWww"@);
    }
    assert(spelled("KeyMsDos"@, 65229795301946059int, false)) by {
        reveal_strlit("KeyMsDos");
        lemma_spelling("KeyMsDos"@);
    }
    assert(spelled("KeyCoffee"@, 7335127078502560459int, false)) by {
        reveal_strlit("KeyCoffee");
        lemma_spelling("KeyCoffee"@);
    }
    assert(spelled("KeyDirection"@, 16754752558525755384820427int, false)) by {
        reveal_strlit("KeyDirection");
        lemma_spelling("KeyDirection"@);
    }
    assert(spelled("KeyCycleWindows"@, 36741746780579755252570021327563int, false)) by {
        reveal_strlit("KeyCycleWindows");
        lemma_spelling("KeyCycleWindows"@);
    }
    assert(spelled("KeyMail"@, 478622997443275int, false)) by {
        reveal_strlit("KeyMail");
        lemma_spelling("KeyMail"@);
    }
    assert(spelled("KeyBookmarks"@, 17505690476211860286632651int, false)) by {
        reveal_strlit("KeyBookmarks");
        lemma_spelling("KeyBookmarks"@);
    }
    assert(spelled("KeyComputer"@, 135527430379916530447051int, false)) by {
        reveal_strlit("KeyComputer");
        lemma_spelling("KeyComputer"@);
    }
    assert(spelled("KeyBack"@, 474018769433291int, false)) by {
        reveal_strlit("KeyBack");
        lemma_spelling("KeyBack"@);
    }
    assert(spelled("KeyForward"@, 930606902865773359819int, false)) by {
        reveal_strlit("KeyForward");
        lemma_spelling("KeyForward"@);
    }
    assert(spelled("KeyCloseCd"@, 927222430049727574731int, false)) by {
        reveal_strlit("KeyCloseCd");
        lemma_spelling("KeyCloseCd"@);
    }
    assert(spelled("KeyEjectCd"@, 927230803586154656459int, false)) by {
        reveal_strlit("KeyEjectCd");
        lemma_spelling("KeyEjectCd"@);
    }
    assert(spelled("KeyEjectCloseCd"@, 31859120105449817874808421905099int, false)) by {
        reveal_strlit("KeyEjectCloseCd");
        lemma_spelling("KeyEjectCloseCd"@);
    }
    assert(spelled("KeyNextSong"@, 122623553490055575007947int, false)) by {
        reveal_strlit("KeyNextSong");
        lemma_spelling("KeyNextSong"@);
    }
    assert(spelled("KeyPlayPause"@, 15399542678703651275305675int, false)) by {
        reveal_strlit("KeyPlayPause");
        lemma_spelling("KeyPlayPause"@);
    }
    assert(spelled("KeyPreviousSong"@, 32916509496235933768178101809867int, false)) by {
        reveal_strlit("KeyPreviousSong");
        lemma_spelling("KeyPreviousSong"@);
    }
    assert(spelled("KeyStopCd"@, 7243973477126795979int, false)) by {
        reveal_strlit("KeyStopCd");
        lemma_spelling("KeyStopCd"@);
    }
    assert(spelled("KeyRecord"@, 7270427310545597131int, false)) by {
        reveal_strlit("KeyRecord");
        lemma_spelling("KeyRecord"@);
    }
    assert(spelled("KeyRewind"@, 7268149809647612619int, false)) by {
        reveal_strlit("KeyRewind");
        lemma_spelling("KeyRewind"@);
    }
    assert(spelled("KeyPhone"@, 57345572429787851int, false)) by {
        reveal_strlit("KeyPhone");
        lemma_spelling("KeyPhone"@);
    }
    assert(spelled("KeyIso"@, 3844956123851int, false)) by {
        reveal_strlit("KeyIso");
        lemma_spelling("KeyIso"@);
    }
    assert(spelled("KeyConfig"@, 7481494341270008523int, false)) by {
        reveal_strlit("KeyConfig");
        lemma_spelling("KeyConfig"@);
    }
    assert(spelled("KeyHomepage"@, 120196814097248904180427int, false)) by {
        reveal_strlit("KeyHomepage");
        lemma_spelling("KeyHomepage"@);
    }
    assert(spelled("KeyRefresh"@, 967574678001835471563int, false)) by {
        reveal_strlit("KeyRefresh");
        lemma_spelling("KeyRefresh"@);
    }
    assert(spelled("KeyExit"@, 513813526770379int, false)) by {
        reveal_strlit("KeyExit");
        lemma_spelling("KeyExit"@);
    }
    assert(spelled("KeyMove"@, 448287106560715int, false)) by {
        reveal_strlit("KeyMove");
        lemma_spelling("KeyMove"@);
    }
    assert(spelled("KeyEdit"@, 513808158061259int, false)) by {
        reveal_strlit("KeyEdit");
        lemma_spelling("KeyEdit"@);
    }
    assert(spelled("KeyScrollUp"@, 133018091654360711721675int, false)) by {
        reveal_strlit("KeyScrollUp");
        lemma_spelling("KeyScrollUp"@);
    }
    assert(spelled("KeyScrollDown"@, 2145823894791223973225853643int, false)) by {
        reveal_strlit("KeyScrollDown");
        lemma_spelling("KeyScrollDown"@);
    }
    assert(spelled("KeyKpLeftParen"@, 274317775223883930875060974283int, false)) by {
        reveal_strlit("KeyKpLeftParen");
        lemma_spelling("KeyKpLeftParen"@);
    }
    assert(spelled("KeyKpRightParen"@, 35112675228657288519618180051659int, false)) by {
        reveal_strlit("KeyKpRightParen");
        lemma_spelling("KeyKpRightParen"@);
    }
    assert(spelled("KeyNew"@, 4116086420171int, false)) by {
        reveal_strlit("KeyNew");
        lemma_spelling("KeyNew"@);
    }
    assert(spelled("KeyRedo"@, 491646422512331int, false)) by {
        reveal_strlit("KeyRedo");
        lemma_spelling("KeyRedo"@);
    }
    assert(spelled("KeyF13"@, 1765648790219int, false)) by {
        reveal_strlit("KeyF13");
        lemma_spelling("KeyF13"@);
    }
    assert(spelled("KeyF14"@, 1800008528587int, false)) by {
        reveal_strlit("KeyF14");
        lemma_spelling("KeyF14"@);
    }
    assert(spelled("KeyF15"@, 1834368266955int, false)) by {
        reveal_strlit("KeyF15");
        lemma_spelling("KeyF15"@);
    }
    assert(spelled("KeyF16"@, 1868728005323int, false)) by {
        reveal_strlit("KeyF16");
        lemma_spelling("KeyF16"@);
    }
    assert(spelled("KeyF17"@, 1903087743691int, false)) by {
        reveal_strlit("KeyF17");
        lemma_spelling("KeyF17"@);
    }
    assert(spelled("KeyF18"@, 1937447482059int, false)) by {
        reveal_strlit("KeyF18");
        lemma_spelling("KeyF18"@);
    }
    assert(spelled("KeyF19"@, 1971807220427int, false)) by {
        reveal_strlit("KeyF19");
        lemma_spelling("KeyF19"@);
    }
    assert(spelled("KeyF20"@, 1662838010571int, false)) by {
        reveal_strlit("KeyF20");
        lemma_spelling("KeyF20"@);
    }
    assert(spelled("KeyF21"@, 1697197748939int, false)) by {
        reveal_strlit("KeyF21");
        lemma_spelling("KeyF21"@);
    }
}

/// How the names of the keys are spelled whose codes lie from 0xc0 up to, not
/// including, 0x100.
proof fn lemma_names_from_0c0()
    ensures
        spelled("KeyF22"@, 1731557487307int, false),
        spelled("KeyF23"@, 1765917225675int, false),
        spelled("KeyF24"@, 1800276964043int, false),
        spelled("KeyPlayCd"@, 7244012576355283659int, false),
        spelled("KeyPauseCd"@, 927222430252960477899int, false),
        spelled("KeyProg3"@, 29167291117499083int, false),
        spelled("KeyProg4"@, 29730241070920395int, false),
        spelled("KeyDashboard"@, 15247062911055632520868555int, false),
        spelled("KeySuspend"@, 930320893539107369675int, false),
        spelled("KeyClose"@, 57367563708822219int, false),
        spelled("KeyPlay"@, 535525683262155int, false),
        spelled("KeyFastForward"@, 249807888327521557132523500235int, false),
        spelled("KeyBassBoost"@, 17666224251148104246391499int, false),
        spelled("KeyPrint"@, 65789618257031883int, false),
        spelled("KeyHp"@, 30217761483int, false),
        spelled("KeyCamera"@, 7054210890458886859int, false),
        spelled("KeySound"@, 56782830520136395int, false),
        spelled("KeyQuestion"@, 130896504433851963962059int, false),
        spelled("KeyEmail"@, 61263752153952971int, false),
        spelled("KeyChat"@, 513534349701835int, false),
        spelled("KeySearch"@, 7550226562818142923int, false),
        spelled("KeyConnect"@, 1077102203624830694091int, false),
        spelled("KeyFinance"@, 938756632445380883147int, false),
        spelled("KeySport"@, 65807416070927051int, false),
        spelled("KeyShop"@, 496423233549003int, false),
        spelled("KeyAltErase"@, 120307495547093278159563int, false),
        spelled("KeyCancel"@, 7839517313748333259int, false),
        spelled("KeyBrightnessDown"@, 576015215830423892367041791088554699int, false),
        spelled("KeyBrightnessUp"@, 35706908535148428067469814297291int, false),
        spelled("KeyMedia"@, 55071403614827211int, false),
        spelled("KeySwitchVideoMode"@, 67649770846989348590222652053334684363int, false),
        spelled("KeyKbDillumToggle"@, 528835882364886069194782344187114187int, false),
        spelled("KeyKbDillumDown"@, 35157178693522796021766311277259int, false),
        spelled("KeyKbDillumUp"@, 2179369677047490334773113547int, false),
        spelled("KeySend"@, 443611510371019int, false),
        spelled("KeyReply"@, 68595808963818187int, false),
        spelled("KeyForwardMail"@, 269440793924319241876904243915int, false),
        spelled("KeySave"@, 448283361047243int, false),
        spelled("KeyDocuments"@, 17516279195584113873416907int, false),
        spelled("KeyBattery"@, 1124299954310350795467int, false),
        spelled("KeyBluetooth"@, 15854016141432874587812555int, false),
        spelled("KeyWlan"@, 487147186320075int, false),
        spelled("KeyUwb"@, 3399378432715int, false),
        spelled("KeyUnknown"@, 1023208752680684909259int, false),
        spelled("KeyVideoNext"@, 17672032622901381549683403int, false),
        spelled("KeyVideoPrev"@, 17951952884963075216536267int, false),
        spelled("KeyBrightnessCycle"@, 67690836279518080243938022644495839947int, false),
        spelled("KeyBrightnessAuto"@, 581087712279596916604849199570121419int, false),
        spelled("KeyDisplayOff"@, 1988475131628096247576818379int, false),
        spelled("KeyWwan"@, 487150139110091int, false),
        spelled("KeyRfKill"@, 7843483150484140747int, false),
        spelled("KeyMicMute"@, 939985463854826943179int, false),
{
    assert(spelled("KeyF22"@, 1731557487307int, false)) by {
        reveal_strlit("KeyF22");
        lemma_spelling("KeyF22"@);
    }
    assert(spelled("KeyF23"@, 1765917225675int, false)) by {
        reveal_strlit("KeyF23");
        lemma_spelling("KeyF23"@);
    }
    assert(spelled("KeyF24"@, 1800276964043int, false)) by {
        reveal_strlit("KeyF24");
        lemma_spelling("KeyF24"@);
    }
    assert(spelled("KeyPlayCd"@, 7244012576355283659int, false)) by {
        reveal_strlit("KeyPlayCd");
        lemma_spelling("KeyPlayCd"@);
    }
    assert(spelled("KeyPauseCd"@, 927222430252960477899int, false)) by {
        reveal_strlit("KeyPauseCd");
        lemma_spelling("KeyPauseCd"@);
    }
    assert(spelled("KeyProg3"@, 29167291117499083int, false)) by {
        reveal_strlit("KeyProg3");
        lemma_spelling("KeyProg3"@);
    }
    assert(spelled("KeyProg4"@, 29730241070920395int, false)) by {
        reveal_strlit("KeyProg4");
        lemma_spelling("KeyProg4"@);
    }
    assert(spelled("KeyDashboard"@, 15247062911055632520868555int, false)) by {
        reveal_strlit("KeyDashboard");
        lemma_spelling("KeyDashboard"@);
    }
    assert(spelled("KeySuspend"@, 930320893539107369675int, false)) by {
        reveal_strlit("KeySuspend");
        lemma_spelling("KeySuspend"@);
    }
    assert(spelled("KeyClose"@, 57367563708822219int, false)) by {
        reveal_strlit("KeyClose");
        lemma_spelling("KeyClose"@);
    }
    assert(spelled("KeyPlay"@, 535525683262155int, false)) by {
        reveal_strlit("KeyPlay");
        lemma_spelling("KeyPlay"@);
    }
    assert(spelled("KeyFastForward"@, 249807888327521557132523500235int, false)) by {
        reveal_strlit("KeyFastForward");
        lemma_spelling("KeyFastForward"@);
    }
    assert(spelled("KeyBassBoost"@, 17666224251148104246391499int, false)) by {
        reveal_strlit("KeyBassBoost");
        lemma_spelling("KeyBassBoost"@);
    }
    assert(spelled("KeyPrint"@, 65789618257031883int, false)) by {
        reveal_strlit("KeyPrint");
        lemma_spelling("KeyPrint"@);
    }
    assert(spelled("KeyHp"@, 30217761483int, false)) by {
        reveal_strlit("KeyHp");
        lemma_spelling("KeyHp"@);
    }
    assert(spelled("KeyCamera"@, 7054210890458886859int, false)) by {
        reveal_strlit("KeyCamera");
        lemma_spelling("KeyCamera"@);
    }
    assert(spelled("KeySound"@, 56782830520136395int, false)) by {
        reveal_strlit("KeySound");
        lemma_spelling("KeySound"@);
    }
    assert(spelled("KeyQuestion"@, 130896504433851963962059int, false)) by {
        reveal_strlit("KeyQuestion");
        lemma_spelling("KeyQuestion"@);
    }
    assert(spelled("KeyEmail"@, 61263752153952971int, false)) by {
        reveal_strlit("KeyEmail");
        lemma_spelling("KeyEmail"@);
    }
    assert(spelled("KeyChat"@, 513534349701835int, false)) by {
        reveal_strlit("KeyChat");
        lemma_spelling("KeyChat"@);
    }
    assert(spelled("KeySearch"@, 7550226562818142923int, false)) by {
        reveal_strlit("KeySearch");
        lemma_spelling("KeySearch"@);
    }
    assert(spelled("KeyConnect"@, 1077102203624830694091int, false)) by {
        reveal_strlit("KeyConnect");
        lemma_spelling("KeyConnect"@);
    }
    assert(spelled("KeyFinance"@, 938756632445380883147int, false)) by {
        reveal_strlit("KeyFinance");
        lemma_spelling("KeyFinance"@);
    }
    assert(spelled("KeySport"@, 65807416070927051int, false)) by {
        reveal_strlit("KeySport");
        lemma_spelling("KeySport"@);
    }
    assert(spelled("KeyShop"@, 496423233549003int, false)) by {
        reveal_strlit("KeyShop");
        lemma_spelling("KeyShop"@);
    }
    assert(spelled("KeyAltErase"@, 120307495547093278159563int, false)) by {
        reveal_strlit("KeyAltErase");
        lemma_spelling("KeyAltErase"@);
    }
    assert(spelled("KeyCancel"@, 7839517313748333259int, false)) by {
        reveal_strlit("KeyCancel");
        lemma_spelling("KeyCancel"@);
    }
    assert(spelled("KeyBrightnessDown"@, 576015215830423892367041791088554699int, false)) by {
        reveal_strlit("KeyBrightnessDown");
        lemma_spelling("KeyBrightnessDown"@);
    }
    assert(spelled("KeyBrightnessUp"@, 35706908535148428067469814297291int, false)) by {
        reveal_strlit("KeyBrightnessUp");
        lemma_spelling("KeyBrightnessUp"@);
    }
    assert(spelled("KeyMedia"@, 55071403614827211int, false)) by {
        reveal_strlit("KeyMedia");
        lemma_spelling("KeyMedia"@);
    }
    assert(spelled("KeySwitchVideoMode"@, 67649770846989348590222652053334684363int, false)) by {
        reveal_strlit("KeySwitchVideoMode");
        lemma_spelling("KeySwitchVideoMode"@);
    }
    assert(spelled("KeyKbDillumToggle"@, 528835882364886069194782344187114187int, false)) by {
        reveal_strlit("KeyKbDillumToggle");
        lemma_spelling("KeyKbDillumToggle"@);
    }
    assert(spelled("KeyKbDillumDown"@, 35157178693522796021766311277259int, false)) by {
        reveal_strlit("KeyKbDillumDown");
        lemma_spelling("KeyKbDillumDown"@);
    }
    assert(spelled("KeyKbDillumUp"@, 2179369677047490334773113547int, false)) by {
        reveal_strlit("KeyKbDillumUp");
        lemma_spelling("KeyKbDillumUp"@);
    }
    assert(spelled("KeySend"@, 443611510371019int, false)) by {
        reveal_strlit("KeySend");
        lemma_spelling("KeySend"@);
    }
    assert(spelled("KeyReply"@, 68595808963818187int, false)) by {
        reveal_strlit("KeyReply");
        lemma_spelling("KeyReply"@);
    }
    assert(spelled("KeyForwardMail"@, 269440793924319241876904243915int, false)) by {
        reveal_strlit("KeyForwardMail");
        lemma_spelling("KeyForwardMail"@);
    }
    assert(spelled("KeySave"@, 448283361047243int, false)) by {
        reveal_strlit("KeySave");
        lemma_spelling("KeySave"@);
    }
    assert(spelled("KeyDocuments"@, 17516279195584113873416907int, false)) by {
        reveal_strlit("KeyDocuments");
        lemma_spelling("KeyDocuments"@);
    }
    assert(spelled("KeyBattery"@, 1124299954310350795467int, false)) by {
        reveal_strlit("KeyBattery");
        lemma_spelling("KeyBattery"@);
    }
    assert(spelled("KeyBluetooth"@, 15854016141432874587812555int, false)) by {
        reveal_strlit("KeyBluetooth");
        lemma_spelling("KeyBluetooth"@);
    }
    assert(spelled("KeyWlan"@, 487147186320075int, false)) by {
        reveal_strlit("KeyWlan");
        lemma_spelling("KeyWlan"@);
    }
    assert(spelled("KeyUwb"@, 3399378432715int, false)) by {
        reveal_strlit("KeyUwb");
        lemma_spelling("KeyUwb"@);
    }
    assert(spelled("KeyUnknown"@, 1023208752680684909259int, false)) by {
        reveal_strlit("KeyUnknown");
        lemma_spelling("KeyUnknown"@);
    }
    assert(spelled("KeyVideoNext"@, 17672032622901381549683403int, false)) by {
        reveal_strlit("KeyVideoNext");
        lemma_spelling("KeyVideoNext"@);
    }
    assert(spelled("KeyVideoPrev"@, 17951952884963075216536267int, false)) by {
        reveal_strlit("KeyVideoPrev");
        lemma_spelling("KeyVideoPrev"@);
    }
    assert(spelled("KeyBrightnessCycle"@, 67690836279518080243938022644495839947int, false)) by {
        reveal_strlit("KeyBrightnessCycle");
        lemma_spelling("KeyBrightnessCycle"@);
    }
    assert(spelled("KeyBrightnessAuto"@, 581087712279596916604849199570121419int, false)) by {
        reveal_strlit("KeyBrightnessAuto");
        lemma_spelling("KeyBrightnessAuto"@);
    }
    assert(spelled("KeyDisplayOff"@, 1988475131628096247576818379int, false)) by {
        reveal_strlit("KeyDisplayOff");
        lemma_spelling("KeyDisplayOff"@);
    }
    assert(spelled("KeyWwan"@, 487150139110091int, false)) by {
        reveal_strlit("KeyWwan");
        lemma_spelling("KeyWwan"@);
    }
    assert(spelled("KeyRfKill"@, 7843483150484140747int, false)) by {
        reveal_strlit("KeyRfKill");
        lemma_spelling("KeyRfKill"@);
    }
    assert(spelled("KeyMicMute"@, 939985463854826943179int, false)) by {
        reveal_strlit("KeyMicMute");
        lemma_spelling("KeyMicMute"@);
    }
}

/// How the names of the keys are spelled whose codes lie from 0x100 up to, not
/// including, 0x140.
proof fn lemma_names_from_100()
    ensures
        spelled("Btn0"@, 102480450int, false),
        spelled("Btn1"@, 104577602int, false),
        spelled("Btn2"@, 106674754int, false),
        spelled("Btn3"@, 108771906int, false),
        spelled("Btn4"@, 110869058int, false),
        spelled("Btn5"@, 112966210int, false),
        spelled("Btn6"@, 115063362int, false),
        spelled("Btn7"@, 117160514int, false),
        spelled("Btn8"@, 119257666int, false),
        spelled("Btn9"@, 121354818int, false),
        spelled("BtnLeft"@, 513705361783362int, false),
        spelled("BtnRight"@, 65763158846585410int, false),
        spelled("BtnMiddle"@, 7339058861774191170int, false),
        spelled("BtnSide"@, 447667033061954int, false),
        spelled("BtnExtra"@, 55111540872559170int, false),
        spelled("BtnForward"@, 930606902865773181506int, false),
        spelled("BtnBack"@, 474018769254978int, false),
        spelled("BtnTask"@, 474568562817602int, false),
        spelled("BtnTrigger"@, 1058800669681820351042int, false),
        spelled("BtnThumb"@, 55652530689653314int, false),
        spelled("BtnThumb2"@, 3658532232586050114int, false),
        spelled("BtnTop"@, 3878265010754int, false),
        spelled("BtnTop2"@, 223780590565954int, false),
        spelled("BtnPinkie"@, 7337401141843180098int, false),
        spelled("BtnBase"@, 448180246002242int, false),
        spelled("BtnBase2"@, 28595677917067842int, false),
        spelled("BtnBase3"@, 29158627870489154int, false),
        spelled("BtnBase4"@, 29721577823910466int, false),
        spelled("BtnBase5"@, 30284527777331778int, false),
        spelled("BtnBase6"@, 30847477730753090int, false),
        spelled("BtnDead"@, 443164802136642int, false),
        spelled("BtnSouth"@, 59061018612709954int, false),
        spelled("BtnEast"@, 514150949960258int, false),
        spelled("BtnC"@, 142326338int, false),
        spelled("BtnNorth"@, 59060915523009090int, false),
        spelled("BtnWest"@, 514152061450818int, false),
        spelled("BtnZ"@, 190560834int, false),
        spelled("BtnTl"@, 29169007170int, false),
        spelled("BtnTr"@, 30779619906int, false),
        spelled("BtnTl2"@, 1747155925570int, false),
        spelled("BtnTr2"@, 1748766538306int, false),
        spelled("BtnSelect"@, 8414860894625577538int, false),
        spelled("BtnStart"@, 65806936108153410int, false),
        spelled("BtnMode"@, 447668631091778int, false),
        spelled("BtnThumbL"@, 5532029677572176450int, false),
        spelled("BtnThumbR"@, 5964375241799744066int, false),
{
    assert(spelled("Btn0"@, 102480450int, false)) by {
        reveal_strlit("Btn0");
        lemma_spelling("Btn0"@);
    }
    assert(spelled("Btn1"@, 104577602int, false)) by {
        reveal_strlit("Btn1");
        lemma_spelling("Btn1"@);
    }
    assert(spelled("Btn2"@, 106674754int, false)) by {
        reveal_strlit("Btn2");
        lemma_spelling("Btn2"@);
    }
    assert(spelled("Btn3"@, 108771906int, false)) by {
        reveal_strlit("Btn3");
        lemma_spelling("Btn3"@);
    }
    assert(spelled("Btn4"@, 110869058int, false)) by {
        reveal_strlit("Btn4");
        lemma_spelling("Btn4"@);
    }
    assert(spelled("Btn5"@, 112966210int, false)) by {
        reveal_strlit("Btn5");
        lemma_spelling("Btn5"@);
    }
    assert(spelled("Btn6"@, 115063362int, false)) by {
        reveal_strlit("Btn6");
        lemma_spelling("Btn6"@);
    }
    assert(spelled("Btn7"@, 117160514int, false)) by {
        reveal_strlit("Btn7");
        lemma_spelling("Btn7"@);
    }
    assert(spelled("Btn8"@, 119257666int, false)) by {
        reveal_strlit("Btn8");
        lemma_spelling("Btn8"@);
    }
    assert(spelled("Btn9"@, 121354818int, false)) by {
        reveal_strlit("Btn9");
        lemma_spelling("Btn9"@);
    }
    assert(spelled("BtnLeft"@, 513705361783362int, false)) by {
        reveal_strlit("BtnLeft");
        lemma_spelling("BtnLeft"@);
    }
    assert(spelled("BtnRight"@, 65763158846585410int, false)) by {
        reveal_strlit("BtnRight");
        lemma_spelling("BtnRight"@);
    }
    assert(spelled("BtnMiddle"@, 7339058861774191170int, false)) by {
        reveal_strlit("BtnMiddle");
        lemma_spelling("BtnMiddle"@);
    }
    assert(spelled("BtnSide"@, 447667033061954int, false)) by {
        reveal_strlit("BtnSide");
        lemma_spelling("BtnSide"@);
    }
    assert(spelled("BtnExtra"@, 55111540872559170int, false)) by {
        reveal_strlit("BtnExtra");
        lemma_spelling("BtnExtra"@);
    }
    assert(spelled("BtnForward"@, 930606902865773181506int, false)) by {
        reveal_strlit("BtnForward");
        lemma_spelling("BtnForward"@);
    }
    assert(spelled("BtnBack"@, 474018769254978int, false)) by {
        reveal_strlit("BtnBack");
        lemma_spelling("BtnBack"@);
    }
    assert(spelled("BtnTask"@, 474568562817602int, false)) by {
        reveal_strlit("BtnTask");
        lemma_spelling("BtnTask"@);
    }
    assert(spelled("BtnTrigger"@, 1058800669681820351042int, false)) by {
        reveal_strlit("BtnTrigger");
        lemma_spelling("BtnTrigger"@);
    }
    assert(spelled("BtnThumb"@, 55652530689653314int, false)) by {
        reveal_strlit("BtnThumb");
        lemma_spelling("BtnThumb"@);
    }
    assert(spelled("BtnThumb2"@, 3658532232586050114int, false)) by {
        reveal_strlit("BtnThumb2");
        lemma_spelling("BtnThumb2"@);
    }
    assert(spelled("BtnTop"@, 3878265010754int, false)) by {
        reveal_strlit("BtnTop");
        lemma_spelling("BtnTop"@);
    }
    assert(spelled("BtnTop2"@, 223780590565954int, false)) by {
        reveal_strlit("BtnTop2");
        lemma_spelling("BtnTop2"@);
    }
    assert(spelled("BtnPinkie"@, 7337401141843180098int, false)) by {
        reveal_strlit("BtnPinkie");
        lemma_spelling("BtnPinkie"@);
    }
    assert(spelled("BtnBase"@, 448180246002242int, false)) by {
        reveal_strlit("BtnBase");
        lemma_spelling("BtnBase"@);
    }
    assert(spelled("BtnBase2"@, 28595677917067842int, false)) by {
        reveal_strlit("BtnBase2");
        lemma_spelling("BtnBase2"@);
    }
    assert(spelled("BtnBase3"@, 29158627870489154int, false)) by {
        reveal_strlit("BtnBase3");
        lemma_spelling("BtnBase3"@);
    }
    assert(spelled("BtnBase4"@, 29721577823910466int, false)) by {
        reveal_strlit("BtnBase4");
        lemma_spelling("BtnBase4"@);
    }
    assert(spelled("BtnBase5"@, 30284527777331778int, false)) by {
        reveal_strlit("BtnBase5");
        lemma_spelling("BtnBase5"@);
    }
    assert(spelled("BtnBase6"@, 30847477730753090int, false)) by {
        reveal_strlit("BtnBase6");
        lemma_spelling("BtnBase6"@);
    }
    assert(spelled("BtnDead"@, 443164802136642int, false)) by {
        reveal_strlit("BtnDead");
        lemma_spelling("BtnDead"@);
    }
    assert(spelled("BtnSouth"@, 59061018612709954int, false)) by {
        reveal_strlit("BtnSouth");
        lemma_spelling("BtnSouth"@);
    }
    assert(spelled("BtnEast"@, 514150949960258int, false)) by {
        reveal_strlit("BtnEast");
        lemma_spelling("BtnEast"@);
    }
    assert(spelled("BtnC"@, 142326338int, false)) by {
        reveal_strlit("BtnC");
        lemma_spelling("BtnC"@);
    }
    assert(spelled("BtnNorth"@, 59060915523009090int, false)) by {
        reveal_strlit("BtnNorth");
        lemma_spelling("BtnNorth"@);
    }
    assert(spelled("BtnWest"@, 514152061450818int, false)) by {
        reveal_strlit("BtnWest");
        lemma_spelling("BtnWest"@);
    }
    assert(spelled("BtnZ"@, 190560834int, false)) by {
        reveal_strlit("BtnZ");
        lemma_spelling("BtnZ"@);
    }
    assert(spelled("BtnTl"@, 29169007170int, false)) by {
        reveal_strlit("BtnTl");
        lemma_spelling("BtnTl"@);
    }
    assert(spelled("BtnTr"@, 30779619906int, false)) by {
        reveal_strlit("BtnTr");
        lemma_spelling("BtnTr"@);
    }
    assert(spelled("BtnTl2"@, 1747155925570int, false)) by {
        reveal_strlit("BtnTl2");
        lemma_spelling("BtnTl2"@);
    }
    assert(spelled("BtnTr2"@, 1748766538306int, false)) by {
        reveal_strlit("BtnTr2");
        lemma_spelling("BtnTr2"@);
    }
    assert(spelled("BtnSelect"@, 8414860894625577538int, false)) by {
        reveal_strlit("BtnSelect");
        lemma_spelling("BtnSelect"@);
    }
    assert(spelled("BtnStart"@, 65806936108153410int, false)) by {
        reveal_strlit("BtnStart");
        lemma_spelling("BtnStart"@);
    }
    assert(spelled("BtnMode"@, 447668631091778int, false)) by {
        reveal_strlit("BtnMode");
        lemma_spelling("BtnMode"@);
    }
    assert(spelled("BtnThumbL"@, 5532029677572176450int, false)) by {
        reveal_strlit("BtnThumbL");
        lemma_spelling("BtnThumbL"@);
    }
    assert(spelled("BtnThumbR"@, 5964375241799744066int, false)) by {
        reveal_strlit("BtnThumbR");
        lemma_spelling("BtnThumbR"@);
    }
}

/// How the names of the keys are spelled whose codes lie from 0x140 up to, not
/// including, 0x180.
proof fn lemma_names_from_140()
    ensures
        spelled("BtnToolPen"@, 1021894255881058236994int, false),
        spelled("BtnToolRubber"@, 2220459993796387457617082946int, false),
        spelled("BtnToolBrush"@, 15852891078100243757906498int, false),
        spelled("BtnToolPencil"@, 2105008868141228126587566658int, false),
        spelled("BtnToolAirbrush"@, 33245922268053896356883506903618int, false),
        spelled("BtnToolFinger"@, 2220466006563508959034718786int, false),
        spelled("BtnToolMouse"@, 15399543685764425191242306int, false),
        spelled("BtnToolLens"@, 136789928386583544445506int, false),
        spelled("BtnToolQuintTap"@, 35736019630579742648038546192962int, false),
        spelled("BtnTouch"@, 58986251824118338int, false),
        spelled("BtnStylus"@, 8352967636777941570int, false),
        spelled("BtnStylus2"@, 469521569479516731970int, false),
        spelled("BtnToolDoubleTap"@, 4574210222261516894385888865008194int, false),
        spelled("BtnToolTripleTap"@, 4574210222277934721791471734471234int, false),
        spelled("BtnToolQuadTap"@, 279187634355379015260518988354int, false),
        spelled("BtnGearDown"@, 130970696729573463931458int, false),
        spelled("BtnGearUp"@, 8118806015748323906int, false),
        spelled("KeyOk"@, 28890264267int, false),
        spelled("KeySelect"@, 8414860894625755851int, false),
        spelled("KeyGoto"@, 492198839612107int, false),
        spelled("KeyClear"@, 64606404668715723int, false),
        spelled("KeyPower2"@, 3667504318059016907int, false),
        spelled("KeyOption"@, 7989288599847596747int, false),
        spelled("KeyInfo"@, 491717539033803int, false),
        spelled("KeyTime"@, 447976272982731int, false),
        spelled("KeyVendor"@, 8277496776670212811int, false),
        spelled("KeyArchive"@, 940122942393108296395int, false),
        spelled("KeyProgram"@, 1012401771777032614603int, false),
        spelled("KeyChannel"@, 1003464408619093488331int, false),
        spelled("KeyFavorites"@, 17498625952524960553398987int, false),
        spelled("KeyEpg"@, 3569264521931int, false),
        spelled("KeyPvr"@, 3948855325387int, false),
        spelled("KeyMhp"@, 3876371460811int, false),
        spelled("KeyLanguage"@, 120196816920825374339787int, false),
        spelled("KeyTitle"@, 57336948412281547int, false),
        spelled("KeySubtitle"@, 120244296176664598966987int, false),
        spelled("KeyAngle"@, 57336503038014155int, false),
        spelled("KeyZoom"@, 483230987743947int, false),
        spelled("KeyMode"@, 447668631270091int, false),
        spelled("KeyKeyboard"@, 119117678993202441253579int, false),
        spelled("KeyScreen"@, 7983641435926590155int, false),
        spelled("KeyPc"@, 26744877771int, false),
        spelled("KeyTv"@, 31853540043int, false),
        spelled("KeyTv2"@, 1749840458443int, false),
        spelled("KeyVcr"@, 3943767634635int, false),
        spelled("KeyVcr2"@, 223846093189835int, false),
        spelled("KeySat"@, 4011943949003int, false),
        spelled("KeySat2"@, 223914269504203int, false),
        spelled("KeyCd"@, 26986050251int, false),
{
    assert(spelled("BtnToolPen"@, 1021894255881058236994int, false)) by {
        reveal_strlit("BtnToolPen");
        lemma_spelling("BtnToolPen"@);
    }
    assert(spelled("BtnToolRubber"@, 2220459993796387457617082946int, false)) by {
        reveal_strlit("BtnToolRubber");
        lemma_spelling("BtnToolRubber"@);
    }
    assert(spelled("BtnToolBrush"@, 15852891078100243757906498int, false)) by {
        reveal_strlit("BtnToolBrush");
        lemma_spelling("BtnToolBrush"@);
    }
    assert(spelled("BtnToolPencil"@, 2105008868141228126587566658int, false)) by {
        reveal_strlit("BtnToolPencil");
        lemma_spelling("BtnToolPencil"@);
    }
    assert(spelled("BtnToolAirbrush"@, 33245922268053896356883506903618int, false)) by {
        reveal_strlit("BtnToolAirbrush");
        lemma_spelling("BtnToolAirbrush"@);
    }
    assert(spelled("BtnToolFinger"@, 2220466006563508959034718786int, false)) by {
        reveal_strlit("BtnToolFinger");
        lemma_spelling("BtnToolFinger"@);
    }
    assert(spelled("BtnToolMouse"@, 15399543685764425191242306int, false)) by {
        reveal_strlit("BtnToolMouse");
        lemma_spelling("BtnToolMouse"@);
    }
    assert(spelled("BtnToolLens"@, 136789928386583544445506int, false)) by {
        reveal_strlit("BtnToolLens");
        lemma_spelling("BtnToolLens"@);
    }
    assert(spelled("BtnToolQuintTap"@, 35736019630579742648038546192962int, false)) by {
        reveal_strlit("BtnToolQuintTap");
        lemma_spelling("BtnToolQuintTap"@);
    }
    assert(spelled("BtnTouch"@, 58986251824118338int, false)) by {
        reveal_strlit("BtnTouch");
        lemma_spelling("BtnTouch"@);
    }
    assert(spelled("BtnStylus"@, 8352967636777941570int, false)) by {
        reveal_strlit("BtnStylus");
        lemma_spelling("BtnStylus"@);
    }
    assert(spelled("BtnStylus2"@, 469521569479516731970int, false)) by {
        reveal_strlit("BtnStylus2");
        lemma_spelling("BtnStylus2"@);
    }
    assert(spelled("BtnToolDoubleTap"@, 4574210222261516894385888865008194int, false)) by {
        reveal_strlit("BtnToolDoubleTap");
        lemma_spelling("BtnToolDoubleTap"@);
    }
    assert(spelled("BtnToolTripleTap"@, 4574210222277934721791471734471234int, false)) by {
        reveal_strlit("BtnToolTripleTap");
        lemma_spelling("BtnToolTripleTap"@);
    }
    assert(spelled("BtnToolQuadTap"@, 279187634355379015260518988354int, false)) by {
        reveal_strlit("BtnToolQuadTap");
        lemma_spelling("BtnToolQuadTap"@);
    }
    assert(spelled("BtnGearDown"@, 130970696729573463931458int, false)) by {
        reveal_strlit("BtnGearDown");
        lemma_spelling("BtnGearDown"@);
    }
    assert(spelled("BtnGearUp"@, 8118806015748323906int, false)) by {
        reveal_strlit("BtnGearUp");
        lemma_spelling("BtnGearUp"@);
    }
    assert(spelled("KeyOk"@, 28890264267int, false)) by {
        reveal_strlit("KeyOk");
        lemma_spelling("KeyOk"@);
    }
    assert(spelled("KeySelect"@, 8414860894625755851int, false)) by {
        reveal_strlit("KeySelect");
        lemma_spelling("KeySelect"@);
    }
    assert(spelled("KeyGoto"@, 492198839612107int, false)) by {
        reveal_strlit("KeyGoto");
        lemma_spelling("KeyGoto"@);
    }
    assert(spelled("KeyClear"@, 64606404668715723int, false)) by {
        reveal_strlit("KeyClear");
        lemma_spelling("KeyClear"@);
    }
    assert(spelled("KeyPower2"@, 3667504318059016907int, false)) by {
        reveal_strlit("KeyPower2");
        lemma_spelling("KeyPower2"@);
    }
    assert(spelled("KeyOption"@, 7989288599847596747int, false)) by {
        reveal_strlit("KeyOption");
        lemma_spelling("KeyOption"@);
    }
    assert(spelled("KeyInfo"@, 491717539033803int, false)) by {
        reveal_strlit("KeyInfo");
        lemma_spelling("KeyInfo"@);
    }
    assert(spelled("KeyTime"@, 447976272982731int, false)) by {
        reveal_strlit("KeyTime");
        lemma_spelling("KeyTime"@);
    }
    assert(spelled("KeyVendor"@, 8277496776670212811int, false)) by {
        reveal_strlit("KeyVendor");
        lemma_spelling("KeyVendor"@);
    }
    assert(spelled("KeyArchive"@, 940122942393108296395int, false)) by {
        reveal_strlit("KeyArchive");
        lemma_spelling("KeyArchive"@);
    }
    assert(spelled("KeyProgram"@, 1012401771777032614603int, false)) by {
        reveal_strlit("KeyProgram");
        lemma_spelling("KeyProgram"@);
    }
    assert(spelled("KeyChannel"@, 1003464408619093488331int, false)) by {
        reveal_strlit("KeyChannel");
        lemma_spelling("KeyChannel"@);
    }
    assert(spelled("KeyFavorites"@, 17498625952524960553398987int, false)) by {
        reveal_strlit("KeyFavorites");
        lemma_spelling("KeyFavorites"@);
    }
    assert(spelled("KeyEpg"@, 3569264521931int, false)) by {
        reveal_strlit("KeyEpg");
        lemma_spelling("KeyEpg"@);
    }
    assert(spelled("KeyPvr"@, 3948855325387int, false)) by {
        reveal_strlit("KeyPvr");
        lemma_spelling("KeyPvr"@);
    }
    assert(spelled("KeyMhp"@, 3876371460811int, false)) by {
        reveal_strlit("KeyMhp");
        lemma_spelling("KeyMhp"@);
    }
    assert(spelled("KeyLanguage"@, 120196816920825374339787int, false)) by {
        reveal_strlit("KeyLanguage");
        lemma_spelling("KeyLanguage"@);
    }
    assert(spelled("KeyTitle"@, 57336948412281547int, false)) by {
        reveal_strlit("KeyTitle");
        lemma_spelling("KeyTitle"@);
    }
    assert(spelled("KeySubtitle"@, 120244296176664598966987int, false)) by {
        reveal_strlit("KeySubtitle");
        lemma_spelling("KeySubtitle"@);
    }
    assert(spelled("KeyAngle"@, 57336503038014155int, false)) by {
        reveal_strlit("KeyAngle");
        lemma_spelling("KeyAngle"@);
    }
    assert(spelled("KeyZoom"@, 483230987743947int, false)) by {
        reveal_strlit("KeyZoom");
        lemma_spelling("KeyZoom"@);
    }
    assert(spelled("KeyMode"@, 447668631270091int, false)) by {
        reveal_strlit("KeyMode");
        lemma_spelling("KeyMode"@);
    }
    assert(spelled("KeyKeyboard"@, 119117678993202441253579int, false)) by {
        reveal_strlit("KeyKeyboard");
        lemma_spelling("KeyKeyboard"@);
    }
    assert(spelled("KeyScreen"@, 7983641435926590155int, false)) by {
        reveal_strlit("KeyScreen");
        lemma_spelling("KeyScreen"@);
    }
    assert(spelled("KeyPc"@, 26744877771int, false)) by {
        reveal_strlit("KeyPc");
        lemma_spelling("KeyPc"@);
    }
    assert(spelled("KeyTv"@, 31853540043int, false)) by {
        reveal_strlit("KeyTv");
        lemma_spelling("KeyTv"@);
    }
    assert(spelled("KeyTv2"@, 1749840458443int, false)) by {
        reveal_strlit("KeyTv2");
        lemma_spelling("KeyTv2"@);
    }
    assert(spelled("KeyVcr"@, 3943767634635int, false)) by {
        reveal_strlit("KeyVcr");
        lemma_spelling("KeyVcr"@);
    }
    assert(spelled("KeyVcr2"@, 223846093189835int, false)) by {
        reveal_strlit("KeyVcr2");
        lemma_spelling("KeyVcr2"@);
    }
    assert(spelled("KeySat"@, 4011943949003int, false)) by {
        reveal_strlit("KeySat");
        lemma_spelling("KeySat"@);
    }
    assert(spelled("KeySat2"@, 223914269504203int, false)) by {
        reveal_strlit("KeySat2");
        lemma_spelling("KeySat2"@);
    }
    assert(spelled("KeyCd"@, 26986050251int, false)) by {
        reveal_strlit("KeyCd");
        lemma_spelling("KeyCd"@);
    }
}

/// How the names of the keys are spelled whose codes lie from 0x180 up to, not
/// including, 0x1c0.
proof fn lemma_names_from_180()
    ensures
        spelled("KeyTape"@, 448077204714187int, false),
        spelled("KeyRadio"@, 62952701899469515int, false),
        spelled("KeyTuner"@, 64624308543976139int, false),
        spelled("KeyPlayer"@, 8271959191302599371int, false),
        spelled("KeyText"@, 514323854029515int, false),
        spelled("KeyDvd"@, 3467793822411int, false),
        spelled("KeyAux"@, 4154713862859int, false),
        spelled("KeyMp3"@, 1782574904011int, false),
        spelled("KeyAudio"@, 62952707232527051int, false),
        spelled("KeyVideo"@, 62935111869297355int, false),
        spelled("KeyDirectory"@, 18420622675590243862606539int, false),
        spelled("KeyList"@, 514153112302283int, false),
        spelled("KeyMemo"@, 491955649671883int, false),
        spelled("KeyCalendar"@, 135489379981198201090763int, false),
        spelled("KeyRed"@, 3463259779787int, false),
        spelled("KeyGreen"@, 62372198660076235int, false),
        spelled("KeyYellow"@, 8637819862518756043int, false),
        spelled("KeyBlue"@, 448251918447307int, false),
        spelled("KeyChannelUp"@, 17026315226774407500165835int, false),
        spelled("KeyChannelDown"@, 274665458532771684809309057739int, false),
        spelled("KeyFirst"@, 65811915290342091int, false),
        spelled("KeyLast"@, 514150964818635int, false),
        spelled("KeyAb"@, 26444985035int, false),
        spelled("KeyNext"@, 514323841446603int, false),
        spelled("KeyRestart"@, 1078180842293010789067int, false),
        spelled("KeySlow"@, 527210632868555int, false),
        spelled("KeyShuffle"@, 939400669422604415691int, false),
        spelled("KeyBreak"@, 60665756603282123int, false),
        spelled("KeyPrevious"@, 136855228935968221197003int, false),
        spelled("KeyDigits"@, 8352390871225627339int, false),
        spelled("KeyTeen"@, 487282739933899int, false),
        spelled("KeyTwen"@, 487287571772107int, false),
        spelled("KeyVideophone"@, 1970378867550919007145980619int, false),
        spelled("KeyGames"@, 65187218741686987int, false),
        spelled("KeyZoomIn"@, 7967913921759572683int, false),
        spelled("KeyZoomOut"@, 1078386851054899589835int, false),
        spelled("KeyZoomReset"@, 17649732150350944873116363int, false),
        spelled("KeyWordProcessor"@, 4659853659802057048359691234472651int, false),
        spelled("KeyEditor"@, 8277566973311611595int, false),
        spelled("KeySpreadsheet"@, 289171099776655251764550726347int, false),
        spelled("KeyGraphicsEditor"@, 596461560584640874421981125604700875int, false),
        spelled("KeyPresentation"@, 35137262835394282019753455153867int, false),
        spelled("KeyDatabase"@, 120307486663036379230923int, false),
        spelled("KeyNews"@, 509891435197131int, false),
        spelled("KeyVoiceMail"@, 16445360957792127530463947int, false),
        spelled("KeyAddressBook"@, 267083073496532850909850268363int, false),
        spelled("KeyMessenger"@, 17347390674223763784889035int, false),
        spelled("KeyDisplayToggle"@, 4131530330975781654914744216089291int, false),
        spelled("KeySpellcheck"@, 2084761666377339368894264011int, false),
        spelled("KeyLogoff"@, 7407787239291122379int, false),
        spelled("KeyDollar"@, 8269650595621532363int, false),
        spelled("KeyEuro"@, 492131726553803int, false),
        spelled("KeyFrameBack"@, 16287160888026166357553867int, false),
        spelled("KeyFrameForward"@, 31975409705922750842337132180171int, false),
        spelled("KeyContextMenu"@, 291821033307943601095785214667int, false),
        spelled("KeyMediaRepeat"@, 289093737838508653136194728651int, false),
        spelled("Key10ChannelsUp"@, 35706907477337899621530008974027int, false),
        spelled("Key10ChannelsDown"@, 576015215829366081838595851283231435int, false),
        spelled("KeyImages"@, 8343937620757082827int, false),
{
    assert(spelled("KeyTape"@, 448077204714187int, false)) by {
        reveal_strlit("KeyTape");
        lemma_spelling("KeyTape"@);
    }
    assert(spelled("KeyRadio"@, 62952701899469515int, false)) by {
        reveal_strlit("KeyRadio");
        lemma_spelling("KeyRadio"@);
    }
    assert(spelled("KeyTuner"@, 64624308543976139int, false)) by {
        reveal_strlit("KeyTuner");
        lemma_spelling("KeyTuner"@);
    }
    assert(spelled("KeyPlayer"@, 8271959191302599371int, false)) by {
        reveal_strlit("KeyPlayer");
        lemma_spelling("KeyPlayer"@);
    }
    assert(spelled("KeyText"@, 514323854029515int, false)) by {
        reveal_strlit("KeyText");
        lemma_spelling("KeyText"@);
    }
    assert(spelled("KeyDvd"@, 3467793822411int, false)) by {
        reveal_strlit("KeyDvd");
        lemma_spelling("KeyDvd"@);
    }
    assert(spelled("KeyAux"@, 4154713862859int, false)) by {
        reveal_strlit("KeyAux");
        lemma_spelling("KeyAux"@);
    }
    assert(spelled("KeyMp3"@, 1782574904011int, false)) by {
        reveal_strlit("KeyMp3");
        lemma_spelling("KeyMp3"@);
    }
    assert(spelled("KeyAudio"@, 62952707232527051int, false)) by {
        reveal_strlit("KeyAudio");
        lemma_spelling("KeyAudio"@);
    }
    assert(spelled("KeyVideo"@, 62935111869297355int, false)) by {
        reveal_strlit("KeyVideo");
        lemma_spelling("KeyVideo"@);
    }
    assert(spelled("KeyDirectory"@, 18420622675590243862606539int, false)) by {
        reveal_strlit("KeyDirectory");
        lemma_spelling("KeyDirectory"@);
    }
    assert(spelled("KeyList"@, 514153112302283int, false)) by {
        reveal_strlit("KeyList");
        lemma_spelling("KeyList"@);
    }
    assert(spelled("KeyMemo"@, 491955649671883int, false)) by {
        reveal_strlit("KeyMemo");
        lemma_spelling("KeyMemo"@);
    }
    assert(spelled("KeyCalendar"@, 135489379981198201090763int, false)) by {
        reveal_strlit("KeyCalendar");
        lemma_spelling("KeyCalendar"@);
    }
    assert(spelled("KeyRed"@, 3463259779787int, false)) by {
        reveal_strlit("KeyRed");
        lemma_spelling("KeyRed"@);
    }
    assert(spelled("KeyGreen"@, 62372198660076235int, false)) by {
        reveal_strlit("KeyGreen");
        lemma_spelling("KeyGreen"@);
    }
    assert(spelled("KeyYellow"@, 8637819862518756043int, false)) by {
        reveal_strlit("KeyYellow");
        lemma_spelling("KeyYellow"@);
    }
    assert(spelled("KeyBlue"@, 448251918447307int, false)) by {
        reveal_strlit("KeyBlue");
        lemma_spelling("KeyBlue"@);
    }
    assert(spelled("KeyChannelUp"@, 17026315226774407500165835int, false)) by {
        reveal_strlit("KeyChannelUp");
        lemma_spelling("KeyChannelUp"@);
    }
    assert(spelled("KeyChannelDown"@, 274665458532771684809309057739int, false)) by {
        reveal_strlit("KeyChannelDown");
        lemma_spelling("KeyChannelDown"@);
    }
    assert(spelled("KeyFirst"@, 65811915290342091int, false)) by {
        reveal_strlit("KeyFirst");
        lemma_spelling("KeyFirst"@);
    }
    assert(spelled("KeyLast"@, 514150964818635int, false)) by {
        reveal_strlit("KeyLast");
        lemma_spelling("KeyLast"@);
    }
    assert(spelled("KeyAb"@, 26444985035int, false)) by {
        reveal_strlit("KeyAb");
        lemma_spelling("KeyAb"@);
    }
    assert(spelled("KeyNext"@, 514323841446603int, false)) by {
        reveal_strlit("KeyNext");
        lemma_spelling("KeyNext"@);
    }
    assert(spelled("KeyRestart"@, 1078180842293010789067int, false)) by {
        reveal_strlit("KeyRestart");
        lemma_spelling("KeyRestart"@);
    }
    assert(spelled("KeySlow"@, 527210632868555int, false)) by {
        reveal_strlit("KeySlow");
        lemma_spelling("KeySlow"@);
    }
    assert(spelled("KeyShuffle"@, 939400669422604415691int, false)) by {
        reveal_strlit("KeyShuffle");
        lemma_spelling("KeyShuffle"@);
    }
    assert(spelled("KeyBreak"@, 60665756603282123int, false)) by {
        reveal_strlit("KeyBreak");
        lemma_spelling("KeyBreak"@);
    }
    assert(spelled("KeyPrevious"@, 136855228935968221197003int, false)) by {
        reveal_strlit("KeyPrevious");
        lemma_spelling("KeyPrevious"@);
    }
    assert(spelled("KeyDigits"@, 8352390871225627339int, false)) by {
        reveal_strlit("KeyDigits");
        lemma_spelling("KeyDigits"@);
    }
    assert(spelled("KeyTeen"@, 487282739933899int, false)) by {
        reveal_strlit("KeyTeen");
        lemma_spelling("KeyTeen"@);
    }
    assert(spelled("KeyTwen"@, 487287571772107int, false)) by {
        reveal_strlit("KeyTwen");
        lemma_spelling("KeyTwen"@);
    }
    assert(spelled("KeyVideophone"@, 1970378867550919007145980619int, false)) by {
        reveal_strlit("KeyVideophone");
        lemma_spelling("KeyVideophone"@);
    }
    assert(spelled("KeyGames"@, 65187218741686987int, false)) by {
        reveal_strlit("KeyGames");
        lemma_spelling("KeyGames"@);
    }
    assert(spelled("KeyZoomIn"@, 7967913921759572683int, false)) by {
        reveal_strlit("KeyZoomIn");
        lemma_spelling("KeyZoomIn"@);
    }
    assert(spelled("KeyZoomOut"@, 1078386851054899589835int, false)) by {
        reveal_strlit("KeyZoomOut");
        lemma_spelling("KeyZoomOut"@);
    }
    assert(spelled("KeyZoomReset"@, 17649732150350944873116363int, false)) by {
        reveal_strlit("KeyZoomReset");
        lemma_spelling("KeyZoomReset"@);
    }
    assert(spelled("KeyWordProcessor"@, 4659853659802057048359691234472651int, false)) by {
        reveal_strlit("KeyWordProcessor");
        lemma_spelling("KeyWordProcessor"@);
    }
    assert(spelled("KeyEditor"@, 8277566973311611595int, false)) by {
        reveal_strlit("KeyEditor");
        lemma_spelling("KeyEditor"@);
    }
    assert(spelled("KeySpreadsheet"@, 289171099776655251764550726347int, false)) by {
        reveal_strlit("KeySpreadsheet");
        lemma_spelling("KeySpreadsheet"@);
    }
    assert(spelled("KeyGraphicsEditor"@, 596461560584640874421981125604700875int, false)) by {
        reveal_strlit("KeyGraphicsEditor");
        lemma_spelling("KeyGraphicsEditor"@);
    }
    assert(spelled("KeyPresentation"@, 35137262835394282019753455153867int, false)) by {
        reveal_strlit("KeyPresentation");
        lemma_spelling("KeyPresentation"@);
    }
    assert(spelled("KeyDatabase"@, 120307486663036379230923int, false)) by {
        reveal_strlit("KeyDatabase");
        lemma_spelling("KeyDatabase"@);
    }
    assert(spelled("KeyNews"@, 509891435197131int, false)) by {
        reveal_strlit("KeyNews");
        lemma_spelling("KeyNews"@);
    }
    assert(spelled("KeyVoiceMail"@, 16445360957792127530463947int, false)) by {
        reveal_strlit("KeyVoiceMail");
        lemma_spelling("KeyVoiceMail"@);
    }
    assert(spelled("KeyAddressBook"@, 267083073496532850909850268363int, false)) by {
        reveal_strlit("KeyAddressBook");
        lemma_spelling("KeyAddressBook"@);
    }
    assert(spelled("KeyMessenger"@, 17347390674223763784889035int, false)) by {
        reveal_strlit("KeyMessenger");
        lemma_spelling("KeyMessenger"@);
    }
    assert(spelled("KeyDisplayToggle"@, 4131530330975781654914744216089291int, false)) by {
        reveal_strlit("KeyDisplayToggle");
        lemma_spelling("KeyDisplayToggle"@);
    }
    assert(spelled("KeySpellcheck"@, 2084761666377339368894264011int, false)) by {
        reveal_strlit("KeySpellcheck");
        lemma_spelling("KeySpellcheck"@);
    }
    assert(spelled("KeyLogoff"@, 7407787239291122379int, false)) by {
        reveal_strlit("KeyLogoff");
        lemma_spelling("KeyLogoff"@);
    }
    assert(spelled("KeyDollar"@, 8269650595621532363int, false)) by {
        reveal_strlit("KeyDollar");
        lemma_spelling("KeyDollar"@);
    }
    assert(spelled("KeyEuro"@, 492131726553803int, false)) by {
        reveal_strlit("KeyEuro");
        lemma_spelling("KeyEuro"@);
    }
    assert(spelled("KeyFrameBack"@, 16287160888026166357553867int, false)) by {
        reveal_strlit("KeyFrameBack");
        lemma_spelling("KeyFrameBack"@);
    }
    assert(spelled("KeyFrameForward"@, 31975409705922750842337132180171int, false)) by {
        reveal_strlit("KeyFrameForward");
        lemma_spelling("KeyFrameForward"@);
    }
    assert(spelled("KeyContextMenu"@, 291821033307943601095785214667int, false)) by {
        reveal_strlit("KeyContextMenu");
        lemma_spelling("KeyContextMenu"@);
    }
    assert(spelled("KeyMediaRepeat"@, 289093737838508653136194728651int, false)) by {
        reveal_strlit("KeyMediaRepeat");
        lemma_spelling("KeyMediaRepeat"@);
    }
    assert(spelled("Key10ChannelsUp"@, 35706907477337899621530008974027int, false)) by {
        reveal_strlit("Key10ChannelsUp");
        lemma_spelling("Key10ChannelsUp"@);
    }
    assert(spelled("Key10ChannelsDown"@, 576015215829366081838595851283231435int, false)) by {
        reveal_strlit("Key10ChannelsDown");
        lemma_spelling("Key10ChannelsDown"@);
    }
    assert(spelled("KeyImages"@, 8343937620757082827int, false)) by {
        reveal_strlit("KeyImages");
        lemma_spelling("KeyImages"@);
    }
}

/// How the names of the keys are spelled whose codes lie from 0x1c0 up to, not
/// including, 0x200.
proof fn lemma_names_from_1c0()
    ensures
        spelled("KeyDelEol"@, 7845014804243575499int, false),
        spelled("KeyDelEos"@, 8349417962509071051int, false),
        spelled("KeyInsLine"@, 939546359044201411275int, false),
        spelled("KeyDelLine"@, 939546358801256837835int, false),
        spelled("KeyFn"@, 29676696267int, false),
        spelled("KeyFnEsc"@, 56240221236130507int, false),
        spelled("KeyFnF1"@, 217939137426123int, false),
        spelled("KeyFnF2"@, 222337183937227int, false),
        spelled("KeyFnF3"@, 226735230448331int, false),
        spelled("KeyFnF4"@, 231133276959435int, false),
        spelled("KeyFnF5"@, 235531323470539int, false),
        spelled("KeyFnF6"@, 239929369981643int, false),
        spelled("KeyFnF7"@, 244327416492747int, false),
        spelled("KeyFnF8"@, 248725463003851int, false),
        spelled("KeyFnF9"@, 253123509514955int, false),
        spelled("KeyFnF10"@, 27239536901649099int, false),
        spelled("KeyFnF11"@, 27802486855070411int, false),
        spelled("KeyFnF12"@, 28365436808491723int, false),
        spelled("KeyFn1"@, 1713303876299int, false),
        spelled("KeyFn2"@, 1747663614667int, false),
        spelled("KeyFnD"@, 2366138905291int, false),
        spelled("KeyFnE"@, 2400498643659int, false),
        spelled("KeyFnF"@, 2434858382027int, false),
        spelled("KeyFnS"@, 2881534980811int, false),
        spelled("KeyFnB"@, 2297419428555int, false),
        spelled("KeyBrlDot1"@, 460366700967869969099int, false),
        spelled("KeyBrlDot2"@, 469590073004724744907int, false),
        spelled("KeyBrlDot3"@, 478813445041579520715int, false),
        spelled("KeyBrlDot4"@, 488036817078434296523int, false),
        spelled("KeyBrlDot5"@, 497260189115289072331int, false),
        spelled("KeyBrlDot6"@, 506483561152143848139int, false),
        spelled("KeyBrlDot7"@, 515706933188998623947int, false),
        spelled("KeyBrlDot8"@, 524930305225853399755int, false),
        spelled("KeyBrlDot9"@, 534153677262708175563int, false),
        spelled("KeyBrlDot10"@, 57128764495403612533451int, false),
{
    assert(spelled("KeyDelEol"@, 7845014804243575499int, false)) by {
        reveal_strlit("KeyDelEol");
        lemma_spelling("KeyDelEol"@);
    }
    assert(spelled("KeyDelEos"@, 8349417962509071051int, false)) by {
        reveal_strlit("KeyDelEos");
        lemma_spelling("KeyDelEos"@);
    }
    assert(spelled("KeyInsLine"@, 939546359044201411275int, false)) by {
        reveal_strlit("KeyInsLine");
        lemma_spelling("KeyInsLine"@);
    }
    assert(spelled("KeyDelLine"@, 939546358801256837835int, false)) by {
        reveal_strlit("KeyDelLine");
        lemma_spelling("KeyDelLine"@);
    }
    assert(spelled("KeyFn"@, 29676696267int, false)) by {
        reveal_strlit("KeyFn");
        lemma_spelling("KeyFn"@);
    }
    assert(spelled("KeyFnEsc"@, 56240221236130507int, false)) by {
        reveal_strlit("KeyFnEsc");
        lemma_spelling("KeyFnEsc"@);
    }
    assert(spelled("KeyFnF1"@, 217939137426123int, false)) by {
        reveal_strlit("KeyFnF1");
        lemma_spelling("KeyFnF1"@);
    }
    assert(spelled("KeyFnF2"@, 222337183937227int, false)) by {
        reveal_strlit("KeyFnF2");
        lemma_spelling("KeyFnF2"@);
    }
    assert(spelled("KeyFnF3"@, 226735230448331int, false)) by {
        reveal_strlit("KeyFnF3");
        lemma_spelling("KeyFnF3"@);
    }
    assert(spelled("KeyFnF4"@, 231133276959435int, false)) by {
        reveal_strlit("KeyFnF4");
        lemma_spelling("KeyFnF4"@);
    }
    assert(spelled("KeyFnF5"@, 235531323470539int, false)) by {
        reveal_strlit("KeyFnF5");
        lemma_spelling("KeyFnF5"@);
    }
    assert(spelled("KeyFnF6"@, 239929369981643int, false)) by {
        reveal_strlit("KeyFnF6");
        lemma_spelling("KeyFnF6"@);
    }
    assert(spelled("KeyFnF7"@, 244327416492747int, false)) by {
        reveal_strlit("KeyFnF7");
        lemma_spelling("KeyFnF7"@);
    }
    assert(spelled("KeyFnF8"@, 248725463003851int, false)) by {
        reveal_strlit("KeyFnF8");
        lemma_spelling("KeyFnF8"@);
    }
    assert(spelled("KeyFnF9"@, 253123509514955int, false)) by {
        reveal_strlit("KeyFnF9");
        lemma_spelling("KeyFnF9"@);
    }
    assert(spelled("KeyFnF10"@, 27239536901649099int, false)) by {
        reveal_strlit("KeyFnF10");
        lemma_spelling("KeyFnF10"@);
    }
    assert(spelled("KeyFnF11"@, 27802486855070411int, false)) by {
        reveal_strlit("KeyFnF11");
        lemma_spelling("KeyFnF11"@);
    }
    assert(spelled("KeyFnF12"@, 28365436808491723int, false)) by {
        reveal_strlit("KeyFnF12");
        lemma_spelling("KeyFnF12"@);
    }
    assert(spelled("KeyFn1"@, 1713303876299int, false)) by {
        reveal_strlit("KeyFn1");
        lemma_spelling("KeyFn1"@);
    }
    assert(spelled("KeyFn2"@, 1747663614667int, false)) by {
        reveal_strlit("KeyFn2");
        lemma_spelling("KeyFn2"@);
    }
    assert(spelled("KeyFnD"@, 2366138905291int, false)) by {
        reveal_strlit("KeyFnD");
        lemma_spelling("KeyFnD"@);
    }
    assert(spelled("KeyFnE"@, 2400498643659int, false)) by {
        reveal_strlit("KeyFnE");
        lemma_spelling("KeyFnE"@);
    }
    assert(spelled("KeyFnF"@, 2434858382027int, false)) by {
        reveal_strlit("KeyFnF");
        lemma_spelling("KeyFnF"@);
    }
    assert(spelled("KeyFnS"@, 2881534980811int, false)) by {
        reveal_strlit("KeyFnS");
        lemma_spelling("KeyFnS"@);
    }
    assert(spelled("KeyFnB"@, 2297419428555int, false)) by {
        reveal_strlit("KeyFnB");
        lemma_spelling("KeyFnB"@);
    }
    assert(spelled("KeyBrlDot1"@, 460366700967869969099int, false)) by {
        reveal_strlit("KeyBrlDot1");
        lemma_spelling("KeyBrlDot1"@);
    }
    assert(spelled("KeyBrlDot2"@, 469590073004724744907int, false)) by {
        reveal_strlit("KeyBrlDot2");
        lemma_spelling("KeyBrlDot2"@);
    }
    assert(spelled("KeyBrlDot3"@, 478813445041579520715int, false)) by {
        reveal_strlit("KeyBrlDot3");
        lemma_spelling("KeyBrlDot3"@);
    }
    assert(spelled("KeyBrlDot4"@, 488036817078434296523int, false)) by {
        reveal_strlit("KeyBrlDot4");
        lemma_spelling("KeyBrlDot4"@);
    }
    assert(spelled("KeyBrlDot5"@, 497260189115289072331int, false)) by {
        reveal_strlit("KeyBrlDot5");
        lemma_spelling("KeyBrlDot5"@);
    }
    assert(spelled("KeyBrlDot6"@, 506483561152143848139int, false)) by {
        reveal_strlit("KeyBrlDot6");
        lemma_spelling("KeyBrlDot6"@);
    }
    assert(spelled("KeyBrlDot7"@, 515706933188998623947int, false)) by {
        reveal_strlit("KeyBrlDot7");
        lemma_spelling("KeyBrlDot7"@);
    }
    assert(spelled("KeyBrlDot8"@, 524930305225853399755int, false)) by {
        reveal_strlit("KeyBrlDot8");
        lemma_spelling("KeyBrlDot8"@);
    }
    assert(spelled("KeyBrlDot9"@, 534153677262708175563int, false)) by {
        reveal_strlit("KeyBrlDot9");
        lemma_spelling("KeyBrlDot9"@);
    }
    assert(spelled("KeyBrlDot10"@, 57128764495403612533451int, false)) by {
        reveal_strlit("KeyBrlDot10");
        lemma_spelling("KeyBrlDot10"@);
    }
}

/// How the names of the keys are spelled whose codes lie from 0x200 up to, not
/// including, 0x240.
proof fn lemma_names_from_200()
    ensures
        spelled("KeyNumeric0"@, 57589142297732519457483int, false),
        spelled("KeyNumeric1"@, 58769733918449930760907int, false),
        spelled("KeyNumeric2"@, 59950325539167342064331int, false),
        spelled("KeyNumeric3"@, 61130917159884753367755int, false),
        spelled("KeyNumeric4"@, 62311508780602164671179int, false),
        spelled("KeyNumeric5"@, 63492100401319575974603int, false),
        spelled("KeyNumeric6"@, 64672692022036987278027int, false),
        spelled("KeyNumeric7"@, 65853283642754398581451int, false),
        spelled("KeyNumeric8"@, 67033875263471809884875int, false),
        spelled("KeyNumeric9"@, 68214466884189221188299int, false),
        spelled("KeyNumericStar"@, 284144210163342042121092625099int, false),
        spelled("KeyNumericPound"@, 31965891792696658597379917640395int, false),
        spelled("KeyCameraFocus"@, 287004410325333933180833395403int, false),
        spelled("KeyWpsButton"@, 16754854025597364599681739int, false),
        spelled("KeyTouchpadToggle"@, 528835882364875259688709025584542411int, false),
        spelled("KeyTouchpadOn"@, 2139766546949037910698914507int, false),
        spelled("KeyTouchpadOff"@, 254524792056255941455757865675int, false),
        spelled("KeyCameraZoomIn"@, 35043256024369956721395140293323int, false),
        spelled("KeyCameraZoomOut"@, 4742795527902428321093075458749131int, false),
        spelled("KeyCameraUp"@, 133017302354373180814027int, false),
        spelled("KeyCameraDown"@, 2145823894001923985694945995int, false),
        spelled("KeyCameraLeft"@, 2259300073189016420195660491int, false),
        spelled("KeyCameraRight"@, 289229431323465398314669601483int, false),
        spelled("KeyAttendantOn"@, 273892551070174462486199038667int, false),
        spelled("KeyAttendantOff"@, 32579175816261458116253744788171int, false),
        spelled("KeyAttendantToggle"@, 67690992942706466300852365191559410379int, false),
        spelled("KeyLightsToggle"@, 32277580710747872511602158629579int, false),
        spelled("BtnDpadUp"@, 8118744446043667010int, false),
        spelled("BtnDpadDown"@, 130970696668003759274562int, false),
        spelled("BtnDpadLeft"@, 137896732995340943997506int, false),
        spelled("BtnDpadRight"@, 17653163532938967768611394int, false),
        spelled("KeyAlsToggle"@, 15391149859785016935871179int, false),
{
    assert(spelled("KeyNumeric0"@, 57589142297732519457483int, false)) by {
        reveal_strlit("KeyNumeric0");
        lemma_spelling("KeyNumeric0"@);
    }
    assert(spelled("KeyNumeric1"@, 58769733918449930760907int, false)) by {
        reveal_strlit("KeyNumeric1");
        lemma_spelling("KeyNumeric1"@);
    }
    assert(spelled("KeyNumeric2"@, 59950325539167342064331int, false)) by {
        reveal_strlit("KeyNumeric2");
        lemma_spelling("KeyNumeric2"@);
    }
    assert(spelled("KeyNumeric3"@, 61130917159884753367755int, false)) by {
        reveal_strlit("KeyNumeric3");
        lemma_spelling("KeyNumeric3"@);
    }
    assert(spelled("KeyNumeric4"@, 62311508780602164671179int, false)) by {
        reveal_strlit("KeyNumeric4");
        lemma_spelling("KeyNumeric4"@);
    }
    assert(spelled("KeyNumeric5"@, 63492100401319575974603int, false)) by {
        reveal_strlit("KeyNumeric5");
        lemma_spelling("KeyNumeric5"@);
    }
    assert(spelled("KeyNumeric6"@, 64672692022036987278027int, false)) by {
        reveal_strlit("KeyNumeric6");
        lemma_spelling("KeyNumeric6"@);
    }
    assert(spelled("KeyNumeric7"@, 65853283642754398581451int, false)) by {
        reveal_strlit("KeyNumeric7");
        lemma_spelling("KeyNumeric7"@);
    }
    assert(spelled("KeyNumeric8"@, 67033875263471809884875int, false)) by {
        reveal_strlit("KeyNumeric8");
        lemma_spelling("KeyNumeric8"@);
    }
    assert(spelled("KeyNumeric9"@, 68214466884189221188299int, false)) by {
        reveal_strlit("KeyNumeric9");
        lemma_spelling("KeyNumeric9"@);
    }
    assert(spelled("KeyNumericStar"@, 284144210163342042121092625099int, false)) by {
        reveal_strlit("KeyNumericStar");
        lemma_spelling("KeyNumericStar"@);
    }
    assert(spelled("KeyNumericPound"@, 31965891792696658597379917640395int, false)) by {
        reveal_strlit("KeyNumericPound");
        lemma_spelling("KeyNumericPound"@);
    }
    assert(spelled("KeyCameraFocus"@, 287004410325333933180833395403int, false)) by {
        reveal_strlit("KeyCameraFocus");
        lemma_spelling("KeyCameraFocus"@);
    }
    assert(spelled("KeyWpsButton"@, 16754854025597364599681739int, false)) by {
        reveal_strlit("KeyWpsButton");
        lemma_spelling("KeyWpsButton"@);
    }
    assert(spelled("KeyTouchpadToggle"@, 528835882364875259688709025584542411int, false)) by {
        reveal_strlit("KeyTouchpadToggle");
        lemma_spelling("KeyTouchpadToggle"@);
    }
    assert(spelled("KeyTouchpadOn"@, 2139766546949037910698914507int, false)) by {
        reveal_strlit("KeyTouchpadOn");
        lemma_spelling("KeyTouchpadOn"@);
    }
    assert(spelled("KeyTouchpadOff"@, 254524792056255941455757865675int, false)) by {
        reveal_strlit("KeyTouchpadOff");
        lemma_spelling("KeyTouchpadOff"@);
    }
    assert(spelled("KeyCameraZoomIn"@, 35043256024369956721395140293323int, false)) by {
        reveal_strlit("KeyCameraZoomIn");
        lemma_spelling("KeyCameraZoomIn"@);
    }
    assert(spelled("KeyCameraZoomOut"@, 4742795527902428321093075458749131int, false)) by {
        reveal_strlit("KeyCameraZoomOut");
        lemma_spelling("KeyCameraZoomOut"@);
    }
    assert(spelled("KeyCameraUp"@, 133017302354373180814027int, false)) by {
        reveal_strlit("KeyCameraUp");
        lemma_spelling("KeyCameraUp"@);
    }
    assert(spelled("KeyCameraDown"@, 2145823894001923985694945995int, false)) by {
        reveal_strlit("KeyCameraDown");
        lemma_spelling("KeyCameraDown"@);
    }
    assert(spelled("KeyCameraLeft"@, 2259300073189016420195660491int, false)) by {
        reveal_strlit("KeyCameraLeft");
        lemma_spelling("KeyCameraLeft"@);
    }
    assert(spelled("KeyCameraRight"@, 289229431323465398314669601483int, false)) by {
        reveal_strlit("KeyCameraRight");
        lemma_spelling("KeyCameraRight"@);
    }
    assert(spelled("KeyAttendantOn"@, 273892551070174462486199038667int, false)) by {
        reveal_strlit("KeyAttendantOn");
        lemma_spelling("KeyAttendantOn"@);
    }
    assert(spelled("KeyAttendantOff"@, 32579175816261458116253744788171int, false)) by {
        reveal_strlit("KeyAttendantOff");
        lemma_spelling("KeyAttendantOff"@);
    }
    assert(spelled("KeyAttendantToggle"@, 67690992942706466300852365191559410379int, false)) by {
        reveal_strlit("KeyAttendantToggle");
        lemma_spelling("KeyAttendantToggle"@);
    }
    assert(spelled("KeyLightsToggle"@, 32277580710747872511602158629579int, false)) by {
        reveal_strlit("KeyLightsToggle");
        lemma_spelling("KeyLightsToggle"@);
    }
    assert(spelled("BtnDpadUp"@, 8118744446043667010int, false)) by {
        reveal_strlit("BtnDpadUp");
        lemma_spelling("BtnDpadUp"@);
    }
    assert(spelled("BtnDpadDown"@, 130970696668003759274562int, false)) by {
        reveal_strlit("BtnDpadDown");
        lemma_spelling("BtnDpadDown"@);
    }
    assert(spelled("BtnDpadLeft"@, 137896732995340943997506int, false)) by {
        reveal_strlit("BtnDpadLeft");
        lemma_spelling("BtnDpadLeft"@);
    }
    assert(spelled("BtnDpadRight"@, 17653163532938967768611394int, false)) by {
        reveal_strlit("BtnDpadRight");
        lemma_spelling("BtnDpadRight"@);
    }
    assert(spelled("KeyAlsToggle"@, 15391149859785016935871179int, false)) by {
        reveal_strlit("KeyAlsToggle");
        lemma_spelling("KeyAlsToggle"@);
    }
}

/// How the names of the keys are spelled whose codes lie from 0x240 up to, not
/// including, 0x280.
proof fn lemma_names_from_240()
    ensures
        spelled("KeyButtonConfig"@, 32903960085466092885314795107019int, false),
        spelled("KeyTaskManager"@, 284219633540483023753527063243int, false),
        spelled("KeyJournal"@, 1003176196524216316619int, false),
        spelled("KeyControlPanel"@, 34478772557217442151255861261003int, false),
        spelled("KeyAppSelect"@, 17647242354885886830605003int, false),
        spelled("KeyScreenSaver"@, 284221900028313989287421833931int, false),
        spelled("KeyVoiceCommand"@, 31965504668548018961775941546699int, false),
        spelled("KeyBrightnessMin"@, 4495598825747487953798847480623819int, false),
        spelled("KeyBrightnessMax"@, 4898711716620064903474799099933387int, false),
        spelled("KeyKbdinputassistPrev"@, 165577540272633849518147856636010191187243723int, false),
        spelled("KeyKbdinputassistNext"@, 162995731554984963376319494741966447544529611int, false),
        spelled("KeyKbdinputassistPrevgroup"@, 5407836365276616748440782949625651255678073870439314123int, false),
        spelled("KeyKbdinputassistNextgroup"@, 5407836365274034939723134063483822893784030126796600011int, false),
        spelled("KeyKbdinputassistAccept"@, 2669095045294544603779457260336119019888424415947int, false),
        spelled("KeyKbdinputassistCancel"@, 2484442207068142428545303644322884824900524995275int, false),
{
    assert(spelled("KeyButtonConfig"@, 32903960085466092885314795107019int, false)) by {
        reveal_strlit("KeyButtonConfig");
        lemma_spelling("KeyButtonConfig"@);
    }
    assert(spelled("KeyTaskManager"@, 284219633540483023753527063243int, false)) by {
        reveal_strlit("KeyTaskManager");
        lemma_spelling("KeyTaskManager"@);
    }
    assert(spelled("KeyJournal"@, 1003176196524216316619int, false)) by {
        reveal_strlit("KeyJournal");
        lemma_spelling("KeyJournal"@);
    }
    assert(spelled("KeyControlPanel"@, 34478772557217442151255861261003int, false)) by {
        reveal_strlit("KeyControlPanel");
        lemma_spelling("KeyControlPanel"@);
    }
    assert(spelled("KeyAppSelect"@, 17647242354885886830605003int, false)) by {
        reveal_strlit("KeyAppSelect");
        lemma_spelling("KeyAppSelect"@);
    }
    assert(spelled("KeyScreenSaver"@, 284221900028313989287421833931int, false)) by {
        reveal_strlit("KeyScreenSaver");
        lemma_spelling("KeyScreenSaver"@);
    }
    assert(spelled("KeyVoiceCommand"@, 31965504668548018961775941546699int, false)) by {
        reveal_strlit("KeyVoiceCommand");
        lemma_spelling("KeyVoiceCommand"@);
    }
    assert(spelled("KeyBrightnessMin"@, 4495598825747487953798847480623819int, false)) by {
        reveal_strlit("KeyBrightnessMin");
        lemma_spelling("KeyBrightnessMin"@);
    }
    assert(spelled("KeyBrightnessMax"@, 4898711716620064903474799099933387int, false)) by {
        reveal_strlit("KeyBrightnessMax");
        lemma_spelling("KeyBrightnessMax"@);
    }
    assert(spelled("KeyKbdinputassistPrev"@, 165577540272633849518147856636010191187243723int, false)) by {
        reveal_strlit("KeyKbdinputassistPrev");
        lemma_spelling("KeyKbdinputassistPrev"@);
    }
    assert(spelled("KeyKbdinputassistNext"@, 162995731554984963376319494741966447544529611int, false)) by {
        reveal_strlit("KeyKbdinputassistNext");
        lemma_spelling("KeyKbdinputassistNext"@);
    }
    assert(spelled("KeyKbdinputassistPrevgroup"@, 5407836365276616748440782949625651255678073870439314123int, false)) by {
        reveal_strlit("KeyKbdinputassistPrevgroup");
        lemma_spelling("KeyKbdinputassistPrevgroup"@);
    }
    assert(spelled("KeyKbdinputassistNextgroup"@, 5407836365274034939723134063483822893784030126796600011int, false)) by {
        reveal_strlit("KeyKbdinputassistNextgroup");
        lemma_spelling("KeyKbdinputassistNextgroup"@);
    }
    assert(spelled("KeyKbdinputassistAccept"@, 2669095045294544603779457260336119019888424415947int, false)) by {
        reveal_strlit("KeyKbdinputassistAccept");
        lemma_spelling("KeyKbdinputassistAccept"@);
    }
    assert(spelled("KeyKbdinputassistCancel"@, 2484442207068142428545303644322884824900524995275int, false)) by {
        reveal_strlit("KeyKbdinputassistCancel");
        lemma_spelling("KeyKbdinputassistCancel"@);
    }
}

/// How the names of the keys are spelled whose codes lie from 0x2c0 up to, not
/// including, 0x300.
proof fn lemma_names_from_2c0()
    ensures
        spelled("BtnTriggerHappy1"@, 2026302051522923275727878552795714int, false),
        spelled("BtnTriggerHappy2"@, 2066866870730226616575773055367746int, false),
        spelled("BtnTriggerHappy3"@, 2107431689937529957423667557939778int, false),
        spelled("BtnTriggerHappy4"@, 2147996509144833298271562060511810int, false),
        spelled("BtnTriggerHappy5"@, 2188561328352136639119456563083842int, false),
        spelled("BtnTriggerHappy6"@, 2229126147559439979967351065655874int, false),
        spelled("BtnTriggerHappy7"@, 2269690966766743320815245568227906int, false),
        spelled("BtnTriggerHappy8"@, 2310255785974046661663140070799938int, false),
        spelled("BtnTriggerHappy9"@, 2350820605181350002511034573371970int, false),
        spelled("BtnTriggerHappy10"@, 251256551261194649445191702355360322int, false),
        spelled("BtnTriggerHappy11"@, 256448848119729477073722198684580418int, false),
        spelled("BtnTriggerHappy12"@, 261641144978264304702252695013800514int, false),
        spelled("BtnTriggerHappy13"@, 266833441836799132330783191343020610int, false),
        spelled("BtnTriggerHappy14"@, 272025738695333959959313687672240706int, false),
        spelled("BtnTriggerHappy15"@, 277218035553868787587844184001460802int, false),
        spelled("BtnTriggerHappy16"@, 282410332412403615216374680330680898int, false),
        spelled("BtnTriggerHappy17"@, 287602629270938442844905176659900994int, false),
        spelled("BtnTriggerHappy18"@, 292794926129473270473435672989121090int, false),
        spelled("BtnTriggerHappy19"@, 297987222988008098101966169318341186int, false),
        spelled("BtnTriggerHappy20"@, 251297116080401952786039596857932354int, false),
        spelled("BtnTriggerHappy21"@, 256489412938936780414570093187152450int, false),
        spelled("BtnTriggerHappy22"@, 261681709797471608043100589516372546int, false),
        spelled("BtnTriggerHappy23"@, 266874006656006435671631085845592642int, false),
        spelled("BtnTriggerHappy24"@, 272066303514541263300161582174812738int, false),
        spelled("BtnTriggerHappy25"@, 277258600373076090928692078504032834int, false),
        spelled("BtnTriggerHappy26"@, 282450897231610918557222574833252930int, false),
        spelled("BtnTriggerHappy27"@, 287643194090145746185753071162473026int, false),
        spelled("BtnTriggerHappy28"@, 292835490948680573814283567491693122int, false),
        spelled("BtnTriggerHappy29"@, 298027787807215401442814063820913218int, false),
        spelled("BtnTriggerHappy30"@, 251337680899609256126887491360504386int, false),
        spelled("BtnTriggerHappy31"@, 256529977758144083755417987689724482int, false),
        spelled("BtnTriggerHappy32"@, 261722274616678911383948484018944578int, false),
        spelled("BtnTriggerHappy33"@, 266914571475213739012478980348164674int, false),
        spelled("BtnTriggerHappy34"@, 272106868333748566641009476677384770int, false),
        spelled("BtnTriggerHappy35"@, 277299165192283394269539973006604866int, false),
        spelled("BtnTriggerHappy36"@, 282491462050818221898070469335824962int, false),
        spelled("BtnTriggerHappy37"@, 287683758909353049526600965665045058int, false),
        spelled("BtnTriggerHappy38"@, 292876055767887877155131461994265154int, false),
        spelled("BtnTriggerHappy39"@, 298068352626422704783661958323485250int, false),
        spelled("BtnTriggerHappy40"@, 251378245718816559467735385863076418int, false),
        spelled("KeyMax"@, 4149370319563int, false),
{
    assert(spelled("BtnTriggerHappy1"@, 2026302051522923275727878552795714int, false)) by {
        reveal_strlit("BtnTriggerHappy1");
        lemma_spelling("BtnTriggerHappy1"@);
    }
    assert(spelled("BtnTriggerHappy2"@, 2066866870730226616575773055367746int, false)) by {
        reveal_strlit("BtnTriggerHappy2");
        lemma_spelling("BtnTriggerHappy2"@);
    }
    assert(spelled("BtnTriggerHappy3"@, 2107431689937529957423667557939778int, false)) by {
        reveal_strlit("BtnTriggerHappy3");
        lemma_spelling("BtnTriggerHappy3"@);
    }
    assert(spelled("BtnTriggerHappy4"@, 2147996509144833298271562060511810int, false)) by {
        reveal_strlit("BtnTriggerHappy4");
        lemma_spelling("BtnTriggerHappy4"@);
    }
    assert(spelled("BtnTriggerHappy5"@, 2188561328352136639119456563083842int, false)) by {
        reveal_strlit("BtnTriggerHappy5");
        lemma_spelling("BtnTriggerHappy5"@);
    }
    assert(spelled("BtnTriggerHappy6"@, 2229126147559439979967351065655874int, false)) by {
        reveal_strlit("BtnTriggerHappy6");
        lemma_spelling("BtnTriggerHappy6"@);
    }
    assert(spelled("BtnTriggerHappy7"@, 2269690966766743320815245568227906int, false)) by {
        reveal_strlit("BtnTriggerHappy7");
        lemma_spelling("BtnTriggerHappy7"@);
    }
    assert(spelled("BtnTriggerHappy8"@, 2310255785974046661663140070799938int, false)) by {
        reveal_strlit("BtnTriggerHappy8");
        lemma_spelling("BtnTriggerHappy8"@);
    }
    assert(spelled("BtnTriggerHappy9"@, 2350820605181350002511034573371970int, false)) by {
        reveal_strlit("BtnTriggerHappy9");
        lemma_spelling("BtnTriggerHappy9"@);
    }
    assert(spelled("BtnTriggerHappy10"@, 251256551261194649445191702355360322int, false)) by {
        reveal_strlit("BtnTriggerHappy10");
        lemma_spelling("BtnTriggerHappy10"@);
    }
    assert(spelled("BtnTriggerHappy11"@, 256448848119729477073722198684580418int, false)) by {
        reveal_strlit("BtnTriggerHappy11");
        lemma_spelling("BtnTriggerHappy11"@);
    }
    assert(spelled("BtnTriggerHappy12"@, 261641144978264304702252695013800514int, false)) by {
        reveal_strlit("BtnTriggerHappy12");
        lemma_spelling("BtnTriggerHappy12"@);
    }
    assert(spelled("BtnTriggerHappy13"@, 266833441836799132330783191343020610int, false)) by {
        reveal_strlit("BtnTriggerHappy13");
        lemma_spelling("BtnTriggerHappy13"@);
    }
    assert(spelled("BtnTriggerHappy14"@, 272025738695333959959313687672240706int, false)) by {
        reveal_strlit("BtnTriggerHappy14");
        lemma_spelling("BtnTriggerHappy14"@);
    }
    assert(spelled("BtnTriggerHappy15"@, 277218035553868787587844184001460802int, false)) by {
        reveal_strlit("BtnTriggerHappy15");
        lemma_spelling("BtnTriggerHappy15"@);
    }
    assert(spelled("BtnTriggerHappy16"@, 282410332412403615216374680330680898int, false)) by {
        reveal_strlit("BtnTriggerHappy16");
        lemma_spelling("BtnTriggerHappy16"@);
    }
    assert(spelled("BtnTriggerHappy17"@, 287602629270938442844905176659900994int, false)) by {
        reveal_strlit("BtnTriggerHappy17");
        lemma_spelling("BtnTriggerHappy17"@);
    }
    assert(spelled("BtnTriggerHappy18"@, 292794926129473270473435672989121090int, false)) by {
        reveal_strlit("BtnTriggerHappy18");
        lemma_spelling("BtnTriggerHappy18"@);
    }
    assert(spelled("BtnTriggerHappy19"@, 297987222988008098101966169318341186int, false)) by {
        reveal_strlit("BtnTriggerHappy19");
        lemma_spelling("BtnTriggerHappy19"@);
    }
    assert(spelled("BtnTriggerHappy20"@, 251297116080401952786039596857932354int, false)) by {
        reveal_strlit("BtnTriggerHappy20");
        lemma_spelling("BtnTriggerHappy20"@);
    }
    assert(spelled("BtnTriggerHappy21"@, 256489412938936780414570093187152450int, false)) by {
        reveal_strlit("BtnTriggerHappy21");
        lemma_spelling("BtnTriggerHappy21"@);
    }
    assert(spelled("BtnTriggerHappy22"@, 261681709797471608043100589516372546int, false)) by {
        reveal_strlit("BtnTriggerHappy22");
        lemma_spelling("BtnTriggerHappy22"@);
    }
    assert(spelled("BtnTriggerHappy23"@, 266874006656006435671631085845592642int, false)) by {
        reveal_strlit("BtnTriggerHappy23");
        lemma_spelling("BtnTriggerHappy23"@);
    }
    assert(spelled("BtnTriggerHappy24"@, 272066303514541263300161582174812738int, false)) by {
        reveal_strlit("BtnTriggerHappy24");
        lemma_spelling("BtnTriggerHappy24"@);
    }
    assert(spelled("BtnTriggerHappy25"@, 277258600373076090928692078504032834int, false)) by {
        reveal_strlit("BtnTriggerHappy25");
        lemma_spelling("BtnTriggerHappy25"@);
    }
    assert(spelled("BtnTriggerHappy26"@, 282450897231610918557222574833252930int, false)) by {
        reveal_strlit("BtnTriggerHappy26");
        lemma_spelling("BtnTriggerHappy26"@);
    }
    assert(spelled("BtnTriggerHappy27"@, 287643194090145746185753071162473026int, false)) by {
        reveal_strlit("BtnTriggerHappy27");
        lemma_spelling("BtnTriggerHappy27"@);
    }
    assert(spelled("BtnTriggerHappy28"@, 292835490948680573814283567491693122int, false)) by {
        reveal_strlit("BtnTriggerHappy28");
        lemma_spelling("BtnTriggerHappy28"@);
    }
    assert(spelled("BtnTriggerHappy29"@, 298027787807215401442814063820913218int, false)) by {
        reveal_strlit("BtnTriggerHappy29");
        lemma_spelling("BtnTriggerHappy29"@);
    }
    assert(spelled("BtnTriggerHappy30"@, 251337680899609256126887491360504386int, false)) by {
        reveal_strlit("BtnTriggerHappy30");
        lemma_spelling("BtnTriggerHappy30"@);
    }
    assert(spelled("BtnTriggerHappy31"@, 256529977758144083755417987689724482int, false)) by {
        reveal_strlit("BtnTriggerHappy31");
        lemma_spelling("BtnTriggerHappy31"@);
    }
    assert(spelled("BtnTriggerHappy32"@, 261722274616678911383948484018944578int, false)) by {
        reveal_strlit("BtnTriggerHappy32");
        lemma_spelling("BtnTriggerHappy32"@);
    }
    assert(spelled("BtnTriggerHappy33"@, 266914571475213739012478980348164674int, false)) by {
        reveal_strlit("BtnTriggerHappy33");
        lemma_spelling("BtnTriggerHappy33"@);
    }
    assert(spelled("BtnTriggerHappy34"@, 272106868333748566641009476677384770int, false)) by {
        reveal_strlit("BtnTriggerHappy34");
        lemma_spelling("BtnTriggerHappy34"@);
    }
    assert(spelled("BtnTriggerHappy35"@, 277299165192283394269539973006604866int, false)) by {
        reveal_strlit("BtnTriggerHappy35");
        lemma_spelling("BtnTriggerHappy35"@);
    }
    assert(spelled("BtnTriggerHappy36"@, 282491462050818221898070469335824962int, false)) by {
        reveal_strlit("BtnTriggerHappy36");
        lemma_spelling("BtnTriggerHappy36"@);
    }
    assert(spelled("BtnTriggerHappy37"@, 287683758909353049526600965665045058int, false)) by {
        reveal_strlit("BtnTriggerHappy37");
        lemma_spelling("BtnTriggerHappy37"@);
    }
    assert(spelled("BtnTriggerHappy38"@, 292876055767887877155131461994265154int, false)) by {
        reveal_strlit("BtnTriggerHappy38");
        lemma_spelling("BtnTriggerHappy38"@);
    }
    assert(spelled("BtnTriggerHappy39"@, 298068352626422704783661958323485250int, false)) by {
        reveal_strlit("BtnTriggerHappy39");
        lemma_spelling("BtnTriggerHappy39"@);
    }
    assert(spelled("BtnTriggerHappy40"@, 251378245718816559467735385863076418int, false)) by {
        reveal_strlit("BtnTriggerHappy40");
        lemma_spelling("BtnTriggerHappy40"@);
    }
    assert(spelled("KeyMax"@, 4149370319563int, false)) by {
        reveal_strlit("KeyMax");
        lemma_spelling("KeyMax"@);
    }
}

/// The table of name numbers agrees with the names, the names are plain, and
/// the keys of the digits and letters are the ones with the names of that form.
proof fn lemma_names(k: Key)
    ensures
        base128(k.spec_name()) == k.name_number(),
        is_plain_name(k.spec_name()),
        k.spec_is_ascii_alpha_numeric() == is_letter_or_digit_name(k.spec_name()),
{
    lemma_names_from_000();
    lemma_names_from_040();
    lemma_names_from_080();
    lemma_names_from_0c0();
    lemma_names_from_100();
    lemma_names_from_140();
    lemma_names_from_180();
    lemma_names_from_1c0();
    lemma_names_from_200();
    lemma_names_from_240();
    lemma_names_from_2c0();
}

/// No two keys have the same name number.
proof fn lemma_name_number_injective(a: Key, b: Key)
    requires
        a.name_number() == b.name_number(),
    ensures
        a == b,
{
}

/// Two keys with the same name are the same key.
pub proof fn lemma_name_injective(a: Key, b: Key)
    requires
        a.spec_name() == b.spec_name(),
    ensures
        a == b,
{
    lemma_names(a);
    lemma_names(b);
    lemma_name_number_injective(a, b);
}

/// The keys that type a digit or a letter are the keys that are named `Key`
/// and that digit or letter.
pub proof fn lemma_letter_or_digit_names(k: Key)
    ensures
        k.spec_is_ascii_alpha_numeric() == is_letter_or_digit_name(k.spec_name()),
{
    lemma_names(k);
}

/// A key name is made of ASCII letters and digits, at least one and at most
/// [`MAX_KEY_NAME_LEN`] of them.
pub proof fn lemma_name_chars(k: Key)
    ensures
        0 < k.spec_name().len() <= MAX_KEY_NAME_LEN,
        forall|i: int| 0 <= i < k.spec_name().len() ==> is_name_char(#[trigger] k.spec_name()[i]),
{
    lemma_names(k);
    reveal(is_plain_name);
    let s = k.spec_name();
    assert forall|i: int| 0 <= i < s.len() implies is_name_char(#[trigger] s[i]) by {
        assert(i == 0 ==> plain_at(s, 0));
        assert(i == 1 ==> plain_at(s, 1));
        assert(i == 2 ==> plain_at(s, 2));
        assert(i == 3 ==> plain_at(s, 3));
        assert(i == 4 ==> plain_at(s, 4));
        assert(i == 5 ==> plain_at(s, 5));
        assert(i == 6 ==> plain_at(s, 6));
        assert(i == 7 ==> plain_at(s, 7));
        assert(i == 8 ==> plain_at(s, 8));
        assert(i == 9 ==> plain_at(s, 9));
        assert(i == 10 ==> plain_at(s, 10));
        assert(i == 11 ==> plain_at(s, 11));
        assert(i == 12 ==> plain_at(s, 12));
        assert(i == 13 ==> plain_at(s, 13));
        assert(i == 14 ==> plain_at(s, 14));
        assert(i == 15 ==> plain_at(s, 15));
        assert(i == 16 ==> plain_at(s, 16));
        assert(i == 17 ==> plain_at(s, 17));
        assert(i == 18 ==> plain_at(s, 18));
        assert(i == 19 ==> plain_at(s, 19));
        assert(i == 20 ==> plain_at(s, 20));
        assert(i == 21 ==> plain_at(s, 21));
        assert(i == 22 ==> plain_at(s, 22));
        assert(i == 23 ==> plain_at(s, 23));
        assert(i == 24 ==> plain_at(s, 24));
        assert(i == 25 ==> plain_at(s, 25));
    }
}

} // verus!
