//! The key and button codes of the kernel input layer.

use crate::key_names::{is_letter_or_digit_name, lemma_letter_or_digit_names};
use vstd::prelude::*;

verus! {

/// The highest code that any [`Key`] has.
pub const MAX_KEY_CODE: u16 = 0x2ff;

/// A key or button, named after its code in the kernel input layer.
#[derive(Clone, Copy, Debug, Hash, PartialEq, Eq, Structural)]
pub enum Key {
    KeyReserved,
    KeyEsc,
    Key1,
    Key2,
    Key3,
    Key4,
    Key5,
    Key6,
    Key7,
    Key8,
    Key9,
    Key0,
    KeyMinus,
    KeyEqual,
    KeyBackspace,
    KeyTab,
    KeyQ,
    KeyW,
    KeyE,
    KeyR,
    KeyT,
    KeyY,
    KeyU,
    KeyI,
    KeyO,
    KeyP,
    KeyLeftBrace,
    KeyRightBrace,
    KeyEnter,
    KeyLeftCtrl,
    KeyA,
    KeyS,
    KeyD,
    KeyF,
    KeyG,
    KeyH,
    KeyJ,
    KeyK,
    KeyL,
    KeySemicolon,
    KeyApostrophe,
    KeyGrave,
    KeyLeftShift,
    KeyBackslash,
    KeyZ,
    KeyX,
    KeyC,
    KeyV,
    KeyB,
    KeyN,
    KeyM,
    KeyComma,
    KeyDot,
    KeySlash,
    KeyRightShift,
    KeyKpAsterisk,
    KeyLeftAlt,
    KeySpace,
    KeyCapsLock,
    KeyF1,
    KeyF2,
    KeyF3,
    KeyF4,
    KeyF5,
    KeyF6,
    KeyF7,
    KeyF8,
    KeyF9,
    KeyF10,
    KeyNumLock,
    KeyScrollLock,
    KeyKp7,
    KeyKp8,
    KeyKp9,
    KeyKpMinus,
    KeyKp4,
    KeyKp5,
    KeyKp6,
    KeyKpPlus,
    KeyKp1,
    KeyKp2,
    KeyKp3,
    KeyKp0,
    KeyKpDot,
    KeyZenkakuhankaku,
    Key102nd,
    KeyF11,
    KeyF12,
    KeyRo,
    KeyKatakana,
    KeyHiragana,
    KeyHenkan,
    KeyKatakanahiragana,
    KeyMuhenkan,
    KeyKpJpComma,
    KeyKpEnter,
    KeyRightCtrl,
    KeyKpSlash,
    KeySysRQ,
    KeyRightAlt,
    KeyLinefeed,
    KeyHome,
    KeyUp,
    KeyPageup,
    KeyLeft,
    KeyRight,
    KeyEnd,
    KeyDown,
    KeyPagedown,
    KeyInsert,
    KeyDelete,
    KeyMacro,
    KeyMute,
    KeyVolumeDown,
    KeyVolumeUp,
    KeyPower,
    KeyKpEqual,
    KeyKpPlusMinus,
    KeyPause,
    KeyScale,
    KeyKpComma,
    KeyHangeul,
    KeyHanja,
    KeyYen,
    KeyLeftMeta,
    KeyRightMeta,
    KeyCompose,
    KeyStop,
    KeyAgain,
    KeyProps,
    KeyUndo,
    KeyFront,
    KeyCopy,
    KeyOpen,
    KeyPaste,
    KeyFind,
    KeyCut,
    KeyHelp,
    KeyMenu,
    KeyCalc,
    KeySetup,
    KeySleep,
    KeyWakeup,
    KeyFile,
    KeySendfile,
    KeyDeleteFile,
    KeyXfer,
    KeyProg1,
    KeyProg2,
    KeyWww,
    KeyMsDos,
    KeyCoffee,
    KeyDirection,
    KeyCycleWindows,
    KeyMail,
    KeyBookmarks,
    KeyComputer,
    KeyBack,
    KeyForward,
    KeyCloseCd,
    KeyEjectCd,
    KeyEjectCloseCd,
    KeyNextSong,
    KeyPlayPause,
    KeyPreviousSong,
    KeyStopCd,
    KeyRecord,
    KeyRewind,
    KeyPhone,
    KeyIso,
    KeyConfig,
    KeyHomepage,
    KeyRefresh,
    KeyExit,
    KeyMove,
    KeyEdit,
    KeyScrollUp,
    KeyScrollDown,
    KeyKpLeftParen,
    KeyKpRightParen,
    KeyNew,
    KeyRedo,
    KeyF13,
    KeyF14,
    KeyF15,
    KeyF16,
    KeyF17,
    KeyF18,
    KeyF19,
    KeyF20,
    KeyF21,
    KeyF22,
    KeyF23,
    KeyF24,
    KeyPlayCd,
    KeyPauseCd,
    KeyProg3,
    KeyProg4,
    KeyDashboard,
    KeySuspend,
    KeyClose,
    KeyPlay,
    KeyFastForward,
    KeyBassBoost,
    KeyPrint,
    KeyHp,
    KeyCamera,
    KeySound,
    KeyQuestion,
    KeyEmail,
    KeyChat,
    KeySearch,
    KeyConnect,
    KeyFinance,
    KeySport,
    KeyShop,
    KeyAltErase,
    KeyCancel,
    KeyBrightnessDown,
    KeyBrightnessUp,
    KeyMedia,
    KeySwitchVideoMode,
    KeyKbDillumToggle,
    KeyKbDillumDown,
    KeyKbDillumUp,
    KeySend,
    KeyReply,
    KeyForwardMail,
    KeySave,
    KeyDocuments,
    KeyBattery,
    KeyBluetooth,
    KeyWlan,
    KeyUwb,
    KeyUnknown,
    KeyVideoNext,
    KeyVideoPrev,
    KeyBrightnessCycle,
    KeyBrightnessAuto,
    KeyDisplayOff,
    KeyWwan,
    KeyRfKill,
    KeyMicMute,
    Btn0,
    Btn1,
    Btn2,
    Btn3,
    Btn4,
    Btn5,
    Btn6,
    Btn7,
    Btn8,
    Btn9,
    BtnLeft,
    BtnRight,
    BtnMiddle,
    BtnSide,
    BtnExtra,
    BtnForward,
    BtnBack,
    BtnTask,
    BtnTrigger,
    BtnThumb,
    BtnThumb2,
    BtnTop,
    BtnTop2,
    BtnPinkie,
    BtnBase,
    BtnBase2,
    BtnBase3,
    BtnBase4,
    BtnBase5,
    BtnBase6,
    BtnDead,
    BtnSouth,
    BtnEast,
    BtnC,
    BtnNorth,
    BtnWest,
    BtnZ,
    BtnTl,
    BtnTr,
    BtnTl2,
    BtnTr2,
    BtnSelect,
    BtnStart,
    BtnMode,
    BtnThumbL,
    BtnThumbR,
    BtnToolPen,
    BtnToolRubber,
    BtnToolBrush,
    BtnToolPencil,
    BtnToolAirbrush,
    BtnToolFinger,
    BtnToolMouse,
    BtnToolLens,
    BtnToolQuintTap,
    BtnTouch,
    BtnStylus,
    BtnStylus2,
    BtnToolDoubleTap,
    BtnToolTripleTap,
    BtnToolQuadTap,
    BtnGearDown,
    BtnGearUp,
    KeyOk,
    KeySelect,
    KeyGoto,
    KeyClear,
    KeyPower2,
    KeyOption,
    KeyInfo,
    KeyTime,
    KeyVendor,
    KeyArchive,
    KeyProgram,
    KeyChannel,
    KeyFavorites,
    KeyEpg,
    KeyPvr,
    KeyMhp,
    KeyLanguage,
    KeyTitle,
    KeySubtitle,
    KeyAngle,
    KeyZoom,
    KeyMode,
    KeyKeyboard,
    KeyScreen,
    KeyPc,
    KeyTv,
    KeyTv2,
    KeyVcr,
    KeyVcr2,
    KeySat,
    KeySat2,
    KeyCd,
    KeyTape,
    KeyRadio,
    KeyTuner,
    KeyPlayer,
    KeyText,
    KeyDvd,
    KeyAux,
    KeyMp3,
    KeyAudio,
    KeyVideo,
    KeyDirectory,
    KeyList,
    KeyMemo,
    KeyCalendar,
    KeyRed,
    KeyGreen,
    KeyYellow,
    KeyBlue,
    KeyChannelUp,
    KeyChannelDown,
    KeyFirst,
    KeyLast,
    KeyAb,
    KeyNext,
    KeyRestart,
    KeySlow,
    KeyShuffle,
    KeyBreak,
    KeyPrevious,
    KeyDigits,
    KeyTeen,
    KeyTwen,
    KeyVideophone,
    KeyGames,
    KeyZoomIn,
    KeyZoomOut,
    KeyZoomReset,
    KeyWordProcessor,
    KeyEditor,
    KeySpreadsheet,
    KeyGraphicsEditor,
    KeyPresentation,
    KeyDatabase,
    KeyNews,
    KeyVoiceMail,
    KeyAddressBook,
    KeyMessenger,
    KeyDisplayToggle,
    KeySpellcheck,
    KeyLogoff,
    KeyDollar,
    KeyEuro,
    KeyFrameBack,
    KeyFrameForward,
    KeyContextMenu,
    KeyMediaRepeat,
    Key10ChannelsUp,
    Key10ChannelsDown,
    KeyImages,
    KeyDelEol,
    KeyDelEos,
    KeyInsLine,
    KeyDelLine,
    KeyFn,
    KeyFnEsc,
    KeyFnF1,
    KeyFnF2,
    KeyFnF3,
    KeyFnF4,
    KeyFnF5,
    KeyFnF6,
    KeyFnF7,
    KeyFnF8,
    KeyFnF9,
    KeyFnF10,
    KeyFnF11,
    KeyFnF12,
    KeyFn1,
    KeyFn2,
    KeyFnD,
    KeyFnE,
    KeyFnF,
    KeyFnS,
    KeyFnB,
    KeyBrlDot1,
    KeyBrlDot2,
    KeyBrlDot3,
    KeyBrlDot4,
    KeyBrlDot5,
    KeyBrlDot6,
    KeyBrlDot7,
    KeyBrlDot8,
    KeyBrlDot9,
    KeyBrlDot10,
    KeyNumeric0,
    KeyNumeric1,
    KeyNumeric2,
    KeyNumeric3,
    KeyNumeric4,
    KeyNumeric5,
    KeyNumeric6,
    KeyNumeric7,
    KeyNumeric8,
    KeyNumeric9,
    KeyNumericStar,
    KeyNumericPound,
    KeyCameraFocus,
    KeyWpsButton,
    KeyTouchpadToggle,
    KeyTouchpadOn,
    KeyTouchpadOff,
    KeyCameraZoomIn,
    KeyCameraZoomOut,
    KeyCameraUp,
    KeyCameraDown,
    KeyCameraLeft,
    KeyCameraRight,
    KeyAttendantOn,
    KeyAttendantOff,
    KeyAttendantToggle,
    KeyLightsToggle,
    BtnDpadUp,
    BtnDpadDown,
    BtnDpadLeft,
    BtnDpadRight,
    KeyAlsToggle,
    KeyButtonConfig,
    KeyTaskManager,
    KeyJournal,
    KeyControlPanel,
    KeyAppSelect,
    KeyScreenSaver,
    KeyVoiceCommand,
    KeyBrightnessMin,
    KeyBrightnessMax,
    KeyKbdinputassistPrev,
    KeyKbdinputassistNext,
    KeyKbdinputassistPrevgroup,
    KeyKbdinputassistNextgroup,
    KeyKbdinputassistAccept,
    KeyKbdinputassistCancel,
    BtnTriggerHappy1,
    BtnTriggerHappy2,
    BtnTriggerHappy3,
    BtnTriggerHappy4,
    BtnTriggerHappy5,
    BtnTriggerHappy6,
    BtnTriggerHappy7,
    BtnTriggerHappy8,
    BtnTriggerHappy9,
    BtnTriggerHappy10,
    BtnTriggerHappy11,
    BtnTriggerHappy12,
    BtnTriggerHappy13,
    BtnTriggerHappy14,
    BtnTriggerHappy15,
    BtnTriggerHappy16,
    BtnTriggerHappy17,
    BtnTriggerHappy18,
    BtnTriggerHappy19,
    BtnTriggerHappy20,
    BtnTriggerHappy21,
    BtnTriggerHappy22,
    BtnTriggerHappy23,
    BtnTriggerHappy24,
    BtnTriggerHappy25,
    BtnTriggerHappy26,
    BtnTriggerHappy27,
    BtnTriggerHappy28,
    BtnTriggerHappy29,
    BtnTriggerHappy30,
    BtnTriggerHappy31,
    BtnTriggerHappy32,
    BtnTriggerHappy33,
    BtnTriggerHappy34,
    BtnTriggerHappy35,
    BtnTriggerHappy36,
    BtnTriggerHappy37,
    BtnTriggerHappy38,
    BtnTriggerHappy39,
    BtnTriggerHappy40,
    KeyMax,
}

impl Key {
    /// The numeric code that the input layer reports for this key.
    pub open spec fn spec_code(self) -> u16 {
        match self {
            Key::KeyReserved => 0,
            Key::KeyEsc => 1,
            Key::Key1 => 2,
            Key::Key2 => 3,
            Key::Key3 => 4,
            Key::Key4 => 5,
            Key::Key5 => 6,
            Key::Key6 => 7,
            Key::Key7 => 8,
            Key::Key8 => 9,
            Key::Key9 => 10,
            Key::Key0 => 11,
            Key::KeyMinus => 12,
            Key::KeyEqual => 13,
            Key::KeyBackspace => 14,
            Key::KeyTab => 15,
            Key::KeyQ => 16,
            Key::KeyW => 17,
            Key::KeyE => 18,
            Key::KeyR => 19,
            Key::KeyT => 20,
            Key::KeyY => 21,
            Key::KeyU => 22,
            Key::KeyI => 23,
            Key::KeyO => 24,
            Key::KeyP => 25,
            Key::KeyLeftBrace => 26,
            Key::KeyRightBrace => 27,
            Key::KeyEnter => 28,
            Key::KeyLeftCtrl => 29,
            Key::KeyA => 30,
            Key::KeyS => 31,
            Key::KeyD => 32,
            Key::KeyF => 33,
            Key::KeyG => 34,
            Key::KeyH => 35,
            Key::KeyJ => 36,
            Key::KeyK => 37,
            Key::KeyL => 38,
            Key::KeySemicolon => 39,
            Key::KeyApostrophe => 40,
            Key::KeyGrave => 41,
            Key::KeyLeftShift => 42,
            Key::KeyBackslash => 43,
            Key::KeyZ => 44,
            Key::KeyX => 45,
            Key::KeyC => 46,
            Key::KeyV => 47,
            Key::KeyB => 48,
            Key::KeyN => 49,
            Key::KeyM => 50,
            Key::KeyComma => 51,
            Key::KeyDot => 52,
            Key::KeySlash => 53,
            Key::KeyRightShift => 54,
            Key::KeyKpAsterisk => 55,
            Key::KeyLeftAlt => 56,
            Key::KeySpace => 57,
            Key::KeyCapsLock => 58,
            Key::KeyF1 => 59,
            Key::KeyF2 => 60,
            Key::KeyF3 => 61,
            Key::KeyF4 => 62,
            Key::KeyF5 => 63,
            Key::KeyF6 => 64,
            Key::KeyF7 => 65,
            Key::KeyF8 => 66,
            Key::KeyF9 => 67,
            Key::KeyF10 => 68,
            Key::KeyNumLock => 69,
            Key::KeyScrollLock => 70,
            Key::KeyKp7 => 71,
            Key::KeyKp8 => 72,
            Key::KeyKp9 => 73,
            Key::KeyKpMinus => 74,
            Key::KeyKp4 => 75,
            Key::KeyKp5 => 76,
            Key::KeyKp6 => 77,
            Key::KeyKpPlus => 78,
            Key::KeyKp1 => 79,
            Key::KeyKp2 => 80,
            Key::KeyKp3 => 81,
            Key::KeyKp0 => 82,
            Key::KeyKpDot => 83,
            Key::KeyZenkakuhankaku => 85,
            Key::Key102nd => 86,
            Key::KeyF11 => 87,
            Key::KeyF12 => 88,
            Key::KeyRo => 89,
            Key::KeyKatakana => 90,
            Key::KeyHiragana => 91,
            Key::KeyHenkan => 92,
            Key::KeyKatakanahiragana => 93,
            Key::KeyMuhenkan => 94,
            Key::KeyKpJpComma => 95,
            Key::KeyKpEnter => 96,
            Key::KeyRightCtrl => 97,
            Key::KeyKpSlash => 98,
            Key::KeySysRQ => 99,
            Key::KeyRightAlt => 100,
            Key::KeyLinefeed => 101,
            Key::KeyHome => 102,
            Key::KeyUp => 103,
            Key::KeyPageup => 104,
            Key::KeyLeft => 105,
            Key::KeyRight => 106,
            Key::KeyEnd => 107,
            Key::KeyDown => 108,
            Key::KeyPagedown => 109,
            Key::KeyInsert => 110,
            Key::KeyDelete => 111,
            Key::KeyMacro => 112,
            Key::KeyMute => 113,
            Key::KeyVolumeDown => 114,
            Key::KeyVolumeUp => 115,
            Key::KeyPower => 116,
            Key::KeyKpEqual => 117,
            Key::KeyKpPlusMinus => 118,
            Key::KeyPause => 119,
            Key::KeyScale => 120,
            Key::KeyKpComma => 121,
            Key::KeyHangeul => 122,
            Key::KeyHanja => 123,
            Key::KeyYen => 124,
            Key::KeyLeftMeta => 125,
            Key::KeyRightMeta => 126,
            Key::KeyCompose => 127,
            Key::KeyStop => 128,
            Key::KeyAgain => 129,
            Key::KeyProps => 130,
            Key::KeyUndo => 131,
            Key::KeyFront => 132,
            Key::KeyCopy => 133,
            Key::KeyOpen => 134,
            Key::KeyPaste => 135,
            Key::KeyFind => 136,
            Key::KeyCut => 137,
            Key::KeyHelp => 138,
            Key::KeyMenu => 139,
            Key::KeyCalc => 140,
            Key::KeySetup => 141,
            Key::KeySleep => 142,
            Key::KeyWakeup => 143,
            Key::KeyFile => 144,
            Key::KeySendfile => 145,
            Key::KeyDeleteFile => 146,
            Key::KeyXfer => 147,
            Key::KeyProg1 => 148,
            Key::KeyProg2 => 149,
            Key::KeyWww => 150,
            Key::KeyMsDos => 151,
            Key::KeyCoffee => 152,
            Key::KeyDirection => 153,
            Key::KeyCycleWindows => 154,
            Key::KeyMail => 155,
            Key::KeyBookmarks => 156,
            Key::KeyComputer => 157,
            Key::KeyBack => 158,
            Key::KeyForward => 159,
            Key::KeyCloseCd => 160,
            Key::KeyEjectCd => 161,
            Key::KeyEjectCloseCd => 162,
            Key::KeyNextSong => 163,
            Key::KeyPlayPause => 164,
            Key::KeyPreviousSong => 165,
            Key::KeyStopCd => 166,
            Key::KeyRecord => 167,
            Key::KeyRewind => 168,
            Key::KeyPhone => 169,
            Key::KeyIso => 170,
            Key::KeyConfig => 171,
            Key::KeyHomepage => 172,
            Key::KeyRefresh => 173,
            Key::KeyExit => 174,
            Key::KeyMove => 175,
            Key::KeyEdit => 176,
            Key::KeyScrollUp => 177,
            Key::KeyScrollDown => 178,
            Key::KeyKpLeftParen => 179,
            Key::KeyKpRightParen => 180,
            Key::KeyNew => 181,
            Key::KeyRedo => 182,
            Key::KeyF13 => 183,
            Key::KeyF14 => 184,
            Key::KeyF15 => 185,
            Key::KeyF16 => 186,
            Key::KeyF17 => 187,
            Key::KeyF18 => 188,
            Key::KeyF19 => 189,
            Key::KeyF20 => 190,
            Key::KeyF21 => 191,
            Key::KeyF22 => 192,
            Key::KeyF23 => 193,
            Key::KeyF24 => 194,
            Key::KeyPlayCd => 200,
            Key::KeyPauseCd => 201,
            Key::KeyProg3 => 202,
            Key::KeyProg4 => 203,
            Key::KeyDashboard => 204,
            Key::KeySuspend => 205,
            Key::KeyClose => 206,
            Key::KeyPlay => 207,
            Key::KeyFastForward => 208,
            Key::KeyBassBoost => 209,
            Key::KeyPrint => 210,
            Key::KeyHp => 211,
            Key::KeyCamera => 212,
            Key::KeySound => 213,
            Key::KeyQuestion => 214,
            Key::KeyEmail => 215,
            Key::KeyChat => 216,
            Key::KeySearch => 217,
            Key::KeyConnect => 218,
            Key::KeyFinance => 219,
            Key::KeySport => 220,
            Key::KeyShop => 221,
            Key::KeyAltErase => 222,
            Key::KeyCancel => 223,
            Key::KeyBrightnessDown => 224,
            Key::KeyBrightnessUp => 225,
            Key::KeyMedia => 226,
            Key::KeySwitchVideoMode => 227,
            Key::KeyKbDillumToggle => 228,
            Key::KeyKbDillumDown => 229,
            Key::KeyKbDillumUp => 230,
            Key::KeySend => 231,
            Key::KeyReply => 232,
            Key::KeyForwardMail => 233,
            Key::KeySave => 234,
            Key::KeyDocuments => 235,
            Key::KeyBattery => 236,
            Key::KeyBluetooth => 237,
            Key::KeyWlan => 238,
            Key::KeyUwb => 239,
            Key::KeyUnknown => 240,
            Key::KeyVideoNext => 241,
            Key::KeyVideoPrev => 242,
            Key::KeyBrightnessCycle => 243,
            Key::KeyBrightnessAuto => 244,
            Key::KeyDisplayOff => 245,
            Key::KeyWwan => 246,
            Key::KeyRfKill => 247,
            Key::KeyMicMute => 248,
            Key::Btn0 => 0x100,
            Key::Btn1 => 0x101,
            Key::Btn2 => 0x102,
            Key::Btn3 => 0x103,
            Key::Btn4 => 0x104,
            Key::Btn5 => 0x105,
            Key::Btn6 => 0x106,
            Key::Btn7 => 0x107,
            Key::Btn8 => 0x108,
            Key::Btn9 => 0x109,
            Key::BtnLeft => 0x110,
            Key::BtnRight => 0x111,
            Key::BtnMiddle => 0x112,
            Key::BtnSide => 0x113,
            Key::BtnExtra => 0x114,
            Key::BtnForward => 0x115,
            Key::BtnBack => 0x116,
            Key::BtnTask => 0x117,
            Key::BtnTrigger => 0x120,
            Key::BtnThumb => 0x121,
            Key::BtnThumb2 => 0x122,
            Key::BtnTop => 0x123,
            Key::BtnTop2 => 0x124,
            Key::BtnPinkie => 0x125,
            Key::BtnBase => 0x126,
            Key::BtnBase2 => 0x127,
            Key::BtnBase3 => 0x128,
            Key::BtnBase4 => 0x129,
            Key::BtnBase5 => 0x12a,
            Key::BtnBase6 => 0x12b,
            Key::BtnDead => 0x12f,
            Key::BtnSouth => 0x130,
            Key::BtnEast => 0x131,
            Key::BtnC => 0x132,
            Key::BtnNorth => 0x133,
            Key::BtnWest => 0x134,
            Key::BtnZ => 0x135,
            Key::BtnTl => 0x136,
            Key::BtnTr => 0x137,
            Key::BtnTl2 => 0x138,
            Key::BtnTr2 => 0x139,
            Key::BtnSelect => 0x13a,
            Key::BtnStart => 0x13b,
            Key::BtnMode => 0x13c,
            Key::BtnThumbL => 0x13d,
            Key::BtnThumbR => 0x13e,
            Key::BtnToolPen => 0x140,
            Key::BtnToolRubber => 0x141,
            Key::BtnToolBrush => 0x142,
            Key::BtnToolPencil => 0x143,
            Key::BtnToolAirbrush => 0x144,
            Key::BtnToolFinger => 0x145,
            Key::BtnToolMouse => 0x146,
            Key::BtnToolLens => 0x147,
            Key::BtnToolQuintTap => 0x148,
            Key::BtnTouch => 0x14a,
            Key::BtnStylus => 0x14b,
            Key::BtnStylus2 => 0x14c,
            Key::BtnToolDoubleTap => 0x14d,
            Key::BtnToolTripleTap => 0x14e,
            Key::BtnToolQuadTap => 0x14f,
            Key::BtnGearDown => 0x150,
            Key::BtnGearUp => 0x151,
            Key::KeyOk => 0x160,
            Key::KeySelect => 0x161,
            Key::KeyGoto => 0x162,
            Key::KeyClear => 0x163,
            Key::KeyPower2 => 0x164,
            Key::KeyOption => 0x165,
            Key::KeyInfo => 0x166,
            Key::KeyTime => 0x167,
            Key::KeyVendor => 0x168,
            Key::KeyArchive => 0x169,
            Key::KeyProgram => 0x16a,
            Key::KeyChannel => 0x16b,
            Key::KeyFavorites => 0x16c,
            Key::KeyEpg => 0x16d,
            Key::KeyPvr => 0x16e,
            Key::KeyMhp => 0x16f,
            Key::KeyLanguage => 0x170,
            Key::KeyTitle => 0x171,
            Key::KeySubtitle => 0x172,
            Key::KeyAngle => 0x173,
            Key::KeyZoom => 0x174,
            Key::KeyMode => 0x175,
            Key::KeyKeyboard => 0x176,
            Key::KeyScreen => 0x177,
            Key::KeyPc => 0x178,
            Key::KeyTv => 0x179,
            Key::KeyTv2 => 0x17a,
            Key::KeyVcr => 0x17b,
            Key::KeyVcr2 => 0x17c,
            Key::KeySat => 0x17d,
            Key::KeySat2 => 0x17e,
            Key::KeyCd => 0x17f,
            Key::KeyTape => 0x180,
            Key::KeyRadio => 0x181,
            Key::KeyTuner => 0x182,
            Key::KeyPlayer => 0x183,
            Key::KeyText => 0x184,
            Key::KeyDvd => 0x185,
            Key::KeyAux => 0x186,
            Key::KeyMp3 => 0x187,
            Key::KeyAudio => 0x188,
            Key::KeyVideo => 0x189,
            Key::KeyDirectory => 0x18a,
            Key::KeyList => 0x18b,
            Key::KeyMemo => 0x18c,
            Key::KeyCalendar => 0x18d,
            Key::KeyRed => 0x18e,
            Key::KeyGreen => 0x18f,
            Key::KeyYellow => 0x190,
            Key::KeyBlue => 0x191,
            Key::KeyChannelUp => 0x192,
            Key::KeyChannelDown => 0x193,
            Key::KeyFirst => 0x194,
            Key::KeyLast => 0x195,
            Key::KeyAb => 0x196,
            Key::KeyNext => 0x197,
            Key::KeyRestart => 0x198,
            Key::KeySlow => 0x199,
            Key::KeyShuffle => 0x19a,
            Key::KeyBreak => 0x19b,
            Key::KeyPrevious => 0x19c,
            Key::KeyDigits => 0x19d,
            Key::KeyTeen => 0x19e,
            Key::KeyTwen => 0x19f,
            Key::KeyVideophone => 0x1a0,
            Key::KeyGames => 0x1a1,
            Key::KeyZoomIn => 0x1a2,
            Key::KeyZoomOut => 0x1a3,
            Key::KeyZoomReset => 0x1a4,
            Key::KeyWordProcessor => 0x1a5,
            Key::KeyEditor => 0x1a6,
            Key::KeySpreadsheet => 0x1a7,
            Key::KeyGraphicsEditor => 0x1a8,
            Key::KeyPresentation => 0x1a9,
            Key::KeyDatabase => 0x1aa,
            Key::KeyNews => 0x1ab,
            Key::KeyVoiceMail => 0x1ac,
            Key::KeyAddressBook => 0x1ad,
            Key::KeyMessenger => 0x1ae,
            Key::KeyDisplayToggle => 0x1af,
            Key::KeySpellcheck => 0x1b0,
            Key::KeyLogoff => 0x1b1,
            Key::KeyDollar => 0x1b2,
            Key::KeyEuro => 0x1b3,
            Key::KeyFrameBack => 0x1b4,
            Key::KeyFrameForward => 0x1b5,
            Key::KeyContextMenu => 0x1b6,
            Key::KeyMediaRepeat => 0x1b7,
            Key::Key10ChannelsUp => 0x1b8,
            Key::Key10ChannelsDown => 0x1b9,
            Key::KeyImages => 0x1ba,
            Key::KeyDelEol => 0x1c0,
            Key::KeyDelEos => 0x1c1,
            Key::KeyInsLine => 0x1c2,
            Key::KeyDelLine => 0x1c3,
            Key::KeyFn => 0x1d0,
            Key::KeyFnEsc => 0x1d1,
            Key::KeyFnF1 => 0x1d2,
            Key::KeyFnF2 => 0x1d3,
            Key::KeyFnF3 => 0x1d4,
            Key::KeyFnF4 => 0x1d5,
            Key::KeyFnF5 => 0x1d6,
            Key::KeyFnF6 => 0x1d7,
            Key::KeyFnF7 => 0x1d8,
            Key::KeyFnF8 => 0x1d9,
            Key::KeyFnF9 => 0x1da,
            Key::KeyFnF10 => 0x1db,
            Key::KeyFnF11 => 0x1dc,
            Key::KeyFnF12 => 0x1dd,
            Key::KeyFn1 => 0x1de,
            Key::KeyFn2 => 0x1df,
            Key::KeyFnD => 0x1e0,
            Key::KeyFnE => 0x1e1,
            Key::KeyFnF => 0x1e2,
            Key::KeyFnS => 0x1e3,
            Key::KeyFnB => 0x1e4,
            Key::KeyBrlDot1 => 0x1f1,
            Key::KeyBrlDot2 => 0x1f2,
            Key::KeyBrlDot3 => 0x1f3,
            Key::KeyBrlDot4 => 0x1f4,
            Key::KeyBrlDot5 => 0x1f5,
            Key::KeyBrlDot6 => 0x1f6,
            Key::KeyBrlDot7 => 0x1f7,
            Key::KeyBrlDot8 => 0x1f8,
            Key::KeyBrlDot9 => 0x1f9,
            Key::KeyBrlDot10 => 0x1fa,
            Key::KeyNumeric0 => 0x200,
            Key::KeyNumeric1 => 0x201,
            Key::KeyNumeric2 => 0x202,
            Key::KeyNumeric3 => 0x203,
            Key::KeyNumeric4 => 0x204,
            Key::KeyNumeric5 => 0x205,
            Key::KeyNumeric6 => 0x206,
            Key::KeyNumeric7 => 0x207,
            Key::KeyNumeric8 => 0x208,
            Key::KeyNumeric9 => 0x209,
            Key::KeyNumericStar => 0x20a,
            Key::KeyNumericPound => 0x20b,
            Key::KeyCameraFocus => 0x210,
            Key::KeyWpsButton => 0x211,
            Key::KeyTouchpadToggle => 0x212,
            Key::KeyTouchpadOn => 0x213,
            Key::KeyTouchpadOff => 0x214,
            Key::KeyCameraZoomIn => 0x215,
            Key::KeyCameraZoomOut => 0x216,
            Key::KeyCameraUp => 0x217,
            Key::KeyCameraDown => 0x218,
            Key::KeyCameraLeft => 0x219,
            Key::KeyCameraRight => 0x21a,
            Key::KeyAttendantOn => 0x21b,
            Key::KeyAttendantOff => 0x21c,
            Key::KeyAttendantToggle => 0x21d,
            Key::KeyLightsToggle => 0x21e,
            Key::BtnDpadUp => 0x220,
            Key::BtnDpadDown => 0x221,
            Key::BtnDpadLeft => 0x222,
            Key::BtnDpadRight => 0x223,
            Key::KeyAlsToggle => 0x230,
            Key::KeyButtonConfig => 0x240,
            Key::KeyTaskManager => 0x241,
            Key::KeyJournal => 0x242,
            Key::KeyControlPanel => 0x243,
            Key::KeyAppSelect => 0x244,
            Key::KeyScreenSaver => 0x245,
            Key::KeyVoiceCommand => 0x246,
            Key::KeyBrightnessMin => 0x250,
            Key::KeyBrightnessMax => 0x251,
            Key::KeyKbdinputassistPrev => 0x260,
            Key::KeyKbdinputassistNext => 0x261,
            Key::KeyKbdinputassistPrevgroup => 0x262,
            Key::KeyKbdinputassistNextgroup => 0x263,
            Key::KeyKbdinputassistAccept => 0x264,
            Key::KeyKbdinputassistCancel => 0x265,
            Key::BtnTriggerHappy1 => 0x2c0,
            Key::BtnTriggerHappy2 => 0x2c1,
            Key::BtnTriggerHappy3 => 0x2c2,
            Key::BtnTriggerHappy4 => 0x2c3,
            Key::BtnTriggerHappy5 => 0x2c4,
            Key::BtnTriggerHappy6 => 0x2c5,
            Key::BtnTriggerHappy7 => 0x2c6,
            Key::BtnTriggerHappy8 => 0x2c7,
            Key::BtnTriggerHappy9 => 0x2c8,
            Key::BtnTriggerHappy10 => 0x2c9,
            Key::BtnTriggerHappy11 => 0x2ca,
            Key::BtnTriggerHappy12 => 0x2cb,
            Key::BtnTriggerHappy13 => 0x2cc,
            Key::BtnTriggerHappy14 => 0x2cd,
            Key::BtnTriggerHappy15 => 0x2ce,
            Key::BtnTriggerHappy16 => 0x2cf,
            Key::BtnTriggerHappy17 => 0x2d0,
            Key::BtnTriggerHappy18 => 0x2d1,
            Key::BtnTriggerHappy19 => 0x2d2,
            Key::BtnTriggerHappy20 => 0x2d3,
            Key::BtnTriggerHappy21 => 0x2d4,
            Key::BtnTriggerHappy22 => 0x2d5,
            Key::BtnTriggerHappy23 => 0x2d6,
            Key::BtnTriggerHappy24 => 0x2d7,
            Key::BtnTriggerHappy25 => 0x2d8,
            Key::BtnTriggerHappy26 => 0x2d9,
            Key::BtnTriggerHappy27 => 0x2da,
            Key::BtnTriggerHappy28 => 0x2db,
            Key::BtnTriggerHappy29 => 0x2dc,
            Key::BtnTriggerHappy30 => 0x2dd,
            Key::BtnTriggerHappy31 => 0x2de,
            Key::BtnTriggerHappy32 => 0x2df,
            Key::BtnTriggerHappy33 => 0x2e0,
            Key::BtnTriggerHappy34 => 0x2e1,
            Key::BtnTriggerHappy35 => 0x2e2,
            Key::BtnTriggerHappy36 => 0x2e3,
            Key::BtnTriggerHappy37 => 0x2e4,
            Key::BtnTriggerHappy38 => 0x2e5,
            Key::BtnTriggerHappy39 => 0x2e6,
            Key::BtnTriggerHappy40 => 0x2e7,
            Key::KeyMax => 0x2ff,
        }
    }

    /// The numeric code that the input layer reports for this key.
    pub fn code(&self) -> (code: u16)
        ensures
            code == self.spec_code(),
    {
        match self {
            Key::KeyReserved => 0,
            Key::KeyEsc => 1,
            Key::Key1 => 2,
            Key::Key2 => 3,
            Key::Key3 => 4,
            Key::Key4 => 5,
            Key::Key5 => 6,
            Key::Key6 => 7,
            Key::Key7 => 8,
            Key::Key8 => 9,
            Key::Key9 => 10,
            Key::Key0 => 11,
            Key::KeyMinus => 12,
            Key::KeyEqual => 13,
            Key::KeyBackspace => 14,
            Key::KeyTab => 15,
            Key::KeyQ => 16,
            Key::KeyW => 17,
            Key::KeyE => 18,
            Key::KeyR => 19,
            Key::KeyT => 20,
            Key::KeyY => 21,
            Key::KeyU => 22,
            Key::KeyI => 23,
            Key::KeyO => 24,
            Key::KeyP => 25,
            Key::KeyLeftBrace => 26,
            Key::KeyRightBrace => 27,
            Key::KeyEnter => 28,
            Key::KeyLeftCtrl => 29,
            Key::KeyA => 30,
            Key::KeyS => 31,
            Key::KeyD => 32,
            Key::KeyF => 33,
            Key::KeyG => 34,
            Key::KeyH => 35,
            Key::KeyJ => 36,
            Key::KeyK => 37,
            Key::KeyL => 38,
            Key::KeySemicolon => 39,
            Key::KeyApostrophe => 40,
            Key::KeyGrave => 41,
            Key::KeyLeftShift => 42,
            Key::KeyBackslash => 43,
            Key::KeyZ => 44,
            Key::KeyX => 45,
            Key::KeyC => 46,
            Key::KeyV => 47,
            Key::KeyB => 48,
            Key::KeyN => 49,
            Key::KeyM => 50,
            Key::KeyComma => 51,
            Key::KeyDot => 52,
            Key::KeySlash => 53,
            Key::KeyRightShift => 54,
            Key::KeyKpAsterisk => 55,
            Key::KeyLeftAlt => 56,
            Key::KeySpace => 57,
            Key::KeyCapsLock => 58,
            Key::KeyF1 => 59,
            Key::KeyF2 => 60,
            Key::KeyF3 => 61,
            Key::KeyF4 => 62,
            Key::KeyF5 => 63,
            Key::KeyF6 => 64,
            Key::KeyF7 => 65,
            Key::KeyF8 => 66,
            Key::KeyF9 => 67,
            Key::KeyF10 => 68,
            Key::KeyNumLock => 69,
            Key::KeyScrollLock => 70,
            Key::KeyKp7 => 71,
            Key::KeyKp8 => 72,
            Key::KeyKp9 => 73,
            Key::KeyKpMinus => 74,
            Key::KeyKp4 => 75,
            Key::KeyKp5 => 76,
            Key::KeyKp6 => 77,
            Key::KeyKpPlus => 78,
            Key::KeyKp1 => 79,
            Key::KeyKp2 => 80,
            Key::KeyKp3 => 81,
            Key::KeyKp0 => 82,
            Key::KeyKpDot => 83,
            Key::KeyZenkakuhankaku => 85,
            Key::Key102nd => 86,
            Key::KeyF11 => 87,
            Key::KeyF12 => 88,
            Key::KeyRo => 89,
            Key::KeyKatakana => 90,
            Key::KeyHiragana => 91,
            Key::KeyHenkan => 92,
            Key::KeyKatakanahiragana => 93,
            Key::KeyMuhenkan => 94,
            Key::KeyKpJpComma => 95,
            Key::KeyKpEnter => 96,
            Key::KeyRightCtrl => 97,
            Key::KeyKpSlash => 98,
            Key::KeySysRQ => 99,
            Key::KeyRightAlt => 100,
            Key::KeyLinefeed => 101,
            Key::KeyHome => 102,
            Key::KeyUp => 103,
            Key::KeyPageup => 104,
            Key::KeyLeft => 105,
            Key::KeyRight => 106,
            Key::KeyEnd => 107,
            Key::KeyDown => 108,
            Key::KeyPagedown => 109,
            Key::KeyInsert => 110,
            Key::KeyDelete => 111,
            Key::KeyMacro => 112,
            Key::KeyMute => 113,
            Key::KeyVolumeDown => 114,
            Key::KeyVolumeUp => 115,
            Key::KeyPower => 116,
            Key::KeyKpEqual => 117,
            Key::KeyKpPlusMinus => 118,
            Key::KeyPause => 119,
            Key::KeyScale => 120,
            Key::KeyKpComma => 121,
            Key::KeyHangeul => 122,
            Key::KeyHanja => 123,
            Key::KeyYen => 124,
            Key::KeyLeftMeta => 125,
            Key::KeyRightMeta => 126,
            Key::KeyCompose => 127,
            Key::KeyStop => 128,
            Key::KeyAgain => 129,
            Key::KeyProps => 130,
            Key::KeyUndo => 131,
            Key::KeyFront => 132,
            Key::KeyCopy => 133,
            Key::KeyOpen => 134,
            Key::KeyPaste => 135,
            Key::KeyFind => 136,
            Key::KeyCut => 137,
            Key::KeyHelp => 138,
            Key::KeyMenu => 139,
            Key::KeyCalc => 140,
            Key::KeySetup => 141,
            Key::KeySleep => 142,
            Key::KeyWakeup => 143,
            Key::KeyFile => 144,
            Key::KeySendfile => 145,
            Key::KeyDeleteFile => 146,
            Key::KeyXfer => 147,
            Key::KeyProg1 => 148,
            Key::KeyProg2 => 149,
            Key::KeyWww => 150,
            Key::KeyMsDos => 151,
            Key::KeyCoffee => 152,
            Key::KeyDirection => 153,
            Key::KeyCycleWindows => 154,
            Key::KeyMail => 155,
            Key::KeyBookmarks => 156,
            Key::KeyComputer => 157,
            Key::KeyBack => 158,
            Key::KeyForward => 159,
            Key::KeyCloseCd => 160,
            Key::KeyEjectCd => 161,
            Key::KeyEjectCloseCd => 162,
            Key::KeyNextSong => 163,
            Key::KeyPlayPause => 164,
            Key::KeyPreviousSong => 165,
            Key::KeyStopCd => 166,
            Key::KeyRecord => 167,
            Key::KeyRewind => 168,
            Key::KeyPhone => 169,
            Key::KeyIso => 170,
            Key::KeyConfig => 171,
            Key::KeyHomepage => 172,
            Key::KeyRefresh => 173,
            Key::KeyExit => 174,
            Key::KeyMove => 175,
            Key::KeyEdit => 176,
            Key::KeyScrollUp => 177,
            Key::KeyScrollDown => 178,
            Key::KeyKpLeftParen => 179,
            Key::KeyKpRightParen => 180,
            Key::KeyNew => 181,
            Key::KeyRedo => 182,
            Key::KeyF13 => 183,
            Key::KeyF14 => 184,
            Key::KeyF15 => 185,
            Key::KeyF16 => 186,
            Key::KeyF17 => 187,
            Key::KeyF18 => 188,
            Key::KeyF19 => 189,
            Key::KeyF20 => 190,
            Key::KeyF21 => 191,
            Key::KeyF22 => 192,
            Key::KeyF23 => 193,
            Key::KeyF24 => 194,
            Key::KeyPlayCd => 200,
            Key::KeyPauseCd => 201,
            Key::KeyProg3 => 202,
            Key::KeyProg4 => 203,
            Key::KeyDashboard => 204,
            Key::KeySuspend => 205,
            Key::KeyClose => 206,
            Key::KeyPlay => 207,
            Key::KeyFastForward => 208,
            Key::KeyBassBoost => 209,
            Key::KeyPrint => 210,
            Key::KeyHp => 211,
            Key::KeyCamera => 212,
            Key::KeySound => 213,
            Key::KeyQuestion => 214,
            Key::KeyEmail => 215,
            Key::KeyChat => 216,
            Key::KeySearch => 217,
            Key::KeyConnect => 218,
            Key::KeyFinance => 219,
            Key::KeySport => 220,
            Key::KeyShop => 221,
            Key::KeyAltErase => 222,
            Key::KeyCancel => 223,
            Key::KeyBrightnessDown => 224,
            Key::KeyBrightnessUp => 225,
            Key::KeyMedia => 226,
            Key::KeySwitchVideoMode => 227,
            Key::KeyKbDillumToggle => 228,
            Key::KeyKbDillumDown => 229,
            Key::KeyKbDillumUp => 230,
            Key::KeySend => 231,
            Key::KeyReply => 232,
            Key::KeyForwardMail => 233,
            Key::KeySave => 234,
            Key::KeyDocuments => 235,
            Key::KeyBattery => 236,
            Key::KeyBluetooth => 237,
            Key::KeyWlan => 238,
            Key::KeyUwb => 239,
            Key::KeyUnknown => 240,
            Key::KeyVideoNext => 241,
            Key::KeyVideoPrev => 242,
            Key::KeyBrightnessCycle => 243,
            Key::KeyBrightnessAuto => 244,
            Key::KeyDisplayOff => 245,
            Key::KeyWwan => 246,
            Key::KeyRfKill => 247,
            Key::KeyMicMute => 248,
            Key::Btn0 => 0x100,
            Key::Btn1 => 0x101,
            Key::Btn2 => 0x102,
            Key::Btn3 => 0x103,
            Key::Btn4 => 0x104,
            Key::Btn5 => 0x105,
            Key::Btn6 => 0x106,
            Key::Btn7 => 0x107,
            Key::Btn8 => 0x108,
            Key::Btn9 => 0x109,
            Key::BtnLeft => 0x110,
            Key::BtnRight => 0x111,
            Key::BtnMiddle => 0x112,
            Key::BtnSide => 0x113,
            Key::BtnExtra => 0x114,
            Key::BtnForward => 0x115,
            Key::BtnBack => 0x116,
            Key::BtnTask => 0x117,
            Key::BtnTrigger => 0x120,
            Key::BtnThumb => 0x121,
            Key::BtnThumb2 => 0x122,
            Key::BtnTop => 0x123,
            Key::BtnTop2 => 0x124,
            Key::BtnPinkie => 0x125,
            Key::BtnBase => 0x126,
            Key::BtnBase2 => 0x127,
            Key::BtnBase3 => 0x128,
            Key::BtnBase4 => 0x129,
            Key::BtnBase5 => 0x12a,
            Key::BtnBase6 => 0x12b,
            Key::BtnDead => 0x12f,
            Key::BtnSouth => 0x130,
            Key::BtnEast => 0x131,
            Key::BtnC => 0x132,
            Key::BtnNorth => 0x133,
            Key::BtnWest => 0x134,
            Key::BtnZ => 0x135,
            Key::BtnTl => 0x136,
            Key::BtnTr => 0x137,
            Key::BtnTl2 => 0x138,
            Key::BtnTr2 => 0x139,
            Key::BtnSelect => 0x13a,
            Key::BtnStart => 0x13b,
            Key::BtnMode => 0x13c,
            Key::BtnThumbL => 0x13d,
            Key::BtnThumbR => 0x13e,
            Key::BtnToolPen => 0x140,
            Key::BtnToolRubber => 0x141,
            Key::BtnToolBrush => 0x142,
            Key::BtnToolPencil => 0x143,
            Key::BtnToolAirbrush => 0x144,
            Key::BtnToolFinger => 0x145,
            Key::BtnToolMouse => 0x146,
            Key::BtnToolLens => 0x147,
            Key::BtnToolQuintTap => 0x148,
            Key::BtnTouch => 0x14a,
            Key::BtnStylus => 0x14b,
            Key::BtnStylus2 => 0x14c,
            Key::BtnToolDoubleTap => 0x14d,
            Key::BtnToolTripleTap => 0x14e,
            Key::BtnToolQuadTap => 0x14f,
            Key::BtnGearDown => 0x150,
            Key::BtnGearUp => 0x151,
            Key::KeyOk => 0x160,
            Key::KeySelect => 0x161,
            Key::KeyGoto => 0x162,
            Key::KeyClear => 0x163,
            Key::KeyPower2 => 0x164,
            Key::KeyOption => 0x165,
            Key::KeyInfo => 0x166,
            Key::KeyTime => 0x167,
            Key::KeyVendor => 0x168,
            Key::KeyArchive => 0x169,
            Key::KeyProgram => 0x16a,
            Key::KeyChannel => 0x16b,
            Key::KeyFavorites => 0x16c,
            Key::KeyEpg => 0x16d,
            Key::KeyPvr => 0x16e,
            Key::KeyMhp => 0x16f,
            Key::KeyLanguage => 0x170,
            Key::KeyTitle => 0x171,
            Key::KeySubtitle => 0x172,
            Key::KeyAngle => 0x173,
            Key::KeyZoom => 0x174,
            Key::KeyMode => 0x175,
            Key::KeyKeyboard => 0x176,
            Key::KeyScreen => 0x177,
            Key::KeyPc => 0x178,
            Key::KeyTv => 0x179,
            Key::KeyTv2 => 0x17a,
            Key::KeyVcr => 0x17b,
            Key::KeyVcr2 => 0x17c,
            Key::KeySat => 0x17d,
            Key::KeySat2 => 0x17e,
            Key::KeyCd => 0x17f,
            Key::KeyTape => 0x180,
            Key::KeyRadio => 0x181,
            Key::KeyTuner => 0x182,
            Key::KeyPlayer => 0x183,
            Key::KeyText => 0x184,
            Key::KeyDvd => 0x185,
            Key::KeyAux => 0x186,
            Key::KeyMp3 => 0x187,
            Key::KeyAudio => 0x188,
            Key::KeyVideo => 0x189,
            Key::KeyDirectory => 0x18a,
            Key::KeyList => 0x18b,
            Key::KeyMemo => 0x18c,
            Key::KeyCalendar => 0x18d,
            Key::KeyRed => 0x18e,
            Key::KeyGreen => 0x18f,
            Key::KeyYellow => 0x190,
            Key::KeyBlue => 0x191,
            Key::KeyChannelUp => 0x192,
            Key::KeyChannelDown => 0x193,
            Key::KeyFirst => 0x194,
            Key::KeyLast => 0x195,
            Key::KeyAb => 0x196,
            Key::KeyNext => 0x197,
            Key::KeyRestart => 0x198,
            Key::KeySlow => 0x199,
            Key::KeyShuffle => 0x19a,
            Key::KeyBreak => 0x19b,
            Key::KeyPrevious => 0x19c,
            Key::KeyDigits => 0x19d,
            Key::KeyTeen => 0x19e,
            Key::KeyTwen => 0x19f,
            Key::KeyVideophone => 0x1a0,
            Key::KeyGames => 0x1a1,
            Key::KeyZoomIn => 0x1a2,
            Key::KeyZoomOut => 0x1a3,
            Key::KeyZoomReset => 0x1a4,
            Key::KeyWordProcessor => 0x1a5,
            Key::KeyEditor => 0x1a6,
            Key::KeySpreadsheet => 0x1a7,
            Key::KeyGraphicsEditor => 0x1a8,
            Key::KeyPresentation => 0x1a9,
            Key::KeyDatabase => 0x1aa,
            Key::KeyNews => 0x1ab,
            Key::KeyVoiceMail => 0x1ac,
            Key::KeyAddressBook => 0x1ad,
            Key::KeyMessenger => 0x1ae,
            Key::KeyDisplayToggle => 0x1af,
            Key::KeySpellcheck => 0x1b0,
            Key::KeyLogoff => 0x1b1,
            Key::KeyDollar => 0x1b2,
            Key::KeyEuro => 0x1b3,
            Key::KeyFrameBack => 0x1b4,
            Key::KeyFrameForward => 0x1b5,
            Key::KeyContextMenu => 0x1b6,
            Key::KeyMediaRepeat => 0x1b7,
            Key::Key10ChannelsUp => 0x1b8,
            Key::Key10ChannelsDown => 0x1b9,
            Key::KeyImages => 0x1ba,
            Key::KeyDelEol => 0x1c0,
            Key::KeyDelEos => 0x1c1,
            Key::KeyInsLine => 0x1c2,
            Key::KeyDelLine => 0x1c3,
            Key::KeyFn => 0x1d0,
            Key::KeyFnEsc => 0x1d1,
            Key::KeyFnF1 => 0x1d2,
            Key::KeyFnF2 => 0x1d3,
            Key::KeyFnF3 => 0x1d4,
            Key::KeyFnF4 => 0x1d5,
            Key::KeyFnF5 => 0x1d6,
            Key::KeyFnF6 => 0x1d7,
            Key::KeyFnF7 => 0x1d8,
            Key::KeyFnF8 => 0x1d9,
            Key::KeyFnF9 => 0x1da,
            Key::KeyFnF10 => 0x1db,
            Key::KeyFnF11 => 0x1dc,
            Key::KeyFnF12 => 0x1dd,
            Key::KeyFn1 => 0x1de,
            Key::KeyFn2 => 0x1df,
            Key::KeyFnD => 0x1e0,
            Key::KeyFnE => 0x1e1,
            Key::KeyFnF => 0x1e2,
            Key::KeyFnS => 0x1e3,
            Key::KeyFnB => 0x1e4,
            Key::KeyBrlDot1 => 0x1f1,
            Key::KeyBrlDot2 => 0x1f2,
            Key::KeyBrlDot3 => 0x1f3,
            Key::KeyBrlDot4 => 0x1f4,
            Key::KeyBrlDot5 => 0x1f5,
            Key::KeyBrlDot6 => 0x1f6,
            Key::KeyBrlDot7 => 0x1f7,
            Key::KeyBrlDot8 => 0x1f8,
            Key::KeyBrlDot9 => 0x1f9,
            Key::KeyBrlDot10 => 0x1fa,
            Key::KeyNumeric0 => 0x200,
            Key::KeyNumeric1 => 0x201,
            Key::KeyNumeric2 => 0x202,
            Key::KeyNumeric3 => 0x203,
            Key::KeyNumeric4 => 0x204,
            Key::KeyNumeric5 => 0x205,
            Key::KeyNumeric6 => 0x206,
            Key::KeyNumeric7 => 0x207,
            Key::KeyNumeric8 => 0x208,
            Key::KeyNumeric9 => 0x209,
            Key::KeyNumericStar => 0x20a,
            Key::KeyNumericPound => 0x20b,
            Key::KeyCameraFocus => 0x210,
            Key::KeyWpsButton => 0x211,
            Key::KeyTouchpadToggle => 0x212,
            Key::KeyTouchpadOn => 0x213,
            Key::KeyTouchpadOff => 0x214,
            Key::KeyCameraZoomIn => 0x215,
            Key::KeyCameraZoomOut => 0x216,
            Key::KeyCameraUp => 0x217,
            Key::KeyCameraDown => 0x218,
            Key::KeyCameraLeft => 0x219,
            Key::KeyCameraRight => 0x21a,
            Key::KeyAttendantOn => 0x21b,
            Key::KeyAttendantOff => 0x21c,
            Key::KeyAttendantToggle => 0x21d,
            Key::KeyLightsToggle => 0x21e,
            Key::BtnDpadUp => 0x220,
            Key::BtnDpadDown => 0x221,
            Key::BtnDpadLeft => 0x222,
            Key::BtnDpadRight => 0x223,
            Key::KeyAlsToggle => 0x230,
            Key::KeyButtonConfig => 0x240,
            Key::KeyTaskManager => 0x241,
            Key::KeyJournal => 0x242,
            Key::KeyControlPanel => 0x243,
            Key::KeyAppSelect => 0x244,
            Key::KeyScreenSaver => 0x245,
            Key::KeyVoiceCommand => 0x246,
            Key::KeyBrightnessMin => 0x250,
            Key::KeyBrightnessMax => 0x251,
            Key::KeyKbdinputassistPrev => 0x260,
            Key::KeyKbdinputassistNext => 0x261,
            Key::KeyKbdinputassistPrevgroup => 0x262,
            Key::KeyKbdinputassistNextgroup => 0x263,
            Key::KeyKbdinputassistAccept => 0x264,
            Key::KeyKbdinputassistCancel => 0x265,
            Key::BtnTriggerHappy1 => 0x2c0,
            Key::BtnTriggerHappy2 => 0x2c1,
            Key::BtnTriggerHappy3 => 0x2c2,
            Key::BtnTriggerHappy4 => 0x2c3,
            Key::BtnTriggerHappy5 => 0x2c4,
            Key::BtnTriggerHappy6 => 0x2c5,
            Key::BtnTriggerHappy7 => 0x2c6,
            Key::BtnTriggerHappy8 => 0x2c7,
            Key::BtnTriggerHappy9 => 0x2c8,
            Key::BtnTriggerHappy10 => 0x2c9,
            Key::BtnTriggerHappy11 => 0x2ca,
            Key::BtnTriggerHappy12 => 0x2cb,
            Key::BtnTriggerHappy13 => 0x2cc,
            Key::BtnTriggerHappy14 => 0x2cd,
            Key::BtnTriggerHappy15 => 0x2ce,
            Key::BtnTriggerHappy16 => 0x2cf,
            Key::BtnTriggerHappy17 => 0x2d0,
            Key::BtnTriggerHappy18 => 0x2d1,
            Key::BtnTriggerHappy19 => 0x2d2,
            Key::BtnTriggerHappy20 => 0x2d3,
            Key::BtnTriggerHappy21 => 0x2d4,
            Key::BtnTriggerHappy22 => 0x2d5,
            Key::BtnTriggerHappy23 => 0x2d6,
            Key::BtnTriggerHappy24 => 0x2d7,
            Key::BtnTriggerHappy25 => 0x2d8,
            Key::BtnTriggerHappy26 => 0x2d9,
            Key::BtnTriggerHappy27 => 0x2da,
            Key::BtnTriggerHappy28 => 0x2db,
            Key::BtnTriggerHappy29 => 0x2dc,
            Key::BtnTriggerHappy30 => 0x2dd,
            Key::BtnTriggerHappy31 => 0x2de,
            Key::BtnTriggerHappy32 => 0x2df,
            Key::BtnTriggerHappy33 => 0x2e0,
            Key::BtnTriggerHappy34 => 0x2e1,
            Key::BtnTriggerHappy35 => 0x2e2,
            Key::BtnTriggerHappy36 => 0x2e3,
            Key::BtnTriggerHappy37 => 0x2e4,
            Key::BtnTriggerHappy38 => 0x2e5,
            Key::BtnTriggerHappy39 => 0x2e6,
            Key::BtnTriggerHappy40 => 0x2e7,
            Key::KeyMax => 0x2ff,
        }
    }

    /// The key that the table holds for a code, if it holds one.
    pub open spec fn spec_from_code(code: u16) -> Option<Key> {
        if code < 0x40 {
            match code {
                0 => Some(Key::KeyReserved),
                1 => Some(Key::KeyEsc),
                2 => Some(Key::Key1),
                3 => Some(Key::Key2),
                4 => Some(Key::Key3),
                5 => Some(Key::Key4),
                6 => Some(Key::Key5),
                7 => Some(Key::Key6),
                8 => Some(Key::Key7),
                9 => Some(Key::Key8),
                10 => Some(Key::Key9),
                11 => Some(Key::Key0),
                12 => Some(Key::KeyMinus),
                13 => Some(Key::KeyEqual),
                14 => Some(Key::KeyBackspace),
                15 => Some(Key::KeyTab),
                16 => Some(Key::KeyQ),
                17 => Some(Key::KeyW),
                18 => Some(Key::KeyE),
                19 => Some(Key::KeyR),
                20 => Some(Key::KeyT),
                21 => Some(Key::KeyY),
                22 => Some(Key::KeyU),
                23 => Some(Key::KeyI),
                24 => Some(Key::KeyO),
                25 => Some(Key::KeyP),
                26 => Some(Key::KeyLeftBrace),
                27 => Some(Key::KeyRightBrace),
                28 => Some(Key::KeyEnter),
                29 => Some(Key::KeyLeftCtrl),
                30 => Some(Key::KeyA),
                31 => Some(Key::KeyS),
                32 => Some(Key::KeyD),
                33 => Some(Key::KeyF),
                34 => Some(Key::KeyG),
                35 => Some(Key::KeyH),
                36 => Some(Key::KeyJ),
                37 => Some(Key::KeyK),
                38 => Some(Key::KeyL),
                39 => Some(Key::KeySemicolon),
                40 => Some(Key::KeyApostrophe),
                41 => Some(Key::KeyGrave),
                42 => Some(Key::KeyLeftShift),
                43 => Some(Key::KeyBackslash),
                44 => Some(Key::KeyZ),
                45 => Some(Key::KeyX),
                46 => Some(Key::KeyC),
                47 => Some(Key::KeyV),
                48 => Some(Key::KeyB),
                49 => Some(Key::KeyN),
                50 => Some(Key::KeyM),
                51 => Some(Key::KeyComma),
                52 => Some(Key::KeyDot),
                53 => Some(Key::KeySlash),
                54 => Some(Key::KeyRightShift),
                55 => Some(Key::KeyKpAsterisk),
                56 => Some(Key::KeyLeftAlt),
                57 => Some(Key::KeySpace),
                58 => Some(Key::KeyCapsLock),
                59 => Some(Key::KeyF1),
                60 => Some(Key::KeyF2),
                61 => Some(Key::KeyF3),
                62 => Some(Key::KeyF4),
                63 => Some(Key::KeyF5),
                _ => None,
            }
        } else if code < 0x80 {
            match code {
                64 => Some(Key::KeyF6),
                65 => Some(Key::KeyF7),
                66 => Some(Key::KeyF8),
                67 => Some(Key::KeyF9),
                68 => Some(Key::KeyF10),
                69 => Some(Key::KeyNumLock),
                70 => Some(Key::KeyScrollLock),
                71 => Some(Key::KeyKp7),
                72 => Some(Key::KeyKp8),
                73 => Some(Key::KeyKp9),
                74 => Some(Key::KeyKpMinus),
                75 => Some(Key::KeyKp4),
                76 => Some(Key::KeyKp5),
                77 => Some(Key::KeyKp6),
                78 => Some(Key::KeyKpPlus),
                79 => Some(Key::KeyKp1),
                80 => Some(Key::KeyKp2),
                81 => Some(Key::KeyKp3),
                82 => Some(Key::KeyKp0),
                83 => Some(Key::KeyKpDot),
                85 => Some(Key::KeyZenkakuhankaku),
                86 => Some(Key::Key102nd),
                87 => Some(Key::KeyF11),
                88 => Some(Key::KeyF12),
                89 => Some(Key::KeyRo),
                90 => Some(Key::KeyKatakana),
                91 => Some(Key::KeyHiragana),
                92 => Some(Key::KeyHenkan),
                93 => Some(Key::KeyKatakanahiragana),
                94 => Some(Key::KeyMuhenkan),
                95 => Some(Key::KeyKpJpComma),
                96 => Some(Key::KeyKpEnter),
                97 => Some(Key::KeyRightCtrl),
                98 => Some(Key::KeyKpSlash),
                99 => Some(Key::KeySysRQ),
                100 => Some(Key::KeyRightAlt),
                101 => Some(Key::KeyLinefeed),
                102 => Some(Key::KeyHome),
                103 => Some(Key::KeyUp),
                104 => Some(Key::KeyPageup),
                105 => Some(Key::KeyLeft),
                106 => Some(Key::KeyRight),
                107 => Some(Key::KeyEnd),
                108 => Some(Key::KeyDown),
                109 => Some(Key::KeyPagedown),
                110 => Some(Key::KeyInsert),
                111 => Some(Key::KeyDelete),
                112 => Some(Key::KeyMacro),
                113 => Some(Key::KeyMute),
                114 => Some(Key::KeyVolumeDown),
                115 => Some(Key::KeyVolumeUp),
                116 => Some(Key::KeyPower),
                117 => Some(Key::KeyKpEqual),
                118 => Some(Key::KeyKpPlusMinus),
                119 => Some(Key::KeyPause),
                120 => Some(Key::KeyScale),
                121 => Some(Key::KeyKpComma),
                122 => Some(Key::KeyHangeul),
                123 => Some(Key::KeyHanja),
                124 => Some(Key::KeyYen),
                125 => Some(Key::KeyLeftMeta),
                126 => Some(Key::KeyRightMeta),
                127 => Some(Key::KeyCompose),
                _ => None,
            }
        } else if code < 0xc0 {
            match code {
                128 => Some(Key::KeyStop),
                129 => Some(Key::KeyAgain),
                130 => Some(Key::KeyProps),
                131 => Some(Key::KeyUndo),
                132 => Some(Key::KeyFront),
                133 => Some(Key::KeyCopy),
                134 => Some(Key::KeyOpen),
                135 => Some(Key::KeyPaste),
                136 => Some(Key::KeyFind),
                137 => Some(Key::KeyCut),
                138 => Some(Key::KeyHelp),
                139 => Some(Key::KeyMenu),
                140 => Some(Key::KeyCalc),
                141 => Some(Key::KeySetup),
                142 => Some(Key::KeySleep),
                143 => Some(Key::KeyWakeup),
                144 => Some(Key::KeyFile),
                145 => Some(Key::KeySendfile),
                146 => Some(Key::KeyDeleteFile),
                147 => Some(Key::KeyXfer),
                148 => Some(Key::KeyProg1),
                149 => Some(Key::KeyProg2),
                150 => Some(Key::KeyWww),
                151 => Some(Key::KeyMsDos),
                152 => Some(Key::KeyCoffee),
                153 => Some(Key::KeyDirection),
                154 => Some(Key::KeyCycleWindows),
                155 => Some(Key::KeyMail),
                156 => Some(Key::KeyBookmarks),
                157 => Some(Key::KeyComputer),
                158 => Some(Key::KeyBack),
                159 => Some(Key::KeyForward),
                160 => Some(Key::KeyCloseCd),
                161 => Some(Key::KeyEjectCd),
                162 => Some(Key::KeyEjectCloseCd),
                163 => Some(Key::KeyNextSong),
                164 => Some(Key::KeyPlayPause),
                165 => Some(Key::KeyPreviousSong),
                166 => Some(Key::KeyStopCd),
                167 => Some(Key::KeyRecord),
                168 => Some(Key::KeyRewind),
                169 => Some(Key::KeyPhone),
                170 => Some(Key::KeyIso),
                171 => Some(Key::KeyConfig),
                172 => Some(Key::KeyHomepage),
                173 => Some(Key::KeyRefresh),
                174 => Some(Key::KeyExit),
                175 => Some(Key::KeyMove),
                176 => Some(Key::KeyEdit),
                177 => Some(Key::KeyScrollUp),
                178 => Some(Key::KeyScrollDown),
                179 => Some(Key::KeyKpLeftParen),
                180 => Some(Key::KeyKpRightParen),
                181 => Some(Key::KeyNew),
                182 => Some(Key::KeyRedo),
                183 => Some(Key::KeyF13),
                184 => Some(Key::KeyF14),
                185 => Some(Key::KeyF15),
                186 => Some(Key::KeyF16),
                187 => Some(Key::KeyF17),
                188 => Some(Key::KeyF18),
                189 => Some(Key::KeyF19),
                190 => Some(Key::KeyF20),
                191 => Some(Key::KeyF21),
                _ => None,
            }
        } else if code < 0x100 {
            match code {
                192 => Some(Key::KeyF22),
                193 => Some(Key::KeyF23),
                194 => Some(Key::KeyF24),
                200 => Some(Key::KeyPlayCd),
                201 => Some(Key::KeyPauseCd),
                202 => Some(Key::KeyProg3),
                203 => Some(Key::KeyProg4),
                204 => Some(Key::KeyDashboard),
                205 => Some(Key::KeySuspend),
                206 => Some(Key::KeyClose),
                207 => Some(Key::KeyPlay),
                208 => Some(Key::KeyFastForward),
                209 => Some(Key::KeyBassBoost),
                210 => Some(Key::KeyPrint),
                211 => Some(Key::KeyHp),
                212 => Some(Key::KeyCamera),
                213 => Some(Key::KeySound),
                214 => Some(Key::KeyQuestion),
                215 => Some(Key::KeyEmail),
                216 => Some(Key::KeyChat),
                217 => Some(Key::KeySearch),
                218 => Some(Key::KeyConnect),
                219 => Some(Key::KeyFinance),
                220 => Some(Key::KeySport),
                221 => Some(Key::KeyShop),
                222 => Some(Key::KeyAltErase),
                223 => Some(Key::KeyCancel),
                224 => Some(Key::KeyBrightnessDown),
                225 => Some(Key::KeyBrightnessUp),
                226 => Some(Key::KeyMedia),
                227 => Some(Key::KeySwitchVideoMode),
                228 => Some(Key::KeyKbDillumToggle),
                229 => Some(Key::KeyKbDillumDown),
                230 => Some(Key::KeyKbDillumUp),
                231 => Some(Key::KeySend),
                232 => Some(Key::KeyReply),
                233 => Some(Key::KeyForwardMail),
                234 => Some(Key::KeySave),
                235 => Some(Key::KeyDocuments),
                236 => Some(Key::KeyBattery),
                237 => Some(Key::KeyBluetooth),
                238 => Some(Key::KeyWlan),
                239 => Some(Key::KeyUwb),
                240 => Some(Key::KeyUnknown),
                241 => Some(Key::KeyVideoNext),
                242 => Some(Key::KeyVideoPrev),
                243 => Some(Key::KeyBrightnessCycle),
                244 => Some(Key::KeyBrightnessAuto),
                245 => Some(Key::KeyDisplayOff),
                246 => Some(Key::KeyWwan),
                247 => Some(Key::KeyRfKill),
                248 => Some(Key::KeyMicMute),
                _ => None,
            }
        } else if code < 0x140 {
            match code {
                0x100 => Some(Key::Btn0),
                0x101 => Some(Key::Btn1),
                0x102 => Some(Key::Btn2),
                0x103 => Some(Key::Btn3),
                0x104 => Some(Key::Btn4),
                0x105 => Some(Key::Btn5),
                0x106 => Some(Key::Btn6),
                0x107 => Some(Key::Btn7),
                0x108 => Some(Key::Btn8),
                0x109 => Some(Key::Btn9),
                0x110 => Some(Key::BtnLeft),
                0x111 => Some(Key::BtnRight),
                0x112 => Some(Key::BtnMiddle),
                0x113 => Some(Key::BtnSide),
                0x114 => Some(Key::BtnExtra),
                0x115 => Some(Key::BtnForward),
                0x116 => Some(Key::BtnBack),
                0x117 => Some(Key::BtnTask),
                0x120 => Some(Key::BtnTrigger),
                0x121 => Some(Key::BtnThumb),
                0x122 => Some(Key::BtnThumb2),
                0x123 => Some(Key::BtnTop),
                0x124 => Some(Key::BtnTop2),
                0x125 => Some(Key::BtnPinkie),
                0x126 => Some(Key::BtnBase),
                0x127 => Some(Key::BtnBase2),
                0x128 => Some(Key::BtnBase3),
                0x129 => Some(Key::BtnBase4),
                0x12a => Some(Key::BtnBase5),
                0x12b => Some(Key::BtnBase6),
                0x12f => Some(Key::BtnDead),
                0x130 => Some(Key::BtnSouth),
                0x131 => Some(Key::BtnEast),
                0x132 => Some(Key::BtnC),
                0x133 => Some(Key::BtnNorth),
                0x134 => Some(Key::BtnWest),
                0x135 => Some(Key::BtnZ),
                0x136 => Some(Key::BtnTl),
                0x137 => Some(Key::BtnTr),
                0x138 => Some(Key::BtnTl2),
                0x139 => Some(Key::BtnTr2),
                0x13a => Some(Key::BtnSelect),
                0x13b => Some(Key::BtnStart),
                0x13c => Some(Key::BtnMode),
                0x13d => Some(Key::BtnThumbL),
                0x13e => Some(Key::BtnThumbR),
                _ => None,
            }
        } else if code < 0x180 {
            match code {
                0x140 => Some(Key::BtnToolPen),
                0x141 => Some(Key::BtnToolRubber),
                0x142 => Some(Key::BtnToolBrush),
                0x143 => Some(Key::BtnToolPencil),
                0x144 => Some(Key::BtnToolAirbrush),
                0x145 => Some(Key::BtnToolFinger),
                0x146 => Some(Key::BtnToolMouse),
                0x147 => Some(Key::BtnToolLens),
                0x148 => Some(Key::BtnToolQuintTap),
                0x14a => Some(Key::BtnTouch),
                0x14b => Some(Key::BtnStylus),
                0x14c => Some(Key::BtnStylus2),
                0x14d => Some(Key::BtnToolDoubleTap),
                0x14e => Some(Key::BtnToolTripleTap),
                0x14f => Some(Key::BtnToolQuadTap),
                0x150 => Some(Key::BtnGearDown),
                0x151 => Some(Key::BtnGearUp),
                0x160 => Some(Key::KeyOk),
                0x161 => Some(Key::KeySelect),
                0x162 => Some(Key::KeyGoto),
                0x163 => Some(Key::KeyClear),
                0x164 => Some(Key::KeyPower2),
                0x165 => Some(Key::KeyOption),
                0x166 => Some(Key::KeyInfo),
                0x167 => Some(Key::KeyTime),
                0x168 => Some(Key::KeyVendor),
                0x169 => Some(Key::KeyArchive),
                0x16a => Some(Key::KeyProgram),
                0x16b => Some(Key::KeyChannel),
                0x16c => Some(Key::KeyFavorites),
                0x16d => Some(Key::KeyEpg),
                0x16e => Some(Key::KeyPvr),
                0x16f => Some(Key::KeyMhp),
                0x170 => Some(Key::KeyLanguage),
                0x171 => Some(Key::KeyTitle),
                0x172 => Some(Key::KeySubtitle),
                0x173 => Some(Key::KeyAngle),
                0x174 => Some(Key::KeyZoom),
                0x175 => Some(Key::KeyMode),
                0x176 => Some(Key::KeyKeyboard),
                0x177 => Some(Key::KeyScreen),
                0x178 => Some(Key::KeyPc),
                0x179 => Some(Key::KeyTv),
                0x17a => Some(Key::KeyTv2),
                0x17b => Some(Key::KeyVcr),
                0x17c => Some(Key::KeyVcr2),
                0x17d => Some(Key::KeySat),
                0x17e => Some(Key::KeySat2),
                0x17f => Some(Key::KeyCd),
                _ => None,
            }
        } else if code < 0x1c0 {
            match code {
                0x180 => Some(Key::KeyTape),
                0x181 => Some(Key::KeyRadio),
                0x182 => Some(Key::KeyTuner),
                0x183 => Some(Key::KeyPlayer),
                0x184 => Some(Key::KeyText),
                0x185 => Some(Key::KeyDvd),
                0x186 => Some(Key::KeyAux),
                0x187 => Some(Key::KeyMp3),
                0x188 => Some(Key::KeyAudio),
                0x189 => Some(Key::KeyVideo),
                0x18a => Some(Key::KeyDirectory),
                0x18b => Some(Key::KeyList),
                0x18c => Some(Key::KeyMemo),
                0x18d => Some(Key::KeyCalendar),
                0x18e => Some(Key::KeyRed),
                0x18f => Some(Key::KeyGreen),
                0x190 => Some(Key::KeyYellow),
                0x191 => Some(Key::KeyBlue),
                0x192 => Some(Key::KeyChannelUp),
                0x193 => Some(Key::KeyChannelDown),
                0x194 => Some(Key::KeyFirst),
                0x195 => Some(Key::KeyLast),
                0x196 => Some(Key::KeyAb),
                0x197 => Some(Key::KeyNext),
                0x198 => Some(Key::KeyRestart),
                0x199 => Some(Key::KeySlow),
                0x19a => Some(Key::KeyShuffle),
                0x19b => Some(Key::KeyBreak),
                0x19c => Some(Key::KeyPrevious),
                0x19d => Some(Key::KeyDigits),
                0x19e => Some(Key::KeyTeen),
                0x19f => Some(Key::KeyTwen),
                0x1a0 => Some(Key::KeyVideophone),
                0x1a1 => Some(Key::KeyGames),
                0x1a2 => Some(Key::KeyZoomIn),
                0x1a3 => Some(Key::KeyZoomOut),
                0x1a4 => Some(Key::KeyZoomReset),
                0x1a5 => Some(Key::KeyWordProcessor),
                0x1a6 => Some(Key::KeyEditor),
                0x1a7 => Some(Key::KeySpreadsheet),
                0x1a8 => Some(Key::KeyGraphicsEditor),
                0x1a9 => Some(Key::KeyPresentation),
                0x1aa => Some(Key::KeyDatabase),
                0x1ab => Some(Key::KeyNews),
                0x1ac => Some(Key::KeyVoiceMail),
                0x1ad => Some(Key::KeyAddressBook),
                0x1ae => Some(Key::KeyMessenger),
                0x1af => Some(Key::KeyDisplayToggle),
                0x1b0 => Some(Key::KeySpellcheck),
                0x1b1 => Some(Key::KeyLogoff),
                0x1b2 => Some(Key::KeyDollar),
                0x1b3 => Some(Key::KeyEuro),
                0x1b4 => Some(Key::KeyFrameBack),
                0x1b5 => Some(Key::KeyFrameForward),
                0x1b6 => Some(Key::KeyContextMenu),
                0x1b7 => Some(Key::KeyMediaRepeat),
                0x1b8 => Some(Key::Key10ChannelsUp),
                0x1b9 => Some(Key::Key10ChannelsDown),
                0x1ba => Some(Key::KeyImages),
                _ => None,
            }
        } else if code < 0x200 {
            match code {
                0x1c0 => Some(Key::KeyDelEol),
                0x1c1 => Some(Key::KeyDelEos),
                0x1c2 => Some(Key::KeyInsLine),
                0x1c3 => Some(Key::KeyDelLine),
                0x1d0 => Some(Key::KeyFn),
                0x1d1 => Some(Key::KeyFnEsc),
                0x1d2 => Some(Key::KeyFnF1),
                0x1d3 => Some(Key::KeyFnF2),
                0x1d4 => Some(Key::KeyFnF3),
                0x1d5 => Some(Key::KeyFnF4),
                0x1d6 => Some(Key::KeyFnF5),
                0x1d7 => Some(Key::KeyFnF6),
                0x1d8 => Some(Key::KeyFnF7),
                0x1d9 => Some(Key::KeyFnF8),
                0x1da => Some(Key::KeyFnF9),
                0x1db => Some(Key::KeyFnF10),
                0x1dc => Some(Key::KeyFnF11),
                0x1dd => Some(Key::KeyFnF12),
                0x1de => Some(Key::KeyFn1),
                0x1df => Some(Key::KeyFn2),
                0x1e0 => Some(Key::KeyFnD),
                0x1e1 => Some(Key::KeyFnE),
                0x1e2 => Some(Key::KeyFnF),
                0x1e3 => Some(Key::KeyFnS),
                0x1e4 => Some(Key::KeyFnB),
                0x1f1 => Some(Key::KeyBrlDot1),
                0x1f2 => Some(Key::KeyBrlDot2),
                0x1f3 => Some(Key::KeyBrlDot3),
                0x1f4 => Some(Key::KeyBrlDot4),
                0x1f5 => Some(Key::KeyBrlDot5),
                0x1f6 => Some(Key::KeyBrlDot6),
                0x1f7 => Some(Key::KeyBrlDot7),
                0x1f8 => Some(Key::KeyBrlDot8),
                0x1f9 => Some(Key::KeyBrlDot9),
                0x1fa => Some(Key::KeyBrlDot10),
                _ => None,
            }
        } else if code < 0x240 {
            match code {
                0x200 => Some(Key::KeyNumeric0),
                0x201 => Some(Key::KeyNumeric1),
                0x202 => Some(Key::KeyNumeric2),
                0x203 => Some(Key::KeyNumeric3),
                0x204 => Some(Key::KeyNumeric4),
                0x205 => Some(Key::KeyNumeric5),
                0x206 => Some(Key::KeyNumeric6),
                0x207 => Some(Key::KeyNumeric7),
                0x208 => Some(Key::KeyNumeric8),
                0x209 => Some(Key::KeyNumeric9),
                0x20a => Some(Key::KeyNumericStar),
                0x20b => Some(Key::KeyNumericPound),
                0x210 => Some(Key::KeyCameraFocus),
                0x211 => Some(Key::KeyWpsButton),
                0x212 => Some(Key::KeyTouchpadToggle),
                0x213 => Some(Key::KeyTouchpadOn),
                0x214 => Some(Key::KeyTouchpadOff),
                0x215 => Some(Key::KeyCameraZoomIn),
                0x216 => Some(Key::KeyCameraZoomOut),
                0x217 => Some(Key::KeyCameraUp),
                0x218 => Some(Key::KeyCameraDown),
                0x219 => Some(Key::KeyCameraLeft),
                0x21a => Some(Key::KeyCameraRight),
                0x21b => Some(Key::KeyAttendantOn),
                0x21c => Some(Key::KeyAttendantOff),
                0x21d => Some(Key::KeyAttendantToggle),
                0x21e => Some(Key::KeyLightsToggle),
                0x220 => Some(Key::BtnDpadUp),
                0x221 => Some(Key::BtnDpadDown),
                0x222 => Some(Key::BtnDpadLeft),
                0x223 => Some(Key::BtnDpadRight),
                0x230 => Some(Key::KeyAlsToggle),
                _ => None,
            }
        } else if code < 0x280 {
            match code {
                0x240 => Some(Key::KeyButtonConfig),
                0x241 => Some(Key::KeyTaskManager),
                0x242 => Some(Key::KeyJournal),
                0x243 => Some(Key::KeyControlPanel),
                0x244 => Some(Key::KeyAppSelect),
                0x245 => Some(Key::KeyScreenSaver),
                0x246 => Some(Key::KeyVoiceCommand),
                0x250 => Some(Key::KeyBrightnessMin),
                0x251 => Some(Key::KeyBrightnessMax),
                0x260 => Some(Key::KeyKbdinputassistPrev),
                0x261 => Some(Key::KeyKbdinputassistNext),
                0x262 => Some(Key::KeyKbdinputassistPrevgroup),
                0x263 => Some(Key::KeyKbdinputassistNextgroup),
                0x264 => Some(Key::KeyKbdinputassistAccept),
                0x265 => Some(Key::KeyKbdinputassistCancel),
                _ => None,
            }
        } else if code < 0x300 {
            match code {
                0x2c0 => Some(Key::BtnTriggerHappy1),
                0x2c1 => Some(Key::BtnTriggerHappy2),
                0x2c2 => Some(Key::BtnTriggerHappy3),
                0x2c3 => Some(Key::BtnTriggerHappy4),
                0x2c4 => Some(Key::BtnTriggerHappy5),
                0x2c5 => Some(Key::BtnTriggerHappy6),
                0x2c6 => Some(Key::BtnTriggerHappy7),
                0x2c7 => Some(Key::BtnTriggerHappy8),
                0x2c8 => Some(Key::BtnTriggerHappy9),
                0x2c9 => Some(Key::BtnTriggerHappy10),
                0x2ca => Some(Key::BtnTriggerHappy11),
                0x2cb => Some(Key::BtnTriggerHappy12),
                0x2cc => Some(Key::BtnTriggerHappy13),
                0x2cd => Some(Key::BtnTriggerHappy14),
                0x2ce => Some(Key::BtnTriggerHappy15),
                0x2cf => Some(Key::BtnTriggerHappy16),
                0x2d0 => Some(Key::BtnTriggerHappy17),
                0x2d1 => Some(Key::BtnTriggerHappy18),
                0x2d2 => Some(Key::BtnTriggerHappy19),
                0x2d3 => Some(Key::BtnTriggerHappy20),
                0x2d4 => Some(Key::BtnTriggerHappy21),
                0x2d5 => Some(Key::BtnTriggerHappy22),
                0x2d6 => Some(Key::BtnTriggerHappy23),
                0x2d7 => Some(Key::BtnTriggerHappy24),
                0x2d8 => Some(Key::BtnTriggerHappy25),
                0x2d9 => Some(Key::BtnTriggerHappy26),
                0x2da => Some(Key::BtnTriggerHappy27),
                0x2db => Some(Key::BtnTriggerHappy28),
                0x2dc => Some(Key::BtnTriggerHappy29),
                0x2dd => Some(Key::BtnTriggerHappy30),
                0x2de => Some(Key::BtnTriggerHappy31),
                0x2df => Some(Key::BtnTriggerHappy32),
                0x2e0 => Some(Key::BtnTriggerHappy33),
                0x2e1 => Some(Key::BtnTriggerHappy34),
                0x2e2 => Some(Key::BtnTriggerHappy35),
                0x2e3 => Some(Key::BtnTriggerHappy36),
                0x2e4 => Some(Key::BtnTriggerHappy37),
                0x2e5 => Some(Key::BtnTriggerHappy38),
                0x2e6 => Some(Key::BtnTriggerHappy39),
                0x2e7 => Some(Key::BtnTriggerHappy40),
                0x2ff => Some(Key::KeyMax),
                _ => None,
            }
        } else {
            None
        }
    }

    /// The key with the given code. Codes that the table does not hold give `None`.
    pub fn from_code(code: u16) -> (key: Option<Key>)
        ensures
            key == Key::spec_from_code(code),
            match key {
                Some(k) => k.spec_code() == code,
                None => forall|k: Key| k.spec_code() != code,
            },
    {
        proof {
            lemma_from_code_inverts_code(code);
        }
        if code < 0x40 {
            match code {
                0 => Some(Key::KeyReserved),
                1 => Some(Key::KeyEsc),
                2 => Some(Key::Key1),
                3 => Some(Key::Key2),
                4 => Some(Key::Key3),
                5 => Some(Key::Key4),
                6 => Some(Key::Key5),
                7 => Some(Key::Key6),
                8 => Some(Key::Key7),
                9 => Some(Key::Key8),
                10 => Some(Key::Key9),
                11 => Some(Key::Key0),
                12 => Some(Key::KeyMinus),
                13 => Some(Key::KeyEqual),
                14 => Some(Key::KeyBackspace),
                15 => Some(Key::KeyTab),
                16 => Some(Key::KeyQ),
                17 => Some(Key::KeyW),
                18 => Some(Key::KeyE),
                19 => Some(Key::KeyR),
                20 => Some(Key::KeyT),
                21 => Some(Key::KeyY),
                22 => Some(Key::KeyU),
                23 => Some(Key::KeyI),
                24 => Some(Key::KeyO),
                25 => Some(Key::KeyP),
                26 => Some(Key::KeyLeftBrace),
                27 => Some(Key::KeyRightBrace),
                28 => Some(Key::KeyEnter),
                29 => Some(Key::KeyLeftCtrl),
                30 => Some(Key::KeyA),
                31 => Some(Key::KeyS),
                32 => Some(Key::KeyD),
                33 => Some(Key::KeyF),
                34 => Some(Key::KeyG),
                35 => Some(Key::KeyH),
                36 => Some(Key::KeyJ),
                37 => Some(Key::KeyK),
                38 => Some(Key::KeyL),
                39 => Some(Key::KeySemicolon),
                40 => Some(Key::KeyApostrophe),
                41 => Some(Key::KeyGrave),
                42 => Some(Key::KeyLeftShift),
                43 => Some(Key::KeyBackslash),
                44 => Some(Key::KeyZ),
                45 => Some(Key::KeyX),
                46 => Some(Key::KeyC),
                47 => Some(Key::KeyV),
                48 => Some(Key::KeyB),
                49 => Some(Key::KeyN),
                50 => Some(Key::KeyM),
                51 => Some(Key::KeyComma),
                52 => Some(Key::KeyDot),
                53 => Some(Key::KeySlash),
                54 => Some(Key::KeyRightShift),
                55 => Some(Key::KeyKpAsterisk),
                56 => Some(Key::KeyLeftAlt),
                57 => Some(Key::KeySpace),
                58 => Some(Key::KeyCapsLock),
                59 => Some(Key::KeyF1),
                60 => Some(Key::KeyF2),
                61 => Some(Key::KeyF3),
                62 => Some(Key::KeyF4),
                63 => Some(Key::KeyF5),
                _ => None,
            }
        } else if code < 0x80 {
            match code {
                64 => Some(Key::KeyF6),
                65 => Some(Key::KeyF7),
                66 => Some(Key::KeyF8),
                67 => Some(Key::KeyF9),
                68 => Some(Key::KeyF10),
                69 => Some(Key::KeyNumLock),
                70 => Some(Key::KeyScrollLock),
                71 => Some(Key::KeyKp7),
                72 => Some(Key::KeyKp8),
                73 => Some(Key::KeyKp9),
                74 => Some(Key::KeyKpMinus),
                75 => Some(Key::KeyKp4),
                76 => Some(Key::KeyKp5),
                77 => Some(Key::KeyKp6),
                78 => Some(Key::KeyKpPlus),
                79 => Some(Key::KeyKp1),
                80 => Some(Key::KeyKp2),
                81 => Some(Key::KeyKp3),
                82 => Some(Key::KeyKp0),
                83 => Some(Key::KeyKpDot),
                85 => Some(Key::KeyZenkakuhankaku),
                86 => Some(Key::Key102nd),
                87 => Some(Key::KeyF11),
                88 => Some(Key::KeyF12),
                89 => Some(Key::KeyRo),
                90 => Some(Key::KeyKatakana),
                91 => Some(Key::KeyHiragana),
                92 => Some(Key::KeyHenkan),
                93 => Some(Key::KeyKatakanahiragana),
                94 => Some(Key::KeyMuhenkan),
                95 => Some(Key::KeyKpJpComma),
                96 => Some(Key::KeyKpEnter),
                97 => Some(Key::KeyRightCtrl),
                98 => Some(Key::KeyKpSlash),
                99 => Some(Key::KeySysRQ),
                100 => Some(Key::KeyRightAlt),
                101 => Some(Key::KeyLinefeed),
                102 => Some(Key::KeyHome),
                103 => Some(Key::KeyUp),
                104 => Some(Key::KeyPageup),
                105 => Some(Key::KeyLeft),
                106 => Some(Key::KeyRight),
                107 => Some(Key::KeyEnd),
                108 => Some(Key::KeyDown),
                109 => Some(Key::KeyPagedown),
                110 => Some(Key::KeyInsert),
                111 => Some(Key::KeyDelete),
                112 => Some(Key::KeyMacro),
                113 => Some(Key::KeyMute),
                114 => Some(Key::KeyVolumeDown),
                115 => Some(Key::KeyVolumeUp),
                116 => Some(Key::KeyPower),
                117 => Some(Key::KeyKpEqual),
                118 => Some(Key::KeyKpPlusMinus),
                119 => Some(Key::KeyPause),
                120 => Some(Key::KeyScale),
                121 => Some(Key::KeyKpComma),
                122 => Some(Key::KeyHangeul),
                123 => Some(Key::KeyHanja),
                124 => Some(Key::KeyYen),
                125 => Some(Key::KeyLeftMeta),
                126 => Some(Key::KeyRightMeta),
                127 => Some(Key::KeyCompose),
                _ => None,
            }
        } else if code < 0xc0 {
            match code {
                128 => Some(Key::KeyStop),
                129 => Some(Key::KeyAgain),
                130 => Some(Key::KeyProps),
                131 => Some(Key::KeyUndo),
                132 => Some(Key::KeyFront),
                133 => Some(Key::KeyCopy),
                134 => Some(Key::KeyOpen),
                135 => Some(Key::KeyPaste),
                136 => Some(Key::KeyFind),
                137 => Some(Key::KeyCut),
                138 => Some(Key::KeyHelp),
                139 => Some(Key::KeyMenu),
                140 => Some(Key::KeyCalc),
                141 => Some(Key::KeySetup),
                142 => Some(Key::KeySleep),
                143 => Some(Key::KeyWakeup),
                144 => Some(Key::KeyFile),
                145 => Some(Key::KeySendfile),
                146 => Some(Key::KeyDeleteFile),
                147 => Some(Key::KeyXfer),
                148 => Some(Key::KeyProg1),
                149 => Some(Key::KeyProg2),
                150 => Some(Key::KeyWww),
                151 => Some(Key::KeyMsDos),
                152 => Some(Key::KeyCoffee),
                153 => Some(Key::KeyDirection),
                154 => Some(Key::KeyCycleWindows),
                155 => Some(Key::KeyMail),
                156 => Some(Key::KeyBookmarks),
                157 => Some(Key::KeyComputer),
                158 => Some(Key::KeyBack),
                159 => Some(Key::KeyForward),
                160 => Some(Key::KeyCloseCd),
                161 => Some(Key::KeyEjectCd),
                162 => Some(Key::KeyEjectCloseCd),
                163 => Some(Key::KeyNextSong),
                164 => Some(Key::KeyPlayPause),
                165 => Some(Key::KeyPreviousSong),
                166 => Some(Key::KeyStopCd),
                167 => Some(Key::KeyRecord),
                168 => Some(Key::KeyRewind),
                169 => Some(Key::KeyPhone),
                170 => Some(Key::KeyIso),
                171 => Some(Key::KeyConfig),
                172 => Some(Key::KeyHomepage),
                173 => Some(Key::KeyRefresh),
                174 => Some(Key::KeyExit),
                175 => Some(Key::KeyMove),
                176 => Some(Key::KeyEdit),
                177 => Some(Key::KeyScrollUp),
                178 => Some(Key::KeyScrollDown),
                179 => Some(Key::KeyKpLeftParen),
                180 => Some(Key::KeyKpRightParen),
                181 => Some(Key::KeyNew),
                182 => Some(Key::KeyRedo),
                183 => Some(Key::KeyF13),
                184 => Some(Key::KeyF14),
                185 => Some(Key::KeyF15),
                186 => Some(Key::KeyF16),
                187 => Some(Key::KeyF17),
                188 => Some(Key::KeyF18),
                189 => Some(Key::KeyF19),
                190 => Some(Key::KeyF20),
                191 => Some(Key::KeyF21),
                _ => None,
            }
        } else if code < 0x100 {
            match code {
                192 => Some(Key::KeyF22),
                193 => Some(Key::KeyF23),
                194 => Some(Key::KeyF24),
                200 => Some(Key::KeyPlayCd),
                201 => Some(Key::KeyPauseCd),
                202 => Some(Key::KeyProg3),
                203 => Some(Key::KeyProg4),
                204 => Some(Key::KeyDashboard),
                205 => Some(Key::KeySuspend),
                206 => Some(Key::KeyClose),
                207 => Some(Key::KeyPlay),
                208 => Some(Key::KeyFastForward),
                209 => Some(Key::KeyBassBoost),
                210 => Some(Key::KeyPrint),
                211 => Some(Key::KeyHp),
                212 => Some(Key::KeyCamera),
                213 => Some(Key::KeySound),
                214 => Some(Key::KeyQuestion),
                215 => Some(Key::KeyEmail),
                216 => Some(Key::KeyChat),
                217 => Some(Key::KeySearch),
                218 => Some(Key::KeyConnect),
                219 => Some(Key::KeyFinance),
                220 => Some(Key::KeySport),
                221 => Some(Key::KeyShop),
                222 => Some(Key::KeyAltErase),
                223 => Some(Key::KeyCancel),
                224 => Some(Key::KeyBrightnessDown),
                225 => Some(Key::KeyBrightnessUp),
                226 => Some(Key::KeyMedia),
                227 => Some(Key::KeySwitchVideoMode),
                228 => Some(Key::KeyKbDillumToggle),
                229 => Some(Key::KeyKbDillumDown),
                230 => Some(Key::KeyKbDillumUp),
                231 => Some(Key::KeySend),
                232 => Some(Key::KeyReply),
                233 => Some(Key::KeyForwardMail),
                234 => Some(Key::KeySave),
                235 => Some(Key::KeyDocuments),
                236 => Some(Key::KeyBattery),
                237 => Some(Key::KeyBluetooth),
                238 => Some(Key::KeyWlan),
                239 => Some(Key::KeyUwb),
                240 => Some(Key::KeyUnknown),
                241 => Some(Key::KeyVideoNext),
                242 => Some(Key::KeyVideoPrev),
                243 => Some(Key::KeyBrightnessCycle),
                244 => Some(Key::KeyBrightnessAuto),
                245 => Some(Key::KeyDisplayOff),
                246 => Some(Key::KeyWwan),
                247 => Some(Key::KeyRfKill),
                248 => Some(Key::KeyMicMute),
                _ => None,
            }
        } else if code < 0x140 {
            match code {
                0x100 => Some(Key::Btn0),
                0x101 => Some(Key::Btn1),
                0x102 => Some(Key::Btn2),
                0x103 => Some(Key::Btn3),
                0x104 => Some(Key::Btn4),
                0x105 => Some(Key::Btn5),
                0x106 => Some(Key::Btn6),
                0x107 => Some(Key::Btn7),
                0x108 => Some(Key::Btn8),
                0x109 => Some(Key::Btn9),
                0x110 => Some(Key::BtnLeft),
                0x111 => Some(Key::BtnRight),
                0x112 => Some(Key::BtnMiddle),
                0x113 => Some(Key::BtnSide),
                0x114 => Some(Key::BtnExtra),
                0x115 => Some(Key::BtnForward),
                0x116 => Some(Key::BtnBack),
                0x117 => Some(Key::BtnTask),
                0x120 => Some(Key::BtnTrigger),
                0x121 => Some(Key::BtnThumb),
                0x122 => Some(Key::BtnThumb2),
                0x123 => Some(Key::BtnTop),
                0x124 => Some(Key::BtnTop2),
                0x125 => Some(Key::BtnPinkie),
                0x126 => Some(Key::BtnBase),
                0x127 => Some(Key::BtnBase2),
                0x128 => Some(Key::BtnBase3),
                0x129 => Some(Key::BtnBase4),
                0x12a => Some(Key::BtnBase5),
                0x12b => Some(Key::BtnBase6),
                0x12f => Some(Key::BtnDead),
                0x130 => Some(Key::BtnSouth),
                0x131 => Some(Key::BtnEast),
                0x132 => Some(Key::BtnC),
                0x133 => Some(Key::BtnNorth),
                0x134 => Some(Key::BtnWest),
                0x135 => Some(Key::BtnZ),
                0x136 => Some(Key::BtnTl),
                0x137 => Some(Key::BtnTr),
                0x138 => Some(Key::BtnTl2),
                0x139 => Some(Key::BtnTr2),
                0x13a => Some(Key::BtnSelect),
                0x13b => Some(Key::BtnStart),
                0x13c => Some(Key::BtnMode),
                0x13d => Some(Key::BtnThumbL),
                0x13e => Some(Key::BtnThumbR),
                _ => None,
            }
        } else if code < 0x180 {
            match code {
                0x140 => Some(Key::BtnToolPen),
                0x141 => Some(Key::BtnToolRubber),
                0x142 => Some(Key::BtnToolBrush),
                0x143 => Some(Key::BtnToolPencil),
                0x144 => Some(Key::BtnToolAirbrush),
                0x145 => Some(Key::BtnToolFinger),
                0x146 => Some(Key::BtnToolMouse),
                0x147 => Some(Key::BtnToolLens),
                0x148 => Some(Key::BtnToolQuintTap),
                0x14a => Some(Key::BtnTouch),
                0x14b => Some(Key::BtnStylus),
                0x14c => Some(Key::BtnStylus2),
                0x14d => Some(Key::BtnToolDoubleTap),
                0x14e => Some(Key::BtnToolTripleTap),
                0x14f => Some(Key::BtnToolQuadTap),
                0x150 => Some(Key::BtnGearDown),
                0x151 => Some(Key::BtnGearUp),
                0x160 => Some(Key::KeyOk),
                0x161 => Some(Key::KeySelect),
                0x162 => Some(Key::KeyGoto),
                0x163 => Some(Key::KeyClear),
                0x164 => Some(Key::KeyPower2),
                0x165 => Some(Key::KeyOption),
                0x166 => Some(Key::KeyInfo),
                0x167 => Some(Key::KeyTime),
                0x168 => Some(Key::KeyVendor),
                0x169 => Some(Key::KeyArchive),
                0x16a => Some(Key::KeyProgram),
                0x16b => Some(Key::KeyChannel),
                0x16c => Some(Key::KeyFavorites),
                0x16d => Some(Key::KeyEpg),
                0x16e => Some(Key::KeyPvr),
                0x16f => Some(Key::KeyMhp),
                0x170 => Some(Key::KeyLanguage),
                0x171 => Some(Key::KeyTitle),
                0x172 => Some(Key::KeySubtitle),
                0x173 => Some(Key::KeyAngle),
                0x174 => Some(Key::KeyZoom),
                0x175 => Some(Key::KeyMode),
                0x176 => Some(Key::KeyKeyboard),
                0x177 => Some(Key::KeyScreen),
                0x178 => Some(Key::KeyPc),
                0x179 => Some(Key::KeyTv),
                0x17a => Some(Key::KeyTv2),
                0x17b => Some(Key::KeyVcr),
                0x17c => Some(Key::KeyVcr2),
                0x17d => Some(Key::KeySat),
                0x17e => Some(Key::KeySat2),
                0x17f => Some(Key::KeyCd),
                _ => None,
            }
        } else if code < 0x1c0 {
            match code {
                0x180 => Some(Key::KeyTape),
                0x181 => Some(Key::KeyRadio),
                0x182 => Some(Key::KeyTuner),
                0x183 => Some(Key::KeyPlayer),
                0x184 => Some(Key::KeyText),
                0x185 => Some(Key::KeyDvd),
                0x186 => Some(Key::KeyAux),
                0x187 => Some(Key::KeyMp3),
                0x188 => Some(Key::KeyAudio),
                0x189 => Some(Key::KeyVideo),
                0x18a => Some(Key::KeyDirectory),
                0x18b => Some(Key::KeyList),
                0x18c => Some(Key::KeyMemo),
                0x18d => Some(Key::KeyCalendar),
                0x18e => Some(Key::KeyRed),
                0x18f => Some(Key::KeyGreen),
                0x190 => Some(Key::KeyYellow),
                0x191 => Some(Key::KeyBlue),
                0x192 => Some(Key::KeyChannelUp),
                0x193 => Some(Key::KeyChannelDown),
                0x194 => Some(Key::KeyFirst),
                0x195 => Some(Key::KeyLast),
                0x196 => Some(Key::KeyAb),
                0x197 => Some(Key::KeyNext),
                0x198 => Some(Key::KeyRestart),
                0x199 => Some(Key::KeySlow),
                0x19a => Some(Key::KeyShuffle),
                0x19b => Some(Key::KeyBreak),
                0x19c => Some(Key::KeyPrevious),
                0x19d => Some(Key::KeyDigits),
                0x19e => Some(Key::KeyTeen),
                0x19f => Some(Key::KeyTwen),
                0x1a0 => Some(Key::KeyVideophone),
                0x1a1 => Some(Key::KeyGames),
                0x1a2 => Some(Key::KeyZoomIn),
                0x1a3 => Some(Key::KeyZoomOut),
                0x1a4 => Some(Key::KeyZoomReset),
                0x1a5 => Some(Key::KeyWordProcessor),
                0x1a6 => Some(Key::KeyEditor),
                0x1a7 => Some(Key::KeySpreadsheet),
                0x1a8 => Some(Key::KeyGraphicsEditor),
                0x1a9 => Some(Key::KeyPresentation),
                0x1aa => Some(Key::KeyDatabase),
                0x1ab => Some(Key::KeyNews),
                0x1ac => Some(Key::KeyVoiceMail),
                0x1ad => Some(Key::KeyAddressBook),
                0x1ae => Some(Key::KeyMessenger),
                0x1af => Some(Key::KeyDisplayToggle),
                0x1b0 => Some(Key::KeySpellcheck),
                0x1b1 => Some(Key::KeyLogoff),
                0x1b2 => Some(Key::KeyDollar),
                0x1b3 => Some(Key::KeyEuro),
                0x1b4 => Some(Key::KeyFrameBack),
                0x1b5 => Some(Key::KeyFrameForward),
                0x1b6 => Some(Key::KeyContextMenu),
                0x1b7 => Some(Key::KeyMediaRepeat),
                0x1b8 => Some(Key::Key10ChannelsUp),
                0x1b9 => Some(Key::Key10ChannelsDown),
                0x1ba => Some(Key::KeyImages),
                _ => None,
            }
        } else if code < 0x200 {
            match code {
                0x1c0 => Some(Key::KeyDelEol),
                0x1c1 => Some(Key::KeyDelEos),
                0x1c2 => Some(Key::KeyInsLine),
                0x1c3 => Some(Key::KeyDelLine),
                0x1d0 => Some(Key::KeyFn),
                0x1d1 => Some(Key::KeyFnEsc),
                0x1d2 => Some(Key::KeyFnF1),
                0x1d3 => Some(Key::KeyFnF2),
                0x1d4 => Some(Key::KeyFnF3),
                0x1d5 => Some(Key::KeyFnF4),
                0x1d6 => Some(Key::KeyFnF5),
                0x1d7 => Some(Key::KeyFnF6),
                0x1d8 => Some(Key::KeyFnF7),
                0x1d9 => Some(Key::KeyFnF8),
                0x1da => Some(Key::KeyFnF9),
                0x1db => Some(Key::KeyFnF10),
                0x1dc => Some(Key::KeyFnF11),
                0x1dd => Some(Key::KeyFnF12),
                0x1de => Some(Key::KeyFn1),
                0x1df => Some(Key::KeyFn2),
                0x1e0 => Some(Key::KeyFnD),
                0x1e1 => Some(Key::KeyFnE),
                0x1e2 => Some(Key::KeyFnF),
                0x1e3 => Some(Key::KeyFnS),
                0x1e4 => Some(Key::KeyFnB),
                0x1f1 => Some(Key::KeyBrlDot1),
                0x1f2 => Some(Key::KeyBrlDot2),
                0x1f3 => Some(Key::KeyBrlDot3),
                0x1f4 => Some(Key::KeyBrlDot4),
                0x1f5 => Some(Key::KeyBrlDot5),
                0x1f6 => Some(Key::KeyBrlDot6),
                0x1f7 => Some(Key::KeyBrlDot7),
                0x1f8 => Some(Key::KeyBrlDot8),
                0x1f9 => Some(Key::KeyBrlDot9),
                0x1fa => Some(Key::KeyBrlDot10),
                _ => None,
            }
        } else if code < 0x240 {
            match code {
                0x200 => Some(Key::KeyNumeric0),
                0x201 => Some(Key::KeyNumeric1),
                0x202 => Some(Key::KeyNumeric2),
                0x203 => Some(Key::KeyNumeric3),
                0x204 => Some(Key::KeyNumeric4),
                0x205 => Some(Key::KeyNumeric5),
                0x206 => Some(Key::KeyNumeric6),
                0x207 => Some(Key::KeyNumeric7),
                0x208 => Some(Key::KeyNumeric8),
                0x209 => Some(Key::KeyNumeric9),
                0x20a => Some(Key::KeyNumericStar),
                0x20b => Some(Key::KeyNumericPound),
                0x210 => Some(Key::KeyCameraFocus),
                0x211 => Some(Key::KeyWpsButton),
                0x212 => Some(Key::KeyTouchpadToggle),
                0x213 => Some(Key::KeyTouchpadOn),
                0x214 => Some(Key::KeyTouchpadOff),
                0x215 => Some(Key::KeyCameraZoomIn),
                0x216 => Some(Key::KeyCameraZoomOut),
                0x217 => Some(Key::KeyCameraUp),
                0x218 => Some(Key::KeyCameraDown),
                0x219 => Some(Key::KeyCameraLeft),
                0x21a => Some(Key::KeyCameraRight),
                0x21b => Some(Key::KeyAttendantOn),
                0x21c => Some(Key::KeyAttendantOff),
                0x21d => Some(Key::KeyAttendantToggle),
                0x21e => Some(Key::KeyLightsToggle),
                0x220 => Some(Key::BtnDpadUp),
                0x221 => Some(Key::BtnDpadDown),
                0x222 => Some(Key::BtnDpadLeft),
                0x223 => Some(Key::BtnDpadRight),
                0x230 => Some(Key::KeyAlsToggle),
                _ => None,
            }
        } else if code < 0x280 {
            match code {
                0x240 => Some(Key::KeyButtonConfig),
                0x241 => Some(Key::KeyTaskManager),
                0x242 => Some(Key::KeyJournal),
                0x243 => Some(Key::KeyControlPanel),
                0x244 => Some(Key::KeyAppSelect),
                0x245 => Some(Key::KeyScreenSaver),
                0x246 => Some(Key::KeyVoiceCommand),
                0x250 => Some(Key::KeyBrightnessMin),
                0x251 => Some(Key::KeyBrightnessMax),
                0x260 => Some(Key::KeyKbdinputassistPrev),
                0x261 => Some(Key::KeyKbdinputassistNext),
                0x262 => Some(Key::KeyKbdinputassistPrevgroup),
                0x263 => Some(Key::KeyKbdinputassistNextgroup),
                0x264 => Some(Key::KeyKbdinputassistAccept),
                0x265 => Some(Key::KeyKbdinputassistCancel),
                _ => None,
            }
        } else if code < 0x300 {
            match code {
                0x2c0 => Some(Key::BtnTriggerHappy1),
                0x2c1 => Some(Key::BtnTriggerHappy2),
                0x2c2 => Some(Key::BtnTriggerHappy3),
                0x2c3 => Some(Key::BtnTriggerHappy4),
                0x2c4 => Some(Key::BtnTriggerHappy5),
                0x2c5 => Some(Key::BtnTriggerHappy6),
                0x2c6 => Some(Key::BtnTriggerHappy7),
                0x2c7 => Some(Key::BtnTriggerHappy8),
                0x2c8 => Some(Key::BtnTriggerHappy9),
                0x2c9 => Some(Key::BtnTriggerHappy10),
                0x2ca => Some(Key::BtnTriggerHappy11),
                0x2cb => Some(Key::BtnTriggerHappy12),
                0x2cc => Some(Key::BtnTriggerHappy13),
                0x2cd => Some(Key::BtnTriggerHappy14),
                0x2ce => Some(Key::BtnTriggerHappy15),
                0x2cf => Some(Key::BtnTriggerHappy16),
                0x2d0 => Some(Key::BtnTriggerHappy17),
                0x2d1 => Some(Key::BtnTriggerHappy18),
                0x2d2 => Some(Key::BtnTriggerHappy19),
                0x2d3 => Some(Key::BtnTriggerHappy20),
                0x2d4 => Some(Key::BtnTriggerHappy21),
                0x2d5 => Some(Key::BtnTriggerHappy22),
                0x2d6 => Some(Key::BtnTriggerHappy23),
                0x2d7 => Some(Key::BtnTriggerHappy24),
                0x2d8 => Some(Key::BtnTriggerHappy25),
                0x2d9 => Some(Key::BtnTriggerHappy26),
                0x2da => Some(Key::BtnTriggerHappy27),
                0x2db => Some(Key::BtnTriggerHappy28),
                0x2dc => Some(Key::BtnTriggerHappy29),
                0x2dd => Some(Key::BtnTriggerHappy30),
                0x2de => Some(Key::BtnTriggerHappy31),
                0x2df => Some(Key::BtnTriggerHappy32),
                0x2e0 => Some(Key::BtnTriggerHappy33),
                0x2e1 => Some(Key::BtnTriggerHappy34),
                0x2e2 => Some(Key::BtnTriggerHappy35),
                0x2e3 => Some(Key::BtnTriggerHappy36),
                0x2e4 => Some(Key::BtnTriggerHappy37),
                0x2e5 => Some(Key::BtnTriggerHappy38),
                0x2e6 => Some(Key::BtnTriggerHappy39),
                0x2e7 => Some(Key::BtnTriggerHappy40),
                0x2ff => Some(Key::KeyMax),
                _ => None,
            }
        } else {
            None
        }
    }

    /// Whether the key types one of the digits 0-9 or one of the letters A-Z.
    pub open spec fn spec_is_ascii_alpha_numeric(self) -> bool {
        match self {
            Key::Key0 | Key::Key1 | Key::Key2 | Key::Key3 | Key::Key4 | Key::Key5 | Key::Key6 |
            Key::Key7 | Key::Key8 | Key::Key9
            => true,
            Key::KeyA | Key::KeyB | Key::KeyC | Key::KeyD | Key::KeyE | Key::KeyF | Key::KeyG |
            Key::KeyH | Key::KeyI | Key::KeyJ | Key::KeyK | Key::KeyL | Key::KeyM | Key::KeyN |
            Key::KeyO | Key::KeyP | Key::KeyQ | Key::KeyR | Key::KeyS | Key::KeyT | Key::KeyU |
            Key::KeyV | Key::KeyW | Key::KeyX | Key::KeyY | Key::KeyZ
            => true,
            _ => false,
        }
    }

    /// Whether the key types one of the digits 0-9 or one of the letters A-Z:
    /// these are the keys that are named `Key` and that digit or letter.
    pub fn is_ascii_alpha_numeric(&self) -> (b: bool)
        ensures
            b == self.spec_is_ascii_alpha_numeric(),
            b == is_letter_or_digit_name(self.spec_name()),
    {
        proof {
            lemma_letter_or_digit_names(*self);
        }
        match self {
            Key::Key0 => true,
            Key::Key1 => true,
            Key::Key2 => true,
            Key::Key3 => true,
            Key::Key4 => true,
            Key::Key5 => true,
            Key::Key6 => true,
            Key::Key7 => true,
            Key::Key8 => true,
            Key::Key9 => true,
            Key::KeyA => true,
            Key::KeyB => true,
            Key::KeyC => true,
            Key::KeyD => true,
            Key::KeyE => true,
            Key::KeyF => true,
            Key::KeyG => true,
            Key::KeyH => true,
            Key::KeyI => true,
            Key::KeyJ => true,
            Key::KeyK => true,
            Key::KeyL => true,
            Key::KeyM => true,
            Key::KeyN => true,
            Key::KeyO => true,
            Key::KeyP => true,
            Key::KeyQ => true,
            Key::KeyR => true,
            Key::KeyS => true,
            Key::KeyT => true,
            Key::KeyU => true,
            Key::KeyV => true,
            Key::KeyW => true,
            Key::KeyX => true,
            Key::KeyY => true,
            Key::KeyZ => true,
            _ => false,
        }
    }
}

/// Two keys with the same code are the same key.
pub proof fn lemma_code_injective(a: Key, b: Key)
    requires
        a.spec_code() == b.spec_code(),
    ensures
        a == b,
{
}

/// Looking up the code of a key gives the key back.
pub proof fn lemma_code_round_trip(k: Key)
    ensures
        Key::spec_from_code(k.spec_code()) == Some(k),
{
}

/// The table holds a key under its own code only, and misses no key.
#[verifier::rlimit(50)]
pub proof fn lemma_from_code_inverts_code(code: u16)
    ensures
        match Key::spec_from_code(code) {
            Some(k) => k.spec_code() == code,
            None => forall|k: Key| k.spec_code() != code,
        },
{
    assert forall|k: Key| k.spec_code() == code implies Key::spec_from_code(code) == Some(k) by {
        lemma_code_round_trip(k);
    }
    // The table is looked through one section at a time.
    if let Some(k) = Key::spec_from_code(code) {
        if code < 0x40 {
            assert(k.spec_code() == code);
        } else if code < 0x80 {
            assert(k.spec_code() == code);
        } else if code < 0xc0 {
            assert(k.spec_code() == code);
        } else if code < 0x100 {
            assert(k.spec_code() == code);
        } else if code < 0x140 {
            assert(k.spec_code() == code);
        } else if code < 0x180 {
            assert(k.spec_code() == code);
        } else if code < 0x1c0 {
            assert(k.spec_code() == code);
        } else if code < 0x200 {
            assert(k.spec_code() == code);
        } else if code < 0x240 {
            assert(k.spec_code() == code);
        } else if code < 0x280 {
            assert(k.spec_code() == code);
        } else if code < 0x300 {
            assert(k.spec_code() == code);
        }
    }
}

/// No key has a code above [`MAX_KEY_CODE`].
pub proof fn lemma_code_bounded(k: Key)
    ensures
        k.spec_code() <= MAX_KEY_CODE,
{
}

} // verus!
