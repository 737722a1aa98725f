use vstd::prelude::*;
use vstd::utf8::{decode_utf8, encode_utf8};
use vstd::string::{StringExecFns, StringSliceAdditionalSpecFns};

verus! {

/// Compares two byte strings.
fn bytes_eq(a: &[u8], b: &[u8]) -> (r: bool)
    ensures
        r == (a@ == b@),
{
    if a.len() != b.len() {
        return false;
    }
    let mut i: usize = 0;
    while i < a.len()
        invariant
            a@.len() == b@.len(),
            0 <= i <= a@.len(),
            forall|j: int| 0 <= j < i ==> a@[j] == b@[j],
        decreases a@.len() - i,
    {
        if a[i] != b[i] {
            return false;
        }
        i = i + 1;
    }
    assert(a@ =~= b@);
    true
}

/// Compares two strings by their UTF-8 bytes.
fn str_eq(a: &str, b: &str) -> (r: bool)
    ensures
        r == (a@ == b@),
{
    broadcast use vstd::utf8::encode_utf8_decode_utf8;

    let r = bytes_eq(a.as_bytes(), b.as_bytes());
    proof {
        if a.spec_bytes() == b.spec_bytes() {
            assert(decode_utf8(encode_utf8(a@)) == decode_utf8(encode_utf8(b@)));
        }
    }
    r
}

/// A physical key, named as by the DOM `KeyboardEvent.code` property.
#[derive(Copy, Clone, Debug, PartialEq, Eq, Structural, PartialOrd, Ord, Hash)]
pub enum KeyCode {
    Again,
    AltLeft,
    AltRight,
    ArrowDown,
    ArrowLeft,
    ArrowRight,
    ArrowUp,
    Backquote,
    Backslash,
    Backspace,
    BracketLeft,
    BracketRight,
    BrowserBack,
    BrowserFavorites,
    BrowserForward,
    BrowserHome,
    BrowserRefresh,
    BrowserSearch,
    BrowserStop,
    CapsLock,
    Comma,
    ContextMenu,
    ControlLeft,
    ControlRight,
    Convert,
    Copy,
    Cut,
    Delete,
    Digit0,
    Digit1,
    Digit2,
    Digit3,
    Digit4,
    Digit5,
    Digit6,
    Digit7,
    Digit8,
    Digit9,
    Eject,
    End,
    Enter,
    Equal,
    Escape,
    F1,
    F10,
    F11,
    F12,
    F13,
    F14,
    F15,
    F16,
    F17,
    F18,
    F19,
    F2,
    F20,
    F21,
    F22,
    F23,
    F24,
    F3,
    F4,
    F5,
    F6,
    F7,
    F8,
    F9,
    Find,
    Help,
    Home,
    Insert,
    IntlBackslash,
    IntlRo,
    IntlYen,
    KanaMode,
    KeyA,
    KeyB,
    KeyC,
    KeyD,
    KeyE,
    KeyF,
    KeyG,
    KeyH,
    KeyI,
    KeyJ,
    KeyK,
    KeyL,
    KeyM,
    KeyN,
    KeyO,
    KeyP,
    KeyQ,
    KeyR,
    KeyS,
    KeyT,
    KeyU,
    KeyV,
    KeyW,
    KeyX,
    KeyY,
    KeyZ,
    Lang1,
    Lang2,
    LaunchApp1,
    LaunchApp2,
    LaunchMail,
    MediaPlayPause,
    MediaSelect,
    MediaStop,
    MediaTrackNext,
    MediaTrackPrevious,
    MetaLeft,
    MetaRight,
    Minus,
    NonConvert,
    NumLock,
    Numpad0,
    Numpad1,
    Numpad2,
    Numpad3,
    Numpad4,
    Numpad5,
    Numpad6,
    Numpad7,
    Numpad8,
    Numpad9,
    NumpadAdd,
    NumpadComma,
    NumpadDecimal,
    NumpadDivide,
    NumpadEnter,
    NumpadEqual,
    NumpadMultiply,
    NumpadSubtract,
    Open,
    PageDown,
    PageUp,
    Paste,
    Pause,
    Period,
    PrintScreen,
    Props,
    Quote,
    ScrollLock,
    Select,
    Semicolon,
    ShiftLeft,
    ShiftRight,
    Slash,
    Space,
    Tab,
    Undo,
    VolumeDown,
    VolumeMute,
    VolumeUp,
    WakeUp,
}

impl KeyCode {
    /// The DOM `KeyboardEvent.code` name of the key.
    pub open spec fn spec_name(self) -> Seq<char> {
        match self {
            KeyCode::Again => "Again"@,
            KeyCode::AltLeft => "AltLeft"@,
            KeyCode::AltRight => "AltRight"@,
            KeyCode::ArrowDown => "ArrowDown"@,
            KeyCode::ArrowLeft => "ArrowLeft"@,
            KeyCode::ArrowRight => "ArrowRight"@,
            KeyCode::ArrowUp => "ArrowUp"@,
            KeyCode::Backquote => "Backquote"@,
            KeyCode::Backslash => "Backslash"@,
            KeyCode::Backspace => "Backspace"@,
            KeyCode::BracketLeft => "BracketLeft"@,
            KeyCode::BracketRight => "BracketRight"@,
            KeyCode::BrowserBack => "BrowserBack"@,
            KeyCode::BrowserFavorites => "BrowserFavorites"@,
            KeyCode::BrowserForward => "BrowserForward"@,
            KeyCode::BrowserHome => "BrowserHome"@,
            KeyCode::BrowserRefresh => "BrowserRefresh"@,
            KeyCode::BrowserSearch => "BrowserSearch"@,
            KeyCode::BrowserStop => "BrowserStop"@,
            KeyCode::CapsLock => "CapsLock"@,
            KeyCode::Comma => "Comma"@,
            KeyCode::ContextMenu => "ContextMenu"@,
            KeyCode::ControlLeft => "ControlLeft"@,
            KeyCode::ControlRight => "ControlRight"@,
            KeyCode::Convert => "Convert"@,
            KeyCode::Copy => "Copy"@,
            KeyCode::Cut => "Cut"@,
            KeyCode::Delete => "Delete"@,
            KeyCode::Digit0 => "Digit0"@,
            KeyCode::Digit1 => "Digit1"@,
            KeyCode::Digit2 => "Digit2"@,
            KeyCode::Digit3 => "Digit3"@,
            KeyCode::Digit4 => "Digit4"@,
            KeyCode::Digit5 => "Digit5"@,
            KeyCode::Digit6 => "Digit6"@,
            KeyCode::Digit7 => "Digit7"@,
            KeyCode::Digit8 => "Digit8"@,
            KeyCode::Digit9 => "Digit9"@,
            KeyCode::Eject => "Eject"@,
            KeyCode::End => "End"@,
            KeyCode::Enter => "Enter"@,
            KeyCode::Equal => "Equal"@,
            KeyCode::Escape => "Escape"@,
            KeyCode::F1 => "F1"@,
            KeyCode::F10 => "F10"@,
            KeyCode::F11 => "F11"@,
            KeyCode::F12 => "F12"@,
            KeyCode::F13 => "F13"@,
            KeyCode::F14 => "F14"@,
            KeyCode::F15 => "F15"@,
            KeyCode::F16 => "F16"@,
            KeyCode::F17 => "F17"@,
            KeyCode::F18 => "F18"@,
            KeyCode::F19 => "F19"@,
            KeyCode::F2 => "F2"@,
            KeyCode::F20 => "F20"@,
            KeyCode::F21 => "F21"@,
            KeyCode::F22 => "F22"@,
            KeyCode::F23 => "F23"@,
            KeyCode::F24 => "F24"@,
            KeyCode::F3 => "F3"@,
            KeyCode::F4 => "F4"@,
            KeyCode::F5 => "F5"@,
            KeyCode::F6 => "F6"@,
            KeyCode::F7 => "F7"@,
            KeyCode::F8 => "F8"@,
            KeyCode::F9 => "F9"@,
            KeyCode::Find => "Find"@,
            KeyCode::Help => "Help"@,
            KeyCode::Home => "Home"@,
            KeyCode::Insert => "Insert"@,
            KeyCode::IntlBackslash => "IntlBackslash"@,
            KeyCode::IntlRo => "IntlRo"@,
            KeyCode::IntlYen => "IntlYen"@,
            KeyCode::KanaMode => "KanaMode"@,
            KeyCode::KeyA => "KeyA"@,
            KeyCode::KeyB => "KeyB"@,
            KeyCode::KeyC => "KeyC"@,
            KeyCode::KeyD => "KeyD"@,
            KeyCode::KeyE => "KeyE"@,
            KeyCode::KeyF => "KeyF"@,
            KeyCode::KeyG => "KeyG"@,
            KeyCode::KeyH => "KeyH"@,
            KeyCode::KeyI => "KeyI"@,
            KeyCode::KeyJ => "KeyJ"@,
            KeyCode::KeyK => "KeyK"@,
            KeyCode::KeyL => "KeyL"@,
            KeyCode::KeyM => "KeyM"@,
            KeyCode::KeyN => "KeyN"@,
            KeyCode::KeyO => "KeyO"@,
            KeyCode::KeyP => "KeyP"@,
            KeyCode::KeyQ => "KeyQ"@,
            KeyCode::KeyR => "KeyR"@,
            KeyCode::KeyS => "KeyS"@,
            KeyCode::KeyT => "KeyT"@,
            KeyCode::KeyU => "KeyU"@,
            KeyCode::KeyV => "KeyV"@,
            KeyCode::KeyW => "KeyW"@,
            KeyCode::KeyX => "KeyX"@,
            KeyCode::KeyY => "KeyY"@,
            KeyCode::KeyZ => "KeyZ"@,
            KeyCode::Lang1 => "Lang1"@,
            KeyCode::Lang2 => "Lang2"@,
            KeyCode::LaunchApp1 => "LaunchApp1"@,
            KeyCode::LaunchApp2 => "LaunchApp2"@,
            KeyCode::LaunchMail => "LaunchMail"@,
            KeyCode::MediaPlayPause => "MediaPlayPause"@,
            KeyCode::MediaSelect => "MediaSelect"@,
            KeyCode::MediaStop => "MediaStop"@,
            KeyCode::MediaTrackNext => "MediaTrackNext"@,
            KeyCode::MediaTrackPrevious => "MediaTrackPrevious"@,
            KeyCode::MetaLeft => "MetaLeft"@,
            KeyCode::MetaRight => "MetaRight"@,
            KeyCode::Minus => "Minus"@,
            KeyCode::NonConvert => "NonConvert"@,
            KeyCode::NumLock => "NumLock"@,
            KeyCode::Numpad0 => "Numpad0"@,
            KeyCode::Numpad1 => "Numpad1"@,
            KeyCode::Numpad2 => "Numpad2"@,
            KeyCode::Numpad3 => "Numpad3"@,
            KeyCode::Numpad4 => "Numpad4"@,
            KeyCode::Numpad5 => "Numpad5"@,
            KeyCode::Numpad6 => "Numpad6"@,
            KeyCode::Numpad7 => "Numpad7"@,
            KeyCode::Numpad8 => "Numpad8"@,
            KeyCode::Numpad9 => "Numpad9"@,
            KeyCode::NumpadAdd => "NumpadAdd"@,
            KeyCode::NumpadComma => "NumpadComma"@,
            KeyCode::NumpadDecimal => "NumpadDecimal"@,
            KeyCode::NumpadDivide => "NumpadDivide"@,
            KeyCode::NumpadEnter => "NumpadEnter"@,
            KeyCode::NumpadEqual => "NumpadEqual"@,
            KeyCode::NumpadMultiply => "NumpadMultiply"@,
            KeyCode::NumpadSubtract => "NumpadSubtract"@,
            KeyCode::Open => "Open"@,
            KeyCode::PageDown => "PageDown"@,
            KeyCode::PageUp => "PageUp"@,
            KeyCode::Paste => "Paste"@,
            KeyCode::Pause => "Pause"@,
            KeyCode::Period => "Period"@,
            KeyCode::PrintScreen => "PrintScreen"@,
            KeyCode::Props => "Props"@,
            KeyCode::Quote => "Quote"@,
            KeyCode::ScrollLock => "ScrollLock"@,
            KeyCode::Select => "Select"@,
            KeyCode::Semicolon => "Semicolon"@,
            KeyCode::ShiftLeft => "ShiftLeft"@,
            KeyCode::ShiftRight => "ShiftRight"@,
            KeyCode::Slash => "Slash"@,
            KeyCode::Space => "Space"@,
            KeyCode::Tab => "Tab"@,
            KeyCode::Undo => "Undo"@,
            KeyCode::VolumeDown => "VolumeDown"@,
            KeyCode::VolumeMute => "VolumeMute"@,
            KeyCode::VolumeUp => "VolumeUp"@,
            KeyCode::WakeUp => "WakeUp"@,
        }
    }

    /// The key whose DOM name is `code`, if there is one.
    pub closed spec fn spec_from_name(code: Seq<char>) -> Option<KeyCode> {
        if decode_name(code).spec_name() == code {
            Some(decode_name(code))
        } else {
            None
        }
    }

    /// Parses a DOM `KeyboardEvent.code` name.
    #[verifier::rlimit(100)]
    #[verifier::spinoff_prover]
    pub fn from_websys(code: &str) -> (r: Option<Self>)
        ensures
            r == Self::spec_from_name(code@),
    {
        if str_eq(code, "Again") {
            proof {
                lemma_decode_name(KeyCode::Again);
            }
            Some(KeyCode::Again)
        } else if str_eq(code, "AltLeft") {
            proof {
                lemma_decode_name(KeyCode::AltLeft);
            }
            Some(KeyCode::AltLeft)
        } else if str_eq(code, "AltRight") {
            proof {
                lemma_decode_name(KeyCode::AltRight);
            }
            Some(KeyCode::AltRight)
        } else if str_eq(code, "ArrowDown") {
            proof {
                lemma_decode_name(KeyCode::ArrowDown);
            }
            Some(KeyCode::ArrowDown)
        } else if str_eq(code, "ArrowLeft") {
            proof {
                lemma_decode_name(KeyCode::ArrowLeft);
            }
            Some(KeyCode::ArrowLeft)
        } else if str_eq(code, "ArrowRight") {
            proof {
                lemma_decode_name(KeyCode::ArrowRight);
            }
            Some(KeyCode::ArrowRight)
        } else if str_eq(code, "ArrowUp") {
            proof {
                lemma_decode_name(KeyCode::ArrowUp);
            }
            Some(KeyCode::ArrowUp)
        } else if str_eq(code, "Backquote") {
            proof {
                lemma_decode_name(KeyCode::Backquote);
            }
            Some(KeyCode::Backquote)
        } else if str_eq(code, "Backslash") {
            proof {
                lemma_decode_name(KeyCode::Backslash);
            }
            Some(KeyCode::Backslash)
        } else if str_eq(code, "Backspace") {
            proof {
                lemma_decode_name(KeyCode::Backspace);
            }
            Some(KeyCode::Backspace)
        } else if str_eq(code, "BracketLeft") {
            proof {
                lemma_decode_name(KeyCode::BracketLeft);
            }
            Some(KeyCode::BracketLeft)
        } else if str_eq(code, "BracketRight") {
            proof {
                lemma_decode_name(KeyCode::BracketRight);
            }
            Some(KeyCode::BracketRight)
        } else if str_eq(code, "BrowserBack") {
            proof {
                lemma_decode_name(KeyCode::BrowserBack);
            }
            Some(KeyCode::BrowserBack)
        } else if str_eq(code, "BrowserFavorites") {
            proof {
                lemma_decode_name(KeyCode::BrowserFavorites);
            }
            Some(KeyCode::BrowserFavorites)
        } else if str_eq(code, "BrowserForward") {
            proof {
                lemma_decode_name(KeyCode::BrowserForward);
            }
            Some(KeyCode::BrowserForward)
        } else if str_eq(code, "BrowserHome") {
            proof {
                lemma_decode_name(KeyCode::BrowserHome);
            }
            Some(KeyCode::BrowserHome)
        } else if str_eq(code, "BrowserRefresh") {
            proof {
                lemma_decode_name(KeyCode::BrowserRefresh);
            }
            Some(KeyCode::BrowserRefresh)
        } else if str_eq(code, "BrowserSearch") {
            proof {
                lemma_decode_name(KeyCode::BrowserSearch);
            }
            Some(KeyCode::BrowserSearch)
        } else if str_eq(code, "BrowserStop") {
            proof {
                lemma_decode_name(KeyCode::BrowserStop);
            }
            Some(KeyCode::BrowserStop)
        } else if str_eq(code, "CapsLock") {
            proof {
                lemma_decode_name(KeyCode::CapsLock);
            }
            Some(KeyCode::CapsLock)
        } else if str_eq(code, "Comma") {
            proof {
                lemma_decode_name(KeyCode::Comma);
            }
            Some(KeyCode::Comma)
        } else if str_eq(code, "ContextMenu") {
            proof {
                lemma_decode_name(KeyCode::ContextMenu);
            }
            Some(KeyCode::ContextMenu)
        } else if str_eq(code, "ControlLeft") {
            proof {
                lemma_decode_name(KeyCode::ControlLeft);
            }
            Some(KeyCode::ControlLeft)
        } else if str_eq(code, "ControlRight") {
            proof {
                lemma_decode_name(KeyCode::ControlRight);
            }
            Some(KeyCode::ControlRight)
        } else if str_eq(code, "Convert") {
            proof {
                lemma_decode_name(KeyCode::Convert);
            }
            Some(KeyCode::Convert)
        } else if str_eq(code, "Copy") {
            proof {
                lemma_decode_name(KeyCode::Copy);
            }
            Some(KeyCode::Copy)
        } else if str_eq(code, "Cut") {
            proof {
                lemma_decode_name(KeyCode::Cut);
            }
            Some(KeyCode::Cut)
        } else if str_eq(code, "Delete") {
            proof {
                lemma_decode_name(KeyCode::Delete);
            }
            Some(KeyCode::Delete)
        } else if str_eq(code, "Digit0") {
            proof {
                lemma_decode_name(KeyCode::Digit0);
            }
            Some(KeyCode::Digit0)
        } else if str_eq(code, "Digit1") {
            proof {
                lemma_decode_name(KeyCode::Digit1);
            }
            Some(KeyCode::Digit1)
        } else if str_eq(code, "Digit2") {
            proof {
                lemma_decode_name(KeyCode::Digit2);
            }
            Some(KeyCode::Digit2)
        } else if str_eq(code, "Digit3") {
            proof {
                lemma_decode_name(KeyCode::Digit3);
            }
            Some(KeyCode::Digit3)
        } else if str_eq(code, "Digit4") {
            proof {
                lemma_decode_name(KeyCode::Digit4);
            }
            Some(KeyCode::Digit4)
        } else if str_eq(code, "Digit5") {
            proof {
                lemma_decode_name(KeyCode::Digit5);
            }
            Some(KeyCode::Digit5)
        } else if str_eq(code, "Digit6") {
            proof {
                lemma_decode_name(KeyCode::Digit6);
            }
            Some(KeyCode::Digit6)
        } else if str_eq(code, "Digit7") {
            proof {
                lemma_decode_name(KeyCode::Digit7);
            }
            Some(KeyCode::Digit7)
        } else if str_eq(code, "Digit8") {
            proof {
                lemma_decode_name(KeyCode::Digit8);
            }
            Some(KeyCode::Digit8)
        } else if str_eq(code, "Digit9") {
            proof {
                lemma_decode_name(KeyCode::Digit9);
            }
            Some(KeyCode::Digit9)
        } else if str_eq(code, "Eject") {
            proof {
                lemma_decode_name(KeyCode::Eject);
            }
            Some(KeyCode::Eject)
        } else if str_eq(code, "End") {
            proof {
                lemma_decode_name(KeyCode::End);
            }
            Some(KeyCode::End)
        } else if str_eq(code, "Enter") {
            proof {
                lemma_decode_name(KeyCode::Enter);
            }
            Some(KeyCode::Enter)
        } else if str_eq(code, "Equal") {
            proof {
                lemma_decode_name(KeyCode::Equal);
            }
            Some(KeyCode::Equal)
        } else if str_eq(code, "Escape") {
            proof {
                lemma_decode_name(KeyCode::Escape);
            }
            Some(KeyCode::Escape)
        } else if str_eq(code, "F1") {
            proof {
                lemma_decode_name(KeyCode::F1);
            }
            Some(KeyCode::F1)
        } else if str_eq(code, "F10") {
            proof {
                lemma_decode_name(KeyCode::F10);
            }
            Some(KeyCode::F10)
        } else if str_eq(code, "F11") {
            proof {
                lemma_decode_name(KeyCode::F11);
            }
            Some(KeyCode::F11)
        } else if str_eq(code, "F12") {
            proof {
                lemma_decode_name(KeyCode::F12);
            }
            Some(KeyCode::F12)
        } else if str_eq(code, "F13") {
            proof {
                lemma_decode_name(KeyCode::F13);
            }
            Some(KeyCode::F13)
        } else if str_eq(code, "F14") {
            proof {
                lemma_decode_name(KeyCode::F14);
            }
            Some(KeyCode::F14)
        } else if str_eq(code, "F15") {
            proof {
                lemma_decode_name(KeyCode::F15);
            }
            Some(KeyCode::F15)
        } else if str_eq(code, "F16") {
            proof {
                lemma_decode_name(KeyCode::F16);
            }
            Some(KeyCode::F16)
        } else if str_eq(code, "F17") {
            proof {
                lemma_decode_name(KeyCode::F17);
            }
            Some(KeyCode::F17)
        } else if str_eq(code, "F18") {
            proof {
                lemma_decode_name(KeyCode::F18);
            }
            Some(KeyCode::F18)
        } else if str_eq(code, "F19") {
            proof {
                lemma_decode_name(KeyCode::F19);
            }
            Some(KeyCode::F19)
        } else if str_eq(code, "F2") {
            proof {
                lemma_decode_name(KeyCode::F2);
            }
            Some(KeyCode::F2)
        } else if str_eq(code, "F20") {
            proof {
                lemma_decode_name(KeyCode::F20);
            }
            Some(KeyCode::F20)
        } else if str_eq(code, "F21") {
            proof {
                lemma_decode_name(KeyCode::F21);
            }
            Some(KeyCode::F21)
        } else if str_eq(code, "F22") {
            proof {
                lemma_decode_name(KeyCode::F22);
            }
            Some(KeyCode::F22)
        } else if str_eq(code, "F23") {
            proof {
                lemma_decode_name(KeyCode::F23);
            }
            Some(KeyCode::F23)
        } else if str_eq(code, "F24") {
            proof {
                lemma_decode_name(KeyCode::F24);
            }
            Some(KeyCode::F24)
        } else if str_eq(code, "F3") {
            proof {
                lemma_decode_name(KeyCode::F3);
            }
            Some(KeyCode::F3)
        } else if str_eq(code, "F4") {
            proof {
                lemma_decode_name(KeyCode::F4);
            }
            Some(KeyCode::F4)
        } else if str_eq(code, "F5") {
            proof {
                lemma_decode_name(KeyCode::F5);
            }
            Some(KeyCode::F5)
        } else if str_eq(code, "F6") {
            proof {
                lemma_decode_name(KeyCode::F6);
            }
            Some(KeyCode::F6)
        } else if str_eq(code, "F7") {
            proof {
                lemma_decode_name(KeyCode::F7);
            }
            Some(KeyCode::F7)
        } else if str_eq(code, "F8") {
            proof {
                lemma_decode_name(KeyCode::F8);
            }
            Some(KeyCode::F8)
        } else if str_eq(code, "F9") {
            proof {
                lemma_decode_name(KeyCode::F9);
            }
            Some(KeyCode::F9)
        } else if str_eq(code, "Find") {
            proof {
                lemma_decode_name(KeyCode::Find);
            }
            Some(KeyCode::Find)
        } else if str_eq(code, "Help") {
            proof {
                lemma_decode_name(KeyCode::Help);
            }
            Some(KeyCode::Help)
        } else if str_eq(code, "Home") {
            proof {
                lemma_decode_name(KeyCode::Home);
            }
            Some(KeyCode::Home)
        } else if str_eq(code, "Insert") {
            proof {
                lemma_decode_name(KeyCode::Insert);
            }
            Some(KeyCode::Insert)
        } else if str_eq(code, "IntlBackslash") {
            proof {
                lemma_decode_name(KeyCode::IntlBackslash);
            }
            Some(KeyCode::IntlBackslash)
        } else if str_eq(code, "IntlRo") {
            proof {
                lemma_decode_name(KeyCode::IntlRo);
            }
            Some(KeyCode::IntlRo)
        } else if str_eq(code, "IntlYen") {
            proof {
                lemma_decode_name(KeyCode::IntlYen);
            }
            Some(KeyCode::IntlYen)
        } else if str_eq(code, "KanaMode") {
            proof {
                lemma_decode_name(KeyCode::KanaMode);
            }
            Some(KeyCode::KanaMode)
        } else if str_eq(code, "KeyA") {
            proof {
                lemma_decode_name(KeyCode::KeyA);
            }
            Some(KeyCode::KeyA)
        } else if str_eq(code, "KeyB") {
            proof {
                lemma_decode_name(KeyCode::KeyB);
            }
            Some(KeyCode::KeyB)
        } else if str_eq(code, "KeyC") {
            proof {
                lemma_decode_name(KeyCode::KeyC);
            }
            Some(KeyCode::KeyC)
        } else if str_eq(code, "KeyD") {
            proof {
                lemma_decode_name(KeyCode::KeyD);
            }
            Some(KeyCode::KeyD)
        } else if str_eq(code, "KeyE") {
            proof {
                lemma_decode_name(KeyCode::KeyE);
            }
            Some(KeyCode::KeyE)
        } else if str_eq(code, "KeyF") {
            proof {
                lemma_decode_name(KeyCode::KeyF);
            }
            Some(KeyCode::KeyF)
        } else if str_eq(code, "KeyG") {
            proof {
                lemma_decode_name(KeyCode::KeyG);
            }
            Some(KeyCode::KeyG)
        } else if str_eq(code, "KeyH") {
            proof {
                lemma_decode_name(KeyCode::KeyH);
            }
            Some(KeyCode::KeyH)
        } else if str_eq(code, "KeyI") {
            proof {
                lemma_decode_name(KeyCode::KeyI);
            }
            Some(KeyCode::KeyI)
        } else if str_eq(code, "KeyJ") {
            proof {
                lemma_decode_name(KeyCode::KeyJ);
            }
            Some(KeyCode::KeyJ)
        } else if str_eq(code, "KeyK") {
            proof {
                lemma_decode_name(KeyCode::KeyK);
            }
            Some(KeyCode::KeyK)
        } else if str_eq(code, "KeyL") {
            proof {
                lemma_decode_name(KeyCode::KeyL);
            }
            Some(KeyCode::KeyL)
        } else if str_eq(code, "KeyM") {
            proof {
                lemma_decode_name(KeyCode::KeyM);
            }
            Some(KeyCode::KeyM)
        } else if str_eq(code, "KeyN") {
            proof {
                lemma_decode_name(KeyCode::KeyN);
            }
            Some(KeyCode::KeyN)
        } else if str_eq(code, "KeyO") {
            proof {
                lemma_decode_name(KeyCode::KeyO);
            }
            Some(KeyCode::KeyO)
        } else if str_eq(code, "KeyP") {
            proof {
                lemma_decode_name(KeyCode::KeyP);
            }
            Some(KeyCode::KeyP)
        } else if str_eq(code, "KeyQ") {
            proof {
                lemma_decode_name(KeyCode::KeyQ);
            }
            Some(KeyCode::KeyQ)
        } else if str_eq(code, "KeyR") {
            proof {
                lemma_decode_name(KeyCode::KeyR);
            }
            Some(KeyCode::KeyR)
        } else if str_eq(code, "KeyS") {
            proof {
                lemma_decode_name(KeyCode::KeyS);
            }
            Some(KeyCode::KeyS)
        } else if str_eq(code, "KeyT") {
            proof {
                lemma_decode_name(KeyCode::KeyT);
            }
            Some(KeyCode::KeyT)
        } else if str_eq(code, "KeyU") {
            proof {
                lemma_decode_name(KeyCode::KeyU);
            }
            Some(KeyCode::KeyU)
        } else if str_eq(code, "KeyV") {
            proof {
                lemma_decode_name(KeyCode::KeyV);
            }
            Some(KeyCode::KeyV)
        } else if str_eq(code, "KeyW") {
            proof {
                lemma_decode_name(KeyCode::KeyW);
            }
            Some(KeyCode::KeyW)
        } else if str_eq(code, "KeyX") {
            proof {
                lemma_decode_name(KeyCode::KeyX);
            }
            Some(KeyCode::KeyX)
        } else if str_eq(code, "KeyY") {
            proof {
                lemma_decode_name(KeyCode::KeyY);
            }
            Some(KeyCode::KeyY)
        } else if str_eq(code, "KeyZ") {
            proof {
                lemma_decode_name(KeyCode::KeyZ);
            }
            Some(KeyCode::KeyZ)
        } else if str_eq(code, "Lang1") {
            proof {
                lemma_decode_name(KeyCode::Lang1);
            }
            Some(KeyCode::Lang1)
        } else if str_eq(code, "Lang2") {
            proof {
                lemma_decode_name(KeyCode::Lang2);
            }
            Some(KeyCode::Lang2)
        } else if str_eq(code, "LaunchApp1") {
            proof {
                lemma_decode_name(KeyCode::LaunchApp1);
            }
            Some(KeyCode::LaunchApp1)
        } else if str_eq(code, "LaunchApp2") {
            proof {
                lemma_decode_name(KeyCode::LaunchApp2);
            }
            Some(KeyCode::LaunchApp2)
        } else if str_eq(code, "LaunchMail") {
            proof {
                lemma_decode_name(KeyCode::LaunchMail);
            }
            Some(KeyCode::LaunchMail)
        } else if str_eq(code, "MediaPlayPause") {
            proof {
                lemma_decode_name(KeyCode::MediaPlayPause);
            }
            Some(KeyCode::MediaPlayPause)
        } else if str_eq(code, "MediaSelect") {
            proof {
                lemma_decode_name(KeyCode::MediaSelect);
            }
            Some(KeyCode::MediaSelect)
        } else if str_eq(code, "MediaStop") {
            proof {
                lemma_decode_name(KeyCode::MediaStop);
            }
            Some(KeyCode::MediaStop)
        } else if str_eq(code, "MediaTrackNext") {
            proof {
                lemma_decode_name(KeyCode::MediaTrackNext);
            }
            Some(KeyCode::MediaTrackNext)
        } else if str_eq(code, "MediaTrackPrevious") {
            proof {
                lemma_decode_name(KeyCode::MediaTrackPrevious);
            }
            Some(KeyCode::MediaTrackPrevious)
        } else if str_eq(code, "MetaLeft") {
            proof {
                lemma_decode_name(KeyCode::MetaLeft);
            }
            Some(KeyCode::MetaLeft)
        } else if str_eq(code, "MetaRight") {
            proof {
                lemma_decode_name(KeyCode::MetaRight);
            }
            Some(KeyCode::MetaRight)
        } else if str_eq(code, "Minus") {
            proof {
                lemma_decode_name(KeyCode::Minus);
            }
            Some(KeyCode::Minus)
        } else if str_eq(code, "NonConvert") {
            proof {
                lemma_decode_name(KeyCode::NonConvert);
            }
            Some(KeyCode::NonConvert)
        } else if str_eq(code, "NumLock") {
            proof {
                lemma_decode_name(KeyCode::NumLock);
            }
            Some(KeyCode::NumLock)
        } else if str_eq(code, "Numpad0") {
            proof {
                lemma_decode_name(KeyCode::Numpad0);
            }
            Some(KeyCode::Numpad0)
        } else if str_eq(code, "Numpad1") {
            proof {
                lemma_decode_name(KeyCode::Numpad1);
            }
            Some(KeyCode::Numpad1)
        } else if str_eq(code, "Numpad2") {
            proof {
                lemma_decode_name(KeyCode::Numpad2);
            }
            Some(KeyCode::Numpad2)
        } else if str_eq(code, "Numpad3") {
            proof {
                lemma_decode_name(KeyCode::Numpad3);
            }
            Some(KeyCode::Numpad3)
        } else if str_eq(code, "Numpad4") {
            proof {
                lemma_decode_name(KeyCode::Numpad4);
            }
            Some(KeyCode::Numpad4)
        } else if str_eq(code, "Numpad5") {
            proof {
                lemma_decode_name(KeyCode::Numpad5);
            }
            Some(KeyCode::Numpad5)
        } else if str_eq(code, "Numpad6") {
            proof {
                lemma_decode_name(KeyCode::Numpad6);
            }
            Some(KeyCode::Numpad6)
        } else if str_eq(code, "Numpad7") {
            proof {
                lemma_decode_name(KeyCode::Numpad7);
            }
            Some(KeyCode::Numpad7)
        } else if str_eq(code, "Numpad8") {
            proof {
                lemma_decode_name(KeyCode::Numpad8);
            }
            Some(KeyCode::Numpad8)
        } else if str_eq(code, "Numpad9") {
            proof {
                lemma_decode_name(KeyCode::Numpad9);
            }
            Some(KeyCode::Numpad9)
        } else if str_eq(code, "NumpadAdd") {
            proof {
                lemma_decode_name(KeyCode::NumpadAdd);
            }
            Some(KeyCode::NumpadAdd)
        } else if str_eq(code, "NumpadComma") {
            proof {
                lemma_decode_name(KeyCode::NumpadComma);
            }
            Some(KeyCode::NumpadComma)
        } else if str_eq(code, "NumpadDecimal") {
            proof {
                lemma_decode_name(KeyCode::NumpadDecimal);
            }
            Some(KeyCode::NumpadDecimal)
        } else if str_eq(code, "NumpadDivide") {
            proof {
                lemma_decode_name(KeyCode::NumpadDivide);
            }
            Some(KeyCode::NumpadDivide)
        } else if str_eq(code, "NumpadEnter") {
            proof {
                lemma_decode_name(KeyCode::NumpadEnter);
            }
            Some(KeyCode::NumpadEnter)
        } else if str_eq(code, "NumpadEqual") {
            proof {
                lemma_decode_name(KeyCode::NumpadEqual);
            }
            Some(KeyCode::NumpadEqual)
        } else if str_eq(code, "NumpadMultiply") {
            proof {
                lemma_decode_name(KeyCode::NumpadMultiply);
            }
            Some(KeyCode::NumpadMultiply)
        } else if str_eq(code, "NumpadSubtract") {
            proof {
                lemma_decode_name(KeyCode::NumpadSubtract);
            }
            Some(KeyCode::NumpadSubtract)
        } else if str_eq(code, "Open") {
            proof {
                lemma_decode_name(KeyCode::Open);
            }
            Some(KeyCode::Open)
        } else if str_eq(code, "PageDown") {
            proof {
                lemma_decode_name(KeyCode::PageDown);
            }
            Some(KeyCode::PageDown)
        } else if str_eq(code, "PageUp") {
            proof {
                lemma_decode_name(KeyCode::PageUp);
            }
            Some(KeyCode::PageUp)
        } else if str_eq(code, "Paste") {
            proof {
                lemma_decode_name(KeyCode::Paste);
            }
            Some(KeyCode::Paste)
        } else if str_eq(code, "Pause") {
            proof {
                lemma_decode_name(KeyCode::Pause);
            }
            Some(KeyCode::Pause)
        } else if str_eq(code, "Period") {
            proof {
                lemma_decode_name(KeyCode::Period);
            }
            Some(KeyCode::Period)
        } else if str_eq(code, "PrintScreen") {
            proof {
                lemma_decode_name(KeyCode::PrintScreen);
            }
            Some(KeyCode::PrintScreen)
        } else if str_eq(code, "Props") {
            proof {
                lemma_decode_name(KeyCode::Props);
            }
            Some(KeyCode::Props)
        } else if str_eq(code, "Quote") {
            proof {
                lemma_decode_name(KeyCode::Quote);
            }
            Some(KeyCode::Quote)
        } else if str_eq(code, "ScrollLock") {
            proof {
                lemma_decode_name(KeyCode::ScrollLock);
            }
            Some(KeyCode::ScrollLock)
        } else if str_eq(code, "Select") {
            proof {
                lemma_decode_name(KeyCode::Select);
            }
            Some(KeyCode::Select)
        } else if str_eq(code, "Semicolon") {
            proof {
                lemma_decode_name(KeyCode::Semicolon);
            }
            Some(KeyCode::Semicolon)
        } else if str_eq(code, "ShiftLeft") {
            proof {
                lemma_decode_name(KeyCode::ShiftLeft);
            }
            Some(KeyCode::ShiftLeft)
        } else if str_eq(code, "ShiftRight") {
            proof {
                lemma_decode_name(KeyCode::ShiftRight);
            }
            Some(KeyCode::ShiftRight)
        } else if str_eq(code, "Slash") {
            proof {
                lemma_decode_name(KeyCode::Slash);
            }
            Some(KeyCode::Slash)
        } else if str_eq(code, "Space") {
            proof {
                lemma_decode_name(KeyCode::Space);
            }
            Some(KeyCode::Space)
        } else if str_eq(code, "Tab") {
            proof {
                lemma_decode_name(KeyCode::Tab);
            }
            Some(KeyCode::Tab)
        } else if str_eq(code, "Undo") {
            proof {
                lemma_decode_name(KeyCode::Undo);
            }
            Some(KeyCode::Undo)
        } else if str_eq(code, "VolumeDown") {
            proof {
                lemma_decode_name(KeyCode::VolumeDown);
            }
            Some(KeyCode::VolumeDown)
        } else if str_eq(code, "VolumeMute") {
            proof {
                lemma_decode_name(KeyCode::VolumeMute);
            }
            Some(KeyCode::VolumeMute)
        } else if str_eq(code, "VolumeUp") {
            proof {
                lemma_decode_name(KeyCode::VolumeUp);
            }
            Some(KeyCode::VolumeUp)
        } else if str_eq(code, "WakeUp") {
            proof {
                lemma_decode_name(KeyCode::WakeUp);
            }
            Some(KeyCode::WakeUp)
        } else {
            None
        }
    }

    /// The DOM `KeyboardEvent.code` name of the key.
    pub fn to_websys(&self) -> (s: &'static str)
        ensures
            s@ == self.spec_name(),
    {
        match self {
            KeyCode::Again => "Again",
            KeyCode::AltLeft => "AltLeft",
            KeyCode::AltRight => "AltRight",
            KeyCode::ArrowDown => "ArrowDown",
            KeyCode::ArrowLeft => "ArrowLeft",
            KeyCode::ArrowRight => "ArrowRight",
            KeyCode::ArrowUp => "ArrowUp",
            KeyCode::Backquote => "Backquote",
            KeyCode::Backslash => "Backslash",
            KeyCode::Backspace => "Backspace",
            KeyCode::BracketLeft => "BracketLeft",
            KeyCode::BracketRight => "BracketRight",
            KeyCode::BrowserBack => "BrowserBack",
            KeyCode::BrowserFavorites => "BrowserFavorites",
            KeyCode::BrowserForward => "BrowserForward",
            KeyCode::BrowserHome => "BrowserHome",
            KeyCode::BrowserRefresh => "BrowserRefresh",
            KeyCode::BrowserSearch => "BrowserSearch",
            KeyCode::BrowserStop => "BrowserStop",
            KeyCode::CapsLock => "CapsLock",
            KeyCode::Comma => "Comma",
            KeyCode::ContextMenu => "ContextMenu",
            KeyCode::ControlLeft => "ControlLeft",
            KeyCode::ControlRight => "ControlRight",
            KeyCode::Convert => "Convert",
            KeyCode::Copy => "Copy",
            KeyCode::Cut => "Cut",
            KeyCode::Delete => "Delete",
            KeyCode::Digit0 => "Digit0",
            KeyCode::Digit1 => "Digit1",
            KeyCode::Digit2 => "Digit2",
            KeyCode::Digit3 => "Digit3",
            KeyCode::Digit4 => "Digit4",
            KeyCode::Digit5 => "Digit5",
            KeyCode::Digit6 => "Digit6",
            KeyCode::Digit7 => "Digit7",
            KeyCode::Digit8 => "Digit8",
            KeyCode::Digit9 => "Digit9",
            KeyCode::Eject => "Eject",
            KeyCode::End => "End",
            KeyCode::Enter => "Enter",
            KeyCode::Equal => "Equal",
            KeyCode::Escape => "Escape",
            KeyCode::F1 => "F1",
            KeyCode::F10 => "F10",
            KeyCode::F11 => "F11",
            KeyCode::F12 => "F12",
            KeyCode::F13 => "F13",
            KeyCode::F14 => "F14",
            KeyCode::F15 => "F15",
            KeyCode::F16 => "F16",
            KeyCode::F17 => "F17",
            KeyCode::F18 => "F18",
            KeyCode::F19 => "F19",
            KeyCode::F2 => "F2",
            KeyCode::F20 => "F20",
            KeyCode::F21 => "F21",
            KeyCode::F22 => "F22",
            KeyCode::F23 => "F23",
            KeyCode::F24 => "F24",
            KeyCode::F3 => "F3",
            KeyCode::F4 => "F4",
            KeyCode::F5 => "F5",
            KeyCode::F6 => "F6",
            KeyCode::F7 => "F7",
            KeyCode::F8 => "F8",
            KeyCode::F9 => "F9",
            KeyCode::Find => "Find",
            KeyCode::Help => "Help",
            KeyCode::Home => "Home",
            KeyCode::Insert => "Insert",
            KeyCode::IntlBackslash => "IntlBackslash",
            KeyCode::IntlRo => "IntlRo",
            KeyCode::IntlYen => "IntlYen",
            KeyCode::KanaMode => "KanaMode",
            KeyCode::KeyA => "KeyA",
            KeyCode::KeyB => "KeyB",
            KeyCode::KeyC => "KeyC",
            KeyCode::KeyD => "KeyD",
            KeyCode::KeyE => "KeyE",
            KeyCode::KeyF => "KeyF",
            KeyCode::KeyG => "KeyG",
            KeyCode::KeyH => "KeyH",
            KeyCode::KeyI => "KeyI",
            KeyCode::KeyJ => "KeyJ",
            KeyCode::KeyK => "KeyK",
            KeyCode::KeyL => "KeyL",
            KeyCode::KeyM => "KeyM",
            KeyCode::KeyN => "KeyN",
            KeyCode::KeyO => "KeyO",
            KeyCode::KeyP => "KeyP",
            KeyCode::KeyQ => "KeyQ",
            KeyCode::KeyR => "KeyR",
            KeyCode::KeyS => "KeyS",
            KeyCode::KeyT => "KeyT",
            KeyCode::KeyU => "KeyU",
            KeyCode::KeyV => "KeyV",
            KeyCode::KeyW => "KeyW",
            KeyCode::KeyX => "KeyX",
            KeyCode::KeyY => "KeyY",
            KeyCode::KeyZ => "KeyZ",
            KeyCode::Lang1 => "Lang1",
            KeyCode::Lang2 => "Lang2",
            KeyCode::LaunchApp1 => "LaunchApp1",
            KeyCode::LaunchApp2 => "LaunchApp2",
            KeyCode::LaunchMail => "LaunchMail",
            KeyCode::MediaPlayPause => "MediaPlayPause",
            KeyCode::MediaSelect => "MediaSelect",
            KeyCode::MediaStop => "MediaStop",
            KeyCode::MediaTrackNext => "MediaTrackNext",
            KeyCode::MediaTrackPrevious => "MediaTrackPrevious",
            KeyCode::MetaLeft => "MetaLeft",
            KeyCode::MetaRight => "MetaRight",
            KeyCode::Minus => "Minus",
            KeyCode::NonConvert => "NonConvert",
            KeyCode::NumLock => "NumLock",
            KeyCode::Numpad0 => "Numpad0",
            KeyCode::Numpad1 => "Numpad1",
            KeyCode::Numpad2 => "Numpad2",
            KeyCode::Numpad3 => "Numpad3",
            KeyCode::Numpad4 => "Numpad4",
            KeyCode::Numpad5 => "Numpad5",
            KeyCode::Numpad6 => "Numpad6",
            KeyCode::Numpad7 => "Numpad7",
            KeyCode::Numpad8 => "Numpad8",
            KeyCode::Numpad9 => "Numpad9",
            KeyCode::NumpadAdd => "NumpadAdd",
            KeyCode::NumpadComma => "NumpadComma",
            KeyCode::NumpadDecimal => "NumpadDecimal",
            KeyCode::NumpadDivide => "NumpadDivide",
            KeyCode::NumpadEnter => "NumpadEnter",
            KeyCode::NumpadEqual => "NumpadEqual",
            KeyCode::NumpadMultiply => "NumpadMultiply",
            KeyCode::NumpadSubtract => "NumpadSubtract",
            KeyCode::Open => "Open",
            KeyCode::PageDown => "PageDown",
            KeyCode::PageUp => "PageUp",
            KeyCode::Paste => "Paste",
            KeyCode::Pause => "Pause",
            KeyCode::Period => "Period",
            KeyCode::PrintScreen => "PrintScreen",
            KeyCode::Props => "Props",
            KeyCode::Quote => "Quote",
            KeyCode::ScrollLock => "ScrollLock",
            KeyCode::Select => "Select",
            KeyCode::Semicolon => "Semicolon",
            KeyCode::ShiftLeft => "ShiftLeft",
            KeyCode::ShiftRight => "ShiftRight",
            KeyCode::Slash => "Slash",
            KeyCode::Space => "Space",
            KeyCode::Tab => "Tab",
            KeyCode::Undo => "Undo",
            KeyCode::VolumeDown => "VolumeDown",
            KeyCode::VolumeMute => "VolumeMute",
            KeyCode::VolumeUp => "VolumeUp",
            KeyCode::WakeUp => "WakeUp",
        }
    }
}

/// Reads a key name back, looking only at as many characters as it takes
/// to tell the names of [`KeyCode`] apart.
spec fn decode_name(s: Seq<char>) -> KeyCode {
    if s.len() == 2 {
        if s[1] == '1' {
            KeyCode::F1
        } else if s[1] == '2' {
            KeyCode::F2
        } else if s[1] == '3' {
            KeyCode::F3
        } else if s[1] == '4' {
            KeyCode::F4
        } else if s[1] == '5' {
            KeyCode::F5
        } else if s[1] == '6' {
            KeyCode::F6
        } else if s[1] == '7' {
            KeyCode::F7
        } else if s[1] == '8' {
            KeyCode::F8
        } else {
            KeyCode::F9
        }
    } else if s.len() == 3 {
        if s[2] == '0' {
            if s[1] == '1' {
                KeyCode::F10
            } else {
                KeyCode::F20
            }
        } else if s[2] == '1' {
            if s[1] == '1' {
                KeyCode::F11
            } else {
                KeyCode::F21
            }
        } else if s[2] == '2' {
            if s[1] == '1' {
                KeyCode::F12
            } else {
                KeyCode::F22
            }
        } else if s[2] == '3' {
            if s[1] == '1' {
                KeyCode::F13
            } else {
                KeyCode::F23
            }
        } else if s[2] == '4' {
            if s[1] == '1' {
                KeyCode::F14
            } else {
                KeyCode::F24
            }
        } else if s[2] == '5' {
            KeyCode::F15
        } else if s[2] == '6' {
            KeyCode::F16
        } else if s[2] == '7' {
            KeyCode::F17
        } else if s[2] == '8' {
            KeyCode::F18
        } else if s[2] == '9' {
            KeyCode::F19
        } else if s[2] == 'b' {
            KeyCode::Tab
        } else if s[2] == 'd' {
            KeyCode::End
        } else {
            KeyCode::Cut
        }
    } else if s.len() == 4 {
        if s[3] == 'A' {
            KeyCode::KeyA
        } else if s[3] == 'B' {
            KeyCode::KeyB
        } else if s[3] == 'C' {
            KeyCode::KeyC
        } else if s[3] == 'D' {
            KeyCode::KeyD
        } else if s[3] == 'E' {
            KeyCode::KeyE
        } else if s[3] == 'F' {
            KeyCode::KeyF
        } else if s[3] == 'G' {
            KeyCode::KeyG
        } else if s[3] == 'H' {
            KeyCode::KeyH
        } else if s[3] == 'I' {
            KeyCode::KeyI
        } else if s[3] == 'J' {
            KeyCode::KeyJ
        } else if s[3] == 'K' {
            KeyCode::KeyK
        } else if s[3] == 'L' {
            KeyCode::KeyL
        } else if s[3] == 'M' {
            KeyCode::KeyM
        } else if s[3] == 'N' {
            KeyCode::KeyN
        } else if s[3] == 'O' {
            KeyCode::KeyO
        } else if s[3] == 'P' {
            KeyCode::KeyP
        } else if s[3] == 'Q' {
            KeyCode::KeyQ
        } else if s[3] == 'R' {
            KeyCode::KeyR
        } else if s[3] == 'S' {
            KeyCode::KeyS
        } else if s[3] == 'T' {
            KeyCode::KeyT
        } else if s[3] == 'U' {
            KeyCode::KeyU
        } else if s[3] == 'V' {
            KeyCode::KeyV
        } else if s[3] == 'W' {
            KeyCode::KeyW
        } else if s[3] == 'X' {
            KeyCode::KeyX
        } else if s[3] == 'Y' {
            KeyCode::KeyY
        } else if s[3] == 'Z' {
            KeyCode::KeyZ
        } else if s[3] == 'd' {
            KeyCode::Find
        } else if s[3] == 'e' {
            KeyCode::Home
        } else if s[3] == 'n' {
            KeyCode::Open
        } else if s[3] == 'o' {
            KeyCode::Undo
        } else if s[3] == 'p' {
            KeyCode::Help
        } else {
            KeyCode::Copy
        }
    } else if s.len() == 5 {
        if s[1] == 'a' {
            if s[2] == 'n' {
                if s[4] == '1' {
                    KeyCode::Lang1
                } else {
                    KeyCode::Lang2
                }
            } else if s[2] == 's' {
                KeyCode::Paste
            } else {
                KeyCode::Pause
            }
        } else if s[1] == 'g' {
            KeyCode::Again
        } else if s[1] == 'i' {
            KeyCode::Minus
        } else if s[1] == 'j' {
            KeyCode::Eject
        } else if s[1] == 'l' {
            KeyCode::Slash
        } else if s[1] == 'n' {
            KeyCode::Enter
        } else if s[1] == 'o' {
            KeyCode::Comma
        } else if s[1] == 'p' {
            KeyCode::Space
        } else if s[1] == 'q' {
            KeyCode::Equal
        } else if s[1] == 'r' {
            KeyCode::Props
        } else {
            KeyCode::Quote
        }
    } else if s.len() == 6 {
        if s[5] == '0' {
            KeyCode::Digit0
        } else if s[5] == '1' {
            KeyCode::Digit1
        } else if s[5] == '2' {
            KeyCode::Digit2
        } else if s[5] == '3' {
            KeyCode::Digit3
        } else if s[5] == '4' {
            KeyCode::Digit4
        } else if s[5] == '5' {
            KeyCode::Digit5
        } else if s[5] == '6' {
            KeyCode::Digit6
        } else if s[5] == '7' {
            KeyCode::Digit7
        } else if s[5] == '8' {
            KeyCode::Digit8
        } else if s[5] == '9' {
            KeyCode::Digit9
        } else if s[5] == 'd' {
            KeyCode::Period
        } else if s[5] == 'e' {
            if s[0] == 'D' {
                KeyCode::Delete
            } else {
                KeyCode::Escape
            }
        } else if s[5] == 'o' {
            KeyCode::IntlRo
        } else if s[5] == 'p' {
            if s[0] == 'P' {
                KeyCode::PageUp
            } else {
                KeyCode::WakeUp
            }
        } else {
            if s[0] == 'I' {
                KeyCode::Insert
            } else {
                KeyCode::Select
            }
        }
    } else if s.len() == 7 {
        if s[6] == '0' {
            KeyCode::Numpad0
        } else if s[6] == '1' {
            KeyCode::Numpad1
        } else if s[6] == '2' {
            KeyCode::Numpad2
        } else if s[6] == '3' {
            KeyCode::Numpad3
        } else if s[6] == '4' {
            KeyCode::Numpad4
        } else if s[6] == '5' {
            KeyCode::Numpad5
        } else if s[6] == '6' {
            KeyCode::Numpad6
        } else if s[6] == '7' {
            KeyCode::Numpad7
        } else if s[6] == '8' {
            KeyCode::Numpad8
        } else if s[6] == '9' {
            KeyCode::Numpad9
        } else if s[6] == 'k' {
            KeyCode::NumLock
        } else if s[6] == 'n' {
            KeyCode::IntlYen
        } else if s[6] == 'p' {
            KeyCode::ArrowUp
        } else {
            if s[0] == 'A' {
                KeyCode::AltLeft
            } else {
                KeyCode::Convert
            }
        }
    } else if s.len() == 8 {
        if s[0] == 'A' {
            KeyCode::AltRight
        } else if s[0] == 'C' {
            KeyCode::CapsLock
        } else if s[0] == 'K' {
            KeyCode::KanaMode
        } else if s[0] == 'M' {
            KeyCode::MetaLeft
        } else if s[0] == 'P' {
            KeyCode::PageDown
        } else {
            KeyCode::VolumeUp
        }
    } else if s.len() == 9 {
        if s[5] == 'D' {
            KeyCode::ArrowDown
        } else if s[5] == 'L' {
            if s[0] == 'A' {
                KeyCode::ArrowLeft
            } else {
                KeyCode::ShiftLeft
            }
        } else if s[5] == 'S' {
            KeyCode::MediaStop
        } else if s[5] == 'd' {
            KeyCode::NumpadAdd
        } else if s[5] == 'i' {
            KeyCode::MetaRight
        } else if s[5] == 'l' {
            KeyCode::Backslash
        } else if s[5] == 'o' {
            KeyCode::Semicolon
        } else if s[5] == 'p' {
            KeyCode::Backspace
        } else {
            KeyCode::Backquote
        }
    } else if s.len() == 10 {
        if s[8] == 'c' {
            KeyCode::ScrollLock
        } else if s[8] == 'h' {
            if s[0] == 'A' {
                KeyCode::ArrowRight
            } else {
                KeyCode::ShiftRight
            }
        } else if s[8] == 'i' {
            KeyCode::LaunchMail
        } else if s[8] == 'p' {
            if s[9] == '1' {
                KeyCode::LaunchApp1
            } else {
                KeyCode::LaunchApp2
            }
        } else if s[8] == 'r' {
            KeyCode::NonConvert
        } else if s[8] == 't' {
            KeyCode::VolumeMute
        } else {
            KeyCode::VolumeDown
        }
    } else if s.len() == 11 {
        if s[7] == 'B' {
            KeyCode::BrowserBack
        } else if s[7] == 'H' {
            KeyCode::BrowserHome
        } else if s[7] == 'L' {
            if s[0] == 'B' {
                KeyCode::BracketLeft
            } else {
                KeyCode::ControlLeft
            }
        } else if s[7] == 'M' {
            KeyCode::ContextMenu
        } else if s[7] == 'S' {
            KeyCode::BrowserStop
        } else if s[7] == 'l' {
            KeyCode::MediaSelect
        } else if s[7] == 'n' {
            KeyCode::NumpadEnter
        } else if s[7] == 'o' {
            KeyCode::NumpadComma
        } else if s[7] == 'q' {
            KeyCode::NumpadEqual
        } else {
            KeyCode::PrintScreen
        }
    } else if s.len() == 12 {
        if s[0] == 'B' {
            KeyCode::BracketRight
        } else if s[0] == 'C' {
            KeyCode::ControlRight
        } else {
            KeyCode::NumpadDivide
        }
    } else if s.len() == 13 {
        if s[0] == 'B' {
            KeyCode::BrowserSearch
        } else if s[0] == 'I' {
            KeyCode::IntlBackslash
        } else {
            KeyCode::NumpadDecimal
        }
    } else if s.len() == 14 {
        if s[8] == 'b' {
            KeyCode::NumpadSubtract
        } else if s[8] == 'c' {
            KeyCode::MediaTrackNext
        } else if s[8] == 'e' {
            KeyCode::BrowserRefresh
        } else if s[8] == 'l' {
            KeyCode::NumpadMultiply
        } else if s[8] == 'o' {
            KeyCode::BrowserForward
        } else {
            KeyCode::MediaPlayPause
        }
    } else if s.len() == 16 {
        KeyCode::BrowserFavorites
    } else {
        KeyCode::MediaTrackPrevious
    }
}

proof fn lemma_decode_name(k: KeyCode)
    ensures
        decode_name(k.spec_name()) == k,
{
    match k {
        KeyCode::Again => {
            reveal_strlit("Again");
        },
        KeyCode::AltLeft => {
            reveal_strlit("AltLeft");
        },
        KeyCode::AltRight => {
            reveal_strlit("AltRight");
        },
        KeyCode::ArrowDown => {
            reveal_strlit("ArrowDown");
        },
        KeyCode::ArrowLeft => {
            reveal_strlit("ArrowLeft");
        },
        KeyCode::ArrowRight => {
            reveal_strlit("ArrowRight");
        },
        KeyCode::ArrowUp => {
            reveal_strlit("ArrowUp");
        },
        KeyCode::Backquote => {
            reveal_strlit("Backquote");
        },
        KeyCode::Backslash => {
            reveal_strlit("Backslash");
        },
        KeyCode::Backspace => {
            reveal_strlit("Backspace");
        },
        KeyCode::BracketLeft => {
            reveal_strlit("BracketLeft");
        },
        KeyCode::BracketRight => {
            reveal_strlit("BracketRight");
        },
        KeyCode::BrowserBack => {
            reveal_strlit("BrowserBack");
        },
        KeyCode::BrowserFavorites => {
            reveal_strlit("BrowserFavorites");
        },
        KeyCode::BrowserForward => {
            reveal_strlit("BrowserForward");
        },
        KeyCode::BrowserHome => {
            reveal_strlit("BrowserHome");
        },
        KeyCode::BrowserRefresh => {
            reveal_strlit("BrowserRefresh");
        },
        KeyCode::BrowserSearch => {
            reveal_strlit("BrowserSearch");
        },
        KeyCode::BrowserStop => {
            reveal_strlit("BrowserStop");
        },
        KeyCode::CapsLock => {
            reveal_strlit("CapsLock");
        },
        KeyCode::Comma => {
            reveal_strlit("Comma");
        },
        KeyCode::ContextMenu => {
            reveal_strlit("ContextMenu");
        },
        KeyCode::ControlLeft => {
            reveal_strlit("ControlLeft");
        },
        KeyCode::ControlRight => {
            reveal_strlit("ControlRight");
        },
        KeyCode::Convert => {
            reveal_strlit("Convert");
        },
        KeyCode::Copy => {
            reveal_strlit("Copy");
        },
        KeyCode::Cut => {
            reveal_strlit("Cut");
        },
        KeyCode::Delete => {
            reveal_strlit("Delete");
        },
        KeyCode::Digit0 => {
            reveal_strlit("Digit0");
        },
        KeyCode::Digit1 => {
            reveal_strlit("Digit1");
        },
        KeyCode::Digit2 => {
            reveal_strlit("Digit2");
        },
        KeyCode::Digit3 => {
            reveal_strlit("Digit3");
        },
        KeyCode::Digit4 => {
            reveal_strlit("Digit4");
        },
        KeyCode::Digit5 => {
            reveal_strlit("Digit5");
        },
        KeyCode::Digit6 => {
            reveal_strlit("Digit6");
        },
        KeyCode::Digit7 => {
            reveal_strlit("Digit7");
        },
        KeyCode::Digit8 => {
            reveal_strlit("Digit8");
        },
        KeyCode::Digit9 => {
            reveal_strlit("Digit9");
        },
        KeyCode::Eject => {
            reveal_strlit("Eject");
        },
        KeyCode::End => {
            reveal_strlit("End");
        },
        KeyCode::Enter => {
            reveal_strlit("Enter");
        },
        KeyCode::Equal => {
            reveal_strlit("Equal");
        },
        KeyCode::Escape => {
            reveal_strlit("Escape");
        },
        KeyCode::F1 => {
            reveal_strlit("F1");
        },
        KeyCode::F10 => {
            reveal_strlit("F10");
        },
        KeyCode::F11 => {
            reveal_strlit("F11");
        },
        KeyCode::F12 => {
            reveal_strlit("F12");
        },
        KeyCode::F13 => {
            reveal_strlit("F13");
        },
        KeyCode::F14 => {
            reveal_strlit("F14");
        },
        KeyCode::F15 => {
            reveal_strlit("F15");
        },
        KeyCode::F16 => {
            reveal_strlit("F16");
        },
        KeyCode::F17 => {
            reveal_strlit("F17");
        },
        KeyCode::F18 => {
            reveal_strlit("F18");
        },
        KeyCode::F19 => {
            reveal_strlit("F19");
        },
        KeyCode::F2 => {
            reveal_strlit("F2");
        },
        KeyCode::F20 => {
            reveal_strlit("F20");
        },
        KeyCode::F21 => {
            reveal_strlit("F21");
        },
        KeyCode::F22 => {
            reveal_strlit("F22");
        },
        KeyCode::F23 => {
            reveal_strlit("F23");
        },
        KeyCode::F24 => {
            reveal_strlit("F24");
        },
        KeyCode::F3 => {
            reveal_strlit("F3");
        },
        KeyCode::F4 => {
            reveal_strlit("F4");
        },
        KeyCode::F5 => {
            reveal_strlit("F5");
        },
        KeyCode::F6 => {
            reveal_strlit("F6");
        },
        KeyCode::F7 => {
            reveal_strlit("F7");
        },
        KeyCode::F8 => {
            reveal_strlit("F8");
        },
        KeyCode::F9 => {
            reveal_strlit("F9");
        },
        KeyCode::Find => {
            reveal_strlit("Find");
        },
        KeyCode::Help => {
            reveal_strlit("Help");
        },
        KeyCode::Home => {
            reveal_strlit("Home");
        },
        KeyCode::Insert => {
            reveal_strlit("Insert");
        },
        KeyCode::IntlBackslash => {
            reveal_strlit("IntlBackslash");
        },
        KeyCode::IntlRo => {
            reveal_strlit("IntlRo");
        },
        KeyCode::IntlYen => {
            reveal_strlit("IntlYen");
        },
        KeyCode::KanaMode => {
            reveal_strlit("KanaMode");
        },
        KeyCode::KeyA => {
            reveal_strlit("KeyA");
        },
        KeyCode::KeyB => {
            reveal_strlit("KeyB");
        },
        KeyCode::KeyC => {
            reveal_strlit("KeyC");
        },
        KeyCode::KeyD => {
            reveal_strlit("KeyD");
        },
        KeyCode::KeyE => {
            reveal_strlit("KeyE");
        },
        KeyCode::KeyF => {
            reveal_strlit("KeyF");
        },
        KeyCode::KeyG => {
            reveal_strlit("KeyG");
        },
        KeyCode::KeyH => {
            reveal_strlit("KeyH");
        },
        KeyCode::KeyI => {
            reveal_strlit("KeyI");
        },
        KeyCode::KeyJ => {
            reveal_strlit("KeyJ");
        },
        KeyCode::KeyK => {
            reveal_strlit("KeyK");
        },
        KeyCode::KeyL => {
            reveal_strlit("KeyL");
        },
        KeyCode::KeyM => {
            reveal_strlit("KeyM");
        },
        KeyCode::KeyN => {
            reveal_strlit("KeyN");
        },
        KeyCode::KeyO => {
            reveal_strlit("KeyO");
        },
        KeyCode::KeyP => {
            reveal_strlit("KeyP");
        },
        KeyCode::KeyQ => {
            reveal_strlit("KeyQ");
        },
        KeyCode::KeyR => {
            reveal_strlit("KeyR");
        },
        KeyCode::KeyS => {
            reveal_strlit("KeyS");
        },
        KeyCode::KeyT => {
            reveal_strlit("KeyT");
        },
        KeyCode::KeyU => {
            reveal_strlit("KeyU");
        },
        KeyCode::KeyV => {
            reveal_strlit("KeyV");
        },
        KeyCode::KeyW => {
            reveal_strlit("KeyW");
        },
        KeyCode::KeyX => {
            reveal_strlit("KeyX");
        },
        KeyCode::KeyY => {
            reveal_strlit("KeyY");
        },
        KeyCode::KeyZ => {
            reveal_strlit("KeyZ");
        },
        KeyCode::Lang1 => {
            reveal_strlit("Lang1");
        },
        KeyCode::Lang2 => {
            reveal_strlit("Lang2");
        },
        KeyCode::LaunchApp1 => {
            reveal_strlit("LaunchApp1");
        },
        KeyCode::LaunchApp2 => {
            reveal_strlit("LaunchApp2");
        },
        KeyCode::LaunchMail => {
            reveal_strlit("LaunchMail");
        },
        KeyCode::MediaPlayPause => {
            reveal_strlit("MediaPlayPause");
        },
        KeyCode::MediaSelect => {
            reveal_strlit("MediaSelect");
        },
        KeyCode::MediaStop => {
            reveal_strlit("MediaStop");
        },
        KeyCode::MediaTrackNext => {
            reveal_strlit("MediaTrackNext");
        },
        KeyCode::MediaTrackPrevious => {
            reveal_strlit("MediaTrackPrevious");
        },
        KeyCode::MetaLeft => {
            reveal_strlit("MetaLeft");
        },
        KeyCode::MetaRight => {
            reveal_strlit("MetaRight");
        },
        KeyCode::Minus => {
            reveal_strlit("Minus");
        },
        KeyCode::NonConvert => {
            reveal_strlit("NonConvert");
        },
        KeyCode::NumLock => {
            reveal_strlit("NumLock");
        },
        KeyCode::Numpad0 => {
            reveal_strlit("Numpad0");
        },
        KeyCode::Numpad1 => {
            reveal_strlit("Numpad1");
        },
        KeyCode::Numpad2 => {
            reveal_strlit("Numpad2");
        },
        KeyCode::Numpad3 => {
            reveal_strlit("Numpad3");
        },
        KeyCode::Numpad4 => {
            reveal_strlit("Numpad4");
        },
        KeyCode::Numpad5 => {
            reveal_strlit("Numpad5");
        },
        KeyCode::Numpad6 => {
            reveal_strlit("Numpad6");
        },
        KeyCode::Numpad7 => {
            reveal_strlit("Numpad7");
        },
        KeyCode::Numpad8 => {
            reveal_strlit("Numpad8");
        },
        KeyCode::Numpad9 => {
            reveal_strlit("Numpad9");
        },
        KeyCode::NumpadAdd => {
            reveal_strlit("NumpadAdd");
        },
        KeyCode::NumpadComma => {
            reveal_strlit("NumpadComma");
        },
        KeyCode::NumpadDecimal => {
            reveal_strlit("NumpadDecimal");
        },
        KeyCode::NumpadDivide => {
            reveal_strlit("NumpadDivide");
        },
        KeyCode::NumpadEnter => {
            reveal_strlit("NumpadEnter");
        },
        KeyCode::NumpadEqual => {
            reveal_strlit("NumpadEqual");
        },
        KeyCode::NumpadMultiply => {
            reveal_strlit("NumpadMultiply");
        },
        KeyCode::NumpadSubtract => {
            reveal_strlit("NumpadSubtract");
        },
        KeyCode::Open => {
            reveal_strlit("Open");
        },
        KeyCode::PageDown => {
            reveal_strlit("PageDown");
        },
        KeyCode::PageUp => {
            reveal_strlit("PageUp");
        },
        KeyCode::Paste => {
            reveal_strlit("Paste");
        },
        KeyCode::Pause => {
            reveal_strlit("Pause");
        },
        KeyCode::Period => {
            reveal_strlit("Period");
        },
        KeyCode::PrintScreen => {
            reveal_strlit("PrintScreen");
        },
        KeyCode::Props => {
            reveal_strlit("Props");
        },
        KeyCode::Quote => {
            reveal_strlit("Quote");
        },
        KeyCode::ScrollLock => {
            reveal_strlit("ScrollLock");
        },
        KeyCode::Select => {
            reveal_strlit("Select");
        },
        KeyCode::Semicolon => {
            reveal_strlit("Semicolon");
        },
        KeyCode::ShiftLeft => {
            reveal_strlit("ShiftLeft");
        },
        KeyCode::ShiftRight => {
            reveal_strlit("ShiftRight");
        },
        KeyCode::Slash => {
            reveal_strlit("Slash");
        },
        KeyCode::Space => {
            reveal_strlit("Space");
        },
        KeyCode::Tab => {
            reveal_strlit("Tab");
        },
        KeyCode::Undo => {
            reveal_strlit("Undo");
        },
        KeyCode::VolumeDown => {
            reveal_strlit("VolumeDown");
        },
        KeyCode::VolumeMute => {
            reveal_strlit("VolumeMute");
        },
        KeyCode::VolumeUp => {
            reveal_strlit("VolumeUp");
        },
        KeyCode::WakeUp => {
            reveal_strlit("WakeUp");
        },
    }
}

/// Law: parsing a name finds exactly the key with that name: the result is
/// `Some(k)` if and only if `k` is named `code`, and `None` if and only if no
/// key is.
pub proof fn law_from_name_finds_the_named_key(code: Seq<char>, k: KeyCode)
    ensures
        KeyCode::spec_from_name(code) == Some(k) <==> k.spec_name() == code,
        KeyCode::spec_from_name(code) is None <==> forall|j: KeyCode| j.spec_name() != code,
{
    lemma_decode_name(k);
    if KeyCode::spec_from_name(code) is None {
        assert forall|j: KeyCode| j.spec_name() != code by {
            lemma_decode_name(j);
        }
    }
}

/// Law: the name of a key parses back to that key.
pub proof fn law_name_round_trip(k: KeyCode)
    ensures
        KeyCode::spec_from_name(k.spec_name()) == Some(k),
{
    law_from_name_finds_the_named_key(k.spec_name(), k);
}

/// Law: the DOM name of every key is the name of its variant: `KeyA` is
/// named `"KeyA"`, `ArrowLeft` is named `"ArrowLeft"`, and so on for each
/// key.
pub proof fn law_key_names_are_variant_names()
    ensures
        KeyCode::Again.spec_name() == "Again"@,
        KeyCode::AltLeft.spec_name() == "AltLeft"@,
        KeyCode::AltRight.spec_name() == "AltRight"@,
        KeyCode::ArrowDown.spec_name() == "ArrowDown"@,
        KeyCode::ArrowLeft.spec_name() == "ArrowLeft"@,
        KeyCode::ArrowRight.spec_name() == "ArrowRight"@,
        KeyCode::ArrowUp.spec_name() == "ArrowUp"@,
        KeyCode::Backquote.spec_name() == "Backquote"@,
        KeyCode::Backslash.spec_name() == "Backslash"@,
        KeyCode::Backspace.spec_name() == "Backspace"@,
        KeyCode::BracketLeft.spec_name() == "BracketLeft"@,
        KeyCode::BracketRight.spec_name() == "BracketRight"@,
        KeyCode::BrowserBack.spec_name() == "BrowserBack"@,
        KeyCode::BrowserFavorites.spec_name() == "BrowserFavorites"@,
        KeyCode::BrowserForward.spec_name() == "BrowserForward"@,
        KeyCode::BrowserHome.spec_name() == "BrowserHome"@,
        KeyCode::BrowserRefresh.spec_name() == "BrowserRefresh"@,
        KeyCode::BrowserSearch.spec_name() == "BrowserSearch"@,
        KeyCode::BrowserStop.spec_name() == "BrowserStop"@,
        KeyCode::CapsLock.spec_name() == "CapsLock"@,
        KeyCode::Comma.spec_name() == "Comma"@,
        KeyCode::ContextMenu.spec_name() == "ContextMenu"@,
        KeyCode::ControlLeft.spec_name() == "ControlLeft"@,
        KeyCode::ControlRight.spec_name() == "ControlRight"@,
        KeyCode::Convert.spec_name() == "Convert"@,
        KeyCode::Copy.spec_name() == "Copy"@,
        KeyCode::Cut.spec_name() == "Cut"@,
        KeyCode::Delete.spec_name() == "Delete"@,
        KeyCode::Digit0.spec_name() == "Digit0"@,
        KeyCode::Digit1.spec_name() == "Digit1"@,
        KeyCode::Digit2.spec_name() == "Digit2"@,
        KeyCode::Digit3.spec_name() == "Digit3"@,
        KeyCode::Digit4.spec_name() == "Digit4"@,
        KeyCode::Digit5.spec_name() == "Digit5"@,
        KeyCode::Digit6.spec_name() == "Digit6"@,
        KeyCode::Digit7.spec_name() == "Digit7"@,
        KeyCode::Digit8.spec_name() == "Digit8"@,
        KeyCode::Digit9.spec_name() == "Digit9"@,
        KeyCode::Eject.spec_name() == "Eject"@,
        KeyCode::End.spec_name() == "End"@,
        KeyCode::Enter.spec_name() == "Enter"@,
        KeyCode::Equal.spec_name() == "Equal"@,
        KeyCode::Escape.spec_name() == "Escape"@,
        KeyCode::F1.spec_name() == "F1"@,
        KeyCode::F10.spec_name() == "F10"@,
        KeyCode::F11.spec_name() == "F11"@,
        KeyCode::F12.spec_name() == "F12"@,
        KeyCode::F13.spec_name() == "F13"@,
        KeyCode::F14.spec_name() == "F14"@,
        KeyCode::F15.spec_name() == "F15"@,
        KeyCode::F16.spec_name() == "F16"@,
        KeyCode::F17.spec_name() == "F17"@,
        KeyCode::F18.spec_name() == "F18"@,
        KeyCode::F19.spec_name() == "F19"@,
        KeyCode::F2.spec_name() == "F2"@,
        KeyCode::F20.spec_name() == "F20"@,
        KeyCode::F21.spec_name() == "F21"@,
        KeyCode::F22.spec_name() == "F22"@,
        KeyCode::F23.spec_name() == "F23"@,
        KeyCode::F24.spec_name() == "F24"@,
        KeyCode::F3.spec_name() == "F3"@,
        KeyCode::F4.spec_name() == "F4"@,
        KeyCode::F5.spec_name() == "F5"@,
        KeyCode::F6.spec_name() == "F6"@,
        KeyCode::F7.spec_name() == "F7"@,
        KeyCode::F8.spec_name() == "F8"@,
        KeyCode::F9.spec_name() == "F9"@,
        KeyCode::Find.spec_name() == "Find"@,
        KeyCode::Help.spec_name() == "Help"@,
        KeyCode::Home.spec_name() == "Home"@,
        KeyCode::Insert.spec_name() == "Insert"@,
        KeyCode::IntlBackslash.spec_name() == "IntlBackslash"@,
        KeyCode::IntlRo.spec_name() == "IntlRo"@,
        KeyCode::IntlYen.spec_name() == "IntlYen"@,
        KeyCode::KanaMode.spec_name() == "KanaMode"@,
        KeyCode::KeyA.spec_name() == "KeyA"@,
        KeyCode::KeyB.spec_name() == "KeyB"@,
        KeyCode::KeyC.spec_name() == "KeyC"@,
        KeyCode::KeyD.spec_name() == "KeyD"@,
        KeyCode::KeyE.spec_name() == "KeyE"@,
        KeyCode::KeyF.spec_name() == "KeyF"@,
        KeyCode::KeyG.spec_name() == "KeyG"@,
        KeyCode::KeyH.spec_name() == "KeyH"@,
        KeyCode::KeyI.spec_name() == "KeyI"@,
        KeyCode::KeyJ.spec_name() == "KeyJ"@,
        KeyCode::KeyK.spec_name() == "KeyK"@,
        KeyCode::KeyL.spec_name() == "KeyL"@,
        KeyCode::KeyM.spec_name() == "KeyM"@,
        KeyCode::KeyN.spec_name() == "KeyN"@,
        KeyCode::KeyO.spec_name() == "KeyO"@,
        KeyCode::KeyP.spec_name() == "KeyP"@,
        KeyCode::KeyQ.spec_name() == "KeyQ"@,
        KeyCode::KeyR.spec_name() == "KeyR"@,
        KeyCode::KeyS.spec_name() == "KeyS"@,
        KeyCode::KeyT.spec_name() == "KeyT"@,
        KeyCode::KeyU.spec_name() == "KeyU"@,
        KeyCode::KeyV.spec_name() == "KeyV"@,
        KeyCode::KeyW.spec_name() == "KeyW"@,
        KeyCode::KeyX.spec_name() == "KeyX"@,
        KeyCode::KeyY.spec_name() == "KeyY"@,
        KeyCode::KeyZ.spec_name() == "KeyZ"@,
        KeyCode::Lang1.spec_name() == "Lang1"@,
        KeyCode::Lang2.spec_name() == "Lang2"@,
        KeyCode::LaunchApp1.spec_name() == "LaunchApp1"@,
        KeyCode::LaunchApp2.spec_name() == "LaunchApp2"@,
        KeyCode::LaunchMail.spec_name() == "LaunchMail"@,
        KeyCode::MediaPlayPause.spec_name() == "MediaPlayPause"@,
        KeyCode::MediaSelect.spec_name() == "MediaSelect"@,
        KeyCode::MediaStop.spec_name() == "MediaStop"@,
        KeyCode::MediaTrackNext.spec_name() == "MediaTrackNext"@,
        KeyCode::MediaTrackPrevious.spec_name() == "MediaTrackPrevious"@,
        KeyCode::MetaLeft.spec_name() == "MetaLeft"@,
        KeyCode::MetaRight.spec_name() == "MetaRight"@,
        KeyCode::Minus.spec_name() == "Minus"@,
        KeyCode::NonConvert.spec_name() == "NonConvert"@,
        KeyCode::NumLock.spec_name() == "NumLock"@,
        KeyCode::Numpad0.spec_name() == "Numpad0"@,
        KeyCode::Numpad1.spec_name() == "Numpad1"@,
        KeyCode::Numpad2.spec_name() == "Numpad2"@,
        KeyCode::Numpad3.spec_name() == "Numpad3"@,
        KeyCode::Numpad4.spec_name() == "Numpad4"@,
        KeyCode::Numpad5.spec_name() == "Numpad5"@,
        KeyCode::Numpad6.spec_name() == "Numpad6"@,
        KeyCode::Numpad7.spec_name() == "Numpad7"@,
        KeyCode::Numpad8.spec_name() == "Numpad8"@,
        KeyCode::Numpad9.spec_name() == "Numpad9"@,
        KeyCode::NumpadAdd.spec_name() == "NumpadAdd"@,
        KeyCode::NumpadComma.spec_name() == "NumpadComma"@,
        KeyCode::NumpadDecimal.spec_name() == "NumpadDecimal"@,
        KeyCode::NumpadDivide.spec_name() == "NumpadDivide"@,
        KeyCode::NumpadEnter.spec_name() == "NumpadEnter"@,
        KeyCode::NumpadEqual.spec_name() == "NumpadEqual"@,
        KeyCode::NumpadMultiply.spec_name() == "NumpadMultiply"@,
        KeyCode::NumpadSubtract.spec_name() == "NumpadSubtract"@,
        KeyCode::Open.spec_name() == "Open"@,
        KeyCode::PageDown.spec_name() == "PageDown"@,
        KeyCode::PageUp.spec_name() == "PageUp"@,
        KeyCode::Paste.spec_name() == "Paste"@,
        KeyCode::Pause.spec_name() == "Pause"@,
        KeyCode::Period.spec_name() == "Period"@,
        KeyCode::PrintScreen.spec_name() == "PrintScreen"@,
        KeyCode::Props.spec_name() == "Props"@,
        KeyCode::Quote.spec_name() == "Quote"@,
        KeyCode::ScrollLock.spec_name() == "ScrollLock"@,
        KeyCode::Select.spec_name() == "Select"@,
        KeyCode::Semicolon.spec_name() == "Semicolon"@,
        KeyCode::ShiftLeft.spec_name() == "ShiftLeft"@,
        KeyCode::ShiftRight.spec_name() == "ShiftRight"@,
        KeyCode::Slash.spec_name() == "Slash"@,
        KeyCode::Space.spec_name() == "Space"@,
        KeyCode::Tab.spec_name() == "Tab"@,
        KeyCode::Undo.spec_name() == "Undo"@,
        KeyCode::VolumeDown.spec_name() == "VolumeDown"@,
        KeyCode::VolumeMute.spec_name() == "VolumeMute"@,
        KeyCode::VolumeUp.spec_name() == "VolumeUp"@,
        KeyCode::WakeUp.spec_name() == "WakeUp"@,
{
}

/// Law: no two keys share a DOM name.
pub proof fn law_key_names_are_distinct(a: KeyCode, b: KeyCode)
    ensures
        a.spec_name() == b.spec_name() ==> a == b,
{
    lemma_decode_name(a);
    lemma_decode_name(b);
}

impl KeyCode {
    /// Parses a DOM `KeyboardEvent.code` name, failing with an error that
    /// carries the name.
    pub fn from_str(s: &str) -> (r: Result<KeyCode, KeyCodeParseError>)
        ensures
            r matches Ok(k) ==> Self::spec_from_name(s@) == Some(k),
            r matches Err(e) ==> Self::spec_from_name(s@) is None && e.code() == s@,
    {
        match KeyCode::from_websys(s) {
            Some(k) => Ok(k),
            None => Err(KeyCodeParseError { code: s.to_owned() }),
        }
    }

    /// The key's DOM name, as an owned string.
    pub fn to_string(&self) -> (s: String)
        ensures
            s@ == self.spec_name(),
    {
        String::from_str(self.to_websys())
    }
}

impl std::str::FromStr for KeyCode {
    type Err = KeyCodeParseError;

    fn from_str(s: &str) -> (r: Result<KeyCode, KeyCodeParseError>)
        ensures
            r matches Ok(k) ==> KeyCode::spec_from_name(s@) == Some(k),
            r matches Err(e) ==> KeyCode::spec_from_name(s@) is None && e.code() == s@,
    {
        KeyCode::from_str(s)
    }
}

/// A string that is not the DOM name of a key.
#[derive(Debug)]
pub struct KeyCodeParseError {
    code: String,
}

impl KeyCodeParseError {
    /// The string that failed to parse.
    pub closed spec fn code(&self) -> Seq<char> {
        self.code@
    }

    /// The string that failed to parse.
    pub fn invalid_code(&self) -> (s: &str)
        ensures
            s@ == self.code(),
    {
        self.code.as_str()
    }

    /// The error message: `Invalid keycode: ` followed by the string.
    pub fn message(&self) -> (m: String)
        ensures
            m@ == "Invalid keycode: "@ + self.code(),
    {
        let mut m = String::from_str("Invalid keycode: ");
        m.append(self.code.as_str());
        m
    }
}

/// The modifier keys held during a key event, as a set of bits.
#[derive(Clone, Copy, Debug, PartialEq, Eq, Structural)]
pub struct KeyModifiers {
    bits: u8,
}

impl View for KeyModifiers {
    type V = u8;

    closed spec fn view(&self) -> u8 {
        self.bits
    }
}

/// The bits of the modifiers that are held: `CTRL` is bit 0, `ALT` bit 1,
/// `META` bit 2 and `SHIFT` bit 3.
pub open spec fn modifier_bits(alt: bool, ctrl: bool, meta: bool, shift: bool) -> u8 {
    ((if alt { 0b10u8 } else { 0u8 }) | (if ctrl { 0b1u8 } else { 0u8 }) | (if meta {
        0b100u8
    } else {
        0u8
    }) | (if shift { 0b1000u8 } else { 0u8 }))
}

impl KeyModifiers {
    /// No modifier.
    pub fn empty() -> (m: Self)
        ensures
            m@ == 0,
    {
        KeyModifiers { bits: 0 }
    }

    /// The Alt key.
    pub fn alt() -> (m: Self)
        ensures
            m@ == 0b10,
    {
        KeyModifiers { bits: 0b00000010 }
    }

    /// The Control key.
    pub fn ctrl() -> (m: Self)
        ensures
            m@ == 0b1,
    {
        KeyModifiers { bits: 0b00000001 }
    }

    /// The Meta key.
    pub fn meta() -> (m: Self)
        ensures
            m@ == 0b100,
    {
        KeyModifiers { bits: 0b00000100 }
    }

    /// The Shift key.
    pub fn shift() -> (m: Self)
        ensures
            m@ == 0b1000,
    {
        KeyModifiers { bits: 0b00001000 }
    }

    /// The raw bits.
    pub fn bits(&self) -> (b: u8)
        ensures
            b == self@,
    {
        self.bits
    }

    /// Whether all modifiers of `other` are held.
    pub fn contains(&self, other: KeyModifiers) -> (r: bool)
        ensures
            r == (self@ & other@ == other@),
    {
        self.bits & other.bits == other.bits
    }

    /// Adds the modifiers of `other`.
    pub fn insert(&mut self, other: KeyModifiers)
        ensures
            final(self)@ == old(self)@ | other@,
    {
        self.bits = self.bits | other.bits;
    }

    /// The modifiers held in either.
    pub fn union(self, other: KeyModifiers) -> (m: Self)
        ensures
            m@ == self@ | other@,
    {
        KeyModifiers { bits: self.bits | other.bits }
    }

    /// The modifiers held, from the four flags of a DOM keyboard event.
    pub fn from_flags(alt: bool, ctrl: bool, meta: bool, shift: bool) -> (m: Self)
        ensures
            m@ == modifier_bits(alt, ctrl, meta, shift),
    {
        let a: u8 = if alt { KeyModifiers::alt().bits } else { 0 };
        let c: u8 = if ctrl { KeyModifiers::ctrl().bits } else { 0 };
        let m: u8 = if meta { KeyModifiers::meta().bits } else { 0 };
        let s: u8 = if shift { KeyModifiers::shift().bits } else { 0 };
        KeyModifiers { bits: a | c | m | s }
    }
}

impl Default for KeyModifiers {
    fn default() -> (m: Self)
        ensures
            m@ == 0,
    {
        KeyModifiers::empty()
    }
}

/// Law: the modifiers built from the four flags hold exactly the flagged
/// keys.
pub proof fn law_from_flags_holds_the_flagged_keys(alt: bool, ctrl: bool, meta: bool, shift: bool)
    ensures
        ({
            let b = modifier_bits(alt, ctrl, meta, shift);
            &&& (b & 0b10 == 0b10) == alt
            &&& (b & 0b1 == 0b1) == ctrl
            &&& (b & 0b100 == 0b100) == meta
            &&& (b & 0b1000 == 0b1000) == shift
            &&& b < 16
        }),
{
    let a: u8 = if alt { 0b10u8 } else { 0u8 };
    let c: u8 = if ctrl { 0b1u8 } else { 0u8 };
    let m: u8 = if meta { 0b100u8 } else { 0u8 };
    let s: u8 = if shift { 0b1000u8 } else { 0u8 };
    assert((a == 0 || a == 2) && (c == 0 || c == 1) && (m == 0 || m == 4) && (s == 0 || s == 8)
        ==> {
        let b = a | c | m | s;
        &&& (b & 2 == 2) == (a == 2)
        &&& (b & 1 == 1) == (c == 1)
        &&& (b & 4 == 4) == (m == 4)
        &&& (b & 8 == 8) == (s == 8)
        &&& b < 16
    }) by (bit_vector);
}

/// Law: the union of two sets of modifiers holds both, and holds only what
/// one of them holds.
pub proof fn law_union_holds_both(a: u8, b: u8)
    ensures
        (a | b) & a == a,
        (a | b) & b == b,
        forall|c: u8| #![trigger a & c, b & c] (a & c == 0 && b & c == 0) ==> (a | b) & c == 0,
{
    assert((a | b) & a == a && (a | b) & b == b) by (bit_vector);
    assert forall|c: u8| #![trigger a & c, b & c] (a & c == 0 && b & c == 0) implies (a | b) & c == 0 by {
        assert((a & c == 0 && b & c == 0) ==> (a | b) & c == 0) by (bit_vector);
    }
}

/// A key was released or pressed.
#[derive(Clone, Copy, Debug, PartialEq, Eq, Structural)]
pub enum KeyboardEvent {
    KeyUp { code: KeyCode, modifiers: KeyModifiers },
    KeyDown { code: KeyCode, repeat: bool, modifiers: KeyModifiers },
}

impl KeyboardEvent {
    /// The event for a DOM `keyup` with the given `code`, or `None` when the
    /// code names no key.
    pub fn from_websys_key_up(code: &str, modifiers: KeyModifiers) -> (r: Option<Self>)
        ensures
            r == match KeyCode::spec_from_name(code@) {
                Some(c) => Some(KeyboardEvent::KeyUp { code: c, modifiers }),
                None => None,
            },
    {
        match KeyCode::from_websys(code) {
            Some(c) => Some(KeyboardEvent::KeyUp { code: c, modifiers }),
            None => None,
        }
    }

    /// The event for a DOM `keydown` with the given `code`, or `None` when the
    /// code names no key.
    pub fn from_websys_key_down(code: &str, repeat: bool, modifiers: KeyModifiers) -> (r: Option<
        Self,
    >)
        ensures
            r == match KeyCode::spec_from_name(code@) {
                Some(c) => Some(KeyboardEvent::KeyDown { code: c, repeat, modifiers }),
                None => None,
            },
    {
        match KeyCode::from_websys(code) {
            Some(c) => Some(KeyboardEvent::KeyDown { code: c, repeat, modifiers }),
            None => None,
        }
    }
}

} // verus!
