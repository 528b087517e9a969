use vstd::prelude::*;

verus! {

use vstd::string::StringExecFns;
use crate::errors::VibinRemoteError;

/// The canonical identifier of one physical/logical keyboard key.
/// A value of this type is produced only by successful key-name
/// validation; equality is by enumeration identity.
#[derive(Clone, Copy, Debug, PartialEq, Eq, Structural)]
pub enum CanonicalKey {
    Alt,
    AltGr,
    Backspace,
    CapsLock,
    ControlLeft,
    ControlRight,
    Delete,
    DownArrow,
    End,
    Escape,
    F1,
    F10,
    F11,
    F12,
    F2,
    F3,
    F4,
    F5,
    F6,
    F7,
    F8,
    F9,
    Home,
    LeftArrow,
    MetaLeft,
    MetaRight,
    PageDown,
    PageUp,
    Return,
    RightArrow,
    ShiftLeft,
    ShiftRight,
    Space,
    Tab,
    UpArrow,
    PrintScreen,
    ScrollLock,
    Pause,
    NumLock,
    BackQuote,
    Num1,
    Num2,
    Num3,
    Num4,
    Num5,
    Num6,
    Num7,
    Num8,
    Num9,
    Num0,
    Minus,
    Equal,
    KeyQ,
    KeyW,
    KeyE,
    KeyR,
    KeyT,
    KeyY,
    KeyU,
    KeyI,
    KeyO,
    KeyP,
    LeftBracket,
    RightBracket,
    KeyA,
    KeyS,
    KeyD,
    KeyF,
    KeyG,
    KeyH,
    KeyJ,
    KeyK,
    KeyL,
    SemiColon,
    Quote,
    BackSlash,
    IntlBackslash,
    KeyZ,
    KeyX,
    KeyC,
    KeyV,
    KeyB,
    KeyN,
    KeyM,
    Comma,
    Dot,
    Slash,
    Insert,
    KpReturn,
    KpMinus,
    KpPlus,
    KpMultiply,
    KpDivide,
    Kp0,
    Kp1,
    Kp2,
    Kp3,
    Kp4,
    Kp5,
    Kp6,
    Kp7,
    Kp8,
    Kp9,
    KpDelete,
    Function,
}

/// The fixed, finite table of recognized human-readable key names:
/// the canonical key a name denotes, or `None` when the name is not
/// recognized. Matching is case-sensitive and exact.
pub open spec fn key_of_name(name: Seq<char>) -> Option<CanonicalKey> {
    if name == "Alt"@ {
        Some(CanonicalKey::Alt)
    } else if name == "AltGr"@ {
        Some(CanonicalKey::AltGr)
    } else if name == "Backspace"@ {
        Some(CanonicalKey::Backspace)
    } else if name == "CapsLock"@ {
        Some(CanonicalKey::CapsLock)
    } else if name == "ControlLeft"@ {
        Some(CanonicalKey::ControlLeft)
    } else if name == "ControlRight"@ {
        Some(CanonicalKey::ControlRight)
    } else if name == "Delete"@ {
        Some(CanonicalKey::Delete)
    } else if name == "DownArrow"@ {
        Some(CanonicalKey::DownArrow)
    } else if name == "End"@ {
        Some(CanonicalKey::End)
    } else if name == "Escape"@ {
        Some(CanonicalKey::Escape)
    } else if name == "F1"@ {
        Some(CanonicalKey::F1)
    } else if name == "F10"@ {
        Some(CanonicalKey::F10)
    } else if name == "F11"@ {
        Some(CanonicalKey::F11)
    } else if name == "F12"@ {
        Some(CanonicalKey::F12)
    } else if name == "F2"@ {
        Some(CanonicalKey::F2)
    } else if name == "F3"@ {
        Some(CanonicalKey::F3)
    } else if name == "F4"@ {
        Some(CanonicalKey::F4)
    } else if name == "F5"@ {
        Some(CanonicalKey::F5)
    } else if name == "F6"@ {
        Some(CanonicalKey::F6)
    } else if name == "F7"@ {
        Some(CanonicalKey::F7)
    } else if name == "F8"@ {
        Some(CanonicalKey::F8)
    } else if name == "F9"@ {
        Some(CanonicalKey::F9)
    } else if name == "Home"@ {
        Some(CanonicalKey::Home)
    } else if name == "LeftArrow"@ {
        Some(CanonicalKey::LeftArrow)
    } else if name == "MetaLeft"@ {
        Some(CanonicalKey::MetaLeft)
    } else if name == "MetaRight"@ {
        Some(CanonicalKey::MetaRight)
    } else if name == "PageDown"@ {
        Some(CanonicalKey::PageDown)
    } else if name == "PageUp"@ {
        Some(CanonicalKey::PageUp)
    } else if name == "Return"@ {
        Some(CanonicalKey::Return)
    } else if name == "RightArrow"@ {
        Some(CanonicalKey::RightArrow)
    } else if name == "ShiftLeft"@ {
        Some(CanonicalKey::ShiftLeft)
    } else if name == "ShiftRight"@ {
        Some(CanonicalKey::ShiftRight)
    } else if name == "Space"@ {
        Some(CanonicalKey::Space)
    } else if name == "Tab"@ {
        Some(CanonicalKey::Tab)
    } else if name == "UpArrow"@ {
        Some(CanonicalKey::UpArrow)
    } else if name == "PrintScreen"@ {
        Some(CanonicalKey::PrintScreen)
    } else if name == "ScrollLock"@ {
        Some(CanonicalKey::ScrollLock)
    } else if name == "Pause"@ {
        Some(CanonicalKey::Pause)
    } else if name == "NumLock"@ {
        Some(CanonicalKey::NumLock)
    } else if name == "BackQuote"@ {
        Some(CanonicalKey::BackQuote)
    } else if name == "Num1"@ {
        Some(CanonicalKey::Num1)
    } else if name == "Num2"@ {
        Some(CanonicalKey::Num2)
    } else if name == "Num3"@ {
        Some(CanonicalKey::Num3)
    } else if name == "Num4"@ {
        Some(CanonicalKey::Num4)
    } else if name == "Num5"@ {
        Some(CanonicalKey::Num5)
    } else if name == "Num6"@ {
        Some(CanonicalKey::Num6)
    } else if name == "Num7"@ {
        Some(CanonicalKey::Num7)
    } else if name == "Num8"@ {
        Some(CanonicalKey::Num8)
    } else if name == "Num9"@ {
        Some(CanonicalKey::Num9)
    } else if name == "Num0"@ {
        Some(CanonicalKey::Num0)
    } else if name == "Minus"@ {
        Some(CanonicalKey::Minus)
    } else if name == "Equal"@ {
        Some(CanonicalKey::Equal)
    } else if name == "KeyQ"@ {
        Some(CanonicalKey::KeyQ)
    } else if name == "KeyW"@ {
        Some(CanonicalKey::KeyW)
    } else if name == "KeyE"@ {
        Some(CanonicalKey::KeyE)
    } else if name == "KeyR"@ {
        Some(CanonicalKey::KeyR)
    } else if name == "KeyT"@ {
        Some(CanonicalKey::KeyT)
    } else if name == "KeyY"@ {
        Some(CanonicalKey::KeyY)
    } else if name == "KeyU"@ {
        Some(CanonicalKey::KeyU)
    } else if name == "KeyI"@ {
        Some(CanonicalKey::KeyI)
    } else if name == "KeyO"@ {
        Some(CanonicalKey::KeyO)
    } else if name == "KeyP"@ {
        Some(CanonicalKey::KeyP)
    } else if name == "LeftBracket"@ {
        Some(CanonicalKey::LeftBracket)
    } else if name == "RightBracket"@ {
        Some(CanonicalKey::RightBracket)
    } else if name == "KeyA"@ {
        Some(CanonicalKey::KeyA)
    } else if name == "KeyS"@ {
        Some(CanonicalKey::KeyS)
    } else if name == "KeyD"@ {
        Some(CanonicalKey::KeyD)
    } else if name == "KeyF"@ {
        Some(CanonicalKey::KeyF)
    } else if name == "KeyG"@ {
        Some(CanonicalKey::KeyG)
    } else if name == "KeyH"@ {
        Some(CanonicalKey::KeyH)
    } else if name == "KeyJ"@ {
        Some(CanonicalKey::KeyJ)
    } else if name == "KeyK"@ {
        Some(CanonicalKey::KeyK)
    } else if name == "KeyL"@ {
        Some(CanonicalKey::KeyL)
    } else if name == "SemiColon"@ {
        Some(CanonicalKey::SemiColon)
    } else if name == "Quote"@ {
        Some(CanonicalKey::Quote)
    } else if name == "BackSlash"@ {
        Some(CanonicalKey::BackSlash)
    } else if name == "IntlBackslash"@ {
        Some(CanonicalKey::IntlBackslash)
    } else if name == "KeyZ"@ {
        Some(CanonicalKey::KeyZ)
    } else if name == "KeyX"@ {
        Some(CanonicalKey::KeyX)
    } else if name == "KeyC"@ {
        Some(CanonicalKey::KeyC)
    } else if name == "KeyV"@ {
        Some(CanonicalKey::KeyV)
    } else if name == "KeyB"@ {
        Some(CanonicalKey::KeyB)
    } else if name == "KeyN"@ {
        Some(CanonicalKey::KeyN)
    } else if name == "KeyM"@ {
        Some(CanonicalKey::KeyM)
    } else if name == "Comma"@ {
        Some(CanonicalKey::Comma)
    } else if name == "Dot"@ {
        Some(CanonicalKey::Dot)
    } else if name == "Slash"@ {
        Some(CanonicalKey::Slash)
    } else if name == "Insert"@ {
        Some(CanonicalKey::Insert)
    } else if name == "KpReturn"@ {
        Some(CanonicalKey::KpReturn)
    } else if name == "KpMinus"@ {
        Some(CanonicalKey::KpMinus)
    } else if name == "KpPlus"@ {
        Some(CanonicalKey::KpPlus)
    } else if name == "KpMultiply"@ {
        Some(CanonicalKey::KpMultiply)
    } else if name == "KpDivide"@ {
        Some(CanonicalKey::KpDivide)
    } else if name == "Kp0"@ {
        Some(CanonicalKey::Kp0)
    } else if name == "Kp1"@ {
        Some(CanonicalKey::Kp1)
    } else if name == "Kp2"@ {
        Some(CanonicalKey::Kp2)
    } else if name == "Kp3"@ {
        Some(CanonicalKey::Kp3)
    } else if name == "Kp4"@ {
        Some(CanonicalKey::Kp4)
    } else if name == "Kp5"@ {
        Some(CanonicalKey::Kp5)
    } else if name == "Kp6"@ {
        Some(CanonicalKey::Kp6)
    } else if name == "Kp7"@ {
        Some(CanonicalKey::Kp7)
    } else if name == "Kp8"@ {
        Some(CanonicalKey::Kp8)
    } else if name == "Kp9"@ {
        Some(CanonicalKey::Kp9)
    } else if name == "KpDelete"@ {
        Some(CanonicalKey::KpDelete)
    } else if name == "Function"@ {
        Some(CanonicalKey::Function)
    } else {
        None
    }
}

/// Parse a human-readable key name into its canonical key: the
/// matching key for every name in the recognized-name table, and
/// `InvalidKeyName` naming the input for every other string.
pub fn validate_key_name(key_name: &str) -> (r: Result<CanonicalKey, VibinRemoteError>)
    ensures
        match r {
            Ok(k) => key_of_name(key_name@) == Some(k),
            Err(e) => key_of_name(key_name@) is None && (e matches
                VibinRemoteError::InvalidKeyName { key_name: n } && n@ == key_name@),
        },
{
    let owned: String = key_name.to_owned();
    if owned == String::from_str("Alt") {
        return Ok(CanonicalKey::Alt);
    }
    if owned == String::from_str("AltGr") {
        return Ok(CanonicalKey::AltGr);
    }
    if owned == String::from_str("Backspace") {
        return Ok(CanonicalKey::Backspace);
    }
    if owned == String::from_str("CapsLock") {
        return Ok(CanonicalKey::CapsLock);
    }
    if owned == String::from_str("ControlLeft") {
        return Ok(CanonicalKey::ControlLeft);
    }
    if owned == String::from_str("ControlRight") {
        return Ok(CanonicalKey::ControlRight);
    }
    if owned == String::from_str("Delete") {
        return Ok(CanonicalKey::Delete);
    }
    if owned == String::from_str("DownArrow") {
        return Ok(CanonicalKey::DownArrow);
    }
    if owned == String::from_str("End") {
        return Ok(CanonicalKey::End);
    }
    if owned == String::from_str("Escape") {
        return Ok(CanonicalKey::Escape);
    }
    if owned == String::from_str("F1") {
        return Ok(CanonicalKey::F1);
    }
    if owned == String::from_str("F10") {
        return Ok(CanonicalKey::F10);
    }
    if owned == String::from_str("F11") {
        return Ok(CanonicalKey::F11);
    }
    if owned == String::from_str("F12") {
        return Ok(CanonicalKey::F12);
    }
    if owned == String::from_str("F2") {
        return Ok(CanonicalKey::F2);
    }
    if owned == String::from_str("F3") {
        return Ok(CanonicalKey::F3);
    }
    if owned == String::from_str("F4") {
        return Ok(CanonicalKey::F4);
    }
    if owned == String::from_str("F5") {
        return Ok(CanonicalKey::F5);
    }
    if owned == String::from_str("F6") {
        return Ok(CanonicalKey::F6);
    }
    if owned == String::from_str("F7") {
        return Ok(CanonicalKey::F7);
    }
    if owned == String::from_str("F8") {
        return Ok(CanonicalKey::F8);
    }
    if owned == String::from_str("F9") {
        return Ok(CanonicalKey::F9);
    }
    if owned == String::from_str("Home") {
        return Ok(CanonicalKey::Home);
    }
    if owned == String::from_str("LeftArrow") {
        return Ok(CanonicalKey::LeftArrow);
    }
    if owned == String::from_str("MetaLeft") {
        return Ok(CanonicalKey::MetaLeft);
    }
    if owned == String::from_str("MetaRight") {
        return Ok(CanonicalKey::MetaRight);
    }
    if owned == String::from_str("PageDown") {
        return Ok(CanonicalKey::PageDown);
    }
    if owned == String::from_str("PageUp") {
        return Ok(CanonicalKey::PageUp);
    }
    if owned == String::from_str("Return") {
        return Ok(CanonicalKey::Return);
    }
    if owned == String::from_str("RightArrow") {
        return Ok(CanonicalKey::RightArrow);
    }
    if owned == String::from_str("ShiftLeft") {
        return Ok(CanonicalKey::ShiftLeft);
    }
    if owned == String::from_str("ShiftRight") {
        return Ok(CanonicalKey::ShiftRight);
    }
    if owned == String::from_str("Space") {
        return Ok(CanonicalKey::Space);
    }
    if owned == String::from_str("Tab") {
        return Ok(CanonicalKey::Tab);
    }
    if owned == String::from_str("UpArrow") {
        return Ok(CanonicalKey::UpArrow);
    }
    if owned == String::from_str("PrintScreen") {
        return Ok(CanonicalKey::PrintScreen);
    }
    if owned == String::from_str("ScrollLock") {
        return Ok(CanonicalKey::ScrollLock);
    }
    if owned == String::from_str("Pause") {
        return Ok(CanonicalKey::Pause);
    }
    if owned == String::from_str("NumLock") {
        return Ok(CanonicalKey::NumLock);
    }
    if owned == String::from_str("BackQuote") {
        return Ok(CanonicalKey::BackQuote);
    }
    if owned == String::from_str("Num1") {
        return Ok(CanonicalKey::Num1);
    }
    if owned == String::from_str("Num2") {
        return Ok(CanonicalKey::Num2);
    }
    if owned == String::from_str("Num3") {
        return Ok(CanonicalKey::Num3);
    }
    if owned == String::from_str("Num4") {
        return Ok(CanonicalKey::Num4);
    }
    if owned == String::from_str("Num5") {
        return Ok(CanonicalKey::Num5);
    }
    if owned == String::from_str("Num6") {
        return Ok(CanonicalKey::Num6);
    }
    if owned == String::from_str("Num7") {
        return Ok(CanonicalKey::Num7);
    }
    if owned == String::from_str("Num8") {
        return Ok(CanonicalKey::Num8);
    }
    if owned == String::from_str("Num9") {
        return Ok(CanonicalKey::Num9);
    }
    if owned == String::from_str("Num0") {
        return Ok(CanonicalKey::Num0);
    }
    if owned == String::from_str("Minus") {
        return Ok(CanonicalKey::Minus);
    }
    if owned == String::from_str("Equal") {
        return Ok(CanonicalKey::Equal);
    }
    if owned == String::from_str("KeyQ") {
        return Ok(CanonicalKey::KeyQ);
    }
    if owned == String::from_str("KeyW") {
        return Ok(CanonicalKey::KeyW);
    }
    if owned == String::from_str("KeyE") {
        return Ok(CanonicalKey::KeyE);
    }
    if owned == String::from_str("KeyR") {
        return Ok(CanonicalKey::KeyR);
    }
    if owned == String::from_str("KeyT") {
        return Ok(CanonicalKey::KeyT);
    }
    if owned == String::from_str("KeyY") {
        return Ok(CanonicalKey::KeyY);
    }
    if owned == String::from_str("KeyU") {
        return Ok(CanonicalKey::KeyU);
    }
    if owned == String::from_str("KeyI") {
        return Ok(CanonicalKey::KeyI);
    }
    if owned == String::from_str("KeyO") {
        return Ok(CanonicalKey::KeyO);
    }
    if owned == String::from_str("KeyP") {
        return Ok(CanonicalKey::KeyP);
    }
    if owned == String::from_str("LeftBracket") {
        return Ok(CanonicalKey::LeftBracket);
    }
    if owned == String::from_str("RightBracket") {
        return Ok(CanonicalKey::RightBracket);
    }
    if owned == String::from_str("KeyA") {
        return Ok(CanonicalKey::KeyA);
    }
    if owned == String::from_str("KeyS") {
        return Ok(CanonicalKey::KeyS);
    }
    if owned == String::from_str("KeyD") {
        return Ok(CanonicalKey::KeyD);
    }
    if owned == String::from_str("KeyF") {
        return Ok(CanonicalKey::KeyF);
    }
    if owned == String::from_str("KeyG") {
        return Ok(CanonicalKey::KeyG);
    }
    if owned == String::from_str("KeyH") {
        return Ok(CanonicalKey::KeyH);
    }
    if owned == String::from_str("KeyJ") {
        return Ok(CanonicalKey::KeyJ);
    }
    if owned == String::from_str("KeyK") {
        return Ok(CanonicalKey::KeyK);
    }
    if owned == String::from_str("KeyL") {
        return Ok(CanonicalKey::KeyL);
    }
    if owned == String::from_str("SemiColon") {
        return Ok(CanonicalKey::SemiColon);
    }
    if owned == String::from_str("Quote") {
        return Ok(CanonicalKey::Quote);
    }
    if owned == String::from_str("BackSlash") {
        return Ok(CanonicalKey::BackSlash);
    }
    if owned == String::from_str("IntlBackslash") {
        return Ok(CanonicalKey::IntlBackslash);
    }
    if owned == String::from_str("KeyZ") {
        return Ok(CanonicalKey::KeyZ);
    }
    if owned == String::from_str("KeyX") {
        return Ok(CanonicalKey::KeyX);
    }
    if owned == String::from_str("KeyC") {
        return Ok(CanonicalKey::KeyC);
    }
    if owned == String::from_str("KeyV") {
        return Ok(CanonicalKey::KeyV);
    }
    if owned == String::from_str("KeyB") {
        return Ok(CanonicalKey::KeyB);
    }
    if owned == String::from_str("KeyN") {
        return Ok(CanonicalKey::KeyN);
    }
    if owned == String::from_str("KeyM") {
        return Ok(CanonicalKey::KeyM);
    }
    if owned == String::from_str("Comma") {
        return Ok(CanonicalKey::Comma);
    }
    if owned == String::from_str("Dot") {
        return Ok(CanonicalKey::Dot);
    }
    if owned == String::from_str("Slash") {
        return Ok(CanonicalKey::Slash);
    }
    if owned == String::from_str("Insert") {
        return Ok(CanonicalKey::Insert);
    }
    if owned == String::from_str("KpReturn") {
        return Ok(CanonicalKey::KpReturn);
    }
    if owned == String::from_str("KpMinus") {
        return Ok(CanonicalKey::KpMinus);
    }
    if owned == String::from_str("KpPlus") {
        return Ok(CanonicalKey::KpPlus);
    }
    if owned == String::from_str("KpMultiply") {
        return Ok(CanonicalKey::KpMultiply);
    }
    if owned == String::from_str("KpDivide") {
        return Ok(CanonicalKey::KpDivide);
    }
    if owned == String::from_str("Kp0") {
        return Ok(CanonicalKey::Kp0);
    }
    if owned == String::from_str("Kp1") {
        return Ok(CanonicalKey::Kp1);
    }
    if owned == String::from_str("Kp2") {
        return Ok(CanonicalKey::Kp2);
    }
    if owned == String::from_str("Kp3") {
        return Ok(CanonicalKey::Kp3);
    }
    if owned == String::from_str("Kp4") {
        return Ok(CanonicalKey::Kp4);
    }
    if owned == String::from_str("Kp5") {
        return Ok(CanonicalKey::Kp5);
    }
    if owned == String::from_str("Kp6") {
        return Ok(CanonicalKey::Kp6);
    }
    if owned == String::from_str("Kp7") {
        return Ok(CanonicalKey::Kp7);
    }
    if owned == String::from_str("Kp8") {
        return Ok(CanonicalKey::Kp8);
    }
    if owned == String::from_str("Kp9") {
        return Ok(CanonicalKey::Kp9);
    }
    if owned == String::from_str("KpDelete") {
        return Ok(CanonicalKey::KpDelete);
    }
    if owned == String::from_str("Function") {
        return Ok(CanonicalKey::Function);
    }
    Err(VibinRemoteError::InvalidKeyName { key_name: owned })
}

} // verus!
