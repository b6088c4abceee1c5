use vstd::prelude::*;

verus! {

/// Mouse buttons of the engine's input interface.
#[derive(Debug, Clone, Copy, PartialEq, Eq, Structural)]
pub enum CoreMouseButton {
    Left,
    Right,
    Middle,
}

/// Modifier state of the engine's input interface.
#[derive(Debug, Clone, Copy, PartialEq, Eq, Structural)]
pub struct CoreModifiers {
    pub shift: bool,
    pub ctrl: bool,
    pub alt: bool,
    pub meta: bool,
}

/// Touch event kinds of the engine's input interface.
#[derive(Debug, Clone, Copy, PartialEq, Eq, Structural)]
pub enum TouchEventType {
    Down,
    Move,
    Up,
    Cancel,
}

/// Named (non-character) keys.
#[derive(Debug, Clone, Copy, PartialEq, Eq, Structural)]
pub enum NamedKey {
    Alt,
    AltGraph,
    CapsLock,
    Control,
    Fn,
    FnLock,
    Meta,
    NumLock,
    ScrollLock,
    Shift,
    Symbol,
    SymbolLock,
    Hyper,
    Super,
    Enter,
    Tab,
    Space,
    ArrowDown,
    ArrowLeft,
    ArrowRight,
    ArrowUp,
    End,
    Home,
    PageDown,
    PageUp,
    Backspace,
    Clear,
    Copy,
    CrSel,
    Cut,
    Delete,
    EraseEof,
    ExSel,
    Insert,
    Paste,
    Redo,
    Undo,
    Accept,
    Again,
    Attn,
    Cancel,
    ContextMenu,
    Escape,
    Execute,
    Find,
    Help,
    Pause,
    Play,
    Props,
    Select,
    ZoomIn,
    ZoomOut,
    BrightnessDown,
    BrightnessUp,
    Eject,
    LogOff,
    Power,
    PowerOff,
    PrintScreen,
    Hibernate,
    Standby,
    WakeUp,
    AllCandidates,
    Alphanumeric,
    CodeInput,
    Compose,
    Convert,
    Dead,
    FinalMode,
    GroupFirst,
    GroupLast,
    GroupNext,
    GroupPrevious,
    ModeChange,
    NextCandidate,
    NonConvert,
    PreviousCandidate,
    Process,
    SingleCandidate,
    HangulMode,
    HanjaMode,
    JunjaMode,
    Eisu,
    Hankaku,
    Hiragana,
    HiraganaKatakana,
    KanaMode,
    KanjiMode,
    Katakana,
    Romaji,
    Zenkaku,
    ZenkakuHankaku,
    F1,
    F2,
    F3,
    F4,
    F5,
    F6,
    F7,
    F8,
    F9,
    F10,
    F11,
    F12,
    F13,
    F14,
    F15,
    F16,
    F17,
    F18,
    F19,
    F20,
    F21,
    F22,
    F23,
    F24,
    F25,
    F26,
    F27,
    F28,
    F29,
    F30,
    F31,
    F32,
    F33,
    F34,
    F35,
}

/// The name of a key, as its variant is spelled.
pub open spec fn named_key_name(k: NamedKey) -> Seq<char> {
    match k {
        NamedKey::Alt => "Alt"@,
        NamedKey::AltGraph => "AltGraph"@,
        NamedKey::CapsLock => "CapsLock"@,
        NamedKey::Control => "Control"@,
        NamedKey::Fn => "Fn"@,
        NamedKey::FnLock => "FnLock"@,
        NamedKey::Meta => "Meta"@,
        NamedKey::NumLock => "NumLock"@,
        NamedKey::ScrollLock => "ScrollLock"@,
        NamedKey::Shift => "Shift"@,
        NamedKey::Symbol => "Symbol"@,
        NamedKey::SymbolLock => "SymbolLock"@,
        NamedKey::Hyper => "Hyper"@,
        NamedKey::Super => "Super"@,
        NamedKey::Enter => "Enter"@,
        NamedKey::Tab => "Tab"@,
        NamedKey::Space => "Space"@,
        NamedKey::ArrowDown => "ArrowDown"@,
        NamedKey::ArrowLeft => "ArrowLeft"@,
        NamedKey::ArrowRight => "ArrowRight"@,
        NamedKey::ArrowUp => "ArrowUp"@,
        NamedKey::End => "End"@,
        NamedKey::Home => "Home"@,
        NamedKey::PageDown => "PageDown"@,
        NamedKey::PageUp => "PageUp"@,
        NamedKey::Backspace => "Backspace"@,
        NamedKey::Clear => "Clear"@,
        NamedKey::Copy => "Copy"@,
        NamedKey::CrSel => "CrSel"@,
        NamedKey::Cut => "Cut"@,
        NamedKey::Delete => "Delete"@,
        NamedKey::EraseEof => "EraseEof"@,
        NamedKey::ExSel => "ExSel"@,
        NamedKey::Insert => "Insert"@,
        NamedKey::Paste => "Paste"@,
        NamedKey::Redo => "Redo"@,
        NamedKey::Undo => "Undo"@,
        NamedKey::Accept => "Accept"@,
        NamedKey::Again => "Again"@,
        NamedKey::Attn => "Attn"@,
        NamedKey::Cancel => "Cancel"@,
        NamedKey::ContextMenu => "ContextMenu"@,
        NamedKey::Escape => "Escape"@,
        NamedKey::Execute => "Execute"@,
        NamedKey::Find => "Find"@,
        NamedKey::Help => "Help"@,
        NamedKey::Pause => "Pause"@,
        NamedKey::Play => "Play"@,
        NamedKey::Props => "Props"@,
        NamedKey::Select => "Select"@,
        NamedKey::ZoomIn => "ZoomIn"@,
        NamedKey::ZoomOut => "ZoomOut"@,
        NamedKey::BrightnessDown => "BrightnessDown"@,
        NamedKey::BrightnessUp => "BrightnessUp"@,
        NamedKey::Eject => "Eject"@,
        NamedKey::LogOff => "LogOff"@,
        NamedKey::Power => "Power"@,
        NamedKey::PowerOff => "PowerOff"@,
        NamedKey::PrintScreen => "PrintScreen"@,
        NamedKey::Hibernate => "Hibernate"@,
        NamedKey::Standby => "Standby"@,
        NamedKey::WakeUp => "WakeUp"@,
        NamedKey::AllCandidates => "AllCandidates"@,
        NamedKey::Alphanumeric => "Alphanumeric"@,
        NamedKey::CodeInput => "CodeInput"@,
        NamedKey::Compose => "Compose"@,
        NamedKey::Convert => "Convert"@,
        NamedKey::Dead => "Dead"@,
        NamedKey::FinalMode => "FinalMode"@,
        NamedKey::GroupFirst => "GroupFirst"@,
        NamedKey::GroupLast => "GroupLast"@,
        NamedKey::GroupNext => "GroupNext"@,
        NamedKey::GroupPrevious => "GroupPrevious"@,
        NamedKey::ModeChange => "ModeChange"@,
        NamedKey::NextCandidate => "NextCandidate"@,
        NamedKey::NonConvert => "NonConvert"@,
        NamedKey::PreviousCandidate => "PreviousCandidate"@,
        NamedKey::Process => "Process"@,
        NamedKey::SingleCandidate => "SingleCandidate"@,
        NamedKey::HangulMode => "HangulMode"@,
        NamedKey::HanjaMode => "HanjaMode"@,
        NamedKey::JunjaMode => "JunjaMode"@,
        NamedKey::Eisu => "Eisu"@,
        NamedKey::Hankaku => "Hankaku"@,
        NamedKey::Hiragana => "Hiragana"@,
        NamedKey::HiraganaKatakana => "HiraganaKatakana"@,
        NamedKey::KanaMode => "KanaMode"@,
        NamedKey::KanjiMode => "KanjiMode"@,
        NamedKey::Katakana => "Katakana"@,
        NamedKey::Romaji => "Romaji"@,
        NamedKey::Zenkaku => "Zenkaku"@,
        NamedKey::ZenkakuHankaku => "ZenkakuHankaku"@,
        NamedKey::F1 => "F1"@,
        NamedKey::F2 => "F2"@,
        NamedKey::F3 => "F3"@,
        NamedKey::F4 => "F4"@,
        NamedKey::F5 => "F5"@,
        NamedKey::F6 => "F6"@,
        NamedKey::F7 => "F7"@,
        NamedKey::F8 => "F8"@,
        NamedKey::F9 => "F9"@,
        NamedKey::F10 => "F10"@,
        NamedKey::F11 => "F11"@,
        NamedKey::F12 => "F12"@,
        NamedKey::F13 => "F13"@,
        NamedKey::F14 => "F14"@,
        NamedKey::F15 => "F15"@,
        NamedKey::F16 => "F16"@,
        NamedKey::F17 => "F17"@,
        NamedKey::F18 => "F18"@,
        NamedKey::F19 => "F19"@,
        NamedKey::F20 => "F20"@,
        NamedKey::F21 => "F21"@,
        NamedKey::F22 => "F22"@,
        NamedKey::F23 => "F23"@,
        NamedKey::F24 => "F24"@,
        NamedKey::F25 => "F25"@,
        NamedKey::F26 => "F26"@,
        NamedKey::F27 => "F27"@,
        NamedKey::F28 => "F28"@,
        NamedKey::F29 => "F29"@,
        NamedKey::F30 => "F30"@,
        NamedKey::F31 => "F31"@,
        NamedKey::F32 => "F32"@,
        NamedKey::F33 => "F33"@,
        NamedKey::F34 => "F34"@,
        NamedKey::F35 => "F35"@,
    }
}

/// The virtual key code of a named key (0 for keys without one).
pub open spec fn named_key_code(k: NamedKey) -> u32 {
    match k {
        NamedKey::Alt => 18,
        NamedKey::CapsLock => 20,
        NamedKey::Control => 17,
        NamedKey::Meta => 91,
        NamedKey::Shift => 16,
        NamedKey::Enter => 13,
        NamedKey::Tab => 9,
        NamedKey::Space => 32,
        NamedKey::ArrowDown => 40,
        NamedKey::ArrowLeft => 37,
        NamedKey::ArrowRight => 39,
        NamedKey::ArrowUp => 38,
        NamedKey::End => 35,
        NamedKey::Home => 36,
        NamedKey::PageDown => 34,
        NamedKey::PageUp => 33,
        NamedKey::Backspace => 8,
        NamedKey::Delete => 46,
        NamedKey::Insert => 45,
        NamedKey::Escape => 27,
        NamedKey::F1 => 112,
        NamedKey::F2 => 113,
        NamedKey::F3 => 114,
        NamedKey::F4 => 115,
        NamedKey::F5 => 116,
        NamedKey::F6 => 117,
        NamedKey::F7 => 118,
        NamedKey::F8 => 119,
        NamedKey::F9 => 120,
        NamedKey::F10 => 121,
        NamedKey::F11 => 122,
        NamedKey::F12 => 123,
        _ => 0,
    }
}

impl NamedKey {
    /// The key's name, as its variant is spelled.
    pub fn name(&self) -> (r: &'static str)
        ensures
            r@ == named_key_name(*self),
    {
        match self {
            NamedKey::Alt => "Alt",
            NamedKey::AltGraph => "AltGraph",
            NamedKey::CapsLock => "CapsLock",
            NamedKey::Control => "Control",
            NamedKey::Fn => "Fn",
            NamedKey::FnLock => "FnLock",
            NamedKey::Meta => "Meta",
            NamedKey::NumLock => "NumLock",
            NamedKey::ScrollLock => "ScrollLock",
            NamedKey::Shift => "Shift",
            NamedKey::Symbol => "Symbol",
            NamedKey::SymbolLock => "SymbolLock",
            NamedKey::Hyper => "Hyper",
            NamedKey::Super => "Super",
            NamedKey::Enter => "Enter",
            NamedKey::Tab => "Tab",
            NamedKey::Space => "Space",
            NamedKey::ArrowDown => "ArrowDown",
            NamedKey::ArrowLeft => "ArrowLeft",
            NamedKey::ArrowRight => "ArrowRight",
            NamedKey::ArrowUp => "ArrowUp",
            NamedKey::End => "End",
            NamedKey::Home => "Home",
            NamedKey::PageDown => "PageDown",
            NamedKey::PageUp => "PageUp",
            NamedKey::Backspace => "Backspace",
            NamedKey::Clear => "Clear",
            NamedKey::Copy => "Copy",
            NamedKey::CrSel => "CrSel",
            NamedKey::Cut => "Cut",
            NamedKey::Delete => "Delete",
            NamedKey::EraseEof => "EraseEof",
            NamedKey::ExSel => "ExSel",
            NamedKey::Insert => "Insert",
            NamedKey::Paste => "Paste",
            NamedKey::Redo => "Redo",
            NamedKey::Undo => "Undo",
            NamedKey::Accept => "Accept",
            NamedKey::Again => "Again",
            NamedKey::Attn => "Attn",
            NamedKey::Cancel => "Cancel",
            NamedKey::ContextMenu => "ContextMenu",
            NamedKey::Escape => "Escape",
            NamedKey::Execute => "Execute",
            NamedKey::Find => "Find",
            NamedKey::Help => "Help",
            NamedKey::Pause => "Pause",
            NamedKey::Play => "Play",
            NamedKey::Props => "Props",
            NamedKey::Select => "Select",
            NamedKey::ZoomIn => "ZoomIn",
            NamedKey::ZoomOut => "ZoomOut",
            NamedKey::BrightnessDown => "BrightnessDown",
            NamedKey::BrightnessUp => "BrightnessUp",
            NamedKey::Eject => "Eject",
            NamedKey::LogOff => "LogOff",
            NamedKey::Power => "Power",
            NamedKey::PowerOff => "PowerOff",
            NamedKey::PrintScreen => "PrintScreen",
            NamedKey::Hibernate => "Hibernate",
            NamedKey::Standby => "Standby",
            NamedKey::WakeUp => "WakeUp",
            NamedKey::AllCandidates => "AllCandidates",
            NamedKey::Alphanumeric => "Alphanumeric",
            NamedKey::CodeInput => "CodeInput",
            NamedKey::Compose => "Compose",
            NamedKey::Convert => "Convert",
            NamedKey::Dead => "Dead",
            NamedKey::FinalMode => "FinalMode",
            NamedKey::GroupFirst => "GroupFirst",
            NamedKey::GroupLast => "GroupLast",
            NamedKey::GroupNext => "GroupNext",
            NamedKey::GroupPrevious => "GroupPrevious",
            NamedKey::ModeChange => "ModeChange",
            NamedKey::NextCandidate => "NextCandidate",
            NamedKey::NonConvert => "NonConvert",
            NamedKey::PreviousCandidate => "PreviousCandidate",
            NamedKey::Process => "Process",
            NamedKey::SingleCandidate => "SingleCandidate",
            NamedKey::HangulMode => "HangulMode",
            NamedKey::HanjaMode => "HanjaMode",
            NamedKey::JunjaMode => "JunjaMode",
            NamedKey::Eisu => "Eisu",
            NamedKey::Hankaku => "Hankaku",
            NamedKey::Hiragana => "Hiragana",
            NamedKey::HiraganaKatakana => "HiraganaKatakana",
            NamedKey::KanaMode => "KanaMode",
            NamedKey::KanjiMode => "KanjiMode",
            NamedKey::Katakana => "Katakana",
            NamedKey::Romaji => "Romaji",
            NamedKey::Zenkaku => "Zenkaku",
            NamedKey::ZenkakuHankaku => "ZenkakuHankaku",
            NamedKey::F1 => "F1",
            NamedKey::F2 => "F2",
            NamedKey::F3 => "F3",
            NamedKey::F4 => "F4",
            NamedKey::F5 => "F5",
            NamedKey::F6 => "F6",
            NamedKey::F7 => "F7",
            NamedKey::F8 => "F8",
            NamedKey::F9 => "F9",
            NamedKey::F10 => "F10",
            NamedKey::F11 => "F11",
            NamedKey::F12 => "F12",
            NamedKey::F13 => "F13",
            NamedKey::F14 => "F14",
            NamedKey::F15 => "F15",
            NamedKey::F16 => "F16",
            NamedKey::F17 => "F17",
            NamedKey::F18 => "F18",
            NamedKey::F19 => "F19",
            NamedKey::F20 => "F20",
            NamedKey::F21 => "F21",
            NamedKey::F22 => "F22",
            NamedKey::F23 => "F23",
            NamedKey::F24 => "F24",
            NamedKey::F25 => "F25",
            NamedKey::F26 => "F26",
            NamedKey::F27 => "F27",
            NamedKey::F28 => "F28",
            NamedKey::F29 => "F29",
            NamedKey::F30 => "F30",
            NamedKey::F31 => "F31",
            NamedKey::F32 => "F32",
            NamedKey::F33 => "F33",
            NamedKey::F34 => "F34",
            NamedKey::F35 => "F35",
        }
    }
}

/// The virtual key code of a named key (0 for keys without one).
pub fn named_key_to_code(key: NamedKey) -> (r: u32)
    ensures
        r == named_key_code(key),
{
    match key {
        NamedKey::Alt => 18,
        NamedKey::CapsLock => 20,
        NamedKey::Control => 17,
        NamedKey::Meta => 91,
        NamedKey::Shift => 16,
        NamedKey::Enter => 13,
        NamedKey::Tab => 9,
        NamedKey::Space => 32,
        NamedKey::ArrowDown => 40,
        NamedKey::ArrowLeft => 37,
        NamedKey::ArrowRight => 39,
        NamedKey::ArrowUp => 38,
        NamedKey::End => 35,
        NamedKey::Home => 36,
        NamedKey::PageDown => 34,
        NamedKey::PageUp => 33,
        NamedKey::Backspace => 8,
        NamedKey::Delete => 46,
        NamedKey::Insert => 45,
        NamedKey::Escape => 27,
        NamedKey::F1 => 112,
        NamedKey::F2 => 113,
        NamedKey::F3 => 114,
        NamedKey::F4 => 115,
        NamedKey::F5 => 116,
        NamedKey::F6 => 117,
        NamedKey::F7 => 118,
        NamedKey::F8 => 119,
        NamedKey::F9 => 120,
        NamedKey::F10 => 121,
        NamedKey::F11 => 122,
        NamedKey::F12 => 123,
        _ => 0,
    }
}

} // verus!
