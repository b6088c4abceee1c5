use vstd::prelude::*;
use vstd::string::*;
use crate::clock::fresh_id;
use crate::text::str_eq;
use crate::keys::{named_key_code, named_key_name, named_key_to_code, CoreModifiers, CoreMouseButton, NamedKey};

verus! {

/// Modifier keys state.
#[derive(Debug, Clone, Copy, PartialEq, Eq, Structural)]
pub struct Modifiers {
    pub shift: bool,
    pub ctrl: bool,
    pub alt: bool,
    pub meta: bool,
}

impl Modifiers {
    /// Create a modifier state from the four flags.
    pub fn new(shift: bool, ctrl: bool, alt: bool, meta: bool) -> (m: Self)
        ensures
            m.shift == shift,
            m.ctrl == ctrl,
            m.alt == alt,
            m.meta == meta,
    {
        Modifiers { shift, ctrl, alt, meta }
    }

    /// True when at least one modifier is held.
    pub fn any(&self) -> (r: bool)
        ensures
            r == (self.shift || self.ctrl || self.alt || self.meta),
    {
        self.shift || self.ctrl || self.alt || self.meta
    }

    /// True when no modifier is held.
    pub fn is_empty(&self) -> (r: bool)
        ensures
            r == !(self.shift || self.ctrl || self.alt || self.meta),
    {
        !self.any()
    }
}

impl Default for Modifiers {
    fn default() -> (m: Self)
        ensures
            !m.shift && !m.ctrl && !m.alt && !m.meta,
    {
        Modifiers { shift: false, ctrl: false, alt: false, meta: false }
    }
}

impl Modifiers {
    /// The same state in the engine's terms.
    pub fn to_core(&self) -> (m: CoreModifiers)
        ensures
            m == (CoreModifiers { shift: self.shift, ctrl: self.ctrl, alt: self.alt, meta: self.meta }),
    {
        CoreModifiers { shift: self.shift, ctrl: self.ctrl, alt: self.alt, meta: self.meta }
    }
}

/// The modifier state as bit flags: shift 1, ctrl 2, alt 4, meta 8.
pub open spec fn modifier_bits(m: Modifiers) -> u32 {
    (if m.shift { 1u32 } else { 0u32 }) | (if m.ctrl { 2u32 } else { 0u32 }) | (if m.alt { 4u32 } else { 0u32 }) | (
    if m.meta { 8u32 } else { 0u32 })
}

/// The modifier state as bit flags: shift 1, ctrl 2, alt 4, meta 8.
pub fn modifiers_to_bits(modifiers: Modifiers) -> (bits: u32)
    ensures
        bits == modifier_bits(modifiers),
        bits < 16,
{
    let s: u32 = if modifiers.shift { 1 } else { 0 };
    let c: u32 = if modifiers.ctrl { 2 } else { 0 };
    let a: u32 = if modifiers.alt { 4 } else { 0 };
    let m: u32 = if modifiers.meta { 8 } else { 0 };
    let bits = s | c | a | m;
    assert(bits < 16) by (bit_vector)
        requires
            s <= 1,
            c <= 2,
            a <= 4,
            m <= 8,
            bits == s | c | a | m,
    ;
    bits
}

/// Mouse buttons.
#[derive(Debug, Clone, Copy, PartialEq, Eq, Structural)]
pub enum MouseButton {
    Left,
    Right,
    Middle,
    Back,
    Forward,
    Other(u16),
}

impl MouseButton {
    /// The engine's button: left, right and middle map to themselves,
    /// every other button to left.
    pub fn to_core(&self) -> (b: CoreMouseButton)
        ensures
            b == match *self {
                MouseButton::Right => CoreMouseButton::Right,
                MouseButton::Middle => CoreMouseButton::Middle,
                _ => CoreMouseButton::Left,
            },
    {
        match self {
            MouseButton::Left => CoreMouseButton::Left,
            MouseButton::Right => CoreMouseButton::Right,
            MouseButton::Middle => CoreMouseButton::Middle,
            _ => CoreMouseButton::Left,
        }
    }
}

/// A button's number in batched input: left 0, right 1, middle 2, back
/// 3, forward 4, any other its own number.
pub fn button_number(b: MouseButton) -> (n: u32)
    ensures
        n == match b {
            MouseButton::Left => 0u32,
            MouseButton::Right => 1u32,
            MouseButton::Middle => 2u32,
            MouseButton::Back => 3u32,
            MouseButton::Forward => 4u32,
            MouseButton::Other(k) => k as u32,
        },
{
    match b {
        MouseButton::Left => 0,
        MouseButton::Right => 1,
        MouseButton::Middle => 2,
        MouseButton::Back => 3,
        MouseButton::Forward => 4,
        MouseButton::Other(k) => k as u32,
    }
}

/// A key: named, a character string, or unidentified.
#[derive(Debug, Clone)]
pub enum Key {
    Named(NamedKey),
    Character(String),
    Unidentified,
}

/// Mathematical value of a [`Key`]: a character string by its characters.
pub enum KeyView {
    Named(NamedKey),
    Character(Seq<char>),
    Unidentified,
}

impl View for Key {
    type V = KeyView;

    open spec fn view(&self) -> KeyView {
        match self {
            Key::Named(n) => KeyView::Named(*n),
            Key::Character(c) => KeyView::Character(c@),
            Key::Unidentified => KeyView::Unidentified,
        }
    }
}

/// Whether two keys are the same key.
pub fn same_key(a: &Key, b: &Key) -> (r: bool)
    ensures
        r == (a@ == b@),
{
    match (a, b) {
        (Key::Named(x), Key::Named(y)) => *x == *y,
        (Key::Character(x), Key::Character(y)) => str_eq(x.as_str(), y.as_str()),
        (Key::Unidentified, Key::Unidentified) => true,
        _ => false,
    }
}

/// The engine's name for a key.
pub open spec fn key_string(k: Key) -> Seq<char> {
    match k {
        Key::Named(n) => named_key_name(n),
        Key::Character(c) => c@,
        Key::Unidentified => "Unidentified"@,
    }
}

/// The virtual key code of a key: a named key's code, the code point of a
/// character string's first character, 0 otherwise.
pub open spec fn key_code(k: Key) -> u32 {
    match k {
        Key::Named(n) => named_key_code(n),
        Key::Character(c) => if c@.len() > 0 { c@[0] as u32 } else { 0 },
        Key::Unidentified => 0,
    }
}

impl Key {
    /// The engine's name for the key.
    pub fn to_core_string(&self) -> (r: String)
        ensures
            r@ == key_string(*self),
    {
        match self {
            Key::Named(named) => named.name().to_string(),
            Key::Character(c) => c.clone(),
            Key::Unidentified => "Unidentified".to_string(),
        }
    }
}

/// The virtual key code of a key.
pub fn key_to_code(key: &Key) -> (r: u32)
    ensures
        r == key_code(*key),
{
    match key {
        Key::Named(named) => named_key_to_code(*named),
        Key::Character(c) => {
            if c.as_str().unicode_len() > 0 {
                let ch = c.as_str().get_char(0);
                ch as u32
            } else {
                0
            }
        },
        Key::Unidentified => 0,
    }
}

/// Direction of a swipe gesture.
#[derive(Debug, Clone, Copy, PartialEq, Eq, Structural)]
pub enum SwipeDirection {
    Up,
    Down,
    Left,
    Right,
}

/// Identifier of a focusable element.
#[derive(Debug, Clone, Copy, PartialEq, Eq, Structural)]
pub struct FocusId(pub u64);

impl FocusId {
    /// A new identifier, drawn from 62 random bits (the low half of a
    /// version 4 UUID, whose two top bits are the variant bits `10`).
    pub fn new() -> (id: Self)
        ensures
            id.0 >> 62u64 == 2u64,
    {
        let r = fresh_id();
        let low: u128 = r & 0xffff_ffff_ffff_ffffu128;
        assert(low < 0x1_0000_0000_0000_0000u128 && (low >> 62u128) == 2u128) by (bit_vector)
            requires
                low == r & 0xffff_ffff_ffff_ffffu128,
                (r >> 62u128) & 0x3u128 == 2u128,
        ;
        let v: u64 = low as u64;
        assert(v >> 62u64 == 2u64) by (bit_vector)
            requires
                v == low as u64,
                low < 0x1_0000_0000_0000_0000u128,
                (low >> 62u128) == 2u128,
        ;
        FocusId(v)
    }
}

/// Messages for a screen reader.
#[derive(Debug, Clone)]
pub enum AccessibilityAnnouncement {
    /// Text to read.
    Text(String),
    /// Focus moved to an element.
    FocusChanged { element_id: FocusId, label: String },
    /// An element's value changed.
    ValueChanged { element_id: FocusId, value: String },
    /// An element's state changed.
    StateChanged { element_id: FocusId, state: String },
}

/// Accessibility preferences and the queue of announcements for a screen
/// reader.
pub struct AccessibilitySupport {
    screen_reader_enabled: bool,
    high_contrast: bool,
    reduced_motion: bool,
    announcements: std::collections::VecDeque<AccessibilityAnnouncement>,
}

impl AccessibilitySupport {
    /// Whether a screen reader is in use.
    pub closed spec fn reader(&self) -> bool {
        self.screen_reader_enabled
    }

    /// Whether high contrast is preferred.
    pub closed spec fn contrast(&self) -> bool {
        self.high_contrast
    }

    /// Whether reduced motion is preferred.
    pub closed spec fn motion_reduced(&self) -> bool {
        self.reduced_motion
    }

    /// The pending announcements, oldest first.
    pub closed spec fn queue(&self) -> Seq<AccessibilityAnnouncement> {
        self.announcements@
    }

    /// Everything off, nothing queued.
    pub fn new() -> (a: Self)
        ensures
            !a.reader(),
            !a.contrast(),
            !a.motion_reduced(),
            a.queue().len() == 0,
    {
        AccessibilitySupport {
            screen_reader_enabled: false,
            high_contrast: false,
            reduced_motion: false,
            announcements: std::collections::VecDeque::new(),
        }
    }

    /// Queue an announcement; it is dropped when no screen reader is in use.
    pub fn announce(&mut self, announcement: AccessibilityAnnouncement)
        ensures
            final(self).queue() == if old(self).reader() { old(self).queue().push(announcement) } else { old(self).queue() },
            final(self).reader() == old(self).reader(),
            final(self).contrast() == old(self).contrast(),
            final(self).motion_reduced() == old(self).motion_reduced(),
    {
        if self.screen_reader_enabled {
            self.announcements.push_back(announcement);
        }
    }

    /// Take the oldest pending announcement.
    pub fn next_announcement(&mut self) -> (r: Option<AccessibilityAnnouncement>)
        ensures
            old(self).queue().len() > 0 ==> r == Some(old(self).queue()[0]) && final(self).queue() == old(self).queue().drop_first(),
            old(self).queue().len() == 0 ==> r is None && final(self).queue() == old(self).queue(),
            final(self).reader() == old(self).reader(),
            final(self).contrast() == old(self).contrast(),
            final(self).motion_reduced() == old(self).motion_reduced(),
    {
        self.announcements.pop_front()
    }

    /// Say whether a screen reader is in use.
    pub fn set_screen_reader_enabled(&mut self, enabled: bool)
        ensures
            final(self).reader() == enabled,
            final(self).queue() == old(self).queue(),
            final(self).contrast() == old(self).contrast(),
            final(self).motion_reduced() == old(self).motion_reduced(),
    {
        self.screen_reader_enabled = enabled;
    }

    /// Whether a screen reader is in use.
    pub fn is_screen_reader_enabled(&self) -> (r: bool)
        ensures
            r == self.reader(),
    {
        self.screen_reader_enabled
    }

    /// Say whether high contrast is preferred.
    pub fn set_high_contrast(&mut self, enabled: bool)
        ensures
            final(self).contrast() == enabled,
            final(self).queue() == old(self).queue(),
            final(self).reader() == old(self).reader(),
            final(self).motion_reduced() == old(self).motion_reduced(),
    {
        self.high_contrast = enabled;
    }

    /// Whether high contrast is preferred.
    pub fn is_high_contrast(&self) -> (r: bool)
        ensures
            r == self.contrast(),
    {
        self.high_contrast
    }

    /// Say whether reduced motion is preferred.
    pub fn set_reduced_motion(&mut self, enabled: bool)
        ensures
            final(self).motion_reduced() == enabled,
            final(self).queue() == old(self).queue(),
            final(self).reader() == old(self).reader(),
            final(self).contrast() == old(self).contrast(),
    {
        self.reduced_motion = enabled;
    }

    /// Whether reduced motion is preferred.
    pub fn is_reduced_motion(&self) -> (r: bool)
        ensures
            r == self.motion_reduced(),
    {
        self.reduced_motion
    }
}

impl Default for AccessibilitySupport {
    fn default() -> (a: Self)
        ensures
            !a.reader(),
            !a.contrast(),
            !a.motion_reduced(),
            a.queue().len() == 0,
    {
        AccessibilitySupport::new()
    }
}

/// Errors of the input system.
#[derive(Debug)]
pub enum InputError {
    /// Too many events queued.
    QueueOverflow,
    /// A malformed event.
    InvalidEvent(String),
    /// No element with this identifier.
    ElementNotFound(FocusId),
    /// Gesture recognition failed.
    GestureError(String),
}

} // verus!
