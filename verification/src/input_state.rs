//! Input events and the input state they drive: pressed buttons and keys,
//! modifiers, touch points, focus and window size. Coordinates, pressure
//! and scale factors are carried as IEEE-754 double-precision bit patterns.
use vstd::prelude::*;
use crate::clock::now_nanos;
use crate::input::{same_key, Key, KeyView, Modifiers, MouseButton};
use crate::text::owned;

verus! {

/// Most touch points tracked at once.
pub const MAX_TOUCH_POINTS: usize = 10;

/// Bit pattern of the double-precision number 1.0.
pub const SCALE_ONE_BITS: u64 = 0x3FF0_0000_0000_0000;

/// A scroll amount, in pixels or in lines (bit patterns of doubles).
#[derive(Debug, Clone, Copy, PartialEq, Eq, Structural)]
pub enum ScrollDelta {
    Pixels { x: u64, y: u64 },
    Lines { x: u64, y: u64 },
}

/// An input event. Coordinates, deltas, pressure and scale are bit
/// patterns of doubles.
#[derive(Debug, Clone)]
pub enum InputEvent {
    MouseMove { x: u64, y: u64, delta_x: u64, delta_y: u64 },
    MouseDown { button: MouseButton, x: u64, y: u64 },
    MouseUp { button: MouseButton, x: u64, y: u64 },
    MouseScroll { delta: ScrollDelta, x: u64, y: u64 },
    KeyDown { key: Key, modifiers: Modifiers, repeat: bool },
    KeyUp { key: Key, modifiers: Modifiers },
    CharacterInput { character: char },
    TouchStart { id: u64, x: u64, y: u64, pressure: u64 },
    TouchMove { id: u64, x: u64, y: u64, pressure: u64 },
    TouchEnd { id: u64, x: u64, y: u64 },
    TouchCancel { id: u64 },
    FocusGained,
    FocusLost,
    Resize { width: u32, height: u32 },
    ScaleFactorChanged { scale: u64 },
}

/// The position an event carries, if any.
pub open spec fn event_position(e: InputEvent) -> Option<(u64, u64)> {
    match e {
        InputEvent::MouseMove { x, y, .. } => Some((x, y)),
        InputEvent::MouseDown { x, y, .. } => Some((x, y)),
        InputEvent::MouseUp { x, y, .. } => Some((x, y)),
        InputEvent::MouseScroll { x, y, .. } => Some((x, y)),
        InputEvent::TouchStart { x, y, .. } => Some((x, y)),
        InputEvent::TouchMove { x, y, .. } => Some((x, y)),
        InputEvent::TouchEnd { x, y, .. } => Some((x, y)),
        _ => None,
    }
}

impl InputEvent {
    /// The position the event carries, if any.
    pub fn position(&self) -> (r: Option<(u64, u64)>)
        ensures
            r == event_position(*self),
    {
        match self {
            InputEvent::MouseMove { x, y, .. } => Some((*x, *y)),
            InputEvent::MouseDown { x, y, .. } => Some((*x, *y)),
            InputEvent::MouseUp { x, y, .. } => Some((*x, *y)),
            InputEvent::MouseScroll { x, y, .. } => Some((*x, *y)),
            InputEvent::TouchStart { x, y, .. } => Some((*x, *y)),
            InputEvent::TouchMove { x, y, .. } => Some((*x, *y)),
            InputEvent::TouchEnd { x, y, .. } => Some((*x, *y)),
            _ => None,
        }
    }

    /// Key presses, releases and typed characters.
    pub fn is_keyboard(&self) -> (r: bool)
        ensures
            r == (*self is KeyDown || *self is KeyUp || *self is CharacterInput),
    {
        match self {
            InputEvent::KeyDown { .. } | InputEvent::KeyUp { .. } | InputEvent::CharacterInput { .. } => true,
            _ => false,
        }
    }

    /// Mouse moves, presses, releases and scrolls.
    pub fn is_mouse(&self) -> (r: bool)
        ensures
            r == (*self is MouseMove || *self is MouseDown || *self is MouseUp || *self is MouseScroll),
    {
        match self {
            InputEvent::MouseMove { .. } | InputEvent::MouseDown { .. } | InputEvent::MouseUp { .. }
            | InputEvent::MouseScroll { .. } => true,
            _ => false,
        }
    }

    /// Touch starts, moves, ends and cancels.
    pub fn is_touch(&self) -> (r: bool)
        ensures
            r == (*self is TouchStart || *self is TouchMove || *self is TouchEnd || *self is TouchCancel),
    {
        match self {
            InputEvent::TouchStart { .. } | InputEvent::TouchMove { .. } | InputEvent::TouchEnd { .. }
            | InputEvent::TouchCancel { .. } => true,
            _ => false,
        }
    }
}

/// A tracked touch: where it is and where and when (nanoseconds since the
/// Unix epoch) it started.
#[derive(Debug, Clone, Copy, PartialEq, Eq, Structural)]
pub struct TouchPoint {
    pub id: u64,
    pub x: u64,
    pub y: u64,
    pub pressure: u64,
    pub start_time: i128,
    pub start_x: u64,
    pub start_y: u64,
}

/// Mathematical value of [`InputState`]: pressed buttons and keys in the
/// order they went down, touches in the order they started.
pub struct InputStateView {
    pub mouse_position: (u64, u64),
    pub last_mouse_position: (u64, u64),
    pub buttons: Seq<MouseButton>,
    pub keys: Seq<KeyView>,
    pub modifiers: Modifiers,
    pub touches: Seq<TouchPoint>,
    pub has_focus: bool,
    pub window_size: (u32, u32),
    pub scale_factor: u64,
}

/// `s` with `x` added unless it is there.
pub open spec fn seq_insert<A>(s: Seq<A>, x: A) -> Seq<A> {
    if s.contains(x) { s } else { s.push(x) }
}

/// `s` without `x`.
pub open spec fn seq_erase<A>(s: Seq<A>, x: A) -> Seq<A> {
    if s.contains(x) { s.remove(s.index_of(x)) } else { s }
}

/// Whether a touch with identifier `id` is tracked.
pub open spec fn has_touch(s: Seq<TouchPoint>, id: u64) -> bool {
    exists|i: int| 0 <= i < s.len() && (#[trigger] s[i]).id == id
}

/// Where the touch with identifier `id` is.
pub open spec fn touch_index(s: Seq<TouchPoint>, id: u64) -> int {
    choose|i: int| 0 <= i < s.len() && (#[trigger] s[i]).id == id
}

/// No two touches share an identifier.
pub open spec fn touch_ids_distinct(s: Seq<TouchPoint>) -> bool {
    forall|a: int, b: int| 0 <= a < b < s.len() ==> (#[trigger] s[a]).id != (#[trigger] s[b]).id
}

/// The keys of a sequence, by value.
pub open spec fn key_views(s: Seq<Key>) -> Seq<KeyView> {
    s.map_values(|k: Key| k@)
}

/// The touches after a touch starts at time `now`: it replaces a touch with
/// its identifier or is appended, while fewer than the maximum are tracked.
pub open spec fn touch_started(s: Seq<TouchPoint>, id: u64, x: u64, y: u64, pressure: u64, now: i128) -> Seq<TouchPoint> {
    let p = TouchPoint { id, x, y, pressure, start_time: now, start_x: x, start_y: y };
    if s.len() < MAX_TOUCH_POINTS {
        if has_touch(s, id) { s.update(touch_index(s, id), p) } else { s.push(p) }
    } else {
        s
    }
}

/// The touches after the touch `id` moves.
pub open spec fn touch_moved(s: Seq<TouchPoint>, id: u64, x: u64, y: u64, pressure: u64) -> Seq<TouchPoint> {
    if has_touch(s, id) {
        let i = touch_index(s, id);
        s.update(i, TouchPoint { x, y, pressure, ..s[i] })
    } else {
        s
    }
}

/// The touches after the touch `id` ends.
pub open spec fn touch_ended(s: Seq<TouchPoint>, id: u64) -> Seq<TouchPoint> {
    if has_touch(s, id) { s.remove(touch_index(s, id)) } else { s }
}

/// The state after event `e` at time `now`.
pub open spec fn updated(s: InputStateView, e: InputEvent, now: i128) -> InputStateView {
    match e {
        InputEvent::MouseMove { x, y, .. } => InputStateView {
            last_mouse_position: s.mouse_position,
            mouse_position: (x, y),
            ..s
        },
        InputEvent::MouseDown { button, .. } => InputStateView { buttons: seq_insert(s.buttons, button), ..s },
        InputEvent::MouseUp { button, .. } => InputStateView { buttons: seq_erase(s.buttons, button), ..s },
        InputEvent::KeyDown { key, modifiers, .. } => InputStateView {
            modifiers,
            keys: seq_insert(s.keys, key@),
            ..s
        },
        InputEvent::KeyUp { key, modifiers } => InputStateView { modifiers, keys: seq_erase(s.keys, key@), ..s },
        InputEvent::TouchStart { id, x, y, pressure } => InputStateView {
            touches: touch_started(s.touches, id, x, y, pressure, now),
            ..s
        },
        InputEvent::TouchMove { id, x, y, pressure } => InputStateView {
            touches: touch_moved(s.touches, id, x, y, pressure),
            ..s
        },
        InputEvent::TouchEnd { id, .. } => InputStateView { touches: touch_ended(s.touches, id), ..s },
        InputEvent::TouchCancel { id } => InputStateView { touches: touch_ended(s.touches, id), ..s },
        InputEvent::FocusGained => InputStateView { has_focus: true, ..s },
        InputEvent::FocusLost => InputStateView {
            has_focus: false,
            keys: Seq::empty(),
            buttons: Seq::empty(),
            touches: Seq::empty(),
            ..s
        },
        InputEvent::Resize { width, height } => InputStateView { window_size: (width, height), ..s },
        InputEvent::ScaleFactorChanged { scale } => InputStateView { scale_factor: scale, ..s },
        _ => s,
    }
}

/// Pressing a button that was up and releasing it again leaves the pressed
/// buttons as they were.
pub proof fn law_button_press_release(s: InputStateView, b: MouseButton, x: u64, y: u64, now: i128)
    requires
        state_wf(s),
        !s.buttons.contains(b),
    ensures
        updated(updated(s, InputEvent::MouseDown { button: b, x, y }, now), InputEvent::MouseUp { button: b, x, y }, now).buttons
            == s.buttons,
{
    let t = s.buttons.push(b);
    assert(t[s.buttons.len() as int] == b);
    assert(t.no_duplicates()) by {
        assert forall|a: int, c: int| 0 <= a < t.len() && 0 <= c < t.len() && a != c implies t[a] != t[c] by {
            if a < s.buttons.len() && c < s.buttons.len() {
            } else if a < s.buttons.len() {
                assert(s.buttons.contains(s.buttons[a]));
            } else {
                assert(s.buttons.contains(s.buttons[c]));
            }
        }
    }
    lemma_index_of_unique(t, b, s.buttons.len() as int);
    assert(t.remove(s.buttons.len() as int) =~= s.buttons);
}

/// Pressing a key that was up and releasing it again leaves the pressed
/// keys as they were.
pub proof fn law_key_press_release(s: InputStateView, k: Key, m1: Modifiers, m2: Modifiers, repeat: bool, now: i128)
    requires
        state_wf(s),
        !s.keys.contains(k@),
    ensures
        updated(
            updated(s, InputEvent::KeyDown { key: k, modifiers: m1, repeat }, now),
            InputEvent::KeyUp { key: k, modifiers: m2 },
            now,
        ).keys == s.keys,
{
    let t = s.keys.push(k@);
    assert(t[s.keys.len() as int] == k@);
    assert(t.no_duplicates()) by {
        assert forall|a: int, c: int| 0 <= a < t.len() && 0 <= c < t.len() && a != c implies t[a] != t[c] by {
            if a < s.keys.len() && c < s.keys.len() {
            } else if a < s.keys.len() {
                assert(s.keys.contains(s.keys[a]));
            } else {
                assert(s.keys.contains(s.keys[c]));
            }
        }
    }
    lemma_index_of_unique(t, k@, s.keys.len() as int);
    assert(t.remove(s.keys.len() as int) =~= s.keys);
}

/// A touch that starts and ends leaves the tracked touches as they were,
/// when its identifier was not tracked and there was room for it.
pub proof fn law_touch_start_end(s: InputStateView, id: u64, x: u64, y: u64, pressure: u64, now: i128)
    requires
        state_wf(s),
        !has_touch(s.touches, id),
        s.touches.len() < MAX_TOUCH_POINTS,
    ensures
        updated(
            updated(s, InputEvent::TouchStart { id, x, y, pressure }, now),
            InputEvent::TouchEnd { id, x, y },
            now,
        ).touches == s.touches,
{
    let n = s.touches.len() as int;
    let t = touch_started(s.touches, id, x, y, pressure, now);
    assert(t[n].id == id);
    assert(has_touch(t, id));
    let j = touch_index(t, id);
    assert(j == n) by {
        if j < n {
            assert(s.touches[j].id == id);
            assert(has_touch(s.touches, id));
        }
    }
    assert(t.remove(n) =~= s.touches);
}

/// Losing the focus releases every key, button and touch.
pub proof fn law_focus_lost_releases(s: InputStateView, now: i128)
    ensures
        updated(s, InputEvent::FocusLost, now).keys.len() == 0,
        updated(s, InputEvent::FocusLost, now).buttons.len() == 0,
        updated(s, InputEvent::FocusLost, now).touches.len() == 0,
        !updated(s, InputEvent::FocusLost, now).has_focus,
{
}

/// The current state of the input devices.
pub struct InputState {
    mouse_position: (u64, u64),
    last_mouse_position: (u64, u64),
    pressed_mouse_buttons: Vec<MouseButton>,
    pressed_keys: Vec<Key>,
    modifiers: Modifiers,
    touch_points: Vec<TouchPoint>,
    has_focus: bool,
    window_size: (u32, u32),
    scale_factor: u64,
}

impl View for InputState {
    type V = InputStateView;

    closed spec fn view(&self) -> InputStateView {
        InputStateView {
            mouse_position: self.mouse_position,
            last_mouse_position: self.last_mouse_position,
            buttons: self.pressed_mouse_buttons@,
            keys: key_views(self.pressed_keys@),
            modifiers: self.modifiers,
            touches: self.touch_points@,
            has_focus: self.has_focus,
            window_size: self.window_size,
            scale_factor: self.scale_factor,
        }
    }
}

/// The state's invariant: nothing is pressed twice, touch identifiers are
/// unique and at most the maximum number of touches is tracked.
pub open spec fn state_wf(s: InputStateView) -> bool {
    &&& s.buttons.no_duplicates()
    &&& s.keys.no_duplicates()
    &&& touch_ids_distinct(s.touches)
    &&& s.touches.len() <= MAX_TOUCH_POINTS
}

/// A copy of a key.
fn key_copy(k: &Key) -> (r: Key)
    ensures
        r@ == k@,
{
    match k {
        Key::Named(n) => Key::Named(*n),
        Key::Character(c) => Key::Character(owned(c.as_str())),
        Key::Unidentified => Key::Unidentified,
    }
}

/// Where `x` is in `s`, if anywhere.
fn position_of_button(s: &Vec<MouseButton>, x: MouseButton) -> (r: Option<usize>)
    ensures
        match r {
            Some(i) => i < s@.len() && s@[i as int] == x,
            None => !s@.contains(x),
        },
{
    let mut i: usize = 0;
    while i < s.len()
        invariant
            i <= s@.len(),
            forall|k: int| 0 <= k < i ==> s@[k] != x,
        decreases s.len() - i,
    {
        if s[i] == x {
            return Some(i);
        }
        i = i + 1;
    }
    None
}

/// Where a key equal to `x` is in `s`, if anywhere.
fn position_of_key(s: &Vec<Key>, x: &Key) -> (r: Option<usize>)
    ensures
        match r {
            Some(i) => i < s@.len() && s@[i as int]@ == x@ && key_views(s@)[i as int] == x@ && key_views(
                s@,
            ).contains(x@),
            None => !key_views(s@).contains(x@),
        },
{
    let mut i: usize = 0;
    while i < s.len()
        invariant
            i <= s@.len(),
            forall|k: int| 0 <= k < i ==> s@[k]@ != x@,
        decreases s.len() - i,
    {
        if same_key(&s[i], x) {
            assert(key_views(s@)[i as int] == x@);
            return Some(i);
        }
        i = i + 1;
    }
    proof {
        if key_views(s@).contains(x@) {
            let k = choose|k: int| 0 <= k < key_views(s@).len() && key_views(s@)[k] == x@;
            assert(s@[k]@ == x@);
        }
    }
    None
}

/// Where the touch `id` is, if tracked.
fn position_of_touch(s: &Vec<TouchPoint>, id: u64) -> (r: Option<usize>)
    requires
        touch_ids_distinct(s@),
    ensures
        match r {
            Some(i) => i < s@.len() && s@[i as int].id == id && has_touch(s@, id) && touch_index(s@, id) == i,
            None => !has_touch(s@, id),
        },
{
    let mut i: usize = 0;
    while i < s.len()
        invariant
            i <= s@.len(),
            touch_ids_distinct(s@),
            forall|k: int| 0 <= k < i ==> (#[trigger] s@[k]).id != id,
        decreases s.len() - i,
    {
        if s[i].id == id {
            assert(has_touch(s@, id));
            let ghost j = touch_index(s@, id);
            assert(j == i as int) by {
                if j < i {
                    assert(s@[j].id != id);
                } else if j > i {
                    assert(s@[i as int].id != s@[j].id);
                }
            }
            return Some(i);
        }
        i = i + 1;
    }
    None
}

/// In a sequence without duplicates, `x` at `i` is the one found by `index_of`.
proof fn lemma_index_of_unique<A>(s: Seq<A>, x: A, i: int)
    requires
        s.no_duplicates(),
        0 <= i < s.len(),
        s[i] == x,
    ensures
        s.contains(x),
        s.index_of(x) == i,
{
    assert(s.contains(x));
    let j = s.index_of(x);
    assert(0 <= j < s.len() && s[j] == x);
    if j != i {
        assert(s[i] == s[j]);
    }
}

/// Removing an element keeps a sequence free of duplicates.
proof fn lemma_remove_no_duplicates<A>(s: Seq<A>, i: int)
    requires
        s.no_duplicates(),
        0 <= i < s.len(),
    ensures
        s.remove(i).no_duplicates(),
{
    let r = s.remove(i);
    assert forall|a: int, b: int| 0 <= a < r.len() && 0 <= b < r.len() && a != b implies r[a] != r[b] by {
        let a2 = if a < i { a } else { a + 1 };
        let b2 = if b < i { b } else { b + 1 };
        assert(r[a] == s[a2] && r[b] == s[b2]);
    }
}

impl InputState {
    /// Mouse at the origin, nothing pressed, no modifiers or touches, focused,
    /// 800 x 600, scale 1.0.
    pub fn new() -> (s: Self)
        ensures
            state_wf(s@),
            s@.mouse_position == (0u64, 0u64),
            s@.last_mouse_position == (0u64, 0u64),
            s@.buttons.len() == 0,
            s@.keys.len() == 0,
            s@.modifiers == (Modifiers { shift: false, ctrl: false, alt: false, meta: false }),
            s@.touches.len() == 0,
            s@.has_focus,
            s@.window_size == (800u32, 600u32),
            s@.scale_factor == SCALE_ONE_BITS,
    {
        let s = InputState {
            mouse_position: (0, 0),
            last_mouse_position: (0, 0),
            pressed_mouse_buttons: Vec::new(),
            pressed_keys: Vec::new(),
            modifiers: Modifiers { shift: false, ctrl: false, alt: false, meta: false },
            touch_points: Vec::new(),
            has_focus: true,
            window_size: (800, 600),
            scale_factor: SCALE_ONE_BITS,
        };
        assert(key_views(s.pressed_keys@) =~= Seq::<KeyView>::empty());
        s
    }

    /// Apply event `e`, a touch that starts being stamped with time `now`.
    pub fn update_at(&mut self, e: &InputEvent, now: i128)
        requires
            state_wf(old(self)@),
        ensures
            state_wf(final(self)@),
            final(self)@ == updated(old(self)@, *e, now),
    {
        let ghost s0 = self@;
        match e {
            InputEvent::MouseMove { x, y, .. } => {
                self.last_mouse_position = self.mouse_position;
                self.mouse_position = (*x, *y);
            },
            InputEvent::MouseDown { button, .. } => {
                self.press_button(*button);
            },
            InputEvent::MouseUp { button, .. } => {
                self.release_button(*button);
            },
            InputEvent::KeyDown { key, modifiers, .. } => {
                self.modifiers = *modifiers;
                self.press_key(key);
            },
            InputEvent::KeyUp { key, modifiers } => {
                self.modifiers = *modifiers;
                self.release_key(key);
            },
            InputEvent::TouchStart { id, x, y, pressure } => {
                self.start_touch(*id, *x, *y, *pressure, now);
            },
            InputEvent::TouchMove { id, x, y, pressure } => {
                self.move_touch(*id, *x, *y, *pressure);
            },
            InputEvent::TouchEnd { id, .. } => {
                self.end_touch(*id);
            },
            InputEvent::TouchCancel { id } => {
                self.end_touch(*id);
            },
            InputEvent::FocusGained => {
                self.has_focus = true;
            },
            InputEvent::FocusLost => {
                self.has_focus = false;
                self.clear();
            },
            InputEvent::Resize { width, height } => {
                self.window_size = (*width, *height);
            },
            InputEvent::ScaleFactorChanged { scale } => {
                self.scale_factor = *scale;
            },
            _ => {},
        }
    }

    /// Apply event `e`, reading the clock for touches that start.
    pub fn update(&mut self, e: &InputEvent)
        requires
            state_wf(old(self)@),
        ensures
            state_wf(final(self)@),
            exists|now: i128| final(self)@ == #[trigger] updated(old(self)@, *e, now),
    {
        let now = now_nanos();
        self.update_at(e, now);
    }

    fn press_button(&mut self, b: MouseButton)
        requires
            state_wf(old(self)@),
        ensures
            state_wf(final(self)@),
            final(self)@ == (InputStateView { buttons: seq_insert(old(self)@.buttons, b), ..old(self)@ }),
    {
        if position_of_button(&self.pressed_mouse_buttons, b).is_none() {
            let ghost s = self.pressed_mouse_buttons@;
            self.pressed_mouse_buttons.push(b);
            assert forall|a: int, c: int|
                0 <= a < self.pressed_mouse_buttons@.len() && 0 <= c < self.pressed_mouse_buttons@.len() && a != c
                implies self.pressed_mouse_buttons@[a] != self.pressed_mouse_buttons@[c] by {
                if a < s.len() && c < s.len() {
                } else if a < s.len() {
                    assert(s.contains(s[a]));
                } else {
                    assert(s.contains(s[c]));
                }
            }
        }
    }

    fn release_button(&mut self, b: MouseButton)
        requires
            state_wf(old(self)@),
        ensures
            state_wf(final(self)@),
            final(self)@ == (InputStateView { buttons: seq_erase(old(self)@.buttons, b), ..old(self)@ }),
    {
        if let Some(i) = position_of_button(&self.pressed_mouse_buttons, b) {
            proof {
                lemma_index_of_unique(self.pressed_mouse_buttons@, b, i as int);
                lemma_remove_no_duplicates(self.pressed_mouse_buttons@, i as int);
            }
            self.pressed_mouse_buttons.remove(i);
        }
    }

    fn press_key(&mut self, k: &Key)
        requires
            state_wf(old(self)@),
        ensures
            state_wf(final(self)@),
            final(self)@ == (InputStateView { keys: seq_insert(old(self)@.keys, k@), ..old(self)@ }),
    {
        if position_of_key(&self.pressed_keys, k).is_none() {
            let ghost s = key_views(self.pressed_keys@);
            self.pressed_keys.push(key_copy(k));
            let ghost t = key_views(self.pressed_keys@);
            assert(t =~= s.push(k@));
            assert forall|a: int, c: int| 0 <= a < t.len() && 0 <= c < t.len() && a != c implies t[a] != t[c] by {
                if a < s.len() && c < s.len() {
                } else if a < s.len() {
                    assert(s.contains(s[a]));
                } else {
                    assert(s.contains(s[c]));
                }
            }
        }
    }

    fn release_key(&mut self, k: &Key)
        requires
            state_wf(old(self)@),
        ensures
            state_wf(final(self)@),
            final(self)@ == (InputStateView { keys: seq_erase(old(self)@.keys, k@), ..old(self)@ }),
    {
        if let Some(i) = position_of_key(&self.pressed_keys, k) {
            let ghost s = key_views(self.pressed_keys@);
            proof {
                lemma_index_of_unique(s, k@, i as int);
                lemma_remove_no_duplicates(s, i as int);
            }
            self.pressed_keys.remove(i);
            assert(key_views(self.pressed_keys@) =~= s.remove(i as int));
        }
    }

    fn start_touch(&mut self, id: u64, x: u64, y: u64, pressure: u64, now: i128)
        requires
            state_wf(old(self)@),
        ensures
            state_wf(final(self)@),
            final(self)@ == (InputStateView {
                touches: touch_started(old(self)@.touches, id, x, y, pressure, now),
                ..old(self)@
            }),
    {
        if self.touch_points.len() < MAX_TOUCH_POINTS {
            let p = TouchPoint { id, x, y, pressure, start_time: now, start_x: x, start_y: y };
            let ghost s = self.touch_points@;
            match position_of_touch(&self.touch_points, id) {
                Some(i) => {
                    self.touch_points.set(i, p);
                    assert forall|a: int, b: int| 0 <= a < b < self.touch_points@.len() implies
                        (#[trigger] self.touch_points@[a]).id != (#[trigger] self.touch_points@[b]).id by {
                        assert(s[a].id != s[b].id);
                    }
                },
                None => {
                    self.touch_points.push(p);
                    assert forall|a: int, b: int| 0 <= a < b < self.touch_points@.len() implies
                        (#[trigger] self.touch_points@[a]).id != (#[trigger] self.touch_points@[b]).id by {
                        if b < s.len() {
                            assert(s[a].id != s[b].id);
                        } else {
                            assert(s[a].id != id);
                        }
                    }
                },
            }
        }
    }

    fn move_touch(&mut self, id: u64, x: u64, y: u64, pressure: u64)
        requires
            state_wf(old(self)@),
        ensures
            state_wf(final(self)@),
            final(self)@ == (InputStateView { touches: touch_moved(old(self)@.touches, id, x, y, pressure), ..old(self)@ }),
    {
        if let Some(i) = position_of_touch(&self.touch_points, id) {
            let ghost s = self.touch_points@;
            let p = TouchPoint { x, y, pressure, ..self.touch_points[i] };
            self.touch_points.set(i, p);
            assert forall|a: int, b: int| 0 <= a < b < self.touch_points@.len() implies
                (#[trigger] self.touch_points@[a]).id != (#[trigger] self.touch_points@[b]).id by {
                assert(s[a].id != s[b].id);
            }
        }
    }

    fn end_touch(&mut self, id: u64)
        requires
            state_wf(old(self)@),
        ensures
            state_wf(final(self)@),
            final(self)@ == (InputStateView { touches: touch_ended(old(self)@.touches, id), ..old(self)@ }),
    {
        if let Some(i) = position_of_touch(&self.touch_points, id) {
            let ghost s = self.touch_points@;
            self.touch_points.remove(i);
            let ghost r = self.touch_points@;
            assert(r =~= s.remove(i as int));
            assert forall|a: int, b: int| 0 <= a < b < r.len() implies (#[trigger] r[a]).id != (#[trigger] r[b]).id by {
                let a2 = if a < i { a } else { a + 1 };
                let b2 = if b < i { b } else { b + 1 };
                assert(r[a] == s[a2] && r[b] == s[b2]);
                assert(s[a2].id != s[b2].id);
            }
        }
    }

    /// Where the mouse is.
    pub fn mouse_position(&self) -> (r: (u64, u64))
        ensures
            r == self@.mouse_position,
    {
        self.mouse_position
    }

    /// Where the mouse was before its last move.
    pub fn last_mouse_position(&self) -> (r: (u64, u64))
        ensures
            r == self@.last_mouse_position,
    {
        self.last_mouse_position
    }

    /// Whether `button` is held down.
    pub fn is_mouse_button_pressed(&self, button: MouseButton) -> (r: bool)
        ensures
            r == self@.buttons.contains(button),
    {
        position_of_button(&self.pressed_mouse_buttons, button).is_some()
    }

    /// Whether any mouse button is held down.
    pub fn is_any_mouse_button_pressed(&self) -> (r: bool)
        ensures
            r == (self@.buttons.len() > 0),
    {
        self.pressed_mouse_buttons.len() > 0
    }

    /// The held mouse buttons, in the order they went down.
    pub fn pressed_mouse_buttons(&self) -> (r: &Vec<MouseButton>)
        ensures
            r@ == self@.buttons,
    {
        &self.pressed_mouse_buttons
    }

    /// Whether `key` is held down.
    pub fn is_key_pressed(&self, key: &Key) -> (r: bool)
        ensures
            r == self@.keys.contains(key@),
    {
        position_of_key(&self.pressed_keys, key).is_some()
    }

    /// Whether any key is held down.
    pub fn is_any_key_pressed(&self) -> (r: bool)
        ensures
            r == (self@.keys.len() > 0),
    {
        self.pressed_keys.len() > 0
    }

    /// The held keys, in the order they went down.
    pub fn pressed_keys(&self) -> (r: &Vec<Key>)
        ensures
            key_views(r@) == self@.keys,
    {
        &self.pressed_keys
    }

    /// The modifier state of the last key event.
    pub fn modifiers(&self) -> (r: Modifiers)
        ensures
            r == self@.modifiers,
    {
        self.modifiers
    }

    /// The tracked touches, in the order they started.
    pub fn touch_points(&self) -> (r: &Vec<TouchPoint>)
        ensures
            r@ == self@.touches,
    {
        &self.touch_points
    }

    /// How many touches are tracked.
    pub fn touch_count(&self) -> (r: usize)
        ensures
            r == self@.touches.len(),
    {
        self.touch_points.len()
    }

    /// Whether the window has the focus.
    pub fn has_focus(&self) -> (r: bool)
        ensures
            r == self@.has_focus,
    {
        self.has_focus
    }

    /// The window size.
    pub fn window_size(&self) -> (r: (u32, u32))
        ensures
            r == self@.window_size,
    {
        self.window_size
    }

    /// The scale factor (bit pattern of a double).
    pub fn scale_factor(&self) -> (r: u64)
        ensures
            r == self@.scale_factor,
    {
        self.scale_factor
    }

    /// Release every key, button and touch; nothing else changes.
    pub fn clear(&mut self)
        ensures
            state_wf(final(self)@),
            final(self)@ == (InputStateView {
                keys: Seq::empty(),
                buttons: Seq::empty(),
                touches: Seq::empty(),
                ..old(self)@
            }),
    {
        self.pressed_keys.clear();
        self.pressed_mouse_buttons.clear();
        self.touch_points.clear();
        assert(key_views(self.pressed_keys@) =~= Seq::<KeyView>::empty());
    }
}

impl Default for InputState {
    fn default() -> (s: Self)
        ensures
            state_wf(s@),
            s@.buttons.len() == 0,
            s@.keys.len() == 0,
            s@.touches.len() == 0,
            s@.has_focus,
            s@.window_size == (800u32, 600u32),
            s@.scale_factor == SCALE_ONE_BITS,
    {
        InputState::new()
    }
}

} // verus!
