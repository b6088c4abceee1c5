use vstd::prelude::*;
use vstd::string::*;
use crate::clock::{fresh_id, now_nanos};
use crate::history::{entry_views, HistoryEntry, HistoryEntryView};
use crate::text::{clone_opt_string, clone_strings, owned};

verus! {

/// Window geometry (position and size).
#[derive(Debug, Clone, Copy, PartialEq, Eq, Structural)]
pub struct WindowGeometry {
    pub x: i32,
    pub y: i32,
    pub width: u32,
    pub height: u32,
    pub maximized: bool,
    pub minimized: bool,
    pub fullscreen: bool,
}

impl Default for WindowGeometry {
    fn default() -> (g: Self)
        ensures
            g == (WindowGeometry { x: 100, y: 100, width: 1280, height: 720, maximized: false, minimized: false, fullscreen: false }),
    {
        WindowGeometry { x: 100, y: 100, width: 1280, height: 720, maximized: false, minimized: false, fullscreen: false }
    }
}

/// IEEE-754 bit pattern of 1.0, the default zoom level.
pub const ZOOM_ONE_BITS: u64 = 0x3ff0000000000000;

/// A key/value pair of saved form data.
pub struct FormField {
    pub name: String,
    pub value: String,
}

/// Copy of saved form data.
fn clone_form(f: &Option<Vec<FormField>>) -> (r: Option<Vec<FormField>>)
    ensures
        form_view(r) == form_view(*f),
{
    match f {
        None => None,
        Some(v) => {
            let mut out: Vec<FormField> = Vec::new();
            let mut i: usize = 0;
            while i < v.len()
                invariant
                    i <= v@.len(),
                    fields_view(out@) == fields_view(v@).take(i as int),
                decreases v.len() - i,
            {
                let ghost prev = out@;
                out.push(FormField { name: v[i].name.clone(), value: v[i].value.clone() });
                assert(fields_view(out@) =~= fields_view(prev).push((v@[i as int].name@, v@[i as int].value@)));
                i = i + 1;
                assert(fields_view(out@) =~= fields_view(v@).take(i as int));
            }
            assert(fields_view(v@).take(i as int) =~= fields_view(v@));
            Some(out)
        },
    }
}

/// Form fields as (name, value) pairs.
pub open spec fn fields_view(v: Seq<FormField>) -> Seq<(Seq<char>, Seq<char>)> {
    v.map_values(|f: FormField| (f.name@, f.value@))
}

/// Optional form data as (name, value) pairs.
pub open spec fn form_view(f: Option<Vec<FormField>>) -> Option<Seq<(Seq<char>, Seq<char>)>> {
    match f {
        Some(v) => Some(fields_view(v@)),
        None => None,
    }
}

/// State of a single tab, with its own back/forward history.
pub struct TabState {
    /// Unique tab identifier.
    pub id: u128,
    /// Current URL.
    pub url: String,
    /// Page title.
    pub title: String,
    /// Scroll position (x, y), as IEEE-754 bit patterns of the coordinates.
    pub scroll_position_bits: (u64, u64),
    /// Zoom level (1.0 = 100%), as the IEEE-754 bit pattern.
    pub zoom_level_bits: u64,
    /// Whether the tab is pinned.
    pub pinned: bool,
    /// Whether the tab is muted.
    pub muted: bool,
    /// Tab history stack.
    pub history_stack: Vec<HistoryEntry>,
    /// Current position in the history stack.
    pub history_position: usize,
    /// Form data for restoration.
    pub form_data: Option<Vec<FormField>>,
    /// When the tab was created (nanoseconds since the Unix epoch).
    pub created_at: i128,
    /// When the tab was last accessed.
    pub last_accessed: i128,
}

/// Mathematical value of [`TabState`].
pub struct TabView {
    pub id: u128,
    pub url: Seq<char>,
    pub title: Seq<char>,
    pub scroll_position_bits: (u64, u64),
    pub zoom_level_bits: u64,
    pub pinned: bool,
    pub muted: bool,
    pub history: Seq<HistoryEntryView>,
    pub position: usize,
    pub form_data: Option<Seq<(Seq<char>, Seq<char>)>>,
    pub created_at: i128,
    pub last_accessed: i128,
}

impl View for TabState {
    type V = TabView;

    open spec fn view(&self) -> TabView {
        TabView {
            id: self.id,
            url: self.url@,
            title: self.title@,
            scroll_position_bits: self.scroll_position_bits,
            zoom_level_bits: self.zoom_level_bits,
            pinned: self.pinned,
            muted: self.muted,
            history: entry_views(self.history_stack@),
            position: self.history_position,
            form_data: form_view(self.form_data),
            created_at: self.created_at,
            last_accessed: self.last_accessed,
        }
    }
}

/// Whether a tab can go back: its position is past the start.
pub open spec fn tab_can_go_back(t: TabView) -> bool {
    t.position > 0
}

/// Whether a tab can go forward: its position is before the last entry.
pub open spec fn tab_can_go_forward(t: TabView) -> bool {
    t.position < (if t.history.len() > 0 { t.history.len() - 1 } else { 0 })
}

/// The history after navigating from position `pos` to `e`: the entries
/// after the current one are dropped and `e` is appended.
pub open spec fn nav_history(h: Seq<HistoryEntryView>, pos: usize, e: HistoryEntryView) -> Seq<HistoryEntryView> {
    (if pos + 1 < h.len() { h.take(pos + 1) } else { h }).push(e)
}

/// A tab marked as accessed at `now`.
pub open spec fn tab_touched(t: TabView, now: i128) -> TabView {
    TabView { last_accessed: now, ..t }
}

/// A tab after navigating to `e` at time `now`.
pub open spec fn tab_navigated(t: TabView, e: HistoryEntryView, now: i128) -> TabView {
    let h = nav_history(t.history, t.position, e);
    TabView { history: h, position: (h.len() - 1) as usize, url: e.url, title: e.title, last_accessed: now, ..t }
}

impl TabState {
    /// A tab showing `url`, with empty history, created at `now`.
    pub fn new_at(id: u128, url: &str, title: &str, now: i128) -> (t: Self)
        ensures
            t@ == (TabView {
                id,
                url: url@,
                title: title@,
                scroll_position_bits: (0, 0),
                zoom_level_bits: ZOOM_ONE_BITS,
                pinned: false,
                muted: false,
                history: Seq::empty(),
                position: 0,
                form_data: None,
                created_at: now,
                last_accessed: now,
            }),
    {
        let t = TabState {
            id,
            url: owned(url),
            title: owned(title),
            scroll_position_bits: (0, 0),
            zoom_level_bits: ZOOM_ONE_BITS,
            pinned: false,
            muted: false,
            history_stack: Vec::new(),
            history_position: 0,
            form_data: None,
            created_at: now,
            last_accessed: now,
        };
        assert(entry_views(t.history_stack@) =~= Seq::<HistoryEntryView>::empty());
        t
    }

    /// A new tab with a fresh identifier, created now.
    pub fn new(url: &str, title: &str) -> (t: Self)
        ensures
            t@.url == url@,
            t@.title == title@,
            t@.history.len() == 0,
            t@.position == 0,
            t@.zoom_level_bits == ZOOM_ONE_BITS,
            t@.scroll_position_bits == (0u64, 0u64),
            !t@.pinned,
            !t@.muted,
            t@.form_data is None,
            t@.created_at == t@.last_accessed,
    {
        let id = fresh_id();
        let now = now_nanos();
        Self::new_at(id, url, title, now)
    }

    /// A new tab with the given history and position.
    pub fn with_history(url: &str, title: &str, history: Vec<HistoryEntry>, position: usize) -> (t: Self)
        ensures
            t@.url == url@,
            t@.title == title@,
            t@.history == entry_views(history@),
            t@.position == position,
            t@.zoom_level_bits == ZOOM_ONE_BITS,
            !t@.pinned,
            !t@.muted,
            t@.form_data is None,
    {
        let mut t = Self::new(url, title);
        t.history_stack = history;
        t.history_position = position;
        t
    }

    /// Mark the tab as accessed at `now`.
    pub fn touch_at(&mut self, now: i128)
        ensures
            final(self)@ == tab_touched(old(self)@, now),
    {
        self.last_accessed = now;
    }

    /// Mark the tab as accessed now.
    pub fn touch(&mut self)
        ensures
            exists|now: i128| final(self)@ == #[trigger] tab_touched(old(self)@, now),
    {
        let now = now_nanos();
        self.touch_at(now);
    }

    /// Whether there is an entry before the current one.
    pub fn can_go_back(&self) -> (r: bool)
        ensures
            r == tab_can_go_back(self@),
    {
        self.history_position > 0
    }

    /// Whether there is an entry after the current one.
    pub fn can_go_forward(&self) -> (r: bool)
        ensures
            r == tab_can_go_forward(self@),
    {
        self.history_position < self.history_stack.len().saturating_sub(1)
    }

    /// The entry at the current position, if the position is in range.
    pub fn current_entry(&self) -> (r: Option<&HistoryEntry>)
        ensures
            match r {
                Some(e) => self@.position < self@.history.len() && e@ == self@.history[self@.position as int],
                None => self@.position >= self@.history.len(),
            },
    {
        if self.history_position < self.history_stack.len() {
            Some(&self.history_stack[self.history_position])
        } else {
            None
        }
    }

    /// Step back one entry; returns the entry now current (None when the
    /// tab cannot go back, or the new position holds no entry).
    pub fn go_back(&mut self) -> (r: Option<&HistoryEntry>)
        ensures
            tab_can_go_back(old(self)@) ==> final(self)@ == (TabView { position: (old(self)@.position - 1) as usize, ..old(self)@ }),
            !tab_can_go_back(old(self)@) ==> final(self)@ == old(self)@ && r is None,
            r matches Some(e) ==> final(self)@.position < final(self)@.history.len()
                && e@ == final(self)@.history[final(self)@.position as int],
            tab_can_go_back(old(self)@) && final(self)@.position < final(self)@.history.len() ==> r is Some,
    {
        if self.can_go_back() {
            self.history_position = self.history_position - 1;
            if self.history_position < self.history_stack.len() {
                Some(&self.history_stack[self.history_position])
            } else {
                None
            }
        } else {
            None
        }
    }

    /// Step forward one entry; returns the entry now current (None when the
    /// tab cannot go forward).
    pub fn go_forward(&mut self) -> (r: Option<&HistoryEntry>)
        ensures
            tab_can_go_forward(old(self)@) ==> final(self)@ == (TabView { position: (old(self)@.position + 1) as usize, ..old(self)@ })
                && (r matches Some(e) && e@ == final(self)@.history[final(self)@.position as int]),
            !tab_can_go_forward(old(self)@) ==> final(self)@ == old(self)@ && r is None,
    {
        if self.can_go_forward() {
            let n = self.history_stack.len();
            assert(self@.history.len() == n);
            assert(self.history_position < n);
            self.history_position = self.history_position + 1;
            Some(&self.history_stack[self.history_position])
        } else {
            None
        }
    }

    /// Navigate to a new entry at time `now`: forward history is dropped,
    /// the entry is appended and becomes current, and the tab takes its URL
    /// and title.
    pub fn navigate_at(&mut self, entry: HistoryEntry, now: i128)
        requires
            old(self)@.position < usize::MAX,
            old(self)@.history.len() < usize::MAX,
        ensures
            final(self)@ == tab_navigated(old(self)@, entry@, now),
    {
        let ghost h0 = self@.history;
        let ghost ev = entry@;
        self.history_stack.truncate(self.history_position + 1);
        let ghost h1 = entry_views(self.history_stack@);
        assert(h1 =~= (if self.history_position + 1 < h0.len() { h0.take(self.history_position + 1) } else { h0 }));
        self.history_stack.push(entry);
        assert(entry_views(self.history_stack@) =~= h1.push(ev));
        self.history_position = self.history_stack.len() - 1;
        self.url = self.history_stack[self.history_position].url.clone();
        self.title = self.history_stack[self.history_position].title.clone();
        self.touch_at(now);
    }

    /// Navigate to a new entry now (see [`TabState::navigate_at`]).
    pub fn navigate(&mut self, entry: HistoryEntry)
        requires
            old(self)@.position < usize::MAX,
            old(self)@.history.len() < usize::MAX,
        ensures
            exists|now: i128| final(self)@ == #[trigger] tab_navigated(old(self)@, entry@, now),
    {
        let now = now_nanos();
        self.navigate_at(entry, now);
    }

    /// A copy with the same contents.
    pub fn duplicate(&self) -> (r: Self)
        ensures
            r@ == self@,
    {
        let mut hs: Vec<HistoryEntry> = Vec::new();
        let mut i: usize = 0;
        while i < self.history_stack.len()
            invariant
                i <= self.history_stack@.len(),
                entry_views(hs@) == entry_views(self.history_stack@).take(i as int),
            decreases self.history_stack.len() - i,
        {
            let ghost prev = hs@;
            let x = self.history_stack[i].duplicate();
            hs.push(x);
            assert(entry_views(hs@) =~= entry_views(prev).push(x@));
            i = i + 1;
            assert(entry_views(hs@) =~= entry_views(self.history_stack@).take(i as int));
        }
        assert(entry_views(self.history_stack@).take(i as int) =~= entry_views(self.history_stack@));
        TabState {
            id: self.id,
            url: self.url.clone(),
            title: self.title.clone(),
            scroll_position_bits: self.scroll_position_bits,
            zoom_level_bits: self.zoom_level_bits,
            pinned: self.pinned,
            muted: self.muted,
            history_stack: hs,
            history_position: self.history_position,
            form_data: clone_form(&self.form_data),
            created_at: self.created_at,
            last_accessed: self.last_accessed,
        }
    }
}

/// Navigating makes the new entry the current and last one (forward
/// history is dropped), and going back from there returns to the entry
/// that was current before.
pub proof fn law_navigate_then_back(t: TabView, e: HistoryEntryView, now: i128)
    requires
        t.position < t.history.len(),
        t.position < usize::MAX,
    ensures
        ({
            let t2 = tab_navigated(t, e, now);
            &&& t2.position == t.position + 1
            &&& t2.history[t2.position as int] == e
            &&& !tab_can_go_forward(t2)
            &&& tab_can_go_back(t2)
            &&& t2.history[t2.position - 1] == t.history[t.position as int]
            &&& t2.history.take(t.position + 1) == t.history.take(t.position + 1)
        }),
{
    let h = nav_history(t.history, t.position, e);
    assert(h.len() == t.position + 2);
    assert(h.take(t.position + 1) =~= t.history.take(t.position + 1));
}

/// Going back and then forward returns a tab to the position it had.
pub proof fn law_back_then_forward(t: TabView)
    requires
        tab_can_go_back(t),
        t.position < t.history.len(),
    ensures
        tab_can_go_forward(TabView { position: (t.position - 1) as usize, ..t }),
        (TabView { position: (t.position - 1) as usize, ..t }).position + 1 == t.position,
{
}

/// Copy of a sequence of tabs.
fn clone_tabs(v: &Vec<TabState>) -> (r: Vec<TabState>)
    ensures
        tab_views(r@) == tab_views(v@),
{
    let mut out: Vec<TabState> = Vec::new();
    let mut i: usize = 0;
    while i < v.len()
        invariant
            i <= v@.len(),
            tab_views(out@) == tab_views(v@).take(i as int),
        decreases v.len() - i,
    {
        let ghost prev = out@;
        let x = v[i].duplicate();
        out.push(x);
        assert(tab_views(out@) =~= tab_views(prev).push(x@));
        i = i + 1;
        assert(tab_views(out@) =~= tab_views(v@).take(i as int));
    }
    assert(tab_views(v@).take(i as int) =~= tab_views(v@));
    out
}

/// The values of a sequence of tabs.
pub open spec fn tab_views(v: Seq<TabState>) -> Seq<TabView> {
    v.map_values(|t: TabState| t@)
}

/// State of a browser window: its tabs and which one is active.
pub struct WindowState {
    /// Unique window identifier.
    pub id: u128,
    /// Tabs in this window.
    pub tabs: Vec<TabState>,
    /// Index of the active tab.
    pub active_tab: usize,
    /// Window geometry.
    pub geometry: WindowGeometry,
    /// Whether this is a private (incognito) window.
    pub incognito: bool,
    /// When the window was created.
    pub created_at: i128,
    /// When the window was last accessed.
    pub last_accessed: i128,
}

/// Mathematical value of [`WindowState`].
pub struct WindowView {
    pub id: u128,
    pub tabs: Seq<TabView>,
    pub active_tab: usize,
    pub geometry: WindowGeometry,
    pub incognito: bool,
    pub created_at: i128,
    pub last_accessed: i128,
}

impl View for WindowState {
    type V = WindowView;

    open spec fn view(&self) -> WindowView {
        WindowView {
            id: self.id,
            tabs: tab_views(self.tabs@),
            active_tab: self.active_tab,
            geometry: self.geometry,
            incognito: self.incognito,
            created_at: self.created_at,
            last_accessed: self.last_accessed,
        }
    }
}

/// The index that stays active after removing an element from a list that
/// now has `len` elements: it moves down by one when it fell off the end.
pub open spec fn active_after_remove(active: usize, len: nat) -> usize {
    if active >= len && active > 0 { (active - 1) as usize } else { active }
}

/// Removing a tab from a window keeps the active index where it is while it
/// still points at a tab; an index that fell off the end moves back one, so
/// an index that was valid before the removal stays valid while any tab is
/// left.
pub proof fn law_remove_keeps_active_index(active: usize, len: nat)
    ensures
        active < len ==> active_after_remove(active, len) == active,
        active == len && len > 0 ==> active_after_remove(active, len) == len - 1,
        active <= len && len > 0 ==> active_after_remove(active, len) < len,
        active == 0 ==> active_after_remove(active, len) == 0,
{
}

/// The tab that a new session opens with: blank page titled "New Tab".
pub open spec fn is_blank_tab(t: TabView) -> bool {
    &&& t.url == "about:blank"@
    &&& t.title == "New Tab"@
    &&& t.history.len() == 0
    &&& t.position == 0
    &&& !t.pinned
    &&& !t.muted
}

impl WindowState {
    /// A window created at `now`, holding no tabs yet.
    pub fn new_at(id: u128, now: i128) -> (w: Self)
        ensures
            w@.id == id,
            w@.tabs.len() == 0,
            w@.active_tab == 0,
            w@.geometry == (WindowGeometry { x: 100, y: 100, width: 1280, height: 720, maximized: false, minimized: false, fullscreen: false }),
            !w@.incognito,
            w@.created_at == now,
            w@.last_accessed == now,
    {
        let w = WindowState {
            id,
            tabs: Vec::new(),
            active_tab: 0,
            geometry: WindowGeometry::default(),
            incognito: false,
            created_at: now,
            last_accessed: now,
        };
        assert(w@.tabs =~= Seq::<TabView>::empty());
        w
    }

    /// A new window, holding no tabs yet.
    pub fn new() -> (w: Self)
        ensures
            w@.tabs.len() == 0,
            w@.active_tab == 0,
            !w@.incognito,
    {
        let id = fresh_id();
        let now = now_nanos();
        Self::new_at(id, now)
    }

    /// A new private window, holding no tabs yet.
    pub fn new_incognito() -> (w: Self)
        ensures
            w@.tabs.len() == 0,
            w@.active_tab == 0,
            w@.incognito,
    {
        let mut w = Self::new();
        w.incognito = true;
        w
    }

    /// Append a tab; returns its index.
    pub fn add_tab(&mut self, tab: TabState) -> (i: usize)
        requires
            old(self)@.tabs.len() < usize::MAX,
        ensures
            final(self)@ == (WindowView { tabs: old(self)@.tabs.push(tab@), ..old(self)@ }),
            i == old(self)@.tabs.len(),
    {
        let ghost ts = self@.tabs;
        self.tabs.push(tab);
        assert(self@.tabs =~= ts.push(tab@));
        self.tabs.len() - 1
    }

    /// Remove the tab at `index`, if there is one; the active index moves
    /// down by one when it falls off the end.
    pub fn remove_tab(&mut self, index: usize) -> (r: Option<TabState>)
        ensures
            index < old(self)@.tabs.len() ==> ({
                let ts = old(self)@.tabs.remove(index as int);
                &&& r matches Some(t) && t@ == old(self)@.tabs[index as int]
                &&& final(self)@ == (WindowView { tabs: ts, active_tab: active_after_remove(old(self)@.active_tab, ts.len()), ..old(self)@ })
            }),
            index >= old(self)@.tabs.len() ==> r is None && final(self)@ == old(self)@,
    {
        if index < self.tabs.len() {
            let ghost ts = self@.tabs;
            let tab = self.tabs.remove(index);
            assert(self@.tabs =~= ts.remove(index as int));
            if self.active_tab >= self.tabs.len() && self.active_tab > 0 {
                self.active_tab = self.active_tab - 1;
            }
            Some(tab)
        } else {
            None
        }
    }

    /// The active tab, if the active index is in range.
    pub fn get_active_tab(&self) -> (r: Option<&TabState>)
        ensures
            match r {
                Some(t) => self@.active_tab < self@.tabs.len() && t@ == self@.tabs[self@.active_tab as int],
                None => self@.active_tab >= self@.tabs.len(),
            },
    {
        if self.active_tab < self.tabs.len() {
            Some(&self.tabs[self.active_tab])
        } else {
            None
        }
    }

    /// The active tab for changing in place, if the active index names one;
    /// whatever is written through it replaces that tab.
    pub fn get_active_tab_mut(&mut self) -> (r: Option<&mut TabState>)
        ensures
            old(self).active_tab < old(self).tabs@.len() ==> (r matches Some(t)
                && *t == old(self).tabs@[old(self).active_tab as int]
                && final(self).tabs@ == old(self).tabs@.update(old(self).active_tab as int, *final(t))
                && final(self).id == old(self).id
                && final(self).active_tab == old(self).active_tab
                && final(self).geometry == old(self).geometry
                && final(self).incognito == old(self).incognito
                && final(self).created_at == old(self).created_at
                && final(self).last_accessed == old(self).last_accessed),
            old(self).active_tab >= old(self).tabs@.len() ==> (r is None && *final(self) == *old(self)),
    {
        if self.active_tab < self.tabs.len() {
            let i = self.active_tab;
            Some(&mut self.tabs[i])
        } else {
            None
        }
    }

    /// Make tab `index` active, marking it and the window accessed at `now`;
    /// false (and no change) when there is no such tab.
    pub fn set_active_tab_at(&mut self, index: usize, now: i128) -> (ok: bool)
        ensures
            ok == (index < old(self)@.tabs.len()),
            ok ==> final(self)@ == window_tab_activated(old(self)@, index, now),
            !ok ==> final(self)@ == old(self)@,
    {
        if index < self.tabs.len() {
            let ghost ts = self@.tabs;
            self.active_tab = index;
            let mut t = self.tabs.remove(index);
            t.touch_at(now);
            self.tabs.insert(index, t);
            assert(self@.tabs =~= ts.update(index as int, tab_touched(ts[index as int], now)));
            self.last_accessed = now;
            true
        } else {
            false
        }
    }

    /// Make tab `index` active now (see [`WindowState::set_active_tab_at`]).
    pub fn set_active_tab(&mut self, index: usize) -> (ok: bool)
        ensures
            ok == (index < old(self)@.tabs.len()),
            ok ==> exists|now: i128| final(self)@ == #[trigger] window_tab_activated(old(self)@, index, now),
            !ok ==> final(self)@ == old(self)@,
    {
        let now = now_nanos();
        self.set_active_tab_at(index, now)
    }

    /// Mark the window as accessed at `now`.
    pub fn touch_at(&mut self, now: i128)
        ensures
            final(self)@ == window_touched(old(self)@, now),
    {
        self.last_accessed = now;
    }

    /// Mark the window as accessed now.
    pub fn touch(&mut self)
        ensures
            exists|now: i128| final(self)@ == #[trigger] window_touched(old(self)@, now),
    {
        let now = now_nanos();
        self.touch_at(now);
    }

    /// Number of tabs.
    pub fn tab_count(&self) -> (n: usize)
        ensures
            n == self@.tabs.len(),
    {
        self.tabs.len()
    }

    /// A copy with the same contents.
    pub fn duplicate(&self) -> (r: Self)
        ensures
            r@ == self@,
    {
        WindowState {
            id: self.id,
            tabs: clone_tabs(&self.tabs),
            active_tab: self.active_tab,
            geometry: self.geometry,
            incognito: self.incognito,
            created_at: self.created_at,
            last_accessed: self.last_accessed,
        }
    }
}

/// A window marked as accessed at `now`.
pub open spec fn window_touched(w: WindowView, now: i128) -> WindowView {
    WindowView { last_accessed: now, ..w }
}

/// A window after making tab `index` active at `now`.
pub open spec fn window_tab_activated(w: WindowView, index: usize, now: i128) -> WindowView {
    WindowView {
        active_tab: index,
        tabs: w.tabs.update(index as int, tab_touched(w.tabs[index as int], now)),
        last_accessed: now,
        ..w
    }
}

/// Version string recorded in session metadata.
pub const BROWSER_VERSION: &'static str = "0.1.0";

/// Session metadata.
pub struct SessionMetadata {
    /// Session name, if any.
    pub name: Option<String>,
    /// Whether this is a saved session (not auto-saved).
    pub saved: bool,
    /// Tags for organization.
    pub tags: Vec<String>,
    /// User agent string used.
    pub user_agent: String,
    /// Browser version.
    pub browser_version: String,
}

/// Mathematical value of [`SessionMetadata`].
pub struct MetadataView {
    pub name: Option<Seq<char>>,
    pub saved: bool,
    pub tags: Seq<Seq<char>>,
    pub user_agent: Seq<char>,
    pub browser_version: Seq<char>,
}

impl View for SessionMetadata {
    type V = MetadataView;

    open spec fn view(&self) -> MetadataView {
        MetadataView {
            name: match self.name { Some(n) => Some(n@), None => None },
            saved: self.saved,
            tags: self.tags@.map_values(|t: String| t@),
            user_agent: self.user_agent@,
            browser_version: self.browser_version@,
        }
    }
}

impl SessionMetadata {
    /// Metadata of an unnamed, unsaved session.
    pub fn new() -> (m: Self)
        ensures
            m@.name is None,
            !m@.saved,
            m@.tags.len() == 0,
            m@.user_agent.len() == 0,
            m@.browser_version == BROWSER_VERSION@,
    {
        let m = SessionMetadata {
            name: None,
            saved: false,
            tags: Vec::new(),
            user_agent: String::new(),
            browser_version: owned(BROWSER_VERSION),
        };
        assert(m@.tags =~= Seq::<Seq<char>>::empty());
        m
    }

    /// A copy with the same contents.
    pub fn duplicate(&self) -> (r: Self)
        ensures
            r@ == self@,
    {
        let r = SessionMetadata {
            name: clone_opt_string(&self.name),
            saved: self.saved,
            tags: clone_strings(&self.tags),
            user_agent: self.user_agent.clone(),
            browser_version: self.browser_version.clone(),
        };
        assert(r@.tags =~= self@.tags);
        r
    }
}

impl Default for SessionMetadata {
    fn default() -> (m: Self)
        ensures
            m@.name is None,
            !m@.saved,
            m@.tags.len() == 0,
            m@.user_agent.len() == 0,
            m@.browser_version == BROWSER_VERSION@,
    {
        SessionMetadata::new()
    }
}

/// The values of a sequence of windows.
pub open spec fn window_views(v: Seq<WindowState>) -> Seq<WindowView> {
    v.map_values(|w: WindowState| w@)
}

/// Total number of tabs over a sequence of windows.
pub open spec fn total_tabs(ws: Seq<WindowView>) -> nat
    decreases ws.len(),
{
    if ws.len() == 0 {
        0
    } else {
        total_tabs(ws.drop_last()) + ws.last().tabs.len()
    }
}

/// Complete browser session: windows and which one is active.
pub struct Session {
    /// Unique session identifier.
    pub id: u128,
    /// Windows in this session.
    pub windows: Vec<WindowState>,
    /// Index of the active window.
    pub active_window: usize,
    /// When the session was created.
    pub created_at: i128,
    /// When the session was last accessed.
    pub last_accessed: i128,
    /// Session metadata.
    pub metadata: SessionMetadata,
}

/// Mathematical value of [`Session`].
pub struct SessionView {
    pub id: u128,
    pub windows: Seq<WindowView>,
    pub active_window: usize,
    pub created_at: i128,
    pub last_accessed: i128,
    pub metadata: MetadataView,
}

impl View for Session {
    type V = SessionView;

    open spec fn view(&self) -> SessionView {
        SessionView {
            id: self.id,
            windows: window_views(self.windows@),
            active_window: self.active_window,
            created_at: self.created_at,
            last_accessed: self.last_accessed,
            metadata: self.metadata@,
        }
    }
}

/// A session marked as accessed at `now`.
pub open spec fn session_touched(s: SessionView, now: i128) -> SessionView {
    SessionView { last_accessed: now, ..s }
}

/// A session after making window `index` active at `now`.
pub open spec fn session_window_activated(s: SessionView, index: usize, now: i128) -> SessionView {
    SessionView { active_window: index, last_accessed: now, ..s }
}

/// A fresh session: one window holding one blank tab, nothing named.
pub open spec fn is_fresh_session(s: SessionView) -> bool {
    &&& s.windows.len() == 1
    &&& s.active_window == 0
    &&& s.windows[0].tabs.len() == 1
    &&& s.windows[0].active_tab == 0
    &&& is_blank_tab(s.windows[0].tabs[0])
    &&& !s.windows[0].incognito
    &&& s.metadata.name is None
    &&& !s.metadata.saved
    &&& s.metadata.tags.len() == 0
}

fn clone_windows(v: &Vec<WindowState>) -> (r: Vec<WindowState>)
    ensures
        window_views(r@) == window_views(v@),
{
    let mut out: Vec<WindowState> = Vec::new();
    let mut i: usize = 0;
    while i < v.len()
        invariant
            i <= v@.len(),
            window_views(out@) == window_views(v@).take(i as int),
        decreases v.len() - i,
    {
        let ghost prev = out@;
        let x = v[i].duplicate();
        out.push(x);
        assert(window_views(out@) =~= window_views(prev).push(x@));
        i = i + 1;
        assert(window_views(out@) =~= window_views(v@).take(i as int));
    }
    assert(window_views(v@).take(i as int) =~= window_views(v@));
    out
}

impl Session {
    /// A session created at `now` with one window holding one blank tab.
    pub fn new_at(id: u128, window_id: u128, tab_id: u128, now: i128) -> (s: Self)
        ensures
            s@.id == id,
            is_fresh_session(s@),
            s@.windows[0].id == window_id,
            s@.windows[0].tabs[0].id == tab_id,
            s@.created_at == now,
            s@.last_accessed == now,
    {
        let mut windows: Vec<WindowState> = Vec::new();
        let mut w = WindowState::new_at(window_id, now);
        let t = TabState::new_at(tab_id, "about:blank", "New Tab", now);
        w.add_tab(t);
        assert(w@.tabs[0] == t@);
        windows.push(w);
        let s = Session { id, windows, active_window: 0, created_at: now, last_accessed: now, metadata: SessionMetadata::new() };
        assert(s@.windows[0] == w@);
        s
    }

    /// A new session with fresh identifiers, created now.
    pub fn new() -> (s: Self)
        ensures
            is_fresh_session(s@),
    {
        let id = fresh_id();
        let wid = fresh_id();
        let tid = fresh_id();
        let now = now_nanos();
        Self::new_at(id, wid, tid, now)
    }

    /// A new session with the given name.
    pub fn with_name(name: &str) -> (s: Self)
        ensures
            is_fresh_session(SessionView { metadata: MetadataView { name: None, ..s@.metadata }, ..s@ }),
            s@.metadata.name == Some(name@),
    {
        let mut s = Self::new();
        s.metadata.name = Some(owned(name));
        s
    }

    /// Append a window; returns its index.
    pub fn add_window(&mut self, window: WindowState) -> (i: usize)
        requires
            old(self)@.windows.len() < usize::MAX,
        ensures
            final(self)@ == (SessionView { windows: old(self)@.windows.push(window@), ..old(self)@ }),
            i == old(self)@.windows.len(),
    {
        let ghost ws = self@.windows;
        self.windows.push(window);
        assert(self@.windows =~= ws.push(window@));
        self.windows.len() - 1
    }

    /// Remove the window at `index`, if there is one; the active index
    /// moves down by one when it falls off the end.
    pub fn remove_window(&mut self, index: usize) -> (r: Option<WindowState>)
        ensures
            index < old(self)@.windows.len() ==> ({
                let ws = old(self)@.windows.remove(index as int);
                &&& r matches Some(w) && w@ == old(self)@.windows[index as int]
                &&& final(self)@ == (SessionView { windows: ws, active_window: active_after_remove(old(self)@.active_window, ws.len()), ..old(self)@ })
            }),
            index >= old(self)@.windows.len() ==> r is None && final(self)@ == old(self)@,
    {
        if index < self.windows.len() {
            let ghost ws = self@.windows;
            let w = self.windows.remove(index);
            assert(self@.windows =~= ws.remove(index as int));
            if self.active_window >= self.windows.len() && self.active_window > 0 {
                self.active_window = self.active_window - 1;
            }
            Some(w)
        } else {
            None
        }
    }

    /// The active window, if the active index is in range.
    pub fn get_active_window(&self) -> (r: Option<&WindowState>)
        ensures
            match r {
                Some(w) => self@.active_window < self@.windows.len() && w@ == self@.windows[self@.active_window as int],
                None => self@.active_window >= self@.windows.len(),
            },
    {
        if self.active_window < self.windows.len() {
            Some(&self.windows[self.active_window])
        } else {
            None
        }
    }

    /// The active window for changing in place, if the active index names
    /// one; whatever is written through it replaces that window.
    pub fn get_active_window_mut(&mut self) -> (r: Option<&mut WindowState>)
        ensures
            old(self).active_window < old(self).windows@.len() ==> (r matches Some(w)
                && *w == old(self).windows@[old(self).active_window as int]
                && final(self).windows@ == old(self).windows@.update(old(self).active_window as int, *final(w))
                && final(self).id == old(self).id
                && final(self).active_window == old(self).active_window
                && final(self).created_at == old(self).created_at
                && final(self).last_accessed == old(self).last_accessed
                && final(self).metadata == old(self).metadata),
            old(self).active_window >= old(self).windows@.len() ==> (r is None && *final(self) == *old(self)),
    {
        if self.active_window < self.windows.len() {
            let i = self.active_window;
            Some(&mut self.windows[i])
        } else {
            None
        }
    }

    /// Make window `index` active, marking the session accessed at `now`;
    /// false (and no change) when there is no such window.
    pub fn set_active_window_at(&mut self, index: usize, now: i128) -> (ok: bool)
        ensures
            ok == (index < old(self)@.windows.len()),
            ok ==> final(self)@ == session_window_activated(old(self)@, index, now),
            !ok ==> final(self)@ == old(self)@,
    {
        if index < self.windows.len() {
            self.active_window = index;
            self.last_accessed = now;
            true
        } else {
            false
        }
    }

    /// Make window `index` active now.
    pub fn set_active_window(&mut self, index: usize) -> (ok: bool)
        ensures
            ok == (index < old(self)@.windows.len()),
            ok ==> exists|now: i128| final(self)@ == #[trigger] session_window_activated(old(self)@, index, now),
            !ok ==> final(self)@ == old(self)@,
    {
        let now = now_nanos();
        self.set_active_window_at(index, now)
    }

    /// Mark the session as accessed at `now`.
    pub fn touch_at(&mut self, now: i128)
        ensures
            final(self)@ == session_touched(old(self)@, now),
    {
        self.last_accessed = now;
    }

    /// Mark the session as accessed now.
    pub fn touch(&mut self)
        ensures
            exists|now: i128| final(self)@ == #[trigger] session_touched(old(self)@, now),
    {
        let now = now_nanos();
        self.touch_at(now);
    }

    /// Number of tabs over all windows.
    pub fn total_tab_count(&self) -> (n: usize)
        requires
            total_tabs(self@.windows) <= usize::MAX,
        ensures
            n == total_tabs(self@.windows),
    {
        let ghost ws = self@.windows;
        let mut n: usize = 0;
        let mut i: usize = 0;
        while i < self.windows.len()
            invariant
                ws == self@.windows,
                total_tabs(ws) <= usize::MAX,
                i <= ws.len(),
                n == total_tabs(ws.take(i as int)),
            decreases self.windows.len() - i,
        {
            assert(ws.take(i + 1).drop_last() =~= ws.take(i as int));
            assert(ws.take(i + 1).last() == ws[i as int]);
            proof {
                lemma_total_tabs_prefix(ws, i + 1);
            }
            n = n + self.windows[i].tab_count();
            i = i + 1;
        }
        assert(ws.take(i as int) =~= ws);
        n
    }

    /// Number of windows.
    pub fn window_count(&self) -> (n: usize)
        ensures
            n == self@.windows.len(),
    {
        self.windows.len()
    }

    /// A copy with the same contents.
    pub fn duplicate(&self) -> (r: Self)
        ensures
            r@ == self@,
    {
        Session {
            id: self.id,
            windows: clone_windows(&self.windows),
            active_window: self.active_window,
            created_at: self.created_at,
            last_accessed: self.last_accessed,
            metadata: self.metadata.duplicate(),
        }
    }
}

proof fn lemma_total_tabs_prefix(ws: Seq<WindowView>, k: int)
    requires
        0 <= k <= ws.len(),
    ensures
        total_tabs(ws.take(k)) <= total_tabs(ws),
    decreases ws.len(),
{
    if k < ws.len() {
        assert(ws.drop_last().take(k) =~= ws.take(k));
        lemma_total_tabs_prefix(ws.drop_last(), k);
    } else {
        assert(ws.take(k) =~= ws);
    }
}

} // verus!
