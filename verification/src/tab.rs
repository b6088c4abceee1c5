use vstd::prelude::*;
use crate::clock::{fresh_id, now_nanos};
use crate::text::clone_opt_string;

verus! {

/// Identifier of a tab.
#[derive(Debug, Clone, Copy, PartialEq, Eq, Structural)]
pub struct TabId(pub u128);

/// Identifier of a window.
#[derive(Debug, Clone, Copy, PartialEq, Eq, Structural)]
pub struct WindowId(pub u128);

impl TabId {
    /// A fresh random identifier.
    pub fn new() -> (id: Self)
        ensures
            (id.0 >> 76u128) & 0xfu128 == 4u128,
    {
        TabId(fresh_id())
    }
}

impl WindowId {
    /// A fresh random identifier.
    pub fn new() -> (id: Self)
        ensures
            (id.0 >> 76u128) & 0xfu128 == 4u128,
    {
        WindowId(fresh_id())
    }
}

/// Loading progress of a page.
#[derive(Debug, Clone, Copy, PartialEq, Eq, Structural)]
pub enum LoadState {
    Idle,
    Started,
    Loading,
    Complete,
}

/// A visited page in a tab's history.
pub struct PageVisit {
    pub id: u128,
    pub url: String,
    pub title: Option<String>,
    /// When it was visited (nanoseconds since the Unix epoch).
    pub timestamp: i128,
    pub visit_count: u32,
}

/// Mathematical value of [`PageVisit`].
pub struct PageVisitView {
    pub id: u128,
    pub url: Seq<char>,
    pub title: Option<Seq<char>>,
    pub timestamp: i128,
    pub visit_count: u32,
}

impl View for PageVisit {
    type V = PageVisitView;

    open spec fn view(&self) -> PageVisitView {
        PageVisitView {
            id: self.id,
            url: self.url@,
            title: match self.title { Some(t) => Some(t@), None => None },
            timestamp: self.timestamp,
            visit_count: self.visit_count,
        }
    }
}

impl PageVisit {
    /// A copy with the same contents.
    pub fn duplicate(&self) -> (r: Self)
        ensures
            r@ == self@,
    {
        PageVisit {
            id: self.id,
            url: self.url.clone(),
            title: clone_opt_string(&self.title),
            timestamp: self.timestamp,
            visit_count: self.visit_count,
        }
    }
}

/// The values of a sequence of visits.
pub open spec fn visit_views(v: Seq<PageVisit>) -> Seq<PageVisitView> {
    v.map_values(|p: PageVisit| p@)
}

/// What a tab shows. The zoom level is kept as the bit pattern of a 64-bit
/// float.
pub struct TabState {
    pub title: Option<String>,
    pub url: Option<String>,
    pub load_state: LoadState,
    pub favicon: Option<Vec<u8>>,
    pub zoom_level_bits: u64,
    pub muted: bool,
}

/// Mathematical value of [`TabState`].
pub struct TabStateView {
    pub title: Option<Seq<char>>,
    pub url: Option<Seq<char>>,
    pub load_state: LoadState,
    pub favicon: Option<Seq<u8>>,
    pub zoom_level_bits: u64,
    pub muted: bool,
}

impl View for TabState {
    type V = TabStateView;

    open spec fn view(&self) -> TabStateView {
        TabStateView {
            title: match self.title { Some(t) => Some(t@), None => None },
            url: match self.url { Some(t) => Some(t@), None => None },
            load_state: self.load_state,
            favicon: match self.favicon { Some(f) => Some(f@), None => None },
            zoom_level_bits: self.zoom_level_bits,
            muted: self.muted,
        }
    }
}

impl TabState {
    /// A copy with the same contents.
    pub fn duplicate(&self) -> (r: Self)
        ensures
            r@ == self@,
    {
        TabState {
            title: clone_opt_string(&self.title),
            url: clone_opt_string(&self.url),
            load_state: self.load_state,
            favicon: match &self.favicon {
                Some(f) => Some(f.clone()),
                None => None,
            },
            zoom_level_bits: self.zoom_level_bits,
            muted: self.muted,
        }
    }
}

/// A tab's history and position in it, with the derived back/forward flags.
pub struct NavigationState {
    pub history: Vec<PageVisit>,
    pub current_index: usize,
    pub can_go_back: bool,
    pub can_go_forward: bool,
}

/// Mathematical value of [`NavigationState`].
pub struct NavStateView {
    pub history: Seq<PageVisitView>,
    pub current_index: usize,
    pub can_go_back: bool,
    pub can_go_forward: bool,
}

impl View for NavigationState {
    type V = NavStateView;

    open spec fn view(&self) -> NavStateView {
        NavStateView {
            history: visit_views(self.history@),
            current_index: self.current_index,
            can_go_back: self.can_go_back,
            can_go_forward: self.can_go_forward,
        }
    }
}

/// The flags agree with the position: back when past the start, forward
/// when before the last entry.
pub open spec fn flags_agree(n: NavStateView) -> bool {
    &&& n.can_go_back == (n.current_index > 0)
    &&& n.can_go_forward == (n.current_index + 1 < n.history.len())
}

/// The history after navigating from `index` to `v`: entries after the
/// current one are dropped and `v` is appended.
pub open spec fn pushed_history(h: Seq<PageVisitView>, index: usize, v: PageVisitView) -> Seq<PageVisitView> {
    (if index + 1 < h.len() { h.take(index + 1) } else { h }).push(v)
}

/// A first visit of `url` with no title.
pub open spec fn fresh_visit(v: PageVisitView, url: Seq<char>) -> bool {
    v.url == url && v.title is None && v.visit_count == 1
}

impl NavigationState {
    /// A copy with the same contents.
    pub fn duplicate(&self) -> (r: Self)
        ensures
            r@ == self@,
    {
        let mut h: Vec<PageVisit> = Vec::new();
        let mut i: usize = 0;
        while i < self.history.len()
            invariant
                i <= self.history@.len(),
                visit_views(h@) == visit_views(self.history@).take(i as int),
            decreases self.history.len() - i,
        {
            let ghost prev = h@;
            let x = self.history[i].duplicate();
            h.push(x);
            assert(visit_views(h@) =~= visit_views(prev).push(x@));
            i = i + 1;
            assert(visit_views(h@) =~= visit_views(self.history@).take(i as int));
        }
        assert(visit_views(self.history@).take(i as int) =~= visit_views(self.history@));
        NavigationState {
            history: h,
            current_index: self.current_index,
            can_go_back: self.can_go_back,
            can_go_forward: self.can_go_forward,
        }
    }

    /// Recompute the back/forward flags from the position.
    fn update_navigation_state(&mut self)
        requires
            old(self).history@.len() > 0,
        ensures
            final(self)@.history == old(self)@.history,
            final(self)@.current_index == old(self)@.current_index,
            flags_agree(final(self)@),
    {
        self.can_go_back = self.current_index > 0;
        self.can_go_forward = self.current_index < self.history.len() - 1;
    }
}

/// A browser tab: its identifier, its window, what it shows and its
/// history.
pub struct Tab {
    id: TabId,
    window_id: Option<u128>,
    state: TabState,
    navigation: NavigationState,
}

impl Clone for Tab {
    /// A copy of the tab: same identifier, window, page state and history.
    fn clone(&self) -> (t: Self)
        ensures
            t.tab_id() == self.tab_id(),
            t.window() == self.window(),
            t.shown() == self.shown(),
            t.nav() == self.nav(),
            t.wf() == self.wf(),
    {
        Tab {
            id: self.id,
            window_id: self.window_id,
            state: self.state.duplicate(),
            navigation: self.navigation.duplicate(),
        }
    }
}

impl Tab {
    /// The tab's identifier.
    pub closed spec fn tab_id(&self) -> TabId {
        self.id
    }

    /// The window the tab belongs to.
    pub closed spec fn window(&self) -> Option<u128> {
        self.window_id
    }

    /// What the tab shows.
    pub closed spec fn shown(&self) -> TabStateView {
        self.state@
    }

    /// The tab's identifier.
    pub fn id(&self) -> (r: TabId)
        ensures
            r == self.tab_id(),
    {
        self.id
    }

    /// The tab's history and position.
    pub closed spec fn nav(&self) -> NavStateView {
        self.navigation@
    }

    /// The invariant: the position lies in the history (or the history is
    /// empty at position 0) and the flags agree with it.
    pub closed spec fn wf(&self) -> bool {
        &&& self.navigation@.history.len() == 0 ==> self.navigation@.current_index == 0
        &&& self.navigation@.history.len() > 0 ==> self.navigation@.current_index < self.navigation@.history.len()
        &&& flags_agree(self.navigation@)
    }

    /// An idle tab with no page, zoom 1 and an empty history.
    pub fn new(window_id: Option<u128>) -> (t: Self)
        ensures
            t.wf(),
            t.window() == window_id,
            t.shown() == (TabStateView {
                title: None,
                url: None,
                load_state: LoadState::Idle,
                favicon: None,
                zoom_level_bits: 0x3ff0000000000000,
                muted: false,
            }),
            t.nav().history.len() == 0,
            t.nav().current_index == 0,
    {
        let t = Tab {
            id: TabId::new(),
            window_id,
            state: TabState {
                title: None,
                url: None,
                load_state: LoadState::Idle,
                favicon: None,
                zoom_level_bits: 0x3ff0000000000000,
                muted: false,
            },
            navigation: NavigationState { history: Vec::new(), current_index: 0, can_go_back: false, can_go_forward: false },
        };
        assert(t.nav().history =~= Seq::<PageVisitView>::empty());
        t
    }

    /// Navigate to `url` (already checked as a URL): the tab starts
    /// loading it, forward history is dropped and a first visit is
    /// appended and becomes current.
    pub fn navigate(&mut self, url: &str)
        requires
            old(self).wf(),
            old(self).nav().history.len() < usize::MAX,
        ensures
            final(self).wf(),
            final(self).shown() == (TabStateView { load_state: LoadState::Loading, url: Some(url@), ..old(self).shown() }),
            exists|v: PageVisitView| #[trigger] fresh_visit(v, url@) && final(self).nav().history == pushed_history(
                old(self).nav().history,
                old(self).nav().current_index,
                v,
            ),
            final(self).nav().current_index == final(self).nav().history.len() - 1,
            final(self).tab_id() == old(self).tab_id(),
            final(self).window() == old(self).window(),
    {
        self.state.load_state = LoadState::Loading;
        self.state.url = Some(url.to_string());
        let entry = PageVisit { id: fresh_id(), url: url.to_string(), title: None, timestamp: now_nanos(), visit_count: 1 };
        let ghost ev = entry@;
        let ghost h0 = self.nav().history;
        let current_index = self.navigation.current_index;
        if current_index < self.navigation.history.len().saturating_sub(1) {
            self.navigation.history.truncate(current_index + 1);
        }
        let ghost h1 = visit_views(self.navigation.history@);
        assert(h1 =~= (if current_index + 1 < h0.len() { h0.take(current_index + 1) } else { h0 }));
        self.navigation.history.push(entry);
        assert(self.nav().history =~= h1.push(ev));
        self.navigation.current_index = self.navigation.history.len() - 1;
        self.navigation.update_navigation_state();
        assert(fresh_visit(ev, url@));
    }

    /// Step back: the previous entry's URL is navigated to again (so it is
    /// appended after the position and the entries after it are dropped);
    /// returns that URL, or nothing at the start of the history.
    pub fn go_back(&mut self) -> (r: Option<String>)
        requires
            old(self).wf(),
            old(self).nav().history.len() < usize::MAX,
        ensures
            final(self).wf(),
            old(self).nav().current_index == 0 ==> r is None && final(self).nav() == old(self).nav()
                && final(self).shown() == old(self).shown(),
            old(self).nav().current_index > 0 ==> {
                let p = (old(self).nav().current_index - 1) as usize;
                let u = old(self).nav().history[p as int].url;
                &&& r matches Some(s) && s@ == u
                &&& final(self).shown() == (TabStateView { load_state: LoadState::Loading, url: Some(u), ..old(self).shown() })
                &&& exists|v: PageVisitView| #[trigger] fresh_visit(v, u) && final(self).nav().history == pushed_history(
                    old(self).nav().history,
                    p,
                    v,
                )
            },
            final(self).tab_id() == old(self).tab_id(),
    {
        if self.navigation.current_index > 0 {
            self.navigation.current_index = self.navigation.current_index - 1;
            self.navigation.update_navigation_state();
            let url = self.navigation.history[self.navigation.current_index].url.clone();
            self.navigate(url.as_str());
            Some(url)
        } else {
            None
        }
    }

    /// Step forward: the next entry's URL is navigated to again; returns
    /// that URL, or nothing at the end of the history.
    pub fn go_forward(&mut self) -> (r: Option<String>)
        requires
            old(self).wf(),
            old(self).nav().history.len() < usize::MAX,
            old(self).nav().history.len() > 0,
        ensures
            final(self).wf(),
            old(self).nav().current_index + 1 >= old(self).nav().history.len() ==> r is None && final(self).nav()
                == old(self).nav() && final(self).shown() == old(self).shown(),
            old(self).nav().current_index + 1 < old(self).nav().history.len() ==> {
                let p = (old(self).nav().current_index + 1) as usize;
                let u = old(self).nav().history[p as int].url;
                &&& r matches Some(s) && s@ == u
                &&& final(self).shown() == (TabStateView { load_state: LoadState::Loading, url: Some(u), ..old(self).shown() })
                &&& exists|v: PageVisitView| #[trigger] fresh_visit(v, u) && final(self).nav().history == pushed_history(
                    old(self).nav().history,
                    p,
                    v,
                )
            },
            final(self).tab_id() == old(self).tab_id(),
    {
        if self.navigation.current_index < self.navigation.history.len() - 1 {
            self.navigation.current_index = self.navigation.current_index + 1;
            self.navigation.update_navigation_state();
            let url = self.navigation.history[self.navigation.current_index].url.clone();
            self.navigate(url.as_str());
            Some(url)
        } else {
            None
        }
    }

    /// The URL to reload, if the tab shows a page.
    pub fn reload(&self) -> (r: Option<String>)
        ensures
            match r {
                Some(s) => self.shown().url == Some(s@),
                None => self.shown().url is None,
            },
    {
        clone_opt_string(&self.state.url)
    }

    /// Set the title of the tab and of its current history entry.
    pub fn update_title(&mut self, title: String)
        requires
            old(self).wf(),
        ensures
            final(self).wf(),
            final(self).shown() == (TabStateView { title: Some(title@), ..old(self).shown() }),
            old(self).nav().current_index < old(self).nav().history.len() ==> final(self).nav() == (NavStateView {
                history: old(self).nav().history.update(
                    old(self).nav().current_index as int,
                    PageVisitView { title: Some(title@), ..old(self).nav().history[old(self).nav().current_index as int] },
                ),
                ..old(self).nav()
            }),
            old(self).nav().current_index >= old(self).nav().history.len() ==> final(self).nav() == old(self).nav(),
    {
        self.state.title = Some(title.clone());
        let i = self.navigation.current_index;
        if i < self.navigation.history.len() {
            let ghost h0 = self.nav().history;
            let mut e = self.navigation.history.remove(i);
            e.title = Some(title);
            let ghost ev = e@;
            self.navigation.history.insert(i, e);
            assert(self.nav().history =~= h0.update(i as int, ev));
        }
    }

    /// Set the loading state.
    pub fn set_load_state(&mut self, state: LoadState)
        ensures
            final(self).shown() == (TabStateView { load_state: state, ..old(self).shown() }),
            final(self).nav() == old(self).nav(),
            final(self).wf() == old(self).wf(),
    {
        self.state.load_state = state;
    }

    /// A copy of what the tab shows.
    pub fn get_state(&self) -> (r: TabState)
        ensures
            r@ == self.shown(),
    {
        self.state.duplicate()
    }

    /// A copy of the tab's history and position.
    pub fn get_navigation_state(&self) -> (r: NavigationState)
        ensures
            r@ == self.nav(),
    {
        self.navigation.duplicate()
    }

    /// Set the zoom level, clamped to 0.25 ..= 5.0 (see [`clamped_zoom_bits`]).
    pub fn set_zoom(&mut self, level_bits: u64)
        ensures
            final(self).shown() == (TabStateView { zoom_level_bits: clamped_zoom_bits(level_bits), ..old(self).shown() }),
            final(self).nav() == old(self).nav(),
            final(self).wf() == old(self).wf(),
    {
        self.state.zoom_level_bits = clamp_zoom_bits(level_bits);
    }

    /// Mute an audible tab, unmute a muted one; returns the new setting.
    pub fn toggle_mute(&mut self) -> (m: bool)
        ensures
            m == !old(self).shown().muted,
            final(self).shown() == (TabStateView { muted: m, ..old(self).shown() }),
            final(self).nav() == old(self).nav(),
            final(self).wf() == old(self).wf(),
    {
        self.state.muted = !self.state.muted;
        self.state.muted
    }

}

/// Bit pattern of the double 0.25, the smallest zoom level.
pub const MIN_ZOOM_BITS: u64 = 0x3FD0_0000_0000_0000;

/// Bit pattern of the double 5.0, the largest zoom level.
pub const MAX_ZOOM_BITS: u64 = 0x4014_0000_0000_0000;

/// A double, given by its bit pattern `b`, clamped to 0.25 ..= 5.0: NaN
/// stays NaN; negative numbers (sign bit set) rise to 0.25; among
/// non-negative doubles the bit patterns are ordered as the numbers are.
pub open spec fn clamped_zoom_bits(b: u64) -> u64 {
    if (b >> 52u64) & 0x7ffu64 == 0x7ffu64 && b & 0xf_ffff_ffff_ffffu64 != 0 {
        b
    } else if b >> 63u64 == 1u64 {
        MIN_ZOOM_BITS
    } else if b < MIN_ZOOM_BITS {
        MIN_ZOOM_BITS
    } else if b > MAX_ZOOM_BITS {
        MAX_ZOOM_BITS
    } else {
        b
    }
}

/// Clamping a zoom level twice gives what clamping once gives.
pub proof fn law_zoom_clamp_idempotent(b: u64)
    ensures
        clamped_zoom_bits(clamped_zoom_bits(b)) == clamped_zoom_bits(b),
{
    assert((0x3FD0_0000_0000_0000u64 >> 52u64) & 0x7ffu64 != 0x7ffu64) by (bit_vector);
    assert((0x4014_0000_0000_0000u64 >> 52u64) & 0x7ffu64 != 0x7ffu64) by (bit_vector);
    assert(0x3FD0_0000_0000_0000u64 >> 63u64 == 0u64) by (bit_vector);
    assert(0x4014_0000_0000_0000u64 >> 63u64 == 0u64) by (bit_vector);
}

/// Clamp a zoom level given by its bit pattern (see [`clamped_zoom_bits`]).
pub fn clamp_zoom_bits(b: u64) -> (r: u64)
    ensures
        r == clamped_zoom_bits(b),
{
    if (b >> 52u64) & 0x7ffu64 == 0x7ffu64 && b & 0xf_ffff_ffff_ffffu64 != 0 {
        b
    } else if b >> 63u64 == 1u64 {
        MIN_ZOOM_BITS
    } else if b < MIN_ZOOM_BITS {
        MIN_ZOOM_BITS
    } else if b > MAX_ZOOM_BITS {
        MAX_ZOOM_BITS
    } else {
        b
    }
}

/// Whether a tab with this identifier is in the list.
pub open spec fn has_tab(s: Seq<Tab>, id: TabId) -> bool {
    exists|i: int| 0 <= i < s.len() && (#[trigger] s[i]).tab_id() == id
}

/// `i` is the first position of a tab with this identifier.
pub open spec fn is_first_tab(s: Seq<Tab>, id: TabId, i: int) -> bool {
    &&& 0 <= i < s.len()
    &&& s[i].tab_id() == id
    &&& forall|k: int| 0 <= k < i ==> (#[trigger] s[k]).tab_id() != id
}

/// The first position of a tab with this identifier.
pub open spec fn first_tab(s: Seq<Tab>, id: TabId) -> int {
    choose|i: int| is_first_tab(s, id, i)
}

/// The active tab after closing the tab at `i` of `s` (now `rest`): when
/// the closed tab was active, the tab before it (or the new first tab)
/// becomes active, if any is left.
pub open spec fn active_after_close(active: Option<TabId>, closed: TabId, rest: Seq<Tab>, i: int) -> Option<TabId> {
    if active == Some(closed) {
        let j = if i > 0 { i - 1 } else { 0 };
        if j < rest.len() { Some(rest[j].tab_id()) } else { None }
    } else {
        active
    }
}

/// Closing a tab other than the active one leaves the active tab as it
/// was. Closing the active tab makes the tab just before it active (the
/// next one, which becomes first, when it was the first), and leaves no tab
/// active only when it was the last tab.
pub proof fn law_close_tab_active(tabs: Seq<Tab>, active: Option<TabId>, id: TabId, i: int)
    requires
        0 <= i < tabs.len(),
        tabs[i].tab_id() == id,
    ensures
        active != Some(id) ==> active_after_close(active, id, tabs.remove(i), i) == active,
        active == Some(id) && i > 0 ==> active_after_close(active, id, tabs.remove(i), i) == Some(tabs[i - 1].tab_id()),
        active == Some(id) && i == 0 && tabs.len() > 1 ==> active_after_close(active, id, tabs.remove(i), i) == Some(
            tabs[1].tab_id(),
        ),
        active == Some(id) && tabs.len() == 1 ==> active_after_close(active, id, tabs.remove(i), i) is None,
{
    let rest = tabs.remove(i);
    if i > 0 {
        assert(rest[i - 1] == tabs[i - 1]);
    } else if tabs.len() > 1 {
        assert(rest[0] == tabs[1]);
    }
}

fn find_tab(tabs: &Vec<Tab>, id: TabId) -> (r: Option<usize>)
    ensures
        match r {
            Some(i) => is_first_tab(tabs@, id, i as int) && has_tab(tabs@, id) && first_tab(tabs@, id) == i,
            None => !has_tab(tabs@, id),
        },
{
    let mut i: usize = 0;
    while i < tabs.len()
        invariant
            i <= tabs@.len(),
            forall|k: int| 0 <= k < i ==> (#[trigger] tabs@[k]).tab_id() != id,
        decreases tabs.len() - i,
    {
        if tabs[i].id() == id {
            assert(is_first_tab(tabs@, id, i as int));
            assert(has_tab(tabs@, id));
            let ghost j = first_tab(tabs@, id);
            assert(is_first_tab(tabs@, id, j));
            assert(j == i as int) by {
                if j < i {
                    assert(tabs@[j].tab_id() != id);
                } else if j > i {
                    assert(tabs@[i as int].tab_id() != id);
                }
            }
            return Some(i);
        }
        i = i + 1;
    }
    None
}

/// The tabs of a window and which one is active.
pub struct TabManager {
    tabs: Vec<Tab>,
    active_tab: Option<TabId>,
}

impl TabManager {
    /// The tabs, in creation order.
    pub closed spec fn tabs_of(&self) -> Seq<Tab> {
        self.tabs@
    }

    /// The active tab's identifier.
    pub closed spec fn active(&self) -> Option<TabId> {
        self.active_tab
    }

    /// Every tab is well formed.
    pub closed spec fn wf(&self) -> bool {
        forall|i: int| 0 <= i < self.tabs@.len() ==> (#[trigger] self.tabs@[i]).wf()
    }

    /// No tabs.
    pub fn new() -> (m: Self)
        ensures
            m.wf(),
            m.tabs_of().len() == 0,
            m.active() is None,
    {
        TabManager { tabs: Vec::new(), active_tab: None }
    }

    /// Open a new tab in `window_id`; the first tab becomes active.
    pub fn create_tab(&mut self, window_id: Option<u128>) -> (id: TabId)
        requires
            old(self).wf(),
        ensures
            final(self).wf(),
            final(self).tabs_of().len() == old(self).tabs_of().len() + 1,
            final(self).tabs_of().drop_last() == old(self).tabs_of(),
            final(self).tabs_of().last().tab_id() == id,
            final(self).tabs_of().last().window() == window_id,
            final(self).tabs_of().last().nav().history.len() == 0,
            final(self).active() == if old(self).active() is None { Some(id) } else { old(self).active() },
    {
        let tab = Tab::new(window_id);
        let id = tab.id();
        let ghost t0 = self.tabs@;
        self.tabs.push(tab);
        assert(self.tabs@.drop_last() =~= t0);
        if self.active_tab.is_none() {
            self.active_tab = Some(id);
        }
        id
    }

    /// Close the tab `id`; returns the active tab afterwards, or nothing
    /// when there is no such tab.
    pub fn close_tab(&mut self, id: TabId) -> (r: Option<TabId>)
        requires
            old(self).wf(),
        ensures
            final(self).wf(),
            !has_tab(old(self).tabs_of(), id) ==> r is None && final(self).tabs_of() == old(self).tabs_of()
                && final(self).active() == old(self).active(),
            has_tab(old(self).tabs_of(), id) ==> {
                let i = first_tab(old(self).tabs_of(), id);
                let rest = old(self).tabs_of().remove(i);
                &&& final(self).tabs_of() == rest
                &&& final(self).active() == active_after_close(old(self).active(), id, rest, i)
                &&& r == final(self).active()
            },
    {
        match find_tab(&self.tabs, id) {
            Some(index) => {
                let ghost t0 = self.tabs@;
                self.tabs.remove(index);
                assert(self.tabs@ =~= t0.remove(index as int));
                if self.active_tab == Some(id) {
                    let j = index.saturating_sub(1);
                    self.active_tab = if j < self.tabs.len() {
                        Some(self.tabs[j].id())
                    } else {
                        None
                    };
                }
                self.active_tab
            },
            None => None,
        }
    }

    /// A copy of the tab `id`.
    pub fn get_tab(&self, id: TabId) -> (r: Option<Tab>)
        ensures
            match r {
                Some(t) => has_tab(self.tabs_of(), id) && {
                    let u = self.tabs_of()[first_tab(self.tabs_of(), id)];
                    t.tab_id() == id && t.window() == u.window() && t.shown() == u.shown() && t.nav() == u.nav()
                },
                None => !has_tab(self.tabs_of(), id),
            },
    {
        match find_tab(&self.tabs, id) {
            Some(i) => Some(self.tabs[i].clone()),
            None => None,
        }
    }

    /// A copy of the active tab.
    pub fn get_active_tab(&self) -> (r: Option<Tab>)
        ensures
            match r {
                Some(t) => self.active() matches Some(id) && has_tab(self.tabs_of(), id) && {
                    let u = self.tabs_of()[first_tab(self.tabs_of(), id)];
                    t.tab_id() == id && t.window() == u.window() && t.shown() == u.shown() && t.nav() == u.nav()
                },
                None => self.active() is None || !has_tab(self.tabs_of(), self.active().unwrap()),
            },
    {
        match self.active_tab {
            Some(id) => self.get_tab(id),
            None => None,
        }
    }

    /// Make the tab `id` active; false (and no change) when there is no
    /// such tab.
    pub fn set_active_tab(&mut self, id: TabId) -> (ok: bool)
        ensures
            ok == has_tab(old(self).tabs_of(), id),
            final(self).tabs_of() == old(self).tabs_of(),
            ok ==> final(self).active() == Some(id),
            !ok ==> final(self).active() == old(self).active(),
            final(self).wf() == old(self).wf(),
    {
        match find_tab(&self.tabs, id) {
            Some(_) => {
                self.active_tab = Some(id);
                true
            },
            None => false,
        }
    }

    /// Copies of all tabs.
    pub fn get_all_tabs(&self) -> (r: Vec<Tab>)
        ensures
            r@.len() == self.tabs_of().len(),
            forall|i: int| 0 <= i < r@.len() ==> (#[trigger] r@[i]).tab_id() == self.tabs_of()[i].tab_id()
                && r@[i].shown() == self.tabs_of()[i].shown() && r@[i].nav() == self.tabs_of()[i].nav(),
    {
        let mut r: Vec<Tab> = Vec::new();
        let mut i: usize = 0;
        while i < self.tabs.len()
            invariant
                i <= self.tabs@.len(),
                r@.len() == i,
                forall|k: int| 0 <= k < i ==> (#[trigger] r@[k]).tab_id() == self.tabs@[k].tab_id()
                    && r@[k].shown() == self.tabs@[k].shown() && r@[k].nav() == self.tabs@[k].nav(),
            decreases self.tabs.len() - i,
        {
            r.push(self.tabs[i].clone());
            i = i + 1;
        }
        r
    }

    /// Number of tabs.
    pub fn get_tab_count(&self) -> (n: usize)
        ensures
            n == self.tabs_of().len(),
    {
        self.tabs.len()
    }
}

} // verus!
