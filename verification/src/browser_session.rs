use vstd::prelude::*;
use crate::clock::fresh_id;

verus! {

/// Identifier of a tab of the simple session model.
#[derive(Debug, Clone, Copy, PartialEq, Eq, Structural)]
pub struct TabId(pub u128);

impl Default for TabId {
    /// A fresh random identifier.
    fn default() -> (id: Self) {
        TabId(fresh_id())
    }
}

/// URL and title of a tab.
pub struct TabState {
    pub url: String,
    pub title: String,
}

/// A tab of the simple session model.
pub struct BrowserTab {
    pub id: TabId,
    pub url: String,
    pub title: String,
}

/// Mathematical value of a [`BrowserTab`].
pub struct BrowserTabView {
    pub id: TabId,
    pub url: Seq<char>,
    pub title: Seq<char>,
}

impl View for BrowserTab {
    type V = BrowserTabView;

    open spec fn view(&self) -> BrowserTabView {
        BrowserTabView { id: self.id, url: self.url@, title: self.title@ }
    }
}

impl BrowserTab {
    /// A blank tab titled "New Tab" with a fresh identifier.
    pub fn new() -> (t: Self)
        ensures
            t.url@ == "about:blank"@,
            t.title@ == "New Tab"@,
    {
        BrowserTab { id: TabId::default(), url: "about:blank".to_string(), title: "New Tab".to_string() }
    }

    /// Show `url`; returns it.
    pub fn navigate(&mut self, url: &str) -> (r: Option<String>)
        ensures
            final(self).url@ == url@,
            final(self).title@ == old(self).title@,
            final(self).id == old(self).id,
            r matches Some(s) && s@ == url@,
    {
        self.url = url.to_string();
        Some(url.to_string())
    }

    /// The URL to reload.
    pub fn reload(&self) -> (r: Option<String>)
        ensures
            r matches Some(s) && s@ == self.url@,
    {
        Some(self.url.clone())
    }

    /// This model keeps no history: there is nothing to go back to.
    pub fn go_back(&self) -> (r: Option<String>)
        ensures
            r is None,
    {
        None
    }

    /// This model keeps no history: there is nothing to go forward to.
    pub fn go_forward(&self) -> (r: Option<String>)
        ensures
            r is None,
    {
        None
    }

    /// The tab's URL and title.
    pub fn get_state(&self) -> (s: TabState)
        ensures
            s.url@ == self.url@,
            s.title@ == self.title@,
    {
        TabState { url: self.url.clone(), title: self.title.clone() }
    }

    /// A copy with the same contents.
    pub fn duplicate(&self) -> (r: Self)
        ensures
            r.id == self.id,
            r.url@ == self.url@,
            r.title@ == self.title@,
    {
        BrowserTab { id: self.id, url: self.url.clone(), title: self.title.clone() }
    }
}

/// The identifiers of a sequence of tabs.
pub open spec fn tab_ids(v: Seq<BrowserTab>) -> Seq<TabId> {
    v.map_values(|t: BrowserTab| t.id)
}

/// Whether a tab is not the tab `id`.
pub open spec fn other_tab(id: TabId) -> spec_fn(BrowserTabView) -> bool {
    |t: BrowserTabView| t.id != id
}

/// The values of a sequence of tabs.
pub open spec fn tab_views(v: Seq<BrowserTab>) -> Seq<BrowserTabView> {
    v.map_values(|t: BrowserTab| t@)
}

/// Replacing the first tab replaces the first value and identifier.
proof fn lemma_first_tab_update(v: Seq<BrowserTab>)
    requires
        v.len() > 0,
    ensures
        forall|x: BrowserTab| #[trigger] tab_views(v.update(0, x)) == tab_views(v).update(0, x@),
        forall|x: BrowserTab| #[trigger] tab_ids(v.update(0, x)) == tab_ids(v).update(0, x.id),
{
    assert forall|x: BrowserTab| #[trigger] tab_views(v.update(0, x)) == tab_views(v).update(0, x@) by {
        assert(tab_views(v.update(0, x)) =~= tab_views(v).update(0, x@));
    }
    assert forall|x: BrowserTab| #[trigger] tab_ids(v.update(0, x)) == tab_ids(v).update(0, x.id) by {
        assert(tab_ids(v.update(0, x)) =~= tab_ids(v).update(0, x.id));
    }
}

/// Tabs of a window of the simple session model; the first tab counts as
/// active and the last tab cannot be closed.
pub struct TabManager {
    tabs: Vec<BrowserTab>,
}

impl TabManager {
    /// The tabs' identifiers, in order.
    pub closed spec fn ids(&self) -> Seq<TabId> {
        tab_ids(self.tabs@)
    }

    /// The tabs, in order.
    pub closed spec fn tabs(&self) -> Seq<BrowserTabView> {
        tab_views(self.tabs@)
    }

    /// The identifiers are those of the tabs.
    pub proof fn lemma_ids_of_tabs(&self)
        ensures
            self.ids().len() == self.tabs().len(),
            forall|i: int| 0 <= i < self.ids().len() ==> self.ids()[i] == #[trigger] self.tabs()[i].id,
    {
    }

    /// One blank tab.
    pub fn new() -> (m: Self)
        ensures
            m.ids().len() == 1,
            m.tabs().len() == 1,
            m.tabs()[0].url == "about:blank"@,
            m.tabs()[0].title == "New Tab"@,
    {
        let m = TabManager { tabs: vec![BrowserTab::new()] };
        assert(m.ids().len() == 1);
        m
    }

    /// Open a blank tab at the end; returns a copy of it.
    pub fn create_tab(&mut self) -> (t: BrowserTab)
        ensures
            final(self).ids() == old(self).ids().push(t.id),
            final(self).tabs() == old(self).tabs().push(t@),
            t.url@ == "about:blank"@,
            t.title@ == "New Tab"@,
    {
        let t = BrowserTab::new();
        let c = t.duplicate();
        let ghost s0 = self.ids();
        let ghost v0 = self.tabs();
        self.tabs.push(t);
        assert(self.ids() =~= s0.push(c.id));
        assert(self.tabs() =~= v0.push(c@));
        c
    }

    /// The first tab, for changing in place.
    pub fn get_active_tab_mut(&mut self) -> (r: Option<&mut BrowserTab>)
        ensures
            old(self).tabs().len() > 0 ==> (r matches Some(t) && t@ == old(self).tabs()[0]
                && final(self).tabs() == old(self).tabs().update(0, final(t)@)
                && final(self).ids() == old(self).ids().update(0, final(t).id)),
            old(self).tabs().len() == 0 ==> (r is None && *final(self) == *old(self)),
    {
        if self.tabs.len() > 0 {
            proof {
                lemma_first_tab_update(self.tabs@);
            }
            Some(&mut self.tabs[0])
        } else {
            None
        }
    }

    /// A copy of the first tab.
    pub fn get_active_tab(&self) -> (r: Option<BrowserTab>)
        ensures
            match r {
                Some(t) => self.ids().len() > 0 && t.id == self.ids()[0] && self.tabs().len() > 0 && t@ == self.tabs()[0],
                None => self.ids().len() == 0 && self.tabs().len() == 0,
            },
    {
        if self.tabs.len() > 0 {
            Some(self.tabs[0].duplicate())
        } else {
            None
        }
    }

    /// Whether a tab `id` exists (the first tab stays active).
    pub fn set_active_tab(&self, id: TabId) -> (r: bool)
        ensures
            r == self.ids().contains(id),
    {
        let mut i: usize = 0;
        while i < self.tabs.len()
            invariant
                i <= self.ids().len(),
                forall|k: int| 0 <= k < i ==> self.ids()[k] != id,
            decreases self.tabs.len() - i,
        {
            if self.tabs[i].id == id {
                assert(self.ids()[i as int] == id);
                return true;
            }
            i = i + 1;
        }
        false
    }

    /// Close every tab `id`, unless only one tab is left; returns whether
    /// closing was allowed.
    pub fn close_tab(&mut self, id: TabId) -> (r: bool)
        ensures
            r == (old(self).ids().len() > 1),
            r ==> final(self).ids() == old(self).ids().filter(|t: TabId| t != id),
            r ==> final(self).tabs() == old(self).tabs().filter(other_tab(id)),
            !r ==> final(self).ids() == old(self).ids() && final(self).tabs() == old(self).tabs(),
    {
        if self.tabs.len() <= 1 {
            return false;
        }
        let ghost s = self.ids();
        let ghost vs = self.tabs();
        let ghost pred = |t: TabId| t != id;
        let ghost vpred = other_tab(id);
        let mut kept: Vec<BrowserTab> = Vec::new();
        let mut i: usize = 0;
        while i < self.tabs.len()
            invariant
                s == self.ids(),
                vs == self.tabs(),
                pred == (|t: TabId| t != id),
                vpred == other_tab(id),
                i <= s.len(),
                s.len() == vs.len(),
                tab_ids(kept@) == s.take(i as int).filter(pred),
                tab_views(kept@) == vs.take(i as int).filter(vpred),
            decreases self.tabs.len() - i,
        {
            let ghost prev = kept@;
            if self.tabs[i].id != id {
                let x = self.tabs[i].duplicate();
                kept.push(x);
                assert(tab_ids(kept@) =~= tab_ids(prev).push(x.id));
                assert(tab_views(kept@) =~= tab_views(prev).push(x@));
            }
            assert(s.take(i + 1).drop_last() =~= s.take(i as int));
            assert(s.take(i + 1).last() == s[i as int]);
            assert(vs.take(i + 1).drop_last() =~= vs.take(i as int));
            assert(vs.take(i + 1).last() == vs[i as int]);
            reveal(Seq::filter);
            i = i + 1;
            assert(tab_ids(kept@) =~= s.take(i as int).filter(pred));
            assert(tab_views(kept@) =~= vs.take(i as int).filter(vpred));
        }
        assert(s.take(i as int) =~= s);
        assert(vs.take(i as int) =~= vs);
        self.tabs = kept;
        true
    }
}

/// A window of the simple session model.
pub struct BrowserWindow {
    pub tab_manager: TabManager,
}

impl BrowserWindow {
    /// A window with one blank tab.
    pub fn new() -> (w: Self)
        ensures
            w.tab_manager.ids().len() == 1,
            w.tab_manager.tabs().len() == 1,
            w.tab_manager.tabs()[0].url == "about:blank"@,
    {
        BrowserWindow { tab_manager: TabManager::new() }
    }

    /// Open a blank tab; returns a copy of it.
    pub fn create_tab(&mut self) -> (t: BrowserTab)
        ensures
            final(self).tab_manager.ids() == old(self).tab_manager.ids().push(t.id),
            final(self).tab_manager.tabs() == old(self).tab_manager.tabs().push(t@),
            t.url@ == "about:blank"@,
            t.title@ == "New Tab"@,
    {
        self.tab_manager.create_tab()
    }
}

/// Windows of the simple session model; the first window counts as active.
pub struct WindowManager {
    windows: Vec<BrowserWindow>,
}

impl WindowManager {
    /// The windows, in order.
    pub closed spec fn windows(&self) -> Seq<BrowserWindow> {
        self.windows@
    }

    /// The number of windows.
    pub open spec fn count(&self) -> nat {
        self.windows().len()
    }

    /// One window with one blank tab.
    pub fn new() -> (m: Self)
        ensures
            m.count() == 1,
            m.windows()[0].tab_manager.tabs().len() == 1,
            m.windows()[0].tab_manager.tabs()[0].url == "about:blank"@,
    {
        let w = BrowserWindow::new();
        let m = WindowManager { windows: vec![w] };
        assert(m.windows()[0] == w);
        m
    }

    /// The first window.
    pub fn get_active_window(&self) -> (r: Option<&BrowserWindow>)
        ensures
            match r {
                Some(w) => self.count() > 0 && *w == self.windows()[0],
                None => self.count() == 0,
            },
    {
        if self.windows.len() > 0 {
            Some(&self.windows[0])
        } else {
            None
        }
    }

    /// The first window, for changing in place.
    pub fn get_active_window_mut(&mut self) -> (r: Option<&mut BrowserWindow>)
        ensures
            old(self).count() > 0 ==> (r matches Some(w) && *w == old(self).windows()[0]
                && final(self).windows() == old(self).windows().update(0, *final(w))),
            old(self).count() == 0 ==> (r is None && *final(self) == *old(self)),
    {
        if self.windows.len() > 0 {
            Some(&mut self.windows[0])
        } else {
            None
        }
    }
}

/// A browsing session: its windows.
pub struct BrowserSession {
    pub window_manager: WindowManager,
}

impl BrowserSession {
    /// One window with one blank tab.
    pub fn new() -> (s: Self)
        ensures
            s.window_manager.count() == 1,
            s.window_manager.windows()[0].tab_manager.tabs().len() == 1,
            s.window_manager.windows()[0].tab_manager.tabs()[0].url == "about:blank"@,
    {
        BrowserSession { window_manager: WindowManager::new() }
    }
}

} // verus!
