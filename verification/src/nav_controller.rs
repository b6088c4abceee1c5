use vstd::prelude::*;
use crate::clock::now_nanos;
use crate::history::{lookup, HistoryEntry, HistoryManager};
use crate::text::owned;

verus! {

/// How a navigation came about.
#[derive(Debug, Clone, Copy, PartialEq, Eq, Structural)]
pub enum TransitionType {
    /// The user clicked a link.
    Link,
    /// The user typed the URL.
    Typed,
    /// The page was submitted automatically (form, redirect).
    AutoSubmit,
    /// Back/forward buttons.
    BackForward,
    /// Page reload.
    Reload,
    /// Opened from a bookmark.
    Bookmark,
    /// Restored with a session.
    SessionRestore,
}

/// One step of a navigation history.
pub struct NavigationEntry {
    /// URL navigated to.
    pub url: String,
    /// Page title.
    pub title: String,
    /// When the navigation happened (nanoseconds since the Unix epoch).
    pub timestamp: i128,
    /// How it came about.
    pub transition: TransitionType,
}

/// Mathematical value of [`NavigationEntry`].
pub struct NavView {
    pub url: Seq<char>,
    pub title: Seq<char>,
    pub timestamp: i128,
    pub transition: TransitionType,
}

impl View for NavigationEntry {
    type V = NavView;

    open spec fn view(&self) -> NavView {
        NavView { url: self.url@, title: self.title@, timestamp: self.timestamp, transition: self.transition }
    }
}

/// The values of a sequence of navigation entries.
pub open spec fn nav_views(v: Seq<NavigationEntry>) -> Seq<NavView> {
    v.map_values(|e: NavigationEntry| e@)
}

/// The stack after navigating from position `pos` to `e`: entries after the
/// current one are dropped and `e` is appended.
pub open spec fn nav_push(s: Seq<NavView>, pos: usize, e: NavView) -> Seq<NavView> {
    (if pos + 1 < s.len() { s.take(pos + 1) } else { s }).push(e)
}

/// Whether there is an entry before position `pos`.
pub open spec fn nav_can_back(pos: usize) -> bool {
    pos > 0
}

/// Whether there is an entry after position `pos` of `s`.
pub open spec fn nav_can_forward(s: Seq<NavView>, pos: usize) -> bool {
    pos < (if s.len() > 0 { s.len() - 1 } else { 0 })
}

/// The entry at `pos`, if any.
pub open spec fn nav_at(s: Seq<NavView>, pos: usize) -> Option<NavView> {
    if pos < s.len() { Some(s[pos as int]) } else { None }
}

/// The stack with the entry at `pos` given a new URL, title and time.
pub open spec fn nav_replaced(s: Seq<NavView>, pos: usize, url: Seq<char>, title: Seq<char>, now: i128) -> Seq<NavView> {
    s.update(pos as int, NavView { url, title, timestamp: now, ..s[pos as int] })
}

/// Replacing the current entry (as a redirect does) gives it the new URL,
/// title and time and keeps how it was reached; the other entries and the
/// number of entries stay as they were.
pub proof fn law_replace_current_entry(s: Seq<NavView>, pos: usize, url: Seq<char>, title: Seq<char>, now: i128)
    requires
        pos < s.len(),
    ensures
        nav_replaced(s, pos, url, title, now).len() == s.len(),
        nav_at(nav_replaced(s, pos, url, title, now), pos) matches Some(e) && e.url == url && e.title == title
            && e.timestamp == now && e.transition == s[pos as int].transition,
        forall|k: int| 0 <= k < s.len() && k != pos ==> #[trigger] nav_replaced(s, pos, url, title, now)[k] == s[k],
{
}

/// Navigating from the entry at `pos` keeps the entries up to it, makes
/// the new entry the last one, leaves nothing to go forward to, and going
/// back reaches the entry that was current.
pub proof fn law_navigate_then_back(s: Seq<NavView>, pos: usize, e: NavView)
    requires
        pos < s.len(),
        pos < usize::MAX,
    ensures
        nav_push(s, pos, e).len() == pos + 2,
        nav_push(s, pos, e)[pos + 1] == e,
        nav_at(nav_push(s, pos, e), pos) == Some(s[pos as int]),
        !nav_can_forward(nav_push(s, pos, e), (pos + 1) as usize),
        nav_can_back((pos + 1) as usize),
{
}

/// Going back and then forward returns to the same position.
pub proof fn law_back_then_forward(s: Seq<NavView>, pos: usize)
    requires
        nav_can_back(pos),
        pos < s.len(),
    ensures
        nav_can_forward(s, (pos - 1) as usize),
        ((pos - 1) as usize) + 1 == pos,
{
}

/// Navigation state of one browsing context: a stack of entries and the
/// current position, optionally recording each navigation in a history
/// store.
pub struct NavigationController {
    history_stack: Vec<NavigationEntry>,
    current_position: usize,
    history_manager: Option<HistoryManager>,
    persist_navigation: bool,
}

impl NavigationController {
    /// The stack of entries.
    pub closed spec fn entries(&self) -> Seq<NavView> {
        nav_views(self.history_stack@)
    }

    /// The current position.
    pub closed spec fn position(&self) -> usize {
        self.current_position
    }

    /// Whether navigations are recorded in the history store.
    pub closed spec fn persists(&self) -> bool {
        self.persist_navigation
    }

    /// The attached history store.
    pub closed spec fn history(&self) -> Option<HistoryManager> {
        self.history_manager
    }

    /// The invariant: an attached history store is well formed.
    pub closed spec fn wf(&self) -> bool {
        self.history_manager matches Some(h) ==> h.wf()
    }

    /// An empty controller that records navigations once a store is
    /// attached.
    pub fn new() -> (c: Self)
        ensures
            c.wf(),
            c.entries().len() == 0,
            c.position() == 0,
            c.persists(),
            c.history() is None,
    {
        let c = NavigationController {
            history_stack: Vec::new(),
            current_position: 0,
            history_manager: None,
            persist_navigation: true,
        };
        assert(c.entries() =~= Seq::<NavView>::empty());
        c
    }

    /// An empty controller recording navigations in `history_manager`.
    pub fn with_history_manager(history_manager: HistoryManager) -> (c: Self)
        requires
            history_manager.wf(),
        ensures
            c.wf(),
            c.entries().len() == 0,
            c.position() == 0,
            c.persists(),
            c.history() == Some(history_manager),
    {
        let c = NavigationController {
            history_stack: Vec::new(),
            current_position: 0,
            history_manager: Some(history_manager),
            persist_navigation: true,
        };
        assert(c.entries() =~= Seq::<NavView>::empty());
        c
    }

    /// Navigate to `url`: forward entries are dropped, a typed entry is
    /// pushed and becomes current, and, when recording is on and a store is
    /// attached, a first visit of `url` is recorded there (its outcome is
    /// ignored).
    pub fn navigate(&mut self, url: &str, title: &str)
        requires
            old(self).wf(),
            old(self).position() < usize::MAX,
            old(self).entries().len() < usize::MAX,
            old(self).persists() ==> (old(self).history() matches Some(h) ==> (!h.private() ==> (lookup(h.entries(), url@) matches Some(x)
                ==> x.visit_count < u32::MAX) && (lookup(h.entries(), url@) is None ==> h.count() < u64::MAX))),
        ensures
            final(self).wf(),
            exists|now: i128| final(self).entries() == #[trigger] nav_push(
                old(self).entries(),
                old(self).position(),
                NavView { url: url@, title: title@, timestamp: now, transition: TransitionType::Typed },
            ),
            final(self).position() == final(self).entries().len() - 1,
            final(self).persists() == old(self).persists(),
            !(old(self).persists() && old(self).history() is Some) ==> final(self).history() == old(self).history(),
            old(self).persists() && old(self).history() is Some ==> (final(self).history() matches Some(h)
                && h.favicons() == old(self).history().unwrap().favicons()
                && h.private() == old(self).history().unwrap().private()),
    {
        let ghost s0 = self.entries();
        let now = now_nanos();
        self.history_stack.truncate(self.current_position + 1);
        let ghost s1 = nav_views(self.history_stack@);
        assert(s1 =~= (if self.current_position + 1 < s0.len() { s0.take(self.current_position + 1) } else { s0 }));
        let entry = NavigationEntry { url: owned(url), title: owned(title), timestamp: now, transition: TransitionType::Typed };
        let ghost ev = entry@;
        self.history_stack.push(entry);
        assert(self.entries() =~= s1.push(ev));
        self.current_position = self.history_stack.len() - 1;
        assert(self.entries() == nav_push(s0, old(self).position(), NavView { url: url@, title: title@, timestamp: now, transition: TransitionType::Typed }));
        if self.persist_navigation {
            if let Some(h) = &mut self.history_manager {
                let _ = h.add_visit(HistoryEntry::new(url, title));
            }
        }
    }

    /// Step back one entry; returns the entry now current.
    pub fn back(&mut self) -> (r: Option<&NavigationEntry>)
        ensures
            nav_can_back(old(self).position()) ==> final(self).position() == old(self).position() - 1,
            !nav_can_back(old(self).position()) ==> final(self).position() == old(self).position() && r is None,
            nav_can_back(old(self).position()) ==> match r {
                Some(e) => nav_at(final(self).entries(), final(self).position()) == Some(e@),
                None => nav_at(final(self).entries(), final(self).position()) is None,
            },
            final(self).entries() == old(self).entries(),
            final(self).history() == old(self).history(),
            final(self).persists() == old(self).persists(),
            final(self).wf() == old(self).wf(),
    {
        if self.can_go_back() {
            self.current_position = self.current_position - 1;
            if self.current_position < self.history_stack.len() {
                Some(&self.history_stack[self.current_position])
            } else {
                None
            }
        } else {
            None
        }
    }

    /// Step forward one entry; returns the entry now current.
    pub fn forward(&mut self) -> (r: Option<&NavigationEntry>)
        ensures
            nav_can_forward(old(self).entries(), old(self).position()) ==> final(self).position() == old(self).position() + 1
                && (r matches Some(e) && nav_at(final(self).entries(), final(self).position()) == Some(e@)),
            !nav_can_forward(old(self).entries(), old(self).position()) ==> final(self).position() == old(self).position()
                && r is None,
            final(self).entries() == old(self).entries(),
            final(self).history() == old(self).history(),
            final(self).persists() == old(self).persists(),
            final(self).wf() == old(self).wf(),
    {
        if self.can_go_forward() {
            let n = self.history_stack.len();
            assert(self.entries().len() == n);
            self.current_position = self.current_position + 1;
            Some(&self.history_stack[self.current_position])
        } else {
            None
        }
    }

    /// Whether there is an entry before the current one.
    pub fn can_go_back(&self) -> (r: bool)
        ensures
            r == nav_can_back(self.position()),
    {
        self.current_position > 0
    }

    /// Whether there is an entry after the current one.
    pub fn can_go_forward(&self) -> (r: bool)
        ensures
            r == nav_can_forward(self.entries(), self.position()),
    {
        self.current_position < self.history_stack.len().saturating_sub(1)
    }

    /// The entry at the current position.
    pub fn current_entry(&self) -> (r: Option<&NavigationEntry>)
        ensures
            match r {
                Some(e) => nav_at(self.entries(), self.position()) == Some(e@),
                None => nav_at(self.entries(), self.position()) is None,
            },
    {
        if self.current_position < self.history_stack.len() {
            Some(&self.history_stack[self.current_position])
        } else {
            None
        }
    }

    /// The stack of entries.
    pub fn history_stack(&self) -> (r: &[NavigationEntry])
        ensures
            nav_views(r@) == self.entries(),
    {
        self.history_stack.as_slice()
    }

    /// The current position.
    pub fn current_position(&self) -> (r: usize)
        ensures
            r == self.position(),
    {
        self.current_position
    }

    /// Turn recording in the history store on or off.
    pub fn set_persist_navigation(&mut self, persist: bool)
        ensures
            final(self).persists() == persist,
            final(self).entries() == old(self).entries(),
            final(self).position() == old(self).position(),
            final(self).history() == old(self).history(),
            final(self).wf() == old(self).wf(),
    {
        self.persist_navigation = persist;
    }

    /// Drop all entries.
    pub fn clear(&mut self)
        ensures
            final(self).entries().len() == 0,
            final(self).position() == 0,
            final(self).persists() == old(self).persists(),
            final(self).history() == old(self).history(),
            final(self).wf() == old(self).wf(),
    {
        self.history_stack.clear();
        self.current_position = 0;
        assert(self.entries() =~= Seq::<NavView>::empty());
    }

    /// Replace the current entry's URL and title (for redirects), stamping
    /// it now; nothing changes when the position holds no entry.
    pub fn replace_current(&mut self, url: &str, title: &str)
        ensures
            old(self).position() < old(self).entries().len() ==> exists|now: i128| final(self).entries() == #[trigger] nav_replaced(
                old(self).entries(),
                old(self).position(),
                url@,
                title@,
                now,
            ),
            old(self).position() >= old(self).entries().len() ==> final(self).entries() == old(self).entries(),
            final(self).position() == old(self).position(),
            final(self).persists() == old(self).persists(),
            final(self).history() == old(self).history(),
            final(self).wf() == old(self).wf(),
    {
        if self.current_position < self.history_stack.len() {
            let now = now_nanos();
            let ghost s0 = self.entries();
            let p = self.current_position;
            let tr = self.history_stack[p].transition;
            let e = NavigationEntry { url: owned(url), title: owned(title), timestamp: now, transition: tr };
            let ghost ev = e@;
            self.history_stack.set(p, e);
            assert(self.entries() =~= s0.update(p as int, ev));
            assert(self.entries() == nav_replaced(s0, p, url@, title@, now));
        }
    }
}

impl Default for NavigationController {
    fn default() -> (c: Self)
        ensures
            c.wf(),
            c.entries().len() == 0,
            c.position() == 0,
            c.persists(),
            c.history() is None,
    {
        NavigationController::new()
    }
}

} // verus!
