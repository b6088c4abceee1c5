use vstd::prelude::*;
use crate::tab::{has_tab, Tab, TabManager, WindowId};
use crate::text::owned;

verus! {

/// Position of a window on the screen.
#[derive(Debug, Clone, Copy, PartialEq, Eq, Structural)]
pub struct WindowPosition {
    pub x: i32,
    pub y: i32,
}

/// Size of a window.
#[derive(Debug, Clone, Copy, PartialEq, Eq, Structural)]
pub struct WindowSize {
    pub width: u32,
    pub height: u32,
}

/// Display state of a window.
#[derive(Debug, Clone, Copy, PartialEq, Eq, Structural)]
pub enum WindowState {
    Normal,
    Minimized,
    Maximized,
    Fullscreen,
}

/// A browser window.
pub struct Window {
    pub id: WindowId,
    pub title: String,
    pub position: WindowPosition,
    pub size: WindowSize,
    pub state: WindowState,
    pub tab_manager: TabManager,
    pub is_private: bool,
}

/// The title of a window whose active tab has title `t`.
pub open spec fn window_title(t: Seq<char>) -> Seq<char> {
    t + " - Rusty Browser"@
}

impl Clone for Window {
    /// A copy of the window's identity, geometry and state, with a tab
    /// manager of its own that holds no tabs.
    fn clone(&self) -> (w: Self)
        ensures
            w.id == self.id,
            w.title@ == self.title@,
            w.position == self.position,
            w.size == self.size,
            w.state == self.state,
            w.is_private == self.is_private,
            w.tab_manager.wf(),
            w.tab_manager.tabs_of().len() == 0,
            w.tab_manager.active() is None,
    {
        Window {
            id: self.id,
            title: owned(self.title.as_str()),
            position: self.position,
            size: self.size,
            state: self.state,
            tab_manager: TabManager::new(),
            is_private: self.is_private,
        }
    }
}

impl Window {
    /// A normal 1280 x 720 window at (100, 100) titled "Rusty Browser",
    /// with no tabs.
    pub fn new(is_private: bool) -> (w: Self)
        ensures
            w.title@ == "Rusty Browser"@,
            w.position == (WindowPosition { x: 100, y: 100 }),
            w.size == (WindowSize { width: 1280, height: 720 }),
            w.state == WindowState::Normal,
            w.tab_manager.wf(),
            w.tab_manager.tabs_of().len() == 0,
            w.tab_manager.active() is None,
            w.is_private == is_private,
    {
        Window {
            id: WindowId::new(),
            title: "Rusty Browser".to_string(),
            position: WindowPosition { x: 100, y: 100 },
            size: WindowSize { width: 1280, height: 720 },
            state: WindowState::Normal,
            tab_manager: TabManager::new(),
            is_private,
        }
    }

    /// Open a tab in this window; returns a copy of it.
    pub fn create_tab(&mut self) -> (t: Tab)
        requires
            old(self).tab_manager.wf(),
        ensures
            final(self).tab_manager.wf(),
            final(self).tab_manager.tabs_of().drop_last() == old(self).tab_manager.tabs_of(),
            final(self).tab_manager.tabs_of().len() == old(self).tab_manager.tabs_of().len() + 1,
            t.tab_id() == final(self).tab_manager.tabs_of().last().tab_id(),
            final(self).tab_manager.tabs_of().last().window() == Some(old(self).id.0),
            final(self).id == old(self).id,
            final(self).is_private == old(self).is_private,
            final(self).title@ == old(self).title@,
            final(self).position == old(self).position,
            final(self).size == old(self).size,
            final(self).state == old(self).state,
    {
        let id = self.tab_manager.create_tab(Some(self.id.0));
        let ghost ts = self.tab_manager.tabs_of();
        assert(has_tab(ts, id)) by {
            assert(ts[ts.len() - 1].tab_id() == id);
        }
        match self.tab_manager.get_tab(id) {
            Some(t) => t,
            None => {
                proof {
                    assert(false);
                }
                Tab::new(None)
            },
        }
    }

    /// Take the title from the active tab: "<tab title> - Rusty Browser",
    /// with "New Tab" for a missing tab or title.
    pub fn update_title(&mut self)
        ensures
            final(self).title@ == window_title(
                match old(self).tab_manager.active() {
                    Some(id) => if has_tab(old(self).tab_manager.tabs_of(), id) {
                        match old(self).tab_manager.tabs_of()[crate::tab::first_tab(old(self).tab_manager.tabs_of(), id)].shown().title {
                            Some(t) => t,
                            None => "New Tab"@,
                        }
                    } else {
                        "New Tab"@
                    },
                    None => "New Tab"@,
                },
            ),
            final(self).tab_manager.tabs_of() == old(self).tab_manager.tabs_of(),
            final(self).tab_manager.active() == old(self).tab_manager.active(),
            final(self).tab_manager.wf() == old(self).tab_manager.wf(),
    {
        let mut title = match self.tab_manager.get_active_tab() {
            Some(t) => match t.get_state().title {
                Some(s) => s,
                None => "New Tab".to_string(),
            },
            None => "New Tab".to_string(),
        };
        title.append(" - Rusty Browser");
        self.title = title;
    }

    /// Move the window.
    pub fn set_position(&mut self, x: i32, y: i32)
        ensures
            final(self).position == (WindowPosition { x, y }),
            final(self).size == old(self).size,
            final(self).state == old(self).state,
    {
        self.position.x = x;
        self.position.y = y;
    }

    /// Resize the window.
    pub fn set_size(&mut self, width: u32, height: u32)
        ensures
            final(self).size == (WindowSize { width, height }),
            final(self).position == old(self).position,
            final(self).state == old(self).state,
    {
        self.size.width = width;
        self.size.height = height;
    }

    /// Set the display state.
    pub fn set_state(&mut self, state: WindowState)
        ensures
            final(self).state == state,
            final(self).position == old(self).position,
            final(self).size == old(self).size,
    {
        self.state = state;
    }

    /// The position.
    pub fn get_position(&self) -> (r: WindowPosition)
        ensures
            r == self.position,
    {
        self.position
    }

    /// The size.
    pub fn get_size(&self) -> (r: WindowSize)
        ensures
            r == self.size,
    {
        self.size
    }

    /// The display state.
    pub fn get_state(&self) -> (r: WindowState)
        ensures
            r == self.state,
    {
        self.state
    }
}

/// Whether a window with this identifier is in the list.
pub open spec fn has_window(s: Seq<Window>, id: WindowId) -> bool {
    exists|i: int| 0 <= i < s.len() && (#[trigger] s[i]).id == id
}

/// `i` is the first position of a window with this identifier.
pub open spec fn is_first_window(s: Seq<Window>, id: WindowId, i: int) -> bool {
    &&& 0 <= i < s.len()
    &&& s[i].id == id
    &&& forall|k: int| 0 <= k < i ==> (#[trigger] s[k]).id != id
}

/// The first position of a window with this identifier.
pub open spec fn first_window(s: Seq<Window>, id: WindowId) -> int {
    choose|i: int| is_first_window(s, id, i)
}

/// The active window after closing the window at `i` (the list is now
/// `rest`): when it was active, the window before it (or the new first
/// window) becomes active, if any is left.
pub open spec fn active_window_after_close(active: Option<WindowId>, closed: WindowId, rest: Seq<Window>, i: int) -> Option<WindowId> {
    if active == Some(closed) {
        let j = if i > 0 { i - 1 } else { 0 };
        if j < rest.len() { Some(rest[j].id) } else { None }
    } else {
        active
    }
}

fn find_window(ws: &Vec<Window>, id: WindowId) -> (r: Option<usize>)
    ensures
        match r {
            Some(i) => is_first_window(ws@, id, i as int) && has_window(ws@, id) && first_window(ws@, id) == i,
            None => !has_window(ws@, id),
        },
{
    let mut i: usize = 0;
    while i < ws.len()
        invariant
            i <= ws@.len(),
            forall|k: int| 0 <= k < i ==> (#[trigger] ws@[k]).id != id,
        decreases ws.len() - i,
    {
        if ws[i].id == id {
            assert(is_first_window(ws@, id, i as int));
            assert(has_window(ws@, id));
            let ghost j = first_window(ws@, id);
            assert(is_first_window(ws@, id, j));
            assert(j == i as int) by {
                if j < i {
                    assert(ws@[j].id != id);
                } else if j > i {
                    assert(ws@[i as int].id != id);
                }
            }
            return Some(i);
        }
        i = i + 1;
    }
    None
}

/// The windows of the browser and which one is active.
pub struct WindowManager {
    windows: Vec<Window>,
    active_window: Option<WindowId>,
}

impl WindowManager {
    /// The windows, in creation order.
    pub closed spec fn windows_of(&self) -> Seq<Window> {
        self.windows@
    }

    /// The active window's identifier.
    pub closed spec fn active(&self) -> Option<WindowId> {
        self.active_window
    }

    /// No windows.
    pub fn new() -> (m: Self)
        ensures
            m.windows_of().len() == 0,
            m.active() is None,
    {
        WindowManager { windows: Vec::new(), active_window: None }
    }

    /// Open a window holding one tab and make it active; returns a copy of
    /// the window (which, being a copy, lists no tabs).
    pub fn create_window(&mut self, is_private: bool) -> (w: Window)
        ensures
            final(self).windows_of().drop_last() == old(self).windows_of(),
            final(self).windows_of().len() == old(self).windows_of().len() + 1,
            final(self).windows_of().last().tab_manager.tabs_of().len() == 1,
            final(self).windows_of().last().is_private == is_private,
            final(self).active() == Some(final(self).windows_of().last().id),
            w.id == final(self).windows_of().last().id,
            w.is_private == is_private,
            w.tab_manager.tabs_of().len() == 0,
    {
        let mut window = Window::new(is_private);
        let _ = window.create_tab();
        let id = window.id;
        let ghost w0 = self.windows@;
        let copy = window.clone();
        self.windows.push(window);
        assert(self.windows@.drop_last() =~= w0);
        self.active_window = Some(id);
        copy
    }

    /// Close the window `id`; returns the active window afterwards, or
    /// nothing when there is no such window.
    pub fn close_window(&mut self, id: WindowId) -> (r: Option<WindowId>)
        ensures
            !has_window(old(self).windows_of(), id) ==> r is None && final(self).windows_of() == old(self).windows_of()
                && final(self).active() == old(self).active(),
            has_window(old(self).windows_of(), id) ==> {
                let i = first_window(old(self).windows_of(), id);
                let rest = old(self).windows_of().remove(i);
                &&& final(self).windows_of() == rest
                &&& final(self).active() == active_window_after_close(old(self).active(), id, rest, i)
                &&& r == final(self).active()
            },
    {
        match find_window(&self.windows, id) {
            Some(index) => {
                let ghost w0 = self.windows@;
                self.windows.remove(index);
                assert(self.windows@ =~= w0.remove(index as int));
                if self.active_window == Some(id) {
                    let j = index.saturating_sub(1);
                    self.active_window = if j < self.windows.len() {
                        Some(self.windows[j].id)
                    } else {
                        None
                    };
                }
                self.active_window
            },
            None => None,
        }
    }

    /// A copy of the window `id` (listing no tabs).
    pub fn get_window(&self, id: WindowId) -> (r: Option<Window>)
        ensures
            match r {
                Some(w) => has_window(self.windows_of(), id) && w.id == id && w.title@ == self.windows_of()[first_window(
                    self.windows_of(),
                    id,
                )].title@ && w.tab_manager.tabs_of().len() == 0,
                None => !has_window(self.windows_of(), id),
            },
    {
        match find_window(&self.windows, id) {
            Some(i) => Some(self.windows[i].clone()),
            None => None,
        }
    }

    /// A copy of the active window.
    pub fn get_active_window(&self) -> (r: Option<Window>)
        ensures
            match r {
                Some(w) => self.active() == Some(w.id) && has_window(self.windows_of(), w.id),
                None => self.active() is None || !has_window(self.windows_of(), self.active().unwrap()),
            },
    {
        match self.active_window {
            Some(id) => self.get_window(id),
            None => None,
        }
    }

    /// Make the window `id` active; false (and no change) when there is no
    /// such window.
    pub fn set_active_window(&mut self, id: WindowId) -> (ok: bool)
        ensures
            ok == has_window(old(self).windows_of(), id),
            final(self).windows_of() == old(self).windows_of(),
            ok ==> final(self).active() == Some(id),
            !ok ==> final(self).active() == old(self).active(),
    {
        match find_window(&self.windows, id) {
            Some(_) => {
                self.active_window = Some(id);
                true
            },
            None => false,
        }
    }

    /// Copies of all windows (listing no tabs).
    pub fn get_all_windows(&self) -> (r: Vec<Window>)
        ensures
            r@.len() == self.windows_of().len(),
            forall|i: int| 0 <= i < r@.len() ==> (#[trigger] r@[i]).id == self.windows_of()[i].id,
    {
        let mut r: Vec<Window> = Vec::new();
        let mut i: usize = 0;
        while i < self.windows.len()
            invariant
                i <= self.windows@.len(),
                r@.len() == i,
                forall|k: int| 0 <= k < i ==> (#[trigger] r@[k]).id == self.windows@[k].id,
            decreases self.windows.len() - i,
        {
            r.push(self.windows[i].clone());
            i = i + 1;
        }
        r
    }

    /// Number of windows.
    pub fn get_window_count(&self) -> (n: usize)
        ensures
            n == self.windows_of().len(),
    {
        self.windows.len()
    }
}

} // verus!
