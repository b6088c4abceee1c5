//! The main browser window's state and how it reacts to messages: the
//! address bar's text, whether a page loads, and the session's windows and
//! tabs. Each update returns the message that the work it started yields.
use vstd::prelude::*;
use crate::browser_session::{other_tab, BrowserSession, BrowserTabView, TabId, WindowManager};
use crate::text::{owned, str_starts_with};

verus! {

/// The page a new tab opens.
pub const START_PAGE: &'static str = "https://start.duckduckgo.com";

/// Messages of the browser window.
#[derive(Debug, Clone)]
pub enum Message {
    UrlChanged(String),
    NavigateSubmitted,
    NavigateTo(String),
    GoBack,
    GoForward,
    Reload,
    StopLoading,
    NewTab,
    CloseTab(TabId),
    SwitchTab(TabId),
    LoadingStarted,
    LoadingFinished,
    LoadingFailed(String),
}

/// The window's title for the active tab's title.
pub open spec fn app_title(t: Option<Seq<char>>) -> Seq<char> {
    match t {
        Some(s) => if s.len() > 0 { s + " - Rusty Browser"@ } else { "Rusty Browser"@ },
        None => "Rusty Browser"@,
    }
}

/// The URL an address-bar entry stands for: kept when it names the HTTP or
/// HTTPS scheme, else taken as an HTTPS address.
pub open spec fn normalized_url(u: Seq<char>) -> Seq<char> {
    if "http://"@.is_prefix_of(u) || "https://"@.is_prefix_of(u) { u } else { "https://"@ + u }
}

/// Normalizing an address twice gives what normalizing once gives.
pub proof fn law_normalize_idempotent(u: Seq<char>)
    ensures
        normalized_url(normalized_url(u)) == normalized_url(u),
{
    let h = "https://"@;
    if !("http://"@.is_prefix_of(u) || h.is_prefix_of(u)) {
        assert((h + u).subrange(0, h.len() as int) =~= h);
        assert(h.is_prefix_of(h + u));
    }
}

/// The tabs of the active (first) window; none without a window.
pub open spec fn active_tabs(m: WindowManager) -> Seq<BrowserTabView> {
    if m.count() > 0 { m.windows()[0].tab_manager.tabs() } else { Seq::empty() }
}

/// `b` has the windows of `a`, the first one possibly changed.
pub open spec fn other_windows_kept(a: WindowManager, b: WindowManager) -> bool {
    &&& b.count() == a.count()
    &&& forall|i: int| 1 <= i < a.count() ==> #[trigger] b.windows()[i] == a.windows()[i]
}

/// The active tab after it is sent to `url`.
pub open spec fn navigated(tabs: Seq<BrowserTabView>, url: Seq<char>) -> Seq<BrowserTabView> {
    if tabs.len() > 0 { tabs.update(0, BrowserTabView { url, ..tabs[0] }) } else { tabs }
}

/// The state of the browser window.
pub struct BrowserApp {
    session: BrowserSession,
    current_url: String,
    is_loading: bool,
    active_tab_title: Option<String>,
}

impl BrowserApp {
    /// The session's windows.
    pub closed spec fn windows(&self) -> WindowManager {
        self.session.window_manager
    }

    /// The address bar's text.
    pub closed spec fn url(&self) -> Seq<char> {
        self.current_url@
    }

    /// Whether a page loads.
    pub closed spec fn loading(&self) -> bool {
        self.is_loading
    }

    /// The active tab's title, if known.
    pub closed spec fn tab_title(&self) -> Option<Seq<char>> {
        match self.active_tab_title {
            Some(t) => Some(t@),
            None => None,
        }
    }

    /// A fresh session with one blank tab, an empty address bar, nothing
    /// loading and no title.
    pub fn new() -> (a: Self)
        ensures
            a.windows().count() == 1,
            active_tabs(a.windows()).len() == 1,
            active_tabs(a.windows())[0].url == "about:blank"@,
            a.url().len() == 0,
            !a.loading(),
            a.tab_title() is None,
    {
        BrowserApp { session: BrowserSession::new(), current_url: String::new(), is_loading: false, active_tab_title: None }
    }

    /// The window's title.
    pub fn title(&self) -> (r: String)
        ensures
            r@ == app_title(self.tab_title()),
    {
        match &self.active_tab_title {
            Some(t) => {
                if t.as_str().unicode_len() > 0 {
                    let mut r = owned(t.as_str());
                    r.append(" - Rusty Browser");
                    r
                } else {
                    "Rusty Browser".to_string()
                }
            },
            None => "Rusty Browser".to_string(),
        }
    }

    /// Send the active tab, if any, to `url`.
    fn navigate_active_tab(&mut self, url: &str)
        ensures
            other_windows_kept(old(self).windows(), final(self).windows()),
            active_tabs(final(self).windows()) == navigated(active_tabs(old(self).windows()), url@),
            final(self).url() == old(self).url(),
            final(self).loading() == old(self).loading(),
            final(self).tab_title() == old(self).tab_title(),
    {
        match self.session.window_manager.get_active_window_mut() {
            Some(w) => {
                match w.tab_manager.get_active_tab_mut() {
                    Some(t) => {
                        let _ = t.navigate(url);
                    },
                    None => {},
                }
            },
            None => {},
        }
    }

    /// Handle `message`; returns the message that the work it started
    /// yields, if any.
    pub fn update(&mut self, message: Message) -> (r: Option<Message>)
        ensures
            final(self).tab_title() == old(self).tab_title(),
            message matches Message::UrlChanged(u) ==> {
                &&& final(self).url() == u@
                &&& final(self).loading() == old(self).loading()
                &&& final(self).windows() == old(self).windows()
                &&& r is None
            },
            message is NavigateSubmitted ==> {
                &&& final(self).url() == old(self).url()
                &&& final(self).loading() == old(self).loading()
                &&& final(self).windows() == old(self).windows()
                &&& r matches Some(Message::NavigateTo(u)) && u@ == normalized_url(old(self).url())
            },
            message matches Message::NavigateTo(u) ==> {
                &&& final(self).url() == u@
                &&& final(self).loading()
                &&& other_windows_kept(old(self).windows(), final(self).windows())
                &&& active_tabs(final(self).windows()) == navigated(active_tabs(old(self).windows()), u@)
                &&& r matches Some(Message::LoadingStarted)
            },
            message is GoBack || message is GoForward ==> {
                &&& final(self).url() == old(self).url()
                &&& final(self).loading() == old(self).loading()
                &&& final(self).windows() == old(self).windows()
                &&& r matches Some(Message::LoadingFinished)
            },
            message is Reload ==> {
                &&& final(self).url() == old(self).url()
                &&& final(self).loading() == old(self).loading()
                &&& final(self).windows() == old(self).windows()
                &&& if active_tabs(old(self).windows()).len() > 0 {
                    r matches Some(Message::NavigateTo(u)) && u@ == active_tabs(old(self).windows())[0].url
                } else {
                    r matches Some(Message::LoadingFinished)
                }
            },
            message is NewTab ==> {
                &&& final(self).url() == old(self).url()
                &&& final(self).loading() == old(self).loading()
                &&& other_windows_kept(old(self).windows(), final(self).windows())
                &&& if old(self).windows().count() > 0 {
                    &&& exists|id: TabId| active_tabs(final(self).windows()) == #[trigger] active_tabs(old(self).windows()).push(
                        BrowserTabView { id, url: "about:blank"@, title: "New Tab"@ },
                    )
                    &&& r matches Some(Message::NavigateTo(u)) && u@ == START_PAGE@
                } else {
                    &&& final(self).windows() == old(self).windows()
                    &&& r matches Some(Message::LoadingFinished)
                }
            },
            message matches Message::CloseTab(id) ==> {
                &&& final(self).url() == old(self).url()
                &&& final(self).loading() == old(self).loading()
                &&& other_windows_kept(old(self).windows(), final(self).windows())
                &&& active_tabs(final(self).windows()) == if active_tabs(old(self).windows()).len() > 1 {
                    active_tabs(old(self).windows()).filter(other_tab(id))
                } else {
                    active_tabs(old(self).windows())
                }
                &&& r matches Some(Message::LoadingFinished)
            },
            message is SwitchTab ==> {
                &&& final(self).url() == old(self).url()
                &&& final(self).loading() == old(self).loading()
                &&& final(self).windows() == old(self).windows()
                &&& if active_tabs(old(self).windows()).len() > 0 {
                    r matches Some(Message::UrlChanged(u)) && u@ == active_tabs(old(self).windows())[0].url
                } else {
                    r matches Some(Message::LoadingFinished)
                }
            },
            message is LoadingStarted ==> {
                &&& final(self).url() == old(self).url()
                &&& final(self).loading()
                &&& final(self).windows() == old(self).windows()
                &&& r is None
            },
            message is StopLoading || message is LoadingFinished || message is LoadingFailed ==> {
                &&& final(self).url() == old(self).url()
                &&& !final(self).loading()
                &&& final(self).windows() == old(self).windows()
                &&& r is None
            },
    {
        match message {
            Message::UrlChanged(u) => {
                self.current_url = u;
                None
            },
            Message::NavigateSubmitted => {
                let cur = self.current_url.as_str();
                if str_starts_with(cur, "http://") || str_starts_with(cur, "https://") {
                    Some(Message::NavigateTo(owned(cur)))
                } else {
                    let mut u = "https://".to_string();
                    u.append(cur);
                    Some(Message::NavigateTo(u))
                }
            },
            Message::NavigateTo(u) => {
                self.is_loading = true;
                self.navigate_active_tab(u.as_str());
                self.current_url = u;
                Some(Message::LoadingStarted)
            },
            Message::GoBack | Message::GoForward => {
                Some(Message::LoadingFinished)
            },
            Message::Reload => {
                match self.session.window_manager.get_active_window() {
                    Some(w) => match w.tab_manager.get_active_tab() {
                        Some(t) => Some(Message::NavigateTo(t.url)),
                        None => Some(Message::LoadingFinished),
                    },
                    None => Some(Message::LoadingFinished),
                }
            },
            Message::NewTab => {
                let ghost before = active_tabs(self.windows());
                let created = match self.session.window_manager.get_active_window_mut() {
                    Some(w) => {
                        let t = w.create_tab();
                        Some(t.id)
                    },
                    None => None,
                };
                match created {
                    Some(id) => {
                        assert(active_tabs(self.windows()) == before.push(
                            BrowserTabView { id, url: "about:blank"@, title: "New Tab"@ },
                        ));
                        Some(Message::NavigateTo(START_PAGE.to_string()))
                    },
                    None => Some(Message::LoadingFinished),
                }
            },
            Message::CloseTab(id) => {
                match self.session.window_manager.get_active_window_mut() {
                    Some(w) => {
                        proof {
                            w.tab_manager.lemma_ids_of_tabs();
                        }
                        let _ = w.tab_manager.close_tab(id);
                    },
                    None => {},
                }
                Some(Message::LoadingFinished)
            },
            Message::SwitchTab(id) => {
                match self.session.window_manager.get_active_window() {
                    Some(w) => {
                        let _ = w.tab_manager.set_active_tab(id);
                        match w.tab_manager.get_active_tab() {
                            Some(t) => Some(Message::UrlChanged(t.get_state().url)),
                            None => Some(Message::LoadingFinished),
                        }
                    },
                    None => Some(Message::LoadingFinished),
                }
            },
            Message::LoadingStarted => {
                self.is_loading = true;
                None
            },
            Message::StopLoading | Message::LoadingFinished | Message::LoadingFailed(_) => {
                self.is_loading = false;
                None
            },
        }
    }
}

impl Default for BrowserApp {
    fn default() -> (a: Self)
        ensures
            a.windows().count() == 1,
            a.url().len() == 0,
            !a.loading(),
            a.tab_title() is None,
    {
        BrowserApp::new()
    }
}

} // verus!
