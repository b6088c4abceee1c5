//! The hybrid browser: a control panel with its tool panels beside a web
//! view that runs in a window of its own. Each message updates the state
//! and yields one effect for the caller to carry out on the web view or to
//! feed back as the next message.
use vstd::prelude::*;
use crate::browser_app::START_PAGE;
use crate::control_panel::ToolCategory;
use crate::panels::{
    ai_after, automation_after, devtools_after, extraction_after, network_after, settings_after, sidebar_after,
    AiMessage, AiPanel, AiPanelView, AutomationMessage, AutomationPanel, AutomationView, DevToolsMessage,
    DevToolsPanel, DevToolsView, ExtractionMessage, ExtractionPanel, ExtractionView, NetworkMessage, NetworkPanel,
    NetworkView, SettingsMessage, SettingsPanel, Sidebar, SidebarMessage,
};
use crate::text::{owned, str_eq, str_starts_with};
use crate::theme::ThemeMode;
use crate::webview_ipc::WebViewEvent;
use crate::window_layout::WindowPos;

verus! {

/// Width in pixels of the control panel when the sidebar is collapsed.
pub const COLLAPSED_PANEL_WIDTH: u16 = 50;

/// Where the web view window is placed beside the control panel.
pub open spec fn webview_place() -> WindowPos {
    WindowPos { x: 650, y: 100, width: 1100, height: 800 }
}

/// Messages of the hybrid browser.
pub enum Message {
    Sidebar(SidebarMessage),
    NetworkPanel(NetworkMessage),
    AiPanel(AiMessage),
    AutomationPanel(AutomationMessage),
    ExtractionPanel(ExtractionMessage),
    DevToolsPanel(DevToolsMessage),
    SettingsPanel(SettingsMessage),
    UrlChanged(String),
    NavigateSubmitted,
    NavigateTo(String),
    GoBack,
    GoForward,
    Reload,
    StopLoading,
    NewTab,
    /// Events reported by the web view.
    WebView(Vec<WebViewEvent>),
    PollWebView,
    ToggleControlPanel,
    PositionWindows,
}

/// What the caller does after an update.
pub enum HybridEffect {
    /// Nothing.
    Nothing,
    /// Handle this message next.
    Dispatch(Message),
    /// Load this URL in the web view.
    NavigateWebView(String),
    /// Collect the web view's events (see [`after_poll`]).
    PollWebView,
    /// Move and size the web view window.
    PlaceWebView(WindowPos),
}

/// The URL an address-bar entry stands for: kept when it names the HTTP or
/// HTTPS scheme or is an `about:` page, else taken as an HTTPS address.
pub open spec fn hybrid_url(u: Seq<char>) -> Seq<char> {
    if "http://"@.is_prefix_of(u) || "https://"@.is_prefix_of(u) || "about:"@.is_prefix_of(u) {
        u
    } else {
        "https://"@ + u
    }
}

/// Address, title and loading flag after one web view event.
pub open spec fn event_applied(s: (Seq<char>, Option<Seq<char>>, bool), e: WebViewEvent) -> (
    Seq<char>,
    Option<Seq<char>>,
    bool,
) {
    match e {
        WebViewEvent::UrlChanged { url } => (url@, s.1, s.2),
        WebViewEvent::TitleChanged { title } => (s.0, Some(title@), s.2),
        WebViewEvent::LoadStarted { .. } => (s.0, s.1, true),
        WebViewEvent::LoadFinished { .. } => (s.0, s.1, false),
        _ => s,
    }
}

/// Address, title and loading flag after the events, in order.
pub open spec fn events_applied(s: (Seq<char>, Option<Seq<char>>, bool), es: Seq<WebViewEvent>) -> (
    Seq<char>,
    Option<Seq<char>>,
    bool,
)
    decreases es.len(),
{
    if es.len() == 0 {
        s
    } else {
        event_applied(events_applied(s, es.drop_last()), es.last())
    }
}

/// The message that the collected web view events make: none when there
/// are none.
pub fn after_poll(events: Vec<WebViewEvent>) -> (r: Option<Message>)
    ensures
        events@.len() == 0 ==> r is None,
        events@.len() > 0 ==> (r matches Some(Message::WebView(es)) && es@ == events@),
{
    if events.len() == 0 {
        None
    } else {
        Some(Message::WebView(events))
    }
}

/// The characters of an optional string.
pub open spec fn opt_view(o: Option<String>) -> Option<Seq<char>> {
    match o {
        Some(t) => Some(t@),
        None => None,
    }
}

/// Mathematical value of [`HybridBrowserApp`].
pub struct HybridView {
    pub current_url: Seq<char>,
    pub is_loading: bool,
    pub title: Option<Seq<char>>,
    pub webview_url: Seq<char>,
    pub control_panel_width: u16,
    pub windows_positioned: bool,
    pub sidebar: Sidebar,
    pub network: NetworkView,
    pub ai: AiPanelView,
    pub automation: AutomationView,
    pub extraction: ExtractionView,
    pub devtools: DevToolsView,
    pub settings: SettingsPanel,
}

/// The state of the hybrid browser.
pub struct HybridBrowserApp {
    sidebar: Sidebar,
    network_panel: NetworkPanel,
    ai_panel: AiPanel,
    automation_panel: AutomationPanel,
    extraction_panel: ExtractionPanel,
    devtools_panel: DevToolsPanel,
    settings_panel: SettingsPanel,
    current_url: String,
    is_loading: bool,
    active_tab_title: Option<String>,
    webview_url: String,
    control_panel_width: u16,
    windows_positioned: bool,
}

impl View for HybridBrowserApp {
    type V = HybridView;

    closed spec fn view(&self) -> HybridView {
        HybridView {
            current_url: self.current_url@,
            is_loading: self.is_loading,
            title: opt_view(self.active_tab_title),
            webview_url: self.webview_url@,
            control_panel_width: self.control_panel_width,
            windows_positioned: self.windows_positioned,
            sidebar: self.sidebar,
            network: self.network_panel@,
            ai: self.ai_panel@,
            automation: self.automation_panel@,
            extraction: self.extraction_panel@,
            devtools: self.devtools_panel@,
            settings: self.settings_panel,
        }
    }
}

/// The state after message `m`, with the state of the address, title and
/// loading flag given separately.
pub open spec fn with_page(v: HybridView, p: (Seq<char>, Option<Seq<char>>, bool)) -> HybridView {
    HybridView { current_url: p.0, title: p.1, is_loading: p.2, ..v }
}

/// The state after message `m` (web view events aside, see [`events_applied`]).
pub open spec fn hybrid_after(v: HybridView, m: Message) -> HybridView {
    match m {
        Message::Sidebar(msg) => HybridView { sidebar: sidebar_after(v.sidebar, msg), ..v },
        Message::NetworkPanel(msg) => HybridView { network: network_after(v.network, msg), ..v },
        Message::AiPanel(msg) => HybridView { ai: ai_after(v.ai, msg), ..v },
        Message::AutomationPanel(msg) => HybridView { automation: automation_after(v.automation, msg), ..v },
        Message::ExtractionPanel(msg) => HybridView { extraction: extraction_after(v.extraction, msg), ..v },
        Message::DevToolsPanel(msg) => HybridView { devtools: devtools_after(v.devtools, msg), ..v },
        Message::SettingsPanel(msg) => HybridView { settings: settings_after(v.settings, msg), ..v },
        Message::UrlChanged(u) => HybridView { current_url: u@, ..v },
        Message::NavigateTo(u) => if v.current_url != u@ {
            HybridView { current_url: u@, is_loading: true, webview_url: u@, ..v }
        } else {
            v
        },
        Message::Reload => HybridView { webview_url: v.current_url, ..v },
        Message::StopLoading => HybridView { is_loading: false, ..v },
        Message::WebView(es) => with_page(v, events_applied((v.current_url, v.title, v.is_loading), es@)),
        Message::ToggleControlPanel => HybridView { sidebar: sidebar_after(v.sidebar, SidebarMessage::TogglePanel), ..v },
        Message::PositionWindows => HybridView { windows_positioned: true, ..v },
        _ => v,
    }
}

/// Whether `e` is the effect that message `m` yields in state `v`.
pub open spec fn hybrid_effect(v: HybridView, m: Message, e: HybridEffect) -> bool {
    match m {
        Message::NavigateSubmitted => e matches HybridEffect::Dispatch(Message::NavigateTo(u)) && u@ == hybrid_url(
            v.current_url,
        ),
        Message::NavigateTo(u) => if v.current_url != u@ {
            e matches HybridEffect::NavigateWebView(w) && w@ == u@
        } else {
            e is Nothing
        },
        Message::Reload => e matches HybridEffect::NavigateWebView(w) && w@ == v.current_url,
        Message::NewTab => e matches HybridEffect::Dispatch(Message::NavigateTo(u)) && u@ == START_PAGE@,
        Message::PollWebView => e is PollWebView,
        Message::PositionWindows => if !v.windows_positioned {
            e matches HybridEffect::PlaceWebView(p) && p == webview_place()
        } else {
            e is Nothing
        },
        _ => e is Nothing,
    }
}

/// The web view window is placed once: a second request after the first
/// does nothing.
pub proof fn law_windows_positioned_once(v: HybridView, e: HybridEffect)
    requires
        hybrid_effect(hybrid_after(v, Message::PositionWindows), Message::PositionWindows, e),
    ensures
        e is Nothing,
{
}

/// Apply web view events in order to address, title and loading flag.
fn apply_events(url: &mut String, title: &mut Option<String>, loading: &mut bool, events: &Vec<WebViewEvent>)
    ensures
        ({
            let p = events_applied(
                (old(url)@, opt_view(*old(title)), *old(loading)),
                events@,
            );
            &&& final(url)@ == p.0
            &&& (opt_view(*final(title))) == p.1
            &&& *final(loading) == p.2
        }),
{
    let ghost start = (url@, opt_view(*title), *loading);
    let mut i: usize = 0;
    while i < events.len()
        invariant
            i <= events@.len(),
            start == (old(url)@, opt_view(*old(title)), *old(loading)),
            ({
                let p = events_applied(start, events@.take(i as int));
                &&& url@ == p.0
                &&& (opt_view(*title)) == p.1
                &&& *loading == p.2
            }),
        decreases events@.len() - i,
    {
        assert(events@.take(i + 1).drop_last() =~= events@.take(i as int));
        match &events[i] {
            WebViewEvent::UrlChanged { url: u } => {
                *url = owned(u.as_str());
            },
            WebViewEvent::TitleChanged { title: t } => {
                *title = Some(owned(t.as_str()));
            },
            WebViewEvent::LoadStarted { .. } => {
                *loading = true;
            },
            WebViewEvent::LoadFinished { .. } => {
                *loading = false;
            },
            _ => {},
        }
        i = i + 1;
    }
    assert(events@.take(i as int) =~= events@);
}

impl HybridBrowserApp {
    /// The window's title for the active tab's title.
    pub fn title(&self) -> (r: String)
        ensures
            r@ == match self@.title {
                Some(t) => if t.len() > 0 { t + " - Rusty Browser Hybrid"@ } else { "Rusty Browser Hybrid"@ },
                None => "Rusty Browser Hybrid"@,
            },
    {
        match &self.active_tab_title {
            Some(t) => {
                if t.as_str().unicode_len() > 0 {
                    let mut r = owned(t.as_str());
                    r.append(" - Rusty Browser Hybrid");
                    r
                } else {
                    "Rusty Browser Hybrid".to_string()
                }
            },
            None => "Rusty Browser Hybrid".to_string(),
        }
    }

    /// The colour scheme: dark.
    pub fn theme(&self) -> (t: ThemeMode)
        ensures
            t == ThemeMode::Dark,
    {
        ThemeMode::Dark
    }

    /// The control panel's width: the configured width while the sidebar is
    /// expanded, the collapsed width otherwise.
    pub fn control_panel_width(&self) -> (w: u16)
        ensures
            w == if self@.sidebar.expanded { self@.control_panel_width } else { COLLAPSED_PANEL_WIDTH },
    {
        if self.sidebar.is_expanded() {
            self.control_panel_width
        } else {
            COLLAPSED_PANEL_WIDTH
        }
    }

    /// The effect that starting the browser has: loading the start page.
    pub fn startup(&self) -> (e: HybridEffect)
        ensures
            e matches HybridEffect::NavigateWebView(u) && u@ == self@.webview_url,
    {
        HybridEffect::NavigateWebView(owned(self.webview_url.as_str()))
    }

    /// Handle `message`: the state changes as [`hybrid_after`] says and the
    /// returned effect is the one [`hybrid_effect`] names.
    pub fn update(&mut self, message: Message) -> (e: HybridEffect)
        ensures
            final(self)@ == hybrid_after(old(self)@, message),
            hybrid_effect(old(self)@, message, e),
    {
        match message {
            Message::Sidebar(msg) => {
                self.sidebar.update(msg);
                HybridEffect::Nothing
            },
            Message::NetworkPanel(msg) => {
                self.network_panel.update(msg);
                HybridEffect::Nothing
            },
            Message::AiPanel(msg) => {
                self.ai_panel.update(msg);
                HybridEffect::Nothing
            },
            Message::AutomationPanel(msg) => {
                self.automation_panel.update(msg);
                HybridEffect::Nothing
            },
            Message::ExtractionPanel(msg) => {
                self.extraction_panel.update(msg);
                HybridEffect::Nothing
            },
            Message::DevToolsPanel(msg) => {
                self.devtools_panel.update(msg);
                HybridEffect::Nothing
            },
            Message::SettingsPanel(msg) => {
                self.settings_panel.update(msg);
                HybridEffect::Nothing
            },
            Message::UrlChanged(u) => {
                self.current_url = u;
                HybridEffect::Nothing
            },
            Message::NavigateSubmitted => {
                let cur = self.current_url.as_str();
                if str_starts_with(cur, "http://") || str_starts_with(cur, "https://") || str_starts_with(cur, "about:") {
                    HybridEffect::Dispatch(Message::NavigateTo(owned(cur)))
                } else {
                    let mut u = "https://".to_string();
                    u.append(cur);
                    HybridEffect::Dispatch(Message::NavigateTo(u))
                }
            },
            Message::NavigateTo(u) => {
                if !str_eq(self.current_url.as_str(), u.as_str()) {
                    self.is_loading = true;
                    self.webview_url = owned(u.as_str());
                    let nav = owned(u.as_str());
                    self.current_url = u;
                    HybridEffect::NavigateWebView(nav)
                } else {
                    HybridEffect::Nothing
                }
            },
            Message::GoBack | Message::GoForward => HybridEffect::Nothing,
            Message::Reload => {
                self.webview_url = owned(self.current_url.as_str());
                HybridEffect::NavigateWebView(owned(self.current_url.as_str()))
            },
            Message::StopLoading => {
                self.is_loading = false;
                HybridEffect::Nothing
            },
            Message::NewTab => HybridEffect::Dispatch(Message::NavigateTo(START_PAGE.to_string())),
            Message::WebView(events) => {
                apply_events(&mut self.current_url, &mut self.active_tab_title, &mut self.is_loading, &events);
                HybridEffect::Nothing
            },
            Message::PollWebView => HybridEffect::PollWebView,
            Message::ToggleControlPanel => {
                self.sidebar.update(SidebarMessage::TogglePanel);
                HybridEffect::Nothing
            },
            Message::PositionWindows => {
                if !self.windows_positioned {
                    self.windows_positioned = true;
                    HybridEffect::PlaceWebView(WindowPos { x: 650, y: 100, width: 1100, height: 800 })
                } else {
                    HybridEffect::Nothing
                }
            },
        }
    }
}

impl Default for HybridBrowserApp {
    /// Network tools shown in an expanded 500-pixel panel; the start page
    /// loading, titled "New Tab"; windows not yet placed.
    fn default() -> (a: Self)
        ensures
            a@.current_url == START_PAGE@,
            a@.webview_url == START_PAGE@,
            a@.is_loading,
            a@.title == Some("New Tab"@),
            a@.control_panel_width == 500,
            !a@.windows_positioned,
            a@.sidebar.expanded,
            a@.sidebar.selected == ToolCategory::Network,
    {
        HybridBrowserApp {
            sidebar: Sidebar::new(true, ToolCategory::Network),
            network_panel: NetworkPanel::new(),
            ai_panel: AiPanel::new(),
            automation_panel: AutomationPanel::new(),
            extraction_panel: ExtractionPanel::new(),
            devtools_panel: DevToolsPanel::new(),
            settings_panel: SettingsPanel::new(),
            current_url: START_PAGE.to_string(),
            is_loading: true,
            active_tab_title: Some("New Tab".to_string()),
            webview_url: START_PAGE.to_string(),
            control_panel_width: 500,
            windows_positioned: false,
        }
    }
}

} // verus!
