//! The two-window browser: navigation in the main window, the control
//! panel with its tool panels in a tools window that opens and closes on
//! request. Each message updates the state and yields one effect.
use vstd::prelude::*;
use crate::browser_app::START_PAGE;
use crate::control_panel::ToolCategory;
use crate::hybrid_app::{hybrid_url, opt_view};
use crate::panels::{
    ai_after, automation_after, devtools_after, extraction_after, network_after, settings_after, sidebar_after,
    AiMessage, AiPanel, AiPanelView, AutomationMessage, AutomationPanel, AutomationView, DevToolsMessage,
    DevToolsPanel, DevToolsView, ExtractionMessage, ExtractionPanel, ExtractionView, NetworkMessage, NetworkPanel,
    NetworkView, SettingsMessage, SettingsPanel, Sidebar, SidebarMessage,
};
use crate::text::{owned, str_eq, str_starts_with};
use crate::theme::ThemeMode;

verus! {

/// The main window and, while it is open, the tools window.
#[derive(Debug, Clone, Copy, PartialEq, Eq, Structural)]
pub struct WindowIds {
    pub main: u64,
    pub tools: Option<u64>,
}

/// Messages of the two-window browser.
pub enum Message {
    OpenToolsWindow,
    CloseToolsWindow,
    ToolsWindowOpened(u64),
    ToolsWindowClosed(u64),
    Sidebar(SidebarMessage),
    NetworkPanel(NetworkMessage),
    AiPanel(AiMessage),
    AutomationPanel(AutomationMessage),
    ExtractionPanel(ExtractionMessage),
    DevToolsPanel(DevToolsMessage),
    SettingsPanel(SettingsMessage),
    UrlChanged(String),
    NavigateSubmitted,
    NavigateTo(String),
    GoBack,
    GoForward,
    Reload,
    StopLoading,
    NewTab,
}

/// What the caller does after an update.
pub enum TwoWindowEffect {
    Nothing,
    /// Handle this message next.
    Dispatch(Message),
    /// Open the tools window and report it with `ToolsWindowOpened`.
    OpenToolsWindow,
    /// Close this window.
    CloseWindow(u64),
}

/// Mathematical value of [`TwoWindowBrowser`].
pub struct TwoWindowView {
    pub windows: WindowIds,
    pub current_url: Seq<char>,
    pub is_loading: bool,
    pub title: Option<Seq<char>>,
    pub sidebar: Sidebar,
    pub network: NetworkView,
    pub ai: AiPanelView,
    pub automation: AutomationView,
    pub extraction: ExtractionView,
    pub devtools: DevToolsView,
    pub settings: SettingsPanel,
}

/// The state after message `m`.
pub open spec fn two_window_after(v: TwoWindowView, m: Message) -> TwoWindowView {
    match m {
        Message::CloseToolsWindow => TwoWindowView { windows: WindowIds { tools: None, ..v.windows }, ..v },
        Message::ToolsWindowOpened(id) => TwoWindowView { windows: WindowIds { tools: Some(id), ..v.windows }, ..v },
        Message::ToolsWindowClosed(id) => if v.windows.tools == Some(id) {
            TwoWindowView { windows: WindowIds { tools: None, ..v.windows }, ..v }
        } else {
            v
        },
        Message::Sidebar(msg) => TwoWindowView { sidebar: sidebar_after(v.sidebar, msg), ..v },
        Message::NetworkPanel(msg) => TwoWindowView { network: network_after(v.network, msg), ..v },
        Message::AiPanel(msg) => TwoWindowView { ai: ai_after(v.ai, msg), ..v },
        Message::AutomationPanel(msg) => TwoWindowView { automation: automation_after(v.automation, msg), ..v },
        Message::ExtractionPanel(msg) => TwoWindowView { extraction: extraction_after(v.extraction, msg), ..v },
        Message::DevToolsPanel(msg) => TwoWindowView { devtools: devtools_after(v.devtools, msg), ..v },
        Message::SettingsPanel(msg) => TwoWindowView { settings: settings_after(v.settings, msg), ..v },
        Message::UrlChanged(u) => TwoWindowView { current_url: u@, ..v },
        Message::NavigateTo(u) => if v.current_url != u@ {
            TwoWindowView { current_url: u@, is_loading: true, ..v }
        } else {
            v
        },
        Message::StopLoading => TwoWindowView { is_loading: false, ..v },
        _ => v,
    }
}

/// Whether `e` is the effect that message `m` yields in state `v`.
pub open spec fn two_window_effect(v: TwoWindowView, m: Message, e: TwoWindowEffect) -> bool {
    match m {
        Message::OpenToolsWindow => if v.windows.tools is None { e is OpenToolsWindow } else { e is Nothing },
        Message::CloseToolsWindow => match v.windows.tools {
            Some(id) => e matches TwoWindowEffect::CloseWindow(w) && w == id,
            None => e is Nothing,
        },
        Message::NavigateSubmitted => e matches TwoWindowEffect::Dispatch(Message::NavigateTo(u)) && u@ == hybrid_url(
            v.current_url,
        ),
        Message::NewTab => e matches TwoWindowEffect::Dispatch(Message::NavigateTo(u)) && u@ == START_PAGE@,
        _ => e is Nothing,
    }
}

/// The state of the two-window browser.
pub struct TwoWindowBrowser {
    windows: WindowIds,
    sidebar: Sidebar,
    network_panel: NetworkPanel,
    ai_panel: AiPanel,
    automation_panel: AutomationPanel,
    extraction_panel: ExtractionPanel,
    devtools_panel: DevToolsPanel,
    settings_panel: SettingsPanel,
    current_url: String,
    is_loading: bool,
    active_tab_title: Option<String>,
}

impl View for TwoWindowBrowser {
    type V = TwoWindowView;

    closed spec fn view(&self) -> TwoWindowView {
        TwoWindowView {
            windows: self.windows,
            current_url: self.current_url@,
            is_loading: self.is_loading,
            title: opt_view(self.active_tab_title),
            sidebar: self.sidebar,
            network: self.network_panel@,
            ai: self.ai_panel@,
            automation: self.automation_panel@,
            extraction: self.extraction_panel@,
            devtools: self.devtools_panel@,
            settings: self.settings_panel,
        }
    }
}

impl TwoWindowBrowser {
    /// The title of window `window_id`: the main window's names the active
    /// tab, the tools window's says so.
    pub fn title(&self, window_id: u64) -> (r: String)
        ensures
            r@ == if window_id == self@.windows.main {
                match self@.title {
                    Some(t) => if t.len() > 0 { t + " - Rusty Browser"@ } else { "Rusty Browser"@ },
                    None => "Rusty Browser"@,
                }
            } else if self@.windows.tools == Some(window_id) {
                "Tools - Rusty Browser"@
            } else {
                "Rusty Browser"@
            },
    {
        if window_id != self.windows.main {
            if self.windows.tools == Some(window_id) {
                return "Tools - Rusty Browser".to_string();
            }
            return "Rusty Browser".to_string();
        }
        match &self.active_tab_title {
            Some(t) => {
                if t.as_str().unicode_len() > 0 {
                    let mut r = owned(t.as_str());
                    r.append(" - Rusty Browser");
                    r
                } else {
                    "Rusty Browser".to_string()
                }
            },
            None => "Rusty Browser".to_string(),
        }
    }

    /// The colour scheme of every window: dark.
    pub fn theme(&self, _window_id: u64) -> (t: ThemeMode)
        ensures
            t == ThemeMode::Dark,
    {
        ThemeMode::Dark
    }

    /// Handle `message`: the state changes as [`two_window_after`] says and
    /// the returned effect is the one [`two_window_effect`] names.
    pub fn update(&mut self, message: Message) -> (r: TwoWindowEffect)
        ensures
            final(self)@ == two_window_after(old(self)@, message),
            two_window_effect(old(self)@, message, r),
    {
        match message {
            Message::OpenToolsWindow => {
                if self.windows.tools.is_none() {
                    TwoWindowEffect::OpenToolsWindow
                } else {
                    TwoWindowEffect::Nothing
                }
            },
            Message::CloseToolsWindow => {
                match self.windows.tools {
                    Some(id) => {
                        self.windows.tools = None;
                        TwoWindowEffect::CloseWindow(id)
                    },
                    None => TwoWindowEffect::Nothing,
                }
            },
            Message::ToolsWindowOpened(id) => {
                self.windows.tools = Some(id);
                TwoWindowEffect::Nothing
            },
            Message::ToolsWindowClosed(id) => {
                if self.windows.tools == Some(id) {
                    self.windows.tools = None;
                }
                TwoWindowEffect::Nothing
            },
            Message::Sidebar(msg) => {
                self.sidebar.update(msg);
                TwoWindowEffect::Nothing
            },
            Message::NetworkPanel(msg) => {
                self.network_panel.update(msg);
                TwoWindowEffect::Nothing
            },
            Message::AiPanel(msg) => {
                self.ai_panel.update(msg);
                TwoWindowEffect::Nothing
            },
            Message::AutomationPanel(msg) => {
                self.automation_panel.update(msg);
                TwoWindowEffect::Nothing
            },
            Message::ExtractionPanel(msg) => {
                self.extraction_panel.update(msg);
                TwoWindowEffect::Nothing
            },
            Message::DevToolsPanel(msg) => {
                self.devtools_panel.update(msg);
                TwoWindowEffect::Nothing
            },
            Message::SettingsPanel(msg) => {
                self.settings_panel.update(msg);
                TwoWindowEffect::Nothing
            },
            Message::UrlChanged(u) => {
                self.current_url = u;
                TwoWindowEffect::Nothing
            },
            Message::NavigateSubmitted => {
                let cur = self.current_url.as_str();
                if str_starts_with(cur, "http://") || str_starts_with(cur, "https://") || str_starts_with(cur, "about:") {
                    TwoWindowEffect::Dispatch(Message::NavigateTo(owned(cur)))
                } else {
                    let mut u = "https://".to_string();
                    u.append(cur);
                    TwoWindowEffect::Dispatch(Message::NavigateTo(u))
                }
            },
            Message::NavigateTo(u) => {
                if !str_eq(self.current_url.as_str(), u.as_str()) {
                    self.current_url = u;
                    self.is_loading = true;
                }
                TwoWindowEffect::Nothing
            },
            Message::GoBack | Message::GoForward | Message::Reload => TwoWindowEffect::Nothing,
            Message::StopLoading => {
                self.is_loading = false;
                TwoWindowEffect::Nothing
            },
            Message::NewTab => TwoWindowEffect::Dispatch(Message::NavigateTo(START_PAGE.to_string())),
        }
    }
}

impl TwoWindowBrowser {
    /// A browser whose main window is `main_window`, without a tools
    /// window; network tools selected in an expanded panel; the start page
    /// loading, titled "New Tab".
    pub fn new(main_window: u64) -> (a: Self)
        ensures
            a@.windows == (WindowIds { main: main_window, tools: None }),
            a@.current_url == START_PAGE@,
            a@.is_loading,
            a@.title == Some("New Tab"@),
            a@.sidebar.expanded,
            a@.sidebar.selected == ToolCategory::Network,
    {
        TwoWindowBrowser {
            windows: WindowIds { main: main_window, tools: None },
            sidebar: Sidebar::new(true, ToolCategory::Network),
            network_panel: NetworkPanel::new(),
            ai_panel: AiPanel::new(),
            automation_panel: AutomationPanel::new(),
            extraction_panel: ExtractionPanel::new(),
            devtools_panel: DevToolsPanel::new(),
            settings_panel: SettingsPanel::new(),
            current_url: START_PAGE.to_string(),
            is_loading: true,
            active_tab_title: Some("New Tab".to_string()),
        }
    }
}

} // verus!
