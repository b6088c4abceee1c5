//! The single-window browser: navigation controls and the control panel
//! with its tool panels in one window. Each message updates the state and
//! may yield the message to handle next.
use vstd::prelude::*;
use crate::browser_app::START_PAGE;
use crate::control_panel::ToolCategory;
use crate::hybrid_app::{hybrid_url, opt_view, COLLAPSED_PANEL_WIDTH};
use crate::panels::{
    ai_after, automation_after, devtools_after, extraction_after, network_after, settings_after, sidebar_after,
    AiMessage, AiPanel, AiPanelView, AutomationMessage, AutomationPanel, AutomationView, DevToolsMessage,
    DevToolsPanel, DevToolsView, ExtractionMessage, ExtractionPanel, ExtractionView, NetworkMessage, NetworkPanel,
    NetworkView, SettingsMessage, SettingsPanel, Sidebar, SidebarMessage,
};
use crate::text::{owned, str_eq, str_starts_with};
use crate::theme::ThemeMode;

verus! {

/// Messages of the single-window browser.
pub enum Message {
    Sidebar(SidebarMessage),
    NetworkPanel(NetworkMessage),
    AiPanel(AiMessage),
    AutomationPanel(AutomationMessage),
    ExtractionPanel(ExtractionMessage),
    DevToolsPanel(DevToolsMessage),
    SettingsPanel(SettingsMessage),
    UrlChanged(String),
    NavigateSubmitted,
    NavigateTo(String),
    GoBack,
    GoForward,
    Reload,
    StopLoading,
    NewTab,
    ToggleControlPanel,
}

/// Mathematical value of [`SingleWindowBrowser`].
pub struct SingleWindowView {
    pub current_url: Seq<char>,
    pub is_loading: bool,
    pub title: Option<Seq<char>>,
    pub control_panel_width: u16,
    pub sidebar: Sidebar,
    pub network: NetworkView,
    pub ai: AiPanelView,
    pub automation: AutomationView,
    pub extraction: ExtractionView,
    pub devtools: DevToolsView,
    pub settings: SettingsPanel,
}

/// The state after message `m`.
pub open spec fn single_after(v: SingleWindowView, m: Message) -> SingleWindowView {
    match m {
        Message::Sidebar(msg) => SingleWindowView { sidebar: sidebar_after(v.sidebar, msg), ..v },
        Message::NetworkPanel(msg) => SingleWindowView { network: network_after(v.network, msg), ..v },
        Message::AiPanel(msg) => SingleWindowView { ai: ai_after(v.ai, msg), ..v },
        Message::AutomationPanel(msg) => SingleWindowView { automation: automation_after(v.automation, msg), ..v },
        Message::ExtractionPanel(msg) => SingleWindowView { extraction: extraction_after(v.extraction, msg), ..v },
        Message::DevToolsPanel(msg) => SingleWindowView { devtools: devtools_after(v.devtools, msg), ..v },
        Message::SettingsPanel(msg) => SingleWindowView { settings: settings_after(v.settings, msg), ..v },
        Message::UrlChanged(u) => SingleWindowView { current_url: u@, ..v },
        Message::NavigateTo(u) => if v.current_url != u@ {
            SingleWindowView { current_url: u@, is_loading: true, ..v }
        } else {
            v
        },
        Message::StopLoading => SingleWindowView { is_loading: false, ..v },
        Message::ToggleControlPanel => SingleWindowView {
            sidebar: sidebar_after(v.sidebar, SidebarMessage::TogglePanel),
            ..v
        },
        _ => v,
    }
}

/// Whether `r` is the follow-up message that `m` yields in state `v`.
pub open spec fn single_next(v: SingleWindowView, m: Message, r: Option<Message>) -> bool {
    match m {
        Message::NavigateSubmitted => r matches Some(Message::NavigateTo(u)) && u@ == hybrid_url(v.current_url),
        Message::NewTab => r matches Some(Message::NavigateTo(u)) && u@ == START_PAGE@,
        _ => r is None,
    }
}

/// The state of the single-window browser.
pub struct SingleWindowBrowser {
    sidebar: Sidebar,
    network_panel: NetworkPanel,
    ai_panel: AiPanel,
    automation_panel: AutomationPanel,
    extraction_panel: ExtractionPanel,
    devtools_panel: DevToolsPanel,
    settings_panel: SettingsPanel,
    current_url: String,
    is_loading: bool,
    active_tab_title: Option<String>,
    control_panel_width: u16,
}

impl View for SingleWindowBrowser {
    type V = SingleWindowView;

    closed spec fn view(&self) -> SingleWindowView {
        SingleWindowView {
            current_url: self.current_url@,
            is_loading: self.is_loading,
            title: opt_view(self.active_tab_title),
            control_panel_width: self.control_panel_width,
            sidebar: self.sidebar,
            network: self.network_panel@,
            ai: self.ai_panel@,
            automation: self.automation_panel@,
            extraction: self.extraction_panel@,
            devtools: self.devtools_panel@,
            settings: self.settings_panel,
        }
    }
}

impl SingleWindowBrowser {
    /// The window's title for the active tab's title.
    pub fn title(&self) -> (r: String)
        ensures
            r@ == match self@.title {
                Some(t) => if t.len() > 0 { t + " - Rusty Browser"@ } else { "Rusty Browser"@ },
                None => "Rusty Browser"@,
            },
    {
        match &self.active_tab_title {
            Some(t) => {
                if t.as_str().unicode_len() > 0 {
                    let mut r = owned(t.as_str());
                    r.append(" - Rusty Browser");
                    r
                } else {
                    "Rusty Browser".to_string()
                }
            },
            None => "Rusty Browser".to_string(),
        }
    }

    /// The colour scheme: dark.
    pub fn theme(&self) -> (t: ThemeMode)
        ensures
            t == ThemeMode::Dark,
    {
        ThemeMode::Dark
    }

    /// The control panel's width: the configured width while the sidebar is
    /// expanded, the collapsed width otherwise.
    pub fn control_panel_width(&self) -> (w: u16)
        ensures
            w == if self@.sidebar.expanded { self@.control_panel_width } else { COLLAPSED_PANEL_WIDTH },
    {
        if self.sidebar.is_expanded() {
            self.control_panel_width
        } else {
            COLLAPSED_PANEL_WIDTH
        }
    }

    /// Handle `message`: the state changes as [`single_after`] says and the
    /// returned message is the one [`single_next`] names.
    pub fn update(&mut self, message: Message) -> (r: Option<Message>)
        ensures
            final(self)@ == single_after(old(self)@, message),
            single_next(old(self)@, message, r),
    {
        match message {
            Message::Sidebar(msg) => {
                self.sidebar.update(msg);
                None
            },
            Message::NetworkPanel(msg) => {
                self.network_panel.update(msg);
                None
            },
            Message::AiPanel(msg) => {
                self.ai_panel.update(msg);
                None
            },
            Message::AutomationPanel(msg) => {
                self.automation_panel.update(msg);
                None
            },
            Message::ExtractionPanel(msg) => {
                self.extraction_panel.update(msg);
                None
            },
            Message::DevToolsPanel(msg) => {
                self.devtools_panel.update(msg);
                None
            },
            Message::SettingsPanel(msg) => {
                self.settings_panel.update(msg);
                None
            },
            Message::UrlChanged(u) => {
                self.current_url = u;
                None
            },
            Message::NavigateSubmitted => {
                let cur = self.current_url.as_str();
                if str_starts_with(cur, "http://") || str_starts_with(cur, "https://") || str_starts_with(cur, "about:") {
                    Some(Message::NavigateTo(owned(cur)))
                } else {
                    let mut u = "https://".to_string();
                    u.append(cur);
                    Some(Message::NavigateTo(u))
                }
            },
            Message::NavigateTo(u) => {
                if !str_eq(self.current_url.as_str(), u.as_str()) {
                    self.current_url = u;
                    self.is_loading = true;
                }
                None
            },
            Message::GoBack | Message::GoForward | Message::Reload => None,
            Message::StopLoading => {
                self.is_loading = false;
                None
            },
            Message::NewTab => Some(Message::NavigateTo(START_PAGE.to_string())),
            Message::ToggleControlPanel => {
                self.sidebar.update(SidebarMessage::TogglePanel);
                None
            },
        }
    }
}

impl Default for SingleWindowBrowser {
    /// Network tools shown in an expanded 400-pixel panel; the start page
    /// loading, titled "New Tab".
    fn default() -> (a: Self)
        ensures
            a@.current_url == START_PAGE@,
            a@.is_loading,
            a@.title == Some("New Tab"@),
            a@.control_panel_width == 400,
            a@.sidebar.expanded,
            a@.sidebar.selected == ToolCategory::Network,
    {
        SingleWindowBrowser {
            sidebar: Sidebar::new(true, ToolCategory::Network),
            network_panel: NetworkPanel::new(),
            ai_panel: AiPanel::new(),
            automation_panel: AutomationPanel::new(),
            extraction_panel: ExtractionPanel::new(),
            devtools_panel: DevToolsPanel::new(),
            settings_panel: SettingsPanel::new(),
            current_url: START_PAGE.to_string(),
            is_loading: true,
            active_tab_title: Some("New Tab".to_string()),
            control_panel_width: 400,
        }
    }
}

} // verus!
