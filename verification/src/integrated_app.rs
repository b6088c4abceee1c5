//! The integrated browser: toolbar, address bar and tab bar over a web view
//! rendered in a native window. Each message updates the state and yields
//! one effect for the caller to carry out.
use vstd::prelude::*;
use crate::browser_session::TabId;
use crate::browser_app::START_PAGE;
use crate::hybrid_app::{hybrid_url, opt_view};
use crate::text::{owned, str_starts_with};
use crate::theme::ThemeMode;
use crate::webview_widget::{WebViewMessage, WebViewWidget};

verus! {

/// Messages of the integrated browser.
pub enum Message {
    UrlChanged(String),
    NavigateSubmitted,
    NavigateTo(String),
    GoBack,
    GoForward,
    Reload,
    StopLoading,
    NewTab,
    CloseTab(TabId),
    SwitchTab(TabId),
    LoadingStarted,
    LoadingFinished,
    LoadingFailed(String),
    WebView(WebViewMessage),
    PollWebView,
}

/// What the caller does after an update.
pub enum IntegratedEffect {
    Nothing,
    /// Handle this message next.
    Dispatch(Message),
    /// Load this URL in the web view.
    NavigateWebView(String),
    /// Load this URL in the web view, then handle this message.
    NavigateWebViewThen(String, Message),
    /// Collect the web view's events (see [`after_poll`]).
    PollWebView,
}

/// One message per polled web view message, in order.
pub fn after_poll(messages: Vec<WebViewMessage>) -> (r: Vec<Message>)
    ensures
        r@.len() == messages@.len(),
        forall|i: int| 0 <= i < r@.len() ==> (#[trigger] r@[i]) == Message::WebView(messages@[i]),
{
    let mut r: Vec<Message> = Vec::new();
    let mut rest = messages;
    let ghost all = rest@;
    let mut reversed: Vec<WebViewMessage> = Vec::new();
    while rest.len() > 0
        invariant
            rest@.len() + reversed@.len() == all.len(),
            forall|k: int| 0 <= k < rest@.len() ==> rest@[k] == all[k],
            forall|k: int| 0 <= k < reversed@.len() ==> reversed@[k] == all[all.len() - 1 - k],
        decreases rest@.len(),
    {
        let m = rest.pop().unwrap();
        reversed.push(m);
    }
    while reversed.len() > 0
        invariant
            r@.len() + reversed@.len() == all.len(),
            forall|k: int| 0 <= k < reversed@.len() ==> reversed@[k] == all[all.len() - 1 - k],
            forall|k: int| 0 <= k < r@.len() ==> (#[trigger] r@[k]) == Message::WebView(all[k]),
        decreases reversed@.len(),
    {
        let m = reversed.pop().unwrap();
        r.push(Message::WebView(m));
    }
    r
}

/// Mathematical value of [`IntegratedBrowserApp`].
pub struct IntegratedView {
    pub current_url: Seq<char>,
    pub is_loading: bool,
    pub title: Option<Seq<char>>,
    pub webview_url: Seq<char>,
}

/// The state after message `m`.
pub open spec fn integrated_after(v: IntegratedView, m: Message) -> IntegratedView {
    match m {
        Message::UrlChanged(u) => IntegratedView { current_url: u@, ..v },
        Message::NavigateTo(u) => IntegratedView { current_url: u@, is_loading: true, webview_url: u@, ..v },
        Message::Reload => IntegratedView { webview_url: v.current_url, ..v },
        Message::StopLoading => IntegratedView { is_loading: false, ..v },
        Message::LoadingStarted => IntegratedView { is_loading: true, ..v },
        Message::LoadingFinished => IntegratedView { is_loading: false, current_url: v.webview_url, ..v },
        Message::LoadingFailed(_) => IntegratedView { is_loading: false, ..v },
        Message::WebView(w) => match w {
            WebViewMessage::UrlChanged(u) => IntegratedView { current_url: u@, ..v },
            WebViewMessage::TitleChanged(t) => IntegratedView { title: Some(t@), ..v },
            WebViewMessage::LoadStarted => IntegratedView { is_loading: true, ..v },
            WebViewMessage::LoadFinished => IntegratedView { is_loading: false, ..v },
            _ => v,
        },
        _ => v,
    }
}

/// Whether `e` is the effect that message `m` yields in state `v`.
pub open spec fn integrated_effect(v: IntegratedView, m: Message, e: IntegratedEffect) -> bool {
    match m {
        Message::NavigateSubmitted => e matches IntegratedEffect::Dispatch(Message::NavigateTo(u)) && u@ == hybrid_url(
            v.current_url,
        ),
        Message::NavigateTo(u) => e matches IntegratedEffect::NavigateWebViewThen(w, Message::LoadingStarted) && w@ == u@,
        Message::Reload => e matches IntegratedEffect::NavigateWebView(w) && w@ == v.current_url,
        Message::NewTab => e matches IntegratedEffect::Dispatch(Message::NavigateTo(u)) && u@ == START_PAGE@,
        Message::PollWebView => e is PollWebView,
        _ => e is Nothing,
    }
}

/// The state of the integrated browser.
pub struct IntegratedBrowserApp {
    current_url: String,
    is_loading: bool,
    active_tab_title: Option<String>,
    webview: WebViewWidget,
}

impl View for IntegratedBrowserApp {
    type V = IntegratedView;

    closed spec fn view(&self) -> IntegratedView {
        IntegratedView {
            current_url: self.current_url@,
            is_loading: self.is_loading,
            title: opt_view(self.active_tab_title),
            webview_url: self.webview.url(),
        }
    }
}

impl IntegratedBrowserApp {
    /// The window's title for the active tab's title.
    pub fn title(&self) -> (r: String)
        ensures
            r@ == match self@.title {
                Some(t) => if t.len() > 0 { t + " - Rusty Browser"@ } else { "Rusty Browser"@ },
                None => "Rusty Browser"@,
            },
    {
        match &self.active_tab_title {
            Some(t) => {
                if t.as_str().unicode_len() > 0 {
                    let mut r = owned(t.as_str());
                    r.append(" - Rusty Browser");
                    r
                } else {
                    "Rusty Browser".to_string()
                }
            },
            None => "Rusty Browser".to_string(),
        }
    }

    /// The colour scheme: dark.
    pub fn theme(&self) -> (t: ThemeMode)
        ensures
            t == ThemeMode::Dark,
    {
        ThemeMode::Dark
    }

    /// The effect that starting the browser has: loading the start page.
    pub fn startup(&self) -> (e: IntegratedEffect)
        ensures
            e matches IntegratedEffect::NavigateWebView(u) && u@ == self@.webview_url,
    {
        IntegratedEffect::NavigateWebView(owned(self.webview.current_url()))
    }

    /// Handle `message`: the state changes as [`integrated_after`] says and
    /// the returned effect is the one [`integrated_effect`] names.
    pub fn update(&mut self, message: Message) -> (e: IntegratedEffect)
        ensures
            final(self)@ == integrated_after(old(self)@, message),
            integrated_effect(old(self)@, message, e),
    {
        match message {
            Message::UrlChanged(u) => {
                self.current_url = u;
                IntegratedEffect::Nothing
            },
            Message::NavigateSubmitted => {
                let cur = self.current_url.as_str();
                if str_starts_with(cur, "http://") || str_starts_with(cur, "https://") || str_starts_with(cur, "about:") {
                    IntegratedEffect::Dispatch(Message::NavigateTo(owned(cur)))
                } else {
                    let mut u = "https://".to_string();
                    u.append(cur);
                    IntegratedEffect::Dispatch(Message::NavigateTo(u))
                }
            },
            Message::NavigateTo(u) => {
                self.is_loading = true;
                self.webview.navigate(u.as_str());
                let nav = owned(u.as_str());
                self.current_url = u;
                IntegratedEffect::NavigateWebViewThen(nav, Message::LoadingStarted)
            },
            Message::Reload => {
                let cur = owned(self.current_url.as_str());
                self.webview.navigate(cur.as_str());
                IntegratedEffect::NavigateWebView(cur)
            },
            Message::StopLoading => {
                self.is_loading = false;
                IntegratedEffect::Nothing
            },
            Message::NewTab => IntegratedEffect::Dispatch(Message::NavigateTo(START_PAGE.to_string())),
            Message::LoadingStarted => {
                self.is_loading = true;
                IntegratedEffect::Nothing
            },
            Message::LoadingFinished => {
                self.is_loading = false;
                self.current_url = owned(self.webview.current_url());
                IntegratedEffect::Nothing
            },
            Message::LoadingFailed(_) => {
                self.is_loading = false;
                IntegratedEffect::Nothing
            },
            Message::WebView(w) => {
                match w {
                    WebViewMessage::UrlChanged(u) => {
                        self.current_url = u;
                    },
                    WebViewMessage::TitleChanged(t) => {
                        self.active_tab_title = Some(t);
                    },
                    WebViewMessage::LoadStarted => {
                        self.is_loading = true;
                    },
                    WebViewMessage::LoadFinished => {
                        self.is_loading = false;
                    },
                    _ => {},
                }
                IntegratedEffect::Nothing
            },
            Message::PollWebView => IntegratedEffect::PollWebView,
            Message::GoBack | Message::GoForward | Message::CloseTab(_) | Message::SwitchTab(_) => IntegratedEffect::Nothing,
        }
    }
}

impl Default for IntegratedBrowserApp {
    /// The start page loading, titled "New Tab".
    fn default() -> (a: Self)
        ensures
            a@.current_url == START_PAGE@,
            a@.webview_url == START_PAGE@,
            a@.is_loading,
            a@.title == Some("New Tab"@),
    {
        let mut webview = WebViewWidget::new();
        webview.navigate(START_PAGE);
        IntegratedBrowserApp {
            current_url: START_PAGE.to_string(),
            is_loading: true,
            active_tab_title: Some("New Tab".to_string()),
            webview,
        }
    }
}

} // verus!
