use vstd::prelude::*;

verus! {

/// Commands sent to the web view process.
#[derive(Debug, Clone)]
pub enum WebViewCommand {
    Navigate { url: String },
    Reload,
    GoBack,
    GoForward,
    ExecuteScript { script: String },
    SetBounds { x: i32, y: i32, width: u32, height: u32 },
    Show,
    Hide,
    Close,
}

/// Events reported by the web view process.
#[derive(Debug, Clone)]
pub enum WebViewEvent {
    LoadStarted { url: String },
    LoadFinished { url: String, success: bool },
    UrlChanged { url: String },
    TitleChanged { title: String },
    NavigationRequested { url: String },
    PageError { error: String },
    ConsoleMessage { level: String, message: String },
    WindowClosed,
}

/// State shared between the UI and the web view process.
pub struct WebViewState {
    pub url: String,
    pub title: String,
    pub is_loading: bool,
    pub is_visible: bool,
}

/// Mathematical value of [`WebViewState`].
pub struct WebViewStateView {
    pub url: Seq<char>,
    pub title: Seq<char>,
    pub is_loading: bool,
    pub is_visible: bool,
}

impl View for WebViewState {
    type V = WebViewStateView;

    open spec fn view(&self) -> WebViewStateView {
        WebViewStateView { url: self.url@, title: self.title@, is_loading: self.is_loading, is_visible: self.is_visible }
    }
}

/// The state after the process reports `e`: URL and title changes are
/// taken, a load start or finish sets the loading flag, other events
/// change nothing.
pub open spec fn after_event(s: WebViewStateView, e: WebViewEvent) -> WebViewStateView {
    match e {
        WebViewEvent::UrlChanged { url } => WebViewStateView { url: url@, ..s },
        WebViewEvent::TitleChanged { title } => WebViewStateView { title: title@, ..s },
        WebViewEvent::LoadStarted { .. } => WebViewStateView { is_loading: true, ..s },
        WebViewEvent::LoadFinished { .. } => WebViewStateView { is_loading: false, ..s },
        _ => s,
    }
}

impl WebViewState {
    /// A blank page titled "New Tab", not loading, visible.
    pub fn new() -> (s: Self)
        ensures
            s@ == (WebViewStateView { url: "about:blank"@, title: "New Tab"@, is_loading: false, is_visible: true }),
    {
        WebViewState { url: "about:blank".to_string(), title: "New Tab".to_string(), is_loading: false, is_visible: true }
    }

    /// Take an event reported by the process into the state.
    pub fn apply_event(&mut self, event: &WebViewEvent)
        ensures
            final(self)@ == after_event(old(self)@, *event),
    {
        match event {
            WebViewEvent::UrlChanged { url } => {
                self.url = url.clone();
            },
            WebViewEvent::TitleChanged { title } => {
                self.title = title.clone();
            },
            WebViewEvent::LoadStarted { .. } => {
                self.is_loading = true;
            },
            WebViewEvent::LoadFinished { .. } => {
                self.is_loading = false;
            },
            _ => {},
        }
    }

    /// A navigation to `url` was requested: the URL is taken at once.
    pub fn navigate(&mut self, url: &str)
        ensures
            final(self)@ == (WebViewStateView { url: url@, ..old(self)@ }),
    {
        self.url = url.to_string();
    }

    /// Record whether the web view is shown.
    pub fn set_visible(&mut self, visible: bool)
        ensures
            final(self)@ == (WebViewStateView { is_visible: visible, ..old(self)@ }),
    {
        self.is_visible = visible;
    }
}

} // verus!
