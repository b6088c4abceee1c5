use vstd::prelude::*;

verus! {

/// Messages from the web view to the UI.
#[derive(Debug, Clone)]
pub enum WebViewEvent {
    LoadStarted(String),
    LoadFinished(String),
    UrlChanged(String),
    TitleChanged(String),
    NavigationStarted(String),
}

/// What the UI knows of the page in the web view.
pub struct WebViewState {
    url: String,
    title: String,
    is_loading: bool,
}

impl WebViewState {
    /// The page's URL.
    pub closed spec fn url_view(&self) -> Seq<char> {
        self.url@
    }

    /// The page's title.
    pub closed spec fn title_view(&self) -> Seq<char> {
        self.title@
    }

    /// Whether the page is loading.
    pub closed spec fn loading(&self) -> bool {
        self.is_loading
    }

    /// A blank page titled "New Tab", not loading.
    pub fn new() -> (s: Self)
        ensures
            s.url_view() == "about:blank"@,
            s.title_view() == "New Tab"@,
            !s.loading(),
    {
        WebViewState { url: "about:blank".to_string(), title: "New Tab".to_string(), is_loading: false }
    }

    /// The page's URL.
    pub fn current_url(&self) -> (r: &str)
        ensures
            r@ == self.url_view(),
    {
        self.url.as_str()
    }

    /// The page's title.
    pub fn current_title(&self) -> (r: &str)
        ensures
            r@ == self.title_view(),
    {
        self.title.as_str()
    }

    /// Whether the page is loading.
    pub fn is_loading(&self) -> (r: bool)
        ensures
            r == self.loading(),
    {
        self.is_loading
    }

    /// A navigation to `url` started: the URL is taken and loading begins.
    pub fn navigate(&mut self, url: &str)
        ensures
            final(self).url_view() == url@,
            final(self).title_view() == old(self).title_view(),
            final(self).loading(),
    {
        self.url = url.to_string();
        self.is_loading = true;
    }
}

} // verus!
