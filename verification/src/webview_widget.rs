use vstd::prelude::*;
use crate::text::owned;
use crate::webview_wry::WebViewEvent;

verus! {

/// Messages of the web view widget.
#[derive(Debug, Clone)]
pub enum WebViewMessage {
    /// Navigate to a URL.
    Navigate(String),
    /// A navigation completed.
    Navigated,
    /// The URL changed.
    UrlChanged(String),
    /// The title changed.
    TitleChanged(String),
    /// Loading started.
    LoadStarted,
    /// Loading finished.
    LoadFinished,
    /// Poll for updates.
    Poll,
}

/// Convert a widget message into the application's message type with `f`.
pub fn map_message<M, F: Fn(WebViewMessage) -> M>(msg: WebViewMessage, f: F) -> (r: M)
    requires
        f.requires((msg,)),
    ensures
        f.ensures((msg,), r),
{
    f(msg)
}

/// Messages of the embedded web view.
#[derive(Debug, Clone)]
pub enum EmbeddedWebViewMessage {
    Navigate(String),
    UrlChanged(String),
    TitleChanged(String),
    LoadStarted,
    LoadFinished,
}

/// Messages from the engine's event-loop waker.
#[derive(Debug, Clone, Copy, PartialEq, Eq, Structural)]
pub enum WakerMessage {
    /// A new frame is ready.
    NewFrameReady,
    /// Events wait to be processed.
    ProcessEvents,
    /// The engine shuts down.
    Shutdown,
}

/// Frame pacing: the target frame rate and whether to wait for vertical
/// sync. Requesting a frame yields the message that wakes the event loop.
pub struct FrameController {
    pub target_fps: u32,
    pub vsync_enabled: bool,
}

impl FrameController {
    /// 60 frames per second with vertical sync.
    pub fn new() -> (c: Self)
        ensures
            c.target_fps == 60,
            c.vsync_enabled,
    {
        FrameController { target_fps: 60, vsync_enabled: true }
    }

    /// The message that asks the event loop for a new frame.
    pub fn request_frame(&self) -> (m: WakerMessage)
        ensures
            m == WakerMessage::NewFrameReady,
    {
        WakerMessage::NewFrameReady
    }

    /// Set the target frame rate.
    pub fn set_target_fps(&mut self, fps: u32)
        ensures
            final(self).target_fps == fps,
            final(self).vsync_enabled == old(self).vsync_enabled,
    {
        self.target_fps = fps;
    }

    /// Turn vertical sync on or off.
    pub fn set_vsync(&mut self, enabled: bool)
        ensures
            final(self).vsync_enabled == enabled,
            final(self).target_fps == old(self).target_fps,
    {
        self.vsync_enabled = enabled;
    }
}

/// Whether `m` is the message that event `e` makes.
pub open spec fn message_of(e: WebViewEvent, m: WebViewMessage) -> bool {
    match e {
        WebViewEvent::LoadStarted(_) => m is LoadStarted,
        WebViewEvent::LoadFinished(_) => m is LoadFinished,
        WebViewEvent::UrlChanged(u) => m matches WebViewMessage::UrlChanged(v) && v@ == u@,
        WebViewEvent::TitleChanged(t) => m matches WebViewMessage::TitleChanged(v) && v@ == t@,
        _ => false,
    }
}

/// Whether event `e` makes a message.
pub open spec fn makes_message(e: WebViewEvent) -> bool {
    e is LoadStarted || e is LoadFinished || e is UrlChanged || e is TitleChanged
}

/// The messages that `events` make, in order.
pub open spec fn messages_of(events: Seq<WebViewEvent>) -> Seq<WebViewEvent> {
    events.filter(|e: WebViewEvent| makes_message(e))
}

/// The web view widget's record of the page it was last sent to.
pub struct WebViewWidget {
    current_url: String,
}

impl WebViewWidget {
    /// The page the widget was last sent to.
    pub closed spec fn url(&self) -> Seq<char> {
        self.current_url@
    }

    /// No page yet.
    pub fn new() -> (w: Self)
        ensures
            w.url().len() == 0,
    {
        WebViewWidget { current_url: String::new() }
    }

    /// Record that the web view is sent to `url`.
    pub fn navigate(&mut self, url: &str)
        ensures
            final(self).url() == url@,
    {
        self.current_url = owned(url);
    }

    /// The page the widget was last sent to.
    pub fn current_url(&self) -> (r: &str)
        ensures
            r@ == self.url(),
    {
        self.current_url.as_str()
    }

    /// The messages for the web view's events, in order: one for each load
    /// start or finish, URL change and title change.
    pub fn poll(&self, events: &Vec<WebViewEvent>) -> (r: Vec<WebViewMessage>)
        ensures
            r@.len() == messages_of(events@).len(),
            forall|i: int| 0 <= i < r@.len() ==> message_of(messages_of(events@)[i], #[trigger] r@[i]),
    {
        let ghost keep = |e: WebViewEvent| makes_message(e);
        let mut r: Vec<WebViewMessage> = Vec::new();
        let mut i: usize = 0;
        while i < events.len()
            invariant
                i <= events@.len(),
                keep == (|e: WebViewEvent| makes_message(e)),
                r@.len() == events@.take(i as int).filter(keep).len(),
                forall|k: int| 0 <= k < r@.len() ==> message_of(events@.take(i as int).filter(keep)[k], #[trigger] r@[k]),
            decreases events@.len() - i,
        {
            let ghost before = events@.take(i as int).filter(keep);
            assert(events@.take(i + 1).drop_last() =~= events@.take(i as int));
            assert(events@.take(i + 1).last() == events@[i as int]);
            reveal(Seq::filter);
            match &events[i] {
                WebViewEvent::LoadStarted(_) => r.push(WebViewMessage::LoadStarted),
                WebViewEvent::LoadFinished(_) => r.push(WebViewMessage::LoadFinished),
                WebViewEvent::UrlChanged(u) => r.push(WebViewMessage::UrlChanged(owned(u.as_str()))),
                WebViewEvent::TitleChanged(t) => r.push(WebViewMessage::TitleChanged(owned(t.as_str()))),
                _ => {},
            }
            i = i + 1;
        }
        assert(events@.take(i as int) =~= events@);
        r
    }
}

} // verus!
