//! The navigation toolbar: back, forward, and reload or stop, with the
//! message each button sends.
use vstd::prelude::*;
use crate::theme::{BrowserTheme, TextStyle, ThemeMode};

verus! {

/// The toolbar's settings; a button without a message is inactive.
pub struct Toolbar<M> {
    on_back: Option<M>,
    on_forward: Option<M>,
    on_reload: Option<M>,
    on_stop: Option<M>,
    can_go_back: bool,
    can_go_forward: bool,
    is_loading: bool,
    theme: BrowserTheme,
}

/// Mathematical value of a [`Toolbar`].
pub struct ToolbarView<M> {
    pub back: Option<M>,
    pub forward: Option<M>,
    pub reload: Option<M>,
    pub stop: Option<M>,
    pub can_go_back: bool,
    pub can_go_forward: bool,
    pub is_loading: bool,
    pub theme: BrowserTheme,
}

impl<M> View for Toolbar<M> {
    type V = ToolbarView<M>;

    closed spec fn view(&self) -> ToolbarView<M> {
        ToolbarView {
            back: self.on_back,
            forward: self.on_forward,
            reload: self.on_reload,
            stop: self.on_stop,
            can_go_back: self.can_go_back,
            can_go_forward: self.can_go_forward,
            is_loading: self.is_loading,
            theme: self.theme,
        }
    }
}

impl<M> Toolbar<M> {
    /// No messages, nothing to go back or forward to, not loading, the
    /// default theme.
    pub fn new() -> (t: Self)
        ensures
            t@.back is None && t@.forward is None && t@.reload is None && t@.stop is None,
            !t@.can_go_back && !t@.can_go_forward && !t@.is_loading,
            t@.theme.spec_mode() == ThemeMode::Auto,
    {
        Toolbar {
            on_back: None,
            on_forward: None,
            on_reload: None,
            on_stop: None,
            can_go_back: false,
            can_go_forward: false,
            is_loading: false,
            theme: BrowserTheme::default(),
        }
    }

    /// The toolbar with theme `theme`.
    pub fn theme(self, theme: BrowserTheme) -> (t: Self)
        ensures
            t@ == (ToolbarView { theme, ..self@ }),
    {
        Toolbar { theme, ..self }
    }

    /// The toolbar whose back button sends `msg`.
    pub fn on_back(self, msg: M) -> (t: Self)
        ensures
            t@ == (ToolbarView { back: Some(msg), ..self@ }),
    {
        Toolbar { on_back: Some(msg), ..self }
    }

    /// The toolbar whose forward button sends `msg`.
    pub fn on_forward(self, msg: M) -> (t: Self)
        ensures
            t@ == (ToolbarView { forward: Some(msg), ..self@ }),
    {
        Toolbar { on_forward: Some(msg), ..self }
    }

    /// The toolbar whose reload button sends `msg`.
    pub fn on_reload(self, msg: M) -> (t: Self)
        ensures
            t@ == (ToolbarView { reload: Some(msg), ..self@ }),
    {
        Toolbar { on_reload: Some(msg), ..self }
    }

    /// The toolbar whose stop button sends `msg`.
    pub fn on_stop(self, msg: M) -> (t: Self)
        ensures
            t@ == (ToolbarView { stop: Some(msg), ..self@ }),
    {
        Toolbar { on_stop: Some(msg), ..self }
    }

    /// The toolbar knowing whether there is a page to go back to.
    pub fn can_go_back(self, can: bool) -> (t: Self)
        ensures
            t@ == (ToolbarView { can_go_back: can, ..self@ }),
    {
        Toolbar { can_go_back: can, ..self }
    }

    /// The toolbar knowing whether there is a page to go forward to.
    pub fn can_go_forward(self, can: bool) -> (t: Self)
        ensures
            t@ == (ToolbarView { can_go_forward: can, ..self@ }),
    {
        Toolbar { can_go_forward: can, ..self }
    }

    /// The toolbar knowing whether a page loads.
    pub fn is_loading(self, loading: bool) -> (t: Self)
        ensures
            t@ == (ToolbarView { is_loading: loading, ..self@ }),
    {
        Toolbar { is_loading: loading, ..self }
    }

    /// What the back button sends.
    pub fn back_action(&self) -> (r: Option<&M>)
        ensures
            match self@.back {
                Some(m) => r == Some(&m),
                None => r is None,
            },
    {
        match &self.on_back {
            Some(m) => Some(m),
            None => None,
        }
    }

    /// What the forward button sends.
    pub fn forward_action(&self) -> (r: Option<&M>)
        ensures
            match self@.forward {
                Some(m) => r == Some(&m),
                None => r is None,
            },
    {
        match &self.on_forward {
            Some(m) => Some(m),
            None => None,
        }
    }

    /// What the third button sends: stop while a page loads, reload
    /// otherwise.
    pub fn reload_action(&self) -> (r: Option<&M>)
        ensures
            match if self@.is_loading { self@.stop } else { self@.reload } {
                Some(m) => r == Some(&m),
                None => r is None,
            },
    {
        let chosen = if self.is_loading { &self.on_stop } else { &self.on_reload };
        match chosen {
            Some(m) => Some(m),
            None => None,
        }
    }

    /// The third button's label: a cross while a page loads, a circular
    /// arrow otherwise.
    pub fn reload_label(&self) -> (r: &'static str)
        ensures
            r@ == if self@.is_loading { "\u{2715}"@ } else { "\u{27f3}"@ },
    {
        if self.is_loading { "\u{2715}" } else { "\u{27f3}" }
    }

    /// The back arrow's text style: disabled without a page to go back to.
    pub fn back_style(&self) -> (s: TextStyle)
        ensures
            s == if self@.can_go_back { TextStyle::Toolbar } else { TextStyle::Disabled },
    {
        if self.can_go_back { TextStyle::Toolbar } else { TextStyle::Disabled }
    }

    /// The forward arrow's text style: disabled without a page to go
    /// forward to.
    pub fn forward_style(&self) -> (s: TextStyle)
        ensures
            s == if self@.can_go_forward { TextStyle::Toolbar } else { TextStyle::Disabled },
    {
        if self.can_go_forward { TextStyle::Toolbar } else { TextStyle::Disabled }
    }
}

impl<M> Default for Toolbar<M> {
    fn default() -> (t: Self)
        ensures
            t@.back is None && t@.forward is None && t@.reload is None && t@.stop is None,
            !t@.can_go_back && !t@.can_go_forward && !t@.is_loading,
    {
        Toolbar::new()
    }
}

} // verus!
