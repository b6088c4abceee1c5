//! Side-by-side placement of the web view window and the control panel
//! window: the split of the screen area, and which top-level window gets
//! which half.
use vstd::prelude::*;
use crate::text::{seq_contains, str_contains};

verus! {

/// The screen area shared by the two windows. `webview_width` is the part
/// of `total_width` given to the web view, on the left.
#[derive(Debug, Clone, Copy, PartialEq, Eq)]
pub struct WindowLayout {
    pub x: i32,
    pub y: i32,
    pub total_width: u32,
    pub height: u32,
    pub webview_width: u32,
}

/// Where a window goes and how large it is.
#[derive(Debug, Clone, Copy, PartialEq, Eq)]
pub struct WindowPos {
    pub x: i32,
    pub y: i32,
    pub width: u32,
    pub height: u32,
}

/// A visible or hidden top-level window and its title, as the windowing
/// system lists them.
pub struct TopLevelWindow {
    pub visible: bool,
    pub title: String,
}

impl Default for WindowLayout {
    /// 1600 x 900 at (100, 100); the web view takes 70 % of the width.
    fn default() -> (l: Self)
        ensures
            l.x == 100 && l.y == 100 && l.total_width == 1600 && l.height == 900
                && l.webview_width == 1120,
    {
        WindowLayout { x: 100, y: 100, total_width: 1600, height: 900, webview_width: 1120 }
    }
}

impl WindowLayout {
    /// The split fits the area and the panel's left edge is a screen coordinate.
    pub open spec fn valid(&self) -> bool {
        &&& self.webview_width <= self.total_width
        &&& self.webview_width <= i32::MAX
        &&& self.x + self.webview_width <= i32::MAX
    }

    /// The web view's part of the screen area.
    pub open spec fn webview_pos(&self) -> WindowPos {
        WindowPos { x: self.x, y: self.y, width: self.webview_width, height: self.height }
    }

    /// The control panel's part of the screen area, right of the web view.
    pub open spec fn panel_pos(&self) -> WindowPos {
        WindowPos {
            x: (self.x + self.webview_width) as i32,
            y: self.y,
            width: (self.total_width - self.webview_width) as u32,
            height: self.height,
        }
    }

    /// Width of the web view window.
    pub fn webview_width(&self) -> (r: u32)
        ensures
            r == self.webview_width,
    {
        self.webview_width
    }

    /// Width of the control panel window: what the web view leaves.
    pub fn panel_width(&self) -> (r: u32)
        requires
            self.webview_width <= self.total_width,
        ensures
            r == self.total_width - self.webview_width,
    {
        self.total_width - self.webview_width
    }

    /// Left edge of the web view window.
    pub fn webview_x(&self) -> (r: i32)
        ensures
            r == self.x,
    {
        self.x
    }

    /// Left edge of the control panel window: right of the web view.
    pub fn panel_x(&self) -> (r: i32)
        requires
            self.webview_width <= i32::MAX,
            self.x + self.webview_width <= i32::MAX,
        ensures
            r == self.x + self.webview_width,
    {
        self.x + self.webview_width as i32
    }
}

/// The two windows tile the layout: same top edge and height, the panel
/// starting where the web view ends, their widths adding up to the total.
pub proof fn law_split_tiles(l: WindowLayout)
    requires
        l.valid(),
    ensures
        l.webview_pos().x == l.x,
        l.panel_pos().x == l.webview_pos().x + l.webview_pos().width,
        l.webview_pos().width + l.panel_pos().width == l.total_width,
        l.webview_pos().y == l.panel_pos().y,
        l.webview_pos().height == l.panel_pos().height,
{
}

/// The web view's and the control panel's places, when a layout is set.
pub fn calculate_positions(layout: Option<&WindowLayout>) -> (r: Option<(WindowPos, WindowPos)>)
    requires
        layout matches Some(l) ==> l.valid(),
    ensures
        layout is None ==> r is None,
        layout matches Some(l) ==> r == Some((l.webview_pos(), l.panel_pos())),
{
    match layout {
        None => None,
        Some(l) => {
            let webview_pos = WindowPos { x: l.webview_x(), y: l.y, width: l.webview_width(), height: l.height };
            let panel_pos = WindowPos { x: l.panel_x(), y: l.y, width: l.panel_width(), height: l.height };
            Some((webview_pos, panel_pos))
        },
    }
}

/// A visible window with a title naming both the web view and the browser.
pub open spec fn is_webview_window(w: TopLevelWindow) -> bool {
    &&& w.visible
    &&& w.title@.len() > 0
    &&& seq_contains(w.title@, "WebView"@)
    &&& seq_contains(w.title@, "Rusty"@)
}

/// A visible window with the browser's title that is not the web view.
pub open spec fn is_control_panel_window(w: TopLevelWindow) -> bool {
    &&& w.visible
    &&& w.title@.len() > 0
    &&& seq_contains(w.title@, "Rusty Browser"@)
    &&& !seq_contains(w.title@, "WebView"@)
}

/// Whether `w` is the web view window.
fn webview_window_matches(w: &TopLevelWindow) -> (r: bool)
    ensures
        r == is_webview_window(*w),
{
    w.visible && w.title.unicode_len() > 0 && str_contains(w.title.as_str(), "WebView")
        && str_contains(w.title.as_str(), "Rusty")
}

/// Whether `w` is the control panel window.
fn control_panel_window_matches(w: &TopLevelWindow) -> (r: bool)
    ensures
        r == is_control_panel_window(*w),
{
    w.visible && w.title.unicode_len() > 0 && str_contains(w.title.as_str(), "Rusty Browser")
        && !str_contains(w.title.as_str(), "WebView")
}

/// The first of `windows` that is the web view window, and the place it is
/// moved to; nothing when no window matches or no layout is set.
pub fn find_and_position_webview(windows: &[TopLevelWindow], layout: Option<&WindowLayout>) -> (r: Option<(usize, WindowPos)>)
    requires
        layout matches Some(l) ==> l.valid(),
    ensures
        r matches Some((i, p)) ==> {
            &&& i < windows@.len()
            &&& is_webview_window(windows@[i as int])
            &&& forall|j: int| 0 <= j < i ==> !is_webview_window(#[trigger] windows@[j])
            &&& layout matches Some(l) && p == l.webview_pos()
        },
        r is None ==> layout is None || forall|j: int| 0 <= j < windows@.len() ==> !is_webview_window(#[trigger] windows@[j]),
{
    let mut i: usize = 0;
    while i < windows.len()
        invariant
            i <= windows@.len(),
            layout matches Some(l) ==> l.valid(),
            forall|j: int| 0 <= j < i ==> !is_webview_window(#[trigger] windows@[j]),
        decreases windows@.len() - i,
    {
        if webview_window_matches(&windows[i]) {
            return match calculate_positions(layout) {
                Some((webview_pos, _)) => Some((i, webview_pos)),
                None => None,
            };
        }
        i = i + 1;
    }
    None
}

/// The first of `windows` that is the control panel window, and the place
/// it is moved to; nothing when no window matches or no layout is set.
pub fn position_control_panel(windows: &[TopLevelWindow], layout: Option<&WindowLayout>) -> (r: Option<(usize, WindowPos)>)
    requires
        layout matches Some(l) ==> l.valid(),
    ensures
        r matches Some((i, p)) ==> {
            &&& i < windows@.len()
            &&& is_control_panel_window(windows@[i as int])
            &&& forall|j: int| 0 <= j < i ==> !is_control_panel_window(#[trigger] windows@[j])
            &&& layout matches Some(l) && p == l.panel_pos()
        },
        r is None ==> layout is None || forall|j: int| 0 <= j < windows@.len() ==> !is_control_panel_window(#[trigger] windows@[j]),
{
    let mut i: usize = 0;
    while i < windows.len()
        invariant
            i <= windows@.len(),
            layout matches Some(l) ==> l.valid(),
            forall|j: int| 0 <= j < i ==> !is_control_panel_window(#[trigger] windows@[j]),
        decreases windows@.len() - i,
    {
        if control_panel_window_matches(&windows[i]) {
            return match calculate_positions(layout) {
                Some((_, panel_pos)) => Some((i, panel_pos)),
                None => None,
            };
        }
        i = i + 1;
    }
    None
}

} // verus!
