use rusty_browser::browser_app::{BrowserApp, Message as AppMessage, START_PAGE};
use rusty_browser::browser_session::BrowserSession;
use rusty_browser::embeddings::{MockEmbeddingModel, EMBEDDING_DIMENSIONS};
use rusty_browser::focus::{BoundsBits, FocusManager, FocusableElement};
use rusty_browser::frame_buffer::ServoRenderer;
use rusty_browser::history::{HistoryConfig, HistoryEntry, HistoryError, HistoryManager};
use rusty_browser::hybrid_app::{after_poll, HybridBrowserApp, HybridEffect, Message as HybridMessage};
use rusty_browser::input::{FocusId, Key, Modifiers, MouseButton};
use rusty_browser::input_state::{InputEvent, InputState, ScrollDelta, MAX_TOUCH_POINTS, SCALE_ONE_BITS};
use rusty_browser::keys::NamedKey;
use rusty_browser::navigation::NavigationError;
use rusty_browser::panels::{ExtractionMessage, NetworkMessage, SidebarMessage};
use rusty_browser::platform::WindowsDxInterop;
use rusty_browser::render::{FrameQueue, FrameState, GpuFrame, GpuRendererError, FRAME_QUEUE_CAPACITY};
use rusty_browser::servo::ServoFrame;
use rusty_browser::session::{Session, TabState, WindowState};
use rusty_browser::session_manager::{SessionConfig, SessionError, SessionManager};
use rusty_browser::tab::{clamp_zoom_bits, Tab};
use rusty_browser::text::str_starts_with;
use rusty_browser::theme::ThemeMode;
use rusty_browser::webview_ipc::WebViewEvent;
use rusty_browser::webview_widget::{FrameController, WakerMessage};
use rusty_browser::window_layout::{
    calculate_positions, find_and_position_webview, position_control_panel, TopLevelWindow, WindowLayout, WindowPos,
};

#[test]
fn frame_queue_hands_frames_out_in_order() {
    let mut q = FrameQueue::new(2);
    assert!(!q.has_frame());
    let a = q.acquire_frame().unwrap();
    let b = q.acquire_frame().unwrap();
    let c = q.acquire_frame().unwrap();
    assert_eq!((a.index, b.index, c.index), (0, 1, 2));
    assert_eq!(a.state, FrameState::Empty);
    assert!(q.submit_frame(a).is_ok());
    assert!(q.submit_frame(b).is_ok());
    assert!(matches!(q.submit_frame(c), Err(GpuRendererError::FrameQueueFull)));
    assert!(q.has_frame());
    let first = q.try_get_frame().unwrap();
    assert_eq!(first.index, 0);
    let second = q.try_get_frame().unwrap();
    assert_eq!(second.index, 1);
    assert!(q.try_get_frame().is_none());
    assert!(!q.has_frame());
}

#[test]
fn frame_queue_reuses_returned_frames() {
    let mut q = FrameQueue::new(4);
    let mut f = GpuFrame::with_cpu_buffer(7, 2, 2);
    f.mark_rendering_at(10);
    f.mark_ready_at(20);
    q.return_frame(f);
    let g = q.acquire_frame().unwrap();
    // the pooled frame comes back emptied, with the next index and its pixels
    assert_eq!(g.index, 0);
    assert_eq!(g.state, FrameState::Empty);
    assert_eq!(g.render_time(), None);
    assert_eq!(g.pixels().unwrap().len(), 16);
    // the pool keeps at most FRAME_QUEUE_CAPACITY frames
    for i in 0..(FRAME_QUEUE_CAPACITY + 2) {
        q.return_frame(GpuFrame::new(100 + i as u64));
    }
    let mut reused = 0;
    for _ in 0..(FRAME_QUEUE_CAPACITY + 2) {
        let f = q.acquire_frame().unwrap();
        if f.width == 0 {
            reused += 1;
        }
    }
    assert_eq!(reused, FRAME_QUEUE_CAPACITY + 2);
}

#[test]
fn frame_queue_of_zero_capacity_refuses_everything() {
    let mut q = FrameQueue::new(0);
    let f = q.acquire_frame().unwrap();
    assert!(matches!(q.submit_frame(f), Err(GpuRendererError::FrameQueueFull)));
    assert!(q.try_get_frame().is_none());
}

#[test]
fn split_layout_positions() {
    let layout = WindowLayout::default();
    assert_eq!(layout.webview_width(), 1120);
    assert_eq!(layout.panel_width(), 480);
    assert_eq!(layout.webview_x(), 100);
    assert_eq!(layout.panel_x(), 1220);
    let (w, p) = calculate_positions(Some(&layout)).unwrap();
    assert_eq!(w, WindowPos { x: 100, y: 100, width: 1120, height: 900 });
    assert_eq!(p, WindowPos { x: 1220, y: 100, width: 480, height: 900 });
    assert!(calculate_positions(None).is_none());
}

#[test]
fn split_layout_finds_windows_by_title() {
    let layout = WindowLayout::default();
    let windows = vec![
        TopLevelWindow { visible: false, title: "Rusty Browser - WebView".to_string() },
        TopLevelWindow { visible: true, title: String::new() },
        TopLevelWindow { visible: true, title: "New Tab - Rusty Browser Hybrid".to_string() },
        TopLevelWindow { visible: true, title: "Rusty Browser - WebView".to_string() },
    ];
    let (i, pos) = find_and_position_webview(&windows, Some(&layout)).unwrap();
    assert_eq!(i, 3);
    assert_eq!(pos.width, 1120);
    let (j, pos) = position_control_panel(&windows, Some(&layout)).unwrap();
    assert_eq!(j, 2);
    assert_eq!(pos.x, 1220);
    assert!(find_and_position_webview(&windows, None).is_none());
    assert!(find_and_position_webview(&windows[..3], Some(&layout)).is_none());
}

#[test]
fn mock_embedding_is_the_zero_vector() {
    let v = MockEmbeddingModel.embed("anything at all");
    assert_eq!(v.len(), EMBEDDING_DIMENSIONS);
    assert_eq!(v.len(), 384);
    assert!(v.iter().all(|b| f32::from_bits(*b) == 0.0));
}

#[test]
fn dx_interop_shared_handle_is_null() {
    let d = WindowsDxInterop::new(64, 32).unwrap();
    assert_eq!(d.get_shared_handle().unwrap(), 0);
}

#[test]
fn history_clear_older_than_keeps_recent_entries() {
    let mut config = HistoryConfig::with_db_path("clear.redb".to_string());
    config.max_entries = 100;
    let mut m = HistoryManager::new(config);
    let day: i128 = 86_400_000_000_000;
    m.add_visit_at(HistoryEntry::new_at(1, "https://old.example", "Old", 10 * day), 10 * day).unwrap();
    m.add_visit_at(HistoryEntry::new_at(2, "https://new.example", "New", 19 * day), 19 * day).unwrap();
    // at day 20, entries older than five days go
    assert_eq!(m.clear_older_than_at(5 * 86_400, 20 * day), 1);
    assert!(m.get_entry_by_url("https://old.example").is_none());
    assert!(m.get_entry_by_url("https://new.example").is_some());
    // an age reaching back before the epoch removes nothing
    assert_eq!(m.clear_older_than_at(u64::MAX, 20 * day), 0);
    // against the clock, an entry from day 19 of 1970 is old
    assert_eq!(m.clear_older_than(1), 1);
    assert_eq!(m.entry_count(), 0);
}

#[test]
fn window_and_session_mutable_access() {
    let mut w = WindowState::new();
    w.add_tab(TabState::new("https://a.example", "A"));
    w.get_active_tab_mut().unwrap().title = "Changed".to_string();
    assert_eq!(w.get_active_tab().unwrap().title, "Changed");
    let mut s = Session::new();
    let before = s.windows.len();
    s.get_active_window_mut().unwrap().incognito = true;
    assert!(s.get_active_window().unwrap().incognito);
    assert_eq!(s.windows.len(), before);
    let mut empty = WindowState::new();
    empty.tabs.clear();
    assert!(empty.get_active_tab_mut().is_none());
}

#[test]
fn session_manager_takes_a_history_manager() {
    let mut m = SessionManager::new(SessionConfig::with_db_path("sessions.redb".to_string()));
    let h = HistoryManager::new(HistoryConfig::with_db_path("h.redb".to_string()));
    m.set_history_manager(h);
    assert_eq!(m.get_all_sessions().len(), 0);
}

#[test]
fn focus_update_element_keeps_identifier() {
    let mut f = FocusManager::new();
    let bounds = BoundsBits { x: 0, y: 0, width: 0, height: 0 };
    f.register_element(FocusableElement { id: FocusId(1), tab_index: 0, enabled: true, visible: true, bounds });
    f.register_element(FocusableElement { id: FocusId(2), tab_index: 1, enabled: true, visible: true, bounds });
    f.update_element(FocusId(2), |e| FocusableElement { id: FocusId(9), tab_index: -1, visible: false, ..e });
    let es = f.elements();
    let e2 = es.iter().find(|e| e.id == FocusId(2)).unwrap();
    assert_eq!(e2.tab_index, -1);
    assert!(!e2.visible);
    assert!(es.iter().all(|e| e.id != FocusId(9)));
    // hidden elements leave the tab order
    assert_eq!(f.focus_next(), Some(FocusId(1)));
    assert_eq!(f.focus_next(), Some(FocusId(1)));
    f.update_element(FocusId(5), |e| e);
    assert_eq!(f.elements().len(), 2);
}

#[test]
fn frame_controller_settings() {
    let mut c = FrameController::new();
    assert_eq!(c.target_fps, 60);
    assert!(c.vsync_enabled);
    assert_eq!(c.request_frame(), WakerMessage::NewFrameReady);
    c.set_target_fps(144);
    c.set_vsync(false);
    assert_eq!(c.target_fps, 144);
    assert!(!c.vsync_enabled);
}

fn f(x: f64) -> u64 {
    x.to_bits()
}

#[test]
fn input_state_tracks_buttons_keys_and_touches() {
    let mut s = InputState::new();
    assert_eq!(s.window_size(), (800, 600));
    assert_eq!(s.scale_factor(), SCALE_ONE_BITS);
    assert!(s.has_focus());
    s.update_at(&InputEvent::MouseMove { x: f(10.0), y: f(20.0), delta_x: 0, delta_y: 0 }, 0);
    s.update_at(&InputEvent::MouseMove { x: f(15.0), y: f(25.0), delta_x: 0, delta_y: 0 }, 0);
    assert_eq!(s.mouse_position(), (f(15.0), f(25.0)));
    assert_eq!(s.last_mouse_position(), (f(10.0), f(20.0)));
    s.update_at(&InputEvent::MouseDown { button: MouseButton::Left, x: 0, y: 0 }, 0);
    s.update_at(&InputEvent::MouseDown { button: MouseButton::Left, x: 0, y: 0 }, 0);
    assert!(s.is_mouse_button_pressed(MouseButton::Left));
    assert_eq!(s.pressed_mouse_buttons().len(), 1);
    s.update_at(&InputEvent::MouseUp { button: MouseButton::Left, x: 0, y: 0 }, 0);
    assert!(!s.is_any_mouse_button_pressed());
    let shift = Modifiers::new(true, false, false, false);
    s.update_at(&InputEvent::KeyDown { key: Key::Character("a".to_string()), modifiers: shift, repeat: false }, 0);
    s.update_at(&InputEvent::KeyDown { key: Key::Named(NamedKey::Tab), modifiers: shift, repeat: false }, 0);
    assert!(s.is_key_pressed(&Key::Character("a".to_string())));
    assert!(!s.is_key_pressed(&Key::Character("b".to_string())));
    assert_eq!(s.modifiers(), shift);
    s.update_at(&InputEvent::KeyUp { key: Key::Character("a".to_string()), modifiers: Modifiers::default() }, 0);
    assert!(!s.is_key_pressed(&Key::Character("a".to_string())));
    assert!(s.is_any_key_pressed());
    assert!(s.modifiers().is_empty());
    s.update_at(&InputEvent::TouchStart { id: 4, x: f(1.0), y: f(2.0), pressure: f(0.5) }, 99);
    s.update_at(&InputEvent::TouchMove { id: 4, x: f(3.0), y: f(4.0), pressure: f(0.7) }, 100);
    assert_eq!(s.touch_count(), 1);
    let t = s.touch_points()[0];
    assert_eq!((t.x, t.y, t.start_x, t.start_y, t.start_time), (f(3.0), f(4.0), f(1.0), f(2.0), 99));
    s.update_at(&InputEvent::Resize { width: 1024, height: 768 }, 0);
    s.update_at(&InputEvent::ScaleFactorChanged { scale: f(2.0) }, 0);
    assert_eq!(s.window_size(), (1024, 768));
    assert_eq!(s.scale_factor(), f(2.0));
    s.update_at(&InputEvent::FocusLost, 0);
    assert!(!s.has_focus());
    assert!(!s.is_any_key_pressed());
    assert_eq!(s.touch_count(), 0);
    s.update(&InputEvent::FocusGained);
    assert!(s.has_focus());
}

#[test]
fn input_state_touch_limit_and_end() {
    let mut s = InputState::default();
    for id in 0..(MAX_TOUCH_POINTS as u64 + 3) {
        s.update_at(&InputEvent::TouchStart { id, x: 0, y: 0, pressure: 0 }, 1);
    }
    assert_eq!(s.touch_count(), MAX_TOUCH_POINTS);
    s.update_at(&InputEvent::TouchEnd { id: 3, x: 0, y: 0 }, 1);
    s.update_at(&InputEvent::TouchCancel { id: 4 }, 1);
    s.update_at(&InputEvent::TouchCancel { id: 99 }, 1);
    assert_eq!(s.touch_count(), MAX_TOUCH_POINTS - 2);
    assert!(s.touch_points().iter().all(|t| t.id != 3 && t.id != 4));
    s.clear();
    assert_eq!(s.touch_count(), 0);
}

#[test]
fn input_event_classification() {
    let e = InputEvent::MouseScroll { delta: ScrollDelta::Lines { x: 0, y: f(1.0) }, x: f(5.0), y: f(6.0) };
    assert!(e.is_mouse() && !e.is_keyboard() && !e.is_touch());
    assert_eq!(e.position(), Some((f(5.0), f(6.0))));
    let k = InputEvent::CharacterInput { character: 'x' };
    assert!(k.is_keyboard());
    assert_eq!(k.position(), None);
    assert!(InputEvent::TouchCancel { id: 1 }.is_touch());
    assert_eq!(InputEvent::TouchCancel { id: 1 }.position(), None);
}

#[test]
fn zoom_clamp_matches_float_clamp() {
    for x in [-1.0f64, -0.0, 0.0, 0.1, 0.25, 0.5, 1.0, 4.99, 5.0, 7.5, f64::INFINITY, f64::NEG_INFINITY, 1e300] {
        assert_eq!(f64::from_bits(clamp_zoom_bits(x.to_bits())), x.clamp(0.25, 5.0), "{}", x);
    }
    assert!(f64::from_bits(clamp_zoom_bits(f64::NAN.to_bits())).is_nan());
    let mut t = Tab::new(None);
    t.set_zoom(9.0f64.to_bits());
    assert_eq!(f64::from_bits(t.get_state().zoom_level_bits), 5.0);
    t.set_zoom(0.5f64.to_bits());
    assert_eq!(f64::from_bits(t.get_state().zoom_level_bits), 0.5);
}

#[test]
fn renderer_scale_factor_is_set() {
    let mut r = ServoRenderer::new();
    r.set_scale_factor(2.0f64.to_bits());
    assert_eq!(r.get_size(), (800, 600));
}

#[test]
fn navigation_error_conversions() {
    let e: NavigationError = HistoryError::InvalidTimeRange.into();
    assert!(matches!(e, NavigationError::History(HistoryError::InvalidTimeRange)));
    let e: NavigationError = SessionError::AutoSaveAlreadyRunning.into();
    assert!(matches!(e, NavigationError::Session(SessionError::AutoSaveAlreadyRunning)));
}

#[test]
fn servo_frames() {
    let cpu = ServoFrame::new(3, 2, 3, false);
    assert_eq!(cpu.cpu_buffer.as_ref().unwrap().len(), 24);
    assert!(!cpu.is_gpu);
    let gpu = ServoFrame::new(4, 2, 3, true);
    assert!(gpu.cpu_buffer.is_none());
    let g = ServoFrame::with_gpu_frame(5, GpuFrame::with_cpu_buffer(1, 4, 4));
    assert_eq!((g.index, g.width, g.height, g.is_gpu), (5, 4, 4, true));
    assert!(g.gpu_frame.is_some());
}

#[test]
fn starts_with_prefixes() {
    assert!(str_starts_with("https://x", "https://"));
    assert!(!str_starts_with("http", "https://"));
    assert!(str_starts_with("abc", ""));
}

#[test]
fn browser_app_navigation_flow() {
    let mut app = BrowserApp::default();
    assert_eq!(app.title(), "Rusty Browser");
    assert!(app.update(AppMessage::UrlChanged("example.com".to_string())).is_none());
    let next = app.update(AppMessage::NavigateSubmitted).unwrap();
    let url = match next {
        AppMessage::NavigateTo(u) => u,
        _ => panic!("expected a navigation"),
    };
    assert_eq!(url, "https://example.com");
    assert!(matches!(app.update(AppMessage::NavigateTo(url)), Some(AppMessage::LoadingStarted)));
    // reloading asks to load the active tab's URL again
    match app.update(AppMessage::Reload) {
        Some(AppMessage::NavigateTo(u)) => assert_eq!(u, "https://example.com"),
        _ => panic!("expected a reload"),
    }
    assert!(app.update(AppMessage::LoadingFinished).is_none());
    assert!(matches!(app.update(AppMessage::GoBack), Some(AppMessage::LoadingFinished)));
    app.update(AppMessage::UrlChanged("http://plain.example".to_string()));
    match app.update(AppMessage::NavigateSubmitted) {
        Some(AppMessage::NavigateTo(u)) => assert_eq!(u, "http://plain.example"),
        _ => panic!("expected a navigation"),
    }
}

#[test]
fn browser_app_tabs() {
    let mut app = BrowserApp::new();
    match app.update(AppMessage::NewTab) {
        Some(AppMessage::NavigateTo(u)) => assert_eq!(u, START_PAGE),
        _ => panic!("expected the start page"),
    }
    // switching reports the active tab's address
    match app.update(AppMessage::SwitchTab(rusty_browser::browser_session::TabId(0))) {
        Some(AppMessage::UrlChanged(u)) => assert_eq!(u, "about:blank"),
        _ => panic!("expected the active tab's URL"),
    }
    assert!(matches!(
        app.update(AppMessage::CloseTab(rusty_browser::browser_session::TabId(12345))),
        Some(AppMessage::LoadingFinished)
    ));
    let session = BrowserSession::new();
    let w = session.window_manager.get_active_window().unwrap();
    assert_eq!(w.tab_manager.get_active_tab().unwrap().url, "about:blank");
}

#[test]
fn hybrid_app_flow() {
    let mut app = HybridBrowserApp::default();
    assert_eq!(app.title(), "New Tab - Rusty Browser Hybrid");
    assert_eq!(app.theme(), ThemeMode::Dark);
    assert_eq!(app.control_panel_width(), 500);
    match app.startup() {
        HybridEffect::NavigateWebView(u) => assert_eq!(u, START_PAGE),
        _ => panic!("expected the start page"),
    }
    // navigating to the current page does nothing
    assert!(matches!(app.update(HybridMessage::NavigateTo(START_PAGE.to_string())), HybridEffect::Nothing));
    app.update(HybridMessage::UrlChanged("about:config".to_string()));
    match app.update(HybridMessage::NavigateSubmitted) {
        HybridEffect::Dispatch(HybridMessage::NavigateTo(u)) => assert_eq!(u, "about:config"),
        _ => panic!("expected a navigation"),
    }
    app.update(HybridMessage::UrlChanged("rust-lang.org".to_string()));
    let u = match app.update(HybridMessage::NavigateSubmitted) {
        HybridEffect::Dispatch(HybridMessage::NavigateTo(u)) => u,
        _ => panic!("expected a navigation"),
    };
    assert_eq!(u, "https://rust-lang.org");
    // the address bar already shows the text, so nothing is loaded
    assert!(matches!(app.update(HybridMessage::NavigateTo("rust-lang.org".to_string())), HybridEffect::Nothing));
    match app.update(HybridMessage::NavigateTo(u)) {
        HybridEffect::NavigateWebView(w) => assert_eq!(w, "https://rust-lang.org"),
        _ => panic!("expected the web view to load"),
    }
    assert!(matches!(app.update(HybridMessage::PollWebView), HybridEffect::PollWebView));
    let events = vec![
        WebViewEvent::LoadStarted { url: "https://rust-lang.org".to_string() },
        WebViewEvent::UrlChanged { url: "https://www.rust-lang.org/".to_string() },
        WebViewEvent::TitleChanged { title: "Rust".to_string() },
        WebViewEvent::LoadFinished { url: "https://www.rust-lang.org/".to_string(), success: true },
    ];
    let msg = after_poll(events).unwrap();
    assert!(matches!(app.update(msg), HybridEffect::Nothing));
    assert_eq!(app.title(), "Rust - Rusty Browser Hybrid");
    assert!(after_poll(Vec::new()).is_none());
    match app.update(HybridMessage::Reload) {
        HybridEffect::NavigateWebView(w) => assert_eq!(w, "https://www.rust-lang.org/"),
        _ => panic!("expected a reload"),
    }
    match app.update(HybridMessage::PositionWindows) {
        HybridEffect::PlaceWebView(p) => assert_eq!(p, WindowPos { x: 650, y: 100, width: 1100, height: 800 }),
        _ => panic!("expected the web view to be placed"),
    }
    assert!(matches!(app.update(HybridMessage::PositionWindows), HybridEffect::Nothing));
    app.update(HybridMessage::ToggleControlPanel);
    assert_eq!(app.control_panel_width(), 50);
    app.update(HybridMessage::Sidebar(SidebarMessage::TogglePanel));
    assert_eq!(app.control_panel_width(), 500);
    app.update(HybridMessage::NetworkPanel(NetworkMessage::ToggleProxy(true)));
    app.update(HybridMessage::ExtractionPanel(ExtractionMessage::AddField));
    match app.update(HybridMessage::NewTab) {
        HybridEffect::Dispatch(HybridMessage::NavigateTo(u)) => assert_eq!(u, START_PAGE),
        _ => panic!("expected the start page"),
    }
}
