use rusty_browser::browser_session::TabManager as StubTabManager;
use rusty_browser::control_panel::{AiTool, ControlPanelState, ExtractionTool, NetworkTool, ToolCategory};
use rusty_browser::dev_server::{
    change_event, content_kind, inject_live_reload, is_watched_path, route_request, static_target,
    ContentKind, DevServerConfig, HotReloadServer, FileChangeEvent, RequestRoute, StaticTarget,
};
use rusty_browser::frame_buffer::{DoubleBuffer, FrameState as BufferState, PixelBuffer, ServoRenderer};
use rusty_browser::input::{key_to_code, modifiers_to_bits, Key, Modifiers, MouseButton};
use rusty_browser::keys::{named_key_to_code, CoreMouseButton, NamedKey, TouchEventType};
use rusty_browser::llm::{format_chat_prompt, ChatMessage as LlmMessage, MessageRole as LlmRole, MockLlm};
use rusty_browser::panels::{
    AiMessage, AiPanel, DevToolsMessage, DevToolsPanel, DevToolsTab, ExtractionMessage, ExtractionPanel, MessageRole,
    NetworkMessage, NetworkPanel, SettingsMessage, SettingsPanel, Sidebar, SidebarMessage,
};
use rusty_browser::pixels::read_pixels_gl;
use rusty_browser::platform::{create_dmabuf_surface, lookup_iosurface, MacOSIOSurface, WindowsDxInterop};
use rusty_browser::recent_history::{DownloadManager, DownloadStatus, HistoryManager as RecentHistory, MAX_HISTORY_ENTRIES};
use rusty_browser::render::{create_io_surface, GpuFrame, GpuRendererError};
use rusty_browser::servo::{ServoWebViewBuilder, TouchPhase};
use rusty_browser::tab::{PageVisit, Tab, TabManager};
use rusty_browser::theme::{BrowserTheme, ThemeMode};
use rusty_browser::webview_ipc::{WebViewEvent, WebViewState as IpcState};
use rusty_browser::webview_widget::{map_message, WebViewMessage};
use rusty_browser::webview_wry::WebViewState;
use rusty_browser::window::{WindowManager, WindowState as WinMode};

#[test]
fn tool_category_names_and_icons() {
    assert_eq!(ToolCategory::AiEngine.name(), "AI Engine");
    assert_eq!(ToolCategory::Extraction.icon(), "DATA");
    assert_eq!(ToolCategory::default(), ToolCategory::Network);
}

#[test]
fn control_panel_toggle_and_select() {
    let mut s = ControlPanelState::default();
    assert!(s.is_expanded);
    assert_eq!(s.panel_width, 350);
    s.toggle();
    assert!(!s.is_expanded);
    s.select_category(ToolCategory::DevTools);
    assert!(s.is_expanded);
    assert_eq!(s.selected_category, ToolCategory::DevTools);
}

#[test]
fn tools_state() {
    let mut ai = AiTool::new();
    assert_eq!(ai.model, "default");
    ai.select_model("local".to_string());
    ai.toggle_rag(true);
    assert_eq!(ai.model, "local");
    assert!(ai.rag_enabled);

    let mut net = NetworkTool::new();
    net.toggle_proxy(true);
    net.toggle_adblock(true);
    net.clear_cache();
    assert!(net.proxy_enabled && net.adblock_enabled && !net.privacy_mode);

    let mut ex = ExtractionTool::new();
    let id = ex.create_schema("s".to_string(), "div".to_string());
    assert_eq!(ex.schemas.len(), 1);
    assert_eq!(ex.schemas[0].id, id);
}

#[test]
fn ai_panel_updates() {
    let mut p = AiPanel::new();
    assert_eq!(p.chat_history.len(), 1);
    p.update(AiMessage::SendPrompt);
    assert_eq!(p.chat_history.len(), 1);
    p.update(AiMessage::PromptChanged("hi".to_string()));
    p.update(AiMessage::SendPrompt);
    assert_eq!(p.chat_history.len(), 3);
    assert_eq!(p.chat_history[1].content, "hi");
    assert!(p.prompt.is_empty());
    p.update(AiMessage::SummarizePage);
    p.update(AiMessage::ClearChat);
    assert_eq!(p.chat_history.len(), 1);
    assert_eq!(p.chat_history[0].role, MessageRole::System);
}

#[test]
fn devtools_and_extraction_panels() {
    let mut d = DevToolsPanel::new();
    d.update(DevToolsMessage::ConsoleInputChanged("1+1".to_string()));
    d.update(DevToolsMessage::ExecuteConsole);
    assert_eq!(d.console_output[2], "> 1+1");
    assert_eq!(d.console_output[3], "< undefined");
    d.update(DevToolsMessage::TabSelected(DevToolsTab::Storage));
    assert_eq!(d.active_tab.name(), "Storage");
    d.update(DevToolsMessage::ClearConsole);
    assert!(d.console_output.is_empty());

    let mut e = ExtractionPanel::new();
    e.update(ExtractionMessage::AddField);
    assert_eq!(e.fields[1].name, "field_1");
    e.update(ExtractionMessage::RemoveField(0));
    assert_eq!(e.fields.len(), 1);
    e.update(ExtractionMessage::RemoveField(9));
    assert_eq!(e.fields.len(), 1);
}

#[test]
fn network_settings_sidebar() {
    let mut n = NetworkPanel::new();
    assert_eq!(n.proxy_port, 8080);
    n.update(NetworkMessage::ProxyPortChanged(9000));
    assert_eq!(n.proxy_port, 9000);

    let mut s = SettingsPanel::new();
    s.update(SettingsMessage::ToggleTheme);
    assert_eq!(s.theme_mode, ThemeMode::Light);
    s.update(SettingsMessage::ThemeModeChanged(ThemeMode::HighContrast));
    s.update(SettingsMessage::ToggleTheme);
    assert_eq!(s.theme_mode, ThemeMode::Light);
    assert_eq!(f32::from_bits(s.zoom_level_bits), 100.0);

    let mut side = Sidebar::new(true, ToolCategory::Network);
    assert_eq!(side.width(), 160);
    side.update(SidebarMessage::TogglePanel);
    assert_eq!(side.width(), 50);
    side.update(SidebarMessage::CategorySelected(ToolCategory::Settings));
    assert_eq!(side.selected(), ToolCategory::Settings);
}

#[test]
fn theme_auto_follows_system() {
    let mut t = BrowserTheme::new(ThemeMode::Auto);
    assert!(t.update_from_system(ThemeMode::Light));
    assert!(!t.update_from_system(ThemeMode::Light));
    let mut d = BrowserTheme::new(ThemeMode::Dark);
    assert!(!d.update_from_system(ThemeMode::Light));
    assert_eq!(BrowserTheme::new(ThemeMode::HighContrast).toggle().mode(), ThemeMode::Auto);
    assert!(BrowserTheme::new(ThemeMode::HighContrast).is_high_contrast());
    assert_eq!(ThemeMode::all_modes().len(), 4);
}

#[test]
fn key_codes_and_bits() {
    assert_eq!(named_key_to_code(NamedKey::F12), 123);
    assert_eq!(named_key_to_code(NamedKey::Hyper), 0);
    assert_eq!(key_to_code(&Key::Character("a".to_string())), 97);
    assert_eq!(key_to_code(&Key::Character(String::new())), 0);
    assert_eq!(key_to_code(&Key::Unidentified), 0);
    assert_eq!(Key::Unidentified.to_core_string(), "Unidentified");
    assert_eq!(Key::Named(NamedKey::ArrowUp).to_core_string(), "ArrowUp");
    assert_eq!(modifiers_to_bits(Modifiers::new(true, false, true, true)), 13);
    assert!(matches!(MouseButton::Other(7).to_core(), CoreMouseButton::Left));
    assert!(matches!(TouchEventType::from(TouchPhase::Cancelled), TouchEventType::Cancel));
}

#[test]
fn pixel_read_back_pattern() {
    let mut buf = vec![0u8; 3 * 2 * 4];
    read_pixels_gl(3, 2, &mut buf);
    // pixel 4 is column 1, row 1
    assert_eq!(&buf[16..20], &[1, 1, 128, 255]);
    assert_eq!(&buf[8..12], &[2, 0, 128, 255]);
}

#[test]
fn pixel_flip_twice_and_swap_twice() {
    let orig: Vec<u8> = (0..24u8).collect();
    let mut b = orig.clone();
    rusty_browser::pixels::flip_pixels_vertical(&mut b, 2, 3);
    assert_eq!(&b[0..8], &orig[16..24]);
    rusty_browser::pixels::flip_pixels_vertical(&mut b, 2, 3);
    assert_eq!(b, orig);

    let mut c = vec![1, 2, 3, 4, 5, 6, 7];
    rusty_browser::pixels::convert_rgba_to_bgra(&mut c);
    assert_eq!(c, vec![3, 2, 1, 4, 7, 6, 5]);
    rusty_browser::pixels::convert_rgba_to_bgra(&mut c);
    assert_eq!(c, vec![1, 2, 3, 4, 5, 6, 7]);
}

#[test]
fn frame_buffers() {
    let mut p = PixelBuffer::with_capacity(4, 4);
    p.set_size(2, 2);
    assert_eq!(p.pixels().len(), 16);
    p.pixels_mut()[0] = 9;
    assert_eq!(p.pixels()[0], 9);

    let mut d = DoubleBuffer::new(4, 4);
    d.set_size(3, 3);
    d.back_mut().pixels_mut()[0] = 7;
    d.swap();
    assert_eq!(d.front().pixels()[0], 7);

    let mut r = ServoRenderer::new();
    assert_eq!(r.get_size(), (800, 600));
    r.set_size(10, 10);
    r.back_buffer().pixels_mut()[0] = 5;
    assert_eq!(r.frame_state(), BufferState::Rendering);
    r.present();
    assert!(r.has_new_frame());
    assert_eq!(r.front_buffer().pixels()[0], 5);
    r.mark_consumed();
    assert_eq!(r.frame_state(), BufferState::Empty);
    assert_eq!(BufferState::from_u8(2), BufferState::Ready);
    assert_eq!(BufferState::from_u8(9), BufferState::Empty);
}

#[test]
fn gpu_frame_cpu_buffer() {
    let mut f = GpuFrame::with_cpu_buffer(1, 2, 2);
    assert_eq!(f.pixels().unwrap().len(), 16);
    f.resize(3, 1);
    assert_eq!(f.pixels().unwrap().len(), 12);
    f.mark_rendering_at(100);
    f.mark_ready_at(160);
    assert_eq!(f.render_time(), Some(60));
    f.mark_empty();
    assert_eq!(f.render_time(), None);
    assert!(matches!(create_io_surface(1, 1), Err(GpuRendererError::UnsupportedRenderMode(_))));
    match create_io_surface(1920, 1080) {
        Err(GpuRendererError::UnsupportedRenderMode(m)) => assert_eq!(m, "IOSurface not yet implemented"),
        _ => panic!("IOSurface creation must be refused"),
    }
}

#[test]
fn platform_handles() {
    let m = create_dmabuf_surface(4, 2).unwrap();
    assert_eq!(m.size, 32);
    assert_eq!(m.fd, -1);
    let s = MacOSIOSurface::new(10, 5).unwrap();
    assert_eq!(s.bytes_per_row, 40);
    assert_eq!(s.pixel_format, 0x42475241);
    assert_eq!(lookup_iosurface(42).unwrap().surface_id, 42);
    assert_eq!(WindowsDxInterop::new(1, 1).unwrap().format, 87);
}

#[test]
fn builder_user_agent() {
    let b = ServoWebViewBuilder::new().with_user_agent("UA").with_url("https://x.org");
    assert_eq!(b.config.user_agent, Some("UA".to_string()));
    assert_eq!(b.config.url, "https://x.org");
    assert_eq!(b.config.target_fps, 60);
}

#[test]
fn webview_states() {
    let mut w = WebViewState::new();
    assert_eq!(w.current_url(), "about:blank");
    assert_eq!(w.current_title(), "New Tab");
    w.navigate("https://a.org");
    assert!(w.is_loading());

    let mut s = IpcState::new();
    s.apply_event(&WebViewEvent::LoadStarted { url: "u".to_string() });
    assert!(s.is_loading);
    s.apply_event(&WebViewEvent::TitleChanged { title: "T".to_string() });
    s.apply_event(&WebViewEvent::LoadFinished { url: "u".to_string(), success: true });
    assert_eq!(s.title, "T");
    assert!(!s.is_loading);
    s.set_visible(false);
    assert!(!s.is_visible);

    let n = map_message(WebViewMessage::Poll, |m| matches!(m, WebViewMessage::Poll));
    assert!(n);
}

#[test]
fn dev_server_decisions() {
    let c = DevServerConfig::default();
    let server = HotReloadServer::new(c);
    assert_eq!(server.url(), "http://127.0.0.1:8080");
    assert!(server.live_reload());
    let other = HotReloadServer::new(DevServerConfig { port: 9000, workspace_dir: "site".to_string(), live_reload: false, sourcemap: false });
    assert_eq!(other.ws_url(), "ws://127.0.0.1:9000/livereload");
    assert!(!other.live_reload());
    assert_eq!(route_request("GET", "/livereload"), RequestRoute::LiveReloadInfo);
    assert_eq!(route_request("POST", "/livereload"), RequestRoute::StaticFile);
    assert!(matches!(static_target("/?x=1"), StaticTarget::Index));
    assert!(matches!(static_target("/../etc/passwd"), StaticTarget::Forbidden));
    match static_target("//css/site.css?v=2") {
        StaticTarget::File(f) => assert_eq!(f, "css/site.css"),
        _ => panic!("expected a file"),
    }
    assert!(matches!(content_kind(Some("htm")), ContentKind::Html));
    assert!(matches!(content_kind(Some("jpeg")), ContentKind::Typed("image/jpeg")));
    assert!(matches!(content_kind(None), ContentKind::Typed("application/octet-stream")));
    assert_eq!(
        inject_live_reload("<html><head></head><body></body></html>", true),
        "<html><head><script src=\"/__livereload__\"></script></head><body></body></html>"
    );
    assert_eq!(inject_live_reload("<body></body>", false), "<body></body>");
    assert!(matches!(change_event("a.css", "unlink"), FileChangeEvent::Remove { .. }));
    assert!(is_watched_path("src/main.js"));
    assert!(!is_watched_path(".hidden"));
    assert!(!is_watched_path("node_modules/x.js"));
}

#[test]
fn llm_prompt_and_mock() {
    let ms = vec![
        LlmMessage { role: LlmRole::System, content: "be brief".to_string() },
        LlmMessage { role: LlmRole::User, content: "hi".to_string() },
    ];
    assert_eq!(format_chat_prompt(&ms), "system: be brief\nuser: hi");
    assert_eq!(MockLlm.chat(&ms), "Mock chat response to 2 messages");
    assert_eq!(MockLlm.tokenize("x"), vec![1, 2, 3]);
    assert_eq!(MockLlm.model_info().context_length, 1024);
}

#[test]
fn recent_history_bound_and_search() {
    let mut h = RecentHistory::new();
    for i in 0..(MAX_HISTORY_ENTRIES as u128 + 5) {
        h.add_entry(PageVisit { id: i, url: format!("https://s{}.com", i), title: None, timestamp: i as i128, visit_count: 1 });
    }
    assert_eq!(h.get_count(), MAX_HISTORY_ENTRIES);
    let recent = h.get_recent(2);
    assert_eq!(recent[0].id, MAX_HISTORY_ENTRIES as u128 + 4);
    assert_eq!(h.search("S1004.COM").len(), 1);
    h.clear();
    assert_eq!(h.get_count(), 0);
}

#[test]
fn downloads_lifecycle() {
    let mut d = DownloadManager::new();
    let id = d.start_download("https://x/f".to_string(), "f".to_string(), "/tmp/f".to_string());
    assert_eq!(d.get_download(id).unwrap().status, DownloadStatus::Pending);
    d.update_progress(id, 50, Some(100), 50.0f64.to_bits());
    let got = d.get_download(id).unwrap();
    assert_eq!(got.status, DownloadStatus::InProgress);
    assert_eq!(f64::from_bits(got.progress_bits), 50.0);
    d.complete_download(id);
    assert_eq!(f64::from_bits(d.get_download(id).unwrap().progress_bits), 100.0);
    d.cancel_download(id ^ 1);
    assert_eq!(d.get_all_downloads().len(), 1);
}

#[test]
fn tabs_and_windows() {
    let mut t = Tab::new(None);
    t.navigate("https://a.com");
    t.navigate("https://b.com");
    assert_eq!(t.go_back(), Some("https://a.com".to_string()));
    // going back navigates again: the entry after the position is replaced
    assert_eq!(t.get_navigation_state().history.len(), 2);
    assert!(!t.get_navigation_state().can_go_forward);
    assert!(t.toggle_mute());

    let mut m = TabManager::new();
    let a = m.create_tab(None);
    let b = m.create_tab(None);
    assert!(m.set_active_tab(b));
    assert_eq!(m.close_tab(b), Some(a));
    assert_eq!(m.get_tab_count(), 1);
    assert_eq!(m.close_tab(b), None);

    let mut wm = WindowManager::new();
    let w1 = wm.create_window(false);
    let w2 = wm.create_window(true);
    assert_eq!(wm.get_window_count(), 2);
    assert_eq!(wm.close_window(w2.id), Some(w1.id));
    assert!(wm.get_active_window().is_some());
    let mut w = wm.get_window(w1.id).unwrap();
    w.set_state(WinMode::Maximized);
    assert_eq!(w.get_state(), WinMode::Maximized);

    let mut stub = StubTabManager::new();
    let t1 = stub.create_tab();
    assert!(stub.close_tab(t1.id));
    assert!(!stub.close_tab(t1.id));
}
