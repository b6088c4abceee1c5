use rusty_browser::focus::{BoundsBits, FocusManager, FocusableElement};
use rusty_browser::input::{AccessibilityAnnouncement, AccessibilitySupport, FocusId, Key, Modifiers, MouseButton};
use rusty_browser::keys::{CoreModifiers, CoreMouseButton, NamedKey};
use rusty_browser::pixels::{convert_rgba_to_bgra, flip_pixels_vertical};
use rusty_browser::input_state::{InputEvent, InputState};
use rusty_browser::render::{FrameQueue, FrameState, GpuFrame, RenderMode};
use rusty_browser::servo::{servo_key_code, servo_modifier_bits, to_servo_mouse_button, RenderPipelineState, ServoConfig, ServoFrame};
use rusty_browser::theme::{BrowserTheme, EffectiveTheme, ThemeMode};

#[test]
fn test_render_mode_prefers_gpu() {
    assert!(RenderMode::Gpu.prefers_gpu());
    assert!(RenderMode::Auto.prefers_gpu());
    assert!(!RenderMode::Cpu.prefers_gpu());
}

#[test]
fn test_modifiers() {
    let mods = Modifiers::new(true, true, false, false);
    assert!(mods.shift);
    assert!(mods.ctrl);
    assert!(!mods.alt);
    assert!(!mods.meta);
    assert!(mods.any());
    assert!(!mods.is_empty());

    let empty = Modifiers::default();
    assert!(!empty.any());
    assert!(empty.is_empty());
}

#[test]
fn input_system_test_mouse_button_conversion() {
    let left = MouseButton::Left;
    assert!(matches!(left.to_core(), CoreMouseButton::Left));

    let right = MouseButton::Right;
    assert!(matches!(right.to_core(), CoreMouseButton::Right));
}

#[test]
fn test_key_conversion() {
    let key = Key::Character("a".to_string());
    assert_eq!(key.to_core_string(), "a");

    let named = Key::Named(NamedKey::Enter);
    assert_eq!(named.to_core_string(), "Enter");
}

#[test]
fn test_accessibility_support() {
    let mut acc = AccessibilitySupport::new();

    assert!(!acc.is_screen_reader_enabled());

    acc.set_screen_reader_enabled(true);
    acc.announce(AccessibilityAnnouncement::Text("Hello".to_string()));

    assert!(acc.next_announcement().is_some());
    assert!(acc.next_announcement().is_none());
}

#[test]
fn test_focus_id_generation() {
    let id1 = FocusId::new();
    let id2 = FocusId::new();

    assert_ne!(id1, id2);
    assert_ne!(id1.0, id2.0);
}

#[test]
fn test_servo_config_default() {
    let config = ServoConfig::default();
    assert_eq!(config.url, "about:blank");
    assert_eq!(config.width, 1280);
    assert_eq!(config.height, 720);
    assert!(config.enable_javascript);
    assert!(config.enable_webgl);
}

#[test]
fn test_servo_config_builder() {
    let config = ServoConfig::with_url("https://example.com")
        .with_dimensions(1920, 1080)
        .with_render_mode(RenderMode::Gpu)
        .with_profiling(true);

    assert_eq!(config.url, "https://example.com");
    assert_eq!(config.width, 1920);
    assert_eq!(config.height, 1080);
    assert_eq!(config.render_mode, RenderMode::Gpu);
    assert!(config.enable_profiling);
}

#[test]
fn servo_integration_test_mouse_button_conversion() {
    assert!(matches!(to_servo_mouse_button(CoreMouseButton::Left), CoreMouseButton::Left));
    assert!(matches!(to_servo_mouse_button(CoreMouseButton::Right), CoreMouseButton::Right));
    assert!(matches!(to_servo_mouse_button(CoreMouseButton::Middle), CoreMouseButton::Middle));
}

#[test]
fn test_key_to_code() {
    assert_eq!(servo_key_code("KeyA"), 65);
    assert_eq!(servo_key_code("KeyZ"), 90);
    assert_eq!(servo_key_code("Digit0"), 48);
    assert_eq!(servo_key_code("Enter"), 13);
    assert_eq!(servo_key_code("Unknown"), 0);
}

#[test]
fn test_modifiers_to_u32() {
    let mods = CoreModifiers { shift: true, ctrl: true, alt: false, meta: false };
    assert_eq!(servo_modifier_bits(mods), 3);

    let mods = CoreModifiers { shift: false, ctrl: false, alt: true, meta: true };
    assert_eq!(servo_modifier_bits(mods), 12);
}

#[test]
fn test_cpu_fallback_flip_pixels() {
    let width = 2;
    let height = 2;
    let mut buffer = vec![
        1, 2, 3, 255, 4, 5, 6, 255, // top row
        7, 8, 9, 255, 10, 11, 12, 255, // bottom row
    ];

    flip_pixels_vertical(&mut buffer, width, height);

    assert_eq!(buffer[0..4], [7, 8, 9, 255]);
    assert_eq!(buffer[4..8], [10, 11, 12, 255]);
    assert_eq!(buffer[8..12], [1, 2, 3, 255]);
    assert_eq!(buffer[12..16], [4, 5, 6, 255]);
}

#[test]
fn test_cpu_fallback_rgba_to_bgra() {
    let mut buffer = vec![255, 128, 64, 255];
    convert_rgba_to_bgra(&mut buffer);
    assert_eq!(buffer, vec![64, 128, 255, 255]);
}

#[test]
fn test_render_pipeline_state() {
    assert_ne!(RenderPipelineState::Idle, RenderPipelineState::Rendering);
    assert_ne!(RenderPipelineState::Rendering, RenderPipelineState::FrameReady);
    assert_ne!(RenderPipelineState::FrameReady, RenderPipelineState::Presenting);
}

#[test]
fn test_theme_mode_display_names() {
    assert_eq!(ThemeMode::Dark.display_name(), "Dark");
    assert_eq!(ThemeMode::Light.display_name(), "Light");
    assert_eq!(ThemeMode::Auto.display_name(), "Auto");
    assert_eq!(ThemeMode::HighContrast.display_name(), "High Contrast");
}

#[test]
fn test_gpu_frame_lifecycle() {
    let mut frame = GpuFrame::new(0);

    assert_eq!(frame.state, FrameState::Empty);

    frame.mark_rendering();
    assert_eq!(frame.state, FrameState::Rendering);

    frame.mark_ready();
    assert_eq!(frame.state, FrameState::Ready);

    frame.mark_presenting();
    assert_eq!(frame.state, FrameState::Presenting);

    frame.mark_empty();
    assert_eq!(frame.state, FrameState::Empty);
}

fn bounds(x: f64, y: f64, w: f64, h: f64) -> BoundsBits {
    BoundsBits { x: x.to_bits(), y: y.to_bits(), width: w.to_bits(), height: h.to_bits() }
}

#[test]
fn test_focus_manager() {
    let mut focus = FocusManager::new();

    let id1 = FocusId::new();
    let id2 = FocusId::new();
    let id3 = FocusId::new();

    focus.register_element(FocusableElement { id: id1, tab_index: 0, enabled: true, visible: true, bounds: bounds(0.0, 0.0, 100.0, 100.0) });
    focus.register_element(FocusableElement { id: id2, tab_index: 1, enabled: true, visible: true, bounds: bounds(100.0, 0.0, 100.0, 100.0) });
    focus.register_element(FocusableElement { id: id3, tab_index: 2, enabled: false, visible: true, bounds: bounds(200.0, 0.0, 100.0, 100.0) });

    assert_eq!(focus.focus_next(), Some(id1));
    assert_eq!(focus.focus_next(), Some(id2));
    // id3 is disabled: the search wraps to id1
    assert_eq!(focus.focus_next(), Some(id1));

    // the point (150, 50) lies in id2's bounds only
    let hits: Vec<FocusId> = focus
        .elements()
        .iter()
        .filter(|e| {
            let (x, y) = (150.0, 50.0);
            let ex = f64::from_bits(e.bounds.x);
            let ey = f64::from_bits(e.bounds.y);
            let ew = f64::from_bits(e.bounds.width);
            let eh = f64::from_bits(e.bounds.height);
            x >= ex && x < ex + ew && y >= ey && y < ey + eh
        })
        .map(|e| e.id)
        .collect();
    assert_eq!(focus.focus_at_point(&hits), Some(id2));
    assert!(focus.is_focused(id2));
}

#[test]
fn test_theme_creation() {
    let dark_theme = BrowserTheme::new(ThemeMode::Dark);
    assert_eq!(dark_theme.mode(), ThemeMode::Dark);
    assert!(matches!(dark_theme.effective_theme(), EffectiveTheme::Dark));

    let light_theme = BrowserTheme::new(ThemeMode::Light);
    assert_eq!(light_theme.mode(), ThemeMode::Light);
    assert!(matches!(light_theme.effective_theme(), EffectiveTheme::Light));
}

#[test]
fn test_theme_toggle() {
    let dark_theme = BrowserTheme::new(ThemeMode::Dark);
    let light_theme = dark_theme.toggle();
    assert_eq!(light_theme.mode(), ThemeMode::Light);

    let toggled_back = light_theme.toggle();
    assert_eq!(toggled_back.mode(), ThemeMode::Dark);
}

#[test]
fn test_with_mode() {
    let theme = BrowserTheme::new(ThemeMode::Dark);
    let light_theme = theme.with_mode(ThemeMode::Light);

    assert_eq!(theme.mode(), ThemeMode::Dark);
    assert_eq!(light_theme.mode(), ThemeMode::Light);
}

#[test]
fn test_default_theme() {
    let theme = BrowserTheme::default();
    assert_eq!(theme.mode(), ThemeMode::Auto);
}

fn position(state: &InputState) -> (f64, f64) {
    let (x, y) = state.mouse_position();
    (f64::from_bits(x), f64::from_bits(y))
}

#[test]
fn test_frame_queue() {
    let mut queue = FrameQueue::new(2);

    // Acquire frames
    let frame1 = queue.acquire_frame().unwrap();
    let frame2 = queue.acquire_frame().unwrap();

    // Submit frames
    queue.submit_frame(frame1).unwrap();
    queue.submit_frame(frame2).unwrap();

    // Third submit should fail (queue full)
    let frame3 = queue.acquire_frame().unwrap();
    assert!(queue.submit_frame(frame3).is_err());

    // Get frames back
    let _ = queue.try_get_frame().unwrap();
    let _ = queue.try_get_frame().unwrap();

    // Queue should be empty now
    assert!(queue.try_get_frame().is_none());
}

#[test]
fn test_input_state_mouse() {
    let mut state = InputState::new();

    assert_eq!(position(&state), (0.0, 0.0));
    assert!(!state.is_any_mouse_button_pressed());

    state.update(&InputEvent::MouseMove {
        x: 100.0f64.to_bits(),
        y: 200.0f64.to_bits(),
        delta_x: 100.0f64.to_bits(),
        delta_y: 200.0f64.to_bits(),
    });
    assert_eq!(position(&state), (100.0, 200.0));

    state.update(&InputEvent::MouseDown { button: MouseButton::Left, x: 100.0f64.to_bits(), y: 200.0f64.to_bits() });
    assert!(state.is_mouse_button_pressed(MouseButton::Left));
    assert!(state.is_any_mouse_button_pressed());

    state.update(&InputEvent::MouseUp { button: MouseButton::Left, x: 100.0f64.to_bits(), y: 200.0f64.to_bits() });
    assert!(!state.is_mouse_button_pressed(MouseButton::Left));
}

#[test]
fn test_input_state_keyboard() {
    let mut state = InputState::new();

    let key = Key::Character("a".to_string());
    state.update(&InputEvent::KeyDown { key: key.clone(), modifiers: Modifiers::default(), repeat: false });
    assert!(state.is_key_pressed(&key));
    assert!(state.is_any_key_pressed());

    state.update(&InputEvent::KeyUp { key: key.clone(), modifiers: Modifiers::default() });
    assert!(!state.is_key_pressed(&key));
}

#[test]
fn test_input_state_modifiers() {
    let mut state = InputState::new();

    state.update(&InputEvent::KeyDown {
        key: Key::Character("a".to_string()),
        modifiers: Modifiers::new(true, true, false, false),
        repeat: false,
    });

    assert!(state.modifiers().shift);
    assert!(state.modifiers().ctrl);
    assert!(!state.modifiers().alt);
}

#[test]
fn test_input_state_touch() {
    let mut state = InputState::new();

    state.update(&InputEvent::TouchStart {
        id: 1,
        x: 100.0f64.to_bits(),
        y: 200.0f64.to_bits(),
        pressure: 0.5f64.to_bits(),
    });
    assert_eq!(state.touch_count(), 1);

    state.update(&InputEvent::TouchStart {
        id: 2,
        x: 150.0f64.to_bits(),
        y: 250.0f64.to_bits(),
        pressure: 0.7f64.to_bits(),
    });
    assert_eq!(state.touch_count(), 2);

    state.update(&InputEvent::TouchEnd { id: 1, x: 100.0f64.to_bits(), y: 200.0f64.to_bits() });
    assert_eq!(state.touch_count(), 1);
}

#[test]
fn test_servo_frame_creation() {
    let frame = ServoFrame::new(0, 1920, 1080, false);
    assert_eq!(frame.width, 1920);
    assert_eq!(frame.height, 1080);
    assert!(!frame.is_gpu);
    assert!(frame.cpu_buffer.is_some());
    assert_eq!(frame.cpu_buffer.unwrap().len(), 1920 * 1080 * 4);
}

#[test]
fn test_high_contrast_theme() {
    let theme = BrowserTheme::new(ThemeMode::HighContrast);

    assert!(theme.is_high_contrast());
    assert_eq!(theme.mode(), ThemeMode::HighContrast);
}
