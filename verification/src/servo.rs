use vstd::prelude::*;
use crate::keys::{CoreModifiers, CoreMouseButton, TouchEventType};
use crate::clock::now_nanos;
use crate::render::{zeroed, GpuFrame, GpuRendererError, RenderMode};
use crate::text::str_eq;

verus! {

/// Errors of the engine integration.
#[derive(Debug)]
pub enum ServoIntegrationError {
    Initialization(String),
    GlContextCreation(String),
    SurfmanContextCreation(String),
    Navigation(String),
    Render(String),
    Input(String),
    PlatformNotSupported(String),
    Gpu(GpuRendererError),
    ChannelDisconnected,
    NotInitialized,
    InvalidDimensions(u32, u32),
}

/// Target frame rate of the engine.
pub const TARGET_FPS: u32 = 60;

/// Configuration of an engine web view.
pub struct ServoConfig {
    /// Initial URL.
    pub url: String,
    /// Initial width.
    pub width: u32,
    /// Initial height.
    pub height: u32,
    /// Rendering mode.
    pub render_mode: RenderMode,
    /// Performance profiling.
    pub enable_profiling: bool,
    /// Vertical sync.
    pub enable_vsync: bool,
    /// Target frame rate.
    pub target_fps: u32,
    /// User agent (the engine's own when absent).
    pub user_agent: Option<String>,
    /// WebGL.
    pub enable_webgl: bool,
    /// JavaScript.
    pub enable_javascript: bool,
    /// Images.
    pub enable_images: bool,
}

/// The default settings for a page at `url`: 1280 x 720, automatic render
/// mode, no profiling, vsync at 60 frames per second, the engine's user
/// agent, and WebGL, JavaScript and images on.
pub open spec fn default_config_for(c: ServoConfig, url: Seq<char>) -> bool {
    &&& c.url@ == url
    &&& c.width == 1280
    &&& c.height == 720
    &&& c.render_mode == RenderMode::Auto
    &&& !c.enable_profiling
    &&& c.enable_vsync
    &&& c.target_fps == TARGET_FPS
    &&& c.user_agent is None
    &&& c.enable_webgl
    &&& c.enable_javascript
    &&& c.enable_images
}

/// `c` equals `o` except for the fields the predicate's caller names.
pub open spec fn same_config_rest(c: ServoConfig, o: ServoConfig) -> bool {
    &&& c.enable_vsync == o.enable_vsync
    &&& c.target_fps == o.target_fps
    &&& c.enable_webgl == o.enable_webgl
    &&& c.enable_javascript == o.enable_javascript
    &&& c.enable_images == o.enable_images
}

impl Default for ServoConfig {
    fn default() -> (c: Self)
        ensures
            default_config_for(c, "about:blank"@),
    {
        ServoConfig {
            url: "about:blank".to_string(),
            width: 1280,
            height: 720,
            render_mode: RenderMode::Auto,
            enable_profiling: false,
            enable_vsync: true,
            target_fps: TARGET_FPS,
            user_agent: None,
            enable_webgl: true,
            enable_javascript: true,
            enable_images: true,
        }
    }
}

impl ServoConfig {
    /// The default settings for a page at `url`.
    pub fn with_url(url: &str) -> (c: Self)
        ensures
            default_config_for(c, url@),
    {
        let mut c = ServoConfig::default();
        c.url = url.to_string();
        c
    }

    /// The same settings at another size.
    pub fn with_dimensions(self, width: u32, height: u32) -> (c: Self)
        ensures
            c.width == width,
            c.height == height,
            c.url@ == self.url@,
            c.render_mode == self.render_mode,
            c.enable_profiling == self.enable_profiling,
            c.user_agent == self.user_agent,
            same_config_rest(c, self),
    {
        let mut c = self;
        c.width = width;
        c.height = height;
        c
    }

    /// The same settings in another render mode.
    pub fn with_render_mode(self, mode: RenderMode) -> (c: Self)
        ensures
            c.render_mode == mode,
            c.url@ == self.url@,
            c.width == self.width,
            c.height == self.height,
            c.enable_profiling == self.enable_profiling,
            c.user_agent == self.user_agent,
            same_config_rest(c, self),
    {
        let mut c = self;
        c.render_mode = mode;
        c
    }

    /// The same settings with profiling on or off.
    pub fn with_profiling(self, enabled: bool) -> (c: Self)
        ensures
            c.enable_profiling == enabled,
            c.url@ == self.url@,
            c.width == self.width,
            c.height == self.height,
            c.render_mode == self.render_mode,
            c.user_agent == self.user_agent,
            same_config_rest(c, self),
    {
        let mut c = self;
        c.enable_profiling = enabled;
        c
    }
}

/// Events that a web view reports.
#[derive(Debug, Clone)]
pub enum ServoWebViewEvent {
    LoadStarted,
    LoadFinished,
    LoadFailed(String),
    TitleChanged(Option<String>),
    UrlChanged(String),
    /// Whether the view can go back and forward.
    HistoryChanged(bool, bool),
    FrameReady,
    StatusMessage(Option<String>),
    CursorChanged(CursorType),
}

/// Mouse cursor shapes.
#[derive(Debug, Clone, Copy, PartialEq, Eq, Structural)]
pub enum CursorType {
    Default,
    Pointer,
    Text,
    Wait,
    Help,
    Progress,
    Crosshair,
    Cell,
    IBeam,
}

/// The engine's button for a button of the engine's input interface.
pub fn to_servo_mouse_button(btn: CoreMouseButton) -> (r: CoreMouseButton)
    ensures
        r == btn,
{
    match btn {
        CoreMouseButton::Left => CoreMouseButton::Left,
        CoreMouseButton::Right => CoreMouseButton::Right,
        CoreMouseButton::Middle => CoreMouseButton::Middle,
    }
}

/// Phases of a touch.
#[derive(Debug, Clone, Copy, PartialEq, Eq, Structural)]
pub enum TouchPhase {
    Started,
    Moved,
    Ended,
    Cancelled,
}

/// The engine's touch event kind for a phase.
pub open spec fn touch_type(p: TouchPhase) -> TouchEventType {
    match p {
        TouchPhase::Started => TouchEventType::Down,
        TouchPhase::Moved => TouchEventType::Move,
        TouchPhase::Ended => TouchEventType::Up,
        TouchPhase::Cancelled => TouchEventType::Cancel,
    }
}

impl From<TouchPhase> for TouchEventType {
    fn from(phase: TouchPhase) -> (r: Self) {
        match phase {
            TouchPhase::Started => TouchEventType::Down,
            TouchPhase::Moved => TouchEventType::Move,
            TouchPhase::Ended => TouchEventType::Up,
            TouchPhase::Cancelled => TouchEventType::Cancel,
        }
    }
}

impl vstd::std_specs::convert::FromSpecImpl<TouchPhase> for TouchEventType {
    open spec fn obeys_from_spec() -> bool {
        true
    }

    open spec fn from_spec(phase: TouchPhase) -> Self {
        touch_type(phase)
    }
}

/// Requests to the engine's thread.
#[derive(Debug, Clone)]
pub enum ServoEvent {
    Wake,
    NewFrame,
    Navigate(String),
    GoBack,
    GoForward,
    Reload,
    Stop,
    Resize(u32, u32),
    Shutdown,
}

/// State of the rendering pipeline.
#[derive(Debug, Clone, Copy, PartialEq, Eq, Structural)]
pub enum RenderPipelineState {
    Idle,
    Rendering,
    FrameReady,
    Presenting,
}

/// The key code of a physical key name: letters and digits map to their
/// ASCII upper-case and digit codes, Enter 13, Escape 27, Backspace 8, Tab
/// 9, Space 32, anything else 0.
pub open spec fn servo_key_code_of(code: Seq<char>) -> u32 {
    if code == "KeyA"@ {
        65
    } else if code == "KeyB"@ {
        66
    } else if code == "KeyC"@ {
        67
    } else if code == "KeyD"@ {
        68
    } else if code == "KeyE"@ {
        69
    } else if code == "KeyF"@ {
        70
    } else if code == "KeyG"@ {
        71
    } else if code == "KeyH"@ {
        72
    } else if code == "KeyI"@ {
        73
    } else if code == "KeyJ"@ {
        74
    } else if code == "KeyK"@ {
        75
    } else if code == "KeyL"@ {
        76
    } else if code == "KeyM"@ {
        77
    } else if code == "KeyN"@ {
        78
    } else if code == "KeyO"@ {
        79
    } else if code == "KeyP"@ {
        80
    } else if code == "KeyQ"@ {
        81
    } else if code == "KeyR"@ {
        82
    } else if code == "KeyS"@ {
        83
    } else if code == "KeyT"@ {
        84
    } else if code == "KeyU"@ {
        85
    } else if code == "KeyV"@ {
        86
    } else if code == "KeyW"@ {
        87
    } else if code == "KeyX"@ {
        88
    } else if code == "KeyY"@ {
        89
    } else if code == "KeyZ"@ {
        90
    } else if code == "Digit0"@ {
        48
    } else if code == "Digit1"@ {
        49
    } else if code == "Digit2"@ {
        50
    } else if code == "Digit3"@ {
        51
    } else if code == "Digit4"@ {
        52
    } else if code == "Digit5"@ {
        53
    } else if code == "Digit6"@ {
        54
    } else if code == "Digit7"@ {
        55
    } else if code == "Digit8"@ {
        56
    } else if code == "Digit9"@ {
        57
    } else if code == "Enter"@ {
        13
    } else if code == "Escape"@ {
        27
    } else if code == "Backspace"@ {
        8
    } else if code == "Tab"@ {
        9
    } else if code == "Space"@ {
        32
    } else {
        0
    }
}

/// The key code of a physical key name (see [`servo_key_code_of`]).
pub fn servo_key_code(code: &str) -> (r: u32)
    ensures
        r == servo_key_code_of(code@),
{
    if str_eq(code, "KeyA") {
        65
    } else if str_eq(code, "KeyB") {
        66
    } else if str_eq(code, "KeyC") {
        67
    } else if str_eq(code, "KeyD") {
        68
    } else if str_eq(code, "KeyE") {
        69
    } else if str_eq(code, "KeyF") {
        70
    } else if str_eq(code, "KeyG") {
        71
    } else if str_eq(code, "KeyH") {
        72
    } else if str_eq(code, "KeyI") {
        73
    } else if str_eq(code, "KeyJ") {
        74
    } else if str_eq(code, "KeyK") {
        75
    } else if str_eq(code, "KeyL") {
        76
    } else if str_eq(code, "KeyM") {
        77
    } else if str_eq(code, "KeyN") {
        78
    } else if str_eq(code, "KeyO") {
        79
    } else if str_eq(code, "KeyP") {
        80
    } else if str_eq(code, "KeyQ") {
        81
    } else if str_eq(code, "KeyR") {
        82
    } else if str_eq(code, "KeyS") {
        83
    } else if str_eq(code, "KeyT") {
        84
    } else if str_eq(code, "KeyU") {
        85
    } else if str_eq(code, "KeyV") {
        86
    } else if str_eq(code, "KeyW") {
        87
    } else if str_eq(code, "KeyX") {
        88
    } else if str_eq(code, "KeyY") {
        89
    } else if str_eq(code, "KeyZ") {
        90
    } else if str_eq(code, "Digit0") {
        48
    } else if str_eq(code, "Digit1") {
        49
    } else if str_eq(code, "Digit2") {
        50
    } else if str_eq(code, "Digit3") {
        51
    } else if str_eq(code, "Digit4") {
        52
    } else if str_eq(code, "Digit5") {
        53
    } else if str_eq(code, "Digit6") {
        54
    } else if str_eq(code, "Digit7") {
        55
    } else if str_eq(code, "Digit8") {
        56
    } else if str_eq(code, "Digit9") {
        57
    } else if str_eq(code, "Enter") {
        13
    } else if str_eq(code, "Escape") {
        27
    } else if str_eq(code, "Backspace") {
        8
    } else if str_eq(code, "Tab") {
        9
    } else if str_eq(code, "Space") {
        32
    } else {
        0
    }
}

/// The engine's modifier flags: shift 1, ctrl 2, alt 4, meta 8.
pub open spec fn core_modifier_bits(m: CoreModifiers) -> u32 {
    (if m.shift { 1u32 } else { 0u32 }) | (if m.ctrl { 2u32 } else { 0u32 }) | (if m.alt { 4u32 } else { 0u32 }) | (
    if m.meta { 8u32 } else { 0u32 })
}

/// The engine's modifier flags: shift 1, ctrl 2, alt 4, meta 8.
pub fn servo_modifier_bits(modifiers: CoreModifiers) -> (bits: u32)
    ensures
        bits == core_modifier_bits(modifiers),
{
    let s: u32 = if modifiers.shift { 1 } else { 0 };
    let c: u32 = if modifiers.ctrl { 2 } else { 0 };
    let a: u32 = if modifiers.alt { 4 } else { 0 };
    let m: u32 = if modifiers.meta { 8 } else { 0 };
    s | c | a | m
}

/// A frame produced by the engine: a GPU frame or a zeroed RGBA pixel
/// buffer, stamped with its creation time (nanoseconds since the Unix epoch).
pub struct ServoFrame {
    pub index: u64,
    pub gpu_frame: Option<GpuFrame>,
    pub cpu_buffer: Option<Vec<u8>>,
    pub width: u32,
    pub height: u32,
    pub is_gpu: bool,
    pub timestamp: i128,
}

impl ServoFrame {
    /// An empty frame; a software frame gets a zeroed RGBA buffer.
    pub fn new(index: u64, width: u32, height: u32, is_gpu: bool) -> (f: Self)
        requires
            width * height * 4 <= u32::MAX,
        ensures
            f.index == index,
            f.gpu_frame is None,
            is_gpu ==> f.cpu_buffer is None,
            !is_gpu ==> (f.cpu_buffer matches Some(b) && b@ == Seq::new((width * height * 4) as nat, |i: int| 0u8)),
            f.width == width,
            f.height == height,
            f.is_gpu == is_gpu,
    {
        let cpu_buffer = if is_gpu {
            None
        } else {
            Some(zeroed((width * height * 4) as usize))
        };
        ServoFrame { index, gpu_frame: None, cpu_buffer, width, height, is_gpu, timestamp: now_nanos() }
    }

    /// A frame carrying `gpu_frame`, with its dimensions.
    pub fn with_gpu_frame(index: u64, gpu_frame: GpuFrame) -> (f: Self)
        ensures
            f.index == index,
            f.gpu_frame == Some(gpu_frame),
            f.cpu_buffer is None,
            f.width == gpu_frame.width,
            f.height == gpu_frame.height,
            f.is_gpu,
    {
        let width = gpu_frame.width;
        let height = gpu_frame.height;
        ServoFrame { index, gpu_frame: Some(gpu_frame), cpu_buffer: None, width, height, is_gpu: true, timestamp: now_nanos() }
    }
}

/// Builder of a web view's configuration.
pub struct ServoWebViewBuilder {
    pub config: ServoConfig,
}

impl ServoWebViewBuilder {
    /// Start from the default configuration.
    pub fn new() -> (b: Self)
        ensures
            default_config_for(b.config, "about:blank"@),
    {
        ServoWebViewBuilder { config: ServoConfig::default() }
    }

    /// Set the initial URL.
    pub fn with_url(self, url: &str) -> (b: Self)
        ensures
            b.config.url@ == url@,
            b.config.width == self.config.width,
            b.config.height == self.config.height,
            b.config.render_mode == self.config.render_mode,
            b.config.enable_profiling == self.config.enable_profiling,
            b.config.user_agent == self.config.user_agent,
            same_config_rest(b.config, self.config),
    {
        let mut b = self;
        b.config.url = url.to_string();
        b
    }

    /// Set the size.
    pub fn with_dimensions(self, width: u32, height: u32) -> (b: Self)
        ensures
            b.config.width == width,
            b.config.height == height,
            b.config.url@ == self.config.url@,
            b.config.render_mode == self.config.render_mode,
            b.config.enable_profiling == self.config.enable_profiling,
            b.config.user_agent == self.config.user_agent,
            same_config_rest(b.config, self.config),
    {
        let mut b = self;
        b.config.width = width;
        b.config.height = height;
        b
    }

    /// Set the render mode.
    pub fn with_render_mode(self, mode: RenderMode) -> (b: Self)
        ensures
            b.config.render_mode == mode,
            b.config.url@ == self.config.url@,
            b.config.width == self.config.width,
            b.config.height == self.config.height,
            b.config.enable_profiling == self.config.enable_profiling,
            b.config.user_agent == self.config.user_agent,
            same_config_rest(b.config, self.config),
    {
        let mut b = self;
        b.config.render_mode = mode;
        b
    }

    /// Turn profiling on or off.
    pub fn with_profiling(self, enabled: bool) -> (b: Self)
        ensures
            b.config.enable_profiling == enabled,
            b.config.url@ == self.config.url@,
            b.config.width == self.config.width,
            b.config.height == self.config.height,
            b.config.render_mode == self.config.render_mode,
            b.config.user_agent == self.config.user_agent,
            same_config_rest(b.config, self.config),
    {
        let mut b = self;
        b.config.enable_profiling = enabled;
        b
    }

    /// Set the user agent.
    pub fn with_user_agent(self, user_agent: &str) -> (b: Self)
        ensures
            b.config.user_agent matches Some(u) && u@ == user_agent@,
            b.config.url@ == self.config.url@,
            b.config.width == self.config.width,
            b.config.height == self.config.height,
            b.config.render_mode == self.config.render_mode,
            b.config.enable_profiling == self.config.enable_profiling,
            same_config_rest(b.config, self.config),
    {
        let mut b = self;
        b.config.user_agent = Some(user_agent.to_string());
        b
    }
}

impl Default for ServoWebViewBuilder {
    fn default() -> (b: Self)
        ensures
            default_config_for(b.config, "about:blank"@),
    {
        ServoWebViewBuilder::new()
    }
}

} // verus!
