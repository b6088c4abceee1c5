use vstd::prelude::*;
use crate::text::str_eq;

verus! {

/// Theme mode chosen by the user.
#[derive(Debug, Clone, Copy, PartialEq, Eq, Structural)]
pub enum ThemeMode {
    /// Always dark.
    Dark,
    /// Always light.
    Light,
    /// Follow the system preference.
    Auto,
    /// High contrast, for accessibility.
    HighContrast,
}

impl Default for ThemeMode {
    fn default() -> (m: Self)
        ensures
            m == ThemeMode::Auto,
    {
        ThemeMode::Auto
    }
}

/// The base palette that a mode resolves to.
#[derive(Debug, Clone, Copy, PartialEq, Eq, Structural)]
pub enum EffectiveTheme {
    Dark,
    Light,
}

/// The name shown for a mode.
pub open spec fn mode_name(m: ThemeMode) -> Seq<char> {
    match m {
        ThemeMode::Dark => "Dark"@,
        ThemeMode::Light => "Light"@,
        ThemeMode::Auto => "Auto"@,
        ThemeMode::HighContrast => "High Contrast"@,
    }
}

/// The mode that a menu entry names: one of the names of `mode_name`, any
/// other text standing for `Auto`.
pub open spec fn mode_named(s: Seq<char>) -> ThemeMode {
    if s == "Light"@ {
        ThemeMode::Light
    } else if s == "Dark"@ {
        ThemeMode::Dark
    } else if s == "High Contrast"@ {
        ThemeMode::HighContrast
    } else {
        ThemeMode::Auto
    }
}

/// The palette a mode resolves to: light only for the light mode (high
/// contrast and, until the system is asked, auto use the dark base).
pub open spec fn resolve(m: ThemeMode) -> EffectiveTheme {
    match m {
        ThemeMode::Light => EffectiveTheme::Light,
        _ => EffectiveTheme::Dark,
    }
}

/// The mode that toggling leads to, given the palette in effect.
pub open spec fn toggled_mode(m: ThemeMode, effective: EffectiveTheme) -> ThemeMode {
    match m {
        ThemeMode::Dark => ThemeMode::Light,
        ThemeMode::Light => ThemeMode::Dark,
        ThemeMode::Auto => match effective {
            EffectiveTheme::Dark => ThemeMode::Light,
            EffectiveTheme::Light => ThemeMode::Dark,
        },
        ThemeMode::HighContrast => ThemeMode::Auto,
    }
}

impl ThemeMode {
    /// The mode to start in on the operating system named `os` (as Rust
    /// names target systems): dark on Windows, following the system
    /// elsewhere.
    pub fn detect_system(os: &str) -> (m: ThemeMode)
        ensures
            m == if os@ == "windows"@ { ThemeMode::Dark } else { ThemeMode::Auto },
    {
        if str_eq(os, "windows") {
            ThemeMode::Dark
        } else {
            ThemeMode::Auto
        }
    }

    /// The human-readable name of the mode.
    pub fn display_name(&self) -> (r: &'static str)
        ensures
            r@ == mode_name(*self),
    {
        match self {
            ThemeMode::Dark => "Dark",
            ThemeMode::Light => "Light",
            ThemeMode::Auto => "Auto",
            ThemeMode::HighContrast => "High Contrast",
        }
    }

    /// The mode chosen by picking the menu entry `name`.
    pub fn from_display_name(name: &str) -> (m: ThemeMode)
        ensures
            m == mode_named(name@),
    {
        if str_eq(name, "Light") {
            ThemeMode::Light
        } else if str_eq(name, "Dark") {
            ThemeMode::Dark
        } else if str_eq(name, "High Contrast") {
            ThemeMode::HighContrast
        } else {
            ThemeMode::Auto
        }
    }

    /// All modes, in menu order.
    pub fn all_modes() -> (r: Vec<ThemeMode>)
        ensures
            r@ == seq![ThemeMode::Dark, ThemeMode::Light, ThemeMode::Auto, ThemeMode::HighContrast],
    {
        let r = vec![ThemeMode::Dark, ThemeMode::Light, ThemeMode::Auto, ThemeMode::HighContrast];
        assert(r@ =~= seq![ThemeMode::Dark, ThemeMode::Light, ThemeMode::Auto, ThemeMode::HighContrast]);
        r
    }

    /// The palette this mode resolves to.
    pub fn effective(&self) -> (r: EffectiveTheme)
        ensures
            r == resolve(*self),
    {
        match self {
            ThemeMode::Light => EffectiveTheme::Light,
            _ => EffectiveTheme::Dark,
        }
    }
}

/// Picking the menu entry that shows a mode's name selects that mode again.
pub proof fn law_display_name_round_trip(m: ThemeMode)
    ensures
        mode_named(mode_name(m)) == m,
{
    reveal_strlit("Light");
    reveal_strlit("Dark");
    reveal_strlit("High Contrast");
    reveal_strlit("Auto");
    assert("Dark"@[0] != "Light"@[0]);
    assert("Auto"@[0] != "Light"@[0] && "Auto"@[0] != "Dark"@[0]);
    assert("High Contrast"@.len() != "Light"@.len() && "High Contrast"@.len() != "Dark"@.len());
    assert("Auto"@.len() != "High Contrast"@.len());
}

/// Toggling a dark or light theme twice gives the mode back.
pub proof fn law_toggle_twice(m: ThemeMode)
    requires
        m == ThemeMode::Dark || m == ThemeMode::Light,
    ensures
        toggled_mode(toggled_mode(m, resolve(m)), resolve(toggled_mode(m, resolve(m)))) == m,
{
}

/// The theme choice of the browser: the mode, the palette in effect and
/// whether high contrast is on. Colors are derived from these.
#[derive(Debug, Clone, Copy, PartialEq, Eq, Structural)]
pub struct BrowserTheme {
    mode: ThemeMode,
    effective_theme: EffectiveTheme,
    high_contrast: bool,
}

impl BrowserTheme {
    /// The mode.
    pub closed spec fn spec_mode(&self) -> ThemeMode {
        self.mode
    }

    /// The palette in effect.
    pub closed spec fn spec_effective(&self) -> EffectiveTheme {
        self.effective_theme
    }

    /// Whether high contrast is on.
    pub closed spec fn spec_high_contrast(&self) -> bool {
        self.high_contrast
    }

    /// A theme in `mode`, with the palette it resolves to.
    pub fn new(mode: ThemeMode) -> (t: Self)
        ensures
            t.spec_mode() == mode,
            t.spec_effective() == resolve(mode),
            t.spec_high_contrast() == (mode == ThemeMode::HighContrast),
    {
        BrowserTheme { mode, effective_theme: mode.effective(), high_contrast: mode == ThemeMode::HighContrast }
    }

    /// A theme in the mode detected for the operating system `os` (see
    /// [`ThemeMode::detect_system`]).
    pub fn auto(os: &str) -> (t: Self)
        ensures
            t.spec_mode() == (if os@ == "windows"@ { ThemeMode::Dark } else { ThemeMode::Auto }),
            t.spec_effective() == resolve(t.spec_mode()),
            !t.spec_high_contrast(),
    {
        BrowserTheme::new(ThemeMode::detect_system(os))
    }

    /// The mode.
    pub fn mode(&self) -> (m: ThemeMode)
        ensures
            m == self.spec_mode(),
    {
        self.mode
    }

    /// The palette in effect.
    pub fn effective_theme(&self) -> (e: EffectiveTheme)
        ensures
            e == self.spec_effective(),
    {
        self.effective_theme
    }

    /// Whether high contrast is on.
    pub fn is_high_contrast(&self) -> (b: bool)
        ensures
            b == self.spec_high_contrast(),
    {
        self.high_contrast
    }

    /// A theme in another mode.
    pub fn with_mode(&self, mode: ThemeMode) -> (t: Self)
        ensures
            t.spec_mode() == mode,
            t.spec_effective() == resolve(mode),
            t.spec_high_contrast() == (mode == ThemeMode::HighContrast),
    {
        Self::new(mode)
    }

    /// Switch between dark and light: auto goes to the opposite of the
    /// palette in effect, high contrast goes back to auto.
    pub fn toggle(&self) -> (t: Self)
        ensures
            t.spec_mode() == toggled_mode(self.spec_mode(), self.spec_effective()),
            t.spec_effective() == resolve(t.spec_mode()),
            t.spec_high_contrast() == (t.spec_mode() == ThemeMode::HighContrast),
    {
        let new_mode = match self.mode {
            ThemeMode::Dark => ThemeMode::Light,
            ThemeMode::Light => ThemeMode::Dark,
            ThemeMode::Auto => match self.effective_theme {
                EffectiveTheme::Dark => ThemeMode::Light,
                EffectiveTheme::Light => ThemeMode::Dark,
            },
            ThemeMode::HighContrast => ThemeMode::Auto,
        };
        self.with_mode(new_mode)
    }

    /// Follow a change of the system preference to `detected`: only a theme
    /// in auto mode follows, and only when the palette changes; returns
    /// whether it changed.
    pub fn update_from_system(&mut self, detected: ThemeMode) -> (changed: bool)
        ensures
            changed == (old(self).spec_mode() == ThemeMode::Auto && old(self).spec_effective() != resolve(detected)),
            changed ==> final(self).spec_effective() == resolve(detected),
            !changed ==> final(self).spec_effective() == old(self).spec_effective(),
            final(self).spec_mode() == old(self).spec_mode(),
            final(self).spec_high_contrast() == old(self).spec_high_contrast(),
    {
        if self.mode != ThemeMode::Auto {
            return false;
        }
        let new_theme = detected.effective();
        if self.effective_theme != new_theme {
            self.effective_theme = new_theme;
            true
        } else {
            false
        }
    }
}

impl Default for BrowserTheme {
    fn default() -> (t: Self)
        ensures
            t.spec_mode() == ThemeMode::Auto,
            t.spec_effective() == EffectiveTheme::Dark,
            !t.spec_high_contrast(),
    {
        Self::new(ThemeMode::Auto)
    }
}

/// Button style variants.
#[derive(Debug, Clone, Copy, PartialEq, Eq, Structural)]
pub enum ButtonStyle {
    /// Standard toolbar button.
    Toolbar,
    /// Back/forward buttons.
    Navigation,
    /// The active tab.
    TabActive,
    /// An inactive tab.
    TabInactive,
    /// Primary action.
    Primary,
    /// Close, delete.
    Danger,
    /// Secondary action.
    Secondary,
}

impl Default for ButtonStyle {
    fn default() -> (s: Self)
        ensures
            s == ButtonStyle::Toolbar,
    {
        ButtonStyle::Toolbar
    }
}

/// Container background variants.
#[derive(Debug, Clone, Copy, PartialEq, Eq, Structural)]
pub enum ContainerStyle {
    /// Toolbar.
    Toolbar,
    /// Address bar.
    AddressBar,
    /// Tab bar.
    TabBar,
    /// Page content.
    Content,
    /// Menu or dropdown.
    Menu,
    /// Tooltip.
    Tooltip,
    /// Error state.
    Error,
    /// Warning state.
    Warning,
    /// Card holding a tool.
    Card,
}

impl Default for ContainerStyle {
    fn default() -> (s: Self)
        ensures
            s == ContainerStyle::Content,
    {
        ContainerStyle::Content
    }
}

/// Text color variants.
#[derive(Debug, Clone, Copy, PartialEq, Eq, Structural)]
pub enum TextStyle {
    /// Main text.
    Primary,
    /// Muted text.
    Secondary,
    /// Disabled text.
    Disabled,
    /// Links and accents.
    Accent,
    /// Errors.
    Error,
    /// Warnings.
    Warning,
    /// Toolbar text.
    Toolbar,
}

impl Default for TextStyle {
    fn default() -> (s: Self)
        ensures
            s == TextStyle::Primary,
    {
        TextStyle::Primary
    }
}

} // verus!
