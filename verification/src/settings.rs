//! Caller-facing configuration: scale-factor override, visual theme and
//! text/background style, plus the renderer setup (default text size, extra
//! font data) read once when a renderer is created.

use vstd::prelude::*;

use crate::viewport::ScaleFactor;

verus! {

/// An RGBA color with 8-bit channels.
#[derive(Clone, Copy, Debug, PartialEq, Eq, Structural)]
pub struct Color {
    /// Red channel.
    pub red: u8,
    /// Green channel.
    pub green: u8,
    /// Blue channel.
    pub blue: u8,
    /// Alpha channel.
    pub alpha: u8,
}

impl Color {
    /// Fully opaque white.
    pub fn white() -> (c: Color)
        ensures
            c == (Color { red: 255u8, green: 255u8, blue: 255u8, alpha: 255u8 }),
    {
        Color { red: 255, green: 255, blue: 255, alpha: 255 }
    }
}

/// The visual theme used when a UI tree is drawn.
#[derive(Clone, Copy, Debug, PartialEq, Eq, Structural)]
pub enum Theme {
    /// Light backgrounds, dark text.
    Light,
    /// Dark backgrounds, light text.
    Dark,
}

/// The default style applied to drawn text.
#[derive(Clone, Copy, Debug, PartialEq, Eq, Structural)]
pub struct Style {
    /// The color used for text that carries no explicit color.
    pub text_color: Color,
}

/// Settings used to independently customize UI rendering.
///
/// Changes apply to renderers created afterwards and to subsequent draws;
/// they do not retroactively resize an already-open window.
#[derive(Clone, Copy, Debug)]
pub struct IcedSettings {
    /// The scale factor to use for rendering UI elements.
    /// `None` defaults to using the window's native scale factor.
    pub scale_factor: Option<ScaleFactor>,
    /// The theme to use for rendering UI elements.
    pub theme: Theme,
    /// The style to use for rendering UI elements.
    pub style: Style,
}

impl IcedSettings {
    /// A settings value is well formed when any scale override it carries is
    /// a valid ratio.
    pub open spec fn wf(self) -> bool {
        self.scale_factor matches Some(s) ==> s.wf()
    }

    /// Set the scale factor used to render UI elements; `None` returns to the
    /// window's native factor.
    pub fn set_scale_factor(&mut self, factor: Option<ScaleFactor>)
        ensures
            final(self).scale_factor == factor,
            final(self).theme == old(self).theme,
            final(self).style == old(self).style,
    {
        self.scale_factor = factor;
    }
}

impl Default for IcedSettings {
    /// No scale override, dark theme, white text.
    fn default() -> (s: Self)
        ensures
            s.scale_factor is None,
            s.theme == Theme::Dark,
            s.style.text_color == (Color { red: 255u8, green: 255u8, blue: 255u8, alpha: 255u8 }),
            s.wf(),
    {
        IcedSettings { scale_factor: None, theme: Theme::Dark, style: Style { text_color: Color::white() } }
    }
}

/// Renderer construction settings: values a backend renderer is created with.
#[derive(Clone, Copy, Debug, PartialEq, Eq, Structural)]
pub struct Settings {
    /// The default text size, in physical pixels.
    pub default_text_size: u32,
    /// Whether the backend performs antialiasing.
    pub antialiasing: bool,
}

impl Default for Settings {
    /// 16-pixel default text, no antialiasing.
    fn default() -> (s: Self)
        ensures
            s == (Settings { default_text_size: 16u32, antialiasing: false }),
    {
        Settings { default_text_size: 16, antialiasing: false }
    }
}

/// Settings and font data read when a window's renderer is created. Changes
/// to this value do not affect renderers that already exist.
#[derive(Debug)]
pub struct IcedSetup {
    /// The settings a new renderer is created with.
    pub settings: Settings,
    /// Extra font file contents loaded into each new renderer.
    pub fonts: Vec<Vec<u8>>,
}

impl Default for IcedSetup {
    /// Default renderer settings and no extra fonts.
    fn default() -> (s: Self)
        ensures
            s.settings == (Settings { default_text_size: 16u32, antialiasing: false }),
            s.fonts@.len() == 0,
    {
        IcedSetup { settings: Settings::default(), fonts: Vec::new() }
    }
}

} // verus!
