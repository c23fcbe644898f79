//! Viewport resolution: derives a window's logical drawable size from its
//! physical pixel size and a scale factor, and converts cursor positions
//! from window coordinates to UI logical coordinates.

use vstd::prelude::*;

use crate::settings::IcedSettings;

verus! {

/// A scale factor expressed as the exact ratio `num / den` of physical
/// pixels per logical unit. A factor of one is `1 / 1`; a high-density
/// display at factor two is `2 / 1`.
#[derive(Clone, Copy, Debug, PartialEq, Eq, Structural)]
pub struct ScaleFactor {
    /// Physical pixels per `den` logical units.
    pub num: u32,
    /// Logical units per `num` physical pixels.
    pub den: u32,
}

impl ScaleFactor {
    /// A ratio is valid when neither side is zero.
    pub open spec fn wf(self) -> bool {
        self.num >= 1 && self.den >= 1
    }

    /// The identity scale factor: one physical pixel per logical unit.
    pub fn unit() -> (s: ScaleFactor)
        ensures
            s == (ScaleFactor { num: 1u32, den: 1u32 }),
            s.wf(),
    {
        ScaleFactor { num: 1, den: 1 }
    }
}

/// The logical length covered by `px` physical pixels under `scale`,
/// rounded toward zero.
pub open spec fn spec_logical_length(px: u32, scale: ScaleFactor) -> int {
    (px as int * scale.den as int) / scale.num as int
}

/// Converts a physical length to a logical length under `scale`.
pub fn logical_length(px: u32, scale: ScaleFactor) -> (r: u64)
    requires
        scale.wf(),
    ensures
        r == spec_logical_length(px, scale),
{
    proof {
        assert((px as int) * (scale.den as int) <= 0xFFFF_FFFFu64 * 0xFFFF_FFFFu64)
            by (nonlinear_arith)
            requires px <= 0xFFFF_FFFFu64 && scale.den <= 0xFFFF_FFFFu64;
    }
    ((px as u64) * (scale.den as u64)) / (scale.num as u64)
}

/// A window's drawable surface: physical pixel size plus the scale factor
/// that relates it to logical UI units. Recomputed whenever the window is
/// created or resized, and otherwise left untouched, so it always reflects
/// the most recent resize observed before the next draw.
#[derive(Clone, Copy, Debug, PartialEq, Eq, Structural)]
pub struct WindowViewport {
    /// Horizontal size in physical pixels.
    pub physical_width: u32,
    /// Vertical size in physical pixels.
    pub physical_height: u32,
    /// Physical-to-logical ratio.
    pub scale: ScaleFactor,
}

impl WindowViewport {
    /// A viewport is well formed when its scale ratio is. A zero-sized
    /// viewport is valid: it yields a degenerate (empty) logical size and a
    /// renderer may skip drawing.
    pub open spec fn wf(self) -> bool {
        self.scale.wf()
    }

    /// The logical width, as an unbounded integer.
    pub open spec fn spec_logical_width(self) -> int {
        spec_logical_length(self.physical_width, self.scale)
    }

    /// The logical height, as an unbounded integer.
    pub open spec fn spec_logical_height(self) -> int {
        spec_logical_length(self.physical_height, self.scale)
    }

    /// The logical width used as the UI layout bound.
    pub fn logical_width(&self) -> (r: u64)
        requires
            self.wf(),
        ensures
            r == self.spec_logical_width(),
    {
        logical_length(self.physical_width, self.scale)
    }

    /// The logical height used as the UI layout bound.
    pub fn logical_height(&self) -> (r: u64)
        requires
            self.wf(),
        ensures
            r == self.spec_logical_height(),
    {
        logical_length(self.physical_height, self.scale)
    }
}

/// The scale factor a viewport is resolved with: the configured override if
/// one is set, else the window's native factor.
pub open spec fn spec_effective_scale(settings: IcedSettings, native_scale: ScaleFactor) -> ScaleFactor {
    match settings.scale_factor {
        Some(s) => s,
        None => native_scale,
    }
}

/// Resolves a window's viewport from its physical size and scale factors.
/// Called when the window is created or resized; no error conditions exist,
/// a zero-sized window simply yields a degenerate viewport.
pub fn get_window_viewport(
    physical_width: u32,
    physical_height: u32,
    native_scale: ScaleFactor,
    settings: &IcedSettings,
) -> (v: WindowViewport)
    requires
        native_scale.wf(),
        settings.wf(),
    ensures
        v.physical_width == physical_width,
        v.physical_height == physical_height,
        v.scale == spec_effective_scale(*settings, native_scale),
        v.wf(),
{
    let scale = match settings.scale_factor {
        Some(s) => s,
        None => native_scale,
    };
    WindowViewport { physical_width, physical_height, scale }
}

/// A position in UI logical coordinates, with the origin at the top-left.
#[derive(Clone, Copy, Debug, PartialEq, Eq, Structural)]
pub struct LogicalPoint {
    /// Logical units from the left edge.
    pub x: u64,
    /// Logical units from the top edge.
    pub y: u64,
}

/// Where a window-space position (physical pixels, origin at the bottom-left)
/// lands in UI logical coordinates (origin at the top-left): both axes are
/// scaled to logical units and the vertical axis is flipped against the
/// viewport's logical height. A position scaled past the top edge clamps to
/// zero.
pub open spec fn spec_window_to_ui(x: u32, y: u32, v: WindowViewport) -> LogicalPoint {
    let lx = spec_logical_length(x, v.scale);
    let ly = spec_logical_length(y, v.scale);
    let lh = v.spec_logical_height();
    LogicalPoint { x: lx as u64, y: (if ly <= lh { lh - ly } else { 0 }) as u64 }
}

/// Converts a reported cursor position from window coordinates to UI logical
/// coordinates, flipping and scaling per the viewport.
pub fn process_cursor_position(x: u32, y: u32, viewport: &WindowViewport) -> (p: LogicalPoint)
    requires
        viewport.wf(),
    ensures
        p == spec_window_to_ui(x, y, *viewport),
{
    let lx = logical_length(x, viewport.scale);
    let ly = logical_length(y, viewport.scale);
    let lh = viewport.logical_height();
    let flipped: u64 = if ly <= lh { lh - ly } else { 0 };
    LogicalPoint { x: lx, y: flipped }
}

} // verus!
