//! The UI cycle driver. Per display call it resolves the target window and
//! its logical bounds, resolves the pointer, lazily obtains the window's
//! renderer, takes the layout cache for the UI-description identity, and —
//! once the host has built, updated and drawn the UI tree — stores the
//! updated cache, sets the window's draw-needed flag, hands the harvested
//! messages back in emission order and clears the pending input queue.
//!
//! Building, updating and drawing the tree itself happens outside this
//! library, against an opaque widget engine; a cycle is therefore split in
//! two: [`IcedContext::display_in_window`] (or [`IcedContext::display`])
//! prepares a [`UiCycle`], and [`IcedContext::complete_display`] commits
//! its outcome.

use vstd::prelude::*;

use crate::cache::{spec_take_cache, IcedCache, LayoutCache};
use crate::registry::{
    spec_get_or_create_handle, spec_get_or_create_map, RendererHandle, RendererRegistry,
};
use crate::settings::{IcedSettings, IcedSetup};
use crate::store::KvStore;
use crate::viewport::{
    get_window_viewport, spec_effective_scale, spec_window_to_ui, LogicalPoint, ScaleFactor,
    WindowViewport,
};

verus! {

/// A reported cursor position, in physical window pixels with the origin at
/// the bottom-left.
#[derive(Clone, Copy, Debug, PartialEq, Eq, Structural)]
pub struct CursorPosition {
    /// Physical pixels from the left edge.
    pub x: u32,
    /// Physical pixels from the bottom edge.
    pub y: u32,
}

/// An active touch point, in physical window pixels with the origin at the
/// bottom-left.
#[derive(Clone, Copy, Debug, PartialEq, Eq, Structural)]
pub struct TouchPosition {
    /// Physical pixels from the left edge.
    pub x: u32,
    /// Physical pixels from the bottom edge.
    pub y: u32,
}

/// The pointer state a UI tree is laid out and updated against.
#[derive(Clone, Copy, Debug, PartialEq, Eq, Structural)]
pub enum Cursor {
    /// A pointer is available at this position, in UI logical coordinates.
    Available(LogicalPoint),
    /// No pointer: the UI cannot receive pointer-only events but still lays
    /// out.
    Unavailable,
}

/// A raw input event accumulated since the last UI cycle.
#[derive(Clone, Copy, Debug, PartialEq, Eq, Structural)]
pub enum InputEvent {
    /// The pointer moved, in physical window pixels.
    PointerMoved {
        /// Physical pixels from the left edge.
        x: u32,
        /// Physical pixels from the bottom edge.
        y: u32,
    },
    /// A pointer button went down.
    PointerPressed {
        /// The button, numbered by the host.
        button: u8,
    },
    /// A pointer button came up.
    PointerReleased {
        /// The button, numbered by the host.
        button: u8,
    },
    /// A key went down or up.
    Keyboard {
        /// The key, numbered by the host.
        key_code: u32,
        /// True on press, false on release.
        pressed: bool,
    },
    /// A touch point moved, in physical window pixels.
    TouchMoved {
        /// The finger, numbered by the host.
        finger: u64,
        /// Physical pixels from the left edge.
        x: u32,
        /// Physical pixels from the bottom edge.
        y: u32,
    },
}

/// Why a display call failed. Displaying into a window the driver does not
/// know is caller misuse and is surfaced, not recovered.
#[derive(Clone, Copy, Debug, PartialEq, Eq, Structural)]
pub enum DisplayError {
    /// The window has no viewport yet: it was never announced as created.
    UnknownWindow,
}

/// The per-window logic-side state the driver keeps: the viewport, the
/// window's native scale factor (kept so a resize can re-derive the
/// viewport), the draw-needed flag and the last reported cursor position.
#[derive(Clone, Copy, Debug)]
pub struct WindowEntry {
    /// The window's drawable surface.
    pub viewport: WindowViewport,
    /// The window's own scale factor, used when no override is configured.
    pub native_scale: ScaleFactor,
    /// True exactly when a draw has been produced since the last extraction.
    pub draw_flag: bool,
    /// Where the window last reported its cursor, if inside the window.
    pub cursor_position: Option<CursorPosition>,
}

/// Everything one UI cycle needs from the driver, prepared by
/// [`IcedContext::display_in_window`]: the host lays the opaque UI tree out
/// against `bounds`, applies `events` under `cursor` starting from `cache`,
/// draws into the renderer named by `renderer`, and commits the outcome
/// with [`IcedContext::complete_display`].
#[derive(Debug)]
pub struct UiCycle {
    /// The window the cycle draws into.
    pub window: u64,
    /// The UI-description identity whose cache the cycle took.
    pub identity: u64,
    /// The window's renderer, created on this call if it is the first.
    pub renderer: RendererHandle,
    /// The logical layout width.
    pub bounds_width: u64,
    /// The logical layout height.
    pub bounds_height: u64,
    /// The resolved pointer state.
    pub cursor: Cursor,
    /// The layout cache taken for the cycle; absent state defaults.
    pub cache: LayoutCache,
    /// The input events pending at the start of the cycle, oldest first.
    pub events: Vec<InputEvent>,
}

/// The pointer state for a window: the window's reported cursor position
/// converted to UI logical coordinates; else the first active touch point,
/// converted the same way; else unavailable.
pub open spec fn spec_resolve_cursor(entry: WindowEntry, touches: Seq<TouchPosition>) -> Cursor {
    match entry.cursor_position {
        Some(p) => Cursor::Available(spec_window_to_ui(p.x, p.y, entry.viewport)),
        None => if touches.len() > 0 {
            Cursor::Available(spec_window_to_ui(touches[0].x, touches[0].y, entry.viewport))
        } else {
            Cursor::Unavailable
        },
    }
}

/// Resolves the pointer for a window, as [`spec_resolve_cursor`] states.
pub fn resolve_cursor(entry: &WindowEntry, touches: &Vec<TouchPosition>) -> (c: Cursor)
    requires
        entry.viewport.wf(),
    ensures
        c == spec_resolve_cursor(*entry, touches@),
{
    match entry.cursor_position {
        Some(p) => Cursor::Available(crate::viewport::process_cursor_position(
            p.x,
            p.y,
            &entry.viewport,
        )),
        None => {
            if touches.len() > 0 {
                let t = touches[0];
                Cursor::Available(crate::viewport::process_cursor_position(
                    t.x,
                    t.y,
                    &entry.viewport,
                ))
            } else {
                Cursor::Unavailable
            }
        },
    }
}

/// The context for driving UI cycles: the logic-side state shared by every
/// system of the plugin.
#[derive(Debug)]
pub struct IcedContext {
    /// Per-window state: viewport, draw flag, cursor.
    pub windows: KvStore<WindowEntry>,
    /// One renderer handle per window, created lazily.
    pub renderers: RendererRegistry,
    /// One layout cache per UI-description identity.
    pub caches: IcedCache,
    /// Scale override, theme and style.
    pub settings: IcedSettings,
    /// Renderer construction settings and fonts.
    pub setup: IcedSetup,
    /// Input events accumulated since the last UI cycle, oldest first.
    pub events: Vec<InputEvent>,
    /// The active touch points, in the host's order.
    pub touches: Vec<TouchPosition>,
    /// The current primary window, if one exists.
    pub primary_window: Option<u64>,
}

/// Relates the driver state before and after a successful display
/// preparation for `window` and `identity` that returned `c`: the cycle
/// carries the window's logical bounds, the resolved cursor, the window's
/// renderer (created now if absent), the taken cache and a snapshot of the
/// pending events; the cache entry is removed for the cycle's duration and
/// everything else is untouched.
pub open spec fn spec_display_prepared(
    pre: IcedContext,
    post: IcedContext,
    window: u64,
    identity: u64,
    c: UiCycle,
) -> bool {
    &&& pre.windows@.contains_key(window)
    &&& c.window == window
    &&& c.identity == identity
    &&& c.bounds_width == pre.windows@[window].viewport.spec_logical_width()
    &&& c.bounds_height == pre.windows@[window].viewport.spec_logical_height()
    &&& c.cursor == spec_resolve_cursor(pre.windows@[window], pre.touches@)
    &&& c.renderer == spec_get_or_create_handle(
        pre.renderers.handles@,
        pre.renderers.next_id,
        window,
    )
    &&& c.cache == spec_take_cache(pre.caches.entries@, identity)
    &&& c.events@ == pre.events@
    &&& post.renderers.handles@ == spec_get_or_create_map(
        pre.renderers.handles@,
        pre.renderers.next_id,
        window,
    )
    &&& post.renderers.next_id == (if pre.renderers.handles@.contains_key(window) {
        pre.renderers.next_id as int
    } else {
        pre.renderers.next_id + 1
    })
    &&& (pre.renderers.all_wgpu() ==> post.renderers.all_wgpu())
    &&& post.caches.entries@ == pre.caches.entries@.remove(identity)
    &&& post.windows == pre.windows
    &&& post.settings == pre.settings
    &&& post.setup == pre.setup
    &&& post.events == pre.events
    &&& post.touches == pre.touches
    &&& post.primary_window == pre.primary_window
}

impl IcedContext {
    /// Driver invariant: every registry is well formed, every known window
    /// has a valid viewport, and the primary window, if any, is known.
    pub open spec fn wf(self) -> bool {
        &&& self.windows.wf()
        &&& self.renderers.wf()
        &&& self.caches.wf()
        &&& self.settings.wf()
        &&& forall|w: u64|
            self.windows@.contains_key(w) ==> (#[trigger] self.windows@[w]).viewport.wf()
        &&& (self.primary_window matches Some(w) ==> self.windows@.contains_key(w))
    }

    /// A fresh driver: no windows, no renderers, no caches, no pending
    /// events, default settings.
    pub fn new() -> (r: Self)
        ensures
            r.windows@ == Map::<u64, WindowEntry>::empty(),
            r.renderers.handles@ == Map::<u64, RendererHandle>::empty(),
            r.renderers.next_id == 0,
            r.caches.entries@ == Map::<u64, LayoutCache>::empty(),
            r.settings.scale_factor is None,
            r.events@.len() == 0,
            r.touches@.len() == 0,
            r.primary_window is None,
            r.wf(),
            r.renderers.all_wgpu(),
    {
        IcedContext {
            windows: KvStore::new(),
            renderers: RendererRegistry::new(),
            caches: IcedCache::new(),
            settings: IcedSettings::default(),
            setup: IcedSetup::default(),
            events: Vec::new(),
            touches: Vec::new(),
            primary_window: None,
        }
    }

    /// Prepares a UI cycle for the given window: resolves the window
    /// (failing if it was never created), computes the logical bounds,
    /// resolves the pointer, obtains — lazily creating — the window's
    /// renderer and takes the layout cache for `identity`. The host then
    /// builds, updates and draws the opaque UI tree and commits with
    /// [`IcedContext::complete_display`]. A second cycle for the same
    /// window in one frame simply runs again: the draw flag stays set and
    /// the cache is overwritten.
    pub fn display_in_window(&mut self, window: u64, identity: u64) -> (r: Result<
        UiCycle,
        DisplayError,
    >)
        requires
            old(self).wf(),
            old(self).renderers.next_id < u64::MAX,
        ensures
            final(self).wf(),
            match r {
                Ok(c) => spec_display_prepared(*old(self), *final(self), window, identity, c),
                Err(e) => {
                    &&& e == DisplayError::UnknownWindow
                    &&& !old(self).windows@.contains_key(window)
                    &&& *final(self) == *old(self)
                },
            },
    {
        let entry = match self.windows.get(window) {
            Some(e) => e,
            None => {
                return Err(DisplayError::UnknownWindow);
            },
        };
        let bounds_width = entry.viewport.logical_width();
        let bounds_height = entry.viewport.logical_height();
        let cursor = resolve_cursor(&entry, &self.touches);
        let renderer = self.renderers.get_or_create(window);
        let cache = self.caches.take(identity);
        let events = copy_events(&self.events);
        Ok(UiCycle { window, identity, renderer, bounds_width, bounds_height, cursor, cache, events })
    }

    /// Prepares a UI cycle for the current primary window; with no primary
    /// window the call is a silent no-op (many hosts start without one for
    /// a frame).
    pub fn display(&mut self, identity: u64) -> (r: Option<UiCycle>)
        requires
            old(self).wf(),
            old(self).renderers.next_id < u64::MAX,
        ensures
            final(self).wf(),
            match r {
                Some(c) => {
                    &&& old(self).primary_window matches Some(w)
                    &&& spec_display_prepared(*old(self), *final(self), old(self).primary_window->0, identity, c)
                },
                None => old(self).primary_window is None && *final(self) == *old(self),
            },
    {
        let primary = match self.primary_window {
            Some(w) => w,
            None => {
                return None;
            },
        };
        match self.display_in_window(primary, identity) {
            Ok(c) => Some(c),
            Err(_) => {
                proof {
                    assert(false);
                }
                None
            },
        }
    }

    /// Commits a UI cycle's outcome: stores the updated cache under the
    /// cycle's identity, sets the window's draw-needed flag, clears the
    /// pending input queue and hands back the harvested messages unchanged
    /// and in emission order, for immediate delivery to the host's message
    /// channel.
    pub fn complete_display<M>(&mut self, cycle: &UiCycle, cache: LayoutCache, messages: Vec<M>) -> (out: Vec<M>)
        requires
            old(self).wf(),
            old(self).windows@.contains_key(cycle.window),
        ensures
            final(self).wf(),
            out@ == messages@,
            final(self).caches.entries@ == old(self).caches.entries@.insert(cycle.identity, cache),
            final(self).windows@ == old(self).windows@.insert(
                cycle.window,
                WindowEntry { draw_flag: true, ..old(self).windows@[cycle.window] },
            ),
            final(self).events@.len() == 0,
            final(self).renderers == old(self).renderers,
            final(self).settings == old(self).settings,
            final(self).setup == old(self).setup,
            final(self).touches == old(self).touches,
            final(self).primary_window == old(self).primary_window,
    {
        self.caches.put_back(cycle.identity, cache);
        let entry = match self.windows.get(cycle.window) {
            Some(e) => e,
            None => {
                proof {
                    assert(false);
                }
                return messages;
            },
        };
        self.windows.set(cycle.window, WindowEntry { draw_flag: true, ..entry });
        self.events = Vec::new();
        messages
    }

    /// Records a newly created window: derives its viewport from its
    /// physical size and the effective scale factor, with the draw flag
    /// clear and no cursor reported.
    pub fn handle_window_created(
        &mut self,
        window: u64,
        physical_width: u32,
        physical_height: u32,
        native_scale: ScaleFactor,
    )
        requires
            old(self).wf(),
            native_scale.wf(),
        ensures
            final(self).wf(),
            final(self).windows@ == old(self).windows@.insert(
                window,
                WindowEntry {
                    viewport: WindowViewport {
                        physical_width,
                        physical_height,
                        scale: spec_effective_scale(old(self).settings, native_scale),
                    },
                    native_scale,
                    draw_flag: false,
                    cursor_position: None,
                },
            ),
            final(self).renderers == old(self).renderers,
            final(self).caches == old(self).caches,
            final(self).settings == old(self).settings,
            final(self).primary_window == old(self).primary_window,
    {
        let viewport = get_window_viewport(
            physical_width,
            physical_height,
            native_scale,
            &self.settings,
        );
        self.windows.set(
            window,
            WindowEntry { viewport, native_scale, draw_flag: false, cursor_position: None },
        );
    }

    /// Records a window resize: re-derives the viewport from the new
    /// physical size, the window's native scale factor and the current
    /// settings, leaving the draw flag and cursor untouched. A later
    /// display call lays out against the new bounds.
    pub fn handle_window_resized(&mut self, window: u64, physical_width: u32, physical_height: u32)
        requires
            old(self).wf(),
            old(self).windows@.contains_key(window),
            old(self).windows@[window].native_scale.wf(),
        ensures
            final(self).wf(),
            final(self).windows@ == old(self).windows@.insert(
                window,
                WindowEntry {
                    viewport: WindowViewport {
                        physical_width,
                        physical_height,
                        scale: spec_effective_scale(
                            old(self).settings,
                            old(self).windows@[window].native_scale,
                        ),
                    },
                    ..old(self).windows@[window]
                },
            ),
            final(self).renderers == old(self).renderers,
            final(self).caches == old(self).caches,
            final(self).settings == old(self).settings,
            final(self).primary_window == old(self).primary_window,
    {
        let entry = match self.windows.get(window) {
            Some(e) => e,
            None => {
                proof {
                    assert(false);
                }
                return ;
            },
        };
        let viewport = get_window_viewport(
            physical_width,
            physical_height,
            entry.native_scale,
            &self.settings,
        );
        self.windows.set(window, WindowEntry { viewport, ..entry });
    }

    /// Records a closed window: drops its renderer handle, releasing the
    /// underlying GPU resources, and forgets its state. A primary window
    /// that closes stops being primary.
    pub fn handle_window_closed(&mut self, window: u64)
        requires
            old(self).wf(),
        ensures
            final(self).wf(),
            final(self).renderers.handles@ == old(self).renderers.handles@.remove(window),
            final(self).renderers.next_id == old(self).renderers.next_id,
            final(self).windows@ == old(self).windows@.remove(window),
            final(self).caches == old(self).caches,
            final(self).primary_window == (if old(self).primary_window == Some(window) {
                None
            } else {
                old(self).primary_window
            }),
    {
        self.renderers.remove(window);
        let _ = self.windows.remove(window);
        match self.primary_window {
            Some(p) => {
                if p == window {
                    self.primary_window = None;
                }
            },
            None => {},
        }
    }

    /// Appends a raw input event to the pending queue; the next UI cycle
    /// applies the queue in order and then clears it.
    pub fn push_event(&mut self, event: InputEvent)
        requires
            old(self).wf(),
        ensures
            final(self).wf(),
            final(self).events@ == old(self).events@.push(event),
            final(self).windows == old(self).windows,
            final(self).renderers == old(self).renderers,
            final(self).caches == old(self).caches,
    {
        self.events.push(event);
    }

    /// Replaces the set of active touch points.
    pub fn set_touches(&mut self, touches: Vec<TouchPosition>)
        requires
            old(self).wf(),
        ensures
            final(self).wf(),
            final(self).touches == touches,
            final(self).windows == old(self).windows,
    {
        self.touches = touches;
    }

    /// Records where a window reports its cursor, or that it reports none.
    pub fn set_cursor_position(&mut self, window: u64, position: Option<CursorPosition>)
        requires
            old(self).wf(),
            old(self).windows@.contains_key(window),
        ensures
            final(self).wf(),
            final(self).windows@ == old(self).windows@.insert(
                window,
                WindowEntry { cursor_position: position, ..old(self).windows@[window] },
            ),
    {
        let entry = match self.windows.get(window) {
            Some(e) => e,
            None => {
                proof {
                    assert(false);
                }
                return ;
            },
        };
        self.windows.set(window, WindowEntry { cursor_position: position, ..entry });
    }

    /// Marks which window is primary; only a known window can be primary.
    pub fn set_primary_window(&mut self, window: Option<u64>)
        requires
            old(self).wf(),
            window matches Some(w) ==> old(self).windows@.contains_key(w),
        ensures
            final(self).wf(),
            final(self).primary_window == window,
            final(self).windows == old(self).windows,
    {
        self.primary_window = window;
    }
}

/// A copy of the pending-event queue, handed to the UI cycle.
fn copy_events(src: &Vec<InputEvent>) -> (out: Vec<InputEvent>)
    ensures
        out@ == src@,
{
    let n = src.len();
    let mut out: Vec<InputEvent> = Vec::new();
    let mut i: usize = 0;
    while i < n
        invariant
            n == src@.len(),
            i <= n,
            out@ == src@.subrange(0, i as int),
        decreases n - i,
    {
        out.push(src[i]);
        proof {
            assert(out@ =~= src@.subrange(0, i + 1 as int));
        }
        i += 1;
    }
    proof {
        assert(out@ =~= src@);
    }
    out
}

/// The plugin: installing it into a host application creates the driver
/// state that [`IcedContext`] systems share.
#[derive(Clone, Copy, Debug, Default)]
pub struct IcedPlugin;

impl IcedPlugin {
    /// Creates the driver's initial state: no windows, no renderers, no
    /// caches, default settings — what installation inserts into the host.
    pub fn build(&self) -> (r: IcedContext)
        ensures
            r.windows@ == Map::<u64, WindowEntry>::empty(),
            r.renderers.handles@ == Map::<u64, RendererHandle>::empty(),
            r.caches.entries@ == Map::<u64, LayoutCache>::empty(),
            r.events@.len() == 0,
            r.primary_window is None,
            r.wf(),
            r.renderers.all_wgpu(),
    {
        IcedContext::new()
    }
}

} // verus!
