//! Bridges an immediate-mode UI description, rebuilt every frame, with a
//! host's deferred, double-buffered rendering pipeline.
//!
//! The host runs UI-producing logic in one phase per frame and GPU
//! submission in a later phase, on data copied across a world boundary.
//! This library keeps per-window UI state — layout caches, renderer
//! handles, the draw-needed signal — alive and synchronized across that
//! split: renderers are created once per window and never recreated while
//! it is open, no stale or duplicate frame is ever resubmitted, and
//! messages reach the host in emission order.
//!
//! - [`viewport`]: logical/physical size resolution and cursor conversion;
//! - [`settings`]: caller-facing configuration;
//! - [`store`]: the key/value store backing the per-window registries;
//! - [`registry`]: the per-window renderer registry;
//! - [`cache`]: the layout-cache registry and its take/put-back protocol;
//! - [`context`]: the UI cycle driver;
//! - [`extract`]: the once-per-frame copy into the render world, which
//!   test-and-clears each draw flag;
//! - [`node`]: the render-graph submission node and its staging buffer;
//! - [`draw_flag`]: proofs about the draw-flag handoff under arbitrary
//!   interleavings of UI cycles and extractions.

pub mod cache;
pub mod context;
pub mod draw_flag;
pub mod extract;
pub mod node;
pub mod registry;
pub mod settings;
pub mod store;
pub mod viewport;
