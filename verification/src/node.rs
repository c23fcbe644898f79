//! The render-graph submission node. Each frame it recycles the staging
//! upload buffer, walks the extracted windows, and submits a present for
//! exactly those whose captured draw flag was true and whose renderer
//! exists — a window with a false flag gets no backend call at all — and
//! finalizes the staging buffer's writes exactly once, regardless of how
//! many windows drew.

use vstd::prelude::*;

use crate::extract::ExtractedIcedWindows;
use crate::registry::{Backend, RendererHandle, RendererRegistry};
use crate::store::{lemma_as_map_dom, lemma_as_map_index};
use crate::viewport::WindowViewport;

verus! {

/// The render-graph label under which the submission node is registered,
/// ordered after the host's camera/present step.
#[derive(Clone, Copy, Hash, Debug, Eq, PartialEq, Structural)]
pub struct IcedPass;

/// The pixel format of the presentation surface.
#[derive(Clone, Copy, Debug, PartialEq, Eq, Structural)]
pub enum TextureFormat {
    /// The web-compatible choice.
    Rgba8UnormSrgb,
    /// The native choice.
    Bgra8UnormSrgb,
}

/// The pixel format presents are issued with on this build target.
pub const TEXTURE_FMT: TextureFormat = TextureFormat::Bgra8UnormSrgb;

/// The per-chunk size, in bytes, of the staging upload buffer.
pub const STAGING_BELT_CHUNK: u64 = 5 * 1024;

/// Bookkeeping for the recyclable GPU upload staging buffer: how often its
/// completed regions were reclaimed and how often a frame's writes were
/// finalized. Finalization must happen exactly once per frame.
#[derive(Clone, Copy, Debug, PartialEq, Eq, Structural)]
pub struct StagingBelt {
    /// The size of each allocated chunk, in bytes.
    pub chunk_size: u64,
    /// How many times completed regions were reclaimed.
    pub recalls: u64,
    /// How many times a frame's writes were finalized.
    pub finishes: u64,
}

impl StagingBelt {
    /// A fresh belt with the given chunk size.
    pub fn new(chunk_size: u64) -> (b: StagingBelt)
        ensures
            b == (StagingBelt { chunk_size, recalls: 0u64, finishes: 0u64 }),
    {
        StagingBelt { chunk_size, recalls: 0, finishes: 0 }
    }

    /// Reclaims the regions whose GPU work completed.
    pub fn recall(&mut self)
        requires
            old(self).recalls < u64::MAX,
        ensures
            *final(self) == (StagingBelt { recalls: (old(self).recalls + 1) as u64, ..*old(self) }),
    {
        self.recalls = self.recalls + 1;
    }

    /// Finalizes the writes staged this frame.
    pub fn finish(&mut self)
        requires
            old(self).finishes < u64::MAX,
        ensures
            *final(self) == (StagingBelt {
                finishes: (old(self).finishes + 1) as u64,
                ..*old(self)
            }),
    {
        self.finishes = self.finishes + 1;
    }
}

/// One present the submission node issues: which window, through which
/// renderer, at which viewport. The host performs it against the window's
/// swap-chain view with the device, queue, a command encoder, the staging
/// buffer and [`TEXTURE_FMT`]; the debug overlay text list it passes is
/// always empty (the slot is reserved).
#[derive(Clone, Copy, Debug, PartialEq, Eq, Structural)]
pub struct Submission {
    /// The window drawn into.
    pub window: u64,
    /// The renderer whose accumulated primitives are presented.
    pub renderer: RendererHandle,
    /// The viewport the surface is sized by.
    pub viewport: WindowViewport,
}

/// The render-graph node that submits accumulated UI primitives.
#[derive(Debug)]
pub struct IcedNode {
    /// The recyclable upload buffer the node stages vertex and uniform
    /// data through.
    pub staging_belt: StagingBelt,
}

impl IcedNode {
    /// A node with a fresh staging buffer.
    pub fn new() -> (n: Self)
        ensures
            n.staging_belt == (StagingBelt {
                chunk_size: STAGING_BELT_CHUNK,
                recalls: 0u64,
                finishes: 0u64,
            }),
    {
        IcedNode { staging_belt: StagingBelt::new(STAGING_BELT_CHUNK) }
    }

    /// The node's per-frame preparation, run before submission begins:
    /// recycles the completed regions of the staging buffer.
    pub fn update(&mut self)
        requires
            old(self).staging_belt.recalls < u64::MAX,
        ensures
            final(self).staging_belt == (StagingBelt {
                recalls: (old(self).staging_belt.recalls + 1) as u64,
                ..old(self).staging_belt
            }),
    {
        self.staging_belt.recall();
    }

    /// Walks the extracted windows and returns the presents to issue this
    /// frame, finalizing the staging buffer exactly once however many
    /// windows drew.
    ///
    /// A window is submitted exactly when its captured draw flag was true
    /// and a renderer exists for it; a window whose flag was false gets no
    /// backend call and no staging-buffer touch, and a drawn window with no
    /// renderer is skipped silently (it has no UI attached this frame — not
    /// an error). A renderer on a backend other than the compiled one
    /// cannot be presented; such a state is a fatal configuration error and
    /// is excluded here, as the registry only ever creates handles on the
    /// compiled backend.
    pub fn run(
        &mut self,
        extracted: &ExtractedIcedWindows,
        renderers: &RendererRegistry,
    ) -> (plan: Vec<Submission>)
        requires
            old(self).staging_belt.finishes < u64::MAX,
            extracted.windows.wf(),
            renderers.wf(),
            renderers.all_wgpu(),
        ensures
            final(self).staging_belt == (StagingBelt {
                finishes: (old(self).staging_belt.finishes + 1) as u64,
                ..old(self).staging_belt
            }),
            // Every present is owed: its window was extracted with a set
            // draw flag, and it goes to that window's own renderer and
            // viewport. In particular a window whose flag was false gets
            // zero presents.
            forall|j: int|
                0 <= j < plan@.len() ==> {
                    let s = #[trigger] plan@[j];
                    &&& extracted.windows@.contains_key(s.window)
                    &&& extracted.windows@[s.window].did_draw
                    &&& renderers.handles@.contains_key(s.window)
                    &&& s.renderer == renderers.handles@[s.window]
                    &&& s.renderer.backend == Backend::Wgpu
                    &&& s.viewport == extracted.windows@[s.window].viewport
                },
            // Every owed present is issued.
            forall|w: u64|
                extracted.windows@.contains_key(w) && extracted.windows@[w].did_draw
                    && renderers.handles@.contains_key(w) ==> exists|j: int|
                    0 <= j < plan@.len() && (#[trigger] plan@[j]).window == w,
            // No window is presented twice.
            forall|j1: int, j2: int|
                0 <= j1 < j2 < plan@.len() ==> plan@[j1].window != plan@[j2].window,
    {
        let entries = &extracted.windows;
        let n = entries.count();
        let mut plan: Vec<Submission> = Vec::new();
        let mut i: usize = 0;
        while i < n
            invariant
                n == entries.entries@.len(),
                i <= n,
                entries.wf(),
                renderers.wf(),
                renderers.all_wgpu(),
                forall|j: int|
                    0 <= j < plan@.len() ==> {
                        let s = #[trigger] plan@[j];
                        &&& entries@.contains_key(s.window)
                        &&& entries@[s.window].did_draw
                        &&& renderers.handles@.contains_key(s.window)
                        &&& s.renderer == renderers.handles@[s.window]
                        &&& s.viewport == entries@[s.window].viewport
                    },
                forall|j: int|
                    0 <= j < plan@.len() ==> exists|idx: int|
                        0 <= idx < i && entries.entries@[idx].0 == (#[trigger] plan@[j]).window,
                forall|idx: int|
                    0 <= idx < i && (#[trigger] entries.entries@[idx]).1.did_draw
                        && renderers.handles@.contains_key(entries.entries@[idx].0)
                        ==> exists|j: int|
                        0 <= j < plan@.len() && (#[trigger] plan@[j]).window
                            == entries.entries@[idx].0,
                forall|j1: int, j2: int|
                    0 <= j1 < j2 < plan@.len() ==> plan@[j1].window != plan@[j2].window,
            decreases n - i,
        {
            let key = entries.key_at(i);
            let ew = entries.value_at(i);
            if ew.did_draw {
                match renderers.get(key) {
                    Some(handle) => {
                        proof {
                            lemma_as_map_index(entries.entries@, i as int);
                            assert forall|j: int| 0 <= j < plan@.len() implies plan@[j].window
                                != key by {
                                let idx = choose|idx: int|
                                    0 <= idx < i && entries.entries@[idx].0 == plan@[j].window;
                                assert(entries.entries@[idx].0 != entries.entries@[i as int].0);
                            }
                        }
                        let ghost plan_before = plan@;
                        plan.push(Submission { window: key, renderer: handle, viewport: ew.viewport });
                        proof {
                            let last = plan@.len() - 1;
                            assert(plan@[last].window == key);
                            assert(entries.entries@[i as int].0 == key);
                            assert forall|j: int| 0 <= j < plan@.len() implies exists|idx: int|
                                0 <= idx < i + 1 && entries.entries@[idx].0 == (
                            #[trigger] plan@[j]).window by {
                                if j < last {
                                    let idx = choose|idx: int|
                                        0 <= idx < i && entries.entries@[idx].0 == plan@[j].window;
                                    assert(0 <= idx < i + 1 && entries.entries@[idx].0
                                        == plan@[j].window);
                                } else {
                                    assert(0 <= i < i + 1 && entries.entries@[i as int].0
                                        == plan@[j].window);
                                }
                            }
                            assert forall|idx: int|
                                0 <= idx < i + 1 && (#[trigger] entries.entries@[idx]).1.did_draw
                                    && renderers.handles@.contains_key(
                                    entries.entries@[idx].0,
                                ) implies exists|j: int|
                                0 <= j < plan@.len() && (#[trigger] plan@[j]).window
                                    == entries.entries@[idx].0 by {
                                if idx == i {
                                    assert(plan@[last].window == entries.entries@[idx].0);
                                } else {
                                    let j = choose|j: int|
                                        0 <= j < plan_before.len() && (
                                        #[trigger] plan_before[j]).window
                                            == entries.entries@[idx].0;
                                    assert(plan@[j] == plan_before[j]);
                                }
                            }
                        }
                    },
                    None => {
                        // No renderer: the window has no UI attached this
                        // frame; skip it.
                    },
                }
            }
            i += 1;
        }
        proof {
            assert forall|w: u64|
                entries@.contains_key(w) && entries@[w].did_draw
                    && renderers.handles@.contains_key(w) implies exists|j: int|
                0 <= j < plan@.len() && (#[trigger] plan@[j]).window == w by {
                lemma_as_map_dom(entries.entries@, w);
                let idx = choose|idx: int|
                    0 <= idx < entries.entries@.len() && entries.entries@[idx].0 == w;
                lemma_as_map_index(entries.entries@, idx);
                assert(entries.entries@[idx].1.did_draw);
            }
        }
        self.staging_belt.finish();
        plan
    }
}

} // verus!
