//! The frame extractor: the single synchronization point between the logic
//! world and the render world. Once per frame, after all UI cycles and
//! before the submission node runs, it copies the minimal render-relevant
//! state — viewport and draw-needed flag per window, plus the renderer
//! handle map — into a fresh render-world snapshot, atomically swapping
//! each draw flag to false while capturing its prior value.

use vstd::prelude::*;

use crate::context::{IcedContext, WindowEntry};
use crate::registry::RendererRegistry;
use crate::store::{lemma_as_map_dom, lemma_as_map_index, KvStore};
use crate::viewport::WindowViewport;

verus! {

/// The render-world snapshot of one window: its viewport and whether a
/// draw was produced since the last extraction.
#[derive(Clone, Copy, Debug)]
pub struct ExtractedIcedWindow {
    /// The window's viewport at extraction time.
    pub viewport: WindowViewport,
    /// The draw-needed flag captured — and cleared — at extraction time.
    pub did_draw: bool,
}

/// The render-world snapshot of all windows, rebuilt from scratch every
/// frame; entries of earlier frames do not persist.
#[derive(Debug)]
pub struct ExtractedIcedWindows {
    /// One snapshot per window known at extraction time.
    pub windows: KvStore<ExtractedIcedWindow>,
}

/// Copies the render-relevant state into a fresh snapshot and clears every
/// draw flag. The returned registry is a snapshot of the renderer handle
/// map, so the render world resolves the same underlying renderer
/// instances by window identity; no renderer lock is taken. Reading and
/// clearing the flag here is the only consumption of the flag, which keeps
/// each produced frame submitted at most once and never resubmits a stale
/// frame.
pub fn extract_iced_data(ctx: &mut IcedContext) -> (r: (ExtractedIcedWindows, RendererRegistry))
    requires
        old(ctx).wf(),
    ensures
        final(ctx).wf(),
        r.0.windows.wf(),
        // The snapshot covers exactly the windows known at extraction time.
        r.0.windows@.dom() == old(ctx).windows@.dom(),
        // Each snapshot captures the window's viewport and prior flag.
        forall|w: u64|
            old(ctx).windows@.contains_key(w) ==> #[trigger] r.0.windows@[w]
                == (ExtractedIcedWindow {
                viewport: old(ctx).windows@[w].viewport,
                did_draw: old(ctx).windows@[w].draw_flag,
            }),
        // Every flag is cleared; nothing else of a window changes.
        final(ctx).windows@.dom() == old(ctx).windows@.dom(),
        forall|w: u64|
            old(ctx).windows@.contains_key(w) ==> #[trigger] final(ctx).windows@[w]
                == (WindowEntry { draw_flag: false, ..old(ctx).windows@[w] }),
        // The render world reaches the same renderer instances.
        r.1.handles@ == old(ctx).renderers.handles@,
        r.1.next_id == old(ctx).renderers.next_id,
        // The logic-side registries and queues are untouched.
        final(ctx).renderers == old(ctx).renderers,
        final(ctx).caches == old(ctx).caches,
        final(ctx).settings == old(ctx).settings,
        final(ctx).setup == old(ctx).setup,
        final(ctx).events == old(ctx).events,
        final(ctx).touches == old(ctx).touches,
        final(ctx).primary_window == old(ctx).primary_window,
{
    let n = ctx.windows.count();
    let mut snapshot: KvStore<ExtractedIcedWindow> = KvStore::new();
    let mut i: usize = 0;
    while i < n
        invariant
            n == ctx.windows.entries@.len(),
            n == old(ctx).windows.entries@.len(),
            i <= n,
            ctx.windows.wf(),
            forall|j: int|
                0 <= j < n ==> ctx.windows.entries@[j].0 == old(ctx).windows.entries@[j].0,
            forall|j: int|
                0 <= j < i ==> ctx.windows.entries@[j].1 == (WindowEntry {
                    draw_flag: false,
                    ..old(ctx).windows.entries@[j].1
                }),
            forall|j: int| i <= j < n ==> ctx.windows.entries@[j] == old(ctx).windows.entries@[j],
            snapshot.entries@.len() == i,
            snapshot.wf(),
            forall|j: int|
                0 <= j < i ==> snapshot.entries@[j] == (
                old(ctx).windows.entries@[j].0,
                ExtractedIcedWindow {
                    viewport: old(ctx).windows.entries@[j].1.viewport,
                    did_draw: old(ctx).windows.entries@[j].1.draw_flag,
                },
                ),
            ctx.renderers == old(ctx).renderers,
            ctx.caches == old(ctx).caches,
            ctx.settings == old(ctx).settings,
            ctx.setup == old(ctx).setup,
            ctx.events == old(ctx).events,
            ctx.touches == old(ctx).touches,
            ctx.primary_window == old(ctx).primary_window,
        decreases n - i,
    {
        let key = ctx.windows.key_at(i);
        let entry = ctx.windows.value_at(i);
        proof {
            assert forall|j: int| 0 <= j < snapshot.entries@.len() implies snapshot.entries@[j].0
                != key by {
                assert(old(ctx).windows.entries@[j].0 != old(ctx).windows.entries@[i as int].0);
            }
        }
        snapshot.append(
            key,
            ExtractedIcedWindow { viewport: entry.viewport, did_draw: entry.draw_flag },
        );
        ctx.windows.set_value_at(i, WindowEntry { draw_flag: false, ..entry });
        i += 1;
    }
    let renderers = ctx.renderers.snapshot();
    proof {
        let old_entries = old(ctx).windows.entries@;
        let new_entries = ctx.windows.entries@;
        let snap_entries = snapshot.entries@;
        assert forall|w: u64| old(ctx).windows@.contains_key(w) implies snapshot@.contains_key(w)
            && ctx.windows@.contains_key(w) by {
            lemma_as_map_dom(old_entries, w);
            let j = choose|j: int| 0 <= j < old_entries.len() && old_entries[j].0 == w;
            lemma_as_map_index(snap_entries, j);
            lemma_as_map_index(new_entries, j);
        }
        assert forall|w: u64| snapshot@.contains_key(w) implies old(
            ctx,
        ).windows@.contains_key(w) by {
            lemma_as_map_dom(snap_entries, w);
            let j = choose|j: int| 0 <= j < snap_entries.len() && snap_entries[j].0 == w;
            lemma_as_map_index(old_entries, j);
        }
        assert forall|w: u64| ctx.windows@.contains_key(w) implies old(
            ctx,
        ).windows@.contains_key(w) by {
            lemma_as_map_dom(new_entries, w);
            let j = choose|j: int| 0 <= j < new_entries.len() && new_entries[j].0 == w;
            lemma_as_map_index(old_entries, j);
        }
        assert(snapshot@.dom() =~= old(ctx).windows@.dom());
        assert(ctx.windows@.dom() =~= old(ctx).windows@.dom());
        assert forall|w: u64| old(ctx).windows@.contains_key(w) implies #[trigger] snapshot@[w]
            == (ExtractedIcedWindow {
            viewport: old(ctx).windows@[w].viewport,
            did_draw: old(ctx).windows@[w].draw_flag,
        }) by {
            lemma_as_map_dom(old_entries, w);
            let j = choose|j: int| 0 <= j < old_entries.len() && old_entries[j].0 == w;
            lemma_as_map_index(old_entries, j);
            lemma_as_map_index(snap_entries, j);
        }
        assert forall|w: u64| old(ctx).windows@.contains_key(w) implies #[trigger] ctx.windows@[w]
            == (WindowEntry { draw_flag: false, ..old(ctx).windows@[w] }) by {
            lemma_as_map_dom(old_entries, w);
            let j = choose|j: int| 0 <= j < old_entries.len() && old_entries[j].0 == w;
            lemma_as_map_index(old_entries, j);
            lemma_as_map_index(new_entries, j);
        }
        assert forall|w: u64| ctx.windows@.contains_key(w) implies (
        #[trigger] ctx.windows@[w]).viewport.wf() by {
            assert(old(ctx).windows@.contains_key(w));
            assert(old(ctx).windows@[w].viewport.wf());
        }
        assert(ctx.wf());
    }
    (ExtractedIcedWindows { windows: snapshot }, renderers)
}

} // verus!
