//! The per-window renderer registry. It lazily creates and owns one
//! GPU-backed renderer handle per window, persists across frames so GPU
//! resources are allocated exactly once per window, and releases a handle
//! when its window closes.

use vstd::prelude::*;

use crate::store::KvStore;

verus! {

/// The concrete backend a renderer handle is bound to. The render-graph
/// node is compiled against one backend; meeting another at submission time
/// is a fatal configuration error.
#[derive(Clone, Copy, Debug, PartialEq, Eq, Structural)]
pub enum Backend {
    /// The GPU backend the submission node drives.
    Wgpu,
    /// A software backend; the submission node cannot drive it.
    TinySkia,
}

/// A handle standing for one GPU-backed renderer instance. Handles with the
/// same `id` reach the same underlying instance; the registry never hands
/// out one `id` for two instances.
#[derive(Clone, Copy, Debug, PartialEq, Eq, Structural)]
pub struct RendererHandle {
    /// Identity of the underlying renderer instance.
    pub id: u64,
    /// The backend the instance was created on.
    pub backend: Backend,
}

/// One renderer handle per window, created on first use and kept until the
/// window closes. Instance identities are issued from a counter that never
/// goes backwards, so a handle created after a removal is never the removed
/// instance.
#[derive(Debug)]
pub struct RendererRegistry {
    /// The handle for each window that has one.
    pub handles: KvStore<RendererHandle>,
    /// The identity the next created instance receives.
    pub next_id: u64,
}

/// The handle a `get_or_create` on state `(m, next_id)` returns: the
/// window's existing handle, or a fresh wgpu-backed one with identity
/// `next_id`.
pub open spec fn spec_get_or_create_handle(
    m: Map<u64, RendererHandle>,
    next_id: u64,
    window: u64,
) -> RendererHandle {
    if m.contains_key(window) {
        m[window]
    } else {
        RendererHandle { id: next_id, backend: Backend::Wgpu }
    }
}

/// The handle map after a `get_or_create`: unchanged but for the window's
/// own entry, which now holds the returned handle.
pub open spec fn spec_get_or_create_map(
    m: Map<u64, RendererHandle>,
    next_id: u64,
    window: u64,
) -> Map<u64, RendererHandle> {
    m.insert(window, spec_get_or_create_handle(m, next_id, window))
}

impl RendererRegistry {
    /// Registry invariant: keys are distinct, and every issued instance
    /// identity lies below the counter.
    pub open spec fn wf(self) -> bool {
        &&& self.handles.wf()
        &&& forall|w: u64|
            self.handles@.contains_key(w) ==> #[trigger] self.handles@[w].id < self.next_id
    }

    /// Holds when every handle in the registry is wgpu-backed, as every
    /// handle this registry creates is.
    pub open spec fn all_wgpu(self) -> bool {
        forall|w: u64|
            self.handles@.contains_key(w) ==> #[trigger] self.handles@[w].backend == Backend::Wgpu
    }

    /// An empty registry.
    pub fn new() -> (r: Self)
        ensures
            r.handles@ == Map::<u64, RendererHandle>::empty(),
            r.next_id == 0,
            r.wf(),
            r.all_wgpu(),
    {
        RendererRegistry { handles: KvStore::new(), next_id: 0 }
    }

    /// Returns the window's renderer handle, creating one on the window's
    /// first call. A window's handle is returned unchanged on every later
    /// call until the window is removed, so GPU resources are allocated
    /// exactly once per window.
    pub fn get_or_create(&mut self, window: u64) -> (r: RendererHandle)
        requires
            old(self).wf(),
            old(self).next_id < u64::MAX,
        ensures
            final(self).wf(),
            r == spec_get_or_create_handle(old(self).handles@, old(self).next_id, window),
            final(self).handles@ == spec_get_or_create_map(
                old(self).handles@,
                old(self).next_id,
                window,
            ),
            old(self).handles@.contains_key(window) ==> *final(self) == *old(self),
            !old(self).handles@.contains_key(window) ==> final(self).next_id == old(self).next_id
                + 1,
            old(self).all_wgpu() ==> final(self).all_wgpu(),
    {
        match self.handles.get(window) {
            Some(handle) => {
                proof {
                    assert(self.handles@.insert(window, handle) =~= self.handles@);
                }
                handle
            },
            None => {
                let handle = RendererHandle { id: self.next_id, backend: Backend::Wgpu };
                self.handles.set(window, handle);
                self.next_id = self.next_id + 1;
                handle
            },
        }
    }

    /// Looks a window's handle up without creating one.
    pub fn get(&self, window: u64) -> (r: Option<RendererHandle>)
        requires
            self.wf(),
        ensures
            match r {
                Some(h) => self.handles@.contains_key(window) && h == self.handles@[window],
                None => !self.handles@.contains_key(window),
            },
    {
        self.handles.get(window)
    }

    /// Drops a window's handle, releasing the underlying renderer. Called
    /// when the window closes; removing a window that has no handle does
    /// nothing.
    pub fn remove(&mut self, window: u64)
        requires
            old(self).wf(),
        ensures
            final(self).wf(),
            final(self).handles@ == old(self).handles@.remove(window),
            final(self).next_id == old(self).next_id,
            old(self).all_wgpu() ==> final(self).all_wgpu(),
    {
        let _ = self.handles.remove(window);
    }

    /// A snapshot holding the same handles, as the extraction phase clones
    /// the handle map into the render world.
    pub fn snapshot(&self) -> (r: Self)
        ensures
            r.handles@ == self.handles@,
            r.next_id == self.next_id,
            r.wf() == self.wf(),
    {
        RendererRegistry { handles: self.handles.duplicate(), next_id: self.next_id }
    }
}

/// Law: renderer identity is stable. Two `get_or_create` calls for one
/// window, with no removal in between, return the same handle, and the
/// second call changes nothing: the first call's handle map already carries
/// the window.
pub proof fn lemma_renderer_identity_stable(m: Map<u64, RendererHandle>, next_id: u64, window: u64)
    ensures
        spec_get_or_create_handle(
            spec_get_or_create_map(m, next_id, window),
            next_id,
            window,
        ) == spec_get_or_create_handle(m, next_id, window),
        spec_get_or_create_map(
            spec_get_or_create_map(m, next_id, window),
            next_id,
            window,
        ) == spec_get_or_create_map(m, next_id, window),
{
    let m1 = spec_get_or_create_map(m, next_id, window);
    assert(m1.contains_key(window));
    assert(m1.insert(window, m1[window]) =~= m1);
}

/// Law: closing a window releases its renderer. After a removal, a new
/// `get_or_create` for the window constructs a new instance: its identity
/// differs from the removed handle's, whatever the counter has grown to in
/// between.
pub proof fn lemma_remove_then_create_is_fresh(
    m: Map<u64, RendererHandle>,
    next_id: u64,
    later_next_id: u64,
    window: u64,
)
    requires
        m.contains_key(window),
        m[window].id < next_id,
        next_id <= later_next_id,
    ensures
        spec_get_or_create_handle(m.remove(window), later_next_id, window) != m[window],
{
    assert(!m.remove(window).contains_key(window));
    assert(spec_get_or_create_handle(m.remove(window), later_next_id, window).id
        == later_next_id);
}

} // verus!
