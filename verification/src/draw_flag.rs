//! Proofs about the draw-needed flag handoff for a single window, over
//! arbitrary interleavings of UI cycles and extractions.
//!
//! The flag is the one signal between the logic phase and the render
//! phase: a completed UI cycle sets it
//! ([`crate::context::IcedContext::complete_display`] leaves the window's
//! `draw_flag` true) and an extraction captures and clears it
//! ([`crate::extract::extract_iced_data`] records the prior value and
//! leaves `draw_flag` false). Read-and-clear, rather than a plain read, is
//! what keeps each produced frame submitted at most once: the lemmas here
//! state that guarantee for every interleaving.

use vstd::prelude::*;

verus! {

/// One operation touching a window's draw flag.
#[derive(Clone, Copy, Debug, PartialEq, Eq, Structural)]
pub enum FrameOp {
    /// A completed UI cycle for the window: sets the flag.
    Display,
    /// A frame extraction: captures the flag's value and clears it.
    Extract,
}

/// The flag's value after `ops` have run against an initial value: the
/// last operation decides, a cycle leaving it set and an extraction
/// leaving it clear.
pub open spec fn flag_after(init: bool, ops: Seq<FrameOp>) -> bool {
    if ops.len() == 0 {
        init
    } else {
        ops.last() == FrameOp::Display
    }
}

/// How many of `ops` are UI cycles.
pub open spec fn display_count(ops: Seq<FrameOp>) -> nat
    decreases ops.len(),
{
    if ops.len() == 0 {
        0
    } else {
        display_count(ops.drop_last()) + if ops.last() == FrameOp::Display {
            1nat
        } else {
            0nat
        }
    }
}

/// How many extractions in `ops` captured a true flag.
pub open spec fn true_extraction_count(init: bool, ops: Seq<FrameOp>) -> nat
    decreases ops.len(),
{
    if ops.len() == 0 {
        0
    } else {
        true_extraction_count(init, ops.drop_last()) + if ops.last() == FrameOp::Extract
            && flag_after(init, ops.drop_last()) {
            1nat
        } else {
            0nat
        }
    }
}

/// Whether the operation at `k` is an extraction that captured a true flag.
pub open spec fn observes_true(init: bool, ops: Seq<FrameOp>, k: int) -> bool {
    &&& 0 <= k < ops.len()
    &&& ops[k] == FrameOp::Extract
    &&& flag_after(init, ops.subrange(0, k))
}

/// The running account behind the at-most-once law: the true extractions
/// seen so far, plus the one still signalled if the flag stands, never
/// exceed the cycles run so far (plus one if the flag stood initially).
pub proof fn lemma_flag_accounting(init: bool, ops: Seq<FrameOp>)
    ensures
        true_extraction_count(init, ops) + (if flag_after(init, ops) {
            1nat
        } else {
            0nat
        }) <= display_count(ops) + (if init {
            1nat
        } else {
            0nat
        }),
    decreases ops.len(),
{
    if ops.len() > 0 {
        lemma_flag_accounting(init, ops.drop_last());
    }
}

/// Law: the draw flag signals at most once per cycle. For any interleaving
/// of UI cycles and extractions starting from a clear flag, the number of
/// extractions that captured a true flag never exceeds the number of
/// cycles run.
pub proof fn lemma_at_most_once(ops: Seq<FrameOp>)
    ensures
        true_extraction_count(false, ops) <= display_count(ops),
{
    lemma_flag_accounting(false, ops);
}

/// Law: a flag captured as true is never captured as true again without an
/// intervening UI cycle. Whenever two extractions both capture a true
/// flag, a cycle ran strictly between them.
pub proof fn lemma_no_double_capture(init: bool, ops: Seq<FrameOp>, i: int, j: int)
    requires
        i < j,
        observes_true(init, ops, i),
        observes_true(init, ops, j),
    ensures
        exists|k: int| i < k < j && ops[k] == FrameOp::Display,
{
    let pre = ops.subrange(0, j);
    assert(pre.len() == j);
    assert(pre.last() == ops[j - 1]);
    assert(ops[j - 1] == FrameOp::Display);
    assert(ops[i] == FrameOp::Extract);
    assert(i < j - 1 < j && ops[j - 1] == FrameOp::Display);
}

} // verus!
