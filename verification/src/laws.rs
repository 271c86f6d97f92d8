//! The general laws of the frame transition, each proved once and for all
//! over `next_state`, the relation that `update` ensures.

use vstd::prelude::*;

use crate::controller::next_state;
use crate::state::DISTANCE_MAX_MICRO;
use crate::state::DISTANCE_MIN_MICRO;
use crate::state::OrbitState;
use crate::state::PITCH_MAX_MICRO;
use crate::state::PITCH_MIN_MICRO;
use crate::state::PointerDelta;

verus! {

/// Clamp invariants: after any frame from a well-formed state, whatever the
/// drag flag and the input batches, the distance is inside its bounds and the
/// pitch is inside its bounds.
pub proof fn lemma_clamp_invariants(
    pre: OrbitState,
    post: OrbitState,
    drag_active: bool,
    pointer: Seq<PointerDelta>,
    scroll: Seq<i64>,
)
    requires
        pre.wf(),
        next_state(pre, drag_active, pointer, scroll, post),
    ensures
        DISTANCE_MIN_MICRO <= post.distance <= DISTANCE_MAX_MICRO,
        PITCH_MIN_MICRO <= post.pitch <= PITCH_MAX_MICRO,
        post.wf(),
{
}

/// Drag gating: a frame without the drag leaves yaw and pitch exactly as
/// they were, whatever pointer motion arrived. (That the pointer queue is
/// nevertheless drained is part of the contract of `update` itself.)
pub proof fn lemma_drag_gating(
    pre: OrbitState,
    post: OrbitState,
    pointer: Seq<PointerDelta>,
    scroll: Seq<i64>,
)
    requires
        next_state(pre, false, pointer, scroll, post),
    ensures
        post.yaw == pre.yaw,
        post.pitch == pre.pitch,
{
}

/// Zoom independence: two frames that start from the same distance and see
/// the same scroll batch end at the same distance, whatever their drag flags
/// and pointer batches.
pub proof fn lemma_zoom_independence(
    pre_a: OrbitState,
    post_a: OrbitState,
    pre_b: OrbitState,
    post_b: OrbitState,
    drag_a: bool,
    drag_b: bool,
    pointer_a: Seq<PointerDelta>,
    pointer_b: Seq<PointerDelta>,
    scroll: Seq<i64>,
)
    requires
        pre_a.distance == pre_b.distance,
        next_state(pre_a, drag_a, pointer_a, scroll, post_a),
        next_state(pre_b, drag_b, pointer_b, scroll, post_b),
    ensures
        post_a.distance == post_b.distance,
{
}

/// Idempotence under empty input: a frame that sees no pointer motion and no
/// scroll, from a well-formed state, leaves the state exactly as it was,
/// whatever the drag flag.
pub proof fn lemma_empty_input_identity(pre: OrbitState, post: OrbitState, drag_active: bool)
    requires
        pre.wf(),
        next_state(pre, drag_active, Seq::<PointerDelta>::empty(), Seq::<i64>::empty(), post),
    ensures
        post == pre,
{
}

} // verus!
