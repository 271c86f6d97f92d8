//! The per-frame update rule.
//!
//! Once per rendered frame the host hands over the batch of pointer-motion
//! samples and scroll samples collected since the previous frame, together
//! with the drag flag (is the rotate button held). The rule folds the batch
//! into the orbit state and drains both queues, so that no sample can leak
//! into a later frame.

use vstd::prelude::*;

use crate::state::DELTA_LIMIT_MILLI;
use crate::state::DISTANCE_MAX_MICRO;
use crate::state::DISTANCE_MIN_MICRO;
use crate::state::OrbitState;
use crate::state::PITCH_MAX_MICRO;
use crate::state::PITCH_MIN_MICRO;
use crate::state::PointerDelta;
use crate::state::ROTATE_SENS;
use crate::state::ZOOM_SENS;

verus! {

/// `v` pulled into `[lo, hi]`.
pub open spec fn clamp_int(v: int, lo: int, hi: int) -> int {
    if v < lo {
        lo
    } else if v > hi {
        hi
    } else {
        v
    }
}

/// Sum of the horizontal components of a pointer batch.
pub open spec fn sum_dx(s: Seq<PointerDelta>) -> int
    decreases s.len(),
{
    if s.len() == 0 {
        0
    } else {
        sum_dx(s.drop_last()) + s.last().dx
    }
}

/// Sum of the vertical components of a pointer batch.
pub open spec fn sum_dy(s: Seq<PointerDelta>) -> int
    decreases s.len(),
{
    if s.len() == 0 {
        0
    } else {
        sum_dy(s.drop_last()) + s.last().dy
    }
}

/// Sum of a scroll batch.
pub open spec fn sum_scroll(s: Seq<i64>) -> int
    decreases s.len(),
{
    if s.len() == 0 {
        0
    } else {
        sum_scroll(s.drop_last()) + s.last()
    }
}

/// Every sample of a pointer batch is inside the accepted magnitude.
pub open spec fn pointer_batch_ok(s: Seq<PointerDelta>) -> bool {
    forall|i: int|
        0 <= i < s.len() ==> {
            &&& -DELTA_LIMIT_MILLI <= (#[trigger] s[i]).dx <= DELTA_LIMIT_MILLI
            &&& -DELTA_LIMIT_MILLI <= s[i].dy <= DELTA_LIMIT_MILLI
        }
}

/// Every sample of a scroll batch is inside the accepted magnitude.
pub open spec fn scroll_batch_ok(s: Seq<i64>) -> bool {
    forall|i: int| 0 <= i < s.len() ==> -DELTA_LIMIT_MILLI <= #[trigger] s[i] <= DELTA_LIMIT_MILLI
}

/// The yaw after one frame: while dragging, each sample turns it by
/// `-ROTATE_SENS * dx`; the accumulation is unbounded in principle and only
/// saturates at the ends of the `i64` range. Without the drag it is untouched.
pub open spec fn yaw_after(yaw0: int, drag_active: bool, pointer: Seq<PointerDelta>) -> int {
    if drag_active {
        clamp_int(yaw0 - ROTATE_SENS * sum_dx(pointer), i64::MIN as int, i64::MAX as int)
    } else {
        yaw0
    }
}

/// The pitch after one frame: while dragging, each sample turns it by
/// `-ROTATE_SENS * dy`, and the result of the whole fold is clamped to the
/// pitch bounds. Without the drag it is untouched.
pub open spec fn pitch_after(pitch0: int, drag_active: bool, pointer: Seq<PointerDelta>) -> int {
    if drag_active {
        clamp_int(
            pitch0 - ROTATE_SENS * sum_dy(pointer),
            PITCH_MIN_MICRO as int,
            PITCH_MAX_MICRO as int,
        )
    } else {
        pitch0
    }
}

/// The distance after one frame: each scroll sample moves it by
/// `-ZOOM_SENS * dy`, whatever the drag flag, and the result of the whole
/// fold is clamped to the distance bounds.
pub open spec fn distance_after(distance0: int, scroll: Seq<i64>) -> int {
    clamp_int(
        distance0 - ZOOM_SENS * sum_scroll(scroll),
        DISTANCE_MIN_MICRO as int,
        DISTANCE_MAX_MICRO as int,
    )
}

/// The whole frame transition: how each field of the state after the frame
/// relates to the state before it and to the input batches.
pub open spec fn next_state(
    pre: OrbitState,
    drag_active: bool,
    pointer: Seq<PointerDelta>,
    scroll: Seq<i64>,
    post: OrbitState,
) -> bool {
    &&& post.focus == pre.focus
    &&& post.yaw as int == yaw_after(pre.yaw as int, drag_active, pointer)
    &&& post.pitch as int == pitch_after(pre.pitch as int, drag_active, pointer)
    &&& post.distance as int == distance_after(pre.distance as int, scroll)
}

/// Extending a prefix of a pointer batch by one sample extends both sums by
/// that sample's components.
proof fn lemma_pointer_sum_step(s: Seq<PointerDelta>, i: int)
    requires
        0 <= i < s.len(),
    ensures
        sum_dx(s.take(i + 1)) == sum_dx(s.take(i)) + s[i].dx,
        sum_dy(s.take(i + 1)) == sum_dy(s.take(i)) + s[i].dy,
{
    assert(s.take(i + 1).drop_last() =~= s.take(i));
    assert(s.take(i + 1).last() == s[i]);
}

/// Extending a prefix of a scroll batch by one sample extends the sum by it.
proof fn lemma_scroll_sum_step(s: Seq<i64>, i: int)
    requires
        0 <= i < s.len(),
    ensures
        sum_scroll(s.take(i + 1)) == sum_scroll(s.take(i)) + s[i],
{
    assert(s.take(i + 1).drop_last() =~= s.take(i));
    assert(s.take(i + 1).last() == s[i]);
}

/// A batch sum bounded by `count` samples of at most `DELTA_LIMIT_MILLI`
/// each, scaled by a small sensitivity, stays far inside the `i128` range.
proof fn lemma_scaled_sum_fits(sum: int, count: int, scale: int)
    requires
        0 <= count <= 0xffff_ffff_ffff_ffff,
        -count * (DELTA_LIMIT_MILLI as int) <= sum,
        sum <= count * (DELTA_LIMIT_MILLI as int),
        0 < scale <= 1000,
    ensures
        -0x1000000000000000000000000000000 <= scale * sum,
        scale * sum <= 0x1000000000000000000000000000000,
{
    assert(-0x1000000000000000000000000000000 <= scale * sum && scale * sum
        <= 0x1000000000000000000000000000000) by (nonlinear_arith)
        requires
            0 <= count <= 0xffff_ffff_ffff_ffff,
            -count * (DELTA_LIMIT_MILLI as int) <= sum,
            sum <= count * (DELTA_LIMIT_MILLI as int),
            0 < scale <= 1000,
    ;
}

/// `v` saturated to the `i64` range.
fn saturate_to_i64(v: i128) -> (r: i64)
    ensures
        r as int == clamp_int(v as int, i64::MIN as int, i64::MAX as int),
{
    if v < i64::MIN as i128 {
        i64::MIN
    } else if v > i64::MAX as i128 {
        i64::MAX
    } else {
        v as i64
    }
}

/// `v` clamped to `[lo, hi]`.
fn clamp_to_i64(v: i128, lo: i64, hi: i64) -> (r: i64)
    requires
        lo <= hi,
    ensures
        r as int == clamp_int(v as int, lo as int, hi as int),
{
    if v < lo as i128 {
        lo
    } else if v > hi as i128 {
        hi
    } else {
        v as i64
    }
}

/// One frame of the orbit controller.
///
/// While the drag is active, every pointer sample is folded into the angles
/// in arrival order; pitch is clamped after the fold. Without the drag the
/// pointer batch is discarded untouched. Scroll samples are folded into the
/// distance in arrival order whatever the drag flag, and the distance is
/// clamped after the fold. Both input queues are left empty, so no sample
/// survives into a later frame. The focus point never moves.
pub fn update(
    state: &mut OrbitState,
    drag_active: bool,
    pointer_deltas: &mut Vec<PointerDelta>,
    scroll_deltas: &mut Vec<i64>,
)
    requires
        old(state).wf(),
        pointer_batch_ok(old(pointer_deltas)@),
        scroll_batch_ok(old(scroll_deltas)@),
    ensures
        next_state(
            *old(state),
            drag_active,
            old(pointer_deltas)@,
            old(scroll_deltas)@,
            *final(state),
        ),
        final(state).wf(),
        final(pointer_deltas)@.len() == 0,
        final(scroll_deltas)@.len() == 0,
{
    let ghost pointer0: Seq<PointerDelta> = pointer_deltas@;
    let ghost scroll0: Seq<i64> = scroll_deltas@;

    if drag_active {
        let n: usize = pointer_deltas.len();
        let mut dx_sum: i128 = 0;
        let mut dy_sum: i128 = 0;
        let mut i: usize = 0;
        while i < n
            invariant
                i <= n,
                n == pointer_deltas@.len(),
                pointer_deltas@ == pointer0,
                pointer_batch_ok(pointer0),
                dx_sum as int == sum_dx(pointer0.take(i as int)),
                dy_sum as int == sum_dy(pointer0.take(i as int)),
                -(i as int) * (DELTA_LIMIT_MILLI as int) <= dx_sum as int <= (i as int) * (
                DELTA_LIMIT_MILLI as int),
                -(i as int) * (DELTA_LIMIT_MILLI as int) <= dy_sum as int <= (i as int) * (
                DELTA_LIMIT_MILLI as int),
            decreases n - i,
        {
            let d: PointerDelta = pointer_deltas[i];
            proof {
                lemma_pointer_sum_step(pointer0, i as int);
            }
            dx_sum = dx_sum + d.dx as i128;
            dy_sum = dy_sum + d.dy as i128;
            i = i + 1;
        }
        proof {
            assert(pointer0.take(n as int) =~= pointer0);
            lemma_scaled_sum_fits(dx_sum as int, n as int, ROTATE_SENS as int);
            lemma_scaled_sum_fits(dy_sum as int, n as int, ROTATE_SENS as int);
        }
        let yaw_raw: i128 = state.yaw as i128 - ROTATE_SENS as i128 * dx_sum;
        state.yaw = saturate_to_i64(yaw_raw);
        let pitch_raw: i128 = state.pitch as i128 - ROTATE_SENS as i128 * dy_sum;
        state.pitch = clamp_to_i64(pitch_raw, PITCH_MIN_MICRO, PITCH_MAX_MICRO);
    }
    pointer_deltas.clear();

    let m: usize = scroll_deltas.len();
    let mut scroll_sum: i128 = 0;
    let mut j: usize = 0;
    while j < m
        invariant
            j <= m,
            m == scroll_deltas@.len(),
            scroll_deltas@ == scroll0,
            scroll_batch_ok(scroll0),
            scroll_sum as int == sum_scroll(scroll0.take(j as int)),
            -(j as int) * (DELTA_LIMIT_MILLI as int) <= scroll_sum as int <= (j as int) * (
            DELTA_LIMIT_MILLI as int),
        decreases m - j,
    {
        let dy: i64 = scroll_deltas[j];
        proof {
            lemma_scroll_sum_step(scroll0, j as int);
        }
        scroll_sum = scroll_sum + dy as i128;
        j = j + 1;
    }
    proof {
        assert(scroll0.take(m as int) =~= scroll0);
        lemma_scaled_sum_fits(scroll_sum as int, m as int, ZOOM_SENS as int);
    }
    let distance_raw: i128 = state.distance as i128 - ZOOM_SENS as i128 * scroll_sum;
    state.distance = clamp_to_i64(distance_raw, DISTANCE_MIN_MICRO, DISTANCE_MAX_MICRO);
    scroll_deltas.clear();
}

/// What a frame did: either the unique camera was updated, or there was no
/// unique camera and the frame was skipped untouched.
#[derive(Clone, Copy, Debug, PartialEq, Eq, Structural)]
pub enum FrameOutcome {
    Updated,
    MissingController,
}

/// One frame of the host's update step over the list of live cameras.
///
/// Exactly one orbit camera is expected. When zero or several are present
/// the frame is skipped silently — nothing is read, nothing is drained,
/// nothing changes — and the next frame tries again. With exactly one, its
/// state takes the frame transition and both input queues are drained.
pub fn run_frame(
    cameras: &mut Vec<OrbitState>,
    drag_active: bool,
    pointer_deltas: &mut Vec<PointerDelta>,
    scroll_deltas: &mut Vec<i64>,
) -> (outcome: FrameOutcome)
    requires
        old(cameras)@.len() == 1 ==> old(cameras)@[0].wf(),
        pointer_batch_ok(old(pointer_deltas)@),
        scroll_batch_ok(old(scroll_deltas)@),
    ensures
        old(cameras)@.len() == 1 ==> {
            &&& outcome == FrameOutcome::Updated
            &&& final(cameras)@.len() == 1
            &&& next_state(
                old(cameras)@[0],
                drag_active,
                old(pointer_deltas)@,
                old(scroll_deltas)@,
                final(cameras)@[0],
            )
            &&& final(cameras)@[0].wf()
            &&& final(pointer_deltas)@.len() == 0
            &&& final(scroll_deltas)@.len() == 0
        },
        old(cameras)@.len() != 1 ==> {
            &&& outcome == FrameOutcome::MissingController
            &&& final(cameras)@ == old(cameras)@
            &&& final(pointer_deltas)@ == old(pointer_deltas)@
            &&& final(scroll_deltas)@ == old(scroll_deltas)@
        },
{
    if cameras.len() != 1 {
        return FrameOutcome::MissingController;
    }
    let ghost cameras0: Seq<OrbitState> = cameras@;
    let mut s: OrbitState = cameras[0];
    update(&mut s, drag_active, pointer_deltas, scroll_deltas);
    let camera_slot = vec_first_mut(cameras);
    *camera_slot = s;
    proof {
        assert(cameras0.update(0, s)[0] == s);
    }
    FrameOutcome::Updated
}

/// A mutable borrow of the first element of a non-empty vector.
fn vec_first_mut<T>(v: &mut Vec<T>) -> (element: &mut T)
    requires
        old(v)@.len() > 0,
    ensures
        *element == old(v)@[0],
        final(v)@ == old(v)@.update(0, *final(element)),
{
    &mut v[0]
}

} // verus!
