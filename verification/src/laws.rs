//! The general properties of the bounce oscillation, stated once over the
//! specification functions that every update contract is written in.

use vstd::prelude::*;

use crate::update::axis_dir_after;
use crate::update::axis_pos_after;
use crate::update::lemma_axis_step_in_slack;
use crate::update::moved_rect;
use crate::components::MovingRectComponent;
use crate::components::RectToDraw;
use crate::world::Entity;
use crate::world::entity_after_motion;
use crate::world::world_after_frames;

verus! {

/// After any update step, the direction flag is "increasing" exactly when
/// the coordinate was observed at or below the min bound (and not at the max
/// bound, which is checked first), "decreasing" when observed at or above
/// the max bound, and unchanged otherwise.
pub proof fn lemma_direction_flag(pos: int, lo: int, hi: int, dir: bool)
    ensures
        pos >= hi ==> axis_dir_after(pos, lo, hi, dir) == false,
        pos < hi && pos <= lo ==> axis_dir_after(pos, lo, hi, dir) == true,
        lo < pos < hi ==> axis_dir_after(pos, lo, hi, dir) == dir,
{
}

/// A coordinate trajectory is continuous — every update moves it by exactly
/// one displacement — and its overshoot is controlled: a coordinate within
/// one displacement of `[lo, hi]` stays within one displacement of it, so it
/// never strays further than one step's magnitude beyond the bounds.
pub proof fn lemma_overshoot_bounded(pos: int, lo: int, hi: int, dir: bool, step: int)
    requires
        lo <= hi,
        0 <= step,
        lo - step <= pos <= hi + step,
    ensures
        axis_pos_after(pos, lo, hi, dir, step) == pos + step
            || axis_pos_after(pos, lo, hi, dir, step) == pos - step,
        lo - step <= axis_pos_after(pos, lo, hi, dir, step) <= hi + step,
{
    lemma_axis_step_in_slack(pos, lo, hi, dir, step, step);
}

/// Running zero frames leaves every entity exactly as it was constructed.
pub proof fn lemma_zero_frames(es: Seq<Entity>, elapsed: int)
    ensures
        world_after_frames(es, elapsed, 0) == es,
{
}

/// An elapsed time of zero produces zero displacement: the motion pass
/// leaves every position (and the whole drawable facet) unchanged, though
/// direction flags may still update where a bound was already reached.
pub proof fn lemma_zero_elapsed(r: RectToDraw, m: MovingRectComponent, e: Entity)
    ensures
        moved_rect(r, m, 0) == r,
        entity_after_motion(e, 0).drawable == e.drawable,
        entity_after_motion(e, 0).scalable == e.scalable,
{
    assert(m.speed * 0 == 0);
    assert(moved_rect(r, m, 0) == r);
    match (e.drawable, e.movable) {
        (Some(dr), Some(dm)) => {
            assert(dm.speed * 0 == 0);
            assert(moved_rect(dr, dm, 0) == dr);
        },
        _ => {},
    }
}

} // verus!
