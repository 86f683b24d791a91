//! The bounce-oscillation step: flip the direction flag at the bounds, then
//! advance by one displacement. Motion (position) and scale (size) share the
//! same algorithm.

use vstd::prelude::*;

use crate::components::MAX_ELAPSED;
use crate::components::MovingRectComponent;
use crate::components::RectToDraw;
use crate::components::ScalableRectComponent;
use crate::components::motion_slack;
use crate::components::movable_wf;
use crate::components::pos_in_bounds;
use crate::components::scalable_wf;
use crate::components::size_in_bounds;

verus! {

/// The direction flag after one update observed coordinate `pos` against the
/// bounds `[lo, hi]`. The at-max check comes first, so a coordinate sitting on
/// both bounds (only possible when `lo == hi`) is treated as at-max.
pub open spec fn axis_dir_after(pos: int, lo: int, hi: int, dir: bool) -> bool {
    if pos >= hi {
        false
    } else if pos <= lo {
        true
    } else {
        dir
    }
}

/// The coordinate after one update: the freshly recomputed direction decides
/// whether the displacement `step` is added or subtracted. No clamping.
pub open spec fn axis_pos_after(pos: int, lo: int, hi: int, dir: bool, step: int) -> int {
    if axis_dir_after(pos, lo, hi, dir) {
        pos + step
    } else {
        pos - step
    }
}

/// One update keeps a coordinate within `slack` of the bounds, for any
/// displacement of at most `slack`. This is what makes every position and
/// size computation of the library stay in its machine range.
pub proof fn lemma_axis_step_in_slack(pos: int, lo: int, hi: int, dir: bool, step: int, slack: int)
    requires
        lo <= hi,
        0 <= step <= slack,
        lo - slack <= pos <= hi + slack,
    ensures
        lo - slack <= axis_pos_after(pos, lo, hi, dir, step) <= hi + slack,
{
}

/// One oscillation step of a position coordinate in `[lo, hi]`, moving by
/// `step`: returns the new coordinate and the new direction flag.
pub fn step_position_axis(pos: i32, lo: i32, hi: i32, dir: bool, step: i32) -> (r: (i32, bool))
    requires
        0 <= step,
        i32::MIN <= axis_pos_after(pos as int, lo as int, hi as int, dir, step as int),
        axis_pos_after(pos as int, lo as int, hi as int, dir, step as int) <= i32::MAX,
    ensures
        r.0 == axis_pos_after(pos as int, lo as int, hi as int, dir, step as int),
        r.1 == axis_dir_after(pos as int, lo as int, hi as int, dir),
{
    let new_dir: bool = if pos >= hi {
        false
    } else if pos <= lo {
        true
    } else {
        dir
    };
    let new_pos: i32 = if new_dir {
        pos + step
    } else {
        pos - step
    };
    (new_pos, new_dir)
}

/// One oscillation step of a size magnitude in `[lo, hi]`, growing or
/// shrinking by `step`: returns the new size and the new direction flag.
pub fn step_size_axis(size: u32, lo: u32, hi: u32, dir: bool, step: u32) -> (r: (u32, bool))
    requires
        0 <= axis_pos_after(size as int, lo as int, hi as int, dir, step as int),
        axis_pos_after(size as int, lo as int, hi as int, dir, step as int) <= u32::MAX,
    ensures
        r.0 == axis_pos_after(size as int, lo as int, hi as int, dir, step as int),
        r.1 == axis_dir_after(size as int, lo as int, hi as int, dir),
{
    let new_dir: bool = if size >= hi {
        false
    } else if size <= lo {
        true
    } else {
        dir
    };
    let new_size: u32 = if new_dir {
        size + step
    } else {
        size - step
    };
    (new_size, new_dir)
}

/// The drawable facet after one motion update: both position coordinates
/// advanced by `speed * elapsed`; size and color untouched.
pub open spec fn moved_rect(r: RectToDraw, m: MovingRectComponent, elapsed: int) -> RectToDraw {
    RectToDraw {
        pos: (
            axis_pos_after(
                r.pos.0 as int,
                m.pos_min.0 as int,
                m.pos_max.0 as int,
                m.direction.0,
                m.speed * elapsed,
            ) as i32,
            axis_pos_after(
                r.pos.1 as int,
                m.pos_min.1 as int,
                m.pos_max.1 as int,
                m.direction.1,
                m.speed * elapsed,
            ) as i32,
        ),
        size: r.size,
        color: r.color,
    }
}

/// The movable facet after one motion update: only the direction flags
/// change, recomputed from the observed position.
pub open spec fn moved_component(r: RectToDraw, m: MovingRectComponent) -> MovingRectComponent {
    MovingRectComponent {
        pos_min: m.pos_min,
        pos_max: m.pos_max,
        speed: m.speed,
        direction: (
            axis_dir_after(r.pos.0 as int, m.pos_min.0 as int, m.pos_max.0 as int, m.direction.0),
            axis_dir_after(r.pos.1 as int, m.pos_min.1 as int, m.pos_max.1 as int, m.direction.1),
        ),
    }
}

/// The drawable facet after one scale update: both size magnitudes advanced
/// by the step; position and color untouched.
pub open spec fn scaled_rect(r: RectToDraw, s: ScalableRectComponent) -> RectToDraw {
    RectToDraw {
        pos: r.pos,
        size: (
            axis_pos_after(
                r.size.0 as int,
                s.scale_min.0 as int,
                s.scale_max.0 as int,
                s.direction.0,
                s.scale_step as int,
            ) as u32,
            axis_pos_after(
                r.size.1 as int,
                s.scale_min.1 as int,
                s.scale_max.1 as int,
                s.direction.1,
                s.scale_step as int,
            ) as u32,
        ),
        color: r.color,
    }
}

/// The scalable facet after one scale update: only the direction flags
/// change, recomputed from the observed size.
pub open spec fn scaled_component(r: RectToDraw, s: ScalableRectComponent) -> ScalableRectComponent {
    ScalableRectComponent {
        scale_min: s.scale_min,
        scale_max: s.scale_max,
        scale_step: s.scale_step,
        direction: (
            axis_dir_after(r.size.0 as int, s.scale_min.0 as int, s.scale_max.0 as int, s.direction.0),
            axis_dir_after(r.size.1 as int, s.scale_min.1 as int, s.scale_max.1 as int, s.direction.1),
        ),
    }
}

/// Motion update for one entity carrying both a drawable and a movable facet:
/// per axis, recompute the direction flag against the position bounds, then
/// displace the position by `speed * elapsed` in that direction.
pub fn update_rect_position(rect: &mut RectToDraw, mv: &mut MovingRectComponent, elapsed: u32)
    requires
        movable_wf(*old(mv)),
        pos_in_bounds(*old(rect), *old(mv)),
        elapsed <= MAX_ELAPSED,
    ensures
        *final(rect) == moved_rect(*old(rect), *old(mv), elapsed as int),
        *final(mv) == moved_component(*old(rect), *old(mv)),
        movable_wf(*final(mv)),
        pos_in_bounds(*final(rect), *final(mv)),
{
    proof {
        let sp: int = mv.speed as int;
        let el: int = elapsed as int;
        assert(sp * el <= sp * (MAX_ELAPSED as int) && 0 <= sp * el) by (nonlinear_arith)
            requires
                0 < sp,
                0 <= el <= MAX_ELAPSED as int,
        ;
    }
    let step: i32 = mv.speed * (elapsed as i32);
    proof {
        lemma_axis_step_in_slack(
            rect.pos.0 as int,
            mv.pos_min.0 as int,
            mv.pos_max.0 as int,
            mv.direction.0,
            step as int,
            motion_slack(*mv),
        );
        lemma_axis_step_in_slack(
            rect.pos.1 as int,
            mv.pos_min.1 as int,
            mv.pos_max.1 as int,
            mv.direction.1,
            step as int,
            motion_slack(*mv),
        );
    }
    let (x, dx) = step_position_axis(rect.pos.0, mv.pos_min.0, mv.pos_max.0, mv.direction.0, step);
    let (y, dy) = step_position_axis(rect.pos.1, mv.pos_min.1, mv.pos_max.1, mv.direction.1, step);
    rect.pos = (x, y);
    mv.direction = (dx, dy);
}

/// Scale update for one entity carrying both a drawable and a scalable facet:
/// per axis, recompute the direction flag against the size bounds, then grow
/// or shrink the size by the step. Not time-scaled.
pub fn update_rect_size(rect: &mut RectToDraw, sc: &mut ScalableRectComponent)
    requires
        scalable_wf(*old(sc)),
        size_in_bounds(*old(rect), *old(sc)),
    ensures
        *final(rect) == scaled_rect(*old(rect), *old(sc)),
        *final(sc) == scaled_component(*old(rect), *old(sc)),
        scalable_wf(*final(sc)),
        size_in_bounds(*final(rect), *final(sc)),
{
    proof {
        lemma_axis_step_in_slack(
            rect.size.0 as int,
            sc.scale_min.0 as int,
            sc.scale_max.0 as int,
            sc.direction.0,
            sc.scale_step as int,
            sc.scale_step as int,
        );
        lemma_axis_step_in_slack(
            rect.size.1 as int,
            sc.scale_min.1 as int,
            sc.scale_max.1 as int,
            sc.direction.1,
            sc.scale_step as int,
            sc.scale_step as int,
        );
    }
    let (w, dw) = step_size_axis(rect.size.0, sc.scale_min.0, sc.scale_max.0, sc.direction.0, sc.scale_step);
    let (h, dh) = step_size_axis(rect.size.1, sc.scale_min.1, sc.scale_max.1, sc.direction.1, sc.scale_step);
    rect.size = (w, h);
    sc.direction = (dw, dh);
}

} // verus!
