//! The three facets an entity may carry, and their well-formedness.

use vstd::prelude::*;

verus! {

/// Largest elapsed-time value (in time units) that one frame may report to
/// the motion update. Bounding the per-frame time lets each movable facet
/// bound, once and for all, how far a rectangle can stray past its configured
/// bounds, and with it every intermediate position computation.
pub const MAX_ELAPSED: u32 = 1024;

/// A color with three 8-bit channels.
#[derive(Clone, Copy, Debug, PartialEq)]
pub struct Rgb {
    pub r: u8,
    pub g: u8,
    pub b: u8,
}

/// Drawable facet: a position, a size and a color. The motion update mutates
/// the position, the scale update the size; the render pass only reads it.
#[derive(Clone, Copy, Debug, PartialEq)]
pub struct RectToDraw {
    pub pos: (i32, i32),
    pub size: (u32, u32),
    pub color: Rgb,
}

/// Movable facet: per-axis position bounds, a speed scalar, and a per-axis
/// direction flag (true = increasing). Mutated by the motion update only.
#[derive(Clone, Copy, Debug, PartialEq)]
pub struct MovingRectComponent {
    pub pos_min: (i32, i32),
    pub pos_max: (i32, i32),
    pub speed: i32,
    pub direction: (bool, bool),
}

/// Scalable facet: per-axis size bounds, a step magnitude, and a per-axis
/// direction flag (true = growing). Mutated by the scale update only.
#[derive(Clone, Copy, Debug, PartialEq)]
pub struct ScalableRectComponent {
    pub scale_min: (u32, u32),
    pub scale_max: (u32, u32),
    pub scale_step: u32,
    pub direction: (bool, bool),
}

/// How far past a bound a rectangle driven by `m` can ever sit: one frame's
/// largest displacement, `speed * MAX_ELAPSED`.
pub open spec fn motion_slack(m: MovingRectComponent) -> int {
    m.speed * MAX_ELAPSED
}

/// A movable facet is well formed when its bounds are ordered, its speed is
/// positive, and the bounds leave room in `i32` for one frame's largest
/// overshoot on either side.
pub open spec fn movable_wf(m: MovingRectComponent) -> bool {
    &&& m.pos_min.0 <= m.pos_max.0
    &&& m.pos_min.1 <= m.pos_max.1
    &&& 0 < m.speed
    &&& i32::MIN <= m.pos_min.0 - motion_slack(m)
    &&& m.pos_max.0 + motion_slack(m) <= i32::MAX
    &&& i32::MIN <= m.pos_min.1 - motion_slack(m)
    &&& m.pos_max.1 + motion_slack(m) <= i32::MAX
}

/// The position never strays more than one frame's largest displacement past
/// the configured bounds (controlled overshoot).
pub open spec fn pos_in_bounds(r: RectToDraw, m: MovingRectComponent) -> bool {
    &&& m.pos_min.0 - motion_slack(m) <= r.pos.0 <= m.pos_max.0 + motion_slack(m)
    &&& m.pos_min.1 - motion_slack(m) <= r.pos.1 <= m.pos_max.1 + motion_slack(m)
}

/// A scalable facet is well formed when its bounds are ordered and the step
/// leaves room in `u32` for one overshoot on either side of the bounds.
pub open spec fn scalable_wf(s: ScalableRectComponent) -> bool {
    &&& s.scale_min.0 <= s.scale_max.0
    &&& s.scale_min.1 <= s.scale_max.1
    &&& s.scale_step <= s.scale_min.0
    &&& s.scale_step <= s.scale_min.1
    &&& s.scale_max.0 + s.scale_step <= u32::MAX
    &&& s.scale_max.1 + s.scale_step <= u32::MAX
}

/// The size never strays more than one step past the configured bounds.
pub open spec fn size_in_bounds(r: RectToDraw, s: ScalableRectComponent) -> bool {
    &&& s.scale_min.0 - s.scale_step <= r.size.0 <= s.scale_max.0 + s.scale_step
    &&& s.scale_min.1 - s.scale_step <= r.size.1 <= s.scale_max.1 + s.scale_step
}

} // verus!
