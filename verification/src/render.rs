//! The render pass: every entity with a drawable facet becomes one filled
//! rectangle, centered on the entity's position. The pass mutates nothing;
//! it only computes the draw calls for the caller to issue.

use vstd::prelude::*;

use crate::components::RectToDraw;
use crate::components::Rgb;
use crate::world::Entity;
use crate::world::World;

verus! {

/// One draw call: fill the axis-aligned rectangle with corner `(x, y)`,
/// width `w` and height `h` in the color `color`. The corner is held in
/// `i64` so that it is exact for every position and size.
#[derive(Clone, Copy, Debug, PartialEq)]
pub struct DrawCmd {
    pub x: i64,
    pub y: i64,
    pub w: u32,
    pub h: u32,
    pub color: Rgb,
}

/// The draw call for one drawable facet: the rectangle's top-left corner is
/// the position minus half the size (truncating division), its extent the
/// size, its color the facet's color.
pub open spec fn draw_cmd_of(r: RectToDraw) -> DrawCmd {
    DrawCmd {
        x: (r.pos.0 - r.size.0 as int / 2) as i64,
        y: (r.pos.1 - r.size.1 as int / 2) as i64,
        w: r.size.0,
        h: r.size.1,
        color: r.color,
    }
}

/// The draw calls one entity contributes: one for its drawable facet, none
/// when it has no drawable facet.
pub open spec fn cmds_of_entity(e: Entity) -> Seq<DrawCmd> {
    match e.drawable {
        Some(r) => seq![draw_cmd_of(r)],
        None => Seq::empty(),
    }
}

/// The draw calls of a whole store, in entity order.
pub open spec fn render_of(es: Seq<Entity>) -> Seq<DrawCmd>
    decreases es.len(),
{
    if es.len() == 0 {
        Seq::empty()
    } else {
        render_of(es.drop_last()) + cmds_of_entity(es.last())
    }
}

/// Compute the draw call for one drawable facet.
pub fn draw_command_for(r: &RectToDraw) -> (c: DrawCmd)
    ensures
        c == draw_cmd_of(*r),
{
    DrawCmd {
        x: r.pos.0 as i64 - r.size.0 as i64 / 2,
        y: r.pos.1 as i64 - r.size.1 as i64 / 2,
        w: r.size.0,
        h: r.size.1,
        color: r.color,
    }
}

/// Render pass: the draw calls for every entity with a drawable facet, in
/// store order. Entities without one are skipped.
pub fn render_pass(w: &World) -> (cmds: Vec<DrawCmd>)
    ensures
        cmds@ == render_of(w@),
{
    let mut cmds: Vec<DrawCmd> = Vec::new();
    let n: usize = w.entities.len();
    let mut i: usize = 0;
    while i < n
        invariant
            n == w@.len(),
            i <= n,
            cmds@ == render_of(w@.subrange(0, i as int)),
        decreases n - i,
    {
        let e = &w.entities[i];
        match &e.drawable {
            Some(r) => {
                let c = draw_command_for(r);
                cmds.push(c);
            },
            None => {},
        }
        proof {
            assert(w@.subrange(0, i + 1 as int).drop_last() =~= w@.subrange(0, i as int));
            assert(w@.subrange(0, i + 1 as int).last() == w@[i as int]);
        }
        i = i + 1;
    }
    proof {
        assert(w@.subrange(0, n as int) =~= w@);
    }
    cmds
}

} // verus!
