//! The entity store and the per-frame update passes.

use vstd::prelude::*;

use crate::components::MAX_ELAPSED;
use crate::components::MovingRectComponent;
use crate::components::Rgb;
use crate::components::RectToDraw;
use crate::components::ScalableRectComponent;
use crate::components::movable_wf;
use crate::components::pos_in_bounds;
use crate::components::scalable_wf;
use crate::components::size_in_bounds;
use crate::update::moved_component;
use crate::update::moved_rect;
use crate::update::scaled_component;
use crate::update::scaled_rect;
use crate::update::update_rect_position;
use crate::update::update_rect_size;

verus! {

/// An entity: whichever of the three facets it carries. The facet set is
/// fixed at construction; only the facet values mutate.
#[derive(Clone, Copy, Debug, PartialEq)]
pub struct Entity {
    pub movable: Option<MovingRectComponent>,
    pub scalable: Option<ScalableRectComponent>,
    pub drawable: Option<RectToDraw>,
}

/// The fixed, ordered collection of entities, constructed once before the
/// frame loop starts. No entity is added or removed afterwards.
pub struct World {
    pub entities: Vec<Entity>,
}

impl View for World {
    type V = Seq<Entity>;

    open spec fn view(&self) -> Seq<Entity> {
        self.entities@
    }
}

/// An entity is well formed when each facet pair that an update pass touches
/// is: bounds ordered, room for one overshoot in the machine range, and the
/// current position and size within one overshoot of their bounds.
pub open spec fn entity_wf(e: Entity) -> bool {
    &&& match (e.drawable, e.movable) {
        (Some(r), Some(m)) => movable_wf(m) && pos_in_bounds(r, m),
        _ => true,
    }
    &&& match (e.drawable, e.scalable) {
        (Some(r), Some(s)) => scalable_wf(s) && size_in_bounds(r, s),
        _ => true,
    }
}

pub open spec fn world_wf(es: Seq<Entity>) -> bool {
    forall|i: int| 0 <= i < es.len() ==> entity_wf(#[trigger] es[i])
}

/// The fixed entity set the library is constructed with.
pub open spec fn initial_entities() -> Seq<Entity> {
    seq![
        Entity {
            movable: Some(MovingRectComponent {
                pos_min: (100, 100),
                pos_max: (700, 500),
                speed: 11,
                direction: (true, true),
            }),
            scalable: Some(ScalableRectComponent {
                scale_min: (16, 16),
                scale_max: (32, 32),
                scale_step: 2,
                direction: (true, true),
            }),
            drawable: Some(RectToDraw {
                pos: (200, 200),
                size: (24, 24),
                color: Rgb { r: 250, g: 150, b: 0 },
            }),
        },
        Entity {
            movable: Some(MovingRectComponent {
                pos_min: (50, 100),
                pos_max: (700, 300),
                speed: 40,
                direction: (true, true),
            }),
            scalable: Some(ScalableRectComponent {
                scale_min: (16, 16),
                scale_max: (24, 24),
                scale_step: 2,
                direction: (true, true),
            }),
            drawable: Some(RectToDraw {
                pos: (300, 300),
                size: (20, 20),
                color: Rgb { r: 0, g: 150, b: 0 },
            }),
        },
        Entity {
            movable: Some(MovingRectComponent {
                pos_min: (130, 190),
                pos_max: (500, 500),
                speed: 20,
                direction: (true, false),
            }),
            scalable: Some(ScalableRectComponent {
                scale_min: (16, 10),
                scale_max: (28, 30),
                scale_step: 2,
                direction: (true, true),
            }),
            drawable: Some(RectToDraw {
                pos: (150, 150),
                size: (24, 24),
                color: Rgb { r: 200, g: 150, b: 111 },
            }),
        },
        Entity {
            movable: Some(MovingRectComponent {
                pos_min: (130, 490),
                pos_max: (500, 500),
                speed: 60,
                direction: (true, false),
            }),
            scalable: None,
            drawable: Some(RectToDraw {
                pos: (150, 490),
                size: (14, 14),
                color: Rgb { r: 200, g: 250, b: 100 },
            }),
        },
        Entity {
            movable: None,
            scalable: Some(ScalableRectComponent {
                scale_min: (10, 10),
                scale_max: (30, 30),
                scale_step: 1,
                direction: (true, true),
            }),
            drawable: Some(RectToDraw {
                pos: (550, 350),
                size: (24, 24),
                color: Rgb { r: 100, g: 150, b: 100 },
            }),
        },
    ]
}

/// Build the fixed entity set. Construction is static data and cannot fail.
pub fn construct() -> (w: World)
    ensures
        w@ == initial_entities(),
        world_wf(w@),
{
    let mut entities: Vec<Entity> = Vec::new();
    entities.push(Entity {
        movable: Some(MovingRectComponent {
            pos_min: (100, 100),
            pos_max: (700, 500),
            speed: 11,
            direction: (true, true),
        }),
        scalable: Some(ScalableRectComponent {
            scale_min: (16, 16),
            scale_max: (32, 32),
            scale_step: 2,
            direction: (true, true),
        }),
        drawable: Some(RectToDraw {
            pos: (200, 200),
            size: (24, 24),
            color: Rgb { r: 250, g: 150, b: 0 },
        }),
    });
    entities.push(Entity {
        movable: Some(MovingRectComponent {
            pos_min: (50, 100),
            pos_max: (700, 300),
            speed: 40,
            direction: (true, true),
        }),
        scalable: Some(ScalableRectComponent {
            scale_min: (16, 16),
            scale_max: (24, 24),
            scale_step: 2,
            direction: (true, true),
        }),
        drawable: Some(RectToDraw {
            pos: (300, 300),
            size: (20, 20),
            color: Rgb { r: 0, g: 150, b: 0 },
        }),
    });
    entities.push(Entity {
        movable: Some(MovingRectComponent {
            pos_min: (130, 190),
            pos_max: (500, 500),
            speed: 20,
            direction: (true, false),
        }),
        scalable: Some(ScalableRectComponent {
            scale_min: (16, 10),
            scale_max: (28, 30),
            scale_step: 2,
            direction: (true, true),
        }),
        drawable: Some(RectToDraw {
            pos: (150, 150),
            size: (24, 24),
            color: Rgb { r: 200, g: 150, b: 111 },
        }),
    });
    entities.push(Entity {
        movable: Some(MovingRectComponent {
            pos_min: (130, 490),
            pos_max: (500, 500),
            speed: 60,
            direction: (true, false),
        }),
        scalable: None,
        drawable: Some(RectToDraw {
            pos: (150, 490),
            size: (14, 14),
            color: Rgb { r: 200, g: 250, b: 100 },
        }),
    });
    entities.push(Entity {
        movable: None,
        scalable: Some(ScalableRectComponent {
            scale_min: (10, 10),
            scale_max: (30, 30),
            scale_step: 1,
            direction: (true, true),
        }),
        drawable: Some(RectToDraw {
            pos: (550, 350),
            size: (24, 24),
            color: Rgb { r: 100, g: 150, b: 100 },
        }),
    });
    let w = World { entities };
    proof {
        assert(w@ =~= initial_entities());
        assert forall|i: int| 0 <= i < w@.len() implies entity_wf(#[trigger] w@[i]) by {
            assert(entity_wf(initial_entities()[0]));
            assert(entity_wf(initial_entities()[1]));
            assert(entity_wf(initial_entities()[2]));
            assert(entity_wf(initial_entities()[3]));
            assert(entity_wf(initial_entities()[4]));
        }
    }
    w
}

/// The entity after the motion pass visited it: updated only when it carries
/// both a drawable and a movable facet.
pub open spec fn entity_after_motion(e: Entity, elapsed: int) -> Entity {
    match (e.drawable, e.movable) {
        (Some(r), Some(m)) => Entity {
            movable: Some(moved_component(r, m)),
            scalable: e.scalable,
            drawable: Some(moved_rect(r, m, elapsed)),
        },
        _ => e,
    }
}

/// The entity after the scale pass visited it: updated only when it carries
/// both a drawable and a scalable facet.
pub open spec fn entity_after_scale(e: Entity) -> Entity {
    match (e.drawable, e.scalable) {
        (Some(r), Some(s)) => Entity {
            movable: e.movable,
            scalable: Some(scaled_component(r, s)),
            drawable: Some(scaled_rect(r, s)),
        },
        _ => e,
    }
}

/// Motion pass: advance the position of every entity carrying both a
/// drawable and a movable facet; all other entities are left untouched.
pub fn update_positions(w: &mut World, elapsed: u32)
    requires
        world_wf(old(w)@),
        elapsed <= MAX_ELAPSED,
    ensures
        final(w)@ == old(w)@.map_values(|e: Entity| entity_after_motion(e, elapsed as int)),
        world_wf(final(w)@),
{
    let n: usize = w.entities.len();
    let mut i: usize = 0;
    while i < n
        invariant
            n == old(w)@.len(),
            i <= n,
            w@.len() == n,
            elapsed <= MAX_ELAPSED,
            world_wf(old(w)@),
            forall|j: int| 0 <= j < i ==> w@[j] == entity_after_motion(#[trigger] old(w)@[j], elapsed as int),
            forall|j: int| i <= j < n ==> #[trigger] w@[j] == old(w)@[j],
            world_wf(w@),
        decreases n - i,
    {
        let e = w.entities[i];
        match (e.drawable, e.movable) {
            (Some(mut r), Some(mut m)) => {
                update_rect_position(&mut r, &mut m, elapsed);
                w.entities[i] = Entity {
                    movable: Some(m),
                    scalable: e.scalable,
                    drawable: Some(r),
                };
            },
            _ => {},
        }
        i = i + 1;
    }
    proof {
        assert(w@ =~= old(w)@.map_values(|e: Entity| entity_after_motion(e, elapsed as int)));
    }
}

/// Scale pass: advance the size of every entity carrying both a drawable and
/// a scalable facet; all other entities are left untouched.
pub fn update_sizes(w: &mut World)
    requires
        world_wf(old(w)@),
    ensures
        final(w)@ == old(w)@.map_values(|e: Entity| entity_after_scale(e)),
        world_wf(final(w)@),
{
    let n: usize = w.entities.len();
    let mut i: usize = 0;
    while i < n
        invariant
            n == old(w)@.len(),
            i <= n,
            w@.len() == n,
            world_wf(old(w)@),
            forall|j: int| 0 <= j < i ==> w@[j] == entity_after_scale(#[trigger] old(w)@[j]),
            forall|j: int| i <= j < n ==> #[trigger] w@[j] == old(w)@[j],
            world_wf(w@),
        decreases n - i,
    {
        let e = w.entities[i];
        match (e.drawable, e.scalable) {
            (Some(mut r), Some(mut s)) => {
                update_rect_size(&mut r, &mut s);
                w.entities[i] = Entity {
                    movable: e.movable,
                    scalable: Some(s),
                    drawable: Some(r),
                };
            },
            _ => {},
        }
        i = i + 1;
    }
    proof {
        assert(w@ =~= old(w)@.map_values(|e: Entity| entity_after_scale(e)));
    }
}

/// The entity after one whole frame: motion first, then scale.
pub open spec fn entity_after_frame(e: Entity, elapsed: int) -> Entity {
    entity_after_scale(entity_after_motion(e, elapsed))
}

/// The whole store after one frame's update passes.
pub open spec fn world_after_frame(es: Seq<Entity>, elapsed: int) -> Seq<Entity> {
    es.map_values(|e: Entity| entity_after_frame(e, elapsed))
}

/// One frame's updates in their fixed order: motion pass, then scale pass.
pub fn step_frame(w: &mut World, elapsed: u32)
    requires
        world_wf(old(w)@),
        elapsed <= MAX_ELAPSED,
    ensures
        final(w)@ == world_after_frame(old(w)@, elapsed as int),
        world_wf(final(w)@),
{
    update_positions(w, elapsed);
    update_sizes(w);
    proof {
        assert(w@ =~= world_after_frame(old(w)@, elapsed as int));
    }
}

/// The store after `n` frames, each reporting the same elapsed time.
pub open spec fn world_after_frames(es: Seq<Entity>, elapsed: int, n: nat) -> Seq<Entity>
    decreases n,
{
    if n == 0 {
        es
    } else {
        world_after_frame(world_after_frames(es, elapsed, (n - 1) as nat), elapsed)
    }
}

/// Run `n` fixed-timestep frames' worth of update passes. Running zero
/// frames leaves every entity exactly as constructed.
pub fn run_frames(w: &mut World, elapsed: u32, n: u32)
    requires
        world_wf(old(w)@),
        elapsed <= MAX_ELAPSED,
    ensures
        final(w)@ == world_after_frames(old(w)@, elapsed as int, n as nat),
        world_wf(final(w)@),
{
    let mut i: u32 = 0;
    while i < n
        invariant
            i <= n,
            elapsed <= MAX_ELAPSED,
            w@ == world_after_frames(old(w)@, elapsed as int, i as nat),
            world_wf(w@),
        decreases n - i,
    {
        step_frame(w, elapsed);
        i = i + 1;
    }
}

} // verus!
