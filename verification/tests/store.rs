use movable_rects::components::MovingRectComponent;
use movable_rects::components::Rgb;
use movable_rects::components::RectToDraw;
use movable_rects::components::ScalableRectComponent;
use movable_rects::render::render_pass;
use movable_rects::world::Entity;
use movable_rects::world::World;
use movable_rects::world::construct;
use movable_rects::world::run_frames;
use movable_rects::world::step_frame;
use movable_rects::world::update_positions;
use movable_rects::world::update_sizes;

#[test]
fn construct_builds_the_five_fixed_entities() {
    let w = construct();
    assert_eq!(w.entities.len(), 5);

    let first = &w.entities[0];
    assert_eq!(
        first.movable,
        Some(MovingRectComponent {
            pos_min: (100, 100),
            pos_max: (700, 500),
            speed: 11,
            direction: (true, true),
        })
    );
    assert_eq!(
        first.scalable,
        Some(ScalableRectComponent {
            scale_min: (16, 16),
            scale_max: (32, 32),
            scale_step: 2,
            direction: (true, true),
        })
    );
    assert_eq!(
        first.drawable,
        Some(RectToDraw {
            pos: (200, 200),
            size: (24, 24),
            color: Rgb { r: 250, g: 150, b: 0 },
        })
    );

    assert_eq!(w.entities[3].scalable, None);
    assert_eq!(w.entities[4].movable, None);
}

#[test]
fn zero_frames_leave_the_store_as_constructed() {
    let fresh = construct();
    let mut w = construct();
    run_frames(&mut w, 1, 0);
    assert_eq!(w.entities, fresh.entities);
}

#[test]
fn drawable_only_entity_never_changes_but_still_renders() {
    let lone = Entity {
        movable: None,
        scalable: None,
        drawable: Some(RectToDraw {
            pos: (550, 350),
            size: (24, 24),
            color: Rgb { r: 100, g: 150, b: 100 },
        }),
    };
    let mut w = World { entities: vec![lone] };
    run_frames(&mut w, 1, 10);
    assert_eq!(w.entities[0], lone);

    let cmds = render_pass(&w);
    assert_eq!(cmds.len(), 1);
    assert_eq!(cmds[0].x, 550 - 12);
    assert_eq!(cmds[0].y, 350 - 12);
    assert_eq!(cmds[0].w, 24);
    assert_eq!(cmds[0].h, 24);
    assert_eq!(cmds[0].color, Rgb { r: 100, g: 150, b: 100 });
}

#[test]
fn motion_pass_needs_both_drawable_and_movable() {
    let movable_without_drawable = Entity {
        movable: Some(MovingRectComponent {
            pos_min: (0, 0),
            pos_max: (10, 10),
            speed: 1,
            direction: (true, true),
        }),
        scalable: None,
        drawable: None,
    };
    let mut w = World { entities: vec![movable_without_drawable] };
    update_positions(&mut w, 1);
    assert_eq!(w.entities[0], movable_without_drawable);
}

#[test]
fn scale_pass_needs_both_drawable_and_scalable() {
    let scalable_without_drawable = Entity {
        movable: None,
        scalable: Some(ScalableRectComponent {
            scale_min: (10, 10),
            scale_max: (30, 30),
            scale_step: 1,
            direction: (true, true),
        }),
        drawable: None,
    };
    let mut w = World { entities: vec![scalable_without_drawable] };
    update_sizes(&mut w);
    assert_eq!(w.entities[0], scalable_without_drawable);
}

#[test]
fn one_frame_moves_and_scales_every_full_entity() {
    let mut w = construct();
    step_frame(&mut w, 1);

    let first = &w.entities[0];
    let drawable = first.drawable.unwrap();
    assert_eq!(drawable.pos, (211, 211));
    assert_eq!(drawable.size, (26, 26));
    assert_eq!(first.movable.unwrap().direction, (true, true));

    let fourth = &w.entities[3];
    let fourth_drawable = fourth.drawable.unwrap();
    assert_eq!(fourth_drawable.pos, (210, 550));
    assert_eq!(fourth_drawable.size, (14, 14));

    let fifth = &w.entities[4];
    let fifth_drawable = fifth.drawable.unwrap();
    assert_eq!(fifth_drawable.pos, (550, 350));
    assert_eq!(fifth_drawable.size, (25, 25));
}

#[test]
fn render_pass_lists_entities_in_store_order() {
    let w = construct();
    let cmds = render_pass(&w);
    assert_eq!(cmds.len(), 5);
    assert_eq!(cmds[0].x, 200 - 12);
    assert_eq!(cmds[0].y, 200 - 12);
    assert_eq!(cmds[1].color, Rgb { r: 0, g: 150, b: 0 });
    assert_eq!(cmds[3].w, 14);
    assert_eq!(cmds[4].x, 550 - 12);
}

#[test]
fn repeated_frames_keep_every_entity_near_its_bounds() {
    let mut w = construct();
    run_frames(&mut w, 1, 2000);
    for e in &w.entities {
        if let (Some(r), Some(m)) = (e.drawable, e.movable) {
            let slack = m.speed;
            assert!(m.pos_min.0 - slack <= r.pos.0 && r.pos.0 <= m.pos_max.0 + slack);
            assert!(m.pos_min.1 - slack <= r.pos.1 && r.pos.1 <= m.pos_max.1 + slack);
        }
        if let (Some(r), Some(s)) = (e.drawable, e.scalable) {
            let step = s.scale_step;
            assert!(s.scale_min.0 - step <= r.size.0 && r.size.0 <= s.scale_max.0 + step);
            assert!(s.scale_min.1 - step <= r.size.1 && r.size.1 <= s.scale_max.1 + step);
        }
    }
}
