use movable_rects::components::MovingRectComponent;
use movable_rects::components::Rgb;
use movable_rects::components::RectToDraw;
use movable_rects::components::ScalableRectComponent;
use movable_rects::update::update_rect_position;
use movable_rects::update::update_rect_size;

fn rect_at(x: i32, y: i32) -> RectToDraw {
    RectToDraw {
        pos: (x, y),
        size: (24, 24),
        color: Rgb { r: 250, g: 150, b: 0 },
    }
}

#[test]
fn frame_locked_motion_reaches_max_and_flips() {
    let mut r = rect_at(200, 200);
    let mut m = MovingRectComponent {
        pos_min: (100, 100),
        pos_max: (700, 500),
        speed: 1,
        direction: (true, true),
    };
    for _ in 0..500 {
        update_rect_position(&mut r, &mut m, 1);
    }
    assert_eq!(r.pos.0, 700);
    assert!(m.direction.0);
    update_rect_position(&mut r, &mut m, 1);
    assert!(!m.direction.0);
    assert_eq!(r.pos.0, 699);
    update_rect_position(&mut r, &mut m, 1);
    assert_eq!(r.pos.0, 698);
}

#[test]
fn scale_reaches_max_and_flips() {
    let mut r = RectToDraw {
        pos: (0, 0),
        size: (24, 24),
        color: Rgb { r: 0, g: 0, b: 0 },
    };
    let mut s = ScalableRectComponent {
        scale_min: (16, 16),
        scale_max: (32, 32),
        scale_step: 2,
        direction: (true, true),
    };
    for _ in 0..4 {
        update_rect_size(&mut r, &mut s);
    }
    assert_eq!(r.size, (32, 32));
    assert_eq!(s.direction, (true, true));
    update_rect_size(&mut r, &mut s);
    assert_eq!(s.direction, (false, false));
    assert_eq!(r.size, (30, 30));
}

#[test]
fn zero_elapsed_keeps_positions() {
    let mut r = rect_at(200, 300);
    let mut m = MovingRectComponent {
        pos_min: (100, 100),
        pos_max: (700, 500),
        speed: 40,
        direction: (true, false),
    };
    update_rect_position(&mut r, &mut m, 0);
    assert_eq!(r.pos, (200, 300));
    assert_eq!(m.direction, (true, false));
}

#[test]
fn zero_elapsed_still_updates_direction_at_bound() {
    let mut r = rect_at(750, 200);
    let mut m = MovingRectComponent {
        pos_min: (100, 100),
        pos_max: (700, 500),
        speed: 1,
        direction: (true, true),
    };
    update_rect_position(&mut r, &mut m, 0);
    assert_eq!(r.pos, (750, 200));
    assert!(!m.direction.0);
    assert!(m.direction.1);
}

#[test]
fn overshoot_is_at_most_one_step_and_recovers() {
    let mut r = rect_at(495, 200);
    let mut m = MovingRectComponent {
        pos_min: (130, 100),
        pos_max: (500, 500),
        speed: 60,
        direction: (true, true),
    };
    update_rect_position(&mut r, &mut m, 1);
    assert_eq!(r.pos.0, 555);
    assert!(r.pos.0 <= 500 + 60);
    update_rect_position(&mut r, &mut m, 1);
    assert_eq!(r.pos.0, 495);
    assert!(!m.direction.0);
}

#[test]
fn direction_tie_break_treats_equal_bounds_as_at_max() {
    let mut r = rect_at(300, 200);
    let mut m = MovingRectComponent {
        pos_min: (300, 100),
        pos_max: (300, 500),
        speed: 1,
        direction: (true, true),
    };
    update_rect_position(&mut r, &mut m, 1);
    assert!(!m.direction.0);
    assert_eq!(r.pos.0, 299);
}

#[test]
fn time_scaled_displacement_is_speed_times_elapsed() {
    let mut r = rect_at(200, 200);
    let mut m = MovingRectComponent {
        pos_min: (100, 100),
        pos_max: (700, 500),
        speed: 11,
        direction: (true, true),
    };
    update_rect_position(&mut r, &mut m, 3);
    assert_eq!(r.pos, (233, 233));
}

#[test]
fn shrinking_size_turns_around_at_min() {
    let mut r = RectToDraw {
        pos: (0, 0),
        size: (17, 17),
        color: Rgb { r: 0, g: 0, b: 0 },
    };
    let mut s = ScalableRectComponent {
        scale_min: (16, 16),
        scale_max: (32, 32),
        scale_step: 2,
        direction: (false, false),
    };
    update_rect_size(&mut r, &mut s);
    assert_eq!(r.size, (15, 15));
    assert_eq!(s.direction, (false, false));
    update_rect_size(&mut r, &mut s);
    assert_eq!(r.size, (17, 17));
    assert_eq!(s.direction, (true, true));
}
