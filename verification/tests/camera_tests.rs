use minds_eye::{Camera, Fire};

#[test]
fn new_camera_is_centered_at_origin_with_wide_limits() {
    let c = Camera::new();
    assert_eq!((c.x, c.y, c.width, c.height), (0, 0, 0, 0));
    assert_eq!((c.minx, c.miny, c.maxx, c.maxy), (-10000, -10000, 10000, 10000));
}

#[test]
fn focus_centers_the_viewport_on_the_point() {
    let mut c = Camera::new();
    c.width = 800;
    c.height = 600;
    c.focus(400, 300);
    assert_eq!((c.x, c.y), (0, 0));
    c.focus(1000, -50);
    assert_eq!((c.x, c.y), (600, -350));
}

#[test]
fn visibility_culling_is_disabled() {
    let mut c = Camera::new();
    assert!(c.is_object_visible(-99999, 99999, 4, 4));
}

#[test]
fn fresh_flame_starts_on_the_second_frame() {
    let f = Fire::new();
    assert_eq!(f.frame, 1);
    assert_eq!(f.delay, 10);
    assert_eq!((f.width, f.height), (24, 42));
}

#[test]
fn flame_animation_wraps_on_its_timer() {
    let mut f = Fire::new();
    for _ in 0..9 {
        f.update();
    }
    assert_eq!((f.frame, f.delay), (1, 1));
    f.update();
    // Tenth tick: the timer hits zero, the two-frame animation wraps to 0
    // and the steady five-tick delay begins.
    assert_eq!((f.frame, f.delay), (0, 5));
    for _ in 0..5 {
        f.update();
    }
    assert_eq!((f.frame, f.delay), (1, 5));
}

#[test]
fn torch_animation_strips_have_two_frames_each() {
    let (flame, glow) = Fire::generate_animations();
    assert_eq!(flame.len(), 2);
    assert_eq!(glow.len(), 2);
    assert_eq!((flame[0].x, flame[0].y, flame[0].width, flame[0].height), (0, 0, 8, 14));
    assert_eq!((flame[1].x, flame[1].y), (8, 0));
    assert_eq!((glow[1].x, glow[1].width, glow[1].height), (32, 32, 32));
}
