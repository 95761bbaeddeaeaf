use minds_eye::{Animation, Direction, MoveInput, Player};

fn keys(left: bool, right: bool, up: bool, down: bool) -> MoveInput {
    MoveInput { left, right, up, down }
}

#[test]
fn held_key_accumulates_velocity_and_walks() {
    let mut p = Player::new();
    p.update(&keys(false, true, false, false));
    assert_eq!(p.velx, 3);
    assert_eq!(p.vely, 0);
    assert_eq!(p.active_animation, Animation::Walk(Direction::Right));
    // Fresh animation: frame reset, timer rewound and then ticked once.
    assert_eq!(p.frame, 0);
    assert_eq!(p.delay, 14);
}

#[test]
fn opposing_keys_cancel_and_idle() {
    let mut p = Player::new();
    p.update(&keys(true, true, false, false));
    assert_eq!(p.velx, 0);
    assert_eq!(p.vely, 0);
    // No single direction is active, so the initial walk pose goes idle,
    // keeping its facing.
    assert_eq!(p.active_animation, Animation::Idle(Direction::Down));
}

#[test]
fn vertical_animation_wins_on_a_diagonal() {
    let mut p = Player::new();
    p.update(&keys(true, false, true, false));
    assert_eq!(p.velx, -3);
    assert_eq!(p.vely, -3);
    assert_eq!(p.active_animation, Animation::Walk(Direction::Up));
}

#[test]
fn releasing_keys_idles_with_facing_preserved() {
    let mut p = Player::new();
    p.update(&keys(true, false, false, false));
    assert_eq!(p.active_animation, Animation::Walk(Direction::Left));
    p.update(&keys(false, false, false, false));
    assert_eq!(p.active_animation, Animation::Idle(Direction::Left));
    assert_eq!(p.velx, -3);
}

#[test]
fn walk_frames_advance_every_fifteen_ticks() {
    let mut p = Player::new();
    for _ in 0..15 {
        p.update(&keys(false, true, false, false));
    }
    assert_eq!(p.frame, 1);
    assert_eq!(p.delay, 15);
    for _ in 0..15 {
        p.update(&keys(false, true, false, false));
    }
    assert_eq!(p.frame, 2);
    // The walk cycle has four frames and wraps.
    for _ in 0..30 {
        p.update(&keys(false, true, false, false));
    }
    assert_eq!(p.frame, 0);
}

#[test]
fn idle_pose_holds_a_single_frame() {
    let mut p = Player::new();
    for _ in 0..40 {
        p.update(&keys(false, false, false, false));
    }
    assert_eq!(p.active_animation, Animation::Idle(Direction::Down));
    assert_eq!(p.frame, 0);
}

#[test]
fn move_player_displaces_by_the_offset() {
    let mut p = Player::new();
    p.x = 100;
    p.y = 50;
    p.move_player(-7, 20);
    assert_eq!((p.x, p.y), (93, 70));
}

#[test]
fn bounding_box_matches_position_and_size() {
    let mut p = Player::new();
    p.x = 5;
    p.y = 6;
    let b = p.get_bounding_box();
    assert_eq!((b.x, b.y, b.width, b.height), (5, 6, 36, 60));
}

#[test]
fn animation_table_lists_all_eight_strips() {
    let table = Player::generate_animations();
    assert_eq!(table.len(), 8);
    for (anim, frames) in &table {
        let expected = match anim {
            Animation::Walk(_) => 4,
            Animation::Idle(_) => 1,
        };
        assert_eq!(frames.len(), expected);
        for f in frames {
            assert_eq!((f.width, f.height), (9, 15));
        }
    }
    // Spot checks against the sprite sheet layout.
    assert_eq!(table[1].0, Animation::Walk(Direction::Down));
    assert_eq!((table[1].1[0].x, table[1].1[0].y), (18, 0));
    assert_eq!((table[1].1[2].x, table[1].1[2].y), (27, 0));
    assert_eq!(table[6].0, Animation::Idle(Direction::Left));
    assert_eq!((table[6].1[0].x, table[6].1[0].y), (27, 15));
}
