use minds_eye::{Color, Direction, Eye, Tile, TileTexture};

fn eye_at(x: i32, y: i32, c: Color) -> Eye {
    Eye {
        direction: Direction::Left,
        color: c,
        solved: false,
        x,
        y,
        width: 64,
        height: 64,
        deltax: 0,
        deltay: 0,
        anger: 0,
    }
}

fn block_at(x: i32, y: i32, c: Color) -> Tile {
    Tile {
        texture: TileTexture::Block(c),
        width: 64,
        height: 64,
        x,
        y,
        targetx: x,
        targety: y,
        resistance: 30,
        iswall: false,
        isblock: true,
        moving: false,
    }
}

fn wall_at(x: i32, y: i32) -> Tile {
    Tile {
        texture: TileTexture::GrayBlock,
        width: 64,
        height: 64,
        x,
        y,
        targetx: x,
        targety: y,
        resistance: 0,
        iswall: true,
        isblock: false,
        moving: false,
    }
}

#[test]
fn left_dominates_a_matching_block_above() {
    // Matching blocks on two sides: left must win.
    let mut e = eye_at(138, 10, Color::Red);
    e.direction = Direction::Down;
    let tiles = vec![block_at(138, 74, Color::Red), block_at(10, 10, Color::Red)];
    e.update(&tiles);
    assert!(e.solved);
    assert_eq!(e.direction, Direction::Left);
}

#[test]
fn solve_is_deterministic_across_repeated_calls() {
    let tiles = vec![block_at(10, 10, Color::Green), wall_at(266, 10)];
    let mut e = eye_at(138, 10, Color::Green);
    e.update(&tiles);
    let d1 = e.direction;
    let s1 = e.solved;
    for _ in 0..10 {
        e.update(&tiles);
        assert_eq!(e.direction, d1);
        assert_eq!(e.solved, s1);
    }
    assert!(s1);
    assert_eq!(d1, Direction::Left);
}

#[test]
fn nearer_wall_hides_a_matching_block() {
    let mut e = eye_at(138, 10, Color::Red);
    let tiles = vec![block_at(10, 10, Color::Red), wall_at(74, 10)];
    e.update(&tiles);
    assert!(!e.solved);
}

#[test]
fn color_mismatch_does_not_solve() {
    let mut e = eye_at(138, 10, Color::Red);
    let tiles = vec![block_at(74, 10, Color::Blue)];
    e.update(&tiles);
    assert!(!e.solved);
    // The facing still turns toward the obstacle that was found.
    assert_eq!(e.direction, Direction::Left);
}

#[test]
fn right_direction_solves_when_left_is_empty() {
    let mut e = eye_at(10, 10, Color::Blue);
    let tiles = vec![block_at(74, 10, Color::Blue)];
    e.update(&tiles);
    assert!(e.solved);
    assert_eq!(e.direction, Direction::Right);
}

#[test]
fn solved_pupil_saturates_left() {
    let mut e = eye_at(138, 10, Color::Red);
    let tiles = vec![block_at(74, 10, Color::Red)];
    for _ in 0..11 {
        e.update(&tiles);
    }
    assert_eq!(e.deltax, -11);
    assert_eq!(e.deltay, 0);
    for _ in 0..5 {
        e.update(&tiles);
    }
    assert_eq!(e.deltax, -12);
}

#[test]
fn anger_rises_by_ten_and_saturates() {
    let mut e = eye_at(138, 10, Color::Red);
    let tiles = vec![block_at(74, 10, Color::Red)];
    e.update(&tiles);
    assert_eq!(e.anger, 10);
    e.update(&tiles);
    assert_eq!(e.anger, 20);
    for _ in 0..30 {
        e.update(&tiles);
    }
    assert_eq!(e.anger, 255);
}

#[test]
fn unsolved_eye_jitters_within_bounds_and_calms_down() {
    let mut e = eye_at(138, 10, Color::Red);
    e.anger = 255;
    let tiles: Vec<Tile> = Vec::new();
    for step in 1..=30 {
        e.update(&tiles);
        assert!(!e.solved);
        assert!(e.deltax >= -3 && e.deltax <= 3);
        assert!(e.deltay >= -3 && e.deltay <= 3);
        let expected_anger = 255i32 - 10 * step;
        assert_eq!(e.anger as i32, expected_anger.max(0));
    }
    assert_eq!(e.anger, 0);
}

#[test]
fn empty_world_keeps_the_facing() {
    let mut e = eye_at(138, 10, Color::Red);
    e.direction = Direction::Up;
    let tiles: Vec<Tile> = Vec::new();
    e.update(&tiles);
    assert_eq!(e.direction, Direction::Up);
    assert!(!e.solved);
}

#[test]
fn vertical_scan_uses_the_column() {
    // "Up" is the direction of growing y; a matching block below on the same
    // column solves the eye facing up when left and right are empty.
    let mut e = eye_at(138, 10, Color::Green);
    let tiles = vec![block_at(138, 74, Color::Green)];
    e.update(&tiles);
    assert!(e.solved);
    assert_eq!(e.direction, Direction::Up);
}
