use minds_eye::{does_intersect, Color, Tile, TileTexture};

fn block_at(x: i32, y: i32, tx: i32, ty: i32) -> Tile {
    Tile {
        texture: TileTexture::Block(Color::Red),
        width: 64,
        height: 64,
        x,
        y,
        targetx: tx,
        targety: ty,
        resistance: 30,
        iswall: false,
        isblock: true,
        moving: false,
    }
}

fn wall_at(x: i32, y: i32) -> Tile {
    Tile {
        texture: TileTexture::GrayBlock,
        width: 64,
        height: 64,
        x,
        y,
        targetx: x,
        targety: y,
        resistance: 0,
        iswall: true,
        isblock: false,
        moving: false,
    }
}

#[test]
fn tween_steps_three_per_tick() {
    let mut t = block_at(10, 10, 74, 10);
    let others: Vec<Tile> = Vec::new();
    let played = t.update(&others);
    assert_eq!(t.x, 13);
    assert_eq!(t.y, 10);
    assert!(t.moving);
    assert!(played);
}

#[test]
fn push_sound_fires_only_on_the_first_moving_tick() {
    let mut t = block_at(10, 10, 74, 10);
    let others: Vec<Tile> = Vec::new();
    assert!(t.update(&others));
    assert!(!t.update(&others));
    assert_eq!(t.x, 16);
}

#[test]
fn tween_clamps_exactly_onto_target() {
    let mut t = block_at(72, 10, 74, 10);
    let others: Vec<Tile> = Vec::new();
    t.update(&others);
    assert_eq!(t.x, 74);
    assert!(!t.moving);
}

#[test]
fn tile_at_target_is_inert() {
    // Even overlapping a wall, a resting tile does not scan for collisions.
    let mut t = block_at(50, 10, 50, 10);
    let others = vec![wall_at(10, 10)];
    let played = t.update(&others);
    let expected = block_at(50, 10, 50, 10);
    assert_eq!(t, expected);
    assert!(!played);
}

#[test]
fn collision_backtrack_reverts_position_and_target() {
    // The tweened move would overlap the wall one cell to the right, so the
    // whole tick is undone.
    let mut t = block_at(10, 10, 74, 10);
    t.resistance = 7;
    let others = vec![wall_at(74, 10)];
    let played = t.update(&others);
    assert_eq!(t.x, 10);
    assert_eq!(t.y, 10);
    assert_eq!(t.targetx, 10);
    assert_eq!(t.targety, 10);
    assert_eq!(t.resistance, 30);
    assert!(!t.moving);
    assert!(!played);
}

#[test]
fn backtrack_ignores_tiles_at_own_or_previous_position() {
    // A solid tile standing exactly where the mover started does not reject
    // the move (that guard keeps a tile from colliding with its own shadow).
    let mut t = block_at(10, 10, 74, 10);
    let others = vec![wall_at(10, 10)];
    t.update(&others);
    assert_eq!(t.x, 13);
    assert!(t.moving);
}

#[test]
fn has_moved_detects_a_full_tile_displacement() {
    let mut t = block_at(10, 10, 74, 10);
    assert!(t.has_moved());
    let mut u = block_at(10, 10, 13, 10);
    assert!(!u.has_moved());
    let mut v = block_at(10, 10, 10, 74);
    assert!(v.has_moved());
}

#[test]
fn does_intersect_is_strict_overlap() {
    let a = wall_at(10, 10);
    let b = wall_at(74, 10);
    assert!(!does_intersect(&a, &b));
    let c = wall_at(73, 10);
    assert!(does_intersect(&a, &c));
    assert!(does_intersect(&c, &a));
}
