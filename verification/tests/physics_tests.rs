use minds_eye::{handle_collisions, Color, Player, Tile, TileTexture};

fn player_at(x: i32, y: i32, velx: i32, vely: i32) -> Player {
    let mut p = Player::new();
    p.x = x;
    p.y = y;
    p.velx = velx;
    p.vely = vely;
    p
}

fn wall_at(x: i32, y: i32) -> Tile {
    Tile {
        texture: TileTexture::GrayBlock,
        width: 64,
        height: 64,
        x,
        y,
        targetx: x,
        targety: y,
        resistance: 0,
        iswall: true,
        isblock: false,
        moving: false,
    }
}

fn block_at(x: i32, y: i32) -> Tile {
    Tile {
        texture: TileTexture::Block(Color::Red),
        width: 64,
        height: 64,
        x,
        y,
        targetx: x,
        targety: y,
        resistance: 30,
        iswall: false,
        isblock: true,
        moving: false,
    }
}

#[test]
fn player_clamps_flush_against_a_wall() {
    let mut p = player_at(36, 11, 3, 0);
    let mut tiles = vec![wall_at(74, 10)];
    handle_collisions(&mut p, &mut tiles);
    assert_eq!(p.x, 74 - 36);
    assert_eq!(p.velx, 0);
    assert_eq!(p.y, 11);
}

#[test]
fn velocity_is_consumed_even_without_contact() {
    let mut p = player_at(200, 200, 3, -3);
    let mut tiles: Vec<Tile> = Vec::new();
    handle_collisions(&mut p, &mut tiles);
    assert_eq!(p.x, 203);
    assert_eq!(p.y, 197);
    assert_eq!(p.velx, 0);
    assert_eq!(p.vely, 0);
}

#[test]
fn push_commits_only_after_thirty_frames_of_contact() {
    // A block at full resistance: thirty frames of continuous pushing deplete
    // it one point per frame without moving it; the thirty-first commits a
    // one-tile displacement and refills the resistance.
    let mut p = player_at(36, 11, 3, 0);
    let mut tiles = vec![block_at(74, 10)];
    for frame in 1..=30 {
        p.velx = 3;
        handle_collisions(&mut p, &mut tiles);
        assert_eq!(tiles[0].targetx, 74, "no move during frame {}", frame);
        assert_eq!(tiles[0].x, 74);
        assert_eq!(tiles[0].resistance, 30 - frame);
        assert_eq!(p.x, 38);
    }
    p.velx = 3;
    handle_collisions(&mut p, &mut tiles);
    assert_eq!(tiles[0].targetx, 74 + 64);
    assert_eq!(tiles[0].x, 74);
    assert_eq!(tiles[0].resistance, 30);
}

#[test]
fn resistance_refills_when_contact_breaks() {
    let mut p = player_at(36, 11, 3, 0);
    let mut tiles = vec![block_at(74, 10)];
    for _ in 0..5 {
        p.velx = 3;
        handle_collisions(&mut p, &mut tiles);
    }
    assert_eq!(tiles[0].resistance, 25);
    // Step away; the next frame's pass sees no overlap and refills.
    p.x = 300;
    p.velx = 3;
    handle_collisions(&mut p, &mut tiles);
    assert_eq!(tiles[0].resistance, 30);
}

#[test]
fn moving_block_is_not_pushed_again() {
    let mut p = player_at(36, 11, 3, 0);
    let mut t = block_at(74, 10);
    t.moving = true;
    t.resistance = 0;
    let mut tiles = vec![t];
    handle_collisions(&mut p, &mut tiles);
    assert_eq!(tiles[0].targetx, 74);
    assert_eq!(tiles[0].resistance, 0);
    // The player still clamps against it.
    assert_eq!(p.x, 38);
}

#[test]
fn x_axis_resolves_fully_before_y() {
    // A lone wall on the lower-right diagonal. Moving X first slides the
    // player into the gap beside it (x becomes 39), and only then does the Y
    // move collide and clamp (y becomes 14). Resolving Y first would instead
    // clamp x at 38 and leave y at 15.
    let mut p = player_at(36, 12, 3, 3);
    let mut tiles = vec![wall_at(74, 74)];
    handle_collisions(&mut p, &mut tiles);
    assert_eq!((p.x, p.y), (39, 14));
}

#[test]
fn corner_slide_clamps_both_axes() {
    // Walls to the right and below: the diagonal move clamps flush on X
    // first, then flush on Y (the Y clamp leaves the 25-unit cropped head
    // area overlapping by design).
    let mut p = player_at(36, 12, 3, 3);
    let mut tiles = vec![wall_at(74, 10), wall_at(10, 74)];
    handle_collisions(&mut p, &mut tiles);
    assert_eq!((p.x, p.y), (38, 14));
    assert_eq!(p.velx, 0);
    assert_eq!(p.vely, 0);
}

#[test]
fn upward_push_targets_the_block_upward() {
    // Player below a block moving up (negative y velocity).
    let mut p = player_at(74, 138 - 60 + 2, 0, -3);
    let mut tiles = vec![block_at(74, 74)];
    tiles[0].resistance = 0;
    handle_collisions(&mut p, &mut tiles);
    assert_eq!(tiles[0].targety, 74 - 64);
    assert_eq!(tiles[0].resistance, 30);
    // Clamped flush below the block.
    assert_eq!(p.y, 74 + 64 - 25);
}
