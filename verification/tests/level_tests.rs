use minds_eye::{decode_level, Color, Direction, TileTexture};

#[test]
fn three_by_three_grid_decodes_walls_floors_and_spawn() {
    // A titled 3x3 grid: walls on the cross arms, floors in the corners, the
    // player spawn in the middle-right cell, no eyes and no blocks.
    let lvl = decode_level(b"Title\n*x*\nx p\n*x*\n", false);
    assert_eq!(lvl.name, b"Title".to_vec());
    assert!(lvl.eyes.is_empty());
    assert!(lvl.flames.is_empty());

    let walls: Vec<(i32, i32)> = lvl.tiles.iter().filter(|t| t.iswall).map(|t| (t.x, t.y)).collect();
    assert_eq!(walls, vec![(74, 10), (10, 74), (74, 138)]);
    assert!(lvl.tiles.iter().all(|t| !t.isblock));

    let floors: Vec<(i32, i32)> =
        lvl.tiles.iter().filter(|t| !t.iswall).map(|t| (t.x, t.y)).collect();
    // Corner floors plus the floor emitted beneath the spawn.
    assert_eq!(floors, vec![(10, 10), (138, 10), (138, 74), (10, 138), (138, 138)]);

    // The spawn centers the 36x60 player sprite on the 'p' cell at (138, 74).
    assert_eq!(lvl.spawn, Some((138 + 32 - 18, 74 + 3 - 32 + 30)));
}

#[test]
fn block_cells_emit_a_floor_beneath_the_block() {
    let lvl = decode_level(b"T\nb\n", false);
    assert_eq!(lvl.tiles.len(), 2);
    assert_eq!(lvl.tiles[0].texture, TileTexture::Floor);
    assert!(!lvl.tiles[0].isblock && !lvl.tiles[0].iswall);
    // Blocks come after all ground tiles.
    let b = &lvl.tiles[1];
    assert_eq!(b.texture, TileTexture::Block(Color::Blue));
    assert!(b.isblock && !b.iswall);
    assert_eq!((b.x, b.y), (10, 10));
    assert_eq!((b.targetx, b.targety), (10, 10));
    assert_eq!(b.resistance, 30);
}

#[test]
fn each_block_color_maps_to_its_letter() {
    let lvl = decode_level(b"T\nbgr\n", false);
    let blocks: Vec<_> = lvl.tiles.iter().filter(|t| t.isblock).collect();
    assert_eq!(blocks.len(), 3);
    assert_eq!(blocks[0].texture, TileTexture::Block(Color::Blue));
    assert_eq!(blocks[1].texture, TileTexture::Block(Color::Green));
    assert_eq!(blocks[2].texture, TileTexture::Block(Color::Red));
    assert_eq!((blocks[1].x, blocks[1].y), (74, 10));
    assert_eq!((blocks[2].x, blocks[2].y), (138, 10));
}

#[test]
fn eye_cells_emit_a_wall_beneath_only_when_configured() {
    let bare = decode_level(b"T\nR\n", false);
    assert_eq!(bare.tiles.len(), 0);
    assert_eq!(bare.eyes.len(), 1);
    let e = &bare.eyes[0];
    assert_eq!(e.color, Color::Red);
    assert_eq!((e.x, e.y), (10, 10));
    assert_eq!(e.direction, Direction::Left);
    assert!(!e.solved);
    assert_eq!(e.anger, 0);

    let walled = decode_level(b"T\nR\n", true);
    assert_eq!(walled.tiles.len(), 1);
    assert!(walled.tiles[0].iswall);
    assert_eq!(walled.tiles[0].texture, TileTexture::GrayBlock);
    assert_eq!((walled.tiles[0].x, walled.tiles[0].y), (10, 10));
    assert_eq!(walled.eyes.len(), 1);
}

#[test]
fn eye_colors_map_to_their_letters() {
    let lvl = decode_level(b"T\nBGR\n", false);
    assert_eq!(lvl.eyes.len(), 3);
    assert_eq!(lvl.eyes[0].color, Color::Blue);
    assert_eq!(lvl.eyes[1].color, Color::Green);
    assert_eq!(lvl.eyes[2].color, Color::Red);
    assert_eq!((lvl.eyes[1].x, lvl.eyes[1].y), (74, 10));
}

#[test]
fn torch_cells_emit_a_wall_and_a_centered_flame() {
    let lvl = decode_level(b"T\nf\n", false);
    assert_eq!(lvl.tiles.len(), 1);
    assert!(lvl.tiles[0].iswall);
    assert_eq!(lvl.tiles[0].texture, TileTexture::Torch);
    assert_eq!(lvl.flames.len(), 1);
    // Flame centered on the 64-wide cell: 10 + 32 - 12.
    assert_eq!((lvl.flames[0].x, lvl.flames[0].y), (30, 10));
    assert_eq!(lvl.flames[0].frame, 1);
}

#[test]
fn every_character_advances_one_tile_width() {
    // Blocks, eyes, the spawn and spaces all take one cell.
    let lvl = decode_level(b"T\nb xR\n", false);
    let walls: Vec<(i32, i32)> = lvl.tiles.iter().filter(|t| t.iswall).map(|t| (t.x, t.y)).collect();
    assert_eq!(walls, vec![(138, 10)]);
    assert_eq!((lvl.eyes[0].x, lvl.eyes[0].y), (202, 10));
}

#[test]
fn floor_shadow_variants_keep_their_textures() {
    let lvl = decode_level(b"T\n*5689\n", false);
    let texes: Vec<TileTexture> = lvl.tiles.iter().map(|t| t.texture).collect();
    assert_eq!(
        texes,
        vec![
            TileTexture::Floor,
            TileTexture::FloorShadowCorner,
            TileTexture::FloorShadowRight,
            TileTexture::FloorShadowTop,
            TileTexture::FloorShadowNeCorner,
        ]
    );
}

#[test]
fn last_spawn_wins() {
    let lvl = decode_level(b"T\np p\n", false);
    assert_eq!(lvl.spawn, Some((138 + 14, 10 + 1)));
    // Both 'p' cells still emit their floor.
    assert_eq!(lvl.tiles.len(), 2);
}

#[test]
fn level_without_grid_is_empty() {
    let lvl = decode_level(b"Just a name", false);
    assert_eq!(lvl.name, b"Just a name".to_vec());
    assert!(lvl.tiles.is_empty());
    assert!(lvl.eyes.is_empty());
    assert_eq!(lvl.spawn, None);

    let empty = decode_level(b"", false);
    assert!(empty.name.is_empty());
    assert!(empty.tiles.is_empty());
}

#[test]
fn unknown_characters_advance_without_emitting() {
    let lvl = decode_level(b"T\n?x\n", false);
    let walls: Vec<(i32, i32)> = lvl.tiles.iter().map(|t| (t.x, t.y)).collect();
    assert_eq!(walls, vec![(74, 10)]);
}
