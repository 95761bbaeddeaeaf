//! Level decoding: a level file is a display name on the first line followed
//! by a character grid, one row per line, one tile width per character.
//! Floor variants, walls, torches, colored blocks (each over a plain floor),
//! colored eyes (over a gray wall or over nothing, by configuration), the
//! player spawn (over a plain floor) and empty cells.

use vstd::prelude::*;

use crate::coord_ok;
use crate::eye::Direction;
use crate::eye::Eye;
use crate::fire::FIRE_FIRST_DELAY;
use crate::fire::FIRE_HEIGHT;
use crate::fire::FIRE_WIDTH;
use crate::fire::Fire;
use crate::player::PLAYER_HEIGHT;
use crate::player::PLAYER_WIDTH;
use crate::tile::Color;
use crate::tile::FULL_RESISTANCE;
use crate::tile::TILE_HEIGHT;
use crate::tile::TILE_WIDTH;
use crate::tile::Tile;
use crate::tile::TileTexture;

verus! {

/// Pixel offset of the grid's top-left corner.
pub const GRID_MARGIN: i32 = 10;

/// Largest level file the decoder accepts; keeps every grid coordinate far
/// inside the world bound.
pub const MAX_LEVEL_BYTES: usize = 65536;

pub const CH_NL: u8 = 10;  // line break
pub const CH_FLOOR: u8 = 42;  // '*'
pub const CH_SHADOW_CORNER: u8 = 53;  // '5'
pub const CH_SHADOW_RIGHT: u8 = 54;  // '6'
pub const CH_SHADOW_TOP: u8 = 56;  // '8'
pub const CH_SHADOW_NE: u8 = 57;  // '9'
pub const CH_EYE_BLUE: u8 = 66;  // 'B'
pub const CH_EYE_GREEN: u8 = 71;  // 'G'
pub const CH_EYE_RED: u8 = 82;  // 'R'
pub const CH_BLOCK_BLUE: u8 = 98;  // 'b'
pub const CH_TORCH: u8 = 102;  // 'f'
pub const CH_BLOCK_GREEN: u8 = 103;  // 'g'
pub const CH_PLAYER: u8 = 112;  // 'p'
pub const CH_BLOCK_RED: u8 = 114;  // 'r'
pub const CH_WALL: u8 = 120;  // 'x'

/// A resting non-pushable tile of one grid cell.
pub open spec fn ground_tile(tex: TileTexture, wall: bool, x: i32, y: i32) -> Tile {
    Tile {
        texture: tex,
        width: TILE_WIDTH,
        height: TILE_HEIGHT,
        x: x,
        y: y,
        targetx: x,
        targety: y,
        resistance: 0,
        iswall: wall,
        isblock: false,
        moving: false,
    }
}

/// A resting pushable block of one grid cell, at full resistance.
pub open spec fn block_tile(c: Color, x: i32, y: i32) -> Tile {
    Tile {
        texture: TileTexture::Block(c),
        width: TILE_WIDTH,
        height: TILE_HEIGHT,
        x: x,
        y: y,
        targetx: x,
        targety: y,
        resistance: FULL_RESISTANCE,
        iswall: false,
        isblock: true,
        moving: false,
    }
}

/// A freshly placed eye of color `c`.
pub open spec fn fresh_eye(c: Color, x: i32, y: i32) -> Eye {
    Eye {
        direction: Direction::Left,
        color: c,
        solved: false,
        x: x,
        y: y,
        width: TILE_WIDTH,
        height: TILE_HEIGHT,
        deltax: 0,
        deltay: 0,
        anger: 0,
    }
}

/// The ground tile one grid character emits: floors under themselves, under
/// blocks and under the spawn; walls under 'x' and torches; under an eye a
/// wall exactly when `eye_walls` is set; nothing for empty or unknown cells.
pub open spec fn ground_emit(c: u8, x: i32, y: i32, eye_walls: bool) -> Option<Tile> {
    if c == CH_FLOOR {
        Some(ground_tile(TileTexture::Floor, false, x, y))
    } else if c == CH_SHADOW_CORNER {
        Some(ground_tile(TileTexture::FloorShadowCorner, false, x, y))
    } else if c == CH_SHADOW_RIGHT {
        Some(ground_tile(TileTexture::FloorShadowRight, false, x, y))
    } else if c == CH_SHADOW_TOP {
        Some(ground_tile(TileTexture::FloorShadowTop, false, x, y))
    } else if c == CH_SHADOW_NE {
        Some(ground_tile(TileTexture::FloorShadowNeCorner, false, x, y))
    } else if c == CH_WALL {
        Some(ground_tile(TileTexture::GrayBlock, true, x, y))
    } else if c == CH_TORCH {
        Some(ground_tile(TileTexture::Torch, true, x, y))
    } else if c == CH_BLOCK_BLUE || c == CH_BLOCK_GREEN || c == CH_BLOCK_RED {
        Some(ground_tile(TileTexture::Floor, false, x, y))
    } else if c == CH_EYE_BLUE || c == CH_EYE_GREEN || c == CH_EYE_RED {
        if eye_walls {
            Some(ground_tile(TileTexture::GrayBlock, true, x, y))
        } else {
            None
        }
    } else if c == CH_PLAYER {
        Some(ground_tile(TileTexture::Floor, false, x, y))
    } else {
        None
    }
}

/// The pushable block one grid character emits.
pub open spec fn block_emit(c: u8, x: i32, y: i32) -> Option<Tile> {
    if c == CH_BLOCK_BLUE {
        Some(block_tile(Color::Blue, x, y))
    } else if c == CH_BLOCK_GREEN {
        Some(block_tile(Color::Green, x, y))
    } else if c == CH_BLOCK_RED {
        Some(block_tile(Color::Red, x, y))
    } else {
        None
    }
}

/// The eye one grid character emits.
pub open spec fn eye_emit(c: u8, x: i32, y: i32) -> Option<Eye> {
    if c == CH_EYE_BLUE {
        Some(fresh_eye(Color::Blue, x, y))
    } else if c == CH_EYE_GREEN {
        Some(fresh_eye(Color::Green, x, y))
    } else if c == CH_EYE_RED {
        Some(fresh_eye(Color::Red, x, y))
    } else {
        None
    }
}

/// The torch flame one grid character emits, centered on its cell.
pub open spec fn flame_emit(c: u8, x: i32, y: i32) -> Option<Fire> {
    if c == CH_TORCH {
        Some(
            Fire {
                width: FIRE_WIDTH,
                height: FIRE_HEIGHT,
                x: (x + TILE_WIDTH / 2 - FIRE_WIDTH / 2) as i32,
                y: y,
                delay: FIRE_FIRST_DELAY,
                frame: 1,
            },
        )
    } else {
        None
    }
}

/// The player spawn position one grid character sets: the sprite centered on
/// the cell.
pub open spec fn spawn_at(c: u8, x: i32, y: i32) -> Option<(i32, i32)> {
    if c == CH_PLAYER {
        Some(
            (
                (x + TILE_WIDTH / 2 - PLAYER_WIDTH / 2) as i32,
                (y + 3 - TILE_HEIGHT / 2 + PLAYER_HEIGHT / 2) as i32,
            ),
        )
    } else {
        None
    }
}

pub open spec fn opt_seq<T>(o: Option<T>) -> Seq<T> {
    match o {
        Some(v) => seq![v],
        None => Seq::empty(),
    }
}

/// All ground tiles of the grid, in scan order: the cursor advances one tile
/// width per character and returns to the margin after each line break.
pub open spec fn decode_ground(s: Seq<u8>, x: i32, y: i32, eye_walls: bool) -> Seq<Tile>
    decreases s.len(),
{
    if s.len() == 0 {
        Seq::empty()
    } else if s[0] == CH_NL {
        decode_ground(s.skip(1), GRID_MARGIN, (y + TILE_HEIGHT) as i32, eye_walls)
    } else {
        opt_seq(ground_emit(s[0], x, y, eye_walls)) + decode_ground(
            s.skip(1),
            (x + TILE_WIDTH) as i32,
            y,
            eye_walls,
        )
    }
}

/// All pushable blocks of the grid, in scan order.
pub open spec fn decode_blocks(s: Seq<u8>, x: i32, y: i32) -> Seq<Tile>
    decreases s.len(),
{
    if s.len() == 0 {
        Seq::empty()
    } else if s[0] == CH_NL {
        decode_blocks(s.skip(1), GRID_MARGIN, (y + TILE_HEIGHT) as i32)
    } else {
        opt_seq(block_emit(s[0], x, y)) + decode_blocks(s.skip(1), (x + TILE_WIDTH) as i32, y)
    }
}

/// All eyes of the grid, in scan order.
pub open spec fn decode_eyes(s: Seq<u8>, x: i32, y: i32) -> Seq<Eye>
    decreases s.len(),
{
    if s.len() == 0 {
        Seq::empty()
    } else if s[0] == CH_NL {
        decode_eyes(s.skip(1), GRID_MARGIN, (y + TILE_HEIGHT) as i32)
    } else {
        opt_seq(eye_emit(s[0], x, y)) + decode_eyes(s.skip(1), (x + TILE_WIDTH) as i32, y)
    }
}

/// All torch flames of the grid, in scan order.
pub open spec fn decode_flames(s: Seq<u8>, x: i32, y: i32) -> Seq<Fire>
    decreases s.len(),
{
    if s.len() == 0 {
        Seq::empty()
    } else if s[0] == CH_NL {
        decode_flames(s.skip(1), GRID_MARGIN, (y + TILE_HEIGHT) as i32)
    } else {
        opt_seq(flame_emit(s[0], x, y)) + decode_flames(s.skip(1), (x + TILE_WIDTH) as i32, y)
    }
}

/// The later of two spawn findings: a spawn further on in the grid overrides
/// an earlier one.
pub open spec fn later_spawn(rest: Option<(i32, i32)>, cur: Option<(i32, i32)>) -> Option<
    (i32, i32),
> {
    if rest is Some {
        rest
    } else {
        cur
    }
}

/// The player spawn the grid sets: the last 'p' wins.
pub open spec fn decode_spawn(s: Seq<u8>, x: i32, y: i32) -> Option<(i32, i32)>
    decreases s.len(),
{
    if s.len() == 0 {
        None
    } else if s[0] == CH_NL {
        decode_spawn(s.skip(1), GRID_MARGIN, (y + TILE_HEIGHT) as i32)
    } else {
        later_spawn(decode_spawn(s.skip(1), (x + TILE_WIDTH) as i32, y), spawn_at(s[0], x, y))
    }
}

/// Index of the first line break, or the length when there is none.
pub open spec fn first_nl(s: Seq<u8>) -> int
    decreases s.len(),
{
    if s.len() == 0 {
        0
    } else if s[0] == CH_NL {
        0
    } else {
        1 + first_nl(s.skip(1))
    }
}

/// The display name: everything before the first line break.
pub open spec fn title_of(s: Seq<u8>) -> Seq<u8> {
    s.take(first_nl(s))
}

/// The character grid: everything after the first line break.
pub open spec fn grid_of(s: Seq<u8>) -> Seq<u8> {
    if first_nl(s) < s.len() {
        s.skip(first_nl(s) + 1)
    } else {
        Seq::empty()
    }
}

proof fn lemma_first_nl(s: Seq<u8>)
    ensures
        0 <= first_nl(s) <= s.len(),
        forall|k: int| 0 <= k < first_nl(s) ==> s[k] != CH_NL,
        first_nl(s) < s.len() ==> s[first_nl(s)] == CH_NL,
    decreases s.len(),
{
    if s.len() > 0 && s[0] != CH_NL {
        lemma_first_nl(s.skip(1));
        assert forall|k: int| 0 <= k < first_nl(s) implies s[k] != CH_NL by {
            if k > 0 {
                assert(s.skip(1)[k - 1] == s[k]);
            }
        }
        if first_nl(s) < s.len() {
            assert(s.skip(1)[first_nl(s) - 1] == s[first_nl(s)]);
        }
    }
}

/// A decoded level: display name, ground tiles followed by blocks, eyes,
/// torch flames, and the player spawn position if the grid set one.
pub struct Level {
    pub name: Vec<u8>,
    pub tiles: Vec<Tile>,
    pub eyes: Vec<Eye>,
    pub flames: Vec<Fire>,
    pub spawn: Option<(i32, i32)>,
}

impl Level {
    pub open spec fn wf(self) -> bool {
        &&& forall|i: int| 0 <= i < self.tiles@.len() ==> (#[trigger] self.tiles@[i]).wf()
        &&& forall|i: int| 0 <= i < self.eyes@.len() ==> (#[trigger] self.eyes@[i]).wf()
        &&& forall|i: int| 0 <= i < self.flames@.len() ==> (#[trigger] self.flames@[i]).wf()
        &&& match self.spawn {
            Some(p) => coord_ok(p.0 as int) && coord_ok(p.1 as int),
            None => true,
        }
    }
}

/// Decode a level file: the first line is the display name; each later line
/// is one grid row, one tile width per character. `eye_walls` selects
/// whether an eye cell also emits a gray wall beneath the eye.
pub fn decode_level(bytes: &[u8], eye_walls: bool) -> (lvl: Level)
    requires
        bytes@.len() <= MAX_LEVEL_BYTES,
    ensures
        lvl.name@ == title_of(bytes@),
        lvl.tiles@ == decode_ground(grid_of(bytes@), GRID_MARGIN, GRID_MARGIN, eye_walls)
            + decode_blocks(grid_of(bytes@), GRID_MARGIN, GRID_MARGIN),
        lvl.eyes@ == decode_eyes(grid_of(bytes@), GRID_MARGIN, GRID_MARGIN),
        lvl.flames@ == decode_flames(grid_of(bytes@), GRID_MARGIN, GRID_MARGIN),
        lvl.spawn == decode_spawn(grid_of(bytes@), GRID_MARGIN, GRID_MARGIN),
        lvl.wf(),
{
    proof {
        lemma_first_nl(bytes@);
    }

    // The display name: everything before the first line break.
    let mut name: Vec<u8> = Vec::new();
    let mut i: usize = 0;
    while i < bytes.len() && bytes[i] != CH_NL
        invariant
            0 <= i <= bytes@.len(),
            name@ == bytes@.take(i as int),
            forall|k: int| 0 <= k < i ==> bytes@[k] != CH_NL,
        decreases bytes@.len() - i,
    {
        let c = bytes[i];
        name.push(c);
        assert(bytes@.take(i as int).push(c) =~= bytes@.take(i as int + 1));
        i = i + 1;
    }
    assert(i == first_nl(bytes@));

    let start = if i < bytes.len() {
        i + 1
    } else {
        i
    };
    let ghost grid = grid_of(bytes@);
    proof {
        if i < bytes@.len() {
            assert(grid =~= bytes@.skip(start as int));
        } else {
            assert(grid =~= bytes@.skip(start as int));
        }
    }

    let mut tiles: Vec<Tile> = Vec::new();
    let mut blocks: Vec<Tile> = Vec::new();
    let mut eyes: Vec<Eye> = Vec::new();
    let mut flames: Vec<Fire> = Vec::new();
    let mut spawn: Option<(i32, i32)> = None;
    let mut curx: i32 = GRID_MARGIN;
    let mut cury: i32 = GRID_MARGIN;
    let mut k: usize = 0;
    assert(grid.skip(0) =~= grid);
    while start + k < bytes.len()
        invariant
            grid == grid_of(bytes@),
            grid == bytes@.skip(start as int),
            start <= bytes@.len(),
            bytes@.len() <= MAX_LEVEL_BYTES,
            0 <= k <= grid.len(),
            grid.len() == bytes@.len() - start,
            GRID_MARGIN <= curx <= GRID_MARGIN + 64 * (k as int),
            GRID_MARGIN <= cury <= GRID_MARGIN + 64 * (k as int),
            decode_ground(grid, GRID_MARGIN, GRID_MARGIN, eye_walls) == tiles@ + decode_ground(
                grid.skip(k as int),
                curx,
                cury,
                eye_walls,
            ),
            decode_blocks(grid, GRID_MARGIN, GRID_MARGIN) == blocks@ + decode_blocks(
                grid.skip(k as int),
                curx,
                cury,
            ),
            decode_eyes(grid, GRID_MARGIN, GRID_MARGIN) == eyes@ + decode_eyes(
                grid.skip(k as int),
                curx,
                cury,
            ),
            decode_flames(grid, GRID_MARGIN, GRID_MARGIN) == flames@ + decode_flames(
                grid.skip(k as int),
                curx,
                cury,
            ),
            decode_spawn(grid, GRID_MARGIN, GRID_MARGIN) == later_spawn(
                decode_spawn(grid.skip(k as int), curx, cury),
                spawn,
            ),
            forall|j: int| 0 <= j < tiles@.len() ==> (#[trigger] tiles@[j]).wf(),
            forall|j: int| 0 <= j < blocks@.len() ==> (#[trigger] blocks@[j]).wf(),
            forall|j: int| 0 <= j < eyes@.len() ==> (#[trigger] eyes@[j]).wf(),
            forall|j: int| 0 <= j < flames@.len() ==> (#[trigger] flames@[j]).wf(),
            match spawn {
                Some(p) => coord_ok(p.0 as int) && coord_ok(p.1 as int),
                None => true,
            },
        decreases bytes@.len() - (start + k),
    {
        assert(grid.skip(k as int)[0] == grid[k as int]);
        assert(grid.skip(k as int).skip(1) =~= grid.skip(k as int + 1));
        let c = bytes[start + k];
        assert(c == grid[k as int]);

        if c == CH_NL {
            curx = GRID_MARGIN;
            cury = cury + TILE_HEIGHT as i32;
        } else {
            // Ground tile, if this character emits one.
            if c == CH_FLOOR {
                tiles.push(make_ground(TileTexture::Floor, false, curx, cury));
            } else if c == CH_SHADOW_CORNER {
                tiles.push(make_ground(TileTexture::FloorShadowCorner, false, curx, cury));
            } else if c == CH_SHADOW_RIGHT {
                tiles.push(make_ground(TileTexture::FloorShadowRight, false, curx, cury));
            } else if c == CH_SHADOW_TOP {
                tiles.push(make_ground(TileTexture::FloorShadowTop, false, curx, cury));
            } else if c == CH_SHADOW_NE {
                tiles.push(make_ground(TileTexture::FloorShadowNeCorner, false, curx, cury));
            } else if c == CH_WALL {
                tiles.push(make_ground(TileTexture::GrayBlock, true, curx, cury));
            } else if c == CH_TORCH {
                tiles.push(make_ground(TileTexture::Torch, true, curx, cury));
            } else if c == CH_BLOCK_BLUE || c == CH_BLOCK_GREEN || c == CH_BLOCK_RED {
                tiles.push(make_ground(TileTexture::Floor, false, curx, cury));
            } else if (c == CH_EYE_BLUE || c == CH_EYE_GREEN || c == CH_EYE_RED) && eye_walls {
                tiles.push(make_ground(TileTexture::GrayBlock, true, curx, cury));
            } else if c == CH_PLAYER {
                tiles.push(make_ground(TileTexture::Floor, false, curx, cury));
            }
            // Pushable block.
            if c == CH_BLOCK_BLUE {
                blocks.push(make_block(Color::Blue, curx, cury));
            } else if c == CH_BLOCK_GREEN {
                blocks.push(make_block(Color::Green, curx, cury));
            } else if c == CH_BLOCK_RED {
                blocks.push(make_block(Color::Red, curx, cury));
            }

            // Eye.
            if c == CH_EYE_BLUE {
                eyes.push(make_eye(Color::Blue, curx, cury));
            } else if c == CH_EYE_GREEN {
                eyes.push(make_eye(Color::Green, curx, cury));
            } else if c == CH_EYE_RED {
                eyes.push(make_eye(Color::Red, curx, cury));
            }

            // Torch flame.
            if c == CH_TORCH {
                flames.push(
                    Fire {
                        width: FIRE_WIDTH,
                        height: FIRE_HEIGHT,
                        x: curx + (TILE_WIDTH / 2) as i32 - (FIRE_WIDTH / 2) as i32,
                        y: cury,
                        delay: FIRE_FIRST_DELAY,
                        frame: 1,
                    },
                );
            }

            // Player spawn: the last one wins.
            if c == CH_PLAYER {
                spawn = Some(
                    (
                        curx + (TILE_WIDTH / 2) as i32 - (PLAYER_WIDTH / 2) as i32,
                        cury + 3 - (TILE_HEIGHT / 2) as i32 + (PLAYER_HEIGHT / 2) as i32,
                    ),
                );
            }

            curx = curx + TILE_WIDTH as i32;
        }
        k = k + 1;
    }
    assert(grid.skip(grid.len() as int) =~= Seq::<u8>::empty());

    let mut all_tiles = tiles;
    all_tiles.append(&mut blocks);

    Level { name, tiles: all_tiles, eyes, flames, spawn }
}

fn make_ground(tex: TileTexture, wall: bool, x: i32, y: i32) -> (t: Tile)
    requires
        coord_ok(x as int),
        coord_ok(y as int),
    ensures
        t == ground_tile(tex, wall, x, y),
        t.wf(),
{
    Tile {
        texture: tex,
        width: TILE_WIDTH,
        height: TILE_HEIGHT,
        x: x,
        y: y,
        targetx: x,
        targety: y,
        resistance: 0,
        iswall: wall,
        isblock: false,
        moving: false,
    }
}

fn make_block(c: Color, x: i32, y: i32) -> (t: Tile)
    requires
        coord_ok(x as int),
        coord_ok(y as int),
    ensures
        t == block_tile(c, x, y),
        t.wf(),
{
    Tile {
        texture: TileTexture::Block(c),
        width: TILE_WIDTH,
        height: TILE_HEIGHT,
        x: x,
        y: y,
        targetx: x,
        targety: y,
        resistance: FULL_RESISTANCE,
        iswall: false,
        isblock: true,
        moving: false,
    }
}

fn make_eye(c: Color, x: i32, y: i32) -> (e: Eye)
    requires
        coord_ok(x as int),
        coord_ok(y as int),
    ensures
        e == fresh_eye(c, x, y),
        e.wf(),
{
    Eye {
        direction: Direction::Left,
        color: c,
        solved: false,
        x: x,
        y: y,
        width: TILE_WIDTH,
        height: TILE_HEIGHT,
        deltax: 0,
        deltay: 0,
        anger: 0,
    }
}

} // verus!
