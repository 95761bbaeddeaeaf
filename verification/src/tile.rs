//! Tiles: floor decorations, immovable walls and pushable colored blocks.
//!
//! A pushed block does not jump to its destination: it tweens toward its
//! target position a fixed step per tick, and if the move makes it overlap
//! another wall or block it backtracks — position and target both revert to
//! where the tick started and the block's push resistance refills.

use vstd::prelude::*;

use crate::coord_ok;

verus! {

/// Side length of one grid cell.
pub const TILE_WIDTH: u32 = 64;
pub const TILE_HEIGHT: u32 = 64;

/// Frames of continuous pushing a block withstands before a push commits.
pub const FULL_RESISTANCE: u32 = 30;

/// Distance a tweening tile covers per tick.
pub const TWEEN_STEP: i32 = 3;

/// The palette shared by pushable blocks and the eye sensors they satisfy.
#[derive(Clone, Copy, PartialEq, Eq, Structural, Debug)]
pub enum Color {
    Red,
    Green,
    Blue,
}

/// Which sprite a tile is drawn with. Only `Block` carries gameplay meaning
/// (its color is what eye sensors match on); the floor variants are
/// decorative shadow edges.
#[derive(Clone, Copy, PartialEq, Eq, Structural, Debug)]
pub enum TileTexture {
    Floor,
    FloorShadowCorner,
    FloorShadowRight,
    FloorShadowTop,
    FloorShadowNeCorner,
    GrayBlock,
    Torch,
    Block(Color),
}

#[derive(Clone, Copy, PartialEq, Eq, Structural, Debug)]
pub struct Tile {
    pub texture: TileTexture,
    pub width: u32,
    pub height: u32,
    pub x: i32,
    pub y: i32,
    pub targetx: i32,
    pub targety: i32,
    pub resistance: u32,
    pub iswall: bool,
    pub isblock: bool,
    pub moving: bool,
}

impl Tile {
    /// A tile is never wall and block at once, has a positive bounded size,
    /// and sits at bounded coordinates.
    pub open spec fn wf(self) -> bool {
        &&& !(self.iswall && self.isblock)
        &&& 0 < self.width <= 4096
        &&& 0 < self.height <= 4096
        &&& coord_ok(self.x as int)
        &&& coord_ok(self.y as int)
        &&& coord_ok(self.targetx as int)
        &&& coord_ok(self.targety as int)
    }

    /// The color an eye sensor sees on this tile, if any.
    pub open spec fn spec_block_color(self) -> Option<Color> {
        match self.texture {
            TileTexture::Block(c) => Some(c),
            _ => None,
        }
    }

    pub fn block_color(&self) -> (r: Option<Color>)
        ensures
            r == self.spec_block_color(),
    {
        match self.texture {
            TileTexture::Block(c) => Some(c),
            _ => None,
        }
    }
}

/// Strict axis-aligned overlap between two tiles' boxes.
pub open spec fn boxes_overlap(a: Tile, b: Tile) -> bool {
    &&& a.x < b.x + b.width
    &&& a.x + a.width > b.x
    &&& a.y < b.y + b.height
    &&& a.y + a.height > b.y
}

pub fn does_intersect(a: &Tile, b: &Tile) -> (r: bool)
    requires
        a.wf(),
        b.wf(),
    ensures
        r == boxes_overlap(*a, *b),
{
    (a.x < b.x + b.width as i32)
        && (a.x + a.width as i32 > b.x)
        && (a.y < b.y + b.height as i32)
        && (a.y + a.height as i32 > b.y)
}

/// One tween tick along one axis: move `pos` toward `target` by at most
/// `TWEEN_STEP`, landing exactly on `target` when it is within reach.
pub open spec fn step_toward(pos: i32, target: i32) -> int {
    if target > pos {
        if target - pos <= TWEEN_STEP {
            target as int
        } else {
            pos + TWEEN_STEP
        }
    } else if target < pos {
        if pos - target <= TWEEN_STEP {
            target as int
        } else {
            pos - TWEEN_STEP
        }
    } else {
        pos as int
    }
}

/// The tween phase of a tile tick: both axes step toward the target, and the
/// tile counts as moving while it has not yet arrived.
pub open spec fn tile_moved(t: Tile) -> Tile {
    let nx = step_toward(t.x, t.targetx) as i32;
    let ny = step_toward(t.y, t.targety) as i32;
    Tile {
        x: nx,
        y: ny,
        moving: !(nx == t.targetx && ny == t.targety),
        ..t
    }
}

/// Backtrack: the tile returns to where the tick started, stops, and its
/// push resistance refills.
pub open spec fn tile_reverted(t: Tile, prevx: i32, prevy: i32) -> Tile {
    Tile {
        x: prevx,
        y: prevy,
        targetx: prevx,
        targety: prevy,
        resistance: FULL_RESISTANCE,
        moving: false,
        ..t
    }
}

/// Whether `other` forces `t` to backtrack: solid, standing neither where
/// `t` is now nor where `t` started this tick, and overlapping `t`.
pub open spec fn forces_revert(t: Tile, prevx: i32, prevy: i32, other: Tile) -> bool {
    &&& (other.iswall || other.isblock)
    &&& !(other.x == t.x && other.y == t.y)
    &&& !(other.x == prevx && other.y == prevy)
    &&& boxes_overlap(t, other)
}

/// The collision phase of a tile tick: scan the other tiles in order and
/// backtrack on each one that overlaps the freshly moved box.
pub open spec fn scan_revert(t: Tile, prevx: i32, prevy: i32, others: Seq<Tile>) -> Tile
    decreases others.len(),
{
    if others.len() == 0 {
        t
    } else {
        let t2 = if forces_revert(t, prevx, prevy, others[0]) {
            tile_reverted(t, prevx, prevy)
        } else {
            t
        };
        scan_revert(t2, prevx, prevy, others.skip(1))
    }
}

/// A whole tile tick: a tile already at its target is inert; otherwise it
/// tweens, then backtracks against the snapshot of the other tiles. The
/// boolean is the push sound event: the tile went from resting to moving.
pub open spec fn tile_step(t: Tile, others: Seq<Tile>) -> (Tile, bool) {
    if t.targetx == t.x && t.targety == t.y {
        (t, false)
    } else {
        let after = scan_revert(tile_moved(t), t.x, t.y, others);
        (after, !t.moving && after.moving)
    }
}

impl Tile {
    /// One tick of tile motion against a snapshot of the other tiles, as
    /// `tile_step` describes. Returns true when a push sound should fire:
    /// the tile transitioned from resting to moving this tick.
    pub fn update(&mut self, tiles: &Vec<Tile>) -> (played: bool)
        requires
            old(self).wf(),
            forall|i: int| 0 <= i < tiles@.len() ==> (#[trigger] tiles@[i]).wf(),
        ensures
            ({
                let (t2, snd) = tile_step(*old(self), tiles@);
                (*final(self)) == t2 && played == snd
            }),
            final(self).wf(),
    {
        let prevx = self.x;
        let prevy = self.y;
        let prev_moving = self.moving;

        if self.targetx == self.x && self.targety == self.y {
            return false;
        }

        // Tween toward the target, at most TWEEN_STEP per axis, clamping
        // exactly onto the target when it is within reach.
        let dx = self.targetx as i64 - self.x as i64;
        if dx > 0 {
            self.x = if dx <= TWEEN_STEP as i64 {
                self.targetx
            } else {
                self.x + TWEEN_STEP
            };
        } else if dx < 0 {
            self.x = if -dx <= TWEEN_STEP as i64 {
                self.targetx
            } else {
                self.x - TWEEN_STEP
            };
        }
        let dy = self.targety as i64 - self.y as i64;
        if dy > 0 {
            self.y = if dy <= TWEEN_STEP as i64 {
                self.targety
            } else {
                self.y + TWEEN_STEP
            };
        } else if dy < 0 {
            self.y = if -dy <= TWEEN_STEP as i64 {
                self.targety
            } else {
                self.y - TWEEN_STEP
            };
        }
        self.moving = !(self.x == self.targetx && self.y == self.targety);
        assert((*self) == tile_moved(*old(self)));

        // Reject the move against every solid tile the snapshot shows
        // somewhere else.
        let ghost moved = tile_moved(*old(self));
        assert(tiles@.skip(0) =~= tiles@);
        let mut i: usize = 0;
        while i < tiles.len()
            invariant
                0 <= i <= tiles@.len(),
                forall|j: int| 0 <= j < tiles@.len() ==> (#[trigger] tiles@[j]).wf(),
                self.wf(),
                coord_ok(prevx as int),
                coord_ok(prevy as int),
                scan_revert(*self, prevx, prevy, tiles@.skip(i as int)) == scan_revert(
                    moved,
                    prevx,
                    prevy,
                    tiles@,
                ),
            decreases tiles@.len() - i,
        {
            let t = &tiles[i];
            assert(tiles@.skip(i as int)[0] == tiles@[i as int]);
            assert(tiles@.skip(i as int).skip(1) =~= tiles@.skip(i as int + 1));
            if (t.iswall || t.isblock) && !(t.x == self.x && t.y == self.y) && !(t.x == prevx
                && t.y == prevy) && does_intersect(self, t) {
                self.x = prevx;
                self.y = prevy;
                self.targetx = prevx;
                self.targety = prevy;
                self.resistance = FULL_RESISTANCE;
                self.moving = false;
            }
            i = i + 1;
        }
        assert(tiles@.skip(tiles@.len() as int) =~= Seq::<Tile>::empty());

        !prev_moving && self.moving
    }

    /// True when the tile stands a full tile-size away from its target on
    /// either axis: the moment a committed push starts, used only for
    /// move counting.
    pub fn has_moved(&mut self) -> (r: bool)
        requires
            old(self).wf(),
        ensures
            (*final(self)) == (*old(self)),
            r == spec_has_moved(*old(self)),
    {
        let dy = self.targety as i64 - self.y as i64;
        let dx = self.targetx as i64 - self.x as i64;
        let ady = if dy < 0 {
            -dy
        } else {
            dy
        };
        let adx = if dx < 0 {
            -dx
        } else {
            dx
        };
        ady == self.height as i64 || adx == self.width as i64
    }
}

/// The tile stands a full tile-size from its target on some axis.
pub open spec fn spec_has_moved(t: Tile) -> bool {
    ||| abs_diff(t.targety as int, t.y as int) == t.height
    ||| abs_diff(t.targetx as int, t.x as int) == t.width
}

pub open spec fn abs_diff(a: int, b: int) -> int {
    if a >= b {
        a - b
    } else {
        b - a
    }
}

/// Backtracking is absorbing: once a tile has reverted to where the tick
/// started, further scanning leaves it there.
proof fn lemma_scan_revert_absorbs(t: Tile, prevx: i32, prevy: i32, others: Seq<Tile>)
    requires
        t == tile_reverted(t, prevx, prevy),
    ensures
        scan_revert(t, prevx, prevy, others) == t,
    decreases others.len(),
{
    if others.len() > 0 {
        assert(tile_reverted(t, prevx, prevy) == t);
        lemma_scan_revert_absorbs(
            if forces_revert(t, prevx, prevy, others[0]) {
                tile_reverted(t, prevx, prevy)
            } else {
                t
            },
            prevx,
            prevy,
            others.skip(1),
        );
    }
}

/// The collision scan either backtracks or does nothing: the result is the
/// reverted tile exactly when some snapshot tile rejects the moved box, and
/// the moved tile untouched otherwise.
proof fn lemma_scan_revert_outcome(t: Tile, prevx: i32, prevy: i32, others: Seq<Tile>)
    ensures
        scan_revert(t, prevx, prevy, others) == (if (exists|j: int|
            0 <= j < others.len() && forces_revert(t, prevx, prevy, #[trigger] others[j])) {
            tile_reverted(t, prevx, prevy)
        } else {
            t
        }),
    decreases others.len(),
{
    if others.len() > 0 {
        if forces_revert(t, prevx, prevy, others[0]) {
            lemma_scan_revert_absorbs(tile_reverted(t, prevx, prevy), prevx, prevy, others.skip(1));
        } else {
            lemma_scan_revert_outcome(t, prevx, prevy, others.skip(1));
            assert forall|j: int| 1 <= j < others.len() implies others.skip(1)[j - 1] == others[j] by {}
            if exists|j: int|
                0 <= j < others.len() && forces_revert(t, prevx, prevy, #[trigger] others[j]) {
                let j0 = choose|j: int|
                    0 <= j < others.len() && forces_revert(t, prevx, prevy, #[trigger] others[j]);
                assert(others.skip(1)[j0 - 1] == others[j0]);
            }
        }
    }
}

/// LAW (collision backtrack): when a tile's tweened motion would overlap some
/// solid tile standing neither where it is nor where it started, the whole
/// tick is undone — position and target both return to the pre-move value,
/// the tile stops, and its push resistance refills. When nothing overlaps,
/// the tween stands.
pub proof fn lemma_collision_backtrack(t: Tile, others: Seq<Tile>)
    requires
        !(t.targetx == t.x && t.targety == t.y),
    ensures
        ({
            let moved = tile_moved(t);
            let stepped = tile_step(t, others).0;
            if exists|j: int|
                0 <= j < others.len() && forces_revert(moved, t.x, t.y, #[trigger] others[j]) {
                &&& stepped.x == t.x
                &&& stepped.y == t.y
                &&& stepped.targetx == t.x
                &&& stepped.targety == t.y
                &&& stepped.resistance == FULL_RESISTANCE
                &&& stepped.moving == false
            } else {
                stepped == moved
            }
        }),
{
    lemma_scan_revert_outcome(tile_moved(t), t.x, t.y, others);
}

} // verus!
