//! Eye sensors: the puzzle goals. Each frame an eye re-scans the tile list
//! along the four sight directions, in the fixed priority left, right, up,
//! down, and is solved exactly when the first direction whose nearest
//! obstacle is a block of the eye's color exists. Solved eyes snap their
//! pupil toward that direction and grow angry; unsolved eyes jitter their
//! pupil randomly and calm down.

use vstd::prelude::*;

use crate::coord_ok;
use crate::rng::sample_range;
use crate::tile::Color;
use crate::tile::Tile;

verus! {

/// Horizontal pupil saturation bound.
pub const PUPIL_X_BOUND: i32 = 12;

/// Vertical pupil saturation bound.
pub const PUPIL_Y_BOUND: i32 = 6;

/// Magnitude bound of the per-frame pupil jitter while unsolved.
pub const JITTER_BOUND: i32 = 3;

/// Anger gained per solved frame and lost per unsolved frame.
pub const ANGER_STEP: u8 = 10;

#[derive(Clone, Copy, PartialEq, Eq, Structural, Debug)]
pub enum Direction {
    Left,
    Right,
    Up,
    Down,
}

#[derive(Clone, Copy, PartialEq, Eq, Structural, Debug)]
pub struct Eye {
    pub direction: Direction,
    pub color: Color,
    pub solved: bool,
    pub x: i32,
    pub y: i32,
    pub width: u32,
    pub height: u32,
    pub deltax: i32,
    pub deltay: i32,
    pub anger: u8,
}

impl Eye {
    pub open spec fn wf(self) -> bool {
        &&& coord_ok(self.x as int)
        &&& coord_ok(self.y as int)
        &&& 0 < self.width <= 4096
        &&& 0 < self.height <= 4096
        &&& -PUPIL_X_BOUND <= self.deltax <= PUPIL_X_BOUND
        &&& -PUPIL_Y_BOUND <= self.deltay <= PUPIL_Y_BOUND
    }
}

/// Whether `t` is an obstacle for an eye at `(ex, ey)` looking toward `d`:
/// solid, on the eye's sight line, strictly on the `d` side.
pub open spec fn is_candidate(ex: int, ey: int, d: Direction, t: Tile) -> bool {
    &&& (t.iswall || t.isblock)
    &&& match d {
        Direction::Left => t.y == ey && ex > t.x,
        Direction::Right => t.y == ey && ex < t.x,
        Direction::Up => t.x == ex && ey < t.y,
        Direction::Down => t.x == ex && ey > t.y,
    }
}

/// Distance from the eye to a candidate obstacle along direction `d`.
pub open spec fn cand_dist(ex: int, ey: int, d: Direction, t: Tile) -> int {
    match d {
        Direction::Left => ex - t.x,
        Direction::Right => t.x - ex,
        Direction::Up => t.y - ey,
        Direction::Down => ey - t.y,
    }
}

/// A block whose color satisfies an eye of color `c`.
pub open spec fn color_match(t: Tile, c: Color) -> bool {
    t.isblock && t.spec_block_color() == Some(c)
}

/// One directional scan, folded left to right over the tile list: keep the
/// first obstacle at each new strictly smaller distance, and remember whether
/// that obstacle is a matching block. `None` means no obstacle at all.
pub open spec fn pass_fold(
    ex: int,
    ey: int,
    c: Color,
    d: Direction,
    tiles: Seq<Tile>,
    acc: Option<(int, bool)>,
) -> Option<(int, bool)>
    decreases tiles.len(),
{
    if tiles.len() == 0 {
        acc
    } else {
        let t = tiles[0];
        let improves = match acc {
            None => true,
            Some(p) => cand_dist(ex, ey, d, t) < p.0,
        };
        let acc2 = if is_candidate(ex, ey, d, t) && improves {
            Some((cand_dist(ex, ey, d, t), color_match(t, c)))
        } else {
            acc
        };
        pass_fold(ex, ey, c, d, tiles.skip(1), acc2)
    }
}

/// The nearest obstacle of one directional scan over the whole tile list.
pub open spec fn scan_pass(ex: int, ey: int, c: Color, d: Direction, tiles: Seq<Tile>) -> Option<
    (int, bool),
> {
    pass_fold(ex, ey, c, d, tiles, None)
}

/// The whole sight-and-solve decision: try the four directions in priority
/// order left, right, up, down; the first whose nearest obstacle is a
/// matching block wins and solves the eye. A direction whose scan finds any
/// obstacle moves the facing even when it does not match; when no direction
/// finds an obstacle at all the facing stays `d0`.
pub open spec fn scan_result(
    ex: int,
    ey: int,
    c: Color,
    d0: Direction,
    tiles: Seq<Tile>,
) -> (Direction, bool) {
    match scan_pass(ex, ey, c, Direction::Left, tiles) {
        Some(p) => if p.1 {
            (Direction::Left, true)
        } else {
            scan_from_right(ex, ey, c, Direction::Left, tiles)
        },
        None => scan_from_right(ex, ey, c, d0, tiles),
    }
}

/// The tail of `scan_result` after an unmatched left scan: facing `d1`.
pub open spec fn scan_from_right(
    ex: int,
    ey: int,
    c: Color,
    d1: Direction,
    tiles: Seq<Tile>,
) -> (Direction, bool) {
    match scan_pass(ex, ey, c, Direction::Right, tiles) {
        Some(p) => if p.1 {
            (Direction::Right, true)
        } else {
            scan_from_up(ex, ey, c, Direction::Right, tiles)
        },
        None => scan_from_up(ex, ey, c, d1, tiles),
    }
}

pub open spec fn scan_from_up(
    ex: int,
    ey: int,
    c: Color,
    d2: Direction,
    tiles: Seq<Tile>,
) -> (Direction, bool) {
    match scan_pass(ex, ey, c, Direction::Up, tiles) {
        Some(p) => if p.1 {
            (Direction::Up, true)
        } else {
            scan_from_down(ex, ey, c, Direction::Up, tiles)
        },
        None => scan_from_down(ex, ey, c, d2, tiles),
    }
}

pub open spec fn scan_from_down(
    ex: int,
    ey: int,
    c: Color,
    d3: Direction,
    tiles: Seq<Tile>,
) -> (Direction, bool) {
    match scan_pass(ex, ey, c, Direction::Down, tiles) {
        Some(p) => if p.1 {
            (Direction::Down, true)
        } else {
            (Direction::Down, false)
        },
        None => (d3, false),
    }
}

/// Anger rises by `ANGER_STEP` per solved frame, saturating at 255.
pub open spec fn anger_up(a: u8) -> u8 {
    if a + ANGER_STEP < 255 {
        (a + ANGER_STEP) as u8
    } else {
        255u8
    }
}

/// Anger decays by `ANGER_STEP` per unsolved frame, saturating at 0.
pub open spec fn anger_down(a: u8) -> u8 {
    if a > ANGER_STEP {
        (a - ANGER_STEP) as u8
    } else {
        0u8
    }
}

/// One pupil step toward a positive saturation bound.
pub open spec fn pupil_inc(v: int, bound: int) -> int {
    if v < bound {
        v + 1
    } else {
        bound
    }
}

/// One pupil step toward a negative saturation bound.
pub open spec fn pupil_dec(v: int, bound: int) -> int {
    if v > bound {
        v - 1
    } else {
        bound
    }
}

/// Everything one `Eye::update` call does, up to the random pupil jitter of
/// an unsolved eye, which is only bounded.
pub open spec fn eye_updated(e0: Eye, e1: Eye, tiles: Seq<Tile>) -> bool {
    let (d, s) = scan_result(e0.x as int, e0.y as int, e0.color, e0.direction, tiles);
    &&& e1.direction == d
    &&& e1.solved == s
    &&& e1.x == e0.x
    &&& e1.y == e0.y
    &&& e1.width == e0.width
    &&& e1.height == e0.height
    &&& e1.color == e0.color
    &&& if s {
        &&& e1.anger == anger_up(e0.anger)
        &&& match d {
            Direction::Left => e1.deltax == pupil_dec(e0.deltax as int, -PUPIL_X_BOUND as int) && e1.deltay
                == 0,
            Direction::Right => e1.deltax == pupil_inc(e0.deltax as int, PUPIL_X_BOUND as int) && e1.deltay
                == 0,
            Direction::Up => e1.deltay == pupil_inc(e0.deltay as int, PUPIL_Y_BOUND as int) && e1.deltax == 0,
            Direction::Down => e1.deltay == pupil_dec(e0.deltay as int, -PUPIL_Y_BOUND as int) && e1.deltax
                == 0,
        }
    } else {
        &&& e1.anger == anger_down(e0.anger)
        &&& -JITTER_BOUND <= e1.deltax <= JITTER_BOUND
        &&& -JITTER_BOUND <= e1.deltay <= JITTER_BOUND
    }
}

/// Spec view of the executable scan accumulator.
pub open spec fn acc_view(o: Option<(i64, bool)>) -> Option<(int, bool)> {
    match o {
        None => None,
        Some(p) => Some((p.0 as int, p.1)),
    }
}

/// One directional scan over the tile list: the nearest solid tile strictly
/// on the `d` side of `(ex, ey)` along the sight line, with whether it is a
/// block matching `c`. First tile wins among equal distances.
fn run_pass(ex: i32, ey: i32, c: Color, d: Direction, tiles: &Vec<Tile>) -> (r: Option<(i64, bool)>)
    ensures
        acc_view(r) == scan_pass(ex as int, ey as int, c, d, tiles@),
{
    let mut best: Option<(i64, bool)> = None;
    let mut i: usize = 0;
    assert(tiles@.skip(0) =~= tiles@);
    while i < tiles.len()
        invariant
            0 <= i <= tiles@.len(),
            pass_fold(ex as int, ey as int, c, d, tiles@.skip(i as int), acc_view(best))
                == pass_fold(ex as int, ey as int, c, d, tiles@, None),
        decreases tiles@.len() - i,
    {
        assert(tiles@.skip(i as int)[0] == tiles@[i as int]);
        assert(tiles@.skip(i as int).skip(1) =~= tiles@.skip(i as int + 1));
        let t = &tiles[i];
        let solid = t.iswall || t.isblock;
        let is_cand: bool;
        let dist: i64;
        match d {
            Direction::Left => {
                is_cand = solid && t.y == ey && ex > t.x;
                dist = ex as i64 - t.x as i64;
            },
            Direction::Right => {
                is_cand = solid && t.y == ey && ex < t.x;
                dist = t.x as i64 - ex as i64;
            },
            Direction::Up => {
                is_cand = solid && t.x == ex && ey < t.y;
                dist = t.y as i64 - ey as i64;
            },
            Direction::Down => {
                is_cand = solid && t.x == ex && ey > t.y;
                dist = ey as i64 - t.y as i64;
            },
        }
        let improves = match best {
            None => true,
            Some((bd, _)) => dist < bd,
        };
        if is_cand && improves {
            let m = match t.block_color() {
                Some(tc) => t.isblock && tc == c,
                None => false,
            };
            best = Some((dist, m));
        }
        i = i + 1;
    }
    assert(tiles@.skip(tiles@.len() as int) =~= Seq::<Tile>::empty());
    best
}

impl Eye {
    /// One frame of the sight-and-solve algorithm against the current tile
    /// list, as `eye_updated` describes: deterministic in the tiles except
    /// for the pupil jitter of an unsolved eye.
    pub fn update(&mut self, tiles: &Vec<Tile>)
        requires
            old(self).wf(),
        ensures
            eye_updated(*old(self), *final(self), tiles@),
            final(self).wf(),
    {
        let mut matched = false;

        match run_pass(self.x, self.y, self.color, Direction::Left, tiles) {
            Some((_, m)) => {
                self.direction = Direction::Left;
                matched = m;
            },
            None => {},
        }
        if !matched {
            match run_pass(self.x, self.y, self.color, Direction::Right, tiles) {
                Some((_, m)) => {
                    self.direction = Direction::Right;
                    matched = m;
                },
                None => {},
            }
        }
        if !matched {
            match run_pass(self.x, self.y, self.color, Direction::Up, tiles) {
                Some((_, m)) => {
                    self.direction = Direction::Up;
                    matched = m;
                },
                None => {},
            }
        }
        if !matched {
            match run_pass(self.x, self.y, self.color, Direction::Down, tiles) {
                Some((_, m)) => {
                    self.direction = Direction::Down;
                    matched = m;
                },
                None => {},
            }
        }
        self.solved = matched;

        if matched {
            match self.direction {
                Direction::Left => {
                    self.deltax = if self.deltax > -PUPIL_X_BOUND {
                        self.deltax - 1
                    } else {
                        -PUPIL_X_BOUND
                    };
                    self.deltay = 0;
                },
                Direction::Right => {
                    self.deltax = if self.deltax < PUPIL_X_BOUND {
                        self.deltax + 1
                    } else {
                        PUPIL_X_BOUND
                    };
                    self.deltay = 0;
                },
                Direction::Up => {
                    self.deltay = if self.deltay < PUPIL_Y_BOUND {
                        self.deltay + 1
                    } else {
                        PUPIL_Y_BOUND
                    };
                    self.deltax = 0;
                },
                Direction::Down => {
                    self.deltay = if self.deltay > -PUPIL_Y_BOUND {
                        self.deltay - 1
                    } else {
                        -PUPIL_Y_BOUND
                    };
                    self.deltax = 0;
                },
            }
            self.anger = if (self.anger as u32) + (ANGER_STEP as u32) < 255 {
                self.anger + ANGER_STEP
            } else {
                255
            };
        } else {
            self.deltax = sample_range(-JITTER_BOUND, JITTER_BOUND + 1);
            self.deltay = sample_range(-JITTER_BOUND, JITTER_BOUND + 1);
            self.anger = if self.anger > ANGER_STEP {
                self.anger - ANGER_STEP
            } else {
                0
            };
        }
    }
}

/// Whether `o` is the distance/match pair of some obstacle in `tiles` for an
/// eye at `(ex, ey)` scanning toward `d`.
pub open spec fn pass_witnessed(
    ex: int,
    ey: int,
    c: Color,
    d: Direction,
    tiles: Seq<Tile>,
    p: (int, bool),
) -> bool {
    exists|i: int|
        0 <= i < tiles.len() && is_candidate(ex, ey, d, #[trigger] tiles[i]) && cand_dist(
            ex,
            ey,
            d,
            tiles[i],
        ) == p.0 && color_match(tiles[i], c) == p.1
}

proof fn lemma_pass_fold_nearest(
    ex: int,
    ey: int,
    c: Color,
    d: Direction,
    tiles: Seq<Tile>,
    acc: Option<(int, bool)>,
)
    ensures
        ({
            let r = pass_fold(ex, ey, c, d, tiles, acc);
            &&& (r is None <==> (acc is None && (forall|i: int|
                0 <= i < tiles.len() ==> !is_candidate(ex, ey, d, #[trigger] tiles[i]))))
            &&& (match r {
                Some(p) => {
                    &&& (forall|i: int|
                        0 <= i < tiles.len() && is_candidate(ex, ey, d, #[trigger] tiles[i])
                            ==> cand_dist(ex, ey, d, tiles[i]) >= p.0)
                    &&& (acc == r || pass_witnessed(ex, ey, c, d, tiles, p))
                    &&& (match acc {
                        Some(a) => p.0 <= a.0,
                        None => true,
                    })
                },
                None => true,
            })
        }),
    decreases tiles.len(),
{
    if tiles.len() == 0 {
    } else {
        let t = tiles[0];
        let improves = match acc {
            None => true,
            Some(p) => cand_dist(ex, ey, d, t) < p.0,
        };
        let acc2 = if is_candidate(ex, ey, d, t) && improves {
            Some((cand_dist(ex, ey, d, t), color_match(t, c)))
        } else {
            acc
        };
        lemma_pass_fold_nearest(ex, ey, c, d, tiles.skip(1), acc2);
        assert forall|i: int| 1 <= i < tiles.len() implies tiles.skip(1)[i - 1] == tiles[i] by {}
        let r = pass_fold(ex, ey, c, d, tiles, acc);
        match r {
            Some(p) => {
                if acc2 == Some::<(int, bool)>(p) && acc != Some::<(int, bool)>(p) {
                    assert(is_candidate(ex, ey, d, tiles[0]));
                    assert(pass_witnessed(ex, ey, c, d, tiles, p));
                } else if acc2 != Some::<(int, bool)>(p) {
                    assert(pass_witnessed(ex, ey, c, d, tiles.skip(1), p));
                    let j = choose|j: int|
                        0 <= j < tiles.skip(1).len() && is_candidate(
                            ex,
                            ey,
                            d,
                            #[trigger] tiles.skip(1)[j],
                        ) && cand_dist(ex, ey, d, tiles.skip(1)[j]) == p.0 && color_match(
                            tiles.skip(1)[j],
                            c,
                        ) == p.1;
                    assert(tiles.skip(1)[j] == tiles[j + 1]);
                    assert(pass_witnessed(ex, ey, c, d, tiles, p));
                }
            },
            None => {},
        }
    }
}

/// LAW (nearest obstacle): a directional scan returns nothing exactly when no
/// solid tile lies on that side of the sight line; and when it returns a
/// distance/match pair, some obstacle stands at exactly that distance, no
/// obstacle stands closer, and the match flag is that obstacle's.
pub proof fn lemma_scan_pass_nearest(ex: int, ey: int, c: Color, d: Direction, tiles: Seq<Tile>)
    ensures
        (scan_pass(ex, ey, c, d, tiles) is None <==> (forall|i: int|
            0 <= i < tiles.len() ==> !is_candidate(ex, ey, d, #[trigger] tiles[i]))),
        (match scan_pass(ex, ey, c, d, tiles) {
            Some(p) => pass_witnessed(ex, ey, c, d, tiles, p) && (forall|i: int|
                0 <= i < tiles.len() && is_candidate(ex, ey, d, #[trigger] tiles[i]) ==> cand_dist(
                    ex,
                    ey,
                    d,
                    tiles[i],
                ) >= p.0),
            None => true,
        }),
{
    lemma_pass_fold_nearest(ex, ey, c, d, tiles, None);
}

/// LAW (solve determinism): the sight-and-solve decision depends only on the
/// tile layout and the eye's position and color; feeding the facing it
/// produced back in, as the next frame does, changes nothing. With the tiles
/// fixed, repeated updates therefore keep reporting one direction and one
/// solved state.
pub proof fn lemma_eye_scan_deterministic(
    ex: int,
    ey: int,
    c: Color,
    d0: Direction,
    tiles: Seq<Tile>,
)
    ensures
        ({
            let (d1, s1) = scan_result(ex, ey, c, d0, tiles);
            let (d2, s2) = scan_result(ex, ey, c, d1, tiles);
            d2 == d1 && s2 == s1
        }),
{
}

/// LAW (solved means a nearest matching block): whenever the scan solves the
/// eye facing `d`, the directional scan toward `d` found an obstacle, some
/// obstacle of `tiles` stands at exactly that distance with a matching block
/// there, and no obstacle on that side stands closer.
pub proof fn lemma_solved_has_nearest_matching_block(
    ex: int,
    ey: int,
    c: Color,
    d0: Direction,
    tiles: Seq<Tile>,
)
    ensures
        ({
            let (d, s) = scan_result(ex, ey, c, d0, tiles);
            s ==> match scan_pass(ex, ey, c, d, tiles) {
                Some(p) => p.1 && pass_witnessed(ex, ey, c, d, tiles, p) && (forall|i: int|
                    0 <= i < tiles.len() && is_candidate(ex, ey, d, #[trigger] tiles[i])
                        ==> cand_dist(ex, ey, d, tiles[i]) >= p.0),
                None => false,
            }
        }),
{
    lemma_scan_pass_nearest(ex, ey, c, Direction::Left, tiles);
    lemma_scan_pass_nearest(ex, ey, c, Direction::Right, tiles);
    lemma_scan_pass_nearest(ex, ey, c, Direction::Up, tiles);
    lemma_scan_pass_nearest(ex, ey, c, Direction::Down, tiles);
}

/// LAW (direction priority): left strictly dominates. If the nearest obstacle
/// to the left is a block of the eye's color, the eye solves facing left, no
/// matter what stands in the other three directions.
pub proof fn lemma_left_priority(ex: int, ey: int, c: Color, d0: Direction, tiles: Seq<Tile>)
    requires
        match scan_pass(ex, ey, c, Direction::Left, tiles) {
            Some(p) => p.1,
            None => false,
        },
    ensures
        scan_result(ex, ey, c, d0, tiles) == (Direction::Left, true),
{
}

} // verus!
