//! Player–tile collision resolution. The X axis resolves fully before the Y
//! axis: the player's accumulated velocity on one axis is applied as a single
//! impulse, every solid tile is tested against the cropped player hitbox, a
//! touched block either depletes its push resistance or, once the resistance
//! is spent, commits a one-tile push, and the player is clamped flush against
//! whatever it hit. Velocity on the axis is then zeroed.

use vstd::prelude::*;

use crate::COORD_LIMIT;
use crate::VEL_LIMIT;
use crate::player::Player;
use crate::tile::FULL_RESISTANCE;
use crate::tile::Tile;

verus! {

/// The player's hitbox is cropped this much at the top so tall sprites do
/// not block the visual head area.
pub const HITBOX_CROP: i32 = 25;

/// Resistance a touched block loses per frame of continuous contact.
pub const RESISTANCE_DEPLETION: u32 = 1;

/// Strict overlap between the player's cropped hitbox and a tile's box.
pub open spec fn player_tile_overlap(p: Player, t: Tile) -> bool {
    &&& p.x < t.x + t.width
    &&& p.x + p.width > t.x
    &&& p.y + HITBOX_CROP < t.y + t.height
    &&& p.y + p.height > t.y
}

pub fn does_intersect(player: &Player, tile: &Tile) -> (r: bool)
    requires
        -COORD_LIMIT - 2 * VEL_LIMIT <= player.x <= COORD_LIMIT + 2 * VEL_LIMIT,
        -COORD_LIMIT - 2 * VEL_LIMIT <= player.y <= COORD_LIMIT + 2 * VEL_LIMIT,
        player.width <= 4096,
        player.height <= 4096,
        tile_near_wf(*tile),
    ensures
        r == player_tile_overlap(*player, *tile),
{
    (player.x < tile.x + tile.width as i32)
        && (player.x + player.width as i32 > tile.x)
        && (player.y + HITBOX_CROP < tile.y + tile.height as i32)
        && (player.y + player.height as i32 > tile.y)
}

/// The push direction sign: opposite the player's velocity on the axis.
pub open spec fn push_dir(vel: int) -> int {
    if vel > 0 {
        -1
    } else {
        1
    }
}

/// What one solid tile does to the player on the X axis, and what the player
/// does to it: no contact refills the tile's resistance; contact with a
/// resting block either depletes the resistance or, at zero, commits a
/// one-tile push; and the player is clamped flush against the tile.
pub open spec fn collide_x_tile(p: Player, t: Tile) -> (Player, Tile) {
    if !(t.isblock || t.iswall) {
        (p, t)
    } else if player_tile_overlap(p, t) {
        let dir = push_dir(p.velx as int);
        let t2 = if t.isblock && !t.moving {
            if t.resistance == 0 {
                Tile { targetx: (t.x - dir * t.width) as i32, resistance: FULL_RESISTANCE, ..t }
            } else {
                Tile { resistance: (t.resistance - RESISTANCE_DEPLETION) as u32, ..t }
            }
        } else {
            t
        };
        let p2 = Player {
            x: if dir == 1 {
                (t.x + t.width) as i32
            } else {
                (t.x - p.width) as i32
            },
            ..p
        };
        (p2, t2)
    } else {
        (p, Tile { resistance: FULL_RESISTANCE, ..t })
    }
}

/// The Y-axis counterpart of `collide_x_tile`; the clamp below a tile leaves
/// the cropped head area overlapping, as the hitbox crop intends.
pub open spec fn collide_y_tile(p: Player, t: Tile) -> (Player, Tile) {
    if !(t.isblock || t.iswall) {
        (p, t)
    } else if player_tile_overlap(p, t) {
        let dir = push_dir(p.vely as int);
        let t2 = if t.isblock && !t.moving {
            if t.resistance == 0 {
                Tile { targety: (t.y - dir * t.height) as i32, resistance: FULL_RESISTANCE, ..t }
            } else {
                Tile { resistance: (t.resistance - RESISTANCE_DEPLETION) as u32, ..t }
            }
        } else {
            t
        };
        let p2 = Player {
            y: if dir == 1 {
                (t.y + t.height - HITBOX_CROP) as i32
            } else {
                (t.y - p.height) as i32
            },
            ..p
        };
        (p2, t2)
    } else {
        (p, Tile { resistance: FULL_RESISTANCE, ..t })
    }
}

/// Fold `collide_x_tile` over the tile list in order.
pub open spec fn phys_x_fold(p: Player, tiles: Seq<Tile>) -> (Player, Seq<Tile>)
    decreases tiles.len(),
{
    if tiles.len() == 0 {
        (p, Seq::empty())
    } else {
        let pt = collide_x_tile(p, tiles[0]);
        let rest = phys_x_fold(pt.0, tiles.skip(1));
        (rest.0, seq![pt.1] + rest.1)
    }
}

pub open spec fn phys_y_fold(p: Player, tiles: Seq<Tile>) -> (Player, Seq<Tile>)
    decreases tiles.len(),
{
    if tiles.len() == 0 {
        (p, Seq::empty())
    } else {
        let pt = collide_y_tile(p, tiles[0]);
        let rest = phys_y_fold(pt.0, tiles.skip(1));
        (rest.0, seq![pt.1] + rest.1)
    }
}

/// One whole X-axis resolution: with no horizontal velocity nothing happens;
/// otherwise the velocity is applied as one impulse, every tile is folded
/// through `collide_x_tile`, and the velocity is zeroed.
pub open spec fn phys_x_pass(p: Player, tiles: Seq<Tile>) -> (Player, Seq<Tile>) {
    if p.velx == 0 {
        (p, tiles)
    } else {
        let moved = Player { x: (p.x + p.velx) as i32, ..p };
        let r = phys_x_fold(moved, tiles);
        (Player { velx: 0, ..r.0 }, r.1)
    }
}

pub open spec fn phys_y_pass(p: Player, tiles: Seq<Tile>) -> (Player, Seq<Tile>) {
    if p.vely == 0 {
        (p, tiles)
    } else {
        let moved = Player { y: (p.y + p.vely) as i32, ..p };
        let r = phys_y_fold(moved, tiles);
        (Player { vely: 0, ..r.0 }, r.1)
    }
}

/// Both axes in order: X fully, then Y on the X-resolved state. This fixed
/// order is what lets a diagonal move slide along a wall instead of
/// tunneling through a corner.
pub open spec fn phys_step(p: Player, tiles: Seq<Tile>) -> (Player, Seq<Tile>) {
    let rx = phys_x_pass(p, tiles);
    phys_y_pass(rx.0, rx.1)
}

/// Coordinates the player can reach within one resolved frame: the world
/// bound widened by one velocity impulse or one clamp against a tile.
pub open spec fn player_pos_near(c: int) -> bool {
    -COORD_LIMIT - 2 * VEL_LIMIT <= c <= COORD_LIMIT + 2 * VEL_LIMIT
}

/// Tile coordinates one frame of pushing can produce: targets may stand one
/// tile size beyond the world bound.
pub open spec fn tile_near_wf(t: Tile) -> bool {
    &&& !(t.iswall && t.isblock)
    &&& 0 < t.width <= 4096
    &&& 0 < t.height <= 4096
    &&& -COORD_LIMIT <= t.x <= COORD_LIMIT
    &&& -COORD_LIMIT <= t.y <= COORD_LIMIT
    &&& -COORD_LIMIT - 4096 <= t.targetx <= COORD_LIMIT + 4096
    &&& -COORD_LIMIT - 4096 <= t.targety <= COORD_LIMIT + 4096
}

fn handle_collision_x(player: &mut Player, tiles: &mut Vec<Tile>)
    requires
        old(player).wf(),
        -VEL_LIMIT <= old(player).velx <= VEL_LIMIT,
        forall|i: int| 0 <= i < old(tiles)@.len() ==> (#[trigger] old(tiles)@[i]).wf(),
    ensures
        ({
            let r = phys_x_pass(*old(player), old(tiles)@);
            (*final(player)) == r.0 && final(tiles)@ == r.1
        }),
        player_pos_near(final(player).x as int),
        final(player).y == old(player).y,
        final(player).vely == old(player).vely,
        final(player).width == old(player).width,
        final(player).height == old(player).height,
        final(player).frame == old(player).frame,
        final(player).delay == old(player).delay,
        final(player).active_animation == old(player).active_animation,
        forall|i: int| 0 <= i < final(tiles)@.len() ==> tile_near_wf(#[trigger] final(tiles)@[i]),
{
    assert forall|i: int|
        0 <= i < old(tiles)@.len() implies tile_near_wf(#[trigger] old(tiles)@[i]) by {}
    if player.velx == 0 {
        return ;
    }
    let velx = player.velx;
    player.x = player.x + velx;
    let ghost moved = *player;
    let ghost fold_result = phys_x_fold(moved, old(tiles)@);
    proof {
        lemma_phys_x_fold_len(moved, old(tiles)@);
    }
    assert(old(tiles)@.skip(0) =~= old(tiles)@);
    assert(fold_result.1.skip(0) =~= fold_result.1);
    let mut i: usize = 0;
    while i < tiles.len()
        invariant
            0 <= i <= tiles@.len(),
            tiles@.len() == old(tiles)@.len(),
            fold_result == phys_x_fold(moved, old(tiles)@),
            fold_result.1.len() == old(tiles)@.len(),
            player.velx == velx,
            velx != 0,
            -VEL_LIMIT <= velx <= VEL_LIMIT,
            player.vely == old(player).vely,
            player.y == old(player).y,
            -COORD_LIMIT <= player.y <= COORD_LIMIT,
            player.width == old(player).width,
            player.height == old(player).height,
            player.delay == old(player).delay,
            player.frame == old(player).frame,
            player.active_animation == old(player).active_animation,
            player.width <= 4096,
            player.height <= 4096,
            player_pos_near(player.x as int),
            forall|j: int| i <= j < tiles@.len() ==> tiles@[j] == old(tiles)@[j],
            forall|j: int| 0 <= j < i ==> tiles@[j] == fold_result.1[j],
            forall|j: int| 0 <= j < tiles@.len() ==> tile_near_wf(#[trigger] tiles@[j]),
            ({
                let r = phys_x_fold(*player, old(tiles)@.skip(i as int));
                r.0 == fold_result.0 && r.1 == fold_result.1.skip(i as int)
            }),
        decreases tiles@.len() - i,
    {
        assert(old(tiles)@.skip(i as int)[0] == old(tiles)@[i as int]);
        assert(old(tiles)@.skip(i as int).skip(1) =~= old(tiles)@.skip(i as int + 1));
        let ghost pt = collide_x_tile(*player, old(tiles)@[i as int]);
        assert(fold_result.1.skip(i as int) == seq![pt.1] + phys_x_fold(
            pt.0,
            old(tiles)@.skip(i as int + 1),
        ).1);
        assert(fold_result.1[i as int] == (seq![pt.1] + phys_x_fold(
            pt.0,
            old(tiles)@.skip(i as int + 1),
        ).1)[0]);
        assert(fold_result.1.skip(i as int).skip(1) =~= fold_result.1.skip(i as int + 1));
        assert((seq![pt.1] + phys_x_fold(pt.0, old(tiles)@.skip(i as int + 1)).1).skip(1)
            =~= phys_x_fold(pt.0, old(tiles)@.skip(i as int + 1)).1);

        let solid = tiles[i].isblock || tiles[i].iswall;
        if solid {
            if does_intersect(player, &tiles[i]) {
                let dir: i32 = if velx > 0 {
                    -1
                } else {
                    1
                };
                if tiles[i].isblock && !tiles[i].moving {
                    if tiles[i].resistance == 0 {
                        let tw = tiles[i].width as i32;
                        if dir == 1 {
                            tiles[i].targetx = tiles[i].x - tw;
                        } else {
                            tiles[i].targetx = tiles[i].x + tw;
                        }
                        tiles[i].resistance = FULL_RESISTANCE;
                    } else {
                        tiles[i].resistance = tiles[i].resistance - RESISTANCE_DEPLETION;
                    }
                }
                if dir == 1 {
                    player.x = tiles[i].x + tiles[i].width as i32;
                } else {
                    player.x = tiles[i].x - player.width as i32;
                }
            } else {
                tiles[i].resistance = FULL_RESISTANCE;
            }
        }
        i = i + 1;
    }
    assert(old(tiles)@.skip(tiles@.len() as int) =~= Seq::<Tile>::empty());
    assert(fold_result.1.skip(tiles@.len() as int) =~= Seq::<Tile>::empty());
    assert(tiles@ =~= fold_result.1);
    player.velx = 0;
}

proof fn lemma_phys_x_fold_len(p: Player, tiles: Seq<Tile>)
    ensures
        phys_x_fold(p, tiles).1.len() == tiles.len(),
    decreases tiles.len(),
{
    if tiles.len() > 0 {
        lemma_phys_x_fold_len(collide_x_tile(p, tiles[0]).0, tiles.skip(1));
    }
}

fn handle_collision_y(player: &mut Player, tiles: &mut Vec<Tile>)
    requires
        old(player).width <= 4096,
        old(player).height <= 4096,
        player_pos_near(old(player).x as int),
        -COORD_LIMIT <= old(player).y <= COORD_LIMIT,
        -VEL_LIMIT <= old(player).vely <= VEL_LIMIT,
        forall|i: int| 0 <= i < old(tiles)@.len() ==> tile_near_wf(#[trigger] old(tiles)@[i]),
    ensures
        ({
            let r = phys_y_pass(*old(player), old(tiles)@);
            (*final(player)) == r.0 && final(tiles)@ == r.1
        }),
        player_pos_near(final(player).y as int),
        final(player).x == old(player).x,
        final(player).velx == old(player).velx,
        final(player).width == old(player).width,
        final(player).height == old(player).height,
        final(player).frame == old(player).frame,
        final(player).delay == old(player).delay,
        final(player).active_animation == old(player).active_animation,
        forall|i: int| 0 <= i < final(tiles)@.len() ==> tile_near_wf(#[trigger] final(tiles)@[i]),
{
    if player.vely == 0 {
        return ;
    }
    let vely = player.vely;
    player.y = player.y + vely;
    let ghost moved = *player;
    let ghost fold_result = phys_y_fold(moved, old(tiles)@);
    proof {
        lemma_phys_y_fold_len(moved, old(tiles)@);
    }
    assert(old(tiles)@.skip(0) =~= old(tiles)@);
    assert(fold_result.1.skip(0) =~= fold_result.1);
    let mut i: usize = 0;
    while i < tiles.len()
        invariant
            0 <= i <= tiles@.len(),
            tiles@.len() == old(tiles)@.len(),
            fold_result == phys_y_fold(moved, old(tiles)@),
            fold_result.1.len() == old(tiles)@.len(),
            player.vely == vely,
            vely != 0,
            -VEL_LIMIT <= vely <= VEL_LIMIT,
            player.velx == old(player).velx,
            player.x == old(player).x,
            player_pos_near(player.x as int),
            player.width == old(player).width,
            player.height == old(player).height,
            player.delay == old(player).delay,
            player.frame == old(player).frame,
            player.active_animation == old(player).active_animation,
            player.width <= 4096,
            player.height <= 4096,
            player_pos_near(player.y as int),
            forall|j: int| i <= j < tiles@.len() ==> tiles@[j] == old(tiles)@[j],
            forall|j: int| 0 <= j < i ==> tiles@[j] == fold_result.1[j],
            forall|j: int| 0 <= j < tiles@.len() ==> tile_near_wf(#[trigger] tiles@[j]),
            ({
                let r = phys_y_fold(*player, old(tiles)@.skip(i as int));
                r.0 == fold_result.0 && r.1 == fold_result.1.skip(i as int)
            }),
        decreases tiles@.len() - i,
    {
        assert(old(tiles)@.skip(i as int)[0] == old(tiles)@[i as int]);
        assert(old(tiles)@.skip(i as int).skip(1) =~= old(tiles)@.skip(i as int + 1));
        let ghost pt = collide_y_tile(*player, old(tiles)@[i as int]);
        assert(fold_result.1.skip(i as int) == seq![pt.1] + phys_y_fold(
            pt.0,
            old(tiles)@.skip(i as int + 1),
        ).1);
        assert(fold_result.1[i as int] == (seq![pt.1] + phys_y_fold(
            pt.0,
            old(tiles)@.skip(i as int + 1),
        ).1)[0]);
        assert(fold_result.1.skip(i as int).skip(1) =~= fold_result.1.skip(i as int + 1));
        assert((seq![pt.1] + phys_y_fold(pt.0, old(tiles)@.skip(i as int + 1)).1).skip(1)
            =~= phys_y_fold(pt.0, old(tiles)@.skip(i as int + 1)).1);

        let solid = tiles[i].isblock || tiles[i].iswall;
        if solid {
            if does_intersect(player, &tiles[i]) {
                let dir: i32 = if vely > 0 {
                    -1
                } else {
                    1
                };
                if tiles[i].isblock && !tiles[i].moving {
                    if tiles[i].resistance == 0 {
                        let th = tiles[i].height as i32;
                        if dir == 1 {
                            tiles[i].targety = tiles[i].y - th;
                        } else {
                            tiles[i].targety = tiles[i].y + th;
                        }
                        tiles[i].resistance = FULL_RESISTANCE;
                    } else {
                        tiles[i].resistance = tiles[i].resistance - RESISTANCE_DEPLETION;
                    }
                }
                if dir == 1 {
                    player.y = tiles[i].y + tiles[i].height as i32 - HITBOX_CROP;
                } else {
                    player.y = tiles[i].y - player.height as i32;
                }
            } else {
                tiles[i].resistance = FULL_RESISTANCE;
            }
        }
        i = i + 1;
    }
    assert(old(tiles)@.skip(tiles@.len() as int) =~= Seq::<Tile>::empty());
    assert(fold_result.1.skip(tiles@.len() as int) =~= Seq::<Tile>::empty());
    assert(tiles@ =~= fold_result.1);
    player.vely = 0;
}

proof fn lemma_phys_y_fold_len(p: Player, tiles: Seq<Tile>)
    ensures
        phys_y_fold(p, tiles).1.len() == tiles.len(),
    decreases tiles.len(),
{
    if tiles.len() > 0 {
        lemma_phys_y_fold_len(collide_y_tile(p, tiles[0]).0, tiles.skip(1));
    }
}

/// Resolve the player's accumulated velocity against the tiles: the X axis
/// fully, then the Y axis, as `phys_step` describes. Both velocity
/// components are zero afterwards wherever they were applied.
pub fn handle_collisions(player: &mut Player, tiles: &mut Vec<Tile>)
    requires
        old(player).wf(),
        -VEL_LIMIT <= old(player).velx <= VEL_LIMIT,
        -VEL_LIMIT <= old(player).vely <= VEL_LIMIT,
        forall|i: int| 0 <= i < old(tiles)@.len() ==> (#[trigger] old(tiles)@[i]).wf(),
    ensures
        ({
            let r = phys_step(*old(player), old(tiles)@);
            (*final(player)) == r.0 && final(tiles)@ == r.1
        }),
        player_pos_near(final(player).x as int),
        player_pos_near(final(player).y as int),
        final(player).width == old(player).width,
        final(player).height == old(player).height,
        final(player).frame == old(player).frame,
        final(player).delay == old(player).delay,
        final(player).active_animation == old(player).active_animation,
        forall|i: int| 0 <= i < final(tiles)@.len() ==> tile_near_wf(#[trigger] final(tiles)@[i]),
{
    assert forall|i: int|
        0 <= i < old(tiles)@.len() implies tile_near_wf(#[trigger] old(tiles)@[i]) by {}
    handle_collision_x(player, tiles);
    handle_collision_y(player, tiles);
}

/// One frame of a player leaning on a resting block: what `collide_x_tile`
/// does to the block while the overlap holds.
pub open spec fn contact_step(t: Tile, velx: int) -> Tile {
    if t.resistance == 0 {
        Tile {
            targetx: (t.x - push_dir(velx) * t.width) as i32,
            resistance: FULL_RESISTANCE,
            ..t
        }
    } else {
        Tile { resistance: (t.resistance - RESISTANCE_DEPLETION) as u32, ..t }
    }
}

/// `n` consecutive frames of continuous contact.
pub open spec fn contact_frames(t: Tile, velx: int, n: nat) -> Tile
    decreases n,
{
    if n == 0 {
        t
    } else {
        contact_step(contact_frames(t, velx, (n - 1) as nat), velx)
    }
}

/// LAW (push commit threshold): a block at full resistance pushed with a
/// constant per-frame depletion does not move or retarget during the first
/// `FULL_RESISTANCE / RESISTANCE_DEPLETION` contact frames, and on the very
/// next frame commits exactly one displacement of one tile width, with its
/// resistance refilled.
pub proof fn lemma_push_commit_threshold(t: Tile, velx: int, n: nat)
    requires
        tile_near_wf(t),
        t.resistance == FULL_RESISTANCE,
        n <= FULL_RESISTANCE / RESISTANCE_DEPLETION,
    ensures
        contact_frames(t, velx, n).x == t.x,
        contact_frames(t, velx, n).y == t.y,
        contact_frames(t, velx, n).targetx == t.targetx,
        contact_frames(t, velx, n).targety == t.targety,
        contact_frames(t, velx, n).resistance == FULL_RESISTANCE - n * RESISTANCE_DEPLETION,
        ({
            let committed = contact_frames(t, velx, (FULL_RESISTANCE / RESISTANCE_DEPLETION + 1) as nat);
            &&& committed.targetx == t.x - push_dir(velx) * t.width
            &&& committed.x == t.x
            &&& committed.resistance == FULL_RESISTANCE
        }),
    decreases n,
{
    if n > 0 {
        lemma_push_commit_threshold(t, velx, (n - 1) as nat);
    } else {
        lemma_push_commit_threshold_commit(t, velx);
    }
}

proof fn lemma_push_commit_threshold_commit(t: Tile, velx: int)
    requires
        tile_near_wf(t),
        t.resistance == FULL_RESISTANCE,
    ensures
        ({
            let committed = contact_frames(t, velx, (FULL_RESISTANCE / RESISTANCE_DEPLETION + 1) as nat);
            &&& committed.targetx == t.x - push_dir(velx) * t.width
            &&& committed.x == t.x
            &&& committed.resistance == FULL_RESISTANCE
        }),
{
    let steps = (FULL_RESISTANCE / RESISTANCE_DEPLETION) as nat;
    lemma_contact_frames_deplete(t, velx, steps);
    let depleted = contact_frames(t, velx, steps);
    assert(depleted.resistance == 0);
    assert(contact_frames(t, velx, (steps + 1) as nat) == contact_step(depleted, velx));
    let dir = push_dir(velx);
    if dir == 1 {
        assert(dir * t.width == t.width);
    } else {
        assert(dir == -1);
        assert(dir * t.width == -(t.width as int)) by (nonlinear_arith)
            requires
                dir == -1,
        ;
    }
    assert(i32::MIN <= t.x - dir * t.width <= i32::MAX);
}

proof fn lemma_contact_frames_deplete(t: Tile, velx: int, n: nat)
    requires
        t.resistance == FULL_RESISTANCE,
        n <= FULL_RESISTANCE / RESISTANCE_DEPLETION,
    ensures
        contact_frames(t, velx, n).x == t.x,
        contact_frames(t, velx, n).y == t.y,
        contact_frames(t, velx, n).targetx == t.targetx,
        contact_frames(t, velx, n).targety == t.targety,
        contact_frames(t, velx, n).width == t.width,
        contact_frames(t, velx, n).resistance == FULL_RESISTANCE - n * RESISTANCE_DEPLETION,
    decreases n,
{
    if n > 0 {
        lemma_contact_frames_deplete(t, velx, (n - 1) as nat);
    }
}

} // verus!
