//! The player avatar: per-tick velocity accumulation from the held direction
//! keys, with opposing keys cancelling, and the walk/idle animation state
//! machine driven by a fixed frame timer.

use vstd::prelude::*;

use crate::COORD_LIMIT;
use crate::VEL_LIMIT;
use crate::coord_ok;
use crate::eye::Direction;

verus! {

pub const PLAYER_WIDTH: u32 = 36;
pub const PLAYER_HEIGHT: u32 = 60;

/// Distance one held direction key adds to the player's velocity per tick.
pub const PLAYER_SPEED: i32 = 3;

/// Ticks between animation frames.
pub const ANIM_DELAY: i32 = 15;

#[derive(Clone, Copy, PartialEq, Eq, Structural, Debug)]
pub enum Animation {
    Walk(Direction),
    Idle(Direction),
}

impl Animation {
    /// Walk cycles have four frames; idle poses have one.
    pub open spec fn spec_frame_count(self) -> int {
        match self {
            Animation::Walk(_) => 4,
            Animation::Idle(_) => 1,
        }
    }

    pub fn frame_count(&self) -> (r: i32)
        ensures
            r == self.spec_frame_count(),
    {
        match self {
            Animation::Walk(_) => 4,
            Animation::Idle(_) => 1,
        }
    }
}

/// The four direction keys as held this tick.
#[derive(Clone, Copy, PartialEq, Eq, Structural, Debug)]
pub struct MoveInput {
    pub left: bool,
    pub right: bool,
    pub up: bool,
    pub down: bool,
}

/// Opposing keys cancel: a direction only acts when its opposite is not held.
pub open spec fn active_left(inp: MoveInput) -> bool {
    inp.left && !inp.right
}

pub open spec fn active_right(inp: MoveInput) -> bool {
    inp.right && !inp.left
}

pub open spec fn active_up(inp: MoveInput) -> bool {
    inp.up && !inp.down
}

pub open spec fn active_down(inp: MoveInput) -> bool {
    inp.down && !inp.up
}

pub open spec fn any_direction_active(inp: MoveInput) -> bool {
    active_left(inp) || active_right(inp) || active_up(inp) || active_down(inp)
}

/// Velocity gained on the horizontal axis this tick.
pub open spec fn vel_gain_x(inp: MoveInput) -> int {
    if active_left(inp) {
        -PLAYER_SPEED as int
    } else if active_right(inp) {
        PLAYER_SPEED as int
    } else {
        0
    }
}

/// Velocity gained on the vertical axis this tick.
pub open spec fn vel_gain_y(inp: MoveInput) -> int {
    if active_up(inp) {
        -PLAYER_SPEED as int
    } else if active_down(inp) {
        PLAYER_SPEED as int
    } else {
        0
    }
}

/// The animation the input selects: each active direction switches to its
/// walk cycle (vertical wins over horizontal when both act), and with no
/// active direction a walk becomes the idle pose of the same facing.
pub open spec fn anim_after_input(a: Animation, inp: MoveInput) -> Animation {
    let a1 = if active_left(inp) {
        Animation::Walk(Direction::Left)
    } else if active_right(inp) {
        Animation::Walk(Direction::Right)
    } else {
        a
    };
    let a2 = if active_up(inp) {
        Animation::Walk(Direction::Up)
    } else if active_down(inp) {
        Animation::Walk(Direction::Down)
    } else {
        a1
    };
    if !any_direction_active(inp) {
        match a2 {
            Animation::Walk(d) => Animation::Idle(d),
            Animation::Idle(d) => Animation::Idle(d),
        }
    } else {
        a2
    }
}

/// One tick of the frame timer: count down, and on reaching zero advance the
/// frame modulo the animation's frame count and rewind the timer.
pub open spec fn timer_step(frame: int, delay: int, count: int) -> (int, int) {
    if delay - 1 <= 0 {
        let f = frame + 1;
        if f >= count {
            (0, ANIM_DELAY as int)
        } else {
            (f, ANIM_DELAY as int)
        }
    } else {
        (frame, delay - 1)
    }
}

#[derive(Clone, Copy, PartialEq, Eq, Structural, Debug)]
pub struct Player {
    pub width: u32,
    pub height: u32,
    pub x: i32,
    pub y: i32,
    pub velx: i32,
    pub vely: i32,
    pub delay: i32,
    pub frame: i32,
    pub active_animation: Animation,
}

/// Everything one `Player::update` tick does: accumulate velocity, pick the
/// animation, reset frame and timer on an animation change, then run the
/// frame timer.
pub open spec fn player_step(p: Player, inp: MoveInput) -> Player {
    let anim = anim_after_input(p.active_animation, inp);
    let frame0: int = if anim != p.active_animation {
        0
    } else {
        p.frame as int
    };
    let delay0: int = if anim != p.active_animation {
        ANIM_DELAY as int
    } else {
        p.delay as int
    };
    let fd = timer_step(frame0, delay0, anim.spec_frame_count());
    Player {
        velx: (p.velx + vel_gain_x(inp)) as i32,
        vely: (p.vely + vel_gain_y(inp)) as i32,
        active_animation: anim,
        frame: fd.0 as i32,
        delay: fd.1 as i32,
        ..p
    }
}

impl Player {
    /// Position, animation frame and frame timer are all in their lanes.
    pub open spec fn wf(self) -> bool {
        &&& self.width == PLAYER_WIDTH
        &&& self.height == PLAYER_HEIGHT
        &&& coord_ok(self.x as int)
        &&& coord_ok(self.y as int)
        &&& 0 <= self.frame < self.active_animation.spec_frame_count()
        &&& 1 <= self.delay <= ANIM_DELAY
    }

    pub fn new() -> (p: Player)
        ensures
            p == (Player {
                width: PLAYER_WIDTH,
                height: PLAYER_HEIGHT,
                x: 0,
                y: 0,
                velx: 0,
                vely: 0,
                delay: ANIM_DELAY,
                frame: 0,
                active_animation: Animation::Walk(Direction::Down),
            }),
            p.wf(),
    {
        Player {
            width: PLAYER_WIDTH,
            height: PLAYER_HEIGHT,
            x: 0,
            y: 0,
            velx: 0,
            vely: 0,
            delay: ANIM_DELAY,
            frame: 0,
            active_animation: Animation::Walk(Direction::Down),
        }
    }

    /// One input tick, as `player_step` describes. Velocity only accumulates
    /// here; the physics pass consumes and zeroes it.
    pub fn update(&mut self, input: &MoveInput)
        requires
            old(self).wf(),
            -VEL_LIMIT <= old(self).velx <= VEL_LIMIT,
            -VEL_LIMIT <= old(self).vely <= VEL_LIMIT,
        ensures
            (*final(self)) == player_step(*old(self), *input),
            final(self).wf(),
    {
        let prev_anim = self.active_animation;
        if input.left && !input.right {
            self.velx = self.velx - PLAYER_SPEED;
            if self.active_animation != Animation::Walk(Direction::Left) {
                self.active_animation = Animation::Walk(Direction::Left);
            }
        } else if input.right && !input.left {
            self.velx = self.velx + PLAYER_SPEED;
            if self.active_animation != Animation::Walk(Direction::Right) {
                self.active_animation = Animation::Walk(Direction::Right);
            }
        }
        if input.up && !input.down {
            self.vely = self.vely - PLAYER_SPEED;
            if self.active_animation != Animation::Walk(Direction::Up) {
                self.active_animation = Animation::Walk(Direction::Up);
            }
        } else if input.down && !input.up {
            self.vely = self.vely + PLAYER_SPEED;
            if self.active_animation != Animation::Walk(Direction::Down) {
                self.active_animation = Animation::Walk(Direction::Down);
            }
        }
        if !((input.left && !input.right) || (input.right && !input.left) || (input.up
            && !input.down) || (input.down && !input.up)) {
            match self.active_animation {
                Animation::Walk(d) => {
                    self.active_animation = Animation::Idle(d);
                },
                Animation::Idle(_) => {},
            }
        }
        if self.active_animation != prev_anim {
            self.frame = 0;
            self.delay = ANIM_DELAY;
        }

        self.delay = self.delay - 1;
        if self.delay <= 0 {
            self.frame = self.frame + 1;
            if self.frame >= self.active_animation.frame_count() {
                self.frame = 0;
            }
            self.delay = ANIM_DELAY;
        }
    }

    /// Displace the player by a raw offset.
    pub fn move_player(&mut self, dx: i32, dy: i32)
        requires
            -COORD_LIMIT - 2 * VEL_LIMIT <= old(self).x + dx <= COORD_LIMIT + 2 * VEL_LIMIT,
            -COORD_LIMIT - 2 * VEL_LIMIT <= old(self).y + dy <= COORD_LIMIT + 2 * VEL_LIMIT,
            -COORD_LIMIT <= old(self).x <= COORD_LIMIT,
            -COORD_LIMIT <= old(self).y <= COORD_LIMIT,
        ensures
            (*final(self)) == (Player { x: (old(self).x + dx) as i32, y: (old(self).y + dy) as i32, ..*old(self) }),
    {
        self.x = self.x + dx;
        self.y = self.y + dy;
    }

    /// The player's box, as the renderer and the physics see it.
    pub fn get_bounding_box(&self) -> (r: Bounds)
        ensures
            r == (Bounds { x: self.x, y: self.y, width: self.width, height: self.height }),
    {
        Bounds { x: self.x, y: self.y, width: self.width, height: self.height }
    }
}

/// One cell of the player sprite sheet: all frames are 9 by 15.
pub open spec fn sheet_cell(x: i32, y: i32) -> Bounds {
    Bounds { x: x, y: y, width: 9, height: 15 }
}

/// The sprite-sheet source rectangles of one animation, in frame order: a
/// four-frame gait per walk direction (left and right share one strip,
/// mirrored at draw time) and a single pose per idle facing.
pub open spec fn spec_animation_frames(a: Animation) -> Seq<Bounds> {
    match a {
        Animation::Walk(Direction::Down) => seq![
            sheet_cell(18, 0),
            sheet_cell(9, 0),
            sheet_cell(27, 0),
            sheet_cell(9, 0),
        ],
        Animation::Walk(Direction::Up) => seq![
            sheet_cell(9, 15),
            sheet_cell(0, 15),
            sheet_cell(18, 15),
            sheet_cell(0, 15),
        ],
        Animation::Walk(Direction::Left) => seq![
            sheet_cell(9, 30),
            sheet_cell(0, 30),
            sheet_cell(18, 30),
            sheet_cell(0, 30),
        ],
        Animation::Walk(Direction::Right) => seq![
            sheet_cell(9, 30),
            sheet_cell(0, 30),
            sheet_cell(18, 30),
            sheet_cell(0, 30),
        ],
        Animation::Idle(Direction::Down) => seq![sheet_cell(0, 0)],
        Animation::Idle(Direction::Up) => seq![sheet_cell(0, 15)],
        Animation::Idle(Direction::Left) => seq![sheet_cell(27, 15)],
        Animation::Idle(Direction::Right) => seq![sheet_cell(27, 15)],
    }
}

/// LAW (frame table consistency): every animation's sprite strip holds
/// exactly as many frames as the frame timer cycles through.
pub proof fn lemma_animation_frames_count(a: Animation)
    ensures
        spec_animation_frames(a).len() == a.spec_frame_count(),
{
}

fn walk_strip(x1: i32, x2: i32, x3: i32, row: i32) -> (r: Vec<Bounds>)
    ensures
        r@ == seq![
            sheet_cell(x1, row),
            sheet_cell(x2, row),
            sheet_cell(x3, row),
            sheet_cell(x2, row),
        ],
{
    let mut r: Vec<Bounds> = Vec::new();
    r.push(Bounds { x: x1, y: row, width: 9, height: 15 });
    r.push(Bounds { x: x2, y: row, width: 9, height: 15 });
    r.push(Bounds { x: x3, y: row, width: 9, height: 15 });
    r.push(Bounds { x: x2, y: row, width: 9, height: 15 });
    assert(r@ =~= seq![
        sheet_cell(x1, row),
        sheet_cell(x2, row),
        sheet_cell(x3, row),
        sheet_cell(x2, row),
    ]);
    r
}

fn idle_pose(x: i32, row: i32) -> (r: Vec<Bounds>)
    ensures
        r@ == seq![sheet_cell(x, row)],
{
    let mut r: Vec<Bounds> = Vec::new();
    r.push(Bounds { x: x, y: row, width: 9, height: 15 });
    assert(r@ =~= seq![sheet_cell(x, row)]);
    r
}

impl Player {
    /// The player's full animation table: each animation paired with its
    /// sprite-sheet rectangles, as `spec_animation_frames` lists them.
    pub fn generate_animations() -> (r: Vec<(Animation, Vec<Bounds>)>)
        ensures
            r@.len() == 8,
            forall|i: int|
                0 <= i < r@.len() ==> (#[trigger] r@[i]).1@ == spec_animation_frames(r@[i].0),
            r@[0].0 == Animation::Walk(Direction::Up),
            r@[1].0 == Animation::Walk(Direction::Down),
            r@[2].0 == Animation::Walk(Direction::Left),
            r@[3].0 == Animation::Walk(Direction::Right),
            r@[4].0 == Animation::Idle(Direction::Up),
            r@[5].0 == Animation::Idle(Direction::Down),
            r@[6].0 == Animation::Idle(Direction::Left),
            r@[7].0 == Animation::Idle(Direction::Right),
    {
        let mut r: Vec<(Animation, Vec<Bounds>)> = Vec::new();
        r.push((Animation::Walk(Direction::Up), walk_strip(9, 0, 18, 15)));
        r.push((Animation::Walk(Direction::Down), walk_strip(18, 9, 27, 0)));
        r.push((Animation::Walk(Direction::Left), walk_strip(9, 0, 18, 30)));
        r.push((Animation::Walk(Direction::Right), walk_strip(9, 0, 18, 30)));
        r.push((Animation::Idle(Direction::Up), idle_pose(0, 15)));
        r.push((Animation::Idle(Direction::Down), idle_pose(0, 0)));
        r.push((Animation::Idle(Direction::Left), idle_pose(27, 15)));
        r.push((Animation::Idle(Direction::Right), idle_pose(27, 15)));
        r
    }
}

/// An axis-aligned box: origin and size.
#[derive(Clone, Copy, PartialEq, Eq, Structural, Debug)]
pub struct Bounds {
    pub x: i32,
    pub y: i32,
    pub width: u32,
    pub height: u32,
}

} // verus!
