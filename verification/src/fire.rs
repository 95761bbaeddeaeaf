//! Decorative torch flames: a two-frame animation on a fixed timer. The
//! starting frame is drawn from the random source, whose range here happens
//! to admit a single value.

use vstd::prelude::*;

use crate::coord_ok;
use crate::player::Bounds;
use crate::rng::sample_range;

verus! {

pub const FIRE_WIDTH: u32 = 24;
pub const FIRE_HEIGHT: u32 = 42;

/// Ticks between flame frames once burning.
pub const FIRE_DELAY: i32 = 5;

/// Ticks before the very first frame advance.
pub const FIRE_FIRST_DELAY: i32 = 10;

/// Frames in the flame animation.
pub const FIRE_FRAMES: i32 = 2;

#[derive(Clone, Copy, PartialEq, Eq, Structural, Debug)]
pub struct Fire {
    pub width: u32,
    pub height: u32,
    pub x: i32,
    pub y: i32,
    pub delay: i32,
    pub frame: i32,
}

/// One animation tick: count down, and on hitting zero advance the frame
/// modulo `FIRE_FRAMES` and rewind the timer.
pub open spec fn fire_step(f: Fire) -> Fire {
    if f.delay - 1 == 0 {
        Fire {
            delay: FIRE_DELAY,
            frame: if f.frame + 1 >= FIRE_FRAMES {
                0
            } else {
                (f.frame + 1) as i32
            },
            ..f
        }
    } else {
        Fire { delay: (f.delay - 1) as i32, ..f }
    }
}

impl Fire {
    pub open spec fn wf(self) -> bool {
        &&& self.width == FIRE_WIDTH
        &&& self.height == FIRE_HEIGHT
        &&& coord_ok(self.x as int)
        &&& coord_ok(self.y as int)
        &&& 1 <= self.delay <= FIRE_FIRST_DELAY
        &&& 0 <= self.frame < FIRE_FRAMES
    }

    pub fn new() -> (f: Fire)
        ensures
            f == (Fire {
                width: FIRE_WIDTH,
                height: FIRE_HEIGHT,
                x: 154,
                y: 410,
                delay: FIRE_FIRST_DELAY,
                frame: 1,
            }),
            f.wf(),
    {
        Fire {
            width: FIRE_WIDTH,
            height: FIRE_HEIGHT,
            x: 26 + 128,
            y: 26 + 64 * 6,
            delay: FIRE_FIRST_DELAY,
            frame: sample_range(1, 2),
        }
    }

    /// One animation tick, as `fire_step` describes.
    pub fn update(&mut self)
        requires
            old(self).wf(),
        ensures
            (*final(self)) == fire_step(*old(self)),
            final(self).wf(),
    {
        self.delay = self.delay - 1;
        if self.delay == 0 {
            self.frame = self.frame + 1;
            if self.frame >= FIRE_FRAMES {
                self.frame = 0;
            }
            self.delay = FIRE_DELAY;
        }
    }
}

/// The flame strip's sprite-sheet rectangles, in frame order.
pub open spec fn spec_flame_frames() -> Seq<Bounds> {
    seq![
        Bounds { x: 0, y: 0, width: 8, height: 14 },
        Bounds { x: 8, y: 0, width: 8, height: 14 },
    ]
}

/// The glow strip's sprite-sheet rectangles, in frame order.
pub open spec fn spec_glow_frames() -> Seq<Bounds> {
    seq![
        Bounds { x: 0, y: 0, width: 32, height: 32 },
        Bounds { x: 32, y: 0, width: 32, height: 32 },
    ]
}

impl Fire {
    /// The torch's two animation strips: the flame frames and the glow
    /// frames, both two frames long like the timer expects.
    pub fn generate_animations() -> (r: (Vec<Bounds>, Vec<Bounds>))
        ensures
            r.0@ == spec_flame_frames(),
            r.1@ == spec_glow_frames(),
            r.0@.len() == FIRE_FRAMES,
            r.1@.len() == FIRE_FRAMES,
    {
        let mut flame: Vec<Bounds> = Vec::new();
        flame.push(Bounds { x: 0, y: 0, width: 8, height: 14 });
        flame.push(Bounds { x: 8, y: 0, width: 8, height: 14 });
        assert(flame@ =~= spec_flame_frames());
        let mut glow: Vec<Bounds> = Vec::new();
        glow.push(Bounds { x: 0, y: 0, width: 32, height: 32 });
        glow.push(Bounds { x: 32, y: 0, width: 32, height: 32 });
        assert(glow@ =~= spec_glow_frames());
        (flame, glow)
    }
}

} // verus!
