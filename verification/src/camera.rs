//! Camera framing: a screen-sized viewport centered on a focus point.

use vstd::prelude::*;

use crate::COORD_LIMIT;
use crate::VEL_LIMIT;

verus! {

pub struct Camera {
    pub x: i32,
    pub y: i32,
    pub width: i32,
    pub height: i32,
    pub minx: i32,
    pub miny: i32,
    pub maxx: i32,
    pub maxy: i32,
}

impl Camera {
    /// The camera a fresh screen starts with.
    pub open spec fn spec_new() -> Camera {
        Camera {
            x: 0,
            y: 0,
            width: 0,
            height: 0,
            minx: (-10000) as i32,
            miny: (-10000) as i32,
            maxx: 10000,
            maxy: 10000,
        }
    }

    pub fn new() -> (c: Camera)
        ensures
            c == Camera::spec_new(),
    {
        Camera {
            x: 0,
            y: 0,
            width: 0,
            height: 0,
            minx: -10000,
            miny: -10000,
            maxx: 10000,
            maxy: 10000,
        }
    }

    /// Visibility culling is disabled: everything is reported visible.
    pub fn is_object_visible(&mut self, x: i32, y: i32, width: u32, height: u32) -> (r: bool)
        ensures
            r == true,
            (*final(self)) == (*old(self)),
    {
        let _ = (x, y, width, height);
        true
    }

    /// Center the viewport on the focus point.
    pub fn focus(&mut self, foc_x: i32, foc_y: i32)
        requires
            0 <= old(self).width <= COORD_LIMIT,
            0 <= old(self).height <= COORD_LIMIT,
            -COORD_LIMIT - 3 * VEL_LIMIT <= foc_x <= COORD_LIMIT + 3 * VEL_LIMIT,
            -COORD_LIMIT - 3 * VEL_LIMIT <= foc_y <= COORD_LIMIT + 3 * VEL_LIMIT,
        ensures
            final(self).x == foc_x - old(self).width / 2,
            final(self).y == foc_y - old(self).height / 2,
            final(self).width == old(self).width,
            final(self).height == old(self).height,
            final(self).minx == old(self).minx,
            final(self).miny == old(self).miny,
            final(self).maxx == old(self).maxx,
            final(self).maxy == old(self).maxy,
    {
        self.x = foc_x - self.width / 2;
        self.y = foc_y - self.height / 2;
    }
}

} // verus!
