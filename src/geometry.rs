use vstd::prelude::*;

verus! {

/// An axis-aligned box on the integer coordinate grid of the host.
#[derive(Clone, Copy, Debug, PartialEq, Eq, Structural)]
pub struct Region {
    pub min_x: i32,
    pub min_y: i32,
    pub max_x: i32,
    pub max_y: i32,
}

impl Region {
    /// A box is well formed when its minimum corner is below and left of its maximum corner.
    pub open spec fn wf(self) -> bool {
        self.min_x <= self.max_x && self.min_y <= self.max_y
    }

    pub open spec fn width(self) -> int {
        self.max_x - self.min_x
    }

    pub open spec fn height(self) -> int {
        self.max_y - self.min_y
    }

    /// Whether the point lies in the box, borders included.
    pub open spec fn spec_contains_point(self, x: int, y: int) -> bool {
        self.min_x <= x <= self.max_x && self.min_y <= y <= self.max_y
    }

    /// Whether an optional cursor position lies in the box; no position lies nowhere.
    pub open spec fn contains_position_spec(self, position: Option<(i32, i32)>) -> bool {
        match position {
            Some(p) => self.spec_contains_point(p.0 as int, p.1 as int),
            None => false,
        }
    }

    /// Whether `inner` lies entirely in this box.
    pub open spec fn contains_region(self, inner: Region) -> bool {
        self.min_x <= inner.min_x && inner.max_x <= self.max_x && self.min_y <= inner.min_y
            && inner.max_y <= self.max_y
    }

    pub fn new(min_x: i32, min_y: i32, max_x: i32, max_y: i32) -> (r: Region)
        requires
            min_x <= max_x,
            min_y <= max_y,
        ensures
            r == (Region { min_x, min_y, max_x, max_y }),
            r.wf(),
    {
        Region { min_x, min_y, max_x, max_y }
    }

    pub fn get_width(&self) -> (r: u32)
        requires
            self.wf(),
        ensures
            r == self.width(),
    {
        (self.max_x as i64 - self.min_x as i64) as u32
    }

    pub fn get_height(&self) -> (r: u32)
        requires
            self.wf(),
        ensures
            r == self.height(),
    {
        (self.max_y as i64 - self.min_y as i64) as u32
    }

    pub fn contains_point(&self, x: i32, y: i32) -> (r: bool)
        ensures
            r == self.spec_contains_point(x as int, y as int),
    {
        self.min_x <= x && x <= self.max_x && self.min_y <= y && y <= self.max_y
    }

    pub fn contains_position(&self, position: Option<(i32, i32)>) -> (r: bool)
        ensures
            r == self.contains_position_spec(position),
    {
        match position {
            Some(p) => self.contains_point(p.0, p.1),
            None => false,
        }
    }
}

} // verus!
