//! Rectangular screen areas, in terminal cells.

use vstd::prelude::*;

verus! {

/// A rectangle of terminal cells: its top-left corner and its size. The
/// constructor keeps it inside the `u16` coordinate space, so `x + width`
/// and `y + height` never pass `u16::MAX`.
#[derive(Debug, Clone, Copy, PartialEq, Eq, Structural)]
pub struct Area {
    pub x: u16,
    pub y: u16,
    pub width: u16,
    pub height: u16,
}

/// `a + b`, capped at `u16::MAX`.
pub open spec fn sat_add16(a: u16, b: u16) -> u16 {
    if a + b > u16::MAX {
        u16::MAX
    } else {
        (a + b) as u16
    }
}

/// `a - b`, floored at zero.
pub open spec fn sat_sub16(a: u16, b: u16) -> u16 {
    if a >= b {
        (a - b) as u16
    } else {
        0
    }
}

pub open spec fn min16(a: u16, b: u16) -> u16 {
    if a <= b {
        a
    } else {
        b
    }
}

pub open spec fn max16(a: u16, b: u16) -> u16 {
    if a >= b {
        a
    } else {
        b
    }
}

impl Area {
    /// The area at `(x, y)` of the given size, shrunk where it would
    /// reach past `u16::MAX`.
    pub open spec fn spec_new(x: u16, y: u16, width: u16, height: u16) -> Area {
        Area {
            x,
            y,
            width: min16(width, (u16::MAX - x) as u16),
            height: min16(height, (u16::MAX - y) as u16),
        }
    }

    /// The first column right of the area.
    pub open spec fn spec_right(self) -> u16 {
        sat_add16(self.x, self.width)
    }

    /// The first row below the area.
    pub open spec fn spec_bottom(self) -> u16 {
        sat_add16(self.y, self.height)
    }

    /// The cells that lie in both areas (empty when they do not overlap).
    pub open spec fn spec_intersection(self, other: Area) -> Area {
        let x1 = max16(self.x, other.x);
        let y1 = max16(self.y, other.y);
        let x2 = min16(self.spec_right(), other.spec_right());
        let y2 = min16(self.spec_bottom(), other.spec_bottom());
        Area { x: x1, y: y1, width: sat_sub16(x2, x1), height: sat_sub16(y2, y1) }
    }

    /// The smallest area that holds both.
    pub open spec fn spec_union(self, other: Area) -> Area {
        let x1 = min16(self.x, other.x);
        let y1 = min16(self.y, other.y);
        let x2 = max16(self.spec_right(), other.spec_right());
        let y2 = max16(self.spec_bottom(), other.spec_bottom());
        Area { x: x1, y: y1, width: sat_sub16(x2, x1), height: sat_sub16(y2, y1) }
    }

    pub fn new(x: u16, y: u16, width: u16, height: u16) -> (r: Area)
        ensures
            r == Area::spec_new(x, y, width, height),
    {
        let max_width = u16::MAX - x;
        let max_height = u16::MAX - y;
        Area {
            x,
            y,
            width: if width > max_width {
                max_width
            } else {
                width
            },
            height: if height > max_height {
                max_height
            } else {
                height
            },
        }
    }

    pub fn right(&self) -> (r: u16)
        ensures
            r == self.spec_right(),
    {
        self.x.saturating_add(self.width)
    }

    pub fn bottom(&self) -> (r: u16)
        ensures
            r == self.spec_bottom(),
    {
        self.y.saturating_add(self.height)
    }

    /// Whether the area holds no cell.
    pub fn is_empty(&self) -> (r: bool)
        ensures
            r == (self.width == 0 || self.height == 0),
    {
        self.width == 0 || self.height == 0
    }

    pub fn intersection(&self, other: &Area) -> (r: Area)
        ensures
            r == self.spec_intersection(*other),
    {
        let x1 = if self.x >= other.x {
            self.x
        } else {
            other.x
        };
        let y1 = if self.y >= other.y {
            self.y
        } else {
            other.y
        };
        let (r1, r2) = (self.right(), other.right());
        let (b1, b2) = (self.bottom(), other.bottom());
        let x2 = if r1 <= r2 {
            r1
        } else {
            r2
        };
        let y2 = if b1 <= b2 {
            b1
        } else {
            b2
        };
        Area { x: x1, y: y1, width: x2.saturating_sub(x1), height: y2.saturating_sub(y1) }
    }

    pub fn union(&self, other: &Area) -> (r: Area)
        ensures
            r == self.spec_union(*other),
    {
        let x1 = if self.x <= other.x {
            self.x
        } else {
            other.x
        };
        let y1 = if self.y <= other.y {
            self.y
        } else {
            other.y
        };
        let (r1, r2) = (self.right(), other.right());
        let (b1, b2) = (self.bottom(), other.bottom());
        let x2 = if r1 >= r2 {
            r1
        } else {
            r2
        };
        let y2 = if b1 >= b2 {
            b1
        } else {
            b2
        };
        Area { x: x1, y: y1, width: x2.saturating_sub(x1), height: y2.saturating_sub(y1) }
    }
}

/// Every cell of an intersection lies in both areas: its columns run
/// within both areas' columns, its rows within both areas' rows.
pub proof fn lemma_intersection_within(a: Area, b: Area)
    ensures
        ({
            let i = a.spec_intersection(b);
            i.width > 0 ==> a.x <= i.x && b.x <= i.x && i.spec_right() <= a.spec_right()
                && i.spec_right() <= b.spec_right()
        }),
        ({
            let i = a.spec_intersection(b);
            i.height > 0 ==> a.y <= i.y && b.y <= i.y && i.spec_bottom() <= a.spec_bottom()
                && i.spec_bottom() <= b.spec_bottom()
        }),
{
}

} // verus!
