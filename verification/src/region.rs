//! The rectangle that the cursor is confined to.

use vstd::prelude::*;

verus! {

/// Half of `w`, rounded toward zero.
pub open spec fn half(w: int) -> int {
    if w >= 0 {
        w / 2
    } else {
        -((-w) / 2)
    }
}

/// A point of the screen.
#[derive(Clone, Copy, Debug, PartialEq, Eq, Structural)]
pub struct Point {
    pub x: i32,
    pub y: i32,
}

/// A rectangle of the screen: the top-left corner and the extent.
///
/// The extent is expected to be non-negative; nothing here enforces it.
#[derive(Clone, Copy, Debug, PartialEq, Eq, Structural)]
pub struct Region {
    pub x: i32,
    pub y: i32,
    pub width: i32,
    pub height: i32,
}

/// The far edges of the rectangle at `(x, y)` with the given extent are
/// coordinates that an `i32` holds.
pub open spec fn edges_fit(x: int, y: int, width: int, height: int) -> bool {
    &&& i32::MIN <= x + width <= i32::MAX
    &&& i32::MIN <= y + height <= i32::MAX
}

impl Region {
    /// The horizontal coordinate of the right edge.
    pub open spec fn right(self) -> int {
        self.x + self.width
    }

    /// The vertical coordinate of the bottom edge.
    pub open spec fn bottom(self) -> int {
        self.y + self.height
    }

    /// Both far edges are coordinates that an `i32` holds.
    pub open spec fn fits(self) -> bool {
        edges_fit(self.x as int, self.y as int, self.width as int, self.height as int)
    }

    /// The point `(px, py)` lies in the rectangle, edges included.
    pub open spec fn holds_at(self, px: int, py: int) -> bool {
        &&& self.x <= px <= self.right()
        &&& self.y <= py <= self.bottom()
    }

    /// The point lies in the rectangle, edges included.
    pub open spec fn holds(self, p: Point) -> bool {
        self.holds_at(p.x as int, p.y as int)
    }

    /// The horizontal coordinate of the centre.
    pub open spec fn centre_x(self) -> int {
        self.x + half(self.width as int)
    }

    /// The vertical coordinate of the centre.
    pub open spec fn centre_y(self) -> int {
        self.y + half(self.height as int)
    }

    /// Builds the region with the given corner and extent.
    pub fn new(x: i32, y: i32, width: i32, height: i32) -> (r: Region)
        ensures
            r == (Region { x, y, width, height }),
    {
        Region { x, y, width, height }
    }

    /// Tells whether both far edges are coordinates that an `i32` holds.
    pub fn edges_in_range(&self) -> (ok: bool)
        ensures
            ok == self.fits(),
    {
        self.x.checked_add(self.width).is_some() && self.y.checked_add(self.height).is_some()
    }
}

/// The centre of a region whose extent is not negative lies in the region.
/// A region with a negative extent holds no point at all.
pub proof fn centre_is_inside(r: Region)
    ensures
        r.width >= 0 && r.height >= 0 ==> r.holds_at(r.centre_x(), r.centre_y()),
        r.width < 0 || r.height < 0 ==> forall|px: int, py: int| !r.holds_at(px, py),
{
}

/// The centre of a region whose far edges fit an `i32` fits one too.
pub proof fn centre_fits(r: Region)
    requires
        r.fits(),
    ensures
        i32::MIN <= r.centre_x() <= i32::MAX,
        i32::MIN <= r.centre_y() <= i32::MAX,
{
}

} // verus!
