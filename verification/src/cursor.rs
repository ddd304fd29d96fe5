//! What to hand to the pointer subsystem: the rectangle to clip the cursor
//! to, and where to put a cursor that has escaped.

use vstd::prelude::*;
use crate::region::{edges_fit, Point, Region};

verus! {

/// The rectangle that the pointer subsystem clips the cursor to, by its edges.
#[derive(Clone, Copy, Debug, PartialEq, Eq, Structural)]
pub struct ClipRect {
    pub left: i32,
    pub top: i32,
    pub right: i32,
    pub bottom: i32,
}

/// The clip to set so that the cursor stays in the rectangle at `(x, y)` with
/// the given extent: always `Some`, with the rectangle's four edges.
pub fn lock_cursor_to_rect(x: i32, y: i32, width: i32, height: i32) -> (clip: Option<ClipRect>)
    requires
        edges_fit(x as int, y as int, width as int, height as int),
    ensures
        clip == Some(ClipRect { left: x, top: y, right: (x + width) as i32, bottom: (y + height) as i32 }),
{
    Some(ClipRect { left: x, top: y, right: x + width, bottom: y + height })
}

/// The clip to set so that the cursor is free again: none.
pub fn unlock_cursor() -> (clip: Option<ClipRect>)
    ensures
        clip.is_none(),
{
    None
}

/// Where to move the cursor so that it is inside the rectangle at `(x, y)`
/// with the given extent.
///
/// `cursor` is the cursor's position, or `None` where it could not be read.
/// A cursor that was read and lies outside the rectangle goes to the
/// rectangle's centre; otherwise there is nothing to do. With no position
/// read, nothing is computed and any rectangle is taken.
pub fn force_cursor_inside(x: i32, y: i32, width: i32, height: i32, cursor: Option<Point>) -> (target: Option<Point>)
    requires
        cursor.is_some() ==> edges_fit(x as int, y as int, width as int, height as int),
    ensures
        target.is_some() <==> (cursor.is_some() && !(Region { x, y, width, height }).holds(cursor.unwrap())),
        target.is_some() ==> target.unwrap().x == (Region { x, y, width, height }).centre_x(),
        target.is_some() ==> target.unwrap().y == (Region { x, y, width, height }).centre_y(),
{
    match cursor {
        Some(p) => {
            if p.x < x || p.x > x + width || p.y < y || p.y > y + height {
                Some(Point { x: x + width / 2, y: y + height / 2 })
            } else {
                None
            }
        },
        None => None,
    }
}

} // verus!
