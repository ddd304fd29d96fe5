//! Choosing the display and the part of it that the cursor is confined to,
//! from what the operator typed.

use vstd::prelude::*;
use crate::region::{half, Region};
use crate::text::{
    decimal_i32, decimal_usize, only_char, parse_i32, parse_usize, trimmed, trims_to,
};

verus! {

/// A display: where its top-left corner lies on the desktop, and its size in
/// pixels.
#[derive(Clone, Copy, Debug, PartialEq, Eq, Structural)]
pub struct Monitor {
    pub x: i32,
    pub y: i32,
    pub width: u32,
    pub height: u32,
}

/// Which part of the display the operator asked for.
#[derive(Clone, Copy, Debug, PartialEq, Eq, Structural)]
pub enum RegionChoice {
    Full,
    LeftHalf,
    RightHalf,
    /// A rectangle entered by hand.
    Custom,
    /// Anything but the four options.
    Unknown,
}

/// An unsigned size read as a signed extent: sizes above `i32::MAX` wrap
/// round to negative extents.
pub open spec fn wrapped(w: u32) -> int {
    if w <= i32::MAX {
        w as int
    } else {
        w - 0x1_0000_0000
    }
}

/// The display that `entry` picks out of `count`: the entry itself where it
/// is a number below `count`.
pub open spec fn monitor_pick(entry: Option<usize>, count: usize) -> Option<usize> {
    match entry {
        Some(n) => if n < count {
            Some(n)
        } else {
            None
        },
        None => None,
    }
}

/// The option that a trimmed line names: `1` to `4`, in the order of the
/// variants.
pub open spec fn choice_of(line: Seq<char>) -> RegionChoice {
    if line.len() != 1 {
        RegionChoice::Unknown
    } else if line[0] == '1' {
        RegionChoice::Full
    } else if line[0] == '2' {
        RegionChoice::LeftHalf
    } else if line[0] == '3' {
        RegionChoice::RightHalf
    } else if line[0] == '4' {
        RegionChoice::Custom
    } else {
        RegionChoice::Unknown
    }
}

/// The left edge of the display's right half.
pub open spec fn right_half_x(m: Monitor) -> int {
    m.x + half(wrapped(m.width))
}

/// The left edge of the display's right half is a coordinate that an `i32`
/// holds.
pub open spec fn right_half_fits(m: Monitor) -> bool {
    i32::MIN <= right_half_x(m) <= i32::MAX
}

/// The whole display.
pub open spec fn full_region(m: Monitor) -> Region {
    Region { x: m.x, y: m.y, width: wrapped(m.width) as i32, height: wrapped(m.height) as i32 }
}

/// The region for `choice` on display `m`. Of a rectangle entered by hand,
/// each of the four entries that is no number falls back to the display's own
/// value, and so does a width or a height below zero; one with no valid entry
/// is the whole display. An unknown option is the whole display too.
pub open spec fn region_of(m: Monitor, choice: RegionChoice, custom: CustomEntries) -> Region {
    match choice {
        RegionChoice::Full | RegionChoice::Unknown => full_region(m),
        RegionChoice::LeftHalf => Region {
            x: m.x,
            y: m.y,
            width: half(wrapped(m.width)) as i32,
            height: wrapped(m.height) as i32,
        },
        RegionChoice::RightHalf => Region {
            x: right_half_x(m) as i32,
            y: m.y,
            width: half(wrapped(m.width)) as i32,
            height: wrapped(m.height) as i32,
        },
        RegionChoice::Custom => Region {
            x: entry_or(custom.left, m.x),
            y: entry_or(custom.top, m.y),
            width: extent_or(custom.width, wrapped(m.width) as i32),
            height: extent_or(custom.height, wrapped(m.height) as i32),
        },
    }
}

/// The entry, or `fallback` where there is none.
pub open spec fn entry_or(entry: Option<i32>, fallback: i32) -> i32 {
    match entry {
        Some(v) => v,
        None => fallback,
    }
}

/// The entry as an extent: the entry itself where it is a number that is not
/// negative, and `fallback` where there is none or it is below zero.
pub open spec fn extent_or(entry: Option<i32>, fallback: i32) -> i32 {
    match entry {
        Some(v) => if v >= 0 {
            v
        } else {
            fallback
        },
        None => fallback,
    }
}

/// The display's width and height are sizes that an `i32` holds.
pub open spec fn size_fits(m: Monitor) -> bool {
    m.width <= i32::MAX && m.height <= i32::MAX
}

/// The four numbers of a rectangle entered by hand; `None` for an entry that
/// was no number.
#[derive(Clone, Copy, Debug, PartialEq, Eq, Structural)]
pub struct CustomEntries {
    pub left: Option<i32>,
    pub top: Option<i32>,
    pub width: Option<i32>,
    pub height: Option<i32>,
}

/// Reads an unsigned size as a signed extent.
pub fn extent(w: u32) -> (e: i32)
    ensures
        e == wrapped(w),
{
    if w <= 0x7fff_ffff {
        w as i32
    } else {
        (w as i64 - 0x1_0000_0000) as i32
    }
}

/// Picks a display out of `count` by the number that was entered: the number
/// itself where it is below `count`, else nothing.
pub fn pick_monitor(entry: Option<usize>, count: usize) -> (pick: Option<usize>)
    ensures
        pick == monitor_pick(entry, count),
{
    match entry {
        Some(n) => {
            if n < count {
                Some(n)
            } else {
                None
            }
        },
        None => None,
    }
}

/// Picks a display out of `count` by the line that the operator typed: the
/// line is trimmed and read as a number, and picks that display where the
/// number is below `count`.
pub fn select_monitor(input: &str, count: usize) -> (pick: Option<usize>)
    ensures
        pick == monitor_pick(decimal_usize(trimmed(input@)), count),
        trims_to(input@, trimmed(input@)),
{
    pick_monitor(parse_usize(input.trim()), count)
}

/// The option that a line names, taken as it stands: `1` to `4` and nothing
/// round them.
pub fn choice_from(line: &str) -> (choice: RegionChoice)
    ensures
        choice == choice_of(line@),
{
    match only_char(line) {
        Some(c) => {
            if c == '1' {
                RegionChoice::Full
            } else if c == '2' {
                RegionChoice::LeftHalf
            } else if c == '3' {
                RegionChoice::RightHalf
            } else if c == '4' {
                RegionChoice::Custom
            } else {
                RegionChoice::Unknown
            }
        },
        None => RegionChoice::Unknown,
    }
}

/// Reads the option that the operator typed: the line is trimmed first.
pub fn region_choice(input: &str) -> (choice: RegionChoice)
    ensures
        choice == choice_of(trimmed(input@)),
        trims_to(input@, trimmed(input@)),
{
    choice_from(input.trim())
}

/// Reads the four lines of a rectangle entered by hand: each is trimmed and
/// read as a number.
pub fn custom_entries(left: &str, top: &str, width: &str, height: &str) -> (entries: CustomEntries)
    ensures
        entries == (CustomEntries {
            left: decimal_i32(trimmed(left@)),
            top: decimal_i32(trimmed(top@)),
            width: decimal_i32(trimmed(width@)),
            height: decimal_i32(trimmed(height@)),
        }),
        trims_to(left@, trimmed(left@)),
        trims_to(top@, trimmed(top@)),
        trims_to(width@, trimmed(width@)),
        trims_to(height@, trimmed(height@)),
{
    CustomEntries {
        left: parse_i32(left.trim()),
        top: parse_i32(top.trim()),
        width: parse_i32(width.trim()),
        height: parse_i32(height.trim()),
    }
}

/// Tells whether the left edge of the display's right half is a coordinate
/// that an `i32` holds.
pub fn right_half_in_range(monitor: &Monitor) -> (ok: bool)
    ensures
        ok == right_half_fits(*monitor),
{
    monitor.x.checked_add(extent(monitor.width) / 2).is_some()
}

/// The region for `choice` on the display.
pub fn region_for(monitor: &Monitor, choice: RegionChoice, custom: CustomEntries) -> (region: Region)
    requires
        choice == RegionChoice::RightHalf ==> right_half_fits(*monitor),
    ensures
        region == region_of(*monitor, choice, custom),
{
    let width = extent(monitor.width);
    let height = extent(monitor.height);
    match choice {
        RegionChoice::Full | RegionChoice::Unknown => Region { x: monitor.x, y: monitor.y, width, height },
        RegionChoice::LeftHalf => Region { x: monitor.x, y: monitor.y, width: width / 2, height },
        RegionChoice::RightHalf => Region {
            x: monitor.x + width / 2,
            y: monitor.y,
            width: width / 2,
            height,
        },
        RegionChoice::Custom => Region {
            x: or_fallback(custom.left, monitor.x),
            y: or_fallback(custom.top, monitor.y),
            width: extent_or_fallback(custom.width, width),
            height: extent_or_fallback(custom.height, height),
        },
    }
}

/// The entry, or `fallback` where there is none.
pub fn or_fallback(entry: Option<i32>, fallback: i32) -> (v: i32)
    ensures
        v == entry_or(entry, fallback),
{
    match entry {
        Some(v) => v,
        None => fallback,
    }
}

/// The entry as an extent, or `fallback` where there is none or it is below
/// zero.
pub fn extent_or_fallback(entry: Option<i32>, fallback: i32) -> (v: i32)
    ensures
        v == extent_or(entry, fallback),
{
    match entry {
        Some(v) => {
            if v >= 0 {
                v
            } else {
                fallback
            }
        },
        None => fallback,
    }
}

/// The region that the operator chose on the display, from the lines that
/// were typed: the option, and the four numbers of a rectangle entered by
/// hand, which count for that option only.
///
/// `None` where the right half was asked for and its left edge is no
/// coordinate that an `i32` holds; a region in every other case. A width or
/// a height that was typed below zero is not taken: the display's own stands
/// in for it.
pub fn select_region(
    monitor: &Monitor,
    choice: &str,
    left: &str,
    top: &str,
    width: &str,
    height: &str,
) -> (region: Option<Region>)
    ensures
        region == (if choice_of(trimmed(choice@)) == RegionChoice::RightHalf && !right_half_fits(
            *monitor,
        ) {
            None
        } else {
            Some(
                region_of(
                    *monitor,
                    choice_of(trimmed(choice@)),
                    CustomEntries {
                        left: decimal_i32(trimmed(left@)),
                        top: decimal_i32(trimmed(top@)),
                        width: decimal_i32(trimmed(width@)),
                        height: decimal_i32(trimmed(height@)),
                    },
                ),
            )
        }),
        trims_to(choice@, trimmed(choice@)),
        trims_to(left@, trimmed(left@)),
        trims_to(top@, trimmed(top@)),
        trims_to(width@, trimmed(width@)),
        trims_to(height@, trimmed(height@)),
{
    let picked = region_choice(choice);
    let custom = custom_entries(left, top, width, height);
    if picked == RegionChoice::RightHalf && !right_half_in_range(monitor) {
        None
    } else {
        Some(region_for(monitor, picked, custom))
    }
}

/// On a display whose sizes an `i32` holds, no choice and no entry gives a
/// region with a width or a height below zero.
pub proof fn chosen_extent_is_not_negative(m: Monitor, choice: RegionChoice, custom: CustomEntries)
    requires
        size_fits(m),
    ensures
        region_of(m, choice, custom).width >= 0,
        region_of(m, choice, custom).height >= 0,
{
}

/// The two halves of a display whose width an `i32` holds are equally wide,
/// as high as the display, and the right one begins where the left one ends.
pub proof fn halves_are_adjacent(m: Monitor, custom: CustomEntries)
    requires
        size_fits(m),
        right_half_fits(m),
    ensures
        region_of(m, RegionChoice::LeftHalf, custom).width == region_of(
            m,
            RegionChoice::RightHalf,
            custom,
        ).width,
        region_of(m, RegionChoice::LeftHalf, custom).width == m.width / 2,
        region_of(m, RegionChoice::RightHalf, custom).x == region_of(m, RegionChoice::LeftHalf, custom).right(),
        region_of(m, RegionChoice::LeftHalf, custom).height == m.height,
        region_of(m, RegionChoice::RightHalf, custom).height == m.height,
{
}

} // verus!
