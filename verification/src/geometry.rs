//! Points, sizes and rectangles in the logical coordinate space.

use vstd::prelude::*;

verus! {

/// A point, or an offset between two points.
#[derive(Debug, Clone, Copy, PartialEq, Eq)]
pub struct Point<T> {
    pub x: T,
    pub y: T,
}

/// The extent of an area.
#[derive(Debug, Clone, Copy, PartialEq, Eq)]
pub struct Size<T> {
    pub w: T,
    pub h: T,
}

/// An axis-aligned area, given by its top left corner and its extent.
#[derive(Debug, Clone, Copy, PartialEq, Eq)]
pub struct Rectangle<T> {
    pub loc: Point<T>,
    pub size: Size<T>,
}

/// `v`, or the bound of `i32` that it lies beyond.
pub open spec fn saturate(v: int) -> int {
    if v < i32::MIN {
        i32::MIN as int
    } else if v > i32::MAX {
        i32::MAX as int
    } else {
        v
    }
}

/// The larger of two integers.
pub open spec fn larger(a: int, b: int) -> int {
    if a < b {
        b
    } else {
        a
    }
}

/// The sum of two coordinates, kept within the bounds of `i32`.
pub fn saturating_plus(a: i32, b: i32) -> (sum: i32)
    ensures
        sum == saturate(a + b),
{
    let exact: i64 = a as i64 + b as i64;
    if exact < i32::MIN as i64 {
        i32::MIN
    } else if exact > i32::MAX as i64 {
        i32::MAX
    } else {
        exact as i32
    }
}

/// The difference of two coordinates, kept within the bounds of `i32`.
pub fn saturating_minus(a: i32, b: i32) -> (difference: i32)
    ensures
        difference == saturate(a - b),
{
    let exact: i64 = a as i64 - b as i64;
    if exact < i32::MIN as i64 {
        i32::MIN
    } else if exact > i32::MAX as i64 {
        i32::MAX
    } else {
        exact as i32
    }
}

/// The point with the given coordinates.
pub fn logical<T>(x: T, y: T) -> (point: Point<T>)
    ensures
        point.x == x,
        point.y == y,
{
    Point { x, y }
}

impl Point<i32> {
    /// The point at `offset` from this one, as a mathematical value.
    pub open spec fn spec_shifted(self, offset: Point<i32>) -> Point<i32> {
        Point { x: saturate(self.x + offset.x) as i32, y: saturate(self.y + offset.y) as i32 }
    }

    /// The offset of this point from `origin`, as a mathematical value.
    pub open spec fn spec_relative_to(self, origin: Point<i32>) -> Point<i32> {
        Point { x: saturate(self.x - origin.x) as i32, y: saturate(self.y - origin.y) as i32 }
    }

    /// The point at `offset` from this one; each coordinate stays within the bounds of `i32`.
    pub fn shifted(self, offset: Point<i32>) -> (moved: Point<i32>)
        ensures
            moved == self.spec_shifted(offset),
    {
        Point { x: saturating_plus(self.x, offset.x), y: saturating_plus(self.y, offset.y) }
    }

    /// The offset of this point from `origin`; each coordinate stays within the bounds of `i32`.
    pub fn relative_to(self, origin: Point<i32>) -> (offset: Point<i32>)
        ensures
            offset == self.spec_relative_to(origin),
    {
        Point { x: saturating_minus(self.x, origin.x), y: saturating_minus(self.y, origin.y) }
    }

    /// Whether the two points have the same coordinates.
    pub fn same(self, other: Point<i32>) -> (same: bool)
        ensures
            same == (self == other),
    {
        self.x == other.x && self.y == other.y
    }
}

impl Size<i32> {
    /// The extent left of this one when `other` is taken off, as a mathematical value.
    pub open spec fn spec_without(self, other: Size<i32>) -> Size<i32> {
        Size {
            w: larger(saturate(self.w - other.w), 0) as i32,
            h: larger(saturate(self.h - other.h), 0) as i32,
        }
    }

    /// The extent left of this one when `other` is taken off; neither side falls below zero.
    pub fn without(self, other: Size<i32>) -> (rest: Size<i32>)
        ensures
            rest == self.spec_without(other),
    {
        let w: i32 = saturating_minus(self.w, other.w);
        let h: i32 = saturating_minus(self.h, other.h);
        Size { w: if w < 0 { 0 } else { w }, h: if h < 0 { 0 } else { h } }
    }

    /// Whether the two sizes have the same sides.
    pub fn same(self, other: Size<i32>) -> (same: bool)
        ensures
            same == (self == other),
    {
        self.w == other.w && self.h == other.h
    }
}

impl Rectangle<i32> {
    /// Whether `point` lies within the area: on or after the top left corner, before the bottom
    /// right one.
    pub open spec fn has(self, point: Point<i32>) -> bool {
        &&& self.loc.x <= point.x < saturate(self.loc.x + self.size.w)
        &&& self.loc.y <= point.y < saturate(self.loc.y + self.size.h)
    }

    /// Whether `point` lies within the area.
    pub fn contains(self, point: Point<i32>) -> (inside: bool)
        ensures
            inside == self.has(point),
    {
        point.x >= self.loc.x && point.x < saturating_plus(self.loc.x, self.size.w) && point.y
            >= self.loc.y && point.y < saturating_plus(self.loc.y, self.size.h)
    }
}

/// A point that is shifted moves by the offset in each direction, as far as there are coordinates.
pub proof fn shifting_adds_the_offset(point: Point<i32>, offset: Point<i32>)
    ensures
        ({
            let moved = point.spec_shifted(offset);
            &&& i32::MIN <= point.x + offset.x <= i32::MAX ==> moved.x - point.x == offset.x
            &&& i32::MIN <= point.y + offset.y <= i32::MAX ==> moved.y - point.y == offset.y
            &&& point.x + offset.x > i32::MAX ==> moved.x == i32::MAX
            &&& point.x + offset.x < i32::MIN ==> moved.x == i32::MIN
            &&& point.y + offset.y > i32::MAX ==> moved.y == i32::MAX
            &&& point.y + offset.y < i32::MIN ==> moved.y == i32::MIN
        }),
{
}

/// The offset of a point from an origin leads from the origin back to the point, as far as there are
/// coordinates for it.
pub proof fn offset_leads_back(point: Point<i32>, origin: Point<i32>)
    ensures
        ({
            let offset = point.spec_relative_to(origin);
            &&& i32::MIN <= point.x - origin.x <= i32::MAX ==> origin.x + offset.x == point.x
            &&& i32::MIN <= point.y - origin.y <= i32::MAX ==> origin.y + offset.y == point.y
            &&& point.x - origin.x > i32::MAX ==> offset.x == i32::MAX
            &&& point.x - origin.x < i32::MIN ==> offset.x == i32::MIN
            &&& point.y - origin.y > i32::MAX ==> offset.y == i32::MAX
            &&& point.y - origin.y < i32::MIN ==> offset.y == i32::MIN
        }),
{
}

/// What is taken off a size and what is left make up the size, and nothing is left of a side that is
/// shorter than what is taken off.
pub proof fn size_is_taken_off(size: Size<i32>, other: Size<i32>)
    ensures
        ({
            let rest = size.spec_without(other);
            &&& rest.w >= 0 && rest.h >= 0
            &&& 0 <= size.w - other.w <= i32::MAX ==> rest.w + other.w == size.w
            &&& 0 <= size.h - other.h <= i32::MAX ==> rest.h + other.h == size.h
            &&& size.w <= other.w ==> rest.w == 0
            &&& size.h <= other.h ==> rest.h == 0
            &&& size.w - other.w > i32::MAX ==> rest.w == i32::MAX
            &&& size.h - other.h > i32::MAX ==> rest.h == i32::MAX
        }),
{
}

/// A point lies in an area when it is less than a width to the right of its left edge and less than a
/// height below its top edge. The last coordinate belongs to no area.
pub proof fn area_has_its_pixels(area: Rectangle<i32>, point: Point<i32>)
    ensures
        area.has(point) <==> {
            &&& 0 <= point.x - area.loc.x < area.size.w
            &&& 0 <= point.y - area.loc.y < area.size.h
            &&& point.x < i32::MAX
            &&& point.y < i32::MAX
        },
{
}

} // verus!
