//! Points, rectangles, resize handles and hit testing.
//!
//! A coordinate is an integer count of sub-pixel units. Wayland reports
//! pointer positions in steps of 1/256 of a logical pixel; one unit is half of
//! such a step, so every position the compositor reports is an even number of
//! units, and so is every extent between two of them. The functions that
//! halve an extent (centres of rectangles and handles, the buttons' vertical
//! position) require it to be even, so their results are exact midpoints.

use vstd::prelude::*;
use vstd::string::StringExecFns;

use crate::style::{
    CANCEL_BUTTON_WIDTH, HANDLE_HIT_RADIUS, SELECT_BUTTON_HEIGHT, SELECT_BUTTON_WIDTH,
    TOOLBAR_CONTENT_GAP, TOOLBAR_GAP, TOOLBAR_HEIGHT, TOOLBAR_PADDING, TOOLBAR_WIDTH,
};

verus! {

/// Number of coordinate units in one logical pixel.
pub const UNITS_PER_PIXEL: i64 = 512;

/// Half of [`UNITS_PER_PIXEL`]: the offset that rounds to the nearest pixel.
pub const HALF_PIXEL: i64 = 256;

/// Smallest width and height of a selection that can be confirmed.
pub const MIN_SELECTION_SIZE: i64 = 24 * UNITS_PER_PIXEL;

/// Largest magnitude of a coordinate or extent the geometry accepts (2^60).
/// Sums of up to seven such values stay inside `i64`.
pub const COORD_LIMIT: i64 = 1152921504606846976;

/// Largest magnitude of a coordinate or extent of a rectangle that the
/// toolbar and hit testing lay out (2^58): the rectangles placed next to such
/// a rectangle stay within [`COORD_LIMIT`].
pub const LAYOUT_LIMIT: i64 = 288230376151711744;

/// `v` lies within the range the geometry accepts.
pub open spec fn in_range(v: int) -> bool {
    -COORD_LIMIT <= v <= COORD_LIMIT
}

/// `v` lies within the range of laid out rectangles.
pub open spec fn in_layout_range(v: int) -> bool {
    -LAYOUT_LIMIT <= v <= LAYOUT_LIMIT
}

/// The smaller of two integers.
pub open spec fn int_min(a: int, b: int) -> int {
    if a <= b { a } else { b }
}

/// The larger of two integers.
pub open spec fn int_max(a: int, b: int) -> int {
    if a >= b { a } else { b }
}

/// The magnitude of an integer.
pub open spec fn int_abs(a: int) -> int {
    if a >= 0 { a } else { -a }
}

/// `v` limited to `lo ..= hi`, the way `clamp` limits it when `lo <= hi`.
pub open spec fn spec_clamp(v: int, lo: int, hi: int) -> int {
    if v < lo { lo } else if v > hi { hi } else { v }
}

/// Limits `v` to `lo ..= hi`.
pub fn clamp(v: i64, lo: i64, hi: i64) -> (r: i64)
    requires
        lo <= hi,
    ensures
        r == spec_clamp(v as int, lo as int, hi as int),
        lo <= r <= hi,
{
    if v < lo {
        lo
    } else if v > hi {
        hi
    } else {
        v
    }
}

/// `v` is an even number.
pub open spec fn is_even(v: int) -> bool {
    v % 2 == 0
}

/// Half of the even number `v`, exactly.
pub fn half(v: i64) -> (r: i64)
    requires
        is_even(v as int),
    ensures
        r == (v as int) / 2,
        2 * r == v,
{
    if v >= 0 {
        v / 2
    } else {
        let w = -(v + 1);
        let r = -(w / 2) - 1;
        assert(r == (v as int) / 2) by (nonlinear_arith)
            requires
                v < 0,
                w == -(v + 1),
                r == -(w / 2) - 1,
        ;
        r
    }
}

/// A position, in coordinate units.
#[derive(Debug, Clone, Copy, PartialEq, Eq, Structural)]
pub struct Point {
    pub x: i64,
    pub y: i64,
}

impl Point {
    pub fn new(x: i64, y: i64) -> (p: Self)
        ensures
            p.x == x,
            p.y == y,
    {
        Self { x, y }
    }

    /// Both coordinates lie within the accepted range.
    pub open spec fn in_range(self) -> bool {
        in_range(self.x as int) && in_range(self.y as int)
    }

    /// Both coordinates lie within the range of laid out rectangles.
    pub open spec fn in_layout_range(self) -> bool {
        in_layout_range(self.x as int) && in_layout_range(self.y as int)
    }

    /// Both coordinates are even numbers of units.
    pub open spec fn is_even(self) -> bool {
        is_even(self.x as int) && is_even(self.y as int)
    }
}

/// An axis-aligned rectangle: its top-left corner and its extent, in
/// coordinate units.
#[derive(Debug, Clone, Copy, PartialEq, Eq, Structural)]
pub struct Rect {
    pub x: i64,
    pub y: i64,
    pub width: i64,
    pub height: i64,
}

/// The rectangle with the given corner and extent, built from integers.
pub open spec fn rect_of(x: int, y: int, width: int, height: int) -> Rect {
    Rect { x: x as i64, y: y as i64, width: width as i64, height: height as i64 }
}

/// The point with the given coordinates, built from integers.
pub open spec fn point_of(x: int, y: int) -> Point {
    Point { x: x as i64, y: y as i64 }
}

/// All of `r`'s values are `x`, `y`, `width` and `height`.
pub open spec fn rect_is(r: Rect, x: int, y: int, width: int, height: int) -> bool {
    r.x == x && r.y == y && r.width == width && r.height == height
}

/// The smallest rectangle with `a` and `b` as opposite corners.
pub open spec fn spec_from_points(a: Point, b: Point) -> Rect {
    rect_of(
        int_min(a.x as int, b.x as int),
        int_min(a.y as int, b.y as int),
        int_abs(a.x - b.x),
        int_abs(a.y - b.y),
    )
}

/// The point of `r` nearest to `p`.
pub open spec fn spec_clamp_point(r: Rect, p: Point) -> Point {
    point_of(
        spec_clamp(p.x as int, r.x as int, r.spec_right()),
        spec_clamp(p.y as int, r.y as int, r.spec_bottom()),
    )
}

/// `r` moved by `(dx, dy)` and pushed back into `bounds`.
pub open spec fn spec_translated(r: Rect, dx: int, dy: int, bounds: Rect) -> Rect {
    rect_of(
        spec_clamp(r.x + dx, bounds.x as int, bounds.spec_right() - r.width),
        spec_clamp(r.y + dy, bounds.y as int, bounds.spec_bottom() - r.height),
        r.width as int,
        r.height as int,
    )
}

impl Rect {
    pub fn new(x: i64, y: i64, width: i64, height: i64) -> (r: Self)
        ensures
            rect_is(r, x as int, y as int, width as int, height as int),
    {
        Self { x, y, width, height }
    }

    /// All four values lie within the accepted range.
    pub open spec fn in_range(self) -> bool {
        &&& in_range(self.x as int)
        &&& in_range(self.y as int)
        &&& in_range(self.width as int)
        &&& in_range(self.height as int)
    }

    /// All four values lie within the range of laid out rectangles.
    pub open spec fn in_layout_range(self) -> bool {
        &&& in_layout_range(self.x as int)
        &&& in_layout_range(self.y as int)
        &&& in_layout_range(self.width as int)
        &&& in_layout_range(self.height as int)
    }

    /// All four values are even numbers of units.
    pub open spec fn is_even(self) -> bool {
        &&& is_even(self.x as int)
        &&& is_even(self.y as int)
        &&& is_even(self.width as int)
        &&& is_even(self.height as int)
    }

    /// Width and height are even numbers of units, so the centre is a
    /// whole number of units.
    pub open spec fn has_even_extent(self) -> bool {
        is_even(self.width as int) && is_even(self.height as int)
    }

    pub open spec fn spec_right(self) -> int {
        self.x + self.width
    }

    pub open spec fn spec_bottom(self) -> int {
        self.y + self.height
    }

    pub open spec fn spec_center_x(self) -> int {
        self.x + self.width / 2
    }

    pub open spec fn spec_center_y(self) -> int {
        self.y + self.height / 2
    }

    /// `p` lies in the rectangle, edges included.
    pub open spec fn spec_contains(self, p: Point) -> bool {
        &&& self.x <= p.x <= self.spec_right()
        &&& self.y <= p.y <= self.spec_bottom()
    }

    /// The rectangle is large enough to be confirmed.
    pub open spec fn spec_is_valid(self) -> bool {
        self.width >= MIN_SELECTION_SIZE && self.height >= MIN_SELECTION_SIZE
    }

    /// `self` lies entirely inside `outer`, with a non-negative extent.
    pub open spec fn inside(self, outer: Rect) -> bool {
        &&& 0 <= self.width
        &&& 0 <= self.height
        &&& outer.x <= self.x
        &&& outer.y <= self.y
        &&& self.spec_right() <= outer.spec_right()
        &&& self.spec_bottom() <= outer.spec_bottom()
    }

    /// The smallest rectangle with `a` and `b` as opposite corners.
    pub fn from_points(a: Point, b: Point) -> (r: Self)
        requires
            a.in_range(),
            b.in_range(),
        ensures
            r == spec_from_points(a, b),
            a.is_even() && b.is_even() ==> r.is_even(),
            rect_is(
                r,
                int_min(a.x as int, b.x as int),
                int_min(a.y as int, b.y as int),
                int_abs(a.x - b.x),
                int_abs(a.y - b.y),
            ),
    {
        let x = if a.x <= b.x { a.x } else { b.x };
        let y = if a.y <= b.y { a.y } else { b.y };
        let width = if a.x >= b.x { a.x - b.x } else { b.x - a.x };
        let height = if a.y >= b.y { a.y - b.y } else { b.y - a.y };
        Self::new(x, y, width, height)
    }

    /// The x coordinate of the right edge.
    pub fn right(self) -> (r: i64)
        requires
            self.in_range(),
        ensures
            r == self.spec_right(),
    {
        self.x + self.width
    }

    /// The y coordinate of the bottom edge.
    pub fn bottom(self) -> (r: i64)
        requires
            self.in_range(),
        ensures
            r == self.spec_bottom(),
    {
        self.y + self.height
    }

    /// The centre.
    pub fn center(self) -> (p: Point)
        requires
            self.in_range(),
            self.has_even_extent(),
        ensures
            p.x == self.spec_center_x(),
            p.y == self.spec_center_y(),
            2 * p.x == 2 * self.x + self.width,
            2 * p.y == 2 * self.y + self.height,
    {
        Point::new(self.x + half(self.width), self.y + half(self.height))
    }

    /// Whether `point` lies in the rectangle, edges included.
    pub fn contains(self, point: Point) -> (b: bool)
        requires
            self.in_range(),
        ensures
            b == self.spec_contains(point),
    {
        point.x >= self.x && point.x <= self.right() && point.y >= self.y && point.y
            <= self.bottom()
    }

    /// Whether the rectangle is at least [`MIN_SELECTION_SIZE`] wide and high.
    pub fn is_valid(self) -> (b: bool)
        ensures
            b == self.spec_is_valid(),
    {
        self.width >= MIN_SELECTION_SIZE && self.height >= MIN_SELECTION_SIZE
    }

    /// The point of the rectangle nearest to `point`: each coordinate limited
    /// to the rectangle's span on its axis.
    pub fn clamp_point(self, point: Point) -> (p: Point)
        requires
            self.in_range(),
            0 <= self.width,
            0 <= self.height,
        ensures
            p == spec_clamp_point(self, point),
            self.is_even() && point.is_even() ==> p.is_even(),
            p.x == spec_clamp(point.x as int, self.x as int, self.spec_right()),
            p.y == spec_clamp(point.y as int, self.y as int, self.spec_bottom()),
            self.spec_contains(p),
    {
        Point::new(
            clamp(point.x, self.x, self.right()),
            clamp(point.y, self.y, self.bottom()),
        )
    }

    /// The rectangle moved by `(dx, dy)`, then pushed back so that it lies in
    /// `bounds`. Its size never changes.
    pub fn translated(self, dx: i64, dy: i64, bounds: Rect) -> (r: Self)
        requires
            self.in_range(),
            bounds.in_range(),
            in_range(dx as int),
            in_range(dy as int),
            self.width <= bounds.width,
            self.height <= bounds.height,
        ensures
            r == spec_translated(self, dx as int, dy as int, bounds),
            self.is_even() && bounds.is_even() && is_even(dx as int) && is_even(dy as int)
                ==> r.is_even(),
            r.x == spec_clamp(self.x + dx, bounds.x as int, bounds.spec_right() - self.width),
            r.y == spec_clamp(self.y + dy, bounds.y as int, bounds.spec_bottom() - self.height),
            r.width == self.width,
            r.height == self.height,
            0 <= self.width && 0 <= self.height ==> r.inside(bounds),
    {
        let x = clamp(self.x + dx, bounds.x, bounds.right() - self.width);
        let y = clamp(self.y + dy, bounds.y, bounds.bottom() - self.height);
        Self::new(x, y, self.width, self.height)
    }

    /// The rectangle expressed relative to the top-left corner of `bounds`.
    pub fn relative_to(self, bounds: Rect) -> (r: Self)
        requires
            self.in_range(),
            bounds.in_range(),
        ensures
            rect_is(r, self.x - bounds.x, self.y - bounds.y, self.width as int, self.height as int),
    {
        Self::new(self.x - bounds.x, self.y - bounds.y, self.width, self.height)
    }
}

/// One of the eight grips on a selection's corners and edge midpoints.
#[derive(Debug, Clone, Copy, PartialEq, Eq, Structural)]
pub enum Handle {
    NorthWest,
    North,
    NorthEast,
    East,
    SouthEast,
    South,
    SouthWest,
    West,
}

/// The handle at position `i` of [`Handle::ALL`].
pub open spec fn spec_handle_at(i: int) -> Handle {
    if i == 0 {
        Handle::NorthWest
    } else if i == 1 {
        Handle::North
    } else if i == 2 {
        Handle::NorthEast
    } else if i == 3 {
        Handle::East
    } else if i == 4 {
        Handle::SouthEast
    } else if i == 5 {
        Handle::South
    } else if i == 6 {
        Handle::SouthWest
    } else {
        Handle::West
    }
}

/// Number of handles on a selection.
pub const HANDLE_COUNT: usize = 8;

impl Handle {
    /// Every handle, clockwise from the top-left corner. Hit testing tries
    /// them in this order.
    pub const ALL: [Handle; 8] = [
        Handle::NorthWest,
        Handle::North,
        Handle::NorthEast,
        Handle::East,
        Handle::SouthEast,
        Handle::South,
        Handle::SouthWest,
        Handle::West,
    ];

    /// The handle at position `i` of [`Handle::ALL`].
    pub fn at(i: usize) -> (h: Handle)
        requires
            i < HANDLE_COUNT,
        ensures
            h == spec_handle_at(i as int),
    {
        if i == 0 {
            Handle::NorthWest
        } else if i == 1 {
            Handle::North
        } else if i == 2 {
            Handle::NorthEast
        } else if i == 3 {
            Handle::East
        } else if i == 4 {
            Handle::SouthEast
        } else if i == 5 {
            Handle::South
        } else if i == 6 {
            Handle::SouthWest
        } else {
            Handle::West
        }
    }

    /// Dragging the handle moves the left edge.
    pub open spec fn spec_moves_left(self) -> bool {
        self is NorthWest || self is SouthWest || self is West
    }

    /// Dragging the handle moves the right edge.
    pub open spec fn spec_moves_right(self) -> bool {
        self is NorthEast || self is East || self is SouthEast
    }

    /// Dragging the handle moves the top edge.
    pub open spec fn spec_moves_top(self) -> bool {
        self is NorthWest || self is North || self is NorthEast
    }

    /// Dragging the handle moves the bottom edge.
    pub open spec fn spec_moves_bottom(self) -> bool {
        self is SouthEast || self is South || self is SouthWest
    }

    pub fn moves_left(self) -> (b: bool)
        ensures
            b == self.spec_moves_left(),
    {
        matches!(self, Handle::NorthWest | Handle::SouthWest | Handle::West)
    }

    pub fn moves_right(self) -> (b: bool)
        ensures
            b == self.spec_moves_right(),
    {
        matches!(self, Handle::NorthEast | Handle::East | Handle::SouthEast)
    }

    pub fn moves_top(self) -> (b: bool)
        ensures
            b == self.spec_moves_top(),
    {
        matches!(self, Handle::NorthWest | Handle::North | Handle::NorthEast)
    }

    pub fn moves_bottom(self) -> (b: bool)
        ensures
            b == self.spec_moves_bottom(),
    {
        matches!(self, Handle::SouthEast | Handle::South | Handle::SouthWest)
    }

    /// Where the handle sits on `rect`: a corner, or the midpoint of an edge.
    pub open spec fn spec_center(self, rect: Rect) -> Point {
        let left = rect.x as int;
        let top = rect.y as int;
        let right = rect.spec_right();
        let bottom = rect.spec_bottom();
        let mid_x = rect.spec_center_x();
        let mid_y = rect.spec_center_y();
        match self {
            Handle::NorthWest => point_of(left, top),
            Handle::North => point_of(mid_x, top),
            Handle::NorthEast => point_of(right, top),
            Handle::East => point_of(right, mid_y),
            Handle::SouthEast => point_of(right, bottom),
            Handle::South => point_of(mid_x, bottom),
            Handle::SouthWest => point_of(left, bottom),
            Handle::West => point_of(left, mid_y),
        }
    }

    /// Where the handle sits on `rect`.
    pub fn center(self, rect: Rect) -> (p: Point)
        requires
            rect.in_range(),
            rect.has_even_extent(),
        ensures
            p == self.spec_center(rect),
    {
        let center = rect.center();
        match self {
            Handle::NorthWest => Point::new(rect.x, rect.y),
            Handle::North => Point::new(center.x, rect.y),
            Handle::NorthEast => Point::new(rect.right(), rect.y),
            Handle::East => Point::new(rect.right(), center.y),
            Handle::SouthEast => Point::new(rect.right(), rect.bottom()),
            Handle::South => Point::new(center.x, rect.bottom()),
            Handle::SouthWest => Point::new(rect.x, rect.bottom()),
            Handle::West => Point::new(rect.x, center.y),
        }
    }
}

/// The left edge after dragging `handle` of `r` to `p` within `bounds`.
pub open spec fn resized_left(r: Rect, handle: Handle, p: Point, bounds: Rect) -> int {
    if handle.spec_moves_left() {
        spec_clamp(p.x as int, bounds.x as int, r.spec_right() - MIN_SELECTION_SIZE)
    } else {
        r.x as int
    }
}

/// The right edge after dragging `handle` of `r` to `p` within `bounds`.
pub open spec fn resized_right(r: Rect, handle: Handle, p: Point, bounds: Rect) -> int {
    if handle.spec_moves_right() {
        spec_clamp(
            p.x as int,
            resized_left(r, handle, p, bounds) + MIN_SELECTION_SIZE,
            bounds.spec_right(),
        )
    } else {
        r.spec_right()
    }
}

/// The top edge after dragging `handle` of `r` to `p` within `bounds`.
pub open spec fn resized_top(r: Rect, handle: Handle, p: Point, bounds: Rect) -> int {
    if handle.spec_moves_top() {
        spec_clamp(p.y as int, bounds.y as int, r.spec_bottom() - MIN_SELECTION_SIZE)
    } else {
        r.y as int
    }
}

/// The bottom edge after dragging `handle` of `r` to `p` within `bounds`.
pub open spec fn resized_bottom(r: Rect, handle: Handle, p: Point, bounds: Rect) -> int {
    if handle.spec_moves_bottom() {
        spec_clamp(
            p.y as int,
            resized_top(r, handle, p, bounds) + MIN_SELECTION_SIZE,
            bounds.spec_bottom(),
        )
    } else {
        r.spec_bottom()
    }
}

/// Dragging `handle` of `r` within `bounds` has a defined outcome: each edge
/// that moves has room for a selection of the minimum size beside the
/// opposite edge.
pub open spec fn resize_defined(r: Rect, handle: Handle, bounds: Rect) -> bool {
    &&& handle.spec_moves_left() ==> bounds.x <= r.spec_right() - MIN_SELECTION_SIZE
    &&& handle.spec_moves_right() ==> r.x + MIN_SELECTION_SIZE <= bounds.spec_right()
    &&& handle.spec_moves_top() ==> bounds.y <= r.spec_bottom() - MIN_SELECTION_SIZE
    &&& handle.spec_moves_bottom() ==> r.y + MIN_SELECTION_SIZE <= bounds.spec_bottom()
}

/// `r` after dragging `handle` to `p` within `bounds`.
pub open spec fn spec_resized(r: Rect, handle: Handle, p: Point, bounds: Rect) -> Rect {
    rect_of(
        resized_left(r, handle, p, bounds),
        resized_top(r, handle, p, bounds),
        resized_right(r, handle, p, bounds) - resized_left(r, handle, p, bounds),
        resized_bottom(r, handle, p, bounds) - resized_top(r, handle, p, bounds),
    )
}

impl Rect {
    /// The rectangle after dragging `handle` to `pointer`. Each edge that the
    /// handle moves follows the pointer, kept inside `bounds` and at least
    /// [`MIN_SELECTION_SIZE`] away from the opposite edge; the other edges
    /// stay where they are.
    pub fn resized(self, handle: Handle, pointer: Point, bounds: Rect) -> (r: Self)
        requires
            self.in_range(),
            bounds.in_range(),
            pointer.in_range(),
            resize_defined(self, handle, bounds),
        ensures
            r == spec_resized(self, handle, pointer, bounds),
            rect_is(
                r,
                resized_left(self, handle, pointer, bounds),
                resized_top(self, handle, pointer, bounds),
                resized_right(self, handle, pointer, bounds) - resized_left(
                    self,
                    handle,
                    pointer,
                    bounds,
                ),
                resized_bottom(self, handle, pointer, bounds) - resized_top(
                    self,
                    handle,
                    pointer,
                    bounds,
                ),
            ),
            !handle.spec_moves_left() ==> r.x == self.x,
            !handle.spec_moves_right() ==> r.spec_right() == self.spec_right(),
            !handle.spec_moves_top() ==> r.y == self.y,
            !handle.spec_moves_bottom() ==> r.spec_bottom() == self.spec_bottom(),
            handle.spec_moves_left() ==> r.x == spec_clamp(
                pointer.x as int,
                bounds.x as int,
                self.spec_right() - MIN_SELECTION_SIZE,
            ),
            handle.spec_moves_right() ==> r.spec_right() == spec_clamp(
                pointer.x as int,
                self.x + MIN_SELECTION_SIZE,
                bounds.spec_right(),
            ),
            handle.spec_moves_top() ==> r.y == spec_clamp(
                pointer.y as int,
                bounds.y as int,
                self.spec_bottom() - MIN_SELECTION_SIZE,
            ),
            handle.spec_moves_bottom() ==> r.spec_bottom() == spec_clamp(
                pointer.y as int,
                self.y + MIN_SELECTION_SIZE,
                bounds.spec_bottom(),
            ),
            handle.spec_moves_left() || handle.spec_moves_right() ==> r.width >= MIN_SELECTION_SIZE,
            handle.spec_moves_top() || handle.spec_moves_bottom() ==> r.height
                >= MIN_SELECTION_SIZE,
            self.inside(bounds) ==> r.inside(bounds),
            self.spec_is_valid() ==> r.spec_is_valid(),
            self.is_even() && bounds.is_even() && pointer.is_even() ==> r.is_even(),
    {
        let mut left = self.x;
        let mut top = self.y;
        let mut right = self.right();
        let mut bottom = self.bottom();

        if handle.moves_left() {
            left = clamp(pointer.x, bounds.x, right - MIN_SELECTION_SIZE);
        }
        if handle.moves_right() {
            right = clamp(pointer.x, left + MIN_SELECTION_SIZE, bounds.right());
        }
        if handle.moves_top() {
            top = clamp(pointer.y, bounds.y, bottom - MIN_SELECTION_SIZE);
        }
        if handle.moves_bottom() {
            bottom = clamp(pointer.y, top + MIN_SELECTION_SIZE, bounds.bottom());
        }

        Self::new(left, top, right - left, bottom - top)
    }
}

/// What a pointer position on the overlay designates.
#[derive(Debug, Clone, Copy, PartialEq, Eq, Structural)]
pub enum HitTarget {
    Outside,
    Selection,
    Handle(Handle),
    CancelButton,
    SelectButton,
}

/// What a held pointer button is doing.
#[derive(Debug, Clone, Copy, PartialEq, Eq, Structural)]
pub enum Interaction {
    Idle,
    Drawing { anchor: Point, output: usize },
    Moving { pointer_origin: Point, selection_origin: Rect, output: usize },
    Resizing { handle: Handle, selection_origin: Rect, output: usize },
    PressingCancel,
    PressingSelect,
}

/// Where the toolbar goes for `selection` on an output with `bounds`:
/// horizontally centred on the selection but kept on the output; below the
/// selection when it fits there, else above it, but not above the output.
pub open spec fn spec_toolbar_rect(selection: Rect, bounds: Rect) -> Rect {
    let x = spec_clamp(
        selection.spec_center_x() - TOOLBAR_WIDTH / 2,
        bounds.x as int,
        bounds.spec_right() - TOOLBAR_WIDTH,
    );
    let below = selection.spec_bottom() + TOOLBAR_GAP;
    let y = if below + TOOLBAR_HEIGHT <= bounds.spec_bottom() {
        below
    } else {
        int_max(selection.y - TOOLBAR_GAP - TOOLBAR_HEIGHT, bounds.y as int)
    };
    rect_of(x, y, TOOLBAR_WIDTH as int, TOOLBAR_HEIGHT as int)
}

/// The vertical position of the toolbar's buttons: centred in `toolbar`.
pub open spec fn button_top(toolbar: Rect) -> int {
    toolbar.y + (toolbar.height - SELECT_BUTTON_HEIGHT) / 2
}

/// The select button of `toolbar`: after the toolbar's padding.
pub open spec fn spec_select_button_rect(toolbar: Rect) -> Rect {
    rect_of(
        toolbar.x + TOOLBAR_PADDING,
        button_top(toolbar),
        SELECT_BUTTON_WIDTH as int,
        SELECT_BUTTON_HEIGHT as int,
    )
}

/// The cancel button of `toolbar`: right of the select button.
pub open spec fn spec_cancel_button_rect(toolbar: Rect) -> Rect {
    rect_of(
        toolbar.x + TOOLBAR_PADDING + SELECT_BUTTON_WIDTH + TOOLBAR_CONTENT_GAP,
        button_top(toolbar),
        CANCEL_BUTTON_WIDTH as int,
        SELECT_BUTTON_HEIGHT as int,
    )
}

/// Where the toolbar goes for `selection` on an output with `bounds`.
pub fn toolbar_rect(selection: Rect, bounds: Rect) -> (r: Rect)
    requires
        selection.in_layout_range(),
        selection.has_even_extent(),
        bounds.in_layout_range(),
        bounds.width >= TOOLBAR_WIDTH,
    ensures
        r == spec_toolbar_rect(selection, bounds),
        r.in_range(),
{
    let x = clamp(selection.center().x - TOOLBAR_WIDTH / 2, bounds.x, bounds.right() - TOOLBAR_WIDTH);
    let below = selection.bottom() + TOOLBAR_GAP;
    let y = if below + TOOLBAR_HEIGHT <= bounds.bottom() {
        below
    } else {
        let above = selection.y - TOOLBAR_GAP - TOOLBAR_HEIGHT;
        if above >= bounds.y {
            above
        } else {
            bounds.y
        }
    };
    Rect::new(x, y, TOOLBAR_WIDTH, TOOLBAR_HEIGHT)
}

/// The cancel button of `toolbar`.
pub fn cancel_button_rect(toolbar: Rect) -> (r: Rect)
    requires
        toolbar.in_range(),
        is_even(toolbar.height as int),
    ensures
        r == spec_cancel_button_rect(toolbar),
{
    let select = select_button_rect(toolbar);
    Rect::new(
        select.x + SELECT_BUTTON_WIDTH + TOOLBAR_CONTENT_GAP,
        toolbar.y + half(toolbar.height - SELECT_BUTTON_HEIGHT),
        CANCEL_BUTTON_WIDTH,
        SELECT_BUTTON_HEIGHT,
    )
}

/// The select button of `toolbar`.
pub fn select_button_rect(toolbar: Rect) -> (r: Rect)
    requires
        toolbar.in_range(),
        is_even(toolbar.height as int),
    ensures
        r == spec_select_button_rect(toolbar),
{
    Rect::new(
        toolbar.x + TOOLBAR_PADDING,
        toolbar.y + half(toolbar.height - SELECT_BUTTON_HEIGHT),
        SELECT_BUTTON_WIDTH,
        SELECT_BUTTON_HEIGHT,
    )
}

/// `point` grabs `handle` of `selection`: it lies within
/// [`HANDLE_HIT_RADIUS`] of the handle on both axes.
pub open spec fn near_handle(point: Point, selection: Rect, handle: Handle) -> bool {
    let c = handle.spec_center(selection);
    int_abs(point.x - c.x) <= HANDLE_HIT_RADIUS && int_abs(point.y - c.y) <= HANDLE_HIT_RADIUS
}

/// The first handle, from position `i` of [`Handle::ALL`] on, that `point`
/// grabs.
pub open spec fn first_handle_hit(point: Point, selection: Rect, i: int) -> Option<Handle>
    decreases HANDLE_COUNT - i,
{
    if i < 0 || i >= HANDLE_COUNT {
        None
    } else if near_handle(point, selection, spec_handle_at(i)) {
        Some(spec_handle_at(i))
    } else {
        first_handle_hit(point, selection, i + 1)
    }
}

/// What `point` designates: the toolbar's buttons first, then the handles in
/// the order of [`Handle::ALL`], then the selection itself.
pub open spec fn spec_hit_test(point: Point, selection: Rect, bounds: Rect) -> HitTarget {
    let toolbar = spec_toolbar_rect(selection, bounds);
    if spec_select_button_rect(toolbar).spec_contains(point) {
        HitTarget::SelectButton
    } else if spec_cancel_button_rect(toolbar).spec_contains(point) {
        HitTarget::CancelButton
    } else if first_handle_hit(point, selection, 0) is Some {
        HitTarget::Handle(first_handle_hit(point, selection, 0)->0)
    } else if selection.spec_contains(point) {
        HitTarget::Selection
    } else {
        HitTarget::Outside
    }
}

/// Whether `point` lies within [`HANDLE_HIT_RADIUS`] of `center` on both axes.
fn within_hit_radius(point: Point, center: Point) -> (b: bool)
    requires
        point.in_range(),
        center.in_range(),
    ensures
        b == (int_abs(point.x - center.x) <= HANDLE_HIT_RADIUS && int_abs(point.y - center.y)
            <= HANDLE_HIT_RADIUS),
{
    let dx = if point.x >= center.x { point.x - center.x } else { center.x - point.x };
    let dy = if point.y >= center.y { point.y - center.y } else { center.y - point.y };
    dx <= HANDLE_HIT_RADIUS && dy <= HANDLE_HIT_RADIUS
}

/// What `point` designates on an output with `bounds` that shows `selection`.
pub fn hit_test(point: Point, selection: Rect, bounds: Rect) -> (t: HitTarget)
    requires
        point.in_layout_range(),
        selection.in_layout_range(),
        selection.has_even_extent(),
        bounds.in_layout_range(),
        bounds.width >= TOOLBAR_WIDTH,
    ensures
        t == spec_hit_test(point, selection, bounds),
        spec_select_button_rect(spec_toolbar_rect(selection, bounds)).spec_contains(point) ==> t
            == HitTarget::SelectButton,
        spec_cancel_button_rect(spec_toolbar_rect(selection, bounds)).spec_contains(point)
            && !spec_select_button_rect(spec_toolbar_rect(selection, bounds)).spec_contains(point)
            ==> t == HitTarget::CancelButton,
        t is Selection ==> selection.spec_contains(point),
{
    let toolbar = toolbar_rect(selection, bounds);
    if select_button_rect(toolbar).contains(point) {
        return HitTarget::SelectButton;
    }
    if cancel_button_rect(toolbar).contains(point) {
        return HitTarget::CancelButton;
    }

    let mut i: usize = 0;
    while i < HANDLE_COUNT
        invariant
            i <= HANDLE_COUNT,
            point.in_layout_range(),
            selection.in_layout_range(),
            selection.has_even_extent(),
            first_handle_hit(point, selection, 0) == first_handle_hit(point, selection, i as int),
            !spec_select_button_rect(spec_toolbar_rect(selection, bounds)).spec_contains(point),
            !spec_cancel_button_rect(spec_toolbar_rect(selection, bounds)).spec_contains(point),
        decreases HANDLE_COUNT - i,
    {
        let handle = Handle::at(i);
        let center = handle.center(selection);
        if within_hit_radius(point, center) {
            assert(first_handle_hit(point, selection, i as int) == Some(handle));
            return HitTarget::Handle(handle);
        }
        i = i + 1;
    }

    if selection.contains(point) {
        HitTarget::Selection
    } else {
        HitTarget::Outside
    }
}

/// `v` units rounded to the nearest whole pixel, halves away from zero.
pub open spec fn round_to_pixel(v: int) -> int {
    if v >= 0 {
        (v + HALF_PIXEL) / (UNITS_PER_PIXEL as int)
    } else {
        -((-v + HALF_PIXEL) / (UNITS_PER_PIXEL as int))
    }
}

/// `v` limited to the range of `i32`, as a float-to-`i32` cast limits it.
pub open spec fn saturate_i32(v: int) -> int {
    spec_clamp(v, i32::MIN as int, i32::MAX as int)
}

/// The decimal digits of `n`, most significant first.
pub open spec fn decimal_digits(n: nat) -> Seq<char>
    decreases n,
{
    if n < 10 {
        seq![(n + 48) as char]
    } else {
        decimal_digits(n / 10) + seq![((n % 10) + 48) as char]
    }
}

/// `v` written in decimal, with a leading `-` when negative.
pub open spec fn decimal_text(v: int) -> Seq<char> {
    if v < 0 {
        seq!['-'] + decimal_digits((-v) as nat)
    } else {
        decimal_digits(v as nat)
    }
}

/// The text `X,Y WxH` that region tools such as `slurp` print.
pub open spec fn geometry_text(x: int, y: int, width: int, height: int) -> Seq<char> {
    decimal_text(x) + seq![','] + decimal_text(y) + seq![' '] + decimal_text(width) + seq!['x']
        + decimal_text(height)
}

/// The decimal digit `d`.
fn digit_text(d: u32) -> (s: &'static str)
    requires
        d < 10,
    ensures
        s@ == seq![(d + 48) as char],
{
    match d {
        0 => {
            proof {
                reveal_strlit("0");
            }
            "0"
        },
        1 => {
            proof {
                reveal_strlit("1");
            }
            "1"
        },
        2 => {
            proof {
                reveal_strlit("2");
            }
            "2"
        },
        3 => {
            proof {
                reveal_strlit("3");
            }
            "3"
        },
        4 => {
            proof {
                reveal_strlit("4");
            }
            "4"
        },
        5 => {
            proof {
                reveal_strlit("5");
            }
            "5"
        },
        6 => {
            proof {
                reveal_strlit("6");
            }
            "6"
        },
        7 => {
            proof {
                reveal_strlit("7");
            }
            "7"
        },
        8 => {
            proof {
                reveal_strlit("8");
            }
            "8"
        },
        _ => {
            proof {
                reveal_strlit("9");
            }
            "9"
        },
    }
}

/// The decimal digits of `n`.
fn digits_text(n: u32) -> (s: String)
    ensures
        s@ == decimal_digits(n as nat),
    decreases n,
{
    if n < 10 {
        String::from_str(digit_text(n))
    } else {
        let mut s = digits_text(n / 10);
        s.append(digit_text(n % 10));
        s
    }
}

/// `v` in decimal, with a leading `-` when negative.
pub fn decimal(v: i32) -> (s: String)
    ensures
        s@ == decimal_text(v as int),
{
    if v < 0 {
        proof {
            reveal_strlit("-");
        }
        let mut s = String::from_str("-");
        let magnitude = (-(v as i64)) as u32;
        let digits = digits_text(magnitude);
        s.append(digits.as_str());
        s
    } else {
        digits_text(v as u32)
    }
}

/// `v` units rounded to the nearest whole pixel, limited to the range of
/// `i32`.
pub fn pixels(v: i64) -> (r: i32)
    requires
        in_range(v as int),
    ensures
        r == saturate_i32(round_to_pixel(v as int)),
{
    let rounded = if v >= 0 {
        (v + HALF_PIXEL) / UNITS_PER_PIXEL
    } else {
        -((-v + HALF_PIXEL) / UNITS_PER_PIXEL)
    };
    if rounded > i32::MAX as i64 {
        i32::MAX
    } else if rounded < i32::MIN as i64 {
        i32::MIN
    } else {
        rounded as i32
    }
}

impl Rect {
    /// The rectangle in whole pixels, each value rounded on its own.
    pub fn to_pixels(self) -> (r: (i32, i32, i32, i32))
        requires
            self.in_range(),
        ensures
            r.0 == saturate_i32(round_to_pixel(self.x as int)),
            r.1 == saturate_i32(round_to_pixel(self.y as int)),
            r.2 == saturate_i32(round_to_pixel(self.width as int)),
            r.3 == saturate_i32(round_to_pixel(self.height as int)),
    {
        (pixels(self.x), pixels(self.y), pixels(self.width), pixels(self.height))
    }

    /// The rectangle as `X,Y WxH` in whole pixels, the geometry format of
    /// `slurp`.
    pub fn to_slurp_geometry(self) -> (s: String)
        requires
            self.in_range(),
        ensures
            s@ == geometry_text(
                saturate_i32(round_to_pixel(self.x as int)),
                saturate_i32(round_to_pixel(self.y as int)),
                saturate_i32(round_to_pixel(self.width as int)),
                saturate_i32(round_to_pixel(self.height as int)),
            ),
    {
        let (x, y, width, height) = self.to_pixels();
        proof {
            reveal_strlit(",");
            reveal_strlit(" ");
            reveal_strlit("x");
        }
        let mut text = decimal(x);
        text.append(",");
        let part = decimal(y);
        text.append(part.as_str());
        text.append(" ");
        let part = decimal(width);
        text.append(part.as_str());
        text.append("x");
        let part = decimal(height);
        text.append(part.as_str());
        assert(text@ =~= geometry_text(x as int, y as int, width as int, height as int));
        text
    }
}

/// Normalising two corners does not depend on their order.
pub proof fn lemma_from_points_symmetric(a: Point, b: Point)
    requires
        a.in_range(),
        b.in_range(),
    ensures
        spec_from_points(a, b) == spec_from_points(b, a),
{
}

/// The rectangle normalised from two corners has a non-negative extent,
/// contains both corners, and has them on its edges: its left and right
/// edges are the smaller and larger x, its top and bottom the smaller and
/// larger y.
pub proof fn lemma_from_points_spans(a: Point, b: Point)
    requires
        a.in_range(),
        b.in_range(),
    ensures
        ({
            let r = spec_from_points(a, b);
            &&& 0 <= r.width && 0 <= r.height
            &&& r.spec_contains(a) && r.spec_contains(b)
            &&& r.x == int_min(a.x as int, b.x as int) && r.spec_right() == int_max(
                a.x as int,
                b.x as int,
            )
            &&& r.y == int_min(a.y as int, b.y as int) && r.spec_bottom() == int_max(
                a.y as int,
                b.y as int,
            )
        }),
{
}

/// Two corners inside `bounds` normalise to a rectangle inside `bounds`.
pub proof fn lemma_from_points_inside(a: Point, b: Point, bounds: Rect)
    requires
        a.in_range(),
        b.in_range(),
        bounds.spec_contains(a),
        bounds.spec_contains(b),
    ensures
        spec_from_points(a, b).inside(bounds),
{
}

/// Clamping a point into a rectangle leaves a point that is already in it
/// where it is; so clamping twice is clamping once.
pub proof fn lemma_clamp_point_keeps_contained(r: Rect, p: Point)
    requires
        r.in_range(),
        p.in_range(),
        0 <= r.width,
        0 <= r.height,
    ensures
        r.spec_contains(p) ==> spec_clamp_point(r, p) == p,
        spec_clamp_point(r, spec_clamp_point(r, p)) == spec_clamp_point(r, p),
{
}

/// A move that keeps the rectangle inside `bounds` is carried out exactly;
/// in particular, moving by nothing leaves a rectangle inside `bounds` as it
/// is.
pub proof fn lemma_translated_exact_inside(r: Rect, dx: int, dy: int, bounds: Rect)
    requires
        r.in_range(),
        bounds.in_range(),
        in_range(dx),
        in_range(dy),
        r.width <= bounds.width,
        r.height <= bounds.height,
        rect_of(r.x + dx, r.y + dy, r.width as int, r.height as int).inside(bounds),
    ensures
        spec_translated(r, dx, dy, bounds) == rect_of(
            r.x + dx,
            r.y + dy,
            r.width as int,
            r.height as int,
        ),
{
}

/// Dragging a corner handle of a valid selection inside `bounds` to where
/// that corner already is leaves the selection as it is.
pub proof fn lemma_resize_corner_in_place(r: Rect, handle: Handle, bounds: Rect)
    requires
        r.in_range(),
        bounds.in_range(),
        r.inside(bounds),
        r.spec_is_valid(),
        handle is NorthWest || handle is NorthEast || handle is SouthEast || handle is SouthWest,
    ensures
        spec_resized(r, handle, handle.spec_center(r), bounds) == r,
{
}

/// The toolbar never leaves its output sideways, and is as wide and high as
/// the toolbar style says.
pub proof fn lemma_toolbar_on_output(selection: Rect, bounds: Rect)
    requires
        selection.in_layout_range(),
        bounds.in_layout_range(),
        bounds.width >= TOOLBAR_WIDTH,
    ensures
        ({
            let t = spec_toolbar_rect(selection, bounds);
            &&& bounds.x <= t.x
            &&& t.spec_right() <= bounds.spec_right()
            &&& t.width == TOOLBAR_WIDTH
            &&& t.height == TOOLBAR_HEIGHT
        }),
{
}

/// The toolbar is horizontally centred on the selection unless that would
/// push it off the output.
pub proof fn lemma_toolbar_centered(selection: Rect, bounds: Rect)
    requires
        selection.in_layout_range(),
        bounds.in_layout_range(),
        bounds.width >= TOOLBAR_WIDTH,
        bounds.x <= selection.spec_center_x() - TOOLBAR_WIDTH / 2,
        selection.spec_center_x() + TOOLBAR_WIDTH / 2 <= bounds.spec_right(),
    ensures
        spec_toolbar_rect(selection, bounds).spec_center_x() == selection.spec_center_x(),
{
}

/// The toolbar sits just below the selection when it fits on the output
/// there; otherwise, when it fits above the selection, it sits just above,
/// clear of the selection; never above the output.
pub proof fn lemma_toolbar_beside_selection(selection: Rect, bounds: Rect)
    requires
        selection.in_layout_range(),
        bounds.in_layout_range(),
        bounds.width >= TOOLBAR_WIDTH,
    ensures
        ({
            let t = spec_toolbar_rect(selection, bounds);
            let fits_below = selection.spec_bottom() + TOOLBAR_GAP + TOOLBAR_HEIGHT
                <= bounds.spec_bottom();
            let fits_above = bounds.y <= selection.y - TOOLBAR_GAP - TOOLBAR_HEIGHT;
            &&& fits_below ==> t.y == selection.spec_bottom() + TOOLBAR_GAP
            &&& !fits_below && fits_above ==> t.spec_bottom() + TOOLBAR_GAP == selection.y
            &&& !fits_below ==> bounds.y <= t.y
        }),
{
}

/// Both buttons lie inside the toolbar, the select button left of the
/// cancel button, with a gap between them.
pub proof fn lemma_buttons_inside_toolbar(toolbar: Rect)
    requires
        toolbar.in_range(),
        toolbar.width == TOOLBAR_WIDTH,
        toolbar.height == TOOLBAR_HEIGHT,
    ensures
        spec_select_button_rect(toolbar).inside(toolbar),
        spec_cancel_button_rect(toolbar).inside(toolbar),
        spec_select_button_rect(toolbar).spec_right() < spec_cancel_button_rect(toolbar).x,
{
}

/// Hit testing names a target only where the pointer is on it: a button
/// that contains the point, a handle the point is near, or a selection that
/// contains the point. A point that designates nothing is on none of them.
pub proof fn lemma_hit_test_sound(point: Point, selection: Rect, bounds: Rect)
    ensures
        ({
            let t = spec_hit_test(point, selection, bounds);
            let toolbar = spec_toolbar_rect(selection, bounds);
            &&& t is SelectButton ==> spec_select_button_rect(toolbar).spec_contains(point)
            &&& t is CancelButton ==> spec_cancel_button_rect(toolbar).spec_contains(point)
                && !spec_select_button_rect(toolbar).spec_contains(point)
            &&& t matches HitTarget::Handle(h) ==> near_handle(point, selection, h)
            &&& t is Selection ==> selection.spec_contains(point)
            &&& t is Outside ==> {
                &&& !selection.spec_contains(point)
                &&& !spec_select_button_rect(toolbar).spec_contains(point)
                &&& !spec_cancel_button_rect(toolbar).spec_contains(point)
                &&& forall|i: int| 0 <= i < HANDLE_COUNT ==> !near_handle(point, selection, #[trigger] spec_handle_at(i))
            }
        }),
{
    lemma_first_handle_hit(point, selection, 0);
}

/// The first handle hit from position `i` on is one the point is near, and
/// when there is none, the point is near no handle from `i` on.
proof fn lemma_first_handle_hit(point: Point, selection: Rect, i: int)
    requires
        0 <= i <= HANDLE_COUNT,
    ensures
        first_handle_hit(point, selection, i) matches Some(h) ==> near_handle(point, selection, h),
        first_handle_hit(point, selection, i) is None ==> forall|j: int|
            i <= j < HANDLE_COUNT ==> !near_handle(point, selection, #[trigger] spec_handle_at(j)),
    decreases HANDLE_COUNT - i,
{
    if i < HANDLE_COUNT {
        lemma_first_handle_hit(point, selection, i + 1);
    }
}

/// Off the toolbar's buttons, a point on a selection's corner grabs that
/// corner's handle, not the selection: handles take precedence.
pub proof fn lemma_corner_grabs_handle(selection: Rect, bounds: Rect)
    requires
        selection.in_range(),
        0 <= selection.width,
        0 <= selection.height,
        ({
            let toolbar = spec_toolbar_rect(selection, bounds);
            let corner = point_of(selection.x as int, selection.y as int);
            &&& !spec_select_button_rect(toolbar).spec_contains(corner)
            &&& !spec_cancel_button_rect(toolbar).spec_contains(corner)
        }),
    ensures
        spec_hit_test(point_of(selection.x as int, selection.y as int), selection, bounds)
            == HitTarget::Handle(Handle::NorthWest),
{
    let corner = point_of(selection.x as int, selection.y as int);
    assert(near_handle(corner, selection, spec_handle_at(0)));
}

/// A handle lies on exactly the edges it moves: on a rectangle with a
/// positive extent, its x is the left edge iff it moves the left edge, the
/// right edge iff it moves the right edge, and likewise vertically.
pub proof fn lemma_handle_on_moved_edges(handle: Handle, rect: Rect)
    requires
        rect.in_range(),
        rect.has_even_extent(),
        rect.width > 0,
        rect.height > 0,
    ensures
        handle.spec_moves_left() <==> handle.spec_center(rect).x == rect.x,
        handle.spec_moves_right() <==> handle.spec_center(rect).x == rect.spec_right(),
        handle.spec_moves_top() <==> handle.spec_center(rect).y == rect.y,
        handle.spec_moves_bottom() <==> handle.spec_center(rect).y == rect.spec_bottom(),
{
}

/// The toolbar's buttons take precedence over everything under them: a
/// point on the select button designates the select button, and a point on
/// the cancel button (and not on the select button) the cancel button,
/// whatever handle or selection lies beneath.
pub proof fn lemma_hit_test_buttons_first(point: Point, selection: Rect, bounds: Rect)
    ensures
        ({
            let toolbar = spec_toolbar_rect(selection, bounds);
            let t = spec_hit_test(point, selection, bounds);
            &&& spec_select_button_rect(toolbar).spec_contains(point) ==> t
                == HitTarget::SelectButton
            &&& spec_cancel_button_rect(toolbar).spec_contains(point)
                && !spec_select_button_rect(toolbar).spec_contains(point) ==> t
                == HitTarget::CancelButton
        }),
{
}

/// Resizing moves only the edges the handle moves: each other edge of the
/// result is where it was. Each edge it moves follows the pointer, kept on
/// the output and at least the minimum size from the opposite edge.
pub proof fn lemma_resize_frame(r: Rect, handle: Handle, p: Point, bounds: Rect)
    requires
        r.in_range(),
        bounds.in_range(),
        p.in_range(),
        resize_defined(r, handle, bounds),
    ensures
        ({
            let out = spec_resized(r, handle, p, bounds);
            &&& !handle.spec_moves_left() ==> out.x == r.x
            &&& !handle.spec_moves_right() ==> out.spec_right() == r.spec_right()
            &&& !handle.spec_moves_top() ==> out.y == r.y
            &&& !handle.spec_moves_bottom() ==> out.spec_bottom() == r.spec_bottom()
            &&& handle.spec_moves_left() ==> out.x == spec_clamp(
                p.x as int,
                bounds.x as int,
                r.spec_right() - MIN_SELECTION_SIZE,
            )
            &&& handle.spec_moves_right() ==> out.spec_right() == spec_clamp(
                p.x as int,
                r.x + MIN_SELECTION_SIZE,
                bounds.spec_right(),
            )
            &&& handle.spec_moves_top() ==> out.y == spec_clamp(
                p.y as int,
                bounds.y as int,
                r.spec_bottom() - MIN_SELECTION_SIZE,
            )
            &&& handle.spec_moves_bottom() ==> out.spec_bottom() == spec_clamp(
                p.y as int,
                r.y + MIN_SELECTION_SIZE,
                bounds.spec_bottom(),
            )
        }),
{
}

/// The handles on the edges' midpoints move one edge, the corner handles two
/// adjacent edges, and no handle moves two opposite edges.
pub proof fn lemma_handle_edges(handle: Handle)
    ensures
        !(handle.spec_moves_left() && handle.spec_moves_right()),
        !(handle.spec_moves_top() && handle.spec_moves_bottom()),
        handle is North ==> handle.spec_moves_top() && !handle.spec_moves_left()
            && !handle.spec_moves_right(),
        handle is South ==> handle.spec_moves_bottom() && !handle.spec_moves_left()
            && !handle.spec_moves_right(),
        handle is East ==> handle.spec_moves_right() && !handle.spec_moves_top()
            && !handle.spec_moves_bottom(),
        handle is West ==> handle.spec_moves_left() && !handle.spec_moves_top()
            && !handle.spec_moves_bottom(),
        handle is NorthWest ==> handle.spec_moves_left() && handle.spec_moves_top(),
        handle is NorthEast ==> handle.spec_moves_right() && handle.spec_moves_top(),
        handle is SouthEast ==> handle.spec_moves_right() && handle.spec_moves_bottom(),
        handle is SouthWest ==> handle.spec_moves_left() && handle.spec_moves_bottom(),
{
}

} // verus!
