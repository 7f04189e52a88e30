//! Decisions about outputs and their overlay surfaces: an output's bounds,
//! its name, the size of its surface, and which buffer a frame goes into.

use vstd::prelude::*;

use crate::app::{output_ok, OUTPUT_LIMIT};
use crate::geometry::{is_even, Rect, UNITS_PER_PIXEL};

verus! {

/// The bounds of an output from its logical position and size in pixels.
pub fn output_bounds(x: i32, y: i32, width: i32, height: i32) -> (r: Rect)
    ensures
        r.is_even(),
        r.x == x * UNITS_PER_PIXEL,
        r.y == y * UNITS_PER_PIXEL,
        r.width == width * UNITS_PER_PIXEL,
        r.height == height * UNITS_PER_PIXEL,
{
    Rect::new(
        x as i64 * UNITS_PER_PIXEL,
        y as i64 * UNITS_PER_PIXEL,
        width as i64 * UNITS_PER_PIXEL,
        height as i64 * UNITS_PER_PIXEL,
    )
}

/// Whether `v` is even.
fn even(v: i64) -> (b: bool)
    ensures
        b == is_even(v as int),
{
    if v >= 0 {
        v % 2 == 0
    } else {
        let w = -(v + 1);
        let b = w % 2 == 1;
        assert(b == is_even(v as int)) by (nonlinear_arith)
            requires
                v < 0,
                w == -(v + 1),
                b == (w % 2 == 1),
        ;
        b
    }
}

/// Whether the selector can run on an output with `bounds` (see
/// [`output_ok`]).
pub fn usable_output(bounds: Rect) -> (b: bool)
    ensures
        b == output_ok(bounds),
{
    let in_limits = -OUTPUT_LIMIT <= bounds.x && bounds.x <= OUTPUT_LIMIT && -OUTPUT_LIMIT
        <= bounds.y && bounds.y <= OUTPUT_LIMIT && 0 < bounds.width && bounds.width
        <= OUTPUT_LIMIT && 0 < bounds.height && bounds.height <= OUTPUT_LIMIT;
    in_limits && even(bounds.x) && even(bounds.y) && even(bounds.width) && even(bounds.height)
}

/// The name to show for an output: its own name, else the name its logical
/// description gives, else `unknown`.
pub fn display_name<'a>(name: &'a str, logical_name: &'a str) -> (r: &'a str)
    ensures
        name@.len() > 0 ==> r@ == name@,
        name@.len() == 0 && logical_name@.len() > 0 ==> r@ == logical_name@,
        name@.len() == 0 && logical_name@.len() == 0 ==> r@ == "unknown"@,
{
    if !name.is_empty() {
        name
    } else if !logical_name.is_empty() {
        logical_name
    } else {
        "unknown"
    }
}

/// One side of a surface after the compositor configured it: the side the
/// compositor asked for, or, when it left the choice to the client (zero),
/// the output's extent in whole pixels.
pub open spec fn spec_surface_extent(requested: u32, output_extent: int) -> i32 {
    if requested == 0 {
        (output_extent / (UNITS_PER_PIXEL as int)) as i32
    } else {
        requested as i32
    }
}

/// One side of a surface after the compositor configured it.
pub fn surface_extent(requested: u32, output_extent: i64) -> (r: i32)
    requires
        0 <= output_extent <= OUTPUT_LIMIT,
    ensures
        r == spec_surface_extent(requested, output_extent as int),
{
    if requested == 0 {
        (output_extent / UNITS_PER_PIXEL) as i32
    } else {
        requested as i32
    }
}

/// Whether a surface of `width` by `height` holding buffers or not
/// (`has_buffers`) needs new buffers to become `new_width` by `new_height`:
/// unless it has buffers of that very size.
pub fn needs_new_buffers(
    width: i32,
    height: i32,
    has_buffers: bool,
    new_width: i32,
    new_height: i32,
) -> (b: bool)
    ensures
        b == !(width == new_width && height == new_height && has_buffers),
{
    !(width == new_width && height == new_height && has_buffers)
}

/// What drawing a surface's next frame takes.
#[derive(Debug, Clone, Copy, PartialEq, Eq, Structural)]
pub enum DrawStep {
    /// The surface already shows this revision.
    UpToDate,
    /// Every buffer is still held by the compositor; try again once one is
    /// released.
    NoFreeBuffer,
    /// Draw into the buffer at this index.
    Draw(usize),
}

/// What drawing `revision` takes on a surface that last showed
/// `rendered_revision` and whose buffers are busy as `busy` says: nothing if
/// it is current, else the first buffer the compositor does not hold.
pub fn draw_step(rendered_revision: u64, revision: u64, busy: &Vec<bool>) -> (step: DrawStep)
    ensures
        rendered_revision == revision ==> step == DrawStep::UpToDate,
        rendered_revision != revision ==> (match step {
            DrawStep::UpToDate => false,
            DrawStep::NoFreeBuffer => forall|j: int| 0 <= j < busy@.len() ==> busy@[j],
            DrawStep::Draw(i) => {
                &&& i < busy@.len()
                &&& !busy@[i as int]
                &&& forall|j: int| 0 <= j < i ==> busy@[j]
            },
        }),
{
    if rendered_revision == revision {
        return DrawStep::UpToDate;
    }
    let mut i: usize = 0;
    while i < busy.len()
        invariant
            i <= busy@.len(),
            rendered_revision != revision,
            forall|j: int| 0 <= j < i ==> busy@[j],
        decreases busy@.len() - i,
    {
        if !busy[i] {
            return DrawStep::Draw(i);
        }
        i = i + 1;
    }
    DrawStep::NoFreeBuffer
}

} // verus!
