//! Sizes of the overlay's controls, in coordinate units.

use vstd::prelude::*;

use crate::geometry::UNITS_PER_PIXEL;

verus! {

/// Side length of a resize handle as drawn.
pub const HANDLE_SIZE: i64 = 10 * UNITS_PER_PIXEL;

/// Half the side of the square around a handle's centre that grabs it.
pub const HANDLE_HIT_RADIUS: i64 = 12 * UNITS_PER_PIXEL;

/// Width of the toolbar that holds the select and cancel buttons.
pub const TOOLBAR_WIDTH: i64 = 146 * UNITS_PER_PIXEL;

/// Height of the toolbar.
pub const TOOLBAR_HEIGHT: i64 = 52 * UNITS_PER_PIXEL;

/// Distance between the selection and the toolbar.
pub const TOOLBAR_GAP: i64 = 14 * UNITS_PER_PIXEL;

/// Space between the toolbar's left edge and the select button.
pub const TOOLBAR_PADDING: i64 = 8 * UNITS_PER_PIXEL;

/// Space between the select button and the cancel button.
pub const TOOLBAR_CONTENT_GAP: i64 = 6 * UNITS_PER_PIXEL;

/// Width of the cancel button.
pub const CANCEL_BUTTON_WIDTH: i64 = 36 * UNITS_PER_PIXEL;

/// Width of the select button.
pub const SELECT_BUTTON_WIDTH: i64 = 88 * UNITS_PER_PIXEL;

/// Height of both toolbar buttons.
pub const SELECT_BUTTON_HEIGHT: i64 = 36 * UNITS_PER_PIXEL;

/// Growth of a handle's side while the pointer is over it.
pub const HANDLE_HOVER_GROWTH: i64 = 2 * UNITS_PER_PIXEL;

/// Horizontal offset of a handle's shadow.
pub const HANDLE_SHADOW_DX: i64 = UNITS_PER_PIXEL;

/// Vertical offset of a handle's shadow.
pub const HANDLE_SHADOW_DY: i64 = 2 * UNITS_PER_PIXEL;

/// Vertical offset of the toolbar's shadow.
pub const TOOLBAR_SHADOW_DY: i64 = 5 * UNITS_PER_PIXEL;

/// How far a button sinks while it is held down under the pointer.
pub const PRESSED_OFFSET: i64 = UNITS_PER_PIXEL;

/// Width of the selection's border kept out of the cleared area.
pub const SELECTION_INSET: i64 = UNITS_PER_PIXEL;

/// Width of the hint shown on outputs without a selection.
pub const HINT_WIDTH: i64 = 192 * UNITS_PER_PIXEL;

/// Height of the hint shown on outputs without a selection.
pub const HINT_HEIGHT: i64 = 44 * UNITS_PER_PIXEL;

} // verus!
