//! What the overlay of one output shows, laid out in the output's own
//! coordinates. Painting it is left to the caller.

use vstd::prelude::*;

use crate::app::{output_ok, selectable};
use crate::geometry::{
    cancel_button_rect, half, rect_of, select_button_rect, spec_cancel_button_rect,
    spec_handle_at, spec_select_button_rect, spec_toolbar_rect, toolbar_rect, Handle, HitTarget,
    Rect, HANDLE_COUNT,
};
use crate::style::{
    HANDLE_HOVER_GROWTH, HANDLE_SHADOW_DX, HANDLE_SHADOW_DY, HANDLE_SIZE, HINT_HEIGHT, HINT_WIDTH,
    PRESSED_OFFSET, SELECTION_INSET, TOOLBAR_SHADOW_DY,
};

verus! {

/// What one output's overlay shows.
#[derive(Debug, Clone, Copy)]
pub struct Scene {
    /// The output's bounds, in global coordinates.
    pub output_bounds: Rect,
    /// The selection, in global coordinates.
    pub selection: Option<Rect>,
    /// Whether the selection is on this output.
    pub active_output: bool,
    /// What the pointer is over, on this output.
    pub hovered: HitTarget,
    /// Whether the cancel button is held down.
    pub pressing_cancel: bool,
    /// Whether the select button is held down.
    pub pressing_select: bool,
}

impl Scene {
    /// The scene can be laid out: its output is one the selector runs on,
    /// and a selection shown on it lies inside it, in even units, on an
    /// output wide enough for the toolbar.
    pub open spec fn scene_ok(self) -> bool {
        &&& output_ok(self.output_bounds)
        &&& self.active_output ==> (self.selection matches Some(s) ==> {
            &&& s.inside(self.output_bounds)
            &&& s.is_even()
            &&& selectable(self.output_bounds)
        })
    }

    /// The overlay shows the selection, rather than the hint.
    pub open spec fn shows_selection(self) -> bool {
        self.active_output && self.selection is Some
    }
}

/// A resize handle as drawn.
#[derive(Debug, Clone, Copy, PartialEq, Eq, Structural)]
pub struct HandleMark {
    pub handle: Handle,
    /// The handle's square.
    pub rect: Rect,
    /// The square of its shadow.
    pub shadow: Rect,
    /// Whether the pointer is over it.
    pub hovered: bool,
}

/// The selection and its controls, in the output's coordinates.
#[derive(Debug)]
pub struct SelectionOverlay {
    /// The selection's outline.
    pub selection: Rect,
    /// The area inside the outline that shows the screen undimmed.
    pub cleared: Rect,
    /// The handles, in the order of [`Handle::ALL`].
    pub handles: Vec<HandleMark>,
    /// The toolbar.
    pub toolbar: Rect,
    /// The toolbar's shadow.
    pub toolbar_shadow: Rect,
    /// The cancel button, lowered while it is held down.
    pub cancel: Rect,
    /// Whether the pointer is over the cancel button.
    pub cancel_hovered: bool,
    /// The select button, lowered while it is held down.
    pub select: Rect,
    /// Whether the pointer is over the select button.
    pub select_hovered: bool,
}

/// One output's overlay.
#[derive(Debug)]
pub enum Overlay {
    /// No selection on this output: a hint in the middle.
    Hint { chip: Rect },
    /// The selection with its handles and toolbar.
    Selection(SelectionOverlay),
}

/// The hint's box, centred on an output with `bounds`.
pub open spec fn spec_hint_chip(bounds: Rect) -> Rect {
    rect_of(
        bounds.width / 2 - HINT_WIDTH / 2,
        bounds.height / 2 - HINT_HEIGHT / 2,
        HINT_WIDTH as int,
        HINT_HEIGHT as int,
    )
}

/// The selection in the coordinates of an output with `bounds`.
pub open spec fn spec_local(selection: Rect, bounds: Rect) -> Rect {
    rect_of(
        selection.x - bounds.x,
        selection.y - bounds.y,
        selection.width as int,
        selection.height as int,
    )
}

/// The area inside the outline of `local`.
pub open spec fn spec_cleared(local: Rect) -> Rect {
    rect_of(
        local.x + SELECTION_INSET,
        local.y + SELECTION_INSET,
        if local.width - 2 * SELECTION_INSET >= 0 {
            local.width - 2 * SELECTION_INSET
        } else {
            0
        },
        if local.height - 2 * SELECTION_INSET >= 0 {
            local.height - 2 * SELECTION_INSET
        } else {
            0
        },
    )
}

/// The handle at position `i` of [`Handle::ALL`] on `local`, larger when
/// the pointer is over it.
pub open spec fn spec_handle_mark(local: Rect, hovered: HitTarget, i: int) -> HandleMark {
    let handle = spec_handle_at(i);
    let c = handle.spec_center(local);
    let on = hovered == HitTarget::Handle(handle);
    let side = if on {
        HANDLE_SIZE + HANDLE_HOVER_GROWTH
    } else {
        HANDLE_SIZE as int
    };
    let left = c.x - side / 2;
    let top = c.y - side / 2;
    HandleMark {
        handle,
        rect: rect_of(left, top, side, side),
        shadow: rect_of(left + HANDLE_SHADOW_DX, top + HANDLE_SHADOW_DY, side, side),
        hovered: on,
    }
}

/// The toolbar of `scene` in the output's coordinates.
pub open spec fn spec_local_toolbar(scene: Scene) -> Rect {
    spec_local(spec_toolbar_rect(scene.selection.unwrap(), scene.output_bounds), scene.output_bounds)
}

/// `r` lowered by `dy`.
pub open spec fn lowered(r: Rect, dy: int) -> Rect {
    rect_of(r.x as int, r.y + dy, r.width as int, r.height as int)
}

/// The selection overlay of `scene`, with `o` its drawn parts: the outline,
/// the handles, the toolbar and its buttons.
pub open spec fn selection_overlay_is(o: SelectionOverlay, scene: Scene) -> bool {
    let local = spec_local(scene.selection.unwrap(), scene.output_bounds);
    let toolbar = spec_local_toolbar(scene);
    let cancel_hovered = scene.hovered == HitTarget::CancelButton;
    let select_hovered = scene.hovered == HitTarget::SelectButton;
    &&& o.selection == local
    &&& o.cleared == spec_cleared(local)
    &&& o.handles@.len() == HANDLE_COUNT
    &&& forall|i: int|
        0 <= i < HANDLE_COUNT ==> #[trigger] o.handles@[i] == spec_handle_mark(
            local,
            scene.hovered,
            i,
        )
    &&& o.toolbar == toolbar
    &&& o.toolbar_shadow == lowered(toolbar, TOOLBAR_SHADOW_DY as int)
    &&& o.cancel_hovered == cancel_hovered
    &&& o.select_hovered == select_hovered
    &&& o.cancel == lowered(
        spec_cancel_button_rect(toolbar),
        if scene.pressing_cancel && cancel_hovered {
            PRESSED_OFFSET as int
        } else {
            0
        },
    )
    &&& o.select == lowered(
        spec_select_button_rect(toolbar),
        if scene.pressing_select && select_hovered {
            PRESSED_OFFSET as int
        } else {
            0
        },
    )
}

/// Lays out the overlay of `scene`: the hint when the selection is not on
/// this output, else the selection with its handles and toolbar.
pub fn overlay(scene: Scene) -> (o: Overlay)
    requires
        scene.scene_ok(),
    ensures
        !scene.shows_selection() ==> o == (Overlay::Hint { chip: spec_hint_chip(scene.output_bounds) }),
        scene.shows_selection() ==> (o matches Overlay::Selection(s) && selection_overlay_is(
            s,
            scene,
        )),
{
    let bounds = scene.output_bounds;
    let selection = match scene.selection {
        Some(selection) => {
            if scene.active_output {
                selection
            } else {
                return Overlay::Hint {
                    chip: Rect::new(
                        half(bounds.width) - HINT_WIDTH / 2,
                        half(bounds.height) - HINT_HEIGHT / 2,
                        HINT_WIDTH,
                        HINT_HEIGHT,
                    ),
                };
            }
        },
        None => {
            return Overlay::Hint {
                chip: Rect::new(
                    half(bounds.width) - HINT_WIDTH / 2,
                    half(bounds.height) - HINT_HEIGHT / 2,
                    HINT_WIDTH,
                    HINT_HEIGHT,
                ),
            };
        },
    };

    let local = selection.relative_to(bounds);
    let inner_width = if local.width - 2 * SELECTION_INSET >= 0 {
        local.width - 2 * SELECTION_INSET
    } else {
        0
    };
    let inner_height = if local.height - 2 * SELECTION_INSET >= 0 {
        local.height - 2 * SELECTION_INSET
    } else {
        0
    };
    let cleared = Rect::new(
        local.x + SELECTION_INSET,
        local.y + SELECTION_INSET,
        inner_width,
        inner_height,
    );

    let mut handles: Vec<HandleMark> = Vec::new();
    let mut i: usize = 0;
    while i < HANDLE_COUNT
        invariant
            i <= HANDLE_COUNT,
            handles@.len() == i,
            local == spec_local(selection, bounds),
            local.in_range(),
            local.has_even_extent(),
            forall|j: int|
                0 <= j < i ==> #[trigger] handles@[j] == spec_handle_mark(local, scene.hovered, j),
        decreases HANDLE_COUNT - i,
    {
        let handle = Handle::at(i);
        let center = handle.center(local);
        let on = scene.hovered == HitTarget::Handle(handle);
        let side = if on {
            HANDLE_SIZE + HANDLE_HOVER_GROWTH
        } else {
            HANDLE_SIZE
        };
        let left = center.x - side / 2;
        let top = center.y - side / 2;
        handles.push(
            HandleMark {
                handle,
                rect: Rect::new(left, top, side, side),
                shadow: Rect::new(left + HANDLE_SHADOW_DX, top + HANDLE_SHADOW_DY, side, side),
                hovered: on,
            },
        );
        i = i + 1;
    }

    let toolbar = toolbar_rect(selection, bounds).relative_to(bounds);
    let toolbar_shadow = Rect::new(
        toolbar.x,
        toolbar.y + TOOLBAR_SHADOW_DY,
        toolbar.width,
        toolbar.height,
    );
    let cancel = cancel_button_rect(toolbar);
    let select = select_button_rect(toolbar);
    let cancel_hovered = scene.hovered == HitTarget::CancelButton;
    let select_hovered = scene.hovered == HitTarget::SelectButton;
    let cancel_offset = if scene.pressing_cancel && cancel_hovered {
        PRESSED_OFFSET
    } else {
        0
    };
    let select_offset = if scene.pressing_select && select_hovered {
        PRESSED_OFFSET
    } else {
        0
    };

    Overlay::Selection(
        SelectionOverlay {
            selection: local,
            cleared,
            handles,
            toolbar,
            toolbar_shadow,
            cancel: Rect::new(cancel.x, cancel.y + cancel_offset, cancel.width, cancel.height),
            cancel_hovered,
            select: Rect::new(select.x, select.y + select_offset, select.width, select.height),
            select_hovered,
        },
    )
}

/// The buttons are drawn where hit testing finds them: unless held down,
/// each drawn button is the button of the toolbar that hit testing uses,
/// moved into the output's coordinates.
pub proof fn lemma_drawn_buttons_are_hit_targets(scene: Scene, o: SelectionOverlay)
    requires
        scene.scene_ok(),
        scene.shows_selection(),
        selection_overlay_is(o, scene),
        !scene.pressing_select,
        !scene.pressing_cancel,
    ensures
        ({
            let bounds = scene.output_bounds;
            let toolbar = spec_toolbar_rect(scene.selection.unwrap(), bounds);
            &&& o.select == spec_local(spec_select_button_rect(toolbar), bounds)
            &&& o.cancel == spec_local(spec_cancel_button_rect(toolbar), bounds)
        }),
{
}

/// Each drawn handle is centred on its handle of the selection, in the order
/// of [`Handle::ALL`], drawn larger exactly when the pointer is over it; each
/// button lies on its place in the toolbar, one pixel lower exactly while it
/// is held down under the pointer; the cleared area lies inside the outline.
pub proof fn lemma_overlay_marks(o: SelectionOverlay, scene: Scene)
    requires
        scene.scene_ok(),
        scene.shows_selection(),
        selection_overlay_is(o, scene),
    ensures
        forall|i: int|
            0 <= i < HANDLE_COUNT ==> {
                let mark = #[trigger] o.handles@[i];
                let c = spec_handle_at(i).spec_center(o.selection);
                &&& mark.handle == spec_handle_at(i)
                &&& mark.hovered <==> scene.hovered == HitTarget::Handle(spec_handle_at(i))
                &&& 2 * mark.rect.x + mark.rect.width == 2 * c.x
                &&& 2 * mark.rect.y + mark.rect.height == 2 * c.y
                &&& mark.rect.width == mark.rect.height
                &&& mark.rect.width == if mark.hovered {
                    HANDLE_SIZE + HANDLE_HOVER_GROWTH
                } else {
                    HANDLE_SIZE as int
                }
            },
        o.select_hovered <==> scene.hovered is SelectButton,
        o.cancel_hovered <==> scene.hovered is CancelButton,
        o.select.x == spec_select_button_rect(o.toolbar).x,
        o.select.y == spec_select_button_rect(o.toolbar).y + if scene.pressing_select
            && o.select_hovered {
            PRESSED_OFFSET as int
        } else {
            0
        },
        o.cancel.x == spec_cancel_button_rect(o.toolbar).x,
        o.cancel.y == spec_cancel_button_rect(o.toolbar).y + if scene.pressing_cancel
            && o.cancel_hovered {
            PRESSED_OFFSET as int
        } else {
            0
        },
        o.selection.width == scene.selection.unwrap().width,
        o.selection.height == scene.selection.unwrap().height,
        o.selection.x + scene.output_bounds.x == scene.selection.unwrap().x,
        o.selection.y + scene.output_bounds.y == scene.selection.unwrap().y,
        o.selection.spec_is_valid() ==> o.cleared.inside(o.selection),
{
}

} // verus!
