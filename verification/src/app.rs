//! The selector's interaction state: what each pointer and keyboard event
//! does to the selection, and when the selector is done.
//!
//! The caller owns the Wayland connection: it feeds events in, redraws the
//! overlay when a handler asks for it, and stops once [`AppState::running`]
//! is false.

use vstd::prelude::*;

use crate::geometry::{
    hit_test, is_even, point_of, rect_of, spec_clamp_point, spec_from_points, spec_hit_test, spec_resized,
    spec_translated, resize_defined, lemma_from_points_spans, lemma_clamp_point_keeps_contained,
    Handle, HitTarget, Interaction, Point, Rect, UNITS_PER_PIXEL,
};
use crate::render::Scene;
use crate::style::TOOLBAR_WIDTH;

verus! {

/// Linux input code of the left mouse button.
pub const LEFT_MOUSE_BUTTON: u32 = 0x110;

/// Linux key code of Escape.
pub const KEY_ESCAPE: u32 = 1;

/// Linux key code of Enter.
pub const KEY_ENTER: u32 = 28;

/// Linux key code of the left Shift key.
pub const KEY_LEFT_SHIFT: u32 = 42;

/// Linux key code of the right Shift key.
pub const KEY_RIGHT_SHIFT: u32 = 54;

/// Linux key code of the up arrow.
pub const KEY_UP: u32 = 103;

/// Linux key code of the left arrow.
pub const KEY_LEFT: u32 = 105;

/// Linux key code of the right arrow.
pub const KEY_RIGHT: u32 = 106;

/// Linux key code of the down arrow.
pub const KEY_DOWN: u32 = 108;

/// How far an arrow key moves the selection.
pub const NUDGE_STEP: i64 = UNITS_PER_PIXEL;

/// How far an arrow key moves the selection while Shift is held.
pub const NUDGE_STEP_SHIFTED: i64 = 10 * UNITS_PER_PIXEL;

/// Largest magnitude of an output's position or size (2^40 units, the range
/// of 32-bit Wayland coordinates).
pub const OUTPUT_LIMIT: i64 = 1099511627776;

/// Coordinate units in one step of a surface-local pointer position, which
/// Wayland reports in 1/256 of a pixel.
pub const UNITS_PER_POINTER_STEP: i64 = 2;

/// An error that ends the selector, with a message for the user.
#[derive(Debug)]
pub struct AppError {
    pub message: String,
}

impl AppError {
    pub fn new(message: String) -> (e: Self)
        ensures
            e.message@ == message@,
    {
        Self { message }
    }

    /// The message for the user.
    pub fn message(&self) -> (m: &str)
        ensures
            m@ == self.message@,
    {
        self.message.as_str()
    }
}

/// Largest magnitude of a pointer position in global coordinates: an
/// output's position plus a surface-local position.
pub const POINTER_LIMIT: i64 = 2199023255552;

/// `v` lies within [`OUTPUT_LIMIT`].
pub open spec fn within_output_limit(v: int) -> bool {
    -OUTPUT_LIMIT <= v <= OUTPUT_LIMIT
}

/// `p` lies within [`POINTER_LIMIT`] on both axes.
pub open spec fn pointer_ok(p: Point) -> bool {
    &&& -POINTER_LIMIT <= p.x <= POINTER_LIMIT
    &&& -POINTER_LIMIT <= p.y <= POINTER_LIMIT
    &&& p.is_even()
}

/// An output the selector can run on: its position and size within
/// [`OUTPUT_LIMIT`], its size positive, and all four values even numbers of
/// units, as they are for whole pixels.
pub open spec fn output_ok(b: Rect) -> bool {
    &&& within_output_limit(b.x as int)
    &&& within_output_limit(b.y as int)
    &&& 0 < b.width <= OUTPUT_LIMIT
    &&& 0 < b.height <= OUTPUT_LIMIT
    &&& b.is_even()
}

/// A selection can be made on an output: it is wide enough for the toolbar.
pub open spec fn selectable(b: Rect) -> bool {
    b.width >= TOOLBAR_WIDTH
}

/// The revision that follows `r`; it skips zero when it wraps.
pub open spec fn next_revision(r: u64) -> u64 {
    if r == u64::MAX {
        1
    } else {
        (r + 1) as u64
    }
}

/// The selector's state between two events.
pub struct AppState {
    /// The logical bounds of each output, in the compositor's global space.
    pub outputs: Vec<Rect>,
    /// The pointer, in global coordinates.
    pub pointer: Point,
    /// The output the pointer was last on.
    pub current_output: usize,
    /// The output the selection is on.
    pub active_output: Option<usize>,
    /// The selection, in global coordinates.
    pub selection: Option<Rect>,
    /// What the held button is doing.
    pub interaction: Interaction,
    /// What the pointer is over.
    pub hovered: HitTarget,
    /// Whether a Shift key is held.
    pub shift_pressed: bool,
    /// Bumped whenever the overlay must be drawn again; never zero.
    pub revision: u64,
    /// False once the selection was confirmed or cancelled, or the selector
    /// failed.
    pub running: bool,
    /// The confirmed selection.
    pub result: Option<Rect>,
    /// Why the selector failed, if it did.
    pub error: Option<AppError>,
}

impl AppState {
    /// The bounds of output `o`.
    pub open spec fn bounds_of(self, o: int) -> Rect {
        self.outputs@[o]
    }

    /// A drag in progress works on the selection's output, from a start
    /// that lies on that output.
    pub open spec fn interaction_ok(self) -> bool {
        match self.interaction {
            Interaction::Drawing { anchor, output } => {
                &&& self.active_output == Some(output)
                &&& self.bounds_of(output as int).spec_contains(anchor)
                &&& anchor.is_even()
            },
            Interaction::Moving { pointer_origin, selection_origin, output } => {
                &&& self.active_output == Some(output)
                &&& selection_origin.inside(self.bounds_of(output as int))
                &&& selection_origin.is_even()
                &&& pointer_ok(pointer_origin)
            },
            Interaction::Resizing { handle, selection_origin, output } => {
                &&& self.active_output == Some(output)
                &&& selection_origin.inside(self.bounds_of(output as int))
                &&& selection_origin.is_even()
            },
            _ => true,
        }
    }

    /// A confirmed selection is valid and lies on one output.
    pub open spec fn result_ok(self) -> bool {
        self.result matches Some(r) ==> {
            &&& r.spec_is_valid()
            &&& exists|o: int| 0 <= o < self.outputs@.len() && r.inside(#[trigger] self.outputs@[o])
        }
    }

    /// The state's invariant. Among others: a selection lies entirely on the
    /// output it was started on.
    pub open spec fn wf(self) -> bool {
        &&& self.outputs@.len() >= 1
        &&& forall|i: int| 0 <= i < self.outputs@.len() ==> output_ok(#[trigger] self.outputs@[i])
        &&& self.current_output < self.outputs@.len()
        &&& pointer_ok(self.pointer)
        &&& self.selection is Some <==> self.active_output is Some
        &&& self.active_output matches Some(o) ==> {
            &&& o < self.outputs@.len()
            &&& selectable(self.bounds_of(o as int))
            &&& self.selection.unwrap().inside(self.bounds_of(o as int))
            &&& self.selection.unwrap().is_even()
        }
        &&& self.interaction_ok()
        &&& self.revision >= 1
        &&& self.result_ok()
    }

    /// What the pointer designates: a target on the selection when the
    /// pointer is on the selection's output, else nothing.
    pub open spec fn spec_hit_target(self) -> HitTarget {
        match (self.active_output, self.selection) {
            (Some(o), Some(s)) => if o == self.current_output {
                spec_hit_test(self.pointer, s, self.bounds_of(o as int))
            } else {
                HitTarget::Outside
            },
            _ => HitTarget::Outside,
        }
    }

    /// The state with the hovered target brought up to date.
    pub open spec fn refreshed(self) -> AppState {
        AppState { hovered: self.spec_hit_target(), ..self }
    }

    /// The state with the next revision.
    pub open spec fn invalidated(self) -> AppState {
        AppState { revision: next_revision(self.revision), ..self }
    }

    /// The state after the selection is confirmed: done, with the selection
    /// as result, if the selection is valid; else unchanged.
    pub open spec fn confirmed(self) -> AppState {
        match self.selection {
            Some(s) => if s.spec_is_valid() {
                AppState { result: Some(s), running: false, ..self }
            } else {
                self
            },
            None => self,
        }
    }

    /// The state after the selector is cancelled: done, without a result.
    pub open spec fn cancelled(self) -> AppState {
        AppState { result: None, running: false, ..self }
    }

    /// A drag in progress can follow the pointer: a resize from the handle
    /// held leaves room for the minimum size beside each edge it moves.
    /// Resizing a selection smaller than the minimum from a handle near the
    /// output's edge has no defined outcome.
    pub open spec fn spec_motion_defined(self) -> bool {
        self.interaction matches Interaction::Resizing { handle, selection_origin, output }
            ==> resize_defined(selection_origin, handle, self.bounds_of(output as int))
    }

    /// The state with the pointer at surface-local `(x, y)`, in pointer
    /// steps, on output `output`.
    pub open spec fn pointer_set(self, output: int, x: int, y: int) -> AppState {
        AppState {
            current_output: output as usize,
            pointer: point_of(
                self.bounds_of(output).x + UNITS_PER_POINTER_STEP * x,
                self.bounds_of(output).y + UNITS_PER_POINTER_STEP * y,
            ),
            ..self
        }
    }

    /// A press that would start a new selection is ignored when the pointer
    /// is off the output it was last reported on, since a selection stays on
    /// one output, and on an output too narrow for the toolbar. A press on the
    /// selection, a handle or a button is always taken.
    pub open spec fn press_ignored(self) -> bool {
        &&& self.spec_hit_target() is Outside
        &&& {
            ||| !self.bounds_of(self.current_output as int).spec_contains(self.pointer)
            ||| !selectable(self.bounds_of(self.current_output as int))
        }
    }

    /// The state after a press, before the hover and revision are updated:
    /// the press starts whatever the pointer designates, and starts drawing a
    /// new selection where it designates nothing.
    pub open spec fn pressed(self) -> AppState {
        match self.spec_hit_target() {
            HitTarget::SelectButton => AppState { interaction: Interaction::PressingSelect, ..self },
            HitTarget::CancelButton => AppState { interaction: Interaction::PressingCancel, ..self },
            HitTarget::Handle(handle) => AppState {
                interaction: Interaction::Resizing {
                    handle,
                    selection_origin: self.selection.unwrap(),
                    output: self.current_output,
                },
                ..self
            },
            HitTarget::Selection => AppState {
                interaction: Interaction::Moving {
                    pointer_origin: self.pointer,
                    selection_origin: self.selection.unwrap(),
                    output: self.current_output,
                },
                ..self
            },
            HitTarget::Outside => AppState {
                active_output: Some(self.current_output),
                selection: Some(rect_of(self.pointer.x as int, self.pointer.y as int, 0, 0)),
                interaction: Interaction::Drawing {
                    anchor: self.pointer,
                    output: self.current_output,
                },
                ..self
            },
        }
    }

    /// The state after the pointer moved, before the hover and revision are
    /// updated: the drag in progress follows the pointer.
    pub open spec fn dragged(self) -> AppState {
        match self.interaction {
            Interaction::Drawing { anchor, output } => AppState {
                selection: Some(
                    spec_from_points(
                        anchor,
                        spec_clamp_point(self.bounds_of(output as int), self.pointer),
                    ),
                ),
                ..self
            },
            Interaction::Moving { pointer_origin, selection_origin, output } => AppState {
                selection: Some(
                    spec_translated(
                        selection_origin,
                        self.pointer.x - pointer_origin.x,
                        self.pointer.y - pointer_origin.y,
                        self.bounds_of(output as int),
                    ),
                ),
                ..self
            },
            Interaction::Resizing { handle, selection_origin, output } => AppState {
                selection: Some(
                    spec_resized(
                        selection_origin,
                        handle,
                        self.pointer,
                        self.bounds_of(output as int),
                    ),
                ),
                ..self
            },
            _ => self,
        }
    }

    /// A release confirms when it ends a press on the select button over
    /// that button.
    pub open spec fn release_confirms(self) -> bool {
        self.interaction is PressingSelect && self.spec_hit_target() is SelectButton
    }

    /// A release cancels when it ends a press on the cancel button over that
    /// button.
    pub open spec fn release_cancels(self) -> bool {
        self.interaction is PressingCancel && self.spec_hit_target() is CancelButton
    }

    /// The state after a release, before it confirms, cancels or bumps the
    /// revision: a drawn selection too small to confirm is dropped, and the
    /// press ends.
    pub open spec fn released(self) -> AppState {
        let dropped = if self.interaction is Drawing && (self.selection matches Some(s)
            && !s.spec_is_valid()) {
            AppState { selection: None, active_output: None, ..self }
        } else {
            self
        };
        AppState { interaction: Interaction::Idle, ..dropped }.refreshed()
    }

    /// The state after a release.
    pub open spec fn after_release(self) -> AppState {
        if self.release_cancels() {
            self.released().cancelled()
        } else if self.release_confirms() {
            self.released().confirmed()
        } else {
            self.released().invalidated()
        }
    }

    /// The state after moving the selection by `(dx, dy)` within its output.
    pub open spec fn nudged(self, dx: int, dy: int) -> AppState {
        match (self.active_output, self.selection) {
            (Some(o), Some(s)) => AppState {
                selection: Some(spec_translated(s, dx, dy, self.bounds_of(o as int))),
                ..self
            }.refreshed().invalidated(),
            _ => self,
        }
    }

    /// The distance an arrow key moves the selection.
    pub open spec fn nudge_step(self) -> int {
        if self.shift_pressed {
            NUDGE_STEP_SHIFTED as int
        } else {
            NUDGE_STEP as int
        }
    }

    /// The state after a key event: Shift is tracked, Escape cancels, Enter
    /// confirms and the arrow keys move the selection; releases of other keys
    /// and other keys do nothing.
    pub open spec fn after_key(self, key: u32, pressed: bool) -> AppState {
        if key == KEY_LEFT_SHIFT || key == KEY_RIGHT_SHIFT {
            AppState { shift_pressed: pressed, ..self }
        } else if !pressed {
            self
        } else if key == KEY_ESCAPE {
            self.cancelled()
        } else if key == KEY_ENTER {
            self.confirmed()
        } else if key == KEY_UP {
            self.nudged(0, -self.nudge_step())
        } else if key == KEY_DOWN {
            self.nudged(0, self.nudge_step())
        } else if key == KEY_LEFT {
            self.nudged(-self.nudge_step(), 0)
        } else if key == KEY_RIGHT {
            self.nudged(self.nudge_step(), 0)
        } else {
            self
        }
    }

    /// A key event moves the selection, so the overlay must be redrawn.
    pub open spec fn key_redraws(self, key: u32, pressed: bool) -> bool {
        &&& pressed
        &&& key == KEY_UP || key == KEY_DOWN || key == KEY_LEFT || key == KEY_RIGHT
        &&& self.active_output is Some
        &&& self.selection is Some
    }
}

/// A confirmed result stays on an output while the outputs and the result
/// stay the same.
proof fn lemma_result_ok_frame(a: AppState, b: AppState)
    requires
        a.result_ok(),
        b.outputs@ == a.outputs@,
        b.result == a.result,
    ensures
        b.result_ok(),
{
    if let Some(r) = b.result {
        let o = choose|o: int| 0 <= o < a.outputs@.len() && r.inside(#[trigger] a.outputs@[o]);
        assert(r.inside(b.outputs@[o]));
    }
}

/// The invariant does not look at the hovered target, the Shift key or the
/// exact revision, so changing those keeps it.
proof fn lemma_wf_frame(a: AppState, b: AppState)
    requires
        a.wf(),
        b.outputs@ == a.outputs@,
        b.pointer == a.pointer,
        b.current_output == a.current_output,
        b.active_output == a.active_output,
        b.selection == a.selection,
        b.interaction == a.interaction,
        b.revision >= 1,
        b.result == a.result,
    ensures
        b.wf(),
{
    lemma_result_ok_frame(a, b);
}

impl AppState {
    /// A selector over outputs with the given bounds: no selection yet, the
    /// pointer at the origin of the global space, over nothing.
    pub fn new(outputs: Vec<Rect>) -> (s: Self)
        requires
            outputs@.len() >= 1,
            forall|i: int| 0 <= i < outputs@.len() ==> output_ok(#[trigger] outputs@[i]),
        ensures
            s.wf(),
            s.outputs@ == outputs@,
            s.pointer == (Point { x: 0, y: 0 }),
            s.current_output == 0,
            s.active_output is None,
            s.selection is None,
            s.interaction is Idle,
            s.hovered is Outside,
            !s.shift_pressed,
            s.revision == 1,
            s.running,
            s.result is None,
            s.error is None,
    {
        Self {
            outputs,
            pointer: Point::new(0, 0),
            current_output: 0,
            active_output: None,
            selection: None,
            interaction: Interaction::Idle,
            hovered: HitTarget::Outside,
            shift_pressed: false,
            revision: 1,
            running: true,
            result: None,
            error: None,
        }
    }

    /// The bounds of output `output`.
    pub fn bounds(&self, output: usize) -> (r: Rect)
        requires
            output < self.outputs@.len(),
        ensures
            r == self.bounds_of(output as int),
    {
        self.outputs[output]
    }

    /// What the pointer designates.
    pub fn hit_target(&self) -> (t: HitTarget)
        requires
            self.wf(),
        ensures
            t == self.spec_hit_target(),
    {
        match (self.active_output, self.selection) {
            (Some(output), Some(selection)) => {
                if output == self.current_output {
                    hit_test(self.pointer, selection, self.bounds(output))
                } else {
                    HitTarget::Outside
                }
            },
            _ => HitTarget::Outside,
        }
    }

    fn refresh_hover(&mut self)
        requires
            old(self).wf(),
        ensures
            *final(self) == old(self).refreshed(),
            final(self).wf(),
    {
        self.hovered = self.hit_target();
        proof {
            lemma_wf_frame(*old(self), *self);
        }
    }

    fn invalidate(&mut self)
        requires
            old(self).wf(),
        ensures
            *final(self) == old(self).invalidated(),
            final(self).wf(),
    {
        self.revision = if self.revision == u64::MAX {
            1
        } else {
            self.revision + 1
        };
        proof {
            lemma_wf_frame(*old(self), *self);
        }
    }

    fn set_pointer(&mut self, output: usize, x: i32, y: i32)
        requires
            old(self).wf(),
            output < old(self).outputs@.len(),
        ensures
            *final(self) == old(self).pointer_set(output as int, x as int, y as int),
            final(self).wf(),
    {
        let bounds = self.bounds(output);
        assert(output_ok(bounds));
        self.current_output = output;
        self.pointer = Point::new(
            bounds.x + UNITS_PER_POINTER_STEP * x as i64,
            bounds.y + UNITS_PER_POINTER_STEP * y as i64,
        );
        proof {
            lemma_result_ok_frame(*old(self), *self);
        }
    }

    fn begin_press(&mut self)
        requires
            old(self).wf(),
            !old(self).press_ignored(),
        ensures
            *final(self) == old(self).pressed().refreshed().invalidated(),
            final(self).wf(),
    {
        let hit = self.hit_target();
        match hit {
            HitTarget::SelectButton => {
                self.interaction = Interaction::PressingSelect;
            },
            HitTarget::CancelButton => {
                self.interaction = Interaction::PressingCancel;
            },
            HitTarget::Handle(handle) => {
                let selection = self.selection.unwrap();
                self.interaction = Interaction::Resizing {
                    handle,
                    selection_origin: selection,
                    output: self.current_output,
                };
            },
            HitTarget::Selection => {
                let selection = self.selection.unwrap();
                self.interaction = Interaction::Moving {
                    pointer_origin: self.pointer,
                    selection_origin: selection,
                    output: self.current_output,
                };
            },
            HitTarget::Outside => {
                self.active_output = Some(self.current_output);
                self.selection = Some(Rect::new(self.pointer.x, self.pointer.y, 0, 0));
                self.interaction = Interaction::Drawing {
                    anchor: self.pointer,
                    output: self.current_output,
                };
            },
        }
        proof {
            lemma_result_ok_frame(*old(self), *self);
        }
        self.refresh_hover();
        self.invalidate();
    }

    fn update_pointer(&mut self)
        requires
            old(self).wf(),
            old(self).spec_motion_defined(),
        ensures
            *final(self) == old(self).dragged().refreshed().invalidated(),
            final(self).wf(),
    {
        match self.interaction {
            Interaction::Drawing { anchor, output } => {
                let point = self.bounds(output).clamp_point(self.pointer);
                self.selection = Some(Rect::from_points(anchor, point));
            },
            Interaction::Moving { pointer_origin, selection_origin, output } => {
                self.selection = Some(
                    selection_origin.translated(
                        self.pointer.x - pointer_origin.x,
                        self.pointer.y - pointer_origin.y,
                        self.bounds(output),
                    ),
                );
            },
            Interaction::Resizing { handle, selection_origin, output } => {
                self.selection = Some(
                    selection_origin.resized(handle, self.pointer, self.bounds(output)),
                );
            },
            _ => {},
        }
        proof {
            lemma_result_ok_frame(*old(self), *self);
        }
        self.refresh_hover();
        self.invalidate();
    }

    fn finish_press(&mut self) -> (redraw: bool)
        requires
            old(self).wf(),
        ensures
            *final(self) == old(self).after_release(),
            redraw == !(old(self).release_cancels() || old(self).release_confirms()),
            final(self).wf(),
    {
        let hit = self.hit_target();
        let should_confirm = self.interaction == Interaction::PressingSelect && hit
            == HitTarget::SelectButton;
        let should_cancel = self.interaction == Interaction::PressingCancel && hit
            == HitTarget::CancelButton;
        let drawing = match self.interaction {
            Interaction::Drawing { .. } => true,
            _ => false,
        };
        let too_small = match self.selection {
            Some(selection) => !selection.is_valid(),
            None => false,
        };
        if drawing && too_small {
            self.selection = None;
            self.active_output = None;
        }
        self.interaction = Interaction::Idle;
        proof {
            lemma_result_ok_frame(*old(self), *self);
        }
        self.refresh_hover();
        if should_cancel {
            self.cancel();
            false
        } else if should_confirm {
            self.confirm();
            false
        } else {
            self.invalidate();
            true
        }
    }

    /// Confirms the selection: the selector is done and the selection is its
    /// result, provided the selection is large enough; else nothing happens.
    pub fn confirm(&mut self)
        requires
            old(self).wf(),
        ensures
            *final(self) == old(self).confirmed(),
            final(self).wf(),
    {
        match self.selection {
            Some(selection) => {
                if selection.is_valid() {
                    self.result = Some(selection);
                    self.running = false;
                    proof {
                        let o = self.active_output.unwrap() as int;
                        assert(selection.inside(self.outputs@[o]));
                    }
                }
            },
            None => {},
        }
    }

    /// Cancels the selector: it is done, without a result.
    pub fn cancel(&mut self)
        requires
            old(self).wf(),
        ensures
            *final(self) == old(self).cancelled(),
            final(self).wf(),
    {
        self.result = None;
        self.running = false;
    }

    /// Ends the selector with an error, such as a failure to draw the
    /// overlay: it is done, without a result, and `error` holds `message`.
    pub fn fail(&mut self, message: String)
        requires
            old(self).wf(),
        ensures
            final(self).error matches Some(e) && e.message@ == message@,
            !final(self).running,
            final(self).result is None,
            final(self).outputs@ == old(self).outputs@,
            final(self).selection == old(self).selection,
            final(self).active_output == old(self).active_output,
            final(self).interaction == old(self).interaction,
            final(self).revision == old(self).revision,
            final(self).wf(),
    {
        self.result = None;
        self.running = false;
        self.error = Some(AppError::new(message));
    }

    /// Moves the selection by `(dx, dy)`, kept on its output. Does nothing
    /// when there is no selection.
    pub fn nudge(&mut self, dx: i64, dy: i64) -> (redraw: bool)
        requires
            old(self).wf(),
            within_output_limit(dx as int),
            within_output_limit(dy as int),
            is_even(dx as int),
            is_even(dy as int),
        ensures
            *final(self) == old(self).nudged(dx as int, dy as int),
            redraw == (old(self).active_output is Some && old(self).selection is Some),
            final(self).wf(),
    {
        let output = match self.active_output {
            Some(output) => output,
            None => {
                return false;
            },
        };
        let selection = match self.selection {
            Some(selection) => selection,
            None => {
                return false;
            },
        };
        self.selection = Some(selection.translated(dx, dy, self.bounds(output)));
        proof {
            lemma_result_ok_frame(*old(self), *self);
        }
        self.refresh_hover();
        self.invalidate();
        true
    }
}

impl AppState {
    /// The pointer entered the surface of output `output` at surface-local
    /// `(x, y)`, in steps of 1/256 pixel. The overlay must be redrawn.
    pub fn pointer_enter(&mut self, output: usize, x: i32, y: i32) -> (redraw: bool)
        requires
            old(self).wf(),
            output < old(self).outputs@.len(),
        ensures
            *final(self) == old(self).pointer_set(output as int, x as int, y as int).refreshed().invalidated(),
            redraw,
            final(self).wf(),
    {
        self.set_pointer(output, x, y);
        self.refresh_hover();
        self.invalidate();
        true
    }

    /// Whether a drag in progress can follow the pointer (see
    /// [`AppState::spec_motion_defined`]).
    pub fn motion_defined(&self) -> (b: bool)
        requires
            self.wf(),
        ensures
            b == self.spec_motion_defined(),
    {
        match self.interaction {
            Interaction::Resizing { handle, selection_origin, output } => {
                let bounds = self.bounds(output);
                let room = crate::geometry::MIN_SELECTION_SIZE;
                (!handle.moves_left() || bounds.x <= selection_origin.right() - room) && (
                !handle.moves_right() || selection_origin.x + room <= bounds.right()) && (
                !handle.moves_top() || bounds.y <= selection_origin.bottom() - room) && (
                !handle.moves_bottom() || selection_origin.y + room <= bounds.bottom())
            },
            _ => true,
        }
    }

    /// The pointer moved to surface-local `(x, y)`, in steps of 1/256 pixel,
    /// on the output it is on; a drag in progress follows it. The overlay
    /// must be redrawn.
    pub fn pointer_motion(&mut self, x: i32, y: i32) -> (redraw: bool)
        requires
            old(self).wf(),
            old(self).spec_motion_defined(),
        ensures
            *final(self) == old(self).pointer_set(
                old(self).current_output as int,
                x as int,
                y as int,
            ).dragged().refreshed().invalidated(),
            redraw,
            old(self).interaction matches Interaction::Moving { selection_origin, .. } ==> (
            final(self).selection matches Some(sel) && sel.width == selection_origin.width
                && sel.height == selection_origin.height),
            old(self).interaction matches Interaction::Drawing { anchor, output } ==> (
            final(self).selection matches Some(sel) && sel.spec_contains(anchor)
                && sel.spec_contains(final(self).pointer) == final(self).bounds_of(
                output as int,
            ).spec_contains(final(self).pointer)),
            old(self).interaction is Idle || old(self).interaction is PressingSelect || old(
                self,
            ).interaction is PressingCancel ==> final(self).selection == old(self).selection,
            final(self).wf(),
    {
        self.set_pointer(self.current_output, x, y);
        let ghost moved = *self;
        self.update_pointer();
        proof {
            if let Interaction::Drawing { anchor, output } = moved.interaction {
                let bounds = moved.bounds_of(output as int);
                let clamped = spec_clamp_point(bounds, moved.pointer);
                lemma_from_points_spans(anchor, clamped);
                lemma_clamp_point_keeps_contained(bounds, moved.pointer);
            }
        }
        true
    }

    /// The pointer left the overlay: it is over nothing. The overlay must be
    /// redrawn.
    pub fn pointer_leave(&mut self) -> (redraw: bool)
        requires
            old(self).wf(),
        ensures
            *final(self) == (AppState { hovered: HitTarget::Outside, ..*old(self) }).invalidated(),
            redraw,
            final(self).wf(),
    {
        self.hovered = HitTarget::Outside;
        proof {
            lemma_wf_frame(*old(self), *self);
        }
        self.invalidate();
        true
    }

    /// The left button was pressed or released. A press starts what the
    /// pointer designates (see [`AppState::pressed`]) unless it is ignored
    /// (see [`AppState::press_ignored`]); a release ends the press, and may
    /// confirm or cancel. Returns whether the overlay must be redrawn.
    pub fn pointer_button(&mut self, pressed: bool) -> (redraw: bool)
        requires
            old(self).wf(),
        ensures
            pressed && old(self).press_ignored() ==> *final(self) == *old(self) && !redraw,
            pressed && !old(self).press_ignored() ==> *final(self) == old(
                self,
            ).pressed().refreshed().invalidated() && redraw,
            !pressed ==> *final(self) == old(self).after_release() && redraw == !(old(
                self,
            ).release_cancels() || old(self).release_confirms()),
            pressed ==> final(self).running == old(self).running && final(self).result == old(
                self,
            ).result,
            pressed && !old(self).press_ignored() && old(self).spec_hit_target() is Outside ==> {
                &&& final(self).active_output == Some(old(self).current_output)
                &&& final(self).selection == Some(
                    rect_of(old(self).pointer.x as int, old(self).pointer.y as int, 0, 0),
                )
                &&& final(self).interaction == (Interaction::Drawing {
                    anchor: old(self).pointer,
                    output: old(self).current_output,
                })
            },
            pressed && old(self).spec_hit_target() is Selection ==> {
                &&& final(self).selection == old(self).selection
                &&& final(self).interaction == (Interaction::Moving {
                    pointer_origin: old(self).pointer,
                    selection_origin: old(self).selection.unwrap(),
                    output: old(self).current_output,
                })
            },
            pressed ==> (old(self).spec_hit_target() matches HitTarget::Handle(h) ==> {
                &&& final(self).selection == old(self).selection
                &&& final(self).interaction == (Interaction::Resizing {
                    handle: h,
                    selection_origin: old(self).selection.unwrap(),
                    output: old(self).current_output,
                })
            }),
            pressed && old(self).spec_hit_target() is SelectButton ==> final(self).interaction
                is PressingSelect && final(self).selection == old(self).selection,
            pressed && old(self).spec_hit_target() is CancelButton ==> final(self).interaction
                is PressingCancel && final(self).selection == old(self).selection,
            !pressed ==> final(self).interaction is Idle,
            !pressed && !(old(self).interaction is Drawing) ==> final(self).selection == old(
                self,
            ).selection,
            !pressed && old(self).interaction is Drawing ==> (old(self).selection matches Some(
                sel,
            ) ==> (if sel.spec_is_valid() {
                final(self).selection == old(self).selection
            } else {
                final(self).selection is None && final(self).active_output is None
            })),
            !pressed && old(self).running && !final(self).running && final(self).result is None
                ==> old(self).interaction is PressingCancel && old(self).spec_hit_target() is CancelButton,
            !pressed && old(self).running && !final(self).running && final(self).result is Some
                ==> old(self).interaction is PressingSelect && old(self).spec_hit_target() is SelectButton
                && final(self).result == old(self).selection,
            final(self).wf(),
    {
        if pressed {
            let bounds = self.bounds(self.current_output);
            if self.hit_target() == HitTarget::Outside && (!bounds.contains(self.pointer)
                || bounds.width < TOOLBAR_WIDTH) {
                return false;
            }
            self.begin_press();
            true
        } else {
            self.finish_press()
        }
    }

    /// A key was pressed or released. Returns whether the overlay must be
    /// redrawn.
    pub fn key(&mut self, key: u32, pressed: bool) -> (redraw: bool)
        requires
            old(self).wf(),
        ensures
            *final(self) == old(self).after_key(key, pressed),
            redraw == old(self).key_redraws(key, pressed),
            key == KEY_LEFT_SHIFT || key == KEY_RIGHT_SHIFT ==> final(self).shift_pressed == pressed
                && final(self).selection == old(self).selection && final(self).running == old(
                self,
            ).running && !redraw,
            final(self).wf(),
    {
        if key == KEY_LEFT_SHIFT || key == KEY_RIGHT_SHIFT {
            self.shift_pressed = pressed;
            proof {
                lemma_wf_frame(*old(self), *self);
            }
            return false;
        }
        if !pressed {
            return false;
        }
        let distance = if self.shift_pressed {
            NUDGE_STEP_SHIFTED
        } else {
            NUDGE_STEP
        };
        if key == KEY_ESCAPE {
            self.cancel();
            false
        } else if key == KEY_ENTER {
            self.confirm();
            false
        } else if key == KEY_UP {
            self.nudge(0, -distance)
        } else if key == KEY_DOWN {
            self.nudge(0, distance)
        } else if key == KEY_LEFT {
            self.nudge(-distance, 0)
        } else if key == KEY_RIGHT {
            self.nudge(distance, 0)
        } else {
            false
        }
    }
}

/// The pointer shapes the selector asks the compositor for.
#[derive(Debug, Clone, Copy, PartialEq, Eq, Structural)]
pub enum CursorShape {
    Default,
    Crosshair,
    Grab,
    Grabbing,
    NsResize,
    EwResize,
    NwseResize,
    NeswResize,
}

/// The resize arrow for `handle`: vertical for the top and bottom edges,
/// horizontal for the sides, diagonal for the corners.
pub open spec fn spec_cursor_for_handle(handle: Handle) -> CursorShape {
    match handle {
        Handle::North | Handle::South => CursorShape::NsResize,
        Handle::East | Handle::West => CursorShape::EwResize,
        Handle::NorthWest | Handle::SouthEast => CursorShape::NwseResize,
        Handle::NorthEast | Handle::SouthWest => CursorShape::NeswResize,
    }
}

/// The resize arrow for `handle`.
pub fn cursor_for_handle(handle: Handle) -> (c: CursorShape)
    ensures
        c == spec_cursor_for_handle(handle),
        !handle.spec_moves_left() && !handle.spec_moves_right() ==> c == CursorShape::NsResize,
        !handle.spec_moves_top() && !handle.spec_moves_bottom() ==> c == CursorShape::EwResize,
        (handle.spec_moves_left() && handle.spec_moves_top()) || (handle.spec_moves_right()
            && handle.spec_moves_bottom()) ==> c == CursorShape::NwseResize,
        (handle.spec_moves_right() && handle.spec_moves_top()) || (handle.spec_moves_left()
            && handle.spec_moves_bottom()) ==> c == CursorShape::NeswResize,
{
    match handle {
        Handle::North | Handle::South => CursorShape::NsResize,
        Handle::East | Handle::West => CursorShape::EwResize,
        Handle::NorthWest | Handle::SouthEast => CursorShape::NwseResize,
        Handle::NorthEast | Handle::SouthWest => CursorShape::NeswResize,
    }
}

impl AppState {
    /// The pointer shape: what the drag in progress does, or, with no drag,
    /// what the pointer is over.
    pub open spec fn spec_cursor_shape(self) -> CursorShape {
        match self.interaction {
            Interaction::Drawing { .. } => CursorShape::Crosshair,
            Interaction::Moving { .. } => CursorShape::Grabbing,
            Interaction::Resizing { handle, .. } => spec_cursor_for_handle(handle),
            Interaction::PressingSelect => CursorShape::Default,
            Interaction::PressingCancel => CursorShape::Default,
            Interaction::Idle => match self.hovered {
                HitTarget::Outside => CursorShape::Crosshair,
                HitTarget::Selection => CursorShape::Grab,
                HitTarget::Handle(handle) => spec_cursor_for_handle(handle),
                HitTarget::SelectButton => CursorShape::Default,
                HitTarget::CancelButton => CursorShape::Default,
            },
        }
    }

    /// The pointer shape to show.
    pub fn cursor_shape(&self) -> (c: CursorShape)
        ensures
            c == self.spec_cursor_shape(),
            self.interaction is Drawing ==> c == CursorShape::Crosshair,
            self.interaction is Moving ==> c == CursorShape::Grabbing,
            self.interaction is PressingSelect || self.interaction is PressingCancel ==> c
                == CursorShape::Default,
            self.interaction is Idle && self.hovered is Outside ==> c == CursorShape::Crosshair,
            self.interaction is Idle && self.hovered is Selection ==> c == CursorShape::Grab,
            self.interaction is Idle && (self.hovered is SelectButton
                || self.hovered is CancelButton) ==> c == CursorShape::Default,
            self.interaction matches Interaction::Resizing { handle, .. } ==> c
                == spec_cursor_for_handle(handle),
            self.interaction is Idle ==> (self.hovered matches HitTarget::Handle(h) ==> c
                == spec_cursor_for_handle(h)),
    {
        match self.interaction {
            Interaction::Drawing { .. } => CursorShape::Crosshair,
            Interaction::Moving { .. } => CursorShape::Grabbing,
            Interaction::Resizing { handle, .. } => cursor_for_handle(handle),
            Interaction::PressingSelect => CursorShape::Default,
            Interaction::PressingCancel => CursorShape::Default,
            Interaction::Idle => match self.hovered {
                HitTarget::Outside => CursorShape::Crosshair,
                HitTarget::Selection => CursorShape::Grab,
                HitTarget::Handle(handle) => cursor_for_handle(handle),
                HitTarget::SelectButton => CursorShape::Default,
                HitTarget::CancelButton => CursorShape::Default,
            },
        }
    }

    /// What output `index` shows: the selection is shown, with the hovered
    /// target, only on the output it is on.
    pub open spec fn spec_scene(self, index: int) -> Scene {
        let active = self.active_output == Some(index as usize);
        Scene {
            output_bounds: self.bounds_of(index),
            selection: self.selection,
            active_output: active,
            hovered: if active {
                self.hovered
            } else {
                HitTarget::Outside
            },
            pressing_select: self.interaction is PressingSelect,
            pressing_cancel: self.interaction is PressingCancel,
        }
    }

    /// What output `index` shows.
    pub fn scene(&self, index: usize) -> (s: Scene)
        requires
            self.wf(),
            index < self.outputs@.len(),
        ensures
            s == self.spec_scene(index as int),
            s.scene_ok(),
    {
        let active = self.active_output == Some(index);
        Scene {
            output_bounds: self.bounds(index),
            selection: self.selection,
            active_output: active,
            hovered: if active {
                self.hovered
            } else {
                HitTarget::Outside
            },
            pressing_select: self.interaction == Interaction::PressingSelect,
            pressing_cancel: self.interaction == Interaction::PressingCancel,
        }
    }
}

/// Clicking the select button (pressing and releasing it without moving)
/// ends the selector with the selection as result, when the selection is
/// large enough to confirm.
pub proof fn lemma_click_select_confirms(s: AppState)
    requires
        s.wf(),
        !s.press_ignored(),
        s.spec_hit_target() is SelectButton,
        s.selection is Some && s.selection.unwrap().spec_is_valid(),
    ensures
        ({
            let after = s.pressed().refreshed().invalidated().after_release();
            &&& !after.running
            &&& after.result == s.selection
            &&& after.result is Some
        }),
{
    let t = s.pressed().refreshed().invalidated();
    assert(t.spec_hit_target() == s.spec_hit_target());
    assert(t.release_confirms());
    assert(!t.release_cancels());
}

/// Clicking the cancel button ends the selector without a result.
pub proof fn lemma_click_cancel_cancels(s: AppState)
    requires
        s.wf(),
        !s.press_ignored(),
        s.spec_hit_target() is CancelButton,
    ensures
        ({
            let after = s.pressed().refreshed().invalidated().after_release();
            &&& !after.running
            &&& after.result is None
        }),
{
    let t = s.pressed().refreshed().invalidated();
    assert(t.spec_hit_target() == s.spec_hit_target());
    assert(t.release_cancels());
}

/// Escape ends the selector without a result.
pub proof fn lemma_escape_cancels(s: AppState)
    requires
        s.wf(),
    ensures
        !s.after_key(KEY_ESCAPE, true).running,
        s.after_key(KEY_ESCAPE, true).result is None,
{
}

/// Enter ends the selector with the selection as result when there is a
/// selection large enough to confirm, and changes nothing otherwise.
pub proof fn lemma_enter_confirms(s: AppState)
    requires
        s.wf(),
    ensures
        s.selection matches Some(sel) ==> (sel.spec_is_valid() ==> !s.after_key(
            KEY_ENTER,
            true,
        ).running && s.after_key(KEY_ENTER, true).result == Some(sel)),
        !(s.selection matches Some(sel) && sel.spec_is_valid()) ==> s.after_key(KEY_ENTER, true)
            == s,
{
}

/// An arrow key moves the selection one pixel in its direction, ten with
/// Shift held, as long as the selection stays on its output.
pub proof fn lemma_arrow_moves_selection(s: AppState, key: u32)
    requires
        s.wf(),
        s.selection is Some,
        key == KEY_UP || key == KEY_DOWN || key == KEY_LEFT || key == KEY_RIGHT,
        ({
            let sel = s.selection.unwrap();
            let step = s.nudge_step();
            let dx = if key == KEY_LEFT { -step } else if key == KEY_RIGHT { step } else { 0 };
            let dy = if key == KEY_UP { -step } else if key == KEY_DOWN { step } else { 0 };
            rect_of(sel.x + dx, sel.y + dy, sel.width as int, sel.height as int).inside(
                s.bounds_of(s.active_output.unwrap() as int),
            )
        }),
    ensures
        ({
            let sel = s.selection.unwrap();
            let step = s.nudge_step();
            let dx = if key == KEY_LEFT { -step } else if key == KEY_RIGHT { step } else { 0 };
            let dy = if key == KEY_UP { -step } else if key == KEY_DOWN { step } else { 0 };
            s.after_key(key, true).selection == Some(
                rect_of(sel.x + dx, sel.y + dy, sel.width as int, sel.height as int),
            )
        }),
{
    let sel = s.selection.unwrap();
    let b = s.bounds_of(s.active_output.unwrap() as int);
    assert(output_ok(b));
}

/// Pressing where the pointer designates nothing and dragging draws a new
/// selection on the pointer's output, spanning from where the press was to
/// where the pointer is, kept on that output.
pub proof fn lemma_drag_draws_selection(s: AppState, x: int, y: int)
    requires
        s.wf(),
        !s.press_ignored(),
        s.spec_hit_target() is Outside,
        within_output_limit(x),
        within_output_limit(y),
    ensures
        ({
            let pressed = s.pressed().refreshed().invalidated();
            let moved = pressed.pointer_set(pressed.current_output as int, x, y);
            let after = moved.dragged().refreshed().invalidated();
            &&& after.active_output == Some(s.current_output)
            &&& after.selection == Some(
                spec_from_points(
                    s.pointer,
                    spec_clamp_point(s.bounds_of(s.current_output as int), moved.pointer),
                ),
            )
        }),
{
}

/// A drag depends only on where it started and where the pointer is: a
/// second motion event at the same position leaves the selection as the
/// first one left it.
pub proof fn lemma_drag_repeats(s: AppState)
    requires
        s.wf(),
    ensures
        s.dragged().refreshed().invalidated().dragged().selection == s.dragged().selection,
{
}

/// Each new revision differs from the last and is never zero, the revision
/// a fresh surface has drawn.
pub proof fn lemma_revision_advances(r: u64)
    requires
        r >= 1,
    ensures
        next_revision(r) >= 1,
        next_revision(r) != r,
{
}

/// A release stops the selector only over a button held since the press: it
/// stops without a result only when releasing the cancel button over it, and
/// with a result only when releasing the select button over it, the
/// selection then being the result.
pub proof fn lemma_release_stops_only_on_buttons(s: AppState)
    requires
        s.wf(),
        s.running,
    ensures
        ({
            let after = s.after_release();
            &&& !after.running && after.result is None ==> s.interaction is PressingCancel
                && s.spec_hit_target() is CancelButton
            &&& !after.running && after.result is Some ==> s.interaction is PressingSelect
                && s.spec_hit_target() is SelectButton && after.result == s.selection
        }),
{
    assert(s.released().running == s.running);
}

/// Either Shift key, pressed or released, sets whether Shift is held and
/// nothing else; after a press of either, an arrow key moves the selection by
/// ten pixels.
pub proof fn lemma_shift_keys(s: AppState, key: u32, pressed: bool)
    requires
        s.wf(),
        key == KEY_LEFT_SHIFT || key == KEY_RIGHT_SHIFT,
    ensures
        s.after_key(key, pressed) == (AppState { shift_pressed: pressed, ..s }),
        s.after_key(key, true).nudge_step() == 10 * UNITS_PER_PIXEL,
        s.after_key(key, false).nudge_step() == UNITS_PER_PIXEL,
{
}

/// The resize arrow matches the axes a handle moves: vertical for a handle
/// that moves only the top or bottom edge, horizontal for one that moves only
/// a side, and the diagonal through the corner for a corner handle.
pub proof fn lemma_cursor_matches_handle_axes(handle: Handle)
    ensures
        !handle.spec_moves_left() && !handle.spec_moves_right() ==> spec_cursor_for_handle(handle)
            == CursorShape::NsResize,
        !handle.spec_moves_top() && !handle.spec_moves_bottom() ==> spec_cursor_for_handle(handle)
            == CursorShape::EwResize,
        (handle.spec_moves_left() && handle.spec_moves_top()) || (handle.spec_moves_right()
            && handle.spec_moves_bottom()) ==> spec_cursor_for_handle(handle)
            == CursorShape::NwseResize,
        (handle.spec_moves_right() && handle.spec_moves_top()) || (handle.spec_moves_left()
            && handle.spec_moves_bottom()) ==> spec_cursor_for_handle(handle)
            == CursorShape::NeswResize,
{
}

} // verus!
