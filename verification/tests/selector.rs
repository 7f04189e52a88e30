use scrop::app::{
    AppError, AppState, CursorShape, KEY_DOWN, KEY_ENTER, KEY_ESCAPE, KEY_LEFT, KEY_LEFT_SHIFT,
    KEY_RIGHT, KEY_UP,
};
use scrop::geometry::{
    cancel_button_rect, select_button_rect, toolbar_rect, Handle, HitTarget, Interaction, Point,
    Rect, UNITS_PER_PIXEL,
};

fn px(v: i64) -> i64 {
    v * UNITS_PER_PIXEL
}

fn rect(x: i64, y: i64, width: i64, height: i64) -> Rect {
    Rect::new(px(x), px(y), px(width), px(height))
}

/// `v` pixels in the 1/256-pixel steps of Wayland's pointer positions.
fn steps(v: i64) -> i32 {
    (v * 256) as i32
}

fn output() -> Rect {
    rect(0, 0, 1920, 1080)
}

fn second_output() -> Rect {
    rect(1920, 0, 1280, 1024)
}

/// A selector on two outputs with a selection of 300x200 at (100, 100) drawn
/// on the first.
fn with_selection() -> AppState {
    let mut state = AppState::new(vec![output(), second_output()]);
    state.pointer_enter(0, steps(100), steps(100));
    state.pointer_button(true);
    state.pointer_motion(steps(400), steps(300));
    state.pointer_button(false);
    state
}

/// Moves the pointer to the global point `p` on the first output.
fn point_at(state: &mut AppState, p: Point) {
    state.pointer_motion((p.x / 2) as i32, (p.y / 2) as i32);
}

#[test]
fn starts_without_selection() {
    let state = AppState::new(vec![output()]);
    assert!(state.running);
    assert_eq!(state.selection, None);
    assert_eq!(state.active_output, None);
    assert_eq!(state.result, None);
    assert_eq!(state.revision, 1);
    assert_eq!(state.hit_target(), HitTarget::Outside);
}

#[test]
fn dragging_draws_a_selection() {
    let state = with_selection();
    assert_eq!(state.selection, Some(rect(100, 100, 300, 200)));
    assert_eq!(state.active_output, Some(0));
    assert_eq!(state.interaction, Interaction::Idle);
    assert!(state.running);
}

#[test]
fn dragging_backwards_normalizes() {
    let mut state = AppState::new(vec![output()]);
    state.pointer_enter(0, steps(400), steps(300));
    state.pointer_button(true);
    state.pointer_motion(steps(100), steps(100));
    assert_eq!(state.selection, Some(rect(100, 100, 300, 200)));
}

#[test]
fn drawing_is_kept_on_its_output() {
    let mut state = AppState::new(vec![output(), second_output()]);
    state.pointer_enter(0, steps(1800), steps(1000));
    state.pointer_button(true);
    state.pointer_motion(steps(2500), steps(1500));
    assert_eq!(state.selection, Some(rect(1800, 1000, 120, 80)));
}

#[test]
fn small_selection_is_dropped_on_release() {
    let mut state = AppState::new(vec![output()]);
    state.pointer_enter(0, steps(100), steps(100));
    state.pointer_button(true);
    state.pointer_motion(steps(110), steps(150));
    let redraw = state.pointer_button(false);
    assert!(redraw);
    assert_eq!(state.selection, None);
    assert_eq!(state.active_output, None);
}

#[test]
fn enter_confirms_valid_selection() {
    let mut state = with_selection();
    let redraw = state.key(KEY_ENTER, true);
    assert!(!redraw);
    assert!(!state.running);
    assert_eq!(state.result, Some(rect(100, 100, 300, 200)));
}

#[test]
fn enter_without_selection_does_nothing() {
    let mut state = AppState::new(vec![output()]);
    state.key(KEY_ENTER, true);
    assert!(state.running);
    assert_eq!(state.result, None);
}

#[test]
fn escape_cancels() {
    let mut state = with_selection();
    state.key(KEY_ESCAPE, true);
    assert!(!state.running);
    assert_eq!(state.result, None);
}

#[test]
fn key_release_does_nothing() {
    let mut state = with_selection();
    assert!(!state.key(KEY_ESCAPE, false));
    assert!(state.running);
}

#[test]
fn clicking_select_button_confirms() {
    let mut state = with_selection();
    let selection = state.selection.unwrap();
    let select = select_button_rect(toolbar_rect(selection, output()));
    point_at(&mut state, select.center());
    assert_eq!(state.hovered, HitTarget::SelectButton);
    state.pointer_button(true);
    assert_eq!(state.interaction, Interaction::PressingSelect);
    let redraw = state.pointer_button(false);
    assert!(!redraw);
    assert!(!state.running);
    assert_eq!(state.result, Some(selection));
}

#[test]
fn releasing_select_elsewhere_does_not_confirm() {
    let mut state = with_selection();
    let selection = state.selection.unwrap();
    let select = select_button_rect(toolbar_rect(selection, output()));
    point_at(&mut state, select.center());
    state.pointer_button(true);
    state.pointer_motion(steps(1500), steps(900));
    state.pointer_button(false);
    assert!(state.running);
    assert_eq!(state.result, None);
    assert_eq!(state.selection, Some(selection));
}

#[test]
fn clicking_cancel_button_cancels() {
    let mut state = with_selection();
    let selection = state.selection.unwrap();
    let cancel = cancel_button_rect(toolbar_rect(selection, output()));
    point_at(&mut state, cancel.center());
    state.pointer_button(true);
    assert_eq!(state.interaction, Interaction::PressingCancel);
    state.pointer_button(false);
    assert!(!state.running);
    assert_eq!(state.result, None);
}

#[test]
fn arrows_nudge_by_one_pixel() {
    let mut state = with_selection();
    assert!(state.key(KEY_RIGHT, true));
    assert!(state.key(KEY_DOWN, true));
    assert_eq!(state.selection, Some(rect(101, 101, 300, 200)));
    state.key(KEY_LEFT, true);
    state.key(KEY_UP, true);
    assert_eq!(state.selection, Some(rect(100, 100, 300, 200)));
}

#[test]
fn shift_arrows_nudge_by_ten_pixels() {
    let mut state = with_selection();
    assert!(!state.key(KEY_LEFT_SHIFT, true));
    state.key(KEY_RIGHT, true);
    assert_eq!(state.selection, Some(rect(110, 100, 300, 200)));
    state.key(KEY_LEFT_SHIFT, false);
    state.key(KEY_RIGHT, true);
    assert_eq!(state.selection, Some(rect(111, 100, 300, 200)));
}

#[test]
fn nudging_stops_at_output_edge() {
    let mut state = with_selection();
    state.key(KEY_LEFT_SHIFT, true);
    for _ in 0..20 {
        state.key(KEY_LEFT, true);
    }
    assert_eq!(state.selection, Some(rect(0, 100, 300, 200)));
}

#[test]
fn arrows_without_selection_do_nothing() {
    let mut state = AppState::new(vec![output()]);
    assert!(!state.key(KEY_RIGHT, true));
    assert_eq!(state.selection, None);
}

#[test]
fn dragging_inside_moves_selection() {
    let mut state = with_selection();
    state.pointer_motion(steps(200), steps(200));
    assert_eq!(state.hovered, HitTarget::Selection);
    assert_eq!(state.cursor_shape(), CursorShape::Grab);
    state.pointer_button(true);
    assert_eq!(state.cursor_shape(), CursorShape::Grabbing);
    state.pointer_motion(steps(250), steps(180));
    assert_eq!(state.selection, Some(rect(150, 80, 300, 200)));
    state.pointer_motion(steps(-1000), steps(180));
    assert_eq!(state.selection, Some(rect(0, 80, 300, 200)));
    state.pointer_button(false);
    assert_eq!(state.interaction, Interaction::Idle);
}

#[test]
fn dragging_a_handle_resizes_selection() {
    let mut state = with_selection();
    state.pointer_motion(steps(400), steps(300));
    assert_eq!(state.hovered, HitTarget::Handle(Handle::SouthEast));
    assert_eq!(state.cursor_shape(), CursorShape::NwseResize);
    state.pointer_button(true);
    state.pointer_motion(steps(600), steps(500));
    assert_eq!(state.selection, Some(rect(100, 100, 500, 400)));
    state.pointer_motion(steps(0), steps(0));
    assert_eq!(state.selection, Some(rect(100, 100, 24, 24)));
}

#[test]
fn dragging_outside_starts_a_new_selection() {
    let mut state = with_selection();
    state.pointer_motion(steps(1000), steps(800));
    assert_eq!(state.hovered, HitTarget::Outside);
    assert_eq!(state.cursor_shape(), CursorShape::Crosshair);
    state.pointer_button(true);
    assert_eq!(state.selection, Some(rect(1000, 800, 0, 0)));
    state.pointer_motion(steps(1100), steps(900));
    assert_eq!(state.selection, Some(rect(1000, 800, 100, 100)));
}

#[test]
fn second_press_starts_what_the_pointer_designates() {
    let mut state = with_selection();
    state.pointer_motion(steps(1000), steps(800));
    state.pointer_button(true);
    assert!(state.pointer_button(true));
    assert_eq!(
        state.interaction,
        Interaction::Resizing {
            handle: Handle::NorthWest,
            selection_origin: rect(1000, 800, 0, 0),
            output: 0,
        }
    );
    assert!(state.motion_defined());
}

#[test]
fn resizing_a_tiny_selection_at_the_edge_is_undefined() {
    let mut state = AppState::new(vec![output()]);
    state.pointer_enter(0, steps(10), steps(10));
    state.pointer_button(true);
    state.pointer_button(true);
    assert!(matches!(state.interaction, Interaction::Resizing { .. }));
    assert!(!state.motion_defined());
}

#[test]
fn press_on_handle_just_off_the_output_resizes() {
    let mut state = AppState::new(vec![output()]);
    state.pointer_enter(0, 0, 0);
    state.pointer_button(true);
    state.pointer_motion(steps(300), steps(200));
    state.pointer_button(false);
    state.pointer_motion(steps(-4), steps(-4));
    assert_eq!(state.hovered, HitTarget::Handle(Handle::NorthWest));
    assert!(state.pointer_button(true));
    assert_eq!(
        state.interaction,
        Interaction::Resizing {
            handle: Handle::NorthWest,
            selection_origin: rect(0, 0, 300, 200),
            output: 0,
        }
    );
}

#[test]
fn press_to_draw_off_the_output_is_ignored() {
    let mut state = with_selection();
    state.pointer_motion(steps(2500), steps(500));
    assert!(!state.pointer_button(true));
    assert_eq!(state.selection, Some(rect(100, 100, 300, 200)));
    assert_eq!(state.interaction, Interaction::Idle);
}

#[test]
fn press_on_narrow_output_is_ignored() {
    let mut state = AppState::new(vec![output(), rect(1920, 0, 100, 1080)]);
    state.pointer_enter(1, steps(50), steps(50));
    assert!(!state.pointer_button(true));
    assert_eq!(state.selection, None);
}

#[test]
fn failure_ends_with_error_not_cancel() {
    let mut state = with_selection();
    state.fail(String::from("render failed"));
    assert!(!state.running);
    assert_eq!(state.result, None);
    assert_eq!(state.error.as_ref().map(|e| e.message()), Some("render failed"));
}

#[test]
fn press_off_the_output_is_ignored() {
    let mut state = AppState::new(vec![output()]);
    state.pointer_enter(0, steps(2500), steps(100));
    assert!(!state.pointer_button(true));
    assert_eq!(state.selection, None);
    assert_eq!(state.interaction, Interaction::Idle);
}

#[test]
fn pointer_on_other_output_hits_nothing() {
    let mut state = with_selection();
    state.pointer_enter(1, steps(100), steps(100));
    assert_eq!(state.pointer, Point::new(px(2020), px(100)));
    assert_eq!(state.hit_target(), HitTarget::Outside);
    let scene = state.scene(1);
    assert!(!scene.active_output);
    assert_eq!(scene.hovered, HitTarget::Outside);
    assert!(state.scene(0).active_output);
}

#[test]
fn leaving_clears_hover_and_redraws() {
    let mut state = with_selection();
    state.pointer_motion(steps(200), steps(200));
    let revision = state.revision;
    assert!(state.pointer_leave());
    assert_eq!(state.hovered, HitTarget::Outside);
    assert_eq!(state.revision, revision + 1);
}

#[test]
fn revision_skips_zero_when_it_wraps() {
    let mut state = AppState::new(vec![output()]);
    state.revision = u64::MAX;
    state.pointer_leave();
    assert_eq!(state.revision, 1);
}

#[test]
fn cancel_clears_result() {
    let mut state = with_selection();
    state.confirm();
    assert!(state.result.is_some());
    state.cancel();
    assert!(!state.running);
    assert_eq!(state.result, None);
}

#[test]
fn nudge_moves_and_reports_redraw() {
    let mut state = with_selection();
    assert!(state.nudge(px(-3), px(4)));
    assert_eq!(state.selection, Some(rect(97, 104, 300, 200)));
    let mut empty = AppState::new(vec![output()]);
    assert!(!empty.nudge(px(1), 0));
}

#[test]
fn app_error_keeps_its_message() {
    let error = AppError::new(String::from("the compositor reported no outputs"));
    assert_eq!(error.message(), "the compositor reported no outputs");
}
