use scrop::geometry::{Handle, HitTarget, Rect, UNITS_PER_PIXEL};
use scrop::render::{overlay, Overlay, Scene};
use scrop::surface::{
    display_name, draw_step, needs_new_buffers, output_bounds, surface_extent, usable_output,
    DrawStep,
};

fn px(v: i64) -> i64 {
    v * UNITS_PER_PIXEL
}

fn rect(x: i64, y: i64, width: i64, height: i64) -> Rect {
    Rect::new(px(x), px(y), px(width), px(height))
}

fn scene(selection: Option<Rect>, active: bool, hovered: HitTarget) -> Scene {
    Scene {
        output_bounds: rect(1920, 0, 1920, 1080),
        selection,
        active_output: active,
        hovered,
        pressing_cancel: false,
        pressing_select: false,
    }
}

#[test]
fn output_without_selection_shows_centered_hint() {
    match overlay(scene(None, false, HitTarget::Outside)) {
        Overlay::Hint { chip } => assert_eq!(chip, rect(864, 518, 192, 44)),
        Overlay::Selection(_) => panic!("expected the hint"),
    }
}

#[test]
fn selection_on_another_output_shows_hint() {
    let selection = Some(rect(100, 100, 300, 200));
    assert!(matches!(
        overlay(scene(selection, false, HitTarget::Outside)),
        Overlay::Hint { .. }
    ));
}

#[test]
fn selection_is_laid_out_in_output_coordinates() {
    let selection = Some(rect(2020, 100, 300, 200));
    let Overlay::Selection(layout) = overlay(scene(selection, true, HitTarget::Outside)) else {
        panic!("expected the selection");
    };
    assert_eq!(layout.selection, rect(100, 100, 300, 200));
    assert_eq!(layout.cleared, rect(101, 101, 298, 198));
    assert_eq!(layout.handles.len(), 8);
    assert_eq!(layout.handles[0].handle, Handle::NorthWest);
    assert_eq!(layout.handles[0].rect, rect(95, 95, 10, 10));
    assert_eq!(layout.handles[0].shadow, rect(96, 97, 10, 10));
    assert!(layout.handles.iter().all(|mark| !mark.hovered));
    assert_eq!(layout.toolbar, rect(177, 314, 146, 52));
    assert_eq!(layout.toolbar_shadow, rect(177, 319, 146, 52));
    assert_eq!(layout.select, rect(185, 322, 88, 36));
    assert_eq!(layout.cancel, rect(279, 322, 36, 36));
    assert!(!layout.select_hovered);
    assert!(!layout.cancel_hovered);
}

#[test]
fn hovered_handle_grows() {
    let selection = Some(rect(2020, 100, 300, 200));
    let hovered = HitTarget::Handle(Handle::SouthEast);
    let Overlay::Selection(layout) = overlay(scene(selection, true, hovered)) else {
        panic!("expected the selection");
    };
    let mark = layout.handles[4];
    assert_eq!(mark.handle, Handle::SouthEast);
    assert!(mark.hovered);
    assert_eq!(mark.rect, rect(394, 294, 12, 12));
}

#[test]
fn held_button_under_pointer_sinks() {
    let mut s = scene(Some(rect(2020, 100, 300, 200)), true, HitTarget::SelectButton);
    s.pressing_select = true;
    let Overlay::Selection(layout) = overlay(s) else {
        panic!("expected the selection");
    };
    assert!(layout.select_hovered);
    assert_eq!(layout.select, rect(185, 323, 88, 36));
    assert_eq!(layout.cancel, rect(279, 322, 36, 36));
}

#[test]
fn tiny_selection_clears_nothing() {
    let Overlay::Selection(layout) =
        overlay(scene(Some(Rect::new(px(2020), px(100), 1, 1)), true, HitTarget::Outside))
    else {
        panic!("expected the selection");
    };
    assert_eq!(layout.cleared.width, 0);
    assert_eq!(layout.cleared.height, 0);
}

#[test]
fn output_bounds_are_converted_from_pixels() {
    assert_eq!(output_bounds(-1920, 0, 1920, 1080), rect(-1920, 0, 1920, 1080));
}

#[test]
fn usable_outputs() {
    assert!(usable_output(rect(0, 0, 1920, 1080)));
    assert!(usable_output(rect(0, 0, 100, 1080)));
    assert!(!usable_output(rect(0, 0, 1920, 0)));
    assert!(!usable_output(Rect::new(0, 0, 3, 2)));
    assert!(!usable_output(Rect::new(-3, 0, 2, 2)));
}

#[test]
fn output_names_fall_back() {
    assert_eq!(display_name("DP-1", "HDMI-A-1"), "DP-1");
    assert_eq!(display_name("", "HDMI-A-1"), "HDMI-A-1");
    assert_eq!(display_name("", ""), "unknown");
}

#[test]
fn surface_extent_defaults_to_output() {
    assert_eq!(surface_extent(0, px(1920)), 1920);
    assert_eq!(surface_extent(1280, px(1920)), 1280);
}

#[test]
fn buffers_are_reused_for_same_size() {
    assert!(!needs_new_buffers(1920, 1080, true, 1920, 1080));
    assert!(needs_new_buffers(1920, 1080, false, 1920, 1080));
    assert!(needs_new_buffers(1920, 1080, true, 1280, 1080));
}

#[test]
fn draw_step_picks_first_free_buffer() {
    assert_eq!(draw_step(3, 3, &vec![false, false]), DrawStep::UpToDate);
    assert_eq!(draw_step(2, 3, &vec![true, false]), DrawStep::Draw(1));
    assert_eq!(draw_step(2, 3, &vec![false, false]), DrawStep::Draw(0));
    assert_eq!(draw_step(2, 3, &vec![true, true]), DrawStep::NoFreeBuffer);
}
