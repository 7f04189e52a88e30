use scrop::geometry::{
    cancel_button_rect, hit_test, select_button_rect, toolbar_rect, Handle, HitTarget, Point,
    Rect, MIN_SELECTION_SIZE, UNITS_PER_PIXEL,
};
use scrop::style::{HANDLE_HIT_RADIUS, TOOLBAR_HEIGHT, TOOLBAR_WIDTH};

fn px(v: i64) -> i64 {
    v * UNITS_PER_PIXEL
}

fn rect(x: i64, y: i64, width: i64, height: i64) -> Rect {
    Rect::new(px(x), px(y), px(width), px(height))
}

fn point(x: i64, y: i64) -> Point {
    Point::new(px(x), px(y))
}

fn bounds() -> Rect {
    rect(100, 50, 800, 600)
}

#[test]
fn normalizes_points() {
    assert_eq!(
        Rect::from_points(point(90, 70), point(10, 20)),
        rect(10, 20, 80, 50)
    );
}

#[test]
fn clamps_translation_to_output() {
    let r = rect(200, 150, 300, 200);
    assert_eq!(
        r.translated(px(1000), px(-1000), bounds()),
        rect(600, 50, 300, 200)
    );
}

#[test]
fn resizes_from_corner_and_stays_in_output() {
    let r = rect(200, 150, 300, 200);
    assert_eq!(
        r.resized(Handle::SouthEast, point(1200, 900), bounds()),
        rect(200, 150, 700, 500)
    );
}

#[test]
fn prevents_resize_below_minimum() {
    let r = rect(200, 150, 300, 200);
    assert_eq!(
        r.resized(Handle::West, point(490, 0), bounds()),
        Rect::new(px(476), px(150), MIN_SELECTION_SIZE, px(200))
    );
}

#[test]
fn toolbar_moves_above_selection_near_bottom_edge() {
    let selection = rect(500, 600, 300, 40);
    assert!(toolbar_rect(selection, bounds()).bottom() <= selection.y);
}

#[test]
fn toolbar_is_centered_on_selection() {
    let selection = rect(300, 200, 400, 200);
    assert_eq!(
        toolbar_rect(selection, bounds()).center().x,
        selection.center().x
    );
}

#[test]
fn hits_cancel_button() {
    let selection = rect(200, 150, 300, 200);
    let cancel = cancel_button_rect(toolbar_rect(selection, bounds()));
    assert_eq!(
        hit_test(cancel.center(), selection, bounds()),
        HitTarget::CancelButton
    );
}

#[test]
fn hits_resize_handle_before_selection() {
    let selection = rect(200, 150, 300, 200);
    assert_eq!(
        hit_test(point(200, 150), selection, bounds()),
        HitTarget::Handle(Handle::NorthWest)
    );
}

#[test]
fn from_points_does_not_depend_on_order() {
    let a = point(90, 20);
    let b = point(10, 70);
    assert_eq!(Rect::from_points(a, b), Rect::from_points(b, a));
    assert_eq!(Rect::from_points(a, b), rect(10, 20, 80, 50));
}

#[test]
fn from_points_of_one_point_is_empty() {
    assert_eq!(Rect::from_points(point(5, 6), point(5, 6)), rect(5, 6, 0, 0));
}

#[test]
fn edges_and_center() {
    let r = rect(10, 20, 30, 41);
    assert_eq!(r.right(), px(40));
    assert_eq!(r.bottom(), px(61));
    // Half of an odd number of pixels is a whole number of units.
    assert_eq!(r.center(), Point::new(px(25), px(40) + px(1) / 2));
}

#[test]
fn center_is_exact_midpoint() {
    assert_eq!(Rect::new(0, 0, 2, -6).center(), Point::new(1, -3));
}

#[test]
fn contains_includes_edges() {
    let r = rect(10, 10, 20, 20);
    assert!(r.contains(point(10, 10)));
    assert!(r.contains(point(30, 30)));
    assert!(!r.contains(Point::new(px(30) + 1, px(20))));
    assert!(!r.contains(Point::new(px(20), px(10) - 1)));
}

#[test]
fn validity_needs_minimum_on_both_axes() {
    assert!(Rect::new(0, 0, MIN_SELECTION_SIZE, MIN_SELECTION_SIZE).is_valid());
    assert!(!Rect::new(0, 0, MIN_SELECTION_SIZE - 1, MIN_SELECTION_SIZE).is_valid());
    assert!(!Rect::new(0, 0, MIN_SELECTION_SIZE, MIN_SELECTION_SIZE - 1).is_valid());
}

#[test]
fn clamp_point_keeps_inside_points_and_pulls_in_others() {
    let b = bounds();
    assert_eq!(b.clamp_point(point(300, 300)), point(300, 300));
    assert_eq!(b.clamp_point(point(0, 1000)), point(100, 650));
    let once = b.clamp_point(point(-40, 2000));
    assert_eq!(b.clamp_point(once), once);
}

#[test]
fn translation_inside_output_is_exact() {
    let r = rect(200, 150, 300, 200);
    assert_eq!(r.translated(px(10), px(-5), bounds()), rect(210, 145, 300, 200));
    assert_eq!(r.translated(0, 0, bounds()), r);
}

#[test]
fn resize_in_every_direction_stays_valid_and_inside() {
    let r = rect(200, 150, 300, 200);
    let b = bounds();
    for handle in Handle::ALL {
        let resized = r.resized(handle, point(-500, -500), b);
        assert!(resized.is_valid());
        assert!(resized.x >= b.x && resized.y >= b.y);
        assert!(resized.right() <= b.right() && resized.bottom() <= b.bottom());
    }
}

#[test]
fn resize_north_moves_only_top_edge() {
    let r = rect(200, 150, 300, 200);
    assert_eq!(
        r.resized(Handle::North, point(0, 100), bounds()),
        rect(200, 100, 300, 250)
    );
}

#[test]
fn dragging_a_corner_onto_itself_keeps_the_rectangle() {
    let r = rect(200, 150, 300, 200);
    for handle in [Handle::NorthWest, Handle::NorthEast, Handle::SouthEast, Handle::SouthWest] {
        assert_eq!(r.resized(handle, handle.center(r), bounds()), r);
    }
}

#[test]
fn relative_to_moves_origin_and_keeps_size() {
    assert_eq!(
        rect(150, 80, 30, 40).relative_to(bounds()),
        rect(50, 30, 30, 40)
    );
}

#[test]
fn handle_centers_are_corners_and_midpoints() {
    let r = rect(0, 0, 100, 50);
    assert_eq!(Handle::NorthWest.center(r), point(0, 0));
    assert_eq!(Handle::North.center(r), point(50, 0));
    assert_eq!(Handle::NorthEast.center(r), point(100, 0));
    assert_eq!(Handle::East.center(r), point(100, 25));
    assert_eq!(Handle::SouthEast.center(r), point(100, 50));
    assert_eq!(Handle::South.center(r), point(50, 50));
    assert_eq!(Handle::SouthWest.center(r), point(0, 50));
    assert_eq!(Handle::West.center(r), point(0, 25));
}

#[test]
fn handle_at_follows_all() {
    for (i, handle) in Handle::ALL.iter().enumerate() {
        assert_eq!(Handle::at(i), *handle);
    }
}

#[test]
fn toolbar_sits_below_when_it_fits() {
    let selection = rect(300, 200, 400, 200);
    let toolbar = toolbar_rect(selection, bounds());
    assert_eq!(toolbar, rect(427, 414, 146, 52));
    assert_eq!(toolbar.width, TOOLBAR_WIDTH);
    assert_eq!(toolbar.height, TOOLBAR_HEIGHT);
}

#[test]
fn toolbar_stays_on_output_sideways() {
    let selection = rect(100, 200, 40, 40);
    assert_eq!(toolbar_rect(selection, bounds()).x, px(100));
    let selection = rect(860, 200, 40, 40);
    assert_eq!(toolbar_rect(selection, bounds()).right(), px(900));
}

#[test]
fn toolbar_never_above_output() {
    let selection = rect(300, 50, 400, 600);
    assert_eq!(toolbar_rect(selection, bounds()).y, px(50));
}

#[test]
fn buttons_lie_in_toolbar() {
    let toolbar = rect(0, 0, 146, 52);
    assert_eq!(select_button_rect(toolbar), rect(8, 8, 88, 36));
    assert_eq!(cancel_button_rect(toolbar), rect(102, 8, 36, 36));
}

#[test]
fn hits_select_button() {
    let selection = rect(200, 150, 300, 200);
    let select = select_button_rect(toolbar_rect(selection, bounds()));
    assert_eq!(
        hit_test(select.center(), selection, bounds()),
        HitTarget::SelectButton
    );
}

#[test]
fn hits_selection_and_outside() {
    let selection = rect(200, 150, 300, 200);
    assert_eq!(
        hit_test(point(300, 200), selection, bounds()),
        HitTarget::Selection
    );
    assert_eq!(
        hit_test(point(150, 100), selection, bounds()),
        HitTarget::Outside
    );
}

#[test]
fn handle_hit_radius_is_inclusive() {
    let selection = rect(200, 150, 300, 200);
    let edge = Point::new(px(200) - HANDLE_HIT_RADIUS, px(150) - HANDLE_HIT_RADIUS);
    assert_eq!(
        hit_test(edge, selection, bounds()),
        HitTarget::Handle(Handle::NorthWest)
    );
    let beyond = Point::new(px(200) - HANDLE_HIT_RADIUS - 1, px(150));
    assert_eq!(hit_test(beyond, selection, bounds()), HitTarget::Outside);
}

#[test]
fn slurp_geometry_from_readme() {
    assert_eq!(rect(120, 80, 1280, 720).to_slurp_geometry(), "120,80 1280x720");
}

#[test]
fn slurp_geometry_rounds_halves_away_from_zero() {
    let r = Rect::new(256, -256, 767, 768);
    assert_eq!(r.to_pixels(), (1, -1, 1, 2));
    assert_eq!(r.to_slurp_geometry(), "1,-1 1x2");
}

#[test]
fn slurp_geometry_of_negative_position() {
    assert_eq!(rect(-1920, -5, 30, 40).to_slurp_geometry(), "-1920,-5 30x40");
}

#[test]
fn pixels_saturate_at_i32_range() {
    assert_eq!(scrop::geometry::pixels(px(3_000_000_000)), i32::MAX);
    assert_eq!(scrop::geometry::pixels(px(-3_000_000_000)), i32::MIN);
}

#[test]
fn half_is_exact() {
    assert_eq!(scrop::geometry::half(8), 4);
    assert_eq!(scrop::geometry::half(-6), -3);
    assert_eq!(scrop::geometry::half(0), 0);
}

#[test]
fn handles_lie_on_the_edges_they_move() {
    let r = Rect::new(0, 0, 2, 2);
    for handle in Handle::ALL {
        let c = handle.center(r);
        assert_eq!(handle.moves_left(), c.x == r.x);
        assert_eq!(handle.moves_right(), c.x == r.right());
        assert_eq!(handle.moves_top(), c.y == r.y);
        assert_eq!(handle.moves_bottom(), c.y == r.bottom());
    }
}

#[test]
fn decimal_text_of_integers() {
    assert_eq!(scrop::geometry::decimal(0), "0");
    assert_eq!(scrop::geometry::decimal(1280), "1280");
    assert_eq!(scrop::geometry::decimal(-5), "-5");
    assert_eq!(scrop::geometry::decimal(i32::MIN), "-2147483648");
    assert_eq!(scrop::geometry::decimal(i32::MAX), "2147483647");
}
