use headless_primitives::geometry::{
    compute_grace_area, is_moving_toward_submenu, is_point_in_polygon, is_pointer_in_grace_area,
    ray_crosses_edge, GeometryError, GraceAreaTracker, GraceIntent, PanelRect, Point, Polygon,
    Side,
};

fn p(x: i32, y: i32) -> Point {
    Point { x, y }
}

fn square() -> Vec<Point> {
    vec![p(0, 0), p(10, 0), p(10, 10), p(0, 10)]
}

#[test]
fn square_contains_its_centre() {
    assert_eq!(is_point_in_polygon(p(5, 5), &square()), Ok(true));
    assert_eq!(is_point_in_polygon(p(15, 5), &square()), Ok(false));
    assert_eq!(is_point_in_polygon(p(-1, 5), &square()), Ok(false));
    assert_eq!(is_point_in_polygon(p(5, 11), &square()), Ok(false));
}

#[test]
fn boundary_convention_is_half_open() {
    // The left and top edges belong to the square, the right and bottom ones do not.
    assert_eq!(is_point_in_polygon(p(0, 5), &square()), Ok(true));
    assert_eq!(is_point_in_polygon(p(10, 5), &square()), Ok(false));
    assert_eq!(is_point_in_polygon(p(5, 0), &square()), Ok(true));
    assert_eq!(is_point_in_polygon(p(5, 10), &square()), Ok(false));
}

#[test]
fn short_polygons_are_invalid() {
    assert_eq!(is_point_in_polygon(p(0, 0), &vec![]), Err(GeometryError::InvalidGeometry));
    assert_eq!(
        is_point_in_polygon(p(0, 0), &vec![p(0, 0), p(1, 1)]),
        Err(GeometryError::InvalidGeometry)
    );
    assert!(matches!(Polygon::new(vec![p(0, 0), p(1, 1)]), Err(GeometryError::InvalidGeometry)));
    assert!(Polygon::new(square()).is_ok());
}

#[test]
fn level_edges_never_cross() {
    assert!(!ray_crosses_edge(p(0, 5), p(1, 5), p(9, 5)));
    assert!(!ray_crosses_edge(p(0, 5), p(1, 4), p(9, 4)));
    assert_eq!(is_point_in_polygon(p(5, 5), &vec![p(0, 5), p(10, 5), p(20, 5)]), Ok(false));
}

#[test]
fn slanted_edges_are_compared_exactly() {
    // The edge from (0,0) to (3,10) is at x = 1.5 when y = 5.
    assert!(ray_crosses_edge(p(1, 5), p(0, 0), p(3, 10)));
    assert!(!ray_crosses_edge(p(2, 5), p(0, 0), p(3, 10)));
    assert!(ray_crosses_edge(p(1, 5), p(3, 10), p(0, 0)));
    assert!(!ray_crosses_edge(p(2, 5), p(3, 10), p(0, 0)));
}

#[test]
fn extreme_coordinates_do_not_overflow() {
    let big = vec![p(i32::MIN, i32::MIN), p(i32::MAX, i32::MIN), p(i32::MAX, i32::MAX), p(i32::MIN, i32::MAX)];
    assert_eq!(is_point_in_polygon(p(0, 0), &big), Ok(true));
    assert_eq!(is_point_in_polygon(p(i32::MAX, 0), &big), Ok(false));
}

#[test]
fn grace_area_on_the_right() {
    let panel = PanelRect { left: 120, right: 220, top: 40, bottom: 140 };
    let area = compute_grace_area(p(100, 50), panel, Side::Right, 5);
    assert_eq!(
        area.points(),
        &vec![p(95, 50), p(120, 40), p(220, 40), p(220, 140), p(120, 140)]
    );
}

#[test]
fn grace_area_on_the_left() {
    let panel = PanelRect { left: 120, right: 220, top: 40, bottom: 140 };
    let area = compute_grace_area(p(300, 50), panel, Side::Left, 5);
    assert_eq!(
        area.points(),
        &vec![p(305, 50), p(220, 40), p(120, 40), p(120, 140), p(220, 140)]
    );
}

#[test]
fn no_intent_means_not_moving_toward_submenu() {
    for x in [-50, 0, 5, 100, 150] {
        for y in [-50, 0, 50, 90] {
            assert!(!is_moving_toward_submenu(Side::Left, None, p(x, y)));
            assert!(!is_moving_toward_submenu(Side::Right, None, p(x, y)));
            assert!(!is_pointer_in_grace_area(p(x, y), None));
        }
    }
}

#[test]
fn moving_toward_submenu_needs_side_and_area() {
    let panel = PanelRect { left: 120, right: 220, top: 40, bottom: 140 };
    let area = compute_grace_area(p(100, 50), panel, Side::Right, 5);
    let intent = GraceIntent::new(area, Side::Right);
    assert!(is_moving_toward_submenu(Side::Right, Some(&intent), p(110, 50)));
    assert!(!is_moving_toward_submenu(Side::Left, Some(&intent), p(110, 50)));
    assert!(!is_moving_toward_submenu(Side::Right, Some(&intent), p(50, 50)));
    assert!(is_pointer_in_grace_area(p(150, 90), Some(&intent.area)));
}

#[test]
fn tracker_follows_intent_and_direction() {
    let mut tracker = GraceAreaTracker::new();
    assert!(tracker.get_intent().is_none());
    assert_eq!(tracker.pointer_dir(), Side::Right);
    assert!(!tracker.is_pointer_moving_to_submenu(p(110, 50)));

    let panel = PanelRect { left: 120, right: 220, top: 40, bottom: 140 };
    let area = compute_grace_area(p(100, 50), panel, Side::Right, 5);
    tracker.set_intent(Some(GraceIntent::new(area, Side::Right)));
    assert_eq!(tracker.get_intent().map(|intent| intent.side), Some(Side::Right));
    assert!(tracker.is_pointer_in_grace_area(p(110, 50)));

    tracker.on_pointer_move(10);
    assert_eq!(tracker.pointer_dir(), Side::Right);
    assert!(tracker.is_pointer_moving_to_submenu(p(110, 50)));
    tracker.on_pointer_move(10);
    assert_eq!(tracker.pointer_dir(), Side::Right);
    tracker.on_pointer_move(4);
    assert_eq!(tracker.pointer_dir(), Side::Left);
    assert!(!tracker.is_pointer_moving_to_submenu(p(110, 50)));

    tracker.set_intent(None);
    assert!(tracker.get_intent().is_none());
    assert!(!tracker.is_pointer_in_grace_area(p(110, 50)));
}

#[test]
fn polygon_copy_keeps_the_points() {
    let polygon = Polygon::new(square()).ok().unwrap();
    let copy = polygon.clone();
    assert_eq!(copy.points(), polygon.points());
    assert!(copy.contains(p(5, 5)));
    let intent = GraceIntent::new(polygon, Side::Left);
    let again = intent.clone();
    assert_eq!(again.side, Side::Left);
    assert_eq!(again.area.points(), intent.area.points());
}
