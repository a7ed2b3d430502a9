use headless_primitives::remove_scroll::{
    handle_scroll, Axis, GapMode, RemoveScrollContext, ScrollFrame,
};
use headless_primitives::touch::{pinch_or_zoom, TouchAction, TouchPoint, TouchTracker};

fn frame(overflow: &str, scroll_pos: i32, scroll_size: i32, client_size: i32) -> ScrollFrame {
    ScrollFrame { overflow: overflow.to_string(), scroll_pos, scroll_size, client_size }
}

fn touch(identifier: i32, client_x: i32, client_y: i32) -> TouchPoint {
    TouchPoint { identifier, client_x, client_y }
}

#[test]
fn gap_mode_defaults_to_margin() {
    assert!(GapMode::default() == GapMode::Margin);
    assert!(Axis::V != Axis::H);
}

#[test]
fn first_lock_disables_and_last_unlock_restores() {
    let mut context = RemoveScrollContext::new(None);
    assert!(context.enabled);
    assert_eq!(context.locks, 0);
    assert!(context.lock());
    assert!(!context.lock());
    assert_eq!(context.locks, 2);
    assert!(!context.unlock());
    assert!(context.unlock());
    assert_eq!(context.locks, 0);
}

#[test]
fn disabled_context_takes_no_lock() {
    let mut context = RemoveScrollContext::new(Some(false));
    assert!(!context.lock());
    assert_eq!(context.locks, 0);
    assert!(context.unlock());
    assert_eq!(context.locks, -1);
    assert!(!context.stops_events(None));
    let enabled = RemoveScrollContext::new(Some(true));
    assert!(enabled.stops_events(None));
    assert!(enabled.stops_events(Some(false)));
    assert!(!enabled.stops_events(Some(true)));
}

#[test]
fn scroll_is_cancelled_at_the_limit() {
    let at_end = vec![frame("auto", 300, 500, 200)];
    assert!(handle_scroll(Axis::V, false, &at_end, 10, false));
    assert!(!handle_scroll(Axis::V, false, &at_end, -10, false));
    assert!(!handle_scroll(Axis::V, false, &at_end, 0, false));
    let at_start = vec![frame("scroll", 0, 500, 200)];
    assert!(handle_scroll(Axis::V, false, &at_start, -1, true));
    assert!(!handle_scroll(Axis::V, false, &at_start, 1, true));
    let middle = vec![frame("auto", 100, 500, 200)];
    assert!(!handle_scroll(Axis::V, false, &middle, 10, false));
    assert!(!handle_scroll(Axis::V, false, &middle, -10, false));
}

#[test]
fn first_scrollable_ancestor_decides() {
    let frames = vec![
        frame("hidden", 0, 500, 200),
        frame("visible", 0, 500, 200),
        frame("auto", 0, 100, 200),
        frame("auto", 100, 500, 200),
        frame("auto", 300, 500, 200),
    ];
    assert!(!handle_scroll(Axis::V, false, &frames, 10, false));
    let frames = vec![frame("hidden", 0, 500, 200), frame("auto", 300, 500, 200)];
    assert!(handle_scroll(Axis::V, false, &frames, 10, false));
    assert!(!handle_scroll(Axis::V, false, &vec![], 10, false));
    assert!(!handle_scroll(Axis::V, false, &vec![frame("hidden", 0, 500, 200)], 10, false));
}

#[test]
fn horizontal_scroll_is_mirrored_right_to_left() {
    let at_start = vec![frame("auto", 0, 500, 200)];
    assert!(handle_scroll(Axis::H, false, &at_start, -10, false));
    assert!(!handle_scroll(Axis::H, true, &at_start, -10, false));
    assert!(handle_scroll(Axis::H, true, &at_start, 10, false));
    assert!(handle_scroll(Axis::V, true, &at_start, -10, false));
    assert!(!handle_scroll(Axis::H, true, &at_start, i32::MIN, false));
}

#[test]
fn first_touches_are_moves_and_are_remembered() {
    let mut tracker = TouchTracker::new();
    assert_eq!(tracker.last_seen(1), None);
    let touches = vec![touch(1, 10, 10), touch(2, 50, 50)];
    assert_eq!(tracker.track_touch(&touches, &touches), TouchAction::Move);
    assert_eq!(tracker.last_seen(1), Some(touch(1, 10, 10)));
    assert_eq!(tracker.last_seen(2), Some(touch(2, 50, 50)));
    assert_eq!(tracker.last_seen(3), None);
}

#[test]
fn fingers_moving_apart_zoom() {
    let mut tracker = TouchTracker::new();
    let start = vec![touch(1, 10, 10), touch(2, 50, 50)];
    tracker.track_touch(&start, &start);
    let apart = vec![touch(1, 5, 5), touch(2, 60, 60)];
    assert_eq!(pinch_or_zoom(&apart, &apart, &mut tracker), TouchAction::Zoom);
    assert_eq!(tracker.last_seen(1), Some(touch(1, 10, 10)));
    let still = vec![touch(1, 10, 12), touch(2, 55, 53)];
    assert_eq!(tracker.track_touch(&still, &still), TouchAction::Zoom);
}

#[test]
fn fingers_moving_together_pinch() {
    let mut tracker = TouchTracker::new();
    let start = vec![touch(1, 10, 10), touch(2, 50, 50)];
    tracker.track_touch(&start, &start);
    let together = vec![touch(1, 15, 5), touch(2, 53, 44)];
    assert_eq!(
        tracker.track_touch(&together, &together),
        TouchAction::Pinch { delta_x: 1, delta_y: -1 }
    );
    let back = vec![touch(1, 5, 15), touch(2, 43, 54)];
    assert_eq!(
        tracker.track_touch(&back, &back),
        TouchAction::Pinch { delta_x: -1, delta_y: 1 }
    );
}

#[test]
fn later_touch_of_a_finger_replaces_the_earlier() {
    let mut tracker = TouchTracker::new();
    let one = vec![touch(1, 10, 10)];
    let changed = vec![touch(1, 10, 10), touch(1, 20, 20), touch(4, 1, 1)];
    assert_eq!(tracker.track_touch(&one, &changed), TouchAction::Move);
    assert_eq!(tracker.last_seen(1), Some(touch(1, 20, 20)));
    assert_eq!(tracker.last_seen(4), Some(touch(4, 1, 1)));
    let far = vec![touch(1, i32::MAX, i32::MIN), touch(4, i32::MAX, i32::MIN)];
    assert_eq!(
        tracker.track_touch(&far, &far),
        TouchAction::Pinch { delta_x: 1, delta_y: -1 }
    );
}
