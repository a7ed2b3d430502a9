//! Telling touch gestures apart: a move, a pinch, or a zoom.

use std::collections::HashMap;
use vstd::prelude::*;

verus! {

broadcast use vstd::std_specs::hash::group_hash_axioms;

/// One finger on the screen.
#[derive(Clone, Copy, Debug, PartialEq, Eq, Structural)]
pub struct TouchPoint {
    pub identifier: i32,
    pub client_x: i32,
    pub client_y: i32,
}

/// What a touch event amounts to. A pinch carries the direction of the first
/// finger on each axis: `-1` towards smaller coordinates, `1` otherwise.
#[derive(Clone, Copy, Debug, PartialEq, Eq, Structural)]
pub enum TouchAction {
    Move,
    Pinch { delta_x: i32, delta_y: i32 },
    Zoom,
}

/// Two movements go opposite ways, or one of them is none at all.
pub open spec fn diverge(a: int, b: int) -> bool {
    (a <= 0 && b >= 0) || (a >= 0 && b <= 0)
}

/// The direction of a movement: `-1` when negative, `1` otherwise.
pub open spec fn sign_of(x: int) -> int {
    if x < 0 {
        -1
    } else {
        1
    }
}

/// The gesture of two fingers, each seen before at `old1` and `old2`.
pub open spec fn two_finger_action(
    touch1: TouchPoint,
    touch2: TouchPoint,
    old1: TouchPoint,
    old2: TouchPoint,
) -> TouchAction {
    let dx1 = touch1.client_x - old1.client_x;
    let dy1 = touch1.client_y - old1.client_y;
    let dx2 = touch2.client_x - old2.client_x;
    let dy2 = touch2.client_y - old2.client_y;
    if diverge(dx1, dx2) || diverge(dy1, dy2) {
        TouchAction::Zoom
    } else {
        TouchAction::Pinch { delta_x: sign_of(dx1) as i32, delta_y: sign_of(dy1) as i32 }
    }
}

/// The event is a gesture of two fingers that were both seen before.
pub open spec fn is_two_finger_gesture(cache: Map<i32, TouchPoint>, touches: Seq<TouchPoint>) -> bool {
    touches.len() == 2 && cache.contains_key(touches[0].identifier) && cache.contains_key(
        touches[1].identifier,
    )
}

/// The cache after the first `upto` changed touches have been remembered, a
/// later one replacing an earlier one of the same finger.
pub open spec fn remembered(cache: Map<i32, TouchPoint>, changed: Seq<TouchPoint>, upto: nat) -> Map<
    i32,
    TouchPoint,
>
    decreases upto,
{
    if upto == 0 {
        cache
    } else {
        remembered(cache, changed, (upto - 1) as nat).insert(
            changed[upto - 1].identifier,
            changed[upto - 1],
        )
    }
}

fn diverges(a: i64, b: i64) -> (opposite: bool)
    ensures
        opposite == diverge(a as int, b as int),
{
    (a <= 0 && b >= 0) || (a >= 0 && b <= 0)
}

fn sign(x: i64) -> (direction: i32)
    ensures
        direction == sign_of(x as int),
{
    if x < 0 {
        -1
    } else {
        1
    }
}

/// Remembers where each finger was last seen.
pub struct TouchTracker {
    cache: HashMap<i32, TouchPoint>,
}

impl View for TouchTracker {
    type V = Map<i32, TouchPoint>;

    closed spec fn view(&self) -> Map<i32, TouchPoint> {
        self.cache@
    }
}

impl TouchTracker {
    /// A tracker that has seen no finger yet.
    pub fn new() -> (tracker: TouchTracker)
        ensures
            tracker@ == Map::<i32, TouchPoint>::empty(),
    {
        TouchTracker { cache: HashMap::new() }
    }

    /// Where the finger was last seen, if it was.
    pub fn last_seen(&self, identifier: i32) -> (seen: Option<TouchPoint>)
        ensures
            seen == if self@.contains_key(identifier) {
                Some(self@[identifier])
            } else {
                None
            },
    {
        match self.cache.get(&identifier) {
            Some(point) => Some(*point),
            None => None,
        }
    }

    /// Takes the fingers of a touch event, all of them in `touches` and those
    /// that changed in `changed_touches`. Two fingers that were both seen
    /// before make a zoom when they move apart on an axis, and a pinch
    /// otherwise; the cache stays. Anything else is a move, and the changed
    /// fingers are remembered.
    pub fn track_touch(&mut self, touches: &Vec<TouchPoint>, changed_touches: &Vec<TouchPoint>) -> (action:
        TouchAction)
        ensures
            is_two_finger_gesture(old(self)@, touches@) ==> {
                &&& final(self)@ == old(self)@
                &&& action == two_finger_action(
                    touches@[0],
                    touches@[1],
                    old(self)@[touches@[0].identifier],
                    old(self)@[touches@[1].identifier],
                )
            },
            !is_two_finger_gesture(old(self)@, touches@) ==> {
                &&& action == TouchAction::Move
                &&& final(self)@ == remembered(
                    old(self)@,
                    changed_touches@,
                    changed_touches@.len(),
                )
            },
    {
        if touches.len() == 2 {
            let touch1 = touches[0];
            let touch2 = touches[1];
            match (self.last_seen(touch1.identifier), self.last_seen(touch2.identifier)) {
                (Some(old1), Some(old2)) => {
                    let dx1: i64 = touch1.client_x as i64 - old1.client_x as i64;
                    let dy1: i64 = touch1.client_y as i64 - old1.client_y as i64;
                    let dx2: i64 = touch2.client_x as i64 - old2.client_x as i64;
                    let dy2: i64 = touch2.client_y as i64 - old2.client_y as i64;
                    if diverges(dx1, dx2) || diverges(dy1, dy2) {
                        return TouchAction::Zoom;
                    }
                    return TouchAction::Pinch { delta_x: sign(dx1), delta_y: sign(dy1) };
                },
                _ => {},
            }
        }
        let mut i: usize = 0;
        while i < changed_touches.len()
            invariant
                i <= changed_touches@.len(),
                self@ == remembered(old(self)@, changed_touches@, i as nat),
            decreases changed_touches@.len() - i,
        {
            let touch = changed_touches[i];
            self.cache.insert(touch.identifier, touch);
            i += 1;
        }
        TouchAction::Move
    }
}

/// Tells a pinch from a zoom, by the tracker's cache.
pub fn pinch_or_zoom(
    touches: &Vec<TouchPoint>,
    changed_touches: &Vec<TouchPoint>,
    cache: &mut TouchTracker,
) -> (action: TouchAction)
    ensures
        is_two_finger_gesture(old(cache)@, touches@) ==> {
            &&& final(cache)@ == old(cache)@
            &&& action == two_finger_action(
                touches@[0],
                touches@[1],
                old(cache)@[touches@[0].identifier],
                old(cache)@[touches@[1].identifier],
            )
        },
        !is_two_finger_gesture(old(cache)@, touches@) ==> {
            &&& action == TouchAction::Move
            &&& final(cache)@ == remembered(old(cache)@, changed_touches@, changed_touches@.len())
        },
{
    cache.track_touch(touches, changed_touches)
}

} // verus!
