//! Scroll locking: counting nested locks, and deciding whether a scroll
//! gesture inside a locked region has to be cancelled.

use vstd::prelude::*;
use vstd::string::*;
use crate::text::same_text;

verus! {

/// How the gap left by a removed scrollbar is filled.
#[derive(Clone, Copy, Debug, PartialEq, Eq, Structural)]
pub enum GapMode {
    Margin,
    Padding,
}

impl Default for GapMode {
    fn default() -> (mode: GapMode)
        ensures
            mode == GapMode::Margin,
    {
        GapMode::Margin
    }
}

/// A scroll axis: vertical or horizontal.
#[derive(Clone, Copy, Debug, PartialEq, Eq, Structural)]
pub enum Axis {
    V,
    H,
}

/// The lock state that nested scroll-removing regions share.
#[derive(Clone, Copy, Debug, PartialEq, Eq, Structural)]
pub struct RemoveScrollContext {
    pub enabled: bool,
    pub locks: i32,
}

impl RemoveScrollContext {
    /// A context without locks; scroll removal is enabled unless said
    /// otherwise.
    pub fn new(enabled: Option<bool>) -> (context: RemoveScrollContext)
        ensures
            context.locks == 0,
            context.enabled == (enabled != Some(false)),
    {
        let enabled = match enabled {
            Some(flag) => flag,
            None => true,
        };
        RemoveScrollContext { enabled, locks: 0 }
    }

    /// Takes a lock if scroll removal is enabled, and tells whether scrolling
    /// has to be disabled now: this lock is the first.
    pub fn lock(&mut self) -> (disable: bool)
        requires
            old(self).locks < i32::MAX,
        ensures
            final(self).enabled == old(self).enabled,
            final(self).locks == if old(self).enabled {
                old(self).locks + 1
            } else {
                old(self).locks as int
            },
            disable == (old(self).enabled && old(self).locks == 0),
    {
        if self.enabled {
            self.locks = self.locks + 1;
            self.locks == 1
        } else {
            false
        }
    }

    /// Gives a lock back, and tells whether scrolling has to be restored now:
    /// no lock is left.
    pub fn unlock(&mut self) -> (restore: bool)
        requires
            old(self).locks > i32::MIN,
        ensures
            final(self).enabled == old(self).enabled,
            final(self).locks == old(self).locks - 1,
            restore == (old(self).locks <= 1),
    {
        self.locks = self.locks - 1;
        self.locks <= 0
    }

    /// Tells whether wheel and touch-move events are to be stopped: scroll
    /// removal is enabled and isolation has not been switched off.
    pub fn stops_events(&self, no_isolation: Option<bool>) -> (stops: bool)
        ensures
            stops == (self.enabled && no_isolation != Some(true)),
    {
        let no_isolation = match no_isolation {
            Some(flag) => flag,
            None => false,
        };
        self.enabled && !no_isolation
    }
}

/// What is measured of one element on the way from the scroll target up to
/// the root: its overflow setting on the axis, and its scroll position, its
/// scrollable size and its visible size along the axis.
pub struct ScrollFrame {
    pub overflow: String,
    pub scroll_pos: i32,
    pub scroll_size: i32,
    pub client_size: i32,
}

impl ScrollFrame {
    /// The element can scroll on the axis: its overflow neither hides nor
    /// shows what does not fit, and there is more content than room.
    pub open spec fn scrolls(self) -> bool {
        self.overflow@ != "hidden"@ && self.overflow@ != "visible"@ && self.scroll_size
            > self.client_size
    }

    /// The element cannot scroll any further in the direction of `delta`.
    pub open spec fn at_limit(self, delta: int) -> bool {
        (delta > 0 && self.scroll_pos + self.client_size >= self.scroll_size) || (delta < 0
            && self.scroll_pos <= 0)
    }

    pub fn can_scroll(&self) -> (scrolls: bool)
        ensures
            scrolls == self.scrolls(),
    {
        !same_text(self.overflow.as_str(), "hidden") && !same_text(self.overflow.as_str(), "visible")
            && self.scroll_size > self.client_size
    }

    pub fn is_at_limit(&self, delta: i64) -> (at_limit: bool)
        ensures
            at_limit == self.at_limit(delta as int),
    {
        let reach: i64 = self.scroll_pos as i64 + self.client_size as i64;
        (delta > 0 && reach >= self.scroll_size as i64) || (delta < 0 && self.scroll_pos <= 0)
    }
}

/// The scroll distance as the element sees it: mirrored for a horizontal
/// scroll in a right-to-left context.
pub open spec fn directed_delta(axis: Axis, is_rtl: bool, source_delta: int) -> int {
    if axis == Axis::H && is_rtl {
        -source_delta
    } else {
        source_delta
    }
}

/// The decision over the first `upto` frames skipped as unable to scroll: the
/// first frame that can scroll decides, by being at its limit or not; with
/// none, nothing is cancelled.
pub open spec fn cancels_from(frames: Seq<ScrollFrame>, from: int, delta: int) -> bool
    decreases frames.len() - from,
{
    if from < 0 || from >= frames.len() {
        false
    } else if frames[from].scrolls() {
        frames[from].at_limit(delta)
    } else {
        cancels_from(frames, from + 1, delta)
    }
}

/// Decides whether a scroll by `source_delta` along `axis` has to be
/// cancelled. `frames` are the target and its ancestors, innermost first;
/// `is_rtl` says whether the target's direction is right to left. The scroll
/// is cancelled when the first element that can scroll is already at its
/// limit in that direction. `no_overscroll` is accepted and not consulted.
pub fn handle_scroll(
    axis: Axis,
    is_rtl: bool,
    frames: &Vec<ScrollFrame>,
    source_delta: i32,
    no_overscroll: bool,
) -> (should_cancel: bool)
    ensures
        should_cancel == cancels_from(
            frames@,
            0,
            directed_delta(axis, is_rtl, source_delta as int),
        ),
{
    let mirrored: bool = match axis {
        Axis::H => is_rtl,
        Axis::V => false,
    };
    let delta: i64 = if mirrored {
        -(source_delta as i64)
    } else {
        source_delta as i64
    };
    let mut i: usize = 0;
    while i < frames.len()
        invariant
            i <= frames@.len(),
            delta == directed_delta(axis, is_rtl, source_delta as int),
            cancels_from(frames@, 0, delta as int) == cancels_from(frames@, i as int, delta as int),
        decreases frames@.len() - i,
    {
        if frames[i].can_scroll() {
            return frames[i].is_at_limit(delta);
        }
        i += 1;
    }
    false
}

} // verus!
