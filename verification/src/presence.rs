//! The presence machine decides when an element may leave the render tree,
//! letting exit animations finish first.

use vstd::prelude::*;
use vstd::string::*;

verus! {

/// Where an element stands in its mounting cycle.
#[derive(Clone, Copy, Debug, PartialEq, Eq, Structural)]
pub enum PresenceState {
    /// Rendered and meant to be visible.
    Mounted,
    /// Still rendered while an exit animation plays.
    UnmountSuspended,
    /// Removed from the render tree.
    Unmounted,
}

/// What can move a [`PresenceState`].
#[derive(Clone, Copy, Debug, PartialEq, Eq, Structural)]
pub enum PresenceEvent {
    Mount,
    Unmount,
    AnimationOut,
    AnimationEnd,
}

/// The visual state the platform is asked to show on the element.
#[derive(Clone, Copy, Debug, PartialEq, Eq, Structural)]
pub enum VisualState {
    Enter,
    Exit,
}

impl PresenceState {
    /// The transition table: the five listed pairs, and `None` for every other
    /// pair.
    pub open spec fn table(self, event: PresenceEvent) -> Option<PresenceState> {
        match (self, event) {
            (PresenceState::Mounted, PresenceEvent::Unmount) => Some(PresenceState::Unmounted),
            (PresenceState::Mounted, PresenceEvent::AnimationOut) => Some(
                PresenceState::UnmountSuspended,
            ),
            (PresenceState::UnmountSuspended, PresenceEvent::AnimationEnd) => Some(
                PresenceState::Unmounted,
            ),
            (PresenceState::UnmountSuspended, PresenceEvent::Mount) => Some(PresenceState::Mounted),
            (PresenceState::Unmounted, PresenceEvent::Mount) => Some(PresenceState::Mounted),
            _ => None,
        }
    }

    /// The state after `event`: the table's entry, or the state itself where the
    /// table has none.
    pub open spec fn after(self, event: PresenceEvent) -> PresenceState {
        match self.table(event) {
            Some(next) => next,
            None => self,
        }
    }

    /// The state a machine starts in.
    pub open spec fn initial_for(visible: bool) -> PresenceState {
        if visible {
            PresenceState::Mounted
        } else {
            PresenceState::Unmounted
        }
    }

    /// Starts mounted exactly when the element is initially visible.
    pub fn initial(visible: bool) -> (state: PresenceState)
        ensures
            state == Self::initial_for(visible),
    {
        if visible {
            PresenceState::Mounted
        } else {
            PresenceState::Unmounted
        }
    }

    /// Looks the pair up in the transition table.
    pub fn transition(&self, event: PresenceEvent) -> (next: Option<PresenceState>)
        ensures
            next == self.table(event),
    {
        match (*self, event) {
            (PresenceState::Mounted, PresenceEvent::Unmount) => Some(PresenceState::Unmounted),
            (PresenceState::Mounted, PresenceEvent::AnimationOut) => Some(
                PresenceState::UnmountSuspended,
            ),
            (PresenceState::Unmounted, PresenceEvent::Mount) => Some(PresenceState::Mounted),
            (PresenceState::UnmountSuspended, PresenceEvent::AnimationEnd) => Some(
                PresenceState::Unmounted,
            ),
            (PresenceState::UnmountSuspended, PresenceEvent::Mount) => Some(PresenceState::Mounted),
            _ => None,
        }
    }

    /// Applies `event`; pairs without a table entry leave the state as it is.
    pub fn apply(self, event: PresenceEvent) -> (next: PresenceState)
        ensures
            next == self.after(event),
    {
        match self.transition(event) {
            Some(next) => next,
            None => self,
        }
    }

    /// Children are rendered in every state but `Unmounted`.
    pub fn is_rendered(&self) -> (rendered: bool)
        ensures
            rendered == (*self != PresenceState::Unmounted),
    {
        match *self {
            PresenceState::Unmounted => false,
            _ => true,
        }
    }
}

/// The four letters by which an animation's name marks it as an exit
/// animation.
pub open spec fn exit_marker() -> Seq<char> {
    seq!['e', 'x', 'i', 't']
}

/// `name` holds the exit marker at offset `at`.
pub open spec fn marker_at(name: Seq<char>, at: int) -> bool {
    0 <= at && at + 4 <= name.len() && name.subrange(at, at + 4) == exit_marker()
}

/// `name` names an exit animation: the marker occurs somewhere in it.
pub open spec fn names_exit(name: Seq<char>) -> bool {
    exists|at: int| marker_at(name, at)
}

/// Tells whether an animation name marks an exit animation.
pub fn is_exit_animation(name: &str) -> (found: bool)
    ensures
        found == names_exit(name@),
{
    let len: usize = name.unicode_len();
    if len < 4 {
        assert(forall|at: int| !marker_at(name@, at));
        return false;
    }
    let mut at: usize = 0;
    while at <= len - 4
        invariant
            len == name@.len(),
            len >= 4,
            at <= len - 3,
            forall|k: int| 0 <= k < at ==> !marker_at(name@, k),
        decreases len - at,
    {
        if name.get_char(at) == 'e' && name.get_char(at + 1) == 'x' && name.get_char(at + 2) == 'i'
            && name.get_char(at + 3) == 't' {
            assert(name@.subrange(at as int, at + 4) =~= exit_marker());
            assert(marker_at(name@, at as int));
            return true;
        }
        proof {
            let window = name@.subrange(at as int, at + 4);
            if window == exit_marker() {
                assert(window[0] == 'e' && window[1] == 'x' && window[2] == 'i' && window[3]
                    == 't');
            }
        }
        at += 1;
    }
    assert(forall|k: int| !marker_at(name@, k));
    false
}

/// The machine as a mathematical value.
pub struct PresenceModel {
    /// The mounting state.
    pub state: PresenceState,
    /// The visibility last asked for.
    pub desired: bool,
    /// How many animations are running on the element or below it.
    pub active_animations: nat,
    /// An unmount was asked for and no mount since.
    pub is_unmounting: bool,
    /// An exit animation has started since the last unmount request.
    pub exit_animation_started: bool,
}

impl PresenceModel {
    pub open spec fn initial(visible: bool) -> PresenceModel {
        PresenceModel {
            state: PresenceState::initial_for(visible),
            desired: visible,
            active_animations: 0,
            is_unmounting: false,
            exit_animation_started: false,
        }
    }

    /// What always holds of a machine: it is mounted exactly while visibility is
    /// desired, it is unmounting only while visibility is not desired, and an
    /// exit animation counts only while unmounting.
    pub open spec fn wf(self) -> bool {
        &&& self.desired <==> self.state == PresenceState::Mounted
        &&& self.is_unmounting ==> !self.desired
        &&& self.exit_animation_started ==> self.is_unmounting
    }

    pub open spec fn is_rendered(self) -> bool {
        self.state != PresenceState::Unmounted
    }

    /// The event that a visibility request fires, if any.
    pub open spec fn desired_event(self, visible: bool, has_animation: bool) -> Option<
        PresenceEvent,
    > {
        if visible == self.desired {
            None
        } else if visible {
            Some(PresenceEvent::Mount)
        } else if has_animation {
            Some(PresenceEvent::AnimationOut)
        } else {
            Some(PresenceEvent::Unmount)
        }
    }

    /// The machine after a visibility request. `has_animation` says whether a
    /// named animation was found once the exit state was shown; it matters only
    /// when visibility goes from true to false.
    pub open spec fn set_desired(self, visible: bool, has_animation: bool) -> PresenceModel {
        match self.desired_event(visible, has_animation) {
            None => self,
            Some(event) => PresenceModel {
                state: self.state.after(event),
                desired: visible,
                active_animations: self.active_animations,
                is_unmounting: !visible,
                exit_animation_started: false,
            },
        }
    }

    pub open spec fn on_animation_start(self, name: Seq<char>) -> PresenceModel {
        PresenceModel {
            active_animations: self.active_animations + 1,
            exit_animation_started: self.exit_animation_started || (self.is_unmounting
                && names_exit(name)),
            ..self
        }
    }

    /// The counter after one animation has ended, never below zero.
    pub open spec fn remaining(self) -> nat {
        if self.active_animations == 0 {
            0
        } else {
            (self.active_animations - 1) as nat
        }
    }

    /// Whether the end of an animation fires `AnimationEnd`.
    pub open spec fn end_fires(self) -> bool {
        self.remaining() == 0 && self.is_unmounting && self.exit_animation_started
    }

    pub open spec fn on_animation_end_or_cancel(self) -> PresenceModel {
        PresenceModel {
            state: if self.end_fires() {
                self.state.after(PresenceEvent::AnimationEnd)
            } else {
                self.state
            },
            active_animations: self.remaining(),
            ..self
        }
    }
}

/// Decides, from visibility requests and animation notifications, when an
/// element may be removed from the render tree.
pub struct PresenceMachine {
    state: PresenceState,
    desired: bool,
    active_animations: u64,
    is_unmounting: bool,
    exit_animation_started: bool,
}

impl View for PresenceMachine {
    type V = PresenceModel;

    closed spec fn view(&self) -> PresenceModel {
        PresenceModel {
            state: self.state,
            desired: self.desired,
            active_animations: self.active_animations as nat,
            is_unmounting: self.is_unmounting,
            exit_animation_started: self.exit_animation_started,
        }
    }
}

impl PresenceMachine {
    /// A machine for an element that is initially visible or not.
    pub fn new(visible: bool) -> (machine: PresenceMachine)
        ensures
            machine@ == PresenceModel::initial(visible),
            machine@.wf(),
    {
        PresenceMachine {
            state: PresenceState::initial(visible),
            desired: visible,
            active_animations: 0,
            is_unmounting: false,
            exit_animation_started: false,
        }
    }

    pub fn state(&self) -> (state: PresenceState)
        ensures
            state == self@.state,
    {
        self.state
    }

    pub fn desired(&self) -> (desired: bool)
        ensures
            desired == self@.desired,
    {
        self.desired
    }

    pub fn active_animations(&self) -> (count: u64)
        ensures
            count == self@.active_animations,
    {
        self.active_animations
    }

    pub fn is_unmounting(&self) -> (flag: bool)
        ensures
            flag == self@.is_unmounting,
    {
        self.is_unmounting
    }

    pub fn exit_animation_started(&self) -> (flag: bool)
        ensures
            flag == self@.exit_animation_started,
    {
        self.exit_animation_started
    }

    /// The render layer mounts the children exactly when this is true.
    pub fn is_rendered(&self) -> (rendered: bool)
        ensures
            rendered == self@.is_rendered(),
    {
        self.state.is_rendered()
    }

    /// Takes a visibility request together with the answer to "is a named
    /// animation present now that the exit state is shown?". Returns the event
    /// that was fired, if any; a request that repeats the current one changes
    /// nothing.
    pub fn apply_desired(&mut self, visible: bool, has_animation: bool) -> (fired: Option<
        PresenceEvent,
    >)
        ensures
            final(self)@ == old(self)@.set_desired(visible, has_animation),
            fired == old(self)@.desired_event(visible, has_animation),
            old(self)@.wf() ==> final(self)@.wf(),
    {
        if visible == self.desired {
            return None;
        }
        let event = if visible {
            PresenceEvent::Mount
        } else if has_animation {
            PresenceEvent::AnimationOut
        } else {
            PresenceEvent::Unmount
        };
        self.is_unmounting = !visible;
        self.exit_animation_started = false;
        self.state = self.state.apply(event);
        self.desired = visible;
        Some(event)
    }

    /// Takes a visibility request. When the request changes the desired
    /// visibility, `show` is called once with the visual state to put on the
    /// element; for `Exit` it flushes that state to the platform and then
    /// answers whether any named animation is present on the element or below
    /// it. Its answer for `Enter` is not used.
    pub fn set_desired<F: FnOnce(VisualState) -> bool>(&mut self, visible: bool, show: F) -> (fired:
        Option<PresenceEvent>)
        requires
            forall|visual: VisualState| show.requires((visual,)),
        ensures
            visible == old(self)@.desired ==> final(self)@ == old(self)@ && fired is None,
            visible && !old(self)@.desired ==> {
                &&& exists|answer: bool| show.ensures((VisualState::Enter,), answer)
                &&& final(self)@ == old(self)@.set_desired(true, false)
                &&& fired == Some(PresenceEvent::Mount)
            },
            !visible && old(self)@.desired ==> exists|found: bool|
                {
                    &&& show.ensures((VisualState::Exit,), found)
                    &&& final(self)@ == old(self)@.set_desired(false, found)
                    &&& fired == old(self)@.desired_event(false, found)
                },
            old(self)@.wf() ==> final(self)@.wf(),
    {
        if visible == self.desired {
            return None;
        }
        if visible {
            let _ = show(VisualState::Enter);
            self.apply_desired(true, false)
        } else {
            let found = show(VisualState::Exit);
            self.apply_desired(false, found)
        }
    }

    /// Counts one more running animation, and notes an exit animation when the
    /// machine is unmounting and the name marks one.
    pub fn on_animation_start(&mut self, name: &str)
        requires
            old(self)@.active_animations < u64::MAX,
        ensures
            final(self)@ == old(self)@.on_animation_start(name@),
            old(self)@.wf() ==> final(self)@.wf(),
    {
        if self.is_unmounting && is_exit_animation(name) {
            self.exit_animation_started = true;
        }
        self.active_animations = self.active_animations + 1;
    }

    /// Counts one running animation less, never below zero. Returns the
    /// `AnimationEnd` event when this call fired it: the count reached zero
    /// while unmounting after an exit animation had started.
    pub fn on_animation_end_or_cancel(&mut self) -> (fired: Option<PresenceEvent>)
        ensures
            final(self)@ == old(self)@.on_animation_end_or_cancel(),
            fired == if old(self)@.end_fires() {
                Some(PresenceEvent::AnimationEnd)
            } else {
                None
            },
            old(self)@.wf() ==> final(self)@.wf(),
    {
        if self.active_animations > 0 {
            self.active_animations = self.active_animations - 1;
        }
        if self.active_animations == 0 && self.is_unmounting && self.exit_animation_started {
            self.state = self.state.apply(PresenceEvent::AnimationEnd);
            Some(PresenceEvent::AnimationEnd)
        } else {
            None
        }
    }
}

/// A pair that the transition table does not list leaves the state unchanged.
pub proof fn lemma_unlisted_pair_keeps_state(state: PresenceState, event: PresenceEvent)
    requires
        state.table(event) is None,
    ensures
        state.after(event) == state,
{
}

/// The table lists exactly five pairs; every state a transition reaches is the
/// one the table names for it.
pub proof fn lemma_table_entries(state: PresenceState, event: PresenceEvent)
    ensures
        state.table(event) is Some <==> {
            ||| (state == PresenceState::Mounted && event == PresenceEvent::Unmount)
            ||| (state == PresenceState::Mounted && event == PresenceEvent::AnimationOut)
            ||| (state == PresenceState::UnmountSuspended && event == PresenceEvent::AnimationEnd)
            ||| (state == PresenceState::UnmountSuspended && event == PresenceEvent::Mount)
            ||| (state == PresenceState::Unmounted && event == PresenceEvent::Mount)
        },
        PresenceState::Mounted.after(PresenceEvent::Unmount) == PresenceState::Unmounted,
        PresenceState::Mounted.after(PresenceEvent::AnimationOut)
            == PresenceState::UnmountSuspended,
        PresenceState::UnmountSuspended.after(PresenceEvent::AnimationEnd)
            == PresenceState::Unmounted,
        PresenceState::UnmountSuspended.after(PresenceEvent::Mount) == PresenceState::Mounted,
        PresenceState::Unmounted.after(PresenceEvent::Mount) == PresenceState::Mounted,
{
}

/// Every operation keeps a well-formed machine well-formed, and a new machine
/// is well-formed.
pub proof fn lemma_operations_keep_wf(
    machine: PresenceModel,
    visible: bool,
    has_animation: bool,
    name: Seq<char>,
)
    requires
        machine.wf(),
    ensures
        PresenceModel::initial(visible).wf(),
        machine.set_desired(visible, has_animation).wf(),
        machine.on_animation_start(name).wf(),
        machine.on_animation_end_or_cancel().wf(),
{
}

/// The state changes only through the transition table: after any operation it
/// is the old state or the old state's table entry for some event.
pub proof fn lemma_state_moves_by_table_only(
    machine: PresenceModel,
    visible: bool,
    has_animation: bool,
    name: Seq<char>,
)
    ensures
        machine.on_animation_start(name).state == machine.state,
        machine.set_desired(visible, has_animation).state == machine.state || exists|
            event: PresenceEvent,
        |
            machine.state.table(event) == Some(
                machine.set_desired(visible, has_animation).state,
            ),
        machine.on_animation_end_or_cancel().state == machine.state
            || machine.state.table(PresenceEvent::AnimationEnd) == Some(
            machine.on_animation_end_or_cancel().state,
        ),
{
    let next = machine.set_desired(visible, has_animation);
    if next.state != machine.state {
        let event = machine.desired_event(visible, has_animation)->Some_0;
        assert(machine.state.table(event) == Some(next.state));
    }
}

/// Asking twice for the same visibility fires at most one event: the second
/// request fires none and changes nothing.
pub proof fn lemma_set_desired_idempotent(
    machine: PresenceModel,
    visible: bool,
    first_answer: bool,
    second_answer: bool,
)
    ensures
        machine.set_desired(visible, first_answer).desired_event(visible, second_answer) is None,
        machine.set_desired(visible, first_answer).set_desired(visible, second_answer)
            == machine.set_desired(visible, first_answer),
{
}

/// Showing an element, hiding it while a named animation is present, and then
/// seeing one exit animation start and end leaves it unmounted and not
/// rendered.
pub proof fn lemma_exit_animation_round_trip(
    machine: PresenceModel,
    show_answer: bool,
    name: Seq<char>,
)
    requires
        machine.wf(),
        machine.active_animations == 0,
        names_exit(name),
    ensures
        ({
            let hidden = machine.set_desired(true, show_answer).set_desired(false, true);
            let ended = hidden.on_animation_start(name).on_animation_end_or_cancel();
            &&& hidden.state == PresenceState::UnmountSuspended
            &&& hidden.is_rendered()
            &&& hidden.on_animation_start(name).end_fires()
            &&& ended.state == PresenceState::Unmounted
            &&& !ended.is_rendered()
        }),
{
}

/// Hiding an element on which no named animation is found unmounts it at once,
/// through `Unmount` and never through `AnimationOut`.
pub proof fn lemma_no_animation_unmounts_at_once(machine: PresenceModel, show_answer: bool)
    requires
        machine.wf(),
    ensures
        ({
            let shown = machine.set_desired(true, show_answer);
            &&& shown.desired_event(false, false) == Some(PresenceEvent::Unmount)
            &&& shown.set_desired(false, false).state == PresenceState::Unmounted
            &&& !shown.set_desired(false, false).is_rendered()
        }),
{
}

/// The end of an animation fires `AnimationEnd` only when no other animation is
/// still running.
pub proof fn lemma_end_waits_for_all_animations(machine: PresenceModel)
    ensures
        machine.end_fires() ==> machine.active_animations <= 1,
        machine.active_animations >= 2 ==> machine.on_animation_end_or_cancel().state
            == machine.state,
{
}

/// With two animations started on an idle machine, the first end fires
/// nothing and keeps the state; the second fires `AnimationEnd` exactly when
/// the machine is unmounting and an exit animation has started.
pub proof fn lemma_two_overlapping_animations(
    machine: PresenceModel,
    first: Seq<char>,
    second: Seq<char>,
)
    requires
        machine.active_animations == 0,
    ensures
        ({
            let running = machine.on_animation_start(first).on_animation_start(second);
            let one_left = running.on_animation_end_or_cancel();
            &&& running.active_animations == 2
            &&& !running.end_fires()
            &&& one_left.state == machine.state
            &&& one_left.active_animations == 1
            &&& one_left.end_fires() == (running.is_unmounting && running.exit_animation_started)
            &&& one_left.on_animation_end_or_cancel().active_animations == 0
        }),
{
}

} // verus!
