//! The picker as a state machine over mathematical values.
//!
//! `EditorState` is what a picker stands for in contracts. Each thing that can
//! happen to a picker is a function from one state to the next, and the laws
//! that the picker obeys are proved here, over those functions.

use vstd::prelude::*;
use crate::angle::{clock_angle, hour_at, minute_at};
use crate::dial::{in_hour_zone, radius_of, Polar, DIAL_SIDE};

verus! {

/// The hand that a drag in progress has hold of.
#[derive(Clone, Copy, Debug, PartialEq, Eq, Structural)]
pub enum DragTarget {
    Neither,
    Hour,
    Minute,
}

/// What the pointer did on the face during one frame.
#[derive(Clone, Copy, Debug)]
pub struct DialInput {
    /// Whether the face is being dragged.
    pub dragged: bool,
    /// Where the pointer is, about the center of the face, if it is known.
    pub pointer: Option<Polar>,
    /// Whether a drag ended in this frame.
    pub released: bool,
}

/// The state of a picker: the time it holds, whether its overlay is open, and
/// the hand that a drag has hold of.
pub struct EditorState {
    pub hour: int,
    pub minute: int,
    pub open: bool,
    pub target: DragTarget,
}

/// The hand that a drag starting at `distance` from the center takes hold of:
/// the hour hand in the inner zone of the standard face, the minute hand
/// outside it.
pub open spec fn target_at(distance: int) -> DragTarget {
    if in_hour_zone(distance, radius_of(DIAL_SIDE as int)) {
        DragTarget::Hour
    } else {
        DragTarget::Minute
    }
}

/// `value` capped at `limit`.
pub open spec fn capped(value: int, limit: int) -> int {
    if value <= limit {
        value
    } else {
        limit
    }
}

/// The state reached by applying `turn` to `state` `times` times over.
pub open spec fn repeated(
    turn: spec_fn(EditorState) -> EditorState,
    state: EditorState,
    times: nat,
) -> EditorState
    decreases times,
{
    if times == 0 {
        state
    } else {
        turn(repeated(turn, state, (times - 1) as nat))
    }
}

impl EditorState {
    /// Whether the time held is a time of day.
    pub open spec fn wf(self) -> bool {
        0 <= self.hour <= 23 && 0 <= self.minute <= 59
    }

    /// A fresh picker for the given time, each part capped at its largest
    /// value: closed, with no drag in progress.
    pub open spec fn created(hour: int, minute: int) -> EditorState {
        EditorState {
            hour: capped(hour, 23),
            minute: capped(minute, 59),
            open: false,
            target: DragTarget::Neither,
        }
    }

    /// After the summary control was clicked: the overlay is open.
    pub open spec fn opened(self) -> EditorState {
        EditorState { open: true, ..self }
    }

    /// After the confirm control was clicked: the overlay is closed.
    pub open spec fn confirmed(self) -> EditorState {
        EditorState { open: false, ..self }
    }

    /// After one frame of dragging with the pointer at `pointer`. A drag that
    /// has no hand yet takes hold of one and changes nothing else; one that
    /// has a hand sets that hand's value from the pointer's direction.
    pub open spec fn dragged(self, pointer: Polar) -> EditorState {
        match self.target {
            DragTarget::Neither => EditorState { target: target_at(pointer.distance as int), ..self },
            DragTarget::Hour => EditorState {
                hour: hour_at(clock_angle(pointer.angle as int)),
                ..self
            },
            DragTarget::Minute => EditorState {
                minute: minute_at(clock_angle(pointer.angle as int)),
                ..self
            },
        }
    }

    /// After the drag ended: no hand is held.
    pub open spec fn released(self) -> EditorState {
        EditorState { target: DragTarget::Neither, ..self }
    }

    /// After one frame's input on the face: the drag is applied where the
    /// face is dragged and the pointer is known, and then the release.
    pub open spec fn after_input(self, input: DialInput) -> EditorState {
        let moved = if input.dragged && input.pointer is Some {
            self.dragged(input.pointer->Some_0)
        } else {
            self
        };
        if input.released {
            moved.released()
        } else {
            moved
        }
    }

    /// After the hour's up stepper: one hour later, midnight following
    /// twenty-three.
    pub open spec fn hour_up(self) -> EditorState {
        EditorState { hour: (self.hour + 1) % 24, ..self }
    }

    /// After the hour's down stepper: one hour earlier, twenty-three
    /// preceding midnight.
    pub open spec fn hour_down(self) -> EditorState {
        EditorState { hour: if self.hour == 0 { 23 } else { self.hour - 1 }, ..self }
    }

    /// After the minute's up stepper: one minute later, zero following
    /// fifty-nine.
    pub open spec fn minute_up(self) -> EditorState {
        EditorState { minute: (self.minute + 1) % 60, ..self }
    }

    /// After the minute's down stepper: one minute earlier, fifty-nine
    /// preceding zero.
    pub open spec fn minute_down(self) -> EditorState {
        EditorState { minute: if self.minute == 0 { 59 } else { self.minute - 1 }, ..self }
    }

    /// After the hour field was set: the hour given, capped at twenty-three.
    pub open spec fn with_hour(self, hour: int) -> EditorState {
        EditorState { hour: capped(hour, 23), ..self }
    }

    /// After the minute field was set: the minute given, capped at
    /// fifty-nine.
    pub open spec fn with_minute(self, minute: int) -> EditorState {
        EditorState { minute: capped(minute, 59), ..self }
    }
}

/// Whatever happens to a picker that holds a time of day, it holds a time of
/// day afterwards; and a picker made from any two numbers holds one from the
/// start.
pub proof fn lemma_time_stays_in_range(
    state: EditorState,
    hour: nat,
    minute: nat,
    input: DialInput,
)
    requires
        state.wf(),
    ensures
        EditorState::created(hour as int, minute as int).wf(),
        state.opened().wf(),
        state.confirmed().wf(),
        state.after_input(input).wf(),
        state.hour_up().wf(),
        state.hour_down().wf(),
        state.minute_up().wf(),
        state.minute_down().wf(),
        state.with_hour(hour as int).wf(),
        state.with_minute(minute as int).wf(),
{
    if input.pointer is Some {
        lemma_drag_stays_in_range(state, input.pointer->Some_0);
    }
}

/// A frame of dragging leaves a time of day a time of day.
pub proof fn lemma_drag_stays_in_range(state: EditorState, pointer: Polar)
    requires
        state.wf(),
    ensures
        state.dragged(pointer).wf(),
{
}

/// Opening and closing the overlay leave the time, and the hand held, as they
/// were.
pub proof fn lemma_overlay_keeps_time(state: EditorState)
    ensures
        state.opened().hour == state.hour,
        state.opened().minute == state.minute,
        state.opened().target == state.target,
        state.confirmed().hour == state.hour,
        state.confirmed().minute == state.minute,
        state.confirmed().target == state.target,
        state.opened().open,
        !state.confirmed().open,
{
}

/// Stepping the hour up `times` times adds `times` hours on the twenty-four
/// hour clock and changes nothing else.
pub proof fn lemma_hour_up_repeated(state: EditorState, times: nat)
    requires
        state.wf(),
    ensures
        repeated(|s: EditorState| s.hour_up(), state, times) == (EditorState {
            hour: (state.hour + times) % 24,
            ..state
        }),
    decreases times,
{
    if times > 0 {
        lemma_hour_up_repeated(state, (times - 1) as nat);
    }
}

/// Stepping the minute up `times` times adds `times` minutes within the hour
/// and changes nothing else.
pub proof fn lemma_minute_up_repeated(state: EditorState, times: nat)
    requires
        state.wf(),
    ensures
        repeated(|s: EditorState| s.minute_up(), state, times) == (EditorState {
            minute: (state.minute + times) % 60,
            ..state
        }),
    decreases times,
{
    if times > 0 {
        lemma_minute_up_repeated(state, (times - 1) as nat);
    }
}

/// Twenty-four steps of the hour's up stepper lead back to the state they
/// started from.
pub proof fn lemma_hour_cycle(state: EditorState)
    requires
        state.wf(),
    ensures
        repeated(|s: EditorState| s.hour_up(), state, 24) == state,
{
    lemma_hour_up_repeated(state, 24);
}

/// Sixty steps of the minute's up stepper lead back to the state they started
/// from.
pub proof fn lemma_minute_cycle(state: EditorState)
    requires
        state.wf(),
    ensures
        repeated(|s: EditorState| s.minute_up(), state, 60) == state,
{
    lemma_minute_up_repeated(state, 60);
}

/// Each down stepper undoes its up stepper, and each up stepper its down
/// stepper.
pub proof fn lemma_steppers_are_inverse(state: EditorState)
    requires
        state.wf(),
    ensures
        state.hour_up().hour_down() == state,
        state.hour_down().hour_up() == state,
        state.minute_up().minute_down() == state,
        state.minute_down().minute_up() == state,
{
}

/// The down steppers are the up steppers' arithmetic turned round: one hour
/// down is twenty-three hours up, one minute down fifty-nine minutes up.
pub proof fn lemma_down_is_up_the_other_way(state: EditorState)
    requires
        state.wf(),
    ensures
        state.hour_down().hour == (state.hour + 23) % 24,
        state.minute_down().minute == (state.minute + 59) % 60,
{
}

/// A whole drag, from a picker that holds no hand: the first frame takes the
/// hand under the pointer, the next sets its value from the pointer's
/// direction, and the release lets go. Afterwards no hand is held, the hand
/// that was dragged shows the value computed from the last pointer, the other
/// part of the time is untouched, and so is the overlay.
pub proof fn lemma_drag_round_trip(state: EditorState, start: Polar, pointer: Polar)
    requires
        state.wf(),
        state.target == DragTarget::Neither,
    ensures
        ({
            let done = state.dragged(start).dragged(pointer).released();
            &&& done.wf()
            &&& done.target == DragTarget::Neither
            &&& done.open == state.open
            &&& target_at(start.distance as int) == DragTarget::Hour ==> done.hour == hour_at(
                clock_angle(pointer.angle as int),
            ) && done.minute == state.minute
            &&& target_at(start.distance as int) == DragTarget::Minute ==> done.minute
                == minute_at(clock_angle(pointer.angle as int)) && done.hour == state.hour
            &&& target_at(start.distance as int) != DragTarget::Neither
        }),
{
}

/// Releasing lets go of the hand whatever was held, and keeps the time.
pub proof fn lemma_release_clears_target(state: EditorState)
    ensures
        state.released().target == DragTarget::Neither,
        state.released().hour == state.hour,
        state.released().minute == state.minute,
        state.released().open == state.open,
{
}

} // verus!
