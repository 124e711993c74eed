//! The picker itself: the state that a host keeps between frames, and the
//! things that can happen to it.
//!
//! Every method says what it does as a step of `EditorState`. The host draws,
//! asks its toolkit what the pointer did, and reports that here.

use vstd::prelude::*;
use crate::angle::{hour_from_angle, minute_from_angle};
use crate::dial::{dial_radius, hour_zone_holds, scene, shows, DialScene, Polar, DIAL_SIDE};
use crate::state::{DialInput, DragTarget, EditorState};
use crate::summary::{clock_text, write_clock};

verus! {

/// A time picker with a clock face: a time of day, an overlay that is open or
/// closed, and the hand that a drag has hold of.
#[derive(Debug)]
pub struct TimePicker {
    hour: u8,
    minute: u8,
    open: bool,
    dragging: DragTarget,
}

impl View for TimePicker {
    type V = EditorState;

    closed spec fn view(&self) -> EditorState {
        EditorState {
            hour: self.hour as int,
            minute: self.minute as int,
            open: self.open,
            target: self.dragging,
        }
    }
}

impl Clone for TimePicker {
    fn clone(&self) -> (copy: Self)
        ensures
            copy@ == self@,
    {
        proof {
            use_type_invariant(self);
        }
        TimePicker {
            hour: self.hour,
            minute: self.minute,
            open: self.open,
            dragging: self.dragging,
        }
    }
}

impl Default for TimePicker {
    /// A picker set to noon.
    fn default() -> (picker: Self)
        ensures
            picker@ == EditorState::created(12, 0),
            picker@.wf(),
    {
        TimePicker::new(12, 0)
    }
}

impl TimePicker {
    #[verifier::type_invariant]
    spec fn holds_time_of_day(self) -> bool {
        self.hour <= 23 && self.minute <= 59
    }

    /// A closed picker for the given time. An hour above twenty-three becomes
    /// twenty-three, a minute above fifty-nine becomes fifty-nine.
    pub fn new(hour: u8, minute: u8) -> (picker: Self)
        ensures
            picker@ == EditorState::created(hour as int, minute as int),
            picker@.wf(),
    {
        TimePicker {
            hour: if hour <= 23 {
                hour
            } else {
                23
            },
            minute: if minute <= 59 {
                minute
            } else {
                59
            },
            open: false,
            dragging: DragTarget::Neither,
        }
    }

    /// The time held, as hour and minute. It is always a time of day.
    pub fn time(&self) -> (now: (u8, u8))
        ensures
            now.0 == self@.hour,
            now.1 == self@.minute,
            now.0 <= 23,
            now.1 <= 59,
            self@.wf(),
    {
        proof {
            use_type_invariant(self);
        }
        (self.hour, self.minute)
    }

    /// Whether the overlay is open.
    pub fn is_open(&self) -> (open: bool)
        ensures
            open == self@.open,
    {
        self.open
    }

    /// The hand that a drag has hold of.
    pub fn drag_target(&self) -> (target: DragTarget)
        ensures
            target == self@.target,
    {
        self.dragging
    }

    /// The text of the summary control: the time as `HH:MM`.
    pub fn summary_text(&self) -> (text: String)
        ensures
            text@ == clock_text(self@.hour, self@.minute),
    {
        proof {
            use_type_invariant(self);
        }
        write_clock(self.hour, self.minute)
    }

    /// The summary control was clicked: the overlay opens.
    pub fn click_summary(&mut self)
        ensures
            final(self)@ == old(self)@.opened(),
            final(self)@.wf(),
    {
        proof {
            use_type_invariant(&*self);
        }
        self.open = true;
    }

    /// The confirm control was clicked: the overlay closes. The time stays as
    /// edited.
    pub fn click_confirm(&mut self)
        ensures
            final(self)@ == old(self)@.confirmed(),
            final(self)@.wf(),
    {
        proof {
            use_type_invariant(&*self);
        }
        self.open = false;
    }

    /// One frame of dragging on the face, with the pointer at `pointer`. The
    /// first frame of a drag takes hold of the hand under the pointer; each
    /// later frame sets that hand from the pointer's direction.
    pub fn drag(&mut self, pointer: Polar)
        ensures
            final(self)@ == old(self)@.dragged(pointer),
            final(self)@.wf(),
    {
        proof {
            use_type_invariant(&*self);
        }
        match self.dragging {
            DragTarget::Hour => {
                self.hour = hour_from_angle(pointer.angle);
            },
            DragTarget::Minute => {
                self.minute = minute_from_angle(pointer.angle);
            },
            DragTarget::Neither => {
                let radius: u32 = dial_radius(DIAL_SIDE);
                self.dragging = if hour_zone_holds(pointer.distance, radius) {
                    DragTarget::Hour
                } else {
                    DragTarget::Minute
                };
            },
        }
    }

    /// The drag ended: no hand is held any more. The time stays where the
    /// drag left it.
    pub fn release(&mut self)
        ensures
            final(self)@ == old(self)@.released(),
            final(self)@.wf(),
    {
        proof {
            use_type_invariant(&*self);
        }
        self.dragging = DragTarget::Neither;
    }

    /// One frame of the clock face. What comes back is the face to paint, and
    /// it shows the time as it was before this frame's input; the input is
    /// applied afterwards, so a drag shows on the hands one frame later.
    pub fn dial_frame(&mut self, input: DialInput) -> (painted: DialScene)
        ensures
            shows(painted, DIAL_SIDE as int, old(self)@.hour, old(self)@.minute),
            final(self)@ == old(self)@.after_input(input),
            final(self)@.wf(),
    {
        proof {
            use_type_invariant(&*self);
        }
        let painted = scene(DIAL_SIDE, self.hour, self.minute);
        if input.dragged {
            if let Some(pointer) = input.pointer {
                self.drag(pointer);
            }
        }
        if input.released {
            self.release();
        }
        painted
    }

    /// The hour's up stepper: one hour later, midnight after twenty-three.
    pub fn increment_hour(&mut self)
        ensures
            final(self)@ == old(self)@.hour_up(),
            final(self)@.wf(),
    {
        proof {
            use_type_invariant(&*self);
        }
        self.hour = (self.hour + 1) % 24;
    }

    /// The hour's down stepper: one hour earlier, twenty-three before
    /// midnight.
    pub fn decrement_hour(&mut self)
        ensures
            final(self)@ == old(self)@.hour_down(),
            final(self)@.wf(),
    {
        proof {
            use_type_invariant(&*self);
        }
        self.hour = if self.hour == 0 {
            23
        } else {
            self.hour - 1
        };
    }

    /// The minute's up stepper: one minute later, zero after fifty-nine.
    pub fn increment_minute(&mut self)
        ensures
            final(self)@ == old(self)@.minute_up(),
            final(self)@.wf(),
    {
        proof {
            use_type_invariant(&*self);
        }
        self.minute = (self.minute + 1) % 60;
    }

    /// The minute's down stepper: one minute earlier, fifty-nine before zero.
    pub fn decrement_minute(&mut self)
        ensures
            final(self)@ == old(self)@.minute_down(),
            final(self)@.wf(),
    {
        proof {
            use_type_invariant(&*self);
        }
        self.minute = if self.minute == 0 {
            59
        } else {
            self.minute - 1
        };
    }

    /// The hour field was edited: the hour becomes the value given, or
    /// twenty-three if that is above it.
    pub fn set_hour(&mut self, hour: u8)
        ensures
            final(self)@ == old(self)@.with_hour(hour as int),
            final(self)@.wf(),
    {
        proof {
            use_type_invariant(&*self);
        }
        self.hour = if hour <= 23 {
            hour
        } else {
            23
        };
    }

    /// The minute field was edited: the minute becomes the value given, or
    /// fifty-nine if that is above it.
    pub fn set_minute(&mut self, minute: u8)
        ensures
            final(self)@ == old(self)@.with_minute(minute as int),
            final(self)@.wf(),
    {
        proof {
            use_type_invariant(&*self);
        }
        self.minute = if minute <= 59 {
            minute
        } else {
            59
        };
    }
}

} // verus!
