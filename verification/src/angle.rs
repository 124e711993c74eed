//! Angles on the clock face, as whole arc-minutes.
//!
//! Two conventions meet here. A *screen direction* is what `atan2(dy, dx)`
//! gives on a screen whose y axis points down: zero points at three o'clock
//! and the angle grows clockwise. A *clock angle* is measured from straight up,
//! clockwise, and lies in `[0, TURN)`. The dial turns a clock angle into the
//! nearest of its evenly spaced marks.

use vstd::prelude::*;

verus! {

/// Arc-minutes in a full turn.
pub const TURN: i32 = 21_600;

/// Arc-minutes in half a turn.
pub const HALF_TURN: i32 = 10_800;

/// Arc-minutes in a quarter of a turn.
pub const QUARTER_TURN: i32 = 5_400;

/// The clock angle of a screen direction: a quarter turn further, reduced
/// into `[0, TURN)`.
pub open spec fn clock_angle(screen: int) -> int {
    (screen + QUARTER_TURN) % (TURN as int)
}

/// The mark nearest to a clock angle on a dial of `marks` evenly spaced marks,
/// mark zero standing straight up. An angle halfway between two marks goes to
/// the later one. The last half-step before the top gives `marks` itself.
pub open spec fn nearest_mark(angle: int, marks: int) -> int {
    (angle * marks + HALF_TURN) / (TURN as int)
}

/// The hour that a clock angle selects: the nearest of twelve marks, taken
/// modulo twenty-four.
pub open spec fn hour_at(angle: int) -> int {
    nearest_mark(angle, 12) % 24
}

/// The minute that a clock angle selects: the nearest of sixty marks, taken
/// modulo sixty.
pub open spec fn minute_at(angle: int) -> int {
    nearest_mark(angle, 60) % 60
}

/// The screen direction in which mark `index` of `marks` stands.
pub open spec fn mark_direction(index: int, marks: int) -> int {
    index * TURN / marks - QUARTER_TURN
}

/// Turns a screen direction into a clock angle. Any number of whole turns in
/// the argument is dropped.
pub fn normalize(screen: i32) -> (angle: u32)
    ensures
        angle == clock_angle(screen as int),
        angle < TURN,
{
    let within: i32 = screen % TURN;
    let turned: i32 = within + QUARTER_TURN;
    if turned < 0 {
        (turned + TURN) as u32
    } else if turned >= TURN {
        (turned - TURN) as u32
    } else {
        turned as u32
    }
}

/// Rounds a clock angle to the nearest of `marks` marks.
fn round_to_mark(angle: u32, marks: u32) -> (mark: u32)
    requires
        angle < TURN,
        0 < marks <= 60,
    ensures
        mark == nearest_mark(angle as int, marks as int),
        mark <= marks,
{
    assert(angle * marks <= 21_599 * 60) by (nonlinear_arith)
        requires
            angle <= 21_599,
            marks <= 60,
    ;
    assert(angle * marks + 10_800 < 21_600 * marks + 21_600) by (nonlinear_arith)
        requires
            angle <= 21_599,
            0 < marks,
    ;
    let scaled: u32 = angle * marks + HALF_TURN as u32;
    assert(scaled / 21_600 <= marks);
    scaled / (TURN as u32)
}

/// The hour selected by a pointer in the given screen direction.
pub fn hour_from_angle(screen: i32) -> (hour: u8)
    ensures
        hour == hour_at(clock_angle(screen as int)),
        hour <= 12,
{
    let angle: u32 = normalize(screen);
    let mark: u32 = round_to_mark(angle, 12);
    (mark % 24) as u8
}

/// The minute selected by a pointer in the given screen direction.
pub fn minute_from_angle(screen: i32) -> (minute: u8)
    ensures
        minute == minute_at(clock_angle(screen as int)),
        minute <= 59,
{
    let angle: u32 = normalize(screen);
    let mark: u32 = round_to_mark(angle, 60);
    (mark % 60) as u8
}

/// The screen direction of mark `index` on a dial of `marks` marks.
pub fn direction_of_mark(index: u8, marks: u8) -> (screen: i32)
    requires
        marks > 0,
    ensures
        screen == mark_direction(index as int, marks as int),
{
    assert(index * 21_600 <= 255 * 21_600) by (nonlinear_arith)
        requires
            index <= 255,
    ;
    (index as i32 * TURN) / (marks as i32) - QUARTER_TURN
}

/// A clock angle always lies within one turn, and screen directions a whole
/// turn apart share it.
pub proof fn lemma_clock_angle_wraps(screen: int)
    ensures
        0 <= clock_angle(screen) < TURN,
        clock_angle(screen + TURN) == clock_angle(screen),
{
}

/// On the directions that an arc tangent gives, from half a turn back to half
/// a turn forward, the clock angle is the direction plus a quarter turn, plus
/// a whole turn, modulo a whole turn: up to three o'clock and on to nine
/// o'clock the quarter turn is added, and the last quarter before the top
/// wraps round.
pub proof fn lemma_clock_angle_of_arc_tangent(screen: int)
    requires
        -HALF_TURN <= screen <= HALF_TURN,
    ensures
        clock_angle(screen) == (screen + QUARTER_TURN + TURN) % (TURN as int),
        screen >= -QUARTER_TURN ==> clock_angle(screen) == screen + QUARTER_TURN,
        screen < -QUARTER_TURN ==> clock_angle(screen) == screen + QUARTER_TURN + TURN,
{
}

/// The nearest mark is the one within half a step of the angle, and no other
/// mark is: `mark` is the nearest mark exactly when the angle lies from half a
/// step before it up to, but not reaching, half a step after it.
pub proof fn lemma_nearest_mark_brackets(angle: int, marks: int, mark: int)
    ensures
        mark == nearest_mark(angle, marks) <==> 2 * mark * TURN - TURN <= 2 * (angle * marks) < 2
            * mark * TURN + TURN,
{
}

/// Over a whole turn the dial yields the hours zero to twelve and no others.
/// The half-step on either side of the top is split: just after the top the
/// hour is zero, just before it the hour is twelve.
pub proof fn lemma_hour_at_range(angle: int)
    requires
        0 <= angle < TURN,
    ensures
        0 <= hour_at(angle) <= 12,
        hour_at(angle) == 0 <==> angle < 900,
        hour_at(angle) == 12 <==> angle >= 20_700,
{
}

/// Over a whole turn the dial yields the minutes zero to fifty-nine, and the
/// half-steps on both sides of the top give zero.
pub proof fn lemma_minute_at_range(angle: int)
    requires
        0 <= angle < TURN,
    ensures
        0 <= minute_at(angle) <= 59,
        minute_at(angle) == 0 <==> (angle < 180 || angle >= 21_420),
{
}

/// A pointer laid exactly on the place where the hour hand points selects the
/// hour shown on a twelve-hour face: the hand's own hour before noon, twelve
/// less from noon on.
pub proof fn lemma_hour_mark_round_trip(hour: int)
    requires
        0 <= hour <= 23,
    ensures
        hour_at(clock_angle(mark_direction(hour, 12))) == hour % 12,
{
}

/// A pointer laid exactly on the place where the minute hand points selects
/// that minute.
pub proof fn lemma_minute_mark_round_trip(minute: int)
    requires
        0 <= minute <= 59,
    ensures
        minute_at(clock_angle(mark_direction(minute, 60))) == minute,
{
}

} // verus!
