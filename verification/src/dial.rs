//! The geometry of the clock face.
//!
//! Lengths are whole thousandths of a point, angles whole arc-minutes. Places
//! on the face are given in polar form about its center, so that whoever
//! paints them needs only a sine and a cosine.

use vstd::prelude::*;
use crate::angle::{direction_of_mark, mark_direction};

verus! {

/// The side of the square that the face is laid out in: 220 points.
pub const DIAL_SIDE: u32 = 220_000;

/// The radius of the face, as a percentage of the side of its square.
pub const RADIUS_SHARE: u32 = 45;

/// How far out the hour numbers stand, as a percentage of the radius.
pub const LABEL_REACH: u32 = 82;

/// The length of the hour hand, as a percentage of the radius.
pub const HOUR_HAND_REACH: u32 = 55;

/// The length of the minute hand, as a percentage of the radius.
pub const MINUTE_HAND_REACH: u32 = 75;

/// The part of the radius, in percent, inside which a drag takes hold of the
/// hour hand.
pub const HOUR_ZONE_REACH: u32 = 60;

/// A place on the face: how far from the center, and in which screen
/// direction.
#[derive(Clone, Copy, Debug, PartialEq, Eq, Structural)]
pub struct Polar {
    pub distance: u32,
    pub angle: i32,
}

/// One of the hour numbers around the face.
#[derive(Clone, Copy, Debug, PartialEq, Eq, Structural)]
pub struct Label {
    pub number: u8,
    pub at: Polar,
}

/// What is to be painted for the face: the disc, the twelve numbers, and the
/// two hands, in that order.
#[derive(Debug)]
pub struct DialScene {
    pub radius: u32,
    pub labels: Vec<Label>,
    pub hour_hand: Polar,
    pub minute_hand: Polar,
}

/// The given percentage of a length, rounded down.
pub open spec fn percent_of(length: int, percent: int) -> int {
    length * percent / 100
}

/// The radius of the face laid out in a square of the given side.
pub open spec fn radius_of(side: int) -> int {
    percent_of(side, RADIUS_SHARE as int)
}

/// Whether a pointer at `distance` from the center is in the inner zone of a
/// face of the given radius, where a drag takes hold of the hour hand: closer
/// than sixty percent of the radius, the boundary itself left out.
pub open spec fn in_hour_zone(distance: int, radius: int) -> bool {
    100 * distance < HOUR_ZONE_REACH * radius
}

/// Whether `hand` has the given length and points at mark `index` of `marks`.
pub open spec fn points_at(hand: Polar, length: int, index: int, marks: int) -> bool {
    hand.distance == length && hand.angle == mark_direction(index, marks)
}

/// Whether `labels` are the numbers one to twelve in order, each at its hour
/// mark and at the labels' distance from the center.
pub open spec fn is_label_ring(labels: Seq<Label>, radius: int) -> bool {
    &&& labels.len() == 12
    &&& forall|i: int|
        0 <= i < 12 ==> (#[trigger] labels[i]).number == i + 1 && points_at(
            labels[i].at,
            percent_of(radius, LABEL_REACH as int),
            i + 1,
            12,
        )
}

/// Whether `scene` is the face of the given side showing the given time.
pub open spec fn shows(scene: DialScene, side: int, hour: int, minute: int) -> bool {
    &&& scene.radius == radius_of(side)
    &&& is_label_ring(scene.labels@, radius_of(side))
    &&& points_at(
        scene.hour_hand,
        percent_of(radius_of(side), HOUR_HAND_REACH as int),
        hour,
        12,
    )
    &&& points_at(
        scene.minute_hand,
        percent_of(radius_of(side), MINUTE_HAND_REACH as int),
        minute,
        60,
    )
}

/// Takes a percentage of a length.
fn scale(length: u32, percent: u32) -> (part: u32)
    requires
        percent <= 100,
    ensures
        part == percent_of(length as int, percent as int),
        part <= length,
{
    assert(length * percent <= length * 100) by (nonlinear_arith)
        requires
            percent <= 100,
    ;
    let product: u64 = length as u64 * percent as u64;
    (product / 100) as u32
}

/// The radius of the face laid out in a square of the given side.
pub fn dial_radius(side: u32) -> (radius: u32)
    ensures
        radius == radius_of(side as int),
{
    scale(side, RADIUS_SHARE)
}

/// Tells whether a pointer at `distance` from the center of a face of the
/// given radius is in the hour hand's zone.
pub fn hour_zone_holds(distance: u32, radius: u32) -> (inside: bool)
    ensures
        inside == in_hour_zone(distance as int, radius as int),
{
    let reach: u64 = HOUR_ZONE_REACH as u64;
    assert(reach * radius <= 60 * radius) by (nonlinear_arith)
        requires
            reach <= 60,
    ;
    100 * (distance as u64) < reach * (radius as u64)
}

/// A hand of the given length that points at mark `index` on a dial of `marks`
/// marks.
pub fn hand(length: u32, index: u8, marks: u8) -> (placed: Polar)
    requires
        marks > 0,
    ensures
        points_at(placed, length as int, index as int, marks as int),
{
    Polar { distance: length, angle: direction_of_mark(index, marks) }
}

/// The twelve hour numbers around a face of the given radius.
pub fn hour_labels(radius: u32) -> (labels: Vec<Label>)
    ensures
        is_label_ring(labels@, radius as int),
{
    let reach: u32 = scale(radius, LABEL_REACH);
    let mut labels: Vec<Label> = Vec::new();
    let mut number: u8 = 1;
    while number <= 12
        invariant
            1 <= number <= 13,
            reach == percent_of(radius as int, LABEL_REACH as int),
            labels@.len() == number - 1,
            forall|i: int|
                0 <= i < number - 1 ==> (#[trigger] labels@[i]).number == i + 1 && points_at(
                    labels@[i].at,
                    reach as int,
                    i + 1,
                    12,
                ),
        decreases 13 - number,
    {
        labels.push(Label { number, at: hand(reach, number, 12) });
        number = number + 1;
    }
    labels
}

/// The face of the given side, with its hands showing the given time.
pub fn scene(side: u32, hour: u8, minute: u8) -> (painted: DialScene)
    ensures
        shows(painted, side as int, hour as int, minute as int),
{
    let radius: u32 = dial_radius(side);
    DialScene {
        radius,
        labels: hour_labels(radius),
        hour_hand: hand(scale(radius, HOUR_HAND_REACH), hour, 12),
        minute_hand: hand(scale(radius, MINUTE_HAND_REACH), minute, 60),
    }
}

/// On the face of the standard side the boundary of the hour hand's zone lies
/// at 59.4 points: closer than that a drag takes the hour hand, at that
/// distance and beyond it the minute hand.
pub proof fn lemma_standard_hour_zone(distance: int)
    ensures
        radius_of(DIAL_SIDE as int) == 99_000,
        in_hour_zone(distance, radius_of(DIAL_SIDE as int)) <==> distance < 59_400,
{
}

} // verus!
