//! The parts of the plane geometry that need no arithmetic: which way a
//! point lies from another when they share a coordinate, and which way
//! round an arc runs.
//!
//! Everything here works by comparing coordinates and angles, never by
//! computing with them, so it holds for any scalar that can be compared.
//! What a contract says of the outcome is said in terms of the scalar's own
//! `==` and `<`, and holds for every scalar type whose comparisons are
//! functions of the values compared.

use std::cmp::Ordering;
use vstd::prelude::*;
use vstd::std_specs::cmp::{PartialEqSpec, PartialOrdSpec};

verus! {

/// A point of the drawing plane, in millimetres.
#[derive(Debug, PartialEq)]
pub struct Point<S> {
    pub x_coord: S,
    pub y_coord: S,
}

impl<S> Point<S> {
    pub fn new(x: S, y: S) -> (point: Point<S>)
        ensures
            point.x_coord == x,
            point.y_coord == y,
    {
        Point { x_coord: x, y_coord: y }
    }
}

/// Whether `a` is less than `b` by the scalar's own order.
pub open spec fn less<S: PartialOrd>(a: S, b: S) -> bool {
    a.partial_cmp_spec(&b) == Some(Ordering::Less)
}

/// Whether `a` is greater than `b` by the scalar's own order.
pub open spec fn greater<S: PartialOrd>(a: S, b: S) -> bool {
    a.partial_cmp_spec(&b) == Some(Ordering::Greater)
}

/// Whether `a` is less than or equal to `b` by the scalar's own order.
pub open spec fn at_most<S: PartialOrd>(a: S, b: S) -> bool {
    a.partial_cmp_spec(&b) == Some(Ordering::Less) || a.partial_cmp_spec(&b) == Some(
        Ordering::Equal,
    )
}

/// Whether `a` and `b` are the same place: equal in both coordinates, by
/// the scalar's own `==`.
pub open spec fn same_place<S: PartialEq>(a: Point<S>, b: Point<S>) -> bool {
    a.x_coord.eq_spec(&b.x_coord) && a.y_coord.eq_spec(&b.y_coord)
}

/// Whether the scalar's comparisons are functions of the values compared.
pub open spec fn comparable<S: PartialOrd>() -> bool {
    S::obeys_eq_spec() && S::obeys_partial_cmp_spec()
}

/// Tells whether two points are the same place.
pub fn is_same_place<S: PartialEq>(a: &Point<S>, b: &Point<S>) -> (same: bool)
    ensures
        S::obeys_eq_spec() ==> same == same_place(*a, *b),
{
    a.x_coord == b.x_coord && a.y_coord == b.y_coord
}

/// The heading from `from` to `to` in degrees, where it is known without
/// trigonometry: north is 0, east is 90, south is 180, west is -90, and a
/// point seen from itself lies north. `None` where the points differ in
/// both coordinates.
pub open spec fn exact_angle<S: PartialOrd>(from: Point<S>, to: Point<S>) -> Option<i16> {
    if from.x_coord.eq_spec(&to.x_coord) && from.y_coord.eq_spec(&to.y_coord) {
        Some(0i16)
    } else if from.x_coord.eq_spec(&to.x_coord) {
        if less(from.y_coord, to.y_coord) {
            Some(0i16)
        } else {
            Some(180i16)
        }
    } else if from.y_coord.eq_spec(&to.y_coord) {
        if less(from.x_coord, to.x_coord) {
            Some(90i16)
        } else {
            Some(-90i16)
        }
    } else {
        None
    }
}

/// Gives the heading from `from` to `to` in degrees where the two share a
/// coordinate, and `None` where the heading has to be computed.
pub fn calculate_exact_angle<S: PartialOrd>(from: &Point<S>, to: &Point<S>) -> (angle: Option<i16>)
    ensures
        comparable::<S>() ==> angle == exact_angle(*from, *to),
        angle matches Some(degrees) ==> degrees == 0 || degrees == 90 || degrees == 180 || degrees
            == -90,
{
    if from.x_coord == to.x_coord && from.y_coord == to.y_coord {
        Some(0)
    } else if from.x_coord == to.x_coord {
        if from.y_coord < to.y_coord {
            Some(0)
        } else {
            Some(180)
        }
    } else if from.y_coord == to.y_coord {
        if from.x_coord < to.x_coord {
            Some(90)
        } else {
            Some(-90)
        }
    } else {
        // off the axes the heading takes trigonometry
        None
    }
}

/// Whether an arc from a first point through a second to a third runs
/// clockwise, given how far round the second and the third lie from the
/// first (`to_second`, `to_third`: differences of headings as seen from the
/// centre), and `zero`, the difference of a heading from itself.
///
/// With the second point ahead of the first, the arc runs clockwise if the
/// third lies further ahead still, or behind; with the second point behind,
/// if the third lies less far behind. Otherwise it runs counter-clockwise.
pub open spec fn runs_clockwise<S: PartialOrd>(to_second: S, to_third: S, zero: S) -> bool {
    ||| greater(to_second, zero) && (greater(to_third, to_second) || less(to_third, zero))
    ||| less(to_second, zero) && greater(to_third, to_second)
}

/// Tells which way round the arc runs.
pub fn is_clockwise<S: PartialOrd>(to_second: &S, to_third: &S, zero: &S) -> (clockwise: bool)
    ensures
        S::obeys_partial_cmp_spec() ==> clockwise == runs_clockwise(*to_second, *to_third, *zero),
{
    if *to_second > *zero {
        *to_third > *to_second || *to_third < *zero
    } else if *to_second < *zero {
        *to_third > *to_second
    } else {
        false
    }
}

/// What to add to a difference of headings so that its sign agrees with the
/// way the arc runs.
#[derive(Debug, Clone, Copy, PartialEq, Eq, Structural)]
pub enum Unwinding {
    /// The difference already runs the right way.
    Keep,
    /// Add a full turn: the arc runs clockwise, the difference is negative.
    AddTurn,
    /// Take a full turn off: the arc runs counter-clockwise, the difference
    /// is positive.
    SubtractTurn,
}

/// The correction that brings `swept` onto the winding of the arc.
pub open spec fn unwinding<S: PartialOrd>(clockwise: bool, swept: S, zero: S) -> Unwinding {
    if clockwise && less(swept, zero) {
        Unwinding::AddTurn
    } else if !clockwise && greater(swept, zero) {
        Unwinding::SubtractTurn
    } else {
        Unwinding::Keep
    }
}

/// Chooses the correction that brings `swept` onto the winding of the arc.
pub fn choose_unwinding<S: PartialOrd>(clockwise: bool, swept: &S, zero: &S) -> (correction:
    Unwinding)
    ensures
        S::obeys_partial_cmp_spec() ==> correction == unwinding(clockwise, *swept, *zero),
{
    if clockwise && *swept < *zero {
        Unwinding::AddTurn
    } else if !clockwise && *swept > *zero {
        Unwinding::SubtractTurn
    } else {
        Unwinding::Keep
    }
}

/// The correction that brings a rotation onto the shorter way round: a
/// rotation of more than half a turn one way is one of less than half a
/// turn the other way, and half a turn is made the positive way.
/// `half_turn` and `minus_half_turn` are half a turn either way in the unit
/// of the rotation.
pub open spec fn shortcut<S: PartialOrd>(rotation: S, half_turn: S, minus_half_turn: S) -> Unwinding {
    if greater(rotation, half_turn) {
        Unwinding::SubtractTurn
    } else if at_most(rotation, minus_half_turn) {
        Unwinding::AddTurn
    } else {
        Unwinding::Keep
    }
}

/// Chooses the correction that brings `rotation` onto the shorter way round.
pub fn choose_shortcut<S: PartialOrd>(rotation: &S, half_turn: &S, minus_half_turn: &S) -> (correction:
    Unwinding)
    ensures
        S::obeys_partial_cmp_spec() ==> correction == shortcut(
            *rotation,
            *half_turn,
            *minus_half_turn,
        ),
{
    if *rotation > *half_turn {
        Unwinding::SubtractTurn
    } else if *rotation <= *minus_half_turn {
        Unwinding::AddTurn
    } else {
        Unwinding::Keep
    }
}

} // verus!
