//! The left stick as a pointer.
//!
//! While the stick is out of its dead zone the pointer moves on every reading,
//! at a speed that climbs from reading to reading; a reading at rest brings
//! the speed back to where the climb starts.
//!
//! All numbers are single-precision numbers given as bit patterns (see
//! [`crate::float_bits`]). The arithmetic on them is the caller's. For each
//! reading it computes the stick's distance from the centre and asks
//! [`dead_zone_shrink_ratio`] how much of the displacement counts; it
//! multiplies each component of the position by that ratio and by the current
//! speed, and hands the two offsets to [`LeftStick::tick`] together with the
//! current speed raised by one step of the climb.

use crate::config::Config;
use crate::float_bits::{
    ge, greater, greater_of, is_zero, le, less_equal, lesser, lesser_of, nan, negate, negated,
    truncate, truncated, zero,
};
use vstd::prelude::*;

verus! {

/// One reading of the stick, with what the caller computed from it.
pub struct Reading {
    /// Distance of the stick from its centre.
    pub distance: u32,
    /// Offset to the right at the current speed, in pixels.
    pub delta_x: u32,
    /// Offset upwards at the current speed, in pixels.
    pub delta_y: u32,
    /// The current speed plus one step of the climb.
    pub raised_speed: u32,
}

/// A relative move of the pointer, in whole pixels. `dy` grows downwards, as
/// screen coordinates do.
#[derive(Debug, Clone, Copy, PartialEq, Eq)]
pub struct PointerMove {
    pub dx: i32,
    pub dy: i32,
}

/// The left stick between two readings: the speed that the next reading moves
/// at.
#[derive(Debug, PartialEq, Eq)]
pub struct LeftStick {
    pub current_speed: u32,
}

/// The part of the stick's displacement that moves the pointer: nothing at
/// the centre and at any distance up to the dead zone; beyond it the excess,
/// which is one minus the dead zone divided by the distance, and never less
/// than nothing.
pub open spec fn shrink_ratio(dead_zone: u32, distance: u32, excess: u32) -> u32 {
    if zero(distance) || le(distance, dead_zone) {
        0
    } else {
        greater(excess, 0)
    }
}

/// The stick moves nothing on this reading: it is at or inside the dead zone,
/// or both offsets are zero.
pub open spec fn at_rest(dead_zone: u32, reading: Reading) -> bool {
    le(reading.distance, dead_zone) || (zero(reading.delta_x) && zero(reading.delta_y))
}

/// The move that two offsets make: each rounded toward zero to whole pixels,
/// the vertical one negated first, because the stick's axis points up and the
/// screen's down.
pub open spec fn pointer_move(delta_x: u32, delta_y: u32) -> PointerMove {
    PointerMove { dx: truncated(delta_x) as i32, dy: truncated(negated(delta_y)) as i32 }
}

/// What one reading does: the speed afterwards, and the move to make, if any.
///
/// At rest nothing moves and the speed goes back to the initial speed.
/// Otherwise the pointer moves by the offsets and the speed climbs by one
/// step, but not beyond the maximum speed.
pub open spec fn step(
    dead_zone: u32,
    initial_speed: u32,
    max_speed: u32,
    reading: Reading,
) -> (u32, Option<PointerMove>) {
    if at_rest(dead_zone, reading) {
        (initial_speed, None)
    } else {
        (
            lesser(reading.raised_speed, max_speed),
            Some(pointer_move(reading.delta_x, reading.delta_y)),
        )
    }
}

/// Gives the ratio by which the dead zone shrinks the stick's displacement,
/// from the stick's distance and from the excess that the caller computed as
/// one minus the dead zone divided by the distance.
pub fn dead_zone_shrink_ratio(config: &Config, distance: u32, excess: u32) -> (ratio: u32)
    ensures
        ratio == shrink_ratio(config.left_stick_dead_zone, distance, excess),
{
    if is_zero(distance) || less_equal(distance, config.left_stick_dead_zone) {
        0
    } else {
        greater_of(excess, 0)
    }
}

impl LeftStick {
    /// A stick at rest: the next reading moves at the initial speed.
    pub fn new(config: &Config) -> (stick: Self)
        ensures
            stick.current_speed == config.mouse_initial_speed,
    {
        LeftStick { current_speed: config.mouse_initial_speed }
    }

    /// Takes one reading: updates the speed and returns the move to make, if
    /// any.
    pub fn tick(&mut self, config: &Config, reading: Reading) -> (moved: Option<PointerMove>)
        ensures
            (final(self).current_speed, moved) == step(
                config.left_stick_dead_zone,
                config.mouse_initial_speed,
                config.mouse_max_speed,
                reading,
            ),
    {
        if less_equal(reading.distance, config.left_stick_dead_zone) || (is_zero(reading.delta_x)
            && is_zero(reading.delta_y)) {
            self.current_speed = config.mouse_initial_speed;
            None
        } else {
            self.current_speed = lesser_of(reading.raised_speed, config.mouse_max_speed);
            Some(
                PointerMove {
                    dx: truncate(reading.delta_x),
                    dy: truncate(negate(reading.delta_y)),
                },
            )
        }
    }
}

/// At any distance up to the dead zone the shrink ratio is zero, nothing
/// moves, and the speed is the initial speed again, whatever the excess, the
/// offsets and the speed were.
pub proof fn lemma_dead_zone_rests(
    dead_zone: u32,
    initial_speed: u32,
    max_speed: u32,
    excess: u32,
    reading: Reading,
)
    requires
        le(reading.distance, dead_zone),
    ensures
        shrink_ratio(dead_zone, reading.distance, excess) == 0,
        step(dead_zone, initial_speed, max_speed, reading) == (initial_speed, None::<PointerMove>),
{
}

/// Beyond the dead zone the shrink ratio is the larger of the excess and
/// zero. At any distance it is a number and not negative.
pub proof fn lemma_shrink_ratio(dead_zone: u32, distance: u32, excess: u32)
    ensures
        !zero(distance) && !le(distance, dead_zone) ==> shrink_ratio(dead_zone, distance, excess)
            == greater(excess, 0),
        !nan(shrink_ratio(dead_zone, distance, excess)),
        ge(shrink_ratio(dead_zone, distance, excess), 0),
{
}

/// At the centre the shrink ratio is zero whatever the excess is: also an
/// excess that is no number or infinite, as the division by a distance of
/// zero makes it. As long as the dead zone is zero or more, nothing moves
/// there either, whatever offsets come with the reading.
pub proof fn lemma_centre_rests(
    dead_zone: u32,
    initial_speed: u32,
    max_speed: u32,
    excess: u32,
    reading: Reading,
)
    requires
        zero(reading.distance),
    ensures
        shrink_ratio(dead_zone, reading.distance, excess) == 0,
        le(0, dead_zone) ==> step(dead_zone, initial_speed, max_speed, reading) == (
            initial_speed,
            None::<PointerMove>,
        ),
{
}

/// One reading with both offsets zero ends the climb: nothing moves and the
/// speed is the initial speed again, however far it had climbed.
pub proof fn lemma_zero_offsets_rest(
    dead_zone: u32,
    initial_speed: u32,
    max_speed: u32,
    reading: Reading,
)
    requires
        zero(reading.delta_x),
        zero(reading.delta_y),
    ensures
        step(dead_zone, initial_speed, max_speed, reading) == (initial_speed, None::<PointerMove>),
{
}

/// A reading beyond the dead zone with an offset that is not zero moves the
/// pointer by the whole parts of the offsets, the vertical one turned over,
/// and takes the raised speed, or the maximum speed if the raised speed is
/// beyond it.
pub proof fn lemma_offsets_move(
    dead_zone: u32,
    initial_speed: u32,
    max_speed: u32,
    reading: Reading,
)
    requires
        !le(reading.distance, dead_zone),
        !zero(reading.delta_x) || !zero(reading.delta_y),
    ensures
        step(dead_zone, initial_speed, max_speed, reading) == (
            lesser(reading.raised_speed, max_speed),
            Some(
                PointerMove {
                    dx: truncated(reading.delta_x) as i32,
                    dy: truncated(negated(reading.delta_y)) as i32,
                },
            ),
        ),
{
}

/// The speed never climbs beyond the maximum: where the initial speed is at
/// most the maximum speed, so is the speed after every reading.
pub proof fn lemma_speed_within_maximum(
    dead_zone: u32,
    initial_speed: u32,
    max_speed: u32,
    reading: Reading,
)
    requires
        le(initial_speed, max_speed),
    ensures
        le(step(dead_zone, initial_speed, max_speed, reading).0, max_speed),
{
}

} // verus!
