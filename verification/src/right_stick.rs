//! The right stick as four buttons.
//!
//! Pushed out far enough toward one of the four directions the stick presses
//! that direction; brought back to the centre it releases it. Between the two
//! distances nothing changes, so a stick held near either of them does not
//! flicker.
//!
//! Distances and angles are single-precision numbers given as bit patterns
//! (see [`crate::float_bits`]). An angle is what the two-argument arctangent
//! makes of the stick's position: from -pi to pi, zero to the right and
//! positive upwards.

use crate::config::Config;
use crate::float_bits::{ge, greater_equal, gt, le, less_equal, less_than, lt, nan};
use vstd::prelude::*;

verus! {

/// The single-precision number nearest to pi/8.
pub const PI_1_8: u32 = 0x3ec9_0fdb;

/// Three times [`PI_1_8`], rounded to single precision.
pub const PI_3_8: u32 = 0x3f96_cbe4;

/// Five times [`PI_1_8`], rounded to single precision.
pub const PI_5_8: u32 = 0x3ffb_53d2;

/// Seven times [`PI_1_8`], rounded to single precision.
pub const PI_7_8: u32 = 0x402f_ede0;

/// [`PI_1_8`] negated.
pub const NEG_PI_1_8: u32 = 0xbec9_0fdb;

/// [`PI_3_8`] negated.
pub const NEG_PI_3_8: u32 = 0xbf96_cbe4;

/// [`PI_5_8`] negated.
pub const NEG_PI_5_8: u32 = 0xbffb_53d2;

/// [`PI_7_8`] negated.
pub const NEG_PI_7_8: u32 = 0xc02f_ede0;

/// A direction that the right stick can press.
#[derive(Debug, Clone, Copy, PartialEq, Eq)]
pub enum Direction {
    Up,
    Down,
    Left,
    Right,
}

/// A press or a release that the right stick sends, to be handled as that of
/// a button.
#[derive(Debug, Clone, Copy, PartialEq, Eq)]
pub struct StickEdge {
    pub direction: Direction,
    pub is_press_down: bool,
}

/// One reading of the stick.
pub struct Reading {
    /// Distance of the stick from its centre.
    pub distance: u32,
    /// Angle of the stick's position.
    pub angle: u32,
}

/// The right stick between two readings: the direction it holds pressed.
#[derive(Debug, PartialEq, Eq)]
pub struct RightStick {
    pub pressed: Option<Direction>,
}

/// The angle lies in the sector around straight up: from 3pi/8 to 5pi/8, both
/// ends included.
pub open spec fn in_up(angle: u32) -> bool {
    ge(angle, PI_3_8) && le(angle, PI_5_8)
}

/// The angle lies in the sector around straight down: from -5pi/8 to -3pi/8,
/// both ends included.
pub open spec fn in_down(angle: u32) -> bool {
    ge(angle, NEG_PI_5_8) && le(angle, NEG_PI_3_8)
}

/// The angle lies in the sector around straight left, which runs across the
/// ends of the range: 7pi/8 or more, or -7pi/8 or less.
pub open spec fn in_left(angle: u32) -> bool {
    ge(angle, PI_7_8) || le(angle, NEG_PI_7_8)
}

/// The angle lies in the sector around straight right: above -pi/8, up to
/// pi/8 included.
pub open spec fn in_right(angle: u32) -> bool {
    gt(angle, NEG_PI_1_8) && le(angle, PI_1_8)
}

/// The angle lies in one of the four gaps between the sectors.
pub open spec fn in_gap(angle: u32) -> bool {
    ||| gt(angle, PI_1_8) && lt(angle, PI_3_8)
    ||| gt(angle, PI_5_8) && lt(angle, PI_7_8)
    ||| gt(angle, NEG_PI_3_8) && le(angle, NEG_PI_1_8)
    ||| gt(angle, NEG_PI_7_8) && lt(angle, NEG_PI_5_8)
}

/// The direction whose sector the angle lies in, if it lies in one.
pub open spec fn sector(angle: u32) -> Option<Direction> {
    if in_up(angle) {
        Some(Direction::Up)
    } else if in_down(angle) {
        Some(Direction::Down)
    } else if in_left(angle) {
        Some(Direction::Left)
    } else if in_right(angle) {
        Some(Direction::Right)
    } else {
        None
    }
}

/// The name under which a direction is looked up in the remapping tables.
pub open spec fn direction_name(direction: Direction) -> Seq<char> {
    match direction {
        Direction::Up => "right_stick_up"@,
        Direction::Down => "right_stick_down"@,
        Direction::Left => "right_stick_left"@,
        Direction::Right => "right_stick_right"@,
    }
}

/// What one reading does to the stick: the direction held afterwards, and the
/// edge sent, if any.
///
/// At or below the dead zone a held direction is released. At or beyond the
/// trigger zone, with nothing held, the direction of the angle's sector is
/// pressed, if the angle lies in a sector. Every other reading changes nothing.
pub open spec fn step(
    pressed: Option<Direction>,
    dead_zone: u32,
    trigger_zone: u32,
    reading: Reading,
) -> (Option<Direction>, Option<StickEdge>) {
    if le(reading.distance, dead_zone) {
        match pressed {
            Some(direction) => (None, Some(StickEdge { direction, is_press_down: false })),
            None => (None, None),
        }
    } else if ge(reading.distance, trigger_zone) && pressed is None {
        match sector(reading.angle) {
            Some(direction) => (
                Some(direction),
                Some(StickEdge { direction, is_press_down: true }),
            ),
            None => (None, None),
        }
    } else {
        (pressed, None)
    }
}

/// What a run of readings does to the stick: the direction held after the last
/// one, and the edges sent, in order.
pub open spec fn run(
    pressed: Option<Direction>,
    dead_zone: u32,
    trigger_zone: u32,
    readings: Seq<Reading>,
) -> (Option<Direction>, Seq<StickEdge>)
    decreases readings.len(),
{
    if readings.len() == 0 {
        (pressed, Seq::empty())
    } else {
        let before = run(pressed, dead_zone, trigger_zone, readings.drop_last());
        let now = step(before.0, dead_zone, trigger_zone, readings.last());
        (
            now.0,
            match now.1 {
                Some(edge) => before.1.push(edge),
                None => before.1,
            },
        )
    }
}

impl Direction {
    /// The name under which the direction is looked up in the remapping tables.
    pub fn input_name(self) -> (name: &'static str)
        ensures
            name@ == direction_name(self),
    {
        match self {
            Direction::Up => "right_stick_up",
            Direction::Down => "right_stick_down",
            Direction::Left => "right_stick_left",
            Direction::Right => "right_stick_right",
        }
    }
}

/// Finds the direction whose sector an angle lies in.
pub fn sector_of(angle: u32) -> (found: Option<Direction>)
    ensures
        found == sector(angle),
{
    if greater_equal(angle, PI_3_8) && less_equal(angle, PI_5_8) {
        Some(Direction::Up)
    } else if greater_equal(angle, NEG_PI_5_8) && less_equal(angle, NEG_PI_3_8) {
        Some(Direction::Down)
    } else if greater_equal(angle, PI_7_8) || less_equal(angle, NEG_PI_7_8) {
        Some(Direction::Left)
    } else if less_than(NEG_PI_1_8, angle) && less_equal(angle, PI_1_8) {
        Some(Direction::Right)
    } else {
        None
    }
}

impl RightStick {
    /// A stick that holds nothing pressed.
    pub fn new() -> (stick: Self)
        ensures
            stick.pressed is None,
    {
        RightStick { pressed: None }
    }

    /// Takes one reading: updates the direction held and returns the edge to
    /// send, if any.
    pub fn tick(&mut self, config: &Config, reading: Reading) -> (edge: Option<StickEdge>)
        ensures
            (final(self).pressed, edge) == step(
                old(self).pressed,
                config.right_stick_dead_zone,
                config.right_stick_trigger_zone,
                reading,
            ),
    {
        if less_equal(reading.distance, config.right_stick_dead_zone) {
            let held: Option<Direction> = self.pressed;
            self.pressed = None;
            match held {
                Some(direction) => Some(StickEdge { direction, is_press_down: false }),
                None => None,
            }
        } else if greater_equal(reading.distance, config.right_stick_trigger_zone)
            && self.pressed.is_none() {
            let found: Option<Direction> = sector_of(reading.angle);
            self.pressed = found;
            match found {
                Some(direction) => Some(StickEdge { direction, is_press_down: true }),
                None => None,
            }
        } else {
            None
        }
    }
}

/// Every angle that is a number lies in exactly one of the four sectors and
/// the four gaps; [`sector`] names the sector it lies in, and names none for
/// an angle in a gap or one that is no number.
pub proof fn lemma_sectors_partition(angle: u32)
    ensures
        !nan(angle) ==> in_up(angle) || in_down(angle) || in_left(angle) || in_right(angle)
            || in_gap(angle),
        !(in_up(angle) && in_down(angle)),
        !(in_up(angle) && in_left(angle)),
        !(in_up(angle) && in_right(angle)),
        !(in_down(angle) && in_left(angle)),
        !(in_down(angle) && in_right(angle)),
        !(in_left(angle) && in_right(angle)),
        in_gap(angle) ==> !in_up(angle) && !in_down(angle) && !in_left(angle) && !in_right(angle),
        sector(angle) == Some(Direction::Up) <==> in_up(angle),
        sector(angle) == Some(Direction::Down) <==> in_down(angle),
        sector(angle) == Some(Direction::Left) <==> in_left(angle),
        sector(angle) == Some(Direction::Right) <==> in_right(angle),
        sector(angle) is None <==> in_gap(angle) || nan(angle),
{
}

/// A reading sends a release only at or below the dead zone, and then for the
/// direction that was held; it sends a press only beyond the dead zone, at or
/// beyond the trigger zone, with nothing held, and then for the sector of the
/// angle. After a reading a direction is held only if it was held before or
/// has just been pressed.
pub proof fn lemma_edges(
    pressed: Option<Direction>,
    dead_zone: u32,
    trigger_zone: u32,
    reading: Reading,
)
    ensures
        ({
            let (held, edge) = step(pressed, dead_zone, trigger_zone, reading);
            &&& edge matches Some(e) ==> (!e.is_press_down ==> le(reading.distance, dead_zone)
                && pressed == Some(e.direction) && held is None)
            &&& pressed is Some && le(reading.distance, dead_zone) ==> edge == Some(
                StickEdge { direction: pressed->Some_0, is_press_down: false },
            )
            &&& edge matches Some(e) ==> (e.is_press_down ==> !le(reading.distance, dead_zone)
                && ge(reading.distance, trigger_zone) && pressed is None && sector(reading.angle)
                == Some(e.direction) && held == Some(e.direction))
            &&& edge is None ==> held == pressed
        }),
{
}

/// A held direction stays held, and nothing is sent, through every run of
/// readings of which none is at or below the dead zone: readings that are
/// strictly beyond it, short of the trigger zone or not, and readings that are
/// no number.
pub proof fn lemma_held_outside_dead_zone(
    direction: Direction,
    dead_zone: u32,
    trigger_zone: u32,
    readings: Seq<Reading>,
)
    requires
        forall|i: int| 0 <= i < readings.len() ==> !le((#[trigger] readings[i]).distance, dead_zone),
    ensures
        run(Some(direction), dead_zone, trigger_zone, readings) == (
            Some(direction),
            Seq::<StickEdge>::empty(),
        ),
    decreases readings.len(),
{
    if readings.len() > 0 {
        lemma_held_outside_dead_zone(direction, dead_zone, trigger_zone, readings.drop_last());
    }
}

/// Readings taken one run after another do what the two runs do in turn.
pub proof fn lemma_run_joined(
    pressed: Option<Direction>,
    dead_zone: u32,
    trigger_zone: u32,
    earlier: Seq<Reading>,
    later: Seq<Reading>,
)
    ensures
        ({
            let first = run(pressed, dead_zone, trigger_zone, earlier);
            let second = run(first.0, dead_zone, trigger_zone, later);
            run(pressed, dead_zone, trigger_zone, earlier + later) == (
                second.0,
                first.1 + second.1,
            )
        }),
    decreases later.len(),
{
    let first = run(pressed, dead_zone, trigger_zone, earlier);
    if later.len() == 0 {
        assert(earlier + later =~= earlier);
        assert(first.1 + Seq::<StickEdge>::empty() =~= first.1);
    } else {
        lemma_run_joined(pressed, dead_zone, trigger_zone, earlier, later.drop_last());
        assert((earlier + later).drop_last() =~= earlier + later.drop_last());
        assert((earlier + later).last() == later.last());
        let short = run(first.0, dead_zone, trigger_zone, later.drop_last());
        let now = step(short.0, dead_zone, trigger_zone, later.last());
        match now.1 {
            Some(edge) => {
                assert((first.1 + short.1).push(edge) =~= first.1 + short.1.push(edge));
            },
            None => {},
        }
    }
}

/// Hysteresis from press to release. The stick at rest is pushed to or beyond
/// the trigger zone into a sector, which presses that sector's direction;
/// then come any readings not at or below the dead zone, short of the trigger
/// zone or not; then one at or below the dead zone. Over all of them exactly
/// two edges are sent: the press and then the release of that direction.
pub proof fn lemma_hysteresis(
    dead_zone: u32,
    trigger_zone: u32,
    push: Reading,
    held: Seq<Reading>,
    back: Reading,
)
    requires
        ge(push.distance, trigger_zone),
        !le(push.distance, dead_zone),
        sector(push.angle) is Some,
        forall|i: int| 0 <= i < held.len() ==> !le((#[trigger] held[i]).distance, dead_zone),
        le(back.distance, dead_zone),
    ensures
        run(None, dead_zone, trigger_zone, seq![push] + held + seq![back]) == (
            None::<Direction>,
            seq![
                StickEdge { direction: sector(push.angle)->Some_0, is_press_down: true },
                StickEdge { direction: sector(push.angle)->Some_0, is_press_down: false },
            ],
        ),
{
    let direction = sector(push.angle)->Some_0;
    let press = StickEdge { direction, is_press_down: true };
    let release = StickEdge { direction, is_press_down: false };
    let none = Seq::<StickEdge>::empty();
    assert(run(None, dead_zone, trigger_zone, seq![push]) == (Some(direction), seq![press])) by {
        assert(seq![push].drop_last() =~= Seq::<Reading>::empty());
        assert(run(None, dead_zone, trigger_zone, Seq::<Reading>::empty()) == (
            None::<Direction>,
            none,
        ));
        assert(none.push(press) =~= seq![press]);
    }
    lemma_held_outside_dead_zone(direction, dead_zone, trigger_zone, held);
    assert(run(Some(direction), dead_zone, trigger_zone, seq![back]) == (
        None::<Direction>,
        seq![release],
    )) by {
        assert(seq![back].drop_last() =~= Seq::<Reading>::empty());
        assert(run(Some(direction), dead_zone, trigger_zone, Seq::<Reading>::empty()) == (
            Some(direction),
            none,
        ));
        assert(none.push(release) =~= seq![release]);
    }
    lemma_run_joined(None, dead_zone, trigger_zone, seq![push], held);
    lemma_run_joined(None, dead_zone, trigger_zone, seq![push] + held, seq![back]);
    assert(seq![press] + none =~= seq![press]);
    assert(seq![press] + seq![release] =~= seq![press, release]);
}

} // verus!
