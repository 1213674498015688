//! The remapping table and the tunables, and the rules a configuration must meet.
//!
//! Analog tunables are single-precision numbers held as bit patterns (see
//! [`crate::float_bits`]).

use crate::float_bits::{ge, gt, le, less_equal, less_than, lt, nan};
use std::time::Duration;
use vstd::hash_map::StringHashMap;
use vstd::prelude::*;

verus! {

/// A key of `enigo`. The library hands keys on and never looks inside one.
#[verifier::external_type_specification]
#[verifier::external_body]
pub struct ExKey(enigo::Key);

/// A mouse button of `enigo`. The library hands buttons on and never looks
/// inside one.
#[verifier::external_type_specification]
#[verifier::external_body]
pub struct ExButton(enigo::Button);

/// What one input is remapped to.
#[derive(Debug, PartialEq)]
pub enum Remap {
    /// Keys pressed in order and released in reverse order, all on the press
    /// of the input.
    Sequence(Vec<enigo::Key>),
    /// Keys pressed in order when the input is pressed, and released in
    /// reverse order when it is released.
    Sync(Vec<enigo::Key>),
    /// A key clicked once and then again and again while the input is held.
    Repeat(enigo::Key),
    /// A mouse button that follows the input.
    Mouse(enigo::Button),
    /// A command line to launch when the input is pressed.
    Command(String),
}

/// Tunables and remapping tables.
pub struct Config {
    /// Time between the first click of a repeating key and the second.
    pub key_repeat_initial_delay: Duration,
    /// Time between later clicks of a repeating key.
    pub key_repeat_sub_delay: Duration,
    /// Time between two readings of the left stick.
    pub left_stick_poll_interval: Duration,
    /// Distance from the centre up to which the left stick moves nothing.
    pub left_stick_dead_zone: u32,
    /// Pointer speed when the stick leaves rest.
    pub mouse_initial_speed: u32,
    /// Pointer speed that the ramp ends at.
    pub mouse_max_speed: u32,
    /// Number of readings over which the speed climbs from initial to maximum.
    pub mouse_ticks_to_reach_max_speed: u32,
    /// Time between two readings of the right stick.
    pub right_stick_poll_interval: Duration,
    /// Distance from the centre from which the right stick presses a direction.
    pub right_stick_trigger_zone: u32,
    /// Distance from the centre up to which the right stick releases its direction.
    pub right_stick_dead_zone: u32,
    /// The input that switches to the alternative table while it is held.
    pub alternative_activator: Option<String>,
    /// The table in force while the activator is up.
    pub main: StringHashMap<Remap>,
    /// The table in force while the activator is down.
    pub alt: StringHashMap<Remap>,
}

/// The duration that `Duration::from_millis` makes of a number of milliseconds.
pub uninterp spec fn millis(ms: u64) -> Duration;

/// `Duration::from_millis`: the result is the duration of that many
/// milliseconds, the same for the same number.
#[verifier::external_body]
fn duration_from_millis(ms: u64) -> (d: Duration)
    ensures
        d == millis(ms),
{
    Duration::from_millis(ms)
}

impl Config {
    /// The first rule that the configuration breaks, as the text reported for
    /// it, or `None` if it breaks none.
    ///
    /// The three zone sizes must not be zero or less, the trigger zone must
    /// not be smaller than the right stick's dead zone, and the activator must
    /// have no entry in the main table. A zone size that is no number passes:
    /// it is neither at most zero nor smaller than anything.
    pub open spec fn fault(&self) -> Option<Seq<char>> {
        if le(self.left_stick_dead_zone, 0) || le(self.right_stick_trigger_zone, 0) || le(
            self.right_stick_dead_zone,
            0,
        ) {
            Some("Negative zone size"@)
        } else if lt(self.right_stick_trigger_zone, self.right_stick_dead_zone) {
            Some("Trigger zone smaller than dead zone"@)
        } else if self.alternative_activator matches Some(activator) && self.main@.contains_key(
            activator@,
        ) {
            Some("Activator for alternative set is remapped"@)
        } else {
            None
        }
    }

    /// The table in force under a mode.
    pub open spec fn table(&self, is_alternative: bool) -> Map<Seq<char>, Remap> {
        if is_alternative {
            self.alt@
        } else {
            self.main@
        }
    }

    /// Hands the configuration back if it breaks no rule, and otherwise
    /// reports the first rule it breaks.
    pub fn check_error(self) -> (res: Result<Self, &'static str>)
        ensures
            match res {
                Ok(config) => self.fault() is None && config == self,
                Err(text) => self.fault() == Some(text@),
            },
    {
        if less_equal(self.left_stick_dead_zone, 0) || less_equal(self.right_stick_trigger_zone, 0)
            || less_equal(self.right_stick_dead_zone, 0) {
            return Err("Negative zone size");
        }
        if less_than(self.right_stick_trigger_zone, self.right_stick_dead_zone) {
            return Err("Trigger zone smaller than dead zone");
        }
        let remapped: bool = match &self.alternative_activator {
            Some(activator) => self.main.contains_key(activator.as_str()),
            None => false,
        };
        if remapped {
            return Err("Activator for alternative set is remapped");
        }
        Ok(self)
    }

    /// Looks an input up in the table in force under the given mode.
    pub fn get_remap(&self, input: &str, is_alternative: bool) -> (r: Option<&Remap>)
        ensures
            match r {
                Some(remap) => self.table(is_alternative).contains_key(input@) && *remap
                    == self.table(is_alternative)[input@],
                None => !self.table(is_alternative).contains_key(input@),
            },
    {
        if is_alternative {
            self.alt.get(input)
        } else {
            self.main.get(input)
        }
    }

    /// 400 ms.
    pub fn default_key_repeat_initial_delay() -> (d: Duration)
        ensures
            d == millis(400),
    {
        duration_from_millis(400)
    }

    /// 40 ms.
    pub fn default_key_repeat_sub_delay() -> (d: Duration)
        ensures
            d == millis(40),
    {
        duration_from_millis(40)
    }

    /// 10 ms.
    pub fn default_left_stick_poll_interval() -> (d: Duration)
        ensures
            d == millis(10),
    {
        duration_from_millis(10)
    }

    /// The pattern of 0.05.
    pub fn default_left_stick_dead_zone() -> (bits: u32)
        ensures
            bits == 0x3d4c_cccd,
    {
        0x3d4c_cccd
    }

    /// The pattern of 10.
    pub fn default_mouse_initial_speed() -> (bits: u32)
        ensures
            bits == 0x4120_0000,
    {
        0x4120_0000
    }

    /// The pattern of 20.
    pub fn default_mouse_max_speed() -> (bits: u32)
        ensures
            bits == 0x41a0_0000,
    {
        0x41a0_0000
    }

    /// The pattern of 30.
    pub fn default_mouse_ticks_to_reach_max_speed() -> (bits: u32)
        ensures
            bits == 0x41f0_0000,
    {
        0x41f0_0000
    }

    /// 50 ms.
    pub fn default_right_stick_poll_interval() -> (d: Duration)
        ensures
            d == millis(50),
    {
        duration_from_millis(50)
    }

    /// The pattern of 0.3.
    pub fn default_right_stick_trigger_zone() -> (bits: u32)
        ensures
            bits == 0x3e99_999a,
    {
        0x3e99_999a
    }

    /// The pattern of 0.1.
    pub fn default_right_stick_dead_zone() -> (bits: u32)
        ensures
            bits == 0x3dcc_cccd,
    {
        0x3dcc_cccd
    }
}

/// In a configuration that breaks no rule, zone sizes that are numbers are
/// above zero, and the trigger zone is at least as large as the right stick's
/// dead zone; the activator, if there is one, has no entry in the main table.
pub proof fn lemma_faultless(config: Config)
    requires
        config.fault() is None,
    ensures
        !nan(config.left_stick_dead_zone) ==> gt(config.left_stick_dead_zone, 0),
        !nan(config.right_stick_dead_zone) ==> gt(config.right_stick_dead_zone, 0),
        !nan(config.right_stick_trigger_zone) ==> gt(config.right_stick_trigger_zone, 0),
        !nan(config.right_stick_dead_zone) && !nan(config.right_stick_trigger_zone) ==> ge(
            config.right_stick_trigger_zone,
            config.right_stick_dead_zone,
        ),
        config.alternative_activator matches Some(activator) ==> !config.main@.contains_key(
            activator@,
        ),
{
}

impl Default for Config {
    /// Every duration and every number zero, no activator, both tables empty.
    fn default() -> (config: Config)
        ensures
            config.key_repeat_initial_delay == millis(0),
            config.key_repeat_sub_delay == millis(0),
            config.left_stick_poll_interval == millis(0),
            config.left_stick_dead_zone == 0,
            config.mouse_initial_speed == 0,
            config.mouse_max_speed == 0,
            config.mouse_ticks_to_reach_max_speed == 0,
            config.right_stick_poll_interval == millis(0),
            config.right_stick_trigger_zone == 0,
            config.right_stick_dead_zone == 0,
            config.alternative_activator is None,
            config.main@ == Map::<Seq<char>, Remap>::empty(),
            config.alt@ == Map::<Seq<char>, Remap>::empty(),
    {
        Config {
            key_repeat_initial_delay: duration_from_millis(0),
            key_repeat_sub_delay: duration_from_millis(0),
            left_stick_poll_interval: duration_from_millis(0),
            left_stick_dead_zone: 0,
            mouse_initial_speed: 0,
            mouse_max_speed: 0,
            mouse_ticks_to_reach_max_speed: 0,
            right_stick_poll_interval: duration_from_millis(0),
            right_stick_trigger_zone: 0,
            right_stick_dead_zone: 0,
            alternative_activator: None,
            main: StringHashMap::new(),
            alt: StringHashMap::new(),
        }
    }
}

} // verus!
