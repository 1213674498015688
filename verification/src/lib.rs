//! The rules of a gamepad remapper: what each event of a controller does to a
//! keyboard, a mouse and the processes of a desktop.
//!
//! The library decides and never acts. The program around it reads the
//! controller, keeps the clocks and drives the output device; it hands every
//! event and every stick reading to one of the functions here and carries out
//! what comes back.
//!
//! - [`pad`] says where each event of the controller goes.
//! - [`engine`] turns a press or a release of an input into a list of effects.
//! - [`left_stick`] turns the left stick into pointer moves.
//! - [`right_stick`] turns the right stick into four buttons.
//! - [`config`] holds the remapping tables and the tunables.
//! - [`analog`] and [`atomic_f32`] hold the state that the loops share.
//! - [`float_bits`] compares and truncates the analog numbers, which the
//!   library holds as bit patterns.

pub mod analog;
pub mod atomic_f32;
pub mod config;
pub mod engine;
pub mod float_bits;
pub mod left_stick;
pub mod pad;
pub mod right_stick;
