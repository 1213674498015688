//! The state that the event loop and the two stick loops share.
//!
//! Every cell is an atomic word, read and written with relaxed ordering: no
//! access ever waits, and the two components of a position are not read
//! together. A reader gets, of each cell, some value that was stored.

use crate::atomic_f32::AtomicF32;
use crate::pad::{Component, Stick};
use std::sync::atomic::AtomicBool;
use vstd::prelude::*;

verus! {

/// The position of one stick: two numbers from about -1 to 1.
pub struct Coordinate {
    pub x: AtomicF32,
    pub y: AtomicF32,
}

impl Coordinate {
    /// A position at the centre.
    pub fn new() -> Self {
        Self { x: AtomicF32::new(), y: AtomicF32::new() }
    }

    /// Puts the position back to the centre.
    pub fn reset(&self) {
        self.x.reset();
        self.y.reset();
    }
}

/// The positions of both sticks and the mode.
pub struct AnalogState {
    pub left: Coordinate,
    pub right: Coordinate,
    alternative: AtomicBool,
}

impl AnalogState {
    /// Both sticks at the centre, the main table in force.
    pub fn new() -> Self {
        Self { left: Coordinate::new(), right: Coordinate::new(), alternative: AtomicBool::new(false) }
    }

    /// Tells whether the alternative table is in force.
    pub fn is_alternative(&self) -> bool {
        self.alternative.load(std::sync::atomic::Ordering::Relaxed)
    }

    /// Puts the alternative table in force, or the main table.
    pub fn set_alternative(&self, alternative: bool) {
        self.alternative.store(alternative, std::sync::atomic::Ordering::Relaxed);
    }

    /// Stores one component of one stick's position, as a bit pattern.
    pub fn store(&self, stick: Stick, component: Component, bits: u32) {
        let coordinate: &Coordinate = match stick {
            Stick::Left => &self.left,
            Stick::Right => &self.right,
        };
        match component {
            Component::X => coordinate.x.store(bits),
            Component::Y => coordinate.y.store(bits),
        }
    }

    /// Puts the main table in force and both sticks back to the centre, as on
    /// the loss of the controller.
    pub fn reset(&self) {
        self.alternative.store(false, std::sync::atomic::Ordering::Relaxed);
        self.left.reset();
        self.right.reset();
    }
}

} // verus!
