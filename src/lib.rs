//! Direction arbitration for a two-button, two-line motor driver.
//!
//! Two edge interrupts ("up" and "down") share one direction value and the
//! two motor-driver output levels. The decisions those handlers take are
//! pure functions here; the firmware around them only performs the actions
//! they hand back.
pub mod direction;
pub mod actions;
pub mod controller;
pub mod debounce;
