//! Verified core of a four-LED chaser for a microcontroller's GPIO bank.
//!
//! The firmware lights the four user LEDs one at a time, in a circle, by
//! read-modify-write accesses to three memory-mapped registers. This library
//! holds everything the firmware decides: the register layout, the bit
//! transforms applied to each register word, and the sequencer that says which
//! access or pause comes next. The binary around it only performs the volatile
//! accesses and the busy-wait.

pub mod chaser;
pub mod leds;
pub mod registers;
