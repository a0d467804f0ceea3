//! The virtual keypad the input sequencer speaks in.

use vstd::prelude::*;

verus! {

/// A virtual button of the handheld console's keypad.
///
/// The emulation core receives these as key-down and key-up signals; a key
/// has no duration of its own.  Holding a key across a span of emulated time
/// is the input sequencer's job.
#[derive(Clone, Copy, PartialEq, Eq, Structural, Debug)]
pub enum Key {
    Up,
    Down,
    Left,
    Right,
    A,
    B,
    Select,
    Start,
}

} // verus!
