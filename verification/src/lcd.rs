//! Button decoding for the character-display keypad.
//!
//! The keypad presents its five buttons on a single analog input; each
//! button pulls the reading into a fixed inclusive range. Decoding a raw
//! reading into a button is the only logic this module owns; performing the
//! analog conversion itself is the hardware's job.

use vstd::prelude::*;

verus! {

/// Largest analog reading that designates a button; anything above it is an
/// invalid reading.
pub const MAX_BUTTON_READING: u16 = 4096;

/// Buttons on the display keypad shield.
#[derive(Debug, PartialEq, Eq, Structural, Clone, Copy)]
pub enum LCDButtons {
    /// Right button.
    RIGHT,
    /// Up button.
    UP,
    /// Down button.
    DOWN,
    /// Left button.
    LEFT,
    /// Select button.
    SELECT,
}

impl LCDButtons {
    /// Decodes an analog reading into the button it designates.
    ///
    /// Returns `None` for readings above [`MAX_BUTTON_READING`], which are
    /// invalid; every reading at or below it maps to exactly one button
    /// through the fixed inclusive thresholds.
    pub fn new(reading: u16) -> (r: Option<LCDButtons>)
        ensures
            reading <= 500 ==> r == Some(LCDButtons::RIGHT),
            501 <= reading <= 1000 ==> r == Some(LCDButtons::UP),
            1001 <= reading <= 2500 ==> r == Some(LCDButtons::DOWN),
            2501 <= reading <= 4000 ==> r == Some(LCDButtons::LEFT),
            4001 <= reading <= MAX_BUTTON_READING ==> r == Some(LCDButtons::SELECT),
            reading > MAX_BUTTON_READING ==> r is None,
    {
        if reading <= 500 {
            Some(LCDButtons::RIGHT)
        } else if reading <= 1000 {
            Some(LCDButtons::UP)
        } else if reading <= 2500 {
            Some(LCDButtons::DOWN)
        } else if reading <= 4000 {
            Some(LCDButtons::LEFT)
        } else if reading <= MAX_BUTTON_READING {
            Some(LCDButtons::SELECT)
        } else {
            None
        }
    }
}

} // verus!
