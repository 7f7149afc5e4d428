use vstd::prelude::*;

use crate::error::OsdError;
use crate::parse::{digits_value, parse_trimmed_u32, parses_as_u32, trimmed};
use crate::volume::clamped;

verus! {

/// The brightness floor is one, never zero: the backlight device must
/// not be turned fully off.
pub open spec fn brightness_floor() -> int {
    1
}

/// The brightness ceiling is the nominal device maximum.
pub open spec fn brightness_ceiling() -> int {
    100
}

/// The level limits of the two devices: the volume ceiling is 100 with
/// extended mode off and 150 with it on, and the brightness floor is
/// always 1, never 0.
pub proof fn lemma_level_limits()
    ensures
        crate::volume::volume_ceiling(false) == 100,
        crate::volume::volume_ceiling(true) == 150,
        crate::volume::volume_floor() == 0,
        brightness_floor() == 1,
        brightness_floor() != 0,
        brightness_ceiling() == 100,
{
}

/// In-memory brightness state of one CLI invocation: the current level,
/// queried fresh from the backlight tool, mutated in place, and
/// discarded when the process exits.
pub struct Brightness {
    pub current_brightness: u32,
}

impl Brightness {
    /// Builds the state from the level queried out of the backlight tool.
    pub fn new(current_brightness: u32) -> (b: Self)
        ensures
            b.current_brightness == current_brightness,
    {
        Self { current_brightness }
    }

    /// Reads the backlight tool's level-query output as a percentage;
    /// `ExternalToolError` exactly when the output is not a number.
    pub fn get_current_brightness(output: &[u8]) -> (r: Result<u32, OsdError>)
        ensures
            match r {
                Ok(v) => parses_as_u32(output@) && v as int == digits_value(trimmed(output@)),
                Err(e) => !parses_as_u32(output@) && e == OsdError::ExternalToolError,
            },
    {
        match parse_trimmed_u32(output) {
            Some(v) => Ok(v),
            None => Err(OsdError::ExternalToolError),
        }
    }

    /// Raises the level by one step, clamped to the ceiling.
    pub fn increase_brightness(&mut self)
        ensures
            final(self).current_brightness == clamped(
                old(self).current_brightness + 5,
                brightness_floor(),
                brightness_ceiling(),
            ),
    {
        if self.current_brightness >= 100 {
            self.current_brightness = 100;
        } else {
            self.current_brightness = self.current_brightness + 5;
            if self.current_brightness > 100 {
                self.current_brightness = 100;
            }
        }
    }

    /// Lowers the level by one step, clamped to the floor.
    pub fn decrease_brightness(&mut self)
        ensures
            final(self).current_brightness == clamped(
                old(self).current_brightness - 5,
                brightness_floor(),
                brightness_ceiling(),
            ),
    {
        if self.current_brightness <= 6 {
            self.current_brightness = 1;
        } else {
            self.current_brightness = self.current_brightness - 5;
            if self.current_brightness > 100 {
                self.current_brightness = 100;
            }
        }
    }
}

} // verus!
