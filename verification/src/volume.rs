use vstd::prelude::*;

use crate::error::OsdError;
use crate::parse::{digits_value, parse_trimmed_u32, parses_as_u32, trim_range, trimmed};

verus! {

/// Volume ceiling: the nominal device maximum, or the extended maximum
/// when extended mode is enabled.
pub open spec fn volume_ceiling(extended_volume: bool) -> int {
    if extended_volume {
        150
    } else {
        100
    }
}

/// The volume floor is always zero.
pub open spec fn volume_floor() -> int {
    0
}

/// `v` clamped to the inclusive range `[lo, hi]`.
pub open spec fn clamped(v: int, lo: int, hi: int) -> int {
    if v < lo {
        lo
    } else if v > hi {
        hi
    } else {
        v
    }
}

/// The marker the mixer tool prints for a muted sink, byte for byte:
/// `MUTED`.
pub open spec fn muted_marker() -> Seq<u8> {
    seq![77u8, 85u8, 84u8, 69u8, 68u8]
}

/// A clamped adjustment lands within `[lo, hi]` for every delta; an
/// increase from the ceiling stays at the ceiling, and a decrease from
/// the floor stays at the floor.
pub proof fn lemma_adjust_within_bounds(v: int, delta: int, lo: int, hi: int)
    requires
        lo <= hi,
    ensures
        lo <= clamped(v + delta, lo, hi) <= hi,
        v == hi && delta >= 0 ==> clamped(v + delta, lo, hi) == hi,
        v == lo && delta <= 0 ==> clamped(v + delta, lo, hi) == lo,
{
}

/// In-memory volume state of one CLI invocation: current level, the
/// extended-range flag from the config, and a local guess of the mute
/// flag. The level is queried fresh from the mixer tool, mutated in
/// place, and discarded when the process exits.
pub struct Volume {
    pub extended_volume: bool,
    pub current_volume: u32,
    pub is_muted: bool,
}

impl Volume {
    /// Builds the state from the values queried out of the mixer tool.
    pub fn new(extended_volume: bool, current_volume: u32, is_muted: bool) -> (v: Self)
        ensures
            v.extended_volume == extended_volume,
            v.current_volume == current_volume,
            v.is_muted == is_muted,
    {
        Self { extended_volume, current_volume, is_muted }
    }

    /// Reads the mixer tool's mute-query output: muted exactly when the
    /// output trims to the `MUTED` marker.
    pub fn is_muted(output: &[u8]) -> (r: bool)
        ensures
            r == (trimmed(output@) == muted_marker()),
    {
        let (lo, hi) = trim_range(output);
        let ghost t = trimmed(output@);
        if hi - lo != 5 {
            proof {
                assert(t.len() != muted_marker().len());
            }
            return false;
        }
        let r = output[lo] == 77 && output[lo + 1] == 85 && output[lo + 2] == 84
            && output[lo + 3] == 69 && output[lo + 4] == 68;
        proof {
            if r {
                assert(t =~= muted_marker());
            } else {
                assert(t != muted_marker());
            }
        }
        r
    }

    /// Reads the mixer tool's level-query output as a percentage;
    /// `ExternalToolError` exactly when the output is not a number.
    pub fn get_current_volume(output: &[u8]) -> (r: Result<u32, OsdError>)
        ensures
            match r {
                Ok(v) => parses_as_u32(output@) && v as int == digits_value(trimmed(output@)),
                Err(e) => !parses_as_u32(output@) && e == OsdError::ExternalToolError,
            },
    {
        match parse_trimmed_u32(output) {
            Some(v) => Ok(v),
            None => Err(OsdError::ExternalToolError),
        }
    }

    /// Raises the level by one step, clamped to the ceiling. The clamped
    /// value — never the raw sum — is what is stored and what the caller
    /// hands to the mixer tool.
    pub fn increase_volume(&mut self)
        ensures
            final(self).extended_volume == old(self).extended_volume,
            final(self).is_muted == old(self).is_muted,
            final(self).current_volume == clamped(
                old(self).current_volume + 5,
                volume_floor(),
                volume_ceiling(old(self).extended_volume),
            ),
    {
        let ceiling: u32 = if self.extended_volume {
            150
        } else {
            100
        };
        if self.current_volume >= ceiling {
            self.current_volume = ceiling;
        } else {
            self.current_volume = self.current_volume + 5;
            if self.current_volume > ceiling {
                self.current_volume = ceiling;
            }
        }
    }

    /// Lowers the level by one step, clamped to the floor (and to the
    /// ceiling, should the stored level start above it).
    pub fn decrease_volume(&mut self)
        ensures
            final(self).extended_volume == old(self).extended_volume,
            final(self).is_muted == old(self).is_muted,
            final(self).current_volume == clamped(
                old(self).current_volume - 5,
                volume_floor(),
                volume_ceiling(old(self).extended_volume),
            ),
    {
        let ceiling: u32 = if self.extended_volume {
            150
        } else {
            100
        };
        if self.current_volume < 5 {
            self.current_volume = 0;
        } else {
            self.current_volume = self.current_volume - 5;
            if self.current_volume > ceiling {
                self.current_volume = ceiling;
            }
        }
    }

    /// Stores `volume` as the current level, unclamped, as the caller
    /// requested it.
    pub fn set_volume(&mut self, volume: u32)
        ensures
            final(self).extended_volume == old(self).extended_volume,
            final(self).is_muted == old(self).is_muted,
            final(self).current_volume == volume,
    {
        self.current_volume = volume;
    }

    /// Flips the local mute guess. The guess may desync from the true
    /// mixer state until the next query: the caller's toggle command is
    /// unconditional and its success is not confirmed.
    pub fn mute(&mut self)
        ensures
            final(self).extended_volume == old(self).extended_volume,
            final(self).current_volume == old(self).current_volume,
            final(self).is_muted == !old(self).is_muted,
    {
        self.is_muted = !self.is_muted;
    }
}

} // verus!
