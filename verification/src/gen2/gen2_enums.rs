//! Enumerations of the Gen2 protocol.

use super::gen2_structs::Gen2AdaptiveQCfg;
use vstd::prelude::*;

verus! {

/// One of four Gen2 Sessions
#[derive(Copy, Clone, PartialEq, Eq, Debug, Structural)]
pub enum Gen2Session {
    /// Session 0
    Session0,
    /// Session 1
    Session1,
    /// Session 2
    Session2,
    /// Session 3
    Session3,
}

/// Query tags whose inventoried flag is A or B, the Target field of the
/// Query command.
#[derive(Copy, Clone, PartialEq, Eq, Debug, Structural)]
pub enum Gen2QueryTarget {
    /// Target A
    A,
    /// Target B
    B,
}

impl Gen2QueryTarget {
    /// The one-bit value of the Target field.
    pub open spec fn spec_code(self) -> u8 {
        match self {
            Gen2QueryTarget::A => 0b0,
            Gen2QueryTarget::B => 0b1,
        }
    }

    /// The one-bit value of the Target field.
    #[verifier::when_used_as_spec(spec_code)]
    pub fn code(self) -> (c: u8)
        ensures
            c == self.spec_code(),
    {
        match self {
            Gen2QueryTarget::A => 0b0,
            Gen2QueryTarget::B => 0b1,
        }
    }

    /// The target that a field value stands for.
    pub fn from_u8(n: u8) -> (r: Option<Gen2QueryTarget>)
        ensures
            r matches Some(t) ==> t.code() == n,
            r is None <==> n > 1,
    {
        if n == 0b0 {
            Some(Gen2QueryTarget::A)
        } else if n == 0b1 {
            Some(Gen2QueryTarget::B)
        } else {
            None
        }
    }
}

/// TARI values are the length of time to represent a binary 0 using the
/// Gen2 standard (in microseconds)
#[derive(Copy, Clone, PartialEq, Eq, Debug, Structural)]
pub enum Gen2Tari {
    /// 6.25 us tari
    Six,
    /// 12.5 us tari
    Twelve,
    /// 25 us tari
    TwentyFive,
}

/// BLF is the Backscatter Link Frequency of the transmission (in kHz)
#[derive(Copy, Clone, PartialEq, Eq, Debug, Structural)]
pub enum Gen2Blf {
    /// 40 kHz BLF
    Forty,
    /// 160 kHz BLF
    OneHundredSixty,
    /// 213 kHz BLF
    TwoHundredThirteen,
    /// 256 kHz BLF
    TwoHundredFiftySix,
    /// 320 kHz BLF
    ThreeHundredTwenty,
    /// 640 kHz BLF
    SixHundredForty,
}

/// Gen2 protocol coding scheme
#[derive(Copy, Clone, PartialEq, Eq, Debug, Structural)]
pub enum Gen2Coding {
    /// FM0 Coding
    Fm0,
    /// Miller 2 Coding
    Miller2,
    /// Miller 4 Coding
    Miller4,
    /// Miller 8 Coding
    Miller8,
}

/// AdaptiveQ Configuration. The Q factor determines how many slots are made
/// during a query event (e.g. inventorying). Each tag chooses a random
/// number from 0..2^Q. If Q is too small, there will be slot collisions. If
/// it is too big, there will be overhead.
#[derive(Copy, Clone, Debug, PartialEq, Eq)]
pub enum Gen2AdaptiveQ {
    /// Enable AdaptiveQ Algorithm (default)
    Enable(Gen2AdaptiveQCfg),
    /// Set manual Q
    Disable(u8),
}

} // verus!
