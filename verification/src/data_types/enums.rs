//! Enumerations shared by all protocols.

use super::config::LbtCfg;
use vstd::prelude::*;
use vstd::string::StringExecFns;

verus! {

/// Represents a physical antenna on an RFID reader.
#[derive(Copy, Clone, PartialEq, Eq, Debug, Structural)]
pub enum Antenna {
    /// Antenna 1 (default).
    Antenna1,
    /// Antenna 2.
    Antenna2,
    /// Antenna 3.
    Antenna3,
    /// Antenna 4.
    Antenna4,
}

impl Antenna {
    /// The antenna's name as it is shown to a user.
    pub open spec fn name(self) -> Seq<char> {
        match self {
            Antenna::Antenna1 => "Antenna 1"@,
            Antenna::Antenna2 => "Antenna 2"@,
            Antenna::Antenna3 => "Antenna 3"@,
            Antenna::Antenna4 => "Antenna 4"@,
        }
    }

    /// Text form of the antenna.
    pub fn to_string(&self) -> (s: String)
        ensures
            s@ == self.name(),
    {
        match self {
            Antenna::Antenna1 => String::from_str("Antenna 1"),
            Antenna::Antenna2 => String::from_str("Antenna 2"),
            Antenna::Antenna3 => String::from_str("Antenna 3"),
            Antenna::Antenna4 => String::from_str("Antenna 4"),
        }
    }
}

/// Profiles defined in firmware for channel configurations.
#[derive(Copy, Clone, PartialEq, Eq, Debug, Structural)]
pub enum Profile {
    /// European profile
    Europe,
    /// United states profile
    Usa,
    /// Japanese profile
    Japan,
    /// Chinese profile
    China,
    /// Chinese profile (alternative)
    China2,
}

/// Different types of tuning algorithms. The faster algorithms are generally
/// less accurate.
#[derive(Copy, Clone, PartialEq, Eq, Debug, Structural)]
pub enum TuningAlgorithm {
    /// No tuning algorithm: the reader is left as it is.
    NoTuning,
    /// Simple automatic tuning: starts at the current tuner setting and
    /// changes the tuner caps until reflected power stops falling.
    Fast,
    /// Sophisticated automatic tuning: searches every segment of the
    /// tuner-setting space for its local minimum of reflected power.
    Exact,
    /// Enhanced sophisticated tuning: measures every segment and runs the
    /// fast search on the three with the lowest reflected power.
    GroupedExact,
}

/// Query selection, the Sel field of the Query command.
#[derive(Copy, Clone, PartialEq, Eq, Debug, Structural)]
pub enum QuerySel {
    /// All targets
    All,
    /// Selected targets
    Sel,
    /// Not selected targets
    NotSel,
}

impl QuerySel {
    /// The two-bit value of the Sel field.
    pub open spec fn spec_code(self) -> u8 {
        match self {
            QuerySel::All => 0b00,
            QuerySel::Sel => 0b10,
            QuerySel::NotSel => 0b11,
        }
    }

    /// The two-bit value of the Sel field.
    #[verifier::when_used_as_spec(spec_code)]
    pub fn code(self) -> (c: u8)
        ensures
            c == self.spec_code(),
    {
        match self {
            QuerySel::All => 0b00,
            QuerySel::Sel => 0b10,
            QuerySel::NotSel => 0b11,
        }
    }

    /// The selection that a field value stands for; `0b01` stands for none.
    pub fn from_u8(n: u8) -> (r: Option<QuerySel>)
        ensures
            r matches Some(q) ==> q.code() == n,
            r is None <==> !(n == 0b00 || n == 0b10 || n == 0b11),
    {
        if n == 0b00 {
            Some(QuerySel::All)
        } else if n == 0b10 {
            Some(QuerySel::Sel)
        } else if n == 0b11 {
            Some(QuerySel::NotSel)
        } else {
            None
        }
    }
}

/// Frequency hopping modes
#[derive(Copy, Clone, PartialEq, Eq, Debug, Structural)]
pub enum FreqHopMode {
    /// Only the max sending time is considered
    IgnoreMin,
    /// Power off when the minimum sending time has expired and wait until
    /// the maximum sending time before the frequency is hopped
    PowerSave,
    /// Hop as soon as the minimum sending time has expired
    Fast,
    /// Hop as in `Fast`, but give every frequency the same time in total
    FastFcc,
}

/// Tuning Status
#[derive(Copy, Clone, PartialEq, Eq, Debug, Structural)]
pub enum TuningStatus {
    /// Untuned
    Untuned,
    /// Tuning
    Tuning,
    /// Tuned
    Tuned,
}

impl TuningStatus {
    /// The status as it is shown to a user.
    pub open spec fn name(self) -> Seq<char> {
        match self {
            TuningStatus::Untuned => "Untuned"@,
            TuningStatus::Tuning => "Tuning"@,
            TuningStatus::Tuned => "Tuned"@,
        }
    }

    /// Text form of the status.
    pub fn to_string(&self) -> (s: String)
        ensures
            s@ == self.name(),
    {
        match self {
            TuningStatus::Untuned => String::from_str("Untuned"),
            TuningStatus::Tuning => String::from_str("Tuning"),
            TuningStatus::Tuned => String::from_str("Tuned"),
        }
    }
}

/// Memory banks of a Gen2 tag.
#[derive(Copy, Clone, PartialEq, Eq, Debug, Structural)]
pub enum MemoryBank {
    /// EPC Memory bank
    Epc,
    /// Reserved Memory bank
    Reserved,
    /// TID Memory bank
    Tid,
    /// User Memory bank
    User,
}

impl MemoryBank {
    /// The two-bit MemBank field of the Gen2 access commands.
    pub open spec fn spec_code(self) -> u8 {
        match self {
            MemoryBank::Reserved => 0b00,
            MemoryBank::Epc => 0b01,
            MemoryBank::Tid => 0b10,
            MemoryBank::User => 0b11,
        }
    }

    /// The two-bit MemBank field of the Gen2 access commands.
    #[verifier::when_used_as_spec(spec_code)]
    pub fn code(self) -> (c: u8)
        ensures
            c == self.spec_code(),
            c < 4,
    {
        match self {
            MemoryBank::Reserved => 0b00,
            MemoryBank::Epc => 0b01,
            MemoryBank::Tid => 0b10,
            MemoryBank::User => 0b11,
        }
    }
}

/// Listen-Before-Talk configuration.
#[derive(Copy, Clone, Debug, PartialEq, Eq)]
pub enum Lbt {
    /// Enable Listen-Before-Talk
    Enable(LbtCfg),
    /// Disable Listen-Before-Talk (default)
    Disable,
}

} // verus!
