//! Version numbers of the reader's firmware and hardware.

use crate::error::{Error, Result};
use crate::helpers::proc_err;
use crate::text::{decimal, decimal_string};
use crate::wire;
use core::cmp::Ordering;
use vstd::prelude::*;
use vstd::std_specs::cmp::{PartialOrdSpec, PartialOrdSpecImpl};
use vstd::string::StringExecFns;

verus! {

/// Contains the version numbering for ST Hardware & Software:
/// `major.minor.micro.nano`. Versions are ordered by their major part, then
/// by the minor, the micro and the nano part.
#[derive(Copy, Clone, Debug, PartialEq, Eq, Structural)]
pub struct VersionNum {
    /// Major version
    pub major: u8,
    /// Minor version
    pub minor: u8,
    /// Micro version
    pub micro: u8,
    /// Nano version
    pub nano: u8,
}

impl VersionNum {
    /// The four parts as a tuple.
    pub open spec fn parts(self) -> (int, int, int, int) {
        (self.major as int, self.minor as int, self.micro as int, self.nano as int)
    }

    /// The version as one number, with the four parts as its digits to the
    /// base 256.
    pub open spec fn rank(self) -> int {
        ((self.major * 256 + self.minor) * 256 + self.micro) * 256 + self.nano
    }

    /// `self` comes before `other` in the lexicographic order of the parts.
    pub open spec fn lex_lt(self, other: VersionNum) -> bool {
        ||| self.major < other.major
        ||| self.major == other.major && self.minor < other.minor
        ||| self.major == other.major && self.minor == other.minor && self.micro < other.micro
        ||| self.major == other.major && self.minor == other.minor && self.micro == other.micro
            && self.nano < other.nano
    }

    /// Whether this version is older than `other`.
    pub fn precedes(&self, other: &VersionNum) -> (b: bool)
        ensures
            b == self.lex_lt(*other),
    {
        if self.major != other.major {
            self.major < other.major
        } else if self.minor != other.minor {
            self.minor < other.minor
        } else if self.micro != other.micro {
            self.micro < other.micro
        } else {
            self.nano < other.nano
        }
    }

    /// The text of the version: `v`, then the four parts in decimal with
    /// dots between them.
    pub open spec fn text(self) -> Seq<char> {
        "v"@ + decimal(self.major as nat) + "."@ + decimal(self.minor as nat) + "."@ + decimal(
            self.micro as nat,
        ) + "."@ + decimal(self.nano as nat)
    }

    /// Text form of the version.
    pub fn to_string(&self) -> (s: String)
        ensures
            s@ == self.text(),
    {
        let s = String::from_str("v");
        let s = s.concat(decimal_string(self.major as u32).as_str());
        let s = s.concat(".");
        let s = s.concat(decimal_string(self.minor as u32).as_str());
        let s = s.concat(".");
        let s = s.concat(decimal_string(self.micro as u32).as_str());
        let s = s.concat(".");
        let s = s.concat(decimal_string(self.nano as u32).as_str());
        s
    }

    /// Takes the four parts from the record that the board reports.
    pub fn from(v: wire::Version) -> (r: Self)
        ensures
            r == (VersionNum { major: v.major, minor: v.minor, micro: v.micro, nano: v.nano }),
    {
        VersionNum { major: v.major, minor: v.minor, micro: v.micro, nano: v.nano }
    }
}

/// Where `a` stands relative to `b` in the order of versions.
pub open spec fn version_order(a: VersionNum, b: VersionNum) -> Ordering {
    if a.lex_lt(b) {
        Ordering::Less
    } else if b.lex_lt(a) {
        Ordering::Greater
    } else {
        Ordering::Equal
    }
}

impl PartialOrd for VersionNum {
    fn partial_cmp(&self, other: &Self) -> (r: Option<Ordering>) {
        if self.precedes(other) {
            Some(Ordering::Less)
        } else if other.precedes(self) {
            Some(Ordering::Greater)
        } else {
            Some(Ordering::Equal)
        }
    }
}

impl PartialOrdSpecImpl for VersionNum {
    open spec fn obeys_partial_cmp_spec() -> bool {
        true
    }

    open spec fn partial_cmp_spec(&self, other: &Self) -> Option<Ordering> {
        Some(version_order(*self, *other))
    }
}

/// The order of versions is the lexicographic order of their four parts:
/// `a > b` exactly when `a` has the greater part at the first place where
/// the two differ. It is also the order of their ranks.
pub proof fn lemma_version_order_is_lexicographic(a: VersionNum, b: VersionNum)
    ensures
        (PartialOrdSpec::partial_cmp_spec(&a, &b) == Some(Ordering::Greater)) <==> b.lex_lt(a),
        (PartialOrdSpec::partial_cmp_spec(&a, &b) == Some(Ordering::Less)) <==> a.lex_lt(b),
        (PartialOrdSpec::partial_cmp_spec(&a, &b) == Some(Ordering::Equal)) <==> a == b,
        b.lex_lt(a) <==> a.rank() > b.rank(),
        a == b <==> a.rank() == b.rank(),
{
}

/// The order of versions is a strict total order.
pub proof fn lemma_version_order_is_total(a: VersionNum, b: VersionNum, c: VersionNum)
    ensures
        !a.lex_lt(a),
        a.lex_lt(b) && b.lex_lt(c) ==> a.lex_lt(c),
        a.lex_lt(b) || b.lex_lt(a) || a == b,
        !(a.lex_lt(b) && b.lex_lt(a)),
{
}

/// Contains a version descriptor string
#[derive(Debug)]
pub struct VersionInfo {
    /// Information about version
    pub info: String,
}

impl Clone for VersionInfo {
    fn clone(&self) -> (r: Self)
        ensures
            r.info@ == self.info@,
    {
        VersionInfo { info: self.info.clone() }
    }
}

impl VersionInfo {
    /// Text form of the descriptor: the descriptor itself.
    pub fn to_string(&self) -> (s: String)
        ensures
            s@ == self.info@,
    {
        self.info.clone()
    }
}

/// Lowest firmware version that this library works with.
pub open spec fn spec_lowest_sw_ver() -> VersionNum {
    VersionNum { major: 3, minor: 1, micro: 0, nano: 0 }
}

/// Lowest hardware version that this library works with.
pub open spec fn spec_lowest_hw_ver() -> VersionNum {
    VersionNum { major: 1, minor: 1, micro: 0, nano: 0 }
}

/// Lowest firmware version that this library works with.
#[verifier::when_used_as_spec(spec_lowest_sw_ver)]
pub fn lowest_sw_ver() -> (v: VersionNum)
    ensures
        v == spec_lowest_sw_ver(),
{
    VersionNum { major: 3, minor: 1, micro: 0, nano: 0 }
}

/// Lowest hardware version that this library works with.
#[verifier::when_used_as_spec(spec_lowest_hw_ver)]
pub fn lowest_hw_ver() -> (v: VersionNum)
    ensures
        v == spec_lowest_hw_ver(),
{
    VersionNum { major: 1, minor: 1, micro: 0, nano: 0 }
}

/// Contains version of firmware & software of ST chip
#[derive(Debug)]
pub struct Version {
    /// Firmware version
    pub sw_ver: VersionNum,
    /// Hardware version
    pub hw_ver: VersionNum,
    /// Firmware description
    pub sw_info: VersionInfo,
    /// Hardware description
    pub hw_info: VersionInfo,
}

impl Clone for Version {
    fn clone(&self) -> (r: Self)
        ensures
            r.sw_ver == self.sw_ver,
            r.hw_ver == self.hw_ver,
            r.sw_info.info@ == self.sw_info.info@,
            r.hw_info.info@ == self.hw_info.info@,
    {
        Version {
            sw_ver: self.sw_ver,
            hw_ver: self.hw_ver,
            sw_info: self.sw_info.clone(),
            hw_info: self.hw_info.clone(),
        }
    }
}

impl Version {
    /// First step of reading the version of a board: the two version
    /// numbers out of the chip's answer to the request for the board
    /// version.
    ///
    /// Where the chip reports an error, that error is the result and the
    /// descriptions are not asked for.
    pub fn read_numbers(status: Error, sw_ver: wire::Version, hw_ver: wire::Version) -> (r:
        Result<(VersionNum, VersionNum)>)
        ensures
            status != Error::NoError ==> r == Err::<(VersionNum, VersionNum), Error>(status),
            status == Error::NoError ==> r == Ok::<(VersionNum, VersionNum), Error>(
                (
                    VersionNum {
                        major: sw_ver.major,
                        minor: sw_ver.minor,
                        micro: sw_ver.micro,
                        nano: sw_ver.nano,
                    },
                    VersionNum {
                        major: hw_ver.major,
                        minor: hw_ver.minor,
                        micro: hw_ver.micro,
                        nano: hw_ver.nano,
                    },
                ),
            ),
    {
        match proc_err(status) {
            Err(e) => Err(e),
            Ok(()) => Ok((VersionNum::from(sw_ver), VersionNum::from(hw_ver))),
        }
    }

    /// Second step of reading the version of a board: the version out of
    /// the numbers and of the chip's answer to the request for the board
    /// descriptions.
    pub fn read_info(
        numbers: (VersionNum, VersionNum),
        status: Error,
        sw_info: String,
        hw_info: String,
    ) -> (r: Result<Version>)
        ensures
            status != Error::NoError ==> r is Err && r->Err_0 == status,
            status == Error::NoError ==> r is Ok && r->Ok_0.sw_ver == numbers.0 && r->Ok_0.hw_ver
                == numbers.1 && r->Ok_0.sw_info.info@ == sw_info@ && r->Ok_0.hw_info.info@
                == hw_info@,
    {
        match proc_err(status) {
            Err(e) => Err(e),
            Ok(()) => Ok(
                Version {
                    sw_ver: numbers.0,
                    hw_ver: numbers.1,
                    sw_info: VersionInfo { info: sw_info },
                    hw_info: VersionInfo { info: hw_info },
                },
            ),
        }
    }

    /// Neither the firmware nor the hardware is older than the lowest
    /// version that this library works with.
    pub open spec fn compatible(&self) -> bool {
        !self.sw_ver.lex_lt(lowest_sw_ver()) && !self.hw_ver.lex_lt(lowest_hw_ver())
    }

    /// Tests whether a reader of this version is compatible with the
    /// library.
    pub fn is_compatible(&self) -> (b: bool)
        ensures
            b == self.compatible(),
    {
        !self.sw_ver.precedes(&lowest_sw_ver()) && !self.hw_ver.precedes(&lowest_hw_ver())
    }

    /// The text of the version: both numbers, each with its description.
    pub open spec fn text(&self) -> Seq<char> {
        "SW: "@ + self.sw_ver.text() + ", "@ + self.sw_info.info@ + ". HW: "@
            + self.hw_ver.text() + ", "@ + self.hw_info.info@ + "."@
    }

    /// Text form of the version.
    pub fn to_string(&self) -> (s: String)
        ensures
            s@ == self.text(),
    {
        let s = String::from_str("SW: ");
        let s = s.concat(self.sw_ver.to_string().as_str());
        let s = s.concat(", ");
        let s = s.concat(self.sw_info.info.as_str());
        let s = s.concat(". HW: ");
        let s = s.concat(self.hw_ver.to_string().as_str());
        let s = s.concat(", ");
        let s = s.concat(self.hw_info.info.as_str());
        let s = s.concat(".");
        s
    }
}

} // verus!
