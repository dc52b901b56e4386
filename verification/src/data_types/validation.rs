//! Why a builder refuses to build.

use vstd::prelude::*;
use vstd::string::StringExecFns;

verus! {

/// A rule that a configuration value broke.
#[derive(Copy, Clone, Debug, PartialEq, Eq, Structural)]
pub enum ValidationError {
    /// `tx_output_level` is outside [-19, 0].
    TxOutputLevel,
    /// `rx_sensitivity_level` is outside [-17, 19].
    RxSensitivityLevel,
    /// `max_q` is not greater than `min_q`.
    MaxQNotAboveMinQ,
    /// `max_q` is above 15.
    MaxQTooLarge,
    /// The channel list has more than 53 entries.
    TooManyChannels,
}

impl ValidationError {
    /// The message that names the field and the rule.
    pub open spec fn message(self) -> Seq<char> {
        match self {
            ValidationError::TxOutputLevel => "tx_output_level invalid: see docs for details"@,
            ValidationError::RxSensitivityLevel =>
                "rx_sensitivity_level invalid: see docs for details"@,
            ValidationError::MaxQNotAboveMinQ => "max_q must be greater than min_q"@,
            ValidationError::MaxQTooLarge => "max_q too large: see docs for details"@,
            ValidationError::TooManyChannels => "channel list too long: at most 53 entries"@,
        }
    }

    /// Text form of the error.
    pub fn to_string(&self) -> (s: String)
        ensures
            s@ == self.message(),
    {
        match self {
            ValidationError::TxOutputLevel => String::from_str(
                "tx_output_level invalid: see docs for details",
            ),
            ValidationError::RxSensitivityLevel => String::from_str(
                "rx_sensitivity_level invalid: see docs for details",
            ),
            ValidationError::MaxQNotAboveMinQ => String::from_str(
                "max_q must be greater than min_q",
            ),
            ValidationError::MaxQTooLarge => String::from_str(
                "max_q too large: see docs for details",
            ),
            ValidationError::TooManyChannels => String::from_str(
                "channel list too long: at most 53 entries",
            ),
        }
    }
}

} // verus!
