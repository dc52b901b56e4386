//! Configuration values that do not depend on the protocol.

use super::enums::{Antenna, FreqHopMode, Lbt, TuningAlgorithm};
use super::traits::{AsFFI, Builder};
use super::validation::ValidationError;
use crate::wire;
use vstd::prelude::*;

verus! {

/// Lowest transmission output level (dB).
pub const TX_OUTPUT_LEVEL_MIN: i8 = -19;

/// Highest transmission output level (dB).
pub const TX_OUTPUT_LEVEL_MAX: i8 = 0;

/// Lowest receiver sensitivity level (dB).
pub const RX_SENSITIVITY_LEVEL_MIN: i8 = -17;

/// Highest receiver sensitivity level (dB).
pub const RX_SENSITIVITY_LEVEL_MAX: i8 = 19;

/// The settings that a [`TxRxCfg`] holds.
pub struct TxRxCfgView {
    pub tx_output_level: i8,
    pub rx_sensitivity_level: i8,
    pub antenna: Antenna,
    pub alternate_antenna_interval: u16,
}

impl TxRxCfgView {
    /// The first rule that the settings break, if any: the output level is
    /// looked at before the sensitivity.
    pub open spec fn first_error(self) -> Option<ValidationError> {
        if self.tx_output_level > TX_OUTPUT_LEVEL_MAX || self.tx_output_level
            < TX_OUTPUT_LEVEL_MIN {
            Some(ValidationError::TxOutputLevel)
        } else if self.rx_sensitivity_level > RX_SENSITIVITY_LEVEL_MAX
            || self.rx_sensitivity_level < RX_SENSITIVITY_LEVEL_MIN {
            Some(ValidationError::RxSensitivityLevel)
        } else {
            None
        }
    }

    /// Both levels are in range.
    pub open spec fn valid(self) -> bool {
        &&& TX_OUTPUT_LEVEL_MIN <= self.tx_output_level <= TX_OUTPUT_LEVEL_MAX
        &&& RX_SENSITIVITY_LEVEL_MIN <= self.rx_sensitivity_level <= RX_SENSITIVITY_LEVEL_MAX
    }

    /// The settings are valid exactly if they break no rule. The output
    /// level is valid from -19 to 0, both included, and the sensitivity
    /// from -17 to 19.
    pub proof fn lemma_rules(self)
        ensures
            self.valid() <==> self.first_error() is None,
            self.first_error() == Some(ValidationError::TxOutputLevel) <==> !(-19
                <= self.tx_output_level <= 0),
            self.first_error() == Some(ValidationError::RxSensitivityLevel) <==> -19
                <= self.tx_output_level <= 0 && !(-17 <= self.rx_sensitivity_level <= 19),
    {
    }

    /// The record that programs the antenna. The reserved byte is 3.
    pub open spec fn wire_record(self) -> wire::TxRxCfg {
        wire::TxRxCfg {
            tx_output_level: self.tx_output_level,
            rx_sensitivity: self.rx_sensitivity_level,
            used_antenna: self.antenna,
            alternate_antenna_interval: self.alternate_antenna_interval,
            rfu: 3,
        }
    }
}

/// Contains antenna configuration settings. Both levels of a value of this
/// type are in range.
#[derive(Copy, Clone, Debug, PartialEq, Eq)]
pub struct TxRxCfg {
    tx_output_level: i8,
    rx_sensitivity_level: i8,
    antenna: Antenna,
    alternate_antenna_interval: u16,
}

impl View for TxRxCfg {
    type V = TxRxCfgView;

    closed spec fn view(&self) -> TxRxCfgView {
        TxRxCfgView {
            tx_output_level: self.tx_output_level,
            rx_sensitivity_level: self.rx_sensitivity_level,
            antenna: self.antenna,
            alternate_antenna_interval: self.alternate_antenna_interval,
        }
    }
}

impl TxRxCfg {
    #[verifier::type_invariant]
    spec fn in_range(self) -> bool {
        self@.valid()
    }

    /// The value that a builder builds when nothing is set.
    pub closed spec fn spec_default() -> TxRxCfg {
        TxRxCfg {
            tx_output_level: -2i8,
            rx_sensitivity_level: -3i8,
            antenna: Antenna::Antenna1,
            alternate_antenna_interval: 1,
        }
    }

    /// The settings of the default value.
    pub proof fn lemma_default()
        ensures
            TxRxCfg::spec_default()@ == TxRxCfgBuilder::empty().resolved(),
    {
    }

    /// Two values with the same settings are the same value.
    pub proof fn lemma_view_injective(a: TxRxCfg, b: TxRxCfg)
        requires
            a@ == b@,
        ensures
            a == b,
    {
    }
}

impl AsFFI<wire::TxRxCfg> for TxRxCfg {
    fn as_ffi(&self) -> (w: wire::TxRxCfg)
        ensures
            w == self@.wire_record(),
            self@.valid(),
    {
        proof {
            use_type_invariant(self);
        }
        wire::TxRxCfg {
            tx_output_level: self.tx_output_level,
            rx_sensitivity: self.rx_sensitivity_level,
            used_antenna: self.antenna,
            alternate_antenna_interval: self.alternate_antenna_interval,
            rfu: 3,
        }
    }
}

/// Builder for [`TxRxCfg`]. A field that is left unset takes its default.
#[derive(Copy, Clone, Debug)]
pub struct TxRxCfgBuilder {
    pub tx_output_level: Option<i8>,
    pub rx_sensitivity_level: Option<i8>,
    pub antenna: Option<Antenna>,
    pub alternate_antenna_interval: Option<u16>,
}

impl TxRxCfgBuilder {
    /// The builder with no field set.
    pub open spec fn empty() -> TxRxCfgBuilder {
        TxRxCfgBuilder {
            tx_output_level: None,
            rx_sensitivity_level: None,
            antenna: None,
            alternate_antenna_interval: None,
        }
    }

    /// What the builder asks for: every field as it was set, or its default.
    pub open spec fn resolved(self) -> TxRxCfgView {
        TxRxCfgView {
            tx_output_level: match self.tx_output_level {
                Some(value) => value,
                None => -2i8,
            },
            rx_sensitivity_level: match self.rx_sensitivity_level {
                Some(value) => value,
                None => -3i8,
            },
            antenna: match self.antenna {
                Some(value) => value,
                None => Antenna::Antenna1,
            },
            alternate_antenna_interval: match self.alternate_antenna_interval {
                Some(value) => value,
                None => 1u16,
            },
        }
    }

    /// Transmission output level (dB). Valid range [-19 dB..0 dB].
    pub fn tx_output_level(&mut self, value: i8) -> (ret: &mut Self)
        ensures
            *ret == (TxRxCfgBuilder { tx_output_level: Some(value), ..*old(self) }),
            *final(self) == *final(ret),
    {
        self.tx_output_level = Some(value);
        self
    }

    /// Receiver sensitivity level (dB). Valid range [-17 dB..+19 dB].
    pub fn rx_sensitivity_level(&mut self, value: i8) -> (ret: &mut Self)
        ensures
            *ret == (TxRxCfgBuilder { rx_sensitivity_level: Some(value), ..*old(self) }),
            *final(self) == *final(ret),
    {
        self.rx_sensitivity_level = Some(value);
        self
    }

    /// Antenna to be used.
    pub fn antenna(&mut self, value: Antenna) -> (ret: &mut Self)
        ensures
            *ret == (TxRxCfgBuilder { antenna: Some(value), ..*old(self) }),
            *final(self) == *final(ret),
    {
        self.antenna = Some(value);
        self
    }

    /// Time in ms for alternating the antennas when alternating mode is used.
    pub fn alternate_antenna_interval(&mut self, value: u16) -> (ret: &mut Self)
        ensures
            *ret == (TxRxCfgBuilder { alternate_antenna_interval: Some(value), ..*old(self) }),
            *final(self) == *final(ret),
    {
        self.alternate_antenna_interval = Some(value);
        self
    }

    /// Checks both levels against their ranges.
    pub fn validate(&self) -> (r: core::result::Result<(), ValidationError>)
        ensures
            r is Ok <==> self.resolved().valid(),
            r matches Err(e) ==> self.resolved().first_error() == Some(e),
    {
        if let Some(i) = self.tx_output_level {
            if i > TX_OUTPUT_LEVEL_MAX || i < TX_OUTPUT_LEVEL_MIN {
                return Err(ValidationError::TxOutputLevel);
            }
        }
        if let Some(i) = self.rx_sensitivity_level {
            if i > RX_SENSITIVITY_LEVEL_MAX || i < RX_SENSITIVITY_LEVEL_MIN {
                return Err(ValidationError::RxSensitivityLevel);
            }
        }
        Ok(())
    }

    /// Builds the value, or says which level is out of range.
    pub fn build(&self) -> (r: core::result::Result<TxRxCfg, ValidationError>)
        ensures
            r is Ok <==> self.resolved().valid(),
            r matches Ok(cfg) ==> cfg@ == self.resolved(),
            r matches Err(e) ==> self.resolved().first_error() == Some(e),
    {
        match self.validate() {
            Err(e) => Err(e),
            Ok(()) => Ok(
                TxRxCfg {
                    tx_output_level: match self.tx_output_level {
                        Some(value) => value,
                        None => -2,
                    },
                    rx_sensitivity_level: match self.rx_sensitivity_level {
                        Some(value) => value,
                        None => -3,
                    },
                    antenna: match self.antenna {
                        Some(value) => value,
                        None => Antenna::Antenna1,
                    },
                    alternate_antenna_interval: match self.alternate_antenna_interval {
                        Some(value) => value,
                        None => 1,
                    },
                },
            ),
        }
    }
}

impl Default for TxRxCfgBuilder {
    fn default() -> (r: Self)
        ensures
            r == TxRxCfgBuilder::empty(),
    {
        TxRxCfgBuilder {
            tx_output_level: None,
            rx_sensitivity_level: None,
            antenna: None,
            alternate_antenna_interval: None,
        }
    }
}

impl Builder<TxRxCfgBuilder> for TxRxCfg {
    fn builder() -> (r: TxRxCfgBuilder)
        ensures
            r == TxRxCfgBuilder::empty(),
    {
        TxRxCfgBuilder::default()
    }
}

/// Auto-tuning algorithm parameters. This is used during multi-round
/// inventories.
#[derive(Copy, Clone, Debug, PartialEq, Eq)]
pub struct AutoTuning {
    /// Auto-tuning check interval (in inventory rounds)
    pub interval: u16,
    /// Deviation from (I^2+Q^2) to trigger a retuning
    pub level: u8,
    /// Algorithm to use for automatic tuning
    pub algo: TuningAlgorithm,
    /// Do false positive detection check
    pub false_positive_detect: bool,
}

/// Builder for [`AutoTuning`]. A field that is left unset takes its default.
#[derive(Copy, Clone, Debug)]
pub struct AutoTuningBuilder {
    pub interval: Option<u16>,
    pub level: Option<u8>,
    pub algo: Option<TuningAlgorithm>,
    pub false_positive_detect: Option<bool>,
}

impl AutoTuningBuilder {
    /// The builder with no field set.
    pub open spec fn empty() -> AutoTuningBuilder {
        AutoTuningBuilder {
            interval: None,
            level: None,
            algo: None,
            false_positive_detect: None,
        }
    }

    /// What the builder builds: every field as it was set, or its default.
    pub open spec fn resolved(self) -> AutoTuning {
        AutoTuning {
            interval: match self.interval {
                Some(value) => value,
                None => 7u16,
            },
            level: match self.level {
                Some(value) => value,
                None => 20u8,
            },
            algo: match self.algo {
                Some(value) => value,
                None => TuningAlgorithm::Fast,
            },
            false_positive_detect: match self.false_positive_detect {
                Some(value) => value,
                None => true,
            },
        }
    }

    /// Auto-tuning check interval (in inventory rounds)
    pub fn interval(&mut self, value: u16) -> (ret: &mut Self)
        ensures
            *ret == (AutoTuningBuilder { interval: Some(value), ..*old(self) }),
            *final(self) == *final(ret),
    {
        self.interval = Some(value);
        self
    }

    /// Deviation from (I^2+Q^2) to trigger a retuning
    pub fn level(&mut self, value: u8) -> (ret: &mut Self)
        ensures
            *ret == (AutoTuningBuilder { level: Some(value), ..*old(self) }),
            *final(self) == *final(ret),
    {
        self.level = Some(value);
        self
    }

    /// Algorithm to use for automatic tuning
    pub fn algo(&mut self, value: TuningAlgorithm) -> (ret: &mut Self)
        ensures
            *ret == (AutoTuningBuilder { algo: Some(value), ..*old(self) }),
            *final(self) == *final(ret),
    {
        self.algo = Some(value);
        self
    }

    /// Do false positive detection check
    pub fn false_positive_detect(&mut self, value: bool) -> (ret: &mut Self)
        ensures
            *ret == (AutoTuningBuilder { false_positive_detect: Some(value), ..*old(self) }),
            *final(self) == *final(ret),
    {
        self.false_positive_detect = Some(value);
        self
    }

    /// Builds the value. Nothing is checked, so this never fails.
    pub fn build(&self) -> (r: core::result::Result<AutoTuning, ValidationError>)
        ensures
            r == Ok::<AutoTuning, ValidationError>(self.resolved()),
    {
        Ok(AutoTuning {
            interval: match self.interval {
                Some(value) => value,
                None => 7,
            },
            level: match self.level {
                Some(value) => value,
                None => 20,
            },
            algo: match self.algo {
                Some(value) => value,
                None => TuningAlgorithm::Fast,
            },
            false_positive_detect: match self.false_positive_detect {
                Some(value) => value,
                None => true,
            },
        })
    }
}

impl Default for AutoTuningBuilder {
    fn default() -> (r: Self)
        ensures
            r == AutoTuningBuilder::empty(),
    {
        AutoTuningBuilder {
            interval: None,
            level: None,
            algo: None,
            false_positive_detect: None,
        }
    }
}

impl Builder<AutoTuningBuilder> for AutoTuning {
    fn builder() -> (r: AutoTuningBuilder)
        ensures
            r == AutoTuningBuilder::empty(),
    {
        AutoTuningBuilder::default()
    }
}

impl AutoTuning {
    /// The record that programs automatic tuning.
    pub open spec fn wire_record(self) -> wire::AutoTuning {
        wire::AutoTuning {
            interval: self.interval,
            level: self.level,
            algorithm: self.algo,
            false_positive_detection: self.false_positive_detect,
        }
    }
}

impl AsFFI<wire::AutoTuning> for AutoTuning {
    fn as_ffi(&self) -> (w: wire::AutoTuning)
        ensures
            w == self.wire_record(),
    {
        wire::AutoTuning {
            interval: self.interval,
            level: self.level,
            algorithm: self.algo,
            false_positive_detection: self.false_positive_detect,
        }
    }
}

/// Automatic receiver sensitivity setting. Currently this is only a
/// boolean: the parameters of the algorithm are left at the firmware's
/// defaults.
#[derive(Copy, Clone, Debug, PartialEq, Eq)]
pub struct AutoRxSensitivity {
    pub enable: bool,
}

impl AutoRxSensitivity {
    /// Switches the algorithm on or off.
    pub fn from(enable: bool) -> (r: Self)
        ensures
            r.enable == enable,
    {
        Self { enable }
    }
}

impl AutoRxSensitivity {
    /// The record that programs the receiver sensitivity: the firmware's
    /// default record with the algorithm switched as asked.
    pub open spec fn wire_record(self) -> wire::AdaptiveSensitivity {
        wire::AdaptiveSensitivity {
            adaptive_rx: self.enable,
            ..wire::AdaptiveSensitivity::spec_default()
        }
    }
}

impl AsFFI<wire::AdaptiveSensitivity> for AutoRxSensitivity {
    fn as_ffi(&self) -> (w: wire::AdaptiveSensitivity)
        ensures
            w == self.wire_record(),
    {
        let mut w = wire::AdaptiveSensitivity::default();
        w.adaptive_rx = self.enable;
        w
    }
}

/// Automatic transmission strength setting. Currently this is only a
/// boolean: the parameters of the algorithm are left at the firmware's
/// defaults.
#[derive(Copy, Clone, Debug, PartialEq, Eq)]
pub struct AutoTxStrength {
    pub enable: bool,
}

impl AutoTxStrength {
    /// Switches the algorithm on or off.
    pub fn from(enable: bool) -> (r: Self)
        ensures
            r.enable == enable,
    {
        Self { enable }
    }
}

impl AutoTxStrength {
    /// The record that programs the transmission strength: the firmware's
    /// default record with the algorithm switched as asked.
    pub open spec fn wire_record(self) -> wire::AdaptiveOutputPower {
        wire::AdaptiveOutputPower {
            adaptive_tx: self.enable,
            ..wire::AdaptiveOutputPower::spec_default()
        }
    }
}

impl AsFFI<wire::AdaptiveOutputPower> for AutoTxStrength {
    fn as_ffi(&self) -> (w: wire::AdaptiveOutputPower)
        ensures
            w == self.wire_record(),
    {
        let mut w = wire::AdaptiveOutputPower::default();
        w.adaptive_tx = self.enable;
        w
    }
}

/// Configuration settings for Listen-Before-Talk. See [`Lbt`] for details.
#[derive(Copy, Clone, Debug, PartialEq, Eq)]
pub struct LbtCfg {
    /// Length of listening period
    pub listening_time: u16,
    /// Idle time for LBT
    pub idle_time: u16,
    /// RSSI threshold value
    pub rssi_log_threshold: u8,
}

/// Builder for [`LbtCfg`]. A field that is left unset takes its default.
#[derive(Copy, Clone, Debug)]
pub struct LbtCfgBuilder {
    pub listening_time: Option<u16>,
    pub idle_time: Option<u16>,
    pub rssi_log_threshold: Option<u8>,
}

impl LbtCfgBuilder {
    /// The builder with no field set.
    pub open spec fn empty() -> LbtCfgBuilder {
        LbtCfgBuilder {
            listening_time: None,
            idle_time: None,
            rssi_log_threshold: None,
        }
    }

    /// What the builder builds: every field as it was set, or its default.
    pub open spec fn resolved(self) -> LbtCfg {
        LbtCfg {
            listening_time: match self.listening_time {
                Some(value) => value,
                None => 1u16,
            },
            idle_time: match self.idle_time {
                Some(value) => value,
                None => 0u16,
            },
            rssi_log_threshold: match self.rssi_log_threshold {
                Some(value) => value,
                None => 31u8,
            },
        }
    }

    /// Length of listening period
    pub fn listening_time(&mut self, value: u16) -> (ret: &mut Self)
        ensures
            *ret == (LbtCfgBuilder { listening_time: Some(value), ..*old(self) }),
            *final(self) == *final(ret),
    {
        self.listening_time = Some(value);
        self
    }

    /// Idle time for LBT
    pub fn idle_time(&mut self, value: u16) -> (ret: &mut Self)
        ensures
            *ret == (LbtCfgBuilder { idle_time: Some(value), ..*old(self) }),
            *final(self) == *final(ret),
    {
        self.idle_time = Some(value);
        self
    }

    /// RSSI threshold value
    pub fn rssi_log_threshold(&mut self, value: u8) -> (ret: &mut Self)
        ensures
            *ret == (LbtCfgBuilder { rssi_log_threshold: Some(value), ..*old(self) }),
            *final(self) == *final(ret),
    {
        self.rssi_log_threshold = Some(value);
        self
    }

    /// Builds the value. Nothing is checked, so this never fails.
    pub fn build(&self) -> (r: core::result::Result<LbtCfg, ValidationError>)
        ensures
            r == Ok::<LbtCfg, ValidationError>(self.resolved()),
    {
        Ok(LbtCfg {
            listening_time: match self.listening_time {
                Some(value) => value,
                None => 1,
            },
            idle_time: match self.idle_time {
                Some(value) => value,
                None => 0,
            },
            rssi_log_threshold: match self.rssi_log_threshold {
                Some(value) => value,
                None => 31,
            },
        })
    }
}

impl Default for LbtCfgBuilder {
    fn default() -> (r: Self)
        ensures
            r == LbtCfgBuilder::empty(),
    {
        LbtCfgBuilder {
            listening_time: None,
            idle_time: None,
            rssi_log_threshold: None,
        }
    }
}

impl Builder<LbtCfgBuilder> for LbtCfg {
    fn builder() -> (r: LbtCfgBuilder)
        ensures
            r == LbtCfgBuilder::empty(),
    {
        LbtCfgBuilder::default()
    }
}

impl Lbt {
    /// The record that programs Listen-Before-Talk. Enabled, it carries the
    /// three settings; disabled, it is the firmware's default record, which
    /// skips the check.
    pub open spec fn wire_record(self) -> wire::FreqLbt {
        match self {
            Lbt::Enable(cfg) => wire::FreqLbt {
                listening_time: cfg.listening_time,
                idle_time: cfg.idle_time,
                rssi_log_threshold: cfg.rssi_log_threshold,
                skip_lbt_check: false,
            },
            Lbt::Disable => wire::FreqLbt {
                skip_lbt_check: true,
                ..wire::FreqLbt::spec_default()
            },
        }
    }
}

impl AsFFI<wire::FreqLbt> for Lbt {
    fn as_ffi(&self) -> (w: wire::FreqLbt)
        ensures
            w == self.wire_record(),
    {
        match self {
            Lbt::Enable(cfg) => wire::FreqLbt {
                listening_time: cfg.listening_time,
                idle_time: cfg.idle_time,
                rssi_log_threshold: cfg.rssi_log_threshold,
                skip_lbt_check: false,
            },
            Lbt::Disable => {
                let mut w = wire::FreqLbt::default();
                w.skip_lbt_check = true;
                w
            },
        }
    }
}

/// Frequency hopping configuration.
#[derive(Copy, Clone, Debug, PartialEq, Eq)]
pub struct FreqHopCfg {
    /// Max sending time before frequency hopping is performed.
    pub max_sending_time: u16,
    /// Minimum sending time before frequency hopping is performed.
    pub min_sending_time: u16,
    /// Hopping Mode
    pub mode: FreqHopMode,
}

/// Builder for [`FreqHopCfg`]. A field that is left unset takes its default.
#[derive(Copy, Clone, Debug)]
pub struct FreqHopCfgBuilder {
    pub max_sending_time: Option<u16>,
    pub min_sending_time: Option<u16>,
    pub mode: Option<FreqHopMode>,
}

impl FreqHopCfgBuilder {
    /// The builder with no field set.
    pub open spec fn empty() -> FreqHopCfgBuilder {
        FreqHopCfgBuilder {
            max_sending_time: None,
            min_sending_time: None,
            mode: None,
        }
    }

    /// What the builder builds: every field as it was set, or its default.
    pub open spec fn resolved(self) -> FreqHopCfg {
        FreqHopCfg {
            max_sending_time: match self.max_sending_time {
                Some(value) => value,
                None => 400u16,
            },
            min_sending_time: match self.min_sending_time {
                Some(value) => value,
                None => 400u16,
            },
            mode: match self.mode {
                Some(value) => value,
                None => FreqHopMode::IgnoreMin,
            },
        }
    }

    /// Max sending time before frequency hopping is performed.
    pub fn max_sending_time(&mut self, value: u16) -> (ret: &mut Self)
        ensures
            *ret == (FreqHopCfgBuilder { max_sending_time: Some(value), ..*old(self) }),
            *final(self) == *final(ret),
    {
        self.max_sending_time = Some(value);
        self
    }

    /// Minimum sending time before frequency hopping is performed.
    pub fn min_sending_time(&mut self, value: u16) -> (ret: &mut Self)
        ensures
            *ret == (FreqHopCfgBuilder { min_sending_time: Some(value), ..*old(self) }),
            *final(self) == *final(ret),
    {
        self.min_sending_time = Some(value);
        self
    }

    /// Hopping Mode
    pub fn mode(&mut self, value: FreqHopMode) -> (ret: &mut Self)
        ensures
            *ret == (FreqHopCfgBuilder { mode: Some(value), ..*old(self) }),
            *final(self) == *final(ret),
    {
        self.mode = Some(value);
        self
    }

    /// Builds the value. Nothing is checked, so this never fails.
    pub fn build(&self) -> (r: core::result::Result<FreqHopCfg, ValidationError>)
        ensures
            r == Ok::<FreqHopCfg, ValidationError>(self.resolved()),
    {
        Ok(FreqHopCfg {
            max_sending_time: match self.max_sending_time {
                Some(value) => value,
                None => 400,
            },
            min_sending_time: match self.min_sending_time {
                Some(value) => value,
                None => 400,
            },
            mode: match self.mode {
                Some(value) => value,
                None => FreqHopMode::IgnoreMin,
            },
        })
    }
}

impl Default for FreqHopCfgBuilder {
    fn default() -> (r: Self)
        ensures
            r == FreqHopCfgBuilder::empty(),
    {
        FreqHopCfgBuilder {
            max_sending_time: None,
            min_sending_time: None,
            mode: None,
        }
    }
}

impl Builder<FreqHopCfgBuilder> for FreqHopCfg {
    fn builder() -> (r: FreqHopCfgBuilder)
        ensures
            r == FreqHopCfgBuilder::empty(),
    {
        FreqHopCfgBuilder::default()
    }
}

impl FreqHopCfg {
    /// The record that programs frequency hopping. The reserved byte is
    /// left at the firmware's default.
    pub open spec fn wire_record(self) -> wire::FreqHop {
        wire::FreqHop {
            max_sending_time: self.max_sending_time,
            min_sending_time: self.min_sending_time,
            mode: self.mode,
            ..wire::FreqHop::spec_default()
        }
    }
}

impl AsFFI<wire::FreqHop> for FreqHopCfg {
    fn as_ffi(&self) -> (w: wire::FreqHop)
        ensures
            w == self.wire_record(),
    {
        let mut w = wire::FreqHop::default();
        w.max_sending_time = self.max_sending_time;
        w.min_sending_time = self.min_sending_time;
        w.mode = self.mode;
        w
    }
}

} // verus!
