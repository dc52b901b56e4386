//! Configuration values of the Gen2 protocol.

use super::gen2_enums::{
    Gen2AdaptiveQ, Gen2Blf, Gen2Coding, Gen2QueryTarget, Gen2Session, Gen2Tari,
};
use crate::data_types::channel::{ChannelItem, ChannelListCfg};
use crate::data_types::config::{
    AutoRxSensitivity, AutoTuning, AutoTuningBuilder, AutoTxStrength, FreqHopCfg,
    FreqHopCfgBuilder, TxRxCfg, TxRxCfgBuilder, TxRxCfgView,
};
use crate::data_types::enums::{Lbt, Profile, QuerySel};
use crate::data_types::traits::{AsFFI, Builder};
use crate::data_types::validation::ValidationError;
use crate::helpers::profile_table;
use crate::wire;
use crate::wire::GEN2_MAXQ;
use vstd::prelude::*;

verus! {

/// The settings that a [`Gen2AdaptiveQCfg`] holds.
pub struct Gen2AdaptiveQCfgView {
    pub start_q: u8,
    pub min_q: u8,
    pub max_q: u8,
    pub adjust_nic: bool,
    pub single_adjust: bool,
    pub use_ceil_floor: bool,
    pub reset_after_round: bool,
}

impl Gen2AdaptiveQCfgView {
    /// The first rule that the settings break, if any: that the maximum is
    /// above the minimum is looked at before the ceiling.
    pub open spec fn first_error(self) -> Option<ValidationError> {
        if self.max_q <= self.min_q {
            Some(ValidationError::MaxQNotAboveMinQ)
        } else if self.max_q > GEN2_MAXQ {
            Some(ValidationError::MaxQTooLarge)
        } else {
            None
        }
    }

    /// The maximum is above the minimum and not above the firmware's
    /// ceiling.
    pub open spec fn valid(self) -> bool {
        self.min_q < self.max_q <= GEN2_MAXQ
    }

    /// The settings are valid exactly if they break no rule: a maximum
    /// that is not above the minimum is refused, and so is one above 15.
    pub proof fn lemma_rules(self)
        ensures
            self.valid() <==> self.first_error() is None,
            self.max_q <= self.min_q ==> self.first_error() == Some(
                ValidationError::MaxQNotAboveMinQ,
            ),
            self.max_q > 15 ==> self.first_error() is Some,
            self.min_q < self.max_q <= 15 ==> self.first_error() is None,
    {
    }
}

/// AdaptiveQ Algorithm configuration. This contains parameters for
/// determining the Q value automatically. In a value of this type the
/// maximum Q is above the minimum Q and at most 15.
#[derive(Copy, Clone, Debug, PartialEq, Eq)]
pub struct Gen2AdaptiveQCfg {
    start_q: u8,
    min_q: u8,
    max_q: u8,
    adjust_nic: bool,
    single_adjust: bool,
    use_ceil_floor: bool,
    reset_after_round: bool,
}

impl View for Gen2AdaptiveQCfg {
    type V = Gen2AdaptiveQCfgView;

    closed spec fn view(&self) -> Gen2AdaptiveQCfgView {
        Gen2AdaptiveQCfgView {
            start_q: self.start_q,
            min_q: self.min_q,
            max_q: self.max_q,
            adjust_nic: self.adjust_nic,
            single_adjust: self.single_adjust,
            use_ceil_floor: self.use_ceil_floor,
            reset_after_round: self.reset_after_round,
        }
    }
}

impl Gen2AdaptiveQCfg {
    #[verifier::type_invariant]
    spec fn in_range(self) -> bool {
        self@.valid()
    }

    /// The value that a builder builds when nothing is set.
    pub closed spec fn spec_default() -> Gen2AdaptiveQCfg {
        Gen2AdaptiveQCfg {
            start_q: 6,
            min_q: 2,
            max_q: GEN2_MAXQ,
            adjust_nic: false,
            single_adjust: false,
            use_ceil_floor: false,
            reset_after_round: false,
        }
    }

    /// The settings of the default value.
    pub proof fn lemma_default()
        ensures
            Gen2AdaptiveQCfg::spec_default()@ == Gen2AdaptiveQCfgBuilder::empty().resolved(),
    {
    }

    /// Two values with the same settings are the same value.
    pub proof fn lemma_view_injective(a: Gen2AdaptiveQCfg, b: Gen2AdaptiveQCfg)
        requires
            a@ == b@,
        ensures
            a == b,
    {
    }

    /// The value that a builder builds when nothing is set.
    pub fn default_cfg() -> (r: Self)
        ensures
            r == Gen2AdaptiveQCfg::spec_default(),
    {
        Gen2AdaptiveQCfg {
            start_q: 6,
            min_q: 2,
            max_q: GEN2_MAXQ,
            adjust_nic: false,
            single_adjust: false,
            use_ceil_floor: false,
            reset_after_round: false,
        }
    }
}

impl Gen2AdaptiveQ {
    /// The anti-collision record that the setting becomes.
    ///
    /// Enabled, the record carries the three Q values and the four switches
    /// of the algorithm. Disabled, it carries the manual Q as the starting Q.
    /// Whatever else the record holds is left at the firmware's default.
    pub open spec fn wire_record(self) -> wire::Gen2Anticollision {
        match self {
            Gen2AdaptiveQ::Enable(conf) => wire::Gen2Anticollision {
                adaptive_q: true,
                start_q: conf@.start_q,
                min_q: conf@.min_q,
                max_q: conf@.max_q,
                options: wire::AdaptiveQOptions {
                    use_query_adjust_nic: conf@.adjust_nic,
                    single_adjust: conf@.single_adjust,
                    use_ceil_floor: conf@.use_ceil_floor,
                    reset_q_after_round: conf@.reset_after_round,
                },
                ..wire::Gen2Anticollision::spec_default()
            },
            Gen2AdaptiveQ::Disable(q) => wire::Gen2Anticollision {
                adaptive_q: false,
                start_q: q,
                ..wire::Gen2Anticollision::spec_default()
            },
        }
    }
}

impl AsFFI<wire::Gen2Anticollision> for Gen2AdaptiveQ {
    fn as_ffi(&self) -> (w: wire::Gen2Anticollision)
        ensures
            w == self.wire_record(),
            self matches Gen2AdaptiveQ::Enable(_) ==> w.min_q < w.max_q <= GEN2_MAXQ,
    {
        match self {
            Gen2AdaptiveQ::Enable(conf) => {
                proof {
                    use_type_invariant(conf);
                }
                let mut w = wire::Gen2Anticollision::default();
                w.adaptive_q = true;
                w.start_q = conf.start_q;
                w.min_q = conf.min_q;
                w.max_q = conf.max_q;
                w.options = wire::AdaptiveQOptions {
                    use_query_adjust_nic: conf.adjust_nic,
                    single_adjust: conf.single_adjust,
                    use_ceil_floor: conf.use_ceil_floor,
                    reset_q_after_round: conf.reset_after_round,
                };
                w
            },
            Gen2AdaptiveQ::Disable(q) => {
                let mut w = wire::Gen2Anticollision::default();
                w.adaptive_q = false;
                w.start_q = *q;
                w
            },
        }
    }
}

/// Builder for [`Gen2AdaptiveQCfg`]. A field that is left unset takes its default.
#[derive(Copy, Clone, Debug)]
pub struct Gen2AdaptiveQCfgBuilder {
    pub start_q: Option<u8>,
    pub min_q: Option<u8>,
    pub max_q: Option<u8>,
    pub adjust_nic: Option<bool>,
    pub single_adjust: Option<bool>,
    pub use_ceil_floor: Option<bool>,
    pub reset_after_round: Option<bool>,
}

impl Gen2AdaptiveQCfgBuilder {
    /// The builder with no field set.
    pub open spec fn empty() -> Gen2AdaptiveQCfgBuilder {
        Gen2AdaptiveQCfgBuilder {
            start_q: None,
            min_q: None,
            max_q: None,
            adjust_nic: None,
            single_adjust: None,
            use_ceil_floor: None,
            reset_after_round: None,
        }
    }

    /// What the builder asks for: every field as it was set, or its default.
    pub open spec fn resolved(self) -> Gen2AdaptiveQCfgView {
        Gen2AdaptiveQCfgView {
            start_q: match self.start_q {
                Some(value) => value,
                None => 6u8,
            },
            min_q: match self.min_q {
                Some(value) => value,
                None => 2u8,
            },
            max_q: match self.max_q {
                Some(value) => value,
                None => GEN2_MAXQ,
            },
            adjust_nic: match self.adjust_nic {
                Some(value) => value,
                None => false,
            },
            single_adjust: match self.single_adjust {
                Some(value) => value,
                None => false,
            },
            use_ceil_floor: match self.use_ceil_floor {
                Some(value) => value,
                None => false,
            },
            reset_after_round: match self.reset_after_round {
                Some(value) => value,
                None => false,
            },
        }
    }

    /// Q Starting value
    pub fn start_q(&mut self, value: u8) -> (ret: &mut Self)
        ensures
            *ret == (Gen2AdaptiveQCfgBuilder { start_q: Some(value), ..*old(self) }),
            *final(self) == *final(ret),
    {
        self.start_q = Some(value);
        self
    }

    /// Minimum Q Value
    pub fn min_q(&mut self, value: u8) -> (ret: &mut Self)
        ensures
            *ret == (Gen2AdaptiveQCfgBuilder { min_q: Some(value), ..*old(self) }),
            *final(self) == *final(ret),
    {
        self.min_q = Some(value);
        self
    }

    /// Maximum Q Value (max 15)
    pub fn max_q(&mut self, value: u8) -> (ret: &mut Self)
        ensures
            *ret == (Gen2AdaptiveQCfgBuilder { max_q: Some(value), ..*old(self) }),
            *final(self) == *final(ret),
    {
        self.max_q = Some(value);
        self
    }

    /// Q Algorithm option
    pub fn adjust_nic(&mut self, value: bool) -> (ret: &mut Self)
        ensures
            *ret == (Gen2AdaptiveQCfgBuilder { adjust_nic: Some(value), ..*old(self) }),
            *final(self) == *final(ret),
    {
        self.adjust_nic = Some(value);
        self
    }

    /// Q Algorithm option
    pub fn single_adjust(&mut self, value: bool) -> (ret: &mut Self)
        ensures
            *ret == (Gen2AdaptiveQCfgBuilder { single_adjust: Some(value), ..*old(self) }),
            *final(self) == *final(ret),
    {
        self.single_adjust = Some(value);
        self
    }

    /// Q Algorithm option
    pub fn use_ceil_floor(&mut self, value: bool) -> (ret: &mut Self)
        ensures
            *ret == (Gen2AdaptiveQCfgBuilder { use_ceil_floor: Some(value), ..*old(self) }),
            *final(self) == *final(ret),
    {
        self.use_ceil_floor = Some(value);
        self
    }

    /// Q Algorithm option
    pub fn reset_after_round(&mut self, value: bool) -> (ret: &mut Self)
        ensures
            *ret == (Gen2AdaptiveQCfgBuilder { reset_after_round: Some(value), ..*old(self) }),
            *final(self) == *final(ret),
    {
        self.reset_after_round = Some(value);
        self
    }

    /// Validates the configuration by ensuring that the minimum and the
    /// maximum Q that it asks for make sense.
    pub fn validate(&self) -> (r: core::result::Result<(), ValidationError>)
        ensures
            r is Ok <==> self.resolved().valid(),
            r matches Err(e) ==> self.resolved().first_error() == Some(e),
    {
        let max = match self.max_q {
            Some(value) => value,
            None => GEN2_MAXQ,
        };
        let min = match self.min_q {
            Some(value) => value,
            None => 2,
        };
        if max <= min {
            return Err(ValidationError::MaxQNotAboveMinQ);
        }
        if max > GEN2_MAXQ {
            return Err(ValidationError::MaxQTooLarge);
        }
        Ok(())
    }

    /// Builds the value, or says which rule the Q values break.
    pub fn build(&self) -> (r: core::result::Result<Gen2AdaptiveQCfg, ValidationError>)
        ensures
            r is Ok <==> self.resolved().valid(),
            r matches Ok(cfg) ==> cfg@ == self.resolved(),
            r matches Err(e) ==> self.resolved().first_error() == Some(e),
    {
        match self.validate() {
            Err(e) => Err(e),
            Ok(()) => Ok(
                Gen2AdaptiveQCfg {
                    start_q: match self.start_q {
                        Some(value) => value,
                        None => 6,
                    },
                    min_q: match self.min_q {
                        Some(value) => value,
                        None => 2,
                    },
                    max_q: match self.max_q {
                        Some(value) => value,
                        None => GEN2_MAXQ,
                    },
                    adjust_nic: match self.adjust_nic {
                        Some(value) => value,
                        None => false,
                    },
                    single_adjust: match self.single_adjust {
                        Some(value) => value,
                        None => false,
                    },
                    use_ceil_floor: match self.use_ceil_floor {
                        Some(value) => value,
                        None => false,
                    },
                    reset_after_round: match self.reset_after_round {
                        Some(value) => value,
                        None => false,
                    },
                },
            ),
        }
    }
}

impl Default for Gen2AdaptiveQCfgBuilder {
    fn default() -> (r: Self)
        ensures
            r == Gen2AdaptiveQCfgBuilder::empty(),
    {
        Gen2AdaptiveQCfgBuilder {
            start_q: None,
            min_q: None,
            max_q: None,
            adjust_nic: None,
            single_adjust: None,
            use_ceil_floor: None,
            reset_after_round: None,
        }
    }
}

impl Builder<Gen2AdaptiveQCfgBuilder> for Gen2AdaptiveQCfg {
    fn builder() -> (r: Gen2AdaptiveQCfgBuilder)
        ensures
            r == Gen2AdaptiveQCfgBuilder::empty(),
    {
        Gen2AdaptiveQCfgBuilder::default()
    }
}

/// Options regarding Gen2 inventory rounds. This is part of
/// [`Gen2InventoryCfg`].
#[derive(Copy, Clone, Debug, PartialEq, Eq)]
pub struct Gen2InventoryOptions {
    /// Fast Inventory enabling. If set to false, normal inventory rounds
    /// will be performed.
    pub fast: bool,
    /// Automatic Acknowledgement enabling. If set to false, inventory rounds
    /// will be triggered by the firmware, otherwise the commands will be
    /// sent automatically.
    pub auto_ack: bool,
    /// Enable reading TIDs during inventory rounds
    pub read_tid: bool,
}

/// Builder for [`Gen2InventoryOptions`]. A field that is left unset takes its default.
#[derive(Copy, Clone, Debug)]
pub struct Gen2InventoryOptionsBuilder {
    pub fast: Option<bool>,
    pub auto_ack: Option<bool>,
    pub read_tid: Option<bool>,
}

impl Gen2InventoryOptionsBuilder {
    /// The builder with no field set.
    pub open spec fn empty() -> Gen2InventoryOptionsBuilder {
        Gen2InventoryOptionsBuilder {
            fast: None,
            auto_ack: None,
            read_tid: None,
        }
    }

    /// What the builder builds: every field as it was set, or its default.
    pub open spec fn resolved(self) -> Gen2InventoryOptions {
        Gen2InventoryOptions {
            fast: match self.fast {
                Some(value) => value,
                None => true,
            },
            auto_ack: match self.auto_ack {
                Some(value) => value,
                None => true,
            },
            read_tid: match self.read_tid {
                Some(value) => value,
                None => true,
            },
        }
    }

    /// Fast Inventory enabling. If set to false, normal inventory rounds
    /// will be performed.
    pub fn fast(&mut self, value: bool) -> (ret: &mut Self)
        ensures
            *ret == (Gen2InventoryOptionsBuilder { fast: Some(value), ..*old(self) }),
            *final(self) == *final(ret),
    {
        self.fast = Some(value);
        self
    }

    /// Automatic Acknowledgement enabling. If set to false, inventory rounds
    /// will be triggered by the firmware, otherwise the commands will be
    /// sent automatically.
    pub fn auto_ack(&mut self, value: bool) -> (ret: &mut Self)
        ensures
            *ret == (Gen2InventoryOptionsBuilder { auto_ack: Some(value), ..*old(self) }),
            *final(self) == *final(ret),
    {
        self.auto_ack = Some(value);
        self
    }

    /// Enable reading TIDs during inventory rounds
    pub fn read_tid(&mut self, value: bool) -> (ret: &mut Self)
        ensures
            *ret == (Gen2InventoryOptionsBuilder { read_tid: Some(value), ..*old(self) }),
            *final(self) == *final(ret),
    {
        self.read_tid = Some(value);
        self
    }

    /// Builds the value. Nothing is checked, so this never fails.
    pub fn build(&self) -> (r: core::result::Result<Gen2InventoryOptions, ValidationError>)
        ensures
            r == Ok::<Gen2InventoryOptions, ValidationError>(self.resolved()),
    {
        Ok(Gen2InventoryOptions {
            fast: match self.fast {
                Some(value) => value,
                None => true,
            },
            auto_ack: match self.auto_ack {
                Some(value) => value,
                None => true,
            },
            read_tid: match self.read_tid {
                Some(value) => value,
                None => true,
            },
        })
    }
}

impl Default for Gen2InventoryOptionsBuilder {
    fn default() -> (r: Self)
        ensures
            r == Gen2InventoryOptionsBuilder::empty(),
    {
        Gen2InventoryOptionsBuilder {
            fast: None,
            auto_ack: None,
            read_tid: None,
        }
    }
}

impl Builder<Gen2InventoryOptionsBuilder> for Gen2InventoryOptions {
    fn builder() -> (r: Gen2InventoryOptionsBuilder)
        ensures
            r == Gen2InventoryOptionsBuilder::empty(),
    {
        Gen2InventoryOptionsBuilder::default()
    }
}

impl Gen2InventoryOptions {
    /// The record that programs the options of inventory rounds.
    pub open spec fn wire_record(self) -> wire::Gen2InventoryOption {
        wire::Gen2InventoryOption {
            fast: self.fast,
            auto_ack: self.auto_ack,
            read_tid: self.read_tid,
        }
    }
}

impl AsFFI<wire::Gen2InventoryOption> for Gen2InventoryOptions {
    fn as_ffi(&self) -> (w: wire::Gen2InventoryOption)
        ensures
            w == self.wire_record(),
    {
        wire::Gen2InventoryOption { fast: self.fast, auto_ack: self.auto_ack, read_tid: self.read_tid }
    }
}

/// Gen2 Query parameters. These are used by the firmware during Query
/// events (all data exchanges between reader and tag require Query events).
#[derive(Copy, Clone, Debug, PartialEq, Eq)]
pub struct Gen2QueryParams {
    /// QUERY command Sel field
    pub sel: QuerySel,
    /// QUERY session
    pub session: Gen2Session,
    /// QUERY target field
    pub target: Gen2QueryTarget,
    /// Automatically change target between A and B
    pub toggle_target: bool,
    /// If set to true and the target shall be toggled in inventory, an
    /// additional inventory round before the target is toggled will be
    /// executed. This gives weak transponders an additional chance to reply.
    pub target_depletion_mode: bool,
}

/// Builder for [`Gen2QueryParams`]. A field that is left unset takes its default.
#[derive(Copy, Clone, Debug)]
pub struct Gen2QueryParamsBuilder {
    pub sel: Option<QuerySel>,
    pub session: Option<Gen2Session>,
    pub target: Option<Gen2QueryTarget>,
    pub toggle_target: Option<bool>,
    pub target_depletion_mode: Option<bool>,
}

impl Gen2QueryParamsBuilder {
    /// The builder with no field set.
    pub open spec fn empty() -> Gen2QueryParamsBuilder {
        Gen2QueryParamsBuilder {
            sel: None,
            session: None,
            target: None,
            toggle_target: None,
            target_depletion_mode: None,
        }
    }

    /// What the builder builds: every field as it was set, or its default.
    pub open spec fn resolved(self) -> Gen2QueryParams {
        Gen2QueryParams {
            sel: match self.sel {
                Some(value) => value,
                None => QuerySel::All,
            },
            session: match self.session {
                Some(value) => value,
                None => Gen2Session::Session0,
            },
            target: match self.target {
                Some(value) => value,
                None => Gen2QueryTarget::A,
            },
            toggle_target: match self.toggle_target {
                Some(value) => value,
                None => true,
            },
            target_depletion_mode: match self.target_depletion_mode {
                Some(value) => value,
                None => true,
            },
        }
    }

    /// QUERY command Sel field
    pub fn sel(&mut self, value: QuerySel) -> (ret: &mut Self)
        ensures
            *ret == (Gen2QueryParamsBuilder { sel: Some(value), ..*old(self) }),
            *final(self) == *final(ret),
    {
        self.sel = Some(value);
        self
    }

    /// QUERY session
    pub fn session(&mut self, value: Gen2Session) -> (ret: &mut Self)
        ensures
            *ret == (Gen2QueryParamsBuilder { session: Some(value), ..*old(self) }),
            *final(self) == *final(ret),
    {
        self.session = Some(value);
        self
    }

    /// QUERY target field
    pub fn target(&mut self, value: Gen2QueryTarget) -> (ret: &mut Self)
        ensures
            *ret == (Gen2QueryParamsBuilder { target: Some(value), ..*old(self) }),
            *final(self) == *final(ret),
    {
        self.target = Some(value);
        self
    }

    /// Automatically change target between A and B
    pub fn toggle_target(&mut self, value: bool) -> (ret: &mut Self)
        ensures
            *ret == (Gen2QueryParamsBuilder { toggle_target: Some(value), ..*old(self) }),
            *final(self) == *final(ret),
    {
        self.toggle_target = Some(value);
        self
    }

    /// If set to true and the target shall be toggled in inventory, an
    /// additional inventory round before the target is toggled will be
    /// executed. This gives weak transponders an additional chance to reply.
    pub fn target_depletion_mode(&mut self, value: bool) -> (ret: &mut Self)
        ensures
            *ret == (Gen2QueryParamsBuilder { target_depletion_mode: Some(value), ..*old(self) }),
            *final(self) == *final(ret),
    {
        self.target_depletion_mode = Some(value);
        self
    }

    /// Builds the value. Nothing is checked, so this never fails.
    pub fn build(&self) -> (r: core::result::Result<Gen2QueryParams, ValidationError>)
        ensures
            r == Ok::<Gen2QueryParams, ValidationError>(self.resolved()),
    {
        Ok(Gen2QueryParams {
            sel: match self.sel {
                Some(value) => value,
                None => QuerySel::All,
            },
            session: match self.session {
                Some(value) => value,
                None => Gen2Session::Session0,
            },
            target: match self.target {
                Some(value) => value,
                None => Gen2QueryTarget::A,
            },
            toggle_target: match self.toggle_target {
                Some(value) => value,
                None => true,
            },
            target_depletion_mode: match self.target_depletion_mode {
                Some(value) => value,
                None => true,
            },
        })
    }
}

impl Default for Gen2QueryParamsBuilder {
    fn default() -> (r: Self)
        ensures
            r == Gen2QueryParamsBuilder::empty(),
    {
        Gen2QueryParamsBuilder {
            sel: None,
            session: None,
            target: None,
            toggle_target: None,
            target_depletion_mode: None,
        }
    }
}

impl Builder<Gen2QueryParamsBuilder> for Gen2QueryParams {
    fn builder() -> (r: Gen2QueryParamsBuilder)
        ensures
            r == Gen2QueryParamsBuilder::empty(),
    {
        Gen2QueryParamsBuilder::default()
    }
}

impl Gen2QueryParams {
    /// The record that programs the Query command.
    pub open spec fn wire_record(self) -> wire::Gen2QueryParams {
        wire::Gen2QueryParams {
            sel: self.sel,
            session: self.session,
            target: self.target,
            toggle_target: self.toggle_target,
            target_depletion_mode: self.target_depletion_mode,
        }
    }
}

impl AsFFI<wire::Gen2QueryParams> for Gen2QueryParams {
    fn as_ffi(&self) -> (w: wire::Gen2QueryParams)
        ensures
            w == self.wire_record(),
    {
        wire::Gen2QueryParams {
            sel: self.sel,
            session: self.session,
            target: self.target,
            toggle_target: self.toggle_target,
            target_depletion_mode: self.target_depletion_mode,
        }
    }
}

/// Settings for Gen2 Inventorying. Note that [`Gen2InventoryOptions`] is
/// only a subset of these settings.
#[derive(Copy, Clone, Debug, PartialEq, Eq)]
pub struct Gen2InventoryCfg {
    /// Extra inventory options
    pub options: Gen2InventoryOptions,
    /// Automatic Q adjustment settings (Anti-collision)
    pub adaptive_q: Gen2AdaptiveQ,
    /// Automatic tuning settings
    pub auto_tuning: AutoTuning,
    /// Parameters to QUERY commands
    pub query_params: Gen2QueryParams,
    /// Adaptive RX Sensitivity options
    pub auto_rx_sensitivity: AutoRxSensitivity,
    /// Adaptive TX Strength options
    pub auto_tx_strength: AutoTxStrength,
}

/// Builder for [`Gen2InventoryCfg`]. A field that is left unset takes its default.
#[derive(Copy, Clone, Debug)]
pub struct Gen2InventoryCfgBuilder {
    pub options: Option<Gen2InventoryOptions>,
    pub adaptive_q: Option<Gen2AdaptiveQ>,
    pub auto_tuning: Option<AutoTuning>,
    pub query_params: Option<Gen2QueryParams>,
    pub auto_rx_sensitivity: Option<AutoRxSensitivity>,
    pub auto_tx_strength: Option<AutoTxStrength>,
}

impl Gen2InventoryCfgBuilder {
    /// The builder with no field set.
    pub open spec fn empty() -> Gen2InventoryCfgBuilder {
        Gen2InventoryCfgBuilder {
            options: None,
            adaptive_q: None,
            auto_tuning: None,
            query_params: None,
            auto_rx_sensitivity: None,
            auto_tx_strength: None,
        }
    }

    /// What the builder builds: every field as it was set, or its default.
    pub open spec fn resolved(self) -> Gen2InventoryCfg {
        Gen2InventoryCfg {
            options: match self.options {
                Some(value) => value,
                None => Gen2InventoryOptionsBuilder::empty().resolved(),
            },
            adaptive_q: match self.adaptive_q {
                Some(value) => value,
                None => Gen2AdaptiveQ::Enable(Gen2AdaptiveQCfg::spec_default()),
            },
            auto_tuning: match self.auto_tuning {
                Some(value) => value,
                None => AutoTuningBuilder::empty().resolved(),
            },
            query_params: match self.query_params {
                Some(value) => value,
                None => Gen2QueryParamsBuilder::empty().resolved(),
            },
            auto_rx_sensitivity: match self.auto_rx_sensitivity {
                Some(value) => value,
                None => (AutoRxSensitivity { enable: true }),
            },
            auto_tx_strength: match self.auto_tx_strength {
                Some(value) => value,
                None => (AutoTxStrength { enable: true }),
            },
        }
    }

    /// Extra inventory options
    pub fn options(&mut self, value: Gen2InventoryOptions) -> (ret: &mut Self)
        ensures
            *ret == (Gen2InventoryCfgBuilder { options: Some(value), ..*old(self) }),
            *final(self) == *final(ret),
    {
        self.options = Some(value);
        self
    }

    /// Automatic Q adjustment settings (Anti-collision)
    pub fn adaptive_q(&mut self, value: Gen2AdaptiveQ) -> (ret: &mut Self)
        ensures
            *ret == (Gen2InventoryCfgBuilder { adaptive_q: Some(value), ..*old(self) }),
            *final(self) == *final(ret),
    {
        self.adaptive_q = Some(value);
        self
    }

    /// Automatic tuning settings
    pub fn auto_tuning(&mut self, value: AutoTuning) -> (ret: &mut Self)
        ensures
            *ret == (Gen2InventoryCfgBuilder { auto_tuning: Some(value), ..*old(self) }),
            *final(self) == *final(ret),
    {
        self.auto_tuning = Some(value);
        self
    }

    /// Parameters to QUERY commands
    pub fn query_params(&mut self, value: Gen2QueryParams) -> (ret: &mut Self)
        ensures
            *ret == (Gen2InventoryCfgBuilder { query_params: Some(value), ..*old(self) }),
            *final(self) == *final(ret),
    {
        self.query_params = Some(value);
        self
    }

    /// Adaptive RX Sensitivity options
    pub fn auto_rx_sensitivity(&mut self, value: AutoRxSensitivity) -> (ret: &mut Self)
        ensures
            *ret == (Gen2InventoryCfgBuilder { auto_rx_sensitivity: Some(value), ..*old(self) }),
            *final(self) == *final(ret),
    {
        self.auto_rx_sensitivity = Some(value);
        self
    }

    /// Adaptive TX Strength options
    pub fn auto_tx_strength(&mut self, value: AutoTxStrength) -> (ret: &mut Self)
        ensures
            *ret == (Gen2InventoryCfgBuilder { auto_tx_strength: Some(value), ..*old(self) }),
            *final(self) == *final(ret),
    {
        self.auto_tx_strength = Some(value);
        self
    }

    /// Builds the value. Nothing is checked, so this never fails.
    pub fn build(&self) -> (r: core::result::Result<Gen2InventoryCfg, ValidationError>)
        ensures
            r == Ok::<Gen2InventoryCfg, ValidationError>(self.resolved()),
    {
        Ok(Gen2InventoryCfg {
            options: match self.options {
                Some(value) => value,
                None => Gen2InventoryOptionsBuilder::default().build().unwrap(),
            },
            adaptive_q: match self.adaptive_q {
                Some(value) => value,
                None => Gen2AdaptiveQ::Enable(Gen2AdaptiveQCfg::default_cfg()),
            },
            auto_tuning: match self.auto_tuning {
                Some(value) => value,
                None => AutoTuningBuilder::default().build().unwrap(),
            },
            query_params: match self.query_params {
                Some(value) => value,
                None => Gen2QueryParamsBuilder::default().build().unwrap(),
            },
            auto_rx_sensitivity: match self.auto_rx_sensitivity {
                Some(value) => value,
                None => AutoRxSensitivity::from(true),
            },
            auto_tx_strength: match self.auto_tx_strength {
                Some(value) => value,
                None => AutoTxStrength::from(true),
            },
        })
    }
}

impl Default for Gen2InventoryCfgBuilder {
    fn default() -> (r: Self)
        ensures
            r == Gen2InventoryCfgBuilder::empty(),
    {
        Gen2InventoryCfgBuilder {
            options: None,
            adaptive_q: None,
            auto_tuning: None,
            query_params: None,
            auto_rx_sensitivity: None,
            auto_tx_strength: None,
        }
    }
}

impl Builder<Gen2InventoryCfgBuilder> for Gen2InventoryCfg {
    fn builder() -> (r: Gen2InventoryCfgBuilder)
        ensures
            r == Gen2InventoryCfgBuilder::empty(),
    {
        Gen2InventoryCfgBuilder::default()
    }
}

impl Gen2InventoryCfg {
    /// The record that programs inventory rounds: each part converted on
    /// its own.
    pub open spec fn wire_record(self) -> wire::Gen2InventoryCfg {
        wire::Gen2InventoryCfg {
            inventory_option: self.options.wire_record(),
            anti_collision: self.adaptive_q.wire_record(),
            auto_tuning: self.auto_tuning.wire_record(),
            query_params: self.query_params.wire_record(),
            adaptive_sensitivity: self.auto_rx_sensitivity.wire_record(),
            adaptive_output_power: self.auto_tx_strength.wire_record(),
        }
    }
}

impl AsFFI<wire::Gen2InventoryCfg> for Gen2InventoryCfg {
    fn as_ffi(&self) -> (w: wire::Gen2InventoryCfg)
        ensures
            w == self.wire_record(),
    {
        wire::Gen2InventoryCfg {
            inventory_option: self.options.as_ffi(),
            anti_collision: self.adaptive_q.as_ffi(),
            auto_tuning: self.auto_tuning.as_ffi(),
            query_params: self.query_params.as_ffi(),
            adaptive_sensitivity: self.auto_rx_sensitivity.as_ffi(),
            adaptive_output_power: self.auto_tx_strength.as_ffi(),
        }
    }
}

/// Gen2 protocol settings. These factors affect the transmission speed and
/// reliability of the air protocol.
#[derive(Copy, Clone, Debug, PartialEq, Eq)]
pub struct Gen2ProtocolCfg {
    /// Tari setting
    pub tari: Gen2Tari,
    /// Backscatter link frequency factor
    pub blf: Gen2Blf,
    /// Coding
    pub coding: Gen2Coding,
    /// Short or long preamble (true means long)
    pub trext: bool,
}

/// Builder for [`Gen2ProtocolCfg`]. A field that is left unset takes its default.
#[derive(Copy, Clone, Debug)]
pub struct Gen2ProtocolCfgBuilder {
    pub tari: Option<Gen2Tari>,
    pub blf: Option<Gen2Blf>,
    pub coding: Option<Gen2Coding>,
    pub trext: Option<bool>,
}

impl Gen2ProtocolCfgBuilder {
    /// The builder with no field set.
    pub open spec fn empty() -> Gen2ProtocolCfgBuilder {
        Gen2ProtocolCfgBuilder {
            tari: None,
            blf: None,
            coding: None,
            trext: None,
        }
    }

    /// What the builder builds: every field as it was set, or its default.
    pub open spec fn resolved(self) -> Gen2ProtocolCfg {
        Gen2ProtocolCfg {
            tari: match self.tari {
                Some(value) => value,
                None => Gen2Tari::Six,
            },
            blf: match self.blf {
                Some(value) => value,
                None => Gen2Blf::ThreeHundredTwenty,
            },
            coding: match self.coding {
                Some(value) => value,
                None => Gen2Coding::Miller2,
            },
            trext: match self.trext {
                Some(value) => value,
                None => true,
            },
        }
    }

    /// Tari setting
    pub fn tari(&mut self, value: Gen2Tari) -> (ret: &mut Self)
        ensures
            *ret == (Gen2ProtocolCfgBuilder { tari: Some(value), ..*old(self) }),
            *final(self) == *final(ret),
    {
        self.tari = Some(value);
        self
    }

    /// Backscatter link frequency factor
    pub fn blf(&mut self, value: Gen2Blf) -> (ret: &mut Self)
        ensures
            *ret == (Gen2ProtocolCfgBuilder { blf: Some(value), ..*old(self) }),
            *final(self) == *final(ret),
    {
        self.blf = Some(value);
        self
    }

    /// Coding
    pub fn coding(&mut self, value: Gen2Coding) -> (ret: &mut Self)
        ensures
            *ret == (Gen2ProtocolCfgBuilder { coding: Some(value), ..*old(self) }),
            *final(self) == *final(ret),
    {
        self.coding = Some(value);
        self
    }

    /// Short or long preamble (true means long)
    pub fn trext(&mut self, value: bool) -> (ret: &mut Self)
        ensures
            *ret == (Gen2ProtocolCfgBuilder { trext: Some(value), ..*old(self) }),
            *final(self) == *final(ret),
    {
        self.trext = Some(value);
        self
    }

    /// Builds the value. Nothing is checked, so this never fails.
    pub fn build(&self) -> (r: core::result::Result<Gen2ProtocolCfg, ValidationError>)
        ensures
            r == Ok::<Gen2ProtocolCfg, ValidationError>(self.resolved()),
    {
        Ok(Gen2ProtocolCfg {
            tari: match self.tari {
                Some(value) => value,
                None => Gen2Tari::Six,
            },
            blf: match self.blf {
                Some(value) => value,
                None => Gen2Blf::ThreeHundredTwenty,
            },
            coding: match self.coding {
                Some(value) => value,
                None => Gen2Coding::Miller2,
            },
            trext: match self.trext {
                Some(value) => value,
                None => true,
            },
        })
    }
}

impl Default for Gen2ProtocolCfgBuilder {
    fn default() -> (r: Self)
        ensures
            r == Gen2ProtocolCfgBuilder::empty(),
    {
        Gen2ProtocolCfgBuilder {
            tari: None,
            blf: None,
            coding: None,
            trext: None,
        }
    }
}

impl Builder<Gen2ProtocolCfgBuilder> for Gen2ProtocolCfg {
    fn builder() -> (r: Gen2ProtocolCfgBuilder)
        ensures
            r == Gen2ProtocolCfgBuilder::empty(),
    {
        Gen2ProtocolCfgBuilder::default()
    }
}

impl Gen2ProtocolCfg {
    /// The record that programs the air protocol.
    pub open spec fn wire_record(self) -> wire::Gen2ProtocolCfg {
        wire::Gen2ProtocolCfg {
            tari: self.tari,
            blf: self.blf,
            coding: self.coding,
            trext: self.trext,
        }
    }
}

impl AsFFI<wire::Gen2ProtocolCfg> for Gen2ProtocolCfg {
    fn as_ffi(&self) -> (w: wire::Gen2ProtocolCfg)
        ensures
            w == self.wire_record(),
    {
        wire::Gen2ProtocolCfg {
            tari: self.tari,
            blf: self.blf,
            coding: self.coding,
            trext: self.trext,
        }
    }
}

/// The settings that a [`Gen2Cfg`] holds.
pub struct Gen2CfgView {
    pub tx_rx_cfg: TxRxCfgView,
    pub inv_cfg: Gen2InventoryCfg,
    pub proto_cfg: Gen2ProtocolCfg,
    pub lbt: Lbt,
    pub channel_list: Seq<ChannelItem>,
    pub freq_hop: FreqHopCfg,
}

/// Gen2 Master configuration
#[derive(Debug)]
pub struct Gen2Cfg {
    /// Antenna configuration
    pub tx_rx_cfg: TxRxCfg,
    /// Settings for inventorying tags
    pub inv_cfg: Gen2InventoryCfg,
    /// Gen2 protocol configuration
    pub proto_cfg: Gen2ProtocolCfg,
    /// Listen before talk configuration
    pub lbt: Lbt,
    /// Channel list configuration
    pub channel_list: ChannelListCfg,
    /// Frequency hopping configuration
    pub freq_hop: FreqHopCfg,
}

impl View for Gen2Cfg {
    type V = Gen2CfgView;

    open spec fn view(&self) -> Gen2CfgView {
        Gen2CfgView {
            tx_rx_cfg: self.tx_rx_cfg@,
            inv_cfg: self.inv_cfg,
            proto_cfg: self.proto_cfg,
            lbt: self.lbt,
            channel_list: self.channel_list@,
            freq_hop: self.freq_hop,
        }
    }
}

impl Clone for Gen2Cfg {
    fn clone(&self) -> (r: Self)
        ensures
            r@ == self@,
    {
        Gen2Cfg {
            tx_rx_cfg: self.tx_rx_cfg,
            inv_cfg: self.inv_cfg,
            proto_cfg: self.proto_cfg,
            lbt: self.lbt,
            channel_list: self.channel_list.clone(),
            freq_hop: self.freq_hop,
        }
    }
}

/// Builder for [`Gen2Cfg`]. A field that is left unset takes its default.
#[derive(Debug)]
pub struct Gen2CfgBuilder {
    pub tx_rx_cfg: Option<TxRxCfg>,
    pub inv_cfg: Option<Gen2InventoryCfg>,
    pub proto_cfg: Option<Gen2ProtocolCfg>,
    pub lbt: Option<Lbt>,
    pub channel_list: Option<ChannelListCfg>,
    pub freq_hop: Option<FreqHopCfg>,
}

impl Gen2CfgBuilder {
    /// The builder with no field set.
    pub open spec fn empty() -> Gen2CfgBuilder {
        Gen2CfgBuilder {
            tx_rx_cfg: None,
            inv_cfg: None,
            proto_cfg: None,
            lbt: None,
            channel_list: None,
            freq_hop: None,
        }
    }

    /// What the builder asks for: every field as it was set, or its default.
    /// By default Listen-Before-Talk is off and the channels are those of
    /// the European profile.
    pub open spec fn resolved(self) -> Gen2CfgView {
        Gen2CfgView {
            tx_rx_cfg: match self.tx_rx_cfg {
                Some(value) => value@,
                None => TxRxCfgBuilder::empty().resolved(),
            },
            inv_cfg: match self.inv_cfg {
                Some(value) => value,
                None => Gen2InventoryCfgBuilder::empty().resolved(),
            },
            proto_cfg: match self.proto_cfg {
                Some(value) => value,
                None => Gen2ProtocolCfgBuilder::empty().resolved(),
            },
            lbt: match self.lbt {
                Some(value) => value,
                None => Lbt::Disable,
            },
            channel_list: match self.channel_list {
                Some(value) => value@,
                None => profile_table(Profile::Europe),
            },
            freq_hop: match self.freq_hop {
                Some(value) => value,
                None => FreqHopCfgBuilder::empty().resolved(),
            },
        }
    }

    /// Antenna configuration
    pub fn tx_rx_cfg(&mut self, value: TxRxCfg) -> (ret: &mut Self)
        ensures
            *ret == (Gen2CfgBuilder { tx_rx_cfg: Some(value), ..*old(self) }),
            *final(self) == *final(ret),
    {
        self.tx_rx_cfg = Some(value);
        self
    }

    /// Settings for inventorying tags
    pub fn inv_cfg(&mut self, value: Gen2InventoryCfg) -> (ret: &mut Self)
        ensures
            *ret == (Gen2CfgBuilder { inv_cfg: Some(value), ..*old(self) }),
            *final(self) == *final(ret),
    {
        self.inv_cfg = Some(value);
        self
    }

    /// Gen2 protocol configuration
    pub fn proto_cfg(&mut self, value: Gen2ProtocolCfg) -> (ret: &mut Self)
        ensures
            *ret == (Gen2CfgBuilder { proto_cfg: Some(value), ..*old(self) }),
            *final(self) == *final(ret),
    {
        self.proto_cfg = Some(value);
        self
    }

    /// Listen before talk configuration
    pub fn lbt(&mut self, value: Lbt) -> (ret: &mut Self)
        ensures
            *ret == (Gen2CfgBuilder { lbt: Some(value), ..*old(self) }),
            *final(self) == *final(ret),
    {
        self.lbt = Some(value);
        self
    }

    /// Channel list configuration
    pub fn channel_list(&mut self, value: ChannelListCfg) -> (ret: &mut Self)
        ensures
            *ret == (Gen2CfgBuilder { channel_list: Some(value), ..*old(self) }),
            *final(self) == *final(ret),
    {
        self.channel_list = Some(value);
        self
    }

    /// Frequency hopping configuration
    pub fn freq_hop(&mut self, value: FreqHopCfg) -> (ret: &mut Self)
        ensures
            *ret == (Gen2CfgBuilder { freq_hop: Some(value), ..*old(self) }),
            *final(self) == *final(ret),
    {
        self.freq_hop = Some(value);
        self
    }

    /// Builds the configuration. Every part was checked when it was built
    /// itself, so this never fails.
    pub fn build(&self) -> (r: core::result::Result<Gen2Cfg, ValidationError>)
        ensures
            r is Ok,
            r->Ok_0@ == self.resolved(),
    {
        Ok(
            Gen2Cfg {
                tx_rx_cfg: match self.tx_rx_cfg {
                    Some(value) => value,
                    None => TxRxCfgBuilder::default().build().unwrap(),
                },
                inv_cfg: match self.inv_cfg {
                    Some(value) => value,
                    None => Gen2InventoryCfgBuilder::default().build().unwrap(),
                },
                proto_cfg: match self.proto_cfg {
                    Some(value) => value,
                    None => Gen2ProtocolCfgBuilder::default().build().unwrap(),
                },
                lbt: match self.lbt {
                    Some(value) => value,
                    None => Lbt::Disable,
                },
                channel_list: match &self.channel_list {
                    Some(value) => value.clone(),
                    None => ChannelListCfg::from_profile(Profile::Europe),
                },
                freq_hop: match self.freq_hop {
                    Some(value) => value,
                    None => FreqHopCfgBuilder::default().build().unwrap(),
                },
            },
        )
    }
}

impl Default for Gen2CfgBuilder {
    fn default() -> (r: Self)
        ensures
            r == Gen2CfgBuilder::empty(),
    {
        Gen2CfgBuilder {
            tx_rx_cfg: None,
            inv_cfg: None,
            proto_cfg: None,
            lbt: None,
            channel_list: None,
            freq_hop: None,
        }
    }
}

impl Builder<Gen2CfgBuilder> for Gen2Cfg {
    fn builder() -> (r: Gen2CfgBuilder)
        ensures
            r == Gen2CfgBuilder::empty(),
    {
        Gen2CfgBuilder::default()
    }
}

/// Building with nothing set succeeds for every configuration type, and
/// gives the documented defaults.
pub proof fn lemma_defaults_are_valid()
    ensures
        TxRxCfgBuilder::empty().resolved().valid(),
        Gen2AdaptiveQCfgBuilder::empty().resolved().valid(),
        Gen2CfgBuilder::empty().resolved().tx_rx_cfg.valid(),
        Gen2CfgBuilder::empty().resolved().channel_list.len() <= wire::MAX_FREQUENCY,
        Gen2CfgBuilder::empty().resolved().inv_cfg.adaptive_q == Gen2AdaptiveQ::Enable(
            Gen2AdaptiveQCfg::spec_default(),
        ),
        Gen2AdaptiveQCfg::spec_default()@.valid(),
{
}

/// Contains settings used to issue custom commands to the RFID reader.
/// Warning: `expect_header` does nothing when CRC is disabled.
#[derive(Copy, Clone, Debug, PartialEq, Eq, Structural)]
pub struct Gen2CustomCommand {
    /// Enable sending and receiving CRC codes in the packets.
    pub use_crc: bool,
    /// Enable sending and receiving RN16 codes in the packets.
    pub use_rn16: bool,
    /// Gen2 Command code designation. Note: only 16-bit commands are
    /// supported. This includes all custom and proprietary command codes
    /// according to the standard.
    pub command_code: u16,
    /// Whether or not to expect a header bit in received packets. CRC must
    /// be enabled for this to have any effect.
    pub expect_header: bool,
}

/// Most bytes of data that a custom command can carry: the send buffer less
/// the two bytes of the command code.
pub const CUSTOM_COMMAND_MAX_DATA_BYTES: usize = 62;

/// What a [`Gen2CustomCommandData`] holds.
pub struct Gen2CustomCommandDataView {
    pub num_bits: u16,
    pub bytes: Seq<u8>,
}

impl Gen2CustomCommandDataView {
    /// There is at least one byte, and the bit length ends in the last
    /// byte without filling it. The bit length is kept in 16 bits: of a
    /// greater length the low 16 bits are kept.
    pub open spec fn valid(self) -> bool {
        &&& self.bytes.len() >= 1
        &&& self.num_bits / 8 == (self.bytes.len() - 1) % 8192
    }

    /// Data that fits the send buffer has its whole bit length kept.
    pub proof fn lemma_fitting_data(self)
        requires
            self.valid(),
            self.bytes.len() <= CUSTOM_COMMAND_MAX_DATA_BYTES,
        ensures
            8 * (self.bytes.len() - 1) <= self.num_bits < 8 * self.bytes.len(),
            self.num_bits <= 495,
    {
    }
}

/// Data to be sent with a custom RFID command
#[derive(Copy, Clone, Debug)]
pub struct Gen2CustomCommandData<'a> {
    /// length of command data in bits
    num_bits: u16,
    /// array of data bytes
    bytes: &'a [u8],
}

impl<'a> View for Gen2CustomCommandData<'a> {
    type V = Gen2CustomCommandDataView;

    closed spec fn view(&self) -> Gen2CustomCommandDataView {
        Gen2CustomCommandDataView { num_bits: self.num_bits, bytes: self.bytes@ }
    }
}

impl<'a> Gen2CustomCommandData<'a> {
    #[verifier::type_invariant]
    spec fn well_formed(self) -> bool {
        self@.valid()
    }

    /// Create a data packet using a slice of bytes and a bit length.
    ///
    /// The bit length has to end in the last byte without filling it: with
    /// `n` bytes it is at least `8 * (n - 1)` and less than `8 * n`. There
    /// has to be at least one byte. Anything else is turned down. The
    /// packet holds the slice itself and the bit length in 16 bits; whether
    /// the data fits a command is seen when it is sent.
    pub fn new(num_bits: usize, bytes: &'a [u8]) -> (r: Option<Self>)
        ensures
            r is Some <==> bytes@.len() >= 1 && 8 * (bytes@.len() - 1) <= num_bits < 8
                * bytes@.len(),
            r matches Some(data) ==> data@.num_bits == num_bits % 0x10000 && data@.bytes
                == bytes@,
    {
        if bytes.len() == 0 {
            return None;
        }
        if num_bits / 8 != bytes.len() - 1 {
            None
        } else {
            assert((num_bits % 0x10000) / 8 == (num_bits / 8) % 8192) by (bit_vector);
            Some(Self { num_bits: (num_bits % 0x10000) as u16, bytes })
        }
    }

    /// Length of the data in bits.
    pub fn num_bits(&self) -> (n: u16)
        ensures
            n == self@.num_bits,
            self@.valid(),
    {
        proof {
            use_type_invariant(self);
        }
        self.num_bits
    }

    /// The bytes of the data.
    pub fn bytes(&self) -> (b: &'a [u8])
        ensures
            b@ == self@.bytes,
            self@.valid(),
    {
        proof {
            use_type_invariant(self);
        }
        self.bytes
    }
}

} // verus!
