//! The records that cross the boundary to the reader chip.
//!
//! Every request hands the chip one of these records and gets it back, some
//! fields filled in. Fields that the firmware encodes as small numbers are
//! kept here as the enumerations they stand for; whoever talks to the chip
//! writes the numbers. The `Default` values are the firmware's own defaults.

use crate::data_types::channel::{Cap, ChannelListCfg};
use crate::data_types::enums::{
    Antenna, FreqHopMode, MemoryBank, Profile, QuerySel, TuningAlgorithm, TuningStatus,
};
use crate::data_types::traits::AsFFI;
use crate::gen2::gen2_enums::{Gen2Blf, Gen2Coding, Gen2QueryTarget, Gen2Session, Gen2Tari};
use crate::helpers::profile_table;
use vstd::array::spec_array_fill_for_copy_type;
use vstd::prelude::*;

verus! {

/// Highest Q that the firmware accepts.
pub const GEN2_MAXQ: u8 = 15;

/// Number of entries in the chip's channel table.
pub const MAX_FREQUENCY: usize = 53;

/// Number of bytes in the mask of a select command.
pub const GEN2_MAX_SELECT_MASK_LENGTH: usize = 32;

/// Number of bytes that a generic command can send.
pub const GEN2_GENERIC_CMD_MAX_SND_DATA_BYTES: usize = 64;

/// Number of bytes that a generic command can receive.
pub const GEN2_GENERIC_CMD_MAX_RCV_DATA_BYTES: usize = 128;

/// Number of bytes that a read command can return.
pub const MAX_READ_DATA_LEN: usize = 64;

/// Inventory report option: nothing besides the tags.
pub const INVENTORYREPORT_OPTION_NONE: u8 = 0x00;

/// A version number as the board reports it.
#[derive(Copy, Clone, Debug, PartialEq, Eq)]
pub struct Version {
    pub major: u8,
    pub minor: u8,
    pub micro: u8,
    pub nano: u8,
}

/// Antenna settings.
#[derive(Copy, Clone, Debug, PartialEq, Eq)]
pub struct TxRxCfg {
    pub tx_output_level: i8,
    pub rx_sensitivity: i8,
    pub used_antenna: Antenna,
    pub alternate_antenna_interval: u16,
    pub rfu: u8,
}

impl TxRxCfg {
    pub open spec fn spec_default() -> TxRxCfg {
        TxRxCfg {
            tx_output_level: -2i8,
            rx_sensitivity: 3,
            used_antenna: Antenna::Antenna1,
            alternate_antenna_interval: 1,
            rfu: 3,
        }
    }
}

impl Default for TxRxCfg {
    fn default() -> (r: Self)
        ensures
            r == TxRxCfg::spec_default(),
    {
        TxRxCfg {
            tx_output_level: -2,
            rx_sensitivity: 3,
            used_antenna: Antenna::Antenna1,
            alternate_antenna_interval: 1,
            rfu: 3,
        }
    }
}

/// Options of a Gen2 inventory round.
#[derive(Copy, Clone, Debug, PartialEq, Eq)]
pub struct Gen2InventoryOption {
    pub fast: bool,
    pub auto_ack: bool,
    pub read_tid: bool,
}

impl Gen2InventoryOption {
    pub open spec fn spec_default() -> Gen2InventoryOption {
        Gen2InventoryOption { fast: true, auto_ack: false, read_tid: false }
    }
}

impl Default for Gen2InventoryOption {
    fn default() -> (r: Self)
        ensures
            r == Gen2InventoryOption::spec_default(),
    {
        Gen2InventoryOption { fast: true, auto_ack: false, read_tid: false }
    }
}

/// Switches of the adaptive Q algorithm.
#[derive(Copy, Clone, Debug, PartialEq, Eq)]
pub struct AdaptiveQOptions {
    pub use_query_adjust_nic: bool,
    pub single_adjust: bool,
    pub use_ceil_floor: bool,
    pub reset_q_after_round: bool,
}

impl AdaptiveQOptions {
    /// No switch set.
    pub open spec fn spec_default() -> AdaptiveQOptions {
        AdaptiveQOptions {
            use_query_adjust_nic: false,
            single_adjust: false,
            use_ceil_floor: false,
            reset_q_after_round: false,
        }
    }
}

impl Default for AdaptiveQOptions {
    fn default() -> (r: Self)
        ensures
            r == AdaptiveQOptions::spec_default(),
    {
        AdaptiveQOptions {
            use_query_adjust_nic: false,
            single_adjust: false,
            use_ceil_floor: false,
            reset_q_after_round: false,
        }
    }
}

/// Anti-collision settings.
#[derive(Copy, Clone, Debug, PartialEq, Eq)]
pub struct Gen2Anticollision {
    pub adaptive_q: bool,
    pub start_q: u8,
    pub min_q: u8,
    pub max_q: u8,
    pub options: AdaptiveQOptions,
    pub c1: [u8; 16],
    pub c2: [u8; 16],
}

impl Gen2Anticollision {
    pub open spec fn spec_default() -> Gen2Anticollision {
        Gen2Anticollision {
            adaptive_q: true,
            start_q: 6,
            min_q: 2,
            max_q: GEN2_MAXQ,
            options: AdaptiveQOptions::spec_default(),
            c1: spec_array_fill_for_copy_type::<u8, 16>(5u8),
            c2: spec_array_fill_for_copy_type::<u8, 16>(35u8),
        }
    }
}

impl Default for Gen2Anticollision {
    fn default() -> (r: Self)
        ensures
            r == Gen2Anticollision::spec_default(),
    {
        Gen2Anticollision {
            adaptive_q: true,
            start_q: 6,
            min_q: 2,
            max_q: GEN2_MAXQ,
            options: AdaptiveQOptions::default(),
            c1: [5u8; 16],
            c2: [35u8; 16],
        }
    }
}

/// Automatic tuning during inventory.
#[derive(Copy, Clone, Debug, PartialEq, Eq)]
pub struct AutoTuning {
    pub interval: u16,
    pub level: u8,
    pub algorithm: TuningAlgorithm,
    pub false_positive_detection: bool,
}

impl AutoTuning {
    pub open spec fn spec_default() -> AutoTuning {
        AutoTuning {
            interval: 7,
            level: 20,
            algorithm: TuningAlgorithm::Fast,
            false_positive_detection: true,
        }
    }
}

impl Default for AutoTuning {
    fn default() -> (r: Self)
        ensures
            r == AutoTuning::spec_default(),
    {
        AutoTuning {
            interval: 7,
            level: 20,
            algorithm: TuningAlgorithm::Fast,
            false_positive_detection: true,
        }
    }
}

/// Parameters of the Query command.
#[derive(Copy, Clone, Debug, PartialEq, Eq)]
pub struct Gen2QueryParams {
    pub sel: QuerySel,
    pub session: Gen2Session,
    pub target: Gen2QueryTarget,
    pub toggle_target: bool,
    pub target_depletion_mode: bool,
}

impl Gen2QueryParams {
    pub open spec fn spec_default() -> Gen2QueryParams {
        Gen2QueryParams {
            sel: QuerySel::All,
            session: Gen2Session::Session0,
            target: Gen2QueryTarget::A,
            toggle_target: true,
            target_depletion_mode: false,
        }
    }
}

impl Default for Gen2QueryParams {
    fn default() -> (r: Self)
        ensures
            r == Gen2QueryParams::spec_default(),
    {
        Gen2QueryParams {
            sel: QuerySel::All,
            session: Gen2Session::Session0,
            target: Gen2QueryTarget::A,
            toggle_target: true,
            target_depletion_mode: false,
        }
    }
}

/// Adaptive receiver sensitivity.
#[derive(Copy, Clone, Debug, PartialEq, Eq)]
pub struct AdaptiveSensitivity {
    pub adaptive_rx: bool,
    pub start_rx: i8,
    pub min_rx: i8,
    pub max_rx: i8,
    pub retune_when_adjust: bool,
    pub iv_tag: i8,
    pub iv_empty: i8,
    pub iv_collision: i8,
    pub iv_preamble: i8,
    pub iv_crc: i8,
    pub iv_header: i8,
    pub iv_rx_count: i8,
    pub iv_stop_bit: i8,
    pub iv_resend_ack: i8,
    pub iv_noise_suspicion: i8,
    pub dec_threshold: [i8; 20],
    pub inc_threshold: [i8; 20],
}

impl AdaptiveSensitivity {
    pub open spec fn spec_default() -> AdaptiveSensitivity {
        AdaptiveSensitivity {
            adaptive_rx: true,
            start_rx: 3,
            min_rx: -17i8,
            max_rx: 19,
            retune_when_adjust: false,
            iv_tag: 0,
            iv_empty: 8,
            iv_collision: -1i8,
            iv_preamble: -7i8,
            iv_crc: 0,
            iv_header: 0,
            iv_rx_count: -7i8,
            iv_stop_bit: 0,
            iv_resend_ack: 0,
            iv_noise_suspicion: 0,
            dec_threshold: spec_array_fill_for_copy_type::<i8, 20>(-120i8),
            inc_threshold: spec_array_fill_for_copy_type::<i8, 20>(100i8),
        }
    }
}

impl Default for AdaptiveSensitivity {
    fn default() -> (r: Self)
        ensures
            r == AdaptiveSensitivity::spec_default(),
    {
        AdaptiveSensitivity {
            adaptive_rx: true,
            start_rx: 3,
            min_rx: -17,
            max_rx: 19,
            retune_when_adjust: false,
            iv_tag: 0,
            iv_empty: 8,
            iv_collision: -1,
            iv_preamble: -7,
            iv_crc: 0,
            iv_header: 0,
            iv_rx_count: -7,
            iv_stop_bit: 0,
            iv_resend_ack: 0,
            iv_noise_suspicion: 0,
            dec_threshold: [-120i8; 20],
            inc_threshold: [100i8; 20],
        }
    }
}

/// Adaptive transmission power.
#[derive(Copy, Clone, Debug, PartialEq, Eq)]
pub struct AdaptiveOutputPower {
    pub adaptive_tx: bool,
    pub start_tx: i8,
    pub min_tx: i8,
    pub max_tx: i8,
}

impl AdaptiveOutputPower {
    pub open spec fn spec_default() -> AdaptiveOutputPower {
        AdaptiveOutputPower { adaptive_tx: false, start_tx: -2i8, min_tx: 0, max_tx: -19i8 }
    }
}

impl Default for AdaptiveOutputPower {
    fn default() -> (r: Self)
        ensures
            r == AdaptiveOutputPower::spec_default(),
    {
        AdaptiveOutputPower { adaptive_tx: false, start_tx: -2, min_tx: 0, max_tx: -19 }
    }
}

/// Everything that governs Gen2 inventory rounds.
#[derive(Copy, Clone, Debug, PartialEq, Eq)]
pub struct Gen2InventoryCfg {
    pub inventory_option: Gen2InventoryOption,
    pub anti_collision: Gen2Anticollision,
    pub auto_tuning: AutoTuning,
    pub query_params: Gen2QueryParams,
    pub adaptive_sensitivity: AdaptiveSensitivity,
    pub adaptive_output_power: AdaptiveOutputPower,
}

impl Gen2InventoryCfg {
    pub open spec fn spec_default() -> Gen2InventoryCfg {
        Gen2InventoryCfg {
            inventory_option: Gen2InventoryOption::spec_default(),
            anti_collision: Gen2Anticollision::spec_default(),
            auto_tuning: AutoTuning::spec_default(),
            query_params: Gen2QueryParams::spec_default(),
            adaptive_sensitivity: AdaptiveSensitivity::spec_default(),
            adaptive_output_power: AdaptiveOutputPower::spec_default(),
        }
    }
}

impl Default for Gen2InventoryCfg {
    fn default() -> (r: Self)
        ensures
            r == Gen2InventoryCfg::spec_default(),
    {
        Gen2InventoryCfg {
            inventory_option: Gen2InventoryOption::default(),
            anti_collision: Gen2Anticollision::default(),
            auto_tuning: AutoTuning::default(),
            query_params: Gen2QueryParams::default(),
            adaptive_sensitivity: AdaptiveSensitivity::default(),
            adaptive_output_power: AdaptiveOutputPower::default(),
        }
    }
}

/// Gen2 air protocol settings.
#[derive(Copy, Clone, Debug, PartialEq, Eq)]
pub struct Gen2ProtocolCfg {
    pub tari: Gen2Tari,
    pub blf: Gen2Blf,
    pub coding: Gen2Coding,
    pub trext: bool,
}

impl Gen2ProtocolCfg {
    pub open spec fn spec_default() -> Gen2ProtocolCfg {
        Gen2ProtocolCfg {
            tari: Gen2Tari::TwentyFive,
            blf: Gen2Blf::TwoHundredFiftySix,
            coding: Gen2Coding::Miller8,
            trext: true,
        }
    }
}

impl Default for Gen2ProtocolCfg {
    fn default() -> (r: Self)
        ensures
            r == Gen2ProtocolCfg::spec_default(),
    {
        Gen2ProtocolCfg {
            tari: Gen2Tari::TwentyFive,
            blf: Gen2Blf::TwoHundredFiftySix,
            coding: Gen2Coding::Miller8,
            trext: true,
        }
    }
}

/// Listen-before-talk settings.
#[derive(Copy, Clone, Debug, PartialEq, Eq)]
pub struct FreqLbt {
    pub listening_time: u16,
    pub idle_time: u16,
    pub rssi_log_threshold: u8,
    pub skip_lbt_check: bool,
}

impl FreqLbt {
    pub open spec fn spec_default() -> FreqLbt {
        FreqLbt { listening_time: 1, idle_time: 0, rssi_log_threshold: 31, skip_lbt_check: true }
    }
}

impl Default for FreqLbt {
    fn default() -> (r: Self)
        ensures
            r == FreqLbt::spec_default(),
    {
        FreqLbt { listening_time: 1, idle_time: 0, rssi_log_threshold: 31, skip_lbt_check: true }
    }
}

/// The three capacitors of the tuning network.
#[derive(Copy, Clone, Debug, PartialEq, Eq)]
pub struct Caps {
    pub cin: Cap,
    pub clen: Cap,
    pub cout: Cap,
}

impl Caps {
    pub open spec fn spec_default() -> Caps {
        Caps { cin: Cap::FirmwareDefault, clen: Cap::FirmwareDefault, cout: Cap::FirmwareDefault }
    }

    /// Three set capacitors.
    pub open spec fn set(cin: u8, clen: u8, cout: u8) -> Caps {
        Caps { cin: Cap::Value(cin), clen: Cap::Value(clen), cout: Cap::Value(cout) }
    }
}

impl Default for Caps {
    fn default() -> (r: Self)
        ensures
            r == Caps::spec_default(),
    {
        Caps { cin: Cap::FirmwareDefault, clen: Cap::FirmwareDefault, cout: Cap::FirmwareDefault }
    }
}

/// One entry of the channel table.
#[derive(Copy, Clone, Debug, PartialEq, Eq)]
pub struct ChannelItem {
    pub frequency: u32,
    pub caps: [Caps; 2],
    pub rfu1: u8,
    pub rfu2: u8,
}

/// An entry of the channel table without its array: the frequency, the
/// capacitors of both antennas, and the two reserved bytes.
pub struct ChannelEntry {
    pub frequency: u32,
    pub caps0: Caps,
    pub caps1: Caps,
    pub rfu1: u8,
    pub rfu2: u8,
}

impl View for ChannelItem {
    type V = ChannelEntry;

    open spec fn view(&self) -> ChannelEntry {
        ChannelEntry {
            frequency: self.frequency,
            caps0: self.caps@[0],
            caps1: self.caps@[1],
            rfu1: self.rfu1,
            rfu2: self.rfu2,
        }
    }
}

impl ChannelItem {
    /// Builds an entry from a frequency, two triples of capacitances and the
    /// two reserved bytes.
    pub fn from_raw(raw: (u32, ((u8, u8, u8), (u8, u8, u8)), u8, u8)) -> (r: Self)
        ensures
            r@ == (ChannelEntry {
                frequency: raw.0,
                caps0: Caps::set(raw.1.0.0, raw.1.0.1, raw.1.0.2),
                caps1: Caps::set(raw.1.1.0, raw.1.1.1, raw.1.1.2),
                rfu1: raw.2,
                rfu2: raw.3,
            }),
    {
        ChannelItem {
            frequency: raw.0,
            caps: [
                Caps {
                    cin: Cap::Value(raw.1.0.0),
                    clen: Cap::Value(raw.1.0.1),
                    cout: Cap::Value(raw.1.0.2),
                },
                Caps {
                    cin: Cap::Value(raw.1.1.0),
                    clen: Cap::Value(raw.1.1.1),
                    cout: Cap::Value(raw.1.1.2),
                },
            ],
            rfu1: raw.2,
            rfu2: raw.3,
        }
    }
}

/// The channel table: the entries in use, in order. The chip's table has
/// room for [`MAX_FREQUENCY`] of them.
#[derive(Debug, PartialEq, Eq)]
pub struct ChannelList {
    pub persistent: bool,
    pub channel_list_idx: u8,
    pub item_list: Vec<ChannelItem>,
}

/// The channel table as a sequence of entries.
pub struct ChannelTable {
    pub persistent: bool,
    pub channel_list_idx: u8,
    pub items: Seq<ChannelEntry>,
}

impl View for ChannelList {
    type V = ChannelTable;

    open spec fn view(&self) -> ChannelTable {
        ChannelTable {
            persistent: self.persistent,
            channel_list_idx: self.channel_list_idx,
            items: Seq::new(self.item_list@.len(), |i: int| self.item_list@[i]@),
        }
    }
}

impl ChannelList {
    /// How many frequencies the table holds.
    pub open spec fn num_frequencies(&self) -> nat {
        self.item_list@.len()
    }

    /// The channel table of a profile that the firmware defines.
    pub fn from_profile(profile: Profile) -> (list: Self)
        ensures
            list@ == ChannelListCfg::wire_table(profile_table(profile)),
            list.item_list@.len() <= MAX_FREQUENCY,
    {
        ChannelListCfg::from_profile(profile).as_ffi()
    }
}

/// Frequency hopping settings.
#[derive(Copy, Clone, Debug, PartialEq, Eq)]
pub struct FreqHop {
    pub max_sending_time: u16,
    pub min_sending_time: u16,
    pub mode: FreqHopMode,
    pub rfu: u8,
}

impl FreqHop {
    pub open spec fn spec_default() -> FreqHop {
        FreqHop { max_sending_time: 400, min_sending_time: 400, mode: FreqHopMode::IgnoreMin, rfu: 0 }
    }
}

impl Default for FreqHop {
    fn default() -> (r: Self)
        ensures
            r == FreqHop::spec_default(),
    {
        FreqHop { max_sending_time: 400, min_sending_time: 400, mode: FreqHopMode::IgnoreMin, rfu: 0 }
    }
}

/// What a select command does to the chip's list of select commands.
#[derive(Copy, Clone, Debug, PartialEq, Eq, Structural)]
pub enum SelectMode {
    /// Empty the list.
    ClearList,
    /// Empty the list, then add this command.
    ClearAndAdd,
}

/// The flag that a select command changes.
#[derive(Copy, Clone, Debug, PartialEq, Eq, Structural)]
pub enum SelectTarget {
    /// Inventoried flag of session 0
    S0,
    /// Inventoried flag of session 1
    S1,
    /// Inventoried flag of session 2
    S2,
    /// Inventoried flag of session 3
    S3,
    /// The selected flag
    Sl,
}

/// A select command.
#[derive(Copy, Clone, Debug, PartialEq, Eq)]
pub struct Gen2Select {
    pub mode: SelectMode,
    pub target: SelectTarget,
    pub action: u8,
    pub memory_bank: MemoryBank,
    pub mask: [u8; 32],
    pub mask_bit_pointer: u32,
    pub mask_bit_length: u8,
    pub truncation: u8,
}

impl Gen2Select {
    pub open spec fn spec_default() -> Gen2Select {
        Gen2Select {
            mode: SelectMode::ClearList,
            target: SelectTarget::S0,
            action: 0,
            memory_bank: MemoryBank::Epc,
            mask: spec_array_fill_for_copy_type::<u8, 32>(0u8),
            mask_bit_pointer: 0,
            mask_bit_length: 0,
            truncation: 0,
        }
    }
}

impl Default for Gen2Select {
    fn default() -> (r: Self)
        ensures
            r == Gen2Select::spec_default(),
    {
        Gen2Select {
            mode: SelectMode::ClearList,
            target: SelectTarget::S0,
            action: 0,
            memory_bank: MemoryBank::Epc,
            mask: [0u8; 32],
            mask_bit_pointer: 0,
            mask_bit_length: 0,
            truncation: 0,
        }
    }
}

/// A tuning request.
#[derive(Copy, Clone, Debug, PartialEq, Eq)]
pub struct TuneCfg {
    pub false_positive_detection: bool,
    pub persistent: bool,
    pub channel_list_idx: u8,
    pub antenna: Antenna,
    pub algorithm: TuningAlgorithm,
    pub tune_all: bool,
}

impl TuneCfg {
    pub open spec fn spec_default() -> TuneCfg {
        TuneCfg {
            false_positive_detection: true,
            persistent: false,
            channel_list_idx: 0,
            antenna: Antenna::Antenna1,
            algorithm: TuningAlgorithm::GroupedExact,
            tune_all: false,
        }
    }
}

impl Default for TuneCfg {
    fn default() -> (r: Self)
        ensures
            r == TuneCfg::spec_default(),
    {
        TuneCfg {
            false_positive_detection: true,
            persistent: false,
            channel_list_idx: 0,
            antenna: Antenna::Antenna1,
            algorithm: TuningAlgorithm::GroupedExact,
            tune_all: false,
        }
    }
}

/// Counters of an inventory run, as the chip keeps them.
#[derive(Copy, Clone, Debug, PartialEq, Eq)]
pub struct InventoryStatistics {
    pub timestamp: u32,
    pub round_cnt: u32,
    pub tuning_status: TuningStatus,
    pub rssi_log_mean: u8,
    pub sensitivity: i8,
    pub q: u8,
    pub frequency: u32,
    pub adc: u16,
    pub tag_cnt: u32,
    pub empty_slot_cnt: u32,
    pub slot_cnt: u32,
    pub collision_cnt: u32,
    pub preamble_err_cnt: u32,
    pub crc_err_cnt: u32,
    pub header_err_cnt: u32,
    pub rx_count_err_cnt: u32,
    pub resend_ack_cnt: u32,
    pub noise_suspicion_cnt: u32,
}

impl InventoryStatistics {
    pub open spec fn spec_default() -> InventoryStatistics {
        InventoryStatistics {
            timestamp: 0,
            round_cnt: 0,
            tuning_status: TuningStatus::Untuned,
            rssi_log_mean: 0,
            sensitivity: 0,
            q: 0,
            frequency: 0,
            adc: 0,
            tag_cnt: 0,
            empty_slot_cnt: 0,
            slot_cnt: 0,
            collision_cnt: 0,
            preamble_err_cnt: 0,
            crc_err_cnt: 0,
            header_err_cnt: 0,
            rx_count_err_cnt: 0,
            resend_ack_cnt: 0,
            noise_suspicion_cnt: 0,
        }
    }
}

impl Default for InventoryStatistics {
    fn default() -> (r: Self)
        ensures
            r == InventoryStatistics::spec_default(),
    {
        InventoryStatistics {
            timestamp: 0,
            round_cnt: 0,
            tuning_status: TuningStatus::Untuned,
            rssi_log_mean: 0,
            sensitivity: 0,
            q: 0,
            frequency: 0,
            adc: 0,
            tag_cnt: 0,
            empty_slot_cnt: 0,
            slot_cnt: 0,
            collision_cnt: 0,
            preamble_err_cnt: 0,
            crc_err_cnt: 0,
            header_err_cnt: 0,
            rx_count_err_cnt: 0,
            resend_ack_cnt: 0,
            noise_suspicion_cnt: 0,
        }
    }
}

/// An identifier of a tag as the chip stores it: a buffer, and how many of
/// its bytes are the identifier.
#[derive(Debug, PartialEq, Eq)]
pub struct TagId {
    pub data: Vec<u8>,
    pub length: u8,
}

impl TagId {
    /// The length does not point past the buffer.
    pub open spec fn wf(&self) -> bool {
        self.length <= self.data@.len()
    }

    /// Whether the length does not point past the buffer.
    pub fn is_wf(&self) -> (b: bool)
        ensures
            b == self.wf(),
    {
        self.length as usize <= self.data.len()
    }

    /// The bytes of the identifier.
    pub open spec fn bytes(&self) -> Seq<u8> {
        self.data@.subrange(0, self.length as int)
    }
}

/// One tag of an inventory round, as the chip stores it.
#[derive(Debug, PartialEq, Eq)]
pub struct InventoryTag {
    pub slot_id: u32,
    pub timestamp: u32,
    pub antenna: Antenna,
    pub agc: u8,
    pub rssi_log_i: u8,
    pub rssi_log_q: u8,
    pub rssi_lin_i: i8,
    pub rssi_lin_q: i8,
    pub pc: [u8; 2],
    pub xpc: TagId,
    pub epc: TagId,
    pub tid: TagId,
}

impl InventoryTag {
    /// No identifier points past its buffer.
    pub open spec fn wf(&self) -> bool {
        self.xpc.wf() && self.epc.wf() && self.tid.wf()
    }

    /// Whether no identifier points past its buffer.
    pub fn is_wf(&self) -> (b: bool)
        ensures
            b == self.wf(),
    {
        self.xpc.is_wf() && self.epc.is_wf() && self.tid.is_wf()
    }
}

/// What an inventory hands back: the counters and the tag buffer, of which
/// the chip filled the first `tag_list_size` entries.
#[derive(Debug, PartialEq, Eq)]
pub struct InventoryData {
    pub statistics: InventoryStatistics,
    pub tag_list: Vec<InventoryTag>,
    pub tag_list_size: u16,
    pub tag_list_size_max: u16,
}

/// What an [`InventoryData`] holds.
pub struct InventoryDataView {
    pub statistics: InventoryStatistics,
    pub tag_list: Seq<InventoryTag>,
    pub tag_list_size: u16,
    pub tag_list_size_max: u16,
}

impl View for InventoryData {
    type V = InventoryDataView;

    open spec fn view(&self) -> InventoryDataView {
        InventoryDataView {
            statistics: self.statistics,
            tag_list: self.tag_list@,
            tag_list_size: self.tag_list_size,
            tag_list_size_max: self.tag_list_size_max,
        }
    }
}

impl InventoryData {
    /// The first `count` entries of the tag buffer exist, and none of
    /// their identifiers points past its buffer.
    pub open spec fn prefix_wf(&self, count: int) -> bool {
        &&& count <= self.tag_list@.len()
        &&& forall|i: int| 0 <= i < count ==> (#[trigger] self.tag_list@[i]).wf()
    }

    /// The tags that the statistics count can be read.
    pub open spec fn found_wf(&self) -> bool {
        self.prefix_wf(self.statistics.tag_cnt as int)
    }

    /// The tags of the round can be read.
    pub open spec fn round_wf(&self) -> bool {
        self.prefix_wf(self.tag_list_size as int)
    }

    /// Whether the first `count` entries of the tag buffer can be read.
    pub fn is_prefix_wf(&self, count: usize) -> (b: bool)
        ensures
            b == self.prefix_wf(count as int),
    {
        if count > self.tag_list.len() {
            return false;
        }
        let mut i: usize = 0;
        while i < count
            invariant
                i <= count <= self.tag_list@.len(),
                forall|k: int| 0 <= k < i ==> (#[trigger] self.tag_list@[k]).wf(),
            decreases count - i,
        {
            if !self.tag_list[i].is_wf() {
                return false;
            }
            i += 1;
        }
        true
    }

    /// Whether the tags that the statistics count can be read.
    pub fn is_found_wf(&self) -> (b: bool)
        ensures
            b == self.found_wf(),
    {
        self.is_prefix_wf(self.statistics.tag_cnt as usize)
    }

    /// Whether the tags of the round can be read.
    pub fn is_round_wf(&self) -> (b: bool)
        ensures
            b == self.round_wf(),
    {
        self.is_prefix_wf(self.tag_list_size as usize)
    }
}

/// How the chip reports the signal strength of a tag.
#[derive(Copy, Clone, Debug, PartialEq, Eq, Structural)]
pub enum RssiMode {
    /// As the second byte of the answer.
    SecondByte,
}

/// Options of an inventory request.
#[derive(Copy, Clone, Debug, PartialEq, Eq)]
pub struct InventoryOption {
    pub rssi_mode: RssiMode,
    pub round_cnt: u32,
    pub inventory_delay: u16,
    pub options: u8,
}

impl InventoryOption {
    pub open spec fn spec_default() -> InventoryOption {
        InventoryOption {
            rssi_mode: RssiMode::SecondByte,
            round_cnt: 0,
            inventory_delay: 0,
            options: 0x00,
        }
    }
}

impl Default for InventoryOption {
    fn default() -> (r: Self)
        ensures
            r == InventoryOption::spec_default(),
    {
        InventoryOption {
            rssi_mode: RssiMode::SecondByte,
            round_cnt: 0,
            inventory_delay: 0,
            options: 0x00,
        }
    }
}

/// A read command and its answer.
#[derive(Copy, Clone, Debug, PartialEq, Eq)]
pub struct Read {
    pub word_ptr: u32,
    pub memory_bank: MemoryBank,
    pub num_bytes_to_read: u8,
    pub pwd: [u8; 4],
    pub num_read_bytes: u8,
    pub data: [u8; 64],
}

/// A write command and its answer.
#[derive(Copy, Clone, Debug, PartialEq, Eq)]
pub struct Write {
    pub word_ptr: u32,
    pub memory_bank: MemoryBank,
    pub pwd: [u8; 4],
    pub data: [u8; 2],
    pub tag_reply: u8,
}

/// How a generic command is framed.
#[derive(Copy, Clone, Debug, PartialEq, Eq, Structural)]
pub enum GenericCmdMode {
    /// Transmission with CRC
    Crc,
    /// Transmission with CRC, expecting a header bit in the answer
    CrcExpectHead,
    /// Transmission without CRC
    NoCrc,
}

/// A generic command and its answer.
#[derive(Copy, Clone, Debug, PartialEq, Eq)]
pub struct Gen2GenericCmd {
    pub pwd: [u8; 4],
    pub cmd: GenericCmdMode,
    pub no_response_time: u8,
    pub expected_rcv_data_bit_length: u16,
    pub snd_data_bit_length: u16,
    pub append_rn16: bool,
    pub snd_data: [u8; 64],
    pub rcv_data_length: u16,
    pub rcv_data: [u8; 128],
}

/// Mode byte that the firmware reads as antenna power on.
pub const ANTENNA_POWER_MODE_ON: u8 = 0x00;

/// Mode byte that the firmware reads as antenna power off.
pub const ANTENNA_POWER_MODE_OFF: u8 = 0xFF;

/// Switches the antenna power.
#[derive(Copy, Clone, Debug, PartialEq, Eq)]
pub struct AntennaPower {
    pub mode: u8,
    pub timeout: u16,
    pub frequency: u32,
}

/// Chooses the power amplifier.
#[derive(Copy, Clone, Debug, PartialEq, Eq)]
pub struct PowerAmplifierCfg {
    pub external: bool,
}

} // verus!
