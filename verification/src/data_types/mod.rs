//! Data types used throughout the entire crate.

pub mod channel;
pub mod config;
pub mod connection;
pub mod enums;
pub mod tag;
pub mod traits;
pub mod validation;
pub mod version;

pub use channel::{Cap, ChannelItem, ChannelListCfg, TuningCaps};
pub use config::{
    AutoRxSensitivity, AutoTuning, AutoTuningBuilder, AutoTxStrength, FreqHopCfg,
    FreqHopCfgBuilder, LbtCfg, LbtCfgBuilder, TxRxCfg, TxRxCfgBuilder, TxRxCfgView,
};
pub use connection::Connection;
pub use enums::{
    Antenna, FreqHopMode, Lbt, MemoryBank, Profile, QuerySel, TuningAlgorithm, TuningStatus,
};
pub use tag::{Epc, HexID, InventoryStatistics, InventoryTag, Password, Tid, Xpc};
pub use traits::{AsFFI, BasicReader, Builder, ConnectionHolder, ProtocolReader};
pub use validation::ValidationError;
pub use version::{Version, VersionInfo, VersionNum};
