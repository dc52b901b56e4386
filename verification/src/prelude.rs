//! The items that most users of the crate need, in one place.

pub use crate::data_types::{
    Antenna, AsFFI, BasicReader, Builder, ChannelItem, ChannelListCfg, Connection,
    ConnectionHolder, Epc, FreqHopMode, HexID, InventoryStatistics, InventoryTag, Lbt,
    MemoryBank, Password, Profile, ProtocolReader, QuerySel, Tid, TuningAlgorithm, TuningCaps,
    TuningStatus, ValidationError, Version, VersionInfo, VersionNum, Xpc,
};
pub use crate::error::Error;
pub use crate::reader::{DummyReader, Reader};
