//! Module pertaining to the Gen2 RFID protocol.

pub mod configure;
pub mod gen2_enums;
pub mod gen2_reader;
pub mod gen2_structs;

pub use configure::{ConfigureOutcome, ConfigureRequest, Configuring};
pub use gen2_enums::{
    Gen2AdaptiveQ, Gen2Blf, Gen2Coding, Gen2QueryTarget, Gen2Session, Gen2Tari,
};
pub use gen2_reader::{Gen2Reader, RoundVerdict, RunState};
pub use gen2_structs::{
    Gen2AdaptiveQCfg, Gen2AdaptiveQCfgBuilder, Gen2Cfg, Gen2CfgBuilder, Gen2CustomCommand,
    Gen2CustomCommandData, Gen2InventoryCfg, Gen2InventoryCfgBuilder, Gen2InventoryOptions,
    Gen2InventoryOptionsBuilder, Gen2ProtocolCfg, Gen2ProtocolCfgBuilder, Gen2QueryParams,
    Gen2QueryParamsBuilder,
};
