use libstuhfl::data_types::{
    Antenna, AsFFI, AutoRxSensitivity, AutoTuning, AutoTxStrength, Builder, Cap, ChannelItem,
    ChannelListCfg, Epc, FreqHopCfg, FreqHopMode, HexID, InventoryStatistics, InventoryTag, Lbt,
    LbtCfg, MemoryBank, Password, Profile, QuerySel, TuningAlgorithm, TuningCaps, TuningStatus,
    TxRxCfg, TxRxCfgBuilder, ValidationError, Version, VersionInfo, VersionNum,
};
use libstuhfl::error::Error;
use libstuhfl::gen2::{
    Gen2AdaptiveQ, Gen2AdaptiveQCfg, Gen2AdaptiveQCfgBuilder, Gen2Blf, Gen2Cfg, Gen2CfgBuilder,
    Gen2Coding, Gen2CustomCommandData, Gen2InventoryCfg, Gen2InventoryOptions, Gen2ProtocolCfg,
    Gen2QueryParams, Gen2QueryTarget, Gen2Session, Gen2Tari,
};
use libstuhfl::wire;

#[test]
fn version_comparison() {
    let va = VersionNum {
        major: 2,
        minor: 0,
        micro: 0,
        nano: 0,
    };
    let vb = VersionNum {
        major: 1,
        minor: 0,
        micro: 0,
        nano: 0,
    };

    assert!(va > vb);

    let vb = VersionNum {
        major: 0,
        minor: 3,
        micro: 0,
        nano: 0,
    };
    assert!(va > vb);

    let vb = VersionNum {
        major: 2,
        minor: 1,
        micro: 0,
        nano: 0,
    };
    assert!(vb > va);
}

#[test]
fn cfg_builder() -> Result<(), String> {
    // Builder should have valid defaults for all configuration values
    Gen2CfgBuilder::default().build().map_err(|e| e.to_string())?;

    // Alternative syntax: get default builder from Gen2Cfg itself
    Gen2Cfg::builder().build().map_err(|e| e.to_string())?;

    Ok(())
}

#[test]
fn hex_id() -> Result<(), String> {
    let id: Vec<u8> = vec![226, 0, 66, 22, 97, 128, 96, 21, 0, 149, 24, 56];

    let epc = Epc::from_id(id);

    assert_eq!(epc.to_string(), "E2:00:42:16:61:80:60:15:00:95:18:38");

    Ok(())
}

#[test]
fn version_order_is_lexicographic_on_samples() {
    let parts: [u8; 4] = [0, 1, 2, 255];
    for a0 in parts {
        for a1 in parts {
            for b0 in parts {
                for b1 in parts {
                    let a = VersionNum { major: a0, minor: 3, micro: a1, nano: 7 };
                    let b = VersionNum { major: b0, minor: 3, micro: b1, nano: 7 };
                    let tuple_gt = (a0, 3, a1, 7) > (b0, 3, b1, 7);
                    assert_eq!(a > b, tuple_gt);
                    assert_eq!(a.precedes(&b), (a0, 3, a1, 7) < (b0, 3, b1, 7));
                    assert_eq!(a == b, (a0, a1) == (b0, b1));
                }
            }
        }
    }
    let low = VersionNum { major: 1, minor: 255, micro: 255, nano: 255 };
    let high = VersionNum { major: 2, minor: 0, micro: 0, nano: 0 };
    assert!(low < high);
    assert!(high >= low);
    assert!(low <= low);
}

#[test]
fn version_text() {
    let v = VersionNum { major: 3, minor: 1, micro: 0, nano: 255 };
    assert_eq!(v.to_string(), "v3.1.0.255");
    let version = Version {
        sw_ver: v,
        hw_ver: VersionNum { major: 1, minor: 10, micro: 100, nano: 0 },
        sw_info: VersionInfo { info: "firmware".to_owned() },
        hw_info: VersionInfo { info: "board".to_owned() },
    };
    assert_eq!(version.sw_info.to_string(), "firmware");
    assert_eq!(version.to_string(), "SW: v3.1.0.255, firmware. HW: v1.10.100.0, board.");
    let copy = version.clone();
    assert_eq!(copy.to_string(), version.to_string());
}

#[test]
fn version_compatibility_gate() {
    let mk = |sw: (u8, u8, u8, u8), hw: (u8, u8, u8, u8)| Version {
        sw_ver: VersionNum { major: sw.0, minor: sw.1, micro: sw.2, nano: sw.3 },
        hw_ver: VersionNum { major: hw.0, minor: hw.1, micro: hw.2, nano: hw.3 },
        sw_info: VersionInfo { info: String::new() },
        hw_info: VersionInfo { info: String::new() },
    };
    assert!(mk((3, 1, 0, 0), (1, 1, 0, 0)).is_compatible());
    assert!(mk((3, 1, 0, 1), (1, 1, 0, 0)).is_compatible());
    assert!(mk((4, 0, 0, 0), (2, 0, 0, 0)).is_compatible());
    assert!(!mk((3, 0, 255, 255), (1, 1, 0, 0)).is_compatible());
    assert!(!mk((3, 1, 0, 0), (1, 0, 255, 255)).is_compatible());
    assert!(!mk((2, 9, 9, 9), (9, 9, 9, 9)).is_compatible());
    assert!(!mk((9, 9, 9, 9), (0, 9, 9, 9)).is_compatible());
}

#[test]
fn hex_id_edges() {
    assert_eq!(HexID::from_id(vec![]).to_string(), "");
    assert_eq!(HexID::from_id(vec![0x0A]).to_string(), "0A");
    assert_eq!(HexID::from_id(vec![0x00, 0xFF]).to_string(), "00:FF");
    assert_eq!(HexID::from_id(vec![0xAB, 0xCD, 0xEF]).to_string(), "AB:CD:EF");
    let id = HexID::from_id(vec![1, 2, 3]);
    assert_eq!(id.get_id(), &[1u8, 2, 3][..]);
    assert_eq!(id.len(), 3);
    assert_eq!(*id.index(1), 2);
    assert!(id == HexID::from_id(vec![1, 2, 3]));
    assert!(id != HexID::from_id(vec![1, 2]));
    assert!(id != HexID::from_id(vec![1, 2, 4]));
    assert!(id.clone() == id);
}

#[test]
fn hex_id_text_reads_back() {
    let bytes: Vec<u8> = (0..=255u8).collect();
    let text = HexID::from_id(bytes.clone()).to_string();
    assert_eq!(text.len(), 3 * 256 - 1);
    assert!(!text.ends_with(':'));
    let read: Vec<u8> = text.split(':').map(|p| u8::from_str_radix(p, 16).unwrap()).collect();
    assert_eq!(read, bytes);
    assert_eq!(text, text.to_uppercase());
}

#[test]
fn hex_id_from_wire_takes_the_prefix() {
    let id = wire::TagId { data: vec![9, 8, 7, 6, 5], length: 3 };
    assert!(id.is_wf());
    assert_eq!(HexID::from_wire(&id).get_id(), &[9u8, 8, 7][..]);
    let too_long = wire::TagId { data: vec![1, 2], length: 3 };
    assert!(!too_long.is_wf());
}

#[test]
fn password_round_trip() {
    let password = Password::from([0x55, 0x55, 0x55, 0x55]);
    assert_eq!(password.into_inner(), [0x55, 0x55, 0x55, 0x55]);
    assert_eq!(Password::from([1, 2, 3, 4]).into_inner(), [1, 2, 3, 4]);
}

#[test]
fn tx_rx_defaults() {
    let cfg = TxRxCfg::builder().build().unwrap();
    assert_eq!(
        cfg.as_ffi(),
        wire::TxRxCfg {
            tx_output_level: -2,
            rx_sensitivity: -3,
            used_antenna: Antenna::Antenna1,
            alternate_antenna_interval: 1,
            rfu: 3,
        }
    );
}

#[test]
fn tx_rx_validation() {
    for level in i8::MIN..=i8::MAX {
        let built = TxRxCfgBuilder::default().tx_output_level(level).build();
        if (-19..=0).contains(&level) {
            assert_eq!(built.unwrap().as_ffi().tx_output_level, level);
        } else {
            assert_eq!(built.unwrap_err(), ValidationError::TxOutputLevel);
        }
        let built = TxRxCfgBuilder::default().rx_sensitivity_level(level).build();
        if (-17..=19).contains(&level) {
            assert_eq!(built.unwrap().as_ffi().rx_sensitivity, level);
        } else {
            assert_eq!(built.unwrap_err(), ValidationError::RxSensitivityLevel);
        }
    }
    // boundary values
    assert!(TxRxCfg::builder().tx_output_level(0).build().is_ok());
    assert!(TxRxCfg::builder().tx_output_level(-19).build().is_ok());
    assert!(TxRxCfg::builder().rx_sensitivity_level(19).build().is_ok());
    assert!(TxRxCfg::builder().rx_sensitivity_level(-17).build().is_ok());
    assert!(TxRxCfg::builder().tx_output_level(1).build().is_err());
    assert!(TxRxCfg::builder().tx_output_level(-20).build().is_err());
    assert!(TxRxCfg::builder().rx_sensitivity_level(20).build().is_err());
    assert!(TxRxCfg::builder().rx_sensitivity_level(-18).build().is_err());
    // the output level is looked at first
    assert_eq!(
        TxRxCfg::builder().tx_output_level(5).rx_sensitivity_level(50).build().unwrap_err(),
        ValidationError::TxOutputLevel
    );
    assert_eq!(
        TxRxCfg::builder().tx_output_level(5).validate().unwrap_err(),
        ValidationError::TxOutputLevel
    );
    assert!(TxRxCfg::builder().validate().is_ok());
}

#[test]
fn tx_rx_setters_carry_through() {
    let mut builder = TxRxCfg::builder();
    builder.antenna(Antenna::Antenna3);
    builder.alternate_antenna_interval(77);
    builder.tx_output_level(-7).rx_sensitivity_level(11);
    assert_eq!(
        builder.build().unwrap().as_ffi(),
        wire::TxRxCfg {
            tx_output_level: -7,
            rx_sensitivity: 11,
            used_antenna: Antenna::Antenna3,
            alternate_antenna_interval: 77,
            rfu: 3,
        }
    );
}

#[test]
fn validation_error_text() {
    assert_eq!(
        ValidationError::TxOutputLevel.to_string(),
        "tx_output_level invalid: see docs for details"
    );
    assert_eq!(
        ValidationError::RxSensitivityLevel.to_string(),
        "rx_sensitivity_level invalid: see docs for details"
    );
    assert_eq!(ValidationError::MaxQNotAboveMinQ.to_string(), "max_q must be greater than min_q");
    assert_eq!(ValidationError::MaxQTooLarge.to_string(), "max_q too large: see docs for details");
    assert_eq!(
        ValidationError::TooManyChannels.to_string(),
        "channel list too long: at most 53 entries"
    );
}

#[test]
fn adaptive_q_validation() {
    for min in 0..=20u8 {
        for max in 0..=20u8 {
            let built = Gen2AdaptiveQCfgBuilder::default().min_q(min).max_q(max).build();
            if max <= min {
                assert_eq!(built.unwrap_err(), ValidationError::MaxQNotAboveMinQ);
            } else if max > 15 {
                assert_eq!(built.unwrap_err(), ValidationError::MaxQTooLarge);
            } else {
                let w = Gen2AdaptiveQ::Enable(built.unwrap()).as_ffi();
                assert_eq!((w.min_q, w.max_q), (min, max));
            }
        }
    }
    assert!(Gen2AdaptiveQCfg::builder().min_q(14).max_q(15).build().is_ok());
    assert!(Gen2AdaptiveQCfg::builder().min_q(15).max_q(15).build().is_err());
    assert!(Gen2AdaptiveQCfg::builder().min_q(0).max_q(16).build().is_err());
    // the defaults count where a value is left unset
    assert_eq!(
        Gen2AdaptiveQCfg::builder().min_q(15).build().unwrap_err(),
        ValidationError::MaxQNotAboveMinQ
    );
    assert_eq!(
        Gen2AdaptiveQCfg::builder().max_q(2).build().unwrap_err(),
        ValidationError::MaxQNotAboveMinQ
    );
    assert_eq!(
        Gen2AdaptiveQCfg::builder().max_q(16).build().unwrap_err(),
        ValidationError::MaxQTooLarge
    );
    assert!(Gen2AdaptiveQCfg::builder().validate().is_ok());
}

#[test]
fn adaptive_q_wire_record() {
    let enabled = Gen2AdaptiveQCfg::builder()
        .start_q(4)
        .min_q(1)
        .max_q(9)
        .adjust_nic(true)
        .use_ceil_floor(true)
        .build()
        .unwrap();
    assert_eq!(
        Gen2AdaptiveQ::Enable(enabled).as_ffi(),
        wire::Gen2Anticollision {
            adaptive_q: true,
            start_q: 4,
            min_q: 1,
            max_q: 9,
            options: wire::AdaptiveQOptions {
                use_query_adjust_nic: true,
                single_adjust: false,
                use_ceil_floor: true,
                reset_q_after_round: false,
            },
            c1: [5; 16],
            c2: [35; 16],
        }
    );
    assert_eq!(
        Gen2AdaptiveQ::Disable(3).as_ffi(),
        wire::Gen2Anticollision {
            adaptive_q: false,
            start_q: 3,
            min_q: 2,
            max_q: 15,
            options: wire::AdaptiveQOptions {
                use_query_adjust_nic: false,
                single_adjust: false,
                use_ceil_floor: false,
                reset_q_after_round: false,
            },
            c1: [5; 16],
            c2: [35; 16],
        }
    );
    assert_eq!(
        Gen2AdaptiveQ::Enable(Gen2AdaptiveQCfg::default_cfg()).as_ffi(),
        wire::Gen2Anticollision::default()
    );
}

#[test]
fn every_builder_builds_its_defaults() {
    assert_eq!(
        AutoTuning::builder().build().unwrap(),
        AutoTuning { interval: 7, level: 20, algo: TuningAlgorithm::Fast, false_positive_detect: true }
    );
    assert_eq!(
        LbtCfg::builder().build().unwrap(),
        LbtCfg { listening_time: 1, idle_time: 0, rssi_log_threshold: 31 }
    );
    assert_eq!(
        FreqHopCfg::builder().build().unwrap(),
        FreqHopCfg { max_sending_time: 400, min_sending_time: 400, mode: FreqHopMode::IgnoreMin }
    );
    assert_eq!(
        Gen2InventoryOptions::builder().build().unwrap(),
        Gen2InventoryOptions { fast: true, auto_ack: true, read_tid: true }
    );
    assert_eq!(
        Gen2QueryParams::builder().build().unwrap(),
        Gen2QueryParams {
            sel: QuerySel::All,
            session: Gen2Session::Session0,
            target: Gen2QueryTarget::A,
            toggle_target: true,
            target_depletion_mode: true,
        }
    );
    assert_eq!(
        Gen2ProtocolCfg::builder().build().unwrap(),
        Gen2ProtocolCfg {
            tari: Gen2Tari::Six,
            blf: Gen2Blf::ThreeHundredTwenty,
            coding: Gen2Coding::Miller2,
            trext: true,
        }
    );
    let inv = Gen2InventoryCfg::builder().build().unwrap();
    assert_eq!(inv.options, Gen2InventoryOptions { fast: true, auto_ack: true, read_tid: true });
    assert_eq!(inv.adaptive_q, Gen2AdaptiveQ::Enable(Gen2AdaptiveQCfg::default_cfg()));
    assert_eq!(inv.auto_rx_sensitivity, AutoRxSensitivity::from(true));
    assert_eq!(inv.auto_tx_strength, AutoTxStrength::from(true));
    assert!(TxRxCfg::builder().build().is_ok());
    assert!(Gen2AdaptiveQCfg::builder().build().is_ok());

    let cfg = Gen2Cfg::builder().build().unwrap();
    assert_eq!(cfg.tx_rx_cfg, TxRxCfg::builder().build().unwrap());
    assert_eq!(cfg.inv_cfg, inv);
    assert_eq!(cfg.lbt, Lbt::Disable);
    assert_eq!(cfg.channel_list.len(), 4);
    assert_eq!(cfg.channel_list.as_ffi(), wire::ChannelList::from_profile(Profile::Europe));
    assert_eq!(cfg.freq_hop, FreqHopCfg::builder().build().unwrap());
    let copy = cfg.clone();
    assert_eq!(copy.channel_list.as_ffi(), cfg.channel_list.as_ffi());
}

#[test]
fn builders_take_overrides() {
    let tuning = AutoTuning::builder().interval(3).algo(TuningAlgorithm::Exact).build().unwrap();
    assert_eq!(
        tuning.as_ffi(),
        wire::AutoTuning {
            interval: 3,
            level: 20,
            algorithm: TuningAlgorithm::Exact,
            false_positive_detection: true,
        }
    );
    let hop = FreqHopCfg::builder().mode(FreqHopMode::FastFcc).max_sending_time(40).build().unwrap();
    assert_eq!(
        hop.as_ffi(),
        wire::FreqHop { max_sending_time: 40, min_sending_time: 400, mode: FreqHopMode::FastFcc, rfu: 0 }
    );
    let list = ChannelListCfg::from(&[ChannelItem::from_freq(915_000)]).unwrap();
    let lbt = Lbt::Enable(LbtCfg::builder().listening_time(9).build().unwrap());
    let cfg = Gen2Cfg::builder()
        .tx_rx_cfg(TxRxCfg::builder().antenna(Antenna::Antenna2).build().unwrap())
        .lbt(lbt)
        .channel_list(list)
        .freq_hop(hop)
        .build()
        .unwrap();
    assert_eq!(cfg.tx_rx_cfg.as_ffi().used_antenna, Antenna::Antenna2);
    assert_eq!(cfg.lbt, lbt);
    assert_eq!(cfg.channel_list.len(), 1);
    assert_eq!(cfg.freq_hop, hop);
}

#[test]
fn wire_records_of_the_parts() {
    assert_eq!(
        Lbt::Disable.as_ffi(),
        wire::FreqLbt { listening_time: 1, idle_time: 0, rssi_log_threshold: 31, skip_lbt_check: true }
    );
    let lbt = Lbt::Enable(LbtCfg { listening_time: 5, idle_time: 6, rssi_log_threshold: 7 });
    assert_eq!(
        lbt.as_ffi(),
        wire::FreqLbt { listening_time: 5, idle_time: 6, rssi_log_threshold: 7, skip_lbt_check: false }
    );
    let rx = AutoRxSensitivity::from(false).as_ffi();
    assert!(!rx.adaptive_rx);
    assert_eq!(
        wire::AdaptiveSensitivity { adaptive_rx: true, ..rx },
        wire::AdaptiveSensitivity::default()
    );
    assert_eq!((rx.start_rx, rx.min_rx, rx.max_rx), (3, -17, 19));
    assert_eq!((rx.dec_threshold, rx.inc_threshold), ([-120; 20], [100; 20]));
    let tx = AutoTxStrength::from(true).as_ffi();
    assert_eq!(
        tx,
        wire::AdaptiveOutputPower { adaptive_tx: true, start_tx: -2, min_tx: 0, max_tx: -19 }
    );
    let inv = Gen2InventoryCfg::builder().build().unwrap().as_ffi();
    assert_eq!(
        inv.inventory_option,
        wire::Gen2InventoryOption { fast: true, auto_ack: true, read_tid: true }
    );
    assert_eq!(inv.anti_collision, wire::Gen2Anticollision::default());
    assert_eq!(inv.auto_tuning, wire::AutoTuning::default());
    assert_eq!(
        inv.query_params,
        wire::Gen2QueryParams { target_depletion_mode: true, ..wire::Gen2QueryParams::default() }
    );
    assert!(inv.adaptive_sensitivity.adaptive_rx);
    assert!(inv.adaptive_output_power.adaptive_tx);
    assert_eq!(
        Gen2ProtocolCfg::builder().build().unwrap().as_ffi(),
        wire::Gen2ProtocolCfg {
            tari: Gen2Tari::Six,
            blf: Gen2Blf::ThreeHundredTwenty,
            coding: Gen2Coding::Miller2,
            trext: true,
        }
    );
}

#[test]
fn firmware_defaults() {
    assert_eq!(wire::TxRxCfg::default().rx_sensitivity, 3);
    assert_eq!(
        wire::Gen2InventoryOption::default(),
        wire::Gen2InventoryOption { fast: true, auto_ack: false, read_tid: false }
    );
    assert_eq!(wire::Gen2Anticollision::default().max_q, 15);
    assert_eq!(
        wire::Gen2ProtocolCfg::default(),
        wire::Gen2ProtocolCfg {
            tari: Gen2Tari::TwentyFive,
            blf: Gen2Blf::TwoHundredFiftySix,
            coding: Gen2Coding::Miller8,
            trext: true,
        }
    );
    assert_eq!(wire::FreqHop::default().max_sending_time, 400);
    assert_eq!(wire::Gen2Select::default().mode, wire::SelectMode::ClearList);
    assert_eq!(wire::Gen2Select::default().target, wire::SelectTarget::S0);
    assert_eq!(wire::TuneCfg::default().algorithm, TuningAlgorithm::GroupedExact);
    assert!(!wire::TuneCfg::default().tune_all);
    assert_eq!(wire::InventoryOption::default().options, 0);
    assert_eq!(wire::InventoryStatistics::default().tuning_status, TuningStatus::Untuned);
    assert_eq!(
        wire::Caps::default(),
        wire::Caps { cin: Cap::FirmwareDefault, clen: Cap::FirmwareDefault, cout: Cap::FirmwareDefault }
    );
    assert_eq!(wire::Gen2InventoryCfg::default().auto_tuning, wire::AutoTuning::default());
}

#[test]
fn channel_items() {
    let caps = TuningCaps::from(1, 2, 3);
    assert_eq!(caps, TuningCaps { cin: Cap::Value(1), clen: Cap::Value(2), cout: Cap::Value(3) });
    assert_eq!(
        caps.as_ffi(),
        wire::Caps { cin: Cap::Value(1), clen: Cap::Value(2), cout: Cap::Value(3) }
    );
    assert_eq!(TuningCaps::default().cin, Cap::FirmwareDefault);
    let item = ChannelItem::from(865_700, [caps, TuningCaps::from(4, 5, 6)]);
    assert_eq!(item.frequency, 865_700);
    assert_eq!(
        item.as_ffi(),
        wire::ChannelItem::from_raw((865_700, ((1, 2, 3), (4, 5, 6)), 0, 0))
    );
    let plain = ChannelItem::from_freq(902_750);
    assert_eq!(plain, ChannelItem { frequency: 902_750, caps: [TuningCaps::default(); 2] });
    assert_eq!(plain.as_ffi().caps, [wire::Caps::default(); 2]);
    let raw = wire::ChannelItem::from_raw((1, ((2, 3, 4), (5, 6, 7)), 8, 9));
    assert_eq!((raw.frequency, raw.rfu1, raw.rfu2), (1, 8, 9));
    assert_eq!(raw.caps[1].clen, Cap::Value(6));
}

#[test]
fn channel_list_holds_at_most_53() {
    let items: Vec<ChannelItem> = (0..54).map(|i| ChannelItem::from_freq(900_000 + i)).collect();
    assert_eq!(ChannelListCfg::from(&items).unwrap_err(), ValidationError::TooManyChannels);
    let list = ChannelListCfg::from(&items[..53]).unwrap();
    assert_eq!(list.len(), 53);
    let table = list.as_ffi();
    assert!(!table.persistent);
    assert_eq!(table.channel_list_idx, 0);
    assert_eq!(table.item_list.len(), 53);
    assert_eq!(table.item_list[52].frequency, 900_052);
    assert_eq!(ChannelListCfg::from(&[]).unwrap().len(), 0);
    assert_eq!(list.clone().as_ffi(), table);
}

#[test]
fn enum_codes() {
    assert_eq!(QuerySel::All.code(), 0b00);
    assert_eq!(QuerySel::Sel.code(), 0b10);
    assert_eq!(QuerySel::NotSel.code(), 0b11);
    assert_eq!(QuerySel::from_u8(0b01), None);
    assert_eq!(Gen2QueryTarget::A.code(), 0);
    assert_eq!(Gen2QueryTarget::B.code(), 1);
    for n in 0..=255u8 {
        match QuerySel::from_u8(n) {
            Some(q) => assert_eq!(q.code(), n),
            None => assert!(n == 1 || n > 3),
        }
        match Gen2QueryTarget::from_u8(n) {
            Some(t) => assert_eq!(t.code(), n),
            None => assert!(n > 1),
        }
    }
    assert_eq!(MemoryBank::Reserved.code(), 0);
    assert_eq!(MemoryBank::Epc.code(), 1);
    assert_eq!(MemoryBank::Tid.code(), 2);
    assert_eq!(MemoryBank::User.code(), 3);
}

#[test]
fn names_of_antennas_and_tuning_states() {
    assert_eq!(Antenna::Antenna1.to_string(), "Antenna 1");
    assert_eq!(Antenna::Antenna2.to_string(), "Antenna 2");
    assert_eq!(Antenna::Antenna3.to_string(), "Antenna 3");
    assert_eq!(Antenna::Antenna4.to_string(), "Antenna 4");
    assert_eq!(TuningStatus::Untuned.to_string(), "Untuned");
    assert_eq!(TuningStatus::Tuning.to_string(), "Tuning");
    assert_eq!(TuningStatus::Tuned.to_string(), "Tuned");
}

#[test]
fn error_text() {
    assert_eq!(Error::Generic.to_string(), "Generic Error");
    assert_eq!(Error::NoError.to_string(), "None Error");
    assert_eq!(Error::NoMem.to_string(), "No Memory Error");
    assert_eq!(Error::GeneralIo.to_string(), "General IO Error");
    assert_eq!(Error::ChipCrc.to_string(), "Chip CRC Error");
    assert_eq!(Error::Gen2RespBufOverflow.to_string(), "Gen2 Response Buffer Overflow Error");
    assert_eq!(Error::Gb29768AuthError.to_string(), "Gb29768 Authentication Error Error");
    assert_eq!(Error::Iso6bAccessTimeout.to_string(), "Iso6b Access Timeout Error");
    assert_eq!(Error::Busy.as_str(), "Busy");
    assert!(Error::NoError.is_success());
    assert!(!Error::Generic.is_success());
}

#[test]
fn statistics_from_the_chip() {
    let raw = wire::InventoryStatistics {
        timestamp: 1,
        round_cnt: 2,
        tuning_status: TuningStatus::Tuned,
        rssi_log_mean: 3,
        sensitivity: -4,
        q: 5,
        frequency: 865_700,
        adc: 7,
        tag_cnt: 8,
        empty_slot_cnt: 9,
        slot_cnt: 10,
        collision_cnt: 11,
        preamble_err_cnt: 12,
        crc_err_cnt: 13,
        header_err_cnt: 14,
        rx_count_err_cnt: 15,
        resend_ack_cnt: 16,
        noise_suspicion_cnt: 17,
    };
    let stats = InventoryStatistics::from(raw);
    assert_eq!(
        stats,
        InventoryStatistics {
            timestamp: 1,
            round_count: 2,
            tuning_status: TuningStatus::Tuned,
            rssi_log_mean: 3,
            sensitivity: -4,
            final_q: 5,
            frequency: 865_700,
            adc: 7,
            tag_count: 8,
            empty_slot_count: 9,
            slot_count: 10,
            collision_count: 11,
            preamble_err_count: 12,
            crc_err_count: 13,
            rx_count_err_count: 15,
            resend_ack_count: 16,
            noise_suspicion_count: 17,
        }
    );
    assert_eq!(InventoryStatistics::new(), InventoryStatistics::from(wire::InventoryStatistics::default()));
    assert_eq!(
        stats.to_string(),
        "Timestamp: 1
            Round Count: 2
            Tuning Status: Tuned
            RSSI log mean: 3
            Sensitivity: -4
            Final Q: 5
            Frequency: 865700 Hz
            ADC: 7
            Tag Count: 8
            Empty Slot Count: 9
            Collision Count: 11
            Preamble Error Count: 12
            CRC Error Count: 13
            RX Count Error Count: 15
            Resend Ack Count: 16
            Noise Suspicion Count: 17"
    );
}

#[test]
fn tag_from_the_chip() {
    let raw = wire::InventoryTag {
        slot_id: 4_000_000_000,
        timestamp: 12,
        antenna: Antenna::Antenna2,
        agc: 200,
        rssi_log_i: 10,
        rssi_log_q: 0,
        rssi_lin_i: -128,
        rssi_lin_q: 127,
        pc: [0x30, 0x00],
        xpc: wire::TagId { data: vec![0xAA; 4], length: 0 },
        epc: wire::TagId { data: vec![0xE2, 0x00, 0x42, 0xFF, 0xFF], length: 3 },
        tid: wire::TagId { data: vec![1, 2, 3, 4], length: 4 },
    };
    assert!(raw.is_wf());
    let tag = InventoryTag::from(&raw);
    assert_eq!(tag.slot_id, 4_000_000_000);
    assert_eq!(tag.antenna, Antenna::Antenna2);
    assert_eq!(tag.pc, [0x30, 0x00]);
    assert_eq!(tag.xpc.get_id(), &[] as &[u8]);
    assert_eq!(tag.epc.get_id(), &[0xE2u8, 0x00, 0x42][..]);
    assert_eq!(tag.tid.get_id(), &[1u8, 2, 3, 4][..]);
    assert!(tag.clone() == tag);
    assert_eq!(
        tag.to_string(),
        "Slot ID: 4000000000
            Timestamp: 12
            Antenna: Antenna 2
            AGC: 200
            RSSI log i: 10
            RSSI log q: 0
            RSSI lin i: -128
            RSSI lin q: 127"
    );
}

#[test]
fn custom_command_data() {
    let bytes = [0xAAu8, 0xBB];
    assert!(Gen2CustomCommandData::new(7, &bytes).is_none());
    assert!(Gen2CustomCommandData::new(16, &bytes).is_none());
    assert!(Gen2CustomCommandData::new(17, &bytes).is_none());
    for bits in 8..16 {
        let data = Gen2CustomCommandData::new(bits, &bytes).unwrap();
        assert_eq!(data.num_bits() as usize, bits);
        assert_eq!(data.bytes(), &bytes[..]);
        assert!(std::ptr::eq(data.bytes(), &bytes[..]));
    }
    assert!(Gen2CustomCommandData::new(12, &[0xAB, 0xC0]).is_some());
    assert!(Gen2CustomCommandData::new(0, &[]).is_none());
    assert!(Gen2CustomCommandData::new(7, &[]).is_none());
    assert!(Gen2CustomCommandData::new(usize::MAX, &[]).is_none());
    assert!(Gen2CustomCommandData::new(0, &[1]).is_some());
    assert!(Gen2CustomCommandData::new(8, &[1]).is_none());
    let longest = [0u8; 62];
    assert!(Gen2CustomCommandData::new(8 * 62 - 1, &longest).is_some());

    // more bytes than a command can carry make a packet all the same
    let longer = [0u8; 63];
    let data = Gen2CustomCommandData::new(500, &longer).unwrap();
    assert_eq!(data.num_bits(), 500);
    assert_eq!(data.bytes().len(), 63);
    assert!(Gen2CustomCommandData::new(8 * 63, &longer).is_none());
    assert!(Gen2CustomCommandData::new(8 * 62 - 1, &longer).is_none());

    // the bit length is kept in 16 bits
    let large = vec![0u8; 8192];
    assert_eq!(Gen2CustomCommandData::new(65_535, &large).unwrap().num_bits(), 65_535);
    let larger = vec![0u8; 8193];
    assert_eq!(Gen2CustomCommandData::new(65_536, &larger).unwrap().num_bits(), 0);
    assert_eq!(Gen2CustomCommandData::new(65_543, &larger).unwrap().num_bits(), 7);
    assert!(Gen2CustomCommandData::new(65_535, &larger).is_none());
    assert!(Gen2CustomCommandData::new(usize::MAX, &larger).is_none());
}

#[test]
fn error_as_string() {
    let text: String = Error::Timeout.into();
    assert_eq!(text, "Timeout Error");
    assert_eq!(String::from(Error::NoError), "None Error");
    assert_eq!(String::from(Error::Gen2MemLocked), Error::Gen2MemLocked.to_string());
}
