use libstuhfl::data_types::{AsFFI, ChannelItem, ChannelListCfg, Profile, TuningCaps};
use libstuhfl::error::Error;
use libstuhfl::helpers::{ebv_formatter, item_list_to_ffi, proc_err, profile_to_item_list};
use libstuhfl::text::{decimal_string, digit_str, hex_byte_string, signed_decimal_string};
use libstuhfl::wire;

/// Reads an extensible bit vector: bytes are taken while the top bit is set,
/// and one more; every byte gives seven bits.
fn ebv_decode(bytes: &[u8]) -> Option<(u64, usize)> {
    let mut value: u64 = 0;
    for (i, b) in bytes.iter().enumerate() {
        value = (value << 7) | u64::from(b & 0x7F);
        if b & 0x80 == 0 {
            return Some((value, i + 1));
        }
    }
    None
}

#[test]
fn ebv_of_the_word_address_0xec() {
    let bytes = ebv_formatter(0xEC);
    assert_eq!(bytes, vec![0x81, 0x6C]);
    assert_eq!(ebv_decode(&bytes), Some((0xEC, 2)));
}

#[test]
fn ebv_exact_values() {
    assert_eq!(ebv_formatter(0), vec![0x00]);
    assert_eq!(ebv_formatter(1), vec![0x01]);
    assert_eq!(ebv_formatter(127), vec![0x7F]);
    assert_eq!(ebv_formatter(128), vec![0x81, 0x00]);
    assert_eq!(ebv_formatter(255), vec![0x81, 0x7F]);
    assert_eq!(ebv_formatter(16_383), vec![0xFF, 0x7F]);
    assert_eq!(ebv_formatter(16_384), vec![0x81, 0x80, 0x00]);
    assert_eq!(ebv_formatter(0x0FFF_FFFF), vec![0xFF, 0xFF, 0xFF, 0x7F]);
    assert_eq!(ebv_formatter(u32::MAX), vec![0x8F, 0xFF, 0xFF, 0xFF, 0x7F]);
}

#[test]
fn ebv_round_trip_and_continuation_bits() {
    let mut samples: Vec<u32> = (0..20_000).collect();
    for shift in 0..32 {
        let p = 1u32 << shift;
        samples.extend([p - 1, p, p.wrapping_add(1), p | 0x55, u32::MAX - p]);
    }
    for n in samples {
        let bytes = ebv_formatter(n);
        assert!((1..=5).contains(&bytes.len()));
        let (last, head) = bytes.split_last().unwrap();
        assert!(last & 0x80 == 0, "last byte of {n} carries the flag");
        assert!(head.iter().all(|b| b & 0x80 != 0), "a byte of {n} lacks the flag");
        assert_eq!(ebv_decode(&bytes), Some((u64::from(n), bytes.len())));
        if bytes.len() > 1 {
            assert!(bytes[0] != 0x80, "{n} starts with an empty group");
        }
        let needed = (32 - n.leading_zeros()).max(1).div_ceil(7) as usize;
        assert_eq!(bytes.len(), needed);
    }
}

#[test]
fn status_codes_become_results() {
    assert_eq!(proc_err(Error::NoError), Ok(()));
    assert_eq!(proc_err(Error::Generic), Err(Error::Generic));
    assert_eq!(proc_err(Error::Timeout), Err(Error::Timeout));
    assert_eq!(proc_err(Error::Gen2MemLocked), Err(Error::Gen2MemLocked));
}

#[test]
fn profile_tables() {
    let europe = profile_to_item_list(Profile::Europe);
    assert_eq!(
        europe,
        vec![
            ChannelItem::from(865700, [TuningCaps::from(12, 12, 14), TuningCaps::from(12, 9, 16)]),
            ChannelItem::from(866300, [TuningCaps::from(12, 12, 14), TuningCaps::from(11, 9, 16)]),
            ChannelItem::from(866900, [TuningCaps::from(11, 12, 14), TuningCaps::from(11, 9, 16)]),
            ChannelItem::from(867500, [TuningCaps::from(11, 12, 14), TuningCaps::from(11, 9, 16)]),
        ]
    );
    let usa = profile_to_item_list(Profile::Usa);
    assert_eq!(usa.len(), 50);
    assert_eq!(usa[0], ChannelItem::from(902750, [TuningCaps::from(13, 24, 12), TuningCaps::from(9, 19, 15)]));
    assert_eq!(usa[6], ChannelItem::from(905750, [TuningCaps::from(9, 19, 14), TuningCaps::from(10, 25, 15)]));
    assert_eq!(usa[30], ChannelItem::from(917750, [TuningCaps::from(9, 10, 12), TuningCaps::from(9, 14, 14)]));
    assert_eq!(usa[49], ChannelItem::from(927250, [TuningCaps::from(8, 6, 12), TuningCaps::from(9, 30, 15)]));
    let japan = profile_to_item_list(Profile::Japan);
    assert_eq!(japan.len(), 9);
    assert_eq!(japan[8], ChannelItem::from(922100, [TuningCaps::from(10, 16, 12), TuningCaps::from(9, 30, 15)]));
    let china = profile_to_item_list(Profile::China);
    assert_eq!(china.len(), 16);
    assert_eq!(china[0], ChannelItem::from(840625, [TuningCaps::from(15, 21, 15), TuningCaps::from(13, 15, 18)]));
    assert_eq!(china[9], ChannelItem::from(842875, [TuningCaps::from(13, 14, 15), TuningCaps::from(16, 20, 17)]));
    assert_eq!(china[15], ChannelItem::from(844375, [TuningCaps::from(15, 23, 15), TuningCaps::from(16, 20, 17)]));
    assert_eq!(profile_to_item_list(Profile::China2), japan);
}

#[test]
fn profiles_fit_the_channel_table_and_rise() {
    for profile in [Profile::Europe, Profile::Usa, Profile::Japan, Profile::China, Profile::China2] {
        let list = profile_to_item_list(profile);
        assert!(!list.is_empty() && list.len() <= 53);
        let step = list[1].frequency - list[0].frequency;
        for pair in list.windows(2) {
            assert_eq!(pair[1].frequency - pair[0].frequency, step);
        }
        assert_eq!(ChannelListCfg::from_profile(profile).len(), list.len());
        let table = wire::ChannelList::from_profile(profile);
        assert_eq!(table.item_list, item_list_to_ffi(&list));
        assert_eq!(table, ChannelListCfg::from(&list).unwrap().as_ffi());
        assert!(table.item_list.iter().all(|item| item.rfu1 == 0 && item.rfu2 == 0));
    }
}

#[test]
fn item_lists_convert_one_for_one() {
    let items = [
        ChannelItem::from(1, [TuningCaps::from(1, 2, 3), TuningCaps::from(4, 5, 6)]),
        ChannelItem::from_freq(2),
    ];
    let converted = item_list_to_ffi(&items);
    assert_eq!(converted.len(), 2);
    assert_eq!(converted[0], wire::ChannelItem::from_raw((1, ((1, 2, 3), (4, 5, 6)), 0, 0)));
    assert_eq!(converted[1], items[1].as_ffi());
    assert!(item_list_to_ffi(&[]).is_empty());
}

#[test]
fn numbers_as_text() {
    assert_eq!(decimal_string(0), "0");
    assert_eq!(decimal_string(9), "9");
    assert_eq!(decimal_string(10), "10");
    assert_eq!(decimal_string(4_294_967_295), "4294967295");
    for n in (0..100_000u32).step_by(37) {
        assert_eq!(decimal_string(n), format!("{}", n));
    }
    for n in i8::MIN..=i8::MAX {
        assert_eq!(signed_decimal_string(n), format!("{}", n));
    }
    for b in 0..=255u8 {
        assert_eq!(hex_byte_string(b), format!("{:02X}", b));
    }
    assert_eq!(digit_str(11), "B");
}
