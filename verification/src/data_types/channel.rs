//! The channel list: the frequencies that the reader may use, each with the
//! settings of the antenna tuning network.

use super::enums::Profile;
use super::traits::AsFFI;
use super::validation::ValidationError;
use crate::helpers::{item_list_to_ffi, profile_table, profile_to_item_list};
use crate::wire;
use crate::wire::MAX_FREQUENCY;
use vstd::slice::slice_to_vec;
use vstd::prelude::*;

verus! {

/// One capacitor of the tuning network: left at the value that the firmware
/// starts with, or set to a value.
#[derive(Copy, Clone, Debug, PartialEq, Eq, Structural)]
pub enum Cap {
    /// The firmware's default capacitance.
    FirmwareDefault,
    /// This capacitance.
    Value(u8),
}

/// Capacitance values of the self-jamming PI-capacitor network.
#[derive(Copy, Clone, Debug, PartialEq, Eq, Structural)]
pub struct TuningCaps {
    /// IN capacitance of tuning network
    pub cin: Cap,
    /// LEN capacitance of tuning network
    pub clen: Cap,
    /// OUT capacitance of tuning network
    pub cout: Cap,
}

impl TuningCaps {
    /// Three capacitors left at the firmware's default.
    pub open spec fn spec_default() -> TuningCaps {
        TuningCaps { cin: Cap::FirmwareDefault, clen: Cap::FirmwareDefault, cout: Cap::FirmwareDefault }
    }

    /// Three capacitors set to the values given.
    pub open spec fn spec_from(cin: u8, clen: u8, cout: u8) -> TuningCaps {
        TuningCaps { cin: Cap::Value(cin), clen: Cap::Value(clen), cout: Cap::Value(cout) }
    }

    /// Create tuning caps from manually-specified values.
    #[verifier::when_used_as_spec(spec_from)]
    pub fn from(cin: u8, clen: u8, cout: u8) -> (r: Self)
        ensures
            r == TuningCaps::spec_from(cin, clen, cout),
    {
        Self { cin: Cap::Value(cin), clen: Cap::Value(clen), cout: Cap::Value(cout) }
    }
}

impl Default for TuningCaps {
    fn default() -> (r: Self)
        ensures
            r == TuningCaps::spec_default(),
    {
        Self { cin: Cap::FirmwareDefault, clen: Cap::FirmwareDefault, cout: Cap::FirmwareDefault }
    }
}

impl AsFFI<wire::Caps> for TuningCaps {
    fn as_ffi(&self) -> (w: wire::Caps)
        ensures
            w == (wire::Caps { cin: self.cin, clen: self.clen, cout: self.cout }),
    {
        wire::Caps { cin: self.cin, clen: self.clen, cout: self.cout }
    }
}

/// A single frequency configuration in a [`ChannelListCfg`].
#[derive(Copy, Clone, Debug, PartialEq, Eq)]
pub struct ChannelItem {
    /// Frequency to be used for channel item (kHz)
    pub frequency: u32,
    /// Tuning capacitor values, one set for each of two antennas
    pub caps: [TuningCaps; 2],
}

impl ChannelItem {
    /// The item with this frequency and these capacitor values.
    pub open spec fn spec_from(frequency: u32, caps: [TuningCaps; 2]) -> ChannelItem {
        ChannelItem { frequency, caps }
    }

    /// Create [`ChannelItem`] from a frequency, using default tuning
    /// capacitor values (recommended).
    pub fn from_freq(frequency: u32) -> (r: Self)
        ensures
            r == ChannelItem::spec_from(frequency, [TuningCaps::spec_default(), TuningCaps::spec_default()]),
    {
        Self { frequency, caps: [TuningCaps::default(), TuningCaps::default()] }
    }

    /// Create [`ChannelItem`] from a frequency, manually specifying each
    /// tuning capacitor value. Advanced usage only!
    #[verifier::when_used_as_spec(spec_from)]
    pub fn from(frequency: u32, caps: [TuningCaps; 2]) -> (r: Self)
        ensures
            r == ChannelItem::spec_from(frequency, caps),
    {
        Self { frequency, caps }
    }
}

impl ChannelItem {
    /// The entry of the chip's channel table that the item becomes. The two
    /// reserved bytes are 0.
    pub open spec fn wire_entry(self) -> wire::ChannelEntry {
        wire::ChannelEntry {
            frequency: self.frequency,
            caps0: wire::Caps { cin: self.caps[0].cin, clen: self.caps[0].clen, cout: self.caps[0].cout },
            caps1: wire::Caps { cin: self.caps[1].cin, clen: self.caps[1].clen, cout: self.caps[1].cout },
            rfu1: 0,
            rfu2: 0,
        }
    }
}

impl AsFFI<wire::ChannelItem> for ChannelItem {
    fn as_ffi(&self) -> (w: wire::ChannelItem)
        ensures
            w@ == self.wire_entry(),
    {
        wire::ChannelItem {
            frequency: self.frequency,
            caps: [self.caps[0].as_ffi(), self.caps[1].as_ffi()],
            rfu1: 0,
            rfu2: 0,
        }
    }
}

/// Contains a list of [`ChannelItem`]. This represents all the frequencies
/// the reader can try to use during transmission. A list never holds more
/// items than the chip's channel table has entries.
#[derive(Debug)]
pub struct ChannelListCfg {
    item_list: Vec<ChannelItem>,
}

impl View for ChannelListCfg {
    type V = Seq<ChannelItem>;

    closed spec fn view(&self) -> Seq<ChannelItem> {
        self.item_list@
    }
}

impl ChannelListCfg {
    #[verifier::type_invariant]
    spec fn fits(self) -> bool {
        self.item_list@.len() <= MAX_FREQUENCY
    }

    /// Create a channel list manually (advanced usage). A list of more than
    /// 53 items is refused.
    pub fn from(item_list: &[ChannelItem]) -> (r: core::result::Result<Self, ValidationError>)
        ensures
            item_list@.len() <= MAX_FREQUENCY ==> r is Ok && r->Ok_0@ == item_list@,
            item_list@.len() > MAX_FREQUENCY ==> r == Err::<Self, ValidationError>(
                ValidationError::TooManyChannels,
            ),
    {
        if item_list.len() > MAX_FREQUENCY {
            Err(ValidationError::TooManyChannels)
        } else {
            Ok(Self { item_list: slice_to_vec(item_list) })
        }
    }

    /// Create a channel list using a profile specified in the firmware
    pub fn from_profile(profile: Profile) -> (r: Self)
        ensures
            r@ == profile_table(profile),
    {
        Self { item_list: profile_to_item_list(profile) }
    }

    /// Number of channels in the list.
    pub fn len(&self) -> (n: usize)
        ensures
            n == self@.len(),
            n <= MAX_FREQUENCY,
    {
        proof {
            use_type_invariant(self);
        }
        self.item_list.len()
    }

    /// The table that the list becomes: not persistent, at index 0 of the
    /// chip's lists, one entry for each item, in order.
    pub open spec fn wire_table(items: Seq<ChannelItem>) -> wire::ChannelTable {
        wire::ChannelTable {
            persistent: false,
            channel_list_idx: 0,
            items: Seq::new(items.len(), |i: int| items[i].wire_entry()),
        }
    }
}

impl Clone for ChannelListCfg {
    fn clone(&self) -> (r: Self)
        ensures
            r@ == self@,
    {
        proof {
            use_type_invariant(self);
        }
        Self { item_list: slice_to_vec(self.item_list.as_slice()) }
    }
}

impl AsFFI<wire::ChannelList> for ChannelListCfg {
    fn as_ffi(&self) -> (w: wire::ChannelList)
        ensures
            w@ == ChannelListCfg::wire_table(self@),
            w.item_list@.len() <= MAX_FREQUENCY,
    {
        proof {
            use_type_invariant(self);
        }
        let w = wire::ChannelList {
            persistent: false,
            channel_list_idx: 0,
            item_list: item_list_to_ffi(self.item_list.as_slice()),
        };
        assert(w@.items =~= ChannelListCfg::wire_table(self@).items);
        w
    }
}

} // verus!
