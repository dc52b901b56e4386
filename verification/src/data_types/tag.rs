//! What an inventory finds: tags, their identifiers, and the counters of
//! the run.

use super::enums::{Antenna, TuningStatus};
use crate::text::{
    decimal, decimal_string, digit_char, digit_value, hex_byte, hex_byte_string,
    lemma_digit_round_trip, signed_decimal, signed_decimal_string,
};
use crate::wire;
use vstd::prelude::*;
use vstd::slice::{slice_subrange, slice_to_vec};
use vstd::std_specs::cmp::PartialEqSpecImpl;
use vstd::string::StringExecFns;

verus! {

/// Password for authentication during various protocol commands: exactly
/// four bytes, handed to the tag as they are.
#[derive(Copy, Clone, Debug)]
pub struct Password([u8; 4]);

impl View for Password {
    type V = Seq<u8>;

    closed spec fn view(&self) -> Seq<u8> {
        self.0@
    }
}

impl Password {
    /// The password of these four bytes.
    pub fn from(password: [u8; 4]) -> (r: Self)
        ensures
            r@ == password@,
    {
        Self(password)
    }

    /// Returns the password as four bytes. This function consumes self.
    pub fn into_inner(self) -> (r: [u8; 4])
        ensures
            r@ == self@,
    {
        self.0
    }
}

/// The text of a list of bytes: each byte as two upper-case hexadecimal
/// digits, with a colon between neighbours and none at either end.
pub open spec fn hex_id_text(id: Seq<u8>) -> Seq<char>
    decreases id.len(),
{
    if id.len() == 0 {
        Seq::<char>::empty()
    } else if id.len() == 1 {
        hex_byte(id[0])
    } else {
        hex_id_text(id.drop_last()) + seq![':'] + hex_byte(id.last())
    }
}

/// Where every character of the text stands: byte `i` fills the places
/// `3 * i` and `3 * i + 1`, and a colon follows every byte but the last.
pub proof fn lemma_hex_id_text_layout(id: Seq<u8>)
    ensures
        id.len() == 0 ==> hex_id_text(id).len() == 0,
        id.len() > 0 ==> hex_id_text(id).len() == 3 * id.len() - 1,
        forall|i: int|
            0 <= i < id.len() ==> {
                &&& #[trigger] hex_id_text(id)[3 * i] == digit_char(id[i] as int / 16)
                &&& hex_id_text(id)[3 * i + 1] == digit_char(id[i] as int % 16)
            },
        forall|i: int| 0 <= i < id.len() - 1 ==> #[trigger] hex_id_text(id)[3 * i + 2] == ':',
    decreases id.len(),
{
    if id.len() >= 2 {
        let head = id.drop_last();
        lemma_hex_id_text_layout(head);
        let text = hex_id_text(id);
        assert(text == hex_id_text(head) + seq![':'] + hex_byte(id.last()));
        assert forall|i: int| 0 <= i < id.len() implies {
            &&& #[trigger] text[3 * i] == digit_char(id[i] as int / 16)
            &&& text[3 * i + 1] == digit_char(id[i] as int % 16)
        } by {
            if i < head.len() {
                assert(head[i] == id[i]);
                assert(text[3 * i] == hex_id_text(head)[3 * i]);
                assert(text[3 * i + 1] == hex_id_text(head)[3 * i + 1]);
            }
        }
        assert forall|i: int| 0 <= i < id.len() - 1 implies #[trigger] text[3 * i + 2] == ':' by {
            if i < head.len() - 1 {
                assert(text[3 * i + 2] == hex_id_text(head)[3 * i + 2]);
            }
        }
    }
}

/// The text can be read back: the two digits at the places of byte `i` give
/// byte `i`.
pub proof fn lemma_hex_id_text_round_trip(id: Seq<u8>, i: int)
    requires
        0 <= i < id.len(),
    ensures
        digit_value(hex_id_text(id)[3 * i]) * 16 + digit_value(hex_id_text(id)[3 * i + 1])
            == id[i],
{
    lemma_hex_id_text_layout(id);
    lemma_digit_round_trip(id[i] as int / 16);
    lemma_digit_round_trip(id[i] as int % 16);
}

/// Container for hexadecimal-based ID values such as TID, XPC, and EPC. Two
/// are equal when they hold the same bytes in the same order.
#[derive(Debug)]
pub struct HexID {
    id: Vec<u8>,
}

impl View for HexID {
    type V = Seq<u8>;

    closed spec fn view(&self) -> Seq<u8> {
        self.id@
    }
}

impl HexID {
    /// Create a HexID from a list of integers.
    pub fn from_id(id: Vec<u8>) -> (r: HexID)
        ensures
            r@ == id@,
    {
        HexID { id }
    }

    /// Get a HexID as a list of integers.
    pub fn get_id(&self) -> (r: &[u8])
        ensures
            r@ == self@,
    {
        self.id.as_slice()
    }

    /// Number of bytes of the ID.
    pub fn len(&self) -> (n: usize)
        ensures
            n == self@.len(),
    {
        self.id.len()
    }

    /// Byte `i` of the ID.
    pub fn index(&self, i: usize) -> (b: &u8)
        requires
            i < self@.len(),
        ensures
            *b == self@[i as int],
    {
        &self.id[i]
    }

    /// Takes the ID out of the buffer that the chip filled: as many bytes
    /// from its start as the chip says it wrote.
    pub fn from_wire(id: &wire::TagId) -> (r: HexID)
        requires
            id.wf(),
        ensures
            r@ == id.bytes(),
    {
        HexID { id: slice_to_vec(slice_subrange(id.data.as_slice(), 0, id.length as usize)) }
    }

    /// Text form of the ID: colon-separated upper-case hexadecimal, with no
    /// colon at the end.
    pub fn to_string(&self) -> (s: String)
        ensures
            s@ == hex_id_text(self@),
    {
        let mut s = String::new();
        let mut i: usize = 0;
        while i < self.id.len()
            invariant
                i <= self.id@.len(),
                s@ == hex_id_text(self.id@.subrange(0, i as int)),
            decreases self.id@.len() - i,
        {
            let ghost before = self.id@.subrange(0, i as int);
            let ghost after = self.id@.subrange(0, i + 1);
            proof {
                assert(after.drop_last() =~= before);
                assert(after.last() == self.id@[i as int]);
                if i == 0 {
                    assert(hex_id_text(before) =~= Seq::<char>::empty());
                    assert(after[0] == self.id@[0]);
                    reveal_with_fuel(hex_id_text, 2);
                } else {
                    reveal_strlit(":");
                }
            }
            if i > 0 {
                s.append(":");
            }
            s.append(hex_byte_string(self.id[i]).as_str());
            i += 1;
            assert(s@ =~= hex_id_text(after));
        }
        assert(self.id@.subrange(0, i as int) =~= self.id@);
        s
    }
}

impl Clone for HexID {
    fn clone(&self) -> (r: Self)
        ensures
            r@ == self@,
    {
        HexID { id: slice_to_vec(self.id.as_slice()) }
    }
}

impl PartialEq for HexID {
    fn eq(&self, other: &Self) -> (r: bool) {
        if self.id.len() != other.id.len() {
            return false;
        }
        let mut i: usize = 0;
        while i < self.id.len()
            invariant
                i <= self.id@.len(),
                self.id@.len() == other.id@.len(),
                forall|k: int| 0 <= k < i ==> self.id@[k] == other.id@[k],
            decreases self.id@.len() - i,
        {
            if self.id[i] != other.id[i] {
                return false;
            }
            i += 1;
        }
        assert(self.id@ =~= other.id@);
        true
    }
}

impl PartialEqSpecImpl for HexID {
    open spec fn obeys_eq_spec() -> bool {
        true
    }

    open spec fn eq_spec(&self, other: &Self) -> bool {
        self@ == other@
    }
}

impl Eq for HexID {

}

/// HexID type to be used only for XPC numbers.
pub type Xpc = HexID;

/// HexID type to be used only for EPC numbers.
pub type Epc = HexID;

/// HexID type to be used only for TID numbers.
pub type Tid = HexID;

/// What an [`InventoryTag`] holds.
pub struct InventoryTagView {
    pub slot_id: u32,
    pub timestamp: u32,
    pub antenna: Antenna,
    pub agc: u8,
    pub rssi_log_i: u8,
    pub rssi_log_q: u8,
    pub rssi_lin_i: i8,
    pub rssi_lin_q: i8,
    pub pc: Seq<u8>,
    pub xpc: Seq<u8>,
    pub epc: Seq<u8>,
    pub tid: Seq<u8>,
}

/// Contains all data related to an RFID tag found during an inventory
/// cycle. These values are populated automatically by the firmware.
#[derive(Debug, PartialEq, Eq)]
pub struct InventoryTag {
    /// Tag detection slot ID
    pub slot_id: u32,
    /// Tag detection time stamp in ms after starting inventory
    pub timestamp: u32,
    /// Antenna at which tag was detected
    pub antenna: Antenna,
    /// AGC (Automatic Gain Control) measured when tag found
    pub agc: u8,
    /// I part of tag logarithmic RSSI
    pub rssi_log_i: u8,
    /// Q part of tag logarithmic RSSI
    pub rssi_log_q: u8,
    /// I part of tag linear RSSI
    pub rssi_lin_i: i8,
    /// Q part of tag linear RSSI
    pub rssi_lin_q: i8,
    /// Tag PC
    pub pc: [u8; 2],
    /// Tag XPC
    pub xpc: Xpc,
    /// Tag EPC
    pub epc: Epc,
    /// Tag TID
    pub tid: Tid,
}

impl View for InventoryTag {
    type V = InventoryTagView;

    open spec fn view(&self) -> InventoryTagView {
        InventoryTagView {
            slot_id: self.slot_id,
            timestamp: self.timestamp,
            antenna: self.antenna,
            agc: self.agc,
            rssi_log_i: self.rssi_log_i,
            rssi_log_q: self.rssi_log_q,
            rssi_lin_i: self.rssi_lin_i,
            rssi_lin_q: self.rssi_lin_q,
            pc: self.pc@,
            xpc: self.xpc@,
            epc: self.epc@,
            tid: self.tid@,
        }
    }
}

impl Clone for InventoryTag {
    fn clone(&self) -> (r: Self)
        ensures
            r@ == self@,
    {
        InventoryTag {
            slot_id: self.slot_id,
            timestamp: self.timestamp,
            antenna: self.antenna,
            agc: self.agc,
            rssi_log_i: self.rssi_log_i,
            rssi_log_q: self.rssi_log_q,
            rssi_lin_i: self.rssi_lin_i,
            rssi_lin_q: self.rssi_lin_q,
            pc: self.pc,
            xpc: self.xpc.clone(),
            epc: self.epc.clone(),
            tid: self.tid.clone(),
        }
    }
}

impl InventoryTag {
    /// What the tag record of the chip stands for: its fields as they are,
    /// and of each identifier the bytes that the chip wrote.
    pub open spec fn of_wire(tag: wire::InventoryTag) -> InventoryTagView {
        InventoryTagView {
            slot_id: tag.slot_id,
            timestamp: tag.timestamp,
            antenna: tag.antenna,
            agc: tag.agc,
            rssi_log_i: tag.rssi_log_i,
            rssi_log_q: tag.rssi_log_q,
            rssi_lin_i: tag.rssi_lin_i,
            rssi_lin_q: tag.rssi_lin_q,
            pc: tag.pc@,
            xpc: tag.xpc.bytes(),
            epc: tag.epc.bytes(),
            tid: tag.tid.bytes(),
        }
    }

    /// Copies a tag out of the record that the chip filled.
    pub fn from(tag: &wire::InventoryTag) -> (r: InventoryTag)
        requires
            tag.wf(),
        ensures
            r@ == InventoryTag::of_wire(*tag),
    {
        InventoryTag {
            slot_id: tag.slot_id,
            timestamp: tag.timestamp,
            antenna: tag.antenna,
            agc: tag.agc,
            rssi_log_i: tag.rssi_log_i,
            rssi_log_q: tag.rssi_log_q,
            rssi_lin_i: tag.rssi_lin_i,
            rssi_lin_q: tag.rssi_lin_q,
            pc: tag.pc,
            xpc: Xpc::from_wire(&tag.xpc),
            epc: Epc::from_wire(&tag.epc),
            tid: Tid::from_wire(&tag.tid),
        }
    }

    /// The text of the tag: eight labelled values, one to a line.
    pub open spec fn text(&self) -> Seq<char> {
        "Slot ID: "@
            + decimal(self.slot_id as nat)
            + "\n            Timestamp: "@
            + decimal(self.timestamp as nat)
            + "\n            Antenna: "@
            + self.antenna.name()
            + "\n            AGC: "@
            + decimal(self.agc as nat)
            + "\n            RSSI log i: "@
            + decimal(self.rssi_log_i as nat)
            + "\n            RSSI log q: "@
            + decimal(self.rssi_log_q as nat)
            + "\n            RSSI lin i: "@
            + signed_decimal(self.rssi_lin_i as int)
            + "\n            RSSI lin q: "@
            + signed_decimal(self.rssi_lin_q as int)
    }

    /// Text form of the tag.
    pub fn to_string(&self) -> (s: String)
        ensures
            s@ == self.text(),
    {
        let s = String::from_str("Slot ID: ");
        let s = s.concat(decimal_string(self.slot_id).as_str());
        let s = s.concat("\n            Timestamp: ");
        let s = s.concat(decimal_string(self.timestamp).as_str());
        let s = s.concat("\n            Antenna: ");
        let s = s.concat(self.antenna.to_string().as_str());
        let s = s.concat("\n            AGC: ");
        let s = s.concat(decimal_string(self.agc as u32).as_str());
        let s = s.concat("\n            RSSI log i: ");
        let s = s.concat(decimal_string(self.rssi_log_i as u32).as_str());
        let s = s.concat("\n            RSSI log q: ");
        let s = s.concat(decimal_string(self.rssi_log_q as u32).as_str());
        let s = s.concat("\n            RSSI lin i: ");
        let s = s.concat(signed_decimal_string(self.rssi_lin_i).as_str());
        let s = s.concat("\n            RSSI lin q: ");
        let s = s.concat(signed_decimal_string(self.rssi_lin_q).as_str());
        s
    }
}

/// Statistics related to an inventory run. These are generated by the
/// firmware.
#[derive(Copy, Clone, PartialEq, Eq, Debug)]
pub struct InventoryStatistics {
    /// Timestamp since last statistics update.
    pub timestamp: u32,
    /// Inventory rounds already complete.
    pub round_count: u32,
    /// Reader tuning status.
    pub tuning_status: TuningStatus,
    /// RSSI log mean value. Updated with each found tag.
    pub rssi_log_mean: u8,
    /// Reader sensitivity.
    pub sensitivity: i8,
    /// Current Q, may vary if adaptive Q is enabled.
    pub final_q: u8,
    /// Currently used frequency.
    pub frequency: u32,
    /// ADC value, measured between each round.
    pub adc: u16,
    /// Number of detected tags.
    pub tag_count: u32,
    /// Number of empty slots.
    pub empty_slot_count: u32,
    /// Number of executed slots.
    pub slot_count: u32,
    /// Number of collisions.
    pub collision_count: u32,
    /// Number of preamble errors.
    pub preamble_err_count: u32,
    /// Number of CRC errors
    pub crc_err_count: u32,
    /// Number of RX count errors due to an error during EPC reception.
    pub rx_count_err_count: u32,
    /// Number of ACK resends due to an error during EPC reception.
    pub resend_ack_count: u32,
    /// Number of noise suspicion events. An event is triggered when ACK is
    /// resent and no response is received.
    pub noise_suspicion_count: u32,
}

impl InventoryStatistics {
    /// What the counters of the chip stand for: all of them but the count
    /// of header errors, under the names used here.
    pub open spec fn of_wire(stats: wire::InventoryStatistics) -> InventoryStatistics {
        InventoryStatistics {
            timestamp: stats.timestamp,
            round_count: stats.round_cnt,
            tuning_status: stats.tuning_status,
            rssi_log_mean: stats.rssi_log_mean,
            sensitivity: stats.sensitivity,
            final_q: stats.q,
            frequency: stats.frequency,
            adc: stats.adc,
            tag_count: stats.tag_cnt,
            empty_slot_count: stats.empty_slot_cnt,
            slot_count: stats.slot_cnt,
            collision_count: stats.collision_cnt,
            preamble_err_count: stats.preamble_err_cnt,
            crc_err_count: stats.crc_err_cnt,
            rx_count_err_count: stats.rx_count_err_cnt,
            resend_ack_count: stats.resend_ack_cnt,
            noise_suspicion_count: stats.noise_suspicion_cnt,
        }
    }

    /// Copies the counters out of the record that the chip filled.
    pub fn from(stats: wire::InventoryStatistics) -> (r: InventoryStatistics)
        ensures
            r == InventoryStatistics::of_wire(stats),
    {
        InventoryStatistics {
            timestamp: stats.timestamp,
            round_count: stats.round_cnt,
            tuning_status: stats.tuning_status,
            rssi_log_mean: stats.rssi_log_mean,
            sensitivity: stats.sensitivity,
            final_q: stats.q,
            frequency: stats.frequency,
            adc: stats.adc,
            tag_count: stats.tag_cnt,
            empty_slot_count: stats.empty_slot_cnt,
            slot_count: stats.slot_cnt,
            collision_count: stats.collision_cnt,
            preamble_err_count: stats.preamble_err_cnt,
            crc_err_count: stats.crc_err_cnt,
            rx_count_err_count: stats.rx_count_err_cnt,
            resend_ack_count: stats.resend_ack_cnt,
            noise_suspicion_count: stats.noise_suspicion_cnt,
        }
    }

    /// The statistics of a run that has not begun: untuned, all counters 0.
    pub open spec fn spec_new() -> InventoryStatistics {
        InventoryStatistics::of_wire(wire::InventoryStatistics::spec_default())
    }

    /// Statistics with every counter at 0.
    pub fn new() -> (r: Self)
        ensures
            r == InventoryStatistics::spec_new(),
    {
        Self {
            timestamp: 0,
            round_count: 0,
            tuning_status: TuningStatus::Untuned,
            rssi_log_mean: 0,
            sensitivity: 0,
            final_q: 0,
            frequency: 0,
            adc: 0,
            tag_count: 0,
            empty_slot_count: 0,
            slot_count: 0,
            collision_count: 0,
            preamble_err_count: 0,
            crc_err_count: 0,
            rx_count_err_count: 0,
            resend_ack_count: 0,
            noise_suspicion_count: 0,
        }
    }

    /// The text of the statistics: sixteen labelled values, one to a line.
    /// The number of executed slots is not among them.
    pub open spec fn text(&self) -> Seq<char> {
        "Timestamp: "@
            + decimal(self.timestamp as nat)
            + "\n            Round Count: "@
            + decimal(self.round_count as nat)
            + "\n            Tuning Status: "@
            + self.tuning_status.name()
            + "\n            RSSI log mean: "@
            + decimal(self.rssi_log_mean as nat)
            + "\n            Sensitivity: "@
            + signed_decimal(self.sensitivity as int)
            + "\n            Final Q: "@
            + decimal(self.final_q as nat)
            + "\n            Frequency: "@
            + decimal(self.frequency as nat)
            + " Hz"@
            + "\n            ADC: "@
            + decimal(self.adc as nat)
            + "\n            Tag Count: "@
            + decimal(self.tag_count as nat)
            + "\n            Empty Slot Count: "@
            + decimal(self.empty_slot_count as nat)
            + "\n            Collision Count: "@
            + decimal(self.collision_count as nat)
            + "\n            Preamble Error Count: "@
            + decimal(self.preamble_err_count as nat)
            + "\n            CRC Error Count: "@
            + decimal(self.crc_err_count as nat)
            + "\n            RX Count Error Count: "@
            + decimal(self.rx_count_err_count as nat)
            + "\n            Resend Ack Count: "@
            + decimal(self.resend_ack_count as nat)
            + "\n            Noise Suspicion Count: "@
            + decimal(self.noise_suspicion_count as nat)
    }

    /// Text form of the statistics.
    pub fn to_string(&self) -> (s: String)
        ensures
            s@ == self.text(),
    {
        let s = String::from_str("Timestamp: ");
        let s = s.concat(decimal_string(self.timestamp).as_str());
        let s = s.concat("\n            Round Count: ");
        let s = s.concat(decimal_string(self.round_count).as_str());
        let s = s.concat("\n            Tuning Status: ");
        let s = s.concat(self.tuning_status.to_string().as_str());
        let s = s.concat("\n            RSSI log mean: ");
        let s = s.concat(decimal_string(self.rssi_log_mean as u32).as_str());
        let s = s.concat("\n            Sensitivity: ");
        let s = s.concat(signed_decimal_string(self.sensitivity).as_str());
        let s = s.concat("\n            Final Q: ");
        let s = s.concat(decimal_string(self.final_q as u32).as_str());
        let s = s.concat("\n            Frequency: ");
        let s = s.concat(decimal_string(self.frequency).as_str());
        let s = s.concat(" Hz");
        let s = s.concat("\n            ADC: ");
        let s = s.concat(decimal_string(self.adc as u32).as_str());
        let s = s.concat("\n            Tag Count: ");
        let s = s.concat(decimal_string(self.tag_count).as_str());
        let s = s.concat("\n            Empty Slot Count: ");
        let s = s.concat(decimal_string(self.empty_slot_count).as_str());
        let s = s.concat("\n            Collision Count: ");
        let s = s.concat(decimal_string(self.collision_count).as_str());
        let s = s.concat("\n            Preamble Error Count: ");
        let s = s.concat(decimal_string(self.preamble_err_count).as_str());
        let s = s.concat("\n            CRC Error Count: ");
        let s = s.concat(decimal_string(self.crc_err_count).as_str());
        let s = s.concat("\n            RX Count Error Count: ");
        let s = s.concat(decimal_string(self.rx_count_err_count).as_str());
        let s = s.concat("\n            Resend Ack Count: ");
        let s = s.concat(decimal_string(self.resend_ack_count).as_str());
        let s = s.concat("\n            Noise Suspicion Count: ");
        let s = s.concat(decimal_string(self.noise_suspicion_count).as_str());
        s
    }
}

} // verus!
