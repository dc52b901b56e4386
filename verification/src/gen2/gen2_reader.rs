//! A reader that is configured for the Gen2 protocol.
//!
//! The reader decides what is asked of the chip and what the chip's answers
//! mean; it does not talk to the chip. Every command comes in two halves.
//! The first builds the record of the request, or turns the command down.
//! The second takes the chip's status code and the record as the chip
//! filled it, and gives the result of the command.

use super::gen2_structs::{
    Gen2CustomCommand, Gen2CustomCommandData, CUSTOM_COMMAND_MAX_DATA_BYTES,
};
use crate::data_types::connection::Connection;
use crate::data_types::enums::{MemoryBank, TuningAlgorithm};
use crate::data_types::tag::{Epc, InventoryStatistics, InventoryTag, Password};
use crate::data_types::traits::{BasicReader, ConnectionHolder, ProtocolReader};
use crate::error::{Error, Result};
use crate::helpers::{ebv_encoding, ebv_formatter, proc_err};
use crate::wire;
use vstd::array::spec_array_fill_for_copy_type;
use vstd::prelude::*;
use vstd::slice::{slice_subrange, slice_to_vec};

verus! {

/// Whether a multi-round inventory is under way.
#[derive(Copy, Clone, Debug, PartialEq, Eq, Structural)]
pub enum RunState {
    /// No run is under way: the callback slot is empty.
    Idle,
    /// A run is under way: the callback slot is taken. `callback_failed`
    /// says whether the callback has failed in one of its rounds.
    InFlight { callback_failed: bool },
}

/// The state of a [`Gen2Reader`].
pub struct Gen2ReaderView {
    /// Whether the reader was tuned.
    pub is_tuned: bool,
    /// Whether a multi-round inventory is under way.
    pub run: RunState,
    /// The connection that the reader holds.
    pub connection: Connection,
}

impl Gen2ReaderView {
    /// Why a multi-round inventory of `num_rounds` rounds cannot begin, if
    /// it cannot: the reader is not tuned, or no rounds are asked for, or a
    /// run is under way already.
    pub open spec fn start_refusal(self, num_rounds: u32) -> Option<Error> {
        if !self.is_tuned {
            Some(Error::Generic)
        } else if num_rounds == 0 {
            Some(Error::NoError)
        } else if self.run is InFlight {
            Some(Error::Busy)
        } else {
            None
        }
    }

    /// The state after a run has begun.
    pub open spec fn started(self) -> Gen2ReaderView {
        Gen2ReaderView { run: RunState::InFlight { callback_failed: false }, ..self }
    }

    /// The state after a round of the run: a failure of the callback is
    /// remembered until the run ends.
    pub open spec fn round_ended(self, completed: bool) -> Gen2ReaderView {
        match self.run {
            RunState::Idle => self,
            RunState::InFlight { callback_failed } => Gen2ReaderView {
                run: RunState::InFlight { callback_failed: callback_failed || !completed },
                ..self
            },
        }
    }

    /// The state after a run has ended, however it ended.
    pub open spec fn finished(self) -> Gen2ReaderView {
        Gen2ReaderView { run: RunState::Idle, ..self }
    }

    /// The result of a run that the chip ended with `status`: the error of
    /// the chip if there is one, else the failure of the callback if there
    /// was one, else the statistics.
    pub open spec fn run_result(
        self,
        status: Error,
        statistics: wire::InventoryStatistics,
    ) -> Result<InventoryStatistics> {
        if status != Error::NoError {
            Err(status)
        } else if self.run == (RunState::InFlight { callback_failed: true }) {
            Err(Error::Generic)
        } else {
            Ok(InventoryStatistics::of_wire(statistics))
        }
    }
}

/// When a run has ended, the next one can begin: whatever the chip reported
/// and whether or not the callback failed, the reader never answers that it
/// is busy.
pub proof fn lemma_next_run_can_begin(state: Gen2ReaderView, num_rounds: u32)
    ensures
        state.finished().start_refusal(num_rounds) != Some(Error::Busy),
        state.is_tuned && num_rounds > 0 ==> state.finished().start_refusal(num_rounds) is None,
        state.started().round_ended(false).finished() == state.finished(),
        state.started().round_ended(true).finished() == state.finished(),
{
}

/// While a run is under way no second one begins.
pub proof fn lemma_one_run_at_a_time(state: Gen2ReaderView, num_rounds: u32, completed: bool)
    ensures
        state.started().start_refusal(num_rounds) is Some,
        state.started().round_ended(completed).start_refusal(num_rounds) is Some,
{
}

/// What the trampoline of a round answers the chip.
#[derive(Copy, Clone, Debug, PartialEq, Eq, Structural)]
pub struct RoundVerdict {
    /// The status code that is handed back to the chip.
    pub status: Error,
    /// Whether the chip is to be told to stop the run.
    pub stop: bool,
}

/// The four bytes that authenticate a command: those of the password, or
/// four zeros where there is none.
pub open spec fn password_bytes(password: Option<Password>) -> Seq<u8> {
    match password {
        Some(pwd) => pwd@,
        None => Seq::new(4, |i: int| 0u8),
    }
}

fn password_or_zero(password: Option<Password>) -> (pwd: [u8; 4])
    ensures
        pwd@ == password_bytes(password),
{
    match password {
        Some(p) => p.into_inner(),
        None => {
            let pwd = [0u8; 4];
            assert(pwd@ =~= Seq::new(4, |i: int| 0u8));
            pwd
        },
    }
}

/// Bit offset of the EPC in its memory bank: the CRC and the PC word come
/// before it.
pub const EPC_BIT_POINTER: u32 = 0x20;

/// Mask length that tells the firmware to take the whole mask.
pub const SELECT_WHOLE_MASK: u8 = 0xFF;

/// Time that a generic command waits for an answer.
pub const GENERIC_CMD_NO_RESPONSE_TIME: u8 = 0xFF;

/// Command code of the Gen2 Read command.
pub const GEN2_READ_COMMAND_CODE: u8 = 0b1100_0010;

/// The mask of a select command for an EPC: its first 32 bytes, then zeros.
pub open spec fn select_mask(epc: Seq<u8>) -> Seq<u8> {
    Seq::new(32, |i: int| if i < epc.len() { epc[i] } else { 0u8 })
}

/// The mask length of a select command for an EPC, in bits: eight for each
/// byte, or 255 for an EPC of 32 bytes or more.
pub open spec fn select_mask_bit_length(epc: Seq<u8>) -> int {
    if epc.len() >= wire::GEN2_MAX_SELECT_MASK_LENGTH {
        0xFF
    } else {
        8 * (epc.len() as int)
    }
}

/// The send buffer of a custom command: the command code, high byte first,
/// then the data, then zeros.
pub open spec fn custom_cmd_snd_data(command_code: u16, data: Seq<u8>) -> Seq<u8> {
    Seq::new(
        64,
        |j: int|
            if j == 0 {
                (command_code / 256) as u8
            } else if j == 1 {
                (command_code % 256) as u8
            } else if j - 2 < data.len() {
                data[j - 2]
            } else {
                0u8
            },
    )
}

/// The bytes that go out with a custom command: those of the data, or none.
pub open spec fn custom_cmd_data(data_to_send: Option<Gen2CustomCommandData>) -> Seq<u8> {
    match data_to_send {
        Some(data) => data@.bytes,
        None => Seq::<u8>::empty(),
    }
}

/// Number of bits that the answer to a custom command is expected to hold:
/// those that were asked for, and 16 for the handle where the command uses
/// one.
pub open spec fn custom_cmd_rcv_bits(command: Gen2CustomCommand, bits_to_receive: u16) -> int {
    bits_to_receive + if command.use_rn16 {
        16int
    } else {
        0int
    }
}

/// Why a custom command cannot be built, if it cannot: the reader is not
/// tuned, or the data does not fit the send buffer behind the command code,
/// or the length of the answer cannot be said in 16 bits.
pub open spec fn custom_cmd_refusal(
    is_tuned: bool,
    command: Gen2CustomCommand,
    data: Seq<u8>,
    bits_to_receive: u16,
) -> Option<Error> {
    if !is_tuned {
        Some(Error::Generic)
    } else if data.len() > CUSTOM_COMMAND_MAX_DATA_BYTES {
        Some(Error::Param)
    } else if custom_cmd_rcv_bits(command, bits_to_receive) > u16::MAX {
        Some(Error::Param)
    } else {
        None
    }
}

/// How a custom command is framed: without CRC wherever CRC is off, whether
/// or not a header is expected.
pub open spec fn custom_cmd_mode(command: Gen2CustomCommand) -> wire::GenericCmdMode {
    if !command.use_crc {
        wire::GenericCmdMode::NoCrc
    } else if command.expect_header {
        wire::GenericCmdMode::CrcExpectHead
    } else {
        wire::GenericCmdMode::Crc
    }
}

/// What follows the command code and the memory bank in the frame of a
/// read command: the word address as an extensible bit vector, then the
/// word count.
pub open spec fn read_alt_payload(word_address: u32, word_count: u8) -> Seq<u8> {
    ebv_encoding(word_address as nat).push(word_count)
}

/// Byte `j` of the frame of a read command.
///
/// The frame is a string of bits: the eight bits of the command code, the
/// two bits of the memory bank, then the bytes of the payload. So every
/// byte of the payload stands two bits to the right of a byte boundary: its
/// upper six bits end one byte of the frame, its lower two begin the next.
pub open spec fn read_alt_frame_byte(bank: MemoryBank, payload: Seq<u8>, j: int) -> int {
    if j == 0 {
        GEN2_READ_COMMAND_CODE as int
    } else if j == 1 {
        bank.code() * 64 + payload[0] / 4
    } else if j <= payload.len() {
        (payload[j - 2] % 4) * 64 + payload[j - 1] / 4
    } else if j == payload.len() + 1 {
        (payload[j - 2] % 4) * 64
    } else {
        0
    }
}

/// The send buffer of a read command.
pub open spec fn read_alt_snd_data(bank: MemoryBank, word_address: u32, word_count: u8) -> Seq<
    u8,
> {
    Seq::new(
        64,
        |j: int| read_alt_frame_byte(bank, read_alt_payload(word_address, word_count), j) as u8,
    )
}

/// Bit `i` of a byte, bit 0 being the least significant.
pub open spec fn bit_of(byte: u8, i: u8) -> bool {
    (byte >> i) & 1 == 1
}

/// Bit `k` of a buffer as it goes over the air: the most significant bit of
/// the first byte is bit 0.
pub open spec fn buffer_bit(data: Seq<u8>, k: int) -> bool {
    bit_of(data[k / 8], (7 - k % 8) as u8)
}

/// Bit `k` of the Gen2 Read command: the eight bits of the command code,
/// the two bits of the memory bank, then the bytes of the payload, each
/// with its most significant bit first. Behind them there is nothing.
pub open spec fn read_alt_bit(bank: MemoryBank, payload: Seq<u8>, k: int) -> bool {
    if k < 8 {
        bit_of(GEN2_READ_COMMAND_CODE, (7 - k) as u8)
    } else if k < 10 {
        bit_of(bank.code(), (9 - k) as u8)
    } else if k < 10 + 8 * payload.len() {
        bit_of(payload[(k - 10) / 8], (7 - (k - 10) % 8) as u8)
    } else {
        false
    }
}

proof fn lemma_split_bits(top: u8, byte: u8, i: u8)
    by (bit_vector)
    requires
        top < 4,
        i < 8,
    ensures
        top * 64 + byte / 4 < 256,
        i >= 6 ==> bit_of((top * 64 + byte / 4) as u8, i) == bit_of(top, (i - 6) as u8),
        i < 6 ==> bit_of((top * 64 + byte / 4) as u8, i) == bit_of(byte, (i + 2) as u8),
        i >= 6 ==> bit_of(((byte % 4) * 64) as u8, i) == bit_of(byte, (i - 6) as u8),
        i < 6 ==> !bit_of(((byte % 4) * 64) as u8, i),
        i >= 6 ==> bit_of(byte % 4, (i - 6) as u8) == bit_of(byte, (i - 6) as u8),
        !bit_of(0u8, i),
{
}

/// The send buffer of a read command holds the Gen2 Read command, bit for
/// bit: the command code, the memory bank, the word address as an
/// extensible bit vector and the word count follow each other without a
/// gap, and every bit behind them is 0.
pub proof fn lemma_read_alt_frame_is_the_command(
    bank: MemoryBank,
    word_address: u32,
    word_count: u8,
    k: int,
)
    requires
        0 <= k < 512,
    ensures
        buffer_bit(read_alt_snd_data(bank, word_address, word_count), k) == read_alt_bit(
            bank,
            read_alt_payload(word_address, word_count),
            k,
        ),
{
    let payload = read_alt_payload(word_address, word_count);
    crate::helpers::lemma_ebv_continuation(word_address as nat);
    crate::helpers::lemma_ebv_len_u32(word_address as nat);
    let len = payload.len() as int;
    assert(2 <= len <= 6);
    let j = k / 8;
    let place = (7 - k % 8) as u8;
    let code = bank.code();
    let frame = read_alt_snd_data(bank, word_address, word_count);
    assert(frame[j] == read_alt_frame_byte(bank, payload, j) as u8);
    if j == 0 {
    } else if j == 1 {
        lemma_split_bits(code, payload[0], place);
    } else if j <= len {
        let top = payload[j - 2] % 4;
        lemma_split_bits(top, payload[j - 1], place);
        lemma_split_bits(0, payload[j - 2], place);
        if place >= 6 {
            assert((k - 10) / 8 == j - 2 && (k - 10) % 8 == 13 - place);
        } else {
            assert((k - 10) / 8 == j - 1 && (k - 10) % 8 == 5 - place);
        }
    } else if j == len + 1 {
        lemma_split_bits(0, payload[j - 2], place);
        if place >= 6 {
            assert((k - 10) / 8 == j - 2 && (k - 10) % 8 == 13 - place);
        }
    } else {
        lemma_split_bits(0, 0, place);
    }
}

/// The frame while it is put together: byte `j` after the first `done`
/// bytes of the payload were packed.
spec fn partial_frame_byte(bank: MemoryBank, payload: Seq<u8>, done: int, j: int) -> int {
    if j == 0 {
        GEN2_READ_COMMAND_CODE as int
    } else if j == 1 {
        bank.code() * 64 + if done >= 1 {
            payload[0] as int / 4
        } else {
            0
        }
    } else if j <= done {
        (payload[j - 2] % 4) * 64 + payload[j - 1] / 4
    } else if j == done + 1 {
        (payload[j - 2] % 4) * 64
    } else {
        0
    }
}

proof fn lemma_pack(top: u8, byte: u8)
    requires
        top % 64 == 0,
    ensures
        (top | (byte >> 2)) == top + byte / 4,
        (0u8 | ((byte & 3) << 6)) == (byte % 4) * 64,
        ((byte % 4) * 64) % 64 == 0,
{
    assert(top % 64 == 0 ==> (top | (byte >> 2)) == top + byte / 4) by (bit_vector);
    assert((0u8 | ((byte & 3) << 6)) == (byte % 4) * 64) by (bit_vector);
}

/// A reader compatible with the Gen2 standard. It comes out of configuring
/// a [`crate::reader::Reader`].
#[derive(Debug)]
pub struct Gen2Reader {
    /// keeps track of whether or not the reader is tuned
    is_tuned: bool,
    /// keeps track of the one multi-round inventory that may be under way
    run: RunState,
    /// manages connection to reader
    connection: Connection,
}

impl View for Gen2Reader {
    type V = Gen2ReaderView;

    closed spec fn view(&self) -> Gen2ReaderView {
        Gen2ReaderView { is_tuned: self.is_tuned, run: self.run, connection: self.connection }
    }
}

impl Gen2Reader {
    /// Creates a reader that is not tuned and runs no inventory. Only a
    /// finished configuration makes one, so that no reader exists whose
    /// chip was not configured.
    pub(crate) fn new(connection: Connection) -> (r: Self)
        ensures
            r@ == (Gen2ReaderView { is_tuned: false, run: RunState::Idle, connection }),
            r.connection() == connection,
    {
        Self { is_tuned: false, run: RunState::Idle, connection }
    }

    /// Whether the reader was tuned.
    pub fn is_tuned(&self) -> (b: bool)
        ensures
            b == self@.is_tuned,
    {
        self.is_tuned
    }

    /// Second step of tuning: with the antenna settings that the chip
    /// reported, builds the tuning request for the antenna in use.
    ///
    /// `status` is the chip's answer to the request for its antenna
    /// settings. Where it is an error, tuning ends with it.
    pub fn tune_request(
        &self,
        algo: TuningAlgorithm,
        status: Error,
        tx_rx_cfg: &wire::TxRxCfg,
    ) -> (r: Result<wire::TuneCfg>)
        ensures
            status != Error::NoError ==> r == Err::<wire::TuneCfg, Error>(status),
            status == Error::NoError ==> r == Ok::<wire::TuneCfg, Error>(
                wire::TuneCfg {
                    antenna: tx_rx_cfg.used_antenna,
                    algorithm: algo,
                    tune_all: true,
                    ..wire::TuneCfg::spec_default()
                },
            ),
    {
        match proc_err(status) {
            Err(e) => Err(e),
            Ok(()) => {
                let mut tune_cfg = wire::TuneCfg::default();
                tune_cfg.antenna = tx_rx_cfg.used_antenna;
                tune_cfg.algorithm = algo;
                tune_cfg.tune_all = true;
                Ok(tune_cfg)
            },
        }
    }

    /// Last step of tuning: takes the chip's answer to the tuning request.
    /// On success the reader is tuned from now on; on an error nothing
    /// changes. The reader keeps its connection either way.
    pub fn tune_finish(&mut self, status: Error) -> (r: Result<()>)
        ensures
            final(self).connection() == old(self).connection(),
            status == Error::NoError ==> r is Ok && final(self)@ == (Gen2ReaderView {
                is_tuned: true,
                ..old(self)@
            }),
            status != Error::NoError ==> r == Err::<(), Error>(status) && final(self)@ == old(
                self,
            )@,
    {
        match proc_err(status) {
            Err(e) => Err(e),
            Ok(()) => {
                self.is_tuned = true;
                Ok(())
            },
        }
    }

    /// Second half of [`ProtocolReader::inventory_once`]: the tags of the
    /// round and its statistics.
    ///
    /// The chip says in the statistics how many tags it found. That many
    /// entries are taken from the start of the tag buffer, in order; what
    /// lies behind them is not looked at.
    pub fn inventory_once_result(status: Error, data: &wire::InventoryData) -> (r: Result<
        (InventoryStatistics, Vec<InventoryTag>),
    >)
        requires
            status == Error::NoError ==> data.found_wf(),
        ensures
            status != Error::NoError ==> r is Err && r->Err_0 == status,
            status == Error::NoError ==> r is Ok && r->Ok_0.0 == InventoryStatistics::of_wire(
                data.statistics,
            ) && r->Ok_0.1@.len() == r->Ok_0.0.tag_count && (forall|i: int|
                0 <= i < data.statistics.tag_cnt ==> (#[trigger] r->Ok_0.1@[i])@
                    == InventoryTag::of_wire(data.tag_list@[i])),
    {
        match proc_err(status) {
            Err(e) => Err(e),
            Ok(()) => {
                let tags = copy_tags(&data.tag_list, data.statistics.tag_cnt as usize);
                let statistics = InventoryStatistics::from(data.statistics);
                Ok((statistics, tags))
            },
        }
    }

    /// The tags of one round of a multi-round inventory, for the callback.
    ///
    /// The chip says in `tag_list_size` how many tags the round found. That
    /// many entries are taken from the start of the tag buffer, in order.
    /// Outside a run there is no callback, and no tags are handed out.
    pub fn begin_round(&self, data: &wire::InventoryData) -> (r: Option<Vec<InventoryTag>>)
        requires
            data.round_wf(),
        ensures
            r is Some <==> self@.run is InFlight,
            r matches Some(tags) ==> tags@.len() == data.tag_list_size && (forall|i: int|
                0 <= i < data.tag_list_size ==> (#[trigger] tags@[i])@ == InventoryTag::of_wire(
                    data.tag_list@[i],
                )),
    {
        match self.run {
            RunState::Idle => None,
            RunState::InFlight { .. } => Some(
                copy_tags(&data.tag_list, data.tag_list_size as usize),
            ),
        }
    }

    /// Ends a round of a multi-round inventory and says what to answer the
    /// chip. `completed` says whether the callback took every tag of the
    /// round and came back.
    ///
    /// After a round that completed the chip is told to go on. After one
    /// that did not, the chip is told to stop and is handed a generic
    /// error, and the failure is remembered until the run ends.
    pub fn end_round(&mut self, completed: bool) -> (verdict: RoundVerdict)
        ensures
            final(self)@ == old(self)@.round_ended(completed),
            final(self).connection() == old(self).connection(),
            completed ==> verdict == (RoundVerdict { status: Error::NoError, stop: false }),
            !completed ==> verdict == (RoundVerdict { status: Error::Generic, stop: true }),
    {
        if completed {
            RoundVerdict { status: Error::NoError, stop: false }
        } else {
            match self.run {
                RunState::Idle => {},
                RunState::InFlight { .. } => {
                    self.run = RunState::InFlight { callback_failed: true };
                },
            }
            RoundVerdict { status: Error::Generic, stop: true }
        }
    }

    /// Second half of [`ProtocolReader::inventory`]: ends the run and gives
    /// its result.
    ///
    /// The callback slot is emptied whatever happened. An error of the chip
    /// comes first; without one, a failure of the callback makes the run
    /// fail with a generic error; else the statistics are the result.
    pub fn inventory_result(
        &mut self,
        status: Error,
        statistics: wire::InventoryStatistics,
    ) -> (r: Result<InventoryStatistics>)
        ensures
            final(self)@ == old(self)@.finished(),
            final(self).connection() == old(self).connection(),
            r == old(self)@.run_result(status, statistics),
    {
        let callback_failed = match self.run {
            RunState::InFlight { callback_failed } => callback_failed,
            RunState::Idle => false,
        };
        self.run = RunState::Idle;
        match proc_err(status) {
            Err(e) => Err(e),
            Ok(()) => {
                if callback_failed {
                    Err(Error::Generic)
                } else {
                    Ok(InventoryStatistics::from(statistics))
                }
            },
        }
    }

    /// Second half of [`ProtocolReader::read`]: the bytes that the tag
    /// returned.
    ///
    /// The chip says how many bytes it read. That many are taken from the
    /// start of the data buffer, however many were asked for.
    pub fn read_result(status: Error, answer: &wire::Read) -> (r: Result<Vec<u8>>)
        requires
            status == Error::NoError ==> answer.num_read_bytes <= wire::MAX_READ_DATA_LEN,
        ensures
            status != Error::NoError ==> r is Err && r->Err_0 == status,
            status == Error::NoError ==> r is Ok && r->Ok_0@ == answer.data@.subrange(
                0,
                answer.num_read_bytes as int,
            ),
    {
        match proc_err(status) {
            Err(e) => Err(e),
            Ok(()) => Ok(
                slice_to_vec(
                    slice_subrange(answer.data.as_slice(), 0, answer.num_read_bytes as usize),
                ),
            ),
        }
    }

    /// Workaround for firmware issues with the read command: builds the
    /// Gen2 Read command by hand, as a generic command.
    ///
    /// The frame holds the command code, the memory bank, the word address
    /// as an extensible bit vector and the word count, 18 bits and eight
    /// for every byte of the address. The answer is expected to hold 16 bits
    /// for every word and the 16 bits of the handle. A reader that is not
    /// tuned turns the command down.
    pub fn read_alt(
        &self,
        bank: MemoryBank,
        word_address: u32,
        word_count: u8,
        password: Option<Password>,
    ) -> (r: Result<wire::Gen2GenericCmd>)
        ensures
            !self@.is_tuned ==> r is Err && r->Err_0 == Error::Generic,
            self@.is_tuned ==> r is Ok,
            r matches Ok(cmd) ==> {
                &&& cmd.cmd == wire::GenericCmdMode::CrcExpectHead
                &&& cmd.pwd@ == password_bytes(password)
                &&& cmd.no_response_time == GENERIC_CMD_NO_RESPONSE_TIME
                &&& cmd.expected_rcv_data_bit_length == 16 * word_count + 16
                &&& cmd.snd_data_bit_length == 18 + 8 * ebv_encoding(word_address as nat).len()
                &&& cmd.append_rn16
                &&& cmd.snd_data@ == read_alt_snd_data(bank, word_address, word_count)
                &&& cmd.rcv_data_length == 0
                &&& cmd.rcv_data == spec_array_fill_for_copy_type::<u8, 128>(0u8)
            },
    {
        if !self.is_tuned {
            return Err(Error::Generic);
        }
        let pwd = password_or_zero(password);
        let ebv = ebv_formatter(word_address);
        let ebv_len = ebv.len();
        let mut payload = ebv;
        payload.push(word_count);
        assert(payload@ == read_alt_payload(word_address, word_count));

        let mut data = [0u8; 64];
        data[0] = GEN2_READ_COMMAND_CODE;
        data[1] = bank.code() << 6;
        assert(data@[1] == bank.code() * 64) by {
            let c = bank.code();
            assert(c < 4 ==> (c << 6) == c * 64) by (bit_vector);
        }
        let mut i: usize = 0;
        while i < payload.len()
            invariant
                i <= payload@.len() <= 6,
                forall|j: int|
                    0 <= j < 64 ==> #[trigger] data@[j] == partial_frame_byte(
                        bank,
                        payload@,
                        i as int,
                        j,
                    ),
            decreases payload@.len() - i,
        {
            let byte = payload[i];
            let ghost before = data@;
            proof {
                assert(before[i + 1] == partial_frame_byte(bank, payload@, i as int, i + 1));
                assert(before[i + 2] == partial_frame_byte(bank, payload@, i as int, i + 2));
                assert(before[i + 1] % 64 == 0) by {
                    if i > 0 {
                        lemma_pack(0, payload@[i - 1]);
                    }
                }
                lemma_pack(before[i + 1], byte);
            }
            data[i + 1] = data[i + 1] | (byte >> 2);
            data[i + 2] = data[i + 2] | ((byte & 3) << 6);
            i += 1;
            assert forall|j: int| 0 <= j < 64 implies #[trigger] data@[j] == partial_frame_byte(
                bank,
                payload@,
                i as int,
                j,
            ) by {
                assert(before[j] == partial_frame_byte(bank, payload@, i - 1, j));
            }
        }
        assert(data@ =~= read_alt_snd_data(bank, word_address, word_count)) by {
            assert forall|j: int| 0 <= j < 64 implies data@[j] == read_alt_snd_data(
                bank,
                word_address,
                word_count,
            )[j] by {
                assert(data@[j] == partial_frame_byte(bank, payload@, payload@.len() as int, j));
            }
        }

        let snd_len: u16 = 18 + 8 * (ebv_len as u16);
        let rcv_len: u16 = 16 * (word_count as u16) + 16;
        Ok(
            wire::Gen2GenericCmd {
                cmd: wire::GenericCmdMode::CrcExpectHead,
                pwd,
                no_response_time: GENERIC_CMD_NO_RESPONSE_TIME,
                expected_rcv_data_bit_length: rcv_len,
                snd_data_bit_length: snd_len,
                append_rn16: true,
                snd_data: data,
                rcv_data_length: 0,
                rcv_data: [0u8; 128],
            },
        )
    }

    /// Second half of [`Gen2Reader::read_alt`]: the bytes that the tag
    /// returned, without the two bytes of the handle that end the answer.
    pub fn read_alt_result(status: Error, answer: &wire::Gen2GenericCmd) -> (r: Result<Vec<u8>>)
        requires
            status == Error::NoError ==> 2 <= answer.rcv_data_length
                <= wire::GEN2_GENERIC_CMD_MAX_RCV_DATA_BYTES,
        ensures
            status != Error::NoError ==> r is Err && r->Err_0 == status,
            status == Error::NoError ==> r is Ok && r->Ok_0@ == answer.rcv_data@.subrange(
                0,
                answer.rcv_data_length - 2,
            ),
    {
        match proc_err(status) {
            Err(e) => Err(e),
            Ok(()) => Ok(
                slice_to_vec(
                    slice_subrange(
                        answer.rcv_data.as_slice(),
                        0,
                        (answer.rcv_data_length - 2) as usize,
                    ),
                ),
            ),
        }
    }

    /// Builds a custom or proprietary Gen2 command.
    ///
    /// Only command codes of 16 bits are supported. The frame holds the
    /// command code, high byte first, then the data; its length is 16 bits
    /// and the bits of the data. The answer is expected to hold
    /// `bits_to_receive` bits, and 16 more for the handle where the command
    /// uses one. The command is sent with CRC and with a header expected
    /// in the answer, with CRC alone, or without CRC; where CRC is off,
    /// whether a header is expected changes nothing.
    ///
    /// A reader that is not tuned turns the command down with a generic
    /// error. A tuned reader turns it down with a parameter error where the
    /// data does not fit the send buffer behind the command code, or where
    /// the length of the answer cannot be said in 16 bits. No request is
    /// built then.
    pub fn custom_cmd(
        &self,
        command: &Gen2CustomCommand,
        data_to_send: Option<Gen2CustomCommandData>,
        bits_to_receive: u16,
        password: Option<Password>,
    ) -> (r: Result<wire::Gen2GenericCmd>)
        ensures
            custom_cmd_refusal(
                self@.is_tuned,
                *command,
                custom_cmd_data(data_to_send),
                bits_to_receive,
            ) matches Some(e) ==> r is Err && r->Err_0 == e,
            custom_cmd_refusal(
                self@.is_tuned,
                *command,
                custom_cmd_data(data_to_send),
                bits_to_receive,
            ) is None ==> r is Ok,
            r matches Ok(cmd) ==> {
                &&& cmd.cmd == custom_cmd_mode(*command)
                &&& cmd.pwd@ == password_bytes(password)
                &&& cmd.no_response_time == GENERIC_CMD_NO_RESPONSE_TIME
                &&& cmd.expected_rcv_data_bit_length == custom_cmd_rcv_bits(
                    *command,
                    bits_to_receive,
                )
                &&& cmd.snd_data_bit_length == 16 + (match data_to_send {
                    Some(data) => data@.num_bits as int,
                    None => 0int,
                })
                &&& cmd.append_rn16 == command.use_rn16
                &&& cmd.snd_data@ == custom_cmd_snd_data(
                    command.command_code,
                    custom_cmd_data(data_to_send),
                )
                &&& cmd.rcv_data_length == 0
                &&& cmd.rcv_data == spec_array_fill_for_copy_type::<u8, 128>(0u8)
            },
    {
        if !self.is_tuned {
            return Err(Error::Generic);
        }
        if let Some(data) = data_to_send {
            if data.bytes().len() > CUSTOM_COMMAND_MAX_DATA_BYTES {
                return Err(Error::Param);
            }
            proof {
                data@.lemma_fitting_data();
            }
        }
        if command.use_rn16 && bits_to_receive > u16::MAX - 16 {
            return Err(Error::Param);
        }
        let pwd = password_or_zero(password);
        let cmd = if !command.use_crc {
            wire::GenericCmdMode::NoCrc
        } else if command.expect_header {
            wire::GenericCmdMode::CrcExpectHead
        } else {
            wire::GenericCmdMode::Crc
        };

        let code = command.command_code;
        assert((code >> 8) == code / 256 && (code >> 8) < 256 && (code & 0xff) == code % 256)
            by (bit_vector);
        let mut snd_data = [0u8; 64];
        snd_data[0] = (code >> 8) as u8;
        snd_data[1] = (code & 0xff) as u8;
        let mut snd_data_bit_length: u16 = 16;
        let ghost sent = custom_cmd_data(data_to_send);
        if let Some(data) = data_to_send {
            let bytes = data.bytes();
            let mut i: usize = 0;
            while i < bytes.len()
                invariant
                    i <= bytes@.len() <= 62,
                    forall|j: int|
                        0 <= j < 64 ==> #[trigger] snd_data@[j] == (if j == 0 {
                            (code / 256) as u8
                        } else if j == 1 {
                            (code % 256) as u8
                        } else if j - 2 < i {
                            bytes@[j - 2]
                        } else {
                            0u8
                        }),
                decreases bytes@.len() - i,
            {
                snd_data[i + 2] = bytes[i];
                i += 1;
            }
            snd_data_bit_length = snd_data_bit_length + data.num_bits();
        }
        assert(snd_data@ =~= custom_cmd_snd_data(code, sent));
        let expected_rcv_data_bit_length: u16 = bits_to_receive + if command.use_rn16 {
            16
        } else {
            0
        };
        Ok(
            wire::Gen2GenericCmd {
                pwd,
                cmd,
                no_response_time: GENERIC_CMD_NO_RESPONSE_TIME,
                expected_rcv_data_bit_length,
                snd_data_bit_length,
                append_rn16: command.use_rn16,
                snd_data,
                rcv_data_length: 0,
                rcv_data: [0u8; 128],
            },
        )
    }

    /// Second half of [`Gen2Reader::custom_cmd`]: the bytes that the tag
    /// returned, as many as the chip says it received. The handle is among
    /// them where the command used one.
    pub fn custom_cmd_result(status: Error, answer: &wire::Gen2GenericCmd) -> (r: Result<
        Vec<u8>,
    >)
        requires
            status == Error::NoError ==> answer.rcv_data_length
                <= wire::GEN2_GENERIC_CMD_MAX_RCV_DATA_BYTES,
        ensures
            status != Error::NoError ==> r is Err && r->Err_0 == status,
            status == Error::NoError ==> r is Ok && r->Ok_0@ == answer.rcv_data@.subrange(
                0,
                answer.rcv_data_length as int,
            ),
    {
        match proc_err(status) {
            Err(e) => Err(e),
            Ok(()) => Ok(
                slice_to_vec(
                    slice_subrange(
                        answer.rcv_data.as_slice(),
                        0,
                        answer.rcv_data_length as usize,
                    ),
                ),
            ),
        }
    }
}

/// Copies the first `count` tags out of the buffer that the chip filled.
fn copy_tags(tag_list: &Vec<wire::InventoryTag>, count: usize) -> (tags: Vec<InventoryTag>)
    requires
        count <= tag_list@.len(),
        forall|i: int| 0 <= i < count ==> (#[trigger] tag_list@[i]).wf(),
    ensures
        tags@.len() == count,
        forall|i: int| 0 <= i < count ==> (#[trigger] tags@[i])@ == InventoryTag::of_wire(
            tag_list@[i],
        ),
{
    let mut tags: Vec<InventoryTag> = Vec::new();
    let mut i: usize = 0;
    while i < count
        invariant
            i <= count <= tag_list@.len(),
            tags@.len() == i,
            forall|k: int| 0 <= k < count ==> (#[trigger] tag_list@[k]).wf(),
            forall|k: int| 0 <= k < i ==> (#[trigger] tags@[k])@ == InventoryTag::of_wire(
                tag_list@[k],
            ),
        decreases count - i,
    {
        tags.push(InventoryTag::from(&tag_list[i]));
        i += 1;
    }
    tags
}

impl ConnectionHolder for Gen2Reader {
    open spec fn connection(&self) -> Connection {
        self@.connection
    }

    fn steal_connection(self) -> (connection: Connection) {
        self.connection
    }
}

impl BasicReader for Gen2Reader {

}

impl ProtocolReader for Gen2Reader {
    open spec fn tuned(&self) -> bool {
        self@.is_tuned
    }

    /// First step of tuning. With [`TuningAlgorithm::NoTuning`] there is
    /// nothing to do and nothing is asked of the chip. With any other
    /// algorithm the chip is asked for its antenna settings first, with the
    /// firmware's default record to fill in.
    fn tune(&self, algo: TuningAlgorithm) -> (r: Option<wire::TxRxCfg>) {
        match algo {
            TuningAlgorithm::NoTuning => None,
            _ => Some(wire::TxRxCfg::default()),
        }
    }

    fn inventory_once(&self, tag_list_size_max: u16) -> (r: Result<
        (wire::InventoryOption, wire::InventoryData),
    >) {
        if !self.is_tuned {
            return Err(Error::Generic);
        }
        Ok(inventory_request(0, tag_list_size_max))
    }

    fn inventory(&mut self, num_rounds: u32, tag_list_size_max: u16) -> (r: Result<
        (wire::InventoryOption, wire::InventoryData),
    >)
        ensures
            final(self).connection() == old(self).connection(),
            old(self)@.start_refusal(num_rounds) matches Some(e) ==> r is Err && r->Err_0 == e
                && final(self)@ == old(self)@,
            old(self)@.start_refusal(num_rounds) is None ==> r is Ok && final(self)@ == old(
                self,
            )@.started(),
    {
        if !self.is_tuned {
            return Err(Error::Generic);
        }
        if num_rounds == 0 {
            return Err(Error::NoError);
        }
        match self.run {
            RunState::InFlight { .. } => {
                return Err(Error::Busy);
            },
            RunState::Idle => {},
        }
        self.run = RunState::InFlight { callback_failed: false };
        Ok(inventory_request(num_rounds, tag_list_size_max))
    }

    fn select(&self, epc: &Epc) -> (r: Result<wire::Gen2Select>)
        ensures
            r matches Ok(sel) ==> {
                &&& sel.mode == wire::SelectMode::ClearAndAdd
                &&& sel.target == wire::SelectTarget::Sl
                &&& sel.action == 0
                &&& sel.memory_bank == MemoryBank::Epc
                &&& sel.mask_bit_pointer == EPC_BIT_POINTER
                &&& sel.mask_bit_length == select_mask_bit_length(epc@)
                &&& sel.mask@ == select_mask(epc@)
                &&& sel.truncation == 0
            },
    {
        if !self.is_tuned {
            return Err(Error::Generic);
        }
        let id = epc.get_id();
        let mut mask = [0u8; 32];
        let n = if id.len() < 32 {
            id.len()
        } else {
            32
        };
        let mut i: usize = 0;
        while i < n
            invariant
                i <= n <= 32,
                n <= id@.len(),
                forall|k: int| 0 <= k < i ==> mask@[k] == id@[k],
                forall|k: int| i <= k < 32 ==> mask@[k] == 0u8,
            decreases n - i,
        {
            mask[i] = id[i];
            i += 1;
        }
        assert(mask@ =~= select_mask(epc@));
        Ok(
            wire::Gen2Select {
                mode: wire::SelectMode::ClearAndAdd,
                target: wire::SelectTarget::Sl,
                action: 0,
                memory_bank: MemoryBank::Epc,
                mask_bit_pointer: EPC_BIT_POINTER,
                mask_bit_length: if id.len() >= wire::GEN2_MAX_SELECT_MASK_LENGTH {
                    SELECT_WHOLE_MASK
                } else {
                    (id.len() * 8) as u8
                },
                mask,
                truncation: 0,
            },
        )
    }

    fn read(
        &self,
        bank: MemoryBank,
        word_address: u32,
        num_bytes: u8,
        password: Option<Password>,
    ) -> (r: Result<wire::Read>)
        ensures
            r matches Ok(read) ==> {
                &&& read.word_ptr == word_address
                &&& read.memory_bank == bank
                &&& read.num_bytes_to_read == num_bytes
                &&& read.pwd@ == password_bytes(password)
                &&& read.num_read_bytes == 0
                &&& read.data == spec_array_fill_for_copy_type::<u8, 64>(0u8)
            },
    {
        if !self.is_tuned {
            return Err(Error::Generic);
        }
        Ok(
            wire::Read {
                word_ptr: word_address,
                memory_bank: bank,
                num_bytes_to_read: num_bytes,
                pwd: password_or_zero(password),
                num_read_bytes: 0,
                data: [0u8; 64],
            },
        )
    }

    fn write(
        &self,
        bank: MemoryBank,
        word_address: u32,
        data: [u8; 2],
        password: Option<Password>,
    ) -> (r: Result<wire::Write>)
        ensures
            r matches Ok(write) ==> {
                &&& write.word_ptr == word_address
                &&& write.memory_bank == bank
                &&& write.pwd@ == password_bytes(password)
                &&& write.data == data
                &&& write.tag_reply == 0
            },
    {
        if !self.is_tuned {
            return Err(Error::Generic);
        }
        Ok(
            wire::Write {
                word_ptr: word_address,
                memory_bank: bank,
                pwd: password_or_zero(password),
                data,
                tag_reply: 0,
            },
        )
    }
}

/// The two records of an inventory request: the options, with no report
/// besides the tags and the number of rounds, and the data record, empty,
/// with room for `tag_list_size_max` tags.
pub open spec fn spec_inventory_request(round_cnt: u32, tag_list_size_max: u16) -> (
    wire::InventoryOption,
    wire::InventoryDataView,
) {
    (
        wire::InventoryOption {
            options: wire::INVENTORYREPORT_OPTION_NONE,
            round_cnt,
            ..wire::InventoryOption::spec_default()
        },
        wire::InventoryDataView {
            statistics: wire::InventoryStatistics::spec_default(),
            tag_list: Seq::<wire::InventoryTag>::empty(),
            tag_list_size: 0,
            tag_list_size_max,
        },
    )
}

/// Builds the two records of an inventory request.
pub fn inventory_request(round_cnt: u32, tag_list_size_max: u16) -> (r: (
    wire::InventoryOption,
    wire::InventoryData,
))
    ensures
        (r.0, r.1@) == spec_inventory_request(round_cnt, tag_list_size_max),
{
    let mut inv_option = wire::InventoryOption::default();
    inv_option.options = wire::INVENTORYREPORT_OPTION_NONE;
    inv_option.round_cnt = round_cnt;
    let inv_data = wire::InventoryData {
        statistics: wire::InventoryStatistics::default(),
        tag_list: Vec::new(),
        tag_list_size: 0,
        tag_list_size_max,
    };
    (inv_option, inv_data)
}

} // verus!
