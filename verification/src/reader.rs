//! A reader that is connected and not yet configured, and how to find and
//! accept one.

use crate::data_types::connection::Connection;
use crate::data_types::enums::{Antenna, MemoryBank, TuningAlgorithm};
use crate::data_types::tag::{
    Epc, InventoryStatistics, InventoryTag, InventoryTagView, Password, Tid, Xpc,
};
use crate::data_types::traits::{BasicReader, ConnectionHolder};
use crate::data_types::version::{Version, VersionInfo, VersionNum};
use crate::error::{Error, Result};
use vstd::prelude::*;
use vstd::string::StringExecFns;

verus! {

/// Time that the chip is given to boot after it was connected to, in
/// microseconds.
pub const CONNECT_SETTLE_MICROS: u64 = 600_000;

/// USB vendor ID of the reader's serial port.
pub const READER_USB_VID: u16 = 0x0403;

/// USB product ID of the reader's serial port.
pub const READER_USB_PID: u16 = 0x6015;

/// Baud rate at which a port is opened to see whether it can be used.
pub const PORT_PROBE_BAUD_RATE: u32 = 9600;

/// Whether a USB serial port with these IDs is a reader's.
pub fn is_reader_port(vid: u16, pid: u16) -> (b: bool)
    ensures
        b == (vid == READER_USB_VID && pid == READER_USB_PID),
{
    vid == READER_USB_VID && pid == READER_USB_PID
}

/// Main reader struct: a reader that is connected, found compatible, and
/// not configured for any protocol. See [`BasicReader`] for more usage.
#[derive(Debug)]
pub struct Reader {
    /// Holds connection
    connection: Connection,
}

impl ConnectionHolder for Reader {
    closed spec fn connection(&self) -> Connection {
        self.connection
    }

    fn steal_connection(self) -> (connection: Connection) {
        self.connection
    }
}

impl BasicReader for Reader {

}

impl Reader {
    /// Chooses the port to connect to among the serial ports of the
    /// computer. `usable[i]` says whether port `i` is a reader's USB port
    /// that could be opened.
    ///
    /// Where several ports are usable the last one is taken. Where none is,
    /// the result is [`Error::GeneralIo`].
    pub fn autoconnect(usable: &[bool]) -> (r: Result<usize>)
        ensures
            r matches Ok(port) ==> port < usable@.len() && usable@[port as int] && (forall|i: int|
                port < i < usable@.len() ==> !usable@[i]),
            r matches Err(e) ==> e == Error::GeneralIo && (forall|i: int|
                0 <= i < usable@.len() ==> !usable@[i]),
    {
        let mut found_port: Option<usize> = None;
        let mut i: usize = 0;
        while i < usable.len()
            invariant
                i <= usable@.len(),
                found_port matches Some(port) ==> port < i && usable@[port as int] && (forall|
                    k: int,
                | port < k < i ==> !usable@[k]),
                found_port is None ==> (forall|k: int| 0 <= k < i ==> !usable@[k]),
            decreases usable@.len() - i,
        {
            if usable[i] {
                found_port = Some(i);
            }
            i += 1;
        }
        match found_port {
            Some(port) => Ok(port),
            None => Err(Error::GeneralIo),
        }
    }

    /// Accepts a reader that was connected to, once its version is known.
    ///
    /// A reader whose firmware is older than 3.1.0.0 or whose hardware is
    /// older than 1.1.0.0 is turned down with [`Error::NoError`], which
    /// here stands for a warning. The connection is given up with it.
    pub fn connect(connection: Connection, version: &Version) -> (r: Result<Self>)
        ensures
            version.compatible() ==> r is Ok && r->Ok_0.connection() == connection,
            !version.compatible() ==> r is Err && r->Err_0 == Error::NoError,
    {
        let board = Self { connection };
        if board.test_compatible(version) {
            Ok(board)
        } else {
            Err(Error::NoError)
        }
    }

    /// Used for constructing new instances during conversion between
    /// reader types: the reader that holds this connection.
    pub(crate) fn new(connection: Connection) -> (r: Self)
        ensures
            r.connection() == connection,
    {
        Self { connection }
    }
}

/// A fake struct that behaves similarly to a protocol reader, except that
/// none of its functions asks anything of a chip. Every answer is made up.
/// This is mostly used to help write documentation.
#[derive(Debug)]
pub struct DummyReader;

impl DummyReader {
    /// Constructs a new [`DummyReader`].
    pub fn new() -> Self {
        Self {  }
    }

    /// Always returns the same version: firmware 3.1.0.0 on hardware
    /// 1.1.0.0.
    pub fn get_version(&self) -> (r: Result<Version>)
        ensures
            r is Ok,
            r->Ok_0.sw_ver == (VersionNum { major: 3, minor: 1, micro: 0, nano: 0 }),
            r->Ok_0.hw_ver == (VersionNum { major: 1, minor: 1, micro: 0, nano: 0 }),
            r->Ok_0.sw_info.info@ == "STUHFL SDK Evaluation FW @ STM32L4x6"@,
            r->Ok_0.hw_info.info@ == "ST25RU3993-EVAL Board."@,
            r->Ok_0.compatible(),
    {
        Ok(
            Version {
                sw_ver: VersionNum { major: 3, minor: 1, micro: 0, nano: 0 },
                sw_info: VersionInfo {
                    info: String::from_str("STUHFL SDK Evaluation FW @ STM32L4x6"),
                },
                hw_ver: VersionNum { major: 1, minor: 1, micro: 0, nano: 0 },
                hw_info: VersionInfo { info: String::from_str("ST25RU3993-EVAL Board.") },
            },
        )
    }

    /// Always returns `Ok(true)`.
    pub fn test_compatible(&self) -> (r: Result<bool>)
        ensures
            r == Ok::<bool, Error>(true),
    {
        Ok(true)
    }

    /// Always returns `Ok(())`.
    pub fn tune(&mut self, _algo: TuningAlgorithm) -> (r: Result<()>)
        ensures
            r == Ok::<(), Error>(()),
    {
        Ok(())
    }

    /// Always returns a single tag with empty values, and statistics that
    /// count this one tag and nothing else.
    pub fn inventory_once(&self) -> (r: Result<(InventoryStatistics, Vec<InventoryTag>)>)
        ensures
            r is Ok,
            r->Ok_0.0 == (InventoryStatistics { tag_count: 1, ..InventoryStatistics::spec_new() }),
            r->Ok_0.1@.len() == r->Ok_0.0.tag_count,
            r->Ok_0.1@[0]@ == (InventoryTagView {
                slot_id: 0,
                timestamp: 0,
                antenna: Antenna::Antenna1,
                agc: 0,
                rssi_log_i: 0,
                rssi_log_q: 0,
                rssi_lin_i: 0,
                rssi_lin_q: 0,
                pc: seq![0u8, 0u8],
                xpc: Seq::<u8>::empty(),
                epc: Seq::<u8>::empty(),
                tid: Seq::<u8>::empty(),
            }),
    {
        let mut tags: Vec<InventoryTag> = Vec::new();
        tags.push(
            InventoryTag {
                slot_id: 0,
                timestamp: 0,
                antenna: Antenna::Antenna1,
                agc: 0,
                rssi_lin_i: 0,
                rssi_lin_q: 0,
                rssi_log_i: 0,
                rssi_log_q: 0,
                pc: [0, 0],
                xpc: Xpc::from_id(Vec::new()),
                epc: Epc::from_id(Vec::new()),
                tid: Tid::from_id(Vec::new()),
            },
        );
        assert(tags@[0].pc@ =~= seq![0u8, 0u8]);
        assert(tags@[0].xpc@ =~= Seq::<u8>::empty());
        assert(tags@[0].epc@ =~= Seq::<u8>::empty());
        assert(tags@[0].tid@ =~= Seq::<u8>::empty());
        let mut statistics = InventoryStatistics::new();
        statistics.tag_count = 1;
        Ok((statistics, tags))
    }

    /// Always returns empty statistics. The callback is never called.
    pub fn inventory<F: Fn(InventoryTag) + Send>(&mut self, _num_rounds: u32, _cb: F) -> (r:
        Result<InventoryStatistics>)
        ensures
            r == Ok::<InventoryStatistics, Error>(InventoryStatistics::spec_new()),
    {
        Ok(InventoryStatistics::new())
    }

    /// Always returns `Ok(())`.
    pub fn select(&mut self, _epc: &Epc) -> (r: Result<()>)
        ensures
            r == Ok::<(), Error>(()),
    {
        Ok(())
    }

    /// Always returns an empty vector.
    pub fn read(
        &mut self,
        _bank: MemoryBank,
        _word_address: u32,
        _num_bytes: u8,
        _password: Option<Password>,
    ) -> (r: Result<Vec<u8>>)
        ensures
            r is Ok,
            r->Ok_0@.len() == 0,
    {
        Ok(Vec::new())
    }

    /// Always returns `Ok(())`.
    pub fn write(
        &mut self,
        _bank: MemoryBank,
        _word_address: u32,
        _data: [u8; 2],
        _password: Option<Password>,
    ) -> (r: Result<()>)
        ensures
            r == Ok::<(), Error>(()),
    {
        Ok(())
    }
}

} // verus!
