//! Traits shared by the data types and the readers.

use super::connection::Connection;
use super::enums::{MemoryBank, TuningAlgorithm};
use super::tag::{Epc, Password};
use super::version::{Version, VersionNum};
use crate::error::{Error, Result};
use crate::gen2::configure::{ConfigureRequest, Configuring};
use crate::gen2::gen2_structs::Gen2Cfg;
use crate::helpers::proc_err;
use crate::reader::Reader;
use crate::wire;
use vstd::prelude::*;

verus! {

/// Allows a value to be converted into the record that the chip takes.
pub trait AsFFI<T> {
    /// Does the actual conversion
    fn as_ffi(&self) -> T;
}

/// Returns a builder to create the structure
pub trait Builder<T> where T: core::default::Default {
    /// The builder with no field set.
    fn builder() -> T;
}

/// Used to prove that a reader has an active connection.
pub trait ConnectionHolder {
    /// The connection that the reader holds.
    spec fn connection(&self) -> Connection;

    /// Gives up the connection that the reader holds. Only a reader that
    /// has sole access to a live connection can do this, and it is no
    /// reader afterwards.
    fn steal_connection(self) -> (connection: Connection)
        ensures
            connection == self.connection(),
    ;
}

/// Basic RFID Reader functionality. Includes commands that don't depend on
/// any particular protocol. See [`ProtocolReader`] for commands that depend
/// on the protocol.
pub trait BasicReader: Sized + ConnectionHolder {
    /// Getting the reader version, first step: the two version numbers out
    /// of the chip's answer to the request for the board version.
    ///
    /// Where the chip reports an error, that error is the result and the
    /// descriptions are not asked for.
    fn get_version(&self, status: Error, sw_ver: wire::Version, hw_ver: wire::Version) -> (r:
        Result<(VersionNum, VersionNum)>)
        ensures
            status != Error::NoError ==> r == Err::<(VersionNum, VersionNum), Error>(status),
            status == Error::NoError ==> r == Ok::<(VersionNum, VersionNum), Error>(
                (
                    VersionNum {
                        major: sw_ver.major,
                        minor: sw_ver.minor,
                        micro: sw_ver.micro,
                        nano: sw_ver.nano,
                    },
                    VersionNum {
                        major: hw_ver.major,
                        minor: hw_ver.minor,
                        micro: hw_ver.micro,
                        nano: hw_ver.nano,
                    },
                ),
            ),
    {
        Version::read_numbers(status, sw_ver, hw_ver)
    }

    /// Getting the reader version, second step: the version out of the
    /// numbers and of the chip's answer to the request for the board
    /// descriptions.
    fn get_version_info(
        &self,
        numbers: (VersionNum, VersionNum),
        status: Error,
        sw_info: String,
        hw_info: String,
    ) -> (r: Result<Version>)
        ensures
            status != Error::NoError ==> r is Err && r->Err_0 == status,
            status == Error::NoError ==> r is Ok && r->Ok_0.sw_ver == numbers.0 && r->Ok_0.hw_ver
                == numbers.1 && r->Ok_0.sw_info.info@ == sw_info@ && r->Ok_0.hw_info.info@
                == hw_info@,
    {
        Version::read_info(numbers, status, sw_info, hw_info)
    }

    /// Removes any protocol-specific configuration from the reader: what
    /// is left is a reader that holds the connection of this one and
    /// nothing else.
    fn disconfigure(self) -> (r: Reader)
        ensures
            r.connection() == self.connection(),
    {
        Reader::new(self.steal_connection())
    }

    /// Begins to configure the reader for use of the Gen2 protocol, and
    /// gives the first request to send: the antenna settings.
    ///
    /// The reader is used up. What comes back is the configuration under
    /// way, which takes the chip's answer to every request and says what to
    /// send next.
    fn configure_gen2(self, configuration: &Gen2Cfg) -> (r: (Configuring, ConfigureRequest))
        ensures
            r.0@ == 0,
            r.0.connection() == self.connection(),
            r.1.is_step(0, configuration@),
    {
        Configuring::begin(self.steal_connection(), configuration)
    }

    /// Tests whether a reader of this version is compatible with the
    /// library: neither its firmware nor its hardware is older than the
    /// oldest that is known to work.
    fn test_compatible(&self, version: &Version) -> (b: bool)
        ensures
            b == version.compatible(),
    {
        version.is_compatible()
    }

    /// Ends the connection: takes the chip's answer to the disconnect
    /// request. The reader is used up either way.
    fn disconnect(self, status: Error) -> (r: Result<()>)
        ensures
            status == Error::NoError ==> r == Ok::<(), Error>(()),
            status != Error::NoError ==> r == Err::<(), Error>(status),
    {
        let _connection = self.steal_connection();
        proc_err(status)
    }

    /// Builds the request that switches the antenna power. The mode byte of
    /// the request is 1 for on and 0 for off. The reader stays as it is.
    fn set_antenna_power(&mut self, on: bool, timeout: u16, frequency: u32) -> (w:
        wire::AntennaPower)
        ensures
            *final(self) == *old(self),
            w == (wire::AntennaPower {
                mode: if on {
                    1u8
                } else {
                    0u8
                },
                timeout,
                frequency,
            }),
    {
        wire::AntennaPower {
            mode: if on {
                1
            } else {
                0
            },
            timeout,
            frequency,
        }
    }

    /// Builds the request that chooses the power amplifier. The reader
    /// stays as it is.
    fn set_power_amplifier_cfg(&mut self, external: bool) -> (w: wire::PowerAmplifierCfg)
        ensures
            *final(self) == *old(self),
            w == (wire::PowerAmplifierCfg { external }),
    {
        wire::PowerAmplifierCfg { external }
    }
}

/// Protocol-specific reader commands. These include any commands that
/// require the reader to be configured to use an RFID protocol. See
/// [`BasicReader`] for more.
///
/// Every command but `tune` needs a tuned reader. A reader that is not
/// tuned turns the command down with a generic error and builds no request,
/// so that nothing is asked of the chip.
pub trait ProtocolReader: BasicReader {
    /// Whether the reader was tuned.
    spec fn tuned(&self) -> bool;

    /// First step of tuning the reader with the given algorithm: the
    /// request for the antenna settings, or nothing where there is nothing
    /// to do.
    ///
    /// With [`TuningAlgorithm::NoTuning`] nothing is asked of the chip and
    /// the reader stays as it is.
    fn tune(&self, algo: TuningAlgorithm) -> (r: Option<wire::TxRxCfg>)
        ensures
            algo == TuningAlgorithm::NoTuning ==> r is None,
            algo != TuningAlgorithm::NoTuning ==> r == Some(wire::TxRxCfg::spec_default()),
    ;

    /// Builds the request for a single inventory round, with room for
    /// `tag_list_size_max` tags.
    fn inventory_once(&self, tag_list_size_max: u16) -> (r: Result<
        (wire::InventoryOption, wire::InventoryData),
    >)
        ensures
            !self.tuned() ==> r is Err && r->Err_0 == Error::Generic,
            self.tuned() ==> r is Ok && (r->Ok_0.0, r->Ok_0.1@)
                == crate::gen2::gen2_reader::spec_inventory_request(0, tag_list_size_max),
    ;

    /// Begins a multi-round inventory of `num_rounds` rounds and builds its
    /// request, with room for `tag_list_size_max` tags in every round.
    ///
    /// No rounds at all cannot be asked for, and one run has to end before
    /// the next begins.
    fn inventory(&mut self, num_rounds: u32, tag_list_size_max: u16) -> (r: Result<
        (wire::InventoryOption, wire::InventoryData),
    >)
        ensures
            !old(self).tuned() ==> r is Err && r->Err_0 == Error::Generic,
            old(self).tuned() && num_rounds == 0 ==> r is Err && r->Err_0 == Error::NoError,
            final(self).tuned() == old(self).tuned(),
            final(self).connection() == old(self).connection(),
            r matches Ok(request) ==> (request.0, request.1@)
                == crate::gen2::gen2_reader::spec_inventory_request(
                num_rounds,
                tag_list_size_max,
            ),
    ;

    /// Builds the request that selects an individual tag by its EPC, so
    /// that access commands reach this tag.
    fn select(&self, epc: &Epc) -> (r: Result<wire::Gen2Select>)
        ensures
            !self.tuned() ==> r is Err && r->Err_0 == Error::Generic,
            self.tuned() ==> r is Ok,
    ;

    /// Builds the request that reads `num_bytes` bytes from a memory bank
    /// of the selected tag, beginning at a word address.
    fn read(
        &self,
        bank: MemoryBank,
        word_address: u32,
        num_bytes: u8,
        password: Option<Password>,
    ) -> (r: Result<wire::Read>)
        ensures
            !self.tuned() ==> r is Err && r->Err_0 == Error::Generic,
            self.tuned() ==> r is Ok,
    ;

    /// Builds the request that writes one word of two bytes to a memory
    /// bank of the selected tag, at a word address.
    fn write(
        &self,
        bank: MemoryBank,
        word_address: u32,
        data: [u8; 2],
        password: Option<Password>,
    ) -> (r: Result<wire::Write>)
        ensures
            !self.tuned() ==> r is Err && r->Err_0 == Error::Generic,
            self.tuned() ==> r is Ok,
    ;
}

} // verus!
