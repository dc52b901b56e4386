//! Status codes reported by the reader.

use vstd::prelude::*;
use vstd::std_specs::convert::FromSpecImpl;
use vstd::string::StringExecFns;

verus! {

/// Error type used throughout the library: the status codes that the reader
/// reports, by name.
///
/// `NoError` is the code of success. A request that went well never returns
/// it as an error; it is returned as one only where the library itself
/// turns a request down as a recoverable warning, usually due to improper
/// usage.
#[derive(Debug, Copy, Clone, PartialEq, Eq, Structural)]
pub enum Error {
    /// Generic errors
    Generic,
    /// No errors occurred (as an error: a warning, see [`Error`])
    NoError,
    /// Not enough memory to perform the requested operation
    NoMem,
    /// Device or resource busy
    Busy,
    /// General IO. Usually happens when reader is disconnected or can't be reached.
    GeneralIo,
    /// Error due to timeout
    Timeout,
    /// Invalid request or requested function can't be executed at the moment
    Request,
    /// No message of desired type
    NoMsg,
    /// Parameter error
    Param,
    /// Protocol error
    Proto,
    /// No response
    ChipNoResp,
    /// Header
    ChipHeader,
    /// Preamble
    ChipPreamble,
    /// Chip RX count
    ChipRxCount,
    /// Chip CRC
    ChipCrc,
    /// Chip First-In-First-Out buffer
    ChipFifo,
    /// Chip Collision
    ChipColl,
    /// Reflected Power
    ReflectedPower,
    /// Gen2 Select
    Gen2Select,
    /// Gen2 Access
    Gen2Access,
    /// Gen2 Request Random Number
    Gen2ReqRn,
    /// Gen2 Channel Timeout
    Gen2ChannelTimeout,
    /// Gen2 Other
    Gen2Other,
    /// Gen2 Unsupported Command
    Gen2NotSupported,
    /// Gen2 Invalid Privileges
    Gen2Privileges,
    /// Gen2 Memory Overrun
    Gen2MemOverRun,
    /// Gen2 Memory Locked
    Gen2MemLocked,
    /// Gen2 Crypto
    Gen2Crypto,
    /// Gen2 Encapsulation
    Gen2Encapsulation,
    /// Gen2 Response Buffer Overflow
    Gen2RespBufOverflow,
    /// Gen2 Security Timeout
    Gen2SecurityTimeout,
    /// Gen2 Power Shortage
    Gen2PowerShortage,
    /// Gen2 Nonspecific
    Gen2Nonspecific,
    /// GB-29768 Power Shortage
    Gb29768PowerShortage,
    /// GB-29768 Permissions Error
    Gb29768PermissionError,
    /// GB-29768 Storage Overflow
    Gb29768StorageOverflow,
    /// GB-29768 Storage Locked
    Gb29768StorageLocked,
    /// GB-29768 Password Error
    Gb29768PasswordError,
    /// GB-29768 Authentication Error
    Gb29768AuthError,
    /// GB-29768 Access Error
    Gb29768AccessError,
    /// GB-29768 Access Timeout
    Gb29768AccessTimeout,
    /// GB-29768 Other
    Gb29768Other,
    /// ISO-6b No Tag
    Iso6bNoTag,
    /// ISO-6b IRQ
    Iso6bIRQ,
    /// ISO-6b First In First Out Buffer
    Iso6bRegFIFO,
    /// ISO-6b Other
    Iso6bOther,
    /// ISO-6b Access Timeout
    Iso6bAccessTimeout,
}

/// Custom result type that always uses [`Error`] as error type.
pub type Result<T> = core::result::Result<T, Error>;

impl Error {
    /// The name of the error as it is shown to a user.
    pub open spec fn name(self) -> Seq<char> {
        match self {
            Error::Generic => "Generic"@,
            Error::NoError => "None"@,
            Error::NoMem => "No Memory"@,
            Error::Busy => "Busy"@,
            Error::GeneralIo => "General IO"@,
            Error::Timeout => "Timeout"@,
            Error::Request => "Request"@,
            Error::NoMsg => "No Message"@,
            Error::Param => "Parameter"@,
            Error::Proto => "Protocol"@,
            Error::ChipNoResp => "No Response"@,
            Error::ChipHeader => "Header"@,
            Error::ChipPreamble => "Preamble"@,
            Error::ChipRxCount => "Chip Rx Count"@,
            Error::ChipCrc => "Chip CRC"@,
            Error::ChipFifo => "Chip FIFO"@,
            Error::ChipColl => "Chip COLL"@,
            Error::ReflectedPower => "Reflected Power"@,
            Error::Gen2Select => "Gen2 Select"@,
            Error::Gen2Access => "Gen2 Access"@,
            Error::Gen2ReqRn => "Gen2 Request RN"@,
            Error::Gen2ChannelTimeout => "Gen2 Channel Timeout"@,
            Error::Gen2Other => "Gen2 Other"@,
            Error::Gen2NotSupported => "Gen2 Not Supported"@,
            Error::Gen2Privileges => "Gen2 Privileges"@,
            Error::Gen2MemOverRun => "Gen2 Memory Overrun"@,
            Error::Gen2MemLocked => "Gen2 Memory Locked"@,
            Error::Gen2Crypto => "Gen2 Crypto"@,
            Error::Gen2Encapsulation => "Gen2 Encapsulation"@,
            Error::Gen2RespBufOverflow => "Gen2 Response Buffer Overflow"@,
            Error::Gen2SecurityTimeout => "Gen2 Security Timeout"@,
            Error::Gen2PowerShortage => "Gen2 Power Shortage"@,
            Error::Gen2Nonspecific => "Gen2 Nonspecific"@,
            Error::Gb29768PowerShortage => "Gb29768 Power Shortage"@,
            Error::Gb29768PermissionError => "Gb29768 Permission Error"@,
            Error::Gb29768StorageOverflow => "Gb29768 Storage Overflow"@,
            Error::Gb29768StorageLocked => "Gb29768 Storage Locked"@,
            Error::Gb29768PasswordError => "Gb29768 Password Error"@,
            Error::Gb29768AuthError => "Gb29768 Authentication Error"@,
            Error::Gb29768AccessError => "Gb29768 Access Error"@,
            Error::Gb29768AccessTimeout => "Gb29768 Access Timeout"@,
            Error::Gb29768Other => "Gb29768 Other"@,
            Error::Iso6bNoTag => "Iso6b No Tag"@,
            Error::Iso6bIRQ => "Iso6b IRQ"@,
            Error::Iso6bRegFIFO => "Iso6b Register FIFO"@,
            Error::Iso6bOther => "Iso6b Other"@,
            Error::Iso6bAccessTimeout => "Iso6b Access Timeout"@,
        }
    }

    /// The text of the error: its name, a space and the word `Error`.
    pub open spec fn text(self) -> Seq<char> {
        self.name() + " Error"@
    }

    /// The name of the error as it is shown to a user.
    pub fn as_str(&self) -> (s: &'static str)
        ensures
            s@ == self.name(),
    {
        match self {
            Error::Generic => "Generic",
            Error::NoError => "None",
            Error::NoMem => "No Memory",
            Error::Busy => "Busy",
            Error::GeneralIo => "General IO",
            Error::Timeout => "Timeout",
            Error::Request => "Request",
            Error::NoMsg => "No Message",
            Error::Param => "Parameter",
            Error::Proto => "Protocol",
            Error::ChipNoResp => "No Response",
            Error::ChipHeader => "Header",
            Error::ChipPreamble => "Preamble",
            Error::ChipRxCount => "Chip Rx Count",
            Error::ChipCrc => "Chip CRC",
            Error::ChipFifo => "Chip FIFO",
            Error::ChipColl => "Chip COLL",
            Error::ReflectedPower => "Reflected Power",
            Error::Gen2Select => "Gen2 Select",
            Error::Gen2Access => "Gen2 Access",
            Error::Gen2ReqRn => "Gen2 Request RN",
            Error::Gen2ChannelTimeout => "Gen2 Channel Timeout",
            Error::Gen2Other => "Gen2 Other",
            Error::Gen2NotSupported => "Gen2 Not Supported",
            Error::Gen2Privileges => "Gen2 Privileges",
            Error::Gen2MemOverRun => "Gen2 Memory Overrun",
            Error::Gen2MemLocked => "Gen2 Memory Locked",
            Error::Gen2Crypto => "Gen2 Crypto",
            Error::Gen2Encapsulation => "Gen2 Encapsulation",
            Error::Gen2RespBufOverflow => "Gen2 Response Buffer Overflow",
            Error::Gen2SecurityTimeout => "Gen2 Security Timeout",
            Error::Gen2PowerShortage => "Gen2 Power Shortage",
            Error::Gen2Nonspecific => "Gen2 Nonspecific",
            Error::Gb29768PowerShortage => "Gb29768 Power Shortage",
            Error::Gb29768PermissionError => "Gb29768 Permission Error",
            Error::Gb29768StorageOverflow => "Gb29768 Storage Overflow",
            Error::Gb29768StorageLocked => "Gb29768 Storage Locked",
            Error::Gb29768PasswordError => "Gb29768 Password Error",
            Error::Gb29768AuthError => "Gb29768 Authentication Error",
            Error::Gb29768AccessError => "Gb29768 Access Error",
            Error::Gb29768AccessTimeout => "Gb29768 Access Timeout",
            Error::Gb29768Other => "Gb29768 Other",
            Error::Iso6bNoTag => "Iso6b No Tag",
            Error::Iso6bIRQ => "Iso6b IRQ",
            Error::Iso6bRegFIFO => "Iso6b Register FIFO",
            Error::Iso6bOther => "Iso6b Other",
            Error::Iso6bAccessTimeout => "Iso6b Access Timeout",
        }
    }

    /// Text form of the error.
    pub fn to_string(&self) -> (s: String)
        ensures
            s@ == self.text(),
    {
        String::from_str(self.as_str()).concat(" Error")
    }

    /// Whether this is the code of success.
    pub fn is_success(&self) -> (b: bool)
        ensures
            b == (*self == Error::NoError),
    {
        match self {
            Error::NoError => true,
            _ => false,
        }
    }
}

impl From<Error> for String {
    /// The text of the error. See [`Error::to_string`].
    fn from(e: Error) -> (s: String)
        ensures
            s@ == e.text(),
    {
        e.to_string()
    }
}

impl FromSpecImpl<Error> for String {
    /// Two strings of the same text need not be the same string, so the
    /// conversion promises the text of its result and not the result itself.
    open spec fn obeys_from_spec() -> bool {
        false
    }

    open spec fn from_spec(e: Error) -> String {
        arbitrary()
    }
}

} // verus!
