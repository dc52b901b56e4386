//! The token of a live connection.

use crate::error::{Error, Result};
use vstd::prelude::*;
use vstd::string::StringExecFns;

verus! {

/// Proof of a live connection to the reader chip over a serial port.
///
/// A connection comes into being when the chip accepts a connect request,
/// and in no other way. Whoever holds it is the one reader that may talk to
/// the chip: a reader takes it over when it is made and gives it up when it
/// is turned into another reader. Through all of that it stays the
/// connection over the port on which it was opened.
#[derive(Debug)]
pub struct Connection {
    /// name of the serial port that the connection runs over
    port: String,
}

impl View for Connection {
    type V = Seq<char>;

    /// The name of the serial port that the connection runs over.
    closed spec fn view(&self) -> Seq<char> {
        self.port@
    }
}

impl Connection {
    /// Makes the connection out of the chip's answer to the request to
    /// connect over the named port: there is one exactly if the chip
    /// reported success.
    pub fn new(port: &str, status: Error) -> (r: Result<Connection>)
        ensures
            status == Error::NoError ==> r is Ok && r->Ok_0@ == port@,
            status != Error::NoError ==> r is Err && r->Err_0 == status,
    {
        match status {
            Error::NoError => Ok(Connection { port: String::from_str(port) }),
            _ => Err(status),
        }
    }

    /// The name of the serial port that the connection runs over.
    pub fn port(&self) -> (port: &str)
        ensures
            port@ == self@,
    {
        self.port.as_str()
    }
}

} // verus!
