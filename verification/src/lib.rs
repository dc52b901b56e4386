//! Host-side session layer for the ST25RU3993 UHF RFID reader.
//!
//! The reader chip is reached through a small set of request/response
//! operations. This crate holds everything that is decided on the host: the
//! validated configuration values, the records that are handed to the chip,
//! the order in which they are sent, the session states, and the handling of
//! what the chip answers. Talking to the device itself is left to the caller.
//!
//! # The session
//!
//! A session passes through four states, and each of them is a type:
//!
//! - connected: a [`data_types::Connection`] comes out of the chip's answer
//!   to the request to connect over a serial port;
//! - accepted: a [`reader::Reader`] comes out of a connection and the
//!   version of the board, if the board is not too old;
//! - configured: a [`gen2::Gen2Reader`] comes out of a reader when the chip
//!   has accepted all of a [`gen2::Gen2Cfg`], one request after the other
//!   (see [`gen2::configure`]);
//! - tuned: the same reader after it was tuned. Only a tuned reader builds
//!   requests for inventories and for access to tags.
//!
//! Every step uses up what it started from and hands its connection on,
//! so that no two readers ever hold the same connection.
//!
//! # Requests and answers
//!
//! No function of this crate talks to the chip. A command is a function
//! that builds the record of a request (see [`wire`]), and, where the
//! answer holds more than a status code, a second function that takes the
//! answer. The caller carries the record to the chip and back.

pub mod data_types;
pub mod error;
pub mod gen2;
pub mod helpers;
pub mod prelude;
pub mod reader;
pub mod text;
pub mod wire;
