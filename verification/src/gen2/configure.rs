//! Bringing a reader into the Gen2 protocol.
//!
//! The configuration is pushed to the chip one record at a time, in a fixed
//! order: antenna settings, inventory settings, protocol settings,
//! Listen-Before-Talk, channel list, frequency hopping, and last a select
//! command that empties the chip's list of select commands. The first
//! request that the chip refuses ends the sequence with the chip's error.
//! Nothing that was pushed before is taken back.

use super::gen2_reader::{Gen2Reader, Gen2ReaderView, RunState};
use super::gen2_structs::{Gen2Cfg, Gen2CfgView};
use crate::data_types::channel::ChannelListCfg;
use crate::data_types::connection::Connection;
use crate::data_types::traits::{AsFFI, ConnectionHolder};
use crate::error::Error;
use crate::wire;
use vstd::prelude::*;

verus! {

/// Number of requests that configure a reader.
pub const CONFIGURE_STEPS: u8 = 7;

/// One request of the sequence that configures a reader.
#[derive(Debug)]
pub enum ConfigureRequest {
    /// Set the antenna settings.
    SetTxRxCfg(wire::TxRxCfg),
    /// Set the inventory settings.
    SetGen2InventoryCfg(wire::Gen2InventoryCfg),
    /// Set the protocol settings.
    SetGen2ProtocolCfg(wire::Gen2ProtocolCfg),
    /// Set Listen-Before-Talk.
    SetFreqLbt(wire::FreqLbt),
    /// Set the channel list.
    SetChannelList(wire::ChannelList),
    /// Set frequency hopping.
    SetFreqHop(wire::FreqHop),
    /// Send a select command.
    Gen2Select(wire::Gen2Select),
}

impl ConfigureRequest {
    /// The request is the one that stands at place `step` of the sequence
    /// for this configuration.
    pub open spec fn is_step(self, step: int, configuration: Gen2CfgView) -> bool {
        match self {
            ConfigureRequest::SetTxRxCfg(w) => step == 0 && w
                == configuration.tx_rx_cfg.wire_record(),
            ConfigureRequest::SetGen2InventoryCfg(w) => step == 1 && w
                == configuration.inv_cfg.wire_record(),
            ConfigureRequest::SetGen2ProtocolCfg(w) => step == 2 && w
                == configuration.proto_cfg.wire_record(),
            ConfigureRequest::SetFreqLbt(w) => step == 3 && w == configuration.lbt.wire_record(),
            ConfigureRequest::SetChannelList(w) => step == 4 && w@ == ChannelListCfg::wire_table(
                configuration.channel_list,
            ) && w.item_list@.len() <= wire::MAX_FREQUENCY,
            ConfigureRequest::SetFreqHop(w) => step == 5 && w
                == configuration.freq_hop.wire_record(),
            ConfigureRequest::Gen2Select(w) => step == 6 && w == (wire::Gen2Select {
                mode: wire::SelectMode::ClearList,
                ..wire::Gen2Select::spec_default()
            }),
        }
    }
}

/// A configuration under way: one request was handed out and its answer is
/// awaited.
#[derive(Debug)]
pub struct Configuring {
    /// place of the request whose answer is awaited
    pending: u8,
    /// the connection of the reader that is being configured
    connection: Connection,
}

impl View for Configuring {
    type V = int;

    /// Place of the request whose answer is awaited.
    closed spec fn view(&self) -> int {
        self.pending as int
    }
}

/// What follows the chip's answer to a request of the sequence.
#[derive(Debug)]
pub enum ConfigureOutcome {
    /// The chip accepted the request, and this one is to be sent next.
    Next(Configuring, ConfigureRequest),
    /// The chip accepted the last request: here is the configured reader.
    Done(Gen2Reader),
    /// The chip refused the request with this error. The configuration is
    /// over and the connection is given up.
    Failed(Error),
}

impl Configuring {
    #[verifier::type_invariant]
    spec fn in_sequence(self) -> bool {
        self.pending < CONFIGURE_STEPS
    }

    /// The connection of the reader that is being configured.
    pub closed spec fn connection(&self) -> Connection {
        self.connection
    }

    /// Builds the request at place `step`.
    fn request(configuration: &Gen2Cfg, step: u8) -> (r: ConfigureRequest)
        requires
            step < CONFIGURE_STEPS,
        ensures
            r.is_step(step as int, configuration@),
    {
        if step == 0 {
            ConfigureRequest::SetTxRxCfg(configuration.tx_rx_cfg.as_ffi())
        } else if step == 1 {
            ConfigureRequest::SetGen2InventoryCfg(configuration.inv_cfg.as_ffi())
        } else if step == 2 {
            ConfigureRequest::SetGen2ProtocolCfg(configuration.proto_cfg.as_ffi())
        } else if step == 3 {
            ConfigureRequest::SetFreqLbt(configuration.lbt.as_ffi())
        } else if step == 4 {
            ConfigureRequest::SetChannelList(configuration.channel_list.as_ffi())
        } else if step == 5 {
            ConfigureRequest::SetFreqHop(configuration.freq_hop.as_ffi())
        } else {
            let mut gen2_select = wire::Gen2Select::default();
            gen2_select.mode = wire::SelectMode::ClearList;
            ConfigureRequest::Gen2Select(gen2_select)
        }
    }

    /// Begins the sequence with the connection of the reader that is to be
    /// configured.
    pub(crate) fn begin(connection: Connection, configuration: &Gen2Cfg) -> (r: (
        Configuring,
        ConfigureRequest,
    ))
        ensures
            r.0@ == 0,
            r.0.connection() == connection,
            r.1.is_step(0, configuration@),
    {
        (Configuring { pending: 0, connection }, Configuring::request(configuration, 0))
    }

    /// Takes the chip's answer to the request that was handed out last.
    ///
    /// An error ends the configuration with that error. After a success
    /// the next request of the sequence is handed out, or, after the last
    /// one, the configured reader: not tuned, with no inventory under way,
    /// and in hold of the connection.
    pub fn advance(self, configuration: &Gen2Cfg, status: Error) -> (r: ConfigureOutcome)
        ensures
            0 <= self@ < CONFIGURE_STEPS,
            status != Error::NoError ==> (r matches ConfigureOutcome::Failed(e) && e == status),
            status == Error::NoError && self@ + 1 < CONFIGURE_STEPS ==> (r matches ConfigureOutcome::Next(
                next,
                request,
            ) && next@ == self@ + 1 && next.connection() == self.connection() && request.is_step(
                self@ + 1,
                configuration@,
            )),
            status == Error::NoError && self@ + 1 == CONFIGURE_STEPS ==> (r matches ConfigureOutcome::Done(
                reader,
            ) && reader@ == (Gen2ReaderView {
                is_tuned: false,
                run: RunState::Idle,
                connection: self.connection(),
            }) && reader.connection() == self.connection()),
    {
        proof {
            use_type_invariant(&self);
        }
        match status {
            Error::NoError => {
                let next = self.pending + 1;
                if next < CONFIGURE_STEPS {
                    ConfigureOutcome::Next(
                        Configuring { pending: next, connection: self.connection },
                        Configuring::request(configuration, next),
                    )
                } else {
                    ConfigureOutcome::Done(Gen2Reader::new(self.connection))
                }
            },
            _ => ConfigureOutcome::Failed(status),
        }
    }
}

/// How a configuration ends.
pub enum ConfigureEnd {
    /// Every request was accepted.
    Configured,
    /// The request at place `step` was refused with `error`.
    Failed { step: int, error: Error },
    /// The answers ran out before the sequence did: the answer to the
    /// request at place `pending` is awaited.
    Unfinished { pending: int },
}

/// Where a configuration that awaits the answer to the request at place
/// `pending` ends, when the chip gives `answers` from then on, in order.
/// Every answer is handled as [`Configuring::advance`] handles it.
pub open spec fn configure_end(pending: int, answers: Seq<Error>) -> ConfigureEnd
    decreases answers.len(),
{
    if pending >= CONFIGURE_STEPS {
        ConfigureEnd::Configured
    } else if answers.len() == 0 {
        ConfigureEnd::Unfinished { pending }
    } else if answers[0] != Error::NoError {
        ConfigureEnd::Failed { step: pending, error: answers[0] }
    } else {
        configure_end(pending + 1, answers.drop_first())
    }
}

/// The requests are sent in their fixed order until one is refused: a
/// configuration fails at a place exactly if the chip accepted every
/// request before it and refused the one at it, and the error is the one
/// that the chip gave there. It succeeds exactly if the chip accepted all
/// seven.
pub proof fn lemma_configure_aborts_at_first_failure(pending: int, answers: Seq<Error>)
    requires
        0 <= pending <= CONFIGURE_STEPS,
    ensures
        configure_end(pending, answers) matches ConfigureEnd::Failed { step, error } ==> {
            &&& pending <= step < CONFIGURE_STEPS
            &&& step - pending < answers.len()
            &&& error == answers[step - pending]
            &&& error != Error::NoError
            &&& forall|i: int| 0 <= i < step - pending ==> answers[i] == Error::NoError
        },
        configure_end(pending, answers) is Configured <==> {
            &&& answers.len() >= CONFIGURE_STEPS - pending
            &&& forall|i: int| 0 <= i < CONFIGURE_STEPS - pending ==> answers[i] == Error::NoError
        },
        configure_end(pending, answers) matches ConfigureEnd::Unfinished { pending: p } ==> {
            &&& p == pending + answers.len()
            &&& p < CONFIGURE_STEPS
            &&& forall|i: int| 0 <= i < answers.len() ==> answers[i] == Error::NoError
        },
    decreases answers.len(),
{
    if pending < CONFIGURE_STEPS && answers.len() > 0 && answers[0] == Error::NoError {
        let rest = answers.drop_first();
        lemma_configure_aborts_at_first_failure(pending + 1, rest);
        assert forall|i: int| 0 <= i < rest.len() implies rest[i] == answers[i + 1] by {}
        match configure_end(pending + 1, rest) {
            ConfigureEnd::Failed { step, error } => {
                assert forall|i: int| 0 <= i < step - pending implies answers[i]
                    == Error::NoError by {
                    if i > 0 {
                        assert(rest[i - 1] == answers[i]);
                    }
                }
            },
            ConfigureEnd::Configured => {
                assert forall|i: int| 0 <= i < CONFIGURE_STEPS - pending implies answers[i]
                    == Error::NoError by {
                    if i > 0 {
                        assert(rest[i - 1] == answers[i]);
                    }
                }
            },
            ConfigureEnd::Unfinished { pending: p } => {
                assert forall|i: int| 0 <= i < answers.len() implies answers[i]
                    == Error::NoError by {
                    if i > 0 {
                        assert(rest[i - 1] == answers[i]);
                    }
                }
            },
        }
        if answers.len() >= CONFIGURE_STEPS - pending && (forall|i: int|
            0 <= i < CONFIGURE_STEPS - pending ==> answers[i] == Error::NoError) {
            assert forall|i: int| 0 <= i < CONFIGURE_STEPS - pending - 1 implies rest[i]
                == Error::NoError by {
                assert(rest[i] == answers[i + 1]);
            }
        }
    }
}

} // verus!
