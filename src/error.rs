//! Errors of the library.
use crate::ecc_operation::ECCOperation;
use crate::message::{EmbassyMessage, MessageKind};
use vstd::prelude::*;

verus! {

/// A text that names no state or operation.
#[derive(Debug)]
pub enum ConversionError {
    BadString(String),
}

/// A failure of the message bus or of the transition protocol.
#[derive(Debug)]
pub enum EmbassyError {
    /// The channel of a module was closed; the message was not delivered.
    FailedMpscSend(EmbassyMessage),
    /// No monitor envoy listens; the message was not delivered.
    FailedBroadcastSend(EmbassyMessage),
    /// A message was read as the first kind but is of the second.
    InvalidKind(MessageKind, MessageKind),
    /// The body of a message of this kind is not a valid body of its kind.
    FailedParse(MessageKind),
    /// Every envoy dropped its end of the result channel.
    FailedRecieve,
    /// An envoy task ended by panicking or was aborted.
    FailedJoin,
    /// The system state allows no forward transition of all modules with this operation.
    InvalidTransition(ECCOperation),
    /// The bus is not connected to its envoys.
    Disconnected,
    /// No runtime could be built for the envoys.
    NoRuntime,
    /// The check of the run number found it already used.
    RunNumberInUse,
    /// A blocking wait saw its condition unmet after every poll it was allowed.
    Timeout,
}

} // verus!
