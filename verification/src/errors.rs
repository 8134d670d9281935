//! The bus's error taxonomy. Every failure a component or the supervisor can
//! observe is one of these variants; errors are delivered through response
//! channels as values, never by aborting the receiving task.

use vstd::prelude::*;

verus! {

/// Everything that can go wrong on the bus.
#[derive(Clone, Copy, Debug, PartialEq, Eq, Structural)]
pub enum BusError {
    /// A payload could not be encoded or decoded.
    SerializationError,
    /// A payload decode was requested with a type tag other than the stored one.
    TypeMismatch,
    /// A call named a non-reserved callback id with no registered owner.
    UnknownCallback,
    /// The target component's mailbox was closed mid-delivery.
    ComponentUnavailable,
    /// A callback id was registered while another component already owned it.
    CallbackAlreadyOwned,
    /// A send was attempted after the supervisor shut down.
    ChannelClosed,
    /// A structurally invalid envelope, e.g. a call routed as a broadcast.
    MalformedMessage,
}

impl BusError {
    /// A short human-readable description of the error.
    pub fn describe(&self) -> (r: &'static str)
        ensures
            r@.len() > 0,
    {
        let r = match self {
            BusError::SerializationError => "payload could not be encoded or decoded",
            BusError::TypeMismatch => "type provided doesn't match internal type",
            BusError::UnknownCallback => "couldn't find callback specified",
            BusError::ComponentUnavailable => "component failed",
            BusError::CallbackAlreadyOwned => "callback id is already owned",
            BusError::ChannelClosed => "bus channel is closed",
            BusError::MalformedMessage => "tried to broadcast message with Message::Call type",
        };
        proof {
            reveal_strlit("payload could not be encoded or decoded");
            reveal_strlit("type provided doesn't match internal type");
            reveal_strlit("couldn't find callback specified");
            reveal_strlit("component failed");
            reveal_strlit("callback id is already owned");
            reveal_strlit("bus channel is closed");
            reveal_strlit("tried to broadcast message with Message::Call type");
        }
        r
    }
}

} // verus!
