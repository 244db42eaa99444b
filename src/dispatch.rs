//! Dispatch decisions: what goes to the transport, and what its answer means.
//!
//! The transport itself (an HTTP client or a websocket broadcaster) lives
//! outside the library: `begin_dispatch` says what it must be handed, and
//! `finish_dispatch` turns its answer into an outcome.
use vstd::prelude::*;

use crate::bitburner::rest_body;
use crate::bitburner::message::rpc_body;
use crate::bitburner::HttpVerb;
use crate::config::Config;
use crate::handler::{EncodedView, Message};

verus! {

/// How a message travels.
#[derive(Debug, Clone, Copy, PartialEq, Eq, Structural)]
pub enum Transport {
    /// HTTP `PUT` with the body.
    Put,
    /// HTTP `DELETE` with the body.
    Delete,
    /// The body as a text frame to every connected client.
    Broadcast,
}

/// What the transport is handed: a way to send and a JSON body.
#[derive(Debug, Clone, PartialEq, Eq)]
pub struct WireRequest {
    pub transport: Transport,
    pub body: String,
}

/// Result of dispatching one message.
#[derive(Debug, Clone, PartialEq, Eq)]
pub enum Outcome {
    Sent,
    /// The message did not reach the game; the text says why.
    TransportError(String),
}

/// Next step of a dispatch.
#[derive(Debug, Clone, PartialEq, Eq)]
pub enum DispatchStep {
    /// Nothing is to be sent; this is the outcome.
    Finished(Outcome),
    /// The request must be handed to the transport.
    Transmit(WireRequest),
}

/// The way a message travels.
pub open spec fn transport_of(m: EncodedView) -> Transport {
    match m {
        EncodedView::Rest(HttpVerb::Put, _) => Transport::Put,
        EncodedView::Rest(HttpVerb::Delete, _) => Transport::Delete,
        EncodedView::Rpc(_) => Transport::Broadcast,
    }
}

/// The JSON body of a message.
pub open spec fn wire_body(m: EncodedView) -> Seq<char> {
    match m {
        EncodedView::Rest(_, req) => rest_body(req),
        EncodedView::Rpc(msg) => rpc_body(msg),
    }
}

/// Decides how `message` is dispatched. In a dry run nothing is sent and the
/// outcome is `Sent`; otherwise the message's JSON body is handed to the
/// transport of its protocol.
pub fn begin_dispatch(config: &Config, message: &Message) -> (r: DispatchStep)
    ensures
        config.dry ==> r == DispatchStep::Finished(Outcome::Sent),
        !config.dry ==> (r matches DispatchStep::Transmit(w) && w.transport == transport_of(message@)
            && w.body@ == wire_body(message@)),
{
    if config.dry {
        return DispatchStep::Finished(Outcome::Sent);
    }
    let (transport, body) = match message {
        Message::Rest(HttpVerb::Put, request) => (Transport::Put, request.to_json()),
        Message::Rest(HttpVerb::Delete, request) => (Transport::Delete, request.to_json()),
        Message::Rpc(m) => (Transport::Broadcast, m.to_json()),
    };
    DispatchStep::Transmit(WireRequest { transport, body })
}

/// The outcome of a message that the transport was handed: `Sent` on
/// success, else a transport error with the transport's account of it.
pub fn finish_dispatch(result: Result<(), String>) -> (r: Outcome)
    ensures
        match result {
            Ok(()) => r == Outcome::Sent,
            Err(detail) => r == Outcome::TransportError(detail),
        },
{
    match result {
        Ok(()) => Outcome::Sent,
        Err(detail) => Outcome::TransportError(detail),
    }
}

} // verus!
