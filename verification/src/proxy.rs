//! The transport abstractions shared by every handler: the dial policy an
//! outbound declares, and the tagged-variant result an inbound returns.

use vstd::prelude::*;

use crate::session::Session;

verus! {

/// The dial policy of an outbound handler: `NoConnect` asks the
/// framework to pass no pre-dialed upstream stream, because the handler
/// dials by itself.
#[derive(Clone, Copy, Debug, PartialEq, Eq, Structural)]
pub enum OutboundConnect {
    NoConnect,
}

/// What an inbound handler yields: a further-wrapped stream with its
/// session, a datagram channel with its session, or a producer of
/// further transports for carriers that multiplex many sessions over
/// one accepted socket.
pub enum InboundTransport<S, D, I> {
    Stream(S, Session),
    Datagram(D, Session),
    Incoming(I),
}

} // verus!
