//! The drop handler: the null sink an outbound table routes a flow to in
//! order to discard it.  It is a first-class handler that always fails
//! with the same sentinel error, keeping the dispatch fabric uniform.

use vstd::prelude::*;

use crate::error::{ErrorKind, HandlerError};
use crate::proxy::OutboundConnect;
use crate::session::Session;

verus! {

/// The drop handler.
pub struct Handler;

impl Handler {
    /// The framework pre-dials for this handler (the dial is wasted; the
    /// flow is dropped on `handle`).
    pub fn connect_addr(&self) -> (r: Option<OutboundConnect>)
        ensures
            r is None,
    {
        None
    }

    /// Always discards the flow: every session fails with the sentinel
    /// `Protocol("dropped")`, and the framework aborts the flow without
    /// retrying.
    pub fn handle<S>(&self, sess: &Session, stream: Option<S>) -> (r: Result<S, HandlerError>)
        ensures
            r matches Err(e) && e.kind == ErrorKind::Protocol && e.message@ == "dropped"@,
    {
        let _ = sess;
        let _ = stream;
        Err(HandlerError::new(ErrorKind::Protocol, "dropped".to_owned()))
    }
}

} // verus!
