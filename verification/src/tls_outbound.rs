//! The TLS outbound handler: the trust material and ALPN list assembled
//! at construction, and the per-connection decisions of `handle` — which
//! name goes into SNI, whether that name is acceptable, and whether an
//! upstream stream was supplied.  The handshake itself is performed by
//! the unverified shell.

use vstd::prelude::*;

use crate::error::{ErrorKind, HandlerError};
use crate::pem::{load_certs, pem_certificates};
use crate::session::Session;

verus! {

#[verifier::external_type_specification]
#[verifier::external_body]
pub struct ExServerName(rustls::ServerName);

/// Whether rustls accepts `name` as a server name: a syntactically
/// valid DNS name or an IP address literal.
pub uninterp spec fn server_name_ok(name: Seq<char>) -> bool;

/// Relies on rustls::ServerName::try_from(&str): it accepts exactly the
/// syntactically valid DNS names and IP address literals, a function of
/// the characters alone.
#[verifier::external_body]
fn parse_server_name(name: &str) -> (r: Option<rustls::ServerName>)
    ensures
        r is Some <==> server_name_ok(name@),
{
    rustls::ServerName::try_from(name).ok()
}

/// A TLS client handler: the name expected from the server, the ALPN
/// protocols to advertise in order, and the certificates added to the
/// bundled trust anchors.  Immutable once constructed.
pub struct Handler {
    pub server_name: String,
    pub alpns: Vec<String>,
    pub extra_roots: Vec<Vec<u8>>,
}

impl Handler {
    /// Builds the handler.  When a supplemental trust certificate file's
    /// bytes are given they are parsed as PEM and every certificate
    /// joins the trust store; the ALPN list is kept verbatim, in order.
    pub fn new(server_name: String, alpns: Vec<String>, certificate: Option<Vec<u8>>) -> (r:
        Result<Handler, HandlerError>)
        ensures
            match certificate {
                None => r matches Ok(h) && h.server_name@ == server_name@ && h.alpns == alpns
                    && h.extra_roots@.len() == 0,
                Some(data) => match pem_certificates(data@) {
                    Some(chain) => r matches Ok(h) && h.server_name@ == server_name@ && h.alpns
                        == alpns && h.extra_roots.deep_view() == chain,
                    None => r matches Err(e) && e.kind == ErrorKind::InvalidInput && e.message@
                        == "invalid cert"@,
                },
            },
    {
        let extra_roots = match certificate {
            None => Vec::new(),
            Some(data) => match load_certs(&data, false) {
                Ok(c) => c,
                Err(e) => {
                    return Err(e);
                },
            },
        };
        Ok(Handler { server_name, alpns, extra_roots })
    }

    /// The framework pre-dials the session destination for this handler.
    pub fn connect_addr(&self) -> (r: Option<crate::proxy::OutboundConnect>)
        ensures
            r is None,
    {
        None
    }

    /// The name handed to the handshake: the configured server name, or
    /// the session destination's host when none is configured.
    pub fn sni_name(&self, sess: &Session) -> (r: String)
        ensures
            r@ == if self.server_name@.len() > 0 {
                self.server_name@
            } else {
                sess.destination.spec_host()
            },
    {
        if !self.server_name.as_str().is_empty() {
            self.server_name.clone()
        } else {
            sess.destination.host()
        }
    }

    /// The decisions of `handle` before the handshake: an upstream
    /// stream must have been supplied, and the SNI name must be
    /// acceptable; the accepted name and the stream are handed on to the
    /// handshake.
    pub fn prepare_connect<S>(&self, sess: &Session, stream: Option<S>) -> (r: Result<
        (rustls::ServerName, S),
        HandlerError,
    >)
        ensures
            ({
                let name = if self.server_name@.len() > 0 {
                    self.server_name@
                } else {
                    sess.destination.spec_host()
                };
                &&& (stream is None ==> (r matches Err(e) && e.kind == ErrorKind::InvalidInput
                    && e.message@ == "invalid tls input"@))
                &&& (stream is Some && !server_name_ok(name) ==> (r matches Err(e) && e.kind
                    == ErrorKind::InvalidInput && e.message@ == "invalid dnsname"@))
                &&& (stream is Some && server_name_ok(name) ==> (r matches Ok(p) && stream
                    == Some(p.1)))
            }),
    {
        let name = self.sni_name(sess);
        match stream {
            Some(s) => {
                match parse_server_name(name.as_str()) {
                    Some(domain) => Ok((domain, s)),
                    None => Err(
                        HandlerError::new(ErrorKind::InvalidInput, "invalid dnsname".to_owned()),
                    ),
                }
            },
            None => Err(HandlerError::new(ErrorKind::InvalidInput, "invalid tls input".to_owned())),
        }
    }
}

} // verus!
