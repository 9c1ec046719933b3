//! The TLS inbound handler: it owns the certificate chain and private
//! key loaded at construction, immutable for the handler's lifetime.
//! The server-side handshake itself is performed by the unverified shell
//! on the material held here.

use vstd::prelude::*;

use crate::error::{ErrorKind, HandlerError};
use crate::pem::{load_certs, load_key, spec_load_certs, spec_load_key};

verus! {

/// A TLS server handler's material: the certificate chain, leaf first,
/// and the selected private key.
#[derive(Debug)]
pub struct Handler {
    pub chain: Vec<Vec<u8>>,
    pub key: Vec<u8>,
}

impl Handler {
    /// Builds the handler from the bytes of the certificate and key
    /// files; `cert_der` and `key_der` say whether each path carried the
    /// `der` extension.  Construction fails, and no handler exists, when
    /// either file's material cannot be loaded.
    pub fn new(cert_data: &Vec<u8>, cert_der: bool, key_data: &Vec<u8>, key_der: bool) -> (r:
        Result<Handler, HandlerError>)
        ensures
            match spec_load_certs(cert_data@, cert_der) {
                Err(m) => r matches Err(e) && e.kind == ErrorKind::InvalidInput && e.message@
                    == m,
                Ok(chain) => match spec_load_key(key_data@, key_der) {
                    Err(m) => r matches Err(e) && e.kind == ErrorKind::InvalidInput && e.message@
                        == m,
                    Ok(k) => r matches Ok(h) && h.chain.deep_view() == chain && h.key@ == k,
                },
            },
    {
        let chain = match load_certs(cert_data, cert_der) {
            Ok(c) => c,
            Err(e) => {
                return Err(e);
            },
        };
        let key = match load_key(key_data, key_der) {
            Ok(k) => k,
            Err(e) => {
                return Err(e);
            },
        };
        Ok(Handler { chain, key })
    }

    /// The loaded certificate chain, in file order.
    pub fn chain(&self) -> (r: &Vec<Vec<u8>>)
        ensures
            r == self.chain,
    {
        &self.chain
    }

    /// The selected private key.
    pub fn key(&self) -> (r: &Vec<u8>)
        ensures
            r == self.key,
    {
        &self.key
    }
}

} // verus!
