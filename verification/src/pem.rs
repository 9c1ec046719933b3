//! Certificate and key material loading.
//!
//! A certificate file is either a single DER-encoded certificate (when its
//! path carries the `der` extension) or a PEM file whose `CERTIFICATE`
//! sections form the chain, in file order.  A key file is either a raw DER
//! PKCS#8 key, or a PEM file searched for PKCS#8 keys first and PKCS#1/RSA
//! keys second; the first key found wins.

use vstd::prelude::*;

use crate::error::{ErrorKind, HandlerError};

verus! {

/// The DER contents of the `CERTIFICATE` sections of a PEM buffer, in
/// file order, or nothing when the buffer is not well-formed PEM.
pub uninterp spec fn pem_certificates(data: Seq<u8>) -> Option<Seq<Seq<u8>>>;

/// The DER contents of the PKCS#8 `PRIVATE KEY` sections of a PEM
/// buffer, in file order, or nothing when the buffer is not well-formed.
pub uninterp spec fn pem_pkcs8_keys(data: Seq<u8>) -> Option<Seq<Seq<u8>>>;

/// The DER contents of the PKCS#1 `RSA PRIVATE KEY` sections of a PEM
/// buffer, in file order, or nothing when the buffer is not well-formed.
pub uninterp spec fn pem_rsa_keys(data: Seq<u8>) -> Option<Seq<Seq<u8>>>;

/// Relies on rustls_pemfile::certs: it extracts the DER contents of the
/// CERTIFICATE sections of the buffer, in order, failing only on
/// malformed PEM framing; the result is a function of the bytes alone.
#[verifier::external_body]
fn parse_pem_certificates(data: &[u8]) -> (r: Option<Vec<Vec<u8>>>)
    ensures
        r is Some <==> pem_certificates(data@) is Some,
        r matches Some(v) ==> Some(v.deep_view()) == pem_certificates(data@),
{
    rustls_pemfile::certs(&mut &*data).ok()
}

/// Relies on rustls_pemfile::pkcs8_private_keys: it extracts the DER
/// contents of the PKCS#8 PRIVATE KEY sections of the buffer, in order,
/// failing only on malformed PEM framing; the result is a function of
/// the bytes alone.
#[verifier::external_body]
fn parse_pem_pkcs8_keys(data: &[u8]) -> (r: Option<Vec<Vec<u8>>>)
    ensures
        r is Some <==> pem_pkcs8_keys(data@) is Some,
        r matches Some(v) ==> Some(v.deep_view()) == pem_pkcs8_keys(data@),
{
    rustls_pemfile::pkcs8_private_keys(&mut &*data).ok()
}

/// Relies on rustls_pemfile::rsa_private_keys: it extracts the DER
/// contents of the RSA PRIVATE KEY sections of the buffer, in order,
/// failing only on malformed PEM framing; the result is a function of
/// the bytes alone.
#[verifier::external_body]
fn parse_pem_rsa_keys(data: &[u8]) -> (r: Option<Vec<Vec<u8>>>)
    ensures
        r is Some <==> pem_rsa_keys(data@) is Some,
        r matches Some(v) ==> Some(v.deep_view()) == pem_rsa_keys(data@),
{
    rustls_pemfile::rsa_private_keys(&mut &*data).ok()
}

/// Whether a file path indicates raw DER contents: it ends in the
/// `.der` extension with a nonempty stem before it.
pub open spec fn spec_has_der_extension(s: Seq<char>) -> bool {
    &&& s.len() >= 5
    &&& s[s.len() - 4] == '.'
    &&& s[s.len() - 3] == 'd'
    &&& s[s.len() - 2] == 'e'
    &&& s[s.len() - 1] == 'r'
    &&& s[s.len() - 5] != '/'
}

/// Tests whether a file path carries the `der` extension.
pub fn has_der_extension(path: &str) -> (r: bool)
    ensures
        r == spec_has_der_extension(path@),
{
    let n = path.unicode_len();
    if n < 5 {
        return false;
    }
    path.get_char(n - 4) == '.' && path.get_char(n - 3) == 'd' && path.get_char(n - 2) == 'e'
        && path.get_char(n - 1) == 'r' && path.get_char(n - 5) != '/'
}

/// What loading a certificate chain yields: the chain, or the message of
/// the `InvalidInput` failure.
pub open spec fn spec_load_certs(data: Seq<u8>, der_form: bool) -> Result<Seq<Seq<u8>>, Seq<char>> {
    if der_form {
        Ok(seq![data])
    } else {
        match pem_certificates(data) {
            Some(chain) => Ok(chain),
            None => Err("invalid cert"@),
        }
    }
}

/// What selecting a private key yields: the key, or the message of the
/// `InvalidInput` failure.
pub open spec fn spec_load_key(data: Seq<u8>, der_form: bool) -> Result<Seq<u8>, Seq<char>> {
    if der_form {
        Ok(data)
    } else {
        match pem_pkcs8_keys(data) {
            None => Err("invalid key"@),
            Some(p8) => if p8.len() > 0 {
                Ok(p8[0])
            } else {
                match pem_rsa_keys(data) {
                    None => Err("invalid key"@),
                    Some(rsa) => if rsa.len() > 0 {
                        Ok(rsa[0])
                    } else {
                        Err("malformed key"@)
                    },
                }
            },
        }
    }
}

/// Loads a certificate chain from the bytes of a certificate file.
///
/// In DER form the whole file is one certificate and the chain has that
/// single entry; otherwise every `CERTIFICATE` section of the PEM file
/// becomes one entry, in file order.
pub fn load_certs(data: &Vec<u8>, der_form: bool) -> (r: Result<Vec<Vec<u8>>, HandlerError>)
    ensures
        match spec_load_certs(data@, der_form) {
            Ok(chain) => r matches Ok(c) && c.deep_view() == chain,
            Err(m) => r matches Err(e) && e.kind == ErrorKind::InvalidInput && e.message@ == m,
        },
{
    if der_form {
        let mut chain: Vec<Vec<u8>> = Vec::new();
        chain.push(vstd::slice::slice_to_vec(data.as_slice()));
        assert(chain.deep_view() =~~= seq![data@]);
        Ok(chain)
    } else {
        match parse_pem_certificates(data.as_slice()) {
            Some(chain) => Ok(chain),
            None => Err(
                HandlerError::new(ErrorKind::InvalidInput, "invalid cert".to_owned()),
            ),
        }
    }
}

/// Loads every private key found in the bytes of a PEM key file: the
/// PKCS#8 keys first, then the PKCS#1/RSA keys, each set in file order.
pub fn load_keys(data: &Vec<u8>) -> (r: Result<Vec<Vec<u8>>, HandlerError>)
    ensures
        match (pem_pkcs8_keys(data@), pem_rsa_keys(data@)) {
            (Some(p8), Some(rsa)) => r matches Ok(keys) && keys.deep_view() == p8 + rsa,
            _ => r matches Err(e) && e.kind == ErrorKind::InvalidInput && e.message@
                == "invalid key"@,
        },
{
    let p8 = parse_pem_pkcs8_keys(data.as_slice());
    let rsa = parse_pem_rsa_keys(data.as_slice());
    match (p8, rsa) {
        (Some(mut keys), Some(mut rsa_keys)) => {
            keys.append(&mut rsa_keys);
            assert(keys.deep_view() =~= pem_pkcs8_keys(data@).unwrap() + pem_rsa_keys(
                data@,
            ).unwrap());
            Ok(keys)
        },
        _ => Err(HandlerError::new(ErrorKind::InvalidInput, "invalid key".to_owned())),
    }
}

/// Selects the private key of a key file per the loader's preference
/// order.
///
/// In DER form the whole file is the key.  Otherwise the first PKCS#8
/// key is selected; when no PKCS#8 key is present, the first PKCS#1/RSA
/// key; when neither parser yields a key, loading fails with
/// `InvalidInput("malformed key")`, and a PEM framing error in either
/// parse fails with `InvalidInput("invalid key")`.
pub fn load_key(data: &Vec<u8>, der_form: bool) -> (r: Result<Vec<u8>, HandlerError>)
    ensures
        match spec_load_key(data@, der_form) {
            Ok(key) => r matches Ok(k) && k@ == key,
            Err(m) => r matches Err(e) && e.kind == ErrorKind::InvalidInput && e.message@ == m,
        },
{
    if der_form {
        return Ok(vstd::slice::slice_to_vec(data.as_slice()));
    }
    match parse_pem_pkcs8_keys(data.as_slice()) {
        None => Err(HandlerError::new(ErrorKind::InvalidInput, "invalid key".to_owned())),
        Some(mut p8) => {
            if p8.len() > 0 {
                let k = p8.remove(0);
                assert(k@ == pem_pkcs8_keys(data@).unwrap()[0]);
                Ok(k)
            } else {
                match parse_pem_rsa_keys(data.as_slice()) {
                    None => Err(
                        HandlerError::new(ErrorKind::InvalidInput, "invalid key".to_owned()),
                    ),
                    Some(mut rsa) => {
                        if rsa.len() > 0 {
                            let k = rsa.remove(0);
                            assert(k@ == pem_rsa_keys(data@).unwrap()[0]);
                            Ok(k)
                        } else {
                            Err(
                                HandlerError::new(
                                    ErrorKind::InvalidInput,
                                    "malformed key".to_owned(),
                                ),
                            )
                        }
                    },
                }
            }
        },
    }
}

} // verus!
