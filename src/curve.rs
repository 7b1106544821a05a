//! CURVE key pairs, in binary form.
use vstd::prelude::*;

use crate::socket::{option_result, SocketError};

verus! {

/// A CURVE key pair: a public key and a secret key of 32 bytes each.
pub struct CurveKeyPair {
    pub public_key: [u8; 32],
    pub secret_key: [u8; 32],
}

/// Relies on `zmq::CurveKeyPair::new`: a fresh key pair from libzmq's
/// generator, in binary form; nothing is known of the keys but their size.
#[verifier::external_body]
fn generate_key_pair() -> (r: Result<([u8; 32], [u8; 32]), zmq::Error>) {
    zmq::CurveKeyPair::new().map(|p| (p.public_key, p.secret_key))
}

impl CurveKeyPair {
    /// Generates a new key pair.
    pub fn new() -> (r: Result<CurveKeyPair, SocketError>)
        ensures
            r is Ok ==> r->Ok_0.public_key@.len() == 32 && r->Ok_0.secret_key@.len() == 32,
    {
        match option_result(generate_key_pair()) {
            Ok((public_key, secret_key)) => Ok(CurveKeyPair { public_key, secret_key }),
            Err(e) => Err(e),
        }
    }
}

} // verus!
