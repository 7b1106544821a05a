//! The outside transport's types, as this library carries them.
use vstd::prelude::*;

verus! {

/// A socket of the zmq crate, carried through as an opaque handle.
#[verifier::external_type_specification]
#[verifier::external_body]
pub struct ExSocket(zmq::Socket);

/// An error of the zmq crate, carried through as an opaque value.
#[verifier::external_type_specification]
#[verifier::external_body]
pub struct ExError(zmq::Error);

} // verus!
