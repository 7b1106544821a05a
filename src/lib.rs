//! Asynchronous multipart messaging over a readiness-based transport.
//!
//! The library is written as step machines that never perform I/O
//! themselves: the caller performs each non-blocking transport operation
//! and hands the outcome back, and the machine decides what happens next.
pub mod curve;
pub mod frame;
pub mod laws;
pub mod pairing;
pub mod publish;
pub mod readiness;
pub mod receiver;
pub mod reply;
pub mod request;
pub mod sender;
pub mod sequencer;
pub mod socket;
pub mod subscribe;
pub mod transport;
