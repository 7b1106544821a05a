//! The publishing role of publish/subscribe: sends whole messages.
use vstd::prelude::*;

use crate::readiness::{poll_spec, Interest, PollReady, ReadinessError, ReadinessMask, ReadinessModel};
use crate::sender::{close_spec, submit_spec, write_spec, DrivePoll, SendError, Sender, SenderModel, SenderState, WriteOutcome};
use crate::frame::{encode, payloads_view};
use crate::socket::{SocketError, SocketOptions, ZmqSocket};

verus! {

/// A publishing socket: a transport socket and the sender that drives
/// messages onto it, one at a time.
pub struct Publish {
    socket: ZmqSocket,
    sender: Sender,
}

impl View for Publish {
    type V = (SenderModel, ReadinessModel);

    closed spec fn view(&self) -> (SenderModel, ReadinessModel) {
        (self.sender@, self.socket@)
    }
}

impl Publish {
    /// The options this library has set on the socket.
    pub closed spec fn options(&self) -> SocketOptions {
        self.socket.options()
    }

    /// A publisher on `socket`, with nothing sent yet.
    pub fn new(socket: zmq::Socket) -> (r: Publish)
        ensures
            r@.0.well_formed(),
            r@.0.delivered.len() == 0,
            r@.0.in_flight is None,
            r@.0.state == SenderState::Open,
            r@.1 == (ReadinessModel { read_armed: false, write_armed: false, failed: false }),
            r.options() == SocketOptions::unset(),
    {
        Publish { socket: ZmqSocket::new(socket), sender: Sender::new() }
    }

    /// The transport socket, for calls this library does not make. Any
    /// option may be set through it, so the model forgets what was set.
    pub fn as_raw_socket(&mut self) -> (r: &zmq::Socket)
        ensures
            final(self)@ == old(self)@,
            final(self).options() == SocketOptions::unset(),
    {
        self.socket.as_socket()
    }

    /// Makes the socket a CURVE server, or not.
    pub fn set_curve_server(&mut self, enabled: bool) -> (r: Result<&mut Self, SocketError>)
        ensures
            r is Ok ==> (*r->Ok_0)@ == old(self)@ && (*r->Ok_0).options() == (SocketOptions { curve_server: Some(enabled), ..old(self).options() })
                && *final(self) == *final(r->Ok_0),
            r is Err ==> final(self)@ == old(self)@ && final(self).options() == old(self).options(),
    {
        match self.socket.set_curve_server(enabled) {
            Ok(()) => Ok(self),
            Err(e) => Err(e),
        }
    }

    /// Sets the socket's CURVE public key.
    pub fn set_curve_publickey(&mut self, key: &[u8]) -> (r: Result<&mut Self, SocketError>)
        ensures
            r is Ok ==> (*r->Ok_0)@ == old(self)@ && (*r->Ok_0).options() == (SocketOptions { curve_publickey: Some(key@), ..old(self).options() })
                && *final(self) == *final(r->Ok_0),
            r is Err ==> final(self)@ == old(self)@ && final(self).options() == old(self).options(),
    {
        match self.socket.set_curve_publickey(key) {
            Ok(()) => Ok(self),
            Err(e) => Err(e),
        }
    }

    /// Sets the socket's CURVE secret key.
    pub fn set_curve_secretkey(&mut self, key: &[u8]) -> (r: Result<&mut Self, SocketError>)
        ensures
            r is Ok ==> (*r->Ok_0)@ == old(self)@ && (*r->Ok_0).options() == (SocketOptions { curve_secretkey: Some(key@), ..old(self).options() })
                && *final(self) == *final(r->Ok_0),
            r is Err ==> final(self)@ == old(self)@ && final(self).options() == old(self).options(),
    {
        match self.socket.set_curve_secretkey(key) {
            Ok(()) => Ok(self),
            Err(e) => Err(e),
        }
    }

    /// Sets the CURVE public key of the server this socket connects to.
    pub fn set_curve_serverkey(&mut self, key: &[u8]) -> (r: Result<&mut Self, SocketError>)
        ensures
            r is Ok ==> (*r->Ok_0)@ == old(self)@ && (*r->Ok_0).options() == (SocketOptions { curve_serverkey: Some(key@), ..old(self).options() })
                && *final(self) == *final(r->Ok_0),
            r is Err ==> final(self)@ == old(self)@ && final(self).options() == old(self).options(),
    {
        match self.socket.set_curve_serverkey(key) {
            Ok(()) => Ok(self),
            Err(e) => Err(e),
        }
    }

    /// Sets the authentication domain.
    pub fn set_zap_domain(&mut self, domain: &str) -> (r: Result<&mut Self, SocketError>)
        ensures
            r is Ok ==> (*r->Ok_0)@ == old(self)@ && (*r->Ok_0).options() == (SocketOptions { zap_domain: Some(domain@), ..old(self).options() })
                && *final(self) == *final(r->Ok_0),
            r is Err ==> final(self)@ == old(self)@ && final(self).options() == old(self).options(),
    {
        match self.socket.set_zap_domain(domain) {
            Ok(()) => Ok(self),
            Err(e) => Err(e),
        }
    }

    /// Sets the send high-water mark: how many messages the transport
    /// queues for each peer before a write would block.
    pub fn set_send_hwm(&mut self, value: i32) -> (r: Result<&mut Self, SocketError>)
        ensures
            r is Ok ==> (*r->Ok_0)@ == old(self)@ && (*r->Ok_0).options() == (SocketOptions { send_hwm: Some(value), ..old(self).options() })
                && *final(self) == *final(r->Ok_0),
            r is Err ==> final(self)@ == old(self)@ && final(self).options() == old(self).options(),
    {
        match self.socket.set_send_hwm(value) {
            Ok(()) => Ok(self),
            Err(e) => Err(e),
        }
    }

    /// The send high-water mark.
    pub fn get_send_hwm(&self) -> (r: Result<i32, SocketError>)
        ensures
            r is Ok && self.options().send_hwm is Some ==> r->Ok_0 == self.options().send_hwm->Some_0,
    {
        self.socket.get_send_hwm()
    }

    /// Whether a new message can be taken: none is in flight.
    pub fn poll_ready(&self) -> (r: bool)
        ensures
            r == (self@.0.in_flight is None),
    {
        !self.sender.is_busy()
    }

    /// Takes `msg` as the message to send, as the sender's `submit` does.
    pub fn start_send(&mut self, msg: Vec<Vec<u8>>) -> (r: Result<(), SendError>)
        ensures
            final(self).options() == old(self).options(),
            old(self)@.0.well_formed(),
            (final(self)@.0, r) == submit_spec(old(self)@.0, payloads_view(msg@)),
            final(self)@.0.well_formed(),
            final(self)@.1 == old(self)@.1,
    {
        self.sender.submit(msg)
    }

    /// The frame to write now, as the sender's `next_frame` gives it.
    pub fn next_frame(&self) -> (r: Option<(&[u8], bool)>)
        ensures
            match self@.0.in_flight {
                Some((m, k)) => r is Some && (r->Some_0.0@, r->Some_0.1) == encode(m)[k as int],
                None => r is None,
            },
    {
        self.sender.next_frame()
    }

    /// Takes the outcome of one write, as the sender's `on_write` does.
    pub fn on_write(&mut self, outcome: WriteOutcome) -> (r: Result<DrivePoll, SendError>)
        ensures
            final(self).options() == old(self).options(),
            old(self)@.0.well_formed(),
            (final(self)@.0, r) == write_spec(old(self)@.0, outcome),
            final(self)@.0.well_formed(),
            final(self)@.1 == old(self)@.1,
    {
        self.sender.on_write(outcome)
    }

    /// Closes once nothing is in flight, as the sender's `close` does.
    pub fn close(&mut self) -> (r: bool)
        ensures
            final(self).options() == old(self).options(),
            old(self)@.0.well_formed(),
            (final(self)@.0, r) == close_spec(old(self)@.0),
            final(self)@.0.well_formed(),
            final(self)@.1 == old(self)@.1,
    {
        self.sender.close()
    }

    /// Where driving the outbound message stands: the sender's fatal
    /// error if it failed, else whether nothing is in flight any more.
    pub fn flush_status(&self) -> (r: Result<bool, SendError>)
        ensures
            self@.0.well_formed(),
            r == (if self@.0.state == SenderState::Failed {
                Err::<bool, SendError>(SendError::Poisoned)
            } else {
                Ok::<bool, SendError>(self@.0.in_flight is None)
            }),
    {
        self.sender.flush_status()
    }

    /// Decides whether the socket is writable, from the queried `mask`;
    /// once the sender failed, the transport is not consulted again.
    pub fn poll_writable(&mut self, mask: Result<ReadinessMask, i32>) -> (r: Result<PollReady, ReadinessError>)
        ensures
            final(self)@.0 == old(self)@.0,
            final(self).options() == old(self).options(),
            old(self)@.0.state == SenderState::Failed ==> r == Err::<PollReady, ReadinessError>(ReadinessError::Poisoned)
                && final(self)@.1 == old(self)@.1,
            old(self)@.0.state != SenderState::Failed ==> (final(self)@.1, r) == poll_spec(old(self)@.1, Interest::Writable, mask),
    {
        if self.sender.state() == SenderState::Failed {
            return Err(ReadinessError::Poisoned);
        }
        self.socket.poll(Interest::Writable, mask)
    }

    /// Records that the wake-up armed for writability fired.
    pub fn on_wake(&mut self)
        ensures
            final(self).options() == old(self).options(),
            final(self)@.0 == old(self)@.0,
            final(self)@.1 == old(self)@.1.with_armed(Interest::Writable, false),
    {
        self.socket.on_wake(Interest::Writable)
    }
}

} // verus!
