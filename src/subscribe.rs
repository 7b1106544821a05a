//! The subscribing role of publish/subscribe: receives whole messages.
use vstd::prelude::*;
use vstd::string::StringSliceAdditionalSpecFns;

use crate::readiness::{poll_spec, Interest, PollReady, ReadinessError, ReadinessMask, ReadinessModel};
use crate::receiver::{recv_spec, Receiver, ReceiverModel, RecvError, RecvOutcome, RecvPoll, LinkState};
use crate::socket::{SocketError, SocketOptions, ZmqSocket};

verus! {

/// A subscribing socket: a transport socket and the receiver that
/// assembles what arrives on it.
pub struct Subscribe {
    socket: ZmqSocket,
    receiver: Receiver,
}

impl View for Subscribe {
    type V = (ReceiverModel, ReadinessModel);

    closed spec fn view(&self) -> (ReceiverModel, ReadinessModel) {
        (self.receiver@, self.socket@)
    }
}

impl Subscribe {
    /// The options this library has set on the socket.
    pub closed spec fn options(&self) -> SocketOptions {
        self.socket.options()
    }

    /// A subscriber on `socket`, with nothing received yet.
    pub fn new(socket: zmq::Socket) -> (r: Subscribe)
        ensures
            r@.0.partial.len() == 0,
            r@.0.link == LinkState::Open,
            r@.0.well_formed(),
            r@.0.frames.len() == 0,
            r@.0.delivered.len() == 0,
            r@.1 == (ReadinessModel { read_armed: false, write_armed: false, failed: false }),
            r.options() == SocketOptions::unset(),
    {
        Subscribe { socket: ZmqSocket::new(socket), receiver: Receiver::new() }
    }

    /// Subscribes to messages whose first frame starts with `topic`.
    pub fn set_subscribe(&mut self, topic: &str) -> (r: Result<&mut Self, SocketError>)
        ensures
            r is Ok ==> (*r->Ok_0)@ == old(self)@ && (*r->Ok_0).options() == (SocketOptions { subscriptions: old(self).options().subscriptions.insert(topic.spec_bytes()), ..old(self).options() })
                && *final(self) == *final(r->Ok_0),
            r is Err ==> final(self)@ == old(self)@ && final(self).options() == old(self).options(),
    {
        match self.socket.set_subscribe(topic.as_bytes()) {
            Ok(()) => Ok(self),
            Err(e) => Err(e),
        }
    }

    /// Removes a subscription made with `set_subscribe`.
    pub fn set_unsubscribe(&mut self, topic: &str) -> (r: Result<&mut Self, SocketError>)
        ensures
            r is Ok ==> (*r->Ok_0)@ == old(self)@ && (*r->Ok_0).options() == (SocketOptions { subscriptions: old(self).options().subscriptions.remove(topic.spec_bytes()), ..old(self).options() })
                && *final(self) == *final(r->Ok_0),
            r is Err ==> final(self)@ == old(self)@ && final(self).options() == old(self).options(),
    {
        match self.socket.set_unsubscribe(topic.as_bytes()) {
            Ok(()) => Ok(self),
            Err(e) => Err(e),
        }
    }

    /// The transport socket, for calls this library does not make. Any
    /// option may be set through it, so the model forgets what was set.
    pub fn as_raw_socket(&mut self) -> (r: &zmq::Socket)
        ensures
            final(self)@ == old(self)@,
            final(self).options() == SocketOptions::unset(),
    {
        self.socket.as_socket()
    }

    /// Makes the socket a CURVE server, or not.
    pub fn set_curve_server(&mut self, enabled: bool) -> (r: Result<&mut Self, SocketError>)
        ensures
            r is Ok ==> (*r->Ok_0)@ == old(self)@ && (*r->Ok_0).options() == (SocketOptions { curve_server: Some(enabled), ..old(self).options() })
                && *final(self) == *final(r->Ok_0),
            r is Err ==> final(self)@ == old(self)@ && final(self).options() == old(self).options(),
    {
        match self.socket.set_curve_server(enabled) {
            Ok(()) => Ok(self),
            Err(e) => Err(e),
        }
    }

    /// Sets the socket's CURVE public key.
    pub fn set_curve_publickey(&mut self, key: &[u8]) -> (r: Result<&mut Self, SocketError>)
        ensures
            r is Ok ==> (*r->Ok_0)@ == old(self)@ && (*r->Ok_0).options() == (SocketOptions { curve_publickey: Some(key@), ..old(self).options() })
                && *final(self) == *final(r->Ok_0),
            r is Err ==> final(self)@ == old(self)@ && final(self).options() == old(self).options(),
    {
        match self.socket.set_curve_publickey(key) {
            Ok(()) => Ok(self),
            Err(e) => Err(e),
        }
    }

    /// Sets the socket's CURVE secret key.
    pub fn set_curve_secretkey(&mut self, key: &[u8]) -> (r: Result<&mut Self, SocketError>)
        ensures
            r is Ok ==> (*r->Ok_0)@ == old(self)@ && (*r->Ok_0).options() == (SocketOptions { curve_secretkey: Some(key@), ..old(self).options() })
                && *final(self) == *final(r->Ok_0),
            r is Err ==> final(self)@ == old(self)@ && final(self).options() == old(self).options(),
    {
        match self.socket.set_curve_secretkey(key) {
            Ok(()) => Ok(self),
            Err(e) => Err(e),
        }
    }

    /// Sets the CURVE public key of the server this socket connects to.
    pub fn set_curve_serverkey(&mut self, key: &[u8]) -> (r: Result<&mut Self, SocketError>)
        ensures
            r is Ok ==> (*r->Ok_0)@ == old(self)@ && (*r->Ok_0).options() == (SocketOptions { curve_serverkey: Some(key@), ..old(self).options() })
                && *final(self) == *final(r->Ok_0),
            r is Err ==> final(self)@ == old(self)@ && final(self).options() == old(self).options(),
    {
        match self.socket.set_curve_serverkey(key) {
            Ok(()) => Ok(self),
            Err(e) => Err(e),
        }
    }

    /// Sets the authentication domain.
    pub fn set_zap_domain(&mut self, domain: &str) -> (r: Result<&mut Self, SocketError>)
        ensures
            r is Ok ==> (*r->Ok_0)@ == old(self)@ && (*r->Ok_0).options() == (SocketOptions { zap_domain: Some(domain@), ..old(self).options() })
                && *final(self) == *final(r->Ok_0),
            r is Err ==> final(self)@ == old(self)@ && final(self).options() == old(self).options(),
    {
        match self.socket.set_zap_domain(domain) {
            Ok(()) => Ok(self),
            Err(e) => Err(e),
        }
    }

    /// Sets the receive high-water mark: how many messages the transport
    /// queues for this socket before it stops taking more.
    pub fn set_receive_hwm(&mut self, value: i32) -> (r: Result<&mut Self, SocketError>)
        ensures
            r is Ok ==> (*r->Ok_0)@ == old(self)@ && (*r->Ok_0).options() == (SocketOptions { receive_hwm: Some(value), ..old(self).options() })
                && *final(self) == *final(r->Ok_0),
            r is Err ==> final(self)@ == old(self)@ && final(self).options() == old(self).options(),
    {
        match self.socket.set_receive_hwm(value) {
            Ok(()) => Ok(self),
            Err(e) => Err(e),
        }
    }

    /// The receive high-water mark.
    pub fn get_receive_hwm(&self) -> (r: Result<i32, SocketError>)
        ensures
            r is Ok && self.options().receive_hwm is Some ==> r->Ok_0 == self.options().receive_hwm->Some_0,
    {
        self.socket.get_receive_hwm()
    }

    /// The state of the receiver's link.
    pub fn link(&self) -> (r: LinkState)
        ensures
            r == self@.0.link,
    {
        self.receiver.link()
    }

    /// Decides whether the socket is readable, from the queried `mask`;
    /// once the receiver failed, the transport is not consulted again.
    pub fn poll_readable(&mut self, mask: Result<ReadinessMask, i32>) -> (r: Result<PollReady, ReadinessError>)
        ensures
            final(self)@.0 == old(self)@.0,
            final(self).options() == old(self).options(),
            old(self)@.0.link == LinkState::Failed ==> r == Err::<PollReady, ReadinessError>(ReadinessError::Poisoned)
                && final(self)@.1 == old(self)@.1,
            old(self)@.0.link != LinkState::Failed ==> (final(self)@.1, r) == poll_spec(old(self)@.1, Interest::Readable, mask),
    {
        if self.receiver.link() == LinkState::Failed {
            return Err(ReadinessError::Poisoned);
        }
        self.socket.poll(Interest::Readable, mask)
    }

    /// Records that the wake-up armed for readability fired.
    pub fn on_wake(&mut self)
        ensures
            final(self).options() == old(self).options(),
            final(self)@.0 == old(self)@.0,
            final(self)@.1 == old(self)@.1.with_armed(Interest::Readable, false),
    {
        self.socket.on_wake(Interest::Readable)
    }

    /// Takes the outcome of one receive, as the receiver's `on_recv` does.
    pub fn on_recv(&mut self, outcome: RecvOutcome) -> (r: Result<RecvPoll, RecvError>)
        ensures
            final(self).options() == old(self).options(),
            recv_spec(old(self)@.0, outcome, final(self)@.0, r),
            final(self)@.1 == old(self)@.1,
    {
        self.receiver.on_recv(outcome)
    }
}

} // verus!
