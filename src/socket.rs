//! One transport socket together with its readiness adapter, and the
//! option calls every role shares.
use vstd::multiset::Multiset;
use vstd::prelude::*;

use crate::readiness::{poll_spec, Interest, PollReady, Readiness, ReadinessError, ReadinessMask, ReadinessModel};

verus! {

/// The transport refused an option call; this is its error.
#[derive(Clone, Copy, Debug, PartialEq, Eq)]
pub struct SocketError(pub zmq::Error);

/// Maps the transport's answer to an option call into this library's error.
pub fn option_result<T>(r: Result<T, zmq::Error>) -> (out: Result<T, SocketError>)
    ensures
        r is Ok <==> out is Ok,
        r is Ok ==> out->Ok_0 == r->Ok_0,
        r is Err ==> out->Err_0 == SocketError(r->Err_0),
{
    match r {
        Ok(v) => Ok(v),
        Err(e) => Err(SocketError(e)),
    }
}

/// The options this library has set on a socket, as the transport holds
/// them: `None` where the option was never set through the library.
pub struct SocketOptions {
    pub send_hwm: Option<i32>,
    pub receive_hwm: Option<i32>,
    pub curve_server: Option<bool>,
    pub curve_publickey: Option<Seq<u8>>,
    pub curve_secretkey: Option<Seq<u8>>,
    pub curve_serverkey: Option<Seq<u8>>,
    pub zap_domain: Option<Seq<char>>,
    /// The subscription prefixes, as many times as each was subscribed
    /// and not unsubscribed.
    pub subscriptions: Multiset<Seq<u8>>,
}

impl SocketOptions {
    /// A socket on which no option was set.
    pub open spec fn unset() -> SocketOptions {
        SocketOptions {
            send_hwm: None,
            receive_hwm: None,
            curve_server: None,
            curve_publickey: None,
            curve_secretkey: None,
            curve_serverkey: None,
            zap_domain: None,
            subscriptions: Multiset::empty(),
        }
    }
}

/// Relies on `zmq::Socket::set_subscribe`: sets `ZMQ_SUBSCRIBE` to `topic`.
#[verifier::external_body]
fn zmq_set_subscribe(s: &zmq::Socket, topic: &[u8]) -> Result<(), zmq::Error> {
    s.set_subscribe(topic)
}

/// Relies on `zmq::Socket::set_unsubscribe`: sets `ZMQ_UNSUBSCRIBE` to `topic`.
#[verifier::external_body]
fn zmq_set_unsubscribe(s: &zmq::Socket, topic: &[u8]) -> Result<(), zmq::Error> {
    s.set_unsubscribe(topic)
}

/// Relies on `zmq::Socket::set_curve_server`: sets `ZMQ_CURVE_SERVER`.
#[verifier::external_body]
fn zmq_set_curve_server(s: &zmq::Socket, enabled: bool) -> Result<(), zmq::Error> {
    s.set_curve_server(enabled)
}

/// Relies on `zmq::Socket::set_curve_publickey`: sets `ZMQ_CURVE_PUBLICKEY`.
#[verifier::external_body]
fn zmq_set_curve_publickey(s: &zmq::Socket, key: &[u8]) -> Result<(), zmq::Error> {
    s.set_curve_publickey(key)
}

/// Relies on `zmq::Socket::set_curve_secretkey`: sets `ZMQ_CURVE_SECRETKEY`.
#[verifier::external_body]
fn zmq_set_curve_secretkey(s: &zmq::Socket, key: &[u8]) -> Result<(), zmq::Error> {
    s.set_curve_secretkey(key)
}

/// Relies on `zmq::Socket::set_curve_serverkey`: sets `ZMQ_CURVE_SERVERKEY`.
#[verifier::external_body]
fn zmq_set_curve_serverkey(s: &zmq::Socket, key: &[u8]) -> Result<(), zmq::Error> {
    s.set_curve_serverkey(key)
}

/// Relies on `zmq::Socket::set_zap_domain`: sets `ZMQ_ZAP_DOMAIN`.
#[verifier::external_body]
fn zmq_set_zap_domain(s: &zmq::Socket, domain: &str) -> Result<(), zmq::Error> {
    s.set_zap_domain(domain)
}

/// Relies on `zmq::Socket::set_sndhwm`: sets `ZMQ_SNDHWM`.
#[verifier::external_body]
fn zmq_set_sndhwm(s: &zmq::Socket, value: i32) -> Result<(), zmq::Error> {
    s.set_sndhwm(value)
}

/// Relies on `zmq::Socket::set_rcvhwm`: sets `ZMQ_RCVHWM`.
#[verifier::external_body]
fn zmq_set_rcvhwm(s: &zmq::Socket, value: i32) -> Result<(), zmq::Error> {
    s.set_rcvhwm(value)
}

/// A transport socket, owned by exactly one readiness adapter, with the
/// options the library has set on it. The socket is released once, when
/// this value is dropped.
pub struct ZmqSocket {
    socket: zmq::Socket,
    readiness: Readiness,
    options: Ghost<SocketOptions>,
}

impl View for ZmqSocket {
    type V = ReadinessModel;

    closed spec fn view(&self) -> ReadinessModel {
        self.readiness@
    }
}

impl ZmqSocket {
    /// The options set through this value.
    pub closed spec fn options(&self) -> SocketOptions {
        self.options@
    }

    /// Wraps `socket`, with no wake-up armed and no option set.
    pub fn new(socket: zmq::Socket) -> (r: ZmqSocket)
        ensures
            r@ == (ReadinessModel { read_armed: false, write_armed: false, failed: false }),
            r.options() == SocketOptions::unset(),
    {
        ZmqSocket { socket, readiness: Readiness::new(), options: Ghost(SocketOptions::unset()) }
    }

    /// The transport socket, for calls this library does not make. Any
    /// option may be set through it, so the model forgets what was set.
    pub fn as_socket(&mut self) -> (r: &zmq::Socket)
        ensures
            final(self)@ == old(self)@,
            final(self).options() == SocketOptions::unset(),
    {
        self.options = Ghost(SocketOptions::unset());
        &self.socket
    }

    /// Decides a readiness poll for `i` from the queried `mask`.
    pub fn poll(&mut self, i: Interest, mask: Result<ReadinessMask, i32>) -> (r: Result<PollReady, ReadinessError>)
        ensures
            (final(self)@, r) == poll_spec(old(self)@, i, mask),
            final(self).options() == old(self).options(),
        no_unwind
    {
        self.readiness.poll(i, mask)
    }

    /// Records that the wake-up armed for `i` fired.
    pub fn on_wake(&mut self, i: Interest)
        ensures
            final(self)@ == old(self)@.with_armed(i, false),
            final(self).options() == old(self).options(),
        no_unwind
    {
        self.readiness.on_wake(i)
    }

    /// Subscribes to messages whose first frame starts with `topic`. On success the option holds what was handed over; on
    /// failure nothing changes and the transport's error is returned.
    pub fn set_subscribe(&mut self, topic: &[u8]) -> (r: Result<(), SocketError>)
        ensures
            final(self)@ == old(self)@,
            r is Ok ==> final(self).options() == (SocketOptions { subscriptions: old(self).options().subscriptions.insert(topic@), ..old(self).options() }),
            r is Err ==> final(self).options() == old(self).options(),
    {
        let res = option_result(zmq_set_subscribe(&self.socket, topic));
        if res.is_ok() {
            self.options = Ghost(SocketOptions { subscriptions: self.options@.subscriptions.insert(topic@), ..self.options@ });
        }
        res
    }

    /// Drops one subscription to `topic`. On success the option holds what was handed over; on
    /// failure nothing changes and the transport's error is returned.
    pub fn set_unsubscribe(&mut self, topic: &[u8]) -> (r: Result<(), SocketError>)
        ensures
            final(self)@ == old(self)@,
            r is Ok ==> final(self).options() == (SocketOptions { subscriptions: old(self).options().subscriptions.remove(topic@), ..old(self).options() }),
            r is Err ==> final(self).options() == old(self).options(),
    {
        let res = option_result(zmq_set_unsubscribe(&self.socket, topic));
        if res.is_ok() {
            self.options = Ghost(SocketOptions { subscriptions: self.options@.subscriptions.remove(topic@), ..self.options@ });
        }
        res
    }

    /// Makes the socket a CURVE server, or not. On success the option holds what was handed over; on
    /// failure nothing changes and the transport's error is returned.
    pub fn set_curve_server(&mut self, enabled: bool) -> (r: Result<(), SocketError>)
        ensures
            final(self)@ == old(self)@,
            r is Ok ==> final(self).options() == (SocketOptions { curve_server: Some(enabled), ..old(self).options() }),
            r is Err ==> final(self).options() == old(self).options(),
    {
        let res = option_result(zmq_set_curve_server(&self.socket, enabled));
        if res.is_ok() {
            self.options = Ghost(SocketOptions { curve_server: Some(enabled), ..self.options@ });
        }
        res
    }

    /// Sets the socket's CURVE public key. On success the option holds what was handed over; on
    /// failure nothing changes and the transport's error is returned.
    pub fn set_curve_publickey(&mut self, key: &[u8]) -> (r: Result<(), SocketError>)
        ensures
            final(self)@ == old(self)@,
            r is Ok ==> final(self).options() == (SocketOptions { curve_publickey: Some(key@), ..old(self).options() }),
            r is Err ==> final(self).options() == old(self).options(),
    {
        let res = option_result(zmq_set_curve_publickey(&self.socket, key));
        if res.is_ok() {
            self.options = Ghost(SocketOptions { curve_publickey: Some(key@), ..self.options@ });
        }
        res
    }

    /// Sets the socket's CURVE secret key. On success the option holds what was handed over; on
    /// failure nothing changes and the transport's error is returned.
    pub fn set_curve_secretkey(&mut self, key: &[u8]) -> (r: Result<(), SocketError>)
        ensures
            final(self)@ == old(self)@,
            r is Ok ==> final(self).options() == (SocketOptions { curve_secretkey: Some(key@), ..old(self).options() }),
            r is Err ==> final(self).options() == old(self).options(),
    {
        let res = option_result(zmq_set_curve_secretkey(&self.socket, key));
        if res.is_ok() {
            self.options = Ghost(SocketOptions { curve_secretkey: Some(key@), ..self.options@ });
        }
        res
    }

    /// Sets the CURVE public key of the server this socket connects to. On success the option holds what was handed over; on
    /// failure nothing changes and the transport's error is returned.
    pub fn set_curve_serverkey(&mut self, key: &[u8]) -> (r: Result<(), SocketError>)
        ensures
            final(self)@ == old(self)@,
            r is Ok ==> final(self).options() == (SocketOptions { curve_serverkey: Some(key@), ..old(self).options() }),
            r is Err ==> final(self).options() == old(self).options(),
    {
        let res = option_result(zmq_set_curve_serverkey(&self.socket, key));
        if res.is_ok() {
            self.options = Ghost(SocketOptions { curve_serverkey: Some(key@), ..self.options@ });
        }
        res
    }

    /// Sets the authentication domain. On success the option holds what was handed over; on
    /// failure nothing changes and the transport's error is returned.
    pub fn set_zap_domain(&mut self, domain: &str) -> (r: Result<(), SocketError>)
        ensures
            final(self)@ == old(self)@,
            r is Ok ==> final(self).options() == (SocketOptions { zap_domain: Some(domain@), ..old(self).options() }),
            r is Err ==> final(self).options() == old(self).options(),
    {
        let res = option_result(zmq_set_zap_domain(&self.socket, domain));
        if res.is_ok() {
            self.options = Ghost(SocketOptions { zap_domain: Some(domain@), ..self.options@ });
        }
        res
    }

    /// Sets the send high-water mark. On success the option holds what was handed over; on
    /// failure nothing changes and the transport's error is returned.
    pub fn set_send_hwm(&mut self, value: i32) -> (r: Result<(), SocketError>)
        ensures
            final(self)@ == old(self)@,
            r is Ok ==> final(self).options() == (SocketOptions { send_hwm: Some(value), ..old(self).options() }),
            r is Err ==> final(self).options() == old(self).options(),
    {
        let res = option_result(zmq_set_sndhwm(&self.socket, value));
        if res.is_ok() {
            self.options = Ghost(SocketOptions { send_hwm: Some(value), ..self.options@ });
        }
        res
    }

    /// Sets the receive high-water mark. On success the option holds what was handed over; on
    /// failure nothing changes and the transport's error is returned.
    pub fn set_receive_hwm(&mut self, value: i32) -> (r: Result<(), SocketError>)
        ensures
            final(self)@ == old(self)@,
            r is Ok ==> final(self).options() == (SocketOptions { receive_hwm: Some(value), ..old(self).options() }),
            r is Err ==> final(self).options() == old(self).options(),
    {
        let res = option_result(zmq_set_rcvhwm(&self.socket, value));
        if res.is_ok() {
            self.options = Ghost(SocketOptions { receive_hwm: Some(value), ..self.options@ });
        }
        res
    }

    /// Relies on `zmq::Socket::get_sndhwm`: reads `ZMQ_SNDHWM`, which libzmq
    /// returns as last set. Every set reaches the socket through this value
    /// or through `as_socket`, which forgets the model, so a recorded value
    /// is the one last set.
    #[verifier::external_body]
    pub fn get_send_hwm(&self) -> (r: Result<i32, SocketError>)
        ensures
            r is Ok && self.options().send_hwm is Some ==> r->Ok_0 == self.options().send_hwm->Some_0,
    {
        self.socket.get_sndhwm().map_err(SocketError)
    }

    /// Relies on `zmq::Socket::get_rcvhwm`: reads `ZMQ_RCVHWM`, which libzmq
    /// returns as last set. Every set reaches the socket through this value
    /// or through `as_socket`, which forgets the model, so a recorded value
    /// is the one last set.
    #[verifier::external_body]
    pub fn get_receive_hwm(&self) -> (r: Result<i32, SocketError>)
        ensures
            r is Ok && self.options().receive_hwm is Some ==> r->Ok_0 == self.options().receive_hwm->Some_0,
    {
        self.socket.get_rcvhwm().map_err(SocketError)
    }
}

} // verus!
