//! The replying role of request/reply: receives a request, then sends its reply.
use vstd::prelude::*;

use crate::frame::{encode, payloads_view};
use crate::pairing::{initial_turn, Pairing, PairingModel, RequestReplyError, Role, Turn};
use crate::readiness::{poll_spec, Interest, PollReady, ReadinessError, ReadinessMask, ReadinessModel};
use crate::receiver::{recv_spec, LinkState, RecvOutcome, RecvPoll};
use crate::sender::{submit_spec, write_spec, DrivePoll, SendError, SenderState, WriteOutcome};
use crate::socket::{SocketError, SocketOptions, ZmqSocket};

verus! {

/// A replying socket: receives first, then sends, strictly in turn.
pub struct Reply {
    socket: ZmqSocket,
    pairing: Pairing,
}

impl View for Reply {
    type V = (PairingModel, ReadinessModel);

    closed spec fn view(&self) -> (PairingModel, ReadinessModel) {
        (self.pairing@, self.socket@)
    }
}

impl Reply {
    /// The options this library has set on the socket.
    pub closed spec fn options(&self) -> SocketOptions {
        self.socket.options()
    }

    /// A reply socket on `socket`, in its first turn.
    pub fn new(socket: zmq::Socket) -> (r: Reply)
        ensures
            r@.0.role == Role::Responder,
            r@.0.turn == initial_turn(Role::Responder),
            r@.0.sender.well_formed(),
            r@.0.sender.in_flight is None,
            r@.0.sender.delivered.len() == 0,
            r@.0.sender.state == SenderState::Open,
            r@.0.receiver.partial.len() == 0,
            r@.0.receiver.link == LinkState::Open,
            r@.0.receiver.well_formed(),
            r@.0.receiver.frames.len() == 0,
            r@.0.receiver.delivered.len() == 0,
            r@.1 == (ReadinessModel { read_armed: false, write_armed: false, failed: false }),
            r.options() == SocketOptions::unset(),
    {
        Reply { socket: ZmqSocket::new(socket), pairing: Pairing::new(Role::Responder) }
    }

    /// The transport socket, for calls this library does not make. Any
    /// option may be set through it, so the model forgets what was set.
    pub fn as_raw_socket(&mut self) -> (r: &zmq::Socket)
        ensures
            final(self)@ == old(self)@,
            final(self).options() == SocketOptions::unset(),
    {
        self.socket.as_socket()
    }

    /// Makes the socket a CURVE server, or not.
    pub fn set_curve_server(&mut self, enabled: bool) -> (r: Result<&mut Self, SocketError>)
        ensures
            r is Ok ==> (*r->Ok_0)@ == old(self)@ && (*r->Ok_0).options() == (SocketOptions { curve_server: Some(enabled), ..old(self).options() })
                && *final(self) == *final(r->Ok_0),
            r is Err ==> final(self)@ == old(self)@ && final(self).options() == old(self).options(),
    {
        match self.socket.set_curve_server(enabled) {
            Ok(()) => Ok(self),
            Err(e) => Err(e),
        }
    }

    /// Sets the socket's CURVE public key.
    pub fn set_curve_publickey(&mut self, key: &[u8]) -> (r: Result<&mut Self, SocketError>)
        ensures
            r is Ok ==> (*r->Ok_0)@ == old(self)@ && (*r->Ok_0).options() == (SocketOptions { curve_publickey: Some(key@), ..old(self).options() })
                && *final(self) == *final(r->Ok_0),
            r is Err ==> final(self)@ == old(self)@ && final(self).options() == old(self).options(),
    {
        match self.socket.set_curve_publickey(key) {
            Ok(()) => Ok(self),
            Err(e) => Err(e),
        }
    }

    /// Sets the socket's CURVE secret key.
    pub fn set_curve_secretkey(&mut self, key: &[u8]) -> (r: Result<&mut Self, SocketError>)
        ensures
            r is Ok ==> (*r->Ok_0)@ == old(self)@ && (*r->Ok_0).options() == (SocketOptions { curve_secretkey: Some(key@), ..old(self).options() })
                && *final(self) == *final(r->Ok_0),
            r is Err ==> final(self)@ == old(self)@ && final(self).options() == old(self).options(),
    {
        match self.socket.set_curve_secretkey(key) {
            Ok(()) => Ok(self),
            Err(e) => Err(e),
        }
    }

    /// Sets the CURVE public key of the server this socket connects to.
    pub fn set_curve_serverkey(&mut self, key: &[u8]) -> (r: Result<&mut Self, SocketError>)
        ensures
            r is Ok ==> (*r->Ok_0)@ == old(self)@ && (*r->Ok_0).options() == (SocketOptions { curve_serverkey: Some(key@), ..old(self).options() })
                && *final(self) == *final(r->Ok_0),
            r is Err ==> final(self)@ == old(self)@ && final(self).options() == old(self).options(),
    {
        match self.socket.set_curve_serverkey(key) {
            Ok(()) => Ok(self),
            Err(e) => Err(e),
        }
    }

    /// Sets the authentication domain.
    pub fn set_zap_domain(&mut self, domain: &str) -> (r: Result<&mut Self, SocketError>)
        ensures
            r is Ok ==> (*r->Ok_0)@ == old(self)@ && (*r->Ok_0).options() == (SocketOptions { zap_domain: Some(domain@), ..old(self).options() })
                && *final(self) == *final(r->Ok_0),
            r is Err ==> final(self)@ == old(self)@ && final(self).options() == old(self).options(),
    {
        match self.socket.set_zap_domain(domain) {
            Ok(()) => Ok(self),
            Err(e) => Err(e),
        }
    }

    /// Sets the send high-water mark: how many messages the transport
    /// queues for each peer before a write would block.
    pub fn set_send_hwm(&mut self, value: i32) -> (r: Result<&mut Self, SocketError>)
        ensures
            r is Ok ==> (*r->Ok_0)@ == old(self)@ && (*r->Ok_0).options() == (SocketOptions { send_hwm: Some(value), ..old(self).options() })
                && *final(self) == *final(r->Ok_0),
            r is Err ==> final(self)@ == old(self)@ && final(self).options() == old(self).options(),
    {
        match self.socket.set_send_hwm(value) {
            Ok(()) => Ok(self),
            Err(e) => Err(e),
        }
    }

    /// The send high-water mark.
    pub fn get_send_hwm(&self) -> (r: Result<i32, SocketError>)
        ensures
            r is Ok && self.options().send_hwm is Some ==> r->Ok_0 == self.options().send_hwm->Some_0,
    {
        self.socket.get_send_hwm()
    }

    /// Sets the receive high-water mark: how many messages the transport
    /// queues for this socket before it stops taking more.
    pub fn set_receive_hwm(&mut self, value: i32) -> (r: Result<&mut Self, SocketError>)
        ensures
            r is Ok ==> (*r->Ok_0)@ == old(self)@ && (*r->Ok_0).options() == (SocketOptions { receive_hwm: Some(value), ..old(self).options() })
                && *final(self) == *final(r->Ok_0),
            r is Err ==> final(self)@ == old(self)@ && final(self).options() == old(self).options(),
    {
        match self.socket.set_receive_hwm(value) {
            Ok(()) => Ok(self),
            Err(e) => Err(e),
        }
    }

    /// The receive high-water mark.
    pub fn get_receive_hwm(&self) -> (r: Result<i32, SocketError>)
        ensures
            r is Ok && self.options().receive_hwm is Some ==> r->Ok_0 == self.options().receive_hwm->Some_0,
    {
        self.socket.get_receive_hwm()
    }

    /// Whose turn it is.
    pub fn turn(&self) -> (r: Turn)
        ensures
            r == self@.0.turn,
    {
        self.pairing.turn()
    }

    /// Whether a send is allowed now; checked before any transport work.
    pub fn check_send(&self) -> (r: Result<(), RequestReplyError>)
        ensures
            r is Ok <==> self@.0.turn == Turn::AwaitingSend,
            r is Err ==> r == Err::<(), RequestReplyError>(RequestReplyError::OutOfTurn),
    {
        self.pairing.check_send()
    }

    /// Whether a receive is allowed now; checked before any transport work.
    pub fn check_recv(&self) -> (r: Result<(), RequestReplyError>)
        ensures
            r is Ok <==> self@.0.turn == Turn::AwaitingReceive,
            r is Err ==> r == Err::<(), RequestReplyError>(RequestReplyError::OutOfTurn),
    {
        self.pairing.check_recv()
    }

    /// Takes `msg` to send, as the pairing's `submit` does: refused out of
    /// turn or while a message is in flight.
    pub fn submit(&mut self, msg: Vec<Vec<u8>>) -> (r: Result<(), RequestReplyError>)
        ensures
            final(self).options() == old(self).options(),
            old(self)@.0.sender.well_formed(),
            final(self)@.0.role == old(self)@.0.role,
            final(self)@.0.turn == old(self)@.0.turn,
            final(self)@.0.receiver == old(self)@.0.receiver,
            final(self)@.1 == old(self)@.1,
            old(self)@.0.turn != Turn::AwaitingSend ==> r == Err::<(), RequestReplyError>(RequestReplyError::OutOfTurn)
                && final(self)@.0.sender == old(self)@.0.sender,
            old(self)@.0.turn == Turn::AwaitingSend ==> ({
                let (s, res) = submit_spec(old(self)@.0.sender, payloads_view(msg@));
                &&& final(self)@.0.sender == s
                &&& match res {
                    Ok(()) => r is Ok,
                    Err(e) => r == Err::<(), RequestReplyError>(RequestReplyError::Send(e)),
                }
            }),
    {
        self.pairing.submit(msg)
    }

    /// The frame to write now, as the sender's `next_frame` gives it.
    pub fn next_frame(&self) -> (r: Option<(&[u8], bool)>)
        ensures
            match self@.0.sender.in_flight {
                Some((m, k)) => r is Some && (r->Some_0.0@, r->Some_0.1) == encode(m)[k as int],
                None => r is None,
            },
    {
        self.pairing.next_frame()
    }

    /// Takes the outcome of one write, as the pairing's `on_write` does:
    /// the write that completes the message passes the turn to receiving.
    pub fn on_write(&mut self, outcome: WriteOutcome) -> (r: Result<DrivePoll, RequestReplyError>)
        ensures
            final(self).options() == old(self).options(),
            old(self)@.0.sender.well_formed(),
            final(self)@.0.sender.well_formed(),
            final(self)@.0.role == old(self)@.0.role,
            final(self)@.0.receiver == old(self)@.0.receiver,
            final(self)@.1 == old(self)@.1,
            ({
                let (s, res) = write_spec(old(self)@.0.sender, outcome);
                &&& final(self)@.0.sender == s
                &&& match res {
                    Ok(p) => r == Ok::<DrivePoll, RequestReplyError>(p),
                    Err(e) => r == Err::<DrivePoll, RequestReplyError>(RequestReplyError::Send(e)),
                }
                &&& final(self)@.0.turn == if old(self)@.0.sender.in_flight is Some && res == Ok::<DrivePoll, SendError>(DrivePoll::Ready) {
                    Turn::AwaitingReceive
                } else {
                    old(self)@.0.turn
                }
            }),
    {
        self.pairing.on_write(outcome)
    }

    /// Takes the outcome of one receive, as the pairing's `on_recv` does:
    /// a completed message passes the turn to sending.
    pub fn on_recv(&mut self, outcome: RecvOutcome) -> (r: Result<RecvPoll, RequestReplyError>)
        ensures
            final(self).options() == old(self).options(),
            final(self)@.0.role == old(self)@.0.role,
            final(self)@.0.sender == old(self)@.0.sender,
            final(self)@.1 == old(self)@.1,
            old(self)@.0.turn != Turn::AwaitingReceive ==> r == Err::<RecvPoll, RequestReplyError>(RequestReplyError::OutOfTurn)
                && final(self)@ == old(self)@,
            old(self)@.0.turn == Turn::AwaitingReceive ==> ({
                &&& match r {
                    Ok(p) => recv_spec(old(self)@.0.receiver, outcome, final(self)@.0.receiver, Ok(p)),
                    Err(RequestReplyError::Recv(e)) => recv_spec(old(self)@.0.receiver, outcome, final(self)@.0.receiver, Err(e)),
                    Err(_) => false,
                }
                &&& final(self)@.0.turn == if r is Ok && r->Ok_0 is Message {
                    Turn::AwaitingSend
                } else {
                    Turn::AwaitingReceive
                }
            }),
    {
        self.pairing.on_recv(outcome)
    }

    /// Where driving the outbound message stands, as the sender's
    /// `flush_status` says.
    pub fn flush_status(&self) -> (r: Result<bool, SendError>)
        ensures
            self@.0.sender.well_formed(),
            r == (if self@.0.sender.state == SenderState::Failed {
                Err::<bool, SendError>(SendError::Poisoned)
            } else {
                Ok::<bool, SendError>(self@.0.sender.in_flight is None)
            }),
    {
        self.pairing.flush_status()
    }

    /// The state of the receiver's link.
    pub fn link(&self) -> (r: LinkState)
        ensures
            r == self@.0.receiver.link,
    {
        self.pairing.link()
    }

    /// Decides whether the socket is ready for `i`, from the queried
    /// `mask`; once the side that waits for `i` failed, the transport is
    /// not consulted again.
    pub fn poll_interest(&mut self, i: Interest, mask: Result<ReadinessMask, i32>) -> (r: Result<PollReady, ReadinessError>)
        ensures
            final(self)@.0 == old(self)@.0,
            final(self).options() == old(self).options(),
            ({
                let failed = match i {
                    Interest::Writable => old(self)@.0.sender.state == SenderState::Failed,
                    Interest::Readable => old(self)@.0.receiver.link == LinkState::Failed,
                };
                &&& failed ==> r == Err::<PollReady, ReadinessError>(ReadinessError::Poisoned) && final(self)@.1 == old(self)@.1
                &&& !failed ==> (final(self)@.1, r) == poll_spec(old(self)@.1, i, mask)
            }),
    {
        let failed = match i {
            Interest::Writable => self.pairing.flush_status().is_err(),
            Interest::Readable => self.pairing.link() == LinkState::Failed,
        };
        if failed {
            return Err(ReadinessError::Poisoned);
        }
        self.socket.poll(i, mask)
    }

    /// Records that the wake-up armed for `i` fired.
    pub fn on_wake(&mut self, i: Interest)
        ensures
            final(self).options() == old(self).options(),
            final(self)@.0 == old(self)@.0,
            final(self)@.1 == old(self)@.1.with_armed(i, false),
    {
        self.socket.on_wake(i)
    }
}

} // verus!
