//! Turn-enforcing request/reply pairing: one sender and one receiver on
//! one socket, which strictly alternate.
use vstd::prelude::*;

use crate::frame::payloads_view;
use crate::receiver::{recv_spec, LinkState, Receiver, ReceiverModel, RecvError, RecvOutcome, RecvPoll};
use crate::sender::{submit_spec, write_spec, DrivePoll, SendError, Sender, SenderModel, SenderState, WriteOutcome};

verus! {

/// The side of a request/reply exchange.
#[derive(Clone, Copy, Debug, PartialEq, Eq, Structural)]
pub enum Role {
    /// Sends a request first, then receives its reply.
    Initiator,
    /// Receives a request first, then sends its reply.
    Responder,
}

/// Whose turn it is.
#[derive(Clone, Copy, Debug, PartialEq, Eq, Structural)]
pub enum Turn {
    AwaitingSend,
    AwaitingReceive,
}

/// Why a request/reply operation failed.
#[derive(Clone, Copy, Debug, PartialEq, Eq, Structural)]
pub enum RequestReplyError {
    /// The operation was called out of turn.
    OutOfTurn,
    /// The sender refused or failed.
    Send(SendError),
    /// The receiver failed.
    Recv(RecvError),
}

/// The turn a role starts with.
pub open spec fn initial_turn(role: Role) -> Turn {
    match role {
        Role::Initiator => Turn::AwaitingSend,
        Role::Responder => Turn::AwaitingReceive,
    }
}

/// The model of a pairing.
pub struct PairingModel {
    pub role: Role,
    pub turn: Turn,
    pub sender: SenderModel,
    pub receiver: ReceiverModel,
}

/// A sender and a receiver on one socket with strict alternation: a send
/// only in the send turn, a receive only in the receive turn; a completed
/// send passes the turn to receiving, a completed message back to sending.
pub struct Pairing {
    role: Role,
    turn: Turn,
    sender: Sender,
    receiver: Receiver,
}

impl View for Pairing {
    type V = PairingModel;

    closed spec fn view(&self) -> PairingModel {
        PairingModel { role: self.role, turn: self.turn, sender: self.sender@, receiver: self.receiver@ }
    }
}

impl Pairing {
    /// A pairing for `role`, in its first turn, with nothing sent or received.
    pub fn new(role: Role) -> (r: Pairing)
        ensures
            r@.role == role,
            r@.turn == initial_turn(role),
            r@.sender.well_formed(),
            r@.sender.in_flight is None,
            r@.sender.delivered.len() == 0,
            r@.sender.state == SenderState::Open,
            r@.receiver.partial.len() == 0,
            r@.receiver.link == LinkState::Open,
            r@.receiver.well_formed(),
            r@.receiver.frames.len() == 0,
            r@.receiver.delivered.len() == 0,
    {
        let turn = match role {
            Role::Initiator => Turn::AwaitingSend,
            Role::Responder => Turn::AwaitingReceive,
        };
        Pairing { role, turn, sender: Sender::new(), receiver: Receiver::new() }
    }

    /// The role.
    pub fn role(&self) -> (r: Role)
        ensures
            r == self@.role,
    {
        self.role
    }

    /// Whose turn it is.
    pub fn turn(&self) -> (r: Turn)
        ensures
            r == self@.turn,
    {
        self.turn
    }

    /// Where driving the outbound message stands, as the sender's
    /// `flush_status` says.
    pub fn flush_status(&self) -> (r: Result<bool, SendError>)
        ensures
            self@.sender.well_formed(),
            r == (if self@.sender.state == SenderState::Failed {
                Err::<bool, SendError>(SendError::Poisoned)
            } else {
                Ok::<bool, SendError>(self@.sender.in_flight is None)
            }),
    {
        self.sender.flush_status()
    }

    /// The state of the receiver's link.
    pub fn link(&self) -> (r: LinkState)
        ensures
            r == self@.receiver.link,
    {
        self.receiver.link()
    }

    /// Whether a send is allowed now; checked before any transport work.
    pub fn check_send(&self) -> (r: Result<(), RequestReplyError>)
        ensures
            r is Ok <==> self@.turn == Turn::AwaitingSend,
            r is Err ==> r == Err::<(), RequestReplyError>(RequestReplyError::OutOfTurn),
    {
        match self.turn {
            Turn::AwaitingSend => Ok(()),
            Turn::AwaitingReceive => Err(RequestReplyError::OutOfTurn),
        }
    }

    /// Whether a receive is allowed now; checked before any transport work.
    pub fn check_recv(&self) -> (r: Result<(), RequestReplyError>)
        ensures
            r is Ok <==> self@.turn == Turn::AwaitingReceive,
            r is Err ==> r == Err::<(), RequestReplyError>(RequestReplyError::OutOfTurn),
    {
        match self.turn {
            Turn::AwaitingReceive => Ok(()),
            Turn::AwaitingSend => Err(RequestReplyError::OutOfTurn),
        }
    }

    /// Takes `msg` to send; refused out of turn, and otherwise as the
    /// sender's `submit` decides.
    pub fn submit(&mut self, msg: Vec<Vec<u8>>) -> (r: Result<(), RequestReplyError>)
        ensures
            old(self)@.sender.well_formed(),
            final(self)@.sender.well_formed(),
            final(self)@.role == old(self)@.role,
            final(self)@.turn == old(self)@.turn,
            final(self)@.receiver == old(self)@.receiver,
            old(self)@.turn != Turn::AwaitingSend ==> r == Err::<(), RequestReplyError>(RequestReplyError::OutOfTurn)
                && final(self)@.sender == old(self)@.sender,
            old(self)@.turn == Turn::AwaitingSend ==> ({
                let (s, res) = submit_spec(old(self)@.sender, payloads_view(msg@));
                &&& final(self)@.sender == s
                &&& match res {
                    Ok(()) => r is Ok,
                    Err(e) => r == Err::<(), RequestReplyError>(RequestReplyError::Send(e)),
                }
            }),
    {
        proof {
            use_type_invariant(&self.sender);
            Sender::lemma_inv(&self.sender);
        }
        if self.turn != Turn::AwaitingSend {
            return Err(RequestReplyError::OutOfTurn);
        }
        match self.sender.submit(msg) {
            Ok(()) => Ok(()),
            Err(e) => Err(RequestReplyError::Send(e)),
        }
    }

    /// The frame to write now, as the sender's `next_frame` gives it.
    pub fn next_frame(&self) -> (r: Option<(&[u8], bool)>)
        ensures
            match self@.sender.in_flight {
                Some((m, k)) => r is Some && (r->Some_0.0@, r->Some_0.1) == crate::frame::encode(m)[k as int],
                None => r is None,
            },
    {
        self.sender.next_frame()
    }

    /// Takes the outcome of one write, as the sender's `on_write` does; the
    /// write that completes the message passes the turn to receiving.
    pub fn on_write(&mut self, outcome: WriteOutcome) -> (r: Result<DrivePoll, RequestReplyError>)
        ensures
            old(self)@.sender.well_formed(),
            final(self)@.sender.well_formed(),
            final(self)@.role == old(self)@.role,
            final(self)@.receiver == old(self)@.receiver,
            ({
                let (s, res) = write_spec(old(self)@.sender, outcome);
                &&& final(self)@.sender == s
                &&& match res {
                    Ok(p) => r == Ok::<DrivePoll, RequestReplyError>(p),
                    Err(e) => r == Err::<DrivePoll, RequestReplyError>(RequestReplyError::Send(e)),
                }
                &&& final(self)@.turn == if old(self)@.sender.in_flight is Some && res == Ok::<DrivePoll, SendError>(DrivePoll::Ready) {
                    Turn::AwaitingReceive
                } else {
                    old(self)@.turn
                }
            }),
    {
        let was_busy = self.sender.is_busy();
        match self.sender.on_write(outcome) {
            Ok(p) => {
                if was_busy && p == DrivePoll::Ready {
                    self.turn = Turn::AwaitingReceive;
                }
                Ok(p)
            },
            Err(e) => Err(RequestReplyError::Send(e)),
        }
    }

    /// Takes the outcome of one receive, as the receiver's `on_recv` does,
    /// in the receive turn only; a completed message passes the turn to
    /// sending.
    pub fn on_recv(&mut self, outcome: RecvOutcome) -> (r: Result<RecvPoll, RequestReplyError>)
        ensures
            final(self)@.role == old(self)@.role,
            final(self)@.sender == old(self)@.sender,
            old(self)@.turn != Turn::AwaitingReceive ==> r == Err::<RecvPoll, RequestReplyError>(RequestReplyError::OutOfTurn)
                && final(self)@ == old(self)@,
            old(self)@.turn == Turn::AwaitingReceive ==> ({
                &&& match r {
                    Ok(p) => recv_spec(old(self)@.receiver, outcome, final(self)@.receiver, Ok(p)),
                    Err(RequestReplyError::Recv(e)) => recv_spec(old(self)@.receiver, outcome, final(self)@.receiver, Err(e)),
                    Err(_) => false,
                }
                &&& final(self)@.turn == if r is Ok && r->Ok_0 is Message {
                    Turn::AwaitingSend
                } else {
                    Turn::AwaitingReceive
                }
            }),
    {
        if self.turn != Turn::AwaitingReceive {
            return Err(RequestReplyError::OutOfTurn);
        }
        match self.receiver.on_recv(outcome) {
            Ok(p) => {
                if let RecvPoll::Message(_) = &p {
                    self.turn = Turn::AwaitingSend;
                }
                Ok(p)
            },
            Err(e) => Err(RequestReplyError::Recv(e)),
        }
    }
}

} // verus!
