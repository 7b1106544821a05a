//! The sending side: drives one outbound message at a time through the
//! transport, frame by frame.
use vstd::prelude::*;

use crate::frame::{all_messages, encode, encode_all, is_message, payloads_view, FrameModel, MessageModel};
use crate::sequencer::FrameCursor;

verus! {

/// What one non-blocking write of a frame on the transport gave.
#[derive(Clone, Copy, Debug, PartialEq, Eq, Structural)]
pub enum WriteOutcome {
    /// The transport took the frame.
    Accepted,
    /// The transport's queue is full (the send high-water mark is reached).
    WouldBlock,
    /// The transport reported a fatal error, with its code.
    Failed(i32),
}

/// Where driving the current message stands after one write.
#[derive(Clone, Copy, Debug, PartialEq, Eq, Structural)]
pub enum DrivePoll {
    /// No message is in flight: the last one was accepted whole.
    Ready,
    /// The write would block: wait until the socket is writable.
    Pending,
    /// A frame was accepted and more of the message is due: write again.
    Continue,
}

/// Why the sender refused or failed.
#[derive(Clone, Copy, Debug, PartialEq, Eq, Structural)]
pub enum SendError {
    /// A message is still in flight.
    NotReady,
    /// A multipart message holds at least one frame.
    EmptyMessage,
    /// The sender was closed.
    Closed,
    /// An earlier fatal error left the sender unusable.
    Poisoned,
    /// The transport reported a fatal error, with its code.
    Transport(i32),
}

/// The life of a sender.
#[derive(Clone, Copy, Debug, PartialEq, Eq, Structural)]
pub enum SenderState {
    Open,
    Closed,
    Failed,
}

/// The model of a sender.
pub struct SenderModel {
    /// The messages the transport accepted whole, in submission order.
    pub delivered: Seq<MessageModel>,
    /// The message in flight and how many of its frames were accepted.
    pub in_flight: Option<(MessageModel, nat)>,
    /// The frames written after the last whole message.
    pub tail: Seq<FrameModel>,
    pub state: SenderState,
}

impl SenderModel {
    /// The frames of the in-flight message that were accepted are the
    /// tail of the wire, and no other partial message is there unless a
    /// fatal error abandoned it.
    pub open spec fn well_formed(self) -> bool {
        &&& all_messages(self.delivered)
        &&& match self.in_flight {
            Some((m, k)) => {
                &&& is_message(m)
                &&& k < m.len()
                &&& self.tail == encode(m).take(k as int)
                &&& self.state == SenderState::Open
            },
            None => self.state != SenderState::Failed ==> self.tail.len() == 0,
        }
    }

    /// Every frame the transport accepted from this sender, in order.
    pub open spec fn wire(self) -> Seq<FrameModel> {
        encode_all(self.delivered) + self.tail
    }
}

/// What `submit` does to a sender.
pub open spec fn submit_spec(s: SenderModel, m: MessageModel) -> (SenderModel, Result<(), SendError>) {
    if s.state == SenderState::Failed {
        (s, Err(SendError::Poisoned))
    } else if s.state == SenderState::Closed {
        (s, Err(SendError::Closed))
    } else if s.in_flight is Some {
        (s, Err(SendError::NotReady))
    } else if m.len() == 0 {
        (s, Err(SendError::EmptyMessage))
    } else {
        (SenderModel { delivered: s.delivered, in_flight: Some((m, 0nat)), tail: s.tail, state: s.state }, Ok(()))
    }
}

/// What the outcome of one write does to a sender.
pub open spec fn write_spec(s: SenderModel, o: WriteOutcome) -> (SenderModel, Result<DrivePoll, SendError>) {
    if s.state == SenderState::Failed {
        (s, Err(SendError::Poisoned))
    } else {
        match s.in_flight {
            None => (s, Ok(DrivePoll::Ready)),
            Some((m, k)) => match o {
                WriteOutcome::Accepted => if k + 1 >= m.len() {
                    (
                        SenderModel { delivered: s.delivered.push(m), in_flight: None, tail: Seq::empty(), state: s.state },
                        Ok(DrivePoll::Ready),
                    )
                } else {
                    (
                        SenderModel {
                            delivered: s.delivered,
                            in_flight: Some((m, k + 1)),
                            tail: s.tail.push(encode(m)[k as int]),
                            state: s.state,
                        },
                        Ok(DrivePoll::Continue),
                    )
                },
                WriteOutcome::WouldBlock => (s, Ok(DrivePoll::Pending)),
                WriteOutcome::Failed(code) => (
                    SenderModel { delivered: s.delivered, in_flight: None, tail: s.tail, state: SenderState::Failed },
                    Err(SendError::Transport(code)),
                ),
            },
        }
    }
}

/// What `close` does to a sender: it closes once nothing is in flight.
pub open spec fn close_spec(s: SenderModel) -> (SenderModel, bool) {
    if s.state == SenderState::Failed {
        (s, true)
    } else if s.in_flight is Some {
        (s, false)
    } else {
        (SenderModel { delivered: s.delivered, in_flight: None, tail: s.tail, state: SenderState::Closed }, true)
    }
}

/// The sender's state, with its well-formedness carried by each caller.
pub(crate) struct SenderCore {
    cursor: Option<FrameCursor>,
    state: SenderState,
    delivered: Ghost<Seq<MessageModel>>,
    tail: Ghost<Seq<FrameModel>>,
}

impl View for SenderCore {
    type V = SenderModel;

    closed spec fn view(&self) -> SenderModel {
        SenderModel {
            delivered: self.delivered@,
            in_flight: match self.cursor {
                Some(c) => Some(c@),
                None => None,
            },
            tail: self.tail@,
            state: self.state,
        }
    }
}

impl SenderCore {
    /// An open sender with nothing sent and nothing in flight.
    pub fn new() -> (r: SenderCore)
        ensures
            r@.well_formed(),
            r@.delivered.len() == 0,
            r@.in_flight is None,
            r@.tail.len() == 0,
            r@.state == SenderState::Open,
    {
        SenderCore { cursor: None, state: SenderState::Open, delivered: Ghost(Seq::empty()), tail: Ghost(Seq::empty()) }
    }

    /// Whether a message is in flight.
    pub fn is_busy(&self) -> (r: bool)
        ensures
            r == (self@.in_flight is Some),
    {
        matches!(self.cursor, Some(_))
    }

    /// The life of the sender.
    pub fn state(&self) -> (r: SenderState)
        ensures
            r == self@.state,
    {
        self.state
    }

    /// Takes `msg` as the message in flight; refused while another is in
    /// flight, or once the sender is closed or failed.
    pub fn submit(&mut self, msg: Vec<Vec<u8>>) -> (r: Result<(), SendError>)
        requires
            old(self)@.well_formed(),
        ensures
            (final(self)@, r) == submit_spec(old(self)@, payloads_view(msg@)),
            final(self)@.well_formed(),
        no_unwind
    {
        if self.state == SenderState::Failed {
            return Err(SendError::Poisoned);
        }
        if self.state == SenderState::Closed {
            return Err(SendError::Closed);
        }
        if matches!(self.cursor, Some(_)) {
            return Err(SendError::NotReady);
        }
        if msg.len() == 0 {
            return Err(SendError::EmptyMessage);
        }
        let c = FrameCursor::new(msg);
        proof {
            assert(self.tail@ =~= encode(c@.0).take(0));
        }
        self.cursor = Some(c);
        Ok(())
    }

    /// The frame to write now, with its continuation flag: the first frame
    /// of the message in flight that the transport has not accepted.
    pub fn next_frame(&self) -> (r: Option<(&[u8], bool)>)
        requires
            self@.well_formed(),
        ensures
            match self@.in_flight {
                Some((m, k)) => r is Some && (r->Some_0.0@, r->Some_0.1) == encode(m)[k as int],
                None => r is None,
            },
    {
        match &self.cursor {
            Some(c) => c.next_frame(),
            None => None,
        }
    }

    /// Takes the outcome of writing the frame that `next_frame` gave.
    ///
    /// An accepted frame moves the cursor on, and the last one completes
    /// the message; a write that would block leaves everything as it was,
    /// so the same frame is written again later; a fatal error abandons
    /// the message and poisons the sender.
    pub fn on_write(&mut self, outcome: WriteOutcome) -> (r: Result<DrivePoll, SendError>)
        requires
            old(self)@.well_formed(),
        ensures
            (final(self)@, r) == write_spec(old(self)@, outcome),
            final(self)@.well_formed(),
        no_unwind
    {
        if self.state == SenderState::Failed {
            return Err(SendError::Poisoned);
        }
        if matches!(self.cursor, None) {
            return Ok(DrivePoll::Ready);
        }
        match outcome {
            WriteOutcome::WouldBlock => Ok(DrivePoll::Pending),
            WriteOutcome::Failed(code) => {
                self.cursor = None;
                self.state = SenderState::Failed;
                Err(SendError::Transport(code))
            },
            WriteOutcome::Accepted => {
                let mut cur: Option<FrameCursor> = None;
                std::mem::swap(&mut cur, &mut self.cursor);
                match cur {
                    None => Ok(DrivePoll::Ready),
                    Some(mut c) => {
                        let ghost m = c@.0;
                        let ghost k = c@.1;
                        self.tail = Ghost(self.tail@.push(encode(m)[k as int]));
                        c.advance();
                        if c.is_exhausted() {
                            self.delivered = Ghost(self.delivered@.push(m));
                            self.tail = Ghost(Seq::empty());
                            Ok(DrivePoll::Ready)
                        } else {
                            proof {
                                assert(encode(m).take(k as int).push(encode(m)[k as int]) =~= encode(m).take(k + 1 as int));
                            }
                            self.cursor = Some(c);
                            Ok(DrivePoll::Continue)
                        }
                    },
                }
            },
        }
    }

    /// Closes the sender once nothing is in flight, and says whether it is
    /// closed; while a message is in flight, drive it and call again.
    /// Closing twice is harmless.
    pub fn close(&mut self) -> (r: bool)
        requires
            old(self)@.well_formed(),
        ensures
            (final(self)@, r) == close_spec(old(self)@),
            final(self)@.well_formed(),
        no_unwind
    {
        if self.state == SenderState::Failed {
            return true;
        }
        if matches!(self.cursor, Some(_)) {
            return false;
        }
        self.state = SenderState::Closed;
        true
    }
}

/// Sends multipart messages one at a time: a message is taken only when
/// the previous one was accepted whole, so frames of two messages never
/// interleave, and the sender buffers at most one message.
///
/// A message of which some frames were written cannot be set aside for
/// another: the transport would read the next message's frames as the
/// rest of the partial one. A caller whose send was cancelled therefore
/// drives the message in flight to completion before its next operation;
/// dropping the sender abandons it.
pub struct Sender {
    core: SenderCore,
}

impl View for Sender {
    type V = SenderModel;

    closed spec fn view(&self) -> SenderModel {
        self.core@
    }
}

impl Sender {
    /// Every sender is well formed.
    #[verifier::type_invariant]
    pub closed spec fn inv(&self) -> bool {
        self.core@.well_formed()
    }

    /// What the invariant says of the model.
    pub proof fn lemma_inv(s: &Sender)
        requires
            s.inv(),
        ensures
            s@.well_formed(),
    {
    }

    /// Where driving stands: the sender's fatal error if it failed, else
    /// whether nothing is in flight any more.
    pub fn flush_status(&self) -> (r: Result<bool, SendError>)
        ensures
            self@.well_formed(),
            r == (if self@.state == SenderState::Failed {
                Err::<bool, SendError>(SendError::Poisoned)
            } else {
                Ok::<bool, SendError>(self@.in_flight is None)
            }),
    {
        proof {
            use_type_invariant(self);
        }
        if self.core.state() == SenderState::Failed {
            Err(SendError::Poisoned)
        } else {
            Ok(!self.core.is_busy())
        }
    }

    /// An open sender with nothing sent and nothing in flight.
    pub fn new() -> (r: Sender)
        ensures
            r@.well_formed(),
            r@.delivered.len() == 0,
            r@.in_flight is None,
            r@.tail.len() == 0,
            r@.state == SenderState::Open,
    {
        Sender { core: SenderCore::new() }
    }

    /// Whether a message is in flight.
    pub fn is_busy(&self) -> (r: bool)
        ensures
            r == (self@.in_flight is Some),
            self@.well_formed(),
    {
        proof {
            use_type_invariant(self);
        }
        self.core.is_busy()
    }

    /// The life of the sender.
    pub fn state(&self) -> (r: SenderState)
        ensures
            r == self@.state,
    {
        self.core.state()
    }

    /// Takes `msg` as the message in flight; refused while another is in
    /// flight, or once the sender is closed or failed.
    pub fn submit(&mut self, msg: Vec<Vec<u8>>) -> (r: Result<(), SendError>)
        ensures
            old(self)@.well_formed(),
            (final(self)@, r) == submit_spec(old(self)@, payloads_view(msg@)),
            final(self)@.well_formed(),
        no_unwind
    {
        proof {
            use_type_invariant(&*self);
        }
        self.core.submit(msg)
    }

    /// The frame to write now, with its continuation flag: the first frame
    /// of the message in flight that the transport has not accepted.
    pub fn next_frame(&self) -> (r: Option<(&[u8], bool)>)
        ensures
            match self@.in_flight {
                Some((m, k)) => r is Some && (r->Some_0.0@, r->Some_0.1) == encode(m)[k as int],
                None => r is None,
            },
    {
        proof {
            use_type_invariant(self);
        }
        self.core.next_frame()
    }

    /// Takes the outcome of writing the frame that `next_frame` gave.
    ///
    /// An accepted frame moves the cursor on, and the last one completes
    /// the message; a write that would block leaves everything as it was,
    /// so the same frame is written again later; a fatal error abandons
    /// the message and poisons the sender.
    pub fn on_write(&mut self, outcome: WriteOutcome) -> (r: Result<DrivePoll, SendError>)
        ensures
            old(self)@.well_formed(),
            (final(self)@, r) == write_spec(old(self)@, outcome),
            final(self)@.well_formed(),
        no_unwind
    {
        proof {
            use_type_invariant(&*self);
        }
        self.core.on_write(outcome)
    }

    /// Closes the sender once nothing is in flight, and says whether it is
    /// closed; while a message is in flight, drive it and call again.
    /// Closing twice is harmless.
    pub fn close(&mut self) -> (r: bool)
        ensures
            old(self)@.well_formed(),
            (final(self)@, r) == close_spec(old(self)@),
            final(self)@.well_formed(),
        no_unwind
    {
        proof {
            use_type_invariant(&*self);
        }
        self.core.close()
    }
}

} // verus!
