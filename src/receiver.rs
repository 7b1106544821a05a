//! The receiving side: assembles inbound frames into whole messages.
use vstd::prelude::*;

use crate::frame::{encode, encode_all, payloads_view, FrameModel, MessageModel};

verus! {

/// What one non-blocking receive on the transport gave.
pub enum RecvOutcome {
    /// A frame arrived: its bytes and its continuation flag.
    Frame(Vec<u8>, bool),
    /// No frame is available now.
    WouldBlock,
    /// The connection was closed.
    Closed,
    /// The transport reported a fatal error, with its code.
    Failed(i32),
}

/// What the receiver makes of one receive outcome.
#[derive(Debug)]
pub enum RecvPoll {
    /// A whole message was assembled.
    Message(Vec<Vec<u8>>),
    /// A frame was taken and more of the message is due: receive again.
    More,
    /// Nothing is available now: wait until the socket is readable.
    Pending,
    /// The socket is closed: no message will come.
    End,
}

/// Why a receive failed.
#[derive(Clone, Copy, Debug, PartialEq, Eq, Structural)]
pub enum RecvError {
    /// The connection closed in the middle of a message.
    Truncated,
    /// The transport reported a fatal error, with its code.
    Transport(i32),
    /// An earlier fatal error left the receiver unusable.
    Poisoned,
}

/// Whether the receiver's link is usable.
#[derive(Clone, Copy, Debug, PartialEq, Eq, Structural)]
pub enum LinkState {
    Open,
    Closed,
    Failed,
}

/// The state a frame leaves behind: the frames taken so far of the message
/// in progress, and the message that the frame completed, if it did.
pub open spec fn frame_step(partial: MessageModel, f: FrameModel) -> (MessageModel, Option<MessageModel>) {
    if f.1 {
        (partial.push(f.0), None)
    } else {
        (Seq::empty(), Some(partial.push(f.0)))
    }
}

/// The messages completed by a stream of frames, in order, and the frames
/// of the message still in progress at its end.
pub open spec fn assemble(frames: Seq<FrameModel>) -> (Seq<MessageModel>, MessageModel)
    decreases frames.len(),
{
    if frames.len() == 0 {
        (Seq::empty(), Seq::empty())
    } else {
        let (msgs, partial) = assemble(frames.drop_last());
        let (rest, done) = frame_step(partial, frames.last());
        match done {
            Some(m) => (msgs.push(m), rest),
            None => (msgs, rest),
        }
    }
}

/// The verdict when the link closes with `partial` received of the
/// message in progress: a clean end, or a truncation.
pub open spec fn close_verdict(partial: MessageModel) -> Result<(), RecvError> {
    if partial.len() == 0 {
        Ok(())
    } else {
        Err(RecvError::Truncated)
    }
}

/// The model of a receiver: the frames of the message in progress, and
/// the state of its link.
pub struct ReceiverModel {
    pub partial: MessageModel,
    pub link: LinkState,
    /// Every frame taken while the link was open, in order.
    pub frames: Seq<FrameModel>,
    /// Every message handed out, in order.
    pub delivered: Seq<MessageModel>,
}

impl ReceiverModel {
    /// While the link is open, the messages handed out and the message in
    /// progress are exactly what the frames taken assemble into.
    pub open spec fn well_formed(self) -> bool {
        self.link == LinkState::Open ==> assemble(self.frames) == (self.delivered, self.partial)
    }
}

/// What taking one receive outcome does: `s` is the receiver before,
/// `t` after, and `r` what it answered.
pub open spec fn recv_spec(s: ReceiverModel, outcome: RecvOutcome, t: ReceiverModel, r: Result<RecvPoll, RecvError>) -> bool {
    &&& s.well_formed() ==> t.well_formed()
    &&& s.link == LinkState::Failed ==> r == Err::<RecvPoll, RecvError>(RecvError::Poisoned) && t == s
    &&& s.link == LinkState::Closed ==> r is Ok && r->Ok_0 is End && t == s
    &&& s.link == LinkState::Open ==> match outcome {
        RecvOutcome::Frame(d, more) => {
            let (rest, done) = frame_step(s.partial, (d@, more));
            &&& t.partial == rest
            &&& t.link == LinkState::Open
            &&& t.frames == s.frames.push((d@, more))
            &&& r is Ok
            &&& match done {
                Some(m) => r->Ok_0 is Message && payloads_view(r->Ok_0->Message_0@) == m
                    && t.delivered == s.delivered.push(m),
                None => r->Ok_0 is More && t.delivered == s.delivered,
            }
        },
        RecvOutcome::WouldBlock => r is Ok && r->Ok_0 is Pending && t == s,
        RecvOutcome::Closed => {
            &&& t.partial.len() == 0
            &&& t.link == LinkState::Closed
            &&& t.frames == s.frames
            &&& t.delivered == s.delivered
            &&& match close_verdict(s.partial) {
                Ok(()) => r is Ok && r->Ok_0 is End,
                Err(e) => r == Err::<RecvPoll, RecvError>(e),
            }
        },
        RecvOutcome::Failed(code) => {
            &&& t.partial.len() == 0
            &&& t.link == LinkState::Failed
            &&& t.frames == s.frames
            &&& t.delivered == s.delivered
            &&& r == Err::<RecvPoll, RecvError>(RecvError::Transport(code))
        },
    }
}

/// Assembles frames into messages, one frame per call, so that a message
/// is handed out whole or not at all.
pub struct Receiver {
    partial: Vec<Vec<u8>>,
    link: LinkState,
    frames: Ghost<Seq<FrameModel>>,
    delivered: Ghost<Seq<MessageModel>>,
}

impl View for Receiver {
    type V = ReceiverModel;

    closed spec fn view(&self) -> ReceiverModel {
        ReceiverModel {
            partial: payloads_view(self.partial@),
            link: self.link,
            frames: self.frames@,
            delivered: self.delivered@,
        }
    }
}

impl Receiver {
    /// A receiver with an open link and no message in progress.
    pub fn new() -> (r: Receiver)
        ensures
            r@.partial.len() == 0,
            r@.link == LinkState::Open,
            r@.frames.len() == 0,
            r@.delivered.len() == 0,
            r@.well_formed(),
    {
        let r = Receiver {
            partial: Vec::new(),
            link: LinkState::Open,
            frames: Ghost(Seq::empty()),
            delivered: Ghost(Seq::empty()),
        };
        proof {
            assert(payloads_view(r.partial@) =~= Seq::<Seq<u8>>::empty());
        }
        r
    }

    /// The state of the link.
    pub fn link(&self) -> (r: LinkState)
        ensures
            r == self@.link,
    {
        self.link
    }

    /// Whether part of a message has been received and not yet handed out.
    pub fn in_progress(&self) -> (r: bool)
        ensures
            r == (self@.partial.len() > 0),
    {
        self.partial.len() > 0
    }

    /// Takes the outcome of one receive on the transport.
    ///
    /// A frame with `more` set is kept; the frame without it completes the
    /// message, which is handed out with every frame kept before it. A
    /// close ends the stream, and is a truncation when part of a message
    /// was kept. A fatal error discards what was kept and poisons the
    /// receiver.
    pub fn on_recv(&mut self, outcome: RecvOutcome) -> (r: Result<RecvPoll, RecvError>)
        ensures
            recv_spec(old(self)@, outcome, final(self)@, r),
    {
        match self.link {
            LinkState::Failed => return Err(RecvError::Poisoned),
            LinkState::Closed => return Ok(RecvPoll::End),
            LinkState::Open => {},
        }
        match outcome {
            RecvOutcome::Frame(d, more) => {
                let ghost f = (d@, more);
                self.frames = Ghost(self.frames@.push(f));
                proof {
                    assert(self.frames@.drop_last() =~= old(self)@.frames);
                }
                self.partial.push(d);
                if more {
                    proof {
                        assert(payloads_view(self.partial@) =~= old(self)@.partial.push(d@));
                    }
                    Ok(RecvPoll::More)
                } else {
                    let mut msg: Vec<Vec<u8>> = Vec::new();
                    std::mem::swap(&mut msg, &mut self.partial);
                    self.delivered = Ghost(self.delivered@.push(payloads_view(msg@)));
                    proof {
                        assert(payloads_view(msg@) =~= old(self)@.partial.push(d@));
                        assert(payloads_view(self.partial@) =~= Seq::<Seq<u8>>::empty());
                    }
                    Ok(RecvPoll::Message(msg))
                }
            },
            RecvOutcome::WouldBlock => Ok(RecvPoll::Pending),
            RecvOutcome::Closed => {
                let truncated = self.partial.len() > 0;
                self.partial = Vec::new();
                self.link = LinkState::Closed;
                proof {
                    assert(payloads_view(self.partial@) =~= Seq::<Seq<u8>>::empty());
                }
                if truncated {
                    Err(RecvError::Truncated)
                } else {
                    Ok(RecvPoll::End)
                }
            },
            RecvOutcome::Failed(code) => {
                self.partial = Vec::new();
                self.link = LinkState::Failed;
                proof {
                    assert(payloads_view(self.partial@) =~= Seq::<Seq<u8>>::empty());
                }
                Err(RecvError::Transport(code))
            },
        }
    }
}

} // verus!
