//! The pending send cursor: the frames of one outbound message and how
//! many of them the transport has accepted.
use vstd::prelude::*;

use crate::frame::{encode, payloads_view, MessageModel};

verus! {

/// The frames of one message and the index of the next frame to send.
///
/// The frame at the cursor is only looked at until the transport accepts
/// it; a write that would block leaves the cursor where it was, so the
/// same frame is offered again on the next attempt.
pub struct FrameCursor {
    frames: Vec<Vec<u8>>,
    next: usize,
}

impl View for FrameCursor {
    type V = (MessageModel, nat);

    closed spec fn view(&self) -> (MessageModel, nat) {
        (payloads_view(self.frames@), self.next as nat)
    }
}

impl FrameCursor {
    #[verifier::type_invariant]
    spec fn inv(&self) -> bool {
        self.next <= self.frames.len()
    }

    /// A cursor at the first of `frames`.
    pub fn new(frames: Vec<Vec<u8>>) -> (r: FrameCursor)
        ensures
            r@ == (payloads_view(frames@), 0nat),
        no_unwind
    {
        FrameCursor { frames, next: 0 }
    }

    /// Whether every frame has been accepted.
    pub fn is_exhausted(&self) -> (r: bool)
        ensures
            r == (self@.1 >= self@.0.len()),
        no_unwind
    {
        proof {
            use_type_invariant(self);
        }
        self.next >= self.frames.len()
    }

    /// Whether the frame at the cursor is the last one: no frame would
    /// follow it.
    pub fn is_last(&self) -> (r: bool)
        ensures
            r == (self@.1 + 1 >= self@.0.len()),
    {
        proof {
            use_type_invariant(self);
        }
        self.frames.len() - self.next <= 1
    }

    /// The frame at the cursor, with its continuation flag, or `None` when
    /// every frame has been accepted. The cursor does not move.
    pub fn next_frame(&self) -> (r: Option<(&[u8], bool)>)
        ensures
            self@.1 < self@.0.len() ==> r is Some && (r->Some_0.0@, r->Some_0.1) == encode(self@.0)[self@.1 as int],
            self@.1 >= self@.0.len() ==> r is None,
    {
        proof {
            use_type_invariant(self);
        }
        if self.next < self.frames.len() {
            let more = self.next + 1 < self.frames.len();
            Some((self.frames[self.next].as_slice(), more))
        } else {
            None
        }
    }

    /// Moves past the frame at the cursor, once the transport accepted it.
    pub fn advance(&mut self)
        requires
            old(self)@.1 < old(self)@.0.len(),
        ensures
            final(self)@ == (old(self)@.0, old(self)@.1 + 1),
        no_unwind
    {
        proof {
            use_type_invariant(&*self);
        }
        self.next = self.next + 1;
    }
}

} // verus!
