//! Frames and multipart messages, and their mathematical model.
use vstd::prelude::*;

verus! {

/// The model of one frame: its bytes and its continuation flag.
pub type FrameModel = (Seq<u8>, bool);

/// The model of a multipart message: its frames' payloads, in order.
pub type MessageModel = Seq<Seq<u8>>;

/// A multipart message is a non-empty sequence of payloads.
pub open spec fn is_message(m: MessageModel) -> bool {
    m.len() > 0
}

/// Every message of `ms` is a multipart message.
pub open spec fn all_messages(ms: Seq<MessageModel>) -> bool {
    forall|i: int| 0 <= i < ms.len() ==> #[trigger] is_message(ms[i])
}

/// The frames that carry message `m` on the wire: every frame but the
/// last has `more` set.
pub open spec fn encode(m: MessageModel) -> Seq<FrameModel> {
    Seq::new(m.len(), |i: int| (m[i], i + 1 < m.len()))
}

/// The frames that carry the messages `ms`, one after the other.
pub open spec fn encode_all(ms: Seq<MessageModel>) -> Seq<FrameModel>
    decreases ms.len(),
{
    if ms.len() == 0 {
        Seq::empty()
    } else {
        encode_all(ms.drop_last()) + encode(ms.last())
    }
}

/// One frame of a multipart message.
#[derive(Clone, Debug, PartialEq, Eq)]
pub struct Frame {
    pub data: Vec<u8>,
    pub more: bool,
}

impl View for Frame {
    type V = FrameModel;

    open spec fn view(&self) -> FrameModel {
        (self.data@, self.more)
    }
}

/// The model of a sequence of payloads.
pub open spec fn payloads_view(v: Seq<Vec<u8>>) -> MessageModel {
    Seq::new(v.len(), |i: int| v[i]@)
}

impl Frame {
    /// A frame holding `data`, with continuation flag `more`.
    pub fn new(data: Vec<u8>, more: bool) -> (r: Frame)
        ensures
            r@ == (data@, more),
    {
        Frame { data, more }
    }

    /// Whether this frame ends its message.
    pub fn is_last(&self) -> (r: bool)
        ensures
            r == !self.more,
    {
        !self.more
    }
}

} // verus!
