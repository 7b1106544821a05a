//! Properties that relate several operations: what the peer assembles
//! from what a sender wrote, under any interleaving of blocked writes.
use vstd::prelude::*;

use crate::frame::{all_messages, encode, encode_all, is_message, FrameModel, MessageModel};
use crate::receiver::{assemble, close_verdict, LinkState, ReceiverModel, RecvError};
use crate::sender::{submit_spec, write_spec, SendError, SenderModel, SenderState, WriteOutcome, DrivePoll};

verus! {

/// The sender after taking the outcomes `outs` of successive writes.
pub open spec fn drive_all(s: SenderModel, outs: Seq<WriteOutcome>) -> SenderModel
    decreases outs.len(),
{
    if outs.len() == 0 {
        s
    } else {
        write_spec(drive_all(s, outs.drop_last()), outs.last()).0
    }
}

/// How many of the outcomes `outs` are accepted writes.
pub open spec fn accepted_count(outs: Seq<WriteOutcome>) -> nat
    decreases outs.len(),
{
    if outs.len() == 0 {
        0
    } else {
        accepted_count(outs.drop_last()) + if outs.last() == WriteOutcome::Accepted { 1nat } else { 0nat }
    }
}

/// Whether none of the outcomes `outs` is a fatal error.
pub open spec fn no_failure(outs: Seq<WriteOutcome>) -> bool {
    forall|i: int| 0 <= i < outs.len() ==> !(#[trigger] outs[i] is Failed)
}

/// Frames that follow whole messages are assembled into a message in
/// progress, until the last frame completes it.
proof fn lemma_assemble_prefix(p: Seq<FrameModel>, m: MessageModel, k: int)
    requires
        assemble(p).1.len() == 0,
        0 <= k <= m.len(),
    ensures
        k < m.len() ==> assemble(p + encode(m).take(k)) == (assemble(p).0, m.take(k)),
        k == m.len() && m.len() > 0 ==> assemble(p + encode(m).take(k)) == (
            assemble(p).0.push(m),
            Seq::<Seq<u8>>::empty(),
        ),
    decreases k,
{
    if k == 0 {
        assert(p + encode(m).take(0) =~= p);
        assert(m.take(0) =~= assemble(p).1);
    } else {
        lemma_assemble_prefix(p, m, k - 1);
        let q = p + encode(m).take(k);
        assert(q.drop_last() =~= p + encode(m).take(k - 1));
        assert(m.take(k - 1).push(m[k - 1]) =~= m.take(k));
        if k == m.len() {
            assert(m.take(k) =~= m);
        }
    }
}

/// The frames of whole messages assemble into exactly those messages.
proof fn lemma_assemble_encode_all(ms: Seq<MessageModel>)
    requires
        all_messages(ms),
    ensures
        assemble(encode_all(ms)) == (ms, Seq::<Seq<u8>>::empty()),
    decreases ms.len(),
{
    if ms.len() == 0 {
        assert(ms =~= Seq::<MessageModel>::empty());
    } else {
        let init = ms.drop_last();
        let m = ms.last();
        assert(is_message(ms[ms.len() - 1]));
        assert forall|i: int| 0 <= i < init.len() implies #[trigger] is_message(init[i]) by {
            assert(is_message(ms[i]));
        }
        lemma_assemble_encode_all(init);
        lemma_assemble_prefix(encode_all(init), m, m.len() as int);
        assert(encode(m).take(m.len() as int) =~= encode(m));
        assert(init.push(m) =~= ms);
    }
}

/// Round trip: the frames a message is written as are assembled by the
/// receiver into that one message, byte for byte, empty frames included.
pub proof fn round_trip(m: MessageModel)
    requires
        is_message(m),
    ensures
        assemble(encode(m)) == (seq![m], Seq::<Seq<u8>>::empty()),
{
    let ms = seq![m];
    assert(is_message(ms[0]));
    lemma_assemble_encode_all(ms);
    assert(ms.drop_last() =~= Seq::<MessageModel>::empty());
    assert(encode_all(ms.drop_last()) == Seq::<FrameModel>::empty());
    assert(encode_all(ms) =~= encode(m));
}

/// Frame order and no interleaving: whatever a sender has written, the
/// peer assembles from it exactly the messages the sender completed, in
/// the order they were submitted and with the frames they had, followed
/// by the first frames of the one message in flight, if any.
pub proof fn wire_assembles_to_delivered(s: SenderModel)
    requires
        s.well_formed(),
        s.state != SenderState::Failed,
    ensures
        assemble(s.wire()).0 == s.delivered,
        match s.in_flight {
            Some((m, k)) => assemble(s.wire()).1 == m.take(k as int),
            None => assemble(s.wire()).1.len() == 0,
        },
{
    lemma_assemble_encode_all(s.delivered);
    match s.in_flight {
        Some((m, k)) => {
            lemma_assemble_prefix(encode_all(s.delivered), m, k as int);
        },
        None => {
            assert(s.wire() =~= encode_all(s.delivered));
        },
    }
}

/// Truncation: when the link closes after the first `k` of the `n` frames
/// of a message, with `0 < k < n`, the receiver has delivered nothing and
/// reports a truncation rather than a `k`-frame message.
pub proof fn truncation_detected(m: MessageModel, k: int)
    requires
        is_message(m),
        0 < k < m.len(),
    ensures
        assemble(encode(m).take(k)).0.len() == 0,
        close_verdict(assemble(encode(m).take(k)).1) == Err::<(), RecvError>(RecvError::Truncated),
{
    let e = Seq::<FrameModel>::empty();
    assert(assemble(e) == (Seq::<MessageModel>::empty(), Seq::<Seq<u8>>::empty()));
    lemma_assemble_prefix(e, m, k);
    assert(e + encode(m).take(k) =~= encode(m).take(k));
}

/// Atomicity under interruption: once an idle sender takes message `m`,
/// any run of write outcomes without a fatal error, blocked writes
/// anywhere among them, has written exactly the first frames of `m`, one
/// per accepted write and never one twice, and the message is complete
/// exactly when all of its frames were accepted.
pub proof fn writes_resume_in_place(s: SenderModel, m: MessageModel, outs: Seq<WriteOutcome>)
    requires
        s.well_formed(),
        s.state == SenderState::Open,
        s.in_flight is None,
        is_message(m),
        no_failure(outs),
    ensures
        ({
            let t = drive_all(submit_spec(s, m).0, outs);
            let n = accepted_count(outs);
            &&& submit_spec(s, m).1 is Ok
            &&& t.well_formed()
            &&& t.state == SenderState::Open
            &&& n < m.len() ==> t.in_flight == Some((m, n)) && t.delivered == s.delivered
                && t.wire() == s.wire() + encode(m).take(n as int)
            &&& n >= m.len() ==> t.in_flight is None && t.delivered == s.delivered.push(m)
                && t.wire() == s.wire() + encode(m)
        }),
    decreases outs.len(),
{
    let s1 = submit_spec(s, m).0;
    assert(s.tail =~= encode(m).take(0));
    assert(s.wire() =~= encode_all(s.delivered));
    if outs.len() == 0 {
        assert(s1.wire() =~= s.wire() + encode(m).take(0));
    } else {
        let init = outs.drop_last();
        assert forall|i: int| 0 <= i < init.len() implies !(#[trigger] init[i] is Failed) by {
            assert(!(outs[i] is Failed));
        }
        assert(!(outs[outs.len() - 1] is Failed));
        writes_resume_in_place(s, m, init);
        let t0 = drive_all(s1, init);
        let n0 = accepted_count(init);
        let t = drive_all(s1, outs);
        if n0 < m.len() && outs.last() == WriteOutcome::Accepted {
            assert(encode(m).take(n0 as int).push(encode(m)[n0 as int]) =~= encode(m).take(n0 + 1 as int));
            if n0 + 1 >= m.len() {
                assert(encode(m).take(n0 + 1 as int) =~= encode(m));
                assert(encode_all(s.delivered.push(m)) == encode_all(s.delivered) + encode(m)) by {
                    assert(s.delivered.push(m).drop_last() =~= s.delivered);
                }
                assert(t.wire() =~= s.wire() + encode(m));
            } else {
                assert(t.wire() =~= s.wire() + encode(m).take(n0 + 1 as int));
            }
        }
    }
}

/// Backpressure: a sender holds at most one message. While `a` is in
/// flight a second message is refused as not ready and changes nothing,
/// and a blocked write reports pending rather than buffering.
pub proof fn one_message_in_flight(s: SenderModel, a: MessageModel, b: MessageModel)
    requires
        s.well_formed(),
        s.state == SenderState::Open,
        s.in_flight is None,
        is_message(a),
    ensures
        ({
            let s1 = submit_spec(s, a).0;
            &&& submit_spec(s1, b) == (s1, Err::<(), SendError>(SendError::NotReady))
            &&& write_spec(s1, WriteOutcome::WouldBlock) == (s1, Ok::<DrivePoll, SendError>(DrivePoll::Pending))
        }),
{
}

/// Each accepted write puts on the wire exactly the frame that
/// `next_frame` offered: the frame at the cursor of the message in flight.
pub proof fn accepted_write_appends_offered_frame(s: SenderModel)
    requires
        s.well_formed(),
        s.state == SenderState::Open,
        s.in_flight is Some,
    ensures
        ({
            let (m, k) = s.in_flight->Some_0;
            write_spec(s, WriteOutcome::Accepted).0.wire() == s.wire().push(encode(m)[k as int])
        }),
{
    let (m, k) = s.in_flight->Some_0;
    let t = write_spec(s, WriteOutcome::Accepted).0;
    assert(encode(m).take(k as int).push(encode(m)[k as int]) =~= encode(m).take(k + 1 as int));
    if k + 1 >= m.len() {
        assert(encode(m).take(k + 1 as int) =~= encode(m));
        assert(s.delivered.push(m).drop_last() =~= s.delivered);
        assert(t.wire() =~= s.wire().push(encode(m)[k as int]));
    } else {
        assert(t.wire() =~= s.wire().push(encode(m)[k as int]));
    }
}

/// End to end: a receiver that has taken exactly the frames a sender's
/// transport accepted has handed out exactly the sender's completed
/// messages, in submission order and frame for frame, and holds the
/// first frames of the one message in flight, if any.
pub proof fn receiver_gets_sender_messages(snd: SenderModel, rcv: ReceiverModel)
    requires
        snd.well_formed(),
        snd.state != SenderState::Failed,
        rcv.well_formed(),
        rcv.link == LinkState::Open,
        rcv.frames == snd.wire(),
    ensures
        rcv.delivered == snd.delivered,
        match snd.in_flight {
            Some((m, k)) => rcv.partial == m.take(k as int),
            None => rcv.partial.len() == 0,
        },
{
    wire_assembles_to_delivered(snd);
}

} // verus!
