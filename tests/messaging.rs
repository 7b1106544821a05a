use async_zmq::pairing::{Pairing, RequestReplyError, Role, Turn};
use async_zmq::readiness::{Interest, PollReady, Readiness, ReadinessError, ReadinessMask};
use async_zmq::receiver::{LinkState, Receiver, RecvError, RecvOutcome, RecvPoll};
use async_zmq::sender::{DrivePoll, SendError, Sender, SenderState, WriteOutcome};
use async_zmq::sequencer::FrameCursor;
use async_zmq::frame::Frame;

const ACCEPTED: WriteOutcome = WriteOutcome::Accepted;
const WOULD_BLOCK: WriteOutcome = WriteOutcome::WouldBlock;

fn msg(parts: &[&[u8]]) -> Vec<Vec<u8>> {
    parts.iter().map(|p| p.to_vec()).collect()
}

/// Writes the sender's frames, taking the given outcomes in turn, and
/// records what the transport accepted.
fn drive(sender: &mut Sender, outcomes: &[WriteOutcome], wire: &mut Vec<(Vec<u8>, bool)>) -> Vec<Result<DrivePoll, SendError>> {
    let mut polls = Vec::new();
    for o in outcomes {
        let frame = sender.next_frame().map(|(b, m)| (b.to_vec(), m));
        let r = sender.on_write(*o);
        if *o == WriteOutcome::Accepted {
            if let Some(f) = frame {
                wire.push(f);
            }
        }
        polls.push(r);
    }
    polls
}

/// Writes until the message is accepted whole, never blocking.
fn send_all(sender: &mut Sender, wire: &mut Vec<(Vec<u8>, bool)>) {
    loop {
        let frame = sender.next_frame().map(|(b, m)| (b.to_vec(), m));
        match frame {
            None => return,
            Some(f) => {
                wire.push(f);
                let r = sender.on_write(WriteOutcome::Accepted).unwrap();
                if r == DrivePoll::Ready {
                    return;
                }
            }
        }
    }
}

/// Feeds frames to a receiver and collects the messages it hands out.
fn receive_all(receiver: &mut Receiver, wire: &[(Vec<u8>, bool)]) -> Vec<Vec<Vec<u8>>> {
    let mut out = Vec::new();
    for (b, m) in wire {
        match receiver.on_recv(RecvOutcome::Frame(b.clone(), *m)).unwrap() {
            RecvPoll::Message(v) => out.push(v),
            RecvPoll::More => {}
            other => panic!("unexpected {:?}", other),
        }
    }
    out
}

#[test]
fn round_trip_topic_payload() {
    let input = msg(&[b"topic", b"payload"]);
    let mut sender = Sender::new();
    sender.submit(input.clone()).unwrap();
    let mut wire = Vec::new();
    send_all(&mut sender, &mut wire);
    assert_eq!(wire, vec![(b"topic".to_vec(), true), (b"payload".to_vec(), false)]);
    let mut receiver = Receiver::new();
    assert_eq!(receive_all(&mut receiver, &wire), vec![input]);
}

#[test]
fn round_trip_with_empty_frames() {
    let input = msg(&[b"", b"\x00\xff", b""]);
    let mut sender = Sender::new();
    sender.submit(input.clone()).unwrap();
    let mut wire = Vec::new();
    send_all(&mut sender, &mut wire);
    assert_eq!(wire.len(), 3);
    assert_eq!(wire[2], (Vec::new(), false));
    let mut receiver = Receiver::new();
    assert_eq!(receive_all(&mut receiver, &wire), vec![input]);
}

#[test]
fn frame_order_preserved_for_each_length() {
    for n in 1..=6usize {
        let input: Vec<Vec<u8>> = (0..n).map(|i| vec![i as u8; i]).collect();
        let mut sender = Sender::new();
        sender.submit(input.clone()).unwrap();
        let mut wire = Vec::new();
        send_all(&mut sender, &mut wire);
        assert_eq!(wire.len(), n);
        for (i, (b, more)) in wire.iter().enumerate() {
            assert_eq!(b, &input[i]);
            assert_eq!(*more, i + 1 < n);
        }
        let mut receiver = Receiver::new();
        assert_eq!(receive_all(&mut receiver, &wire), vec![input]);
    }
}

#[test]
fn would_block_between_frames_resumes_in_place() {
    let input = msg(&[b"a", b"b", b"c"]);
    let mut sender = Sender::new();
    sender.submit(input.clone()).unwrap();
    let mut wire = Vec::new();
    let polls = drive(&mut sender, &[WOULD_BLOCK, ACCEPTED, WOULD_BLOCK, WOULD_BLOCK, ACCEPTED, WOULD_BLOCK, ACCEPTED], &mut wire);
    assert_eq!(
        polls,
        vec![
            Ok(DrivePoll::Pending),
            Ok(DrivePoll::Continue),
            Ok(DrivePoll::Pending),
            Ok(DrivePoll::Pending),
            Ok(DrivePoll::Continue),
            Ok(DrivePoll::Pending),
            Ok(DrivePoll::Ready),
        ]
    );
    assert_eq!(wire, vec![(b"a".to_vec(), true), (b"b".to_vec(), true), (b"c".to_vec(), false)]);
    assert!(!sender.is_busy());
    let mut receiver = Receiver::new();
    assert_eq!(receive_all(&mut receiver, &wire), vec![input]);
}

#[test]
fn second_submission_waits_for_the_first() {
    let a = msg(&[b"a1", b"a2"]);
    let b = msg(&[b"b1", b"b2"]);
    let mut sender = Sender::new();
    sender.submit(a.clone()).unwrap();
    let mut wire = Vec::new();
    drive(&mut sender, &[WriteOutcome::Accepted], &mut wire);
    assert_eq!(sender.submit(b.clone()), Err(SendError::NotReady));
    send_all(&mut sender, &mut wire);
    sender.submit(b.clone()).unwrap();
    send_all(&mut sender, &mut wire);
    assert_eq!(
        wire,
        vec![(b"a1".to_vec(), true), (b"a2".to_vec(), false), (b"b1".to_vec(), true), (b"b2".to_vec(), false)]
    );
    let mut receiver = Receiver::new();
    assert_eq!(receive_all(&mut receiver, &wire), vec![a, b]);
}

#[test]
fn close_mid_message_is_truncation() {
    let mut receiver = Receiver::new();
    assert!(matches!(receiver.on_recv(RecvOutcome::Frame(b"one".to_vec(), true)), Ok(RecvPoll::More)));
    assert!(matches!(receiver.on_recv(RecvOutcome::Frame(b"two".to_vec(), true)), Ok(RecvPoll::More)));
    assert!(receiver.in_progress());
    assert_eq!(receiver.on_recv(RecvOutcome::Closed).unwrap_err(), RecvError::Truncated);
    assert_eq!(receiver.link(), LinkState::Closed);
    assert!(!receiver.in_progress());
    assert!(matches!(receiver.on_recv(RecvOutcome::Frame(b"x".to_vec(), false)), Ok(RecvPoll::End)));
}

#[test]
fn close_between_messages_is_end() {
    let mut receiver = Receiver::new();
    assert!(matches!(receiver.on_recv(RecvOutcome::Frame(b"only".to_vec(), false)), Ok(RecvPoll::Message(_))));
    assert!(matches!(receiver.on_recv(RecvOutcome::Closed), Ok(RecvPoll::End)));
    assert!(matches!(receiver.on_recv(RecvOutcome::Closed), Ok(RecvPoll::End)));
}

#[test]
fn receive_would_block_keeps_partial() {
    let mut receiver = Receiver::new();
    assert!(matches!(receiver.on_recv(RecvOutcome::Frame(b"h".to_vec(), true)), Ok(RecvPoll::More)));
    assert!(matches!(receiver.on_recv(RecvOutcome::WouldBlock), Ok(RecvPoll::Pending)));
    match receiver.on_recv(RecvOutcome::Frame(b"t".to_vec(), false)) {
        Ok(RecvPoll::Message(m)) => assert_eq!(m, msg(&[b"h", b"t"])),
        other => panic!("unexpected {:?}", other),
    }
}

#[test]
fn receive_failure_poisons() {
    let mut receiver = Receiver::new();
    assert!(matches!(receiver.on_recv(RecvOutcome::Frame(b"h".to_vec(), true)), Ok(RecvPoll::More)));
    assert_eq!(receiver.on_recv(RecvOutcome::Failed(5)).unwrap_err(), RecvError::Transport(5));
    assert_eq!(receiver.link(), LinkState::Failed);
    assert_eq!(receiver.on_recv(RecvOutcome::Frame(b"t".to_vec(), false)).unwrap_err(), RecvError::Poisoned);
}

#[test]
fn backpressure_surfaces_as_pending() {
    let mut sender = Sender::new();
    sender.submit(msg(&[b"m1"])).unwrap();
    for _ in 0..100 {
        assert_eq!(sender.on_write(WriteOutcome::WouldBlock), Ok(DrivePoll::Pending));
        assert_eq!(sender.submit(msg(&[b"m2"])), Err(SendError::NotReady));
    }
    assert!(sender.is_busy());
    assert_eq!(sender.on_write(WriteOutcome::Accepted), Ok(DrivePoll::Ready));
    assert!(!sender.is_busy());
}

#[test]
fn empty_message_refused() {
    let mut sender = Sender::new();
    assert_eq!(sender.submit(Vec::new()), Err(SendError::EmptyMessage));
    assert!(!sender.is_busy());
}

#[test]
fn write_failure_poisons_sender() {
    let mut sender = Sender::new();
    sender.submit(msg(&[b"a", b"b"])).unwrap();
    assert_eq!(sender.on_write(WriteOutcome::Accepted), Ok(DrivePoll::Continue));
    assert_eq!(sender.on_write(WriteOutcome::Failed(32)), Err(SendError::Transport(32)));
    assert_eq!(sender.state(), SenderState::Failed);
    assert!(sender.next_frame().is_none());
    assert_eq!(sender.submit(msg(&[b"c"])), Err(SendError::Poisoned));
    assert_eq!(sender.on_write(WriteOutcome::Accepted), Err(SendError::Poisoned));
}

#[test]
fn close_drains_then_closes_and_repeats() {
    let mut sender = Sender::new();
    sender.submit(msg(&[b"a", b"b"])).unwrap();
    assert!(!sender.close());
    let mut wire = Vec::new();
    send_all(&mut sender, &mut wire);
    assert!(sender.close());
    assert!(sender.close());
    assert_eq!(sender.state(), SenderState::Closed);
    assert_eq!(sender.submit(msg(&[b"c"])), Err(SendError::Closed));
}

#[test]
fn idle_write_outcome_is_ready() {
    let mut sender = Sender::new();
    assert_eq!(sender.on_write(WriteOutcome::WouldBlock), Ok(DrivePoll::Ready));
    assert!(sender.next_frame().is_none());
}

#[test]
fn cursor_offers_same_frame_until_advanced() {
    let mut c = FrameCursor::new(msg(&[b"x", b"y"]));
    assert_eq!(c.next_frame(), Some((&b"x"[..], true)));
    assert_eq!(c.next_frame(), Some((&b"x"[..], true)));
    assert!(!c.is_last());
    c.advance();
    assert_eq!(c.next_frame(), Some((&b"y"[..], false)));
    assert!(c.is_last());
    c.advance();
    assert!(c.is_exhausted());
    assert_eq!(c.next_frame(), None);
}

#[test]
fn frame_last_flag() {
    assert!(Frame::new(b"a".to_vec(), false).is_last());
    assert!(!Frame::new(b"a".to_vec(), true).is_last());
}

#[test]
fn readiness_registers_once() {
    let not_ready = ReadinessMask { readable: false, writable: false };
    let mut r = Readiness::new();
    assert_eq!(r.poll(Interest::Writable, Ok(not_ready)), Ok(PollReady::Pending { register: true }));
    assert_eq!(r.poll(Interest::Writable, Ok(not_ready)), Ok(PollReady::Pending { register: false }));
    assert_eq!(r.poll(Interest::Readable, Ok(not_ready)), Ok(PollReady::Pending { register: true }));
    r.on_wake(Interest::Writable);
    assert_eq!(r.poll(Interest::Writable, Ok(not_ready)), Ok(PollReady::Pending { register: true }));
    let writable = ReadinessMask { readable: false, writable: true };
    assert_eq!(r.poll(Interest::Writable, Ok(writable)), Ok(PollReady::Ready));
    assert_eq!(r.poll(Interest::Readable, Ok(writable)), Ok(PollReady::Pending { register: false }));
}

#[test]
fn readiness_error_is_terminal() {
    let mut r = Readiness::new();
    assert_eq!(r.poll(Interest::Readable, Err(9)), Err(ReadinessError::Transport(9)));
    let ready = ReadinessMask { readable: true, writable: true };
    assert_eq!(r.poll(Interest::Readable, Ok(ready)), Err(ReadinessError::Poisoned));
}

/// Sends the pairing's message over an in-memory wire into the peer.
fn exchange(from: &mut Pairing, to: &mut Pairing) -> Vec<Vec<u8>> {
    let mut wire = Vec::new();
    loop {
        let frame = from.next_frame().map(|(b, m)| (b.to_vec(), m));
        match frame {
            None => break,
            Some(f) => {
                wire.push(f);
                if from.on_write(WriteOutcome::Accepted).unwrap() == DrivePoll::Ready {
                    break;
                }
            }
        }
    }
    to.check_recv().unwrap();
    let mut got = None;
    for (b, m) in wire {
        if let RecvPoll::Message(v) = to.on_recv(RecvOutcome::Frame(b, m)).unwrap() {
            got = Some(v);
        }
    }
    got.unwrap()
}

#[test]
fn turn_alternation_scenario() {
    let mut initiator = Pairing::new(Role::Initiator);
    let mut responder = Pairing::new(Role::Responder);
    assert_eq!(initiator.turn(), Turn::AwaitingSend);
    assert_eq!(responder.turn(), Turn::AwaitingReceive);
    assert_eq!(responder.submit(msg(&[b"too early"])), Err(RequestReplyError::OutOfTurn));

    initiator.submit(msg(&[b"secure request"])).unwrap();
    assert_eq!(exchange(&mut initiator, &mut responder), msg(&[b"secure request"]));
    assert_eq!(initiator.turn(), Turn::AwaitingReceive);
    assert_eq!(responder.turn(), Turn::AwaitingSend);

    assert_eq!(initiator.submit(msg(&[b"again"])), Err(RequestReplyError::OutOfTurn));
    assert_eq!(initiator.check_send(), Err(RequestReplyError::OutOfTurn));

    responder.submit(msg(&[b"secure reply"])).unwrap();
    assert_eq!(exchange(&mut responder, &mut initiator), msg(&[b"secure reply"]));
    assert_eq!(initiator.turn(), Turn::AwaitingSend);
    assert_eq!(responder.turn(), Turn::AwaitingReceive);
    assert_eq!(responder.check_send(), Err(RequestReplyError::OutOfTurn));
    assert!(matches!(
        responder.on_recv(RecvOutcome::WouldBlock),
        Ok(RecvPoll::Pending)
    ));
}

#[test]
fn receive_out_of_turn_refused() {
    let mut initiator = Pairing::new(Role::Initiator);
    assert_eq!(initiator.check_recv(), Err(RequestReplyError::OutOfTurn));
    assert!(matches!(
        initiator.on_recv(RecvOutcome::Frame(b"x".to_vec(), false)),
        Err(RequestReplyError::OutOfTurn)
    ));
    assert_eq!(initiator.role(), Role::Initiator);
}

#[test]
fn pairing_send_failure_keeps_turn() {
    let mut initiator = Pairing::new(Role::Initiator);
    initiator.submit(msg(&[b"req"])).unwrap();
    assert_eq!(initiator.submit(msg(&[b"req2"])), Err(RequestReplyError::Send(SendError::NotReady)));
    assert_eq!(initiator.on_write(WriteOutcome::WouldBlock), Ok(DrivePoll::Pending));
    assert_eq!(initiator.turn(), Turn::AwaitingSend);
    assert_eq!(initiator.on_write(WriteOutcome::Failed(4)), Err(RequestReplyError::Send(SendError::Transport(4))));
    assert_eq!(initiator.turn(), Turn::AwaitingSend);
}

#[test]
fn pairing_truncated_reply() {
    let mut responder = Pairing::new(Role::Responder);
    assert!(matches!(responder.on_recv(RecvOutcome::Frame(b"a".to_vec(), true)), Ok(RecvPoll::More)));
    assert!(matches!(
        responder.on_recv(RecvOutcome::Closed),
        Err(RequestReplyError::Recv(RecvError::Truncated))
    ));
    assert_eq!(responder.turn(), Turn::AwaitingReceive);
}
