use async_zmq::curve::CurveKeyPair;
use async_zmq::pairing::{RequestReplyError, Turn};
use async_zmq::readiness::{Interest, PollReady, ReadinessError, ReadinessMask};
use async_zmq::receiver::{LinkState, RecvError, RecvOutcome};
use async_zmq::publish::Publish;
use async_zmq::reply::Reply;
use async_zmq::request::Request;
use async_zmq::sender::{DrivePoll, SendError, WriteOutcome};
use async_zmq::socket::SocketError;
use async_zmq::subscribe::Subscribe;

fn check_curve_support() -> bool {
    zmq::has("curve").unwrap_or(false)
}

fn key_pair_generation() -> Result<(), SocketError> {
    if !check_curve_support() {
        println!("Skipping test: CURVE security not supported");
        return Ok(());
    }
    let pair = CurveKeyPair::new()?;
    assert_eq!(pair.public_key.len(), 32);
    assert_eq!(pair.secret_key.len(), 32);
    assert_ne!(pair.public_key, pair.secret_key);
    Ok(())
}

#[test]
fn curve_security_test_curve_key_pair_generation() -> Result<(), SocketError> {
    key_pair_generation()
}

#[test]
fn pub_sub_curve_test_curve_key_pair_generation() -> Result<(), SocketError> {
    key_pair_generation()
}

#[test]
fn req_rep_curve_test_curve_key_pair_generation() -> Result<(), SocketError> {
    key_pair_generation()
}

#[test]
fn test_curve_socket_properties() -> Result<(), SocketError> {
    if !check_curve_support() {
        println!("Skipping test: CURVE security not supported");
        return Ok(());
    }
    let ctx = zmq::Context::new();
    {
        let mut socket = Publish::new(ctx.socket(zmq::PUB).map_err(SocketError)?);
        let pair = CurveKeyPair::new()?;
        socket.set_curve_server(true)?;
        socket.set_curve_secretkey(&pair.secret_key)?;
        socket.set_curve_publickey(&pair.public_key)?;
    }
    {
        let mut socket = Subscribe::new(ctx.socket(zmq::SUB).map_err(SocketError)?);
        let pair = CurveKeyPair::new()?;
        let server_pair = CurveKeyPair::new()?;
        socket.set_curve_serverkey(&server_pair.public_key)?;
        socket.set_curve_secretkey(&pair.secret_key)?;
        socket.set_curve_publickey(&pair.public_key)?;
    }
    {
        let mut socket = Request::new(ctx.socket(zmq::REQ).map_err(SocketError)?);
        let pair = CurveKeyPair::new()?;
        let server_pair = CurveKeyPair::new()?;
        socket.set_curve_serverkey(&server_pair.public_key)?;
        socket.set_curve_secretkey(&pair.secret_key)?;
        socket.set_curve_publickey(&pair.public_key)?;
    }
    {
        let mut socket = Reply::new(ctx.socket(zmq::REP).map_err(SocketError)?);
        let pair = CurveKeyPair::new()?;
        socket.set_curve_server(true)?;
        socket.set_curve_secretkey(&pair.secret_key)?;
        socket.set_curve_publickey(&pair.public_key)?;
    }
    Ok(())
}

#[test]
fn test_pub_sub_watermarks() -> Result<(), SocketError> {
    let ctx = zmq::Context::new();
    let mut publisher = Publish::new(ctx.socket(zmq::PUB).map_err(SocketError)?);
    publisher.set_send_hwm(100)?;
    let mut subscriber = Subscribe::new(ctx.socket(zmq::SUB).map_err(SocketError)?);
    subscriber.set_receive_hwm(100)?;
    assert_eq!(publisher.get_send_hwm()?, 100);
    assert_eq!(subscriber.get_receive_hwm()?, 100);
    Ok(())
}

#[test]
fn test_req_rep_watermarks() -> Result<(), SocketError> {
    let ctx = zmq::Context::new();
    let mut reply = Reply::new(ctx.socket(zmq::REP).map_err(SocketError)?);
    reply.set_receive_hwm(100)?.set_send_hwm(200)?;
    let mut request = Request::new(ctx.socket(zmq::REQ).map_err(SocketError)?);
    request.set_receive_hwm(100)?.set_send_hwm(200)?;
    assert_eq!(reply.get_receive_hwm()?, 100);
    assert_eq!(reply.get_send_hwm()?, 200);
    assert_eq!(request.get_receive_hwm()?, 100);
    assert_eq!(request.get_send_hwm()?, 200);
    Ok(())
}

#[test]
fn subscribe_options_keep_receiver_state() -> Result<(), SocketError> {
    let ctx = zmq::Context::new();
    let mut subscriber = Subscribe::new(ctx.socket(zmq::SUB).map_err(SocketError)?);
    subscriber.set_subscribe("topic")?.set_unsubscribe("topic")?;
    subscriber.set_zap_domain("global")?;
    Ok(())
}

#[test]
fn request_reply_turns_on_sockets() -> Result<(), SocketError> {
    let ctx = zmq::Context::new();
    let mut request = Request::new(ctx.socket(zmq::REQ).map_err(SocketError)?);
    let mut reply = Reply::new(ctx.socket(zmq::REP).map_err(SocketError)?);
    assert_eq!(request.turn(), Turn::AwaitingSend);
    assert_eq!(reply.turn(), Turn::AwaitingReceive);
    assert_eq!(reply.submit(vec![b"early".to_vec()]), Err(RequestReplyError::OutOfTurn));
    request.submit(vec![b"secure request".to_vec()]).unwrap();
    assert_eq!(request.next_frame(), Some((&b"secure request"[..], false)));
    assert_eq!(request.on_write(WriteOutcome::Accepted), Ok(DrivePoll::Ready));
    assert_eq!(request.turn(), Turn::AwaitingReceive);
    assert_eq!(request.check_send(), Err(RequestReplyError::OutOfTurn));
    Ok(())
}

#[test]
fn publish_one_message_at_a_time() -> Result<(), SocketError> {
    let ctx = zmq::Context::new();
    let mut publisher = Publish::new(ctx.socket(zmq::PUB).map_err(SocketError)?);
    assert!(publisher.poll_ready());
    publisher.start_send(vec![b"topic".to_vec(), b"payload".to_vec()]).unwrap();
    assert!(!publisher.poll_ready());
    assert_eq!(publisher.start_send(vec![b"x".to_vec()]), Err(SendError::NotReady));
    assert_eq!(publisher.next_frame(), Some((&b"topic"[..], true)));
    assert_eq!(publisher.on_write(WriteOutcome::Accepted), Ok(DrivePoll::Continue));
    assert_eq!(publisher.next_frame(), Some((&b"payload"[..], false)));
    assert_eq!(publisher.on_write(WriteOutcome::Accepted), Ok(DrivePoll::Ready));
    assert!(publisher.close());
    Ok(())
}

#[test]
fn publish_fails_fast_after_fatal_write() -> Result<(), SocketError> {
    let ctx = zmq::Context::new();
    let mut publisher = Publish::new(ctx.socket(zmq::PUB).map_err(SocketError)?);
    assert_eq!(publisher.flush_status(), Ok(true));
    publisher.start_send(vec![b"a".to_vec(), b"b".to_vec()]).unwrap();
    assert_eq!(publisher.flush_status(), Ok(false));
    assert_eq!(publisher.on_write(WriteOutcome::Accepted), Ok(DrivePoll::Continue));
    assert_eq!(publisher.on_write(WriteOutcome::Failed(11)), Err(SendError::Transport(11)));
    assert_eq!(publisher.flush_status(), Err(SendError::Poisoned));
    let ready = ReadinessMask { readable: true, writable: true };
    assert_eq!(publisher.poll_writable(Ok(ready)), Err(ReadinessError::Poisoned));
    assert_eq!(publisher.start_send(vec![b"c".to_vec()]), Err(SendError::Poisoned));
    Ok(())
}

#[test]
fn subscribe_fails_fast_after_fatal_receive() -> Result<(), SocketError> {
    let ctx = zmq::Context::new();
    let mut subscriber = Subscribe::new(ctx.socket(zmq::SUB).map_err(SocketError)?);
    let ready = ReadinessMask { readable: true, writable: false };
    assert_eq!(subscriber.poll_readable(Ok(ready)), Ok(PollReady::Ready));
    assert_eq!(subscriber.on_recv(RecvOutcome::Failed(3)).unwrap_err(), RecvError::Transport(3));
    assert_eq!(subscriber.link(), LinkState::Failed);
    assert_eq!(subscriber.poll_readable(Ok(ready)), Err(ReadinessError::Poisoned));
    Ok(())
}

#[test]
fn request_poll_poisoned_per_direction() -> Result<(), SocketError> {
    let ctx = zmq::Context::new();
    let mut request = Request::new(ctx.socket(zmq::REQ).map_err(SocketError)?);
    request.submit(vec![b"q".to_vec()]).unwrap();
    assert_eq!(request.on_write(WriteOutcome::Failed(2)), Err(RequestReplyError::Send(SendError::Transport(2))));
    assert_eq!(request.flush_status(), Err(SendError::Poisoned));
    let ready = ReadinessMask { readable: true, writable: true };
    assert_eq!(request.poll_interest(Interest::Writable, Ok(ready)), Err(ReadinessError::Poisoned));
    assert_eq!(request.poll_interest(Interest::Readable, Ok(ready)), Ok(PollReady::Ready));
    assert_eq!(request.link(), LinkState::Open);
    Ok(())
}
