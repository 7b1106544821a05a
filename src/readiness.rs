//! The readiness adapter: turns the transport's readiness mask into
//! "ready now" or "wait for a wake-up", registering each wake-up once.
use vstd::prelude::*;

verus! {

/// The direction a task waits for.
#[derive(Clone, Copy, Debug, PartialEq, Eq, Structural)]
pub enum Interest {
    Readable,
    Writable,
}

/// The transport's readiness mask for one socket.
#[derive(Clone, Copy, Debug, PartialEq, Eq, Structural)]
pub struct ReadinessMask {
    pub readable: bool,
    pub writable: bool,
}

/// The answer to a readiness poll.
#[derive(Clone, Copy, Debug, PartialEq, Eq, Structural)]
pub enum PollReady {
    /// The socket is ready in the direction asked for.
    Ready,
    /// Not ready: the caller waits, and registers its wake-up with the
    /// scheduler when `register` is set (no wake-up is armed yet).
    Pending { register: bool },
}

/// Why a readiness poll failed.
#[derive(Clone, Copy, Debug, PartialEq, Eq, Structural)]
pub enum ReadinessError {
    /// Querying the mask failed with this fatal transport error code.
    Transport(i32),
    /// An earlier fatal error left the adapter unusable.
    Poisoned,
}

/// The model of the adapter: which wake-ups are armed, and whether a
/// fatal error was seen.
#[derive(Clone, Copy, Debug, PartialEq, Eq, Structural)]
pub struct ReadinessModel {
    pub read_armed: bool,
    pub write_armed: bool,
    pub failed: bool,
}

impl ReadinessModel {
    /// Whether a wake-up is armed for `i`.
    pub open spec fn armed(self, i: Interest) -> bool {
        match i {
            Interest::Readable => self.read_armed,
            Interest::Writable => self.write_armed,
        }
    }

    /// The same state with the wake-up for `i` armed or not.
    pub open spec fn with_armed(self, i: Interest, a: bool) -> ReadinessModel {
        match i {
            Interest::Readable => ReadinessModel { read_armed: a, ..self },
            Interest::Writable => ReadinessModel { write_armed: a, ..self },
        }
    }
}

/// Whether `mask` says the socket is ready for `i`.
pub open spec fn is_ready(mask: ReadinessMask, i: Interest) -> bool {
    match i {
        Interest::Readable => mask.readable,
        Interest::Writable => mask.writable,
    }
}

/// What a poll for `i` with the queried `mask` does.
pub open spec fn poll_spec(s: ReadinessModel, i: Interest, mask: Result<ReadinessMask, i32>) -> (ReadinessModel, Result<PollReady, ReadinessError>) {
    if s.failed {
        (s, Err(ReadinessError::Poisoned))
    } else {
        match mask {
            Err(code) => (
                ReadinessModel { read_armed: false, write_armed: false, failed: true },
                Err(ReadinessError::Transport(code)),
            ),
            Ok(mk) => if is_ready(mk, i) {
                (s, Ok(PollReady::Ready))
            } else {
                (s.with_armed(i, true), Ok(PollReady::Pending { register: !s.armed(i) }))
            },
        }
    }
}

/// Tracks the wake-ups armed for one socket.
pub struct Readiness {
    state: ReadinessModel,
}

impl View for Readiness {
    type V = ReadinessModel;

    closed spec fn view(&self) -> ReadinessModel {
        self.state
    }
}

impl Readiness {
    /// An adapter with no wake-up armed.
    pub fn new() -> (r: Readiness)
        ensures
            r@ == (ReadinessModel { read_armed: false, write_armed: false, failed: false }),
    {
        Readiness { state: ReadinessModel { read_armed: false, write_armed: false, failed: false } }
    }

    /// Decides a poll for `i` from the queried readiness `mask`, or the
    /// error the query gave. Never blocks; a wake-up is registered at most
    /// once until it fires.
    pub fn poll(&mut self, i: Interest, mask: Result<ReadinessMask, i32>) -> (r: Result<PollReady, ReadinessError>)
        ensures
            (final(self)@, r) == poll_spec(old(self)@, i, mask),
        no_unwind
    {
        if self.state.failed {
            return Err(ReadinessError::Poisoned);
        }
        match mask {
            Err(code) => {
                self.state = ReadinessModel { read_armed: false, write_armed: false, failed: true };
                Err(ReadinessError::Transport(code))
            },
            Ok(mk) => {
                let (ready, armed) = match i {
                    Interest::Readable => (mk.readable, self.state.read_armed),
                    Interest::Writable => (mk.writable, self.state.write_armed),
                };
                if ready {
                    Ok(PollReady::Ready)
                } else {
                    match i {
                        Interest::Readable => self.state.read_armed = true,
                        Interest::Writable => self.state.write_armed = true,
                    }
                    Ok(PollReady::Pending { register: !armed })
                }
            },
        }
    }

    /// Records that the wake-up armed for `i` fired.
    pub fn on_wake(&mut self, i: Interest)
        ensures
            final(self)@ == old(self)@.with_armed(i, false),
        no_unwind
    {
        match i {
            Interest::Readable => self.state.read_armed = false,
            Interest::Writable => self.state.write_armed = false,
        }
    }
}

/// Idempotent registration: polling twice for `i` while the socket stays
/// not ready, with no wake-up between, registers at most once, and the
/// second poll never registers.
pub proof fn registration_idempotent(s: ReadinessModel, i: Interest, m1: ReadinessMask, m2: ReadinessMask)
    requires
        !s.failed,
        !is_ready(m1, i),
        !is_ready(m2, i),
    ensures
        ({
            let (s1, r1) = poll_spec(s, i, Ok(m1));
            let (s2, r2) = poll_spec(s1, i, Ok(m2));
            &&& r1 == Ok::<PollReady, ReadinessError>(PollReady::Pending { register: !s.armed(i) })
            &&& r2 == Ok::<PollReady, ReadinessError>(PollReady::Pending { register: false })
            &&& s2 == s1
        }),
{
    let s1 = s.with_armed(i, true);
    assert(s1.with_armed(i, true) == s1);
}

} // verus!
