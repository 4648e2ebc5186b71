use vstd::prelude::*;
use crate::event::{Action, EngineStatus, Event, Failure, Outcome, Step, event_failure, fail_with};
use crate::handshake::{HandshakeRound, HandshakeStep};

verus! {

/// Where one poll of an application read stands.
#[derive(Clone, Copy, Debug, PartialEq, Eq, Structural)]
pub enum ReadPhase {
    Start,
    Handshaking,
    /// Waiting for the outcome of `ReadPlain`.
    Plain,
    /// Waiting for the outcome of `ReadIo`.
    Filling,
}

/// One poll of an application read: finish the handshake if needed, hand out
/// plaintext the engine already decoded, else pull ciphertext from the
/// transport until there is some. Ends with the number of bytes read.
#[derive(Clone, Copy, Debug, PartialEq, Eq, Structural)]
pub struct ReadOp {
    pub phase: ReadPhase,
    pub round: HandshakeRound,
    /// A clean transport close with no close notification from the peer is
    /// an error, not the end of the data.
    pub eof_is_error: bool,
}

pub type ReadStep<E> = Step<usize, E>;

impl ReadOp {
    pub open spec fn start(eof_is_error: bool) -> Self {
        ReadOp { phase: ReadPhase::Start, round: HandshakeRound::start(), eof_is_error }
    }

    pub open spec fn spec_plain<E>(self) -> (Self, ReadStep<E>) {
        (ReadOp { phase: ReadPhase::Plain, ..self }, Step::Do(Action::ReadPlain))
    }

    /// Carries on after a step of a handshake round that started afresh.
    pub open spec fn spec_after_fresh_round<E>(self, r: (HandshakeRound, HandshakeStep<E>)) -> (Self, ReadStep<E>) {
        let op = ReadOp { phase: ReadPhase::Handshaking, round: r.0, ..self };
        match r.1 {
            Step::Do(a) => (op, Step::Do(a)),
            Step::Done(Outcome::Ready(Ok(_))) => op.spec_plain(),
            Step::Done(Outcome::Ready(Err(f))) => (op, Step::Done(Outcome::Ready(Err(f)))),
            Step::Done(Outcome::Pending) => (op, Step::Done(Outcome::Pending)),
        }
    }

    /// Carries on after a step of the embedded handshake: a round that made
    /// progress while the engine still negotiates is followed by a new one.
    pub open spec fn spec_after_round<E>(self, st: EngineStatus, r: (HandshakeRound, HandshakeStep<E>)) -> (Self, ReadStep<E>) {
        match r.1 {
            Step::Done(Outcome::Ready(Ok(counts))) => if st.handshaking && (counts.0 > 0 || counts.1 > 0) {
                self.spec_after_fresh_round(HandshakeRound::start().spec_next(st, Event::<E>::Begin))
            } else {
                self.spec_after_fresh_round(r)
            },
            _ => self.spec_after_fresh_round(r),
        }
    }

    pub open spec fn spec_next<E>(self, st: EngineStatus, ev: Event<E>) -> (Self, ReadStep<E>) {
        match self.phase {
            ReadPhase::Start => if st.handshaking {
                self.spec_after_fresh_round(HandshakeRound::start().spec_next(st, Event::<E>::Begin))
            } else {
                self.spec_plain()
            },
            ReadPhase::Handshaking => self.spec_after_round(st, self.round.spec_next(st, ev)),
            _ => if event_failure(ev) is Some {
                (self, Step::Done(Outcome::Ready(Err(event_failure(ev).unwrap()))))
            } else if self.phase is Plain {
                match ev {
                    Event::Ready(n) if n > 0 => (self, Step::Done(Outcome::Ready(Ok(n)))),
                    Event::Closed => (self, Step::Done(Outcome::Ready(Ok(0)))),
                    _ => (ReadOp { phase: ReadPhase::Filling, ..self }, Step::Do(Action::ReadIo)),
                }
            } else {
                match ev {
                    Event::Ready(n) if n == 0 => if self.eof_is_error {
                        (self, Step::Done(Outcome::Ready(Err(Failure::UnexpectedEof))))
                    } else {
                        (self, Step::Done(Outcome::Ready(Ok(0))))
                    },
                    Event::Pending => (self, Step::Done(Outcome::Pending)),
                    _ => self.spec_plain(),
                }
            },
        }
    }

    pub fn new(eof_is_error: bool) -> (r: Self)
        ensures
            r == Self::start(eof_is_error),
    {
        ReadOp { phase: ReadPhase::Start, round: HandshakeRound::new(), eof_is_error }
    }

    fn plain<E>(self) -> (r: (Self, ReadStep<E>))
        ensures
            r == self.spec_plain::<E>(),
    {
        (ReadOp { phase: ReadPhase::Plain, ..self }, Step::Do(Action::ReadPlain))
    }

    fn after_fresh_round<E>(self, r: (HandshakeRound, HandshakeStep<E>)) -> (out: (Self, ReadStep<E>))
        ensures
            out == self.spec_after_fresh_round(r),
    {
        let (round, step) = r;
        let op = ReadOp { phase: ReadPhase::Handshaking, round, ..self };
        match step {
            Step::Do(a) => (op, Step::Do(a)),
            Step::Done(Outcome::Ready(Ok(_))) => op.plain(),
            Step::Done(Outcome::Ready(Err(f))) => (op, Step::Done(Outcome::Ready(Err(f)))),
            Step::Done(Outcome::Pending) => (op, Step::Done(Outcome::Pending)),
        }
    }

    fn after_round<E>(self, st: EngineStatus, r: (HandshakeRound, HandshakeStep<E>)) -> (out: (Self, ReadStep<E>))
        ensures
            out == self.spec_after_round(st, r),
    {
        let again = match &r.1 {
            Step::Done(Outcome::Ready(Ok(counts))) => st.handshaking && (counts.0 > 0 || counts.1 > 0),
            _ => false,
        };
        if again {
            self.after_fresh_round(HandshakeRound::new().next(st, Event::Begin))
        } else {
            self.after_fresh_round(r)
        }
    }

    /// Advances the read by one event.
    pub fn next<E>(self, st: EngineStatus, ev: Event<E>) -> (r: (Self, ReadStep<E>))
        ensures
            r == self.spec_next(st, ev),
            self.eof_is_error && r.1 == Step::<usize, E>::Done(Outcome::Ready(Ok(0)))
                ==> self.phase is Plain && ev is Closed,
            self.phase is Filling && ev == Event::<E>::Ready(0) ==> r.1 == Step::<usize, E>::Done(Outcome::Ready(
                if self.eof_is_error { Err(Failure::UnexpectedEof) } else { Ok(0) },
            )),
            forall|n: usize| n > 0 && r.1 == Step::<usize, E>::Done(Outcome::Ready(Ok(n)))
                ==> self.phase is Plain && ev == Event::<E>::Ready(n),
    {
        proof {
            if self.eof_is_error {
                crate::laws::strict_read_needs_close_notification(self, st, ev);
            }
            assert forall|n: usize| n > 0 && self.spec_next(st, ev).1 == Step::<usize, E>::Done(Outcome::Ready(Ok(n)))
                implies self.phase is Plain && ev == Event::<E>::Ready(n) by {
                crate::laws::read_reports_engine_plaintext(self, st, ev, n);
            }
        }
        match self.phase {
            ReadPhase::Start => {
                if st.handshaking {
                    self.after_fresh_round(HandshakeRound::new().next(st, Event::Begin))
                } else {
                    self.plain()
                }
            },
            ReadPhase::Handshaking => {
                let round = self.round;
                self.after_round(st, round.next(st, ev))
            },
            ReadPhase::Plain => match ev {
                Event::Failed(_) | Event::Decode => (self, fail_with(ev)),
                Event::Ready(n) => {
                    if n > 0 {
                        (self, Step::Done(Outcome::Ready(Ok(n))))
                    } else {
                        (ReadOp { phase: ReadPhase::Filling, ..self }, Step::Do(Action::ReadIo))
                    }
                },
                Event::Closed => (self, Step::Done(Outcome::Ready(Ok(0)))),
                _ => (ReadOp { phase: ReadPhase::Filling, ..self }, Step::Do(Action::ReadIo)),
            },
            ReadPhase::Filling => match ev {
                Event::Failed(_) | Event::Decode => (self, fail_with(ev)),
                Event::Ready(n) => {
                    if n == 0 {
                        if self.eof_is_error {
                            (self, Step::Done(Outcome::Ready(Err(Failure::UnexpectedEof))))
                        } else {
                            (self, Step::Done(Outcome::Ready(Ok(0))))
                        }
                    } else {
                        self.plain()
                    }
                },
                Event::Pending => (self, Step::Done(Outcome::Pending)),
                _ => self.plain(),
            },
        }
    }
}

} // verus!
