use vstd::prelude::*;
use crate::event::{Action, EngineStatus, Event, Outcome, Step, event_failure, fail_with};
use crate::handshake::{HandshakeRound, HandshakeStep};

verus! {

/// Where one poll of an application write stands.
#[derive(Clone, Copy, Debug, PartialEq, Eq, Structural)]
pub enum WritePhase {
    Start,
    Handshaking,
    /// Waiting for the outcome of `WritePlain`.
    Offering,
    /// Waiting for the outcome of `WriteIo`.
    Draining,
}

/// One poll of an application write of `len` bytes: finish the handshake if
/// needed, offer the bytes not yet accepted to the engine, and drain its
/// ciphertext to the transport to make room. Ends with the number of bytes
/// the engine accepted, or suspends when it accepted none and the transport
/// is not ready.
#[derive(Clone, Copy, Debug, PartialEq, Eq, Structural)]
pub struct WriteOp {
    pub phase: WritePhase,
    pub round: HandshakeRound,
    /// Bytes the caller asked to write.
    pub len: usize,
    /// Bytes the engine has accepted so far; the next offer starts here.
    pub pos: usize,
    /// The last drain found the transport not ready.
    pub blocked: bool,
}

pub type WriteStep<E> = Step<usize, E>;

impl WriteOp {
    pub open spec fn wf(self) -> bool {
        self.pos <= self.len
    }

    pub open spec fn start(len: usize) -> Self {
        WriteOp { phase: WritePhase::Start, round: HandshakeRound::start(), len, pos: 0, blocked: false }
    }

    pub open spec fn spec_offer_or_done<E>(self) -> (Self, WriteStep<E>) {
        if self.pos == self.len {
            (self, Step::Done(Outcome::Ready(Ok(self.pos))))
        } else {
            (WriteOp { phase: WritePhase::Offering, ..self }, Step::Do(Action::WritePlain(self.pos)))
        }
    }

    pub open spec fn spec_decide<E>(self) -> (Self, WriteStep<E>) {
        if self.blocked {
            if self.pos == 0 {
                (self, Step::Done(Outcome::Pending))
            } else {
                (self, Step::Done(Outcome::Ready(Ok(self.pos))))
            }
        } else {
            self.spec_offer_or_done()
        }
    }

    pub open spec fn spec_drain_or_decide<E>(self, st: EngineStatus) -> (Self, WriteStep<E>) {
        if st.wants_write {
            (WriteOp { phase: WritePhase::Draining, ..self }, Step::Do(Action::WriteIo))
        } else {
            self.spec_decide()
        }
    }

    /// Carries on after a step of a handshake round that started afresh.
    pub open spec fn spec_after_fresh_round<E>(self, r: (HandshakeRound, HandshakeStep<E>)) -> (Self, WriteStep<E>) {
        let op = WriteOp { phase: WritePhase::Handshaking, round: r.0, ..self };
        match r.1 {
            Step::Do(a) => (op, Step::Do(a)),
            Step::Done(Outcome::Ready(Ok(_))) => op.spec_offer_or_done(),
            Step::Done(Outcome::Ready(Err(f))) => (op, Step::Done(Outcome::Ready(Err(f)))),
            Step::Done(Outcome::Pending) => (op, Step::Done(Outcome::Pending)),
        }
    }

    /// Carries on after a step of the embedded handshake: a round that made
    /// progress while the engine still negotiates is followed by a new one.
    pub open spec fn spec_after_round<E>(self, st: EngineStatus, r: (HandshakeRound, HandshakeStep<E>)) -> (Self, WriteStep<E>) {
        match r.1 {
            Step::Done(Outcome::Ready(Ok(counts))) => if st.handshaking && (counts.0 > 0 || counts.1 > 0) {
                self.spec_after_fresh_round(HandshakeRound::start().spec_next(st, Event::<E>::Begin))
            } else {
                self.spec_after_fresh_round(r)
            },
            _ => self.spec_after_fresh_round(r),
        }
    }

    /// Bytes of an offer that the engine took, never more than were offered.
    pub open spec fn accepted<E>(self, ev: Event<E>) -> usize {
        match ev {
            Event::Ready(n) => if n <= self.len - self.pos { n } else { (self.len - self.pos) as usize },
            _ => 0,
        }
    }

    pub open spec fn spec_next<E>(self, st: EngineStatus, ev: Event<E>) -> (Self, WriteStep<E>) {
        match self.phase {
            WritePhase::Start => if st.handshaking {
                self.spec_after_fresh_round(HandshakeRound::start().spec_next(st, Event::<E>::Begin))
            } else {
                self.spec_offer_or_done()
            },
            WritePhase::Handshaking => self.spec_after_round(st, self.round.spec_next(st, ev)),
            _ => if event_failure(ev) is Some {
                (self, Step::Done(Outcome::Ready(Err(event_failure(ev).unwrap()))))
            } else if self.phase is Offering {
                let op = WriteOp { pos: (self.pos + self.accepted(ev)) as usize, blocked: false, ..self };
                if self.accepted(ev) == 0 && !st.wants_write {
                    // the engine takes nothing and has nothing to send: no
                    // transport readiness will change that
                    (op, Step::Done(Outcome::Ready(Ok(op.pos))))
                } else {
                    op.spec_drain_or_decide(st)
                }
            } else {
                match ev {
                    Event::Ready(n) if n > 0 => self.spec_drain_or_decide(st),
                    _ => WriteOp { blocked: true, ..self }.spec_decide(),
                }
            },
        }
    }

    pub fn new(len: usize) -> (r: Self)
        ensures
            r == Self::start(len),
    {
        WriteOp { phase: WritePhase::Start, round: HandshakeRound::new(), len, pos: 0, blocked: false }
    }

    fn offer_or_done<E>(self) -> (r: (Self, WriteStep<E>))
        ensures
            r == self.spec_offer_or_done::<E>(),
    {
        if self.pos == self.len {
            (self, Step::Done(Outcome::Ready(Ok(self.pos))))
        } else {
            (WriteOp { phase: WritePhase::Offering, ..self }, Step::Do(Action::WritePlain(self.pos)))
        }
    }

    fn decide<E>(self) -> (r: (Self, WriteStep<E>))
        ensures
            r == self.spec_decide::<E>(),
    {
        if self.blocked {
            if self.pos == 0 {
                (self, Step::Done(Outcome::Pending))
            } else {
                (self, Step::Done(Outcome::Ready(Ok(self.pos))))
            }
        } else {
            self.offer_or_done()
        }
    }

    fn drain_or_decide<E>(self, st: EngineStatus) -> (r: (Self, WriteStep<E>))
        ensures
            r == self.spec_drain_or_decide::<E>(st),
    {
        if st.wants_write {
            (WriteOp { phase: WritePhase::Draining, ..self }, Step::Do(Action::WriteIo))
        } else {
            self.decide()
        }
    }

    fn after_fresh_round<E>(self, r: (HandshakeRound, HandshakeStep<E>)) -> (out: (Self, WriteStep<E>))
        ensures
            out == self.spec_after_fresh_round(r),
    {
        let (round, step) = r;
        let op = WriteOp { phase: WritePhase::Handshaking, round, ..self };
        match step {
            Step::Do(a) => (op, Step::Do(a)),
            Step::Done(Outcome::Ready(Ok(_))) => op.offer_or_done(),
            Step::Done(Outcome::Ready(Err(f))) => (op, Step::Done(Outcome::Ready(Err(f)))),
            Step::Done(Outcome::Pending) => (op, Step::Done(Outcome::Pending)),
        }
    }

    fn after_round<E>(self, st: EngineStatus, r: (HandshakeRound, HandshakeStep<E>)) -> (out: (Self, WriteStep<E>))
        ensures
            out == self.spec_after_round(st, r),
    {
        let again = match &r.1 {
            Step::Done(Outcome::Ready(Ok(counts))) => st.handshaking && (counts.0 > 0 || counts.1 > 0),
            _ => false,
        };
        if again {
            self.after_fresh_round(HandshakeRound::new().next(st, Event::Begin))
        } else {
            self.after_fresh_round(r)
        }
    }

    /// Advances the write by one event.
    pub fn next<E>(self, st: EngineStatus, ev: Event<E>) -> (r: (Self, WriteStep<E>))
        requires
            self.wf(),
        ensures
            r == self.spec_next(st, ev),
            r.0.wf(),
            r.0.len == self.len,
            r.0.pos == if self.phase is Offering && event_failure(ev) is None {
                self.pos + self.accepted(ev)
            } else {
                self.pos as int
            },
            r.1 is Do && r.1->Do_0 is WritePlain ==> r.1->Do_0 == Action::WritePlain(r.0.pos) && r.0.pos < r.0.len,
            forall|k: usize| r.1 == Step::<usize, E>::Done(Outcome::Ready(Ok(k))) ==> k == r.0.pos,
            self.len > 0 && r.1 == Step::<usize, E>::Done(Outcome::Ready(Ok(0)))
                ==> self.phase is Offering && self.pos == 0 && self.accepted(ev) == 0 && !st.wants_write,
            self.phase is Draining && self.pos == 0 && (ev is Pending || ev == Event::<E>::Ready(0))
                ==> r.1 == Step::<usize, E>::Done(Outcome::Pending),
    {
        proof {
            crate::laws::write_accounts_every_byte(self, st, ev);
            if self.len > 0 {
                crate::laws::write_never_reports_zero(self, st, ev);
            }
        }
        match self.phase {
            WritePhase::Start => {
                if st.handshaking {
                    self.after_fresh_round(HandshakeRound::new().next(st, Event::Begin))
                } else {
                    self.offer_or_done()
                }
            },
            WritePhase::Handshaking => {
                let round = self.round;
                self.after_round(st, round.next(st, ev))
            },
            WritePhase::Offering => match ev {
                Event::Failed(_) | Event::Decode => (self, fail_with(ev)),
                _ => {
                    let room = self.len - self.pos;
                    let took = match ev {
                        Event::Ready(n) => if n <= room { n } else { room },
                        _ => 0,
                    };
                    let op = WriteOp { pos: self.pos + took, blocked: false, ..self };
                    if took == 0 && !st.wants_write {
                        (op, Step::Done(Outcome::Ready(Ok(op.pos))))
                    } else {
                        op.drain_or_decide(st)
                    }
                },
            },
            WritePhase::Draining => match ev {
                Event::Failed(_) | Event::Decode => (self, fail_with(ev)),
                Event::Ready(n) => {
                    if n > 0 {
                        self.drain_or_decide(st)
                    } else {
                        WriteOp { blocked: true, ..self }.decide()
                    }
                },
                _ => WriteOp { blocked: true, ..self }.decide(),
            },
        }
    }
}

} // verus!
