use vstd::prelude::*;
use crate::event::{Action, EngineStatus, Event, Outcome, Step, event_failure, fail_with};
use crate::handshake::{HandshakeRound, HandshakeStep};

verus! {

/// Where a full handshake stands.
#[derive(Clone, Copy, Debug, PartialEq, Eq, Structural)]
pub enum DrivePhase {
    Start,
    /// Inside a handshake round.
    Rounds,
    /// Waiting for the outcome of `WriteIo` after the negotiation.
    Writing,
}

/// A whole handshake: rounds while the engine negotiates, then the engine's
/// last ciphertext drained to the transport. Done once the engine neither
/// negotiates nor holds ciphertext.
#[derive(Clone, Copy, Debug, PartialEq, Eq, Structural)]
pub struct HandshakeDrive {
    pub phase: DrivePhase,
    pub round: HandshakeRound,
}

pub type DriveStep<E> = Step<(), E>;

impl HandshakeDrive {
    pub open spec fn start() -> Self {
        HandshakeDrive { phase: DrivePhase::Start, round: HandshakeRound::start() }
    }

    /// After the negotiation: drain what the engine still holds.
    pub open spec fn spec_finish<E>(self, st: EngineStatus) -> (Self, DriveStep<E>) {
        if st.wants_write {
            (HandshakeDrive { phase: DrivePhase::Writing, ..self }, Step::Do(Action::WriteIo))
        } else if st.handshaking {
            (self, Step::Done(Outcome::Pending))
        } else {
            (self, Step::Done(Outcome::Ready(Ok(()))))
        }
    }

    /// Carries on after a step of the current round.
    pub open spec fn spec_enter<E>(self, st: EngineStatus, r: (HandshakeRound, HandshakeStep<E>)) -> (Self, DriveStep<E>) {
        let op = HandshakeDrive { phase: DrivePhase::Rounds, round: r.0 };
        match r.1 {
            Step::Do(a) => (op, Step::Do(a)),
            Step::Done(Outcome::Ready(Ok(_))) => op.spec_finish(st),
            Step::Done(Outcome::Ready(Err(f))) => (op, Step::Done(Outcome::Ready(Err(f)))),
            Step::Done(Outcome::Pending) => (op, Step::Done(Outcome::Pending)),
        }
    }

    pub open spec fn spec_fresh_round<E>(self, st: EngineStatus) -> (Self, DriveStep<E>) {
        self.spec_enter(st, HandshakeRound::start().spec_next(st, Event::<E>::Begin))
    }

    pub open spec fn spec_next<E>(self, st: EngineStatus, ev: Event<E>) -> (Self, DriveStep<E>) {
        match self.phase {
            DrivePhase::Start => if st.handshaking {
                self.spec_fresh_round(st)
            } else {
                self.spec_finish(st)
            },
            DrivePhase::Rounds => {
                let r = self.round.spec_next(st, ev);
                if r.1 is Done && r.1->Done_0 is Ready && r.1->Done_0->Ready_0 is Ok && st.handshaking {
                    self.spec_fresh_round(st)
                } else {
                    self.spec_enter(st, r)
                }
            },
            DrivePhase::Writing => if event_failure(ev) is Some {
                (self, Step::Done(Outcome::Ready(Err(event_failure(ev).unwrap()))))
            } else if ev is Pending {
                (self, Step::Done(Outcome::Pending))
            } else if st.handshaking {
                self.spec_fresh_round(st)
            } else {
                self.spec_finish(st)
            },
        }
    }

    pub fn new() -> (r: Self)
        ensures
            r == Self::start(),
    {
        HandshakeDrive { phase: DrivePhase::Start, round: HandshakeRound::new() }
    }

    fn finish<E>(self, st: EngineStatus) -> (r: (Self, DriveStep<E>))
        ensures
            r == self.spec_finish::<E>(st),
    {
        if st.wants_write {
            (HandshakeDrive { phase: DrivePhase::Writing, ..self }, Step::Do(Action::WriteIo))
        } else if st.handshaking {
            (self, Step::Done(Outcome::Pending))
        } else {
            (self, Step::Done(Outcome::Ready(Ok(()))))
        }
    }

    fn enter<E>(self, st: EngineStatus, r: (HandshakeRound, HandshakeStep<E>)) -> (out: (Self, DriveStep<E>))
        ensures
            out == self.spec_enter(st, r),
    {
        let (round, step) = r;
        let op = HandshakeDrive { phase: DrivePhase::Rounds, round };
        match step {
            Step::Do(a) => (op, Step::Do(a)),
            Step::Done(Outcome::Ready(Ok(_))) => op.finish(st),
            Step::Done(Outcome::Ready(Err(f))) => (op, Step::Done(Outcome::Ready(Err(f)))),
            Step::Done(Outcome::Pending) => (op, Step::Done(Outcome::Pending)),
        }
    }

    fn fresh_round<E>(self, st: EngineStatus) -> (r: (Self, DriveStep<E>))
        ensures
            r == self.spec_fresh_round::<E>(st),
    {
        self.enter(st, HandshakeRound::new().next(st, Event::Begin))
    }

    /// Advances the handshake by one event. It ends well only once the engine
    /// neither negotiates nor holds ciphertext; it suspends only when the
    /// transport is not ready; failures of the rounds and of the drain are
    /// handed on as they are.
    pub fn next<E>(self, st: EngineStatus, ev: Event<E>) -> (r: (Self, DriveStep<E>))
        ensures
            r == self.spec_next(st, ev),
            r.1 == Step::<(), E>::Done(Outcome::Ready(Ok(()))) ==> !st.handshaking && !st.wants_write,
            self.phase is Writing && event_failure(ev) is Some
                ==> r.1 == Step::<(), E>::Done(Outcome::Ready(Err(event_failure(ev).unwrap()))),
            self.phase is Writing && ev is Pending ==> r.1 == Step::<(), E>::Done(Outcome::Pending),
    {
        match self.phase {
            DrivePhase::Start => {
                if st.handshaking {
                    self.fresh_round(st)
                } else {
                    self.finish(st)
                }
            },
            DrivePhase::Rounds => {
                let round = self.round;
                let r = round.next(st, ev);
                let again = match &r.1 {
                    Step::Done(Outcome::Ready(Ok(_))) => st.handshaking,
                    _ => false,
                };
                if again {
                    self.fresh_round(st)
                } else {
                    self.enter(st, r)
                }
            },
            DrivePhase::Writing => match ev {
                Event::Failed(_) | Event::Decode => (self, fail_with(ev)),
                Event::Pending => (self, Step::Done(Outcome::Pending)),
                _ => {
                    if st.handshaking {
                        self.fresh_round(st)
                    } else {
                        self.finish(st)
                    }
                },
            },
        }
    }
}

} // verus!
