use vstd::prelude::*;
use crate::event::{Action, EngineStatus, Event, Outcome, Step, event_failure, fail_with};

verus! {

/// Where one poll of a flush stands.
#[derive(Clone, Copy, Debug, PartialEq, Eq, Structural)]
pub enum FlushPhase {
    Start,
    /// Waiting for the outcome of `WriteIo`.
    Draining,
    /// Waiting for the outcome of `FlushIo`.
    Flushing,
}

/// One poll of a flush: drain all of the engine's ciphertext to the
/// transport, then flush the transport.
#[derive(Clone, Copy, Debug, PartialEq, Eq, Structural)]
pub struct FlushOp {
    pub phase: FlushPhase,
}

pub type UnitStep<E> = Step<(), E>;

/// The step that ends a poll on a transport outcome that is neither a
/// failure nor `Pending`: go on with `then`.
pub open spec fn spec_unless_blocked<S, E>(s: S, ev: Event<E>, then: (S, UnitStep<E>)) -> (S, UnitStep<E>) {
    if event_failure(ev) is Some {
        (s, Step::Done(Outcome::Ready(Err(event_failure(ev).unwrap()))))
    } else if ev is Pending {
        (s, Step::Done(Outcome::Pending))
    } else {
        then
    }
}

impl FlushOp {
    pub open spec fn start() -> Self {
        FlushOp { phase: FlushPhase::Start }
    }

    pub open spec fn spec_drain_or_flush<E>(st: EngineStatus) -> (Self, UnitStep<E>) {
        if st.wants_write {
            (FlushOp { phase: FlushPhase::Draining }, Step::Do(Action::WriteIo))
        } else {
            (FlushOp { phase: FlushPhase::Flushing }, Step::Do(Action::FlushIo))
        }
    }

    pub open spec fn spec_next<E>(self, st: EngineStatus, ev: Event<E>) -> (Self, UnitStep<E>) {
        match self.phase {
            FlushPhase::Start => Self::spec_drain_or_flush(st),
            FlushPhase::Draining => spec_unless_blocked(self, ev, Self::spec_drain_or_flush(st)),
            FlushPhase::Flushing => spec_unless_blocked(self, ev, (self, Step::Done(Outcome::Ready(Ok(()))))),
        }
    }

    pub fn new() -> (r: Self)
        ensures
            r == Self::start(),
    {
        FlushOp { phase: FlushPhase::Start }
    }

    fn drain_or_flush<E>(st: EngineStatus) -> (r: (Self, UnitStep<E>))
        ensures
            r == Self::spec_drain_or_flush::<E>(st),
    {
        if st.wants_write {
            (FlushOp { phase: FlushPhase::Draining }, Step::Do(Action::WriteIo))
        } else {
            (FlushOp { phase: FlushPhase::Flushing }, Step::Do(Action::FlushIo))
        }
    }

    /// Advances the flush by one event.
    pub fn next<E>(self, st: EngineStatus, ev: Event<E>) -> (r: (Self, UnitStep<E>))
        ensures
            r == self.spec_next(st, ev),
    {
        match (self.phase, ev) {
            (FlushPhase::Start, _) => Self::drain_or_flush(st),
            (_, Event::Pending) => (self, Step::Done(Outcome::Pending)),
            (_, Event::Failed(e)) => (self, fail_with(Event::Failed(e))),
            (_, Event::Decode) => (self, fail_with(Event::<E>::Decode)),
            (FlushPhase::Draining, _) => Self::drain_or_flush(st),
            (FlushPhase::Flushing, _) => (self, Step::Done(Outcome::Ready(Ok(())))),
        }
    }
}

/// Where one poll of a shutdown stands.
#[derive(Clone, Copy, Debug, PartialEq, Eq, Structural)]
pub enum ShutdownPhase {
    Start,
    /// Waiting for the outcome of `SendCloseNotify`.
    Notifying,
    /// Waiting for the outcome of `WriteIo`.
    Draining,
    /// Waiting for the outcome of `FlushIo`.
    Flushing,
    /// Waiting for the outcome of `ShutdownIo`.
    Closing,
}

/// One poll of a shutdown: queue the engine's close notification (once per
/// stream), push it and all other ciphertext to the transport, flush the
/// transport, then shut its write half down.
#[derive(Clone, Copy, Debug, PartialEq, Eq, Structural)]
pub struct ShutdownOp {
    pub phase: ShutdownPhase,
    /// The close notification is still to be queued.
    pub notify: bool,
}

impl ShutdownOp {
    pub open spec fn start(notify: bool) -> Self {
        ShutdownOp { phase: ShutdownPhase::Start, notify }
    }

    pub open spec fn spec_drain_or_flush<E>(self, st: EngineStatus) -> (Self, UnitStep<E>) {
        if st.wants_write {
            (ShutdownOp { phase: ShutdownPhase::Draining, ..self }, Step::Do(Action::WriteIo))
        } else {
            (ShutdownOp { phase: ShutdownPhase::Flushing, ..self }, Step::Do(Action::FlushIo))
        }
    }

    pub open spec fn spec_next<E>(self, st: EngineStatus, ev: Event<E>) -> (Self, UnitStep<E>) {
        match self.phase {
            ShutdownPhase::Start => if self.notify {
                (ShutdownOp { phase: ShutdownPhase::Notifying, ..self }, Step::Do(Action::SendCloseNotify))
            } else {
                self.spec_drain_or_flush(st)
            },
            ShutdownPhase::Notifying => spec_unless_blocked(self, ev, self.spec_drain_or_flush(st)),
            ShutdownPhase::Draining => spec_unless_blocked(self, ev, self.spec_drain_or_flush(st)),
            ShutdownPhase::Flushing => spec_unless_blocked(
                self,
                ev,
                (ShutdownOp { phase: ShutdownPhase::Closing, ..self }, Step::Do(Action::ShutdownIo)),
            ),
            ShutdownPhase::Closing => spec_unless_blocked(self, ev, (self, Step::Done(Outcome::Ready(Ok(()))))),
        }
    }

    pub fn new(notify: bool) -> (r: Self)
        ensures
            r == Self::start(notify),
    {
        ShutdownOp { phase: ShutdownPhase::Start, notify }
    }

    fn drain_or_flush<E>(self, st: EngineStatus) -> (r: (Self, UnitStep<E>))
        ensures
            r == self.spec_drain_or_flush::<E>(st),
    {
        if st.wants_write {
            (ShutdownOp { phase: ShutdownPhase::Draining, ..self }, Step::Do(Action::WriteIo))
        } else {
            (ShutdownOp { phase: ShutdownPhase::Flushing, ..self }, Step::Do(Action::FlushIo))
        }
    }

    /// Advances the shutdown by one event.
    pub fn next<E>(self, st: EngineStatus, ev: Event<E>) -> (r: (Self, UnitStep<E>))
        ensures
            r == self.spec_next(st, ev),
    {
        match (self.phase, ev) {
            (ShutdownPhase::Start, _) => {
                if self.notify {
                    (ShutdownOp { phase: ShutdownPhase::Notifying, ..self }, Step::Do(Action::SendCloseNotify))
                } else {
                    self.drain_or_flush(st)
                }
            },
            (_, Event::Pending) => (self, Step::Done(Outcome::Pending)),
            (_, Event::Failed(e)) => (self, fail_with(Event::Failed(e))),
            (_, Event::Decode) => (self, fail_with(Event::<E>::Decode)),
            (ShutdownPhase::Notifying, _) | (ShutdownPhase::Draining, _) => self.drain_or_flush(st),
            (ShutdownPhase::Flushing, _) => {
                (ShutdownOp { phase: ShutdownPhase::Closing, ..self }, Step::Do(Action::ShutdownIo))
            },
            (ShutdownPhase::Closing, _) => (self, Step::Done(Outcome::Ready(Ok(())))),
        }
    }
}

} // verus!
