use vstd::prelude::*;
use crate::event::{Action, EngineStatus, Event, Failure, Outcome, Step, event_failure, fail_with};

verus! {

/// Where a handshake round stands.
#[derive(Clone, Copy, Debug, PartialEq, Eq, Structural)]
pub enum HandshakePhase {
    Start,
    Writing,
    Flushing,
    Reading,
}

/// One bounded round of handshake progress: drain the engine's ciphertext to
/// the transport, flush it, then feed the engine what the transport holds.
/// It ends with the bytes read and written in this round.
#[derive(Clone, Copy, Debug, PartialEq, Eq, Structural)]
pub struct HandshakeRound {
    pub phase: HandshakePhase,
    pub read_bytes: usize,
    pub written_bytes: usize,
    pub eof: bool,
    pub write_blocked: bool,
    pub read_blocked: bool,
    pub need_flush: bool,
}

pub type HandshakeStep<E> = Step<(usize, usize), E>;

impl HandshakeRound {
    /// A round that has done nothing yet.
    pub open spec fn start() -> Self {
        HandshakeRound {
            phase: HandshakePhase::Start,
            read_bytes: 0,
            written_bytes: 0,
            eof: false,
            write_blocked: false,
            read_blocked: false,
            need_flush: false,
        }
    }

    /// End of the round, once neither direction has more to do.
    pub open spec fn spec_decide<E>(self, st: EngineStatus) -> (Self, HandshakeStep<E>) {
        if self.eof && st.handshaking {
            (self, Step::Done(Outcome::Ready(Err(Failure::UnexpectedEof))))
        } else if st.handshaking && self.read_bytes == 0 && self.written_bytes == 0
            && (self.write_blocked || self.read_blocked) {
            (self, Step::Done(Outcome::Pending))
        } else {
            (self, Step::Done(Outcome::Ready(Ok((self.read_bytes, self.written_bytes)))))
        }
    }

    pub open spec fn spec_read_or_decide<E>(self, st: EngineStatus) -> (Self, HandshakeStep<E>) {
        if !self.eof && (st.wants_read || st.handshaking) {
            (HandshakeRound { phase: HandshakePhase::Reading, ..self }, Step::Do(Action::ReadIo))
        } else {
            self.spec_decide(st)
        }
    }

    pub open spec fn spec_flush_or_read<E>(self, st: EngineStatus) -> (Self, HandshakeStep<E>) {
        if self.need_flush {
            (
                HandshakeRound { phase: HandshakePhase::Flushing, need_flush: false, ..self },
                Step::Do(Action::FlushIo),
            )
        } else {
            self.spec_read_or_decide(st)
        }
    }

    pub open spec fn spec_write_or_flush<E>(self, st: EngineStatus) -> (Self, HandshakeStep<E>) {
        if st.wants_write {
            (HandshakeRound { phase: HandshakePhase::Writing, ..self }, Step::Do(Action::WriteIo))
        } else {
            self.spec_flush_or_read(st)
        }
    }

    /// The transition of the round on the outcome `ev` of its last action,
    /// with the engine now reporting `st`.
    pub open spec fn spec_next<E>(self, st: EngineStatus, ev: Event<E>) -> (Self, HandshakeStep<E>) {
        match self.phase {
            HandshakePhase::Start => if !st.handshaking && !st.wants_write {
                (self, Step::Done(Outcome::Ready(Ok((0, 0)))))
            } else {
                self.spec_write_or_flush(st)
            },
            _ => if event_failure(ev) is Some {
                (self, Step::Done(Outcome::Ready(Err(event_failure(ev).unwrap()))))
            } else {
                match self.phase {
                    HandshakePhase::Writing => match ev {
                        Event::Ready(n) if n > 0 => HandshakeRound {
                            written_bytes: self.written_bytes.saturating_add(n),
                            need_flush: true,
                            ..self
                        }.spec_write_or_flush(st),
                        _ => HandshakeRound { write_blocked: true, ..self }.spec_flush_or_read(st),
                    },
                    HandshakePhase::Flushing => match ev {
                        Event::Pending => HandshakeRound { write_blocked: true, ..self }.spec_read_or_decide(st),
                        _ => self.spec_read_or_decide(st),
                    },
                    _ => match ev {
                        Event::Ready(n) => if n == 0 {
                            HandshakeRound { eof: true, ..self }.spec_decide(st)
                        } else {
                            HandshakeRound {
                                read_bytes: self.read_bytes.saturating_add(n),
                                ..self
                            }.spec_read_or_decide(st)
                        },
                        Event::Pending => HandshakeRound { read_blocked: true, ..self }.spec_decide(st),
                        _ => self.spec_read_or_decide(st),
                    },
                }
            },
        }
    }

    pub fn new() -> (r: Self)
        ensures
            r == Self::start(),
    {
        HandshakeRound {
            phase: HandshakePhase::Start,
            read_bytes: 0,
            written_bytes: 0,
            eof: false,
            write_blocked: false,
            read_blocked: false,
            need_flush: false,
        }
    }

    fn decide<E>(self, st: EngineStatus) -> (r: (Self, HandshakeStep<E>))
        ensures
            r == self.spec_decide::<E>(st),
    {
        if self.eof && st.handshaking {
            (self, Step::Done(Outcome::Ready(Err(Failure::UnexpectedEof))))
        } else if st.handshaking && self.read_bytes == 0 && self.written_bytes == 0
            && (self.write_blocked || self.read_blocked) {
            (self, Step::Done(Outcome::Pending))
        } else {
            (self, Step::Done(Outcome::Ready(Ok((self.read_bytes, self.written_bytes)))))
        }
    }

    fn read_or_decide<E>(self, st: EngineStatus) -> (r: (Self, HandshakeStep<E>))
        ensures
            r == self.spec_read_or_decide::<E>(st),
    {
        if !self.eof && (st.wants_read || st.handshaking) {
            (HandshakeRound { phase: HandshakePhase::Reading, ..self }, Step::Do(Action::ReadIo))
        } else {
            self.decide(st)
        }
    }

    fn flush_or_read<E>(self, st: EngineStatus) -> (r: (Self, HandshakeStep<E>))
        ensures
            r == self.spec_flush_or_read::<E>(st),
    {
        if self.need_flush {
            (
                HandshakeRound { phase: HandshakePhase::Flushing, need_flush: false, ..self },
                Step::Do(Action::FlushIo),
            )
        } else {
            self.read_or_decide(st)
        }
    }

    fn write_or_flush<E>(self, st: EngineStatus) -> (r: (Self, HandshakeStep<E>))
        ensures
            r == self.spec_write_or_flush::<E>(st),
    {
        if st.wants_write {
            (HandshakeRound { phase: HandshakePhase::Writing, ..self }, Step::Do(Action::WriteIo))
        } else {
            self.flush_or_read(st)
        }
    }

    /// Advances the round by one event.
    pub fn next<E>(self, st: EngineStatus, ev: Event<E>) -> (r: (Self, HandshakeStep<E>))
        ensures
            r == self.spec_next(st, ev),
            self.phase is Start && !st.handshaking && !st.wants_write ==> r.1 == Step::<(usize, usize), E>::Done(Outcome::Ready(Ok((0, 0)))),
            self.phase is Reading && st.handshaking && ev == Event::<E>::Ready(0)
                ==> r.1 == Step::<(usize, usize), E>::Done(Outcome::Ready(Err(Failure::UnexpectedEof))),
            r.0.read_bytes >= self.read_bytes,
            r.0.written_bytes >= self.written_bytes,
            r.1 == Step::<(usize, usize), E>::Done(Outcome::Pending) ==> r.0.read_bytes == 0 && r.0.written_bytes == 0,
            st.handshaking && event_failure(ev) is None && r.0.eof && r.1 is Done
                ==> r.1 == Step::<(usize, usize), E>::Done(Outcome::Ready(Err(Failure::UnexpectedEof))),
    {
        proof {
            crate::laws::handshake_suspends_only_without_progress(self, st, ev);
            if st.handshaking && event_failure(ev) is None {
                crate::laws::handshake_eof_is_fatal_in_any_round(self, st, ev);
            }
        }
        match self.phase {
            HandshakePhase::Start => {
                if !st.handshaking && !st.wants_write {
                    (self, Step::Done(Outcome::Ready(Ok((0, 0)))))
                } else {
                    self.write_or_flush(st)
                }
            },
            HandshakePhase::Writing => match ev {
                Event::Failed(_) | Event::Decode => (self, fail_with(ev)),
                Event::Ready(n) => {
                    if n > 0 {
                        HandshakeRound {
                            written_bytes: self.written_bytes.saturating_add(n),
                            need_flush: true,
                            ..self
                        }.write_or_flush(st)
                    } else {
                        HandshakeRound { write_blocked: true, ..self }.flush_or_read(st)
                    }
                },
                _ => HandshakeRound { write_blocked: true, ..self }.flush_or_read(st),
            },
            HandshakePhase::Flushing => match ev {
                Event::Failed(_) | Event::Decode => (self, fail_with(ev)),
                Event::Pending => HandshakeRound { write_blocked: true, ..self }.read_or_decide(st),
                _ => self.read_or_decide(st),
            },
            HandshakePhase::Reading => match ev {
                Event::Failed(_) | Event::Decode => (self, fail_with(ev)),
                Event::Ready(n) => {
                    if n == 0 {
                        HandshakeRound { eof: true, ..self }.decide(st)
                    } else {
                        HandshakeRound {
                            read_bytes: self.read_bytes.saturating_add(n),
                            ..self
                        }.read_or_decide(st)
                    }
                },
                Event::Pending => HandshakeRound { read_blocked: true, ..self }.decide(st),
                _ => self.read_or_decide(st),
            },
        }
    }
}

} // verus!
