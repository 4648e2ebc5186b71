//! Properties of the machines that hold for every state and event.
use vstd::prelude::*;
use crate::event::{Action, EngineStatus, Event, Failure, Outcome, Step, event_failure};
use crate::handshake::HandshakeRound;
use crate::read::{ReadOp, ReadPhase};
use crate::write::{WriteOp, WritePhase};

verus! {

/// Once the engine no longer reports handshaking and has sent all its
/// ciphertext, a handshake round does no work at all: it ends at once, with
/// nothing read or written and no error.
pub proof fn handshake_when_established_is_noop<E>(st: EngineStatus, ev: Event<E>)
    requires
        !st.handshaking,
        !st.wants_write,
    ensures
        HandshakeRound::start().spec_next(st, ev) == (
            HandshakeRound::start(),
            Step::<(usize, usize), E>::Done(Outcome::Ready(Ok((0, 0)))),
        ),
{
}

/// Within a handshake round the byte counts only grow, and a round suspends
/// only when it has moved no byte in either direction; otherwise it reports
/// what it moved.
pub proof fn handshake_suspends_only_without_progress<E>(round: HandshakeRound, st: EngineStatus, ev: Event<E>)
    ensures
        ({
            let r = round.spec_next(st, ev);
            &&& r.0.read_bytes >= round.read_bytes
            &&& r.0.written_bytes >= round.written_bytes
            &&& r.1 == Step::<(usize, usize), E>::Done(Outcome::Pending)
                ==> r.0.read_bytes == 0 && r.0.written_bytes == 0
            &&& forall|c: (usize, usize)| r.1 == Step::<(usize, usize), E>::Done(Outcome::Ready(Ok(c)))
                ==> c == (r.0.read_bytes, r.0.written_bytes) || (round.phase is Start && c == (0usize, 0usize))
        }),
{
}

/// Wherever in a round the transport's end of stream arrives, the round
/// keeps it in mind, and while the engine negotiates every way the round
/// ends (but a failure of the last action itself) is `UnexpectedEof`: never
/// success, never a suspension.
pub proof fn handshake_eof_is_fatal_in_any_round<E>(round: HandshakeRound, st: EngineStatus, ev: Event<E>)
    requires
        st.handshaking,
        event_failure(ev) is None,
    ensures
        ({
            let r = round.spec_next(st, ev);
            &&& round.eof ==> r.0.eof
            &&& round.phase is Reading && ev == Event::<E>::Ready(0) ==> r.0.eof
            &&& r.0.eof && r.1 is Done
                ==> r.1 == Step::<(usize, usize), E>::Done(Outcome::Ready(Err(Failure::UnexpectedEof)))
        }),
{
}

/// End of stream from the transport while the engine is still handshaking
/// fails with `UnexpectedEof`, whether it comes during a handshake of its own,
/// of a read (strict or not) or of a write.
pub proof fn handshake_eof_is_fatal<E>(round: HandshakeRound, st: EngineStatus, strict: bool, w: WriteOp)
    requires
        round.phase is Reading,
        st.handshaking,
        w.wf(),
    ensures
        round.spec_next(st, Event::<E>::Ready(0)).1
            == Step::<(usize, usize), E>::Done(Outcome::Ready(Err(Failure::UnexpectedEof))),
        (ReadOp { phase: ReadPhase::Handshaking, round, eof_is_error: strict }).spec_next(st, Event::<E>::Ready(0)).1
            == Step::<usize, E>::Done(Outcome::Ready(Err(Failure::UnexpectedEof))),
        (WriteOp { phase: WritePhase::Handshaking, round, ..w }).spec_next(st, Event::<E>::Ready(0)).1
            == Step::<usize, E>::Done(Outcome::Ready(Err(Failure::UnexpectedEof))),
{
}

/// In strict mode a read ends with `Ok(0)` only when the engine reports the
/// peer's close notification; a bare end of stream from the transport fails
/// with `UnexpectedEof`.
pub proof fn strict_read_needs_close_notification<E>(op: ReadOp, st: EngineStatus, ev: Event<E>)
    requires
        op.eof_is_error,
    ensures
        op.spec_next(st, ev).1 == Step::<usize, E>::Done(Outcome::Ready(Ok(0)))
            ==> op.phase is Plain && ev is Closed,
        op.phase is Filling ==> op.spec_next(st, Event::<E>::Ready(0)).1
            == Step::<usize, E>::Done(Outcome::Ready(Err(Failure::UnexpectedEof))),
{
}

/// A read hands out exactly the plaintext that the engine delivered for it.
pub proof fn read_reports_engine_plaintext<E>(op: ReadOp, st: EngineStatus, ev: Event<E>, n: usize)
    requires
        n > 0,
        op.spec_next(st, ev).1 == Step::<usize, E>::Done(Outcome::Ready(Ok(n))),
    ensures
        op.phase is Plain,
        ev == Event::<E>::Ready(n),
{
}

/// A write of at least one byte ends with `Ok(0)` only when the engine takes
/// nothing while holding no ciphertext, which no transport readiness can
/// change; when the engine takes nothing and the transport cannot take its
/// ciphertext, the write suspends.
pub proof fn write_never_reports_zero<E>(op: WriteOp, st: EngineStatus, ev: Event<E>)
    requires
        op.wf(),
        op.len > 0,
    ensures
        op.spec_next(st, ev).1 == Step::<usize, E>::Done(Outcome::Ready(Ok(0)))
            ==> op.phase is Offering && op.pos == 0 && op.accepted(ev) == 0 && !st.wants_write,
        op.phase is Draining && op.pos == 0 && (ev is Pending || ev == Event::<E>::Ready(0))
            ==> op.spec_next(st, ev).1 == Step::<usize, E>::Done(Outcome::Pending),
{
}

/// A write offers each byte to the engine once and in order: the next offer
/// starts right after the bytes accepted so far, only an offer's outcome
/// moves that mark, and the count reported is the mark.
pub proof fn write_accounts_every_byte<E>(op: WriteOp, st: EngineStatus, ev: Event<E>)
    requires
        op.wf(),
    ensures
        ({
            let r = op.spec_next(st, ev);
            &&& r.0.wf()
            &&& r.0.len == op.len
            &&& r.0.pos == if op.phase is Offering && event_failure(ev) is None {
                op.pos + op.accepted(ev)
            } else {
                op.pos as int
            }
            &&& r.1 is Do && r.1->Do_0 is WritePlain ==> r.1->Do_0 == Action::WritePlain(r.0.pos) && r.0.pos < r.0.len
            &&& forall|k: usize| r.1 == Step::<usize, E>::Done(Outcome::Ready(Ok(k))) ==> k == r.0.pos
        }),
{
}

} // verus!
