use tls_stream::{
    HandshakeDrive, Action, EngineStatus, Event, Failure, FlushOp, HandshakeRound, Outcome, ReadOp, ReadPhase,
    ShutdownOp, Step, Stream, WriteOp,
};

fn status(handshaking: bool, wants_read: bool, wants_write: bool) -> EngineStatus {
    EngineStatus { handshaking, wants_read, wants_write }
}

const ESTABLISHED: EngineStatus = EngineStatus { handshaking: false, wants_read: true, wants_write: false };
const HAS_OUTPUT: EngineStatus = EngineStatus { handshaking: false, wants_read: true, wants_write: true };

/// One write poll against a transport that is never ready, with the engine
/// accepting `accepted` bytes of the offer.
fn write_into_stalled_transport(stream: &Stream, len: usize, accepted: usize) -> Outcome<usize, u32> {
    let op = stream.write(len);
    let (op, step) = op.next::<u32>(ESTABLISHED, Event::Begin);
    assert_eq!(step, Step::Do(Action::WritePlain(0)));
    let (op, step) = op.next::<u32>(HAS_OUTPUT, Event::Ready(accepted));
    assert_eq!(step, Step::Do(Action::WriteIo));
    let (_, step) = op.next::<u32>(HAS_OUTPUT, Event::Pending);
    match step {
        Step::Done(outcome) => outcome,
        Step::Do(a) => panic!("unexpected action {:?}", a),
    }
}

#[test]
fn stalled_transport_write_suspends_once_engine_is_full() {
    let stream = Stream::new();
    assert_eq!(write_into_stalled_transport(&stream, 8, 8), Outcome::Ready(Ok(8)));
    assert_eq!(write_into_stalled_transport(&stream, 8, 8), Outcome::Ready(Ok(8)));
    let r = write_into_stalled_transport(&stream, 1024, 1000);
    match r {
        Outcome::Ready(Ok(n)) => assert!(n < 1024),
        other => panic!("unexpected {:?}", other),
    }
    assert_eq!(write_into_stalled_transport(&stream, 1, 0), Outcome::Pending);
}

#[test]
fn handshake_round_fails_on_transport_eof() {
    let stream = Stream::new();
    let op = stream.handshake();
    let (op, step) = op.next::<u32>(status(true, true, true), Event::Begin);
    assert_eq!(step, Step::Do(Action::WriteIo));
    let (op, step) = op.next::<u32>(status(true, true, false), Event::Ready(240));
    assert_eq!(step, Step::Do(Action::FlushIo));
    let (op, step) = op.next::<u32>(status(true, true, false), Event::Ready(0));
    assert_eq!(step, Step::Do(Action::ReadIo));
    let (_, step) = op.next::<u32>(status(true, true, false), Event::Ready(0));
    assert_eq!(step, Step::Done(Outcome::Ready(Err(Failure::UnexpectedEof))));
}

#[test]
fn handshake_round_then_established_noop() {
    let stream = Stream::new();
    // first round: send the hello, read the peer's whole flight
    let op = stream.handshake();
    let (op, step) = op.next::<u32>(status(true, true, true), Event::Begin);
    assert_eq!(step, Step::Do(Action::WriteIo));
    let (op, step) = op.next::<u32>(status(true, true, false), Event::Ready(300));
    assert_eq!(step, Step::Do(Action::FlushIo));
    let (op, step) = op.next::<u32>(status(true, true, false), Event::Ready(0));
    assert_eq!(step, Step::Do(Action::ReadIo));
    let (op, step) = op.next::<u32>(status(true, true, false), Event::Ready(1200));
    assert_eq!(step, Step::Do(Action::ReadIo));
    let (op, step) = op.next::<u32>(status(false, true, true), Event::Ready(800));
    assert_eq!(step, Step::Do(Action::ReadIo));
    let (_, step) = op.next::<u32>(status(false, true, true), Event::Pending);
    match step {
        Step::Done(Outcome::Ready(Ok((r, w)))) => {
            assert!(r > 0);
            assert!(w > 0);
            assert_eq!((r, w), (2000, 300));
        }
        other => panic!("unexpected {:?}", other),
    }
    // established: a further round is a no-op
    let (op, step) = stream.handshake().next::<u32>(status(false, true, false), Event::Begin);
    assert_eq!(step, Step::Done(Outcome::Ready(Ok((0, 0)))));
    assert_eq!(op, HandshakeRound::new());
}

#[test]
fn strict_read_fails_on_bare_transport_close() {
    let stream = Stream::new().with_eof_strictness(true);
    assert!(stream.eof_is_error);
    let op = stream.read();
    let (op, step) = op.next::<u32>(ESTABLISHED, Event::Begin);
    assert_eq!(step, Step::Do(Action::ReadPlain));
    let (op, step) = op.next::<u32>(ESTABLISHED, Event::Ready(0));
    assert_eq!(step, Step::Do(Action::ReadIo));
    let (_, step) = op.next::<u32>(ESTABLISHED, Event::Ready(0));
    assert_eq!(step, Step::Done(Outcome::Ready(Err(Failure::UnexpectedEof))));
}

#[test]
fn lenient_read_ends_cleanly_on_transport_eof() {
    let stream = Stream::new();
    let (op, _) = stream.read().next::<u32>(ESTABLISHED, Event::Begin);
    let (op, step) = op.next::<u32>(ESTABLISHED, Event::Ready(0));
    assert_eq!(step, Step::Do(Action::ReadIo));
    let (_, step) = op.next::<u32>(ESTABLISHED, Event::Ready(0));
    assert_eq!(step, Step::Done(Outcome::Ready(Ok(0))));
}

#[test]
fn read_then_peer_close_then_write_and_shutdown() {
    // decoded data is handed out as it arrives, then the peer's close ends the read
    let mut stream = Stream::new().with_eof_strictness(true);
    let (op, step) = stream.read().next::<u32>(ESTABLISHED, Event::Begin);
    assert_eq!(step, Step::Do(Action::ReadPlain));
    let (op, step) = op.next::<u32>(ESTABLISHED, Event::Ready(0));
    assert_eq!(step, Step::Do(Action::ReadIo));
    let (op, step) = op.next::<u32>(ESTABLISHED, Event::Ready(517));
    assert_eq!(step, Step::Do(Action::ReadPlain));
    assert_eq!(op.phase, ReadPhase::Plain);
    let (_, step) = op.next::<u32>(ESTABLISHED, Event::Ready(12));
    assert_eq!(step, Step::Done(Outcome::Ready(Ok(12))));

    let (op, _) = stream.read().next::<u32>(status(false, false, false), Event::Begin);
    let (_, step) = op.next::<u32>(status(false, false, false), Event::Closed);
    assert_eq!(step, Step::Done(Outcome::Ready(Ok(0))));

    // writing back, then closing
    let (op, step) = stream.write(12).next::<u32>(ESTABLISHED, Event::Begin);
    assert_eq!(step, Step::Do(Action::WritePlain(0)));
    let (op, step) = op.next::<u32>(HAS_OUTPUT, Event::Ready(12));
    assert_eq!(step, Step::Do(Action::WriteIo));
    let (_, step) = op.next::<u32>(ESTABLISHED, Event::Ready(41));
    assert_eq!(step, Step::Done(Outcome::Ready(Ok(12))));

    let op = stream.shutdown();
    let (op, step) = op.next::<u32>(ESTABLISHED, Event::Begin);
    assert_eq!(step, Step::Do(Action::SendCloseNotify));
    let (op, step) = op.next::<u32>(HAS_OUTPUT, Event::Ready(0));
    assert_eq!(step, Step::Do(Action::WriteIo));
    let (op, step) = op.next::<u32>(ESTABLISHED, Event::Ready(24));
    assert_eq!(step, Step::Do(Action::FlushIo));
    let (op, step) = op.next::<u32>(ESTABLISHED, Event::Ready(0));
    assert_eq!(step, Step::Do(Action::ShutdownIo));
    let (_, step) = op.next::<u32>(ESTABLISHED, Event::Ready(0));
    assert_eq!(step, Step::Done(Outcome::Ready(Ok(()))));
    assert!(stream.close_sent);
}

#[test]
fn shutdown_queues_close_notification_once() {
    let mut stream = Stream::new();
    let first = stream.shutdown();
    assert_eq!(first, ShutdownOp::new(true));
    let (_, step) = first.next::<u32>(HAS_OUTPUT, Event::Begin);
    assert_eq!(step, Step::Do(Action::SendCloseNotify));
    let again = stream.shutdown();
    assert_eq!(again, ShutdownOp::new(false));
    let (op, step) = again.next::<u32>(HAS_OUTPUT, Event::Begin);
    assert_eq!(step, Step::Do(Action::WriteIo));
    let (_, step) = op.next::<u32>(HAS_OUTPUT, Event::Pending);
    assert_eq!(step, Step::Done(Outcome::Pending));
}

#[test]
fn handshake_suspends_without_progress() {
    let (op, step) = HandshakeRound::new().next::<u32>(status(true, true, true), Event::Begin);
    assert_eq!(step, Step::Do(Action::WriteIo));
    let (op, step) = op.next::<u32>(status(true, true, true), Event::Pending);
    assert_eq!(step, Step::Do(Action::ReadIo));
    let (_, step) = op.next::<u32>(status(true, true, true), Event::Pending);
    assert_eq!(step, Step::Done(Outcome::Pending));
}

#[test]
fn handshake_reports_partial_progress_instead_of_suspending() {
    let (op, _) = HandshakeRound::new().next::<u32>(status(true, true, true), Event::Begin);
    let (op, step) = op.next::<u32>(status(true, true, false), Event::Ready(90));
    assert_eq!(step, Step::Do(Action::FlushIo));
    let (op, step) = op.next::<u32>(status(true, true, false), Event::Pending);
    assert_eq!(step, Step::Do(Action::ReadIo));
    let (_, step) = op.next::<u32>(status(true, true, false), Event::Pending);
    assert_eq!(step, Step::Done(Outcome::Ready(Ok((0, 90)))));
}

#[test]
fn handshake_counts_saturate() {
    let mut round = HandshakeRound::new();
    round.phase = tls_stream::HandshakePhase::Reading;
    round.read_bytes = usize::MAX - 1;
    let (op, step) = round.next::<u32>(status(true, true, false), Event::Ready(10));
    assert_eq!(step, Step::Do(Action::ReadIo));
    assert_eq!(op.read_bytes, usize::MAX);
}

#[test]
fn handshake_passes_transport_and_decode_errors_on() {
    let (op, _) = HandshakeRound::new().next::<u32>(status(true, true, true), Event::Begin);
    let (_, step) = op.next::<u32>(status(true, true, true), Event::Failed(7));
    assert_eq!(step, Step::Done(Outcome::Ready(Err(Failure::Io(7)))));
    let (op, _) = HandshakeRound::new().next::<u32>(status(true, true, false), Event::Begin);
    let (_, step) = op.next::<u32>(status(true, true, false), Event::Decode);
    assert_eq!(step, Step::Done(Outcome::Ready(Err(Failure::Decode))));
}

#[test]
fn read_surfaces_decode_failure() {
    let (op, _) = ReadOp::new(false).next::<u32>(ESTABLISHED, Event::Begin);
    let (op, _) = op.next::<u32>(ESTABLISHED, Event::Ready(0));
    let (_, step) = op.next::<u32>(ESTABLISHED, Event::Decode);
    assert_eq!(step, Step::Done(Outcome::Ready(Err(Failure::Decode))));
}

#[test]
fn read_suspends_when_transport_not_ready() {
    let (op, _) = ReadOp::new(true).next::<u32>(ESTABLISHED, Event::Begin);
    let (op, _) = op.next::<u32>(ESTABLISHED, Event::Ready(0));
    let (_, step) = op.next::<u32>(ESTABLISHED, Event::Pending);
    assert_eq!(step, Step::Done(Outcome::Pending));
}

#[test]
fn read_finishes_handshake_first() {
    let (op, step) = ReadOp::new(false).next::<u32>(status(true, true, false), Event::Begin);
    assert_eq!(step, Step::Do(Action::ReadIo));
    let (op, step) = op.next::<u32>(status(false, true, false), Event::Ready(700));
    assert_eq!(step, Step::Do(Action::ReadIo));
    let (op, step) = op.next::<u32>(status(false, true, false), Event::Pending);
    assert_eq!(step, Step::Do(Action::ReadPlain));
    let (_, step) = op.next::<u32>(ESTABLISHED, Event::Ready(5));
    assert_eq!(step, Step::Done(Outcome::Ready(Ok(5))));
}

#[test]
fn write_of_nothing_is_done_at_once() {
    let (_, step) = WriteOp::new(0).next::<u32>(HAS_OUTPUT, Event::Begin);
    assert_eq!(step, Step::Done(Outcome::Ready(Ok(0))));
}

#[test]
fn write_offers_the_rest_after_a_drain() {
    let (op, _) = WriteOp::new(10).next::<u32>(ESTABLISHED, Event::Begin);
    let (op, step) = op.next::<u32>(HAS_OUTPUT, Event::Ready(4));
    assert_eq!(step, Step::Do(Action::WriteIo));
    let (op, step) = op.next::<u32>(ESTABLISHED, Event::Ready(50));
    assert_eq!(step, Step::Do(Action::WritePlain(4)));
    // an engine that claims more than was offered is held to the offer
    let (op, step) = op.next::<u32>(ESTABLISHED, Event::Ready(99));
    assert_eq!(step, Step::Done(Outcome::Ready(Ok(10))));
    assert_eq!(op.pos, 10);
}

#[test]
fn write_passes_transport_error_on() {
    let (op, _) = WriteOp::new(3).next::<u32>(ESTABLISHED, Event::Begin);
    let (op, _) = op.next::<u32>(HAS_OUTPUT, Event::Ready(3));
    let (_, step) = op.next::<u32>(HAS_OUTPUT, Event::Failed(5));
    assert_eq!(step, Step::Done(Outcome::Ready(Err(Failure::Io(5)))));
}

#[test]
fn flush_drains_then_flushes() {
    let stream = Stream::new();
    let (op, step) = stream.flush().next::<u32>(HAS_OUTPUT, Event::Begin);
    assert_eq!(step, Step::Do(Action::WriteIo));
    let (op, step) = op.next::<u32>(HAS_OUTPUT, Event::Ready(16));
    assert_eq!(step, Step::Do(Action::WriteIo));
    let (op, step) = op.next::<u32>(ESTABLISHED, Event::Ready(16));
    assert_eq!(step, Step::Do(Action::FlushIo));
    let (_, step) = op.next::<u32>(ESTABLISHED, Event::Ready(0));
    assert_eq!(step, Step::Done(Outcome::Ready(Ok(()))));

    let (op, _) = FlushOp::new().next::<u32>(HAS_OUTPUT, Event::Begin);
    let (_, step) = op.next::<u32>(HAS_OUTPUT, Event::Pending);
    assert_eq!(step, Step::Done(Outcome::Pending));
    let (op, _) = FlushOp::new().next::<u32>(ESTABLISHED, Event::Begin);
    let (_, step) = op.next::<u32>(ESTABLISHED, Event::Failed(2));
    assert_eq!(step, Step::Done(Outcome::Ready(Err(Failure::Io(2)))));
}

#[test]
fn strictness_setter_keeps_other_state() {
    let mut stream = Stream::new();
    stream.set_eof_strictness(true);
    assert!(stream.eof_is_error);
    assert!(!stream.close_sent);
    assert_eq!(stream.read(), ReadOp::new(true));
}

#[test]
fn read_runs_further_rounds_while_handshaking() {
    let (op, step) = Stream::new().read().next::<u32>(status(true, true, true), Event::Begin);
    assert_eq!(step, Step::Do(Action::WriteIo));
    let (op, step) = op.next::<u32>(status(true, true, false), Event::Ready(100));
    assert_eq!(step, Step::Do(Action::FlushIo));
    let (op, step) = op.next::<u32>(status(true, true, false), Event::Ready(0));
    assert_eq!(step, Step::Do(Action::ReadIo));
    // the peer's flight arrived and the engine has its answer queued
    let (op, step) = op.next::<u32>(status(true, false, true), Event::Ready(900));
    assert_eq!(step, Step::Do(Action::ReadIo));
    let (op, step) = op.next::<u32>(status(true, false, true), Event::Pending);
    assert_eq!(step, Step::Do(Action::WriteIo));
    let (op, step) = op.next::<u32>(status(false, true, false), Event::Ready(80));
    assert_eq!(step, Step::Do(Action::FlushIo));
    let (op, step) = op.next::<u32>(status(false, true, false), Event::Ready(0));
    assert_eq!(step, Step::Do(Action::ReadIo));
    let (_, step) = op.next::<u32>(status(false, true, false), Event::Pending);
    assert_eq!(step, Step::Do(Action::ReadPlain));
}

#[test]
fn write_suspends_when_handshake_cannot_move() {
    let (op, step) = Stream::new().write(5).next::<u32>(status(true, true, true), Event::Begin);
    assert_eq!(step, Step::Do(Action::WriteIo));
    let (op, step) = op.next::<u32>(status(true, true, true), Event::Pending);
    assert_eq!(step, Step::Do(Action::ReadIo));
    let (_, step) = op.next::<u32>(status(true, true, true), Event::Pending);
    assert_eq!(step, Step::Done(Outcome::Pending));
}

#[test]
fn handshake_round_reads_while_negotiating() {
    let (op, step) = HandshakeRound::new().next::<u32>(status(true, false, false), Event::Begin);
    assert_eq!(step, Step::Do(Action::ReadIo));
    let (_, step) = op.next::<u32>(status(true, false, false), Event::Pending);
    assert_eq!(step, Step::Done(Outcome::Pending));
}

#[test]
fn write_ends_when_engine_takes_nothing_and_holds_nothing() {
    let (op, step) = WriteOp::new(4).next::<u32>(ESTABLISHED, Event::Begin);
    assert_eq!(step, Step::Do(Action::WritePlain(0)));
    let (_, step) = op.next::<u32>(ESTABLISHED, Event::Ready(0));
    assert_eq!(step, Step::Done(Outcome::Ready(Ok(0))));
}

#[test]
fn drive_runs_rounds_then_drains() {
    let stream = Stream::new();
    let op = stream.complete_handshake();
    assert_eq!(op, HandshakeDrive::new());
    let (op, step) = op.next::<u32>(status(true, true, true), Event::Begin);
    assert_eq!(step, Step::Do(Action::WriteIo));
    let (op, step) = op.next::<u32>(status(true, true, false), Event::Ready(300));
    assert_eq!(step, Step::Do(Action::FlushIo));
    let (op, step) = op.next::<u32>(status(true, true, false), Event::Ready(0));
    assert_eq!(step, Step::Do(Action::ReadIo));
    // the peer's flight completes the negotiation; the answer is queued
    let (op, step) = op.next::<u32>(status(false, true, true), Event::Ready(2000));
    assert_eq!(step, Step::Do(Action::ReadIo));
    let (op, step) = op.next::<u32>(status(false, true, true), Event::Pending);
    assert_eq!(step, Step::Do(Action::WriteIo));
    let (op, step) = op.next::<u32>(status(false, true, true), Event::Ready(64));
    assert_eq!(step, Step::Do(Action::WriteIo));
    let (_, step) = op.next::<u32>(status(false, true, false), Event::Ready(10));
    assert_eq!(step, Step::Done(Outcome::Ready(Ok(()))));
}

#[test]
fn drive_starts_another_round_after_progress() {
    let (op, _) = HandshakeDrive::new().next::<u32>(status(true, true, true), Event::Begin);
    let (op, step) = op.next::<u32>(status(true, true, false), Event::Ready(300));
    assert_eq!(step, Step::Do(Action::FlushIo));
    let (op, step) = op.next::<u32>(status(true, true, false), Event::Pending);
    assert_eq!(step, Step::Do(Action::ReadIo));
    // round reports (0, 300); the engine still negotiates, so a new round begins
    let (op, step) = op.next::<u32>(status(true, true, false), Event::Pending);
    assert_eq!(step, Step::Do(Action::ReadIo));
    let (_, step) = op.next::<u32>(status(true, true, false), Event::Pending);
    assert_eq!(step, Step::Done(Outcome::Pending));
}

#[test]
fn drive_fails_on_transport_eof_and_passes_errors_on() {
    let (op, step) = HandshakeDrive::new().next::<u32>(status(true, true, false), Event::Begin);
    assert_eq!(step, Step::Do(Action::ReadIo));
    let (_, step) = op.next::<u32>(status(true, true, false), Event::Ready(0));
    assert_eq!(step, Step::Done(Outcome::Ready(Err(Failure::UnexpectedEof))));

    let (op, step) = HandshakeDrive::new().next::<u32>(status(false, true, true), Event::Begin);
    assert_eq!(step, Step::Do(Action::WriteIo));
    let (_, step) = op.next::<u32>(status(false, true, true), Event::Failed(9));
    assert_eq!(step, Step::Done(Outcome::Ready(Err(Failure::Io(9)))));
    let (op, _) = HandshakeDrive::new().next::<u32>(status(false, true, true), Event::Begin);
    let (_, step) = op.next::<u32>(status(false, true, true), Event::Pending);
    assert_eq!(step, Step::Done(Outcome::Pending));
}

#[test]
fn round_after_negotiation_sends_last_flight() {
    // the engine finished negotiating but still holds its last handshake flight
    let (op, step) = HandshakeRound::new().next::<u32>(status(false, true, true), Event::Begin);
    assert_eq!(step, Step::Do(Action::WriteIo));
    let (op, step) = op.next::<u32>(status(false, true, false), Event::Ready(74));
    assert_eq!(step, Step::Do(Action::FlushIo));
    let (op, step) = op.next::<u32>(status(false, true, false), Event::Ready(0));
    assert_eq!(step, Step::Do(Action::ReadIo));
    let (_, step) = op.next::<u32>(status(false, true, false), Event::Pending);
    assert_eq!(step, Step::Done(Outcome::Ready(Ok((0, 74)))));
    // with nothing left to send, the next round is a no-op
    let (_, step) = HandshakeRound::new().next::<u32>(status(false, true, false), Event::Begin);
    assert_eq!(step, Step::Done(Outcome::Ready(Ok((0, 0)))));
}

#[test]
fn round_with_swallowing_transport_fails_at_end_of_stream() {
    // a transport that takes every write and is at end of stream
    let (op, step) = HandshakeRound::new().next::<u32>(status(true, true, true), Event::Begin);
    assert_eq!(step, Step::Do(Action::WriteIo));
    let (op, step) = op.next::<u32>(status(true, true, false), Event::Ready(512));
    assert_eq!(step, Step::Do(Action::FlushIo));
    let (op, step) = op.next::<u32>(status(true, true, false), Event::Ready(0));
    assert_eq!(step, Step::Do(Action::ReadIo));
    let (op, step) = op.next::<u32>(status(true, true, false), Event::Ready(0));
    assert_eq!(step, Step::Done(Outcome::Ready(Err(Failure::UnexpectedEof))));
    assert!(op.eof);
}
