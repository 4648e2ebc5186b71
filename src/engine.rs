//! The engine's side of the actions, on a rustls connection: its predicates,
//! plaintext in and out, decoding of received records and the close
//! notification. Moving ciphertext to and from the transport needs the
//! transport's poll context and stays with the driver.
use vstd::prelude::*;
use vstd::slice::slice_subrange;
use crate::event::{EngineStatus, Event};

verus! {

#[verifier::external_type_specification]
#[verifier::external_body]
pub struct ExConnection(rustls::Connection);

#[verifier::external_type_specification]
#[verifier::external_body]
pub struct ExTlsError(rustls::Error);

#[verifier::external_type_specification]
#[verifier::external_body]
pub struct ExIoError(std::io::Error);

/// Whether the connection still negotiates (rustls's `is_handshaking`).
pub uninterp spec fn negotiating(c: rustls::Connection) -> bool;

/// Whether the connection would consume more ciphertext (rustls's `wants_read`).
pub uninterp spec fn wants_input(c: rustls::Connection) -> bool;

/// Whether the connection holds ciphertext to send (rustls's `wants_write`).
pub uninterp spec fn holds_output(c: rustls::Connection) -> bool;

/// Relies on rustls's `CommonState::is_handshaking`, which reads the
/// connection's own flags only.
#[verifier::external_body]
fn is_handshaking(conn: &rustls::Connection) -> (r: bool)
    ensures
        r == negotiating(*conn),
{
    conn.is_handshaking()
}

/// Relies on rustls's `CommonState::wants_read`, which reads the
/// connection's own state only.
#[verifier::external_body]
fn wants_read(conn: &rustls::Connection) -> (r: bool)
    ensures
        r == wants_input(*conn),
{
    conn.wants_read()
}

/// Relies on rustls's `CommonState::wants_write`: whether its queue of
/// ciphertext to send is non-empty.
#[verifier::external_body]
fn wants_write(conn: &rustls::Connection) -> (r: bool)
    ensures
        r == holds_output(*conn),
{
    conn.wants_write()
}

/// Relies on rustls's `Writer::write`, which hands the bytes to
/// `send_some_plaintext`: it never fails and accepts at most the bytes it is
/// offered (the free room of the send buffer, when that has a limit).
#[verifier::external_body]
fn writer_write(conn: &mut rustls::Connection, buf: &[u8]) -> (r: Result<usize, std::io::Error>)
    ensures
        r is Ok,
        r->Ok_0 <= buf@.len(),
{
    std::io::Write::write(&mut conn.writer(), buf)
}

/// Relies on rustls's `Reader::read` (an `io::Read`): it fills at most the
/// buffer it is given.
#[verifier::external_body]
fn reader_read(conn: &mut rustls::Connection, buf: &mut [u8]) -> (r: Result<usize, std::io::Error>)
    ensures
        final(buf)@.len() == old(buf)@.len(),
        r is Ok ==> r->Ok_0 <= old(buf)@.len(),
{
    std::io::Read::read(&mut conn.reader(), buf)
}

/// The kinds of reader error that the read machine tells apart.
#[derive(Clone, Copy, Debug, PartialEq, Eq, Structural)]
pub enum ReaderErrorKind {
    /// No plaintext is decoded yet.
    WouldBlock,
    /// The transport closed without a close notification from the peer.
    UnexpectedEof,
    Other,
}

/// Relies on `io::Error::kind`, read one kind for one variant.
#[verifier::external_body]
fn reader_error_kind(err: &std::io::Error) -> ReaderErrorKind {
    match err.kind() {
        std::io::ErrorKind::WouldBlock => ReaderErrorKind::WouldBlock,
        std::io::ErrorKind::UnexpectedEof => ReaderErrorKind::UnexpectedEof,
        _ => ReaderErrorKind::Other,
    }
}

/// Relies on rustls's `Connection::process_new_packets`, which decodes the
/// ciphertext received so far; its state report is dropped.
#[verifier::external_body]
fn process_new_packets(conn: &mut rustls::Connection) -> Result<(), rustls::Error> {
    conn.process_new_packets().map(|_| ())
}

/// Relies on rustls's `CommonState::send_close_notify`, which queues the
/// close notification as ciphertext.
#[verifier::external_body]
fn send_close_notify(conn: &mut rustls::Connection) {
    conn.send_close_notify()
}

/// The engine's predicates as a machine reads them.
pub fn engine_status(conn: &rustls::Connection) -> (r: EngineStatus)
    ensures
        r.handshaking == negotiating(*conn),
        r.wants_read == wants_input(*conn),
        r.wants_write == holds_output(*conn),
{
    EngineStatus {
        handshaking: is_handshaking(conn),
        wants_read: wants_read(conn),
        wants_write: wants_write(conn),
    }
}

/// Performs `WritePlain(offset)`: offers `buf` from `offset` on to the
/// engine. Answers with the bytes accepted, never more than were offered.
pub fn offer_plaintext(conn: &mut rustls::Connection, buf: &[u8], offset: usize) -> (r: Event<std::io::Error>)
    requires
        offset <= buf@.len(),
    ensures
        r is Ready,
        r->Ready_0 <= buf@.len() - offset,
        offset == buf@.len() ==> r == Event::<std::io::Error>::Ready(0),
{
    let rest = slice_subrange(buf, offset, buf.len());
    match writer_write(conn, rest) {
        Ok(n) => Event::Ready(n),
        Err(e) => Event::Failed(e),
    }
}

/// What a reader result means to the read machine, with `room` the length
/// of the buffer it filled.
pub open spec fn spec_plaintext_event<E>(res: Result<usize, (ReaderErrorKind, E)>, room: nat) -> Event<E> {
    match res {
        Ok(n) => if n == 0 && room > 0 {
            Event::Closed
        } else {
            Event::Ready(n)
        },
        Err((kind, e)) => match kind {
            ReaderErrorKind::Other => Event::Failed(e),
            _ => Event::Ready(0),
        },
    }
}

/// Turns a reader result into the answer to `ReadPlain`: the bytes copied;
/// `0` when nothing is decoded yet, or when only a bare transport close was
/// seen (whether that is an error is the read machine's decision); `Closed`
/// when an empty read of a non-empty buffer marks the peer's close
/// notification; the reader's other errors as they are.
pub fn plaintext_event<E>(res: Result<usize, (ReaderErrorKind, E)>, room: usize) -> (r: Event<E>)
    ensures
        r == spec_plaintext_event(res, room as nat),
{
    match res {
        Ok(n) => {
            if n == 0 && room > 0 {
                Event::Closed
            } else {
                Event::Ready(n)
            }
        },
        Err((kind, e)) => match kind {
            ReaderErrorKind::Other => Event::Failed(e),
            _ => Event::Ready(0),
        },
    }
}

/// Performs `ReadPlain`: copies decoded plaintext into `buf` and answers as
/// `plaintext_event` says of the reader's result.
pub fn read_plaintext(conn: &mut rustls::Connection, buf: &mut [u8]) -> (r: Event<std::io::Error>)
    ensures
        final(buf)@.len() == old(buf)@.len(),
        exists|res: Result<usize, (ReaderErrorKind, std::io::Error)>|
            (res is Ok ==> res->Ok_0 <= old(buf)@.len()) && r == spec_plaintext_event(res, old(buf)@.len()),
{
    let room = buf.len();
    let res = match reader_read(conn, buf) {
        Ok(n) => Ok(n),
        Err(e) => {
            let kind = reader_error_kind(&e);
            Err((kind, e))
        },
    };
    let ghost res_view = res;
    let r = plaintext_event(res, room);
    assert((res_view is Ok ==> res_view->Ok_0 <= room) && r == spec_plaintext_event(res_view, room as nat));
    r
}

/// Finishes `ReadIo` once the transport handed the engine `received` bytes:
/// end of stream (`received == 0`) is answered as such; otherwise the engine
/// decodes, and the answer is `Ready(received)` or `Decode`.
pub fn decode_received<E>(conn: &mut rustls::Connection, received: usize) -> (r: Event<E>)
    ensures
        received == 0 ==> r == Event::<E>::Ready(0),
        r is Ready || r is Decode,
        r is Ready ==> r->Ready_0 == received,
{
    if received == 0 {
        return Event::Ready(0);
    }
    match process_new_packets(conn) {
        Ok(()) => Event::Ready(received),
        Err(_) => Event::Decode,
    }
}

/// Performs `SendCloseNotify`.
pub fn queue_close_notification<E>(conn: &mut rustls::Connection) -> (r: Event<E>)
    ensures
        r == Event::<E>::Ready(0),
{
    send_close_notify(conn);
    Event::Ready(0)
}

} // verus!
