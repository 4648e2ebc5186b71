use vstd::prelude::*;

verus! {

/// What the engine reports of itself, read by the driver just before a step.
#[derive(Clone, Copy, Debug, PartialEq, Eq, Structural)]
pub struct EngineStatus {
    /// The engine is still negotiating: no application data flows yet.
    pub handshaking: bool,
    /// The engine would consume more ciphertext.
    pub wants_read: bool,
    /// The engine holds ciphertext that has not reached the transport.
    pub wants_write: bool,
}

/// One piece of work that a machine asks the driver to do.
#[derive(Clone, Copy, Debug, PartialEq, Eq, Structural)]
pub enum Action {
    /// Let the engine produce ciphertext and try to write it to the transport.
    /// Answered by `Ready(n)` (bytes the transport took), `Pending` or `Failed`.
    WriteIo,
    /// Flush the transport. Answered by `Ready(_)`, `Pending` or `Failed`.
    FlushIo,
    /// Read ciphertext from the transport, feed it to the engine and let the
    /// engine decode it. Answered by `Ready(n)` (`n == 0`: end of stream),
    /// `Pending`, `Decode` or `Failed`.
    ReadIo,
    /// Copy decoded plaintext out of the engine into the caller's buffer.
    /// Answered by `Ready(n)` (`n == 0`: nothing decoded yet), `Closed` (the
    /// peer's close notification was seen) or `Failed`.
    ReadPlain,
    /// Offer the caller's bytes from this offset on to the engine's writer.
    /// Answered by `Ready(n)` (bytes the engine accepted) or `Failed`.
    WritePlain(usize),
    /// Ask the engine to queue its close notification.
    SendCloseNotify,
    /// Shut down the transport's write half. Answered like `FlushIo`.
    ShutdownIo,
}

/// What came of the last action, or `Begin` before the first one.
#[derive(Debug, PartialEq, Eq)]
pub enum Event<E> {
    Begin,
    Ready(usize),
    Pending,
    Failed(E),
    Decode,
    Closed,
}

/// Why an operation failed.
#[derive(Debug, PartialEq, Eq)]
pub enum Failure<E> {
    /// The transport's own error, handed on unchanged.
    Io(E),
    /// The engine rejected ciphertext it received.
    Decode,
    /// The transport closed before the engine could end the session.
    UnexpectedEof,
}

/// How one poll of an operation ends.
#[derive(Debug, PartialEq, Eq)]
pub enum Outcome<T, E> {
    Ready(Result<T, Failure<E>>),
    /// The transport is not ready: poll the operation again later.
    Pending,
}

/// What a machine answers to an event: more work, or the end of the poll.
#[derive(Debug, PartialEq, Eq)]
pub enum Step<T, E> {
    Do(Action),
    Done(Outcome<T, E>),
}

/// The failure that an event carries, if it reports one.
pub open spec fn event_failure<E>(ev: Event<E>) -> Option<Failure<E>> {
    match ev {
        Event::Failed(e) => Some(Failure::Io(e)),
        Event::Decode => Some(Failure::Decode),
        _ => None,
    }
}

/// Ends the poll with the failure that `ev` reports.
pub fn fail_with<T, E>(ev: Event<E>) -> (r: Step<T, E>)
    requires
        event_failure(ev) is Some,
    ensures
        r == Step::<T, E>::Done(Outcome::Ready(Err(event_failure(ev).unwrap()))),
{
    match ev {
        Event::Failed(e) => Step::Done(Outcome::Ready(Err(Failure::Io(e)))),
        _ => Step::Done(Outcome::Ready(Err(Failure::Decode))),
    }
}

} // verus!
