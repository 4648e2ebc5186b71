use vstd::prelude::*;
use crate::drive::HandshakeDrive;
use crate::flush::{FlushOp, ShutdownOp};
use crate::handshake::HandshakeRound;
use crate::read::ReadOp;
use crate::write::WriteOp;

verus! {

/// What a stream keeps between operations. The engine and the transport are
/// the driver's; all buffering is theirs. Each operation hands out the machine
/// for one poll of it; a poll that ended `Pending` is retried with a new one.
#[derive(Clone, Copy, Debug, PartialEq, Eq, Structural)]
pub struct Stream {
    /// A clean transport close that the peer did not announce is an error.
    pub eof_is_error: bool,
    /// The close notification was already handed to the engine.
    pub close_sent: bool,
}

impl Stream {
    pub fn new() -> (r: Self)
        ensures
            !r.eof_is_error,
            !r.close_sent,
    {
        Stream { eof_is_error: false, close_sent: false }
    }

    /// The same stream with strict end-of-stream handling on or off.
    pub fn with_eof_strictness(self, strict: bool) -> (r: Self)
        ensures
            r == (Stream { eof_is_error: strict, ..self }),
    {
        Stream { eof_is_error: strict, ..self }
    }

    pub fn set_eof_strictness(&mut self, strict: bool)
        ensures
            *final(self) == (Stream { eof_is_error: strict, ..*old(self) }),
    {
        self.eof_is_error = strict;
    }

    /// One round of handshake progress.
    pub fn handshake(&self) -> (r: HandshakeRound)
        ensures
            r == HandshakeRound::start(),
    {
        HandshakeRound::new()
    }

    /// One poll of a whole handshake, driven until the engine neither
    /// negotiates nor holds ciphertext.
    pub fn complete_handshake(&self) -> (r: HandshakeDrive)
        ensures
            r == HandshakeDrive::start(),
    {
        HandshakeDrive::new()
    }

    /// One poll of an application read.
    pub fn read(&self) -> (r: ReadOp)
        ensures
            r == ReadOp::start(self.eof_is_error),
    {
        ReadOp::new(self.eof_is_error)
    }

    /// One poll of an application write of `len` bytes.
    pub fn write(&self, len: usize) -> (r: WriteOp)
        ensures
            r == WriteOp::start(len),
            r.wf(),
    {
        WriteOp::new(len)
    }

    /// One poll of a flush.
    pub fn flush(&self) -> (r: FlushOp)
        ensures
            r == FlushOp::start(),
    {
        FlushOp::new()
    }

    /// One poll of a shutdown. The close notification is queued by the first
    /// shutdown poll of the stream only.
    pub fn shutdown(&mut self) -> (r: ShutdownOp)
        ensures
            r == ShutdownOp::start(!old(self).close_sent),
            *final(self) == (Stream { close_sent: true, ..*old(self) }),
    {
        let notify = !self.close_sent;
        self.close_sent = true;
        ShutdownOp::new(notify)
    }
}

} // verus!
