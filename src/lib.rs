//! Poll-driven plumbing between a synchronous secure-channel engine and a
//! non-blocking byte transport.
//!
//! Every operation of the stream (handshake, read, write, flush, shutdown) is
//! a step machine: the driver performs the [`Action`] that a step asks for,
//! reads the engine's predicates, and hands the outcome back as an [`Event`],
//! until the machine is done with an [`Outcome`]. The machines decide; the
//! driver only moves bytes.

pub mod event;
pub mod handshake;
pub mod read;
pub mod write;
pub mod flush;
pub mod stream;
pub mod laws;
pub mod engine;
pub mod drive;

pub use event::{Action, EngineStatus, Event, Failure, Outcome, Step};
pub use handshake::{HandshakePhase, HandshakeRound};
pub use read::{ReadOp, ReadPhase};
pub use write::{WriteOp, WritePhase};
pub use flush::{FlushOp, FlushPhase, ShutdownOp, ShutdownPhase};
pub use stream::Stream;
pub use drive::{DrivePhase, HandshakeDrive};
