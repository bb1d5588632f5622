use vstd::prelude::*;

verus! {

/// Why a transport operation failed.
#[derive(Clone, Copy, Debug, PartialEq, Eq, Structural)]
pub enum ErrorKind {
    /// A datagram arrived with fewer bytes than one wire frame.
    ShortRead,
    /// A datagram arrived with more bytes than one wire frame.
    Oversized,
    /// The peer closed the stream before a full wire frame had arrived.
    ConnectionClosed,
    /// The operation is not legal in the transport's current state.
    InvalidState,
    /// The bounded wait for data ran out.
    Timeout,
    /// The underlying socket operation failed.
    IoFailure,
}

/// A transport failure, tagged with the logical channel it struck. Errors are
/// recorded per channel and never terminate the process.
#[derive(Clone, Copy, Debug, PartialEq, Eq, Structural)]
pub struct TransportError {
    pub kind: ErrorKind,
    pub channel: usize,
}

/// A codec failure: the byte buffer's length does not match four bytes per
/// sample. This is a programmer error, surfaced rather than tolerated.
#[derive(Clone, Copy, Debug, PartialEq, Eq, Structural)]
pub enum CodecError {
    LengthMismatch,
}

/// A diagnostic the bridge raises without treating it as a transport error.
#[derive(Clone, Copy, Debug, PartialEq, Eq, Structural)]
pub enum Diagnostic {
    /// The run flag's lock was found poisoned; the flag counts as disabled.
    LockPoisoned,
}

} // verus!
