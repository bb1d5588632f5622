use vstd::prelude::*;
use crate::codec::{decode_exact, encode, frame_of, wire_of};
use crate::errors::{ErrorKind, TransportError};
use crate::frame::Frame;

verus! {

/// What a successful receive produced.
#[derive(Clone, Copy, Debug, PartialEq, Eq, Structural)]
pub enum ReceiveOutcome {
    /// A full frame was decoded into the caller's buffer.
    Filled,
    /// No data this period: nothing had arrived yet, or the listener is still
    /// waiting for a peer. The caller treats the period as silent, not as an
    /// error.
    Pending,
}

/// A peer-fixed datagram transport for one logical channel.
///
/// The socket itself lives outside the verified core. This type fixes the
/// wire discipline: what the one datagram of a send holds, and how a received
/// datagram is judged before any sample is decoded.
pub struct Udp {
    /// Samples per frame (the configured period length).
    pub n: usize,
    /// The logical channel this transport serves, named in its errors.
    pub channel: usize,
}

impl Udp {
    /// The frame length is small enough that a wire frame fits in memory.
    pub open spec fn wf(&self) -> bool {
        4 * self.n <= usize::MAX
    }

    pub fn new(n: usize, channel: usize) -> (t: Udp)
        requires
            4 * n <= usize::MAX,
        ensures
            t.wf(),
            t.n == n,
            t.channel == channel,
    {
        Udp { n, channel }
    }

    /// The single datagram one send emits: exactly one wire frame, 4·N bytes.
    pub fn send(&self, frame: &Frame) -> (d: Vec<u8>)
        requires
            frame@.len() == self.n,
        ensures
            d@ == wire_of(frame@),
            d@.len() == 4 * self.n,
    {
        encode(frame)
    }

    /// Judge one received datagram and, only if its byte count is exactly
    /// 4·N, decode it into `out`.
    ///
    /// A short datagram fails with `ShortRead` and an oversized one with
    /// `Oversized`; in either case `out` is untouched — a wrong-sized
    /// datagram never reaches the decoder.
    pub fn receive(&self, datagram: &Vec<u8>, out: &mut Frame) -> (r: Result<
        ReceiveOutcome,
        TransportError,
    >)
        requires
            self.wf(),
        ensures
            r is Ok <==> datagram@.len() == 4 * self.n,
            datagram@.len() == 4 * self.n ==> r == Ok::<_, TransportError>(ReceiveOutcome::Filled)
                && final(out)@ == frame_of(datagram@) && final(out)@.len() == self.n,
            datagram@.len() < 4 * self.n ==> r == Err::<ReceiveOutcome, _>(
                TransportError { kind: ErrorKind::ShortRead, channel: self.channel },
            ) && *final(out) == *old(out),
            datagram@.len() > 4 * self.n ==> r == Err::<ReceiveOutcome, _>(
                TransportError { kind: ErrorKind::Oversized, channel: self.channel },
            ) && *final(out) == *old(out),
    {
        let want: usize = 4 * self.n;
        let got: usize = datagram.len();
        if got < want {
            Err(TransportError { kind: ErrorKind::ShortRead, channel: self.channel })
        } else if got > want {
            Err(TransportError { kind: ErrorKind::Oversized, channel: self.channel })
        } else {
            *out = decode_exact(datagram);
            Ok(ReceiveOutcome::Filled)
        }
    }
}

/// The two states of a stream transport. The transition is one-shot and
/// irreversible: once connected, always connected.
#[derive(Clone, Copy, Debug, PartialEq, Eq, Structural)]
pub enum TcpState {
    /// Bound and waiting; no peer has been accepted yet.
    Listening,
    /// A peer was accepted (or dialled); bytes flow.
    Connected,
}

/// What the socket layer observed, handed to `Tcp::receive` to drive the
/// state machine one step.
#[derive(Clone, Debug, PartialEq, Eq)]
pub enum TcpEvent {
    /// A pending connection was accepted.
    Accepted,
    /// The accept poll came back empty: no peer is waiting.
    NoPending,
    /// A chunk of stream bytes arrived — at most the rest of the current
    /// wire frame, since the reader asks for no more than `bytes_needed`.
    Bytes(Vec<u8>),
    /// The peer closed the stream (a read returned zero bytes).
    Closed,
    /// The socket operation itself failed.
    IoError,
}

/// A stream transport for one logical channel.
///
/// A stream delivers bytes with no framing of its own, so a wire frame may
/// arrive split across any number of reads. The machine accumulates arrivals
/// in `pending` and yields a frame exactly when 4·N bytes are in hand.
pub struct Tcp {
    /// Samples per frame (the configured period length).
    pub n: usize,
    /// The logical channel this transport serves, named in its errors.
    pub channel: usize,
    /// Listening or connected; `Connected` is terminal.
    pub state: TcpState,
    /// What has arrived so far of the wire frame in flight.
    pub pending: Vec<u8>,
}

impl Tcp {
    /// The error this transport reports for a failure of the given kind.
    pub open spec fn err_of(self, kind: ErrorKind) -> TransportError {
        TransportError { kind, channel: self.channel }
    }

    pub open spec fn wf(&self) -> bool {
        &&& 4 * self.n <= usize::MAX
        &&& self.pending@.len() <= 4 * self.n
        &&& self.state is Listening ==> self.pending@.len() == 0
    }

    /// A transport still waiting for a peer (the listener role).
    pub fn listener(n: usize, channel: usize) -> (t: Tcp)
        requires
            4 * n <= usize::MAX,
        ensures
            t.wf(),
            t.n == n,
            t.channel == channel,
            t.state is Listening,
            t.pending@.len() == 0,
    {
        Tcp { n, channel, state: TcpState::Listening, pending: Vec::new() }
    }

    /// A transport whose stream is already established (the connector role).
    pub fn connected(n: usize, channel: usize) -> (t: Tcp)
        requires
            4 * n <= usize::MAX,
        ensures
            t.wf(),
            t.n == n,
            t.channel == channel,
            t.state is Connected,
            t.pending@.len() == 0,
    {
        Tcp { n, channel, state: TcpState::Connected, pending: Vec::new() }
    }

    /// How many bytes of the current wire frame the stream still owes. The
    /// socket layer reads at most this many bytes at a time, so a read can
    /// never run into the next frame.
    pub fn bytes_needed(&self) -> (r: usize)
        requires
            self.wf(),
        ensures
            r == 4 * self.n - self.pending@.len(),
    {
        4 * self.n - self.pending.len()
    }

    /// The bytes one send must write in full: exactly one wire frame. The
    /// stream may take them in several underlying writes; the socket layer
    /// loops until all are written or the connection fails.
    ///
    /// Sending is legal only once connected; the listener refuses with
    /// `InvalidState`.
    pub fn send(&self, frame: &Frame) -> (r: Result<Vec<u8>, TransportError>)
        requires
            frame@.len() == self.n,
        ensures
            r is Ok <==> self.state is Connected,
            r matches Ok(d) ==> d@ == wire_of(frame@) && d@.len() == 4 * self.n,
            r matches Err(e) ==> e == (TransportError {
                kind: ErrorKind::InvalidState,
                channel: self.channel,
            }),
    {
        match self.state {
            TcpState::Listening => Err(
                TransportError { kind: ErrorKind::InvalidState, channel: self.channel },
            ),
            TcpState::Connected => Ok(encode(frame)),
        }
    }

    /// Drive the machine one observation forward.
    ///
    /// Listening: an accepted peer makes the transport connected and the call
    /// itself reports `Pending` — that period carries no data. An empty poll
    /// reports `Pending` at once, never an error and never a wait.
    ///
    /// Connected: arrived bytes accumulate; the call reports `Filled` and
    /// decodes into `out` exactly when the accumulated bytes reach 4·N, so a
    /// frame split across any number of arrivals is reassembled intact. A
    /// peer close before that fails with `ConnectionClosed`.
    ///
    /// Events that do not belong to the current state fail with
    /// `InvalidState`; a socket failure is reported as `IoFailure`. No
    /// outcome ever leaves `Connected`, and `out` is written only on
    /// `Filled`.
    pub fn receive(&mut self, event: TcpEvent, out: &mut Frame) -> (r: Result<
        ReceiveOutcome,
        TransportError,
    >)
        requires
            old(self).wf(),
            event matches TcpEvent::Bytes(c) ==> (old(self).state is Connected
                ==> old(self).pending@.len() + c@.len() <= 4 * old(self).n),
        ensures
            final(self).wf(),
            final(self).n == old(self).n,
            final(self).channel == old(self).channel,
            old(self).state is Connected ==> final(self).state is Connected,
            old(self).state is Listening && event is Accepted
                ==> final(self).state is Connected && final(self).pending@ == old(self).pending@
                    && r == Ok::<_, TransportError>(ReceiveOutcome::Pending)
                    && *final(out) == *old(out),
            old(self).state is Listening && event is NoPending
                ==> *final(self) == *old(self)
                    && r == Ok::<_, TransportError>(ReceiveOutcome::Pending)
                    && *final(out) == *old(out),
            old(self).state is Listening && (event is Bytes || event is Closed)
                ==> *final(self) == *old(self)
                    && r == Err::<ReceiveOutcome, _>(old(self).err_of(ErrorKind::InvalidState))
                    && *final(out) == *old(out),
            old(self).state is Connected && (event is Accepted || event is NoPending)
                ==> *final(self) == *old(self)
                    && r == Err::<ReceiveOutcome, _>(old(self).err_of(ErrorKind::InvalidState))
                    && *final(out) == *old(out),
            event is IoError
                ==> *final(self) == *old(self)
                    && r == Err::<ReceiveOutcome, _>(old(self).err_of(ErrorKind::IoFailure))
                    && *final(out) == *old(out),
            old(self).state is Connected && event is Closed
                ==> *final(self) == *old(self)
                    && r == Err::<ReceiveOutcome, _>(old(self).err_of(ErrorKind::ConnectionClosed))
                    && *final(out) == *old(out),
            event matches TcpEvent::Bytes(c) ==> ((old(self).state is Connected
                && old(self).pending@.len() + c@.len() < 4 * old(self).n)
                ==> final(self).pending@ == old(self).pending@ + c@
                    && r == Ok::<_, TransportError>(ReceiveOutcome::Pending)
                    && *final(out) == *old(out)),
            event matches TcpEvent::Bytes(c) ==> ((old(self).state is Connected
                && old(self).pending@.len() + c@.len() == 4 * old(self).n)
                ==> final(self).pending@.len() == 0
                    && r == Ok::<_, TransportError>(ReceiveOutcome::Filled)
                    && final(out)@ == frame_of(old(self).pending@ + c@)
                    && final(out)@.len() == old(self).n),
    {
        match event {
            TcpEvent::IoError => Err(
                TransportError { kind: ErrorKind::IoFailure, channel: self.channel },
            ),
            TcpEvent::Accepted => {
                match self.state {
                    TcpState::Listening => {
                        self.state = TcpState::Connected;
                        Ok(ReceiveOutcome::Pending)
                    },
                    TcpState::Connected => Err(
                        TransportError { kind: ErrorKind::InvalidState, channel: self.channel },
                    ),
                }
            },
            TcpEvent::NoPending => {
                match self.state {
                    TcpState::Listening => Ok(ReceiveOutcome::Pending),
                    TcpState::Connected => Err(
                        TransportError { kind: ErrorKind::InvalidState, channel: self.channel },
                    ),
                }
            },
            TcpEvent::Closed => {
                match self.state {
                    TcpState::Listening => Err(
                        TransportError { kind: ErrorKind::InvalidState, channel: self.channel },
                    ),
                    TcpState::Connected => Err(
                        TransportError { kind: ErrorKind::ConnectionClosed, channel: self.channel },
                    ),
                }
            },
            TcpEvent::Bytes(c) => {
                match self.state {
                    TcpState::Listening => Err(
                        TransportError { kind: ErrorKind::InvalidState, channel: self.channel },
                    ),
                    TcpState::Connected => {
                        let ghost old_pending = self.pending@;
                        let mut k: usize = 0;
                        while k < c.len()
                            invariant
                                k <= c@.len(),
                                old_pending.len() + c@.len() <= 4 * self.n,
                                4 * self.n <= usize::MAX,
                                self.pending@ == old_pending + c@.subrange(0, k as int),
                                self.n == old(self).n,
                                self.channel == old(self).channel,
                                self.state == old(self).state,
                            decreases c@.len() - k,
                        {
                            self.pending.push(c[k]);
                            proof {
                                assert(self.pending@ =~= old_pending + c@.subrange(
                                    0,
                                    k as int + 1,
                                ));
                            }
                            k = k + 1;
                        }
                        proof {
                            assert(c@.subrange(0, c@.len() as int) =~= c@);
                            assert(self.pending@ == old_pending + c@);
                        }
                        if self.pending.len() == 4 * self.n {
                            proof {
                                assert(self.pending@.len() % 4 == 0);
                            }
                            *out = decode_exact(&self.pending);
                            self.pending = Vec::new();
                            Ok(ReceiveOutcome::Filled)
                        } else {
                            Ok(ReceiveOutcome::Pending)
                        }
                    },
                }
            },
        }
    }
}

} // verus!
