use vstd::prelude::*;
use crate::codec::{encode, wire_of};
use crate::errors::ErrorKind;
use crate::frame::{silence_seq, Frame};

verus! {

/// Which way a channel moves audio.
#[derive(Clone, Copy, Debug, PartialEq, Eq, Structural)]
pub enum Direction {
    /// Engine buffer in, network out.
    Capture,
    /// Network in, engine buffer out.
    Playback,
}

/// Per-channel bookkeeping the bridge keeps across periods. A channel's
/// transport faults are recorded here and never abort the period for the
/// other channels.
#[derive(Clone, Copy, Debug, PartialEq, Eq, Structural)]
pub struct Channel {
    pub direction: Direction,
    /// Transport failures in a row; any success clears the streak.
    pub consecutive_failures: u64,
    /// True exactly when the streak has reached the threshold.
    pub degraded: bool,
    /// How many consecutive failures mark the channel degraded.
    pub threshold: u64,
}

/// What the bridge asks the socket layer to do for one channel this period.
#[derive(Clone, Debug, PartialEq, Eq)]
pub enum TransportCall {
    /// Leave the transport alone this period.
    NoCall,
    /// Send these bytes as one wire frame.
    SendFrame(Vec<u8>),
    /// Poll the transport for one incoming frame, within the period's bounded
    /// wait — never a block past the deadline.
    PollReceive,
}

/// What the socket layer reports back for one channel at period's end.
#[derive(Clone, Debug, PartialEq, Eq)]
pub enum PeriodOutcome {
    /// No call was made: a closed run flag, or nothing to do.
    Skipped,
    /// The send went through.
    SendOk,
    /// The send failed.
    SendFailed(ErrorKind),
    /// A frame arrived and was decoded.
    Delivered(Frame),
    /// Nothing arrived within the bounded wait: pending or timed out. Not a
    /// failure — the period is silent.
    NoData,
    /// The receive failed.
    RecvFailed(ErrorKind),
}

/// An outcome that clears a channel's failure streak.
pub open spec fn is_success(oc: PeriodOutcome) -> bool {
    oc is SendOk || oc is Delivered
}

/// An outcome that lengthens a channel's failure streak.
pub open spec fn is_failure(oc: PeriodOutcome) -> bool {
    oc is SendFailed || oc is RecvFailed
}

/// The samples a playback buffer receives for one channel: the delivered
/// frame when the run flag is open and one arrived, silence otherwise —
/// never stale samples.
pub open spec fn playback_frame(gate: bool, oc: PeriodOutcome, n: nat) -> Seq<u32> {
    if gate {
        match oc {
            PeriodOutcome::Delivered(f) => f@,
            _ => silence_seq(n),
        }
    } else {
        silence_seq(n)
    }
}

/// A closed run flag means every playback buffer receives silence,
/// whatever the transport layer reported.
pub proof fn lemma_closed_gate_silence(oc: PeriodOutcome, n: nat)
    ensures
        playback_frame(false, oc, n) == silence_seq(n),
{
}

impl Channel {
    /// A fresh channel: no failures yet, not degraded.
    pub fn new(direction: Direction, threshold: u64) -> (c: Channel)
        ensures
            c == (Channel { direction, consecutive_failures: 0, degraded: false, threshold }),
    {
        Channel { direction, consecutive_failures: 0, degraded: false, threshold }
    }

    /// The channel after one period whose transport outcome was `oc`: success
    /// clears the failure streak, failure lengthens it (saturating), and the
    /// channel is degraded exactly when the streak has reached its threshold.
    /// A silent period (no call, or no data) changes nothing.
    pub open spec fn stepped(self, oc: PeriodOutcome) -> Channel {
        if is_success(oc) {
            Channel {
                direction: self.direction,
                consecutive_failures: 0,
                degraded: false,
                threshold: self.threshold,
            }
        } else if is_failure(oc) {
            let f: u64 = if self.consecutive_failures < u64::MAX {
                (self.consecutive_failures + 1) as u64
            } else {
                u64::MAX
            };
            Channel {
                direction: self.direction,
                consecutive_failures: f,
                degraded: f >= self.threshold,
                threshold: self.threshold,
            }
        } else {
            self
        }
    }

    /// Record one period's transport outcome against this channel.
    pub fn note_outcome(&mut self, oc: &PeriodOutcome)
        ensures
            *final(self) == old(self).stepped(*oc),
    {
        match oc {
            PeriodOutcome::SendOk | PeriodOutcome::Delivered(_) => {
                self.consecutive_failures = 0;
                self.degraded = false;
            },
            PeriodOutcome::SendFailed(_) | PeriodOutcome::RecvFailed(_) => {
                if self.consecutive_failures < u64::MAX {
                    self.consecutive_failures = self.consecutive_failures + 1;
                }
                self.degraded = self.consecutive_failures >= self.threshold;
            },
            PeriodOutcome::Skipped | PeriodOutcome::NoData => {},
        }
    }
}

/// The per-period orchestrator: one entry per channel, every channel's frames
/// `n` samples long. Each period it consults the run flag once, plans at
/// most one transport call per channel, and afterwards records every
/// channel's outcome independently.
pub struct Bridge {
    /// Samples per frame (the configured period length).
    pub n: usize,
    pub channels: Vec<Channel>,
}

impl Bridge {
    pub fn new(n: usize, channels: Vec<Channel>) -> (b: Bridge)
        ensures
            b.n == n,
            b.channels@ == channels@,
    {
        Bridge { n, channels }
    }

    /// Phase one of a period: given this period's one run-flag value and
    /// the engine's capture buffers (one frame per channel, used for capture
    /// channels), decide the one transport call the socket layer may make for
    /// each channel.
    ///
    /// A closed run flag plans no transport call for any channel. An open
    /// one plans each capture channel's frame, encoded, as the bytes to send,
    /// and a bounded receive poll for each playback channel.
    pub fn plan_period(&self, gate: bool, capture: &Vec<Frame>) -> (calls: Vec<TransportCall>)
        requires
            capture@.len() == self.channels@.len(),
            forall|i: int| 0 <= i < capture@.len() ==> capture@[i]@.len() == self.n,
        ensures
            calls@.len() == self.channels@.len(),
            !gate ==> forall|i: int| 0 <= i < calls@.len() ==> calls@[i] is NoCall,
            gate ==> forall|i: int|
                0 <= i < calls@.len() && self.channels@[i].direction is Capture
                    ==> (calls@[i] matches TransportCall::SendFrame(d) && d@ == wire_of(
                    capture@[i]@,
                )),
            gate ==> forall|i: int|
                0 <= i < calls@.len() && self.channels@[i].direction is Playback
                    ==> calls@[i] is PollReceive,
    {
        let mut calls: Vec<TransportCall> = Vec::new();
        let mut i: usize = 0;
        while i < self.channels.len()
            invariant
                i <= self.channels@.len(),
                calls@.len() == i,
                capture@.len() == self.channels@.len(),
                !gate ==> forall|k: int| 0 <= k < i ==> calls@[k] is NoCall,
                gate ==> forall|k: int|
                    0 <= k < i && self.channels@[k].direction is Capture
                        ==> (calls@[k] matches TransportCall::SendFrame(d) && d@ == wire_of(
                        capture@[k]@,
                    )),
                gate ==> forall|k: int|
                    0 <= k < i && self.channels@[k].direction is Playback
                        ==> calls@[k] is PollReceive,
            decreases self.channels@.len() - i,
        {
            if !gate {
                calls.push(TransportCall::NoCall);
            } else {
                match self.channels[i].direction {
                    Direction::Capture => {
                        let d: Vec<u8> = encode(&capture[i]);
                        calls.push(TransportCall::SendFrame(d));
                    },
                    Direction::Playback => {
                        calls.push(TransportCall::PollReceive);
                    },
                }
            }
            i = i + 1;
        }
        calls
    }

    /// Phase two of a period: take what the socket layer reports for each
    /// channel, record it against that channel alone, and produce the frame
    /// each engine buffer gets: the delivered frame where the run flag stood
    /// open and one arrived, silence everywhere else.
    ///
    /// Under a closed run flag nothing was called, so every channel stays
    /// untouched and every buffer gets silence.
    pub fn finish_period(&mut self, gate: bool, outcomes: &Vec<PeriodOutcome>) -> (outs: Vec<
        Frame,
    >)
        requires
            outcomes@.len() == old(self).channels@.len(),
            !gate ==> forall|i: int| 0 <= i < outcomes@.len() ==> outcomes@[i] is Skipped,
        ensures
            final(self).n == old(self).n,
            final(self).channels@.len() == old(self).channels@.len(),
            forall|i: int|
                0 <= i < outcomes@.len() ==> final(self).channels@[i] == old(
                    self,
                ).channels@[i].stepped(outcomes@[i]),
            outs@.len() == old(self).channels@.len(),
            forall|i: int|
                0 <= i < outs@.len() ==> outs@[i]@ == playback_frame(
                    gate,
                    outcomes@[i],
                    old(self).n as nat,
                ),
            !gate ==> forall|i: int|
                0 <= i < outs@.len() ==> outs@[i]@ == silence_seq(old(self).n as nat)
                    && final(self).channels@[i] == old(self).channels@[i],
    {
        let len: usize = self.channels.len();
        let mut new_channels: Vec<Channel> = Vec::new();
        let mut outs: Vec<Frame> = Vec::new();
        let mut i: usize = 0;
        while i < len
            invariant
                len == old(self).channels@.len(),
                self.n == old(self).n,
                self.channels@ == old(self).channels@,
                outcomes@.len() == len,
                i <= len,
                new_channels@.len() == i,
                outs@.len() == i,
                forall|k: int|
                    0 <= k < i ==> new_channels@[k] == old(self).channels@[k].stepped(
                        outcomes@[k],
                    ),
                forall|k: int|
                    0 <= k < i ==> outs@[k]@ == playback_frame(
                        gate,
                        outcomes@[k],
                        old(self).n as nat,
                    ),
            decreases len - i,
        {
            let mut ch: Channel = self.channels[i];
            ch.note_outcome(&outcomes[i]);
            new_channels.push(ch);
            let f: Frame = if gate {
                match &outcomes[i] {
                    PeriodOutcome::Delivered(df) => df.copy_of(),
                    _ => Frame::silence(self.n),
                }
            } else {
                Frame::silence(self.n)
            };
            outs.push(f);
            i = i + 1;
        }
        self.channels = new_channels;
        outs
    }
}

} // verus!
