//! Audio-over-IP core: fixed-size frames of 32-bit samples, their big-endian
//! wire codec, UDP/TCP transport state machines, and the per-period bridge
//! logic that connects an audio engine's realtime callback to the network.
//!
//! Samples are carried as the bit patterns of 32-bit IEEE-754 values; the
//! unverified edge that talks to the audio engine converts to and from
//! floating point with `to_bits`/`from_bits`, which preserves every sample
//! exactly.
//!
//! Each logical channel owns its own transport, so the wire carries raw
//! sample bytes with no header and needs no channel tag; undifferentiated
//! sharing of one socket by several channels would corrupt channel identity
//! and is not offered.

mod bridge;
mod codec;
mod errors;
mod frame;
mod gate;
mod notification;
mod queue;
mod transport;

pub use bridge::Bridge;
pub use bridge::Channel;
pub use bridge::Direction;
pub use bridge::PeriodOutcome;
pub use bridge::TransportCall;
pub use bridge::is_failure;
pub use bridge::is_success;
pub use bridge::lemma_closed_gate_silence;
pub use bridge::playback_frame;
pub use codec::be_byte;
pub use codec::decode;
pub use codec::encode;
pub use codec::frame_of;
pub use codec::lemma_codec_round_trip;
pub use codec::lemma_split_delivery_reconstructs;
pub use codec::sample_of_bytes;
pub use codec::wire_of;
pub use errors::CodecError;
pub use errors::Diagnostic;
pub use errors::ErrorKind;
pub use errors::TransportError;
pub use frame::Frame;
pub use frame::silence_seq;
pub use gate::GateRead;
pub use gate::resolve_gate;
pub use notification::Notifications;
pub use queue::FrameQueue;
pub use queue::saturating_inc;
pub use transport::ReceiveOutcome;
pub use transport::Tcp;
pub use transport::TcpEvent;
pub use transport::TcpState;
pub use transport::Udp;
