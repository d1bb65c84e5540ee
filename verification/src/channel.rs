//! The capture channel: the FIFO that carries sample packets from the
//! platform's audio callback to the consumer loop.
//!
//! A packet is one delivery of samples by the capture callback. Its samples
//! are carried as opaque 32-bit payloads (the bit patterns of the driver's
//! single-precision samples); nothing in this crate reads a sample's numeric
//! value, so the payload encoding is the producer's business.
//!
//! The channel is created fresh per capture session. The producer end is
//! handed to the stream callback outside this crate; the consumer end is
//! wrapped in [`AudioStream`], whose `receive` never blocks.

use vstd::prelude::*;

use crate::errors::EngineError;

verus! {

/// One audio sample, as an opaque 32-bit payload.
pub type SampleBits = u32;

/// One delivery of samples from the capture callback.
pub type PacketType = Vec<SampleBits>;

#[verifier::external_type_specification]
#[verifier::external_body]
#[verifier::reject_recursive_types(T)]
pub struct ExSender<T>(crossbeam_channel::Sender<T>);

#[verifier::external_type_specification]
#[verifier::external_body]
#[verifier::reject_recursive_types(T)]
pub struct ExReceiver<T>(crossbeam_channel::Receiver<T>);

/// Why `receive` returned no packet.
#[derive(Clone, Copy, Debug, PartialEq, Eq, Structural)]
pub enum ReceiveError {
    /// The channel holds no packet right now; more may arrive.
    Empty,
    /// The producer is gone and the backlog is drained; no packet will ever
    /// arrive again.
    Closed,
}

impl ReceiveError {
    /// The engine-level error this outcome maps to, if it is an error at all.
    /// An empty channel is the normal idle case, not a failure.
    pub fn to_engine_error(&self) -> (r: Option<EngineError>)
        ensures
            r == (match self {
                ReceiveError::Empty => Option::<EngineError>::None,
                ReceiveError::Closed => Some(EngineError::ChannelClosed),
            }),
    {
        match self {
            ReceiveError::Empty => None,
            ReceiveError::Closed => Some(EngineError::ChannelClosed),
        }
    }
}

/// Relies on `crossbeam_channel::unbounded`: a fresh first-in-first-out
/// channel with no capacity bound; the returned ends are its only handles.
#[verifier::external_body]
fn unbounded_packet_channel() -> (r: (
    crossbeam_channel::Sender<PacketType>,
    crossbeam_channel::Receiver<PacketType>,
))
{
    crossbeam_channel::unbounded()
}

/// Relies on `crossbeam_channel::Receiver::try_recv`: pops the oldest queued
/// packet, or reports the channel empty, or closed once every sender is gone
/// and the backlog is drained; it never blocks. Which of the three happens
/// depends on the producer thread, so nothing is promised about the outcome.
#[verifier::external_body]
fn try_recv_packet(rx: &crossbeam_channel::Receiver<PacketType>) -> (r: Result<
    PacketType,
    ReceiveError,
>)
{
    match rx.try_recv() {
        Ok(packet) => Ok(packet),
        Err(crossbeam_channel::TryRecvError::Empty) => Err(ReceiveError::Empty),
        Err(crossbeam_channel::TryRecvError::Disconnected) => Err(ReceiveError::Closed),
    }
}

/// A live recording session's consumer handle: the reading end of the capture
/// channel. Packets come out in the exact order the callback sent them.
pub struct AudioStream {
    rx: crossbeam_channel::Receiver<PacketType>,
}

impl AudioStream {
    /// Wrap the reading end of a capture channel.
    pub fn new(rx: crossbeam_channel::Receiver<PacketType>) -> (r: AudioStream) {
        AudioStream { rx }
    }

    /// Poll for one packet without blocking. What comes back depends on the
    /// producer thread: a packet, or `Empty` while the producer may still
    /// deliver, or `Closed` once it never will again.
    pub fn receive(&self) -> (r: Result<PacketType, ReceiveError>) {
        try_recv_packet(&self.rx)
    }
}

/// Build the capture channel for one session: the producer end goes to the
/// stream callback, the consumer handle to whoever drains the session.
pub fn open_capture_channel() -> (r: (crossbeam_channel::Sender<PacketType>, AudioStream)) {
    let (tx, rx) = unbounded_packet_channel();
    (tx, AudioStream::new(rx))
}

} // verus!
