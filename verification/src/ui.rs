//! Routing of user-interface events onto the capture pipeline.
//!
//! The rendering layer outside this crate produces [`UIMessage`] values; what
//! each one asks of the audio engine is decided here, so the unverified shell
//! only performs the named action.

use vstd::prelude::*;

verus! {

/// An event from the user interface.
#[derive(Clone, Debug)]
pub enum UIMessage {
    /// A host was picked by name.
    HostChanged(String),
    /// An input device was picked by name.
    InputDeviceChanged(String),
    /// An output device was picked by name; playback is out of scope, so
    /// this is ignored.
    OutputDeviceChanged(String),
    /// The user asked to start streaming.
    StartStreaming,
    /// The user asked to stop streaming.
    StopStreaming,
    /// The poll cadence fired: drain the capture channel.
    StreamTick,
    /// A diagnostic event with no effect on the pipeline.
    DebugEvent,
}

/// What the shell must do for one message.
#[derive(Clone, Debug)]
pub enum UIAction {
    /// Enumerate the hosts and select this one on the session.
    SelectHost(String),
    /// Enumerate the current host's input devices and select this one.
    SelectInputDevice(String),
    /// Start a recording, if none is live.
    StartStream,
    /// Stop the live recording, if any.
    StopStream,
    /// Poll the consumer handle and feed the accumulator.
    PollStream,
    /// Nothing to do.
    Ignore,
}

/// Decide what one user-interface message asks of the pipeline.
pub fn route_message(msg: UIMessage) -> (a: UIAction)
    ensures
        a == (match msg {
            UIMessage::HostChanged(name) => UIAction::SelectHost(name),
            UIMessage::InputDeviceChanged(name) => UIAction::SelectInputDevice(name),
            UIMessage::OutputDeviceChanged(_) => UIAction::Ignore,
            UIMessage::StartStreaming => UIAction::StartStream,
            UIMessage::StopStreaming => UIAction::StopStream,
            UIMessage::StreamTick => UIAction::PollStream,
            UIMessage::DebugEvent => UIAction::Ignore,
        }),
{
    match msg {
        UIMessage::HostChanged(name) => UIAction::SelectHost(name),
        UIMessage::InputDeviceChanged(name) => UIAction::SelectInputDevice(name),
        UIMessage::OutputDeviceChanged(_) => UIAction::Ignore,
        UIMessage::StartStreaming => UIAction::StartStream,
        UIMessage::StopStreaming => UIAction::StopStream,
        UIMessage::StreamTick => UIAction::PollStream,
        UIMessage::DebugEvent => UIAction::Ignore,
    }
}

} // verus!
