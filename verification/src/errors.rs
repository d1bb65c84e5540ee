//! Error types of the audio engine.

use vstd::prelude::*;

verus! {

/// The failures the capture pipeline reports to its caller.
///
/// Selection mismatches (an unknown host or device name) are not errors:
/// selection keeps the previous choice and the call is a no-op.
#[derive(Clone, Copy, Debug, PartialEq, Eq, Structural)]
pub enum EngineError {
    /// The named host does not resolve to a live backend.
    HostUnavailable,
    /// Recording was requested while no input device is selected.
    NoInputDevice,
    /// The selected device exposes no usable default configuration.
    ConfigUnavailable,
    /// The platform refused to build or run the capture stream.
    StreamCreateFailed,
    /// Recording was requested while a capture session is already live.
    AlreadyRecording,
    /// The capture channel is closed and its backlog is drained.
    ChannelClosed,
}

/// An error with a human-readable message.
pub struct AudiaError {
    message: String,
}

impl AudiaError {
    /// The message this error carries.
    pub closed spec fn spec_message(&self) -> Seq<char> {
        self.message@
    }

    /// Read the message back, for display by the caller.
    pub fn message(&self) -> (r: &String)
        ensures
            r@ == self.spec_message(),
    {
        &self.message
    }
}

impl From<String> for AudiaError {
    fn from(message: String) -> (r: AudiaError)
        ensures
            r.spec_message() == message@,
    {
        AudiaError { message }
    }
}

impl vstd::std_specs::convert::FromSpecImpl<String> for AudiaError {
    open spec fn obeys_from_spec() -> bool {
        true
    }

    closed spec fn from_spec(message: String) -> AudiaError {
        AudiaError { message }
    }
}

impl From<&str> for AudiaError {
    fn from(value: &str) -> (r: AudiaError)
        ensures
            r.spec_message() == value@,
    {
        AudiaError { message: value.to_owned() }
    }
}

// A `String` value with a given character sequence cannot be written down in
// specification code, so this conversion promises nothing through `from_spec`;
// the `ensures` on `from` above carries the contract instead.
impl vstd::std_specs::convert::FromSpecImpl<&str> for AudiaError {
    open spec fn obeys_from_spec() -> bool {
        false
    }

    closed spec fn from_spec(value: &str) -> AudiaError {
        arbitrary()
    }
}

} // verus!
