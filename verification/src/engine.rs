//! The capture-session state machine: host and device selection and the
//! recording lifecycle.
//!
//! The session moves between three states: idle (nothing selected), configured
//! (a host and an input device chosen by name) and recording (a live stream
//! delivers packets). Enumerating hosts and devices, and opening or closing
//! the platform stream, happen outside this crate; they hand this module the
//! enumerated names and the outcome of the platform work as plain values, and
//! every decision in between is verified here.
//!
//! Selection is forgiving by design: a name that does not appear in the
//! enumerated list leaves the current selection exactly as it was.

use vstd::prelude::*;

use crate::errors::EngineError;

verus! {

/// Whether `names` holds a string whose characters equal `name`.
pub open spec fn contains_name(names: Seq<String>, name: Seq<char>) -> bool {
    exists|i: int| 0 <= i < names.len() && #[trigger] names[i]@ == name
}

/// Linear search for `name` among `names`, by character equality.
fn find_name(names: &Vec<String>, name: &String) -> (r: bool)
    ensures
        r == contains_name(names@, name@),
{
    let mut idx: usize = 0;
    while idx < names.len()
        invariant
            idx <= names@.len(),
            forall|j: int| 0 <= j < idx ==> #[trigger] names@[j]@ != name@,
        decreases names@.len() - idx,
    {
        if names[idx] == *name {
            assert(contains_name(names@, name@));
            return true;
        }
        idx = idx + 1;
    }
    false
}

/// The guard of input-device enumeration: the devices of `host` can only be
/// listed while `host` still resolves among the currently enumerated
/// backends; a host that does not is reported as unavailable.
pub fn check_host_available(host: &String, available_hosts: &Vec<String>) -> (r: Result<
    (),
    EngineError,
>)
    ensures
        contains_name(available_hosts@, host@) ==> r == Ok::<(), EngineError>(()),
        !contains_name(available_hosts@, host@) ==> r == Err::<(), EngineError>(
            EngineError::HostUnavailable,
        ),
{
    if find_name(available_hosts, host) {
        Ok(())
    } else {
        Err(EngineError::HostUnavailable)
    }
}

/// What the platform reported when asked to open the capture stream.
#[derive(Clone, Copy, Debug, PartialEq, Eq, Structural)]
pub enum StreamOpenOutcome {
    /// The stream was built and is running; packets will arrive.
    Opened,
    /// The device exposed no usable default input configuration.
    NoDefaultConfig,
    /// The platform refused to build or run the stream.
    PlatformRefused,
}

/// Collection of configuration settings required by the audio system.
pub struct AudioSettings {}

impl Default for AudioSettings {
    fn default() -> (r: AudioSettings)
        ensures
            r == (AudioSettings {  }),
    {
        AudioSettings {  }
    }
}

/// The capture session: current selections and whether a stream is live.
///
/// The stream handle itself is platform-owned and lives outside this crate;
/// this session is the single owner of the lifecycle decisions about it, and
/// at most one stream is live at a time because `start_recording` refuses to
/// start a second one.
pub struct CaptureSession {
    current_host: Option<String>,
    current_input_device: Option<String>,
    recording: bool,
}

impl CaptureSession {
    /// The currently selected host name, if any.
    pub closed spec fn spec_host(&self) -> Option<String> {
        self.current_host
    }

    /// The currently selected input device name, if any.
    pub closed spec fn spec_device(&self) -> Option<String> {
        self.current_input_device
    }

    /// Whether a capture stream is live.
    pub closed spec fn spec_recording(&self) -> bool {
        self.recording
    }

    /// The state a session reaches when recording stops: the same selections,
    /// no live stream.
    pub closed spec fn spec_stop(s: CaptureSession) -> CaptureSession {
        CaptureSession { recording: false, ..s }
    }

    /// A fresh session: nothing selected, nothing live.
    pub fn new() -> (r: CaptureSession)
        ensures
            r.spec_host() is None,
            r.spec_device() is None,
            !r.spec_recording(),
    {
        CaptureSession { current_host: None, current_input_device: None, recording: false }
    }

    /// The selected host name, cloned for the caller.
    pub fn get_current_host(&self) -> (r: Option<String>)
        ensures
            r == self.spec_host(),
    {
        match &self.current_host {
            Some(h) => Some(h.clone()),
            None => None,
        }
    }

    /// The selected input device name, cloned for the caller.
    pub fn get_current_input_device(&self) -> (r: Option<String>)
        ensures
            r == self.spec_device(),
    {
        match &self.current_input_device {
            Some(d) => Some(d.clone()),
            None => None,
        }
    }

    /// Whether a capture stream is live.
    pub fn is_recording(&self) -> (r: bool)
        ensures
            r == self.spec_recording(),
    {
        self.recording
    }

    /// Select a host by name, against the enumerated host names.
    ///
    /// A name that is not enumerated changes nothing. A successful switch to
    /// a different host clears the device selection, since devices belong to
    /// their host; re-selecting the current host keeps it.
    pub fn use_host(&mut self, host_name: String, available_hosts: &Vec<String>)
        ensures
            contains_name(available_hosts@, host_name@) ==> {
                &&& final(self).spec_host() == Some(host_name)
                &&& final(self).spec_device() == (match old(self).spec_host() {
                    Some(h) => if h@ == host_name@ {
                        old(self).spec_device()
                    } else {
                        Option::<String>::None
                    },
                    None => Option::<String>::None,
                })
                &&& final(self).spec_recording() == old(self).spec_recording()
            },
            !contains_name(available_hosts@, host_name@) ==> *final(self) == *old(self),
    {
        if find_name(available_hosts, &host_name) {
            let same_host = match &self.current_host {
                Some(h) => *h == host_name,
                None => false,
            };
            if !same_host {
                self.current_input_device = None;
            }
            self.current_host = Some(host_name);
        }
    }

    /// Select an input device by name, against the devices enumerated for the
    /// currently selected host.
    ///
    /// Without a selected host, or with a name that is not enumerated,
    /// nothing changes and the previous selection is preserved.
    pub fn use_input_device(&mut self, device_name: String, devices: &Vec<String>)
        ensures
            old(self).spec_host() is None ==> *final(self) == *old(self),
            old(self).spec_host() is Some && contains_name(devices@, device_name@) ==> {
                &&& final(self).spec_host() == old(self).spec_host()
                &&& final(self).spec_device() == Some(device_name)
                &&& final(self).spec_recording() == old(self).spec_recording()
            },
            old(self).spec_host() is Some && !contains_name(devices@, device_name@)
                ==> *final(self) == *old(self),
    {
        if self.current_host.is_some() {
            if find_name(devices, &device_name) {
                self.current_input_device = Some(device_name);
            }
        }
    }

    /// Decide whether recording may start, and name the device to open.
    ///
    /// This is the guard half of starting a recording: the platform work —
    /// querying the default configuration, building the capture channel and
    /// the stream — happens outside on the device named in `Ok`, and its
    /// outcome comes back through `finish_start_recording`. While a stream is
    /// live the request is refused and the session, and with it the live
    /// stream and its channel, is left untouched.
    pub fn start_recording(&self) -> (r: Result<String, EngineError>)
        ensures
            self.spec_recording() ==> r == Err::<String, EngineError>(
                EngineError::AlreadyRecording,
            ),
            !self.spec_recording() && self.spec_device() is None ==> r == Err::<
                String,
                EngineError,
            >(EngineError::NoInputDevice),
            !self.spec_recording() ==> (self.spec_device() matches Some(d) ==> r == Ok::<
                String,
                EngineError,
            >(d)),
    {
        if self.recording {
            Err(EngineError::AlreadyRecording)
        } else {
            match &self.current_input_device {
                Some(d) => Ok(d.clone()),
                None => Err(EngineError::NoInputDevice),
            }
        }
    }

    /// Record the outcome of the platform work that `start_recording`
    /// requested: on `Opened` the session is recording; on either failure the
    /// session is exactly as it was and the error names the cause.
    pub fn finish_start_recording(&mut self, outcome: StreamOpenOutcome) -> (r: Result<
        (),
        EngineError,
    >)
        requires
            !old(self).spec_recording(),
        ensures
            final(self).spec_host() == old(self).spec_host(),
            final(self).spec_device() == old(self).spec_device(),
            outcome == StreamOpenOutcome::Opened ==> final(self).spec_recording() && r == Ok::<
                (),
                EngineError,
            >(()),
            outcome == StreamOpenOutcome::NoDefaultConfig ==> *final(self) == *old(self) && r
                == Err::<(), EngineError>(EngineError::ConfigUnavailable),
            outcome == StreamOpenOutcome::PlatformRefused ==> *final(self) == *old(self) && r
                == Err::<(), EngineError>(EngineError::StreamCreateFailed),
    {
        match outcome {
            StreamOpenOutcome::Opened => {
                self.recording = true;
                Ok(())
            },
            StreamOpenOutcome::NoDefaultConfig => Err(EngineError::ConfigUnavailable),
            StreamOpenOutcome::PlatformRefused => Err(EngineError::StreamCreateFailed),
        }
    }

    /// Stop recording. From any state the result is the same selections with
    /// no live stream; stopping when nothing is live changes nothing and
    /// raises no error. The caller destroys the platform stream before this
    /// returns control to anyone who could observe the session.
    pub fn stop_recording(&mut self)
        ensures
            *final(self) == CaptureSession::spec_stop(*old(self)),
            final(self).spec_host() == old(self).spec_host(),
            final(self).spec_device() == old(self).spec_device(),
            !final(self).spec_recording(),
    {
        self.recording = false;
    }
}

/// Stopping is idempotent: stopping an already-stopped session is the
/// identity, so a second `stop_recording` in a row has no effect and raises
/// no error.
pub proof fn lemma_stop_idempotent(s: CaptureSession)
    ensures
        CaptureSession::spec_stop(CaptureSession::spec_stop(s)) == CaptureSession::spec_stop(s),
{
}

} // verus!
