use audia::channel::open_capture_channel;
use audia::engine::{CaptureSession, StreamOpenOutcome};
use audia::errors::EngineError;

fn names(v: &[&str]) -> Vec<String> {
    v.iter().map(|s| s.to_string()).collect()
}

fn configured() -> CaptureSession {
    let mut s = CaptureSession::new();
    s.use_host("A".to_string(), &names(&["A", "B"]));
    s.use_input_device("mic0".to_string(), &names(&["mic0", "mic1"]));
    s
}

#[test]
fn fresh_session_is_idle() {
    let s = CaptureSession::new();
    assert_eq!(s.get_current_host(), None);
    assert_eq!(s.get_current_input_device(), None);
    assert!(!s.is_recording());
}

#[test]
fn select_unknown_host_preserves_selection() {
    let hosts = names(&["A", "B"]);
    let mut s = CaptureSession::new();
    s.use_host("A".to_string(), &hosts);
    assert_eq!(s.get_current_host(), Some("A".to_string()));
    s.use_host("NoSuchHost".to_string(), &hosts);
    assert_eq!(s.get_current_host(), Some("A".to_string()));

    let mut fresh = CaptureSession::new();
    fresh.use_host("NoSuchHost".to_string(), &hosts);
    assert_eq!(fresh.get_current_host(), None);
}

#[test]
fn switching_host_clears_device_reselecting_keeps_it() {
    let hosts = names(&["A", "B"]);
    let mut s = configured();
    assert_eq!(s.get_current_input_device(), Some("mic0".to_string()));
    s.use_host("A".to_string(), &hosts);
    assert_eq!(s.get_current_input_device(), Some("mic0".to_string()));
    s.use_host("B".to_string(), &hosts);
    assert_eq!(s.get_current_host(), Some("B".to_string()));
    assert_eq!(s.get_current_input_device(), None);
}

#[test]
fn unknown_device_preserves_selection() {
    let devices = names(&["mic0", "mic1"]);
    let mut s = configured();
    s.use_input_device("nope".to_string(), &devices);
    assert_eq!(s.get_current_input_device(), Some("mic0".to_string()));
}

#[test]
fn device_selection_needs_a_host() {
    let mut s = CaptureSession::new();
    s.use_input_device("mic0".to_string(), &names(&["mic0"]));
    assert_eq!(s.get_current_input_device(), None);
}

#[test]
fn start_recording_without_device_is_refused() {
    let s = CaptureSession::new();
    assert_eq!(s.start_recording(), Err(EngineError::NoInputDevice));
}

#[test]
fn start_recording_names_the_selected_device() {
    let s = configured();
    assert_eq!(s.start_recording(), Ok("mic0".to_string()));
}

#[test]
fn platform_failures_report_their_cause() {
    let mut s = configured();
    assert_eq!(
        s.finish_start_recording(StreamOpenOutcome::NoDefaultConfig),
        Err(EngineError::ConfigUnavailable)
    );
    assert!(!s.is_recording());

    let mut t = configured();
    assert_eq!(
        t.finish_start_recording(StreamOpenOutcome::PlatformRefused),
        Err(EngineError::StreamCreateFailed)
    );
    assert!(!t.is_recording());
    assert_eq!(t.get_current_input_device(), Some("mic0".to_string()));
}

#[test]
fn start_while_recording_is_refused_and_harmless() {
    let mut s = configured();
    assert_eq!(s.start_recording(), Ok("mic0".to_string()));
    assert_eq!(s.finish_start_recording(StreamOpenOutcome::Opened), Ok(()));
    assert!(s.is_recording());
    assert_eq!(s.start_recording(), Err(EngineError::AlreadyRecording));
    assert!(s.is_recording());
    assert_eq!(s.get_current_host(), Some("A".to_string()));
    assert_eq!(s.get_current_input_device(), Some("mic0".to_string()));
}

#[test]
fn refused_second_start_leaves_the_channel_delivering() {
    // The live session's channel keeps delivering after a refused second
    // start: nothing about the refused request touches the existing handles.
    let mut s = configured();
    s.finish_start_recording(StreamOpenOutcome::Opened).unwrap();
    let (tx, stream) = open_capture_channel();
    tx.send(vec![1u32, 2u32]).unwrap();
    assert_eq!(s.start_recording(), Err(EngineError::AlreadyRecording));
    tx.send(vec![3u32]).unwrap();
    assert_eq!(stream.receive(), Ok(vec![1u32, 2u32]));
    assert_eq!(stream.receive(), Ok(vec![3u32]));
}

#[test]
fn stop_recording_twice_is_harmless() {
    let mut s = configured();
    s.finish_start_recording(StreamOpenOutcome::Opened).unwrap();
    assert!(s.is_recording());
    s.stop_recording();
    assert!(!s.is_recording());
    let host = s.get_current_host();
    let dev = s.get_current_input_device();
    s.stop_recording();
    assert!(!s.is_recording());
    assert_eq!(s.get_current_host(), host);
    assert_eq!(s.get_current_input_device(), dev);
}

#[test]
fn stop_when_never_recording_is_a_no_op() {
    let mut s = configured();
    s.stop_recording();
    assert!(!s.is_recording());
    assert_eq!(s.get_current_host(), Some("A".to_string()));
    assert_eq!(s.get_current_input_device(), Some("mic0".to_string()));
}

#[test]
fn unknown_host_reports_host_unavailable() {
    let hosts = names(&["A", "B"]);
    assert_eq!(audia::engine::check_host_available(&"A".to_string(), &hosts), Ok(()));
    assert_eq!(
        audia::engine::check_host_available(&"C".to_string(), &hosts),
        Err(EngineError::HostUnavailable)
    );
}

#[test]
fn audia_error_keeps_its_message() {
    let e = audia::errors::AudiaError::from("Failed to create audio stream");
    assert_eq!(e.message().as_str(), "Failed to create audio stream");
    let e2 = audia::errors::AudiaError::from(String::from("No input device is selected"));
    assert_eq!(e2.message().as_str(), "No input device is selected");
}
