use cast_core::descriptor::{MediaDescriptor, SubtitleInfo};
use cast_core::session::{ActionName, Command, Phase, PlaybackSession, SessionEvent};

fn sample_descriptor() -> MediaDescriptor {
    MediaDescriptor::new(
        String::from("http://h/v.mp4"),
        String::from("mp4"),
        Some(SubtitleInfo::new(String::from("http://h/s.srt"), Some(String::from("srt")))),
    )
}

fn sent_action(s: &PlaybackSession) -> Option<(ActionName, String)> {
    match s.next_command() {
        Some(Command::SendControl { action, payload }) => Some((action, payload)),
        _ => None,
    }
}

#[test]
fn happy_path_commands_in_order_and_succeeds() {
    let mut s = PlaybackSession::new(sample_descriptor());
    assert_eq!(s.phase, Phase::Idle);
    assert!(matches!(s.next_command(), Some(Command::LaunchStreaming)));

    s.on_event(SessionEvent::Launched);
    assert_eq!(s.phase, Phase::StreamingStarted);
    let (action, payload) = sent_action(&s).unwrap();
    assert_eq!(action, ActionName::SetAvTransportUri);
    assert_eq!(action.name(), "SetAVTransportURI");
    assert_eq!(payload, sample_descriptor().build_transport_payload());

    s.on_event(SessionEvent::ControlSucceeded);
    assert_eq!(s.phase, Phase::TransportUriSet);
    let (action, payload) = sent_action(&s).unwrap();
    assert_eq!(action, ActionName::Play);
    assert_eq!(action.name(), "Play");
    assert_eq!(payload, "<InstanceID>0</InstanceID><Speed>1</Speed>");

    s.on_event(SessionEvent::ControlSucceeded);
    assert_eq!(s.phase, Phase::Playing);
    assert!(matches!(s.next_command(), Some(Command::AwaitStream)));

    s.on_event(SessionEvent::StreamEnded);
    assert_eq!(s.phase, Phase::Completed);
    assert!(s.next_command().is_none());
    assert!(s.into_outcome().is_ok());
}

#[test]
fn transport_failure_prevents_play_and_reports_the_error() {
    let mut s = PlaybackSession::new(sample_descriptor());
    s.on_event(SessionEvent::Launched);
    s.on_event(SessionEvent::ControlFailed { detail: String::from("renderer said 501") });
    assert_eq!(s.phase, Phase::Failed);
    // the streaming task is cancelled, and no further control call is sent
    assert!(matches!(s.next_command(), Some(Command::CancelStream)));
    assert!(sent_action(&s).is_none());
    let err = s.into_outcome().unwrap_err();
    assert_eq!(err.message(), "unable to SetAVTransportURI: renderer said 501");
}

#[test]
fn play_failure_reports_the_action_name() {
    let mut s = PlaybackSession::new(sample_descriptor());
    s.on_event(SessionEvent::Launched);
    s.on_event(SessionEvent::ControlSucceeded);
    s.on_event(SessionEvent::ControlFailed { detail: String::from("timeout") });
    assert_eq!(s.phase, Phase::Failed);
    assert!(matches!(s.next_command(), Some(Command::CancelStream)));
    let err = s.into_outcome().unwrap_err();
    assert_eq!(err.message(), "unable to Play: timeout");
}

#[test]
fn stream_end_after_play_completes_the_session() {
    let mut s = PlaybackSession::new(sample_descriptor());
    s.on_event(SessionEvent::Launched);
    s.on_event(SessionEvent::ControlSucceeded);
    s.on_event(SessionEvent::ControlSucceeded);
    s.on_event(SessionEvent::StreamEnded);
    assert_eq!(s.phase, Phase::Completed);
    assert!(s.into_outcome().is_ok());
}

#[test]
fn stream_failure_after_play_surfaces_the_streaming_error() {
    let mut s = PlaybackSession::new(sample_descriptor());
    s.on_event(SessionEvent::Launched);
    s.on_event(SessionEvent::ControlSucceeded);
    s.on_event(SessionEvent::ControlSucceeded);
    s.on_event(SessionEvent::StreamFailed { detail: String::from("connection reset") });
    assert_eq!(s.phase, Phase::Failed);
    let err = s.into_outcome().unwrap_err();
    assert_eq!(err.message(), "error while serving the media files: connection reset");
}

#[test]
fn launch_failure_aborts_before_any_control_call() {
    let mut s = PlaybackSession::new(sample_descriptor());
    s.on_event(SessionEvent::LaunchFailed { detail: String::from("port in use") });
    assert_eq!(s.phase, Phase::Failed);
    // nothing was launched, so there is nothing to cancel and nothing to send
    assert!(s.next_command().is_none());
    let err = s.into_outcome().unwrap_err();
    assert_eq!(err.message(), "unable to launch the streaming task: port in use");
}
