use audio_spectrum::error::check_launch;
use audio_spectrum::error::AudioCaptureError;
use audio_spectrum::error::Launch;
use audio_spectrum::link::Poll;
use audio_spectrum::session::respond;
use audio_spectrum::session::Command;
use audio_spectrum::session::Event;
use audio_spectrum::session::Session;
use audio_spectrum::session::SessionState;

fn missing() -> std::io::Error {
    std::io::Error::new(std::io::ErrorKind::NotFound, "no such program")
}

#[test]
fn session_starts_running_on_a_piped_source() {
    let session = Session::start(Launch::Piped).ok().unwrap();
    assert_eq!(session.state(), SessionState::Running);
    assert!(session.should_run());
}

#[test]
fn session_does_not_start_without_a_pipe() {
    assert!(matches!(Session::start(Launch::NoPipe), Err(AudioCaptureError::NoStdout)));
}

#[test]
fn session_does_not_start_when_the_launch_failed() {
    match Session::start(Launch::Failed(missing())) {
        Err(AudioCaptureError::FfmpegError(error)) => {
            assert_eq!(error.kind(), std::io::ErrorKind::NotFound);
            assert_eq!(error.to_string(), "no such program");
        }
        _ => panic!("the launch failed"),
    }
}

#[test]
fn check_launch_maps_each_outcome() {
    assert!(matches!(check_launch(Launch::Piped), Ok(())));
    assert!(matches!(check_launch(Launch::NoPipe), Err(AudioCaptureError::NoStdout)));
    assert!(matches!(
        check_launch(Launch::Failed(missing())),
        Err(AudioCaptureError::FfmpegError(_))
    ));
}

#[test]
fn stop_asks_for_teardown_once() {
    let mut session = Session::start(Launch::Piped).ok().unwrap();
    assert!(session.stop());
    assert_eq!(session.state(), SessionState::Stopping);
    assert!(!session.should_run());
    assert!(!session.stop());
    assert_eq!(session.state(), SessionState::Stopping);
    assert!(!session.stop());
}

#[test]
fn join_completes_a_stop() {
    let mut session = Session::start(Launch::Piped).ok().unwrap();
    session.join();
    assert_eq!(session.state(), SessionState::Running);
    assert!(session.stop());
    session.join();
    assert_eq!(session.state(), SessionState::Stopped);
    assert!(!session.stop());
    assert_eq!(session.state(), SessionState::Stopped);
    session.join();
    assert_eq!(session.state(), SessionState::Stopped);
    assert!(!session.should_run());
}

#[test]
fn messages_read_as_they_should() {
    assert_eq!(AudioCaptureError::NoStdout.message(), "Stdout was already taken");
    assert_eq!(AudioCaptureError::Disconnected.message(), "The capture thread has stopped");
    assert_eq!(
        AudioCaptureError::FfmpegError(missing()).message(),
        "Failed to start ffmpeg: no such program"
    );
}

#[test]
fn respond_tells_result_disconnection_or_nothing() {
    assert!(matches!(respond(Poll::Ready(3u8)), Some(Ok(3))));
    assert!(matches!(
        respond(Poll::<u8>::Disconnected),
        Some(Err(AudioCaptureError::Disconnected))
    ));
    assert!(respond(Poll::<u8>::Pending).is_none());
}

#[test]
fn launch_failure_message_ends_with_the_cause() {
    assert_eq!(
        audio_spectrum::error::launch_failure_message("permission denied"),
        "Failed to start ffmpeg: permission denied"
    );
    assert_eq!(audio_spectrum::error::launch_failure_message(""), "Failed to start ffmpeg: ");
}

#[test]
fn session_walks_through_its_states() {
    let mut session = Session::new();
    assert_eq!(session.state(), SessionState::Stopped);
    assert!(!session.should_run());
    assert_eq!(session.handle(Event::Start), Command::OpenSource);
    assert_eq!(session.state(), SessionState::Starting);
    assert!(!session.should_run());
    assert_eq!(session.handle(Event::Opened), Command::Launch);
    assert_eq!(session.state(), SessionState::Running);
    assert!(session.should_run());
    assert_eq!(session.handle(Event::Stop), Command::Teardown);
    assert_eq!(session.state(), SessionState::Stopping);
    assert_eq!(session.handle(Event::Exited), Command::Nothing);
    assert_eq!(session.state(), SessionState::Stopped);
}

#[test]
fn failed_open_stops_the_session() {
    let mut session = Session::new();
    assert_eq!(session.handle(Event::Start), Command::OpenSource);
    assert_eq!(session.handle(Event::OpenFailed), Command::Nothing);
    assert_eq!(session.state(), SessionState::Stopped);
    assert!(!session.stop());
}

#[test]
fn stopped_session_is_not_started_again() {
    let mut session = Session::start(Launch::Piped).ok().unwrap();
    assert!(session.stop());
    session.join();
    assert_eq!(session.handle(Event::Start), Command::Nothing);
    assert_eq!(session.state(), SessionState::Stopped);
    assert_eq!(session.handle(Event::Opened), Command::Nothing);
    assert_eq!(session.state(), SessionState::Stopped);

    let mut failed = Session::new();
    let _ = failed.handle(Event::Start);
    let _ = failed.handle(Event::OpenFailed);
    assert_eq!(failed.handle(Event::Start), Command::Nothing);
    assert_eq!(failed.state(), SessionState::Stopped);
}

#[test]
fn events_out_of_turn_change_nothing() {
    let mut session = Session::new();
    for event in [Event::Opened, Event::OpenFailed, Event::Stop, Event::Exited] {
        assert_eq!(session.handle(event), Command::Nothing);
        assert_eq!(session.state(), SessionState::Stopped);
    }
    assert_eq!(session.handle(Event::Start), Command::OpenSource);
    for event in [Event::Start, Event::Stop, Event::Exited] {
        assert_eq!(session.handle(event), Command::Nothing);
        assert_eq!(session.state(), SessionState::Starting);
    }
    assert_eq!(session.handle(Event::Opened), Command::Launch);
    for event in [Event::Start, Event::Opened, Event::OpenFailed, Event::Exited] {
        assert_eq!(session.handle(event), Command::Nothing);
        assert_eq!(session.state(), SessionState::Running);
    }
    assert_eq!(session.handle(Event::Stop), Command::Teardown);
    for event in [Event::Start, Event::Opened, Event::OpenFailed, Event::Stop] {
        assert_eq!(session.handle(event), Command::Nothing);
        assert_eq!(session.state(), SessionState::Stopping);
    }
}

#[test]
fn session_does_not_start_on_an_unavailable_device() {
    match Session::start(Launch::Unavailable(String::from("device busy"))) {
        Err(AudioCaptureError::DeviceError(why)) => assert_eq!(why, "device busy"),
        _ => panic!("the device did not open"),
    }
    assert_eq!(
        AudioCaptureError::DeviceError(String::from("device busy")).message(),
        "Failed to open the audio device: device busy"
    );
}
