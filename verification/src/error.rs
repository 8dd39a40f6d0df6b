//! What can go wrong when a capture session starts or is read from.

use vstd::prelude::*;
use vstd::string::StringExecFns;

verus! {

/// `std::io::Error`, as the operating system reports a failed launch.
/// It is carried through; nothing of its inside is known here.
#[verifier::external_type_specification]
#[verifier::external_body]
pub struct ExIoError(std::io::Error);

/// Why a capture session could not be started, or has no more results.
#[derive(Debug)]
pub enum AudioCaptureError {
    /// The decoder process could not be launched.
    FfmpegError(std::io::Error),
    /// The decoder process was launched without a pipe for its output.
    NoStdout,
    /// The audio device could not be opened; the text says why.
    DeviceError(String),
    /// The capture thread has stopped, and no result is left to read.
    Disconnected,
}

/// What opening the source came to.
pub enum Launch {
    /// The source is open: the decoder process runs and its output pipe is
    /// at hand, or the device delivers.
    Piped,
    /// The decoder process runs, but its output pipe was already taken.
    NoPipe,
    /// The decoder process could not be launched.
    Failed(std::io::Error),
    /// The audio device could not be opened; the text says why.
    Unavailable(String),
}

/// `io::Error`'s `Display`: the text of the error, as the operating system
/// or whoever made the error words it. Nothing is known of it here.
#[verifier::external_body]
fn io_error_to_string(error: &std::io::Error) -> (text: String) {
    format!("{}", error)
}

/// The message of a failed launch, given the text of its cause.
pub fn launch_failure_message(cause: &str) -> (text: String)
    ensures
        text@ == "Failed to start ffmpeg: "@ + cause@,
{
    let mut text = String::from_str("Failed to start ffmpeg: ");
    text.append(cause);
    text
}

/// Whether a launch lets the session start, and the error with which it
/// fails where it does not.
pub fn check_launch(launch: Launch) -> (outcome: Result<(), AudioCaptureError>)
    ensures
        launch is Piped ==> outcome is Ok,
        launch is NoPipe ==> outcome == Err::<(), AudioCaptureError>(AudioCaptureError::NoStdout),
        launch matches Launch::Failed(e) ==> outcome == Err::<(), AudioCaptureError>(
            AudioCaptureError::FfmpegError(e),
        ),
        launch matches Launch::Unavailable(why) ==> outcome == Err::<(), AudioCaptureError>(
            AudioCaptureError::DeviceError(why),
        ),
{
    match launch {
        Launch::Piped => Ok(()),
        Launch::NoPipe => Err(AudioCaptureError::NoStdout),
        Launch::Failed(e) => Err(AudioCaptureError::FfmpegError(e)),
        Launch::Unavailable(why) => Err(AudioCaptureError::DeviceError(why)),
    }
}

impl AudioCaptureError {
    /// The message of the error, as a reader sees it, where `cause` is the
    /// text of the underlying error of a failed launch.
    pub open spec fn message_spec(self, cause: Seq<char>) -> Seq<char> {
        match self {
            AudioCaptureError::FfmpegError(_) => "Failed to start ffmpeg: "@ + cause,
            AudioCaptureError::NoStdout => "Stdout was already taken"@,
            AudioCaptureError::DeviceError(why) => "Failed to open the audio device: "@ + why@,
            AudioCaptureError::Disconnected => "The capture thread has stopped"@,
        }
    }

    /// The message of the error. That of a failed launch ends with the
    /// text of its cause, whatever that is; every other message is fixed.
    pub fn message(&self) -> (text: String)
        ensures
            exists|cause: Seq<char>| text@ == self.message_spec(cause),
            self !is FfmpegError ==> text@ == self.message_spec(Seq::<char>::empty()),
    {
        match self {
            AudioCaptureError::FfmpegError(e) => {
                let cause = io_error_to_string(e);
                let text = launch_failure_message(cause.as_str());
                assert(text@ == self.message_spec(cause@));
                text
            },
            AudioCaptureError::NoStdout => {
                let text = String::from_str("Stdout was already taken");
                assert(text@ == self.message_spec(Seq::<char>::empty()));
                text
            },
            AudioCaptureError::DeviceError(why) => {
                let mut text = String::from_str("Failed to open the audio device: ");
                text.append(why.as_str());
                assert(text@ == self.message_spec(Seq::<char>::empty()));
                text
            },
            AudioCaptureError::Disconnected => {
                let text = String::from_str("The capture thread has stopped");
                assert(text@ == self.message_spec(Seq::<char>::empty()));
                text
            },
        }
    }
}

} // verus!
