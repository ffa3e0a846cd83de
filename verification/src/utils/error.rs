//! The error type of the wrapper.
use vstd::prelude::*;

use crate::enums::ObsResetVideoStatus;
use crate::utils::text::append_str;

verus! {

/// Errors that the operations of the wrapper report.
#[derive(Clone, Debug, PartialEq, Eq)]
pub enum ObsError {
    /// A lock guarding shared state could not be taken.
    LockError(String),
    /// libobs could not be started.
    Failure,
    /// The global mutex of the OBS thread could not be taken.
    MutexFailure,
    /// OBS is already running on another thread.
    ThreadFailure,
    /// libobs refused to reset the video context.
    ResetVideoFailure(ObsResetVideoStatus),
    /// The graphics module cannot change while the OBS context lives.
    ResetVideoFailureGraphicsModule,
    /// The video context cannot be reset while an output is active.
    ResetVideoFailureOutputActive,
    /// libobs returned a null pointer.
    NullPointer,
    /// A string from libobs was not valid UTF-8.
    StringConversionError,
    /// JSON data could not be parsed.
    JsonParseError,
    /// The output is already running.
    OutputAlreadyActive,
    /// The output could not start; the text is the last error of the output.
    OutputStartFailure(Option<String>),
    /// The output could not stop.
    OutputStopFailure(Option<String>),
    /// The output could not pause or resume.
    OutputPauseFailure(Option<String>),
    /// The replay buffer could not be saved.
    OutputSaveBufferFailure(String),
    /// No output has the given name.
    OutputNotFound,
    /// A display could not be created.
    DisplayCreationError(String),
    /// A call on the OBS thread failed.
    InvocationError(String),
    /// The sender of a signal is gone.
    NoSenderError,
    /// The scene item of a source could not be found.
    SourceNotFound,
    /// No encoder of the requested kind is available.
    NoAvailableEncoders,
    /// The encoder is active and cannot be changed.
    EncoderActive,
    /// An installed version string is not of the form `major.minor.patch`.
    InvalidVersionString(String),
    /// An unexpected failure.
    Unexpected(String),
}

/// The detail of an output failure: the last error of the output, if libobs
/// gave one.
pub open spec fn spec_detail(detail: Option<String>) -> Seq<char> {
    match detail {
        Some(t) => t@,
        None => "unknown error"@,
    }
}

impl ObsError {
    /// The text that describes the error.
    pub open spec fn spec_message(self) -> Seq<char> {
        match self {
            ObsError::LockError(s) => "Failed to acquire lock: "@ + s@,
            ObsError::Failure => "Failed to start libobs"@,
            ObsError::MutexFailure => "Failed to lock the OBS mutex"@,
            ObsError::ThreadFailure => "OBS is already running on another thread"@,
            ObsError::ResetVideoFailure(status) => "Unable to reset video: "@ + status.spec_name(),
            ObsError::ResetVideoFailureGraphicsModule =>
                "Unable to reset video: the graphics module cannot change"@,
            ObsError::ResetVideoFailureOutputActive => "Unable to reset video: an output is active"@,
            ObsError::NullPointer => "libobs returned a null pointer"@,
            ObsError::StringConversionError => "A string from libobs is not valid UTF-8"@,
            ObsError::JsonParseError => "Failed to parse JSON data"@,
            ObsError::OutputAlreadyActive => "Output is already active"@,
            ObsError::OutputStartFailure(d) => "Output failed to start: "@ + spec_detail(d),
            ObsError::OutputStopFailure(d) => "Output failed to stop: "@ + spec_detail(d),
            ObsError::OutputPauseFailure(d) => "Output failed to pause: "@ + spec_detail(d),
            ObsError::OutputSaveBufferFailure(s) => "Failed to save the replay buffer: "@ + s@,
            ObsError::OutputNotFound => "Output not found"@,
            ObsError::DisplayCreationError(s) => "Failed to create display: "@ + s@,
            ObsError::InvocationError(s) => "Call on the OBS thread failed: "@ + s@,
            ObsError::NoSenderError => "The sender of the signal is gone"@,
            ObsError::SourceNotFound => "Source not found"@,
            ObsError::NoAvailableEncoders => "No encoders are available"@,
            ObsError::EncoderActive => "The encoder is active"@,
            ObsError::InvalidVersionString(v) => "Invalid version string: "@ + v@,
            ObsError::Unexpected(s) => "Unexpected error: "@ + s@,
        }
    }

    /// Returns the text that describes the error.
    pub fn message(&self) -> (r: String)
        ensures
            r@ == self.spec_message(),
    {
        match self {
            ObsError::LockError(s) => prefixed("Failed to acquire lock: ", s.as_str()),
            ObsError::Failure => "Failed to start libobs".to_owned(),
            ObsError::MutexFailure => "Failed to lock the OBS mutex".to_owned(),
            ObsError::ThreadFailure => "OBS is already running on another thread".to_owned(),
            ObsError::ResetVideoFailure(status) => prefixed("Unable to reset video: ", status.name()),
            ObsError::ResetVideoFailureGraphicsModule =>
                "Unable to reset video: the graphics module cannot change".to_owned(),
            ObsError::ResetVideoFailureOutputActive =>
                "Unable to reset video: an output is active".to_owned(),
            ObsError::NullPointer => "libobs returned a null pointer".to_owned(),
            ObsError::StringConversionError => "A string from libobs is not valid UTF-8".to_owned(),
            ObsError::JsonParseError => "Failed to parse JSON data".to_owned(),
            ObsError::OutputAlreadyActive => "Output is already active".to_owned(),
            ObsError::OutputStartFailure(d) => prefixed("Output failed to start: ", detail(d)),
            ObsError::OutputStopFailure(d) => prefixed("Output failed to stop: ", detail(d)),
            ObsError::OutputPauseFailure(d) => prefixed("Output failed to pause: ", detail(d)),
            ObsError::OutputSaveBufferFailure(s) =>
                prefixed("Failed to save the replay buffer: ", s.as_str()),
            ObsError::OutputNotFound => "Output not found".to_owned(),
            ObsError::DisplayCreationError(s) => prefixed("Failed to create display: ", s.as_str()),
            ObsError::InvocationError(s) => prefixed("Call on the OBS thread failed: ", s.as_str()),
            ObsError::NoSenderError => "The sender of the signal is gone".to_owned(),
            ObsError::SourceNotFound => "Source not found".to_owned(),
            ObsError::NoAvailableEncoders => "No encoders are available".to_owned(),
            ObsError::EncoderActive => "The encoder is active".to_owned(),
            ObsError::InvalidVersionString(v) => prefixed("Invalid version string: ", v.as_str()),
            ObsError::Unexpected(s) => prefixed("Unexpected error: ", s.as_str()),
        }
    }
}

/// The detail of an output failure as text.
fn detail(d: &Option<String>) -> (r: &str)
    ensures
        r@ == spec_detail(*d),
{
    match d {
        Some(t) => t.as_str(),
        None => "unknown error",
    }
}

/// A prefix followed by a text.
fn prefixed(prefix: &str, rest: &str) -> (r: String)
    ensures
        r@ == prefix@ + rest@,
{
    let mut s = prefix.to_owned();
    append_str(&mut s, rest);
    s
}

} // verus!
