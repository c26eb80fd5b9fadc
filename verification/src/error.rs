//! What can go wrong while a display is brought up or committed.
use vstd::prelude::*;
use vstd::string::{StringExecFns, to_string_from_display_ensures};

verus! {

/// An input/output error of the operating system, carried along unread.
#[verifier::external_type_specification]
#[verifier::external_body]
pub struct ExIoError(std::io::Error);

/// Failures of the shared OpenGL ES context.
#[derive(Debug)]
pub enum GlesContextError {
    DisplayCreationFailed,
    NoConfigFound,
    EglContextCreationFailed(String),
    MakeCurrentFailed,
}

impl GlesContextError {
    /// The text of the failure.
    pub open spec fn text(self) -> Seq<char> {
        match self {
            GlesContextError::DisplayCreationFailed => "Failed to create EGL display"@,
            GlesContextError::NoConfigFound => "No suitable EGL config found"@,
            GlesContextError::EglContextCreationFailed(reason) =>
                "Failed to create EGL context: "@ + reason@,
            GlesContextError::MakeCurrentFailed => "Failed to make context current"@,
        }
    }

    /// The text of the failure, for people to read.
    pub fn message(&self) -> (message: String)
        ensures
            message@ == self.text(),
    {
        match self {
            GlesContextError::DisplayCreationFailed => "Failed to create EGL display".to_owned(),
            GlesContextError::NoConfigFound => "No suitable EGL config found".to_owned(),
            GlesContextError::EglContextCreationFailed(reason) =>
                prefixed("Failed to create EGL context: ", reason.as_str()),
            GlesContextError::MakeCurrentFailed => "Failed to make context current".to_owned(),
        }
    }
}

/// Failures of setting up a monitor or of adding it to a commit.
#[derive(Debug)]
pub enum MonitorSetupError {
    IOError(std::io::Error),
    NotConnected,
    NoCRTCFound,
    NoModesFound,
    NoPrimaryPlaneFound,
    GlesContextError(GlesContextError),
    DrmError(String),
}

impl MonitorSetupError {
    /// The text of the failure where the library decides it. Of an
    /// input/output error the operating system words the rest.
    pub open spec fn text(self) -> Seq<char> {
        match self {
            MonitorSetupError::IOError(_) => "IO Error: "@,
            MonitorSetupError::NotConnected => "monitor is not connected"@,
            MonitorSetupError::NoCRTCFound => "monitor doesn't have any crtcs available"@,
            MonitorSetupError::NoModesFound => "monitor doesn't have any display modes"@,
            MonitorSetupError::NoPrimaryPlaneFound => "no primary plane found for this monitor"@,
            MonitorSetupError::GlesContextError(error) =>
                "failed to create OpenGL ES context: "@ + error.text(),
            MonitorSetupError::DrmError(reason) => "DRM error: "@ + reason@,
        }
    }

    /// Whether this is a DRM failure for the given reason.
    pub open spec fn is_drm_error(self, reason: Seq<char>) -> bool {
        self matches MonitorSetupError::DrmError(text) && text@ == reason
    }

    /// The text of the failure, for people to read.
    pub fn message(&self) -> (message: String)
        ensures
            self !is IOError ==> message@ == self.text(),
            self is IOError ==> self.text().is_prefix_of(message@),
            self matches MonitorSetupError::IOError(error) ==> exists|text: String|
                #[trigger] to_string_from_display_ensures::<std::io::Error>(error, text) && message@
                    == self.text() + text@,
    {
        match self {
            MonitorSetupError::IOError(error) => io_error_message(io_error_text(error).as_str()),
            MonitorSetupError::NotConnected => "monitor is not connected".to_owned(),
            MonitorSetupError::NoCRTCFound =>
                "monitor doesn't have any crtcs available".to_owned(),
            MonitorSetupError::NoModesFound =>
                "monitor doesn't have any display modes".to_owned(),
            MonitorSetupError::NoPrimaryPlaneFound =>
                "no primary plane found for this monitor".to_owned(),
            MonitorSetupError::GlesContextError(error) =>
                prefixed("failed to create OpenGL ES context: ", error.message().as_str()),
            MonitorSetupError::DrmError(reason) => prefixed("DRM error: ", reason.as_str()),
        }
    }
}

impl From<std::io::Error> for MonitorSetupError {
    fn from(error: std::io::Error) -> (converted: Self) {
        MonitorSetupError::IOError(error)
    }
}

impl vstd::std_specs::convert::FromSpecImpl<std::io::Error> for MonitorSetupError {
    open spec fn obeys_from_spec() -> bool {
        true
    }

    open spec fn from_spec(error: std::io::Error) -> Self {
        MonitorSetupError::IOError(error)
    }
}

impl From<GlesContextError> for MonitorSetupError {
    fn from(error: GlesContextError) -> (converted: Self) {
        MonitorSetupError::GlesContextError(error)
    }
}

impl vstd::std_specs::convert::FromSpecImpl<GlesContextError> for MonitorSetupError {
    open spec fn obeys_from_spec() -> bool {
        true
    }

    open spec fn from_spec(error: GlesContextError) -> Self {
        MonitorSetupError::GlesContextError(error)
    }
}

/// The text of an input/output error, as `std::io::Error`'s `to_string` gives
/// it. The operating system words it, and may do so in the user's language.
fn io_error_text(error: &std::io::Error) -> (text: String)
    ensures
        to_string_from_display_ensures::<std::io::Error>(error, text),
{
    error.to_string()
}

/// The message of an input/output error that the operating system words as
/// `text`.
pub fn io_error_message(text: &str) -> (message: String)
    ensures
        message@ == "IO Error: "@ + text@,
{
    prefixed("IO Error: ", text)
}

/// `prefix` followed by `rest`.
pub(crate) fn prefixed(prefix: &str, rest: &str) -> (joined: String)
    ensures
        joined@ == prefix@ + rest@,
{
    let mut joined = String::new();
    joined.append(prefix);
    joined.append(rest);
    assert(joined@ =~= prefix@ + rest@);
    joined
}

/// The DRM failure for the given reason.
pub(crate) fn drm_error(reason: &str) -> (error: MonitorSetupError)
    ensures
        error.is_drm_error(reason@),
{
    MonitorSetupError::DrmError(reason.to_owned())
}

} // verus!
