//! The unified error surface: the failures that the portable logic raises
//! itself, and the one kind that wraps what a backend reported.

use vstd::prelude::*;
use vstd::std_specs::convert::FromSpecImpl;
use vstd::string::StringExecFns;

verus! {

/// Platform-specific error details.
///
/// Each variant keeps the human-readable text of what the platform
/// reported; [`PlatformError::description`] hands it out.
#[derive(Debug, Clone, PartialEq, Eq)]
#[non_exhaustive]
pub enum PlatformError {
    /// A failure that the backend describes in its own words.
    Message(String),
    /// A native error object, by its description.
    NsError(String),
    /// A native exception, by its description; `None` where the runtime
    /// handed over no exception object.
    ObjCException(Option<String>),
}

impl PlatformError {
    /// The text that describes the failure.
    pub open spec fn text(self) -> Seq<char> {
        match self {
            PlatformError::Message(msg) => msg@,
            PlatformError::NsError(e) => e@,
            PlatformError::ObjCException(Some(e)) => e@,
            PlatformError::ObjCException(None) => "unknown Objective-C exception"@,
        }
    }

    /// A human-readable description of the failure.
    pub fn description(&self) -> (text: String)
        ensures
            text@ == self.text(),
    {
        match self {
            PlatformError::Message(msg) => msg.clone(),
            PlatformError::NsError(e) => e.clone(),
            PlatformError::ObjCException(Some(e)) => e.clone(),
            PlatformError::ObjCException(None) => String::from_str("unknown Objective-C exception"),
        }
    }
}

/// Top-level crate error.
#[derive(Debug, Clone, PartialEq, Eq)]
#[non_exhaustive]
pub enum Error {
    DeviceNotFound,
    UnsupportedFormat,
    AlreadyStarted,
    NotStarted,
    Platform(PlatformError),
}

impl Error {
    /// The text that describes the error.
    pub open spec fn text(self) -> Seq<char> {
        match self {
            Error::DeviceNotFound => "no such device"@,
            Error::UnsupportedFormat => "unsupported format"@,
            Error::AlreadyStarted => "stream already started"@,
            Error::NotStarted => "stream not started"@,
            Error::Platform(e) => "platform error: "@ + e.text(),
        }
    }

    /// The error is a platform failure that the backend describes by
    /// exactly the given message.
    pub open spec fn is_message(self, message: Seq<char>) -> bool {
        self matches Error::Platform(PlatformError::Message(m)) && m@ == message
    }

    /// The platform failure that a backend describes by the given message.
    pub fn message(message: &str) -> (error: Error)
        ensures
            error.is_message(message@),
    {
        Error::Platform(PlatformError::Message(String::from_str(message)))
    }

    /// A human-readable description of the error.
    pub fn description(&self) -> (text: String)
        ensures
            text@ == self.text(),
    {
        match self {
            Error::DeviceNotFound => String::from_str("no such device"),
            Error::UnsupportedFormat => String::from_str("unsupported format"),
            Error::AlreadyStarted => String::from_str("stream already started"),
            Error::NotStarted => String::from_str("stream not started"),
            Error::Platform(e) => {
                let detail = e.description();
                String::from_str("platform error: ").concat(detail.as_str())
            },
        }
    }

    /// The platform failure behind the error, if a backend caused it.
    pub fn source(&self) -> (cause: Option<&PlatformError>)
        ensures
            match *self {
                Error::Platform(e) => cause == Some(&e),
                _ => cause.is_none(),
            },
    {
        match self {
            Error::Platform(e) => Some(e),
            _ => None,
        }
    }
}

impl From<PlatformError> for Error {
    fn from(e: PlatformError) -> (error: Error) {
        Error::Platform(e)
    }
}

impl FromSpecImpl<PlatformError> for Error {
    open spec fn obeys_from_spec() -> bool {
        true
    }

    open spec fn from_spec(e: PlatformError) -> Error {
        Error::Platform(e)
    }
}

} // verus!
