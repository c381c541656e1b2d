//! The error type shared by every service operation.

use crate::text::concat2;
use vstd::prelude::*;

verus! {

/// Why a service operation failed.
#[derive(Debug, PartialEq, Eq)]
pub enum ServiceError {
    /// A start was requested while a service is active.
    AlreadyRunning,
    /// An operation that needs an active service found none.
    NotRunning,
    /// The service could not initialise.
    Init(String),
    /// The service failed while running, or the manager could not be reached.
    Runtime(String),
    /// The platform refused or failed an operation.
    Platform(String),
}

impl ServiceError {
    /// The text that [`ServiceError::message`] gives.
    pub open spec fn message_text(&self) -> Seq<char> {
        match self {
            ServiceError::AlreadyRunning => "Service is already running"@,
            ServiceError::NotRunning => "Service is not running"@,
            ServiceError::Init(detail) => "Initialisation failed: "@ + detail@,
            ServiceError::Runtime(detail) => "Runtime error: "@ + detail@,
            ServiceError::Platform(detail) => "Platform error: "@ + detail@,
        }
    }

    /// The error as one line of text for users and logs.
    pub fn message(&self) -> (text: String)
        ensures
            text@ == self.message_text(),
    {
        match self {
            ServiceError::AlreadyRunning => "Service is already running".to_owned(),
            ServiceError::NotRunning => "Service is not running".to_owned(),
            ServiceError::Init(detail) => concat2("Initialisation failed: ", detail.as_str()),
            ServiceError::Runtime(detail) => concat2("Runtime error: ", detail.as_str()),
            ServiceError::Platform(detail) => concat2("Platform error: ", detail.as_str()),
        }
    }
}

/// The message of an error names its kind and then gives the detail, if there
/// is one, in full.
pub proof fn messages_name_the_kind(error: ServiceError, text: String)
    requires
        call_ensures(ServiceError::message, (&error,), text),
    ensures
        error is AlreadyRunning ==> text@ == "Service is already running"@,
        error is NotRunning ==> text@ == "Service is not running"@,
        error matches ServiceError::Init(detail) ==> text@ == "Initialisation failed: "@ + detail@,
        error matches ServiceError::Runtime(detail) ==> text@ == "Runtime error: "@ + detail@,
        error matches ServiceError::Platform(detail) ==> text@ == "Platform error: "@ + detail@,
{
}

} // verus!
