use vstd::prelude::*;

verus! {

/// What the host's native platform call reported when it failed.
///
/// The two cases mirror the points at which plugin setup can fail: the
/// native registration call itself, and the deserialization of the plugin's
/// invocation-time configuration by the typed plugin API.
#[derive(Debug)]
pub enum PlatformFailure {
    /// The native registration call failed (class not found, binder error,
    /// missing entry symbol, failed native construction).
    Registration { message: String },
    /// The invocation-time plugin configuration could not be deserialized.
    Deserialization { message: String },
}

/// Failure surfaced by plugin setup to the host runtime.
#[derive(Debug)]
pub enum Error {
    /// Native platform registration failed (desktop or mobile).
    Registration { message: String },
    /// Deserialization of the invocation-time configuration failed.
    Deserialization { message: String },
}

/// The error that a platform failure surfaces: the failure is passed
/// through as-is, kind and message unchanged.
pub open spec fn error_of(failure: PlatformFailure) -> Error {
    match failure {
        PlatformFailure::Registration { message } => Error::Registration { message },
        PlatformFailure::Deserialization { message } => Error::Deserialization { message },
    }
}

impl PlatformFailure {
    /// Surface this failure as the setup error, kind and message unchanged.
    pub fn into_error(self) -> (r: Error)
        ensures
            r == error_of(self),
    {
        match self {
            PlatformFailure::Registration { message } => Error::Registration { message },
            PlatformFailure::Deserialization { message } => Error::Deserialization { message },
        }
    }
}

impl Error {
    /// The message carried by either failure case.
    pub open spec fn message_view(self) -> Seq<char> {
        match self {
            Error::Registration { message } => message@,
            Error::Deserialization { message } => message@,
        }
    }

    /// The host-facing description of the failure.
    pub fn message(&self) -> (r: &str)
        ensures
            r@ == self.message_view(),
    {
        match self {
            Error::Registration { message } => message.as_str(),
            Error::Deserialization { message } => message.as_str(),
        }
    }
}

} // verus!
