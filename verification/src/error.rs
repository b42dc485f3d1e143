//! The failures that end the construction of an application.

use vstd::prelude::*;

verus! {

/// Why an application could not be constructed.
///
/// Every failure is final: construction yields either a complete application
/// or one of these values, never a partly working instance.
#[derive(Debug, Clone, Copy, PartialEq, Eq, Structural)]
pub enum QuarkError {
    /// The frontend path does not exist or cannot be read.
    FrontendPathMissing,
    /// The entry document is not valid UTF-8.
    IncludeDirCouldntConvertToUTF8,
    /// No local port could be bound for the development server.
    ServerPortIsntAvailable,
    /// The development server could not be started.
    ServerError,
}

impl QuarkError {
    /// The text that `message` returns for this error.
    pub open spec fn spec_message(self) -> Seq<char> {
        match self {
            QuarkError::FrontendPathMissing => "frontend path missing"@,
            QuarkError::IncludeDirCouldntConvertToUTF8 => "include directory could not convert to UTF-8"@,
            QuarkError::ServerPortIsntAvailable => "server port isn't available"@,
            QuarkError::ServerError => "server error"@,
        }
    }

    /// A short description of the failure, for display or logging.
    pub fn message(&self) -> (text: &'static str)
        ensures
            text@ == self.spec_message(),
    {
        match self {
            QuarkError::FrontendPathMissing => "frontend path missing",
            QuarkError::IncludeDirCouldntConvertToUTF8 => "include directory could not convert to UTF-8",
            QuarkError::ServerPortIsntAvailable => "server port isn't available",
            QuarkError::ServerError => "server error",
        }
    }
}

} // verus!
