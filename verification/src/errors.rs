use vstd::prelude::*;
use vstd::string::StringExecFns;

verus! {

/// The error kinds the tool can surface to its user.
///
/// Every operation aborts on the first error; nothing is caught and
/// recovered internally.
#[derive(Debug, Clone, PartialEq)]
pub enum U2Error {
    /// The user's home-directory location could not be determined.
    EnvironmentError,
    /// A filesystem create, read, write or delete failed.
    IoError,
    /// The persisted configuration could not be parsed.
    FormatError,
    /// A download was attempted with no session cookie configured.
    AuthError,
    /// The HTTP request could not be completed.
    NetworkError,
    /// The external daemon exited with failure; carries its standard-error text.
    ExternalToolError(String),
}

impl U2Error {
    /// The message shown to the user for this error.
    pub fn message(&self) -> (r: String)
        ensures
            r@ == match self {
                U2Error::EnvironmentError => "Only support linux"@,
                U2Error::IoError => "io error"@,
                U2Error::FormatError => "invalid configuration file"@,
                U2Error::AuthError => "Need Cookie"@,
                U2Error::NetworkError => "network error"@,
                U2Error::ExternalToolError(t) => "Failed to add torrent: "@ + t@,
            },
    {
        match self {
            U2Error::EnvironmentError => String::from_str("Only support linux"),
            U2Error::IoError => String::from_str("io error"),
            U2Error::FormatError => String::from_str("invalid configuration file"),
            U2Error::AuthError => String::from_str("Need Cookie"),
            U2Error::NetworkError => String::from_str("network error"),
            U2Error::ExternalToolError(t) => {
                String::from_str("Failed to add torrent: ").concat(t.as_str())
            },
        }
    }
}

} // verus!
