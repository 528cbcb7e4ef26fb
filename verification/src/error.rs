//! What can be wrong with the options before any request is made.

use vstd::prelude::*;
use vstd::string::StringExecFns;

verus! {

/// A fault in the configuration. Each one is fatal, and found before any
/// network activity.
#[derive(Clone, Copy, Debug, PartialEq, Eq, Structural)]
pub enum ConfigError {
    /// The method flag names none of the supported verbs.
    InvalidMethod,
    /// The file of CA certificates could not be opened.
    CaFileNotOpened,
    /// The file of CA certificates could not be read.
    CaFileNotRead,
    /// The file of CA certificates holds no valid DER certificate.
    InvalidDerCertificate,
    /// The file of CA certificates holds no valid PEM bundle.
    InvalidPemBundle,
}

impl ConfigError {
    /// The reason, as it is shown to the user.
    pub open spec fn spec_reason(self) -> Seq<char> {
        match self {
            ConfigError::InvalidMethod => "invalid request method"@,
            ConfigError::CaFileNotOpened => "failed to open CA certificate file"@,
            ConfigError::CaFileNotRead => "failed to read CA certificate file"@,
            ConfigError::InvalidDerCertificate => "failed to load DER certificate"@,
            ConfigError::InvalidPemBundle => "failed to load PEM certificate bundle"@,
        }
    }

    /// The reason, as it is shown to the user.
    pub fn reason(self) -> (text: String)
        ensures
            text@ == self.spec_reason(),
    {
        match self {
            ConfigError::InvalidMethod => String::from_str("invalid request method"),
            ConfigError::CaFileNotOpened => String::from_str("failed to open CA certificate file"),
            ConfigError::CaFileNotRead => String::from_str("failed to read CA certificate file"),
            ConfigError::InvalidDerCertificate => String::from_str(
                "failed to load DER certificate",
            ),
            ConfigError::InvalidPemBundle => String::from_str(
                "failed to load PEM certificate bundle",
            ),
        }
    }
}

} // verus!
