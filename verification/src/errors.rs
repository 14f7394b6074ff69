use vstd::prelude::*;
use vstd::string::StringExecFns;

verus! {

/// The error kinds that the library's fallible operations report.
///
/// Each variant carries a human-readable detail string; `message` prefixes
/// it with the category label shown to the user.
#[derive(Debug)]
pub enum Error {
    FileError(String),
    NetworkError(String),
    CryptoError(String),
    InvalidInput(String),
    ConfigError(String),
    SessionError(String),
    UnknownIssue(String),
}

impl Error {
    /// The category label of this error kind.
    pub open spec fn spec_label(&self) -> Seq<char> {
        match self {
            Error::FileError(_) => "File Error: "@,
            Error::NetworkError(_) => "Network Error: "@,
            Error::CryptoError(_) => "Cryptography Error: "@,
            Error::InvalidInput(_) => "Invalid Input: "@,
            Error::ConfigError(_) => "Configuration Error: "@,
            Error::SessionError(_) => "Session Error: "@,
            Error::UnknownIssue(_) => "Unknown Issue: "@,
        }
    }

    /// The detail string carried by this error.
    pub open spec fn spec_detail(&self) -> Seq<char> {
        match self {
            Error::FileError(m) => m@,
            Error::NetworkError(m) => m@,
            Error::CryptoError(m) => m@,
            Error::InvalidInput(m) => m@,
            Error::ConfigError(m) => m@,
            Error::SessionError(m) => m@,
            Error::UnknownIssue(m) => m@,
        }
    }

    /// User-visible rendering: the category label followed by the detail.
    pub fn message(&self) -> (r: String)
        ensures
            r@ == self.spec_label() + self.spec_detail(),
    {
        match self {
            Error::FileError(m) => String::from_str("File Error: ").concat(m.as_str()),
            Error::NetworkError(m) => String::from_str("Network Error: ").concat(m.as_str()),
            Error::CryptoError(m) => String::from_str("Cryptography Error: ").concat(m.as_str()),
            Error::InvalidInput(m) => String::from_str("Invalid Input: ").concat(m.as_str()),
            Error::ConfigError(m) => String::from_str("Configuration Error: ").concat(m.as_str()),
            Error::SessionError(m) => String::from_str("Session Error: ").concat(m.as_str()),
            Error::UnknownIssue(m) => String::from_str("Unknown Issue: ").concat(m.as_str()),
        }
    }
}

} // verus!
