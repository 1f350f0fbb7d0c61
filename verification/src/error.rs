//! Classification of failed HTTP exchanges into the library's error taxonomy.
//!
//! Every failure is terminal for its call: a 404 status becomes
//! [`KrateError::KrateNotFound`], every other transport, status or decode
//! failure becomes [`KrateError::OtherKrateError`] carrying the underlying
//! cause's description, and an invalid identification string is rejected
//! before any network activity as [`KrateError::ConfigError`].

use vstd::prelude::*;
use vstd::string::StringExecFns;

verus! {

/// The error taxonomy of the library.
///
/// `ConfigError` is produced before any network call, when the
/// caller-supplied identification string has no visible character.
/// `KrateNotFound` is produced when the registry answers with status 404.
/// `OtherKrateError` wraps the description of any other failure: a network
/// error, a non-404 error status, or a malformed response body.
#[derive(Debug, Clone, PartialEq, Eq)]
pub enum KrateError {
    ConfigError,
    KrateNotFound,
    OtherKrateError(String),
}

impl KrateError {
    /// The user-visible message of this error.
    pub open spec fn spec_message(self) -> Seq<char> {
        match self {
            KrateError::ConfigError => "User Agent must be a string with at least one character"@,
            KrateError::KrateNotFound => "Crate name is not found. Did you mispell the crate name?"@,
            KrateError::OtherKrateError(description) => "Server Status Error: "@ + description@,
        }
    }

    /// Renders the fixed, descriptive message of this error.
    pub fn message(&self) -> (r: String)
        ensures
            r@ == self.spec_message(),
    {
        match self {
            KrateError::ConfigError => "User Agent must be a string with at least one character".to_owned(),
            KrateError::KrateNotFound => "Crate name is not found. Did you mispell the crate name?".to_owned(),
            KrateError::OtherKrateError(description) => {
                let mut r = "Server Status Error: ".to_owned();
                r.append(description.as_str());
                r
            },
        }
    }
}

/// The status code of the one response the registry answers a missing
/// package with.
pub const NOT_FOUND_STATUS: u16 = 404;

/// Whether an HTTP status code reports success, so that the response body
/// is decoded rather than run through the error classifier.
pub open spec fn spec_is_success_status(status: u16) -> bool {
    200 <= status < 300
}

/// Decides whether a response with the given status code carries a package
/// record (and must be decoded) or is a failure (and must be classified).
pub fn is_success_status(status: u16) -> (r: bool)
    ensures
        r == spec_is_success_status(status),
{
    200 <= status && status < 300
}

/// Classifies a failed HTTP exchange.
///
/// `status` is the response's status code, if a response arrived at all,
/// and `description` is the underlying failure's description. A 404 means
/// the requested package does not exist; everything else is surfaced as an
/// other-error wrapping the description.
pub fn handle_error(status: Option<u16>, description: String) -> (r: KrateError)
    ensures
        r == (if status == Some(404u16) {
            KrateError::KrateNotFound
        } else {
            KrateError::OtherKrateError(description)
        }),
{
    match status {
        Some(code) => {
            if code == NOT_FOUND_STATUS {
                KrateError::KrateNotFound
            } else {
                KrateError::OtherKrateError(description)
            }
        },
        None => KrateError::OtherKrateError(description),
    }
}

} // verus!
