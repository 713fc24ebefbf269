//! The kinds of failure that the certificate lifecycle distinguishes.

use vstd::prelude::*;
use vstd::string::StringExecFns;

verus! {

/// Why a step of the certificate lifecycle failed.
#[derive(Clone, Copy, Debug, PartialEq, Eq, Structural)]
pub enum LifecycleError {
    /// A job definition lacks a bind address or a domain.
    Configuration,
    /// The authority offered no HTTP-01 challenge for a domain.
    ChallengeUnavailable,
    /// The authority rejected, or did not confirm, the proof of control.
    ValidationFailed,
    /// An exchange with the authority failed in transport.
    Network,
    /// A key, certificate or proof file could not be read or written.
    FileIo,
    /// The certificate on disk is not a parseable PEM certificate.
    MalformedCertificate,
}

impl LifecycleError {
    /// The text that describes this kind of failure.
    pub open spec fn message_text(self) -> Seq<char> {
        match self {
            LifecycleError::Configuration => "malformed certificate job definition"@,
            LifecycleError::ChallengeUnavailable => "HTTP challenge not found"@,
            LifecycleError::ValidationFailed => "domain validation failed"@,
            LifecycleError::Network => "exchange with the certificate authority failed"@,
            LifecycleError::FileIo => "could not read or write a certificate file"@,
            LifecycleError::MalformedCertificate => "certificate file is not a valid PEM certificate"@,
        }
    }

    /// A description of the failure, for logs and for the message of a fatal
    /// startup error.
    pub fn message(&self) -> (text: String)
        ensures
            text@ == self.message_text(),
    {
        match self {
            LifecycleError::Configuration => String::from_str(
                "malformed certificate job definition",
            ),
            LifecycleError::ChallengeUnavailable => String::from_str("HTTP challenge not found"),
            LifecycleError::ValidationFailed => String::from_str("domain validation failed"),
            LifecycleError::Network => String::from_str(
                "exchange with the certificate authority failed",
            ),
            LifecycleError::FileIo => String::from_str(
                "could not read or write a certificate file",
            ),
            LifecycleError::MalformedCertificate => String::from_str(
                "certificate file is not a valid PEM certificate",
            ),
        }
    }
}

} // verus!
