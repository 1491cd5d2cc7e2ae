//! Error types of the library.

use vstd::prelude::*;

verus! {

/// Errors raised by mint / publish / wallet-side operations.
#[derive(Debug)]
pub enum Error {
    /// A BBS+ operation failed.
    Bbs(String),
    /// An Ed25519 operation failed.
    Ed25519(String),
    /// A value could not be encoded.
    Encoding(String),
    /// An argument was rejected.
    InvalidInput(String),
    /// Canonical serialization failed.
    Jcs(String),
}

/// Errors raised by verification.
#[derive(Debug)]
pub enum VerifyError {
    /// The BBS+ proof (or an inclusion proof) is invalid.
    ProofInvalid,
    /// The Ed25519 signature is invalid.
    HolderSignatureInvalid,
    /// The keyset does not match the credential.
    KeysetMismatch,
    /// The credential has already been used (double review).
    AlreadyUsed,
    /// The payload is malformed.
    Malformed(String),
}

impl Error {
    /// The human-readable description of the error: a fixed prefix naming the
    /// kind of failure, followed by the carried detail.
    pub open spec fn message_spec(&self) -> Seq<char> {
        match self {
            Error::Bbs(m) => "BBS+ error: "@ + m@,
            Error::Ed25519(m) => "Ed25519 error: "@ + m@,
            Error::Encoding(m) => "encoding error: "@ + m@,
            Error::InvalidInput(m) => "invalid input: "@ + m@,
            Error::Jcs(m) => "canonical serialization error: "@ + m@,
        }
    }

    /// The human-readable description of the error.
    pub fn message(&self) -> (text: String)
        ensures
            text@ == self.message_spec(),
    {
        match self {
            Error::Bbs(m) => prefixed("BBS+ error: ", m),
            Error::Ed25519(m) => prefixed("Ed25519 error: ", m),
            Error::Encoding(m) => prefixed("encoding error: ", m),
            Error::InvalidInput(m) => prefixed("invalid input: ", m),
            Error::Jcs(m) => prefixed("canonical serialization error: ", m),
        }
    }
}

impl VerifyError {
    /// The human-readable description of the error.
    pub open spec fn message_spec(&self) -> Seq<char> {
        match self {
            VerifyError::ProofInvalid => "BBS+ proof is invalid"@,
            VerifyError::HolderSignatureInvalid => "Ed25519 holder signature is invalid"@,
            VerifyError::KeysetMismatch => "keyset does not match the credential"@,
            VerifyError::AlreadyUsed => "credential has already been used (double-review)"@,
            VerifyError::Malformed(m) => "malformed payload: "@ + m@,
        }
    }

    /// The human-readable description of the error.
    pub fn message(&self) -> (text: String)
        ensures
            text@ == self.message_spec(),
    {
        match self {
            VerifyError::ProofInvalid => "BBS+ proof is invalid".to_owned(),
            VerifyError::HolderSignatureInvalid => "Ed25519 holder signature is invalid".to_owned(),
            VerifyError::KeysetMismatch => "keyset does not match the credential".to_owned(),
            VerifyError::AlreadyUsed => "credential has already been used (double-review)".to_owned(),
            VerifyError::Malformed(m) => prefixed("malformed payload: ", m),
        }
    }
}

/// `prefix` followed by `rest`.
fn prefixed(prefix: &str, rest: &String) -> (text: String)
    ensures
        text@ == prefix@ + rest@,
{
    let mut s = prefix.to_owned();
    s.append(rest.as_str());
    s
}

} // verus!
