//! Error type of the attestation library.

use vstd::prelude::*;
use vstd::string::*;

verus! {

/// The errors that retrieving or verifying an attestation can end in. Each
/// carries a text that says what went wrong.
#[derive(Debug)]
pub enum Error {
    /// A file, device or process could not be reached.
    IoError(String),
    /// The operation or platform lacks a required capability.
    NotSupported(String),
    /// A fixed-layout binary or structured payload could not be decoded.
    ParseError(String),
    /// The attestation device call failed.
    QuoteError(String),
    /// Extending a runtime measurement register failed.
    RtmrExtendError(String),
    /// A guest address could not be translated.
    AddressError(String),
    /// A structured payload could not be encoded or decoded.
    SerializationError(String),
    /// A signature or certificate was misused, misconfigured or found invalid.
    SignatureError(String),
    /// A verification step completed with an untrusted result.
    VerificationError(String),
}

impl Error {
    /// The name of the error's kind as its message gives it, with the colon
    /// and the space behind it.
    pub open spec fn prefix(&self) -> Seq<char> {
        match self {
            Error::IoError(_) => "IO error: "@,
            Error::NotSupported(_) => "Not supported: "@,
            Error::ParseError(_) => "Parse error: "@,
            Error::QuoteError(_) => "Quote error: "@,
            Error::RtmrExtendError(_) => "RTMR extend error: "@,
            Error::AddressError(_) => "Address error: "@,
            Error::SerializationError(_) => "Serialization error: "@,
            Error::SignatureError(_) => "Signature error: "@,
            Error::VerificationError(_) => "Verification error: "@,
        }
    }

    /// The text that the error carries.
    pub open spec fn detail(&self) -> Seq<char> {
        match self {
            Error::IoError(text) => text@,
            Error::NotSupported(text) => text@,
            Error::ParseError(text) => text@,
            Error::QuoteError(text) => text@,
            Error::RtmrExtendError(text) => text@,
            Error::AddressError(text) => text@,
            Error::SerializationError(text) => text@,
            Error::SignatureError(text) => text@,
            Error::VerificationError(text) => text@,
        }
    }

    /// The error's message: the name of its kind, a colon, and the text it
    /// carries.
    pub fn message(&self) -> (text: String)
        ensures
            text@ == self.prefix() + self.detail(),
    {
        match self {
            Error::IoError(text) => String::from_str("IO error: ").concat(text.as_str()),
            Error::NotSupported(text) => String::from_str("Not supported: ").concat(text.as_str()),
            Error::ParseError(text) => String::from_str("Parse error: ").concat(text.as_str()),
            Error::QuoteError(text) => String::from_str("Quote error: ").concat(text.as_str()),
            Error::RtmrExtendError(text) => String::from_str("RTMR extend error: ").concat(
                text.as_str(),
            ),
            Error::AddressError(text) => String::from_str("Address error: ").concat(text.as_str()),
            Error::SerializationError(text) => String::from_str("Serialization error: ").concat(
                text.as_str(),
            ),
            Error::SignatureError(text) => String::from_str("Signature error: ").concat(
                text.as_str(),
            ),
            Error::VerificationError(text) => String::from_str("Verification error: ").concat(
                text.as_str(),
            ),
        }
    }
}

} // verus!
