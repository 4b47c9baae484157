//! Error types shared by the services: core infrastructure errors and SigV4
//! authentication failures, with their messages.

use vstd::prelude::*;
use crate::text::{push_str_chars, string_from_chars};

verus! {

/// Core error type for the emulator's infrastructure.
#[derive(Debug, Clone)]
pub enum RustackError {
    /// Invalid AWS account ID format.
    InvalidAccountId(String),
    /// Configuration error.
    Config(String),
    /// Internal error, with its description.
    Internal(String),
}

impl RustackError {
    /// The error's message.
    pub open spec fn spec_message(&self) -> Seq<char> {
        match self {
            RustackError::InvalidAccountId(id) => "invalid AWS account ID: "@ + id@
                + " (must be 12-digit numeric string)"@,
            RustackError::Config(m) => "configuration error: "@ + m@,
            RustackError::Internal(m) => m@,
        }
    }

    /// The error's message.
    pub fn message(&self) -> (r: String)
        ensures
            r@ == self.spec_message(),
    {
        let mut out: Vec<char> = Vec::new();
        match self {
            RustackError::InvalidAccountId(id) => {
                push_str_chars(&mut out, "invalid AWS account ID: ");
                push_str_chars(&mut out, id.as_str());
                push_str_chars(&mut out, " (must be 12-digit numeric string)");
            },
            RustackError::Config(m) => {
                push_str_chars(&mut out, "configuration error: ");
                push_str_chars(&mut out, m.as_str());
            },
            RustackError::Internal(m) => {
                push_str_chars(&mut out, m.as_str());
            },
        }
        string_from_chars(&out)
    }
}

/// Errors that can occur during AWS Signature Version 4 authentication.
#[derive(Debug, Clone)]
pub enum AuthError {
    /// The `Authorization` header is missing from the request.
    MissingAuthHeader,
    /// The `Authorization` header could not be parsed.
    InvalidAuthHeader,
    /// The signing algorithm is not supported (only AWS4-HMAC-SHA256 is supported).
    UnsupportedAlgorithm(String),
    /// A required HTTP header referenced in `SignedHeaders` is missing.
    MissingHeader(String),
    /// The `Credential` component does not match the expected format
    /// (`AKID/date/region/service/aws4_request`).
    InvalidCredential,
    /// The access key ID was not found in the credential store.
    AccessKeyNotFound(String),
    /// The computed signature does not match the provided signature.
    SignatureDoesNotMatch,
    /// The presigned URL has expired (current time exceeds `X-Amz-Date` + `X-Amz-Expires`).
    RequestExpired,
    /// A required query parameter for presigned URL authentication is missing.
    MissingQueryParam(String),
}

impl AuthError {
    /// The error's message.
    pub open spec fn spec_message(&self) -> Seq<char> {
        match self {
            AuthError::MissingAuthHeader => "Missing Authorization header"@,
            AuthError::InvalidAuthHeader => "Invalid Authorization header format"@,
            AuthError::UnsupportedAlgorithm(a) => "Unsupported algorithm: "@ + a@,
            AuthError::MissingHeader(h) => "Missing required header: "@ + h@,
            AuthError::InvalidCredential => "Invalid credential format"@,
            AuthError::AccessKeyNotFound(k) => "Access key not found: "@ + k@,
            AuthError::SignatureDoesNotMatch => "Signature does not match"@,
            AuthError::RequestExpired => "Request has expired"@,
            AuthError::MissingQueryParam(p) => "Missing required query parameter: "@ + p@,
        }
    }

    /// The error's message.
    pub fn message(&self) -> (r: String)
        ensures
            r@ == self.spec_message(),
    {
        let mut out: Vec<char> = Vec::new();
        match self {
            AuthError::MissingAuthHeader => push_str_chars(&mut out, "Missing Authorization header"),
            AuthError::InvalidAuthHeader => push_str_chars(
                &mut out,
                "Invalid Authorization header format",
            ),
            AuthError::UnsupportedAlgorithm(a) => {
                push_str_chars(&mut out, "Unsupported algorithm: ");
                push_str_chars(&mut out, a.as_str());
            },
            AuthError::MissingHeader(h) => {
                push_str_chars(&mut out, "Missing required header: ");
                push_str_chars(&mut out, h.as_str());
            },
            AuthError::InvalidCredential => push_str_chars(&mut out, "Invalid credential format"),
            AuthError::AccessKeyNotFound(k) => {
                push_str_chars(&mut out, "Access key not found: ");
                push_str_chars(&mut out, k.as_str());
            },
            AuthError::SignatureDoesNotMatch => push_str_chars(&mut out, "Signature does not match"),
            AuthError::RequestExpired => push_str_chars(&mut out, "Request has expired"),
            AuthError::MissingQueryParam(p) => {
                push_str_chars(&mut out, "Missing required query parameter: ");
                push_str_chars(&mut out, p.as_str());
            },
        }
        assert(out@ =~= self.spec_message());
        string_from_chars(&out)
    }
}

} // verus!
