//! The error taxonomy shared by the client and the command layer, and
//! its rendering as the plain strings shown to the caller.

use vstd::prelude::*;
use crate::digits::dec_seq;
use crate::digits::u64_to_string;

verus! {

/// One of the four configuration values that must be present before a
/// client can be constructed.
#[derive(Debug, Clone, Copy, PartialEq, Eq, Structural)]
pub enum CredentialVar {
    Host,
    Node,
    TokenId,
    TokenSecret,
}

/// Every failure the client or the command layer can report.
#[derive(Debug, Clone, PartialEq, Eq)]
pub enum ApiError {
    /// Construction-time failure: the named configuration value was absent.
    MissingCredential(CredentialVar),
    /// The request could not be sent at all; carries the transport's own
    /// rendered message verbatim.
    TransportError(String),
    /// The remote answered with a status outside the success range.
    HttpStatusError(u16),
    /// The response body did not decode as the expected envelope.
    DecodeError,
    /// A command was invoked while no client instance is live.
    NotInitialized,
    /// IP enrichment found no usable interface; absorbed locally by the
    /// listing and never surfaced to its caller.
    NoIpFound,
}

/// The environment-variable name under which a credential is looked up.
pub open spec fn credential_var_name(v: CredentialVar) -> Seq<char> {
    match v {
        CredentialVar::Host => "PROXMOX_HOST"@,
        CredentialVar::Node => "PROXMOX_NODE"@,
        CredentialVar::TokenId => "PROXMOX_TOKEN_ID"@,
        CredentialVar::TokenSecret => "PROXMOX_TOKEN_SECRET"@,
    }
}

/// The string a caller sees for each error.
pub open spec fn message_spec(e: ApiError) -> Seq<char> {
    match e {
        ApiError::MissingCredential(v) => credential_var_name(v) + " not set in .env file"@,
        ApiError::TransportError(m) => m@,
        ApiError::HttpStatusError(code) => "API error: "@ + dec_seq(code as nat),
        ApiError::DecodeError => "Failed to parse response"@,
        ApiError::NotInitialized => "Proxmox client not initialized"@,
        ApiError::NoIpFound => "No IP found"@,
    }
}

/// Whether an HTTP status code counts as success (2xx).
pub open spec fn http_success(code: u16) -> bool {
    200 <= code < 300
}

/// Exec test for the HTTP success range.
pub fn status_is_success(code: u16) -> (r: bool)
    ensures
        r == http_success(code),
{
    200 <= code && code < 300
}

fn credential_var_str(v: CredentialVar) -> (r: &'static str)
    ensures
        r@ == credential_var_name(v),
{
    match v {
        CredentialVar::Host => "PROXMOX_HOST",
        CredentialVar::Node => "PROXMOX_NODE",
        CredentialVar::TokenId => "PROXMOX_TOKEN_ID",
        CredentialVar::TokenSecret => "PROXMOX_TOKEN_SECRET",
    }
}

impl ApiError {
    /// Renders the error as the plain descriptive string handed to the
    /// caller.
    pub fn message(&self) -> (r: String)
        ensures
            r@ == message_spec(*self),
    {
        match self {
            ApiError::MissingCredential(v) => {
                let mut out = String::from_str(credential_var_str(*v));
                out.append(" not set in .env file");
                out
            },
            ApiError::TransportError(m) => m.clone(),
            ApiError::HttpStatusError(code) => {
                let mut out = String::from_str("API error: ");
                let digits = u64_to_string(*code as u64);
                out.append(digits.as_str());
                out
            },
            ApiError::DecodeError => String::from_str("Failed to parse response"),
            ApiError::NotInitialized => String::from_str("Proxmox client not initialized"),
            ApiError::NoIpFound => String::from_str("No IP found"),
        }
    }
}

} // verus!
