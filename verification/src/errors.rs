//! The closed set of failure kinds that the authentication core can report.

use vstd::prelude::*;

verus! {

use vstd::string::StringExecFns;

/// Why an authorization, exchange, refresh or token lookup failed.
///
/// Every fallible operation of the core reports one of these kinds; the
/// core never retries on its own and never substitutes a fallback
/// credential, so a caller can branch on the kind directly.
#[derive(Clone, Copy, Debug, PartialEq, Eq, Structural)]
pub enum AuthError {
    /// No credential row exists for the requested service.
    NotAuthenticated,
    /// The reserved client-credentials row is absent.
    MissingClientCredentials,
    /// A code exchange was attempted with no prior authorization begun.
    MissingAuthorizationContext,
    /// The authorization-code exchange answered with a non-success status.
    ExchangeFailed(u16),
    /// The refresh-token exchange answered with a non-success status.
    RefreshFailed(u16),
    /// The stored row has no refresh token, so a refresh cannot be attempted.
    ReauthenticationRequired,
    /// A downstream resource call rejected a token the core believed valid.
    Unauthorized,
    /// A token-endpoint response body could not be read as token fields.
    MalformedResponse,
}

/// The user-facing text of each failure kind. A status code carried by a
/// kind is not embedded: callers that want it read it from the variant.
pub open spec fn spec_error_message(e: AuthError) -> Seq<char> {
    match e {
        AuthError::NotAuthenticated => ("Spotify not authenticated")@,
        AuthError::MissingClientCredentials => ("Missing client credentials. Save in Settings.")@,
        AuthError::MissingAuthorizationContext => (
        "Missing authorization context. Begin authorization first.")@,
        AuthError::ExchangeFailed(_) => ("Spotify token exchange failed")@,
        AuthError::RefreshFailed(_) => ("Spotify refresh failed")@,
        AuthError::ReauthenticationRequired => ("No refresh token stored. Re-authenticate.")@,
        AuthError::Unauthorized => ("Spotify unauthorized. Re-authenticate.")@,
        AuthError::MalformedResponse => ("Malformed token response")@,
    }
}

impl AuthError {
    /// The user-facing text of this failure kind.
    pub fn message(&self) -> (r: String)
        ensures
            r@ == spec_error_message(*self),
    {
        match self {
            AuthError::NotAuthenticated => String::from_str("Spotify not authenticated"),
            AuthError::MissingClientCredentials => String::from_str(
                "Missing client credentials. Save in Settings.",
            ),
            AuthError::MissingAuthorizationContext => String::from_str(
                "Missing authorization context. Begin authorization first.",
            ),
            AuthError::ExchangeFailed(_) => String::from_str("Spotify token exchange failed"),
            AuthError::RefreshFailed(_) => String::from_str("Spotify refresh failed"),
            AuthError::ReauthenticationRequired => String::from_str(
                "No refresh token stored. Re-authenticate.",
            ),
            AuthError::Unauthorized => String::from_str("Spotify unauthorized. Re-authenticate."),
            AuthError::MalformedResponse => String::from_str("Malformed token response"),
        }
    }

    /// Whether a caller should prompt the user to restart authorization:
    /// every kind but a server-side (5xx) exchange or refresh status.
    pub fn requires_reauthorization(&self) -> (r: bool)
        ensures
            r == !((*self matches AuthError::ExchangeFailed(s) && 500 <= s < 600)
                || (*self matches AuthError::RefreshFailed(s) && 500 <= s < 600)),
    {
        match self {
            AuthError::ExchangeFailed(s) => !(500 <= *s && *s < 600),
            AuthError::RefreshFailed(s) => !(500 <= *s && *s < 600),
            _ => true,
        }
    }
}

} // verus!
