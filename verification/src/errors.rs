//! Why an authentication flow stops.

use vstd::prelude::*;

verus! {

/// Everything that can end an authentication attempt without a token.
#[derive(Clone, Debug, PartialEq, Eq)]
pub enum AuthError {
    /// A required credential or configuration value is absent.
    ConfigMissing,
    /// The system browser could not be opened on the authorization URL.
    BrowserOpenFailed,
    /// The local redirect endpoint could not be bound.
    ListenerBindFailed,
    /// No redirect arrived before the deadline.
    RedirectTimeout,
    /// The captured redirect carries no `code` parameter.
    MissingCode,
    /// The captured redirect carries no `state` parameter.
    MissingState,
    /// The captured redirect's `state` differs from the one sent, so
    /// the redirect may be forged and the code is never exchanged.
    StateMismatch,
    /// The redirect URI is not of the expected `scheme://host:port/...`
    /// shape, so no listen address can be derived from it.
    MalformedRedirectUri,
    /// The token endpoint answered with a non-success status.
    TokenExchangeFailed {
        /// The status the endpoint answered with.
        status: u16,
        /// The body it sent along, for diagnostics.
        body: Vec<u8>,
    },
    /// The token endpoint's reply misses `access_token` or
    /// `expires_in`, or the expiry cannot be represented.
    MalformedTokenResponse,
}

} // verus!
