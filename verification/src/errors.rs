//! Two-tier error taxonomy shared by every service of the crate.
//!
//! A `ClientError` is a failure attributable to caller input or caller-visible
//! state and is safe to report by kind.  A `ServerError` wraps unexpected or
//! infrastructure failures and is reported to callers only generically.

use vstd::prelude::*;

verus! {

/// Failures attributable to the caller, safe to report by kind.
#[derive(Debug, Clone, Copy, PartialEq, Eq, Structural)]
pub enum AuthenticationClientError {
    InvalidCredentials,
    AccountLocked,
    AccountNotFound,
    AccountAlreadyExists,
    InvalidRefreshToken,
    ExpiredRefreshToken,
    InvalidAccessToken,
    ExpiredAccessToken,
    InvalidSessionId,
    InvalidAccountId,
    AuthenticationRequired,
    SessionNotFound,
}

/// Either an infrastructure failure (server fault, with an internal message
/// that must not be forwarded to clients) or an enumerated client fault.
#[derive(Debug, Clone)]
pub enum AuthenticationServiceError {
    ServerError(String),
    ClientError(AuthenticationClientError),
}

impl AuthenticationClientError {
    /// The error kinds produced by credential or access-token checking.
    pub fn is_authentication_error(&self) -> (r: bool)
        ensures
            r == (self is InvalidCredentials || self is InvalidAccessToken
                || self is ExpiredAccessToken || self is AuthenticationRequired),
    {
        matches!(
            self,
            AuthenticationClientError::InvalidCredentials
                | AuthenticationClientError::InvalidAccessToken
                | AuthenticationClientError::ExpiredAccessToken
                | AuthenticationClientError::AuthenticationRequired
        )
    }

    /// The error kinds produced by refresh-token exchange.
    pub fn is_refresh_token_error(&self) -> (r: bool)
        ensures
            r == (self is InvalidRefreshToken || self is ExpiredRefreshToken),
    {
        matches!(
            self,
            AuthenticationClientError::InvalidRefreshToken
                | AuthenticationClientError::ExpiredRefreshToken
        )
    }

    /// The error kinds produced by account lookup.
    pub fn is_account_error(&self) -> (r: bool)
        ensures
            r == (self is AccountLocked || self is AccountNotFound),
    {
        matches!(
            self,
            AuthenticationClientError::AccountLocked | AuthenticationClientError::AccountNotFound
        )
    }

    /// The error kinds produced by session lookup.
    pub fn is_session_error(&self) -> (r: bool)
        ensures
            r == (self is SessionNotFound),
    {
        matches!(self, AuthenticationClientError::SessionNotFound)
    }
}

impl AuthenticationServiceError {
    /// Wraps an infrastructure failure message as a server fault.
    pub fn from_error(message: String) -> (r: Self)
        ensures
            r matches AuthenticationServiceError::ServerError(m) && m == message,
    {
        AuthenticationServiceError::ServerError(message)
    }

    /// Tags a client fault.
    pub fn client(client_error: AuthenticationClientError) -> (r: Self)
        ensures
            r matches AuthenticationServiceError::ClientError(e) && e == client_error,
    {
        AuthenticationServiceError::ClientError(client_error)
    }

    pub fn is_client_error(&self) -> (r: bool)
        ensures
            r == (self is ClientError),
    {
        matches!(self, AuthenticationServiceError::ClientError(_))
    }

    pub fn is_server_error(&self) -> (r: bool)
        ensures
            r == (self is ServerError),
    {
        matches!(self, AuthenticationServiceError::ServerError(_))
    }

    /// The client fault carried by this error, if it is one.
    pub fn client_error(&self) -> (r: Option<AuthenticationClientError>)
        ensures
            match *self {
                AuthenticationServiceError::ClientError(e) => r == Some(e),
                AuthenticationServiceError::ServerError(_) => r is None,
            },
    {
        match self {
            AuthenticationServiceError::ClientError(e) => Some(*e),
            AuthenticationServiceError::ServerError(_) => None,
        }
    }
}

} // verus!
