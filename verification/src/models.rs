//! Record models and data-transfer shapes.
//!
//! Identifiers are plain integers inside the library; callers see them in
//! the prefixed text form (`acc_<n>` for accounts, `ses_<n>` for sessions).
//! Timestamps are unix seconds.

use vstd::prelude::*;

use crate::codec::{format_named_id, named_id};

verus! {

/// The text form of an account identifier.
pub open spec fn account_named(id: u64) -> Seq<char> {
    named_id("acc_"@, id as nat)
}

/// The text form of a session identifier.
pub open spec fn session_named(id: u64) -> Seq<char> {
    named_id("ses_"@, id as nat)
}

/// Renders an account identifier as `acc_<n>`.
pub fn format_account_id(id: u64) -> (r: String)
    ensures
        r@ == account_named(id),
{
    format_named_id("acc_", id)
}

/// Renders a session identifier as `ses_<n>`.
pub fn format_session_id(id: u64) -> (r: String)
    ensures
        r@ == session_named(id),
{
    format_named_id("ses_", id)
}

/// A stored account row.
#[derive(Debug)]
pub struct AccountModel {
    pub id: u64,
    pub username: String,
    /// The salted one-way hash of the password, never the password itself.
    pub password: String,
    pub created_at: u64,
    pub updated_at: u64,
}

impl Clone for AccountModel {
    fn clone(&self) -> (r: Self)
        ensures
            r.id == self.id,
            r.username@ == self.username@,
            r.password@ == self.password@,
            r.created_at == self.created_at,
            r.updated_at == self.updated_at,
    {
        AccountModel {
            id: self.id,
            username: self.username.clone(),
            password: self.password.clone(),
            created_at: self.created_at,
            updated_at: self.updated_at,
        }
    }
}

/// A stored session row: the binding of an account to one refresh-token
/// hash, its expiry, an active flag, and request metadata.
#[derive(Debug)]
pub struct SessionModel {
    pub id: u64,
    pub account_id: u64,
    /// One-way hash of the refresh secret; unique across all rows.
    pub refresh_hash: String,
    pub created_at: u64,
    pub expires_at: u64,
    pub is_active: bool,
    pub ip_address: String,
    pub user_agent: String,
}

impl Clone for SessionModel {
    fn clone(&self) -> (r: Self)
        ensures
            r.id == self.id,
            r.account_id == self.account_id,
            r.refresh_hash@ == self.refresh_hash@,
            r.created_at == self.created_at,
            r.expires_at == self.expires_at,
            r.is_active == self.is_active,
            r.ip_address@ == self.ip_address@,
            r.user_agent@ == self.user_agent@,
    {
        SessionModel {
            id: self.id,
            account_id: self.account_id,
            refresh_hash: self.refresh_hash.clone(),
            created_at: self.created_at,
            expires_at: self.expires_at,
            is_active: self.is_active,
            ip_address: self.ip_address.clone(),
            user_agent: self.user_agent.clone(),
        }
    }
}

/// The payload persisted when a session row is created.
#[derive(Debug)]
pub struct CreateSessionOptions {
    pub account_id: u64,
    pub refresh_hash: String,
    pub expires_at: u64,
    pub user_agent: String,
    pub ip_address: String,
    pub is_active: bool,
}

/// Origin address and client agent string taken from the request.
#[derive(Debug)]
pub struct RequestInfoExtractor {
    pub ip_address: String,
    pub user_agent: String,
}

impl Clone for RequestInfoExtractor {
    fn clone(&self) -> (r: Self)
        ensures
            r.ip_address@ == self.ip_address@,
            r.user_agent@ == self.user_agent@,
    {
        RequestInfoExtractor {
            ip_address: self.ip_address.clone(),
            user_agent: self.user_agent.clone(),
        }
    }
}

/// Request to create an account.
#[derive(Debug)]
pub struct CreateAccountRequestDTO {
    pub username: String,
    pub password: String,
}

/// Request to change an account's username and/or password.
#[derive(Debug)]
pub struct UpdateAccountRequestDTO {
    pub username: Option<String>,
    pub password: Option<String>,
}

/// Request to delete an account by its text identifier.
#[derive(Debug)]
pub struct DeleteAccountRequestDTO {
    pub id: String,
}

/// Credentials presented on sign-in.
#[derive(Debug)]
pub struct SignInRequestDto {
    pub username: String,
    pub password: String,
}

/// Credentials accepted on sign-up.
#[derive(Debug)]
pub struct SignUpResponseDto {
    pub username: String,
    pub password: String,
}

/// Request to create an account (storage-level shape).
#[derive(Debug)]
pub struct CreateAccountDTO {
    pub username: String,
    pub password: String,
}

/// Request to update an account (storage-level shape).
#[derive(Debug)]
pub struct UpdateAccountDTO {
    pub username: Option<String>,
    pub password: Option<String>,
}

/// Credentials presented on login (storage-level shape).
#[derive(Debug)]
pub struct LoginDTO {
    pub username: String,
    pub password: String,
}

/// An account as shown to callers: the password hash is never included.
#[derive(Debug)]
pub struct AccountDTO {
    pub id: String,
    pub username: String,
    pub created_at: u64,
    pub updated_at: u64,
}

impl AccountDTO {
    /// The caller-facing view of an account row.
    pub fn from_model(account: &AccountModel) -> (r: Self)
        ensures
            r.id@ == account_named(account.id),
            r.username@ == account.username@,
            r.created_at == account.created_at,
            r.updated_at == account.updated_at,
    {
        AccountDTO {
            id: format_account_id(account.id),
            username: account.username.clone(),
            created_at: account.created_at,
            updated_at: account.updated_at,
        }
    }
}

/// A session as shown to callers: the refresh-token hash is never included.
#[derive(Debug)]
pub struct SessionDTO {
    pub id: String,
    pub account_id: String,
    pub ip_address: String,
    pub user_agent: String,
    pub expires_at: u64,
}

impl SessionDTO {
    /// The caller-facing view of a session row.
    pub fn from_model(session: &SessionModel) -> (r: Self)
        ensures
            r.id@ == session_named(session.id),
            r.account_id@ == account_named(session.account_id),
            r.ip_address@ == session.ip_address@,
            r.user_agent@ == session.user_agent@,
            r.expires_at == session.expires_at,
    {
        SessionDTO {
            id: format_session_id(session.id),
            account_id: format_account_id(session.account_id),
            ip_address: session.ip_address.clone(),
            user_agent: session.user_agent.clone(),
            expires_at: session.expires_at,
        }
    }
}

/// Everything handed back on a successful registration, login or refresh:
/// the new session's identifiers, the signed access token, and the raw
/// refresh secret (returned exactly once, only its hash is stored).
#[derive(Debug)]
pub struct AuthenticationResponseDto {
    pub account_id: String,
    pub session_id: String,
    pub access_token: String,
    pub refresh_token: String,
    pub access_token_expires_at: u64,
    pub refresh_token_expires_at: u64,
}

} // verus!
