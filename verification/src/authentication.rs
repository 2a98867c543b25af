//! The top-level use cases: register, login, refresh, logout and account
//! deletion, composed from the account, password, token and session
//! services.
//!
//! Whether a username is unknown or a password mismatches, login fails with
//! the single kind `InvalidCredentials`, so the error cannot be used to
//! probe which usernames exist.

use vstd::prelude::*;

use crate::account::AccountService;
use crate::errors::{AuthenticationClientError, AuthenticationServiceError};
use crate::models::{AuthenticationResponseDto, RequestInfoExtractor, SignInRequestDto};
use crate::password::{argon2_encoded, password_matches, PasswordService};
use crate::repository::{
    account_by_username, account_sessions_removed, has_account_id, has_hash, has_session_id,
    has_username, session_by_hash, session_index,
};
use crate::session::{hash_resolvable, session_bundle, session_created, SessionService};
use crate::token::{sha256_hex, TokenService};

verus! {

/// Orchestrates the authentication use cases over the collaborating
/// services, which are handed in per call.
#[derive(Debug, Clone)]
pub struct AuthenticationService {}

impl AuthenticationService {
    pub fn new() -> Self {
        AuthenticationService {}
    }

    /// Verifies the credentials and opens a session.  An unknown username
    /// and a mismatching password both fail with `InvalidCredentials` — the
    /// two cases are indistinguishable to the caller.  On success a new
    /// Active session is persisted and its bundle returned.
    pub fn authenticate(
        &self,
        account_service: &AccountService,
        session_service: &mut SessionService,
        token_service: &TokenService,
        password_service: &PasswordService,
        signin: SignInRequestDto,
        request_info: RequestInfoExtractor,
        now: u64,
    ) -> (r: Result<AuthenticationResponseDto, AuthenticationServiceError>)
        requires
            account_service.wf(),
            old(session_service).wf(),
        ensures
            final(session_service).wf(),
            final(session_service).refresh_lifetime_days() == old(session_service).refresh_lifetime_days(),
            !has_username(account_service.rows(), signin.username@) ==> (r matches Err(
                AuthenticationServiceError::ClientError(
                    AuthenticationClientError::InvalidCredentials,
                ),
            )),
            has_username(account_service.rows(), signin.username@) && argon2_encoded(
                account_by_username(account_service.rows(), signin.username@).password@,
            ) && signin.password@.len() < 0x4000_0000 && !password_matches(
                account_by_username(account_service.rows(), signin.username@).password@,
                signin.password@,
            ) ==> (r matches Err(
                AuthenticationServiceError::ClientError(
                    AuthenticationClientError::InvalidCredentials,
                ),
            )),
            r matches Err(AuthenticationServiceError::ClientError(c)) ==> c is InvalidCredentials,
            r matches Err(AuthenticationServiceError::ClientError(_)) ==> !has_username(
                account_service.rows(),
                signin.username@,
            ) || !password_matches(
                account_by_username(account_service.rows(), signin.username@).password@,
                signin.password@,
            ),
            r is Err ==> final(session_service).rows() == old(session_service).rows(),
            old(session_service).refresh_lifetime_days() * 86400 > u64::MAX || now + old(
                session_service,
            ).refresh_lifetime_days() * 86400 > u64::MAX ==> r is Err,
            match r {
                Ok(dto) => {
                    let account = account_by_username(account_service.rows(), signin.username@);
                    &&& has_username(account_service.rows(), signin.username@)
                    &&& password_matches(account.password@, signin.password@)
                    &&& final(session_service).rows().len() == old(session_service).rows().len()
                        + 1
                    &&& final(session_service).rows().drop_last() == old(session_service).rows()
                    &&& session_created(
                        final(session_service).rows().last(),
                        account.id,
                        now,
                        old(session_service).refresh_lifetime_days(),
                        dto.refresh_token@,
                        request_info.ip_address@,
                        request_info.user_agent@,
                    )
                    &&& dto.refresh_token_expires_at == now + old(session_service).refresh_lifetime_days() * 86400
                    &&& !has_hash(old(session_service).rows(), sha256_hex(dto.refresh_token@))
                    &&& session_bundle(
                        dto,
                        token_service.secret(),
                        token_service.access_lifetime(),
                        account.id,
                        final(session_service).rows().last().id,
                        "core-auth"@,
                        now,
                    )
                },
                Err(_) => true,
            },
    {
        let account = match account_service.get_account_by_username_and_password(
            password_service,
            signin.username.as_str(),
            signin.password.as_str(),
        ) {
            Ok(a) => a,
            Err(e) => {
                return Err(
                    match e {
                        AuthenticationServiceError::ClientError(_) => AuthenticationServiceError::ClientError(
                            AuthenticationClientError::InvalidCredentials,
                        ),
                        AuthenticationServiceError::ServerError(m) => AuthenticationServiceError::ServerError(
                            m,
                        ),
                    },
                );
            },
        };
        session_service.create_session(
            token_service,
            account.id,
            request_info,
            String::from_str("core-auth"),
            now,
        )
    }

    /// Creates the account (a taken username is `AccountAlreadyExists`,
    /// also when storage surfaces the duplicate after the pre-check) and
    /// opens its first session exactly as `authenticate` would.
    pub fn register(
        &self,
        account_service: &mut AccountService,
        token_service: &TokenService,
        session_service: &mut SessionService,
        password_service: &PasswordService,
        signin: SignInRequestDto,
        request_info: RequestInfoExtractor,
        now: u64,
    ) -> (r: Result<AuthenticationResponseDto, AuthenticationServiceError>)
        requires
            old(account_service).wf(),
            old(session_service).wf(),
        ensures
            final(account_service).wf(),
            final(session_service).wf(),
            final(session_service).refresh_lifetime_days() == old(session_service).refresh_lifetime_days(),
            has_username(old(account_service).rows(), signin.username@) <==> (r matches Err(
                AuthenticationServiceError::ClientError(
                    AuthenticationClientError::AccountAlreadyExists,
                ),
            )),
            r matches Err(AuthenticationServiceError::ClientError(c)) ==> c
                is AccountAlreadyExists,
            r matches Err(AuthenticationServiceError::ClientError(_)) ==> final(account_service).rows() == old(account_service).rows(),
            r is Err ==> final(session_service).rows() == old(session_service).rows(),
            r matches Err(AuthenticationServiceError::ServerError(_)) ==> final(account_service).rows() == old(account_service).rows() || ({
                let account = final(account_service).rows().last();
                &&& final(account_service).rows().len() == old(account_service).rows().len() + 1
                &&& final(account_service).rows().drop_last() == old(account_service).rows()
                &&& account.username@ == signin.username@
                &&& argon2_encoded(account.password@)
                &&& password_matches(account.password@, signin.password@)
                &&& account.created_at == now && account.updated_at == now
                &&& !has_account_id(old(account_service).rows(), account.id)
            }),
            match r {
                Ok(dto) => {
                    let account = final(account_service).rows().last();
                    &&& !has_username(old(account_service).rows(), signin.username@)
                    &&& final(account_service).rows().len() == old(account_service).rows().len()
                        + 1
                    &&& final(account_service).rows().drop_last() == old(account_service).rows()
                    &&& account.username@ == signin.username@
                    &&& argon2_encoded(account.password@)
                    &&& password_matches(account.password@, signin.password@)
                    &&& account.created_at == now && account.updated_at == now
                    &&& !has_account_id(old(account_service).rows(), account.id)
                    &&& final(session_service).rows().len() == old(session_service).rows().len()
                        + 1
                    &&& final(session_service).rows().drop_last() == old(session_service).rows()
                    &&& session_created(
                        final(session_service).rows().last(),
                        account.id,
                        now,
                        old(session_service).refresh_lifetime_days(),
                        dto.refresh_token@,
                        request_info.ip_address@,
                        request_info.user_agent@,
                    )
                    &&& dto.refresh_token_expires_at == now + old(session_service).refresh_lifetime_days() * 86400
                    &&& !has_hash(old(session_service).rows(), sha256_hex(dto.refresh_token@))
                    &&& session_bundle(
                        dto,
                        token_service.secret(),
                        token_service.access_lifetime(),
                        account.id,
                        final(session_service).rows().last().id,
                        "core-auth"@,
                        now,
                    )
                },
                Err(_) => true,
            },
    {
        let account = match account_service.create_account(
            password_service,
            crate::models::CreateAccountRequestDTO {
                username: signin.username,
                password: signin.password,
            },
            now,
        ) {
            Ok(a) => a,
            Err(e) => {
                return Err(e);
            },
        };
        session_service.create_session(
            token_service,
            account.id,
            request_info,
            String::from_str("core-auth"),
            now,
        )
    }

    /// Exchanges a presented refresh secret (by its hash) for a new session
    /// and token pair; the old session is consumed, so a second exchange of
    /// the same secret fails with `SessionNotFound`.  A hash that resolves
    /// to no active session — never issued, already consumed, or revoked —
    /// is `SessionNotFound` too; the caller cannot tell these apart.
    pub fn refresh_token(
        &self,
        session_service: &mut SessionService,
        token_service: &TokenService,
        refresh_token_hash: String,
        now: u64,
    ) -> (r: Result<AuthenticationResponseDto, AuthenticationServiceError>)
        requires
            old(session_service).wf(),
        ensures
            final(session_service).wf(),
            final(session_service).refresh_lifetime_days() == old(session_service).refresh_lifetime_days(),
            !hash_resolvable(old(session_service).rows(), refresh_token_hash@) ==> (r matches Err(
                AuthenticationServiceError::ClientError(
                    AuthenticationClientError::SessionNotFound,
                ),
            ) && final(session_service).rows() == old(session_service).rows()),
            hash_resolvable(old(session_service).rows(), refresh_token_hash@) && now
                > session_by_hash(
                old(session_service).rows(),
                refresh_token_hash@,
            ).expires_at ==> (r matches Err(
                AuthenticationServiceError::ClientError(
                    AuthenticationClientError::ExpiredRefreshToken,
                ),
            ) && final(session_service).rows() == old(session_service).rows()),
            r matches Err(AuthenticationServiceError::ClientError(c)) ==> (c is SessionNotFound
                || c is ExpiredRefreshToken),
            r matches Err(
                AuthenticationServiceError::ClientError(
                    AuthenticationClientError::SessionNotFound,
                ),
            ) ==> !hash_resolvable(old(session_service).rows(), refresh_token_hash@),
            r matches Err(
                AuthenticationServiceError::ClientError(
                    AuthenticationClientError::ExpiredRefreshToken,
                ),
            ) ==> hash_resolvable(old(session_service).rows(), refresh_token_hash@) && now
                > session_by_hash(old(session_service).rows(), refresh_token_hash@).expires_at,
            match r {
                Ok(dto) => {
                    let consumed = session_by_hash(
                        old(session_service).rows(),
                        refresh_token_hash@,
                    );
                    &&& hash_resolvable(old(session_service).rows(), refresh_token_hash@)
                    &&& now <= consumed.expires_at
                    &&& !has_hash(final(session_service).rows(), refresh_token_hash@)
                    &&& !has_session_id(final(session_service).rows(), consumed.id)
                    &&& session_created(
                        final(session_service).rows().last(),
                        consumed.account_id,
                        now,
                        old(session_service).refresh_lifetime_days(),
                        dto.refresh_token@,
                        consumed.ip_address@,
                        consumed.user_agent@,
                    )
                    &&& dto.refresh_token_expires_at == now + old(session_service).refresh_lifetime_days() * 86400
                    &&& session_bundle(
                        dto,
                        token_service.secret(),
                        token_service.access_lifetime(),
                        consumed.account_id,
                        final(session_service).rows().last().id,
                        "core-auth"@,
                        now,
                    )
                },
                Err(_) => true,
            },
    {
        session_service.refresh_session(
            token_service,
            refresh_token_hash,
            String::from_str("core-auth"),
            now,
        )
    }

    /// Revokes exactly the given session.  Revoking an absent or
    /// already-revoked session is not an error, so the call is idempotent.
    pub fn logout(&self, session_service: &mut SessionService, session_id: u64) -> (r: Result<
        (),
        AuthenticationServiceError,
    >)
        requires
            old(session_service).wf(),
        ensures
            final(session_service).wf(),
            final(session_service).refresh_lifetime_days() == old(session_service).refresh_lifetime_days(),
            r is Ok,
            !has_session_id(final(session_service).rows(), session_id),
            has_session_id(old(session_service).rows(), session_id) ==> final(session_service).rows() == old(session_service).rows().remove(
                session_index(old(session_service).rows(), session_id),
            ),
            !has_session_id(old(session_service).rows(), session_id) ==> final(session_service).rows() == old(session_service).rows(),
    {
        session_service.delete_session(session_id)
    }

    /// Revokes every session of the account.
    pub fn logout_all(&self, session_service: &mut SessionService, account_id: u64) -> (r: Result<
        (),
        AuthenticationServiceError,
    >)
        requires
            old(session_service).wf(),
        ensures
            final(session_service).wf(),
            final(session_service).refresh_lifetime_days() == old(session_service).refresh_lifetime_days(),
            r is Ok,
            account_sessions_removed(
                final(session_service).rows(),
                old(session_service).rows(),
                account_id,
            ),
    {
        session_service.delete_all_sessions_for_account(account_id)
    }

    /// Deletes the account: every session of the account is removed first,
    /// so no session ever references a deleted account, and only then is
    /// the account record deleted.  Both steps are idempotent, so a retry
    /// after a partial failure is safe.
    pub fn delete_account(
        &self,
        account_service: &mut AccountService,
        session_service: &mut SessionService,
        account_id: u64,
    ) -> (r: Result<(), AuthenticationServiceError>)
        requires
            old(account_service).wf(),
            old(session_service).wf(),
        ensures
            final(account_service).wf(),
            final(session_service).wf(),
            final(session_service).refresh_lifetime_days() == old(session_service).refresh_lifetime_days(),
            r is Ok,
            account_sessions_removed(
                final(session_service).rows(),
                old(session_service).rows(),
                account_id,
            ),
            !has_account_id(final(account_service).rows(), account_id),
    {
        let sessions_result = session_service.delete_all_sessions_for_account(account_id);
        match sessions_result {
            Ok(_) => {},
            Err(e) => {
                return Err(e);
            },
        };
        account_service.delete_account(account_id)
    }
}

} // verus!
