//! The session lifecycle: creation, rotation, revocation, expiry.
//!
//! A session is Active while its active flag is set and its expiry is in
//! the future, logically Expired once the expiry has passed, and Revoked
//! when deactivated or deleted.  Rotation consumes the presented refresh
//! secret's hash — the matched row is deleted and a brand-new session with
//! a fresh secret replaces it — so a refresh secret is single-use: once
//! consumed, no later lookup can resolve it.  A revoked session's secret is
//! equally unresolvable, whether the row was deleted or merely deactivated.

use vstd::prelude::*;

use crate::config::AuthenticationConfiguration;
use crate::errors::{AuthenticationClientError, AuthenticationServiceError};
use crate::models::{
    account_named, format_account_id, format_session_id, session_named, AuthenticationResponseDto,
    CreateSessionOptions, RequestInfoExtractor, SessionModel,
};
use crate::repository::{
    account_sessions_listed, account_sessions_removed, has_account_session, has_hash,
    has_session_id, hash_index, lemma_session_ids_bounded, lemma_sessions_rows_wf,
    session_by_hash, session_eqv, session_index, session_of, session_same_but_active, sessions_wf,
    SessionRepository,
};
use crate::token::{jwt_signed, jwt_token_of, sha256_hex, TokenOpts, TokenService};

verus! {

/// A session row as `create_session` persists it: active, bound to the
/// account, created now, expiring after the configured number of days, and
/// holding the hash of the refresh secret.
pub open spec fn session_created(
    s: SessionModel,
    account_id: u64,
    now: u64,
    days: u64,
    secret: Seq<char>,
    ip: Seq<char>,
    ua: Seq<char>,
) -> bool {
    &&& s.account_id == account_id
    &&& s.is_active
    &&& s.created_at == now
    &&& s.expires_at == now + days * 86400
    &&& s.refresh_hash@ == sha256_hex(secret)
    &&& s.ip_address@ == ip
    &&& s.user_agent@ == ua
}

/// Whether a presented refresh-token hash resolves to a usable session: a
/// stored row holds it and that row is still active.  A revoked session —
/// deactivated or deleted — is never resolvable, so its secret can never be
/// exchanged again.
pub open spec fn hash_resolvable(rows: Seq<SessionModel>, hash: Seq<char>) -> bool {
    has_hash(rows, hash) && session_by_hash(rows, hash).is_active
}

/// The caller-facing bundle for a fresh session: the identifiers in their
/// text forms and an access token signed over exactly those claims.
pub open spec fn session_bundle(
    dto: AuthenticationResponseDto,
    signing_secret: Seq<char>,
    access_lifetime: u64,
    account_id: u64,
    session_id: u64,
    service: Seq<char>,
    now: u64,
) -> bool {
    &&& dto.account_id@ == account_named(account_id)
    &&& dto.session_id@ == session_named(session_id)
    &&& dto.access_token_expires_at == now + access_lifetime
    &&& dto.access_token@ == jwt_token_of(
        signing_secret,
        account_named(account_id),
        session_named(session_id),
        service,
        dto.access_token_expires_at,
    )
    &&& jwt_signed(signing_secret, dto.access_token@)
}

/// The session rows of a well-formed service satisfy the storage
/// invariant: identifiers and refresh-token hashes are unique.
pub proof fn lemma_session_service_rows_wf(s: &SessionService)
    requires
        s.wf(),
    ensures
        sessions_wf(s.rows()),
{
    lemma_sessions_rows_wf(&s.repository);
}

/// Owns the session rows and drives their lifecycle.
pub struct SessionService {
    authentication_config: AuthenticationConfiguration,
    repository: SessionRepository,
}

impl SessionService {
    /// The stored session rows.
    pub closed spec fn rows(&self) -> Seq<SessionModel> {
        self.repository.rows()
    }

    pub closed spec fn wf(&self) -> bool {
        self.repository.wf()
    }

    /// The configured refresh lifetime in days.
    pub closed spec fn refresh_lifetime_days(&self) -> u64 {
        self.authentication_config.refresh_token_expiration_days
    }

    /// The least session identifier never handed out.
    pub closed spec fn id_bound(&self) -> u64 {
        self.repository.id_bound()
    }

    /// Whether the session identifier space is exhausted.
    pub closed spec fn at_capacity(&self) -> bool {
        self.repository.at_capacity()
    }

    pub fn new(authentication_config: AuthenticationConfiguration) -> (r: Self)
        ensures
            r.wf(),
            r.rows().len() == 0,
            !r.at_capacity(),
            r.refresh_lifetime_days() == authentication_config.refresh_token_expiration_days,
    {
        SessionService { authentication_config, repository: SessionRepository::new() }
    }

    /// Copies of all session rows.
    pub fn get_all_sessions(&self) -> (r: Result<Vec<SessionModel>, AuthenticationServiceError>)
        requires
            self.wf(),
        ensures
            r matches Ok(v) && v@.len() == self.rows().len(),
            r matches Ok(v) ==> forall|i: int|
                0 <= i < v@.len() ==> session_eqv(#[trigger] v@[i], self.rows()[i]),
    {
        Ok(self.repository.get_all())
    }

    /// The session with the given identifier; absence is `SessionNotFound`.
    pub fn get_session_by_id(&self, session_id: u64) -> (r: Result<
        SessionModel,
        AuthenticationServiceError,
    >)
        requires
            self.wf(),
        ensures
            match r {
                Ok(s) => has_session_id(self.rows(), session_id) && session_eqv(
                    s,
                    session_of(self.rows(), session_id),
                ),
                Err(e) => !has_session_id(self.rows(), session_id) && (e matches
                    AuthenticationServiceError::ClientError(c) && c is SessionNotFound),
            },
    {
        match self.repository.get_by_id(session_id) {
            Some(s) => Ok(s),
            None => Err(
                AuthenticationServiceError::ClientError(
                    AuthenticationClientError::SessionNotFound,
                ),
            ),
        }
    }

    /// Copies of the sessions belonging to an account: exactly the stored
    /// rows whose owner is `account_id`.
    pub fn get_all_sessions_for_account(&self, account_id: u64) -> (r: Result<
        Vec<SessionModel>,
        AuthenticationServiceError,
    >)
        requires
            self.wf(),
        ensures
            r is Ok,
            r matches Ok(v) ==> account_sessions_listed(v@, self.rows(), account_id),
    {
        let v = self.repository.list_for_account(account_id);
        proof {
            assert(account_sessions_listed(v@, self.rows(), account_id));
        }
        Ok(v)
    }

    /// The session holding the hash of a presented refresh secret.  A miss
    /// is `SessionNotFound`, whether the secret was never issued, already
    /// consumed, or malformed — the caller cannot tell these apart.
    pub fn get_session_by_refresh_token_hash(&self, refresh_token_hash: String) -> (r: Result<
        SessionModel,
        AuthenticationServiceError,
    >)
        requires
            self.wf(),
        ensures
            match r {
                Ok(s) => has_hash(self.rows(), refresh_token_hash@) && session_eqv(
                    s,
                    session_by_hash(self.rows(), refresh_token_hash@),
                ),
                Err(e) => !has_hash(self.rows(), refresh_token_hash@) && (e matches
                    AuthenticationServiceError::ClientError(c) && c is SessionNotFound),
            },
    {
        match self.repository.get_by_hash(refresh_token_hash.as_str()) {
            Some(s) => Ok(s),
            None => Err(
                AuthenticationServiceError::ClientError(
                    AuthenticationClientError::SessionNotFound,
                ),
            ),
        }
    }

    /// Persists a new Active session holding the hash of the given secret,
    /// then issues an access token bound to the new session's identifier.
    /// No token is returned for a session that was not durably persisted,
    /// and on any failure the rows are left unchanged.
    fn create_session_with_secret(
        &mut self,
        token_service: &TokenService,
        account_id: u64,
        ip_address: String,
        user_agent: String,
        service: String,
        now: u64,
        refresh_token: String,
    ) -> (r: Result<AuthenticationResponseDto, AuthenticationServiceError>)
        requires
            old(self).wf(),
        ensures
            final(self).wf(),
            final(self).refresh_lifetime_days() == old(self).refresh_lifetime_days(),
            match r {
                Ok(dto) => {
                    &&& dto.refresh_token@ == refresh_token@
                    &&& dto.refresh_token_expires_at == now + old(self).refresh_lifetime_days()
                        * 86400
                    &&& final(self).rows().len() == old(self).rows().len() + 1
                    &&& final(self).rows().drop_last() == old(self).rows()
                    &&& session_created(
                        final(self).rows().last(),
                        account_id,
                        now,
                        old(self).refresh_lifetime_days(),
                        refresh_token@,
                        ip_address@,
                        user_agent@,
                    )
                    &&& !has_session_id(old(self).rows(), final(self).rows().last().id)
                    &&& final(self).rows().last().id >= old(self).id_bound()
                    &&& !has_hash(old(self).rows(), sha256_hex(refresh_token@))
                    &&& session_bundle(
                        dto,
                        token_service.secret(),
                        token_service.access_lifetime(),
                        account_id,
                        final(self).rows().last().id,
                        service@,
                        now,
                    )
                },
                Err(e) => e is ServerError && final(self).rows() == old(self).rows(),
            },
            old(self).refresh_lifetime_days() * 86400 > u64::MAX || now + old(
                self,
            ).refresh_lifetime_days() * 86400 > u64::MAX ==> r is Err,
            !has_hash(old(self).rows(), sha256_hex(refresh_token@)) && !old(self).at_capacity()
                && old(self).refresh_lifetime_days() * 86400 <= u64::MAX && now + old(
                self,
            ).refresh_lifetime_days() * 86400 <= u64::MAX && now
                + token_service.access_lifetime() <= u64::MAX ==> r is Ok,
    {
        let refresh_token_hash = token_service.hash_refresh_token(refresh_token.as_str());
        let lifetime_seconds = match self
            .authentication_config
            .refresh_token_expiration_days
            .checked_mul(86400) {
            Some(v) => v,
            None => {
                return Err(
                    AuthenticationServiceError::ServerError(
                        String::from_str("failed to calculate the refresh token expiry"),
                    ),
                );
            },
        };
        let refresh_expires_at = match now.checked_add(lifetime_seconds) {
            Some(v) => v,
            None => {
                return Err(
                    AuthenticationServiceError::ServerError(
                        String::from_str("failed to calculate the refresh token expiry"),
                    ),
                );
            },
        };
        let insert = self.repository.insert_session(
            CreateSessionOptions {
                account_id,
                refresh_hash: refresh_token_hash,
                expires_at: refresh_expires_at,
                user_agent,
                ip_address,
                is_active: true,
            },
            now,
        );
        let session = match insert {
            Ok(s) => s,
            Err(_) => {
                return Err(
                    AuthenticationServiceError::ServerError(
                        String::from_str("failed to persist the session row"),
                    ),
                );
            },
        };
        let opts = TokenOpts::new(
            format_account_id(account_id),
            format_session_id(session.id),
            service,
        );
        match token_service.generate_jwt(opts, now) {
            Ok(p) => {
                let (access_token, access_token_expires_at) = p;
                Ok(
                    AuthenticationResponseDto {
                        account_id: format_account_id(account_id),
                        session_id: format_session_id(session.id),
                        access_token,
                        refresh_token,
                        access_token_expires_at,
                        refresh_token_expires_at: refresh_expires_at,
                    },
                )
            },
            Err(e) => {
                proof {
                    let rows1 = self.rows();
                    assert(rows1[rows1.len() - 1].id == session.id);
                    assert(has_session_id(rows1, session.id));
                    assert forall|k: int|
                        0 <= k < rows1.len() - 1 implies #[trigger] rows1[k].id != session.id by {
                        assert(rows1[k] == old(self).rows()[k]);
                    }
                    assert(session_index(rows1, session.id) == rows1.len() - 1);
                }
                let _removed = self.repository.delete(session.id);
                proof {
                    assert(self.rows() =~= old(self).rows());
                }
                Err(e)
            },
        }
    }

    /// Generates a fresh refresh secret, hashes it, persists a new Active
    /// session expiring after the configured number of days, and issues an
    /// access token bound to the new session — the bundle for a login or
    /// registration.
    pub fn create_session(
        &mut self,
        token_service: &TokenService,
        account_id: u64,
        request_info: RequestInfoExtractor,
        service: String,
        now: u64,
    ) -> (r: Result<AuthenticationResponseDto, AuthenticationServiceError>)
        requires
            old(self).wf(),
        ensures
            final(self).wf(),
            final(self).refresh_lifetime_days() == old(self).refresh_lifetime_days(),
            match r {
                Ok(dto) => {
                    &&& dto.refresh_token_expires_at == now + old(self).refresh_lifetime_days()
                        * 86400
                    &&& final(self).rows().len() == old(self).rows().len() + 1
                    &&& final(self).rows().drop_last() == old(self).rows()
                    &&& session_created(
                        final(self).rows().last(),
                        account_id,
                        now,
                        old(self).refresh_lifetime_days(),
                        dto.refresh_token@,
                        request_info.ip_address@,
                        request_info.user_agent@,
                    )
                    &&& !has_session_id(old(self).rows(), final(self).rows().last().id)
                    &&& !has_hash(old(self).rows(), sha256_hex(dto.refresh_token@))
                    &&& session_bundle(
                        dto,
                        token_service.secret(),
                        token_service.access_lifetime(),
                        account_id,
                        final(self).rows().last().id,
                        service@,
                        now,
                    )
                },
                Err(e) => e is ServerError && final(self).rows() == old(self).rows(),
            },
            old(self).refresh_lifetime_days() * 86400 > u64::MAX || now + old(
                self,
            ).refresh_lifetime_days() * 86400 > u64::MAX ==> r is Err,
    {
        let refresh_token = token_service.generate_refresh_token();
        self.create_session_with_secret(
            token_service,
            account_id,
            request_info.ip_address,
            request_info.user_agent,
            service,
            now,
            refresh_token,
        )
    }

    /// Exchanges a presented refresh secret (by its hash) for a brand-new
    /// session and token pair.  The matched row is deleted and replaced, so
    /// the presented hash can never be resolved again: a second exchange of
    /// the same secret is `SessionNotFound`, and so is the hash of a
    /// revoked (deactivated) session — indistinguishable from a secret
    /// never issued.  An active match past its expiry is
    /// `ExpiredRefreshToken` and consumes nothing.
    pub fn refresh_session(
        &mut self,
        token_service: &TokenService,
        refresh_token_hash: String,
        service: String,
        now: u64,
    ) -> (r: Result<AuthenticationResponseDto, AuthenticationServiceError>)
        requires
            old(self).wf(),
        ensures
            final(self).wf(),
            final(self).refresh_lifetime_days() == old(self).refresh_lifetime_days(),
            !hash_resolvable(old(self).rows(), refresh_token_hash@) ==> (r matches Err(
                AuthenticationServiceError::ClientError(
                    AuthenticationClientError::SessionNotFound,
                ),
            ) && final(self).rows() == old(self).rows()),
            hash_resolvable(old(self).rows(), refresh_token_hash@) && now > session_by_hash(
                old(self).rows(),
                refresh_token_hash@,
            ).expires_at ==> (r matches Err(
                AuthenticationServiceError::ClientError(
                    AuthenticationClientError::ExpiredRefreshToken,
                ),
            ) && final(self).rows() == old(self).rows()),
            r matches Err(
                AuthenticationServiceError::ClientError(
                    AuthenticationClientError::SessionNotFound,
                ),
            ) ==> !hash_resolvable(old(self).rows(), refresh_token_hash@),
            r matches Err(
                AuthenticationServiceError::ClientError(
                    AuthenticationClientError::ExpiredRefreshToken,
                ),
            ) ==> hash_resolvable(old(self).rows(), refresh_token_hash@) && now > session_by_hash(
                old(self).rows(),
                refresh_token_hash@,
            ).expires_at,
            match r {
                Ok(dto) => {
                    let consumed = session_by_hash(old(self).rows(), refresh_token_hash@);
                    &&& hash_resolvable(old(self).rows(), refresh_token_hash@)
                    &&& now <= consumed.expires_at
                    &&& !has_hash(final(self).rows(), refresh_token_hash@)
                    &&& !has_session_id(final(self).rows(), consumed.id)
                    &&& final(self).rows().len() == old(self).rows().len()
                    &&& final(self).rows().drop_last() == old(self).rows().remove(
                        hash_index(old(self).rows(), refresh_token_hash@),
                    )
                    &&& session_created(
                        final(self).rows().last(),
                        consumed.account_id,
                        now,
                        old(self).refresh_lifetime_days(),
                        dto.refresh_token@,
                        consumed.ip_address@,
                        consumed.user_agent@,
                    )
                    &&& dto.refresh_token_expires_at == now + old(self).refresh_lifetime_days()
                        * 86400
                    &&& session_bundle(
                        dto,
                        token_service.secret(),
                        token_service.access_lifetime(),
                        consumed.account_id,
                        final(self).rows().last().id,
                        service@,
                        now,
                    )
                },
                Err(e) => match e {
                    AuthenticationServiceError::ClientError(c) => (c is SessionNotFound
                        || c is ExpiredRefreshToken),
                    AuthenticationServiceError::ServerError(_) => final(self).rows() == old(self).rows() || final(self).rows() == old(self).rows().remove(
                        hash_index(old(self).rows(), refresh_token_hash@),
                    ),
                },
            },
    {
        let session = match self.repository.get_by_hash(refresh_token_hash.as_str()) {
            Some(s) => s,
            None => {
                return Err(
                    AuthenticationServiceError::ClientError(
                        AuthenticationClientError::SessionNotFound,
                    ),
                );
            },
        };
        if !session.is_active {
            // a revoked session's secret must never resolve again, and the
            // caller cannot tell a revoked secret from one never issued
            return Err(
                AuthenticationServiceError::ClientError(
                    AuthenticationClientError::SessionNotFound,
                ),
            );
        }
        if now > session.expires_at {
            return Err(
                AuthenticationServiceError::ClientError(
                    AuthenticationClientError::ExpiredRefreshToken,
                ),
            );
        }
        let refresh_token = token_service.generate_refresh_token();
        let new_hash = token_service.hash_refresh_token(refresh_token.as_str());
        if crate::codec::str_eq(new_hash.as_str(), refresh_token_hash.as_str()) {
            return Err(
                AuthenticationServiceError::ServerError(
                    String::from_str("freshly generated refresh secret collided with the consumed one"),
                ),
            );
        }
        proof {
            lemma_session_ids_bounded(&self.repository);
        }
        let _removed = self.repository.delete(session.id);
        proof {
            let oldrows = old(self).rows();
            lemma_sessions_rows_wf(&old(self).repository);
            assert(oldrows == old(self).repository.rows());
            assert(sessions_wf(oldrows));
            assert(session_index(oldrows, session.id) == hash_index(
                oldrows,
                refresh_token_hash@,
            )) by {
                let hi = hash_index(oldrows, refresh_token_hash@);
                let si = session_index(oldrows, session.id);
                assert(oldrows[hi].refresh_hash@ == refresh_token_hash@);
                assert(oldrows[si].id == session.id);
                if si < hi {
                    assert(oldrows[si].id != oldrows[hi].id);
                } else if si > hi {
                    assert(oldrows[hi].id != oldrows[si].id);
                }
            }
        }
        let result = self.create_session_with_secret(
            token_service,
            session.account_id,
            session.ip_address,
            session.user_agent,
            service,
            now,
            refresh_token,
        );
        proof {
            let oldrows = old(self).rows();
            lemma_sessions_rows_wf(&old(self).repository);
            assert(oldrows == old(self).repository.rows());
            assert(sessions_wf(oldrows));
            let mid = oldrows.remove(hash_index(oldrows, refresh_token_hash@));
            assert forall|k: int|
                0 <= k < mid.len() implies #[trigger] mid[k].refresh_hash@
                != refresh_token_hash@ by {
                let hi = hash_index(oldrows, refresh_token_hash@);
                if k < hi {
                    assert(mid[k] == oldrows[k]);
                    assert(oldrows[k].refresh_hash@ != oldrows[hi].refresh_hash@);
                } else {
                    assert(mid[k] == oldrows[k + 1]);
                    assert(oldrows[hi].refresh_hash@ != oldrows[k + 1].refresh_hash@);
                }
            }
            assert forall|k: int|
                0 <= k < mid.len() implies #[trigger] mid[k].id != session.id by {
                let hi = hash_index(oldrows, refresh_token_hash@);
                if k < hi {
                    assert(mid[k] == oldrows[k]);
                    assert(oldrows[k].id != oldrows[hi].id);
                } else {
                    assert(mid[k] == oldrows[k + 1]);
                    assert(oldrows[hi].id != oldrows[k + 1].id);
                }
            }
            if result is Ok {
                let finalrows = self.rows();
                assert(finalrows.drop_last() == mid);
                assert forall|k: int|
                    0 <= k < finalrows.len() implies #[trigger] finalrows[k].refresh_hash@
                    != refresh_token_hash@ by {
                    if k < finalrows.len() - 1 {
                        assert(finalrows[k] == mid[k]);
                    } else {
                        assert(finalrows[k].refresh_hash@ == sha256_hex(refresh_token@));
                    }
                }
                assert forall|k: int|
                    0 <= k < finalrows.len() implies #[trigger] finalrows[k].id != session.id by {
                    if k < finalrows.len() - 1 {
                        assert(finalrows[k] == mid[k]);
                    } else {
                        assert(finalrows[k].id >= old(self).id_bound());
                        assert(session.id < old(self).id_bound());
                    }
                }
            }
        }
        result
    }

    /// Re-activates a session; reports whether a row existed and was
    /// inactive.
    pub fn activate_session(&mut self, session_id: u64) -> (r: Result<
        bool,
        AuthenticationServiceError,
    >)
        requires
            old(self).wf(),
        ensures
            final(self).wf(),
            final(self).refresh_lifetime_days() == old(self).refresh_lifetime_days(),
            r matches Ok(b) && b == (has_session_id(old(self).rows(), session_id) && !session_of(
                old(self).rows(),
                session_id,
            ).is_active),
            final(self).rows().len() == old(self).rows().len(),
            forall|i: int|
                0 <= i < old(self).rows().len() && old(self).rows()[i].id != session_id ==> final(self).rows()[i] == old(self).rows()[i],
            forall|i: int|
                0 <= i < old(self).rows().len() && old(self).rows()[i].id == session_id
                    ==> session_same_but_active(
                    #[trigger] final(self).rows()[i],
                    old(self).rows()[i],
                    true,
                ),
    {
        let existing = match self.repository.get_by_id(session_id) {
            Some(s) => s,
            None => {
                return Ok(false);
            },
        };
        let was_inactive = !existing.is_active;
        let _ = self.repository.set_active(session_id, true);
        Ok(was_inactive)
    }

    /// Re-activates a session if it belongs to the account; reports whether
    /// such a row matched.
    pub fn activate_session_for_account(&mut self, session_id: u64, account_id: u64) -> (r: Result<
        bool,
        AuthenticationServiceError,
    >)
        requires
            old(self).wf(),
        ensures
            final(self).wf(),
            final(self).refresh_lifetime_days() == old(self).refresh_lifetime_days(),
            r matches Ok(b) && b == exists|i: int|
                0 <= i < old(self).rows().len() && #[trigger] old(self).rows()[i].id == session_id
                    && old(self).rows()[i].account_id == account_id,
            final(self).rows().len() == old(self).rows().len(),
            forall|i: int|
                0 <= i < old(self).rows().len() && !(old(self).rows()[i].id == session_id && old(self).rows()[i].account_id == account_id) ==> final(self).rows()[i] == old(self).rows()[i],
            forall|i: int|
                0 <= i < old(self).rows().len() && old(self).rows()[i].id == session_id && old(self).rows()[i].account_id == account_id ==> session_same_but_active(
                    #[trigger] final(self).rows()[i],
                    old(self).rows()[i],
                    true,
                ),
    {
        Ok(self.repository.set_active_for_account(session_id, account_id, true))
    }

    /// Deactivates a session; reports whether a row matched.  Deactivating
    /// an absent session is not an error.
    pub fn deactivate_session(&mut self, session_id: u64) -> (r: Result<
        bool,
        AuthenticationServiceError,
    >)
        requires
            old(self).wf(),
        ensures
            final(self).wf(),
            final(self).refresh_lifetime_days() == old(self).refresh_lifetime_days(),
            r matches Ok(b) && b == has_session_id(old(self).rows(), session_id),
            final(self).rows().len() == old(self).rows().len(),
            forall|i: int|
                0 <= i < old(self).rows().len() && old(self).rows()[i].id != session_id ==> final(self).rows()[i] == old(self).rows()[i],
            forall|i: int|
                0 <= i < old(self).rows().len() && old(self).rows()[i].id == session_id
                    ==> session_same_but_active(
                    #[trigger] final(self).rows()[i],
                    old(self).rows()[i],
                    false,
                ),
    {
        Ok(self.repository.set_active(session_id, false))
    }

    /// Deactivates a session if it belongs to the account; reports whether
    /// such a row matched.
    pub fn deactivate_session_for_account(&mut self, session_id: u64, account_id: u64) -> (r:
        Result<bool, AuthenticationServiceError>)
        requires
            old(self).wf(),
        ensures
            final(self).wf(),
            final(self).refresh_lifetime_days() == old(self).refresh_lifetime_days(),
            r matches Ok(b) && b == exists|i: int|
                0 <= i < old(self).rows().len() && #[trigger] old(self).rows()[i].id == session_id
                    && old(self).rows()[i].account_id == account_id,
            final(self).rows().len() == old(self).rows().len(),
            forall|i: int|
                0 <= i < old(self).rows().len() && !(old(self).rows()[i].id == session_id && old(self).rows()[i].account_id == account_id) ==> final(self).rows()[i] == old(self).rows()[i],
            forall|i: int|
                0 <= i < old(self).rows().len() && old(self).rows()[i].id == session_id && old(self).rows()[i].account_id == account_id ==> session_same_but_active(
                    #[trigger] final(self).rows()[i],
                    old(self).rows()[i],
                    false,
                ),
    {
        Ok(self.repository.set_active_for_account(session_id, account_id, false))
    }

    /// Deactivates every session of the account; reports whether any row
    /// matched.
    pub fn deactivate_all_sessions_for_account(&mut self, account_id: u64) -> (r: Result<
        bool,
        AuthenticationServiceError,
    >)
        requires
            old(self).wf(),
        ensures
            final(self).wf(),
            final(self).refresh_lifetime_days() == old(self).refresh_lifetime_days(),
            r matches Ok(b) && b == has_account_session(old(self).rows(), account_id),
            final(self).rows().len() == old(self).rows().len(),
            forall|i: int|
                0 <= i < old(self).rows().len() && old(self).rows()[i].account_id != account_id
                    ==> final(self).rows()[i] == old(self).rows()[i],
            forall|i: int|
                0 <= i < old(self).rows().len() && old(self).rows()[i].account_id == account_id
                    ==> session_same_but_active(
                    #[trigger] final(self).rows()[i],
                    old(self).rows()[i],
                    false,
                ),
    {
        Ok(self.repository.set_active_all_for_account(account_id, false))
    }

    /// Deletes a session.  Deleting an absent or already-deleted session is
    /// not an error, and after the call no lookup can resolve the
    /// identifier.
    pub fn delete_session(&mut self, session_id: u64) -> (r: Result<
        (),
        AuthenticationServiceError,
    >)
        requires
            old(self).wf(),
        ensures
            final(self).wf(),
            final(self).refresh_lifetime_days() == old(self).refresh_lifetime_days(),
            r is Ok,
            !has_session_id(final(self).rows(), session_id),
            has_session_id(old(self).rows(), session_id) ==> final(self).rows() == old(self).rows().remove(session_index(old(self).rows(), session_id)),
            !has_session_id(old(self).rows(), session_id) ==> final(self).rows() == old(self).rows(),
    {
        let _ = self.repository.delete(session_id);
        Ok(())
    }

    /// Deletes every session of the account; afterwards no session
    /// references the account, and a refresh secret issued for any of its
    /// sessions can no longer be resolved.
    pub fn delete_all_sessions_for_account(&mut self, account_id: u64) -> (r: Result<
        (),
        AuthenticationServiceError,
    >)
        requires
            old(self).wf(),
        ensures
            final(self).wf(),
            final(self).refresh_lifetime_days() == old(self).refresh_lifetime_days(),
            r is Ok,
            account_sessions_removed(final(self).rows(), old(self).rows(), account_id),
    {
        self.repository.delete_all_for_account(account_id);
        proof {
            assert(account_sessions_removed(self.rows(), old(self).rows(), account_id));
        }
        Ok(())
    }
}

} // verus!
