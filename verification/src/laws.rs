//! The library's laws, each stated as a function whose contract Verus
//! proves from the components' own contracts: hashing round-trips through
//! verification, issued tokens verify back to their claims until expiry and
//! fail as expired strictly after it, refresh secrets are single-use, and
//! revocation is idempotent and final.

use vstd::prelude::*;

use crate::account::AccountService;
use crate::authentication::AuthenticationService;
use crate::errors::{AuthenticationClientError, AuthenticationServiceError};
use crate::models::{format_account_id, format_session_id, AuthenticationResponseDto};
use crate::password::PasswordService;
use crate::repository::{
    has_hash, has_session_id, hash_index, session_by_hash, session_index, session_of,
    session_same_but_active,
};
use crate::session::{hash_resolvable, lemma_session_service_rows_wf, SessionService};
use crate::token::{TokenOpts, TokenService};

verus! {

/// Law: a password always verifies against a hash freshly derived from it.
/// When both backend calls succeed, the verdict is `true` for every
/// password.
pub fn hash_then_verify(password_service: &PasswordService, password: &str) -> (r: Result<
    bool,
    AuthenticationServiceError,
>)
    requires
        password@.len() < 0x4000_0000,
    ensures
        r matches Ok(b) ==> b,
{
    match password_service.hash_password(password) {
        Ok(h) => password_service.verify_password(h.as_str(), password),
        Err(e) => Err(e),
    }
}

/// Law: a token issued over the given identifiers verifies back to exactly
/// those identifiers when checked at or before its expiry, and the only
/// client fault the check can report is `ExpiredAccessToken`, exactly when
/// the check happens strictly after the expiry.
pub fn issue_then_verify_token(
    token_service: &TokenService,
    account_id: u64,
    session_id: u64,
    service: String,
    issued_at: u64,
    checked_at: u64,
) -> (r: Result<(u64, u64), AuthenticationServiceError>)
    ensures
        r matches Ok(ids) ==> ids.0 == account_id && ids.1 == session_id && checked_at <= issued_at
            + token_service.access_lifetime(),
        r matches Err(AuthenticationServiceError::ClientError(c)) ==> c is ExpiredAccessToken
            && checked_at > issued_at + token_service.access_lifetime(),
{
    let opts = TokenOpts::new(
        format_account_id(account_id),
        format_session_id(session_id),
        service,
    );
    match token_service.generate_jwt(opts, issued_at) {
        Ok(p) => {
            let (token, _expires_at) = p;
            token_service.verify_jwt(token.as_str(), checked_at)
        },
        Err(e) => Err(e),
    }
}

/// Law: a refresh secret is single-use.  However the first exchange of a
/// hash went, a second exchange of the same hash right after a successful
/// first one fails with `SessionNotFound`.
pub fn refresh_twice(
    session_service: &mut SessionService,
    token_service: &TokenService,
    refresh_token_hash: String,
    now: u64,
) -> (r: (
    Result<AuthenticationResponseDto, AuthenticationServiceError>,
    Result<AuthenticationResponseDto, AuthenticationServiceError>,
))
    requires
        old(session_service).wf(),
    ensures
        final(session_service).wf(),
        r.0 is Ok ==> r.1 matches Err(
            AuthenticationServiceError::ClientError(AuthenticationClientError::SessionNotFound),
        ),
{
    let hash_again = refresh_token_hash.clone();
    let first = session_service.refresh_session(
        token_service,
        refresh_token_hash,
        String::from_str("core-auth"),
        now,
    );
    let second = session_service.refresh_session(
        token_service,
        hash_again,
        String::from_str("core-auth"),
        now,
    );
    (first, second)
}

/// Law: revocation is idempotent and final.  Revoking the same session
/// twice succeeds both times, and afterwards exchanging the refresh secret
/// whose hash that session held fails with `SessionNotFound`.
pub fn revoke_twice_then_refresh(
    session_service: &mut SessionService,
    token_service: &TokenService,
    session_id: u64,
    refresh_token_hash: String,
    now: u64,
) -> (r: (
    Result<(), AuthenticationServiceError>,
    Result<(), AuthenticationServiceError>,
    Result<AuthenticationResponseDto, AuthenticationServiceError>,
))
    requires
        old(session_service).wf(),
        has_session_id(old(session_service).rows(), session_id),
        session_of(old(session_service).rows(), session_id).refresh_hash@ == refresh_token_hash@,
    ensures
        final(session_service).wf(),
        r.0 is Ok,
        r.1 is Ok,
        r.2 matches Err(
            AuthenticationServiceError::ClientError(AuthenticationClientError::SessionNotFound),
        ),
{
    proof {
        lemma_session_service_rows_wf(old(session_service));
    }
    let first = session_service.delete_session(session_id);
    proof {
        let oldrows = old(session_service).rows();
        let idx = session_index(oldrows, session_id);
        assert(oldrows[idx].id == session_id);
        let mid = session_service.rows();
        assert(mid == oldrows.remove(idx));
        assert forall|k: int|
            0 <= k < mid.len() implies #[trigger] mid[k].refresh_hash@
            != refresh_token_hash@ by {
            if k < idx {
                assert(mid[k] == oldrows[k]);
                assert(oldrows[k].refresh_hash@ != oldrows[idx].refresh_hash@);
            } else {
                assert(mid[k] == oldrows[k + 1]);
                assert(oldrows[idx].refresh_hash@ != oldrows[k + 1].refresh_hash@);
            }
        }
    }
    let second = session_service.delete_session(session_id);
    let exchange = session_service.refresh_session(
        token_service,
        refresh_token_hash,
        String::from_str("core-auth"),
        now,
    );
    (first, second, exchange)
}

/// Law: revocation by deactivation is equally final for the refresh
/// secret.  After deactivating a session, exchanging the secret whose hash
/// that session held fails with `SessionNotFound` — the same kind a
/// never-issued secret receives.
pub fn deactivate_then_refresh(
    session_service: &mut SessionService,
    token_service: &TokenService,
    session_id: u64,
    refresh_token_hash: String,
    now: u64,
) -> (r: (
    Result<bool, AuthenticationServiceError>,
    Result<AuthenticationResponseDto, AuthenticationServiceError>,
))
    requires
        old(session_service).wf(),
        has_session_id(old(session_service).rows(), session_id),
        session_of(old(session_service).rows(), session_id).refresh_hash@ == refresh_token_hash@,
    ensures
        final(session_service).wf(),
        r.0 is Ok,
        r.1 matches Err(
            AuthenticationServiceError::ClientError(AuthenticationClientError::SessionNotFound),
        ),
{
    proof {
        lemma_session_service_rows_wf(old(session_service));
    }
    let first = session_service.deactivate_session(session_id);
    proof {
        let oldrows = old(session_service).rows();
        let idx = session_index(oldrows, session_id);
        assert(oldrows[idx].id == session_id);
        let mid = session_service.rows();
        assert(session_same_but_active(mid[idx], oldrows[idx], false));
        assert(mid[idx].refresh_hash@ == refresh_token_hash@);
        assert(has_hash(mid, refresh_token_hash@));
        assert forall|k: int|
            0 <= k < mid.len() && k != idx implies #[trigger] mid[k].refresh_hash@
            != refresh_token_hash@ by {
            if k < idx {
                assert(oldrows[k].id != oldrows[idx].id);
                assert(mid[k] == oldrows[k]);
                assert(oldrows[k].refresh_hash@ != oldrows[idx].refresh_hash@);
            } else {
                assert(oldrows[idx].id != oldrows[k].id);
                assert(mid[k] == oldrows[k]);
                assert(oldrows[idx].refresh_hash@ != oldrows[k].refresh_hash@);
            }
        }
        let hidx = hash_index(mid, refresh_token_hash@);
        assert(mid[hidx].refresh_hash@ == refresh_token_hash@);
        if hidx != idx {
            assert(mid[hidx].refresh_hash@ != refresh_token_hash@);
        }
        assert(!session_by_hash(mid, refresh_token_hash@).is_active);
        assert(!hash_resolvable(mid, refresh_token_hash@));
    }
    let exchange = session_service.refresh_session(
        token_service,
        refresh_token_hash,
        String::from_str("core-auth"),
        now,
    );
    (first, exchange)
}

/// Law: deleting an account invalidates every refresh secret issued for
/// it.  After `delete_account`, exchanging a hash that any session of the
/// account held fails with `SessionNotFound`.
pub fn delete_account_then_refresh(
    auth: &AuthenticationService,
    account_service: &mut AccountService,
    session_service: &mut SessionService,
    token_service: &TokenService,
    account_id: u64,
    refresh_token_hash: String,
    now: u64,
) -> (r: (
    Result<(), AuthenticationServiceError>,
    Result<AuthenticationResponseDto, AuthenticationServiceError>,
))
    requires
        old(account_service).wf(),
        old(session_service).wf(),
        exists|i: int|
            0 <= i < old(session_service).rows().len() && #[trigger] old(
                session_service,
            ).rows()[i].account_id == account_id && old(session_service).rows()[i].refresh_hash@
                == refresh_token_hash@,
    ensures
        final(account_service).wf(),
        final(session_service).wf(),
        r.0 is Ok,
        r.1 matches Err(
            AuthenticationServiceError::ClientError(AuthenticationClientError::SessionNotFound),
        ),
{
    proof {
        lemma_session_service_rows_wf(old(session_service));
    }
    let deleted = auth.delete_account(account_service, session_service, account_id);
    proof {
        let oldrows = old(session_service).rows();
        let held = choose|i: int|
            0 <= i < oldrows.len() && oldrows[i].account_id == account_id
                && oldrows[i].refresh_hash@ == refresh_token_hash@;
        let newrows = session_service.rows();
        assert forall|k: int|
            0 <= k < newrows.len() implies #[trigger] newrows[k].refresh_hash@
            != refresh_token_hash@ by {
            assert(newrows[k].account_id != account_id);
            let j = choose|j: int| 0 <= j < oldrows.len() && newrows[k] == oldrows[j];
            if j < held {
                assert(oldrows[j].refresh_hash@ != oldrows[held].refresh_hash@);
            } else if j > held {
                assert(oldrows[held].refresh_hash@ != oldrows[j].refresh_hash@);
            }
        }
    }
    let exchange = session_service.refresh_session(
        token_service,
        refresh_token_hash,
        String::from_str("core-auth"),
        now,
    );
    (deleted, exchange)
}

} // verus!
