use core_auth::account::AccountService;
use core_auth::authentication::AuthenticationService;
use core_auth::config::AuthenticationConfiguration;
use core_auth::errors::{AuthenticationClientError, AuthenticationServiceError};
use core_auth::laws::{
    deactivate_then_refresh, delete_account_then_refresh, refresh_twice, revoke_twice_then_refresh,
};
use core_auth::models::{RequestInfoExtractor, SignInRequestDto};
use core_auth::password::PasswordService;
use core_auth::session::SessionService;
use core_auth::token::TokenService;

const NOW: u64 = 1_700_000_000;
const DAY: u64 = 86400;

fn auth_config() -> AuthenticationConfiguration {
    AuthenticationConfiguration {
        jwt_secret: "unit-test-signing-key".to_string(),
        jwt_expiration_seconds: 3600,
        refresh_token_expiration_days: 7,
    }
}

fn services() -> (AccountService, SessionService, TokenService, PasswordService) {
    (
        AccountService::new(),
        SessionService::new(auth_config()),
        TokenService::new(auth_config()),
        PasswordService,
    )
}

fn request_info() -> RequestInfoExtractor {
    RequestInfoExtractor {
        ip_address: "203.0.113.7".to_string(),
        user_agent: "unit-test agent".to_string(),
    }
}

fn signin(username: &str, password: &str) -> SignInRequestDto {
    SignInRequestDto { username: username.to_string(), password: password.to_string() }
}

fn is_client(r: &AuthenticationServiceError, kind: AuthenticationClientError) -> bool {
    matches!(r, AuthenticationServiceError::ClientError(c) if *c == kind)
}

#[test]
fn create_session_returns_a_full_bundle() {
    let (_, mut sessions, tokens, _) = services();
    let dto = sessions.create_session(&tokens, 4, request_info(), "core-auth".to_string(), NOW).unwrap();
    assert_eq!(dto.account_id, "acc_4");
    assert_eq!(dto.session_id, "ses_0");
    assert_eq!(dto.access_token_expires_at, NOW + 3600);
    assert_eq!(dto.refresh_token_expires_at, NOW + 7 * DAY);
    assert_eq!(dto.refresh_token.len(), 128);
    let (account_id, session_id) = tokens.verify_jwt(&dto.access_token, NOW).unwrap();
    assert_eq!((account_id, session_id), (4, 0));
    let stored = sessions.get_session_by_id(0).unwrap();
    assert_eq!(stored.account_id, 4);
    assert!(stored.is_active);
    assert_eq!(stored.expires_at, NOW + 7 * DAY);
    assert_eq!(stored.refresh_hash, tokens.hash_refresh_token(&dto.refresh_token));
    assert_eq!(stored.ip_address, "203.0.113.7");
}

#[test]
fn refresh_rotates_and_is_single_use() {
    let (_, mut sessions, tokens, _) = services();
    let first = sessions.create_session(&tokens, 1, request_info(), "core-auth".to_string(), NOW).unwrap();
    let hash = tokens.hash_refresh_token(&first.refresh_token);

    let rotated = sessions
        .refresh_session(&tokens, hash.clone(), "core-auth".to_string(), NOW + 10)
        .unwrap();
    assert_eq!(rotated.account_id, "acc_1");
    assert_ne!(rotated.session_id, first.session_id);
    assert_ne!(rotated.refresh_token, first.refresh_token);

    // the consumed secret can never be exchanged again
    let again = sessions.refresh_session(&tokens, hash, "core-auth".to_string(), NOW + 20);
    assert!(is_client(&again.unwrap_err(), AuthenticationClientError::SessionNotFound));

    // the rotated secret works
    let new_hash = tokens.hash_refresh_token(&rotated.refresh_token);
    assert!(sessions.refresh_session(&tokens, new_hash, "core-auth".to_string(), NOW + 30).is_ok());
}

#[test]
fn refresh_twice_law_holds_at_runtime() {
    let (_, mut sessions, tokens, _) = services();
    let dto = sessions.create_session(&tokens, 1, request_info(), "core-auth".to_string(), NOW).unwrap();
    let hash = tokens.hash_refresh_token(&dto.refresh_token);
    let (first, second) = refresh_twice(&mut sessions, &tokens, hash, NOW);
    assert!(first.is_ok());
    assert!(is_client(&second.unwrap_err(), AuthenticationClientError::SessionNotFound));
}

#[test]
fn expired_refresh_secret_is_reported_distinctly() {
    let (_, mut sessions, tokens, _) = services();
    let dto = sessions.create_session(&tokens, 1, request_info(), "core-auth".to_string(), NOW).unwrap();
    let hash = tokens.hash_refresh_token(&dto.refresh_token);
    let expiry = NOW + 7 * DAY;
    // at the expiry instant the exchange still succeeds; strictly after, it is expired
    let late = sessions.refresh_session(&tokens, hash.clone(), "core-auth".to_string(), expiry + 1);
    assert!(is_client(&late.unwrap_err(), AuthenticationClientError::ExpiredRefreshToken));
    let at_expiry = sessions.refresh_session(&tokens, hash, "core-auth".to_string(), expiry);
    assert!(at_expiry.is_ok());
}

#[test]
fn unknown_refresh_secret_is_session_not_found() {
    let (_, mut sessions, tokens, _) = services();
    let hash = tokens.hash_refresh_token("never issued");
    let r = sessions.refresh_session(&tokens, hash, "core-auth".to_string(), NOW);
    assert!(is_client(&r.unwrap_err(), AuthenticationClientError::SessionNotFound));
}

#[test]
fn revoke_is_idempotent_and_final() {
    let (_, mut sessions, tokens, _) = services();
    let dto = sessions.create_session(&tokens, 1, request_info(), "core-auth".to_string(), NOW).unwrap();
    let hash = tokens.hash_refresh_token(&dto.refresh_token);

    assert!(sessions.delete_session(0).is_ok());
    // a second revoke never errors
    assert!(sessions.delete_session(0).is_ok());
    // the revoked session's credentials no longer work
    assert!(matches!(
        sessions.get_session_by_id(0),
        Err(AuthenticationServiceError::ClientError(AuthenticationClientError::SessionNotFound))
    ));
    let r = sessions.refresh_session(&tokens, hash, "core-auth".to_string(), NOW);
    assert!(is_client(&r.unwrap_err(), AuthenticationClientError::SessionNotFound));
}

#[test]
fn revoke_twice_law_holds_at_runtime() {
    let (_, mut sessions, tokens, _) = services();
    let dto = sessions.create_session(&tokens, 1, request_info(), "core-auth".to_string(), NOW).unwrap();
    let hash = tokens.hash_refresh_token(&dto.refresh_token);
    let (first, second, exchange) = revoke_twice_then_refresh(&mut sessions, &tokens, 0, hash, NOW);
    assert!(first.is_ok());
    assert!(second.is_ok());
    assert!(is_client(&exchange.unwrap_err(), AuthenticationClientError::SessionNotFound));
}

#[test]
fn deactivated_session_secret_cannot_refresh() {
    let (_, mut sessions, tokens, _) = services();
    let dto = sessions.create_session(&tokens, 1, request_info(), "core-auth".to_string(), NOW).unwrap();
    let hash = tokens.hash_refresh_token(&dto.refresh_token);

    assert_eq!(sessions.deactivate_session(0).unwrap(), true);
    // the revoked session's secret no longer resolves, with the same error
    // kind a never-issued secret gets
    let r = sessions.refresh_session(&tokens, hash.clone(), "core-auth".to_string(), NOW);
    assert!(is_client(&r.unwrap_err(), AuthenticationClientError::SessionNotFound));

    // re-activating the session restores the exchange
    assert_eq!(sessions.activate_session(0).unwrap(), true);
    assert!(sessions.refresh_session(&tokens, hash, "core-auth".to_string(), NOW).is_ok());
}

#[test]
fn deactivate_then_refresh_law_holds_at_runtime() {
    let (_, mut sessions, tokens, _) = services();
    let dto = sessions.create_session(&tokens, 3, request_info(), "core-auth".to_string(), NOW).unwrap();
    let hash = tokens.hash_refresh_token(&dto.refresh_token);
    let (deactivated, exchange) =
        deactivate_then_refresh(&mut sessions, &tokens, 0, hash, NOW);
    assert_eq!(deactivated.unwrap(), true);
    assert!(is_client(&exchange.unwrap_err(), AuthenticationClientError::SessionNotFound));
}

#[test]
fn deactivate_and_activate_sessions() {
    let (_, mut sessions, tokens, _) = services();
    sessions.create_session(&tokens, 1, request_info(), "core-auth".to_string(), NOW).unwrap();
    sessions.create_session(&tokens, 1, request_info(), "core-auth".to_string(), NOW).unwrap();
    sessions.create_session(&tokens, 2, request_info(), "core-auth".to_string(), NOW).unwrap();

    // deactivating reports whether a row matched and is otherwise harmless
    assert_eq!(sessions.deactivate_session(0).unwrap(), true);
    assert_eq!(sessions.deactivate_session(99).unwrap(), false);
    assert!(!sessions.get_session_by_id(0).unwrap().is_active);

    // activation reports true only for a session that was inactive
    assert_eq!(sessions.activate_session(0).unwrap(), true);
    assert_eq!(sessions.activate_session(0).unwrap(), false);
    assert_eq!(sessions.activate_session(99).unwrap(), false);

    // account-scoped variants only touch the owning account's rows
    assert_eq!(sessions.deactivate_session_for_account(1, 2).unwrap(), false);
    assert_eq!(sessions.deactivate_session_for_account(1, 1).unwrap(), true);
    assert_eq!(sessions.activate_session_for_account(1, 1).unwrap(), true);

    assert_eq!(sessions.deactivate_all_sessions_for_account(1).unwrap(), true);
    assert!(!sessions.get_session_by_id(0).unwrap().is_active);
    assert!(!sessions.get_session_by_id(1).unwrap().is_active);
    assert!(sessions.get_session_by_id(2).unwrap().is_active);
    assert_eq!(sessions.deactivate_all_sessions_for_account(42).unwrap(), false);
}

#[test]
fn session_listing_is_scoped_by_account() {
    let (_, mut sessions, tokens, _) = services();
    sessions.create_session(&tokens, 1, request_info(), "core-auth".to_string(), NOW).unwrap();
    sessions.create_session(&tokens, 2, request_info(), "core-auth".to_string(), NOW).unwrap();
    sessions.create_session(&tokens, 1, request_info(), "core-auth".to_string(), NOW).unwrap();
    let all = sessions.get_all_sessions().unwrap();
    assert_eq!(all.len(), 3);
    let of_one = sessions.get_all_sessions_for_account(1).unwrap();
    assert_eq!(of_one.len(), 2);
    assert!(of_one.iter().all(|s| s.account_id == 1));
    let of_three = sessions.get_all_sessions_for_account(3).unwrap();
    assert!(of_three.is_empty());
}

#[test]
fn register_then_duplicate_username_is_rejected() {
    let (mut accounts, mut sessions, tokens, passwords) = services();
    let auth = AuthenticationService::new();

    let bundle = auth
        .register(&mut accounts, &tokens, &mut sessions, &passwords, signin("alice", "pw1"), request_info(), NOW)
        .unwrap();
    assert_eq!(bundle.account_id, "acc_0");
    assert_eq!(bundle.session_id, "ses_0");

    let again = auth.register(
        &mut accounts,
        &tokens,
        &mut sessions,
        &passwords,
        signin("alice", "pw2"),
        request_info(),
        NOW,
    );
    assert!(is_client(&again.unwrap_err(), AuthenticationClientError::AccountAlreadyExists));
}

#[test]
fn bad_credentials_are_indistinguishable() {
    let (mut accounts, mut sessions, tokens, passwords) = services();
    let auth = AuthenticationService::new();
    auth.register(&mut accounts, &tokens, &mut sessions, &passwords, signin("alice", "pw1"), request_info(), NOW)
        .unwrap();

    let wrong_password = auth
        .authenticate(&accounts, &mut sessions, &tokens, &passwords, signin("alice", "wrongpw"), request_info(), NOW)
        .unwrap_err();
    let unknown_user = auth
        .authenticate(&accounts, &mut sessions, &tokens, &passwords, signin("nouser", "anything"), request_info(), NOW)
        .unwrap_err();
    assert!(is_client(&wrong_password, AuthenticationClientError::InvalidCredentials));
    assert!(is_client(&unknown_user, AuthenticationClientError::InvalidCredentials));
}

#[test]
fn authenticate_with_good_credentials_opens_a_session() {
    let (mut accounts, mut sessions, tokens, passwords) = services();
    let auth = AuthenticationService::new();
    auth.register(&mut accounts, &tokens, &mut sessions, &passwords, signin("alice", "pw1"), request_info(), NOW)
        .unwrap();

    let bundle = auth
        .authenticate(&accounts, &mut sessions, &tokens, &passwords, signin("alice", "pw1"), request_info(), NOW + 5)
        .unwrap();
    assert_eq!(bundle.account_id, "acc_0");
    let (account_id, session_id) = tokens.verify_jwt(&bundle.access_token, NOW + 5).unwrap();
    assert_eq!(account_id, 0);
    assert_eq!(format!("ses_{}", session_id), bundle.session_id);
}

#[test]
fn refresh_through_the_orchestrator_rotates() {
    let (mut accounts, mut sessions, tokens, passwords) = services();
    let auth = AuthenticationService::new();
    let bundle = auth
        .register(&mut accounts, &tokens, &mut sessions, &passwords, signin("alice", "pw1"), request_info(), NOW)
        .unwrap();
    let hash = tokens.hash_refresh_token(&bundle.refresh_token);
    let rotated = auth.refresh_token(&mut sessions, &tokens, hash.clone(), NOW + 1).unwrap();
    assert_eq!(rotated.account_id, "acc_0");
    let replay = auth.refresh_token(&mut sessions, &tokens, hash, NOW + 2);
    assert!(is_client(&replay.unwrap_err(), AuthenticationClientError::SessionNotFound));
}

#[test]
fn logout_revokes_exactly_one_session() {
    let (mut accounts, mut sessions, tokens, passwords) = services();
    let auth = AuthenticationService::new();
    auth.register(&mut accounts, &tokens, &mut sessions, &passwords, signin("alice", "pw1"), request_info(), NOW)
        .unwrap();
    auth.authenticate(&accounts, &mut sessions, &tokens, &passwords, signin("alice", "pw1"), request_info(), NOW)
        .unwrap();
    assert_eq!(sessions.get_all_sessions_for_account(0).unwrap().len(), 2);
    assert!(auth.logout(&mut sessions, 0).is_ok());
    assert_eq!(sessions.get_all_sessions_for_account(0).unwrap().len(), 1);
    // idempotent
    assert!(auth.logout(&mut sessions, 0).is_ok());
}

#[test]
fn logout_all_revokes_every_session_of_the_account() {
    let (mut accounts, mut sessions, tokens, passwords) = services();
    let auth = AuthenticationService::new();
    auth.register(&mut accounts, &tokens, &mut sessions, &passwords, signin("alice", "pw1"), request_info(), NOW)
        .unwrap();
    auth.register(&mut accounts, &tokens, &mut sessions, &passwords, signin("bob", "pw2"), request_info(), NOW)
        .unwrap();
    auth.authenticate(&accounts, &mut sessions, &tokens, &passwords, signin("alice", "pw1"), request_info(), NOW)
        .unwrap();
    assert!(auth.logout_all(&mut sessions, 0).is_ok());
    assert!(sessions.get_all_sessions_for_account(0).unwrap().is_empty());
    assert_eq!(sessions.get_all_sessions_for_account(1).unwrap().len(), 1);
}

#[test]
fn delete_account_invalidates_every_issued_refresh_secret() {
    let (mut accounts, mut sessions, tokens, passwords) = services();
    let auth = AuthenticationService::new();
    let b1 = auth
        .register(&mut accounts, &tokens, &mut sessions, &passwords, signin("alice", "pw1"), request_info(), NOW)
        .unwrap();
    let b2 = auth
        .authenticate(&accounts, &mut sessions, &tokens, &passwords, signin("alice", "pw1"), request_info(), NOW)
        .unwrap();

    assert!(auth.delete_account(&mut accounts, &mut sessions, 0).is_ok());
    assert!(matches!(
        accounts.get_account_by_id(0),
        Err(AuthenticationServiceError::ClientError(AuthenticationClientError::AccountNotFound))
    ));
    for bundle in [b1, b2] {
        let hash = tokens.hash_refresh_token(&bundle.refresh_token);
        let r = auth.refresh_token(&mut sessions, &tokens, hash, NOW + 1);
        assert!(is_client(&r.unwrap_err(), AuthenticationClientError::SessionNotFound));
    }
    // deleting again is safe to retry
    assert!(auth.delete_account(&mut accounts, &mut sessions, 0).is_ok());
}

#[test]
fn delete_account_law_holds_at_runtime() {
    let (mut accounts, mut sessions, tokens, passwords) = services();
    let auth = AuthenticationService::new();
    let bundle = auth
        .register(&mut accounts, &tokens, &mut sessions, &passwords, signin("alice", "pw1"), request_info(), NOW)
        .unwrap();
    let hash = tokens.hash_refresh_token(&bundle.refresh_token);
    let (deleted, exchange) =
        delete_account_then_refresh(&auth, &mut accounts, &mut sessions, &tokens, 0, hash, NOW);
    assert!(deleted.is_ok());
    assert!(is_client(&exchange.unwrap_err(), AuthenticationClientError::SessionNotFound));
}

#[test]
fn account_updates_and_lookups() {
    let (mut accounts, _, _, passwords) = services();
    let created = accounts
        .create_account(
            &passwords,
            core_auth::models::CreateAccountRequestDTO {
                username: "carol".to_string(),
                password: "first".to_string(),
            },
            NOW,
        )
        .unwrap();
    assert_eq!(created.username, "carol");
    assert_eq!(created.created_at, NOW);
    assert!(accounts.exists_username("carol").unwrap());
    assert!(!accounts.exists_username("carla").unwrap());

    // password change: the old password stops working, the new one works
    accounts.update_account_password(&passwords, created.id, "second", NOW + 1).unwrap();
    let with_new = accounts.get_account_by_username_and_password(&passwords, "carol", "second");
    assert!(with_new.is_ok());
    let with_old = accounts.get_account_by_username_and_password(&passwords, "carol", "first");
    assert!(is_client(&with_old.unwrap_err(), AuthenticationClientError::InvalidCredentials));

    // rename, and reject a rename onto a taken name
    accounts
        .create_account(
            &passwords,
            core_auth::models::CreateAccountRequestDTO {
                username: "dave".to_string(),
                password: "pw".to_string(),
            },
            NOW,
        )
        .unwrap();
    let clash = accounts.update_account_username(created.id, "dave", NOW + 2);
    assert!(is_client(&clash.unwrap_err(), AuthenticationClientError::AccountAlreadyExists));
    accounts.update_account_username(created.id, "caroline", NOW + 2).unwrap();
    assert!(accounts.get_account_by_username("caroline").is_ok());
    assert!(accounts.get_account_by_username("carol").is_err());
    assert_eq!(accounts.get_all_accounts().unwrap().len(), 2);

    // unknown user lookup by credentials reports the account error
    let missing = accounts.get_account_by_username_and_password(&passwords, "nobody", "pw");
    assert!(is_client(&missing.unwrap_err(), AuthenticationClientError::AccountNotFound));
}

#[test]
fn account_dto_hides_the_password_hash() {
    let (mut accounts, _, _, passwords) = services();
    let created = accounts
        .create_account(
            &passwords,
            core_auth::models::CreateAccountRequestDTO {
                username: "erin".to_string(),
                password: "pw".to_string(),
            },
            NOW,
        )
        .unwrap();
    let dto = core_auth::models::AccountDTO::from_model(&created);
    assert_eq!(dto.id, "acc_0");
    assert_eq!(dto.username, "erin");
    assert_eq!(dto.created_at, NOW);
}
