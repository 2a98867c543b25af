use core_auth::config::AuthenticationConfiguration;
use core_auth::errors::{AuthenticationClientError, AuthenticationServiceError};
use core_auth::laws::{hash_then_verify, issue_then_verify_token};
use core_auth::password::PasswordService;
use core_auth::token::{current_unix_time, TokenOpts, TokenService};

fn token_service() -> TokenService {
    TokenService::new(AuthenticationConfiguration {
        jwt_secret: "unit-test-signing-key".to_string(),
        jwt_expiration_seconds: 3600,
        refresh_token_expiration_days: 7,
    })
}

#[test]
fn password_verifies_after_hashing() {
    let svc = PasswordService;
    let hash = svc.hash_password("pw1").unwrap();
    assert!(svc.verify_password(&hash, "pw1").unwrap());
}

#[test]
fn password_salting_is_fresh_but_both_verify() {
    let svc = PasswordService;
    let h1 = svc.hash_password("same password").unwrap();
    let h2 = svc.hash_password("same password").unwrap();
    assert_ne!(h1, h2);
    assert!(svc.verify_password(&h1, "same password").unwrap());
    assert!(svc.verify_password(&h2, "same password").unwrap());
}

#[test]
fn wrong_password_does_not_verify() {
    let svc = PasswordService;
    let hash = svc.hash_password("pw1").unwrap();
    assert!(!svc.verify_password(&hash, "pw2").unwrap());
    assert!(!svc.verify_password(&hash, "").unwrap());
}

#[test]
fn malformed_stored_hash_is_a_server_fault() {
    let svc = PasswordService;
    let r = svc.verify_password("not a phc encoding", "pw");
    assert!(matches!(r, Err(AuthenticationServiceError::ServerError(_))));
}

#[test]
fn hash_then_verify_law_holds_at_runtime() {
    let svc = PasswordService;
    assert_eq!(hash_then_verify(&svc, "any password at all").unwrap(), true);
}

#[test]
fn access_token_round_trip() {
    let svc = token_service();
    let now = 1_700_000_000;
    let opts = TokenOpts::new("acc_5".to_string(), "ses_9".to_string(), "core-auth".to_string());
    let (token, expires_at) = svc.generate_jwt(opts, now).unwrap();
    assert_eq!(expires_at, now + 3600);
    let (account_id, session_id) = svc.verify_jwt(&token, now).unwrap();
    assert_eq!((account_id, session_id), (5, 9));
}

#[test]
fn access_token_expiry_boundary() {
    let svc = token_service();
    let now = 1_700_000_000;
    let opts = TokenOpts::new("acc_1".to_string(), "ses_2".to_string(), "core-auth".to_string());
    let (token, expires_at) = svc.generate_jwt(opts, now).unwrap();
    // at the expiry instant the token is still accepted
    assert!(svc.verify_jwt(&token, expires_at).is_ok());
    // strictly after it, the distinct expiry error is reported
    let late = svc.verify_jwt(&token, expires_at + 1);
    assert!(matches!(
        late,
        Err(AuthenticationServiceError::ClientError(
            AuthenticationClientError::ExpiredAccessToken
        ))
    ));
}

#[test]
fn issue_then_verify_law_holds_at_runtime() {
    let svc = token_service();
    let issued = 1_700_000_000;
    let ids = issue_then_verify_token(&svc, 11, 22, "core-auth".to_string(), issued, issued + 10);
    assert_eq!(ids.unwrap(), (11, 22));
    let late = issue_then_verify_token(&svc, 11, 22, "core-auth".to_string(), issued, issued + 3601);
    assert!(matches!(
        late,
        Err(AuthenticationServiceError::ClientError(
            AuthenticationClientError::ExpiredAccessToken
        ))
    ));
}

#[test]
fn tampered_token_is_invalid_not_expired() {
    let svc = token_service();
    let now = 1_700_000_000;
    let opts = TokenOpts::new("acc_1".to_string(), "ses_1".to_string(), "core-auth".to_string());
    let (token, _) = svc.generate_jwt(opts, now).unwrap();
    let mut tampered = token.clone();
    // flip the final signature character
    let last = tampered.pop().unwrap();
    tampered.push(if last == 'A' { 'B' } else { 'A' });
    let r = svc.verify_jwt(&tampered, now);
    assert!(matches!(
        r,
        Err(AuthenticationServiceError::ClientError(
            AuthenticationClientError::InvalidAccessToken
        ))
    ));
}

#[test]
fn token_from_another_key_is_rejected() {
    let issuer = token_service();
    let other = TokenService::new(AuthenticationConfiguration {
        jwt_secret: "a different signing key".to_string(),
        jwt_expiration_seconds: 3600,
        refresh_token_expiration_days: 7,
    });
    let now = 1_700_000_000;
    let opts = TokenOpts::new("acc_1".to_string(), "ses_1".to_string(), "core-auth".to_string());
    let (token, _) = issuer.generate_jwt(opts, now).unwrap();
    let r = other.verify_jwt(&token, now);
    assert!(matches!(
        r,
        Err(AuthenticationServiceError::ClientError(
            AuthenticationClientError::InvalidAccessToken
        ))
    ));
}

#[test]
fn malformed_identifier_claims_are_rejected_by_kind() {
    let svc = token_service();
    let now = 1_700_000_000;
    let bad_account = TokenOpts::new("user-5".to_string(), "ses_9".to_string(), "x".to_string());
    let (token, _) = svc.generate_jwt(bad_account, now).unwrap();
    assert!(matches!(
        svc.verify_jwt(&token, now),
        Err(AuthenticationServiceError::ClientError(
            AuthenticationClientError::InvalidAccountId
        ))
    ));
    let bad_session = TokenOpts::new("acc_5".to_string(), "9".to_string(), "x".to_string());
    let (token2, _) = svc.generate_jwt(bad_session, now).unwrap();
    assert!(matches!(
        svc.verify_jwt(&token2, now),
        Err(AuthenticationServiceError::ClientError(
            AuthenticationClientError::InvalidSessionId
        ))
    ));
}

#[test]
fn refresh_secret_generation_is_long_and_fresh() {
    let svc = token_service();
    let a = svc.generate_refresh_token();
    let b = svc.generate_refresh_token();
    assert_eq!(a.len(), 128);
    assert_eq!(b.len(), 128);
    assert_ne!(a, b);
    assert!(a.chars().all(|c| c.is_ascii_hexdigit()));
}

#[test]
fn refresh_hash_is_deterministic_sha256_hex() {
    let svc = token_service();
    // the well-known SHA-256 digest of "abc"
    assert_eq!(
        svc.hash_refresh_token("abc"),
        "ba7816bf8f01cfea414140de5dae2223b00361a396177a9cb410ff61f20015ad"
    );
    assert_eq!(svc.hash_refresh_token("abc"), svc.hash_refresh_token("abc"));
    assert_ne!(svc.hash_refresh_token("abc"), svc.hash_refresh_token("abd"));
}

#[test]
fn token_opts_map_holds_the_three_claims() {
    let opts = TokenOpts::new("acc_1".to_string(), "ses_2".to_string(), "svc".to_string());
    let map = opts.into_map();
    assert_eq!(map.len(), 3);
    assert_eq!(map[0], ("account_id".to_string(), "acc_1".to_string()));
    assert_eq!(map[1], ("session_id".to_string(), "ses_2".to_string()));
    assert_eq!(map[2], ("service".to_string(), "svc".to_string()));
}

#[test]
fn clock_reads_a_plausible_time() {
    // after 2020-01-01 on any machine with a sane clock
    assert!(current_unix_time() > 1_577_836_800);
}
