//! Access-token issuance and verification, and refresh-secret handling.
//!
//! An access token is a keyed-hash-signed claim set holding the account
//! identifier, the session identifier, the issuing service name, and an
//! absolute expiry in unix seconds.  Verification recomputes the signature
//! before trusting any claim; a bad signature or structure is
//! `InvalidAccessToken`, and only a genuinely signed, well-formed token can
//! fail with the distinct `ExpiredAccessToken`.
//!
//! A refresh secret is a high-entropy random hex string returned to the
//! caller once; only its deterministic one-way digest is ever stored, so a
//! presented secret can be looked up by hash.

use vstd::prelude::*;

use std::collections::BTreeMap;

use hmac::{Hmac, Mac};
use jwt::{SignWithKey, VerifyWithKey};
use rand::Rng;
use sha2::{Digest, Sha256};

use crate::codec::{
    bytes_to_hex, dec_digits_of, dec_val, hex_of_bytes, is_canonical_dec, is_hex_digit,
    lemma_canonical_dec_unique, lemma_dec_digits_of_val, lemma_hex_of_bytes_digits,
    lemma_hex_of_bytes_len, lemma_named_id_injective, parse_dec_u64, parse_named_id,
};
use crate::config::AuthenticationConfiguration;
use crate::errors::{AuthenticationClientError, AuthenticationServiceError};
use crate::models::{account_named, session_named};

verus! {

/// The signed token that the keyed-hash issuer produces for a claim set;
/// a function of the signing secret and the four claims alone.  Named
/// after the result of `jwt::SignWithKey::sign_with_key` over HMAC-SHA256.
pub uninterp spec fn jwt_token_of(
    secret: Seq<char>,
    account_id: Seq<char>,
    session_id: Seq<char>,
    service: Seq<char>,
    exp: u64,
) -> Seq<char>;

/// What keyed-hash verification yields for a token under a secret: `None`
/// when the structure or the HMAC-SHA256 signature is rejected, otherwise
/// the values of the four claims this library reads, each `None` when the
/// claim is absent from the token's claim map.  A function of the secret
/// and the token alone; named after the result of
/// `jwt::VerifyWithKey::verify_with_key`.
pub uninterp spec fn jwt_claims_of(secret: Seq<char>, token: Seq<char>) -> Option<
    (Option<Seq<char>>, Option<Seq<char>>, Option<Seq<char>>, Option<Seq<char>>),
>;

/// Whether a token string carries a valid HMAC-SHA256 signature under a
/// secret: exactly when verification yields its claim set.
pub open spec fn jwt_signed(secret: Seq<char>, token: Seq<char>) -> bool {
    jwt_claims_of(secret, token) is Some
}

/// The claim value views of the raw claims a verification call hands back.
pub open spec fn claim_view(o: Option<String>) -> Option<Seq<char>> {
    match o {
        Some(s) => Some(s@),
        None => None,
    }
}

/// The outcome token verification owes for a token whose claim set is
/// `claims`, checked at time `now`: rejection of the signature or of a
/// missing or unparseable claim, the distinct expiry failure for a genuine
/// token checked strictly after its expiry, and otherwise the two
/// identifiers.
pub open spec fn token_verdict(
    claims: Option<(Option<Seq<char>>, Option<Seq<char>>, Option<Seq<char>>, Option<Seq<char>>)>,
    now: u64,
) -> Result<(u64, u64), AuthenticationClientError> {
    match claims {
        None => Err(AuthenticationClientError::InvalidAccessToken),
        Some(m) => match (m.0, m.1, m.3) {
            (Some(a), Some(s), Some(e)) => if forall|va: u64| a != account_named(va) {
                Err(AuthenticationClientError::InvalidAccountId)
            } else if forall|vs: u64| s != session_named(vs) {
                Err(AuthenticationClientError::InvalidSessionId)
            } else if !is_canonical_dec(e) || dec_val(e) > u64::MAX {
                Err(AuthenticationClientError::InvalidAccessToken)
            } else if now > dec_val(e) {
                Err(AuthenticationClientError::ExpiredAccessToken)
            } else {
                Ok(
                    (
                        (choose|va: u64| a == account_named(va)),
                        (choose|vs: u64| s == session_named(vs)),
                    ),
                )
            },
            _ => Err(AuthenticationClientError::InvalidAccessToken),
        },
    }
}

/// The deterministic one-way digest used for refresh secrets: the SHA-256
/// digest of the UTF-8 bytes, in lower-case hexadecimal.  Named after the
/// result of `sha2::Sha256::digest`.
pub uninterp spec fn sha256_hex(input: Seq<char>) -> Seq<char>;

/// The raw claim values handed back by token verification, in the order
/// account, session, service, expiry.
pub open spec fn jwt_claims_exact(
    r: Option<(Option<String>, Option<String>, Option<String>, Option<String>)>,
    account: Seq<char>,
    session: Seq<char>,
    service: Seq<char>,
    exp: u64,
) -> bool {
    match r {
        Some(c) => {
            &&& match c.0 {
                Some(x) => x@ == account,
                None => false,
            }
            &&& match c.1 {
                Some(x) => x@ == session,
                None => false,
            }
            &&& match c.2 {
                Some(x) => x@ == service,
                None => false,
            }
            &&& match c.3 {
                Some(x) => x@ == dec_digits_of(exp as nat),
                None => false,
            }
        },
        None => false,
    }
}

/// Relies on `jwt::SignWithKey::sign_with_key` over `hmac::Hmac<Sha256>`:
/// the claim map (the four claims below, the expiry as its decimal
/// numeral) is serialized deterministically and signed with the secret, so
/// the token is a function of the secret and the claims alone, and the
/// token it returns verifies under the same key.  The call cannot fail:
/// the keyed hash accepts keys of any length, and serializing a map of
/// strings cannot error.
#[verifier::external_body]
fn jwt_sign(secret: &str, account_id: &str, session_id: &str, service: &str, exp: u64) -> (r:
    Result<String, String>)
    ensures
        r is Ok,
        r matches Ok(t) ==> t@ == jwt_token_of(secret@, account_id@, session_id@, service@, exp)
            && jwt_signed(secret@, t@),
{
    let key: Hmac<Sha256> = match Hmac::new_from_slice(secret.as_bytes()) {
        Ok(k) => k,
        Err(e) => return Err(format!("{}", e)),
    };
    let mut claims = BTreeMap::new();
    claims.insert("account_id", account_id.to_string());
    claims.insert("session_id", session_id.to_string());
    claims.insert("service", service.to_string());
    claims.insert("exp", format!("{}", exp));
    match claims.sign_with_key(&key) {
        Ok(t) => Ok(t),
        Err(e) => Err(format!("{}", e)),
    }
}

/// Relies on `jwt::VerifyWithKey::verify_with_key` over `hmac::Hmac<Sha256>`:
/// it succeeds exactly on tokens whose signature is valid under the secret,
/// and then returns the token's own claims — so the call realizes
/// [`jwt_claims_of`], and a token produced by [`jwt_sign`] yields back
/// exactly the claims it was signed over.
#[verifier::external_body]
fn jwt_verify(secret: &str, token: &str) -> (r: Option<
    (Option<String>, Option<String>, Option<String>, Option<String>),
>)
    ensures
        match r {
            None => jwt_claims_of(secret@, token@) is None,
            Some(c) => jwt_claims_of(secret@, token@) == Some(
                (claim_view(c.0), claim_view(c.1), claim_view(c.2), claim_view(c.3)),
            ),
        },
        forall|a: Seq<char>, s: Seq<char>, v: Seq<char>, e: u64|
            token@ == #[trigger] jwt_token_of(secret@, a, s, v, e) ==> jwt_claims_exact(
                r,
                a,
                s,
                v,
                e,
            ),
{
    let key: Hmac<Sha256> = match Hmac::new_from_slice(secret.as_bytes()) {
        Ok(k) => k,
        Err(_) => return None,
    };
    let claims: BTreeMap<String, String> = match token.verify_with_key(&key) {
        Ok(c) => c,
        Err(_) => return None,
    };
    Some((
        claims.get("account_id").cloned(),
        claims.get("session_id").cloned(),
        claims.get("service").cloned(),
        claims.get("exp").cloned(),
    ))
}

/// Relies on `sha2::Sha256::digest`: the 32-byte digest of the UTF-8 bytes
/// of `s`, rendered as 64 lower-case hexadecimal digits; a function of the
/// characters alone.
#[verifier::external_body]
fn sha256_hex_of(s: &str) -> (r: String)
    ensures
        r@ == sha256_hex(s@),
        r@.len() == 64,
{
    let digest = Sha256::digest(s.as_bytes());
    digest.iter().map(|b| format!("{:02x}", b)).collect()
}

/// Relies on `rand::rng` (the thread-local cryptographically secure
/// generator) and `rand::RngCore::fill_bytes`: 64 bytes of randomness;
/// nothing can be promised of their values.
#[verifier::external_body]
fn random_token_bytes() -> (r: Vec<u8>)
    ensures
        r@.len() == 64,
{
    let mut bytes = vec![0u8; 64];
    rand::rng().fill_bytes(&mut bytes);
    bytes
}

/// Relies on `chrono::Utc::now`: the current unix timestamp in whole
/// seconds.  Depends on the machine clock, so nothing is promised of it.
#[verifier::external_body]
fn unix_now_seconds() -> i64 {
    chrono::Utc::now().timestamp()
}

/// The current time as unix seconds, clamped to zero for clocks set before
/// the epoch.  Depends on the machine clock: nothing more can be said of
/// the value.
pub fn current_unix_time() -> u64 {
    let t = unix_now_seconds();
    if t < 0 {
        0
    } else {
        t as u64
    }
}

/// The claim set an access token is issued over.
pub struct TokenOpts {
    pub account_id: String,
    pub session_id: String,
    pub service: String,
}

impl TokenOpts {
    pub fn new(account_id: String, session_id: String, service: String) -> (r: Self)
        ensures
            r.account_id@ == account_id@,
            r.session_id@ == session_id@,
            r.service@ == service@,
    {
        TokenOpts { account_id, session_id, service }
    }

    /// The claim set as key/value pairs, in claim order.
    pub fn into_map(self) -> (r: Vec<(String, String)>)
        ensures
            r@.len() == 3,
            r@[0].0@ == "account_id"@ && r@[0].1@ == self.account_id@,
            r@[1].0@ == "session_id"@ && r@[1].1@ == self.session_id@,
            r@[2].0@ == "service"@ && r@[2].1@ == self.service@,
    {
        let mut map: Vec<(String, String)> = Vec::new();
        map.push((String::from_str("account_id"), self.account_id));
        map.push((String::from_str("session_id"), self.session_id));
        map.push((String::from_str("service"), self.service));
        map
    }
}

/// Signs and verifies access tokens and generates and hashes refresh
/// secrets, under a configured secret and expiry policy.
pub struct TokenService {
    authentication_config: AuthenticationConfiguration,
}

impl TokenService {
    /// The signing secret.
    pub closed spec fn secret(&self) -> Seq<char> {
        self.authentication_config.jwt_secret@
    }

    /// The access-token lifetime in seconds.
    pub closed spec fn access_lifetime(&self) -> u64 {
        self.authentication_config.jwt_expiration_seconds
    }

    /// The refresh-token lifetime in days.
    pub closed spec fn refresh_lifetime_days(&self) -> u64 {
        self.authentication_config.refresh_token_expiration_days
    }

    pub fn new(authentication_config: AuthenticationConfiguration) -> (r: Self)
        ensures
            r.secret() == authentication_config.jwt_secret@,
            r.access_lifetime() == authentication_config.jwt_expiration_seconds,
            r.refresh_lifetime_days() == authentication_config.refresh_token_expiration_days,
    {
        TokenService { authentication_config }
    }

    /// Issues a signed access token over `opts`, expiring at
    /// `now + access_lifetime` (an overflow of that sum is a server fault).
    pub fn generate_jwt(&self, opts: TokenOpts, now: u64) -> (r: Result<
        (String, u64),
        AuthenticationServiceError,
    >)
        ensures
            match r {
                Ok(p) => {
                    &&& now + self.access_lifetime() <= u64::MAX
                    &&& p.1 == now + self.access_lifetime()
                    &&& p.0@ == jwt_token_of(
                        self.secret(),
                        opts.account_id@,
                        opts.session_id@,
                        opts.service@,
                        p.1,
                    )
                    &&& jwt_signed(self.secret(), p.0@)
                },
                Err(e) => e is ServerError,
            },
            now + self.access_lifetime() > u64::MAX ==> r is Err,
            now + self.access_lifetime() <= u64::MAX ==> r is Ok,
    {
        let exp = match now.checked_add(self.authentication_config.jwt_expiration_seconds) {
            Some(e) => e,
            None => {
                return Err(
                    AuthenticationServiceError::ServerError(
                        String::from_str("failed to calculate the access token expiry"),
                    ),
                );
            },
        };
        match jwt_sign(
            self.authentication_config.jwt_secret.as_str(),
            opts.account_id.as_str(),
            opts.session_id.as_str(),
            opts.service.as_str(),
            exp,
        ) {
            Ok(t) => Ok((t, exp)),
            Err(m) => Err(AuthenticationServiceError::ServerError(m)),
        }
    }

    /// Verifies an access token at time `now` and returns the account and
    /// session identifiers from its claims.  The outcome is exactly
    /// [`token_verdict`] of the token's claim set: the signature is checked
    /// before any claim is trusted; a forged token, a missing claim or an
    /// unparseable expiry is `InvalidAccessToken`, identifier claims not of
    /// the prefixed form are `InvalidAccountId`/`InvalidSessionId`, and a
    /// genuine well-formed token fails with the distinct
    /// `ExpiredAccessToken` exactly when `now` is strictly past its expiry.
    pub fn verify_jwt(&self, token: &str, now: u64) -> (r: Result<
        (u64, u64),
        AuthenticationServiceError,
    >)
        ensures
            ({
                let verdict = token_verdict(jwt_claims_of(self.secret(), token@), now);
                match r {
                    Ok(ids) => verdict == Ok::<(u64, u64), AuthenticationClientError>(ids),
                    Err(e) => e matches AuthenticationServiceError::ClientError(c) && verdict
                        == Err::<(u64, u64), AuthenticationClientError>(c),
                }
            }),
            !jwt_signed(self.secret(), token@) ==> r matches Err(
                AuthenticationServiceError::ClientError(
                    AuthenticationClientError::InvalidAccessToken,
                ),
            ),
            r is Ok ==> jwt_signed(self.secret(), token@),
            forall|a: u64, s: u64, v: Seq<char>, e: u64|
                token@ == #[trigger] jwt_token_of(
                    self.secret(),
                    account_named(a),
                    session_named(s),
                    v,
                    e,
                ) ==> if now > e {
                    r matches Err(
                        AuthenticationServiceError::ClientError(
                            AuthenticationClientError::ExpiredAccessToken,
                        ),
                    )
                } else {
                    r matches Ok(ids) && ids.0 == a && ids.1 == s
                },
            r matches Err(e) ==> e matches AuthenticationServiceError::ClientError(c) && (
            c is InvalidAccessToken || c is InvalidAccountId || c is InvalidSessionId
                || c is ExpiredAccessToken),
    {
        let claims = match jwt_verify(self.authentication_config.jwt_secret.as_str(), token) {
            Some(c) => c,
            None => {
                return Err(
                    AuthenticationServiceError::ClientError(
                        AuthenticationClientError::InvalidAccessToken,
                    ),
                );
            },
        };
        let (account_claim, session_claim, _service_claim, exp_claim) = claims;
        let account_str = match account_claim {
            Some(s) => s,
            None => {
                return Err(
                    AuthenticationServiceError::ClientError(
                        AuthenticationClientError::InvalidAccessToken,
                    ),
                );
            },
        };
        let session_str = match session_claim {
            Some(s) => s,
            None => {
                return Err(
                    AuthenticationServiceError::ClientError(
                        AuthenticationClientError::InvalidAccessToken,
                    ),
                );
            },
        };
        let exp_str = match exp_claim {
            Some(s) => s,
            None => {
                return Err(
                    AuthenticationServiceError::ClientError(
                        AuthenticationClientError::InvalidAccessToken,
                    ),
                );
            },
        };
        let account_id = match parse_named_id("acc_", account_str.as_str()) {
            Some(v) => v,
            None => {
                return Err(
                    AuthenticationServiceError::ClientError(
                        AuthenticationClientError::InvalidAccountId,
                    ),
                );
            },
        };
        proof {
            assert(!(forall|va: u64| account_str@ != account_named(va))) by {
                assert(account_str@ == account_named(account_id));
            }
        }
        let session_id = match parse_named_id("ses_", session_str.as_str()) {
            Some(v) => v,
            None => {
                return Err(
                    AuthenticationServiceError::ClientError(
                        AuthenticationClientError::InvalidSessionId,
                    ),
                );
            },
        };
        proof {
            assert(!(forall|vs: u64| session_str@ != session_named(vs))) by {
                assert(session_str@ == session_named(session_id));
            }
        }
        let exp = match parse_dec_u64(exp_str.as_str()) {
            Some(v) => v,
            None => {
                proof {
                    assert forall|a: u64, s: u64, v: Seq<char>, e: u64|
                        token@ != #[trigger] jwt_token_of(
                            self.secret(),
                            account_named(a),
                            session_named(s),
                            v,
                            e,
                        ) by {
                        lemma_dec_digits_of_val(e as nat);
                        if token@ == jwt_token_of(
                            self.secret(),
                            account_named(a),
                            session_named(s),
                            v,
                            e,
                        ) {
                            assert(exp_str@ == dec_digits_of(e as nat));
                        }
                    }
                }
                return Err(
                    AuthenticationServiceError::ClientError(
                        AuthenticationClientError::InvalidAccessToken,
                    ),
                );
            },
        };
        proof {
            assert forall|a: u64, s: u64, v: Seq<char>, e: u64|
                token@ == #[trigger] jwt_token_of(
                    self.secret(),
                    account_named(a),
                    session_named(s),
                    v,
                    e,
                ) implies account_id == a && session_id == s && exp == e by {
                lemma_dec_digits_of_val(e as nat);
                lemma_canonical_dec_unique(exp_str@);
                lemma_named_id_injective("acc_"@, account_id, a);
                lemma_named_id_injective("ses_"@, session_id, s);
            }
            let cva = choose|va: u64| account_str@ == account_named(va);
            lemma_named_id_injective("acc_"@, cva, account_id);
            let cvs = choose|vs: u64| session_str@ == session_named(vs);
            lemma_named_id_injective("ses_"@, cvs, session_id);
        }
        if now > exp {
            return Err(
                AuthenticationServiceError::ClientError(
                    AuthenticationClientError::ExpiredAccessToken,
                ),
            );
        }
        Ok((account_id, session_id))
    }

    /// Produces a fresh, cryptographically random refresh secret of 512
    /// random bits, rendered as 128 lower-case hexadecimal digits.
    pub fn generate_refresh_token(&self) -> (r: String)
        ensures
            r@.len() == 128,
            forall|i: int| 0 <= i < r@.len() ==> is_hex_digit(#[trigger] r@[i]),
            exists|bs: Seq<u8>| bs.len() == 64 && r@ == hex_of_bytes(bs),
    {
        let bytes = random_token_bytes();
        proof {
            lemma_hex_of_bytes_len(bytes@);
            lemma_hex_of_bytes_digits(bytes@);
        }
        bytes_to_hex(&bytes)
    }

    /// The deterministic one-way digest of a refresh secret; the same
    /// secret always hashes identically, so a stored session can be found
    /// by the hash of the presented secret.
    pub fn hash_refresh_token(&self, refresh_token: &str) -> (r: String)
        ensures
            r@ == sha256_hex(refresh_token@),
            r@.len() == 64,
    {
        sha256_hex_of(refresh_token)
    }
}

} // verus!
