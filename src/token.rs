use vstd::prelude::*;

use crate::entities::{Claims, ClaimsView};

verus! {

/// Seconds for which an issued token stays valid.
pub const TOKEN_LIFETIME: u64 = 3600;

/// jsonwebtoken's error type, carried through opaque.
#[verifier::external_type_specification]
#[verifier::external_body]
pub struct ExJwtError(jsonwebtoken::errors::Error);

/// The claims `(sub, exp)` that jsonwebtoken::decode (HS256, no time check)
/// reads from `token` under the HMAC key `secret`, checking the signature or
/// not as `check_signature` says; `None` where it refuses the token or the
/// payload lacks a string `sub` or an unsigned `exp`.
pub uninterp spec fn jwt_claims(token: Seq<char>, secret: Seq<u8>, check_signature: bool) -> Option<(Seq<char>, u64)>;

/// The token that jsonwebtoken::encode writes for the claims `sub: subject`
/// and `exp: expires_at` under the default HS256 header, signed with the HMAC
/// key `secret`.
pub uninterp spec fn jwt_token_of(subject: Seq<char>, expires_at: u64, secret: Seq<u8>) -> Seq<char>;

/// Why a token could not be issued or was not accepted.
#[derive(PartialEq, Eq, Structural, Clone, Copy, Debug)]
pub enum TokenError {
    /// No `Authorization` header, or one without the `Bearer ` prefix.
    MissingCredential,
    /// The token is not a well-formed signed token carrying `sub` and `exp`.
    MalformedToken,
    /// The signature does not verify against the configured secret.
    SignatureMismatch,
    /// The token is well formed but its `exp` has passed.
    Expired,
    /// No secret is configured, or signing failed.
    SigningUnavailable,
}

/// The process-wide signing configuration: the shared HMAC secret, fixed for
/// the life of the process and handed to whatever issues or checks tokens.
pub struct JwtConfig {
    secret: Vec<u8>,
}

impl JwtConfig {
    /// The shared secret.
    pub closed spec fn secret(&self) -> Seq<u8> {
        self.secret@
    }

    /// A configuration signing with `secret`.
    pub fn new(secret: Vec<u8>) -> (r: JwtConfig)
        ensures
            r.secret() == secret@,
    {
        JwtConfig { secret }
    }

    /// A configuration from the value of the secret's environment variable;
    /// a missing variable means no token can be issued.
    pub fn from_env_value(value: Option<String>) -> (r: Result<JwtConfig, TokenError>)
        ensures
            value is None ==> r == Err::<JwtConfig, TokenError>(TokenError::SigningUnavailable),
            value matches Some(v) ==> r matches Ok(c) && c.secret() == vstd::utf8::encode_utf8(v@),
    {
        match value {
            None => Err(TokenError::SigningUnavailable),
            Some(v) => Ok(JwtConfig { secret: vstd::slice::slice_to_vec(v.as_str().as_bytes()) }),
        }
    }

    /// A copy of this configuration.
    pub fn duplicate(&self) -> (r: JwtConfig)
        ensures
            r.secret() == self.secret(),
    {
        JwtConfig { secret: self.secret.clone() }
    }
}

/// Relies on jsonwebtoken::encode with the default header (HS256) and an HMAC
/// key made from `secret`: the token carries the claims `sub` and `exp` as
/// given, and jsonwebtoken::decode reads them back from it under the same
/// secret, with or without checking the signature. With an HMAC key, the
/// HS256 header and a map of a string and an integer it does not fail.
#[verifier::external_body]
fn jwt_encode(subject: &str, expires_at: u64, secret: &[u8]) -> (r: Result<String, jsonwebtoken::errors::Error>)
    ensures
        r is Ok,
        r matches Ok(t) ==> t@ == jwt_token_of(subject@, expires_at, secret@),
        r matches Ok(t) ==> jwt_claims(t@, secret@, true) == Some((subject@, expires_at)),
        r matches Ok(t) ==> jwt_claims(t@, secret@, false) == Some((subject@, expires_at)),
{
    let mut claims = serde_json::Map::new();
    claims.insert("sub".to_string(), serde_json::Value::from(subject));
    claims.insert("exp".to_string(), serde_json::Value::from(expires_at));
    let key = jsonwebtoken::EncodingKey::from_secret(secret);
    jsonwebtoken::encode(&jsonwebtoken::Header::default(), &claims, &key)
}

/// Relies on jsonwebtoken::decode with HS256 and an HMAC key made from
/// `secret`, with its own expiry check off (the time is checked by the
/// caller): the claims `sub` and `exp` that it reads from the token. Checking
/// the signature only adds checks: claims read with the check are those read
/// without it.
#[verifier::external_body]
fn jwt_decode(token: &str, secret: &[u8], check_signature: bool) -> (r: Option<(String, u64)>)
    ensures
        r is None <==> jwt_claims(token@, secret@, check_signature) is None,
        r matches Some(c) ==> jwt_claims(token@, secret@, check_signature) == Some((c.0@, c.1)),
        check_signature && r is Some ==> jwt_claims(token@, secret@, false) == jwt_claims(token@, secret@, true),
{
    let key = jsonwebtoken::DecodingKey::from_secret(secret);
    let mut validation = jsonwebtoken::Validation::new(jsonwebtoken::Algorithm::HS256);
    validation.validate_exp = false;
    if !check_signature {
        validation.insecure_disable_signature_validation();
    }
    let claims = jsonwebtoken::decode::<serde_json::Value>(token, &key, &validation).ok()?.claims;
    Some((claims["sub"].as_str()?.to_string(), claims["exp"].as_u64()?))
}

/// Whether `token` carries the claims `subject` and `expires_at` and is signed
/// with `secret`: what issuing a token establishes.
pub open spec fn is_token_for(token: Seq<char>, secret: Seq<u8>, subject: Seq<char>, expires_at: u64) -> bool {
    &&& jwt_claims(token, secret, false) == Some((subject, expires_at))
    &&& jwt_claims(token, secret, true) == Some((subject, expires_at))
}

/// The outcome of checking `token` under `secret` at time `now`: first its
/// form, then its expiry, then its signature.
pub open spec fn decode_outcome(token: Seq<char>, secret: Seq<u8>, now: u64) -> Result<ClaimsView, TokenError> {
    match jwt_claims(token, secret, false) {
        None => Err(TokenError::MalformedToken),
        Some((subject, expires_at)) => {
            if expires_at <= now {
                Err(TokenError::Expired)
            } else {
                match jwt_claims(token, secret, true) {
                    None => Err(TokenError::SignatureMismatch),
                    Some((signed_subject, signed_expiry)) => Ok(
                        ClaimsView { subject: signed_subject, expires_at: signed_expiry },
                    ),
                }
            }
        },
    }
}

/// A result holding claims, seen through the claims' view.
pub open spec fn claims_result_view(r: Result<Claims, TokenError>) -> Result<ClaimsView, TokenError> {
    match r {
        Ok(c) => Ok(c@),
        Err(e) => Err(e),
    }
}

/// Issues a token for `user_email` at time `now`: it expires
/// `TOKEN_LIFETIME` seconds later and is signed with the configured secret.
/// The token depends on the email, the time and the secret alone.
pub fn generate_jwt(config: &JwtConfig, user_email: &str, now: u64) -> (r: Result<String, TokenError>)
    requires
        now <= u64::MAX - TOKEN_LIFETIME,
    ensures
        r matches Ok(t) && t@ == jwt_token_of(user_email@, (now + TOKEN_LIFETIME) as u64, config.secret()),
        r matches Ok(t) ==> is_token_for(t@, config.secret(), user_email@, (now + TOKEN_LIFETIME) as u64),
{
    let expires_at = now + TOKEN_LIFETIME;
    match jwt_encode(user_email, expires_at, config.secret.as_slice()) {
        Ok(token) => Ok(token),
        Err(_) => Err(TokenError::SigningUnavailable),
    }
}

/// Checks `token` at time `now`: it must be well formed, not yet expired and
/// signed with the configured secret; the claims read with the signature
/// checked are returned.
pub fn validate_jwt(config: &JwtConfig, token: &str, now: u64) -> (r: Result<Claims, TokenError>)
    ensures
        claims_result_view(r) == decode_outcome(token@, config.secret(), now),
        r matches Ok(c) ==> jwt_claims(token@, config.secret(), true) == Some((c.sub@, c.exp)) && now < c.exp,
{
    let secret = config.secret.as_slice();
    match jwt_decode(token, secret, false) {
        None => Err(TokenError::MalformedToken),
        Some((sub, exp)) => {
            if exp <= now {
                Err(TokenError::Expired)
            } else {
                match jwt_decode(token, secret, true) {
                    None => Err(TokenError::SignatureMismatch),
                    Some((signed_sub, signed_exp)) => Ok(Claims { sub: signed_sub, exp: signed_exp }),
                }
            }
        },
    }
}

/// A token issued for `subject` at time `issued_at` decodes, at any time
/// before it lapses, to exactly that subject and the expiry
/// `issued_at + TOKEN_LIFETIME`.
pub proof fn lemma_round_trip(token: Seq<char>, secret: Seq<u8>, subject: Seq<char>, issued_at: u64, now: u64)
    requires
        issued_at <= u64::MAX - TOKEN_LIFETIME,
        is_token_for(token, secret, subject, (issued_at + TOKEN_LIFETIME) as u64),
        now < issued_at + TOKEN_LIFETIME,
    ensures
        decode_outcome(token, secret, now) == Ok::<ClaimsView, TokenError>(
            ClaimsView { subject, expires_at: (issued_at + TOKEN_LIFETIME) as u64 },
        ),
{
}

/// Once the time has reached the expiry that a well-formed token carries, the
/// token is refused as expired, whether or not its signature is valid.
pub proof fn lemma_expired_token_refused(token: Seq<char>, secret: Seq<u8>, now: u64)
    requires
        jwt_claims(token, secret, false) matches Some(c) && c.1 <= now,
    ensures
        decode_outcome(token, secret, now) == Err::<ClaimsView, TokenError>(TokenError::Expired),
{
}

/// A well-formed token that has not expired but whose signature does not
/// verify against the configured secret is refused as a signature mismatch.
pub proof fn lemma_bad_signature_refused(token: Seq<char>, secret: Seq<u8>, now: u64)
    requires
        jwt_claims(token, secret, false) matches Some(c) && now < c.1,
        jwt_claims(token, secret, true) is None,
    ensures
        decode_outcome(token, secret, now) == Err::<ClaimsView, TokenError>(TokenError::SignatureMismatch),
{
}

} // verus!
