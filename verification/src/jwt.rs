use vstd::prelude::*;
use vstd::string::*;
use crate::error::ServiceError;

verus! {

/// How long an issued token stays valid, in seconds.
pub const TOKEN_LIFETIME_SECONDS: u64 = 86400;

/// The claims carried by an access token: the user id, the expiry as a
/// Unix timestamp, and the username.
#[derive(Debug)]
pub struct Claims {
    pub sub: String,
    pub exp: usize,
    pub username: String,
}

/// Issues and verifies signed access tokens for the front end. Token
/// issuance and verification are an external capability: the access
/// service itself never inspects a token, it trusts the caller identity
/// the front end derived from one.
#[derive(Debug)]
pub struct JwtService {
    pub secret: String,
}

/// Relies on chrono::Utc::now: the current Unix timestamp. It depends on
/// the clock, so nothing is assumed of its value.
#[verifier::external_body]
fn now_timestamp() -> (r: i64) {
    chrono::Utc::now().timestamp()
}

/// Relies on jsonwebtoken::encode with the default HS256 header: signs
/// claims built from the given values with the secret. Nothing is assumed
/// of the token string itself.
#[verifier::external_body]
fn encode_token(secret: &str, sub: &str, username: &str, exp: u64) -> (r: Result<String, String>) {
    let mut claims = serde_json::Map::new();
    claims.insert("sub".to_string(), serde_json::Value::from(sub));
    claims.insert("username".to_string(), serde_json::Value::from(username));
    claims.insert("exp".to_string(), serde_json::Value::from(exp));
    jsonwebtoken::encode(
        &jsonwebtoken::Header::default(),
        &serde_json::Value::Object(claims),
        &jsonwebtoken::EncodingKey::from_secret(secret.as_bytes()),
    ).map_err(|e| e.to_string())
}

/// Relies on jsonwebtoken::decode with default validation: only a token
/// correctly signed with the secret and not yet expired is accepted, and
/// its claims are handed back as plain values. Acceptance depends on the
/// clock, so nothing more is assumed.
#[verifier::external_body]
fn decode_token(secret: &str, token: &str) -> (r: Result<(String, String, u64), String>) {
    let data = jsonwebtoken::decode::<serde_json::Value>(
        token,
        &jsonwebtoken::DecodingKey::from_secret(secret.as_bytes()),
        &jsonwebtoken::Validation::default(),
    ).map_err(|e| e.to_string())?;
    let sub = data.claims.get("sub").and_then(|v| v.as_str()).unwrap_or("").to_string();
    let username = data.claims.get("username").and_then(|v| v.as_str()).unwrap_or("").to_string();
    let exp = data.claims.get("exp").and_then(|v| v.as_u64()).unwrap_or(0);
    Ok((sub, username, exp))
}

impl JwtService {
    pub fn new(secret: String) -> (r: Self)
        ensures
            r.secret@ == secret@,
    {
        JwtService { secret }
    }

    /// A signed token naming this user, expiring one lifetime from now.
    /// Failures of the signer surface as validation errors.
    pub fn generate_token(&self, user_id: &str, username: &str) -> (r: Result<
        String,
        ServiceError,
    >)
        ensures
            r matches Err(e) ==> e matches ServiceError::ValidationError(_),
    {
        let now = now_timestamp();
        let now_u: u64 = if now < 0 {
            0
        } else {
            now as u64
        };
        let exp: u64 = if now_u <= u64::MAX - TOKEN_LIFETIME_SECONDS {
            now_u + TOKEN_LIFETIME_SECONDS
        } else {
            u64::MAX
        };
        match encode_token(self.secret.as_str(), user_id, username, exp) {
            Ok(t) => Ok(t),
            Err(m) => Err(ServiceError::ValidationError(m)),
        }
    }

    /// The claims of a token that verifies against this secret; a token
    /// that does not verify is a validation error.
    pub fn verify_token(&self, token: &str) -> (r: Result<Claims, ServiceError>)
        ensures
            r matches Err(e) ==> e matches ServiceError::ValidationError(_),
    {
        match decode_token(self.secret.as_str(), token) {
            Ok(parts) => {
                let (sub, username, exp) = parts;
                let e: usize = if exp > (usize::MAX as u64) {
                    usize::MAX
                } else {
                    exp as usize
                };
                Ok(Claims { sub, exp: e, username })
            },
            Err(m) => Err(ServiceError::ValidationError(m)),
        }
    }
}

} // verus!
