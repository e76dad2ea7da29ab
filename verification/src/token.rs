//! Signed, time-limited bearer tokens, through the jsonwebtoken crate.
//!
//! A token carries a subject, a fixed role and an expiry one day after the
//! moment of issue. The signing secret is chosen once at process start and
//! handed in by the caller; nothing here holds global state.

use vstd::prelude::*;

verus! {

/// The seconds a bearer token stays valid after it is issued.
pub const TOKEN_LIFETIME_SECS: usize = 86400;

/// The claim set carried by a bearer token.
pub struct Claims {
    pub sub: String,
    pub role: String,
    pub exp: usize,
}

/// What `jsonwebtoken::encode` returns for the claim set
/// `{sub, role, exp}` signed with an HS256 key built from `secret`: a
/// function of the claim fields and the secret alone (base64 of the fixed
/// default header and of the claims, then an HMAC-SHA256 signature).
pub uninterp spec fn jwt_token_of(sub: Seq<char>, role: Seq<char>, exp: int, secret: Seq<u8>) -> Seq<char>;

/// Relies on `jsonwebtoken::encode` with the default (HS256) header and a
/// key from `EncodingKey::from_secret`; the claims are handed over as a
/// JSON map with exactly the fields `sub`, `role` and `exp`. This signing
/// cannot fail: the key family built by `from_secret` is the one the
/// default header asks for, a JSON map with string keys always serializes,
/// and HMAC-SHA256 accepts a key of any length.
#[verifier::external_body]
fn encode_claims(sub: &String, role: &String, exp: usize, secret: &Vec<u8>) -> (r: String)
    ensures
        r@ == jwt_token_of(sub@, role@, exp as int, secret@),
{
    let mut m = serde_json::Map::new();
    m.insert("sub".to_string(), serde_json::Value::String(sub.clone()));
    m.insert("role".to_string(), serde_json::Value::String(role.clone()));
    m.insert("exp".to_string(), serde_json::Value::from(exp as u64));
    let key = jsonwebtoken::EncodingKey::from_secret(secret.as_slice());
    jsonwebtoken::encode(&jsonwebtoken::Header::default(), &serde_json::Value::Object(m), &key)
        .expect("HS256 signing with a secret key cannot fail")
}

/// Relies on `jsonwebtoken::decode` with `Validation::default()` (HS256,
/// signature check, expiry check against the current clock): whether a
/// token is accepted depends on the clock, but a success on a token that
/// `encode` produced from this secret carries exactly the claims that were
/// encoded into it.
#[verifier::external_body]
fn decode_claims(token: &String, secret: &Vec<u8>) -> (r: Option<Claims>)
    ensures
        r matches Some(c) ==> forall|s: Seq<char>, ro: Seq<char>, e: int|
            0 <= e <= usize::MAX && token@ == jwt_token_of(s, ro, e, secret@)
                ==> c.sub@ == s && c.role@ == ro && c.exp == e,
{
    let key = jsonwebtoken::DecodingKey::from_secret(secret.as_slice());
    let data = match jsonwebtoken::decode::<serde_json::Value>(
        token.as_str(), &key, &jsonwebtoken::Validation::default(),
    ) {
        Ok(d) => d,
        Err(_) => return None,
    };
    let sub = data.claims.get("sub")?.as_str()?.to_string();
    let role = data.claims.get("role")?.as_str()?.to_string();
    let exp = data.claims.get("exp")?.as_u64()? as usize;
    Some(Claims { sub, role, exp })
}

/// Issue a bearer token for `username`, good for one day from `now`
/// (seconds since the epoch).
pub fn create_jwt(username: &String, secret: &Vec<u8>, now: usize) -> (r: String)
    requires
        now + TOKEN_LIFETIME_SECS <= usize::MAX,
    ensures
        r@ == jwt_token_of(username@, "User"@, now + TOKEN_LIFETIME_SECS, secret@),
{
    let role: String = "User".to_owned();
    encode_claims(username, &role, now + TOKEN_LIFETIME_SECS, secret)
}

/// Check a bearer token's signature and expiry and return its claims.
/// `None` on a bad signature, a malformed token or one past its expiry.
pub fn validate_jwt(token: &String, secret: &Vec<u8>) -> (r: Option<Claims>)
    ensures
        r matches Some(c) ==> forall|s: Seq<char>, ro: Seq<char>, e: int|
            0 <= e <= usize::MAX && token@ == jwt_token_of(s, ro, e, secret@)
                ==> c.sub@ == s && c.role@ == ro && c.exp == e,
{
    decode_claims(token, secret)
}

} // verus!
