//! Signing and verifying tokens.
//!
//! A token is a JSON Web Token signed with HMAC-SHA256. Its payload is the object
//! `{"exp": <seconds>, "user": {"id": <integer>}}`. Both directions are the work
//! of the `jsonwebtoken` crate; what is said of them here is assumed, not proved.
use jsonwebtoken::DecodingKey;
use jsonwebtoken::EncodingKey;
use jsonwebtoken::Header;
use jsonwebtoken::Validation;
use serde_json::Value;
use vstd::prelude::*;

verus! {

/// The token that signing `{"exp": exp, "user": {"id": id}}` with `secret` gives.
pub uninterp spec fn signed_token(secret: Seq<u8>, exp: u64, id: i32) -> Seq<char>;

/// The two numbers `exp` and `user.id` in the payload of a token whose signature
/// verifies against `secret`, or `None` where the token is malformed, the
/// signature does not verify or the payload lacks one of the numbers. Whether the
/// token has expired plays no part.
pub uninterp spec fn verified_payload(secret: Seq<u8>, token: Seq<char>) -> Option<(u64, i64)>;

/// Calls `jsonwebtoken::encode` with the default header on the payload
/// `{"exp": exp, "user": {"id": id}}` and a key made of `secret`.
///
/// Assumed of the crate, as built with its pure-Rust provider:
/// * the outcome depends on the three arguments alone;
/// * signing with HMAC-SHA256 does not fail, whatever the length of the secret;
/// * the token it gives verifies against the same secret, and the payload read
///   back holds the two numbers that went in.
#[verifier::external_body]
pub(crate) fn sign_claims(secret: &[u8], exp: u64, id: i32) -> (token: Option<String>)
    ensures
        token is Some,
        token->0@ == signed_token(secret@, exp, id),
        verified_payload(secret@, token->0@) == Some((exp, id as i64)),
{
    let mut user = serde_json::Map::new();
    user.insert("id".to_string(), Value::from(id));
    let mut claims = serde_json::Map::new();
    claims.insert("exp".to_string(), Value::from(exp));
    claims.insert("user".to_string(), Value::Object(user));
    let key = EncodingKey::from_secret(secret);
    jsonwebtoken::encode(&Header::default(), &Value::Object(claims), &key).ok()
}

/// Calls `jsonwebtoken::decode` with a key made of `secret` and the default
/// validation but for the check of `exp` against the clock, which is switched
/// off, and picks `exp` and `user.id` out of the payload.
///
/// Assumed of the crate: with that check off it does not read the clock, so the
/// outcome depends on the two arguments alone. `None` stands for every way of
/// failing.
#[verifier::external_body]
pub(crate) fn verify_token(secret: &[u8], token: &str) -> (payload: Option<(u64, i64)>)
    ensures
        payload == verified_payload(secret@, token@),
{
    let key = DecodingKey::from_secret(secret);
    let mut validation = Validation::default();
    validation.validate_exp = false;
    let data = jsonwebtoken::decode::<Value>(token, &key, &validation).ok()?;
    let exp = data.claims.get("exp")?.as_u64()?;
    let id = data.claims.get("user")?.get("id")?.as_i64()?;
    Some((exp, id))
}

} // verus!
