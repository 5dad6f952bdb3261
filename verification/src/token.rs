//! Session token codec: issues and validates signed, time-bounded
//! claims over a server-held symmetric secret, built on the
//! jsonwebtoken crate.
//!
//! The claims are `{sub, iat, exp}` with a fixed one-hour window.
//! Sessions are stateless: validity is entirely signature plus expiry,
//! checked against a caller-supplied clock value, and every failure
//! (bad signature, malformed token, expired) looks the same.

use vstd::prelude::*;

use crate::text::{dec_rep, i32_to_dec, lemma_parse_dec_rep, parse_i32, parse_i32_spec};

verus! {

/// Seconds a session token stays valid after issue.
pub const TOKEN_LIFETIME_SECS: usize = 3600;

/// The signed facts carried by a session token: the subject (a guest id
/// as a decimal string), the issue time and the expiry time, both in
/// epoch seconds.
pub struct TokenClaims {
    pub sub: String,
    pub iat: usize,
    pub exp: usize,
}

/// The token that jsonwebtoken's `encode` produces, under its default
/// HS256 header, for claims `{sub, iat, exp}` and this secret: a
/// function of those values alone.
pub uninterp spec fn jwt_encoding(sub: Seq<char>, iat: int, exp: int, secret: Seq<u8>) -> Seq<char>;

/// What jsonwebtoken's `decode` yields for a token under a secret, with
/// time-based checking turned off: the claims when the signature checks
/// out and the claims deserialize, nothing otherwise. A function of the
/// token and the secret alone.
pub uninterp spec fn jwt_decoding(token: Seq<char>, secret: Seq<u8>) -> Option<
    (Seq<char>, usize, usize),
>;

/// Relies on jsonwebtoken::encode with the default HS256 header: the
/// returned token is a function of the claims and the secret alone, and
/// `decode` under the same secret accepts it and yields the claims it
/// was encoded from (the documented encode/decode round trip). For an
/// HMAC key under its matching header, with string-keyed claims,
/// `encode` cannot fail: serializing the two parts cannot error and
/// HMAC signing always succeeds.
#[verifier::external_body]
fn jwt_encode(sub: &str, iat: usize, exp: usize, secret: &[u8]) -> (t: String)
    ensures
        t@ == jwt_encoding(sub@, iat as int, exp as int, secret@),
        jwt_decoding(t@, secret@) == Some((sub@, iat, exp)),
{
    let mut claims = serde_json::Map::new();
    claims.insert("sub".to_string(), serde_json::Value::from(sub));
    claims.insert("iat".to_string(), serde_json::Value::from(iat as u64));
    claims.insert("exp".to_string(), serde_json::Value::from(exp as u64));
    jsonwebtoken::encode(
        &jsonwebtoken::Header::default(),
        &serde_json::Value::Object(claims),
        &jsonwebtoken::EncodingKey::from_secret(secret),
    )
    .unwrap()
}

/// Relies on jsonwebtoken::decode with `validate_exp` off: acceptance
/// and the returned claims depend on the token and the secret alone
/// (signature verification, then claim deserialization).
#[verifier::external_body]
fn jwt_decode(token: &str, secret: &[u8]) -> (r: Option<(String, usize, usize)>)
    ensures
        r matches Some(c) ==> jwt_decoding(token@, secret@) == Some((c.0@, c.1, c.2)),
        r is None ==> jwt_decoding(token@, secret@) is None,
{
    let mut validation = jsonwebtoken::Validation::default();
    validation.validate_exp = false;
    let data = jsonwebtoken::decode::<serde_json::Map<String, serde_json::Value>>(
        token,
        &jsonwebtoken::DecodingKey::from_secret(secret),
        &validation,
    )
    .ok()?;
    let sub = data.claims.get("sub")?.as_str()?.to_string();
    let iat = usize::try_from(data.claims.get("iat")?.as_u64()?).ok()?;
    let exp = usize::try_from(data.claims.get("exp")?.as_u64()?).ok()?;
    Some((sub, iat, exp))
}

/// The token issued for `subject` at time `now`.
pub open spec fn issued_token(subject: i32, now: usize, secret: Seq<u8>) -> Seq<char> {
    jwt_encoding(dec_rep(subject as int), now as int, now as int + TOKEN_LIFETIME_SECS, secret)
}

/// What `validate` answers: the subject of the decoded claims when the
/// signature checks out, the expiry lies strictly in the future and the
/// subject claim is a decimal `i32`; nothing otherwise.
pub open spec fn validate_spec(token: Seq<char>, now: usize, secret: Seq<u8>) -> Option<i32> {
    match jwt_decoding(token, secret) {
        Some(c) => if c.2 > now && parse_i32_spec(c.0) is Some {
            Some(parse_i32_spec(c.0).unwrap())
        } else {
            None
        },
        None => None,
    }
}

/// Issues a signed session token for `subject`: claims are the subject
/// id as a decimal string, issued-at `now`, expiry `now` plus one hour.
/// Issuing always succeeds, and the token decodes, under the same
/// secret, back to those claims.
pub fn issue(subject: i32, now: usize, secret: &[u8]) -> (t: String)
    requires
        now + TOKEN_LIFETIME_SECS <= usize::MAX,
    ensures
        t@ == issued_token(subject, now, secret@),
        jwt_decoding(t@, secret@) == Some(
            (dec_rep(subject as int), now, (now + TOKEN_LIFETIME_SECS) as usize),
        ),
{
    let claims = TokenClaims {
        sub: i32_to_dec(subject),
        iat: now,
        exp: now + TOKEN_LIFETIME_SECS,
    };
    jwt_encode(claims.sub.as_str(), claims.iat, claims.exp, secret)
}

/// Validates a token at time `now` and returns its subject. A bad
/// signature, a malformed token or claims, and an expiry at or before
/// `now` are indistinguishable: all yield `None`.
pub fn validate(token: &str, now: usize, secret: &[u8]) -> (r: Option<i32>)
    ensures
        r == validate_spec(token@, now, secret@),
{
    let decoded = jwt_decode(token, secret);
    match decoded {
        Some(c) => {
            if c.2 > now {
                match parse_i32(c.0.as_str()) {
                    Some(id) => Some(id),
                    None => None,
                }
            } else {
                None
            }
        },
        None => None,
    }
}

/// Round trip of the codec: a token issued for `subject` at time `now`
/// validates to `subject` at any `check` time strictly before its
/// expiry, and to nothing at or after it.
pub fn issue_then_validate(subject: i32, now: usize, check: usize, secret: &[u8]) -> (r: Option<
    i32,
>)
    requires
        now + TOKEN_LIFETIME_SECS <= usize::MAX,
    ensures
        r == (if now + TOKEN_LIFETIME_SECS > check {
            Some(subject)
        } else {
            None::<i32>
        }),
{
    let t = issue(subject, now, secret);
    proof {
        lemma_parse_dec_rep(subject as int);
    }
    validate(t.as_str(), check, secret)
}

} // verus!
