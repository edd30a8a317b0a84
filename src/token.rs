use std::collections::BTreeMap;

use jsonwebtoken::errors::ErrorKind;
use jsonwebtoken::{decode, encode, Algorithm, DecodingKey, EncodingKey, Header, Validation};
use serde_json::Value;
use vstd::prelude::*;
use vstd::utf8::*;

use crate::error::ServiceError;
use crate::models::Claims;

verus! {

/// Why the signature layer refused a token.
#[derive(Clone, Copy, Debug, PartialEq, Eq, Structural)]
pub enum TokenFault {
    /// The token is well formed but its HMAC does not verify under the secret.
    BadSignature,
    /// The token cannot be split, decoded or read as claims.
    Unreadable,
}

/// What an HS256 decoding of `token` under `secret` yields, without any clock
/// check: the subject and expiry it carries, or why it was refused.
pub uninterp spec fn jwt_claims_of(token: Seq<char>, secret: Seq<u8>) -> Result<
    (Seq<char>, u64),
    TokenFault,
>;

/// Decoding that yields the subject `sub` and expiry `exp`.
pub open spec fn decodes_to(sub: Seq<char>, exp: u64) -> Result<(Seq<char>, u64), TokenFault> {
    Ok((sub, exp))
}

/// A character that a signed token may hold: the base64url alphabet and the
/// dots that join the token's three parts.
pub open spec fn is_token_char(c: char) -> bool {
    ||| ('A' <= c && c <= 'Z')
    ||| ('a' <= c && c <= 'z')
    ||| ('0' <= c && c <= '9')
    ||| c == '-'
    ||| c == '_'
    ||| c == '.'
}

/// Whether `t` has the shape of a signed token: not empty, and made of token
/// characters only.
pub open spec fn token_shaped(t: Seq<char>) -> bool {
    t.len() > 0 && forall|i: int| 0 <= i < t.len() ==> is_token_char(#[trigger] t[i])
}

/// Relies on `jsonwebtoken::encode` with the default header (HS256), whose
/// key family matches the HMAC key and whose claims are a string-keyed map, so
/// that it returns a token: three base64url parts joined by dots, which
/// decodes under the same secret to exactly the claims that were signed.
#[verifier::external_body]
fn sign_claims(sub: &str, exp: u64, secret: &[u8]) -> (r: Option<String>)
    ensures
        r is Some,
        r is Some ==> token_shaped(r->Some_0@),
        r is Some ==> jwt_claims_of(r->Some_0@, secret@) == decodes_to(sub@, exp),
{
    let claims: BTreeMap<&str, Value> = [("sub", Value::from(sub)), ("exp", Value::from(exp))]
        .into_iter()
        .collect();
    encode(&Header::default(), &claims, &EncodingKey::from_secret(secret)).ok()
}

/// Decoding that refuses the token for `fault`.
pub open spec fn refused(fault: TokenFault) -> Result<(Seq<char>, u64), TokenFault> {
    Err(fault)
}

/// Relies on `jsonwebtoken::decode` with HS256 and its expiry check switched
/// off: the outcome depends on the token and the secret alone.
#[verifier::external_body]
fn read_claims(token: &str, secret: &[u8]) -> (r: Result<Claims, TokenFault>)
    ensures
        match r {
            Ok(c) => jwt_claims_of(token@, secret@) == decodes_to(c.sub@, c.exp),
            Err(f) => jwt_claims_of(token@, secret@) == refused(f),
        },
{
    let mut validation = Validation::new(Algorithm::HS256);
    validation.validate_exp = false;
    let key = DecodingKey::from_secret(secret);
    match decode::<BTreeMap<String, Value>>(token, &key, &validation) {
        Ok(data) => match (
            data.claims.get("sub").and_then(Value::as_str),
            data.claims.get("exp").and_then(Value::as_u64),
        ) {
            (Some(sub), Some(exp)) => Ok(Claims { sub: sub.to_string(), exp }),
            _ => Err(TokenFault::Unreadable),
        },
        Err(e) if *e.kind() == ErrorKind::InvalidSignature => Err(TokenFault::BadSignature),
        Err(_) => Err(TokenFault::Unreadable),
    }
}

/// Relies on `std::str::from_utf8`: bytes are text exactly when they are
/// well-formed UTF-8, and the text is what they encode.
#[verifier::external_body]
pub(crate) fn utf8_text(b: &[u8]) -> (r: Option<&str>)
    ensures
        r is Some <==> valid_utf8(b@),
        r is Some ==> r->Some_0@ == decode_utf8(b@),
{
    std::str::from_utf8(b).ok()
}

/// The claims of a decoded token, seen as subject and expiry.
pub open spec fn claims_model<E>(r: Result<Claims, E>) -> Result<(Seq<char>, u64), E> {
    match r {
        Ok(c) => Ok(c@),
        Err(e) => Err(e),
    }
}

/// How the guard judges what decoding produced, at time `now` (milliseconds
/// since the epoch): a refused signature or an unreadable token is rejected as
/// such, and readable claims are accepted only strictly before their expiry.
pub open spec fn verdict(decoded: Result<(Seq<char>, u64), TokenFault>, now: u64) -> Result<
    (Seq<char>, u64),
    ServiceError,
> {
    match decoded {
        Err(TokenFault::BadSignature) => Err(ServiceError::AuthInvalidSignature),
        Err(TokenFault::Unreadable) => Err(ServiceError::AuthMalformed),
        Ok((sub, exp)) => if now < exp {
            Ok((sub, exp))
        } else {
            Err(ServiceError::AuthExpired)
        },
    }
}

/// Judges the outcome of decoding a token at time `now`.
pub fn judge_claims(decoded: Result<Claims, TokenFault>, now: u64) -> (r: Result<
    Claims,
    ServiceError,
>)
    ensures
        claims_model(r) == verdict(claims_model(decoded), now),
{
    match decoded {
        Err(TokenFault::BadSignature) => Err(ServiceError::AuthInvalidSignature),
        Err(TokenFault::Unreadable) => Err(ServiceError::AuthMalformed),
        Ok(c) => if now < c.exp {
            Ok(c)
        } else {
            Err(ServiceError::AuthExpired)
        },
    }
}

/// Checks a token's signature under `secret` and its expiry against `now`.
pub fn validate(token: &str, secret: &[u8], now: u64) -> (r: Result<Claims, ServiceError>)
    ensures
        claims_model(r) == verdict(jwt_claims_of(token@, secret@), now),
{
    judge_claims(read_claims(token, secret), now)
}

/// Issues a token for `subject` that expires `ttl` milliseconds after `now`.
/// A failure of the signing layer would be reported as `Internal`; with an
/// HMAC key and these claims there is none.
pub fn mint(subject: &str, ttl: u64, now: u64, secret: &[u8]) -> (r: Result<String, ServiceError>)
    requires
        now + ttl <= u64::MAX,
    ensures
        r is Ok,
        r matches Ok(t) ==> token_shaped(t@),
        match r {
            Ok(t) => jwt_claims_of(t@, secret@) == decodes_to(subject@, (now + ttl) as u64),
            Err(e) => e == ServiceError::Internal,
        },
{
    match sign_claims(subject, now + ttl, secret) {
        Some(t) => Ok(t),
        None => Err(ServiceError::Internal),
    }
}

/// A token minted for a subject with a lifetime `ttl` at time `issued`
/// validates, at any time before `issued + ttl`, to that same subject and
/// expiry.
pub proof fn lemma_mint_then_validate(
    token: Seq<char>,
    secret: Seq<u8>,
    subject: Seq<char>,
    ttl: u64,
    issued: u64,
    now: u64,
)
    requires
        issued + ttl <= u64::MAX,
        jwt_claims_of(token, secret) == decodes_to(subject, (issued + ttl) as u64),
        now < issued + ttl,
    ensures
        verdict(jwt_claims_of(token, secret), now) matches Ok((s, exp)) && s == subject && exp
            == issued + ttl,
{
}

/// Once the expiry of readable claims has been reached, the token is rejected
/// as expired, whatever the subject.
pub proof fn lemma_expired_rejected(decoded: Result<(Seq<char>, u64), TokenFault>, now: u64)
    requires
        decoded matches Ok((_, exp)) && exp <= now,
    ensures
        verdict(decoded, now) matches Err(e) && e == ServiceError::AuthExpired,
{
}

} // verus!
