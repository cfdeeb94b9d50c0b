use vstd::prelude::*;
use crate::config::Outer;
use crate::error::JwtError;
use crate::value::{to_toml, ClaimValue};

verus! {

/// Declares `jsonwebtoken::errors::Error`, the error of a failed signing.
#[verifier::external_type_specification]
#[verifier::external_body]
pub struct ExJwtError(jsonwebtoken::errors::Error);

/// A character of the URL-safe base64 alphabet.
pub open spec fn is_base64url_char(c: char) -> bool {
    ('A' <= c && c <= 'Z') || ('a' <= c && c <= 'z') || ('0' <= c && c <= '9') || c == '-' || c == '_'
}

/// A non-empty run of URL-safe base64 characters.
pub open spec fn is_segment(s: Seq<char>) -> bool {
    s.len() > 0 && forall|i: int| 0 <= i < s.len() ==> is_base64url_char(#[trigger] s[i])
}

/// The compact form of a signed token: header, claims and signature, each
/// URL-safe base64, joined by dots.
pub open spec fn is_compact_token(t: Seq<char>) -> bool {
    exists|h: Seq<char>, c: Seq<char>, s: Seq<char>|
        #![trigger is_segment(h), is_segment(c), is_segment(s)]
        is_segment(h) && is_segment(c) && is_segment(s) && t == h + seq!['.'] + c + seq!['.'] + s
}

/// The HS256 token that signing `claims` with `secret` gives, or `None` where
/// signing fails.
pub uninterp spec fn hs256_token(claims: Seq<(String, ClaimValue)>, secret: Seq<char>) -> Option<Seq<char>>;

/// Relies on `jsonwebtoken::encode` with `Header::default()` (HS256) and
/// `EncodingKey::from_secret` over the secret's bytes, the claims being the
/// table of the given entries: the outcome depends on the claims and the
/// secret alone, and a token joins the URL-safe unpadded base64 of the
/// header's JSON, of the claims' JSON and of the HMAC-SHA256 tag with dots.
#[verifier::external_body]
fn encode_hs256(claims: &Vec<(String, ClaimValue)>, secret: &str) -> (r: Result<String, jsonwebtoken::errors::Error>)
    ensures
        r is Ok <==> hs256_token(claims@, secret@) is Some,
        r matches Ok(t) ==> hs256_token(claims@, secret@) == Some(t@),
        r matches Ok(t) ==> is_compact_token(t@),
{
    let table: toml::Table = claims.iter().map(|(k, v)| (k.clone(), to_toml(v))).collect();
    let key = jsonwebtoken::EncodingKey::from_secret(secret.as_bytes());
    jsonwebtoken::encode(&jsonwebtoken::Header::default(), &table, &key)
}

/// Relies on the `Display` text of `jsonwebtoken::errors::Error`, its diagnostic.
#[verifier::external_body]
fn jwt_error_text(e: &jsonwebtoken::errors::Error) -> String {
    e.to_string()
}

/// The token that signing the claims of `config` with its secret gives.
pub open spec fn token_of(config: Outer) -> Option<Seq<char>> {
    hs256_token(config.payload@, config.secretkey.value@)
}

/// Signs the claims of `config`, as given, with its secret under HS256.
pub fn create_jwt(config: &Outer) -> (r: Result<String, JwtError>)
    ensures
        r is Ok <==> token_of(*config) is Some,
        r matches Ok(t) ==> token_of(*config) == Some(t@) && is_compact_token(t@),
        r matches Err(e) ==> e is CreateTokenErr,
{
    match encode_hs256(&config.payload, config.secretkey.value.as_str()) {
        Ok(t) => Ok(t),
        Err(e) => Err(JwtError::CreateTokenErr(jwt_error_text(&e))),
    }
}

/// Signing is deterministic: configurations with the same claims and the
/// same secret give the same token, or both fail.
pub proof fn lemma_signing_deterministic(a: Outer, b: Outer)
    requires
        a.payload@ == b.payload@,
        a.secretkey.value@ == b.secretkey.value@,
    ensures
        token_of(a) == token_of(b),
{
}

} // verus!
