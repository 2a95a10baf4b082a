//! The calls into `jsonwebtoken` and `serde_json` on which the credential
//! codec rests. Nothing in this file is proved: each contract gives the
//! result of the outside call a name, so that the codec can say exactly what
//! it does with it.

use vstd::prelude::*;
use jsonwebtoken::{Algorithm, DecodingKey, EncodingKey, Header, Validation};
use serde_json::Value;

verus! {

/// How tokens are signed: with a secret that both sides share, or with a
/// private RSA key whose public half checks the signature.
#[derive(Clone, Copy, Debug, PartialEq, Eq, Structural)]
pub enum SigningScheme {
    /// HMAC with SHA-256. The key is the secret itself.
    Hs256,
    /// RSA with SHA-256. The key is a PEM file: the private key for signing,
    /// the public key for checking.
    Rs256,
}

/// A key of the codec: the scheme it is for, and its bytes. It is made once,
/// when the server starts, and handed to whatever signs or checks tokens.
#[derive(Clone, Debug, PartialEq, Eq)]
pub struct CodecKey {
    pub scheme: SigningScheme,
    pub material: Vec<u8>,
}

/// What `jsonwebtoken::crypto::verify` finds: whether `signature` is the
/// signature of `message` under `key`, or nothing where the key or the
/// signature cannot be read.
pub uninterp spec fn signature_holds(
    scheme: SigningScheme,
    signature: Seq<char>,
    message: Seq<char>,
    key: Seq<u8>,
) -> Option<bool>;

/// Makes the key with `DecodingKey::from_secret` or
/// `DecodingKey::from_rsa_pem` and calls `jsonwebtoken::crypto::verify`. The
/// check uses nothing but its arguments; the contract names its result.
#[verifier::external_body]
pub(crate) fn check_signature(
    scheme: SigningScheme,
    signature: &str,
    message: &str,
    key: &[u8],
) -> (held: Option<bool>)
    ensures
        held == signature_holds(scheme, signature@, message@, key@),
{
    let (key, algorithm) = match scheme {
        SigningScheme::Hs256 => (DecodingKey::from_secret(key), Algorithm::HS256),
        SigningScheme::Rs256 => (DecodingKey::from_rsa_pem(key).ok()?, Algorithm::RS256),
    };
    jsonwebtoken::crypto::verify(signature, message, &key, algorithm).ok()
}

/// The claims that `jsonwebtoken::decode` reads from a token, as JSON text,
/// with the check of the expiry claim against the clock switched off; nothing
/// where it refuses the token.
pub uninterp spec fn jwt_payload(scheme: SigningScheme, token: Seq<char>, key: Seq<u8>) -> Option<
    Seq<char>,
>;

/// Makes the key with `DecodingKey::from_secret` or
/// `DecodingKey::from_rsa_pem` and calls `jsonwebtoken::decode`, which checks
/// the header, the algorithm and the signature and parses the claims. The
/// call reads the clock, but with the check of the expiry claim switched off
/// nothing is compared with it, so the outcome depends on the token and the
/// key alone; the contract names it. The claims come back as compact JSON
/// text.
#[verifier::external_body]
pub(crate) fn decode_payload(scheme: SigningScheme, token: &str, key: &[u8]) -> (payload: Option<
    String,
>)
    ensures
        match payload {
            Some(json) => jwt_payload(scheme, token@, key@) == Some(json@),
            None => jwt_payload(scheme, token@, key@) is None,
        },
{
    let (key, algorithm) = match scheme {
        SigningScheme::Hs256 => (DecodingKey::from_secret(key), Algorithm::HS256),
        SigningScheme::Rs256 => (DecodingKey::from_rsa_pem(key).ok()?, Algorithm::RS256),
    };
    let mut rules = Validation::new(algorithm);
    rules.validate_exp = false;
    let data = jsonwebtoken::decode::<Value>(token, &key, &rules).ok()?;
    Some(data.claims.to_string())
}

/// The value of one claim: a whole number or a text.
#[derive(Clone, Debug, PartialEq, Eq)]
pub enum ClaimValue {
    Integer(i64),
    Unsigned(u64),
    Text(String),
}

/// One claim of a token: its name and its value.
#[derive(Clone, Debug, PartialEq, Eq)]
pub struct Claim {
    pub name: String,
    pub value: ClaimValue,
}

/// The mathematical content of a [`ClaimValue`]. A number is the same claim
/// whichever of the two integer types carried it.
pub enum ClaimValueView {
    Integer(int),
    Text(Seq<char>),
}

/// The mathematical content of a [`Claim`].
pub struct ClaimView {
    pub name: Seq<char>,
    pub value: ClaimValueView,
}

impl View for ClaimValue {
    type V = ClaimValueView;

    open spec fn view(&self) -> ClaimValueView {
        match self {
            ClaimValue::Integer(n) => ClaimValueView::Integer(*n as int),
            ClaimValue::Unsigned(n) => ClaimValueView::Integer(*n as int),
            ClaimValue::Text(t) => ClaimValueView::Text(t@),
        }
    }
}

impl View for Claim {
    type V = ClaimView;

    open spec fn view(&self) -> ClaimView {
        ClaimView { name: self.name@, value: self.value@ }
    }
}

/// The mathematical content of a list of claims.
pub open spec fn claim_views(claims: Seq<Claim>) -> Seq<ClaimView> {
    claims.map_values(|claim: Claim| claim@)
}

/// What `jsonwebtoken::encode` writes for a list of claims: the token, or
/// nothing where it refuses the key or the claims.
pub uninterp spec fn jwt_token(scheme: SigningScheme, claims: Seq<ClaimView>, key: Seq<u8>) -> Option<
    Seq<char>,
>;

/// Makes the key with `EncodingKey::from_secret` or
/// `EncodingKey::from_rsa_pem`, puts the claims one after the other into a
/// `serde_json::Map` and calls `jsonwebtoken::encode` with a header of the
/// scheme. Where it succeeds, the token is the same for the same claims and
/// key, and the contract names it. With a shared secret nothing but the
/// arguments decides whether it succeeds, so there a failure is named too.
/// With an RSA key, signing also draws on the random numbers of the system,
/// and a failure may come from there: of a failure the contract then says
/// nothing.
#[verifier::external_body]
pub(crate) fn sign_claims(scheme: SigningScheme, claims: &Vec<Claim>, key: &[u8]) -> (token: Option<
    String,
>)
    ensures
        token matches Some(t) ==> jwt_token(scheme, claim_views(claims@), key@) == Some(t@),
        scheme == SigningScheme::Hs256 && token is None ==> jwt_token(
            scheme,
            claim_views(claims@),
            key@,
        ) is None,
{
    let (key, algorithm) = match scheme {
        SigningScheme::Hs256 => (EncodingKey::from_secret(key), Algorithm::HS256),
        SigningScheme::Rs256 => (EncodingKey::from_rsa_pem(key).ok()?, Algorithm::RS256),
    };
    let mut object = serde_json::Map::new();
    for claim in claims {
        object.insert(claim.name.clone(), match &claim.value {
            ClaimValue::Integer(n) => Value::from(*n),
            ClaimValue::Unsigned(n) => Value::from(*n),
            ClaimValue::Text(t) => Value::from(t.as_str()),
        });
    }
    jsonwebtoken::encode(&Header::new(algorithm), &object, &key).ok()
}

/// The whole number that `serde_json` finds under `member` in a JSON object,
/// where there is one that fits 64 signed bits.
pub uninterp spec fn json_integer(json: Seq<char>, member: Seq<char>) -> Option<int>;

/// Parses `json` with `serde_json::from_str`, looks `member` up with
/// `Value::get` and reads it with `Value::as_i64`. The contract names the
/// result.
#[verifier::external_body]
pub(crate) fn read_json_integer(json: &str, member: &str) -> (found: Option<i64>)
    ensures
        match found {
            Some(n) => json_integer(json@, member@) == Some(n as int),
            None => json_integer(json@, member@) is None,
        },
{
    serde_json::from_str::<Value>(json).ok()?.get(member)?.as_i64()
}

/// The text that `serde_json` finds under `member` in a JSON object, where
/// there is a string.
pub uninterp spec fn json_text(json: Seq<char>, member: Seq<char>) -> Option<Seq<char>>;

/// Parses `json` with `serde_json::from_str`, looks `member` up with
/// `Value::get` and reads it with `Value::as_str`. The contract names the
/// result.
#[verifier::external_body]
pub(crate) fn read_json_text(json: &str, member: &str) -> (found: Option<String>)
    ensures
        match found {
            Some(t) => json_text(json@, member@) == Some(t@),
            None => json_text(json@, member@) is None,
        },
{
    serde_json::from_str::<Value>(json).ok()?.get(member)?.as_str().map(str::to_owned)
}

} // verus!
