//! Password digests: salted, memory-hard, and checked without telling why a
//! check failed.

use vstd::prelude::*;
use vstd::string::StringSliceAdditionalSpecFns;
use hmac::{Hmac, Mac, NewMac};
use sha2::Sha256;
use crate::auxiliary::responses::GenericError;
use crate::text::{hex_upper, hex_upper_text};

verus! {

/// The encoded Argon2 digest that `argon2::hash_encoded` makes of a password
/// and a salt under its default settings, or nothing where it refuses them
/// (a salt of less than eight bytes, for one).
pub uninterp spec fn argon2_digest(plaintext: Seq<u8>, salt: Seq<u8>) -> Option<Seq<char>>;

/// What `argon2::verify_encoded` finds: whether `plaintext` hashes to the
/// digest, under the settings and the salt that the digest itself carries, or
/// nothing where the digest cannot be read.
pub uninterp spec fn argon2_matches(digest: Seq<char>, plaintext: Seq<u8>) -> Option<bool>;

/// Calls `argon2::hash_encoded` with `argon2::Config::default()`. The digest
/// depends on the password and the salt alone; the contract names it. It also
/// states what the crate's documentation shows by example: a digest made of a
/// password verifies against that password.
#[verifier::external_body]
pub(crate) fn hash_encoded(plaintext: &[u8], salt: &[u8]) -> (digest: Option<String>)
    ensures
        match digest {
            Some(d) => argon2_digest(plaintext@, salt@) == Some(d@),
            None => argon2_digest(plaintext@, salt@) is None,
        },
        digest matches Some(d) ==> argon2_matches(d@, plaintext@) == Some(true),
{
    argon2::hash_encoded(plaintext, salt, &argon2::Config::default()).ok()
}

/// Calls `argon2::verify_encoded`, which recomputes the hash with the
/// settings and the salt found in `digest` and compares in constant time. The
/// memory and the time that this takes are those that the digest asks for.
/// The contract names the result.
#[verifier::external_body]
pub(crate) fn verify_encoded(digest: &str, plaintext: &[u8]) -> (matches: Option<bool>)
    ensures
        matches == argon2_matches(digest@, plaintext@),
{
    argon2::verify_encoded(digest, plaintext).ok()
}

/// Whether `plaintext` is the password behind `digest`. Where the digest
/// cannot be read the answer is no.
pub open spec fn password_verifies(plaintext: Seq<u8>, digest: Seq<char>) -> bool {
    argon2_matches(digest, plaintext) == Some(true)
}

/// What becomes of the outcome of hashing: the digest, or the error that
/// tells that the server could not make one.
pub fn digest_or_error(hashed: Option<String>) -> (out: Result<String, GenericError>)
    ensures
        out == match hashed {
            Some(digest) => Ok::<String, GenericError>(digest),
            None => Err::<String, GenericError>(GenericError::ServerInternalError),
        },
{
    match hashed {
        Some(digest) => Ok(digest),
        None => Err(GenericError::ServerInternalError),
    }
}

/// Hashes a password with the salt of the installation. The digest made here
/// verifies against the same password.
pub fn hash_password(plaintext: &str, salt: &str) -> (out: Result<String, GenericError>)
    ensures
        match out {
            Ok(d) => argon2_digest(plaintext.spec_bytes(), salt.spec_bytes()) == Some(d@),
            Err(e) => e == GenericError::ServerInternalError && argon2_digest(
                plaintext.spec_bytes(),
                salt.spec_bytes(),
            ) is None,
        },
        out matches Ok(d) ==> password_verifies(plaintext.spec_bytes(), d@),
{
    digest_or_error(hash_encoded(plaintext.as_bytes(), salt.as_bytes()))
}

/// Checks a password against a digest. Any failure inside the check counts
/// as a wrong password.
pub fn verify_password(plaintext: &str, digest: &str) -> (ok: bool)
    ensures
        ok == password_verifies(plaintext.spec_bytes(), digest@),
{
    match verify_encoded(digest, plaintext.as_bytes()) {
        Some(true) => true,
        _ => false,
    }
}


/// The HMAC-SHA256 of a message under a key.
pub uninterp spec fn hmac_sha256(key: Seq<u8>, message: Seq<u8>) -> Seq<u8>;

/// Makes the keyed hash with `Hmac::<Sha256>::new_varkey`, feeds it the
/// message with `update` and takes the code with `finalize` and
/// `into_bytes`. `new_varkey` takes a key of every length. The code depends
/// on the key and the message alone; the contract names it.
#[verifier::external_body]
pub(crate) fn keyed_hash(key: &[u8], message: &[u8]) -> (code: Vec<u8>)
    ensures
        code@ == hmac_sha256(key@, message@),
{
    let mut mac = <Hmac<Sha256> as NewMac>::new_varkey(key).expect("a key of any length");
    mac.update(message);
    mac.finalize().into_bytes().to_vec()
}

/// The HMAC-SHA256 of a message under a key, in uppercase hexadecimal.
pub open spec fn hmac_sha256_hex(key: Seq<u8>, message: Seq<u8>) -> Seq<char> {
    hex_upper(hmac_sha256(key, message))
}

/// The digest under which the document store keeps a password: the keyed
/// hash of what the client sent, under the salt of the installation, in
/// uppercase hexadecimal.
pub fn keyed_digest(salt: &str, sent: &str) -> (digest: String)
    ensures
        digest@ == hmac_sha256_hex(salt.spec_bytes(), sent.spec_bytes()),
{
    let code = keyed_hash(salt.as_bytes(), sent.as_bytes());
    hex_upper_text(code.as_slice())
}

} // verus!
